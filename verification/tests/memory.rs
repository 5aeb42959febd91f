use cot_constructs::ir::{Attr, NamedAttr, OpTrait};
use cot_constructs::memory::ops::{addr_of_op, alloca_op, deref_op, load_op, register_ops, store_op, MemoryOp};
use cot_constructs::memory::types::{ptr_type, ref_type, PtrType, RefType};

const I32: u32 = 132;
const I64: u32 = 164;
const PTR: u32 = 900;
const REF_I32: u32 = 910;

#[test]
fn register_memory_ops() {
    let dialect = register_ops();
    assert!(dialect.get_op("cir.alloca").is_some());
    assert!(dialect.get_op("cir.store").is_some());
    assert!(dialect.get_op("cir.load").is_some());
    assert!(dialect.get_op("cir.addr_of").is_some());
    assert!(dialect.get_op("cir.deref").is_some());
}

#[test]
fn register_all_5_ops() {
    let dialect = register_ops();
    let expected_ops = ["cir.alloca", "cir.store", "cir.load", "cir.addr_of", "cir.deref"];
    assert_eq!(dialect.ops.len(), 5);
    for name in &expected_ops {
        assert!(dialect.get_op(name).is_some(), "missing op: {}", name);
    }
}

#[test]
fn memory_op_traits_correct() {
    let dialect = register_ops();
    let alloca = dialect.get_op("cir.alloca").unwrap();
    assert!(!alloca.has_trait(OpTrait::Pure));
    assert!(!alloca.has_trait(OpTrait::Terminator));
    assert!(!dialect.get_op("cir.store").unwrap().has_trait(OpTrait::Pure));
    assert!(!dialect.get_op("cir.load").unwrap().has_trait(OpTrait::Pure));
    assert!(dialect.get_op("cir.addr_of").unwrap().has_trait(OpTrait::Pure));
    assert!(!dialect.get_op("cir.deref").unwrap().has_trait(OpTrait::Pure));
}

#[test]
fn build_alloca_store_load() {
    let ptr_op = alloca_op::<u32, u32>(I32, PTR);
    assert_eq!(ptr_op.name, "cir.alloca");
    assert_eq!(ptr_op.result_types, vec![PTR]);
    let store = store_op::<u32, u32>(5, 6);
    assert_eq!(store.name, "cir.store");
    assert_eq!(store.operands, vec![5, 6]);
    let load = load_op::<u32, u32>(6, I32);
    assert_eq!(load.name, "cir.load");
    assert_eq!(load.operands, vec![6]);
    assert_eq!(load.result_types, vec![I32]);
}

#[test]
fn alloca_has_elem_type_attribute() {
    let op = alloca_op::<u32, u32>(I64, PTR);
    match &op.attributes[0] {
        NamedAttr { name: "elem_type", value: Attr::Type(ty) } => assert_eq!(*ty, I64),
        _ => panic!("expected Type attribute for elem_type"),
    }
}

#[test]
fn build_addr_of_and_deref() {
    let r = addr_of_op::<u32, u32>(6, REF_I32);
    assert_eq!(r.name, "cir.addr_of");
    assert_eq!(r.operands, vec![6]);
    assert_eq!(r.result_types, vec![REF_I32]);
    let v = deref_op::<u32, u32>(12, I32);
    assert_eq!(v.name, "cir.deref");
    assert_eq!(v.result_types, vec![I32]);
    assert_eq!(MemoryOp::from_name("cir.deref"), Some(MemoryOp::Deref));
}

#[test]
fn ptr_type_is_stable() {
    let ptr1 = ptr_type::<u32>();
    let ptr2 = ptr_type::<u32>();
    assert_eq!(ptr1, ptr2, "ptr_type should return the same descriptor");
    assert_eq!(PtrType.descriptor::<u32>(), ptr1);
    assert_eq!(ptr1.name, "ptr");
}

#[test]
fn ref_type_parameterized() {
    let ref_i32 = ref_type(I32);
    let ref_i64 = ref_type(I64);
    let ref_i32_again = ref_type(I32);
    assert_ne!(ref_i32, ref_i64, "ref<i32> and ref<i64> should differ");
    assert_eq!(ref_i32, ref_i32_again, "ref<i32> should be the same");
    assert_eq!(RefType { pointee: I32 }.descriptor(), ref_i32);
    assert_ne!(ref_i32, ptr_type());
}

#[test]
fn store_has_no_results() {
    let store = store_op::<u32, u32>(1, 2);
    assert_eq!(store.result_types.len(), 0);
}
