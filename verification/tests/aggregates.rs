use cot_constructs::arrays::ops::{array_init_op, elem_ptr_op, elem_val_op, ArrayOp};
use cot_constructs::arrays::types::array_type;
use cot_constructs::ir::{Attr, NamedAttr, OpTrait};
use cot_constructs::structs::ops::{field_ptr_op, field_val_op, struct_init_op, StructOp};
use cot_constructs::structs::types::StructType;
use cot_constructs::unions::types::TaggedUnionType;

const I32: u32 = 132;
const I64: u32 = 164;
const F64: u32 = 264;
const PTR: u32 = 900;
const ARR: u32 = 901;

#[test]
fn register_array_ops() {
    let dialect = cot_constructs::arrays::ops::register_ops();
    assert!(dialect.get_op("cir.array_init").is_some());
    assert!(dialect.get_op("cir.elem_val").is_some());
    assert!(dialect.get_op("cir.elem_ptr").is_some());
}

#[test]
fn register_all_3_ops() {
    let dialect = cot_constructs::arrays::ops::register_ops();
    let expected_ops = ["cir.array_init", "cir.elem_val", "cir.elem_ptr"];
    assert_eq!(dialect.ops.len(), 3);
    for name in &expected_ops {
        assert!(dialect.get_op(name).is_some(), "missing op: {}", name);
    }
}

#[test]
fn lib_op_traits_correct() {
    let dialect = cot_constructs::arrays::ops::register_ops();
    for name in &["cir.array_init", "cir.elem_val", "cir.elem_ptr"] {
        let op = dialect.get_op(name).unwrap();
        assert!(op.has_trait(OpTrait::Pure), "{} should be Pure", name);
    }
    assert_eq!(ArrayOp::from_name("cir.elem_ptr"), Some(ArrayOp::ElemPtr));
}

#[test]
fn create_array_type() {
    let ty = array_type(4, I32);
    assert_eq!(ty.dialect, "cir");
    assert_eq!(ty.name, "array");
    assert_eq!(ty.int_params, vec![4]);
    assert_eq!(ty.type_params.len(), 1);
    assert_eq!(ty.type_params[0], I32);
    assert!(ty.string_params.is_empty());
}

#[test]
fn array_type_interning() {
    let ty1 = array_type(3, F64);
    let ty2 = array_type(3, F64);
    assert_eq!(ty1, ty2);
}

#[test]
fn different_sizes_different_types() {
    let ty3 = array_type(3, I32);
    let ty4 = array_type(4, I32);
    assert_ne!(ty3, ty4);
    assert_ne!(array_type(3, I32), array_type(3, I64));
}

#[test]
fn build_array_init_op() {
    let op = array_init_op::<u32, u32>(&[1, 2, 3], ARR);
    assert_eq!(op.name, "cir.array_init");
    assert_eq!(op.result_types, vec![ARR]);
    assert_eq!(op.operands.len(), 3);
    assert_eq!(op.operands, vec![1, 2, 3]);
}

#[test]
fn build_elem_val_op() {
    let op = elem_val_op::<u32, u32>(7, 1, I32, I64);
    assert_eq!(op.result_types, vec![I32]);
    assert_eq!(op.name, "cir.elem_val");
    assert_eq!(op.operands, vec![7]);
    match &op.attributes[0] {
        NamedAttr { name: "index", value: Attr::Integer { value, .. } } => assert_eq!(*value, 1),
        _ => panic!("expected integer index attribute"),
    }
}

#[test]
fn build_elem_ptr_op() {
    let op = elem_ptr_op::<u32, u32>(10, 11, ARR, PTR);
    assert_eq!(op.result_types, vec![PTR]);
    assert_eq!(op.name, "cir.elem_ptr");
    assert_eq!(op.operands.len(), 2);
    match &op.attributes[0] {
        NamedAttr { name: "array_type", value: Attr::Type(ty) } => assert_eq!(*ty, ARR),
        _ => panic!("expected type attribute for array_type"),
    }
}

#[test]
fn struct_ops_registered_pure() {
    let d = cot_constructs::structs::ops::register_ops();
    assert_eq!(d.ops.len(), 3);
    for name in ["cir.struct_init", "cir.field_val", "cir.field_ptr"] {
        assert!(d.get_op(name).unwrap().has_trait(OpTrait::Pure), "{} should be Pure", name);
    }
    assert_eq!(StructOp::from_name("cir.field_val"), Some(StructOp::FieldVal));
}

#[test]
fn struct_builders() {
    let init = struct_init_op::<u32, u32>(&[4, 5], 700);
    assert_eq!(init.name, "cir.struct_init");
    assert_eq!(init.operands, vec![4, 5]);
    assert_eq!(init.result_types, vec![700]);
    let fv = field_val_op::<u32, u32>(8, 1, I32, I64);
    assert_eq!(fv.attributes, vec![NamedAttr { name: "index", value: Attr::Integer { value: 1, ty: I64 } }]);
    let fp = field_ptr_op::<u32, u32>(9, 2, 700, PTR, I64);
    assert_eq!(fp.name, "cir.field_ptr");
    assert_eq!(fp.operands, vec![9]);
    assert_eq!(fp.result_types, vec![PTR]);
    assert_eq!(
        fp.attributes,
        vec![
            NamedAttr { name: "index", value: Attr::Integer { value: 2, ty: I64 } },
            NamedAttr { name: "struct_type", value: Attr::Type(700) },
        ]
    );
}

#[test]
fn struct_type_descriptor() {
    let s = StructType { name: "Point".to_string(), field_names: vec!["x".to_string(), "y".to_string()], field_types: vec![I32, F64] };
    let d = s.descriptor();
    assert_eq!(d.name, "struct");
    assert_eq!(d.string_params, vec!["Point".to_string(), "x".to_string(), "y".to_string()]);
    assert_eq!(d.type_params, vec![I32, F64]);
}

#[test]
fn tagged_union_descriptor() {
    let u = TaggedUnionType {
        name: "Shape".to_string(),
        variant_names: vec!["Circle".to_string(), "Rect".to_string()],
        variant_types: vec![F64, ARR],
    };
    let d = u.descriptor();
    assert_eq!(d.dialect, "cir");
    assert_eq!(d.name, "tagged_union");
    assert_eq!(d.string_params, vec!["Shape".to_string(), "Circle".to_string(), "Rect".to_string()]);
    assert_eq!(d.type_params, vec![F64, ARR]);
}
