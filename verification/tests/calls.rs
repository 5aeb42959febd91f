use cot_constructs::generics::ops::{generic_apply_op, GenericOp};
use cot_constructs::generics::types::{type_param_type, TypeParamType};
use cot_constructs::ir::{Attr, NamedAttr, OpTrait};
use cot_constructs::traits::ops::{
    deinit_existential_op, init_existential_op, open_existential_op, trait_call_op, witness_method_op,
    witness_table_op, TraitOp,
};
use cot_constructs::traits::types::{existential_type, ExistentialType};
use cot_constructs::vwt::ops::{
    vwt_align_op, vwt_copy_op, vwt_destroy_op, vwt_init_buffer_op, vwt_move_op, vwt_size_op, vwt_stride_op,
};

const I32: u32 = 132;
const I64: u32 = 164;
const IDX: u32 = 170;
const PTR: u32 = 900;

#[test]
fn register_generics_ops() {
    let d = cot_constructs::generics::ops::register_ops();
    assert!(d.get_op("cir.generic_apply").is_some());
}

#[test]
fn register_all_1_ops() {
    let d = cot_constructs::generics::ops::register_ops();
    assert_eq!(d.ops.len(), 1);
    assert!(d.ops[0].traits.is_empty());
    assert_eq!(GenericOp::from_name("cir.generic_apply"), Some(GenericOp::GenericApply));
}

#[test]
fn create_type_param() {
    let t = type_param_type::<u32>("T");
    let t2 = type_param_type::<u32>("T");
    assert_eq!(t, t2, "same type_param should be the same type");
    let u = type_param_type::<u32>("U");
    assert_ne!(t, u, "different param name -> different type");
    assert_eq!(TypeParamType { name: "T".to_string() }.descriptor::<u32>(), t);
}

#[test]
fn build_generic_apply() {
    let op = generic_apply_op::<u32, u32>("identity", &[7], &["T"], &[I32], &[I32]);
    assert_eq!(op.result_types.len(), 1);
    assert_eq!(op.result_types[0], I32);
    assert_eq!(op.name, "cir.generic_apply");
    assert_eq!(op.operands, vec![7]);
    match &op.attributes[0] {
        NamedAttr { name: "callee", value: Attr::SymbolRef(s) } => assert_eq!(s, "identity"),
        _ => panic!("expected callee symbol ref"),
    }
    assert_eq!(op.attributes[1], NamedAttr { name: "sub_keys", value: Attr::StrArray(vec!["T".to_string()]) });
    assert_eq!(op.attributes[2], NamedAttr { name: "sub_types", value: Attr::TypeArray(vec![I32]) });
}

#[test]
fn trait_ops_registered() {
    let d = cot_constructs::traits::ops::register_ops();
    assert_eq!(d.ops.len(), 6);
    assert!(d.get_op("cir.witness_method").unwrap().has_trait(OpTrait::Pure));
    assert!(d.get_op("cir.open_existential").unwrap().has_trait(OpTrait::Pure));
    for name in ["cir.witness_table", "cir.trait_call", "cir.init_existential", "cir.deinit_existential"] {
        assert!(d.get_op(name).unwrap().traits.is_empty(), "{} should carry no trait", name);
    }
    assert_eq!(TraitOp::from_name("cir.trait_call"), Some(TraitOp::TraitCall));
}

#[test]
fn witness_table_attributes() {
    let op = witness_table_op::<u32, u32>("Int_Show", "Show", "Int", &["show", "debug"], &["int_show", "int_debug"]);
    assert_eq!(op.name, "cir.witness_table");
    assert!(op.operands.is_empty());
    assert!(op.result_types.is_empty());
    assert_eq!(
        op.attributes,
        vec![
            NamedAttr { name: "sym_name", value: Attr::Str("Int_Show".to_string()) },
            NamedAttr { name: "protocol", value: Attr::Str("Show".to_string()) },
            NamedAttr { name: "conforming_type", value: Attr::Str("Int".to_string()) },
            NamedAttr { name: "method_names", value: Attr::StrArray(vec!["show".to_string(), "debug".to_string()]) },
            NamedAttr {
                name: "method_impls",
                value: Attr::SymbolRefArray(vec!["int_show".to_string(), "int_debug".to_string()]),
            },
        ]
    );
}

#[test]
fn trait_call_and_witness_method() {
    let call = trait_call_op::<u32, u32>("Show", "show", &[1, 2], &[I32, I64]);
    assert_eq!(call.operands, vec![1, 2]);
    assert_eq!(call.result_types, vec![I32, I64]);
    assert_eq!(call.attributes[0], NamedAttr { name: "protocol", value: Attr::SymbolRef("Show".to_string()) });
    assert_eq!(call.attributes[1], NamedAttr { name: "method", value: Attr::Str("show".to_string()) });
    let with_index = witness_method_op::<u32, u32>(5, "show", Some(2), PTR, I64);
    assert_eq!(with_index.attributes.len(), 2);
    assert_eq!(with_index.attributes[1], NamedAttr { name: "method_index", value: Attr::Integer { value: 2, ty: I64 } });
    let without = witness_method_op::<u32, u32>(5, "show", None, PTR, I64);
    assert_eq!(without.attributes, vec![NamedAttr { name: "method", value: Attr::Str("show".to_string()) }]);
    assert_eq!(without.result_types, vec![PTR]);
}

#[test]
fn existential_container_ops() {
    let init = init_existential_op::<u32, u32>(1, 2, 3, 4);
    assert_eq!(init.operands, vec![1, 2, 3, 4]);
    assert!(init.result_types.is_empty());
    let open = open_existential_op::<u32, u32>(1, 10, 11, 12);
    assert_eq!(open.result_types, vec![10, 11, 12]);
    let deinit = deinit_existential_op::<u32, u32>(1);
    assert_eq!(deinit.name, "cir.deinit_existential");
    assert_eq!(existential_type::<u32>("Show").string_params, vec!["Show".to_string()]);
    assert_eq!(ExistentialType { protocol: "Show".to_string() }.descriptor::<u32>(), existential_type("Show"));
}

#[test]
fn register_vwt_ops() {
    let d = cot_constructs::vwt::ops::register_ops();
    for name in ["cir.vwt_size", "cir.vwt_stride", "cir.vwt_align", "cir.vwt_copy", "cir.vwt_destroy", "cir.vwt_move", "cir.vwt_init_buffer"] {
        assert!(d.get_op(name).is_some(), "missing op: {}", name);
    }
}

#[test]
fn register_all_7_ops() {
    assert_eq!(cot_constructs::vwt::ops::register_ops().ops.len(), 7);
}

#[test]
fn build_vwt_query_ops() {
    let size = vwt_size_op::<u32, u32>(1, IDX);
    assert_eq!(size.result_types, vec![IDX]);
    let stride = vwt_stride_op::<u32, u32>(1, IDX);
    assert_eq!(stride.result_types, vec![IDX]);
    let align = vwt_align_op::<u32, u32>(1, IDX);
    assert_eq!(align.result_types, vec![IDX]);
    assert_eq!(size.name, "cir.vwt_size");
    assert_eq!(stride.name, "cir.vwt_stride");
    assert_eq!(align.name, "cir.vwt_align");
}

#[test]
fn build_vwt_action_ops() {
    assert_eq!(vwt_copy_op::<u32, u32>(1, 2, 3).operands, vec![1, 2, 3]);
    assert_eq!(vwt_destroy_op::<u32, u32>(1, 2).operands, vec![1, 2]);
    assert!(vwt_move_op::<u32, u32>(1, 2, 3).result_types.is_empty());
    let result = vwt_init_buffer_op::<u32, u32>(1, 2, 3, PTR);
    assert_eq!(result.result_types, vec![PTR]);
}

#[test]
fn vwt_op_traits_correct() {
    let d = cot_constructs::vwt::ops::register_ops();
    assert!(d.get_op("cir.vwt_size").unwrap().has_trait(OpTrait::Pure));
    assert!(d.get_op("cir.vwt_stride").unwrap().has_trait(OpTrait::Pure));
    assert!(d.get_op("cir.vwt_align").unwrap().has_trait(OpTrait::Pure));
    assert!(!d.get_op("cir.vwt_copy").unwrap().has_trait(OpTrait::Pure));
    assert!(!d.get_op("cir.vwt_destroy").unwrap().has_trait(OpTrait::Pure));
    assert!(!d.get_op("cir.vwt_move").unwrap().has_trait(OpTrait::Pure));
    assert!(!d.get_op("cir.vwt_init_buffer").unwrap().has_trait(OpTrait::Pure));
}
