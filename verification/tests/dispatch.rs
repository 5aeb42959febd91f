use cot_constructs::enums::ops::{enum_constant_op, enum_value_op, EnumOp};
use cot_constructs::enums::types::enum_type;
use cot_constructs::errors::lowering::{
    code_offset, payload_size, wrap_error_stores, wrap_result_stores, ErrorUnionPart, ErrorsLowering,
    PAYLOAD_OFFSET, SUCCESS_CODE,
};
use cot_constructs::errors::ops::{
    error_code_op, error_payload_op, is_error_op, wrap_error_op, wrap_result_op, ErrorOp,
};
use cot_constructs::errors::types::error_union_type;
use cot_constructs::flow::ops::FlowOp;
use cot_constructs::ir::{Attr, MachineType, NamedAttr, OpTrait, Store};
use cot_constructs::optionals::types::optional_type;
use cot_constructs::slices::lowering::{
    element_size, slice_stores, string_constant_data, SlicePart, SlicesLowering, LEN_OFFSET, PTR_OFFSET,
    SLICE_SIZE,
};
use cot_constructs::slices::ops::SliceOp;
use cot_constructs::slices::types::{slice_type, SliceType};
use cot_constructs::text::with_number;

const I1: u32 = 101;
const I16: u32 = 116;
const I32: u32 = 132;
const EU: u32 = 500;

#[test]
fn enum_ops() {
    let d = cot_constructs::enums::ops::register_ops();
    assert_eq!(d.ops.len(), 2);
    assert!(d.get_op("cir.enum_constant").unwrap().has_trait(OpTrait::Pure));
    assert!(d.get_op("cir.enum_value").unwrap().has_trait(OpTrait::Pure));
    let c = enum_constant_op::<u32, u32>(400, "Green");
    assert_eq!(c.name, "cir.enum_constant");
    assert!(c.operands.is_empty());
    assert_eq!(c.attributes, vec![NamedAttr { name: "variant", value: Attr::Str("Green".to_string()) }]);
    let v = enum_value_op::<u32, u32>(3, I32);
    assert_eq!(v.operands, vec![3]);
    assert_eq!(v.result_types, vec![I32]);
    assert_eq!(EnumOp::from_name("cir.enum_value"), Some(EnumOp::EnumValue));
}

#[test]
fn enum_type_descriptor() {
    let t = enum_type("Color", I32, &["Red", "Green", "Blue"]);
    assert_eq!(t.name, "enum");
    assert_eq!(
        t.string_params,
        vec!["Color".to_string(), "Red".to_string(), "Green".to_string(), "Blue".to_string()]
    );
    assert_eq!(t.type_params, vec![I32]);
    assert_ne!(t, enum_type("Color", I32, &["Red", "Green"]));
    assert_eq!(enum_type::<u32>("E", I32, &[]).string_params, vec!["E".to_string()]);
}

#[test]
fn error_ops() {
    let d = cot_constructs::errors::ops::register_ops();
    assert_eq!(d.ops.len(), 5);
    for def in &d.ops {
        assert_eq!(def.traits, vec![OpTrait::Pure]);
    }
    assert_eq!(wrap_result_op::<u32, u32>(1, EU).name, "cir.wrap_result");
    assert_eq!(wrap_error_op::<u32, u32>(2, EU).result_types, vec![EU]);
    assert_eq!(is_error_op::<u32, u32>(3, I1).result_types, vec![I1]);
    assert_eq!(error_payload_op::<u32, u32>(3, I32).name, "cir.error_payload");
    let code = error_code_op::<u32, u32>(3, I16);
    assert_eq!(code.operands, vec![3]);
    assert_eq!(code.result_types, vec![I16]);
}

#[test]
fn error_union_types() {
    let t = error_union_type(I32);
    assert_eq!(t.name, "error_union");
    assert_eq!(t.type_params, vec![I32]);
    assert_eq!(t, error_union_type(I32));
    assert_ne!(t, error_union_type(I16));
    assert_ne!(t, optional_type(I32));
    assert_eq!(optional_type(I32).name, "optional");
}

#[test]
fn errors_lowering_dispatch() {
    let l = ErrorsLowering;
    assert_eq!(l.name(), "errors");
    assert_eq!(l.lower_step("cir.is_error"), Some(ErrorOp::IsError));
    assert_eq!(l.lower_step("cir.error_code"), Some(ErrorOp::ErrorCode));
    assert_eq!(l.lower_step("cir.add"), None);
    let d = cot_constructs::errors::ops::register_ops();
    for def in &d.ops {
        assert!(l.lower_step(def.name).is_some());
    }
    assert_eq!(l.map_type("cir", "error_union"), Some(MachineType::I64));
    assert_eq!(l.map_type("cir", "slice"), None);
    assert_eq!(l.map_type("other", "error_union"), None);
}

#[test]
fn error_union_layout() {
    assert_eq!(payload_size(Some(8)), 8);
    assert_eq!(payload_size(None), 4);
    assert_eq!(code_offset(Some(8)), 8);
    assert_eq!(SUCCESS_CODE, 0);
    assert_eq!(
        wrap_result_stores(Some(8)),
        vec![
            Store { what: ErrorUnionPart::Operand, offset: PAYLOAD_OFFSET },
            Store { what: ErrorUnionPart::SuccessCode, offset: 8 },
        ]
    );
    assert_eq!(wrap_error_stores(None), vec![Store { what: ErrorUnionPart::Operand, offset: 4 }]);
}

#[test]
fn flow_ops_are_terminators() {
    let d = cot_constructs::flow::ops::register_ops();
    assert_eq!(d.ops.len(), 4);
    for name in ["cir.br", "cir.condbr", "cir.switch", "cir.trap"] {
        let op = d.get_op(name).unwrap();
        assert!(op.has_trait(OpTrait::Terminator), "{} should be a Terminator", name);
        assert!(!op.has_trait(OpTrait::Pure));
    }
    assert_eq!(FlowOp::from_name("cir.trap"), Some(FlowOp::Trap));
}

#[test]
fn slices_lowering_dispatch() {
    let l = SlicesLowering;
    assert_eq!(l.name(), "slices");
    assert_eq!(l.lower_step("cir.string_constant"), Some(SliceOp::StringConstant));
    assert_eq!(l.lower_step("cir.array_to_slice"), Some(SliceOp::ArrayToSlice));
    assert_eq!(l.lower_step("cir.slice"), None);
    assert_eq!(l.map_type("cir", "slice"), Some(MachineType::I64));
    assert_eq!(l.map_type("cir", "array"), None);
}

#[test]
fn slice_layout() {
    assert_eq!(SLICE_SIZE, 16);
    assert_eq!(
        slice_stores(),
        vec![Store { what: SlicePart::DataPtr, offset: PTR_OFFSET }, Store { what: SlicePart::Len, offset: LEN_OFFSET }]
    );
    assert_eq!(LEN_OFFSET, 8);
}

#[test]
fn string_constant_bytes() {
    let d = string_constant_data("hi!");
    assert_eq!(d.size, 3);
    assert_eq!(d.len, 3);
    assert_eq!(
        d.stores,
        vec![Store { what: b'h', offset: 0 }, Store { what: b'i', offset: 1 }, Store { what: b'!', offset: 2 }]
    );
    let e = string_constant_data("");
    assert_eq!(e.size, 0);
    assert!(e.stores.is_empty());
    let u = string_constant_data("é");
    assert_eq!(u.len, 2);
    assert_eq!(u.stores[0].what, 0xc3);
    assert_eq!(u.stores[1], Store { what: 0xa9, offset: 1 });
}

#[test]
fn slice_element_sizes() {
    assert_eq!(element_size(SliceOp::SliceElem, Some(4)), Ok(4));
    assert_eq!(
        element_size(SliceOp::SliceElem, None),
        Err("cir.slice_elem: missing element type".to_string())
    );
    assert_eq!(
        element_size(SliceOp::ArrayToSlice, None),
        Err("cir.array_to_slice: missing element type".to_string())
    );
}

#[test]
fn slice_types() {
    assert_eq!(slice_type(I32).name, "slice");
    assert_eq!(SliceType { elem: I32 }.descriptor(), slice_type(I32));
    assert_ne!(slice_type(I32), slice_type(I16));
}

#[test]
fn decimal_text() {
    assert_eq!(with_number("n=", 0), "n=0");
    assert_eq!(with_number("", 1234567), "1234567");
    assert_eq!(with_number("x ", -45), "x -45");
    assert_eq!(with_number("", i64::MAX), "9223372036854775807");
}
