use cot_constructs::arith::lowering::{remf_instrs, IntCondCode};
use cot_constructs::errors::lowering::{is_error_test, IsErrorTest, SUCCESS_CODE};
use cot_constructs::ir::{Arg, Instr};
use cot_constructs::slices::lowering::{array_to_slice_plan, slice_elem_plan, PTR_OFFSET};

#[test]
fn remf_is_truncated_remainder_sequence() {
    assert_eq!(
        remf_instrs(),
        vec![
            Instr::Fdiv(Arg::Operand(0), Arg::Operand(1)),
            Instr::Trunc(Arg::Step(0)),
            Instr::Fmul(Arg::Step(1), Arg::Operand(1)),
            Instr::Fsub(Arg::Operand(0), Arg::Step(2)),
        ]
    );
}

#[test]
fn slice_elem_address_scales_index() {
    assert_eq!(
        slice_elem_plan(Some(4)),
        Ok(vec![
            Instr::LoadI64At(Arg::Operand(0), PTR_OFFSET),
            Instr::Iconst(4),
            Instr::Imul(Arg::Operand(1), Arg::Step(1)),
            Instr::PtrAdd(Arg::Step(0), Arg::Step(2)),
            Instr::LoadResult(Arg::Step(3)),
        ])
    );
    assert_eq!(slice_elem_plan(None), Err("cir.slice_elem: missing element type".to_string()));
}

#[test]
fn array_to_slice_pointer_and_length() {
    let plan = array_to_slice_plan(Some(8)).unwrap();
    assert_eq!(
        plan.instrs,
        vec![
            Instr::Iconst(8),
            Instr::Imul(Arg::Operand(1), Arg::Step(0)),
            Instr::PtrAdd(Arg::Operand(0), Arg::Step(1)),
            Instr::Isub(Arg::Operand(2), Arg::Operand(1)),
        ]
    );
    assert_eq!(plan.data_ptr, 2);
    assert_eq!(plan.len, 3);
    assert!(matches!(array_to_slice_plan(None), Err(m) if m == "cir.array_to_slice: missing element type"));
}

#[test]
fn is_error_tests_code_against_success() {
    assert_eq!(
        is_error_test(Some(8)),
        IsErrorTest { code_offset: 8, cond: IntCondCode::NotEqual, against: SUCCESS_CODE }
    );
    assert_eq!(is_error_test(None).code_offset, 4);
}
