//! The decisions of the errors lowering. An error union lives in a stack
//! slot, passed as a 64-bit pointer, laid out as `{ T payload at offset 0,
//! i16 error_code at offset sizeof(T) }`; error code 0 means success.
//!
//! - `cir.wrap_result`: store the payload at 0 and the success code at the
//!   code offset
//! - `cir.wrap_error`: store the error code at the code offset
//! - `cir.is_error`: load the code and compare it, not equal, with 0
//! - `cir.error_payload`: load the payload at 0
//! - `cir.error_code`: load the code at the code offset
use vstd::prelude::*;
use crate::arith::lowering::IntCondCode;
use crate::errors::ops::{errors_dialect, lemma_errors_dialect_names, ErrorOp};
use crate::ir::{defines, str_eq, stored_at, MachineType, Store};

verus! {

/// The lowering of the errors construct.
pub struct ErrorsLowering;

impl ErrorsLowering {
    /// The construct's name.
    pub fn name(&self) -> (r: &'static str)
        ensures
            r@ == "errors"@,
    {
        "errors"
    }

    /// The error operation that `name` names, which this lowering lowers;
    /// `None` for any other name, left to other lowerings.
    pub fn lower_step(&self, name: &str) -> (r: Option<ErrorOp>)
        ensures
            r == ErrorOp::spec_from_name(name@),
    {
        ErrorOp::from_name(name)
    }

    /// The machine type of the extension type `dialect`.`name`: a 64-bit
    /// pointer for `cir.error_union`; `None` for any other type, left to
    /// other lowerings.
    pub fn map_type(&self, dialect: &str, name: &str) -> (r: Option<MachineType>)
        ensures
            r == (if dialect@ == "cir"@ && name@ == "error_union"@ {
                Some(MachineType::I64)
            } else {
                None
            }),
    {
        if str_eq(dialect, "cir") && str_eq(name, "error_union") {
            Some(MachineType::I64)
        } else {
            None
        }
    }
}

/// The lowering handles exactly the operations that the errors dialect
/// defines.
pub proof fn lemma_errors_lowering_covers_dialect(name: Seq<char>)
    ensures
        ErrorOp::spec_from_name(name) is Some <==> defines(errors_dialect().ops, name),
{
    lemma_errors_dialect_names(ErrorOp::WrapResult, name);
}

/// The code that means success.
pub const SUCCESS_CODE: i16 = 0;

/// The payload's offset in an error union.
pub const PAYLOAD_OFFSET: u32 = 0;

pub open spec fn spec_payload_size(param_size: Option<u32>) -> u32 {
    match param_size {
        Some(s) => s,
        None => 4,
    }
}

/// The byte size of an error union's payload, given the byte size of its
/// payload type (`None` when the type has no payload parameter): that size,
/// or 4 without one.
#[verifier::when_used_as_spec(spec_payload_size)]
pub fn payload_size(param_size: Option<u32>) -> (r: u32)
    ensures
        r == spec_payload_size(param_size),
        param_size matches Some(s) ==> r == s,
{
    match param_size {
        Some(s) => s,
        None => 4,
    }
}

/// The error code's offset in an error union: right after the payload.
pub fn code_offset(param_size: Option<u32>) -> (r: u32)
    ensures
        r == spec_payload_size(param_size),
        param_size matches Some(s) ==> r == PAYLOAD_OFFSET + s,
{
    payload_size(param_size)
}

/// The layout of an error union whose payload type has byte size `s`: the
/// payload takes the `s` bytes from offset 0, and the code that
/// `cir.wrap_result` and `cir.wrap_error` store and `cir.is_error` reads
/// sits right after it, at offset `s`, where the payload ends. Without a
/// payload parameter the payload takes 4 bytes.
pub proof fn lemma_error_union_layout(s: u32)
    ensures
        spec_payload_size(Some(s)) == s,
        spec_payload_size(None) == 4,
        spec_is_error_test(Some(s)).code_offset == PAYLOAD_OFFSET + s,
        wrap_result_stores_spec(Some(s))[0].offset == PAYLOAD_OFFSET,
        wrap_result_stores_spec(Some(s))[1].offset == PAYLOAD_OFFSET + s,
        wrap_error_stores_spec(Some(s))[0].offset == PAYLOAD_OFFSET + s,
{
}

/// What the error lowerings store into an error union.
#[derive(Clone, Copy, Debug, PartialEq, Eq, Structural)]
pub enum ErrorUnionPart {
    /// The operation's operand: the payload of `cir.wrap_result`, the code of
    /// `cir.wrap_error`.
    Operand,
    /// The `i16` constant [`SUCCESS_CODE`].
    SuccessCode,
}

/// The stores of `cir.wrap_result`, in order: the operand at the payload
/// offset, then the success code at the code offset.
pub fn wrap_result_stores(param_size: Option<u32>) -> (r: Vec<Store<ErrorUnionPart>>)
    ensures
        r@ == seq![
            Store { what: ErrorUnionPart::Operand, offset: PAYLOAD_OFFSET },
            Store { what: ErrorUnionPart::SuccessCode, offset: payload_size(param_size) },
        ],
{
    let r = vec![
        Store { what: ErrorUnionPart::Operand, offset: PAYLOAD_OFFSET },
        Store { what: ErrorUnionPart::SuccessCode, offset: code_offset(param_size) },
    ];
    assert(r@ =~= seq![
        Store { what: ErrorUnionPart::Operand, offset: PAYLOAD_OFFSET },
        Store { what: ErrorUnionPart::SuccessCode, offset: payload_size(param_size) },
    ]);
    r
}

/// The stores of `cir.wrap_error`: the operand (the code) at the code
/// offset; the payload is left undefined.
pub fn wrap_error_stores(param_size: Option<u32>) -> (r: Vec<Store<ErrorUnionPart>>)
    ensures
        r@ == seq![Store { what: ErrorUnionPart::Operand, offset: payload_size(param_size) }],
{
    let r = vec![Store { what: ErrorUnionPart::Operand, offset: code_offset(param_size) }];
    assert(r@ =~= seq![Store { what: ErrorUnionPart::Operand, offset: payload_size(param_size) }]);
    r
}

/// Reading back an error union: after `cir.wrap_result`, the code that
/// `cir.is_error` and `cir.error_code` read is the success code and the
/// payload that `cir.error_payload` reads is the wrapped value (for a
/// payload of nonzero size); after `cir.wrap_error`, the code read is the
/// wrapped code.
pub proof fn lemma_error_union_read_back(param_size: Option<u32>)
    requires
        payload_size(param_size) > 0,
    ensures
        stored_at(
            seq![
                Store { what: ErrorUnionPart::Operand, offset: PAYLOAD_OFFSET },
                Store { what: ErrorUnionPart::SuccessCode, offset: payload_size(param_size) },
            ],
            payload_size(param_size),
        ) == Some(ErrorUnionPart::SuccessCode),
        stored_at(
            seq![
                Store { what: ErrorUnionPart::Operand, offset: PAYLOAD_OFFSET },
                Store { what: ErrorUnionPart::SuccessCode, offset: payload_size(param_size) },
            ],
            PAYLOAD_OFFSET,
        ) == Some(ErrorUnionPart::Operand),
        stored_at(
            seq![Store { what: ErrorUnionPart::Operand, offset: payload_size(param_size) }],
            payload_size(param_size),
        ) == Some(ErrorUnionPart::Operand),
{
    let s = seq![
        Store { what: ErrorUnionPart::Operand, offset: PAYLOAD_OFFSET },
        Store { what: ErrorUnionPart::SuccessCode, offset: payload_size(param_size) },
    ];
    assert(s.drop_last() =~= seq![Store { what: ErrorUnionPart::Operand, offset: PAYLOAD_OFFSET }]);
    let t = seq![Store { what: ErrorUnionPart::Operand, offset: PAYLOAD_OFFSET }];
    assert(t.drop_last() =~= Seq::<Store<ErrorUnionPart>>::empty());
    reveal_with_fuel(stored_at, 3);
}

/// Whether condition `cc` holds between the `i16` values `a` and `b`: the
/// signed conditions compare them as signed, the unsigned ones as their
/// 16-bit unsigned patterns.
pub open spec fn i16_cond_holds(cc: IntCondCode, a: i16, b: i16) -> bool {
    match cc {
        IntCondCode::Equal => a == b,
        IntCondCode::NotEqual => a != b,
        IntCondCode::SignedLessThan => a < b,
        IntCondCode::SignedLessThanOrEqual => a <= b,
        IntCondCode::SignedGreaterThan => a > b,
        IntCondCode::SignedGreaterThanOrEqual => a >= b,
        IntCondCode::UnsignedLessThan => (a as u16) < (b as u16),
        IntCondCode::UnsignedLessThanOrEqual => (a as u16) <= (b as u16),
        IntCondCode::UnsignedGreaterThan => (a as u16) > (b as u16),
        IntCondCode::UnsignedGreaterThanOrEqual => (a as u16) >= (b as u16),
    }
}

/// What `cir.is_error` computes: it loads the `i16` code at `code_offset`
/// of the error union and tests it under `cond` against `against`; the
/// result is that test's `i1`.
#[derive(Clone, Copy, Debug, PartialEq, Eq, Structural)]
pub struct IsErrorTest {
    pub code_offset: u32,
    pub cond: IntCondCode,
    pub against: i16,
}

pub open spec fn spec_is_error_test(param_size: Option<u32>) -> IsErrorTest {
    IsErrorTest {
        code_offset: spec_payload_size(param_size),
        cond: IntCondCode::NotEqual,
        against: SUCCESS_CODE,
    }
}

/// The test of `cir.is_error` on an error union whose payload type has byte
/// size `param_size`: the code at the code offset, not equal to the
/// success code.
pub fn is_error_test(param_size: Option<u32>) -> (r: IsErrorTest)
    ensures
        r == spec_is_error_test(param_size),
{
    IsErrorTest { code_offset: code_offset(param_size), cond: IntCondCode::NotEqual, against: SUCCESS_CODE }
}

/// The stores of `cir.wrap_result`, as [`wrap_result_stores`] gives them.
pub open spec fn wrap_result_stores_spec(param_size: Option<u32>) -> Seq<Store<ErrorUnionPart>> {
    seq![
        Store { what: ErrorUnionPart::Operand, offset: PAYLOAD_OFFSET },
        Store { what: ErrorUnionPart::SuccessCode, offset: spec_payload_size(param_size) },
    ]
}

/// The stores of `cir.wrap_error`, as [`wrap_error_stores`] gives them.
pub open spec fn wrap_error_stores_spec(param_size: Option<u32>) -> Seq<Store<ErrorUnionPart>> {
    seq![Store { what: ErrorUnionPart::Operand, offset: spec_payload_size(param_size) }]
}

/// The `i16` value a stored part holds, when the operation's operand is
/// the code `operand_code`.
pub open spec fn part_code(part: ErrorUnionPart, operand_code: i16) -> i16 {
    match part {
        ErrorUnionPart::Operand => operand_code,
        ErrorUnionPart::SuccessCode => SUCCESS_CODE,
    }
}

/// What `cir.is_error` yields on an error union filled by `stores`, whose
/// operand was the code `operand_code`: its test applied to the code it
/// loads; `None` when nothing was stored at the code offset.
pub open spec fn is_error_after(stores: Seq<Store<ErrorUnionPart>>, param_size: Option<u32>, operand_code: i16) -> Option<bool> {
    let t = spec_is_error_test(param_size);
    match stored_at(stores, t.code_offset) {
        Some(part) => Some(i16_cond_holds(t.cond, part_code(part, operand_code), t.against)),
        None => None,
    }
}

/// `cir.is_error` is false on a `cir.wrap_result`, and on a
/// `cir.wrap_error` of code `c` it is `c != 0`, whatever the payload size.
pub proof fn lemma_is_error_after_wrap(param_size: Option<u32>, c: i16)
    ensures
        is_error_after(wrap_result_stores_spec(param_size), param_size, c) == Some(false),
        is_error_after(wrap_error_stores_spec(param_size), param_size, c) == Some(c != 0),
{
    let r = wrap_result_stores_spec(param_size);
    assert(r.drop_last() =~= seq![Store { what: ErrorUnionPart::Operand, offset: PAYLOAD_OFFSET }]);
    let e = wrap_error_stores_spec(param_size);
    assert(e.drop_last() =~= Seq::<Store<ErrorUnionPart>>::empty());
    reveal_with_fuel(stored_at, 3);
}

} // verus!
