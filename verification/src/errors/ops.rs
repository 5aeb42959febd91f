//! The 5 error operations, all Pure: `cir.wrap_result`, `cir.wrap_error`,
//! `cir.is_error`, `cir.error_payload` and `cir.error_code`.
use vstd::prelude::*;
use crate::ir::{defines, name_key, str_eq, DialectDef, DialectView, NamedAttrView, OpDef, OpDefView, OpSpec, OpTrait, OpView};

verus! {

/// The 5 error operations.
#[derive(Clone, Copy, Debug, PartialEq, Eq, Structural)]
pub enum ErrorOp {
    WrapResult,
    WrapError,
    IsError,
    ErrorPayload,
    ErrorCode,
}

impl ErrorOp {
    pub open spec fn spec_name(self) -> Seq<char> {
        match self {
            ErrorOp::WrapResult => "cir.wrap_result"@,
            ErrorOp::WrapError => "cir.wrap_error"@,
            ErrorOp::IsError => "cir.is_error"@,
            ErrorOp::ErrorPayload => "cir.error_payload"@,
            ErrorOp::ErrorCode => "cir.error_code"@,
        }
    }

    /// The operation's full name.
    pub fn name(self) -> (r: &'static str)
        ensures
            r@ == self.spec_name(),
    {
        match self {
            ErrorOp::WrapResult => "cir.wrap_result",
            ErrorOp::WrapError => "cir.wrap_error",
            ErrorOp::IsError => "cir.is_error",
            ErrorOp::ErrorPayload => "cir.error_payload",
            ErrorOp::ErrorCode => "cir.error_code",
        }
    }

    /// The operation named `name`, if any.
    pub open spec fn spec_from_name(name: Seq<char>) -> Option<ErrorOp> {
        if name == "cir.wrap_result"@ {
            Some(ErrorOp::WrapResult)
        } else if name == "cir.wrap_error"@ {
            Some(ErrorOp::WrapError)
        } else if name == "cir.is_error"@ {
            Some(ErrorOp::IsError)
        } else if name == "cir.error_payload"@ {
            Some(ErrorOp::ErrorPayload)
        } else if name == "cir.error_code"@ {
            Some(ErrorOp::ErrorCode)
        } else {
            None
        }
    }

    /// The operation named `name`, if any.
    pub fn from_name(name: &str) -> (r: Option<ErrorOp>)
        ensures
            r == ErrorOp::spec_from_name(name@),
    {
        if str_eq(name, "cir.wrap_result") {
            Some(ErrorOp::WrapResult)
        } else if str_eq(name, "cir.wrap_error") {
            Some(ErrorOp::WrapError)
        } else if str_eq(name, "cir.is_error") {
            Some(ErrorOp::IsError)
        } else if str_eq(name, "cir.error_payload") {
            Some(ErrorOp::ErrorPayload)
        } else if str_eq(name, "cir.error_code") {
            Some(ErrorOp::ErrorCode)
        } else {
            None
        }
    }

    /// Every operation is found again by its name.
    pub proof fn lemma_from_name(self)
        ensures
            ErrorOp::spec_from_name(self.spec_name()) == Some(self),
    {
        reveal_strlit("cir.wrap_result");
        reveal_strlit("cir.wrap_error");
        reveal_strlit("cir.is_error");
        reveal_strlit("cir.error_payload");
        reveal_strlit("cir.error_code");
        assert(name_key("cir.wrap_result"@).0 == 15);
        assert(name_key("cir.wrap_error"@).0 == 14);
        assert(name_key("cir.is_error"@).0 == 12);
        assert(name_key("cir.error_payload"@).0 == 17);
        assert(name_key("cir.error_code"@).0 == 14);
    }

    pub open spec fn spec_traits(self) -> Seq<OpTrait> {
        match self {
            ErrorOp::WrapResult | ErrorOp::WrapError | ErrorOp::IsError | ErrorOp::ErrorPayload | ErrorOp::ErrorCode => seq![OpTrait::Pure],
        }
    }

    /// The traits the operation is registered with: all five are Pure.
    pub fn traits(self) -> (r: Vec<OpTrait>)
        ensures
            r@ == self.spec_traits(),
    {
        let r: Vec<OpTrait> = match self {
            ErrorOp::WrapResult | ErrorOp::WrapError | ErrorOp::IsError | ErrorOp::ErrorPayload | ErrorOp::ErrorCode => vec![OpTrait::Pure],
        };
        assert(r@ =~= self.spec_traits());
        r
    }

    pub open spec fn def_view(self) -> OpDefView {
        OpDefView { name: self.spec_name(), traits: self.spec_traits() }
    }

    /// The operation's definition: its name and its traits.
    pub fn definition(self) -> (r: OpDef)
        ensures
            r@ == self.def_view(),
    {
        OpDef { name: self.name(), traits: self.traits() }
    }

    /// All 5 operations, in registration order.
    pub open spec fn all_spec() -> Seq<ErrorOp> {
        seq![ErrorOp::WrapResult, ErrorOp::WrapError, ErrorOp::IsError, ErrorOp::ErrorPayload, ErrorOp::ErrorCode]
    }

    /// All 5 operations, in registration order.
    pub fn all() -> (r: Vec<ErrorOp>)
        ensures
            r@ == ErrorOp::all_spec(),
    {
        let r = vec![ErrorOp::WrapResult, ErrorOp::WrapError, ErrorOp::IsError, ErrorOp::ErrorPayload, ErrorOp::ErrorCode];
        assert(r@ =~= ErrorOp::all_spec());
        r
    }

    /// The operation's place in the registration order.
    pub open spec fn position(self) -> int {
        match self {
            ErrorOp::WrapResult => 0,
            ErrorOp::WrapError => 1,
            ErrorOp::IsError => 2,
            ErrorOp::ErrorPayload => 3,
            ErrorOp::ErrorCode => 4,
        }
    }

    /// The operation stands at its place in the registration order.
    pub proof fn lemma_position(self)
        ensures
            0 <= self.position() < 5,
            ErrorOp::all_spec()[self.position()] == self,
    {
    }
}

/// The errors dialect: namespace `cir` and the definitions of the 5
/// operations, in registration order.
pub open spec fn errors_dialect() -> DialectView {
    DialectView {
        namespace: "cir"@,
        ops: ErrorOp::all_spec().map_values(|op: ErrorOp| op.def_view()),
    }
}

/// Registers the 5 errors operations under the `cir` namespace.
pub fn register_ops() -> (d: DialectDef)
    ensures
        d@ == errors_dialect(),
{
    let all = ErrorOp::all();
    let mut ops: Vec<OpDef> = Vec::new();
    let mut i: usize = 0;
    while i < all.len()
        invariant
            all@ == ErrorOp::all_spec(),
            i <= all@.len(),
            ops@.len() == i,
            forall|j: int| 0 <= j < i ==> (#[trigger] ops@[j])@ == all@[j].def_view(),
        decreases all@.len() - i,
    {
        ops.push(all[i].definition());
        i = i + 1;
    }
    let d = DialectDef { namespace: "cir", ops };
    assert(d@.ops =~= errors_dialect().ops);
    d
}

/// The errors dialect defines exactly the 5 operations, under pairwise
/// distinct names: a name is defined exactly when it names an operation, and
/// each operation is found again by its name, at its place.
pub proof fn lemma_errors_dialect_names(op: ErrorOp, name: Seq<char>)
    ensures
        errors_dialect().ops.len() == 5,
        errors_dialect().ops[op.position()] == op.def_view(),
        ErrorOp::spec_from_name(op.spec_name()) == Some(op),
        defines(errors_dialect().ops, name) <==> ErrorOp::spec_from_name(name) is Some,
{
    op.lemma_from_name();
    op.lemma_position();
    let ops = errors_dialect().ops;
    let all = ErrorOp::all_spec();
    if defines(ops, name) {
        let i = choose|i: int| 0 <= i < ops.len() && ops[i].name == name;
        all[i].lemma_from_name();
    }
    if let Some(o) = ErrorOp::spec_from_name(name) {
        o.lemma_from_name();
        o.lemma_position();
        assert(ops[o.position()].name == name);
    }
}

/// `cir.wrap_result` of `input`: a success holding `input`; operand `input`,
/// one result of `eu_ty`, the error union type of the type of `input`.
pub fn wrap_result_op<Val, Ty>(input: Val, eu_ty: Ty) -> (op: OpSpec<Val, Ty>)
    ensures
        op@ == (OpView {
            name: "cir.wrap_result"@,
            operands: seq![input],
            result_types: seq![eu_ty],
            attributes: Seq::<NamedAttrView<Ty>>::empty(),
        }),
{
    let op = OpSpec {
        name: "cir.wrap_result",
        operands: vec![input],
        result_types: vec![eu_ty],
        attributes: Vec::new(),
    };
    assert(op@.operands =~= seq![input]);
    assert(op@.result_types =~= seq![eu_ty]);
    assert(op@.attributes =~= Seq::<NamedAttrView<Ty>>::empty());
    op
}

/// `cir.wrap_error` of the `i16` error code `code`: operand `code`, one
/// result of the error union type `eu_ty`.
pub fn wrap_error_op<Val, Ty>(code: Val, eu_ty: Ty) -> (op: OpSpec<Val, Ty>)
    ensures
        op@ == (OpView {
            name: "cir.wrap_error"@,
            operands: seq![code],
            result_types: seq![eu_ty],
            attributes: Seq::<NamedAttrView<Ty>>::empty(),
        }),
{
    let op = OpSpec {
        name: "cir.wrap_error",
        operands: vec![code],
        result_types: vec![eu_ty],
        attributes: Vec::new(),
    };
    assert(op@.operands =~= seq![code]);
    assert(op@.result_types =~= seq![eu_ty]);
    assert(op@.attributes =~= Seq::<NamedAttrView<Ty>>::empty());
    op
}

/// `cir.is_error` of `input`: whether the error union holds an error;
/// operand `input`, one result of the one-bit type `i1_ty`.
pub fn is_error_op<Val, Ty>(input: Val, i1_ty: Ty) -> (op: OpSpec<Val, Ty>)
    ensures
        op@ == (OpView {
            name: "cir.is_error"@,
            operands: seq![input],
            result_types: seq![i1_ty],
            attributes: Seq::<NamedAttrView<Ty>>::empty(),
        }),
{
    let op = OpSpec {
        name: "cir.is_error",
        operands: vec![input],
        result_types: vec![i1_ty],
        attributes: Vec::new(),
    };
    assert(op@.operands =~= seq![input]);
    assert(op@.result_types =~= seq![i1_ty]);
    assert(op@.attributes =~= Seq::<NamedAttrView<Ty>>::empty());
    op
}

/// `cir.error_payload` of `input`: the success payload; operand `input`,
/// one result of the payload type `result_ty`.
pub fn error_payload_op<Val, Ty>(input: Val, result_ty: Ty) -> (op: OpSpec<Val, Ty>)
    ensures
        op@ == (OpView {
            name: "cir.error_payload"@,
            operands: seq![input],
            result_types: seq![result_ty],
            attributes: Seq::<NamedAttrView<Ty>>::empty(),
        }),
{
    let op = OpSpec {
        name: "cir.error_payload",
        operands: vec![input],
        result_types: vec![result_ty],
        attributes: Vec::new(),
    };
    assert(op@.operands =~= seq![input]);
    assert(op@.result_types =~= seq![result_ty]);
    assert(op@.attributes =~= Seq::<NamedAttrView<Ty>>::empty());
    op
}

/// `cir.error_code` of `input`: the error code; operand `input`, one result
/// of the type `i16_ty`.
pub fn error_code_op<Val, Ty>(input: Val, i16_ty: Ty) -> (op: OpSpec<Val, Ty>)
    ensures
        op@ == (OpView {
            name: "cir.error_code"@,
            operands: seq![input],
            result_types: seq![i16_ty],
            attributes: Seq::<NamedAttrView<Ty>>::empty(),
        }),
{
    let op = OpSpec {
        name: "cir.error_code",
        operands: vec![input],
        result_types: vec![i16_ty],
        attributes: Vec::new(),
    };
    assert(op@.operands =~= seq![input]);
    assert(op@.result_types =~= seq![i16_ty]);
    assert(op@.attributes =~= Seq::<NamedAttrView<Ty>>::empty());
    op
}

} // verus!
