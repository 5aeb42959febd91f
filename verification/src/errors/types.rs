//! The error union type `!cir.error_union<T>`: a success payload of type T or
//! an `i16` error code, laid out as `{ T payload, i16 error_code }`, where
//! error code 0 means success. T is its type parameter.
use vstd::prelude::*;
use crate::ir::{ExtTypeSpec, ExtTypeView};

verus! {

/// The descriptor of `!cir.error_union<payload>`.
pub open spec fn error_union_type_view<Ty>(payload: Ty) -> ExtTypeView<Ty> {
    ExtTypeView {
        dialect: "cir"@,
        name: "error_union"@,
        int_params: Seq::empty(),
        type_params: seq![payload],
        string_params: Seq::empty(),
    }
}

/// The descriptor of `!cir.error_union<payload>`: dialect `cir`, name
/// `error_union`, type parameters [payload].
pub fn error_union_type<Ty>(payload: Ty) -> (t: ExtTypeSpec<Ty>)
    ensures
        t@ == error_union_type_view(payload),
{
    let t = ExtTypeSpec {
        dialect: "cir",
        name: "error_union",
        int_params: Vec::new(),
        type_params: vec![payload],
        string_params: Vec::new(),
    };
    assert(t@.int_params =~= Seq::<i64>::empty());
    assert(t@.type_params =~= seq![payload]);
    assert(t@.string_params =~= Seq::<Seq<char>>::empty());
    t
}

/// Error union types are equal exactly when their payload types are.
pub proof fn lemma_error_union_type_injective<Ty>(p1: Ty, p2: Ty)
    ensures
        error_union_type_view(p1) == error_union_type_view(p2) <==> p1 == p2,
{
    if error_union_type_view(p1) == error_union_type_view(p2) {
        assert(error_union_type_view(p1).type_params[0] == p1);
    }
}

} // verus!
