//! The optional type `!cir.optional<T>`: a nullable wrapper of a T, which
//! lowers to the pointer itself for pointer-like payloads and to a tagged
//! `{ T, i1 }` otherwise. T is its type parameter.
use vstd::prelude::*;
use crate::ir::{ExtTypeSpec, ExtTypeView};

verus! {

/// The descriptor of `!cir.optional<payload>`.
pub open spec fn optional_type_view<Ty>(payload: Ty) -> ExtTypeView<Ty> {
    ExtTypeView {
        dialect: "cir"@,
        name: "optional"@,
        int_params: Seq::empty(),
        type_params: seq![payload],
        string_params: Seq::empty(),
    }
}

/// The descriptor of `!cir.optional<payload>`: dialect `cir`, name
/// `optional`, type parameters [payload].
pub fn optional_type<Ty>(payload: Ty) -> (t: ExtTypeSpec<Ty>)
    ensures
        t@ == optional_type_view(payload),
{
    let t = ExtTypeSpec {
        dialect: "cir",
        name: "optional",
        int_params: Vec::new(),
        type_params: vec![payload],
        string_params: Vec::new(),
    };
    assert(t@.int_params =~= Seq::<i64>::empty());
    assert(t@.type_params =~= seq![payload]);
    assert(t@.string_params =~= Seq::<Seq<char>>::empty());
    t
}

/// Optional types are equal exactly when their payload types are.
pub proof fn lemma_optional_type_injective<Ty>(a: Ty, b: Ty)
    ensures
        optional_type_view(a) == optional_type_view(b) <==> a == b,
{
    if optional_type_view(a) == optional_type_view(b) {
        assert(optional_type_view(a).type_params[0] == a);
    }
}

} // verus!
