//! The array type `!cir.array<N x T>`: a fixed-size array of N elements of
//! type T, with N in integer parameter 0 and T in type parameter 0.
use vstd::prelude::*;
use crate::ir::{ExtTypeSpec, ExtTypeView};

verus! {

/// The descriptor of `!cir.array<size x elem_ty>`.
pub open spec fn array_type_view<Ty>(size: i64, elem_ty: Ty) -> ExtTypeView<Ty> {
    ExtTypeView {
        dialect: "cir"@,
        name: "array"@,
        int_params: seq![size],
        type_params: seq![elem_ty],
        string_params: Seq::empty(),
    }
}

/// The descriptor of `!cir.array<size x elem_ty>`: dialect `cir`, name
/// `array`, integer parameters [size], type parameters [elem_ty].
pub fn array_type<Ty>(size: i64, elem_ty: Ty) -> (t: ExtTypeSpec<Ty>)
    ensures
        t@ == array_type_view(size, elem_ty),
{
    let t = ExtTypeSpec {
        dialect: "cir",
        name: "array",
        int_params: vec![size],
        type_params: vec![elem_ty],
        string_params: Vec::new(),
    };
    assert(t@.int_params =~= seq![size]);
    assert(t@.type_params =~= seq![elem_ty]);
    assert(t@.string_params =~= Seq::<Seq<char>>::empty());
    t
}

/// Array types are equal exactly when their sizes and element types are.
pub proof fn lemma_array_type_injective<Ty>(n1: i64, t1: Ty, n2: i64, t2: Ty)
    ensures
        array_type_view(n1, t1) == array_type_view(n2, t2) <==> (n1 == n2 && t1 == t2),
{
    if array_type_view(n1, t1) == array_type_view(n2, t2) {
        assert(array_type_view(n1, t1).int_params[0] == n1);
        assert(array_type_view(n2, t2).type_params[0] == t2);
    }
}

} // verus!
