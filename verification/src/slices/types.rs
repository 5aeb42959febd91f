//! The slice type `!cir.slice<T>`: a fat pointer, `{ ptr, len }`, to
//! elements of type T, its type parameter.
use vstd::prelude::*;
use crate::ir::{ExtTypeSpec, ExtTypeView};

verus! {

/// The descriptor of `!cir.slice<elem>`.
pub open spec fn slice_type_view<Ty>(elem: Ty) -> ExtTypeView<Ty> {
    ExtTypeView {
        dialect: "cir"@,
        name: "slice"@,
        int_params: Seq::empty(),
        type_params: seq![elem],
        string_params: Seq::empty(),
    }
}

/// The descriptor of `!cir.slice<elem>`: dialect `cir`, name `slice`, type
/// parameters [elem].
pub fn slice_type<Ty>(elem: Ty) -> (t: ExtTypeSpec<Ty>)
    ensures
        t@ == slice_type_view(elem),
{
    let t = ExtTypeSpec {
        dialect: "cir",
        name: "slice",
        int_params: Vec::new(),
        type_params: vec![elem],
        string_params: Vec::new(),
    };
    assert(t@.int_params =~= Seq::<i64>::empty());
    assert(t@.type_params =~= seq![elem]);
    assert(t@.string_params =~= Seq::<Seq<char>>::empty());
    t
}

/// Slice types are equal exactly when their element types are.
pub proof fn lemma_slice_type_injective<Ty>(a: Ty, b: Ty)
    ensures
        slice_type_view(a) == slice_type_view(b) <==> a == b,
{
    if slice_type_view(a) == slice_type_view(b) {
        assert(slice_type_view(a).type_params[0] == a);
    }
}

/// The slice type `!cir.slice<elem>`.
pub struct SliceType<Ty> {
    pub elem: Ty,
}

impl<Ty: Copy> SliceType<Ty> {
    /// The descriptor of this slice type.
    pub fn descriptor(&self) -> (t: ExtTypeSpec<Ty>)
        ensures
            t@ == slice_type_view(self.elem),
    {
        slice_type(self.elem)
    }
}

} // verus!
