//! The memory types: the opaque pointer `!cir.ptr`, which tracks no pointee
//! type, and the typed reference `!cir.ref<T>`, whose pointee type T is its
//! type parameter.
use vstd::prelude::*;
use crate::ir::{ExtTypeSpec, ExtTypeView};

verus! {

/// The descriptor of `!cir.ptr`.
pub open spec fn ptr_type_view<Ty>() -> ExtTypeView<Ty> {
    ExtTypeView {
        dialect: "cir"@,
        name: "ptr"@,
        int_params: Seq::empty(),
        type_params: Seq::empty(),
        string_params: Seq::empty(),
    }
}

/// The descriptor of `!cir.ptr`: dialect `cir`, name `ptr`, no parameters.
/// It is the same on every call.
pub fn ptr_type<Ty>() -> (t: ExtTypeSpec<Ty>)
    ensures
        t@ == ptr_type_view::<Ty>(),
{
    let t = ExtTypeSpec {
        dialect: "cir",
        name: "ptr",
        int_params: Vec::new(),
        type_params: Vec::new(),
        string_params: Vec::new(),
    };
    assert(t@.int_params =~= Seq::<i64>::empty());
    assert(t@.type_params =~= Seq::<Ty>::empty());
    assert(t@.string_params =~= Seq::<Seq<char>>::empty());
    t
}

/// The opaque pointer type `!cir.ptr`.
pub struct PtrType;

impl PtrType {
    /// The descriptor of `!cir.ptr`.
    pub fn descriptor<Ty>(&self) -> (t: ExtTypeSpec<Ty>)
        ensures
            t@ == ptr_type_view::<Ty>(),
    {
        ptr_type()
    }
}

/// The descriptor of `!cir.ref<pointee>`.
pub open spec fn ref_type_view<Ty>(pointee: Ty) -> ExtTypeView<Ty> {
    ExtTypeView {
        dialect: "cir"@,
        name: "ref"@,
        int_params: Seq::empty(),
        type_params: seq![pointee],
        string_params: Seq::empty(),
    }
}

/// The descriptor of `!cir.ref<pointee>`: dialect `cir`, name `ref`, type
/// parameters [pointee].
pub fn ref_type<Ty>(pointee: Ty) -> (t: ExtTypeSpec<Ty>)
    ensures
        t@ == ref_type_view(pointee),
{
    let t = ExtTypeSpec {
        dialect: "cir",
        name: "ref",
        int_params: Vec::new(),
        type_params: vec![pointee],
        string_params: Vec::new(),
    };
    assert(t@.int_params =~= Seq::<i64>::empty());
    assert(t@.type_params =~= seq![pointee]);
    assert(t@.string_params =~= Seq::<Seq<char>>::empty());
    t
}

/// Reference types are equal exactly when their pointee types are.
pub proof fn lemma_ref_type_injective<Ty>(a: Ty, b: Ty)
    ensures
        ref_type_view(a) == ref_type_view(b) <==> a == b,
{
    if ref_type_view(a) == ref_type_view(b) {
        assert(ref_type_view(a).type_params[0] == a);
    }
}

/// The typed reference type `!cir.ref<pointee>`.
pub struct RefType<Ty> {
    pub pointee: Ty,
}

impl<Ty: Copy> RefType<Ty> {
    /// The descriptor of this reference type.
    pub fn descriptor(&self) -> (t: ExtTypeSpec<Ty>)
        ensures
            t@ == ref_type_view(self.pointee),
    {
        ref_type(self.pointee)
    }
}

/// A pointer is never a reference, whatever the pointee.
pub proof fn lemma_ptr_is_not_ref<Ty>(pointee: Ty)
    ensures
        ptr_type_view::<Ty>() != ref_type_view(pointee),
{
    reveal_strlit("ptr");
    reveal_strlit("ref");
    assert(ptr_type_view::<Ty>().name[0] != ref_type_view(pointee).name[0]);
}

} // verus!
