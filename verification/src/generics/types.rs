//! The type parameter placeholder `!cir.type_param<"T">`: a type that stands
//! for a concrete type until monomorphization replaces it. Its name is its
//! string parameter.
use vstd::prelude::*;
use crate::ir::{ExtTypeSpec, ExtTypeView};

verus! {

/// The descriptor of `!cir.type_param<"name">`.
pub open spec fn type_param_type_view<Ty>(name: Seq<char>) -> ExtTypeView<Ty> {
    ExtTypeView {
        dialect: "cir"@,
        name: "type_param"@,
        int_params: Seq::empty(),
        type_params: Seq::empty(),
        string_params: seq![name],
    }
}

/// The descriptor of `!cir.type_param<name>`: dialect `cir`, name
/// `type_param`, string parameters [name].
pub fn type_param_type<Ty>(name: &str) -> (t: ExtTypeSpec<Ty>)
    ensures
        t@ == type_param_type_view::<Ty>(name@),
{
    let t = ExtTypeSpec {
        dialect: "cir",
        name: "type_param",
        int_params: Vec::new(),
        type_params: Vec::new(),
        string_params: vec![name.to_owned()],
    };
    assert(t@.int_params =~= Seq::<i64>::empty());
    assert(t@.type_params =~= Seq::<Ty>::empty());
    assert(t@.string_params =~= seq![name@]);
    t
}

/// Type parameters are the same type exactly when their names are equal.
pub proof fn lemma_type_param_type_injective<Ty>(a: Seq<char>, b: Seq<char>)
    ensures
        type_param_type_view::<Ty>(a) == type_param_type_view::<Ty>(b) <==> a == b,
{
    if type_param_type_view::<Ty>(a) == type_param_type_view::<Ty>(b) {
        assert(type_param_type_view::<Ty>(a).string_params[0] == a);
    }
}

/// The type parameter placeholder `!cir.type_param<"name">`.
pub struct TypeParamType {
    pub name: String,
}

impl TypeParamType {
    /// The descriptor of this type parameter.
    pub fn descriptor<Ty>(&self) -> (t: ExtTypeSpec<Ty>)
        ensures
            t@ == type_param_type_view::<Ty>(self.name@),
    {
        type_param_type(self.name.as_str())
    }
}

} // verus!
