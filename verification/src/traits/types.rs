//! The existential type `!cir.existential<"P">`: a container for a value of
//! some type that conforms to protocol P, held with its witness tables. The
//! protocol name is its string parameter.
use vstd::prelude::*;
use crate::ir::{ExtTypeSpec, ExtTypeView};

verus! {

/// The descriptor of `!cir.existential<"protocol">`.
pub open spec fn existential_type_view<Ty>(protocol: Seq<char>) -> ExtTypeView<Ty> {
    ExtTypeView {
        dialect: "cir"@,
        name: "existential"@,
        int_params: Seq::empty(),
        type_params: Seq::empty(),
        string_params: seq![protocol],
    }
}

/// The descriptor of `!cir.existential<protocol>`: dialect `cir`, name
/// `existential`, string parameters [protocol].
pub fn existential_type<Ty>(protocol: &str) -> (t: ExtTypeSpec<Ty>)
    ensures
        t@ == existential_type_view::<Ty>(protocol@),
{
    let t = ExtTypeSpec {
        dialect: "cir",
        name: "existential",
        int_params: Vec::new(),
        type_params: Vec::new(),
        string_params: vec![protocol.to_owned()],
    };
    assert(t@.int_params =~= Seq::<i64>::empty());
    assert(t@.type_params =~= Seq::<Ty>::empty());
    assert(t@.string_params =~= seq![protocol@]);
    t
}

/// Existential types are equal exactly when their protocols are.
pub proof fn lemma_existential_type_injective<Ty>(a: Seq<char>, b: Seq<char>)
    ensures
        existential_type_view::<Ty>(a) == existential_type_view::<Ty>(b) <==> a == b,
{
    if existential_type_view::<Ty>(a) == existential_type_view::<Ty>(b) {
        assert(existential_type_view::<Ty>(a).string_params[0] == a);
    }
}

/// The existential type `!cir.existential<"protocol">`.
pub struct ExistentialType {
    pub protocol: String,
}

impl ExistentialType {
    /// The descriptor of this existential type.
    pub fn descriptor<Ty>(&self) -> (t: ExtTypeSpec<Ty>)
        ensures
            t@ == existential_type_view::<Ty>(self.protocol@),
    {
        existential_type(self.protocol.as_str())
    }
}

} // verus!
