//! The generics operation `cir.generic_apply`: a call of a generic function
//! with type substitutions, resolved into a direct call by monomorphization.
//! It carries a symbol reference and is not Pure.
use vstd::prelude::*;
use crate::ir::{defines, name_key, str_eq, strs_to_strings, strs_view, Attr, AttrView, DialectDef, DialectView, NamedAttr, NamedAttrView, OpDef, OpDefView, OpSpec, OpTrait, OpView};

verus! {

/// The generics operation.
#[derive(Clone, Copy, Debug, PartialEq, Eq, Structural)]
pub enum GenericOp {
    GenericApply,
}

impl GenericOp {
    pub open spec fn spec_name(self) -> Seq<char> {
        match self {
            GenericOp::GenericApply => "cir.generic_apply"@,
        }
    }

    /// The operation's full name.
    pub fn name(self) -> (r: &'static str)
        ensures
            r@ == self.spec_name(),
    {
        match self {
            GenericOp::GenericApply => "cir.generic_apply",
        }
    }

    /// The operation named `name`, if any.
    pub open spec fn spec_from_name(name: Seq<char>) -> Option<GenericOp> {
        if name == "cir.generic_apply"@ {
            Some(GenericOp::GenericApply)
        } else {
            None
        }
    }

    /// The operation named `name`, if any.
    pub fn from_name(name: &str) -> (r: Option<GenericOp>)
        ensures
            r == GenericOp::spec_from_name(name@),
    {
        if str_eq(name, "cir.generic_apply") {
            Some(GenericOp::GenericApply)
        } else {
            None
        }
    }

    /// Every operation is found again by its name.
    pub proof fn lemma_from_name(self)
        ensures
            GenericOp::spec_from_name(self.spec_name()) == Some(self),
    {
        reveal_strlit("cir.generic_apply");
        assert(name_key("cir.generic_apply"@).0 == 17);
    }

    pub open spec fn spec_traits(self) -> Seq<OpTrait> {
        match self {
            GenericOp::GenericApply => Seq::<OpTrait>::empty(),
        }
    }

    /// The traits the operation is registered with: none (it is not Pure).
    pub fn traits(self) -> (r: Vec<OpTrait>)
        ensures
            r@ == self.spec_traits(),
    {
        let r: Vec<OpTrait> = match self {
            GenericOp::GenericApply => Vec::new(),
        };
        assert(r@ =~= self.spec_traits());
        r
    }

    pub open spec fn def_view(self) -> OpDefView {
        OpDefView { name: self.spec_name(), traits: self.spec_traits() }
    }

    /// The operation's definition: its name and its traits.
    pub fn definition(self) -> (r: OpDef)
        ensures
            r@ == self.def_view(),
    {
        OpDef { name: self.name(), traits: self.traits() }
    }

    /// All 1 operations, in registration order.
    pub open spec fn all_spec() -> Seq<GenericOp> {
        seq![GenericOp::GenericApply]
    }

    /// All 1 operations, in registration order.
    pub fn all() -> (r: Vec<GenericOp>)
        ensures
            r@ == GenericOp::all_spec(),
    {
        let r = vec![GenericOp::GenericApply];
        assert(r@ =~= GenericOp::all_spec());
        r
    }

    /// The operation's place in the registration order.
    pub open spec fn position(self) -> int {
        match self {
            GenericOp::GenericApply => 0,
        }
    }

    /// The operation stands at its place in the registration order.
    pub proof fn lemma_position(self)
        ensures
            0 <= self.position() < 1,
            GenericOp::all_spec()[self.position()] == self,
    {
    }
}

/// The generics dialect: namespace `cir` and the definitions of the 1
/// operations, in registration order.
pub open spec fn generics_dialect() -> DialectView {
    DialectView {
        namespace: "cir"@,
        ops: GenericOp::all_spec().map_values(|op: GenericOp| op.def_view()),
    }
}

/// Registers the 1 generics operations under the `cir` namespace.
pub fn register_ops() -> (d: DialectDef)
    ensures
        d@ == generics_dialect(),
{
    let all = GenericOp::all();
    let mut ops: Vec<OpDef> = Vec::new();
    let mut i: usize = 0;
    while i < all.len()
        invariant
            all@ == GenericOp::all_spec(),
            i <= all@.len(),
            ops@.len() == i,
            forall|j: int| 0 <= j < i ==> (#[trigger] ops@[j])@ == all@[j].def_view(),
        decreases all@.len() - i,
    {
        ops.push(all[i].definition());
        i = i + 1;
    }
    let d = DialectDef { namespace: "cir", ops };
    assert(d@.ops =~= generics_dialect().ops);
    d
}

/// The generics dialect defines exactly the 1 operations, under pairwise
/// distinct names: a name is defined exactly when it names an operation, and
/// each operation is found again by its name, at its place.
pub proof fn lemma_generics_dialect_names(op: GenericOp, name: Seq<char>)
    ensures
        generics_dialect().ops.len() == 1,
        generics_dialect().ops[op.position()] == op.def_view(),
        GenericOp::spec_from_name(op.spec_name()) == Some(op),
        defines(generics_dialect().ops, name) <==> GenericOp::spec_from_name(name) is Some,
{
    op.lemma_from_name();
    op.lemma_position();
    let ops = generics_dialect().ops;
    let all = GenericOp::all_spec();
    if defines(ops, name) {
        let i = choose|i: int| 0 <= i < ops.len() && ops[i].name == name;
        all[i].lemma_from_name();
    }
    if let Some(o) = GenericOp::spec_from_name(name) {
        o.lemma_from_name();
        o.lemma_position();
        assert(ops[o.position()].name == name);
    }
}

/// `cir.generic_apply` of generic function `callee` to `args`, with type
/// parameter `sub_keys[i]` substituted by `sub_types[i]`: the arguments as
/// operands, results of `result_types`, attributes `callee` (a symbol
/// reference), `sub_keys` (strings) and `sub_types` (types).
pub fn generic_apply_op<Val: Copy, Ty: Copy>(callee: &str, args: &[Val], sub_keys: &[&str], sub_types: &[Ty], result_types: &[Ty]) -> (op: OpSpec<Val, Ty>)
    ensures
        op@ == (OpView {
            name: "cir.generic_apply"@,
            operands: args@,
            result_types: result_types@,
            attributes: seq![NamedAttrView { name: "callee"@, value: AttrView::SymbolRef(callee@) }, NamedAttrView { name: "sub_keys"@, value: AttrView::StrArray(strs_view(sub_keys@)) }, NamedAttrView { name: "sub_types"@, value: AttrView::TypeArray(sub_types@) }],
        }),
{
    let op = OpSpec {
        name: "cir.generic_apply",
        operands: vstd::slice::slice_to_vec(args),
        result_types: vstd::slice::slice_to_vec(result_types),
        attributes: vec![NamedAttr { name: "callee", value: Attr::SymbolRef(callee.to_owned()) }, NamedAttr { name: "sub_keys", value: Attr::StrArray(strs_to_strings(sub_keys)) }, NamedAttr { name: "sub_types", value: Attr::TypeArray(vstd::slice::slice_to_vec(sub_types)) }],
    };
    assert(op@.operands =~= args@);
    assert(op@.result_types =~= result_types@);
    assert(op@.attributes =~= seq![NamedAttrView { name: "callee"@, value: AttrView::SymbolRef(callee@) }, NamedAttrView { name: "sub_keys"@, value: AttrView::StrArray(strs_view(sub_keys@)) }, NamedAttrView { name: "sub_types"@, value: AttrView::TypeArray(sub_types@) }]);
    op
}

} // verus!
