//! The 2 enum operations, both Pure: `cir.enum_constant` makes an enum value
//! from a variant name, `cir.enum_value` reads its integer tag.
use vstd::prelude::*;
use crate::ir::{defines, name_key, str_eq, Attr, AttrView, DialectDef, DialectView, NamedAttr, NamedAttrView, OpDef, OpDefView, OpSpec, OpTrait, OpView};

verus! {

/// The 2 enum operations.
#[derive(Clone, Copy, Debug, PartialEq, Eq, Structural)]
pub enum EnumOp {
    EnumConstant,
    EnumValue,
}

impl EnumOp {
    pub open spec fn spec_name(self) -> Seq<char> {
        match self {
            EnumOp::EnumConstant => "cir.enum_constant"@,
            EnumOp::EnumValue => "cir.enum_value"@,
        }
    }

    /// The operation's full name.
    pub fn name(self) -> (r: &'static str)
        ensures
            r@ == self.spec_name(),
    {
        match self {
            EnumOp::EnumConstant => "cir.enum_constant",
            EnumOp::EnumValue => "cir.enum_value",
        }
    }

    /// The operation named `name`, if any.
    pub open spec fn spec_from_name(name: Seq<char>) -> Option<EnumOp> {
        if name == "cir.enum_constant"@ {
            Some(EnumOp::EnumConstant)
        } else if name == "cir.enum_value"@ {
            Some(EnumOp::EnumValue)
        } else {
            None
        }
    }

    /// The operation named `name`, if any.
    pub fn from_name(name: &str) -> (r: Option<EnumOp>)
        ensures
            r == EnumOp::spec_from_name(name@),
    {
        if str_eq(name, "cir.enum_constant") {
            Some(EnumOp::EnumConstant)
        } else if str_eq(name, "cir.enum_value") {
            Some(EnumOp::EnumValue)
        } else {
            None
        }
    }

    /// Every operation is found again by its name.
    pub proof fn lemma_from_name(self)
        ensures
            EnumOp::spec_from_name(self.spec_name()) == Some(self),
    {
        reveal_strlit("cir.enum_constant");
        reveal_strlit("cir.enum_value");
        assert(name_key("cir.enum_constant"@).0 == 17);
        assert(name_key("cir.enum_value"@).0 == 14);
    }

    pub open spec fn spec_traits(self) -> Seq<OpTrait> {
        match self {
            EnumOp::EnumConstant | EnumOp::EnumValue => seq![OpTrait::Pure],
        }
    }

    /// The traits the operation is registered with: both are Pure.
    pub fn traits(self) -> (r: Vec<OpTrait>)
        ensures
            r@ == self.spec_traits(),
    {
        let r: Vec<OpTrait> = match self {
            EnumOp::EnumConstant | EnumOp::EnumValue => vec![OpTrait::Pure],
        };
        assert(r@ =~= self.spec_traits());
        r
    }

    pub open spec fn def_view(self) -> OpDefView {
        OpDefView { name: self.spec_name(), traits: self.spec_traits() }
    }

    /// The operation's definition: its name and its traits.
    pub fn definition(self) -> (r: OpDef)
        ensures
            r@ == self.def_view(),
    {
        OpDef { name: self.name(), traits: self.traits() }
    }

    /// All 2 operations, in registration order.
    pub open spec fn all_spec() -> Seq<EnumOp> {
        seq![EnumOp::EnumConstant, EnumOp::EnumValue]
    }

    /// All 2 operations, in registration order.
    pub fn all() -> (r: Vec<EnumOp>)
        ensures
            r@ == EnumOp::all_spec(),
    {
        let r = vec![EnumOp::EnumConstant, EnumOp::EnumValue];
        assert(r@ =~= EnumOp::all_spec());
        r
    }

    /// The operation's place in the registration order.
    pub open spec fn position(self) -> int {
        match self {
            EnumOp::EnumConstant => 0,
            EnumOp::EnumValue => 1,
        }
    }

    /// The operation stands at its place in the registration order.
    pub proof fn lemma_position(self)
        ensures
            0 <= self.position() < 2,
            EnumOp::all_spec()[self.position()] == self,
    {
    }
}

/// The enums dialect: namespace `cir` and the definitions of the 2
/// operations, in registration order.
pub open spec fn enums_dialect() -> DialectView {
    DialectView {
        namespace: "cir"@,
        ops: EnumOp::all_spec().map_values(|op: EnumOp| op.def_view()),
    }
}

/// Registers the 2 enums operations under the `cir` namespace.
pub fn register_ops() -> (d: DialectDef)
    ensures
        d@ == enums_dialect(),
{
    let all = EnumOp::all();
    let mut ops: Vec<OpDef> = Vec::new();
    let mut i: usize = 0;
    while i < all.len()
        invariant
            all@ == EnumOp::all_spec(),
            i <= all@.len(),
            ops@.len() == i,
            forall|j: int| 0 <= j < i ==> (#[trigger] ops@[j])@ == all@[j].def_view(),
        decreases all@.len() - i,
    {
        ops.push(all[i].definition());
        i = i + 1;
    }
    let d = DialectDef { namespace: "cir", ops };
    assert(d@.ops =~= enums_dialect().ops);
    d
}

/// The enums dialect defines exactly the 2 operations, under pairwise
/// distinct names: a name is defined exactly when it names an operation, and
/// each operation is found again by its name, at its place.
pub proof fn lemma_enums_dialect_names(op: EnumOp, name: Seq<char>)
    ensures
        enums_dialect().ops.len() == 2,
        enums_dialect().ops[op.position()] == op.def_view(),
        EnumOp::spec_from_name(op.spec_name()) == Some(op),
        defines(enums_dialect().ops, name) <==> EnumOp::spec_from_name(name) is Some,
{
    op.lemma_from_name();
    op.lemma_position();
    let ops = enums_dialect().ops;
    let all = EnumOp::all_spec();
    if defines(ops, name) {
        let i = choose|i: int| 0 <= i < ops.len() && ops[i].name == name;
        all[i].lemma_from_name();
    }
    if let Some(o) = EnumOp::spec_from_name(name) {
        o.lemma_from_name();
        o.lemma_position();
        assert(ops[o.position()].name == name);
    }
}

/// `cir.enum_constant` of variant `variant` of the enum type `enum_ty`: no
/// operands, one result of type `enum_ty`, attribute `variant` (a string).
pub fn enum_constant_op<Val, Ty: Copy>(enum_ty: Ty, variant: &str) -> (op: OpSpec<Val, Ty>)
    ensures
        op@ == (OpView {
            name: "cir.enum_constant"@,
            operands: Seq::<Val>::empty(),
            result_types: seq![enum_ty],
            attributes: seq![NamedAttrView { name: "variant"@, value: AttrView::Str(variant@) }],
        }),
{
    let op = OpSpec {
        name: "cir.enum_constant",
        operands: Vec::new(),
        result_types: vec![enum_ty],
        attributes: vec![NamedAttr { name: "variant", value: Attr::Str(variant.to_owned()) }],
    };
    assert(op@.operands =~= Seq::<Val>::empty());
    assert(op@.result_types =~= seq![enum_ty]);
    assert(op@.attributes =~= seq![NamedAttrView { name: "variant"@, value: AttrView::Str(variant@) }]);
    op
}

/// `cir.enum_value` of `input`: the integer tag of an enum value; operand
/// `input`, one result of the tag type `result_ty`, no attributes.
pub fn enum_value_op<Val, Ty>(input: Val, result_ty: Ty) -> (op: OpSpec<Val, Ty>)
    ensures
        op@ == (OpView {
            name: "cir.enum_value"@,
            operands: seq![input],
            result_types: seq![result_ty],
            attributes: Seq::<NamedAttrView<Ty>>::empty(),
        }),
{
    let op = OpSpec {
        name: "cir.enum_value",
        operands: vec![input],
        result_types: vec![result_ty],
        attributes: Vec::new(),
    };
    assert(op@.operands =~= seq![input]);
    assert(op@.result_types =~= seq![result_ty]);
    assert(op@.attributes =~= Seq::<NamedAttrView<Ty>>::empty());
    op
}

} // verus!
