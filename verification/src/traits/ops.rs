//! The 6 trait operations: `cir.witness_table` (a protocol witness table
//! declaration), `cir.trait_call` (a call through a protocol),
//! `cir.witness_method` (a method pointer from a witness table; Pure),
//! `cir.init_existential`, `cir.open_existential` (Pure) and
//! `cir.deinit_existential` (fill, open and clear an existential container).
use vstd::prelude::*;
use crate::ir::{defines, name_key, str_eq, strs_to_strings, strs_view, Attr, AttrView, DialectDef, DialectView, NamedAttr, NamedAttrView, OpDef, OpDefView, OpSpec, OpTrait, OpView};

verus! {

/// The 6 trait operations.
#[derive(Clone, Copy, Debug, PartialEq, Eq, Structural)]
pub enum TraitOp {
    WitnessTable,
    TraitCall,
    WitnessMethod,
    InitExistential,
    OpenExistential,
    DeinitExistential,
}

impl TraitOp {
    pub open spec fn spec_name(self) -> Seq<char> {
        match self {
            TraitOp::WitnessTable => "cir.witness_table"@,
            TraitOp::TraitCall => "cir.trait_call"@,
            TraitOp::WitnessMethod => "cir.witness_method"@,
            TraitOp::InitExistential => "cir.init_existential"@,
            TraitOp::OpenExistential => "cir.open_existential"@,
            TraitOp::DeinitExistential => "cir.deinit_existential"@,
        }
    }

    /// The operation's full name.
    pub fn name(self) -> (r: &'static str)
        ensures
            r@ == self.spec_name(),
    {
        match self {
            TraitOp::WitnessTable => "cir.witness_table",
            TraitOp::TraitCall => "cir.trait_call",
            TraitOp::WitnessMethod => "cir.witness_method",
            TraitOp::InitExistential => "cir.init_existential",
            TraitOp::OpenExistential => "cir.open_existential",
            TraitOp::DeinitExistential => "cir.deinit_existential",
        }
    }

    /// The operation named `name`, if any.
    pub open spec fn spec_from_name(name: Seq<char>) -> Option<TraitOp> {
        if name == "cir.witness_table"@ {
            Some(TraitOp::WitnessTable)
        } else if name == "cir.trait_call"@ {
            Some(TraitOp::TraitCall)
        } else if name == "cir.witness_method"@ {
            Some(TraitOp::WitnessMethod)
        } else if name == "cir.init_existential"@ {
            Some(TraitOp::InitExistential)
        } else if name == "cir.open_existential"@ {
            Some(TraitOp::OpenExistential)
        } else if name == "cir.deinit_existential"@ {
            Some(TraitOp::DeinitExistential)
        } else {
            None
        }
    }

    /// The operation named `name`, if any.
    pub fn from_name(name: &str) -> (r: Option<TraitOp>)
        ensures
            r == TraitOp::spec_from_name(name@),
    {
        if str_eq(name, "cir.witness_table") {
            Some(TraitOp::WitnessTable)
        } else if str_eq(name, "cir.trait_call") {
            Some(TraitOp::TraitCall)
        } else if str_eq(name, "cir.witness_method") {
            Some(TraitOp::WitnessMethod)
        } else if str_eq(name, "cir.init_existential") {
            Some(TraitOp::InitExistential)
        } else if str_eq(name, "cir.open_existential") {
            Some(TraitOp::OpenExistential)
        } else if str_eq(name, "cir.deinit_existential") {
            Some(TraitOp::DeinitExistential)
        } else {
            None
        }
    }

    /// Every operation is found again by its name.
    pub proof fn lemma_from_name(self)
        ensures
            TraitOp::spec_from_name(self.spec_name()) == Some(self),
    {
        reveal_strlit("cir.witness_table");
        reveal_strlit("cir.trait_call");
        reveal_strlit("cir.witness_method");
        reveal_strlit("cir.init_existential");
        reveal_strlit("cir.open_existential");
        reveal_strlit("cir.deinit_existential");
        assert(name_key("cir.witness_table"@).0 == 17);
        assert(name_key("cir.trait_call"@).0 == 14);
        assert(name_key("cir.witness_method"@).0 == 18);
        assert(name_key("cir.init_existential"@).0 == 20);
        assert(name_key("cir.open_existential"@).0 == 20);
        assert(name_key("cir.deinit_existential"@).0 == 22);
    }

    pub open spec fn spec_traits(self) -> Seq<OpTrait> {
        match self {
            TraitOp::WitnessTable | TraitOp::TraitCall | TraitOp::InitExistential | TraitOp::DeinitExistential => Seq::<OpTrait>::empty(),
            TraitOp::WitnessMethod | TraitOp::OpenExistential => seq![OpTrait::Pure],
        }
    }

    /// The traits the operation is registered with: `cir.witness_method` and `cir.open_existential` are Pure; the others declare a symbol, call, or write a container and carry no trait.
    pub fn traits(self) -> (r: Vec<OpTrait>)
        ensures
            r@ == self.spec_traits(),
    {
        let r: Vec<OpTrait> = match self {
            TraitOp::WitnessTable | TraitOp::TraitCall | TraitOp::InitExistential | TraitOp::DeinitExistential => Vec::new(),
            TraitOp::WitnessMethod | TraitOp::OpenExistential => vec![OpTrait::Pure],
        };
        assert(r@ =~= self.spec_traits());
        r
    }

    pub open spec fn def_view(self) -> OpDefView {
        OpDefView { name: self.spec_name(), traits: self.spec_traits() }
    }

    /// The operation's definition: its name and its traits.
    pub fn definition(self) -> (r: OpDef)
        ensures
            r@ == self.def_view(),
    {
        OpDef { name: self.name(), traits: self.traits() }
    }

    /// All 6 operations, in registration order.
    pub open spec fn all_spec() -> Seq<TraitOp> {
        seq![TraitOp::WitnessTable, TraitOp::TraitCall, TraitOp::WitnessMethod, TraitOp::InitExistential, TraitOp::OpenExistential, TraitOp::DeinitExistential]
    }

    /// All 6 operations, in registration order.
    pub fn all() -> (r: Vec<TraitOp>)
        ensures
            r@ == TraitOp::all_spec(),
    {
        let r = vec![TraitOp::WitnessTable, TraitOp::TraitCall, TraitOp::WitnessMethod, TraitOp::InitExistential, TraitOp::OpenExistential, TraitOp::DeinitExistential];
        assert(r@ =~= TraitOp::all_spec());
        r
    }

    /// The operation's place in the registration order.
    pub open spec fn position(self) -> int {
        match self {
            TraitOp::WitnessTable => 0,
            TraitOp::TraitCall => 1,
            TraitOp::WitnessMethod => 2,
            TraitOp::InitExistential => 3,
            TraitOp::OpenExistential => 4,
            TraitOp::DeinitExistential => 5,
        }
    }

    /// The operation stands at its place in the registration order.
    pub proof fn lemma_position(self)
        ensures
            0 <= self.position() < 6,
            TraitOp::all_spec()[self.position()] == self,
    {
    }
}

/// The traits dialect: namespace `cir` and the definitions of the 6
/// operations, in registration order.
pub open spec fn traits_dialect() -> DialectView {
    DialectView {
        namespace: "cir"@,
        ops: TraitOp::all_spec().map_values(|op: TraitOp| op.def_view()),
    }
}

/// Registers the 6 traits operations under the `cir` namespace.
pub fn register_ops() -> (d: DialectDef)
    ensures
        d@ == traits_dialect(),
{
    let all = TraitOp::all();
    let mut ops: Vec<OpDef> = Vec::new();
    let mut i: usize = 0;
    while i < all.len()
        invariant
            all@ == TraitOp::all_spec(),
            i <= all@.len(),
            ops@.len() == i,
            forall|j: int| 0 <= j < i ==> (#[trigger] ops@[j])@ == all@[j].def_view(),
        decreases all@.len() - i,
    {
        ops.push(all[i].definition());
        i = i + 1;
    }
    let d = DialectDef { namespace: "cir", ops };
    assert(d@.ops =~= traits_dialect().ops);
    d
}

/// The traits dialect defines exactly the 6 operations, under pairwise
/// distinct names: a name is defined exactly when it names an operation, and
/// each operation is found again by its name, at its place.
pub proof fn lemma_traits_dialect_names(op: TraitOp, name: Seq<char>)
    ensures
        traits_dialect().ops.len() == 6,
        traits_dialect().ops[op.position()] == op.def_view(),
        TraitOp::spec_from_name(op.spec_name()) == Some(op),
        defines(traits_dialect().ops, name) <==> TraitOp::spec_from_name(name) is Some,
{
    op.lemma_from_name();
    op.lemma_position();
    let ops = traits_dialect().ops;
    let all = TraitOp::all_spec();
    if defines(ops, name) {
        let i = choose|i: int| 0 <= i < ops.len() && ops[i].name == name;
        all[i].lemma_from_name();
    }
    if let Some(o) = TraitOp::spec_from_name(name) {
        o.lemma_from_name();
        o.lemma_position();
        assert(ops[o.position()].name == name);
    }
}

/// `cir.witness_table` declaring table `sym_name` of `conforming_type` for
/// `protocol`, whose method `method_names[i]` is implemented by
/// `method_impls[i]`: no operands, no results, attributes `sym_name`,
/// `protocol`, `conforming_type` (strings), `method_names` (strings) and
/// `method_impls` (symbol references).
pub fn witness_table_op<Val, Ty>(sym_name: &str, protocol: &str, conforming_type: &str, method_names: &[&str], method_impls: &[&str]) -> (op: OpSpec<Val, Ty>)
    ensures
        op@ == (OpView {
            name: "cir.witness_table"@,
            operands: Seq::<Val>::empty(),
            result_types: Seq::<Ty>::empty(),
            attributes: seq![NamedAttrView { name: "sym_name"@, value: AttrView::Str(sym_name@) }, NamedAttrView { name: "protocol"@, value: AttrView::Str(protocol@) }, NamedAttrView { name: "conforming_type"@, value: AttrView::Str(conforming_type@) }, NamedAttrView { name: "method_names"@, value: AttrView::StrArray(strs_view(method_names@)) }, NamedAttrView { name: "method_impls"@, value: AttrView::SymbolRefArray(strs_view(method_impls@)) }],
        }),
{
    let op = OpSpec {
        name: "cir.witness_table",
        operands: Vec::new(),
        result_types: Vec::new(),
        attributes: vec![NamedAttr { name: "sym_name", value: Attr::Str(sym_name.to_owned()) }, NamedAttr { name: "protocol", value: Attr::Str(protocol.to_owned()) }, NamedAttr { name: "conforming_type", value: Attr::Str(conforming_type.to_owned()) }, NamedAttr { name: "method_names", value: Attr::StrArray(strs_to_strings(method_names)) }, NamedAttr { name: "method_impls", value: Attr::SymbolRefArray(strs_to_strings(method_impls)) }],
    };
    assert(op@.operands =~= Seq::<Val>::empty());
    assert(op@.result_types =~= Seq::<Ty>::empty());
    assert(op@.attributes =~= seq![NamedAttrView { name: "sym_name"@, value: AttrView::Str(sym_name@) }, NamedAttrView { name: "protocol"@, value: AttrView::Str(protocol@) }, NamedAttrView { name: "conforming_type"@, value: AttrView::Str(conforming_type@) }, NamedAttrView { name: "method_names"@, value: AttrView::StrArray(strs_view(method_names@)) }, NamedAttrView { name: "method_impls"@, value: AttrView::SymbolRefArray(strs_view(method_impls@)) }]);
    op
}

/// `cir.trait_call` of `method` of `protocol` on `args`: the arguments as
/// operands, results of `result_types`, attributes `protocol` (a symbol
/// reference) and `method` (a string).
pub fn trait_call_op<Val: Copy, Ty: Copy>(protocol: &str, method: &str, args: &[Val], result_types: &[Ty]) -> (op: OpSpec<Val, Ty>)
    ensures
        op@ == (OpView {
            name: "cir.trait_call"@,
            operands: args@,
            result_types: result_types@,
            attributes: seq![NamedAttrView { name: "protocol"@, value: AttrView::SymbolRef(protocol@) }, NamedAttrView { name: "method"@, value: AttrView::Str(method@) }],
        }),
{
    let op = OpSpec {
        name: "cir.trait_call",
        operands: vstd::slice::slice_to_vec(args),
        result_types: vstd::slice::slice_to_vec(result_types),
        attributes: vec![NamedAttr { name: "protocol", value: Attr::SymbolRef(protocol.to_owned()) }, NamedAttr { name: "method", value: Attr::Str(method.to_owned()) }],
    };
    assert(op@.operands =~= args@);
    assert(op@.result_types =~= result_types@);
    assert(op@.attributes =~= seq![NamedAttrView { name: "protocol"@, value: AttrView::SymbolRef(protocol@) }, NamedAttrView { name: "method"@, value: AttrView::Str(method@) }]);
    op
}

/// `cir.witness_method` loading `method` from the protocol witness table
/// `pwt`: operand `pwt`, one result of type `result_ty`, attribute `method`
/// (a string) and, when `method_index` is given, attribute `method_index` =
/// (that index, `i64_ty`).
pub fn witness_method_op<Val, Ty: Copy>(pwt: Val, method: &str, method_index: Option<i64>, result_ty: Ty, i64_ty: Ty) -> (op: OpSpec<Val, Ty>)
    ensures
        op@ == (OpView {
            name: "cir.witness_method"@,
            operands: seq![pwt],
            result_types: seq![result_ty],
            attributes: match method_index {
                Some(idx) => seq![
                    NamedAttrView { name: "method"@, value: AttrView::Str(method@) },
                    NamedAttrView { name: "method_index"@, value: AttrView::Integer { value: idx, ty: i64_ty } },
                ],
                None => seq![NamedAttrView { name: "method"@, value: AttrView::Str(method@) }],
            },
        }),
{
    let mut attrs = vec![NamedAttr { name: "method", value: Attr::Str(method.to_owned()) }];
    if let Some(idx) = method_index {
        attrs.push(NamedAttr { name: "method_index", value: Attr::Integer { value: idx, ty: i64_ty } });
    }
    let op = OpSpec {
        name: "cir.witness_method",
        operands: vec![pwt],
        result_types: vec![result_ty],
        attributes: attrs,
    };
    assert(op@.operands =~= seq![pwt]);
    assert(op@.result_types =~= seq![result_ty]);
    match method_index {
        Some(idx) => {
            assert(op@.attributes =~= seq![
                NamedAttrView { name: "method"@, value: AttrView::Str(method@) },
                NamedAttrView { name: "method_index"@, value: AttrView::Integer { value: idx, ty: i64_ty } },
            ]);
        },
        None => {
            assert(op@.attributes =~= seq![NamedAttrView { name: "method"@, value: AttrView::Str(method@) }]);
        },
    }
    op
}

/// `cir.init_existential` of `container` with `value` and its tables `vwt`
/// and `pwt`: operands `container`, `value`, `vwt`, `pwt`, no results.
pub fn init_existential_op<Val, Ty>(container: Val, value: Val, vwt: Val, pwt: Val) -> (op: OpSpec<Val, Ty>)
    ensures
        op@ == (OpView {
            name: "cir.init_existential"@,
            operands: seq![container, value, vwt, pwt],
            result_types: Seq::<Ty>::empty(),
            attributes: Seq::<NamedAttrView<Ty>>::empty(),
        }),
{
    let op = OpSpec {
        name: "cir.init_existential",
        operands: vec![container, value, vwt, pwt],
        result_types: Vec::new(),
        attributes: Vec::new(),
    };
    assert(op@.operands =~= seq![container, value, vwt, pwt]);
    assert(op@.result_types =~= Seq::<Ty>::empty());
    assert(op@.attributes =~= Seq::<NamedAttrView<Ty>>::empty());
    op
}

/// `cir.open_existential` of `container`: operand `container`, three results
/// of types `buf_ty`, `vwt_ty` and `pwt_ty` (buffer, value witness table,
/// protocol witness table).
pub fn open_existential_op<Val, Ty>(container: Val, buf_ty: Ty, vwt_ty: Ty, pwt_ty: Ty) -> (op: OpSpec<Val, Ty>)
    ensures
        op@ == (OpView {
            name: "cir.open_existential"@,
            operands: seq![container],
            result_types: seq![buf_ty, vwt_ty, pwt_ty],
            attributes: Seq::<NamedAttrView<Ty>>::empty(),
        }),
{
    let op = OpSpec {
        name: "cir.open_existential",
        operands: vec![container],
        result_types: vec![buf_ty, vwt_ty, pwt_ty],
        attributes: Vec::new(),
    };
    assert(op@.operands =~= seq![container]);
    assert(op@.result_types =~= seq![buf_ty, vwt_ty, pwt_ty]);
    assert(op@.attributes =~= Seq::<NamedAttrView<Ty>>::empty());
    op
}

/// `cir.deinit_existential` of `container`: operand `container`, no results.
pub fn deinit_existential_op<Val, Ty>(container: Val) -> (op: OpSpec<Val, Ty>)
    ensures
        op@ == (OpView {
            name: "cir.deinit_existential"@,
            operands: seq![container],
            result_types: Seq::<Ty>::empty(),
            attributes: Seq::<NamedAttrView<Ty>>::empty(),
        }),
{
    let op = OpSpec {
        name: "cir.deinit_existential",
        operands: vec![container],
        result_types: Vec::new(),
        attributes: Vec::new(),
    };
    assert(op@.operands =~= seq![container]);
    assert(op@.result_types =~= Seq::<Ty>::empty());
    assert(op@.attributes =~= Seq::<NamedAttrView<Ty>>::empty());
    op
}

} // verus!
