//! The 4 flow operations, all terminators, each ending a basic block:
//! `cir.br` (unconditional branch), `cir.condbr` (branch on an `i1`),
//! `cir.switch` (multi-way branch on an integer, with a default target) and
//! `cir.trap` (abort, no successors).
use vstd::prelude::*;
use crate::ir::{defines, name_key, str_eq, DialectDef, DialectView, OpDef, OpDefView, OpTrait};

verus! {

/// The 4 flow operations.
#[derive(Clone, Copy, Debug, PartialEq, Eq, Structural)]
pub enum FlowOp {
    Br,
    CondBr,
    Switch,
    Trap,
}

impl FlowOp {
    pub open spec fn spec_name(self) -> Seq<char> {
        match self {
            FlowOp::Br => "cir.br"@,
            FlowOp::CondBr => "cir.condbr"@,
            FlowOp::Switch => "cir.switch"@,
            FlowOp::Trap => "cir.trap"@,
        }
    }

    /// The operation's full name.
    pub fn name(self) -> (r: &'static str)
        ensures
            r@ == self.spec_name(),
    {
        match self {
            FlowOp::Br => "cir.br",
            FlowOp::CondBr => "cir.condbr",
            FlowOp::Switch => "cir.switch",
            FlowOp::Trap => "cir.trap",
        }
    }

    /// The operation named `name`, if any.
    pub open spec fn spec_from_name(name: Seq<char>) -> Option<FlowOp> {
        if name == "cir.br"@ {
            Some(FlowOp::Br)
        } else if name == "cir.condbr"@ {
            Some(FlowOp::CondBr)
        } else if name == "cir.switch"@ {
            Some(FlowOp::Switch)
        } else if name == "cir.trap"@ {
            Some(FlowOp::Trap)
        } else {
            None
        }
    }

    /// The operation named `name`, if any.
    pub fn from_name(name: &str) -> (r: Option<FlowOp>)
        ensures
            r == FlowOp::spec_from_name(name@),
    {
        if str_eq(name, "cir.br") {
            Some(FlowOp::Br)
        } else if str_eq(name, "cir.condbr") {
            Some(FlowOp::CondBr)
        } else if str_eq(name, "cir.switch") {
            Some(FlowOp::Switch)
        } else if str_eq(name, "cir.trap") {
            Some(FlowOp::Trap)
        } else {
            None
        }
    }

    /// Every operation is found again by its name.
    pub proof fn lemma_from_name(self)
        ensures
            FlowOp::spec_from_name(self.spec_name()) == Some(self),
    {
        reveal_strlit("cir.br");
        reveal_strlit("cir.condbr");
        reveal_strlit("cir.switch");
        reveal_strlit("cir.trap");
        assert(name_key("cir.br"@).0 == 6);
        assert(name_key("cir.condbr"@).0 == 10);
        assert(name_key("cir.switch"@).0 == 10);
        assert(name_key("cir.trap"@).0 == 8);
    }

    pub open spec fn spec_traits(self) -> Seq<OpTrait> {
        match self {
            FlowOp::Br | FlowOp::CondBr | FlowOp::Switch | FlowOp::Trap => seq![OpTrait::Terminator],
        }
    }

    /// The traits the operation is registered with: each is a Terminator.
    pub fn traits(self) -> (r: Vec<OpTrait>)
        ensures
            r@ == self.spec_traits(),
    {
        let r: Vec<OpTrait> = match self {
            FlowOp::Br | FlowOp::CondBr | FlowOp::Switch | FlowOp::Trap => vec![OpTrait::Terminator],
        };
        assert(r@ =~= self.spec_traits());
        r
    }

    pub open spec fn def_view(self) -> OpDefView {
        OpDefView { name: self.spec_name(), traits: self.spec_traits() }
    }

    /// The operation's definition: its name and its traits.
    pub fn definition(self) -> (r: OpDef)
        ensures
            r@ == self.def_view(),
    {
        OpDef { name: self.name(), traits: self.traits() }
    }

    /// All 4 operations, in registration order.
    pub open spec fn all_spec() -> Seq<FlowOp> {
        seq![FlowOp::Br, FlowOp::CondBr, FlowOp::Switch, FlowOp::Trap]
    }

    /// All 4 operations, in registration order.
    pub fn all() -> (r: Vec<FlowOp>)
        ensures
            r@ == FlowOp::all_spec(),
    {
        let r = vec![FlowOp::Br, FlowOp::CondBr, FlowOp::Switch, FlowOp::Trap];
        assert(r@ =~= FlowOp::all_spec());
        r
    }

    /// The operation's place in the registration order.
    pub open spec fn position(self) -> int {
        match self {
            FlowOp::Br => 0,
            FlowOp::CondBr => 1,
            FlowOp::Switch => 2,
            FlowOp::Trap => 3,
        }
    }

    /// The operation stands at its place in the registration order.
    pub proof fn lemma_position(self)
        ensures
            0 <= self.position() < 4,
            FlowOp::all_spec()[self.position()] == self,
    {
    }
}

/// The flow dialect: namespace `cir` and the definitions of the 4
/// operations, in registration order.
pub open spec fn flow_dialect() -> DialectView {
    DialectView {
        namespace: "cir"@,
        ops: FlowOp::all_spec().map_values(|op: FlowOp| op.def_view()),
    }
}

/// Registers the 4 flow operations under the `cir` namespace.
pub fn register_ops() -> (d: DialectDef)
    ensures
        d@ == flow_dialect(),
{
    let all = FlowOp::all();
    let mut ops: Vec<OpDef> = Vec::new();
    let mut i: usize = 0;
    while i < all.len()
        invariant
            all@ == FlowOp::all_spec(),
            i <= all@.len(),
            ops@.len() == i,
            forall|j: int| 0 <= j < i ==> (#[trigger] ops@[j])@ == all@[j].def_view(),
        decreases all@.len() - i,
    {
        ops.push(all[i].definition());
        i = i + 1;
    }
    let d = DialectDef { namespace: "cir", ops };
    assert(d@.ops =~= flow_dialect().ops);
    d
}

/// The flow dialect defines exactly the 4 operations, under pairwise
/// distinct names: a name is defined exactly when it names an operation, and
/// each operation is found again by its name, at its place.
pub proof fn lemma_flow_dialect_names(op: FlowOp, name: Seq<char>)
    ensures
        flow_dialect().ops.len() == 4,
        flow_dialect().ops[op.position()] == op.def_view(),
        FlowOp::spec_from_name(op.spec_name()) == Some(op),
        defines(flow_dialect().ops, name) <==> FlowOp::spec_from_name(name) is Some,
{
    op.lemma_from_name();
    op.lemma_position();
    let ops = flow_dialect().ops;
    let all = FlowOp::all_spec();
    if defines(ops, name) {
        let i = choose|i: int| 0 <= i < ops.len() && ops[i].name == name;
        all[i].lemma_from_name();
    }
    if let Some(o) = FlowOp::spec_from_name(name) {
        o.lemma_from_name();
        o.lemma_position();
        assert(ops[o.position()].name == name);
    }
}

} // verus!
