//! The 5 memory operations: `cir.alloca` (a stack slot, as an opaque
//! pointer), `cir.store` and `cir.load` (through a pointer), `cir.addr_of`
//! (a pointer as a typed reference; the only Pure one) and `cir.deref` (read
//! through a typed reference).
use vstd::prelude::*;
use crate::ir::{defines, name_key, str_eq, Attr, AttrView, DialectDef, DialectView, NamedAttr, NamedAttrView, OpDef, OpDefView, OpSpec, OpTrait, OpView};

verus! {

/// The 5 memory operations.
#[derive(Clone, Copy, Debug, PartialEq, Eq, Structural)]
pub enum MemoryOp {
    Alloca,
    Store,
    Load,
    AddrOf,
    Deref,
}

impl MemoryOp {
    pub open spec fn spec_name(self) -> Seq<char> {
        match self {
            MemoryOp::Alloca => "cir.alloca"@,
            MemoryOp::Store => "cir.store"@,
            MemoryOp::Load => "cir.load"@,
            MemoryOp::AddrOf => "cir.addr_of"@,
            MemoryOp::Deref => "cir.deref"@,
        }
    }

    /// The operation's full name.
    pub fn name(self) -> (r: &'static str)
        ensures
            r@ == self.spec_name(),
    {
        match self {
            MemoryOp::Alloca => "cir.alloca",
            MemoryOp::Store => "cir.store",
            MemoryOp::Load => "cir.load",
            MemoryOp::AddrOf => "cir.addr_of",
            MemoryOp::Deref => "cir.deref",
        }
    }

    /// The operation named `name`, if any.
    pub open spec fn spec_from_name(name: Seq<char>) -> Option<MemoryOp> {
        if name == "cir.alloca"@ {
            Some(MemoryOp::Alloca)
        } else if name == "cir.store"@ {
            Some(MemoryOp::Store)
        } else if name == "cir.load"@ {
            Some(MemoryOp::Load)
        } else if name == "cir.addr_of"@ {
            Some(MemoryOp::AddrOf)
        } else if name == "cir.deref"@ {
            Some(MemoryOp::Deref)
        } else {
            None
        }
    }

    /// The operation named `name`, if any.
    pub fn from_name(name: &str) -> (r: Option<MemoryOp>)
        ensures
            r == MemoryOp::spec_from_name(name@),
    {
        if str_eq(name, "cir.alloca") {
            Some(MemoryOp::Alloca)
        } else if str_eq(name, "cir.store") {
            Some(MemoryOp::Store)
        } else if str_eq(name, "cir.load") {
            Some(MemoryOp::Load)
        } else if str_eq(name, "cir.addr_of") {
            Some(MemoryOp::AddrOf)
        } else if str_eq(name, "cir.deref") {
            Some(MemoryOp::Deref)
        } else {
            None
        }
    }

    /// Every operation is found again by its name.
    pub proof fn lemma_from_name(self)
        ensures
            MemoryOp::spec_from_name(self.spec_name()) == Some(self),
    {
        reveal_strlit("cir.alloca");
        reveal_strlit("cir.store");
        reveal_strlit("cir.load");
        reveal_strlit("cir.addr_of");
        reveal_strlit("cir.deref");
        assert(name_key("cir.alloca"@).0 == 10);
        assert(name_key("cir.store"@).0 == 9);
        assert(name_key("cir.load"@).0 == 8);
        assert(name_key("cir.addr_of"@).0 == 11);
        assert(name_key("cir.deref"@).0 == 9);
    }

    pub open spec fn spec_traits(self) -> Seq<OpTrait> {
        match self {
            MemoryOp::Alloca | MemoryOp::Store | MemoryOp::Load | MemoryOp::Deref => Seq::<OpTrait>::empty(),
            MemoryOp::AddrOf => seq![OpTrait::Pure],
        }
    }

    /// The traits the operation is registered with: only `cir.addr_of` is Pure; the others allocate, write or read memory and carry no trait.
    pub fn traits(self) -> (r: Vec<OpTrait>)
        ensures
            r@ == self.spec_traits(),
    {
        let r: Vec<OpTrait> = match self {
            MemoryOp::Alloca | MemoryOp::Store | MemoryOp::Load | MemoryOp::Deref => Vec::new(),
            MemoryOp::AddrOf => vec![OpTrait::Pure],
        };
        assert(r@ =~= self.spec_traits());
        r
    }

    pub open spec fn def_view(self) -> OpDefView {
        OpDefView { name: self.spec_name(), traits: self.spec_traits() }
    }

    /// The operation's definition: its name and its traits.
    pub fn definition(self) -> (r: OpDef)
        ensures
            r@ == self.def_view(),
    {
        OpDef { name: self.name(), traits: self.traits() }
    }

    /// All 5 operations, in registration order.
    pub open spec fn all_spec() -> Seq<MemoryOp> {
        seq![MemoryOp::Alloca, MemoryOp::Store, MemoryOp::Load, MemoryOp::AddrOf, MemoryOp::Deref]
    }

    /// All 5 operations, in registration order.
    pub fn all() -> (r: Vec<MemoryOp>)
        ensures
            r@ == MemoryOp::all_spec(),
    {
        let r = vec![MemoryOp::Alloca, MemoryOp::Store, MemoryOp::Load, MemoryOp::AddrOf, MemoryOp::Deref];
        assert(r@ =~= MemoryOp::all_spec());
        r
    }

    /// The operation's place in the registration order.
    pub open spec fn position(self) -> int {
        match self {
            MemoryOp::Alloca => 0,
            MemoryOp::Store => 1,
            MemoryOp::Load => 2,
            MemoryOp::AddrOf => 3,
            MemoryOp::Deref => 4,
        }
    }

    /// The operation stands at its place in the registration order.
    pub proof fn lemma_position(self)
        ensures
            0 <= self.position() < 5,
            MemoryOp::all_spec()[self.position()] == self,
    {
    }
}

/// The memory dialect: namespace `cir` and the definitions of the 5
/// operations, in registration order.
pub open spec fn memory_dialect() -> DialectView {
    DialectView {
        namespace: "cir"@,
        ops: MemoryOp::all_spec().map_values(|op: MemoryOp| op.def_view()),
    }
}

/// Registers the 5 memory operations under the `cir` namespace.
pub fn register_ops() -> (d: DialectDef)
    ensures
        d@ == memory_dialect(),
{
    let all = MemoryOp::all();
    let mut ops: Vec<OpDef> = Vec::new();
    let mut i: usize = 0;
    while i < all.len()
        invariant
            all@ == MemoryOp::all_spec(),
            i <= all@.len(),
            ops@.len() == i,
            forall|j: int| 0 <= j < i ==> (#[trigger] ops@[j])@ == all@[j].def_view(),
        decreases all@.len() - i,
    {
        ops.push(all[i].definition());
        i = i + 1;
    }
    let d = DialectDef { namespace: "cir", ops };
    assert(d@.ops =~= memory_dialect().ops);
    d
}

/// The memory dialect defines exactly the 5 operations, under pairwise
/// distinct names: a name is defined exactly when it names an operation, and
/// each operation is found again by its name, at its place.
pub proof fn lemma_memory_dialect_names(op: MemoryOp, name: Seq<char>)
    ensures
        memory_dialect().ops.len() == 5,
        memory_dialect().ops[op.position()] == op.def_view(),
        MemoryOp::spec_from_name(op.spec_name()) == Some(op),
        defines(memory_dialect().ops, name) <==> MemoryOp::spec_from_name(name) is Some,
{
    op.lemma_from_name();
    op.lemma_position();
    let ops = memory_dialect().ops;
    let all = MemoryOp::all_spec();
    if defines(ops, name) {
        let i = choose|i: int| 0 <= i < ops.len() && ops[i].name == name;
        all[i].lemma_from_name();
    }
    if let Some(o) = MemoryOp::spec_from_name(name) {
        o.lemma_from_name();
        o.lemma_position();
        assert(ops[o.position()].name == name);
    }
}

/// `cir.alloca` of a stack slot for a value of type `elem_ty`: no operands,
/// one result of the opaque pointer type `ptr_ty`, attribute `elem_type`
/// (a type).
pub fn alloca_op<Val, Ty: Copy>(elem_ty: Ty, ptr_ty: Ty) -> (op: OpSpec<Val, Ty>)
    ensures
        op@ == (OpView {
            name: "cir.alloca"@,
            operands: Seq::<Val>::empty(),
            result_types: seq![ptr_ty],
            attributes: seq![NamedAttrView { name: "elem_type"@, value: AttrView::Type(elem_ty) }],
        }),
{
    let op = OpSpec {
        name: "cir.alloca",
        operands: Vec::new(),
        result_types: vec![ptr_ty],
        attributes: vec![NamedAttr { name: "elem_type", value: Attr::Type(elem_ty) }],
    };
    assert(op@.operands =~= Seq::<Val>::empty());
    assert(op@.result_types =~= seq![ptr_ty]);
    assert(op@.attributes =~= seq![NamedAttrView { name: "elem_type"@, value: AttrView::Type(elem_ty) }]);
    op
}

/// `cir.store` of `value` through `ptr`: operands `value`, `ptr`, no results.
pub fn store_op<Val, Ty>(value: Val, ptr: Val) -> (op: OpSpec<Val, Ty>)
    ensures
        op@ == (OpView {
            name: "cir.store"@,
            operands: seq![value, ptr],
            result_types: Seq::<Ty>::empty(),
            attributes: Seq::<NamedAttrView<Ty>>::empty(),
        }),
{
    let op = OpSpec {
        name: "cir.store",
        operands: vec![value, ptr],
        result_types: Vec::new(),
        attributes: Vec::new(),
    };
    assert(op@.operands =~= seq![value, ptr]);
    assert(op@.result_types =~= Seq::<Ty>::empty());
    assert(op@.attributes =~= Seq::<NamedAttrView<Ty>>::empty());
    op
}

/// `cir.load` through `ptr`: operand `ptr`, one result of type `result_ty`.
pub fn load_op<Val, Ty>(ptr: Val, result_ty: Ty) -> (op: OpSpec<Val, Ty>)
    ensures
        op@ == (OpView {
            name: "cir.load"@,
            operands: seq![ptr],
            result_types: seq![result_ty],
            attributes: Seq::<NamedAttrView<Ty>>::empty(),
        }),
{
    let op = OpSpec {
        name: "cir.load",
        operands: vec![ptr],
        result_types: vec![result_ty],
        attributes: Vec::new(),
    };
    assert(op@.operands =~= seq![ptr]);
    assert(op@.result_types =~= seq![result_ty]);
    assert(op@.attributes =~= Seq::<NamedAttrView<Ty>>::empty());
    op
}

/// `cir.addr_of` of `ptr`: the raw pointer as a typed reference; operand
/// `ptr`, one result of the reference type `ref_ty`.
pub fn addr_of_op<Val, Ty>(ptr: Val, ref_ty: Ty) -> (op: OpSpec<Val, Ty>)
    ensures
        op@ == (OpView {
            name: "cir.addr_of"@,
            operands: seq![ptr],
            result_types: seq![ref_ty],
            attributes: Seq::<NamedAttrView<Ty>>::empty(),
        }),
{
    let op = OpSpec {
        name: "cir.addr_of",
        operands: vec![ptr],
        result_types: vec![ref_ty],
        attributes: Vec::new(),
    };
    assert(op@.operands =~= seq![ptr]);
    assert(op@.result_types =~= seq![ref_ty]);
    assert(op@.attributes =~= Seq::<NamedAttrView<Ty>>::empty());
    op
}

/// `cir.deref` of the typed reference `reference`: operand `reference`, one
/// result of the pointee type `result_ty`.
pub fn deref_op<Val, Ty>(reference: Val, result_ty: Ty) -> (op: OpSpec<Val, Ty>)
    ensures
        op@ == (OpView {
            name: "cir.deref"@,
            operands: seq![reference],
            result_types: seq![result_ty],
            attributes: Seq::<NamedAttrView<Ty>>::empty(),
        }),
{
    let op = OpSpec {
        name: "cir.deref",
        operands: vec![reference],
        result_types: vec![result_ty],
        attributes: Vec::new(),
    };
    assert(op@.operands =~= seq![reference]);
    assert(op@.result_types =~= seq![result_ty]);
    assert(op@.attributes =~= Seq::<NamedAttrView<Ty>>::empty());
    op
}

} // verus!
