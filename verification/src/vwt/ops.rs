//! The 7 value witness table operations: the Pure queries `cir.vwt_size`,
//! `cir.vwt_stride` and `cir.vwt_align`, and the calls `cir.vwt_copy`,
//! `cir.vwt_destroy`, `cir.vwt_move` and `cir.vwt_init_buffer`, which have
//! side effects.
use vstd::prelude::*;
use crate::ir::{defines, name_key, str_eq, DialectDef, DialectView, NamedAttrView, OpDef, OpDefView, OpSpec, OpTrait, OpView};

verus! {

/// The 7 value witness table operations.
#[derive(Clone, Copy, Debug, PartialEq, Eq, Structural)]
pub enum VwtOp {
    VwtSize,
    VwtStride,
    VwtAlign,
    VwtCopy,
    VwtDestroy,
    VwtMove,
    VwtInitBuffer,
}

impl VwtOp {
    pub open spec fn spec_name(self) -> Seq<char> {
        match self {
            VwtOp::VwtSize => "cir.vwt_size"@,
            VwtOp::VwtStride => "cir.vwt_stride"@,
            VwtOp::VwtAlign => "cir.vwt_align"@,
            VwtOp::VwtCopy => "cir.vwt_copy"@,
            VwtOp::VwtDestroy => "cir.vwt_destroy"@,
            VwtOp::VwtMove => "cir.vwt_move"@,
            VwtOp::VwtInitBuffer => "cir.vwt_init_buffer"@,
        }
    }

    /// The operation's full name.
    pub fn name(self) -> (r: &'static str)
        ensures
            r@ == self.spec_name(),
    {
        match self {
            VwtOp::VwtSize => "cir.vwt_size",
            VwtOp::VwtStride => "cir.vwt_stride",
            VwtOp::VwtAlign => "cir.vwt_align",
            VwtOp::VwtCopy => "cir.vwt_copy",
            VwtOp::VwtDestroy => "cir.vwt_destroy",
            VwtOp::VwtMove => "cir.vwt_move",
            VwtOp::VwtInitBuffer => "cir.vwt_init_buffer",
        }
    }

    /// The operation named `name`, if any.
    pub open spec fn spec_from_name(name: Seq<char>) -> Option<VwtOp> {
        if name == "cir.vwt_size"@ {
            Some(VwtOp::VwtSize)
        } else if name == "cir.vwt_stride"@ {
            Some(VwtOp::VwtStride)
        } else if name == "cir.vwt_align"@ {
            Some(VwtOp::VwtAlign)
        } else if name == "cir.vwt_copy"@ {
            Some(VwtOp::VwtCopy)
        } else if name == "cir.vwt_destroy"@ {
            Some(VwtOp::VwtDestroy)
        } else if name == "cir.vwt_move"@ {
            Some(VwtOp::VwtMove)
        } else if name == "cir.vwt_init_buffer"@ {
            Some(VwtOp::VwtInitBuffer)
        } else {
            None
        }
    }

    /// The operation named `name`, if any.
    pub fn from_name(name: &str) -> (r: Option<VwtOp>)
        ensures
            r == VwtOp::spec_from_name(name@),
    {
        if str_eq(name, "cir.vwt_size") {
            Some(VwtOp::VwtSize)
        } else if str_eq(name, "cir.vwt_stride") {
            Some(VwtOp::VwtStride)
        } else if str_eq(name, "cir.vwt_align") {
            Some(VwtOp::VwtAlign)
        } else if str_eq(name, "cir.vwt_copy") {
            Some(VwtOp::VwtCopy)
        } else if str_eq(name, "cir.vwt_destroy") {
            Some(VwtOp::VwtDestroy)
        } else if str_eq(name, "cir.vwt_move") {
            Some(VwtOp::VwtMove)
        } else if str_eq(name, "cir.vwt_init_buffer") {
            Some(VwtOp::VwtInitBuffer)
        } else {
            None
        }
    }

    /// Every operation is found again by its name.
    pub proof fn lemma_from_name(self)
        ensures
            VwtOp::spec_from_name(self.spec_name()) == Some(self),
    {
        reveal_strlit("cir.vwt_size");
        reveal_strlit("cir.vwt_stride");
        reveal_strlit("cir.vwt_align");
        reveal_strlit("cir.vwt_copy");
        reveal_strlit("cir.vwt_destroy");
        reveal_strlit("cir.vwt_move");
        reveal_strlit("cir.vwt_init_buffer");
        assert(name_key("cir.vwt_size"@).0 == 12);
        assert(name_key("cir.vwt_stride"@).0 == 14);
        assert(name_key("cir.vwt_align"@).0 == 13);
        assert(name_key("cir.vwt_copy"@).0 == 12);
        assert(name_key("cir.vwt_destroy"@).0 == 15);
        assert(name_key("cir.vwt_move"@).0 == 12);
        assert(name_key("cir.vwt_init_buffer"@).0 == 19);
    }

    pub open spec fn spec_traits(self) -> Seq<OpTrait> {
        match self {
            VwtOp::VwtSize | VwtOp::VwtStride | VwtOp::VwtAlign => seq![OpTrait::Pure],
            VwtOp::VwtCopy | VwtOp::VwtDestroy | VwtOp::VwtMove | VwtOp::VwtInitBuffer => Seq::<OpTrait>::empty(),
        }
    }

    /// The traits the operation is registered with: the three queries are Pure; the four calls carry no trait.
    pub fn traits(self) -> (r: Vec<OpTrait>)
        ensures
            r@ == self.spec_traits(),
    {
        let r: Vec<OpTrait> = match self {
            VwtOp::VwtSize | VwtOp::VwtStride | VwtOp::VwtAlign => vec![OpTrait::Pure],
            VwtOp::VwtCopy | VwtOp::VwtDestroy | VwtOp::VwtMove | VwtOp::VwtInitBuffer => Vec::new(),
        };
        assert(r@ =~= self.spec_traits());
        r
    }

    pub open spec fn def_view(self) -> OpDefView {
        OpDefView { name: self.spec_name(), traits: self.spec_traits() }
    }

    /// The operation's definition: its name and its traits.
    pub fn definition(self) -> (r: OpDef)
        ensures
            r@ == self.def_view(),
    {
        OpDef { name: self.name(), traits: self.traits() }
    }

    /// All 7 operations, in registration order.
    pub open spec fn all_spec() -> Seq<VwtOp> {
        seq![VwtOp::VwtSize, VwtOp::VwtStride, VwtOp::VwtAlign, VwtOp::VwtCopy, VwtOp::VwtDestroy, VwtOp::VwtMove, VwtOp::VwtInitBuffer]
    }

    /// All 7 operations, in registration order.
    pub fn all() -> (r: Vec<VwtOp>)
        ensures
            r@ == VwtOp::all_spec(),
    {
        let r = vec![VwtOp::VwtSize, VwtOp::VwtStride, VwtOp::VwtAlign, VwtOp::VwtCopy, VwtOp::VwtDestroy, VwtOp::VwtMove, VwtOp::VwtInitBuffer];
        assert(r@ =~= VwtOp::all_spec());
        r
    }

    /// The operation's place in the registration order.
    pub open spec fn position(self) -> int {
        match self {
            VwtOp::VwtSize => 0,
            VwtOp::VwtStride => 1,
            VwtOp::VwtAlign => 2,
            VwtOp::VwtCopy => 3,
            VwtOp::VwtDestroy => 4,
            VwtOp::VwtMove => 5,
            VwtOp::VwtInitBuffer => 6,
        }
    }

    /// The operation stands at its place in the registration order.
    pub proof fn lemma_position(self)
        ensures
            0 <= self.position() < 7,
            VwtOp::all_spec()[self.position()] == self,
    {
    }
}

/// The vwt dialect: namespace `cir` and the definitions of the 7
/// operations, in registration order.
pub open spec fn vwt_dialect() -> DialectView {
    DialectView {
        namespace: "cir"@,
        ops: VwtOp::all_spec().map_values(|op: VwtOp| op.def_view()),
    }
}

/// Registers the 7 vwt operations under the `cir` namespace.
pub fn register_ops() -> (d: DialectDef)
    ensures
        d@ == vwt_dialect(),
{
    let all = VwtOp::all();
    let mut ops: Vec<OpDef> = Vec::new();
    let mut i: usize = 0;
    while i < all.len()
        invariant
            all@ == VwtOp::all_spec(),
            i <= all@.len(),
            ops@.len() == i,
            forall|j: int| 0 <= j < i ==> (#[trigger] ops@[j])@ == all@[j].def_view(),
        decreases all@.len() - i,
    {
        ops.push(all[i].definition());
        i = i + 1;
    }
    let d = DialectDef { namespace: "cir", ops };
    assert(d@.ops =~= vwt_dialect().ops);
    d
}

/// The vwt dialect defines exactly the 7 operations, under pairwise
/// distinct names: a name is defined exactly when it names an operation, and
/// each operation is found again by its name, at its place.
pub proof fn lemma_vwt_dialect_names(op: VwtOp, name: Seq<char>)
    ensures
        vwt_dialect().ops.len() == 7,
        vwt_dialect().ops[op.position()] == op.def_view(),
        VwtOp::spec_from_name(op.spec_name()) == Some(op),
        defines(vwt_dialect().ops, name) <==> VwtOp::spec_from_name(name) is Some,
{
    op.lemma_from_name();
    op.lemma_position();
    let ops = vwt_dialect().ops;
    let all = VwtOp::all_spec();
    if defines(ops, name) {
        let i = choose|i: int| 0 <= i < ops.len() && ops[i].name == name;
        all[i].lemma_from_name();
    }
    if let Some(o) = VwtOp::spec_from_name(name) {
        o.lemma_from_name();
        o.lemma_position();
        assert(ops[o.position()].name == name);
    }
}

/// `cir.vwt_size` of the value witness table `vwt` (its byte-size entry):
/// operand `vwt`, one result of type `result_ty`.
pub fn vwt_size_op<Val, Ty>(vwt: Val, result_ty: Ty) -> (op: OpSpec<Val, Ty>)
    ensures
        op@ == (OpView {
            name: "cir.vwt_size"@,
            operands: seq![vwt],
            result_types: seq![result_ty],
            attributes: Seq::<NamedAttrView<Ty>>::empty(),
        }),
{
    let op = OpSpec {
        name: "cir.vwt_size",
        operands: vec![vwt],
        result_types: vec![result_ty],
        attributes: Vec::new(),
    };
    assert(op@.operands =~= seq![vwt]);
    assert(op@.result_types =~= seq![result_ty]);
    assert(op@.attributes =~= Seq::<NamedAttrView<Ty>>::empty());
    op
}

/// `cir.vwt_stride` of `vwt` (its stride entry): operand `vwt`, one result
/// of type `result_ty`.
pub fn vwt_stride_op<Val, Ty>(vwt: Val, result_ty: Ty) -> (op: OpSpec<Val, Ty>)
    ensures
        op@ == (OpView {
            name: "cir.vwt_stride"@,
            operands: seq![vwt],
            result_types: seq![result_ty],
            attributes: Seq::<NamedAttrView<Ty>>::empty(),
        }),
{
    let op = OpSpec {
        name: "cir.vwt_stride",
        operands: vec![vwt],
        result_types: vec![result_ty],
        attributes: Vec::new(),
    };
    assert(op@.operands =~= seq![vwt]);
    assert(op@.result_types =~= seq![result_ty]);
    assert(op@.attributes =~= Seq::<NamedAttrView<Ty>>::empty());
    op
}

/// `cir.vwt_align` of `vwt` (its alignment entry): operand `vwt`, one result
/// of type `result_ty`.
pub fn vwt_align_op<Val, Ty>(vwt: Val, result_ty: Ty) -> (op: OpSpec<Val, Ty>)
    ensures
        op@ == (OpView {
            name: "cir.vwt_align"@,
            operands: seq![vwt],
            result_types: seq![result_ty],
            attributes: Seq::<NamedAttrView<Ty>>::empty(),
        }),
{
    let op = OpSpec {
        name: "cir.vwt_align",
        operands: vec![vwt],
        result_types: vec![result_ty],
        attributes: Vec::new(),
    };
    assert(op@.operands =~= seq![vwt]);
    assert(op@.result_types =~= seq![result_ty]);
    assert(op@.attributes =~= Seq::<NamedAttrView<Ty>>::empty());
    op
}

/// `cir.vwt_copy` from `src` to `dst` through `vwt`'s copy witness: operands
/// `vwt`, `src`, `dst`, no results.
pub fn vwt_copy_op<Val, Ty>(vwt: Val, src: Val, dst: Val) -> (op: OpSpec<Val, Ty>)
    ensures
        op@ == (OpView {
            name: "cir.vwt_copy"@,
            operands: seq![vwt, src, dst],
            result_types: Seq::<Ty>::empty(),
            attributes: Seq::<NamedAttrView<Ty>>::empty(),
        }),
{
    let op = OpSpec {
        name: "cir.vwt_copy",
        operands: vec![vwt, src, dst],
        result_types: Vec::new(),
        attributes: Vec::new(),
    };
    assert(op@.operands =~= seq![vwt, src, dst]);
    assert(op@.result_types =~= Seq::<Ty>::empty());
    assert(op@.attributes =~= Seq::<NamedAttrView<Ty>>::empty());
    op
}

/// `cir.vwt_destroy` of the value at `ptr` through `vwt`'s destroy witness:
/// operands `vwt`, `ptr`, no results.
pub fn vwt_destroy_op<Val, Ty>(vwt: Val, ptr: Val) -> (op: OpSpec<Val, Ty>)
    ensures
        op@ == (OpView {
            name: "cir.vwt_destroy"@,
            operands: seq![vwt, ptr],
            result_types: Seq::<Ty>::empty(),
            attributes: Seq::<NamedAttrView<Ty>>::empty(),
        }),
{
    let op = OpSpec {
        name: "cir.vwt_destroy",
        operands: vec![vwt, ptr],
        result_types: Vec::new(),
        attributes: Vec::new(),
    };
    assert(op@.operands =~= seq![vwt, ptr]);
    assert(op@.result_types =~= Seq::<Ty>::empty());
    assert(op@.attributes =~= Seq::<NamedAttrView<Ty>>::empty());
    op
}

/// `cir.vwt_move` from `src` to `dst` through `vwt`'s move witness: operands
/// `vwt`, `src`, `dst`, no results.
pub fn vwt_move_op<Val, Ty>(vwt: Val, src: Val, dst: Val) -> (op: OpSpec<Val, Ty>)
    ensures
        op@ == (OpView {
            name: "cir.vwt_move"@,
            operands: seq![vwt, src, dst],
            result_types: Seq::<Ty>::empty(),
            attributes: Seq::<NamedAttrView<Ty>>::empty(),
        }),
{
    let op = OpSpec {
        name: "cir.vwt_move",
        operands: vec![vwt, src, dst],
        result_types: Vec::new(),
        attributes: Vec::new(),
    };
    assert(op@.operands =~= seq![vwt, src, dst]);
    assert(op@.result_types =~= Seq::<Ty>::empty());
    assert(op@.attributes =~= Seq::<NamedAttrView<Ty>>::empty());
    op
}

/// `cir.vwt_init_buffer` of `dst` from `src` through `vwt`: operands `vwt`,
/// `src`, `dst`, one result of type `result_ty`.
pub fn vwt_init_buffer_op<Val, Ty>(vwt: Val, src: Val, dst: Val, result_ty: Ty) -> (op: OpSpec<Val, Ty>)
    ensures
        op@ == (OpView {
            name: "cir.vwt_init_buffer"@,
            operands: seq![vwt, src, dst],
            result_types: seq![result_ty],
            attributes: Seq::<NamedAttrView<Ty>>::empty(),
        }),
{
    let op = OpSpec {
        name: "cir.vwt_init_buffer",
        operands: vec![vwt, src, dst],
        result_types: vec![result_ty],
        attributes: Vec::new(),
    };
    assert(op@.operands =~= seq![vwt, src, dst]);
    assert(op@.result_types =~= seq![result_ty]);
    assert(op@.attributes =~= Seq::<NamedAttrView<Ty>>::empty());
    op
}

} // verus!
