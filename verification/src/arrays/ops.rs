//! The 3 array operations, all Pure:
//!
//! - `cir.array_init`: an array value from its element values
//! - `cir.elem_val`: the element at a static index of an array value
//! - `cir.elem_ptr`: the address of the element at a dynamic index, from a
//!   pointer to the array
use vstd::prelude::*;
use crate::ir::{defines, name_key, str_eq, Attr, AttrView, DialectDef, DialectView, NamedAttr, NamedAttrView, OpDef, OpDefView, OpSpec, OpTrait, OpView};

verus! {

/// The 3 array operations.
#[derive(Clone, Copy, Debug, PartialEq, Eq, Structural)]
pub enum ArrayOp {
    ArrayInit,
    ElemVal,
    ElemPtr,
}

impl ArrayOp {
    pub open spec fn spec_name(self) -> Seq<char> {
        match self {
            ArrayOp::ArrayInit => "cir.array_init"@,
            ArrayOp::ElemVal => "cir.elem_val"@,
            ArrayOp::ElemPtr => "cir.elem_ptr"@,
        }
    }

    /// The operation's full name.
    pub fn name(self) -> (r: &'static str)
        ensures
            r@ == self.spec_name(),
    {
        match self {
            ArrayOp::ArrayInit => "cir.array_init",
            ArrayOp::ElemVal => "cir.elem_val",
            ArrayOp::ElemPtr => "cir.elem_ptr",
        }
    }

    /// The operation named `name`, if any.
    pub open spec fn spec_from_name(name: Seq<char>) -> Option<ArrayOp> {
        if name == "cir.array_init"@ {
            Some(ArrayOp::ArrayInit)
        } else if name == "cir.elem_val"@ {
            Some(ArrayOp::ElemVal)
        } else if name == "cir.elem_ptr"@ {
            Some(ArrayOp::ElemPtr)
        } else {
            None
        }
    }

    /// The operation named `name`, if any.
    pub fn from_name(name: &str) -> (r: Option<ArrayOp>)
        ensures
            r == ArrayOp::spec_from_name(name@),
    {
        if str_eq(name, "cir.array_init") {
            Some(ArrayOp::ArrayInit)
        } else if str_eq(name, "cir.elem_val") {
            Some(ArrayOp::ElemVal)
        } else if str_eq(name, "cir.elem_ptr") {
            Some(ArrayOp::ElemPtr)
        } else {
            None
        }
    }

    /// Every operation is found again by its name.
    pub proof fn lemma_from_name(self)
        ensures
            ArrayOp::spec_from_name(self.spec_name()) == Some(self),
    {
        reveal_strlit("cir.array_init");
        reveal_strlit("cir.elem_val");
        reveal_strlit("cir.elem_ptr");
        assert(name_key("cir.array_init"@).0 == 14);
        assert(name_key("cir.elem_val"@).0 == 12);
        assert(name_key("cir.elem_ptr"@).0 == 12);
    }

    pub open spec fn spec_traits(self) -> Seq<OpTrait> {
        match self {
            ArrayOp::ArrayInit | ArrayOp::ElemVal | ArrayOp::ElemPtr => seq![OpTrait::Pure],
        }
    }

    /// The traits the operation is registered with: all three are Pure.
    pub fn traits(self) -> (r: Vec<OpTrait>)
        ensures
            r@ == self.spec_traits(),
    {
        let r: Vec<OpTrait> = match self {
            ArrayOp::ArrayInit | ArrayOp::ElemVal | ArrayOp::ElemPtr => vec![OpTrait::Pure],
        };
        assert(r@ =~= self.spec_traits());
        r
    }

    pub open spec fn def_view(self) -> OpDefView {
        OpDefView { name: self.spec_name(), traits: self.spec_traits() }
    }

    /// The operation's definition: its name and its traits.
    pub fn definition(self) -> (r: OpDef)
        ensures
            r@ == self.def_view(),
    {
        OpDef { name: self.name(), traits: self.traits() }
    }

    /// All 3 operations, in registration order.
    pub open spec fn all_spec() -> Seq<ArrayOp> {
        seq![ArrayOp::ArrayInit, ArrayOp::ElemVal, ArrayOp::ElemPtr]
    }

    /// All 3 operations, in registration order.
    pub fn all() -> (r: Vec<ArrayOp>)
        ensures
            r@ == ArrayOp::all_spec(),
    {
        let r = vec![ArrayOp::ArrayInit, ArrayOp::ElemVal, ArrayOp::ElemPtr];
        assert(r@ =~= ArrayOp::all_spec());
        r
    }

    /// The operation's place in the registration order.
    pub open spec fn position(self) -> int {
        match self {
            ArrayOp::ArrayInit => 0,
            ArrayOp::ElemVal => 1,
            ArrayOp::ElemPtr => 2,
        }
    }

    /// The operation stands at its place in the registration order.
    pub proof fn lemma_position(self)
        ensures
            0 <= self.position() < 3,
            ArrayOp::all_spec()[self.position()] == self,
    {
    }
}

/// The arrays dialect: namespace `cir` and the definitions of the 3
/// operations, in registration order.
pub open spec fn arrays_dialect() -> DialectView {
    DialectView {
        namespace: "cir"@,
        ops: ArrayOp::all_spec().map_values(|op: ArrayOp| op.def_view()),
    }
}

/// Registers the 3 arrays operations under the `cir` namespace.
pub fn register_ops() -> (d: DialectDef)
    ensures
        d@ == arrays_dialect(),
{
    let all = ArrayOp::all();
    let mut ops: Vec<OpDef> = Vec::new();
    let mut i: usize = 0;
    while i < all.len()
        invariant
            all@ == ArrayOp::all_spec(),
            i <= all@.len(),
            ops@.len() == i,
            forall|j: int| 0 <= j < i ==> (#[trigger] ops@[j])@ == all@[j].def_view(),
        decreases all@.len() - i,
    {
        ops.push(all[i].definition());
        i = i + 1;
    }
    let d = DialectDef { namespace: "cir", ops };
    assert(d@.ops =~= arrays_dialect().ops);
    d
}

/// The arrays dialect defines exactly the 3 operations, under pairwise
/// distinct names: a name is defined exactly when it names an operation, and
/// each operation is found again by its name, at its place.
pub proof fn lemma_arrays_dialect_names(op: ArrayOp, name: Seq<char>)
    ensures
        arrays_dialect().ops.len() == 3,
        arrays_dialect().ops[op.position()] == op.def_view(),
        ArrayOp::spec_from_name(op.spec_name()) == Some(op),
        defines(arrays_dialect().ops, name) <==> ArrayOp::spec_from_name(name) is Some,
{
    op.lemma_from_name();
    op.lemma_position();
    let ops = arrays_dialect().ops;
    let all = ArrayOp::all_spec();
    if defines(ops, name) {
        let i = choose|i: int| 0 <= i < ops.len() && ops[i].name == name;
        all[i].lemma_from_name();
    }
    if let Some(o) = ArrayOp::spec_from_name(name) {
        o.lemma_from_name();
        o.lemma_position();
        assert(ops[o.position()].name == name);
    }
}

/// `cir.array_init` of `elements`: the elements as operands, in order, one
/// result of the array type `result_ty`, no attributes.
pub fn array_init_op<Val: Copy, Ty>(elements: &[Val], result_ty: Ty) -> (op: OpSpec<Val, Ty>)
    ensures
        op@ == (OpView {
            name: "cir.array_init"@,
            operands: elements@,
            result_types: seq![result_ty],
            attributes: Seq::<NamedAttrView<Ty>>::empty(),
        }),
{
    let op = OpSpec {
        name: "cir.array_init",
        operands: vstd::slice::slice_to_vec(elements),
        result_types: vec![result_ty],
        attributes: Vec::new(),
    };
    assert(op@.result_types =~= seq![result_ty]);
    assert(op@.attributes =~= Seq::<NamedAttrView<Ty>>::empty());
    op
}

/// `cir.elem_val` of the element at `index` of `array_val`: operand
/// `array_val`, one result of the element type `result_ty`, attribute
/// `index` = (`index`, `i64_ty`).
pub fn elem_val_op<Val, Ty: Copy>(array_val: Val, index: i64, result_ty: Ty, i64_ty: Ty) -> (op: OpSpec<Val, Ty>)
    ensures
        op@ == (OpView {
            name: "cir.elem_val"@,
            operands: seq![array_val],
            result_types: seq![result_ty],
            attributes: seq![NamedAttrView { name: "index"@, value: AttrView::Integer { value: index, ty: i64_ty } }],
        }),
{
    let op = OpSpec {
        name: "cir.elem_val",
        operands: vec![array_val],
        result_types: vec![result_ty],
        attributes: vec![NamedAttr { name: "index", value: Attr::Integer { value: index, ty: i64_ty } }],
    };
    assert(op@.operands =~= seq![array_val]);
    assert(op@.result_types =~= seq![result_ty]);
    assert(op@.attributes =~= seq![NamedAttrView { name: "index"@, value: AttrView::Integer { value: index, ty: i64_ty } }]);
    op
}

/// `cir.elem_ptr` of the element at dynamic index `idx` of the array of
/// type `array_type` that `base` points to: operands `base`, `idx`, one
/// result of the pointer type `result_ty`, attribute `array_type` (a type).
pub fn elem_ptr_op<Val, Ty: Copy>(base: Val, idx: Val, array_type: Ty, result_ty: Ty) -> (op: OpSpec<Val, Ty>)
    ensures
        op@ == (OpView {
            name: "cir.elem_ptr"@,
            operands: seq![base, idx],
            result_types: seq![result_ty],
            attributes: seq![NamedAttrView { name: "array_type"@, value: AttrView::Type(array_type) }],
        }),
{
    let op = OpSpec {
        name: "cir.elem_ptr",
        operands: vec![base, idx],
        result_types: vec![result_ty],
        attributes: vec![NamedAttr { name: "array_type", value: Attr::Type(array_type) }],
    };
    assert(op@.operands =~= seq![base, idx]);
    assert(op@.result_types =~= seq![result_ty]);
    assert(op@.attributes =~= seq![NamedAttrView { name: "array_type"@, value: AttrView::Type(array_type) }]);
    op
}

} // verus!
