//! The 3 struct operations, all Pure: `cir.struct_init` (a struct value from
//! its field values), `cir.field_val` (a field of a struct value) and
//! `cir.field_ptr` (the address of a field, from a pointer to the struct).
use vstd::prelude::*;
use crate::ir::{defines, name_key, str_eq, Attr, AttrView, DialectDef, DialectView, NamedAttr, NamedAttrView, OpDef, OpDefView, OpSpec, OpTrait, OpView};

verus! {

/// The 3 struct operations.
#[derive(Clone, Copy, Debug, PartialEq, Eq, Structural)]
pub enum StructOp {
    StructInit,
    FieldVal,
    FieldPtr,
}

impl StructOp {
    pub open spec fn spec_name(self) -> Seq<char> {
        match self {
            StructOp::StructInit => "cir.struct_init"@,
            StructOp::FieldVal => "cir.field_val"@,
            StructOp::FieldPtr => "cir.field_ptr"@,
        }
    }

    /// The operation's full name.
    pub fn name(self) -> (r: &'static str)
        ensures
            r@ == self.spec_name(),
    {
        match self {
            StructOp::StructInit => "cir.struct_init",
            StructOp::FieldVal => "cir.field_val",
            StructOp::FieldPtr => "cir.field_ptr",
        }
    }

    /// The operation named `name`, if any.
    pub open spec fn spec_from_name(name: Seq<char>) -> Option<StructOp> {
        if name == "cir.struct_init"@ {
            Some(StructOp::StructInit)
        } else if name == "cir.field_val"@ {
            Some(StructOp::FieldVal)
        } else if name == "cir.field_ptr"@ {
            Some(StructOp::FieldPtr)
        } else {
            None
        }
    }

    /// The operation named `name`, if any.
    pub fn from_name(name: &str) -> (r: Option<StructOp>)
        ensures
            r == StructOp::spec_from_name(name@),
    {
        if str_eq(name, "cir.struct_init") {
            Some(StructOp::StructInit)
        } else if str_eq(name, "cir.field_val") {
            Some(StructOp::FieldVal)
        } else if str_eq(name, "cir.field_ptr") {
            Some(StructOp::FieldPtr)
        } else {
            None
        }
    }

    /// Every operation is found again by its name.
    pub proof fn lemma_from_name(self)
        ensures
            StructOp::spec_from_name(self.spec_name()) == Some(self),
    {
        reveal_strlit("cir.struct_init");
        reveal_strlit("cir.field_val");
        reveal_strlit("cir.field_ptr");
        assert(name_key("cir.struct_init"@).0 == 15);
        assert(name_key("cir.field_val"@).0 == 13);
        assert(name_key("cir.field_ptr"@).0 == 13);
    }

    pub open spec fn spec_traits(self) -> Seq<OpTrait> {
        match self {
            StructOp::StructInit | StructOp::FieldVal | StructOp::FieldPtr => seq![OpTrait::Pure],
        }
    }

    /// The traits the operation is registered with: all three are Pure.
    pub fn traits(self) -> (r: Vec<OpTrait>)
        ensures
            r@ == self.spec_traits(),
    {
        let r: Vec<OpTrait> = match self {
            StructOp::StructInit | StructOp::FieldVal | StructOp::FieldPtr => vec![OpTrait::Pure],
        };
        assert(r@ =~= self.spec_traits());
        r
    }

    pub open spec fn def_view(self) -> OpDefView {
        OpDefView { name: self.spec_name(), traits: self.spec_traits() }
    }

    /// The operation's definition: its name and its traits.
    pub fn definition(self) -> (r: OpDef)
        ensures
            r@ == self.def_view(),
    {
        OpDef { name: self.name(), traits: self.traits() }
    }

    /// All 3 operations, in registration order.
    pub open spec fn all_spec() -> Seq<StructOp> {
        seq![StructOp::StructInit, StructOp::FieldVal, StructOp::FieldPtr]
    }

    /// All 3 operations, in registration order.
    pub fn all() -> (r: Vec<StructOp>)
        ensures
            r@ == StructOp::all_spec(),
    {
        let r = vec![StructOp::StructInit, StructOp::FieldVal, StructOp::FieldPtr];
        assert(r@ =~= StructOp::all_spec());
        r
    }

    /// The operation's place in the registration order.
    pub open spec fn position(self) -> int {
        match self {
            StructOp::StructInit => 0,
            StructOp::FieldVal => 1,
            StructOp::FieldPtr => 2,
        }
    }

    /// The operation stands at its place in the registration order.
    pub proof fn lemma_position(self)
        ensures
            0 <= self.position() < 3,
            StructOp::all_spec()[self.position()] == self,
    {
    }
}

/// The structs dialect: namespace `cir` and the definitions of the 3
/// operations, in registration order.
pub open spec fn structs_dialect() -> DialectView {
    DialectView {
        namespace: "cir"@,
        ops: StructOp::all_spec().map_values(|op: StructOp| op.def_view()),
    }
}

/// Registers the 3 structs operations under the `cir` namespace.
pub fn register_ops() -> (d: DialectDef)
    ensures
        d@ == structs_dialect(),
{
    let all = StructOp::all();
    let mut ops: Vec<OpDef> = Vec::new();
    let mut i: usize = 0;
    while i < all.len()
        invariant
            all@ == StructOp::all_spec(),
            i <= all@.len(),
            ops@.len() == i,
            forall|j: int| 0 <= j < i ==> (#[trigger] ops@[j])@ == all@[j].def_view(),
        decreases all@.len() - i,
    {
        ops.push(all[i].definition());
        i = i + 1;
    }
    let d = DialectDef { namespace: "cir", ops };
    assert(d@.ops =~= structs_dialect().ops);
    d
}

/// The structs dialect defines exactly the 3 operations, under pairwise
/// distinct names: a name is defined exactly when it names an operation, and
/// each operation is found again by its name, at its place.
pub proof fn lemma_structs_dialect_names(op: StructOp, name: Seq<char>)
    ensures
        structs_dialect().ops.len() == 3,
        structs_dialect().ops[op.position()] == op.def_view(),
        StructOp::spec_from_name(op.spec_name()) == Some(op),
        defines(structs_dialect().ops, name) <==> StructOp::spec_from_name(name) is Some,
{
    op.lemma_from_name();
    op.lemma_position();
    let ops = structs_dialect().ops;
    let all = StructOp::all_spec();
    if defines(ops, name) {
        let i = choose|i: int| 0 <= i < ops.len() && ops[i].name == name;
        all[i].lemma_from_name();
    }
    if let Some(o) = StructOp::spec_from_name(name) {
        o.lemma_from_name();
        o.lemma_position();
        assert(ops[o.position()].name == name);
    }
}

/// `cir.struct_init` of `fields`: the field values as operands, in order,
/// one result of the struct type `result_ty`.
pub fn struct_init_op<Val: Copy, Ty>(fields: &[Val], result_ty: Ty) -> (op: OpSpec<Val, Ty>)
    ensures
        op@ == (OpView {
            name: "cir.struct_init"@,
            operands: fields@,
            result_types: seq![result_ty],
            attributes: Seq::<NamedAttrView<Ty>>::empty(),
        }),
{
    let op = OpSpec {
        name: "cir.struct_init",
        operands: vstd::slice::slice_to_vec(fields),
        result_types: vec![result_ty],
        attributes: Vec::new(),
    };
    assert(op@.operands =~= fields@);
    assert(op@.result_types =~= seq![result_ty]);
    assert(op@.attributes =~= Seq::<NamedAttrView<Ty>>::empty());
    op
}

/// `cir.field_val` of field `index` of `struct_val`: operand `struct_val`,
/// one result of the field type `result_ty`, attribute `index` = (`index`,
/// `i64_ty`).
pub fn field_val_op<Val, Ty: Copy>(struct_val: Val, index: i64, result_ty: Ty, i64_ty: Ty) -> (op: OpSpec<Val, Ty>)
    ensures
        op@ == (OpView {
            name: "cir.field_val"@,
            operands: seq![struct_val],
            result_types: seq![result_ty],
            attributes: seq![NamedAttrView { name: "index"@, value: AttrView::Integer { value: index, ty: i64_ty } }],
        }),
{
    let op = OpSpec {
        name: "cir.field_val",
        operands: vec![struct_val],
        result_types: vec![result_ty],
        attributes: vec![NamedAttr { name: "index", value: Attr::Integer { value: index, ty: i64_ty } }],
    };
    assert(op@.operands =~= seq![struct_val]);
    assert(op@.result_types =~= seq![result_ty]);
    assert(op@.attributes =~= seq![NamedAttrView { name: "index"@, value: AttrView::Integer { value: index, ty: i64_ty } }]);
    op
}

/// `cir.field_ptr` of field `index` of the struct of type `struct_type` that
/// `base` points to: operand `base`, one result of the pointer type
/// `result_ty`, attributes `index` = (`index`, `i64_ty`) and `struct_type`
/// (a type).
pub fn field_ptr_op<Val, Ty: Copy>(base: Val, index: i64, struct_type: Ty, result_ty: Ty, i64_ty: Ty) -> (op: OpSpec<Val, Ty>)
    ensures
        op@ == (OpView {
            name: "cir.field_ptr"@,
            operands: seq![base],
            result_types: seq![result_ty],
            attributes: seq![NamedAttrView { name: "index"@, value: AttrView::Integer { value: index, ty: i64_ty } }, NamedAttrView { name: "struct_type"@, value: AttrView::Type(struct_type) }],
        }),
{
    let op = OpSpec {
        name: "cir.field_ptr",
        operands: vec![base],
        result_types: vec![result_ty],
        attributes: vec![NamedAttr { name: "index", value: Attr::Integer { value: index, ty: i64_ty } }, NamedAttr { name: "struct_type", value: Attr::Type(struct_type) }],
    };
    assert(op@.operands =~= seq![base]);
    assert(op@.result_types =~= seq![result_ty]);
    assert(op@.attributes =~= seq![NamedAttrView { name: "index"@, value: AttrView::Integer { value: index, ty: i64_ty } }, NamedAttrView { name: "struct_type"@, value: AttrView::Type(struct_type) }]);
    op
}

} // verus!
