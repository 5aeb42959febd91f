//! The plain-data description of CIR entities that the constructs produce:
//! operation definitions (a name and its traits), dialects (a namespace and
//! its operation definitions), attributes, operation descriptions (name,
//! operands, result types, attributes) and extension-type descriptors.
//!
//! Value and type handles are generic parameters: the constructs never look
//! inside them, they only place them.
use vstd::prelude::*;

verus! {

/// The traits an operation definition can carry.
#[derive(Clone, Copy, Debug, PartialEq, Eq, Structural)]
pub enum OpTrait {
    Pure,
    Commutative,
    SameOperandsAndResultType,
    Terminator,
}

/// Compares two string slices by their characters.
pub fn str_eq(a: &str, b: &str) -> (r: bool)
    ensures
        r == (a@ == b@),
{
    a.to_owned() == b.to_owned()
}

/// A proof device for telling the operation names of one construct apart:
/// a name's length and its characters at indices 4 to 11 and at its end.
/// Entries past the end of a short name are unspecified; the names of each
/// construct differ in their length or in an entry within their bounds.
pub(crate) open spec fn name_key(s: Seq<char>) -> (int, char, char, char, char, char, char, char, char, char) {
    (s.len() as int, s[4], s[5], s[6], s[7], s[8], s[9], s[10], s[11], s[s.len() - 1])
}

/// The definition of one operation: its full name and its traits, in order.
#[derive(Debug, PartialEq, Eq)]
pub struct OpDef {
    pub name: &'static str,
    pub traits: Vec<OpTrait>,
}

pub struct OpDefView {
    pub name: Seq<char>,
    pub traits: Seq<OpTrait>,
}

impl View for OpDef {
    type V = OpDefView;

    open spec fn view(&self) -> OpDefView {
        OpDefView { name: self.name@, traits: self.traits@ }
    }
}

impl OpDef {
    /// Whether the definition carries trait `t`.
    pub fn has_trait(&self, t: OpTrait) -> (r: bool)
        ensures
            r == self.traits@.contains(t),
    {
        let mut i: usize = 0;
        while i < self.traits.len()
            invariant
                i <= self.traits@.len(),
                forall|j: int| 0 <= j < i ==> self.traits@[j] != t,
            decreases self.traits@.len() - i,
        {
            if self.traits[i] == t {
                return true;
            }
            i = i + 1;
        }
        false
    }
}

/// A dialect: a namespace and the operation definitions registered under it,
/// in registration order.
#[derive(Debug, PartialEq, Eq)]
pub struct DialectDef {
    pub namespace: &'static str,
    pub ops: Vec<OpDef>,
}

pub struct DialectView {
    pub namespace: Seq<char>,
    pub ops: Seq<OpDefView>,
}

impl View for DialectDef {
    type V = DialectView;

    open spec fn view(&self) -> DialectView {
        DialectView { namespace: self.namespace@, ops: self.ops@.map_values(|d: OpDef| d@) }
    }
}

/// Whether some definition in `ops` is named `name`.
pub open spec fn defines(ops: Seq<OpDefView>, name: Seq<char>) -> bool {
    exists|i: int| 0 <= i < ops.len() && ops[i].name == name
}

impl DialectDef {
    /// The definition named `name`: the first one registered under that name.
    pub fn get_op(&self, name: &str) -> (r: Option<&OpDef>)
        ensures
            r is Some <==> defines(self@.ops, name@),
            r matches Some(d) ==> d@.name == name@ && exists|i: int|
                0 <= i < self@.ops.len() && self@.ops[i] == d@ && (forall|j: int|
                    0 <= j < i ==> self@.ops[j].name != name@),
    {
        let mut i: usize = 0;
        while i < self.ops.len()
            invariant
                i <= self.ops@.len(),
                forall|j: int| 0 <= j < i ==> self.ops@[j].name@ != name@,
            decreases self.ops@.len() - i,
        {
            if str_eq(self.ops[i].name, name) {
                assert(self@.ops[i as int] == self.ops@[i as int]@);
                return Some(&self.ops[i]);
            }
            i = i + 1;
        }
        assert forall|k: int| 0 <= k < self@.ops.len() implies self@.ops[k].name != name@ by {
            assert(self@.ops[k] == self.ops@[k]@);
        }
        None
    }
}

/// An attribute value. Arrays are homogeneous: strings, symbol references or types.
#[derive(Debug, PartialEq, Eq)]
pub enum Attr<Ty> {
    Integer { value: i64, ty: Ty },
    Type(Ty),
    Str(String),
    SymbolRef(String),
    StrArray(Vec<String>),
    SymbolRefArray(Vec<String>),
    TypeArray(Vec<Ty>),
}

pub enum AttrView<Ty> {
    Integer { value: i64, ty: Ty },
    Type(Ty),
    Str(Seq<char>),
    SymbolRef(Seq<char>),
    StrArray(Seq<Seq<char>>),
    SymbolRefArray(Seq<Seq<char>>),
    TypeArray(Seq<Ty>),
}

/// The characters of each string of `v`.
pub open spec fn strings_view(v: Seq<String>) -> Seq<Seq<char>> {
    v.map_values(|s: String| s@)
}

impl<Ty> View for Attr<Ty> {
    type V = AttrView<Ty>;

    open spec fn view(&self) -> AttrView<Ty> {
        match self {
            Attr::Integer { value, ty } => AttrView::Integer { value: *value, ty: *ty },
            Attr::Type(t) => AttrView::Type(*t),
            Attr::Str(s) => AttrView::Str(s@),
            Attr::SymbolRef(s) => AttrView::SymbolRef(s@),
            Attr::StrArray(v) => AttrView::StrArray(strings_view(v@)),
            Attr::SymbolRefArray(v) => AttrView::SymbolRefArray(strings_view(v@)),
            Attr::TypeArray(v) => AttrView::TypeArray(v@),
        }
    }
}

/// An attribute attached to an operation under a name.
#[derive(Debug, PartialEq, Eq)]
pub struct NamedAttr<Ty> {
    pub name: &'static str,
    pub value: Attr<Ty>,
}

pub struct NamedAttrView<Ty> {
    pub name: Seq<char>,
    pub value: AttrView<Ty>,
}

impl<Ty> View for NamedAttr<Ty> {
    type V = NamedAttrView<Ty>;

    open spec fn view(&self) -> NamedAttrView<Ty> {
        NamedAttrView { name: self.name@, value: self.value@ }
    }
}

/// The description of an operation to create: its name, its operands, the
/// types of its results and its attributes, all in order. It has no regions.
#[derive(Debug, PartialEq, Eq)]
pub struct OpSpec<Val, Ty> {
    pub name: &'static str,
    pub operands: Vec<Val>,
    pub result_types: Vec<Ty>,
    pub attributes: Vec<NamedAttr<Ty>>,
}

pub struct OpView<Val, Ty> {
    pub name: Seq<char>,
    pub operands: Seq<Val>,
    pub result_types: Seq<Ty>,
    pub attributes: Seq<NamedAttrView<Ty>>,
}

impl<Val, Ty> View for OpSpec<Val, Ty> {
    type V = OpView<Val, Ty>;

    open spec fn view(&self) -> OpView<Val, Ty> {
        OpView {
            name: self.name@,
            operands: self.operands@,
            result_types: self.result_types@,
            attributes: self.attributes@.map_values(|a: NamedAttr<Ty>| a@),
        }
    }
}

/// The descriptor of an extension type: dialect, name and its integer, type
/// and string parameters. Two types are the same type when their descriptors
/// are equal.
#[derive(Debug, PartialEq, Eq)]
pub struct ExtTypeSpec<Ty> {
    pub dialect: &'static str,
    pub name: &'static str,
    pub int_params: Vec<i64>,
    pub type_params: Vec<Ty>,
    pub string_params: Vec<String>,
}

pub struct ExtTypeView<Ty> {
    pub dialect: Seq<char>,
    pub name: Seq<char>,
    pub int_params: Seq<i64>,
    pub type_params: Seq<Ty>,
    pub string_params: Seq<Seq<char>>,
}

impl<Ty> View for ExtTypeSpec<Ty> {
    type V = ExtTypeView<Ty>;

    open spec fn view(&self) -> ExtTypeView<Ty> {
        ExtTypeView {
            dialect: self.dialect@,
            name: self.name@,
            int_params: self.int_params@,
            type_params: self.type_params@,
            string_params: strings_view(self.string_params@),
        }
    }
}

/// The machine types the lowerings map CIR types to.
#[derive(Clone, Copy, Debug, PartialEq, Eq, Structural)]
pub enum MachineType {
    I8,
    I16,
    I64,
}

/// A store of `what` at byte `offset` of a stack slot.
#[derive(Debug, PartialEq, Eq)]
pub struct Store<W> {
    pub what: W,
    pub offset: u32,
}

/// What the last store of `stores` at `offset` wrote, if any store wrote there.
pub open spec fn stored_at<W>(stores: Seq<Store<W>>, offset: u32) -> Option<W>
    decreases stores.len(),
{
    if stores.len() == 0 {
        None
    } else if stores.last().offset == offset {
        Some(stores.last().what)
    } else {
        stored_at(stores.drop_last(), offset)
    }
}

/// The characters of each string slice of `v`.
pub open spec fn strs_view(v: Seq<&str>) -> Seq<Seq<char>> {
    v.map_values(|s: &str| s@)
}

/// Owned copies of the string slices of `v`, in order.
pub fn strs_to_strings(v: &[&str]) -> (r: Vec<String>)
    ensures
        strings_view(r@) == strs_view(v@),
{
    let mut r: Vec<String> = Vec::new();
    let mut i: usize = 0;
    while i < v.len()
        invariant
            i <= v@.len(),
            strings_view(r@) =~= strs_view(v@.take(i as int)),
        decreases v@.len() - i,
    {
        let ghost before = r@;
        r.push(v[i].to_owned());
        assert(strings_view(r@) =~= strings_view(before).push(v@[i as int]@));
        assert(strs_view(v@.take(i + 1)) =~= strs_view(v@.take(i as int)).push(v@[i as int]@));
        i = i + 1;
    }
    assert(v@.take(v@.len() as int) =~= v@);
    r
}

/// An argument of a lowering instruction: operand `i` of the operation
/// being lowered, or the value of an earlier instruction of the same plan.
#[derive(Clone, Copy, Debug, PartialEq, Eq, Structural)]
pub enum Arg {
    Operand(usize),
    Step(usize),
}

/// An instruction of a lowering plan.
#[derive(Clone, Copy, Debug, PartialEq, Eq, Structural)]
pub enum Instr {
    /// The 64-bit integer constant.
    Iconst(i64),
    /// Integer product.
    Imul(Arg, Arg),
    /// Integer difference, first minus second.
    Isub(Arg, Arg),
    /// A pointer moved forward by a byte count.
    PtrAdd(Arg, Arg),
    /// The 64-bit integer loaded at a byte offset from a pointer.
    LoadI64At(Arg, u32),
    /// The value, of the operation's result type, loaded from a pointer.
    LoadResult(Arg),
    /// Float quotient, first over second.
    Fdiv(Arg, Arg),
    /// A float rounded toward zero.
    Trunc(Arg),
    /// Float product.
    Fmul(Arg, Arg),
    /// Float difference, first minus second.
    Fsub(Arg, Arg),
}

/// The value that an instruction of a plan computes, as a term over the
/// operation's operands.
pub enum Term {
    Operand(nat),
    Const(int),
    Imul(Box<Term>, Box<Term>),
    Isub(Box<Term>, Box<Term>),
    PtrAdd(Box<Term>, Box<Term>),
    LoadI64At(Box<Term>, u32),
    LoadResult(Box<Term>),
    Fdiv(Box<Term>, Box<Term>),
    Trunc(Box<Term>),
    Fmul(Box<Term>, Box<Term>),
    Fsub(Box<Term>, Box<Term>),
    /// An argument that names no earlier instruction.
    Invalid,
}

/// The term of argument `a` of instruction `k` of `plan`.
pub open spec fn arg_term(plan: Seq<Instr>, a: Arg, k: nat) -> Term
    decreases k, 0int,
{
    match a {
        Arg::Operand(i) => Term::Operand(i as nat),
        Arg::Step(j) => if j < k {
            term_at(plan, j as nat)
        } else {
            Term::Invalid
        },
    }
}

/// The term that instruction `k` of `plan` computes.
pub open spec fn term_at(plan: Seq<Instr>, k: nat) -> Term
    decreases k, 1int,
{
    if k >= plan.len() {
        Term::Invalid
    } else {
        match plan[k as int] {
            Instr::Iconst(c) => Term::Const(c as int),
            Instr::Imul(a, b) => Term::Imul(Box::new(arg_term(plan, a, k)), Box::new(arg_term(plan, b, k))),
            Instr::Isub(a, b) => Term::Isub(Box::new(arg_term(plan, a, k)), Box::new(arg_term(plan, b, k))),
            Instr::PtrAdd(a, b) => Term::PtrAdd(Box::new(arg_term(plan, a, k)), Box::new(arg_term(plan, b, k))),
            Instr::LoadI64At(a, off) => Term::LoadI64At(Box::new(arg_term(plan, a, k)), off),
            Instr::LoadResult(a) => Term::LoadResult(Box::new(arg_term(plan, a, k))),
            Instr::Fdiv(a, b) => Term::Fdiv(Box::new(arg_term(plan, a, k)), Box::new(arg_term(plan, b, k))),
            Instr::Trunc(a) => Term::Trunc(Box::new(arg_term(plan, a, k))),
            Instr::Fmul(a, b) => Term::Fmul(Box::new(arg_term(plan, a, k)), Box::new(arg_term(plan, b, k))),
            Instr::Fsub(a, b) => Term::Fsub(Box::new(arg_term(plan, a, k)), Box::new(arg_term(plan, b, k))),
        }
    }
}

} // verus!
