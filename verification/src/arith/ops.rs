//! The 29 arith operations: their registration, the predicate encodings of
//! `cir.cmp` and `cir.cmpf`, and the descriptions of the operations that the
//! builders create.
//!
//! - constant: `cir.constant`
//! - binary: `cir.add`, `cir.sub`, `cir.mul`, `cir.divsi`, `cir.divui`,
//!   `cir.divf`, `cir.remsi`, `cir.remui`, `cir.remf`, `cir.bit_and`,
//!   `cir.bit_or`, `cir.bit_xor`, `cir.shl`, `cir.shr`, `cir.shr_s`
//! - unary: `cir.neg`, `cir.negf`, `cir.bit_not`
//! - comparison and selection: `cir.cmp`, `cir.cmpf`, `cir.select`
//! - casts: `cir.extsi`, `cir.extui`, `cir.trunci`, `cir.sitofp`,
//!   `cir.fptosi`, `cir.extf`, `cir.truncf`
use vstd::prelude::*;
use crate::ir::{defines, name_key, str_eq, Attr, AttrView, DialectDef, DialectView, NamedAttr, NamedAttrView, OpDef, OpDefView, OpSpec, OpTrait, OpView};

verus! {

/// Integer comparison predicates, numbered 0 to 9 in the order below.
#[derive(Clone, Copy, Debug, PartialEq, Eq, Structural)]
pub enum IntPredicate {
    Eq,
    Ne,
    Slt,
    Sle,
    Sgt,
    Sge,
    Ult,
    Ule,
    Ugt,
    Uge,
}

impl IntPredicate {
    pub open spec fn spec_code(self) -> i64 {
        match self {
            IntPredicate::Eq => 0,
            IntPredicate::Ne => 1,
            IntPredicate::Slt => 2,
            IntPredicate::Sle => 3,
            IntPredicate::Sgt => 4,
            IntPredicate::Sge => 5,
            IntPredicate::Ult => 6,
            IntPredicate::Ule => 7,
            IntPredicate::Ugt => 8,
            IntPredicate::Uge => 9,
        }
    }

    /// The number that encodes the predicate in a `predicate` attribute.
    #[verifier::when_used_as_spec(spec_code)]
    pub fn code(self) -> (r: i64)
        ensures
            r == self.spec_code(),
    {
        match self {
            IntPredicate::Eq => 0,
            IntPredicate::Ne => 1,
            IntPredicate::Slt => 2,
            IntPredicate::Sle => 3,
            IntPredicate::Sgt => 4,
            IntPredicate::Sge => 5,
            IntPredicate::Ult => 6,
            IntPredicate::Ule => 7,
            IntPredicate::Ugt => 8,
            IntPredicate::Uge => 9,
        }
    }

    /// The predicate that `code` encodes, if any.
    pub fn from_code(code: i64) -> (r: Option<IntPredicate>)
        ensures
            r == IntPredicate::spec_from_code(code),
            r matches Some(p) ==> p.spec_code() == code,
            r is None <==> !(0 <= code <= 9),
    {
        match code {
            0 => Some(IntPredicate::Eq),
            1 => Some(IntPredicate::Ne),
            2 => Some(IntPredicate::Slt),
            3 => Some(IntPredicate::Sle),
            4 => Some(IntPredicate::Sgt),
            5 => Some(IntPredicate::Sge),
            6 => Some(IntPredicate::Ult),
            7 => Some(IntPredicate::Ule),
            8 => Some(IntPredicate::Ugt),
            9 => Some(IntPredicate::Uge),
            _ => None,
        }
    }
}

/// Float comparison predicates, numbered 0 to 13 in the order below: ordered
/// (O) and unordered (U) variants with respect to NaN.
#[derive(Clone, Copy, Debug, PartialEq, Eq, Structural)]
pub enum FloatPredicate {
    Oeq,
    Ogt,
    Oge,
    Olt,
    Ole,
    One,
    Ord,
    Ueq,
    Ugt,
    Uge,
    Ult,
    Ule,
    Une,
    Uno,
}

impl FloatPredicate {
    pub open spec fn spec_code(self) -> i64 {
        match self {
            FloatPredicate::Oeq => 0,
            FloatPredicate::Ogt => 1,
            FloatPredicate::Oge => 2,
            FloatPredicate::Olt => 3,
            FloatPredicate::Ole => 4,
            FloatPredicate::One => 5,
            FloatPredicate::Ord => 6,
            FloatPredicate::Ueq => 7,
            FloatPredicate::Ugt => 8,
            FloatPredicate::Uge => 9,
            FloatPredicate::Ult => 10,
            FloatPredicate::Ule => 11,
            FloatPredicate::Une => 12,
            FloatPredicate::Uno => 13,
        }
    }

    /// The number that encodes the predicate in a `predicate` attribute.
    #[verifier::when_used_as_spec(spec_code)]
    pub fn code(self) -> (r: i64)
        ensures
            r == self.spec_code(),
    {
        match self {
            FloatPredicate::Oeq => 0,
            FloatPredicate::Ogt => 1,
            FloatPredicate::Oge => 2,
            FloatPredicate::Olt => 3,
            FloatPredicate::Ole => 4,
            FloatPredicate::One => 5,
            FloatPredicate::Ord => 6,
            FloatPredicate::Ueq => 7,
            FloatPredicate::Ugt => 8,
            FloatPredicate::Uge => 9,
            FloatPredicate::Ult => 10,
            FloatPredicate::Ule => 11,
            FloatPredicate::Une => 12,
            FloatPredicate::Uno => 13,
        }
    }

    /// The predicate that `code` encodes, if any.
    pub fn from_code(code: i64) -> (r: Option<FloatPredicate>)
        ensures
            r == FloatPredicate::spec_from_code(code),
            r matches Some(p) ==> p.spec_code() == code,
            r is None <==> !(0 <= code <= 13),
    {
        match code {
            0 => Some(FloatPredicate::Oeq),
            1 => Some(FloatPredicate::Ogt),
            2 => Some(FloatPredicate::Oge),
            3 => Some(FloatPredicate::Olt),
            4 => Some(FloatPredicate::Ole),
            5 => Some(FloatPredicate::One),
            6 => Some(FloatPredicate::Ord),
            7 => Some(FloatPredicate::Ueq),
            8 => Some(FloatPredicate::Ugt),
            9 => Some(FloatPredicate::Uge),
            10 => Some(FloatPredicate::Ult),
            11 => Some(FloatPredicate::Ule),
            12 => Some(FloatPredicate::Une),
            13 => Some(FloatPredicate::Uno),
            _ => None,
        }
    }
}

/// Each encoding is read back as the predicate it encodes.
pub proof fn lemma_predicate_codes_round_trip(p: IntPredicate, q: FloatPredicate)
    ensures
        0 <= p.spec_code() <= 9,
        0 <= q.spec_code() <= 13,
        forall|a: IntPredicate, b: IntPredicate| a.spec_code() == b.spec_code() ==> a == b,
        forall|a: FloatPredicate, b: FloatPredicate| a.spec_code() == b.spec_code() ==> a == b,
        IntPredicate::spec_from_code(p.spec_code()) == Some(p),
        FloatPredicate::spec_from_code(q.spec_code()) == Some(q),
{
}

/// The 29 arith operations.
#[derive(Clone, Copy, Debug, PartialEq, Eq, Structural)]
pub enum ArithOp {
    Constant,
    Add,
    Sub,
    Mul,
    Divsi,
    Divui,
    Divf,
    Remsi,
    Remui,
    Remf,
    Neg,
    Negf,
    BitAnd,
    BitOr,
    BitXor,
    BitNot,
    Shl,
    Shr,
    ShrS,
    Cmp,
    Cmpf,
    Select,
    Extsi,
    Extui,
    Trunci,
    Sitofp,
    Fptosi,
    Extf,
    Truncf,
}

impl ArithOp {
    pub open spec fn spec_name(self) -> Seq<char> {
        match self {
            ArithOp::Constant => "cir.constant"@,
            ArithOp::Add => "cir.add"@,
            ArithOp::Sub => "cir.sub"@,
            ArithOp::Mul => "cir.mul"@,
            ArithOp::Divsi => "cir.divsi"@,
            ArithOp::Divui => "cir.divui"@,
            ArithOp::Divf => "cir.divf"@,
            ArithOp::Remsi => "cir.remsi"@,
            ArithOp::Remui => "cir.remui"@,
            ArithOp::Remf => "cir.remf"@,
            ArithOp::Neg => "cir.neg"@,
            ArithOp::Negf => "cir.negf"@,
            ArithOp::BitAnd => "cir.bit_and"@,
            ArithOp::BitOr => "cir.bit_or"@,
            ArithOp::BitXor => "cir.bit_xor"@,
            ArithOp::BitNot => "cir.bit_not"@,
            ArithOp::Shl => "cir.shl"@,
            ArithOp::Shr => "cir.shr"@,
            ArithOp::ShrS => "cir.shr_s"@,
            ArithOp::Cmp => "cir.cmp"@,
            ArithOp::Cmpf => "cir.cmpf"@,
            ArithOp::Select => "cir.select"@,
            ArithOp::Extsi => "cir.extsi"@,
            ArithOp::Extui => "cir.extui"@,
            ArithOp::Trunci => "cir.trunci"@,
            ArithOp::Sitofp => "cir.sitofp"@,
            ArithOp::Fptosi => "cir.fptosi"@,
            ArithOp::Extf => "cir.extf"@,
            ArithOp::Truncf => "cir.truncf"@,
        }
    }

    /// The operation's full name.
    pub fn name(self) -> (r: &'static str)
        ensures
            r@ == self.spec_name(),
    {
        match self {
            ArithOp::Constant => "cir.constant",
            ArithOp::Add => "cir.add",
            ArithOp::Sub => "cir.sub",
            ArithOp::Mul => "cir.mul",
            ArithOp::Divsi => "cir.divsi",
            ArithOp::Divui => "cir.divui",
            ArithOp::Divf => "cir.divf",
            ArithOp::Remsi => "cir.remsi",
            ArithOp::Remui => "cir.remui",
            ArithOp::Remf => "cir.remf",
            ArithOp::Neg => "cir.neg",
            ArithOp::Negf => "cir.negf",
            ArithOp::BitAnd => "cir.bit_and",
            ArithOp::BitOr => "cir.bit_or",
            ArithOp::BitXor => "cir.bit_xor",
            ArithOp::BitNot => "cir.bit_not",
            ArithOp::Shl => "cir.shl",
            ArithOp::Shr => "cir.shr",
            ArithOp::ShrS => "cir.shr_s",
            ArithOp::Cmp => "cir.cmp",
            ArithOp::Cmpf => "cir.cmpf",
            ArithOp::Select => "cir.select",
            ArithOp::Extsi => "cir.extsi",
            ArithOp::Extui => "cir.extui",
            ArithOp::Trunci => "cir.trunci",
            ArithOp::Sitofp => "cir.sitofp",
            ArithOp::Fptosi => "cir.fptosi",
            ArithOp::Extf => "cir.extf",
            ArithOp::Truncf => "cir.truncf",
        }
    }

    /// The operation named `name`, if any.
    pub open spec fn spec_from_name(name: Seq<char>) -> Option<ArithOp> {
        if name == "cir.constant"@ {
            Some(ArithOp::Constant)
        } else if name == "cir.add"@ {
            Some(ArithOp::Add)
        } else if name == "cir.sub"@ {
            Some(ArithOp::Sub)
        } else if name == "cir.mul"@ {
            Some(ArithOp::Mul)
        } else if name == "cir.divsi"@ {
            Some(ArithOp::Divsi)
        } else if name == "cir.divui"@ {
            Some(ArithOp::Divui)
        } else if name == "cir.divf"@ {
            Some(ArithOp::Divf)
        } else if name == "cir.remsi"@ {
            Some(ArithOp::Remsi)
        } else if name == "cir.remui"@ {
            Some(ArithOp::Remui)
        } else if name == "cir.remf"@ {
            Some(ArithOp::Remf)
        } else if name == "cir.neg"@ {
            Some(ArithOp::Neg)
        } else if name == "cir.negf"@ {
            Some(ArithOp::Negf)
        } else if name == "cir.bit_and"@ {
            Some(ArithOp::BitAnd)
        } else if name == "cir.bit_or"@ {
            Some(ArithOp::BitOr)
        } else if name == "cir.bit_xor"@ {
            Some(ArithOp::BitXor)
        } else if name == "cir.bit_not"@ {
            Some(ArithOp::BitNot)
        } else if name == "cir.shl"@ {
            Some(ArithOp::Shl)
        } else if name == "cir.shr"@ {
            Some(ArithOp::Shr)
        } else if name == "cir.shr_s"@ {
            Some(ArithOp::ShrS)
        } else if name == "cir.cmp"@ {
            Some(ArithOp::Cmp)
        } else if name == "cir.cmpf"@ {
            Some(ArithOp::Cmpf)
        } else if name == "cir.select"@ {
            Some(ArithOp::Select)
        } else if name == "cir.extsi"@ {
            Some(ArithOp::Extsi)
        } else if name == "cir.extui"@ {
            Some(ArithOp::Extui)
        } else if name == "cir.trunci"@ {
            Some(ArithOp::Trunci)
        } else if name == "cir.sitofp"@ {
            Some(ArithOp::Sitofp)
        } else if name == "cir.fptosi"@ {
            Some(ArithOp::Fptosi)
        } else if name == "cir.extf"@ {
            Some(ArithOp::Extf)
        } else if name == "cir.truncf"@ {
            Some(ArithOp::Truncf)
        } else {
            None
        }
    }

    /// The operation named `name`, if any.
    pub fn from_name(name: &str) -> (r: Option<ArithOp>)
        ensures
            r == ArithOp::spec_from_name(name@),
    {
        if str_eq(name, "cir.constant") {
            Some(ArithOp::Constant)
        } else if str_eq(name, "cir.add") {
            Some(ArithOp::Add)
        } else if str_eq(name, "cir.sub") {
            Some(ArithOp::Sub)
        } else if str_eq(name, "cir.mul") {
            Some(ArithOp::Mul)
        } else if str_eq(name, "cir.divsi") {
            Some(ArithOp::Divsi)
        } else if str_eq(name, "cir.divui") {
            Some(ArithOp::Divui)
        } else if str_eq(name, "cir.divf") {
            Some(ArithOp::Divf)
        } else if str_eq(name, "cir.remsi") {
            Some(ArithOp::Remsi)
        } else if str_eq(name, "cir.remui") {
            Some(ArithOp::Remui)
        } else if str_eq(name, "cir.remf") {
            Some(ArithOp::Remf)
        } else if str_eq(name, "cir.neg") {
            Some(ArithOp::Neg)
        } else if str_eq(name, "cir.negf") {
            Some(ArithOp::Negf)
        } else if str_eq(name, "cir.bit_and") {
            Some(ArithOp::BitAnd)
        } else if str_eq(name, "cir.bit_or") {
            Some(ArithOp::BitOr)
        } else if str_eq(name, "cir.bit_xor") {
            Some(ArithOp::BitXor)
        } else if str_eq(name, "cir.bit_not") {
            Some(ArithOp::BitNot)
        } else if str_eq(name, "cir.shl") {
            Some(ArithOp::Shl)
        } else if str_eq(name, "cir.shr") {
            Some(ArithOp::Shr)
        } else if str_eq(name, "cir.shr_s") {
            Some(ArithOp::ShrS)
        } else if str_eq(name, "cir.cmp") {
            Some(ArithOp::Cmp)
        } else if str_eq(name, "cir.cmpf") {
            Some(ArithOp::Cmpf)
        } else if str_eq(name, "cir.select") {
            Some(ArithOp::Select)
        } else if str_eq(name, "cir.extsi") {
            Some(ArithOp::Extsi)
        } else if str_eq(name, "cir.extui") {
            Some(ArithOp::Extui)
        } else if str_eq(name, "cir.trunci") {
            Some(ArithOp::Trunci)
        } else if str_eq(name, "cir.sitofp") {
            Some(ArithOp::Sitofp)
        } else if str_eq(name, "cir.fptosi") {
            Some(ArithOp::Fptosi)
        } else if str_eq(name, "cir.extf") {
            Some(ArithOp::Extf)
        } else if str_eq(name, "cir.truncf") {
            Some(ArithOp::Truncf)
        } else {
            None
        }
    }

    /// Every arith operation is found again by its name.
    pub proof fn lemma_from_name(self)
        ensures
            ArithOp::spec_from_name(self.spec_name()) == Some(self),
    {
        reveal_strlit("cir.constant");
        reveal_strlit("cir.add");
        reveal_strlit("cir.sub");
        reveal_strlit("cir.mul");
        reveal_strlit("cir.divsi");
        reveal_strlit("cir.divui");
        reveal_strlit("cir.divf");
        reveal_strlit("cir.remsi");
        reveal_strlit("cir.remui");
        reveal_strlit("cir.remf");
        reveal_strlit("cir.neg");
        reveal_strlit("cir.negf");
        reveal_strlit("cir.bit_and");
        reveal_strlit("cir.bit_or");
        reveal_strlit("cir.bit_xor");
        reveal_strlit("cir.bit_not");
        reveal_strlit("cir.shl");
        reveal_strlit("cir.shr");
        reveal_strlit("cir.shr_s");
        reveal_strlit("cir.cmp");
        reveal_strlit("cir.cmpf");
        reveal_strlit("cir.select");
        reveal_strlit("cir.extsi");
        reveal_strlit("cir.extui");
        reveal_strlit("cir.trunci");
        reveal_strlit("cir.sitofp");
        reveal_strlit("cir.fptosi");
        reveal_strlit("cir.extf");
        reveal_strlit("cir.truncf");
        assert(name_key("cir.constant"@).0 == 12);
        assert(name_key("cir.add"@).0 == 7);
        assert(name_key("cir.sub"@).0 == 7);
        assert(name_key("cir.mul"@).0 == 7);
        assert(name_key("cir.divsi"@).0 == 9);
        assert(name_key("cir.divui"@).0 == 9);
        assert(name_key("cir.divf"@).0 == 8);
        assert(name_key("cir.remsi"@).0 == 9);
        assert(name_key("cir.remui"@).0 == 9);
        assert(name_key("cir.remf"@).0 == 8);
        assert(name_key("cir.neg"@).0 == 7);
        assert(name_key("cir.negf"@).0 == 8);
        assert(name_key("cir.bit_and"@).0 == 11);
        assert(name_key("cir.bit_or"@).0 == 10);
        assert(name_key("cir.bit_xor"@).0 == 11);
        assert(name_key("cir.bit_not"@).0 == 11);
        assert(name_key("cir.shl"@).0 == 7);
        assert(name_key("cir.shr"@).0 == 7);
        assert(name_key("cir.shr_s"@).0 == 9);
        assert(name_key("cir.cmp"@).0 == 7);
        assert(name_key("cir.cmpf"@).0 == 8);
        assert(name_key("cir.select"@).0 == 10);
        assert(name_key("cir.extsi"@).0 == 9);
        assert(name_key("cir.extui"@).0 == 9);
        assert(name_key("cir.trunci"@).0 == 10);
        assert(name_key("cir.sitofp"@).0 == 10);
        assert(name_key("cir.fptosi"@).0 == 10);
        assert(name_key("cir.extf"@).0 == 8);
        assert(name_key("cir.truncf"@).0 == 10);
    }
}


impl IntPredicate {
    /// The predicate that `code` encodes, if any.
    pub open spec fn spec_from_code(code: i64) -> Option<IntPredicate> {
        match code {
            0 => Some(IntPredicate::Eq),
            1 => Some(IntPredicate::Ne),
            2 => Some(IntPredicate::Slt),
            3 => Some(IntPredicate::Sle),
            4 => Some(IntPredicate::Sgt),
            5 => Some(IntPredicate::Sge),
            6 => Some(IntPredicate::Ult),
            7 => Some(IntPredicate::Ule),
            8 => Some(IntPredicate::Ugt),
            9 => Some(IntPredicate::Uge),
            _ => None,
        }
    }
}

impl FloatPredicate {
    /// The predicate that `code` encodes, if any.
    pub open spec fn spec_from_code(code: i64) -> Option<FloatPredicate> {
        match code {
            0 => Some(FloatPredicate::Oeq),
            1 => Some(FloatPredicate::Ogt),
            2 => Some(FloatPredicate::Oge),
            3 => Some(FloatPredicate::Olt),
            4 => Some(FloatPredicate::Ole),
            5 => Some(FloatPredicate::One),
            6 => Some(FloatPredicate::Ord),
            7 => Some(FloatPredicate::Ueq),
            8 => Some(FloatPredicate::Ugt),
            9 => Some(FloatPredicate::Uge),
            10 => Some(FloatPredicate::Ult),
            11 => Some(FloatPredicate::Ule),
            12 => Some(FloatPredicate::Une),
            13 => Some(FloatPredicate::Uno),
            _ => None,
        }
    }
}

impl ArithOp {
    pub open spec fn spec_traits(self) -> Seq<OpTrait> {
        match self {
            ArithOp::Add | ArithOp::Mul | ArithOp::BitAnd | ArithOp::BitOr | ArithOp::BitXor => seq![
                OpTrait::Pure,
                OpTrait::Commutative,
                OpTrait::SameOperandsAndResultType,
            ],
            ArithOp::Sub | ArithOp::Divsi | ArithOp::Divui | ArithOp::Divf | ArithOp::Remsi
            | ArithOp::Remui | ArithOp::Remf | ArithOp::Neg | ArithOp::Negf | ArithOp::BitNot
            | ArithOp::Shl | ArithOp::Shr | ArithOp::ShrS => seq![
                OpTrait::Pure,
                OpTrait::SameOperandsAndResultType,
            ],
            _ => seq![OpTrait::Pure],
        }
    }

    /// The traits the operation is registered with: all are Pure; `add`,
    /// `mul` and the three bitwise binary operations are also Commutative;
    /// the other arithmetic, bitwise and shift operations, and those five,
    /// keep the type of their operands (SameOperandsAndResultType).
    pub fn traits(self) -> (r: Vec<OpTrait>)
        ensures
            r@ == self.spec_traits(),
    {
        match self {
            ArithOp::Add | ArithOp::Mul | ArithOp::BitAnd | ArithOp::BitOr | ArithOp::BitXor => vec![
                OpTrait::Pure,
                OpTrait::Commutative,
                OpTrait::SameOperandsAndResultType,
            ],
            ArithOp::Sub | ArithOp::Divsi | ArithOp::Divui | ArithOp::Divf | ArithOp::Remsi
            | ArithOp::Remui | ArithOp::Remf | ArithOp::Neg | ArithOp::Negf | ArithOp::BitNot
            | ArithOp::Shl | ArithOp::Shr | ArithOp::ShrS => vec![
                OpTrait::Pure,
                OpTrait::SameOperandsAndResultType,
            ],
            _ => vec![OpTrait::Pure],
        }
    }

    pub open spec fn def_view(self) -> OpDefView {
        OpDefView { name: self.spec_name(), traits: self.spec_traits() }
    }

    /// The operation's definition: its name and its traits.
    pub fn definition(self) -> (r: OpDef)
        ensures
            r@ == self.def_view(),
    {
        OpDef { name: self.name(), traits: self.traits() }
    }

    /// All 29 operations, in registration order.
    pub open spec fn all_spec() -> Seq<ArithOp> {
        seq![
            ArithOp::Constant, ArithOp::Add, ArithOp::Sub, ArithOp::Mul, ArithOp::Divsi,
            ArithOp::Divui, ArithOp::Divf, ArithOp::Remsi, ArithOp::Remui, ArithOp::Remf,
            ArithOp::Neg, ArithOp::Negf, ArithOp::BitAnd, ArithOp::BitOr, ArithOp::BitXor,
            ArithOp::BitNot, ArithOp::Shl, ArithOp::Shr, ArithOp::ShrS, ArithOp::Cmp,
            ArithOp::Cmpf, ArithOp::Select, ArithOp::Extsi, ArithOp::Extui, ArithOp::Trunci,
            ArithOp::Sitofp, ArithOp::Fptosi, ArithOp::Extf, ArithOp::Truncf,
        ]
    }

    /// All 29 operations, in registration order.
    pub fn all() -> (r: Vec<ArithOp>)
        ensures
            r@ == ArithOp::all_spec(),
    {
        let r = vec![
            ArithOp::Constant, ArithOp::Add, ArithOp::Sub, ArithOp::Mul, ArithOp::Divsi,
            ArithOp::Divui, ArithOp::Divf, ArithOp::Remsi, ArithOp::Remui, ArithOp::Remf,
            ArithOp::Neg, ArithOp::Negf, ArithOp::BitAnd, ArithOp::BitOr, ArithOp::BitXor,
            ArithOp::BitNot, ArithOp::Shl, ArithOp::Shr, ArithOp::ShrS, ArithOp::Cmp,
            ArithOp::Cmpf, ArithOp::Select, ArithOp::Extsi, ArithOp::Extui, ArithOp::Trunci,
            ArithOp::Sitofp, ArithOp::Fptosi, ArithOp::Extf, ArithOp::Truncf,
        ];
        assert(r@ =~= ArithOp::all_spec());
        r
    }
}

/// The arith dialect: namespace `cir` and the definitions of the 29
/// operations, in registration order.
pub open spec fn arith_dialect() -> DialectView {
    DialectView {
        namespace: "cir"@,
        ops: ArithOp::all_spec().map_values(|op: ArithOp| op.def_view()),
    }
}

/// Registers the 29 arith operations under the `cir` namespace.
pub fn register_ops() -> (d: DialectDef)
    ensures
        d@ == arith_dialect(),
{
    let all = ArithOp::all();
    let mut ops: Vec<OpDef> = Vec::new();
    let mut i: usize = 0;
    while i < all.len()
        invariant
            all@ == ArithOp::all_spec(),
            i <= all@.len(),
            ops@.len() == i,
            forall|j: int| 0 <= j < i ==> (#[trigger] ops@[j])@ == all@[j].def_view(),
        decreases all@.len() - i,
    {
        ops.push(all[i].definition());
        i = i + 1;
    }
    let d = DialectDef { namespace: "cir", ops };
    assert(d@.ops =~= arith_dialect().ops);
    d
}

impl ArithOp {
    /// The operation's place in the registration order.
    pub open spec fn position(self) -> int {
        match self {
            ArithOp::Constant => 0,
            ArithOp::Add => 1,
            ArithOp::Sub => 2,
            ArithOp::Mul => 3,
            ArithOp::Divsi => 4,
            ArithOp::Divui => 5,
            ArithOp::Divf => 6,
            ArithOp::Remsi => 7,
            ArithOp::Remui => 8,
            ArithOp::Remf => 9,
            ArithOp::Neg => 10,
            ArithOp::Negf => 11,
            ArithOp::BitAnd => 12,
            ArithOp::BitOr => 13,
            ArithOp::BitXor => 14,
            ArithOp::BitNot => 15,
            ArithOp::Shl => 16,
            ArithOp::Shr => 17,
            ArithOp::ShrS => 18,
            ArithOp::Cmp => 19,
            ArithOp::Cmpf => 20,
            ArithOp::Select => 21,
            ArithOp::Extsi => 22,
            ArithOp::Extui => 23,
            ArithOp::Trunci => 24,
            ArithOp::Sitofp => 25,
            ArithOp::Fptosi => 26,
            ArithOp::Extf => 27,
            ArithOp::Truncf => 28,
        }
    }

    /// The operation stands at its place in the registration order.
    pub proof fn lemma_position(self)
        ensures
            0 <= self.position() < 29,
            ArithOp::all_spec()[self.position()] == self,
    {
    }
}

/// The arith dialect defines exactly the 29 operations, under pairwise
/// distinct names: a name is defined exactly when it names an operation, and
/// each operation is found again by its name.
pub proof fn lemma_arith_dialect_names(op: ArithOp, name: Seq<char>)
    ensures
        arith_dialect().ops.len() == 29,
        arith_dialect().ops[op.position()] == op.def_view(),
        ArithOp::spec_from_name(op.spec_name()) == Some(op),
        defines(arith_dialect().ops, name) <==> ArithOp::spec_from_name(name) is Some,
{
    op.lemma_from_name();
    op.lemma_position();
    let ops = arith_dialect().ops;
    let all = ArithOp::all_spec();
    if defines(ops, name) {
        let i = choose|i: int| 0 <= i < ops.len() && ops[i].name == name;
        all[i].lemma_from_name();
    }
    if let Some(o) = ArithOp::spec_from_name(name) {
        o.lemma_from_name();
        o.lemma_position();
        assert(ops[o.position()].name == name);
    }
}

/// A named integer attribute.
pub open spec fn int_attr<Ty>(name: Seq<char>, value: i64, ty: Ty) -> NamedAttrView<Ty> {
    NamedAttrView { name, value: AttrView::Integer { value, ty } }
}

/// `cir.constant` of integer `value`, with result type `ty`: no operands,
/// one result of type `ty`, attribute `value` = (`value`, `ty`).
pub fn constant_int_op<Val, Ty: Copy>(ty: Ty, value: i64) -> (op: OpSpec<Val, Ty>)
    ensures
        op@ == (OpView {
            name: "cir.constant"@,
            operands: Seq::<Val>::empty(),
            result_types: seq![ty],
            attributes: seq![int_attr("value"@, value, ty)],
        }),
{
    let op = OpSpec {
        name: "cir.constant",
        operands: Vec::new(),
        result_types: vec![ty],
        attributes: vec![NamedAttr { name: "value", value: Attr::Integer { value, ty } }],
    };
    assert(op@.operands =~= Seq::<Val>::empty());
    assert(op@.result_types =~= seq![ty]);
    assert(op@.attributes =~= seq![int_attr("value"@, value, ty)]);
    op
}

/// The boolean constant `value`: `cir.constant` 1 (true) or 0 (false) of the
/// one-bit integer type `i1_ty`.
pub fn constant_bool_op<Val, Ty: Copy>(i1_ty: Ty, value: bool) -> (op: OpSpec<Val, Ty>)
    ensures
        op@ == (OpView {
            name: "cir.constant"@,
            operands: Seq::<Val>::empty(),
            result_types: seq![i1_ty],
            attributes: seq![int_attr("value"@, if value { 1 } else { 0 }, i1_ty)],
        }),
{
    constant_int_op(i1_ty, if value { 1 } else { 0 })
}

/// The binary operations whose result has the type of their operands.
#[derive(Clone, Copy, Debug, PartialEq, Eq, Structural)]
pub enum ArithBinary {
    Add,
    Sub,
    Mul,
    Divsi,
    Divui,
    Divf,
    Remsi,
    Remui,
    Remf,
    BitAnd,
    BitOr,
    BitXor,
    Shl,
    Shr,
    ShrS,
}

impl ArithBinary {
    pub open spec fn spec_op(self) -> ArithOp {
        match self {
            ArithBinary::Add => ArithOp::Add,
            ArithBinary::Sub => ArithOp::Sub,
            ArithBinary::Mul => ArithOp::Mul,
            ArithBinary::Divsi => ArithOp::Divsi,
            ArithBinary::Divui => ArithOp::Divui,
            ArithBinary::Divf => ArithOp::Divf,
            ArithBinary::Remsi => ArithOp::Remsi,
            ArithBinary::Remui => ArithOp::Remui,
            ArithBinary::Remf => ArithOp::Remf,
            ArithBinary::BitAnd => ArithOp::BitAnd,
            ArithBinary::BitOr => ArithOp::BitOr,
            ArithBinary::BitXor => ArithOp::BitXor,
            ArithBinary::Shl => ArithOp::Shl,
            ArithBinary::Shr => ArithOp::Shr,
            ArithBinary::ShrS => ArithOp::ShrS,
        }
    }

    /// The arith operation this is.
    #[verifier::when_used_as_spec(spec_op)]
    pub fn op(self) -> (r: ArithOp)
        ensures
            r == self.spec_op(),
    {
        match self {
            ArithBinary::Add => ArithOp::Add,
            ArithBinary::Sub => ArithOp::Sub,
            ArithBinary::Mul => ArithOp::Mul,
            ArithBinary::Divsi => ArithOp::Divsi,
            ArithBinary::Divui => ArithOp::Divui,
            ArithBinary::Divf => ArithOp::Divf,
            ArithBinary::Remsi => ArithOp::Remsi,
            ArithBinary::Remui => ArithOp::Remui,
            ArithBinary::Remf => ArithOp::Remf,
            ArithBinary::BitAnd => ArithOp::BitAnd,
            ArithBinary::BitOr => ArithOp::BitOr,
            ArithBinary::BitXor => ArithOp::BitXor,
            ArithBinary::Shl => ArithOp::Shl,
            ArithBinary::Shr => ArithOp::Shr,
            ArithBinary::ShrS => ArithOp::ShrS,
        }
    }
}

/// The unary operations whose result has the type of their operand.
#[derive(Clone, Copy, Debug, PartialEq, Eq, Structural)]
pub enum ArithUnary {
    Neg,
    Negf,
    BitNot,
}

impl ArithUnary {
    pub open spec fn spec_op(self) -> ArithOp {
        match self {
            ArithUnary::Neg => ArithOp::Neg,
            ArithUnary::Negf => ArithOp::Negf,
            ArithUnary::BitNot => ArithOp::BitNot,
        }
    }

    /// The arith operation this is.
    #[verifier::when_used_as_spec(spec_op)]
    pub fn op(self) -> (r: ArithOp)
        ensures
            r == self.spec_op(),
    {
        match self {
            ArithUnary::Neg => ArithOp::Neg,
            ArithUnary::Negf => ArithOp::Negf,
            ArithUnary::BitNot => ArithOp::BitNot,
        }
    }
}

/// The casts, whose result type is given explicitly.
#[derive(Clone, Copy, Debug, PartialEq, Eq, Structural)]
pub enum ArithCast {
    Extsi,
    Extui,
    Trunci,
    Sitofp,
    Fptosi,
    Extf,
    Truncf,
}

impl ArithCast {
    pub open spec fn spec_op(self) -> ArithOp {
        match self {
            ArithCast::Extsi => ArithOp::Extsi,
            ArithCast::Extui => ArithOp::Extui,
            ArithCast::Trunci => ArithOp::Trunci,
            ArithCast::Sitofp => ArithOp::Sitofp,
            ArithCast::Fptosi => ArithOp::Fptosi,
            ArithCast::Extf => ArithOp::Extf,
            ArithCast::Truncf => ArithOp::Truncf,
        }
    }

    /// The arith operation this is.
    #[verifier::when_used_as_spec(spec_op)]
    pub fn op(self) -> (r: ArithOp)
        ensures
            r == self.spec_op(),
    {
        match self {
            ArithCast::Extsi => ArithOp::Extsi,
            ArithCast::Extui => ArithOp::Extui,
            ArithCast::Trunci => ArithOp::Trunci,
            ArithCast::Sitofp => ArithOp::Sitofp,
            ArithCast::Fptosi => ArithOp::Fptosi,
            ArithCast::Extf => ArithOp::Extf,
            ArithCast::Truncf => ArithOp::Truncf,
        }
    }
}

/// Binary operation `kind` on `lhs` and `rhs`: operands `lhs`, `rhs`, one
/// result of type `lhs_ty` (the type of `lhs`), no attributes.
pub fn binary_op<Val, Ty>(kind: ArithBinary, lhs: Val, rhs: Val, lhs_ty: Ty) -> (op: OpSpec<Val, Ty>)
    ensures
        op@ == (OpView {
            name: kind.spec_op().spec_name(),
            operands: seq![lhs, rhs],
            result_types: seq![lhs_ty],
            attributes: Seq::<NamedAttrView<Ty>>::empty(),
        }),
{
    let op = OpSpec {
        name: kind.op().name(),
        operands: vec![lhs, rhs],
        result_types: vec![lhs_ty],
        attributes: Vec::new(),
    };
    assert(op@.operands =~= seq![lhs, rhs]);
    assert(op@.result_types =~= seq![lhs_ty]);
    assert(op@.attributes =~= Seq::<NamedAttrView<Ty>>::empty());
    op
}

/// Unary operation `kind` on `operand`: one operand, one result of type
/// `operand_ty` (the type of `operand`), no attributes.
pub fn unary_op<Val, Ty>(kind: ArithUnary, operand: Val, operand_ty: Ty) -> (op: OpSpec<Val, Ty>)
    ensures
        op@ == (OpView {
            name: kind.spec_op().spec_name(),
            operands: seq![operand],
            result_types: seq![operand_ty],
            attributes: Seq::<NamedAttrView<Ty>>::empty(),
        }),
{
    let op = OpSpec {
        name: kind.op().name(),
        operands: vec![operand],
        result_types: vec![operand_ty],
        attributes: Vec::new(),
    };
    assert(op@.operands =~= seq![operand]);
    assert(op@.result_types =~= seq![operand_ty]);
    assert(op@.attributes =~= Seq::<NamedAttrView<Ty>>::empty());
    op
}

/// Cast `kind` of `input` to `result_ty`: one operand, one result of type
/// `result_ty`, no attributes.
pub fn cast_op<Val, Ty>(kind: ArithCast, input: Val, result_ty: Ty) -> (op: OpSpec<Val, Ty>)
    ensures
        op@ == (OpView {
            name: kind.spec_op().spec_name(),
            operands: seq![input],
            result_types: seq![result_ty],
            attributes: Seq::<NamedAttrView<Ty>>::empty(),
        }),
{
    let op = OpSpec {
        name: kind.op().name(),
        operands: vec![input],
        result_types: vec![result_ty],
        attributes: Vec::new(),
    };
    assert(op@.operands =~= seq![input]);
    assert(op@.result_types =~= seq![result_ty]);
    assert(op@.attributes =~= Seq::<NamedAttrView<Ty>>::empty());
    op
}

/// `cir.cmp` of `lhs` and `rhs` under `predicate`: operands `lhs`, `rhs`,
/// one result of the one-bit type `i1_ty`, attribute `predicate` = (the
/// predicate's number, `i1_ty`).
pub fn cmp_op<Val, Ty: Copy>(predicate: IntPredicate, lhs: Val, rhs: Val, i1_ty: Ty) -> (op: OpSpec<Val, Ty>)
    ensures
        op@ == (OpView {
            name: "cir.cmp"@,
            operands: seq![lhs, rhs],
            result_types: seq![i1_ty],
            attributes: seq![int_attr("predicate"@, predicate.spec_code(), i1_ty)],
        }),
{
    let op = OpSpec {
        name: "cir.cmp",
        operands: vec![lhs, rhs],
        result_types: vec![i1_ty],
        attributes: vec![
            NamedAttr { name: "predicate", value: Attr::Integer { value: predicate.code(), ty: i1_ty } },
        ],
    };
    assert(op@.operands =~= seq![lhs, rhs]);
    assert(op@.result_types =~= seq![i1_ty]);
    assert(op@.attributes =~= seq![int_attr("predicate"@, predicate.spec_code(), i1_ty)]);
    op
}

/// `cir.cmpf` of `lhs` and `rhs` under `predicate`: operands `lhs`, `rhs`,
/// one result of the one-bit type `i1_ty`, attribute `predicate` = (the
/// predicate's number, `i1_ty`).
pub fn cmpf_op<Val, Ty: Copy>(predicate: FloatPredicate, lhs: Val, rhs: Val, i1_ty: Ty) -> (op: OpSpec<Val, Ty>)
    ensures
        op@ == (OpView {
            name: "cir.cmpf"@,
            operands: seq![lhs, rhs],
            result_types: seq![i1_ty],
            attributes: seq![int_attr("predicate"@, predicate.spec_code(), i1_ty)],
        }),
{
    let op = OpSpec {
        name: "cir.cmpf",
        operands: vec![lhs, rhs],
        result_types: vec![i1_ty],
        attributes: vec![
            NamedAttr { name: "predicate", value: Attr::Integer { value: predicate.code(), ty: i1_ty } },
        ],
    };
    assert(op@.operands =~= seq![lhs, rhs]);
    assert(op@.result_types =~= seq![i1_ty]);
    assert(op@.attributes =~= seq![int_attr("predicate"@, predicate.spec_code(), i1_ty)]);
    op
}

/// `cir.select` of `true_val` or `false_val` on `cond`: operands `cond`,
/// `true_val`, `false_val`, one result of type `ty` (the type of
/// `true_val`), no attributes.
pub fn select_op<Val, Ty>(cond: Val, true_val: Val, false_val: Val, ty: Ty) -> (op: OpSpec<Val, Ty>)
    ensures
        op@ == (OpView {
            name: "cir.select"@,
            operands: seq![cond, true_val, false_val],
            result_types: seq![ty],
            attributes: Seq::<NamedAttrView<Ty>>::empty(),
        }),
{
    let op = OpSpec {
        name: "cir.select",
        operands: vec![cond, true_val, false_val],
        result_types: vec![ty],
        attributes: Vec::new(),
    };
    assert(op@.operands =~= seq![cond, true_val, false_val]);
    assert(op@.result_types =~= seq![ty]);
    assert(op@.attributes =~= Seq::<NamedAttrView<Ty>>::empty());
    op
}

/// Registration agrees with the builders: the operations registered as
/// keeping their operands' type (SameOperandsAndResultType) are exactly the
/// binary and unary ones, which [`binary_op`] and [`unary_op`] build with
/// the operand's type as result type; the Commutative ones are binary; and
/// every operation a builder creates is registered.
pub proof fn lemma_registration_matches_builders(op: ArithOp, b: ArithBinary, u: ArithUnary, c: ArithCast)
    ensures
        op.spec_traits().contains(OpTrait::SameOperandsAndResultType) <==> ((exists|x: ArithBinary| #[trigger] x.spec_op() == op) || (exists|y: ArithUnary| #[trigger] y.spec_op() == op)),
        op.spec_traits().contains(OpTrait::Commutative) ==> exists|x: ArithBinary| #[trigger] x.spec_op() == op,
        op.spec_traits().contains(OpTrait::Pure),
        defines(arith_dialect().ops, b.spec_op().spec_name()),
        defines(arith_dialect().ops, u.spec_op().spec_name()),
        defines(arith_dialect().ops, c.spec_op().spec_name()),
        defines(arith_dialect().ops, ArithOp::Cmp.spec_name()),
        defines(arith_dialect().ops, ArithOp::Cmpf.spec_name()),
        defines(arith_dialect().ops, ArithOp::Select.spec_name()),
        defines(arith_dialect().ops, ArithOp::Constant.spec_name()),
{
    lemma_arith_dialect_names(b.spec_op(), b.spec_op().spec_name());
    lemma_arith_dialect_names(u.spec_op(), u.spec_op().spec_name());
    lemma_arith_dialect_names(c.spec_op(), c.spec_op().spec_name());
    lemma_arith_dialect_names(ArithOp::Cmp, ArithOp::Cmp.spec_name());
    lemma_arith_dialect_names(ArithOp::Cmpf, ArithOp::Cmpf.spec_name());
    lemma_arith_dialect_names(ArithOp::Select, ArithOp::Select.spec_name());
    lemma_arith_dialect_names(ArithOp::Constant, ArithOp::Constant.spec_name());
    assert(op.spec_traits()[0] == OpTrait::Pure);
    match op {
        ArithOp::Add => { assert(ArithBinary::Add.spec_op() == op); },
        ArithOp::Sub => { assert(ArithBinary::Sub.spec_op() == op); },
        ArithOp::Mul => { assert(ArithBinary::Mul.spec_op() == op); },
        ArithOp::Divsi => { assert(ArithBinary::Divsi.spec_op() == op); },
        ArithOp::Divui => { assert(ArithBinary::Divui.spec_op() == op); },
        ArithOp::Divf => { assert(ArithBinary::Divf.spec_op() == op); },
        ArithOp::Remsi => { assert(ArithBinary::Remsi.spec_op() == op); },
        ArithOp::Remui => { assert(ArithBinary::Remui.spec_op() == op); },
        ArithOp::Remf => { assert(ArithBinary::Remf.spec_op() == op); },
        ArithOp::BitAnd => { assert(ArithBinary::BitAnd.spec_op() == op); },
        ArithOp::BitOr => { assert(ArithBinary::BitOr.spec_op() == op); },
        ArithOp::BitXor => { assert(ArithBinary::BitXor.spec_op() == op); },
        ArithOp::Shl => { assert(ArithBinary::Shl.spec_op() == op); },
        ArithOp::Shr => { assert(ArithBinary::Shr.spec_op() == op); },
        ArithOp::ShrS => { assert(ArithBinary::ShrS.spec_op() == op); },
        ArithOp::Neg => { assert(ArithUnary::Neg.spec_op() == op); },
        ArithOp::Negf => { assert(ArithUnary::Negf.spec_op() == op); },
        ArithOp::BitNot => { assert(ArithUnary::BitNot.spec_op() == op); },
        _ => {
            assert(!op.spec_traits().contains(OpTrait::SameOperandsAndResultType));
            assert(!op.spec_traits().contains(OpTrait::Commutative));
        },
    }
}

} // verus!
