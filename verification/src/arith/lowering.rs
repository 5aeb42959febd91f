//! The decisions of the arith lowering: which lowering step each of the 29
//! operations takes, the condition code each comparison predicate becomes,
//! and how a constant is materialized.
use vstd::prelude::*;
use crate::arith::ops::{arith_dialect, lemma_arith_dialect_names, lemma_predicate_codes_round_trip, ArithCast, ArithOp, FloatPredicate, IntPredicate};
use crate::ir::{arg_term, defines, term_at, Arg, Instr, OpTrait, Term};
use crate::text::{decimal, with_number};

verus! {

/// The lowering of the arith construct.
pub struct ArithLowering;

impl ArithLowering {
    /// The construct's name.
    pub fn name(&self) -> (r: &'static str)
        ensures
            r@ == "arith"@,
    {
        "arith"
    }

    /// The step that lowers the operation named `name`: `None` when the
    /// name is not one of the 29 arith operations, which this lowering
    /// leaves to others.
    pub fn lower_step(&self, name: &str) -> (r: Option<ArithStep>)
        ensures
            r == (match ArithOp::spec_from_name(name@) {
                Some(op) => Some(step_for(op)),
                None => None,
            }),
    {
        match ArithOp::from_name(name) {
            Some(op) => Some(step_of(op)),
            None => None,
        }
    }
}

/// Addition, subtraction and multiplication: integer or float instruction by
/// the result type.
#[derive(Clone, Copy, Debug, PartialEq, Eq, Structural)]
pub enum PolyBin {
    Add,
    Sub,
    Mul,
}

/// The instruction that lowers a [`PolyBin`] operation.
#[derive(Clone, Copy, Debug, PartialEq, Eq, Structural)]
pub enum PolyInstr {
    Iadd,
    Fadd,
    Isub,
    Fsub,
    Imul,
    Fmul,
}

impl PolyBin {
    /// The instruction for this operation: the float one when the result
    /// type is a float type, the integer one otherwise.
    pub open spec fn spec_instruction(self, result_is_float: bool) -> PolyInstr {
        match (self, result_is_float) {
            (PolyBin::Add, false) => PolyInstr::Iadd,
            (PolyBin::Add, true) => PolyInstr::Fadd,
            (PolyBin::Sub, false) => PolyInstr::Isub,
            (PolyBin::Sub, true) => PolyInstr::Fsub,
            (PolyBin::Mul, false) => PolyInstr::Imul,
            (PolyBin::Mul, true) => PolyInstr::Fmul,
        }
    }

    /// The instruction for this operation: the float one when the result
    /// type is a float type, the integer one otherwise.
    pub fn instruction(self, result_is_float: bool) -> (r: PolyInstr)
        ensures
            r == self.spec_instruction(result_is_float),
            r == (match (self, result_is_float) {
                (PolyBin::Add, false) => PolyInstr::Iadd,
                (PolyBin::Add, true) => PolyInstr::Fadd,
                (PolyBin::Sub, false) => PolyInstr::Isub,
                (PolyBin::Sub, true) => PolyInstr::Fsub,
                (PolyBin::Mul, false) => PolyInstr::Imul,
                (PolyBin::Mul, true) => PolyInstr::Fmul,
            }),
    {
        match (self, result_is_float) {
            (PolyBin::Add, false) => PolyInstr::Iadd,
            (PolyBin::Add, true) => PolyInstr::Fadd,
            (PolyBin::Sub, false) => PolyInstr::Isub,
            (PolyBin::Sub, true) => PolyInstr::Fsub,
            (PolyBin::Mul, false) => PolyInstr::Imul,
            (PolyBin::Mul, true) => PolyInstr::Fmul,
        }
    }
}

/// Integer-only binary instructions.
#[derive(Clone, Copy, Debug, PartialEq, Eq, Structural)]
pub enum IntBin {
    Sdiv,
    Udiv,
    Srem,
    Urem,
    Band,
    Bor,
    Bxor,
    Ishl,
    Ushr,
    Sshr,
}

/// Float-only binary instructions.
#[derive(Clone, Copy, Debug, PartialEq, Eq, Structural)]
pub enum FloatBin {
    Fdiv,
}

/// Unary instructions.
#[derive(Clone, Copy, Debug, PartialEq, Eq, Structural)]
pub enum UnaryOp {
    Ineg,
    Fneg,
    Bnot,
}

/// Conversion instructions; the target type is the result type.
#[derive(Clone, Copy, Debug, PartialEq, Eq, Structural)]
pub enum Cast {
    Sextend,
    Uextend,
    Ireduce,
    FcvtFromSint,
    FcvtToSintSat,
    Fpromote,
    Fdemote,
}

/// How one arith operation is lowered.
#[derive(Clone, Copy, Debug, PartialEq, Eq, Structural)]
pub enum ArithStep {
    /// An integer or float constant, as [`constant_lowering`] decides.
    Constant,
    /// Integer or float instruction on the two operands.
    PolyBin(PolyBin),
    /// Integer instruction on the two operands.
    IntBin(IntBin),
    /// Float instruction on the two operands.
    FloatBin(FloatBin),
    /// Float remainder `a - trunc(a / b) * b`, there being no native one.
    Remf,
    /// Instruction on the single operand.
    Unary(UnaryOp),
    /// Integer comparison under the condition code of the `predicate` attribute.
    Cmp,
    /// Float comparison under the condition code of the `predicate` attribute.
    Cmpf,
    /// Selection of operand 1 or 2 by operand 0.
    Select,
    /// Conversion of the single operand to the result type.
    Cast(Cast),
}

/// The step that lowers `op`.
pub open spec fn step_for(op: ArithOp) -> ArithStep {
    match op {
            ArithOp::Constant => ArithStep::Constant,
            ArithOp::Add => ArithStep::PolyBin(PolyBin::Add),
            ArithOp::Sub => ArithStep::PolyBin(PolyBin::Sub),
            ArithOp::Mul => ArithStep::PolyBin(PolyBin::Mul),
            ArithOp::Divsi => ArithStep::IntBin(IntBin::Sdiv),
            ArithOp::Divui => ArithStep::IntBin(IntBin::Udiv),
            ArithOp::Remsi => ArithStep::IntBin(IntBin::Srem),
            ArithOp::Remui => ArithStep::IntBin(IntBin::Urem),
            ArithOp::Divf => ArithStep::FloatBin(FloatBin::Fdiv),
            ArithOp::Remf => ArithStep::Remf,
            ArithOp::Neg => ArithStep::Unary(UnaryOp::Ineg),
            ArithOp::Negf => ArithStep::Unary(UnaryOp::Fneg),
            ArithOp::BitAnd => ArithStep::IntBin(IntBin::Band),
            ArithOp::BitOr => ArithStep::IntBin(IntBin::Bor),
            ArithOp::BitXor => ArithStep::IntBin(IntBin::Bxor),
            ArithOp::BitNot => ArithStep::Unary(UnaryOp::Bnot),
            ArithOp::Shl => ArithStep::IntBin(IntBin::Ishl),
            ArithOp::Shr => ArithStep::IntBin(IntBin::Ushr),
            ArithOp::ShrS => ArithStep::IntBin(IntBin::Sshr),
            ArithOp::Cmp => ArithStep::Cmp,
            ArithOp::Cmpf => ArithStep::Cmpf,
            ArithOp::Select => ArithStep::Select,
            ArithOp::Extsi => ArithStep::Cast(Cast::Sextend),
            ArithOp::Extui => ArithStep::Cast(Cast::Uextend),
            ArithOp::Trunci => ArithStep::Cast(Cast::Ireduce),
            ArithOp::Sitofp => ArithStep::Cast(Cast::FcvtFromSint),
            ArithOp::Fptosi => ArithStep::Cast(Cast::FcvtToSintSat),
            ArithOp::Extf => ArithStep::Cast(Cast::Fpromote),
            ArithOp::Truncf => ArithStep::Cast(Cast::Fdemote),
    }
}

/// The step that lowers `op`.
pub fn step_of(op: ArithOp) -> (r: ArithStep)
    ensures
        r == step_for(op),
{
    match op {
            ArithOp::Constant => ArithStep::Constant,
            ArithOp::Add => ArithStep::PolyBin(PolyBin::Add),
            ArithOp::Sub => ArithStep::PolyBin(PolyBin::Sub),
            ArithOp::Mul => ArithStep::PolyBin(PolyBin::Mul),
            ArithOp::Divsi => ArithStep::IntBin(IntBin::Sdiv),
            ArithOp::Divui => ArithStep::IntBin(IntBin::Udiv),
            ArithOp::Remsi => ArithStep::IntBin(IntBin::Srem),
            ArithOp::Remui => ArithStep::IntBin(IntBin::Urem),
            ArithOp::Divf => ArithStep::FloatBin(FloatBin::Fdiv),
            ArithOp::Remf => ArithStep::Remf,
            ArithOp::Neg => ArithStep::Unary(UnaryOp::Ineg),
            ArithOp::Negf => ArithStep::Unary(UnaryOp::Fneg),
            ArithOp::BitAnd => ArithStep::IntBin(IntBin::Band),
            ArithOp::BitOr => ArithStep::IntBin(IntBin::Bor),
            ArithOp::BitXor => ArithStep::IntBin(IntBin::Bxor),
            ArithOp::BitNot => ArithStep::Unary(UnaryOp::Bnot),
            ArithOp::Shl => ArithStep::IntBin(IntBin::Ishl),
            ArithOp::Shr => ArithStep::IntBin(IntBin::Ushr),
            ArithOp::ShrS => ArithStep::IntBin(IntBin::Sshr),
            ArithOp::Cmp => ArithStep::Cmp,
            ArithOp::Cmpf => ArithStep::Cmpf,
            ArithOp::Select => ArithStep::Select,
            ArithOp::Extsi => ArithStep::Cast(Cast::Sextend),
            ArithOp::Extui => ArithStep::Cast(Cast::Uextend),
            ArithOp::Trunci => ArithStep::Cast(Cast::Ireduce),
            ArithOp::Sitofp => ArithStep::Cast(Cast::FcvtFromSint),
            ArithOp::Fptosi => ArithStep::Cast(Cast::FcvtToSintSat),
            ArithOp::Extf => ArithStep::Cast(Cast::Fpromote),
            ArithOp::Truncf => ArithStep::Cast(Cast::Fdemote),
    }
}

/// Integer condition codes.
#[derive(Clone, Copy, Debug, PartialEq, Eq, Structural)]
pub enum IntCondCode {
    Equal,
    NotEqual,
    SignedLessThan,
    SignedLessThanOrEqual,
    SignedGreaterThan,
    SignedGreaterThanOrEqual,
    UnsignedLessThan,
    UnsignedLessThanOrEqual,
    UnsignedGreaterThan,
    UnsignedGreaterThanOrEqual,
}

/// Float condition codes: ordered ones are false when an operand is NaN,
/// unordered ones are true then.
#[derive(Clone, Copy, Debug, PartialEq, Eq, Structural)]
pub enum FloatCondCode {
    Ordered,
    Unordered,
    Equal,
    NotEqual,
    OrderedNotEqual,
    UnorderedOrEqual,
    LessThan,
    LessThanOrEqual,
    GreaterThan,
    GreaterThanOrEqual,
    UnorderedOrLessThan,
    UnorderedOrLessThanOrEqual,
    UnorderedOrGreaterThan,
    UnorderedOrGreaterThanOrEqual,
}

/// The condition code that tests integer predicate `p`.
pub open spec fn int_cond_for(p: IntPredicate) -> IntCondCode {
    match p {
            IntPredicate::Eq => IntCondCode::Equal,
            IntPredicate::Ne => IntCondCode::NotEqual,
            IntPredicate::Slt => IntCondCode::SignedLessThan,
            IntPredicate::Sle => IntCondCode::SignedLessThanOrEqual,
            IntPredicate::Sgt => IntCondCode::SignedGreaterThan,
            IntPredicate::Sge => IntCondCode::SignedGreaterThanOrEqual,
            IntPredicate::Ult => IntCondCode::UnsignedLessThan,
            IntPredicate::Ule => IntCondCode::UnsignedLessThanOrEqual,
            IntPredicate::Ugt => IntCondCode::UnsignedGreaterThan,
            IntPredicate::Uge => IntCondCode::UnsignedGreaterThanOrEqual,
    }
}

/// The condition code that tests float predicate `p`.
pub open spec fn float_cond_for(p: FloatPredicate) -> FloatCondCode {
    match p {
            FloatPredicate::Oeq => FloatCondCode::Equal,
            FloatPredicate::Ogt => FloatCondCode::GreaterThan,
            FloatPredicate::Oge => FloatCondCode::GreaterThanOrEqual,
            FloatPredicate::Olt => FloatCondCode::LessThan,
            FloatPredicate::Ole => FloatCondCode::LessThanOrEqual,
            FloatPredicate::One => FloatCondCode::OrderedNotEqual,
            FloatPredicate::Ord => FloatCondCode::Ordered,
            FloatPredicate::Ueq => FloatCondCode::UnorderedOrEqual,
            FloatPredicate::Ugt => FloatCondCode::UnorderedOrGreaterThan,
            FloatPredicate::Uge => FloatCondCode::UnorderedOrGreaterThanOrEqual,
            FloatPredicate::Ult => FloatCondCode::UnorderedOrLessThan,
            FloatPredicate::Ule => FloatCondCode::UnorderedOrLessThanOrEqual,
            FloatPredicate::Une => FloatCondCode::NotEqual,
            FloatPredicate::Uno => FloatCondCode::Unordered,
    }
}

/// The condition code for the integer predicate numbered `pred`; an
/// unknown number is an error that names it.
pub fn map_int_predicate(pred: i64) -> (r: Result<IntCondCode, String>)
    ensures
        match IntPredicate::spec_from_code(pred) {
            Some(p) => r == Ok::<IntCondCode, String>(int_cond_for(p)),
            None => r matches Err(msg) && msg@ == "cir.cmp: unknown predicate "@ + decimal(pred as int),
        },
{
    match pred {
        0 => Ok(IntCondCode::Equal),
        1 => Ok(IntCondCode::NotEqual),
        2 => Ok(IntCondCode::SignedLessThan),
        3 => Ok(IntCondCode::SignedLessThanOrEqual),
        4 => Ok(IntCondCode::SignedGreaterThan),
        5 => Ok(IntCondCode::SignedGreaterThanOrEqual),
        6 => Ok(IntCondCode::UnsignedLessThan),
        7 => Ok(IntCondCode::UnsignedLessThanOrEqual),
        8 => Ok(IntCondCode::UnsignedGreaterThan),
        9 => Ok(IntCondCode::UnsignedGreaterThanOrEqual),
        _ => Err(with_number("cir.cmp: unknown predicate ", pred)),
    }
}

/// The condition code for the float predicate numbered `pred`; an unknown
/// number is an error that names it.
pub fn map_float_predicate(pred: i64) -> (r: Result<FloatCondCode, String>)
    ensures
        match FloatPredicate::spec_from_code(pred) {
            Some(p) => r == Ok::<FloatCondCode, String>(float_cond_for(p)),
            None => r matches Err(msg) && msg@ == "cir.cmpf: unknown predicate "@ + decimal(pred as int),
        },
{
    match pred {
        0 => Ok(FloatCondCode::Equal),
        1 => Ok(FloatCondCode::GreaterThan),
        2 => Ok(FloatCondCode::GreaterThanOrEqual),
        3 => Ok(FloatCondCode::LessThan),
        4 => Ok(FloatCondCode::LessThanOrEqual),
        5 => Ok(FloatCondCode::OrderedNotEqual),
        6 => Ok(FloatCondCode::Ordered),
        7 => Ok(FloatCondCode::UnorderedOrEqual),
        8 => Ok(FloatCondCode::UnorderedOrGreaterThan),
        9 => Ok(FloatCondCode::UnorderedOrGreaterThanOrEqual),
        10 => Ok(FloatCondCode::UnorderedOrLessThan),
        11 => Ok(FloatCondCode::UnorderedOrLessThanOrEqual),
        12 => Ok(FloatCondCode::NotEqual),
        13 => Ok(FloatCondCode::Unordered),
        _ => Err(with_number("cir.cmpf: unknown predicate ", pred)),
    }
}

/// The kind of the `value` attribute of a `cir.constant`.
#[derive(Clone, Copy, Debug, PartialEq, Eq, Structural)]
pub enum ConstantValue {
    Integer,
    Float,
    /// Absent, or of another kind.
    Other,
}

/// How a constant is materialized.
#[derive(Clone, Copy, Debug, PartialEq, Eq, Structural)]
pub enum ConstantLowering {
    /// An integer constant of the result's machine type.
    IntConst,
    /// A 32-bit float constant.
    F32Const,
    /// A 64-bit float constant.
    F64Const,
}

/// How a `cir.constant` whose `value` attribute is of kind `value` is
/// materialized, given the width of its result type when that is a float
/// type (`None` otherwise): an integer value becomes an integer constant; a
/// float value a 32- or 64-bit float constant by that width, any other
/// width being an error; any other value is an error.
pub fn constant_lowering(value: ConstantValue, result_float_width: Option<u32>) -> (r: Result<ConstantLowering, String>)
    ensures
        value == ConstantValue::Integer ==> r == Ok::<ConstantLowering, String>(ConstantLowering::IntConst),
        value == ConstantValue::Float && result_float_width == Some(32u32) ==> r == Ok::<ConstantLowering, String>(ConstantLowering::F32Const),
        value == ConstantValue::Float && result_float_width == Some(64u32) ==> r == Ok::<ConstantLowering, String>(ConstantLowering::F64Const),
        value == ConstantValue::Float && result_float_width != Some(32u32) && result_float_width != Some(64u32) ==> (r matches Err(msg) && msg@ == "cir.constant: unsupported float width"@),
        value == ConstantValue::Other ==> (r matches Err(msg) && msg@
            == "cir.constant: missing or unsupported 'value' attribute"@),
{
    match value {
        ConstantValue::Integer => Ok(ConstantLowering::IntConst),
        ConstantValue::Float => match result_float_width {
            Some(32) => Ok(ConstantLowering::F32Const),
            Some(64) => Ok(ConstantLowering::F64Const),
            _ => Err("cir.constant: unsupported float width".to_owned()),
        },
        ConstantValue::Other => Err("cir.constant: missing or unsupported 'value' attribute".to_owned()),
    }
}

/// The lowering handles exactly the operations that the arith dialect
/// defines: a name gets a lowering step exactly when it is registered.
pub proof fn lemma_arith_lowering_covers_dialect(name: Seq<char>)
    ensures
        ArithOp::spec_from_name(name) is Some <==> defines(arith_dialect().ops, name),
{
    lemma_arith_dialect_names(ArithOp::Constant, name);
}

/// A comparison lowers under the condition code of the predicate it was
/// built with: the number that `cir.cmp` (`cir.cmpf`) stores for a predicate
/// maps back to that predicate's condition code, and no other predicate's.
pub proof fn lemma_predicate_lowering(p: IntPredicate, q: FloatPredicate)
    ensures
        IntPredicate::spec_from_code(p.spec_code()) == Some(p),
        FloatPredicate::spec_from_code(q.spec_code()) == Some(q),
        forall|a: IntPredicate, b: IntPredicate| int_cond_for(a) == int_cond_for(b) ==> a == b,
        forall|a: FloatPredicate, b: FloatPredicate| float_cond_for(a) == float_cond_for(b) ==> a == b,
{
    lemma_predicate_codes_round_trip(p, q);
}

/// Whether `step` emits an instruction whose result has the type of its
/// operands.
pub open spec fn keeps_operand_type(step: ArithStep) -> bool {
    match step {
        ArithStep::PolyBin(_) | ArithStep::IntBin(_) | ArithStep::FloatBin(_) | ArithStep::Remf
        | ArithStep::Unary(_) => true,
        _ => false,
    }
}

/// Registration and lowering agree: an operation is registered as keeping
/// its operands' type exactly when its lowering step emits such an
/// instruction, and the casts are exactly the operations lowered by a
/// conversion.
pub proof fn lemma_lowering_matches_registration(op: ArithOp)
    ensures
        op.spec_traits().contains(OpTrait::SameOperandsAndResultType) <==> keeps_operand_type(step_for(op)),
        (step_for(op) is Cast) <==> (exists|c: ArithCast| #[trigger] c.spec_op() == op),
{
    match op {
        ArithOp::Constant | ArithOp::Cmp | ArithOp::Cmpf | ArithOp::Select => {
            assert(!op.spec_traits().contains(OpTrait::SameOperandsAndResultType));
        },
        ArithOp::Extsi => { assert(ArithCast::Extsi.spec_op() == op); },
        ArithOp::Extui => { assert(ArithCast::Extui.spec_op() == op); },
        ArithOp::Trunci => { assert(ArithCast::Trunci.spec_op() == op); },
        ArithOp::Sitofp => { assert(ArithCast::Sitofp.spec_op() == op); },
        ArithOp::Fptosi => { assert(ArithCast::Fptosi.spec_op() == op); },
        ArithOp::Extf => { assert(ArithCast::Extf.spec_op() == op); },
        ArithOp::Truncf => { assert(ArithCast::Truncf.spec_op() == op); },
        _ => {
            assert(op.spec_traits()[1] == OpTrait::SameOperandsAndResultType || op.spec_traits()[2]
                == OpTrait::SameOperandsAndResultType);
        },
    }
}

/// The float remainder of operand 0 by operand 1: `a - trunc(a / b) * b`,
/// with the sign of `a` (a truncated remainder, not a floored modulo).
pub open spec fn remf_term() -> Term {
    Term::Fsub(
        Box::new(Term::Operand(0)),
        Box::new(Term::Fmul(
            Box::new(Term::Trunc(Box::new(Term::Fdiv(Box::new(Term::Operand(0)), Box::new(Term::Operand(1)))))),
            Box::new(Term::Operand(1)),
        )),
    )
}

/// The instructions that lower `cir.remf` on operands `a` (0) and `b` (1),
/// there being no native float remainder: `fdiv a, b`, `trunc` of that,
/// `fmul` of that by `b`, `fsub a` minus that. The last one is the result:
/// `a - trunc(a / b) * b`.
pub fn remf_instrs() -> (r: Vec<Instr>)
    ensures
        r@ == seq![
            Instr::Fdiv(Arg::Operand(0), Arg::Operand(1)),
            Instr::Trunc(Arg::Step(0)),
            Instr::Fmul(Arg::Step(1), Arg::Operand(1)),
            Instr::Fsub(Arg::Operand(0), Arg::Step(2)),
        ],
        term_at(r@, 3) == remf_term(),
{
    let r = vec![
        Instr::Fdiv(Arg::Operand(0), Arg::Operand(1)),
        Instr::Trunc(Arg::Step(0)),
        Instr::Fmul(Arg::Step(1), Arg::Operand(1)),
        Instr::Fsub(Arg::Operand(0), Arg::Step(2)),
    ];
    proof {
        let p = r@;
        assert(p =~= seq![
            Instr::Fdiv(Arg::Operand(0), Arg::Operand(1)),
            Instr::Trunc(Arg::Step(0)),
            Instr::Fmul(Arg::Step(1), Arg::Operand(1)),
            Instr::Fsub(Arg::Operand(0), Arg::Step(2)),
        ]);
        let t0 = term_at(p, 0);
        assert(t0 == Term::Fdiv(Box::new(Term::Operand(0)), Box::new(Term::Operand(1))));
        let t1 = term_at(p, 1);
        assert(arg_term(p, Arg::Step(0), 1) == t0);
        assert(t1 == Term::Trunc(Box::new(t0)));
        let t2 = term_at(p, 2);
        assert(arg_term(p, Arg::Step(1), 2) == t1);
        assert(t2 == Term::Fmul(Box::new(t1), Box::new(Term::Operand(1))));
        assert(arg_term(p, Arg::Step(2), 3) == t2);
    }
    r
}

} // verus!
