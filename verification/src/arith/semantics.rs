//! What the arith operations compute and what the instructions that lower
//! them compute, on 64-bit integer lanes, and the laws that the lowering
//! keeps the meaning of every operation: each operation is lowered to an
//! instruction that computes the same value, each comparison predicate to a
//! condition code that tests the same relation.
use vstd::prelude::*;
use crate::arith::lowering::{
    float_cond_for, int_cond_for, step_for, ArithStep, Cast, FloatBin, FloatCondCode, IntBin,
    IntCondCode, PolyBin, PolyInstr, UnaryOp,
};
use crate::arith::ops::{ArithOp, FloatPredicate, IntPredicate};
use crate::ir::OpTrait;

verus! {

/// The number of values of a 64-bit lane.
pub open spec fn lane_modulus() -> int {
    0x1_0000_0000_0000_0000
}

/// The signed value of the 64-bit pattern `x` (two's complement).
pub open spec fn signed(x: u64) -> int {
    if x < 0x8000_0000_0000_0000 {
        x as int
    } else {
        x - lane_modulus()
    }
}

/// The 64-bit pattern of the integer `v`, taken modulo 2^64.
pub open spec fn wrap(v: int) -> u64 {
    (v % lane_modulus()) as u64
}

/// The absolute value of `a`.
pub open spec fn magnitude(a: int) -> int {
    if a < 0 {
        -a
    } else {
        a
    }
}

/// The quotient of `a` by `b` rounded toward zero.
pub open spec fn quotient_toward_zero(a: int, b: int) -> int {
    let q = magnitude(a) / magnitude(b);
    if (a < 0) == (b < 0) {
        q
    } else {
        -q
    }
}

/// The remainder that goes with [`quotient_toward_zero`]: it has the sign of
/// `a`.
pub open spec fn remainder_toward_zero(a: int, b: int) -> int {
    a - b * quotient_toward_zero(a, b)
}

/// What the binary integer operation `op` computes on the 64-bit operands
/// `x` and `y`, read from the operation's name: `add`, `sub` and `mul`
/// wrap; `divsi` and `remsi` read the operands as signed and round toward
/// zero, `divui` and `remui` read them as unsigned; division and remainder by
/// zero, and the signed quotient that overflows, have no value (`None`);
/// the shifts take the amount modulo 64, `shr` filling with zeros and
/// `shr_s` with the sign. `None` too for every operation that is not a
/// binary integer operation.
pub open spec fn int_binary_meaning(op: ArithOp, x: u64, y: u64) -> Option<u64> {
    match op {
        ArithOp::Add => Some(wrap(x + y)),
        ArithOp::Sub => Some(wrap(x - y)),
        ArithOp::Mul => Some(wrap(x * y)),
        ArithOp::Divsi => if y == 0 || (signed(x) == -0x8000_0000_0000_0000 && signed(y) == -1) {
            None
        } else {
            Some(wrap(quotient_toward_zero(signed(x), signed(y))))
        },
        ArithOp::Divui => if y == 0 {
            None
        } else {
            Some((x / y) as u64)
        },
        ArithOp::Remsi => if y == 0 {
            None
        } else {
            Some(wrap(remainder_toward_zero(signed(x), signed(y))))
        },
        ArithOp::Remui => if y == 0 {
            None
        } else {
            Some((x % y) as u64)
        },
        ArithOp::BitAnd => Some(x & y),
        ArithOp::BitOr => Some(x | y),
        ArithOp::BitXor => Some(x ^ y),
        ArithOp::Shl => Some(x << (y % 64)),
        ArithOp::Shr => Some(x >> (y % 64)),
        ArithOp::ShrS => Some(((x as i64) >> (y % 64)) as u64),
        _ => None,
    }
}

/// What the integer instruction `i` computes on `x` and `y`; `None` where it
/// traps (a zero divisor, a signed quotient that overflows).
pub open spec fn int_instr_result(i: IntBin, x: u64, y: u64) -> Option<u64> {
    match i {
        IntBin::Sdiv => if y == 0 || (x == 0x8000_0000_0000_0000 && y == 0xFFFF_FFFF_FFFF_FFFF) {
            None
        } else {
            Some(wrap(quotient_toward_zero(signed(x), signed(y))))
        },
        IntBin::Udiv => if y == 0 {
            None
        } else {
            Some((x / y) as u64)
        },
        IntBin::Srem => if y == 0 {
            None
        } else {
            Some(wrap(remainder_toward_zero(signed(x), signed(y))))
        },
        IntBin::Urem => if y == 0 {
            None
        } else {
            Some((x % y) as u64)
        },
        IntBin::Band => Some(x & y),
        IntBin::Bor => Some(x | y),
        IntBin::Bxor => Some(x ^ y),
        IntBin::Ishl => Some(x << (y % 64)),
        IntBin::Ushr => Some(x >> (y % 64)),
        IntBin::Sshr => Some(((x as i64) >> (y % 64)) as u64),
    }
}

/// What the instruction `p` computes on integer operands `x` and `y`; `None`
/// for the float instructions.
pub open spec fn poly_instr_int_result(p: PolyInstr, x: u64, y: u64) -> Option<u64> {
    match p {
        PolyInstr::Iadd => Some(wrap(x + y)),
        PolyInstr::Isub => Some(wrap(x - y)),
        PolyInstr::Imul => Some(wrap(x * y)),
        _ => None,
    }
}

/// What the lowering step `step` computes on integer operands `x` and `y`,
/// when it is a binary step: the integer instruction of a [`PolyBin`] step,
/// or the [`IntBin`] instruction. `None` for every other step.
pub open spec fn step_int_binary(step: ArithStep, x: u64, y: u64) -> Option<u64> {
    match step {
        ArithStep::PolyBin(p) => poly_instr_int_result(p.spec_instruction(false), x, y),
        ArithStep::IntBin(i) => int_instr_result(i, x, y),
        _ => None,
    }
}

/// Each binary integer operation is lowered to an instruction that computes
/// what the operation means, for all operands: in particular `divui` and
/// `remui` to the unsigned division and remainder, `divsi` and `remsi` to
/// the signed ones, `shr` to the logical and `shr_s` to the arithmetic
/// shift; and no other operation is lowered to a binary integer
/// instruction.
pub proof fn lemma_int_binary_lowering_keeps_meaning(op: ArithOp, x: u64, y: u64)
    ensures
        step_int_binary(step_for(op), x, y) == int_binary_meaning(op, x, y),
{
    if op == ArithOp::Divsi {
        assert((signed(x) == -0x8000_0000_0000_0000 && signed(y) == -1) <==> (x == 0x8000_0000_0000_0000 && y == 0xFFFF_FFFF_FFFF_FFFF));
    }
}

/// What the unary integer operation `op` computes on `x`: `neg` is the
/// wrapped `0 - x`, `bit_not` the wrapped `-1 - x`; `None` for every other
/// operation.
pub open spec fn int_unary_meaning(op: ArithOp, x: u64) -> Option<u64> {
    match op {
        ArithOp::Neg => Some(wrap(0 - x)),
        ArithOp::BitNot => Some(wrap(-1 - x)),
        _ => None,
    }
}

/// What the lowering step `step` computes on the integer operand `x`: the
/// negation `ineg` or the bitwise complement `bnot`; `None` for every other
/// step.
pub open spec fn step_int_unary(step: ArithStep, x: u64) -> Option<u64> {
    match step {
        ArithStep::Unary(UnaryOp::Ineg) => Some(wrap(0 - x)),
        ArithStep::Unary(UnaryOp::Bnot) => Some(!x),
        _ => None,
    }
}

/// Each unary integer operation is lowered to an instruction that computes
/// what it means, for every operand.
pub proof fn lemma_int_unary_lowering_keeps_meaning(op: ArithOp, x: u64)
    ensures
        step_int_unary(step_for(op), x) == int_unary_meaning(op, x),
{
    if op == ArithOp::BitNot {
        assert(!x == 0xFFFF_FFFF_FFFF_FFFFu64 - x) by (bit_vector);
        assert(wrap(-1 - x) == 0xFFFF_FFFF_FFFF_FFFFu64 - x);
    }
}

/// The value of the `from`-bit pattern `x` read as signed.
pub open spec fn signed_of_width(x: int, from: nat) -> int {
    if from > 0 && x >= vstd::arithmetic::power2::pow2((from - 1) as nat) {
        x - vstd::arithmetic::power2::pow2(from)
    } else {
        x
    }
}

/// What the integer cast `op` computes on the `from`-bit pattern `x` for a
/// `to`-bit result: `extsi` extends the sign, `extui` extends with zeros,
/// `trunci` keeps the low `to` bits; `None` for every other operation.
pub open spec fn int_cast_meaning(op: ArithOp, from: nat, to: nat, x: int) -> Option<int> {
    match op {
        ArithOp::Extsi => Some(signed_of_width(x, from) % (vstd::arithmetic::power2::pow2(to) as int)),
        ArithOp::Extui => Some(x),
        ArithOp::Trunci => Some(x % (vstd::arithmetic::power2::pow2(to) as int)),
        _ => None,
    }
}

/// What the lowering step `step` computes on the `from`-bit pattern `x` for
/// a `to`-bit result, when it is an integer conversion (`sextend`,
/// `uextend`, `ireduce`); `None` for every other step.
pub open spec fn step_int_cast(step: ArithStep, from: nat, to: nat, x: int) -> Option<int> {
    match step {
        ArithStep::Cast(Cast::Sextend) => Some(signed_of_width(x, from) % (vstd::arithmetic::power2::pow2(to) as int)),
        ArithStep::Cast(Cast::Uextend) => Some(x),
        ArithStep::Cast(Cast::Ireduce) => Some(x % (vstd::arithmetic::power2::pow2(to) as int)),
        _ => None,
    }
}

/// Each integer cast is lowered to the conversion that computes what it
/// means, for all widths and operands: `extsi` to the sign extension,
/// `extui` to the zero extension, `trunci` to the reduction.
pub proof fn lemma_int_cast_lowering_keeps_meaning(op: ArithOp, from: nat, to: nat, x: int)
    ensures
        step_int_cast(step_for(op), from, to, x) == int_cast_meaning(op, from, to, x),
{
}

/// The float computations that the arith operations and the instructions
/// perform.
pub enum FloatArith {
    Add,
    Sub,
    Mul,
    Div,
    Rem,
    Neg,
    Promote,
    Demote,
    FromSigned,
    ToSignedSat,
}

/// The float computation the operation `op` performs on float operands:
/// `add`, `sub`, `mul`, `divf`, `remf`, `negf`; `extf` widens and `truncf`
/// narrows a float, `sitofp` converts a signed integer, `fptosi` converts to
/// a signed integer, saturating. `None` for the operations with no float
/// computation.
pub open spec fn float_meaning(op: ArithOp) -> Option<FloatArith> {
    match op {
        ArithOp::Add => Some(FloatArith::Add),
        ArithOp::Sub => Some(FloatArith::Sub),
        ArithOp::Mul => Some(FloatArith::Mul),
        ArithOp::Divf => Some(FloatArith::Div),
        ArithOp::Remf => Some(FloatArith::Rem),
        ArithOp::Negf => Some(FloatArith::Neg),
        ArithOp::Extf => Some(FloatArith::Promote),
        ArithOp::Truncf => Some(FloatArith::Demote),
        ArithOp::Sitofp => Some(FloatArith::FromSigned),
        ArithOp::Fptosi => Some(FloatArith::ToSignedSat),
        _ => None,
    }
}

/// The float computation that the lowering step `step` performs when the
/// result type is a float type.
pub open spec fn step_float_computation(step: ArithStep) -> Option<FloatArith> {
    match step {
        ArithStep::PolyBin(p) => match p.spec_instruction(true) {
            PolyInstr::Fadd => Some(FloatArith::Add),
            PolyInstr::Fsub => Some(FloatArith::Sub),
            PolyInstr::Fmul => Some(FloatArith::Mul),
            _ => None,
        },
        ArithStep::FloatBin(FloatBin::Fdiv) => Some(FloatArith::Div),
        ArithStep::Remf => Some(FloatArith::Rem),
        ArithStep::Unary(UnaryOp::Fneg) => Some(FloatArith::Neg),
        ArithStep::Cast(Cast::Fpromote) => Some(FloatArith::Promote),
        ArithStep::Cast(Cast::Fdemote) => Some(FloatArith::Demote),
        ArithStep::Cast(Cast::FcvtFromSint) => Some(FloatArith::FromSigned),
        ArithStep::Cast(Cast::FcvtToSintSat) => Some(FloatArith::ToSignedSat),
        _ => None,
    }
}

/// Each operation with a float computation is lowered to a step that
/// performs that computation, and no other operation is.
pub proof fn lemma_float_lowering_keeps_meaning(op: ArithOp)
    ensures
        step_float_computation(step_for(op)) == float_meaning(op),
{
}

/// The steps with no computation of their own are taken by exactly one
/// operation each: `cir.cmp` is lowered to the integer comparison, `cir.cmpf`
/// to the float comparison, `cir.select` to the selection and
/// `cir.constant` to the constant.
pub proof fn lemma_comparison_select_constant_steps(op: ArithOp)
    ensures
        (step_for(op) == ArithStep::Cmp) <==> (op == ArithOp::Cmp),
        (step_for(op) == ArithStep::Cmpf) <==> (op == ArithOp::Cmpf),
        (step_for(op) == ArithStep::Select) <==> (op == ArithOp::Select),
        (step_for(op) == ArithStep::Constant) <==> (op == ArithOp::Constant),
{
}

/// Whether the integer predicate `p` holds between the 64-bit operands `a`
/// and `b`: the `s` predicates compare them as signed, the `u` ones as
/// unsigned.
pub open spec fn int_predicate_holds(p: IntPredicate, a: u64, b: u64) -> bool {
    match p {
        IntPredicate::Eq => a == b,
        IntPredicate::Ne => a != b,
        IntPredicate::Slt => signed(a) < signed(b),
        IntPredicate::Sle => signed(a) <= signed(b),
        IntPredicate::Sgt => signed(a) > signed(b),
        IntPredicate::Sge => signed(a) >= signed(b),
        IntPredicate::Ult => a < b,
        IntPredicate::Ule => a <= b,
        IntPredicate::Ugt => a > b,
        IntPredicate::Uge => a >= b,
    }
}

/// Whether the condition code `cc` holds between the 64-bit operands `a`
/// and `b`.
pub open spec fn int_cond_holds(cc: IntCondCode, a: u64, b: u64) -> bool {
    match cc {
        IntCondCode::Equal => a == b,
        IntCondCode::NotEqual => a != b,
        IntCondCode::SignedLessThan => signed(a) < signed(b),
        IntCondCode::SignedLessThanOrEqual => signed(a) <= signed(b),
        IntCondCode::SignedGreaterThan => signed(a) > signed(b),
        IntCondCode::SignedGreaterThanOrEqual => signed(a) >= signed(b),
        IntCondCode::UnsignedLessThan => a < b,
        IntCondCode::UnsignedLessThanOrEqual => a <= b,
        IntCondCode::UnsignedGreaterThan => a > b,
        IntCondCode::UnsignedGreaterThanOrEqual => a >= b,
    }
}

/// The condition code of each integer predicate tests the relation the
/// predicate names, for all operands.
pub proof fn lemma_int_cond_keeps_predicate(p: IntPredicate, a: u64, b: u64)
    ensures
        int_cond_holds(int_cond_for(p), a, b) == int_predicate_holds(p, a, b),
{
}

/// A float operand as comparisons see it: NaN, or a number, placed in the
/// order of the numbers by an integer rank.
pub enum FloatOperand {
    Nan,
    Num(int),
}

/// Whether `a` or `b` is NaN.
pub open spec fn unordered(a: FloatOperand, b: FloatOperand) -> bool {
    a is Nan || b is Nan
}

/// The rank of a number; 0 for NaN, which no ordered test reads.
pub open spec fn rank(a: FloatOperand) -> int {
    match a {
        FloatOperand::Num(r) => r,
        FloatOperand::Nan => 0,
    }
}

/// Whether the float predicate `p` holds between `a` and `b`: the `o`
/// predicates are false when an operand is NaN, the `u` ones true; `ord`
/// holds when neither is NaN, `uno` when one is.
pub open spec fn float_predicate_holds(p: FloatPredicate, a: FloatOperand, b: FloatOperand) -> bool {
    let u = unordered(a, b);
    let (x, y) = (rank(a), rank(b));
    match p {
        FloatPredicate::Oeq => !u && x == y,
        FloatPredicate::Ogt => !u && x > y,
        FloatPredicate::Oge => !u && x >= y,
        FloatPredicate::Olt => !u && x < y,
        FloatPredicate::Ole => !u && x <= y,
        FloatPredicate::One => !u && x != y,
        FloatPredicate::Ord => !u,
        FloatPredicate::Ueq => u || x == y,
        FloatPredicate::Ugt => u || x > y,
        FloatPredicate::Uge => u || x >= y,
        FloatPredicate::Ult => u || x < y,
        FloatPredicate::Ule => u || x <= y,
        FloatPredicate::Une => u || x != y,
        FloatPredicate::Uno => u,
    }
}

/// Whether the float condition code `cc` holds between `a` and `b`: the
/// plain comparisons and `OrderedNotEqual` are false on NaN, except
/// `NotEqual`, which is true then, as are the `UnorderedOr` ones.
pub open spec fn float_cond_holds(cc: FloatCondCode, a: FloatOperand, b: FloatOperand) -> bool {
    let u = unordered(a, b);
    let (x, y) = (rank(a), rank(b));
    match cc {
        FloatCondCode::Ordered => !u,
        FloatCondCode::Unordered => u,
        FloatCondCode::Equal => !u && x == y,
        FloatCondCode::NotEqual => u || x != y,
        FloatCondCode::OrderedNotEqual => !u && x != y,
        FloatCondCode::UnorderedOrEqual => u || x == y,
        FloatCondCode::LessThan => !u && x < y,
        FloatCondCode::LessThanOrEqual => !u && x <= y,
        FloatCondCode::GreaterThan => !u && x > y,
        FloatCondCode::GreaterThanOrEqual => !u && x >= y,
        FloatCondCode::UnorderedOrLessThan => u || x < y,
        FloatCondCode::UnorderedOrLessThanOrEqual => u || x <= y,
        FloatCondCode::UnorderedOrGreaterThan => u || x > y,
        FloatCondCode::UnorderedOrGreaterThanOrEqual => u || x >= y,
    }
}

/// The condition code of each float predicate tests the relation the
/// predicate names, with the predicate's answer on NaN, for all operands.
pub proof fn lemma_float_cond_keeps_predicate(p: FloatPredicate, a: FloatOperand, b: FloatOperand)
    ensures
        float_cond_holds(float_cond_for(p), a, b) == float_predicate_holds(p, a, b),
{
}

/// The operations registered as Commutative are exactly `add`, `mul`,
/// `bit_and`, `bit_or` and `bit_xor`, which are exactly the binary integer
/// operations whose value does not change when the operands are swapped.
pub proof fn lemma_commutative_ops(op: ArithOp)
    ensures
        op.spec_traits().contains(OpTrait::Commutative) <==> (op == ArithOp::Add || op == ArithOp::Mul
            || op == ArithOp::BitAnd || op == ArithOp::BitOr || op == ArithOp::BitXor),
        op.spec_traits().contains(OpTrait::Commutative) <==> (int_binary_meaning(op, 1, 3) is Some
            && forall|x: u64, y: u64| #[trigger] int_binary_meaning(op, x, y) == int_binary_meaning(op, y, x)),
{
    assert(op.spec_traits()[0] == OpTrait::Pure);
    match op {
        ArithOp::Add | ArithOp::Mul | ArithOp::BitAnd | ArithOp::BitOr | ArithOp::BitXor => {
            assert(op.spec_traits()[1] == OpTrait::Commutative);
            assert forall|x: u64, y: u64| #[trigger] int_binary_meaning(op, x, y) == int_binary_meaning(op, y, x) by {
                assert(x * y == y * x) by (nonlinear_arith);
                assert(x & y == y & x) by (bit_vector);
                assert(x | y == y | x) by (bit_vector);
                assert(x ^ y == y ^ x) by (bit_vector);
            }
        },
        ArithOp::Sub | ArithOp::Divsi | ArithOp::Divui | ArithOp::Remsi | ArithOp::Remui
        | ArithOp::Shl | ArithOp::Shr | ArithOp::ShrS => {
            assert(!op.spec_traits().contains(OpTrait::Commutative));
            assert(signed(1) == 1 && signed(3) == 3);
            assert(quotient_toward_zero(1, 3) == 0 && quotient_toward_zero(3, 1) == 3);
            assert(1u64 << (3u64 % 64) == 8) by (bit_vector);
            assert(3u64 << (1u64 % 64) == 6) by (bit_vector);
            assert(1u64 >> (3u64 % 64) == 0) by (bit_vector);
            assert(3u64 >> (1u64 % 64) == 1) by (bit_vector);
            assert((((1u64 as i64) >> (3u64 % 64)) as u64) == 0) by (bit_vector);
            assert((((3u64 as i64) >> (1u64 % 64)) as u64) == 1) by (bit_vector);
            assert(int_binary_meaning(op, 1, 3) != int_binary_meaning(op, 3, 1));
        },
        _ => {
            assert(!op.spec_traits().contains(OpTrait::Commutative));
        },
    }
}

} // verus!
