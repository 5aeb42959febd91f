use cot_constructs::arith::lowering::{
    constant_lowering, map_float_predicate, map_int_predicate, step_of, ArithLowering, ArithStep, Cast,
    ConstantLowering, ConstantValue, FloatBin, FloatCondCode, IntBin, IntCondCode, PolyBin, UnaryOp,
};
use cot_constructs::arith::ops::{
    binary_op, cast_op, cmp_op, cmpf_op, constant_bool_op, constant_int_op, register_ops, select_op,
    unary_op, ArithBinary, ArithCast, ArithOp, ArithUnary, FloatPredicate, IntPredicate,
};
use cot_constructs::ir::{Attr, NamedAttr, OpTrait};

const I1: u32 = 101;
const I8: u32 = 108;
const I32: u32 = 132;

#[test]
fn register_all_29_arith_ops() {
    let d = register_ops();
    assert_eq!(d.namespace, "cir");
    assert_eq!(d.ops.len(), 29);
    for op in ArithOp::all() {
        assert!(d.get_op(op.name()).is_some(), "missing op: {}", op.name());
    }
    assert!(d.get_op("cir.array_init").is_none());
}

#[test]
fn arith_op_traits_correct() {
    let d = register_ops();
    for name in ["cir.add", "cir.mul", "cir.bit_and", "cir.bit_or", "cir.bit_xor"] {
        let op = d.get_op(name).unwrap();
        assert!(op.has_trait(OpTrait::Pure));
        assert!(op.has_trait(OpTrait::Commutative), "{} should be Commutative", name);
        assert!(op.has_trait(OpTrait::SameOperandsAndResultType));
    }
    for name in ["cir.sub", "cir.divsi", "cir.remf", "cir.neg", "cir.negf", "cir.bit_not", "cir.shr_s"] {
        let op = d.get_op(name).unwrap();
        assert!(op.has_trait(OpTrait::Pure));
        assert!(!op.has_trait(OpTrait::Commutative), "{} should not be Commutative", name);
        assert!(op.has_trait(OpTrait::SameOperandsAndResultType));
    }
    for name in ["cir.constant", "cir.cmp", "cir.cmpf", "cir.select", "cir.extsi", "cir.truncf"] {
        let op = d.get_op(name).unwrap();
        assert_eq!(op.traits, vec![OpTrait::Pure], "{} should be only Pure", name);
    }
}

#[test]
fn arith_names_round_trip() {
    for op in ArithOp::all() {
        assert_eq!(ArithOp::from_name(op.name()), Some(op));
    }
    assert_eq!(ArithOp::from_name("cir.frobnicate"), None);
    assert_eq!(ArithOp::from_name("add"), None);
}

#[test]
fn constant_return_op() {
    // cir.constant 42 : i32
    let op = constant_int_op::<u32, u32>(I32, 42);
    assert_eq!(op.name, "cir.constant");
    assert!(op.operands.is_empty());
    assert_eq!(op.result_types, vec![I32]);
    assert_eq!(op.attributes, vec![NamedAttr { name: "value", value: Attr::Integer { value: 42, ty: I32 } }]);
}

#[test]
fn constant_bool_is_one_bit_integer() {
    let t = constant_bool_op::<u32, u32>(I1, true);
    assert_eq!(t.attributes[0].value, Attr::Integer { value: 1, ty: I1 });
    let f = constant_bool_op::<u32, u32>(I1, false);
    assert_eq!(f.attributes[0].value, Attr::Integer { value: 0, ty: I1 });
    assert_eq!(f.result_types, vec![I1]);
}

#[test]
fn sdiv_op() {
    // divsi(84, 2) with values 1 and 2 of type i32
    let op = binary_op::<u32, u32>(ArithBinary::Divsi, 1, 2, I32);
    assert_eq!(op.name, "cir.divsi");
    assert_eq!(op.operands, vec![1, 2]);
    assert_eq!(op.result_types, vec![I32]);
    assert!(op.attributes.is_empty());
}

#[test]
fn every_binary_kind_names_its_op() {
    let kinds = [
        (ArithBinary::Add, "cir.add"), (ArithBinary::Sub, "cir.sub"), (ArithBinary::Mul, "cir.mul"),
        (ArithBinary::Divsi, "cir.divsi"), (ArithBinary::Divui, "cir.divui"), (ArithBinary::Divf, "cir.divf"),
        (ArithBinary::Remsi, "cir.remsi"), (ArithBinary::Remui, "cir.remui"), (ArithBinary::Remf, "cir.remf"),
        (ArithBinary::BitAnd, "cir.bit_and"), (ArithBinary::BitOr, "cir.bit_or"),
        (ArithBinary::BitXor, "cir.bit_xor"), (ArithBinary::Shl, "cir.shl"), (ArithBinary::Shr, "cir.shr"),
        (ArithBinary::ShrS, "cir.shr_s"),
    ];
    for (k, name) in kinds {
        assert_eq!(binary_op::<u32, u32>(k, 5, 6, I32).name, name);
    }
    assert_eq!(unary_op::<u32, u32>(ArithUnary::Neg, 7, I32).name, "cir.neg");
    assert_eq!(unary_op::<u32, u32>(ArithUnary::Negf, 7, I32).name, "cir.negf");
    assert_eq!(unary_op::<u32, u32>(ArithUnary::BitNot, 7, I32).name, "cir.bit_not");
}

#[test]
fn neg_op() {
    let op = unary_op::<u32, u32>(ArithUnary::Neg, 9, I32);
    assert_eq!(op.operands, vec![9]);
    assert_eq!(op.result_types, vec![I32]);
}

#[test]
fn sextend_op() {
    // i8 value sign-extended to i32: the result type is the given one
    let op = cast_op::<u32, u32>(ArithCast::Extsi, 3, I32);
    assert_eq!(op.name, "cir.extsi");
    assert_eq!(op.operands, vec![3]);
    assert_eq!(op.result_types, vec![I32]);
    assert_ne!(op.result_types, vec![I8]);
    assert_eq!(cast_op::<u32, u32>(ArithCast::Fptosi, 3, I32).name, "cir.fptosi");
    assert_eq!(cast_op::<u32, u32>(ArithCast::Truncf, 3, I32).name, "cir.truncf");
}

#[test]
fn cmp_select_ops() {
    // cmp(20, 10, eq) -> i1; select(cmp, 1, 42)
    let cmp = cmp_op::<u32, u32>(IntPredicate::Eq, 20, 10, I1);
    assert_eq!(cmp.name, "cir.cmp");
    assert_eq!(cmp.operands, vec![20, 10]);
    assert_eq!(cmp.result_types, vec![I1]);
    assert_eq!(cmp.attributes, vec![NamedAttr { name: "predicate", value: Attr::Integer { value: 0, ty: I1 } }]);
    let sel = select_op::<u32, u32>(77, 1, 42, I32);
    assert_eq!(sel.name, "cir.select");
    assert_eq!(sel.operands, vec![77, 1, 42]);
    assert_eq!(sel.result_types, vec![I32]);
}

#[test]
fn cmpf_stores_predicate_number() {
    let op = cmpf_op::<u32, u32>(FloatPredicate::Uno, 1, 2, I1);
    assert_eq!(op.name, "cir.cmpf");
    assert_eq!(op.attributes[0].value, Attr::Integer { value: 13, ty: I1 });
    assert_eq!(FloatPredicate::Ule.code(), 11);
    assert_eq!(IntPredicate::Uge.code(), 9);
}

#[test]
fn predicate_codes_round_trip() {
    let ints = [
        IntPredicate::Eq, IntPredicate::Ne, IntPredicate::Slt, IntPredicate::Sle, IntPredicate::Sgt,
        IntPredicate::Sge, IntPredicate::Ult, IntPredicate::Ule, IntPredicate::Ugt, IntPredicate::Uge,
    ];
    for (i, p) in ints.iter().enumerate() {
        assert_eq!(p.code(), i as i64);
        assert_eq!(IntPredicate::from_code(p.code()), Some(*p));
    }
    assert_eq!(IntPredicate::from_code(10), None);
    assert_eq!(IntPredicate::from_code(-1), None);
    assert_eq!(FloatPredicate::from_code(13), Some(FloatPredicate::Uno));
    assert_eq!(FloatPredicate::from_code(14), None);
}

#[test]
fn int_predicates_map_to_condition_codes() {
    assert_eq!(map_int_predicate(0), Ok(IntCondCode::Equal));
    assert_eq!(map_int_predicate(2), Ok(IntCondCode::SignedLessThan));
    assert_eq!(map_int_predicate(5), Ok(IntCondCode::SignedGreaterThanOrEqual));
    assert_eq!(map_int_predicate(7), Ok(IntCondCode::UnsignedLessThanOrEqual));
    assert_eq!(map_int_predicate(9), Ok(IntCondCode::UnsignedGreaterThanOrEqual));
    assert_eq!(map_int_predicate(IntPredicate::Ugt.code()), Ok(IntCondCode::UnsignedGreaterThan));
}

#[test]
fn float_predicates_map_to_condition_codes() {
    assert_eq!(map_float_predicate(0), Ok(FloatCondCode::Equal));
    assert_eq!(map_float_predicate(1), Ok(FloatCondCode::GreaterThan));
    assert_eq!(map_float_predicate(5), Ok(FloatCondCode::OrderedNotEqual));
    assert_eq!(map_float_predicate(6), Ok(FloatCondCode::Ordered));
    assert_eq!(map_float_predicate(7), Ok(FloatCondCode::UnorderedOrEqual));
    assert_eq!(map_float_predicate(12), Ok(FloatCondCode::NotEqual));
    assert_eq!(map_float_predicate(13), Ok(FloatCondCode::Unordered));
}

#[test]
fn unknown_predicates_are_errors() {
    assert_eq!(map_int_predicate(10), Err("cir.cmp: unknown predicate 10".to_string()));
    assert_eq!(map_int_predicate(-3), Err("cir.cmp: unknown predicate -3".to_string()));
    assert_eq!(map_float_predicate(14), Err("cir.cmpf: unknown predicate 14".to_string()));
    assert_eq!(
        map_float_predicate(i64::MIN),
        Err("cir.cmpf: unknown predicate -9223372036854775808".to_string())
    );
}

#[test]
fn lowering_steps() {
    let l = ArithLowering;
    assert_eq!(l.name(), "arith");
    assert_eq!(l.lower_step("cir.constant"), Some(ArithStep::Constant));
    assert_eq!(l.lower_step("cir.add"), Some(ArithStep::PolyBin(PolyBin::Add)));
    assert_eq!(l.lower_step("cir.mul"), Some(ArithStep::PolyBin(PolyBin::Mul)));
    assert_eq!(l.lower_step("cir.divsi"), Some(ArithStep::IntBin(IntBin::Sdiv)));
    assert_eq!(l.lower_step("cir.remui"), Some(ArithStep::IntBin(IntBin::Urem)));
    assert_eq!(l.lower_step("cir.bit_and"), Some(ArithStep::IntBin(IntBin::Band)));
    assert_eq!(l.lower_step("cir.shl"), Some(ArithStep::IntBin(IntBin::Ishl)));
    assert_eq!(l.lower_step("cir.shr"), Some(ArithStep::IntBin(IntBin::Ushr)));
    assert_eq!(l.lower_step("cir.shr_s"), Some(ArithStep::IntBin(IntBin::Sshr)));
    assert_eq!(l.lower_step("cir.divf"), Some(ArithStep::FloatBin(FloatBin::Fdiv)));
    assert_eq!(l.lower_step("cir.remf"), Some(ArithStep::Remf));
    assert_eq!(l.lower_step("cir.neg"), Some(ArithStep::Unary(UnaryOp::Ineg)));
    assert_eq!(l.lower_step("cir.bit_not"), Some(ArithStep::Unary(UnaryOp::Bnot)));
    assert_eq!(l.lower_step("cir.cmpf"), Some(ArithStep::Cmpf));
    assert_eq!(l.lower_step("cir.select"), Some(ArithStep::Select));
    assert_eq!(l.lower_step("cir.extsi"), Some(ArithStep::Cast(Cast::Sextend)));
    assert_eq!(l.lower_step("cir.fptosi"), Some(ArithStep::Cast(Cast::FcvtToSintSat)));
    assert_eq!(l.lower_step("cir.truncf"), Some(ArithStep::Cast(Cast::Fdemote)));
    assert_eq!(l.lower_step("cir.wrap_result"), None);
    assert_eq!(l.lower_step(""), None);
}

#[test]
fn lowering_covers_every_registered_op() {
    let l = ArithLowering;
    let d = register_ops();
    for def in &d.ops {
        assert!(l.lower_step(def.name).is_some(), "{} has no lowering", def.name);
    }
    assert_eq!(step_of(ArithOp::Extf), ArithStep::Cast(Cast::Fpromote));
}

#[test]
fn constant_lowering_decisions() {
    assert_eq!(constant_lowering(ConstantValue::Integer, None), Ok(ConstantLowering::IntConst));
    assert_eq!(constant_lowering(ConstantValue::Integer, Some(64)), Ok(ConstantLowering::IntConst));
    assert_eq!(constant_lowering(ConstantValue::Float, Some(32)), Ok(ConstantLowering::F32Const));
    assert_eq!(constant_lowering(ConstantValue::Float, Some(64)), Ok(ConstantLowering::F64Const));
    assert_eq!(
        constant_lowering(ConstantValue::Float, Some(16)),
        Err("cir.constant: unsupported float width".to_string())
    );
    assert_eq!(
        constant_lowering(ConstantValue::Float, None),
        Err("cir.constant: unsupported float width".to_string())
    );
    assert_eq!(
        constant_lowering(ConstantValue::Other, Some(32)),
        Err("cir.constant: missing or unsupported 'value' attribute".to_string())
    );
}
