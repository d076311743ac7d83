use wasmi_v1::numeric::{arity, order32, order64, popcount, truncate32, truncate64, Order, Truncated};
use wasmi_v1::{evaluate, Evaluation, Instruction, TrapCode, UntypedValue, Value, ValueType, F32, F64};

fn i32s(inst: Instruction, lhs: i32, rhs: i32) -> Evaluation {
    evaluate(inst, UntypedValue::from_i32(lhs), UntypedValue::from_i32(rhs))
}

fn i64s(inst: Instruction, lhs: i64, rhs: i64) -> Evaluation {
    evaluate(inst, UntypedValue::from_i64(lhs), UntypedValue::from_i64(rhs))
}

fn f32s(inst: Instruction, lhs: f32, rhs: f32) -> Evaluation {
    evaluate(
        inst,
        UntypedValue::from_u32(lhs.to_bits()),
        UntypedValue::from_u32(rhs.to_bits()),
    )
}

fn f64s(inst: Instruction, lhs: f64, rhs: f64) -> Evaluation {
    evaluate(
        inst,
        UntypedValue::from_u64(lhs.to_bits()),
        UntypedValue::from_u64(rhs.to_bits()),
    )
}

fn value32(value: i32) -> Evaluation {
    Evaluation::Value(UntypedValue::from_i32(value))
}

fn value64(value: i64) -> Evaluation {
    Evaluation::Value(UntypedValue::from_i64(value))
}

#[test]
fn signed_division_of_the_least_number_by_minus_one_overflows() {
    assert_eq!(
        i32s(Instruction::I32DivS, i32::MIN, -1),
        Evaluation::Trap(TrapCode::IntegerOverflow)
    );
    assert_eq!(
        i64s(Instruction::I64DivS, i64::MIN, -1),
        Evaluation::Trap(TrapCode::IntegerOverflow)
    );
}

#[test]
fn division_by_zero_traps() {
    for x in [0, 1, -1, 7, i32::MIN, i32::MAX] {
        assert_eq!(
            i32s(Instruction::I32DivU, x, 0),
            Evaluation::Trap(TrapCode::DivisionByZero)
        );
        assert_eq!(
            i32s(Instruction::I32DivS, x, 0),
            Evaluation::Trap(TrapCode::DivisionByZero)
        );
        assert_eq!(
            i32s(Instruction::I32RemU, x, 0),
            Evaluation::Trap(TrapCode::DivisionByZero)
        );
        assert_eq!(
            i32s(Instruction::I32RemS, x, 0),
            Evaluation::Trap(TrapCode::DivisionByZero)
        );
    }
    assert_eq!(
        i64s(Instruction::I64DivU, 5, 0),
        Evaluation::Trap(TrapCode::DivisionByZero)
    );
    assert_eq!(
        i64s(Instruction::I64RemS, 5, 0),
        Evaluation::Trap(TrapCode::DivisionByZero)
    );
}

#[test]
fn signed_division_rounds_towards_zero() {
    assert_eq!(i32s(Instruction::I32DivS, 7, 2), value32(3));
    assert_eq!(i32s(Instruction::I32DivS, -7, 2), value32(-3));
    assert_eq!(i32s(Instruction::I32DivS, 7, -2), value32(-3));
    assert_eq!(i32s(Instruction::I32DivS, -7, -2), value32(3));
    assert_eq!(i32s(Instruction::I32RemS, 7, 2), value32(1));
    assert_eq!(i32s(Instruction::I32RemS, -7, 2), value32(-1));
    assert_eq!(i32s(Instruction::I32RemS, 7, -2), value32(1));
    assert_eq!(i32s(Instruction::I32RemS, -7, -2), value32(-1));
    assert_eq!(i32s(Instruction::I32RemS, i32::MIN, -1), value32(0));
    assert_eq!(i64s(Instruction::I64RemS, i64::MIN, -1), value64(0));
    assert_eq!(i64s(Instruction::I64DivS, -9, 4), value64(-2));
}

#[test]
fn unsigned_division_reads_the_operands_as_unsigned() {
    assert_eq!(
        i32s(Instruction::I32DivU, -1, 2),
        value32(0x7fff_ffff)
    );
    assert_eq!(i32s(Instruction::I32RemU, -1, 16), value32(15));
    assert_eq!(
        i64s(Instruction::I64DivU, -1, 2),
        value64(0x7fff_ffff_ffff_ffff)
    );
}

#[test]
fn integer_arithmetic_wraps_around() {
    assert_eq!(i32s(Instruction::I32Add, i32::MAX, 1), value32(i32::MIN));
    assert_eq!(i32s(Instruction::I32Sub, i32::MIN, 1), value32(i32::MAX));
    assert_eq!(i32s(Instruction::I32Mul, 0x1_0000, 0x1_0000), value32(0));
    assert_eq!(i64s(Instruction::I64Add, i64::MAX, 1), value64(i64::MIN));
    assert_eq!(i64s(Instruction::I64Mul, 3, -4), value64(-12));
    assert_eq!(i32s(Instruction::I32Add, 1, 2), value32(3));
}

#[test]
fn shifts_take_the_count_modulo_the_width() {
    assert_eq!(i32s(Instruction::I32Shl, 1, 33), value32(2));
    assert_eq!(i32s(Instruction::I32ShrU, -1, 31), value32(1));
    assert_eq!(i32s(Instruction::I32ShrS, -8, 1), value32(-4));
    assert_eq!(i32s(Instruction::I32ShrS, -8, 33), value32(-4));
    assert_eq!(i64s(Instruction::I64Shl, 1, 65), value64(2));
    assert_eq!(i64s(Instruction::I64ShrS, -8, 2), value64(-2));
    assert_eq!(i64s(Instruction::I64ShrU, -1, 63), value64(1));
}

#[test]
fn rotations_move_bits_around_the_word() {
    assert_eq!(
        i32s(Instruction::I32Rotl, 0x8000_0001u32 as i32, 1),
        value32(3)
    );
    assert_eq!(
        i32s(Instruction::I32Rotr, 3, 1),
        value32(0x8000_0001u32 as i32)
    );
    assert_eq!(i32s(Instruction::I32Rotl, 0x1234_5678, 32), value32(0x1234_5678));
    assert_eq!(i32s(Instruction::I32Rotl, 0x1234_5678, 0), value32(0x1234_5678));
    assert_eq!(
        i64s(Instruction::I64Rotl, 0x8000_0000_0000_0001u64 as i64, 4),
        value64(0x18)
    );
    assert_eq!(
        i64s(Instruction::I64Rotr, 0x18, 4),
        value64(0x8000_0000_0000_0001u64 as i64)
    );
    for (x, n) in [(0xdead_beefu32, 7u32), (1, 31), (0xffff_0000, 16), (5, 100)] {
        assert_eq!(
            i32s(Instruction::I32Rotl, x as i32, n as i32),
            value32(x.rotate_left(n) as i32)
        );
        assert_eq!(
            i32s(Instruction::I32Rotr, x as i32, n as i32),
            value32(x.rotate_right(n) as i32)
        );
    }
}

#[test]
fn bits_are_counted() {
    assert_eq!(i32s(Instruction::I32Clz, 0, 0), value32(32));
    assert_eq!(i32s(Instruction::I32Clz, 1, 0), value32(31));
    assert_eq!(i32s(Instruction::I32Clz, -1, 0), value32(0));
    assert_eq!(i32s(Instruction::I32Ctz, 0, 0), value32(32));
    assert_eq!(i32s(Instruction::I32Ctz, 8, 0), value32(3));
    assert_eq!(i32s(Instruction::I32Popcnt, -1, 0), value32(32));
    assert_eq!(i32s(Instruction::I32Popcnt, 0x0101, 0), value32(2));
    assert_eq!(i64s(Instruction::I64Clz, 0, 0), value64(64));
    assert_eq!(i64s(Instruction::I64Clz, 1, 0), value64(63));
    assert_eq!(i64s(Instruction::I64Ctz, 0, 0), value64(64));
    assert_eq!(i64s(Instruction::I64Popcnt, -1, 0), value64(64));
    assert_eq!(popcount(0), 0);
    assert_eq!(popcount(u64::MAX), 64);
    assert_eq!(popcount(0xf0f0), 8);
}

#[test]
fn comparisons_yield_one_or_zero() {
    assert_eq!(i32s(Instruction::I32Eqz, 0, 0), value32(1));
    assert_eq!(i32s(Instruction::I32Eqz, 5, 5), value32(0));
    assert_eq!(i32s(Instruction::I32LtS, -1, 0), value32(1));
    assert_eq!(i32s(Instruction::I32LtU, -1, 0), value32(0));
    assert_eq!(i32s(Instruction::I32GtS, -1, 0), value32(0));
    assert_eq!(i32s(Instruction::I32GtU, -1, 0), value32(1));
    assert_eq!(i32s(Instruction::I32LeS, 3, 3), value32(1));
    assert_eq!(i32s(Instruction::I32GeU, 2, 3), value32(0));
    assert_eq!(i32s(Instruction::I32Ne, 2, 3), value32(1));
    assert_eq!(i64s(Instruction::I64Eq, 2, 2), value32(1));
    assert_eq!(i64s(Instruction::I64LtS, i64::MIN, 0), value32(1));
    assert_eq!(i64s(Instruction::I64LtU, i64::MIN, 0), value32(0));
    assert_eq!(i64s(Instruction::I64Eqz, 0, 0), value32(1));
}

#[test]
fn widths_are_changed() {
    assert_eq!(
        evaluate(
            Instruction::I32WrapI64,
            UntypedValue::from_i64(0x1_2345_6789),
            UntypedValue::from_i64(0)
        ),
        value32(0x2345_6789)
    );
    assert_eq!(i32s(Instruction::I64ExtendI32S, -1, 0), value64(-1));
    assert_eq!(i32s(Instruction::I64ExtendI32U, -1, 0), value64(0xffff_ffff));
    assert_eq!(i32s(Instruction::I32Extend8S, 0x80, 0), value32(-128));
    assert_eq!(i32s(Instruction::I32Extend8S, 0x17f, 0), value32(127));
    assert_eq!(i32s(Instruction::I32Extend16S, 0x8000, 0), value32(-32768));
    assert_eq!(i64s(Instruction::I64Extend8S, 0xff, 0), value64(-1));
    assert_eq!(i64s(Instruction::I64Extend16S, 0x7fff, 0), value64(0x7fff));
    assert_eq!(i64s(Instruction::I64Extend32S, 0x8000_0000, 0), value64(i32::MIN as i64));
}

#[test]
fn nan_is_no_integer() {
    assert_eq!(
        f32s(Instruction::I32TruncF32S, f32::NAN, 0.0),
        Evaluation::Trap(TrapCode::InvalidConversionToInt)
    );
    assert_eq!(f32s(Instruction::I32TruncSatF32S, f32::NAN, 0.0), value32(0));
    assert_eq!(
        f64s(Instruction::I64TruncF64U, f64::NAN, 0.0),
        Evaluation::Trap(TrapCode::InvalidConversionToInt)
    );
    assert_eq!(f64s(Instruction::I64TruncSatF64U, f64::NAN, 0.0), value64(0));
    assert_eq!(
        f32s(Instruction::I32TruncF32S, f32::INFINITY, 0.0),
        Evaluation::Trap(TrapCode::InvalidConversionToInt)
    );
    assert_eq!(
        f64s(Instruction::I32TruncF64U, f64::NEG_INFINITY, 0.0),
        Evaluation::Trap(TrapCode::InvalidConversionToInt)
    );
}

#[test]
fn floats_are_truncated_towards_zero() {
    assert_eq!(f32s(Instruction::I32TruncF32S, 1.9, 0.0), value32(1));
    assert_eq!(f32s(Instruction::I32TruncF32S, -1.9, 0.0), value32(-1));
    assert_eq!(f32s(Instruction::I32TruncF32S, 0.99, 0.0), value32(0));
    assert_eq!(f32s(Instruction::I32TruncF32U, -0.99, 0.0), value32(0));
    assert_eq!(f32s(Instruction::I32TruncF32S, -2147483648.0, 0.0), value32(i32::MIN));
    assert_eq!(
        f32s(Instruction::I32TruncF32S, 2147483648.0, 0.0),
        Evaluation::Trap(TrapCode::IntegerOverflow)
    );
    assert_eq!(
        f32s(Instruction::I32TruncF32U, -1.0, 0.0),
        Evaluation::Trap(TrapCode::IntegerOverflow)
    );
    assert_eq!(
        f32s(Instruction::I32TruncF32U, 4294967040.0, 0.0),
        value32(4294967040u32 as i32)
    );
    assert_eq!(f64s(Instruction::I32TruncF64S, 2147483647.9, 0.0), value32(i32::MAX));
    assert_eq!(
        f64s(Instruction::I32TruncF64S, 2147483648.0, 0.0),
        Evaluation::Trap(TrapCode::IntegerOverflow)
    );
    assert_eq!(f64s(Instruction::I64TruncF64S, -9007199254740993.0, 0.0), value64(-9007199254740992));
    assert_eq!(f64s(Instruction::I64TruncF64S, 1e18, 0.0), value64(1_000_000_000_000_000_000));
    assert_eq!(
        f64s(Instruction::I64TruncF64S, 1e19, 0.0),
        Evaluation::Trap(TrapCode::IntegerOverflow)
    );
    assert_eq!(
        f64s(Instruction::I64TruncF64U, 1e19, 0.0),
        value64(10_000_000_000_000_000_000u64 as i64)
    );
    assert_eq!(
        f64s(Instruction::I64TruncF64U, 1e20, 0.0),
        Evaluation::Trap(TrapCode::IntegerOverflow)
    );
    assert_eq!(f32s(Instruction::I64TruncF32S, 3e9, 0.0), value64(3_000_000_000));
    for x in [0.0f64, 0.5, 1.0, 1.5, 123456.789, -77.7, 4e9, -4e9, 1e15, 2.0f64.powi(62)] {
        assert_eq!(f64s(Instruction::I64TruncF64S, x, 0.0), value64(x as i64));
        assert_eq!(f64s(Instruction::I64TruncSatF64S, x, 0.0), value64(x as i64));
        assert_eq!(f64s(Instruction::I32TruncSatF64S, x, 0.0), value32(x as i32));
        assert_eq!(f64s(Instruction::I32TruncSatF64U, x, 0.0), value32((x as u32) as i32));
        assert_eq!(f32s(Instruction::I64TruncSatF32U, x as f32, 0.0), value64(((x as f32) as u64) as i64));
    }
}

#[test]
fn saturating_conversions_stop_at_the_limits() {
    assert_eq!(f32s(Instruction::I32TruncSatF32S, 3e10, 0.0), value32(i32::MAX));
    assert_eq!(f32s(Instruction::I32TruncSatF32S, -3e10, 0.0), value32(i32::MIN));
    assert_eq!(f32s(Instruction::I32TruncSatF32U, -1.0, 0.0), value32(0));
    assert_eq!(f32s(Instruction::I32TruncSatF32U, 1e30, 0.0), value32(-1));
    assert_eq!(f32s(Instruction::I32TruncSatF32S, f32::INFINITY, 0.0), value32(i32::MAX));
    assert_eq!(f32s(Instruction::I32TruncSatF32S, f32::NEG_INFINITY, 0.0), value32(i32::MIN));
    assert_eq!(f64s(Instruction::I64TruncSatF64S, 1e300, 0.0), value64(i64::MAX));
    assert_eq!(f64s(Instruction::I64TruncSatF64S, -1e300, 0.0), value64(i64::MIN));
    assert_eq!(f64s(Instruction::I64TruncSatF64U, f64::INFINITY, 0.0), value64(-1));
    assert_eq!(f64s(Instruction::I64TruncSatF64U, f64::NEG_INFINITY, 0.0), value64(0));
}

#[test]
fn truncation_reads_the_bit_pattern() {
    assert_eq!(truncate32(f32::NAN.to_bits()), Truncated::Nan);
    assert_eq!(truncate32(0x7f80_0001), Truncated::Nan);
    assert_eq!(truncate32(0xff80_0000), Truncated::Infinite { negative: true });
    assert_eq!(
        truncate32(1.5f32.to_bits()),
        Truncated::Integer { negative: false, magnitude: 1 }
    );
    assert_eq!(
        truncate32((-0.0f32).to_bits()),
        Truncated::Integer { negative: true, magnitude: 0 }
    );
    assert_eq!(
        truncate32(f32::MAX.to_bits()),
        Truncated::Huge { negative: false }
    );
    assert_eq!(
        truncate64((-1e19f64).to_bits()),
        Truncated::Integer { negative: true, magnitude: 10_000_000_000_000_000_000 }
    );
    assert_eq!(truncate64(f64::MIN.to_bits()), Truncated::Huge { negative: true });
    assert_eq!(
        truncate64(5e-324f64.to_bits()),
        Truncated::Integer { negative: false, magnitude: 0 }
    );
}

#[test]
fn floats_are_compared_by_value() {
    assert_eq!(order32(1.0f32.to_bits(), 2.0f32.to_bits()), Order::Less);
    assert_eq!(order32((-1.0f32).to_bits(), (-2.0f32).to_bits()), Order::Greater);
    assert_eq!(order32((-0.0f32).to_bits(), 0.0f32.to_bits()), Order::Equal);
    assert_eq!(order32(f32::NAN.to_bits(), 0.0f32.to_bits()), Order::Unordered);
    assert_eq!(order64(f64::NEG_INFINITY.to_bits(), f64::MIN.to_bits()), Order::Less);
    assert_eq!(order64(f64::INFINITY.to_bits(), f64::INFINITY.to_bits()), Order::Equal);
    assert_eq!(order64(1.0f64.to_bits(), f64::NAN.to_bits()), Order::Unordered);
    let samples = [
        0.0f64, -0.0, 1.0, -1.0, 0.5, -0.5, 1e300, -1e300, 5e-324, -5e-324,
        f64::INFINITY, f64::NEG_INFINITY, f64::NAN,
    ];
    for a in samples {
        for b in samples {
            assert_eq!(f64s(Instruction::F64Eq, a, b), value32((a == b) as i32));
            assert_eq!(f64s(Instruction::F64Ne, a, b), value32((a != b) as i32));
            assert_eq!(f64s(Instruction::F64Lt, a, b), value32((a < b) as i32));
            assert_eq!(f64s(Instruction::F64Gt, a, b), value32((a > b) as i32));
            assert_eq!(f64s(Instruction::F64Le, a, b), value32((a <= b) as i32));
            assert_eq!(f64s(Instruction::F64Ge, a, b), value32((a >= b) as i32));
            let (x, y) = (a as f32, b as f32);
            assert_eq!(f32s(Instruction::F32Eq, x, y), value32((x == y) as i32));
            assert_eq!(f32s(Instruction::F32Ne, x, y), value32((x != y) as i32));
            assert_eq!(f32s(Instruction::F32Lt, x, y), value32((x < y) as i32));
            assert_eq!(f32s(Instruction::F32Gt, x, y), value32((x > y) as i32));
            assert_eq!(f32s(Instruction::F32Le, x, y), value32((x <= y) as i32));
            assert_eq!(f32s(Instruction::F32Ge, x, y), value32((x >= y) as i32));
        }
    }
}

#[test]
fn sign_operators_keep_nan_payloads() {
    let nan = 0x7fc1_2345u32;
    assert_eq!(
        evaluate(Instruction::F32Neg, UntypedValue::from_u32(nan), UntypedValue::from_u32(0)),
        Evaluation::Value(UntypedValue::from_u32(0xffc1_2345))
    );
    assert_eq!(
        evaluate(Instruction::F32Abs, UntypedValue::from_u32(0xffc1_2345), UntypedValue::from_u32(0)),
        Evaluation::Value(UntypedValue::from_u32(nan))
    );
    assert_eq!(
        evaluate(
            Instruction::F32Copysign,
            UntypedValue::from_u32(nan),
            UntypedValue::from_u32((-1.0f32).to_bits())
        ),
        Evaluation::Value(UntypedValue::from_u32(0xffc1_2345))
    );
    let nan = 0x7ff8_0000_dead_beefu64;
    assert_eq!(
        evaluate(Instruction::F64Neg, UntypedValue::from_u64(nan), UntypedValue::from_u64(0)),
        Evaluation::Value(UntypedValue::from_u64(0xfff8_0000_dead_beef))
    );
    assert_eq!(
        evaluate(Instruction::F64Abs, UntypedValue::from_u64(0xfff8_0000_dead_beef), UntypedValue::from_u64(0)),
        Evaluation::Value(UntypedValue::from_u64(nan))
    );
    assert_eq!(
        evaluate(
            Instruction::F64Copysign,
            UntypedValue::from_u64(2.5f64.to_bits()),
            UntypedValue::from_u64((-0.0f64).to_bits())
        ),
        Evaluation::Value(UntypedValue::from_u64((-2.5f64).to_bits()))
    );
}

#[test]
fn reinterpreting_preserves_every_bit() {
    for bits in [0u64, 1, 0x7ff8_0000_0000_0001, 0xfff0_0000_0000_0000, u64::MAX, 0x7ff0_0000_dead_beef] {
        let as_int = evaluate(
            Instruction::I64ReinterpretF64,
            UntypedValue::from_f64(F64::from_bits(bits)),
            UntypedValue::from_u64(0),
        );
        let Evaluation::Value(word) = as_int else { panic!("no value") };
        assert_eq!(word.to_i64(), bits as i64);
        let back = evaluate(Instruction::F64ReinterpretI64, word, UntypedValue::from_u64(0));
        assert_eq!(back, Evaluation::Value(UntypedValue::from_u64(bits)));
        assert_eq!(word.to_f64().to_bits(), bits);
    }
    for bits in [0u32, 0x7fc0_0001, 0xffff_ffff, 0x8000_0000] {
        let as_int = evaluate(
            Instruction::I32ReinterpretF32,
            UntypedValue::from_f32(F32::from_bits(bits)),
            UntypedValue::from_u64(0),
        );
        assert_eq!(as_int, Evaluation::Value(UntypedValue::from_u32(bits)));
        let back = evaluate(
            Instruction::F32ReinterpretI32,
            UntypedValue::from_i32(bits as i32),
            UntypedValue::from_u64(0),
        );
        assert_eq!(back, Evaluation::Value(UntypedValue::from_u32(bits)));
    }
}

#[test]
fn rounding_operators_are_left_to_the_float_unit() {
    assert_eq!(f32s(Instruction::F32Add, 1.0, 2.0), Evaluation::Float);
    assert_eq!(f64s(Instruction::F64Sqrt, 4.0, 0.0), Evaluation::Float);
    assert_eq!(i32s(Instruction::F64ConvertI32S, 1, 0), Evaluation::Float);
    assert_eq!(f32s(Instruction::F64PromoteF32, 1.0, 0.0), Evaluation::Float);
}

#[test]
fn every_numeric_instruction_has_an_arity() {
    assert_eq!(arity(Instruction::I32Add), Some(2));
    assert_eq!(arity(Instruction::I32Eqz), Some(1));
    assert_eq!(arity(Instruction::F64Lt), Some(2));
    assert_eq!(arity(Instruction::F32Sqrt), Some(1));
    assert_eq!(arity(Instruction::I64TruncSatF64U), Some(1));
    assert_eq!(arity(Instruction::Drop), None);
    assert_eq!(arity(Instruction::I32Const(1)), None);
}

#[test]
fn words_hold_values_of_every_type() {
    let values = [
        Value::I32(-1),
        Value::I32(i32::MIN),
        Value::I64(-1),
        Value::I64(i64::MAX),
        Value::F32(F32::from_bits(0x7fc0_0001)),
        Value::F64(F64::from_bits(0xfff8_0000_0000_0001)),
    ];
    for value in values {
        let word = UntypedValue::from_value(value);
        assert_eq!(word.to_value(value.value_type()), value);
    }
    assert_eq!(UntypedValue::from_i32(-1).to_u64(), 0xffff_ffff);
    assert_eq!(UntypedValue::from_i64(-1).to_i32(), -1);
    assert_eq!(UntypedValue::from_bool(true).to_u32(), 1);
    assert_eq!(Value::default_of(ValueType::F64), Value::F64(F64::from_bits(0)));
    assert_eq!(Value::I64(3).value_type(), ValueType::I64);
}
