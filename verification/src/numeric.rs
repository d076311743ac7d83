//! The numeric instructions: what each of them computes from its operands.

use crate::engine::bytecode::Instruction;
use crate::trap::TrapCode;
use crate::untyped::UntypedValue;
use vstd::prelude::*;
use vstd::arithmetic::power2::{
    lemma2_to64, lemma2_to64_rest, lemma_pow2_strictly_increases, pow2,
};
use vstd::bits::{lemma_u64_shl_is_mul, lemma_u64_shr_is_div};
use vstd::std_specs::bits::u64_leading_zeros;

verus! {

/// What a numeric instruction yields.
#[derive(Clone, Copy, Debug, PartialEq, Eq, Structural)]
pub enum Evaluation {
    /// The instruction has this result.
    Value(UntypedValue),
    /// The instruction traps.
    Trap(TrapCode),
    /// The instruction computes with floating point numbers: its result is
    /// up to the float unit of the embedder.
    Float,
}

/// The number of one bits of `x`.
pub open spec fn spec_popcount(x: u64) -> u32
    decreases x,
{
    if x == 0 {
        0
    } else {
        ((x % 2) + spec_popcount(x / 2)) as u32
    }
}

/// A word has at most 64 one bits, and as many as its halves have together.
pub proof fn lemma_popcount_bound(x: u64, width: nat)
    requires
        x < pow2_bound(width),
    ensures
        spec_popcount(x) <= width,
    decreases width,
{
    if x != 0 {
        lemma_popcount_bound(x / 2, (width - 1) as nat);
    }
}

/// Two to the power of `width`.
pub open spec fn pow2_bound(width: nat) -> nat
    decreases width,
{
    if width == 0 {
        1
    } else {
        2 * pow2_bound((width - 1) as nat)
    }
}

/// Returns the number of one bits of `x`.
#[verifier::when_used_as_spec(spec_popcount)]
pub fn popcount(x: u64) -> (count: u32)
    ensures
        count == spec_popcount(x),
        count <= 64,
{
    let mut rest = x;
    let mut count: u32 = 0;
    let mut steps: u32 = 0;
    proof {
        reveal_with_fuel(pow2_bound, 65);
        assert(pow2_bound(64) == 0x1_0000_0000_0000_0000);
    }
    while rest != 0
        invariant
            steps <= 64,
            count <= steps,
            rest < pow2_bound((64 - steps) as nat),
            spec_popcount(x) == count + spec_popcount(rest),
        decreases rest,
    {
        proof {
            if steps == 64 {
                assert(pow2_bound(0) == 1);
            }
            lemma_popcount_bound(rest / 2, (64 - steps - 1) as nat);
        }
        count = count + (rest % 2) as u32;
        rest = rest / 2;
        steps = steps + 1;
    }
    count
}

/// `x` rotated left by `n` bits, the count taken modulo 32.
pub open spec fn spec_rotl32(x: u32, n: u32) -> u32 {
    if n % 32 == 0 {
        x
    } else {
        (x << (n % 32)) | (x >> ((32 - n % 32) as u32))
    }
}

/// Returns `x` rotated left by `n` bits, the count taken modulo 32.
#[verifier::when_used_as_spec(spec_rotl32)]
pub fn rotl32(x: u32, n: u32) -> (rotated: u32)
    ensures
        rotated == spec_rotl32(x, n),
{
    let k = n % 32;
    if k == 0 {
        x
    } else {
        (x << k) | (x >> (32 - k))
    }
}

/// `x` rotated right by `n` bits, the count taken modulo 32.
pub open spec fn spec_rotr32(x: u32, n: u32) -> u32 {
    if n % 32 == 0 {
        x
    } else {
        (x >> (n % 32)) | (x << ((32 - n % 32) as u32))
    }
}

/// Returns `x` rotated right by `n` bits, the count taken modulo 32.
#[verifier::when_used_as_spec(spec_rotr32)]
pub fn rotr32(x: u32, n: u32) -> (rotated: u32)
    ensures
        rotated == spec_rotr32(x, n),
{
    let k = n % 32;
    if k == 0 {
        x
    } else {
        (x >> k) | (x << (32 - k))
    }
}

/// `x` rotated left by `n` bits, the count taken modulo 64.
pub open spec fn spec_rotl64(x: u64, n: u64) -> u64 {
    if n % 64 == 0 {
        x
    } else {
        (x << (n % 64)) | (x >> ((64 - n % 64) as u64))
    }
}

/// Returns `x` rotated left by `n` bits, the count taken modulo 64.
#[verifier::when_used_as_spec(spec_rotl64)]
pub fn rotl64(x: u64, n: u64) -> (rotated: u64)
    ensures
        rotated == spec_rotl64(x, n),
{
    let k = n % 64;
    if k == 0 {
        x
    } else {
        (x << k) | (x >> (64 - k))
    }
}

/// `x` rotated right by `n` bits, the count taken modulo 64.
pub open spec fn spec_rotr64(x: u64, n: u64) -> u64 {
    if n % 64 == 0 {
        x
    } else {
        (x >> (n % 64)) | (x << ((64 - n % 64) as u64))
    }
}

/// Returns `x` rotated right by `n` bits, the count taken modulo 64.
#[verifier::when_used_as_spec(spec_rotr64)]
pub fn rotr64(x: u64, n: u64) -> (rotated: u64)
    ensures
        rotated == spec_rotr64(x, n),
{
    let k = n % 64;
    if k == 0 {
        x
    } else {
        (x >> k) | (x << (64 - k))
    }
}

/// The quotient of a signed division that rounds towards zero: it traps on a
/// zero divisor, and on the one quotient that does not fit, that of the
/// least number by -1.
pub open spec fn spec_div_s32(x: i32, y: i32) -> Evaluation {
    match x.checked_div(y) {
        Some(quotient) => Evaluation::Value(UntypedValue::from_i32(quotient)),
        None => if y == 0 {
            Evaluation::Trap(TrapCode::DivisionByZero)
        } else {
            Evaluation::Trap(TrapCode::IntegerOverflow)
        },
    }
}

/// Returns the quotient of a signed division that rounds towards zero.
#[verifier::when_used_as_spec(spec_div_s32)]
pub fn div_s32(x: i32, y: i32) -> (result: Evaluation)
    ensures
        result == spec_div_s32(x, y),
{
    match x.checked_div(y) {
        Some(quotient) => Evaluation::Value(UntypedValue::from_i32(quotient)),
        None => if y == 0 {
            Evaluation::Trap(TrapCode::DivisionByZero)
        } else {
            Evaluation::Trap(TrapCode::IntegerOverflow)
        },
    }
}

/// The remainder of a signed division that rounds towards zero: it has the
/// sign of the dividend, traps on a zero divisor, and is zero for the least
/// number and -1.
pub open spec fn spec_rem_s32(x: i32, y: i32) -> Evaluation {
    if y == 0 {
        Evaluation::Trap(TrapCode::DivisionByZero)
    } else {
        match x.checked_rem(y) {
            Some(remainder) => Evaluation::Value(UntypedValue::from_i32(remainder)),
            None => Evaluation::Value(UntypedValue::from_i32(0)),
        }
    }
}

/// Returns the remainder of a signed division that rounds towards zero.
#[verifier::when_used_as_spec(spec_rem_s32)]
pub fn rem_s32(x: i32, y: i32) -> (result: Evaluation)
    ensures
        result == spec_rem_s32(x, y),
{
    if y == 0 {
        Evaluation::Trap(TrapCode::DivisionByZero)
    } else {
        match x.checked_rem(y) {
            Some(remainder) => Evaluation::Value(UntypedValue::from_i32(remainder)),
            None => Evaluation::Value(UntypedValue::from_i32(0)),
        }
    }
}

/// The quotient of an unsigned division, which traps on a zero divisor.
pub open spec fn spec_div_u32(x: u32, y: u32) -> Evaluation {
    if y == 0 {
        Evaluation::Trap(TrapCode::DivisionByZero)
    } else {
        Evaluation::Value(UntypedValue::from_u32(x / y))
    }
}

/// Returns the quotient of an unsigned division.
#[verifier::when_used_as_spec(spec_div_u32)]
pub fn div_u32(x: u32, y: u32) -> (result: Evaluation)
    ensures
        result == spec_div_u32(x, y),
{
    if y == 0 {
        Evaluation::Trap(TrapCode::DivisionByZero)
    } else {
        Evaluation::Value(UntypedValue::from_u32(x / y))
    }
}

/// The remainder of an unsigned division, which traps on a zero divisor.
pub open spec fn spec_rem_u32(x: u32, y: u32) -> Evaluation {
    if y == 0 {
        Evaluation::Trap(TrapCode::DivisionByZero)
    } else {
        Evaluation::Value(UntypedValue::from_u32(x % y))
    }
}

/// Returns the remainder of an unsigned division.
#[verifier::when_used_as_spec(spec_rem_u32)]
pub fn rem_u32(x: u32, y: u32) -> (result: Evaluation)
    ensures
        result == spec_rem_u32(x, y),
{
    if y == 0 {
        Evaluation::Trap(TrapCode::DivisionByZero)
    } else {
        Evaluation::Value(UntypedValue::from_u32(x % y))
    }
}

/// The quotient of a signed division that rounds towards zero: it traps on a
/// zero divisor, and on the one quotient that does not fit, that of the
/// least number by -1.
pub open spec fn spec_div_s64(x: i64, y: i64) -> Evaluation {
    match x.checked_div(y) {
        Some(quotient) => Evaluation::Value(UntypedValue::from_i64(quotient)),
        None => if y == 0 {
            Evaluation::Trap(TrapCode::DivisionByZero)
        } else {
            Evaluation::Trap(TrapCode::IntegerOverflow)
        },
    }
}

/// Returns the quotient of a signed division that rounds towards zero.
#[verifier::when_used_as_spec(spec_div_s64)]
pub fn div_s64(x: i64, y: i64) -> (result: Evaluation)
    ensures
        result == spec_div_s64(x, y),
{
    match x.checked_div(y) {
        Some(quotient) => Evaluation::Value(UntypedValue::from_i64(quotient)),
        None => if y == 0 {
            Evaluation::Trap(TrapCode::DivisionByZero)
        } else {
            Evaluation::Trap(TrapCode::IntegerOverflow)
        },
    }
}

/// The remainder of a signed division that rounds towards zero: it has the
/// sign of the dividend, traps on a zero divisor, and is zero for the least
/// number and -1.
pub open spec fn spec_rem_s64(x: i64, y: i64) -> Evaluation {
    if y == 0 {
        Evaluation::Trap(TrapCode::DivisionByZero)
    } else {
        match x.checked_rem(y) {
            Some(remainder) => Evaluation::Value(UntypedValue::from_i64(remainder)),
            None => Evaluation::Value(UntypedValue::from_i64(0)),
        }
    }
}

/// Returns the remainder of a signed division that rounds towards zero.
#[verifier::when_used_as_spec(spec_rem_s64)]
pub fn rem_s64(x: i64, y: i64) -> (result: Evaluation)
    ensures
        result == spec_rem_s64(x, y),
{
    if y == 0 {
        Evaluation::Trap(TrapCode::DivisionByZero)
    } else {
        match x.checked_rem(y) {
            Some(remainder) => Evaluation::Value(UntypedValue::from_i64(remainder)),
            None => Evaluation::Value(UntypedValue::from_i64(0)),
        }
    }
}

/// The quotient of an unsigned division, which traps on a zero divisor.
pub open spec fn spec_div_u64(x: u64, y: u64) -> Evaluation {
    if y == 0 {
        Evaluation::Trap(TrapCode::DivisionByZero)
    } else {
        Evaluation::Value(UntypedValue::from_u64(x / y))
    }
}

/// Returns the quotient of an unsigned division.
#[verifier::when_used_as_spec(spec_div_u64)]
pub fn div_u64(x: u64, y: u64) -> (result: Evaluation)
    ensures
        result == spec_div_u64(x, y),
{
    if y == 0 {
        Evaluation::Trap(TrapCode::DivisionByZero)
    } else {
        Evaluation::Value(UntypedValue::from_u64(x / y))
    }
}

/// The remainder of an unsigned division, which traps on a zero divisor.
pub open spec fn spec_rem_u64(x: u64, y: u64) -> Evaluation {
    if y == 0 {
        Evaluation::Trap(TrapCode::DivisionByZero)
    } else {
        Evaluation::Value(UntypedValue::from_u64(x % y))
    }
}

/// Returns the remainder of an unsigned division.
#[verifier::when_used_as_spec(spec_rem_u64)]
pub fn rem_u64(x: u64, y: u64) -> (result: Evaluation)
    ensures
        result == spec_rem_u64(x, y),
{
    if y == 0 {
        Evaluation::Trap(TrapCode::DivisionByZero)
    } else {
        Evaluation::Value(UntypedValue::from_u64(x % y))
    }
}

/// What is left of a float when its fraction is cut off.
#[derive(Clone, Copy, Debug, PartialEq, Eq, Structural)]
pub enum Truncated {
    /// The float is no number.
    Nan,
    /// The float is an infinity.
    Infinite { negative: bool },
    /// The float is finite and at least 2^64 in magnitude.
    Huge { negative: bool },
    /// The float is finite; this is its sign and the integer part of its
    /// magnitude.
    Integer { negative: bool, magnitude: u64 },
}

/// What is left of the `f32` with the given bit pattern when its fraction is
/// cut off.
///
/// The pattern has one sign bit, eight bits of exponent with a bias of 127 and
/// 23 bits of fraction. An exponent of all ones marks the infinities, with a
/// zero fraction, and the NaNs. Every other float has the magnitude
/// `significand * 2^(exponent - 127 - 23)`, where the significand is the
/// fraction with a leading one. Below an exponent of 127 the magnitude is
/// less than one.
pub open spec fn spec_truncate32(bits: u32) -> Truncated {
    let negative = bits >> 31 == 1;
    let exponent = (bits >> 23) & 0xff;
    let fraction = bits & 0x7f_ffff;
    if exponent == 0xff {
        if fraction != 0 {
            Truncated::Nan
        } else {
            Truncated::Infinite { negative }
        }
    } else if exponent < 127 {
        Truncated::Integer { negative, magnitude: 0 }
    } else if exponent >= 127 + 64 {
        Truncated::Huge { negative }
    } else {
        let significand = (fraction | 0x80_0000) as u64;
        Truncated::Integer {
            negative,
            magnitude: if exponent >= 127 + 23 {
                significand << ((exponent - 127 - 23) as u64)
            } else {
                significand >> ((127 + 23 - exponent) as u64)
            },
        }
    }
}

/// Returns what is left of the `f32` with the given bit pattern when its
/// fraction is cut off.
#[verifier::when_used_as_spec(spec_truncate32)]
pub fn truncate32(bits: u32) -> (truncated: Truncated)
    ensures
        truncated == spec_truncate32(bits),
{
    let negative = bits >> 31 == 1;
    let exponent = (bits >> 23) & 0xff;
    let fraction = bits & 0x7f_ffff;
    assert((bits >> 23) & 0xff <= 0xff) by (bit_vector);
    if exponent == 0xff {
        if fraction != 0 {
            Truncated::Nan
        } else {
            Truncated::Infinite { negative }
        }
    } else if exponent < 127 {
        Truncated::Integer { negative, magnitude: 0 }
    } else if exponent >= 127 + 64 {
        Truncated::Huge { negative }
    } else {
        let significand = (fraction | 0x80_0000) as u64;
        Truncated::Integer {
            negative,
            magnitude: if exponent >= 127 + 23 {
                significand << ((exponent - 127 - 23) as u64)
            } else {
                significand >> ((127 + 23 - exponent) as u64)
            },
        }
    }
}

/// What is left of the `f64` with the given bit pattern when its fraction is
/// cut off.
///
/// The pattern has one sign bit, eleven bits of exponent with a bias of 1023
/// and 52 bits of fraction; the rest is as for `f32`.
pub open spec fn spec_truncate64(bits: u64) -> Truncated {
    let negative = bits >> 63 == 1;
    let exponent = (bits >> 52) & 0x7ff;
    let fraction = bits & 0xf_ffff_ffff_ffff;
    if exponent == 0x7ff {
        if fraction != 0 {
            Truncated::Nan
        } else {
            Truncated::Infinite { negative }
        }
    } else if exponent < 1023 {
        Truncated::Integer { negative, magnitude: 0 }
    } else if exponent >= 1023 + 64 {
        Truncated::Huge { negative }
    } else {
        let significand = fraction | 0x10_0000_0000_0000;
        Truncated::Integer {
            negative,
            magnitude: if exponent >= 1023 + 52 {
                significand << ((exponent - 1023 - 52) as u64)
            } else {
                significand >> ((1023 + 52 - exponent) as u64)
            },
        }
    }
}

/// Returns what is left of the `f64` with the given bit pattern when its
/// fraction is cut off.
#[verifier::when_used_as_spec(spec_truncate64)]
pub fn truncate64(bits: u64) -> (truncated: Truncated)
    ensures
        truncated == spec_truncate64(bits),
{
    let negative = bits >> 63 == 1;
    let exponent = (bits >> 52) & 0x7ff;
    let fraction = bits & 0xf_ffff_ffff_ffff;
    assert((bits >> 52) & 0x7ff <= 0x7ff) by (bit_vector);
    if exponent == 0x7ff {
        if fraction != 0 {
            Truncated::Nan
        } else {
            Truncated::Infinite { negative }
        }
    } else if exponent < 1023 {
        Truncated::Integer { negative, magnitude: 0 }
    } else if exponent >= 1023 + 64 {
        Truncated::Huge { negative }
    } else {
        let significand = fraction | 0x10_0000_0000_0000;
        Truncated::Integer {
            negative,
            magnitude: if exponent >= 1023 + 52 {
                significand << (exponent - 1023 - 52)
            } else {
                significand >> (1023 + 52 - exponent)
            },
        }
    }
}

/// The integer types that a float can be converted to.
#[derive(Clone, Copy, Debug, PartialEq, Eq, Structural)]
pub enum IntType {
    /// Signed 32-bit integers.
    I32,
    /// Unsigned 32-bit integers.
    U32,
    /// Signed 64-bit integers.
    I64,
    /// Unsigned 64-bit integers.
    U64,
}

impl IntType {
    /// The greatest magnitude that a number of the given sign can have in
    /// this type.
    pub open spec fn spec_limit(self, negative: bool) -> u64 {
        match self {
            IntType::I32 => if negative {
                0x8000_0000
            } else {
                0x7fff_ffff
            },
            IntType::U32 => if negative {
                0
            } else {
                0xffff_ffff
            },
            IntType::I64 => if negative {
                0x8000_0000_0000_0000
            } else {
                0x7fff_ffff_ffff_ffff
            },
            IntType::U64 => if negative {
                0
            } else {
                0xffff_ffff_ffff_ffff
            },
        }
    }

    /// Returns the greatest magnitude that a number of the given sign can
    /// have in this type.
    #[verifier::when_used_as_spec(spec_limit)]
    pub fn limit(self, negative: bool) -> (limit: u64)
        ensures
            limit == self.spec_limit(negative),
    {
        match self {
            IntType::I32 => if negative {
                0x8000_0000
            } else {
                0x7fff_ffff
            },
            IntType::U32 => if negative {
                0
            } else {
                0xffff_ffff
            },
            IntType::I64 => if negative {
                0x8000_0000_0000_0000
            } else {
                0x7fff_ffff_ffff_ffff
            },
            IntType::U64 => if negative {
                0
            } else {
                0xffff_ffff_ffff_ffff
            },
        }
    }

    /// The word of the number with the given sign and magnitude, which must
    /// not exceed the limit: negative numbers are kept in two's complement
    /// at the width of the type.
    pub open spec fn spec_word(self, negative: bool, magnitude: u64) -> UntypedValue {
        match self {
            IntType::I32 | IntType::U32 => UntypedValue::from_u32(
                if negative {
                    0u32.wrapping_sub(magnitude as u32)
                } else {
                    magnitude as u32
                },
            ),
            IntType::I64 | IntType::U64 => UntypedValue::from_u64(
                if negative {
                    0u64.wrapping_sub(magnitude)
                } else {
                    magnitude
                },
            ),
        }
    }

    /// Returns the word of the number with the given sign and magnitude.
    #[verifier::when_used_as_spec(spec_word)]
    pub fn word(self, negative: bool, magnitude: u64) -> (word: UntypedValue)
        ensures
            word == self.spec_word(negative, magnitude),
    {
        match self {
            IntType::I32 | IntType::U32 => UntypedValue::from_u32(
                if negative {
                    0u32.wrapping_sub(magnitude as u32)
                } else {
                    magnitude as u32
                },
            ),
            IntType::I64 | IntType::U64 => UntypedValue::from_u64(
                if negative {
                    0u64.wrapping_sub(magnitude)
                } else {
                    magnitude
                },
            ),
        }
    }
}

/// The conversion of a float to an integer that traps where the float has no
/// integer: on a NaN or an infinity with
/// [`TrapCode::InvalidConversionToInt`], and with
/// [`TrapCode::IntegerOverflow`] where the integer part lies outside the
/// target type.
pub open spec fn spec_convert(truncated: Truncated, target: IntType) -> Evaluation {
    match truncated {
        Truncated::Nan => Evaluation::Trap(TrapCode::InvalidConversionToInt),
        Truncated::Infinite { .. } => Evaluation::Trap(TrapCode::InvalidConversionToInt),
        Truncated::Huge { .. } => Evaluation::Trap(TrapCode::IntegerOverflow),
        Truncated::Integer { negative, magnitude } => if magnitude <= target.limit(negative) {
            Evaluation::Value(target.word(negative, magnitude))
        } else {
            Evaluation::Trap(TrapCode::IntegerOverflow)
        },
    }
}

/// Returns the conversion of a float to an integer that traps where the
/// float has no integer.
#[verifier::when_used_as_spec(spec_convert)]
pub fn convert(truncated: Truncated, target: IntType) -> (result: Evaluation)
    ensures
        result == spec_convert(truncated, target),
{
    match truncated {
        Truncated::Nan => Evaluation::Trap(TrapCode::InvalidConversionToInt),
        Truncated::Infinite { .. } => Evaluation::Trap(TrapCode::InvalidConversionToInt),
        Truncated::Huge { .. } => Evaluation::Trap(TrapCode::IntegerOverflow),
        Truncated::Integer { negative, magnitude } => if magnitude <= target.limit(negative) {
            Evaluation::Value(target.word(negative, magnitude))
        } else {
            Evaluation::Trap(TrapCode::IntegerOverflow)
        },
    }
}

/// The conversion of a float to an integer that never traps: a NaN becomes
/// zero, and a float whose integer part lies outside the target type becomes
/// the nearest number of the type.
pub open spec fn spec_saturate(truncated: Truncated, target: IntType) -> Evaluation {
    match truncated {
        Truncated::Nan => Evaluation::Value(target.word(false, 0)),
        Truncated::Infinite { negative } => Evaluation::Value(
            target.word(negative, target.limit(negative)),
        ),
        Truncated::Huge { negative } => Evaluation::Value(
            target.word(negative, target.limit(negative)),
        ),
        Truncated::Integer { negative, magnitude } => if magnitude <= target.limit(negative) {
            Evaluation::Value(target.word(negative, magnitude))
        } else {
            Evaluation::Value(target.word(negative, target.limit(negative)))
        },
    }
}

/// Returns the conversion of a float to an integer that never traps.
#[verifier::when_used_as_spec(spec_saturate)]
pub fn saturate(truncated: Truncated, target: IntType) -> (result: Evaluation)
    ensures
        result == spec_saturate(truncated, target),
{
    match truncated {
        Truncated::Nan => Evaluation::Value(target.word(false, 0)),
        Truncated::Infinite { negative } => Evaluation::Value(
            target.word(negative, target.limit(negative)),
        ),
        Truncated::Huge { negative } => Evaluation::Value(
            target.word(negative, target.limit(negative)),
        ),
        Truncated::Integer { negative, magnitude } => if magnitude <= target.limit(negative) {
            Evaluation::Value(target.word(negative, magnitude))
        } else {
            Evaluation::Value(target.word(negative, target.limit(negative)))
        },
    }
}

/// How two floats compare.
#[derive(Clone, Copy, Debug, PartialEq, Eq, Structural)]
pub enum Order {
    /// The first is less than the second.
    Less,
    /// The two are equal; zero and minus zero are.
    Equal,
    /// The first is greater than the second.
    Greater,
    /// One of the two is a NaN: no comparison but `ne` holds of them.
    Unordered,
}

impl Order {
    /// The comparison holds.
    pub open spec fn spec_holds(self, relation: Relation) -> bool {
        match relation {
            Relation::Eq => self == Order::Equal,
            Relation::Ne => self != Order::Equal,
            Relation::Lt => self == Order::Less,
            Relation::Gt => self == Order::Greater,
            Relation::Le => self == Order::Less || self == Order::Equal,
            Relation::Ge => self == Order::Greater || self == Order::Equal,
        }
    }

    /// Returns `true` if the comparison holds.
    #[verifier::when_used_as_spec(spec_holds)]
    pub fn holds(self, relation: Relation) -> (holds: bool)
        ensures
            holds == self.spec_holds(relation),
    {
        match relation {
            Relation::Eq => self == Order::Equal,
            Relation::Ne => self != Order::Equal,
            Relation::Lt => self == Order::Less,
            Relation::Gt => self == Order::Greater,
            Relation::Le => self == Order::Less || self == Order::Equal,
            Relation::Ge => self == Order::Greater || self == Order::Equal,
        }
    }
}

/// The six comparisons.
#[derive(Clone, Copy, Debug, PartialEq, Eq, Structural)]
pub enum Relation {
    Eq,
    Ne,
    Lt,
    Gt,
    Le,
    Ge,
}

/// How two floats compare whose patterns without the sign bit are
/// `left_magnitude` and `right_magnitude`, and of which `nan_above` is the
/// pattern of the infinity. A pattern above that of the infinity is a NaN.
/// Of two numbers with different signs the negative one is less unless both
/// are zero; of two numbers with the same sign the magnitudes decide, the
/// other way round for negative ones.
pub open spec fn spec_order(
    left_negative: bool,
    left_magnitude: u64,
    right_negative: bool,
    right_magnitude: u64,
    nan_above: u64,
) -> Order {
    if left_magnitude > nan_above || right_magnitude > nan_above {
        Order::Unordered
    } else if left_magnitude == 0 && right_magnitude == 0 {
        Order::Equal
    } else if left_negative != right_negative {
        if left_negative {
            Order::Less
        } else {
            Order::Greater
        }
    } else if left_magnitude == right_magnitude {
        Order::Equal
    } else if (left_magnitude < right_magnitude) != left_negative {
        Order::Less
    } else {
        Order::Greater
    }
}

/// Returns how two floats compare, given their signs and their patterns
/// without the sign bit.
#[verifier::when_used_as_spec(spec_order)]
pub fn order(
    left_negative: bool,
    left_magnitude: u64,
    right_negative: bool,
    right_magnitude: u64,
    nan_above: u64,
) -> (result: Order)
    ensures
        result == spec_order(
            left_negative,
            left_magnitude,
            right_negative,
            right_magnitude,
            nan_above,
        ),
{
    if left_magnitude > nan_above || right_magnitude > nan_above {
        Order::Unordered
    } else if left_magnitude == 0 && right_magnitude == 0 {
        Order::Equal
    } else if left_negative != right_negative {
        if left_negative {
            Order::Less
        } else {
            Order::Greater
        }
    } else if left_magnitude == right_magnitude {
        Order::Equal
    } else if (left_magnitude < right_magnitude) != left_negative {
        Order::Less
    } else {
        Order::Greater
    }
}

/// How the two `f32` with the given bit patterns compare.
pub open spec fn spec_order32(left: u32, right: u32) -> Order {
    order(
        left >> 31 == 1,
        (left & 0x7fff_ffff) as u64,
        right >> 31 == 1,
        (right & 0x7fff_ffff) as u64,
        0x7f80_0000,
    )
}

/// Returns how the two `f32` with the given bit patterns compare.
#[verifier::when_used_as_spec(spec_order32)]
pub fn order32(left: u32, right: u32) -> (result: Order)
    ensures
        result == spec_order32(left, right),
{
    order(
        left >> 31 == 1,
        (left & 0x7fff_ffff) as u64,
        right >> 31 == 1,
        (right & 0x7fff_ffff) as u64,
        0x7f80_0000,
    )
}

/// How the two `f64` with the given bit patterns compare.
pub open spec fn spec_order64(left: u64, right: u64) -> Order {
    order(
        left >> 63 == 1,
        left & 0x7fff_ffff_ffff_ffff,
        right >> 63 == 1,
        right & 0x7fff_ffff_ffff_ffff,
        0x7ff0_0000_0000_0000,
    )
}

/// Returns how the two `f64` with the given bit patterns compare.
#[verifier::when_used_as_spec(spec_order64)]
pub fn order64(left: u64, right: u64) -> (result: Order)
    ensures
        result == spec_order64(left, right),
{
    order(
        left >> 63 == 1,
        left & 0x7fff_ffff_ffff_ffff,
        right >> 63 == 1,
        right & 0x7fff_ffff_ffff_ffff,
        0x7ff0_0000_0000_0000,
    )
}

/// The number of operands that the instruction takes if it is a numeric
/// instruction, `None` if it is not.
pub open spec fn spec_arity(inst: Instruction) -> Option<usize> {
    match inst {
        Instruction::I32Eqz
        | Instruction::I64Eqz
        | Instruction::I32Clz
        | Instruction::I32Ctz
        | Instruction::I32Popcnt
        | Instruction::I64Clz
        | Instruction::I64Ctz
        | Instruction::I64Popcnt
        | Instruction::F32Abs
        | Instruction::F32Neg
        | Instruction::F32Ceil
        | Instruction::F32Floor
        | Instruction::F32Trunc
        | Instruction::F32Nearest
        | Instruction::F32Sqrt
        | Instruction::F64Abs
        | Instruction::F64Neg
        | Instruction::F64Ceil
        | Instruction::F64Floor
        | Instruction::F64Trunc
        | Instruction::F64Nearest
        | Instruction::F64Sqrt
        | Instruction::I32WrapI64
        | Instruction::I32TruncF32S
        | Instruction::I32TruncF32U
        | Instruction::I32TruncF64S
        | Instruction::I32TruncF64U
        | Instruction::I64ExtendI32S
        | Instruction::I64ExtendI32U
        | Instruction::I64TruncF32S
        | Instruction::I64TruncF32U
        | Instruction::I64TruncF64S
        | Instruction::I64TruncF64U
        | Instruction::F32ConvertI32S
        | Instruction::F32ConvertI32U
        | Instruction::F32ConvertI64S
        | Instruction::F32ConvertI64U
        | Instruction::F32DemoteF64
        | Instruction::F64ConvertI32S
        | Instruction::F64ConvertI32U
        | Instruction::F64ConvertI64S
        | Instruction::F64ConvertI64U
        | Instruction::F64PromoteF32
        | Instruction::I32ReinterpretF32
        | Instruction::I64ReinterpretF64
        | Instruction::F32ReinterpretI32
        | Instruction::F64ReinterpretI64
        | Instruction::I32Extend8S
        | Instruction::I32Extend16S
        | Instruction::I64Extend8S
        | Instruction::I64Extend16S
        | Instruction::I64Extend32S
        | Instruction::I32TruncSatF32S
        | Instruction::I32TruncSatF32U
        | Instruction::I32TruncSatF64S
        | Instruction::I32TruncSatF64U
        | Instruction::I64TruncSatF32S
        | Instruction::I64TruncSatF32U
        | Instruction::I64TruncSatF64S
        | Instruction::I64TruncSatF64U => Some(1),
        Instruction::I32Eq
        | Instruction::I32Ne
        | Instruction::I32LtS
        | Instruction::I32LtU
        | Instruction::I32GtS
        | Instruction::I32GtU
        | Instruction::I32LeS
        | Instruction::I32LeU
        | Instruction::I32GeS
        | Instruction::I32GeU
        | Instruction::I64Eq
        | Instruction::I64Ne
        | Instruction::I64LtS
        | Instruction::I64LtU
        | Instruction::I64GtS
        | Instruction::I64GtU
        | Instruction::I64LeS
        | Instruction::I64LeU
        | Instruction::I64GeS
        | Instruction::I64GeU
        | Instruction::F32Eq
        | Instruction::F32Ne
        | Instruction::F32Lt
        | Instruction::F32Gt
        | Instruction::F32Le
        | Instruction::F32Ge
        | Instruction::F64Eq
        | Instruction::F64Ne
        | Instruction::F64Lt
        | Instruction::F64Gt
        | Instruction::F64Le
        | Instruction::F64Ge
        | Instruction::I32Add
        | Instruction::I32Sub
        | Instruction::I32Mul
        | Instruction::I32DivS
        | Instruction::I32DivU
        | Instruction::I32RemS
        | Instruction::I32RemU
        | Instruction::I32And
        | Instruction::I32Or
        | Instruction::I32Xor
        | Instruction::I32Shl
        | Instruction::I32ShrS
        | Instruction::I32ShrU
        | Instruction::I32Rotl
        | Instruction::I32Rotr
        | Instruction::I64Add
        | Instruction::I64Sub
        | Instruction::I64Mul
        | Instruction::I64DivS
        | Instruction::I64DivU
        | Instruction::I64RemS
        | Instruction::I64RemU
        | Instruction::I64And
        | Instruction::I64Or
        | Instruction::I64Xor
        | Instruction::I64Shl
        | Instruction::I64ShrS
        | Instruction::I64ShrU
        | Instruction::I64Rotl
        | Instruction::I64Rotr
        | Instruction::F32Add
        | Instruction::F32Sub
        | Instruction::F32Mul
        | Instruction::F32Div
        | Instruction::F32Min
        | Instruction::F32Max
        | Instruction::F32Copysign
        | Instruction::F64Add
        | Instruction::F64Sub
        | Instruction::F64Mul
        | Instruction::F64Div
        | Instruction::F64Min
        | Instruction::F64Max
        | Instruction::F64Copysign => Some(2),
        _ => None,
    }
}

/// Returns the number of operands that the instruction takes if it is a
/// numeric instruction, `None` if it is not.
#[verifier::when_used_as_spec(spec_arity)]
pub fn arity(inst: Instruction) -> (operands: Option<usize>)
    ensures
        operands == spec_arity(inst),
{
    match inst {
        Instruction::I32Eqz
        | Instruction::I64Eqz
        | Instruction::I32Clz
        | Instruction::I32Ctz
        | Instruction::I32Popcnt
        | Instruction::I64Clz
        | Instruction::I64Ctz
        | Instruction::I64Popcnt
        | Instruction::F32Abs
        | Instruction::F32Neg
        | Instruction::F32Ceil
        | Instruction::F32Floor
        | Instruction::F32Trunc
        | Instruction::F32Nearest
        | Instruction::F32Sqrt
        | Instruction::F64Abs
        | Instruction::F64Neg
        | Instruction::F64Ceil
        | Instruction::F64Floor
        | Instruction::F64Trunc
        | Instruction::F64Nearest
        | Instruction::F64Sqrt
        | Instruction::I32WrapI64
        | Instruction::I32TruncF32S
        | Instruction::I32TruncF32U
        | Instruction::I32TruncF64S
        | Instruction::I32TruncF64U
        | Instruction::I64ExtendI32S
        | Instruction::I64ExtendI32U
        | Instruction::I64TruncF32S
        | Instruction::I64TruncF32U
        | Instruction::I64TruncF64S
        | Instruction::I64TruncF64U
        | Instruction::F32ConvertI32S
        | Instruction::F32ConvertI32U
        | Instruction::F32ConvertI64S
        | Instruction::F32ConvertI64U
        | Instruction::F32DemoteF64
        | Instruction::F64ConvertI32S
        | Instruction::F64ConvertI32U
        | Instruction::F64ConvertI64S
        | Instruction::F64ConvertI64U
        | Instruction::F64PromoteF32
        | Instruction::I32ReinterpretF32
        | Instruction::I64ReinterpretF64
        | Instruction::F32ReinterpretI32
        | Instruction::F64ReinterpretI64
        | Instruction::I32Extend8S
        | Instruction::I32Extend16S
        | Instruction::I64Extend8S
        | Instruction::I64Extend16S
        | Instruction::I64Extend32S
        | Instruction::I32TruncSatF32S
        | Instruction::I32TruncSatF32U
        | Instruction::I32TruncSatF64S
        | Instruction::I32TruncSatF64U
        | Instruction::I64TruncSatF32S
        | Instruction::I64TruncSatF32U
        | Instruction::I64TruncSatF64S
        | Instruction::I64TruncSatF64U => Some(1),
        Instruction::I32Eq
        | Instruction::I32Ne
        | Instruction::I32LtS
        | Instruction::I32LtU
        | Instruction::I32GtS
        | Instruction::I32GtU
        | Instruction::I32LeS
        | Instruction::I32LeU
        | Instruction::I32GeS
        | Instruction::I32GeU
        | Instruction::I64Eq
        | Instruction::I64Ne
        | Instruction::I64LtS
        | Instruction::I64LtU
        | Instruction::I64GtS
        | Instruction::I64GtU
        | Instruction::I64LeS
        | Instruction::I64LeU
        | Instruction::I64GeS
        | Instruction::I64GeU
        | Instruction::F32Eq
        | Instruction::F32Ne
        | Instruction::F32Lt
        | Instruction::F32Gt
        | Instruction::F32Le
        | Instruction::F32Ge
        | Instruction::F64Eq
        | Instruction::F64Ne
        | Instruction::F64Lt
        | Instruction::F64Gt
        | Instruction::F64Le
        | Instruction::F64Ge
        | Instruction::I32Add
        | Instruction::I32Sub
        | Instruction::I32Mul
        | Instruction::I32DivS
        | Instruction::I32DivU
        | Instruction::I32RemS
        | Instruction::I32RemU
        | Instruction::I32And
        | Instruction::I32Or
        | Instruction::I32Xor
        | Instruction::I32Shl
        | Instruction::I32ShrS
        | Instruction::I32ShrU
        | Instruction::I32Rotl
        | Instruction::I32Rotr
        | Instruction::I64Add
        | Instruction::I64Sub
        | Instruction::I64Mul
        | Instruction::I64DivS
        | Instruction::I64DivU
        | Instruction::I64RemS
        | Instruction::I64RemU
        | Instruction::I64And
        | Instruction::I64Or
        | Instruction::I64Xor
        | Instruction::I64Shl
        | Instruction::I64ShrS
        | Instruction::I64ShrU
        | Instruction::I64Rotl
        | Instruction::I64Rotr
        | Instruction::F32Add
        | Instruction::F32Sub
        | Instruction::F32Mul
        | Instruction::F32Div
        | Instruction::F32Min
        | Instruction::F32Max
        | Instruction::F32Copysign
        | Instruction::F64Add
        | Instruction::F64Sub
        | Instruction::F64Mul
        | Instruction::F64Div
        | Instruction::F64Min
        | Instruction::F64Max
        | Instruction::F64Copysign => Some(2),
        _ => None,
    }
}

/// What the numeric instruction `inst` yields for the operands `lhs` and
/// `rhs`; an instruction with one operand takes `lhs`.
///
/// Integers wrap around, shift and rotation counts are taken modulo the
/// width, and comparisons yield 1 or 0. The instructions that only move the
/// bits of a float (`abs`, `neg`, `copysign`, the reinterpretations) work on
/// the bit pattern, so no NaN payload is lost; the comparisons of floats and
/// the conversions of floats to integers read the bit pattern. The
/// instructions that round a float yield [`Evaluation::Float`], and so
/// does every instruction that is not numeric.
pub open spec fn spec_evaluate(
    inst: Instruction,
    lhs: UntypedValue,
    rhs: UntypedValue,
) -> Evaluation {
    match inst {
        Instruction::I32Eqz => Evaluation::Value(UntypedValue::from_bool(lhs.to_u32() == 0)),
        Instruction::I32Eq => Evaluation::Value(
            UntypedValue::from_bool(lhs.to_u32() == rhs.to_u32()),
        ),
        Instruction::I32Ne => Evaluation::Value(
            UntypedValue::from_bool(lhs.to_u32() != rhs.to_u32()),
        ),
        Instruction::I32LtS => Evaluation::Value(
            UntypedValue::from_bool(lhs.to_i32() < rhs.to_i32()),
        ),
        Instruction::I32LtU => Evaluation::Value(
            UntypedValue::from_bool(lhs.to_u32() < rhs.to_u32()),
        ),
        Instruction::I32GtS => Evaluation::Value(
            UntypedValue::from_bool(lhs.to_i32() > rhs.to_i32()),
        ),
        Instruction::I32GtU => Evaluation::Value(
            UntypedValue::from_bool(lhs.to_u32() > rhs.to_u32()),
        ),
        Instruction::I32LeS => Evaluation::Value(
            UntypedValue::from_bool(lhs.to_i32() <= rhs.to_i32()),
        ),
        Instruction::I32LeU => Evaluation::Value(
            UntypedValue::from_bool(lhs.to_u32() <= rhs.to_u32()),
        ),
        Instruction::I32GeS => Evaluation::Value(
            UntypedValue::from_bool(lhs.to_i32() >= rhs.to_i32()),
        ),
        Instruction::I32GeU => Evaluation::Value(
            UntypedValue::from_bool(lhs.to_u32() >= rhs.to_u32()),
        ),
        Instruction::I64Eqz => Evaluation::Value(UntypedValue::from_bool(lhs.to_u64() == 0)),
        Instruction::I64Eq => Evaluation::Value(
            UntypedValue::from_bool(lhs.to_u64() == rhs.to_u64()),
        ),
        Instruction::I64Ne => Evaluation::Value(
            UntypedValue::from_bool(lhs.to_u64() != rhs.to_u64()),
        ),
        Instruction::I64LtS => Evaluation::Value(
            UntypedValue::from_bool(lhs.to_i64() < rhs.to_i64()),
        ),
        Instruction::I64LtU => Evaluation::Value(
            UntypedValue::from_bool(lhs.to_u64() < rhs.to_u64()),
        ),
        Instruction::I64GtS => Evaluation::Value(
            UntypedValue::from_bool(lhs.to_i64() > rhs.to_i64()),
        ),
        Instruction::I64GtU => Evaluation::Value(
            UntypedValue::from_bool(lhs.to_u64() > rhs.to_u64()),
        ),
        Instruction::I64LeS => Evaluation::Value(
            UntypedValue::from_bool(lhs.to_i64() <= rhs.to_i64()),
        ),
        Instruction::I64LeU => Evaluation::Value(
            UntypedValue::from_bool(lhs.to_u64() <= rhs.to_u64()),
        ),
        Instruction::I64GeS => Evaluation::Value(
            UntypedValue::from_bool(lhs.to_i64() >= rhs.to_i64()),
        ),
        Instruction::I64GeU => Evaluation::Value(
            UntypedValue::from_bool(lhs.to_u64() >= rhs.to_u64()),
        ),
        Instruction::F32Eq => Evaluation::Value(
            UntypedValue::from_bool(
                order32(lhs.to_u32(), rhs.to_u32()).holds(Relation::Eq),
            ),
        ),
        Instruction::F32Ne => Evaluation::Value(
            UntypedValue::from_bool(
                order32(lhs.to_u32(), rhs.to_u32()).holds(Relation::Ne),
            ),
        ),
        Instruction::F32Lt => Evaluation::Value(
            UntypedValue::from_bool(
                order32(lhs.to_u32(), rhs.to_u32()).holds(Relation::Lt),
            ),
        ),
        Instruction::F32Gt => Evaluation::Value(
            UntypedValue::from_bool(
                order32(lhs.to_u32(), rhs.to_u32()).holds(Relation::Gt),
            ),
        ),
        Instruction::F32Le => Evaluation::Value(
            UntypedValue::from_bool(
                order32(lhs.to_u32(), rhs.to_u32()).holds(Relation::Le),
            ),
        ),
        Instruction::F32Ge => Evaluation::Value(
            UntypedValue::from_bool(
                order32(lhs.to_u32(), rhs.to_u32()).holds(Relation::Ge),
            ),
        ),
        Instruction::F64Eq => Evaluation::Value(
            UntypedValue::from_bool(
                order64(lhs.to_u64(), rhs.to_u64()).holds(Relation::Eq),
            ),
        ),
        Instruction::F64Ne => Evaluation::Value(
            UntypedValue::from_bool(
                order64(lhs.to_u64(), rhs.to_u64()).holds(Relation::Ne),
            ),
        ),
        Instruction::F64Lt => Evaluation::Value(
            UntypedValue::from_bool(
                order64(lhs.to_u64(), rhs.to_u64()).holds(Relation::Lt),
            ),
        ),
        Instruction::F64Gt => Evaluation::Value(
            UntypedValue::from_bool(
                order64(lhs.to_u64(), rhs.to_u64()).holds(Relation::Gt),
            ),
        ),
        Instruction::F64Le => Evaluation::Value(
            UntypedValue::from_bool(
                order64(lhs.to_u64(), rhs.to_u64()).holds(Relation::Le),
            ),
        ),
        Instruction::F64Ge => Evaluation::Value(
            UntypedValue::from_bool(
                order64(lhs.to_u64(), rhs.to_u64()).holds(Relation::Ge),
            ),
        ),
        Instruction::I32Clz => Evaluation::Value(
            UntypedValue::from_u32(lhs.to_u32().leading_zeros()),
        ),
        Instruction::I32Ctz => Evaluation::Value(
            UntypedValue::from_u32(lhs.to_u32().trailing_zeros()),
        ),
        Instruction::I32Popcnt => Evaluation::Value(
            UntypedValue::from_u32(popcount(lhs.to_u32() as u64)),
        ),
        Instruction::I32Add => Evaluation::Value(
            UntypedValue::from_u32(lhs.to_u32().wrapping_add(rhs.to_u32())),
        ),
        Instruction::I32Sub => Evaluation::Value(
            UntypedValue::from_u32(lhs.to_u32().wrapping_sub(rhs.to_u32())),
        ),
        Instruction::I32Mul => Evaluation::Value(
            UntypedValue::from_u32(lhs.to_u32().wrapping_mul(rhs.to_u32())),
        ),
        Instruction::I32DivS => div_s32(lhs.to_i32(), rhs.to_i32()),
        Instruction::I32DivU => div_u32(lhs.to_u32(), rhs.to_u32()),
        Instruction::I32RemS => rem_s32(lhs.to_i32(), rhs.to_i32()),
        Instruction::I32RemU => rem_u32(lhs.to_u32(), rhs.to_u32()),
        Instruction::I32And => Evaluation::Value(
            UntypedValue::from_u32(lhs.to_u32() & rhs.to_u32()),
        ),
        Instruction::I32Or => Evaluation::Value(
            UntypedValue::from_u32(lhs.to_u32() | rhs.to_u32()),
        ),
        Instruction::I32Xor => Evaluation::Value(
            UntypedValue::from_u32(lhs.to_u32() ^ rhs.to_u32()),
        ),
        Instruction::I32Shl => Evaluation::Value(
            UntypedValue::from_u32(lhs.to_u32() << (rhs.to_u32() % 32)),
        ),
        Instruction::I32ShrS => Evaluation::Value(
            UntypedValue::from_i32(lhs.to_i32() >> (rhs.to_u32() % 32)),
        ),
        Instruction::I32ShrU => Evaluation::Value(
            UntypedValue::from_u32(lhs.to_u32() >> (rhs.to_u32() % 32)),
        ),
        Instruction::I32Rotl => Evaluation::Value(
            UntypedValue::from_u32(rotl32(lhs.to_u32(), rhs.to_u32())),
        ),
        Instruction::I32Rotr => Evaluation::Value(
            UntypedValue::from_u32(rotr32(lhs.to_u32(), rhs.to_u32())),
        ),
        Instruction::I64Clz => Evaluation::Value(
            UntypedValue::from_u32(u64_leading_zeros(lhs.to_u64()) as u32),
        ),
        Instruction::I64Ctz => Evaluation::Value(
            UntypedValue::from_u32(lhs.to_u64().trailing_zeros()),
        ),
        Instruction::I64Popcnt => Evaluation::Value(
            UntypedValue::from_u32(popcount(lhs.to_u64() as u64)),
        ),
        Instruction::I64Add => Evaluation::Value(
            UntypedValue::from_u64(lhs.to_u64().wrapping_add(rhs.to_u64())),
        ),
        Instruction::I64Sub => Evaluation::Value(
            UntypedValue::from_u64(lhs.to_u64().wrapping_sub(rhs.to_u64())),
        ),
        Instruction::I64Mul => Evaluation::Value(
            UntypedValue::from_u64(lhs.to_u64().wrapping_mul(rhs.to_u64())),
        ),
        Instruction::I64DivS => div_s64(lhs.to_i64(), rhs.to_i64()),
        Instruction::I64DivU => div_u64(lhs.to_u64(), rhs.to_u64()),
        Instruction::I64RemS => rem_s64(lhs.to_i64(), rhs.to_i64()),
        Instruction::I64RemU => rem_u64(lhs.to_u64(), rhs.to_u64()),
        Instruction::I64And => Evaluation::Value(
            UntypedValue::from_u64(lhs.to_u64() & rhs.to_u64()),
        ),
        Instruction::I64Or => Evaluation::Value(
            UntypedValue::from_u64(lhs.to_u64() | rhs.to_u64()),
        ),
        Instruction::I64Xor => Evaluation::Value(
            UntypedValue::from_u64(lhs.to_u64() ^ rhs.to_u64()),
        ),
        Instruction::I64Shl => Evaluation::Value(
            UntypedValue::from_u64(lhs.to_u64() << (rhs.to_u64() % 64)),
        ),
        Instruction::I64ShrS => Evaluation::Value(
            UntypedValue::from_i64(lhs.to_i64() >> (rhs.to_u64() % 64)),
        ),
        Instruction::I64ShrU => Evaluation::Value(
            UntypedValue::from_u64(lhs.to_u64() >> (rhs.to_u64() % 64)),
        ),
        Instruction::I64Rotl => Evaluation::Value(
            UntypedValue::from_u64(rotl64(lhs.to_u64(), rhs.to_u64())),
        ),
        Instruction::I64Rotr => Evaluation::Value(
            UntypedValue::from_u64(rotr64(lhs.to_u64(), rhs.to_u64())),
        ),
        Instruction::F32Abs => Evaluation::Value(
            UntypedValue::from_u32(lhs.to_u32() & 0x7fff_ffff),
        ),
        Instruction::F32Neg => Evaluation::Value(
            UntypedValue::from_u32(lhs.to_u32() ^ 0x8000_0000),
        ),
        Instruction::F32Copysign => Evaluation::Value(
            UntypedValue::from_u32((lhs.to_u32() & 0x7fff_ffff) | (rhs.to_u32() & 0x8000_0000)),
        ),
        Instruction::F64Abs => Evaluation::Value(
            UntypedValue::from_u64(lhs.to_u64() & 0x7fff_ffff_ffff_ffff),
        ),
        Instruction::F64Neg => Evaluation::Value(
            UntypedValue::from_u64(lhs.to_u64() ^ 0x8000_0000_0000_0000),
        ),
        Instruction::F64Copysign => Evaluation::Value(
            UntypedValue::from_u64(
                (lhs.to_u64() & 0x7fff_ffff_ffff_ffff) | (rhs.to_u64() & 0x8000_0000_0000_0000),
            ),
        ),
        Instruction::I32WrapI64 => Evaluation::Value(UntypedValue::from_u32(lhs.to_u64() as u32)),
        Instruction::I32TruncF32S => convert(truncate32(lhs.to_u32()), IntType::I32),
        Instruction::I32TruncF32U => convert(truncate32(lhs.to_u32()), IntType::U32),
        Instruction::I32TruncF64S => convert(truncate64(lhs.to_u64()), IntType::I32),
        Instruction::I32TruncF64U => convert(truncate64(lhs.to_u64()), IntType::U32),
        Instruction::I64ExtendI32S => Evaluation::Value(
            UntypedValue::from_i64(lhs.to_i32() as i64),
        ),
        Instruction::I64ExtendI32U => Evaluation::Value(
            UntypedValue::from_u64(lhs.to_u32() as u64),
        ),
        Instruction::I64TruncF32S => convert(truncate32(lhs.to_u32()), IntType::I64),
        Instruction::I64TruncF32U => convert(truncate32(lhs.to_u32()), IntType::U64),
        Instruction::I64TruncF64S => convert(truncate64(lhs.to_u64()), IntType::I64),
        Instruction::I64TruncF64U => convert(truncate64(lhs.to_u64()), IntType::U64),
        Instruction::I32ReinterpretF32 => Evaluation::Value(UntypedValue::from_u32(lhs.to_u32())),
        Instruction::I64ReinterpretF64 => Evaluation::Value(lhs),
        Instruction::F32ReinterpretI32 => Evaluation::Value(UntypedValue::from_u32(lhs.to_u32())),
        Instruction::F64ReinterpretI64 => Evaluation::Value(lhs),
        Instruction::I32Extend8S => Evaluation::Value(
            UntypedValue::from_i32(((lhs.to_u32() as u8) as i8) as i32),
        ),
        Instruction::I32Extend16S => Evaluation::Value(
            UntypedValue::from_i32(((lhs.to_u32() as u16) as i16) as i32),
        ),
        Instruction::I64Extend8S => Evaluation::Value(
            UntypedValue::from_i64(((lhs.to_u64() as u8) as i8) as i64),
        ),
        Instruction::I64Extend16S => Evaluation::Value(
            UntypedValue::from_i64(((lhs.to_u64() as u16) as i16) as i64),
        ),
        Instruction::I64Extend32S => Evaluation::Value(UntypedValue::from_i64(lhs.to_i32() as i64)),
        Instruction::I32TruncSatF32S => saturate(truncate32(lhs.to_u32()), IntType::I32),
        Instruction::I32TruncSatF32U => saturate(truncate32(lhs.to_u32()), IntType::U32),
        Instruction::I32TruncSatF64S => saturate(truncate64(lhs.to_u64()), IntType::I32),
        Instruction::I32TruncSatF64U => saturate(truncate64(lhs.to_u64()), IntType::U32),
        Instruction::I64TruncSatF32S => saturate(truncate32(lhs.to_u32()), IntType::I64),
        Instruction::I64TruncSatF32U => saturate(truncate32(lhs.to_u32()), IntType::U64),
        Instruction::I64TruncSatF64S => saturate(truncate64(lhs.to_u64()), IntType::I64),
        Instruction::I64TruncSatF64U => saturate(truncate64(lhs.to_u64()), IntType::U64),
        _ => Evaluation::Float,
    }
}

/// Returns what the numeric instruction `inst` yields for the operands `lhs`
/// and `rhs`; an instruction with one operand takes `lhs`.
#[verifier::when_used_as_spec(spec_evaluate)]
pub fn evaluate(inst: Instruction, lhs: UntypedValue, rhs: UntypedValue) -> (result: Evaluation)
    ensures
        result == spec_evaluate(inst, lhs, rhs),
{
    match inst {
        Instruction::I32Eqz => Evaluation::Value(UntypedValue::from_bool(lhs.to_u32() == 0)),
        Instruction::I32Eq => Evaluation::Value(
            UntypedValue::from_bool(lhs.to_u32() == rhs.to_u32()),
        ),
        Instruction::I32Ne => Evaluation::Value(
            UntypedValue::from_bool(lhs.to_u32() != rhs.to_u32()),
        ),
        Instruction::I32LtS => Evaluation::Value(
            UntypedValue::from_bool(lhs.to_i32() < rhs.to_i32()),
        ),
        Instruction::I32LtU => Evaluation::Value(
            UntypedValue::from_bool(lhs.to_u32() < rhs.to_u32()),
        ),
        Instruction::I32GtS => Evaluation::Value(
            UntypedValue::from_bool(lhs.to_i32() > rhs.to_i32()),
        ),
        Instruction::I32GtU => Evaluation::Value(
            UntypedValue::from_bool(lhs.to_u32() > rhs.to_u32()),
        ),
        Instruction::I32LeS => Evaluation::Value(
            UntypedValue::from_bool(lhs.to_i32() <= rhs.to_i32()),
        ),
        Instruction::I32LeU => Evaluation::Value(
            UntypedValue::from_bool(lhs.to_u32() <= rhs.to_u32()),
        ),
        Instruction::I32GeS => Evaluation::Value(
            UntypedValue::from_bool(lhs.to_i32() >= rhs.to_i32()),
        ),
        Instruction::I32GeU => Evaluation::Value(
            UntypedValue::from_bool(lhs.to_u32() >= rhs.to_u32()),
        ),
        Instruction::I64Eqz => Evaluation::Value(UntypedValue::from_bool(lhs.to_u64() == 0)),
        Instruction::I64Eq => Evaluation::Value(
            UntypedValue::from_bool(lhs.to_u64() == rhs.to_u64()),
        ),
        Instruction::I64Ne => Evaluation::Value(
            UntypedValue::from_bool(lhs.to_u64() != rhs.to_u64()),
        ),
        Instruction::I64LtS => Evaluation::Value(
            UntypedValue::from_bool(lhs.to_i64() < rhs.to_i64()),
        ),
        Instruction::I64LtU => Evaluation::Value(
            UntypedValue::from_bool(lhs.to_u64() < rhs.to_u64()),
        ),
        Instruction::I64GtS => Evaluation::Value(
            UntypedValue::from_bool(lhs.to_i64() > rhs.to_i64()),
        ),
        Instruction::I64GtU => Evaluation::Value(
            UntypedValue::from_bool(lhs.to_u64() > rhs.to_u64()),
        ),
        Instruction::I64LeS => Evaluation::Value(
            UntypedValue::from_bool(lhs.to_i64() <= rhs.to_i64()),
        ),
        Instruction::I64LeU => Evaluation::Value(
            UntypedValue::from_bool(lhs.to_u64() <= rhs.to_u64()),
        ),
        Instruction::I64GeS => Evaluation::Value(
            UntypedValue::from_bool(lhs.to_i64() >= rhs.to_i64()),
        ),
        Instruction::I64GeU => Evaluation::Value(
            UntypedValue::from_bool(lhs.to_u64() >= rhs.to_u64()),
        ),
        Instruction::F32Eq => Evaluation::Value(
            UntypedValue::from_bool(
                order32(lhs.to_u32(), rhs.to_u32()).holds(Relation::Eq),
            ),
        ),
        Instruction::F32Ne => Evaluation::Value(
            UntypedValue::from_bool(
                order32(lhs.to_u32(), rhs.to_u32()).holds(Relation::Ne),
            ),
        ),
        Instruction::F32Lt => Evaluation::Value(
            UntypedValue::from_bool(
                order32(lhs.to_u32(), rhs.to_u32()).holds(Relation::Lt),
            ),
        ),
        Instruction::F32Gt => Evaluation::Value(
            UntypedValue::from_bool(
                order32(lhs.to_u32(), rhs.to_u32()).holds(Relation::Gt),
            ),
        ),
        Instruction::F32Le => Evaluation::Value(
            UntypedValue::from_bool(
                order32(lhs.to_u32(), rhs.to_u32()).holds(Relation::Le),
            ),
        ),
        Instruction::F32Ge => Evaluation::Value(
            UntypedValue::from_bool(
                order32(lhs.to_u32(), rhs.to_u32()).holds(Relation::Ge),
            ),
        ),
        Instruction::F64Eq => Evaluation::Value(
            UntypedValue::from_bool(
                order64(lhs.to_u64(), rhs.to_u64()).holds(Relation::Eq),
            ),
        ),
        Instruction::F64Ne => Evaluation::Value(
            UntypedValue::from_bool(
                order64(lhs.to_u64(), rhs.to_u64()).holds(Relation::Ne),
            ),
        ),
        Instruction::F64Lt => Evaluation::Value(
            UntypedValue::from_bool(
                order64(lhs.to_u64(), rhs.to_u64()).holds(Relation::Lt),
            ),
        ),
        Instruction::F64Gt => Evaluation::Value(
            UntypedValue::from_bool(
                order64(lhs.to_u64(), rhs.to_u64()).holds(Relation::Gt),
            ),
        ),
        Instruction::F64Le => Evaluation::Value(
            UntypedValue::from_bool(
                order64(lhs.to_u64(), rhs.to_u64()).holds(Relation::Le),
            ),
        ),
        Instruction::F64Ge => Evaluation::Value(
            UntypedValue::from_bool(
                order64(lhs.to_u64(), rhs.to_u64()).holds(Relation::Ge),
            ),
        ),
        Instruction::I32Clz => Evaluation::Value(
            UntypedValue::from_u32(lhs.to_u32().leading_zeros()),
        ),
        Instruction::I32Ctz => Evaluation::Value(
            UntypedValue::from_u32(lhs.to_u32().trailing_zeros()),
        ),
        Instruction::I32Popcnt => Evaluation::Value(
            UntypedValue::from_u32(popcount(lhs.to_u32() as u64)),
        ),
        Instruction::I32Add => Evaluation::Value(
            UntypedValue::from_u32(lhs.to_u32().wrapping_add(rhs.to_u32())),
        ),
        Instruction::I32Sub => Evaluation::Value(
            UntypedValue::from_u32(lhs.to_u32().wrapping_sub(rhs.to_u32())),
        ),
        Instruction::I32Mul => Evaluation::Value(
            UntypedValue::from_u32(lhs.to_u32().wrapping_mul(rhs.to_u32())),
        ),
        Instruction::I32DivS => div_s32(lhs.to_i32(), rhs.to_i32()),
        Instruction::I32DivU => div_u32(lhs.to_u32(), rhs.to_u32()),
        Instruction::I32RemS => rem_s32(lhs.to_i32(), rhs.to_i32()),
        Instruction::I32RemU => rem_u32(lhs.to_u32(), rhs.to_u32()),
        Instruction::I32And => Evaluation::Value(
            UntypedValue::from_u32(lhs.to_u32() & rhs.to_u32()),
        ),
        Instruction::I32Or => Evaluation::Value(
            UntypedValue::from_u32(lhs.to_u32() | rhs.to_u32()),
        ),
        Instruction::I32Xor => Evaluation::Value(
            UntypedValue::from_u32(lhs.to_u32() ^ rhs.to_u32()),
        ),
        Instruction::I32Shl => Evaluation::Value(
            UntypedValue::from_u32(lhs.to_u32() << (rhs.to_u32() % 32)),
        ),
        Instruction::I32ShrS => Evaluation::Value(
            UntypedValue::from_i32(lhs.to_i32() >> (rhs.to_u32() % 32)),
        ),
        Instruction::I32ShrU => Evaluation::Value(
            UntypedValue::from_u32(lhs.to_u32() >> (rhs.to_u32() % 32)),
        ),
        Instruction::I32Rotl => Evaluation::Value(
            UntypedValue::from_u32(rotl32(lhs.to_u32(), rhs.to_u32())),
        ),
        Instruction::I32Rotr => Evaluation::Value(
            UntypedValue::from_u32(rotr32(lhs.to_u32(), rhs.to_u32())),
        ),
        Instruction::I64Clz => Evaluation::Value(
            UntypedValue::from_u32(lhs.to_u64().leading_zeros()),
        ),
        Instruction::I64Ctz => Evaluation::Value(
            UntypedValue::from_u32(lhs.to_u64().trailing_zeros()),
        ),
        Instruction::I64Popcnt => Evaluation::Value(
            UntypedValue::from_u32(popcount(lhs.to_u64() as u64)),
        ),
        Instruction::I64Add => Evaluation::Value(
            UntypedValue::from_u64(lhs.to_u64().wrapping_add(rhs.to_u64())),
        ),
        Instruction::I64Sub => Evaluation::Value(
            UntypedValue::from_u64(lhs.to_u64().wrapping_sub(rhs.to_u64())),
        ),
        Instruction::I64Mul => Evaluation::Value(
            UntypedValue::from_u64(lhs.to_u64().wrapping_mul(rhs.to_u64())),
        ),
        Instruction::I64DivS => div_s64(lhs.to_i64(), rhs.to_i64()),
        Instruction::I64DivU => div_u64(lhs.to_u64(), rhs.to_u64()),
        Instruction::I64RemS => rem_s64(lhs.to_i64(), rhs.to_i64()),
        Instruction::I64RemU => rem_u64(lhs.to_u64(), rhs.to_u64()),
        Instruction::I64And => Evaluation::Value(
            UntypedValue::from_u64(lhs.to_u64() & rhs.to_u64()),
        ),
        Instruction::I64Or => Evaluation::Value(
            UntypedValue::from_u64(lhs.to_u64() | rhs.to_u64()),
        ),
        Instruction::I64Xor => Evaluation::Value(
            UntypedValue::from_u64(lhs.to_u64() ^ rhs.to_u64()),
        ),
        Instruction::I64Shl => Evaluation::Value(
            UntypedValue::from_u64(lhs.to_u64() << (rhs.to_u64() % 64)),
        ),
        Instruction::I64ShrS => Evaluation::Value(
            UntypedValue::from_i64(lhs.to_i64() >> (rhs.to_u64() % 64)),
        ),
        Instruction::I64ShrU => Evaluation::Value(
            UntypedValue::from_u64(lhs.to_u64() >> (rhs.to_u64() % 64)),
        ),
        Instruction::I64Rotl => Evaluation::Value(
            UntypedValue::from_u64(rotl64(lhs.to_u64(), rhs.to_u64())),
        ),
        Instruction::I64Rotr => Evaluation::Value(
            UntypedValue::from_u64(rotr64(lhs.to_u64(), rhs.to_u64())),
        ),
        Instruction::F32Abs => Evaluation::Value(
            UntypedValue::from_u32(lhs.to_u32() & 0x7fff_ffff),
        ),
        Instruction::F32Neg => Evaluation::Value(
            UntypedValue::from_u32(lhs.to_u32() ^ 0x8000_0000),
        ),
        Instruction::F32Copysign => Evaluation::Value(
            UntypedValue::from_u32((lhs.to_u32() & 0x7fff_ffff) | (rhs.to_u32() & 0x8000_0000)),
        ),
        Instruction::F64Abs => Evaluation::Value(
            UntypedValue::from_u64(lhs.to_u64() & 0x7fff_ffff_ffff_ffff),
        ),
        Instruction::F64Neg => Evaluation::Value(
            UntypedValue::from_u64(lhs.to_u64() ^ 0x8000_0000_0000_0000),
        ),
        Instruction::F64Copysign => Evaluation::Value(
            UntypedValue::from_u64(
                (lhs.to_u64() & 0x7fff_ffff_ffff_ffff) | (rhs.to_u64() & 0x8000_0000_0000_0000),
            ),
        ),
        Instruction::I32WrapI64 => Evaluation::Value(UntypedValue::from_u32(lhs.to_u64() as u32)),
        Instruction::I32TruncF32S => convert(truncate32(lhs.to_u32()), IntType::I32),
        Instruction::I32TruncF32U => convert(truncate32(lhs.to_u32()), IntType::U32),
        Instruction::I32TruncF64S => convert(truncate64(lhs.to_u64()), IntType::I32),
        Instruction::I32TruncF64U => convert(truncate64(lhs.to_u64()), IntType::U32),
        Instruction::I64ExtendI32S => Evaluation::Value(
            UntypedValue::from_i64(lhs.to_i32() as i64),
        ),
        Instruction::I64ExtendI32U => Evaluation::Value(
            UntypedValue::from_u64(lhs.to_u32() as u64),
        ),
        Instruction::I64TruncF32S => convert(truncate32(lhs.to_u32()), IntType::I64),
        Instruction::I64TruncF32U => convert(truncate32(lhs.to_u32()), IntType::U64),
        Instruction::I64TruncF64S => convert(truncate64(lhs.to_u64()), IntType::I64),
        Instruction::I64TruncF64U => convert(truncate64(lhs.to_u64()), IntType::U64),
        Instruction::I32ReinterpretF32 => Evaluation::Value(UntypedValue::from_u32(lhs.to_u32())),
        Instruction::I64ReinterpretF64 => Evaluation::Value(lhs),
        Instruction::F32ReinterpretI32 => Evaluation::Value(UntypedValue::from_u32(lhs.to_u32())),
        Instruction::F64ReinterpretI64 => Evaluation::Value(lhs),
        Instruction::I32Extend8S => Evaluation::Value(
            UntypedValue::from_i32(((lhs.to_u32() as u8) as i8) as i32),
        ),
        Instruction::I32Extend16S => Evaluation::Value(
            UntypedValue::from_i32(((lhs.to_u32() as u16) as i16) as i32),
        ),
        Instruction::I64Extend8S => Evaluation::Value(
            UntypedValue::from_i64(((lhs.to_u64() as u8) as i8) as i64),
        ),
        Instruction::I64Extend16S => Evaluation::Value(
            UntypedValue::from_i64(((lhs.to_u64() as u16) as i16) as i64),
        ),
        Instruction::I64Extend32S => Evaluation::Value(UntypedValue::from_i64(lhs.to_i32() as i64)),
        Instruction::I32TruncSatF32S => saturate(truncate32(lhs.to_u32()), IntType::I32),
        Instruction::I32TruncSatF32U => saturate(truncate32(lhs.to_u32()), IntType::U32),
        Instruction::I32TruncSatF64S => saturate(truncate64(lhs.to_u64()), IntType::I32),
        Instruction::I32TruncSatF64U => saturate(truncate64(lhs.to_u64()), IntType::U32),
        Instruction::I64TruncSatF32S => saturate(truncate32(lhs.to_u32()), IntType::I64),
        Instruction::I64TruncSatF32U => saturate(truncate32(lhs.to_u32()), IntType::U64),
        Instruction::I64TruncSatF64S => saturate(truncate64(lhs.to_u64()), IntType::I64),
        Instruction::I64TruncSatF64U => saturate(truncate64(lhs.to_u64()), IntType::U64),
        _ => Evaluation::Float,
    }
}

/// An unsigned division by zero traps, whatever the dividend is, and so do
/// the signed division and both remainders.
pub proof fn lemma_division_by_zero_traps(x: UntypedValue, y: UntypedValue)
    ensures
        y.to_u32() == 0 ==> {
            &&& evaluate(Instruction::I32DivU, x, y) == Evaluation::Trap(TrapCode::DivisionByZero)
            &&& evaluate(Instruction::I32DivS, x, y) == Evaluation::Trap(TrapCode::DivisionByZero)
            &&& evaluate(Instruction::I32RemU, x, y) == Evaluation::Trap(TrapCode::DivisionByZero)
            &&& evaluate(Instruction::I32RemS, x, y) == Evaluation::Trap(TrapCode::DivisionByZero)
        },
        y.to_u64() == 0 ==> {
            &&& evaluate(Instruction::I64DivU, x, y) == Evaluation::Trap(TrapCode::DivisionByZero)
            &&& evaluate(Instruction::I64DivS, x, y) == Evaluation::Trap(TrapCode::DivisionByZero)
            &&& evaluate(Instruction::I64RemU, x, y) == Evaluation::Trap(TrapCode::DivisionByZero)
            &&& evaluate(Instruction::I64RemS, x, y) == Evaluation::Trap(TrapCode::DivisionByZero)
        },
{
    let zero32 = y.to_u32();
    assert(zero32 == 0 ==> zero32 as i32 == 0) by (bit_vector);
    let zero64 = y.to_u64();
    assert(zero64 == 0 ==> zero64 as i64 == 0) by (bit_vector);
}

/// The signed division of the least number by -1 overflows, and it is the
/// only signed division by a divisor other than zero that traps.
pub proof fn lemma_signed_division_overflows(x: i32, y: i32)
    ensures
        div_s32(i32::MIN, -1i32) == Evaluation::Trap(TrapCode::IntegerOverflow),
        div_s32(x, y) is Trap <==> y == 0 || (x == i32::MIN && y == -1),
{
    if y != 0 && !(x == i32::MIN && y == -1) {
        if x > 0 && y > 0 {
            assert(0 <= x / y <= x) by (nonlinear_arith)
                requires
                    x > 0,
                    y > 0,
            ;
        } else if x < 0 && y < 0 {
            assert(0 <= (x * -1) / (y * -1) <= x * -1) by (nonlinear_arith)
                requires
                    x < 0,
                    y < 0,
            ;
            if y <= -2 {
                assert(((x * -1) / (y * -1)) * 2 <= x * -1) by (nonlinear_arith)
                    requires
                        x < 0,
                        y <= -2,
                ;
            }
        } else if x < 0 {
            assert(0 <= (x * -1) / (y as int) <= x * -1) by (nonlinear_arith)
                requires
                    x < 0,
                    y > 0,
            ;
        } else if x > 0 {
            assert(0 <= (x as int) / (y * -1) <= x) by (nonlinear_arith)
                requires
                    x > 0,
                    y < 0,
            ;
        }
    }
}

/// The conversion of a NaN to an integer traps, and the saturating
/// conversion of a NaN is zero, whatever the payload of the NaN is.
pub proof fn lemma_nan_conversions(bits: u32)
    requires
        (bits >> 23) & 0xff == 0xff,
        bits & 0x7f_ffff != 0,
    ensures
        evaluate(Instruction::I32TruncF32S, UntypedValue::from_u32(bits), UntypedValue::from_u32(0))
            == Evaluation::Trap(TrapCode::InvalidConversionToInt),
        evaluate(
            Instruction::I32TruncSatF32S,
            UntypedValue::from_u32(bits),
            UntypedValue::from_u32(0),
        ) == Evaluation::Value(UntypedValue::from_i32(0)),
{
    assert((bits as u64) as u32 == bits) by (bit_vector);
    assert(0u32.wrapping_sub(0u32) == 0u32);
}


/// The integer part that truncation finds is the magnitude of the float with
/// its fraction cut off: the magnitude of a finite `f64` with the biased
/// exponent `e` of at least 1023 is `significand * 2^(e - 1075)`, and its
/// integer part is the product where the power of two is whole and the
/// rounded-down quotient where it is not.
pub proof fn lemma_truncate64_magnitude(bits: u64)
    requires
        1023 <= (bits >> 52) & 0x7ff < 1023 + 64,
    ensures
        ({
            let exponent = ((bits >> 52) & 0x7ff) as int;
            let significand = ((bits & 0xf_ffff_ffff_ffff) | 0x10_0000_0000_0000) as int;
            &&& 0x10_0000_0000_0000 <= significand < 0x20_0000_0000_0000
            &&& truncate64(bits) matches Truncated::Integer { negative, magnitude }
            &&& negative == (bits >> 63 == 1)
            &&& exponent >= 1075 ==> magnitude == significand * pow2((exponent - 1075) as nat)
            &&& exponent < 1075 ==> magnitude == significand / (pow2(
                (1075 - exponent) as nat,
            ) as int)
        }),
{
    let exponent = (bits >> 52) & 0x7ff;
    let significand = (bits & 0xf_ffff_ffff_ffff) | 0x10_0000_0000_0000;
    assert(0x10_0000_0000_0000 <= (bits & 0xf_ffff_ffff_ffff) | 0x10_0000_0000_0000
        < 0x20_0000_0000_0000) by (bit_vector);
    if exponent >= 1075 {
        let shift = (exponent - 1075) as u64;
        lemma_pow2_at_most(shift as nat, 11);
        lemma2_to64();
        assert(significand * pow2(shift as nat) <= u64::MAX) by (nonlinear_arith)
            requires
                significand < 0x20_0000_0000_0000,
                pow2(shift as nat) <= 0x800,
        ;
        lemma_u64_shl_is_mul(significand, shift);
    } else {
        let shift = (1075 - exponent) as u64;
        lemma_u64_shr_is_div(significand, shift);
    }
}

/// The same for `f32`: the magnitude of a finite `f32` with the biased
/// exponent `e` of at least 127 is `significand * 2^(e - 150)`.
pub proof fn lemma_truncate32_magnitude(bits: u32)
    requires
        127 <= (bits >> 23) & 0xff < 127 + 64,
    ensures
        ({
            let exponent = ((bits >> 23) & 0xff) as int;
            let significand = ((bits & 0x7f_ffff) | 0x80_0000) as int;
            &&& 0x80_0000 <= significand < 0x100_0000
            &&& truncate32(bits) matches Truncated::Integer { negative, magnitude }
            &&& negative == (bits >> 31 == 1)
            &&& exponent >= 150 ==> magnitude == significand * pow2((exponent - 150) as nat)
            &&& exponent < 150 ==> magnitude == significand / (pow2((150 - exponent) as nat) as int)
        }),
{
    let exponent = (bits >> 23) & 0xff;
    let significand = ((bits & 0x7f_ffff) | 0x80_0000) as u64;
    assert(0x80_0000 <= (bits & 0x7f_ffff) | 0x80_0000 < 0x100_0000) by (bit_vector);
    if exponent >= 150 {
        let shift = (exponent - 150) as u64;
        lemma_pow2_at_most(shift as nat, 40);
        lemma2_to64();
        lemma2_to64_rest();
        assert(significand * pow2(shift as nat) <= u64::MAX) by (nonlinear_arith)
            requires
                significand < 0x100_0000,
                pow2(shift as nat) <= 0x100_0000_0000,
        ;
        lemma_u64_shl_is_mul(significand, shift);
    } else {
        let shift = (150 - exponent) as u64;
        lemma_u64_shr_is_div(significand, shift);
    }
}

/// Powers of two grow with the exponent.
proof fn lemma_pow2_at_most(small: nat, large: nat)
    requires
        small <= large,
    ensures
        pow2(small) <= pow2(large),
{
    if small < large {
        lemma_pow2_strictly_increases(small, large);
    }
}

/// The instructions that reinterpret a float as an integer and back leave
/// the word as it is: no bit of a 64-bit value changes, and of a 32-bit
/// value the low half is kept.
pub proof fn lemma_reinterpretations(word: UntypedValue)
    ensures
        evaluate(Instruction::I64ReinterpretF64, word, word) == Evaluation::Value(word),
        evaluate(Instruction::F64ReinterpretI64, word, word) == Evaluation::Value(word),
        evaluate(Instruction::I32ReinterpretF32, word, word) == Evaluation::Value(
            UntypedValue::from_u32(word.to_u32()),
        ),
        evaluate(Instruction::F32ReinterpretI32, word, word) == Evaluation::Value(
            UntypedValue::from_u32(word.to_u32()),
        ),
{
}

} // verus!
