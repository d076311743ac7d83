//! Values without a type: the word that the interpreter moves around.

use crate::value::{Value, ValueType, F32, F64};
use vstd::prelude::*;

verus! {

/// A 64-bit word that holds a value of any type.
///
/// The word does not know the type of its value: the instruction that uses it
/// does. A 32-bit value occupies the low half and leaves the high half zero
/// when it is written; a reader looks at the low half only.
#[derive(Clone, Copy, Debug, PartialEq, Eq, Structural)]
pub struct UntypedValue {
    pub bits: u64,
}

impl UntypedValue {
    /// The word that holds the given `i32`.
    pub open spec fn spec_from_i32(value: i32) -> UntypedValue {
        UntypedValue { bits: (value as u32) as u64 }
    }

    /// Returns the word that holds the given `i32`.
    #[verifier::when_used_as_spec(spec_from_i32)]
    pub fn from_i32(value: i32) -> (word: UntypedValue)
        ensures
            word == UntypedValue::spec_from_i32(value),
    {
        UntypedValue { bits: (value as u32) as u64 }
    }

    /// The word that holds the given `u32`.
    pub open spec fn spec_from_u32(value: u32) -> UntypedValue {
        UntypedValue { bits: value as u64 }
    }

    /// Returns the word that holds the given `u32`.
    #[verifier::when_used_as_spec(spec_from_u32)]
    pub fn from_u32(value: u32) -> (word: UntypedValue)
        ensures
            word == UntypedValue::spec_from_u32(value),
    {
        UntypedValue { bits: value as u64 }
    }

    /// The word that holds the given `i64`.
    pub open spec fn spec_from_i64(value: i64) -> UntypedValue {
        UntypedValue { bits: value as u64 }
    }

    /// Returns the word that holds the given `i64`.
    #[verifier::when_used_as_spec(spec_from_i64)]
    pub fn from_i64(value: i64) -> (word: UntypedValue)
        ensures
            word == UntypedValue::spec_from_i64(value),
    {
        UntypedValue { bits: value as u64 }
    }

    /// The word that holds the given `u64`.
    pub open spec fn spec_from_u64(value: u64) -> UntypedValue {
        UntypedValue { bits: value }
    }

    /// Returns the word that holds the given `u64`.
    #[verifier::when_used_as_spec(spec_from_u64)]
    pub fn from_u64(value: u64) -> (word: UntypedValue)
        ensures
            word == UntypedValue::spec_from_u64(value),
    {
        UntypedValue { bits: value }
    }

    /// The word that holds 1 for `true` and 0 for `false`.
    pub open spec fn spec_from_bool(value: bool) -> UntypedValue {
        UntypedValue { bits: if value { 1 } else { 0 } }
    }

    /// Returns the word that holds 1 for `true` and 0 for `false`.
    #[verifier::when_used_as_spec(spec_from_bool)]
    pub fn from_bool(value: bool) -> (word: UntypedValue)
        ensures
            word == UntypedValue::spec_from_bool(value),
    {
        UntypedValue { bits: if value { 1 } else { 0 } }
    }

    /// The word that holds the bit pattern of the given `f32`.
    pub open spec fn spec_from_f32(value: F32) -> UntypedValue {
        UntypedValue { bits: value.bits as u64 }
    }

    /// Returns the word that holds the bit pattern of the given `f32`.
    #[verifier::when_used_as_spec(spec_from_f32)]
    pub fn from_f32(value: F32) -> (word: UntypedValue)
        ensures
            word == UntypedValue::spec_from_f32(value),
    {
        UntypedValue { bits: value.bits as u64 }
    }

    /// The word that holds the bit pattern of the given `f64`.
    pub open spec fn spec_from_f64(value: F64) -> UntypedValue {
        UntypedValue { bits: value.bits }
    }

    /// Returns the word that holds the bit pattern of the given `f64`.
    #[verifier::when_used_as_spec(spec_from_f64)]
    pub fn from_f64(value: F64) -> (word: UntypedValue)
        ensures
            word == UntypedValue::spec_from_f64(value),
    {
        UntypedValue { bits: value.bits }
    }

    /// The low half of the word.
    pub open spec fn spec_to_u32(self) -> u32 {
        self.bits as u32
    }

    /// Returns the low half of the word.
    #[verifier::when_used_as_spec(spec_to_u32)]
    pub fn to_u32(self) -> (value: u32)
        ensures
            value == self.spec_to_u32(),
    {
        self.bits as u32
    }

    /// The low half of the word, read as a signed number.
    pub open spec fn spec_to_i32(self) -> i32 {
        (self.bits as u32) as i32
    }

    /// Returns the low half of the word, read as a signed number.
    #[verifier::when_used_as_spec(spec_to_i32)]
    pub fn to_i32(self) -> (value: i32)
        ensures
            value == self.spec_to_i32(),
    {
        (self.bits as u32) as i32
    }

    /// The whole word.
    pub open spec fn spec_to_u64(self) -> u64 {
        self.bits
    }

    /// Returns the whole word.
    #[verifier::when_used_as_spec(spec_to_u64)]
    pub fn to_u64(self) -> (value: u64)
        ensures
            value == self.spec_to_u64(),
    {
        self.bits
    }

    /// The whole word, read as a signed number.
    pub open spec fn spec_to_i64(self) -> i64 {
        self.bits as i64
    }

    /// Returns the whole word, read as a signed number.
    #[verifier::when_used_as_spec(spec_to_i64)]
    pub fn to_i64(self) -> (value: i64)
        ensures
            value == self.spec_to_i64(),
    {
        self.bits as i64
    }

    /// The `f32` whose bit pattern is the low half of the word.
    pub open spec fn spec_to_f32(self) -> F32 {
        F32 { bits: self.bits as u32 }
    }

    /// Returns the `f32` whose bit pattern is the low half of the word.
    #[verifier::when_used_as_spec(spec_to_f32)]
    pub fn to_f32(self) -> (value: F32)
        ensures
            value == self.spec_to_f32(),
    {
        F32 { bits: self.bits as u32 }
    }

    /// The `f64` whose bit pattern is the word.
    pub open spec fn spec_to_f64(self) -> F64 {
        F64 { bits: self.bits }
    }

    /// Returns the `f64` whose bit pattern is the word.
    #[verifier::when_used_as_spec(spec_to_f64)]
    pub fn to_f64(self) -> (value: F64)
        ensures
            value == self.spec_to_f64(),
    {
        F64 { bits: self.bits }
    }

    /// The word that holds the given value.
    pub open spec fn spec_from_value(value: Value) -> UntypedValue {
        match value {
            Value::I32(v) => UntypedValue::spec_from_i32(v),
            Value::I64(v) => UntypedValue::spec_from_i64(v),
            Value::F32(v) => UntypedValue::spec_from_f32(v),
            Value::F64(v) => UntypedValue::spec_from_f64(v),
        }
    }

    /// Returns the word that holds the given value; the type is forgotten.
    #[verifier::when_used_as_spec(spec_from_value)]
    pub fn from_value(value: Value) -> (word: UntypedValue)
        ensures
            word == UntypedValue::spec_from_value(value),
    {
        match value {
            Value::I32(v) => UntypedValue::from_i32(v),
            Value::I64(v) => UntypedValue::from_i64(v),
            Value::F32(v) => UntypedValue::from_f32(v),
            Value::F64(v) => UntypedValue::from_f64(v),
        }
    }

    /// The value of type `ty` that the word holds.
    pub open spec fn spec_to_value(self, ty: ValueType) -> Value {
        match ty {
            ValueType::I32 => Value::I32(self.spec_to_i32()),
            ValueType::I64 => Value::I64(self.spec_to_i64()),
            ValueType::F32 => Value::F32(self.spec_to_f32()),
            ValueType::F64 => Value::F64(self.spec_to_f64()),
        }
    }

    /// Returns the value of type `ty` that the word holds.
    #[verifier::when_used_as_spec(spec_to_value)]
    pub fn to_value(self, ty: ValueType) -> (value: Value)
        ensures
            value == self.spec_to_value(ty),
    {
        match ty {
            ValueType::I32 => Value::I32(self.to_i32()),
            ValueType::I64 => Value::I64(self.to_i64()),
            ValueType::F32 => Value::F32(self.to_f32()),
            ValueType::F64 => Value::F64(self.to_f64()),
        }
    }
}

/// A value that is written to a word and read back with its type is the same
/// value: no bit is lost on the way.
pub proof fn lemma_value_round_trip(value: Value)
    ensures
        UntypedValue::from_value(value).to_value(value.value_type()) == value,
{
    match value {
        Value::I32(v) => {
            assert((((v as u32) as u64) as u32) as i32 == v) by (bit_vector);
        },
        Value::I64(v) => {
            assert((v as u64) as i64 == v) by (bit_vector);
        },
        Value::F32(v) => {
            let bits = v.bits;
            assert((bits as u64) as u32 == bits) by (bit_vector);
        },
        Value::F64(v) => {},
    }
}

/// Reinterpreting an `f64` as an `i64` and back preserves every bit, the
/// payload of a NaN included; so does the way through `f32` and `i32`.
pub proof fn lemma_reinterpret_round_trip(double: F64, single: F32)
    ensures
        UntypedValue::from_i64(UntypedValue::from_f64(double).to_i64()).to_f64() == double,
        UntypedValue::from_i32(UntypedValue::from_f32(single).to_i32()).to_f32() == single,
{
    let d = double.bits;
    assert(((d as i64) as u64) == d) by (bit_vector);
    let s = single.bits;
    assert((((((s as u64) as u32) as i32) as u32) as u64) as u32 == s) by (bit_vector);
}

} // verus!
