//! WebAssembly value types and typed values.

use vstd::prelude::*;

verus! {

/// The type of a WebAssembly value.
#[derive(Clone, Copy, Debug, PartialEq, Eq, Structural)]
pub enum ValueType {
    /// 32-bit integer, signedness is decided by the operator.
    I32,
    /// 64-bit integer, signedness is decided by the operator.
    I64,
    /// 32-bit IEEE-754 float.
    F32,
    /// 64-bit IEEE-754 float.
    F64,
}

/// A 32-bit float kept as its bit pattern.
///
/// No operation of this type looks through a float register, so every NaN
/// payload survives moves, loads, stores and reinterpretations unchanged.
#[derive(Clone, Copy, Debug, PartialEq, Eq, Structural)]
pub struct F32 {
    pub bits: u32,
}

/// A 64-bit float kept as its bit pattern.
///
/// See [`F32`] for why the bit pattern is stored.
#[derive(Clone, Copy, Debug, PartialEq, Eq, Structural)]
pub struct F64 {
    pub bits: u64,
}

impl F32 {
    /// Creates the float with the given bit pattern.
    pub fn from_bits(bits: u32) -> (f: F32)
        ensures
            f.bits == bits,
    {
        F32 { bits }
    }

    /// Returns the bit pattern of the float.
    pub fn to_bits(self) -> (bits: u32)
        ensures
            bits == self.bits,
    {
        self.bits
    }
}

impl F64 {
    /// Creates the float with the given bit pattern.
    pub fn from_bits(bits: u64) -> (f: F64)
        ensures
            f.bits == bits,
    {
        F64 { bits }
    }

    /// Returns the bit pattern of the float.
    pub fn to_bits(self) -> (bits: u64)
        ensures
            bits == self.bits,
    {
        self.bits
    }
}

/// A WebAssembly value together with its type.
#[derive(Clone, Copy, Debug, PartialEq, Eq, Structural)]
pub enum Value {
    I32(i32),
    I64(i64),
    F32(F32),
    F64(F64),
}

impl Value {
    /// The type of the value.
    pub open spec fn spec_value_type(self) -> ValueType {
        match self {
            Value::I32(_) => ValueType::I32,
            Value::I64(_) => ValueType::I64,
            Value::F32(_) => ValueType::F32,
            Value::F64(_) => ValueType::F64,
        }
    }

    /// Returns the type of the value.
    #[verifier::when_used_as_spec(spec_value_type)]
    pub fn value_type(self) -> (ty: ValueType)
        ensures
            ty == self.spec_value_type(),
    {
        match self {
            Value::I32(_) => ValueType::I32,
            Value::I64(_) => ValueType::I64,
            Value::F32(_) => ValueType::F32,
            Value::F64(_) => ValueType::F64,
        }
    }

    /// The zero value of the given type: what a local holds before it is set.
    pub open spec fn spec_default_of(ty: ValueType) -> Value {
        match ty {
            ValueType::I32 => Value::I32(0),
            ValueType::I64 => Value::I64(0),
            ValueType::F32 => Value::F32(F32 { bits: 0 }),
            ValueType::F64 => Value::F64(F64 { bits: 0 }),
        }
    }

    /// Returns the zero value of the given type.
    #[verifier::when_used_as_spec(spec_default_of)]
    pub fn default_of(ty: ValueType) -> (v: Value)
        ensures
            v == Value::spec_default_of(ty),
    {
        match ty {
            ValueType::I32 => Value::I32(0),
            ValueType::I64 => Value::I64(0),
            ValueType::F32 => Value::F32(F32 { bits: 0 }),
            ValueType::F64 => Value::F64(F64 { bits: 0 }),
        }
    }
}

} // verus!
