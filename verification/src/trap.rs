//! Reasons for which execution halts.

use vstd::prelude::*;

verus! {

/// Why a WebAssembly activation was abandoned.
#[derive(Clone, Copy, Debug, PartialEq, Eq, Structural)]
pub enum TrapCode {
    /// An `unreachable` instruction was executed.
    Unreachable,
    /// A load or store touched bytes outside the linear memory.
    MemoryAccessOutOfBounds,
    /// An indirect call used an index outside the table.
    TableAccessOutOfBounds,
    /// An indirect call hit an empty table slot.
    ElemUninitialized,
    /// An integer division or remainder had a zero divisor.
    DivisionByZero,
    /// The result of an integer operation does not fit the result type.
    IntegerOverflow,
    /// A NaN or an infinity was converted to an integer.
    InvalidConversionToInt,
    /// The value stack or the call stack is exhausted.
    StackOverflow,
    /// An indirect call found a function of another type than it declared.
    UnexpectedSignature,
}

/// A trap code together with the tag that says whether the embedder may go on
/// using the store afterwards.
#[derive(Clone, Copy, Debug, PartialEq, Eq, Structural)]
pub struct Trap {
    pub code: TrapCode,
    pub resumable: bool,
}

impl Trap {
    /// A trap raised by guest code: the store stays usable.
    pub fn guest(code: TrapCode) -> (trap: Trap)
        ensures
            trap == (Trap { code, resumable: true }),
    {
        Trap { code, resumable: true }
    }

    /// A trap raised by the host or the infrastructure: it cannot be resumed.
    pub fn host(code: TrapCode) -> (trap: Trap)
        ensures
            trap == (Trap { code, resumable: false }),
    {
        Trap { code, resumable: false }
    }

    /// Returns the reason of the trap.
    pub fn code(&self) -> (code: TrapCode)
        ensures
            code == self.code,
    {
        self.code
    }

    /// Returns `true` if execution in the same store may continue after the trap.
    pub fn can_resume(&self) -> (resumable: bool)
        ensures
            resumable == self.resumable,
    {
        self.resumable
    }
}

} // verus!
