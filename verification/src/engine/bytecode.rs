//! The internal instruction set that translated functions are made of.

use crate::module::{FuncIdx, FuncTypeIdx, GlobalIdx, TableIdx};
use crate::value::{F32, F64};
use vstd::prelude::*;

verus! {

/// The position of an instruction in the code of one function.
#[derive(Clone, Copy, Debug, PartialEq, Eq, Structural)]
pub struct InstructionIdx(pub usize);

impl InstructionIdx {
    /// The position that stands for "not known yet".
    ///
    /// A branch to a label that is still unbound carries it until the code is
    /// finalised.
    pub open spec fn spec_invalid() -> InstructionIdx {
        InstructionIdx(usize::MAX)
    }

    /// Returns the position that stands for "not known yet".
    #[verifier::when_used_as_spec(spec_invalid)]
    pub fn invalid() -> (idx: InstructionIdx)
        ensures
            idx == InstructionIdx::spec_invalid(),
    {
        InstructionIdx(usize::MAX)
    }

    /// Returns the position as a plain index.
    pub fn into_usize(self) -> (idx: usize)
        ensures
            idx == self.0,
    {
        self.0
    }
}

/// How a branch reshapes the value stack: `keep` values stay on top and the
/// `drop` values below them are removed.
#[derive(Clone, Copy, Debug, PartialEq, Eq, Structural)]
pub struct DropKeep {
    pub drop: usize,
    pub keep: usize,
}

impl DropKeep {
    /// Creates the pair of the two counts.
    pub fn new(drop: usize, keep: usize) -> (drop_keep: DropKeep)
        ensures
            drop_keep == (DropKeep { drop, keep }),
    {
        DropKeep { drop, keep }
    }

    /// Returns the number of values that are removed.
    pub fn drop(&self) -> (drop: usize)
        ensures
            drop == self.drop,
    {
        self.drop
    }

    /// Returns the number of values that stay on top.
    pub fn keep(&self) -> (keep: usize)
        ensures
            keep == self.keep,
    {
        self.keep
    }
}

/// The destination of a branch.
#[derive(Clone, Copy, Debug, PartialEq, Eq, Structural)]
pub struct Target {
    pub dst_pc: InstructionIdx,
    pub drop_keep: DropKeep,
}

impl Target {
    /// Creates the target from the destination and the stack adjustment.
    pub fn new(dst_pc: InstructionIdx, drop_keep: DropKeep) -> (target: Target)
        ensures
            target == (Target { dst_pc, drop_keep }),
    {
        Target { dst_pc, drop_keep }
    }

    /// Returns the position at which execution continues.
    pub fn destination_pc(&self) -> (dst_pc: InstructionIdx)
        ensures
            dst_pc == self.dst_pc,
    {
        self.dst_pc
    }

    /// Returns the stack adjustment made on the way.
    pub fn drop_keep(&self) -> (drop_keep: DropKeep)
        ensures
            drop_keep == self.drop_keep,
    {
        self.drop_keep
    }

    /// Replaces the destination and leaves the stack adjustment alone.
    pub fn update_destination_pc(&mut self, dst_pc: InstructionIdx)
        ensures
            *final(self) == (Target { dst_pc, drop_keep: old(self).drop_keep }),
    {
        self.dst_pc = dst_pc;
    }
}

/// An instruction of the internal instruction set.
///
/// Local variables are addressed by their distance from the top of the value
/// stack, branches carry absolute positions, and every numeric operator has a
/// variant of its own, so an instruction never has to be told the type of its
/// operands.
#[derive(Clone, Copy, Debug, PartialEq, Eq, Structural)]
pub enum Instruction {
    /// Pushes a copy of the value `depth` slots below the top.
    LocalGet(usize),
    /// Pops a value and writes it `depth` slots below the new top.
    LocalSet(usize),
    /// Writes a copy of the top value `depth` slots below the top.
    LocalTee(usize),
    /// Branches unconditionally.
    Br(Target),
    /// Pops an `i32` and branches if it is zero.
    BrIfEqz(Target),
    /// Pops an `i32` and branches if it is not zero.
    BrIfNez(Target),
    /// Pops an `i32` and returns from the function if it is not zero.
    ReturnIfNez(DropKeep),
    /// Pops an `i32` and continues at one of the following entries: entry `i`
    /// for the value `i`, the last one for every value that has no entry.
    /// The operand is the number of entries; each entry is a `Br` or a `Return`.
    BrTable(usize),
    /// Traps.
    Unreachable,
    /// Returns from the function.
    Return(DropKeep),
    /// Calls the function at the given index of the instance.
    Call(FuncIdx),
    /// Pops a table index and calls the function found there, which must have
    /// the given type.
    CallIndirect(FuncTypeIdx, TableIdx),
    /// Pops a value.
    Drop,
    /// Pops a condition and two values and pushes the first value if the
    /// condition is not zero, the second otherwise.
    Select,
    /// Pushes the value of a global.
    GlobalGet(GlobalIdx),
    /// Pops a value into a global.
    GlobalSet(GlobalIdx),
    /// `i32.load` with the given static offset.
    I32Load(u32),
    /// `i64.load` with the given static offset.
    I64Load(u32),
    /// `f32.load` with the given static offset.
    F32Load(u32),
    /// `f64.load` with the given static offset.
    F64Load(u32),
    /// `i32.load8_s` with the given static offset.
    I32Load8S(u32),
    /// `i32.load8_u` with the given static offset.
    I32Load8U(u32),
    /// `i32.load16_s` with the given static offset.
    I32Load16S(u32),
    /// `i32.load16_u` with the given static offset.
    I32Load16U(u32),
    /// `i64.load8_s` with the given static offset.
    I64Load8S(u32),
    /// `i64.load8_u` with the given static offset.
    I64Load8U(u32),
    /// `i64.load16_s` with the given static offset.
    I64Load16S(u32),
    /// `i64.load16_u` with the given static offset.
    I64Load16U(u32),
    /// `i64.load32_s` with the given static offset.
    I64Load32S(u32),
    /// `i64.load32_u` with the given static offset.
    I64Load32U(u32),
    /// `i32.store` with the given static offset.
    I32Store(u32),
    /// `i64.store` with the given static offset.
    I64Store(u32),
    /// `f32.store` with the given static offset.
    F32Store(u32),
    /// `f64.store` with the given static offset.
    F64Store(u32),
    /// `i32.store8` with the given static offset.
    I32Store8(u32),
    /// `i32.store16` with the given static offset.
    I32Store16(u32),
    /// `i64.store8` with the given static offset.
    I64Store8(u32),
    /// `i64.store16` with the given static offset.
    I64Store16(u32),
    /// `i64.store32` with the given static offset.
    I64Store32(u32),
    /// Pushes the size of the memory in pages.
    MemorySize,
    /// Pops a number of pages, grows the memory by it and pushes the old
    /// size, or -1 if the memory cannot grow that far.
    MemoryGrow,
    /// Pushes the constant.
    I32Const(i32),
    /// Pushes the constant.
    I64Const(i64),
    /// Pushes the constant.
    F32Const(F32),
    /// Pushes the constant.
    F64Const(F64),
    /// `i32.eqz`
    I32Eqz,
    /// `i32.eq`
    I32Eq,
    /// `i32.ne`
    I32Ne,
    /// `i32.lt_s`
    I32LtS,
    /// `i32.lt_u`
    I32LtU,
    /// `i32.gt_s`
    I32GtS,
    /// `i32.gt_u`
    I32GtU,
    /// `i32.le_s`
    I32LeS,
    /// `i32.le_u`
    I32LeU,
    /// `i32.ge_s`
    I32GeS,
    /// `i32.ge_u`
    I32GeU,
    /// `i64.eqz`
    I64Eqz,
    /// `i64.eq`
    I64Eq,
    /// `i64.ne`
    I64Ne,
    /// `i64.lt_s`
    I64LtS,
    /// `i64.lt_u`
    I64LtU,
    /// `i64.gt_s`
    I64GtS,
    /// `i64.gt_u`
    I64GtU,
    /// `i64.le_s`
    I64LeS,
    /// `i64.le_u`
    I64LeU,
    /// `i64.ge_s`
    I64GeS,
    /// `i64.ge_u`
    I64GeU,
    /// `f32.eq`
    F32Eq,
    /// `f32.ne`
    F32Ne,
    /// `f32.lt`
    F32Lt,
    /// `f32.gt`
    F32Gt,
    /// `f32.le`
    F32Le,
    /// `f32.ge`
    F32Ge,
    /// `f64.eq`
    F64Eq,
    /// `f64.ne`
    F64Ne,
    /// `f64.lt`
    F64Lt,
    /// `f64.gt`
    F64Gt,
    /// `f64.le`
    F64Le,
    /// `f64.ge`
    F64Ge,
    /// `i32.clz`
    I32Clz,
    /// `i32.ctz`
    I32Ctz,
    /// `i32.popcnt`
    I32Popcnt,
    /// `i32.add`
    I32Add,
    /// `i32.sub`
    I32Sub,
    /// `i32.mul`
    I32Mul,
    /// `i32.div_s`
    I32DivS,
    /// `i32.div_u`
    I32DivU,
    /// `i32.rem_s`
    I32RemS,
    /// `i32.rem_u`
    I32RemU,
    /// `i32.and`
    I32And,
    /// `i32.or`
    I32Or,
    /// `i32.xor`
    I32Xor,
    /// `i32.shl`
    I32Shl,
    /// `i32.shr_s`
    I32ShrS,
    /// `i32.shr_u`
    I32ShrU,
    /// `i32.rotl`
    I32Rotl,
    /// `i32.rotr`
    I32Rotr,
    /// `i64.clz`
    I64Clz,
    /// `i64.ctz`
    I64Ctz,
    /// `i64.popcnt`
    I64Popcnt,
    /// `i64.add`
    I64Add,
    /// `i64.sub`
    I64Sub,
    /// `i64.mul`
    I64Mul,
    /// `i64.div_s`
    I64DivS,
    /// `i64.div_u`
    I64DivU,
    /// `i64.rem_s`
    I64RemS,
    /// `i64.rem_u`
    I64RemU,
    /// `i64.and`
    I64And,
    /// `i64.or`
    I64Or,
    /// `i64.xor`
    I64Xor,
    /// `i64.shl`
    I64Shl,
    /// `i64.shr_s`
    I64ShrS,
    /// `i64.shr_u`
    I64ShrU,
    /// `i64.rotl`
    I64Rotl,
    /// `i64.rotr`
    I64Rotr,
    /// `f32.abs`
    F32Abs,
    /// `f32.neg`
    F32Neg,
    /// `f32.ceil`
    F32Ceil,
    /// `f32.floor`
    F32Floor,
    /// `f32.trunc`
    F32Trunc,
    /// `f32.nearest`
    F32Nearest,
    /// `f32.sqrt`
    F32Sqrt,
    /// `f32.add`
    F32Add,
    /// `f32.sub`
    F32Sub,
    /// `f32.mul`
    F32Mul,
    /// `f32.div`
    F32Div,
    /// `f32.min`
    F32Min,
    /// `f32.max`
    F32Max,
    /// `f32.copysign`
    F32Copysign,
    /// `f64.abs`
    F64Abs,
    /// `f64.neg`
    F64Neg,
    /// `f64.ceil`
    F64Ceil,
    /// `f64.floor`
    F64Floor,
    /// `f64.trunc`
    F64Trunc,
    /// `f64.nearest`
    F64Nearest,
    /// `f64.sqrt`
    F64Sqrt,
    /// `f64.add`
    F64Add,
    /// `f64.sub`
    F64Sub,
    /// `f64.mul`
    F64Mul,
    /// `f64.div`
    F64Div,
    /// `f64.min`
    F64Min,
    /// `f64.max`
    F64Max,
    /// `f64.copysign`
    F64Copysign,
    /// `i32.wrap_i64`
    I32WrapI64,
    /// `i32.trunc_f32_s`
    I32TruncF32S,
    /// `i32.trunc_f32_u`
    I32TruncF32U,
    /// `i32.trunc_f64_s`
    I32TruncF64S,
    /// `i32.trunc_f64_u`
    I32TruncF64U,
    /// `i64.extend_i32_s`
    I64ExtendI32S,
    /// `i64.extend_i32_u`
    I64ExtendI32U,
    /// `i64.trunc_f32_s`
    I64TruncF32S,
    /// `i64.trunc_f32_u`
    I64TruncF32U,
    /// `i64.trunc_f64_s`
    I64TruncF64S,
    /// `i64.trunc_f64_u`
    I64TruncF64U,
    /// `f32.convert_i32_s`
    F32ConvertI32S,
    /// `f32.convert_i32_u`
    F32ConvertI32U,
    /// `f32.convert_i64_s`
    F32ConvertI64S,
    /// `f32.convert_i64_u`
    F32ConvertI64U,
    /// `f32.demote_f64`
    F32DemoteF64,
    /// `f64.convert_i32_s`
    F64ConvertI32S,
    /// `f64.convert_i32_u`
    F64ConvertI32U,
    /// `f64.convert_i64_s`
    F64ConvertI64S,
    /// `f64.convert_i64_u`
    F64ConvertI64U,
    /// `f64.promote_f32`
    F64PromoteF32,
    /// `i32.reinterpret_f32`
    I32ReinterpretF32,
    /// `i64.reinterpret_f64`
    I64ReinterpretF64,
    /// `f32.reinterpret_i32`
    F32ReinterpretI32,
    /// `f64.reinterpret_i64`
    F64ReinterpretI64,
    /// `i32.extend8_s`
    I32Extend8S,
    /// `i32.extend16_s`
    I32Extend16S,
    /// `i64.extend8_s`
    I64Extend8S,
    /// `i64.extend16_s`
    I64Extend16S,
    /// `i64.extend32_s`
    I64Extend32S,
    /// `i32.trunc_sat_f32_s`
    I32TruncSatF32S,
    /// `i32.trunc_sat_f32_u`
    I32TruncSatF32U,
    /// `i32.trunc_sat_f64_s`
    I32TruncSatF64S,
    /// `i32.trunc_sat_f64_u`
    I32TruncSatF64U,
    /// `i64.trunc_sat_f32_s`
    I64TruncSatF32S,
    /// `i64.trunc_sat_f32_u`
    I64TruncSatF32U,
    /// `i64.trunc_sat_f64_s`
    I64TruncSatF64S,
    /// `i64.trunc_sat_f64_u`
    I64TruncSatF64U,
}

impl Instruction {
    /// The branch target that the instruction carries, if it is a branch.
    pub open spec fn spec_target(self) -> Option<Target> {
        match self {
            Instruction::Br(target) => Some(target),
            Instruction::BrIfEqz(target) => Some(target),
            Instruction::BrIfNez(target) => Some(target),
            _ => None,
        }
    }

    /// Returns the branch target that the instruction carries, if it is a
    /// branch.
    #[verifier::when_used_as_spec(spec_target)]
    pub fn target(self) -> (target: Option<Target>)
        ensures
            target == self.spec_target(),
    {
        match self {
            Instruction::Br(target) => Some(target),
            Instruction::BrIfEqz(target) => Some(target),
            Instruction::BrIfNez(target) => Some(target),
            _ => None,
        }
    }

    /// The same instruction with the destination of its branch target
    /// replaced; an instruction without a target is left as it is.
    pub open spec fn spec_with_destination(self, dst_pc: InstructionIdx) -> Instruction {
        match self {
            Instruction::Br(target) => Instruction::Br(
                Target { dst_pc, drop_keep: target.drop_keep },
            ),
            Instruction::BrIfEqz(target) => Instruction::BrIfEqz(
                Target { dst_pc, drop_keep: target.drop_keep },
            ),
            Instruction::BrIfNez(target) => Instruction::BrIfNez(
                Target { dst_pc, drop_keep: target.drop_keep },
            ),
            _ => self,
        }
    }

    /// Returns the same instruction with the destination of its branch target
    /// replaced; an instruction without a target is returned as it is.
    #[verifier::when_used_as_spec(spec_with_destination)]
    pub fn with_destination(self, dst_pc: InstructionIdx) -> (inst: Instruction)
        ensures
            inst == self.spec_with_destination(dst_pc),
    {
        match self {
            Instruction::Br(target) => Instruction::Br(Target::new(dst_pc, target.drop_keep)),
            Instruction::BrIfEqz(target) => Instruction::BrIfEqz(
                Target::new(dst_pc, target.drop_keep),
            ),
            Instruction::BrIfNez(target) => Instruction::BrIfNez(
                Target::new(dst_pc, target.drop_keep),
            ),
            inst => inst,
        }
    }
}

} // verus!
