//! What holds of every run of the machine.

use super::machine::{Extension, Outcome, Signal, World};
use crate::engine::bytecode::{DropKeep, Instruction, InstructionIdx, Target};
use crate::memory::{lemma_le_value_in_range, lemma_ranges, lemma_store_after_load};
use crate::module::{FuncIdx, FuncTypeIdx, GlobalIdx, TableIdx};
use crate::store::Func;
use crate::trap::TrapCode;
use crate::untyped::UntypedValue;
use vstd::prelude::*;

verus! {

impl World {
    /// The number of bytes of the linear memory of the running call.
    pub open spec fn memory_len(self) -> nat {
        self.store.memories[self.memory().unwrap().0 as int].bytes.len()
    }

    /// The slots of the table at `table` of the instance of the running call.
    pub open spec fn table_slots(self, table: TableIdx) -> Seq<Option<Func>> {
        self.store.tables[self.instance().unwrap().tables[table.0 as int].0 as int]
    }
}

/// A load traps if the bytes it asks for do not all lie within the memory:
/// if the address, the static offset and the width together exceed the size
/// of the memory. The address and the offset are added without wrapping
/// around.
pub proof fn lemma_load_out_of_bounds(world: World, offset: u32, width: nat, extend: Extension)
    requires
        world.memory() is Some,
        world.height() >= 1,
        world.values().last().to_u32() + offset + width > world.memory_len(),
    ensures
        world.load(offset, width, extend) == world.trap(TrapCode::MemoryAccessOutOfBounds),
{
}

/// A load within the memory is no access out of bounds, and an access of no
/// bytes lies within the memory up to its very end.
pub proof fn lemma_load_in_bounds(world: World, offset: u32, width: nat, extend: Extension)
    requires
        world.memory() is Some,
        world.height() >= 1,
        world.values().last().to_u32() + offset + width <= world.memory_len(),
    ensures
        world.load(offset, width, extend).1 != Signal::Trap(TrapCode::MemoryAccessOutOfBounds),
        world.store.memories[world.memory().unwrap().0 as int].in_bounds(
            (world.values().last().to_u32() + offset) as u64,
            0,
        ),
{
}

/// A store traps, and leaves the store of the machine as it is, if the bytes
/// it would write do not all lie within the memory.
pub proof fn lemma_store_out_of_bounds(world: World, offset: u32, width: nat)
    requires
        world.memory() is Some,
        world.height() >= 2,
        world.values()[world.values().len() - 2].to_u32() + offset + width
            > world.memory_len(),
    ensures
        world.store(offset, width) == world.trap(TrapCode::MemoryAccessOutOfBounds),
        world.store(offset, width).0.store == world.store,
{
}

/// An indirect call traps if the function in the table slot has another
/// signature than the type that the call declares.
pub proof fn lemma_indirect_call_checks_signature(
    world: World,
    ty: FuncTypeIdx,
    table: TableIdx,
    func: Func,
)
    requires
        world.instance() is Some,
        world.height() >= 1,
        table.0 < world.instance().unwrap().tables.len(),
        world.instance().unwrap().tables[table.0 as int].0 < world.store.tables.len(),
        ty.0 < world.instance().unwrap().types.len(),
        world.values().last().to_u32() < world.table_slots(table).len(),
        world.table_slots(table)[world.values().last().to_u32() as int] == Some(func),
        func.0 < world.store.funcs.len(),
        world.store.funcs[func.0 as int].signature()
            != world.instance().unwrap().types[ty.0 as int],
    ensures
        world.call_indirect(ty, table) == world.trap(TrapCode::UnexpectedSignature),
{
}

/// Loading an `i64` and storing it back at the same address leaves the
/// memory unchanged: if the two topmost values are the same address, an
/// `i64.load` followed by an `i64.store` with the same offset changes nothing
/// in the store.
pub proof fn lemma_load_then_store_keeps_memory(world: World, offset: u32)
    requires
        world.machine.frames.len() > 0,
        world.height() >= 2,
        world.values().last().to_u32() == world.values()[world.values().len() - 2].to_u32(),
        world.load(offset, 8, Extension::Word64).1 == Signal::Continue,
    ensures
        ({
            let loaded = world.load(offset, 8, Extension::Word64).0;
            &&& loaded.store == world.store
            &&& loaded.store(offset, 8).1 == Signal::Continue
            &&& loaded.store(offset, 8).0.store == world.store
        }),
{
    let memory = world.memory().unwrap();
    let before = world.store.memories[memory.0 as int];
    let address = (world.values().last().to_u32() + offset) as u64;
    let loaded = world.load(offset, 8, Extension::Word64).0;
    lemma_store_after_load(before, address, 8);
    lemma_le_value_in_range(before.slice(address, 8));
    lemma_ranges();
    let number = before.load(address, 8).unwrap();
    assert(UntypedValue::from_u64(number as u64).bits as nat == number);
    assert(loaded.frame().instance == world.frame().instance);
    assert(loaded.frame().fp == world.frame().fp);
    assert(loaded.memory() == world.memory());
    assert(loaded.values().last() == UntypedValue::from_u64(number as u64));
    assert(loaded.values()[loaded.values().len() - 2] == world.values()[world.values().len()
        - 2]);
    assert(world.store.memories.update(memory.0 as int, before) =~= world.store.memories);
}

/// A trap leaves both stacks empty and the machine waiting for nothing, and
/// it changes nothing in the store.
pub proof fn lemma_trap_unwinds(world: World, code: TrapCode)
    ensures
        world.trap(code).1 == Signal::Trap(code),
        world.trap(code).0.machine.values.len() == 0,
        world.trap(code).0.machine.frames.len() == 0,
        world.trap(code).0.machine.pending is None,
        world.trap(code).0.store == world.store,
{
}

/// What a step of the machine reports is never an interruption, and a step
/// that finds the code or the store malformed changes nothing.
pub open spec fn is_orderly(world: World, outcome: Outcome) -> bool {
    &&& outcome.1 != Signal::Interrupted
    &&& outcome.1 == Signal::Malformed ==> outcome.0 == world
}

/// The instructions that move values on the stack are orderly.
proof fn lemma_stack_instructions_orderly(world: World, depth: usize)
    ensures
        is_orderly(world, world.local_get(depth)),
        is_orderly(world, world.local_set(depth)),
        is_orderly(world, world.local_tee(depth)),
        is_orderly(world, world.drop()),
        is_orderly(world, world.select()),
{
}

/// The branches and returns are orderly.
proof fn lemma_branches_orderly(world: World, target: Target, len: usize)
    ensures
        is_orderly(world, world.branch(world.values(), target)),
        is_orderly(world, world.br_if(target, true)),
        is_orderly(world, world.br_if(target, false)),
        is_orderly(world, world.return_if_nez(target.drop_keep)),
        is_orderly(world, world.ret(world.values(), target.drop_keep)),
        is_orderly(world, world.br_table(len)),
{
}

/// The calls are orderly.
proof fn lemma_calls_orderly(world: World, index: FuncIdx, ty: FuncTypeIdx, table: TableIdx)
    ensures
        is_orderly(world, world.call(index)),
        is_orderly(world, world.call_indirect(ty, table)),
{
}

/// The instructions on globals and on the memory are orderly.
proof fn lemma_store_instructions_orderly(
    world: World,
    index: GlobalIdx,
    offset: u32,
    width: nat,
    extend: Extension,
)
    ensures
        is_orderly(world, world.global_get(index)),
        is_orderly(world, world.global_set(index)),
        is_orderly(world, world.load(offset, width, extend)),
        is_orderly(world, world.store(offset, width)),
        is_orderly(world, world.memory_size()),
        is_orderly(world, world.memory_grow()),
{
}

/// The constants and the numeric instructions are orderly.
proof fn lemma_numeric_orderly(world: World, inst: Instruction, value: UntypedValue)
    ensures
        is_orderly(world, world.proceed(world.values().push(value))),
        is_orderly(world, world.numeric(inst)),
        is_orderly(world, world.trap(TrapCode::Unreachable)),
{
}

/// Every instruction is orderly.
pub proof fn lemma_execute_orderly(world: World, inst: Instruction)
    ensures
        is_orderly(world, world.execute(inst)),
{
    reveal(World::execute);
    match inst {
        Instruction::LocalGet(depth)
        | Instruction::LocalSet(depth)
        | Instruction::LocalTee(depth) => {
            lemma_stack_instructions_orderly(world, depth);
        },
        Instruction::Drop | Instruction::Select => {
            lemma_stack_instructions_orderly(world, 0);
        },
        Instruction::Br(target) | Instruction::BrIfEqz(target) | Instruction::BrIfNez(target) => {
            lemma_branches_orderly(world, target, 0);
        },
        Instruction::ReturnIfNez(adjust) | Instruction::Return(adjust) => {
            lemma_branches_orderly(
                world,
                Target { dst_pc: InstructionIdx(0), drop_keep: adjust },
                0,
            );
        },
        Instruction::BrTable(len) => {
            lemma_branches_orderly(
                world,
                Target { dst_pc: InstructionIdx(0), drop_keep: DropKeep { drop: 0, keep: 0 } },
                len,
            );
        },
        Instruction::Call(index) => {
            lemma_calls_orderly(world, index, FuncTypeIdx(0), TableIdx(0));
        },
        Instruction::CallIndirect(ty, table) => {
            lemma_calls_orderly(world, FuncIdx(0), ty, table);
        },
        Instruction::GlobalGet(index) | Instruction::GlobalSet(index) => {
            lemma_store_instructions_orderly(world, index, 0, 1, Extension::Word32);
        },
        Instruction::MemorySize | Instruction::MemoryGrow => {
            lemma_store_instructions_orderly(world, GlobalIdx(0), 0, 1, Extension::Word32);
        },
        Instruction::I32Const(value) => {
            lemma_numeric_orderly(world, inst, UntypedValue::from_i32(value));
        },
        Instruction::I64Const(value) => {
            lemma_numeric_orderly(world, inst, UntypedValue::from_i64(value));
        },
        Instruction::F32Const(value) => {
            lemma_numeric_orderly(world, inst, UntypedValue::from_f32(value));
        },
        Instruction::F64Const(value) => {
            lemma_numeric_orderly(world, inst, UntypedValue::from_f64(value));
        },
        _ => {
            lemma_memory_accesses_orderly(world, inst);
            lemma_numeric_orderly(world, inst, UntypedValue::from_u64(0));
        },
    }
}

/// The loads and stores are orderly.
proof fn lemma_memory_accesses_orderly(world: World, inst: Instruction)
    ensures
        forall|offset: u32, width: nat, extend: Extension|
            is_orderly(world, #[trigger] world.load(offset, width, extend)),
        forall|offset: u32, width: nat| is_orderly(world, #[trigger] world.store(offset, width)),
{
    assert forall|offset: u32, width: nat, extend: Extension|
        is_orderly(world, #[trigger] world.load(offset, width, extend)) by {
        lemma_store_instructions_orderly(world, GlobalIdx(0), offset, width, extend);
    }
    assert forall|offset: u32, width: nat|
        is_orderly(world, #[trigger] world.store(offset, width)) by {
        lemma_store_instructions_orderly(world, GlobalIdx(0), offset, width, Extension::Word32);
    }
}

/// Every step is orderly: it never reports an interruption, which only a
/// run without fuel does, and it changes nothing if it finds the code or the
/// store malformed.
pub proof fn lemma_step_orderly(world: World)
    ensures
        is_orderly(world, world.step()),
{
    if world.machine.pending is None && world.machine.frames.len() > 0 && world.frame().fp
        <= world.values().len() {
        match world.engine.fetch(world.frame().body, world.frame().pc) {
            Some(inst) => {
                lemma_execute_orderly(world, inst);
            },
            None => {},
        }
    }
}

/// A run that is interrupted can be taken up again: running for `first`
/// steps and then, if the fuel was used up, for `second` more is running for
/// `first + second` steps.
pub proof fn lemma_run_in_two_parts(world: World, first: nat, second: nat)
    ensures
        world.run(first + second) == (if world.run(first).1 == Signal::Interrupted {
            world.run(first).0.run(second)
        } else {
            world.run(first)
        }),
    decreases first,
{
    if first > 0 {
        let (next, signal) = world.step();
        if signal == Signal::Continue {
            lemma_run_in_two_parts(next, (first - 1) as nat, second);
            assert(world.run(first + second) == next.run((first - 1 + second) as nat));
        } else {
            lemma_step_orderly(world);
        }
    }
}

} // verus!
