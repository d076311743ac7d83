//! The abstract machine: what each instruction does to the stacks and the
//! store.
//!
//! Everything here is ghost code: [`Executor`](super::Executor) is the
//! executable counterpart.

use crate::engine::bytecode::{DropKeep, Instruction, Target};
use crate::engine::{EngineView, FuncBody};
use crate::module::{FuncIdx, FuncTypeIdx, GlobalIdx, TableIdx};
use crate::numeric::{arity, evaluate, Evaluation};
use crate::store::{Func, FuncView, GlobalEntity, Instance, InstanceView, Memory, StoreView};
use crate::trap::TrapCode;
use crate::untyped::UntypedValue;
use crate::value::Value;
use vstd::prelude::*;

verus! {

/// The registers of one active call: the function that runs, the instance it
/// belongs to, the position of its next instruction, and the height of the
/// value stack at which its locals start.
#[derive(Clone, Copy, Debug, PartialEq, Eq, Structural)]
pub struct CallFrame {
    pub body: FuncBody,
    pub instance: Instance,
    pub pc: usize,
    pub fp: usize,
}

/// What the machine waits for while it is suspended.
#[derive(Clone, Copy, Debug, PartialEq, Eq, Structural)]
pub enum Pending {
    /// The results of a call of the given host function, whose arguments are
    /// on top of the value stack.
    Host { func: Func },
    /// The result of the given instruction on floats, whose operands are on
    /// top of the value stack.
    Float { inst: Instruction },
}

/// What a step of the machine reports.
#[derive(Clone, Copy, Debug, PartialEq, Eq, Structural)]
pub enum Signal {
    /// The machine is ready for the next step.
    Continue,
    /// The outermost call has returned; its results are the value stack.
    Finished,
    /// The execution was abandoned for the given reason; both stacks are
    /// empty.
    Trap(TrapCode),
    /// The machine is suspended before a call of the given host function.
    HostCall(Func),
    /// The machine is suspended at the given instruction on floats.
    Float(Instruction),
    /// The machine ran out of fuel between two instructions.
    Interrupted,
    /// The code or the store is not what a translation and an instantiation
    /// make; nothing was changed.
    Malformed,
}

/// The stacks of the machine.
pub struct MachineView {
    /// The value stack, bottom first: for each active call the arguments,
    /// the locals and the operands.
    pub values: Seq<UntypedValue>,
    /// The active calls, outermost first; the last one is running.
    pub frames: Seq<CallFrame>,
    /// What the machine waits for, if it is suspended.
    pub pending: Option<Pending>,
    /// The function that the outermost call entered, if there was a call.
    pub entry: Option<Func>,
    /// The greatest number of values that the value stack may hold.
    pub max_values: usize,
    /// The greatest number of calls that may be active at once.
    pub max_frames: usize,
}

/// The machine together with the code and the store it works on.
pub struct World {
    pub engine: EngineView,
    pub machine: MachineView,
    pub store: StoreView,
}

/// The world after a step and what the step reports.
pub type Outcome = (World, Signal);

/// The values above height `base` of `values` after the `keep` topmost of
/// them were moved down over the `drop` values beneath them, or `None` if
/// there are not that many above `base`.
pub open spec fn drop_keep(values: Seq<UntypedValue>, base: usize, adjust: DropKeep) -> Option<
    Seq<UntypedValue>,
> {
    if base + adjust.drop + adjust.keep <= values.len() {
        Some(
            values.take(values.len() - adjust.keep - adjust.drop) + values.skip(
                values.len() - adjust.keep,
            ),
        )
    } else {
        None
    }
}

/// The words of the given values.
pub open spec fn words(values: Seq<Value>) -> Seq<UntypedValue> {
    Seq::new(values.len(), |i: int| UntypedValue::from_value(values[i]))
}

/// `count` zero words: what locals hold when a call starts.
pub open spec fn zeros(count: nat) -> Seq<UntypedValue> {
    Seq::new(count, |i: int| UntypedValue { bits: 0 })
}

/// The types of the given values.
pub open spec fn types_of(values: Seq<Value>) -> Seq<crate::value::ValueType> {
    Seq::new(values.len(), |i: int| values[i].value_type())
}

impl World {
    /// The registers of the running call.
    pub open spec fn frame(self) -> CallFrame {
        self.machine.frames.last()
    }

    /// The value stack.
    pub open spec fn values(self) -> Seq<UntypedValue> {
        self.machine.values
    }

    /// The number of values that belong to the running call: its arguments,
    /// locals and operands.
    pub open spec fn height(self) -> int {
        self.values().len() - self.frame().fp
    }

    /// The instance of the running call, if its handle is one of the store.
    pub open spec fn instance(self) -> Option<InstanceView> {
        if self.frame().instance.0 < self.store.instances.len() {
            Some(self.store.instances[self.frame().instance.0 as int])
        } else {
            None
        }
    }

    /// The linear memory of the running call: memory 0 of its instance, if
    /// there is one and its handle is one of the store.
    pub open spec fn memory(self) -> Option<Memory> {
        match self.instance() {
            Some(instance) => if instance.memories.len() > 0 && instance.memories[0].0
                < self.store.memories.len() {
                Some(instance.memories[0])
            } else {
                None
            },
            None => None,
        }
    }

    /// The world with another value stack.
    pub open spec fn with_values(self, values: Seq<UntypedValue>) -> World {
        World { machine: MachineView { values, ..self.machine }, ..self }
    }

    /// The world with the running call at position `pc`.
    pub open spec fn at(self, pc: usize) -> World {
        World {
            machine: MachineView {
                frames: self.machine.frames.update(
                    self.machine.frames.len() - 1,
                    CallFrame { pc, ..self.frame() },
                ),
                ..self.machine
            },
            ..self
        }
    }

    /// The world with the running call at its next instruction. A position
    /// that cannot be counted any further stays where it is: no code reaches
    /// that far.
    pub open spec fn next(self) -> World {
        self.at(
            if self.frame().pc < usize::MAX {
                (self.frame().pc + 1) as usize
            } else {
                self.frame().pc
            },
        )
    }

    /// Nothing happens: the code or the store is malformed.
    pub open spec fn malformed(self) -> Outcome {
        (self, Signal::Malformed)
    }

    /// The execution is abandoned: both stacks are emptied and the machine
    /// waits for nothing. What the store holds stays as it is.
    pub open spec fn trap(self, code: TrapCode) -> Outcome {
        (
            World {
                machine: MachineView {
                    values: Seq::empty(),
                    frames: Seq::empty(),
                    pending: None,
                    ..self.machine
                },
                ..self
            },
            Signal::Trap(code),
        )
    }

    /// The machine goes on at the next instruction with another value stack,
    /// unless the stack has become too high.
    pub open spec fn proceed(self, values: Seq<UntypedValue>) -> Outcome {
        if values.len() > self.machine.max_values {
            self.trap(TrapCode::StackOverflow)
        } else {
            (self.with_values(values).next(), Signal::Continue)
        }
    }

    /// `local.get`: pushes a copy of the value `depth` below the top.
    pub open spec fn local_get(self, depth: usize) -> Outcome {
        if 1 <= depth <= self.height() {
            self.proceed(self.values().push(self.values()[self.values().len() - depth]))
        } else {
            self.malformed()
        }
    }

    /// `local.set`: pops a value and writes it `depth` below the new top.
    pub open spec fn local_set(self, depth: usize) -> Outcome {
        if 1 <= depth <= self.height() - 1 {
            self.proceed(
                self.values().drop_last().update(
                    self.values().len() - 1 - depth,
                    self.values().last(),
                ),
            )
        } else {
            self.malformed()
        }
    }

    /// `local.tee`: writes a copy of the top value `depth` below the top.
    pub open spec fn local_tee(self, depth: usize) -> Outcome {
        if 1 <= depth <= self.height() {
            self.proceed(
                self.values().update(self.values().len() - depth, self.values().last()),
            )
        } else {
            self.malformed()
        }
    }

    /// `drop`: pops a value.
    pub open spec fn drop(self) -> Outcome {
        if self.height() >= 1 {
            self.proceed(self.values().drop_last())
        } else {
            self.malformed()
        }
    }

    /// `select`: pops a condition and two values and pushes the first value
    /// if the condition is not zero, the second otherwise.
    pub open spec fn select(self) -> Outcome {
        if self.height() >= 3 {
            let len = self.values().len();
            let chosen = if self.values()[len - 1].to_u32() != 0 {
                self.values()[len - 3]
            } else {
                self.values()[len - 2]
            };
            self.proceed(self.values().take(len - 3).push(chosen))
        } else {
            self.malformed()
        }
    }

    /// A branch from the stack `values`: the stack is adjusted and the
    /// running call continues at the target.
    pub open spec fn branch(self, values: Seq<UntypedValue>, target: Target) -> Outcome {
        match drop_keep(values, self.frame().fp, target.drop_keep) {
            Some(adjusted) => (self.with_values(adjusted).at(target.dst_pc.0), Signal::Continue),
            None => self.malformed(),
        }
    }

    /// A return from the stack `values`: the stack is adjusted and the
    /// running call ends. The caller goes on where it left off; if there is
    /// no caller, the execution is finished.
    pub open spec fn ret(self, values: Seq<UntypedValue>, adjust: DropKeep) -> Outcome {
        match drop_keep(values, self.frame().fp, adjust) {
            Some(adjusted) => (
                World {
                    machine: MachineView {
                        values: adjusted,
                        frames: self.machine.frames.drop_last(),
                        ..self.machine
                    },
                    ..self
                },
                if self.machine.frames.len() == 1 {
                    Signal::Finished
                } else {
                    Signal::Continue
                },
            ),
            None => self.malformed(),
        }
    }

    /// `br_if`: pops a condition and branches if it is zero, for `on_zero`,
    /// or not zero, for `!on_zero`.
    pub open spec fn br_if(self, target: Target, on_zero: bool) -> Outcome {
        if self.height() >= 1 {
            if (self.values().last().to_u32() == 0) == on_zero {
                self.branch(self.values().drop_last(), target)
            } else {
                self.proceed(self.values().drop_last())
            }
        } else {
            self.malformed()
        }
    }

    /// `return_if_nez`: pops a condition and returns if it is not zero.
    pub open spec fn return_if_nez(self, adjust: DropKeep) -> Outcome {
        if self.height() >= 1 {
            if self.values().last().to_u32() != 0 {
                self.ret(self.values().drop_last(), adjust)
            } else {
                self.proceed(self.values().drop_last())
            }
        } else {
            self.malformed()
        }
    }

    /// `br_table` with `len` entries: pops an index and continues at the
    /// entry with that index, or at the last entry if the index is beyond
    /// the table.
    pub open spec fn br_table(self, len: usize) -> Outcome {
        if self.height() >= 1 && len >= 1 {
            let index = self.values().last().to_u32();
            let entry = if index < len - 1 {
                index as int
            } else {
                len - 1
            };
            if self.frame().pc + 1 + entry <= usize::MAX {
                (
                    self.with_values(self.values().drop_last()).at(
                        (self.frame().pc + 1 + entry) as usize,
                    ),
                    Signal::Continue,
                )
            } else {
                self.malformed()
            }
        } else {
            self.malformed()
        }
    }

    /// A call of the function behind `func` from the stack `values`, on top
    /// of which the arguments lie.
    ///
    /// A host function suspends the machine. A translated function becomes
    /// the running call: the caller is left at its next instruction, the
    /// arguments become the first locals of the callee and the declared
    /// locals are pushed as zeros. The call traps if too many calls are
    /// active or if the value stack cannot hold what the callee may push.
    pub open spec fn invoke(self, values: Seq<UntypedValue>, func: Func) -> Outcome {
        if func.0 >= self.store.funcs.len() {
            self.malformed()
        } else {
            match self.store.funcs[func.0 as int] {
                FuncView::Host { signature } => if values.len() - self.frame().fp
                    >= signature.params.len() {
                    (
                        World {
                            machine: MachineView {
                                values,
                                pending: Some(Pending::Host { func }),
                                ..self.machine
                            },
                            ..self
                        },
                        Signal::HostCall(func),
                    )
                } else {
                    self.malformed()
                },
                FuncView::Wasm { signature, body, instance } => if values.len() - self.frame().fp
                    < signature.params.len() || body.0 >= self.engine.funcs.len() {
                    self.malformed()
                } else if self.machine.frames.len() >= self.machine.max_frames || values.len()
                    + self.engine.funcs[body.0 as int].len_locals
                    + self.engine.funcs[body.0 as int].max_stack_height > self.machine.max_values {
                    self.trap(TrapCode::StackOverflow)
                } else {
                    (
                        World {
                            machine: MachineView {
                                values: values + zeros(
                                    self.engine.funcs[body.0 as int].len_locals,
                                ),
                                frames: self.next().machine.frames.push(
                                    CallFrame {
                                        body,
                                        instance,
                                        pc: 0,
                                        fp: (values.len() - signature.params.len()) as usize,
                                    },
                                ),
                                ..self.machine
                            },
                            ..self
                        },
                        Signal::Continue,
                    )
                },
            }
        }
    }

    /// `call`: calls the function at `index` of the instance.
    pub open spec fn call(self, index: FuncIdx) -> Outcome {
        match self.instance() {
            Some(instance) => if index.0 < instance.funcs.len() {
                self.invoke(self.values(), instance.funcs[index.0 as int])
            } else {
                self.malformed()
            },
            None => self.malformed(),
        }
    }

    /// `call_indirect`: pops an index into the table at `table` and calls the
    /// function in that slot. It traps if the table has no such slot, if the
    /// slot is empty, or if the function has another signature than the type
    /// at `ty`.
    pub open spec fn call_indirect(self, ty: FuncTypeIdx, table: TableIdx) -> Outcome {
        match self.instance() {
            Some(instance) => if self.height() < 1 || table.0 >= instance.tables.len()
                || instance.tables[table.0 as int].0 >= self.store.tables.len() || ty.0
                >= instance.types.len() {
                self.malformed()
            } else {
                let elements = self.store.tables[instance.tables[table.0 as int].0 as int];
                let index = self.values().last().to_u32();
                if index >= elements.len() {
                    self.trap(TrapCode::TableAccessOutOfBounds)
                } else {
                    match elements[index as int] {
                        None => self.trap(TrapCode::ElemUninitialized),
                        Some(func) => if func.0 >= self.store.funcs.len() {
                            self.malformed()
                        } else if self.store.funcs[func.0 as int].signature()
                            != instance.types[ty.0 as int] {
                            self.trap(TrapCode::UnexpectedSignature)
                        } else {
                            self.invoke(self.values().drop_last(), func)
                        },
                    }
                }
            },
            None => self.malformed(),
        }
    }

    /// The global variable at `index` of the instance, if there is one and
    /// its handle is one of the store.
    pub open spec fn global(self, index: GlobalIdx) -> Option<int> {
        match self.instance() {
            Some(instance) => if index.0 < instance.globals.len()
                && instance.globals[index.0 as int].0 < self.store.globals.len() {
                Some(instance.globals[index.0 as int].0 as int)
            } else {
                None
            },
            None => None,
        }
    }

    /// `global.get`: pushes the value of a global.
    pub open spec fn global_get(self, index: GlobalIdx) -> Outcome {
        match self.global(index) {
            Some(handle) => self.proceed(self.values().push(self.store.globals[handle].value)),
            None => self.malformed(),
        }
    }

    /// `global.set`: pops a value into a global.
    pub open spec fn global_set(self, index: GlobalIdx) -> Outcome {
        match self.global(index) {
            Some(handle) => if self.height() >= 1 {
                World {
                    store: StoreView {
                        globals: self.store.globals.update(
                            handle,
                            GlobalEntity {
                                value: self.values().last(),
                                ..self.store.globals[handle]
                            },
                        ),
                        ..self.store
                    },
                    ..self
                }.proceed(self.values().drop_last())
            } else {
                self.malformed()
            },
            None => self.malformed(),
        }
    }

    /// A load of `width` bytes: pops an address, adds `offset` to it without
    /// wrapping around, and pushes `extend` of the number that the bytes
    /// there spell. It traps if the access is out of bounds.
    pub open spec fn load(self, offset: u32, width: nat, extend: Extension) -> Outcome {
        match self.memory() {
            Some(memory) => if self.height() >= 1 {
                let address = (self.values().last().to_u32() + offset) as u64;
                match self.store.memories[memory.0 as int].load(address, width) {
                    Some(number) => self.proceed(
                        self.values().drop_last().push(extend.extend(number as u64)),
                    ),
                    None => self.trap(TrapCode::MemoryAccessOutOfBounds),
                }
            } else {
                self.malformed()
            },
            None => self.malformed(),
        }
    }

    /// A store of `width` bytes: pops a value and an address, adds `offset`
    /// to the address without wrapping around, and writes the low bytes of
    /// the value there. It traps, and writes nothing, if the access is out of
    /// bounds.
    pub open spec fn store(self, offset: u32, width: nat) -> Outcome {
        match self.memory() {
            Some(memory) => if self.height() >= 2 {
                let len = self.values().len();
                let address = (self.values()[len - 2].to_u32() + offset) as u64;
                match self.store.memories[memory.0 as int].store(
                    address,
                    width,
                    self.values().last().bits as nat,
                ) {
                    Some(written) => World {
                        store: StoreView {
                            memories: self.store.memories.update(memory.0 as int, written),
                            ..self.store
                        },
                        ..self
                    }.proceed(self.values().take(len - 2)),
                    None => self.trap(TrapCode::MemoryAccessOutOfBounds),
                }
            } else {
                self.malformed()
            },
            None => self.malformed(),
        }
    }

    /// `memory.size`: pushes the number of pages of the memory.
    pub open spec fn memory_size(self) -> Outcome {
        match self.memory() {
            Some(memory) => self.proceed(
                self.values().push(
                    UntypedValue::from_u32(self.store.memories[memory.0 as int].pages() as u32),
                ),
            ),
            None => self.malformed(),
        }
    }

    /// `memory.grow`: pops a number of pages and grows the memory by it. It
    /// pushes the number of pages the memory had before, or -1 if the memory
    /// cannot grow that far, in which case it stays as it is.
    pub open spec fn memory_grow(self) -> Outcome {
        match self.memory() {
            Some(memory) => if self.height() >= 1 {
                let before = self.store.memories[memory.0 as int];
                match before.grow(self.values().last().to_u32()) {
                    Some(grown) => World {
                        store: StoreView {
                            memories: self.store.memories.update(memory.0 as int, grown),
                            ..self.store
                        },
                        ..self
                    }.proceed(
                        self.values().drop_last().push(
                            UntypedValue::from_u32(before.pages() as u32),
                        ),
                    ),
                    None => self.proceed(
                        self.values().drop_last().push(UntypedValue::from_u32(u32::MAX)),
                    ),
                }
            } else {
                self.malformed()
            },
            None => self.malformed(),
        }
    }

    /// A numeric instruction: pops its operands and pushes its result, or
    /// traps. An instruction on floats whose result is up to the float unit
    /// suspends the machine with its operands on the stack.
    pub open spec fn numeric(self, inst: Instruction) -> Outcome {
        match arity(inst) {
            Some(operands) => if self.height() >= operands {
                let len = self.values().len();
                match evaluate(inst, self.values()[len - operands], self.values().last()) {
                    Evaluation::Value(result) => self.proceed(
                        self.values().take(len - operands).push(result),
                    ),
                    Evaluation::Trap(code) => self.trap(code),
                    Evaluation::Float => (
                        World {
                            machine: MachineView {
                                pending: Some(Pending::Float { inst }),
                                ..self.machine
                            },
                            ..self
                        },
                        Signal::Float(inst),
                    ),
                }
            } else {
                self.malformed()
            },
            None => self.malformed(),
        }
    }

    /// What the instruction does.
    ///
    /// The definition is a table with one line for each kind of instruction.
    /// It is kept opaque so that a proof about a run of the machine does not
    /// have to look at the table.
    #[verifier::opaque]
    pub open spec fn execute(self, inst: Instruction) -> Outcome {
        match inst {
            Instruction::LocalGet(depth) => self.local_get(depth),
            Instruction::LocalSet(depth) => self.local_set(depth),
            Instruction::LocalTee(depth) => self.local_tee(depth),
            Instruction::Br(target) => self.branch(self.values(), target),
            Instruction::BrIfEqz(target) => self.br_if(target, true),
            Instruction::BrIfNez(target) => self.br_if(target, false),
            Instruction::ReturnIfNez(adjust) => self.return_if_nez(adjust),
            Instruction::BrTable(len) => self.br_table(len),
            Instruction::Unreachable => self.trap(TrapCode::Unreachable),
            Instruction::Return(adjust) => self.ret(self.values(), adjust),
            Instruction::Call(index) => self.call(index),
            Instruction::CallIndirect(ty, table) => self.call_indirect(ty, table),
            Instruction::Drop => self.drop(),
            Instruction::Select => self.select(),
            Instruction::GlobalGet(index) => self.global_get(index),
            Instruction::GlobalSet(index) => self.global_set(index),
            Instruction::I32Load(offset) => self.load(offset, 4, Extension::Word32),
            Instruction::I64Load(offset) => self.load(offset, 8, Extension::Word64),
            Instruction::F32Load(offset) => self.load(offset, 4, Extension::Word32),
            Instruction::F64Load(offset) => self.load(offset, 8, Extension::Word64),
            Instruction::I32Load8S(offset) => self.load(offset, 1, Extension::Signed8To32),
            Instruction::I32Load8U(offset) => self.load(offset, 1, Extension::Word32),
            Instruction::I32Load16S(offset) => self.load(offset, 2, Extension::Signed16To32),
            Instruction::I32Load16U(offset) => self.load(offset, 2, Extension::Word32),
            Instruction::I64Load8S(offset) => self.load(offset, 1, Extension::Signed8To64),
            Instruction::I64Load8U(offset) => self.load(offset, 1, Extension::Word64),
            Instruction::I64Load16S(offset) => self.load(offset, 2, Extension::Signed16To64),
            Instruction::I64Load16U(offset) => self.load(offset, 2, Extension::Word64),
            Instruction::I64Load32S(offset) => self.load(offset, 4, Extension::Signed32To64),
            Instruction::I64Load32U(offset) => self.load(offset, 4, Extension::Word64),
            Instruction::I32Store(offset) => self.store(offset, 4),
            Instruction::I64Store(offset) => self.store(offset, 8),
            Instruction::F32Store(offset) => self.store(offset, 4),
            Instruction::F64Store(offset) => self.store(offset, 8),
            Instruction::I32Store8(offset) => self.store(offset, 1),
            Instruction::I32Store16(offset) => self.store(offset, 2),
            Instruction::I64Store8(offset) => self.store(offset, 1),
            Instruction::I64Store16(offset) => self.store(offset, 2),
            Instruction::I64Store32(offset) => self.store(offset, 4),
            Instruction::MemorySize => self.memory_size(),
            Instruction::MemoryGrow => self.memory_grow(),
            Instruction::I32Const(value) => self.proceed(
                self.values().push(UntypedValue::from_i32(value)),
            ),
            Instruction::I64Const(value) => self.proceed(
                self.values().push(UntypedValue::from_i64(value)),
            ),
            Instruction::F32Const(value) => self.proceed(
                self.values().push(UntypedValue::from_f32(value)),
            ),
            Instruction::F64Const(value) => self.proceed(
                self.values().push(UntypedValue::from_f64(value)),
            ),
            _ => self.numeric(inst),
        }
    }

    /// What a step of the machine does: a suspended machine reports again
    /// what it waits for, a machine without an active call reports that it
    /// is finished, and a running machine executes the instruction at the
    /// position of the running call.
    pub open spec fn step(self) -> Outcome {
        match self.machine.pending {
            Some(Pending::Host { func }) => (self, Signal::HostCall(func)),
            Some(Pending::Float { inst }) => (self, Signal::Float(inst)),
            None => if self.machine.frames.len() == 0 {
                (self, Signal::Finished)
            } else if self.frame().fp > self.values().len() {
                self.malformed()
            } else {
                match self.engine.fetch(self.frame().body, self.frame().pc) {
                    Some(inst) => self.execute(inst),
                    None => self.malformed(),
                }
            },
        }
    }

    /// What a run of at most `fuel` steps does: the machine steps until a
    /// step reports something else than that it can go on. If the fuel is
    /// used up first, the run is interrupted between two instructions.
    pub open spec fn run(self, fuel: nat) -> Outcome
        decreases fuel,
    {
        if fuel == 0 {
            (self, Signal::Interrupted)
        } else {
            let (world, signal) = self.step();
            if signal == Signal::Continue {
                world.run((fuel - 1) as nat)
            } else {
                (world, signal)
            }
        }
    }

    /// The machine goes on behind the instruction that suspended it, with
    /// another value stack. If no call is active, the suspended call was the
    /// outermost one and the execution is finished.
    pub open spec fn resume(self, values: Seq<UntypedValue>) -> Outcome {
        if values.len() > self.machine.max_values {
            self.trap(TrapCode::StackOverflow)
        } else if self.machine.frames.len() == 0 {
            (
                World {
                    machine: MachineView { values, pending: None, ..self.machine },
                    ..self
                },
                Signal::Finished,
            )
        } else {
            (
                World {
                    machine: MachineView { values, pending: None, ..self.machine },
                    ..self
                }.next(),
                Signal::Continue,
            )
        }
    }

    /// The height at which the values of the running call start; 0 if no
    /// call is active.
    pub open spec fn base(self) -> int {
        if self.machine.frames.len() == 0 {
            0
        } else {
            self.frame().fp as int
        }
    }

    /// What the machine does when the host function it waits for has
    /// returned `results`: the arguments are replaced by the results. Nothing
    /// happens if the machine does not wait for a host call or if the results
    /// do not have the types that the function declares.
    pub open spec fn resume_host(self, results: Seq<Value>) -> Outcome {
        match self.machine.pending {
            Some(Pending::Host { func }) => if func.0 < self.store.funcs.len() {
                let signature = self.store.funcs[func.0 as int].signature();
                if types_of(results) == signature.results && self.base()
                    + signature.params.len() <= self.values().len() {
                    self.resume(
                        self.values().take(self.values().len() - signature.params.len()) + words(
                            results,
                        ),
                    )
                } else {
                    self.malformed()
                }
            } else {
                self.malformed()
            },
            _ => self.malformed(),
        }
    }

    /// What the machine does when the float unit has computed `result` for
    /// the instruction it waits for: the operands are replaced by the result,
    /// or the execution traps. Nothing happens if the machine does not wait
    /// for the float unit.
    pub open spec fn resume_float(self, result: Result<UntypedValue, TrapCode>) -> Outcome {
        match self.machine.pending {
            Some(Pending::Float { inst }) => match arity(inst) {
                Some(operands) => if self.base() + operands <= self.values().len() {
                    match result {
                        Ok(value) => self.resume(
                            self.values().take(self.values().len() - operands).push(value),
                        ),
                        Err(code) => self.trap(code),
                    }
                } else {
                    self.malformed()
                },
                None => self.malformed(),
            },
            _ => self.malformed(),
        }
    }

    /// What the machine does when the embedder calls `func` with `args`: the
    /// arguments become the value stack, the function is invoked and the
    /// machine remembers it as the function that was entered. Nothing happens
    /// if a call is active already, if the machine is suspended, if the
    /// arguments do not have the types that the function declares, or if the
    /// function has no code.
    pub open spec fn start(self, func: Func, args: Seq<Value>) -> Outcome {
        if self.machine.frames.len() != 0 || self.machine.pending is Some || func.0
            >= self.store.funcs.len() {
            self.malformed()
        } else if types_of(args) != self.store.funcs[func.0 as int].signature().params {
            self.malformed()
        } else if args.len() > self.machine.max_values {
            self.trap(TrapCode::StackOverflow)
        } else {
            let (world, signal) = self.enter(words(args), func);
            if signal == Signal::Malformed {
                self.malformed()
            } else {
                (
                    World {
                        machine: MachineView { entry: Some(func), ..world.machine },
                        ..world
                    },
                    signal,
                )
            }
        }
    }

    /// The outermost call of `func` with the stack `values`, which holds the
    /// arguments and nothing else.
    pub open spec fn enter(self, values: Seq<UntypedValue>, func: Func) -> Outcome {
        match self.store.funcs[func.0 as int] {
            FuncView::Host { signature } => (
                World {
                    machine: MachineView {
                        values,
                        pending: Some(Pending::Host { func }),
                        ..self.machine
                    },
                    ..self
                },
                Signal::HostCall(func),
            ),
            FuncView::Wasm { signature, body, instance } => if body.0
                >= self.engine.funcs.len() {
                self.malformed()
            } else if self.machine.max_frames == 0 || values.len()
                + self.engine.funcs[body.0 as int].len_locals
                + self.engine.funcs[body.0 as int].max_stack_height > self.machine.max_values {
                self.trap(TrapCode::StackOverflow)
            } else {
                (
                    World {
                        machine: MachineView {
                            values: values + zeros(self.engine.funcs[body.0 as int].len_locals),
                            frames: seq![CallFrame { body, instance, pc: 0, fp: 0 }],
                            ..self.machine
                        },
                        ..self
                    },
                    Signal::Continue,
                )
            },
        }
    }

    /// The results of the outermost call, once the execution is finished:
    /// the values on the stack with the result types of the function that was
    /// entered. `None` while a call is active or the machine is suspended,
    /// and if the stack does not hold as many values as the function has
    /// results.
    pub open spec fn results(self) -> Option<Seq<Value>> {
        match self.machine.entry {
            Some(func) => if self.machine.frames.len() == 0 && self.machine.pending is None
                && func.0 < self.store.funcs.len() && self.values().len()
                == self.store.funcs[func.0 as int].signature().results.len() {
                Some(
                    Seq::new(
                        self.values().len(),
                        |i: int|
                            self.values()[i].to_value(
                                self.store.funcs[func.0 as int].signature().results[i],
                            ),
                    ),
                )
            } else {
                None
            },
            None => None,
        }
    }
}

/// How the number that the bytes of a load spell becomes the value that the
/// load pushes.
#[derive(Clone, Copy, Debug, PartialEq, Eq, Structural)]
pub enum Extension {
    /// The number is an unsigned 32-bit value.
    Word32,
    /// The number is an unsigned 64-bit value.
    Word64,
    /// The low 8 bits are a signed number, extended to 32 bits.
    Signed8To32,
    /// The low 16 bits are a signed number, extended to 32 bits.
    Signed16To32,
    /// The low 8 bits are a signed number, extended to 64 bits.
    Signed8To64,
    /// The low 16 bits are a signed number, extended to 64 bits.
    Signed16To64,
    /// The low 32 bits are a signed number, extended to 64 bits.
    Signed32To64,
}

impl Extension {
    /// The value that a load with this extension pushes for the number
    /// `raw`.
    pub open spec fn spec_extend(self, raw: u64) -> UntypedValue {
        match self {
            Extension::Word32 => UntypedValue::from_u32(raw as u32),
            Extension::Word64 => UntypedValue::from_u64(raw),
            Extension::Signed8To32 => UntypedValue::from_i32(((raw as u8) as i8) as i32),
            Extension::Signed16To32 => UntypedValue::from_i32(((raw as u16) as i16) as i32),
            Extension::Signed8To64 => UntypedValue::from_i64(((raw as u8) as i8) as i64),
            Extension::Signed16To64 => UntypedValue::from_i64(((raw as u16) as i16) as i64),
            Extension::Signed32To64 => UntypedValue::from_i64(((raw as u32) as i32) as i64),
        }
    }

    /// Returns the value that a load with this extension pushes for the
    /// number `raw`.
    #[verifier::when_used_as_spec(spec_extend)]
    pub fn extend(self, raw: u64) -> (value: UntypedValue)
        ensures
            value == self.spec_extend(raw),
    {
        match self {
            Extension::Word32 => UntypedValue::from_u32(raw as u32),
            Extension::Word64 => UntypedValue::from_u64(raw),
            Extension::Signed8To32 => UntypedValue::from_i32(((raw as u8) as i8) as i32),
            Extension::Signed16To32 => UntypedValue::from_i32(((raw as u16) as i16) as i32),
            Extension::Signed8To64 => UntypedValue::from_i64(((raw as u8) as i8) as i64),
            Extension::Signed16To64 => UntypedValue::from_i64(((raw as u16) as i16) as i64),
            Extension::Signed32To64 => UntypedValue::from_i64(((raw as u32) as i32) as i64),
        }
    }
}

} // verus!
