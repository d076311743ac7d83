//! The interpreter: the execution loop that runs translated code.

pub mod laws;
pub mod machine;

pub use self::machine::{
    drop_keep, types_of, words, zeros, CallFrame, Extension, MachineView, Outcome, Pending,
    Signal, World,
};
use super::bytecode::{DropKeep, Instruction, Target};
use super::Engine;
use crate::func::Caller;
use crate::module::{FuncIdx, FuncTypeIdx, GlobalIdx, TableIdx};
use crate::numeric::{arity, evaluate, Evaluation};
use crate::store::{Func, FuncEntity, Memory, Store};
use crate::trap::TrapCode;
use crate::untyped::UntypedValue;
use crate::value::{Value, ValueType};
use vstd::prelude::*;

verus! {

/// The interpreter of one store: the value stack and the call stack, which
/// are shared by all calls of one invocation and empty between two
/// invocations.
///
/// Locals and operands share the value stack: the locals of the running call
/// start at its frame pointer and its operands lie above them. An instruction
/// addresses a local by its distance from the top of the stack.
#[derive(Debug)]
pub struct Executor {
    values: Vec<UntypedValue>,
    frames: Vec<CallFrame>,
    pending: Option<Pending>,
    entry: Option<Func>,
    max_values: usize,
    max_frames: usize,
}

impl View for Executor {
    type V = MachineView;

    closed spec fn view(&self) -> MachineView {
        MachineView {
            values: self.values@,
            frames: self.frames@,
            pending: self.pending,
            entry: self.entry,
            max_values: self.max_values,
            max_frames: self.max_frames,
        }
    }
}

impl Executor {
    /// The machine together with the code and the store it works on.
    pub open spec fn world<T>(&self, store: &Store<'_, T>) -> World {
        World { engine: store.spec_engine()@, machine: self@, store: store@ }
    }

    /// A call is running: the machine is not suspended and the frame pointer
    /// of the running call lies within the value stack.
    pub open spec fn ready(&self) -> bool {
        &&& self@.frames.len() > 0
        &&& self@.pending is None
        &&& self@.frames.last().fp <= self@.values.len()
    }

    /// Creates an interpreter with empty stacks that obeys the limits of the
    /// given engine.
    pub fn new(engine: &Engine) -> (executor: Executor)
        ensures
            executor@ == (MachineView {
                values: Seq::empty(),
                frames: Seq::empty(),
                pending: None,
                entry: None,
                max_values: engine@.config.max_stack_height,
                max_frames: engine@.config.max_recursion_depth,
            }),
    {
        let config = engine.config();
        let executor = Executor {
            values: Vec::new(),
            frames: Vec::new(),
            pending: None,
            entry: None,
            max_values: config.max_stack_height,
            max_frames: config.max_recursion_depth,
        };
        assert(executor@.values =~= Seq::empty());
        assert(executor@.frames =~= Seq::empty());
        executor
    }

    /// Returns the registers of the running call.
    fn frame(&self) -> (frame: CallFrame)
        requires
            self@.frames.len() > 0,
        ensures
            frame == self@.frames.last(),
    {
        self.frames[self.frames.len() - 1]
    }

    /// Moves the running call to position `pc`.
    fn jump(&mut self, pc: usize)
        requires
            old(self)@.frames.len() > 0,
        ensures
            final(self)@ == (MachineView {
                frames: old(self)@.frames.update(
                    old(self)@.frames.len() - 1,
                    CallFrame { pc, ..old(self)@.frames.last() },
                ),
                ..old(self)@
            }),
    {
        let last = self.frames.len() - 1;
        let frame = self.frames[last];
        self.frames[last] = CallFrame { pc, ..frame };
    }

    /// Abandons the execution: empties both stacks.
    fn trap<T>(&mut self, store: &Store<'_, T>, code: TrapCode) -> (signal: Signal)
        ensures
            (final(self).world(store), signal) == old(self).world(store).trap(code),
    {
        self.values.truncate(0);
        self.frames.truncate(0);
        self.pending = None;
        proof {
            assert(self@.values =~= Seq::empty());
            assert(self@.frames =~= Seq::empty());
        }
        Signal::Trap(code)
    }

    /// Goes on at the next instruction, unless the value stack has become too
    /// high.
    fn proceed<T>(&mut self, store: &Store<'_, T>, Ghost(before): Ghost<World>) -> (signal: Signal)
        requires
            old(self)@.frames.len() > 0,
            before.machine == (MachineView { values: before.machine.values, ..old(self)@ }),
            before.engine == store.spec_engine()@,
            before.store == store@,
        ensures
            (final(self).world(store), signal) == before.proceed(old(self)@.values),
    {
        if self.values.len() > self.max_values {
            let signal = self.trap(store, TrapCode::StackOverflow);
            signal
        } else {
            let pc = self.frame().pc;
            if pc < usize::MAX {
                self.jump(pc + 1);
            } else {
                self.jump(pc);
            }
            Signal::Continue
        }
    }

    /// `local.get`
    fn local_get<T>(&mut self, store: &Store<'_, T>, depth: usize) -> (signal: Signal)
        requires
            old(self).ready(),
        ensures
            (final(self).world(store), signal) == old(self).world(store).local_get(depth),
    {
        let len = self.values.len();
        if depth < 1 || depth > len - self.frame().fp {
            return Signal::Malformed;
        }
        let value = self.values[len - depth];
        self.values.push(value);
        self.proceed(store, Ghost(old(self).world(store)))
    }

    /// `local.set`
    fn local_set<T>(&mut self, store: &Store<'_, T>, depth: usize) -> (signal: Signal)
        requires
            old(self).ready(),
        ensures
            (final(self).world(store), signal) == old(self).world(store).local_set(depth),
    {
        let len = self.values.len();
        let height = len - self.frame().fp;
        if height < 1 || depth < 1 || depth > height - 1 {
            return Signal::Malformed;
        }
        let value = self.values.pop().unwrap();
        self.values[len - 1 - depth] = value;
        self.proceed(store, Ghost(old(self).world(store)))
    }

    /// `local.tee`
    fn local_tee<T>(&mut self, store: &Store<'_, T>, depth: usize) -> (signal: Signal)
        requires
            old(self).ready(),
        ensures
            (final(self).world(store), signal) == old(self).world(store).local_tee(depth),
    {
        let len = self.values.len();
        if depth < 1 || depth > len - self.frame().fp {
            return Signal::Malformed;
        }
        let value = self.values[len - 1];
        self.values[len - depth] = value;
        self.proceed(store, Ghost(old(self).world(store)))
    }

    /// `drop`
    fn drop<T>(&mut self, store: &Store<'_, T>) -> (signal: Signal)
        requires
            old(self).ready(),
        ensures
            (final(self).world(store), signal) == old(self).world(store).drop(),
    {
        if self.values.len() - self.frame().fp < 1 {
            return Signal::Malformed;
        }
        self.values.pop();
        self.proceed(store, Ghost(old(self).world(store)))
    }

    /// `select`
    fn select<T>(&mut self, store: &Store<'_, T>) -> (signal: Signal)
        requires
            old(self).ready(),
        ensures
            (final(self).world(store), signal) == old(self).world(store).select(),
    {
        let len = self.values.len();
        if len - self.frame().fp < 3 {
            return Signal::Malformed;
        }
        let chosen = if self.values[len - 1].to_u32() != 0 {
            self.values[len - 3]
        } else {
            self.values[len - 2]
        };
        self.values.truncate(len - 3);
        self.values.push(chosen);
        self.proceed(store, Ghost(old(self).world(store)))
    }

    /// Pushes a constant.
    fn constant<T>(&mut self, store: &Store<'_, T>, value: UntypedValue) -> (signal: Signal)
        requires
            old(self).ready(),
        ensures
            (final(self).world(store), signal) == old(self).world(store).proceed(
                old(self)@.values.push(value),
            ),
    {
        self.values.push(value);
        self.proceed(store, Ghost(old(self).world(store)))
    }

    /// Moves the `keep` topmost values down over the `drop` values beneath
    /// them, if there are that many above the frame pointer of the running
    /// call. Returns `false` and changes nothing if there are not.
    fn adjust(&mut self, adjust: DropKeep) -> (done: bool)
        requires
            old(self)@.frames.len() > 0,
        ensures
            match drop_keep(old(self)@.values, old(self)@.frames.last().fp, adjust) {
                Some(values) => done && final(self)@ == (MachineView { values, ..old(self)@ }),
                None => !done && final(self)@ == old(self)@,
            },
    {
        let len = self.values.len();
        let fp = self.frame().fp;
        if fp > len || adjust.drop > len - fp || adjust.keep > len - fp - adjust.drop {
            return false;
        }
        let to = len - adjust.keep - adjust.drop;
        let from = len - adjust.keep;
        let mut i: usize = 0;
        while i < adjust.keep
            invariant
                i <= adjust.keep,
                to + adjust.drop == from,
                from + adjust.keep == len == self.values@.len() == old(self).values@.len(),
                self.frames == old(self).frames,
                self.pending == old(self).pending,
                self.entry == old(self).entry,
                self.max_values == old(self).max_values,
                self.max_frames == old(self).max_frames,
                forall|j: int| 0 <= j < to ==> self.values@[j] == old(self).values@[j],
                forall|j: int|
                    to <= j < to + i ==> #[trigger] self.values@[j] == old(self).values@[j
                        + adjust.drop],
                forall|j: int| to + i <= j < len ==> self.values@[j] == old(self).values@[j],
            decreases adjust.keep - i,
        {
            let value = self.values[from + i];
            self.values[to + i] = value;
            i += 1;
        }
        self.values.truncate(to + adjust.keep);
        proof {
            assert(self.values@ =~= old(self).values@.take(len - adjust.keep - adjust.drop) + old(
                self,
            ).values@.skip(len - adjust.keep));
        }
        true
    }

    /// Branches to `target` from the present stack.
    fn branch<T>(&mut self, store: &Store<'_, T>, target: Target) -> (signal: Signal)
        requires
            old(self)@.frames.len() > 0,
        ensures
            (final(self).world(store), signal) == old(self).world(store).branch(
                old(self)@.values,
                target,
            ),
    {
        if self.adjust(target.drop_keep) {
            self.jump(target.dst_pc.0);
            Signal::Continue
        } else {
            Signal::Malformed
        }
    }

    /// Returns from the running call with the present stack.
    fn ret<T>(&mut self, store: &Store<'_, T>, adjust: DropKeep) -> (signal: Signal)
        requires
            old(self)@.frames.len() > 0,
        ensures
            (final(self).world(store), signal) == old(self).world(store).ret(
                old(self)@.values,
                adjust,
            ),
    {
        if self.adjust(adjust) {
            self.frames.pop();
            if self.frames.len() == 0 {
                Signal::Finished
            } else {
                Signal::Continue
            }
        } else {
            Signal::Malformed
        }
    }

    /// `br_if`
    fn br_if<T>(&mut self, store: &Store<'_, T>, target: Target, on_zero: bool) -> (signal: Signal)
        requires
            old(self).ready(),
        ensures
            (final(self).world(store), signal) == old(self).world(store).br_if(target, on_zero),
    {
        let len = self.values.len();
        if len - self.frame().fp < 1 {
            return Signal::Malformed;
        }
        let condition = self.values[len - 1].to_u32();
        let taken = (condition == 0) == on_zero;
        if taken {
            if !self.fits(1, target.drop_keep) {
                return Signal::Malformed;
            }
            self.values.pop();
            let ghost popped = self.world(store);
            let signal = self.branch(store, target);
            proof {
                assert(popped.branch(popped.machine.values, target) == old(self).world(
                    store,
                ).branch(old(self)@.values.drop_last(), target));
            }
            signal
        } else {
            self.values.pop();
            self.proceed(store, Ghost(old(self).world(store)))
        }
    }

    /// Returns `true` if the stack without its `popped` topmost values holds
    /// what the adjustment needs above the frame pointer of the running call.
    fn fits(&self, popped: usize, adjust: DropKeep) -> (fits: bool)
        requires
            self@.frames.len() > 0,
            popped <= self@.values.len(),
        ensures
            fits <==> drop_keep(
                self@.values.take(self@.values.len() - popped),
                self@.frames.last().fp,
                adjust,
            ) is Some,
    {
        let len = self.values.len() - popped;
        let fp = self.frame().fp;
        !(fp > len || adjust.drop > len - fp || adjust.keep > len - fp - adjust.drop)
    }

    /// `return_if_nez`
    fn return_if_nez<T>(&mut self, store: &Store<'_, T>, adjust: DropKeep) -> (signal: Signal)
        requires
            old(self).ready(),
        ensures
            (final(self).world(store), signal) == old(self).world(store).return_if_nez(adjust),
    {
        let len = self.values.len();
        if len - self.frame().fp < 1 {
            return Signal::Malformed;
        }
        let condition = self.values[len - 1].to_u32();
        if condition != 0 {
            if !self.fits(1, adjust) {
                return Signal::Malformed;
            }
            self.values.pop();
            let ghost popped = self.world(store);
            let signal = self.ret(store, adjust);
            proof {
                assert(popped.ret(popped.machine.values, adjust) == old(self).world(store).ret(
                    old(self)@.values.drop_last(),
                    adjust,
                ));
            }
            signal
        } else {
            self.values.pop();
            self.proceed(store, Ghost(old(self).world(store)))
        }
    }

    /// `br_table`
    fn br_table<T>(&mut self, store: &Store<'_, T>, len: usize) -> (signal: Signal)
        requires
            old(self).ready(),
        ensures
            (final(self).world(store), signal) == old(self).world(store).br_table(len),
    {
        let height = self.values.len() - self.frame().fp;
        if height < 1 || len < 1 {
            return Signal::Malformed;
        }
        let index = self.values[self.values.len() - 1].to_u32();
        let entry = if (index as usize) < len - 1 {
            index as usize
        } else {
            len - 1
        };
        let pc = self.frame().pc;
        if pc == usize::MAX || entry > usize::MAX - pc - 1 {
            return Signal::Malformed;
        }
        self.values.pop();
        self.jump(pc + 1 + entry);
        Signal::Continue
    }

    /// Calls the function behind `func`, whose arguments lie on top of the
    /// present stack.
    fn invoke<T>(
        &mut self,
        store: &Store<'_, T>,
        func: Func,
        Ghost(before): Ghost<World>,
    ) -> (signal: Signal)
        requires
            old(self)@.frames.len() > 0,
            old(self)@.frames.last().fp <= old(self)@.values.len(),
            store.wf(),
            before.machine == (MachineView { values: before.machine.values, ..old(self)@ }),
            before.engine == store.spec_engine()@,
            before.store == store@,
        ensures
            signal != Signal::Malformed ==> (final(self).world(store), signal) == before.invoke(
                old(self)@.values,
                func,
            ),
            signal == Signal::Malformed ==> before.invoke(old(self)@.values, func)
                == before.malformed() && final(self)@ == old(self)@,
    {
        let entity = match store.func(func) {
            Some(entity) => entity,
            None => {
                return Signal::Malformed;
            },
        };
        let len = self.values.len();
        let fp = self.frame().fp;
        match entity {
            FuncEntity::Host { signature } => {
                if len - fp < signature.params().len() {
                    return Signal::Malformed;
                }
                self.pending = Some(Pending::Host { func });
                Signal::HostCall(func)
            },
            FuncEntity::Wasm { signature, body, instance } => {
                let params = signature.params().len();
                let sizes = match store.engine().sizes(*body) {
                    Some(sizes) => sizes,
                    None => {
                        return Signal::Malformed;
                    },
                };
                if len - fp < params {
                    return Signal::Malformed;
                }
                if self.frames.len() >= self.max_frames || sizes.0 > self.max_values
                    || sizes.1 > self.max_values - sizes.0 || len > self.max_values - sizes.0
                    - sizes.1 {
                    let signal = self.trap(store, TrapCode::StackOverflow);
                    return signal;
                }
                self.push_zeros(sizes.0);
                let pc = self.frame().pc;
                if pc < usize::MAX {
                    self.jump(pc + 1);
                } else {
                    self.jump(pc);
                }
                self.frames.push(
                    CallFrame { body: *body, instance: *instance, pc: 0, fp: len - params },
                );
                Signal::Continue
            },
        }
    }

    /// Pushes `count` zero words.
    fn push_zeros(&mut self, count: usize)
        ensures
            final(self)@ == (MachineView {
                values: old(self)@.values + zeros(count as nat),
                ..old(self)@
            }),
    {
        let mut i: usize = 0;
        assert(self.values@ =~= old(self).values@ + zeros(0));
        while i < count
            invariant
                i <= count,
                self.values@ == old(self).values@ + zeros(i as nat),
                self.frames == old(self).frames,
                self.pending == old(self).pending,
                self.entry == old(self).entry,
                self.max_values == old(self).max_values,
                self.max_frames == old(self).max_frames,
            decreases count - i,
        {
            self.values.push(UntypedValue::from_u64(0));
            i += 1;
            assert(self.values@ =~= old(self).values@ + zeros(i as nat));
        }
    }

    /// `call`
    fn call<T>(&mut self, store: &Store<'_, T>, index: FuncIdx) -> (signal: Signal)
        requires
            old(self).ready(),
            store.wf(),
        ensures
            (final(self).world(store), signal) == old(self).world(store).call(index),
    {
        let instance = match store.instance(self.frame().instance) {
            Some(instance) => instance,
            None => {
                return Signal::Malformed;
            },
        };
        match instance.get_func(index.0) {
            Some(func) => self.invoke(store, func, Ghost(old(self).world(store))),
            None => Signal::Malformed,
        }
    }

    /// `call_indirect`
    fn call_indirect<T>(
        &mut self,
        store: &Store<'_, T>,
        ty: FuncTypeIdx,
        table: TableIdx,
    ) -> (signal: Signal)
        requires
            old(self).ready(),
            store.wf(),
        ensures
            (final(self).world(store), signal) == old(self).world(store).call_indirect(ty, table),
    {
        let instance = match store.instance(self.frame().instance) {
            Some(instance) => instance,
            None => {
                return Signal::Malformed;
            },
        };
        let len = self.values.len();
        if len - self.frame().fp < 1 {
            return Signal::Malformed;
        }
        let elements = match instance.get_table(table.0) {
            Some(handle) => match store.table(handle) {
                Some(elements) => elements,
                None => {
                    return Signal::Malformed;
                },
            },
            None => {
                return Signal::Malformed;
            },
        };
        let expected = match instance.get_type(ty.0) {
            Some(expected) => expected,
            None => {
                return Signal::Malformed;
            },
        };
        let index = self.values[len - 1].to_u32();
        let func = match elements.get(index) {
            None => {
                let signal = self.trap(store, TrapCode::TableAccessOutOfBounds);
                return signal;
            },
            Some(None) => {
                let signal = self.trap(store, TrapCode::ElemUninitialized);
                return signal;
            },
            Some(Some(func)) => func,
        };
        let entity = match store.func(func) {
            Some(entity) => entity,
            None => {
                return Signal::Malformed;
            },
        };
        if !entity.signature().same_as(expected) {
            let signal = self.trap(store, TrapCode::UnexpectedSignature);
            return signal;
        }
        let index_word = self.values.pop().unwrap();
        let signal = self.invoke(store, func, Ghost(old(self).world(store)));
        if signal == Signal::Malformed {
            self.values.push(index_word);
            assert(self.values@ =~= old(self).values@);
        }
        signal
    }

    /// Returns the handle of the global variable at `index` of the instance,
    /// if there is one and it is a handle of the store.
    fn global_handle<T>(&self, store: &Store<'_, T>, index: GlobalIdx) -> (handle: Option<
        crate::store::Global,
    >)
        requires
            self@.frames.len() > 0,
        ensures
            match self.world(store).global(index) {
                Some(h) => handle matches Some(g) && g.0 == h,
                None => handle is None,
            },
    {
        match store.instance(self.frame().instance) {
            Some(instance) => match instance.get_global(index.0) {
                Some(handle) => if store.global(handle).is_some() {
                    Some(handle)
                } else {
                    None
                },
                None => None,
            },
            None => None,
        }
    }

    /// `global.get`
    fn global_get<T>(&mut self, store: &Store<'_, T>, index: GlobalIdx) -> (signal: Signal)
        requires
            old(self).ready(),
        ensures
            (final(self).world(store), signal) == old(self).world(store).global_get(index),
    {
        match self.global_handle(store, index) {
            Some(handle) => {
                let global = store.global(handle).unwrap();
                self.values.push(global.value);
                self.proceed(store, Ghost(old(self).world(store)))
            },
            None => Signal::Malformed,
        }
    }

    /// `global.set`
    fn global_set<T>(&mut self, store: &mut Store<'_, T>, index: GlobalIdx) -> (signal: Signal)
        requires
            old(self).ready(),
            old(store).wf(),
        ensures
            final(store).wf(),
            final(store).spec_state() == old(store).spec_state(),
            final(store).spec_engine() == old(store).spec_engine(),
            (final(self).world(final(store)), signal) == old(self).world(old(store)).global_set(
                index,
            ),
    {
        match self.global_handle(store, index) {
            Some(handle) => {
                if self.values.len() - self.frame().fp < 1 {
                    return Signal::Malformed;
                }
                let value = self.values.pop().unwrap();
                store.set_global(handle, value);
                let ghost written = World { store: store@, ..old(self).world(old(store)) };
                self.proceed(store, Ghost(written))
            },
            None => Signal::Malformed,
        }
    }

    /// Returns the handle of the linear memory of the running call, if its
    /// instance has one and it is a handle of the store.
    fn memory_handle<T>(&self, store: &Store<'_, T>) -> (handle: Option<Memory>)
        requires
            self@.frames.len() > 0,
            store.wf(),
        ensures
            handle == self.world(store).memory(),
    {
        match store.instance(self.frame().instance) {
            Some(instance) => match instance.get_memory(0) {
                Some(handle) => if store.memory(handle).is_some() {
                    Some(handle)
                } else {
                    None
                },
                None => None,
            },
            None => None,
        }
    }

    /// A load of `width` bytes.
    fn load<T>(
        &mut self,
        store: &Store<'_, T>,
        offset: u32,
        width: usize,
        extend: Extension,
    ) -> (signal: Signal)
        requires
            old(self).ready(),
            store.wf(),
            width == 1 || width == 2 || width == 4 || width == 8,
        ensures
            (final(self).world(store), signal) == old(self).world(store).load(
                offset,
                width as nat,
                extend,
            ),
    {
        let handle = match self.memory_handle(store) {
            Some(handle) => handle,
            None => {
                return Signal::Malformed;
            },
        };
        let len = self.values.len();
        if len - self.frame().fp < 1 {
            return Signal::Malformed;
        }
        let address = self.values[len - 1].to_u32() as u64 + offset as u64;
        match store.memory(handle).unwrap().load(address, width) {
            Some(raw) => {
                self.values.pop();
                self.values.push(extend.extend(raw));
                self.proceed(store, Ghost(old(self).world(store)))
            },
            None => self.trap(store, TrapCode::MemoryAccessOutOfBounds),
        }
    }

    /// A store of `width` bytes.
    fn store<T>(&mut self, store: &mut Store<'_, T>, offset: u32, width: usize) -> (signal: Signal)
        requires
            old(self).ready(),
            old(store).wf(),
            width == 1 || width == 2 || width == 4 || width == 8,
        ensures
            final(store).wf(),
            final(store).spec_state() == old(store).spec_state(),
            final(store).spec_engine() == old(store).spec_engine(),
            (final(self).world(final(store)), signal) == old(self).world(old(store)).store(
                offset,
                width as nat,
            ),
    {
        let handle = match self.memory_handle(store) {
            Some(handle) => handle,
            None => {
                return Signal::Malformed;
            },
        };
        let len = self.values.len();
        if len - self.frame().fp < 2 {
            return Signal::Malformed;
        }
        let address = self.values[len - 2].to_u32() as u64 + offset as u64;
        let value = self.values[len - 1].to_u64();
        if store.store_memory(handle, address, width, value) {
            self.values.truncate(len - 2);
            let ghost written = World { store: store@, ..old(self).world(old(store)) };
            self.proceed(store, Ghost(written))
        } else {
            self.trap(store, TrapCode::MemoryAccessOutOfBounds)
        }
    }

    /// `memory.size`
    fn memory_size<T>(&mut self, store: &Store<'_, T>) -> (signal: Signal)
        requires
            old(self).ready(),
            store.wf(),
        ensures
            (final(self).world(store), signal) == old(self).world(store).memory_size(),
    {
        match self.memory_handle(store) {
            Some(handle) => {
                let pages = store.memory(handle).unwrap().current_pages();
                self.values.push(UntypedValue::from_u32(pages));
                self.proceed(store, Ghost(old(self).world(store)))
            },
            None => Signal::Malformed,
        }
    }

    /// `memory.grow`
    fn memory_grow<T>(&mut self, store: &mut Store<'_, T>) -> (signal: Signal)
        requires
            old(self).ready(),
            old(store).wf(),
        ensures
            final(store).wf(),
            final(store).spec_state() == old(store).spec_state(),
            final(store).spec_engine() == old(store).spec_engine(),
            (final(self).world(final(store)), signal) == old(self).world(old(store)).memory_grow(),
    {
        let handle = match self.memory_handle(store) {
            Some(handle) => handle,
            None => {
                return Signal::Malformed;
            },
        };
        let len = self.values.len();
        if len - self.frame().fp < 1 {
            return Signal::Malformed;
        }
        let delta = self.values[len - 1].to_u32();
        let result = match store.grow_memory(handle, delta) {
            Some(previous) => previous,
            None => u32::MAX,
        };
        self.values.pop();
        self.values.push(UntypedValue::from_u32(result));
        let ghost grown = World { store: store@, ..old(self).world(old(store)) };
        self.proceed(store, Ghost(grown))
    }

    /// A numeric instruction.
    fn numeric<T>(&mut self, store: &Store<'_, T>, inst: Instruction) -> (signal: Signal)
        requires
            old(self).ready(),
        ensures
            (final(self).world(store), signal) == old(self).world(store).numeric(inst),
    {
        let operands = match arity(inst) {
            Some(operands) => operands,
            None => {
                return Signal::Malformed;
            },
        };
        let len = self.values.len();
        if len - self.frame().fp < operands {
            return Signal::Malformed;
        }
        match evaluate(inst, self.values[len - operands], self.values[len - 1]) {
            Evaluation::Value(result) => {
                self.values.truncate(len - operands);
                self.values.push(result);
                self.proceed(store, Ghost(old(self).world(store)))
            },
            Evaluation::Trap(code) => self.trap(store, code),
            Evaluation::Float => {
                self.pending = Some(Pending::Float { inst });
                Signal::Float(inst)
            },
        }
    }

    /// Executes `inst` for the running call.
    fn execute<T>(&mut self, store: &mut Store<'_, T>, inst: Instruction) -> (signal: Signal)
        requires
            old(self).ready(),
            old(store).wf(),
        ensures
            final(store).wf(),
            final(store).spec_state() == old(store).spec_state(),
            final(store).spec_engine() == old(store).spec_engine(),
            (final(self).world(final(store)), signal) == old(self).world(old(store)).execute(inst),
    {
        reveal(World::execute);
        match inst {
            Instruction::LocalGet(depth) => self.local_get(store, depth),
            Instruction::LocalSet(depth) => self.local_set(store, depth),
            Instruction::LocalTee(depth) => self.local_tee(store, depth),
            Instruction::Br(target) => self.branch(store, target),
            Instruction::BrIfEqz(target) => self.br_if(store, target, true),
            Instruction::BrIfNez(target) => self.br_if(store, target, false),
            Instruction::ReturnIfNez(adjust) => self.return_if_nez(store, adjust),
            Instruction::BrTable(len) => self.br_table(store, len),
            Instruction::Unreachable => self.trap(store, TrapCode::Unreachable),
            Instruction::Return(adjust) => self.ret(store, adjust),
            Instruction::Call(index) => self.call(store, index),
            Instruction::CallIndirect(ty, table) => self.call_indirect(store, ty, table),
            Instruction::Drop => self.drop(store),
            Instruction::Select => self.select(store),
            Instruction::GlobalGet(index) => self.global_get(store, index),
            Instruction::GlobalSet(index) => self.global_set(store, index),
            Instruction::I32Load(offset) => self.load(store, offset, 4, Extension::Word32),
            Instruction::I64Load(offset) => self.load(store, offset, 8, Extension::Word64),
            Instruction::F32Load(offset) => self.load(store, offset, 4, Extension::Word32),
            Instruction::F64Load(offset) => self.load(store, offset, 8, Extension::Word64),
            Instruction::I32Load8S(offset) => self.load(store, offset, 1, Extension::Signed8To32),
            Instruction::I32Load8U(offset) => self.load(store, offset, 1, Extension::Word32),
            Instruction::I32Load16S(offset) => self.load(store, offset, 2, Extension::Signed16To32),
            Instruction::I32Load16U(offset) => self.load(store, offset, 2, Extension::Word32),
            Instruction::I64Load8S(offset) => self.load(store, offset, 1, Extension::Signed8To64),
            Instruction::I64Load8U(offset) => self.load(store, offset, 1, Extension::Word64),
            Instruction::I64Load16S(offset) => self.load(store, offset, 2, Extension::Signed16To64),
            Instruction::I64Load16U(offset) => self.load(store, offset, 2, Extension::Word64),
            Instruction::I64Load32S(offset) => self.load(store, offset, 4, Extension::Signed32To64),
            Instruction::I64Load32U(offset) => self.load(store, offset, 4, Extension::Word64),
            Instruction::I32Store(offset) => self.store(store, offset, 4),
            Instruction::I64Store(offset) => self.store(store, offset, 8),
            Instruction::F32Store(offset) => self.store(store, offset, 4),
            Instruction::F64Store(offset) => self.store(store, offset, 8),
            Instruction::I32Store8(offset) => self.store(store, offset, 1),
            Instruction::I32Store16(offset) => self.store(store, offset, 2),
            Instruction::I64Store8(offset) => self.store(store, offset, 1),
            Instruction::I64Store16(offset) => self.store(store, offset, 2),
            Instruction::I64Store32(offset) => self.store(store, offset, 4),
            Instruction::MemorySize => self.memory_size(store),
            Instruction::MemoryGrow => self.memory_grow(store),
            Instruction::I32Const(value) => self.constant(store, UntypedValue::from_i32(value)),
            Instruction::I64Const(value) => self.constant(store, UntypedValue::from_i64(value)),
            Instruction::F32Const(value) => self.constant(store, UntypedValue::from_f32(value)),
            Instruction::F64Const(value) => self.constant(store, UntypedValue::from_f64(value)),
            _ => self.numeric(store, inst),
        }
    }

    /// Makes one step: executes the instruction at the position of the
    /// running call. A suspended machine reports again what it waits for, and
    /// a machine without an active call reports that it is finished.
    pub fn step<T>(&mut self, store: &mut Store<'_, T>) -> (signal: Signal)
        requires
            old(store).wf(),
        ensures
            final(store).wf(),
            final(store).spec_state() == old(store).spec_state(),
            final(store).spec_engine() == old(store).spec_engine(),
            (final(self).world(final(store)), signal) == old(self).world(old(store)).step(),
    {
        match self.pending {
            Some(Pending::Host { func }) => {
                return Signal::HostCall(func);
            },
            Some(Pending::Float { inst }) => {
                return Signal::Float(inst);
            },
            None => {},
        }
        if self.frames.len() == 0 {
            return Signal::Finished;
        }
        let frame = self.frame();
        if frame.fp > self.values.len() {
            return Signal::Malformed;
        }
        match store.engine().fetch(frame.body, frame.pc) {
            Some(inst) => self.execute(store, inst),
            None => Signal::Malformed,
        }
    }

    /// Runs until a step reports something else than that the machine can go
    /// on, but for no more than `fuel` steps: if the fuel is used up first,
    /// the run is interrupted between two instructions and can be taken up
    /// again by another run.
    pub fn run<T>(&mut self, store: &mut Store<'_, T>, fuel: u64) -> (signal: Signal)
        requires
            old(store).wf(),
        ensures
            final(store).wf(),
            final(store).spec_state() == old(store).spec_state(),
            final(store).spec_engine() == old(store).spec_engine(),
            (final(self).world(final(store)), signal) == old(self).world(old(store)).run(
                fuel as nat,
            ),
    {
        let mut left = fuel;
        while left > 0
            invariant
                store.wf(),
                store.spec_state() == old(store).spec_state(),
                store.spec_engine() == old(store).spec_engine(),
                self.world(store).run(left as nat) == old(self).world(old(store)).run(fuel as nat),
            decreases left,
        {
            let signal = self.step(store);
            if signal != Signal::Continue {
                return signal;
            }
            left = left - 1;
        }
        Signal::Interrupted
    }

    /// Starts an invocation: the embedder calls `func` with `args`.
    ///
    /// Nothing happens, and [`Signal::Malformed`] is reported, if a call is
    /// active already, if the machine is suspended, if the handle is not one
    /// of the store, or if the arguments do not have the types that the
    /// function declares.
    pub fn start<T>(&mut self, store: &Store<'_, T>, func: Func, args: &Vec<Value>) -> (signal:
        Signal)
        requires
            store.wf(),
        ensures
            (final(self).world(store), signal) == old(self).world(store).start(func, args@),
    {
        if self.frames.len() != 0 || self.pending.is_some() {
            return Signal::Malformed;
        }
        let entity = match store.func(func) {
            Some(entity) => entity,
            None => {
                return Signal::Malformed;
            },
        };
        if !has_types(args, entity.signature().params()) {
            return Signal::Malformed;
        }
        if args.len() > self.max_values {
            let signal = self.trap(store, TrapCode::StackOverflow);
            return signal;
        }
        match entity {
            FuncEntity::Host { signature } => {
                self.entry = Some(func);
                self.values.truncate(0);
                self.push_words(args);
                self.pending = Some(Pending::Host { func });
                proof {
                    assert(self@.values =~= words(args@));
                }
                Signal::HostCall(func)
            },
            FuncEntity::Wasm { signature, body, instance } => {
                let sizes = match store.engine().sizes(*body) {
                    Some(sizes) => sizes,
                    None => {
                        return Signal::Malformed;
                    },
                };
                if self.max_frames == 0 || sizes.0 > self.max_values || sizes.1 > self.max_values
                    - sizes.0 || args.len() > self.max_values - sizes.0 - sizes.1 {
                    self.entry = Some(func);
                    let signal = self.trap(store, TrapCode::StackOverflow);
                    return signal;
                }
                self.entry = Some(func);
                self.values.truncate(0);
                self.push_words(args);
                self.push_zeros(sizes.0);
                self.frames.push(CallFrame { body: *body, instance: *instance, pc: 0, fp: 0 });
                proof {
                    assert(self@.values =~= words(args@) + zeros(sizes.0 as nat));
                    assert(self@.frames =~= seq![
                        CallFrame { body: *body, instance: *instance, pc: 0, fp: 0 },
                    ]);
                }
                Signal::Continue
            },
        }
    }

    /// Pushes the words of `values`.
    fn push_words(&mut self, values: &Vec<Value>)
        ensures
            final(self)@ == (MachineView {
                values: old(self)@.values + words(values@),
                ..old(self)@
            }),
    {
        let mut i: usize = 0;
        assert(self.values@ =~= old(self).values@ + words(values@.take(0)));
        while i < values.len()
            invariant
                i <= values.len(),
                self.values@ == old(self).values@ + words(values@.take(i as int)),
                self.frames == old(self).frames,
                self.pending == old(self).pending,
                self.entry == old(self).entry,
                self.max_values == old(self).max_values,
                self.max_frames == old(self).max_frames,
            decreases values.len() - i,
        {
            self.values.push(UntypedValue::from_value(values[i]));
            i += 1;
            assert(self.values@ =~= old(self).values@ + words(values@.take(i as int)));
        }
        assert(values@.take(i as int) =~= values@);
    }

    /// Goes on behind the instruction that suspended the machine.
    fn resume<T>(&mut self, store: &Store<'_, T>, Ghost(before): Ghost<World>) -> (signal: Signal)
        requires
            before.machine == (MachineView {
                values: before.machine.values,
                pending: before.machine.pending,
                ..old(self)@
            }),
            before.engine == store.spec_engine()@,
            before.store == store@,
        ensures
            (final(self).world(store), signal) == before.resume(old(self)@.values),
    {
        if self.values.len() > self.max_values {
            let signal = self.trap(store, TrapCode::StackOverflow);
            return signal;
        }
        self.pending = None;
        if self.frames.len() == 0 {
            Signal::Finished
        } else {
            let pc = self.frame().pc;
            if pc < usize::MAX {
                self.jump(pc + 1);
            } else {
                self.jump(pc);
            }
            Signal::Continue
        }
    }

    /// Returns the height at which the values of the running call start.
    fn base(&self) -> (base: usize)
        ensures
            base == (if self@.frames.len() == 0 {
                0
            } else {
                self@.frames.last().fp as int
            }),
    {
        if self.frames.len() == 0 {
            0
        } else {
            self.frame().fp
        }
    }

    /// Takes up the execution after the host function that the machine waits
    /// for has returned `results`.
    ///
    /// Nothing happens, and [`Signal::Malformed`] is reported, if the machine
    /// does not wait for a host call or if the results do not have the types
    /// that the function declares.
    pub fn resume_host<T>(&mut self, store: &Store<'_, T>, results: &Vec<Value>) -> (signal: Signal)
        requires
            store.wf(),
        ensures
            (final(self).world(store), signal) == old(self).world(store).resume_host(results@),
    {
        let func = match self.pending {
            Some(Pending::Host { func }) => func,
            _ => {
                return Signal::Malformed;
            },
        };
        let entity = match store.func(func) {
            Some(entity) => entity,
            None => {
                return Signal::Malformed;
            },
        };
        let signature = entity.signature();
        let params = signature.params().len();
        let len = self.values.len();
        let base = self.base();
        if !has_types(results, signature.results()) || base > len || params > len - base {
            return Signal::Malformed;
        }
        self.values.truncate(len - params);
        self.push_words(results);
        self.resume(store, Ghost(old(self).world(store)))
    }

    /// Takes up the execution after the float unit has computed `result` for
    /// the instruction that the machine waits for.
    ///
    /// Nothing happens, and [`Signal::Malformed`] is reported, if the machine
    /// does not wait for the float unit.
    pub fn resume_float<T>(
        &mut self,
        store: &Store<'_, T>,
        result: Result<UntypedValue, TrapCode>,
    ) -> (signal: Signal)
        ensures
            (final(self).world(store), signal) == old(self).world(store).resume_float(result),
    {
        let inst = match self.pending {
            Some(Pending::Float { inst }) => inst,
            _ => {
                return Signal::Malformed;
            },
        };
        let operands = match arity(inst) {
            Some(operands) => operands,
            None => {
                return Signal::Malformed;
            },
        };
        let len = self.values.len();
        let base = self.base();
        if base > len || operands > len - base {
            return Signal::Malformed;
        }
        match result {
            Ok(value) => {
                self.values.truncate(len - operands);
                self.values.push(value);
                self.resume(store, Ghost(old(self).world(store)))
            },
            Err(code) => self.trap(store, code),
        }
    }

    /// Abandons the execution with the given trap: a host function reports a
    /// trap in place of results.
    pub fn resume_trap<T>(&mut self, store: &Store<'_, T>, code: TrapCode) -> (signal: Signal)
        ensures
            (final(self).world(store), signal) == old(self).world(store).trap(code),
    {
        self.trap(store, code)
    }

    /// Returns what the machine waits for, if it is suspended.
    pub fn pending(&self) -> (pending: Option<Pending>)
        ensures
            pending == self@.pending,
    {
        self.pending
    }

    /// Returns the instance of the running call, if a call is active.
    pub fn instance(&self) -> (instance: Option<crate::store::Instance>)
        ensures
            instance == (if self@.frames.len() > 0 {
                Some(self@.frames.last().instance)
            } else {
                None
            }),
    {
        if self.frames.len() > 0 {
            Some(self.frame().instance)
        } else {
            None
        }
    }

    /// Returns the operands of the instruction on floats that the machine
    /// waits for: the two topmost values of the running call for an
    /// instruction of two operands, the topmost value twice for an
    /// instruction of one. `None` if the machine does not wait for the float
    /// unit.
    pub fn float_operands(&self) -> (operands: Option<(UntypedValue, UntypedValue)>)
        ensures
            operands == (match self@.pending {
                Some(Pending::Float { inst }) => match arity(inst) {
                    Some(count) => if self@.frames.len() > 0 && self@.frames.last().fp + count
                        <= self@.values.len() {
                        Some((self@.values[self@.values.len() - count], self@.values.last()))
                    } else {
                        None
                    },
                    None => None,
                },
                _ => None,
            }),
    {
        let inst = match self.pending {
            Some(Pending::Float { inst }) => inst,
            _ => {
                return None;
            },
        };
        let count = match arity(inst) {
            Some(count) => count,
            None => {
                return None;
            },
        };
        let len = self.values.len();
        if self.frames.len() == 0 {
            return None;
        }
        let fp = self.frame().fp;
        if fp > len || count > len - fp {
            return None;
        }
        Some((self.values[len - count], self.values[len - 1]))
    }

    /// Returns the view of the store that a host function gets for the time
    /// of its call. The calling instance is that of the running call; there
    /// is none if the embedder called the host function itself.
    pub fn caller<'a, 'engine, T>(&self, store: &'a mut Store<'engine, T>) -> (caller: Caller<
        'a,
        'engine,
        T,
    >)
        ensures
            caller.context() == *old(store),
            *final(caller.store) == *final(store),
            caller.instance == (if self@.frames.len() > 0 {
                Some(self@.frames.last().instance)
            } else {
                None
            }),
    {
        let instance = self.instance();
        Caller::new(store, instance)
    }

    /// Returns the arguments of the host call that the machine waits for,
    /// with the types that the function declares for its parameters.
    /// `None` if the machine does not wait for a host call.
    pub fn host_args<T>(&self, store: &Store<'_, T>) -> (args: Option<Vec<Value>>)
        ensures
            match self@.pending {
                Some(Pending::Host { func }) => if func.0 < store@.funcs.len() && self.world(
                    store,
                ).base() + store@.funcs[func.0 as int].signature().params.len()
                    <= self@.values.len() {
                    args matches Some(a) && a@ == Seq::new(
                        store@.funcs[func.0 as int].signature().params.len(),
                        |i: int|
                            self@.values[self@.values.len()
                                - store@.funcs[func.0 as int].signature().params.len()
                                + i].to_value(store@.funcs[func.0 as int].signature().params[i]),
                    )
                } else {
                    args is None
                },
                _ => args is None,
            },
    {
        let func = match self.pending {
            Some(Pending::Host { func }) => func,
            _ => {
                return None;
            },
        };
        let entity = match store.func(func) {
            Some(entity) => entity,
            None => {
                return None;
            },
        };
        let params = entity.signature().params();
        let len = self.values.len();
        let base = self.base();
        if base > len || params.len() > len - base {
            return None;
        }
        let first = len - params.len();
        let mut args: Vec<Value> = Vec::new();
        let mut i: usize = 0;
        while i < params.len()
            invariant
                i <= params.len(),
                first + params.len() == len == self.values@.len(),
                args@.len() == i,
                forall|j: int|
                    0 <= j < i ==> #[trigger] args@[j] == self.values@[first + j].to_value(
                        params@[j],
                    ),
            decreases params.len() - i,
        {
            args.push(self.values[first + i].to_value(params[i]));
            i += 1;
        }
        proof {
            assert(args@ =~= Seq::new(
                params@.len(),
                |i: int| self@.values[self@.values.len() - params@.len() + i].to_value(params@[i]),
            ));
        }
        Some(args)
    }

    /// Returns the results of the outermost call once the execution is
    /// finished: the values on the stack with the result types of the
    /// function that was entered.
    pub fn results<T>(&self, store: &Store<'_, T>) -> (results: Option<Vec<Value>>)
        ensures
            match self.world(store).results() {
                Some(values) => results matches Some(r) && r@ == values,
                None => results is None,
            },
    {
        let func = match self.entry {
            Some(func) => func,
            None => {
                return None;
            },
        };
        if self.frames.len() != 0 || self.pending.is_some() {
            return None;
        }
        let entity = match store.func(func) {
            Some(entity) => entity,
            None => {
                return None;
            },
        };
        let types = entity.signature().results();
        if self.values.len() != types.len() {
            return None;
        }
        let mut results: Vec<Value> = Vec::new();
        let mut i: usize = 0;
        while i < types.len()
            invariant
                i <= types.len() == self.values@.len(),
                results@.len() == i,
                forall|j: int| 0 <= j < i ==> results@[j] == self.values@[j].to_value(types@[j]),
            decreases types.len() - i,
        {
            results.push(self.values[i].to_value(types[i]));
            i += 1;
        }
        proof {
            assert(results@ =~= self.world(store).results().unwrap());
        }
        Some(results)
    }
}

/// Returns `true` if the values have the given types, one for one.
pub fn has_types(values: &Vec<Value>, types: &Vec<ValueType>) -> (matches: bool)
    ensures
        matches <==> types_of(values@) == types@,
{
    if values.len() != types.len() {
        assert(types_of(values@).len() != types@.len());
        return false;
    }
    let mut i: usize = 0;
    while i < values.len()
        invariant
            i <= values.len() == types.len(),
            forall|j: int| 0 <= j < i ==> values@[j].value_type() == types@[j],
        decreases values.len() - i,
    {
        if values[i].value_type() != types[i] {
            assert(types_of(values@)[i as int] != types@[i as int]);
            return false;
        }
        i += 1;
    }
    assert(types_of(values@) =~= types@);
    true
}

} // verus!
