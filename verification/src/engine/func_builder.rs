//! Translation of the body of one WebAssembly function.

pub mod control_frame;
pub mod control_stack;
pub mod inst_builder;
pub mod laws;
pub mod state;
pub mod value_stack;
pub mod well_formed;

pub use self::control_frame::ControlFrame;
pub use self::control_stack::ControlFlowStack;
pub use self::laws::{is_resolved, translation};
use self::laws::{
    lemma_apply_all_fails, lemma_apply_all_step, lemma_declare_all_fails, lemma_declare_all_step,
    lemma_finished_code,
};
pub use self::inst_builder::{
    BrTable, InstructionsBuilder, InstructionsView, LabelIdx, RelativeDepth, Reloc, Relocation,
};
pub use self::state::{
    binary_signature, compare_signature, const_signature, convert_signature, load_signature,
    proposal_error, store_signature, unary_signature, BranchKind, CompiledView, Step,
    TranslatorState,
};
pub use self::value_stack::ValueStack;
use self::well_formed::{
    lemma_apply_effect_wf, lemma_block_wf, lemma_declare_locals_wf, lemma_diverge_wf,
    lemma_else_wf, lemma_emit_wf, lemma_end_wf, lemma_floor_above_frames, lemma_if_wf,
    lemma_initial_wf, lemma_loop_wf,
    entries_fit, lemma_entry_fits, lemma_table_error_skip, lemma_table_start, lemma_transfer_wf,
    lemma_with_stack_wf,
};
use super::bytecode::{DropKeep, Instruction, InstructionIdx, Target};
use super::Engine;
use crate::module::{
    BlockType, FuncIdx, FuncTypeIdx, GlobalIdx, MemoryIdx, ModuleError, ModuleResources,
    Signature, TableIdx,
};
use crate::operator::Operator;
use crate::value::{ValueType, F32, F64};
use vstd::prelude::*;

verus! {

/// Translates the operators of one function into instructions.
///
/// The builder emulates the value stack by types, keeps a frame for every
/// open block, and emits at most a few instructions per operator. Operators
/// in unreachable code move the emulated stack but emit nothing.
#[derive(Debug)]
pub struct FunctionBuilder<'engine, 'parser> {
    /// The engine for which the function is translated.
    engine: &'engine Engine,
    /// The function under construction.
    func: FuncIdx,
    /// The declarations of the module.
    res: ModuleResources<'parser>,
    /// The frames of the open blocks.
    control_frames: ControlFlowStack,
    /// The emulated value stack.
    value_stack: ValueStack,
    /// The instructions emitted so far.
    inst_builder: InstructionsBuilder,
    /// The number of parameters of the function.
    len_params: usize,
    /// The number of declared locals, parameters not counted.
    len_locals: usize,
    /// `false` while the operators that come in cannot be reached. The `else`
    /// or `end` of the frame in which control was transferred makes the code
    /// reachable again.
    reachable: bool,
}

impl<'engine, 'parser> View for FunctionBuilder<'engine, 'parser> {
    type V = TranslatorState;

    closed spec fn view(&self) -> TranslatorState {
        TranslatorState {
            config: self.engine.config(),
            res: self.res@,
            func: self.func,
            frames: self.control_frames@,
            stack: self.value_stack@,
            max_height: self.value_stack.max_stack_height(),
            code: self.inst_builder@,
            len_locals: self.len_locals as nat,
            reachable: self.reachable,
        }
    }
}

impl<'engine, 'parser> FunctionBuilder<'engine, 'parser> {
    /// The invariant of the builder: that of its state, and the agreement of
    /// its counters with it.
    pub closed spec fn wf(&self) -> bool {
        &&& self@.wf()
        &&& self.value_stack.wf()
        &&& self.len_params == self@.signature().params.len()
    }

    /// Creates the builder for the function `func` of the module behind
    /// `res`, which must declare that function.
    pub fn new(engine: &'engine Engine, func: FuncIdx, res: ModuleResources<'parser>) -> (builder:
        Self)
        requires
            res@.func_signature(func) is Some,
        ensures
            builder.wf(),
            builder@ == TranslatorState::initial(engine.config(), res@, func),
    {
        let func_type = res.get_type_of_func(func).unwrap();
        let type_idx = res.get_func(func).unwrap();
        let mut value_stack = ValueStack::new();
        let params = func_type.params();
        let mut i: usize = 0;
        while i < params.len()
            invariant
                i <= params.len(),
                value_stack.wf(),
                value_stack@ == params@.take(i as int),
                value_stack.max_stack_height() == i,
            decreases params.len() - i,
        {
            value_stack.push(params[i]);
            i += 1;
            assert(value_stack@ =~= params@.take(i as int));
        }
        assert(params@.take(i as int) =~= params@);
        let mut control_frames = ControlFlowStack::new();
        let mut inst_builder = InstructionsBuilder::new();
        let end_label = inst_builder.new_label();
        control_frames.push_frame(
            ControlFrame::Block {
                end_label,
                block_type: BlockType::FuncType(type_idx),
                height: 0,
                reachable: true,
            },
        );
        let builder = FunctionBuilder {
            engine,
            func,
            res,
            control_frames,
            value_stack,
            inst_builder,
            len_params: params.len(),
            len_locals: 0,
            reachable: true,
        };
        proof {
            let initial = TranslatorState::initial(engine.config(), res@, func);
            assert(builder@.frames =~= initial.frames);
            assert(builder@.code.insts =~= initial.code.insts);
            assert(builder@.code.labels =~= initial.code.labels);
            assert(builder@.code.relocs =~= initial.code.relocs);
            lemma_initial_wf(engine.config(), res@, func);
        }
        builder
    }

    /// Returns the engine for which the function is translated.
    pub fn engine(&self) -> (engine: &'engine Engine)
        ensures
            engine.config() == self@.config,
    {
        self.engine
    }

    /// Returns the index of the function under construction.
    pub fn func(&self) -> (func: FuncIdx)
        ensures
            func == self@.func,
    {
        self.func
    }

    /// Returns `true` if the operator that comes next can be reached.
    pub fn is_reachable(&self) -> (reachable: bool)
        ensures
            reachable == self@.reachable,
    {
        self.reachable
    }

    /// Returns the number of local variables: parameters and declared locals.
    fn locals(&self) -> (locals: usize)
        requires
            self.wf(),
        ensures
            locals == self@.locals(),
    {
        self.len_params + self.len_locals
    }

    /// Returns the height below which the innermost frame cannot pop.
    fn floor(&self) -> (floor: usize)
        requires
            self.wf(),
        ensures
            floor == self@.floor(),
    {
        if self.control_frames.len() <= 1 {
            self.locals()
        } else {
            self.control_frames.last().height()
        }
    }

    /// Checks that `inputs` lie on top of the stack of the innermost frame.
    fn check_operands(&self, inputs: &Vec<ValueType>) -> (error: Option<ModuleError>)
        requires
            self.wf(),
        ensures
            error == self@.operands_error(inputs@),
    {
        if !self.reachable {
            return None;
        }
        let len = self.value_stack.len();
        let floor = self.floor();
        if len - floor < inputs.len() {
            return Some(ModuleError::StackUnderflow);
        }
        let base = len - inputs.len();
        let mut i: usize = 0;
        while i < inputs.len()
            invariant
                i <= inputs.len(),
                self@.reachable,
                self@.stack == self.value_stack@,
                self@.stack.len() >= self@.floor() + inputs.len(),
                base + inputs.len() == self.value_stack@.len() <= usize::MAX,
                forall|j: int| 0 <= j < i ==> self.value_stack@[base + j] == inputs@[j],
            decreases inputs.len() - i,
        {
            let found = self.value_stack.get(base + i);
            if found != Some(inputs[i]) {
                assert(self.value_stack@.skip(base as int)[i as int] != inputs@[i as int]);
                return Some(ModuleError::TypeMismatch);
            }
            i += 1;
        }
        assert(self.value_stack@.skip(base as int) =~= inputs@);
        None
    }

    /// Pops `inputs` many operands, as far as the innermost frame has them,
    /// and pushes `outputs`.
    fn replace_operands(&mut self, inputs: usize, outputs: &Vec<ValueType>)
        requires
            old(self).wf(),
        ensures
            final(self).value_stack.wf(),
            final(self).len_params == old(self).len_params,
            final(self)@ == old(self)@.with_stack(old(self)@.stack_after(inputs as nat, outputs@)),
    {
        let len = self.value_stack.len();
        let floor = self.floor();
        let height = if len - floor >= inputs {
            len - inputs
        } else {
            floor
        };
        self.value_stack.shrink_to(height);
        let ghost kept = self.value_stack@;
        let mut i: usize = 0;
        while i < outputs.len()
            invariant
                i <= outputs.len(),
                self.value_stack.wf(),
                self.value_stack@ == kept + outputs@.take(i as int),
                self.value_stack.max_stack_height() == (if i > 0 && kept.len() + i > old(
                    self,
                ).value_stack.max_stack_height() {
                    (kept.len() + i) as nat
                } else {
                    old(self).value_stack.max_stack_height()
                }),
                kept.len() <= old(self).value_stack.max_stack_height(),
                self.engine == old(self).engine,
                self.func == old(self).func,
                self.res == old(self).res,
                self.control_frames == old(self).control_frames,
                self.inst_builder == old(self).inst_builder,
                self.len_params == old(self).len_params,
                self.len_locals == old(self).len_locals,
                self.reachable == old(self).reachable,
            decreases outputs.len() - i,
        {
            self.value_stack.push(outputs[i]);
            i += 1;
            assert(self.value_stack@ =~= kept + outputs@.take(i as int));
        }
        assert(outputs@.take(i as int) =~= outputs@);
    }

    /// Appends `inst` where the code is reachable.
    fn emit(&mut self, inst: Instruction)
        requires
            old(self)@.has_room(1),
        ensures
            final(self)@ == old(self)@.emit(inst),
            final(self).value_stack == old(self).value_stack,
            final(self).len_params == old(self).len_params,
    {
        if self.reachable {
            self.inst_builder.push_inst(inst);
        }
    }

    /// Translates an operator with the signature `inputs` to `outputs` into
    /// `inst`, which is no branch.
    fn apply_effect(
        &mut self,
        inputs: &Vec<ValueType>,
        outputs: &Vec<ValueType>,
        inst: Instruction,
    ) -> (res: Result<(), ModuleError>)
        requires
            old(self).wf(),
            inst.target() is None,
        ensures
            final(self).wf(),
            (final(self)@, res) == old(self)@.apply_effect(inputs@, outputs@, inst),
    {
        if self.control_frames.is_empty() {
            return Err(ModuleError::MissingControlFrame);
        }
        if let Some(error) = self.check_operands(inputs) {
            return Err(error);
        }
        if self.reachable && self.inst_builder.current_pc().into_usize() >= usize::MAX - 1 {
            return Err(ModuleError::LimitExceeded);
        }
        self.replace_operands(inputs.len(), outputs);
        self.emit(inst);
        proof {
            self.value_stack.lemma_len_fits();
            lemma_apply_effect_wf(old(self)@, inputs@, outputs@, inst);
        }
        Ok(())
    }

    /// Returns a copy of the given types.
    fn copy_types(types: &Vec<ValueType>) -> (copy: Vec<ValueType>)
        ensures
            copy@ == types@,
    {
        let mut copy = Vec::new();
        let mut i: usize = 0;
        while i < types.len()
            invariant
                i <= types.len(),
                copy@ == types@.take(i as int),
            decreases types.len() - i,
        {
            copy.push(types[i]);
            i += 1;
            assert(copy@ =~= types@.take(i as int));
        }
        assert(types@.take(i as int) =~= types@);
        copy
    }

    /// Returns the parameter and result types of a block type, if the block
    /// type is valid in the module.
    fn block_signature(&self, block_type: BlockType) -> (signature: Option<
        (Vec<ValueType>, Vec<ValueType>),
    >)
        ensures
            signature is Some <==> self@.res.block_signature(block_type) is Some,
            signature matches Some(s) ==> {
                &&& s.0@ == self@.res.block_signature(block_type).unwrap().params
                &&& s.1@ == self@.res.block_signature(block_type).unwrap().results
            },
    {
        match block_type {
            BlockType::Empty => {
                let params: Vec<ValueType> = Vec::new();
                let results: Vec<ValueType> = Vec::new();
                assert(params@ =~= seq![]);
                assert(results@ =~= seq![]);
                Some((params, results))
            },
            BlockType::Returns(ty) => {
                let params: Vec<ValueType> = Vec::new();
                let results = vec![ty];
                assert(params@ =~= seq![]);
                assert(results@ =~= seq![ty]);
                Some((params, results))
            },
            BlockType::FuncType(idx) => match self.res.get_type(idx) {
                Some(func_type) => Some(
                    (Self::copy_types(func_type.params()), Self::copy_types(func_type.results())),
                ),
                None => None,
            },
        }
    }

    /// Returns the types of the values that a branch to `frame` carries.
    fn branch_types(&self, frame: ControlFrame) -> (types: Vec<ValueType>)
        requires
            self@.res.block_signature(frame.block_type()) is Some,
        ensures
            types@ == self@.branch_types(frame),
    {
        let (params, results) = self.block_signature(frame.block_type()).unwrap();
        if frame.is_loop() {
            params
        } else {
            results
        }
    }

    /// Returns `true` if `n` more instructions can be emitted, or none will be.
    fn has_room(&self, n: usize) -> (room: bool)
        requires
            self.wf(),
        ensures
            room == self@.has_room(n as nat),
    {
        let len = self.inst_builder.current_pc().into_usize();
        !self.reachable || (n < usize::MAX && len < usize::MAX - n)
    }

    /// Makes what follows unreachable and drops the operands of the frame.
    fn diverge(&mut self)
        requires
            old(self).wf(),
        ensures
            final(self)@ == old(self)@.diverge(),
            final(self).value_stack.wf(),
            final(self).len_params == old(self).len_params,
    {
        let floor = self.floor();
        self.value_stack.shrink_to(floor);
        self.reachable = false;
    }

    /// Replaces the whole stack above `height` by `types`.
    fn reset_operands(&mut self, height: usize, types: &Vec<ValueType>)
        requires
            old(self).value_stack.wf(),
            height <= old(self)@.stack.len(),
        ensures
            final(self).value_stack.wf(),
            final(self).len_params == old(self).len_params,
            final(self)@ == old(self)@.with_stack(old(self)@.stack.take(height as int) + types@),
    {
        proof {
            self.value_stack.lemma_max_height();
        }
        self.value_stack.shrink_to(height);
        let ghost kept = self.value_stack@;
        let mut i: usize = 0;
        while i < types.len()
            invariant
                i <= types.len(),
                self.value_stack.wf(),
                self.value_stack@ == kept + types@.take(i as int),
                self.value_stack.max_stack_height() == (if i > 0 && kept.len() + i > old(
                    self,
                ).value_stack.max_stack_height() {
                    (kept.len() + i) as nat
                } else {
                    old(self).value_stack.max_stack_height()
                }),
                kept.len() <= old(self).value_stack.max_stack_height(),
                self.engine == old(self).engine,
                self.func == old(self).func,
                self.res == old(self).res,
                self.control_frames == old(self).control_frames,
                self.inst_builder == old(self).inst_builder,
                self.len_params == old(self).len_params,
                self.len_locals == old(self).len_locals,
                self.reachable == old(self).reachable,
            decreases types.len() - i,
        {
            self.value_stack.push(types[i]);
            i += 1;
            assert(self.value_stack@ =~= kept + types@.take(i as int));
        }
        assert(types@.take(i as int) =~= types@);
    }

    /// Looks up the position of `label`, which this builder handed out. For
    /// an unbound label the relocation made by `reloc_provider` is recorded
    /// and the placeholder position is returned.
    fn try_resolve_label<F>(&mut self, label: LabelIdx, reloc_provider: F) -> (pc: InstructionIdx)
        where F: FnOnce(InstructionIdx) -> Reloc
        requires
            old(self)@.code.is_label(label),
            call_requires(reloc_provider, (old(self)@.code.current_pc(),)),
        ensures
            final(self).value_stack == old(self).value_stack,
            final(self).len_params == old(self).len_params,
            final(self)@ == (TranslatorState { code: final(self)@.code, ..old(self)@ }),
            old(self)@.code.is_resolved(label) ==> {
                &&& pc == old(self)@.code.labels[label.0 as int].unwrap()
                &&& final(self)@.code == old(self)@.code
            },
            !old(self)@.code.is_resolved(label) ==> {
                &&& pc == InstructionIdx::invalid()
                &&& final(self)@.code.relocs.len() == old(self)@.code.relocs.len() + 1
                &&& call_ensures(
                    reloc_provider,
                    (old(self)@.code.current_pc(),),
                    final(self)@.code.relocs.last().reloc,
                )
                &&& final(self)@.code == (InstructionsView {
                    relocs: old(self)@.code.relocs.push(
                        Relocation { label, reloc: final(self)@.code.relocs.last().reloc },
                    ),
                    ..old(self)@.code
                })
            },
    {
        match self.inst_builder.try_resolve_label(label, reloc_provider) {
            Ok(pc) => pc,
            Err(_) => InstructionIdx::invalid(),
        }
    }

    /// Emits a branch of the given kind to `label` where the code is
    /// reachable. `make_reloc` yields the relocation `reloc` that is recorded
    /// if the label is unbound.
    fn emit_branch<F>(
        &mut self,
        label: LabelIdx,
        make_reloc: F,
        drop_keep: DropKeep,
        kind: BranchKind,
        Ghost(reloc): Ghost<Reloc>,
    ) where F: FnOnce(InstructionIdx) -> Reloc
        requires
            old(self)@.code.is_label(label),
            old(self)@.has_room(1),
            call_requires(make_reloc, (old(self)@.code.current_pc(),)),
            forall|made: Reloc|
                call_ensures(make_reloc, (old(self)@.code.current_pc(),), made) ==> made == reloc,
        ensures
            final(self).value_stack == old(self).value_stack,
            final(self).len_params == old(self).len_params,
            final(self)@ == old(self)@.emit_branch(label, reloc, drop_keep, kind),
    {
        if self.reachable {
            let dst_pc = self.try_resolve_label(label, make_reloc);
            self.inst_builder.push_inst(kind.instruction(Target::new(dst_pc, drop_keep)));
        }
    }

    /// Emits the transfer of control to the frame at `depth` for a stack of
    /// the given height, where the code is reachable.
    fn emit_transfer<F>(
        &mut self,
        depth: u32,
        height: usize,
        conditional: bool,
        make_reloc: F,
        Ghost(reloc): Ghost<Reloc>,
    ) where F: FnOnce(InstructionIdx) -> Reloc
        requires
            old(self).wf(),
            depth < old(self)@.frames.len(),
            old(self)@.has_room(1),
            old(self)@.reachable ==> height >= old(self)@.frame_at(depth).height() + old(
                self,
            )@.branch_types(old(self)@.frame_at(depth)).len(),
            call_requires(make_reloc, (old(self)@.code.current_pc(),)),
            forall|made: Reloc|
                call_ensures(make_reloc, (old(self)@.code.current_pc(),), made) ==> made == reloc,
        ensures
            final(self).value_stack == old(self).value_stack,
            final(self).len_params == old(self).len_params,
            final(self)@ == old(self)@.emit_transfer(depth, height as nat, conditional, reloc),
    {
        if !self.reachable {
            return ;
        }
        let len = self.control_frames.len();
        let frame = *self.control_frames.nth_back(depth).unwrap();
        assert(frame == self@.frame_at(depth));
        let keep = self.branch_types(frame).len();
        let drop_keep = DropKeep::new(height - frame.height() - keep, keep);
        if depth as usize + 1 == len {
            if conditional {
                self.emit(Instruction::ReturnIfNez(drop_keep));
            } else {
                self.emit(Instruction::Return(drop_keep));
            }
        } else {
            let kind = if conditional {
                BranchKind::BrIfNez
            } else {
                BranchKind::Br
            };
            assert(self@.frame_labels_wf(frame));
            self.emit_branch(frame.branch_destination(), make_reloc, drop_keep, kind, Ghost(reloc));
        }
    }

    /// Translates the given local variables for the translated function:
    /// `amount` locals of type `value_type`.
    pub fn translate_locals(&mut self, amount: u32, value_type: ValueType) -> (res: Result<
        (),
        ModuleError,
    >)
        requires
            old(self).wf(),
        ensures
            final(self).wf(),
            (final(self)@, res) == old(self)@.declare_locals(amount, value_type),
    {
        if self.control_frames.len() != 1 || self.value_stack.len() != self.locals()
            || self.inst_builder.current_pc().into_usize() != 0 || !self.reachable {
            return Err(ModuleError::MisplacedLocals);
        }
        if amount as usize > usize::MAX - self.value_stack.len() {
            return Err(ModuleError::LimitExceeded);
        }
        let mut i: u32 = 0;
        while i < amount
            invariant
                i <= amount,
                self.value_stack.wf(),
                self.value_stack@ == old(self).value_stack@ + Seq::new(
                    i as nat,
                    |j: int| value_type,
                ),
                self.value_stack.max_stack_height() == (if i > 0 && old(self).value_stack@.len()
                    + i > old(self).value_stack.max_stack_height() {
                    (old(self).value_stack@.len() + i) as nat
                } else {
                    old(self).value_stack.max_stack_height()
                }),
                old(self).value_stack@.len() <= old(self).value_stack.max_stack_height(),
                self.engine == old(self).engine,
                self.func == old(self).func,
                self.res == old(self).res,
                self.control_frames == old(self).control_frames,
                self.inst_builder == old(self).inst_builder,
                self.len_params == old(self).len_params,
                self.len_locals == old(self).len_locals,
                self.reachable == old(self).reachable,
            decreases amount - i,
        {
            self.value_stack.push(value_type);
            i += 1;
            assert(self.value_stack@ =~= old(self).value_stack@ + Seq::new(
                i as nat,
                |j: int| value_type,
            ));
        }
        self.len_locals += amount as usize;
        proof {
            assert(self@ == old(self)@.declare_locals(amount, value_type).0);
            lemma_declare_locals_wf(old(self)@, amount, value_type);
        }
        Ok(())
    }

    /// Translates a Wasm `unreachable` instruction.
    pub fn translate_unreachable(&mut self) -> (res: Result<(), ModuleError>)
        requires
            old(self).wf(),
        ensures
            final(self).wf(),
            (final(self)@, res) == old(self)@.apply_unreachable(),
    {
        if self.control_frames.is_empty() {
            return Err(ModuleError::MissingControlFrame);
        }
        if !self.has_room(1) {
            return Err(ModuleError::LimitExceeded);
        }
        self.emit(Instruction::Unreachable);
        proof {
            lemma_emit_wf(old(self)@, Instruction::Unreachable);
        }
        self.diverge();
        proof {
            lemma_diverge_wf(old(self)@.emit(Instruction::Unreachable));
        }
        Ok(())
    }

    /// Translates a Wasm `block` control flow operator.
    pub fn translate_block(&mut self, block_type: BlockType) -> (res: Result<(), ModuleError>)
        requires
            old(self).wf(),
        ensures
            final(self).wf(),
            (final(self)@, res) == old(self)@.apply_block(block_type),
    {
        if self.control_frames.is_empty() {
            return Err(ModuleError::MissingControlFrame);
        }
        let params = match self.block_signature(block_type) {
            Some((params, _)) => params,
            None => {
                return Err(ModuleError::UnknownType);
            },
        };
        if let Some(error) = self.check_operands(&params) {
            return Err(error);
        }
        self.replace_operands(params.len(), &params);
        let height = self.value_stack.len() - params.len();
        let end_label = self.inst_builder.new_label();
        self.control_frames.push_frame(
            ControlFrame::Block { end_label, block_type, height, reachable: self.reachable },
        );
        proof {
            assert(self@ == old(self)@.apply_block(block_type).0);
            lemma_block_wf(old(self)@, block_type);
        }
        Ok(())
    }

    /// Translates a Wasm `loop` control flow operator.
    pub fn translate_loop(&mut self, block_type: BlockType) -> (res: Result<(), ModuleError>)
        requires
            old(self).wf(),
        ensures
            final(self).wf(),
            (final(self)@, res) == old(self)@.apply_loop(block_type),
    {
        if self.control_frames.is_empty() {
            return Err(ModuleError::MissingControlFrame);
        }
        let params = match self.block_signature(block_type) {
            Some((params, _)) => params,
            None => {
                return Err(ModuleError::UnknownType);
            },
        };
        if let Some(error) = self.check_operands(&params) {
            return Err(error);
        }
        self.replace_operands(params.len(), &params);
        let height = self.value_stack.len() - params.len();
        let header = self.inst_builder.new_label();
        let bound = self.inst_builder.resolve_label(header);
        assert(bound is Ok);
        self.control_frames.push_frame(
            ControlFrame::Loop { header, block_type, height, reachable: self.reachable },
        );
        proof {
            assert(self@.code.labels =~= old(self)@.code.labels.push(
                Some(old(self)@.code.current_pc()),
            ));
            assert(self@ == old(self)@.apply_loop(block_type).0);
            lemma_loop_wf(old(self)@, block_type);
        }
        Ok(())
    }

    /// Translates a Wasm `if` control flow operator.
    pub fn translate_if(&mut self, block_type: BlockType) -> (res: Result<(), ModuleError>)
        requires
            old(self).wf(),
        ensures
            final(self).wf(),
            (final(self)@, res) == old(self)@.apply_if(block_type),
    {
        if self.control_frames.is_empty() {
            return Err(ModuleError::MissingControlFrame);
        }
        let params = match self.block_signature(block_type) {
            Some((params, _)) => params,
            None => {
                return Err(ModuleError::UnknownType);
            },
        };
        let mut inputs = Self::copy_types(&params);
        inputs.push(ValueType::I32);
        if let Some(error) = self.check_operands(&inputs) {
            return Err(error);
        }
        if !self.has_room(1) {
            return Err(ModuleError::LimitExceeded);
        }
        self.replace_operands(inputs.len(), &params);
        let height = self.value_stack.len() - params.len();
        let else_label = self.inst_builder.new_label();
        let end_label = self.inst_builder.new_label();
        self.control_frames.push_frame(
            ControlFrame::If {
                else_label,
                end_label,
                block_type,
                height,
                reachable: self.reachable,
            },
        );
        let ghost pc = self@.code.current_pc();
        self.emit_branch(
            else_label,
            Reloc::br,
            DropKeep::new(0, 0),
            BranchKind::BrIfEqz,
            Ghost(Reloc::Br { inst_idx: pc }),
        );
        proof {
            assert(self@ == old(self)@.apply_if(block_type).0);
            lemma_if_wf(old(self)@, block_type);
        }
        Ok(())
    }

    /// Checks that the stack above `base` holds exactly `results`.
    fn check_end(&self, base: usize, results: &Vec<ValueType>) -> (error: Option<ModuleError>)
        requires
            self.wf(),
            base <= self@.stack.len(),
        ensures
            error == self@.end_error(base as nat, results@),
    {
        if !self.reachable {
            return None;
        }
        let len = self.value_stack.len();
        if len - base != results.len() {
            return Some(ModuleError::StackHeightMismatch);
        }
        let mut i: usize = 0;
        while i < results.len()
            invariant
                i <= results.len(),
                self@.reachable,
                self@.stack == self.value_stack@,
                base + results.len() == self.value_stack@.len() <= usize::MAX,
                forall|j: int| 0 <= j < i ==> self.value_stack@[base + j] == results@[j],
            decreases results.len() - i,
        {
            let found = self.value_stack.get(base + i);
            if found != Some(results[i]) {
                assert(self.value_stack@.skip(base as int)[i as int] != results@[i as int]);
                return Some(ModuleError::TypeMismatch);
            }
            i += 1;
        }
        assert(self.value_stack@.skip(base as int) =~= results@);
        None
    }

    /// Translates a Wasm `else` control flow operator.
    pub fn translate_else(&mut self) -> (res: Result<(), ModuleError>)
        requires
            old(self).wf(),
        ensures
            final(self).wf(),
            (final(self)@, res) == old(self)@.apply_else(),
    {
        if self.control_frames.is_empty() {
            return Err(ModuleError::MissingControlFrame);
        }
        let frame = *self.control_frames.last();
        match frame {
            ControlFrame::If { else_label, end_label, block_type, height, reachable } => {
                assert(self@.frame_labels_wf(frame));
                let (params, results) = self.block_signature(block_type).unwrap();
                assert(height <= self@.stack.len()) by {
                    if self@.frames.len() > 1 {
                    } else {
                        assert(self@.frames[0] is Block);
                    }
                }
                if let Some(error) = self.check_end(height, &results) {
                    return Err(error);
                }
                if !self.has_room(1) {
                    return Err(ModuleError::LimitExceeded);
                }
                let ghost pc = self@.code.current_pc();
                self.emit_branch(
                    end_label,
                    Reloc::br,
                    DropKeep::new(0, 0),
                    BranchKind::Br,
                    Ghost(Reloc::Br { inst_idx: pc }),
                );
                let bound = self.inst_builder.resolve_label(else_label);
                assert(bound is Ok);
                let last = self.control_frames.last_mut();
                *last = ControlFrame::Else { end_label, block_type, height, reachable };
                self.reset_operands(height, &params);
                self.reachable = reachable;
                proof {
                    self.value_stack.lemma_len_fits();
                    assert(self@ == old(self)@.apply_else().0);
                    lemma_else_wf(old(self)@);
                }
                Ok(())
            },
            _ => Err(ModuleError::MisplacedElse),
        }
    }

    /// Translates a Wasm `end` control flow operator.
    pub fn translate_end(&mut self) -> (res: Result<(), ModuleError>)
        requires
            old(self).wf(),
        ensures
            final(self).wf(),
            (final(self)@, res) == old(self)@.apply_end(),
    {
        if self.control_frames.is_empty() {
            return Err(ModuleError::MissingControlFrame);
        }
        let frame = *self.control_frames.last();
        let is_body = self.control_frames.len() == 1;
        assert(self@.frame_labels_wf(frame));
        let (_, results) = self.block_signature(frame.block_type()).unwrap();
        let floor = self.floor();
        if let Some(error) = self.check_end(floor, &results) {
            return Err(error);
        }
        if is_body && !self.has_room(1) {
            return Err(ModuleError::LimitExceeded);
        }
        if let Some(else_label) = frame.else_label() {
            let bound = self.inst_builder.resolve_label(else_label);
            assert(bound is Ok);
        }
        if let Some(end_label) = frame.end_label() {
            let bound = self.inst_builder.resolve_label(end_label);
            assert(bound is Ok);
        }
        if is_body && self.reachable {
            let len = self.value_stack.len();
            self.emit(Instruction::Return(DropKeep::new(len - results.len(), results.len())));
        }
        self.control_frames.pop_frame();
        self.reset_operands(floor, &results);
        self.reachable = frame.is_reachable();
        proof {
            self.value_stack.lemma_len_fits();
            assert(self@.code.labels =~= old(self)@.labels_after_end(frame));
            assert(self@ == old(self)@.apply_end().0);
            lemma_end_wf(old(self)@);
        }
        Ok(())
    }

    /// Translates a Wasm `br` control flow operator.
    pub fn translate_br(&mut self, relative_depth: u32) -> (res: Result<(), ModuleError>)
        requires
            old(self).wf(),
        ensures
            final(self).wf(),
            (final(self)@, res) == old(self)@.apply_br(relative_depth),
    {
        if self.control_frames.is_empty() {
            return Err(ModuleError::MissingControlFrame);
        }
        let frame = match self.control_frames.nth_back(relative_depth) {
            Some(frame) => *frame,
            None => {
                return Err(ModuleError::InvalidBranchDepth);
            },
        };
        proof {
            lemma_floor_above_frames(self@, relative_depth);
        }
        let types = self.branch_types(frame);
        if let Some(error) = self.check_operands(&types) {
            return Err(error);
        }
        if !self.has_room(1) {
            return Err(ModuleError::LimitExceeded);
        }
        let height = self.value_stack.len();
        let ghost reloc = Reloc::Br { inst_idx: self@.code.current_pc() };
        let ghost jumped = old(self)@.emit_transfer(relative_depth, height as nat, false, reloc);
        self.emit_transfer(relative_depth, height, false, Reloc::br, Ghost(reloc));
        proof {
            assert(self@ == jumped);
            lemma_transfer_wf(old(self)@, relative_depth, height as nat, false, reloc);
        }
        self.diverge();
        proof {
            lemma_diverge_wf(jumped);
        }
        Ok(())
    }

    /// Translates a Wasm `br_if` control flow operator.
    pub fn translate_br_if(&mut self, relative_depth: u32) -> (res: Result<(), ModuleError>)
        requires
            old(self).wf(),
        ensures
            final(self).wf(),
            (final(self)@, res) == old(self)@.apply_br_if(relative_depth),
    {
        if self.control_frames.is_empty() {
            return Err(ModuleError::MissingControlFrame);
        }
        let frame = match self.control_frames.nth_back(relative_depth) {
            Some(frame) => *frame,
            None => {
                return Err(ModuleError::InvalidBranchDepth);
            },
        };
        proof {
            lemma_floor_above_frames(self@, relative_depth);
        }
        let types = self.branch_types(frame);
        let mut inputs = Self::copy_types(&types);
        inputs.push(ValueType::I32);
        if let Some(error) = self.check_operands(&inputs) {
            return Err(error);
        }
        if !self.has_room(1) {
            return Err(ModuleError::LimitExceeded);
        }
        let height = if self.reachable {
            self.value_stack.len() - 1
        } else {
            0
        };
        let ghost reloc = Reloc::Br { inst_idx: self@.code.current_pc() };
        let ghost jumped = old(self)@.emit_transfer(
            relative_depth,
            (old(self)@.stack.len() - 1) as nat,
            true,
            reloc,
        );
        self.emit_transfer(relative_depth, height, true, Reloc::br, Ghost(reloc));
        proof {
            assert(self@ == jumped);
            lemma_transfer_wf(
                old(self)@,
                relative_depth,
                (old(self)@.stack.len() - 1) as nat,
                true,
                reloc,
            );
            assert(jumped.floor() == old(self)@.floor());
            assert(jumped.stack == old(self)@.stack);
        }
        self.replace_operands(inputs.len(), &types);
        proof {
            self.value_stack.lemma_len_fits();
            lemma_with_stack_wf(jumped, old(self)@.stack_after(inputs@.len(), types@));
        }
        Ok(())
    }

    /// Translates a Wasm `return` control flow operator.
    pub fn translate_return(&mut self) -> (res: Result<(), ModuleError>)
        requires
            old(self).wf(),
        ensures
            final(self).wf(),
            (final(self)@, res) == old(self)@.apply_return(),
    {
        if self.control_frames.is_empty() {
            return Err(ModuleError::MissingControlFrame);
        }
        let frame = *self.control_frames.first();
        let types = self.branch_types(frame);
        if let Some(error) = self.check_operands(&types) {
            return Err(error);
        }
        if !self.has_room(1) {
            return Err(ModuleError::LimitExceeded);
        }
        if self.reachable {
            let len = self.value_stack.len();
            let keep = types.len();
            self.emit(Instruction::Return(DropKeep::new(len - keep, keep)));
        }
        let ghost returned = old(self)@.emit(
            Instruction::Return(old(self)@.branch_drop_keep(frame, old(self)@.stack.len())),
        );
        proof {
            assert(self@ == returned);
            lemma_emit_wf(
                old(self)@,
                Instruction::Return(old(self)@.branch_drop_keep(frame, old(self)@.stack.len())),
            );
        }
        self.diverge();
        proof {
            lemma_diverge_wf(returned);
        }
        Ok(())
    }

    /// Returns all the depths of a `br_table`: its entries, then its default.
    fn table_depths(br_table: &BrTable) -> (depths: Vec<RelativeDepth>)
        ensures
            depths@ == br_table.depths(),
    {
        let mut depths: Vec<RelativeDepth> = Vec::new();
        let mut i: usize = 0;
        while i < br_table.targets.len()
            invariant
                i <= br_table.targets.len(),
                depths@ == br_table.targets@.take(i as int),
            decreases br_table.targets.len() - i,
        {
            depths.push(br_table.targets[i]);
            i += 1;
            assert(depths@ =~= br_table.targets@.take(i as int));
        }
        assert(br_table.targets@.take(i as int) =~= br_table.targets@);
        depths.push(br_table.default);
        depths
    }

    /// Checks the targets of a `br_table` in order.
    fn check_table(&self, depths: &Vec<RelativeDepth>) -> (error: Option<ModuleError>)
        requires
            self.wf(),
        ensures
            error == self@.table_error(depths@),
    {
        assert(depths@.skip(0) =~= depths@);
        let mut i: usize = 0;
        while i < depths.len()
            invariant
                i <= depths.len(),
                self.wf(),
                self@.table_error(depths@) == self@.table_error(depths@.skip(i as int)),
            decreases depths.len() - i,
        {
            assert(depths@.skip(i as int).len() > 0);
            assert(depths@.skip(i as int).first() == depths@[i as int]);
            let frame = match self.control_frames.nth_back(depths[i].0) {
                Some(frame) => *frame,
                None => {
                    return Some(ModuleError::InvalidBranchDepth);
                },
            };
            proof {
                lemma_floor_above_frames(self@, depths[i as int].0);
            }
            let mut inputs = self.branch_types(frame);
            inputs.push(ValueType::I32);
            if let Some(error) = self.check_operands(&inputs) {
                return Some(error);
            }
            proof {
                lemma_table_error_skip(self@, depths@, i as int);
            }
            i += 1;
        }
        None
    }

    /// Translates a Wasm `br_table` control flow operator.
    pub fn translate_br_table(&mut self, br_table: &BrTable) -> (res: Result<(), ModuleError>)
        requires
            old(self).wf(),
        ensures
            final(self).wf(),
            (final(self)@, res) == old(self)@.apply_br_table(*br_table),
    {
        if self.control_frames.is_empty() {
            return Err(ModuleError::MissingControlFrame);
        }
        let depths = Self::table_depths(br_table);
        if let Some(error) = self.check_table(&depths) {
            return Err(error);
        }
        let len = depths.len();
        let room = if len == usize::MAX {
            !self.reachable
        } else {
            self.has_room(len + 1)
        };
        if !room {
            return Err(ModuleError::LimitExceeded);
        }
        let table_pc = self.inst_builder.current_pc();
        let height = if self.reachable {
            self.value_stack.len() - 1
        } else {
            0
        };
        let ghost spec_height = (old(self)@.stack.len() - 1) as nat;
        let ghost start = old(self)@.emit(Instruction::BrTable(len));
        self.emit(Instruction::BrTable(len));
        proof {
            lemma_emit_wf(old(self)@, Instruction::BrTable(len));
            lemma_table_start(old(self)@, depths@, height as nat);
        }
        self.emit_entries(&depths, table_pc, height);
        self.diverge();
        proof {
            lemma_diverge_wf(start.emit_entries(depths@, table_pc, spec_height, len as nat));
        }
        Ok(())
    }

    /// Emits the entries of a `br_table` whose instruction stands at
    /// `table_pc`: one transfer for each of `depths`, for a stack of the given
    /// height.
    fn emit_entries(&mut self, depths: &Vec<RelativeDepth>, table_pc: InstructionIdx, height: usize)
        requires
            old(self).wf(),
            entries_fit(old(self)@, depths@, table_pc, height as nat, 0),
        ensures
            final(self).wf(),
            final(self)@ == old(self)@.emit_entries(
                depths@,
                table_pc,
                height as nat,
                depths@.len(),
            ),
    {
        let mut i: usize = 0;
        while i < depths.len()
            invariant
                i <= depths@.len(),
                self.wf(),
                self@ == old(self)@.emit_entries(depths@, table_pc, height as nat, i as nat),
                entries_fit(self@, depths@, table_pc, height as nat, i as nat),
            decreases depths.len() - i,
        {
            let depth = depths[i].0;
            let expected = Reloc::br_table(table_pc, i);
            let ghost before = self@;
            proof {
                lemma_entry_fits(before, depths@, table_pc, height as nat, i as nat);
            }
            let make_reloc = |_pc: InstructionIdx| -> (reloc: Reloc)
                ensures
                    reloc == expected,
                {
                    let reloc = expected;
                    reloc
                };
            self.emit_transfer(depth, height, false, make_reloc, Ghost(expected));
            proof {
                lemma_transfer_wf(before, depth, height as nat, false, expected);
            }
            i += 1;
        }
    }

    /// Translates an operator with the signature `inputs` to `outputs` into
    /// `inst`, unless `error` says that the operator is invalid here.
    fn translate_checked(
        &mut self,
        error: Option<ModuleError>,
        inputs: &Vec<ValueType>,
        outputs: &Vec<ValueType>,
        inst: Instruction,
    ) -> (res: Result<(), ModuleError>)
        requires
            old(self).wf(),
            inst.target() is None,
        ensures
            final(self).wf(),
            (final(self)@, res) == old(self)@.apply_checked(
                error,
                Signature { params: inputs@, results: outputs@ },
                inst,
            ),
    {
        if self.control_frames.is_empty() {
            return Err(ModuleError::MissingControlFrame);
        }
        if let Some(error) = error {
            return Err(error);
        }
        self.apply_effect(inputs, outputs, inst)
    }

    /// Translates an operator that pushes one `ty`.
    fn translate_const(&mut self, ty: ValueType, inst: Instruction) -> (res: Result<
        (),
        ModuleError,
    >)
        requires
            old(self).wf(),
            inst.target() is None,
        ensures
            final(self).wf(),
            (final(self)@, res) == old(self)@.apply_checked(None, const_signature(ty), inst),
    {
        let inputs: Vec<ValueType> = Vec::new();
        let outputs = vec![ty];
        assert(inputs@ =~= seq![]);
        assert(outputs@ =~= seq![ty]);
        self.translate_checked(None, &inputs, &outputs, inst)
    }

    /// Translates an operator from one `from` to one `to`, which is invalid
    /// here if `error` says so.
    fn translate_convert(
        &mut self,
        error: Option<ModuleError>,
        from: ValueType,
        to: ValueType,
        inst: Instruction,
    ) -> (res: Result<(), ModuleError>)
        requires
            old(self).wf(),
            inst.target() is None,
        ensures
            final(self).wf(),
            (final(self)@, res) == old(self)@.apply_checked(
                error,
                convert_signature(from, to),
                inst,
            ),
    {
        let inputs = vec![from];
        let outputs = vec![to];
        assert(inputs@ =~= seq![from]);
        assert(outputs@ =~= seq![to]);
        self.translate_checked(error, &inputs, &outputs, inst)
    }

    /// Translates an operator from one `ty` to one `ty`.
    fn translate_unary(&mut self, ty: ValueType, inst: Instruction) -> (res: Result<
        (),
        ModuleError,
    >)
        requires
            old(self).wf(),
            inst.target() is None,
        ensures
            final(self).wf(),
            (final(self)@, res) == old(self)@.apply_checked(None, unary_signature(ty), inst),
    {
        let inputs = vec![ty];
        let outputs = vec![ty];
        assert(inputs@ =~= seq![ty]);
        assert(outputs@ =~= seq![ty]);
        self.translate_checked(None, &inputs, &outputs, inst)
    }

    /// Translates an operator from two `ty` to one `result`.
    fn translate_binary(&mut self, ty: ValueType, result: ValueType, inst: Instruction) -> (res:
        Result<(), ModuleError>)
        requires
            old(self).wf(),
            inst.target() is None,
        ensures
            final(self).wf(),
            (final(self)@, res) == old(self)@.apply_checked(
                None,
                Signature { params: seq![ty, ty], results: seq![result] },
                inst,
            ),
            result == ty ==> (final(self)@, res) == old(self)@.apply_checked(
                None,
                binary_signature(ty),
                inst,
            ),
            result == ValueType::I32 ==> (final(self)@, res) == old(self)@.apply_checked(
                None,
                compare_signature(ty),
                inst,
            ),
    {
        let inputs = vec![ty, ty];
        let outputs = vec![result];
        assert(inputs@ =~= seq![ty, ty]);
        assert(outputs@ =~= seq![result]);
        self.translate_checked(None, &inputs, &outputs, inst)
    }

    /// Checks that the module declares the memory at `memory_idx`.
    fn check_memory(&self, memory_idx: MemoryIdx) -> (error: Option<ModuleError>)
        ensures
            error == self@.memory_error(memory_idx),
    {
        if self.res.has_memory(memory_idx) {
            None
        } else {
            Some(ModuleError::UnknownMemory)
        }
    }

    /// Checks that the engine accepts the sign-extension operators.
    fn check_sign_extension(&self) -> (error: Option<ModuleError>)
        ensures
            error == proposal_error(self@.config.sign_extension),
    {
        if self.engine.config().sign_extension {
            None
        } else {
            Some(ModuleError::UnsupportedOperator)
        }
    }

    /// Checks that the engine accepts the saturating conversions.
    fn check_saturating(&self) -> (error: Option<ModuleError>)
        ensures
            error == proposal_error(self@.config.saturating_float_to_int),
    {
        if self.engine.config().saturating_float_to_int {
            None
        } else {
            Some(ModuleError::UnsupportedOperator)
        }
    }

    /// Translates a load of a `ty` from the memory at `memory_idx`.
    fn translate_load(&mut self, memory_idx: MemoryIdx, ty: ValueType, inst: Instruction) -> (res:
        Result<(), ModuleError>)
        requires
            old(self).wf(),
            inst.target() is None,
        ensures
            final(self).wf(),
            (final(self)@, res) == old(self)@.apply_checked(
                old(self)@.memory_error(memory_idx),
                load_signature(ty),
                inst,
            ),
    {
        let error = self.check_memory(memory_idx);
        let inputs = vec![ValueType::I32];
        let outputs = vec![ty];
        assert(inputs@ =~= seq![ValueType::I32]);
        assert(outputs@ =~= seq![ty]);
        self.translate_checked(error, &inputs, &outputs, inst)
    }

    /// Translates a store of a `ty` to the memory at `memory_idx`.
    fn translate_store(&mut self, memory_idx: MemoryIdx, ty: ValueType, inst: Instruction) -> (res:
        Result<(), ModuleError>)
        requires
            old(self).wf(),
            inst.target() is None,
        ensures
            final(self).wf(),
            (final(self)@, res) == old(self)@.apply_checked(
                old(self)@.memory_error(memory_idx),
                store_signature(ty),
                inst,
            ),
    {
        let error = self.check_memory(memory_idx);
        let inputs = vec![ValueType::I32, ty];
        let outputs: Vec<ValueType> = Vec::new();
        assert(inputs@ =~= seq![ValueType::I32, ty]);
        assert(outputs@ =~= seq![]);
        self.translate_checked(error, &inputs, &outputs, inst)
    }

    /// Translates a Wasm `call` instruction.
    pub fn translate_call(&mut self, func_idx: FuncIdx) -> (res: Result<(), ModuleError>)
        requires
            old(self).wf(),
        ensures
            final(self).wf(),
            (final(self)@, res) == old(self)@.apply_call(func_idx),
    {
        match self.res.get_type_of_func(func_idx) {
            Some(func_type) => {
                let inputs = Self::copy_types(func_type.params());
                let outputs = Self::copy_types(func_type.results());
                self.translate_checked(None, &inputs, &outputs, Instruction::Call(func_idx))
            },
            None => {
                let none: Vec<ValueType> = Vec::new();
                self.translate_checked(
                    Some(ModuleError::UnknownFunc),
                    &none,
                    &none,
                    Instruction::Call(func_idx),
                )
            },
        }
    }

    /// Translates a Wasm `call_indirect` instruction.
    pub fn translate_call_indirect(
        &mut self,
        func_type_idx: FuncTypeIdx,
        table_idx: TableIdx,
    ) -> (res: Result<(), ModuleError>)
        requires
            old(self).wf(),
        ensures
            final(self).wf(),
            (final(self)@, res) == old(self)@.apply_call_indirect(
                func_type_idx,
                table_idx,
            ),
    {
        let inst = Instruction::CallIndirect(func_type_idx, table_idx);
        match self.res.get_type(func_type_idx) {
            Some(func_type) => {
                let error = if self.res.has_table(table_idx) {
                    None
                } else {
                    Some(ModuleError::UnknownTable)
                };
                let mut inputs = Self::copy_types(func_type.params());
                inputs.push(ValueType::I32);
                let outputs = Self::copy_types(func_type.results());
                self.translate_checked(error, &inputs, &outputs, inst)
            },
            None => {
                let none: Vec<ValueType> = Vec::new();
                self.translate_checked(Some(ModuleError::UnknownType), &none, &none, inst)
            },
        }
    }

    /// Translates a Wasm `drop` instruction.
    pub fn translate_drop(&mut self) -> (res: Result<(), ModuleError>)
        requires
            old(self).wf(),
        ensures
            final(self).wf(),
            (final(self)@, res) == old(self)@.apply_drop(),
    {
        let ty = if self.value_stack.len() > self.floor() {
            self.value_stack.peek(0).unwrap()
        } else {
            ValueType::I32
        };
        let inputs = vec![ty];
        let outputs: Vec<ValueType> = Vec::new();
        assert(inputs@ =~= seq![ty]);
        assert(outputs@ =~= seq![]);
        self.translate_checked(None, &inputs, &outputs, Instruction::Drop)
    }

    /// Translates a Wasm `select` instruction.
    pub fn translate_select(&mut self) -> (res: Result<(), ModuleError>)
        requires
            old(self).wf(),
        ensures
            final(self).wf(),
            (final(self)@, res) == old(self)@.apply_select(),
    {
        let ty = if self.value_stack.len() - self.floor() >= 3 {
            self.value_stack.peek(2).unwrap()
        } else {
            ValueType::I32
        };
        let inputs = vec![ty, ty, ValueType::I32];
        let outputs = vec![ty];
        assert(inputs@ =~= seq![ty, ty, ValueType::I32]);
        assert(outputs@ =~= seq![ty]);
        self.translate_checked(None, &inputs, &outputs, Instruction::Select)
    }

    /// Returns the type of the local variable at `local_idx`, if there is
    /// one.
    fn local_type(&self, local_idx: u32) -> (ty: Option<ValueType>)
        requires
            self.wf(),
        ensures
            ty is Some <==> local_idx < self@.locals(),
            ty matches Some(t) ==> t == self@.local_type(local_idx),
    {
        if (local_idx as usize) < self.locals() {
            self.value_stack.get(local_idx as usize)
        } else {
            None
        }
    }

    /// Translate a Wasm `local.get` instruction.
    pub fn translate_local_get(&mut self, local_idx: u32) -> (res: Result<(), ModuleError>)
        requires
            old(self).wf(),
        ensures
            final(self).wf(),
            (final(self)@, res) == old(self)@.apply_local_get(local_idx),
    {
        let none: Vec<ValueType> = Vec::new();
        assert(none@ =~= seq![]);
        match self.local_type(local_idx) {
            Some(ty) => {
                let depth = self.value_stack.len() - local_idx as usize;
                let outputs = vec![ty];
                assert(outputs@ =~= seq![ty]);
                self.translate_checked(None, &none, &outputs, Instruction::LocalGet(depth))
            },
            None => self.translate_checked(
                Some(ModuleError::UnknownLocal),
                &none,
                &none,
                Instruction::LocalGet(0),
            ),
        }
    }

    /// Translate a Wasm `local.set` instruction.
    pub fn translate_local_set(&mut self, local_idx: u32) -> (res: Result<(), ModuleError>)
        requires
            old(self).wf(),
        ensures
            final(self).wf(),
            (final(self)@, res) == old(self)@.apply_local_set(local_idx),
    {
        let none: Vec<ValueType> = Vec::new();
        assert(none@ =~= seq![]);
        match self.local_type(local_idx) {
            Some(ty) => {
                let depth = self.value_stack.len() - 1 - local_idx as usize;
                let inputs = vec![ty];
                assert(inputs@ =~= seq![ty]);
                self.translate_checked(None, &inputs, &none, Instruction::LocalSet(depth))
            },
            None => self.translate_checked(
                Some(ModuleError::UnknownLocal),
                &none,
                &none,
                Instruction::LocalSet(0),
            ),
        }
    }

    /// Translate a Wasm `local.tee` instruction.
    pub fn translate_local_tee(&mut self, local_idx: u32) -> (res: Result<(), ModuleError>)
        requires
            old(self).wf(),
        ensures
            final(self).wf(),
            (final(self)@, res) == old(self)@.apply_local_tee(local_idx),
    {
        let none: Vec<ValueType> = Vec::new();
        match self.local_type(local_idx) {
            Some(ty) => {
                let depth = self.value_stack.len() - local_idx as usize;
                let inputs = vec![ty];
                let outputs = vec![ty];
                assert(inputs@ =~= seq![ty]);
                assert(outputs@ =~= seq![ty]);
                self.translate_checked(None, &inputs, &outputs, Instruction::LocalTee(depth))
            },
            None => self.translate_checked(
                Some(ModuleError::UnknownLocal),
                &none,
                &none,
                Instruction::LocalTee(0),
            ),
        }
    }

    /// Translate a Wasm `global.get` instruction.
    pub fn translate_global_get(&mut self, global_idx: GlobalIdx) -> (res: Result<
        (),
        ModuleError,
    >)
        requires
            old(self).wf(),
        ensures
            final(self).wf(),
            (final(self)@, res) == old(self)@.apply_global_get(global_idx),
    {
        let none: Vec<ValueType> = Vec::new();
        assert(none@ =~= seq![]);
        let inst = Instruction::GlobalGet(global_idx);
        match self.res.get_global(global_idx) {
            Some(global) => {
                let outputs = vec![global.value_type];
                assert(outputs@ =~= seq![global.value_type]);
                self.translate_checked(None, &none, &outputs, inst)
            },
            None => self.translate_checked(Some(ModuleError::UnknownGlobal), &none, &none, inst),
        }
    }

    /// Translate a Wasm `global.set` instruction.
    pub fn translate_global_set(&mut self, global_idx: GlobalIdx) -> (res: Result<
        (),
        ModuleError,
    >)
        requires
            old(self).wf(),
        ensures
            final(self).wf(),
            (final(self)@, res) == old(self)@.apply_global_set(global_idx),
    {
        let none: Vec<ValueType> = Vec::new();
        assert(none@ =~= seq![]);
        let inst = Instruction::GlobalSet(global_idx);
        match self.res.get_global(global_idx) {
            Some(global) => {
                let error = if global.mutable {
                    None
                } else {
                    Some(ModuleError::ImmutableGlobal)
                };
                let inputs = vec![global.value_type];
                assert(inputs@ =~= seq![global.value_type]);
                self.translate_checked(error, &inputs, &none, inst)
            },
            None => self.translate_checked(Some(ModuleError::UnknownGlobal), &none, &none, inst),
        }
    }

    /// Translate a Wasm `i32.load` instruction.
    pub fn translate_i32_load(
        &mut self,
        memory_idx: MemoryIdx,
        offset: u32,
    ) -> (res: Result<(), ModuleError>)
        requires
            old(self).wf(),
        ensures
            final(self).wf(),
            (final(self)@, res) == old(self)@.apply_checked(
                old(self)@.memory_error(memory_idx),
                load_signature(ValueType::I32),
                Instruction::I32Load(offset),
            ),
    {
        self.translate_load(memory_idx, ValueType::I32, Instruction::I32Load(offset))
    }

    /// Translate a Wasm `i64.load` instruction.
    pub fn translate_i64_load(
        &mut self,
        memory_idx: MemoryIdx,
        offset: u32,
    ) -> (res: Result<(), ModuleError>)
        requires
            old(self).wf(),
        ensures
            final(self).wf(),
            (final(self)@, res) == old(self)@.apply_checked(
                old(self)@.memory_error(memory_idx),
                load_signature(ValueType::I64),
                Instruction::I64Load(offset),
            ),
    {
        self.translate_load(memory_idx, ValueType::I64, Instruction::I64Load(offset))
    }

    /// Translate a Wasm `f32.load` instruction.
    pub fn translate_f32_load(
        &mut self,
        memory_idx: MemoryIdx,
        offset: u32,
    ) -> (res: Result<(), ModuleError>)
        requires
            old(self).wf(),
        ensures
            final(self).wf(),
            (final(self)@, res) == old(self)@.apply_checked(
                old(self)@.memory_error(memory_idx),
                load_signature(ValueType::F32),
                Instruction::F32Load(offset),
            ),
    {
        self.translate_load(memory_idx, ValueType::F32, Instruction::F32Load(offset))
    }

    /// Translate a Wasm `f64.load` instruction.
    pub fn translate_f64_load(
        &mut self,
        memory_idx: MemoryIdx,
        offset: u32,
    ) -> (res: Result<(), ModuleError>)
        requires
            old(self).wf(),
        ensures
            final(self).wf(),
            (final(self)@, res) == old(self)@.apply_checked(
                old(self)@.memory_error(memory_idx),
                load_signature(ValueType::F64),
                Instruction::F64Load(offset),
            ),
    {
        self.translate_load(memory_idx, ValueType::F64, Instruction::F64Load(offset))
    }

    /// Translate a Wasm `i32.load8_s` instruction.
    pub fn translate_i32_load_i8(
        &mut self,
        memory_idx: MemoryIdx,
        offset: u32,
    ) -> (res: Result<(), ModuleError>)
        requires
            old(self).wf(),
        ensures
            final(self).wf(),
            (final(self)@, res) == old(self)@.apply_checked(
                old(self)@.memory_error(memory_idx),
                load_signature(ValueType::I32),
                Instruction::I32Load8S(offset),
            ),
    {
        self.translate_load(memory_idx, ValueType::I32, Instruction::I32Load8S(offset))
    }

    /// Translate a Wasm `i32.load8_u` instruction.
    pub fn translate_i32_load_u8(
        &mut self,
        memory_idx: MemoryIdx,
        offset: u32,
    ) -> (res: Result<(), ModuleError>)
        requires
            old(self).wf(),
        ensures
            final(self).wf(),
            (final(self)@, res) == old(self)@.apply_checked(
                old(self)@.memory_error(memory_idx),
                load_signature(ValueType::I32),
                Instruction::I32Load8U(offset),
            ),
    {
        self.translate_load(memory_idx, ValueType::I32, Instruction::I32Load8U(offset))
    }

    /// Translate a Wasm `i32.load16_s` instruction.
    pub fn translate_i32_load_i16(
        &mut self,
        memory_idx: MemoryIdx,
        offset: u32,
    ) -> (res: Result<(), ModuleError>)
        requires
            old(self).wf(),
        ensures
            final(self).wf(),
            (final(self)@, res) == old(self)@.apply_checked(
                old(self)@.memory_error(memory_idx),
                load_signature(ValueType::I32),
                Instruction::I32Load16S(offset),
            ),
    {
        self.translate_load(memory_idx, ValueType::I32, Instruction::I32Load16S(offset))
    }

    /// Translate a Wasm `i32.load16_u` instruction.
    pub fn translate_i32_load_u16(
        &mut self,
        memory_idx: MemoryIdx,
        offset: u32,
    ) -> (res: Result<(), ModuleError>)
        requires
            old(self).wf(),
        ensures
            final(self).wf(),
            (final(self)@, res) == old(self)@.apply_checked(
                old(self)@.memory_error(memory_idx),
                load_signature(ValueType::I32),
                Instruction::I32Load16U(offset),
            ),
    {
        self.translate_load(memory_idx, ValueType::I32, Instruction::I32Load16U(offset))
    }

    /// Translate a Wasm `i64.load8_s` instruction.
    pub fn translate_i64_load_i8(
        &mut self,
        memory_idx: MemoryIdx,
        offset: u32,
    ) -> (res: Result<(), ModuleError>)
        requires
            old(self).wf(),
        ensures
            final(self).wf(),
            (final(self)@, res) == old(self)@.apply_checked(
                old(self)@.memory_error(memory_idx),
                load_signature(ValueType::I64),
                Instruction::I64Load8S(offset),
            ),
    {
        self.translate_load(memory_idx, ValueType::I64, Instruction::I64Load8S(offset))
    }

    /// Translate a Wasm `i64.load8_u` instruction.
    pub fn translate_i64_load_u8(
        &mut self,
        memory_idx: MemoryIdx,
        offset: u32,
    ) -> (res: Result<(), ModuleError>)
        requires
            old(self).wf(),
        ensures
            final(self).wf(),
            (final(self)@, res) == old(self)@.apply_checked(
                old(self)@.memory_error(memory_idx),
                load_signature(ValueType::I64),
                Instruction::I64Load8U(offset),
            ),
    {
        self.translate_load(memory_idx, ValueType::I64, Instruction::I64Load8U(offset))
    }

    /// Translate a Wasm `i64.load16_s` instruction.
    pub fn translate_i64_load_i16(
        &mut self,
        memory_idx: MemoryIdx,
        offset: u32,
    ) -> (res: Result<(), ModuleError>)
        requires
            old(self).wf(),
        ensures
            final(self).wf(),
            (final(self)@, res) == old(self)@.apply_checked(
                old(self)@.memory_error(memory_idx),
                load_signature(ValueType::I64),
                Instruction::I64Load16S(offset),
            ),
    {
        self.translate_load(memory_idx, ValueType::I64, Instruction::I64Load16S(offset))
    }

    /// Translate a Wasm `i64.load16_u` instruction.
    pub fn translate_i64_load_u16(
        &mut self,
        memory_idx: MemoryIdx,
        offset: u32,
    ) -> (res: Result<(), ModuleError>)
        requires
            old(self).wf(),
        ensures
            final(self).wf(),
            (final(self)@, res) == old(self)@.apply_checked(
                old(self)@.memory_error(memory_idx),
                load_signature(ValueType::I64),
                Instruction::I64Load16U(offset),
            ),
    {
        self.translate_load(memory_idx, ValueType::I64, Instruction::I64Load16U(offset))
    }

    /// Translate a Wasm `i64.load32_s` instruction.
    pub fn translate_i64_load_i32(
        &mut self,
        memory_idx: MemoryIdx,
        offset: u32,
    ) -> (res: Result<(), ModuleError>)
        requires
            old(self).wf(),
        ensures
            final(self).wf(),
            (final(self)@, res) == old(self)@.apply_checked(
                old(self)@.memory_error(memory_idx),
                load_signature(ValueType::I64),
                Instruction::I64Load32S(offset),
            ),
    {
        self.translate_load(memory_idx, ValueType::I64, Instruction::I64Load32S(offset))
    }

    /// Translate a Wasm `i64.load32_u` instruction.
    pub fn translate_i64_load_u32(
        &mut self,
        memory_idx: MemoryIdx,
        offset: u32,
    ) -> (res: Result<(), ModuleError>)
        requires
            old(self).wf(),
        ensures
            final(self).wf(),
            (final(self)@, res) == old(self)@.apply_checked(
                old(self)@.memory_error(memory_idx),
                load_signature(ValueType::I64),
                Instruction::I64Load32U(offset),
            ),
    {
        self.translate_load(memory_idx, ValueType::I64, Instruction::I64Load32U(offset))
    }

    /// Translate a Wasm `i32.store` instruction.
    pub fn translate_i32_store(
        &mut self,
        memory_idx: MemoryIdx,
        offset: u32,
    ) -> (res: Result<(), ModuleError>)
        requires
            old(self).wf(),
        ensures
            final(self).wf(),
            (final(self)@, res) == old(self)@.apply_checked(
                old(self)@.memory_error(memory_idx),
                store_signature(ValueType::I32),
                Instruction::I32Store(offset),
            ),
    {
        self.translate_store(memory_idx, ValueType::I32, Instruction::I32Store(offset))
    }

    /// Translate a Wasm `i64.store` instruction.
    pub fn translate_i64_store(
        &mut self,
        memory_idx: MemoryIdx,
        offset: u32,
    ) -> (res: Result<(), ModuleError>)
        requires
            old(self).wf(),
        ensures
            final(self).wf(),
            (final(self)@, res) == old(self)@.apply_checked(
                old(self)@.memory_error(memory_idx),
                store_signature(ValueType::I64),
                Instruction::I64Store(offset),
            ),
    {
        self.translate_store(memory_idx, ValueType::I64, Instruction::I64Store(offset))
    }

    /// Translate a Wasm `f32.store` instruction.
    pub fn translate_f32_store(
        &mut self,
        memory_idx: MemoryIdx,
        offset: u32,
    ) -> (res: Result<(), ModuleError>)
        requires
            old(self).wf(),
        ensures
            final(self).wf(),
            (final(self)@, res) == old(self)@.apply_checked(
                old(self)@.memory_error(memory_idx),
                store_signature(ValueType::F32),
                Instruction::F32Store(offset),
            ),
    {
        self.translate_store(memory_idx, ValueType::F32, Instruction::F32Store(offset))
    }

    /// Translate a Wasm `f64.store` instruction.
    pub fn translate_f64_store(
        &mut self,
        memory_idx: MemoryIdx,
        offset: u32,
    ) -> (res: Result<(), ModuleError>)
        requires
            old(self).wf(),
        ensures
            final(self).wf(),
            (final(self)@, res) == old(self)@.apply_checked(
                old(self)@.memory_error(memory_idx),
                store_signature(ValueType::F64),
                Instruction::F64Store(offset),
            ),
    {
        self.translate_store(memory_idx, ValueType::F64, Instruction::F64Store(offset))
    }

    /// Translate a Wasm `i32.store8` instruction.
    pub fn translate_i32_store_i8(
        &mut self,
        memory_idx: MemoryIdx,
        offset: u32,
    ) -> (res: Result<(), ModuleError>)
        requires
            old(self).wf(),
        ensures
            final(self).wf(),
            (final(self)@, res) == old(self)@.apply_checked(
                old(self)@.memory_error(memory_idx),
                store_signature(ValueType::I32),
                Instruction::I32Store8(offset),
            ),
    {
        self.translate_store(memory_idx, ValueType::I32, Instruction::I32Store8(offset))
    }

    /// Translate a Wasm `i32.store16` instruction.
    pub fn translate_i32_store_i16(
        &mut self,
        memory_idx: MemoryIdx,
        offset: u32,
    ) -> (res: Result<(), ModuleError>)
        requires
            old(self).wf(),
        ensures
            final(self).wf(),
            (final(self)@, res) == old(self)@.apply_checked(
                old(self)@.memory_error(memory_idx),
                store_signature(ValueType::I32),
                Instruction::I32Store16(offset),
            ),
    {
        self.translate_store(memory_idx, ValueType::I32, Instruction::I32Store16(offset))
    }

    /// Translate a Wasm `i64.store8` instruction.
    pub fn translate_i64_store_i8(
        &mut self,
        memory_idx: MemoryIdx,
        offset: u32,
    ) -> (res: Result<(), ModuleError>)
        requires
            old(self).wf(),
        ensures
            final(self).wf(),
            (final(self)@, res) == old(self)@.apply_checked(
                old(self)@.memory_error(memory_idx),
                store_signature(ValueType::I64),
                Instruction::I64Store8(offset),
            ),
    {
        self.translate_store(memory_idx, ValueType::I64, Instruction::I64Store8(offset))
    }

    /// Translate a Wasm `i64.store16` instruction.
    pub fn translate_i64_store_i16(
        &mut self,
        memory_idx: MemoryIdx,
        offset: u32,
    ) -> (res: Result<(), ModuleError>)
        requires
            old(self).wf(),
        ensures
            final(self).wf(),
            (final(self)@, res) == old(self)@.apply_checked(
                old(self)@.memory_error(memory_idx),
                store_signature(ValueType::I64),
                Instruction::I64Store16(offset),
            ),
    {
        self.translate_store(memory_idx, ValueType::I64, Instruction::I64Store16(offset))
    }

    /// Translate a Wasm `i64.store32` instruction.
    pub fn translate_i64_store_i32(
        &mut self,
        memory_idx: MemoryIdx,
        offset: u32,
    ) -> (res: Result<(), ModuleError>)
        requires
            old(self).wf(),
        ensures
            final(self).wf(),
            (final(self)@, res) == old(self)@.apply_checked(
                old(self)@.memory_error(memory_idx),
                store_signature(ValueType::I64),
                Instruction::I64Store32(offset),
            ),
    {
        self.translate_store(memory_idx, ValueType::I64, Instruction::I64Store32(offset))
    }

    /// Translate a Wasm `memory.size` instruction.
    pub fn translate_memory_size(&mut self, memory_idx: MemoryIdx) -> (res: Result<(), ModuleError>)
        requires
            old(self).wf(),
        ensures
            final(self).wf(),
            (final(self)@, res) == old(self)@.apply_checked(
                old(self)@.memory_error(memory_idx),
                const_signature(ValueType::I32),
                Instruction::MemorySize,
            ),
    {
        let error = self.check_memory(memory_idx);
        let inputs: Vec<ValueType> = Vec::new();
        let outputs = vec![ValueType::I32];
        assert(inputs@ =~= seq![]);
        assert(outputs@ =~= seq![ValueType::I32]);
        self.translate_checked(error, &inputs, &outputs, Instruction::MemorySize)
    }

    /// Translate a Wasm `memory.grow` instruction.
    pub fn translate_memory_grow(&mut self, memory_idx: MemoryIdx) -> (res: Result<(), ModuleError>)
        requires
            old(self).wf(),
        ensures
            final(self).wf(),
            (final(self)@, res) == old(self)@.apply_checked(
                old(self)@.memory_error(memory_idx),
                unary_signature(ValueType::I32),
                Instruction::MemoryGrow,
            ),
    {
        let error = self.check_memory(memory_idx);
        let inputs = vec![ValueType::I32];
        let outputs = vec![ValueType::I32];
        assert(inputs@ =~= seq![ValueType::I32]);
        assert(outputs@ =~= seq![ValueType::I32]);
        self.translate_checked(error, &inputs, &outputs, Instruction::MemoryGrow)
    }

    /// Translate a Wasm `i32.const` instruction.
    pub fn translate_i32_const(&mut self, value: i32) -> (res: Result<(), ModuleError>)
        requires
            old(self).wf(),
        ensures
            final(self).wf(),
            (final(self)@, res) == old(self)@.apply_checked(
                None,
                const_signature(ValueType::I32),
                Instruction::I32Const(value),
            ),
    {
        self.translate_const(ValueType::I32, Instruction::I32Const(value))
    }

    /// Translate a Wasm `i64.const` instruction.
    pub fn translate_i64_const(&mut self, value: i64) -> (res: Result<(), ModuleError>)
        requires
            old(self).wf(),
        ensures
            final(self).wf(),
            (final(self)@, res) == old(self)@.apply_checked(
                None,
                const_signature(ValueType::I64),
                Instruction::I64Const(value),
            ),
    {
        self.translate_const(ValueType::I64, Instruction::I64Const(value))
    }

    /// Translate a Wasm `f32.const` instruction.
    pub fn translate_f32_const(&mut self, value: F32) -> (res: Result<(), ModuleError>)
        requires
            old(self).wf(),
        ensures
            final(self).wf(),
            (final(self)@, res) == old(self)@.apply_checked(
                None,
                const_signature(ValueType::F32),
                Instruction::F32Const(value),
            ),
    {
        self.translate_const(ValueType::F32, Instruction::F32Const(value))
    }

    /// Translate a Wasm `f64.const` instruction.
    pub fn translate_f64_const(&mut self, value: F64) -> (res: Result<(), ModuleError>)
        requires
            old(self).wf(),
        ensures
            final(self).wf(),
            (final(self)@, res) == old(self)@.apply_checked(
                None,
                const_signature(ValueType::F64),
                Instruction::F64Const(value),
            ),
    {
        self.translate_const(ValueType::F64, Instruction::F64Const(value))
    }

    /// Translate a Wasm `i32.eqz` instruction.
    pub fn translate_i32_eqz(&mut self) -> (res: Result<(), ModuleError>)
        requires
            old(self).wf(),
        ensures
            final(self).wf(),
            (final(self)@, res) == old(self)@.apply_checked(
                None,
                convert_signature(ValueType::I32, ValueType::I32),
                Instruction::I32Eqz,
            ),
    {
        self.translate_convert(None, ValueType::I32, ValueType::I32, Instruction::I32Eqz)
    }

    /// Translate a Wasm `i32.eq` instruction.
    pub fn translate_i32_eq(&mut self) -> (res: Result<(), ModuleError>)
        requires
            old(self).wf(),
        ensures
            final(self).wf(),
            (final(self)@, res) == old(self)@.apply_checked(
                None,
                compare_signature(ValueType::I32),
                Instruction::I32Eq,
            ),
    {
        self.translate_binary(ValueType::I32, ValueType::I32, Instruction::I32Eq)
    }

    /// Translate a Wasm `i32.ne` instruction.
    pub fn translate_i32_ne(&mut self) -> (res: Result<(), ModuleError>)
        requires
            old(self).wf(),
        ensures
            final(self).wf(),
            (final(self)@, res) == old(self)@.apply_checked(
                None,
                compare_signature(ValueType::I32),
                Instruction::I32Ne,
            ),
    {
        self.translate_binary(ValueType::I32, ValueType::I32, Instruction::I32Ne)
    }

    /// Translate a Wasm `i32.lt_s` instruction.
    pub fn translate_i32_lt(&mut self) -> (res: Result<(), ModuleError>)
        requires
            old(self).wf(),
        ensures
            final(self).wf(),
            (final(self)@, res) == old(self)@.apply_checked(
                None,
                compare_signature(ValueType::I32),
                Instruction::I32LtS,
            ),
    {
        self.translate_binary(ValueType::I32, ValueType::I32, Instruction::I32LtS)
    }

    /// Translate a Wasm `i32.lt_u` instruction.
    pub fn translate_u32_lt(&mut self) -> (res: Result<(), ModuleError>)
        requires
            old(self).wf(),
        ensures
            final(self).wf(),
            (final(self)@, res) == old(self)@.apply_checked(
                None,
                compare_signature(ValueType::I32),
                Instruction::I32LtU,
            ),
    {
        self.translate_binary(ValueType::I32, ValueType::I32, Instruction::I32LtU)
    }

    /// Translate a Wasm `i32.gt_s` instruction.
    pub fn translate_i32_gt(&mut self) -> (res: Result<(), ModuleError>)
        requires
            old(self).wf(),
        ensures
            final(self).wf(),
            (final(self)@, res) == old(self)@.apply_checked(
                None,
                compare_signature(ValueType::I32),
                Instruction::I32GtS,
            ),
    {
        self.translate_binary(ValueType::I32, ValueType::I32, Instruction::I32GtS)
    }

    /// Translate a Wasm `i32.gt_u` instruction.
    pub fn translate_u32_gt(&mut self) -> (res: Result<(), ModuleError>)
        requires
            old(self).wf(),
        ensures
            final(self).wf(),
            (final(self)@, res) == old(self)@.apply_checked(
                None,
                compare_signature(ValueType::I32),
                Instruction::I32GtU,
            ),
    {
        self.translate_binary(ValueType::I32, ValueType::I32, Instruction::I32GtU)
    }

    /// Translate a Wasm `i32.le_s` instruction.
    pub fn translate_i32_le(&mut self) -> (res: Result<(), ModuleError>)
        requires
            old(self).wf(),
        ensures
            final(self).wf(),
            (final(self)@, res) == old(self)@.apply_checked(
                None,
                compare_signature(ValueType::I32),
                Instruction::I32LeS,
            ),
    {
        self.translate_binary(ValueType::I32, ValueType::I32, Instruction::I32LeS)
    }

    /// Translate a Wasm `i32.le_u` instruction.
    pub fn translate_u32_le(&mut self) -> (res: Result<(), ModuleError>)
        requires
            old(self).wf(),
        ensures
            final(self).wf(),
            (final(self)@, res) == old(self)@.apply_checked(
                None,
                compare_signature(ValueType::I32),
                Instruction::I32LeU,
            ),
    {
        self.translate_binary(ValueType::I32, ValueType::I32, Instruction::I32LeU)
    }

    /// Translate a Wasm `i32.ge_s` instruction.
    pub fn translate_i32_ge(&mut self) -> (res: Result<(), ModuleError>)
        requires
            old(self).wf(),
        ensures
            final(self).wf(),
            (final(self)@, res) == old(self)@.apply_checked(
                None,
                compare_signature(ValueType::I32),
                Instruction::I32GeS,
            ),
    {
        self.translate_binary(ValueType::I32, ValueType::I32, Instruction::I32GeS)
    }

    /// Translate a Wasm `i32.ge_u` instruction.
    pub fn translate_u32_ge(&mut self) -> (res: Result<(), ModuleError>)
        requires
            old(self).wf(),
        ensures
            final(self).wf(),
            (final(self)@, res) == old(self)@.apply_checked(
                None,
                compare_signature(ValueType::I32),
                Instruction::I32GeU,
            ),
    {
        self.translate_binary(ValueType::I32, ValueType::I32, Instruction::I32GeU)
    }

    /// Translate a Wasm `i64.eqz` instruction.
    pub fn translate_i64_eqz(&mut self) -> (res: Result<(), ModuleError>)
        requires
            old(self).wf(),
        ensures
            final(self).wf(),
            (final(self)@, res) == old(self)@.apply_checked(
                None,
                convert_signature(ValueType::I64, ValueType::I32),
                Instruction::I64Eqz,
            ),
    {
        self.translate_convert(None, ValueType::I64, ValueType::I32, Instruction::I64Eqz)
    }

    /// Translate a Wasm `i64.eq` instruction.
    pub fn translate_i64_eq(&mut self) -> (res: Result<(), ModuleError>)
        requires
            old(self).wf(),
        ensures
            final(self).wf(),
            (final(self)@, res) == old(self)@.apply_checked(
                None,
                compare_signature(ValueType::I64),
                Instruction::I64Eq,
            ),
    {
        self.translate_binary(ValueType::I64, ValueType::I32, Instruction::I64Eq)
    }

    /// Translate a Wasm `i64.ne` instruction.
    pub fn translate_i64_ne(&mut self) -> (res: Result<(), ModuleError>)
        requires
            old(self).wf(),
        ensures
            final(self).wf(),
            (final(self)@, res) == old(self)@.apply_checked(
                None,
                compare_signature(ValueType::I64),
                Instruction::I64Ne,
            ),
    {
        self.translate_binary(ValueType::I64, ValueType::I32, Instruction::I64Ne)
    }

    /// Translate a Wasm `i64.lt_s` instruction.
    pub fn translate_i64_lt(&mut self) -> (res: Result<(), ModuleError>)
        requires
            old(self).wf(),
        ensures
            final(self).wf(),
            (final(self)@, res) == old(self)@.apply_checked(
                None,
                compare_signature(ValueType::I64),
                Instruction::I64LtS,
            ),
    {
        self.translate_binary(ValueType::I64, ValueType::I32, Instruction::I64LtS)
    }

    /// Translate a Wasm `i64.lt_u` instruction.
    pub fn translate_u64_lt(&mut self) -> (res: Result<(), ModuleError>)
        requires
            old(self).wf(),
        ensures
            final(self).wf(),
            (final(self)@, res) == old(self)@.apply_checked(
                None,
                compare_signature(ValueType::I64),
                Instruction::I64LtU,
            ),
    {
        self.translate_binary(ValueType::I64, ValueType::I32, Instruction::I64LtU)
    }

    /// Translate a Wasm `i64.gt_s` instruction.
    pub fn translate_i64_gt(&mut self) -> (res: Result<(), ModuleError>)
        requires
            old(self).wf(),
        ensures
            final(self).wf(),
            (final(self)@, res) == old(self)@.apply_checked(
                None,
                compare_signature(ValueType::I64),
                Instruction::I64GtS,
            ),
    {
        self.translate_binary(ValueType::I64, ValueType::I32, Instruction::I64GtS)
    }

    /// Translate a Wasm `i64.gt_u` instruction.
    pub fn translate_u64_gt(&mut self) -> (res: Result<(), ModuleError>)
        requires
            old(self).wf(),
        ensures
            final(self).wf(),
            (final(self)@, res) == old(self)@.apply_checked(
                None,
                compare_signature(ValueType::I64),
                Instruction::I64GtU,
            ),
    {
        self.translate_binary(ValueType::I64, ValueType::I32, Instruction::I64GtU)
    }

    /// Translate a Wasm `i64.le_s` instruction.
    pub fn translate_i64_le(&mut self) -> (res: Result<(), ModuleError>)
        requires
            old(self).wf(),
        ensures
            final(self).wf(),
            (final(self)@, res) == old(self)@.apply_checked(
                None,
                compare_signature(ValueType::I64),
                Instruction::I64LeS,
            ),
    {
        self.translate_binary(ValueType::I64, ValueType::I32, Instruction::I64LeS)
    }

    /// Translate a Wasm `i64.le_u` instruction.
    pub fn translate_u64_le(&mut self) -> (res: Result<(), ModuleError>)
        requires
            old(self).wf(),
        ensures
            final(self).wf(),
            (final(self)@, res) == old(self)@.apply_checked(
                None,
                compare_signature(ValueType::I64),
                Instruction::I64LeU,
            ),
    {
        self.translate_binary(ValueType::I64, ValueType::I32, Instruction::I64LeU)
    }

    /// Translate a Wasm `i64.ge_s` instruction.
    pub fn translate_i64_ge(&mut self) -> (res: Result<(), ModuleError>)
        requires
            old(self).wf(),
        ensures
            final(self).wf(),
            (final(self)@, res) == old(self)@.apply_checked(
                None,
                compare_signature(ValueType::I64),
                Instruction::I64GeS,
            ),
    {
        self.translate_binary(ValueType::I64, ValueType::I32, Instruction::I64GeS)
    }

    /// Translate a Wasm `i64.ge_u` instruction.
    pub fn translate_u64_ge(&mut self) -> (res: Result<(), ModuleError>)
        requires
            old(self).wf(),
        ensures
            final(self).wf(),
            (final(self)@, res) == old(self)@.apply_checked(
                None,
                compare_signature(ValueType::I64),
                Instruction::I64GeU,
            ),
    {
        self.translate_binary(ValueType::I64, ValueType::I32, Instruction::I64GeU)
    }

    /// Translate a Wasm `f32.eq` instruction.
    pub fn translate_f32_eq(&mut self) -> (res: Result<(), ModuleError>)
        requires
            old(self).wf(),
        ensures
            final(self).wf(),
            (final(self)@, res) == old(self)@.apply_checked(
                None,
                compare_signature(ValueType::F32),
                Instruction::F32Eq,
            ),
    {
        self.translate_binary(ValueType::F32, ValueType::I32, Instruction::F32Eq)
    }

    /// Translate a Wasm `f32.ne` instruction.
    pub fn translate_f32_ne(&mut self) -> (res: Result<(), ModuleError>)
        requires
            old(self).wf(),
        ensures
            final(self).wf(),
            (final(self)@, res) == old(self)@.apply_checked(
                None,
                compare_signature(ValueType::F32),
                Instruction::F32Ne,
            ),
    {
        self.translate_binary(ValueType::F32, ValueType::I32, Instruction::F32Ne)
    }

    /// Translate a Wasm `f32.lt` instruction.
    pub fn translate_f32_lt(&mut self) -> (res: Result<(), ModuleError>)
        requires
            old(self).wf(),
        ensures
            final(self).wf(),
            (final(self)@, res) == old(self)@.apply_checked(
                None,
                compare_signature(ValueType::F32),
                Instruction::F32Lt,
            ),
    {
        self.translate_binary(ValueType::F32, ValueType::I32, Instruction::F32Lt)
    }

    /// Translate a Wasm `f32.gt` instruction.
    pub fn translate_f32_gt(&mut self) -> (res: Result<(), ModuleError>)
        requires
            old(self).wf(),
        ensures
            final(self).wf(),
            (final(self)@, res) == old(self)@.apply_checked(
                None,
                compare_signature(ValueType::F32),
                Instruction::F32Gt,
            ),
    {
        self.translate_binary(ValueType::F32, ValueType::I32, Instruction::F32Gt)
    }

    /// Translate a Wasm `f32.le` instruction.
    pub fn translate_f32_le(&mut self) -> (res: Result<(), ModuleError>)
        requires
            old(self).wf(),
        ensures
            final(self).wf(),
            (final(self)@, res) == old(self)@.apply_checked(
                None,
                compare_signature(ValueType::F32),
                Instruction::F32Le,
            ),
    {
        self.translate_binary(ValueType::F32, ValueType::I32, Instruction::F32Le)
    }

    /// Translate a Wasm `f32.ge` instruction.
    pub fn translate_f32_ge(&mut self) -> (res: Result<(), ModuleError>)
        requires
            old(self).wf(),
        ensures
            final(self).wf(),
            (final(self)@, res) == old(self)@.apply_checked(
                None,
                compare_signature(ValueType::F32),
                Instruction::F32Ge,
            ),
    {
        self.translate_binary(ValueType::F32, ValueType::I32, Instruction::F32Ge)
    }

    /// Translate a Wasm `f64.eq` instruction.
    pub fn translate_f64_eq(&mut self) -> (res: Result<(), ModuleError>)
        requires
            old(self).wf(),
        ensures
            final(self).wf(),
            (final(self)@, res) == old(self)@.apply_checked(
                None,
                compare_signature(ValueType::F64),
                Instruction::F64Eq,
            ),
    {
        self.translate_binary(ValueType::F64, ValueType::I32, Instruction::F64Eq)
    }

    /// Translate a Wasm `f64.ne` instruction.
    pub fn translate_f64_ne(&mut self) -> (res: Result<(), ModuleError>)
        requires
            old(self).wf(),
        ensures
            final(self).wf(),
            (final(self)@, res) == old(self)@.apply_checked(
                None,
                compare_signature(ValueType::F64),
                Instruction::F64Ne,
            ),
    {
        self.translate_binary(ValueType::F64, ValueType::I32, Instruction::F64Ne)
    }

    /// Translate a Wasm `f64.lt` instruction.
    pub fn translate_f64_lt(&mut self) -> (res: Result<(), ModuleError>)
        requires
            old(self).wf(),
        ensures
            final(self).wf(),
            (final(self)@, res) == old(self)@.apply_checked(
                None,
                compare_signature(ValueType::F64),
                Instruction::F64Lt,
            ),
    {
        self.translate_binary(ValueType::F64, ValueType::I32, Instruction::F64Lt)
    }

    /// Translate a Wasm `f64.gt` instruction.
    pub fn translate_f64_gt(&mut self) -> (res: Result<(), ModuleError>)
        requires
            old(self).wf(),
        ensures
            final(self).wf(),
            (final(self)@, res) == old(self)@.apply_checked(
                None,
                compare_signature(ValueType::F64),
                Instruction::F64Gt,
            ),
    {
        self.translate_binary(ValueType::F64, ValueType::I32, Instruction::F64Gt)
    }

    /// Translate a Wasm `f64.le` instruction.
    pub fn translate_f64_le(&mut self) -> (res: Result<(), ModuleError>)
        requires
            old(self).wf(),
        ensures
            final(self).wf(),
            (final(self)@, res) == old(self)@.apply_checked(
                None,
                compare_signature(ValueType::F64),
                Instruction::F64Le,
            ),
    {
        self.translate_binary(ValueType::F64, ValueType::I32, Instruction::F64Le)
    }

    /// Translate a Wasm `f64.ge` instruction.
    pub fn translate_f64_ge(&mut self) -> (res: Result<(), ModuleError>)
        requires
            old(self).wf(),
        ensures
            final(self).wf(),
            (final(self)@, res) == old(self)@.apply_checked(
                None,
                compare_signature(ValueType::F64),
                Instruction::F64Ge,
            ),
    {
        self.translate_binary(ValueType::F64, ValueType::I32, Instruction::F64Ge)
    }

    /// Translate a Wasm `i32.clz` instruction.
    pub fn translate_i32_clz(&mut self) -> (res: Result<(), ModuleError>)
        requires
            old(self).wf(),
        ensures
            final(self).wf(),
            (final(self)@, res) == old(self)@.apply_checked(
                None,
                unary_signature(ValueType::I32),
                Instruction::I32Clz,
            ),
    {
        self.translate_unary(ValueType::I32, Instruction::I32Clz)
    }

    /// Translate a Wasm `i32.ctz` instruction.
    pub fn translate_i32_ctz(&mut self) -> (res: Result<(), ModuleError>)
        requires
            old(self).wf(),
        ensures
            final(self).wf(),
            (final(self)@, res) == old(self)@.apply_checked(
                None,
                unary_signature(ValueType::I32),
                Instruction::I32Ctz,
            ),
    {
        self.translate_unary(ValueType::I32, Instruction::I32Ctz)
    }

    /// Translate a Wasm `i32.popcnt` instruction.
    pub fn translate_i32_popcnt(&mut self) -> (res: Result<(), ModuleError>)
        requires
            old(self).wf(),
        ensures
            final(self).wf(),
            (final(self)@, res) == old(self)@.apply_checked(
                None,
                unary_signature(ValueType::I32),
                Instruction::I32Popcnt,
            ),
    {
        self.translate_unary(ValueType::I32, Instruction::I32Popcnt)
    }

    /// Translate a Wasm `i32.add` instruction.
    pub fn translate_i32_add(&mut self) -> (res: Result<(), ModuleError>)
        requires
            old(self).wf(),
        ensures
            final(self).wf(),
            (final(self)@, res) == old(self)@.apply_checked(
                None,
                binary_signature(ValueType::I32),
                Instruction::I32Add,
            ),
    {
        self.translate_binary(ValueType::I32, ValueType::I32, Instruction::I32Add)
    }

    /// Translate a Wasm `i32.sub` instruction.
    pub fn translate_i32_sub(&mut self) -> (res: Result<(), ModuleError>)
        requires
            old(self).wf(),
        ensures
            final(self).wf(),
            (final(self)@, res) == old(self)@.apply_checked(
                None,
                binary_signature(ValueType::I32),
                Instruction::I32Sub,
            ),
    {
        self.translate_binary(ValueType::I32, ValueType::I32, Instruction::I32Sub)
    }

    /// Translate a Wasm `i32.mul` instruction.
    pub fn translate_i32_mul(&mut self) -> (res: Result<(), ModuleError>)
        requires
            old(self).wf(),
        ensures
            final(self).wf(),
            (final(self)@, res) == old(self)@.apply_checked(
                None,
                binary_signature(ValueType::I32),
                Instruction::I32Mul,
            ),
    {
        self.translate_binary(ValueType::I32, ValueType::I32, Instruction::I32Mul)
    }

    /// Translate a Wasm `i32.div_s` instruction.
    pub fn translate_i32_div(&mut self) -> (res: Result<(), ModuleError>)
        requires
            old(self).wf(),
        ensures
            final(self).wf(),
            (final(self)@, res) == old(self)@.apply_checked(
                None,
                binary_signature(ValueType::I32),
                Instruction::I32DivS,
            ),
    {
        self.translate_binary(ValueType::I32, ValueType::I32, Instruction::I32DivS)
    }

    /// Translate a Wasm `i32.div_u` instruction.
    pub fn translate_u32_div(&mut self) -> (res: Result<(), ModuleError>)
        requires
            old(self).wf(),
        ensures
            final(self).wf(),
            (final(self)@, res) == old(self)@.apply_checked(
                None,
                binary_signature(ValueType::I32),
                Instruction::I32DivU,
            ),
    {
        self.translate_binary(ValueType::I32, ValueType::I32, Instruction::I32DivU)
    }

    /// Translate a Wasm `i32.rem_s` instruction.
    #[allow(non_snake_case)]
    pub fn translate_i32_remS(&mut self) -> (res: Result<(), ModuleError>)
        requires
            old(self).wf(),
        ensures
            final(self).wf(),
            (final(self)@, res) == old(self)@.apply_checked(
                None,
                binary_signature(ValueType::I32),
                Instruction::I32RemS,
            ),
    {
        self.translate_binary(ValueType::I32, ValueType::I32, Instruction::I32RemS)
    }

    /// Translate a Wasm `i32.rem_u` instruction.
    pub fn translate_u32_rem(&mut self) -> (res: Result<(), ModuleError>)
        requires
            old(self).wf(),
        ensures
            final(self).wf(),
            (final(self)@, res) == old(self)@.apply_checked(
                None,
                binary_signature(ValueType::I32),
                Instruction::I32RemU,
            ),
    {
        self.translate_binary(ValueType::I32, ValueType::I32, Instruction::I32RemU)
    }

    /// Translate a Wasm `i32.and` instruction.
    pub fn translate_i32_and(&mut self) -> (res: Result<(), ModuleError>)
        requires
            old(self).wf(),
        ensures
            final(self).wf(),
            (final(self)@, res) == old(self)@.apply_checked(
                None,
                binary_signature(ValueType::I32),
                Instruction::I32And,
            ),
    {
        self.translate_binary(ValueType::I32, ValueType::I32, Instruction::I32And)
    }

    /// Translate a Wasm `i32.or` instruction.
    pub fn translate_i32_or(&mut self) -> (res: Result<(), ModuleError>)
        requires
            old(self).wf(),
        ensures
            final(self).wf(),
            (final(self)@, res) == old(self)@.apply_checked(
                None,
                binary_signature(ValueType::I32),
                Instruction::I32Or,
            ),
    {
        self.translate_binary(ValueType::I32, ValueType::I32, Instruction::I32Or)
    }

    /// Translate a Wasm `i32.xor` instruction.
    pub fn translate_i32_xor(&mut self) -> (res: Result<(), ModuleError>)
        requires
            old(self).wf(),
        ensures
            final(self).wf(),
            (final(self)@, res) == old(self)@.apply_checked(
                None,
                binary_signature(ValueType::I32),
                Instruction::I32Xor,
            ),
    {
        self.translate_binary(ValueType::I32, ValueType::I32, Instruction::I32Xor)
    }

    /// Translate a Wasm `i32.shl` instruction.
    pub fn translate_i32_shl(&mut self) -> (res: Result<(), ModuleError>)
        requires
            old(self).wf(),
        ensures
            final(self).wf(),
            (final(self)@, res) == old(self)@.apply_checked(
                None,
                binary_signature(ValueType::I32),
                Instruction::I32Shl,
            ),
    {
        self.translate_binary(ValueType::I32, ValueType::I32, Instruction::I32Shl)
    }

    /// Translate a Wasm `i32.shr_s` instruction.
    pub fn translate_i32_shr(&mut self) -> (res: Result<(), ModuleError>)
        requires
            old(self).wf(),
        ensures
            final(self).wf(),
            (final(self)@, res) == old(self)@.apply_checked(
                None,
                binary_signature(ValueType::I32),
                Instruction::I32ShrS,
            ),
    {
        self.translate_binary(ValueType::I32, ValueType::I32, Instruction::I32ShrS)
    }

    /// Translate a Wasm `i32.shr_u` instruction.
    pub fn translate_u32_shr(&mut self) -> (res: Result<(), ModuleError>)
        requires
            old(self).wf(),
        ensures
            final(self).wf(),
            (final(self)@, res) == old(self)@.apply_checked(
                None,
                binary_signature(ValueType::I32),
                Instruction::I32ShrU,
            ),
    {
        self.translate_binary(ValueType::I32, ValueType::I32, Instruction::I32ShrU)
    }

    /// Translate a Wasm `i32.rotl` instruction.
    pub fn translate_i32_rotl(&mut self) -> (res: Result<(), ModuleError>)
        requires
            old(self).wf(),
        ensures
            final(self).wf(),
            (final(self)@, res) == old(self)@.apply_checked(
                None,
                binary_signature(ValueType::I32),
                Instruction::I32Rotl,
            ),
    {
        self.translate_binary(ValueType::I32, ValueType::I32, Instruction::I32Rotl)
    }

    /// Translate a Wasm `i32.rotr` instruction.
    pub fn translate_i32_rotr(&mut self) -> (res: Result<(), ModuleError>)
        requires
            old(self).wf(),
        ensures
            final(self).wf(),
            (final(self)@, res) == old(self)@.apply_checked(
                None,
                binary_signature(ValueType::I32),
                Instruction::I32Rotr,
            ),
    {
        self.translate_binary(ValueType::I32, ValueType::I32, Instruction::I32Rotr)
    }

    /// Translate a Wasm `i64.clz` instruction.
    pub fn translate_i64_clz(&mut self) -> (res: Result<(), ModuleError>)
        requires
            old(self).wf(),
        ensures
            final(self).wf(),
            (final(self)@, res) == old(self)@.apply_checked(
                None,
                unary_signature(ValueType::I64),
                Instruction::I64Clz,
            ),
    {
        self.translate_unary(ValueType::I64, Instruction::I64Clz)
    }

    /// Translate a Wasm `i64.ctz` instruction.
    pub fn translate_i64_ctz(&mut self) -> (res: Result<(), ModuleError>)
        requires
            old(self).wf(),
        ensures
            final(self).wf(),
            (final(self)@, res) == old(self)@.apply_checked(
                None,
                unary_signature(ValueType::I64),
                Instruction::I64Ctz,
            ),
    {
        self.translate_unary(ValueType::I64, Instruction::I64Ctz)
    }

    /// Translate a Wasm `i64.popcnt` instruction.
    pub fn translate_i64_popcnt(&mut self) -> (res: Result<(), ModuleError>)
        requires
            old(self).wf(),
        ensures
            final(self).wf(),
            (final(self)@, res) == old(self)@.apply_checked(
                None,
                unary_signature(ValueType::I64),
                Instruction::I64Popcnt,
            ),
    {
        self.translate_unary(ValueType::I64, Instruction::I64Popcnt)
    }

    /// Translate a Wasm `i64.add` instruction.
    pub fn translate_i64_add(&mut self) -> (res: Result<(), ModuleError>)
        requires
            old(self).wf(),
        ensures
            final(self).wf(),
            (final(self)@, res) == old(self)@.apply_checked(
                None,
                binary_signature(ValueType::I64),
                Instruction::I64Add,
            ),
    {
        self.translate_binary(ValueType::I64, ValueType::I64, Instruction::I64Add)
    }

    /// Translate a Wasm `i64.sub` instruction.
    pub fn translate_i64_sub(&mut self) -> (res: Result<(), ModuleError>)
        requires
            old(self).wf(),
        ensures
            final(self).wf(),
            (final(self)@, res) == old(self)@.apply_checked(
                None,
                binary_signature(ValueType::I64),
                Instruction::I64Sub,
            ),
    {
        self.translate_binary(ValueType::I64, ValueType::I64, Instruction::I64Sub)
    }

    /// Translate a Wasm `i64.mul` instruction.
    pub fn translate_i64_mul(&mut self) -> (res: Result<(), ModuleError>)
        requires
            old(self).wf(),
        ensures
            final(self).wf(),
            (final(self)@, res) == old(self)@.apply_checked(
                None,
                binary_signature(ValueType::I64),
                Instruction::I64Mul,
            ),
    {
        self.translate_binary(ValueType::I64, ValueType::I64, Instruction::I64Mul)
    }

    /// Translate a Wasm `i64.div_s` instruction.
    pub fn translate_i64_div(&mut self) -> (res: Result<(), ModuleError>)
        requires
            old(self).wf(),
        ensures
            final(self).wf(),
            (final(self)@, res) == old(self)@.apply_checked(
                None,
                binary_signature(ValueType::I64),
                Instruction::I64DivS,
            ),
    {
        self.translate_binary(ValueType::I64, ValueType::I64, Instruction::I64DivS)
    }

    /// Translate a Wasm `i64.div_u` instruction.
    pub fn translate_u64_div(&mut self) -> (res: Result<(), ModuleError>)
        requires
            old(self).wf(),
        ensures
            final(self).wf(),
            (final(self)@, res) == old(self)@.apply_checked(
                None,
                binary_signature(ValueType::I64),
                Instruction::I64DivU,
            ),
    {
        self.translate_binary(ValueType::I64, ValueType::I64, Instruction::I64DivU)
    }

    /// Translate a Wasm `i64.rem_s` instruction.
    pub fn translate_i64_rem(&mut self) -> (res: Result<(), ModuleError>)
        requires
            old(self).wf(),
        ensures
            final(self).wf(),
            (final(self)@, res) == old(self)@.apply_checked(
                None,
                binary_signature(ValueType::I64),
                Instruction::I64RemS,
            ),
    {
        self.translate_binary(ValueType::I64, ValueType::I64, Instruction::I64RemS)
    }

    /// Translate a Wasm `i64.rem_u` instruction.
    pub fn translate_u64_rem(&mut self) -> (res: Result<(), ModuleError>)
        requires
            old(self).wf(),
        ensures
            final(self).wf(),
            (final(self)@, res) == old(self)@.apply_checked(
                None,
                binary_signature(ValueType::I64),
                Instruction::I64RemU,
            ),
    {
        self.translate_binary(ValueType::I64, ValueType::I64, Instruction::I64RemU)
    }

    /// Translate a Wasm `i64.and` instruction.
    pub fn translate_i64_and(&mut self) -> (res: Result<(), ModuleError>)
        requires
            old(self).wf(),
        ensures
            final(self).wf(),
            (final(self)@, res) == old(self)@.apply_checked(
                None,
                binary_signature(ValueType::I64),
                Instruction::I64And,
            ),
    {
        self.translate_binary(ValueType::I64, ValueType::I64, Instruction::I64And)
    }

    /// Translate a Wasm `i64.or` instruction.
    pub fn translate_i64_or(&mut self) -> (res: Result<(), ModuleError>)
        requires
            old(self).wf(),
        ensures
            final(self).wf(),
            (final(self)@, res) == old(self)@.apply_checked(
                None,
                binary_signature(ValueType::I64),
                Instruction::I64Or,
            ),
    {
        self.translate_binary(ValueType::I64, ValueType::I64, Instruction::I64Or)
    }

    /// Translate a Wasm `i64.xor` instruction.
    pub fn translate_i64_xor(&mut self) -> (res: Result<(), ModuleError>)
        requires
            old(self).wf(),
        ensures
            final(self).wf(),
            (final(self)@, res) == old(self)@.apply_checked(
                None,
                binary_signature(ValueType::I64),
                Instruction::I64Xor,
            ),
    {
        self.translate_binary(ValueType::I64, ValueType::I64, Instruction::I64Xor)
    }

    /// Translate a Wasm `i64.shl` instruction.
    pub fn translate_i64_shl(&mut self) -> (res: Result<(), ModuleError>)
        requires
            old(self).wf(),
        ensures
            final(self).wf(),
            (final(self)@, res) == old(self)@.apply_checked(
                None,
                binary_signature(ValueType::I64),
                Instruction::I64Shl,
            ),
    {
        self.translate_binary(ValueType::I64, ValueType::I64, Instruction::I64Shl)
    }

    /// Translate a Wasm `i64.shr_s` instruction.
    #[allow(non_snake_case)]
    pub fn translate_i64_shrS(&mut self) -> (res: Result<(), ModuleError>)
        requires
            old(self).wf(),
        ensures
            final(self).wf(),
            (final(self)@, res) == old(self)@.apply_checked(
                None,
                binary_signature(ValueType::I64),
                Instruction::I64ShrS,
            ),
    {
        self.translate_binary(ValueType::I64, ValueType::I64, Instruction::I64ShrS)
    }

    /// Translate a Wasm `i64.shr_u` instruction.
    pub fn translate_u64_shr(&mut self) -> (res: Result<(), ModuleError>)
        requires
            old(self).wf(),
        ensures
            final(self).wf(),
            (final(self)@, res) == old(self)@.apply_checked(
                None,
                binary_signature(ValueType::I64),
                Instruction::I64ShrU,
            ),
    {
        self.translate_binary(ValueType::I64, ValueType::I64, Instruction::I64ShrU)
    }

    /// Translate a Wasm `i64.rotl` instruction.
    pub fn translate_i64_rotl(&mut self) -> (res: Result<(), ModuleError>)
        requires
            old(self).wf(),
        ensures
            final(self).wf(),
            (final(self)@, res) == old(self)@.apply_checked(
                None,
                binary_signature(ValueType::I64),
                Instruction::I64Rotl,
            ),
    {
        self.translate_binary(ValueType::I64, ValueType::I64, Instruction::I64Rotl)
    }

    /// Translate a Wasm `i64.rotr` instruction.
    pub fn translate_i64_rotr(&mut self) -> (res: Result<(), ModuleError>)
        requires
            old(self).wf(),
        ensures
            final(self).wf(),
            (final(self)@, res) == old(self)@.apply_checked(
                None,
                binary_signature(ValueType::I64),
                Instruction::I64Rotr,
            ),
    {
        self.translate_binary(ValueType::I64, ValueType::I64, Instruction::I64Rotr)
    }

    /// Translate a Wasm `f32.abs` instruction.
    pub fn translate_f32_abs(&mut self) -> (res: Result<(), ModuleError>)
        requires
            old(self).wf(),
        ensures
            final(self).wf(),
            (final(self)@, res) == old(self)@.apply_checked(
                None,
                unary_signature(ValueType::F32),
                Instruction::F32Abs,
            ),
    {
        self.translate_unary(ValueType::F32, Instruction::F32Abs)
    }

    /// Translate a Wasm `f32.neg` instruction.
    pub fn translate_f32_neg(&mut self) -> (res: Result<(), ModuleError>)
        requires
            old(self).wf(),
        ensures
            final(self).wf(),
            (final(self)@, res) == old(self)@.apply_checked(
                None,
                unary_signature(ValueType::F32),
                Instruction::F32Neg,
            ),
    {
        self.translate_unary(ValueType::F32, Instruction::F32Neg)
    }

    /// Translate a Wasm `f32.ceil` instruction.
    pub fn translate_f32_ceil(&mut self) -> (res: Result<(), ModuleError>)
        requires
            old(self).wf(),
        ensures
            final(self).wf(),
            (final(self)@, res) == old(self)@.apply_checked(
                None,
                unary_signature(ValueType::F32),
                Instruction::F32Ceil,
            ),
    {
        self.translate_unary(ValueType::F32, Instruction::F32Ceil)
    }

    /// Translate a Wasm `f32.floor` instruction.
    pub fn translate_f32_floor(&mut self) -> (res: Result<(), ModuleError>)
        requires
            old(self).wf(),
        ensures
            final(self).wf(),
            (final(self)@, res) == old(self)@.apply_checked(
                None,
                unary_signature(ValueType::F32),
                Instruction::F32Floor,
            ),
    {
        self.translate_unary(ValueType::F32, Instruction::F32Floor)
    }

    /// Translate a Wasm `f32.trunc` instruction.
    pub fn translate_f32_trunc(&mut self) -> (res: Result<(), ModuleError>)
        requires
            old(self).wf(),
        ensures
            final(self).wf(),
            (final(self)@, res) == old(self)@.apply_checked(
                None,
                unary_signature(ValueType::F32),
                Instruction::F32Trunc,
            ),
    {
        self.translate_unary(ValueType::F32, Instruction::F32Trunc)
    }

    /// Translate a Wasm `f32.nearest` instruction.
    pub fn translate_f32_nearest(&mut self) -> (res: Result<(), ModuleError>)
        requires
            old(self).wf(),
        ensures
            final(self).wf(),
            (final(self)@, res) == old(self)@.apply_checked(
                None,
                unary_signature(ValueType::F32),
                Instruction::F32Nearest,
            ),
    {
        self.translate_unary(ValueType::F32, Instruction::F32Nearest)
    }

    /// Translate a Wasm `f32.sqrt` instruction.
    pub fn translate_f32_sqrt(&mut self) -> (res: Result<(), ModuleError>)
        requires
            old(self).wf(),
        ensures
            final(self).wf(),
            (final(self)@, res) == old(self)@.apply_checked(
                None,
                unary_signature(ValueType::F32),
                Instruction::F32Sqrt,
            ),
    {
        self.translate_unary(ValueType::F32, Instruction::F32Sqrt)
    }

    /// Translate a Wasm `f32.add` instruction.
    pub fn translate_f32_add(&mut self) -> (res: Result<(), ModuleError>)
        requires
            old(self).wf(),
        ensures
            final(self).wf(),
            (final(self)@, res) == old(self)@.apply_checked(
                None,
                binary_signature(ValueType::F32),
                Instruction::F32Add,
            ),
    {
        self.translate_binary(ValueType::F32, ValueType::F32, Instruction::F32Add)
    }

    /// Translate a Wasm `f32.sub` instruction.
    pub fn translate_f32_sub(&mut self) -> (res: Result<(), ModuleError>)
        requires
            old(self).wf(),
        ensures
            final(self).wf(),
            (final(self)@, res) == old(self)@.apply_checked(
                None,
                binary_signature(ValueType::F32),
                Instruction::F32Sub,
            ),
    {
        self.translate_binary(ValueType::F32, ValueType::F32, Instruction::F32Sub)
    }

    /// Translate a Wasm `f32.mul` instruction.
    pub fn translate_f32_mul(&mut self) -> (res: Result<(), ModuleError>)
        requires
            old(self).wf(),
        ensures
            final(self).wf(),
            (final(self)@, res) == old(self)@.apply_checked(
                None,
                binary_signature(ValueType::F32),
                Instruction::F32Mul,
            ),
    {
        self.translate_binary(ValueType::F32, ValueType::F32, Instruction::F32Mul)
    }

    /// Translate a Wasm `f32.div` instruction.
    pub fn translate_f32_div(&mut self) -> (res: Result<(), ModuleError>)
        requires
            old(self).wf(),
        ensures
            final(self).wf(),
            (final(self)@, res) == old(self)@.apply_checked(
                None,
                binary_signature(ValueType::F32),
                Instruction::F32Div,
            ),
    {
        self.translate_binary(ValueType::F32, ValueType::F32, Instruction::F32Div)
    }

    /// Translate a Wasm `f32.min` instruction.
    pub fn translate_f32_min(&mut self) -> (res: Result<(), ModuleError>)
        requires
            old(self).wf(),
        ensures
            final(self).wf(),
            (final(self)@, res) == old(self)@.apply_checked(
                None,
                binary_signature(ValueType::F32),
                Instruction::F32Min,
            ),
    {
        self.translate_binary(ValueType::F32, ValueType::F32, Instruction::F32Min)
    }

    /// Translate a Wasm `f32.max` instruction.
    pub fn translate_f32_max(&mut self) -> (res: Result<(), ModuleError>)
        requires
            old(self).wf(),
        ensures
            final(self).wf(),
            (final(self)@, res) == old(self)@.apply_checked(
                None,
                binary_signature(ValueType::F32),
                Instruction::F32Max,
            ),
    {
        self.translate_binary(ValueType::F32, ValueType::F32, Instruction::F32Max)
    }

    /// Translate a Wasm `f32.copysign` instruction.
    pub fn translate_f32_copysign(&mut self) -> (res: Result<(), ModuleError>)
        requires
            old(self).wf(),
        ensures
            final(self).wf(),
            (final(self)@, res) == old(self)@.apply_checked(
                None,
                binary_signature(ValueType::F32),
                Instruction::F32Copysign,
            ),
    {
        self.translate_binary(ValueType::F32, ValueType::F32, Instruction::F32Copysign)
    }

    /// Translate a Wasm `f64.abs` instruction.
    pub fn translate_f64_abs(&mut self) -> (res: Result<(), ModuleError>)
        requires
            old(self).wf(),
        ensures
            final(self).wf(),
            (final(self)@, res) == old(self)@.apply_checked(
                None,
                unary_signature(ValueType::F64),
                Instruction::F64Abs,
            ),
    {
        self.translate_unary(ValueType::F64, Instruction::F64Abs)
    }

    /// Translate a Wasm `f64.neg` instruction.
    pub fn translate_f64_neg(&mut self) -> (res: Result<(), ModuleError>)
        requires
            old(self).wf(),
        ensures
            final(self).wf(),
            (final(self)@, res) == old(self)@.apply_checked(
                None,
                unary_signature(ValueType::F64),
                Instruction::F64Neg,
            ),
    {
        self.translate_unary(ValueType::F64, Instruction::F64Neg)
    }

    /// Translate a Wasm `f64.ceil` instruction.
    pub fn translate_f64_ceil(&mut self) -> (res: Result<(), ModuleError>)
        requires
            old(self).wf(),
        ensures
            final(self).wf(),
            (final(self)@, res) == old(self)@.apply_checked(
                None,
                unary_signature(ValueType::F64),
                Instruction::F64Ceil,
            ),
    {
        self.translate_unary(ValueType::F64, Instruction::F64Ceil)
    }

    /// Translate a Wasm `f64.floor` instruction.
    pub fn translate_f64_floor(&mut self) -> (res: Result<(), ModuleError>)
        requires
            old(self).wf(),
        ensures
            final(self).wf(),
            (final(self)@, res) == old(self)@.apply_checked(
                None,
                unary_signature(ValueType::F64),
                Instruction::F64Floor,
            ),
    {
        self.translate_unary(ValueType::F64, Instruction::F64Floor)
    }

    /// Translate a Wasm `f64.trunc` instruction.
    pub fn translate_f64_trunc(&mut self) -> (res: Result<(), ModuleError>)
        requires
            old(self).wf(),
        ensures
            final(self).wf(),
            (final(self)@, res) == old(self)@.apply_checked(
                None,
                unary_signature(ValueType::F64),
                Instruction::F64Trunc,
            ),
    {
        self.translate_unary(ValueType::F64, Instruction::F64Trunc)
    }

    /// Translate a Wasm `f64.nearest` instruction.
    pub fn translate_f64_nearest(&mut self) -> (res: Result<(), ModuleError>)
        requires
            old(self).wf(),
        ensures
            final(self).wf(),
            (final(self)@, res) == old(self)@.apply_checked(
                None,
                unary_signature(ValueType::F64),
                Instruction::F64Nearest,
            ),
    {
        self.translate_unary(ValueType::F64, Instruction::F64Nearest)
    }

    /// Translate a Wasm `f64.sqrt` instruction.
    pub fn translate_f64_sqrt(&mut self) -> (res: Result<(), ModuleError>)
        requires
            old(self).wf(),
        ensures
            final(self).wf(),
            (final(self)@, res) == old(self)@.apply_checked(
                None,
                unary_signature(ValueType::F64),
                Instruction::F64Sqrt,
            ),
    {
        self.translate_unary(ValueType::F64, Instruction::F64Sqrt)
    }

    /// Translate a Wasm `f64.add` instruction.
    pub fn translate_f64_add(&mut self) -> (res: Result<(), ModuleError>)
        requires
            old(self).wf(),
        ensures
            final(self).wf(),
            (final(self)@, res) == old(self)@.apply_checked(
                None,
                binary_signature(ValueType::F64),
                Instruction::F64Add,
            ),
    {
        self.translate_binary(ValueType::F64, ValueType::F64, Instruction::F64Add)
    }

    /// Translate a Wasm `f64.sub` instruction.
    pub fn translate_f64_sub(&mut self) -> (res: Result<(), ModuleError>)
        requires
            old(self).wf(),
        ensures
            final(self).wf(),
            (final(self)@, res) == old(self)@.apply_checked(
                None,
                binary_signature(ValueType::F64),
                Instruction::F64Sub,
            ),
    {
        self.translate_binary(ValueType::F64, ValueType::F64, Instruction::F64Sub)
    }

    /// Translate a Wasm `f64.mul` instruction.
    pub fn translate_f64_mul(&mut self) -> (res: Result<(), ModuleError>)
        requires
            old(self).wf(),
        ensures
            final(self).wf(),
            (final(self)@, res) == old(self)@.apply_checked(
                None,
                binary_signature(ValueType::F64),
                Instruction::F64Mul,
            ),
    {
        self.translate_binary(ValueType::F64, ValueType::F64, Instruction::F64Mul)
    }

    /// Translate a Wasm `f64.div` instruction.
    pub fn translate_f64_div(&mut self) -> (res: Result<(), ModuleError>)
        requires
            old(self).wf(),
        ensures
            final(self).wf(),
            (final(self)@, res) == old(self)@.apply_checked(
                None,
                binary_signature(ValueType::F64),
                Instruction::F64Div,
            ),
    {
        self.translate_binary(ValueType::F64, ValueType::F64, Instruction::F64Div)
    }

    /// Translate a Wasm `f64.min` instruction.
    pub fn translate_f64_min(&mut self) -> (res: Result<(), ModuleError>)
        requires
            old(self).wf(),
        ensures
            final(self).wf(),
            (final(self)@, res) == old(self)@.apply_checked(
                None,
                binary_signature(ValueType::F64),
                Instruction::F64Min,
            ),
    {
        self.translate_binary(ValueType::F64, ValueType::F64, Instruction::F64Min)
    }

    /// Translate a Wasm `f64.max` instruction.
    pub fn translate_f64_max(&mut self) -> (res: Result<(), ModuleError>)
        requires
            old(self).wf(),
        ensures
            final(self).wf(),
            (final(self)@, res) == old(self)@.apply_checked(
                None,
                binary_signature(ValueType::F64),
                Instruction::F64Max,
            ),
    {
        self.translate_binary(ValueType::F64, ValueType::F64, Instruction::F64Max)
    }

    /// Translate a Wasm `f64.copysign` instruction.
    pub fn translate_f64_copysign(&mut self) -> (res: Result<(), ModuleError>)
        requires
            old(self).wf(),
        ensures
            final(self).wf(),
            (final(self)@, res) == old(self)@.apply_checked(
                None,
                binary_signature(ValueType::F64),
                Instruction::F64Copysign,
            ),
    {
        self.translate_binary(ValueType::F64, ValueType::F64, Instruction::F64Copysign)
    }

    /// Translate a Wasm `i32.wrap_i64` instruction.
    pub fn translate_i32_wrap_i64(&mut self) -> (res: Result<(), ModuleError>)
        requires
            old(self).wf(),
        ensures
            final(self).wf(),
            (final(self)@, res) == old(self)@.apply_checked(
                None,
                convert_signature(ValueType::I64, ValueType::I32),
                Instruction::I32WrapI64,
            ),
    {
        self.translate_convert(None, ValueType::I64, ValueType::I32, Instruction::I32WrapI64)
    }

    /// Translate a Wasm `i32.trunc_f32_s` instruction.
    pub fn translate_i32_trunc_f32(&mut self) -> (res: Result<(), ModuleError>)
        requires
            old(self).wf(),
        ensures
            final(self).wf(),
            (final(self)@, res) == old(self)@.apply_checked(
                None,
                convert_signature(ValueType::F32, ValueType::I32),
                Instruction::I32TruncF32S,
            ),
    {
        self.translate_convert(None, ValueType::F32, ValueType::I32, Instruction::I32TruncF32S)
    }

    /// Translate a Wasm `i32.trunc_f32_u` instruction.
    pub fn translate_u32_trunc_f32(&mut self) -> (res: Result<(), ModuleError>)
        requires
            old(self).wf(),
        ensures
            final(self).wf(),
            (final(self)@, res) == old(self)@.apply_checked(
                None,
                convert_signature(ValueType::F32, ValueType::I32),
                Instruction::I32TruncF32U,
            ),
    {
        self.translate_convert(None, ValueType::F32, ValueType::I32, Instruction::I32TruncF32U)
    }

    /// Translate a Wasm `i32.trunc_f64_s` instruction.
    pub fn translate_i32_trunc_f64(&mut self) -> (res: Result<(), ModuleError>)
        requires
            old(self).wf(),
        ensures
            final(self).wf(),
            (final(self)@, res) == old(self)@.apply_checked(
                None,
                convert_signature(ValueType::F64, ValueType::I32),
                Instruction::I32TruncF64S,
            ),
    {
        self.translate_convert(None, ValueType::F64, ValueType::I32, Instruction::I32TruncF64S)
    }

    /// Translate a Wasm `i32.trunc_f64_u` instruction.
    pub fn translate_u32_trunc_f64(&mut self) -> (res: Result<(), ModuleError>)
        requires
            old(self).wf(),
        ensures
            final(self).wf(),
            (final(self)@, res) == old(self)@.apply_checked(
                None,
                convert_signature(ValueType::F64, ValueType::I32),
                Instruction::I32TruncF64U,
            ),
    {
        self.translate_convert(None, ValueType::F64, ValueType::I32, Instruction::I32TruncF64U)
    }

    /// Translate a Wasm `i64.extend_i32_s` instruction.
    pub fn translate_i64_extend_i32(&mut self) -> (res: Result<(), ModuleError>)
        requires
            old(self).wf(),
        ensures
            final(self).wf(),
            (final(self)@, res) == old(self)@.apply_checked(
                None,
                convert_signature(ValueType::I32, ValueType::I64),
                Instruction::I64ExtendI32S,
            ),
    {
        self.translate_convert(None, ValueType::I32, ValueType::I64, Instruction::I64ExtendI32S)
    }

    /// Translate a Wasm `i64.extend_i32_u` instruction.
    pub fn translate_u64_extend_i32(&mut self) -> (res: Result<(), ModuleError>)
        requires
            old(self).wf(),
        ensures
            final(self).wf(),
            (final(self)@, res) == old(self)@.apply_checked(
                None,
                convert_signature(ValueType::I32, ValueType::I64),
                Instruction::I64ExtendI32U,
            ),
    {
        self.translate_convert(None, ValueType::I32, ValueType::I64, Instruction::I64ExtendI32U)
    }

    /// Translate a Wasm `i64.trunc_f32_s` instruction.
    #[allow(non_snake_case)]
    pub fn translate_i64_trunc_F3(&mut self) -> (res: Result<(), ModuleError>)
        requires
            old(self).wf(),
        ensures
            final(self).wf(),
            (final(self)@, res) == old(self)@.apply_checked(
                None,
                convert_signature(ValueType::F32, ValueType::I64),
                Instruction::I64TruncF32S,
            ),
    {
        self.translate_convert(None, ValueType::F32, ValueType::I64, Instruction::I64TruncF32S)
    }

    /// Translate a Wasm `i64.trunc_f32_u` instruction.
    #[allow(non_snake_case)]
    pub fn translate_u64_trunc_F3(&mut self) -> (res: Result<(), ModuleError>)
        requires
            old(self).wf(),
        ensures
            final(self).wf(),
            (final(self)@, res) == old(self)@.apply_checked(
                None,
                convert_signature(ValueType::F32, ValueType::I64),
                Instruction::I64TruncF32U,
            ),
    {
        self.translate_convert(None, ValueType::F32, ValueType::I64, Instruction::I64TruncF32U)
    }

    /// Translate a Wasm `i64.trunc_f64_s` instruction.
    #[allow(non_snake_case)]
    pub fn translate_i64_trunc_F6(&mut self) -> (res: Result<(), ModuleError>)
        requires
            old(self).wf(),
        ensures
            final(self).wf(),
            (final(self)@, res) == old(self)@.apply_checked(
                None,
                convert_signature(ValueType::F64, ValueType::I64),
                Instruction::I64TruncF64S,
            ),
    {
        self.translate_convert(None, ValueType::F64, ValueType::I64, Instruction::I64TruncF64S)
    }

    /// Translate a Wasm `i64.trunc_f64_u` instruction.
    #[allow(non_snake_case)]
    pub fn translate_u64_trunc_F6(&mut self) -> (res: Result<(), ModuleError>)
        requires
            old(self).wf(),
        ensures
            final(self).wf(),
            (final(self)@, res) == old(self)@.apply_checked(
                None,
                convert_signature(ValueType::F64, ValueType::I64),
                Instruction::I64TruncF64U,
            ),
    {
        self.translate_convert(None, ValueType::F64, ValueType::I64, Instruction::I64TruncF64U)
    }

    /// Translate a Wasm `f32.convert_i32_s` instruction.
    pub fn translate_f32_convert_i32(&mut self) -> (res: Result<(), ModuleError>)
        requires
            old(self).wf(),
        ensures
            final(self).wf(),
            (final(self)@, res) == old(self)@.apply_checked(
                None,
                convert_signature(ValueType::I32, ValueType::F32),
                Instruction::F32ConvertI32S,
            ),
    {
        self.translate_convert(None, ValueType::I32, ValueType::F32, Instruction::F32ConvertI32S)
    }

    /// Translate a Wasm `f32.convert_i32_u` instruction.
    pub fn translate_f32_convert_u32(&mut self) -> (res: Result<(), ModuleError>)
        requires
            old(self).wf(),
        ensures
            final(self).wf(),
            (final(self)@, res) == old(self)@.apply_checked(
                None,
                convert_signature(ValueType::I32, ValueType::F32),
                Instruction::F32ConvertI32U,
            ),
    {
        self.translate_convert(None, ValueType::I32, ValueType::F32, Instruction::F32ConvertI32U)
    }

    /// Translate a Wasm `f32.convert_i64_s` instruction.
    pub fn translate_f32_convert_i64(&mut self) -> (res: Result<(), ModuleError>)
        requires
            old(self).wf(),
        ensures
            final(self).wf(),
            (final(self)@, res) == old(self)@.apply_checked(
                None,
                convert_signature(ValueType::I64, ValueType::F32),
                Instruction::F32ConvertI64S,
            ),
    {
        self.translate_convert(None, ValueType::I64, ValueType::F32, Instruction::F32ConvertI64S)
    }

    /// Translate a Wasm `f32.convert_i64_u` instruction.
    pub fn translate_f32_convert_u64(&mut self) -> (res: Result<(), ModuleError>)
        requires
            old(self).wf(),
        ensures
            final(self).wf(),
            (final(self)@, res) == old(self)@.apply_checked(
                None,
                convert_signature(ValueType::I64, ValueType::F32),
                Instruction::F32ConvertI64U,
            ),
    {
        self.translate_convert(None, ValueType::I64, ValueType::F32, Instruction::F32ConvertI64U)
    }

    /// Translate a Wasm `f32.demote_f64` instruction.
    pub fn translate_f32_demote_f64(&mut self) -> (res: Result<(), ModuleError>)
        requires
            old(self).wf(),
        ensures
            final(self).wf(),
            (final(self)@, res) == old(self)@.apply_checked(
                None,
                convert_signature(ValueType::F64, ValueType::F32),
                Instruction::F32DemoteF64,
            ),
    {
        self.translate_convert(None, ValueType::F64, ValueType::F32, Instruction::F32DemoteF64)
    }

    /// Translate a Wasm `f64.convert_i32_s` instruction.
    pub fn translate_f64_convert_i32(&mut self) -> (res: Result<(), ModuleError>)
        requires
            old(self).wf(),
        ensures
            final(self).wf(),
            (final(self)@, res) == old(self)@.apply_checked(
                None,
                convert_signature(ValueType::I32, ValueType::F64),
                Instruction::F64ConvertI32S,
            ),
    {
        self.translate_convert(None, ValueType::I32, ValueType::F64, Instruction::F64ConvertI32S)
    }

    /// Translate a Wasm `f64.convert_i32_u` instruction.
    pub fn translate_f64_convert_u32(&mut self) -> (res: Result<(), ModuleError>)
        requires
            old(self).wf(),
        ensures
            final(self).wf(),
            (final(self)@, res) == old(self)@.apply_checked(
                None,
                convert_signature(ValueType::I32, ValueType::F64),
                Instruction::F64ConvertI32U,
            ),
    {
        self.translate_convert(None, ValueType::I32, ValueType::F64, Instruction::F64ConvertI32U)
    }

    /// Translate a Wasm `f64.convert_i64_s` instruction.
    pub fn translate_f64_convert_i64(&mut self) -> (res: Result<(), ModuleError>)
        requires
            old(self).wf(),
        ensures
            final(self).wf(),
            (final(self)@, res) == old(self)@.apply_checked(
                None,
                convert_signature(ValueType::I64, ValueType::F64),
                Instruction::F64ConvertI64S,
            ),
    {
        self.translate_convert(None, ValueType::I64, ValueType::F64, Instruction::F64ConvertI64S)
    }

    /// Translate a Wasm `f64.convert_i64_u` instruction.
    pub fn translate_f64_convert_u64(&mut self) -> (res: Result<(), ModuleError>)
        requires
            old(self).wf(),
        ensures
            final(self).wf(),
            (final(self)@, res) == old(self)@.apply_checked(
                None,
                convert_signature(ValueType::I64, ValueType::F64),
                Instruction::F64ConvertI64U,
            ),
    {
        self.translate_convert(None, ValueType::I64, ValueType::F64, Instruction::F64ConvertI64U)
    }

    /// Translate a Wasm `f64.promote_f32` instruction.
    pub fn translate_f64_promote_f32(&mut self) -> (res: Result<(), ModuleError>)
        requires
            old(self).wf(),
        ensures
            final(self).wf(),
            (final(self)@, res) == old(self)@.apply_checked(
                None,
                convert_signature(ValueType::F32, ValueType::F64),
                Instruction::F64PromoteF32,
            ),
    {
        self.translate_convert(None, ValueType::F32, ValueType::F64, Instruction::F64PromoteF32)
    }

    /// Translate a Wasm `i32.reinterpret_f32` instruction.
    pub fn translate_i32_reinterpret_f32(&mut self) -> (res: Result<(), ModuleError>)
        requires
            old(self).wf(),
        ensures
            final(self).wf(),
            (final(self)@, res) == old(self)@.apply_checked(
                None,
                convert_signature(ValueType::F32, ValueType::I32),
                Instruction::I32ReinterpretF32,
            ),
    {
        self.translate_convert(None, ValueType::F32, ValueType::I32, Instruction::I32ReinterpretF32)
    }

    /// Translate a Wasm `i64.reinterpret_f64` instruction.
    pub fn translate_i64_reinterpret_f64(&mut self) -> (res: Result<(), ModuleError>)
        requires
            old(self).wf(),
        ensures
            final(self).wf(),
            (final(self)@, res) == old(self)@.apply_checked(
                None,
                convert_signature(ValueType::F64, ValueType::I64),
                Instruction::I64ReinterpretF64,
            ),
    {
        self.translate_convert(None, ValueType::F64, ValueType::I64, Instruction::I64ReinterpretF64)
    }

    /// Translate a Wasm `f32.reinterpret_i32` instruction.
    pub fn translate_f32_reinterpret_i32(&mut self) -> (res: Result<(), ModuleError>)
        requires
            old(self).wf(),
        ensures
            final(self).wf(),
            (final(self)@, res) == old(self)@.apply_checked(
                None,
                convert_signature(ValueType::I32, ValueType::F32),
                Instruction::F32ReinterpretI32,
            ),
    {
        self.translate_convert(None, ValueType::I32, ValueType::F32, Instruction::F32ReinterpretI32)
    }

    /// Translate a Wasm `f64.reinterpret_i64` instruction.
    pub fn translate_f64_reinterpret_i64(&mut self) -> (res: Result<(), ModuleError>)
        requires
            old(self).wf(),
        ensures
            final(self).wf(),
            (final(self)@, res) == old(self)@.apply_checked(
                None,
                convert_signature(ValueType::I64, ValueType::F64),
                Instruction::F64ReinterpretI64,
            ),
    {
        self.translate_convert(None, ValueType::I64, ValueType::F64, Instruction::F64ReinterpretI64)
    }

    /// Translate a Wasm `i32.extend8_s` instruction.
    pub fn translate_i32_extend8(&mut self) -> (res: Result<(), ModuleError>)
        requires
            old(self).wf(),
        ensures
            final(self).wf(),
            (final(self)@, res) == old(self)@.apply_checked(
                proposal_error(old(self)@.config.sign_extension),
                convert_signature(ValueType::I32, ValueType::I32),
                Instruction::I32Extend8S,
            ),
    {
        let error = self.check_sign_extension();
        self.translate_convert(error, ValueType::I32, ValueType::I32, Instruction::I32Extend8S)
    }

    /// Translate a Wasm `i32.extend16_s` instruction.
    pub fn translate_i32_extend16(&mut self) -> (res: Result<(), ModuleError>)
        requires
            old(self).wf(),
        ensures
            final(self).wf(),
            (final(self)@, res) == old(self)@.apply_checked(
                proposal_error(old(self)@.config.sign_extension),
                convert_signature(ValueType::I32, ValueType::I32),
                Instruction::I32Extend16S,
            ),
    {
        let error = self.check_sign_extension();
        self.translate_convert(error, ValueType::I32, ValueType::I32, Instruction::I32Extend16S)
    }

    /// Translate a Wasm `i64.extend8_s` instruction.
    pub fn translate_i64_extend8(&mut self) -> (res: Result<(), ModuleError>)
        requires
            old(self).wf(),
        ensures
            final(self).wf(),
            (final(self)@, res) == old(self)@.apply_checked(
                proposal_error(old(self)@.config.sign_extension),
                convert_signature(ValueType::I64, ValueType::I64),
                Instruction::I64Extend8S,
            ),
    {
        let error = self.check_sign_extension();
        self.translate_convert(error, ValueType::I64, ValueType::I64, Instruction::I64Extend8S)
    }

    /// Translate a Wasm `i64.extend16_s` instruction.
    pub fn translate_i64_extend16(&mut self) -> (res: Result<(), ModuleError>)
        requires
            old(self).wf(),
        ensures
            final(self).wf(),
            (final(self)@, res) == old(self)@.apply_checked(
                proposal_error(old(self)@.config.sign_extension),
                convert_signature(ValueType::I64, ValueType::I64),
                Instruction::I64Extend16S,
            ),
    {
        let error = self.check_sign_extension();
        self.translate_convert(error, ValueType::I64, ValueType::I64, Instruction::I64Extend16S)
    }

    /// Translate a Wasm `i64.extend32_s` instruction.
    pub fn translate_i64_extend32(&mut self) -> (res: Result<(), ModuleError>)
        requires
            old(self).wf(),
        ensures
            final(self).wf(),
            (final(self)@, res) == old(self)@.apply_checked(
                proposal_error(old(self)@.config.sign_extension),
                convert_signature(ValueType::I64, ValueType::I64),
                Instruction::I64Extend32S,
            ),
    {
        let error = self.check_sign_extension();
        self.translate_convert(error, ValueType::I64, ValueType::I64, Instruction::I64Extend32S)
    }

    /// Translate a Wasm `i32.trunc_sat_f32_s` instruction.
    pub fn translate_i32_trunc_sat_f32(&mut self) -> (res: Result<(), ModuleError>)
        requires
            old(self).wf(),
        ensures
            final(self).wf(),
            (final(self)@, res) == old(self)@.apply_checked(
                proposal_error(old(self)@.config.saturating_float_to_int),
                convert_signature(ValueType::F32, ValueType::I32),
                Instruction::I32TruncSatF32S,
            ),
    {
        let error = self.check_saturating();
        self.translate_convert(error, ValueType::F32, ValueType::I32, Instruction::I32TruncSatF32S)
    }

    /// Translate a Wasm `i32.trunc_sat_f32_u` instruction.
    pub fn translate_u32_trunc_sat_f32(&mut self) -> (res: Result<(), ModuleError>)
        requires
            old(self).wf(),
        ensures
            final(self).wf(),
            (final(self)@, res) == old(self)@.apply_checked(
                proposal_error(old(self)@.config.saturating_float_to_int),
                convert_signature(ValueType::F32, ValueType::I32),
                Instruction::I32TruncSatF32U,
            ),
    {
        let error = self.check_saturating();
        self.translate_convert(error, ValueType::F32, ValueType::I32, Instruction::I32TruncSatF32U)
    }

    /// Translate a Wasm `i32.trunc_sat_f64_s` instruction.
    pub fn translate_i32_trunc_sat_f64(&mut self) -> (res: Result<(), ModuleError>)
        requires
            old(self).wf(),
        ensures
            final(self).wf(),
            (final(self)@, res) == old(self)@.apply_checked(
                proposal_error(old(self)@.config.saturating_float_to_int),
                convert_signature(ValueType::F64, ValueType::I32),
                Instruction::I32TruncSatF64S,
            ),
    {
        let error = self.check_saturating();
        self.translate_convert(error, ValueType::F64, ValueType::I32, Instruction::I32TruncSatF64S)
    }

    /// Translate a Wasm `i32.trunc_sat_f64_u` instruction.
    pub fn translate_u32_trunc_sat_f64(&mut self) -> (res: Result<(), ModuleError>)
        requires
            old(self).wf(),
        ensures
            final(self).wf(),
            (final(self)@, res) == old(self)@.apply_checked(
                proposal_error(old(self)@.config.saturating_float_to_int),
                convert_signature(ValueType::F64, ValueType::I32),
                Instruction::I32TruncSatF64U,
            ),
    {
        let error = self.check_saturating();
        self.translate_convert(error, ValueType::F64, ValueType::I32, Instruction::I32TruncSatF64U)
    }

    /// Translate a Wasm `i64.trunc_sat_f32_s` instruction.
    pub fn translate_i64_trunc_sat_f32(&mut self) -> (res: Result<(), ModuleError>)
        requires
            old(self).wf(),
        ensures
            final(self).wf(),
            (final(self)@, res) == old(self)@.apply_checked(
                proposal_error(old(self)@.config.saturating_float_to_int),
                convert_signature(ValueType::F32, ValueType::I64),
                Instruction::I64TruncSatF32S,
            ),
    {
        let error = self.check_saturating();
        self.translate_convert(error, ValueType::F32, ValueType::I64, Instruction::I64TruncSatF32S)
    }

    /// Translate a Wasm `i64.trunc_sat_f32_u` instruction.
    pub fn translate_u64_trunc_sat_f32(&mut self) -> (res: Result<(), ModuleError>)
        requires
            old(self).wf(),
        ensures
            final(self).wf(),
            (final(self)@, res) == old(self)@.apply_checked(
                proposal_error(old(self)@.config.saturating_float_to_int),
                convert_signature(ValueType::F32, ValueType::I64),
                Instruction::I64TruncSatF32U,
            ),
    {
        let error = self.check_saturating();
        self.translate_convert(error, ValueType::F32, ValueType::I64, Instruction::I64TruncSatF32U)
    }

    /// Translate a Wasm `i64.trunc_sat_f64_s` instruction.
    pub fn translate_i64_trunc_sat_f64(&mut self) -> (res: Result<(), ModuleError>)
        requires
            old(self).wf(),
        ensures
            final(self).wf(),
            (final(self)@, res) == old(self)@.apply_checked(
                proposal_error(old(self)@.config.saturating_float_to_int),
                convert_signature(ValueType::F64, ValueType::I64),
                Instruction::I64TruncSatF64S,
            ),
    {
        let error = self.check_saturating();
        self.translate_convert(error, ValueType::F64, ValueType::I64, Instruction::I64TruncSatF64S)
    }

    /// Translate a Wasm `i64.trunc_sat_f64_u` instruction.
    pub fn translate_u64_trunc_sat_f64(&mut self) -> (res: Result<(), ModuleError>)
        requires
            old(self).wf(),
        ensures
            final(self).wf(),
            (final(self)@, res) == old(self)@.apply_checked(
                proposal_error(old(self)@.config.saturating_float_to_int),
                convert_signature(ValueType::F64, ValueType::I64),
                Instruction::I64TruncSatF64U,
            ),
    {
        let error = self.check_saturating();
        self.translate_convert(error, ValueType::F64, ValueType::I64, Instruction::I64TruncSatF64U)
    }

    /// Translates the given operator.
    pub fn translate_operator(&mut self, op: &Operator) -> (res: Result<(), ModuleError>)
        requires
            old(self).wf(),
        ensures
            final(self).wf(),
            (final(self)@, res) == old(self)@.apply(*op),
    {
        reveal(TranslatorState::apply);
        match op {
            Operator::Unreachable => self.translate_unreachable(),
            Operator::Block(block_type) => self.translate_block(*block_type),
            Operator::Loop(block_type) => self.translate_loop(*block_type),
            Operator::If(block_type) => self.translate_if(*block_type),
            Operator::Else => self.translate_else(),
            Operator::End => self.translate_end(),
            Operator::Br(depth) => self.translate_br(*depth),
            Operator::BrIf(depth) => self.translate_br_if(*depth),
            Operator::BrTable(table) => self.translate_br_table(table),
            Operator::Return => self.translate_return(),
            Operator::Call(func) => self.translate_call(*func),
            Operator::CallIndirect(ty, table) => self.translate_call_indirect(*ty, *table),
            Operator::Drop => self.translate_drop(),
            Operator::Select => self.translate_select(),
            Operator::LocalGet(local_idx) => self.translate_local_get(*local_idx),
            Operator::LocalSet(local_idx) => self.translate_local_set(*local_idx),
            Operator::LocalTee(local_idx) => self.translate_local_tee(*local_idx),
            Operator::GlobalGet(idx) => self.translate_global_get(*idx),
            Operator::GlobalSet(idx) => self.translate_global_set(*idx),
            Operator::I32Load(memory, offset) => self.translate_i32_load(*memory, *offset),
            Operator::I64Load(memory, offset) => self.translate_i64_load(*memory, *offset),
            Operator::F32Load(memory, offset) => self.translate_f32_load(*memory, *offset),
            Operator::F64Load(memory, offset) => self.translate_f64_load(*memory, *offset),
            Operator::I32Load8S(memory, offset) => self.translate_i32_load_i8(*memory, *offset),
            Operator::I32Load8U(memory, offset) => self.translate_i32_load_u8(*memory, *offset),
            Operator::I32Load16S(memory, offset) => self.translate_i32_load_i16(*memory, *offset),
            Operator::I32Load16U(memory, offset) => self.translate_i32_load_u16(*memory, *offset),
            Operator::I64Load8S(memory, offset) => self.translate_i64_load_i8(*memory, *offset),
            Operator::I64Load8U(memory, offset) => self.translate_i64_load_u8(*memory, *offset),
            Operator::I64Load16S(memory, offset) => self.translate_i64_load_i16(*memory, *offset),
            Operator::I64Load16U(memory, offset) => self.translate_i64_load_u16(*memory, *offset),
            Operator::I64Load32S(memory, offset) => self.translate_i64_load_i32(*memory, *offset),
            Operator::I64Load32U(memory, offset) => self.translate_i64_load_u32(*memory, *offset),
            Operator::I32Store(memory, offset) => self.translate_i32_store(*memory, *offset),
            Operator::I64Store(memory, offset) => self.translate_i64_store(*memory, *offset),
            Operator::F32Store(memory, offset) => self.translate_f32_store(*memory, *offset),
            Operator::F64Store(memory, offset) => self.translate_f64_store(*memory, *offset),
            Operator::I32Store8(memory, offset) => self.translate_i32_store_i8(*memory, *offset),
            Operator::I32Store16(memory, offset) => self.translate_i32_store_i16(*memory, *offset),
            Operator::I64Store8(memory, offset) => self.translate_i64_store_i8(*memory, *offset),
            Operator::I64Store16(memory, offset) => self.translate_i64_store_i16(*memory, *offset),
            Operator::I64Store32(memory, offset) => self.translate_i64_store_i32(*memory, *offset),
            Operator::MemorySize(memory) => self.translate_memory_size(*memory),
            Operator::MemoryGrow(memory) => self.translate_memory_grow(*memory),
            Operator::I32Const(value) => self.translate_i32_const(*value),
            Operator::I64Const(value) => self.translate_i64_const(*value),
            Operator::F32Const(value) => self.translate_f32_const(*value),
            Operator::F64Const(value) => self.translate_f64_const(*value),
            Operator::I32Eqz => self.translate_i32_eqz(),
            Operator::I32Eq => self.translate_i32_eq(),
            Operator::I32Ne => self.translate_i32_ne(),
            Operator::I32LtS => self.translate_i32_lt(),
            Operator::I32LtU => self.translate_u32_lt(),
            Operator::I32GtS => self.translate_i32_gt(),
            Operator::I32GtU => self.translate_u32_gt(),
            Operator::I32LeS => self.translate_i32_le(),
            Operator::I32LeU => self.translate_u32_le(),
            Operator::I32GeS => self.translate_i32_ge(),
            Operator::I32GeU => self.translate_u32_ge(),
            Operator::I64Eqz => self.translate_i64_eqz(),
            Operator::I64Eq => self.translate_i64_eq(),
            Operator::I64Ne => self.translate_i64_ne(),
            Operator::I64LtS => self.translate_i64_lt(),
            Operator::I64LtU => self.translate_u64_lt(),
            Operator::I64GtS => self.translate_i64_gt(),
            Operator::I64GtU => self.translate_u64_gt(),
            Operator::I64LeS => self.translate_i64_le(),
            Operator::I64LeU => self.translate_u64_le(),
            Operator::I64GeS => self.translate_i64_ge(),
            Operator::I64GeU => self.translate_u64_ge(),
            Operator::F32Eq => self.translate_f32_eq(),
            Operator::F32Ne => self.translate_f32_ne(),
            Operator::F32Lt => self.translate_f32_lt(),
            Operator::F32Gt => self.translate_f32_gt(),
            Operator::F32Le => self.translate_f32_le(),
            Operator::F32Ge => self.translate_f32_ge(),
            Operator::F64Eq => self.translate_f64_eq(),
            Operator::F64Ne => self.translate_f64_ne(),
            Operator::F64Lt => self.translate_f64_lt(),
            Operator::F64Gt => self.translate_f64_gt(),
            Operator::F64Le => self.translate_f64_le(),
            Operator::F64Ge => self.translate_f64_ge(),
            Operator::I32Clz => self.translate_i32_clz(),
            Operator::I32Ctz => self.translate_i32_ctz(),
            Operator::I32Popcnt => self.translate_i32_popcnt(),
            Operator::I32Add => self.translate_i32_add(),
            Operator::I32Sub => self.translate_i32_sub(),
            Operator::I32Mul => self.translate_i32_mul(),
            Operator::I32DivS => self.translate_i32_div(),
            Operator::I32DivU => self.translate_u32_div(),
            Operator::I32RemS => self.translate_i32_remS(),
            Operator::I32RemU => self.translate_u32_rem(),
            Operator::I32And => self.translate_i32_and(),
            Operator::I32Or => self.translate_i32_or(),
            Operator::I32Xor => self.translate_i32_xor(),
            Operator::I32Shl => self.translate_i32_shl(),
            Operator::I32ShrS => self.translate_i32_shr(),
            Operator::I32ShrU => self.translate_u32_shr(),
            Operator::I32Rotl => self.translate_i32_rotl(),
            Operator::I32Rotr => self.translate_i32_rotr(),
            Operator::I64Clz => self.translate_i64_clz(),
            Operator::I64Ctz => self.translate_i64_ctz(),
            Operator::I64Popcnt => self.translate_i64_popcnt(),
            Operator::I64Add => self.translate_i64_add(),
            Operator::I64Sub => self.translate_i64_sub(),
            Operator::I64Mul => self.translate_i64_mul(),
            Operator::I64DivS => self.translate_i64_div(),
            Operator::I64DivU => self.translate_u64_div(),
            Operator::I64RemS => self.translate_i64_rem(),
            Operator::I64RemU => self.translate_u64_rem(),
            Operator::I64And => self.translate_i64_and(),
            Operator::I64Or => self.translate_i64_or(),
            Operator::I64Xor => self.translate_i64_xor(),
            Operator::I64Shl => self.translate_i64_shl(),
            Operator::I64ShrS => self.translate_i64_shrS(),
            Operator::I64ShrU => self.translate_u64_shr(),
            Operator::I64Rotl => self.translate_i64_rotl(),
            Operator::I64Rotr => self.translate_i64_rotr(),
            Operator::F32Abs => self.translate_f32_abs(),
            Operator::F32Neg => self.translate_f32_neg(),
            Operator::F32Ceil => self.translate_f32_ceil(),
            Operator::F32Floor => self.translate_f32_floor(),
            Operator::F32Trunc => self.translate_f32_trunc(),
            Operator::F32Nearest => self.translate_f32_nearest(),
            Operator::F32Sqrt => self.translate_f32_sqrt(),
            Operator::F32Add => self.translate_f32_add(),
            Operator::F32Sub => self.translate_f32_sub(),
            Operator::F32Mul => self.translate_f32_mul(),
            Operator::F32Div => self.translate_f32_div(),
            Operator::F32Min => self.translate_f32_min(),
            Operator::F32Max => self.translate_f32_max(),
            Operator::F32Copysign => self.translate_f32_copysign(),
            Operator::F64Abs => self.translate_f64_abs(),
            Operator::F64Neg => self.translate_f64_neg(),
            Operator::F64Ceil => self.translate_f64_ceil(),
            Operator::F64Floor => self.translate_f64_floor(),
            Operator::F64Trunc => self.translate_f64_trunc(),
            Operator::F64Nearest => self.translate_f64_nearest(),
            Operator::F64Sqrt => self.translate_f64_sqrt(),
            Operator::F64Add => self.translate_f64_add(),
            Operator::F64Sub => self.translate_f64_sub(),
            Operator::F64Mul => self.translate_f64_mul(),
            Operator::F64Div => self.translate_f64_div(),
            Operator::F64Min => self.translate_f64_min(),
            Operator::F64Max => self.translate_f64_max(),
            Operator::F64Copysign => self.translate_f64_copysign(),
            Operator::I32WrapI64 => self.translate_i32_wrap_i64(),
            Operator::I32TruncF32S => self.translate_i32_trunc_f32(),
            Operator::I32TruncF32U => self.translate_u32_trunc_f32(),
            Operator::I32TruncF64S => self.translate_i32_trunc_f64(),
            Operator::I32TruncF64U => self.translate_u32_trunc_f64(),
            Operator::I64ExtendI32S => self.translate_i64_extend_i32(),
            Operator::I64ExtendI32U => self.translate_u64_extend_i32(),
            Operator::I64TruncF32S => self.translate_i64_trunc_F3(),
            Operator::I64TruncF32U => self.translate_u64_trunc_F3(),
            Operator::I64TruncF64S => self.translate_i64_trunc_F6(),
            Operator::I64TruncF64U => self.translate_u64_trunc_F6(),
            Operator::F32ConvertI32S => self.translate_f32_convert_i32(),
            Operator::F32ConvertI32U => self.translate_f32_convert_u32(),
            Operator::F32ConvertI64S => self.translate_f32_convert_i64(),
            Operator::F32ConvertI64U => self.translate_f32_convert_u64(),
            Operator::F32DemoteF64 => self.translate_f32_demote_f64(),
            Operator::F64ConvertI32S => self.translate_f64_convert_i32(),
            Operator::F64ConvertI32U => self.translate_f64_convert_u32(),
            Operator::F64ConvertI64S => self.translate_f64_convert_i64(),
            Operator::F64ConvertI64U => self.translate_f64_convert_u64(),
            Operator::F64PromoteF32 => self.translate_f64_promote_f32(),
            Operator::I32ReinterpretF32 => self.translate_i32_reinterpret_f32(),
            Operator::I64ReinterpretF64 => self.translate_i64_reinterpret_f64(),
            Operator::F32ReinterpretI32 => self.translate_f32_reinterpret_i32(),
            Operator::F64ReinterpretI64 => self.translate_f64_reinterpret_i64(),
            Operator::I32Extend8S => self.translate_i32_extend8(),
            Operator::I32Extend16S => self.translate_i32_extend16(),
            Operator::I64Extend8S => self.translate_i64_extend8(),
            Operator::I64Extend16S => self.translate_i64_extend16(),
            Operator::I64Extend32S => self.translate_i64_extend32(),
            Operator::I32TruncSatF32S => self.translate_i32_trunc_sat_f32(),
            Operator::I32TruncSatF32U => self.translate_u32_trunc_sat_f32(),
            Operator::I32TruncSatF64S => self.translate_i32_trunc_sat_f64(),
            Operator::I32TruncSatF64U => self.translate_u32_trunc_sat_f64(),
            Operator::I64TruncSatF32S => self.translate_i64_trunc_sat_f32(),
            Operator::I64TruncSatF32U => self.translate_u64_trunc_sat_f32(),
            Operator::I64TruncSatF64S => self.translate_i64_trunc_sat_f64(),
            Operator::I64TruncSatF64U => self.translate_u64_trunc_sat_f64(),
        }
    }

    /// Finishes the translation and returns the code of the function.
    ///
    /// The translation can be finished once the `end` of the function body
    /// has been translated; before that, a label is still unbound and the
    /// result is [`ModuleError::UnresolvedLabel`]. In the code that is
    /// returned every branch knows its destination.
    pub fn finish(self) -> (res: Result<CompiledFunc, ModuleError>)
        requires
            self.wf(),
        ensures
            match res {
                Ok(body) => self@.compiled() == Ok::<_, ModuleError>(body@),
                Err(error) => self@.compiled() == Err::<CompiledView, _>(error),
            },
            res is Ok <==> self@.frames.len() == 0,
            res matches Err(error) ==> error == ModuleError::UnresolvedLabel,
            res matches Ok(body) ==> is_resolved(body@.insts),
    {
        proof {
            lemma_finished_code(self@);
        }
        let len_locals = self.len_locals;
        let max_stack_height = self.value_stack.max_height() - self.locals();
        match self.inst_builder.finish() {
            Ok(insts) => Ok(CompiledFunc { insts, len_locals, max_stack_height }),
            Err(error) => Err(error),
        }
    }

    /// Declares the groups of `locals` in order, each a number of locals
    /// and their type, and stops at the first group that fails.
    pub fn translate_all_locals(&mut self, locals: &Vec<(u32, ValueType)>) -> (res: Result<
        (),
        ModuleError,
    >)
        requires
            old(self).wf(),
        ensures
            final(self).wf(),
            (final(self)@, res) == old(self)@.declare_all(locals@),
    {
        let mut i: usize = 0;
        assert(locals@.take(0) =~= Seq::empty());
        while i < locals.len()
            invariant
                i <= locals.len(),
                self.wf(),
                old(self)@.declare_all(locals@.take(i as int)) == (
                    self@,
                    Ok::<(), ModuleError>(()),
                ),
            decreases locals.len() - i,
        {
            let group = locals[i];
            let declared = self.translate_locals(group.0, group.1);
            proof {
                lemma_declare_all_step(old(self)@, locals@, i as int);
            }
            match declared {
                Err(error) => {
                    proof {
                        lemma_declare_all_fails(old(self)@, locals@, i + 1);
                    }
                    return Err(error);
                },
                Ok(()) => {},
            }
            i += 1;
        }
        assert(locals@.take(i as int) =~= locals@);
        Ok(())
    }

    /// Translates `operators` in order and stops at the first one that
    /// fails.
    pub fn translate_operators(&mut self, operators: &Vec<Operator>) -> (res: Result<
        (),
        ModuleError,
    >)
        requires
            old(self).wf(),
        ensures
            final(self).wf(),
            (final(self)@, res) == old(self)@.apply_all(operators@),
    {
        let mut i: usize = 0;
        assert(operators@.take(0) =~= Seq::empty());
        while i < operators.len()
            invariant
                i <= operators.len(),
                self.wf(),
                old(self)@.apply_all(operators@.take(i as int)) == (
                    self@,
                    Ok::<(), ModuleError>(()),
                ),
            decreases operators.len() - i,
        {
            let translated = self.translate_operator(&operators[i]);
            proof {
                lemma_apply_all_step(old(self)@, operators@, i as int);
            }
            match translated {
                Err(error) => {
                    proof {
                        lemma_apply_all_fails(old(self)@, operators@, i + 1);
                    }
                    return Err(error);
                },
                Ok(()) => {},
            }
            assert(translated == Ok::<(), ModuleError>(())) by {
                let unit: () = translated.unwrap();
                assert(unit == ());
            }
            i += 1;
        }
        assert(operators@.take(i as int) =~= operators@);
        Ok(())
    }

    /// Translates a whole function: declares the groups of `locals` in order,
    /// translates `operators` in order and finishes. The first step that
    /// fails decides the error.
    pub fn translate(
        engine: &'engine Engine,
        func: FuncIdx,
        res: ModuleResources<'parser>,
        locals: &Vec<(u32, ValueType)>,
        operators: &Vec<Operator>,
    ) -> (compiled: Result<CompiledFunc, ModuleError>)
        requires
            res@.func_signature(func) is Some,
        ensures
            match compiled {
                Ok(body) => translation(engine.config(), res@, func, locals@, operators@) == Ok::<
                    _,
                    ModuleError,
                >(body@),
                Err(error) => translation(engine.config(), res@, func, locals@, operators@)
                    == Err::<CompiledView, _>(error),
            },
    {
        let mut builder = FunctionBuilder::new(engine, func, res);
        if let Err(error) = builder.translate_all_locals(locals) {
            return Err(error);
        }
        if let Err(error) = builder.translate_operators(operators) {
            return Err(error);
        }
        builder.finish()
    }
}

/// The code of one translated function with the sizes that the interpreter
/// needs to run it.
#[derive(Debug)]
pub struct CompiledFunc {
    insts: Vec<Instruction>,
    len_locals: usize,
    max_stack_height: usize,
}

impl View for CompiledFunc {
    type V = CompiledView;

    closed spec fn view(&self) -> CompiledView {
        CompiledView {
            insts: self.insts@,
            len_locals: self.len_locals as nat,
            max_stack_height: self.max_stack_height as nat,
        }
    }
}

impl CompiledFunc {
    /// Creates the code of a function from its parts. The interpreter checks
    /// what it runs, so code that no translation has made does no harm: it
    /// is refused where it goes wrong.
    pub fn new(insts: Vec<Instruction>, len_locals: usize, max_stack_height: usize) -> (body:
        CompiledFunc)
        ensures
            body@ == (CompiledView {
                insts: insts@,
                len_locals: len_locals as nat,
                max_stack_height: max_stack_height as nat,
            }),
    {
        CompiledFunc { insts, len_locals, max_stack_height }
    }

    /// Returns the instructions of the function.
    pub fn insts(&self) -> (insts: &Vec<Instruction>)
        ensures
            insts@ == self@.insts,
    {
        &self.insts
    }

    /// Returns the number of declared locals, parameters not counted.
    pub fn len_locals(&self) -> (len_locals: usize)
        ensures
            len_locals == self@.len_locals,
    {
        self.len_locals
    }

    /// Returns the greatest number of operands that are live at once above
    /// the parameters and locals.
    pub fn max_stack_height(&self) -> (max_stack_height: usize)
        ensures
            max_stack_height == self@.max_stack_height,
    {
        self.max_stack_height
    }

    /// Hands out the instructions.
    pub fn into_insts(self) -> (insts: Vec<Instruction>)
        ensures
            insts@ == self@.insts,
    {
        self.insts
    }
}

} // verus!
