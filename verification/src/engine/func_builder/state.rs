//! The state of a translation and the effect that each operator has on it.
//!
//! Everything here is ghost code: [`FunctionBuilder`](super::FunctionBuilder)
//! is the executable counterpart, and each of its methods is tied to one
//! function of this file.

use super::control_frame::ControlFrame;
use super::inst_builder::{BrTable, InstructionsView, LabelIdx, RelativeDepth, Reloc, Relocation};
use crate::engine::bytecode::{DropKeep, Instruction, InstructionIdx, Target};
use crate::engine::config::Config;
use crate::module::{
    BlockType, FuncIdx, FuncTypeIdx, GlobalIdx, MemoryIdx, ModuleError, ModuleView, Signature,
    TableIdx,
};
use crate::operator::Operator;
use crate::value::ValueType;
use vstd::prelude::*;

verus! {

/// The state of the translation of one function.
pub struct TranslatorState {
    /// The configuration of the engine that the function is translated for.
    pub config: Config,
    /// The declarations of the module.
    pub res: ModuleView,
    /// The function under construction.
    pub func: FuncIdx,
    /// The open control frames, outermost first.
    pub frames: Seq<ControlFrame>,
    /// The emulated value stack, bottom first: the types of the parameters, of
    /// the declared locals, and of the operands that are live.
    pub stack: Seq<ValueType>,
    /// The greatest height that the emulated value stack has had.
    pub max_height: nat,
    /// The instructions, labels and relocations so far.
    pub code: InstructionsView,
    /// The number of declared locals, parameters not counted.
    pub len_locals: nat,
    /// The operator that comes next can be reached.
    pub reachable: bool,
}

/// The result of a translation step: the state after it and whether it
/// succeeded. A step that fails leaves the state as it was.
pub type Step = (TranslatorState, Result<(), ModuleError>);

/// What a finished translation hands to the engine.
pub struct CompiledView {
    /// The instructions, every branch resolved.
    pub insts: Seq<Instruction>,
    /// The number of parameters and declared locals.
    pub len_locals: nat,
    /// The greatest number of operands that are live at once above the locals.
    pub max_stack_height: nat,
}

impl TranslatorState {
    /// The signature of the function under construction.
    pub open spec fn signature(self) -> Signature {
        self.res.func_signature(self.func).unwrap()
    }

    /// The number of local variables: the parameters and the declared locals.
    /// They are the bottom of the emulated stack.
    pub open spec fn locals(self) -> nat {
        self.signature().params.len() + self.len_locals
    }

    /// The height below which the operators of the innermost frame cannot
    /// pop: the locals for the function body, the frame's entry height for
    /// every other block.
    pub open spec fn floor(self) -> nat {
        if self.frames.len() <= 1 {
            self.locals()
        } else {
            self.frames.last().height() as nat
        }
    }

    /// The signature that the block of a frame was declared with.
    pub open spec fn frame_signature(self, frame: ControlFrame) -> Signature {
        self.res.block_signature(frame.block_type()).unwrap()
    }

    /// The frame that a branch of the given depth leaves for.
    pub open spec fn frame_at(self, depth: u32) -> ControlFrame {
        self.frames[self.frames.len() - 1 - depth]
    }

    /// The types of the values that a branch to the frame carries: the
    /// parameters of a loop, which the branch enters again, and the results of
    /// every other block, which the branch leaves.
    pub open spec fn branch_types(self, frame: ControlFrame) -> Seq<ValueType> {
        if frame.is_loop() {
            self.frame_signature(frame).params
        } else {
            self.frame_signature(frame).results
        }
    }

    /// Why the operands `inputs` cannot be taken from the stack, if they
    /// cannot. Unreachable code has every operand it asks for.
    pub open spec fn operands_error(self, inputs: Seq<ValueType>) -> Option<ModuleError> {
        if !self.reachable {
            None
        } else if self.stack.len() < self.floor() + inputs.len() {
            Some(ModuleError::StackUnderflow)
        } else if !(self.stack.skip(self.stack.len() - inputs.len()) =~= inputs) {
            Some(ModuleError::TypeMismatch)
        } else {
            None
        }
    }

    /// The stack after `inputs` many operands were popped and `outputs` pushed.
    /// Unreachable code pops what the frame holds and no more.
    pub open spec fn stack_after(self, inputs: nat, outputs: Seq<ValueType>) -> Seq<ValueType> {
        if self.stack.len() >= self.floor() + inputs {
            self.stack.take(self.stack.len() - inputs) + outputs
        } else {
            self.stack.take(self.floor() as int) + outputs
        }
    }

    /// The state with the given stack.
    pub open spec fn with_stack(self, stack: Seq<ValueType>) -> TranslatorState {
        TranslatorState {
            stack,
            max_height: if stack.len() > self.max_height {
                stack.len()
            } else {
                self.max_height
            },
            ..self
        }
    }

    /// The state with `inst` appended where the code is reachable; nothing is
    /// emitted for unreachable code.
    pub open spec fn emit(self, inst: Instruction) -> TranslatorState {
        if self.reachable {
            TranslatorState {
                code: InstructionsView { insts: self.code.insts.push(inst), ..self.code },
                ..self
            }
        } else {
            self
        }
    }

    /// There is room for `n` more instructions, or none will be emitted.
    pub open spec fn has_room(self, n: nat) -> bool {
        !self.reachable || self.code.insts.len() + n < usize::MAX
    }

    /// The state after an unconditional transfer of control: what follows is
    /// unreachable and starts with the operands of the frame gone.
    pub open spec fn diverge(self) -> TranslatorState {
        TranslatorState { stack: self.stack.take(self.floor() as int), reachable: false, ..self }
    }

    /// The step of an operator with the signature `inputs` to `outputs` that
    /// is translated to `inst`.
    pub open spec fn apply_effect(
        self,
        inputs: Seq<ValueType>,
        outputs: Seq<ValueType>,
        inst: Instruction,
    ) -> Step {
        if self.frames.len() == 0 {
            (self, Err(ModuleError::MissingControlFrame))
        } else if let Some(error) = self.operands_error(inputs) {
            (self, Err(error))
        } else if !self.has_room(1) {
            (self, Err(ModuleError::LimitExceeded))
        } else {
            (self.with_stack(self.stack_after(inputs.len(), outputs)).emit(inst), Ok(()))
        }
    }

    /// The type of the local variable at `local_idx`.
    pub open spec fn local_type(self, local_idx: u32) -> ValueType {
        self.stack[local_idx as int]
    }

    /// Why no operator can use the memory at `memory`, if none can.
    pub open spec fn memory_error(self, memory: MemoryIdx) -> Option<ModuleError> {
        if memory.0 < self.res.memories {
            None
        } else {
            Some(ModuleError::UnknownMemory)
        }
    }

    /// Why no operator can use the local variable at `local_idx`, if none can.
    pub open spec fn local_error(self, local_idx: u32) -> Option<ModuleError> {
        if local_idx < self.locals() {
            None
        } else {
            Some(ModuleError::UnknownLocal)
        }
    }

    /// The step of an operator with the given signature that is translated to
    /// `inst` and that is invalid here if `error` says so.
    pub open spec fn apply_checked(
        self,
        error: Option<ModuleError>,
        signature: Signature,
        inst: Instruction,
    ) -> Step {
        if self.frames.len() == 0 {
            (self, Err(ModuleError::MissingControlFrame))
        } else if let Some(error) = error {
            (self, Err(error))
        } else {
            self.apply_effect(signature.params, signature.results, inst)
        }
    }

    /// The step of `call`: the operands are the parameters of the callee and
    /// the results are its results.
    pub open spec fn apply_call(self, func: FuncIdx) -> Step {
        match self.res.func_signature(func) {
            Some(signature) => self.apply_checked(None, signature, Instruction::Call(func)),
            None => self.apply_checked(
                Some(ModuleError::UnknownFunc),
                Signature { params: seq![], results: seq![] },
                Instruction::Call(func),
            ),
        }
    }

    /// The step of `call_indirect`: the table index lies above the parameters
    /// of the expected type.
    pub open spec fn apply_call_indirect(self, ty: FuncTypeIdx, table: TableIdx) -> Step {
        if ty.0 >= self.res.types.len() {
            self.apply_checked(
                Some(ModuleError::UnknownType),
                Signature { params: seq![], results: seq![] },
                Instruction::CallIndirect(ty, table),
            )
        } else {
            self.apply_checked(
                if table.0 < self.res.tables {
                    None
                } else {
                    Some(ModuleError::UnknownTable)
                },
                Signature {
                    params: self.res.types[ty.0 as int].params.push(ValueType::I32),
                    results: self.res.types[ty.0 as int].results,
                },
                Instruction::CallIndirect(ty, table),
            )
        }
    }

    /// The step of `drop`, which pops a value of any type. Where unreachable
    /// code has no operand, the type is of no account.
    pub open spec fn apply_drop(self) -> Step {
        let ty = if self.stack.len() > self.floor() {
            self.stack.last()
        } else {
            ValueType::I32
        };
        self.apply_checked(
            None,
            Signature { params: seq![ty], results: seq![] },
            Instruction::Drop,
        )
    }

    /// The step of `select`, which takes two values of one type, whatever it
    /// is, below the condition. Where unreachable code has no operands, the
    /// type is of no account.
    pub open spec fn apply_select(self) -> Step {
        let ty = if self.stack.len() >= self.floor() + 3 {
            self.stack[self.stack.len() - 3]
        } else {
            ValueType::I32
        };
        self.apply_checked(
            None,
            Signature { params: seq![ty, ty, ValueType::I32], results: seq![ty] },
            Instruction::Select,
        )
    }

    /// The step of `local.get`. The instruction addresses the local by its
    /// distance from the top of the stack at the moment it reads it.
    pub open spec fn apply_local_get(self, local_idx: u32) -> Step {
        self.apply_checked(
            self.local_error(local_idx),
            Signature { params: seq![], results: seq![self.local_type(local_idx)] },
            Instruction::LocalGet((self.stack.len() - local_idx) as usize),
        )
    }

    /// The step of `local.set`. The instruction addresses the local by its
    /// distance from the top of the stack after the value was popped.
    pub open spec fn apply_local_set(self, local_idx: u32) -> Step {
        self.apply_checked(
            self.local_error(local_idx),
            Signature { params: seq![self.local_type(local_idx)], results: seq![] },
            Instruction::LocalSet((self.stack.len() - 1 - local_idx) as usize),
        )
    }

    /// The step of `local.tee`. The instruction addresses the local by its
    /// distance from the top of the stack, on which the value stays.
    pub open spec fn apply_local_tee(self, local_idx: u32) -> Step {
        self.apply_checked(
            self.local_error(local_idx),
            unary_signature(self.local_type(local_idx)),
            Instruction::LocalTee((self.stack.len() - local_idx) as usize),
        )
    }

    /// The step of `global.get`.
    pub open spec fn apply_global_get(self, idx: GlobalIdx) -> Step {
        if idx.0 < self.res.globals.len() {
            self.apply_checked(
                None,
                const_signature(self.res.globals[idx.0 as int].value_type),
                Instruction::GlobalGet(idx),
            )
        } else {
            self.apply_checked(
                Some(ModuleError::UnknownGlobal),
                Signature { params: seq![], results: seq![] },
                Instruction::GlobalGet(idx),
            )
        }
    }

    /// The step of `global.set`.
    pub open spec fn apply_global_set(self, idx: GlobalIdx) -> Step {
        if idx.0 < self.res.globals.len() {
            self.apply_checked(
                if self.res.globals[idx.0 as int].mutable {
                    None
                } else {
                    Some(ModuleError::ImmutableGlobal)
                },
                Signature {
                    params: seq![self.res.globals[idx.0 as int].value_type],
                    results: seq![],
                },
                Instruction::GlobalSet(idx),
            )
        } else {
            self.apply_checked(
                Some(ModuleError::UnknownGlobal),
                Signature { params: seq![], results: seq![] },
                Instruction::GlobalSet(idx),
            )
        }
    }

    /// The code after a branch to `label` was emitted: the branch carries the
    /// position of the label where the label is bound; where it is not, the
    /// branch carries the placeholder and `reloc` is recorded for it.
    pub open spec fn code_with_branch(
        self,
        label: LabelIdx,
        reloc: Reloc,
        drop_keep: DropKeep,
        kind: BranchKind,
    ) -> InstructionsView {
        if self.code.is_resolved(label) {
            InstructionsView {
                insts: self.code.insts.push(
                    kind.instruction(
                        Target { dst_pc: self.code.labels[label.0 as int].unwrap(), drop_keep },
                    ),
                ),
                ..self.code
            }
        } else {
            InstructionsView {
                insts: self.code.insts.push(
                    kind.instruction(Target { dst_pc: InstructionIdx::invalid(), drop_keep }),
                ),
                relocs: self.code.relocs.push(Relocation { label, reloc }),
                ..self.code
            }
        }
    }

    /// The state with a branch to `label` emitted where the code is
    /// reachable.
    pub open spec fn emit_branch(
        self,
        label: LabelIdx,
        reloc: Reloc,
        drop_keep: DropKeep,
        kind: BranchKind,
    ) -> TranslatorState {
        if self.reachable {
            TranslatorState { code: self.code_with_branch(label, reloc, drop_keep, kind), ..self }
        } else {
            self
        }
    }

    /// How a branch to `frame` reshapes a stack of the given height: it keeps
    /// the values the branch carries and drops what lies between them and the
    /// entry height of the frame.
    pub open spec fn branch_drop_keep(self, frame: ControlFrame, height: nat) -> DropKeep {
        let keep = self.branch_types(frame).len();
        DropKeep { drop: (height - frame.height() - keep) as usize, keep: keep as usize }
    }

    /// The state with the transfer to the frame at `depth` emitted, for a
    /// stack of the given height. A transfer to the function body is a return;
    /// every other one is a branch to the frame's label.
    pub open spec fn emit_transfer(
        self,
        depth: u32,
        height: nat,
        conditional: bool,
        reloc: Reloc,
    ) -> TranslatorState {
        let frame = self.frame_at(depth);
        let drop_keep = self.branch_drop_keep(frame, height);
        if depth + 1 == self.frames.len() {
            self.emit(
                if conditional {
                    Instruction::ReturnIfNez(drop_keep)
                } else {
                    Instruction::Return(drop_keep)
                },
            )
        } else {
            self.emit_branch(
                frame.branch_destination(),
                reloc,
                drop_keep,
                if conditional {
                    BranchKind::BrIfNez
                } else {
                    BranchKind::Br
                },
            )
        }
    }

    /// The step of `unreachable`.
    pub open spec fn apply_unreachable(self) -> Step {
        if self.frames.len() == 0 {
            (self, Err(ModuleError::MissingControlFrame))
        } else if !self.has_room(1) {
            (self, Err(ModuleError::LimitExceeded))
        } else {
            (self.emit(Instruction::Unreachable).diverge(), Ok(()))
        }
    }

    /// The state after a frame was opened whose parameters lie on top of
    /// `stack`, with `labels` as the new label table.
    pub open spec fn enter(
        self,
        stack: Seq<ValueType>,
        frame: ControlFrame,
        labels: Seq<Option<InstructionIdx>>,
    ) -> TranslatorState {
        TranslatorState {
            frames: self.frames.push(frame),
            code: InstructionsView { labels, ..self.code },
            ..self.with_stack(stack)
        }
    }

    /// The step of `block`: it opens a frame with a new, unbound end label.
    pub open spec fn apply_block(self, block_type: BlockType) -> Step {
        if self.frames.len() == 0 {
            (self, Err(ModuleError::MissingControlFrame))
        } else if self.res.block_signature(block_type) is None {
            (self, Err(ModuleError::UnknownType))
        } else {
            let params = self.res.block_signature(block_type).unwrap().params;
            if let Some(error) = self.operands_error(params) {
                (self, Err(error))
            } else {
                let stack = self.stack_after(params.len(), params);
                let frame = ControlFrame::Block {
                    end_label: LabelIdx(self.code.labels.len() as usize),
                    block_type,
                    height: (stack.len() - params.len()) as usize,
                    reachable: self.reachable,
                };
                (self.enter(stack, frame, self.code.labels.push(None)), Ok(()))
            }
        }
    }

    /// The step of `loop`: it opens a frame whose label is bound to the
    /// current position.
    pub open spec fn apply_loop(self, block_type: BlockType) -> Step {
        if self.frames.len() == 0 {
            (self, Err(ModuleError::MissingControlFrame))
        } else if self.res.block_signature(block_type) is None {
            (self, Err(ModuleError::UnknownType))
        } else {
            let params = self.res.block_signature(block_type).unwrap().params;
            if let Some(error) = self.operands_error(params) {
                (self, Err(error))
            } else {
                let stack = self.stack_after(params.len(), params);
                let frame = ControlFrame::Loop {
                    header: LabelIdx(self.code.labels.len() as usize),
                    block_type,
                    height: (stack.len() - params.len()) as usize,
                    reachable: self.reachable,
                };
                (
                    self.enter(
                        stack,
                        frame,
                        self.code.labels.push(Some(self.code.current_pc())),
                    ),
                    Ok(()),
                )
            }
        }
    }

    /// The step of `if`: it pops the condition, opens a frame with two new
    /// labels and emits the branch that skips the first arm when the
    /// condition is zero.
    pub open spec fn apply_if(self, block_type: BlockType) -> Step {
        if self.frames.len() == 0 {
            (self, Err(ModuleError::MissingControlFrame))
        } else if self.res.block_signature(block_type) is None {
            (self, Err(ModuleError::UnknownType))
        } else {
            let params = self.res.block_signature(block_type).unwrap().params;
            if let Some(error) = self.operands_error(params.push(ValueType::I32)) {
                (self, Err(error))
            } else if !self.has_room(1) {
                (self, Err(ModuleError::LimitExceeded))
            } else {
                let stack = self.stack_after(params.len() + 1, params);
                let else_label = LabelIdx(self.code.labels.len() as usize);
                let end_label = LabelIdx((self.code.labels.len() + 1) as usize);
                let frame = ControlFrame::If {
                    else_label,
                    end_label,
                    block_type,
                    height: (stack.len() - params.len()) as usize,
                    reachable: self.reachable,
                };
                (
                    self.enter(stack, frame, self.code.labels.push(None).push(None)).emit_branch(
                        else_label,
                        Reloc::Br { inst_idx: self.code.current_pc() },
                        DropKeep { drop: 0, keep: 0 },
                        BranchKind::BrIfEqz,
                    ),
                    Ok(()),
                )
            }
        }
    }

    /// Why a block cannot end here with the given results on top of `base`
    /// values, if it cannot. Unreachable code can always end.
    pub open spec fn end_error(self, base: nat, results: Seq<ValueType>) -> Option<ModuleError> {
        if !self.reachable {
            None
        } else if self.stack.len() != base + results.len() {
            Some(ModuleError::StackHeightMismatch)
        } else if !(self.stack.skip(base as int) =~= results) {
            Some(ModuleError::TypeMismatch)
        } else {
            None
        }
    }

    /// The step of `else`: it ends the first arm of the innermost `if` with a
    /// branch to the end, binds the else label behind that branch and starts
    /// the second arm with the block's parameters on the stack.
    pub open spec fn apply_else(self) -> Step {
        if self.frames.len() == 0 {
            (self, Err(ModuleError::MissingControlFrame))
        } else {
            match self.frames.last() {
                ControlFrame::If { else_label, end_label, block_type, height, reachable } => {
                    let signature = self.frame_signature(self.frames.last());
                    if let Some(error) = self.end_error(height as nat, signature.results) {
                        (self, Err(error))
                    } else if !self.has_room(1) {
                        (self, Err(ModuleError::LimitExceeded))
                    } else {
                        let jumped = self.emit_branch(
                            end_label,
                            Reloc::Br { inst_idx: self.code.current_pc() },
                            DropKeep { drop: 0, keep: 0 },
                            BranchKind::Br,
                        );
                        (
                            TranslatorState {
                                frames: self.frames.update(
                                    self.frames.len() - 1,
                                    ControlFrame::Else { end_label, block_type, height, reachable },
                                ),
                                code: InstructionsView {
                                    labels: jumped.code.labels.update(
                                        else_label.0 as int,
                                        Some(jumped.code.current_pc()),
                                    ),
                                    ..jumped.code
                                },
                                reachable,
                                ..jumped.with_stack(
                                    self.stack.take(height as int) + signature.params,
                                )
                            },
                            Ok(()),
                        )
                    }
                },
                _ => (self, Err(ModuleError::MisplacedElse)),
            }
        }
    }

    /// The label table after the labels that `frame` was waiting for were
    /// bound to the current position.
    pub open spec fn labels_after_end(self, frame: ControlFrame) -> Seq<Option<InstructionIdx>> {
        let pc = Some(self.code.current_pc());
        match frame {
            ControlFrame::Block { end_label, .. } => self.code.labels.update(
                end_label.0 as int,
                pc,
            ),
            ControlFrame::Loop { .. } => self.code.labels,
            ControlFrame::If { else_label, end_label, .. } => self.code.labels.update(
                else_label.0 as int,
                pc,
            ).update(end_label.0 as int, pc),
            ControlFrame::Else { end_label, .. } => self.code.labels.update(
                end_label.0 as int,
                pc,
            ),
        }
    }

    /// The step of `end`: it binds the labels of the innermost frame and
    /// closes it, leaving the frame's results on the stack above the floor.
    /// The `end` of the function body also emits the final return.
    pub open spec fn apply_end(self) -> Step {
        if self.frames.len() == 0 {
            (self, Err(ModuleError::MissingControlFrame))
        } else {
            let frame = self.frames.last();
            let results = self.frame_signature(frame).results;
            let is_body = self.frames.len() == 1;
            if let Some(error) = self.end_error(self.floor(), results) {
                (self, Err(error))
            } else if is_body && !self.has_room(1) {
                (self, Err(ModuleError::LimitExceeded))
            } else {
                let bound = TranslatorState {
                    code: InstructionsView { labels: self.labels_after_end(frame), ..self.code },
                    ..self
                };
                let returned = if is_body {
                    bound.emit(
                        Instruction::Return(
                            DropKeep {
                                drop: (self.stack.len() - results.len()) as usize,
                                keep: results.len() as usize,
                            },
                        ),
                    )
                } else {
                    bound
                };
                (
                    TranslatorState {
                        frames: self.frames.drop_last(),
                        reachable: frame.is_reachable(),
                        ..returned.with_stack(self.stack.take(self.floor() as int) + results)
                    },
                    Ok(()),
                )
            }
        }
    }

    /// The step of `br`.
    pub open spec fn apply_br(self, depth: u32) -> Step {
        if self.frames.len() == 0 {
            (self, Err(ModuleError::MissingControlFrame))
        } else if depth >= self.frames.len() {
            (self, Err(ModuleError::InvalidBranchDepth))
        } else if let Some(error) = self.operands_error(
            self.branch_types(self.frame_at(depth)),
        ) {
            (self, Err(error))
        } else if !self.has_room(1) {
            (self, Err(ModuleError::LimitExceeded))
        } else {
            (
                self.emit_transfer(
                    depth,
                    self.stack.len(),
                    false,
                    Reloc::Br { inst_idx: self.code.current_pc() },
                ).diverge(),
                Ok(()),
            )
        }
    }

    /// The step of `br_if`: the condition is popped before the branch
    /// reshapes the stack, and the values the branch carries stay where they
    /// are if it is not taken.
    pub open spec fn apply_br_if(self, depth: u32) -> Step {
        if self.frames.len() == 0 {
            (self, Err(ModuleError::MissingControlFrame))
        } else if depth >= self.frames.len() {
            (self, Err(ModuleError::InvalidBranchDepth))
        } else {
            let types = self.branch_types(self.frame_at(depth));
            if let Some(error) = self.operands_error(types.push(ValueType::I32)) {
                (self, Err(error))
            } else if !self.has_room(1) {
                (self, Err(ModuleError::LimitExceeded))
            } else {
                (
                    self.emit_transfer(
                        depth,
                        (self.stack.len() - 1) as nat,
                        true,
                        Reloc::Br { inst_idx: self.code.current_pc() },
                    ).with_stack(self.stack_after(types.len() + 1, types)),
                    Ok(()),
                )
            }
        }
    }

    /// Why the targets `depths` of a `br_table` cannot be translated, if they
    /// cannot: the first target, in the order of the table, that names no
    /// frame or whose values are not on the stack below the index decides.
    pub open spec fn table_error(self, depths: Seq<RelativeDepth>) -> Option<ModuleError>
        decreases depths.len(),
    {
        if depths.len() == 0 {
            None
        } else if depths.first().0 >= self.frames.len() {
            Some(ModuleError::InvalidBranchDepth)
        } else if let Some(error) = self.operands_error(
            self.branch_types(self.frame_at(depths.first().0)).push(ValueType::I32),
        ) {
            Some(error)
        } else {
            self.table_error(depths.skip(1))
        }
    }

    /// The state with the first `n` entries of a `br_table` emitted whose
    /// instruction stands at `table_pc`.
    pub open spec fn emit_entries(
        self,
        depths: Seq<RelativeDepth>,
        table_pc: InstructionIdx,
        height: nat,
        n: nat,
    ) -> TranslatorState
        decreases n,
    {
        if n == 0 {
            self
        } else {
            self.emit_entries(depths, table_pc, height, (n - 1) as nat).emit_transfer(
                depths[n - 1].0,
                height,
                false,
                Reloc::BrTable { inst_idx: table_pc, target_idx: (n - 1) as usize },
            )
        }
    }

    /// The step of `br_table`: the index is popped, and the instruction is
    /// followed by one entry for each target and one for the default.
    pub open spec fn apply_br_table(self, table: BrTable) -> Step {
        let depths = table.depths();
        if self.frames.len() == 0 {
            (self, Err(ModuleError::MissingControlFrame))
        } else if let Some(error) = self.table_error(depths) {
            (self, Err(error))
        } else if !self.has_room(depths.len() + 1) {
            (self, Err(ModuleError::LimitExceeded))
        } else {
            (
                self.emit(Instruction::BrTable(depths.len() as usize)).emit_entries(
                    depths,
                    self.code.current_pc(),
                    (self.stack.len() - 1) as nat,
                    depths.len(),
                ).diverge(),
                Ok(()),
            )
        }
    }

    /// The step of `return`: a branch to the function body.
    pub open spec fn apply_return(self) -> Step {
        if self.frames.len() == 0 {
            (self, Err(ModuleError::MissingControlFrame))
        } else if let Some(error) = self.operands_error(self.branch_types(self.frames.first())) {
            (self, Err(error))
        } else if !self.has_room(1) {
            (self, Err(ModuleError::LimitExceeded))
        } else {
            (
                self.emit(
                    Instruction::Return(
                        self.branch_drop_keep(self.frames.first(), self.stack.len()),
                    ),
                ).diverge(),
                Ok(()),
            )
        }
    }

    /// The step of any operator.
    ///
    /// The definition is a table with one line for each operator. It is kept
    /// opaque so that a proof about a sequence of operators does not have to
    /// look at the table.
    #[verifier::opaque]
    pub open spec fn apply(self, op: Operator) -> Step {
        match op {
            Operator::Unreachable => self.apply_unreachable(),
            Operator::Block(block_type) => self.apply_block(block_type),
            Operator::Loop(block_type) => self.apply_loop(block_type),
            Operator::If(block_type) => self.apply_if(block_type),
            Operator::Else => self.apply_else(),
            Operator::End => self.apply_end(),
            Operator::Br(depth) => self.apply_br(depth),
            Operator::BrIf(depth) => self.apply_br_if(depth),
            Operator::BrTable(table) => self.apply_br_table(table),
            Operator::Return => self.apply_return(),
            Operator::Call(func) => self.apply_call(func),
            Operator::CallIndirect(ty, table) => self.apply_call_indirect(ty, table),
            Operator::Drop => self.apply_drop(),
            Operator::Select => self.apply_select(),
            Operator::LocalGet(local_idx) => self.apply_local_get(local_idx),
            Operator::LocalSet(local_idx) => self.apply_local_set(local_idx),
            Operator::LocalTee(local_idx) => self.apply_local_tee(local_idx),
            Operator::GlobalGet(idx) => self.apply_global_get(idx),
            Operator::GlobalSet(idx) => self.apply_global_set(idx),
            Operator::I32Load(memory, offset) => self.apply_checked(
                self.memory_error(memory),
                load_signature(ValueType::I32),
                Instruction::I32Load(offset),
            ),
            Operator::I64Load(memory, offset) => self.apply_checked(
                self.memory_error(memory),
                load_signature(ValueType::I64),
                Instruction::I64Load(offset),
            ),
            Operator::F32Load(memory, offset) => self.apply_checked(
                self.memory_error(memory),
                load_signature(ValueType::F32),
                Instruction::F32Load(offset),
            ),
            Operator::F64Load(memory, offset) => self.apply_checked(
                self.memory_error(memory),
                load_signature(ValueType::F64),
                Instruction::F64Load(offset),
            ),
            Operator::I32Load8S(memory, offset) => self.apply_checked(
                self.memory_error(memory),
                load_signature(ValueType::I32),
                Instruction::I32Load8S(offset),
            ),
            Operator::I32Load8U(memory, offset) => self.apply_checked(
                self.memory_error(memory),
                load_signature(ValueType::I32),
                Instruction::I32Load8U(offset),
            ),
            Operator::I32Load16S(memory, offset) => self.apply_checked(
                self.memory_error(memory),
                load_signature(ValueType::I32),
                Instruction::I32Load16S(offset),
            ),
            Operator::I32Load16U(memory, offset) => self.apply_checked(
                self.memory_error(memory),
                load_signature(ValueType::I32),
                Instruction::I32Load16U(offset),
            ),
            Operator::I64Load8S(memory, offset) => self.apply_checked(
                self.memory_error(memory),
                load_signature(ValueType::I64),
                Instruction::I64Load8S(offset),
            ),
            Operator::I64Load8U(memory, offset) => self.apply_checked(
                self.memory_error(memory),
                load_signature(ValueType::I64),
                Instruction::I64Load8U(offset),
            ),
            Operator::I64Load16S(memory, offset) => self.apply_checked(
                self.memory_error(memory),
                load_signature(ValueType::I64),
                Instruction::I64Load16S(offset),
            ),
            Operator::I64Load16U(memory, offset) => self.apply_checked(
                self.memory_error(memory),
                load_signature(ValueType::I64),
                Instruction::I64Load16U(offset),
            ),
            Operator::I64Load32S(memory, offset) => self.apply_checked(
                self.memory_error(memory),
                load_signature(ValueType::I64),
                Instruction::I64Load32S(offset),
            ),
            Operator::I64Load32U(memory, offset) => self.apply_checked(
                self.memory_error(memory),
                load_signature(ValueType::I64),
                Instruction::I64Load32U(offset),
            ),
            Operator::I32Store(memory, offset) => self.apply_checked(
                self.memory_error(memory),
                store_signature(ValueType::I32),
                Instruction::I32Store(offset),
            ),
            Operator::I64Store(memory, offset) => self.apply_checked(
                self.memory_error(memory),
                store_signature(ValueType::I64),
                Instruction::I64Store(offset),
            ),
            Operator::F32Store(memory, offset) => self.apply_checked(
                self.memory_error(memory),
                store_signature(ValueType::F32),
                Instruction::F32Store(offset),
            ),
            Operator::F64Store(memory, offset) => self.apply_checked(
                self.memory_error(memory),
                store_signature(ValueType::F64),
                Instruction::F64Store(offset),
            ),
            Operator::I32Store8(memory, offset) => self.apply_checked(
                self.memory_error(memory),
                store_signature(ValueType::I32),
                Instruction::I32Store8(offset),
            ),
            Operator::I32Store16(memory, offset) => self.apply_checked(
                self.memory_error(memory),
                store_signature(ValueType::I32),
                Instruction::I32Store16(offset),
            ),
            Operator::I64Store8(memory, offset) => self.apply_checked(
                self.memory_error(memory),
                store_signature(ValueType::I64),
                Instruction::I64Store8(offset),
            ),
            Operator::I64Store16(memory, offset) => self.apply_checked(
                self.memory_error(memory),
                store_signature(ValueType::I64),
                Instruction::I64Store16(offset),
            ),
            Operator::I64Store32(memory, offset) => self.apply_checked(
                self.memory_error(memory),
                store_signature(ValueType::I64),
                Instruction::I64Store32(offset),
            ),
            Operator::MemorySize(memory) => self.apply_checked(
                self.memory_error(memory),
                const_signature(ValueType::I32),
                Instruction::MemorySize,
            ),
            Operator::MemoryGrow(memory) => self.apply_checked(
                self.memory_error(memory),
                unary_signature(ValueType::I32),
                Instruction::MemoryGrow,
            ),
            Operator::I32Const(value) => self.apply_checked(
                None,
                const_signature(ValueType::I32),
                Instruction::I32Const(value),
            ),
            Operator::I64Const(value) => self.apply_checked(
                None,
                const_signature(ValueType::I64),
                Instruction::I64Const(value),
            ),
            Operator::F32Const(value) => self.apply_checked(
                None,
                const_signature(ValueType::F32),
                Instruction::F32Const(value),
            ),
            Operator::F64Const(value) => self.apply_checked(
                None,
                const_signature(ValueType::F64),
                Instruction::F64Const(value),
            ),
            Operator::I32Eqz => self.apply_checked(
                None,
                convert_signature(ValueType::I32, ValueType::I32),
                Instruction::I32Eqz,
            ),
            Operator::I32Eq => self.apply_checked(
                None,
                compare_signature(ValueType::I32),
                Instruction::I32Eq,
            ),
            Operator::I32Ne => self.apply_checked(
                None,
                compare_signature(ValueType::I32),
                Instruction::I32Ne,
            ),
            Operator::I32LtS => self.apply_checked(
                None,
                compare_signature(ValueType::I32),
                Instruction::I32LtS,
            ),
            Operator::I32LtU => self.apply_checked(
                None,
                compare_signature(ValueType::I32),
                Instruction::I32LtU,
            ),
            Operator::I32GtS => self.apply_checked(
                None,
                compare_signature(ValueType::I32),
                Instruction::I32GtS,
            ),
            Operator::I32GtU => self.apply_checked(
                None,
                compare_signature(ValueType::I32),
                Instruction::I32GtU,
            ),
            Operator::I32LeS => self.apply_checked(
                None,
                compare_signature(ValueType::I32),
                Instruction::I32LeS,
            ),
            Operator::I32LeU => self.apply_checked(
                None,
                compare_signature(ValueType::I32),
                Instruction::I32LeU,
            ),
            Operator::I32GeS => self.apply_checked(
                None,
                compare_signature(ValueType::I32),
                Instruction::I32GeS,
            ),
            Operator::I32GeU => self.apply_checked(
                None,
                compare_signature(ValueType::I32),
                Instruction::I32GeU,
            ),
            Operator::I64Eqz => self.apply_checked(
                None,
                convert_signature(ValueType::I64, ValueType::I32),
                Instruction::I64Eqz,
            ),
            Operator::I64Eq => self.apply_checked(
                None,
                compare_signature(ValueType::I64),
                Instruction::I64Eq,
            ),
            Operator::I64Ne => self.apply_checked(
                None,
                compare_signature(ValueType::I64),
                Instruction::I64Ne,
            ),
            Operator::I64LtS => self.apply_checked(
                None,
                compare_signature(ValueType::I64),
                Instruction::I64LtS,
            ),
            Operator::I64LtU => self.apply_checked(
                None,
                compare_signature(ValueType::I64),
                Instruction::I64LtU,
            ),
            Operator::I64GtS => self.apply_checked(
                None,
                compare_signature(ValueType::I64),
                Instruction::I64GtS,
            ),
            Operator::I64GtU => self.apply_checked(
                None,
                compare_signature(ValueType::I64),
                Instruction::I64GtU,
            ),
            Operator::I64LeS => self.apply_checked(
                None,
                compare_signature(ValueType::I64),
                Instruction::I64LeS,
            ),
            Operator::I64LeU => self.apply_checked(
                None,
                compare_signature(ValueType::I64),
                Instruction::I64LeU,
            ),
            Operator::I64GeS => self.apply_checked(
                None,
                compare_signature(ValueType::I64),
                Instruction::I64GeS,
            ),
            Operator::I64GeU => self.apply_checked(
                None,
                compare_signature(ValueType::I64),
                Instruction::I64GeU,
            ),
            Operator::F32Eq => self.apply_checked(
                None,
                compare_signature(ValueType::F32),
                Instruction::F32Eq,
            ),
            Operator::F32Ne => self.apply_checked(
                None,
                compare_signature(ValueType::F32),
                Instruction::F32Ne,
            ),
            Operator::F32Lt => self.apply_checked(
                None,
                compare_signature(ValueType::F32),
                Instruction::F32Lt,
            ),
            Operator::F32Gt => self.apply_checked(
                None,
                compare_signature(ValueType::F32),
                Instruction::F32Gt,
            ),
            Operator::F32Le => self.apply_checked(
                None,
                compare_signature(ValueType::F32),
                Instruction::F32Le,
            ),
            Operator::F32Ge => self.apply_checked(
                None,
                compare_signature(ValueType::F32),
                Instruction::F32Ge,
            ),
            Operator::F64Eq => self.apply_checked(
                None,
                compare_signature(ValueType::F64),
                Instruction::F64Eq,
            ),
            Operator::F64Ne => self.apply_checked(
                None,
                compare_signature(ValueType::F64),
                Instruction::F64Ne,
            ),
            Operator::F64Lt => self.apply_checked(
                None,
                compare_signature(ValueType::F64),
                Instruction::F64Lt,
            ),
            Operator::F64Gt => self.apply_checked(
                None,
                compare_signature(ValueType::F64),
                Instruction::F64Gt,
            ),
            Operator::F64Le => self.apply_checked(
                None,
                compare_signature(ValueType::F64),
                Instruction::F64Le,
            ),
            Operator::F64Ge => self.apply_checked(
                None,
                compare_signature(ValueType::F64),
                Instruction::F64Ge,
            ),
            Operator::I32Clz => self.apply_checked(
                None,
                unary_signature(ValueType::I32),
                Instruction::I32Clz,
            ),
            Operator::I32Ctz => self.apply_checked(
                None,
                unary_signature(ValueType::I32),
                Instruction::I32Ctz,
            ),
            Operator::I32Popcnt => self.apply_checked(
                None,
                unary_signature(ValueType::I32),
                Instruction::I32Popcnt,
            ),
            Operator::I32Add => self.apply_checked(
                None,
                binary_signature(ValueType::I32),
                Instruction::I32Add,
            ),
            Operator::I32Sub => self.apply_checked(
                None,
                binary_signature(ValueType::I32),
                Instruction::I32Sub,
            ),
            Operator::I32Mul => self.apply_checked(
                None,
                binary_signature(ValueType::I32),
                Instruction::I32Mul,
            ),
            Operator::I32DivS => self.apply_checked(
                None,
                binary_signature(ValueType::I32),
                Instruction::I32DivS,
            ),
            Operator::I32DivU => self.apply_checked(
                None,
                binary_signature(ValueType::I32),
                Instruction::I32DivU,
            ),
            Operator::I32RemS => self.apply_checked(
                None,
                binary_signature(ValueType::I32),
                Instruction::I32RemS,
            ),
            Operator::I32RemU => self.apply_checked(
                None,
                binary_signature(ValueType::I32),
                Instruction::I32RemU,
            ),
            Operator::I32And => self.apply_checked(
                None,
                binary_signature(ValueType::I32),
                Instruction::I32And,
            ),
            Operator::I32Or => self.apply_checked(
                None,
                binary_signature(ValueType::I32),
                Instruction::I32Or,
            ),
            Operator::I32Xor => self.apply_checked(
                None,
                binary_signature(ValueType::I32),
                Instruction::I32Xor,
            ),
            Operator::I32Shl => self.apply_checked(
                None,
                binary_signature(ValueType::I32),
                Instruction::I32Shl,
            ),
            Operator::I32ShrS => self.apply_checked(
                None,
                binary_signature(ValueType::I32),
                Instruction::I32ShrS,
            ),
            Operator::I32ShrU => self.apply_checked(
                None,
                binary_signature(ValueType::I32),
                Instruction::I32ShrU,
            ),
            Operator::I32Rotl => self.apply_checked(
                None,
                binary_signature(ValueType::I32),
                Instruction::I32Rotl,
            ),
            Operator::I32Rotr => self.apply_checked(
                None,
                binary_signature(ValueType::I32),
                Instruction::I32Rotr,
            ),
            Operator::I64Clz => self.apply_checked(
                None,
                unary_signature(ValueType::I64),
                Instruction::I64Clz,
            ),
            Operator::I64Ctz => self.apply_checked(
                None,
                unary_signature(ValueType::I64),
                Instruction::I64Ctz,
            ),
            Operator::I64Popcnt => self.apply_checked(
                None,
                unary_signature(ValueType::I64),
                Instruction::I64Popcnt,
            ),
            Operator::I64Add => self.apply_checked(
                None,
                binary_signature(ValueType::I64),
                Instruction::I64Add,
            ),
            Operator::I64Sub => self.apply_checked(
                None,
                binary_signature(ValueType::I64),
                Instruction::I64Sub,
            ),
            Operator::I64Mul => self.apply_checked(
                None,
                binary_signature(ValueType::I64),
                Instruction::I64Mul,
            ),
            Operator::I64DivS => self.apply_checked(
                None,
                binary_signature(ValueType::I64),
                Instruction::I64DivS,
            ),
            Operator::I64DivU => self.apply_checked(
                None,
                binary_signature(ValueType::I64),
                Instruction::I64DivU,
            ),
            Operator::I64RemS => self.apply_checked(
                None,
                binary_signature(ValueType::I64),
                Instruction::I64RemS,
            ),
            Operator::I64RemU => self.apply_checked(
                None,
                binary_signature(ValueType::I64),
                Instruction::I64RemU,
            ),
            Operator::I64And => self.apply_checked(
                None,
                binary_signature(ValueType::I64),
                Instruction::I64And,
            ),
            Operator::I64Or => self.apply_checked(
                None,
                binary_signature(ValueType::I64),
                Instruction::I64Or,
            ),
            Operator::I64Xor => self.apply_checked(
                None,
                binary_signature(ValueType::I64),
                Instruction::I64Xor,
            ),
            Operator::I64Shl => self.apply_checked(
                None,
                binary_signature(ValueType::I64),
                Instruction::I64Shl,
            ),
            Operator::I64ShrS => self.apply_checked(
                None,
                binary_signature(ValueType::I64),
                Instruction::I64ShrS,
            ),
            Operator::I64ShrU => self.apply_checked(
                None,
                binary_signature(ValueType::I64),
                Instruction::I64ShrU,
            ),
            Operator::I64Rotl => self.apply_checked(
                None,
                binary_signature(ValueType::I64),
                Instruction::I64Rotl,
            ),
            Operator::I64Rotr => self.apply_checked(
                None,
                binary_signature(ValueType::I64),
                Instruction::I64Rotr,
            ),
            Operator::F32Abs => self.apply_checked(
                None,
                unary_signature(ValueType::F32),
                Instruction::F32Abs,
            ),
            Operator::F32Neg => self.apply_checked(
                None,
                unary_signature(ValueType::F32),
                Instruction::F32Neg,
            ),
            Operator::F32Ceil => self.apply_checked(
                None,
                unary_signature(ValueType::F32),
                Instruction::F32Ceil,
            ),
            Operator::F32Floor => self.apply_checked(
                None,
                unary_signature(ValueType::F32),
                Instruction::F32Floor,
            ),
            Operator::F32Trunc => self.apply_checked(
                None,
                unary_signature(ValueType::F32),
                Instruction::F32Trunc,
            ),
            Operator::F32Nearest => self.apply_checked(
                None,
                unary_signature(ValueType::F32),
                Instruction::F32Nearest,
            ),
            Operator::F32Sqrt => self.apply_checked(
                None,
                unary_signature(ValueType::F32),
                Instruction::F32Sqrt,
            ),
            Operator::F32Add => self.apply_checked(
                None,
                binary_signature(ValueType::F32),
                Instruction::F32Add,
            ),
            Operator::F32Sub => self.apply_checked(
                None,
                binary_signature(ValueType::F32),
                Instruction::F32Sub,
            ),
            Operator::F32Mul => self.apply_checked(
                None,
                binary_signature(ValueType::F32),
                Instruction::F32Mul,
            ),
            Operator::F32Div => self.apply_checked(
                None,
                binary_signature(ValueType::F32),
                Instruction::F32Div,
            ),
            Operator::F32Min => self.apply_checked(
                None,
                binary_signature(ValueType::F32),
                Instruction::F32Min,
            ),
            Operator::F32Max => self.apply_checked(
                None,
                binary_signature(ValueType::F32),
                Instruction::F32Max,
            ),
            Operator::F32Copysign => self.apply_checked(
                None,
                binary_signature(ValueType::F32),
                Instruction::F32Copysign,
            ),
            Operator::F64Abs => self.apply_checked(
                None,
                unary_signature(ValueType::F64),
                Instruction::F64Abs,
            ),
            Operator::F64Neg => self.apply_checked(
                None,
                unary_signature(ValueType::F64),
                Instruction::F64Neg,
            ),
            Operator::F64Ceil => self.apply_checked(
                None,
                unary_signature(ValueType::F64),
                Instruction::F64Ceil,
            ),
            Operator::F64Floor => self.apply_checked(
                None,
                unary_signature(ValueType::F64),
                Instruction::F64Floor,
            ),
            Operator::F64Trunc => self.apply_checked(
                None,
                unary_signature(ValueType::F64),
                Instruction::F64Trunc,
            ),
            Operator::F64Nearest => self.apply_checked(
                None,
                unary_signature(ValueType::F64),
                Instruction::F64Nearest,
            ),
            Operator::F64Sqrt => self.apply_checked(
                None,
                unary_signature(ValueType::F64),
                Instruction::F64Sqrt,
            ),
            Operator::F64Add => self.apply_checked(
                None,
                binary_signature(ValueType::F64),
                Instruction::F64Add,
            ),
            Operator::F64Sub => self.apply_checked(
                None,
                binary_signature(ValueType::F64),
                Instruction::F64Sub,
            ),
            Operator::F64Mul => self.apply_checked(
                None,
                binary_signature(ValueType::F64),
                Instruction::F64Mul,
            ),
            Operator::F64Div => self.apply_checked(
                None,
                binary_signature(ValueType::F64),
                Instruction::F64Div,
            ),
            Operator::F64Min => self.apply_checked(
                None,
                binary_signature(ValueType::F64),
                Instruction::F64Min,
            ),
            Operator::F64Max => self.apply_checked(
                None,
                binary_signature(ValueType::F64),
                Instruction::F64Max,
            ),
            Operator::F64Copysign => self.apply_checked(
                None,
                binary_signature(ValueType::F64),
                Instruction::F64Copysign,
            ),
            Operator::I32WrapI64 => self.apply_checked(
                None,
                convert_signature(ValueType::I64, ValueType::I32),
                Instruction::I32WrapI64,
            ),
            Operator::I32TruncF32S => self.apply_checked(
                None,
                convert_signature(ValueType::F32, ValueType::I32),
                Instruction::I32TruncF32S,
            ),
            Operator::I32TruncF32U => self.apply_checked(
                None,
                convert_signature(ValueType::F32, ValueType::I32),
                Instruction::I32TruncF32U,
            ),
            Operator::I32TruncF64S => self.apply_checked(
                None,
                convert_signature(ValueType::F64, ValueType::I32),
                Instruction::I32TruncF64S,
            ),
            Operator::I32TruncF64U => self.apply_checked(
                None,
                convert_signature(ValueType::F64, ValueType::I32),
                Instruction::I32TruncF64U,
            ),
            Operator::I64ExtendI32S => self.apply_checked(
                None,
                convert_signature(ValueType::I32, ValueType::I64),
                Instruction::I64ExtendI32S,
            ),
            Operator::I64ExtendI32U => self.apply_checked(
                None,
                convert_signature(ValueType::I32, ValueType::I64),
                Instruction::I64ExtendI32U,
            ),
            Operator::I64TruncF32S => self.apply_checked(
                None,
                convert_signature(ValueType::F32, ValueType::I64),
                Instruction::I64TruncF32S,
            ),
            Operator::I64TruncF32U => self.apply_checked(
                None,
                convert_signature(ValueType::F32, ValueType::I64),
                Instruction::I64TruncF32U,
            ),
            Operator::I64TruncF64S => self.apply_checked(
                None,
                convert_signature(ValueType::F64, ValueType::I64),
                Instruction::I64TruncF64S,
            ),
            Operator::I64TruncF64U => self.apply_checked(
                None,
                convert_signature(ValueType::F64, ValueType::I64),
                Instruction::I64TruncF64U,
            ),
            Operator::F32ConvertI32S => self.apply_checked(
                None,
                convert_signature(ValueType::I32, ValueType::F32),
                Instruction::F32ConvertI32S,
            ),
            Operator::F32ConvertI32U => self.apply_checked(
                None,
                convert_signature(ValueType::I32, ValueType::F32),
                Instruction::F32ConvertI32U,
            ),
            Operator::F32ConvertI64S => self.apply_checked(
                None,
                convert_signature(ValueType::I64, ValueType::F32),
                Instruction::F32ConvertI64S,
            ),
            Operator::F32ConvertI64U => self.apply_checked(
                None,
                convert_signature(ValueType::I64, ValueType::F32),
                Instruction::F32ConvertI64U,
            ),
            Operator::F32DemoteF64 => self.apply_checked(
                None,
                convert_signature(ValueType::F64, ValueType::F32),
                Instruction::F32DemoteF64,
            ),
            Operator::F64ConvertI32S => self.apply_checked(
                None,
                convert_signature(ValueType::I32, ValueType::F64),
                Instruction::F64ConvertI32S,
            ),
            Operator::F64ConvertI32U => self.apply_checked(
                None,
                convert_signature(ValueType::I32, ValueType::F64),
                Instruction::F64ConvertI32U,
            ),
            Operator::F64ConvertI64S => self.apply_checked(
                None,
                convert_signature(ValueType::I64, ValueType::F64),
                Instruction::F64ConvertI64S,
            ),
            Operator::F64ConvertI64U => self.apply_checked(
                None,
                convert_signature(ValueType::I64, ValueType::F64),
                Instruction::F64ConvertI64U,
            ),
            Operator::F64PromoteF32 => self.apply_checked(
                None,
                convert_signature(ValueType::F32, ValueType::F64),
                Instruction::F64PromoteF32,
            ),
            Operator::I32ReinterpretF32 => self.apply_checked(
                None,
                convert_signature(ValueType::F32, ValueType::I32),
                Instruction::I32ReinterpretF32,
            ),
            Operator::I64ReinterpretF64 => self.apply_checked(
                None,
                convert_signature(ValueType::F64, ValueType::I64),
                Instruction::I64ReinterpretF64,
            ),
            Operator::F32ReinterpretI32 => self.apply_checked(
                None,
                convert_signature(ValueType::I32, ValueType::F32),
                Instruction::F32ReinterpretI32,
            ),
            Operator::F64ReinterpretI64 => self.apply_checked(
                None,
                convert_signature(ValueType::I64, ValueType::F64),
                Instruction::F64ReinterpretI64,
            ),
            Operator::I32Extend8S => self.apply_checked(
                proposal_error(self.config.sign_extension),
                convert_signature(ValueType::I32, ValueType::I32),
                Instruction::I32Extend8S,
            ),
            Operator::I32Extend16S => self.apply_checked(
                proposal_error(self.config.sign_extension),
                convert_signature(ValueType::I32, ValueType::I32),
                Instruction::I32Extend16S,
            ),
            Operator::I64Extend8S => self.apply_checked(
                proposal_error(self.config.sign_extension),
                convert_signature(ValueType::I64, ValueType::I64),
                Instruction::I64Extend8S,
            ),
            Operator::I64Extend16S => self.apply_checked(
                proposal_error(self.config.sign_extension),
                convert_signature(ValueType::I64, ValueType::I64),
                Instruction::I64Extend16S,
            ),
            Operator::I64Extend32S => self.apply_checked(
                proposal_error(self.config.sign_extension),
                convert_signature(ValueType::I64, ValueType::I64),
                Instruction::I64Extend32S,
            ),
            Operator::I32TruncSatF32S => self.apply_checked(
                proposal_error(self.config.saturating_float_to_int),
                convert_signature(ValueType::F32, ValueType::I32),
                Instruction::I32TruncSatF32S,
            ),
            Operator::I32TruncSatF32U => self.apply_checked(
                proposal_error(self.config.saturating_float_to_int),
                convert_signature(ValueType::F32, ValueType::I32),
                Instruction::I32TruncSatF32U,
            ),
            Operator::I32TruncSatF64S => self.apply_checked(
                proposal_error(self.config.saturating_float_to_int),
                convert_signature(ValueType::F64, ValueType::I32),
                Instruction::I32TruncSatF64S,
            ),
            Operator::I32TruncSatF64U => self.apply_checked(
                proposal_error(self.config.saturating_float_to_int),
                convert_signature(ValueType::F64, ValueType::I32),
                Instruction::I32TruncSatF64U,
            ),
            Operator::I64TruncSatF32S => self.apply_checked(
                proposal_error(self.config.saturating_float_to_int),
                convert_signature(ValueType::F32, ValueType::I64),
                Instruction::I64TruncSatF32S,
            ),
            Operator::I64TruncSatF32U => self.apply_checked(
                proposal_error(self.config.saturating_float_to_int),
                convert_signature(ValueType::F32, ValueType::I64),
                Instruction::I64TruncSatF32U,
            ),
            Operator::I64TruncSatF64S => self.apply_checked(
                proposal_error(self.config.saturating_float_to_int),
                convert_signature(ValueType::F64, ValueType::I64),
                Instruction::I64TruncSatF64S,
            ),
            Operator::I64TruncSatF64U => self.apply_checked(
                proposal_error(self.config.saturating_float_to_int),
                convert_signature(ValueType::F64, ValueType::I64),
                Instruction::I64TruncSatF64U,
            ),
        }
    }

    /// The types that an operator pops and the types that it pushes, first
    /// operand first, for every operator that is no control operator. The
    /// signature of `drop` and `select` follows the type that lies on the
    /// stack, that of an access to a local or a global the type of the
    /// variable, and that of a call the type of the callee. For a control
    /// operator, and for an operator that names what the module does not
    /// declare, the signature is empty.
    pub open spec fn operator_signature(self, op: Operator) -> Signature {
        match op {
            Operator::Call(func) => match self.res.func_signature(func) {
                Some(signature) => signature,
                None => Signature { params: seq![], results: seq![] },
            },
            Operator::CallIndirect(ty, _) => if ty.0 < self.res.types.len() {
                Signature {
                    params: self.res.types[ty.0 as int].params.push(ValueType::I32),
                    results: self.res.types[ty.0 as int].results,
                }
            } else {
                Signature { params: seq![], results: seq![] }
            },
            Operator::Drop => Signature { params: seq![self.stack.last()], results: seq![] },
            Operator::Select => Signature {
                params: seq![
                    self.stack[self.stack.len() - 3],
                    self.stack[self.stack.len() - 3],
                    ValueType::I32,
                ],
                results: seq![self.stack[self.stack.len() - 3]],
            },
            Operator::LocalGet(local_idx) => const_signature(self.local_type(local_idx)),
            Operator::LocalSet(local_idx) => Signature {
                params: seq![self.local_type(local_idx)],
                results: seq![],
            },
            Operator::LocalTee(local_idx) => unary_signature(self.local_type(local_idx)),
            Operator::GlobalGet(idx) => if idx.0 < self.res.globals.len() {
                const_signature(self.res.globals[idx.0 as int].value_type)
            } else {
                Signature { params: seq![], results: seq![] }
            },
            Operator::GlobalSet(idx) => if idx.0 < self.res.globals.len() {
                Signature {
                    params: seq![self.res.globals[idx.0 as int].value_type],
                    results: seq![],
                }
            } else {
                Signature { params: seq![], results: seq![] }
            },
            Operator::I32Load(_, _) => load_signature(ValueType::I32),
            Operator::I64Load(_, _) => load_signature(ValueType::I64),
            Operator::F32Load(_, _) => load_signature(ValueType::F32),
            Operator::F64Load(_, _) => load_signature(ValueType::F64),
            Operator::I32Load8S(_, _) => load_signature(ValueType::I32),
            Operator::I32Load8U(_, _) => load_signature(ValueType::I32),
            Operator::I32Load16S(_, _) => load_signature(ValueType::I32),
            Operator::I32Load16U(_, _) => load_signature(ValueType::I32),
            Operator::I64Load8S(_, _) => load_signature(ValueType::I64),
            Operator::I64Load8U(_, _) => load_signature(ValueType::I64),
            Operator::I64Load16S(_, _) => load_signature(ValueType::I64),
            Operator::I64Load16U(_, _) => load_signature(ValueType::I64),
            Operator::I64Load32S(_, _) => load_signature(ValueType::I64),
            Operator::I64Load32U(_, _) => load_signature(ValueType::I64),
            Operator::I32Store(_, _) => store_signature(ValueType::I32),
            Operator::I64Store(_, _) => store_signature(ValueType::I64),
            Operator::F32Store(_, _) => store_signature(ValueType::F32),
            Operator::F64Store(_, _) => store_signature(ValueType::F64),
            Operator::I32Store8(_, _) => store_signature(ValueType::I32),
            Operator::I32Store16(_, _) => store_signature(ValueType::I32),
            Operator::I64Store8(_, _) => store_signature(ValueType::I64),
            Operator::I64Store16(_, _) => store_signature(ValueType::I64),
            Operator::I64Store32(_, _) => store_signature(ValueType::I64),
            Operator::MemorySize(_) => const_signature(ValueType::I32),
            Operator::MemoryGrow(_) => unary_signature(ValueType::I32),
            Operator::I32Const(_) => const_signature(ValueType::I32),
            Operator::I64Const(_) => const_signature(ValueType::I64),
            Operator::F32Const(_) => const_signature(ValueType::F32),
            Operator::F64Const(_) => const_signature(ValueType::F64),
            Operator::I32Eqz => convert_signature(ValueType::I32, ValueType::I32),
            Operator::I32Eq => compare_signature(ValueType::I32),
            Operator::I32Ne => compare_signature(ValueType::I32),
            Operator::I32LtS => compare_signature(ValueType::I32),
            Operator::I32LtU => compare_signature(ValueType::I32),
            Operator::I32GtS => compare_signature(ValueType::I32),
            Operator::I32GtU => compare_signature(ValueType::I32),
            Operator::I32LeS => compare_signature(ValueType::I32),
            Operator::I32LeU => compare_signature(ValueType::I32),
            Operator::I32GeS => compare_signature(ValueType::I32),
            Operator::I32GeU => compare_signature(ValueType::I32),
            Operator::I64Eqz => convert_signature(ValueType::I64, ValueType::I32),
            Operator::I64Eq => compare_signature(ValueType::I64),
            Operator::I64Ne => compare_signature(ValueType::I64),
            Operator::I64LtS => compare_signature(ValueType::I64),
            Operator::I64LtU => compare_signature(ValueType::I64),
            Operator::I64GtS => compare_signature(ValueType::I64),
            Operator::I64GtU => compare_signature(ValueType::I64),
            Operator::I64LeS => compare_signature(ValueType::I64),
            Operator::I64LeU => compare_signature(ValueType::I64),
            Operator::I64GeS => compare_signature(ValueType::I64),
            Operator::I64GeU => compare_signature(ValueType::I64),
            Operator::F32Eq => compare_signature(ValueType::F32),
            Operator::F32Ne => compare_signature(ValueType::F32),
            Operator::F32Lt => compare_signature(ValueType::F32),
            Operator::F32Gt => compare_signature(ValueType::F32),
            Operator::F32Le => compare_signature(ValueType::F32),
            Operator::F32Ge => compare_signature(ValueType::F32),
            Operator::F64Eq => compare_signature(ValueType::F64),
            Operator::F64Ne => compare_signature(ValueType::F64),
            Operator::F64Lt => compare_signature(ValueType::F64),
            Operator::F64Gt => compare_signature(ValueType::F64),
            Operator::F64Le => compare_signature(ValueType::F64),
            Operator::F64Ge => compare_signature(ValueType::F64),
            Operator::I32Clz => unary_signature(ValueType::I32),
            Operator::I32Ctz => unary_signature(ValueType::I32),
            Operator::I32Popcnt => unary_signature(ValueType::I32),
            Operator::I32Add => binary_signature(ValueType::I32),
            Operator::I32Sub => binary_signature(ValueType::I32),
            Operator::I32Mul => binary_signature(ValueType::I32),
            Operator::I32DivS => binary_signature(ValueType::I32),
            Operator::I32DivU => binary_signature(ValueType::I32),
            Operator::I32RemS => binary_signature(ValueType::I32),
            Operator::I32RemU => binary_signature(ValueType::I32),
            Operator::I32And => binary_signature(ValueType::I32),
            Operator::I32Or => binary_signature(ValueType::I32),
            Operator::I32Xor => binary_signature(ValueType::I32),
            Operator::I32Shl => binary_signature(ValueType::I32),
            Operator::I32ShrS => binary_signature(ValueType::I32),
            Operator::I32ShrU => binary_signature(ValueType::I32),
            Operator::I32Rotl => binary_signature(ValueType::I32),
            Operator::I32Rotr => binary_signature(ValueType::I32),
            Operator::I64Clz => unary_signature(ValueType::I64),
            Operator::I64Ctz => unary_signature(ValueType::I64),
            Operator::I64Popcnt => unary_signature(ValueType::I64),
            Operator::I64Add => binary_signature(ValueType::I64),
            Operator::I64Sub => binary_signature(ValueType::I64),
            Operator::I64Mul => binary_signature(ValueType::I64),
            Operator::I64DivS => binary_signature(ValueType::I64),
            Operator::I64DivU => binary_signature(ValueType::I64),
            Operator::I64RemS => binary_signature(ValueType::I64),
            Operator::I64RemU => binary_signature(ValueType::I64),
            Operator::I64And => binary_signature(ValueType::I64),
            Operator::I64Or => binary_signature(ValueType::I64),
            Operator::I64Xor => binary_signature(ValueType::I64),
            Operator::I64Shl => binary_signature(ValueType::I64),
            Operator::I64ShrS => binary_signature(ValueType::I64),
            Operator::I64ShrU => binary_signature(ValueType::I64),
            Operator::I64Rotl => binary_signature(ValueType::I64),
            Operator::I64Rotr => binary_signature(ValueType::I64),
            Operator::F32Abs => unary_signature(ValueType::F32),
            Operator::F32Neg => unary_signature(ValueType::F32),
            Operator::F32Ceil => unary_signature(ValueType::F32),
            Operator::F32Floor => unary_signature(ValueType::F32),
            Operator::F32Trunc => unary_signature(ValueType::F32),
            Operator::F32Nearest => unary_signature(ValueType::F32),
            Operator::F32Sqrt => unary_signature(ValueType::F32),
            Operator::F32Add => binary_signature(ValueType::F32),
            Operator::F32Sub => binary_signature(ValueType::F32),
            Operator::F32Mul => binary_signature(ValueType::F32),
            Operator::F32Div => binary_signature(ValueType::F32),
            Operator::F32Min => binary_signature(ValueType::F32),
            Operator::F32Max => binary_signature(ValueType::F32),
            Operator::F32Copysign => binary_signature(ValueType::F32),
            Operator::F64Abs => unary_signature(ValueType::F64),
            Operator::F64Neg => unary_signature(ValueType::F64),
            Operator::F64Ceil => unary_signature(ValueType::F64),
            Operator::F64Floor => unary_signature(ValueType::F64),
            Operator::F64Trunc => unary_signature(ValueType::F64),
            Operator::F64Nearest => unary_signature(ValueType::F64),
            Operator::F64Sqrt => unary_signature(ValueType::F64),
            Operator::F64Add => binary_signature(ValueType::F64),
            Operator::F64Sub => binary_signature(ValueType::F64),
            Operator::F64Mul => binary_signature(ValueType::F64),
            Operator::F64Div => binary_signature(ValueType::F64),
            Operator::F64Min => binary_signature(ValueType::F64),
            Operator::F64Max => binary_signature(ValueType::F64),
            Operator::F64Copysign => binary_signature(ValueType::F64),
            Operator::I32WrapI64 => convert_signature(ValueType::I64, ValueType::I32),
            Operator::I32TruncF32S => convert_signature(ValueType::F32, ValueType::I32),
            Operator::I32TruncF32U => convert_signature(ValueType::F32, ValueType::I32),
            Operator::I32TruncF64S => convert_signature(ValueType::F64, ValueType::I32),
            Operator::I32TruncF64U => convert_signature(ValueType::F64, ValueType::I32),
            Operator::I64ExtendI32S => convert_signature(ValueType::I32, ValueType::I64),
            Operator::I64ExtendI32U => convert_signature(ValueType::I32, ValueType::I64),
            Operator::I64TruncF32S => convert_signature(ValueType::F32, ValueType::I64),
            Operator::I64TruncF32U => convert_signature(ValueType::F32, ValueType::I64),
            Operator::I64TruncF64S => convert_signature(ValueType::F64, ValueType::I64),
            Operator::I64TruncF64U => convert_signature(ValueType::F64, ValueType::I64),
            Operator::F32ConvertI32S => convert_signature(ValueType::I32, ValueType::F32),
            Operator::F32ConvertI32U => convert_signature(ValueType::I32, ValueType::F32),
            Operator::F32ConvertI64S => convert_signature(ValueType::I64, ValueType::F32),
            Operator::F32ConvertI64U => convert_signature(ValueType::I64, ValueType::F32),
            Operator::F32DemoteF64 => convert_signature(ValueType::F64, ValueType::F32),
            Operator::F64ConvertI32S => convert_signature(ValueType::I32, ValueType::F64),
            Operator::F64ConvertI32U => convert_signature(ValueType::I32, ValueType::F64),
            Operator::F64ConvertI64S => convert_signature(ValueType::I64, ValueType::F64),
            Operator::F64ConvertI64U => convert_signature(ValueType::I64, ValueType::F64),
            Operator::F64PromoteF32 => convert_signature(ValueType::F32, ValueType::F64),
            Operator::I32ReinterpretF32 => convert_signature(ValueType::F32, ValueType::I32),
            Operator::I64ReinterpretF64 => convert_signature(ValueType::F64, ValueType::I64),
            Operator::F32ReinterpretI32 => convert_signature(ValueType::I32, ValueType::F32),
            Operator::F64ReinterpretI64 => convert_signature(ValueType::I64, ValueType::F64),
            Operator::I32Extend8S => convert_signature(ValueType::I32, ValueType::I32),
            Operator::I32Extend16S => convert_signature(ValueType::I32, ValueType::I32),
            Operator::I64Extend8S => convert_signature(ValueType::I64, ValueType::I64),
            Operator::I64Extend16S => convert_signature(ValueType::I64, ValueType::I64),
            Operator::I64Extend32S => convert_signature(ValueType::I64, ValueType::I64),
            Operator::I32TruncSatF32S => convert_signature(ValueType::F32, ValueType::I32),
            Operator::I32TruncSatF32U => convert_signature(ValueType::F32, ValueType::I32),
            Operator::I32TruncSatF64S => convert_signature(ValueType::F64, ValueType::I32),
            Operator::I32TruncSatF64U => convert_signature(ValueType::F64, ValueType::I32),
            Operator::I64TruncSatF32S => convert_signature(ValueType::F32, ValueType::I64),
            Operator::I64TruncSatF32U => convert_signature(ValueType::F32, ValueType::I64),
            Operator::I64TruncSatF64S => convert_signature(ValueType::F64, ValueType::I64),
            Operator::I64TruncSatF64U => convert_signature(ValueType::F64, ValueType::I64),
            _ => Signature { params: seq![], results: seq![] },
        }
    }
    /// The state after all of `ops` were translated in order, or the state
    /// and the error of the first operator that failed.
    pub open spec fn apply_all(self, ops: Seq<Operator>) -> Step
        decreases ops.len(),
    {
        if ops.len() == 0 {
            (self, Ok(()))
        } else {
            let (state, result) = self.apply_all(ops.drop_last());
            if result is Err {
                (state, result)
            } else {
                state.apply(ops.last())
            }
        }
    }

    /// No operator has been translated yet.
    pub open spec fn is_fresh(self) -> bool {
        &&& self.frames.len() == 1
        &&& self.stack.len() == self.locals()
        &&& self.code.insts.len() == 0
        &&& self.reachable
    }

    /// The step that declares `amount` locals of type `ty`. Locals can only
    /// be declared before the first operator.
    pub open spec fn declare_locals(self, amount: u32, ty: ValueType) -> Step {
        if !self.is_fresh() {
            (self, Err(ModuleError::MisplacedLocals))
        } else if self.stack.len() + amount > usize::MAX {
            (self, Err(ModuleError::LimitExceeded))
        } else {
            (
                TranslatorState {
                    len_locals: self.len_locals + amount as nat,
                    ..self.with_stack(self.stack + Seq::new(amount as nat, |i: int| ty))
                },
                Ok(()),
            )
        }
    }

    /// The state after all the groups of `locals` were declared in order, or
    /// the state and the error of the first group that failed.
    pub open spec fn declare_all(self, locals: Seq<(u32, ValueType)>) -> Step
        decreases locals.len(),
    {
        if locals.len() == 0 {
            (self, Ok(()))
        } else {
            let (state, result) = self.declare_all(locals.drop_last());
            if result is Err {
                (state, result)
            } else {
                state.declare_locals(locals.last().0, locals.last().1)
            }
        }
    }

    /// The state in which the translation of `func` starts: the frame of the
    /// function body is open, the stack holds the parameters, and the code is
    /// reachable.
    pub open spec fn initial(config: Config, res: ModuleView, func: FuncIdx) -> TranslatorState {
        TranslatorState {
            config,
            res,
            func,
            frames: seq![
                ControlFrame::Block {
                    end_label: LabelIdx(0),
                    block_type: BlockType::FuncType(res.funcs[func.0 as int]),
                    height: 0,
                    reachable: true,
                },
            ],
            stack: res.func_signature(func).unwrap().params,
            max_height: res.func_signature(func).unwrap().params.len(),
            code: InstructionsView { insts: seq![], labels: seq![None], relocs: seq![] },
            len_locals: 0,
            reachable: true,
        }
    }

    /// What the translation yields when it is finished in this state: the
    /// resolved code with the sizes that the interpreter needs, or the error
    /// of the instruction builder.
    pub open spec fn compiled(self) -> Result<CompiledView, ModuleError> {
        match self.code.finish() {
            Ok(insts) => Ok(
                CompiledView {
                    insts,
                    len_locals: self.len_locals,
                    max_stack_height: (self.max_height - self.locals()) as nat,
                },
            ),
            Err(error) => Err(error),
        }
    }
}

/// The three instructions that carry a branch target.
#[derive(Clone, Copy, Debug, PartialEq, Eq, Structural)]
pub enum BranchKind {
    /// An unconditional branch.
    Br,
    /// A branch taken when the popped condition is zero.
    BrIfEqz,
    /// A branch taken when the popped condition is not zero.
    BrIfNez,
}

impl BranchKind {
    /// The branch instruction of this kind with the given target.
    pub open spec fn spec_instruction(self, target: Target) -> Instruction {
        match self {
            BranchKind::Br => Instruction::Br(target),
            BranchKind::BrIfEqz => Instruction::BrIfEqz(target),
            BranchKind::BrIfNez => Instruction::BrIfNez(target),
        }
    }

    /// Returns the branch instruction of this kind with the given target.
    #[verifier::when_used_as_spec(spec_instruction)]
    pub fn instruction(self, target: Target) -> (inst: Instruction)
        ensures
            inst == self.spec_instruction(target),
    {
        match self {
            BranchKind::Br => Instruction::Br(target),
            BranchKind::BrIfEqz => Instruction::BrIfEqz(target),
            BranchKind::BrIfNez => Instruction::BrIfNez(target),
        }
    }
}

/// Why an operator of a proposal cannot be translated, if the proposal is
/// switched off.
pub open spec fn proposal_error(enabled: bool) -> Option<ModuleError> {
    if enabled {
        None
    } else {
        Some(ModuleError::UnsupportedOperator)
    }
}

/// The signature of an operator that pushes one value.
pub open spec fn const_signature(ty: ValueType) -> Signature {
    Signature { params: seq![], results: seq![ty] }
}

/// The signature of an operator from one value to one of the same type.
pub open spec fn unary_signature(ty: ValueType) -> Signature {
    Signature { params: seq![ty], results: seq![ty] }
}

/// The signature of an operator from two values to one of the same type.
pub open spec fn binary_signature(ty: ValueType) -> Signature {
    Signature { params: seq![ty, ty], results: seq![ty] }
}

/// The signature of a comparison: two values of one type to an `i32`.
pub open spec fn compare_signature(ty: ValueType) -> Signature {
    Signature { params: seq![ty, ty], results: seq![ValueType::I32] }
}

/// The signature of a conversion or a test: one value to one of another type.
pub open spec fn convert_signature(from: ValueType, to: ValueType) -> Signature {
    Signature { params: seq![from], results: seq![to] }
}

/// The signature of a load: an address to a value.
pub open spec fn load_signature(ty: ValueType) -> Signature {
    Signature { params: seq![ValueType::I32], results: seq![ty] }
}

/// The signature of a store: an address and a value to nothing.
pub open spec fn store_signature(ty: ValueType) -> Signature {
    Signature { params: seq![ValueType::I32, ty], results: seq![] }
}

} // verus!
