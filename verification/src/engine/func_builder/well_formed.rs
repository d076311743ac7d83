//! What holds of the state of a translation between any two operators.

use super::control_frame::ControlFrame;
use super::inst_builder::{InstructionsView, LabelIdx, RelativeDepth, Reloc};
use super::state::{BranchKind, TranslatorState};
use crate::engine::bytecode::{DropKeep, Instruction, InstructionIdx};
use crate::engine::config::Config;
use crate::module::{BlockType, FuncIdx, ModuleView};
use crate::value::ValueType;
use vstd::prelude::*;

verus! {

impl ControlFrame {
    /// The smallest label that the frame holds.
    pub open spec fn low_label(self) -> LabelIdx {
        match self {
            ControlFrame::Block { end_label, .. } => end_label,
            ControlFrame::Loop { header, .. } => header,
            ControlFrame::If { else_label, .. } => else_label,
            ControlFrame::Else { end_label, .. } => end_label,
        }
    }

    /// The greatest label that the frame holds.
    pub open spec fn high_label(self) -> LabelIdx {
        match self {
            ControlFrame::Block { end_label, .. } => end_label,
            ControlFrame::Loop { header, .. } => header,
            ControlFrame::If { end_label, .. } => end_label,
            ControlFrame::Else { end_label, .. } => end_label,
        }
    }

    /// The frame holds the label with the given index and will bind it when
    /// it ends or, for the first arm of an `if`, when its `else` comes.
    pub open spec fn waits_for(self, label: int) -> bool {
        ||| self.end_label() matches Some(end_label) && end_label.0 == label
        ||| self.else_label() matches Some(else_label) && else_label.0 == label
    }
}

impl TranslatorState {
    /// The function has a signature, its locals are the bottom of the stack,
    /// and the height counter is up to date.
    pub open spec fn wf_stack(self) -> bool {
        &&& self.res.func_signature(self.func) is Some
        &&& self.locals() <= self.stack.len()
        &&& self.stack.len() <= self.max_height
        &&& self.max_height <= usize::MAX
        &&& self.floor() <= self.stack.len()
    }

    /// The outermost frame is the function body, every frame has a valid
    /// block type, and the entry heights grow from the outermost frame to the
    /// innermost and lie above the locals.
    pub open spec fn wf_frames(self) -> bool {
        &&& self.frames.len() > 0 ==> self.frames[0] == (ControlFrame::Block {
            end_label: LabelIdx(0),
            block_type: BlockType::FuncType(self.res.funcs[self.func.0 as int]),
            height: 0,
            reachable: true,
        })
        &&& forall|i: int|
            0 <= i < self.frames.len() ==> self.res.block_signature(
                (#[trigger] self.frames[i]).block_type(),
            ) is Some
        &&& forall|i: int|
            1 <= i < self.frames.len() ==> self.locals() <= (#[trigger] self.frames[i]).height()
        &&& forall|i: int, j: int|
            0 <= i <= j < self.frames.len() ==> (#[trigger] self.frames[i]).height() <= (
            #[trigger] self.frames[j]).height()
    }

    /// The labels of the frame exist; those it waits for are unbound and the
    /// header of a loop is bound.
    pub open spec fn frame_labels_wf(self, frame: ControlFrame) -> bool {
        &&& frame.low_label().0 <= frame.high_label().0 < self.code.labels.len()
        &&& match frame {
            ControlFrame::Block { end_label, .. } => self.code.labels[end_label.0 as int] is None,
            ControlFrame::Loop { header, .. } => self.code.labels[header.0 as int] is Some,
            ControlFrame::If { else_label, end_label, .. } => {
                &&& else_label.0 < end_label.0
                &&& self.code.labels[else_label.0 as int] is None
                &&& self.code.labels[end_label.0 as int] is None
            },
            ControlFrame::Else { end_label, .. } => self.code.labels[end_label.0 as int] is None,
        }
    }

    /// Some open frame waits for the label.
    #[verifier::opaque]
    pub open spec fn is_awaited(self, label: int) -> bool {
        exists|i: int|
            0 <= i < self.frames.len() && (#[trigger] self.frames[i]).waits_for(label)
    }

    /// Every frame holds labels of its own, an inner frame newer ones than an
    /// outer frame, and a label is unbound only while a frame waits for it.
    pub open spec fn wf_labels(self) -> bool {
        &&& forall|i: int|
            0 <= i < self.frames.len() ==> self.frame_labels_wf(#[trigger] self.frames[i])
        &&& forall|i: int, j: int|
            0 <= i < j < self.frames.len() ==> (#[trigger] self.frames[i]).high_label().0 < (
            #[trigger] self.frames[j]).low_label().0
        &&& forall|l: int|
            0 <= l < self.code.labels.len() && (#[trigger] self.code.labels[l]) is None
                ==> self.is_awaited(l)
    }

    /// Some relocation names position `i`.
    pub open spec fn has_reloc(self, i: int) -> bool {
        exists|k: int|
            0 <= k < self.code.relocs.len() && (#[trigger] self.code.relocs[k]).reloc.site() == i
    }

    /// A branch at position `i` either knows its destination, which lies
    /// within the code or directly behind it, or has a relocation.
    pub open spec fn branch_tracked(self, i: int) -> bool {
        self.code.insts[i].target() matches Some(target) ==> if target.dst_pc
            == InstructionIdx::invalid() {
            self.has_reloc(i)
        } else {
            target.dst_pc.0 <= self.code.insts.len()
        }
    }

    /// Every relocation names a branch that has been emitted, no two name the
    /// same one, and no branch with an unknown destination lacks one.
    pub open spec fn wf_code(self) -> bool {
        &&& self.code.wf()
        &&& self.code.labels.len() <= usize::MAX
        &&& self.code.all_apply()
        &&& forall|a: int, b: int|
            0 <= a < b < self.code.relocs.len() ==> (#[trigger] self.code.relocs[a]).reloc.site()
                < (#[trigger] self.code.relocs[b]).reloc.site()
        &&& forall|i: int| 0 <= i < self.code.insts.len() ==> #[trigger] self.branch_tracked(i)
    }

    /// The invariant of a translation.
    pub open spec fn wf(self) -> bool {
        &&& self.wf_stack()
        &&& self.wf_frames()
        &&& self.wf_labels()
        &&& self.wf_code()
    }
}


/// A label that a frame waits for is awaited.
pub proof fn lemma_awaited_by(s: TranslatorState, label: int, i: int)
    requires
        0 <= i < s.frames.len(),
        s.frames[i].waits_for(label),
    ensures
        s.is_awaited(label),
{
    reveal(TranslatorState::is_awaited);
}

/// The frame that waits for an awaited label.
pub proof fn lemma_awaiting_frame(s: TranslatorState, label: int) -> (i: int)
    requires
        s.is_awaited(label),
    ensures
        0 <= i < s.frames.len(),
        s.frames[i].waits_for(label),
{
    reveal(TranslatorState::is_awaited);
    choose|i: int| 0 <= i < s.frames.len() && (#[trigger] s.frames[i]).waits_for(label)
}

/// States with the same frames await the same labels.
pub proof fn lemma_awaited_alike(s: TranslatorState, t: TranslatorState, label: int)
    requires
        s.is_awaited(label),
        t.frames == s.frames,
    ensures
        t.is_awaited(label),
{
    let i = lemma_awaiting_frame(s, label);
    lemma_awaited_by(t, label, i);
}

/// The entry height of every open frame lies at or below the floor.
pub proof fn lemma_floor_above_frames(s: TranslatorState, depth: u32)
    requires
        s.wf(),
        depth < s.frames.len(),
    ensures
        s.frame_at(depth).height() <= s.floor(),
        s.locals() <= s.floor(),
        s.res.block_signature(s.frame_at(depth).block_type()) is Some,
{
    let i = s.frames.len() - 1 - depth;
    assert(s.frames[i].height() <= s.frames[s.frames.len() - 1].height());
    assert(s.res.block_signature(s.frames[i].block_type()) is Some);
    if s.frames.len() > 1 {
        assert(s.locals() <= s.frames[s.frames.len() - 1].height());
    }
}

/// A state that differs from a well-formed one only in its stack is
/// well-formed if the new stack reaches the floor.
pub proof fn lemma_with_stack_wf(s: TranslatorState, stack: Seq<ValueType>)
    requires
        s.wf(),
        s.floor() <= stack.len() <= usize::MAX,
    ensures
        s.with_stack(stack).wf(),
{
    let t = s.with_stack(stack);
    if s.frames.len() > 0 {
        lemma_floor_above_frames(s, 0);
    }
    assert(t.wf_stack());
    assert(t.wf_frames());
    lemma_same_code_wf(s, t);
}

/// Well-formedness of the labels and the code carries over to a state with
/// the same frames, labels, instructions and relocations.
pub proof fn lemma_same_code_wf(s: TranslatorState, t: TranslatorState)
    requires
        s.wf_labels(),
        s.wf_code(),
        t.frames == s.frames,
        t.code == s.code,
    ensures
        t.wf_labels(),
        t.wf_code(),
{
    assert forall|i: int| 0 <= i < t.frames.len() implies t.frame_labels_wf(
        #[trigger] t.frames[i],
    ) by {
        assert(s.frame_labels_wf(s.frames[i]));
    }
    assert forall|l: int|
        0 <= l < t.code.labels.len() && (#[trigger] t.code.labels[l]) is None implies t.is_awaited(
        l,
    ) by {
        lemma_awaited_alike(s, t, l);
    }
    assert forall|i: int| 0 <= i < t.code.insts.len() implies #[trigger] t.branch_tracked(i) by {
        assert(s.branch_tracked(i));
        if s.has_reloc(i) {
            let k = choose|k: int|
                0 <= k < s.code.relocs.len() && (#[trigger] s.code.relocs[k]).reloc.site() == i;
            assert(t.code.relocs[k].reloc.site() == i);
        }
    }
}

/// Appending an instruction that is no branch keeps the invariant.
pub proof fn lemma_emit_wf(s: TranslatorState, inst: Instruction)
    requires
        s.wf(),
        s.has_room(1),
        inst.target() is None,
    ensures
        s.emit(inst).wf(),
{
    let t = s.emit(inst);
    if s.reachable {
        assert(t.wf_stack());
        assert(t.wf_frames());
        assert(t.code.insts.drop_last() =~= s.code.insts);
        lemma_more_code_wf(s, t);
    }
}

/// Well-formedness of the labels and the code carries over to a state with
/// the same frames, labels and relocations and one more instruction at the
/// end, provided the new instruction is no branch or knows its destination.
pub proof fn lemma_more_code_wf(s: TranslatorState, t: TranslatorState)
    requires
        s.wf_labels(),
        s.wf_code(),
        t.frames == s.frames,
        t.code.labels == s.code.labels,
        t.code.relocs == s.code.relocs,
        t.code.insts.len() == s.code.insts.len() + 1,
        t.code.insts.len() < usize::MAX,
        t.code.insts.drop_last() == s.code.insts,
        t.code.insts.last().target() matches Some(target) ==> target.dst_pc.0
            <= s.code.insts.len(),
    ensures
        t.wf_labels(),
        t.wf_code(),
{
    assert forall|i: int| 0 <= i < t.frames.len() implies t.frame_labels_wf(
        #[trigger] t.frames[i],
    ) by {
        assert(s.frame_labels_wf(s.frames[i]));
    }
    assert forall|l: int|
        0 <= l < t.code.labels.len() && (#[trigger] t.code.labels[l]) is None implies t.is_awaited(
        l,
    ) by {
        lemma_awaited_alike(s, t, l);
    }
    assert forall|i: int| 0 <= i < t.code.insts.len() implies #[trigger] t.branch_tracked(i) by {
        if i < s.code.insts.len() {
            assert(t.code.insts[i] == s.code.insts[i]);
            assert(s.branch_tracked(i));
            if s.has_reloc(i) {
                let k = choose|k: int|
                    0 <= k < s.code.relocs.len() && (#[trigger] s.code.relocs[k]).reloc.site()
                        == i;
                assert(t.code.relocs[k].reloc.site() == i);
            }
        }
    }
    assert forall|k: int| 0 <= k < t.code.relocs.len() implies t.code.applies(
        #[trigger] t.code.relocs[k],
    ) by {
        assert(s.code.applies(s.code.relocs[k]));
        let site = s.code.relocs[k].reloc.site();
        assert(t.code.insts[site] == s.code.insts[site]);
    }
    assert forall|l: int| 0 <= l < t.code.labels.len() implies ((
    #[trigger] t.code.labels[l]) matches Some(pc) ==> pc.0 <= t.code.insts.len()) by {
        assert(s.code.labels[l] matches Some(pc) ==> pc.0 <= s.code.insts.len());
    }
}

/// Making the code unreachable keeps the invariant.
pub proof fn lemma_diverge_wf(s: TranslatorState)
    requires
        s.wf(),
    ensures
        s.diverge().wf(),
{
    let t = s.diverge();
    if s.frames.len() > 0 {
        lemma_floor_above_frames(s, 0);
    }
    assert(t.wf_stack());
    assert(t.wf_frames());
    lemma_same_code_wf(s, t);
}

/// Declaring locals keeps the invariant as long as the stack can be
/// addressed.
pub proof fn lemma_declare_locals_wf(s: TranslatorState, amount: u32, ty: ValueType)
    requires
        s.wf(),
    ensures
        s.declare_locals(amount, ty).0.wf(),
{
    let t = s.declare_locals(amount, ty).0;
    if s.declare_locals(amount, ty).1 is Ok {
        assert(t.wf_stack());
        assert(t.wf_frames());
        lemma_same_code_wf(s, t);
    }
}

/// Emitting a branch at the current position keeps the invariant.
pub proof fn lemma_emit_branch_wf(
    s: TranslatorState,
    label: LabelIdx,
    reloc: Reloc,
    drop_keep: DropKeep,
    kind: BranchKind,
)
    requires
        s.wf(),
        s.has_room(1),
        s.code.is_label(label),
        s.reachable ==> reloc.site() == s.code.insts.len(),
    ensures
        s.emit_branch(label, reloc, drop_keep, kind).wf(),
{
    let t = s.emit_branch(label, reloc, drop_keep, kind);
    if s.reachable {
        assert(t.wf_stack());
        assert(t.wf_frames());
        if s.code.is_resolved(label) {
            assert(s.code.labels[label.0 as int] matches Some(pc) ==> pc.0 <= s.code.insts.len());
            assert(t.code.insts.drop_last() =~= s.code.insts);
            lemma_more_code_wf(s, t);
        } else {
            let n = s.code.insts.len() as int;
            let r = s.code.relocs.len() as int;
            assert forall|i: int| 0 <= i < t.frames.len() implies t.frame_labels_wf(
                #[trigger] t.frames[i],
            ) by {
                assert(s.frame_labels_wf(s.frames[i]));
            }
            assert forall|l: int|
                0 <= l < t.code.labels.len() && (
                #[trigger] t.code.labels[l]) is None implies t.is_awaited(l) by {
                lemma_awaited_alike(s, t, l);
            }
            assert forall|i: int| 0 <= i < t.code.insts.len() implies #[trigger] t.branch_tracked(
                i,
            ) by {
                if i < n {
                    assert(t.code.insts[i] == s.code.insts[i]);
                    assert(s.branch_tracked(i));
                    if s.has_reloc(i) {
                        let k = choose|k: int|
                            0 <= k < s.code.relocs.len() && (
                            #[trigger] s.code.relocs[k]).reloc.site() == i;
                        assert(t.code.relocs[k].reloc.site() == i);
                    }
                } else {
                    assert(t.code.relocs[r].reloc.site() == i);
                }
            }
            assert forall|k: int| 0 <= k < t.code.relocs.len() implies t.code.applies(
                #[trigger] t.code.relocs[k],
            ) by {
                if k < r {
                    assert(s.code.applies(s.code.relocs[k]));
                    assert(t.code.insts[s.code.relocs[k].reloc.site()]
                        == s.code.insts[s.code.relocs[k].reloc.site()]);
                }
            }
            assert forall|a: int, b: int| 0 <= a < b < t.code.relocs.len() implies (
            #[trigger] t.code.relocs[a]).reloc.site() < (
            #[trigger] t.code.relocs[b]).reloc.site() by {
                if b == r {
                    assert(s.code.applies(s.code.relocs[a]));
                }
            }
            assert forall|l: int| 0 <= l < t.code.labels.len() implies ((
            #[trigger] t.code.labels[l]) matches Some(pc) ==> pc.0 <= t.code.insts.len()) by {
                assert(s.code.labels[l] matches Some(pc) ==> pc.0 <= s.code.insts.len());
            }
            assert forall|k: int| 0 <= k < t.code.relocs.len() implies t.code.is_label(
                (#[trigger] t.code.relocs[k]).label,
            ) by {
                if k < r {
                    assert(s.code.is_label(s.code.relocs[k].label));
                }
            }
            assert(t.code.wf());
            assert(t.wf_labels());
            assert(t.wf_code());
        }
    }
}

/// Emitting the transfer to an open frame at the current position keeps the
/// invariant.
pub proof fn lemma_transfer_wf(
    s: TranslatorState,
    depth: u32,
    height: nat,
    conditional: bool,
    reloc: Reloc,
)
    requires
        s.wf(),
        s.has_room(1),
        depth < s.frames.len(),
        s.reachable ==> reloc.site() == s.code.insts.len(),
    ensures
        s.emit_transfer(depth, height, conditional, reloc).wf(),
{
    let frame = s.frame_at(depth);
    let drop_keep = s.branch_drop_keep(frame, height);
    if depth + 1 == s.frames.len() {
        if conditional {
            lemma_emit_wf(s, Instruction::ReturnIfNez(drop_keep));
        } else {
            lemma_emit_wf(s, Instruction::Return(drop_keep));
        }
    } else {
        assert(s.frame_labels_wf(s.frames[s.frames.len() - 1 - depth]));
        lemma_emit_branch_wf(
            s,
            frame.branch_destination(),
            reloc,
            drop_keep,
            if conditional {
                BranchKind::BrIfNez
            } else {
                BranchKind::Br
            },
        );
    }
}

/// Opening a frame keeps the invariant if the frame starts at or above the
/// floor, holds labels that were just handed out, and waits for each of them
/// that is unbound.
pub proof fn lemma_enter_wf(
    s: TranslatorState,
    stack: Seq<ValueType>,
    frame: ControlFrame,
    labels: Seq<Option<InstructionIdx>>,
)
    requires
        s.wf(),
        s.frames.len() > 0,
        s.floor() <= frame.height() <= stack.len() <= usize::MAX,
        s.res.block_signature(frame.block_type()) is Some,
        s.code.labels.len() <= frame.low_label().0,
        s.code.labels.len() < labels.len() <= usize::MAX,
        labels.take(s.code.labels.len() as int) == s.code.labels,
        s.enter(stack, frame, labels).frame_labels_wf(frame),
        forall|l: int|
            s.code.labels.len() <= l < labels.len() ==> match #[trigger] labels[l] {
                Some(pc) => pc.0 <= s.code.insts.len(),
                None => frame.waits_for(l),
            },
    ensures
        s.enter(stack, frame, labels).wf(),
{
    let t = s.enter(stack, frame, labels);
    let n = s.frames.len() as int;
    lemma_floor_above_frames(s, 0);
    assert(t.wf_stack());
    assert forall|i: int| 0 <= i < t.frames.len() implies t.res.block_signature(
        (#[trigger] t.frames[i]).block_type(),
    ) is Some by {
        if i < n {
            assert(t.frames[i] == s.frames[i]);
        }
    }
    assert forall|i: int, j: int| 0 <= i <= j < t.frames.len() implies (
    #[trigger] t.frames[i]).height() <= (#[trigger] t.frames[j]).height() by {
        if j < n {
            assert(t.frames[i] == s.frames[i]);
            assert(t.frames[j] == s.frames[j]);
        } else if i < n {
            assert(t.frames[i] == s.frames[i]);
            assert(s.frames[i].height() <= s.frames[n - 1].height());
        }
    }
    assert forall|i: int| 1 <= i < t.frames.len() implies t.locals() <= (
    #[trigger] t.frames[i]).height() by {
        if i < n {
            assert(t.frames[i] == s.frames[i]);
        }
    }
    assert(t.frames[0] == s.frames[0]);
    assert(t.wf_frames());
    assert forall|l: int| 0 <= l < s.code.labels.len() implies labels[l] == s.code.labels[l] by {
        assert(labels.take(s.code.labels.len() as int)[l] == labels[l]);
    }
    assert forall|i: int| 0 <= i < t.frames.len() implies t.frame_labels_wf(
        #[trigger] t.frames[i],
    ) by {
        if i < n {
            assert(t.frames[i] == s.frames[i]);
            assert(s.frame_labels_wf(s.frames[i]));
        }
    }
    assert forall|i: int, j: int| 0 <= i < j < t.frames.len() implies (
    #[trigger] t.frames[i]).high_label().0 < (#[trigger] t.frames[j]).low_label().0 by {
        assert(t.frames[i] == s.frames[i]);
        if j < n {
            assert(t.frames[j] == s.frames[j]);
        } else {
            assert(s.frame_labels_wf(s.frames[i]));
        }
    }
    assert forall|l: int|
        0 <= l < t.code.labels.len() && (#[trigger] t.code.labels[l]) is None implies t.is_awaited(
        l,
    ) by {
        if l < s.code.labels.len() {
            assert(s.code.labels[l] is None);
            let i = lemma_awaiting_frame(s, l);
            assert(t.frames[i] == s.frames[i]);
            lemma_awaited_by(t, l, i);
        } else {
            lemma_awaited_by(t, l, n);
        }
    }
    assert(t.wf_labels());
    assert forall|i: int| 0 <= i < t.code.insts.len() implies #[trigger] t.branch_tracked(i) by {
        assert(s.branch_tracked(i));
        if s.has_reloc(i) {
            let k = choose|k: int|
                0 <= k < s.code.relocs.len() && (#[trigger] s.code.relocs[k]).reloc.site() == i;
            assert(t.code.relocs[k].reloc.site() == i);
        }
    }
    assert forall|k: int| 0 <= k < t.code.relocs.len() implies t.code.applies(
        #[trigger] t.code.relocs[k],
    ) by {
        assert(s.code.applies(s.code.relocs[k]));
    }
    assert forall|l: int| 0 <= l < t.code.labels.len() implies ((
    #[trigger] t.code.labels[l]) matches Some(pc) ==> pc.0 <= t.code.insts.len()) by {
        if l < s.code.labels.len() {
            assert(s.code.labels[l] matches Some(pc) ==> pc.0 <= s.code.insts.len());
        }
    }
    assert forall|k: int| 0 <= k < t.code.relocs.len() implies t.code.is_label(
        (#[trigger] t.code.relocs[k]).label,
    ) by {
        assert(s.code.is_label(s.code.relocs[k].label));
    }
    assert(t.code.wf());
    assert(t.wf_code());
}

/// The height of the stack after operands were replaced.
pub proof fn lemma_stack_after_len(s: TranslatorState, inputs: nat, outputs: Seq<ValueType>)
    requires
        s.wf(),
    ensures
        s.stack_after(inputs, outputs).len() >= s.floor() + outputs.len(),
        s.stack.len() >= s.floor() + inputs ==> s.stack_after(inputs, outputs).len()
            == s.stack.len() - inputs + outputs.len(),
{
}

/// `block` keeps the invariant as long as the stack can be addressed.
pub proof fn lemma_block_wf(s: TranslatorState, block_type: BlockType)
    requires
        s.wf(),
        s.apply_block(block_type).0.stack.len() <= usize::MAX,
        s.apply_block(block_type).0.code.labels.len() <= usize::MAX,
    ensures
        s.apply_block(block_type).0.wf(),
{
    if s.apply_block(block_type).1 is Ok {
        let params = s.res.block_signature(block_type).unwrap().params;
        let stack = s.stack_after(params.len(), params);
        let labels = s.code.labels.push(None);
        let frame = s.apply_block(block_type).0.frames.last();
        lemma_stack_after_len(s, params.len(), params);
        assert(labels.take(s.code.labels.len() as int) =~= s.code.labels);
        lemma_enter_wf(s, stack, frame, labels);
    }
}

/// `loop` keeps the invariant as long as the stack can be addressed.
pub proof fn lemma_loop_wf(s: TranslatorState, block_type: BlockType)
    requires
        s.wf(),
        s.apply_loop(block_type).0.stack.len() <= usize::MAX,
        s.apply_loop(block_type).0.code.labels.len() <= usize::MAX,
    ensures
        s.apply_loop(block_type).0.wf(),
{
    if s.apply_loop(block_type).1 is Ok {
        let params = s.res.block_signature(block_type).unwrap().params;
        let stack = s.stack_after(params.len(), params);
        let labels = s.code.labels.push(Some(s.code.current_pc()));
        let frame = s.apply_loop(block_type).0.frames.last();
        lemma_stack_after_len(s, params.len(), params);
        assert(labels.take(s.code.labels.len() as int) =~= s.code.labels);
        lemma_enter_wf(s, stack, frame, labels);
    }
}

/// `if` keeps the invariant as long as the stack can be addressed.
pub proof fn lemma_if_wf(s: TranslatorState, block_type: BlockType)
    requires
        s.wf(),
        s.apply_if(block_type).0.stack.len() <= usize::MAX,
        s.apply_if(block_type).0.code.labels.len() <= usize::MAX,
    ensures
        s.apply_if(block_type).0.wf(),
{
    if s.apply_if(block_type).1 is Ok {
        let params = s.res.block_signature(block_type).unwrap().params;
        let stack = s.stack_after(params.len() + 1, params);
        let labels = s.code.labels.push(None).push(None);
        let else_label = LabelIdx(s.code.labels.len() as usize);
        let end_label = LabelIdx((s.code.labels.len() + 1) as usize);
        let frame = ControlFrame::If {
            else_label,
            end_label,
            block_type,
            height: (stack.len() - params.len()) as usize,
            reachable: s.reachable,
        };
        lemma_stack_after_len(s, params.len() + 1, params);
        assert(labels.take(s.code.labels.len() as int) =~= s.code.labels);
        lemma_enter_wf(s, stack, frame, labels);
        let entered = s.enter(stack, frame, labels);
        lemma_emit_branch_wf(
            entered,
            else_label,
            Reloc::Br { inst_idx: s.code.current_pc() },
            DropKeep { drop: 0, keep: 0 },
            BranchKind::BrIfEqz,
        );
    }
}


/// Closing the innermost frame, or replacing it by one of the same height and
/// type, keeps the frames well-formed.
proof fn lemma_rebound_frames_wf(s: TranslatorState, t: TranslatorState)
    requires
        s.wf_frames(),
        s.frames.len() > 0,
        t.res == s.res,
        t.func == s.func,
        t.len_locals == s.len_locals,
        t.frames.len() == s.frames.len() || t.frames.len() == s.frames.len() - 1,
        forall|i: int| 0 <= i < s.frames.len() - 1 ==> t.frames[i] == s.frames[i],
        t.frames.len() == s.frames.len() ==> {
            &&& t.frames.len() > 1
            &&& t.frames.last().height() == s.frames.last().height()
            &&& t.frames.last().block_type() == s.frames.last().block_type()
        },
    ensures
        t.wf_frames(),
{
    assert forall|i: int, j: int| 0 <= i <= j < t.frames.len() implies (
    #[trigger] t.frames[i]).height() <= (#[trigger] t.frames[j]).height() by {
        assert(s.frames[i].height() <= s.frames[j].height());
    }
    assert forall|i: int| 0 <= i < t.frames.len() implies t.res.block_signature(
        (#[trigger] t.frames[i]).block_type(),
    ) is Some by {
        assert(s.res.block_signature(s.frames[i].block_type()) is Some);
    }
    assert forall|i: int| 1 <= i < t.frames.len() implies t.locals() <= (
    #[trigger] t.frames[i]).height() by {
        assert(s.locals() <= s.frames[i].height());
    }
    assert(t.frames.len() > 0 ==> t.frames[0] == s.frames[0]);
}

/// Binding labels of the innermost frame keeps the labels of the frames
/// below it as they are: those frames hold older labels.
proof fn lemma_rebound_lower_frames(s: TranslatorState, t: TranslatorState, i: int)
    requires
        s.wf_labels(),
        s.frames.len() > 0,
        0 <= i < s.frames.len() - 1,
        t.code.labels.len() == s.code.labels.len(),
        forall|l: int|
            0 <= l < s.frames.last().low_label().0 ==> t.code.labels[l] == s.code.labels[l],
    ensures
        t.frame_labels_wf(s.frames[i]),
        s.frames[i].high_label().0 < s.frames.last().low_label().0,
{
    let last = s.frames.len() - 1;
    assert(s.frame_labels_wf(s.frames[i]));
    assert(s.frames[i].high_label().0 < s.frames[last].low_label().0);
    let frame = s.frames[i];
    assert(t.code.labels[frame.low_label().0 as int] == s.code.labels[frame.low_label().0 as int]);
    assert(t.code.labels[frame.high_label().0 as int]
        == s.code.labels[frame.high_label().0 as int]);
}

/// A label that is still unbound after labels of the innermost frame were
/// bound is awaited by a frame that is still open.
proof fn lemma_rebound_awaited(s: TranslatorState, t: TranslatorState, l: int)
    requires
        s.wf_labels(),
        s.frames.len() > 0,
        t.frames.len() == s.frames.len() || t.frames.len() == s.frames.len() - 1,
        forall|i: int| 0 <= i < s.frames.len() - 1 ==> t.frames[i] == s.frames[i],
        0 <= l < s.code.labels.len(),
        s.code.labels[l] is None,
        s.frames.last().waits_for(l) ==> t.frames.len() == s.frames.len()
            && t.frames.last().waits_for(l),
    ensures
        t.is_awaited(l),
{
    let n = s.frames.len() as int;
    let i = lemma_awaiting_frame(s, l);
    if i < n - 1 {
        assert(t.frames[i] == s.frames[i]);
        lemma_awaited_by(t, l, i);
    } else {
        lemma_awaited_by(t, l, n - 1);
    }
}

/// Binding labels of the innermost frame and then closing that frame, or
/// replacing it by one that waits for the labels left unbound, keeps the
/// labels well-formed.
proof fn lemma_rebound_labels_wf(s: TranslatorState, t: TranslatorState)
    requires
        s.wf_labels(),
        s.frames.len() > 0,
        t.code.labels.len() == s.code.labels.len(),
        t.frames.len() == s.frames.len() || t.frames.len() == s.frames.len() - 1,
        forall|i: int| 0 <= i < s.frames.len() - 1 ==> t.frames[i] == s.frames[i],
        t.frames.len() == s.frames.len() ==> {
            &&& t.frame_labels_wf(t.frames.last())
            &&& t.frames.last().low_label().0 >= s.frames.last().low_label().0
        },
        forall|l: int|
            0 <= l < s.frames.last().low_label().0 ==> t.code.labels[l] == s.code.labels[l],
        forall|l: int|
            0 <= l < s.code.labels.len() && (#[trigger] t.code.labels[l]) is None ==> {
                &&& s.code.labels[l] is None
                &&& s.frames.last().waits_for(l) ==> t.frames.len() == s.frames.len()
                    && t.frames.last().waits_for(l)
            },
    ensures
        t.wf_labels(),
{
    let n = s.frames.len() as int;
    assert forall|i: int| 0 <= i < t.frames.len() implies t.frame_labels_wf(
        #[trigger] t.frames[i],
    ) by {
        if i < n - 1 {
            lemma_rebound_lower_frames(s, t, i);
        }
    }
    assert forall|i: int, j: int| 0 <= i < j < t.frames.len() implies (
    #[trigger] t.frames[i]).high_label().0 < (#[trigger] t.frames[j]).low_label().0 by {
        if j < n - 1 {
            assert(s.frames[i].high_label().0 < s.frames[j].low_label().0);
        } else {
            lemma_rebound_lower_frames(s, t, i);
        }
    }
    assert forall|l: int|
        0 <= l < t.code.labels.len() && (#[trigger] t.code.labels[l]) is None implies t.is_awaited(
        l,
    ) by {
        lemma_rebound_awaited(s, t, l);
    }
}

/// Binding labels to positions within the code keeps the code well-formed.
proof fn lemma_rebound_code_wf(s: TranslatorState, t: TranslatorState)
    requires
        s.wf_code(),
        t.code.insts == s.code.insts,
        t.code.relocs == s.code.relocs,
        t.code.labels.len() == s.code.labels.len(),
        forall|l: int|
            0 <= l < t.code.labels.len() ==> ((#[trigger] t.code.labels[l]) matches Some(pc)
                ==> pc.0 <= t.code.insts.len()),
    ensures
        t.wf_code(),
{
    assert forall|i: int| 0 <= i < t.code.insts.len() implies #[trigger] t.branch_tracked(i) by {
        assert(s.branch_tracked(i));
        if s.has_reloc(i) {
            let k = choose|k: int|
                0 <= k < s.code.relocs.len() && (#[trigger] s.code.relocs[k]).reloc.site() == i;
            assert(t.code.relocs[k].reloc.site() == i);
        }
    }
    assert forall|k: int| 0 <= k < t.code.relocs.len() implies t.code.applies(
        #[trigger] t.code.relocs[k],
    ) by {
        assert(s.code.applies(s.code.relocs[k]));
    }
    assert forall|k: int| 0 <= k < t.code.relocs.len() implies t.code.is_label(
        (#[trigger] t.code.relocs[k]).label,
    ) by {
        assert(s.code.is_label(s.code.relocs[k].label));
    }
}

/// A state that is reached from a well-formed one by binding labels of its
/// innermost frame and then closing that frame, or replacing it by one that
/// waits for the labels left unbound, is well-formed if its stack reaches its
/// floor.
proof fn lemma_rebound_wf(s: TranslatorState, t: TranslatorState)
    requires
        s.wf(),
        s.frames.len() > 0,
        t.res == s.res,
        t.func == s.func,
        t.len_locals == s.len_locals,
        t.code.insts == s.code.insts,
        t.code.relocs == s.code.relocs,
        t.code.labels.len() == s.code.labels.len(),
        t.frames.len() == s.frames.len() || t.frames.len() == s.frames.len() - 1,
        forall|i: int| 0 <= i < s.frames.len() - 1 ==> t.frames[i] == s.frames[i],
        t.frames.len() == s.frames.len() ==> {
            &&& t.frames.len() > 1
            &&& t.frame_labels_wf(t.frames.last())
            &&& t.frames.last().low_label().0 >= s.frames.last().low_label().0
            &&& t.frames.last().height() == s.frames.last().height()
            &&& t.frames.last().block_type() == s.frames.last().block_type()
        },
        forall|l: int|
            0 <= l < s.frames.last().low_label().0 ==> t.code.labels[l] == s.code.labels[l],
        forall|l: int|
            0 <= l < s.code.labels.len() ==> match #[trigger] t.code.labels[l] {
                Some(pc) => pc.0 <= s.code.insts.len(),
                None => {
                    &&& s.code.labels[l] is None
                    &&& s.frames.last().waits_for(l) ==> t.frames.len() == s.frames.len()
                        && t.frames.last().waits_for(l)
                },
            },
        t.locals() <= t.stack.len(),
        t.floor() <= t.stack.len(),
        t.stack.len() <= t.max_height <= usize::MAX,
    ensures
        t.wf(),
{
    lemma_rebound_frames_wf(s, t);
    lemma_rebound_labels_wf(s, t);
    lemma_rebound_code_wf(s, t);
}

/// `else` keeps the invariant as long as the stack can be addressed.
pub proof fn lemma_else_wf(s: TranslatorState)
    requires
        s.wf(),
        s.apply_else().0.stack.len() <= usize::MAX,
    ensures
        s.apply_else().0.wf(),
{
    if s.apply_else().1 is Ok {
        let t = s.apply_else().0;
        let n = s.frames.len() as int;
        let frame = s.frames[n - 1];
        assert(s.frame_labels_wf(frame));
        assert(n >= 2) by {
            assert(s.frames[0] is Block);
        }
        assert(s.locals() <= frame.height());
        match frame {
            ControlFrame::If { else_label, end_label, block_type, height, reachable } => {
                let jumped = s.emit_branch(
                    end_label,
                    Reloc::Br { inst_idx: s.code.current_pc() },
                    DropKeep { drop: 0, keep: 0 },
                    BranchKind::Br,
                );
                lemma_emit_branch_wf(
                    s,
                    end_label,
                    Reloc::Br { inst_idx: s.code.current_pc() },
                    DropKeep { drop: 0, keep: 0 },
                    BranchKind::Br,
                );
                assert(jumped.frames == s.frames);
                assert(jumped.code.labels == s.code.labels);
                assert forall|l: int| 0 <= l < jumped.code.labels.len() implies match (
                #[trigger] t.code.labels[l]) {
                    Some(pc) => pc.0 <= jumped.code.insts.len(),
                    None => {
                        &&& jumped.code.labels[l] is None
                        &&& jumped.frames.last().waits_for(l) ==> t.frames.len()
                            == jumped.frames.len() && t.frames.last().waits_for(l)
                    },
                } by {
                    if l != else_label.0 {
                        assert(jumped.code.labels[l] matches Some(pc) ==> pc.0
                            <= jumped.code.insts.len());
                    }
                }
                lemma_rebound_wf(jumped, t);
            },
            _ => {},
        }
    }
}

/// Closing the innermost frame of a well-formed state keeps the invariant:
/// the labels the frame waited for are bound to `pc`, and the stack is cut to
/// the floor and holds `results` above it.
proof fn lemma_close_wf(
    s: TranslatorState,
    t: TranslatorState,
    pc: InstructionIdx,
    results: Seq<ValueType>,
)
    requires
        s.wf(),
        s.frames.len() > 0,
        pc.0 <= s.code.insts.len(),
        t == (TranslatorState {
            frames: s.frames.drop_last(),
            reachable: t.reachable,
            code: InstructionsView {
                labels: match s.frames.last() {
                    ControlFrame::Block { end_label, .. } => s.code.labels.update(
                        end_label.0 as int,
                        Some(pc),
                    ),
                    ControlFrame::Loop { .. } => s.code.labels,
                    ControlFrame::If { else_label, end_label, .. } => s.code.labels.update(
                        else_label.0 as int,
                        Some(pc),
                    ).update(end_label.0 as int, Some(pc)),
                    ControlFrame::Else { end_label, .. } => s.code.labels.update(
                        end_label.0 as int,
                        Some(pc),
                    ),
                },
                ..s.code
            },
            ..s.with_stack(s.stack.take(s.floor() as int) + results)
        }),
        t.stack.len() <= usize::MAX,
    ensures
        t.wf(),
{
    let n = s.frames.len() as int;
    let frame = s.frames[n - 1];
    assert(s.frame_labels_wf(frame));
    lemma_floor_above_frames(s, 0);
    assert(t.floor() <= s.floor()) by {
        if n >= 2 {
            assert(s.frames[n - 2].height() <= s.frames[n - 1].height());
            if n >= 3 {
                assert(t.frames.last() == s.frames[n - 2]);
            } else {
                assert(s.locals() <= s.frames[n - 1].height());
            }
        }
    }
    assert forall|l: int| 0 <= l < s.code.labels.len() implies match (
    #[trigger] t.code.labels[l]) {
        Some(pc) => pc.0 <= s.code.insts.len(),
        None => {
            &&& s.code.labels[l] is None
            &&& s.frames.last().waits_for(l) ==> t.frames.len() == s.frames.len()
                && t.frames.last().waits_for(l)
        },
    } by {
        assert(s.code.labels[l] matches Some(pc) ==> pc.0 <= s.code.insts.len());
    }
    assert forall|i: int| 0 <= i < s.frames.len() - 1 implies t.frames[i] == s.frames[i] by {}
    lemma_rebound_wf(s, t);
}

/// `end` keeps the invariant as long as the stack can be addressed.
pub proof fn lemma_end_wf(s: TranslatorState)
    requires
        s.wf(),
        s.apply_end().0.stack.len() <= usize::MAX,
    ensures
        s.apply_end().0.wf(),
{
    if s.apply_end().1 is Ok {
        let t = s.apply_end().0;
        let frame = s.frames.last();
        let results = s.frame_signature(frame).results;
        let last = Instruction::Return(
            DropKeep {
                drop: (s.stack.len() - results.len()) as usize,
                keep: results.len() as usize,
            },
        );
        if s.frames.len() == 1 {
            lemma_emit_wf(s, last);
            lemma_close_wf(s.emit(last), t, s.code.current_pc(), results);
        } else {
            lemma_close_wf(s, t, s.code.current_pc(), results);
        }
    }
}

/// The initial state satisfies the invariant.
pub proof fn lemma_initial_wf(config: Config, res: ModuleView, func: FuncIdx)
    requires
        res.func_signature(func) is Some,
        res.func_signature(func).unwrap().params.len() <= usize::MAX,
    ensures
        TranslatorState::initial(config, res, func).wf(),
{
    let s = TranslatorState::initial(config, res, func);
    assert(s.frames[0].waits_for(0));
    lemma_awaited_by(s, 0, 0);
    assert(s.wf_stack());
    assert(s.wf_frames());
    assert(s.wf_labels());
    assert(s.wf_code());
}

/// A plain operator keeps the invariant.
pub proof fn lemma_apply_effect_wf(
    s: TranslatorState,
    inputs: Seq<ValueType>,
    outputs: Seq<ValueType>,
    inst: Instruction,
)
    requires
        s.wf(),
        inst.target() is None,
        s.apply_effect(inputs, outputs, inst).0.stack.len() <= usize::MAX,
    ensures
        s.apply_effect(inputs, outputs, inst).0.wf(),
{
    let t = s.apply_effect(inputs, outputs, inst).0;
    if s.apply_effect(inputs, outputs, inst).1 is Ok {
        assert(t.wf_stack());
        assert(t.wf_frames());
        assert(t.frames == s.frames);
        assert(t.code.labels == s.code.labels);
        assert(t.code.relocs == s.code.relocs);
        assert forall|l: int|
            0 <= l < t.code.labels.len() && (
            #[trigger] t.code.labels[l]) is None implies t.is_awaited(
            l,
        ) by {
            lemma_awaited_alike(s, t, l);
        }
        assert forall|i: int| 0 <= i < t.code.insts.len() implies #[trigger] t.branch_tracked(
            i,
        ) by {
            if i < s.code.insts.len() {
                assert(s.branch_tracked(i));
                if s.has_reloc(i) {
                    assert(t.has_reloc(i));
                }
            }
        }
        assert forall|k: int| 0 <= k < t.code.relocs.len() implies t.code.applies(
            #[trigger] t.code.relocs[k],
        ) by {
            assert(s.code.applies(s.code.relocs[k]));
        }
        assert(t.code.wf());
        assert(t.wf_labels());
        assert(t.wf_code());
    }
}


/// Where the targets of a `br_table` pass the check, every one of them names
/// a frame whose values lie on the stack below the index.
pub proof fn lemma_table_checked(s: TranslatorState, depths: Seq<RelativeDepth>, i: int)
    requires
        s.table_error(depths) is None,
        0 <= i < depths.len(),
    ensures
        depths[i].0 < s.frames.len(),
        s.operands_error(
            s.branch_types(s.frame_at(depths[i].0)).push(ValueType::I32),
        ) is None,
    decreases depths.len(),
{
    if i > 0 {
        lemma_table_checked(s, depths.skip(1), i - 1);
    }
}

/// The check of the targets of a `br_table` goes through them in order: if the
/// first `i` pass, the rest decides.
pub proof fn lemma_table_error_skip(s: TranslatorState, depths: Seq<RelativeDepth>, i: int)
    requires
        0 <= i < depths.len(),
        s.table_error(depths) == s.table_error(depths.skip(i)),
        depths[i].0 < s.frames.len(),
        s.operands_error(
            s.branch_types(s.frame_at(depths[i].0)).push(ValueType::I32),
        ) is None,
    ensures
        s.table_error(depths) == s.table_error(depths.skip(i + 1)),
{
    assert(depths.skip(i).first() == depths[i]);
    assert(depths.skip(i).skip(1) =~= depths.skip(i + 1));
}

/// A transfer changes nothing but the code, to which it adds one
/// instruction where the code is reachable.
pub proof fn lemma_transfer_shape(
    s: TranslatorState,
    depth: u32,
    height: nat,
    conditional: bool,
    reloc: Reloc,
)
    ensures
        s.emit_transfer(depth, height, conditional, reloc) == (TranslatorState {
            code: s.emit_transfer(depth, height, conditional, reloc).code,
            ..s
        }),
        s.emit_transfer(depth, height, conditional, reloc).code.labels == s.code.labels,
        s.reachable ==> s.emit_transfer(depth, height, conditional, reloc).code.insts.len()
            == s.code.insts.len() + 1,
        !s.reachable ==> s.emit_transfer(depth, height, conditional, reloc) == s,
{
}

/// Nothing is emitted for the entries of a `br_table` in unreachable code.
pub proof fn lemma_entries_unreachable(
    s: TranslatorState,
    depths: Seq<RelativeDepth>,
    table_pc: InstructionIdx,
    height: nat,
    n: nat,
)
    requires
        !s.reachable,
    ensures
        s.emit_entries(depths, table_pc, height, n) == s,
    decreases n,
{
    if n > 0 {
        lemma_entries_unreachable(s, depths, table_pc, height, (n - 1) as nat);
    }
}

/// Where the targets of a `br_table` pass the check in reachable code, the
/// stack below the index is high enough for the branch to each of them.
pub proof fn lemma_table_entry_fits(s: TranslatorState, depths: Seq<RelativeDepth>, i: int)
    requires
        s.wf(),
        s.reachable,
        s.table_error(depths) is None,
        0 <= i < depths.len(),
    ensures
        depths[i].0 < s.frames.len(),
        s.stack.len() >= 1,
        s.stack.len() - 1 >= s.frame_at(depths[i].0).height() + s.branch_types(
            s.frame_at(depths[i].0),
        ).len(),
{
    lemma_table_checked(s, depths, i);
    lemma_floor_above_frames(s, depths[i].0);
    let inputs = s.branch_types(s.frame_at(depths[i].0)).push(ValueType::I32);
    assert(s.operands_error(inputs) is None);
    assert(inputs.len() == s.branch_types(s.frame_at(depths[i].0)).len() + 1);
}

/// The entries of a `br_table` from number `done` on can be emitted: each of
/// them names a frame, and in reachable code the next one lands where its
/// relocation says, the code has room for all of them, and the stack is high
/// enough for each branch.
pub closed spec fn entries_fit(
    s: TranslatorState,
    depths: Seq<RelativeDepth>,
    table_pc: InstructionIdx,
    height: nat,
    done: nat,
) -> bool {
    &&& forall|i: int| 0 <= i < depths.len() ==> (#[trigger] depths[i]).0 < s.frames.len()
    &&& s.reachable ==> {
        &&& s.code.insts.len() == table_pc.0 + 1 + done
        &&& table_pc.0 + 1 + depths.len() < usize::MAX
        &&& forall|i: int|
            0 <= i < depths.len() ==> height >= s.frame_at((#[trigger] depths[i]).0).height()
                + s.branch_types(s.frame_at(depths[i].0)).len()
    }
}

/// What the next entry of a `br_table` needs, and that the entries behind it
/// can be emitted after it.
pub proof fn lemma_entry_fits(
    s: TranslatorState,
    depths: Seq<RelativeDepth>,
    table_pc: InstructionIdx,
    height: nat,
    done: nat,
)
    requires
        done < depths.len(),
        entries_fit(s, depths, table_pc, height, done),
    ensures
        ({
            let reloc = Reloc::BrTable { inst_idx: table_pc, target_idx: done as usize };
            let t = s.emit_transfer(depths[done as int].0, height, false, reloc);
            &&& depths[done as int].0 < s.frames.len()
            &&& s.has_room(1)
            &&& s.reachable ==> height >= s.frame_at(depths[done as int].0).height()
                + s.branch_types(s.frame_at(depths[done as int].0)).len()
            &&& s.reachable ==> reloc.site() == s.code.insts.len()
            &&& entries_fit(t, depths, table_pc, height, done + 1)
            &&& s.emit_entries(depths, table_pc, height, done).emit_transfer(
                depths[done as int].0,
                height,
                false,
                reloc,
            ) == s.emit_entries(depths, table_pc, height, done + 1)
        }),
{
    let reloc = Reloc::BrTable { inst_idx: table_pc, target_idx: done as usize };
    lemma_transfer_shape(s, depths[done as int].0, height, false, reloc);
    let t = s.emit_transfer(depths[done as int].0, height, false, reloc);
    assert forall|i: int| 0 <= i < depths.len() implies t.frame_at((#[trigger] depths[i]).0)
        == s.frame_at(depths[i].0) by {}
}

/// What holds when the entries of a `br_table` are about to be emitted: after
/// the check of the targets and the emission of the instruction itself, the
/// entries can be emitted, and in unreachable code the height is of no
/// account.
pub proof fn lemma_table_start(s: TranslatorState, depths: Seq<RelativeDepth>, height: nat)
    requires
        s.wf(),
        s.table_error(depths) is None,
        s.has_room(depths.len() + 1),
        s.reachable ==> height == s.stack.len() - 1,
    ensures
        ({
            let start = s.emit(Instruction::BrTable(depths.len() as usize));
            let pc = s.code.current_pc();
            &&& entries_fit(start, depths, pc, height, 0)
            &&& start.emit_entries(depths, pc, height, depths.len()) == start.emit_entries(
                depths,
                pc,
                (s.stack.len() - 1) as nat,
                depths.len(),
            )
        }),
{
    let start = s.emit(Instruction::BrTable(depths.len() as usize));
    let pc = s.code.current_pc();
    assert forall|i: int| 0 <= i < depths.len() implies (#[trigger] depths[i]).0
        < start.frames.len() by {
        lemma_table_checked(s, depths, i);
    }
    if start.reachable {
        assert forall|i: int| 0 <= i < depths.len() implies height >= start.frame_at(
            (#[trigger] depths[i]).0,
        ).height() + start.branch_types(start.frame_at(depths[i].0)).len() by {
            lemma_table_entry_fits(s, depths, i);
            assert(start.frame_at(depths[i].0) == s.frame_at(depths[i].0));
        }
    } else {
        lemma_entries_unreachable(start, depths, pc, height, depths.len());
        lemma_entries_unreachable(start, depths, pc, (s.stack.len() - 1) as nat, depths.len());
    }
}

} // verus!
