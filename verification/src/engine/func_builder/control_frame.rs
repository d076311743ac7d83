//! The frames of the structured control operators that are open at some point
//! of the translation.

use super::inst_builder::LabelIdx;
use crate::module::BlockType;
use vstd::prelude::*;

verus! {

/// An open `block`, `loop`, `if` or `else`.
///
/// Each variant holds the labels that its branches and its end need. Besides
/// them a frame records the type the block was declared with, the height of
/// the value stack below the block's parameters, and whether the block was
/// entered by reachable code.
#[derive(Clone, Copy, Debug, PartialEq, Eq, Structural)]
pub enum ControlFrame {
    /// A `block`: branches to it continue behind its `end`.
    Block { end_label: LabelIdx, block_type: BlockType, height: usize, reachable: bool },
    /// A `loop`: branches to it continue at its first instruction.
    Loop { header: LabelIdx, block_type: BlockType, height: usize, reachable: bool },
    /// The first arm of an `if`: a false condition continues at the `else`, or
    /// behind the `end` where there is no `else`.
    If {
        else_label: LabelIdx,
        end_label: LabelIdx,
        block_type: BlockType,
        height: usize,
        reachable: bool,
    },
    /// The second arm of an `if`; it takes the place of the `If` frame.
    Else { end_label: LabelIdx, block_type: BlockType, height: usize, reachable: bool },
}

impl ControlFrame {
    /// The type that the block was declared with.
    pub open spec fn spec_block_type(self) -> BlockType {
        match self {
            ControlFrame::Block { block_type, .. } => block_type,
            ControlFrame::Loop { block_type, .. } => block_type,
            ControlFrame::If { block_type, .. } => block_type,
            ControlFrame::Else { block_type, .. } => block_type,
        }
    }

    /// Returns the type that the block was declared with.
    #[verifier::when_used_as_spec(spec_block_type)]
    pub fn block_type(self) -> (block_type: BlockType)
        ensures
            block_type == self.spec_block_type(),
    {
        match self {
            ControlFrame::Block { block_type, .. } => block_type,
            ControlFrame::Loop { block_type, .. } => block_type,
            ControlFrame::If { block_type, .. } => block_type,
            ControlFrame::Else { block_type, .. } => block_type,
        }
    }

    /// The height of the value stack at the entry of the block, below the
    /// block's parameters.
    pub open spec fn spec_height(self) -> usize {
        match self {
            ControlFrame::Block { height, .. } => height,
            ControlFrame::Loop { height, .. } => height,
            ControlFrame::If { height, .. } => height,
            ControlFrame::Else { height, .. } => height,
        }
    }

    /// Returns the height of the value stack at the entry of the block, below
    /// the block's parameters.
    #[verifier::when_used_as_spec(spec_height)]
    pub fn height(self) -> (height: usize)
        ensures
            height == self.spec_height(),
    {
        match self {
            ControlFrame::Block { height, .. } => height,
            ControlFrame::Loop { height, .. } => height,
            ControlFrame::If { height, .. } => height,
            ControlFrame::Else { height, .. } => height,
        }
    }

    /// The block was entered by reachable code.
    pub open spec fn spec_is_reachable(self) -> bool {
        match self {
            ControlFrame::Block { reachable, .. } => reachable,
            ControlFrame::Loop { reachable, .. } => reachable,
            ControlFrame::If { reachable, .. } => reachable,
            ControlFrame::Else { reachable, .. } => reachable,
        }
    }

    /// Returns `true` if the block was entered by reachable code.
    #[verifier::when_used_as_spec(spec_is_reachable)]
    pub fn is_reachable(self) -> (reachable: bool)
        ensures
            reachable == self.spec_is_reachable(),
    {
        match self {
            ControlFrame::Block { reachable, .. } => reachable,
            ControlFrame::Loop { reachable, .. } => reachable,
            ControlFrame::If { reachable, .. } => reachable,
            ControlFrame::Else { reachable, .. } => reachable,
        }
    }

    /// The label at which a branch to this frame continues: the header of a
    /// loop, the end of every other block.
    pub open spec fn spec_branch_destination(self) -> LabelIdx {
        match self {
            ControlFrame::Block { end_label, .. } => end_label,
            ControlFrame::Loop { header, .. } => header,
            ControlFrame::If { end_label, .. } => end_label,
            ControlFrame::Else { end_label, .. } => end_label,
        }
    }

    /// Returns the label at which a branch to this frame continues: the header
    /// of a loop, the end of every other block.
    #[verifier::when_used_as_spec(spec_branch_destination)]
    pub fn branch_destination(self) -> (label: LabelIdx)
        ensures
            label == self.spec_branch_destination(),
    {
        match self {
            ControlFrame::Block { end_label, .. } => end_label,
            ControlFrame::Loop { header, .. } => header,
            ControlFrame::If { end_label, .. } => end_label,
            ControlFrame::Else { end_label, .. } => end_label,
        }
    }

    /// The label that is bound when the frame ends; a loop has none, since its
    /// only label was bound at its start.
    pub open spec fn spec_end_label(self) -> Option<LabelIdx> {
        match self {
            ControlFrame::Block { end_label, .. } => Some(end_label),
            ControlFrame::Loop { .. } => None,
            ControlFrame::If { end_label, .. } => Some(end_label),
            ControlFrame::Else { end_label, .. } => Some(end_label),
        }
    }

    /// Returns the label that is bound when the frame ends; a loop has none.
    #[verifier::when_used_as_spec(spec_end_label)]
    pub fn end_label(self) -> (label: Option<LabelIdx>)
        ensures
            label == self.spec_end_label(),
    {
        match self {
            ControlFrame::Block { end_label, .. } => Some(end_label),
            ControlFrame::Loop { .. } => None,
            ControlFrame::If { end_label, .. } => Some(end_label),
            ControlFrame::Else { end_label, .. } => Some(end_label),
        }
    }

    /// The label that an `else` binds: only the first arm of an `if` has one.
    pub open spec fn spec_else_label(self) -> Option<LabelIdx> {
        match self {
            ControlFrame::If { else_label, .. } => Some(else_label),
            _ => None,
        }
    }

    /// Returns the label that an `else` binds: only the first arm of an `if`
    /// has one.
    #[verifier::when_used_as_spec(spec_else_label)]
    pub fn else_label(self) -> (label: Option<LabelIdx>)
        ensures
            label == self.spec_else_label(),
    {
        match self {
            ControlFrame::If { else_label, .. } => Some(else_label),
            _ => None,
        }
    }

    /// The frame is a loop.
    pub open spec fn spec_is_loop(self) -> bool {
        self is Loop
    }

    /// Returns `true` if the frame is a loop.
    #[verifier::when_used_as_spec(spec_is_loop)]
    pub fn is_loop(self) -> (is_loop: bool)
        ensures
            is_loop == self.spec_is_loop(),
    {
        match self {
            ControlFrame::Loop { .. } => true,
            _ => false,
        }
    }
}

} // verus!
