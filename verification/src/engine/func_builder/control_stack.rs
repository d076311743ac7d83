//! The stack of the control frames that are open.

use super::control_frame::ControlFrame;
use vstd::prelude::*;

verus! {

/// The stack of control flow frames, outermost first.
///
/// The first frame is the block of the function body itself; branching to it
/// is returning from the function.
#[derive(Debug)]
pub struct ControlFlowStack {
    frames: Vec<ControlFrame>,
}

impl View for ControlFlowStack {
    type V = Seq<ControlFrame>;

    closed spec fn view(&self) -> Seq<ControlFrame> {
        self.frames@
    }
}

impl ControlFlowStack {
    /// Creates a stack without frames.
    pub fn new() -> (stack: ControlFlowStack)
        ensures
            stack@.len() == 0,
    {
        ControlFlowStack { frames: Vec::new() }
    }

    /// Returns the current depth of the stack.
    pub fn len(&self) -> (len: usize)
        ensures
            len == self@.len(),
    {
        self.frames.len()
    }

    /// Returns `true` if no frame is open.
    pub fn is_empty(&self) -> (empty: bool)
        ensures
            empty <==> self@.len() == 0,
    {
        self.frames.len() == 0
    }

    /// Pushes a new control flow frame.
    pub fn push_frame(&mut self, frame: ControlFrame)
        ensures
            final(self)@ == old(self)@.push(frame),
    {
        self.frames.push(frame)
    }

    /// Pops the innermost control flow frame.
    pub fn pop_frame(&mut self) -> (frame: ControlFrame)
        requires
            old(self)@.len() > 0,
        ensures
            frame == old(self)@.last(),
            final(self)@ == old(self)@.drop_last(),
    {
        let frame = self.frames.pop();
        frame.unwrap()
    }

    /// Returns the outermost control flow frame: the one of the function body.
    pub fn first(&self) -> (frame: &ControlFrame)
        requires
            self@.len() > 0,
        ensures
            *frame == self@.first(),
    {
        &self.frames[0]
    }

    /// Returns the innermost control flow frame.
    pub fn last(&self) -> (frame: &ControlFrame)
        requires
            self@.len() > 0,
        ensures
            *frame == self@.last(),
    {
        &self.frames[self.frames.len() - 1]
    }

    /// Returns the control flow frame at the given depth; the innermost frame
    /// has depth 0.
    pub fn nth_back(&self, depth: u32) -> (frame: Option<&ControlFrame>)
        ensures
            frame is Some <==> depth < self@.len(),
            frame matches Some(f) ==> *f == self@[self@.len() - 1 - depth],
    {
        let len = self.frames.len();
        if (depth as usize) < len {
            Some(&self.frames[len - 1 - depth as usize])
        } else {
            None
        }
    }

    /// Returns an exclusive reference to the innermost control flow frame.
    pub fn last_mut(&mut self) -> (frame: &mut ControlFrame)
        requires
            old(self)@.len() > 0,
        ensures
            *frame == old(self)@.last(),
            final(self)@ == old(self)@.update(old(self)@.len() - 1, *final(frame)),
    {
        let len = self.frames.len();
        &mut self.frames[len - 1]
    }

    /// Returns an exclusive reference to the control flow frame at the given
    /// depth. A depth of 0 names the innermost frame, as [`ControlFlowStack::last_mut`]
    /// does.
    pub fn nth_back_mut(&mut self, depth: u32) -> (frame: &mut ControlFrame)
        requires
            depth < old(self)@.len(),
        ensures
            *frame == old(self)@[old(self)@.len() - 1 - depth],
            final(self)@ == old(self)@.update(old(self)@.len() - 1 - depth, *final(frame)),
    {
        let len = self.frames.len();
        &mut self.frames[len - 1 - depth as usize]
    }
}

} // verus!
