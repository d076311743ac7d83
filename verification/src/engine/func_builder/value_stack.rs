//! The translator's shadow of the value stack: the types of the values that
//! will be live at run time, never the values themselves.

use crate::value::ValueType;
use vstd::prelude::*;

verus! {

/// The types of the values on the emulated stack, bottom first, together with
/// the greatest height the stack has had.
#[derive(Debug)]
pub struct ValueStack {
    values: Vec<ValueType>,
    max_height: usize,
}

impl View for ValueStack {
    type V = Seq<ValueType>;

    closed spec fn view(&self) -> Seq<ValueType> {
        self.values@
    }
}

impl ValueStack {
    /// The greatest height that the stack has had since it was created.
    pub closed spec fn max_stack_height(&self) -> nat {
        self.max_height as nat
    }

    /// The counter is never below the present height.
    pub closed spec fn wf(&self) -> bool {
        self.values@.len() <= self.max_height
    }

    /// The counter is never below the present height.
    pub proof fn lemma_max_height(&self)
        requires
            self.wf(),
        ensures
            self@.len() <= self.max_stack_height(),
    {
    }

    /// The height of the stack can be counted.
    pub proof fn lemma_len_fits(&self)
        ensures
            self@.len() <= usize::MAX,
    {
        assert(self.values.len() == self.values@.len());
    }

    /// Creates an empty stack.
    pub fn new() -> (stack: ValueStack)
        ensures
            stack@.len() == 0,
            stack.max_stack_height() == 0,
            stack.wf(),
    {
        ValueStack { values: Vec::new(), max_height: 0 }
    }

    /// Returns the present height of the stack.
    pub fn len(&self) -> (len: usize)
        ensures
            len == self@.len(),
    {
        self.values.len()
    }

    /// Returns `true` if the stack holds no type.
    pub fn is_empty(&self) -> (empty: bool)
        ensures
            empty <==> self@.len() == 0,
    {
        self.values.len() == 0
    }

    /// Returns the greatest height that the stack has had.
    pub fn max_height(&self) -> (max: usize)
        ensures
            max == self.max_stack_height(),
    {
        self.max_height
    }

    /// Returns the type at the given height, counted from the bottom.
    pub fn get(&self, index: usize) -> (ty: Option<ValueType>)
        ensures
            ty == (if index < self@.len() {
                Some(self@[index as int])
            } else {
                None
            }),
    {
        if index < self.values.len() {
            Some(self.values[index])
        } else {
            None
        }
    }

    /// Returns the type at the given distance from the top; the top itself has
    /// distance 0.
    pub fn peek(&self, depth: usize) -> (ty: Option<ValueType>)
        ensures
            ty == (if depth < self@.len() {
                Some(self@[self@.len() - 1 - depth])
            } else {
                None
            }),
    {
        let len = self.values.len();
        if depth < len {
            Some(self.values[len - 1 - depth])
        } else {
            None
        }
    }

    /// Pushes a type.
    pub fn push(&mut self, ty: ValueType)
        requires
            old(self).wf(),
        ensures
            final(self).wf(),
            final(self)@ == old(self)@.push(ty),
            final(self).max_stack_height() == (if old(self)@.len() + 1 > old(
                self,
            ).max_stack_height() {
                old(self)@.len() + 1
            } else {
                old(self).max_stack_height()
            }),
    {
        self.values.push(ty);
        let len = self.values.len();
        if len > self.max_height {
            self.max_height = len;
        }
    }

    /// Pops the top type, if there is one.
    pub fn pop(&mut self) -> (ty: Option<ValueType>)
        requires
            old(self).wf(),
        ensures
            final(self).wf(),
            final(self).max_stack_height() == old(self).max_stack_height(),
            old(self)@.len() == 0 ==> ty is None && final(self)@ == old(self)@,
            old(self)@.len() > 0 ==> ty == Some(old(self)@.last()) && final(self)@ == old(
                self,
            )@.drop_last(),
    {
        self.values.pop()
    }

    /// Cuts the stack down to the given height; a stack that is not higher
    /// stays as it is.
    pub fn shrink_to(&mut self, height: usize)
        requires
            old(self).wf(),
        ensures
            final(self).wf(),
            final(self).max_stack_height() == old(self).max_stack_height(),
            final(self)@ == (if height <= old(self)@.len() {
                old(self)@.take(height as int)
            } else {
                old(self)@
            }),
    {
        self.values.truncate(height);
    }
}

} // verus!
