use vstd::prelude::*;

verus! {

/// Capacity reserved up front for a fresh stack.
pub const INIT_STACK_CAPACITY: usize = 64;

/// A last-in, first-out stack of virtual-machine values.
#[derive(Debug)]
pub struct Stack {
    data: Vec<StackItem>,
}

/// One value held on the stack: either an immediate 32-bit integer or the
/// index of an interned string.
#[derive(Debug, Clone, Copy, PartialEq, Eq, Structural)]
pub enum StackItem {
    I32(i32),
    String(u32),
}

impl View for Stack {
    type V = Seq<StackItem>;

    closed spec fn view(&self) -> Seq<StackItem> {
        self.data@
    }
}

impl Stack {
    /// An empty stack.
    pub fn new() -> (s: Self)
        ensures
            s@ == Seq::<StackItem>::empty(),
    {
        Self { data: Vec::with_capacity(INIT_STACK_CAPACITY) }
    }

    /// Pushes `item` on top of the stack.
    pub fn push(&mut self, item: StackItem)
        ensures
            final(self)@ == old(self)@.push(item),
    {
        self.data.push(item);
    }

    /// Removes and returns the top of the stack, or `None` when the stack
    /// is empty.
    pub fn pop(&mut self) -> (item: Option<StackItem>)
        ensures
            old(self)@.len() == 0 ==> item is None && final(self)@ == old(self)@,
            old(self)@.len() > 0 ==> item == Some(old(self)@.last()) && final(self)@ == old(
                self,
            )@.drop_last(),
    {
        self.data.pop()
    }

    /// Removes every item from the stack.
    pub fn clear(&mut self)
        ensures
            final(self)@ == Seq::<StackItem>::empty(),
    {
        self.data.clear();
    }

    /// How many items the stack holds.
    pub fn get_size(&self) -> (n: usize)
        ensures
            n == self@.len(),
    {
        self.data.len()
    }
}

} // verus!
