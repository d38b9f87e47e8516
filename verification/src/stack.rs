use vstd::prelude::*;

verus! {

/// Number of return addresses the call stack can hold.
pub const STACK_CAPACITY: usize = 16;

/// A bounded stack of saved program counters.
///
/// Its view is the sequence of live entries, oldest first. Slots above the
/// stack pointer are not part of the view.
pub struct CallStack {
    slots: [usize; 16],
    pointer: usize,
}

impl View for CallStack {
    type V = Seq<nat>;

    closed spec fn view(&self) -> Seq<nat> {
        Seq::new(self.depth(), |i: int| self.slots[i] as nat)
    }
}

impl CallStack {
    #[verifier::type_invariant]
    spec fn within_capacity(&self) -> bool {
        self.pointer <= STACK_CAPACITY
    }

    /// The stack pointer, which the capacity bounds.
    spec fn depth(&self) -> nat {
        if self.pointer <= STACK_CAPACITY {
            self.pointer as nat
        } else {
            STACK_CAPACITY as nat
        }
    }

    /// A call stack never holds more entries than its capacity.
    pub proof fn lemma_within_capacity(&self)
        ensures
            self@.len() <= STACK_CAPACITY,
    {
    }

    /// An empty stack.
    pub fn new() -> (s: CallStack)
        ensures
            s@ == Seq::<nat>::empty(),
    {
        let s = CallStack { slots: [0; 16], pointer: 0 };
        assert(s@ =~= Seq::<nat>::empty());
        s
    }

    /// Number of live entries; never more than the capacity.
    pub fn len(&self) -> (n: usize)
        ensures
            n == self@.len(),
            n <= STACK_CAPACITY,
    {
        proof {
            use_type_invariant(self);
        }
        self.pointer
    }

    /// Saves `value` on top of the stack; hands it back, leaving the stack
    /// as it was, when the stack is already full.
    pub fn push(&mut self, value: usize) -> (r: Result<(), usize>)
        ensures
            old(self)@.len() < STACK_CAPACITY ==> r is Ok && final(self)@ == old(self)@.push(
                value as nat,
            ),
            old(self)@.len() >= STACK_CAPACITY ==> r == Err::<(), usize>(value) && final(self)@
                == old(self)@,
    {
        proof {
            use_type_invariant(&*self);
        }
        if self.pointer >= STACK_CAPACITY {
            return Err(value);
        }
        self.slots[self.pointer] = value;
        self.pointer = self.pointer + 1;
        assert(self@ =~= old(self)@.push(value as nat));
        Ok(())
    }

    /// Removes and returns the most recent entry, or `None` when empty.
    pub fn pop(&mut self) -> (r: Option<usize>)
        ensures
            old(self)@.len() == 0 ==> r is None && final(self)@ == old(self)@,
            old(self)@.len() > 0 ==> r is Some && r->0 as nat == old(self)@.last() && final(self)@
                == old(self)@.drop_last(),
    {
        proof {
            use_type_invariant(&*self);
        }
        if self.pointer == 0 {
            return None;
        }
        self.pointer = self.pointer - 1;
        let value: usize = self.slots[self.pointer];
        assert(self@ =~= old(self)@.drop_last());
        Some(value)
    }
}

} // verus!
