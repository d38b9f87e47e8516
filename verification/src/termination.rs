use vstd::prelude::*;
use crate::machine::{Machine, Status};
use crate::stack::STACK_CAPACITY;

verus! {

impl Machine {
    /// Number of bytes from `at` to the end of memory.
    pub open spec fn remaining(self, at: nat) -> nat {
        if at < self.memory.len() {
            (self.memory.len() - at) as nat
        } else {
            0
        }
    }

    /// The measure of progress at one level of the call stack: for a
    /// level below the stack pointer, what is left of memory after the
    /// saved program counter, plus one; for the level of the stack pointer,
    /// what is left after the program counter, plus one; above that, zero.
    pub open spec fn rank(self, level: nat) -> nat {
        if level < self.stack.len() {
            self.remaining(self.stack[level as int]) + 1
        } else if level == self.stack.len() {
            self.remaining(self.pc) + 1
        } else {
            0
        }
    }

    /// Every program stops. Read from the bottom of the call stack upwards,
    /// the ranks fall in lexicographic order with every cycle that
    /// completes: a plain instruction lowers the rank at the top, a call
    /// lowers it and opens a level above, and a return closes the top level
    /// and leaves the others as they were. Nothing jumps backwards without
    /// using up the stack, so execution runs off the end of memory, faults
    /// or halts.
    pub proof fn lemma_terminates(self)
        requires
            self.stack.len() <= STACK_CAPACITY,
        ensures
            self.terminates(),
        decreases
            self.rank(0),
            self.rank(1),
            self.rank(2),
            self.rank(3),
            self.rank(4),
            self.rank(5),
            self.rank(6),
            self.rank(7),
            self.rank(8),
            self.rank(9),
            self.rank(10),
            self.rank(11),
            self.rank(12),
            self.rank(13),
            self.rank(14),
            self.rank(15),
            self.rank(16),
    {
        reveal_with_fuel(Machine::run_for, 2);
        let (next, status) = self.step();
        if status == Status::Running {
            next.lemma_terminates();
            let n = choose|n: nat| next.stops_within(n);
            assert(self.run_for(n + 1) == next.run_for(n));
            assert(self.stops_within(n + 1));
        } else {
            assert(self.stops_within(1));
        }
    }

    /// The state and status in which execution stops.
    pub open spec fn outcome(self) -> (Machine, Status) {
        self.run_for(choose|n: nat| self.stops_within(n))
    }

    /// Where execution stops within `n` cycles, the outcome is what `n`
    /// cycles give.
    pub proof fn lemma_outcome(self, n: nat)
        requires
            self.stops_within(n),
        ensures
            self.outcome() == self.run_for(n),
            self.outcome().1 != Status::Running,
    {
        self.lemma_stops_agree(n, choose|k: nat| self.stops_within(k));
    }
}

} // verus!
