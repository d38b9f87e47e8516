use vstd::prelude::*;
use crate::alu::{
    spec_add_with_carry, spec_reverse_sub_with_borrow, spec_shift_left, spec_shift_right,
    spec_sub_with_borrow, Outcome,
};
use crate::fault::Fault;
use crate::instruction::{spec_decode, spec_word, Operation};
use crate::stack::STACK_CAPACITY;

verus! {

/// Number of registers.
pub const REGISTER_COUNT: usize = 16;

/// Index of the register that receives the carry, borrow or shifted-out bit.
pub const FLAG_REGISTER: usize = 15;

/// Number of bytes of memory.
pub const MEMORY_SIZE: usize = 4096;

/// How one instruction, or a run of them, ended.
#[derive(Clone, Copy, Debug, PartialEq, Eq, Structural)]
pub enum Status {
    /// The instruction completed; the next one can be fetched.
    Running,
    /// The halt instruction was fetched.
    Halted,
    /// A fatal condition arose.
    Faulted(Fault),
}

/// The architectural state as mathematical values: what the contracts of
/// the engine speak of.
pub struct Machine {
    pub registers: Seq<u8>,
    pub memory: Seq<u8>,
    /// Offset in memory of the next instruction.
    pub pc: nat,
    /// Saved program counters, oldest first.
    pub stack: Seq<nat>,
}

impl Machine {
    /// The state after construction or reset: everything zero, stack empty.
    pub open spec fn zeroed() -> Machine {
        Machine {
            registers: Seq::new(REGISTER_COUNT as nat, |i: int| 0u8),
            memory: Seq::new(MEMORY_SIZE as nat, |i: int| 0u8),
            pc: 0,
            stack: Seq::empty(),
        }
    }

    /// The shape every state of the engine has: sixteen registers, 4096
    /// bytes of memory, and a call stack within its capacity.
    pub open spec fn well_formed(self) -> bool {
        &&& self.registers.len() == REGISTER_COUNT
        &&& self.memory.len() == MEMORY_SIZE
        &&& self.stack.len() <= STACK_CAPACITY
    }

    /// The state after a reset, whatever the state before.
    pub open spec fn reset(self) -> Machine {
        Machine::zeroed()
    }

    /// The state with register `x` set to `value`.
    pub open spec fn store(self, x: u8, value: u8) -> Machine {
        Machine { registers: self.registers.update(x as int, value), ..self }
    }

    /// The state after an arithmetic or shift instruction on register `x`:
    /// the flag is written first, then the target where there is a value
    /// to store, so that value stands where `x` is the flag register itself.
    pub open spec fn store_with_flag(self, x: u8, outcome: Outcome) -> Machine {
        let flagged = self.registers.update(FLAG_REGISTER as int, outcome.flag);
        Machine {
            registers: match outcome.value {
                Some(value) => flagged.update(x as int, value),
                None => flagged,
            },
            ..self
        }
    }

    /// The instruction word at the program counter, or `None` where its
    /// second byte would lie beyond the end of memory.
    pub open spec fn fetch(self) -> Option<u16> {
        if self.pc + 1 < self.memory.len() {
            Some(spec_word(self.memory[self.pc as int], self.memory[self.pc as int + 1]))
        } else {
            None
        }
    }

    /// Call: saves the program counter and jumps to `addr`, unless the
    /// stack is full.
    pub open spec fn call(self, addr: u16) -> Result<Machine, Fault> {
        if self.stack.len() >= STACK_CAPACITY {
            Err(Fault::StackOverflow)
        } else {
            Ok(Machine { pc: addr as nat, stack: self.stack.push(self.pc), ..self })
        }
    }

    /// Return: resumes at the most recently saved program counter, unless
    /// the stack is empty.
    pub open spec fn ret(self) -> Result<Machine, Fault> {
        if self.stack.len() == 0 {
            Err(Fault::StackUnderflow)
        } else {
            Ok(Machine { pc: self.stack.last(), stack: self.stack.drop_last(), ..self })
        }
    }

    /// The state and status after a control-flow instruction: a fault
    /// leaves the state as it is.
    pub open spec fn after_jump(self, jump: Result<Machine, Fault>) -> (Machine, Status) {
        match jump {
            Ok(next) => (next, Status::Running),
            Err(fault) => (self, Status::Faulted(fault)),
        }
    }

    /// The effect of one decoded instruction.
    pub open spec fn execute(self, op: Operation) -> (Machine, Status) {
        let r = self.registers;
        match op {
            Operation::Halt => (self, Status::Halted),
            Operation::Return => self.after_jump(self.ret()),
            Operation::Call { addr } => self.after_jump(self.call(addr)),
            Operation::Assign { x, y } => (self.store(x, r[y as int]), Status::Running),
            Operation::Or { x, y } => (self.store(x, r[x as int] | r[y as int]), Status::Running),
            Operation::And { x, y } => (self.store(x, r[x as int] & r[y as int]), Status::Running),
            Operation::Xor { x, y } => (self.store(x, r[x as int] ^ r[y as int]), Status::Running),
            Operation::Add { x, y } => (
                self.store_with_flag(x, spec_add_with_carry(r[x as int], r[y as int])),
                Status::Running,
            ),
            Operation::Sub { x, y } => (
                self.store_with_flag(x, spec_sub_with_borrow(r[x as int], r[y as int])),
                Status::Running,
            ),
            Operation::ShiftRight { x } => (
                self.store_with_flag(x, spec_shift_right(r[x as int])),
                Status::Running,
            ),
            Operation::ReverseSub { x, y } => (
                self.store_with_flag(x, spec_reverse_sub_with_borrow(r[x as int], r[y as int])),
                Status::Running,
            ),
            Operation::ShiftLeft { x } => (
                self.store_with_flag(x, spec_shift_left(r[x as int])),
                Status::Running,
            ),
        }
    }

    /// One fetch-decode-execute cycle. A failed fetch leaves the state as
    /// it is; otherwise the program counter moves past the instruction
    /// before the instruction takes effect.
    pub open spec fn step(self) -> (Machine, Status) {
        match self.fetch() {
            None => (self, Status::Faulted(Fault::OutOfBounds)),
            Some(word) => {
                let advanced = Machine { pc: self.pc + 2, ..self };
                match spec_decode(word) {
                    None => (advanced, Status::Faulted(Fault::UnimplementedOpcode)),
                    Some(op) => advanced.execute(op),
                }
            },
        }
    }

    /// The state and status after at most `n` cycles, stopping early at
    /// the first cycle that halts or faults.
    pub open spec fn run_for(self, n: nat) -> (Machine, Status)
        decreases n,
    {
        if n == 0 {
            (self, Status::Running)
        } else {
            let (next, status) = self.step();
            if status == Status::Running {
                next.run_for((n - 1) as nat)
            } else {
                (next, status)
            }
        }
    }

    /// Execution halts or faults within `n` cycles.
    pub open spec fn stops_within(self, n: nat) -> bool {
        self.run_for(n).1 != Status::Running
    }

    /// Execution halts or faults after some number of cycles.
    pub open spec fn terminates(self) -> bool {
        exists|n: nat| self.stops_within(n)
    }

    /// The status that the result of a run stands for.
    pub open spec fn status_of(result: Result<(), Fault>) -> Status {
        match result {
            Ok(_) => Status::Halted,
            Err(fault) => Status::Faulted(fault),
        }
    }

    /// Once execution has stopped, more cycles change nothing.
    pub proof fn lemma_stop_is_final(self, a: nat, b: nat)
        requires
            self.stops_within(a),
            a <= b,
        ensures
            self.run_for(b) == self.run_for(a),
        decreases a,
    {
        let (next, status) = self.step();
        if a > 0 && status == Status::Running {
            next.lemma_stop_is_final((a - 1) as nat, (b - 1) as nat);
        }
    }

    /// Any two bounds within which execution stops give the same state and
    /// status.
    pub proof fn lemma_stops_agree(self, a: nat, b: nat)
        requires
            self.stops_within(a),
            self.stops_within(b),
        ensures
            self.run_for(a) == self.run_for(b),
    {
        if a <= b {
            self.lemma_stop_is_final(a, b);
        } else {
            self.lemma_stop_is_final(b, a);
        }
    }

    /// A run that is still going after `n` cycles continues with one more
    /// cycle from the state it has reached.
    pub proof fn lemma_run_for_extends(self, n: nat)
        requires
            self.run_for(n).1 == Status::Running,
        ensures
            self.run_for(n + 1) == self.run_for(n).0.step(),
        decreases n,
    {
        reveal_with_fuel(Machine::run_for, 2);
        let (next, status) = self.step();
        if n > 0 {
            assert(status == Status::Running);
            next.lemma_run_for_extends((n - 1) as nat);
            assert(self.run_for(n + 1) == next.run_for(n));
        }
    }
}

} // verus!
