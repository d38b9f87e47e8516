use vstd::prelude::*;
use crate::alu::{
    add_with_carry, reverse_sub_with_borrow, shift_left, shift_right, spec_add_with_carry,
    spec_reverse_sub_with_borrow, spec_shift_left, spec_shift_right, spec_sub_with_borrow,
    sub_with_borrow, Outcome,
};
use crate::fault::Fault;
use crate::instruction::{decode, word, Operation};
use crate::machine::{Machine, Status};
use crate::stack::CallStack;

verus! {

/// The execution engine.
///
/// NNN: address
/// X and Y: 4-bit register identifier
/// VN: one of the 16 registers, N from 0 to F (hexadecimal)
pub struct Cpu {
    /// V0 to VF. VF receives the carry, borrow or shifted-out bit.
    pub registers: [u8; 16],
    /// The program image; the engine reads it and never writes to it.
    pub memory: [u8; 4096],
    /// Offset in memory of the next instruction.
    pub position_in_memory: usize,
    /// Return addresses of the subroutines being executed.
    pub stack: CallStack,
}

impl View for Cpu {
    type V = Machine;

    open spec fn view(&self) -> Machine {
        Machine {
            registers: self.registers@,
            memory: self.memory@,
            pc: self.position_in_memory as nat,
            stack: self.stack@,
        }
    }
}

impl Default for Cpu {
    fn default() -> (cpu: Cpu)
        ensures
            cpu@ == Machine::zeroed(),
    {
        let cpu = Cpu {
            registers: [0; 16],
            memory: [0; 4096],
            position_in_memory: 0,
            stack: CallStack::new(),
        };
        assert(cpu.registers@ =~= Machine::zeroed().registers);
        assert(cpu.memory@ =~= Machine::zeroed().memory);
        cpu
    }
}

impl Cpu {
    /// Resets the internal state and clears all memory.
    pub fn reset(&mut self)
        ensures
            final(self)@ == old(self)@.reset(),
    {
        self.registers = [0; 16];
        self.memory = [0; 4096];
        self.stack = CallStack::new();
        self.position_in_memory = 0;
        assert(self.registers@ =~= Machine::zeroed().registers);
        assert(self.memory@ =~= Machine::zeroed().memory);
    }

    /// Number of return addresses on the call stack.
    pub fn stack_pointer(&self) -> (n: usize)
        ensures
            n == self@.stack.len(),
            n <= 16,
    {
        self.stack.len()
    }

    /// Performs a jump and calls a subroutine: 0x2NNN.
    pub fn call(&mut self, addr: u16) -> (r: Result<(), Fault>)
        ensures
            match old(self)@.call(addr) {
                Ok(next) => r is Ok && final(self)@ == next,
                Err(fault) => r == Err::<(), Fault>(fault) && final(self)@ == old(self)@,
            },
    {
        match self.stack.push(self.position_in_memory) {
            Ok(()) => {
                self.position_in_memory = addr as usize;
                Ok(())
            },
            Err(_) => Err(Fault::StackOverflow),
        }
    }

    /// Returns from a subroutine: 0x00EE.
    pub fn ret(&mut self) -> (r: Result<(), Fault>)
        ensures
            match old(self)@.ret() {
                Ok(next) => r is Ok && final(self)@ == next,
                Err(fault) => r == Err::<(), Fault>(fault) && final(self)@ == old(self)@,
            },
    {
        match self.stack.pop() {
            Some(saved) => {
                self.position_in_memory = saved;
                Ok(())
            },
            None => Err(Fault::StackUnderflow),
        }
    }

    /// Writes the flag register, then the target register where the
    /// outcome holds a value for it.
    fn store_with_flag(&mut self, x: u8, outcome: Outcome)
        requires
            x < 16,
        ensures
            final(self)@ == old(self)@.store_with_flag(x, outcome),
    {
        self.registers[0xF] = outcome.flag;
        if let Some(value) = outcome.value {
            self.registers[x as usize] = value;
        }
    }

    /// Sets VX to the value of VY: 0x8XY0.
    pub fn assign(&mut self, x: u8, y: u8)
        requires
            x < 16,
            y < 16,
        ensures
            final(self)@ == old(self)@.store(x, old(self).registers[y as int]),
    {
        self.registers[x as usize] = self.registers[y as usize];
    }

    /// Sets VX to VX or VY: 0x8XY1.
    pub fn or_xy(&mut self, x: u8, y: u8)
        requires
            x < 16,
            y < 16,
        ensures
            final(self)@ == old(self)@.store(
                x,
                old(self).registers[x as int] | old(self).registers[y as int],
            ),
    {
        self.registers[x as usize] = self.registers[x as usize] | self.registers[y as usize];
    }

    /// Sets VX to VX and VY: 0x8XY2.
    pub fn and_xy(&mut self, x: u8, y: u8)
        requires
            x < 16,
            y < 16,
        ensures
            final(self)@ == old(self)@.store(
                x,
                old(self).registers[x as int] & old(self).registers[y as int],
            ),
    {
        self.registers[x as usize] = self.registers[x as usize] & self.registers[y as usize];
    }

    /// Sets VX to VX xor VY: 0x8XY3.
    pub fn xor_xy(&mut self, x: u8, y: u8)
        requires
            x < 16,
            y < 16,
        ensures
            final(self)@ == old(self)@.store(
                x,
                old(self).registers[x as int] ^ old(self).registers[y as int],
            ),
    {
        self.registers[x as usize] = self.registers[x as usize] ^ self.registers[y as usize];
    }

    /// Adds VY to VX: 0x8XY4. VF is set to 1 when there is a carry, and
    /// VX is then left as it is; VF is set to 0 when there is none.
    ///
    /// The flag is written before VX, so where X is F the sum stands in VF.
    pub fn add_xy(&mut self, x: u8, y: u8)
        requires
            x < 16,
            y < 16,
        ensures
            final(self)@ == old(self)@.store_with_flag(
                x,
                spec_add_with_carry(old(self).registers[x as int], old(self).registers[y as int]),
            ),
            ({
                let a = old(self).registers[x as int];
                let b = old(self).registers[y as int];
                let after = final(self).registers;
                &&& a + b <= 255 ==> after[x as int] == a + b
                &&& a + b <= 255 && (x != 0xF || a + b == 0) ==> after[0xF] == 0
                &&& a + b > 255 ==> after[0xF] == 1
                &&& a + b > 255 && (x != 0xF || a == 1) ==> after[x as int] == a
            }),
    {
        let outcome = add_with_carry(self.registers[x as usize], self.registers[y as usize]);
        self.store_with_flag(x, outcome);
    }

    /// Subtracts VY from VX: 0x8XY5. VF is set to 0 when there is a
    /// borrow, and VX is then left as it is; VF is set to 1 when there is
    /// none.
    ///
    /// The flag is written before VX, so where X is F the difference stands
    /// in VF.
    pub fn sub_xy(&mut self, x: u8, y: u8)
        requires
            x < 16,
            y < 16,
        ensures
            final(self)@ == old(self)@.store_with_flag(
                x,
                spec_sub_with_borrow(old(self).registers[x as int], old(self).registers[y as int]),
            ),
            ({
                let a = old(self).registers[x as int];
                let b = old(self).registers[y as int];
                let after = final(self).registers;
                &&& a >= b ==> after[x as int] == a - b
                &&& a >= b && (x != 0xF || a - b == 1) ==> after[0xF] == 1
                &&& a < b ==> after[0xF] == 0
                &&& a < b && (x != 0xF || a == 0) ==> after[x as int] == a
            }),
    {
        let outcome = sub_with_borrow(self.registers[x as usize], self.registers[y as usize]);
        self.store_with_flag(x, outcome);
    }

    /// Stores the least significant bit of VX in VF and then shifts VX to
    /// the right by 1: 0x8XY6.
    ///
    /// Where X is F the shifted value stands in VF.
    pub fn shift_right_1(&mut self, x: u8)
        requires
            x < 16,
        ensures
            final(self)@ == old(self)@.store_with_flag(
                x,
                spec_shift_right(old(self).registers[x as int]),
            ),
            final(self).registers[x as int] == old(self).registers[x as int] / 2,
            x != 0xF ==> final(self).registers[0xF] == old(self).registers[x as int] % 2,
    {
        let outcome = shift_right(self.registers[x as usize]);
        self.store_with_flag(x, outcome);
    }

    /// Sets VX to VY minus VX: 0x8XY7. VF is set to 0 when there is a
    /// borrow, and VX is then left as it is; VF is set to 1 when there is
    /// none.
    ///
    /// The flag is written before VX, so where X is F the difference stands
    /// in VF.
    pub fn set_sub_xy(&mut self, x: u8, y: u8)
        requires
            x < 16,
            y < 16,
        ensures
            final(self)@ == old(self)@.store_with_flag(
                x,
                spec_reverse_sub_with_borrow(
                    old(self).registers[x as int],
                    old(self).registers[y as int],
                ),
            ),
            ({
                let a = old(self).registers[x as int];
                let b = old(self).registers[y as int];
                let after = final(self).registers;
                &&& a <= b ==> after[x as int] == b - a
                &&& a <= b && (x != 0xF || b - a == 1) ==> after[0xF] == 1
                &&& a > b ==> after[0xF] == 0
                &&& a > b && (x != 0xF || a == 0) ==> after[x as int] == a
            }),
    {
        let outcome = reverse_sub_with_borrow(
            self.registers[x as usize],
            self.registers[y as usize],
        );
        self.store_with_flag(x, outcome);
    }

    /// Stores the least significant bit of VX in VF and then shifts VX to
    /// the left by 1, dropping the bit shifted out: 0x8XYE.
    ///
    /// Where X is F the shifted value stands in VF.
    pub fn shift_left_1(&mut self, x: u8)
        requires
            x < 16,
        ensures
            final(self)@ == old(self)@.store_with_flag(
                x,
                spec_shift_left(old(self).registers[x as int]),
            ),
            final(self).registers[x as int] == (old(self).registers[x as int] * 2) % 256,
            x != 0xF ==> final(self).registers[0xF] == old(self).registers[x as int] % 2,
    {
        let outcome = shift_left(self.registers[x as usize]);
        self.store_with_flag(x, outcome);
    }

    /// Carries out one decoded instruction.
    pub fn execute(&mut self, op: Operation) -> (status: Status)
        requires
            op.well_formed(),
        ensures
            (final(self)@, status) == old(self)@.execute(op),
    {
        match op {
            Operation::Halt => Status::Halted,
            Operation::Return => Self::jump_status(self.ret()),
            Operation::Call { addr } => Self::jump_status(self.call(addr)),
            Operation::Assign { x, y } => {
                self.assign(x, y);
                Status::Running
            },
            Operation::Or { x, y } => {
                self.or_xy(x, y);
                Status::Running
            },
            Operation::And { x, y } => {
                self.and_xy(x, y);
                Status::Running
            },
            Operation::Xor { x, y } => {
                self.xor_xy(x, y);
                Status::Running
            },
            Operation::Add { x, y } => {
                self.add_xy(x, y);
                Status::Running
            },
            Operation::Sub { x, y } => {
                self.sub_xy(x, y);
                Status::Running
            },
            Operation::ShiftRight { x } => {
                self.shift_right_1(x);
                Status::Running
            },
            Operation::ReverseSub { x, y } => {
                self.set_sub_xy(x, y);
                Status::Running
            },
            Operation::ShiftLeft { x } => {
                self.shift_left_1(x);
                Status::Running
            },
        }
    }

    /// The status that the result of a control-flow instruction stands for.
    fn jump_status(jump: Result<(), Fault>) -> (status: Status)
        ensures
            status == match jump {
                Ok(_) => Status::Running,
                Err(fault) => Status::Faulted(fault),
            },
    {
        match jump {
            Ok(()) => Status::Running,
            Err(fault) => Status::Faulted(fault),
        }
    }

    /// Reads the instruction word at the program counter.
    pub fn fetch(&self) -> (r: Option<u16>)
        ensures
            r == self@.fetch(),
    {
        let p = self.position_in_memory;
        if p < 4095 {
            Some(word(self.memory[p], self.memory[p + 1]))
        } else {
            None
        }
    }

    /// Runs one fetch-decode-execute cycle.
    pub fn step(&mut self) -> (status: Status)
        ensures
            (final(self)@, status) == old(self)@.step(),
    {
        match self.fetch() {
            None => Status::Faulted(Fault::OutOfBounds),
            Some(word) => {
                self.position_in_memory = self.position_in_memory + 2;
                match decode(word) {
                    None => Status::Faulted(Fault::UnimplementedOpcode),
                    Some(op) => self.execute(op),
                }
            },
        }
    }

    /// Runs at most `limit` cycles, stopping early at the first one that
    /// halts or faults. The status is `Running` where the limit was
    /// reached first.
    pub fn run_for(&mut self, limit: u64) -> (status: Status)
        ensures
            (final(self)@, status) == old(self)@.run_for(limit as nat),
    {
        let mut done: u64 = 0;
        while done < limit
            invariant
                done <= limit,
                old(self)@.run_for(done as nat) == (self@, Status::Running),
            decreases limit - done,
        {
            let status = self.step();
            proof {
                old(self)@.lemma_run_for_extends(done as nat);
            }
            done = done + 1;
            if status != Status::Running {
                proof {
                    old(self)@.lemma_stop_is_final(done as nat, limit as nat);
                }
                return status;
            }
        }
        Status::Running
    }

    /// Processes instructions until 0x0000 is reached or a fault arises.
    /// One of the two always happens.
    pub fn run(&mut self) -> (r: Result<(), Fault>)
        ensures
            (final(self)@, Machine::status_of(r)) == old(self)@.outcome(),
            forall|n: nat| #[trigger]
                old(self)@.stops_within(n) ==> old(self)@.run_for(n) == (
                    final(self)@,
                    Machine::status_of(r),
                ),
    {
        let ghost start = self@;
        let ghost mut fuel: nat;
        proof {
            self.stack.lemma_within_capacity();
            start.lemma_terminates();
            fuel = choose|n: nat| start.stops_within(n);
        }
        loop
            invariant
                start == old(self)@,
                start.terminates(),
                self@.stops_within(fuel),
                self@.run_for(fuel) == start.outcome(),
            decreases fuel,
        {
            let status = self.step();
            proof {
                fuel = (fuel - 1) as nat;
            }
            match status {
                Status::Running => {},
                Status::Halted => {
                    proof {
                        assert forall|n: nat| #[trigger] start.stops_within(n) implies start.run_for(
                            n,
                        ) == start.outcome() by {
                            start.lemma_outcome(n);
                        }
                    }
                    return Ok(());
                },
                Status::Faulted(fault) => {
                    proof {
                        assert forall|n: nat| #[trigger] start.stops_within(n) implies start.run_for(
                            n,
                        ) == start.outcome() by {
                            start.lemma_outcome(n);
                        }
                    }
                    return Err(fault);
                },
            }
        }
    }

    /// The view of an engine always has the shape of a machine state.
    pub proof fn lemma_well_formed(&self)
        ensures
            self@.well_formed(),
    {
        self.stack.lemma_within_capacity();
    }
}

} // verus!
