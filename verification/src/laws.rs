use vstd::prelude::*;
use crate::instruction::{spec_decode, Operation, RETURN};
use crate::machine::{Machine, Status};
use crate::stack::STACK_CAPACITY;

verus! {

/// A call on a stack that is not full, followed by a return, restores the
/// whole state: the program counter is the one the call saved, and the
/// stack is as deep as before the call.
pub proof fn lemma_call_then_return(m: Machine, addr: u16)
    requires
        m.stack.len() < STACK_CAPACITY,
    ensures
        m.call(addr) is Ok,
        m.call(addr)->Ok_0.ret() == Ok::<Machine, crate::fault::Fault>(m),
{
    let called = m.call(addr)->Ok_0;
    assert(called.stack.drop_last() =~= m.stack);
}

/// Where the instruction at the program counter is a call and the
/// instruction at its target is a return, two cycles of the engine resume
/// at the instruction after the call with everything else unchanged.
pub proof fn lemma_call_return_cycle(m: Machine, word: u16, addr: u16)
    requires
        m.stack.len() < STACK_CAPACITY,
        m.fetch() == Some(word),
        spec_decode(word) == Some(Operation::Call { addr }),
        (Machine { pc: addr as nat, ..m }).fetch() == Some(RETURN),
    ensures
        m.run_for(2) == (Machine { pc: m.pc + 2, ..m }, Status::Running),
{
    reveal_with_fuel(Machine::run_for, 3);
    let advanced = Machine { pc: m.pc + 2, ..m };
    lemma_call_then_return(advanced, addr);
    let called = advanced.call(addr)->Ok_0;
    assert(m.step() == (called, Status::Running));
    assert(called.fetch() == Some(RETURN));
    assert(called.step() == (advanced, Status::Running));
}

/// Two nested calls followed by two returns: the first return resumes the
/// outer subroutine where it made the inner call, at `inner_pc`, and the
/// second restores the state of the outer call. An empty stack is empty
/// again afterwards.
pub proof fn lemma_nested_calls_return(m: Machine, outer: u16, inner_pc: nat, inner: u16)
    requires
        m.stack.len() + 2 <= STACK_CAPACITY,
    ensures
        m.call(outer) is Ok,
        ({
            let in_outer = Machine { pc: inner_pc, ..m.call(outer)->Ok_0 };
            &&& in_outer.call(inner) is Ok
            &&& in_outer.call(inner)->Ok_0.ret() == Ok::<Machine, crate::fault::Fault>(in_outer)
            &&& in_outer.ret() == Ok::<Machine, crate::fault::Fault>(m)
        }),
{
    let in_outer = Machine { pc: inner_pc, ..m.call(outer)->Ok_0 };
    lemma_call_then_return(in_outer, inner);
    assert(in_outer.stack.drop_last() =~= m.stack);
}

/// Resetting twice gives the state that resetting once gives.
pub proof fn lemma_reset_idempotent(m: Machine)
    ensures
        m.reset().reset() == m.reset(),
        m.reset() == Machine::zeroed(),
{
}

/// One cycle never writes to memory and keeps the shape of the state.
pub proof fn lemma_step_keeps_shape(m: Machine)
    requires
        m.well_formed(),
    ensures
        m.step().0.memory == m.memory,
        m.step().0.well_formed(),
{
}

/// No number of cycles writes to memory or breaks the shape of the state.
pub proof fn lemma_run_keeps_shape(m: Machine, n: nat)
    requires
        m.well_formed(),
    ensures
        m.run_for(n).0.memory == m.memory,
        m.run_for(n).0.well_formed(),
    decreases n,
{
    if n > 0 {
        lemma_step_keeps_shape(m);
        let (next, status) = m.step();
        if status == Status::Running {
            lemma_run_keeps_shape(next, (n - 1) as nat);
        }
    }
}

} // verus!
