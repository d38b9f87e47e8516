use vstd::prelude::*;

verus! {

/// The fatal conditions that end execution.
#[derive(Clone, Copy, Debug, PartialEq, Eq, Structural)]
pub enum Fault {
    /// A call was attempted while the call stack was full.
    StackOverflow,
    /// A return was attempted while the call stack was empty.
    StackUnderflow,
    /// An instruction fetch reached beyond the end of memory.
    OutOfBounds,
    /// The instruction word has no handler.
    UnimplementedOpcode,
}

} // verus!
