//! An interpreter core for a small two-byte instruction set: sixteen 8-bit
//! registers, 4096 bytes of memory, and a call stack of sixteen entries.
//!
//! Every executable function carries a contract over the mathematical model
//! in [`machine`], and the engine in [`cpu`] is proved to follow that model
//! instruction by instruction.
pub mod fault;
pub mod stack;
pub mod alu;
pub mod instruction;
pub mod machine;
pub mod termination;
pub mod cpu;
pub mod laws;
