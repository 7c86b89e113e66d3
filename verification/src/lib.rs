//! A verified CHIP-8 instruction decoder and machine-state core.
//!
//! The decoder classifies any 16-bit instruction word into a typed
//! operation with range-checked operands, or reports it as invalid.
//! The machine state models memory, registers, timers, program counter,
//! index register and call stack, and constructs itself from a program
//! image loaded at the architecture's fixed load address.

pub mod instructions;
pub mod processor;

pub use crate::instructions::decode;
pub use crate::instructions::Address;
pub use crate::instructions::Constant4;
pub use crate::instructions::Constant8;
pub use crate::instructions::OpCode;
pub use crate::instructions::Register;
pub use crate::processor::LoadError;
pub use crate::processor::Processor;
