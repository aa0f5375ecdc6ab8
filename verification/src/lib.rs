//! A CHIP-8 interpreter core: sixteen byte registers, four kilobytes of
//! memory, a sixteen-slot call stack, a program counter and a
//! fetch-decode-execute cycle over them.
//!
//! [`Machine`] is the mathematical model of the processor, and its functions
//! say what every operation does. [`CPU`] is the executable processor. Each of
//! its operations is proved to do what the model says. What can go wrong in a
//! program is returned as a [`Chip8Error`], and the processor is then left
//! exactly as it was before the operation.
//!
//! Every run of a program ends: the program halts, overflows or underflows
//! the call stack, runs off the end of memory or meets an instruction that is
//! not implemented. The module [`termination`] holds the measure that shows
//! it; [`laws`] holds what else is proved of the model.

pub mod chip8;
pub mod cpu;
pub mod error;
pub mod instruction;
pub mod laws;
pub mod machine;
pub mod termination;

pub use crate::chip8::CHIP8;
pub use crate::chip8::MEMORY_SIZE;
pub use crate::chip8::OVERFLOW_REGISTER_INDEX;
pub use crate::chip8::PROGRAM_MEMORY_START;
pub use crate::chip8::REGISTER_COUNT;
pub use crate::chip8::STACK_SIZE;
pub use crate::chip8::SYSTEM_MEMORY_END;
pub use crate::chip8::SYSTEM_MEMORY_START;
pub use crate::cpu::CPU;
pub use crate::error::Chip8Error;
pub use crate::instruction::Instruction;
pub use crate::machine::ExecutionState;
pub use crate::machine::Machine;
