//! The errors of the processor.

use vstd::prelude::*;

verus! {

/// The ways in which an operation of the processor can fail. Every one of them
/// is fatal for the program that is running: the operation is abandoned and the
/// processor is left as it was before the operation began.
#[derive(Debug, Clone, Copy, PartialEq, Eq, Structural)]
pub enum Chip8Error {
    /// A subroutine call found every slot of the call stack in use.
    StackOverflow,
    /// A return found the call stack empty.
    StackUnderflow,
    /// An address lies outside the range that the operation permits.
    OutOfBoundsAddress,
    /// The instruction word, carried here, matches no known instruction.
    UnimplementedOpcode(u16),
}

} // verus!
