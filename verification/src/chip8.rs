//! The fixed sizes and addresses of the processor, and its instruction set.

use crate::error::Chip8Error;
use crate::machine::follows;
use crate::machine::Machine;
use vstd::prelude::*;

verus! {

/// The number of general-purpose registers.
pub const REGISTER_COUNT: usize = 0x10;

/// The number of return addresses that the call stack can hold.
pub const STACK_SIZE: usize = 0x10;

/// The number of addressable bytes of memory.
pub const MEMORY_SIZE: usize = 0x1000;

/// The first address of the region reserved for the system.
pub const SYSTEM_MEMORY_START: usize = 0x0;

/// The last address of the region reserved for the system.
pub const SYSTEM_MEMORY_END: usize = 0x1FF;

/// The first address of program memory, where programs are loaded and started
/// by default.
pub const PROGRAM_MEMORY_START: usize = 0x200;

/// The register that arithmetic instructions overwrite with their overflow
/// flag.
pub const OVERFLOW_REGISTER_INDEX: usize = 15;

/// The instruction set of the CHIP-8, as operations on a processor whose model
/// is a [`Machine`]. An instruction that fails leaves the processor untouched.
pub trait CHIP8: View<V = Machine> {
    /// Op code `8xy4`.
    ///
    /// Adds the value contained in register `y` to the value contained in
    /// register `x`, storing the result in register `x` and the overflow flag
    /// in the overflow register.
    fn add(&mut self, x: u8, y: u8)
        requires
            x < REGISTER_COUNT,
            y < REGISTER_COUNT,
        ensures
            final(self)@ == old(self)@.add(x, y),
    ;

    /// Op code `2nnn`.
    ///
    /// Pushes the program counter onto the call stack and sets it to `nnn`.
    fn call(&mut self, nnn: u16) -> (result: Result<(), Chip8Error>)
        ensures
            follows(old(self)@.call(nnn), old(self)@, final(self)@, result),
    ;

    /// Op code `00EE`.
    ///
    /// Sets the program counter to the address that the matching call pushed.
    fn ret(&mut self) -> (result: Result<(), Chip8Error>)
        ensures
            follows(old(self)@.ret(), old(self)@, final(self)@, result),
    ;
}

} // verus!
