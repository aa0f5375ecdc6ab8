//! Instruction words and their decoding.

use vstd::prelude::*;

verus! {

/// A decoded instruction word.
#[derive(Debug, Clone, Copy, PartialEq, Eq, Structural)]
pub enum Instruction {
    /// `0000`: stop the processor.
    Halt,
    /// `00EE`: return from the current subroutine.
    Return,
    /// `2nnn`: call the subroutine at `address`.
    Call { address: u16 },
    /// `8xy4`: add register `y` to register `x`.
    Add { x: u8, y: u8 },
    /// Any other word, kept for the error report.
    Unimplemented { opcode: u16 },
}

/// Bits 12 to 15 of an instruction word: the instruction class.
pub open spec fn nibble_c(opcode: u16) -> int {
    opcode as int / 0x1000
}

/// Bits 8 to 11 of an instruction word: the first register operand.
pub open spec fn nibble_x(opcode: u16) -> int {
    (opcode as int / 0x100) % 0x10
}

/// Bits 4 to 7 of an instruction word: the second register operand.
pub open spec fn nibble_y(opcode: u16) -> int {
    (opcode as int / 0x10) % 0x10
}

/// Bits 0 to 3 of an instruction word.
pub open spec fn nibble_d(opcode: u16) -> int {
    opcode as int % 0x10
}

/// Bits 0 to 11 of an instruction word: the address operand.
pub open spec fn immediate(opcode: u16) -> int {
    opcode as int % 0x1000
}

/// The instruction that a word stands for, by the pattern of its nibbles.
pub open spec fn decode_spec(opcode: u16) -> Instruction {
    let c = nibble_c(opcode);
    let x = nibble_x(opcode);
    let y = nibble_y(opcode);
    let d = nibble_d(opcode);
    if c == 0 && x == 0 && y == 0 && d == 0 {
        Instruction::Halt
    } else if c == 0 && x == 0 && y == 0xE && d == 0xE {
        Instruction::Return
    } else if c == 2 {
        Instruction::Call { address: immediate(opcode) as u16 }
    } else if c == 8 && d == 4 {
        Instruction::Add { x: x as u8, y: y as u8 }
    } else {
        Instruction::Unimplemented { opcode }
    }
}

/// Splits an instruction word into its nibbles and matches them against the
/// instruction table.
pub fn decode(opcode: u16) -> (instruction: Instruction)
    ensures
        instruction == decode_spec(opcode),
{
    let c: u8 = ((opcode & 0xF000) >> 12) as u8;
    let x: u8 = ((opcode & 0x0F00) >> 8) as u8;
    let y: u8 = ((opcode & 0x00F0) >> 4) as u8;
    let d: u8 = (opcode & 0x000F) as u8;
    let nnn: u16 = opcode & 0x0FFF;
    assert((opcode & 0xF000) >> 12 == opcode / 0x1000) by (bit_vector);
    assert((opcode & 0x0F00) >> 8 == (opcode / 0x100) % 0x10) by (bit_vector);
    assert((opcode & 0x00F0) >> 4 == (opcode / 0x10) % 0x10) by (bit_vector);
    assert(opcode & 0x000F == opcode % 0x10) by (bit_vector);
    assert(opcode & 0x0FFF == opcode % 0x1000) by (bit_vector);
    match (c, x, y, d) {
        (0, 0, 0, 0) => Instruction::Halt,
        (0, 0, 0xE, 0xE) => Instruction::Return,
        (2, _, _, _) => Instruction::Call { address: nnn },
        (8, _, _, 4) => Instruction::Add { x, y },
        _ => Instruction::Unimplemented { opcode },
    }
}

} // verus!
