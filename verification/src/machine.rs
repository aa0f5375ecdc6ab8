//! The model of the processor and of its operations.

use crate::chip8::MEMORY_SIZE;
use crate::chip8::OVERFLOW_REGISTER_INDEX;
use crate::chip8::PROGRAM_MEMORY_START;
use crate::chip8::REGISTER_COUNT;
use crate::chip8::STACK_SIZE;
use crate::chip8::SYSTEM_MEMORY_END;
use crate::error::Chip8Error;
use crate::instruction::decode_spec;
use crate::instruction::Instruction;
use vstd::prelude::*;

verus! {

/// Whether the processor is executing a program. `Halted` ends a run.
#[derive(Debug, Clone, Copy, PartialEq, Eq, Structural)]
pub enum ExecutionState {
    Running,
    Halted,
}

/// The mathematical model of the processor: the state that every operation is
/// specified over.
#[verifier::ext_equal]
pub struct Machine {
    /// The general-purpose registers, the last of which is the overflow flag.
    pub registers: Seq<u8>,
    /// The byte-addressable memory.
    pub memory: Seq<u8>,
    /// The call stack; the slots below `stack_pointer` hold return addresses.
    pub stack: Seq<u16>,
    /// The index of the next free slot of the call stack.
    pub stack_pointer: nat,
    /// The address of the next instruction to fetch.
    pub program_counter: u16,
    /// Whether the processor is running.
    pub state: ExecutionState,
}

impl Machine {
    /// The invariant of the processor: the three stores have their fixed sizes
    /// and the stack pointer is at most the size of the stack.
    pub open spec fn wf(self) -> bool {
        &&& self.registers.len() == REGISTER_COUNT
        &&& self.memory.len() == MEMORY_SIZE
        &&& self.stack.len() == STACK_SIZE
        &&& self.stack_pointer <= STACK_SIZE
    }

    /// The processor as it is created: everything zero, and halted.
    pub open spec fn initial() -> Machine {
        Machine {
            registers: Seq::new(REGISTER_COUNT as nat, |i: int| 0u8),
            memory: Seq::new(MEMORY_SIZE as nat, |i: int| 0u8),
            stack: Seq::new(STACK_SIZE as nat, |i: int| 0u16),
            stack_pointer: 0,
            program_counter: 0,
            state: ExecutionState::Halted,
        }
    }

    /// The instruction word at the program counter: two consecutive bytes, the
    /// high byte first.
    pub open spec fn opcode(self) -> u16
        recommends
            self.program_counter + 1 < self.memory.len(),
    {
        (self.memory[self.program_counter as int] * 0x100
            + self.memory[self.program_counter + 1]) as u16
    }

    /// The program counter moved past the instruction it addresses. The new
    /// counter has to be an address of memory.
    pub open spec fn advance(self) -> Result<Machine, Chip8Error> {
        if self.program_counter + 2 < MEMORY_SIZE {
            Ok(Machine { program_counter: (self.program_counter + 2) as u16, ..self })
        } else {
            Err(Chip8Error::OutOfBoundsAddress)
        }
    }

    /// Register `x` receives the sum of registers `x` and `y` modulo 256, and
    /// then the overflow register receives 1 if the sum exceeded 255 and 0 if
    /// not. The flag is written last, so it wins where `x` is the overflow
    /// register.
    pub open spec fn add(self, x: u8, y: u8) -> Machine
        recommends
            x < REGISTER_COUNT,
            y < REGISTER_COUNT,
    {
        let sum = self.registers[x as int] + self.registers[y as int];
        let flag = if sum > u8::MAX { 1u8 } else { 0u8 };
        Machine {
            registers: self.registers.update(x as int, (sum % 0x100) as u8).update(
                OVERFLOW_REGISTER_INDEX as int,
                flag,
            ),
            ..self
        }
    }

    /// The program counter is pushed onto the call stack and then set to
    /// `address`. Fails when the stack is full.
    pub open spec fn call(self, address: u16) -> Result<Machine, Chip8Error> {
        if self.stack_pointer < STACK_SIZE {
            Ok(
                Machine {
                    stack: self.stack.update(self.stack_pointer as int, self.program_counter),
                    stack_pointer: self.stack_pointer + 1,
                    program_counter: address,
                    ..self
                },
            )
        } else {
            Err(Chip8Error::StackOverflow)
        }
    }

    /// The program counter is popped off the call stack. Fails when the stack
    /// is empty.
    pub open spec fn ret(self) -> Result<Machine, Chip8Error> {
        if self.stack_pointer > 0 {
            Ok(
                Machine {
                    stack_pointer: (self.stack_pointer - 1) as nat,
                    program_counter: self.stack[self.stack_pointer - 1],
                    ..self
                },
            )
        } else {
            Err(Chip8Error::StackUnderflow)
        }
    }

    /// The effect of one decoded instruction on a processor whose program
    /// counter already addresses the instruction after it.
    pub open spec fn execute(self, instruction: Instruction) -> Result<Machine, Chip8Error> {
        match instruction {
            Instruction::Halt => Ok(Machine { state: ExecutionState::Halted, ..self }),
            Instruction::Return => self.ret(),
            Instruction::Call { address } => self.call(address),
            Instruction::Add { x, y } => Ok(self.add(x, y)),
            Instruction::Unimplemented { opcode } => Err(Chip8Error::UnimplementedOpcode(opcode)),
        }
    }

    /// One fetch-decode-execute cycle: the instruction word at the program
    /// counter is read, the counter is advanced, and the instruction is carried
    /// out on the advanced processor.
    pub open spec fn step(self) -> Result<Machine, Chip8Error> {
        match self.advance() {
            Ok(advanced) => advanced.execute(decode_spec(self.opcode())),
            Err(e) => Err(e),
        }
    }

    /// `program` copied into memory from `address` on. The address has to lie
    /// above the system region and the copy has to end within memory.
    pub open spec fn load(self, address: int, program: Seq<u8>) -> Result<Machine, Chip8Error> {
        if SYSTEM_MEMORY_END < address && address + program.len() <= MEMORY_SIZE {
            Ok(
                Machine {
                    memory: Seq::new(
                        self.memory.len(),
                        |i: int|
                            if address <= i < address + program.len() {
                                program[i - address]
                            } else {
                                self.memory[i]
                            },
                    ),
                    ..self
                },
            )
        } else {
            Err(Chip8Error::OutOfBoundsAddress)
        }
    }

    /// The program counter set to `address`, which has to fit in sixteen bits.
    pub open spec fn set_program_counter(self, address: int) -> Result<Machine, Chip8Error> {
        if 0 <= address <= u16::MAX {
            Ok(Machine { program_counter: address as u16, ..self })
        } else {
            Err(Chip8Error::OutOfBoundsAddress)
        }
    }

    /// The processor switched to running.
    pub open spec fn resume(self) -> Machine {
        Machine { state: ExecutionState::Running, ..self }
    }

    /// The processor switched to running at the beginning of program memory.
    pub open spec fn start(self) -> Machine {
        Machine { program_counter: PROGRAM_MEMORY_START as u16, ..self.resume() }
    }
}

/// How a fallible operation on the processor relates to its model: where the
/// model yields a next state, the operation succeeds and leaves that state;
/// where the model fails, the operation returns the same error and leaves the
/// processor as it found it.
pub open spec fn follows(
    transition: Result<Machine, Chip8Error>,
    before: Machine,
    after: Machine,
    result: Result<(), Chip8Error>,
) -> bool {
    match transition {
        Ok(next) => result == Ok::<(), Chip8Error>(()) && after == next,
        Err(e) => result == Err::<(), Chip8Error>(e) && after == before,
    }
}

} // verus!
