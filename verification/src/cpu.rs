//! The executable processor.

use crate::chip8::CHIP8;
use crate::chip8::MEMORY_SIZE;
use crate::chip8::OVERFLOW_REGISTER_INDEX;
use crate::chip8::PROGRAM_MEMORY_START;
use crate::chip8::REGISTER_COUNT;
use crate::chip8::STACK_SIZE;
use crate::chip8::SYSTEM_MEMORY_END;
use crate::error::Chip8Error;
use crate::instruction::decode;
use crate::instruction::Instruction;
use crate::machine::follows;
use crate::machine::ExecutionState;
use crate::machine::Machine;
use crate::termination::lemma_step_descends;
use vstd::prelude::*;

verus! {

/// The processor: registers, memory, call stack, program counter and
/// execution state. Its model is a [`Machine`], which is always well formed.
#[derive(Debug)]
pub struct CPU {
    registers: [u8; REGISTER_COUNT],
    stack_pointer: u16,
    stack: [u16; STACK_SIZE],
    program_counter: u16,
    memory: [u8; MEMORY_SIZE],
    state: ExecutionState,
}

impl View for CPU {
    type V = Machine;

    closed spec fn view(&self) -> Machine {
        Machine {
            registers: self.registers@,
            memory: self.memory@,
            stack: self.stack@,
            stack_pointer: self.stack_pointer as nat,
            program_counter: self.program_counter,
            state: self.state,
        }
    }
}

impl CPU {
    #[verifier::type_invariant]
    spec fn stack_pointer_in_range(&self) -> bool {
        self.stack_pointer <= STACK_SIZE
    }

    /// A processor with every register, memory byte and stack slot zero, the
    /// stack pointer and the program counter zero, and halted.
    pub fn new() -> (cpu: Self)
        ensures
            cpu@ == Machine::initial(),
            cpu@.wf(),
    {
        CPU {
            registers: [0; REGISTER_COUNT],
            stack_pointer: 0,
            stack: [0; STACK_SIZE],
            program_counter: 0,
            memory: [0; MEMORY_SIZE],
            state: ExecutionState::Halted,
        }
    }

    /// Starts the program at the beginning of program memory and runs it
    /// until it halts or a step fails.
    pub fn run_program(&mut self) -> (result: Result<(), Chip8Error>)
        ensures
            final(self)@.wf(),
            (final(self)@, result) == old(self)@.start().run(),
    {
        match self.set_program_counter(PROGRAM_MEMORY_START) {
            Ok(()) => {},
            Err(e) => { return Err(e); },
        }
        self.continue_execution()
    }

    /// Switches the processor to running and steps it from the current
    /// program counter until it halts or a step fails. A failed step ends the
    /// run with the processor still running and left at the instruction that
    /// failed.
    pub fn continue_execution(&mut self) -> (result: Result<(), Chip8Error>)
        ensures
            final(self)@.wf(),
            (final(self)@, result) == old(self)@.resume().run(),
    {
        proof {
            use_type_invariant(&*self);
        }
        self.state = ExecutionState::Running;

        while self.state != ExecutionState::Halted
            invariant
                self@.wf(),
                self@.run() == old(self)@.resume().run(),
            decreases
                self@.remaining(0),
                self@.remaining(1),
                self@.remaining(2),
                self@.remaining(3),
                self@.remaining(4),
                self@.remaining(5),
                self@.remaining(6),
                self@.remaining(7),
                self@.remaining(8),
                self@.remaining(9),
                self@.remaining(10),
                self@.remaining(11),
                self@.remaining(12),
                self@.remaining(13),
                self@.remaining(14),
                self@.remaining(15),
                self@.remaining(16),
        {
            proof {
                if self@.step() is Ok {
                    lemma_step_descends(self@);
                }
            }
            match self.step() {
                Ok(()) => {},
                Err(e) => { return Err(e); },
            }
        }
        Ok(())
    }

    /// Executes one instruction: reads the instruction word at the program
    /// counter, advances the counter past it, decodes the word and carries the
    /// instruction out. On failure the counter is wound back, so that the
    /// processor is left at the instruction that failed.
    pub fn step(&mut self) -> (result: Result<(), Chip8Error>)
        ensures
            final(self)@.wf(),
            follows(old(self)@.step(), old(self)@, final(self)@, result),
    {
        proof {
            use_type_invariant(&*self);
        }
        let start: u16 = self.program_counter;
        let opcode: u16 = match self.read_opcode() {
            Ok(opcode) => opcode,
            Err(e) => { return Err(e); },
        };
        match self.increment_program_counter() {
            Ok(()) => {},
            Err(e) => { return Err(e); },
        }
        let result = match decode(opcode) {
            Instruction::Halt => {
                self.state = ExecutionState::Halted;
                Ok(())
            },
            Instruction::Return => self.ret(),
            Instruction::Call { address } => self.call(address),
            Instruction::Add { x, y } => {
                self.add(x, y);
                Ok(())
            },
            Instruction::Unimplemented { opcode } => Err(Chip8Error::UnimplementedOpcode(opcode)),
        };
        if result.is_err() {
            self.program_counter = start;
        }
        result
    }

    /// Copies `program` to the beginning of program memory.
    pub fn load_program(&mut self, program: &[u8]) -> (result: Result<(), Chip8Error>)
        ensures
            final(self)@.wf(),
            follows(
                old(self)@.load(PROGRAM_MEMORY_START as int, program@),
                old(self)@,
                final(self)@,
                result,
            ),
    {
        self.load_program_at(PROGRAM_MEMORY_START, program)
    }

    /// Copies `program` into memory from `location_in_memory` on. The
    /// location has to lie above the system region, and the whole program has
    /// to fit in memory; nothing is written otherwise.
    pub fn load_program_at(
        &mut self,
        location_in_memory: usize,
        program: &[u8],
    ) -> (result: Result<(), Chip8Error>)
        ensures
            final(self)@.wf(),
            follows(
                old(self)@.load(location_in_memory as int, program@),
                old(self)@,
                final(self)@,
                result,
            ),
            result is Err <==> (location_in_memory <= SYSTEM_MEMORY_END
                || location_in_memory + program@.len() > MEMORY_SIZE),
    {
        proof {
            use_type_invariant(&*self);
        }
        if location_in_memory <= SYSTEM_MEMORY_END || location_in_memory > MEMORY_SIZE
            || program.len() > MEMORY_SIZE - location_in_memory {
            return Err(Chip8Error::OutOfBoundsAddress);
        }
        let mut copied: usize = 0;
        while copied < program.len()
            invariant
                SYSTEM_MEMORY_END < location_in_memory,
                location_in_memory + program@.len() <= MEMORY_SIZE,
                copied <= program@.len(),
                self@ == old(self)@.load(
                    location_in_memory as int,
                    program@.take(copied as int),
                )->Ok_0,
            decreases program@.len() - copied,
        {
            proof {
                use_type_invariant(&*self);
            }
            self.memory[location_in_memory + copied] = program[copied];
            copied += 1;
        }
        assert(program@.take(copied as int) == program@);
        Ok(())
    }

    /// Sets the program counter to `location_in_memory`, which has to fit in
    /// the sixteen bits of the counter.
    pub fn set_program_counter(
        &mut self,
        location_in_memory: usize,
    ) -> (result: Result<(), Chip8Error>)
        ensures
            final(self)@.wf(),
            follows(
                old(self)@.set_program_counter(location_in_memory as int),
                old(self)@,
                final(self)@,
                result,
            ),
            result is Err <==> location_in_memory > u16::MAX,
    {
        proof {
            use_type_invariant(&*self);
        }
        if location_in_memory > u16::MAX as usize {
            return Err(Chip8Error::OutOfBoundsAddress);
        }
        self.program_counter = location_in_memory as u16;
        Ok(())
    }

    /// Moves the program counter to the next instruction. The new counter has
    /// to address memory.
    fn increment_program_counter(&mut self) -> (result: Result<(), Chip8Error>)
        ensures
            follows(old(self)@.advance(), old(self)@, final(self)@, result),
    {
        proof {
            use_type_invariant(&*self);
        }
        if (self.program_counter as usize) < MEMORY_SIZE - 2 {
            self.program_counter += 2;
            Ok(())
        } else {
            Err(Chip8Error::OutOfBoundsAddress)
        }
    }

    /// Claims the next free slot of the call stack.
    fn increment_stack_counter(&mut self) -> (result: Result<(), Chip8Error>)
        ensures
            old(self)@.stack_pointer < STACK_SIZE ==> result == Ok::<(), Chip8Error>(())
                && final(self)@ == (Machine {
                    stack_pointer: old(self)@.stack_pointer + 1,
                    ..old(self)@
                }),
            old(self)@.stack_pointer >= STACK_SIZE ==> result == Err::<(), Chip8Error>(
                Chip8Error::StackOverflow,
            ) && final(self)@ == old(self)@,
    {
        proof {
            use_type_invariant(&*self);
        }
        if (self.stack_pointer as usize) < STACK_SIZE {
            self.stack_pointer += 1;
            Ok(())
        } else {
            Err(Chip8Error::StackOverflow)
        }
    }

    /// Releases the slot of the call stack that was claimed last.
    fn decrement_stack_counter(&mut self) -> (result: Result<(), Chip8Error>)
        ensures
            old(self)@.stack_pointer > 0 ==> result == Ok::<(), Chip8Error>(())
                && final(self)@ == (Machine {
                    stack_pointer: (old(self)@.stack_pointer - 1) as nat,
                    ..old(self)@
                }),
            old(self)@.stack_pointer == 0 ==> result == Err::<(), Chip8Error>(
                Chip8Error::StackUnderflow,
            ) && final(self)@ == old(self)@,
    {
        proof {
            use_type_invariant(&*self);
        }
        if self.stack_pointer != 0 {
            self.stack_pointer -= 1;
            Ok(())
        } else {
            Err(Chip8Error::StackUnderflow)
        }
    }

    /// Reads the instruction word at the program counter, high byte first.
    /// Both of its bytes have to lie in memory.
    fn read_opcode(&self) -> (result: Result<u16, Chip8Error>)
        ensures
            self@.program_counter + 1 < MEMORY_SIZE ==> result == Ok::<u16, Chip8Error>(
                self@.opcode(),
            ),
            self@.program_counter + 1 >= MEMORY_SIZE ==> result == Err::<u16, Chip8Error>(
                Chip8Error::OutOfBoundsAddress,
            ),
    {
        let pc: usize = self.program_counter as usize;
        if pc >= MEMORY_SIZE - 1 {
            return Err(Chip8Error::OutOfBoundsAddress);
        }
        let op_b1: u16 = self.memory[pc] as u16;
        let op_b2: u16 = self.memory[pc + 1] as u16;
        assert(op_b1 << 8 | op_b2 == op_b1 * 0x100 + op_b2) by (bit_vector)
            requires
                op_b1 < 0x100,
                op_b2 < 0x100,
        ;
        Ok(op_b1 << 8 | op_b2)
    }

    /// The general-purpose registers.
    pub fn registers(&self) -> (registers: &[u8; REGISTER_COUNT])
        ensures
            self@.wf(),
            registers@ == self@.registers,
    {
        proof {
            use_type_invariant(self);
        }
        &self.registers
    }

    /// The memory.
    pub fn memory(&self) -> (memory: &[u8; MEMORY_SIZE])
        ensures
            self@.wf(),
            memory@ == self@.memory,
    {
        proof {
            use_type_invariant(self);
        }
        &self.memory
    }

    /// The call stack. The slots below the stack pointer hold the return
    /// addresses of the calls that have not returned yet.
    pub fn stack(&self) -> (stack: &[u16; STACK_SIZE])
        ensures
            self@.wf(),
            stack@ == self@.stack,
    {
        proof {
            use_type_invariant(self);
        }
        &self.stack
    }

    /// The index of the next free slot of the call stack, which is the number
    /// of calls that have not returned yet.
    pub fn stack_pointer(&self) -> (stack_pointer: u16)
        ensures
            self@.wf(),
            stack_pointer == self@.stack_pointer,
    {
        proof {
            use_type_invariant(self);
        }
        self.stack_pointer
    }

    /// The address of the next instruction.
    pub fn program_counter(&self) -> (program_counter: u16)
        ensures
            self@.wf(),
            program_counter == self@.program_counter,
    {
        proof {
            use_type_invariant(self);
        }
        self.program_counter
    }

    /// Whether the processor is running or halted.
    pub fn state(&self) -> (state: ExecutionState)
        ensures
            self@.wf(),
            state == self@.state,
    {
        proof {
            use_type_invariant(self);
        }
        self.state
    }

    /// Stores `value` in register `index`.
    pub fn set_register(&mut self, index: usize, value: u8)
        requires
            index < REGISTER_COUNT,
        ensures
            final(self)@.wf(),
            final(self)@ == (Machine {
                registers: old(self)@.registers.update(index as int, value),
                ..old(self)@
            }),
    {
        proof {
            use_type_invariant(&*self);
        }
        self.registers[index] = value;
    }

    /// Stores `value` in the byte of memory at `address`, which may lie in
    /// the system region.
    pub fn write_memory(&mut self, address: usize, value: u8)
        requires
            address < MEMORY_SIZE,
        ensures
            final(self)@.wf(),
            final(self)@ == (Machine {
                memory: old(self)@.memory.update(address as int, value),
                ..old(self)@
            }),
    {
        proof {
            use_type_invariant(&*self);
        }
        self.memory[address] = value;
    }
}

impl CHIP8 for CPU {
    fn add(&mut self, x: u8, y: u8)
        ensures
            final(self)@.wf(),
    {
        proof {
            use_type_invariant(&*self);
        }
        let arg1: u8 = self.registers[x as usize];
        let arg2: u8 = self.registers[y as usize];
        let result: u8 = arg1.wrapping_add(arg2);
        let overflow: bool = arg1 > u8::MAX - arg2;
        self.registers[x as usize] = result;

        if overflow {
            self.registers[OVERFLOW_REGISTER_INDEX] = 1;
        } else {
            self.registers[OVERFLOW_REGISTER_INDEX] = 0;
        }
    }

    fn call(&mut self, nnn: u16) -> (result: Result<(), Chip8Error>)
        ensures
            final(self)@.wf(),
            result is Ok <==> old(self)@.stack_pointer < STACK_SIZE,
    {
        proof {
            use_type_invariant(&*self);
        }
        let slot: usize = self.stack_pointer as usize;
        match self.increment_stack_counter() {
            Ok(()) => {},
            Err(e) => { return Err(e); },
        }
        self.stack[slot] = self.program_counter;
        self.program_counter = nnn;
        Ok(())
    }

    fn ret(&mut self) -> (result: Result<(), Chip8Error>)
        ensures
            final(self)@.wf(),
            result is Ok <==> old(self)@.stack_pointer > 0,
    {
        proof {
            use_type_invariant(&*self);
        }
        match self.decrement_stack_counter() {
            Ok(()) => {},
            Err(e) => { return Err(e); },
        }
        self.program_counter = self.stack[self.stack_pointer as usize];
        Ok(())
    }
}

} // verus!
