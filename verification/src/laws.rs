//! What holds of the model of the processor, whatever state it is in.

use crate::chip8::MEMORY_SIZE;
use crate::chip8::OVERFLOW_REGISTER_INDEX;
use crate::chip8::REGISTER_COUNT;
use crate::chip8::STACK_SIZE;
use crate::chip8::SYSTEM_MEMORY_END;
use crate::error::Chip8Error;
use crate::instruction::decode_spec;
use crate::instruction::nibble_c;
use crate::instruction::nibble_d;
use crate::instruction::Instruction;
use crate::machine::ExecutionState;
use crate::machine::Machine;
use crate::termination::lemma_step_descends;
use vstd::prelude::*;

verus! {

/// A new processor is well formed, halted, and zero throughout: every
/// register, every byte of memory, every stack slot, the stack pointer and the
/// program counter.
pub proof fn lemma_initial_is_zeroed()
    ensures
        Machine::initial().wf(),
        forall|i: int| 0 <= i < REGISTER_COUNT ==> Machine::initial().registers[i] == 0,
        forall|i: int| 0 <= i < MEMORY_SIZE ==> Machine::initial().memory[i] == 0,
        forall|i: int| 0 <= i < STACK_SIZE ==> Machine::initial().stack[i] == 0,
        Machine::initial().stack_pointer == 0,
        Machine::initial().program_counter == 0,
        Machine::initial().state == ExecutionState::Halted,
{
}

/// The instruction table, read from the instruction to its words: `0000`
/// halts, `00EE` returns, `2nnn` calls `nnn` for every address of twelve bits,
/// `8xy4` adds register `y` to register `x` for every pair of registers, and
/// every other word is not implemented and is kept as it is.
pub proof fn lemma_instruction_words(address: u16, x: u8, y: u8, opcode: u16)
    requires
        address < 0x1000,
        x < REGISTER_COUNT,
        y < REGISTER_COUNT,
    ensures
        decode_spec(0x0000) == Instruction::Halt,
        decode_spec(0x00EE) == Instruction::Return,
        decode_spec((0x2000 + address) as u16) == (Instruction::Call { address }),
        decode_spec((0x8004 + 0x100 * x + 0x10 * y) as u16) == (Instruction::Add { x, y }),
        opcode != 0x0000 && opcode != 0x00EE && nibble_c(opcode) != 2 && !(nibble_c(opcode) == 8
            && nibble_d(opcode) == 4) ==> decode_spec(opcode) == (Instruction::Unimplemented {
            opcode,
        }),
{
}

/// Every operation keeps the processor well formed: where it succeeds on a
/// well-formed processor, the processor it leaves is well formed too.
pub proof fn lemma_operations_preserve_wf(
    m: Machine,
    x: u8,
    y: u8,
    address: u16,
    location: int,
    program: Seq<u8>,
)
    requires
        m.wf(),
    ensures
        m.resume().wf(),
        m.start().wf(),
        m.advance() is Ok ==> m.advance()->Ok_0.wf(),
        x < REGISTER_COUNT && y < REGISTER_COUNT ==> m.add(x, y).wf(),
        m.call(address) is Ok ==> m.call(address)->Ok_0.wf(),
        m.ret() is Ok ==> m.ret()->Ok_0.wf(),
        m.step() is Ok ==> m.step()->Ok_0.wf(),
        m.load(location, program) is Ok ==> m.load(location, program)->Ok_0.wf(),
        m.set_program_counter(location) is Ok ==> m.set_program_counter(location)->Ok_0.wf(),
{
}

/// An addition writes register `x` and the overflow register and nothing
/// else: every other register, `y` among them, keeps its value, and so does
/// the rest of the processor.
pub proof fn lemma_add_writes_only_target_and_flag(m: Machine, x: u8, y: u8)
    requires
        m.wf(),
        x < REGISTER_COUNT,
        y < REGISTER_COUNT,
    ensures
        m.add(x, y).wf(),
        forall|i: int|
            0 <= i < REGISTER_COUNT && i != x && i != OVERFLOW_REGISTER_INDEX ==> m.add(
                x,
                y,
            ).registers[i] == m.registers[i],
        y != x && y != OVERFLOW_REGISTER_INDEX ==> m.add(x, y).registers[y as int]
            == m.registers[y as int],
        m.add(x, y) == (Machine { registers: m.add(x, y).registers, ..m }),
{
}

/// An addition leaves the sum modulo 256 in register `x` and sets the
/// overflow register to 1 exactly if the sum of the two registers exceeds
/// 255, and to 0 if not. Where `x` is the overflow register itself, the flag
/// replaces the sum.
pub proof fn lemma_add_sets_overflow_flag(m: Machine, x: u8, y: u8)
    requires
        m.wf(),
        x < REGISTER_COUNT,
        y < REGISTER_COUNT,
    ensures
        m.registers[x as int] + m.registers[y as int] > u8::MAX ==> m.add(
            x,
            y,
        ).registers[OVERFLOW_REGISTER_INDEX as int] == 1,
        m.registers[x as int] + m.registers[y as int] <= u8::MAX ==> m.add(
            x,
            y,
        ).registers[OVERFLOW_REGISTER_INDEX as int] == 0,
        x != OVERFLOW_REGISTER_INDEX ==> m.add(x, y).registers[x as int] == (m.registers[x as int]
            + m.registers[y as int]) % 0x100,
{
}

/// A processor whose program counter addresses two zero bytes halts in one
/// step: the step moves the counter past the two bytes, halts the processor
/// and changes nothing else, and a run from there ends after that one step.
pub proof fn lemma_zero_opcode_halts(m: Machine)
    requires
        m.wf(),
        m.program_counter + 2 < MEMORY_SIZE,
        m.memory[m.program_counter as int] == 0,
        m.memory[m.program_counter + 1] == 0,
    ensures
        m.step() == Ok::<Machine, Chip8Error>(
            Machine {
                program_counter: (m.program_counter + 2) as u16,
                state: ExecutionState::Halted,
                ..m
            },
        ),
        m.resume().run() == (
            Machine {
                program_counter: (m.program_counter + 2) as u16,
                state: ExecutionState::Halted,
                ..m
            },
            Ok::<(), Chip8Error>(()),
        ),
{
    let running = m.resume();
    let halted = Machine {
        program_counter: (m.program_counter + 2) as u16,
        state: ExecutionState::Halted,
        ..m
    };
    assert(running.step() == Ok::<Machine, Chip8Error>(halted));
    assert(halted.run() == (halted, Ok::<(), Chip8Error>(())));
}

/// A call followed at once by a return comes back to where the call was
/// made: the program counter and the stack pointer are as before the call,
/// and so is everything but the stack slot that held the return address.
pub proof fn lemma_call_then_return(m: Machine, address: u16)
    requires
        m.wf(),
        m.stack_pointer < STACK_SIZE,
    ensures
        m.call(address) is Ok,
        m.call(address)->Ok_0.program_counter == address,
        m.call(address)->Ok_0.stack[m.stack_pointer as int] == m.program_counter,
        m.call(address)->Ok_0.ret() == Ok::<Machine, Chip8Error>(
            Machine { stack: m.stack.update(m.stack_pointer as int, m.program_counter), ..m },
        ),
{
}

/// A return on an empty call stack fails with a stack underflow, as an
/// instruction by itself and as the instruction `00EE` of a step. Since a
/// failed operation leaves the processor as it was, the program counter is
/// not changed.
pub proof fn lemma_return_on_empty_stack_underflows(m: Machine)
    requires
        m.wf(),
        m.stack_pointer == 0,
    ensures
        m.ret() == Err::<Machine, Chip8Error>(Chip8Error::StackUnderflow),
        m.program_counter + 2 < MEMORY_SIZE && m.opcode() == 0x00EE ==> m.step() == Err::<
            Machine,
            Chip8Error,
        >(Chip8Error::StackUnderflow),
{
}

/// The calls to `addresses`, one inside the other: each is made from the
/// state that the one before it left. The first that fails ends the chain
/// with its error.
pub open spec fn nested_calls(m: Machine, addresses: Seq<u16>) -> Result<Machine, Chip8Error>
    decreases addresses.len(),
{
    if addresses.len() == 0 {
        Ok(m)
    } else {
        match m.call(addresses.first()) {
            Ok(called) => nested_calls(called, addresses.drop_first()),
            Err(e) => Err(e),
        }
    }
}

/// Nested calls succeed as long as the call stack has a free slot for each:
/// from a stack pointer of `d`, up to `STACK_SIZE - d` calls succeed and leave
/// the stack pointer at `d` plus their number, and any longer chain fails with
/// a stack overflow.
pub proof fn lemma_nested_calls(m: Machine, addresses: Seq<u16>)
    requires
        m.wf(),
    ensures
        m.stack_pointer + addresses.len() <= STACK_SIZE ==> nested_calls(m, addresses) is Ok,
        m.stack_pointer + addresses.len() <= STACK_SIZE ==> nested_calls(m, addresses)->Ok_0.wf(),
        m.stack_pointer + addresses.len() <= STACK_SIZE ==> nested_calls(
            m,
            addresses,
        )->Ok_0.stack_pointer == m.stack_pointer + addresses.len(),
        m.stack_pointer + addresses.len() > STACK_SIZE ==> nested_calls(m, addresses) == Err::<
            Machine,
            Chip8Error,
        >(Chip8Error::StackOverflow),
    decreases addresses.len(),
{
    if addresses.len() > 0 {
        if m.stack_pointer < STACK_SIZE {
            lemma_nested_calls(m.call(addresses.first())->Ok_0, addresses.drop_first());
        }
    }
}

/// On an empty call stack sixteen nested calls succeed and fill the stack;
/// the seventeenth fails with a stack overflow, and the stack pointer of the
/// processor it was tried on is the size of the stack, not more.
pub proof fn lemma_sixteen_nested_calls(m: Machine, addresses: Seq<u16>, one_more: u16)
    requires
        m.wf(),
        m.stack_pointer == 0,
        addresses.len() == STACK_SIZE,
    ensures
        nested_calls(m, addresses) is Ok,
        nested_calls(m, addresses)->Ok_0.stack_pointer == STACK_SIZE,
        nested_calls(m, addresses)->Ok_0.call(one_more) == Err::<Machine, Chip8Error>(
            Chip8Error::StackOverflow,
        ),
        nested_calls(m, addresses.push(one_more)) == Err::<Machine, Chip8Error>(
            Chip8Error::StackOverflow,
        ),
{
    lemma_nested_calls(m, addresses);
    lemma_nested_calls(m, addresses.push(one_more));
}

/// A load is refused exactly if it starts in the system region or would end
/// beyond memory. A load that is accepted changes nothing but the bytes it
/// covers, which then hold the program.
pub proof fn lemma_load_bounds(m: Machine, address: int, program: Seq<u8>)
    requires
        m.wf(),
    ensures
        address <= SYSTEM_MEMORY_END ==> m.load(address, program) == Err::<Machine, Chip8Error>(
            Chip8Error::OutOfBoundsAddress,
        ),
        address + program.len() > MEMORY_SIZE ==> m.load(address, program) == Err::<
            Machine,
            Chip8Error,
        >(Chip8Error::OutOfBoundsAddress),
        SYSTEM_MEMORY_END < address && address + program.len() <= MEMORY_SIZE ==> ({
            let loaded = m.load(address, program)->Ok_0;
            &&& m.load(address, program) is Ok
            &&& loaded.wf()
            &&& loaded == (Machine { memory: loaded.memory, ..m })
            &&& loaded.memory.subrange(address, address + program.len()) == program
            &&& forall|i: int|
                0 <= i < MEMORY_SIZE && !(address <= i < address + program.len())
                    ==> loaded.memory[i] == m.memory[i]
        }),
{
}

/// A run ends in one of two ways: with the processor halted, or with the
/// error of a step that failed, on a processor that is running and on which
/// that step fails. Either way the processor is well formed.
pub proof fn lemma_run_ends_halted_or_failed(m: Machine)
    requires
        m.wf(),
    ensures
        m.run().0.wf(),
        m.run().1 is Ok ==> m.run().0.state == ExecutionState::Halted,
        m.run().1 is Err ==> m.run().0.state == ExecutionState::Running,
        m.run().1 is Err ==> m.run().0.step() == Err::<Machine, Chip8Error>(m.run().1->Err_0),
    decreases
        m.remaining(0),
        m.remaining(1),
        m.remaining(2),
        m.remaining(3),
        m.remaining(4),
        m.remaining(5),
        m.remaining(6),
        m.remaining(7),
        m.remaining(8),
        m.remaining(9),
        m.remaining(10),
        m.remaining(11),
        m.remaining(12),
        m.remaining(13),
        m.remaining(14),
        m.remaining(15),
        m.remaining(16),
{
    if m.state != ExecutionState::Halted {
        if m.step() is Ok {
            lemma_step_descends(m);
            lemma_run_ends_halted_or_failed(m.step()->Ok_0);
        }
    }
}

} // verus!
