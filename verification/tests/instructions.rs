use chip8::instruction::decode;
use chip8::Chip8Error;
use chip8::ExecutionState;
use chip8::Instruction;
use chip8::CHIP8;
use chip8::CPU;

#[test]
fn decodes_halt() {
    assert_eq!(decode(0x0000), Instruction::Halt);
}

#[test]
fn decodes_return() {
    assert_eq!(decode(0x00EE), Instruction::Return);
}

#[test]
fn decodes_call_with_its_address() {
    assert_eq!(decode(0x2ABC), Instruction::Call { address: 0xABC });
    assert_eq!(decode(0x2000), Instruction::Call { address: 0x000 });
    assert_eq!(decode(0x2FFF), Instruction::Call { address: 0xFFF });
}

#[test]
fn decodes_add_with_its_registers() {
    assert_eq!(decode(0x8014), Instruction::Add { x: 0, y: 1 });
    assert_eq!(decode(0x8104), Instruction::Add { x: 1, y: 0 });
    assert_eq!(decode(0x8FE4), Instruction::Add { x: 0xF, y: 0xE });
}

#[test]
fn decodes_anything_else_as_unimplemented() {
    assert_eq!(decode(0x00E0), Instruction::Unimplemented { opcode: 0x00E0 });
    assert_eq!(decode(0x00EF), Instruction::Unimplemented { opcode: 0x00EF });
    assert_eq!(decode(0x0100), Instruction::Unimplemented { opcode: 0x0100 });
    assert_eq!(decode(0x1200), Instruction::Unimplemented { opcode: 0x1200 });
    assert_eq!(decode(0x8015), Instruction::Unimplemented { opcode: 0x8015 });
    assert_eq!(decode(0xFFFF), Instruction::Unimplemented { opcode: 0xFFFF });
}

#[test]
fn add_wraps_and_reports_the_overflow() {
    let mut cpu = CPU::new();
    cpu.set_register(3, 200);
    cpu.set_register(7, 100);

    cpu.add(3, 7);

    assert_eq!(cpu.registers()[3], 44);
    assert_eq!(cpu.registers()[7], 100);
    assert_eq!(cpu.registers()[0xF], 1);
}

#[test]
fn add_clears_the_flag_when_the_sum_fits() {
    let mut cpu = CPU::new();
    cpu.set_register(0, 5);
    cpu.set_register(1, 10);
    cpu.set_register(0xF, 1);

    cpu.add(0, 1);

    assert_eq!(cpu.registers()[0], 15);
    assert_eq!(cpu.registers()[0xF], 0);
}

#[test]
fn add_of_255_and_0_does_not_overflow() {
    let mut cpu = CPU::new();
    cpu.set_register(0, 255);

    cpu.add(0, 1);

    assert_eq!(cpu.registers()[0], 255);
    assert_eq!(cpu.registers()[0xF], 0);
}

#[test]
fn add_of_a_register_to_itself_doubles_it() {
    let mut cpu = CPU::new();
    cpu.set_register(4, 0x81);

    cpu.add(4, 4);

    assert_eq!(cpu.registers()[4], 0x02);
    assert_eq!(cpu.registers()[0xF], 1);
}

#[test]
fn add_leaves_every_other_register_alone() {
    let mut cpu = CPU::new();
    for index in 0..16 {
        cpu.set_register(index, 10 + index as u8);
    }

    cpu.add(2, 9);

    for index in 0..15 {
        let expected = if index == 2 { 12 + 19 } else { 10 + index as u8 };
        assert_eq!(cpu.registers()[index], expected);
    }
    assert_eq!(cpu.registers()[0xF], 0);
    assert_eq!(cpu.program_counter(), 0);
    assert_eq!(cpu.stack_pointer(), 0);
    assert_eq!(cpu.state(), ExecutionState::Halted);
}

#[test]
fn add_into_the_flag_register_keeps_the_flag_not_the_sum() {
    let mut cpu = CPU::new();
    cpu.set_register(0xF, 200);
    cpu.set_register(1, 100);

    cpu.add(0xF, 1);

    assert_eq!(cpu.registers()[0xF], 1);
    assert_eq!(cpu.registers()[1], 100);

    let mut cpu = CPU::new();
    cpu.set_register(0xF, 20);
    cpu.set_register(1, 10);

    cpu.add(0xF, 1);

    assert_eq!(cpu.registers()[0xF], 0);
}

#[test]
fn add_of_the_flag_register_reads_it_before_the_flag_is_written() {
    let mut cpu = CPU::new();
    cpu.set_register(0, 250);
    cpu.set_register(0xF, 7);

    cpu.add(0, 0xF);

    assert_eq!(cpu.registers()[0], 1);
    assert_eq!(cpu.registers()[0xF], 1);
}

#[test]
fn call_pushes_the_counter_and_jumps() {
    let mut cpu = CPU::new();
    cpu.set_program_counter(0x204).unwrap();

    assert_eq!(cpu.call(0x300), Ok(()));

    assert_eq!(cpu.program_counter(), 0x300);
    assert_eq!(cpu.stack_pointer(), 1);
    assert_eq!(cpu.stack()[0], 0x204);
}

#[test]
fn ret_pops_the_counter() {
    let mut cpu = CPU::new();
    cpu.set_program_counter(0x204).unwrap();
    cpu.call(0x300).unwrap();
    cpu.call(0x400).unwrap();

    assert_eq!(cpu.ret(), Ok(()));
    assert_eq!(cpu.program_counter(), 0x300);
    assert_eq!(cpu.stack_pointer(), 1);

    assert_eq!(cpu.ret(), Ok(()));
    assert_eq!(cpu.program_counter(), 0x204);
    assert_eq!(cpu.stack_pointer(), 0);
}

#[test]
fn call_then_ret_comes_back() {
    let mut cpu = CPU::new();
    cpu.set_register(5, 9);
    cpu.set_program_counter(0x0ABC).unwrap();

    cpu.call(0x0123).unwrap();
    cpu.ret().unwrap();

    assert_eq!(cpu.program_counter(), 0x0ABC);
    assert_eq!(cpu.stack_pointer(), 0);
    assert_eq!(cpu.registers()[5], 9);
    assert_eq!(cpu.state(), ExecutionState::Halted);
}

#[test]
fn ret_on_an_empty_stack_underflows_and_changes_nothing() {
    let mut cpu = CPU::new();
    cpu.set_program_counter(0x0246).unwrap();

    assert_eq!(cpu.ret(), Err(Chip8Error::StackUnderflow));

    assert_eq!(cpu.program_counter(), 0x0246);
    assert_eq!(cpu.stack_pointer(), 0);
}

#[test]
fn sixteen_nested_calls_fit_and_the_seventeenth_overflows() {
    let mut cpu = CPU::new();
    cpu.set_program_counter(0x200).unwrap();

    for depth in 0..16u16 {
        assert_eq!(cpu.call(0x300 + 2 * depth), Ok(()));
        assert_eq!(cpu.stack_pointer(), depth + 1);
    }
    assert_eq!(cpu.stack()[0], 0x200);
    assert_eq!(cpu.stack()[1], 0x300);
    assert_eq!(cpu.stack()[15], 0x300 + 2 * 14);
    assert_eq!(cpu.program_counter(), 0x300 + 2 * 15);

    assert_eq!(cpu.call(0x400), Err(Chip8Error::StackOverflow));

    assert_eq!(cpu.stack_pointer(), 16);
    assert_eq!(cpu.program_counter(), 0x300 + 2 * 15);
    assert_eq!(cpu.stack()[15], 0x300 + 2 * 14);
}

#[test]
fn a_full_stack_empties_again() {
    let mut cpu = CPU::new();
    for depth in 0..16u16 {
        cpu.call(depth).unwrap();
    }
    for _ in 0..16 {
        cpu.ret().unwrap();
    }
    assert_eq!(cpu.stack_pointer(), 0);
    assert_eq!(cpu.program_counter(), 0);
    assert_eq!(cpu.ret(), Err(Chip8Error::StackUnderflow));
}
