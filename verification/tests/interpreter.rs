use chip8::CPU;

#[test]
fn init() {
    let cpu = CPU::new();

    assert_eq!(cpu.registers()[0], 0);
    assert_eq!(cpu.registers()[1], 0);
    for byte in *cpu.memory() {
        assert_eq!(byte, 0);
    }
}

#[test]
fn add_second_register_to_first() {
    let mut cpu = CPU::new();

    cpu.write_memory(0, 0x80);
    cpu.write_memory(1, 0x14);
    cpu.set_register(0, 5);
    cpu.set_register(1, 10);
    cpu.step().unwrap();

    assert_eq!(cpu.registers()[0], 15);
    assert_eq!(cpu.registers()[1], 10);
}

#[test]
fn add_first_register_to_second() {
    let mut cpu = CPU::new();

    cpu.write_memory(0, 0x81);
    cpu.write_memory(1, 0x04);
    cpu.set_register(0, 5);
    cpu.set_register(1, 10);
    cpu.step().unwrap();

    assert_eq!(cpu.registers()[0], 5);
    assert_eq!(cpu.registers()[1], 15);
}

#[test]
fn overflows_set_overflow_flag() {
    let mut cpu = CPU::new();

    cpu.write_memory(0, 0x80);
    cpu.write_memory(1, 0x14);
    cpu.set_register(0, u8::MAX);
    cpu.set_register(1, 1);
    cpu.step().unwrap();

    assert_eq!(cpu.registers()[0], 0);
    assert_eq!(cpu.registers()[1], 1);
    assert_eq!(cpu.registers()[0xF], 1);
}

#[test]
fn halts_on_0000() {
    let mut cpu = CPU::new();
    cpu.continue_execution().unwrap();
    assert_eq!(cpu.program_counter(), 2);
}

#[test]
fn add_twice() {
    let mut cpu = CPU::new();
    let add_twice = [
        0x80, 0x14, // add(0, 1)
        0x80, 0x14, // add(0, 1)
        0x00, 0xEE, // ret()
    ];

    cpu.load_program(&add_twice).unwrap();

    assert_eq!(
        cpu.memory()[0x200..0x208],
        [
            0x80, 0x14, // add(0, 1)
            0x80, 0x14, // add(0, 1)
            0x00, 0xEE, // ret()
            0x00, 0x00, // noop
        ]
    );
}

#[test]
fn call_sets_program_counter() {
    let mut cpu = CPU::new();
    let simple_call = [
        0x20, 0x00, // call(0x000)
    ];

    cpu.load_program(&simple_call).unwrap();
    cpu.run_program().unwrap();
    assert_eq!(cpu.program_counter(), 0x002);
}

#[test]
fn do_a_thing() {
    let mut cpu = CPU::new();

    cpu.set_register(0, 5);
    cpu.set_register(1, 10);

    cpu.load_program(&[
        0x23, 0x00, // call(0x300)
        0x23, 0x00, // call(0x300)
        0x00, 0x00, // halt
    ])
    .unwrap();

    cpu.load_program_at(
        0x300,
        &[
            0x80, 0x14, // add(...)
            0x80, 0x14, // add(...)
            0x00, 0xEE, // ret()
        ],
    )
    .unwrap();

    cpu.run_program().unwrap();

    assert_eq!(cpu.registers()[0], 45);
}

#[test]
#[should_panic]
fn stack_underflow() {
    let mut cpu = CPU::new();
    let simply_return = [
        0x00, 0xEE, // ret()
    ];

    cpu.load_program(&simply_return).unwrap();
    cpu.run_program().unwrap();
}

#[test]
#[should_panic]
fn stack_overflow() {
    let mut cpu = CPU::new();
    let infinite_loop = [
        0x22, 0x00, // call(0x200)
    ];

    cpu.load_program(&infinite_loop).unwrap();

    cpu.run_program().unwrap();
}
