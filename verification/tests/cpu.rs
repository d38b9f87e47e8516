use chip8_cpu::cpu::Cpu;

#[test]
fn test_add_xy() {
    let mut cpu = Cpu::default();
    cpu.registers[0x0] = 5;
    cpu.registers[0x1] = 10;

    cpu.memory[0x000] = 0x80;
    cpu.memory[0x001] = 0x14;

    cpu.run().unwrap();

    assert_eq!(15, cpu.registers[0x0]);
    assert_eq!(0, cpu.registers[0xF]);
    cpu.reset();

    cpu.registers[0x0] = 255;
    cpu.registers[0x1] = 1;

    cpu.memory[0x000] = 0x80;
    cpu.memory[0x001] = 0x14;
    cpu.run().unwrap();

    assert_eq!(1, cpu.registers[0xF]);
}

#[test]
fn test_sub_xy() {
    let mut cpu = Cpu::default();
    cpu.registers[0x0] = 10;
    cpu.registers[0x1] = 6;

    cpu.memory[0x000] = 0x80;
    cpu.memory[0x001] = 0x15;
    cpu.run().unwrap();

    assert_eq!(4, cpu.registers[0x0]);
    assert_eq!(1, cpu.registers[0xF]);
    cpu.reset();

    cpu.registers[0x0] = 0;
    cpu.registers[0x1] = 1;

    cpu.memory[0x000] = 0x80;
    cpu.memory[0x001] = 0x15;
    cpu.run().unwrap();

    assert_eq!(0, cpu.registers[0xF]);
}

#[test]
fn test_assign() {
    let mut cpu = Cpu::default();
    cpu.registers[0x0] = 6;
    cpu.registers[0x1] = 10;

    cpu.memory[0x000] = 0x80;
    cpu.memory[0x001] = 0x10;

    cpu.run().unwrap();

    assert_eq!(10, cpu.registers[0x0]);
}

#[test]
fn test_or_xy() {
    let mut cpu = Cpu::default();
    cpu.registers[0x0] = 0b1100;
    cpu.registers[0x1] = 0b0011;

    cpu.memory[0x0] = 0x80;
    cpu.memory[0x1] = 0x11;
    cpu.run().unwrap();

    assert_eq!(0b1111, cpu.registers[0x0]);
}

#[test]
fn test_and_xy() {
    let mut cpu = Cpu::default();
    cpu.registers[0x0] = 0xFF;
    cpu.registers[0x1] = 0x0F;

    cpu.memory[0x0] = 0x80;
    cpu.memory[0x1] = 0x12;
    cpu.run().unwrap();

    assert_eq!(0x0F, cpu.registers[0x0]);
}

#[test]
fn test_xor_xy() {
    let mut cpu = Cpu::default();
    cpu.registers[0x0] = 0x11;
    cpu.registers[0x1] = 0xFF;

    cpu.memory[0x0] = 0x80;
    cpu.memory[0x1] = 0x13;
    cpu.run().unwrap();

    assert_eq!(0xEE, cpu.registers[0x0]);
}

#[test]
fn test_shift_right_1() {
    let mut cpu = Cpu::default();
    cpu.registers[0x0] = 0b11;

    cpu.memory[0x0] = 0x80;
    cpu.memory[0x1] = 0x16;
    cpu.run().unwrap();

    assert_eq!(0x1, cpu.registers[0xF]);
    assert_eq!(0b01, cpu.registers[0x0]);
}

#[test]
fn test_set_sub_xy() {
    let mut cpu = Cpu::default();
    cpu.registers[0x0] = 6;
    cpu.registers[0x1] = 10;

    cpu.memory[0x0] = 0x80;
    cpu.memory[0x1] = 0x17;
    cpu.run().unwrap();

    assert_eq!(4, cpu.registers[0x0]);
}

#[test]
fn test_shift_left_1() {
    let mut cpu = Cpu::default();
    cpu.registers[0x0] = 0b11;

    cpu.memory[0x0] = 0x80;
    cpu.memory[0x1] = 0x0E;
    cpu.run().unwrap();

    assert_eq!(0b110, cpu.registers[0x0]);
    assert_eq!(0b01, cpu.registers[0xF]);
}

#[test]
fn test_call_and_ret() {
    let mut cpu = Cpu::default();
    cpu.registers[0x0] = 5;
    cpu.registers[0x1] = 10;

    cpu.memory[0x000] = 0x21;
    cpu.memory[0x001] = 0x00;
    cpu.memory[0x002] = 0x21;
    cpu.memory[0x003] = 0x00;

    cpu.memory[0x100] = 0x80;
    cpu.memory[0x101] = 0x14;
    cpu.memory[0x102] = 0x00;
    cpu.memory[0x103] = 0xEE;

    cpu.run().unwrap();

    assert_eq!(25, cpu.registers[0x0]);
}

#[test]
fn cpu_test_add_xy() {
    let mut cpu = Cpu::default();
    cpu.registers[0] = 5;
    cpu.registers[1] = 10;

    cpu.memory[0x000] = 0x80;
    cpu.memory[0x001] = 0x14;

    cpu.run().unwrap();

    assert_eq!(15, cpu.registers[0]);
}

#[test]
fn cpu_test_sub_xy() {
    let mut cpu = Cpu::default();
    cpu.registers[0] = 6;
    cpu.registers[1] = 10;

    cpu.memory[0x000] = 0x80;
    cpu.memory[0x001] = 0x17;

    cpu.run().unwrap();

    assert_eq!(4, cpu.registers[0]);
}

#[test]
fn cpu_test_assign() {
    let mut cpu = Cpu::default();
    cpu.registers[0] = 6;
    cpu.registers[1] = 10;

    cpu.memory[0x000] = 0x80;
    cpu.memory[0x001] = 0x10;

    cpu.run().unwrap();

    assert_eq!(10, cpu.registers[0]);
}

#[test]
fn cpu_test_call_and_ret() {
    let mut cpu = Cpu::default();
    cpu.registers[0] = 5;
    cpu.registers[1] = 10;

    cpu.memory[0x000] = 0x21;
    cpu.memory[0x001] = 0x00;
    cpu.memory[0x002] = 0x21;
    cpu.memory[0x003] = 0x00;

    cpu.memory[0x100] = 0x80;
    cpu.memory[0x101] = 0x14;
    cpu.memory[0x102] = 0x00;
    cpu.memory[0x103] = 0xEE;

    cpu.run().unwrap();

    assert_eq!(25, cpu.registers[0]);
}
