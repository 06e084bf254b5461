use motorola88k::cpu::CPU;
use motorola88k::instructions::Instruction;
use motorola88k::memory::Memory;
use motorola88k::instructions::logical::{And, ExtByte, ExtHalf, ExtUByte, ExtUHalf, MakN, Or};

#[test]
fn test_and() {
    let mut cpu = CPU::new();
    let mut memory = Memory::new();

    cpu.registers[1] = 0xFF00;
    cpu.registers[2] = 0x0FF0;
    cpu.d = 3;
    cpu.s1 = 1;
    cpu.s2 = 2;

    And.execute(&mut cpu, &mut memory);

    assert_eq!(cpu.registers[3], 0x0F00);
}

#[test]
fn test_or() {
    let mut cpu = CPU::new();
    let mut memory = Memory::new();

    cpu.registers[1] = 0xFF00;
    cpu.registers[2] = 0x0FF0;
    cpu.d = 3;
    cpu.s1 = 1;
    cpu.s2 = 2;

    Or.execute(&mut cpu, &mut memory);

    assert_eq!(cpu.registers[3], 0xFFF0);
}

#[test]
fn test_extu_half() {
    let mut cpu = CPU::new();
    let mut memory = Memory::new();

    cpu.registers[1] = 0xFFFF1234;
    cpu.d = 2;
    cpu.s1 = 1;

    ExtUHalf.execute(&mut cpu, &mut memory);
    assert_eq!(cpu.registers[2], 0x1234);
}

#[test]
fn test_extu_byte() {
    let mut cpu = CPU::new();
    let mut memory = Memory::new();

    cpu.registers[1] = 0xFFFFFF12;
    cpu.d = 2;
    cpu.s1 = 1;

    ExtUByte.execute(&mut cpu, &mut memory);
    assert_eq!(cpu.registers[2], 0x12);
}

#[test]
fn test_ext_half() {
    let mut cpu = CPU::new();
    let mut memory = Memory::new();

    // Test positive number
    cpu.registers[1] = 0x00001234;
    cpu.d = 2;
    cpu.s1 = 1;

    ExtHalf.execute(&mut cpu, &mut memory);
    assert_eq!(cpu.registers[2] as i32, 0x1234);

    // Test negative number
    cpu.registers[1] = 0x0000F234;
    ExtHalf.execute(&mut cpu, &mut memory);
    assert_eq!(cpu.registers[2] as i32, -3532);  // 0xFFFFF234
}

#[test]
fn test_ext_byte() {
    let mut cpu = CPU::new();
    let mut memory = Memory::new();

    // Test positive number
    cpu.registers[1] = 0x00000012;
    cpu.d = 2;
    cpu.s1 = 1;

    ExtByte.execute(&mut cpu, &mut memory);
    assert_eq!(cpu.registers[2] as i32, 0x12);

    // Test negative number
    cpu.registers[1] = 0x000000F2;
    ExtByte.execute(&mut cpu, &mut memory);
    assert_eq!(cpu.registers[2] as i32, -14);  // 0xFFFFFFF2
}

#[test]
fn test_makn() {
    let mut cpu = CPU::new();
    let mut memory = Memory::new();

    // Test making a 4-bit field at offset 8
    cpu.registers[1] = 0x0000000F;  // Value
    cpu.registers[2] = (8 << 5) | 4;  // offset=8, width=4
    cpu.d = 3;
    cpu.s1 = 1;
    cpu.s2 = 2;

    MakN.execute(&mut cpu, &mut memory);
    assert_eq!(cpu.registers[3], 0x00000F00);

    // Test with zero width
    cpu.registers[2] = 0;  // offset=0, width=0
    MakN.execute(&mut cpu, &mut memory);
    assert_eq!(cpu.registers[3], 0);

    // Test with maximum width
    cpu.registers[1] = 0xFFFFFFFF;
    cpu.registers[2] = 31;  // offset=0, width=31
    MakN.execute(&mut cpu, &mut memory);
    assert_eq!(cpu.registers[3], 0x7FFFFFFF);
}

// Add more tests following the same pattern...
