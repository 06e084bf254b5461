use motorola88k::cpu::CPU;
use motorola88k::instructions::Instruction;
use motorola88k::memory::Memory;
use motorola88k::instructions::control::{Beq, Bge, Bgt, Ble, Blt, Bne, Jal, Jr, Ldcr, Rte, Stcr, Tbnd, Trap};

#[test]
fn test_beq() {
    let mut cpu = CPU::new();
    let mut memory = Memory::new();

    // Test branch taken
    cpu.registers[1] = 10;
    cpu.registers[2] = 10;
    cpu.s1 = 1;
    cpu.s2 = 2;
    cpu.offset = 100;
    cpu.pc = 1000;

    Beq.execute(&mut cpu, &mut memory);
    assert_eq!(cpu.pc, 1100);  // PC + offset

    // Test branch not taken
    cpu.registers[1] = 10;
    cpu.registers[2] = 20;
    cpu.pc = 1000;

    Beq.execute(&mut cpu, &mut memory);
    assert_eq!(cpu.pc, 1000);  // PC unchanged
}

#[test]
fn test_bne() {
    let mut cpu = CPU::new();
    let mut memory = Memory::new();

    // Test branch taken
    cpu.registers[1] = 10;
    cpu.registers[2] = 20;
    cpu.s1 = 1;
    cpu.s2 = 2;
    cpu.offset = 100;
    cpu.pc = 1000;

    Bne.execute(&mut cpu, &mut memory);
    assert_eq!(cpu.pc, 1100);  // PC + offset

    // Test branch not taken
    cpu.registers[1] = 10;
    cpu.registers[2] = 10;
    cpu.pc = 1000;

    Bne.execute(&mut cpu, &mut memory);
    assert_eq!(cpu.pc, 1000);  // PC unchanged
}

#[test]
fn test_bgt() {
    let mut cpu = CPU::new();
    let mut memory = Memory::new();

    // Test branch taken
    cpu.registers[1] = 20;
    cpu.registers[2] = 10;
    cpu.s1 = 1;
    cpu.s2 = 2;
    cpu.offset = 100;
    cpu.pc = 1000;

    Bgt.execute(&mut cpu, &mut memory);
    assert_eq!(cpu.pc, 1100);  // PC + offset

    // Test branch not taken
    cpu.registers[1] = 10;
    cpu.registers[2] = 20;
    cpu.pc = 1000;

    Bgt.execute(&mut cpu, &mut memory);
    assert_eq!(cpu.pc, 1000);  // PC unchanged
}

#[test]
fn test_blt() {
    let mut cpu = CPU::new();
    let mut memory = Memory::new();

    // Test branch taken
    cpu.registers[1] = 10;
    cpu.registers[2] = 20;
    cpu.s1 = 1;
    cpu.s2 = 2;
    cpu.offset = 100;
    cpu.pc = 1000;

    Blt.execute(&mut cpu, &mut memory);
    assert_eq!(cpu.pc, 1100);  // PC + offset

    // Test branch not taken
    cpu.registers[1] = 20;
    cpu.registers[2] = 10;
    cpu.pc = 1000;

    Blt.execute(&mut cpu, &mut memory);
    assert_eq!(cpu.pc, 1000);  // PC unchanged
}

#[test]
fn test_bge() {
    let mut cpu = CPU::new();
    let mut memory = Memory::new();

    // Test branch taken (greater)
    cpu.registers[1] = 20;
    cpu.registers[2] = 10;
    cpu.s1 = 1;
    cpu.s2 = 2;
    cpu.offset = 100;
    cpu.pc = 1000;

    Bge.execute(&mut cpu, &mut memory);
    assert_eq!(cpu.pc, 1100);  // PC + offset

    // Test branch taken (equal)
    cpu.registers[1] = 10;
    cpu.registers[2] = 10;
    cpu.pc = 1000;

    Bge.execute(&mut cpu, &mut memory);
    assert_eq!(cpu.pc, 1100);  // PC + offset

    // Test branch not taken
    cpu.registers[1] = 10;
    cpu.registers[2] = 20;
    cpu.pc = 1000;

    Bge.execute(&mut cpu, &mut memory);
    assert_eq!(cpu.pc, 1000);  // PC unchanged
}

#[test]
fn test_ble() {
    let mut cpu = CPU::new();
    let mut memory = Memory::new();

    // Test branch taken (less)
    cpu.registers[1] = 10;
    cpu.registers[2] = 20;
    cpu.s1 = 1;
    cpu.s2 = 2;
    cpu.offset = 100;
    cpu.pc = 1000;

    Ble.execute(&mut cpu, &mut memory);
    assert_eq!(cpu.pc, 1100);  // PC + offset

    // Test branch taken (equal)
    cpu.registers[1] = 10;
    cpu.registers[2] = 10;
    cpu.pc = 1000;

    Ble.execute(&mut cpu, &mut memory);
    assert_eq!(cpu.pc, 1100);  // PC + offset

    // Test branch not taken
    cpu.registers[1] = 20;
    cpu.registers[2] = 10;
    cpu.pc = 1000;

    Ble.execute(&mut cpu, &mut memory);
    assert_eq!(cpu.pc, 1000);  // PC unchanged
}

#[test]
fn test_jr() {
    let mut cpu = CPU::new();
    let mut memory = Memory::new();

    cpu.registers[1] = 0x1000;
    cpu.s1 = 1;

    Jr.execute(&mut cpu, &mut memory);
    assert_eq!(cpu.pc, 0x1000);
}

#[test]
fn test_jal() {
    let mut cpu = CPU::new();
    let mut memory = Memory::new();

    cpu.registers[1] = 0x1000;
    cpu.s1 = 1;
    cpu.pc = 0x500;

    Jal.execute(&mut cpu, &mut memory);
    assert_eq!(cpu.pc, 0x1000);
    assert_eq!(cpu.registers[1], 0x504);  // PC + 4
}

#[test]
fn test_ldcr() {
    let mut cpu = CPU::new();
    let mut memory = Memory::new();

    cpu.cr0 = 0xFFFFFFFF;
    cpu.d = 1;

    Ldcr.execute(&mut cpu, &mut memory);
    assert_eq!(cpu.registers[1], 0xFFFFFFFF);
}

#[test]
fn test_stcr() {
    let mut cpu = CPU::new();
    let mut memory = Memory::new();

    cpu.registers[1] = 0xFFFFFFFF;
    cpu.s1 = 1;

    Stcr.execute(&mut cpu, &mut memory);
    assert_eq!(cpu.cr0, 0xFFFFFFFF);
}

#[test]
fn test_rte() {
    let mut cpu = CPU::new();
    let mut memory = Memory::new();

    cpu.sxip = 0x1000;
    cpu.snip = 0x1004;
    cpu.sfip = 0x1008;
    cpu.pc = 0x500;

    Rte.execute(&mut cpu, &mut memory);
    assert_eq!(cpu.pc, 0x1000);
    assert_eq!(cpu.nip, 0x1004);
    assert_eq!(cpu.fip, 0x1008);
}

#[test]
fn test_tbnd() {
    let mut cpu = CPU::new();
    let mut memory = Memory::new();

    // Test within bounds
    cpu.registers[1] = 100;
    cpu.registers[2] = 200;
    cpu.s1 = 1;
    cpu.s2 = 2;

    Tbnd.execute(&mut cpu, &mut memory);
    assert_eq!(cpu.cr0 & CPU::CR0_BOUNDS_CHECK, 0);

    // Test out of bounds
    cpu.registers[1] = 300;
    cpu.registers[2] = 200;

    Tbnd.execute(&mut cpu, &mut memory);
    assert_ne!(cpu.cr0 & CPU::CR0_BOUNDS_CHECK, 0);
}

#[test]
fn test_trap() {
    let mut cpu = CPU::new();
    let mut memory = Memory::new();

    // Test trap vector 5
    cpu.vector = 5;

    Trap.execute(&mut cpu, &mut memory);
    assert_ne!(cpu.cr0 & CPU::CR0_TRAP, 0);
    assert_eq!(cpu.trap_vector, 5);
}
