//! Control flow: conditional branches, jumps, control register transfer,
//! exception return, traps and bound checks. Branches move the program counter
//! by the signed offset only when taken; sequential advance is the caller's.
use crate::cpu::{extend_i16, signed, signed_less, wrap32, CPU};
use crate::instructions::Instruction;
use crate::memory::Memory;
use vstd::prelude::*;

verus! {

/// Branch if equal: pc += offset when rs1 == rs2.
pub struct Beq;

impl Instruction for Beq {
    fn execute(&self, cpu: &mut CPU, memory: &mut Memory)
        ensures
            *final(cpu) == (if old(cpu).rs1() == old(cpu).rs2() {
                old(cpu).with_pc(wrap32(old(cpu).pc + old(cpu).offset))
            } else {
                *old(cpu)
            }),
            final(memory)@ == old(memory)@,
    {
        let a = cpu.registers[cpu.s1];
        let b = cpu.registers[cpu.s2];
        if a == b {
            cpu.pc = cpu.pc.wrapping_add(extend_i16(cpu.offset));
        }
    }
}

/// Branch if not equal: pc += offset when rs1 != rs2.
pub struct Bne;

impl Instruction for Bne {
    fn execute(&self, cpu: &mut CPU, memory: &mut Memory)
        ensures
            *final(cpu) == (if old(cpu).rs1() != old(cpu).rs2() {
                old(cpu).with_pc(wrap32(old(cpu).pc + old(cpu).offset))
            } else {
                *old(cpu)
            }),
            final(memory)@ == old(memory)@,
    {
        let a = cpu.registers[cpu.s1];
        let b = cpu.registers[cpu.s2];
        if a != b {
            cpu.pc = cpu.pc.wrapping_add(extend_i16(cpu.offset));
        }
    }
}

/// Jump register: pc = rs1.
pub struct Jr;

impl Instruction for Jr {
    fn execute(&self, cpu: &mut CPU, memory: &mut Memory)
        ensures
            *final(cpu) == old(cpu).with_pc(old(cpu).rs1()),
            final(memory)@ == old(memory)@,
    {
        cpu.pc = cpu.registers[cpu.s1];
    }
}

/// Jump and link: pc = rs1, then rs1 = old pc + 4.
pub struct Jal;

impl Instruction for Jal {
    fn execute(&self, cpu: &mut CPU, memory: &mut Memory)
        ensures
            *final(cpu) == old(cpu).with_pc(old(cpu).rs1()).with_reg(
                old(cpu).s1 as int,
                wrap32(old(cpu).pc + 4),
            ),
            final(memory)@ == old(memory)@,
    {
        let return_addr = cpu.pc.wrapping_add(4);
        cpu.pc = cpu.registers[cpu.s1];
        let s1 = cpu.s1;
        cpu.set_reg(s1, return_addr);
    }
}

/// Load control register: rd = CR0.
pub struct Ldcr;

impl Instruction for Ldcr {
    fn execute(&self, cpu: &mut CPU, memory: &mut Memory)
        ensures
            *final(cpu) == old(cpu).with_rd(old(cpu).cr0),
            final(memory)@ == old(memory)@,
    {
        let v = cpu.cr0;
        let d = cpu.d;
        cpu.set_reg(d, v);
    }
}

/// Store control register: CR0 = rs1.
pub struct Stcr;

impl Instruction for Stcr {
    fn execute(&self, cpu: &mut CPU, memory: &mut Memory)
        ensures
            *final(cpu) == old(cpu).with_cr0(old(cpu).rs1()),
            final(memory)@ == old(memory)@,
    {
        cpu.cr0 = cpu.registers[cpu.s1];
    }
}

/// Return from exception: pc, nip and fip are restored from their shadow copies.
pub struct Rte;

impl Instruction for Rte {
    fn execute(&self, cpu: &mut CPU, memory: &mut Memory)
        ensures
            *final(cpu) == (CPU {
                pc: old(cpu).sxip,
                nip: old(cpu).snip,
                fip: old(cpu).sfip,
                ..*old(cpu)
            }),
            final(memory)@ == old(memory)@,
    {
        cpu.pc = cpu.sxip;
        cpu.nip = cpu.snip;
        cpu.fip = cpu.sfip;
    }
}

/// Trap: sets the trap bit and records the current vector number.
pub struct Trap;

impl Instruction for Trap {
    fn execute(&self, cpu: &mut CPU, memory: &mut Memory)
        ensures
            *final(cpu) == (CPU {
                cr0: old(cpu).cr0 | CPU::CR0_TRAP,
                trap_vector: old(cpu).vector,
                ..*old(cpu)
            }),
            final(memory)@ == old(memory)@,
    {
        cpu.cr0 = cpu.cr0 | CPU::CR0_TRAP;
        cpu.trap_vector = cpu.vector;
    }
}

/// Trap on bound: sets the bounds-check bit when rs1 > rs2 (unsigned).
pub struct Tbnd;

impl Instruction for Tbnd {
    fn execute(&self, cpu: &mut CPU, memory: &mut Memory)
        ensures
            *final(cpu) == (if old(cpu).rs1() > old(cpu).rs2() {
                old(cpu).with_cr0(old(cpu).cr0 | CPU::CR0_BOUNDS_CHECK)
            } else {
                *old(cpu)
            }),
            final(memory)@ == old(memory)@,
    {
        if cpu.registers[cpu.s1] > cpu.registers[cpu.s2] {
            cpu.cr0 = cpu.cr0 | CPU::CR0_BOUNDS_CHECK;
        }
    }
}

/// Branch if greater: pc += offset when rs1 > rs2 (signed).
pub struct Bgt;

impl Instruction for Bgt {
    fn execute(&self, cpu: &mut CPU, memory: &mut Memory)
        ensures
            *final(cpu) == (if signed(old(cpu).rs1()) > signed(old(cpu).rs2()) {
                old(cpu).with_pc(wrap32(old(cpu).pc + old(cpu).offset))
            } else {
                *old(cpu)
            }),
            final(memory)@ == old(memory)@,
    {
        let a = cpu.registers[cpu.s1];
        let b = cpu.registers[cpu.s2];
        if signed_less(b, a) {
            cpu.pc = cpu.pc.wrapping_add(extend_i16(cpu.offset));
        }
    }
}

/// Branch if less: pc += offset when rs1 < rs2 (signed).
pub struct Blt;

impl Instruction for Blt {
    fn execute(&self, cpu: &mut CPU, memory: &mut Memory)
        ensures
            *final(cpu) == (if signed(old(cpu).rs1()) < signed(old(cpu).rs2()) {
                old(cpu).with_pc(wrap32(old(cpu).pc + old(cpu).offset))
            } else {
                *old(cpu)
            }),
            final(memory)@ == old(memory)@,
    {
        let a = cpu.registers[cpu.s1];
        let b = cpu.registers[cpu.s2];
        if signed_less(a, b) {
            cpu.pc = cpu.pc.wrapping_add(extend_i16(cpu.offset));
        }
    }
}

/// Branch if greater or equal: pc += offset when rs1 >= rs2 (signed).
pub struct Bge;

impl Instruction for Bge {
    fn execute(&self, cpu: &mut CPU, memory: &mut Memory)
        ensures
            *final(cpu) == (if signed(old(cpu).rs1()) >= signed(old(cpu).rs2()) {
                old(cpu).with_pc(wrap32(old(cpu).pc + old(cpu).offset))
            } else {
                *old(cpu)
            }),
            final(memory)@ == old(memory)@,
    {
        let a = cpu.registers[cpu.s1];
        let b = cpu.registers[cpu.s2];
        if !signed_less(a, b) {
            cpu.pc = cpu.pc.wrapping_add(extend_i16(cpu.offset));
        }
    }
}

/// Branch if less or equal: pc += offset when rs1 <= rs2 (signed).
pub struct Ble;

impl Instruction for Ble {
    fn execute(&self, cpu: &mut CPU, memory: &mut Memory)
        ensures
            *final(cpu) == (if signed(old(cpu).rs1()) <= signed(old(cpu).rs2()) {
                old(cpu).with_pc(wrap32(old(cpu).pc + old(cpu).offset))
            } else {
                *old(cpu)
            }),
            final(memory)@ == old(memory)@,
    {
        let a = cpu.registers[cpu.s1];
        let b = cpu.registers[cpu.s2];
        if !signed_less(b, a) {
            cpu.pc = cpu.pc.wrapping_add(extend_i16(cpu.offset));
        }
    }
}

} // verus!
