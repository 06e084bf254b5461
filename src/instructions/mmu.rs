//! MMU control: page table base load, translation disable, the MMU enable
//! transfer, and the address-translate instruction.
use crate::cpu::{PrivilegeLevel, CPU};
use crate::instructions::Instruction;
use crate::memory::{MemView, Memory};
use vstd::prelude::*;

verus! {

/// Load page table base (supervisor only): enables translation with the page
/// table at register `rd`, aligned down to 4 KiB.
#[derive(Debug)]
pub struct PTBR {
    pub rd: usize,
}

impl Instruction for PTBR {
    open spec fn operands_valid(&self) -> bool {
        self.rd < 32
    }

    fn execute(&self, cpu: &mut CPU, memory: &mut Memory)
        ensures
            old(cpu).privilege_level != PrivilegeLevel::Supervisor ==> {
                &&& *final(cpu) == old(cpu).with_cr0(old(cpu).cr0 | CPU::CR0_PRIVILEGE_VIOLATION)
                &&& final(memory)@ == old(memory)@
            },
            old(cpu).privilege_level == PrivilegeLevel::Supervisor ==> {
                &&& *final(cpu) == *old(cpu)
                &&& final(memory)@ == (MemView {
                    mmu_enabled: true,
                    page_table_base: old(cpu).reg(self.rd as int) & 0xFFFFF000,
                    ..old(memory)@
                })
            },
    {
        if cpu.get_privilege_level() != PrivilegeLevel::Supervisor {
            cpu.set_privilege_violation();
            return ;
        }
        memory.set_mmu_enabled(true);
        memory.set_page_table_base(cpu.registers[self.rd]);
    }
}

/// Invalidate translations (supervisor only): disables the MMU.
#[derive(Debug)]
pub struct TLBInvalidate;

impl Instruction for TLBInvalidate {
    fn execute(&self, cpu: &mut CPU, memory: &mut Memory)
        ensures
            old(cpu).privilege_level != PrivilegeLevel::Supervisor ==> {
                &&& *final(cpu) == old(cpu).with_cr0(old(cpu).cr0 | CPU::CR0_PRIVILEGE_VIOLATION)
                &&& final(memory)@ == old(memory)@
            },
            old(cpu).privilege_level == PrivilegeLevel::Supervisor ==> {
                &&& *final(cpu) == *old(cpu)
                &&& final(memory)@ == (MemView { mmu_enabled: false, ..old(memory)@ })
            },
    {
        if cpu.get_privilege_level() != PrivilegeLevel::Supervisor {
            cpu.set_privilege_violation();
            return ;
        }
        memory.set_mmu_enabled(false);
    }
}

/// Translate: register `rd` = the physical address of the virtual address in
/// register `rs1`; a failed translation sets the page fault bit instead.
#[derive(Debug)]
pub struct Translate {
    pub rd: usize,
    pub rs1: usize,
}

impl Instruction for Translate {
    open spec fn operands_valid(&self) -> bool {
        self.rd < 32 && self.rs1 < 32
    }

    fn execute(&self, cpu: &mut CPU, memory: &mut Memory)
        ensures
            final(memory)@ == old(memory)@,
            match old(memory)@.translate(old(cpu).reg(self.rs1 as int)) {
                Ok(p) => *final(cpu) == old(cpu).with_reg(self.rd as int, p as u32),
                Err(_) => *final(cpu) == old(cpu).with_cr0(old(cpu).cr0 | CPU::CR0_PAGE_FAULT),
            },
    {
        match memory.translate_address(cpu.registers[self.rs1]) {
            Ok(physical_addr) => cpu.set_reg(self.rd, physical_addr as u32),
            Err(_) => cpu.set_page_fault(),
        }
    }
}

/// Load the MMU enable state: the memory's translation follows the enable bit
/// of the processor's MMU control register.
pub struct TLBLoad;

impl Instruction for TLBLoad {
    fn execute(&self, cpu: &mut CPU, memory: &mut Memory)
        ensures
            *final(cpu) == *old(cpu),
            final(memory)@ == (MemView {
                mmu_enabled: old(cpu).mmu_control & CPU::MMU_ENABLE != 0,
                ..old(memory)@
            }),
    {
        memory.set_mmu_enabled(cpu.mmu_enabled());
    }
}

} // verus!
