//! The instruction set. Each instruction is a value whose `execute` applies its
//! effect to the processor and memory; faults are reported through CR0 bits,
//! never by failing.
use crate::cpu::CPU;
use crate::memory::Memory;
use vstd::prelude::*;

pub mod arithmetic;
pub mod logical;
pub mod control;
pub mod floating_point;
pub mod memory_access;
pub mod mmu;
pub mod system;
pub mod vector;

verus! {

/// An executable instruction.
pub trait Instruction {
    /// The register indices that the instruction itself carries name registers.
    /// Instructions that carry none keep the default.
    open spec fn operands_valid(&self) -> bool {
        true
    }

    /// Performs the instruction on `cpu` and `memory`.
    fn execute(&self, cpu: &mut CPU, memory: &mut Memory)
        requires
            self.operands_valid(),
            old(cpu).wf(),
        ensures
            final(cpu).wf(),
            final(memory)@.bytes.len() == old(memory)@.bytes.len(),
    ;
}

} // verus!
