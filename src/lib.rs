//! An emulator core for the Motorola 88000: processor state, instruction
//! semantics and a byte-addressed physical memory with page-table translation.
pub mod cpu;
pub mod instructions;
pub mod memory;

pub use cpu::CPU;
pub use memory::Memory;
