//! Loads, stores and exchange. Each access goes byte by byte through the
//! memory interface; a failing byte ends the instruction, reports the fault in
//! CR0 and leaves the bytes already stored in place.
use crate::cpu::{extend_i16, next_index, next_reg, wrap32, CPU};
use crate::instructions::Instruction;
use crate::memory::{
    be_bytes, lemma_store_load_round_trip, pow256, MemView, Memory, MemoryError, MEMORY_SIZE,
};
use vstd::prelude::*;

verus! {

/// CR0 after a byte-granular access failed with `e`: page and protection
/// faults set their bits; an invalid address sets nothing.
pub open spec fn fault_cr0(cr0: u32, e: MemoryError) -> u32 {
    match e {
        MemoryError::PageFault(_) => cr0 | CPU::CR0_PAGE_FAULT,
        MemoryError::WriteProtection(_) => cr0 | CPU::CR0_WRITE_PROTECT,
        MemoryError::InvalidAddress(_) => cr0,
    }
}

/// CR0 after a word load or store failed with `e`: a protection fault sets
/// its bit, anything else the page fault bit.
pub open spec fn word_fault_cr0(cr0: u32, e: MemoryError) -> u32 {
    match e {
        MemoryError::WriteProtection(_) => cr0 | CPU::CR0_WRITE_PROTECT,
        _ => cr0 | CPU::CR0_PAGE_FAULT,
    }
}

/// Effective address: a register plus the signed 16-bit offset, wrapping.
pub open spec fn effective(base: u32, offset: i16) -> u32 {
    wrap32(base + offset)
}

fn report_fault(cpu: &mut CPU, e: MemoryError)
    ensures
        *final(cpu) == old(cpu).with_cr0(fault_cr0(old(cpu).cr0, e)),
{
    match e {
        MemoryError::PageFault(_) => cpu.set_page_fault(),
        MemoryError::WriteProtection(_) => cpu.set_write_protect_fault(),
        MemoryError::InvalidAddress(_) => {},
    }
}

fn report_word_fault(cpu: &mut CPU, e: MemoryError)
    ensures
        *final(cpu) == old(cpu).with_cr0(word_fault_cr0(old(cpu).cr0, e)),
{
    match e {
        MemoryError::PageFault(_) => cpu.set_page_fault(),
        MemoryError::WriteProtection(_) => cpu.set_write_protect_fault(),
        _ => cpu.set_page_fault(),
    }
}

/// Load word: register `rd` = the word at register `rs1` + `offset`.
#[derive(Debug)]
pub struct Load {
    pub rd: usize,
    pub rs1: usize,
    pub offset: i16,
}

impl Instruction for Load {
    open spec fn operands_valid(&self) -> bool {
        self.rd < 32 && self.rs1 < 32
    }

    fn execute(&self, cpu: &mut CPU, memory: &mut Memory)
        ensures
            final(memory)@ == old(memory)@,
            match old(memory)@.read_word(effective(old(cpu).reg(self.rs1 as int), self.offset)) {
                Ok(v) => *final(cpu) == old(cpu).with_reg(self.rd as int, v),
                Err(e) => *final(cpu) == old(cpu).with_cr0(word_fault_cr0(old(cpu).cr0, e)),
            },
    {
        let addr = cpu.registers[self.rs1].wrapping_add(extend_i16(self.offset));
        match memory.read_word(addr) {
            Ok(value) => cpu.set_reg(self.rd, value),
            Err(e) => report_word_fault(cpu, e),
        }
    }
}

/// Store word: the word at register `rs1` + `offset` = register `rd`.
#[derive(Debug)]
pub struct Store {
    pub rd: usize,
    pub rs1: usize,
    pub offset: i16,
}

impl Instruction for Store {
    open spec fn operands_valid(&self) -> bool {
        self.rd < 32 && self.rs1 < 32
    }

    fn execute(&self, cpu: &mut CPU, memory: &mut Memory)
        ensures
            ({
                let (m, r) = old(memory)@.write_word(
                    effective(old(cpu).reg(self.rs1 as int), self.offset),
                    old(cpu).reg(self.rd as int),
                );
                &&& final(memory)@ == m
                &&& match r {
                    Ok(_) => *final(cpu) == *old(cpu),
                    Err(e) => *final(cpu) == old(cpu).with_cr0(word_fault_cr0(old(cpu).cr0, e)),
                }
            }),
    {
        let addr = cpu.registers[self.rs1].wrapping_add(extend_i16(self.offset));
        match memory.write_word(addr, cpu.registers[self.rd]) {
            Ok(()) => {},
            Err(e) => report_word_fault(cpu, e),
        }
    }
}

/// Load byte: rd = the byte at rs1 + offset, zero-extended.
pub struct LoadByte;

impl Instruction for LoadByte {
    fn execute(&self, cpu: &mut CPU, memory: &mut Memory)
        ensures
            final(memory)@ == old(memory)@,
            match old(memory)@.read_byte(effective(old(cpu).rs1(), old(cpu).offset)) {
                Ok(b) => *final(cpu) == old(cpu).with_rd(b as u32),
                Err(e) => *final(cpu) == old(cpu).with_cr0(fault_cr0(old(cpu).cr0, e)),
            },
    {
        let addr = cpu.registers[cpu.s1].wrapping_add(extend_i16(cpu.offset));
        match memory.read_byte(addr) {
            Ok(value) => {
                let d = cpu.d;
                cpu.set_reg(d, value as u32);
            },
            Err(e) => report_fault(cpu, e),
        }
    }
}

/// Store byte: the byte at rs1 + offset = the low byte of rd.
pub struct StoreByte;

impl Instruction for StoreByte {
    fn execute(&self, cpu: &mut CPU, memory: &mut Memory)
        ensures
            ({
                let (m, r) = old(memory)@.write_byte(
                    effective(old(cpu).rs1(), old(cpu).offset),
                    (old(cpu).rd() & 0xFF) as u8,
                );
                &&& final(memory)@ == m
                &&& match r {
                    Ok(_) => *final(cpu) == *old(cpu),
                    Err(e) => *final(cpu) == old(cpu).with_cr0(fault_cr0(old(cpu).cr0, e)),
                }
            }),
    {
        let addr = cpu.registers[cpu.s1].wrapping_add(extend_i16(cpu.offset));
        match memory.write_byte(addr, (cpu.registers[cpu.d] & 0xFF) as u8) {
            Ok(()) => {},
            Err(e) => report_fault(cpu, e),
        }
    }
}

/// Load halfword: rd = the big-endian halfword at rs1 + offset, zero-extended.
pub struct LoadHalf;

impl Instruction for LoadHalf {
    fn execute(&self, cpu: &mut CPU, memory: &mut Memory)
        ensures
            final(memory)@ == old(memory)@,
            match old(memory)@.read_value(effective(old(cpu).rs1(), old(cpu).offset), 2) {
                Ok(v) => *final(cpu) == old(cpu).with_rd(v as u32),
                Err(e) => *final(cpu) == old(cpu).with_cr0(fault_cr0(old(cpu).cr0, e)),
            },
    {
        let addr = cpu.registers[cpu.s1].wrapping_add(extend_i16(cpu.offset));
        match memory.read_be(addr, 2) {
            Ok(value) => {
                let d = cpu.d;
                cpu.set_reg(d, value as u32);
            },
            Err(e) => report_fault(cpu, e),
        }
    }
}

/// Store halfword: the big-endian halfword at rs1 + offset = the low half of rd.
pub struct StoreHalf;

impl Instruction for StoreHalf {
    fn execute(&self, cpu: &mut CPU, memory: &mut Memory)
        ensures
            ({
                let (m, r) = old(memory)@.write_bytes(
                    effective(old(cpu).rs1(), old(cpu).offset),
                    be_bytes(old(cpu).rd() as u64, 2),
                );
                &&& final(memory)@ == m
                &&& match r {
                    Ok(_) => *final(cpu) == *old(cpu),
                    Err(e) => *final(cpu) == old(cpu).with_cr0(fault_cr0(old(cpu).cr0, e)),
                }
            }),
    {
        let addr = cpu.registers[cpu.s1].wrapping_add(extend_i16(cpu.offset));
        match memory.write_be(addr, cpu.registers[cpu.d] as u64, 2) {
            Ok(()) => {},
            Err(e) => report_fault(cpu, e),
        }
    }
}

/// Load double: the big-endian doubleword at rs1 + offset, high word in rd and
/// low word in the register after it.
pub struct LoadDouble;

impl Instruction for LoadDouble {
    fn execute(&self, cpu: &mut CPU, memory: &mut Memory)
        ensures
            final(memory)@ == old(memory)@,
            match old(memory)@.read_value(effective(old(cpu).rs1(), old(cpu).offset), 8) {
                Ok(v) => *final(cpu) == old(cpu).with_rd((v / 0x1_0000_0000) as u32).with_reg(
                    next_reg(old(cpu).d as int),
                    (v % 0x1_0000_0000) as u32,
                ),
                Err(e) => *final(cpu) == old(cpu).with_cr0(fault_cr0(old(cpu).cr0, e)),
            },
    {
        let addr = cpu.registers[cpu.s1].wrapping_add(extend_i16(cpu.offset));
        match memory.read_be(addr, 8) {
            Ok(value) => {
                let d = cpu.d;
                cpu.set_reg(d, (value / 0x1_0000_0000) as u32);
                cpu.set_reg(next_index(d), (value % 0x1_0000_0000) as u32);
            },
            Err(e) => report_fault(cpu, e),
        }
    }
}

/// Value of the register pair starting at `i`, high word first.
pub open spec fn pair_value(c: CPU, i: int) -> u64 {
    (c.reg(i) * 0x1_0000_0000 + c.reg(next_reg(i))) as u64
}

/// Store double: the big-endian doubleword at rs1 + offset = rd (high word)
/// and the register after it (low word).
pub struct StoreDouble;

impl Instruction for StoreDouble {
    fn execute(&self, cpu: &mut CPU, memory: &mut Memory)
        ensures
            ({
                let (m, r) = old(memory)@.write_bytes(
                    effective(old(cpu).rs1(), old(cpu).offset),
                    be_bytes(pair_value(*old(cpu), old(cpu).d as int), 8),
                );
                &&& final(memory)@ == m
                &&& match r {
                    Ok(_) => *final(cpu) == *old(cpu),
                    Err(e) => *final(cpu) == old(cpu).with_cr0(fault_cr0(old(cpu).cr0, e)),
                }
            }),
    {
        let addr = cpu.registers[cpu.s1].wrapping_add(extend_i16(cpu.offset));
        let hi = cpu.registers[cpu.d] as u64;
        let lo = cpu.registers[next_index(cpu.d)] as u64;
        let value = hi * 0x1_0000_0000 + lo;
        match memory.write_be(addr, value, 8) {
            Ok(()) => {},
            Err(e) => report_fault(cpu, e),
        }
    }
}

/// Exchange: swaps rd with the big-endian word at rs1 + offset. The old word is
/// read first, then the new one written; rd changes only when both succeed.
pub struct Exchange;

impl Instruction for Exchange {
    fn execute(&self, cpu: &mut CPU, memory: &mut Memory)
        ensures
            ({
                let addr = effective(old(cpu).rs1(), old(cpu).offset);
                match old(memory)@.read_value(addr, 4) {
                    Err(e) => final(memory)@ == old(memory)@ && *final(cpu) == old(cpu).with_cr0(
                        fault_cr0(old(cpu).cr0, e),
                    ),
                    Ok(v) => {
                        let (m, r) = old(memory)@.write_bytes(addr, be_bytes(old(cpu).rd() as u64, 4));
                        &&& final(memory)@ == m
                        &&& match r {
                            Ok(_) => *final(cpu) == old(cpu).with_rd(v as u32),
                            Err(e) => *final(cpu) == old(cpu).with_cr0(
                                fault_cr0(old(cpu).cr0, e),
                            ),
                        }
                    },
                }
            }),
    {
        let addr = cpu.registers[cpu.s1].wrapping_add(extend_i16(cpu.offset));
        let old_value = match memory.read_be(addr, 4) {
            Ok(v) => v,
            Err(e) => {
                report_fault(cpu, e);
                return ;
            },
        };
        match memory.write_be(addr, cpu.registers[cpu.d] as u64, 4) {
            Ok(()) => {},
            Err(e) => {
                report_fault(cpu, e);
                return ;
            },
        }
        let d = cpu.d;
        cpu.set_reg(d, old_value as u32);
    }
}

/// A halfword stored from register value `v` (as `StoreHalf` writes it) is
/// loaded back (as `LoadHalf` reads it) as the low half of `v`, with the MMU
/// off and both bytes inside memory.
pub proof fn lemma_half_round_trip(m: MemView, addr: u32, v: u32)
    requires
        m.wf(),
        !m.mmu_enabled,
        addr + 2 <= MEMORY_SIZE,
    ensures
        m.write_bytes(addr, be_bytes(v as u64, 2)).1 is Ok,
        m.write_bytes(addr, be_bytes(v as u64, 2)).0.read_value(addr, 2) == Ok::<u64, MemoryError>(
            (v & 0xFFFF) as u64,
        ),
{
    reveal_with_fuel(pow256, 3);
    lemma_store_load_round_trip(m, addr, v as u64, 2);
    assert(v & 0xFFFF == v % 65536) by (bit_vector);
}

/// A register pair stored by `StoreDouble` from registers `i` and the one after
/// it is loaded back by `LoadDouble` as the same two words, with the MMU off
/// and all eight bytes inside memory.
pub proof fn lemma_double_round_trip(m: MemView, addr: u32, c: CPU, i: int)
    requires
        m.wf(),
        !m.mmu_enabled,
        0 <= i < 32,
        addr + 8 <= MEMORY_SIZE,
    ensures
        ({
            let v = pair_value(c, i);
            let (m2, r) = m.write_bytes(addr, be_bytes(v, 8));
            &&& r is Ok
            &&& m2.read_value(addr, 8) == Ok::<u64, MemoryError>(v)
            &&& (v / 0x1_0000_0000) as u32 == c.reg(i)
            &&& (v % 0x1_0000_0000) as u32 == c.reg(next_reg(i))
        }),
{
    let v = pair_value(c, i);
    let hi = c.reg(i) as int;
    let lo = c.reg(next_reg(i)) as int;
    assert(hi * 0x1_0000_0000 + lo <= 0xFFFF_FFFF * 0x1_0000_0000 + 0xFFFF_FFFF) by (nonlinear_arith)
        requires
            0 <= hi <= 0xFFFF_FFFF,
            0 <= lo <= 0xFFFF_FFFF,
    ;
    assert(v == hi * 0x1_0000_0000 + lo);
    reveal_with_fuel(pow256, 9);
    assert(pow256(8) == 0x1_0000_0000_0000_0000);
    lemma_store_load_round_trip(m, addr, v, 8);
    assert(v as nat % 0x1_0000_0000_0000_0000 == v);
    assert(m.write_bytes(addr, be_bytes(v, 8)).0.read_value(addr, 8) == Ok::<u64, MemoryError>(v));
    assert((hi * 0x1_0000_0000 + lo) / 0x1_0000_0000 == hi && (hi * 0x1_0000_0000 + lo)
        % 0x1_0000_0000 == lo) by (nonlinear_arith)
        requires
            0 <= hi,
            0 <= lo < 0x1_0000_0000,
    ;
}

} // verus!
