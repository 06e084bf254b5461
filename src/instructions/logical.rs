//! Bitwise logic, bit set/clear, bit-field extract and make, rotate, and
//! byte/halfword extension.
//!
//! A bit-field operand holds the width in its low 5 bits and the offset in
//! the next 5; a width of 0 is an empty field.
use crate::cpu::{extend_i16, wrap32, CPU};
use crate::instructions::Instruction;
use crate::memory::Memory;
use vstd::prelude::*;

verus! {

/// Width of the bit field that `s2` describes.
pub open spec fn field_width(s2: u32) -> u32 {
    s2 & 0x1F
}

/// Offset of the bit field that `s2` describes.
pub open spec fn field_offset(s2: u32) -> u32 {
    (s2 >> 5) & 0x1F
}

/// Mask of `w` low bits.
pub open spec fn low_mask(w: u32) -> u32 {
    if w == 0 {
        0
    } else {
        ((1u32 << w) - 1) as u32
    }
}

/// The field of `x` that `s2` describes, shifted down to bit 0.
pub open spec fn extract_field(x: u32, s2: u32) -> u32 {
    (x >> field_offset(s2)) & low_mask(field_width(s2))
}

/// The low bits of `x` placed as the field that `s2` describes.
pub open spec fn make_field(x: u32, s2: u32) -> u32 {
    (x & low_mask(field_width(s2))) << field_offset(s2)
}

/// `x` rotated right by `s` bits, `s < 32`.
pub open spec fn rotate_right(x: u32, s: u32) -> u32 {
    if s == 0 {
        x
    } else {
        (x >> s) | (x << ((32 - s) as u32))
    }
}

/// The low 16 bits of `x`, sign-extended.
pub open spec fn sign_extend_half(x: u32) -> u32 {
    if x & 0x8000 == 0 {
        x & 0xFFFF
    } else {
        (x & 0xFFFF) | 0xFFFF_0000
    }
}

/// The low 8 bits of `x`, sign-extended.
pub open spec fn sign_extend_byte(x: u32) -> u32 {
    if x & 0x80 == 0 {
        x & 0xFF
    } else {
        (x & 0xFF) | 0xFFFF_FF00
    }
}

fn mask_of(w: u32) -> (r: u32)
    requires
        w < 32,
    ensures
        r == low_mask(w),
{
    if w == 0 {
        0
    } else {
        assert(1u32 << w >= 1) by (bit_vector)
            requires
                w < 32,
        ;
        (1u32 << w) - 1
    }
}

fn extract(x: u32, s2: u32) -> (r: u32)
    ensures
        r == extract_field(x, s2),
{
    let width = s2 & 0x1F;
    let offset = (s2 >> 5) & 0x1F;
    assert(width < 32 && offset < 32) by (bit_vector)
        requires
            width == s2 & 0x1F,
            offset == (s2 >> 5) & 0x1F,
    ;
    (x >> offset) & mask_of(width)
}

fn make(x: u32, s2: u32) -> (r: u32)
    ensures
        r == make_field(x, s2),
{
    let width = s2 & 0x1F;
    let offset = (s2 >> 5) & 0x1F;
    assert(width < 32 && offset < 32) by (bit_vector)
        requires
            width == s2 & 0x1F,
            offset == (s2 >> 5) & 0x1F,
    ;
    (x & mask_of(width)) << offset
}

/// `s2 & 31`, a bit position.
fn bit_position(s2: u32) -> (r: u32)
    ensures
        r == s2 & 0x1F,
        r < 32,
{
    assert(s2 & 0x1F < 32) by (bit_vector);
    s2 & 0x1F
}

fn clear_bit(x: u32, s2: u32) -> (r: u32)
    ensures
        r == x & !(1u32 << (s2 & 0x1F)),
{
    x & !(1u32 << bit_position(s2))
}

fn set_bit(x: u32, s2: u32) -> (r: u32)
    ensures
        r == x | (1u32 << (s2 & 0x1F)),
{
    x | (1u32 << bit_position(s2))
}

fn rotate(x: u32, s2: u32) -> (r: u32)
    ensures
        r == rotate_right(x, s2 & 0x1F),
{
    let s = bit_position(s2);
    if s == 0 {
        x
    } else {
        (x >> s) | (x << (32 - s))
    }
}

fn sign_extend_half_exec(x: u32) -> (r: u32)
    ensures
        r == sign_extend_half(x),
{
    if x & 0x8000 == 0 {
        x & 0xFFFF
    } else {
        (x & 0xFFFF) | 0xFFFF_0000
    }
}

fn sign_extend_byte_exec(x: u32) -> (r: u32)
    ensures
        r == sign_extend_byte(x),
{
    if x & 0x80 == 0 {
        x & 0xFF
    } else {
        (x & 0xFF) | 0xFFFF_FF00
    }
}

/// And: rd = rs1 & rs2.
pub struct And;

impl Instruction for And {
    fn execute(&self, cpu: &mut CPU, memory: &mut Memory)
        ensures
            *final(cpu) == old(cpu).with_rd(old(cpu).rs1() & old(cpu).rs2()),
            final(memory)@ == old(memory)@,
    {
        let v = cpu.registers[cpu.s1] & cpu.registers[cpu.s2];
        let d = cpu.d;
        cpu.set_reg(d, v);
    }
}

/// And immediate: rd = rs1 & imm (sign-extended).
pub struct AndImmediate;

impl Instruction for AndImmediate {
    fn execute(&self, cpu: &mut CPU, memory: &mut Memory)
        ensures
            *final(cpu) == old(cpu).with_rd(old(cpu).rs1() & wrap32(old(cpu).imm as int)),
            final(memory)@ == old(memory)@,
    {
        let v = cpu.registers[cpu.s1] & extend_i16(cpu.imm);
        let d = cpu.d;
        cpu.set_reg(d, v);
    }
}

/// Or: rd = rs1 | rs2.
pub struct Or;

impl Instruction for Or {
    fn execute(&self, cpu: &mut CPU, memory: &mut Memory)
        ensures
            *final(cpu) == old(cpu).with_rd(old(cpu).rs1() | old(cpu).rs2()),
            final(memory)@ == old(memory)@,
    {
        let v = cpu.registers[cpu.s1] | cpu.registers[cpu.s2];
        let d = cpu.d;
        cpu.set_reg(d, v);
    }
}

/// Or immediate: rd = rs1 | imm (sign-extended).
pub struct OrImmediate;

impl Instruction for OrImmediate {
    fn execute(&self, cpu: &mut CPU, memory: &mut Memory)
        ensures
            *final(cpu) == old(cpu).with_rd(old(cpu).rs1() | wrap32(old(cpu).imm as int)),
            final(memory)@ == old(memory)@,
    {
        let v = cpu.registers[cpu.s1] | extend_i16(cpu.imm);
        let d = cpu.d;
        cpu.set_reg(d, v);
    }
}

/// Exclusive or: rd = rs1 ^ rs2.
pub struct Xor;

impl Instruction for Xor {
    fn execute(&self, cpu: &mut CPU, memory: &mut Memory)
        ensures
            *final(cpu) == old(cpu).with_rd(old(cpu).rs1() ^ old(cpu).rs2()),
            final(memory)@ == old(memory)@,
    {
        let v = cpu.registers[cpu.s1] ^ cpu.registers[cpu.s2];
        let d = cpu.d;
        cpu.set_reg(d, v);
    }
}

/// Exclusive or immediate: rd = rs1 ^ imm (sign-extended).
pub struct XorImmediate;

impl Instruction for XorImmediate {
    fn execute(&self, cpu: &mut CPU, memory: &mut Memory)
        ensures
            *final(cpu) == old(cpu).with_rd(old(cpu).rs1() ^ wrap32(old(cpu).imm as int)),
            final(memory)@ == old(memory)@,
    {
        let v = cpu.registers[cpu.s1] ^ extend_i16(cpu.imm);
        let d = cpu.d;
        cpu.set_reg(d, v);
    }
}

/// Not: rd = !rs1.
pub struct Not;

impl Instruction for Not {
    fn execute(&self, cpu: &mut CPU, memory: &mut Memory)
        ensures
            *final(cpu) == old(cpu).with_rd(!old(cpu).rs1()),
            final(memory)@ == old(memory)@,
    {
        let v = !cpu.registers[cpu.s1];
        let d = cpu.d;
        cpu.set_reg(d, v);
    }
}

/// Clear bit: rd = rs1 with bit (rs2 & 31) cleared.
pub struct Clr;

impl Instruction for Clr {
    fn execute(&self, cpu: &mut CPU, memory: &mut Memory)
        ensures
            *final(cpu) == old(cpu).with_rd(old(cpu).rs1() & !(1u32 << (old(cpu).rs2() & 0x1F))),
            final(memory)@ == old(memory)@,
    {
        let v = clear_bit(cpu.registers[cpu.s1], cpu.registers[cpu.s2]);
        let d = cpu.d;
        cpu.set_reg(d, v);
    }
}

/// Set bit: rd = rs1 with bit (rs2 & 31) set.
pub struct SetBit;

impl Instruction for SetBit {
    fn execute(&self, cpu: &mut CPU, memory: &mut Memory)
        ensures
            *final(cpu) == old(cpu).with_rd(old(cpu).rs1() | (1u32 << (old(cpu).rs2() & 0x1F))),
            final(memory)@ == old(memory)@,
    {
        let v = set_bit(cpu.registers[cpu.s1], cpu.registers[cpu.s2]);
        let d = cpu.d;
        cpu.set_reg(d, v);
    }
}

/// Extract field: the field of rs1 that rs2 describes, shifted down.
pub struct Ext;

impl Instruction for Ext {
    fn execute(&self, cpu: &mut CPU, memory: &mut Memory)
        ensures
            *final(cpu) == old(cpu).with_rd(extract_field(old(cpu).rs1(), old(cpu).rs2())),
            final(memory)@ == old(memory)@,
    {
        let v = extract(cpu.registers[cpu.s1], cpu.registers[cpu.s2]);
        let d = cpu.d;
        cpu.set_reg(d, v);
    }
}

/// Extract unsigned field: the field of rs1 that rs2 describes, shifted down.
pub struct ExtU;

impl Instruction for ExtU {
    fn execute(&self, cpu: &mut CPU, memory: &mut Memory)
        ensures
            *final(cpu) == old(cpu).with_rd(extract_field(old(cpu).rs1(), old(cpu).rs2())),
            final(memory)@ == old(memory)@,
    {
        let v = extract(cpu.registers[cpu.s1], cpu.registers[cpu.s2]);
        let d = cpu.d;
        cpu.set_reg(d, v);
    }
}

/// Make field: the low bits of rs1 placed as the field that rs2 describes; other bits are zero.
pub struct Mak;

impl Instruction for Mak {
    fn execute(&self, cpu: &mut CPU, memory: &mut Memory)
        ensures
            *final(cpu) == old(cpu).with_rd(make_field(old(cpu).rs1(), old(cpu).rs2())),
            final(memory)@ == old(memory)@,
    {
        let v = make(cpu.registers[cpu.s1], cpu.registers[cpu.s2]);
        let d = cpu.d;
        cpu.set_reg(d, v);
    }
}

/// Rotate: rd = rs1 rotated right by (rs2 & 31) bits.
pub struct Rot;

impl Instruction for Rot {
    fn execute(&self, cpu: &mut CPU, memory: &mut Memory)
        ensures
            *final(cpu) == old(cpu).with_rd(rotate_right(old(cpu).rs1(), old(cpu).rs2() & 0x1F)),
            final(memory)@ == old(memory)@,
    {
        let v = rotate(cpu.registers[cpu.s1], cpu.registers[cpu.s2]);
        let d = cpu.d;
        cpu.set_reg(d, v);
    }
}

/// Extract unsigned halfword: rd = rs1 & 0xFFFF.
pub struct ExtUHalf;

impl Instruction for ExtUHalf {
    fn execute(&self, cpu: &mut CPU, memory: &mut Memory)
        ensures
            *final(cpu) == old(cpu).with_rd(old(cpu).rs1() & 0xFFFF),
            final(memory)@ == old(memory)@,
    {
        let v = cpu.registers[cpu.s1] & 0xFFFF;
        let d = cpu.d;
        cpu.set_reg(d, v);
    }
}

/// Extract unsigned byte: rd = rs1 & 0xFF.
pub struct ExtUByte;

impl Instruction for ExtUByte {
    fn execute(&self, cpu: &mut CPU, memory: &mut Memory)
        ensures
            *final(cpu) == old(cpu).with_rd(old(cpu).rs1() & 0xFF),
            final(memory)@ == old(memory)@,
    {
        let v = cpu.registers[cpu.s1] & 0xFF;
        let d = cpu.d;
        cpu.set_reg(d, v);
    }
}

/// Extract signed halfword: the low 16 bits of rs1, sign-extended.
pub struct ExtHalf;

impl Instruction for ExtHalf {
    fn execute(&self, cpu: &mut CPU, memory: &mut Memory)
        ensures
            *final(cpu) == old(cpu).with_rd(sign_extend_half(old(cpu).rs1())),
            final(memory)@ == old(memory)@,
    {
        let v = sign_extend_half_exec(cpu.registers[cpu.s1]);
        let d = cpu.d;
        cpu.set_reg(d, v);
    }
}

/// Extract signed byte: the low 8 bits of rs1, sign-extended.
pub struct ExtByte;

impl Instruction for ExtByte {
    fn execute(&self, cpu: &mut CPU, memory: &mut Memory)
        ensures
            *final(cpu) == old(cpu).with_rd(sign_extend_byte(old(cpu).rs1())),
            final(memory)@ == old(memory)@,
    {
        let v = sign_extend_byte_exec(cpu.registers[cpu.s1]);
        let d = cpu.d;
        cpu.set_reg(d, v);
    }
}

/// Make N-bit field: the low bits of rs1 placed as the field that rs2 describes; other bits are zero.
pub struct MakN;

impl Instruction for MakN {
    fn execute(&self, cpu: &mut CPU, memory: &mut Memory)
        ensures
            *final(cpu) == old(cpu).with_rd(make_field(old(cpu).rs1(), old(cpu).rs2())),
            final(memory)@ == old(memory)@,
    {
        let v = make(cpu.registers[cpu.s1], cpu.registers[cpu.s2]);
        let d = cpu.d;
        cpu.set_reg(d, v);
    }
}

} // verus!
