//! Vector operations. Byte-lane operations treat one register as four 8-bit
//! lanes, lane 0 being the most significant byte. Register-group operations
//! act on four consecutive registers; register indices wrap past r31.
use crate::cpu::{extend_i16, next_index, next_reg, wrap32, CPU};
use crate::instructions::Instruction;
use crate::memory::Memory;
use vstd::prelude::*;

verus! {

/// Lanes in a vector.
pub const VECTOR_SIZE: usize = 4;

/// Register `i` places after `base`, wrapping past r31.
pub open spec fn lane_reg(base: int, i: int) -> int {
    (base + i) % 32
}

/// Index of the register `i` places after `base`, wrapping past r31.
pub fn lane_index(base: usize, i: usize) -> (r: usize)
    requires
        base < 32,
        i < 32,
    ensures
        r == lane_reg(base as int, i as int),
        r < 32,
{
    (base + i) % 32
}

/// Byte lane `k` of `x`, lane 0 being the most significant byte.
pub open spec fn byte_lane(x: u32, k: u32) -> u32 {
    (x >> ((24 - 8 * k) as u32)) & 0xFF
}

/// The word whose byte lanes are `l0` to `l3`.
pub open spec fn from_lanes(l0: u32, l1: u32, l2: u32, l3: u32) -> u32 {
    (l0 << 24) | (l1 << 16) | (l2 << 8) | l3
}

/// Lane mask of a lane-wise test: 0xFF where it holds, 0 elsewhere.
pub open spec fn lane_flag(b: bool) -> u32 {
    if b {
        0xFF
    } else {
        0
    }
}

/// Lane-wise equality mask.
pub open spec fn lanes_eq(a: u32, b: u32) -> u32 {
    from_lanes(
        lane_flag(byte_lane(a, 0) == byte_lane(b, 0)),
        lane_flag(byte_lane(a, 1) == byte_lane(b, 1)),
        lane_flag(byte_lane(a, 2) == byte_lane(b, 2)),
        lane_flag(byte_lane(a, 3) == byte_lane(b, 3)),
    )
}

/// Lane-wise unsigned greater-than mask.
pub open spec fn lanes_gt(a: u32, b: u32) -> u32 {
    from_lanes(
        lane_flag(byte_lane(a, 0) > byte_lane(b, 0)),
        lane_flag(byte_lane(a, 1) > byte_lane(b, 1)),
        lane_flag(byte_lane(a, 2) > byte_lane(b, 2)),
        lane_flag(byte_lane(a, 3) > byte_lane(b, 3)),
    )
}

/// Larger of two lane values.
pub open spec fn max_lane(x: u32, y: u32) -> u32 {
    if x > y {
        x
    } else {
        y
    }
}

/// Smaller of two lane values.
pub open spec fn min_lane(x: u32, y: u32) -> u32 {
    if x < y {
        x
    } else {
        y
    }
}

/// Lane-wise unsigned maximum.
pub open spec fn lanes_max(a: u32, b: u32) -> u32 {
    from_lanes(
        max_lane(byte_lane(a, 0), byte_lane(b, 0)),
        max_lane(byte_lane(a, 1), byte_lane(b, 1)),
        max_lane(byte_lane(a, 2), byte_lane(b, 2)),
        max_lane(byte_lane(a, 3), byte_lane(b, 3)),
    )
}

/// Lane-wise unsigned minimum.
pub open spec fn lanes_min(a: u32, b: u32) -> u32 {
    from_lanes(
        min_lane(byte_lane(a, 0), byte_lane(b, 0)),
        min_lane(byte_lane(a, 1), byte_lane(b, 1)),
        min_lane(byte_lane(a, 2), byte_lane(b, 2)),
        min_lane(byte_lane(a, 3), byte_lane(b, 3)),
    )
}

/// Destination lane `i` of a shuffle: the 2-bit selector for lane `i` in `p`
/// picks a byte of `a`, counting from the least significant byte.
pub open spec fn shuffle_lane(a: u32, p: u32, i: u32) -> u32 {
    (a >> (((p >> ((6 - 2 * i) as u32)) & 3) * 8)) & 0xFF
}

/// Shuffle of the bytes of `a` under selector `p`.
pub open spec fn shuffle(a: u32, p: u32) -> u32 {
    from_lanes(shuffle_lane(a, p, 0), shuffle_lane(a, p, 1), shuffle_lane(a, p, 2), shuffle_lane(a, p, 3))
}

fn lane(x: u32, k: u32) -> (r: u32)
    requires
        k < 4,
    ensures
        r == byte_lane(x, k),
        r <= 0xFF,
{
    let shift: u32 = 24 - 8 * k;
    let r = (x >> shift) & 0xFF;
    assert(r <= 0xFF) by (bit_vector)
        requires
            r == (x >> shift) & 0xFF,
    ;
    r
}

fn flag(b: bool) -> (r: u32)
    ensures
        r == lane_flag(b),
{
    if b {
        0xFF
    } else {
        0
    }
}

fn pack(l0: u32, l1: u32, l2: u32, l3: u32) -> (r: u32)
    ensures
        r == from_lanes(l0, l1, l2, l3),
{
    (l0 << 24) | (l1 << 16) | (l2 << 8) | l3
}

fn equal_mask(a: u32, b: u32) -> (r: u32)
    ensures
        r == lanes_eq(a, b),
{
    pack(
        flag(lane(a, 0) == lane(b, 0)),
        flag(lane(a, 1) == lane(b, 1)),
        flag(lane(a, 2) == lane(b, 2)),
        flag(lane(a, 3) == lane(b, 3)),
    )
}

fn greater_mask(a: u32, b: u32) -> (r: u32)
    ensures
        r == lanes_gt(a, b),
{
    pack(
        flag(lane(a, 0) > lane(b, 0)),
        flag(lane(a, 1) > lane(b, 1)),
        flag(lane(a, 2) > lane(b, 2)),
        flag(lane(a, 3) > lane(b, 3)),
    )
}

fn max_of(x: u32, y: u32) -> (r: u32)
    ensures
        r == max_lane(x, y),
{
    if x > y {
        x
    } else {
        y
    }
}

fn min_of(x: u32, y: u32) -> (r: u32)
    ensures
        r == min_lane(x, y),
{
    if x < y {
        x
    } else {
        y
    }
}

fn shuffle_byte(a: u32, p: u32, i: u32) -> (r: u32)
    requires
        i < 4,
    ensures
        r == shuffle_lane(a, p, i),
{
    let pshift: u32 = 6 - 2 * i;
    let sel = (p >> pshift) & 3;
    assert(sel * 8 < 32) by (bit_vector)
        requires
            sel == (p >> pshift) & 3,
    ;
    (a >> (sel * 8)) & 0xFF
}

/// Byte `pos & 3` of `a`, counting lanes from the most significant byte.
pub open spec fn extract_lane(a: u32, pos: u32) -> u32 {
    (a >> ((3 - (pos & 3)) * 8) as u32) & 0xFF
}

/// `a` with byte lane `pos & 3` replaced by the low byte of `b`.
pub open spec fn insert_lane(a: u32, b: u32, pos: u32) -> u32 {
    let shift = ((3 - (pos & 3)) * 8) as u32;
    (a & !(0xFFu32 << shift)) | ((b & 0xFF) << shift)
}

fn extract_at(a: u32, pos: u32) -> (r: u32)
    ensures
        r == extract_lane(a, pos),
{
    let p = pos & 3;
    assert(p <= 3) by (bit_vector)
        requires
            p == pos & 3,
    ;
    (a >> ((3 - p) * 8)) & 0xFF
}

fn insert_at(a: u32, b: u32, pos: u32) -> (r: u32)
    ensures
        r == insert_lane(a, b, pos),
{
    let p = pos & 3;
    assert(p <= 3) by (bit_vector)
        requires
            p == pos & 3,
    ;
    let shift = (3 - p) * 8;
    (a & !(0xFFu32 << shift)) | ((b & 0xFF) << shift)
}

/// Vector move: the four registers from rd take the values of the four
/// registers from rs1, one after another.
pub struct VMove;

/// State after the first `n` lanes of a vector move.
pub open spec fn move_lanes(c: CPU, n: nat) -> CPU
    decreases n,
{
    if n == 0 {
        c
    } else {
        let p = move_lanes(c, (n - 1) as nat);
        p.with_reg(lane_reg(c.d as int, n - 1), p.reg(lane_reg(c.s1 as int, n - 1)))
    }
}

impl Instruction for VMove {
    fn execute(&self, cpu: &mut CPU, memory: &mut Memory)
        ensures
            *final(cpu) == move_lanes(*old(cpu), 4),
            final(memory)@ == old(memory)@,
    {
        let mut i: usize = 0;
        while i < VECTOR_SIZE
            invariant
                i <= 4,
                *cpu == move_lanes(*old(cpu), i as nat),
                cpu.d == old(cpu).d,
                cpu.s1 == old(cpu).s1,
                cpu.wf(),
            decreases 4 - i,
        {
            let src = lane_index(cpu.s1, i);
            let dst = lane_index(cpu.d, i);
            let v = cpu.registers[src];
            cpu.set_reg(dst, v);
            i = i + 1;
        }
    }
}

/// Lane-wise equal: each lane 0xFF where the bytes of rs1 and rs2 are equal, else 0.
pub struct VEq;

impl Instruction for VEq {
    fn execute(&self, cpu: &mut CPU, memory: &mut Memory)
        ensures
            *final(cpu) == old(cpu).with_rd(lanes_eq(old(cpu).rs1(), old(cpu).rs2())),
            final(memory)@ == old(memory)@,
    {
        let a = cpu.registers[cpu.s1];
        let b = cpu.registers[cpu.s2];
        let v = equal_mask(a, b);
        let d = cpu.d;
        cpu.set_reg(d, v);
    }
}

/// Lane-wise greater: each lane 0xFF where the byte of rs1 exceeds that of rs2, else 0.
pub struct VGt;

impl Instruction for VGt {
    fn execute(&self, cpu: &mut CPU, memory: &mut Memory)
        ensures
            *final(cpu) == old(cpu).with_rd(lanes_gt(old(cpu).rs1(), old(cpu).rs2())),
            final(memory)@ == old(memory)@,
    {
        let a = cpu.registers[cpu.s1];
        let b = cpu.registers[cpu.s2];
        let v = greater_mask(a, b);
        let d = cpu.d;
        cpu.set_reg(d, v);
    }
}

/// Lane-wise less: each lane 0xFF where the byte of rs1 is below that of rs2, else 0.
pub struct VLt;

impl Instruction for VLt {
    fn execute(&self, cpu: &mut CPU, memory: &mut Memory)
        ensures
            *final(cpu) == old(cpu).with_rd(lanes_gt(old(cpu).rs2(), old(cpu).rs1())),
            final(memory)@ == old(memory)@,
    {
        let a = cpu.registers[cpu.s1];
        let b = cpu.registers[cpu.s2];
        let v = greater_mask(b, a);
        let d = cpu.d;
        cpu.set_reg(d, v);
    }
}

/// Lane-wise unsigned maximum of rs1 and rs2.
pub struct VMax;

impl Instruction for VMax {
    fn execute(&self, cpu: &mut CPU, memory: &mut Memory)
        ensures
            *final(cpu) == old(cpu).with_rd(lanes_max(old(cpu).rs1(), old(cpu).rs2())),
            final(memory)@ == old(memory)@,
    {
        let a = cpu.registers[cpu.s1];
        let b = cpu.registers[cpu.s2];
        let v = pack(max_of(lane(a, 0), lane(b, 0)), max_of(lane(a, 1), lane(b, 1)), max_of(lane(a, 2), lane(b, 2)), max_of(lane(a, 3), lane(b, 3)));
        let d = cpu.d;
        cpu.set_reg(d, v);
    }
}

/// Lane-wise unsigned minimum of rs1 and rs2.
pub struct VMin;

impl Instruction for VMin {
    fn execute(&self, cpu: &mut CPU, memory: &mut Memory)
        ensures
            *final(cpu) == old(cpu).with_rd(lanes_min(old(cpu).rs1(), old(cpu).rs2())),
            final(memory)@ == old(memory)@,
    {
        let a = cpu.registers[cpu.s1];
        let b = cpu.registers[cpu.s2];
        let v = pack(min_of(lane(a, 0), lane(b, 0)), min_of(lane(a, 1), lane(b, 1)), min_of(lane(a, 2), lane(b, 2)), min_of(lane(a, 3), lane(b, 3)));
        let d = cpu.d;
        cpu.set_reg(d, v);
    }
}

/// Shuffle: each lane of rd is a byte of rs1 chosen by a 2-bit selector in rs2.
pub struct VShuffle;

impl Instruction for VShuffle {
    fn execute(&self, cpu: &mut CPU, memory: &mut Memory)
        ensures
            *final(cpu) == old(cpu).with_rd(shuffle(old(cpu).rs1(), old(cpu).rs2())),
            final(memory)@ == old(memory)@,
    {
        let a = cpu.registers[cpu.s1];
        let b = cpu.registers[cpu.s2];
        let v = pack(shuffle_byte(a, b, 0), shuffle_byte(a, b, 1), shuffle_byte(a, b, 2), shuffle_byte(a, b, 3));
        let d = cpu.d;
        cpu.set_reg(d, v);
    }
}

/// Interleave high: lanes 0 and 1 of rs1 and rs2, alternating, starting with rs1.
pub struct VInterleaveHigh;

impl Instruction for VInterleaveHigh {
    fn execute(&self, cpu: &mut CPU, memory: &mut Memory)
        ensures
            *final(cpu) == old(cpu).with_rd(from_lanes(byte_lane(old(cpu).rs1(), 0), byte_lane(old(cpu).rs2(), 0), byte_lane(old(cpu).rs1(), 1), byte_lane(old(cpu).rs2(), 1))),
            final(memory)@ == old(memory)@,
    {
        let a = cpu.registers[cpu.s1];
        let b = cpu.registers[cpu.s2];
        let v = pack(lane(a, 0), lane(b, 0), lane(a, 1), lane(b, 1));
        let d = cpu.d;
        cpu.set_reg(d, v);
    }
}

/// Interleave low: lanes 2 and 3 of rs1 and rs2, alternating, starting with rs1.
pub struct VInterleaveLow;

impl Instruction for VInterleaveLow {
    fn execute(&self, cpu: &mut CPU, memory: &mut Memory)
        ensures
            *final(cpu) == old(cpu).with_rd(from_lanes(byte_lane(old(cpu).rs1(), 2), byte_lane(old(cpu).rs2(), 2), byte_lane(old(cpu).rs1(), 3), byte_lane(old(cpu).rs2(), 3))),
            final(memory)@ == old(memory)@,
    {
        let a = cpu.registers[cpu.s1];
        let b = cpu.registers[cpu.s2];
        let v = pack(lane(a, 2), lane(b, 2), lane(a, 3), lane(b, 3));
        let d = cpu.d;
        cpu.set_reg(d, v);
    }
}

/// Extract byte: rd = the lane of rs1 that the low 2 bits of rs2 select.
pub struct VExtractByte;

impl Instruction for VExtractByte {
    fn execute(&self, cpu: &mut CPU, memory: &mut Memory)
        ensures
            *final(cpu) == old(cpu).with_rd(extract_lane(old(cpu).rs1(), old(cpu).rs2())),
            final(memory)@ == old(memory)@,
    {
        let a = cpu.registers[cpu.s1];
        let b = cpu.registers[cpu.s2];
        let v = extract_at(a, b);
        let d = cpu.d;
        cpu.set_reg(d, v);
    }
}

/// Insert byte: rd = rs1 with the lane that the low 2 bits of the immediate select replaced by the low byte of rs2.
pub struct VInsertByte;

impl Instruction for VInsertByte {
    fn execute(&self, cpu: &mut CPU, memory: &mut Memory)
        ensures
            *final(cpu) == old(cpu).with_rd(insert_lane(old(cpu).rs1(), old(cpu).rs2(), wrap32(old(cpu).imm as int))),
            final(memory)@ == old(memory)@,
    {
        let a = cpu.registers[cpu.s1];
        let b = cpu.registers[cpu.s2];
        let v = insert_at(a, b, extend_i16(cpu.imm));
        let d = cpu.d;
        cpu.set_reg(d, v);
    }
}

/// Pack bytes to halfwords: lanes 0 and 1 of rs1 and rs2, alternating, starting with rs1; bytes are placed, not saturated.
pub struct VPackBytesToHalfwords;

impl Instruction for VPackBytesToHalfwords {
    fn execute(&self, cpu: &mut CPU, memory: &mut Memory)
        ensures
            *final(cpu) == old(cpu).with_rd(from_lanes(byte_lane(old(cpu).rs1(), 0), byte_lane(old(cpu).rs2(), 0), byte_lane(old(cpu).rs1(), 1), byte_lane(old(cpu).rs2(), 1))),
            final(memory)@ == old(memory)@,
    {
        let a = cpu.registers[cpu.s1];
        let b = cpu.registers[cpu.s2];
        let v = pack(lane(a, 0), lane(b, 0), lane(a, 1), lane(b, 1));
        let d = cpu.d;
        cpu.set_reg(d, v);
    }
}

/// Pack halfwords to word: the low half of rs1 above the low half of rs2; no saturation.
pub struct VPackHalfwordsToWord;

impl Instruction for VPackHalfwordsToWord {
    fn execute(&self, cpu: &mut CPU, memory: &mut Memory)
        ensures
            *final(cpu) == old(cpu).with_rd(((old(cpu).rs1() & 0xFFFF) << 16) | (old(cpu).rs2() & 0xFFFF)),
            final(memory)@ == old(memory)@,
    {
        let a = cpu.registers[cpu.s1];
        let b = cpu.registers[cpu.s2];
        let v = ((a & 0xFFFF) << 16) | (b & 0xFFFF);
        let d = cpu.d;
        cpu.set_reg(d, v);
    }
}

/// Unpack bytes to halfwords: lane 0 of rs1 in the low byte of the high half, lane 1 in the low byte of the low half.
pub struct VUnpackBytesToHalfwords;

impl Instruction for VUnpackBytesToHalfwords {
    fn execute(&self, cpu: &mut CPU, memory: &mut Memory)
        ensures
            *final(cpu) == old(cpu).with_rd((byte_lane(old(cpu).rs1(), 0) << 16) | byte_lane(old(cpu).rs1(), 1)),
            final(memory)@ == old(memory)@,
    {
        let a = cpu.registers[cpu.s1];
        let b = cpu.registers[cpu.s2];
        let v = (lane(a, 0) << 16) | lane(a, 1);
        let d = cpu.d;
        cpu.set_reg(d, v);
    }
}

/// Unpack halfwords to word: the high half of rs1 to rd and the low half to the
/// register after it.
pub struct VUnpackHalfwordsToWord;

impl Instruction for VUnpackHalfwordsToWord {
    fn execute(&self, cpu: &mut CPU, memory: &mut Memory)
        ensures
            *final(cpu) == old(cpu).with_rd((old(cpu).rs1() >> 16) & 0xFFFF).with_reg(
                next_reg(old(cpu).d as int),
                old(cpu).rs1() & 0xFFFF,
            ),
            final(memory)@ == old(memory)@,
    {
        let a = cpu.registers[cpu.s1];
        let d = cpu.d;
        cpu.set_reg(d, (a >> 16) & 0xFFFF);
        cpu.set_reg(next_index(d), a & 0xFFFF);
    }
}

} // verus!
