//! Integer arithmetic: 32-bit wrapping add, subtract and multiply, signed and
//! unsigned division and remainder, long multiply, find-first-bit and compare.
use crate::cpu::{
    abs, compare_cr0, div_toward_zero, extend_i16, next_index, next_reg, rem_toward_zero, signed, signed_less,
    wrap32, CPU,
};
use crate::instructions::Instruction;
use crate::memory::Memory;
use vstd::prelude::*;

verus! {

/// Add: rd = rs1 + rs2, wrapping.
pub struct Add;

impl Instruction for Add {
    fn execute(&self, cpu: &mut CPU, memory: &mut Memory)
        ensures
            *final(cpu) == old(cpu).with_rd(wrap32(old(cpu).rs1() + old(cpu).rs2())),
            final(memory)@ == old(memory)@,
    {
        let v = cpu.registers[cpu.s1].wrapping_add(cpu.registers[cpu.s2]);
        let d = cpu.d;
        cpu.set_reg(d, v);
    }
}


/// Add immediate: rd = rs1 + imm, wrapping.
pub struct AddImmediate;

impl Instruction for AddImmediate {
    fn execute(&self, cpu: &mut CPU, memory: &mut Memory)
        ensures
            *final(cpu) == old(cpu).with_rd(wrap32(old(cpu).rs1() + old(cpu).imm)),
            final(memory)@ == old(memory)@,
    {
        let v = cpu.registers[cpu.s1].wrapping_add(extend_i16(cpu.imm));
        let d = cpu.d;
        cpu.set_reg(d, v);
    }
}

/// Subtract: rd = rs1 - rs2, wrapping.
pub struct Sub;

impl Instruction for Sub {
    fn execute(&self, cpu: &mut CPU, memory: &mut Memory)
        ensures
            *final(cpu) == old(cpu).with_rd(wrap32(old(cpu).rs1() - old(cpu).rs2())),
            final(memory)@ == old(memory)@,
    {
        let v = cpu.registers[cpu.s1].wrapping_sub(cpu.registers[cpu.s2]);
        let d = cpu.d;
        cpu.set_reg(d, v);
    }
}

/// Subtract immediate: rd = rs1 - imm, wrapping.
pub struct SubImmediate;

impl Instruction for SubImmediate {
    fn execute(&self, cpu: &mut CPU, memory: &mut Memory)
        ensures
            *final(cpu) == old(cpu).with_rd(wrap32(old(cpu).rs1() - old(cpu).imm)),
            final(memory)@ == old(memory)@,
    {
        let v = cpu.registers[cpu.s1].wrapping_sub(extend_i16(cpu.imm));
        let d = cpu.d;
        cpu.set_reg(d, v);
    }
}

/// Multiply: rd = rs1 * rs2, low 32 bits.
pub struct Mul;

impl Instruction for Mul {
    fn execute(&self, cpu: &mut CPU, memory: &mut Memory)
        ensures
            *final(cpu) == old(cpu).with_rd(wrap32(old(cpu).rs1() * old(cpu).rs2())),
            final(memory)@ == old(memory)@,
    {
        let v = cpu.registers[cpu.s1].wrapping_mul(cpu.registers[cpu.s2]);
        let d = cpu.d;
        cpu.set_reg(d, v);
    }
}

/// Unsigned multiply: rd = rs1 * rs2, low 32 bits.
pub struct MulU;

impl Instruction for MulU {
    fn execute(&self, cpu: &mut CPU, memory: &mut Memory)
        ensures
            *final(cpu) == old(cpu).with_rd(wrap32(old(cpu).rs1() * old(cpu).rs2())),
            final(memory)@ == old(memory)@,
    {
        let v = mul_low(cpu.registers[cpu.s1], cpu.registers[cpu.s2]);
        let d = cpu.d;
        cpu.set_reg(d, v);
    }
}

/// Mask: rd = rs1 & rs2.
pub struct Mask;

impl Instruction for Mask {
    fn execute(&self, cpu: &mut CPU, memory: &mut Memory)
        ensures
            *final(cpu) == old(cpu).with_rd(old(cpu).rs1() & old(cpu).rs2()),
            final(memory)@ == old(memory)@,
    {
        let v = cpu.registers[cpu.s1] & cpu.registers[cpu.s2];
        let d = cpu.d;
        cpu.set_reg(d, v);
    }
}

/// Find first one: index of the lowest set bit of rs1, 32 when there is none.
pub struct FF1;

impl Instruction for FF1 {
    fn execute(&self, cpu: &mut CPU, memory: &mut Memory)
        ensures
            *final(cpu) == old(cpu).with_rd(first_set(old(cpu).rs1()) as u32),
            final(memory)@ == old(memory)@,
    {
        let v = find_first(cpu.registers[cpu.s1], true);
        let d = cpu.d;
        cpu.set_reg(d, v);
    }
}

/// Find first zero: index of the lowest clear bit of rs1, 32 when there is none.
pub struct FF0;

impl Instruction for FF0 {
    fn execute(&self, cpu: &mut CPU, memory: &mut Memory)
        ensures
            *final(cpu) == old(cpu).with_rd(first_set(!old(cpu).rs1()) as u32),
            final(memory)@ == old(memory)@,
    {
        let v = find_first(cpu.registers[cpu.s1], false);
        let d = cpu.d;
        cpu.set_reg(d, v);
    }
}

/// Unsigned add: rd = rs1 + rs2, wrapping.
pub struct AddU;

impl Instruction for AddU {
    fn execute(&self, cpu: &mut CPU, memory: &mut Memory)
        ensures
            *final(cpu) == old(cpu).with_rd(wrap32(old(cpu).rs1() + old(cpu).rs2())),
            final(memory)@ == old(memory)@,
    {
        let v = cpu.registers[cpu.s1].wrapping_add(cpu.registers[cpu.s2]);
        let d = cpu.d;
        cpu.set_reg(d, v);
    }
}

/// Unsigned add immediate: rd = rs1 + imm (sign-extended), wrapping.
pub struct AddUImmediate;

impl Instruction for AddUImmediate {
    fn execute(&self, cpu: &mut CPU, memory: &mut Memory)
        ensures
            *final(cpu) == old(cpu).with_rd(wrap32(old(cpu).rs1() + old(cpu).imm)),
            final(memory)@ == old(memory)@,
    {
        let v = cpu.registers[cpu.s1].wrapping_add(extend_i16(cpu.imm));
        let d = cpu.d;
        cpu.set_reg(d, v);
    }
}

/// Unsigned subtract: rd = rs1 - rs2, wrapping.
pub struct SubU;

impl Instruction for SubU {
    fn execute(&self, cpu: &mut CPU, memory: &mut Memory)
        ensures
            *final(cpu) == old(cpu).with_rd(wrap32(old(cpu).rs1() - old(cpu).rs2())),
            final(memory)@ == old(memory)@,
    {
        let v = cpu.registers[cpu.s1].wrapping_sub(cpu.registers[cpu.s2]);
        let d = cpu.d;
        cpu.set_reg(d, v);
    }
}

/// Unsigned subtract immediate: rd = rs1 - imm (sign-extended), wrapping.
pub struct SubUImmediate;

impl Instruction for SubUImmediate {
    fn execute(&self, cpu: &mut CPU, memory: &mut Memory)
        ensures
            *final(cpu) == old(cpu).with_rd(wrap32(old(cpu).rs1() - old(cpu).imm)),
            final(memory)@ == old(memory)@,
    {
        let v = cpu.registers[cpu.s1].wrapping_sub(extend_i16(cpu.imm));
        let d = cpu.d;
        cpu.set_reg(d, v);
    }
}


/// Signed divide: rd = rs1 / rs2 rounded toward zero. A zero divisor gives 0 and
/// sets the divide-by-zero bit; `MIN / -1` gives `MIN`.
pub struct Div;

impl Instruction for Div {
    fn execute(&self, cpu: &mut CPU, memory: &mut Memory)
        ensures
            old(cpu).rs2() == 0 ==> *final(cpu) == old(cpu).with_cr0(
                old(cpu).cr0 | CPU::CR0_FP_DIVZERO,
            ).with_rd(0),
            old(cpu).rs2() != 0 ==> *final(cpu) == old(cpu).with_rd(
                wrap32(div_toward_zero(signed(old(cpu).rs1()), signed(old(cpu).rs2()))),
            ),
            final(memory)@ == old(memory)@,
    {
        let a = cpu.registers[cpu.s1];
        let b = cpu.registers[cpu.s2];
        let d = cpu.d;
        if b == 0 {
            cpu.cr0 = cpu.cr0 | CPU::CR0_FP_DIVZERO;
            cpu.set_reg(d, 0);
        } else {
            let q = magnitude(a) / magnitude(b);
            let v = negate_if(q, (a >= 0x8000_0000) != (b >= 0x8000_0000));
            cpu.set_reg(d, v);
        }
    }
}

/// Unsigned divide: rd = rs1 / rs2. A zero divisor gives 0 and sets the
/// divide-by-zero bit.
pub struct DivU;

impl Instruction for DivU {
    fn execute(&self, cpu: &mut CPU, memory: &mut Memory)
        ensures
            old(cpu).rs2() == 0 ==> *final(cpu) == old(cpu).with_cr0(
                old(cpu).cr0 | CPU::CR0_FP_DIVZERO,
            ).with_rd(0),
            old(cpu).rs2() != 0 ==> *final(cpu) == old(cpu).with_rd(
                (old(cpu).rs1() / old(cpu).rs2()) as u32,
            ),
            final(memory)@ == old(memory)@,
    {
        let a = cpu.registers[cpu.s1];
        let b = cpu.registers[cpu.s2];
        let d = cpu.d;
        if b == 0 {
            cpu.cr0 = cpu.cr0 | CPU::CR0_FP_DIVZERO;
            cpu.set_reg(d, 0);
        } else {
            cpu.set_reg(d, a / b);
        }
    }
}

/// Signed compare of rs1 with rs2 into the Equal, Less and Greater bits of CR0.
pub struct Cmp;

impl Instruction for Cmp {
    fn execute(&self, cpu: &mut CPU, memory: &mut Memory)
        ensures
            *final(cpu) == old(cpu).with_cr0(
                compare_cr0(old(cpu).cr0, signed(old(cpu).rs1()), signed(old(cpu).rs2())),
            ),
            final(memory)@ == old(memory)@,
    {
        let a = cpu.registers[cpu.s1];
        let b = cpu.registers[cpu.s2];
        if a == b {
            cpu.cr0 = (cpu.cr0 | CPU::CR0_EQUAL) & !CPU::CR0_LESS & !CPU::CR0_GREATER;
        } else if signed_less(a, b) {
            cpu.cr0 = (cpu.cr0 | CPU::CR0_LESS) & !CPU::CR0_EQUAL & !CPU::CR0_GREATER;
        } else {
            cpu.cr0 = (cpu.cr0 | CPU::CR0_GREATER) & !CPU::CR0_EQUAL & !CPU::CR0_LESS;
        }
    }
}

/// Unsigned compare of rs1 with rs2 into the Equal, Less and Greater bits of CR0.
pub struct CmpU;

impl Instruction for CmpU {
    fn execute(&self, cpu: &mut CPU, memory: &mut Memory)
        ensures
            *final(cpu) == old(cpu).with_cr0(
                compare_cr0(old(cpu).cr0, old(cpu).rs1() as int, old(cpu).rs2() as int),
            ),
            final(memory)@ == old(memory)@,
    {
        let a = cpu.registers[cpu.s1];
        let b = cpu.registers[cpu.s2];
        if a == b {
            cpu.cr0 = (cpu.cr0 | CPU::CR0_EQUAL) & !CPU::CR0_LESS & !CPU::CR0_GREATER;
        } else if a < b {
            cpu.cr0 = (cpu.cr0 | CPU::CR0_LESS) & !CPU::CR0_EQUAL & !CPU::CR0_GREATER;
        } else {
            cpu.cr0 = (cpu.cr0 | CPU::CR0_GREATER) & !CPU::CR0_EQUAL & !CPU::CR0_LESS;
        }
    }
}

/// The 64-bit two's-complement pattern of `x`.
pub open spec fn wrap64(x: int) -> nat {
    (x % 0x1_0000_0000_0000_0000) as nat
}

/// Signed long multiply: the 64-bit product of rs1 and rs2, high word in rd
/// and low word in the register after it.
pub struct LMul;

impl Instruction for LMul {
    fn execute(&self, cpu: &mut CPU, memory: &mut Memory)
        ensures
            ({
                let p = wrap64(signed(old(cpu).rs1()) * signed(old(cpu).rs2()));
                *final(cpu) == old(cpu).with_rd((p / 0x1_0000_0000) as u32).with_reg(
                    next_reg(old(cpu).d as int),
                    (p % 0x1_0000_0000) as u32,
                )
            }),
            final(memory)@ == old(memory)@,
    {
        let a = cpu.registers[cpu.s1];
        let b = cpu.registers[cpu.s2];
        let ma = magnitude(a);
        let mb = magnitude(b);
        let neg = (a >= 0x8000_0000) != (b >= 0x8000_0000);
        let p = wide_product(ma, mb);
        let r = if neg {
            0u64.wrapping_sub(p)
        } else {
            p
        };
        proof {
            let sa = signed(a);
            let sb = signed(b);
            assert(sa * sb == (if neg {
                -(ma * mb)
            } else {
                ma * mb
            })) by (nonlinear_arith)
                requires
                    ma == abs(sa),
                    mb == abs(sb),
                    neg == ((sa < 0) != (sb < 0)),
            ;
        }
        let d = cpu.d;
        cpu.set_reg(d, (r / 0x1_0000_0000) as u32);
        cpu.set_reg(next_index(d), (r % 0x1_0000_0000) as u32);
    }
}

/// Unsigned long multiply: the 64-bit product of rs1 and rs2, high word in rd
/// and low word in the register after it.
pub struct LMulU;

impl Instruction for LMulU {
    fn execute(&self, cpu: &mut CPU, memory: &mut Memory)
        ensures
            ({
                let p = old(cpu).rs1() * old(cpu).rs2();
                *final(cpu) == old(cpu).with_rd((p / 0x1_0000_0000) as u32).with_reg(
                    next_reg(old(cpu).d as int),
                    (p % 0x1_0000_0000) as u32,
                )
            }),
            final(memory)@ == old(memory)@,
    {
        let p = wide_product(cpu.registers[cpu.s1], cpu.registers[cpu.s2]);
        let d = cpu.d;
        cpu.set_reg(d, (p / 0x1_0000_0000) as u32);
        cpu.set_reg(next_index(d), (p % 0x1_0000_0000) as u32);
    }
}

/// Long unsigned divide: the 64-bit dividend rs1 (high) and the register after
/// it (low) divided by rs2; quotient in rd (low 32 bits), remainder in the
/// register after rd. A zero divisor writes 0 to both and sets divide-by-zero.
pub struct DivUD;

impl Instruction for DivUD {
    fn execute(&self, cpu: &mut CPU, memory: &mut Memory)
        ensures
            ({
                let n = old(cpu).rs1() * 0x1_0000_0000 + old(cpu).reg(next_reg(old(cpu).s1 as int));
                let q = old(cpu).rs2() as int;
                &&& q == 0 ==> *final(cpu) == old(cpu).with_cr0(
                    old(cpu).cr0 | CPU::CR0_FP_DIVZERO,
                ).with_rd(0).with_reg(next_reg(old(cpu).d as int), 0)
                &&& q != 0 ==> *final(cpu) == old(cpu).with_rd(wrap32(n / q)).with_reg(
                    next_reg(old(cpu).d as int),
                    (n % q) as u32,
                )
            }),
            final(memory)@ == old(memory)@,
    {
        let hi = cpu.registers[cpu.s1];
        let lo = cpu.registers[next_index(cpu.s1)];
        let divisor = cpu.registers[cpu.s2];
        let d = cpu.d;
        if divisor == 0 {
            cpu.cr0 = cpu.cr0 | CPU::CR0_FP_DIVZERO;
            cpu.set_reg(d, 0);
            cpu.set_reg(next_index(d), 0);
        } else {
            let dividend = (hi as u64) * 0x1_0000_0000 + lo as u64;
            let quotient = dividend / divisor as u64;
            let remainder = dividend % divisor as u64;
            cpu.set_reg(d, (quotient % 0x1_0000_0000) as u32);
            cpu.set_reg(next_index(d), remainder as u32);
        }
    }
}

/// Signed remainder: rd = rs1 rem rs2 with the sign of rs1. A zero divisor
/// gives 0 and sets the divide-by-zero bit.
pub struct Rem;

impl Instruction for Rem {
    fn execute(&self, cpu: &mut CPU, memory: &mut Memory)
        ensures
            old(cpu).rs2() == 0 ==> *final(cpu) == old(cpu).with_cr0(
                old(cpu).cr0 | CPU::CR0_FP_DIVZERO,
            ).with_rd(0),
            old(cpu).rs2() != 0 ==> *final(cpu) == old(cpu).with_rd(
                wrap32(rem_toward_zero(signed(old(cpu).rs1()), signed(old(cpu).rs2()))),
            ),
            final(memory)@ == old(memory)@,
    {
        let a = cpu.registers[cpu.s1];
        let b = cpu.registers[cpu.s2];
        let d = cpu.d;
        if b == 0 {
            cpu.cr0 = cpu.cr0 | CPU::CR0_FP_DIVZERO;
            cpu.set_reg(d, 0);
        } else {
            let r = magnitude(a) % magnitude(b);
            let v = negate_if(r, a >= 0x8000_0000);
            cpu.set_reg(d, v);
        }
    }
}

/// Unsigned remainder: rd = rs1 mod rs2. A zero divisor gives 0 and sets the
/// divide-by-zero bit.
pub struct RemU;

impl Instruction for RemU {
    fn execute(&self, cpu: &mut CPU, memory: &mut Memory)
        ensures
            old(cpu).rs2() == 0 ==> *final(cpu) == old(cpu).with_cr0(
                old(cpu).cr0 | CPU::CR0_FP_DIVZERO,
            ).with_rd(0),
            old(cpu).rs2() != 0 ==> *final(cpu) == old(cpu).with_rd(
                (old(cpu).rs1() % old(cpu).rs2()) as u32,
            ),
            final(memory)@ == old(memory)@,
    {
        let a = cpu.registers[cpu.s1];
        let b = cpu.registers[cpu.s2];
        let d = cpu.d;
        if b == 0 {
            cpu.cr0 = cpu.cr0 | CPU::CR0_FP_DIVZERO;
            cpu.set_reg(d, 0);
        } else {
            cpu.set_reg(d, a % b);
        }
    }
}

/// The full product of two 32-bit values.
fn wide_product(a: u32, b: u32) -> (r: u64)
    ensures
        r == a * b,
{
    assert((a as int) * (b as int) <= 0xFFFF_FFFF * 0xFFFF_FFFF) by (nonlinear_arith)
        requires
            a <= 0xFFFF_FFFF,
            b <= 0xFFFF_FFFF,
    ;
    (a as u64) * (b as u64)
}

} // verus!

verus! {

/// Low 32 bits of the full 64-bit product.
fn mul_low(a: u32, b: u32) -> (r: u32)
    ensures
        r == wrap32(a * b),
{
    assert((a as int) * (b as int) <= 0xFFFF_FFFF * 0xFFFF_FFFF) by (nonlinear_arith)
        requires
            a <= 0xFFFF_FFFF,
            b <= 0xFFFF_FFFF,
    ;
    let p = (a as u64) * (b as u64);
    (p % 0x1_0000_0000) as u32
}

/// Index of the lowest set bit of `x` at or above `i`, 32 when there is none.
pub open spec fn first_set_from(x: u32, i: nat) -> nat
    decreases 32 - i,
{
    if i >= 32 {
        32
    } else if (x >> i as u32) & 1 == 1 {
        i
    } else {
        first_set_from(x, i + 1)
    }
}

/// Index of the lowest set bit of `x`, 32 when `x` is zero.
pub open spec fn first_set(x: u32) -> nat {
    first_set_from(x, 0)
}

/// Scans `x` from bit 0 upward for a bit equal to `one`; 32 when there is none.
fn find_first(x: u32, one: bool) -> (r: u32)
    ensures
        r == (if one {
            first_set(x)
        } else {
            first_set(!x)
        }),
{
    let y = if one { x } else { !x };
    let mut pos: u32 = 0;
    while pos < 32 && (y >> pos) & 1 == 0
        invariant
            pos <= 32,
            first_set_from(y, 0) == first_set_from(y, pos as nat),
        decreases 32 - pos,
    {
        pos = pos + 1;
    }
    if pos < 32 {
        let bit = (y >> pos) & 1;
        assert(bit == 0 || bit == 1) by (bit_vector)
            requires
                bit == (y >> pos) & 1,
        ;
    }
    pos
}

/// `|signed(x)|` as an unsigned value.
fn magnitude(x: u32) -> (r: u32)
    ensures
        r == abs(signed(x)),
{
    if x >= 0x8000_0000 {
        0u32.wrapping_sub(x)
    } else {
        x
    }
}

/// `x` or its two's-complement negation.
fn negate_if(x: u32, neg: bool) -> (r: u32)
    ensures
        r == (if neg {
            wrap32(-x)
        } else {
            x
        }),
{
    if neg {
        0u32.wrapping_sub(x)
    } else {
        x
    }
}

} // verus!
