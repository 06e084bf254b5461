//! Single-precision floating point on raw register bit patterns.
//!
//! Comparison works on the bit patterns alone. For arithmetic and conversion
//! the rounded IEEE result is computed by the caller's floating-point unit and
//! handed in; the functions here decide the special cases, write the
//! destination and set the sticky exception bits.
use crate::cpu::CPU;
use crate::instructions::vector::{lane_index, lane_reg};
use crate::instructions::Instruction;
use crate::memory::Memory;
use vstd::prelude::*;

verus! {

/// Bit pattern of the quiet NaN written by a `0 / 0` divide.
pub const QUIET_NAN: u32 = 0x7FC0_0000;

/// Bit pattern of positive infinity.
pub const POSITIVE_INFINITY: u32 = 0x7F80_0000;

/// Sign bit of a single-precision value.
pub const SIGN_BIT: u32 = 0x8000_0000;

/// `x` is a NaN: all exponent bits set and a nonzero fraction.
pub open spec fn is_nan(x: u32) -> bool {
    x & 0x7F80_0000 == 0x7F80_0000 && x & 0x007F_FFFF != 0
}

/// `x` is an infinity of either sign.
pub open spec fn is_infinite(x: u32) -> bool {
    x & 0x7FFF_FFFF == 0x7F80_0000
}

/// `x` is a zero of either sign.
pub open spec fn is_zero(x: u32) -> bool {
    x & 0x7FFF_FFFF == 0
}

/// A key whose integer order is the numeric order of non-NaN values: the
/// magnitude bits, negated when the sign bit is set (both zeros map to 0).
pub open spec fn order_key(x: u32) -> int {
    if x & SIGN_BIT != 0 {
        -((x & 0x7FFF_FFFF) as int)
    } else {
        (x & 0x7FFF_FFFF) as int
    }
}

/// CR0 after a floating-point compare of `a` with `b`: the comparison field is
/// cleared, then exactly one of Unordered, Less, Greater, Equal is set.
pub open spec fn fcmp_cr0(cr0: u32, a: u32, b: u32) -> u32 {
    let c = cr0 & !CPU::CR0_FP_COMPARE_MASK;
    if is_nan(a) || is_nan(b) {
        c | CPU::CR0_FP_UNORDERED
    } else if order_key(a) < order_key(b) {
        c | CPU::CR0_FP_LESS
    } else if order_key(a) > order_key(b) {
        c | CPU::CR0_FP_GREATER
    } else {
        c | CPU::CR0_FP_EQUAL
    }
}

/// Exception bits of an add: overflow when the sum is infinite from finite
/// operands, underflow when it is zero while an operand is not.
pub open spec fn fadd_flags(a: u32, b: u32, r: u32) -> u32 {
    (if is_infinite(r) && !is_infinite(a) && !is_infinite(b) {
        CPU::CR0_FP_OVERFLOW
    } else {
        0
    }) | (if is_zero(r) && (!is_zero(a) || !is_zero(b)) {
        CPU::CR0_FP_UNDERFLOW
    } else {
        0
    })
}

/// Exception bits of a multiply: overflow when the product is infinite from
/// finite operands, underflow when it is zero while both operands are not.
pub open spec fn fmul_flags(a: u32, b: u32, r: u32) -> u32 {
    (if is_infinite(r) && !is_infinite(a) && !is_infinite(b) {
        CPU::CR0_FP_OVERFLOW
    } else {
        0
    }) | (if is_zero(r) && !is_zero(a) && !is_zero(b) {
        CPU::CR0_FP_UNDERFLOW
    } else {
        0
    })
}

/// Exception bits of a divide by a nonzero divisor: overflow when the quotient
/// is infinite from a finite dividend, underflow when it is zero from a nonzero one.
pub open spec fn fdiv_flags(a: u32, r: u32) -> u32 {
    (if is_infinite(r) && !is_infinite(a) {
        CPU::CR0_FP_OVERFLOW
    } else {
        0
    }) | (if is_zero(r) && !is_zero(a) {
        CPU::CR0_FP_UNDERFLOW
    } else {
        0
    })
}

/// Infinity with the sign of `a`.
pub open spec fn signed_infinity(a: u32) -> u32 {
    (a & SIGN_BIT) | POSITIVE_INFINITY
}

fn nan_bits(x: u32) -> (r: bool)
    ensures
        r == is_nan(x),
{
    x & 0x7F80_0000 == 0x7F80_0000 && x & 0x007F_FFFF != 0
}

fn infinite_bits(x: u32) -> (r: bool)
    ensures
        r == is_infinite(x),
{
    x & 0x7FFF_FFFF == 0x7F80_0000
}

fn zero_bits(x: u32) -> (r: bool)
    ensures
        r == is_zero(x),
{
    x & 0x7FFF_FFFF == 0
}

fn key_less(a: u32, b: u32) -> (r: bool)
    ensures
        r == (order_key(a) < order_key(b)),
{
    let ma = a & 0x7FFF_FFFF;
    let mb = b & 0x7FFF_FFFF;
    let na = a & SIGN_BIT != 0;
    let nb = b & SIGN_BIT != 0;
    if na && nb {
        ma > mb
    } else if na {
        ma != 0 || mb != 0
    } else if nb {
        false
    } else {
        ma < mb
    }
}

/// Floating-point compare of rs1 with rs2 into the comparison field of CR0.
pub struct FCmp;

impl Instruction for FCmp {
    fn execute(&self, cpu: &mut CPU, memory: &mut Memory)
        ensures
            *final(cpu) == old(cpu).with_cr0(fcmp_cr0(old(cpu).cr0, old(cpu).rs1(), old(cpu).rs2())),
            final(memory)@ == old(memory)@,
    {
        let a = cpu.registers[cpu.s1];
        let b = cpu.registers[cpu.s2];
        let c = cpu.cr0 & !CPU::CR0_FP_COMPARE_MASK;
        if nan_bits(a) || nan_bits(b) {
            cpu.cr0 = c | CPU::CR0_FP_UNORDERED;
        } else if key_less(a, b) {
            cpu.cr0 = c | CPU::CR0_FP_LESS;
        } else if key_less(b, a) {
            cpu.cr0 = c | CPU::CR0_FP_GREATER;
        } else {
            cpu.cr0 = c | CPU::CR0_FP_EQUAL;
        }
    }
}

/// Completes a floating-point add: `sum` is the rounded sum of rs1 and rs2.
/// Sets the add exception bits and writes the sum to rd.
pub fn finish_fadd(cpu: &mut CPU, sum: u32)
    requires
        old(cpu).wf(),
    ensures
        *final(cpu) == old(cpu).with_cr0(
            old(cpu).cr0 | fadd_flags(old(cpu).rs1(), old(cpu).rs2(), sum),
        ).with_rd(sum),
{
    let a = cpu.registers[cpu.s1];
    let b = cpu.registers[cpu.s2];
    let overflow: u32 = if infinite_bits(sum) && !infinite_bits(a) && !infinite_bits(b) {
        CPU::CR0_FP_OVERFLOW
    } else {
        0
    };
    let underflow: u32 = if zero_bits(sum) && (!zero_bits(a) || !zero_bits(b)) {
        CPU::CR0_FP_UNDERFLOW
    } else {
        0
    };
    cpu.cr0 = cpu.cr0 | (overflow | underflow);
    let d = cpu.d;
    cpu.set_reg(d, sum);
}

/// Completes a floating-point subtract: `difference` is the rounded rs1 - rs2.
/// A NaN result sets the invalid bit; the difference goes to rd.
pub fn finish_fsub(cpu: &mut CPU, difference: u32)
    requires
        old(cpu).wf(),
    ensures
        *final(cpu) == (if is_nan(difference) {
            old(cpu).with_cr0(old(cpu).cr0 | CPU::CR0_FP_INVALID)
        } else {
            *old(cpu)
        }).with_rd(difference),
{
    if nan_bits(difference) {
        cpu.cr0 = cpu.cr0 | CPU::CR0_FP_INVALID;
    }
    let d = cpu.d;
    cpu.set_reg(d, difference);
}

/// Completes a floating-point multiply: `product` is the rounded product of
/// rs1 and rs2. Sets the multiply exception bits and writes the product to rd.
pub fn finish_fmul(cpu: &mut CPU, product: u32)
    requires
        old(cpu).wf(),
    ensures
        *final(cpu) == old(cpu).with_cr0(
            old(cpu).cr0 | fmul_flags(old(cpu).rs1(), old(cpu).rs2(), product),
        ).with_rd(product),
{
    let a = cpu.registers[cpu.s1];
    let b = cpu.registers[cpu.s2];
    let overflow: u32 = if infinite_bits(product) && !infinite_bits(a) && !infinite_bits(b) {
        CPU::CR0_FP_OVERFLOW
    } else {
        0
    };
    let underflow: u32 = if zero_bits(product) && !zero_bits(a) && !zero_bits(b) {
        CPU::CR0_FP_UNDERFLOW
    } else {
        0
    };
    cpu.cr0 = cpu.cr0 | (overflow | underflow);
    let d = cpu.d;
    cpu.set_reg(d, product);
}

/// Completes a floating-point divide of rs1 by rs2; `quotient` is the rounded
/// quotient and is used only when rs2 is not a zero. A zero divisor sets
/// divide-by-zero and gives a NaN (also setting invalid) when rs1 is a zero,
/// else an infinity with the sign of rs1.
pub fn finish_fdiv(cpu: &mut CPU, quotient: u32)
    requires
        old(cpu).wf(),
    ensures
        ({
            let a = old(cpu).rs1();
            let b = old(cpu).rs2();
            let c0 = old(cpu).cr0;
            &&& is_zero(b) && is_zero(a) ==> *final(cpu) == old(cpu).with_cr0(
                c0 | CPU::CR0_FP_DIVZERO | CPU::CR0_FP_INVALID,
            ).with_rd(QUIET_NAN)
            &&& is_zero(b) && !is_zero(a) ==> *final(cpu) == old(cpu).with_cr0(
                c0 | CPU::CR0_FP_DIVZERO,
            ).with_rd(signed_infinity(a))
            &&& !is_zero(b) ==> *final(cpu) == old(cpu).with_cr0(
                c0 | fdiv_flags(a, quotient),
            ).with_rd(quotient)
        }),
{
    let a = cpu.registers[cpu.s1];
    let b = cpu.registers[cpu.s2];
    let d = cpu.d;
    if zero_bits(b) {
        if zero_bits(a) {
            cpu.cr0 = cpu.cr0 | CPU::CR0_FP_DIVZERO | CPU::CR0_FP_INVALID;
            cpu.set_reg(d, QUIET_NAN);
        } else {
            cpu.cr0 = cpu.cr0 | CPU::CR0_FP_DIVZERO;
            cpu.set_reg(d, (a & SIGN_BIT) | POSITIVE_INFINITY);
        }
        return ;
    }
    let overflow: u32 = if infinite_bits(quotient) && !infinite_bits(a) {
        CPU::CR0_FP_OVERFLOW
    } else {
        0
    };
    let underflow: u32 = if zero_bits(quotient) && !zero_bits(a) {
        CPU::CR0_FP_UNDERFLOW
    } else {
        0
    };
    cpu.cr0 = cpu.cr0 | (overflow | underflow);
    cpu.set_reg(d, quotient);
}

/// `x` (not a NaN) lies outside the signed 32-bit range: at or above 2^31,
/// or below -2^31. The bit pattern of 2^31 is `0x4F00_0000`.
pub open spec fn beyond_i32(x: u32) -> bool {
    (x & SIGN_BIT == 0 && x & 0x7FFF_FFFF >= 0x4F00_0000) || (x & SIGN_BIT != 0 && x
        & 0x7FFF_FFFF > 0x4F00_0000)
}

/// Completes a float-to-integer conversion of rs1; `rounded` is rs1 rounded
/// to an integer and is used only for finite values within the signed 32-bit
/// range. NaN and infinities set invalid and give 0; values from 2^31 up, or
/// below -2^31, set overflow and saturate by sign; -2^31 itself is in range.
pub fn finish_fp_to_int(cpu: &mut CPU, rounded: u32)
    requires
        old(cpu).wf(),
    ensures
        ({
            let x = old(cpu).rs1();
            let c0 = old(cpu).cr0;
            &&& (is_nan(x) || is_infinite(x)) ==> *final(cpu) == old(cpu).with_cr0(
                c0 | CPU::CR0_FP_INVALID,
            ).with_rd(0)
            &&& !(is_nan(x) || is_infinite(x)) && beyond_i32(x) ==> *final(cpu) == old(
                cpu,
            ).with_cr0(c0 | CPU::CR0_FP_OVERFLOW).with_rd(
                if x & SIGN_BIT == 0 {
                    0x7FFF_FFFFu32
                } else {
                    0x8000_0000u32
                },
            )
            &&& !(is_nan(x) || is_infinite(x)) && !beyond_i32(x) ==> *final(cpu) == old(
                cpu,
            ).with_rd(rounded)
        }),
{
    let x = cpu.registers[cpu.s1];
    let d = cpu.d;
    if nan_bits(x) || infinite_bits(x) {
        cpu.cr0 = cpu.cr0 | CPU::CR0_FP_INVALID;
        cpu.set_reg(d, 0);
    } else if (x & SIGN_BIT == 0 && x & 0x7FFF_FFFF >= 0x4F00_0000) || (x & SIGN_BIT != 0 && x
        & 0x7FFF_FFFF > 0x4F00_0000) {
        cpu.cr0 = cpu.cr0 | CPU::CR0_FP_OVERFLOW;
        let v: u32 = if x & SIGN_BIT == 0 {
            0x7FFF_FFFF
        } else {
            0x8000_0000
        };
        cpu.set_reg(d, v);
    } else {
        cpu.set_reg(d, rounded);
    }
}

/// Completes lane `i` of a vector add, subtract or multiply: `result` is the
/// lane's rounded result. A NaN sets invalid; the result goes to register
/// `i` after rd.
pub fn finish_vector_lane(cpu: &mut CPU, i: usize, result: u32)
    requires
        old(cpu).wf(),
        i < 4,
    ensures
        *final(cpu) == (if is_nan(result) {
            old(cpu).with_cr0(old(cpu).cr0 | CPU::CR0_FP_INVALID)
        } else {
            *old(cpu)
        }).with_reg(lane_reg(old(cpu).d as int, i as int), result),
{
    if nan_bits(result) {
        cpu.cr0 = cpu.cr0 | CPU::CR0_FP_INVALID;
    }
    let dst = lane_index(cpu.d, i);
    cpu.set_reg(dst, result);
}

/// Completes lane `i` of a vector divide; `quotient` is the lane's rounded
/// quotient and is used only when the lane's divisor (register `i` after rs2)
/// is not a zero. A zero divisor sets divide-by-zero and gives a NaN; a NaN
/// quotient sets invalid.
pub fn finish_vdiv_lane(cpu: &mut CPU, i: usize, quotient: u32)
    requires
        old(cpu).wf(),
        i < 4,
    ensures
        ({
            let b = old(cpu).reg(lane_reg(old(cpu).s2 as int, i as int));
            let dst = lane_reg(old(cpu).d as int, i as int);
            &&& is_zero(b) ==> *final(cpu) == old(cpu).with_cr0(
                old(cpu).cr0 | CPU::CR0_FP_DIVZERO,
            ).with_reg(dst, QUIET_NAN)
            &&& !is_zero(b) ==> *final(cpu) == (if is_nan(quotient) {
                old(cpu).with_cr0(old(cpu).cr0 | CPU::CR0_FP_INVALID)
            } else {
                *old(cpu)
            }).with_reg(dst, quotient)
        }),
{
    let b = cpu.registers[lane_index(cpu.s2, i)];
    let dst = lane_index(cpu.d, i);
    if zero_bits(b) {
        cpu.cr0 = cpu.cr0 | CPU::CR0_FP_DIVZERO;
        cpu.set_reg(dst, QUIET_NAN);
    } else {
        if nan_bits(quotient) {
            cpu.cr0 = cpu.cr0 | CPU::CR0_FP_INVALID;
        }
        cpu.set_reg(dst, quotient);
    }
}

} // verus!
