//! Processor state: register file, program counter, status register (CR0),
//! shadow exception pointers, privilege level and per-dispatch operand fields.
use vstd::prelude::*;

verus! {

/// Execution privilege of the processor.
#[derive(Debug, PartialEq, Eq, Clone, Copy, Structural)]
pub enum PrivilegeLevel {
    User,
    Supervisor,
}

/// Architectural state of one processor.
#[derive(Debug)]
pub struct CPU {
    /// General purpose registers r0-r31.
    pub registers: [u32; 32],
    /// Program counter.
    pub pc: u32,
    /// Control register 0: condition, floating-point and exception bits.
    pub cr0: u32,
    /// Destination register index of the current instruction.
    pub d: usize,
    /// First source register index of the current instruction.
    pub s1: usize,
    /// Second source register index of the current instruction.
    pub s2: usize,
    /// Immediate operand of the current instruction.
    pub imm: i16,
    /// Branch offset of the current instruction.
    pub offset: i16,
    /// Shadow execution instruction pointer.
    pub sxip: u32,
    /// Shadow next instruction pointer.
    pub snip: u32,
    /// Shadow fetch instruction pointer.
    pub sfip: u32,
    /// Next instruction pointer.
    pub nip: u32,
    /// Fetch instruction pointer.
    pub fip: u32,
    /// Vector number of the current instruction.
    pub vector: u8,
    /// Vector number recorded by the last trap.
    pub trap_vector: u8,
    /// Page table base register.
    pub ptbr: u32,
    /// MMU control register.
    pub mmu_control: u32,
    /// Current privilege level.
    pub privilege_level: PrivilegeLevel,
}

/// `x` reduced to 32 bits, as two's-complement hardware keeps it.
pub open spec fn wrap32(x: int) -> u32 {
    (x % 0x1_0000_0000) as u32
}

/// `x` read as a signed 32-bit value.
pub open spec fn signed(x: u32) -> int {
    if x < 0x8000_0000 {
        x as int
    } else {
        x as int - 0x1_0000_0000
    }
}

/// Magnitude of an integer.
pub open spec fn abs(x: int) -> int {
    if x < 0 {
        -x
    } else {
        x
    }
}

/// Division rounding toward zero.
pub open spec fn div_toward_zero(a: int, b: int) -> int {
    if (a < 0) != (b < 0) {
        -(abs(a) / abs(b))
    } else {
        abs(a) / abs(b)
    }
}

/// Remainder of `div_toward_zero`: the sign of the dividend, the magnitude `|a| mod |b|`.
pub open spec fn rem_toward_zero(a: int, b: int) -> int {
    if a < 0 {
        -(abs(a) % abs(b))
    } else {
        abs(a) % abs(b)
    }
}

/// CR0 after an integer comparison of `a` with `b`: one of Equal, Less and
/// Greater is set and the other two are cleared; other bits stay.
pub open spec fn compare_cr0(cr0: u32, a: int, b: int) -> u32 {
    if a == b {
        (cr0 | CPU::CR0_EQUAL) & !CPU::CR0_LESS & !CPU::CR0_GREATER
    } else if a < b {
        (cr0 | CPU::CR0_LESS) & !CPU::CR0_EQUAL & !CPU::CR0_GREATER
    } else {
        (cr0 | CPU::CR0_GREATER) & !CPU::CR0_EQUAL & !CPU::CR0_LESS
    }
}

/// Index of the register that follows `i` in the register file, wrapping past r31.
pub open spec fn next_reg(i: int) -> int {
    (i + 1) % 32
}

/// A 16-bit signed value sign-extended to 32 bits.
pub fn extend_i16(imm: i16) -> (r: u32)
    ensures
        r == wrap32(imm as int),
{
    let r = imm as u32;
    proof {
        if imm < 0 {
            assert(imm < 0 ==> ((imm as u32) as i64) == (imm as i64) + 0x100000000i64)
                by (bit_vector);
        } else {
            assert(imm >= 0 ==> ((imm as u32) as i64) == (imm as i64)) by (bit_vector);
        }
    }
    r
}

/// Signed comparison of two register values.
pub fn signed_less(a: u32, b: u32) -> (r: bool)
    ensures
        r == (signed(a) < signed(b)),
{
    if a >= 0x8000_0000 && b < 0x8000_0000 {
        true
    } else if a < 0x8000_0000 && b >= 0x8000_0000 {
        false
    } else {
        a < b
    }
}

/// Index of the register after `i`, wrapping past r31.
pub fn next_index(i: usize) -> (r: usize)
    requires
        i < 32,
    ensures
        r == next_reg(i as int),
        r < 32,
{
    (i + 1) % 32
}

impl CPU {
    pub const CR0_EQUAL: u32 = 0x1;
    pub const CR0_LESS: u32 = 0x2;
    pub const CR0_GREATER: u32 = 0x4;
    pub const CR0_UNORDERED: u32 = 0x8;
    pub const CR0_FP_DIVZERO: u32 = 0x10;
    pub const CR0_FP_INEXACT: u32 = 0x20;
    pub const CR0_FP_INVALID: u32 = 0x40;
    pub const CR0_FP_OVERFLOW: u32 = 0x80;
    pub const CR0_FP_UNDERFLOW: u32 = 0x100;
    pub const CR0_FP_EQUAL: u32 = 0x200;
    pub const CR0_FP_LESS: u32 = 0x400;
    pub const CR0_FP_GREATER: u32 = 0x800;
    pub const CR0_FP_UNORDERED: u32 = 0x1000;
    /// The four floating-point comparison bits together.
    pub const CR0_FP_COMPARE_MASK: u32 = 0x1E00;
    pub const CR0_BOUNDS_CHECK: u32 = 0x2000;
    pub const CR0_TRAP: u32 = 0x4000;
    pub const CR0_PAGE_FAULT: u32 = 0x8000;
    pub const CR0_WRITE_PROTECT: u32 = 0x10000;
    pub const CR0_PRIVILEGE_VIOLATION: u32 = 0x20000;
    /// MMU control bit: translation enabled.
    pub const MMU_ENABLE: u32 = 0x1;
    /// MMU control bit: supervisor mode.
    pub const MMU_SUPERVISOR: u32 = 0x2;
    /// MMU control bit: write protection.
    pub const MMU_WRITE_PROTECT: u32 = 0x4;

    /// The operand fields name registers of the register file.
    pub open spec fn wf(&self) -> bool {
        self.d < 32 && self.s1 < 32 && self.s2 < 32
    }

    /// Register `i` as seen by the specifications.
    pub open spec fn reg(&self, i: int) -> u32 {
        self.registers@[i]
    }

    /// This state with register `i` replaced by `v`.
    pub open spec fn with_reg(self, i: int, v: u32) -> CPU {
        CPU { registers: vstd::array::spec_array_update(self.registers, i, v), ..self }
    }

    /// This state with the program counter replaced by `v`.
    pub open spec fn with_pc(self, v: u32) -> CPU {
        CPU { pc: v, ..self }
    }

    /// This state with CR0 replaced by `v`.
    pub open spec fn with_cr0(self, v: u32) -> CPU {
        CPU { cr0: v, ..self }
    }

    /// Value of the register named by the first source field.
    pub open spec fn rs1(&self) -> u32 {
        self.registers@[self.s1 as int]
    }

    /// Value of the register named by the second source field.
    pub open spec fn rs2(&self) -> u32 {
        self.registers@[self.s2 as int]
    }

    /// Value of the register named by the destination field.
    pub open spec fn rd(&self) -> u32 {
        self.registers@[self.d as int]
    }

    /// This state with the destination register replaced by `v`.
    pub open spec fn with_rd(self, v: u32) -> CPU {
        self.with_reg(self.d as int, v)
    }

    /// Writes register `i`, leaving everything else as it was.
    pub fn set_reg(&mut self, i: usize, v: u32)
        requires
            i < 32,
        ensures
            *final(self) == old(self).with_reg(i as int, v),
    {
        self.registers[i] = v;
    }

    /// Sets the given CR0 bits.
    pub fn set_fp_flag(&mut self, flag: u32)
        ensures
            *final(self) == old(self).with_cr0(old(self).cr0 | flag),
    {
        self.cr0 = self.cr0 | flag;
    }

    /// Clears the given CR0 bits.
    pub fn clear_fp_flag(&mut self, flag: u32)
        ensures
            *final(self) == old(self).with_cr0(old(self).cr0 & !flag),
    {
        self.cr0 = self.cr0 & !flag;
    }

    /// Sets the page fault bit.
    pub fn set_page_fault(&mut self)
        ensures
            *final(self) == old(self).with_cr0(old(self).cr0 | CPU::CR0_PAGE_FAULT),
    {
        self.cr0 = self.cr0 | CPU::CR0_PAGE_FAULT;
    }

    /// Sets the write protection bit.
    pub fn set_write_protect_fault(&mut self)
        ensures
            *final(self) == old(self).with_cr0(old(self).cr0 | CPU::CR0_WRITE_PROTECT),
    {
        self.cr0 = self.cr0 | CPU::CR0_WRITE_PROTECT;
    }

    /// Sets the privilege violation bit.
    pub fn set_privilege_violation(&mut self)
        ensures
            *final(self) == old(self).with_cr0(old(self).cr0 | CPU::CR0_PRIVILEGE_VIOLATION),
    {
        self.cr0 = self.cr0 | CPU::CR0_PRIVILEGE_VIOLATION;
    }

    /// Clears the privilege violation bit.
    pub fn clear_privilege_violation(&mut self)
        ensures
            *final(self) == old(self).with_cr0(old(self).cr0 & !CPU::CR0_PRIVILEGE_VIOLATION),
    {
        self.cr0 = self.cr0 & !CPU::CR0_PRIVILEGE_VIOLATION;
    }

    /// Whether the privilege violation bit is set.
    pub fn has_privilege_violation(&self) -> (r: bool)
        ensures
            r == (self.cr0 & CPU::CR0_PRIVILEGE_VIOLATION != 0),
    {
        self.cr0 & CPU::CR0_PRIVILEGE_VIOLATION != 0
    }

    /// The current privilege level.
    pub fn get_privilege_level(&self) -> (r: PrivilegeLevel)
        ensures
            r == self.privilege_level,
    {
        self.privilege_level
    }

    /// Changes the privilege level.
    pub fn set_privilege_level(&mut self, level: PrivilegeLevel)
        ensures
            *final(self) == (CPU { privilege_level: level, ..*old(self) }),
    {
        self.privilege_level = level;
    }

    /// Whether the enable bit of the MMU control register is set.
    pub fn mmu_enabled(&self) -> (r: bool)
        ensures
            r == (self.mmu_control & CPU::MMU_ENABLE != 0),
    {
        self.mmu_control & CPU::MMU_ENABLE != 0
    }

    /// Sets or clears the enable bit of the MMU control register.
    pub fn set_mmu_enabled(&mut self, enabled: bool)
        ensures
            *final(self) == (CPU {
                mmu_control: if enabled {
                    old(self).mmu_control | CPU::MMU_ENABLE
                } else {
                    old(self).mmu_control & !CPU::MMU_ENABLE
                },
                ..*old(self)
            }),
    {
        if enabled {
            self.mmu_control = self.mmu_control | CPU::MMU_ENABLE;
        } else {
            self.mmu_control = self.mmu_control & !CPU::MMU_ENABLE;
        }
    }

    /// Creates a processor with every register and field zero, in user mode.
    pub fn new() -> (r: Self)
        ensures
            r.wf(),
            forall|i: int| 0 <= i < 32 ==> r.reg(i) == 0,
            r.pc == 0 && r.cr0 == 0 && r.d == 0 && r.s1 == 0 && r.s2 == 0,
            r.imm == 0 && r.offset == 0 && r.vector == 0 && r.trap_vector == 0,
            r.sxip == 0 && r.snip == 0 && r.sfip == 0 && r.nip == 0 && r.fip == 0,
            r.ptbr == 0 && r.mmu_control == 0,
            r.privilege_level == PrivilegeLevel::User,
    {
        CPU {
            registers: [0u32; 32],
            pc: 0,
            cr0: 0,
            d: 0,
            s1: 0,
            s2: 0,
            imm: 0,
            offset: 0,
            sxip: 0,
            snip: 0,
            sfip: 0,
            nip: 0,
            fip: 0,
            vector: 0,
            trap_vector: 0,
            ptbr: 0,
            mmu_control: 0,
            privilege_level: PrivilegeLevel::User,
        }
    }
}

} // verus!

verus! {

/// An integer comparison leaves exactly one of Equal, Less and Greater set,
/// whatever CR0 held before; comparing a value with itself gives Equal.
pub proof fn lemma_compare_sets_exactly_one(cr0: u32, a: int, b: int)
    ensures
        ({
            let r = compare_cr0(cr0, a, b);
            let eq = r & CPU::CR0_EQUAL != 0;
            let lt = r & CPU::CR0_LESS != 0;
            let gt = r & CPU::CR0_GREATER != 0;
            &&& (eq && !lt && !gt) || (!eq && lt && !gt) || (!eq && !lt && gt)
            &&& eq <==> a == b
            &&& lt <==> a < b
            &&& gt <==> a > b
        }),
        compare_cr0(cr0, a, a) & CPU::CR0_EQUAL != 0,
{
    let e = (cr0 | 1u32) & !2u32 & !4u32;
    let l = (cr0 | 2u32) & !1u32 & !4u32;
    let g = (cr0 | 4u32) & !1u32 & !2u32;
    assert(e & 1 != 0 && e & 2 == 0 && e & 4 == 0) by (bit_vector)
        requires
            e == (cr0 | 1u32) & !2u32 & !4u32,
    ;
    assert(l & 1 == 0 && l & 2 != 0 && l & 4 == 0) by (bit_vector)
        requires
            l == (cr0 | 2u32) & !1u32 & !4u32,
    ;
    assert(g & 1 == 0 && g & 2 == 0 && g & 4 != 0) by (bit_vector)
        requires
            g == (cr0 | 4u32) & !1u32 & !2u32,
    ;
}

} // verus!

verus! {

impl Default for PrivilegeLevel {
    /// User mode.
    fn default() -> (r: Self)
        ensures
            r == PrivilegeLevel::User,
    {
        PrivilegeLevel::User
    }
}

impl Default for CPU {
    /// The processor `CPU::new` creates.
    fn default() -> (r: Self)
        ensures
            r.wf(),
            forall|i: int| 0 <= i < 32 ==> r.reg(i) == 0,
            r.pc == 0 && r.cr0 == 0 && r.d == 0 && r.s1 == 0 && r.s2 == 0,
            r.imm == 0 && r.offset == 0 && r.vector == 0 && r.trap_vector == 0,
            r.sxip == 0 && r.snip == 0 && r.sfip == 0 && r.nip == 0 && r.fip == 0,
            r.ptbr == 0 && r.mmu_control == 0,
            r.privilege_level == PrivilegeLevel::User,
    {
        CPU::new()
    }
}

} // verus!
