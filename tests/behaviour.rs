use motorola88k::cpu::{PrivilegeLevel, CPU};
use motorola88k::instructions::arithmetic::{
    Add, Cmp, CmpU, Div, DivU, DivUD, LMul, LMulU, Rem, Sub, FF0, FF1,
};
use motorola88k::instructions::control::{Jal, Rte, Tbnd, Trap};
use motorola88k::instructions::floating_point::{
    finish_fdiv, finish_fp_to_int, finish_vdiv_lane, FCmp, QUIET_NAN,
};
use motorola88k::instructions::logical::{Clr, Ext, Mak, Rot, SetBit};
use motorola88k::instructions::memory_access::{
    Load, LoadByte, LoadDouble, LoadHalf, Store, StoreByte, StoreDouble, StoreHalf,
};
use motorola88k::instructions::mmu::{TLBInvalidate, TLBLoad, Translate, PTBR};
use motorola88k::instructions::system::{
    CacheFlush, CacheInvalidate, CacheOperation, DCache, FlushCache, ICache,
};
use motorola88k::instructions::vector::{VMove, VShuffle};
use motorola88k::instructions::Instruction;
use motorola88k::memory::{Memory, MemoryError, PageTableEntry, MEMORY_SIZE};

fn setup(a: u32, b: u32) -> (CPU, Memory) {
    let mut cpu = CPU::new();
    cpu.registers[1] = a;
    cpu.registers[2] = b;
    cpu.s1 = 1;
    cpu.s2 = 2;
    cpu.d = 3;
    (cpu, Memory::new())
}

#[test]
fn add_sub_wrap_at_both_ends() {
    let (mut cpu, mut mem) = setup(0xFFFF_FFFF, 1);
    Add.execute(&mut cpu, &mut mem);
    assert_eq!(cpu.registers[3], 0);
    cpu.registers[1] = 0;
    Sub.execute(&mut cpu, &mut mem);
    assert_eq!(cpu.registers[3], 0xFFFF_FFFF);
    cpu.registers[1] = 0x1234_5678;
    cpu.registers[2] = 0xF000_0000;
    Add.execute(&mut cpu, &mut mem);
    assert_eq!(cpu.registers[3], 0x0234_5678);
    assert_eq!(cpu.cr0, 0);
}

#[test]
fn divide_by_zero_clears_destination_and_flags() {
    let (mut cpu, mut mem) = setup(7, 0);
    cpu.registers[3] = 99;
    Div.execute(&mut cpu, &mut mem);
    assert_eq!(cpu.registers[3], 0);
    assert_eq!(cpu.cr0, CPU::CR0_FP_DIVZERO);
    cpu.cr0 = 0;
    cpu.registers[3] = 99;
    DivU.execute(&mut cpu, &mut mem);
    assert_eq!(cpu.registers[3], 0);
    assert_eq!(cpu.cr0, CPU::CR0_FP_DIVZERO);
}

#[test]
fn signed_division_min_by_minus_one_raises_nothing() {
    let (mut cpu, mut mem) = setup(0x8000_0000, 0xFFFF_FFFF);
    Div.execute(&mut cpu, &mut mem);
    assert_eq!(cpu.registers[3], 0x8000_0000);
    assert_eq!(cpu.cr0, 0);
}

#[test]
fn signed_division_rounds_toward_zero() {
    let (mut cpu, mut mem) = setup((-7i32) as u32, 2);
    Div.execute(&mut cpu, &mut mem);
    assert_eq!(cpu.registers[3] as i32, -3);
    Rem.execute(&mut cpu, &mut mem);
    assert_eq!(cpu.registers[3] as i32, -1);
    cpu.registers[1] = 7;
    cpu.registers[2] = (-2i32) as u32;
    Rem.execute(&mut cpu, &mut mem);
    assert_eq!(cpu.registers[3], 1);
}

#[test]
fn compare_sets_exactly_one_condition() {
    let cases: [(u32, u32); 5] = [(1, 1), (1, 2), (2, 1), (0xFFFF_FFFF, 1), (0, 0x8000_0000)];
    for (a, b) in cases {
        let (mut cpu, mut mem) = setup(a, b);
        cpu.cr0 = 0xFFFF_FFFF;
        Cmp.execute(&mut cpu, &mut mem);
        let bits = cpu.cr0 & (CPU::CR0_EQUAL | CPU::CR0_LESS | CPU::CR0_GREATER);
        assert_eq!(bits.count_ones(), 1);
        assert_eq!(cpu.cr0 | 0x7, 0xFFFF_FFFF);
        let sa = a as i32;
        let sb = b as i32;
        let expected = if sa == sb {
            CPU::CR0_EQUAL
        } else if sa < sb {
            CPU::CR0_LESS
        } else {
            CPU::CR0_GREATER
        };
        assert_eq!(bits, expected);
        CmpU.execute(&mut cpu, &mut mem);
        let bits = cpu.cr0 & (CPU::CR0_EQUAL | CPU::CR0_LESS | CPU::CR0_GREATER);
        let expected = if a == b {
            CPU::CR0_EQUAL
        } else if a < b {
            CPU::CR0_LESS
        } else {
            CPU::CR0_GREATER
        };
        assert_eq!(bits, expected);
    }
}

#[test]
fn compare_with_itself_is_equal() {
    let (mut cpu, mut mem) = setup(0x8000_0001, 0x8000_0001);
    cpu.cr0 = CPU::CR0_LESS | CPU::CR0_GREATER;
    Cmp.execute(&mut cpu, &mut mem);
    assert_eq!(cpu.cr0, CPU::CR0_EQUAL);
}

#[test]
fn find_first_edges() {
    let (mut cpu, mut mem) = setup(0, 0);
    cpu.d = 2;
    FF1.execute(&mut cpu, &mut mem);
    assert_eq!(cpu.registers[2], 32);
    cpu.registers[1] = 1;
    FF1.execute(&mut cpu, &mut mem);
    assert_eq!(cpu.registers[2], 0);
    cpu.registers[1] = 0xFFFF_FFFF;
    FF0.execute(&mut cpu, &mut mem);
    assert_eq!(cpu.registers[2], 32);
    cpu.registers[1] = 0xFFFF_FFFE;
    FF0.execute(&mut cpu, &mut mem);
    assert_eq!(cpu.registers[2], 0);
}

#[test]
fn long_multiply_wraps_register_pair() {
    let (mut cpu, mut mem) = setup((-3i32) as u32, 5);
    cpu.d = 31;
    LMul.execute(&mut cpu, &mut mem);
    assert_eq!(cpu.registers[31], 0xFFFF_FFFF);
    assert_eq!(cpu.registers[0], (-15i32) as u32);
    cpu.registers[1] = 0xFFFF_FFFF;
    cpu.registers[2] = 0xFFFF_FFFF;
    LMulU.execute(&mut cpu, &mut mem);
    assert_eq!(cpu.registers[31], 0xFFFF_FFFE);
    assert_eq!(cpu.registers[0], 1);
}

#[test]
fn long_divide_keeps_low_quotient_bits() {
    let mut cpu = CPU::new();
    let mut mem = Memory::new();
    cpu.registers[1] = 3;
    cpu.registers[2] = 7;
    cpu.registers[5] = 2;
    cpu.s1 = 1;
    cpu.s2 = 5;
    cpu.d = 6;
    DivUD.execute(&mut cpu, &mut mem);
    assert_eq!(cpu.registers[6], 0x8000_0003);
    assert_eq!(cpu.registers[7], 1);
    assert_eq!(cpu.cr0, 0);
}

#[test]
fn bit_field_operations() {
    let (mut cpu, mut mem) = setup(0xABCD_1234, (4 << 5) | 8);
    Ext.execute(&mut cpu, &mut mem);
    assert_eq!(cpu.registers[3], 0x23);
    Mak.execute(&mut cpu, &mut mem);
    assert_eq!(cpu.registers[3], 0x340);
    cpu.registers[2] = 4 << 5;
    Ext.execute(&mut cpu, &mut mem);
    assert_eq!(cpu.registers[3], 0);
    cpu.registers[2] = 4;
    Rot.execute(&mut cpu, &mut mem);
    assert_eq!(cpu.registers[3], 0x4ABC_D123);
    cpu.registers[2] = 33;
    Clr.execute(&mut cpu, &mut mem);
    assert_eq!(cpu.registers[3], 0xABCD_1234 & !2);
    cpu.registers[1] = 0;
    SetBit.execute(&mut cpu, &mut mem);
    assert_eq!(cpu.registers[3], 2);
}

#[test]
fn store_then_load_round_trips() {
    let mut cpu = CPU::new();
    let mut mem = Memory::new();
    cpu.registers[1] = 0x3000;
    cpu.registers[2] = 0xCAFE_BABE;
    cpu.registers[3] = 0x0123_4567;
    cpu.s1 = 1;
    cpu.offset = 6;
    cpu.d = 2;
    StoreByte.execute(&mut cpu, &mut mem);
    cpu.d = 10;
    LoadByte.execute(&mut cpu, &mut mem);
    assert_eq!(cpu.registers[10], 0xBE);
    cpu.d = 2;
    StoreHalf.execute(&mut cpu, &mut mem);
    cpu.d = 10;
    LoadHalf.execute(&mut cpu, &mut mem);
    assert_eq!(cpu.registers[10], 0xBABE);
    cpu.d = 2;
    StoreDouble.execute(&mut cpu, &mut mem);
    cpu.d = 10;
    LoadDouble.execute(&mut cpu, &mut mem);
    assert_eq!(cpu.registers[10], 0xCAFE_BABE);
    assert_eq!(cpu.registers[11], 0x0123_4567);
    Store { rd: 3, rs1: 1, offset: -4 }.execute(&mut cpu, &mut mem);
    Load { rd: 12, rs1: 1, offset: -4 }.execute(&mut cpu, &mut mem);
    assert_eq!(cpu.registers[12], 0x0123_4567);
    assert_eq!(mem.read_byte(0x2FFC).unwrap(), 0x01);
    assert_eq!(cpu.cr0, 0);
}

#[test]
fn float_divide_by_zero() {
    let (mut cpu, _) = setup(3.5f32.to_bits(), 0.0f32.to_bits());
    finish_fdiv(&mut cpu, 0);
    assert_eq!(cpu.registers[3], f32::INFINITY.to_bits());
    assert_eq!(cpu.cr0, CPU::CR0_FP_DIVZERO);
    let (mut cpu, _) = setup((-2.0f32).to_bits(), (-0.0f32).to_bits());
    finish_fdiv(&mut cpu, 0);
    assert_eq!(cpu.registers[3], f32::NEG_INFINITY.to_bits());
    assert_eq!(cpu.cr0, CPU::CR0_FP_DIVZERO);
    let (mut cpu, _) = setup(0.0f32.to_bits(), 0.0f32.to_bits());
    finish_fdiv(&mut cpu, 0);
    assert_eq!(cpu.registers[3], QUIET_NAN);
    assert!(f32::from_bits(cpu.registers[3]).is_nan());
    assert_eq!(cpu.cr0, CPU::CR0_FP_DIVZERO | CPU::CR0_FP_INVALID);
}

#[test]
fn float_divide_uses_given_quotient() {
    let (mut cpu, _) = setup(1.0f32.to_bits(), 4.0f32.to_bits());
    finish_fdiv(&mut cpu, 0.25f32.to_bits());
    assert_eq!(f32::from_bits(cpu.registers[3]), 0.25);
    assert_eq!(cpu.cr0, 0);
    let (mut cpu, _) = setup(1.0f32.to_bits(), 3.0e38f32.to_bits());
    finish_fdiv(&mut cpu, 0);
    assert_eq!(cpu.cr0, CPU::CR0_FP_UNDERFLOW);
}

#[test]
fn float_to_integer_special_cases() {
    let (mut cpu, _) = setup(f32::NAN.to_bits(), 0);
    cpu.registers[3] = 5;
    finish_fp_to_int(&mut cpu, 7);
    assert_eq!(cpu.registers[3], 0);
    assert_eq!(cpu.cr0, CPU::CR0_FP_INVALID);
    let (mut cpu, _) = setup(3.0e9f32.to_bits(), 0);
    finish_fp_to_int(&mut cpu, 7);
    assert_eq!(cpu.registers[3], 0x7FFF_FFFF);
    assert_eq!(cpu.cr0, CPU::CR0_FP_OVERFLOW);
    let (mut cpu, _) = setup((-3.0e9f32).to_bits(), 0);
    finish_fp_to_int(&mut cpu, 7);
    assert_eq!(cpu.registers[3], 0x8000_0000);
    let (mut cpu, _) = setup(2147483648.0f32.to_bits(), 0);
    finish_fp_to_int(&mut cpu, 7);
    assert_eq!(cpu.registers[3], 0x7FFF_FFFF);
    assert_eq!(cpu.cr0, CPU::CR0_FP_OVERFLOW);
    let (mut cpu, _) = setup((-2147483648.0f32).to_bits(), 0);
    finish_fp_to_int(&mut cpu, 0x8000_0000);
    assert_eq!(cpu.registers[3], 0x8000_0000);
    assert_eq!(cpu.cr0, 0);
    let (mut cpu, _) = setup(12.0f32.to_bits(), 0);
    finish_fp_to_int(&mut cpu, 12);
    assert_eq!(cpu.registers[3], 12);
    assert_eq!(cpu.cr0, 0);
}

#[test]
fn float_compare_orders_signed_values() {
    let pairs: [(f32, f32, u32); 5] = [
        (-0.0, 0.0, CPU::CR0_FP_EQUAL),
        (-1.0, 1.0, CPU::CR0_FP_LESS),
        (-2.0, -1.0, CPU::CR0_FP_LESS),
        (1.5, -3.0, CPU::CR0_FP_GREATER),
        (1.0, f32::NAN, CPU::CR0_FP_UNORDERED),
    ];
    for (a, b, bit) in pairs {
        let (mut cpu, mut mem) = setup(a.to_bits(), b.to_bits());
        cpu.cr0 = CPU::CR0_FP_COMPARE_MASK | CPU::CR0_TRAP;
        FCmp.execute(&mut cpu, &mut mem);
        assert_eq!(cpu.cr0, bit | CPU::CR0_TRAP);
    }
}

#[test]
fn vector_divide_lane_by_zero() {
    let mut cpu = CPU::new();
    cpu.s1 = 1;
    cpu.s2 = 30;
    cpu.d = 8;
    cpu.registers[31] = 0.0f32.to_bits();
    finish_vdiv_lane(&mut cpu, 1, 0);
    assert_eq!(cpu.registers[9], QUIET_NAN);
    assert_eq!(cpu.cr0, CPU::CR0_FP_DIVZERO);
}

fn mapped_memory(virtual_page: u32, physical_page: u32) -> Memory {
    let mut mem = Memory::new();
    mem.set_page_table_base(0x10_0000);
    let pte = PageTableEntry::new(physical_page * 4096);
    mem.write_physical_u32(0x10_0000 + virtual_page * 4, pte.to_u32()).unwrap();
    mem.set_mmu_enabled(true);
    mem
}

#[test]
fn translation_through_mapped_page() {
    let mut mem = mapped_memory(5, 0x42);
    assert_eq!(mem.translate_address(5 * 4096).unwrap(), 0x42 * 4096);
    assert_eq!(mem.translate_address(5 * 4096 + 4095).unwrap(), 0x42 * 4096 + 4095);
    assert_eq!(mem.translate_address(6 * 4096 + 1).unwrap_err(), MemoryError::PageFault(6 * 4096 + 1));
    mem.write_byte(5 * 4096 + 9, 0x77).unwrap();
    mem.set_mmu_enabled(false);
    assert_eq!(mem.read_byte(0x42 * 4096 + 9).unwrap(), 0x77);
}

#[test]
fn translate_instruction_reports_page_fault() {
    let mut mem = mapped_memory(1, 3);
    let mut cpu = CPU::new();
    cpu.registers[4] = 4096 + 16;
    Translate { rd: 5, rs1: 4 }.execute(&mut cpu, &mut mem);
    assert_eq!(cpu.registers[5], 3 * 4096 + 16);
    cpu.registers[4] = 2 * 4096;
    Translate { rd: 5, rs1: 4 }.execute(&mut cpu, &mut mem);
    assert_eq!(cpu.registers[5], 3 * 4096 + 16);
    assert_eq!(cpu.cr0, CPU::CR0_PAGE_FAULT);
}

#[test]
fn addressing_errors() {
    let mut mem = Memory::new();
    let size = mem.size() as u32;
    assert_eq!(size as usize, MEMORY_SIZE);
    assert_eq!(mem.read_byte(size).unwrap_err(), MemoryError::InvalidAddress(size));
    assert_eq!(mem.write_byte(size, 1).unwrap_err(), MemoryError::InvalidAddress(size));
    assert_eq!(mem.read_physical_u32(size - 3).unwrap_err(), MemoryError::InvalidAddress(size - 3));
    assert!(mem.write_physical_u32(size - 4, 0xDEAD_BEEF).is_ok());
    assert_eq!(mem.read_physical_u32(size - 4).unwrap(), 0xDEAD_BEEF);
    assert_eq!(mem.read_word(size - 2).unwrap_err(), MemoryError::InvalidAddress(size));
    mem.set_page_table_base(0xFFFF_F000);
    mem.set_mmu_enabled(true);
    assert_eq!(mem.translate_address(0).unwrap_err(), MemoryError::InvalidAddress(0xFFFF_F000));
}

#[test]
fn memory_faults_in_cr0() {
    let mut cpu = CPU::new();
    let mut mem = Memory::new();
    cpu.registers[1] = MEMORY_SIZE as u32;
    cpu.s1 = 1;
    cpu.d = 2;
    LoadByte.execute(&mut cpu, &mut mem);
    assert_eq!(cpu.cr0, 0);
    Load { rd: 2, rs1: 1, offset: 0 }.execute(&mut cpu, &mut mem);
    assert_eq!(cpu.cr0, CPU::CR0_PAGE_FAULT);
}

#[test]
fn partial_store_stays_on_fault() {
    let mut mem = mapped_memory(0, 1);
    let mut cpu = CPU::new();
    cpu.registers[1] = 4092;
    cpu.registers[2] = 0x1122_3344;
    cpu.registers[3] = 0x5566_7788;
    cpu.s1 = 1;
    cpu.d = 2;
    StoreDouble.execute(&mut cpu, &mut mem);
    assert_eq!(cpu.cr0, CPU::CR0_PAGE_FAULT);
    assert_eq!(mem.read_word(4092).unwrap(), 0x1122_3344);
    assert_eq!(mem.read_byte(4096).unwrap_err(), MemoryError::PageFault(4096));
}

#[test]
fn page_table_entry_encoding() {
    let e = PageTableEntry { physical_page: 0x1234_5FFF, valid: true, writable: false, supervisor: true };
    assert_eq!(e.to_u32(), 0x1234_5005);
    let d = PageTableEntry::from_u32(0x1234_5005);
    assert_eq!(d.physical_page, 0x1234_5000);
    assert!(d.valid && !d.writable && d.supervisor);
    assert_eq!(PageTableEntry::new(0x2FFF).to_u32(), 0x2003);
}

#[test]
fn user_mode_leaves_state_but_privilege_bit() {
    let gated: [&dyn Instruction; 7] = [
        &PTBR { rd: 1 },
        &TLBInvalidate,
        &ICache::new(CacheOperation::Flush),
        &DCache::new(CacheOperation::Invalidate),
        &FlushCache,
        &CacheInvalidate,
        &CacheFlush,
    ];
    for inst in gated {
        let (mut cpu, mut mem) = setup(0x5000, 6);
        cpu.pc = 0x400;
        cpu.cr0 = CPU::CR0_TRAP;
        mem.set_mmu_enabled(false);
        mem.write_byte(0x20, 9).unwrap();
        inst.execute(&mut cpu, &mut mem);
        assert_eq!(cpu.cr0, CPU::CR0_TRAP | CPU::CR0_PRIVILEGE_VIOLATION);
        assert_eq!(cpu.registers[1], 0x5000);
        assert_eq!(cpu.registers[2], 6);
        assert_eq!(cpu.pc, 0x400);
        assert_eq!(cpu.get_privilege_level(), PrivilegeLevel::User);
        assert!(!mem.is_mmu_enabled());
        assert_eq!(mem.page_table_base(), 0);
        assert_eq!(mem.read_byte(0x20).unwrap(), 9);
    }
}

#[test]
fn supervisor_loads_page_table_base() {
    let (mut cpu, mut mem) = setup(0x0012_3456, 0);
    cpu.set_privilege_level(PrivilegeLevel::Supervisor);
    PTBR { rd: 1 }.execute(&mut cpu, &mut mem);
    assert!(mem.is_mmu_enabled());
    assert_eq!(mem.page_table_base(), 0x0012_3000);
    TLBInvalidate.execute(&mut cpu, &mut mem);
    assert!(!mem.is_mmu_enabled());
    cpu.set_mmu_enabled(true);
    TLBLoad.execute(&mut cpu, &mut mem);
    assert!(mem.is_mmu_enabled());
    assert_eq!(cpu.cr0, 0);
}

#[test]
fn control_transfers() {
    let (mut cpu, mut mem) = setup(0x8000, 0x10);
    cpu.pc = 0xFFFF_FFFE;
    Jal.execute(&mut cpu, &mut mem);
    assert_eq!(cpu.pc, 0x8000);
    assert_eq!(cpu.registers[1], 2);
    cpu.sxip = 1;
    cpu.snip = 2;
    cpu.sfip = 3;
    Rte.execute(&mut cpu, &mut mem);
    assert_eq!((cpu.pc, cpu.nip, cpu.fip), (1, 2, 3));
    cpu.vector = 0x21;
    Trap.execute(&mut cpu, &mut mem);
    assert_eq!(cpu.trap_vector, 0x21);
    assert_eq!(cpu.cr0, CPU::CR0_TRAP);
    cpu.registers[1] = 0x10;
    Tbnd.execute(&mut cpu, &mut mem);
    assert_eq!(cpu.cr0, CPU::CR0_TRAP);
    cpu.registers[1] = 0x11;
    Tbnd.execute(&mut cpu, &mut mem);
    assert_eq!(cpu.cr0, CPU::CR0_TRAP | CPU::CR0_BOUNDS_CHECK);
}

#[test]
fn vector_lanes() {
    let (mut cpu, mut mem) = setup(0x1122_3344, 0b00_01_10_11);
    VShuffle.execute(&mut cpu, &mut mem);
    assert_eq!(cpu.registers[3], 0x4433_2211);
    cpu.s1 = 30;
    cpu.d = 4;
    cpu.registers[30] = 1;
    cpu.registers[31] = 2;
    cpu.registers[0] = 3;
    cpu.registers[1] = 4;
    VMove.execute(&mut cpu, &mut mem);
    assert_eq!(&cpu.registers[4..8], &[1, 2, 3, 4]);
}
