use gb_cpu::cpu::Cpu;
use gb_cpu::registers::{Registers, U16Register, U8Register};

#[test]
fn boop() {}

fn cpu_with_a(a: u8) -> Cpu {
    let mut cpu = Cpu::default();
    cpu.registers.a = a;
    cpu
}

#[test]
fn default_cpu_is_zeroed() {
    let cpu = Cpu::default();
    assert_eq!(cpu.registers, Registers::default());
}

#[test]
fn ld_writes_the_selected_register_only() {
    let mut cpu = Cpu::default();
    cpu.ld(U8Register::B, 0x42);
    let expected = Registers {
        b: 0x42,
        ..Registers::default()
    };
    assert_eq!(cpu.registers, expected);
}

#[test]
fn ldi_increments_hl_after_the_write() {
    let mut cpu = Cpu::default();
    cpu.registers.set_hl(0x1234);
    cpu.ldi(U8Register::A, 0x99);
    assert_eq!(cpu.registers.a, 0x99);
    assert_eq!(cpu.registers.hl(), 0x1235);
}

#[test]
fn ldi_increment_sees_a_freshly_written_l() {
    let mut cpu = Cpu::default();
    cpu.registers.set_hl(0x12AA);
    cpu.ldi(U8Register::L, 0xFF);
    assert_eq!(cpu.registers.hl(), 0x1300);
}

#[test]
fn ldi_wraps_hl() {
    let mut cpu = Cpu::default();
    cpu.registers.set_hl(0xFFFF);
    cpu.ldi(U8Register::B, 0x01);
    assert_eq!(cpu.registers.hl(), 0x0000);
}

#[test]
fn ldd_decrements_hl_after_the_write() {
    let mut cpu = Cpu::default();
    cpu.registers.set_hl(0x1234);
    cpu.ldd(U8Register::A, 0x99);
    assert_eq!(cpu.registers.a, 0x99);
    assert_eq!(cpu.registers.hl(), 0x1233);
}

#[test]
fn ldd_wraps_hl() {
    let mut cpu = Cpu::default();
    cpu.ldd(U8Register::B, 0x01);
    assert_eq!(cpu.registers.hl(), 0xFFFF);
}

#[test]
fn ld_u16_writes_pairs_and_sp() {
    let mut cpu = Cpu::default();
    cpu.ld_u16(U16Register::DE, 0xBEEF);
    assert_eq!(cpu.registers.d, 0xBE);
    assert_eq!(cpu.registers.e, 0xEF);
    cpu.ld_u16(U16Register::SP, 0x1234);
    assert_eq!(cpu.registers.sp, 0x1234);
}

#[test]
fn add_overflow_sets_all_flags() {
    let mut cpu = cpu_with_a(0xFF);
    cpu.add(0x01);
    assert_eq!(cpu.registers.a, 0x00);
    assert!(cpu.registers.f.zero);
    assert!(cpu.registers.f.carry);
    assert!(cpu.registers.f.half_carry);
    assert!(!cpu.registers.f.subtraction);
}

#[test]
fn add_without_carries() {
    let mut cpu = cpu_with_a(0x3A);
    cpu.add(0x05);
    assert_eq!(cpu.registers.a, 0x3F);
    assert!(!cpu.registers.f.zero);
    assert!(!cpu.registers.f.carry);
    assert!(!cpu.registers.f.half_carry);
    assert!(!cpu.registers.f.subtraction);
}

#[test]
fn adc_adds_the_carry_in() {
    let mut cpu = cpu_with_a(0x10);
    cpu.registers.f.carry = true;
    cpu.adc(0x0F);
    assert_eq!(cpu.registers.a, 0x20);
    assert!(cpu.registers.f.half_carry);
    assert!(!cpu.registers.f.carry);
    assert!(!cpu.registers.f.zero);
    assert!(!cpu.registers.f.subtraction);
}

#[test]
fn adc_overflow_keeps_carry() {
    let mut cpu = cpu_with_a(0xFF);
    cpu.registers.f.carry = true;
    cpu.adc(0xFF);
    assert_eq!(cpu.registers.a, 0xFF);
    assert!(cpu.registers.f.carry);
    assert!(cpu.registers.f.half_carry);
    assert!(!cpu.registers.f.zero);
}

#[test]
fn sub_underflow_wraps() {
    let mut cpu = cpu_with_a(0x00);
    cpu.sub(0x01);
    assert_eq!(cpu.registers.a, 0xFF);
    assert!(cpu.registers.f.carry);
    assert!(cpu.registers.f.subtraction);
    assert!(cpu.registers.f.half_carry);
    assert!(!cpu.registers.f.zero);
}

#[test]
fn sub_of_equal_values_is_zero() {
    let mut cpu = cpu_with_a(0x42);
    cpu.sub(0x42);
    assert_eq!(cpu.registers.a, 0x00);
    assert!(cpu.registers.f.zero);
    assert!(!cpu.registers.f.carry);
    assert!(!cpu.registers.f.half_carry);
    assert!(cpu.registers.f.subtraction);
}

#[test]
fn sbc_mirrors_the_add_based_formulation() {
    // sbc adds operand and carry-in, as the add-based formulation does,
    // with the subtraction flag set and the nibble underflow test
    let mut cpu = cpu_with_a(0x10);
    cpu.registers.f.carry = true;
    cpu.sbc(0x05);
    assert_eq!(cpu.registers.a, 0x16);
    assert!(cpu.registers.f.subtraction);
    assert!(cpu.registers.f.half_carry);
    assert!(!cpu.registers.f.carry);
    assert!(!cpu.registers.f.zero);
}

#[test]
fn and_clearing_every_bit_sets_zero_and_half_carry() {
    let mut cpu = cpu_with_a(0xF0);
    cpu.and(0x0F);
    assert_eq!(cpu.registers.a, 0x00);
    assert!(cpu.registers.f.zero);
    assert!(cpu.registers.f.half_carry);
    assert!(!cpu.registers.f.carry);
    assert!(!cpu.registers.f.subtraction);
}

#[test]
fn xor_flips_the_masked_bits() {
    let mut cpu = cpu_with_a(0xFF);
    cpu.xor(0x0F);
    assert_eq!(cpu.registers.a, 0xF0);
    assert!(!cpu.registers.f.zero);
    assert!(!cpu.registers.f.half_carry);
    assert!(!cpu.registers.f.carry);
    assert!(!cpu.registers.f.subtraction);
}

#[test]
fn xor_with_itself_clears_a() {
    let mut cpu = cpu_with_a(0xAA);
    cpu.xor(0xAA);
    assert_eq!(cpu.registers.a, 0x00);
    assert!(cpu.registers.f.zero);
}

#[test]
fn or_merges_bits() {
    let mut cpu = cpu_with_a(0xF0);
    cpu.or(0x0F);
    assert_eq!(cpu.registers.a, 0xFF);
    assert!(!cpu.registers.f.zero);
    assert!(!cpu.registers.f.half_carry);
    assert!(!cpu.registers.f.carry);
    assert!(!cpu.registers.f.subtraction);
}

#[test]
fn or_zero_twice_changes_nothing_after_the_first_call() {
    let mut cpu = cpu_with_a(0x5A);
    cpu.registers.f.zero = true;
    cpu.registers.f.subtraction = true;
    cpu.registers.f.half_carry = true;
    cpu.registers.f.carry = true;
    cpu.or(0x00);
    let after_first = cpu.registers;
    cpu.or(0x00);
    assert_eq!(cpu.registers, after_first);
}

#[test]
fn cp_sets_flags_and_leaves_a_alone() {
    let mut cpu = cpu_with_a(0x3C);
    cpu.cp(0x2F);
    assert_eq!(cpu.registers.a, 0x3C);
    assert!(!cpu.registers.f.zero);
    assert!(cpu.registers.f.subtraction);
    assert!(cpu.registers.f.half_carry);
    assert!(!cpu.registers.f.carry);
}

#[test]
fn inc_nibble_overflow_sets_half_carry() {
    let mut cpu = Cpu::default();
    cpu.registers.b = 0x0F;
    cpu.registers.f.carry = true;
    cpu.inc(U8Register::B);
    assert_eq!(cpu.registers.b, 0x10);
    assert!(cpu.registers.f.half_carry);
    assert!(!cpu.registers.f.zero);
    assert!(!cpu.registers.f.subtraction);
    // carry is untouched by inc
    assert!(cpu.registers.f.carry);
}

#[test]
fn inc_wraps_to_zero() {
    let mut cpu = Cpu::default();
    cpu.registers.c = 0xFF;
    cpu.inc(U8Register::C);
    assert_eq!(cpu.registers.c, 0x00);
    assert!(cpu.registers.f.zero);
    assert!(cpu.registers.f.half_carry);
}

#[test]
fn dec_nibble_underflow_sets_half_carry() {
    let mut cpu = Cpu::default();
    cpu.registers.d = 0x10;
    cpu.registers.f.carry = true;
    cpu.dec(U8Register::D);
    assert_eq!(cpu.registers.d, 0x0F);
    assert!(cpu.registers.f.half_carry);
    assert!(cpu.registers.f.subtraction);
    assert!(!cpu.registers.f.zero);
    // carry is untouched by dec
    assert!(cpu.registers.f.carry);
}

#[test]
fn dec_wraps_to_ff() {
    let mut cpu = Cpu::default();
    cpu.dec(U8Register::E);
    assert_eq!(cpu.registers.e, 0xFF);
    assert!(cpu.registers.f.half_carry);
    assert!(!cpu.registers.f.zero);
}

#[test]
fn dec_to_zero_sets_zero() {
    let mut cpu = Cpu::default();
    cpu.registers.h = 0x01;
    cpu.dec(U8Register::H);
    assert_eq!(cpu.registers.h, 0x00);
    assert!(cpu.registers.f.zero);
    assert!(!cpu.registers.f.half_carry);
}

#[test]
fn daa_corrects_a_bcd_add() {
    // a BCD-style add produced A = 0x1A with half-carry set
    let mut cpu = cpu_with_a(0x1A);
    cpu.registers.f.half_carry = true;
    cpu.daa();
    assert_eq!(cpu.registers.a, 0x20);
    assert!(!cpu.registers.f.carry);
    assert!(!cpu.registers.f.zero);
    // subtraction and half-carry are untouched
    assert!(!cpu.registers.f.subtraction);
    assert!(cpu.registers.f.half_carry);
}

#[test]
fn daa_subtracts_the_correction_after_a_subtraction() {
    let mut cpu = cpu_with_a(0x9A);
    cpu.registers.f.subtraction = true;
    cpu.registers.f.half_carry = true;
    cpu.registers.f.carry = true;
    cpu.daa();
    assert_eq!(cpu.registers.a, 0x34);
    assert!(!cpu.registers.f.carry);
    assert!(cpu.registers.f.subtraction);
}

#[test]
fn daa_wraps_when_the_correction_underflows() {
    let mut cpu = cpu_with_a(0x05);
    cpu.registers.f.subtraction = true;
    cpu.registers.f.carry = true;
    cpu.daa();
    assert_eq!(cpu.registers.a, 0xA5);
    assert!(cpu.registers.f.carry);
    assert!(!cpu.registers.f.zero);
}

#[test]
fn cpl_complements_a_and_forces_flags() {
    let mut cpu = cpu_with_a(0x0F);
    cpu.registers.f.zero = true;
    cpu.registers.f.carry = true;
    cpu.cpl();
    assert_eq!(cpu.registers.a, 0xF0);
    assert!(cpu.registers.f.subtraction);
    assert!(cpu.registers.f.half_carry);
    // zero and carry are untouched
    assert!(cpu.registers.f.zero);
    assert!(cpu.registers.f.carry);
}

#[test]
fn add_hl_bit12_half_carry() {
    let mut cpu = Cpu::default();
    cpu.registers.set_hl(0x0F00);
    cpu.registers.set_bc(0x0F00);
    cpu.registers.f.zero = true;
    cpu.add_HL(U16Register::BC);
    assert_eq!(cpu.registers.hl(), 0x1E00);
    assert!(cpu.registers.f.half_carry);
    assert!(!cpu.registers.f.carry);
    assert!(!cpu.registers.f.subtraction);
    // zero is untouched by add_HL
    assert!(cpu.registers.f.zero);
}

#[test]
fn add_hl_to_itself_can_overflow() {
    let mut cpu = Cpu::default();
    cpu.registers.set_hl(0x8000);
    cpu.add_HL(U16Register::HL);
    assert_eq!(cpu.registers.hl(), 0x0000);
    assert!(cpu.registers.f.carry);
    assert!(!cpu.registers.f.half_carry);
}

#[test]
fn inc_u16_wraps_and_leaves_flags_alone() {
    let mut cpu = Cpu::default();
    cpu.registers.set_bc(0xFFFF);
    cpu.registers.f.zero = true;
    cpu.registers.f.carry = true;
    cpu.inc_u16(U16Register::BC);
    assert_eq!(cpu.registers.bc(), 0x0000);
    assert!(cpu.registers.f.zero);
    assert!(cpu.registers.f.carry);
}

#[test]
fn dec_u16_wraps_sp() {
    let mut cpu = Cpu::default();
    cpu.dec_u16(U16Register::SP);
    assert_eq!(cpu.registers.sp, 0xFFFF);
}

#[test]
fn add_sp_positive_operand_can_overflow() {
    let mut cpu = Cpu::default();
    cpu.registers.sp = 0xFFF8;
    cpu.add_SP(8);
    assert_eq!(cpu.registers.sp, 0x0000);
    assert!(cpu.registers.f.carry);
    assert!(!cpu.registers.f.half_carry);
    assert!(!cpu.registers.f.zero);
    assert!(!cpu.registers.f.subtraction);
}

#[test]
fn add_sp_negative_operand_steps_back() {
    let mut cpu = Cpu::default();
    cpu.registers.sp = 0x0005;
    cpu.add_SP(-1);
    assert_eq!(cpu.registers.sp, 0x0004);
    assert!(cpu.registers.f.carry);
    assert!(!cpu.registers.f.half_carry);
}

#[test]
fn ld_hl_writes_the_sum_into_hl_and_keeps_sp() {
    let mut cpu = Cpu::default();
    cpu.registers.sp = 0x00FF;
    cpu.ld_HL(1);
    assert_eq!(cpu.registers.hl(), 0x0100);
    assert_eq!(cpu.registers.sp, 0x00FF);
    assert!(!cpu.registers.f.carry);
    assert!(!cpu.registers.f.half_carry);
    assert!(!cpu.registers.f.zero);
    assert!(!cpu.registers.f.subtraction);
}
