use gbemu::cpu::CPU;
use gbemu::isa::{Instruction, RegisterName};
use gbemu::regs::Flag;

fn fresh() -> CPU {
    let mut cpu = CPU::new();
    cpu.mem.bootrom_paged = false;
    cpu
}

#[test]
fn daa_corrects_bcd_addition() {
    // 0x19 + 0x28 in BCD is 47.
    let mut cpu = fresh();
    cpu.reg.write8(RegisterName::A, 0x19);
    cpu.execute(Instruction::AddImm(0x28));
    cpu.execute(Instruction::Daa);
    assert_eq!(cpu.reg.read8(RegisterName::A), Some(0x47));
    assert!(!cpu.reg.flag(Flag::Carry));
}

#[test]
fn daa_reports_decimal_hundred_in_carry() {
    // 0x99 + 0x02 in BCD is 101: the byte holds 01 and C is set.
    let mut cpu = fresh();
    cpu.reg.write8(RegisterName::A, 0x99);
    cpu.execute(Instruction::AddImm(0x02));
    cpu.execute(Instruction::Daa);
    assert_eq!(cpu.reg.read8(RegisterName::A), Some(0x01));
    assert!(cpu.reg.flag(Flag::Carry));
}

#[test]
fn daa_after_subtraction() {
    // 0x45 - 0x06 in BCD is 39.
    let mut cpu = fresh();
    cpu.reg.write8(RegisterName::A, 0x45);
    cpu.execute(Instruction::SubImm(0x06));
    cpu.execute(Instruction::Daa);
    assert_eq!(cpu.reg.read8(RegisterName::A), Some(0x39));
}

#[test]
fn eight_rlc_returns_original() {
    let mut cpu = fresh();
    cpu.reg.write8(RegisterName::B, 0xA5);
    for _ in 0..8 {
        cpu.execute(Instruction::Rlc(RegisterName::B));
    }
    assert_eq!(cpu.reg.read8(RegisterName::B), Some(0xA5));
}

#[test]
fn eight_rrc_returns_original() {
    let mut cpu = fresh();
    cpu.reg.write8(RegisterName::C, 0x3C);
    for _ in 0..8 {
        cpu.execute(Instruction::Rrc(RegisterName::C));
    }
    assert_eq!(cpu.reg.read8(RegisterName::C), Some(0x3C));
}

#[test]
fn swap_twice_returns_original() {
    let mut cpu = fresh();
    cpu.reg.write8(RegisterName::D, 0x5A);
    cpu.execute(Instruction::Swap(RegisterName::D));
    assert_eq!(cpu.reg.read8(RegisterName::D), Some(0xA5));
    cpu.execute(Instruction::Swap(RegisterName::D));
    assert_eq!(cpu.reg.read8(RegisterName::D), Some(0x5A));
}

#[test]
fn set_then_res_restores_clear_bit() {
    let mut cpu = fresh();
    cpu.reg.write8(RegisterName::E, 0x50);
    cpu.execute(Instruction::SetBit(3, RegisterName::E));
    assert_eq!(cpu.reg.read8(RegisterName::E), Some(0x58));
    cpu.execute(Instruction::Res(3, RegisterName::E));
    assert_eq!(cpu.reg.read8(RegisterName::E), Some(0x50));
}

#[test]
fn bit_reports_zero_flag() {
    let mut cpu = fresh();
    cpu.reg.write8(RegisterName::H, 0x08);
    cpu.execute(Instruction::Bit(3, RegisterName::H));
    assert!(!cpu.reg.flag(Flag::Zero));
    cpu.execute(Instruction::Bit(4, RegisterName::H));
    assert!(cpu.reg.flag(Flag::Zero));
}

#[test]
fn rotate_accumulator_clears_zero_flag() {
    // RLCA always clears Z, even on a zero result.
    let mut cpu = fresh();
    cpu.reg.write8(RegisterName::A, 0);
    cpu.execute(Instruction::Rlca);
    assert!(!cpu.reg.flag(Flag::Zero));
    assert_eq!(cpu.reg.read8(RegisterName::A), Some(0));
}

#[test]
fn sbc_subtracts_the_carry_too() {
    let mut cpu = fresh();
    cpu.reg.write8(RegisterName::A, 0x10);
    cpu.reg.set_flag(Flag::Carry, true);
    cpu.execute(Instruction::SbcImm(0x01));
    assert_eq!(cpu.reg.read8(RegisterName::A), Some(0x0E));
}

#[test]
fn sub_borrow_sets_carry() {
    let mut cpu = fresh();
    cpu.reg.write8(RegisterName::A, 0x01);
    cpu.execute(Instruction::SubImm(0x02));
    assert_eq!(cpu.reg.read8(RegisterName::A), Some(0xFF));
    assert!(cpu.reg.flag(Flag::Carry));
    assert!(cpu.reg.flag(Flag::HalfCarry));
    assert!(cpu.reg.flag(Flag::AddSub));
}

#[test]
fn add16_preserves_zero_flag() {
    let mut cpu = fresh();
    cpu.reg.set_flag(Flag::Zero, true);
    cpu.reg.hl = 0x0FFF;
    cpu.reg.bc = 0x0001;
    cpu.execute(Instruction::Add16(RegisterName::BC));
    assert_eq!(cpu.reg.hl, 0x1000);
    assert!(cpu.reg.flag(Flag::Zero));
    assert!(cpu.reg.flag(Flag::HalfCarry));
    assert!(!cpu.reg.flag(Flag::Carry));
}

#[test]
fn add_sp_signed_flags_from_low_byte() {
    let mut cpu = fresh();
    cpu.reg.sp = 0x00FF;
    cpu.execute(Instruction::AddSP(1));
    assert_eq!(cpu.reg.sp, 0x0100);
    assert!(cpu.reg.flag(Flag::HalfCarry));
    assert!(cpu.reg.flag(Flag::Carry));
    assert!(!cpu.reg.flag(Flag::Zero));
    // A negative offset wraps as 16-bit addition.
    cpu.execute(Instruction::AddSP(-1));
    assert_eq!(cpu.reg.sp, 0x00FF);
}

#[test]
fn inc_preserves_carry() {
    let mut cpu = fresh();
    cpu.reg.set_flag(Flag::Carry, true);
    cpu.reg.write8(RegisterName::L, 0x0F);
    cpu.execute(Instruction::Inc(RegisterName::L));
    assert_eq!(cpu.reg.read8(RegisterName::L), Some(0x10));
    assert!(cpu.reg.flag(Flag::HalfCarry));
    assert!(cpu.reg.flag(Flag::Carry));
}

#[test]
fn jr_cond_cycles_differ_by_branch() {
    // JR NZ,+2 not taken costs 8, taken costs 12.
    let mut cpu = fresh();
    cpu.reg.set_flag(Flag::Zero, true);
    let not_taken = cpu.execute(Instruction::JrCond(gbemu::isa::JpCond::NotZero, 2));
    assert_eq!(not_taken, 8);
    cpu.reg.set_flag(Flag::Zero, false);
    let pc0 = cpu.reg.pc;
    let taken = cpu.execute(Instruction::JrCond(gbemu::isa::JpCond::NotZero, 2));
    assert_eq!(taken, 12);
    assert_eq!(cpu.reg.pc, pc0 + 2);
}
