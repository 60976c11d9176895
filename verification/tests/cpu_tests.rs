use gbemu::cpu::CPU;
use gbemu::isa::{Instruction, RegisterName};
use gbemu::regs::Flag;

fn fresh_with(code: Vec<u8>) -> CPU {
    let mut cpu = CPU::new();
    cpu.load_code(code);
    // Run the guest code directly: page the (all-zero) boot image out.
    cpu.mem.bootrom_paged = false;
    cpu
}

#[test]
fn test_ld() {
    let code = vec![0x06, 0x05];

    let mut cpu = fresh_with(code);
    let ins = cpu.decode();
    assert_eq!(ins, Instruction::Ld8Imm(RegisterName::B, 5));

    let code = vec![0x11, 0x01, 0x00];
    cpu.load_code(code);
    cpu.mem.bootrom_paged = false;
    let ins = cpu.decode();
    assert_eq!(ins, Instruction::Ld16Imm(RegisterName::DE, 1));
}

#[test]
fn ld_b_imm_executes() {
    let mut cpu = fresh_with(vec![0x06, 0x05]);
    let ins = cpu.decode();
    assert_eq!(ins, Instruction::Ld8Imm(RegisterName::B, 5));
    let cycles = cpu.execute(ins);
    assert_eq!(cpu.reg.read8(RegisterName::B), Some(5));
    assert_eq!(cpu.reg.pc, 2);
    assert_eq!(cycles, 8);
}

#[test]
fn ld_de_imm_executes() {
    let mut cpu = fresh_with(vec![0x11, 0x01, 0x00]);
    let ins = cpu.decode();
    assert_eq!(ins, Instruction::Ld16Imm(RegisterName::DE, 1));
    let cycles = cpu.execute(ins);
    assert_eq!(cpu.reg.de, 1);
    assert_eq!(cpu.reg.pc, 3);
    assert_eq!(cycles, 12);
}

#[test]
fn add_overflow_sets_zero_half_carry() {
    // LD A,0xFF; ADD A,1
    let mut cpu = fresh_with(vec![0x3E, 0xFF, 0xC6, 0x01]);
    let ins = cpu.decode();
    cpu.execute(ins);
    let ins = cpu.decode();
    cpu.execute(ins);
    assert_eq!(cpu.reg.read8(RegisterName::A), Some(0));
    assert!(cpu.reg.flag(Flag::Zero));
    assert!(cpu.reg.flag(Flag::HalfCarry));
    assert!(cpu.reg.flag(Flag::Carry));
    assert!(!cpu.reg.flag(Flag::AddSub));
    // Z, H and C set and nothing else: F == 0xB0.
    assert_eq!(cpu.reg.read8(RegisterName::F), Some(0xB0));
}

#[test]
fn xor_a_clears_a_sets_zero_only() {
    let mut cpu = fresh_with(vec![0xAF]);
    let ins = cpu.decode();
    cpu.execute(ins);
    assert_eq!(cpu.reg.read8(RegisterName::A), Some(0));
    assert_eq!(cpu.reg.read8(RegisterName::F), Some(0x80));
}

#[test]
fn call_pushes_return_address() {
    let mut cpu = fresh_with(vec![0xCD, 0x34, 0x12]);
    assert_eq!(cpu.reg.sp, 0xFFFE);
    let ins = cpu.decode();
    cpu.execute(ins);
    assert_eq!(cpu.reg.pc, 0x1234);
    assert_eq!(cpu.reg.sp, 0xFFFC);
    // Little-endian return address: the byte after the CALL is 0x0003.
    assert_eq!(cpu.mem.get_addr(0xFFFC), 0x03);
    assert_eq!(cpu.mem.get_addr(0xFFFD), 0x00);
}

#[test]
fn interrupt_serviced_after_instruction_retires() {
    // With IE=0x01, IF=0x01 and IME on, a NOP retires and VBlank is
    // serviced: PC lands on the vector, IF clears, IME drops, and the
    // retired PC is on the stack.
    let mut cpu = fresh_with(vec![0x00]);
    cpu.mem.set_addr(0xFFFF, 0x01);
    cpu.mem.set_addr(0xFF0F, 0x01);
    cpu.reg.ie = true;
    let sp0 = cpu.reg.sp;
    let cycles = cpu.tick();
    assert_eq!(cpu.reg.pc, 0x0040);
    assert_eq!(cpu.mem.get_addr(0xFF0F), 0x00);
    assert!(!cpu.reg.ie);
    assert_eq!(cpu.reg.sp, sp0 - 2);
    // The NOP at 0 retired, so the pushed return address is 0x0001.
    assert_eq!(cpu.mem.get_addr(cpu.reg.sp), 0x01);
    assert_eq!(cpu.mem.get_addr(cpu.reg.sp + 1), 0x00);
    assert_eq!(cycles, 24);
}

#[test]
fn interrupt_priority_vblank_first() {
    // All five requested and enabled: exactly VBlank is serviced and its
    // bit alone clears.
    let mut cpu = fresh_with(vec![0x00]);
    cpu.mem.set_addr(0xFFFF, 0x1F);
    cpu.mem.set_addr(0xFF0F, 0x1F);
    cpu.reg.ie = true;
    cpu.tick();
    assert_eq!(cpu.reg.pc, 0x0040);
    assert_eq!(cpu.mem.get_addr(0xFF0F), 0x1E);
}

#[test]
fn ei_enables_after_following_instruction() {
    // EI; NOP; NOP with a pending enabled interrupt: the EI tick must not
    // service it, the next tick services it only after the NOP retires.
    let mut cpu = fresh_with(vec![0xFB, 0x00, 0x00]);
    cpu.mem.set_addr(0xFFFF, 0x01);
    cpu.mem.set_addr(0xFF0F, 0x01);
    let sp0 = cpu.reg.sp;
    cpu.tick();
    // EI retired: no service yet, IME now armed.
    assert_eq!(cpu.reg.pc, 1);
    assert_eq!(cpu.reg.sp, sp0);
    assert!(cpu.reg.ie);
    assert_eq!(cpu.mem.get_addr(0xFF0F), 0x01);
    cpu.tick();
    // The NOP at 1 retired, then VBlank was serviced.
    assert_eq!(cpu.reg.pc, 0x0040);
    assert_eq!(cpu.mem.get_addr(0xFF0F), 0x00);
    assert_eq!(cpu.mem.get_addr(cpu.reg.sp), 0x02);
}

#[test]
fn di_disables_after_following_instruction() {
    let mut cpu = fresh_with(vec![0xF3, 0x00]);
    cpu.reg.ie = true;
    cpu.tick();
    assert!(!cpu.reg.ie);
    assert!(!cpu.state.di_pending);
}

#[test]
fn push_pop_round_trip() {
    // PUSH BC; POP DE
    let mut cpu = fresh_with(vec![0xC5, 0xD1]);
    cpu.reg.bc = 0xBEEF;
    let sp0 = cpu.reg.sp;
    let ins = cpu.decode();
    cpu.execute(ins);
    assert_eq!(cpu.reg.sp, sp0 - 2);
    let ins = cpu.decode();
    cpu.execute(ins);
    assert_eq!(cpu.reg.de, 0xBEEF);
    assert_eq!(cpu.reg.sp, sp0);
}

#[test]
fn pop_af_masks_low_nibble() {
    // PUSH BC with BC=0x12FF, POP AF: F keeps only its high nibble.
    let mut cpu = fresh_with(vec![0xC5, 0xF1]);
    cpu.reg.bc = 0x12FF;
    let ins = cpu.decode();
    cpu.execute(ins);
    let ins = cpu.decode();
    cpu.execute(ins);
    assert_eq!(cpu.reg.af, 0x12F0);
}

#[test]
fn call_then_ret_restores_pc_and_sp() {
    // CALL 0x0010; ... RET at 0x0010.
    let mut code = vec![0xCD, 0x10, 0x00];
    while code.len() < 0x10 {
        code.push(0x00);
    }
    code.push(0xC9);
    let mut cpu = fresh_with(code);
    let sp0 = cpu.reg.sp;
    let ins = cpu.decode();
    cpu.execute(ins);
    assert_eq!(cpu.reg.pc, 0x0010);
    let ins = cpu.decode();
    cpu.execute(ins);
    assert_eq!(cpu.reg.pc, 0x0003);
    assert_eq!(cpu.reg.sp, sp0);
}

#[test]
fn illegal_opcode_costs_one_cycle_and_changes_nothing() {
    let mut cpu = fresh_with(vec![0xD3]);
    let ins = cpu.decode();
    assert_eq!(ins, Instruction::IllInsn);
    assert_eq!(cpu.reg.pc, 1);
    let af = cpu.reg.af;
    let sp = cpu.reg.sp;
    let cycles = cpu.execute(ins);
    assert_eq!(cycles, 1);
    assert_eq!(cpu.reg.af, af);
    assert_eq!(cpu.reg.sp, sp);
}

#[test]
fn halt_rests_until_interrupt() {
    let mut cpu = fresh_with(vec![0x76, 0x00]);
    let ins = cpu.decode();
    cpu.execute(ins);
    assert!(cpu.state.halted);
    // No enabled interrupt: the CPU stays halted and PC does not move.
    let pc = cpu.reg.pc;
    cpu.tick();
    assert!(cpu.state.halted);
    assert_eq!(cpu.reg.pc, pc);
    // An enabled pending interrupt wakes it at a cost of 20 cycles.
    cpu.reg.ie = true;
    cpu.mem.set_addr(0xFFFF, 0x01);
    cpu.mem.set_addr(0xFF0F, 0x01);
    let cycles = cpu.tick();
    assert!(!cpu.state.halted);
    assert_eq!(cpu.reg.pc, 0x0040);
    assert_eq!(cycles, 20);
}

#[test]
fn boot_overlay_reads_boot_image() {
    let mut cpu = CPU::new();
    let mut image = vec![0u8; 256];
    image[0] = 0xAF;
    cpu.mem.load_boot(&image);
    cpu.load_code(vec![0x06, 0x05]);
    // While the boot image is paged in, reads below 0x100 see it.
    assert_eq!(cpu.mem.get_addr(0), 0xAF);
    // Writes always hit the main array, and unpaging reveals them.
    cpu.mem.bootrom_paged = false;
    assert_eq!(cpu.mem.get_addr(0), 0x06);
}

#[test]
fn boot_unpages_on_ff50_write() {
    // LD A,1; LDH (0x50),A then a NOP: after the store, the next tick
    // boundary unpages the boot image.
    let mut image = vec![0u8; 256];
    image[0] = 0x3E;
    image[1] = 0x01;
    image[2] = 0xE0;
    image[3] = 0x50;
    image[4] = 0x00;
    let mut cpu = CPU::new();
    cpu.mem.load_boot(&image);
    cpu.load_code(vec![0x00]);
    cpu.tick();
    cpu.tick();
    assert!(cpu.mem.bootrom_paged);
    cpu.tick();
    assert!(!cpu.mem.bootrom_paged);
}
