//! The executor: one arm per instruction variant. Each arm mutates
//! registers and memory, updates the flags, and reports its cycle cost.
//! The meaning of every arm is given by `spec_execute`, a pure function
//! on the machine view.

use vstd::prelude::*;

use crate::cpu::{CPU, CPUState, MachineView};
use crate::decode::wrap_pc;
use crate::isa::{is_slot8, wf_ins, Instruction, JpCond, RegisterName};
use crate::regs::{hi, lo, Flag, Registers};

verus! {

/// The value of an 8-bit register in the view; meaningful only for the
/// eight plain names.
pub open spec fn r8(m: MachineView, n: RegisterName) -> u8 {
    match m.reg.spec_read8(n) {
        Some(v) => v,
        None => 0,
    }
}

/// The value of a 16-bit pair in the view; meaningful only for the five
/// pair names.
pub open spec fn r16(m: MachineView, n: RegisterName) -> u16 {
    match m.reg.spec_read16(n) {
        Some(v) => v,
        None => 0,
    }
}

/// The view after an 8-bit register write.
pub open spec fn w8(m: MachineView, n: RegisterName, v: u8) -> MachineView {
    MachineView { reg: m.reg.spec_write8(n, v), ..m }
}

/// The view after a 16-bit register write.
pub open spec fn w16(m: MachineView, n: RegisterName, v: u16) -> MachineView {
    MachineView { reg: m.reg.spec_write16(n, v), ..m }
}

/// The byte visible at an address.
pub open spec fn mr(m: MachineView, addr: u16) -> u8 {
    m.mem.read(addr)
}

/// The view after one byte written to memory.
pub open spec fn mw(m: MachineView, addr: u16, v: u8) -> MachineView {
    MachineView { mem: m.mem.write(addr, v), ..m }
}

/// The view after a 16-bit little-endian store: low byte at `addr`, high
/// byte one above, wrapping around the top of the address space.
pub open spec fn mw16(m: MachineView, addr: u16, v: u16) -> MachineView {
    mw(mw(m, addr, lo(v)), wrap_pc(addr, 1), hi(v))
}

/// One flag of the view.
pub open spec fn flag(m: MachineView, f: Flag) -> bool {
    m.reg.spec_flag(f)
}

/// The carry flag as 0 or 1.
pub open spec fn carry_in(m: MachineView) -> int {
    if flag(m, Flag::Carry) {
        1
    } else {
        0
    }
}

/// The view with all four flags replaced.
pub open spec fn sf(m: MachineView, z: bool, n: bool, h: bool, c: bool) -> MachineView {
    MachineView { reg: m.reg.spec_set_flags(z, n, h, c), ..m }
}

/// The view with the mode flags replaced.
pub open spec fn st(m: MachineView, s: CPUState) -> MachineView {
    MachineView { st: s, ..m }
}

/// The value of an 8-bit operand slot: a plain register, or the byte at
/// the address in HL.
pub open spec fn slot_get(m: MachineView, r: RegisterName) -> u8 {
    if r == RegisterName::HLRef {
        mr(m, m.reg.hl)
    } else {
        r8(m, r)
    }
}

/// The view after writing an 8-bit operand slot.
pub open spec fn slot_set(m: MachineView, r: RegisterName, v: u8) -> MachineView {
    if r == RegisterName::HLRef {
        mw(m, m.reg.hl, v)
    } else {
        w8(m, r, v)
    }
}

/// The cycle cost of a plain-register form, or of the same form through HL.
pub open spec fn slot_cycles(r: RegisterName, plain: u8, indirect: u8) -> u8 {
    if r == RegisterName::HLRef {
        indirect
    } else {
        plain
    }
}

/// Whether a branch condition holds of the current flags.
pub open spec fn cond_holds(m: MachineView, c: JpCond) -> bool {
    match c {
        JpCond::Carry => flag(m, Flag::Carry),
        JpCond::NotCarry => !flag(m, Flag::Carry),
        JpCond::Zero => flag(m, Flag::Zero),
        JpCond::NotZero => !flag(m, Flag::Zero),
    }
}

/// The unsigned byte holding a signed offset.
pub open spec fn i8_byte(v: i8) -> u8 {
    if v >= 0 {
        v as u8
    } else {
        (v + 256) as u8
    }
}

/// ADD and ADC: A gets the 8-bit sum of A, the operand and the carry-in;
/// Z from the result, N clear, H on carry from bit 3, C on carry from
/// bit 7.
pub open spec fn spec_add8(m: MachineView, v: u8, ci: int) -> MachineView {
    let a = r8(m, RegisterName::A);
    let res = ((a + v + ci) % 256) as u8;
    sf(
        w8(m, RegisterName::A, res),
        res == 0,
        false,
        a % 16 + v % 16 + ci > 15,
        a + v + ci > 255,
    )
}

/// SUB, SBC and CP: the 8-bit difference of A, the operand and the
/// carry-in; Z from the result, N set, H and C as borrows. CP leaves A
/// unchanged.
pub open spec fn spec_sub8(m: MachineView, v: u8, ci: int, store: bool) -> MachineView {
    let a = r8(m, RegisterName::A);
    let res = ((a + 512 - v - ci) % 256) as u8;
    let flagged = sf(m, res == 0, true, a % 16 < v % 16 + ci, a < v + ci);
    if store {
        w8(flagged, RegisterName::A, res)
    } else {
        flagged
    }
}

/// AND: A gets the bitwise conjunction; Z from the result, N clear,
/// H set, C clear.
pub open spec fn spec_and8(m: MachineView, v: u8) -> MachineView {
    let res = r8(m, RegisterName::A) & v;
    sf(w8(m, RegisterName::A, res), res == 0, false, true, false)
}

/// OR: A gets the bitwise disjunction; Z from the result, N, H, C clear.
pub open spec fn spec_or8(m: MachineView, v: u8) -> MachineView {
    let res = r8(m, RegisterName::A) | v;
    sf(w8(m, RegisterName::A, res), res == 0, false, false, false)
}

/// XOR: A gets the bitwise exclusive or; Z from the result, N, H, C clear.
pub open spec fn spec_xor8(m: MachineView, v: u8) -> MachineView {
    let res = r8(m, RegisterName::A) ^ v;
    sf(w8(m, RegisterName::A, res), res == 0, false, false, false)
}

/// INC on an 8-bit slot: Z and H from the operand, N clear, C preserved.
pub open spec fn spec_inc8(m: MachineView, r: RegisterName) -> MachineView {
    let v = slot_get(m, r);
    let res = ((v + 1) % 256) as u8;
    let m1 = slot_set(m, r, res);
    sf(m1, res == 0, false, v % 16 == 15, flag(m, Flag::Carry))
}

/// DEC on an 8-bit slot: Z and H from the operand, N set, C preserved.
pub open spec fn spec_dec8(m: MachineView, r: RegisterName) -> MachineView {
    let v = slot_get(m, r);
    let res = ((v + 255) % 256) as u8;
    let m1 = slot_set(m, r, res);
    sf(m1, res == 0, true, v % 16 == 0, flag(m, Flag::Carry))
}

/// ADD HL,rr: HL gets the 16-bit sum; N clear, H on carry out of bit 11,
/// C on carry out of bit 15, Z preserved.
pub open spec fn spec_add16(m: MachineView, r: RegisterName) -> MachineView {
    let hl = m.reg.hl;
    let v = r16(m, r);
    let res = ((hl + v) % 0x10000) as u16;
    sf(
        w16(m, RegisterName::HL, res),
        flag(m, Flag::Zero),
        false,
        hl % 4096 + v % 4096 > 4095,
        hl + v > 65535,
    )
}

/// ADD SP,n and LD HL,SP+n: the sign-extended offset is added to SP as
/// 16 bits; Z and N clear, H and C as if adding the low bytes.
pub open spec fn spec_sp_offset(m: MachineView, n: i8, dest: RegisterName) -> MachineView {
    let sp = m.reg.sp;
    let b = i8_byte(n);
    let res = wrap_pc(sp, n + 0x10000);
    sf(w16(m, dest, res), false, false, sp % 16 + b % 16 > 15, sp % 256 + b as int % 256 > 255)
}

/// SWAP: the two nibbles of the slot exchange places; the flags keep
/// their values.
pub open spec fn spec_swap(m: MachineView, r: RegisterName) -> MachineView {
    let v = slot_get(m, r);
    slot_set(m, r, (v % 16 * 16 + v / 16) as u8)
}

/// DAA: corrects A after BCD addition or subtraction, directed by the N,
/// H and C flags. H is cleared, Z follows the corrected value, and C
/// reflects the correction.
pub open spec fn spec_daa(m: MachineView) -> MachineView {
    let a = r8(m, RegisterName::A);
    if !flag(m, Flag::AddSub) {
        let c_out = flag(m, Flag::Carry) || a > 0x99;
        let high_adj: int = if c_out { 0x60 } else { 0 };
        let low_adj: int = if flag(m, Flag::HalfCarry) || a % 16 > 9 { 6 } else { 0 };
        let res = ((a + high_adj + low_adj) % 256) as u8;
        sf(w8(m, RegisterName::A, res), res == 0, false, false, c_out)
    } else {
        let c_out = flag(m, Flag::Carry);
        let high_adj: int = if c_out { 0x60 } else { 0 };
        let low_adj: int = if flag(m, Flag::HalfCarry) { 6 } else { 0 };
        let res = ((a + 512 - high_adj - low_adj) % 256) as u8;
        sf(w8(m, RegisterName::A, res), res == 0, true, false, c_out)
    }
}

/// RLC: rotate left; bit 7 becomes both the carry and bit 0.
pub open spec fn spec_rlc_val(v: u8) -> u8 {
    (v % 128 * 2 + v / 128) as u8
}

/// RRC: rotate right; bit 0 becomes both the carry and bit 7.
pub open spec fn spec_rrc_val(v: u8) -> u8 {
    (v / 2 + v % 2 * 128) as u8
}

/// RL: rotate left through the carry flag.
pub open spec fn spec_rl_val(v: u8, ci: int) -> u8 {
    (v % 128 * 2 + ci) as u8
}

/// RR: rotate right through the carry flag.
pub open spec fn spec_rr_val(v: u8, ci: int) -> u8 {
    (v / 2 + ci * 128) as u8
}

/// SLA: shift left, bit 0 cleared.
pub open spec fn spec_sla_val(v: u8) -> u8 {
    (v % 128 * 2) as u8
}

/// SRA: shift right, bit 7 kept.
pub open spec fn spec_sra_val(v: u8) -> u8 {
    (v / 2 + v / 128 * 128) as u8
}

/// SRL: shift right, bit 7 cleared.
pub open spec fn spec_srl_val(v: u8) -> u8 {
    v / 2
}

/// A prefixed rotate or shift on a slot: the slot gets `res`, Z comes
/// from the result, N and H clear, C from the shifted-out bit.
pub open spec fn spec_rot_slot(m: MachineView, r: RegisterName, res: u8, c_out: bool) ->
    MachineView {
    sf(slot_set(m, r, res), res == 0, false, false, c_out)
}

/// The accumulator rotates RLCA, RLA, RRCA, RRA: like the prefixed forms
/// on A, but Z is always cleared.
pub open spec fn spec_rot_a(m: MachineView, res: u8, c_out: bool) -> MachineView {
    sf(w8(m, RegisterName::A, res), false, false, false, c_out)
}

/// PUSH: SP decrements by two, then the pair is stored little-endian.
pub open spec fn spec_push(m: MachineView, r: RegisterName) -> MachineView {
    let v = r16(m, r);
    let sp2 = wrap_pc(m.reg.sp, 0x10000 - 2);
    w16(mw16(m, sp2, v), RegisterName::SP, sp2)
}

/// POP: the pair is loaded little-endian from SP, then SP increments by
/// two. A pop into AF clears the low nibble of F.
pub open spec fn spec_pop(m: MachineView, r: RegisterName) -> MachineView {
    let v = m.mem.read16(m.reg.sp);
    w16(w16(m, r, v), RegisterName::SP, wrap_pc(m.reg.sp, 2))
}

/// CALL and RST: the PC after the instruction is pushed and PC jumps to
/// the target.
pub open spec fn spec_call(m: MachineView, addr: u16) -> MachineView {
    let sp2 = wrap_pc(m.reg.sp, 0x10000 - 2);
    let pushed = w16(mw16(m, sp2, m.reg.pc), RegisterName::SP, sp2);
    MachineView { reg: Registers { pc: addr, ..pushed.reg }, ..pushed }
}

/// RET: PC is popped from the stack.
pub open spec fn spec_ret(m: MachineView) -> MachineView {
    let target = m.mem.read16(m.reg.sp);
    let m1 = w16(m, RegisterName::SP, wrap_pc(m.reg.sp, 2));
    MachineView { reg: Registers { pc: target, ..m1.reg }, ..m1 }
}

/// The view with PC replaced.
pub open spec fn set_pc(m: MachineView, pc: u16) -> MachineView {
    MachineView { reg: Registers { pc, ..m.reg }, ..m }
}

/// The effect and cycle cost of the register-register and indirect loads.
pub open spec fn spec_execute_ld_ind(m: MachineView, ins: Instruction) -> (MachineView, u8) {
    match ins {
        Instruction::Ld8Reg(r1, r2) => {
            if r1 == RegisterName::HLRef {
                (mw(m, m.reg.hl, r8(m, r2)), 8)
            } else if r2 == RegisterName::HLRef {
                (w8(m, r1, mr(m, m.reg.hl)), 8)
            } else if r2 == RegisterName::BCRef {
                (w8(m, r1, mr(m, m.reg.bc)), 8)
            } else if r2 == RegisterName::DERef {
                (w8(m, r1, mr(m, m.reg.de)), 8)
            } else if r1 == RegisterName::BCRef {
                (mw(m, m.reg.bc, r8(m, r2)), 8)
            } else if r1 == RegisterName::DERef {
                (mw(m, m.reg.de, r8(m, r2)), 8)
            } else {
                (w8(m, r1, r8(m, r2)), 4)
            }
        },
        Instruction::LddHLA => {
            let hl = m.reg.hl;
            (
                w16(mw(m, hl, r8(m, RegisterName::A)), RegisterName::HL, wrap_pc(hl, 0xFFFF)),
                8,
            )
        },
        Instruction::LdiHLA => {
            let hl = m.reg.hl;
            (w16(mw(m, hl, r8(m, RegisterName::A)), RegisterName::HL, wrap_pc(hl, 1)), 8)
        },
        Instruction::LddAHL => {
            let hl = m.reg.hl;
            (
                w16(w8(m, RegisterName::A, mr(m, hl)), RegisterName::HL, wrap_pc(hl, 0xFFFF)),
                8,
            )
        },
        Instruction::LdiAHL => {
            let hl = m.reg.hl;
            (w16(w8(m, RegisterName::A, mr(m, hl)), RegisterName::HL, wrap_pc(hl, 1)), 8)
        },
        _ => (m, 0),
    }
}

/// The effect and cycle cost of the immediate, absolute and high-page loads.
pub open spec fn spec_execute_ld_imm(m: MachineView, ins: Instruction) -> (MachineView, u8) {
    match ins {
        Instruction::Ld8Imm(r, v) => (slot_set(m, r, v), 8),
        Instruction::LdhN(n) => ((mw(m, (0xFF00 + n as int) as u16, r8(m, RegisterName::A))), 12),
        Instruction::LdhA(n) => ((w8(m, RegisterName::A, mr(m, (0xFF00 + n as int) as u16))), 12),
        Instruction::Lda(addr) => (w8(m, RegisterName::A, mr(m, addr)), 16),
        Instruction::LdaNN(addr) => (mw(m, addr, r8(m, RegisterName::A)), 16),
        Instruction::Ldac => {
            (
                w8(m, RegisterName::A, mr(m, (0xFF00 + r8(m, RegisterName::C) as int) as u16)),
                8,
            )
        },
        Instruction::Ldca => {
            (
                mw(m, (0xFF00 + r8(m, RegisterName::C) as int) as u16, r8(m, RegisterName::A)),
                8,
            )
        },
        _ => (m, 0),
    }
}

/// The effect and cycle cost of the 16-bit loads and the stack push and pop.
pub open spec fn spec_execute_ld16(m: MachineView, ins: Instruction) -> (MachineView, u8) {
    match ins {
        Instruction::StoSP(addr) => (mw16(m, addr, m.reg.sp), 20),
        Instruction::LdnnSP(addr) => (mw16(m, addr, m.reg.sp), 20),
        Instruction::Ld16Imm(r, v) => (w16(m, r, v), 12),
        Instruction::LdSPHL => (w16(m, RegisterName::SP, m.reg.hl), 8),
        Instruction::Push(r) => (spec_push(m, r), 16),
        Instruction::Pop(r) => (spec_pop(m, r), 12),
        _ => (m, 0),
    }
}

/// The effect and cycle cost of the 8-bit additions and subtractions.
pub open spec fn spec_execute_alu_add(m: MachineView, ins: Instruction) -> (MachineView, u8) {
    match ins {
        Instruction::AddImm(n) => (spec_add8(m, n, 0), 8),
        Instruction::AddReg(r) => (spec_add8(m, slot_get(m, r), 0), slot_cycles(r, 4, 8)),
        Instruction::AdcImm(n) => (spec_add8(m, n, carry_in(m)), 8),
        Instruction::AdcReg(r) => {
            (spec_add8(m, slot_get(m, r), carry_in(m)), slot_cycles(r, 4, 8))
        },
        Instruction::SubImm(n) => (spec_sub8(m, n, 0, true), 8),
        Instruction::SubReg(r) => (spec_sub8(m, slot_get(m, r), 0, true), slot_cycles(r, 4, 8)),
        Instruction::SbcImm(n) => (spec_sub8(m, n, carry_in(m), true), 8),
        Instruction::SbcReg(r) => {
            (spec_sub8(m, slot_get(m, r), carry_in(m), true), slot_cycles(r, 4, 8))
        },
        _ => (m, 0),
    }
}

/// The effect and cycle cost of the comparisons and the bitwise accumulator operations.
pub open spec fn spec_execute_alu_log(m: MachineView, ins: Instruction) -> (MachineView, u8) {
    match ins {
        Instruction::CpImm(n) => (spec_sub8(m, n, 0, false), 8),
        Instruction::CpReg(r) => (spec_sub8(m, slot_get(m, r), 0, false), slot_cycles(r, 4, 8)),
        Instruction::AndImm(n) => (spec_and8(m, n), 8),
        Instruction::AndReg(r) => (spec_and8(m, slot_get(m, r)), slot_cycles(r, 4, 8)),
        Instruction::OrImm(n) => (spec_or8(m, n), 8),
        Instruction::OrReg(r) => (spec_or8(m, slot_get(m, r)), slot_cycles(r, 4, 8)),
        Instruction::XorImm(n) => (spec_xor8(m, n), 8),
        Instruction::XorReg(r) => (spec_xor8(m, slot_get(m, r)), slot_cycles(r, 4, 8)),
        _ => (m, 0),
    }
}

/// The effect and cycle cost of the 8-bit increment and decrement.
pub open spec fn spec_execute_step8(m: MachineView, ins: Instruction) -> (MachineView, u8) {
    match ins {
        Instruction::Inc(r) => (spec_inc8(m, r), slot_cycles(r, 4, 12)),
        Instruction::Dec(r) => (spec_dec8(m, r), slot_cycles(r, 4, 12)),
        _ => (m, 0),
    }
}

/// The effect and cycle cost of the 16-bit additions.
pub open spec fn spec_execute_add16(m: MachineView, ins: Instruction) -> (MachineView, u8) {
    match ins {
        Instruction::Add16(r) => (spec_add16(m, r), 8),
        Instruction::AddSP(n) => (spec_sp_offset(m, n, RegisterName::SP), 16),
        Instruction::LdHLSPn(n) => (spec_sp_offset(m, n, RegisterName::HL), 12),
        _ => (m, 0),
    }
}

/// The effect and cycle cost of the 16-bit increment and decrement.
pub open spec fn spec_execute_step16(m: MachineView, ins: Instruction) -> (MachineView, u8) {
    match ins {
        Instruction::Inc16(r) => (w16(m, r, wrap_pc(r16(m, r), 1)), 8),
        Instruction::Dec16(r) => (w16(m, r, wrap_pc(r16(m, r), 0xFFFF)), 8),
        _ => (m, 0),
    }
}

/// The effect and cycle cost of the decimal adjust, complement and carry-flag forms.
pub open spec fn spec_execute_alu_flag(m: MachineView, ins: Instruction) -> (MachineView, u8) {
    match ins {
        Instruction::Daa => (spec_daa(m), 4),
        Instruction::Cpl => {
            let a = r8(m, RegisterName::A);
            let m1 = sf(
                m,
                flag(m, Flag::Zero),
                true,
                true,
                flag(m, Flag::Carry),
            );
            (w8(m1, RegisterName::A, (255 - a) as u8), 4)
        },
        Instruction::Ccf => {
            (sf(m, flag(m, Flag::Zero), false, false, !flag(m, Flag::Carry)), 4)
        },
        Instruction::Scf => (sf(m, flag(m, Flag::Zero), false, false, true), 4),
        _ => (m, 0),
    }
}

/// The effect and cycle cost of the accumulator rotates and SWAP.
pub open spec fn spec_execute_rot_a(m: MachineView, ins: Instruction) -> (MachineView, u8) {
    match ins {
        Instruction::Rlca => {
            let a = r8(m, RegisterName::A);
            (spec_rot_a(m, spec_rlc_val(a), a >= 128), 4)
        },
        Instruction::Rla => {
            let a = r8(m, RegisterName::A);
            (spec_rot_a(m, spec_rl_val(a, carry_in(m)), a >= 128), 4)
        },
        Instruction::Rrca => {
            let a = r8(m, RegisterName::A);
            (spec_rot_a(m, spec_rrc_val(a), a % 2 == 1), 4)
        },
        Instruction::Rra => {
            let a = r8(m, RegisterName::A);
            (spec_rot_a(m, spec_rr_val(a, carry_in(m)), a % 2 == 1), 4)
        },
        Instruction::Swap(r) => (spec_swap(m, r), slot_cycles(r, 8, 16)),
        _ => (m, 0),
    }
}

/// The effect and cycle cost of the prefixed rotates.
pub open spec fn spec_execute_rot_cb(m: MachineView, ins: Instruction) -> (MachineView, u8) {
    match ins {
        Instruction::Rlc(r) => {
            let v = slot_get(m, r);
            (spec_rot_slot(m, r, spec_rlc_val(v), v >= 128), slot_cycles(r, 8, 16))
        },
        Instruction::Rl(r) => {
            let v = slot_get(m, r);
            (spec_rot_slot(m, r, spec_rl_val(v, carry_in(m)), v >= 128), slot_cycles(r, 8, 16))
        },
        Instruction::Rrc(r) => {
            let v = slot_get(m, r);
            (spec_rot_slot(m, r, spec_rrc_val(v), v % 2 == 1), slot_cycles(r, 8, 16))
        },
        Instruction::Rr(r) => {
            let v = slot_get(m, r);
            (
                spec_rot_slot(m, r, spec_rr_val(v, carry_in(m)), v % 2 == 1),
                slot_cycles(r, 8, 16),
            )
        },
        _ => (m, 0),
    }
}

/// The effect and cycle cost of the prefixed shifts.
pub open spec fn spec_execute_shift_cb(m: MachineView, ins: Instruction) -> (MachineView, u8) {
    match ins {
        Instruction::Sla(r) => {
            let v = slot_get(m, r);
            (spec_rot_slot(m, r, spec_sla_val(v), v >= 128), slot_cycles(r, 8, 16))
        },
        Instruction::Sra(r) => {
            let v = slot_get(m, r);
            (spec_rot_slot(m, r, spec_sra_val(v), v % 2 == 1), slot_cycles(r, 8, 16))
        },
        Instruction::Srl(r) => {
            let v = slot_get(m, r);
            (spec_rot_slot(m, r, spec_srl_val(v), v % 2 == 1), slot_cycles(r, 8, 16))
        },
        _ => (m, 0),
    }
}

/// The effect and cycle cost of the bit test, set and reset forms.
pub open spec fn spec_execute_bit_ops(m: MachineView, ins: Instruction) -> (MachineView, u8) {
    match ins {
        Instruction::Bit(b, r) => {
            let v = slot_get(m, r);
            (
                sf(
                    m,
                    v as int / crate::bit_val(b as int) % 2 == 0,
                    false,
                    true,
                    flag(m, Flag::Carry),
                ),
                slot_cycles(r, 8, 16),
            )
        },
        Instruction::SetBit(b, r) => {
            (slot_set(m, r, crate::with_bit(slot_get(m, r), b as int)), slot_cycles(r, 8, 16))
        },
        Instruction::Res(b, r) => {
            (slot_set(m, r, crate::without_bit(slot_get(m, r), b as int)), slot_cycles(r, 8, 16))
        },
        _ => (m, 0),
    }
}

/// The effect and cycle cost of the absolute, register and relative jumps.
pub open spec fn spec_execute_jumps(m: MachineView, ins: Instruction) -> (MachineView, u8) {
    match ins {
        Instruction::Jp(addr) => (set_pc(m, addr), 12),
        Instruction::JpHL => (set_pc(m, m.reg.hl), 4),
        Instruction::JpCond(c, addr) => {
            if cond_holds(m, c) {
                (set_pc(m, addr), 16)
            } else {
                (m, 12)
            }
        },
        Instruction::Jr(rel) => (set_pc(m, wrap_pc(m.reg.pc, rel + 0x10000)), 8),
        Instruction::JrCond(c, rel) => {
            if cond_holds(m, c) {
                (set_pc(m, wrap_pc(m.reg.pc, rel + 0x10000)), 12)
            } else {
                (m, 8)
            }
        },
        _ => (m, 0),
    }
}

/// The effect and cycle cost of the calls, restarts and returns.
pub open spec fn spec_execute_calls(m: MachineView, ins: Instruction) -> (MachineView, u8) {
    match ins {
        Instruction::Call(addr) => (spec_call(m, addr), 12),
        Instruction::CallCond(c, addr) => {
            if cond_holds(m, c) {
                (spec_call(m, addr), 24)
            } else {
                (m, 12)
            }
        },
        Instruction::Rst(v) => (spec_call(m, v as u16), 32),
        Instruction::Ret => (spec_ret(m), 8),
        Instruction::RetCond(c) => {
            if cond_holds(m, c) {
                (spec_ret(m), 20)
            } else {
                (m, 8)
            }
        },
        Instruction::Reti => {
            let m1 = spec_ret(m);
            (st(m1, CPUState { ei_pending: true, ..m1.st }), 8)
        },
        _ => (m, 0),
    }
}

/// The effect and cycle cost of the no-op, the resting states, the IME deferrals and the illegal sentinel.
pub open spec fn spec_execute_rest(m: MachineView, ins: Instruction) -> (MachineView, u8) {
    match ins {
        Instruction::IllInsn => (m, 1),
        Instruction::Nop => (m, 4),
        Instruction::Halt => (st(m, CPUState { halted: true, ..m.st }), 4),
        Instruction::Stop => (st(m, CPUState { stopped: true, ..m.st }), 4),
        Instruction::Di => (st(m, CPUState { di_pending: true, ..m.st }), 4),
        Instruction::Ei => (st(m, CPUState { ei_pending: true, ..m.st }), 4),
        _ => (m, 0),
    }
}

/// What one instruction does to the machine, and its cycle cost. PC has
/// already been advanced past the instruction by the decoder.
pub open spec fn spec_execute(m: MachineView, ins: Instruction) -> (MachineView, u8) {
    match ins {
        Instruction::Ld8Reg(_, _)
        | Instruction::LddHLA
        | Instruction::LdiHLA
        | Instruction::LddAHL
        | Instruction::LdiAHL => spec_execute_ld_ind(m, ins),
        Instruction::Ld8Imm(_, _)
        | Instruction::LdhN(_)
        | Instruction::LdhA(_)
        | Instruction::Lda(_)
        | Instruction::LdaNN(_)
        | Instruction::Ldac
        | Instruction::Ldca => spec_execute_ld_imm(m, ins),
        Instruction::StoSP(_)
        | Instruction::LdnnSP(_)
        | Instruction::Ld16Imm(_, _)
        | Instruction::LdSPHL
        | Instruction::Push(_)
        | Instruction::Pop(_) => spec_execute_ld16(m, ins),
        Instruction::AddImm(_)
        | Instruction::AddReg(_)
        | Instruction::AdcImm(_)
        | Instruction::AdcReg(_)
        | Instruction::SubImm(_)
        | Instruction::SubReg(_)
        | Instruction::SbcImm(_)
        | Instruction::SbcReg(_) => spec_execute_alu_add(m, ins),
        Instruction::CpImm(_)
        | Instruction::CpReg(_)
        | Instruction::AndImm(_)
        | Instruction::AndReg(_)
        | Instruction::OrImm(_)
        | Instruction::OrReg(_)
        | Instruction::XorImm(_)
        | Instruction::XorReg(_) => spec_execute_alu_log(m, ins),
        Instruction::Inc(_)
        | Instruction::Dec(_) => spec_execute_step8(m, ins),
        Instruction::Add16(_)
        | Instruction::AddSP(_)
        | Instruction::LdHLSPn(_) => spec_execute_add16(m, ins),
        Instruction::Inc16(_)
        | Instruction::Dec16(_) => spec_execute_step16(m, ins),
        Instruction::Daa
        | Instruction::Cpl
        | Instruction::Ccf
        | Instruction::Scf => spec_execute_alu_flag(m, ins),
        Instruction::Rlca
        | Instruction::Rla
        | Instruction::Rrca
        | Instruction::Rra
        | Instruction::Swap(_) => spec_execute_rot_a(m, ins),
        Instruction::Rlc(_)
        | Instruction::Rl(_)
        | Instruction::Rrc(_)
        | Instruction::Rr(_) => spec_execute_rot_cb(m, ins),
        Instruction::Sla(_)
        | Instruction::Sra(_)
        | Instruction::Srl(_) => spec_execute_shift_cb(m, ins),
        Instruction::Bit(_, _)
        | Instruction::SetBit(_, _)
        | Instruction::Res(_, _) => spec_execute_bit_ops(m, ins),
        Instruction::Jp(_)
        | Instruction::JpHL
        | Instruction::JpCond(_, _)
        | Instruction::Jr(_)
        | Instruction::JrCond(_, _) => spec_execute_jumps(m, ins),
        Instruction::Call(_)
        | Instruction::CallCond(_, _)
        | Instruction::Rst(_)
        | Instruction::Ret
        | Instruction::RetCond(_)
        | Instruction::Reti => spec_execute_calls(m, ins),
        Instruction::IllInsn
        | Instruction::Nop
        | Instruction::Halt
        | Instruction::Stop
        | Instruction::Di
        | Instruction::Ei => spec_execute_rest(m, ins),
    }
}

impl CPU {
    /// Reads an 8-bit operand slot: a plain register or the byte at HL.
    fn slot_read(&self, r: RegisterName) -> (v: u8)
        requires
            self.wf(),
            is_slot8(r),
        ensures
            v == slot_get(self@.m, r),
    {
        match r {
            RegisterName::HLRef => self.mem.get_addr(self.reg.hl),
            _ => self.reg.read8(r).unwrap(),
        }
    }

    /// Writes an 8-bit operand slot.
    fn slot_write(&mut self, r: RegisterName, v: u8)
        requires
            old(self).wf(),
            is_slot8(r),
        ensures
            final(self).wf(),
            final(self)@.m == slot_set(old(self)@.m, r, v),
            final(self).ppu == old(self).ppu,
            final(self).state == old(self).state,
    {
        match r {
            RegisterName::HLRef => self.mem.set_addr(self.reg.hl, v),
            _ => self.reg.write8(r, v),
        }
    }

    /// ADD or ADC into A, with the carry-in already resolved to 0 or 1.
    fn do_add8(&mut self, v: u8, ci: u8)
        requires
            old(self).wf(),
            ci <= 1,
        ensures
            final(self).wf(),
            final(self)@.m == spec_add8(old(self)@.m, v, ci as int),
            final(self).ppu == old(self).ppu,
            final(self).state == old(self).state,
    {
        let a = self.reg.read8(RegisterName::A).unwrap();
        let total: u16 = a as u16 + v as u16 + ci as u16;
        let res: u8 = (total % 256) as u8;
        let h = a % 16 + v % 16 + ci > 15;
        let c = total > 255;
        self.reg.write8(RegisterName::A, res);
        self.reg.set_flags(res == 0, false, h, c);
    }

    /// SUB, SBC or CP, with the carry-in resolved; CP does not store.
    fn do_sub8(&mut self, v: u8, ci: u8, store: bool)
        requires
            old(self).wf(),
            ci <= 1,
        ensures
            final(self).wf(),
            final(self)@.m == spec_sub8(old(self)@.m, v, ci as int, store),
            final(self).ppu == old(self).ppu,
            final(self).state == old(self).state,
    {
        let a = self.reg.read8(RegisterName::A).unwrap();
        let total: u16 = a as u16 + 512 - v as u16 - ci as u16;
        let res: u8 = (total % 256) as u8;
        let h = a % 16 < v % 16 + ci;
        let c = (a as u16) < v as u16 + ci as u16;
        self.reg.set_flags(res == 0, true, h, c);
        if store {
            self.reg.write8(RegisterName::A, res);
        }
    }

    /// Pushes a 16-bit value: SP drops by two, then the value is stored
    /// little-endian at the new SP.
    fn push16(&mut self, v: u16)
        requires
            old(self).wf(),
        ensures
            final(self).wf(),
            final(self)@.m == w16(
                mw16(old(self)@.m, wrap_pc(old(self).reg.sp, 0xFFFE), v),
                RegisterName::SP,
                wrap_pc(old(self).reg.sp, 0xFFFE),
            ),
            final(self).ppu == old(self).ppu,
            final(self).state == old(self).state,
    {
        let sp = self.reg.sp.wrapping_sub(2);
        self.mem.set_addr(sp, (v % 256) as u8);
        self.mem.set_addr(sp.wrapping_add(1), (v / 256) as u8);
        self.reg.write16(RegisterName::SP, sp);
    }

    /// Pops a 16-bit value: loaded little-endian from SP, which then
    /// rises by two.
    fn pop16(&mut self) -> (v: u16)
        requires
            old(self).wf(),
        ensures
            final(self).wf(),
            v == old(self)@.m.mem.read16(old(self).reg.sp),
            final(self)@.m == w16(old(self)@.m, RegisterName::SP, wrap_pc(old(self).reg.sp, 2)),
            final(self).ppu == old(self).ppu,
            final(self).state == old(self).state,
    {
        let v = self.mem.get_u16_at(self.reg.sp);
        let sp2 = self.reg.sp.wrapping_add(2);
        self.reg.write16(RegisterName::SP, sp2);
        v
    }

    /// Whether a branch condition holds of the current flags.
    fn test_cond(&self, c: JpCond) -> (r: bool)
        ensures
            r == cond_holds(self@.m, c),
    {
        match c {
            JpCond::Carry => self.reg.flag(Flag::Carry),
            JpCond::NotCarry => !self.reg.flag(Flag::Carry),
            JpCond::Zero => self.reg.flag(Flag::Zero),
            JpCond::NotZero => !self.reg.flag(Flag::Zero),
        }
    }

    /// The carry flag as 0 or 1, the carry-in of ADC, SBC, RL and RR.
    fn carry_bit(&self) -> (r: u8)
        ensures
            r as int == carry_in(self@.m),
            r <= 1,
    {
        if self.reg.flag(Flag::Carry) {
            1
        } else {
            0
        }
    }

    /// A prefixed rotate or shift on a slot: stores the result and sets
    /// the flags from it.
    fn finish_rot(&mut self, r: RegisterName, res: u8, c_out: bool)
        requires
            old(self).wf(),
            is_slot8(r),
        ensures
            final(self).wf(),
            final(self)@.m == spec_rot_slot(old(self)@.m, r, res, c_out),
            final(self).ppu == old(self).ppu,
            final(self).state == old(self).state,
    {
        self.slot_write(r, res);
        self.reg.set_flags(res == 0, false, false, c_out);
    }

    /// ADD SP,n and LD HL,SP+n share this arm: the sign-extended offset
    /// is added to SP and the result lands in `dest`.
    fn do_sp_offset(&mut self, n: i8, dest: RegisterName)
        requires
            old(self).wf(),
            dest == RegisterName::HL || dest == RegisterName::SP,
        ensures
            final(self).wf(),
            final(self)@.m == spec_sp_offset(old(self)@.m, n, dest),
            final(self).ppu == old(self).ppu,
            final(self).state == old(self).state,
    {
        let sp = self.reg.sp;
        let b: u8 = if n >= 0 { n as u8 } else { (n as i16 + 256) as u8 };
        let total: u32 = sp as u32 + n as i32 as u32 % 0x10000;
        let res: u16 = ((sp as u32 + (n as i32 + 0x10000) as u32) % 0x10000) as u16;
        let h = sp % 16 + (b % 16) as u16 > 15;
        let c = sp % 256 + b as u16 % 256 > 255;
        proof {
            assert(res == wrap_pc(sp, n + 0x10000));
            assert(b == i8_byte(n));
        }
        self.reg.write16(dest, res);
        self.reg.set_flags(false, false, h, c);
    }
}

/// The slot value with bit `b` set.
pub(crate) fn set_bit_val(v: u8, b: u8) -> (r: u8)
    requires
        b < 8,
    ensures
        r == crate::with_bit(v, b as int),
{
    let mask = crate::bit_mask(b);
    if v / mask % 2 == 1 {
        v
    } else {
        proof {
            assert(v + mask <= 255) by {
                if b == 0 {
                } else if b == 1 {
                } else if b == 2 {
                } else if b == 3 {
                } else if b == 4 {
                } else if b == 5 {
                } else if b == 6 {
                } else {
                }
            }
        }
        v + mask
    }
}

/// The slot value with bit `b` cleared.
pub(crate) fn res_bit_val(v: u8, b: u8) -> (r: u8)
    requires
        b < 8,
    ensures
        r == crate::without_bit(v, b as int),
{
    let mask = crate::bit_mask(b);
    if v / mask % 2 == 1 {
        proof {
            assert(v >= mask) by {
                if b == 0 {
                } else if b == 1 {
                } else if b == 2 {
                } else if b == 3 {
                } else if b == 4 {
                } else if b == 5 {
                } else if b == 6 {
                } else {
                }
            }
        }
        v - mask
    } else {
        v
    }
}

impl CPU {

    /// Executes one instruction, mutating registers and memory as the
    /// instruction demands, and returns its cycle cost. The effect is
    /// exactly `spec_execute` on the machine view; the pixel pipeline is
    /// untouched. The flag register keeps its low nibble zero, and an
    /// illegal-opcode sentinel changes nothing and costs one cycle.
    pub fn execute(&mut self, ins: Instruction) -> (cycles: u8)
        requires
            old(self).wf(),
            wf_ins(ins),
        ensures
            final(self).wf(),
            final(self)@.m == spec_execute(old(self)@.m, ins).0,
            cycles == spec_execute(old(self)@.m, ins).1,
            final(self).ppu == old(self).ppu,
    {
        match ins {
            Instruction::Ld8Reg(_, _)
            | Instruction::LddHLA
            | Instruction::LdiHLA
            | Instruction::LddAHL
            | Instruction::LdiAHL => self.execute_ld_ind(ins),
            Instruction::Ld8Imm(_, _)
            | Instruction::LdhN(_)
            | Instruction::LdhA(_)
            | Instruction::Lda(_)
            | Instruction::LdaNN(_)
            | Instruction::Ldac
            | Instruction::Ldca => self.execute_ld_imm(ins),
            Instruction::StoSP(_)
            | Instruction::LdnnSP(_)
            | Instruction::Ld16Imm(_, _)
            | Instruction::LdSPHL
            | Instruction::Push(_)
            | Instruction::Pop(_) => self.execute_ld16(ins),
            Instruction::AddImm(_)
            | Instruction::AddReg(_)
            | Instruction::AdcImm(_)
            | Instruction::AdcReg(_)
            | Instruction::SubImm(_)
            | Instruction::SubReg(_)
            | Instruction::SbcImm(_)
            | Instruction::SbcReg(_) => self.execute_alu_add(ins),
            Instruction::CpImm(_)
            | Instruction::CpReg(_)
            | Instruction::AndImm(_)
            | Instruction::AndReg(_)
            | Instruction::OrImm(_)
            | Instruction::OrReg(_)
            | Instruction::XorImm(_)
            | Instruction::XorReg(_) => self.execute_alu_log(ins),
            Instruction::Inc(_)
            | Instruction::Dec(_) => self.execute_step8(ins),
            Instruction::Add16(_)
            | Instruction::AddSP(_)
            | Instruction::LdHLSPn(_) => self.execute_add16(ins),
            Instruction::Inc16(_)
            | Instruction::Dec16(_) => self.execute_step16(ins),
            Instruction::Daa
            | Instruction::Cpl
            | Instruction::Ccf
            | Instruction::Scf => self.execute_alu_flag(ins),
            Instruction::Rlca
            | Instruction::Rla
            | Instruction::Rrca
            | Instruction::Rra
            | Instruction::Swap(_) => self.execute_rot_a(ins),
            Instruction::Rlc(_)
            | Instruction::Rl(_)
            | Instruction::Rrc(_)
            | Instruction::Rr(_) => self.execute_rot_cb(ins),
            Instruction::Sla(_)
            | Instruction::Sra(_)
            | Instruction::Srl(_) => self.execute_shift_cb(ins),
            Instruction::Bit(_, _)
            | Instruction::SetBit(_, _)
            | Instruction::Res(_, _) => self.execute_bit_ops(ins),
            Instruction::Jp(_)
            | Instruction::JpHL
            | Instruction::JpCond(_, _)
            | Instruction::Jr(_)
            | Instruction::JrCond(_, _) => self.execute_jumps(ins),
            Instruction::Call(_)
            | Instruction::CallCond(_, _)
            | Instruction::Rst(_)
            | Instruction::Ret
            | Instruction::RetCond(_)
            | Instruction::Reti => self.execute_calls(ins),
            Instruction::IllInsn
            | Instruction::Nop
            | Instruction::Halt
            | Instruction::Stop
            | Instruction::Di
            | Instruction::Ei => self.execute_rest(ins),
        }
    }

    /// The register-register loads and the indirect loads through BC, DE and HL.
    #[verifier::rlimit(100)]
    #[verifier::spinoff_prover]
    fn execute_ld_ind(&mut self, ins: Instruction) -> (cycles: u8)
        requires
            old(self).wf(),
            wf_ins(ins),
            ins is Ld8Reg || ins is LddHLA || ins is LdiHLA || ins is LddAHL || ins is LdiAHL,
        ensures
            final(self).wf(),
            final(self)@.m == spec_execute_ld_ind(old(self)@.m, ins).0,
            cycles == spec_execute_ld_ind(old(self)@.m, ins).1,
            final(self).ppu == old(self).ppu,
    {
        match ins {
            Instruction::Ld8Reg(r1, r2) => {
                if r1 == RegisterName::HLRef {
                    let v = self.reg.read8(r2).unwrap();
                    self.mem.set_addr(self.reg.hl, v);
                    8
                } else if r2 == RegisterName::HLRef {
                    let v = self.mem.get_addr(self.reg.hl);
                    self.reg.write8(r1, v);
                    8
                } else if r2 == RegisterName::BCRef {
                    let v = self.mem.get_addr(self.reg.bc);
                    self.reg.write8(r1, v);
                    8
                } else if r2 == RegisterName::DERef {
                    let v = self.mem.get_addr(self.reg.de);
                    self.reg.write8(r1, v);
                    8
                } else if r1 == RegisterName::BCRef {
                    let v = self.reg.read8(r2).unwrap();
                    self.mem.set_addr(self.reg.bc, v);
                    8
                } else if r1 == RegisterName::DERef {
                    let v = self.reg.read8(r2).unwrap();
                    self.mem.set_addr(self.reg.de, v);
                    8
                } else {
                    let v = self.reg.read8(r2).unwrap();
                    self.reg.write8(r1, v);
                    4
                }
            },
            Instruction::LddHLA => {
                let hl = self.reg.hl;
                let a = self.reg.read8(RegisterName::A).unwrap();
                self.mem.set_addr(hl, a);
                self.reg.write16(RegisterName::HL, hl.wrapping_sub(1));
                8
            },
            Instruction::LdiHLA => {
                let hl = self.reg.hl;
                let a = self.reg.read8(RegisterName::A).unwrap();
                self.mem.set_addr(hl, a);
                self.reg.write16(RegisterName::HL, hl.wrapping_add(1));
                8
            },
            Instruction::LddAHL => {
                let hl = self.reg.hl;
                let v = self.mem.get_addr(hl);
                self.reg.write8(RegisterName::A, v);
                self.reg.write16(RegisterName::HL, hl.wrapping_sub(1));
                8
            },
            Instruction::LdiAHL => {
                let hl = self.reg.hl;
                let v = self.mem.get_addr(hl);
                self.reg.write8(RegisterName::A, v);
                self.reg.write16(RegisterName::HL, hl.wrapping_add(1));
                8
            },
            _ => {
                proof {
                    assert(false);
                }
                0
            },
        }
    }

    /// The immediate, absolute and high-page loads.
    #[verifier::rlimit(100)]
    #[verifier::spinoff_prover]
    fn execute_ld_imm(&mut self, ins: Instruction) -> (cycles: u8)
        requires
            old(self).wf(),
            wf_ins(ins),
            ins is Ld8Imm || ins is LdhN || ins is LdhA || ins is Lda || ins is LdaNN || ins is Ldac || ins is Ldca,
        ensures
            final(self).wf(),
            final(self)@.m == spec_execute_ld_imm(old(self)@.m, ins).0,
            cycles == spec_execute_ld_imm(old(self)@.m, ins).1,
            final(self).ppu == old(self).ppu,
    {
        match ins {
            Instruction::Ld8Imm(r, v) => {
                self.slot_write(r, v);
                8
            },
            Instruction::LdhN(n) => {
                let a = self.reg.read8(RegisterName::A).unwrap();
                self.mem.set_addr(0xFF00 + n as u16, a);
                12
            },
            Instruction::LdhA(n) => {
                let v = self.mem.get_addr(0xFF00 + n as u16);
                self.reg.write8(RegisterName::A, v);
                12
            },
            Instruction::Lda(addr) => {
                let v = self.mem.get_addr(addr);
                self.reg.write8(RegisterName::A, v);
                16
            },
            Instruction::LdaNN(addr) => {
                let a = self.reg.read8(RegisterName::A).unwrap();
                self.mem.set_addr(addr, a);
                16
            },
            Instruction::Ldac => {
                let c = self.reg.read8(RegisterName::C).unwrap();
                let v = self.mem.get_addr(0xFF00 + c as u16);
                self.reg.write8(RegisterName::A, v);
                8
            },
            Instruction::Ldca => {
                let c = self.reg.read8(RegisterName::C).unwrap();
                let a = self.reg.read8(RegisterName::A).unwrap();
                self.mem.set_addr(0xFF00 + c as u16, a);
                8
            },
            _ => {
                proof {
                    assert(false);
                }
                0
            },
        }
    }

    /// The 16-bit loads and the stack push and pop.
    #[verifier::rlimit(100)]
    #[verifier::spinoff_prover]
    fn execute_ld16(&mut self, ins: Instruction) -> (cycles: u8)
        requires
            old(self).wf(),
            wf_ins(ins),
            ins is StoSP || ins is LdnnSP || ins is Ld16Imm || ins is LdSPHL || ins is Push || ins is Pop,
        ensures
            final(self).wf(),
            final(self)@.m == spec_execute_ld16(old(self)@.m, ins).0,
            cycles == spec_execute_ld16(old(self)@.m, ins).1,
            final(self).ppu == old(self).ppu,
    {
        match ins {
            Instruction::StoSP(addr) => {
                self.store_sp_at(addr);
                20
            },
            Instruction::LdnnSP(addr) => {
                self.store_sp_at(addr);
                20
            },
            Instruction::Ld16Imm(r, v) => {
                self.reg.write16(r, v);
                12
            },
            Instruction::LdSPHL => {
                let hl = self.reg.hl;
                self.reg.write16(RegisterName::SP, hl);
                8
            },
            Instruction::Push(r) => {
                let v = self.reg.read16(r).unwrap();
                self.push16(v);
                16
            },
            Instruction::Pop(r) => {
                let v = self.mem.get_u16_at(self.reg.sp);
                let sp2 = self.reg.sp.wrapping_add(2);
                self.reg.write16(r, v);
                self.reg.write16(RegisterName::SP, sp2);
                12
            },
            _ => {
                proof {
                    assert(false);
                }
                0
            },
            _ => {
                proof {
                    assert(false);
                }
                0
            },
        }
    }

    /// The 8-bit additions and subtractions.
    #[verifier::rlimit(100)]
    #[verifier::spinoff_prover]
    fn execute_alu_add(&mut self, ins: Instruction) -> (cycles: u8)
        requires
            old(self).wf(),
            wf_ins(ins),
            ins is AddImm || ins is AddReg || ins is AdcImm || ins is AdcReg || ins is SubImm || ins is SubReg || ins is SbcImm || ins is SbcReg,
        ensures
            final(self).wf(),
            final(self)@.m == spec_execute_alu_add(old(self)@.m, ins).0,
            cycles == spec_execute_alu_add(old(self)@.m, ins).1,
            final(self).ppu == old(self).ppu,
    {
        match ins {
            Instruction::AddImm(n) => {
                self.do_add8(n, 0);
                8
            },
            Instruction::AddReg(r) => {
                let v = self.slot_read(r);
                self.do_add8(v, 0);
                if r == RegisterName::HLRef { 8 } else { 4 }
            },
            Instruction::AdcImm(n) => {
                let ci = self.carry_bit();
                self.do_add8(n, ci);
                8
            },
            Instruction::AdcReg(r) => {
                let v = self.slot_read(r);
                let ci = self.carry_bit();
                self.do_add8(v, ci);
                if r == RegisterName::HLRef { 8 } else { 4 }
            },
            Instruction::SubImm(n) => {
                self.do_sub8(n, 0, true);
                8
            },
            Instruction::SubReg(r) => {
                let v = self.slot_read(r);
                self.do_sub8(v, 0, true);
                if r == RegisterName::HLRef { 8 } else { 4 }
            },
            Instruction::SbcImm(n) => {
                let ci = self.carry_bit();
                self.do_sub8(n, ci, true);
                8
            },
            Instruction::SbcReg(r) => {
                let v = self.slot_read(r);
                let ci = self.carry_bit();
                self.do_sub8(v, ci, true);
                if r == RegisterName::HLRef { 8 } else { 4 }
            },
            _ => {
                proof {
                    assert(false);
                }
                0
            },
        }
    }

    /// The comparisons and the bitwise accumulator operations.
    #[verifier::rlimit(100)]
    #[verifier::spinoff_prover]
    fn execute_alu_log(&mut self, ins: Instruction) -> (cycles: u8)
        requires
            old(self).wf(),
            wf_ins(ins),
            ins is CpImm || ins is CpReg || ins is AndImm || ins is AndReg || ins is OrImm || ins is OrReg || ins is XorImm || ins is XorReg,
        ensures
            final(self).wf(),
            final(self)@.m == spec_execute_alu_log(old(self)@.m, ins).0,
            cycles == spec_execute_alu_log(old(self)@.m, ins).1,
            final(self).ppu == old(self).ppu,
    {
        match ins {
            Instruction::CpImm(n) => {
                self.do_sub8(n, 0, false);
                8
            },
            Instruction::CpReg(r) => {
                let v = self.slot_read(r);
                self.do_sub8(v, 0, false);
                if r == RegisterName::HLRef { 8 } else { 4 }
            },
            Instruction::AndImm(n) => {
                self.do_and8(n);
                8
            },
            Instruction::AndReg(r) => {
                let v = self.slot_read(r);
                self.do_and8(v);
                if r == RegisterName::HLRef { 8 } else { 4 }
            },
            Instruction::OrImm(n) => {
                self.do_or8(n);
                8
            },
            Instruction::OrReg(r) => {
                let v = self.slot_read(r);
                self.do_or8(v);
                if r == RegisterName::HLRef { 8 } else { 4 }
            },
            Instruction::XorImm(n) => {
                self.do_xor8(n);
                8
            },
            Instruction::XorReg(r) => {
                let v = self.slot_read(r);
                self.do_xor8(v);
                if r == RegisterName::HLRef { 8 } else { 4 }
            },
            _ => {
                proof {
                    assert(false);
                }
                0
            },
        }
    }

    /// The 8-bit increment and decrement.
    #[verifier::rlimit(100)]
    #[verifier::spinoff_prover]
    fn execute_step8(&mut self, ins: Instruction) -> (cycles: u8)
        requires
            old(self).wf(),
            wf_ins(ins),
            ins is Inc || ins is Dec,
        ensures
            final(self).wf(),
            final(self)@.m == spec_execute_step8(old(self)@.m, ins).0,
            cycles == spec_execute_step8(old(self)@.m, ins).1,
            final(self).ppu == old(self).ppu,
    {
        match ins {
            Instruction::Inc(r) => {
                self.do_inc8(r);
                if r == RegisterName::HLRef { 12 } else { 4 }
            },
            Instruction::Dec(r) => {
                self.do_dec8(r);
                if r == RegisterName::HLRef { 12 } else { 4 }
            },
            _ => {
                proof {
                    assert(false);
                }
                0
            },
        }
    }

    /// The 16-bit additions.
    #[verifier::rlimit(100)]
    #[verifier::spinoff_prover]
    fn execute_add16(&mut self, ins: Instruction) -> (cycles: u8)
        requires
            old(self).wf(),
            wf_ins(ins),
            ins is Add16 || ins is AddSP || ins is LdHLSPn,
        ensures
            final(self).wf(),
            final(self)@.m == spec_execute_add16(old(self)@.m, ins).0,
            cycles == spec_execute_add16(old(self)@.m, ins).1,
            final(self).ppu == old(self).ppu,
    {
        match ins {
            Instruction::Add16(r) => {
                let hl = self.reg.hl;
                let v = self.reg.read16(r).unwrap();
                let res = ((hl as u32 + v as u32) % 0x10000) as u16;
                let z = self.reg.flag(Flag::Zero);
                let h = hl % 4096 + v % 4096 > 4095;
                let c = hl as u32 + v as u32 > 65535;
                self.reg.write16(RegisterName::HL, res);
                self.reg.set_flags(z, false, h, c);
                8
            },
            Instruction::AddSP(n) => {
                self.do_sp_offset(n, RegisterName::SP);
                16
            },
            Instruction::LdHLSPn(n) => {
                self.do_sp_offset(n, RegisterName::HL);
                12
            },
            _ => {
                proof {
                    assert(false);
                }
                0
            },
        }
    }

    /// The 16-bit increment and decrement.
    #[verifier::rlimit(100)]
    #[verifier::spinoff_prover]
    fn execute_step16(&mut self, ins: Instruction) -> (cycles: u8)
        requires
            old(self).wf(),
            wf_ins(ins),
            ins is Inc16 || ins is Dec16,
        ensures
            final(self).wf(),
            final(self)@.m == spec_execute_step16(old(self)@.m, ins).0,
            cycles == spec_execute_step16(old(self)@.m, ins).1,
            final(self).ppu == old(self).ppu,
    {
        match ins {
            Instruction::Inc16(r) => {
                let v = self.reg.read16(r).unwrap();
                self.reg.write16(r, v.wrapping_add(1));
                8
            },
            Instruction::Dec16(r) => {
                let v = self.reg.read16(r).unwrap();
                self.reg.write16(r, v.wrapping_sub(1));
                8
            },
            _ => {
                proof {
                    assert(false);
                }
                0
            },
        }
    }
    /// The decimal adjust, complement and carry-flag instructions.
    #[verifier::rlimit(100)]
    #[verifier::spinoff_prover]
    fn execute_alu_flag(&mut self, ins: Instruction) -> (cycles: u8)
        requires
            old(self).wf(),
            wf_ins(ins),
            ins is Daa || ins is Cpl || ins is Ccf || ins is Scf,
        ensures
            final(self).wf(),
            final(self)@.m == spec_execute_alu_flag(old(self)@.m, ins).0,
            cycles == spec_execute_alu_flag(old(self)@.m, ins).1,
            final(self).ppu == old(self).ppu,
    {
        match ins {
            Instruction::Daa => {
                self.do_daa();
                4
            },
            Instruction::Cpl => {
                let a = self.reg.read8(RegisterName::A).unwrap();
                let z = self.reg.flag(Flag::Zero);
                let c = self.reg.flag(Flag::Carry);
                self.reg.set_flags(z, true, true, c);
                self.reg.write8(RegisterName::A, 255 - a);
                4
            },
            Instruction::Ccf => {
                let z = self.reg.flag(Flag::Zero);
                let c = self.reg.flag(Flag::Carry);
                self.reg.set_flags(z, false, false, !c);
                4
            },
            Instruction::Scf => {
                let z = self.reg.flag(Flag::Zero);
                self.reg.set_flags(z, false, false, true);
                4
            },
            _ => {
                proof {
                    assert(false);
                }
                0
            },
            _ => {
                proof {
                    assert(false);
                }
                0
            },
        }
    }

    /// The accumulator rotates and SWAP.
    #[verifier::rlimit(100)]
    #[verifier::spinoff_prover]
    fn execute_rot_a(&mut self, ins: Instruction) -> (cycles: u8)
        requires
            old(self).wf(),
            wf_ins(ins),
            ins is Rlca || ins is Rla || ins is Rrca || ins is Rra || ins is Swap,
        ensures
            final(self).wf(),
            final(self)@.m == spec_execute_rot_a(old(self)@.m, ins).0,
            cycles == spec_execute_rot_a(old(self)@.m, ins).1,
            final(self).ppu == old(self).ppu,
    {
        match ins {
            Instruction::Rlca => {
                let a = self.reg.read8(RegisterName::A).unwrap();
                let res = a % 128 * 2 + a / 128;
                self.reg.write8(RegisterName::A, res);
                self.reg.set_flags(false, false, false, a >= 128);
                4
            },
            Instruction::Rla => {
                let a = self.reg.read8(RegisterName::A).unwrap();
                let ci = self.carry_bit();
                let res = a % 128 * 2 + ci;
                self.reg.write8(RegisterName::A, res);
                self.reg.set_flags(false, false, false, a >= 128);
                4
            },
            Instruction::Rrca => {
                let a = self.reg.read8(RegisterName::A).unwrap();
                let res = a / 2 + a % 2 * 128;
                self.reg.write8(RegisterName::A, res);
                self.reg.set_flags(false, false, false, a % 2 == 1);
                4
            },
            Instruction::Rra => {
                let a = self.reg.read8(RegisterName::A).unwrap();
                let ci = self.carry_bit();
                let res = a / 2 + ci * 128;
                self.reg.write8(RegisterName::A, res);
                self.reg.set_flags(false, false, false, a % 2 == 1);
                4
            },
            Instruction::Swap(r) => {
                let v = self.slot_read(r);
                let res = v % 16 * 16 + v / 16;
                self.slot_write(r, res);
                if r == RegisterName::HLRef { 16 } else { 8 }
            },
            _ => {
                proof {
                    assert(false);
                }
                0
            },
        }
    }

    /// The prefixed rotates.
    #[verifier::rlimit(100)]
    #[verifier::spinoff_prover]
    fn execute_rot_cb(&mut self, ins: Instruction) -> (cycles: u8)
        requires
            old(self).wf(),
            wf_ins(ins),
            ins is Rlc || ins is Rl || ins is Rrc || ins is Rr,
        ensures
            final(self).wf(),
            final(self)@.m == spec_execute_rot_cb(old(self)@.m, ins).0,
            cycles == spec_execute_rot_cb(old(self)@.m, ins).1,
            final(self).ppu == old(self).ppu,
    {
        match ins {
            Instruction::Rlc(r) => {
                let v = self.slot_read(r);
                self.finish_rot(r, v % 128 * 2 + v / 128, v >= 128);
                if r == RegisterName::HLRef { 16 } else { 8 }
            },
            Instruction::Rl(r) => {
                let v = self.slot_read(r);
                let ci = self.carry_bit();
                self.finish_rot(r, v % 128 * 2 + ci, v >= 128);
                if r == RegisterName::HLRef { 16 } else { 8 }
            },
            Instruction::Rrc(r) => {
                let v = self.slot_read(r);
                self.finish_rot(r, v / 2 + v % 2 * 128, v % 2 == 1);
                if r == RegisterName::HLRef { 16 } else { 8 }
            },
            Instruction::Rr(r) => {
                let v = self.slot_read(r);
                let ci = self.carry_bit();
                self.finish_rot(r, v / 2 + ci * 128, v % 2 == 1);
                if r == RegisterName::HLRef { 16 } else { 8 }
            },
            _ => {
                proof {
                    assert(false);
                }
                0
            },
        }
    }

    /// The prefixed shifts.
    #[verifier::rlimit(100)]
    #[verifier::spinoff_prover]
    fn execute_shift_cb(&mut self, ins: Instruction) -> (cycles: u8)
        requires
            old(self).wf(),
            wf_ins(ins),
            ins is Sla || ins is Sra || ins is Srl,
        ensures
            final(self).wf(),
            final(self)@.m == spec_execute_shift_cb(old(self)@.m, ins).0,
            cycles == spec_execute_shift_cb(old(self)@.m, ins).1,
            final(self).ppu == old(self).ppu,
    {
        match ins {
            Instruction::Sla(r) => {
                let v = self.slot_read(r);
                self.finish_rot(r, v % 128 * 2, v >= 128);
                if r == RegisterName::HLRef { 16 } else { 8 }
            },
            Instruction::Sra(r) => {
                let v = self.slot_read(r);
                self.finish_rot(r, v / 2 + v / 128 * 128, v % 2 == 1);
                if r == RegisterName::HLRef { 16 } else { 8 }
            },
            Instruction::Srl(r) => {
                let v = self.slot_read(r);
                self.finish_rot(r, v / 2, v % 2 == 1);
                if r == RegisterName::HLRef { 16 } else { 8 }
            },
            _ => {
                proof {
                    assert(false);
                }
                0
            },
        }
    }

    /// The bit test, set and reset instructions.
    #[verifier::rlimit(100)]
    #[verifier::spinoff_prover]
    fn execute_bit_ops(&mut self, ins: Instruction) -> (cycles: u8)
        requires
            old(self).wf(),
            wf_ins(ins),
            ins is Bit || ins is SetBit || ins is Res,
        ensures
            final(self).wf(),
            final(self)@.m == spec_execute_bit_ops(old(self)@.m, ins).0,
            cycles == spec_execute_bit_ops(old(self)@.m, ins).1,
            final(self).ppu == old(self).ppu,
    {
        match ins {
            Instruction::Bit(b, r) => {
                let v = self.slot_read(r);
                let mask = crate::bit_mask(b);
                let z = v / mask % 2 == 0;
                let c = self.reg.flag(Flag::Carry);
                self.reg.set_flags(z, false, true, c);
                if r == RegisterName::HLRef { 16 } else { 8 }
            },
            Instruction::SetBit(b, r) => {
                let v = self.slot_read(r);
                let res = set_bit_val(v, b);
                self.slot_write(r, res);
                if r == RegisterName::HLRef { 16 } else { 8 }
            },
            Instruction::Res(b, r) => {
                let v = self.slot_read(r);
                let res = res_bit_val(v, b);
                self.slot_write(r, res);
                if r == RegisterName::HLRef { 16 } else { 8 }
            },
            _ => {
                proof {
                    assert(false);
                }
                0
            },
            _ => {
                proof {
                    assert(false);
                }
                0
            },
        }
    }

    /// The absolute, register and relative jumps.
    #[verifier::rlimit(100)]
    #[verifier::spinoff_prover]
    fn execute_jumps(&mut self, ins: Instruction) -> (cycles: u8)
        requires
            old(self).wf(),
            wf_ins(ins),
            ins is Jp || ins is JpHL || ins is JpCond || ins is Jr || ins is JrCond,
        ensures
            final(self).wf(),
            final(self)@.m == spec_execute_jumps(old(self)@.m, ins).0,
            cycles == spec_execute_jumps(old(self)@.m, ins).1,
            final(self).ppu == old(self).ppu,
    {
        match ins {
            Instruction::Jp(addr) => {
                self.reg.pc = addr;
                12
            },
            Instruction::JpHL => {
                self.reg.pc = self.reg.hl;
                4
            },
            Instruction::JpCond(c, addr) => {
                if self.test_cond(c) {
                    self.reg.pc = addr;
                    16
                } else {
                    12
                }
            },
            Instruction::Jr(rel) => {
                self.reg.pc = rel_target(self.reg.pc, rel);
                8
            },
            Instruction::JrCond(c, rel) => {
                if self.test_cond(c) {
                    self.reg.pc = rel_target(self.reg.pc, rel);
                    12
                } else {
                    8
                }
            },
            _ => {
                proof {
                    assert(false);
                }
                0
            },
        }
    }

    /// The calls, restarts and returns.
    #[verifier::rlimit(100)]
    #[verifier::spinoff_prover]
    fn execute_calls(&mut self, ins: Instruction) -> (cycles: u8)
        requires
            old(self).wf(),
            wf_ins(ins),
            ins is Call || ins is CallCond || ins is Rst || ins is Ret || ins is RetCond || ins is Reti,
        ensures
            final(self).wf(),
            final(self)@.m == spec_execute_calls(old(self)@.m, ins).0,
            cycles == spec_execute_calls(old(self)@.m, ins).1,
            final(self).ppu == old(self).ppu,
    {
        match ins {
            Instruction::Call(addr) => {
                let pc = self.reg.pc;
                self.push16(pc);
                self.reg.pc = addr;
                12
            },
            Instruction::CallCond(c, addr) => {
                if self.test_cond(c) {
                    let pc = self.reg.pc;
                    self.push16(pc);
                    self.reg.pc = addr;
                    24
                } else {
                    12
                }
            },
            Instruction::Rst(v) => {
                let pc = self.reg.pc;
                self.push16(pc);
                self.reg.pc = v as u16;
                32
            },
            Instruction::Ret => {
                let target = self.pop16();
                self.reg.pc = target;
                8
            },
            Instruction::RetCond(c) => {
                if self.test_cond(c) {
                    let target = self.pop16();
                    self.reg.pc = target;
                    20
                } else {
                    8
                }
            },
            Instruction::Reti => {
                let target = self.pop16();
                self.reg.pc = target;
                self.state.ei_pending = true;
                8
            },
            _ => {
                proof {
                    assert(false);
                }
                0
            },
            _ => {
                proof {
                    assert(false);
                }
                0
            },
        }
    }

    /// The no-ops, the resting states, the IME deferrals and the illegal sentinel.
    #[verifier::rlimit(100)]
    #[verifier::spinoff_prover]
    fn execute_rest(&mut self, ins: Instruction) -> (cycles: u8)
        requires
            old(self).wf(),
            wf_ins(ins),
            ins is IllInsn || ins is Nop || ins is Halt || ins is Stop || ins is Di || ins is Ei,
        ensures
            final(self).wf(),
            final(self)@.m == spec_execute_rest(old(self)@.m, ins).0,
            cycles == spec_execute_rest(old(self)@.m, ins).1,
            final(self).ppu == old(self).ppu,
    {
        match ins {
            Instruction::IllInsn => 1,
            Instruction::Nop => 4,
            Instruction::Halt => {
                self.state.halted = true;
                4
            },
            Instruction::Stop => {
                self.state.stopped = true;
                4
            },
            Instruction::Di => {
                self.state.di_pending = true;
                4
            },
            Instruction::Ei => {
                self.state.ei_pending = true;
                4
            },
            _ => {
                proof {
                    assert(false);
                }
                0
            },
        }
    }
    /// AND into A.
    fn do_and8(&mut self, v: u8)
        requires
            old(self).wf(),
        ensures
            final(self).wf(),
            final(self)@.m == spec_and8(old(self)@.m, v),
            final(self).ppu == old(self).ppu,
            final(self).state == old(self).state,
    {
        let a = self.reg.read8(RegisterName::A).unwrap();
        let res = a & v;
        self.reg.write8(RegisterName::A, res);
        self.reg.set_flags(res == 0, false, true, false);
    }

    /// OR into A.
    fn do_or8(&mut self, v: u8)
        requires
            old(self).wf(),
        ensures
            final(self).wf(),
            final(self)@.m == spec_or8(old(self)@.m, v),
            final(self).ppu == old(self).ppu,
            final(self).state == old(self).state,
    {
        let a = self.reg.read8(RegisterName::A).unwrap();
        let res = a | v;
        self.reg.write8(RegisterName::A, res);
        self.reg.set_flags(res == 0, false, false, false);
    }

    /// XOR into A.
    fn do_xor8(&mut self, v: u8)
        requires
            old(self).wf(),
        ensures
            final(self).wf(),
            final(self)@.m == spec_xor8(old(self)@.m, v),
            final(self).ppu == old(self).ppu,
            final(self).state == old(self).state,
    {
        let a = self.reg.read8(RegisterName::A).unwrap();
        let res = a ^ v;
        self.reg.write8(RegisterName::A, res);
        self.reg.set_flags(res == 0, false, false, false);
    }

    /// DAA: corrects A after BCD arithmetic.
    fn do_daa(&mut self)
        requires
            old(self).wf(),
        ensures
            final(self).wf(),
            final(self)@.m == spec_daa(old(self)@.m),
            final(self).ppu == old(self).ppu,
            final(self).state == old(self).state,
    {
        let a = self.reg.read8(RegisterName::A).unwrap();
        let n = self.reg.flag(Flag::AddSub);
        let h = self.reg.flag(Flag::HalfCarry);
        let c = self.reg.flag(Flag::Carry);
        if !n {
            let c_out = c || a > 0x99;
            let high_adj: u16 = if c_out { 0x60 } else { 0 };
            let low_adj: u16 = if h || a % 16 > 9 { 6 } else { 0 };
            let res = ((a as u16 + high_adj + low_adj) % 256) as u8;
            self.reg.write8(RegisterName::A, res);
            self.reg.set_flags(res == 0, false, false, c_out);
        } else {
            let high_adj: u16 = if c { 0x60 } else { 0 };
            let low_adj: u16 = if h { 6 } else { 0 };
            let res = ((a as u16 + 512 - high_adj - low_adj) % 256) as u8;
            self.reg.write8(RegisterName::A, res);
            self.reg.set_flags(res == 0, true, false, c);
        }
    }

    /// Stores SP little-endian at an absolute address.
    fn store_sp_at(&mut self, addr: u16)
        requires
            old(self).wf(),
        ensures
            final(self).wf(),
            final(self)@.m == mw16(old(self)@.m, addr, old(self).reg.sp),
            final(self).ppu == old(self).ppu,
            final(self).state == old(self).state,
    {
        let sp = self.reg.sp;
        self.mem.set_addr(addr, (sp % 256) as u8);
        self.mem.set_addr(addr.wrapping_add(1), (sp / 256) as u8);
    }
}

/// The target of a relative jump: PC plus the sign-extended offset.
fn rel_target(pc: u16, rel: i8) -> (r: u16)
    ensures
        r == wrap_pc(pc, rel + 0x10000),
{
    ((pc as u32 + (rel as i32 + 0x10000) as u32) % 0x10000) as u16
}

impl CPU {
    /// INC on an 8-bit slot: steps the slot, keeping the carry flag.
    #[verifier::rlimit(60)]
    #[verifier::spinoff_prover]
    fn do_inc8(&mut self, r: RegisterName)
        requires
            old(self).wf(),
            is_slot8(r),
        ensures
            final(self).wf(),
            final(self)@.m == spec_inc8(old(self)@.m, r),
            final(self).ppu == old(self).ppu,
            final(self).state == old(self).state,
    {
        let v = self.slot_read(r);
        let res = v.wrapping_add(1);
        let c = self.reg.flag(Flag::Carry);
        self.slot_write(r, res);
        self.reg.set_flags(res == 0, false, v % 16 == 15, c);
    }

    /// DEC on an 8-bit slot: steps the slot down, keeping the carry flag.
    #[verifier::rlimit(60)]
    #[verifier::spinoff_prover]
    fn do_dec8(&mut self, r: RegisterName)
        requires
            old(self).wf(),
            is_slot8(r),
        ensures
            final(self).wf(),
            final(self)@.m == spec_dec8(old(self)@.m, r),
            final(self).ppu == old(self).ppu,
            final(self).state == old(self).state,
    {
        let v = self.slot_read(r);
        let res = v.wrapping_sub(1);
        let c = self.reg.flag(Flag::Carry);
        self.slot_write(r, res);
        self.reg.set_flags(res == 0, true, v % 16 == 0, c);
    }
}

} // verus!
