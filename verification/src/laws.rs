//! Laws of the machine: properties that hold of every input, stated over
//! the same spec functions that the executable functions' contracts use,
//! and proved here once and for all.

use vstd::prelude::*;

use crate::bit_of;
use crate::cpu::{spec_tick, CpuView, MachineView};
use crate::decode::{spec_decode, spec_ins_len, wrap_pc};
use crate::exec::{
    flag, mr, r16, r8, slot_get, spec_execute, spec_rlc_val, spec_rrc_val, spec_swap,
};
use crate::irq::{spec_int_taken, spec_service};
use crate::mem::MemView;
use crate::ppu::{spec_boundary, spec_ppu_run, PpuView};
use crate::isa::{is_rp2, is_slot8, is_tr8, wf_ins, Instruction, RegisterName};
use crate::regs::Flag;

verus! {

/// Wrapping 16-bit addition composes: advancing by `a` and then by `b`
/// is advancing by `a + b`.
#[verifier::rlimit(100)]
#[verifier::spinoff_prover]
pub proof fn lemma_wrap_add(x: u16, a: int, b: int)
    requires
        a >= 0,
        b >= 0,
    ensures
        wrap_pc(wrap_pc(x, a), b) == wrap_pc(x, a + b),
{
    let m = 0x10000int;
    assert(((x + a) % m + b) % m == (x + a + b) % m) by {
        vstd::arithmetic::div_mod::lemma_add_mod_noop((x + a) % m, b, m);
        vstd::arithmetic::div_mod::lemma_mod_twice(x + a, m);
        vstd::arithmetic::div_mod::lemma_add_mod_noop(x + a, b, m);
    }
}

/// A value pushed and then popped through the same pair comes back
/// unchanged, and SP returns to where it started. The one family of
/// inputs left out: a stack that lies under the paged-in boot image,
/// where the pop reads the overlay instead of the pushed bytes.
#[verifier::rlimit(100)]
#[verifier::spinoff_prover]
pub proof fn lemma_push_pop(m: MachineView, r: RegisterName)
    requires
        m.wf(),
        is_rp2(r),
        m.mem.boot_paged ==> wrap_pc(m.reg.sp, 0xFFFE) >= 0x100 && wrap_pc(
            m.reg.sp,
            0xFFFF,
        ) >= 0x100,
    ensures
        ({
            let pushed = spec_execute(m, Instruction::Push(r)).0;
            let popped = spec_execute(pushed, Instruction::Pop(r)).0;
            &&& r16(popped, r) == r16(m, r)
            &&& popped.reg.sp == m.reg.sp
        }),
{
    lemma_wrap_add(m.reg.sp, 0xFFFE, 2);
    assert(wrap_pc(m.reg.sp, 0x10000) == m.reg.sp);
    lemma_wrap_add(m.reg.sp, 0xFFFE, 1);
}

/// CALL followed immediately by RET with no intervening interrupt brings
/// PC back to the instruction after the CALL and leaves SP unchanged.
/// The same overlay caveat as for push and pop applies.
#[verifier::rlimit(100)]
#[verifier::spinoff_prover]
pub proof fn lemma_call_ret(m: MachineView, addr: u16)
    requires
        m.wf(),
        m.mem.boot_paged ==> wrap_pc(m.reg.sp, 0xFFFE) >= 0x100 && wrap_pc(
            m.reg.sp,
            0xFFFF,
        ) >= 0x100,
    ensures
        ({
            let called = spec_execute(m, Instruction::Call(addr)).0;
            let returned = spec_execute(called, Instruction::Ret).0;
            &&& called.reg.pc == addr
            &&& returned.reg.pc == m.reg.pc
            &&& returned.reg.sp == m.reg.sp
        }),
{
    lemma_wrap_add(m.reg.sp, 0xFFFE, 2);
    assert(wrap_pc(m.reg.sp, 0x10000) == m.reg.sp);
    lemma_wrap_add(m.reg.sp, 0xFFFE, 1);
}

/// Setting a bit and then clearing the same bit returns the slot to its
/// original value, for every bit index and every value whose bit was
/// clear; on a value whose bit was already set, the pair clears it. A
/// slot behind HL under the paged-in boot image is left out, as the
/// read-back would see the overlay.
#[verifier::rlimit(100)]
#[verifier::spinoff_prover]
pub proof fn lemma_set_res_round_trip(m: MachineView, b: u8, r: RegisterName)
    requires
        m.wf(),
        b < 8,
        is_slot8(r),
        !bit_of(slot_get(m, r), b as int),
        (r == RegisterName::HLRef && m.mem.boot_paged) ==> m.reg.hl >= 0x100,
    ensures
        ({
            let m1 = spec_execute(m, Instruction::SetBit(b, r)).0;
            let m2 = spec_execute(m1, Instruction::Res(b, r)).0;
            slot_get(m2, r) == slot_get(m, r)
        }),
{
    let v = slot_get(m, r);
    lemma_with_without_bit(v, b);
    let m1 = spec_execute(m, Instruction::SetBit(b, r)).0;
    assert(slot_get(m1, r) == crate::with_bit(v, b as int));
    let m2 = spec_execute(m1, Instruction::Res(b, r)).0;
    assert(slot_get(m2, r) == crate::without_bit(crate::with_bit(v, b as int), b as int));
}

/// Set-then-clear is the identity at the byte level, on a byte whose bit
/// was clear.
#[verifier::rlimit(100)]
#[verifier::spinoff_prover]
pub proof fn lemma_with_without_bit(v: u8, b: u8)
    requires
        b < 8,
        !bit_of(v, b as int),
    ensures
        crate::without_bit(crate::with_bit(v, b as int), b as int) == v,
{
    if b == 0 {
        assert(v / 1 % 2 == 0 ==> ((v + 1) / 1 % 2 == 1 && v <= 254)) by (bit_vector);
    } else if b == 1 {
        assert(v / 2 % 2 == 0 ==> ((v + 2) / 2 % 2 == 1 && v <= 253)) by (bit_vector);
    } else if b == 2 {
        assert(v / 4 % 2 == 0 ==> ((v + 4) / 4 % 2 == 1 && v <= 251)) by (bit_vector);
    } else if b == 3 {
        assert(v / 8 % 2 == 0 ==> ((v + 8) / 8 % 2 == 1 && v <= 247)) by (bit_vector);
    } else if b == 4 {
        assert(v / 16 % 2 == 0 ==> ((v + 16) / 16 % 2 == 1 && v <= 239)) by (bit_vector);
    } else if b == 5 {
        assert(v / 32 % 2 == 0 ==> ((v + 32) / 32 % 2 == 1 && v <= 223)) by (bit_vector);
    } else if b == 6 {
        assert(v / 64 % 2 == 0 ==> ((v + 64) / 64 % 2 == 1 && v <= 191)) by (bit_vector);
    } else {
        assert(v / 128 % 2 == 0 ==> ((v + 128) / 128 % 2 == 1 && v <= 127)) by (bit_vector);
    }
}

/// BIT reports in the Zero flag exactly whether the tested bit is clear.
#[verifier::rlimit(100)]
#[verifier::spinoff_prover]
pub proof fn lemma_bit_reports_zero(m: MachineView, b: u8, r: RegisterName)
    requires
        m.wf(),
        b < 8,
        is_slot8(r),
    ensures
        flag(spec_execute(m, Instruction::Bit(b, r)).0, Flag::Zero) == !bit_of(
            slot_get(m, r),
            b as int,
        ),
{
}

/// Eight RLC rotations return any byte to itself.
#[verifier::rlimit(100)]
#[verifier::spinoff_prover]
pub proof fn lemma_rlc_eight(v: u8)
    ensures
        spec_rlc_val(
            spec_rlc_val(
                spec_rlc_val(
                    spec_rlc_val(
                        spec_rlc_val(spec_rlc_val(spec_rlc_val(spec_rlc_val(v)))),
                    ),
                ),
            ),
        ) == v,
{
    let w1 = spec_rlc_val(v);
    let w2 = spec_rlc_val(w1);
    let w3 = spec_rlc_val(w2);
    let w4 = spec_rlc_val(w3);
    let w5 = spec_rlc_val(w4);
    let w6 = spec_rlc_val(w5);
    let w7 = spec_rlc_val(w6);
    let w8 = spec_rlc_val(w7);
    assert(w8 == v) by (bit_vector)
        requires
            w1 == v % 128 * 2 + v / 128,
            w2 == w1 % 128 * 2 + w1 / 128,
            w3 == w2 % 128 * 2 + w2 / 128,
            w4 == w3 % 128 * 2 + w3 / 128,
            w5 == w4 % 128 * 2 + w4 / 128,
            w6 == w5 % 128 * 2 + w5 / 128,
            w7 == w6 % 128 * 2 + w6 / 128,
            w8 == w7 % 128 * 2 + w7 / 128,
    ;
}

/// Eight RRC rotations return any byte to itself.
#[verifier::rlimit(100)]
#[verifier::spinoff_prover]
pub proof fn lemma_rrc_eight(v: u8)
    ensures
        spec_rrc_val(
            spec_rrc_val(
                spec_rrc_val(
                    spec_rrc_val(
                        spec_rrc_val(spec_rrc_val(spec_rrc_val(spec_rrc_val(v)))),
                    ),
                ),
            ),
        ) == v,
{
}

/// One RLC on a plain register rotates exactly that register's value.
#[verifier::rlimit(100)]
#[verifier::spinoff_prover]
pub proof fn lemma_rlc_step(m: MachineView, r: RegisterName)
    requires
        is_tr8(r),
    ensures
        slot_get(spec_execute(m, Instruction::Rlc(r)).0, r) == spec_rlc_val(slot_get(m, r)),
{
}

/// One RRC on a plain register rotates exactly that register's value.
#[verifier::rlimit(100)]
#[verifier::spinoff_prover]
pub proof fn lemma_rrc_step(m: MachineView, r: RegisterName)
    requires
        is_tr8(r),
    ensures
        slot_get(spec_execute(m, Instruction::Rrc(r)).0, r) == spec_rrc_val(slot_get(m, r)),
{
}

/// Eight consecutive RLC instructions on the same plain register return
/// it to its original value.
#[verifier::rlimit(100)]
#[verifier::spinoff_prover]
pub proof fn lemma_rotate_eight_rlc(m: MachineView, r: RegisterName)
    requires
        is_tr8(r),
    ensures
        ({
            let m1 = spec_execute(m, Instruction::Rlc(r)).0;
            let m2 = spec_execute(m1, Instruction::Rlc(r)).0;
            let m3 = spec_execute(m2, Instruction::Rlc(r)).0;
            let m4 = spec_execute(m3, Instruction::Rlc(r)).0;
            let m5 = spec_execute(m4, Instruction::Rlc(r)).0;
            let m6 = spec_execute(m5, Instruction::Rlc(r)).0;
            let m7 = spec_execute(m6, Instruction::Rlc(r)).0;
            let m8 = spec_execute(m7, Instruction::Rlc(r)).0;
            slot_get(m8, r) == slot_get(m, r)
        }),
{
    let m1 = spec_execute(m, Instruction::Rlc(r)).0;
    let m2 = spec_execute(m1, Instruction::Rlc(r)).0;
    let m3 = spec_execute(m2, Instruction::Rlc(r)).0;
    let m4 = spec_execute(m3, Instruction::Rlc(r)).0;
    let m5 = spec_execute(m4, Instruction::Rlc(r)).0;
    let m6 = spec_execute(m5, Instruction::Rlc(r)).0;
    let m7 = spec_execute(m6, Instruction::Rlc(r)).0;
    lemma_rlc_step(m, r);
    lemma_rlc_step(m1, r);
    lemma_rlc_step(m2, r);
    lemma_rlc_step(m3, r);
    lemma_rlc_step(m4, r);
    lemma_rlc_step(m5, r);
    lemma_rlc_step(m6, r);
    lemma_rlc_step(m7, r);
    lemma_rlc_eight(slot_get(m, r));
}

/// Eight consecutive RRC instructions on the same plain register return
/// it to its original value.
#[verifier::rlimit(100)]
#[verifier::spinoff_prover]
pub proof fn lemma_rotate_eight_rrc(m: MachineView, r: RegisterName)
    requires
        is_tr8(r),
    ensures
        ({
            let m1 = spec_execute(m, Instruction::Rrc(r)).0;
            let m2 = spec_execute(m1, Instruction::Rrc(r)).0;
            let m3 = spec_execute(m2, Instruction::Rrc(r)).0;
            let m4 = spec_execute(m3, Instruction::Rrc(r)).0;
            let m5 = spec_execute(m4, Instruction::Rrc(r)).0;
            let m6 = spec_execute(m5, Instruction::Rrc(r)).0;
            let m7 = spec_execute(m6, Instruction::Rrc(r)).0;
            let m8 = spec_execute(m7, Instruction::Rrc(r)).0;
            slot_get(m8, r) == slot_get(m, r)
        }),
{
    let m1 = spec_execute(m, Instruction::Rrc(r)).0;
    let m2 = spec_execute(m1, Instruction::Rrc(r)).0;
    let m3 = spec_execute(m2, Instruction::Rrc(r)).0;
    let m4 = spec_execute(m3, Instruction::Rrc(r)).0;
    let m5 = spec_execute(m4, Instruction::Rrc(r)).0;
    let m6 = spec_execute(m5, Instruction::Rrc(r)).0;
    let m7 = spec_execute(m6, Instruction::Rrc(r)).0;
    lemma_rrc_step(m, r);
    lemma_rrc_step(m1, r);
    lemma_rrc_step(m2, r);
    lemma_rrc_step(m3, r);
    lemma_rrc_step(m4, r);
    lemma_rrc_step(m5, r);
    lemma_rrc_step(m6, r);
    lemma_rrc_step(m7, r);
    lemma_rrc_eight(slot_get(m, r));
}

/// Two consecutive SWAPs on the same plain register return it to its
/// original value.
#[verifier::rlimit(100)]
#[verifier::spinoff_prover]
pub proof fn lemma_swap_twice(m: MachineView, r: RegisterName)
    requires
        is_tr8(r),
    ensures
        slot_get(
            spec_execute(spec_execute(m, Instruction::Swap(r)).0, Instruction::Swap(r)).0,
            r,
        ) == slot_get(m, r),
{
    assert(spec_execute(m, Instruction::Swap(r)).0 == spec_swap(m, r));
}

/// Interrupt priority: with every source requested and enabled and the
/// master enable on, exactly VBlank is serviced first, IF drops to 0x1E,
/// PC lands on the VBlank vector, and IME turns off. The push of PC must
/// not land on IF itself, so a stack pointing there is left out.
#[verifier::rlimit(100)]
#[verifier::spinoff_prover]
pub proof fn lemma_interrupt_priority(m: MachineView)
    requires
        m.wf(),
        m.reg.ie,
        mr(m, 0xFF0F) == 0x1F,
        mr(m, 0xFFFF) == 0x1F,
        wrap_pc(m.reg.sp, 0xFFFE) != 0xFF0F,
        wrap_pc(m.reg.sp, 0xFFFF) != 0xFF0F,
    ensures
        spec_int_taken(m) == Some(0int),
        spec_service(m, 0).reg.pc == 0x0040,
        !spec_service(m, 0).reg.ie,
        mr(spec_service(m, 0), 0xFF0F) == 0x1E,
{
    lemma_wrap_add(m.reg.sp, 0xFFFE, 1);
}

/// Decoding is deterministic, being a pure function of the visible
/// memory and PC, and advances PC by exactly the operand-inclusive
/// length of the decoded instruction: one to three bytes.
#[verifier::rlimit(100)]
#[verifier::spinoff_prover]
pub proof fn lemma_decode_advances_pc(m: crate::mem::MemView, pc: u16)
    ensures
        spec_decode(m, pc).1 == wrap_pc(pc, spec_ins_len(m, pc)),
        1 <= spec_ins_len(m, pc) <= 3,
{
    lemma_wrap_add(pc, 1, 1);
}

/// After every instruction the low nibble of F is zero: every write to F
/// masks it, so executing any well-formed instruction keeps the flag
/// register well formed.
#[verifier::rlimit(100)]
#[verifier::spinoff_prover]
pub proof fn lemma_flag_low_nibble(m: MachineView, ins: Instruction)
    requires
        m.reg.wf(),
        wf_ins(ins),
    ensures
        spec_execute(m, ins).0.reg.wf(),
{
    match ins {
        Instruction::Ld8Reg(_, _)
        | Instruction::LddHLA
        | Instruction::LdiHLA
        | Instruction::LddAHL
        | Instruction::LdiAHL => lemma_flag_nibble_ld_ind(m, ins),
        Instruction::Ld8Imm(_, _)
        | Instruction::LdhN(_)
        | Instruction::LdhA(_)
        | Instruction::Lda(_)
        | Instruction::LdaNN(_)
        | Instruction::Ldac
        | Instruction::Ldca => lemma_flag_nibble_ld_imm(m, ins),
        Instruction::StoSP(_)
        | Instruction::LdnnSP(_)
        | Instruction::Ld16Imm(_, _)
        | Instruction::LdSPHL
        | Instruction::Push(_)
        | Instruction::Pop(_) => lemma_flag_nibble_ld16(m, ins),
        Instruction::AddImm(_)
        | Instruction::AddReg(_)
        | Instruction::AdcImm(_)
        | Instruction::AdcReg(_)
        | Instruction::SubImm(_)
        | Instruction::SubReg(_)
        | Instruction::SbcImm(_)
        | Instruction::SbcReg(_) => lemma_flag_nibble_alu_add(m, ins),
        Instruction::CpImm(_)
        | Instruction::CpReg(_)
        | Instruction::AndImm(_)
        | Instruction::AndReg(_)
        | Instruction::OrImm(_)
        | Instruction::OrReg(_)
        | Instruction::XorImm(_)
        | Instruction::XorReg(_) => lemma_flag_nibble_alu_log(m, ins),
        Instruction::Inc(_)
        | Instruction::Dec(_) => lemma_flag_nibble_step8(m, ins),
        Instruction::Add16(_)
        | Instruction::AddSP(_)
        | Instruction::LdHLSPn(_) => lemma_flag_nibble_add16(m, ins),
        Instruction::Inc16(_)
        | Instruction::Dec16(_) => lemma_flag_nibble_step16(m, ins),
        Instruction::Daa
        | Instruction::Cpl
        | Instruction::Ccf
        | Instruction::Scf => lemma_flag_nibble_alu_flag(m, ins),
        Instruction::Rlca
        | Instruction::Rla
        | Instruction::Rrca
        | Instruction::Rra
        | Instruction::Swap(_) => lemma_flag_nibble_rot_a(m, ins),
        Instruction::Rlc(_)
        | Instruction::Rl(_)
        | Instruction::Rrc(_)
        | Instruction::Rr(_) => lemma_flag_nibble_rot_cb(m, ins),
        Instruction::Sla(_)
        | Instruction::Sra(_)
        | Instruction::Srl(_) => lemma_flag_nibble_shift_cb(m, ins),
        Instruction::Bit(_, _)
        | Instruction::SetBit(_, _)
        | Instruction::Res(_, _) => lemma_flag_nibble_bit_ops(m, ins),
        Instruction::Jp(_)
        | Instruction::JpHL
        | Instruction::JpCond(_, _)
        | Instruction::Jr(_)
        | Instruction::JrCond(_, _) => lemma_flag_nibble_jumps(m, ins),
        Instruction::Call(_)
        | Instruction::CallCond(_, _)
        | Instruction::Rst(_)
        | Instruction::Ret
        | Instruction::RetCond(_)
        | Instruction::Reti => lemma_flag_nibble_calls(m, ins),
        Instruction::IllInsn
        | Instruction::Nop
        | Instruction::Halt
        | Instruction::Stop
        | Instruction::Di
        | Instruction::Ei => lemma_flag_nibble_rest(m, ins),
    }
}

/// Flag-nibble preservation for one instruction group.
#[verifier::rlimit(100)]
#[verifier::spinoff_prover]
proof fn lemma_flag_nibble_ld_ind(m: MachineView, ins: Instruction)
    requires
        m.reg.wf(),
        wf_ins(ins),
    ensures
        crate::exec::spec_execute_ld_ind(m, ins).0.reg.wf(),
{
}

/// Flag-nibble preservation for one instruction group.
#[verifier::rlimit(100)]
#[verifier::spinoff_prover]
proof fn lemma_flag_nibble_ld_imm(m: MachineView, ins: Instruction)
    requires
        m.reg.wf(),
        wf_ins(ins),
    ensures
        crate::exec::spec_execute_ld_imm(m, ins).0.reg.wf(),
{
}

/// Flag-nibble preservation for one instruction group.
#[verifier::rlimit(100)]
#[verifier::spinoff_prover]
proof fn lemma_flag_nibble_ld16(m: MachineView, ins: Instruction)
    requires
        m.reg.wf(),
        wf_ins(ins),
    ensures
        crate::exec::spec_execute_ld16(m, ins).0.reg.wf(),
{
}

/// Flag-nibble preservation for one instruction group.
#[verifier::rlimit(100)]
#[verifier::spinoff_prover]
proof fn lemma_flag_nibble_alu_add(m: MachineView, ins: Instruction)
    requires
        m.reg.wf(),
        wf_ins(ins),
    ensures
        crate::exec::spec_execute_alu_add(m, ins).0.reg.wf(),
{
    lemma_sf_wf_all();
    lemma_w8_wf_all();
}

/// Flag-nibble preservation for one instruction group.
#[verifier::rlimit(100)]
#[verifier::spinoff_prover]
proof fn lemma_flag_nibble_alu_log(m: MachineView, ins: Instruction)
    requires
        m.reg.wf(),
        wf_ins(ins),
    ensures
        crate::exec::spec_execute_alu_log(m, ins).0.reg.wf(),
{
    lemma_sf_wf_all();
}

/// Flag-nibble preservation for one instruction group.
#[verifier::rlimit(100)]
#[verifier::spinoff_prover]
proof fn lemma_flag_nibble_step8(m: MachineView, ins: Instruction)
    requires
        m.reg.wf(),
        wf_ins(ins),
    ensures
        crate::exec::spec_execute_step8(m, ins).0.reg.wf(),
{
}

/// Flag-nibble preservation for one instruction group.
#[verifier::rlimit(100)]
#[verifier::spinoff_prover]
proof fn lemma_flag_nibble_add16(m: MachineView, ins: Instruction)
    requires
        m.reg.wf(),
        wf_ins(ins),
    ensures
        crate::exec::spec_execute_add16(m, ins).0.reg.wf(),
{
}

/// Flag-nibble preservation for one instruction group.
#[verifier::rlimit(100)]
#[verifier::spinoff_prover]
proof fn lemma_flag_nibble_step16(m: MachineView, ins: Instruction)
    requires
        m.reg.wf(),
        wf_ins(ins),
    ensures
        crate::exec::spec_execute_step16(m, ins).0.reg.wf(),
{
}

/// Flag-nibble preservation for one instruction group.
#[verifier::rlimit(100)]
#[verifier::spinoff_prover]
proof fn lemma_flag_nibble_alu_flag(m: MachineView, ins: Instruction)
    requires
        m.reg.wf(),
        wf_ins(ins),
    ensures
        crate::exec::spec_execute_alu_flag(m, ins).0.reg.wf(),
{
}

/// Flag-nibble preservation for one instruction group.
#[verifier::rlimit(100)]
#[verifier::spinoff_prover]
proof fn lemma_flag_nibble_rot_a(m: MachineView, ins: Instruction)
    requires
        m.reg.wf(),
        wf_ins(ins),
    ensures
        crate::exec::spec_execute_rot_a(m, ins).0.reg.wf(),
{
}

/// Flag-nibble preservation for one instruction group.
#[verifier::rlimit(100)]
#[verifier::spinoff_prover]
proof fn lemma_flag_nibble_rot_cb(m: MachineView, ins: Instruction)
    requires
        m.reg.wf(),
        wf_ins(ins),
    ensures
        crate::exec::spec_execute_rot_cb(m, ins).0.reg.wf(),
{
    lemma_sf_wf_all();
}

/// Flag-nibble preservation for one instruction group.
#[verifier::rlimit(100)]
#[verifier::spinoff_prover]
proof fn lemma_flag_nibble_shift_cb(m: MachineView, ins: Instruction)
    requires
        m.reg.wf(),
        wf_ins(ins),
    ensures
        crate::exec::spec_execute_shift_cb(m, ins).0.reg.wf(),
{
    lemma_sf_wf_all();
}

/// Flag-nibble preservation for one instruction group.
#[verifier::rlimit(100)]
#[verifier::spinoff_prover]
proof fn lemma_flag_nibble_bit_ops(m: MachineView, ins: Instruction)
    requires
        m.reg.wf(),
        wf_ins(ins),
    ensures
        crate::exec::spec_execute_bit_ops(m, ins).0.reg.wf(),
{
}

/// Flag-nibble preservation for one instruction group.
#[verifier::rlimit(100)]
#[verifier::spinoff_prover]
proof fn lemma_flag_nibble_jumps(m: MachineView, ins: Instruction)
    requires
        m.reg.wf(),
        wf_ins(ins),
    ensures
        crate::exec::spec_execute_jumps(m, ins).0.reg.wf(),
{
}

/// Flag-nibble preservation for one instruction group.
#[verifier::rlimit(100)]
#[verifier::spinoff_prover]
proof fn lemma_flag_nibble_calls(m: MachineView, ins: Instruction)
    requires
        m.reg.wf(),
        wf_ins(ins),
    ensures
        crate::exec::spec_execute_calls(m, ins).0.reg.wf(),
{
}

/// Flag-nibble preservation for one instruction group.
#[verifier::rlimit(100)]
#[verifier::spinoff_prover]
proof fn lemma_flag_nibble_rest(m: MachineView, ins: Instruction)
    requires
        m.reg.wf(),
        wf_ins(ins),
    ensures
        crate::exec::spec_execute_rest(m, ins).0.reg.wf(),
{
}

/// EI takes effect only after the tick in which it executes: even with
/// an interrupt requested and enabled throughout, the EI tick services
/// nothing (the service check precedes the deferral), PC merely advances
/// past the EI, SP does not move, and IME is on only at the tick's end.
/// The following instruction therefore retires before any service.
#[verifier::rlimit(100)]
#[verifier::spinoff_prover]
pub proof fn lemma_ei_delays_interrupts(c: CpuView)
    requires
        c.m.wf(),
        c.ppu.wf(),
        !c.m.reg.ie,
        !c.m.st.halted,
        !c.m.st.stopped,
        !c.m.st.di_pending,
        mr(c.m, 0xFF50) != 1,
        spec_decode(c.m.mem, c.m.reg.pc).0 == Instruction::Ei,
    ensures
        spec_tick(c).0.m.reg.ie,
        spec_tick(c).0.m.reg.sp == c.m.reg.sp,
        spec_tick(c).0.m.reg.pc == spec_decode(c.m.mem, c.m.reg.pc).1,
{
}

/// Replacing all four flags always leaves the low nibble of F zero.
#[verifier::rlimit(100)]
#[verifier::spinoff_prover]
proof fn lemma_sf_wf(m: MachineView, z: bool, n: bool, h: bool, c: bool)
    ensures
        crate::exec::sf(m, z, n, h, c).reg.wf(),
{
    let fb = crate::regs::flags_byte(z, n, h, c);
    assert(fb % 16 == 0);
}

/// The same, packaged for every view and flag assignment at once.
#[verifier::rlimit(100)]
#[verifier::spinoff_prover]
proof fn lemma_sf_wf_all()
    ensures
        forall|m: MachineView, z: bool, n: bool, h: bool, c: bool|
            (#[trigger] crate::exec::sf(m, z, n, h, c)).reg.wf(),
{
    assert forall|m: MachineView, z: bool, n: bool, h: bool, c: bool|
        (#[trigger] crate::exec::sf(m, z, n, h, c)).reg.wf() by {
        lemma_sf_wf(m, z, n, h, c);
    }
}

/// An 8-bit register write never disturbs the low nibble of F: a write
/// to F masks it, every other write leaves F alone.
#[verifier::rlimit(100)]
#[verifier::spinoff_prover]
proof fn lemma_w8_wf_all()
    ensures
        forall|m: MachineView, n: RegisterName, v: u8|
            m.reg.wf() ==> (#[trigger] crate::exec::w8(m, n, v)).reg.wf(),
{
}

/// Running the PPU for `a` cycles and then `b` more is running it for
/// `a + b`: the states agree and the VBlank raises add up.
#[verifier::rlimit(100)]
#[verifier::spinoff_prover]
pub proof fn lemma_run_split(p: PpuView, mem: MemView, a: int, b: int)
    requires
        a >= 0,
        b >= 0,
    ensures
        ({
            let ra = spec_ppu_run(p, mem, a);
            let rb = spec_ppu_run(ra.0, ra.1, b);
            let rc = spec_ppu_run(p, mem, a + b);
            &&& rc.0 == rb.0
            &&& rc.1 == rb.1
            &&& rc.2 == ra.2 + rb.2
        }),
    decreases a * 2 + (if p.hblank_acc == 0 { 1int } else { 0int }),
{
    reveal_with_fuel(spec_ppu_run, 3);
    if a == 0 {
    } else if p.hblank_acc > 0 {
        let h = p.hblank_acc as int;
        if h <= a {
            let p1 = PpuView { hblank_acc: 0, ..p };
            lemma_run_split(p1, mem, a - h, b);
        } else {
            let p1 = PpuView { hblank_acc: (h - a) as u16, ..p };
            if b == 0 {
            } else if h >= a + b {
                assert(spec_ppu_run(p1, mem, b).0 == PpuView {
                    hblank_acc: (h - a - b) as u16,
                    ..p
                });
            } else {
                assert(spec_ppu_run(p1, mem, b) == spec_ppu_run(
                    PpuView { hblank_acc: 0, ..p },
                    mem,
                    b - (h - a),
                ));
                assert(spec_ppu_run(p, mem, a + b) == spec_ppu_run(
                    PpuView { hblank_acc: 0, ..p },
                    mem,
                    a + b - h,
                ));
            }
        }
    } else {
        let step = spec_boundary(p, mem);
        lemma_run_split(step.0, step.1, a, b);
    }
}

/// The line the PPU is on after the boundary with index `k` of a frame:
/// the 144 visible lines step LY from 1 to 144, the ten blanking lines
/// continue to 153, and the last boundary returns it to 0.
pub open spec fn expected_ly(k: int) -> u8 {
    if k <= 152 {
        (k + 1) as u8
    } else {
        0
    }
}

/// The blanking countdown after the boundary with index `k` of a frame.
pub open spec fn expected_vblank(k: int) -> u16 {
    if k <= 142 {
        0
    } else if k <= 152 {
        (153 - k) as u16
    } else {
        0
    }
}

/// From reset, the PPU's timing state after `c` cycles is a pure
/// function of `c`: with `k` the index of the last processed line
/// boundary, the countdown, the blanking counter and LY all follow the
/// frame position, and VBlank has been raised exactly once if and only
/// if the run crossed the boundary into line 144 at cycle 65208.
#[verifier::rlimit(100)]
#[verifier::spinoff_prover]
pub proof fn lemma_frame_trace(p: PpuView, mem: MemView, c: int)
    requires
        mem.wf(),
        p.hblank_acc == 0,
        p.vblank_acc == 0,
        mem.read(0xFF44) == 0,
        0 <= c <= 70224,
    ensures
        spec_ppu_run(p, mem, c).1.wf(),
        ({
            let r = spec_ppu_run(p, mem, c);
            if c == 0 {
                r.0.hblank_acc == 0 && r.0.vblank_acc == 0 && r.1.read(0xFF44) == 0 && r.2 == 0
            } else {
                let k = (c - 1) / 456;
                &&& r.0.hblank_acc == 456 * (k + 1) - c
                &&& r.0.vblank_acc == expected_vblank(k)
                &&& r.1.read(0xFF44) == expected_ly(k)
                &&& r.2 == (if c > 65208 { 1nat } else { 0nat })
            }
        }),
    decreases c,
{
    reveal_with_fuel(spec_ppu_run, 4);
    if c == 0 {
    } else {
        lemma_frame_trace(p, mem, c - 1);
        lemma_run_split(p, mem, c - 1, 1);
        let ra = spec_ppu_run(p, mem, c - 1);
        if c == 1 {
            assert(spec_boundary(p, mem).1.read(0xFF44) == 1);
        } else {
            let k0 = (c - 2) / 456;
            assert(456 * k0 <= c - 2 < 456 * (k0 + 1)) by (nonlinear_arith)
                requires
                    k0 == (c - 2) / 456,
                    c >= 2,
            ;
            if c - 1 == 456 * (k0 + 1) {
                // a boundary is processed during this cycle
                assert((c - 1) / 456 == k0 + 1) by (nonlinear_arith)
                    requires
                        c - 1 == 456 * (k0 + 1),
                ;
                let step = spec_boundary(ra.0, ra.1);
                if k0 + 1 == 143 {
                    assert(step.1.read(0xFF44) == 144);
                } else if k0 + 1 <= 142 {
                    assert(step.1.read(0xFF44) == k0 + 2);
                } else {
                    // blanking countdown boundary
                    assert(ra.0.vblank_acc == 153 - k0);
                }
            } else {
                // the cycle is absorbed by the countdown
                assert((c - 1) / 456 == k0) by (nonlinear_arith)
                    requires
                        k0 == (c - 2) / 456,
                        456 * k0 <= c - 2 < 456 * (k0 + 1),
                        c - 1 != 456 * (k0 + 1),
                ;
                assert(ra.0.hblank_acc > 0);
            }
        }
    }
}

/// Over one frame of 70224 cycles from reset, the PPU raises VBlank
/// exactly once, and LY has returned to zero with both countdowns spent:
/// the frame repeats from the same timing state.
#[verifier::rlimit(100)]
#[verifier::spinoff_prover]
pub proof fn lemma_vblank_once_per_frame(p: PpuView, mem: MemView)
    requires
        mem.wf(),
        p.hblank_acc == 0,
        p.vblank_acc == 0,
        mem.read(0xFF44) == 0,
    ensures
        spec_ppu_run(p, mem, 70224).2 == 1,
        spec_ppu_run(p, mem, 70224).0.hblank_acc == 0,
        spec_ppu_run(p, mem, 70224).0.vblank_acc == 0,
        spec_ppu_run(p, mem, 70224).1.read(0xFF44) == 0,
{
    lemma_frame_trace(p, mem, 70224);
    assert((70224 - 1) / 456 == 153) by (nonlinear_arith);
}

/// Over one frame LY passes through every value in 0..=153: for each
/// line value there is a cycle count within the frame at which LY holds
/// it, and it holds each value on exactly one 456-cycle span, returning
/// to zero at the frame's end.
#[verifier::rlimit(100)]
#[verifier::spinoff_prover]
pub proof fn lemma_ly_covers_frame(p: PpuView, mem: MemView, v: u8)
    requires
        mem.wf(),
        p.hblank_acc == 0,
        p.vblank_acc == 0,
        mem.read(0xFF44) == 0,
        v <= 153,
    ensures
        exists|c: int|
            0 <= c <= 70224 && #[trigger] spec_ppu_run(p, mem, c).1.read(0xFF44) == v,
{
    if v == 0 {
        lemma_frame_trace(p, mem, 0);
        assert(spec_ppu_run(p, mem, 0).1.read(0xFF44) == 0);
    } else {
        let c = 456 * (v - 1) + 1;
        lemma_frame_trace(p, mem, c);
        assert((c - 1) / 456 == v - 1) by (nonlinear_arith)
            requires
                c == 456 * (v - 1) + 1,
                1 <= v <= 153,
        ;
        assert(spec_ppu_run(p, mem, c).1.read(0xFF44) == v);
    }
}

/// Within one frame LY determines the line span: two cycle counts with
/// the same LY reading lie in the same 456-cycle span, so each line
/// value occurs exactly once per frame.
#[verifier::rlimit(100)]
#[verifier::spinoff_prover]
pub proof fn lemma_ly_unique_span(p: PpuView, mem: MemView, c1: int, c2: int)
    requires
        mem.wf(),
        p.hblank_acc == 0,
        p.vblank_acc == 0,
        mem.read(0xFF44) == 0,
        1 <= c1 <= 70224,
        1 <= c2 <= 70224,
        spec_ppu_run(p, mem, c1).1.read(0xFF44) == spec_ppu_run(p, mem, c2).1.read(0xFF44),
    ensures
        (c1 - 1) / 456 == (c2 - 1) / 456,
{
    lemma_frame_trace(p, mem, c1);
    lemma_frame_trace(p, mem, c2);
    let k1 = (c1 - 1) / 456;
    let k2 = (c2 - 1) / 456;
    assert(0 <= k1 <= 153 && 0 <= k2 <= 153) by (nonlinear_arith)
        requires
            k1 == (c1 - 1) / 456,
            k2 == (c2 - 1) / 456,
            1 <= c1 <= 70224,
            1 <= c2 <= 70224,
    ;
}

/// The two-digit decimal value a packed BCD byte encodes.
pub open spec fn bcd_val(x: u8) -> int {
    x / 16 * 10 + x % 16
}

/// Whether a byte is packed BCD: both nibbles at most nine.
pub open spec fn is_bcd(x: u8) -> bool {
    x / 16 <= 9 && x % 16 <= 9
}

/// The packed BCD encoding of a two-digit value.
pub open spec fn bcd_of(v: int) -> u8 {
    (v / 10 * 16 + v % 10) as u8
}

/// The four flags written together read back as themselves.
#[verifier::rlimit(100)]
#[verifier::spinoff_prover]
proof fn lemma_flags_roundtrip(m: MachineView, z: bool, n: bool, h: bool, c: bool)
    ensures
        flag(crate::exec::sf(m, z, n, h, c), Flag::Zero) == z,
        flag(crate::exec::sf(m, z, n, h, c), Flag::AddSub) == n,
        flag(crate::exec::sf(m, z, n, h, c), Flag::HalfCarry) == h,
        flag(crate::exec::sf(m, z, n, h, c), Flag::Carry) == c,
        crate::exec::sf(m, z, n, h, c).reg.af % 256 == crate::regs::flags_byte(z, n, h, c),
{
}

/// ADD of two packed BCD bytes followed by DAA yields their BCD sum,
/// with the carry flag reporting whenever the decimal sum reached one
/// hundred.
#[verifier::rlimit(100)]
#[verifier::spinoff_prover]
pub proof fn lemma_add_daa_bcd(m: MachineView, b: u8)
    requires
        m.wf(),
        is_bcd(r8(m, RegisterName::A)),
        is_bcd(b),
    ensures
        ({
            let a = r8(m, RegisterName::A);
            let m1 = spec_execute(m, Instruction::AddImm(b)).0;
            let m2 = spec_execute(m1, Instruction::Daa).0;
            &&& r8(m2, RegisterName::A) == bcd_of((bcd_val(a) + bcd_val(b)) % 100)
            &&& flag(m2, Flag::Carry) == (bcd_val(a) + bcd_val(b) >= 100)
        }),
{
    let a = r8(m, RegisterName::A);
    let ah = a / 16;
    let al = a % 16;
    let bh = b / 16;
    let bl = b % 16;
    let hsum: int = ah + bh;
    let lsum: int = al + bl;
    assert(a + b == 16 * hsum + lsum) by (nonlinear_arith)
        requires
            ah == a / 16 && al == a % 16 && bh == b / 16 && bl == b % 16,
            hsum == ah + bh && lsum == al + bl,
    ;
    let c1 = a + b > 255;
    let s = ((a + b) % 256) as u8;
    assert(s == a + b - (if c1 { 256int } else { 0int })) by (nonlinear_arith)
        requires
            s == ((a + b) % 256) as u8,
            0 <= a + b < 512,
            c1 == (a + b > 255),
    ;
    // After the ADD: A holds s, H records a low-nibble carry, C an
    // 8-bit carry.
    let m1 = spec_execute(m, Instruction::AddImm(b)).0;
    lemma_flags_roundtrip(
        crate::exec::w8(m, RegisterName::A, s),
        s == 0,
        false,
        lsum > 15,
        c1,
    );
    assert(r8(m1, RegisterName::A) == s);
    assert(!flag(m1, Flag::AddSub));
    assert(flag(m1, Flag::HalfCarry) == (lsum > 15));
    assert(flag(m1, Flag::Carry) == c1);

    // The DAA low-adjust condition is exactly a decimal low-digit carry.
    let lc = lsum > 9;
    assert(s % 16 == lsum - (if lsum > 15 { 16int } else { 0int })) by (nonlinear_arith)
        requires
            s == 16 * hsum + lsum - (if c1 { 256int } else { 0int }),
            0 <= hsum <= 18 && 0 <= lsum <= 18,
            0 <= s < 256,
            c1 == (16 * hsum + lsum > 255),
    ;
    let c_out = c1 || s > 0x99;

    // Decimal carry propagation: tens digit with carry and low digit.
    let tens: int = hsum + (if lc { 1int } else { 0int });
    let low: int = lsum - (if lc { 10int } else { 0int });
    let v: int = bcd_val(a) + bcd_val(b);
    assert(v == 10 * hsum + lsum);
    assert(v == 10 * tens + low);
    assert(0 <= low <= 9);
    assert(0 <= tens <= 19);

    // The carry out of DAA agrees with the decimal hundred.
    assert(c_out == (v >= 100)) by (nonlinear_arith)
        requires
            c_out == (c1 || s > 0x99),
            s == 16 * hsum + lsum - (if c1 { 256int } else { 0int }),
            c1 == (16 * hsum + lsum > 255),
            v == 10 * hsum + lsum,
            0 <= hsum <= 18,
            0 <= lsum <= 18,
    ;

    let m2 = spec_execute(m1, Instruction::Daa).0;
    let high_adj: int = if c_out { 0x60 } else { 0 };
    let low_adj: int = if lc { 6int } else { 0 };
    let res = ((s + high_adj + low_adj) % 256) as u8;
    lemma_flags_roundtrip(
        crate::exec::w8(m1, RegisterName::A, res),
        res == 0,
        false,
        false,
        c_out,
    );
    assert(r8(m2, RegisterName::A) == res);
    assert(flag(m2, Flag::Carry) == c_out);

    // The adjusted byte is the packed encoding of the decimal sum.
    assert(res == 16 * (tens - (if tens >= 10 { 10int } else { 0int })) + low) by (nonlinear_arith)
        requires
            res == ((s + high_adj + low_adj) % 256) as u8,
            s == 16 * hsum + lsum - (if c1 { 256int } else { 0int }),
            high_adj == (if c_out { 0x60int } else { 0int }),
            low_adj == (if lc { 6int } else { 0int }),
            tens == hsum + (if lc { 1int } else { 0int }),
            low == lsum - (if lc { 10int } else { 0int }),
            lc == (lsum > 9),
            c_out == (tens >= 10),
            c1 ==> c_out,
            0 <= hsum <= 18,
            0 <= lsum <= 18,
            0 <= low <= 9,
            0 <= tens <= 19,
    ;
    assert((v % 100) == 10 * (tens - (if tens >= 10 { 10int } else { 0int })) + low)
        by (nonlinear_arith)
        requires
            v == 10 * tens + low,
            0 <= low <= 9,
            0 <= tens <= 19,
    ;
    assert(bcd_of(v % 100) == 16 * (tens - (if tens >= 10 { 10int } else { 0int })) + low)
        by (nonlinear_arith)
        requires
            (v % 100) == 10 * (tens - (if tens >= 10 { 10int } else { 0int })) + low,
            0 <= low <= 9,
            0 <= tens <= 19,
            bcd_of(v % 100) == ((v % 100) / 10 * 16 + (v % 100) % 10) as u8,
    ;
}

} // verus!
