//! The decoder: reads opcode bytes at PC, splits them into the x, y, z,
//! p, q fields, and produces one Instruction, advancing PC past every
//! consumed byte. Opcode 0xCB prefixes a second table of rotates, shifts
//! and bit operations.

use vstd::prelude::*;

use crate::cpu::CPU;
use crate::isa::{
    alu_imm, alu_reg, rot, spec_alu_imm, spec_alu_reg, spec_rot, spec_table_cc, spec_table_r,
    spec_table_rp, spec_table_rp2, table_cc, table_r, table_rp, table_rp2, wf_ins, Instruction,
    RegisterName,
};
use crate::mem::MemView;
use crate::regs::Registers;

verus! {

/// PC advanced by `k` bytes, wrapping around the address space.
pub open spec fn wrap_pc(pc: u16, k: int) -> u16 {
    ((pc + k) % 0x10000) as u16
}

/// The signed value of an offset byte.
pub open spec fn as_i8(v: u8) -> i8 {
    if v < 128 {
        v as i8
    } else {
        (v - 256) as i8
    }
}

/// What decoding the byte 0xCB's second opcode byte at `pc` yields, and
/// the PC after it.
pub open spec fn spec_decode_cb(m: MemView, pc: u16) -> (Instruction, u16) {
    let ins0 = m.read(pc);
    let pc1 = wrap_pc(pc, 1);
    let x = ins0 / 64;
    let y = ins0 / 8 % 8;
    let z = ins0 % 8;
    if x == 0 {
        (spec_rot(y as int, spec_table_r(z as int)), pc1)
    } else if x == 1 {
        (Instruction::Bit(y, spec_table_r(z as int)), pc1)
    } else if x == 2 {
        (Instruction::Res(y, spec_table_r(z as int)), pc1)
    } else {
        (Instruction::SetBit(y, spec_table_r(z as int)), pc1)
    }
}

/// The instructions with opcode field x equal to zero, and the PC after
/// them.
pub open spec fn spec_decode_x0(m: MemView, pc: u16) -> (Instruction, u16) {
    let ins0 = m.read(pc);
    let pc1 = wrap_pc(pc, 1);
    let pc2 = wrap_pc(pc, 2);
    let pc3 = wrap_pc(pc, 3);
    let y = ins0 / 8 % 8;
    let z = ins0 % 8;
    let p = y / 2;
    let q = y % 2;
    {
        if z == 0 {
            if y == 0 {
                (Instruction::Nop, pc1)
            } else if y == 1 {
                (Instruction::StoSP(m.read16(pc1)), pc3)
            } else if y == 2 {
                (Instruction::Stop, pc2)
            } else if y == 3 {
                (Instruction::Jr(as_i8(m.read(pc1))), pc2)
            } else {
                (Instruction::JrCond(spec_table_cc(y - 4), as_i8(m.read(pc1))), pc2)
            }
        } else if z == 1 {
            if q == 0 {
                (Instruction::Ld16Imm(spec_table_rp(p as int), m.read16(pc1)), pc3)
            } else {
                (Instruction::Add16(spec_table_rp(p as int)), pc1)
            }
        } else if z == 2 {
            if q == 0 {
                if p == 0 {
                    (Instruction::Ld8Reg(RegisterName::BCRef, RegisterName::A), pc1)
                } else if p == 1 {
                    (Instruction::Ld8Reg(RegisterName::DERef, RegisterName::A), pc1)
                } else if p == 2 {
                    (Instruction::LdiHLA, pc1)
                } else {
                    (Instruction::LddHLA, pc1)
                }
            } else {
                if p == 0 {
                    (Instruction::Ld8Reg(RegisterName::A, RegisterName::BCRef), pc1)
                } else if p == 1 {
                    (Instruction::Ld8Reg(RegisterName::A, RegisterName::DERef), pc1)
                } else if p == 2 {
                    (Instruction::LdiAHL, pc1)
                } else {
                    (Instruction::LddAHL, pc1)
                }
            }
        } else if z == 3 {
            if q == 0 {
                (Instruction::Inc16(spec_table_rp(p as int)), pc1)
            } else {
                (Instruction::Dec16(spec_table_rp(p as int)), pc1)
            }
        } else if z == 4 {
            (Instruction::Inc(spec_table_r(y as int)), pc1)
        } else if z == 5 {
            (Instruction::Dec(spec_table_r(y as int)), pc1)
        } else if z == 6 {
            (Instruction::Ld8Imm(spec_table_r(y as int), m.read(pc1)), pc2)
        } else {
            if y == 0 {
                (Instruction::Rlca, pc1)
            } else if y == 1 {
                (Instruction::Rrca, pc1)
            } else if y == 2 {
                (Instruction::Rla, pc1)
            } else if y == 3 {
                (Instruction::Rra, pc1)
            } else if y == 4 {
                (Instruction::Daa, pc1)
            } else if y == 5 {
                (Instruction::Cpl, pc1)
            } else if y == 6 {
                (Instruction::Scf, pc1)
            } else {
                (Instruction::Ccf, pc1)
            }
        }
    }
}

/// The instructions with opcode field x equal to three, and the PC after
/// them.
pub open spec fn spec_decode_x3(m: MemView, pc: u16) -> (Instruction, u16) {
    let ins0 = m.read(pc);
    let pc1 = wrap_pc(pc, 1);
    let pc2 = wrap_pc(pc, 2);
    let pc3 = wrap_pc(pc, 3);
    let y = ins0 / 8 % 8;
    let z = ins0 % 8;
    let p = y / 2;
    let q = y % 2;
    {
        if z == 0 {
            if y == 4 {
                (Instruction::LdhN(m.read(pc1)), pc2)
            } else if y == 5 {
                (Instruction::AddSP(as_i8(m.read(pc1))), pc2)
            } else if y == 6 {
                (Instruction::LdhA(m.read(pc1)), pc2)
            } else if y == 7 {
                (Instruction::LdHLSPn(as_i8(m.read(pc1))), pc2)
            } else {
                (Instruction::RetCond(spec_table_cc(y as int)), pc1)
            }
        } else if z == 1 {
            if q == 0 {
                (Instruction::Pop(spec_table_rp2(p as int)), pc1)
            } else {
                if p == 0 {
                    (Instruction::Ret, pc1)
                } else if p == 1 {
                    (Instruction::Reti, pc1)
                } else if p == 2 {
                    (Instruction::JpHL, pc1)
                } else {
                    (Instruction::LdSPHL, pc1)
                }
            }
        } else if z == 2 {
            if y == 4 {
                (Instruction::Ldca, pc1)
            } else if y == 5 {
                (Instruction::LdaNN(m.read16(pc1)), pc3)
            } else if y == 6 {
                (Instruction::Ldac, pc1)
            } else if y == 7 {
                (Instruction::Lda(m.read16(pc1)), pc3)
            } else {
                (Instruction::JpCond(spec_table_cc(y as int), m.read16(pc1)), pc3)
            }
        } else if z == 3 {
            if y == 0 {
                (Instruction::Jp(m.read16(pc1)), pc3)
            } else if y == 1 {
                spec_decode_cb(m, pc1)
            } else if y == 6 {
                (Instruction::Di, pc1)
            } else if y == 7 {
                (Instruction::Ei, pc1)
            } else {
                (Instruction::IllInsn, pc1)
            }
        } else if z == 4 {
            if y > 3 {
                (Instruction::IllInsn, pc1)
            } else {
                (Instruction::CallCond(spec_table_cc(y as int), m.read16(pc1)), pc3)
            }
        } else if z == 5 {
            if q == 0 {
                (Instruction::Push(spec_table_rp2(p as int)), pc1)
            } else if p == 0 {
                (Instruction::Call(m.read16(pc1)), pc3)
            } else {
                (Instruction::IllInsn, pc1)
            }
        } else if z == 6 {
            (spec_alu_imm(y as int, m.read(pc1)), pc2)
        } else {
            (Instruction::Rst((y * 8) as u8), pc1)
        }
    }
}

/// What decoding the opcode stream at `pc` yields, and the PC one past
/// the consumed bytes. Decoding is a pure function of the visible memory
/// and PC.
pub open spec fn spec_decode(m: MemView, pc: u16) -> (Instruction, u16) {
    let ins0 = m.read(pc);
    let pc1 = wrap_pc(pc, 1);
    let x = ins0 / 64;
    let y = ins0 / 8 % 8;
    let z = ins0 % 8;
    if x == 0 {
        spec_decode_x0(m, pc)
    } else if x == 1 {
        if z == 6 && y == 6 {
            (Instruction::Halt, pc1)
        } else {
            (Instruction::Ld8Reg(spec_table_r(y as int), spec_table_r(z as int)), pc1)
        }
    } else if x == 2 {
        (spec_alu_reg(y as int, spec_table_r(z as int)), pc1)
    } else {
        spec_decode_x3(m, pc)
    }
}


/// The operand-inclusive length in bytes of the instruction at `pc`: one
/// for the plain single-byte forms, two for those with an 8-bit operand
/// or a 0xCB prefix, three for those with a 16-bit operand.
pub open spec fn spec_ins_len(m: MemView, pc: u16) -> int {
    let ins0 = m.read(pc);
    let x = ins0 / 64;
    let y = ins0 / 8 % 8;
    let z = ins0 % 8;
    let p = y / 2;
    let q = y % 2;
    if x == 0 {
        if z == 0 {
            if y == 0 { 1 } else if y == 1 { 3 } else { 2 }
        } else if z == 1 {
            if q == 0 { 3 } else { 1 }
        } else if z == 6 {
            2
        } else {
            1
        }
    } else if x == 1 || x == 2 {
        1
    } else {
        if z == 0 {
            if y >= 4 { 2 } else { 1 }
        } else if z == 2 {
            if y == 4 || y == 6 { 1 } else { 3 }
        } else if z == 3 {
            if y == 0 { 3 } else if y == 1 { 2 } else { 1 }
        } else if z == 4 {
            if y > 3 { 1 } else { 3 }
        } else if z == 5 {
            if q == 0 { 1 } else if p == 0 { 3 } else { 1 }
        } else if z == 6 {
            2
        } else {
            1
        }
    }
}

impl CPU {
    /// Reads the operand byte at PC and advances PC past it.
    fn fetch8(&mut self) -> (b: u8)
        requires
            old(self).wf(),
        ensures
            *final(self) == (CPU {
                reg: Registers { pc: wrap_pc(old(self).reg.pc, 1), ..old(self).reg },
                ..*old(self)
            }),
            final(self).wf(),
            b == old(self)@.m.mem.read(old(self).reg.pc),
    {
        let b: u8 = self.mem.get_addr(self.reg.pc);
        self.reg.pc = self.reg.pc.wrapping_add(1);
        b
    }

    /// Reads the little-endian operand word at PC and advances PC past it.
    fn fetch16(&mut self) -> (w: u16)
        requires
            old(self).wf(),
        ensures
            *final(self) == (CPU {
                reg: Registers { pc: wrap_pc(old(self).reg.pc, 2), ..old(self).reg },
                ..*old(self)
            }),
            final(self).wf(),
            w == old(self)@.m.mem.read16(old(self).reg.pc),
    {
        let w: u16 = self.mem.get_u16_at(self.reg.pc);
        self.reg.pc = self.reg.pc.wrapping_add(2);
        w
    }

    /// Decodes the instruction at PC, advancing PC one byte past the
    /// consumed opcode and operands. Decoding reads memory only; the
    /// result and the new PC are a pure function of the pre state, so two
    /// decodes of the same state agree.
    /// Decodes the instruction at PC, advancing PC one byte past the
    /// consumed opcode and operands.
    pub fn decode(&mut self) -> (ins: Instruction)
        requires
            old(self).wf(),
        ensures
            final(self).wf(),
            ins == spec_decode(old(self)@.m.mem, old(self).reg.pc).0,
            *final(self) == (CPU {
                reg: Registers {
                    pc: spec_decode(old(self)@.m.mem, old(self).reg.pc).1,
                    ..old(self).reg
                },
                ..*old(self)
            }),
            wf_ins(ins),
    {
        let peek: u8 = self.mem.get_addr(self.reg.pc);
        let x: u8 = peek / 64;
        if x == 0 {
            self.decode_x0()
        } else if x == 1 {
            let ins0: u8 = self.fetch8();
            let y: u8 = ins0 / 8 % 8;
            let z: u8 = ins0 % 8;
            if z == 6 && y == 6 {
                Instruction::Halt
            } else {
                Instruction::Ld8Reg(table_r(y), table_r(z))
            }
        } else if x == 2 {
            let ins0: u8 = self.fetch8();
            let y: u8 = ins0 / 8 % 8;
            let z: u8 = ins0 % 8;
            alu_reg(y as usize, table_r(z))
        } else {
            self.decode_x3()
        }
    }

    /// Decodes the instructions with opcode field x equal to zero.
    #[verifier::rlimit(100)]
    #[verifier::spinoff_prover]
    fn decode_x0(&mut self) -> (ins: Instruction)
        requires
            old(self).wf(),
            old(self)@.m.mem.read(old(self).reg.pc) / 64 == 0,
        ensures
            final(self).wf(),
            ins == spec_decode_x0(old(self)@.m.mem, old(self).reg.pc).0,
            *final(self) == (CPU {
                reg: Registers {
                    pc: spec_decode_x0(old(self)@.m.mem, old(self).reg.pc).1,
                    ..old(self).reg
                },
                ..*old(self)
            }),
            wf_ins(ins),
    {
        let ins0: u8 = self.fetch8();
        let y: u8 = ins0 / 8 % 8;
        let z: u8 = ins0 % 8;
        let p: u8 = y / 2;
        let q: u8 = y % 2;
        {
            if z == 0 {
                if y == 0 {
                    Instruction::Nop
                } else if y == 1 {
                    let word: u16 = self.fetch16();
                    Instruction::StoSP(word)
                } else if y == 2 {
                    let _pad: u8 = self.fetch8();
                    Instruction::Stop
                } else if y == 3 {
                    let offset: u8 = self.fetch8();
                    Instruction::Jr(to_signed(offset))
                } else {
                    let rel: u8 = self.fetch8();
                    Instruction::JrCond(table_cc(y - 4), to_signed(rel))
                }
            } else if z == 1 {
                if q == 0 {
                    let word: u16 = self.fetch16();
                    Instruction::Ld16Imm(table_rp(p), word)
                } else {
                    Instruction::Add16(table_rp(p))
                }
            } else if z == 2 {
                if q == 0 {
                    if p == 0 {
                        Instruction::Ld8Reg(RegisterName::BCRef, RegisterName::A)
                    } else if p == 1 {
                        Instruction::Ld8Reg(RegisterName::DERef, RegisterName::A)
                    } else if p == 2 {
                        Instruction::LdiHLA
                    } else {
                        Instruction::LddHLA
                    }
                } else {
                    if p == 0 {
                        Instruction::Ld8Reg(RegisterName::A, RegisterName::BCRef)
                    } else if p == 1 {
                        Instruction::Ld8Reg(RegisterName::A, RegisterName::DERef)
                    } else if p == 2 {
                        Instruction::LdiAHL
                    } else {
                        Instruction::LddAHL
                    }
                }
            } else if z == 3 {
                if q == 0 {
                    Instruction::Inc16(table_rp(p))
                } else {
                    Instruction::Dec16(table_rp(p))
                }
            } else if z == 4 {
                Instruction::Inc(table_r(y))
            } else if z == 5 {
                Instruction::Dec(table_r(y))
            } else if z == 6 {
                let oper: u8 = self.fetch8();
                Instruction::Ld8Imm(table_r(y), oper)
            } else {
                if y == 0 {
                    Instruction::Rlca
                } else if y == 1 {
                    Instruction::Rrca
                } else if y == 2 {
                    Instruction::Rla
                } else if y == 3 {
                    Instruction::Rra
                } else if y == 4 {
                    Instruction::Daa
                } else if y == 5 {
                    Instruction::Cpl
                } else if y == 6 {
                    Instruction::Scf
                } else {
                    Instruction::Ccf
                }
            }
        }
    }

    /// Decodes the instructions with opcode field x equal to three.
    #[verifier::rlimit(100)]
    #[verifier::spinoff_prover]
    fn decode_x3(&mut self) -> (ins: Instruction)
        requires
            old(self).wf(),
            old(self)@.m.mem.read(old(self).reg.pc) / 64 == 3,
        ensures
            final(self).wf(),
            ins == spec_decode_x3(old(self)@.m.mem, old(self).reg.pc).0,
            *final(self) == (CPU {
                reg: Registers {
                    pc: spec_decode_x3(old(self)@.m.mem, old(self).reg.pc).1,
                    ..old(self).reg
                },
                ..*old(self)
            }),
            wf_ins(ins),
    {
        let ins0: u8 = self.fetch8();
        let y: u8 = ins0 / 8 % 8;
        let z: u8 = ins0 % 8;
        let p: u8 = y / 2;
        let q: u8 = y % 2;
        {
            if z == 0 {
                if y == 4 {
                    let arg: u8 = self.fetch8();
                    Instruction::LdhN(arg)
                } else if y == 5 {
                    let arg: u8 = self.fetch8();
                    Instruction::AddSP(to_signed(arg))
                } else if y == 6 {
                    let arg: u8 = self.fetch8();
                    Instruction::LdhA(arg)
                } else if y == 7 {
                    let arg: u8 = self.fetch8();
                    Instruction::LdHLSPn(to_signed(arg))
                } else {
                    Instruction::RetCond(table_cc(y))
                }
            } else if z == 1 {
                if q == 0 {
                    Instruction::Pop(table_rp2(p))
                } else {
                    if p == 0 {
                        Instruction::Ret
                    } else if p == 1 {
                        Instruction::Reti
                    } else if p == 2 {
                        Instruction::JpHL
                    } else {
                        Instruction::LdSPHL
                    }
                }
            } else if z == 2 {
                if y == 4 {
                    Instruction::Ldca
                } else if y == 5 {
                    let word: u16 = self.fetch16();
                    Instruction::LdaNN(word)
                } else if y == 6 {
                    Instruction::Ldac
                } else if y == 7 {
                    let word: u16 = self.fetch16();
                    Instruction::Lda(word)
                } else {
                    let addr: u16 = self.fetch16();
                    Instruction::JpCond(table_cc(y), addr)
                }
            } else if z == 3 {
                if y == 0 {
                    let addr: u16 = self.fetch16();
                    Instruction::Jp(addr)
                } else if y == 1 {
                    self.decode_cb()
                } else if y == 6 {
                    Instruction::Di
                } else if y == 7 {
                    Instruction::Ei
                } else {
                    Instruction::IllInsn
                }
            } else if z == 4 {
                if y > 3 {
                    return Instruction::IllInsn;
                }
                let addr: u16 = self.fetch16();
                Instruction::CallCond(table_cc(y), addr)
            } else if z == 5 {
                if q == 0 {
                    Instruction::Push(table_rp2(p))
                } else if p == 0 {
                    let addr: u16 = self.fetch16();
                    Instruction::Call(addr)
                } else {
                    Instruction::IllInsn
                }
            } else if z == 6 {
                let oper: u8 = self.fetch8();
                alu_imm(y as usize, oper)
            } else {
                Instruction::Rst(y * 8)
            }
        }
    }

    /// Decodes the second byte of a 0xCB-prefixed instruction.
    fn decode_cb(&mut self) -> (ins: Instruction)
        requires
            old(self).wf(),
        ensures
            final(self).wf(),
            ins == spec_decode_cb(old(self)@.m.mem, old(self).reg.pc).0,
            *final(self) == (CPU {
                reg: Registers {
                    pc: spec_decode_cb(old(self)@.m.mem, old(self).reg.pc).1,
                    ..old(self).reg
                },
                ..*old(self)
            }),
            wf_ins(ins),
    {
        let ins0: u8 = self.fetch8();
        let x: u8 = ins0 / 64;
        let y: u8 = ins0 / 8 % 8;
        let z: u8 = ins0 % 8;

        if x == 0 {
            rot(y as usize, table_r(z))
        } else if x == 1 {
            Instruction::Bit(y, table_r(z))
        } else if x == 2 {
            Instruction::Res(y, table_r(z))
        } else {
            Instruction::SetBit(y, table_r(z))
        }
    }
}

/// Reinterprets an operand byte as its signed value.
fn to_signed(v: u8) -> (r: i8)
    ensures
        r == as_i8(v),
{
    if v < 128 {
        v as i8
    } else {
        let d: i16 = v as i16 - 256;
        d as i8
    }
}

} // verus!
