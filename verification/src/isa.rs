//! The instruction set model: register names, branch conditions, the
//! tagged instruction representation, and the static decoding tables.

use vstd::prelude::*;

verus! {

/// A register operand. The plain names denote 8-bit registers, the pair
/// names their 16-bit views, and the three `Ref` forms denote the byte in
/// memory at the address held by that pair.
#[derive(Copy, Clone, Debug, PartialEq, Eq, Structural)]
pub enum RegisterName {
    A,
    F,
    AF,
    B,
    C,
    BC,
    D,
    E,
    DE,
    H,
    L,
    HL,
    BCRef,
    DERef,
    HLRef,
    SP,
}

/// A branch condition for conditional jumps, calls and returns.
#[derive(PartialEq, Eq, Structural, Clone, Copy, Debug)]
pub enum JpCond {
    NotZero,
    Zero,
    NotCarry,
    Carry,
}

/// One decoded instruction. Operands are register names, 8-bit immediates,
/// signed 8-bit offsets, 16-bit immediates, bit indices and conditions.
#[derive(PartialEq, Eq, Structural, Clone, Copy, Debug)]
pub enum Instruction {
    /// Any illegal opcode in decoding
    IllInsn,
    /// LD <reg>,n
    Ld8Imm(RegisterName, u8),
    /// LD <reg>,<reg>
    Ld8Reg(RegisterName, RegisterName),
    /// HALT
    Halt,
    /// NOP
    Nop,
    /// LD (<addr>), SP
    StoSP(u16),
    /// STOP
    Stop,
    /// LDD (HL), A
    LddHLA,
    /// LDD A, (HL)
    LddAHL,
    /// LDI A, (HL)
    LdiAHL,
    /// LDI (HL), A
    LdiHLA,
    /// LDH (n), A: LD ($FF00 + n),A
    LdhN(u8),
    /// LDH A, (n)
    LdhA(u8),
    /// LD A, (nn)
    Lda(u16),
    /// LD (nn),A
    LdaNN(u16),
    /// LD A,(0xFF00+C)
    Ldac,
    /// LD (0xFF00+C),A
    Ldca,
    /// LD <reg>,<word>
    Ld16Imm(RegisterName, u16),
    /// LD SP,HL
    LdSPHL,
    /// LDHL SP,n
    LdHLSPn(i8),
    /// LD (nn),SP
    LdnnSP(u16),
    /// PUSH <reg>
    Push(RegisterName),
    /// POP <reg>
    Pop(RegisterName),
    /// ADD <u8>
    AddImm(u8),
    /// ADD <reg>
    AddReg(RegisterName),
    /// ADC <u8>
    AdcImm(u8),
    /// ADC <reg>
    AdcReg(RegisterName),
    /// SUB <u8>
    SubImm(u8),
    /// SUB <reg>
    SubReg(RegisterName),
    /// SBC <u8>
    SbcImm(u8),
    /// SBC <reg>
    SbcReg(RegisterName),
    /// AND <u8>
    AndImm(u8),
    /// AND <reg>
    AndReg(RegisterName),
    /// OR <u8>
    OrImm(u8),
    /// OR <reg>
    OrReg(RegisterName),
    /// XOR <u8>
    XorImm(u8),
    /// XOR <reg>
    XorReg(RegisterName),
    /// CP <u8>
    CpImm(u8),
    /// CP <reg>
    CpReg(RegisterName),
    /// INC <reg>
    Inc(RegisterName),
    /// DEC <reg>
    Dec(RegisterName),
    /// ADD HL,<reg16>
    Add16(RegisterName),
    /// ADD SP,n
    AddSP(i8),
    /// INC <reg16>
    Inc16(RegisterName),
    /// DEC <reg16>
    Dec16(RegisterName),
    /// SWAP <reg>
    Swap(RegisterName),
    /// DAA
    Daa,
    /// CPL
    Cpl,
    /// CCF
    Ccf,
    /// SCF
    Scf,
    /// DI
    Di,
    /// EI
    Ei,
    /// RLCA
    Rlca,
    /// RLA
    Rla,
    /// RRCA
    Rrca,
    /// RRA
    Rra,
    /// RLC <reg>
    Rlc(RegisterName),
    /// RL <reg>
    Rl(RegisterName),
    /// RRC <reg>
    Rrc(RegisterName),
    /// RR <reg>
    Rr(RegisterName),
    /// SLA <reg>
    Sla(RegisterName),
    /// SRA <reg>
    Sra(RegisterName),
    /// SRL <reg>
    Srl(RegisterName),
    /// BIT <u8>,<reg>
    Bit(u8, RegisterName),
    /// SET <u8>,<reg>
    SetBit(u8, RegisterName),
    /// RES <u8>,<reg>
    Res(u8, RegisterName),
    /// JP <addr>
    Jp(u16),
    /// JP <cond>,<addr>
    JpCond(JpCond, u16),
    /// JR <rel>
    Jr(i8),
    /// JR <cond>,<rel>
    JrCond(JpCond, i8),
    /// JP (HL)
    JpHL,
    /// CALL <addr>
    Call(u16),
    /// CALL <cond>,<addr>
    CallCond(JpCond, u16),
    /// RST <u8>
    Rst(u8),
    /// RET
    Ret,
    /// RET <cond>
    RetCond(JpCond),
    /// RETI
    Reti,
}

/// True of the seven plain 8-bit register slots that opcode field r selects.
pub open spec fn is_tr8(r: RegisterName) -> bool {
    r == RegisterName::A || r == RegisterName::B || r == RegisterName::C
        || r == RegisterName::D || r == RegisterName::E || r == RegisterName::H
        || r == RegisterName::L
}

/// True of the four 16-bit pairs that plain 16-bit arithmetic addresses.
pub open spec fn is_rp(r: RegisterName) -> bool {
    r == RegisterName::BC || r == RegisterName::DE || r == RegisterName::HL
        || r == RegisterName::SP
}

/// True of the four 16-bit pairs that PUSH and POP address.
pub open spec fn is_rp2(r: RegisterName) -> bool {
    r == RegisterName::BC || r == RegisterName::DE || r == RegisterName::HL
        || r == RegisterName::AF
}

/// True of the operand slots produced for 8-bit read-modify-write forms:
/// a plain register or the byte behind HL.
pub open spec fn is_slot8(r: RegisterName) -> bool {
    is_tr8(r) || r == RegisterName::HLRef
}

/// Well-formedness of an instruction: its operands are combinations that
/// the decoder can produce. The executor accepts exactly these.
pub open spec fn wf_ins(ins: Instruction) -> bool {
    match ins {
        Instruction::Ld8Imm(r, _) => is_slot8(r),
        Instruction::Ld8Reg(r1, r2) => {
            (r1 == RegisterName::HLRef && is_tr8(r2))
                || (is_tr8(r1) && (r2 == RegisterName::HLRef || r2 == RegisterName::BCRef
                    || r2 == RegisterName::DERef))
                || ((r1 == RegisterName::BCRef || r1 == RegisterName::DERef) && is_tr8(r2))
                || (is_tr8(r1) && is_tr8(r2))
        },
        Instruction::Ld16Imm(r, _) => is_rp(r),
        Instruction::Push(r) => is_rp2(r),
        Instruction::Pop(r) => is_rp2(r),
        Instruction::AddReg(r) => is_slot8(r),
        Instruction::AdcReg(r) => is_slot8(r),
        Instruction::SubReg(r) => is_slot8(r),
        Instruction::SbcReg(r) => is_slot8(r),
        Instruction::AndReg(r) => is_slot8(r),
        Instruction::OrReg(r) => is_slot8(r),
        Instruction::XorReg(r) => is_slot8(r),
        Instruction::CpReg(r) => is_slot8(r),
        Instruction::Inc(r) => is_slot8(r),
        Instruction::Dec(r) => is_slot8(r),
        Instruction::Add16(r) => is_rp(r),
        Instruction::Inc16(r) => is_rp(r),
        Instruction::Dec16(r) => is_rp(r),
        Instruction::Swap(r) => is_slot8(r),
        Instruction::Rlc(r) => is_slot8(r),
        Instruction::Rl(r) => is_slot8(r),
        Instruction::Rrc(r) => is_slot8(r),
        Instruction::Rr(r) => is_slot8(r),
        Instruction::Sla(r) => is_slot8(r),
        Instruction::Sra(r) => is_slot8(r),
        Instruction::Srl(r) => is_slot8(r),
        Instruction::Bit(b, r) => b < 8 && is_slot8(r),
        Instruction::SetBit(b, r) => b < 8 && is_slot8(r),
        Instruction::Res(b, r) => b < 8 && is_slot8(r),
        Instruction::Rst(v) => v % 8 == 0 && v < 64,
        _ => true,
    }
}

/// The slot selected by a three-bit opcode field, index 0 to 7:
/// B, C, D, E, H, L, (HL), A.
pub open spec fn spec_table_r(i: int) -> RegisterName {
    if i == 0 { RegisterName::B }
    else if i == 1 { RegisterName::C }
    else if i == 2 { RegisterName::D }
    else if i == 3 { RegisterName::E }
    else if i == 4 { RegisterName::H }
    else if i == 5 { RegisterName::L }
    else if i == 6 { RegisterName::HLRef }
    else { RegisterName::A }
}

/// The pair selected by a two-bit opcode field: BC, DE, HL, SP.
pub open spec fn spec_table_rp(i: int) -> RegisterName {
    if i == 0 { RegisterName::BC }
    else if i == 1 { RegisterName::DE }
    else if i == 2 { RegisterName::HL }
    else { RegisterName::SP }
}

/// The pair selected by a two-bit opcode field in stack forms: BC, DE, HL, AF.
pub open spec fn spec_table_rp2(i: int) -> RegisterName {
    if i == 0 { RegisterName::BC }
    else if i == 1 { RegisterName::DE }
    else if i == 2 { RegisterName::HL }
    else { RegisterName::AF }
}

/// The condition selected by a two-bit opcode field: NZ, Z, NC, C.
pub open spec fn spec_table_cc(i: int) -> JpCond {
    if i == 0 { JpCond::NotZero }
    else if i == 1 { JpCond::Zero }
    else if i == 2 { JpCond::NotCarry }
    else { JpCond::Carry }
}

/// Looks up the 8-bit register slot table.
pub fn table_r(idx: u8) -> (r: RegisterName)
    requires
        idx < 8,
    ensures
        r == spec_table_r(idx as int),
        is_slot8(r),
{
    if idx == 0 { RegisterName::B }
    else if idx == 1 { RegisterName::C }
    else if idx == 2 { RegisterName::D }
    else if idx == 3 { RegisterName::E }
    else if idx == 4 { RegisterName::H }
    else if idx == 5 { RegisterName::L }
    else if idx == 6 { RegisterName::HLRef }
    else { RegisterName::A }
}

/// Looks up the 16-bit pair table for arithmetic and load forms.
pub fn table_rp(idx: u8) -> (r: RegisterName)
    requires
        idx < 4,
    ensures
        r == spec_table_rp(idx as int),
        is_rp(r),
{
    if idx == 0 { RegisterName::BC }
    else if idx == 1 { RegisterName::DE }
    else if idx == 2 { RegisterName::HL }
    else { RegisterName::SP }
}

/// Looks up the 16-bit pair table for stack forms.
pub fn table_rp2(idx: u8) -> (r: RegisterName)
    requires
        idx < 4,
    ensures
        r == spec_table_rp2(idx as int),
        is_rp2(r),
{
    if idx == 0 { RegisterName::BC }
    else if idx == 1 { RegisterName::DE }
    else if idx == 2 { RegisterName::HL }
    else { RegisterName::AF }
}

/// Looks up the branch condition table.
pub fn table_cc(idx: u8) -> (c: JpCond)
    requires
        idx < 4,
    ensures
        c == spec_table_cc(idx as int),
{
    if idx == 0 { JpCond::NotZero }
    else if idx == 1 { JpCond::Zero }
    else if idx == 2 { JpCond::NotCarry }
    else { JpCond::Carry }
}

/// The prefixed rotate and shift instruction selected by opcode field y.
pub open spec fn spec_rot(idx: int, reg: RegisterName) -> Instruction {
    if idx == 0 { Instruction::Rlc(reg) }
    else if idx == 1 { Instruction::Rrc(reg) }
    else if idx == 2 { Instruction::Rl(reg) }
    else if idx == 3 { Instruction::Rr(reg) }
    else if idx == 4 { Instruction::Sla(reg) }
    else if idx == 5 { Instruction::Sra(reg) }
    else if idx == 7 { Instruction::Srl(reg) }
    else { Instruction::IllInsn }
}

/// Builds the prefixed rotate or shift selected by opcode field y.
pub fn rot(idx: usize, reg: RegisterName) -> (r: Instruction)
    ensures
        r == spec_rot(idx as int, reg),
{
    if idx == 0 { Instruction::Rlc(reg) }
    else if idx == 1 { Instruction::Rrc(reg) }
    else if idx == 2 { Instruction::Rl(reg) }
    else if idx == 3 { Instruction::Rr(reg) }
    else if idx == 4 { Instruction::Sla(reg) }
    else if idx == 5 { Instruction::Sra(reg) }
    else if idx == 7 { Instruction::Srl(reg) }
    else { Instruction::IllInsn }
}

/// The register-form ALU instruction selected by opcode field y.
pub open spec fn spec_alu_reg(idx: int, reg: RegisterName) -> Instruction {
    if idx == 0 { Instruction::AddReg(reg) }
    else if idx == 1 { Instruction::AdcReg(reg) }
    else if idx == 2 { Instruction::SubReg(reg) }
    else if idx == 3 { Instruction::SbcReg(reg) }
    else if idx == 4 { Instruction::AndReg(reg) }
    else if idx == 5 { Instruction::XorReg(reg) }
    else if idx == 6 { Instruction::OrReg(reg) }
    else if idx == 7 { Instruction::CpReg(reg) }
    else { Instruction::IllInsn }
}

/// Builds the register-form ALU instruction selected by opcode field y.
pub fn alu_reg(idx: usize, reg: RegisterName) -> (r: Instruction)
    ensures
        r == spec_alu_reg(idx as int, reg),
{
    if idx == 0 { Instruction::AddReg(reg) }
    else if idx == 1 { Instruction::AdcReg(reg) }
    else if idx == 2 { Instruction::SubReg(reg) }
    else if idx == 3 { Instruction::SbcReg(reg) }
    else if idx == 4 { Instruction::AndReg(reg) }
    else if idx == 5 { Instruction::XorReg(reg) }
    else if idx == 6 { Instruction::OrReg(reg) }
    else if idx == 7 { Instruction::CpReg(reg) }
    else { Instruction::IllInsn }
}

/// The immediate-form ALU instruction selected by opcode field y.
pub open spec fn spec_alu_imm(idx: int, oper: u8) -> Instruction {
    if idx == 0 { Instruction::AddImm(oper) }
    else if idx == 1 { Instruction::AdcImm(oper) }
    else if idx == 2 { Instruction::SubImm(oper) }
    else if idx == 3 { Instruction::SbcImm(oper) }
    else if idx == 4 { Instruction::AndImm(oper) }
    else if idx == 5 { Instruction::XorImm(oper) }
    else if idx == 6 { Instruction::OrImm(oper) }
    else if idx == 7 { Instruction::CpImm(oper) }
    else { Instruction::IllInsn }
}

/// Builds the immediate-form ALU instruction selected by opcode field y.
pub fn alu_imm(idx: usize, oper: u8) -> (r: Instruction)
    ensures
        r == spec_alu_imm(idx as int, oper),
{
    if idx == 0 { Instruction::AddImm(oper) }
    else if idx == 1 { Instruction::AdcImm(oper) }
    else if idx == 2 { Instruction::SubImm(oper) }
    else if idx == 3 { Instruction::SbcImm(oper) }
    else if idx == 4 { Instruction::AndImm(oper) }
    else if idx == 5 { Instruction::XorImm(oper) }
    else if idx == 6 { Instruction::OrImm(oper) }
    else if idx == 7 { Instruction::CpImm(oper) }
    else { Instruction::IllInsn }
}

} // verus!
