//! The register file: eight 8-bit registers paired into four 16-bit views,
//! plus SP, PC and the master interrupt-enable bit. The flag register F
//! holds Zero, AddSub, HalfCarry and Carry in its high nibble; its low
//! nibble is always zero.

use vstd::prelude::*;

use crate::isa::RegisterName;

verus! {

/// High byte of a 16-bit register pair.
pub open spec fn hi(x: u16) -> u8 {
    (x / 256) as u8
}

/// Low byte of a 16-bit register pair.
pub open spec fn lo(x: u16) -> u8 {
    (x % 256) as u8
}

/// The 16-bit value with high byte `h` and low byte `l`.
pub open spec fn word(h: u8, l: u8) -> u16 {
    (h as int * 256 + l as int) as u16
}

/// A byte with its low nibble forced to zero, as every write to F is.
pub open spec fn mask_flags(v: u8) -> u8 {
    (v / 16 * 16) as u8
}

/// The flag byte built from the four flag bits: Zero at bit 7, AddSub at
/// bit 6, HalfCarry at bit 5, Carry at bit 4.
pub open spec fn flags_byte(z: bool, n: bool, h: bool, c: bool) -> u8 {
    ((if z { 128int } else { 0 }) + (if n { 64int } else { 0 }) + (if h { 32int } else { 0 })
        + (if c { 16int } else { 0 })) as u8
}

/// The four flags held in the high nibble of F.
#[derive(Copy, Clone)]
pub enum Flag {
    Zero,
    AddSub,
    HalfCarry,
    Carry,
}

/// The register file. `af`, `bc`, `de` and `hl` each hold one 16-bit pair
/// whose upper byte is the first-named 8-bit register; `ie` is the master
/// interrupt-enable bit IME.
pub struct Registers {
    pub af: u16,
    pub bc: u16,
    pub de: u16,
    pub hl: u16,
    pub sp: u16,
    pub pc: u16,
    pub ie: bool,
}

impl Registers {
    /// The low nibble of F is zero.
    pub open spec fn wf(self) -> bool {
        self.af % 16 == 0
    }

    /// The value of an 8-bit register, or None for a name that is not one.
    pub open spec fn spec_read8(self, name: RegisterName) -> Option<u8> {
        match name {
            RegisterName::A => Some(hi(self.af)),
            RegisterName::F => Some(lo(self.af)),
            RegisterName::B => Some(hi(self.bc)),
            RegisterName::C => Some(lo(self.bc)),
            RegisterName::D => Some(hi(self.de)),
            RegisterName::E => Some(lo(self.de)),
            RegisterName::H => Some(hi(self.hl)),
            RegisterName::L => Some(lo(self.hl)),
            _ => None,
        }
    }

    /// The value of a 16-bit pair, or None for a name that is not one.
    pub open spec fn spec_read16(self, name: RegisterName) -> Option<u16> {
        match name {
            RegisterName::AF => Some(self.af),
            RegisterName::BC => Some(self.bc),
            RegisterName::DE => Some(self.de),
            RegisterName::HL => Some(self.hl),
            RegisterName::SP => Some(self.sp),
            _ => None,
        }
    }

    /// The register file after an 8-bit write. A write to F keeps only the
    /// high nibble; a write to a name that is no 8-bit register changes
    /// nothing.
    pub open spec fn spec_write8(self, name: RegisterName, value: u8) -> Registers {
        match name {
            RegisterName::A => Registers { af: word(value, lo(self.af)), ..self },
            RegisterName::F => Registers { af: word(hi(self.af), mask_flags(value)), ..self },
            RegisterName::B => Registers { bc: word(value, lo(self.bc)), ..self },
            RegisterName::C => Registers { bc: word(hi(self.bc), value), ..self },
            RegisterName::D => Registers { de: word(value, lo(self.de)), ..self },
            RegisterName::E => Registers { de: word(hi(self.de), value), ..self },
            RegisterName::H => Registers { hl: word(value, lo(self.hl)), ..self },
            RegisterName::L => Registers { hl: word(hi(self.hl), value), ..self },
            _ => self,
        }
    }

    /// The register file after a 16-bit write. A write to AF keeps only the
    /// high nibble of its low byte.
    pub open spec fn spec_write16(self, name: RegisterName, value: u16) -> Registers {
        match name {
            RegisterName::AF => Registers { af: (value - value % 16) as u16, ..self },
            RegisterName::BC => Registers { bc: value, ..self },
            RegisterName::DE => Registers { de: value, ..self },
            RegisterName::HL => Registers { hl: value, ..self },
            RegisterName::SP => Registers { sp: value, ..self },
            _ => self,
        }
    }

    /// One flag bit of F.
    pub open spec fn spec_flag(self, flag: Flag) -> bool {
        match flag {
            Flag::Zero => lo(self.af) / 128 % 2 == 1,
            Flag::AddSub => lo(self.af) / 64 % 2 == 1,
            Flag::HalfCarry => lo(self.af) / 32 % 2 == 1,
            Flag::Carry => lo(self.af) / 16 % 2 == 1,
        }
    }

    /// The register file with all four flags replaced.
    pub open spec fn spec_set_flags(self, z: bool, n: bool, h: bool, c: bool) -> Registers {
        self.spec_write8(RegisterName::F, flags_byte(z, n, h, c))
    }

    /// The register file with one flag replaced.
    pub open spec fn spec_set_flag(self, flag: Flag, set: bool) -> Registers {
        match flag {
            Flag::Zero => self.spec_set_flags(
                set,
                self.spec_flag(Flag::AddSub),
                self.spec_flag(Flag::HalfCarry),
                self.spec_flag(Flag::Carry),
            ),
            Flag::AddSub => self.spec_set_flags(
                self.spec_flag(Flag::Zero),
                set,
                self.spec_flag(Flag::HalfCarry),
                self.spec_flag(Flag::Carry),
            ),
            Flag::HalfCarry => self.spec_set_flags(
                self.spec_flag(Flag::Zero),
                self.spec_flag(Flag::AddSub),
                set,
                self.spec_flag(Flag::Carry),
            ),
            Flag::Carry => self.spec_set_flags(
                self.spec_flag(Flag::Zero),
                self.spec_flag(Flag::AddSub),
                self.spec_flag(Flag::HalfCarry),
                set,
            ),
        }
    }

    /// A fresh register file: everything zero but SP, which starts at the
    /// top of high RAM, and IME off.
    pub fn new() -> (r: Registers)
        ensures
            r.af == 0 && r.bc == 0 && r.de == 0 && r.hl == 0,
            r.sp == 0xFFFE,
            r.pc == 0,
            !r.ie,
            r.wf(),
    {
        Registers { af: 0, bc: 0, de: 0, hl: 0, sp: 0xFFFE, pc: 0, ie: false }
    }

    /// Reads one 8-bit register.
    pub fn read8(&self, name: RegisterName) -> (r: Option<u8>)
        ensures
            r == self.spec_read8(name),
    {
        match name {
            RegisterName::A => Some((self.af / 256) as u8),
            RegisterName::F => Some((self.af % 256) as u8),
            RegisterName::B => Some((self.bc / 256) as u8),
            RegisterName::C => Some((self.bc % 256) as u8),
            RegisterName::D => Some((self.de / 256) as u8),
            RegisterName::E => Some((self.de % 256) as u8),
            RegisterName::H => Some((self.hl / 256) as u8),
            RegisterName::L => Some((self.hl % 256) as u8),
            _ => None,
        }
    }

    /// Reads one 16-bit pair.
    pub fn read16(&self, name: RegisterName) -> (r: Option<u16>)
        ensures
            r == self.spec_read16(name),
    {
        match name {
            RegisterName::AF => Some(self.af),
            RegisterName::BC => Some(self.bc),
            RegisterName::DE => Some(self.de),
            RegisterName::HL => Some(self.hl),
            RegisterName::SP => Some(self.sp),
            _ => None,
        }
    }

    /// Writes one 8-bit register; a write to F keeps only its high nibble.
    pub fn write8(&mut self, name: RegisterName, value: u8)
        ensures
            *final(self) == old(self).spec_write8(name, value),
            old(self).wf() ==> final(self).wf(),
    {
        match name {
            RegisterName::A => {
                self.af = value as u16 * 256 + self.af % 256;
            },
            RegisterName::F => {
                self.af = self.af / 256 * 256 + (value as u16 - value as u16 % 16);
            },
            RegisterName::B => {
                self.bc = value as u16 * 256 + self.bc % 256;
            },
            RegisterName::C => {
                self.bc = self.bc / 256 * 256 + value as u16;
            },
            RegisterName::D => {
                self.de = value as u16 * 256 + self.de % 256;
            },
            RegisterName::E => {
                self.de = self.de / 256 * 256 + value as u16;
            },
            RegisterName::H => {
                self.hl = value as u16 * 256 + self.hl % 256;
            },
            RegisterName::L => {
                self.hl = self.hl / 256 * 256 + value as u16;
            },
            _ => {},
        }
    }

    /// Writes one 16-bit pair; a write to AF keeps only the flag nibbles
    /// that exist, clearing the low nibble of F.
    pub fn write16(&mut self, name: RegisterName, value: u16)
        ensures
            *final(self) == old(self).spec_write16(name, value),
            old(self).wf() ==> final(self).wf(),
    {
        match name {
            RegisterName::AF => {
                self.af = value - value % 16;
            },
            RegisterName::BC => {
                self.bc = value;
            },
            RegisterName::DE => {
                self.de = value;
            },
            RegisterName::HL => {
                self.hl = value;
            },
            RegisterName::SP => {
                self.sp = value;
            },
            _ => {},
        }
    }

    /// Replaces all four flags at once.
    pub fn set_flags(&mut self, z: bool, n: bool, hc: bool, c: bool)
        ensures
            *final(self) == old(self).spec_set_flags(z, n, hc, c),
            final(self).wf(),
    {
        let flags: u8 = (if z { 128u8 } else { 0u8 }) + (if n { 64u8 } else { 0u8 })
            + (if hc { 32u8 } else { 0u8 }) + (if c { 16u8 } else { 0u8 });
        self.write8(RegisterName::F, flags);
    }

    /// Replaces one flag, keeping the other three.
    pub fn set_flag(&mut self, flag: Flag, set: bool)
        ensures
            *final(self) == old(self).spec_set_flag(flag, set),
            final(self).wf(),
    {
        let z = self.flag(Flag::Zero);
        let n = self.flag(Flag::AddSub);
        let hc = self.flag(Flag::HalfCarry);
        let c = self.flag(Flag::Carry);
        match flag {
            Flag::Zero => self.set_flags(set, n, hc, c),
            Flag::AddSub => self.set_flags(z, set, hc, c),
            Flag::HalfCarry => self.set_flags(z, n, set, c),
            Flag::Carry => self.set_flags(z, n, hc, set),
        }
    }

    /// Reads one flag bit of F.
    pub fn flag(&self, flag: Flag) -> (r: bool)
        ensures
            r == self.spec_flag(flag),
    {
        let flags = (self.af % 256) as u8;
        match flag {
            Flag::Zero => flags / 128 % 2 == 1,
            Flag::AddSub => flags / 64 % 2 == 1,
            Flag::HalfCarry => flags / 32 % 2 == 1,
            Flag::Carry => flags / 16 % 2 == 1,
        }
    }
}

} // verus!
