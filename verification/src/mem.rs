//! The flat 64 KiB memory map with the boot-ROM overlay: while the boot
//! image is paged in, reads below 0x100 are satisfied from it; writes
//! always hit the main array.

use vstd::prelude::*;

verus! {

/// Size of the byte-addressable memory.
pub const MEM_SIZE: usize = 0x10000;

/// Size of the boot image overlaid on the low addresses at power-on.
pub const BOOT_SIZE: usize = 256;

/// The memory-mapped registers, by symbolic name. `WavePatternRAM(n)` is
/// the n-th of the sixteen wave RAM bytes.
#[derive(Copy, Clone, PartialEq, Eq, Structural, Debug)]
pub enum MemoryRegister {
    P1,
    SB,
    SC,
    DIV,
    TIMA,
    TMA,
    TAC,
    IF,
    NR10,
    NR11,
    NR12,
    NR13,
    NR14,
    NR21,
    NR22,
    NR23,
    NR24,
    NR30,
    NR31,
    NR32,
    NR33,
    NR34,
    NR41,
    NR42,
    NR43,
    NR44,
    NR50,
    NR51,
    NR52,
    WavePatternRAM(u8),
    LCDC,
    STAT,
    SCY,
    SCX,
    LY,
    LYC,
    DMA,
    BGP,
    OBP0,
    OBP1,
    WY,
    WX,
    IE,
}

/// A wave RAM name stays inside the sixteen-byte wave RAM window.
pub open spec fn wf_mem_register(r: MemoryRegister) -> bool {
    match r {
        MemoryRegister::WavePatternRAM(offset) => offset < 16,
        _ => true,
    }
}

/// The fixed address of a memory-mapped register.
pub open spec fn spec_to_addr(r: MemoryRegister) -> u16 {
    match r {
        MemoryRegister::P1 => 0xFF00,
        MemoryRegister::SB => 0xFF01,
        MemoryRegister::SC => 0xFF02,
        MemoryRegister::DIV => 0xFF04,
        MemoryRegister::TIMA => 0xFF05,
        MemoryRegister::TMA => 0xFF06,
        MemoryRegister::TAC => 0xFF07,
        MemoryRegister::IF => 0xFF0F,
        MemoryRegister::NR10 => 0xFF10,
        MemoryRegister::NR11 => 0xFF11,
        MemoryRegister::NR12 => 0xFF12,
        MemoryRegister::NR13 => 0xFF13,
        MemoryRegister::NR14 => 0xFF14,
        MemoryRegister::NR21 => 0xFF16,
        MemoryRegister::NR22 => 0xFF17,
        MemoryRegister::NR23 => 0xFF18,
        MemoryRegister::NR24 => 0xFF19,
        MemoryRegister::NR30 => 0xFF1A,
        MemoryRegister::NR31 => 0xFF1B,
        MemoryRegister::NR32 => 0xFF1C,
        MemoryRegister::NR33 => 0xFF1D,
        MemoryRegister::NR34 => 0xFF1E,
        MemoryRegister::NR41 => 0xFF20,
        MemoryRegister::NR42 => 0xFF21,
        MemoryRegister::NR43 => 0xFF22,
        MemoryRegister::NR44 => 0xFF23,
        MemoryRegister::NR50 => 0xFF24,
        MemoryRegister::NR51 => 0xFF25,
        MemoryRegister::NR52 => 0xFF26,
        MemoryRegister::WavePatternRAM(offset) => (0xFF30 + offset as int) as u16,
        MemoryRegister::LCDC => 0xFF40,
        MemoryRegister::STAT => 0xFF41,
        MemoryRegister::SCY => 0xFF42,
        MemoryRegister::SCX => 0xFF43,
        MemoryRegister::LY => 0xFF44,
        MemoryRegister::LYC => 0xFF45,
        MemoryRegister::DMA => 0xFF46,
        MemoryRegister::BGP => 0xFF47,
        MemoryRegister::OBP0 => 0xFF48,
        MemoryRegister::OBP1 => 0xFF49,
        MemoryRegister::WY => 0xFF4A,
        MemoryRegister::WX => 0xFF4B,
        MemoryRegister::IE => 0xFFFF,
    }
}

impl MemoryRegister {
    /// The fixed address behind a symbolic register name.
    pub fn to_addr(self) -> (addr: u16)
        requires
            wf_mem_register(self),
        ensures
            addr == spec_to_addr(self),
    {
        match self {
            MemoryRegister::P1 => 0xFF00,
            MemoryRegister::SB => 0xFF01,
            MemoryRegister::SC => 0xFF02,
            MemoryRegister::DIV => 0xFF04,
            MemoryRegister::TIMA => 0xFF05,
            MemoryRegister::TMA => 0xFF06,
            MemoryRegister::TAC => 0xFF07,
            MemoryRegister::IF => 0xFF0F,
            MemoryRegister::NR10 => 0xFF10,
            MemoryRegister::NR11 => 0xFF11,
            MemoryRegister::NR12 => 0xFF12,
            MemoryRegister::NR13 => 0xFF13,
            MemoryRegister::NR14 => 0xFF14,
            MemoryRegister::NR21 => 0xFF16,
            MemoryRegister::NR22 => 0xFF17,
            MemoryRegister::NR23 => 0xFF18,
            MemoryRegister::NR24 => 0xFF19,
            MemoryRegister::NR30 => 0xFF1A,
            MemoryRegister::NR31 => 0xFF1B,
            MemoryRegister::NR32 => 0xFF1C,
            MemoryRegister::NR33 => 0xFF1D,
            MemoryRegister::NR34 => 0xFF1E,
            MemoryRegister::NR41 => 0xFF20,
            MemoryRegister::NR42 => 0xFF21,
            MemoryRegister::NR43 => 0xFF22,
            MemoryRegister::NR44 => 0xFF23,
            MemoryRegister::NR50 => 0xFF24,
            MemoryRegister::NR51 => 0xFF25,
            MemoryRegister::NR52 => 0xFF26,
            MemoryRegister::WavePatternRAM(offset) => 0xFF30 + offset as u16,
            MemoryRegister::LCDC => 0xFF40,
            MemoryRegister::STAT => 0xFF41,
            MemoryRegister::SCY => 0xFF42,
            MemoryRegister::SCX => 0xFF43,
            MemoryRegister::LY => 0xFF44,
            MemoryRegister::LYC => 0xFF45,
            MemoryRegister::DMA => 0xFF46,
            MemoryRegister::BGP => 0xFF47,
            MemoryRegister::OBP0 => 0xFF48,
            MemoryRegister::OBP1 => 0xFF49,
            MemoryRegister::WY => 0xFF4A,
            MemoryRegister::WX => 0xFF4B,
            MemoryRegister::IE => 0xFFFF,
        }
    }
}

/// The mathematical view of the memory: the main array, the boot image,
/// and whether the boot image is still paged in.
#[verifier::ext_equal]
pub struct MemView {
    pub bytes: Seq<u8>,
    pub boot: Seq<u8>,
    pub boot_paged: bool,
}

impl MemView {
    /// The two arrays have their fixed sizes.
    pub open spec fn wf(self) -> bool {
        self.bytes.len() == MEM_SIZE && self.boot.len() == BOOT_SIZE
    }

    /// The byte visible at an address: from the boot image below 0x100
    /// while it is paged in, else from the main array.
    pub open spec fn read(self, addr: u16) -> u8 {
        if self.boot_paged && addr < 0x100 {
            self.boot[addr as int]
        } else {
            self.bytes[addr as int]
        }
    }

    /// The 16-bit little-endian value at an address; the second byte wraps
    /// around the top of the address space.
    pub open spec fn read16(self, addr: u16) -> u16 {
        crate::regs::word(self.read(((addr + 1) % 0x10000) as u16), self.read(addr))
    }

    /// The memory after one byte write, which always hits the main array.
    pub open spec fn write(self, addr: u16, value: u8) -> MemView {
        MemView { bytes: self.bytes.update(addr as int, value), ..self }
    }

    /// The byte visible at a memory-mapped register.
    pub open spec fn reg(self, r: MemoryRegister) -> u8 {
        self.read(spec_to_addr(r))
    }
}

/// The 64 KiB byte-addressable store with the boot-ROM overlay.
pub struct Memory {
    pub buffer: Vec<u8>,
    pub boot: Vec<u8>,
    pub bootrom_paged: bool,
}

impl View for Memory {
    type V = MemView;

    open spec fn view(&self) -> MemView {
        MemView { bytes: self.buffer@, boot: self.boot@, boot_paged: self.bootrom_paged }
    }
}

impl Memory {
    /// The backing arrays have their fixed sizes.
    pub open spec fn wf(self) -> bool {
        self@.wf()
    }

    /// Fresh memory: all zero, with an all-zero boot image paged in.
    pub fn new() -> (r: Memory)
        ensures
            r.wf(),
            r@.boot_paged,
            forall|a: u16| r@.read(a) == 0,
    {
        let mut buffer: Vec<u8> = Vec::new();
        let mut i: usize = 0;
        while i < MEM_SIZE
            invariant
                i <= MEM_SIZE,
                buffer.len() == i,
                forall|j: int| 0 <= j < i ==> buffer[j] == 0,
            decreases MEM_SIZE - i,
        {
            buffer.push(0);
            i = i + 1;
        }
        let mut boot: Vec<u8> = Vec::new();
        let mut k: usize = 0;
        while k < BOOT_SIZE
            invariant
                k <= BOOT_SIZE,
                boot.len() == k,
                forall|j: int| 0 <= j < k ==> boot[j] == 0,
            decreases BOOT_SIZE - k,
        {
            boot.push(0);
            k = k + 1;
        }
        Memory { buffer, boot, bootrom_paged: true }
    }

    /// Installs the 256-byte boot image that overlays the low addresses.
    pub fn load_boot(&mut self, image: &Vec<u8>)
        requires
            old(self).wf(),
            image@.len() == BOOT_SIZE,
        ensures
            final(self).wf(),
            final(self)@ == (MemView { boot: image@, ..old(self)@ }),
    {
        let mut fresh: Vec<u8> = Vec::new();
        let mut i: usize = 0;
        while i < BOOT_SIZE
            invariant
                image@.len() == BOOT_SIZE,
                i <= BOOT_SIZE,
                fresh@ =~= image@.subrange(0, i as int),
            decreases BOOT_SIZE - i,
        {
            fresh.push(image[i]);
            i = i + 1;
        }
        proof {
            assert(fresh@ =~= image@);
        }
        self.boot = fresh;
    }

    /// Reads the byte visible at a memory-mapped register.
    pub fn get_register(&self, reg: MemoryRegister) -> (r: u8)
        requires
            self.wf(),
            wf_mem_register(reg),
        ensures
            r == self@.reg(reg),
    {
        self.get_addr(reg.to_addr())
    }

    /// Writes the byte behind a memory-mapped register.
    pub fn set_register(&mut self, reg: MemoryRegister, value: u8)
        requires
            old(self).wf(),
            wf_mem_register(reg),
        ensures
            final(self).wf(),
            final(self)@ == old(self)@.write(spec_to_addr(reg), value),
    {
        let addr = reg.to_addr();
        self.set_addr(addr, value);
    }

    /// Reads the byte visible at an address, consulting the boot image
    /// below 0x100 while it is paged in.
    pub fn get_addr(&self, addr: u16) -> (r: u8)
        requires
            self.wf(),
        ensures
            r == self@.read(addr),
    {
        if self.bootrom_paged && addr < 0x100 {
            self.boot[addr as usize]
        } else {
            self.buffer[addr as usize]
        }
    }

    /// Reads the 16-bit little-endian value at an address.
    pub fn get_u16_at(&self, idx: u16) -> (r: u16)
        requires
            self.wf(),
        ensures
            r == self@.read16(idx),
    {
        let low = self.get_addr(idx);
        let high = self.get_addr(idx.wrapping_add(1));
        high as u16 * 256 + low as u16
    }

    /// Writes one byte; writes always hit the main array.
    pub fn set_addr(&mut self, addr: u16, value: u8)
        requires
            old(self).wf(),
        ensures
            final(self).wf(),
            final(self)@ == old(self)@.write(addr, value),
    {
        self.buffer.set(addr as usize, value);
    }
}

} // verus!
