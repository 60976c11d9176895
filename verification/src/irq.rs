//! The interrupt controller: request latching in IF, priority resolution
//! against IE and the master enable, and vector dispatch. VBlank has the
//! highest priority, Joypad the lowest; servicing clears IME and exactly
//! the serviced bit of IF, pushes PC, and jumps to the fixed vector.

use vstd::prelude::*;

use crate::cpu::{CPU, MachineView};
use crate::decode::wrap_pc;
use crate::exec::{mr, mw, mw16};
use crate::mem::{spec_to_addr, MemoryRegister};
use crate::regs::Registers;
use crate::{bit_mask, bit_of, with_bit, without_bit};

verus! {

/// The five interrupt sources, highest priority first.
#[derive(Copy, Clone, PartialEq, Eq, Structural, Debug)]
pub enum Interrupt {
    Vblank,
    LcdStat,
    Timer,
    Serial,
    Joypad,
}

/// The bit each source occupies in IF and IE.
pub open spec fn spec_int_bit(i: Interrupt) -> int {
    match i {
        Interrupt::Vblank => 0,
        Interrupt::LcdStat => 1,
        Interrupt::Timer => 2,
        Interrupt::Serial => 3,
        Interrupt::Joypad => 4,
    }
}

/// The fixed handler address of each source, by bit index.
pub open spec fn spec_int_vector(i: int) -> u16 {
    if i == 0 { 0x0040 }
    else if i == 1 { 0x0048 }
    else if i == 2 { 0x0050 }
    else if i == 3 { 0x0058 }
    else { 0x0060 }
}

/// Whether source `i` is both requested in IF and enabled in IE.
pub open spec fn int_ready(m: MachineView, i: int) -> bool {
    bit_of(mr(m, 0xFF0F), i) && bit_of(mr(m, 0xFFFF), i)
}

/// The source the controller services: the lowest ready bit, and only
/// with the master enable on; None when nothing is serviced.
pub open spec fn spec_int_taken(m: MachineView) -> Option<int> {
    if !m.reg.ie {
        None
    } else if int_ready(m, 0) {
        Some(0)
    } else if int_ready(m, 1) {
        Some(1)
    } else if int_ready(m, 2) {
        Some(2)
    } else if int_ready(m, 3) {
        Some(3)
    } else if int_ready(m, 4) {
        Some(4)
    } else {
        None
    }
}

/// The machine after latching a request: bit `i` of IF set, nothing else
/// changed.
pub open spec fn spec_dispatch(m: MachineView, i: Interrupt) -> MachineView {
    mw(m, 0xFF0F, with_bit(mr(m, 0xFF0F), spec_int_bit(i)))
}

/// The machine after servicing source `i`: IME off, bit `i` of IF
/// cleared, PC pushed little-endian with SP lowered by two, and PC at the
/// vector.
pub open spec fn spec_service(m: MachineView, i: int) -> MachineView {
    let cleared = mw(m, 0xFF0F, without_bit(mr(m, 0xFF0F), i));
    let sp2 = wrap_pc(m.reg.sp, 0xFFFE);
    let pushed = mw16(cleared, sp2, m.reg.pc);
    MachineView {
        reg: Registers { ie: false, sp: sp2, pc: spec_int_vector(i), ..m.reg },
        ..pushed
    }
}

impl CPU {
    /// Latches a request for `source` in IF. The running code will jump to
    /// the corresponding vector on the next `handle_interrupts`, if the
    /// source is enabled and the master enable is on.
    pub fn dispatch_interrupt(&mut self, source: Interrupt)
        requires
            old(self).wf(),
        ensures
            final(self).wf(),
            final(self)@.m == spec_dispatch(old(self)@.m, source),
            final(self).ppu == old(self).ppu,
            final(self).state == old(self).state,
    {
        let iflags = self.mem.get_register(MemoryRegister::IF);
        let bit: u8 = match source {
            Interrupt::Vblank => 0,
            Interrupt::LcdStat => 1,
            Interrupt::Timer => 2,
            Interrupt::Serial => 3,
            Interrupt::Joypad => 4,
        };
        let raised = crate::exec::set_bit_val(iflags, bit);
        self.mem.set_register(MemoryRegister::IF, raised);
    }

    /// Services the pending source of highest priority, if the master
    /// enable is on and some requested source is enabled. Returns whether
    /// one was serviced; service costs the caller 20 cycles.
    pub fn handle_interrupts(&mut self) -> (serviced: bool)
        requires
            old(self).wf(),
        ensures
            final(self).wf(),
            final(self).ppu == old(self).ppu,
            final(self).state == old(self).state,
            match spec_int_taken(old(self)@.m) {
                Some(i) => serviced && final(self)@.m == spec_service(old(self)@.m, i),
                None => !serviced && final(self)@.m == old(self)@.m,
            },
    {
        let iflags = self.mem.get_register(MemoryRegister::IF);
        let ieflags = self.mem.get_register(MemoryRegister::IE);
        let ie = self.reg.ie;

        let mut i: u8 = 0;
        while i < 5
            invariant
                *self == *old(self),
                self.wf(),
                i <= 5,
                iflags == mr(self@.m, 0xFF0F),
                ieflags == mr(self@.m, 0xFFFF),
                ie == self.reg.ie,
                forall|j: int| 0 <= j < i ==> !(ie && int_ready(self@.m, j)),
            decreases 5 - i,
        {
            let mask = bit_mask(i);
            let requested = iflags / mask % 2 == 1;
            let enabled = ie && ieflags / mask % 2 == 1;
            if requested && enabled {
                self.service_interrupt(i);
                return true;
            }
            i = i + 1;
        }
        false
    }

    /// Performs the service of source `i`: clears IME and the request
    /// bit, pushes PC and jumps to the vector.
    fn service_interrupt(&mut self, i: u8)
        requires
            old(self).wf(),
            i < 5,
        ensures
            final(self).wf(),
            final(self)@.m == spec_service(old(self)@.m, i as int),
            final(self).ppu == old(self).ppu,
            final(self).state == old(self).state,
    {
        let iflags = self.mem.get_register(MemoryRegister::IF);
        self.reg.ie = false;
        let lowered = crate::exec::res_bit_val(iflags, i);
        self.mem.set_register(MemoryRegister::IF, lowered);

        let pc = self.reg.pc;
        let sp = self.reg.sp.wrapping_sub(2);
        self.mem.set_addr(sp, (pc % 256) as u8);
        self.mem.set_addr(sp.wrapping_add(1), (pc / 256) as u8);
        self.reg.sp = sp;

        self.reg.pc = if i == 0 {
            0x0040
        } else if i == 1 {
            0x0048
        } else if i == 2 {
            0x0050
        } else if i == 3 {
            0x0058
        } else {
            0x0060
        };
    }
}

} // verus!
