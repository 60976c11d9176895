//! The processor: register file, memory, deferred-interrupt state and the
//! pixel pipeline, glued together by the fetch-decode-execute tick.

use vstd::prelude::*;

use crate::decode::spec_decode;
use crate::exec::spec_execute;
use crate::irq::{spec_dispatch, spec_int_taken, spec_service, Interrupt};
use crate::mem::{MemView, Memory};
use crate::ppu::{spec_ppu_run, Ppu, PpuView};
use crate::regs::Registers;

verus! {

/// The CPU-internal mode flags: the one-instruction deferrals of IME
/// changes armed by EI and DI, and the HALT and STOP resting states.
#[derive(Copy, Clone, PartialEq, Eq, Structural, Debug)]
pub struct CPUState {
    pub ei_pending: bool,
    pub di_pending: bool,
    pub halted: bool,
    pub stopped: bool,
}

impl CPUState {
    /// The power-on state: nothing pending, not resting.
    pub fn new() -> (r: CPUState)
        ensures
            r == (CPUState { ei_pending: false, di_pending: false, halted: false, stopped: false }),
    {
        CPUState { ei_pending: false, di_pending: false, halted: false, stopped: false }
    }
}

/// The mathematical view of the machine as the decoder, the executor and
/// the interrupt controller see it: registers, memory, and mode flags.
#[verifier::ext_equal]
pub struct MachineView {
    pub reg: Registers,
    pub mem: MemView,
    pub st: CPUState,
}

impl MachineView {
    /// Registers and memory are well formed.
    pub open spec fn wf(self) -> bool {
        self.reg.wf() && self.mem.wf()
    }
}

/// The full view of the CPU, the machine plus the pixel pipeline.
#[verifier::ext_equal]
pub struct CpuView {
    pub m: MachineView,
    pub ppu: PpuView,
}

/// The whole emulated machine.
pub struct CPU {
    pub reg: Registers,
    pub mem: Memory,
    pub state: CPUState,
    pub ppu: Ppu,
}

impl View for CPU {
    type V = CpuView;

    open spec fn view(&self) -> CpuView {
        CpuView {
            m: MachineView { reg: self.reg, mem: self.mem@, st: self.state },
            ppu: self.ppu@,
        }
    }
}

impl CPU {
    /// Everything inside is well formed.
    pub open spec fn wf(self) -> bool {
        self@.m.wf() && self.ppu.wf()
    }

    /// A fresh machine: zeroed registers with SP at 0xFFFE, zeroed memory
    /// with a zeroed boot image paged in, and the PPU at reset.
    pub fn new() -> (r: CPU)
        ensures
            r.wf(),
            r.reg.af == 0 && r.reg.bc == 0 && r.reg.de == 0 && r.reg.hl == 0,
            r.reg.sp == 0xFFFE && r.reg.pc == 0 && !r.reg.ie,
            r.state == (CPUState {
                ei_pending: false,
                di_pending: false,
                halted: false,
                stopped: false,
            }),
            r@.m.mem.boot_paged,
            forall|a: u16| r@.m.mem.read(a) == 0,
            r@.ppu.hblank_acc == 0 && r@.ppu.vblank_acc == 0,
            r@.ppu.tile_buffer.len() == 0,
            r@.ppu.disabled && !r@.ppu.frame_ready,
    {
        CPU { reg: Registers::new(), mem: Memory::new(), state: CPUState::new(), ppu: Ppu::new() }
    }

    /// Copies a ROM image into the first 16 KiB of memory, truncating a
    /// larger one at that boundary, and starts execution at address zero
    /// with the boot image paged in.
    pub fn load_code(&mut self, code: Vec<u8>)
        requires
            old(self).wf(),
        ensures
            final(self).wf(),
            final(self).reg == (Registers { pc: 0, ..old(self).reg }),
            final(self).state == old(self).state,
            final(self).ppu == old(self).ppu,
            final(self)@.m.mem.boot == old(self)@.m.mem.boot,
            final(self)@.m.mem.boot_paged,
            forall|a: u16|
                #![trigger final(self)@.m.mem.bytes[a as int]]
                final(self)@.m.mem.bytes[a as int] == if a < 0x4000 && (a as int) < code@.len() {
                    code@[a as int]
                } else {
                    old(self)@.m.mem.bytes[a as int]
                },
    {
        let n = if code.len() < 0x4000 { code.len() } else { 0x4000 };
        let mut i: usize = 0;
        while i < n
            invariant
                old(self).wf(),
                self.wf(),
                n <= 0x4000,
                n <= code@.len(),
                i <= n,
                n == if code@.len() < 0x4000 { code@.len() as int } else { 0x4000 },
                self.reg == old(self).reg,
                self.state == old(self).state,
                self.ppu == old(self).ppu,
                self@.m.mem.boot == old(self)@.m.mem.boot,
                self@.m.mem.boot_paged == old(self)@.m.mem.boot_paged,
                forall|a: int|
                    #![trigger self@.m.mem.bytes[a]]
                    0 <= a < 0x10000 ==> self@.m.mem.bytes[a] == if a < i {
                        code@[a]
                    } else {
                        old(self)@.m.mem.bytes[a]
                    },
            decreases n - i,
        {
            self.mem.set_addr(i as u16, code[i]);
            i = i + 1;
        }
        self.reg.pc = 0;
        self.mem.bootrom_paged = true;
    }

    /// Reads the 16-bit little-endian word at PC through the boot overlay.
    pub fn read_u16(&self) -> (r: u16)
        requires
            self.wf(),
        ensures
            r == self@.m.mem.read16(self.reg.pc),
    {
        self.mem.get_u16_at(self.reg.pc)
    }
}

/// The tail of every tick: the PPU consumes the cycle budget, a crossing
/// of the frame boundary latches the VBlank request in IF, and the EI and
/// DI deferrals armed by the previous instruction are applied to IME.
pub open spec fn spec_finish(c: CpuView, cycles: u32) -> CpuView {
    let run = spec_ppu_run(c.ppu, c.m.mem, cycles as int);
    let m1 = MachineView { mem: run.1, ..c.m };
    let m2 = if run.2 > 0 {
        spec_dispatch(m1, Interrupt::Vblank)
    } else {
        m1
    };
    let ie1 = if m2.st.ei_pending { true } else { m2.reg.ie };
    let ie2 = if m2.st.di_pending { false } else { ie1 };
    let m3 = MachineView {
        reg: Registers { ie: ie2, ..m2.reg },
        st: CPUState { ei_pending: false, di_pending: false, ..m2.st },
        ..m2
    };
    CpuView { m: m3, ppu: run.0 }
}

/// One tick of the machine and its cycle cost. A halted CPU wakes only
/// through interrupt service; a stopped one rests; otherwise the boot
/// overlay is unpaged if 0xFF50 holds one, the instruction at PC is
/// decoded and executed, and a pending enabled interrupt is serviced.
/// The PPU then consumes the cycles and the IME deferrals land.
pub open spec fn spec_tick(c: CpuView) -> (CpuView, u32) {
    if c.m.st.halted {
        match spec_int_taken(c.m) {
            Some(i) => {
                let m1 = spec_service(c.m, i);
                let m2 = MachineView { st: CPUState { halted: false, ..m1.st }, ..m1 };
                (spec_finish(CpuView { m: m2, ppu: c.ppu }, 20), 20)
            },
            None => (spec_finish(c, 4), 4),
        }
    } else if c.m.st.stopped {
        (spec_finish(c, 4), 4)
    } else {
        let m0 = if c.m.mem.read(0xFF50) == 1 {
            MachineView { mem: MemView { boot_paged: false, ..c.m.mem }, ..c.m }
        } else {
            c.m
        };
        let d = spec_decode(m0.mem, m0.reg.pc);
        let m1 = MachineView { reg: Registers { pc: d.1, ..m0.reg }, ..m0 };
        let e = spec_execute(m1, d.0);
        if spec_int_taken(e.0) is Some {
            let m3 = spec_service(e.0, spec_int_taken(e.0)->Some_0);
            (spec_finish(CpuView { m: m3, ppu: c.ppu }, (e.1 + 20) as u32), (e.1 + 20) as u32)
        } else {
            (spec_finish(CpuView { m: e.0, ppu: c.ppu }, e.1 as u32), e.1 as u32)
        }
    }
}

impl CPU {
    /// The tail of every tick: PPU, VBlank latch, IME deferrals.
    fn finish_tick(&mut self, cycles: u32) -> (r: u32)
        requires
            old(self).wf(),
        ensures
            final(self).wf(),
            final(self)@ == spec_finish(old(self)@, cycles),
            r == cycles,
    {
        let vb = self.ppu.tick(&mut self.mem, cycles);
        if vb {
            self.dispatch_interrupt(Interrupt::Vblank);
        }
        if self.state.ei_pending {
            self.reg.ie = true;
            self.state.ei_pending = false;
        }
        if self.state.di_pending {
            self.reg.ie = false;
            self.state.di_pending = false;
        }
        cycles
    }

    /// Runs one tick: wake or rest checks, boot-ROM unpage check, decode,
    /// execute, interrupt dispatch, PPU tick, and the EI/DI deferrals, in
    /// that order. Returns the tick's cycle cost.
    pub fn tick(&mut self) -> (cycles: u32)
        requires
            old(self).wf(),
        ensures
            final(self).wf(),
            final(self)@ == spec_tick(old(self)@).0,
            cycles == spec_tick(old(self)@).1,
    {
        if self.state.halted {
            if self.handle_interrupts() {
                self.state.halted = false;
                self.finish_tick(20)
            } else {
                self.finish_tick(4)
            }
        } else if self.state.stopped {
            self.finish_tick(4)
        } else {
            if self.mem.get_addr(0xFF50) == 1 {
                self.mem.bootrom_paged = false;
            }
            let ins = self.decode();
            let base = self.execute(ins) as u32;
            if self.handle_interrupts() {
                self.finish_tick(base + 20)
            } else {
                self.finish_tick(base)
            }
        }
    }
}

} // verus!
