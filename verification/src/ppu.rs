//! The pixel pipeline, background path: a state machine driven by the CPU
//! cycle budget. It advances LY through 144 visible and 10 blanking lines,
//! renders one background scanline per visible line into an internal
//! framebuffer, and raises the VBlank interrupt at the frame boundary.

use vstd::prelude::*;

use crate::mem::{MemView, Memory, MemoryRegister};
use crate::{bit_mask, bit_of, check_bit};

verus! {

/// Width of the visible surface in pixels.
pub const SCREEN_W: usize = 160;

/// Height of the visible surface in pixels.
pub const SCREEN_H: usize = 144;

/// Number of CPU cycles one scanline occupies.
pub const LINE_CYCLES: u16 = 456;

/// Number of blanking lines after the last visible one.
pub const VBLANK_LINES: u16 = 10;

/// The four shades a pixel can take.
#[derive(Copy, Clone, PartialEq, Eq, Structural, Debug)]
pub enum GbColor {
    White,
    LightGray,
    DarkGray,
    Black,
}

/// How a tile index in the map resolves to tile data.
#[derive(Copy, Clone, PartialEq, Eq, Structural, Debug)]
pub enum BGTileIndexingMethod {
    Unsigned8000,
    Signed8800,
}

/// The mathematical view of the PPU state.
#[verifier::ext_equal]
pub struct PpuView {
    pub hblank_acc: u16,
    pub vblank_acc: u16,
    pub bg_palette: Seq<GbColor>,
    pub sprite0_palette: Seq<GbColor>,
    pub sprite1_palette: Seq<GbColor>,
    pub tile_buffer: Seq<(u8, u16)>,
    pub disabled: bool,
    pub fb: Seq<GbColor>,
    pub frame_ready: bool,
}

/// The PPU state: the two countdown accumulators, the palette caches, the
/// row buffer of pending (line, tile-map-offset) pairs, the disabled
/// latch mirroring LCDC bit 7, the rendered surface, and a latch telling
/// the host that a finished frame is ready to present.
pub struct Ppu {
    pub hblank_acc: u16,
    pub vblank_acc: u16,
    pub bg_palette: Vec<GbColor>,
    pub sprite0_palette: Vec<GbColor>,
    pub sprite1_palette: Vec<GbColor>,
    pub tile_buffer: Vec<(u8, u16)>,
    pub disabled: bool,
    pub framebuffer: Vec<GbColor>,
    pub frame_ready: bool,
}

impl View for Ppu {
    type V = PpuView;

    open spec fn view(&self) -> PpuView {
        PpuView {
            hblank_acc: self.hblank_acc,
            vblank_acc: self.vblank_acc,
            bg_palette: self.bg_palette@,
            sprite0_palette: self.sprite0_palette@,
            sprite1_palette: self.sprite1_palette@,
            tile_buffer: self.tile_buffer@,
            disabled: self.disabled,
            fb: self.framebuffer@,
            frame_ready: self.frame_ready,
        }
    }
}

impl PpuView {
    /// The caches and the surface have their fixed sizes, and the
    /// accumulators stay inside one frame.
    pub open spec fn wf(self) -> bool {
        &&& self.bg_palette.len() == 4
        &&& self.sprite0_palette.len() == 3
        &&& self.sprite1_palette.len() == 3
        &&& self.fb.len() == SCREEN_W * SCREEN_H
        &&& self.hblank_acc <= LINE_CYCLES
        &&& self.vblank_acc <= VBLANK_LINES
        &&& self.tile_buffer.len() <= 20
        &&& forall|k: int|
            0 <= k < self.tile_buffer.len() ==> (#[trigger] self.tile_buffer[k]).1 < 1024
    }
}

/// The shade a two-bit palette entry selects.
pub open spec fn color_of(v: int) -> GbColor {
    if v == 0 { GbColor::White }
    else if v == 1 { GbColor::LightGray }
    else if v == 2 { GbColor::DarkGray }
    else { GbColor::Black }
}

/// The divisor isolating two-bit field `i` of a packed palette byte.
pub open spec fn shade_shift(i: int) -> int {
    if i == 0 { 1 }
    else if i == 1 { 4 }
    else if i == 2 { 16 }
    else { 64 }
}

/// The four-entry background palette that a BGP byte encodes.
pub open spec fn spec_palette(bgp: u8) -> Seq<GbColor> {
    Seq::new(4, |i: int| color_of(bgp as int / shade_shift(i) % 4))
}

/// A three-entry sprite palette: the shades of color indices one to
/// three of an OBP byte; index zero is transparent.
pub open spec fn spec_sprite_palette(obp: u8) -> Seq<GbColor> {
    Seq::new(3, |i: int| color_of(obp as int / shade_shift(i + 1) % 4))
}

/// The twenty (line, tile-map-offset) pairs covering one visible row,
/// wrapping within the 32 by 32 tile map.
pub open spec fn spec_row_offsets(mem: MemView, line: u8) -> Seq<(u8, u16)> {
    let scy = mem.reg(MemoryRegister::SCY);
    let scx = mem.reg(MemoryRegister::SCX);
    let row = (scy + line) / 8 % 32;
    Seq::new(20, |k: int| (line, (32 * row + ((scx / 8 + k) % 32)) as u16))
}

/// The tile indexing mode that LCDC bit 4 selects.
pub open spec fn spec_indexing_mode(lcdc: u8) -> BGTileIndexingMethod {
    if bit_of(lcdc, 4) {
        BGTileIndexingMethod::Unsigned8000
    } else {
        BGTileIndexingMethod::Signed8800
    }
}

/// The tile data address a tile index resolves to: unsigned from 0x8000,
/// or signed around 0x9000.
pub open spec fn spec_tile_addr(mode: BGTileIndexingMethod, n: u8) -> u16 {
    match mode {
        BGTileIndexingMethod::Unsigned8000 => (0x8000 + 16 * n) as u16,
        BGTileIndexingMethod::Signed8800 => if n < 128 {
            (0x9000 + 16 * n) as u16
        } else {
            (0x8800 + 16 * (n - 128)) as u16
        },
    }
}

/// The shade of pixel `j` (left to right) of one buffered pair on the
/// current scanline: the tile index comes from the tile map, the two
/// bit-planes from the tile data, and the woven two-bit index selects
/// from the palette.
pub open spec fn spec_pair_pixel(
    mem: MemView,
    pal: Seq<GbColor>,
    base: u16,
    mode: BGTileIndexingMethod,
    line: u8,
    pair: (u8, u16),
    j: int,
) -> GbColor {
    let n = mem.read((base + pair.1) as u16);
    let delta = (line + 256 - pair.0) % 256;
    let line_start = (spec_tile_addr(mode, n) + 2 * delta) as u16;
    let t1 = mem.read(line_start);
    let t2 = mem.read((line_start + 1) as u16);
    let low: int = if bit_of(t1, 7 - j) { 1 } else { 0 };
    let high: int = if bit_of(t2, 7 - j) { 1 } else { 0 };
    pal[low + 2 * high]
}

/// The surface after painting the buffered pairs of one scanline: pair k
/// paints pixels 8k to 8k+7 of row `line`; every other pixel keeps its
/// shade.
pub open spec fn spec_render_fb(
    fb: Seq<GbColor>,
    mem: MemView,
    pal: Seq<GbColor>,
    pairs: Seq<(u8, u16)>,
    line: u8,
    base: u16,
    mode: BGTileIndexingMethod,
) -> Seq<GbColor> {
    Seq::new(
        fb.len(),
        |i: int|
            {
                let y = i / 160;
                let x = i % 160;
                if y == line && x / 8 < pairs.len() {
                    spec_pair_pixel(mem, pal, base, mode, line, pairs[x / 8], x % 8)
                } else {
                    fb[i]
                }
            },
    )
}

/// One scanline rendered with the LCD enabled: the palette is recomputed
/// from BGP, the row buffer is refilled on every eighth line, the line at
/// LY is painted, and the disabled latch drops.
pub open spec fn spec_render_line(p: PpuView, mem: MemView) -> PpuView {
    let lcdc = mem.reg(MemoryRegister::LCDC);
    let bgp = mem.reg(MemoryRegister::BGP);
    let line = mem.reg(MemoryRegister::LY);
    let pal = spec_palette(bgp);
    let base: u16 = if bit_of(lcdc, 3) { 0x9800 } else { 0x9C00 };
    let mode = spec_indexing_mode(lcdc);
    let pairs = if line % 8 == 0 {
        spec_row_offsets(mem, line)
    } else {
        p.tile_buffer
    };
    PpuView {
        bg_palette: pal,
        tile_buffer: pairs,
        disabled: false,
        fb: spec_render_fb(p.fb, mem, pal, pairs, line, base, mode),
        ..p
    }
}

/// The all-white surface.
pub open spec fn spec_white_fb() -> Seq<GbColor> {
    Seq::new((SCREEN_W * SCREEN_H) as nat, |i: int| GbColor::White)
}

/// One line boundary: during the blanking countdown LY steps (and resets
/// at its end); otherwise the line at LY is processed, with rendering
/// skipped while the LCD is off, and entering LY 144 starts the blanking
/// window and raises VBlank. The third component counts the raises.
pub open spec fn spec_boundary(p: PpuView, mem: MemView) -> (PpuView, MemView, nat) {
    if p.vblank_acc > 0 {
        let ly = mem.reg(MemoryRegister::LY);
        let va = (p.vblank_acc - 1) as u16;
        let mem1 = if va == 0 {
            mem.write(0xFF44, 0)
        } else {
            mem.write(0xFF44, ((ly + 1) % 256) as u8)
        };
        let p1 = PpuView {
            vblank_acc: va,
            hblank_acc: LINE_CYCLES,
            frame_ready: p.frame_ready || va == 1,
            ..p
        };
        (p1, mem1, 0)
    } else {
        let lcdc = mem.reg(MemoryRegister::LCDC);
        let ly = mem.reg(MemoryRegister::LY);
        let p1 = if bit_of(lcdc, 7) {
            spec_render_line(p, mem)
        } else if !p.disabled {
            PpuView { disabled: true, frame_ready: true, fb: spec_white_fb(), ..p }
        } else {
            p
        };
        if ly == 143 {
            (
                PpuView {
                    hblank_acc: LINE_CYCLES,
                    vblank_acc: VBLANK_LINES,
                    tile_buffer: Seq::empty(),
                    ..p1
                },
                mem.write(0xFF44, 144),
                1,
            )
        } else {
            (
                PpuView { hblank_acc: LINE_CYCLES, ..p1 },
                mem.write(0xFF44, ((ly + 1) % 256) as u8),
                0,
            )
        }
    }
}

/// The PPU consuming a cycle budget: while a countdown is non-zero it
/// absorbs cycles; at each zero a line boundary is processed. The third
/// component counts the VBlank raises within the budget.
pub open spec fn spec_ppu_run(p: PpuView, mem: MemView, budget: int) -> (PpuView, MemView, nat)
    decreases budget * 2 + (if p.hblank_acc == 0 { 1int } else { 0int })
        when budget >= 0
{
    if budget <= 0 {
        (p, mem, 0)
    } else if p.hblank_acc > 0 {
        let d: int = if p.hblank_acc <= budget {
            p.hblank_acc as int
        } else {
            budget
        };
        spec_ppu_run(PpuView { hblank_acc: (p.hblank_acc - d) as u16, ..p }, mem, budget - d)
    } else {
        let step = spec_boundary(p, mem);
        let rest = spec_ppu_run(step.0, step.1, budget);
        (rest.0, rest.1, (step.2 + rest.2) as nat)
    }
}

impl Ppu {
    /// Well-formedness of the live state.
    pub open spec fn wf(self) -> bool {
        self@.wf()
    }

    /// The reset state: both countdowns cleared, all caches white, the
    /// row buffer empty, and the surface cleared to white with the
    /// disabled latch set.
    pub fn new() -> (r: Ppu)
        ensures
            r.wf(),
            r@.hblank_acc == 0,
            r@.vblank_acc == 0,
            r@.tile_buffer.len() == 0,
            r@.disabled,
            !r@.frame_ready,
            forall|i: int| 0 <= i < r@.fb.len() ==> r@.fb[i] == GbColor::White,
    {
        let mut bg_palette: Vec<GbColor> = Vec::new();
        bg_palette.push(GbColor::White);
        bg_palette.push(GbColor::White);
        bg_palette.push(GbColor::White);
        bg_palette.push(GbColor::White);
        let mut sprite0_palette: Vec<GbColor> = Vec::new();
        sprite0_palette.push(GbColor::White);
        sprite0_palette.push(GbColor::White);
        sprite0_palette.push(GbColor::White);
        let mut sprite1_palette: Vec<GbColor> = Vec::new();
        sprite1_palette.push(GbColor::White);
        sprite1_palette.push(GbColor::White);
        sprite1_palette.push(GbColor::White);
        let mut framebuffer: Vec<GbColor> = Vec::new();
        let mut i: usize = 0;
        while i < SCREEN_W * SCREEN_H
            invariant
                i <= SCREEN_W * SCREEN_H,
                framebuffer.len() == i,
                forall|j: int| 0 <= j < i ==> framebuffer[j] == GbColor::White,
            decreases SCREEN_W * SCREEN_H - i,
        {
            framebuffer.push(GbColor::White);
            i = i + 1;
        }
        Ppu {
            hblank_acc: 0,
            vblank_acc: 0,
            bg_palette,
            sprite0_palette,
            sprite1_palette,
            tile_buffer: Vec::new(),
            disabled: true,
            framebuffer,
            frame_ready: false,
        }
    }
}

/// The shade of a two-bit palette entry.
fn shade(v: u8) -> (c: GbColor)
    requires
        v < 4,
    ensures
        c == color_of(v as int),
{
    if v == 0 { GbColor::White }
    else if v == 1 { GbColor::LightGray }
    else if v == 2 { GbColor::DarkGray }
    else { GbColor::Black }
}

/// The tile data address a tile index resolves to.
fn tile_addr(mode: BGTileIndexingMethod, n: u8) -> (a: u16)
    ensures
        a == spec_tile_addr(mode, n),
        0x8000 <= a <= 0x97F0,
{
    match mode {
        BGTileIndexingMethod::Unsigned8000 => 0x8000 + 16 * n as u16,
        BGTileIndexingMethod::Signed8800 => if n < 128 {
            0x9000 + 16 * n as u16
        } else {
            0x8800 + 16 * (n as u16 - 128)
        },
    }
}

impl Ppu {
    /// Recomputes the four-entry background palette from a BGP byte.
    pub fn update_bg_palette(&mut self, bgp: u8)
        requires
            old(self).wf(),
        ensures
            final(self).wf(),
            final(self)@ == (PpuView { bg_palette: spec_palette(bgp), ..old(self)@ }),
    {
        self.bg_palette.set(0, shade(bgp % 4));
        self.bg_palette.set(1, shade(bgp / 4 % 4));
        self.bg_palette.set(2, shade(bgp / 16 % 4));
        self.bg_palette.set(3, shade(bgp / 64 % 4));
        proof {
            assert(self.bg_palette@ =~= spec_palette(bgp));
            assert(self@ =~= (PpuView { bg_palette: spec_palette(bgp), ..old(self)@ }));
        }
    }

    /// Recomputes the two sprite palettes from the OBP bytes; each holds
    /// the shades of color indices one to three.
    pub fn update_sprite_palettes(&mut self, obp0: u8, obp1: u8)
        requires
            old(self).wf(),
        ensures
            final(self).wf(),
            final(self)@ == (PpuView {
                sprite0_palette: spec_sprite_palette(obp0),
                sprite1_palette: spec_sprite_palette(obp1),
                ..old(self)@
            }),
    {
        self.sprite0_palette.set(0, shade(obp0 / 4 % 4));
        self.sprite0_palette.set(1, shade(obp0 / 16 % 4));
        self.sprite0_palette.set(2, shade(obp0 / 64 % 4));
        self.sprite1_palette.set(0, shade(obp1 / 4 % 4));
        self.sprite1_palette.set(1, shade(obp1 / 16 % 4));
        self.sprite1_palette.set(2, shade(obp1 / 64 % 4));
        proof {
            assert(self.sprite0_palette@ =~= spec_sprite_palette(obp0));
            assert(self.sprite1_palette@ =~= spec_sprite_palette(obp1));
            assert(self@ =~= (PpuView {
                sprite0_palette: spec_sprite_palette(obp0),
                sprite1_palette: spec_sprite_palette(obp1),
                ..old(self)@
            }));
        }
    }

    /// Refills the row buffer with the twenty pairs covering one visible
    /// row, wrapping within the tile map.
    fn refill_row(&mut self, mem: &Memory, line: u8)
        requires
            old(self).wf(),
            mem.wf(),
        ensures
            final(self).wf(),
            final(self)@ == (PpuView { tile_buffer: spec_row_offsets(mem@, line), ..old(self)@ }),
    {
        let scy = mem.get_register(MemoryRegister::SCY) as u16;
        let scx = mem.get_register(MemoryRegister::SCX) as u16;
        let row: u16 = (scy + line as u16) / 8 % 32;
        let mut fresh: Vec<(u8, u16)> = Vec::new();
        let mut k: usize = 0;
        while k < 20
            invariant
                k <= 20,
                scy == mem@.reg(MemoryRegister::SCY),
                scx == mem@.reg(MemoryRegister::SCX),
                row == (scy + line) / 8 % 32,
                fresh@ =~= spec_row_offsets(mem@, line).subrange(0, k as int),
            decreases 20 - k,
        {
            let offset: u16 = 32 * row + (scx / 8 + k as u16) % 32;
            fresh.push((line, offset));
            k = k + 1;
        }
        proof {
            assert(fresh@ =~= spec_row_offsets(mem@, line));
        }
        self.tile_buffer = fresh;
        proof {
            assert(self@ =~= (PpuView { tile_buffer: spec_row_offsets(mem@, line), ..old(self)@ }));
        }
    }

    /// Paints the eight pixels of buffered pair `k` on row `line` of the
    /// surface; a row outside the visible surface paints nothing.
    fn draw_pair(
        &mut self,
        mem: &Memory,
        base: u16,
        mode: BGTileIndexingMethod,
        line: u8,
        k: usize,
    )
        requires
            old(self).wf(),
            mem.wf(),
            k < old(self)@.tile_buffer.len(),
            base == 0x9800 || base == 0x9C00,
            line < 144,
        ensures
            final(self).wf(),
            final(self)@.fb.len() == old(self)@.fb.len(),
            forall|i: int|
                0 <= i < final(self)@.fb.len() ==> final(self)@.fb[i] == if i / 160 == line && i % 160
                    / 8 == k {
                    spec_pair_pixel(
                        mem@,
                        old(self)@.bg_palette,
                        base,
                        mode,
                        line,
                        old(self)@.tile_buffer[k as int],
                        i % 160 % 8,
                    )
                } else {
                    old(self)@.fb[i]
                },
            final(self)@ == (PpuView { fb: final(self)@.fb, ..old(self)@ }),
    {
        let (l0, off): (u8, u16) = self.tile_buffer[k];
        let n = mem.get_addr(base + off);
        let taddr = tile_addr(mode, n);
        let delta = line.wrapping_sub(l0);
        let line_start: u16 = taddr + 2 * delta as u16;
        let t1 = mem.get_addr(line_start);
        let t2 = mem.get_addr(line_start + 1);

        let mut j: usize = 0;
        while j < 8
            invariant
                old(self).wf(),
                self.wf(),
                j <= 8,
                k < old(self)@.tile_buffer.len(),
                line < 144,
                self@.tile_buffer == old(self)@.tile_buffer,
                self@.bg_palette == old(self)@.bg_palette,
                self@ == (PpuView { fb: self@.fb, ..old(self)@ }),
                self@.fb.len() == old(self)@.fb.len(),
                t1 == mem@.read(line_start),
                t2 == mem@.read((line_start + 1) as u16),
                line_start == (spec_tile_addr(
                    mode,
                    mem@.read((base + old(self)@.tile_buffer[k as int].1) as u16),
                ) + 2 * ((line + 256 - old(self)@.tile_buffer[k as int].0) % 256)) as u16,
                forall|i: int|
                    0 <= i < self@.fb.len() ==> self@.fb[i] == if i / 160 == line && i % 160 / 8
                        == k && i % 160 % 8 < j {
                        spec_pair_pixel(
                            mem@,
                            old(self)@.bg_palette,
                            base,
                            mode,
                            line,
                            old(self)@.tile_buffer[k as int],
                            i % 160 % 8,
                        )
                    } else {
                        old(self)@.fb[i]
                    },
            decreases 8 - j,
        {
            let m7 = crate::bit_mask(7 - j as u8);
            let low: u8 = t1 / m7 % 2;
            let high: u8 = t2 / m7 % 2;
            let c = self.bg_palette[(low + 2 * high) as usize];
            let idx: usize = line as usize * 160 + 8 * k + j;
            self.framebuffer.set(idx, c);
            j = j + 1;
        }
    }
}

impl Ppu {
    /// Clears the surface to white once when the LCD turns off, latching
    /// the disabled state and presenting the cleared frame.
    fn clear_surface(&mut self)
        requires
            old(self).wf(),
        ensures
            final(self).wf(),
            final(self)@ == (PpuView {
                disabled: true,
                frame_ready: true,
                fb: spec_white_fb(),
                ..old(self)@
            }),
    {
        let mut i: usize = 0;
        while i < SCREEN_W * SCREEN_H
            invariant
                old(self).wf(),
                self.wf(),
                i <= SCREEN_W * SCREEN_H,
                self@ == (PpuView { fb: self@.fb, ..old(self)@ }),
                self@.fb.len() == old(self)@.fb.len(),
                forall|j: int|
                    0 <= j < self@.fb.len() ==> self@.fb[j] == if j < i {
                        GbColor::White
                    } else {
                        old(self)@.fb[j]
                    },
            decreases SCREEN_W * SCREEN_H - i,
        {
            self.framebuffer.set(i, GbColor::White);
            i = i + 1;
        }
        self.disabled = true;
        self.frame_ready = true;
        proof {
            assert(self@.fb =~= spec_white_fb());
            assert(self@ =~= (PpuView {
                disabled: true,
                frame_ready: true,
                fb: spec_white_fb(),
                ..old(self)@
            }));
        }
    }

    /// Renders the scanline at LY: recomputes the palette from BGP,
    /// refills the row buffer on every eighth line, paints the buffered
    /// pairs, and drops the disabled latch.
    fn render_line(&mut self, mem: &Memory)
        requires
            old(self).wf(),
            mem.wf(),
        ensures
            final(self).wf(),
            final(self)@ == spec_render_line(old(self)@, mem@),
    {
        let lcdc = mem.get_register(MemoryRegister::LCDC);
        let bgp = mem.get_register(MemoryRegister::BGP);
        let line = mem.get_register(MemoryRegister::LY);
        self.update_bg_palette(bgp);
        let base: u16 = if check_bit(lcdc, 3) { 0x9800 } else { 0x9C00 };
        let mode = if check_bit(lcdc, 4) {
            BGTileIndexingMethod::Unsigned8000
        } else {
            BGTileIndexingMethod::Signed8800
        };
        if line % 8 == 0 {
            self.refill_row(mem, line);
        }
        self.disabled = false;
        let ghost prep = self@;

        if line < 144 {
            let mut k: usize = 0;
            while k < self.tile_buffer.len()
                invariant
                    self.wf(),
                    mem.wf(),
                    line < 144,
                    base == 0x9800 || base == 0x9C00,
                    k <= self.tile_buffer.len(),
                    prep.wf(),
                    self@ == (PpuView { fb: self@.fb, ..prep }),
                    self@.fb.len() == prep.fb.len(),
                    forall|i: int|
                        0 <= i < self@.fb.len() ==> self@.fb[i] == if i / 160 == line && i % 160
                            / 8 < k {
                            spec_pair_pixel(
                                mem@,
                                prep.bg_palette,
                                base,
                                mode,
                                line,
                                prep.tile_buffer[i % 160 / 8],
                                i % 160 % 8,
                            )
                        } else {
                            prep.fb[i]
                        },
                decreases self.tile_buffer.len() - k,
            {
                self.draw_pair(mem, base, mode, line, k);
                k = k + 1;
            }
            proof {
                assert(self@.fb =~= spec_render_fb(
                    prep.fb,
                    mem@,
                    prep.bg_palette,
                    prep.tile_buffer,
                    line,
                    base,
                    mode,
                ));
                assert(self@ =~= spec_render_line(old(self)@, mem@));
            }
        } else {
            proof {
                assert(self@.fb =~= spec_render_fb(
                    prep.fb,
                    mem@,
                    prep.bg_palette,
                    prep.tile_buffer,
                    line,
                    base,
                    mode,
                ));
                assert(self@ =~= spec_render_line(old(self)@, mem@));
            }
        }
    }

    /// Processes one line boundary: steps the blanking countdown, or
    /// handles the line at LY, entering the blanking window and raising
    /// VBlank when LY reaches 144.
    fn boundary(&mut self, mem: &mut Memory) -> (raised: bool)
        requires
            old(self).wf(),
            old(mem).wf(),
            old(self)@.hblank_acc == 0,
        ensures
            final(self).wf(),
            final(mem).wf(),
            final(self)@ == spec_boundary(old(self)@, old(mem)@).0,
            final(mem)@ == spec_boundary(old(self)@, old(mem)@).1,
            raised == (spec_boundary(old(self)@, old(mem)@).2 == 1),
            final(self)@.hblank_acc == LINE_CYCLES,
    {
        if self.vblank_acc > 0 {
            let ly = mem.get_register(MemoryRegister::LY);
            self.vblank_acc = self.vblank_acc - 1;
            self.hblank_acc = LINE_CYCLES;
            if self.vblank_acc == 0 {
                mem.set_register(MemoryRegister::LY, 0);
            } else {
                mem.set_register(MemoryRegister::LY, ly.wrapping_add(1));
            }
            if self.vblank_acc == 1 {
                self.frame_ready = true;
            }
            false
        } else {
            let lcdc = mem.get_register(MemoryRegister::LCDC);
            let ly = mem.get_register(MemoryRegister::LY);
            if check_bit(lcdc, 7) {
                self.render_line(mem);
            } else if !self.disabled {
                self.clear_surface();
            }
            self.hblank_acc = LINE_CYCLES;
            if ly == 143 {
                self.vblank_acc = VBLANK_LINES;
                self.tile_buffer = Vec::new();
                mem.set_register(MemoryRegister::LY, 144);
                true
            } else {
                mem.set_register(MemoryRegister::LY, ly.wrapping_add(1));
                false
            }
        }
    }

    /// Consumes one tick's worth of CPU cycles. While a countdown is
    /// non-zero it absorbs cycles; at each zero one line boundary is
    /// processed. Returns whether the budget crossed the frame boundary,
    /// at which the caller should raise the VBlank interrupt.
    pub fn tick(&mut self, mem: &mut Memory, cycles: u32) -> (vblank: bool)
        requires
            old(self).wf(),
            old(mem).wf(),
        ensures
            final(self).wf(),
            final(mem).wf(),
            final(self)@ == spec_ppu_run(old(self)@, old(mem)@, cycles as int).0,
            final(mem)@ == spec_ppu_run(old(self)@, old(mem)@, cycles as int).1,
            vblank == (spec_ppu_run(old(self)@, old(mem)@, cycles as int).2 > 0),
    {
        let mut remaining: u32 = cycles;
        let mut raised: bool = false;
        let ghost goal = spec_ppu_run(old(self)@, old(mem)@, cycles as int);
        let ghost mut count: nat = 0;
        while remaining > 0
            invariant
                self.wf(),
                mem.wf(),
                goal == spec_ppu_run(old(self)@, old(mem)@, cycles as int),
                ({
                    let rest = spec_ppu_run(self@, mem@, remaining as int);
                    &&& goal.0 == rest.0
                    &&& goal.1 == rest.1
                    &&& goal.2 == rest.2 + count
                    &&& raised == (count > 0)
                }),
            decreases remaining * 2 + (if self@.hblank_acc == 0 { 1int } else { 0int }),
        {
            if self.hblank_acc > 0 {
                let d: u32 = if (self.hblank_acc as u32) <= remaining {
                    self.hblank_acc as u32
                } else {
                    remaining
                };
                self.hblank_acc = self.hblank_acc - d as u16;
                remaining = remaining - d;
            } else {
                proof {
                    count = count + spec_boundary(self@, mem@).2;
                }
                let r = self.boundary(mem);
                if r {
                    raised = true;
                }
            }
        }
        raised
    }
}

} // verus!
