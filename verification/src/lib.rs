//! Core of an emulator for an 8-bit handheld game console built around a
//! Sharp LR35902-class processor: registers, the flat 64 KiB memory map with
//! its boot-ROM overlay, the instruction decoder and executor, the interrupt
//! controller, and the scanline-driven background renderer.

pub mod cpu;
pub mod decode;
pub mod exec;
pub mod irq;
pub mod isa;
pub mod laws;
pub mod mem;
pub mod ppu;
pub mod regs;

use vstd::prelude::*;

verus! {

/// Number of CPU clock cycles in one full frame of 154 scanlines.
pub const CYCLES_PER_FRAME: u32 = 70224;

/// The CPU clock rate in Hz.
pub const CLOCK_SPEED: u64 = 4_190_000;

/// The value of bit `i` of a byte, as the power of two it contributes.
pub open spec fn bit_val(i: int) -> int {
    if i == 0 { 1 }
    else if i == 1 { 2 }
    else if i == 2 { 4 }
    else if i == 3 { 8 }
    else if i == 4 { 16 }
    else if i == 5 { 32 }
    else if i == 6 { 64 }
    else { 128 }
}

/// Whether bit `i` of byte `v` is set.
pub open spec fn bit_of(v: u8, i: int) -> bool {
    v as int / bit_val(i) % 2 == 1
}

/// The power of two selecting bit `bit`.
pub fn bit_mask(bit: u8) -> (m: u8)
    requires
        bit < 8,
    ensures
        m as int == bit_val(bit as int),
{
    if bit == 0 { 1 }
    else if bit == 1 { 2 }
    else if bit == 2 { 4 }
    else if bit == 3 { 8 }
    else if bit == 4 { 16 }
    else if bit == 5 { 32 }
    else if bit == 6 { 64 }
    else { 128 }
}

/// The byte with bit `i` set.
pub open spec fn with_bit(v: u8, i: int) -> u8 {
    if bit_of(v, i) {
        v
    } else {
        (v + bit_val(i)) as u8
    }
}

/// The byte with bit `i` cleared.
pub open spec fn without_bit(v: u8, i: int) -> u8 {
    if bit_of(v, i) {
        (v - bit_val(i)) as u8
    } else {
        v
    }
}

/// Tests bit `bit` of byte `b`.
pub fn check_bit(b: u8, bit: u8) -> (r: bool)
    requires
        bit < 8,
    ensures
        r == bit_of(b, bit as int),
{
    let mask = bit_mask(bit);
    b / mask % 2 == 1
}

} // verus!
