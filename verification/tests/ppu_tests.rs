use gbemu::mem::{Memory, MemoryRegister};
use gbemu::ppu::{GbColor, Ppu};

#[test]
fn vblank_raised_exactly_once_per_frame() {
    // After 70224 CPU cycles from reset with the LCD disabled, the PPU
    // has raised VBlank exactly once.
    let mut ppu = Ppu::new();
    let mut mem = Memory::new();
    let mut raises: u32 = 0;
    let mut spent: u32 = 0;
    while spent < 70224 {
        if ppu.tick(&mut mem, 4) {
            raises += 1;
        }
        spent += 4;
    }
    assert_eq!(raises, 1);
}

#[test]
fn ly_walks_every_line_once_and_returns_to_zero() {
    // Over one frame LY passes through every value in 0..=153 exactly
    // once and returns to 0.
    let mut ppu = Ppu::new();
    let mut mem = Memory::new();
    let mut seen = [0u32; 154];
    assert_eq!(mem.get_register(MemoryRegister::LY), 0);
    seen[0] += 1;
    for _ in 0..154 {
        ppu.tick(&mut mem, 456);
        let ly = mem.get_register(MemoryRegister::LY) as usize;
        assert!(ly < 154);
        seen[ly] += 1;
    }
    // The last step wrapped back to the start of the next frame.
    assert_eq!(mem.get_register(MemoryRegister::LY), 0);
    seen[0] -= 1;
    for count in seen.iter() {
        assert_eq!(*count, 1);
    }
}

#[test]
fn vblank_cadence_is_periodic() {
    // VBlank recurs once per 70224-cycle frame.
    let mut ppu = Ppu::new();
    let mut mem = Memory::new();
    let mut raises: u32 = 0;
    for _ in 0..3 * 154 {
        if ppu.tick(&mut mem, 456) {
            raises += 1;
        }
    }
    assert_eq!(raises, 3);
}

#[test]
fn bg_palette_decodes_bgp() {
    let mut ppu = Ppu::new();
    // 0b11_10_01_00: index 0 white .. index 3 black.
    ppu.update_bg_palette(0xE4);
    assert_eq!(ppu.bg_palette[0], GbColor::White);
    assert_eq!(ppu.bg_palette[1], GbColor::LightGray);
    assert_eq!(ppu.bg_palette[2], GbColor::DarkGray);
    assert_eq!(ppu.bg_palette[3], GbColor::Black);
    // The inverted palette maps index 0 to black.
    ppu.update_bg_palette(0x1B);
    assert_eq!(ppu.bg_palette[0], GbColor::Black);
    assert_eq!(ppu.bg_palette[3], GbColor::White);
}

#[test]
fn sprite_palettes_decode_obp() {
    let mut ppu = Ppu::new();
    ppu.update_sprite_palettes(0xE4, 0x1B);
    assert_eq!(ppu.sprite0_palette[0], GbColor::LightGray);
    assert_eq!(ppu.sprite0_palette[1], GbColor::DarkGray);
    assert_eq!(ppu.sprite0_palette[2], GbColor::Black);
    assert_eq!(ppu.sprite1_palette[0], GbColor::DarkGray);
    assert_eq!(ppu.sprite1_palette[1], GbColor::LightGray);
    assert_eq!(ppu.sprite1_palette[2], GbColor::White);
}

#[test]
fn renders_tile_row_into_framebuffer() {
    let mut ppu = Ppu::new();
    let mut mem = Memory::new();
    mem.bootrom_paged = false;
    // LCD on (bit 7), tile map at 0x9800 (bit 3 set), unsigned tile data
    // from 0x8000 (bit 4 set).
    mem.set_register(MemoryRegister::LCDC, 0x98);
    // Palette: identity, 0 -> White .. 3 -> Black.
    mem.set_register(MemoryRegister::BGP, 0xE4);
    // Tile 1 row 0: both bit-planes 0xFF, so eight pixels of color 3.
    mem.set_addr(0x8010, 0xFF);
    mem.set_addr(0x8011, 0xFF);
    // The first map entry of the first row selects tile 1.
    mem.set_addr(0x9800, 0x01);
    // One full scanline of cycles renders line 0.
    ppu.tick(&mut mem, 456);
    assert_eq!(mem.get_register(MemoryRegister::LY), 1);
    // Pixels 0..8 of row 0 are black; pixel 8 comes from tile 0 (white).
    for x in 0..8 {
        assert_eq!(ppu.framebuffer[x], GbColor::Black);
    }
    assert_eq!(ppu.framebuffer[8], GbColor::White);
}

#[test]
fn pixel_weaving_orders_bits_left_to_right() {
    let mut ppu = Ppu::new();
    let mut mem = Memory::new();
    mem.bootrom_paged = false;
    mem.set_register(MemoryRegister::LCDC, 0x98);
    mem.set_register(MemoryRegister::BGP, 0xE4);
    // Tile 1 row 0: low plane 0x80 (leftmost pixel), high plane 0x01
    // (rightmost pixel): pixel 0 color 1, pixel 7 color 2.
    mem.set_addr(0x8010, 0x80);
    mem.set_addr(0x8011, 0x01);
    mem.set_addr(0x9800, 0x01);
    ppu.tick(&mut mem, 456);
    assert_eq!(ppu.framebuffer[0], GbColor::LightGray);
    assert_eq!(ppu.framebuffer[7], GbColor::DarkGray);
    for x in 1..7 {
        assert_eq!(ppu.framebuffer[x], GbColor::White);
    }
}

#[test]
fn disabled_lcd_clears_surface_once() {
    let mut ppu = Ppu::new();
    let mut mem = Memory::new();
    mem.bootrom_paged = false;
    // Enable and render one line of black pixels first.
    mem.set_register(MemoryRegister::LCDC, 0x98);
    mem.set_register(MemoryRegister::BGP, 0xE4);
    mem.set_addr(0x8010, 0xFF);
    mem.set_addr(0x8011, 0xFF);
    mem.set_addr(0x9800, 0x01);
    ppu.tick(&mut mem, 456);
    assert_eq!(ppu.framebuffer[0], GbColor::Black);
    assert!(!ppu.disabled);
    // Turn the LCD off: the next boundary clears the surface to white
    // and latches the disabled state.
    mem.set_register(MemoryRegister::LCDC, 0x00);
    ppu.tick(&mut mem, 456);
    assert!(ppu.disabled);
    assert!(ppu.frame_ready);
    assert_eq!(ppu.framebuffer[0], GbColor::White);
}

#[test]
fn frame_presented_at_end_of_blanking() {
    let mut ppu = Ppu::new();
    let mut mem = Memory::new();
    mem.bootrom_paged = false;
    mem.set_register(MemoryRegister::LCDC, 0x98);
    let mut raised = false;
    for _ in 0..154 {
        if ppu.tick(&mut mem, 456) {
            raised = true;
        }
    }
    assert!(raised);
    assert!(ppu.frame_ready);
}
