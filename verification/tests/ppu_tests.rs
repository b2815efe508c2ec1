use znes_wasm::ppu::Ppu;

#[test]
fn beam_advances_one_dot_per_step() {
    let mut ppu = Ppu::new();
    for _ in 0..273 {
        assert!(!ppu.step());
    }
    assert!(!ppu.in_hblank());
    ppu.step();
    assert!(ppu.in_hblank());
    for _ in 274..341 {
        ppu.step();
    }
    assert_eq!(ppu.get_scanline(), 1);
    assert!(!ppu.in_hblank());
}

#[test]
fn frame_completes_after_262_lines() {
    let mut ppu = Ppu::new();
    let mut steps = 0u32;
    loop {
        steps += 1;
        if ppu.step() {
            break;
        }
    }
    assert_eq!(steps, 262 * 341);
    assert_eq!(ppu.get_scanline(), 0);
    assert!(!ppu.in_vblank());
}

#[test]
fn vblank_starts_at_line_225() {
    let mut ppu = Ppu::new();
    // Leave the power-on vertical blank first.
    while !ppu.step() {}
    for _ in 0..(224 * 341) {
        ppu.step();
    }
    assert_eq!(ppu.get_scanline(), 224);
    assert!(!ppu.in_vblank());
    for _ in 0..341 {
        ppu.step();
    }
    assert_eq!(ppu.get_scanline(), 225);
    assert!(ppu.in_vblank());
}

#[test]
fn cgram_write_then_read() {
    let mut ppu = Ppu::new();
    ppu.write_register(0x2121, 0x20);
    ppu.write_register(0x2122, 0xEF);
    ppu.write_register(0x2122, 0x3B);
    ppu.write_register(0x2121, 0x20);
    assert_eq!(ppu.read_register(0x213B), 0xEF);
    assert_eq!(ppu.read_register(0x213B), 0x3B);
}

#[test]
fn vram_write_then_read() {
    let mut ppu = Ppu::new();
    ppu.write_register(0x2115, 0x00);
    ppu.write_register(0x2116, 0x34);
    ppu.write_register(0x2117, 0x12);
    ppu.write_register(0x2118, 0x5A);
    ppu.write_register(0x2116, 0x34);
    ppu.write_register(0x2117, 0x12);
    assert_eq!(ppu.read_register(0x2139), 0x5A);
}

#[test]
fn oam_write_then_read() {
    let mut ppu = Ppu::new();
    ppu.write_register(0x2102, 0x21);
    ppu.write_register(0x2103, 0x01);
    ppu.write_register(0x2104, 0x77);
    ppu.write_register(0x2102, 0x21);
    ppu.write_register(0x2103, 0x01);
    assert_eq!(ppu.read_register(0x2138), 0x77);
}

#[test]
fn forced_blank_draws_nothing() {
    let mut ppu = Ppu::new();
    ppu.write_cgram_wasm(0, &[0x001F]);
    for _ in 0..341 {
        ppu.step();
    }
    assert_eq!(ppu.framebuffer[0], 0);
    assert_eq!(ppu.framebuffer[512], 0);
}

/// A PPU showing BG1 in mode 0 with every pixel of lines 0 and 1 in
/// colour 1, after the beam has entered line 1.
fn ppu_with_bg1_line(color: u16, inidisp: u8) -> Ppu {
    let mut ppu = Ppu::new();
    // Move every sprite below the visible lines.
    let oam: Vec<u8> = (0..512).map(|i| if i % 4 == 1 { 0xF0 } else { 0 }).collect();
    ppu.write_oam_wasm(0, &oam);
    ppu.write_vram_wasm(0, &[0xFF, 0x00, 0xFF]); // tile 0, rows 0 and 1, plane 0
    ppu.write_cgram_wasm(1, &[color]);
    ppu.write_register(0x2107, 0x04); // BG1 tilemap at $0800
    ppu.write_register(0x212C, 0x01); // BG1 on the main screen
    ppu.write_register(0x2100, inidisp);
    for _ in 0..341 {
        ppu.step();
    }
    ppu
}

#[test]
fn bg1_fills_a_line_at_full_brightness() {
    let ppu = ppu_with_bg1_line(0x001F, 0x0F); // pure red
    // Line 1 is drawn into row 1 as the beam enters it, red in the low
    // byte, opaque.
    assert_eq!(ppu.framebuffer[512], 0xFF0000FF);
    assert_eq!(ppu.framebuffer[512 + 255], 0xFF0000FF);
    assert_eq!(ppu.framebuffer[512 + 256], 0);
    // Line 0 is drawn when the beam comes back to it, after the frame.
    assert_eq!(ppu.framebuffer[0], 0);
}

#[test]
fn brightness_scales_channels() {
    let ppu = ppu_with_bg1_line(0x7C00, 0x07); // pure blue
    // 255 * 7 / 15 = 119
    assert_eq!(ppu.framebuffer[512], 0xFF770000);
}

#[test]
fn sprites_cover_the_background() {
    let mut ppu = Ppu::new();
    // All sprites sit at (0, 0) with tile 0; row 1 of tile 0 has colour 1.
    ppu.write_vram_wasm(0, &[0x00, 0x00, 0xFF]);
    ppu.write_cgram_wasm(0x81, &[0x03E0]); // sprite palette 0, colour 1: green
    ppu.write_register(0x2100, 0x0F);
    for _ in 0..341 {
        ppu.step();
    }
    assert_eq!(ppu.framebuffer[512], 0xFF00FF00);
    assert_eq!(ppu.framebuffer[512 + 7], 0xFF00FF00);
    assert_eq!(ppu.framebuffer[512 + 8], 0);
}

#[test]
fn reset_returns_beam_to_top() {
    let mut ppu = Ppu::new();
    for _ in 0..1000 {
        ppu.step();
    }
    ppu.reset();
    assert_eq!(ppu.get_scanline(), 0);
    assert!(ppu.in_vblank());
}

#[test]
fn oam_data_writes_fill_consecutive_bytes() {
    let mut ppu = Ppu::new();
    ppu.write_register(0x2102, 0x1F);
    ppu.write_register(0x2103, 0x00);
    ppu.write_register(0x2104, 0x11);
    ppu.write_register(0x2104, 0x22);
    ppu.write_register(0x2102, 0x1F);
    ppu.write_register(0x2103, 0x00);
    assert_eq!(ppu.read_register(0x2138), 0x11);
    assert_eq!(ppu.read_register(0x2138), 0x22);
    ppu.write_register(0x2102, 0x00);
    ppu.write_register(0x2103, 0x00);
    assert_eq!(ppu.read_register(0x2138), 0x00);
}

#[test]
fn oam_address_wraps_after_the_last_byte() {
    let mut ppu = Ppu::new();
    // Byte 543 is the last of the high table; the next write lands in byte 0.
    ppu.write_oam_wasm(543, &[0x00]);
    ppu.write_register(0x2102, 0xFF);
    ppu.write_register(0x2103, 0x01);
    for _ in 0..32 {
        ppu.write_register(0x2104, 0x00);
    }
    ppu.write_register(0x2104, 0x5A); // byte 543
    ppu.write_register(0x2104, 0xA5); // byte 0
    ppu.write_register(0x2102, 0x00);
    ppu.write_register(0x2103, 0x00);
    assert_eq!(ppu.read_register(0x2138), 0xA5);
}

#[test]
fn a_frame_draws_all_visible_lines() {
    let mut ppu = Ppu::new();
    ppu.reset();
    assert_eq!(ppu.framebuffer[0], 0xFF000000);
    ppu.write_register(0x2100, 0x0F);
    for _ in 0..89341 {
        assert!(!ppu.step());
    }
    assert!(ppu.step());
    for x in 0..256 {
        assert_eq!(ppu.framebuffer[x], 0);
        assert_eq!(ppu.framebuffer[512 + x], 0);
        assert_eq!(ppu.framebuffer[223 * 512 + x], 0);
    }
    // Line 224 is not visible.
    assert_eq!(ppu.framebuffer[224 * 512], 0xFF000000);
}

#[test]
fn beam_position_after_many_dots() {
    let mut ppu = Ppu::new();
    let n = 2 * 89342 + 5 * 341 + 300;
    for _ in 0..n {
        ppu.step();
    }
    assert_eq!(ppu.get_scanline(), 5);
    assert!(ppu.in_hblank());
}

#[test]
fn vblank_covers_lines_225_to_261_after_a_frame() {
    let mut ppu = Ppu::new();
    while !ppu.step() {}
    for _ in 0..89342 {
        let line = ppu.get_scanline();
        assert_eq!(ppu.in_vblank(), (225..=261).contains(&line));
        ppu.step();
    }
}

#[test]
fn register_writes_between_dots_keep_the_beam() {
    let mut ppu = Ppu::new();
    for k in 0..(3 * 341 + 280) {
        ppu.write_register(0x2100, (k % 16) as u8);
        ppu.write_register(0x2121, k as u8);
        ppu.step();
    }
    assert_eq!(ppu.get_scanline(), 3);
    assert!(ppu.in_hblank());
}
