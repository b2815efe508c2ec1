//! The picture processing unit.
//!
//! The PPU owns video RAM (64 KiB), object attribute memory (544 bytes) and
//! colour RAM (256 BGR555 colours). The CPU reaches it through the registers
//! at $2100-$213F. It runs 341 dots per scanline and 262 scanlines per frame,
//! and draws each visible line (0-223) into a 512-pixel-wide RGBA framebuffer
//! from the background layers of modes 0, 1 and 7 and the sprites.
use vstd::prelude::*;

use crate::bits::lemma_field_bounds;

verus! {

/// Pixels per framebuffer row.
pub const FRAME_WIDTH: usize = 512;

/// Framebuffer rows (room for overscan and interlace).
pub const FRAME_HEIGHT: usize = 478;

/// Pixels in the framebuffer.
pub const FRAMEBUFFER_SIZE: usize = 244736;

/// Dots per scanline.
pub const DOTS_PER_LINE: u16 = 341;

/// Scanlines per frame.
pub const LINES_PER_FRAME: u16 = 262;

/// Visible scanlines.
pub const VISIBLE_LINES: u16 = 224;

/// Which half of a VRAM word advances the VRAM address.
#[derive(Debug, Clone, Copy, PartialEq, Eq, Structural)]
pub enum VramMapping {
    /// After an access to the low byte.
    Increment0,
    /// After an access to the high byte.
    Increment1,
}

/// The picture processing unit.
pub struct Ppu {
    vram: [u8; 0x10000],
    oam: [u8; 544],
    cgram: [u16; 256],
    /// The picture, one RGBA8888 word per pixel, 512 pixels per row.
    pub framebuffer: Vec<u32>,
    scanline: u16,
    dot: u16,
    vram_address: u16,
    vram_increment: u16,
    vram_mapping: VramMapping,
    vram_read_buffer: u16,
    oam_address: u16,
    oam_high_byte: bool,
    oam_latch: u8,
    cgram_address: u8,
    cgram_latch: u8,
    cgram_high_byte: bool,
    inidisp: u8,
    obsel: u8,
    oamadd: u16,
    bgmode: u8,
    mosaic: u8,
    bg_tilemap_addr: [u16; 4],
    bg_chr_addr: [u16; 4],
    bg_hscroll: [u16; 4],
    bg_vscroll: [u16; 4],
    bg_scroll_latch: u8,
    window1_left: u8,
    window1_right: u8,
    window2_left: u8,
    window2_right: u8,
    window_mask_settings: [u8; 6],
    window_mask_logic: [u8; 6],
    tm: u8,
    ts: u8,
    tmw: u8,
    tsw: u8,
    cgwsel: u8,
    cgadsub: u8,
    coldata: u8,
    fixed_color: [u8; 3],
    m7sel: u8,
    m7: [i16; 6],
    m7_latch: u8,
    stat77: u8,
    stat78: u8,
    ophct: u16,
    opvct: u16,
    vblank: bool,
    hblank: bool,
    frame_complete: bool,
}

/// The PPU as the contracts see it. `m7` holds the mode 7 matrix A, B, C, D
/// and the centre X, Y; the `bg_` sequences are indexed by layer (BG1 = 0).
pub struct PpuView {
    pub vram: Seq<u8>,
    pub oam: Seq<u8>,
    pub cgram: Seq<u16>,
    pub framebuffer: Seq<u32>,
    pub scanline: u16,
    pub dot: u16,
    pub vram_address: u16,
    pub vram_increment: u16,
    pub vram_mapping: VramMapping,
    pub vram_read_buffer: u16,
    pub oam_address: u16,
    pub oam_high_byte: bool,
    pub oam_latch: u8,
    pub cgram_address: u8,
    pub cgram_latch: u8,
    pub cgram_high_byte: bool,
    pub inidisp: u8,
    pub obsel: u8,
    pub oamadd: u16,
    pub bgmode: u8,
    pub mosaic: u8,
    pub bg_tilemap_addr: Seq<u16>,
    pub bg_chr_addr: Seq<u16>,
    pub bg_hscroll: Seq<u16>,
    pub bg_vscroll: Seq<u16>,
    pub bg_scroll_latch: u8,
    pub window1_left: u8,
    pub window1_right: u8,
    pub window2_left: u8,
    pub window2_right: u8,
    pub window_mask_settings: Seq<u8>,
    pub window_mask_logic: Seq<u8>,
    pub tm: u8,
    pub ts: u8,
    pub tmw: u8,
    pub tsw: u8,
    pub cgwsel: u8,
    pub cgadsub: u8,
    pub coldata: u8,
    pub fixed_color: Seq<u8>,
    pub m7sel: u8,
    pub m7: Seq<i16>,
    pub m7_latch: u8,
    pub stat77: u8,
    pub stat78: u8,
    pub ophct: u16,
    pub opvct: u16,
    pub vblank: bool,
    pub hblank: bool,
    pub frame_complete: bool,
}

impl View for Ppu {
    type V = PpuView;

    closed spec fn view(&self) -> PpuView {
        PpuView {
            vram: self.vram@,
            oam: self.oam@,
            cgram: self.cgram@,
            framebuffer: self.framebuffer@,
            scanline: self.scanline,
            dot: self.dot,
            vram_address: self.vram_address,
            vram_increment: self.vram_increment,
            vram_mapping: self.vram_mapping,
            vram_read_buffer: self.vram_read_buffer,
            oam_address: self.oam_address,
            oam_high_byte: self.oam_high_byte,
            oam_latch: self.oam_latch,
            cgram_address: self.cgram_address,
            cgram_latch: self.cgram_latch,
            cgram_high_byte: self.cgram_high_byte,
            inidisp: self.inidisp,
            obsel: self.obsel,
            oamadd: self.oamadd,
            bgmode: self.bgmode,
            mosaic: self.mosaic,
            bg_tilemap_addr: self.bg_tilemap_addr@,
            bg_chr_addr: self.bg_chr_addr@,
            bg_hscroll: self.bg_hscroll@,
            bg_vscroll: self.bg_vscroll@,
            bg_scroll_latch: self.bg_scroll_latch,
            window1_left: self.window1_left,
            window1_right: self.window1_right,
            window2_left: self.window2_left,
            window2_right: self.window2_right,
            window_mask_settings: self.window_mask_settings@,
            window_mask_logic: self.window_mask_logic@,
            tm: self.tm,
            ts: self.ts,
            tmw: self.tmw,
            tsw: self.tsw,
            cgwsel: self.cgwsel,
            cgadsub: self.cgadsub,
            coldata: self.coldata,
            fixed_color: self.fixed_color@,
            m7sel: self.m7sel,
            m7: self.m7@,
            m7_latch: self.m7_latch,
            stat77: self.stat77,
            stat78: self.stat78,
            ophct: self.ophct,
            opvct: self.opvct,
            vblank: self.vblank,
            hblank: self.hblank,
            frame_complete: self.frame_complete,
        }
    }
}

/// The shape every PPU state has: memories of their sizes, the framebuffer
/// of its size, and the beam inside the frame.
pub open spec fn ppu_wf(v: PpuView) -> bool {
    &&& v.vram.len() == 0x10000
    &&& v.oam.len() == 544
    &&& v.cgram.len() == 256
    &&& v.framebuffer.len() == FRAMEBUFFER_SIZE
    &&& v.bg_tilemap_addr.len() == 4
    &&& v.bg_chr_addr.len() == 4
    &&& v.bg_hscroll.len() == 4
    &&& v.bg_vscroll.len() == 4
    &&& v.window_mask_settings.len() == 6
    &&& v.window_mask_logic.len() == 6
    &&& v.fixed_color.len() == 3
    &&& v.m7.len() == 6
    &&& v.dot < DOTS_PER_LINE
    &&& v.scanline < LINES_PER_FRAME
}

/// The PPU at power-on: memories clear, forced blank, in vertical blank,
/// VRAM address stepping by one word after low-byte accesses.
pub open spec fn ppu_init() -> PpuView {
    PpuView {
        vram: Seq::new(0x10000, |i: int| 0u8),
        oam: Seq::new(544, |i: int| 0u8),
        cgram: Seq::new(256, |i: int| 0u16),
        framebuffer: Seq::new(FRAMEBUFFER_SIZE as nat, |i: int| 0u32),
        scanline: 0,
        dot: 0,
        vram_address: 0,
        vram_increment: 1,
        vram_mapping: VramMapping::Increment0,
        vram_read_buffer: 0,
        oam_address: 0,
        oam_high_byte: false,
        oam_latch: 0,
        cgram_address: 0,
        cgram_latch: 0,
        cgram_high_byte: false,
        inidisp: 0x80,
        obsel: 0,
        oamadd: 0,
        bgmode: 0,
        mosaic: 0,
        bg_tilemap_addr: seq![0u16, 0u16, 0u16, 0u16],
        bg_chr_addr: seq![0u16, 0u16, 0u16, 0u16],
        bg_hscroll: seq![0u16, 0u16, 0u16, 0u16],
        bg_vscroll: seq![0u16, 0u16, 0u16, 0u16],
        bg_scroll_latch: 0,
        window1_left: 0,
        window1_right: 0,
        window2_left: 0,
        window2_right: 0,
        window_mask_settings: seq![0u8, 0u8, 0u8, 0u8, 0u8, 0u8],
        window_mask_logic: seq![0u8, 0u8, 0u8, 0u8, 0u8, 0u8],
        tm: 0,
        ts: 0,
        tmw: 0,
        tsw: 0,
        cgwsel: 0,
        cgadsub: 0,
        coldata: 0,
        fixed_color: seq![0u8, 0u8, 0u8],
        m7sel: 0,
        m7: seq![0i16, 0i16, 0i16, 0i16, 0i16, 0i16],
        m7_latch: 0,
        stat77: 0,
        stat78: 0,
        ophct: 0,
        opvct: 0,
        vblank: true,
        hblank: false,
        frame_complete: false,
    }
}

// ---------------------------------------------------------------------------
// Registers
// ---------------------------------------------------------------------------

/// A 16-bit register written as two bytes through one address: the byte
/// written before (the latch) is the low byte, this one the high byte.
pub open spec fn latched_word(latch: u8, value: u8) -> u16 {
    (value as int * 256 + latch as int) as u16
}

/// The same pair of bytes read as a signed mode 7 parameter.
pub open spec fn latched_signed(latch: u8, value: u8) -> i16 {
    (value as int * 256 + latch as int) as i16
}

/// The next OAM address: one on, wrapping after the last of the 544 bytes.
pub open spec fn next_oam_address(a: u16) -> u16 {
    if a as int + 1 >= 544 {
        0
    } else {
        (a + 1) as u16
    }
}

/// The VRAM address step that VMAIN selects.
pub open spec fn vram_step(value: u8) -> u16 {
    if value & 3 == 0 {
        1
    } else if value & 3 == 1 {
        32
    } else {
        128
    }
}

/// The VRAM address after a data access: stepped when the access was to
/// the half that the mapping names.
pub open spec fn vram_after_access(v: PpuView, high: bool) -> u16 {
    if (v.vram_mapping == VramMapping::Increment1) == high {
        ((v.vram_address as int + v.vram_increment as int) % 0x10000) as u16
    } else {
        v.vram_address
    }
}

/// The byte offset in VRAM of the addressed word's low or high half.
pub open spec fn vram_byte(v: PpuView, high: bool) -> int {
    v.vram_address as int * 2 + (if high { 1int } else { 0int })
}

/// A tilemap base address from BGnSC: bits 2-7 select a 2 KiB block.
pub open spec fn tilemap_base(value: u8) -> u16 {
    ((value & 0xFC) as int * 512 % 0x10000) as u16
}

/// Character data bases from BGnnNBA: bits 0-3 select an 8 KiB block for the
/// first layer of the pair, bits 4-7 for the second (both wrap at 64 KiB).
pub open spec fn chr_bases(value: u8) -> (u16, u16) {
    (((value & 0x0F) as int * 0x2000 % 0x10000) as u16, ((value & 0xF0) as int * 0x200 % 0x10000) as u16)
}

/// What a write of `value` to PPU register `addr` does.
pub open spec fn ppu_write(v: PpuView, addr: u16, value: u8) -> PpuView {
    if addr == 0x2100 {
        PpuView { inidisp: value, ..v }
    } else if addr == 0x2101 {
        PpuView { obsel: value, ..v }
    } else if addr == 0x2102 {
        let oamadd = ((v.oamadd & 0xFF00) | (value as u16)) as u16;
        PpuView { oamadd, oam_address: oamadd, ..v }
    } else if addr == 0x2103 {
        let oamadd = ((v.oamadd & 0x00FF) | (((value & 1) as int * 256) as u16)) as u16;
        PpuView { oamadd, oam_address: oamadd, oam_high_byte: false, ..v }
    } else if addr == 0x2104 {
        if v.oam_address < 544 {
            PpuView {
                oam: v.oam.update(v.oam_address as int, value),
                oam_address: next_oam_address(v.oam_address),
                ..v
            }
        } else {
            v
        }
    } else if addr == 0x2105 {
        PpuView { bgmode: value, ..v }
    } else if addr == 0x2106 {
        PpuView { mosaic: value, ..v }
    } else if 0x2107 <= addr <= 0x210A {
        PpuView {
            bg_tilemap_addr: v.bg_tilemap_addr.update(addr - 0x2107, tilemap_base(value)),
            ..v
        }
    } else if addr == 0x210B || addr == 0x210C {
        let first: int = if addr == 0x210B { 0 } else { 2 };
        PpuView {
            bg_chr_addr: v.bg_chr_addr.update(first, chr_bases(value).0).update(
                first + 1,
                chr_bases(value).1,
            ),
            ..v
        }
    } else if 0x210D <= addr <= 0x2114 {
        let k = addr - 0x210D;
        let word = latched_word(v.bg_scroll_latch, value);
        if k % 2 == 0 {
            PpuView { bg_hscroll: v.bg_hscroll.update(k / 2, word), bg_scroll_latch: value, ..v }
        } else {
            PpuView { bg_vscroll: v.bg_vscroll.update(k / 2, word), bg_scroll_latch: value, ..v }
        }
    } else if addr == 0x2115 {
        PpuView {
            vram_increment: vram_step(value),
            vram_mapping: if value & 4 != 0 {
                VramMapping::Increment1
            } else {
                VramMapping::Increment0
            },
            ..v
        }
    } else if addr == 0x2116 {
        PpuView { vram_address: ((v.vram_address & 0xFF00) | (value as u16)) as u16, ..v }
    } else if addr == 0x2117 {
        PpuView { vram_address: ((v.vram_address & 0x00FF) | ((value as int * 256) as u16)) as u16, ..v }
    } else if addr == 0x2118 || addr == 0x2119 {
        let high = addr == 0x2119;
        let i = vram_byte(v, high);
        PpuView {
            vram: if i < 0x10000 {
                v.vram.update(i, value)
            } else {
                v.vram
            },
            vram_address: vram_after_access(v, high),
            ..v
        }
    } else if addr == 0x211A {
        PpuView { m7sel: value, ..v }
    } else if 0x211B <= addr <= 0x2120 {
        PpuView {
            m7: v.m7.update(addr - 0x211B, latched_signed(v.m7_latch, value)),
            m7_latch: value,
            ..v
        }
    } else if addr == 0x2121 {
        PpuView { cgram_address: value, cgram_high_byte: false, ..v }
    } else if addr == 0x2122 {
        if !v.cgram_high_byte {
            PpuView { cgram_latch: value, cgram_high_byte: true, ..v }
        } else {
            PpuView {
                cgram: v.cgram.update(v.cgram_address as int, latched_word(v.cgram_latch, value)),
                cgram_address: ((v.cgram_address as int + 1) % 256) as u8,
                cgram_high_byte: false,
                ..v
            }
        }
    } else if 0x2123 <= addr <= 0x2125 {
        let k = 2 * (addr - 0x2123);
        PpuView {
            window_mask_settings: v.window_mask_settings.update(k, value & 0x0F).update(
                k + 1,
                value / 16,
            ),
            ..v
        }
    } else if addr == 0x2126 {
        PpuView { window1_left: value, ..v }
    } else if addr == 0x2127 {
        PpuView { window1_right: value, ..v }
    } else if addr == 0x2128 {
        PpuView { window2_left: value, ..v }
    } else if addr == 0x2129 {
        PpuView { window2_right: value, ..v }
    } else if addr == 0x212A {
        PpuView {
            window_mask_logic: v.window_mask_logic.update(0, value & 3).update(
                1,
                (value / 4) & 3,
            ).update(2, (value / 16) & 3).update(3, value / 64),
            ..v
        }
    } else if addr == 0x212B {
        PpuView {
            window_mask_logic: v.window_mask_logic.update(4, value & 3).update(5, (value / 4) & 3),
            ..v
        }
    } else if addr == 0x212C {
        PpuView { tm: value, ..v }
    } else if addr == 0x212D {
        PpuView { ts: value, ..v }
    } else if addr == 0x212E {
        PpuView { tmw: value, ..v }
    } else if addr == 0x212F {
        PpuView { tsw: value, ..v }
    } else if addr == 0x2130 {
        PpuView { cgwsel: value, ..v }
    } else if addr == 0x2131 {
        PpuView { cgadsub: value, ..v }
    } else if addr == 0x2132 {
        let c = value & 0x1F;
        PpuView {
            coldata: value,
            fixed_color: seq![
                if value & 0x20 != 0 { c } else { v.fixed_color[0] },
                if value & 0x40 != 0 { c } else { v.fixed_color[1] },
                if value & 0x80 != 0 { c } else { v.fixed_color[2] },
            ],
            ..v
        }
    } else {
        v
    }
}

/// What a read of PPU register `addr` returns, and the PPU afterwards.
/// Registers that cannot be read give 0.
pub open spec fn ppu_read(v: PpuView, addr: u16) -> (u8, PpuView) {
    if addr == 0x2137 {
        (0, PpuView { ophct: v.dot, opvct: v.scanline, ..v })
    } else if addr == 0x2138 {
        (
            if v.oam_address < 544 {
                v.oam[v.oam_address as int]
            } else {
                0
            },
            PpuView { oam_address: next_oam_address(v.oam_address), ..v },
        )
    } else if addr == 0x2139 || addr == 0x213A {
        let high = addr == 0x213A;
        let i = vram_byte(v, high);
        (
            if i < 0x10000 {
                v.vram[i]
            } else {
                0
            },
            PpuView { vram_address: vram_after_access(v, high), ..v },
        )
    } else if addr == 0x213B {
        let color = v.cgram[v.cgram_address as int];
        if !v.cgram_high_byte {
            ((color % 256) as u8, PpuView { cgram_high_byte: true, ..v })
        } else {
            (
                (color / 256) as u8,
                PpuView {
                    cgram_address: ((v.cgram_address as int + 1) % 256) as u8,
                    cgram_high_byte: false,
                    ..v
                },
            )
        }
    } else if addr == 0x213C {
        ((v.ophct % 256) as u8, v)
    } else if addr == 0x213D {
        ((v.opvct % 256) as u8, v)
    } else if addr == 0x213E {
        (0x01, v)
    } else if addr == 0x213F {
        (
            (0x03 + (if v.vblank { 0x80int } else { 0 }) + (if v.hblank { 0x40int } else { 0 })) as u8,
            v,
        )
    } else {
        (0, v)
    }
}


/// `data` written from `start` on, one element per position, the position
/// wrapping at `modulus`; positions past the end of `mem` are skipped.
/// The first `n` elements of `data` have been written.
pub open spec fn bulk_write<T>(mem: Seq<T>, start: int, modulus: int, data: Seq<T>, n: nat) -> Seq<T>
    decreases n,
{
    if n == 0 {
        mem
    } else {
        let prev = bulk_write(mem, start, modulus, data, (n - 1) as nat);
        let a = (start + n - 1) % modulus;
        if 0 <= a < prev.len() {
            prev.update(a, data[n - 1])
        } else {
            prev
        }
    }
}

proof fn lemma_bulk_write_len<T>(mem: Seq<T>, start: int, modulus: int, data: Seq<T>, n: nat)
    ensures
        bulk_write(mem, start, modulus, data, n).len() == mem.len(),
    decreases n,
{
    if n > 0 {
        lemma_bulk_write_len(mem, start, modulus, data, (n - 1) as nat);
    }
}

fn latched_word_exec(latch: u8, value: u8) -> (r: u16)
    ensures
        r == latched_word(latch, value),
{
    (value as u16) * 256 + latch as u16
}

fn latched_signed_exec(latch: u8, value: u8) -> (r: i16)
    ensures
        r == latched_signed(latch, value),
{
    ((value as u16) * 256 + latch as u16) as i16
}

fn next_oam_address_exec(a: u16) -> (r: u16)
    ensures
        r == next_oam_address(a),
{
    if a >= 543 {
        0
    } else {
        a + 1
    }
}

impl Ppu {
    /// The contracts' shape of this PPU (see `ppu_wf`).
    pub closed spec fn wf(&self) -> bool {
        ppu_wf(self@)
    }

    /// A PPU at power-on (see `ppu_init`).
    pub fn new() -> (p: Self)
        ensures
            p@ == ppu_init(),
            p.wf(),
    {
        let p = Ppu {
            vram: [0u8; 0x10000],
            oam: [0u8; 544],
            cgram: [0u16; 256],
            framebuffer: vec![0u32; FRAMEBUFFER_SIZE],
            scanline: 0,
            dot: 0,
            vram_address: 0,
            vram_increment: 1,
            vram_mapping: VramMapping::Increment0,
            vram_read_buffer: 0,
            oam_address: 0,
            oam_high_byte: false,
            oam_latch: 0,
            cgram_address: 0,
            cgram_latch: 0,
            cgram_high_byte: false,
            inidisp: 0x80,
            obsel: 0,
            oamadd: 0,
            bgmode: 0,
            mosaic: 0,
            bg_tilemap_addr: [0u16; 4],
            bg_chr_addr: [0u16; 4],
            bg_hscroll: [0u16; 4],
            bg_vscroll: [0u16; 4],
            bg_scroll_latch: 0,
            window1_left: 0,
            window1_right: 0,
            window2_left: 0,
            window2_right: 0,
            window_mask_settings: [0u8; 6],
            window_mask_logic: [0u8; 6],
            tm: 0,
            ts: 0,
            tmw: 0,
            tsw: 0,
            cgwsel: 0,
            cgadsub: 0,
            coldata: 0,
            fixed_color: [0u8; 3],
            m7sel: 0,
            m7: [0i16; 6],
            m7_latch: 0,
            stat77: 0,
            stat78: 0,
            ophct: 0,
            opvct: 0,
            vblank: true,
            hblank: false,
            frame_complete: false,
        };
        assert(p@.vram =~= ppu_init().vram);
        assert(p@.oam =~= ppu_init().oam);
        assert(p@.cgram =~= ppu_init().cgram);
        assert(p@.framebuffer =~= ppu_init().framebuffer);
        assert(p@.bg_tilemap_addr =~= ppu_init().bg_tilemap_addr);
        assert(p@.bg_chr_addr =~= ppu_init().bg_chr_addr);
        assert(p@.bg_hscroll =~= ppu_init().bg_hscroll);
        assert(p@.bg_vscroll =~= ppu_init().bg_vscroll);
        assert(p@.window_mask_settings =~= ppu_init().window_mask_settings);
        assert(p@.window_mask_logic =~= ppu_init().window_mask_logic);
        assert(p@.fixed_color =~= ppu_init().fixed_color);
        assert(p@.m7 =~= ppu_init().m7);
        p
    }

    /// INIDISP, OBSEL, the OAM address and data, BGMODE and MOSAIC.
    #[verifier::spinoff_prover]
    fn write_display(&mut self, addr: u16, value: u8)
        requires
            old(self).wf(),
            0x2100 <= addr <= 0x2106,
        ensures
            final(self).wf(),
            final(self)@ == ppu_write(old(self)@, addr, value),
    {
        if addr == 0x2100 {
            self.inidisp = value;
        } else if addr == 0x2101 {
            self.obsel = value;
        } else if addr == 0x2102 {
            self.oamadd = (self.oamadd & 0xFF00) | value as u16;
            self.oam_address = self.oamadd;
        } else if addr == 0x2103 {
            self.oamadd = (self.oamadd & 0x00FF) | ((value & 1) as u16 * 256);
            self.oam_address = self.oamadd;
            self.oam_high_byte = false;
        } else if addr == 0x2104 {
            if self.oam_address < 544 {
                self.oam[self.oam_address as usize] = value;
                self.oam_address = next_oam_address_exec(self.oam_address);
            }
        } else if addr == 0x2105 {
            self.bgmode = value;
        } else {
            self.mosaic = value;
        }
        proof {
            let w = ppu_write(old(self)@, addr, value);
            assert(self@.oam =~= w.oam);
            assert(self@.vram =~= w.vram);
            assert(self@.cgram =~= w.cgram);
            assert(self@.bg_tilemap_addr =~= w.bg_tilemap_addr);
            assert(self@.bg_chr_addr =~= w.bg_chr_addr);
            assert(self@.bg_hscroll =~= w.bg_hscroll);
            assert(self@.bg_vscroll =~= w.bg_vscroll);
            assert(self@.m7 =~= w.m7);
            assert(self@.window_mask_settings =~= w.window_mask_settings);
            assert(self@.window_mask_logic =~= w.window_mask_logic);
            assert(self@.fixed_color =~= w.fixed_color);
        }
    }

    /// Tilemap and character bases and scroll offsets.
    #[verifier::spinoff_prover]
    fn write_background(&mut self, addr: u16, value: u8)
        requires
            old(self).wf(),
            0x2107 <= addr <= 0x2114,
        ensures
            final(self).wf(),
            final(self)@ == ppu_write(old(self)@, addr, value),
    {
        if addr <= 0x210A {
            let base = (((value & 0xFC) as u32) * 512 % 0x10000) as u16;
            self.bg_tilemap_addr[(addr - 0x2107) as usize] = base;
        } else if addr <= 0x210C {
            let first: usize = if addr == 0x210B {
                0
            } else {
                2
            };
            let low = (((value & 0x0F) as u32) * 0x2000 % 0x10000) as u16;
            let high = (((value & 0xF0) as u32) * 0x200 % 0x10000) as u16;
            self.bg_chr_addr[first] = low;
            self.bg_chr_addr[first + 1] = high;
        } else {
            let k = (addr - 0x210D) as usize;
            let word = latched_word_exec(self.bg_scroll_latch, value);
            if k % 2 == 0 {
                self.bg_hscroll[k / 2] = word;
            } else {
                self.bg_vscroll[k / 2] = word;
            }
            self.bg_scroll_latch = value;
        }
        proof {
            let w = ppu_write(old(self)@, addr, value);
            assert(self@.oam =~= w.oam);
            assert(self@.vram =~= w.vram);
            assert(self@.cgram =~= w.cgram);
            assert(self@.bg_tilemap_addr =~= w.bg_tilemap_addr);
            assert(self@.bg_chr_addr =~= w.bg_chr_addr);
            assert(self@.bg_hscroll =~= w.bg_hscroll);
            assert(self@.bg_vscroll =~= w.bg_vscroll);
            assert(self@.m7 =~= w.m7);
            assert(self@.window_mask_settings =~= w.window_mask_settings);
            assert(self@.window_mask_logic =~= w.window_mask_logic);
            assert(self@.fixed_color =~= w.fixed_color);
        }
    }

    /// VMAIN, the VRAM address and the VRAM data port.
    #[verifier::spinoff_prover]
    fn write_vram_port(&mut self, addr: u16, value: u8)
        requires
            old(self).wf(),
            0x2115 <= addr <= 0x2119,
        ensures
            final(self).wf(),
            final(self)@ == ppu_write(old(self)@, addr, value),
    {
        if addr == 0x2115 {
            self.vram_increment = if value & 3 == 0 {
                1
            } else if value & 3 == 1 {
                32
            } else {
                128
            };
            self.vram_mapping = if (value & 4) != 0 {
                VramMapping::Increment1
            } else {
                VramMapping::Increment0
            };
        } else if addr == 0x2116 {
            self.vram_address = (self.vram_address & 0xFF00) | value as u16;
        } else if addr == 0x2117 {
            self.vram_address = (self.vram_address & 0x00FF) | (value as u16 * 256);
        } else {
            let high = addr == 0x2119;
            let byte = (self.vram_address as u32) * 2 + if high {
                1
            } else {
                0
            };
            if byte < 0x10000 {
                self.vram[byte as usize] = value;
            }
            let steps = match self.vram_mapping {
                VramMapping::Increment1 => high,
                VramMapping::Increment0 => !high,
            };
            if steps {
                self.vram_address = self.vram_address.wrapping_add(self.vram_increment);
            }
        }
        proof {
            let w = ppu_write(old(self)@, addr, value);
            assert(self@.oam =~= w.oam);
            assert(self@.vram =~= w.vram);
            assert(self@.cgram =~= w.cgram);
            assert(self@.bg_tilemap_addr =~= w.bg_tilemap_addr);
            assert(self@.bg_chr_addr =~= w.bg_chr_addr);
            assert(self@.bg_hscroll =~= w.bg_hscroll);
            assert(self@.bg_vscroll =~= w.bg_vscroll);
            assert(self@.m7 =~= w.m7);
            assert(self@.window_mask_settings =~= w.window_mask_settings);
            assert(self@.window_mask_logic =~= w.window_mask_logic);
            assert(self@.fixed_color =~= w.fixed_color);
        }
    }

    /// M7SEL and the mode 7 matrix and centre.
    #[verifier::spinoff_prover]
    fn write_mode7(&mut self, addr: u16, value: u8)
        requires
            old(self).wf(),
            0x211A <= addr <= 0x2120,
        ensures
            final(self).wf(),
            final(self)@ == ppu_write(old(self)@, addr, value),
    {
        if addr == 0x211A {
            self.m7sel = value;
        } else {
            self.m7[(addr - 0x211B) as usize] = latched_signed_exec(self.m7_latch, value);
            self.m7_latch = value;
        }
        proof {
            let w = ppu_write(old(self)@, addr, value);
            assert(self@.oam =~= w.oam);
            assert(self@.vram =~= w.vram);
            assert(self@.cgram =~= w.cgram);
            assert(self@.bg_tilemap_addr =~= w.bg_tilemap_addr);
            assert(self@.bg_chr_addr =~= w.bg_chr_addr);
            assert(self@.bg_hscroll =~= w.bg_hscroll);
            assert(self@.bg_vscroll =~= w.bg_vscroll);
            assert(self@.m7 =~= w.m7);
            assert(self@.window_mask_settings =~= w.window_mask_settings);
            assert(self@.window_mask_logic =~= w.window_mask_logic);
            assert(self@.fixed_color =~= w.fixed_color);
        }
    }

    /// The colour RAM address and data port.
    #[verifier::spinoff_prover]
    fn write_colour(&mut self, addr: u16, value: u8)
        requires
            old(self).wf(),
            0x2121 <= addr <= 0x2122,
        ensures
            final(self).wf(),
            final(self)@ == ppu_write(old(self)@, addr, value),
    {
        if addr == 0x2121 {
            self.cgram_address = value;
            self.cgram_high_byte = false;
        } else if !self.cgram_high_byte {
            self.cgram_latch = value;
            self.cgram_high_byte = true;
        } else {
            let color = latched_word_exec(self.cgram_latch, value);
            self.cgram[self.cgram_address as usize] = color;
            self.cgram_address = self.cgram_address.wrapping_add(1);
            self.cgram_high_byte = false;
        }
        proof {
            let w = ppu_write(old(self)@, addr, value);
            assert(self@.oam =~= w.oam);
            assert(self@.vram =~= w.vram);
            assert(self@.cgram =~= w.cgram);
            assert(self@.bg_tilemap_addr =~= w.bg_tilemap_addr);
            assert(self@.bg_chr_addr =~= w.bg_chr_addr);
            assert(self@.bg_hscroll =~= w.bg_hscroll);
            assert(self@.bg_vscroll =~= w.bg_vscroll);
            assert(self@.m7 =~= w.m7);
            assert(self@.window_mask_settings =~= w.window_mask_settings);
            assert(self@.window_mask_logic =~= w.window_mask_logic);
            assert(self@.fixed_color =~= w.fixed_color);
        }
    }

    /// The window masks, positions and logic.
    #[verifier::spinoff_prover]
    fn write_windows(&mut self, addr: u16, value: u8)
        requires
            old(self).wf(),
            0x2123 <= addr <= 0x212B,
        ensures
            final(self).wf(),
            final(self)@ == ppu_write(old(self)@, addr, value),
    {
        if addr <= 0x2125 {
            let k = 2 * (addr - 0x2123) as usize;
            self.window_mask_settings[k] = value & 0x0F;
            self.window_mask_settings[k + 1] = value / 16;
        } else if addr == 0x2126 {
            self.window1_left = value;
        } else if addr == 0x2127 {
            self.window1_right = value;
        } else if addr == 0x2128 {
            self.window2_left = value;
        } else if addr == 0x2129 {
            self.window2_right = value;
        } else if addr == 0x212A {
            self.window_mask_logic[0] = value & 3;
            self.window_mask_logic[1] = (value / 4) & 3;
            self.window_mask_logic[2] = (value / 16) & 3;
            self.window_mask_logic[3] = value / 64;
        } else {
            self.window_mask_logic[4] = value & 3;
            self.window_mask_logic[5] = (value / 4) & 3;
        }
        proof {
            let w = ppu_write(old(self)@, addr, value);
            assert(self@.oam =~= w.oam);
            assert(self@.vram =~= w.vram);
            assert(self@.cgram =~= w.cgram);
            assert(self@.bg_tilemap_addr =~= w.bg_tilemap_addr);
            assert(self@.bg_chr_addr =~= w.bg_chr_addr);
            assert(self@.bg_hscroll =~= w.bg_hscroll);
            assert(self@.bg_vscroll =~= w.bg_vscroll);
            assert(self@.m7 =~= w.m7);
            assert(self@.window_mask_settings =~= w.window_mask_settings);
            assert(self@.window_mask_logic =~= w.window_mask_logic);
            assert(self@.fixed_color =~= w.fixed_color);
        }
    }

    /// Screen designations, window enables and colour math.
    #[verifier::spinoff_prover]
    fn write_screens(&mut self, addr: u16, value: u8)
        requires
            old(self).wf(),
            0x212C <= addr <= 0x2132,
        ensures
            final(self).wf(),
            final(self)@ == ppu_write(old(self)@, addr, value),
    {
        if addr == 0x212C {
            self.tm = value;
        } else if addr == 0x212D {
            self.ts = value;
        } else if addr == 0x212E {
            self.tmw = value;
        } else if addr == 0x212F {
            self.tsw = value;
        } else if addr == 0x2130 {
            self.cgwsel = value;
        } else if addr == 0x2131 {
            self.cgadsub = value;
        } else {
            self.coldata = value;
            if value & 0x20 != 0 {
                self.fixed_color[0] = value & 0x1F;
            }
            if value & 0x40 != 0 {
                self.fixed_color[1] = value & 0x1F;
            }
            if value & 0x80 != 0 {
                self.fixed_color[2] = value & 0x1F;
            }
        }
        proof {
            let w = ppu_write(old(self)@, addr, value);
            assert(self@.oam =~= w.oam);
            assert(self@.vram =~= w.vram);
            assert(self@.cgram =~= w.cgram);
            assert(self@.bg_tilemap_addr =~= w.bg_tilemap_addr);
            assert(self@.bg_chr_addr =~= w.bg_chr_addr);
            assert(self@.bg_hscroll =~= w.bg_hscroll);
            assert(self@.bg_vscroll =~= w.bg_vscroll);
            assert(self@.m7 =~= w.m7);
            assert(self@.window_mask_settings =~= w.window_mask_settings);
            assert(self@.window_mask_logic =~= w.window_mask_logic);
            assert(self@.fixed_color =~= w.fixed_color);
        }
    }

    /// Writes a PPU register (see `ppu_write`); unknown addresses are
    /// ignored.
    pub fn write_register(&mut self, addr: u16, value: u8)
        requires
            old(self).wf(),
        ensures
            final(self).wf(),
            final(self)@ == ppu_write(old(self)@, addr, value),
    {
        if 0x2100 <= addr && addr <= 0x2106 {
            self.write_display(addr, value);
        } else if 0x2107 <= addr && addr <= 0x2114 {
            self.write_background(addr, value);
        } else if 0x2115 <= addr && addr <= 0x2119 {
            self.write_vram_port(addr, value);
        } else if 0x211A <= addr && addr <= 0x2120 {
            self.write_mode7(addr, value);
        } else if 0x2121 <= addr && addr <= 0x2122 {
            self.write_colour(addr, value);
        } else if 0x2123 <= addr && addr <= 0x212B {
            self.write_windows(addr, value);
        } else if 0x212C <= addr && addr <= 0x2132 {
            self.write_screens(addr, value);
        }
    }

    /// Reads a PPU register (see `ppu_read`).
    pub fn read_register(&mut self, addr: u16) -> (r: u8)
        requires
            old(self).wf(),
        ensures
            final(self).wf(),
            (r, final(self)@) == ppu_read(old(self)@, addr),
    {
        if addr == 0x2137 {
            self.ophct = self.dot;
            self.opvct = self.scanline;
            0
        } else if addr == 0x2138 {
            let value = if self.oam_address < 544 {
                self.oam[self.oam_address as usize]
            } else {
                0
            };
            self.oam_address = next_oam_address_exec(self.oam_address);
            value
        } else if addr == 0x2139 || addr == 0x213A {
            let high = addr == 0x213A;
            let byte = (self.vram_address as u32) * 2 + if high {
                1
            } else {
                0
            };
            let value = if byte < 0x10000 {
                self.vram[byte as usize]
            } else {
                0
            };
            let steps = match self.vram_mapping {
                VramMapping::Increment1 => high,
                VramMapping::Increment0 => !high,
            };
            if steps {
                self.vram_address = self.vram_address.wrapping_add(self.vram_increment);
            }
            value
        } else if addr == 0x213B {
            let color = self.cgram[self.cgram_address as usize];
            if !self.cgram_high_byte {
                self.cgram_high_byte = true;
                (color % 256) as u8
            } else {
                self.cgram_address = self.cgram_address.wrapping_add(1);
                self.cgram_high_byte = false;
                (color / 256) as u8
            }
        } else if addr == 0x213C {
            (self.ophct % 256) as u8
        } else if addr == 0x213D {
            (self.opvct % 256) as u8
        } else if addr == 0x213E {
            0x01
        } else if addr == 0x213F {
            let mut value: u8 = 0x03;
            if self.vblank {
                value = value + 0x80;
            }
            if self.hblank {
                value = value + 0x40;
            }
            value
        } else {
            0
        }
    }

    /// Whether the beam is in vertical blank.
    pub fn in_vblank(&self) -> (b: bool)
        ensures
            b == self@.vblank,
    {
        self.vblank
    }

    /// Whether the beam is in horizontal blank.
    pub fn in_hblank(&self) -> (b: bool)
        ensures
            b == self@.hblank,
    {
        self.hblank
    }

    /// The current scanline.
    pub fn get_scanline(&self) -> (line: u16)
        ensures
            line == self@.scanline,
    {
        self.scanline
    }

    /// The picture as a slice.
    pub fn framebuffer_slice(&self) -> (f: &[u32])
        ensures
            f@ == self@.framebuffer,
    {
        self.framebuffer.as_slice()
    }

    /// The picture as a mutable slice; what is written through it becomes
    /// the picture.
    pub fn framebuffer_slice_mut(&mut self) -> (f: &mut [u32])
        ensures
            f@ == old(self)@.framebuffer,
            final(self)@ == (PpuView { framebuffer: final(f)@, ..old(self)@ }),
            old(self).wf() && final(f)@.len() == f@.len() ==> final(self).wf(),
    {
        self.framebuffer.as_mut_slice()
    }

    /// Copies `data` into VRAM from `addr` on, wrapping at 64 KiB.
    #[verifier::spinoff_prover]
    pub fn write_vram_wasm(&mut self, addr: u16, data: &[u8])
        requires
            old(self).wf(),
        ensures
            final(self).wf(),
            final(self)@ == (PpuView {
                vram: bulk_write(old(self)@.vram, addr as int, 0x10000, data@, data@.len()),
                ..old(self)@
            }),
    {
        let mut i: usize = 0;
        let mut a: u16 = addr;
        while i < data.len()
            invariant
                i <= data@.len(),
                a as int == (addr as int + i) % 0x10000,
                self.wf(),
                self@ == (PpuView {
                    vram: bulk_write(old(self)@.vram, addr as int, 0x10000, data@, i as nat),
                    ..old(self)@
                }),
            decreases data@.len() - i,
        {
            self.vram[a as usize] = data[i];
            a = a.wrapping_add(1);
            i = i + 1;
            proof {
                lemma_bulk_write_len(old(self)@.vram, addr as int, 0x10000, data@, (i - 1) as nat);
                assert(self@.vram =~= bulk_write(old(self)@.vram, addr as int, 0x10000, data@, i as nat));
            }
        }
    }

    /// Copies `data` into colour RAM from `addr` on, wrapping at 256.
    #[verifier::spinoff_prover]
    pub fn write_cgram_wasm(&mut self, addr: u8, data: &[u16])
        requires
            old(self).wf(),
        ensures
            final(self).wf(),
            final(self)@ == (PpuView {
                cgram: bulk_write(old(self)@.cgram, addr as int, 256, data@, data@.len()),
                ..old(self)@
            }),
    {
        let mut i: usize = 0;
        let mut a: u8 = addr;
        while i < data.len()
            invariant
                i <= data@.len(),
                a as int == (addr as int + i) % 256,
                self.wf(),
                self@ == (PpuView {
                    cgram: bulk_write(old(self)@.cgram, addr as int, 256, data@, i as nat),
                    ..old(self)@
                }),
            decreases data@.len() - i,
        {
            self.cgram[a as usize] = data[i];
            a = a.wrapping_add(1);
            i = i + 1;
            proof {
                lemma_bulk_write_len(old(self)@.cgram, addr as int, 256, data@, (i - 1) as nat);
                assert(self@.cgram =~= bulk_write(old(self)@.cgram, addr as int, 256, data@, i as nat));
            }
        }
    }

    /// Copies `data` into OAM from `addr` on, the address wrapping at 64 KiB;
    /// bytes that fall past the 544 bytes of OAM are dropped.
    #[verifier::spinoff_prover]
    pub fn write_oam_wasm(&mut self, addr: u16, data: &[u8])
        requires
            old(self).wf(),
        ensures
            final(self).wf(),
            final(self)@ == (PpuView {
                oam: bulk_write(old(self)@.oam, addr as int, 0x10000, data@, data@.len()),
                ..old(self)@
            }),
    {
        let mut i: usize = 0;
        let mut a: u16 = addr;
        while i < data.len()
            invariant
                i <= data@.len(),
                a as int == (addr as int + i) % 0x10000,
                self.wf(),
                self@ == (PpuView {
                    oam: bulk_write(old(self)@.oam, addr as int, 0x10000, data@, i as nat),
                    ..old(self)@
                }),
            decreases data@.len() - i,
        {
            if (a as usize) < 544 {
                self.oam[a as usize] = data[i];
            }
            a = a.wrapping_add(1);
            i = i + 1;
            proof {
                lemma_bulk_write_len(old(self)@.oam, addr as int, 0x10000, data@, (i - 1) as nat);
                assert(self@.oam =~= bulk_write(old(self)@.oam, addr as int, 0x10000, data@, i as nat));
            }
        }
    }
}

impl Default for Ppu {
    fn default() -> (p: Self)
        ensures
            p@ == ppu_init(),
            p.wf(),
    {
        Self::new()
    }
}


// ---------------------------------------------------------------------------
// Pixels
// ---------------------------------------------------------------------------

/// A 5-bit colour channel widened to 8 bits (the top bits repeated below).
pub open spec fn expand5(c: int) -> int {
    c * 8 + c / 4
}

/// A BGR555 colour as an opaque RGBA8888 word (red in the low byte).
pub open spec fn rgba(color: u16) -> u32 {
    (0xFF00_0000 + expand5((color as int / 1024) % 32) * 0x10000 + expand5((color as int / 32) % 32)
        * 0x100 + expand5(color as int % 32)) as u32
}

/// A channel at brightness `b` of 15.
pub open spec fn scale(c: int, b: int) -> int {
    c * b / 15
}

/// An RGBA word with its colour channels at brightness `b` of 15 (alpha
/// kept).
pub open spec fn dim(color: u32, b: u8) -> u32 {
    let c = color as int;
    ((c / 0x100_0000) * 0x100_0000 + scale((c / 0x10000) % 256, b as int) * 0x10000 + scale(
        (c / 0x100) % 256,
        b as int,
    ) * 0x100 + scale(c % 256, b as int)) as u32
}

fn rgb555_to_rgba8888(color: u16) -> (r: u32)
    ensures
        r == rgba(color),
{
    let red = (color % 32) as u32;
    let green = ((color / 32) % 32) as u32;
    let blue = ((color / 1024) % 32) as u32;
    0xFF00_0000 + (blue * 8 + blue / 4) * 0x10000 + (green * 8 + green / 4) * 0x100 + (red * 8
        + red / 4)
}

fn apply_brightness(color: u32, brightness: u8) -> (r: u32)
    requires
        brightness <= 15,
    ensures
        r == dim(color, brightness),
{
    let red = color % 256;
    let green = (color / 0x100) % 256;
    let blue = (color / 0x10000) % 256;
    let alpha = color / 0x100_0000;
    let b = brightness as u32;
    assert(red * b <= 255 * 15 && green * b <= 255 * 15 && blue * b <= 255 * 15)
        by (nonlinear_arith)
        requires
            red < 256,
            green < 256,
            blue < 256,
            b <= 15,
    ;
    assert(red * b / 15 <= 255 && green * b / 15 <= 255 && blue * b / 15 <= 255);
    alpha * 0x100_0000 + (blue * b / 15) * 0x10000 + (green * b / 15) * 0x100 + red * b / 15
}

/// The VRAM byte at `a`, the address wrapping at 64 KiB.
pub open spec fn vram_at(vram: Seq<u8>, a: int) -> u8 {
    vram[a % 0x10000]
}

/// Bit `7 - x` of a bitplane byte: the pixel in column `x` (0 leftmost).
pub open spec fn plane_bit(plane: u8, x: u8) -> u8 {
    (plane >> ((7 - x) as u8)) & 1
}

/// The colour index of column `x` of a 2bpp tile row stored at `a`.
pub open spec fn decode2(vram: Seq<u8>, a: int, x: u8) -> u8 {
    plane_bit(vram_at(vram, a), x) | (plane_bit(vram_at(vram, a + 1), x) << 1u8)
}

/// The colour index of column `x` of a 4bpp tile row stored at `a`: planes
/// 0-1 at `a`, planes 2-3 sixteen bytes on.
pub open spec fn decode4(vram: Seq<u8>, a: int, x: u8) -> u8 {
    decode2(vram, a, x) | (decode2(vram, a + 16, x) << 2u8)
}

/// The colour index of column `x` of an 8bpp tile row stored at `a`: planes
/// in pairs 16 bytes apart.
pub open spec fn decode8(vram: Seq<u8>, a: int, x: u8) -> u8 {
    decode4(vram, a, x) | (decode4(vram, a + 32, x) << 4u8)
}

/// The colour index of pixel (`x`, `y`) of tile `tile` of a character set
/// at `chr` with `bpp` bits per pixel (2, 4 or 8; anything else reads 0).
pub open spec fn tile_pixel(vram: Seq<u8>, chr: u16, tile: u16, x: u8, y: u8, bpp: u8) -> u8 {
    if bpp == 2 {
        decode2(vram, chr + tile * 16 + y * 2, x)
    } else if bpp == 4 {
        decode4(vram, chr + tile * 32 + y * 2, x)
    } else if bpp == 8 {
        decode8(vram, chr + tile * 64 + y * 2, x)
    } else {
        0
    }
}

fn read_vram(vram: &[u8; 0x10000], a: u32) -> (r: u8)
    ensures
        r == vram_at(vram@, a as int),
{
    vram[(a % 0x10000) as usize]
}

fn plane_bit_exec(plane: u8, x: u8) -> (r: u8)
    requires
        x < 8,
    ensures
        r == plane_bit(plane, x),
{
    (plane >> (7 - x)) & 1
}

fn decode_2bpp(vram: &[u8; 0x10000], a: u32, x: u8) -> (r: u8)
    requires
        x < 8,
        a < 0x110000,
    ensures
        r == decode2(vram@, a as int, x),
{
    plane_bit_exec(read_vram(vram, a), x) | (plane_bit_exec(read_vram(vram, a + 1), x) << 1u8)
}

fn decode_4bpp(vram: &[u8; 0x10000], a: u32, x: u8) -> (r: u8)
    requires
        x < 8,
        a < 0x108000,
    ensures
        r == decode4(vram@, a as int, x),
{
    decode_2bpp(vram, a, x) | (decode_2bpp(vram, a + 16, x) << 2u8)
}

fn decode_8bpp(vram: &[u8; 0x10000], a: u32, x: u8) -> (r: u8)
    requires
        x < 8,
        a < 0x100000,
    ensures
        r == decode8(vram@, a as int, x),
{
    decode_4bpp(vram, a, x) | (decode_4bpp(vram, a + 32, x) << 4u8)
}

fn get_tile_pixel(vram: &[u8; 0x10000], chr: u16, tile: u16, x: u8, y: u8, bpp: u8) -> (r: u8)
    requires
        x < 8,
        y < 8,
        tile < 0x1000,
    ensures
        r == tile_pixel(vram@, chr, tile, x, y, bpp),
{
    if bpp == 2 {
        decode_2bpp(vram, chr as u32 + tile as u32 * 16 + y as u32 * 2, x)
    } else if bpp == 4 {
        decode_4bpp(vram, chr as u32 + tile as u32 * 32 + y as u32 * 2, x)
    } else if bpp == 8 {
        decode_8bpp(vram, chr as u32 + tile as u32 * 64 + y as u32 * 2, x)
    } else {
        0
    }
}


// ---------------------------------------------------------------------------
// Backgrounds
// ---------------------------------------------------------------------------

/// Bits per pixel of layer `bg` in BG mode `mode`.
pub open spec fn bg_bpp(bg: int, mode: u8) -> u8 {
    if mode == 0 {
        2
    } else if mode == 1 {
        if bg <= 1 {
            4
        } else {
            2
        }
    } else if mode == 2 {
        4
    } else if mode == 3 {
        if bg == 0 {
            8
        } else {
            4
        }
    } else if mode == 4 {
        if bg == 0 {
            8
        } else {
            2
        }
    } else if mode == 5 {
        if bg == 0 {
            4
        } else {
            2
        }
    } else if mode == 6 {
        4
    } else {
        8
    }
}

/// Layer `bg` drawn over the pixel `px` (colour, priority of the layer that
/// drew it) in column `x` of the current line, for its tiles of priority
/// `pri`, as a layer of priority `lp`: a 32x32 tilemap of 8x8 tiles scrolled
/// within 512x512 pixels; colour 0 is transparent, and a layer only covers a
/// pixel drawn at no higher priority.
#[verifier::opaque]
pub open spec fn bg_pass(v: PpuView, bg: int, pri: u8, lp: u8, x: int, px: (u32, u8)) -> (u32, u8) {
    let tile_y = (v.scanline as int + v.bg_vscroll[bg] as int) % 512;
    let tile_x = (x + v.bg_hscroll[bg] as int) % 512;
    let map = v.bg_tilemap_addr[bg] as int + ((tile_y / 8) * 32 + tile_x / 8) * 2;
    let lo = vram_at(v.vram, map);
    let hi = vram_at(v.vram, map + 1);
    let tile = (lo as int + (hi & 3) as int * 256) as u16;
    let fine_x = (tile_x % 8) as u8;
    let fine_y = (tile_y % 8) as u8;
    let col = if hi & 0x40 != 0 {
        (7 - fine_x) as u8
    } else {
        fine_x
    };
    let row = if hi & 0x80 != 0 {
        (7 - fine_y) as u8
    } else {
        fine_y
    };
    let bpp = bg_bpp(bg, v.bgmode & 7);
    let ci = tile_pixel(v.vram, v.bg_chr_addr[bg], tile, col, row, bpp);
    if (hi / 32) & 1 != pri || ci == 0 || lp < px.1 {
        px
    } else {
        (rgba(v.cgram[((((hi / 4) & 7) << bpp) | ci) as int]), lp)
    }
}

/// The layer passes of modes 0 and 1, back to front: (layer, tile
/// priority, layer priority). `bg3_high` is BGMODE bit 3.
pub open spec fn pass_list(mode: u8, bg3_high: bool) -> Seq<(int, u8, u8)> {
    if mode == 0 {
        seq![
            (3, 0u8, 2u8),
            (2, 0u8, if bg3_high { 8u8 } else { 4u8 }),
            (1, 0u8, 6u8),
            (0, 0u8, 10u8),
            (3, 1u8, 3u8),
            (2, 1u8, if bg3_high { 9u8 } else { 5u8 }),
            (1, 1u8, 7u8),
            (0, 1u8, 11u8),
        ]
    } else {
        seq![
            (2, 0u8, if bg3_high { 8u8 } else { 2u8 }),
            (1, 0u8, 4u8),
            (0, 0u8, 6u8),
            (2, 1u8, if bg3_high { 9u8 } else { 3u8 }),
            (1, 1u8, 5u8),
            (0, 1u8, 7u8),
        ]
    }
}

/// Whether TM puts layer `bg` on the main screen.
pub open spec fn on_main_screen(v: PpuView, bg: int) -> bool {
    if bg == 0 {
        v.tm & 1 != 0
    } else if bg == 1 {
        v.tm & 2 != 0
    } else if bg == 2 {
        v.tm & 4 != 0
    } else {
        v.tm & 8 != 0
    }
}

/// The first `n` passes drawn over `px` in column `x`; a pass whose layer is
/// off the main screen draws nothing.
pub open spec fn run_passes(v: PpuView, passes: Seq<(int, u8, u8)>, n: nat, x: int, px: (u32, u8)) -> (u32, u8)
    decreases n,
{
    if n == 0 {
        px
    } else {
        let prev = run_passes(v, passes, (n - 1) as nat, x, px);
        let p = passes[n - 1];
        if on_main_screen(v, p.0) {
            bg_pass(v, p.0, p.1, p.2, x, prev)
        } else {
            prev
        }
    }
}

/// Mode 7: column `x` of the current line through the affine matrix (A B /
/// C D, 8 fractional bits) about the screen centre, plus the centre
/// parameters, gives a point of the 1024x1024 map of 8x8 tiles. M7SEL bits
/// 6-7: 0 wraps the map, 1 and 2 leave pixels off the map as they were, 3
/// draws nothing. Drawn pixels take priority 8.
#[verifier::opaque]
pub open spec fn mode7_pass(v: PpuView, x: int, px: (u32, u8)) -> (u32, u8) {
    let sx = x - 128;
    let sy = v.scanline as int - 112;
    let tx = (v.m7[0] * sx + v.m7[1] * sy) / 256 + v.m7[4];
    let ty = (v.m7[2] * sx + v.m7[3] * sy) / 256 + v.m7[5];
    let repeat = v.m7sel / 64;
    if repeat == 3 || (repeat != 0 && (tx < 0 || tx >= 1024 || ty < 0 || ty >= 1024)) {
        px
    } else {
        let mx = tx % 1024;
        let my = ty % 1024;
        let tile = vram_at(v.vram, (my / 8) * 128 + mx / 8);
        let ci = vram_at(v.vram, tile * 64 + (my % 8) * 8 + mx % 8);
        if ci == 0 {
            px
        } else {
            (rgba(v.cgram[ci as int]), 8)
        }
    }
}

/// The background of column `x` of the current line: the passes of modes 0
/// and 1, mode 7, or black for the modes not drawn.
pub open spec fn background_pixel(v: PpuView, x: int) -> (u32, u8) {
    let mode = v.bgmode & 7;
    if mode == 0 || mode == 1 {
        let passes = pass_list(mode, v.bgmode & 8 != 0);
        run_passes(v, passes, passes.len(), x, (0, 0))
    } else if mode == 7 {
        mode7_pass(v, x, (0, 0))
    } else {
        (rgba(0), 0)
    }
}

/// What a line buffer holds in its first 256 columns, as pairs.
pub open spec fn line_pairs(color: Seq<u32>, prio: Seq<u8>, x: int) -> (u32, u8) {
    (color[x], prio[x])
}

impl Ppu {
    /// One pixel of a layer pass (see `bg_pass`).
    #[verifier::spinoff_prover]
    fn bg_pixel(&self, bg: usize, pri: u8, lp: u8, x: u32, px: (u32, u8)) -> (r: (u32, u8))
        requires
            self.wf(),
            bg < 4,
            x < 256,
            self@.bgmode & 7 == 0 || self@.bgmode & 7 == 1,
        ensures
            r == bg_pass(self@, bg as int, pri, lp, x as int, px),
    {
        reveal(bg_pass);
        let mode = self.bgmode & 7;
        let bpp: u8 = if mode == 1 && bg <= 1 {
            4
        } else {
            2
        };
        let tile_y = (self.scanline as u32 + self.bg_vscroll[bg] as u32) % 512;
        let fine_y = (tile_y % 8) as u8;
        let tile_x = (x + self.bg_hscroll[bg] as u32) % 512;
        let fine_x = (tile_x % 8) as u8;
        let map = self.bg_tilemap_addr[bg] as u32 + ((tile_y / 8) * 32 + tile_x / 8) * 2;
        let lo = read_vram(&self.vram, map);
        let hi = read_vram(&self.vram, map + 1);
        proof {
            lemma_field_bounds(hi, 0, 0);
        }
        let tile = lo as u16 + ((hi & 3) as u16) * 256;
        if (hi / 32) & 1 != pri {
            return px;
        }
        let col = if hi & 0x40 != 0 {
            7 - fine_x
        } else {
            fine_x
        };
        let row = if hi & 0x80 != 0 {
            7 - fine_y
        } else {
            fine_y
        };
        let ci = get_tile_pixel(&self.vram, self.bg_chr_addr[bg], tile, col, row, bpp);
        if ci == 0 || lp < px.1 {
            px
        } else {
            let index = (((hi / 4) & 7) << bpp) | ci;
            (rgb555_to_rgba8888(self.cgram[index as usize]), lp)
        }
    }

    /// Draws one layer pass over the line buffers (see `bg_pass`).
    fn render_bg_layer(
        &self,
        bg: usize,
        pri: u8,
        lp: u8,
        color: &mut [u32; 512],
        prio: &mut [u8; 512],
    )
        requires
            self.wf(),
            bg < 4,
            self@.bgmode & 7 == 0 || self@.bgmode & 7 == 1,
        ensures
            forall|x: int|
                0 <= x < 256 ==> line_pairs(final(color)@, final(prio)@, x) == bg_pass(
                    self@,
                    bg as int,
                    pri,
                    lp,
                    x,
                    line_pairs(old(color)@, old(prio)@, x),
                ),
            forall|x: int| 256 <= x < 512 ==> final(color)@[x] == old(color)@[x] && final(prio)@[x] == old(prio)@[x],
    {
        let mut x: usize = 0;
        while x < 256
            invariant
                self.wf(),
                bg < 4,
                self@.bgmode & 7 == 0 || self@.bgmode & 7 == 1,
                x <= 256,
                forall|i: int|
                    0 <= i < x ==> line_pairs(color@, prio@, i) == bg_pass(
                        self@,
                        bg as int,
                        pri,
                        lp,
                        i,
                        line_pairs(old(color)@, old(prio)@, i),
                    ),
                forall|i: int| x <= i < 512 ==> color@[i] == old(color)@[i] && prio@[i] == old(prio)@[i],
            decreases 256 - x,
        {
            let ghost c0 = color@;
            let ghost p0 = prio@;
            let (c, p) = self.bg_pixel(bg, pri, lp, x as u32, (color[x], prio[x]));
            color[x] = c;
            prio[x] = p;
            assert forall|i: int| 0 <= i < x + 1 implies line_pairs(color@, prio@, i) == bg_pass(
                self@,
                bg as int,
                pri,
                lp,
                i,
                line_pairs(old(color)@, old(prio)@, i),
            ) by {
                if i < x {
                    assert(line_pairs(color@, prio@, i) == line_pairs(c0, p0, i));
                }
            }
            x = x + 1;
        }
    }
}

/// The layer pass `k` of modes 0 and 1 (see `pass_list`).
fn pass_at(mode: u8, bg3_high: bool, k: usize) -> (r: (usize, u8, u8))
    requires
        mode == 0 ==> k < 8,
        mode != 0 ==> k < 6,
    ensures
        (r.0 as int, r.1, r.2) == pass_list(mode, bg3_high)[k as int],
        r.0 < 4,
{
    if mode == 0 {
        match k {
            0 => (3, 0, 2),
            1 => (2, 0, if bg3_high { 8 } else { 4 }),
            2 => (1, 0, 6),
            3 => (0, 0, 10),
            4 => (3, 1, 3),
            5 => (2, 1, if bg3_high { 9 } else { 5 }),
            6 => (1, 1, 7),
            _ => (0, 1, 11),
        }
    } else {
        match k {
            0 => (2, 0, if bg3_high { 8 } else { 2 }),
            1 => (1, 0, 4),
            2 => (0, 0, 6),
            3 => (2, 1, if bg3_high { 9 } else { 3 }),
            4 => (1, 1, 5),
            _ => (0, 1, 7),
        }
    }
}

/// `t / 256` rounded down.
fn floor_div256(t: i32) -> (r: i32)
    requires
        -0x100_0000 <= t < 0x100_0000,
    ensures
        r == t / 256,
        -0x10000 <= r < 0x10000,
{
    ((t + 0x100_0000) as u32 / 256) as i32 - 0x10000
}

/// One mode 7 map coordinate: `(p * sx + q * sy) / 256 + centre`.
fn m7_coord(p: i16, q: i16, sx: i32, sy: i32, centre: i16) -> (r: i32)
    requires
        -128 <= sx <= 127,
        -112 <= sy <= 149,
    ensures
        r == (p * sx + q * sy) / 256 + centre,
        -0x20000 <= r < 0x20000,
{
    let a = p as i32;
    let b = q as i32;
    assert(-4194304 <= a * sx <= 4194304) by (nonlinear_arith)
        requires
            -32768 <= a <= 32767,
            -128 <= sx <= 127,
    ;
    assert(-4882432 <= b * sy <= 4882432) by (nonlinear_arith)
        requires
            -32768 <= b <= 32767,
            -112 <= sy <= 149,
    ;
    floor_div256(a * sx + b * sy) + centre as i32
}

/// `t` modulo 1024 (never negative).
fn wrap1024(t: i32) -> (r: u32)
    requires
        -0x10_0000 <= t < 0x10_0000,
    ensures
        r == t % 1024,
{
    (t + 0x10_0000) as u32 % 1024
}

impl Ppu {
    /// Draws the passes of mode 0 or 1 over the line buffers (see
    /// `run_passes`).
    fn render_passes(&self, color: &mut [u32; 512], prio: &mut [u8; 512])
        requires
            self.wf(),
            self@.bgmode & 7 == 0 || self@.bgmode & 7 == 1,
        ensures
            forall|x: int|
                0 <= x < 256 ==> line_pairs(final(color)@, final(prio)@, x) == run_passes(
                    self@,
                    pass_list(self@.bgmode & 7, self@.bgmode & 8 != 0),
                    pass_list(self@.bgmode & 7, self@.bgmode & 8 != 0).len(),
                    x,
                    line_pairs(old(color)@, old(prio)@, x),
                ),
    {
        let mode = self.bgmode & 7;
        let bg3_high = self.bgmode & 8 != 0;
        let count: usize = if mode == 0 {
            8
        } else {
            6
        };
        let ghost passes = pass_list(mode, bg3_high);
        let mut k: usize = 0;
        while k < count
            invariant
                self.wf(),
                mode == self@.bgmode & 7,
                mode == 0 || mode == 1,
                bg3_high == (self@.bgmode & 8 != 0),
                passes == pass_list(mode, bg3_high),
                count == passes.len(),
                k <= count,
                forall|x: int|
                    0 <= x < 256 ==> line_pairs(color@, prio@, x) == run_passes(
                        self@,
                        passes,
                        k as nat,
                        x,
                        line_pairs(old(color)@, old(prio)@, x),
                    ),
            decreases count - k,
        {
            let (bg, pri, lp) = pass_at(mode, bg3_high, k);
            let on = if bg == 0 {
                self.tm & 1 != 0
            } else if bg == 1 {
                self.tm & 2 != 0
            } else if bg == 2 {
                self.tm & 4 != 0
            } else {
                self.tm & 8 != 0
            };
            if on {
                self.render_bg_layer(bg, pri, lp, color, prio);
            }
            k = k + 1;
        }
    }

    /// One pixel of mode 7 (see `mode7_pass`).
    #[verifier::spinoff_prover]
    fn mode7_pixel(&self, x: u32, px: (u32, u8)) -> (r: (u32, u8))
        requires
            self.wf(),
            x < 256,
        ensures
            r == mode7_pass(self@, x as int, px),
    {
        reveal(mode7_pass);
        let sx: i32 = x as i32 - 128;
        let sy: i32 = self.scanline as i32 - 112;
        let tx = m7_coord(self.m7[0], self.m7[1], sx, sy, self.m7[4]);
        let ty = m7_coord(self.m7[2], self.m7[3], sx, sy, self.m7[5]);
        let repeat = self.m7sel / 64;
        if repeat == 3 || (repeat != 0 && (tx < 0 || tx >= 1024 || ty < 0 || ty >= 1024)) {
            return px;
        }
        let mx = wrap1024(tx);
        let my = wrap1024(ty);
        let tile = read_vram(&self.vram, (my / 8) * 128 + mx / 8);
        let ci = read_vram(&self.vram, tile as u32 * 64 + (my % 8) * 8 + mx % 8);
        if ci == 0 {
            px
        } else {
            (rgb555_to_rgba8888(self.cgram[ci as usize]), 8)
        }
    }

    /// Draws mode 7 over the line buffers.
    fn render_mode7(&self, color: &mut [u32; 512], prio: &mut [u8; 512])
        requires
            self.wf(),
        ensures
            forall|x: int|
                0 <= x < 256 ==> line_pairs(final(color)@, final(prio)@, x) == mode7_pass(
                    self@,
                    x,
                    line_pairs(old(color)@, old(prio)@, x),
                ),
    {
        let mut x: usize = 0;
        while x < 256
            invariant
                self.wf(),
                x <= 256,
                forall|i: int|
                    0 <= i < x ==> line_pairs(color@, prio@, i) == mode7_pass(
                        self@,
                        i,
                        line_pairs(old(color)@, old(prio)@, i),
                    ),
                forall|i: int| x <= i < 512 ==> color@[i] == old(color)@[i] && prio@[i] == old(prio)@[i],
            decreases 256 - x,
        {
            let ghost c0 = color@;
            let ghost p0 = prio@;
            let (c, p) = self.mode7_pixel(x as u32, (color[x], prio[x]));
            color[x] = c;
            prio[x] = p;
            assert forall|i: int| 0 <= i < x + 1 implies line_pairs(color@, prio@, i) == mode7_pass(
                self@,
                i,
                line_pairs(old(color)@, old(prio)@, i),
            ) by {
                if i < x {
                    assert(line_pairs(color@, prio@, i) == line_pairs(c0, p0, i));
                }
            }
            x = x + 1;
        }
    }
}


// ---------------------------------------------------------------------------
// Sprites
// ---------------------------------------------------------------------------

/// The small and large sprite sizes (width, height) that OBSEL bits 5-7
/// select.
pub open spec fn sprite_sizes(obsel: u8) -> ((u8, u8), (u8, u8)) {
    let s = obsel / 32;
    if s == 0 {
        ((8, 8), (16, 16))
    } else if s == 1 {
        ((8, 8), (32, 32))
    } else if s == 2 {
        ((8, 8), (64, 64))
    } else if s == 3 {
        ((16, 16), (32, 32))
    } else if s == 4 {
        ((16, 16), (64, 64))
    } else if s == 5 {
        ((32, 32), (64, 64))
    } else if s == 6 {
        ((16, 32), (32, 64))
    } else {
        ((16, 32), (32, 32))
    }
}

/// The byte of the OAM high table that holds sprite `i`'s X bit 8 and size
/// bit, and where in it they are.
pub open spec fn sprite_high(v: PpuView, i: int) -> (u8, u8) {
    (v.oam[512 + i / 4], ((i % 4) * 2) as u8)
}

/// The X position of sprite `i`: nine bits, read as -256..255.
pub open spec fn sprite_x(v: PpuView, i: int) -> int {
    let (hb, hs) = sprite_high(v, i);
    let x = v.oam[4 * i] as int + 256 * (((hb >> hs) & 1) as int);
    if x >= 256 {
        x - 512
    } else {
        x
    }
}

/// The size (width, height) of sprite `i`.
pub open spec fn sprite_dims(v: PpuView, i: int) -> (u8, u8) {
    let (hb, hs) = sprite_high(v, i);
    if (hb >> ((hs + 1) as u8)) & 1 != 0 {
        sprite_sizes(v.obsel).1
    } else {
        sprite_sizes(v.obsel).0
    }
}

/// Whether sprite `i` covers the current line.
pub open spec fn sprite_on_line(v: PpuView, i: int) -> bool {
    let top = v.oam[4 * i + 1] as int;
    top <= v.scanline < top + sprite_dims(v, i).1
}

/// Sprite `i` drawn over the pixel `px` in column `x` of the current line:
/// 4bpp tiles laid out 16 to a row of the name table, flipped as its
/// attributes say, in palettes 8-15, colour 0 transparent, at priority
/// 12 + its priority bits, covering pixels drawn at no higher priority.
#[verifier::opaque]
pub open spec fn sprite_pass(v: PpuView, i: int, x: int, px: (u32, u8)) -> (u32, u8) {
    let (w, h) = sprite_dims(v, i);
    let sx = sprite_x(v, i);
    if !sprite_on_line(v, i) || x < sx || x >= sx + w {
        px
    } else {
        let tile = v.oam[4 * i + 2] as int;
        let attr = v.oam[4 * i + 3];
        let row = v.scanline - v.oam[4 * i + 1];
        let trow = if attr & 0x80 != 0 {
            h - 1 - row
        } else {
            row
        };
        let col = x - sx;
        let tcol = if attr & 0x40 != 0 {
            w - 1 - col
        } else {
            col
        };
        let cur = tile + (trow / 8) * (w / 8) + tcol / 8;
        let a = (v.obsel & 7) as int * 0x2000 + ((v.obsel / 8) & 3) as int * 0x1000 + cur * 32 + (trow
            % 8) * 2;
        let ci = decode4(v.vram, a, (tcol % 8) as u8);
        let lp = (12 + ((attr / 16) & 3)) as u8;
        if ci == 0 || lp < px.1 {
            px
        } else {
            (rgba(v.cgram[((((((attr / 2) & 7) + 8) as u8) << 4u8) | ci) as int]), lp)
        }
    }
}

/// Sprites 127 down to `i` drawn in turn over `px` in column `x`: sprite
/// 0 is drawn last and wins among equal priorities.
pub open spec fn sprites_from(v: PpuView, i: nat, x: int, px: (u32, u8)) -> (u32, u8)
    decreases 128 - i,
{
    if i >= 128 {
        px
    } else {
        sprite_pass(v, i as int, x, sprites_from(v, i + 1, x, px))
    }
}

proof fn lemma_sprite_pass_outside(v: PpuView, i: int, x: int, px: (u32, u8))
    requires
        !sprite_on_line(v, i) || x < sprite_x(v, i) || x >= sprite_x(v, i) + sprite_dims(v, i).0,
    ensures
        sprite_pass(v, i, x, px) == px,
{
    reveal(sprite_pass);
}

fn sprite_sizes_exec(obsel: u8) -> (r: ((u8, u8), (u8, u8)))
    ensures
        r == sprite_sizes(obsel),
        r.0.0 <= 32 && r.0.1 <= 32 && r.1.0 <= 64 && r.1.1 <= 64,
        r.0.0 >= 8 && r.1.0 >= 8,
{
    let s = obsel / 32;
    if s == 0 {
        ((8, 8), (16, 16))
    } else if s == 1 {
        ((8, 8), (32, 32))
    } else if s == 2 {
        ((8, 8), (64, 64))
    } else if s == 3 {
        ((16, 16), (32, 32))
    } else if s == 4 {
        ((16, 16), (64, 64))
    } else if s == 5 {
        ((32, 32), (64, 64))
    } else if s == 6 {
        ((16, 32), (32, 64))
    } else {
        ((16, 32), (32, 32))
    }
}

/// The VRAM address of the tile row that a sprite pixel lies in (see
/// `sprite_pass`).
fn sprite_row_address(obsel: u8, tile: u32, trow: u32, tcol: u32, w: u8) -> (a: u32)
    requires
        tile < 256,
        trow < 64,
        tcol < 64,
        w <= 64,
    ensures
        a == (obsel & 7) as int * 0x2000 + ((obsel / 8) & 3) as int * 0x1000 + (tile + (trow / 8) * (w
            / 8) + tcol / 8) * 32 + (trow % 8) * 2,
        a < 0x20000,
{
    let tr = trow / 8;
    let wt = w as u32 / 8;
    assert(tr * wt <= 64) by (nonlinear_arith)
        requires
            tr < 8,
            wt <= 8,
    ;
    let cur = tile + tr * wt + tcol / 8;
    proof {
        lemma_field_bounds(obsel, 0, 0);
    }
    (obsel & 7) as u32 * 0x2000 + ((obsel / 8) & 3) as u32 * 0x1000 + cur * 32 + (trow % 8) * 2
}

impl Ppu {
    /// Where sprite `i` lies: whether it covers the current line, its X
    /// position, width and height.
    fn sprite_span(&self, i: usize) -> (r: (bool, i16, u8, u8))
        requires
            self.wf(),
            i < 128,
        ensures
            r.0 == sprite_on_line(self@, i as int),
            r.1 == sprite_x(self@, i as int),
            (r.2, r.3) == sprite_dims(self@, i as int),
            r.2 <= 64,
            r.3 <= 64,
    {
        let hb = self.oam[512 + i / 4];
        let hs = ((i % 4) * 2) as u8;
        proof {
            lemma_field_bounds(hb, hs, 0);
        }
        let x_msb = ((hb >> hs) & 1) as i16;
        let large = (hb >> (hs + 1)) & 1 != 0;
        let x0 = self.oam[4 * i] as i16 + 256 * x_msb;
        let x = if x0 >= 256 {
            x0 - 512
        } else {
            x0
        };
        let (small, big) = sprite_sizes_exec(self.obsel);
        let (w, h) = if large {
            big
        } else {
            small
        };
        let top = self.oam[4 * i + 1] as u16;
        let on_line = top <= self.scanline && self.scanline < top + h as u16;
        (on_line, x, w, h)
    }

    /// One pixel of a sprite (see `sprite_pass`).
    #[verifier::spinoff_prover]
    fn sprite_pixel(&self, i: usize, x: u32, px: (u32, u8)) -> (r: (u32, u8))
        requires
            self.wf(),
            i < 128,
            x < 256,
        ensures
            r == sprite_pass(self@, i as int, x as int, px),
    {
        reveal(sprite_pass);
        let (on_line, sx, w, h) = self.sprite_span(i);
        if !on_line || (x as i32) < sx as i32 || (x as i32) >= sx as i32 + w as i32 {
            return px;
        }
        let top = self.oam[4 * i + 1] as u32;
        let tile = self.oam[4 * i + 2] as u32;
        let attr = self.oam[4 * i + 3];
        let row = self.scanline as u32 - top;
        let trow = if attr & 0x80 != 0 {
            h as u32 - 1 - row
        } else {
            row
        };
        let col = (x as i32 - sx as i32) as u32;
        let tcol = if attr & 0x40 != 0 {
            w as u32 - 1 - col
        } else {
            col
        };
        let a = sprite_row_address(self.obsel, tile, trow, tcol, w);
        let ci = decode_4bpp(&self.vram, a, (tcol % 8) as u8);
        proof {
            lemma_field_bounds(attr, 0, 0);
        }
        let lp = 12 + ((attr / 16) & 3);
        if ci == 0 || lp < px.1 {
            px
        } else {
            let index = ((((attr / 2) & 7) + 8) << 4u8) | ci;
            (rgb555_to_rgba8888(self.cgram[index as usize]), lp)
        }
    }

    /// Draws the sprites over the line buffers, sprite 127 first (see
    /// `sprites_from`).
    fn render_sprites(&self, color: &mut [u32; 512], prio: &mut [u8; 512])
        requires
            self.wf(),
        ensures
            forall|x: int|
                0 <= x < 256 ==> line_pairs(final(color)@, final(prio)@, x) == sprites_from(
                    self@,
                    0,
                    x,
                    line_pairs(old(color)@, old(prio)@, x),
                ),
    {
        let mut i: usize = 128;
        while i > 0
            invariant
                self.wf(),
                i <= 128,
                forall|x: int|
                    0 <= x < 256 ==> line_pairs(color@, prio@, x) == sprites_from(
                        self@,
                        i as nat,
                        x,
                        line_pairs(old(color)@, old(prio)@, x),
                    ),
            decreases i,
        {
            i = i - 1;
            let ghost c0 = color@;
            let ghost p0 = prio@;
            let (on_line, sx, w, _h) = self.sprite_span(i);
            if on_line {
                let mut col: u8 = 0;
                while col < w
                    invariant
                        self.wf(),
                        i < 128,
                        col <= w,
                        w == sprite_dims(self@, i as int).0,
                        w <= 64,
                        sx == sprite_x(self@, i as int),
                        forall|x: int|
                            0 <= x < 256 ==> line_pairs(color@, prio@, x) == if sx <= x < sx + col {
                                sprite_pass(self@, i as int, x, line_pairs(c0, p0, x))
                            } else {
                                line_pairs(c0, p0, x)
                            },
                    decreases w - col,
                {
                    let screen_x = sx as i32 + col as i32;
                    if 0 <= screen_x && screen_x < 256 {
                        let ghost c1 = color@;
                        let ghost p1 = prio@;
                        let sxu = screen_x as usize;
                        assert(line_pairs(color@, prio@, sxu as int) == line_pairs(c0, p0, sxu as int));
                        let (c, p) = self.sprite_pixel(i, sxu as u32, (color[sxu], prio[sxu]));
                        color[sxu] = c;
                        prio[sxu] = p;
                        assert forall|x: int| 0 <= x < 256 implies line_pairs(color@, prio@, x) == if sx
                            <= x < sx + col + 1 {
                            sprite_pass(self@, i as int, x, line_pairs(c0, p0, x))
                        } else {
                            line_pairs(c0, p0, x)
                        } by {
                            if x != sxu {
                                assert(line_pairs(color@, prio@, x) == line_pairs(c1, p1, x));
                            }
                        }
                    } else {
                        assert forall|x: int| 0 <= x < 256 implies line_pairs(color@, prio@, x) == if sx
                            <= x < sx + col + 1 {
                            sprite_pass(self@, i as int, x, line_pairs(c0, p0, x))
                        } else {
                            line_pairs(c0, p0, x)
                        } by {}
                    }
                    col = col + 1;
                }
            }
            assert forall|x: int| 0 <= x < 256 implies line_pairs(color@, prio@, x) == sprites_from(
                self@,
                i as nat,
                x,
                line_pairs(old(color)@, old(prio)@, x),
            ) by {
                if !on_line || x < sx || x >= sx + w {
                    lemma_sprite_pass_outside(self@, i as int, x, line_pairs(c0, p0, x));
                }
            }
        }
    }
}


// ---------------------------------------------------------------------------
// Lines and frames
// ---------------------------------------------------------------------------

/// The final colour of column `x` of the current line: background, then
/// sprites, then the master brightness (INIDISP bits 0-3; 15 is full).
pub open spec fn line_pixel(v: PpuView, x: int) -> u32 {
    let p = sprites_from(v, 0, x, background_pixel(v, x)).0;
    let b = v.inidisp & 0x0F;
    if b < 15 {
        dim(p, b)
    } else {
        p
    }
}

/// The framebuffer with the current line drawn into the first 256 pixels
/// of its row.
pub open spec fn draw_line(v: PpuView) -> Seq<u32> {
    let start = v.scanline as int * FRAME_WIDTH as int;
    Seq::new(
        v.framebuffer.len(),
        |i: int|
            if start <= i < start + 256 {
                line_pixel(v, i - start)
            } else {
                v.framebuffer[i]
            },
    )
}

/// Whether INIDISP bit 7 blanks the display.
pub open spec fn forced_blank(v: PpuView) -> bool {
    v.inidisp & 0x80 != 0
}

/// One dot of the beam: whether a frame completed, and the PPU afterwards.
/// After the last dot of a line the next line starts, and a visible line
/// (0-223) is drawn as the beam enters it unless the display is blanked;
/// line 225 starts vertical blank, and line 262 wraps to line 0, ends
/// vertical blank and completes the frame. Horizontal blank covers dots 274
/// on.
pub open spec fn ppu_step(v: PpuView) -> (bool, PpuView) {
    let dot = v.dot + 1;
    if dot >= DOTS_PER_LINE {
        let line = (v.scanline + 1) as u16;
        let v1 = PpuView { dot: 0, frame_complete: false, hblank: false, ..v };
        let (done, v2) = if line >= LINES_PER_FRAME {
            (true, PpuView { scanline: 0, vblank: false, frame_complete: true, ..v1 })
        } else if line == 225 {
            (false, PpuView { scanline: line, vblank: true, ..v1 })
        } else {
            (false, PpuView { scanline: line, ..v1 })
        };
        if v2.scanline < VISIBLE_LINES && !forced_blank(v2) {
            (done, PpuView { framebuffer: draw_line(v2), ..v2 })
        } else {
            (done, v2)
        }
    } else {
        (false, PpuView { dot: dot as u16, frame_complete: false, hblank: dot >= 274, ..v })
    }
}

/// The PPU after a reset: beam at the top, in vertical blank, display
/// blanked, framebuffer opaque black; everything else stays.
pub open spec fn ppu_reset(v: PpuView) -> PpuView {
    PpuView {
        scanline: 0,
        dot: 0,
        vblank: true,
        hblank: false,
        frame_complete: false,
        inidisp: 0x80,
        framebuffer: Seq::new(v.framebuffer.len(), |i: int| 0xFF00_0000u32),
        ..v
    }
}

impl Ppu {
    /// Draws the current line into the framebuffer (see `draw_line`).
    fn render_scanline(&mut self)
        requires
            old(self).wf(),
            old(self)@.scanline < VISIBLE_LINES,
        ensures
            final(self).wf(),
            final(self)@ == (PpuView { framebuffer: draw_line(old(self)@), ..old(self)@ }),
    {
        let mut color = [0u32; 512];
        let mut prio = [0u8; 512];
        assert(color@ =~= Seq::new(512, |i: int| 0u32));
        assert(prio@ =~= Seq::new(512, |i: int| 0u8));
        let mode = self.bgmode & 7;
        if mode == 0 || mode == 1 {
            self.render_passes(&mut color, &mut prio);
        } else if mode == 7 {
            self.render_mode7(&mut color, &mut prio);
        } else {
            let black = rgb555_to_rgba8888(0);
            let mut x: usize = 0;
            while x < 256
                invariant
                    x <= 256,
                    forall|i: int| 0 <= i < x ==> color@[i] == black,
                    forall|i: int| 0 <= i < 512 ==> prio@[i] == 0,
                    black == rgba(0),
                decreases 256 - x,
            {
                color[x] = black;
                x = x + 1;
            }
        }
        assert forall|x: int| 0 <= x < 256 implies line_pairs(color@, prio@, x) == background_pixel(
            self@,
            x,
        ) by {}
        let ghost c0 = color@;
        let ghost p0 = prio@;
        self.render_sprites(&mut color, &mut prio);
        let brightness = self.inidisp & 0x0F;
        let start = self.scanline as usize * FRAME_WIDTH;
        let ghost v0 = self@;
        assert forall|i: int| 0 <= i < 256 implies #[trigger] color@[i] == sprites_from(
            v0,
            0,
            i,
            background_pixel(v0, i),
        ).0 by {
            assert(line_pairs(color@, prio@, i) == sprites_from(v0, 0, i, line_pairs(c0, p0, i)));
            assert(line_pairs(c0, p0, i) == background_pixel(v0, i));
        }
        assert(self@.framebuffer =~= Seq::new(
            v0.framebuffer.len(),
            |i: int|
                if start <= i < start + 0 {
                    line_pixel(v0, i - start)
                } else {
                    v0.framebuffer[i]
                },
        ));
        let mut x: usize = 0;
        while x < 256
            invariant
                x <= 256,
                start == v0.scanline * FRAME_WIDTH,
                v0.scanline < VISIBLE_LINES,
                brightness == v0.inidisp & 0x0F,
                ppu_wf(v0),
                self.wf(),
                forall|i: int| 0 <= i < 256 ==> #[trigger] color@[i] == sprites_from(v0, 0, i, background_pixel(v0, i)).0,
                self@ == (PpuView {
                    framebuffer: Seq::new(
                        v0.framebuffer.len(),
                        |i: int|
                            if start <= i < start + x {
                                line_pixel(v0, i - start)
                            } else {
                                v0.framebuffer[i]
                            },
                    ),
                    ..v0
                }),
            decreases 256 - x,
        {
            let px = color[x];
            let out = if brightness < 15 {
                apply_brightness(px, brightness)
            } else {
                px
            };
            self.framebuffer[start + x] = out;
            x = x + 1;
            assert(self@.framebuffer =~= Seq::new(
                v0.framebuffer.len(),
                |i: int|
                    if start <= i < start + x {
                        line_pixel(v0, i - start)
                    } else {
                        v0.framebuffer[i]
                    },
            ));
        }
        assert(self@.framebuffer =~= draw_line(v0));
    }

    /// Advances the beam by one dot (see `ppu_step`); returns whether a frame
    /// completed.
    pub fn step(&mut self) -> (done: bool)
        requires
            old(self).wf(),
        ensures
            final(self).wf(),
            (done, final(self)@) == ppu_step(old(self)@),
    {
        self.frame_complete = false;
        self.dot = self.dot + 1;
        if self.dot >= DOTS_PER_LINE {
            self.dot = 0;
            self.hblank = false;
            self.scanline = self.scanline + 1;
            if self.scanline == 225 {
                self.vblank = true;
            }
            if self.scanline >= LINES_PER_FRAME {
                self.scanline = 0;
                self.vblank = false;
                self.frame_complete = true;
            }
            if self.scanline < VISIBLE_LINES && (self.inidisp & 0x80) == 0 {
                self.render_scanline();
            }
        } else {
            self.hblank = self.dot >= 274;
        }
        self.frame_complete
    }

    /// Resets the beam and blanks the display (see `ppu_reset`).
    pub fn reset(&mut self)
        requires
            old(self).wf(),
        ensures
            final(self).wf(),
            final(self)@ == ppu_reset(old(self)@),
    {
        self.scanline = 0;
        self.dot = 0;
        self.vblank = true;
        self.hblank = false;
        self.frame_complete = false;
        self.inidisp = 0x80;
        let ghost v0 = self@;
        assert(self@.framebuffer =~= Seq::new(
            v0.framebuffer.len(),
            |k: int|
                if k < 0 {
                    0xFF00_0000u32
                } else {
                    v0.framebuffer[k]
                },
        ));
        let mut i: usize = 0;
        while i < self.framebuffer.len()
            invariant
                i <= self.framebuffer@.len(),
                self.framebuffer@.len() == v0.framebuffer.len(),
                self@ == (PpuView {
                    framebuffer: Seq::new(
                        v0.framebuffer.len(),
                        |k: int|
                            if k < i {
                                0xFF00_0000u32
                            } else {
                                v0.framebuffer[k]
                            },
                    ),
                    ..v0
                }),
            decreases self.framebuffer@.len() - i,
        {
            self.framebuffer[i] = 0xFF00_0000;
            i = i + 1;
            assert(self@.framebuffer =~= Seq::new(
                v0.framebuffer.len(),
                |k: int|
                    if k < i {
                        0xFF00_0000u32
                    } else {
                        v0.framebuffer[k]
                    },
            ));
        }
        assert(self@.framebuffer =~= ppu_reset(old(self)@).framebuffer);
    }
}


// ---------------------------------------------------------------------------
// Laws
// ---------------------------------------------------------------------------

/// The beam position as a count of dots from the top of the frame.
pub open spec fn beam_position(v: PpuView) -> int {
    v.scanline as int * DOTS_PER_LINE as int + v.dot as int
}

/// The beam counts dots: each step moves it one dot on, a frame being 341
/// dots by 262 lines (89342 dots), and a step reports a finished frame exactly when the
/// beam wraps to the top.
pub proof fn law_beam_counts_dots(v: PpuView)
    requires
        ppu_wf(v),
    ensures
        ppu_wf(ppu_step(v).1),
        beam_position(ppu_step(v).1) == (beam_position(v) + 1) % 89342int,
        ppu_step(v).0 == (beam_position(ppu_step(v).1) == 0),
{
    assert(ppu_step(v).1.framebuffer.len() == v.framebuffer.len());
}

/// A colour written through CGDATA (low byte, then high byte) at the address
/// set in CGADD reads back through CGDATAREAD, low byte first, after CGADD
/// is set to it again.
#[verifier::spinoff_prover]
#[verifier::rlimit(40)]
pub proof fn law_cgram_write_read(v: PpuView, addr: u8, lo: u8, hi: u8)
    requires
        ppu_wf(v),
    ensures
        ({
            let v1 = ppu_write(ppu_write(ppu_write(v, 0x2121, addr), 0x2122, lo), 0x2122, hi);
            let (r1, v2) = ppu_read(ppu_write(v1, 0x2121, addr), 0x213B);
            let (r2, _v3) = ppu_read(v2, 0x213B);
            r1 == lo && r2 == hi
        }),
{
    let w = latched_word(lo, hi);
    assert((w % 256) as u8 == lo && (w / 256) as u8 == hi);
}

proof fn lemma_set_vram_address(v: PpuView, lo: u8, hi: u8)
    requires
        ppu_wf(v),
    ensures
        ppu_write(ppu_write(v, 0x2116, lo), 0x2117, hi) == (PpuView {
            vram_address: (hi as int * 256 + lo as int) as u16,
            ..v
        }),
{
    let va = v.vram_address;
    let v1 = ppu_write(v, 0x2116, lo);
    assert(v1 == PpuView { vram_address: ((va & 0xFF00) | (lo as u16)) as u16, ..v });
    let v2 = ppu_write(v1, 0x2117, hi);
    let x = (va & 0xFF00) | (lo as u16);
    assert(v2 == PpuView { vram_address: ((x & 0x00FF) | ((hi as int * 256) as u16)) as u16, ..v });
    assert(((x & 0x00FF) | ((hi as int * 256) as u16)) == (hi as int * 256 + lo as int) as u16)
        by (bit_vector)
        requires
            x == (va & 0xFF00) | (lo as u16),
    ;
}

proof fn lemma_set_oam_address(v: PpuView, lo: u8, hi: u8)
    requires
        ppu_wf(v),
    ensures
        ppu_write(ppu_write(v, 0x2102, lo), 0x2103, hi) == (PpuView {
            oamadd: ((hi & 1) as int * 256 + lo as int) as u16,
            oam_address: ((hi & 1) as int * 256 + lo as int) as u16,
            oam_high_byte: false,
            ..v
        }),
{
    let oa = v.oamadd;
    let v1 = ppu_write(v, 0x2102, lo);
    let x = (oa & 0xFF00) | (lo as u16);
    assert(v1 == PpuView { oamadd: x, oam_address: x, ..v });
    let v2 = ppu_write(v1, 0x2103, hi);
    let y = ((x & 0x00FF) | (((hi & 1) as int * 256) as u16)) as u16;
    assert(v2 == PpuView { oamadd: y, oam_address: y, oam_high_byte: false, ..v });
    assert(((x & 0x00FF) | (((hi & 1) as int * 256) as u16)) == ((hi & 1) as int * 256 + lo as int) as u16)
        by (bit_vector)
        requires
            x == (oa & 0xFF00) | (lo as u16),
    ;
}

/// A byte written through VMDATAL at a word address set in VMADDL/VMADDH
/// (below $8000) reads back through VMDATALREAD after the address is set
/// again.
pub proof fn law_vram_write_read(v: PpuView, lo: u8, hi: u8, value: u8)
    requires
        ppu_wf(v),
        hi < 0x80,
    ensures
        ({
            let v1 = ppu_write(ppu_write(ppu_write(v, 0x2116, lo), 0x2117, hi), 0x2118, value);
            ppu_read(ppu_write(ppu_write(v1, 0x2116, lo), 0x2117, hi), 0x2139).0 == value
        }),
{
    lemma_set_vram_address(v, lo, hi);
    let v0 = ppu_write(ppu_write(v, 0x2116, lo), 0x2117, hi);
    let v1 = ppu_write(v0, 0x2118, value);
    assert(v1.vram == v.vram.update(vram_byte(v0, false), value));
    assert(ppu_wf(v1));
    lemma_set_vram_address(v1, lo, hi);
}

/// A byte written through OAMDATA at the address set in OAMADDL/OAMADDH
/// (within the 544 bytes) reads back through OAMDATAREAD after the address
/// is set again.
pub proof fn law_oam_write_read(v: PpuView, lo: u8, hi: u8, value: u8)
    requires
        ppu_wf(v),
        (hi & 1) as int * 256 + lo < 544,
    ensures
        ({
            let v1 = ppu_write(ppu_write(ppu_write(v, 0x2102, lo), 0x2103, hi), 0x2104, value);
            ppu_read(ppu_write(ppu_write(v1, 0x2102, lo), 0x2103, hi), 0x2138).0 == value
        }),
{
    lemma_set_oam_address(v, lo, hi);
    let v0 = ppu_write(ppu_write(v, 0x2102, lo), 0x2103, hi);
    let v1 = ppu_write(v0, 0x2104, value);
    assert(v1.oam == v.oam.update(v0.oam_address as int, value));
    assert(ppu_wf(v1));
    lemma_set_oam_address(v1, lo, hi);
}

/// `n` dots of the beam.
pub open spec fn ppu_run(v: PpuView, n: nat) -> PpuView
    decreases n,
{
    if n == 0 {
        v
    } else {
        ppu_step(ppu_run(v, (n - 1) as nat)).1
    }
}

/// After a dot, horizontal blank is on exactly from dot 274 of the line.
proof fn lemma_step_hblank(v: PpuView)
    ensures
        ppu_step(v).1.hblank == (ppu_step(v).1.dot >= 274),
{
}

/// Counted from the top of a frame, `n` dots leave the beam at dot
/// `n % 341` of line `(n / 341) % 262`, in horizontal blank exactly from dot
/// 274, and the `n`-th dot completes a frame exactly when `n` is a multiple
/// of the 89342 dots of a frame.
pub proof fn law_beam_after_dots(v: PpuView, n: nat)
    requires
        ppu_wf(v),
        v.scanline == 0,
        v.dot == 0,
    ensures
        ppu_wf(ppu_run(v, n)),
        beam_position(ppu_run(v, n)) == n % 89342,
        ppu_run(v, n).dot == n % 341,
        ppu_run(v, n).scanline == (n / 341) % 262,
        n >= 1 ==> ppu_run(v, n).hblank == (n % 341 >= 274),
        n >= 1 ==> ppu_step(ppu_run(v, (n - 1) as nat)).0 == (n % 89342 == 0),
    decreases n,
{
    let w = ppu_run(v, n);
    if n > 0 {
        let u = ppu_run(v, (n - 1) as nat);
        law_beam_after_dots(v, (n - 1) as nat);
        law_beam_counts_dots(u);
        lemma_step_hblank(u);
        vstd::arithmetic::div_mod::lemma_add_mod_noop((n - 1) as int, 1, 89342);
    }
    vstd::arithmetic::div_mod::lemma_mod_breakdown(n as int, 341, 262);
    let q = (n as int / 341) % 262;
    let r = n as int % 341;
    assert(0 <= q < 262 && 0 <= r < 341);
    let sl = w.scanline as int;
    let d = w.dot as int;
    assert(sl * 341 + d == q * 341 + r);
    assert(sl == q && d == r) by (nonlinear_arith)
        requires
            sl * 341 + d == q * 341 + r,
            0 <= d < 341,
            0 <= r < 341,
            0 <= sl,
            0 <= q,
    ;
}

/// The beam's part of the PPU: line, dot and the blanking flags.
pub open spec fn beam_of(v: PpuView) -> (u16, u16, bool, bool) {
    (v.scanline, v.dot, v.hblank, v.vblank)
}

/// Register writes and reads leave the beam where it is, so the beam's
/// count of dots (`law_beam_after_dots`) holds whatever registers the CPU
/// touches between dots.
pub proof fn law_registers_keep_beam(v: PpuView, addr: u16, value: u8)
    ensures
        beam_of(ppu_write(v, addr, value)) == beam_of(v),
        beam_of(ppu_read(v, addr).1) == beam_of(v),
        ppu_step(ppu_write(v, addr, value)).0 == ppu_step(v).0,
        beam_of(ppu_step(ppu_write(v, addr, value)).1) == beam_of(ppu_step(v).1),
{
}

/// `n` dots of the beam with a register write before each: `writes[k]`
/// (address and value) comes just before dot `k + 1`.
pub open spec fn ppu_run_writing(v: PpuView, writes: Seq<(u16, u8)>, n: nat) -> PpuView
    decreases n,
{
    if n == 0 {
        v
    } else {
        let u = ppu_run_writing(v, writes, (n - 1) as nat);
        ppu_step(ppu_write(u, writes[n - 1].0, writes[n - 1].1)).1
    }
}

/// Register writes between dots do not move the beam: after `n` dots the
/// beam stands where `n` dots alone leave it (see `law_beam_after_dots`),
/// and the `n`-th dot completes a frame exactly when it does without them.
pub proof fn law_beam_ignores_writes(v: PpuView, writes: Seq<(u16, u8)>, n: nat)
    requires
        n <= writes.len(),
    ensures
        beam_of(ppu_run_writing(v, writes, n)) == beam_of(ppu_run(v, n)),
        n >= 1 ==> ppu_step(
            ppu_write(
                ppu_run_writing(v, writes, (n - 1) as nat),
                writes[n - 1].0,
                writes[n - 1].1,
            ),
        ).0 == ppu_step(ppu_run(v, (n - 1) as nat)).0,
    decreases n,
{
    if n > 0 {
        let m = (n - 1) as nat;
        law_beam_ignores_writes(v, writes, m);
        let u = ppu_run_writing(v, writes, m);
        law_registers_keep_beam(u, writes[m as int].0, writes[m as int].1);
    }
}

/// Whether vertical blank is on exactly on lines 225-261.
pub open spec fn vblank_window(v: PpuView) -> bool {
    v.vblank == (225 <= v.scanline <= 261)
}

/// Once a frame has completed, vertical blank covers exactly lines 225-261:
/// completing a frame starts the window, and every dot keeps it.
pub proof fn law_vblank_window(v: PpuView)
    requires
        ppu_wf(v),
    ensures
        ppu_step(v).0 ==> vblank_window(ppu_step(v).1),
        vblank_window(v) ==> vblank_window(ppu_step(v).1),
{
}

impl Ppu {
    /// The contracts' shape of a PPU is `ppu_wf` of its view (so the laws
    /// on `PpuView` apply to every PPU the methods hand out).
    pub proof fn lemma_wf_view(p: &Ppu)
        ensures
            p.wf() == ppu_wf(p@),
    {
    }
}

/// BG12NBA ($210B) sets BG1's character base from its low nibble and
/// BG2's from its high nibble, BG34NBA ($210C) those of BG3 and BG4, each
/// nibble naming an 8 KiB block ($2000 bytes, wrapping at 64 KiB); the other
/// pair's bases stay.
pub proof fn law_character_bases(v: PpuView, value: u8)
    requires
        ppu_wf(v),
    ensures
        ({
            let low = ((value % 16) as int * 0x2000 % 0x10000) as u16;
            let high = ((value / 16) as int * 0x2000 % 0x10000) as u16;
            &&& ppu_write(v, 0x210B, value).bg_chr_addr == seq![
                low,
                high,
                v.bg_chr_addr[2],
                v.bg_chr_addr[3],
            ]
            &&& ppu_write(v, 0x210C, value).bg_chr_addr == seq![
                v.bg_chr_addr[0],
                v.bg_chr_addr[1],
                low,
                high,
            ]
        }),
{
    assert(value & 0x0F == value % 16 && (value & 0xF0) as int * 0x200 == (value / 16) as int
        * 0x2000) by (bit_vector);
    let low = ((value % 16) as int * 0x2000 % 0x10000) as u16;
    let high = ((value / 16) as int * 0x2000 % 0x10000) as u16;
    assert(ppu_write(v, 0x210B, value).bg_chr_addr =~= seq![
        low,
        high,
        v.bg_chr_addr[2],
        v.bg_chr_addr[3],
    ]);
    assert(ppu_write(v, 0x210C, value).bg_chr_addr =~= seq![
        v.bg_chr_addr[0],
        v.bg_chr_addr[1],
        low,
        high,
    ]);
}

/// OBSEL bits 5-7 pick the small and large sprite sizes (width, height)
/// from the fixed table: 8x8/16x16, 8x8/32x32, 8x8/64x64, 16x16/32x32,
/// 16x16/64x64, 32x32/64x64, 16x32/32x64, 16x32/32x32.
pub proof fn law_sprite_size_table(obsel: u8)
    ensures
        obsel / 32 == 0 ==> sprite_sizes(obsel) == ((8u8, 8u8), (16u8, 16u8)),
        obsel / 32 == 1 ==> sprite_sizes(obsel) == ((8u8, 8u8), (32u8, 32u8)),
        obsel / 32 == 2 ==> sprite_sizes(obsel) == ((8u8, 8u8), (64u8, 64u8)),
        obsel / 32 == 3 ==> sprite_sizes(obsel) == ((16u8, 16u8), (32u8, 32u8)),
        obsel / 32 == 4 ==> sprite_sizes(obsel) == ((16u8, 16u8), (64u8, 64u8)),
        obsel / 32 == 5 ==> sprite_sizes(obsel) == ((32u8, 32u8), (64u8, 64u8)),
        obsel / 32 == 6 ==> sprite_sizes(obsel) == ((16u8, 32u8), (32u8, 64u8)),
        obsel / 32 == 7 ==> sprite_sizes(obsel) == ((16u8, 32u8), (32u8, 32u8)),
{
}

proof fn lemma_register_bits(value: u8)
    by (bit_vector)
    ensures
        (value & 0xFC) as int * 512 == (value / 4) as int * 0x800,
        value & 3 == value % 4,
        (value & 4 != 0) == ((value / 4) % 2 == 1),
        (value >> 0u8) & 1 == (if value & 0x01 != 0 { 1u8 } else { 0u8 }),
        (value >> 1u8) & 1 == (if value & 0x02 != 0 { 1u8 } else { 0u8 }),
        (value >> 2u8) & 1 == (if value & 0x04 != 0 { 1u8 } else { 0u8 }),
        (value >> 3u8) & 1 == (if value & 0x08 != 0 { 1u8 } else { 0u8 }),
        (value >> 4u8) & 1 == (if value & 0x10 != 0 { 1u8 } else { 0u8 }),
        (value >> 5u8) & 1 == (if value & 0x20 != 0 { 1u8 } else { 0u8 }),
        (value >> 6u8) & 1 == (if value & 0x40 != 0 { 1u8 } else { 0u8 }),
        (value >> 7u8) & 1 == (if value & 0x80 != 0 { 1u8 } else { 0u8 }),
{
}

/// BG1SC-BG4SC ($2107-$210A) set the tilemap base of BG1-BG4 in order:
/// bits 2-7 name a 2 KiB block ($800 bytes, wrapping at 64 KiB); the other
/// layers' bases stay.
pub proof fn law_tilemap_bases(v: PpuView, k: u16, value: u8)
    requires
        ppu_wf(v),
        k < 4,
    ensures
        ppu_write(v, (0x2107 + k) as u16, value).bg_tilemap_addr == v.bg_tilemap_addr.update(
            k as int,
            ((value / 4) as int * 0x800 % 0x10000) as u16,
        ),
{
    lemma_register_bits(value);
}

/// VMAIN ($2115): bits 0-1 choose the VRAM address step, 1 for 0, 32 for 1
/// and 128 for 2 or 3; bit 2 makes the address step after the high byte's
/// access instead of the low byte's.
pub proof fn law_vram_increment(v: PpuView, value: u8)
    ensures
        ppu_write(v, 0x2115, value).vram_increment == (if value % 4 == 0 {
            1u16
        } else if value % 4 == 1 {
            32u16
        } else {
            128u16
        }),
        (ppu_write(v, 0x2115, value).vram_mapping == VramMapping::Increment1) == ((value / 4) % 2
            == 1),
{
    lemma_register_bits(value);
}

/// Bits per pixel of each layer: mode 0 gives all four layers 2; mode 1
/// gives BG1 and BG2 4 and BG3 2; mode 2 gives 4; mode 3 gives BG1 8 and
/// BG2 4; mode 4 gives BG1 8 and BG2 2; mode 5 gives BG1 4 and BG2 2; mode 6
/// gives 4; mode 7 gives 8.
pub proof fn law_layer_depths(bg: int)
    requires
        0 <= bg < 4,
    ensures
        bg_bpp(bg, 0) == 2,
        bg_bpp(bg, 1) == (if bg <= 1 { 4u8 } else { 2u8 }),
        bg_bpp(bg, 2) == 4,
        bg_bpp(0, 3) == 8 && bg_bpp(1, 3) == 4,
        bg_bpp(0, 4) == 8 && bg_bpp(1, 4) == 2,
        bg_bpp(0, 5) == 4 && bg_bpp(1, 5) == 2,
        bg_bpp(bg, 6) == 4,
        bg_bpp(bg, 7) == 8,
{
}

/// The OAM high table holds two bits per sprite, sprite `i` in byte
/// 512 + i / 4 at bits 2 * (i % 4) (X bit 8) and 2 * (i % 4) + 1 (size):
/// with the size bit set the sprite takes the large size OBSEL selects,
/// else the small one, and with the X bit set its X position is the low
/// X byte minus 256.
pub proof fn law_sprite_high_bits(v: PpuView, i: int)
    requires
        ppu_wf(v),
        0 <= i < 128,
    ensures
        ({
            let hb = v.oam[512 + i / 4];
            let size_mask: u8 = if i % 4 == 0 {
                0x02
            } else if i % 4 == 1 {
                0x08
            } else if i % 4 == 2 {
                0x20
            } else {
                0x80
            };
            let x_mask: u8 = if i % 4 == 0 {
                0x01
            } else if i % 4 == 1 {
                0x04
            } else if i % 4 == 2 {
                0x10
            } else {
                0x40
            };
            let lx = v.oam[4 * i] as int;
            &&& sprite_dims(v, i) == (if hb & size_mask != 0 {
                sprite_sizes(v.obsel).1
            } else {
                sprite_sizes(v.obsel).0
            })
            &&& sprite_x(v, i) == (if hb & x_mask != 0 { lx - 256 } else { lx })
        }),
{
    let hb = v.oam[512 + i / 4];
    lemma_register_bits(hb);
    let (b, hs) = sprite_high(v, i);
    assert(b == hb);
    if i % 4 == 0 {
        assert(hs == 0u8 && (hs + 1) as u8 == 1u8);
    } else if i % 4 == 1 {
        assert(hs == 2u8 && (hs + 1) as u8 == 3u8);
    } else if i % 4 == 2 {
        assert(hs == 4u8 && (hs + 1) as u8 == 5u8);
    } else {
        assert(hs == 6u8 && (hs + 1) as u8 == 7u8);
    }
}

proof fn lemma_pack_channels(top: int, r: int, g: int, b: int)
    requires
        0 <= top < 256,
        0 <= r < 256,
        0 <= g < 256,
        0 <= b < 256,
    ensures
        ({
            let w = top * 0x100_0000 + r * 0x10000 + g * 0x100 + b;
            &&& 0 <= w < 0x1_0000_0000
            &&& w % 256 == b
            &&& (w / 0x100) % 256 == g
            &&& (w / 0x10000) % 256 == r
            &&& w / 0x100_0000 == top
        }),
{
}

/// Colours: a BGR555 CGRAM word becomes an opaque RGBA word with red in the
/// low byte, then green, then blue, each 5-bit channel `c` widened to 8 bits
/// as c * 8 + c / 4; the master brightness `b` (0-15) scales each colour
/// channel to channel * b / 15 (rounded down) and keeps alpha.
pub proof fn law_colour_channels(color: u16, pixel: u32, b: u8)
    ensures
        rgba(color) as int % 256 == (color as int % 32) * 8 + (color as int % 32) / 4,
        (rgba(color) as int / 0x100) % 256 == ((color as int / 32) % 32) * 8 + ((color as int / 32)
            % 32) / 4,
        (rgba(color) as int / 0x10000) % 256 == ((color as int / 1024) % 32) * 8 + ((color as int
            / 1024) % 32) / 4,
        rgba(color) as int / 0x100_0000 == 0xFF,
        b < 16 ==> dim(pixel, b) as int % 256 == (pixel as int % 256) * b / 15,
        b < 16 ==> (dim(pixel, b) as int / 0x100) % 256 == ((pixel as int / 0x100) % 256) * b / 15,
        b < 16 ==> (dim(pixel, b) as int / 0x10000) % 256 == ((pixel as int / 0x10000) % 256) * b
            / 15,
        b < 16 ==> dim(pixel, b) as int / 0x100_0000 == pixel as int / 0x100_0000,
{
    let rr = expand5((color as int / 1024) % 32);
    let gg = expand5((color as int / 32) % 32);
    let bb = expand5(color as int % 32);
    lemma_pack_channels(0xFF, rr, gg, bb);
    if b < 16 {
        let c = pixel as int;
        let r = (c / 0x10000) % 256;
        let g = (c / 0x100) % 256;
        let l = c % 256;
        assert(0 <= scale(r, b as int) <= r && 0 <= scale(g, b as int) <= g && 0 <= scale(
            l,
            b as int,
        ) <= l) by (nonlinear_arith)
            requires
                0 <= b < 16,
                0 <= r < 256,
                0 <= g < 256,
                0 <= l < 256,
        {
            assert(r * b <= r * 15);
            assert(g * b <= g * 15);
            assert(l * b <= l * 15);
        }
        lemma_pack_channels(c / 0x100_0000, scale(r, b as int), scale(g, b as int), scale(l, b as int));
    }
}

} // verus!
