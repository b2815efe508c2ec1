//! The SA-1: a second 65816 with 2 KiB of internal RAM (I-RAM), message
//! ports to and from the main CPU, an arithmetic unit, DMA and
//! variable-length bit reads. The CPU core itself is not emulated: a running
//! SA-1 only counts cycles and advances its program counter.
//!
//! The main CPU sees the registers at $2200-$23FF and I-RAM at $3000-$37FF.
use vstd::prelude::*;
use crate::chips::CoProcessor;

use crate::bits::lemma_addr_masks;

verus! {

/// The SA-1 registers written by the main CPU.
#[derive(Clone, Copy)]
pub struct Sa1Registers {
    /// $2200 SA-1 control.
    pub ccnt: u8,
    /// $2201 main CPU interrupt enable.
    pub sie: u8,
    /// $2202 main CPU interrupt clear.
    pub sic: u8,
    /// $2203-$2204 SA-1 reset vector.
    pub crv: u16,
    /// $2205-$2206 SA-1 NMI vector.
    pub cnv: u16,
    /// $2207-$2208 SA-1 IRQ vector.
    pub civ: u16,
    /// $2209 main CPU control.
    pub scnt: u8,
    /// $220A SA-1 interrupt enable.
    pub cie: u8,
    /// $220B SA-1 interrupt clear.
    pub cic: u8,
    /// $220C-$220D main CPU NMI vector.
    pub snv: u16,
    /// $220E-$220F main CPU IRQ vector.
    pub siv: u16,
    /// Flag read.
    pub cfr: u8,
    /// H-count.
    pub hcr: u8,
    /// V-count.
    pub vcr: u8,
    /// $2220-$2223 ROM bank registers.
    pub cxb: u8,
    pub dxb: u8,
    pub exb: u8,
    pub fxb: u8,
    /// $2224-$2225 BW-RAM bitmap registers.
    pub bmaps: u8,
    pub bmap: u8,
    /// $2226-$2227 BW-RAM write enables.
    pub sbwe: u8,
    pub cbwe: u8,
    /// $2228 BW-RAM write-protected area.
    pub bwpa: u8,
    /// $2229-$222A I-RAM write protection.
    pub siwp: u8,
    pub ciwp: u8,
    /// $2230 DMA control.
    pub dcnt: u8,
    /// $2231 character conversion DMA control.
    pub cdma: u8,
    /// $2232-$2234 DMA source address.
    pub sda: u32,
    /// $2235-$2236 DMA destination address.
    pub dda: u16,
    /// $2238-$2239 DMA length.
    pub dtc: u16,
    /// $223F bitmap register file.
    pub brf: u8,
    /// $2250-$2251 multiplicand or dividend.
    pub math_a: u16,
    /// $2252-$2253 multiplier or divisor.
    pub math_b: u16,
    /// $2258 variable-length bit data.
    pub vbd: u8,
    /// $2259-$225B variable-length bit address.
    pub vda: u32,
    /// $2210-$2213 messages from the main CPU.
    pub snes_message: [u8; 4],
    /// $2214-$2217 messages to the main CPU (read at $2301-$2304).
    pub sa1_message: [u8; 4],
}

/// All registers clear.
pub open spec fn regs_init() -> Sa1Registers {
    Sa1Registers {
        ccnt: 0,
        sie: 0,
        sic: 0,
        crv: 0,
        cnv: 0,
        civ: 0,
        scnt: 0,
        cie: 0,
        cic: 0,
        snv: 0,
        siv: 0,
        cfr: 0,
        hcr: 0,
        vcr: 0,
        cxb: 0,
        dxb: 0,
        exb: 0,
        fxb: 0,
        bmaps: 0,
        bmap: 0,
        sbwe: 0,
        cbwe: 0,
        bwpa: 0,
        siwp: 0,
        ciwp: 0,
        dcnt: 0,
        cdma: 0,
        sda: 0,
        dda: 0,
        dtc: 0,
        brf: 0,
        math_a: 0,
        math_b: 0,
        vbd: 0,
        vda: 0,
        snes_message: vstd::array::spec_array_fill_for_copy_type::<u8, 4>(0u8),
        sa1_message: vstd::array::spec_array_fill_for_copy_type::<u8, 4>(0u8),
    }
}

impl Default for Sa1Registers {
    fn default() -> (r: Self)
        ensures
            r == regs_init(),
    {
        Sa1Registers {
            ccnt: 0,
            sie: 0,
            sic: 0,
            crv: 0,
            cnv: 0,
            civ: 0,
            scnt: 0,
            cie: 0,
            cic: 0,
            snv: 0,
            siv: 0,
            cfr: 0,
            hcr: 0,
            vcr: 0,
            cxb: 0,
            dxb: 0,
            exb: 0,
            fxb: 0,
            bmaps: 0,
            bmap: 0,
            sbwe: 0,
            cbwe: 0,
            bwpa: 0,
            siwp: 0,
            ciwp: 0,
            dcnt: 0,
            cdma: 0,
            sda: 0,
            dda: 0,
            dtc: 0,
            brf: 0,
            math_a: 0,
            math_b: 0,
            vbd: 0,
            vda: 0,
            snes_message: [0u8; 4],
            sa1_message: [0u8; 4],
        }
    }
}

/// The SA-1.
pub struct Sa1 {
    /// Cycles the SA-1 has run.
    pub sa1_cycles: u64,
    /// Whether the SA-1 runs (set by a reset through $2200).
    pub sa1_running: bool,
    /// SA-1 program counter.
    pub sa1_pc: u16,
    pub sa1_a: u16,
    pub sa1_x: u16,
    pub sa1_y: u16,
    /// 2 KiB internal RAM.
    pub iram: [u8; 0x800],
    /// The registers the main CPU writes.
    pub registers: Sa1Registers,
    pub sa1_irq_pending: bool,
    pub sa1_nmi_pending: bool,
    pub snes_irq_pending: bool,
    pub snes_nmi_pending: bool,
    /// The arithmetic unit's result.
    pub math_result: u64,
    /// Bits left to read by variable-length bit reads, top bit first.
    pub vbit_buffer: u8,
    /// How many of them.
    pub vbit_count: u8,
}

/// The SA-1 at power-on: stopped, everything clear.
pub open spec fn sa1_init() -> Sa1 {
    Sa1 {
        sa1_cycles: 0,
        sa1_running: false,
        sa1_pc: 0,
        sa1_a: 0,
        sa1_x: 0,
        sa1_y: 0,
        iram: vstd::array::spec_array_fill_for_copy_type::<u8, 0x800>(0u8),
        registers: regs_init(),
        sa1_irq_pending: false,
        sa1_nmi_pending: false,
        snes_irq_pending: false,
        snes_nmi_pending: false,
        math_result: 0,
        vbit_buffer: 0,
        vbit_count: 0,
    }
}

// ---------------------------------------------------------------------------
// Arithmetic
// ---------------------------------------------------------------------------

/// |a|.
pub open spec fn magnitude(a: int) -> int {
    if a < 0 {
        -a
    } else {
        a
    }
}

/// The quotient rounded toward zero.
pub open spec fn trunc_div(a: int, b: int) -> int {
    let q = magnitude(a) / magnitude(b);
    if (a < 0) == (b < 0) {
        q
    } else {
        -q
    }
}

/// The remainder that goes with `trunc_div`: the sign of the dividend.
pub open spec fn trunc_rem(a: int, b: int) -> int {
    let r = magnitude(a) % magnitude(b);
    if a < 0 {
        -r
    } else {
        r
    }
}

/// A 16-bit register's bytes as a signed number.
pub open spec fn signed16(v: u16) -> int {
    if v >= 0x8000 {
        v - 0x10000
    } else {
        v as int
    }
}

/// Whether the arithmetic unit can carry out its operation: a signed
/// division of -32768 by -1 has no 16-bit quotient.
pub open spec fn math_defined(ccnt: u8, a: u16, b: u16) -> bool {
    !(ccnt & 1 != 0 && a == 0x8000 && b == 0xFFFF)
}

/// The arithmetic unit's result: with CCNT bit 0 a signed division (the
/// remainder in bits 16-31, the quotient in bits 0-15, each as 16 bits;
/// division by zero gives 0), otherwise the signed product as 64 bits.
pub open spec fn math_result_of(ccnt: u8, a: u16, b: u16) -> u64 {
    let x = signed16(a);
    let y = signed16(b);
    if ccnt & 1 != 0 {
        if y == 0 {
            0
        } else {
            ((trunc_rem(x, y) as u16) as int * 0x10000 + (trunc_div(x, y) as u16) as int) as u64
        }
    } else {
        (x * y) as u64
    }
}

/// Byte `k` (0-7) of a 64-bit value.
pub open spec fn byte_of(v: u64, k: u64) -> u8 {
    ((v >> (8 * k)) & 0xFF) as u8
}

// ---------------------------------------------------------------------------
// Register reads and writes
// ---------------------------------------------------------------------------

/// A 16-bit register with its low byte replaced.
pub open spec fn set_low(r: u16, v: u8) -> u16 {
    (r & 0xFF00) | (v as u16)
}

/// A 16-bit register with its high byte replaced.
pub open spec fn set_high(r: u16, v: u8) -> u16 {
    (r & 0x00FF) | ((v as int * 256) as u16)
}

/// A 24-bit register with byte `k` (0-2) replaced; bits above 23 clear.
pub open spec fn set_byte24(r: u32, k: int, v: u8) -> u32 {
    if k == 0 {
        (r & 0xFF_FF00) | (v as u32)
    } else if k == 1 {
        (r & 0xFF_00FF) | ((v as int * 0x100) as u32)
    } else {
        (r & 0x00_FFFF) | ((v as int * 0x1_0000) as u32)
    }
}

/// What a read of SA-1 register `addr` gives, and the SA-1 afterwards.
pub open spec fn sa1_read_register(s: Sa1, addr: u16) -> (u8, Sa1) {
    if addr == 0x2300 {
        (
            ((if s.sa1_running { 0x80int } else { 0 }) + (if s.sa1_irq_pending { 0x40int } else { 0 })
                + (if s.sa1_nmi_pending { 0x20int } else { 0 })) as u8,
            s,
        )
    } else if 0x2301 <= addr <= 0x2304 {
        (s.registers.sa1_message[addr - 0x2301], s)
    } else if 0x2306 <= addr <= 0x230B {
        (byte_of(s.math_result, (addr - 0x2306) as u64), s)
    } else if 0x230C <= addr <= 0x230F {
        (byte_of(s.math_result, (addr - 0x230C) as u64), s)
    } else if addr == 0x2231 {
        if s.vbit_count > 0 {
            (
                s.vbit_buffer / 128,
                Sa1 {
                    vbit_buffer: ((s.vbit_buffer as int * 2) % 256) as u8,
                    vbit_count: (s.vbit_count - 1) as u8,
                    ..s
                },
            )
        } else {
            (0, s)
        }
    } else {
        (0, s)
    }
}

/// I-RAM after a DMA: the transfer zero-fills `dtc` bytes (at most to the
/// end of I-RAM) from the destination address (wrapped to 2 KiB).
pub open spec fn dma_fill(iram: Seq<u8>, dda: u16, dtc: u16) -> Seq<u8> {
    let dst = (dda % 0x800) as int;
    let len = if (dtc as int) < 0x800 - dst {
        dtc as int
    } else {
        0x800 - dst
    };
    Seq::new(iram.len(), |i: int| if dst <= i < dst + len { 0u8 } else { iram[i] })
}

/// What a write of `val` to SA-1 register `addr` does: the SA-1 with its
/// registers, flags and result updated (I-RAM as before), and I-RAM
/// afterwards.
pub open spec fn sa1_write_register(s: Sa1, addr: u16, val: u8) -> (Sa1, Seq<u8>) {
    let r = s.registers;
    let ir = s.iram@;
    if addr == 0x2200 {
        (
            Sa1 {
                registers: Sa1Registers { ccnt: val, ..r },
                sa1_running: if val & 0x80 != 0 { true } else { s.sa1_running },
                sa1_pc: if val & 0x80 != 0 { r.crv } else { s.sa1_pc },
                sa1_irq_pending: if val & 0x20 != 0 { true } else { s.sa1_irq_pending },
                ..s
            },
            ir,
        )
    } else if addr == 0x2201 {
        (Sa1 { registers: Sa1Registers { sie: val, ..r }, ..s }, ir)
    } else if addr == 0x2202 {
        (
            Sa1 {
                snes_nmi_pending: if val & 0x80 != 0 { false } else { s.snes_nmi_pending },
                sa1_nmi_pending: if val & 0x40 != 0 { false } else { s.sa1_nmi_pending },
                ..s
            },
            ir,
        )
    } else if addr == 0x2203 {
        (Sa1 { registers: Sa1Registers { crv: set_low(r.crv, val), ..r }, ..s }, ir)
    } else if addr == 0x2204 {
        (Sa1 { registers: Sa1Registers { crv: set_high(r.crv, val), ..r }, ..s }, ir)
    } else if addr == 0x2205 {
        (Sa1 { registers: Sa1Registers { cnv: set_low(r.cnv, val), ..r }, ..s }, ir)
    } else if addr == 0x2206 {
        (Sa1 { registers: Sa1Registers { cnv: set_high(r.cnv, val), ..r }, ..s }, ir)
    } else if addr == 0x2207 {
        (Sa1 { registers: Sa1Registers { civ: set_low(r.civ, val), ..r }, ..s }, ir)
    } else if addr == 0x2208 {
        (Sa1 { registers: Sa1Registers { civ: set_high(r.civ, val), ..r }, ..s }, ir)
    } else if addr == 0x2209 {
        (
            Sa1 {
                registers: Sa1Registers { scnt: val, ..r },
                snes_irq_pending: if val & 0x80 != 0 { true } else { s.snes_irq_pending },
                ..s
            },
            ir,
        )
    } else if addr == 0x220A {
        (Sa1 { registers: Sa1Registers { cie: val, ..r }, ..s }, ir)
    } else if addr == 0x220B {
        (
            Sa1 {
                sa1_nmi_pending: if val & 0x80 != 0 { false } else { s.sa1_nmi_pending },
                sa1_irq_pending: if val & 0x40 != 0 { false } else { s.sa1_irq_pending },
                ..s
            },
            ir,
        )
    } else if addr == 0x220C {
        (Sa1 { registers: Sa1Registers { snv: set_low(r.snv, val), ..r }, ..s }, ir)
    } else if addr == 0x220D {
        (Sa1 { registers: Sa1Registers { snv: set_high(r.snv, val), ..r }, ..s }, ir)
    } else if addr == 0x220E {
        (Sa1 { registers: Sa1Registers { siv: set_low(r.siv, val), ..r }, ..s }, ir)
    } else if addr == 0x220F {
        (Sa1 { registers: Sa1Registers { siv: set_high(r.siv, val), ..r }, ..s }, ir)
    } else if 0x2210 <= addr <= 0x2213 {
        (
            Sa1 {
                registers: Sa1Registers {
                    snes_message: vstd::array::spec_array_update(r.snes_message, addr - 0x2210, val),
                    ..r
                },
                ..s
            },
            ir,
        )
    } else if 0x2214 <= addr <= 0x2217 {
        (
            Sa1 {
                registers: Sa1Registers {
                    sa1_message: vstd::array::spec_array_update(r.sa1_message, addr - 0x2214, val),
                    ..r
                },
                ..s
            },
            ir,
        )
    } else if 0x2220 <= addr <= 0x222A {
        (Sa1 { registers: set_bank_register(r, addr, val), ..s }, ir)
    } else if addr == 0x2230 {
        (
            Sa1 { registers: Sa1Registers { dcnt: val, ..r }, ..s },
            if val & 0x80 != 0 {
                dma_fill(ir, r.dda, r.dtc)
            } else {
                ir
            },
        )
    } else if addr == 0x2231 {
        (Sa1 { registers: Sa1Registers { cdma: val, ..r }, ..s }, ir)
    } else if 0x2232 <= addr <= 0x2234 {
        (Sa1 { registers: Sa1Registers { sda: set_byte24(r.sda, addr - 0x2232, val), ..r }, ..s }, ir)
    } else if addr == 0x2235 {
        (Sa1 { registers: Sa1Registers { dda: set_low(r.dda, val), ..r }, ..s }, ir)
    } else if addr == 0x2236 {
        (Sa1 { registers: Sa1Registers { dda: set_high(r.dda, val), ..r }, ..s }, ir)
    } else if addr == 0x2238 {
        (Sa1 { registers: Sa1Registers { dtc: set_low(r.dtc, val), ..r }, ..s }, ir)
    } else if addr == 0x2239 {
        (Sa1 { registers: Sa1Registers { dtc: set_high(r.dtc, val), ..r }, ..s }, ir)
    } else if addr == 0x223F {
        (Sa1 { registers: Sa1Registers { brf: val, ..r }, ..s }, ir)
    } else if addr == 0x2250 {
        (Sa1 { registers: Sa1Registers { math_a: set_low(r.math_a, val), ..r }, ..s }, ir)
    } else if addr == 0x2251 {
        (Sa1 { registers: Sa1Registers { math_a: set_high(r.math_a, val), ..r }, ..s }, ir)
    } else if addr == 0x2252 {
        (Sa1 { registers: Sa1Registers { math_b: set_low(r.math_b, val), ..r }, ..s }, ir)
    } else if addr == 0x2253 {
        let b = set_high(r.math_b, val);
        (
            Sa1 {
                registers: Sa1Registers { math_b: b, ..r },
                math_result: math_result_of(r.ccnt, r.math_a, b),
                ..s
            },
            ir,
        )
    } else if addr == 0x2258 {
        (Sa1 { registers: Sa1Registers { vbd: val, ..r }, vbit_buffer: val, vbit_count: 8, ..s }, ir)
    } else if 0x2259 <= addr <= 0x225B {
        (Sa1 { registers: Sa1Registers { vda: set_byte24(r.vda, addr - 0x2259, val), ..r }, ..s }, ir)
    } else {
        (s, ir)
    }
}

/// The bank, bitmap and write-protection registers at $2220-$222A.
pub open spec fn set_bank_register(r: Sa1Registers, addr: u16, val: u8) -> Sa1Registers {
    if addr == 0x2220 {
        Sa1Registers { cxb: val, ..r }
    } else if addr == 0x2221 {
        Sa1Registers { dxb: val, ..r }
    } else if addr == 0x2222 {
        Sa1Registers { exb: val, ..r }
    } else if addr == 0x2223 {
        Sa1Registers { fxb: val, ..r }
    } else if addr == 0x2224 {
        Sa1Registers { bmaps: val, ..r }
    } else if addr == 0x2225 {
        Sa1Registers { bmap: val, ..r }
    } else if addr == 0x2226 {
        Sa1Registers { sbwe: val, ..r }
    } else if addr == 0x2227 {
        Sa1Registers { cbwe: val, ..r }
    } else if addr == 0x2228 {
        Sa1Registers { bwpa: val, ..r }
    } else if addr == 0x2229 {
        Sa1Registers { siwp: val, ..r }
    } else {
        Sa1Registers { ciwp: val, ..r }
    }
}

/// The 24-bit address the SA-1 decodes.
pub open spec fn sa1_addr(addr: u32) -> int {
    addr as int % 0x100_0000
}

/// Whether the SA-1 answers at `addr`: its registers and I-RAM.
pub open spec fn sa1_answers(addr: u32) -> bool {
    let a = sa1_addr(addr);
    (0x2200 <= a <= 0x23FF) || (0x3000 <= a <= 0x37FF)
}

/// What a main CPU read of `addr` gives and leaves.
pub open spec fn sa1_read(s: Sa1, addr: u32) -> (u8, Sa1) {
    let a = sa1_addr(addr);
    if 0x3000 <= a <= 0x37FF {
        (s.iram[a - 0x3000], s)
    } else if 0x2200 <= a <= 0x23FF {
        sa1_read_register(s, a as u16)
    } else {
        (0, s)
    }
}

/// Whether a main CPU write of `val` to `addr` has defined behaviour: the
/// one it lacks is a signed division of -32768 by -1.
pub open spec fn sa1_write_ok(s: Sa1, addr: u32, val: u8) -> bool {
    sa1_addr(addr) == 0x2253 ==> math_defined(
        s.registers.ccnt,
        s.registers.math_a,
        set_high(s.registers.math_b, val),
    )
}

/// What a main CPU write of `val` to `addr` does (see
/// `sa1_write_register`). I-RAM writes to the first 256 bytes are dropped
/// while CIWP bit 7 protects them.
pub open spec fn sa1_write(s: Sa1, addr: u32, val: u8) -> (Sa1, Seq<u8>) {
    let a = sa1_addr(addr);
    if 0x3000 <= a <= 0x37FF {
        let off = a - 0x3000;
        if s.registers.ciwp & 0x80 == 0 || off >= 0x100 {
            (s, s.iram@.update(off, val))
        } else {
            (s, s.iram@)
        }
    } else if 0x2200 <= a <= 0x23FF {
        sa1_write_register(s, a as u16, val)
    } else {
        (s, s.iram@)
    }
}

/// A run of `cycles`: a running SA-1 counts them and moves its program
/// counter on by one.
pub open spec fn sa1_step(s: Sa1, cycles: u32) -> Sa1 {
    if s.sa1_running {
        Sa1 {
            sa1_cycles: ((s.sa1_cycles as int + cycles as int) % 0x1_0000_0000_0000_0000) as u64,
            sa1_pc: ((s.sa1_pc as int + 1) % 0x10000) as u16,
            ..s
        }
    } else {
        s
    }
}

/// `after` is `s` with I-RAM replaced by `iram`.
pub open spec fn sa1_with_iram(after: Sa1, s: Sa1, iram: Seq<u8>) -> bool {
    after == (Sa1 { iram: after.iram, ..s }) && after.iram@ == iram
}


fn set_low_exec(r: u16, v: u8) -> (x: u16)
    ensures
        x == set_low(r, v),
{
    (r & 0xFF00) | (v as u16)
}

fn set_high_exec(r: u16, v: u8) -> (x: u16)
    ensures
        x == set_high(r, v),
{
    (r & 0x00FF) | (v as u16 * 256)
}

fn set_byte24_exec(r: u32, k: u16, v: u8) -> (x: u32)
    requires
        k < 3,
    ensures
        x == set_byte24(r, k as int, v),
{
    if k == 0 {
        (r & 0xFF_FF00) | (v as u32)
    } else if k == 1 {
        (r & 0xFF_00FF) | (v as u32 * 0x100)
    } else {
        (r & 0x00_FFFF) | (v as u32 * 0x1_0000)
    }
}

impl Sa1 {
    /// A powered-up SA-1 (see `sa1_init`).
    pub fn new() -> (s: Self)
        ensures
            s == sa1_init(),
    {
        Sa1 {
            sa1_cycles: 0,
            sa1_running: false,
            sa1_pc: 0,
            sa1_a: 0,
            sa1_x: 0,
            sa1_y: 0,
            iram: [0u8; 0x800],
            registers: Sa1Registers::default(),
            sa1_irq_pending: false,
            sa1_nmi_pending: false,
            snes_irq_pending: false,
            snes_nmi_pending: false,
            math_result: 0,
            vbit_buffer: 0,
            vbit_count: 0,
        }
    }

    /// Reads an SA-1 register (see `sa1_read_register`).
    fn read_register(&mut self, addr: u16) -> (v: u8)
        ensures
            (v, *final(self)) == sa1_read_register(*old(self), addr),
    {
        if addr == 0x2300 {
            let mut status: u8 = 0;
            if self.sa1_running {
                status = status + 0x80;
            }
            if self.sa1_irq_pending {
                status = status + 0x40;
            }
            if self.sa1_nmi_pending {
                status = status + 0x20;
            }
            status
        } else if 0x2301 <= addr && addr <= 0x2304 {
            self.registers.sa1_message[(addr - 0x2301) as usize]
        } else if 0x2306 <= addr && addr <= 0x230B {
            let k = (addr - 0x2306) as u64;
            ((self.math_result >> (8 * k)) & 0xFF) as u8
        } else if 0x230C <= addr && addr <= 0x230F {
            let k = (addr - 0x230C) as u64;
            ((self.math_result >> (8 * k)) & 0xFF) as u8
        } else if addr == 0x2231 {
            if self.vbit_count > 0 {
                let bit = self.vbit_buffer / 128;
                self.vbit_buffer = ((self.vbit_buffer as u16 * 2) % 256) as u8;
                self.vbit_count = self.vbit_count - 1;
                bit
            } else {
                0
            }
        } else {
            0
        }
    }

    /// $2200-$220F: control, interrupt and vector registers.
    #[verifier::spinoff_prover]
    fn write_control(&mut self, addr: u16, val: u8)
        requires
            0x2200 <= addr <= 0x220F,
        ensures
            sa1_with_iram(
                *final(self),
                sa1_write_register(*old(self), addr, val).0,
                sa1_write_register(*old(self), addr, val).1,
            ),
    {
        if addr == 0x2200 {
            self.registers.ccnt = val;
            if val & 0x80 != 0 {
                self.sa1_running = true;
                self.sa1_pc = self.registers.crv;
            }
            if val & 0x20 != 0 {
                self.sa1_irq_pending = true;
            }
        } else if addr == 0x2201 {
            self.registers.sie = val;
        } else if addr == 0x2202 {
            if val & 0x80 != 0 {
                self.snes_nmi_pending = false;
            }
            if val & 0x40 != 0 {
                self.sa1_nmi_pending = false;
            }
        } else if addr == 0x2203 {
            self.registers.crv = set_low_exec(self.registers.crv, val);
        } else if addr == 0x2204 {
            self.registers.crv = set_high_exec(self.registers.crv, val);
        } else if addr == 0x2205 {
            self.registers.cnv = set_low_exec(self.registers.cnv, val);
        } else if addr == 0x2206 {
            self.registers.cnv = set_high_exec(self.registers.cnv, val);
        } else if addr == 0x2207 {
            self.registers.civ = set_low_exec(self.registers.civ, val);
        } else if addr == 0x2208 {
            self.registers.civ = set_high_exec(self.registers.civ, val);
        } else if addr == 0x2209 {
            self.registers.scnt = val;
            if val & 0x80 != 0 {
                self.snes_irq_pending = true;
            }
        } else if addr == 0x220A {
            self.registers.cie = val;
        } else if addr == 0x220B {
            if val & 0x80 != 0 {
                self.sa1_nmi_pending = false;
            }
            if val & 0x40 != 0 {
                self.sa1_irq_pending = false;
            }
        } else if addr == 0x220C {
            self.registers.snv = set_low_exec(self.registers.snv, val);
        } else if addr == 0x220D {
            self.registers.snv = set_high_exec(self.registers.snv, val);
        } else if addr == 0x220E {
            self.registers.siv = set_low_exec(self.registers.siv, val);
        } else {
            self.registers.siv = set_high_exec(self.registers.siv, val);
        }
    }

    /// $2210-$222F: message ports and bank registers.
    #[verifier::spinoff_prover]
    fn write_ports(&mut self, addr: u16, val: u8)
        requires
            0x2210 <= addr <= 0x222F,
        ensures
            sa1_with_iram(
                *final(self),
                sa1_write_register(*old(self), addr, val).0,
                sa1_write_register(*old(self), addr, val).1,
            ),
    {
        if addr <= 0x2213 {
            self.registers.snes_message[(addr - 0x2210) as usize] = val;
        } else if addr <= 0x2217 {
            self.registers.sa1_message[(addr - 0x2214) as usize] = val;
        } else if addr == 0x2220 {
            self.registers.cxb = val;
        } else if addr == 0x2221 {
            self.registers.dxb = val;
        } else if addr == 0x2222 {
            self.registers.exb = val;
        } else if addr == 0x2223 {
            self.registers.fxb = val;
        } else if addr == 0x2224 {
            self.registers.bmaps = val;
        } else if addr == 0x2225 {
            self.registers.bmap = val;
        } else if addr == 0x2226 {
            self.registers.sbwe = val;
        } else if addr == 0x2227 {
            self.registers.cbwe = val;
        } else if addr == 0x2228 {
            self.registers.bwpa = val;
        } else if addr == 0x2229 {
            self.registers.siwp = val;
        } else if addr == 0x222A {
            self.registers.ciwp = val;
        }
    }

    /// Zero-fills the DMA destination in I-RAM (see `dma_fill`).
    fn execute_dma(&mut self)
        ensures
            sa1_with_iram(
                *final(self),
                *old(self),
                dma_fill(old(self).iram@, old(self).registers.dda, old(self).registers.dtc),
            ),
    {
        let dda = self.registers.dda;
        let dst = dda & 0x7FF;
        assert(dst == dda % 0x800 && dst < 0x800) by (bit_vector)
            requires
                dst == dda & 0x7FF,
        ;
        let room = 0x800 - dst;
        let len = if self.registers.dtc < room {
            self.registers.dtc
        } else {
            room
        };
        let ghost before = self.iram@;
        let mut i: u16 = 0;
        while i < len
            invariant
                dst < 0x800,
                len <= 0x800 - dst,
                i <= len,
                self.iram@.len() == 0x800,
                *self == (Sa1 { iram: self.iram, ..*old(self) }),
                before == old(self).iram@,
                forall|k: int|
                    0 <= k < 0x800 ==> #[trigger] self.iram@[k] == if dst <= k < dst + i {
                        0u8
                    } else {
                        before[k]
                    },
            decreases len - i,
        {
            let at = (dst + i) as usize;
            if at < 0x800 {
                self.iram[at] = 0;
            }
            i = i + 1;
        }
        assert(self.iram@ =~= dma_fill(before, old(self).registers.dda, old(self).registers.dtc));
    }

    /// Character conversion: not carried out; only its control register
    /// changes (in the caller).
    fn execute_character_conversion(&mut self)
        ensures
            *final(self) == *old(self),
    {
    }

    /// Runs the arithmetic unit on the operands (see `math_result_of`).
    fn execute_math_operation(&mut self)
        requires
            math_defined(old(self).registers.ccnt, old(self).registers.math_a, old(self).registers.math_b),
        ensures
            *final(self) == (Sa1 {
                math_result: math_result_of(
                    old(self).registers.ccnt,
                    old(self).registers.math_a,
                    old(self).registers.math_b,
                ),
                ..*old(self)
            }),
    {
        let ma = self.registers.math_a;
        let mb = self.registers.math_b;
        let a = ma as i16;
        let b = mb as i16;
        assert(a as int == signed16(ma) && b as int == signed16(mb)) by (bit_vector)
            requires
                a == ma as i16,
                b == mb as i16,
        ;
        if self.registers.ccnt & 1 != 0 {
            if b != 0 {
                let ua: u32 = if a < 0 {
                    (-(a as i32)) as u32
                } else {
                    a as u32
                };
                let ub: u32 = if b < 0 {
                    (-(b as i32)) as u32
                } else {
                    b as u32
                };
                let q = (ua / ub) as i32;
                let r = (ua % ub) as i32;
                let quotient = if (a < 0) == (b < 0) {
                    q
                } else {
                    -q
                };
                let remainder = if a < 0 {
                    -r
                } else {
                    r
                };
                self.math_result = (remainder as u16) as u64 * 0x10000 + (quotient as u16) as u64;
            } else {
                self.math_result = 0;
            }
        } else {
            let x = a as i32;
            let y = b as i32;
            assert(-0x4000_0000 <= x * y <= 0x4000_0000) by (nonlinear_arith)
                requires
                    -32768 <= x <= 32767,
                    -32768 <= y <= 32767,
            ;
            let product = x * y;
            self.math_result = product as u64;
        }
    }

    /// $2230-$225F: DMA, character conversion, arithmetic and bit reads.
    #[verifier::spinoff_prover]
    fn write_units(&mut self, addr: u16, val: u8)
        requires
            0x2230 <= addr <= 0x225F,
            addr == 0x2253 ==> math_defined(
                old(self).registers.ccnt,
                old(self).registers.math_a,
                set_high(old(self).registers.math_b, val),
            ),
        ensures
            sa1_with_iram(
                *final(self),
                sa1_write_register(*old(self), addr, val).0,
                sa1_write_register(*old(self), addr, val).1,
            ),
    {
        if addr == 0x2230 {
            self.registers.dcnt = val;
            if val & 0x80 != 0 {
                self.execute_dma();
            }
        } else if addr == 0x2231 {
            self.registers.cdma = val;
            if val & 0x80 != 0 {
                self.execute_character_conversion();
            }
        } else if 0x2232 <= addr && addr <= 0x2234 {
            self.registers.sda = set_byte24_exec(self.registers.sda, addr - 0x2232, val);
        } else if addr == 0x2235 {
            self.registers.dda = set_low_exec(self.registers.dda, val);
        } else if addr == 0x2236 {
            self.registers.dda = set_high_exec(self.registers.dda, val);
        } else if addr == 0x2238 {
            self.registers.dtc = set_low_exec(self.registers.dtc, val);
        } else if addr == 0x2239 {
            self.registers.dtc = set_high_exec(self.registers.dtc, val);
        } else if addr == 0x223F {
            self.registers.brf = val;
        } else if addr == 0x2250 {
            self.registers.math_a = set_low_exec(self.registers.math_a, val);
        } else if addr == 0x2251 {
            self.registers.math_a = set_high_exec(self.registers.math_a, val);
        } else if addr == 0x2252 {
            self.registers.math_b = set_low_exec(self.registers.math_b, val);
        } else if addr == 0x2253 {
            self.registers.math_b = set_high_exec(self.registers.math_b, val);
            self.execute_math_operation();
        } else if addr == 0x2258 {
            self.registers.vbd = val;
            self.vbit_buffer = val;
            self.vbit_count = 8;
        } else if 0x2259 <= addr && addr <= 0x225B {
            self.registers.vda = set_byte24_exec(self.registers.vda, addr - 0x2259, val);
        }
    }

    /// Writes an SA-1 register (see `sa1_write_register`).
    fn write_register(&mut self, addr: u16, val: u8)
        requires
            addr == 0x2253 ==> math_defined(
                old(self).registers.ccnt,
                old(self).registers.math_a,
                set_high(old(self).registers.math_b, val),
            ),
        ensures
            sa1_with_iram(
                *final(self),
                sa1_write_register(*old(self), addr, val).0,
                sa1_write_register(*old(self), addr, val).1,
            ),
    {
        if 0x2200 <= addr && addr <= 0x220F {
            self.write_control(addr, val);
        } else if 0x2210 <= addr && addr <= 0x222F {
            self.write_ports(addr, val);
        } else if 0x2230 <= addr && addr <= 0x225F {
            self.write_units(addr, val);
        }
    }

    /// Runs the SA-1 (see `sa1_step`).
    fn execute_sa1(&mut self, cycles: u32)
        ensures
            *final(self) == sa1_step(*old(self), cycles),
    {
        if !self.sa1_running {
            return;
        }
        self.sa1_cycles = self.sa1_cycles.wrapping_add(cycles as u64);
        self.sa1_pc = self.sa1_pc.wrapping_add(1);
    }
}

impl CoProcessor for Sa1 {
    open spec fn inv(&self) -> bool {
        true
    }

    open spec fn answers(&self, addr: u32) -> bool {
        sa1_answers(addr)
    }

    open spec fn read_spec(&self, addr: u32, value: u8, after: Self) -> bool {
        (value, after) == sa1_read(*self, addr)
    }

    open spec fn write_ok(&self, addr: u32, value: u8) -> bool {
        sa1_write_ok(*self, addr, value)
    }

    open spec fn write_spec(&self, addr: u32, value: u8, after: Self) -> bool {
        sa1_with_iram(after, sa1_write(*self, addr, value).0, sa1_write(*self, addr, value).1)
    }

    open spec fn step_ok(&self, cycles: u32) -> bool {
        true
    }

    open spec fn step_spec(&self, cycles: u32, done: u32, after: Self) -> bool {
        done == cycles && after == sa1_step(*self, cycles)
    }

    open spec fn reset_spec(&self, after: Self) -> bool {
        sa1_with_iram(after, sa1_init(), Seq::new(0x800, |i: int| 0u8))
    }

    fn reset(&mut self) {
        self.sa1_cycles = 0;
        self.sa1_running = false;
        self.sa1_pc = 0;
        self.sa1_a = 0;
        self.sa1_x = 0;
        self.sa1_y = 0;
        self.iram = [0u8; 0x800];
        self.registers = Sa1Registers::default();
        self.sa1_irq_pending = false;
        self.sa1_nmi_pending = false;
        self.snes_irq_pending = false;
        self.snes_nmi_pending = false;
        self.math_result = 0;
        self.vbit_buffer = 0;
        self.vbit_count = 0;
        assert(self.iram@ =~= Seq::new(0x800, |i: int| 0u8));
    }

    fn read(&mut self, addr: u32) -> (value: u8) {
        let a = addr & 0xFF_FFFF;
        proof {
            lemma_addr_masks(addr);
        }
        if 0x3000 <= a && a <= 0x37FF {
            self.iram[(a - 0x3000) as usize]
        } else if 0x2200 <= a && a <= 0x23FF {
            self.read_register(a as u16)
        } else {
            0
        }
    }

    fn write(&mut self, addr: u32, value: u8) {
        let a = addr & 0xFF_FFFF;
        proof {
            lemma_addr_masks(addr);
        }
        if 0x3000 <= a && a <= 0x37FF {
            let offset = (a - 0x3000) as usize;
            if self.registers.ciwp & 0x80 == 0 || offset >= 0x100 {
                self.iram[offset] = value;
            }
        } else if 0x2200 <= a && a <= 0x23FF {
            self.write_register(a as u16, value);
        }
    }

    fn step(&mut self, cycles: u32) -> (done: u32) {
        self.execute_sa1(cycles);
        cycles
    }

    fn handles_address(&self, addr: u32) -> (b: bool) {
        let a = addr & 0xFF_FFFF;
        proof {
            lemma_addr_masks(addr);
        }
        (0x2200 <= a && a <= 0x23FF) || (0x3000 <= a && a <= 0x37FF)
    }
}

impl Default for Sa1 {
    fn default() -> (s: Self)
        ensures
            s == sa1_init(),
    {
        Self::new()
    }
}

/// A byte written to I-RAM reads back, unless the write protection of the
/// first 256 bytes dropped it.
pub proof fn law_sa1_iram_write_read(s: Sa1, addr: u32, val: u8, after: Sa1)
    requires
        0x3000 <= sa1_addr(addr) <= 0x37FF,
        s.registers.ciwp & 0x80 == 0 || sa1_addr(addr) - 0x3000 >= 0x100,
        sa1_with_iram(after, sa1_write(s, addr, val).0, sa1_write(s, addr, val).1),
    ensures
        sa1_read(after, addr).0 == val,
{
}

/// A message byte the SA-1 side writes ($2214-$2217) is what the main CPU
/// reads ($2301-$2304).
pub proof fn law_sa1_message_write_read(s: Sa1, i: u32, val: u8, after: Sa1)
    requires
        i < 4,
        sa1_with_iram(
            after,
            sa1_write(s, (0x2214 + i) as u32, val).0,
            sa1_write(s, (0x2214 + i) as u32, val).1,
        ),
    ensures
        sa1_read(after, (0x2301 + i) as u32).0 == val,
{
    broadcast use vstd::array::group_array_axioms;

}

proof fn lemma_wrap_casts(w: i32, p: i64)
    by (bit_vector)
    requires
        -32768 <= w <= 32767,
    ensures
        (w as u16) as int == (if w < 0 { w + 0x10000 } else { w as int }),
        (p as u64) as int == (if p < 0 { p + 0x1_0000_0000_0000_0000 } else { p as int }),
{
}

proof fn lemma_signed_word(v: int)
    requires
        -32768 <= v <= 32767,
    ensures
        signed16(v as u16) == v,
        (v as u16) as int == (if v < 0 { v + 0x10000 } else { v }),
{
    lemma_wrap_casts(v as i32, 0);
}

/// The arithmetic unit reads both operands as signed 16-bit numbers.
/// Without CCNT bit 0 it gives their product as a 64-bit two's-complement
/// value. With it, a zero divisor gives 0, and otherwise the low 16 bits
/// hold a quotient q and the next 16 bits a remainder r (both signed) with
/// a = q * b + r, |r| < |b| and r zero or of a's sign: division rounding
/// toward zero.
pub proof fn law_sa1_arithmetic(ccnt: u8, a: u16, b: u16)
    requires
        math_defined(ccnt, a, b),
    ensures
        ({
            let x = signed16(a);
            let y = signed16(b);
            let res = math_result_of(ccnt, a, b) as int;
            &&& ccnt & 1 == 0 ==> res == (if x * y >= 0 {
                x * y
            } else {
                x * y + 0x1_0000_0000_0000_0000
            })
            &&& ccnt & 1 != 0 && y == 0 ==> res == 0
            &&& ccnt & 1 != 0 && y != 0 ==> {
                let q = signed16((res % 0x10000) as u16);
                let r = signed16((res / 0x10000) as u16);
                &&& res < 0x1_0000_0000
                &&& x == q * y + r
                &&& magnitude(r) < magnitude(y)
                &&& (r == 0 || (r < 0) == (x < 0))
            }
        }),
{
    let x = signed16(a);
    let y = signed16(b);
    if ccnt & 1 == 0 {
        assert(-0x4000_0000 <= x * y <= 0x4000_0000) by (nonlinear_arith)
            requires
                -32768 <= x <= 32767,
                -32768 <= y <= 32767,
        ;
        lemma_wrap_casts(0, (x * y) as i64);
    } else if y != 0 {
        let mx = magnitude(x);
        let my = magnitude(y);
        let q0 = mx / my;
        let r0 = mx % my;
        vstd::arithmetic::div_mod::lemma_fundamental_div_mod(mx, my);
        assert(0 <= r0 < my);
        assert(0 <= q0 <= mx) by (nonlinear_arith)
            requires
                q0 == mx / my,
                my >= 1,
                mx >= 0,
        {
            vstd::arithmetic::div_mod::lemma_div_is_ordered_by_denominator(mx, 1, my);
        }
        let q = trunc_div(x, y);
        let r = trunc_rem(x, y);
        assert(mx == my * q0 + r0);
        assert(-32768 <= q <= 32767) by {
            if my >= 2 {
                assert(q0 * 2 <= my * q0) by (nonlinear_arith)
                    requires
                        my >= 2,
                        q0 >= 0,
                ;
            } else {
                assert(mx / my == mx) by (nonlinear_arith)
                    requires
                        my == 1,
                ;
                if y == -1 {
                    assert(b == 0xFFFF);
                    assert(a != 0x8000);
                }
            }
        }
        assert(x == q * y + r) by (nonlinear_arith)
            requires
                mx == my * q0 + r0,
                mx == (if x < 0 { -x } else { x }),
                my == (if y < 0 { -y } else { y }),
                q == (if (x < 0) == (y < 0) { q0 } else { -q0 }),
                r == (if x < 0 { -r0 } else { r0 }),
        ;
        lemma_signed_word(q);
        lemma_signed_word(r);
        let hi = (r as u16) as int;
        let lo = (q as u16) as int;
        assert(math_result_of(ccnt, a, b) as int == hi * 0x10000 + lo);
        assert((hi * 0x10000 + lo) % 0x10000 == lo && (hi * 0x10000 + lo) / 0x10000 == hi);
    }
}

} // verus!
