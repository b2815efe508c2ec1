//! The SuperFX graphics support unit: sixteen 16-bit registers (R15 the
//! program counter, R14 the ROM buffer pointer), a 512-byte cache RAM from
//! which it fetches and into which it loads, stores and plots, and a
//! status register whose GO bit starts and stops it.
//!
//! The main CPU sees the registers at $3000-$303F and the cache at
//! $3100-$32FF.
use vstd::prelude::*;
use vstd::array::spec_array_update;
use crate::chips::CoProcessor;

use crate::bits::{lemma_addr_masks, lemma_field_bounds};

verus! {

/// The SuperFX status flags.
#[derive(Clone, Copy)]
pub struct SfxStatus {
    /// Running.
    pub go: bool,
    /// Interrupt raised.
    pub irq: bool,
    pub carry: bool,
    pub zero: bool,
    pub sign: bool,
    pub overflow: bool,
}

/// All status flags clear.
pub open spec fn status_init() -> SfxStatus {
    SfxStatus { go: false, irq: false, carry: false, zero: false, sign: false, overflow: false }
}

impl Default for SfxStatus {
    fn default() -> (s: Self)
        ensures
            s == status_init(),
    {
        SfxStatus { go: false, irq: false, carry: false, zero: false, sign: false, overflow: false }
    }
}

/// The SuperFX.
pub struct SuperFx {
    /// R0-R15.
    pub r: [u16; 16],
    /// The 512-byte cache RAM.
    pub cache: [u8; 0x200],
    pub status: SfxStatus,
    /// Where PLOT draws (SCBR times 512).
    pub screen_base: u16,
    pub screen_height: u8,
    pub rom_bank: u8,
    pub ram_bank: u8,
    pub cache_base: u16,
    /// Configuration (bit 5: double clock).
    pub cfgr: u8,
    /// Screen base.
    pub scbr: u8,
    /// Clock select.
    pub clsr: u8,
    /// Plot options.
    pub por: u8,
    /// The colour PLOT draws.
    pub color_reg: u8,
    pub plot_transparent: bool,
    pub plot_dither: bool,
    pub plot_high: bool,
    /// Cycles run.
    pub cycles: u64,
    /// Its clock against the main clock: 1, or 2 in high-speed mode.
    pub clock_multiplier: u32,
}

/// The SuperFX at power-on: stopped, registers and cache clear, normal
/// speed, 128-line screen.
pub open spec fn sfx_init() -> SuperFx {
    SuperFx {
        r: vstd::array::spec_array_fill_for_copy_type::<u16, 16>(0u16),
        cache: vstd::array::spec_array_fill_for_copy_type::<u8, 0x200>(0u8),
        status: status_init(),
        screen_base: 0,
        screen_height: 128,
        rom_bank: 0,
        ram_bank: 0,
        cache_base: 0,
        cfgr: 0,
        scbr: 0,
        clsr: 0,
        por: 0,
        color_reg: 0,
        plot_transparent: false,
        plot_dither: false,
        plot_high: false,
        cycles: 0,
        clock_multiplier: 1,
    }
}

// ---------------------------------------------------------------------------
// Instructions
// ---------------------------------------------------------------------------

/// Fetches the byte at R15 (0 outside the cache) and moves R15 on.
pub open spec fn sfx_fetch(s: SuperFx) -> (u8, SuperFx) {
    let pc = s.r[15];
    (
        if pc < 0x200 {
            s.cache[pc as int]
        } else {
            0
        },
        SuperFx { r: spec_array_update(s.r, 15, ((pc as int + 1) % 0x10000) as u16), ..s },
    )
}

/// Z and S from a result.
pub open spec fn sfx_flags(st: SfxStatus, v: u16) -> SfxStatus {
    SfxStatus { zero: v == 0, sign: v & 0x8000 != 0, ..st }
}

/// R0 set to `v`, with Z and S from it.
pub open spec fn set_r0(s: SuperFx, v: u16) -> SuperFx {
    SuperFx { r: spec_array_update(s.r, 0, v), status: sfx_flags(s.status, v), ..s }
}

/// A byte sign-extended to 16 bits.
pub open spec fn sext16(b: u8) -> u16 {
    if b < 0x80 {
        b as u16
    } else {
        (b as int + 0xFF00) as u16
    }
}

/// A 16-bit register's bits as a signed number.
pub open spec fn signed16(v: u16) -> int {
    if v >= 0x8000 {
        v - 0x10000
    } else {
        v as int
    }
}

/// ADD Rn: R0 + Rn (wrapping); C on unsigned overflow, V on signed overflow.
pub open spec fn sfx_add(s: SuperFx, n: int) -> SuperFx {
    let a = s.r[0];
    let b = s.r[n];
    let result = ((a as int + b as int) % 0x10000) as u16;
    let st = SfxStatus {
        carry: result < a,
        overflow: ((a ^ b) & 0x8000) == 0 && ((a ^ result) & 0x8000) != 0,
        ..s.status
    };
    set_r0(SuperFx { status: st, ..s }, result)
}

/// SUB Rn: R0 - Rn (wrapping); C when nothing was borrowed, V on signed
/// overflow.
pub open spec fn sfx_sub(s: SuperFx, n: int) -> SuperFx {
    let a = s.r[0];
    let b = s.r[n];
    let result = ((a as int - b as int + 0x10000) % 0x10000) as u16;
    let st = SfxStatus {
        carry: a >= b,
        overflow: ((a ^ b) & 0x8000) != 0 && ((a ^ result) & 0x8000) != 0,
        ..s.status
    };
    set_r0(SuperFx { status: st, ..s }, result)
}

/// What one instruction does, its opcode already fetched: the SuperFX
/// afterwards and the cycles it took (before the clock multiplier).
/// Opcode families by the high nibble, the register in the low nibble:
/// 1 TO, 3 STB, 4 LDB, 5 ADD, 6 SUB, 8 MULT, A IBT, B FROM, F IWT; $00 STOP,
/// $01 NOP, $20 GETC, $DE ROMB, $DF RAMB; anything else takes a cycle and
/// does nothing.
pub open spec fn sfx_exec(s: SuperFx, opcode: u8) -> (SuperFx, u32) {
    let op_type = opcode & 0xF0;
    let n = (opcode & 0x0F) as int;
    if opcode == 0x00 {
        (SuperFx { status: SfxStatus { go: false, ..s.status }, ..s }, 1)
    } else if opcode == 0x01 {
        (s, 1)
    } else if op_type == 0x10 {
        (SuperFx { r: spec_array_update(s.r, 13, n as u16), ..s }, 1)
    } else if op_type == 0x30 {
        let addr = s.r[n];
        (
            if addr < 0x200 {
                SuperFx { cache: spec_array_update(s.cache, addr as int, (s.r[0] % 256) as u8), ..s }
            } else {
                s
            },
            1,
        )
    } else if op_type == 0x40 {
        let addr = s.r[n];
        let v = if addr < 0x200 {
            s.cache[addr as int]
        } else {
            0
        };
        (set_r0(s, v as u16), 1)
    } else if op_type == 0x50 {
        (sfx_add(s, n), 1)
    } else if op_type == 0x60 {
        (sfx_sub(s, n), 1)
    } else if op_type == 0x80 {
        (set_r0(s, (signed16(s.r[0]) * signed16(s.r[n])) as u16), 8)
    } else if op_type == 0xA0 {
        let (imm, s1) = sfx_fetch(s);
        (SuperFx { r: spec_array_update(s1.r, n, sext16(imm)), ..s1 }, 2)
    } else if op_type == 0xB0 {
        (set_r0(s, s.r[n]), 1)
    } else if op_type == 0xF0 {
        let (lo, s1) = sfx_fetch(s);
        let (hi, s2) = sfx_fetch(s1);
        (SuperFx { r: spec_array_update(s2.r, n, (hi as int * 256 + lo as int) as u16), ..s2 }, 3)
    } else if opcode == 0x20 {
        let r = spec_array_update(s.r, 0, 0u16);
        (SuperFx { r: spec_array_update(r, 14, ((s.r[14] as int + 1) % 0x10000) as u16), ..s }, 6)
    } else if opcode == 0xDF {
        let (imm, s1) = sfx_fetch(s);
        (SuperFx { ram_bank: imm, ..s1 }, 1)
    } else if opcode == 0xDE {
        let (imm, s1) = sfx_fetch(s);
        (SuperFx { rom_bank: imm, ..s1 }, 1)
    } else {
        (s, 1)
    }
}

/// One instruction while running: fetched and executed, its cycles scaled
/// by the clock multiplier; a stopped SuperFX takes no cycles.
#[verifier::opaque]
pub open spec fn sfx_execute_step(s: SuperFx) -> (SuperFx, u32) {
    if !s.status.go {
        (s, 0)
    } else {
        let (op, s1) = sfx_fetch(s);
        let (s2, c) = sfx_exec(s1, op);
        (s2, (c * s.clock_multiplier) as u32)
    }
}

/// Instructions run until `target` cycles are reached, the SuperFX stops,
/// or (a guard against runaway loops) more than twice the target has
/// run: the SuperFX afterwards and the cycles run, counting from
/// `executed`.
pub open spec fn sfx_run(s: SuperFx, target: int, executed: int) -> (SuperFx, int)
    decreases 2 * target + 1 - executed,
{
    if executed >= target || !s.status.go {
        (s, executed)
    } else {
        let (s1, c) = sfx_execute_step(s);
        let e1 = executed + c;
        let s2 = SuperFx { cycles: ((s1.cycles as int + c as int) % 0x1_0000_0000_0000_0000) as u64, ..s1 };
        if c == 0 || e1 > 2 * target {
            (s2, e1)
        } else {
            sfx_run(s2, target, e1)
        }
    }
}

// ---------------------------------------------------------------------------
// Registers
// ---------------------------------------------------------------------------

/// The status register as the CPU reads it: GO bit 5, IRQ bit 7, C bit 1,
/// Z bit 2, S bit 3, V bit 4.
pub open spec fn sfr_byte(st: SfxStatus) -> u8 {
    ((if st.go { 0x20int } else { 0 }) + (if st.irq { 0x80int } else { 0 }) + (if st.carry {
        0x02int
    } else {
        0
    }) + (if st.zero { 0x04int } else { 0 }) + (if st.sign { 0x08int } else { 0 }) + (if st.overflow {
        0x10int
    } else {
        0
    })) as u8
}

/// What a read of register `addr` ($3000-$303F) gives: R0-R15 as byte
/// pairs (low byte first), SFR, CFGR, SCBR, CLSR, POR and the bank
/// registers; anything else reads 0.
pub open spec fn sfx_read_register(s: SuperFx, addr: u16) -> u8 {
    if 0x3000 <= addr <= 0x301F {
        let v = s.r[(addr - 0x3000) / 2];
        if (addr - 0x3000) % 2 == 0 {
            (v % 256) as u8
        } else {
            (v / 256) as u8
        }
    } else if addr == 0x3030 {
        sfr_byte(s.status)
    } else if addr == 0x3034 {
        s.cfgr
    } else if addr == 0x3035 {
        s.scbr
    } else if addr == 0x3037 {
        s.clsr
    } else if addr == 0x3038 {
        s.por
    } else if addr == 0x3033 {
        s.rom_bank
    } else if addr == 0x303A {
        s.ram_bank
    } else {
        0
    }
}

/// What a write of `val` to register `addr` does. Writing SFR sets GO from
/// bit 5 and clears IRQ on a start or when bit 7 is set.
pub open spec fn sfx_write_register(s: SuperFx, addr: u16, val: u8) -> SuperFx {
    if 0x3000 <= addr <= 0x301F {
        let k = (addr - 0x3000) / 2;
        let v = s.r[k];
        let nv = if (addr - 0x3000) % 2 == 0 {
            (v / 256 * 256 + val) as u16
        } else {
            (val as int * 256 + v % 256) as u16
        };
        SuperFx { r: spec_array_update(s.r, k as int, nv), ..s }
    } else if addr == 0x3030 {
        let go = val & 0x20 != 0;
        let irq = if (!s.status.go && go) || val & 0x80 != 0 {
            false
        } else {
            s.status.irq
        };
        SuperFx { status: SfxStatus { go, irq, ..s.status }, ..s }
    } else if addr == 0x3034 {
        SuperFx {
            cfgr: val,
            clock_multiplier: if val & 0x20 != 0 {
                2
            } else {
                1
            },
            ..s
        }
    } else if addr == 0x3035 {
        SuperFx { scbr: val, screen_base: ((val as int * 512) % 0x10000) as u16, ..s }
    } else if addr == 0x3037 {
        SuperFx { clsr: val, ..s }
    } else if addr == 0x3038 {
        SuperFx {
            por: val,
            plot_transparent: val & 0x01 != 0,
            plot_dither: val & 0x02 != 0,
            plot_high: val & 0x10 != 0,
            ..s
        }
    } else if addr == 0x3033 {
        SuperFx { rom_bank: val, ..s }
    } else if addr == 0x303A {
        SuperFx { ram_bank: val, ..s }
    } else if addr == 0x303C {
        SuperFx { color_reg: val, ..s }
    } else {
        s
    }
}

/// Whether the SuperFX answers at `addr` (16-bit decoding): its registers
/// and its cache.
pub open spec fn sfx_answers(addr: u32) -> bool {
    let a = addr as int % 0x10000;
    (0x3000 <= a <= 0x303F) || (0x3100 <= a <= 0x32FF)
}

/// What a main CPU read of `addr` gives.
pub open spec fn sfx_read(s: SuperFx, addr: u32) -> u8 {
    let a = addr as int % 0x10000;
    if 0x3000 <= a <= 0x303F {
        sfx_read_register(s, a as u16)
    } else if 0x3100 <= a <= 0x32FF {
        s.cache[a - 0x3100]
    } else {
        0
    }
}

/// What a main CPU write of `val` to `addr` does.
pub open spec fn sfx_write(s: SuperFx, addr: u32, val: u8) -> SuperFx {
    let a = addr as int % 0x10000;
    if 0x3000 <= a <= 0x303F {
        sfx_write_register(s, a as u16, val)
    } else if 0x3100 <= a <= 0x32FF {
        SuperFx { cache: spec_array_update(s.cache, a - 0x3100, val), ..s }
    } else {
        s
    }
}

/// Whether a run of `cycles` keeps the cycle counts in 32 bits: the
/// multiplier is non-zero, the target `cycles * multiplier` fits, and while
/// running twice the target plus one more instruction fits.
pub open spec fn sfx_step_ok(s: SuperFx, cycles: u32) -> bool {
    &&& s.clock_multiplier >= 1
    &&& cycles * s.clock_multiplier <= u32::MAX
    &&& s.status.go ==> 2 * (cycles * s.clock_multiplier) + 8 * s.clock_multiplier <= u32::MAX
}

/// The opcode groups of GETC, RAMB and ROMB.
proof fn lemma_opcode_groups()
    by (bit_vector)
    ensures
        0x20u8 & 0xF0 == 0x20u8,
        0xDFu8 & 0xF0 == 0xD0u8,
        0xDEu8 & 0xF0 == 0xD0u8,
{
}

proof fn lemma_run_keeps_multiplier(s: SuperFx, target: int, executed: int)
    ensures
        sfx_run(s, target, executed).0.clock_multiplier == s.clock_multiplier,
    decreases 2 * target + 1 - executed,
{
    reveal(sfx_execute_step);
    if executed >= target || !s.status.go {
    } else {
        let (s1, c) = sfx_execute_step(s);
        let e1 = executed + c;
        let s2 = SuperFx { cycles: ((s1.cycles as int + c as int) % 0x1_0000_0000_0000_0000) as u64, ..s1 };
        if c == 0 || e1 > 2 * target {
        } else {
            lemma_run_keeps_multiplier(s2, target, e1);
        }
    }
}


impl SuperFx {
    /// A powered-up SuperFX (see `sfx_init`).
    pub fn new() -> (s: Self)
        ensures
            s == sfx_init(),
    {
        SuperFx {
            r: [0u16; 16],
            cache: [0u8; 0x200],
            status: SfxStatus::default(),
            screen_base: 0,
            screen_height: 128,
            rom_bank: 0,
            ram_bank: 0,
            cache_base: 0,
            cfgr: 0,
            scbr: 0,
            clsr: 0,
            por: 0,
            color_reg: 0,
            plot_transparent: false,
            plot_dither: false,
            plot_high: false,
            cycles: 0,
            clock_multiplier: 1,
        }
    }

    /// Fetches the byte at R15 (see `sfx_fetch`).
    fn fetch_byte(&mut self) -> (b: u8)
        ensures
            (b, *final(self)) == sfx_fetch(*old(self)),
    {
        let pc = self.r[15];
        self.r[15] = pc.wrapping_add(1);
        if pc < 0x200 {
            self.cache[pc as usize]
        } else {
            0
        }
    }

    /// Sets Z and S from a result.
    fn update_flags(&mut self, value: u16)
        ensures
            *final(self) == (SuperFx { status: sfx_flags(old(self).status, value), ..*old(self) }),
    {
        self.status.zero = value == 0;
        self.status.sign = (value & 0x8000) != 0;
    }

    /// ADD and SUB.
    fn op_add_sub(&mut self, opcode: u8)
        requires
            opcode & 0xF0 == 0x50 || opcode & 0xF0 == 0x60,
        ensures
            *final(self) == if opcode & 0xF0 == 0x50 {
                sfx_add(*old(self), (opcode & 0x0F) as int)
            } else {
                sfx_sub(*old(self), (opcode & 0x0F) as int)
            },
    {
        let n = (opcode & 0x0F) as usize;
        proof {
            lemma_field_bounds(opcode, 0, 0);
        }
        let a = self.r[0];
        let b = self.r[n];
        if opcode & 0xF0 == 0x50 {
            let result = a.wrapping_add(b);
            self.status.carry = result < a;
            self.status.overflow = ((a ^ b) & 0x8000) == 0 && ((a ^ result) & 0x8000) != 0;
            self.r[0] = result;
            self.update_flags(result);
        } else {
            let result = a.wrapping_sub(b);
            self.status.carry = a >= b;
            self.status.overflow = ((a ^ b) & 0x8000) != 0 && ((a ^ result) & 0x8000) != 0;
            self.r[0] = result;
            self.update_flags(result);
        }
    }

    /// GETC: the ROM buffer is not emulated; R0 is cleared and R14 moves on.
    fn op_getc(&mut self) -> (c: u32)
        ensures
            (*final(self), c) == sfx_exec(*old(self), 0x20),
    {
        proof {
            lemma_opcode_groups();
        }
        self.r[0] = 0;
        self.r[14] = self.r[14].wrapping_add(1);
        6
    }

    /// RAMB: the bank from the next program byte.
    fn op_ramb(&mut self) -> (c: u32)
        ensures
            (*final(self), c) == sfx_exec(*old(self), 0xDF),
    {
        proof {
            lemma_opcode_groups();
        }
        let imm = self.fetch_byte();
        self.ram_bank = imm;
        1
    }

    /// ROMB: the bank from the next program byte.
    fn op_romb(&mut self) -> (c: u32)
        ensures
            (*final(self), c) == sfx_exec(*old(self), 0xDE),
    {
        proof {
            lemma_opcode_groups();
        }
        let imm = self.fetch_byte();
        self.rom_bank = imm;
        1
    }

    /// PLOT: the colour at (R1, R2) (low bytes) of a 256-pixel-wide screen
    /// from the screen base, where that lies in the cache; colour 0 is
    /// skipped in transparent mode.
    pub fn op_plot(&mut self) -> (c: u32)
        ensures
            c == 1,
            *final(self) == ({
                let x = old(self).r[1] % 256;
                let y = old(self).r[2] % 256;
                let addr = ((old(self).screen_base as int + y * 256 + x) % 0x10000) as u16;
                if addr < 0x200 && (!old(self).plot_transparent || old(self).color_reg != 0) {
                    SuperFx {
                        cache: spec_array_update(old(self).cache, addr as int, old(self).color_reg),
                        ..*old(self)
                    }
                } else {
                    *old(self)
                }
            }),
    {
        let x = self.r[1] % 256;
        let y = self.r[2] % 256;
        let color = self.color_reg;
        let addr = self.screen_base.wrapping_add(y * 256 + x);
        if addr < 0x200 {
            if !self.plot_transparent || color != 0 {
                self.cache[addr as usize] = color;
            }
        }
        1
    }

    /// COLOR: the plot colour from the low byte of R0.
    pub fn op_color(&mut self) -> (c: u32)
        ensures
            c == 1,
            *final(self) == (SuperFx { color_reg: (old(self).r[0] % 256) as u8, ..*old(self) }),
    {
        self.color_reg = (self.r[0] % 256) as u8;
        1
    }

    /// Executes one instruction whose opcode was fetched (see `sfx_exec`);
    /// returns its cycles.
    #[verifier::rlimit(40)]
    pub fn execute_instruction(&mut self, opcode: u8) -> (c: u32)
        ensures
            (*final(self), c) == sfx_exec(*old(self), opcode),
    {
        let op_type = opcode & 0xF0;
        let n = (opcode & 0x0F) as usize;
        proof {
            lemma_field_bounds(opcode, 0, 0);
        }
        if opcode == 0x00 {
            self.status.go = false;
            1
        } else if opcode == 0x01 {
            1
        } else if op_type == 0x10 {
            self.r[13] = n as u16;
            1
        } else if op_type == 0x30 {
            let addr = self.r[n];
            if addr < 0x200 {
                self.cache[addr as usize] = (self.r[0] % 256) as u8;
            }
            1
        } else if op_type == 0x40 {
            let addr = self.r[n];
            let value = if addr < 0x200 {
                self.cache[addr as usize]
            } else {
                0
            };
            self.r[0] = value as u16;
            self.update_flags(value as u16);
            1
        } else if op_type == 0x50 || op_type == 0x60 {
            self.op_add_sub(opcode);
            1
        } else if op_type == 0x80 {
            let x = self.r[0] as i16 as i32;
            let y = self.r[n] as i16 as i32;
            assert(x == signed16(self.r[0 as int]) && y == signed16(self.r[n as int])) by {
                let a = self.r[0 as int];
                let b = self.r[n as int];
                assert((a as i16) as int == signed16(a) && (b as i16) as int == signed16(b))
                    by (bit_vector);
            }
            assert(-0x4000_0000 <= x * y <= 0x4000_0000) by (nonlinear_arith)
                requires
                    -32768 <= x <= 32767,
                    -32768 <= y <= 32767,
            ;
            let result = (x * y) as u16;
            self.r[0] = result;
            self.update_flags(result);
            8
        } else if op_type == 0xA0 {
            let imm = self.fetch_byte();
            let v: u16 = if imm < 0x80 {
                imm as u16
            } else {
                imm as u16 + 0xFF00
            };
            self.r[n] = v;
            2
        } else if op_type == 0xB0 {
            let v = self.r[n];
            self.r[0] = v;
            self.update_flags(v);
            1
        } else if op_type == 0xF0 {
            let lo = self.fetch_byte() as u16;
            let hi = self.fetch_byte() as u16;
            self.r[n] = hi * 256 + lo;
            3
        } else if opcode == 0x20 {
            self.op_getc()
        } else if opcode == 0xDF {
            self.op_ramb()
        } else if opcode == 0xDE {
            self.op_romb()
        } else {
            1
        }
    }

    /// Reads a register (see `sfx_read_register`).
    fn read_register(&self, addr: u16) -> (v: u8)
        ensures
            v == sfx_read_register(*self, addr),
    {
        if 0x3000 <= addr && addr <= 0x301F {
            let k = ((addr - 0x3000) / 2) as usize;
            if (addr - 0x3000) % 2 == 0 {
                (self.r[k] % 256) as u8
            } else {
                (self.r[k] / 256) as u8
            }
        } else if addr == 0x3030 {
            let mut sfr: u8 = 0;
            if self.status.go {
                sfr = sfr + 0x20;
            }
            if self.status.irq {
                sfr = sfr + 0x80;
            }
            if self.status.carry {
                sfr = sfr + 0x02;
            }
            if self.status.zero {
                sfr = sfr + 0x04;
            }
            if self.status.sign {
                sfr = sfr + 0x08;
            }
            if self.status.overflow {
                sfr = sfr + 0x10;
            }
            sfr
        } else if addr == 0x3034 {
            self.cfgr
        } else if addr == 0x3035 {
            self.scbr
        } else if addr == 0x3037 {
            self.clsr
        } else if addr == 0x3038 {
            self.por
        } else if addr == 0x3033 {
            self.rom_bank
        } else if addr == 0x303A {
            self.ram_bank
        } else {
            0
        }
    }

    /// Writes a register (see `sfx_write_register`).
    fn write_register(&mut self, addr: u16, val: u8)
        ensures
            *final(self) == sfx_write_register(*old(self), addr, val),
    {
        if 0x3000 <= addr && addr <= 0x301F {
            let k = ((addr - 0x3000) / 2) as usize;
            let v = self.r[k];
            if (addr - 0x3000) % 2 == 0 {
                self.r[k] = v / 256 * 256 + val as u16;
            } else {
                self.r[k] = val as u16 * 256 + v % 256;
            }
        } else if addr == 0x3030 {
            let old_go = self.status.go;
            self.status.go = (val & 0x20) != 0;
            if !old_go && self.status.go {
                self.status.irq = false;
            }
            if val & 0x80 != 0 {
                self.status.irq = false;
            }
        } else if addr == 0x3034 {
            self.cfgr = val;
            self.clock_multiplier = if val & 0x20 != 0 {
                2
            } else {
                1
            };
        } else if addr == 0x3035 {
            self.scbr = val;
            self.screen_base = ((val as u32 * 512) % 0x10000) as u16;
        } else if addr == 0x3037 {
            self.clsr = val;
        } else if addr == 0x3038 {
            self.por = val;
            self.plot_transparent = (val & 0x01) != 0;
            self.plot_dither = (val & 0x02) != 0;
            self.plot_high = (val & 0x10) != 0;
        } else if addr == 0x3033 {
            self.rom_bank = val;
        } else if addr == 0x303A {
            self.ram_bank = val;
        } else if addr == 0x303C {
            self.color_reg = val;
        }
    }

    /// Runs one instruction if running (see `sfx_execute_step`).
    fn execute_step(&mut self) -> (c: u32)
        requires
            old(self).status.go ==> 8 * old(self).clock_multiplier <= u32::MAX,
        ensures
            (*final(self), c) == sfx_execute_step(*old(self)),
            old(self).status.go ==> c <= 8 * old(self).clock_multiplier,
            old(self).status.go && old(self).clock_multiplier >= 1 ==> c >= 1,
            final(self).clock_multiplier == old(self).clock_multiplier,
    {
        reveal(sfx_execute_step);
        if !self.status.go {
            return 0;
        }
        let mult = self.clock_multiplier;
        let opcode = self.fetch_byte();
        let c = self.execute_instruction(opcode);
        assert(1 <= c <= 8);
        assert(c * mult <= 8 * mult) by (nonlinear_arith)
            requires
                c <= 8,
        ;
        assert(mult >= 1 ==> c * mult >= 1) by (nonlinear_arith)
            requires
                c >= 1,
        ;
        c * mult
    }
}


impl CoProcessor for SuperFx {
    open spec fn inv(&self) -> bool {
        1 <= self.clock_multiplier <= 2
    }

    open spec fn answers(&self, addr: u32) -> bool {
        sfx_answers(addr)
    }

    open spec fn read_spec(&self, addr: u32, value: u8, after: Self) -> bool {
        value == sfx_read(*self, addr) && after == *self
    }

    open spec fn write_ok(&self, addr: u32, value: u8) -> bool {
        true
    }

    open spec fn write_spec(&self, addr: u32, value: u8, after: Self) -> bool {
        after == sfx_write(*self, addr, value)
    }

    open spec fn step_ok(&self, cycles: u32) -> bool {
        sfx_step_ok(*self, cycles)
    }

    open spec fn step_spec(&self, cycles: u32, done: u32, after: Self) -> bool {
        let run = sfx_run(*self, cycles * self.clock_multiplier, 0);
        after == run.0 && done == run.1 / self.clock_multiplier as int
    }

    open spec fn reset_spec(&self, after: Self) -> bool {
        after == sfx_init()
    }

    fn reset(&mut self) {
        *self = SuperFx::new();
    }

    fn read(&mut self, addr: u32) -> (value: u8) {
        let a = addr & 0xFFFF;
        proof {
            lemma_addr_masks(addr);
        }
        if 0x3000 <= a && a <= 0x303F {
            self.read_register(a as u16)
        } else if 0x3100 <= a && a <= 0x32FF {
            self.cache[(a - 0x3100) as usize]
        } else {
            0
        }
    }

    fn write(&mut self, addr: u32, value: u8) {
        let a = addr & 0xFFFF;
        proof {
            lemma_addr_masks(addr);
        }
        if 0x3000 <= a && a <= 0x303F {
            self.write_register(a as u16, value);
        } else if 0x3100 <= a && a <= 0x32FF {
            self.cache[(a - 0x3100) as usize] = value;
        }
    }

    fn step(&mut self, cycles: u32) -> (done: u32) {
        let mult = self.clock_multiplier;
        let target = cycles * mult;
        let mut executed: u32 = 0;
        if self.status.go {
            while executed < target && self.status.go
                invariant_except_break
                    executed <= 2 * target,
                invariant
                    mult == self.clock_multiplier,
                    mult >= 1,
                    target == cycles * mult,
                    2 * target + 8 * mult <= u32::MAX,
                    sfx_run(*self, target as int, executed as int) == sfx_run(
                        *old(self),
                        target as int,
                        0,
                    ),
                ensures
                    executed >= target || !self.status.go,
                    mult == self.clock_multiplier,
                    sfx_run(*self, target as int, executed as int) == sfx_run(
                        *old(self),
                        target as int,
                        0,
                    ),
                decreases 2 * target + 1 - executed,
            {
                let ghost s0 = *self;
                let ghost e0 = executed;
                let c = self.execute_step();
                executed = executed + c;
                self.cycles = self.cycles.wrapping_add(c as u64);
                assert(sfx_run(s0, target as int, e0 as int) == if executed > 2 * target {
                    (*self, executed as int)
                } else {
                    sfx_run(*self, target as int, executed as int)
                });
                if executed > target * 2 {
                    assert(sfx_run(*self, target as int, executed as int) == (*self, executed as int));
                    break;
                }
            }
        }
        proof {
            lemma_run_keeps_multiplier(*old(self), target as int, 0);
        }
        executed / mult
    }

    fn handles_address(&self, addr: u32) -> (b: bool) {
        let a = addr & 0xFFFF;
        proof {
            lemma_addr_masks(addr);
        }
        (0x3000 <= a && a <= 0x303F) || (0x3100 <= a && a <= 0x32FF)
    }
}

impl Default for SuperFx {
    fn default() -> (s: Self)
        ensures
            s == sfx_init(),
    {
        Self::new()
    }
}

/// A byte written to the cache RAM reads back.
pub proof fn law_sfx_cache_write_read(s: SuperFx, addr: u32, val: u8)
    requires
        0x3100 <= addr as int % 0x10000 <= 0x32FF,
    ensures
        sfx_read(sfx_write(s, addr, val), addr) == val,
{
    broadcast use vstd::array::group_array_axioms;

}

/// A general register written low byte, then high byte, holds the word and
/// reads back byte by byte.
pub proof fn law_sfx_register_write_read(s: SuperFx, n: u32, lo: u8, hi: u8)
    requires
        n < 16,
    ensures
        ({
            let lo_addr = (0x3000 + 2 * n) as u32;
            let hi_addr = (0x3001 + 2 * n) as u32;
            let s2 = sfx_write(sfx_write(s, lo_addr, lo), hi_addr, hi);
            &&& s2.r[n as int] == hi as int * 256 + lo as int
            &&& sfx_read(s2, lo_addr) == lo
            &&& sfx_read(s2, hi_addr) == hi
        }),
{
    broadcast use vstd::array::group_array_axioms;

    let s1 = sfx_write(s, (0x3000 + 2 * n) as u32, lo);
    let s2 = sfx_write(s1, (0x3001 + 2 * n) as u32, hi);
    assert(s1.r[n as int] % 256 == lo);
    assert(s2.r[n as int] == hi as int * 256 + lo as int);
}

proof fn lemma_sfx_bits(opcode: u8, a: u16, b: u16, ra: u16, rs: u16)
    by (bit_vector)
    ensures
        opcode & 0xF0 == (opcode / 16) * 16,
        opcode & 0x0F == opcode % 16,
        (((a ^ b) & 0x8000) == 0 && ((a ^ ra) & 0x8000) != 0) == ((a >= 0x8000) == (b >= 0x8000)
            && (ra >= 0x8000) != (a >= 0x8000)),
        (((a ^ b) & 0x8000) != 0 && ((a ^ rs) & 0x8000) != 0) == ((a >= 0x8000) != (b >= 0x8000)
            && (rs >= 0x8000) != (a >= 0x8000)),
        (ra & 0x8000 != 0) == (ra >= 0x8000),
        (rs & 0x8000 != 0) == (rs >= 0x8000),
{
}

/// ADD Rn ($5n) and SUB Rn ($6n) take one cycle and put into R0 the sum
/// R0 + Rn or the difference R0 - Rn modulo 2^16; carry is set when the
/// sum passes $FFFF, or when the difference borrows nothing (R0 >= Rn);
/// overflow when the result read as signed 16 bits is off from the true
/// signed sum or difference; Z and S come from the result.
pub proof fn law_sfx_add_sub(s: SuperFx, opcode: u8)
    requires
        opcode / 16 == 5 || opcode / 16 == 6,
    ensures
        ({
            let n = (opcode % 16) as int;
            let a = s.r[0] as int;
            let b = s.r[n] as int;
            let sa = if a >= 0x8000 { a - 0x10000 } else { a };
            let sb = if b >= 0x8000 { b - 0x10000 } else { b };
            let (t, cycles) = sfx_exec(s, opcode);
            let r = t.r[0] as int;
            &&& cycles == 1
            &&& t.status.zero == (r == 0) && t.status.sign == (r >= 0x8000)
            &&& opcode / 16 == 5 ==> r == (a + b) % 0x10000 && t.status.carry == (a + b >= 0x10000)
                && t.status.overflow == (sa + sb < -32768 || sa + sb > 32767)
            &&& opcode / 16 == 6 ==> r == (a - b + 0x10000) % 0x10000 && t.status.carry == (a >= b)
                && t.status.overflow == (sa - sb < -32768 || sa - sb > 32767)
        }),
{
    broadcast use vstd::array::group_array_axioms;

    let n = (opcode % 16) as int;
    let a = s.r[0];
    let b = s.r[n];
    let ra = ((a as int + b as int) % 0x10000) as u16;
    let rs = ((a as int - b as int + 0x10000) % 0x10000) as u16;
    lemma_sfx_bits(opcode, a, b, ra, rs);
    assert(opcode != 0x00 && opcode != 0x01 && opcode != 0x20 && opcode != 0xDE && opcode != 0xDF);
}

} // verus!
