//! The audio processing unit: the SPC700 core, the S-DSP register file and
//! voice state, and the 64 KiB audio RAM they share.
//!
//! This is the staged, non-cycle-accurate APU: the SPC700 knows a handful of
//! opcodes and treats the rest as NOPs, and the DSP keeps registers, voice
//! parameters, key-on/key-off and BRR block decoding. Mixing the voices into
//! samples uses floating point and is done by the host around this library.
use vstd::prelude::*;
use crate::bits::{add16, add64, sign_extend8, make_word, wadd16, wadd64, sext8, word, lemma_field_bounds};

verus! {

/// Size of the audio RAM.
pub const AUDIO_RAM_SIZE: usize = 0x10000;

/// Number of addressable DSP registers ($00-$7F).
pub const DSP_REGISTER_SPACE: usize = 0x80;

/// Output sample rate of the DSP.
pub const SAMPLE_RATE: u32 = 32000;

/// Stereo sample pairs rendered per NTSC frame (about 32 kHz over 60 Hz).
pub const NTSC_SAMPLES_PER_FRAME: usize = 534;

// ---------------------------------------------------------------------------
// Processor status word
// ---------------------------------------------------------------------------

/// SPC700 processor status word.
#[derive(Clone, Copy)]
pub struct Psw {
    pub n: bool,
    pub v: bool,
    pub p: bool,
    pub b: bool,
    pub h: bool,
    pub i: bool,
    pub z: bool,
    pub c: bool,
}

/// The byte that packs a status word: N V P B H I Z C from bit 7 down.
pub open spec fn psw_byte(p: Psw) -> u8 {
    (if p.n { 0x80u8 } else { 0u8 }) | (if p.v { 0x40u8 } else { 0u8 }) | (if p.p {
        0x20u8
    } else {
        0u8
    }) | (if p.b { 0x10u8 } else { 0u8 }) | (if p.h { 0x08u8 } else { 0u8 }) | (if p.i {
        0x04u8
    } else {
        0u8
    }) | (if p.z { 0x02u8 } else { 0u8 }) | (if p.c { 0x01u8 } else { 0u8 })
}

/// The status word with every flag clear.
pub open spec fn psw_clear() -> Psw {
    Psw { n: false, v: false, p: false, b: false, h: false, i: false, z: false, c: false }
}

/// The status word that a byte unpacks to.
pub open spec fn psw_of_byte(value: u8) -> Psw {
    Psw {
        n: value & 0x80 != 0,
        v: value & 0x40 != 0,
        p: value & 0x20 != 0,
        b: value & 0x10 != 0,
        h: value & 0x08 != 0,
        i: value & 0x04 != 0,
        z: value & 0x02 != 0,
        c: value & 0x01 != 0,
    }
}

/// The status word after loading `value`: N is its bit 7, Z says it is 0.
pub open spec fn psw_with_nz(p: Psw, value: u8) -> Psw {
    Psw { n: value & 0x80 != 0, z: value == 0, ..p }
}

impl Psw {
    /// All flags clear.
    pub fn new() -> (p: Self)
        ensures
            p == psw_clear(),
    {
        Self { n: false, v: false, p: false, b: false, h: false, i: false, z: false, c: false }
    }

    /// Packs the flags into a byte.
    pub fn to_byte(&self) -> (b: u8)
        ensures
            b == psw_byte(*self),
    {
        (if self.n { 0x80u8 } else { 0u8 }) | (if self.v { 0x40u8 } else { 0u8 }) | (if self.p {
            0x20u8
        } else {
            0u8
        }) | (if self.b { 0x10u8 } else { 0u8 }) | (if self.h { 0x08u8 } else { 0u8 }) | (
        if self.i {
            0x04u8
        } else {
            0u8
        }) | (if self.z { 0x02u8 } else { 0u8 }) | (if self.c { 0x01u8 } else { 0u8 })
    }

    /// Unpacks a byte into the flags.
    pub fn from_byte(&mut self, value: u8)
        ensures
            *final(self) == psw_of_byte(value),
    {
        self.n = (value & 0x80) != 0;
        self.v = (value & 0x40) != 0;
        self.p = (value & 0x20) != 0;
        self.b = (value & 0x10) != 0;
        self.h = (value & 0x08) != 0;
        self.i = (value & 0x04) != 0;
        self.z = (value & 0x02) != 0;
        self.c = (value & 0x01) != 0;
    }

    /// Sets N from bit 7 of `value` and Z from `value == 0`; the rest stay.
    pub fn update_nz(&mut self, value: u8)
        ensures
            *final(self) == psw_with_nz(*old(self), value),
    {
        self.n = (value & 0x80) != 0;
        self.z = value == 0;
    }
}

/// Packing a status word into a byte and unpacking it gives the same word.
pub proof fn law_psw_byte_roundtrip(p: Psw)
    ensures
        psw_of_byte(psw_byte(p)) == p,
{
    let (n, v, pp, b, h, i, z, c) = (p.n, p.v, p.p, p.b, p.h, p.i, p.z, p.c);
    let x = psw_byte(p);
    assert(x == ((if n { 0x80u8 } else { 0u8 }) | (if v { 0x40u8 } else { 0u8 }) | (if pp {
        0x20u8
    } else {
        0u8
    }) | (if b { 0x10u8 } else { 0u8 }) | (if h { 0x08u8 } else { 0u8 }) | (if i {
        0x04u8
    } else {
        0u8
    }) | (if z { 0x02u8 } else { 0u8 }) | (if c { 0x01u8 } else { 0u8 })));
    assert((x & 0x80 != 0) == n && (x & 0x40 != 0) == v && (x & 0x20 != 0) == pp && (x & 0x10
        != 0) == b && (x & 0x08 != 0) == h && (x & 0x04 != 0) == i && (x & 0x02 != 0) == z && (x
        & 0x01 != 0) == c) by (bit_vector)
        requires
            x == ((if n { 0x80u8 } else { 0u8 }) | (if v { 0x40u8 } else { 0u8 }) | (if pp {
                0x20u8
            } else {
                0u8
            }) | (if b { 0x10u8 } else { 0u8 }) | (if h { 0x08u8 } else { 0u8 }) | (if i {
                0x04u8
            } else {
                0u8
            }) | (if z { 0x02u8 } else { 0u8 }) | (if c { 0x01u8 } else { 0u8 })),
    ;
}

/// Unpacking a byte into a status word and packing it gives the same byte.
pub proof fn law_psw_load_roundtrip(value: u8)
    ensures
        psw_byte(psw_of_byte(value)) == value,
{
    assert(((if value & 0x80 != 0 { 0x80u8 } else { 0u8 }) | (if value & 0x40 != 0 {
        0x40u8
    } else {
        0u8
    }) | (if value & 0x20 != 0 { 0x20u8 } else { 0u8 }) | (if value & 0x10 != 0 {
        0x10u8
    } else {
        0u8
    }) | (if value & 0x08 != 0 { 0x08u8 } else { 0u8 }) | (if value & 0x04 != 0 {
        0x04u8
    } else {
        0u8
    }) | (if value & 0x02 != 0 { 0x02u8 } else { 0u8 }) | (if value & 0x01 != 0 {
        0x01u8
    } else {
        0u8
    })) == value) by (bit_vector);
}

// ---------------------------------------------------------------------------
// SPC700 core
// ---------------------------------------------------------------------------

/// What the SPC700 core sees of the audio side: byte reads and writes by
/// 16-bit address.
pub trait SpcBus: Sized {
    /// The byte a read of `addr` gives.
    spec fn peek(&self, addr: u16) -> u8;

    /// `after` is this bus once `value` has been written to `addr`.
    spec fn poked(&self, addr: u16, value: u8, after: Self) -> bool;

    /// Reads a byte; reading changes nothing.
    fn read8(&mut self, addr: u16) -> (v: u8)
        ensures
            v == old(self).peek(addr),
            *final(self) == *old(self),
    ;

    /// Writes a byte.
    fn write8(&mut self, addr: u16, value: u8)
        ensures
            old(self).poked(addr, value, *final(self)),
    ;
}

/// SPC700 CPU core (a small subset of its instruction set).
#[derive(Clone, Copy)]
pub struct Spc700 {
    pub a: u8,
    pub x: u8,
    pub y: u8,
    pub psw: Psw,
    pub sp: u8,
    pub pc: u16,
    pub cycles: u64,
}

/// What one SPC700 instruction does: the core afterwards, the cycles it
/// took, and the byte it writes to the bus, if any.
pub struct SpcOutcome {
    pub spc: Spc700,
    pub cycles: u8,
    pub write: Option<(u16, u8)>,
}

/// The core after an instruction that took `cycles` and left `pc`.
pub open spec fn spc_advance(s: Spc700, pc: u16, cycles: u8) -> Spc700 {
    Spc700 { pc, cycles: wadd64(s.cycles, cycles as u64), ..s }
}

/// One SPC700 instruction at `s.pc`, with `peek` giving the bytes that bus
/// reads return.
///
/// MOV A/X/Y,#imm ($E8/$CD/$8D) load and set N and Z; MOV dp,A ($C4) stores
/// A; MOV A,dp ($E4) loads A from the direct page; JMP !abs ($5F) jumps;
/// BRA rel ($2F) branches; every other opcode is a 2-cycle NOP.
pub open spec fn spc_next_with(s: Spc700, peek: spec_fn(u16) -> u8) -> SpcOutcome {
    let op = peek(s.pc);
    let pc1 = wadd16(s.pc, 1);
    let arg = peek(pc1);
    let pc2 = wadd16(pc1, 1);
    if op == 0xE8 {
        let t = Spc700 { a: arg, psw: psw_with_nz(s.psw, arg), ..s };
        SpcOutcome { spc: spc_advance(t, pc2, 2), cycles: 2, write: None }
    } else if op == 0xCD {
        let t = Spc700 { x: arg, psw: psw_with_nz(s.psw, arg), ..s };
        SpcOutcome { spc: spc_advance(t, pc2, 2), cycles: 2, write: None }
    } else if op == 0x8D {
        let t = Spc700 { y: arg, psw: psw_with_nz(s.psw, arg), ..s };
        SpcOutcome { spc: spc_advance(t, pc2, 2), cycles: 2, write: None }
    } else if op == 0xC4 {
        SpcOutcome { spc: spc_advance(s, pc2, 4), cycles: 4, write: Some((arg as u16, s.a)) }
    } else if op == 0xE4 {
        let v = peek(arg as u16);
        let t = Spc700 { a: v, psw: psw_with_nz(s.psw, v), ..s };
        SpcOutcome { spc: spc_advance(t, pc2, 3), cycles: 3, write: None }
    } else if op == 0x5F {
        let target = word(arg, peek(pc2));
        SpcOutcome { spc: spc_advance(s, target, 2), cycles: 2, write: None }
    } else if op == 0x2F {
        SpcOutcome { spc: spc_advance(s, wadd16(pc2, sext8(arg)), 2), cycles: 2, write: None }
    } else {
        SpcOutcome { spc: spc_advance(s, pc1, 2), cycles: 2, write: None }
    }
}

/// One SPC700 instruction at `s.pc`, read from `bus`.
pub open spec fn spc_next<B: SpcBus>(s: Spc700, bus: B) -> SpcOutcome {
    spc_next_with(s, |a: u16| bus.peek(a))
}

impl Spc700 {
    /// Power-on state: registers clear, SP = $FF, PC = 0.
    pub fn new() -> (s: Self)
        ensures
            s == (Spc700 { a: 0, x: 0, y: 0, psw: psw_clear(), sp: 0xFF, pc: 0, cycles: 0 }),
    {
        Self { a: 0, x: 0, y: 0, psw: Psw::new(), sp: 0xFF, pc: 0, cycles: 0 }
    }

    /// Reset: registers clear, SP = $FF, PC at the IPL entry $FFC0.
    pub fn reset(&mut self)
        ensures
            *final(self) == (Spc700 {
                a: 0,
                x: 0,
                y: 0,
                psw: psw_clear(),
                sp: 0xFF,
                pc: 0xFFC0,
                cycles: 0,
            }),
    {
        self.a = 0;
        self.x = 0;
        self.y = 0;
        self.psw = Psw::new();
        self.sp = 0xFF;
        self.pc = 0xFFC0;
        self.cycles = 0;
    }

    /// Executes one instruction and returns the cycles it took.
    #[verifier::rlimit(50)]
    #[verifier::spinoff_prover]
    pub fn step<B: SpcBus>(&mut self, bus: &mut B) -> (cycles: u8)
        ensures
            ({
                let out = spc_next(*old(self), *old(bus));
                &&& *final(self) == out.spc
                &&& cycles == out.cycles
                &&& match out.write {
                    Some((addr, value)) => old(bus).poked(addr, value, *final(bus)),
                    None => *final(bus) == *old(bus),
                }
            }),
    {
        let ghost s0 = *self;
        let opcode = bus.read8(self.pc);
        self.pc = add16(self.pc, 1);
        let cycles: u8 = match opcode {
            0xE8 => self.mov_a_imm(bus),
            0xCD => self.mov_x_imm(bus),
            0x8D => self.mov_y_imm(bus),
            0xC4 => self.mov_direct_a(bus),
            0xE4 => self.mov_a_direct(bus),
            0x5F => self.jmp_abs(bus),
            0x2F => self.bra(bus),
            _ => 2,
        };
        self.cycles = add64(self.cycles, cycles as u64);
        cycles
    }

    fn fetch8<B: SpcBus>(&mut self, bus: &mut B) -> (v: u8)
        ensures
            v == old(bus).peek(old(self).pc),
            *final(self) == (Spc700 { pc: wadd16(old(self).pc, 1), ..*old(self) }),
            *final(bus) == *old(bus),
    {
        let v = bus.read8(self.pc);
        self.pc = add16(self.pc, 1);
        v
    }

    fn fetch16<B: SpcBus>(&mut self, bus: &mut B) -> (v: u16)
        ensures
            v == word(old(bus).peek(old(self).pc), old(bus).peek(wadd16(old(self).pc, 1))),
            *final(self) == (Spc700 { pc: wadd16(wadd16(old(self).pc, 1), 1), ..*old(self) }),
            *final(bus) == *old(bus),
    {
        let lo = self.fetch8(bus);
        let hi = self.fetch8(bus);
        make_word(lo, hi)
    }

    fn mov_a_imm<B: SpcBus>(&mut self, bus: &mut B) -> (c: u8)
        ensures
            ({
                let v = old(bus).peek(old(self).pc);
                *final(self) == (Spc700 {
                    a: v,
                    psw: psw_with_nz(old(self).psw, v),
                    pc: wadd16(old(self).pc, 1),
                    ..*old(self)
                })
            }),
            c == 2,
            *final(bus) == *old(bus),
    {
        let value = self.fetch8(bus);
        self.a = value;
        self.psw.update_nz(self.a);
        2
    }

    fn mov_x_imm<B: SpcBus>(&mut self, bus: &mut B) -> (c: u8)
        ensures
            ({
                let v = old(bus).peek(old(self).pc);
                *final(self) == (Spc700 {
                    x: v,
                    psw: psw_with_nz(old(self).psw, v),
                    pc: wadd16(old(self).pc, 1),
                    ..*old(self)
                })
            }),
            c == 2,
            *final(bus) == *old(bus),
    {
        let value = self.fetch8(bus);
        self.x = value;
        self.psw.update_nz(self.x);
        2
    }

    fn mov_y_imm<B: SpcBus>(&mut self, bus: &mut B) -> (c: u8)
        ensures
            ({
                let v = old(bus).peek(old(self).pc);
                *final(self) == (Spc700 {
                    y: v,
                    psw: psw_with_nz(old(self).psw, v),
                    pc: wadd16(old(self).pc, 1),
                    ..*old(self)
                })
            }),
            c == 2,
            *final(bus) == *old(bus),
    {
        let value = self.fetch8(bus);
        self.y = value;
        self.psw.update_nz(self.y);
        2
    }

    fn mov_a_direct<B: SpcBus>(&mut self, bus: &mut B) -> (c: u8)
        ensures
            ({
                let v = old(bus).peek(old(bus).peek(old(self).pc) as u16);
                *final(self) == (Spc700 {
                    a: v,
                    psw: psw_with_nz(old(self).psw, v),
                    pc: wadd16(old(self).pc, 1),
                    ..*old(self)
                })
            }),
            c == 3,
            *final(bus) == *old(bus),
    {
        let addr = self.fetch8(bus) as u16;
        self.a = bus.read8(addr);
        self.psw.update_nz(self.a);
        3
    }

    fn mov_direct_a<B: SpcBus>(&mut self, bus: &mut B) -> (c: u8)
        ensures
            *final(self) == (Spc700 { pc: wadd16(old(self).pc, 1), ..*old(self) }),
            c == 4,
            old(bus).poked(old(bus).peek(old(self).pc) as u16, old(self).a, *final(bus)),
    {
        let addr = self.fetch8(bus) as u16;
        bus.write8(addr, self.a);
        4
    }

    fn jmp_abs<B: SpcBus>(&mut self, bus: &mut B) -> (c: u8)
        ensures
            *final(self) == (Spc700 {
                pc: word(old(bus).peek(old(self).pc), old(bus).peek(wadd16(old(self).pc, 1))),
                ..*old(self)
            }),
            c == 2,
            *final(bus) == *old(bus),
    {
        let addr = self.fetch16(bus);
        self.pc = addr;
        2
    }

    fn bra<B: SpcBus>(&mut self, bus: &mut B) -> (c: u8)
        ensures
            *final(self) == (Spc700 {
                pc: wadd16(wadd16(old(self).pc, 1), sext8(old(bus).peek(old(self).pc))),
                ..*old(self)
            }),
            c == 2,
            *final(bus) == *old(bus),
    {
        let offset = self.fetch8(bus);
        self.pc = add16(self.pc, sign_extend8(offset));
        2
    }
}


// ---------------------------------------------------------------------------
// BRR sample decoding
// ---------------------------------------------------------------------------

/// Integer division truncated toward zero (Rust's `/` on signed integers),
/// for a positive divisor.
pub open spec fn tdiv(a: int, d: int) -> int {
    if a >= 0 {
        a / d
    } else {
        -((-a) / d)
    }
}

/// The `i`-th 4-bit sample of a BRR block's 8 data bytes, high nybble first.
pub open spec fn brr_nybble(data: Seq<u8>, i: int) -> u8 {
    if i % 2 == 0 {
        data[i / 2] >> 4u8
    } else {
        data[i / 2] & 0x0F
    }
}

/// A 4-bit sample read as a signed number, placed in the top of a byte and
/// shifted right by the block's range.
pub open spec fn brr_scaled(n: u8, range: u8) -> i32 {
    let signed: int = if n < 8 { n as int } else { n as int - 16 };
    ((signed * 16) as i32) >> range
}

/// The BRR prediction filter `filter` applied to a scaled sample, with the
/// two previous outputs.
pub open spec fn brr_filter(sample: i32, p1: i32, p2: i32, filter: u8) -> int {
    if filter == 0 {
        sample as int
    } else if filter == 1 {
        sample + tdiv(p1 * 15, 16)
    } else if filter == 2 {
        sample + tdiv(p1 * 61, 32) - tdiv(p2 * 15, 16)
    } else {
        sample + tdiv(p1 * 115, 64) - tdiv(p2 * 13, 16)
    }
}

/// `v` clamped to the 16-bit signed range.
pub open spec fn clamp16(v: int) -> i32 {
    if v < -32768 {
        -32768i32
    } else if v > 32767 {
        32767i32
    } else {
        v as i32
    }
}

/// The first `n` outputs of decoding a BRR block: each output is the
/// clamped filter result of its scaled sample and the two outputs before it
/// (zero before the block starts).
pub open spec fn brr_outputs(header: u8, data: Seq<u8>, n: nat) -> Seq<i32>
    decreases n,
{
    if n == 0 {
        Seq::empty()
    } else {
        let prev = brr_outputs(header, data, (n - 1) as nat);
        let p1: i32 = if n >= 2 { prev[n - 2] } else { 0 };
        let p2: i32 = if n >= 3 { prev[n - 3] } else { 0 };
        let range = (header >> 4u8) & 0x0F;
        let filter = (header >> 2u8) & 0x03;
        prev.push(clamp16(brr_filter(brr_scaled(brr_nybble(data, n - 1), range), p1, p2, filter)))
    }
}

/// The 16 samples of a decoded BRR block.
pub open spec fn brr_block(header: u8, data: Seq<u8>) -> Seq<i16> {
    brr_outputs(header, data, 16).map_values(|v: i32| v as i16)
}

proof fn lemma_brr_outputs_len(header: u8, data: Seq<u8>, n: nat)
    ensures
        brr_outputs(header, data, n).len() == n,
        forall|i: int|
            0 <= i < n ==> -32768 <= #[trigger] brr_outputs(header, data, n)[i] <= 32767,
    decreases n,
{
    if n > 0 {
        lemma_brr_outputs_len(header, data, (n - 1) as nat);
    }
}

/// Decoding more samples keeps the ones already decoded.
proof fn lemma_brr_outputs_prefix(header: u8, data: Seq<u8>, n: nat, m: nat, k: int)
    requires
        n <= m,
        0 <= k < n,
    ensures
        brr_outputs(header, data, m)[k] == brr_outputs(header, data, n)[k],
    decreases m,
{
    if m > n {
        lemma_brr_outputs_len(header, data, (m - 1) as nat);
        lemma_brr_outputs_prefix(header, data, n, (m - 1) as nat, k);
    }
}

/// Each decoded BRR sample is the block's 4-bit sample (data byte `i / 2`,
/// high nybble first, read as a signed number, times 16, shifted right by
/// the range in header bits 4-7) plus the prediction that header bits 2-3
/// select from the two samples decoded before it (0 before the block
/// starts), divisions rounding toward zero, clamped to 16 bits: filter 0
/// predicts 0, filter 1 p1 * 15/16, filter 2 p1 * 61/32 - p2 * 15/16, filter
/// 3 p1 * 115/64 - p2 * 13/16.
pub proof fn law_brr_sample(header: u8, data: Seq<u8>, i: int)
    requires
        data.len() >= 8,
        0 <= i < 16,
    ensures
        ({
            let out = brr_block(header, data);
            let p1: int = if i >= 1 { out[i - 1] as int } else { 0 };
            let p2: int = if i >= 2 { out[i - 2] as int } else { 0 };
            let byte = data[i / 2];
            let nyb: int = if i % 2 == 0 { (byte / 16) as int } else { (byte % 16) as int };
            let signed: int = if nyb < 8 { nyb } else { nyb - 16 };
            let sample: int = (((signed * 16) as i32) >> (header / 16)) as int;
            let f = (header / 4) % 4;
            let prediction: int = if f == 0 {
                0
            } else if f == 1 {
                tdiv(p1 * 15, 16)
            } else if f == 2 {
                tdiv(p1 * 61, 32) - tdiv(p2 * 15, 16)
            } else {
                tdiv(p1 * 115, 64) - tdiv(p2 * 13, 16)
            };
            let v = sample + prediction;
            out[i] as int == (if v < -32768 {
                -32768
            } else if v > 32767 {
                32767
            } else {
                v
            })
        }),
{
    lemma_brr_outputs_len(header, data, 16);
    lemma_brr_outputs_len(header, data, (i + 1) as nat);
    lemma_brr_outputs_len(header, data, i as nat);
    lemma_brr_outputs_prefix(header, data, (i + 1) as nat, 16, i);
    if i >= 1 {
        lemma_brr_outputs_prefix(header, data, i as nat, 16, i - 1);
    }
    if i >= 2 {
        lemma_brr_outputs_prefix(header, data, i as nat, 16, i - 2);
    }
    let b = data[i / 2];
    assert(b >> 4u8 == b / 16 && b & 0x0F == b % 16 && (header >> 4u8) & 0x0F == header / 16 && (
    header >> 2u8) & 0x03 == (header / 4) % 4) by (bit_vector);
}

/// One decoded BRR output from its 4-bit sample and the two previous outputs.
fn brr_sample(nybble: u8, range: u8, filter: u8, prev1: i32, prev2: i32) -> (s: i32)
    requires
        nybble < 16,
        range < 16,
        filter < 4,
        -32768 <= prev1 <= 32767,
        -32768 <= prev2 <= 32767,
    ensures
        s == clamp16(brr_filter(brr_scaled(nybble, range), prev1, prev2, filter)),
        -32768 <= s <= 32767,
{
    let shifted: i32 = if nybble < 8 {
        nybble as i32 * 16
    } else {
        (nybble as i32 - 16) * 16
    };
    let sample: i32 = shifted >> range;
    assert(-128 <= sample <= 127) by (bit_vector)
        requires
            -128 <= shifted <= 127,
            range < 16,
            sample == shifted >> range,
    ;
    assert(sample == brr_scaled(nybble, range));
    let filtered: i32 = if filter == 0 {
        sample
    } else if filter == 1 {
        sample + (prev1 * 15 / 16)
    } else if filter == 2 {
        sample + (prev1 * 61 / 32) - (prev2 * 15 / 16)
    } else {
        sample + (prev1 * 115 / 64) - (prev2 * 13 / 16)
    };
    if filtered < -32768 {
        -32768
    } else if filtered > 32767 {
        32767
    } else {
        filtered
    }
}

/// The `i`-th 4-bit sample of a block's data bytes.
fn brr_nybble_at(data: &[u8], i: usize) -> (n: u8)
    requires
        i < 16,
        data@.len() >= 8,
    ensures
        n == brr_nybble(data@, i as int),
        n < 16,
{
    let byte = data[i / 2];
    let n = if i % 2 == 0 {
        byte >> 4u8
    } else {
        byte & 0x0F
    };
    assert(n < 16) by (bit_vector)
        requires
            n == byte >> 4u8 || n == byte & 0x0F,
    ;
    n
}

/// Decodes one 9-byte BRR block (header byte, then 8 data bytes) into 16
/// samples.
pub fn decode_brr_block(header: u8, data: &[u8]) -> (out: [i16; 16])
    requires
        data@.len() >= 8,
    ensures
        out@ == brr_block(header, data@),
{
    let range = (header >> 4u8) & 0x0F;
    let filter = (header >> 2u8) & 0x03;
    let mut output = [0i16; 16];
    let mut prev1: i32 = 0;
    let mut prev2: i32 = 0;
    let mut i: usize = 0;
    assert(range < 16 && filter < 4) by (bit_vector)
        requires
            range == (header >> 4u8) & 0x0F,
            filter == (header >> 2u8) & 0x03,
    ;
    while i < 16
        invariant
            0 <= i <= 16,
            data@.len() >= 8,
            range == (header >> 4u8) & 0x0F,
            filter == (header >> 2u8) & 0x03,
            range < 16,
            filter < 4,
            output@.len() == 16,
            brr_outputs(header, data@, i as nat).len() == i,
            forall|j: int|
                0 <= j < i ==> output@[j] == (brr_outputs(header, data@, i as nat)[j] as i16),
            prev1 == (if i >= 1 { brr_outputs(header, data@, i as nat)[i - 1] } else { 0i32 }),
            prev2 == (if i >= 2 { brr_outputs(header, data@, i as nat)[i - 2] } else { 0i32 }),
            -32768 <= prev1 <= 32767,
            -32768 <= prev2 <= 32767,
        decreases 16 - i,
    {
        let ghost before = brr_outputs(header, data@, i as nat);
        let nybble = brr_nybble_at(data, i);
        let sample = brr_sample(nybble, range, filter, prev1, prev2);
        output[i] = sample as i16;
        prev2 = prev1;
        prev1 = sample;
        i = i + 1;
        proof {
            let after = brr_outputs(header, data@, i as nat);
            assert(after == before.push(sample));
        }
    }
    proof {
        assert(output@ =~= brr_block(header, data@));
    }
    output
}

// ---------------------------------------------------------------------------
// DSP voices
// ---------------------------------------------------------------------------

/// One of the eight DSP voices: its parameters and its position in the BRR
/// sample stream. The envelope level and pitch phase are floating-point state
/// that the host's mixer keeps; `restarted` tells the mixer that the voice
/// was created or restarted by a key-on since it last looked, so that the
/// mixer starts that state afresh.
#[derive(Clone, Copy)]
pub struct Voice {
    volume_l: i16,
    volume_r: i16,
    pitch: u16,
    srcn: u8,
    adsr1: u8,
    adsr2: u8,
    gain: u8,
    brr_addr: u16,
    brr_offset: usize,
    decoded: [i16; 16],
    decoded_index: usize,
    active: bool,
    pitch_mod: bool,
    restarted: bool,
}

/// A voice as the contracts see it.
pub struct VoiceView {
    pub volume_l: i16,
    pub volume_r: i16,
    pub pitch: u16,
    pub srcn: u8,
    pub adsr1: u8,
    pub adsr2: u8,
    pub gain: u8,
    pub brr_addr: u16,
    pub brr_offset: usize,
    pub decoded: Seq<i16>,
    pub decoded_index: usize,
    pub active: bool,
    pub pitch_mod: bool,
    pub restarted: bool,
}

impl View for Voice {
    type V = VoiceView;

    closed spec fn view(&self) -> VoiceView {
        VoiceView {
            volume_l: self.volume_l,
            volume_r: self.volume_r,
            pitch: self.pitch,
            srcn: self.srcn,
            adsr1: self.adsr1,
            adsr2: self.adsr2,
            gain: self.gain,
            brr_addr: self.brr_addr,
            brr_offset: self.brr_offset,
            decoded: self.decoded@,
            decoded_index: self.decoded_index,
            active: self.active,
            pitch_mod: self.pitch_mod,
            restarted: self.restarted,
        }
    }
}

/// A silent, inactive voice whose buffer is used up.
pub open spec fn voice_init() -> VoiceView {
    VoiceView {
        volume_l: 0,
        volume_r: 0,
        pitch: 0,
        srcn: 0,
        adsr1: 0,
        adsr2: 0,
        gain: 0,
        brr_addr: 0,
        brr_offset: 0,
        decoded: Seq::new(16, |i: int| 0i16),
        decoded_index: 16,
        active: false,
        pitch_mod: false,
        restarted: true,
    }
}

/// Bounds that a voice keeps: its stream offset stays within the audio
/// RAM and its buffer position within the 16 samples (16 = used up).
pub open spec fn voice_wf(v: VoiceView) -> bool {
    &&& v.brr_offset <= 0x10000
    &&& v.decoded_index <= 16
    &&& v.decoded.len() == 16
}

/// Decoding the next BRR block: where the 9-byte block at the stream
/// position does not fit in RAM the voice stops; otherwise its samples
/// replace the buffer, the position moves on by 9, and a set end flag
/// (header bit 0) stops the voice.
pub open spec fn voice_decode_next(v: VoiceView, ram: Seq<u8>) -> VoiceView {
    let addr = v.brr_addr as int + v.brr_offset as int;
    if addr + 9 > ram.len() {
        VoiceView { active: false, ..v }
    } else {
        let header = ram[addr];
        VoiceView {
            decoded: brr_block(header, ram.subrange(addr + 1, addr + 9)),
            brr_offset: (v.brr_offset + 9) as usize,
            active: if header & 0x01 != 0 { false } else { v.active },
            ..v
        }
    }
}

/// Key-on: the voice restarts at `start` and decodes its first block.
pub open spec fn voice_trigger(v: VoiceView, start: u16, ram: Seq<u8>) -> VoiceView {
    voice_decode_next(
        VoiceView {
            active: true,
            brr_addr: start,
            brr_offset: 0,
            decoded_index: 16,
            restarted: true,
            ..v
        },
        ram,
    )
}

/// Moving to the next sample: past the end of the buffer the next block is
/// decoded and the position starts again at 0.
pub open spec fn voice_advance(v: VoiceView, ram: Seq<u8>) -> VoiceView {
    let next = (v.decoded_index + 1) as usize;
    if next >= 16 {
        VoiceView { decoded_index: 0, ..voice_decode_next(v, ram) }
    } else {
        VoiceView { decoded_index: next, ..v }
    }
}

/// The sample at the buffer position, 0 once the buffer is used up.
pub open spec fn voice_sample(v: VoiceView) -> i16 {
    if v.decoded_index < 16 {
        v.decoded[v.decoded_index as int]
    } else {
        0
    }
}

impl Voice {
    #[verifier::type_invariant]
    spec fn inv(&self) -> bool {
        voice_wf(self@)
    }

    /// A silent, inactive voice.
    pub fn new() -> (v: Self)
        ensures
            v@ == voice_init(),
    {
        let v = Self {
            volume_l: 0,
            volume_r: 0,
            pitch: 0,
            srcn: 0,
            adsr1: 0,
            adsr2: 0,
            gain: 0,
            brr_addr: 0,
            brr_offset: 0,
            decoded: [0i16; 16],
            decoded_index: 16,
            active: false,
            pitch_mod: false,
            restarted: true,
        };
        assert(v@.decoded =~= voice_init().decoded);
        v
    }

    /// Key-on at `start_addr`.
    pub fn trigger(&mut self, start_addr: u16, ram: &[u8])
        requires
            ram@.len() <= AUDIO_RAM_SIZE,
        ensures
            final(self)@ == voice_trigger(old(self)@, start_addr, ram@),
            voice_wf(final(self)@),
    {
        proof {
            use_type_invariant(&*self);
        }
        self.active = true;
        self.brr_addr = start_addr;
        self.brr_offset = 0;
        self.decoded_index = 16;
        self.restarted = true;
        self.decode_next_block(ram);
    }

    /// Decodes the next BRR block of the voice's stream.
    pub fn decode_next_block(&mut self, ram: &[u8])
        requires
            ram@.len() <= AUDIO_RAM_SIZE,
        ensures
            final(self)@ == voice_decode_next(old(self)@, ram@),
            voice_wf(final(self)@),
    {
        proof {
            use_type_invariant(&*self);
        }
        let addr = self.brr_addr as usize + self.brr_offset;
        if addr + 9 > ram.len() {
            self.active = false;
            return;
        }
        let header = ram[addr];
        let data = vstd::slice::slice_subrange(ram, addr + 1, addr + 9);
        self.decoded = decode_brr_block(header, data);
        self.brr_offset = self.brr_offset + 9;
        if (header & 0x01) != 0 {
            self.active = false;
        }
    }

    /// Moves to the next sample of the stream.
    pub fn advance(&mut self, ram: &[u8])
        requires
            ram@.len() <= AUDIO_RAM_SIZE,
        ensures
            final(self)@ == voice_advance(old(self)@, ram@),
            voice_wf(final(self)@),
    {
        proof {
            use_type_invariant(&*self);
        }
        let next = self.decoded_index + 1;
        if next >= 16 {
            self.decode_next_block(ram);
            self.decoded_index = 0;
        } else {
            self.decoded_index = next;
        }
    }

    /// The sample at the buffer position, 0 once the buffer is used up.
    pub fn current_sample(&self) -> (s: i16)
        ensures
            s == voice_sample(self@),
    {
        proof {
            use_type_invariant(self);
        }
        if self.decoded_index < 16 {
            self.decoded[self.decoded_index]
        } else {
            0
        }
    }

    /// Left volume.
    pub fn volume_l(&self) -> (r: i16)
        ensures
            r == self@.volume_l,
    {
        self.volume_l
    }

    /// Right volume.
    pub fn volume_r(&self) -> (r: i16)
        ensures
            r == self@.volume_r,
    {
        self.volume_r
    }

    /// Pitch (4096 = one sample per output sample).
    pub fn pitch(&self) -> (r: u16)
        ensures
            r == self@.pitch,
    {
        self.pitch
    }

    /// ADSR register 1.
    pub fn adsr1(&self) -> (r: u8)
        ensures
            r == self@.adsr1,
    {
        self.adsr1
    }

    /// ADSR register 2.
    pub fn adsr2(&self) -> (r: u8)
        ensures
            r == self@.adsr2,
    {
        self.adsr2
    }

    /// GAIN register.
    pub fn gain(&self) -> (r: u8)
        ensures
            r == self@.gain,
    {
        self.gain
    }

    /// Whether the voice is playing.
    pub fn is_active(&self) -> (r: bool)
        ensures
            r == self@.active,
    {
        self.active
    }

    /// Whether pitch modulation by the previous voice is on.
    pub fn pitch_mod(&self) -> (r: bool)
        ensures
            r == self@.pitch_mod,
    {
        self.pitch_mod
    }

    /// Turns pitch modulation by the previous voice on or off.
    pub fn set_pitch_mod(&mut self, on: bool)
        ensures
            final(self)@ == (VoiceView { pitch_mod: on, ..old(self)@ }),
    {
        proof {
            use_type_invariant(&*self);
        }
        self.pitch_mod = on;
    }

    /// Reports whether the voice was created or restarted by a key-on since
    /// the last call, and clears that report.
    pub fn take_restart(&mut self) -> (r: bool)
        ensures
            r == old(self)@.restarted,
            final(self)@ == (VoiceView { restarted: false, ..old(self)@ }),
    {
        proof {
            use_type_invariant(&*self);
        }
        let r = self.restarted;
        self.restarted = false;
        r
    }
}

// ---------------------------------------------------------------------------
// DSP register file
// ---------------------------------------------------------------------------

/// The S-DSP: 128 registers and the eight voices they drive.
pub struct Dsp {
    pub registers: [u8; 128],
    pub voices: [Voice; 8],
}

/// The DSP as the contracts see it.
pub struct DspView {
    pub registers: Seq<u8>,
    pub voices: Seq<VoiceView>,
}

impl View for Dsp {
    type V = DspView;

    open spec fn view(&self) -> DspView {
        DspView { registers: self.registers@, voices: self.voices@.map_values(|v: Voice| v@) }
    }
}

/// A powered-up DSP: registers clear, voices silent.
pub open spec fn dsp_init() -> DspView {
    DspView { registers: Seq::new(128, |i: int| 0u8), voices: Seq::new(8, |i: int| voice_init()) }
}

/// Bit `i` of `mask` is set.
pub open spec fn bit_set(mask: u8, i: int) -> bool {
    (mask >> (i as u8)) & 1 == 1
}

/// A voice after a write of `value` to parameter register `reg` (0-15) of
/// its register block: $x0/$x1 volumes, $x2/$x3 pitch low/high byte, $x4
/// source number, $x5/$x6 ADSR, $x7 GAIN; other registers leave it as it is.
pub open spec fn voice_param_write(v: VoiceView, reg: int, value: u8) -> VoiceView {
    if reg == 0 {
        VoiceView { volume_l: value as i16, ..v }
    } else if reg == 1 {
        VoiceView { volume_r: value as i16, ..v }
    } else if reg == 2 {
        VoiceView { pitch: ((v.pitch & 0xFF00) | (value as u16)), ..v }
    } else if reg == 3 {
        VoiceView { pitch: ((v.pitch & 0x00FF) | ((value as u16) << 8u16)), ..v }
    } else if reg == 4 {
        VoiceView { srcn: value, ..v }
    } else if reg == 5 {
        VoiceView { adsr1: value, ..v }
    } else if reg == 6 {
        VoiceView { adsr2: value, ..v }
    } else if reg == 7 {
        VoiceView { gain: value, ..v }
    } else {
        v
    }
}

/// KON: every voice whose bit is set restarts at its source number × 256.
pub open spec fn dsp_key_on(voices: Seq<VoiceView>, mask: u8, ram: Seq<u8>) -> Seq<VoiceView> {
    Seq::new(
        voices.len(),
        |i: int|
            if bit_set(mask, i) {
                voice_trigger(voices[i], ((voices[i].srcn as u16) << 8u16), ram)
            } else {
                voices[i]
            },
    )
}

/// KOF: every voice whose bit is set stops.
pub open spec fn dsp_key_off(voices: Seq<VoiceView>, mask: u8) -> Seq<VoiceView> {
    Seq::new(
        voices.len(),
        |i: int|
            if bit_set(mask, i) {
                VoiceView { active: false, ..voices[i] }
            } else {
                voices[i]
            },
    )
}

/// A write of `value` to DSP register `addr` (modulo 128): the register
/// takes the value, the voice whose block it lies in takes the parameter,
/// and $4C (KON) and $5C (KOF) start or stop voices.
pub open spec fn dsp_write(d: DspView, addr: u8, value: u8, ram: Seq<u8>) -> DspView {
    let index = (addr % 128) as int;
    let vi = (index / 16) % 8;
    let voices = d.voices.update(vi, voice_param_write(d.voices[vi], index % 16, value));
    let voices = if index == 0x4C {
        dsp_key_on(voices, value, ram)
    } else if index == 0x5C {
        dsp_key_off(voices, value)
    } else {
        voices
    };
    DspView { registers: d.registers.update(index, value), voices }
}

impl Dsp {
    /// Registers clear, voices silent.
    pub fn new() -> (d: Self)
        ensures
            d@ == dsp_init(),
    {
        let v = Voice::new();
        let d = Self { registers: [0u8; 128], voices: [v, v, v, v, v, v, v, v] };
        assert(d@.registers =~= dsp_init().registers);
        assert(d@.voices =~= dsp_init().voices);
        d
    }

    /// Back to the power-up state.
    pub fn reset(&mut self)
        ensures
            final(self)@ == dsp_init(),
    {
        *self = Dsp::new();
    }

    /// The value of register `addr` (modulo 128).
    pub fn read_register(&self, addr: u8) -> (v: u8)
        ensures
            v == self@.registers[(addr % 128) as int],
    {
        self.registers[(addr as usize) % DSP_REGISTER_SPACE]
    }

    /// Writes register `addr` (modulo 128); see `dsp_write`.
    pub fn write_register(&mut self, addr: u8, value: u8, ram: &[u8])
        requires
            ram@.len() <= AUDIO_RAM_SIZE,
        ensures
            final(self)@ == dsp_write(old(self)@, addr, value, ram@),
    {
        let index = (addr as usize) % DSP_REGISTER_SPACE;
        self.registers[index] = value;
        let voice_index = (index / 0x10) % 8;
        let ghost cur = self@.voices;
        let mut v = self.voices[voice_index];
        proof {
            use_type_invariant(&v);
        }
        assert(v@ == cur[voice_index as int]);
        let reg = index % 0x10;
        if reg == 0x0 {
            v.volume_l = value as i16;
        } else if reg == 0x1 {
            v.volume_r = value as i16;
        } else if reg == 0x2 {
            v.pitch = (v.pitch & 0xFF00) | value as u16;
        } else if reg == 0x3 {
            v.pitch = (v.pitch & 0x00FF) | ((value as u16) << 8u16);
        } else if reg == 0x4 {
            v.srcn = value;
        } else if reg == 0x5 {
            v.adsr1 = value;
        } else if reg == 0x6 {
            v.adsr2 = value;
        } else if reg == 0x7 {
            v.gain = value;
        }
        self.voices[voice_index] = v;
        proof {
            assert(self@.voices =~= old(self)@.voices.update(
                voice_index as int,
                voice_param_write(old(self)@.voices[voice_index as int], reg as int, value),
            ));
        }
        if index == 0x4C {
            self.handle_key_on(value, ram);
        } else if index == 0x5C {
            self.handle_key_off(value);
        }
    }

    fn handle_key_on(&mut self, mask: u8, ram: &[u8])
        requires
            ram@.len() <= AUDIO_RAM_SIZE,
        ensures
            final(self)@ == (DspView {
                voices: dsp_key_on(old(self)@.voices, mask, ram@),
                ..old(self)@
            }),
    {
        let ghost before = self@.voices;
        let mut i: usize = 0;
        while i < 8
            invariant
                0 <= i <= 8,
                ram@.len() <= AUDIO_RAM_SIZE,
                before.len() == 8,
                self@.registers == old(self)@.registers,
                self@.voices.len() == 8,
                forall|j: int|
                    0 <= j < i ==> #[trigger] self@.voices[j] == dsp_key_on(before, mask, ram@)[j],
                forall|j: int| i <= j < 8 ==> #[trigger] self@.voices[j] == before[j],
            decreases 8 - i,
        {
            let ghost cur = self@.voices;
            if (mask >> (i as u8)) & 1 == 1 {
                let mut v = self.voices[i];
                assert(v@ == cur[i as int]);
                let start_addr = (v.srcn as u16) << 8u16;
                v.trigger(start_addr, ram);
                self.voices[i] = v;
                assert(self@.voices =~= cur.update(i as int, v@));
            }
            i = i + 1;
        }
        proof {
            assert(self@.voices =~= dsp_key_on(before, mask, ram@));
        }
    }

    fn handle_key_off(&mut self, mask: u8)
        ensures
            final(self)@ == (DspView {
                voices: dsp_key_off(old(self)@.voices, mask),
                ..old(self)@
            }),
    {
        let ghost before = self@.voices;
        let mut i: usize = 0;
        while i < 8
            invariant
                0 <= i <= 8,
                before.len() == 8,
                self@.registers == old(self)@.registers,
                self@.voices.len() == 8,
                forall|j: int|
                    0 <= j < i ==> #[trigger] self@.voices[j] == dsp_key_off(before, mask)[j],
                forall|j: int| i <= j < 8 ==> #[trigger] self@.voices[j] == before[j],
            decreases 8 - i,
        {
            let ghost cur = self@.voices;
            if (mask >> (i as u8)) & 1 == 1 {
                let mut v = self.voices[i];
                proof {
                    use_type_invariant(&v);
                }
                assert(v@ == cur[i as int]);
                v.active = false;
                self.voices[i] = v;
                assert(self@.voices =~= cur.update(i as int, v@));
            }
            i = i + 1;
        }
        proof {
            assert(self@.voices =~= dsp_key_off(before, mask));
        }
    }
}

// ---------------------------------------------------------------------------
// The APU as a whole
// ---------------------------------------------------------------------------

/// The APU: SPC700 core, audio RAM, DSP, and the four I/O ports in each
/// direction between the main CPU and the SPC700.
pub struct Apu {
    pub spc: Spc700,
    pub ram: [u8; 0x10000],
    pub dsp: Dsp,
    pub dsp_addr: u8,
    pub cpu_ports: [u8; 4],
    pub spc_ports: [u8; 4],
}

/// The APU as the contracts see it.
pub struct ApuView {
    pub spc: Spc700,
    pub ram: Seq<u8>,
    pub dsp: DspView,
    pub dsp_addr: u8,
    pub cpu_ports: Seq<u8>,
    pub spc_ports: Seq<u8>,
}

impl View for Apu {
    type V = ApuView;

    open spec fn view(&self) -> ApuView {
        ApuView {
            spc: self.spc,
            ram: self.ram@,
            dsp: self.dsp@,
            dsp_addr: self.dsp_addr,
            cpu_ports: self.cpu_ports@,
            spc_ports: self.spc_ports@,
        }
    }
}

/// The powered-up APU: core in its power-on state, RAM, DSP and ports clear.
pub open spec fn apu_init(spc: Spc700) -> ApuView {
    ApuView {
        spc,
        ram: Seq::new(0x10000, |i: int| 0u8),
        dsp: dsp_init(),
        dsp_addr: 0,
        cpu_ports: seq![0u8, 0u8, 0u8, 0u8],
        spc_ports: seq![0u8, 0u8, 0u8, 0u8],
    }
}

/// What an SPC700 read of `addr` gives: $F2 the DSP address, $F3 the DSP
/// register it selects, $F4-$F7 the ports written by the main CPU, anything
/// else audio RAM.
pub open spec fn apu_peek(v: ApuView, addr: u16) -> u8 {
    if addr == 0xF2 {
        v.dsp_addr
    } else if addr == 0xF3 {
        v.dsp.registers[(v.dsp_addr % 128) as int]
    } else if 0xF4 <= addr <= 0xF7 {
        v.cpu_ports[addr - 0xF4]
    } else {
        v.ram[addr as int]
    }
}

/// What an SPC700 write of `value` to `addr` does: $F2 selects a DSP
/// register (7 bits), $F3 writes it, $F4-$F7 fill the ports read by the main
/// CPU, anything else goes to audio RAM.
pub open spec fn apu_poke(v: ApuView, addr: u16, value: u8) -> ApuView {
    if addr == 0xF2 {
        ApuView { dsp_addr: value & 0x7F, ..v }
    } else if addr == 0xF3 {
        ApuView { dsp: dsp_write(v.dsp, v.dsp_addr, value, v.ram), ..v }
    } else if 0xF4 <= addr <= 0xF7 {
        ApuView { spc_ports: v.spc_ports.update(addr - 0xF4, value), ..v }
    } else {
        ApuView { ram: v.ram.update(addr as int, value), ..v }
    }
}

/// One SPC700 instruction run against the APU's own bus.
pub open spec fn apu_spc_step(v: ApuView) -> ApuView {
    let out = spc_next_with(v.spc, |a: u16| apu_peek(v, a));
    let after = match out.write {
        Some((addr, value)) => apu_poke(v, addr, value),
        None => v,
    };
    ApuView { spc: out.spc, ..after }
}

/// `n` SPC700 instructions run against the APU's own bus.
pub open spec fn apu_run(v: ApuView, n: nat) -> ApuView
    decreases n,
{
    if n == 0 {
        v
    } else {
        apu_spc_step(apu_run(v, (n - 1) as nat))
    }
}

/// A byte the SPC700 writes to audio RAM (anywhere but $F2-$F7) reads back.
pub proof fn law_apu_ram_write_read(v: ApuView, addr: u16, value: u8)
    requires
        v.ram.len() == 0x10000,
        !(0xF2 <= addr <= 0xF7),
    ensures
        apu_peek(apu_poke(v, addr, value), addr) == value,
{
}

/// A DSP register the SPC700 writes through $F2/$F3 reads back the same
/// way.
pub proof fn law_dsp_register_write_read(v: ApuView, reg: u8, value: u8)
    requires
        v.dsp.registers.len() == 128,
        v.dsp.voices.len() == 8,
    ensures
        ({
            let v1 = apu_poke(apu_poke(v, 0xF2, reg), 0xF3, value);
            apu_peek(v1, 0xF3) == value && apu_peek(v1, 0xF2) == reg & 0x7F
        }),
{
    assert((reg & 0x7F) % 128 == reg & 0x7F) by (bit_vector);
}

proof fn lemma_mask_bits(mask: u8)
    by (bit_vector)
    ensures
        ((mask >> 0u8) & 1 == 1) == (mask & 0x01 != 0),
        ((mask >> 1u8) & 1 == 1) == (mask & 0x02 != 0),
        ((mask >> 2u8) & 1 == 1) == (mask & 0x04 != 0),
        ((mask >> 3u8) & 1 == 1) == (mask & 0x08 != 0),
        ((mask >> 4u8) & 1 == 1) == (mask & 0x10 != 0),
        ((mask >> 5u8) & 1 == 1) == (mask & 0x20 != 0),
        ((mask >> 6u8) & 1 == 1) == (mask & 0x40 != 0),
        ((mask >> 7u8) & 1 == 1) == (mask & 0x80 != 0),
{
}

/// The bit of a KON/KOF mask that names voice `i`: bit `i`.
pub open spec fn voice_bit(i: int) -> u8 {
    if i == 0 {
        0x01
    } else if i == 1 {
        0x02
    } else if i == 2 {
        0x04
    } else if i == 3 {
        0x08
    } else if i == 4 {
        0x10
    } else if i == 5 {
        0x20
    } else if i == 6 {
        0x40
    } else {
        0x80
    }
}

/// KON ($4C) restarts exactly the voices whose bits are set, voice `i` at
/// bit `i`, each at its source number times 256 and marked restarted; KOF
/// ($5C) stops exactly those voices; the other voices stay as they were,
/// and the register keeps the mask.
pub proof fn law_dsp_key_on_off(d: DspView, mask: u8, ram: Seq<u8>, i: int)
    requires
        d.voices.len() == 8,
        d.registers.len() == 128,
        0 <= i < 8,
    ensures
        ({
            let on = dsp_write(d, 0x4C, mask, ram);
            let off = dsp_write(d, 0x5C, mask, ram);
            &&& on.registers[0x4C] == mask && off.registers[0x5C] == mask
            &&& mask & voice_bit(i) != 0 ==> on.voices[i].brr_addr as int == d.voices[i].srcn as int
                * 256 && on.voices[i].restarted
            &&& mask & voice_bit(i) == 0 ==> on.voices[i] == d.voices[i]
            &&& mask & voice_bit(i) != 0 ==> !off.voices[i].active
            &&& mask & voice_bit(i) == 0 ==> off.voices[i] == d.voices[i]
        }),
{
    lemma_mask_bits(mask);
    let srcn = d.voices[i].srcn;
    assert(((srcn as u16) << 8u16) as int == srcn as int * 256) by (bit_vector);
    assert(voice_param_write(d.voices[4], 12, mask) == d.voices[4]);
    assert(voice_param_write(d.voices[5], 12, mask) == d.voices[5]);
    assert(d.voices.update(4, d.voices[4]) =~= d.voices);
    assert(d.voices.update(5, d.voices[5]) =~= d.voices);
    assert(i as u8 == i);
}

/// The first eight registers of voice `k`'s block ($k0-$k7) set its left
/// and right volume, the low and high byte of its pitch, its source
/// number, its two ADSR bytes and its GAIN; no other voice changes.
pub proof fn law_dsp_voice_parameters(d: DspView, k: int, p: int, value: u8, ram: Seq<u8>)
    requires
        d.voices.len() == 8,
        d.registers.len() == 128,
        0 <= k < 8,
        0 <= p < 8,
    ensures
        ({
            let w = dsp_write(d, (16 * k + p) as u8, value, ram);
            let old = d.voices[k];
            let new = w.voices[k];
            &&& p == 0 ==> new == VoiceView { volume_l: value as i16, ..old }
            &&& p == 1 ==> new == VoiceView { volume_r: value as i16, ..old }
            &&& p == 2 ==> new.pitch as int == (old.pitch as int / 256) * 256 + value as int
            &&& p == 3 ==> new.pitch as int == value as int * 256 + old.pitch as int % 256
            &&& p == 4 ==> new == VoiceView { srcn: value, ..old }
            &&& p == 5 ==> new == VoiceView { adsr1: value, ..old }
            &&& p == 6 ==> new == VoiceView { adsr2: value, ..old }
            &&& p == 7 ==> new == VoiceView { gain: value, ..old }
            &&& forall|j: int| 0 <= j < 8 && j != k ==> #[trigger] w.voices[j] == d.voices[j]
            &&& w.registers[16 * k + p] == value
        }),
{
    let pitch = d.voices[k].pitch;
    assert(((pitch & 0xFF00) | (value as u16)) as int == (pitch as int / 256) * 256 + value as int
        && ((pitch & 0x00FF) | ((value as u16) << 8u16)) as int == value as int * 256 + pitch as int
        % 256) by (bit_vector);
    assert(((16 * k + p) as u8) % 128 == 16 * k + p);
}

impl SpcBus for Apu {
    open spec fn peek(&self, addr: u16) -> u8 {
        apu_peek(self@, addr)
    }

    open spec fn poked(&self, addr: u16, value: u8, after: Self) -> bool {
        after@ == apu_poke(self@, addr, value)
    }

    fn read8(&mut self, addr: u16) -> (v: u8) {
        if addr == 0xF2 {
            self.dsp_addr
        } else if addr == 0xF3 {
            self.dsp.read_register(self.dsp_addr)
        } else if addr >= 0xF4 && addr <= 0xF7 {
            self.cpu_ports[(addr - 0xF4) as usize]
        } else {
            self.ram[addr as usize]
        }
    }

    fn write8(&mut self, addr: u16, value: u8) {
        if addr == 0xF2 {
            self.dsp_addr = value & 0x7F;
        } else if addr == 0xF3 {
            self.dsp.write_register(self.dsp_addr, value, self.ram.as_slice());
        } else if addr >= 0xF4 && addr <= 0xF7 {
            self.spc_ports[(addr - 0xF4) as usize] = value;
        } else {
            self.ram[addr as usize] = value;
        }
    }
}

impl Apu {
    /// The view of a powered-up APU.
    pub open spec fn new_view() -> ApuView {
        apu_init(Spc700 { a: 0, x: 0, y: 0, psw: psw_clear(), sp: 0xFF, pc: 0, cycles: 0 })
    }

    /// A powered-up APU.
    pub fn new() -> (apu: Self)
        ensures
            apu@ == Self::new_view(),
    {
        let apu = Self {
            spc: Spc700::new(),
            ram: [0u8; 0x10000],
            dsp: Dsp::new(),
            dsp_addr: 0,
            cpu_ports: [0u8; 4],
            spc_ports: [0u8; 4],
        };
        assert(apu@.ram =~= Seq::new(0x10000, |i: int| 0u8));
        assert(apu@.cpu_ports =~= seq![0u8, 0u8, 0u8, 0u8]);
        assert(apu@.spc_ports =~= seq![0u8, 0u8, 0u8, 0u8]);
        apu
    }

    /// Resets the core (PC at $FFC0) and clears RAM, DSP and ports.
    pub fn reset(&mut self)
        ensures
            final(self)@ == apu_init(
                Spc700 { a: 0, x: 0, y: 0, psw: psw_clear(), sp: 0xFF, pc: 0xFFC0, cycles: 0 },
            ),
    {
        self.spc.reset();
        self.ram = [0u8; 0x10000];
        self.dsp.reset();
        self.cpu_ports = [0u8; 4];
        self.spc_ports = [0u8; 4];
        self.dsp_addr = 0;
        assert(self@.ram =~= Seq::new(0x10000, |i: int| 0u8));
        assert(self@.cpu_ports =~= seq![0u8, 0u8, 0u8, 0u8]);
        assert(self@.spc_ports =~= seq![0u8, 0u8, 0u8, 0u8]);
    }

    /// Runs `cycles` SPC700 instructions (one per count, whatever their
    /// cycle cost).
    pub fn step_spc(&mut self, cycles: u32)
        ensures
            final(self)@ == apu_run(old(self)@, cycles as nat),
    {
        let mut n: u32 = 0;
        while n < cycles
            invariant
                n <= cycles,
                self@ == apu_run(old(self)@, n as nat),
            decreases cycles - n,
        {
            let ghost v0 = self@;
            let mut spc = self.spc;
            proof {
                assert((|a: u16| self.peek(a)) =~= (|a: u16| apu_peek(v0, a)));
            }
            let _ = spc.step(self);
            self.spc = spc;
            n = n + 1;
        }
    }

    /// The main CPU writes port $2140-$2143 (selected by the low two bits).
    pub fn cpu_write_port(&mut self, addr: u16, value: u8)
        ensures
            final(self)@ == (ApuView {
                cpu_ports: old(self)@.cpu_ports.update((addr & 3) as int, value),
                ..old(self)@
            }),
    {
        let index = (addr & 0x3) as usize;
        proof {
            lemma_field_bounds(0, 0, addr);
        }
        self.cpu_ports[index] = value;
    }

    /// The main CPU reads port $2140-$2143: what the SPC700 wrote there.
    pub fn cpu_read_port(&self, addr: u16) -> (v: u8)
        ensures
            v == self@.spc_ports[(addr & 3) as int],
    {
        let index = (addr & 0x3) as usize;
        proof {
            lemma_field_bounds(0, 0, addr);
        }
        self.spc_ports[index]
    }
}

} // verus!
