//! The 65816 main CPU.
//!
//! The 65816 is the 16-bit extension of the 6502: an accumulator and two
//! index registers that are 8 or 16 bits wide by the M and X flags, a 16-bit
//! stack pointer and direct page register, and program and data bank
//! registers that extend addresses to 24 bits. It starts in emulation mode
//! (6502 compatible) and switches to native mode with XCE.
//!
//! Each instruction is decoded into an `Instr` and executed against the
//! memory system; `cpu_exec` states what every instruction does.
use vstd::prelude::*;
use crate::bits::{add16, sub16, add64, sign_extend8, make_word, wadd16, wsub16, wadd64, sext8, word};
use crate::memory::{Memory, MemView, mem_read, mem_write, mem_read_word, mem_write_word, long_addr};

verus! {

// ---------------------------------------------------------------------------
// Registers
// ---------------------------------------------------------------------------

/// Processor status flags.
#[derive(Debug, Clone, Copy)]
pub struct StatusFlags {
    /// Negative.
    pub n: bool,
    /// Overflow.
    pub v: bool,
    /// Accumulator is 8 bits wide (native mode).
    pub m: bool,
    /// Index registers are 8 bits wide (native mode).
    pub x: bool,
    /// Decimal mode.
    pub d: bool,
    /// IRQ disable.
    pub i: bool,
    /// Zero.
    pub z: bool,
    /// Carry.
    pub c: bool,
    /// Emulation mode.
    pub e: bool,
}

/// The flags at power-on: 8-bit registers, IRQs disabled, emulation mode.
pub open spec fn flags_init() -> StatusFlags {
    StatusFlags { n: false, v: false, m: true, x: true, d: false, i: true, z: false, c: false, e: true }
}

/// The status byte: N V M X D I Z C from bit 7 down (E is not in it).
pub open spec fn flags_byte(p: StatusFlags) -> u8 {
    (if p.n { 0x80u8 } else { 0u8 }) | (if p.v { 0x40u8 } else { 0u8 }) | (if p.m {
        0x20u8
    } else {
        0u8
    }) | (if p.x { 0x10u8 } else { 0u8 }) | (if p.d { 0x08u8 } else { 0u8 }) | (if p.i {
        0x04u8
    } else {
        0u8
    }) | (if p.z { 0x02u8 } else { 0u8 }) | (if p.c { 0x01u8 } else { 0u8 })
}

/// The flags after loading a status byte; E stays as it was.
pub open spec fn flags_from_byte(p: StatusFlags, value: u8) -> StatusFlags {
    StatusFlags {
        n: value & 0x80 != 0,
        v: value & 0x40 != 0,
        m: value & 0x20 != 0,
        x: value & 0x10 != 0,
        d: value & 0x08 != 0,
        i: value & 0x04 != 0,
        z: value & 0x02 != 0,
        c: value & 0x01 != 0,
        e: p.e,
    }
}

impl StatusFlags {
    /// The power-on flags.
    pub fn new() -> (p: Self)
        ensures
            p == flags_init(),
    {
        StatusFlags { n: false, v: false, m: true, x: true, d: false, i: true, z: false, c: false, e: true }
    }

    /// Packs the flags into the status byte.
    pub fn to_byte(&self) -> (b: u8)
        ensures
            b == flags_byte(*self),
    {
        (if self.n { 0x80u8 } else { 0u8 }) | (if self.v { 0x40u8 } else { 0u8 }) | (if self.m {
            0x20u8
        } else {
            0u8
        }) | (if self.x { 0x10u8 } else { 0u8 }) | (if self.d { 0x08u8 } else { 0u8 }) | (
        if self.i {
            0x04u8
        } else {
            0u8
        }) | (if self.z { 0x02u8 } else { 0u8 }) | (if self.c { 0x01u8 } else { 0u8 })
    }

    /// Loads the flags from a status byte; E is not in it and stays.
    pub fn from_byte(&mut self, value: u8)
        ensures
            *final(self) == flags_from_byte(*old(self), value),
    {
        self.n = (value & 0x80) != 0;
        self.v = (value & 0x40) != 0;
        self.m = (value & 0x20) != 0;
        self.x = (value & 0x10) != 0;
        self.d = (value & 0x08) != 0;
        self.i = (value & 0x04) != 0;
        self.z = (value & 0x02) != 0;
        self.c = (value & 0x01) != 0;
    }
}

impl Default for StatusFlags {
    fn default() -> (p: Self)
        ensures
            p == flags_init(),
    {
        Self::new()
    }
}

/// Packing the flags and loading the byte back restores every flag.
pub proof fn law_flags_byte_roundtrip(p: StatusFlags)
    ensures
        flags_from_byte(p, flags_byte(p)) == p,
{
    let (n, v, m, x, d, i, z, c) = (p.n, p.v, p.m, p.x, p.d, p.i, p.z, p.c);
    let b = flags_byte(p);
    assert((b & 0x80 != 0) == n && (b & 0x40 != 0) == v && (b & 0x20 != 0) == m && (b & 0x10
        != 0) == x && (b & 0x08 != 0) == d && (b & 0x04 != 0) == i && (b & 0x02 != 0) == z && (b
        & 0x01 != 0) == c) by (bit_vector)
        requires
            b == ((if n { 0x80u8 } else { 0u8 }) | (if v { 0x40u8 } else { 0u8 }) | (if m {
                0x20u8
            } else {
                0u8
            }) | (if x { 0x10u8 } else { 0u8 }) | (if d { 0x08u8 } else { 0u8 }) | (if i {
                0x04u8
            } else {
                0u8
            }) | (if z { 0x02u8 } else { 0u8 }) | (if c { 0x01u8 } else { 0u8 })),
    ;
}

/// Loading a status byte and packing the flags gives the byte back.
pub proof fn law_flags_load_roundtrip(p: StatusFlags, value: u8)
    ensures
        flags_byte(flags_from_byte(p, value)) == value,
{
    assert(((if value & 0x80 != 0 { 0x80u8 } else { 0u8 }) | (if value & 0x40 != 0 {
        0x40u8
    } else {
        0u8
    }) | (if value & 0x20 != 0 { 0x20u8 } else { 0u8 }) | (if value & 0x10 != 0 {
        0x10u8
    } else {
        0u8
    }) | (if value & 0x08 != 0 { 0x08u8 } else { 0u8 }) | (if value & 0x04 != 0 {
        0x04u8
    } else {
        0u8
    }) | (if value & 0x02 != 0 { 0x02u8 } else { 0u8 }) | (if value & 0x01 != 0 {
        0x01u8
    } else {
        0u8
    })) == value) by (bit_vector);
}

/// The 65816 main CPU.
#[derive(Clone, Copy)]
pub struct Cpu65816 {
    /// Accumulator (C; A is its low byte).
    pub a: u16,
    /// X index register.
    pub x: u16,
    /// Y index register.
    pub y: u16,
    /// Stack pointer.
    pub s: u16,
    /// Direct page register.
    pub d: u16,
    /// Program counter.
    pub pc: u16,
    /// Program bank register.
    pub pbr: u8,
    /// Data bank register.
    pub dbr: u8,
    /// Processor status.
    pub p: StatusFlags,
    /// Cycles executed.
    pub cycles: u64,
    /// Halted by STP.
    pub stopped: bool,
    /// Waiting for an interrupt after WAI.
    pub waiting: bool,
}

/// The CPU at power-on: registers clear, stack at $01FF, emulation mode.
pub open spec fn cpu_init() -> Cpu65816 {
    Cpu65816 {
        a: 0,
        x: 0,
        y: 0,
        s: 0x01FF,
        d: 0,
        pc: 0,
        pbr: 0,
        dbr: 0,
        p: flags_init(),
        cycles: 0,
        stopped: false,
        waiting: false,
    }
}

// ---------------------------------------------------------------------------
// Instruction set
// ---------------------------------------------------------------------------

/// A register that loads and stores name.
#[derive(Clone, Copy, PartialEq, Eq, Structural)]
pub enum Reg {
    A,
    X,
    Y,
    /// STZ stores zero.
    Zero,
}

/// Operand addressing modes.
#[derive(Clone, Copy, PartialEq, Eq, Structural)]
pub enum Mode {
    /// `#const`: the operand follows the opcode.
    Imm,
    /// `dp`: D + offset, bank 0.
    Dp,
    /// `dp,X`: D + offset + X, bank 0.
    DpX,
    /// `dp,Y`: D + offset + Y, bank 0.
    DpY,
    /// `abs`: 16-bit address in the data bank.
    Abs,
    /// `abs,X`: 16-bit address + X (wrapping in 16 bits) in the data bank.
    AbsX,
    /// `abs,Y`: 16-bit address + Y (wrapping in 16 bits) in the data bank.
    AbsY,
}

/// Accumulator operations with a memory or immediate operand.
#[derive(Clone, Copy, PartialEq, Eq, Structural)]
pub enum AluOp {
    Adc,
    Sbc,
    And,
    Ora,
    Eor,
    Cmp,
    Bit,
}

/// Read-modify-write operations.
#[derive(Clone, Copy, PartialEq, Eq, Structural)]
pub enum RmwOp {
    Asl,
    Lsr,
    Rol,
    Ror,
    Inc,
    Dec,
}

/// Branch conditions.
#[derive(Clone, Copy, PartialEq, Eq, Structural)]
pub enum Cond {
    CarryClear,
    CarrySet,
    Equal,
    Minus,
    NotEqual,
    Plus,
    OverflowClear,
    OverflowSet,
    Always,
}

/// Flags that single instructions set or clear.
#[derive(Clone, Copy, PartialEq, Eq, Structural)]
pub enum Flag {
    Carry,
    Decimal,
    IrqDisable,
    Overflow,
}

/// A decoded instruction.
#[derive(Clone, Copy, PartialEq, Eq, Structural)]
pub enum Instr {
    Load(Reg, Mode),
    Store(Reg, Mode),
    Alu(AluOp, Mode),
    CompareX(Mode),
    CompareY(Mode),
    /// Read-modify-write of the accumulator.
    RmwA(RmwOp),
    /// Read-modify-write of memory.
    RmwMem(RmwOp, Mode),
    Inx,
    Iny,
    Dex,
    Dey,
    Tax,
    Tay,
    Tsx,
    Txa,
    Txs,
    Tya,
    Txy,
    Tyx,
    Tcd,
    Tcs,
    Tdc,
    Tsc,
    Xba,
    Pha,
    Pla,
    Php,
    Plp,
    Phx,
    Plx,
    Phy,
    Ply,
    Phb,
    Plb,
    Phd,
    Pld,
    Phk,
    Pea,
    Pei,
    Per,
    Branch(Cond),
    Jmp,
    Jsr,
    Rts,
    Jml,
    JmlIndirect,
    Jsl,
    Rtl,
    Brk,
    Cop,
    Rti,
    ClearFlag(Flag),
    SetFlag(Flag),
    Rep,
    Sep,
    Xce,
    Wai,
    Stp,
    Mvn,
    Mvp,
    Nop,
}

/// The instruction an opcode encodes. Opcodes outside the implemented set
/// decode to a NOP.
pub open spec fn decode(op: u8) -> Instr {
    match op {
        0xA9 => Instr::Load(Reg::A, Mode::Imm),
        0xA5 => Instr::Load(Reg::A, Mode::Dp),
        0xB5 => Instr::Load(Reg::A, Mode::DpX),
        0xAD => Instr::Load(Reg::A, Mode::Abs),
        0xBD => Instr::Load(Reg::A, Mode::AbsX),
        0xB9 => Instr::Load(Reg::A, Mode::AbsY),
        0xA2 => Instr::Load(Reg::X, Mode::Imm),
        0xA6 => Instr::Load(Reg::X, Mode::Dp),
        0xB6 => Instr::Load(Reg::X, Mode::DpY),
        0xAE => Instr::Load(Reg::X, Mode::Abs),
        0xBE => Instr::Load(Reg::X, Mode::AbsY),
        0xA0 => Instr::Load(Reg::Y, Mode::Imm),
        0xA4 => Instr::Load(Reg::Y, Mode::Dp),
        0xB4 => Instr::Load(Reg::Y, Mode::DpX),
        0xAC => Instr::Load(Reg::Y, Mode::Abs),
        0xBC => Instr::Load(Reg::Y, Mode::AbsX),
        0x85 => Instr::Store(Reg::A, Mode::Dp),
        0x95 => Instr::Store(Reg::A, Mode::DpX),
        0x8D => Instr::Store(Reg::A, Mode::Abs),
        0x9D => Instr::Store(Reg::A, Mode::AbsX),
        0x99 => Instr::Store(Reg::A, Mode::AbsY),
        0x86 => Instr::Store(Reg::X, Mode::Dp),
        0x96 => Instr::Store(Reg::X, Mode::DpY),
        0x8E => Instr::Store(Reg::X, Mode::Abs),
        0x84 => Instr::Store(Reg::Y, Mode::Dp),
        0x94 => Instr::Store(Reg::Y, Mode::DpX),
        0x8C => Instr::Store(Reg::Y, Mode::Abs),
        0x64 => Instr::Store(Reg::Zero, Mode::Dp),
        0x74 => Instr::Store(Reg::Zero, Mode::DpX),
        0x9C => Instr::Store(Reg::Zero, Mode::Abs),
        0x9E => Instr::Store(Reg::Zero, Mode::AbsX),
        0x69 => Instr::Alu(AluOp::Adc, Mode::Imm),
        0x65 => Instr::Alu(AluOp::Adc, Mode::Dp),
        0x75 => Instr::Alu(AluOp::Adc, Mode::DpX),
        0x6D => Instr::Alu(AluOp::Adc, Mode::Abs),
        0x7D => Instr::Alu(AluOp::Adc, Mode::AbsX),
        0x79 => Instr::Alu(AluOp::Adc, Mode::AbsY),
        0xE9 => Instr::Alu(AluOp::Sbc, Mode::Imm),
        0xE5 => Instr::Alu(AluOp::Sbc, Mode::Dp),
        0xF5 => Instr::Alu(AluOp::Sbc, Mode::DpX),
        0xED => Instr::Alu(AluOp::Sbc, Mode::Abs),
        0xFD => Instr::Alu(AluOp::Sbc, Mode::AbsX),
        0xF9 => Instr::Alu(AluOp::Sbc, Mode::AbsY),
        0x29 => Instr::Alu(AluOp::And, Mode::Imm),
        0x25 => Instr::Alu(AluOp::And, Mode::Dp),
        0x35 => Instr::Alu(AluOp::And, Mode::DpX),
        0x2D => Instr::Alu(AluOp::And, Mode::Abs),
        0x3D => Instr::Alu(AluOp::And, Mode::AbsX),
        0x39 => Instr::Alu(AluOp::And, Mode::AbsY),
        0x09 => Instr::Alu(AluOp::Ora, Mode::Imm),
        0x05 => Instr::Alu(AluOp::Ora, Mode::Dp),
        0x15 => Instr::Alu(AluOp::Ora, Mode::DpX),
        0x0D => Instr::Alu(AluOp::Ora, Mode::Abs),
        0x1D => Instr::Alu(AluOp::Ora, Mode::AbsX),
        0x19 => Instr::Alu(AluOp::Ora, Mode::AbsY),
        0x49 => Instr::Alu(AluOp::Eor, Mode::Imm),
        0x45 => Instr::Alu(AluOp::Eor, Mode::Dp),
        0x55 => Instr::Alu(AluOp::Eor, Mode::DpX),
        0x4D => Instr::Alu(AluOp::Eor, Mode::Abs),
        0x5D => Instr::Alu(AluOp::Eor, Mode::AbsX),
        0x59 => Instr::Alu(AluOp::Eor, Mode::AbsY),
        0xC9 => Instr::Alu(AluOp::Cmp, Mode::Imm),
        0xC5 => Instr::Alu(AluOp::Cmp, Mode::Dp),
        0xD5 => Instr::Alu(AluOp::Cmp, Mode::DpX),
        0xCD => Instr::Alu(AluOp::Cmp, Mode::Abs),
        0xDD => Instr::Alu(AluOp::Cmp, Mode::AbsX),
        0xD9 => Instr::Alu(AluOp::Cmp, Mode::AbsY),
        0x89 => Instr::Alu(AluOp::Bit, Mode::Imm),
        0x24 => Instr::Alu(AluOp::Bit, Mode::Dp),
        0x34 => Instr::Alu(AluOp::Bit, Mode::DpX),
        0x2C => Instr::Alu(AluOp::Bit, Mode::Abs),
        0x3C => Instr::Alu(AluOp::Bit, Mode::AbsX),
        0xE0 => Instr::CompareX(Mode::Imm),
        0xE4 => Instr::CompareX(Mode::Dp),
        0xEC => Instr::CompareX(Mode::Abs),
        0xC0 => Instr::CompareY(Mode::Imm),
        0xC4 => Instr::CompareY(Mode::Dp),
        0xCC => Instr::CompareY(Mode::Abs),
        0x0A => Instr::RmwA(RmwOp::Asl),
        0x06 => Instr::RmwMem(RmwOp::Asl, Mode::Dp),
        0x16 => Instr::RmwMem(RmwOp::Asl, Mode::DpX),
        0x0E => Instr::RmwMem(RmwOp::Asl, Mode::Abs),
        0x1E => Instr::RmwMem(RmwOp::Asl, Mode::AbsX),
        0x4A => Instr::RmwA(RmwOp::Lsr),
        0x46 => Instr::RmwMem(RmwOp::Lsr, Mode::Dp),
        0x56 => Instr::RmwMem(RmwOp::Lsr, Mode::DpX),
        0x4E => Instr::RmwMem(RmwOp::Lsr, Mode::Abs),
        0x5E => Instr::RmwMem(RmwOp::Lsr, Mode::AbsX),
        0x2A => Instr::RmwA(RmwOp::Rol),
        0x26 => Instr::RmwMem(RmwOp::Rol, Mode::Dp),
        0x36 => Instr::RmwMem(RmwOp::Rol, Mode::DpX),
        0x2E => Instr::RmwMem(RmwOp::Rol, Mode::Abs),
        0x3E => Instr::RmwMem(RmwOp::Rol, Mode::AbsX),
        0x6A => Instr::RmwA(RmwOp::Ror),
        0x66 => Instr::RmwMem(RmwOp::Ror, Mode::Dp),
        0x76 => Instr::RmwMem(RmwOp::Ror, Mode::DpX),
        0x6E => Instr::RmwMem(RmwOp::Ror, Mode::Abs),
        0x7E => Instr::RmwMem(RmwOp::Ror, Mode::AbsX),
        0x1A => Instr::RmwA(RmwOp::Inc),
        0xE6 => Instr::RmwMem(RmwOp::Inc, Mode::Dp),
        0xF6 => Instr::RmwMem(RmwOp::Inc, Mode::DpX),
        0xEE => Instr::RmwMem(RmwOp::Inc, Mode::Abs),
        0xFE => Instr::RmwMem(RmwOp::Inc, Mode::AbsX),
        0x3A => Instr::RmwA(RmwOp::Dec),
        0xC6 => Instr::RmwMem(RmwOp::Dec, Mode::Dp),
        0xD6 => Instr::RmwMem(RmwOp::Dec, Mode::DpX),
        0xCE => Instr::RmwMem(RmwOp::Dec, Mode::Abs),
        0xDE => Instr::RmwMem(RmwOp::Dec, Mode::AbsX),
        0xE8 => Instr::Inx,
        0xC8 => Instr::Iny,
        0xCA => Instr::Dex,
        0x88 => Instr::Dey,
        0xAA => Instr::Tax,
        0xA8 => Instr::Tay,
        0xBA => Instr::Tsx,
        0x8A => Instr::Txa,
        0x9A => Instr::Txs,
        0x98 => Instr::Tya,
        0x9B => Instr::Txy,
        0xBB => Instr::Tyx,
        0x5B => Instr::Tcd,
        0x1B => Instr::Tcs,
        0x7B => Instr::Tdc,
        0x3B => Instr::Tsc,
        0xEB => Instr::Xba,
        0x48 => Instr::Pha,
        0x68 => Instr::Pla,
        0x08 => Instr::Php,
        0x28 => Instr::Plp,
        0xDA => Instr::Phx,
        0xFA => Instr::Plx,
        0x5A => Instr::Phy,
        0x7A => Instr::Ply,
        0x8B => Instr::Phb,
        0xAB => Instr::Plb,
        0x0B => Instr::Phd,
        0x2B => Instr::Pld,
        0x4B => Instr::Phk,
        0xF4 => Instr::Pea,
        0xD4 => Instr::Pei,
        0x62 => Instr::Per,
        0x90 => Instr::Branch(Cond::CarryClear),
        0xB0 => Instr::Branch(Cond::CarrySet),
        0xF0 => Instr::Branch(Cond::Equal),
        0x30 => Instr::Branch(Cond::Minus),
        0xD0 => Instr::Branch(Cond::NotEqual),
        0x10 => Instr::Branch(Cond::Plus),
        0x50 => Instr::Branch(Cond::OverflowClear),
        0x70 => Instr::Branch(Cond::OverflowSet),
        0x80 => Instr::Branch(Cond::Always),
        0x4C => Instr::Jmp,
        0x20 => Instr::Jsr,
        0x60 => Instr::Rts,
        0x5C => Instr::Jml,
        0xDC => Instr::JmlIndirect,
        0x22 => Instr::Jsl,
        0x6B => Instr::Rtl,
        0x00 => Instr::Brk,
        0x02 => Instr::Cop,
        0x40 => Instr::Rti,
        0x18 => Instr::ClearFlag(Flag::Carry),
        0xD8 => Instr::ClearFlag(Flag::Decimal),
        0x58 => Instr::ClearFlag(Flag::IrqDisable),
        0xB8 => Instr::ClearFlag(Flag::Overflow),
        0x38 => Instr::SetFlag(Flag::Carry),
        0xF8 => Instr::SetFlag(Flag::Decimal),
        0x78 => Instr::SetFlag(Flag::IrqDisable),
        0xC2 => Instr::Rep,
        0xE2 => Instr::Sep,
        0xFB => Instr::Xce,
        0xCB => Instr::Wai,
        0xDB => Instr::Stp,
        0x54 => Instr::Mvn,
        0x44 => Instr::Mvp,
        _ => Instr::Nop,
    }
}


// ---------------------------------------------------------------------------
// Semantics
// ---------------------------------------------------------------------------

/// What an instruction leaves behind: the CPU, the memory, and the cycles
/// it took.
pub struct Effect {
    pub cpu: Cpu65816,
    pub mem: MemView,
    pub cycles: u8,
}

/// The address the next instruction byte is fetched from.
pub open spec fn pc_address(c: Cpu65816) -> u32 {
    long_addr(c.pbr, c.pc)
}

/// Fetches the byte at PC and advances PC.
pub open spec fn fetch8(c: Cpu65816, m: MemView) -> (u8, Cpu65816) {
    (mem_read(m, pc_address(c)), Cpu65816 { pc: wadd16(c.pc, 1), ..c })
}

/// Fetches a little-endian word at PC and advances PC by two.
pub open spec fn fetch16(c: Cpu65816, m: MemView) -> (u16, Cpu65816) {
    let (lo, c1) = fetch8(c, m);
    let (hi, c2) = fetch8(c1, m);
    (word(lo, hi), c2)
}

/// N from the top bit of an 8-bit result, Z from whether it is zero.
pub open spec fn nz8(p: StatusFlags, v: u8) -> StatusFlags {
    StatusFlags { n: v & 0x80 != 0, z: v == 0, ..p }
}

/// N from the top bit of a 16-bit result, Z from whether it is zero.
pub open spec fn nz16(p: StatusFlags, v: u16) -> StatusFlags {
    StatusFlags { n: v & 0x8000 != 0, z: v == 0, ..p }
}

/// N and Z from a result of the given width.
pub open spec fn set_nz(p: StatusFlags, v: u16, wide: bool) -> StatusFlags {
    if wide {
        nz16(p, v)
    } else {
        nz8(p, (v & 0xFF) as u8)
    }
}

/// The low byte of a 16-bit value.
pub open spec fn low8(v: u16) -> u16 {
    v & 0xFF
}

/// A register of the given width: the whole 16 bits, or the low byte.
pub open spec fn width_part(v: u16, wide: bool) -> u16 {
    if wide {
        v
    } else {
        v & 0xFF
    }
}

/// A new accumulator value: all 16 bits, or only the low byte (B stays).
pub open spec fn merge_a(a: u16, v: u16, wide: bool) -> u16 {
    if wide {
        v
    } else {
        (a & 0xFF00) | (v & 0xFF)
    }
}

/// The bank-0 address of a direct page location.
pub open spec fn dp_address(d: u16, offset: u16) -> u32 {
    wadd16(d, offset) as u32
}

/// The effective address of a memory operand, and the CPU after fetching
/// the operand bytes.
pub open spec fn effective_addr(c: Cpu65816, m: MemView, mode: Mode) -> (u32, Cpu65816) {
    match mode {
        Mode::Dp => {
            let (o, c1) = fetch8(c, m);
            (dp_address(c.d, o as u16), c1)
        },
        Mode::DpX => {
            let (o, c1) = fetch8(c, m);
            (wadd16(wadd16(c.d, o as u16), c.x) as u32, c1)
        },
        Mode::DpY => {
            let (o, c1) = fetch8(c, m);
            (wadd16(wadd16(c.d, o as u16), c.y) as u32, c1)
        },
        Mode::Abs => {
            let (w, c1) = fetch16(c, m);
            (long_addr(c.dbr, w), c1)
        },
        Mode::AbsX => {
            let (w, c1) = fetch16(c, m);
            (long_addr(c.dbr, wadd16(w, c.x)), c1)
        },
        Mode::AbsY => {
            let (w, c1) = fetch16(c, m);
            (long_addr(c.dbr, wadd16(w, c.y)), c1)
        },
        Mode::Imm => (pc_address(c), c),
    }
}

/// The operand of the given width: fetched after the opcode (immediate) or
/// read from its effective address.
pub open spec fn operand(c: Cpu65816, m: MemView, mode: Mode, wide: bool) -> (u16, Cpu65816) {
    if mode == Mode::Imm {
        if wide {
            fetch16(c, m)
        } else {
            let (b, c1) = fetch8(c, m);
            (b as u16, c1)
        }
    } else {
        let (addr, c1) = effective_addr(c, m, mode);
        if wide {
            (mem_read_word(m, addr), c1)
        } else {
            (mem_read(m, addr) as u16, c1)
        }
    }
}

/// Cycles of a load or accumulator operation (one more when 16 bits wide).
pub open spec fn read_cycles(mode: Mode) -> u8 {
    match mode {
        Mode::Imm => 2,
        Mode::Dp => 3,
        _ => 4,
    }
}

/// Cycles of a store (one more when 16 bits wide).
pub open spec fn store_cycles(mode: Mode) -> u8 {
    match mode {
        Mode::Dp => 3,
        Mode::DpX | Mode::DpY | Mode::Abs => 4,
        _ => 5,
    }
}

/// Cycles of a read-modify-write of memory (two more when 16 bits wide).
pub open spec fn rmw_cycles(mode: Mode) -> u8 {
    match mode {
        Mode::Dp => 5,
        Mode::AbsX => 7,
        _ => 6,
    }
}

/// One more cycle for a 16-bit operand.
pub open spec fn wide_extra(wide: bool) -> u8 {
    if wide {
        1
    } else {
        0
    }
}

/// Whether a register is 16 bits wide: A by M, X and Y by the X flag.
pub open spec fn reg_wide(c: Cpu65816, r: Reg) -> bool {
    match r {
        Reg::A | Reg::Zero => !c.p.m,
        _ => !c.p.x,
    }
}

/// LDA/LDX/LDY.
pub open spec fn exec_load(c: Cpu65816, m: MemView, r: Reg, mode: Mode) -> Effect {
    let wide = reg_wide(c, r);
    let (v, c1) = operand(c, m, mode, wide);
    let c2 = match r {
        Reg::A => Cpu65816 { a: merge_a(c1.a, v, wide), p: set_nz(c1.p, v, wide), ..c1 },
        Reg::X => Cpu65816 { x: v, p: set_nz(c1.p, v, wide), ..c1 },
        Reg::Y => Cpu65816 { y: v, p: set_nz(c1.p, v, wide), ..c1 },
        Reg::Zero => c1,
    };
    Effect { cpu: c2, mem: m, cycles: (read_cycles(mode) + wide_extra(wide)) as u8 }
}

/// The value a store writes.
pub open spec fn store_value(c: Cpu65816, r: Reg) -> u16 {
    match r {
        Reg::A => c.a,
        Reg::X => c.x,
        Reg::Y => c.y,
        Reg::Zero => 0,
    }
}

/// Writes a value of the given width.
pub open spec fn write_sized(m: MemView, addr: u32, v: u16, wide: bool) -> MemView {
    if wide {
        mem_write_word(m, addr, v)
    } else {
        mem_write(m, addr, (v & 0xFF) as u8)
    }
}

/// Reads a value of the given width.
pub open spec fn read_sized(m: MemView, addr: u32, wide: bool) -> u16 {
    if wide {
        mem_read_word(m, addr)
    } else {
        mem_read(m, addr) as u16
    }
}

/// STA/STX/STY/STZ.
pub open spec fn exec_store(c: Cpu65816, m: MemView, r: Reg, mode: Mode) -> Effect {
    let wide = reg_wide(c, r);
    let (addr, c1) = effective_addr(c, m, mode);
    Effect {
        cpu: c1,
        mem: write_sized(m, addr, store_value(c, r), wide),
        cycles: (store_cycles(mode) + wide_extra(wide)) as u8,
    }
}

/// The top bit of a value of the given width.
pub open spec fn sign_bit(wide: bool) -> u16 {
    if wide {
        0x8000
    } else {
        0x80
    }
}

/// One past the largest value of the given width.
pub open spec fn modulus(wide: bool) -> int {
    if wide {
        0x10000
    } else {
        0x100
    }
}

/// Binary addition with carry: result, carry out, signed overflow.
pub open spec fn add_binary(a: u16, v: u16, carry: bool, wide: bool) -> (u16, bool, bool) {
    let sum = a + v + (if carry { 1int } else { 0int });
    let r = (sum % modulus(wide)) as u16;
    (r, sum >= modulus(wide), (!(a ^ v)) & (a ^ r) & sign_bit(wide) != 0)
}

/// One decimal digit of an addition: the digit and the carry out.
pub open spec fn bcd_digit_add(x: int, y: int, c: int) -> (int, int) {
    let t = x + y + c;
    if t > 9 {
        ((t + 6) % 16, 1)
    } else {
        (t, 0)
    }
}

/// The `k`-th 4-bit digit of a value.
pub open spec fn digit(v: u16, k: int) -> int {
    if k == 0 {
        v as int % 16
    } else if k == 1 {
        (v as int / 16) % 16
    } else if k == 2 {
        (v as int / 256) % 16
    } else {
        (v as int / 4096) % 16
    }
}

/// Decimal (BCD) addition with carry, digit by digit from the lowest: the
/// result and the carry out. Two digits when 8 bits wide, four when 16.
pub open spec fn add_decimal(a: u16, v: u16, carry: bool, wide: bool) -> (u16, bool) {
    let d0 = bcd_digit_add(digit(a, 0), digit(v, 0), if carry { 1 } else { 0 });
    let d1 = bcd_digit_add(digit(a, 1), digit(v, 1), d0.1);
    if !wide {
        ((d0.0 + 16 * d1.0) as u16, d1.1 == 1)
    } else {
        let d2 = bcd_digit_add(digit(a, 2), digit(v, 2), d1.1);
        let d3 = bcd_digit_add(digit(a, 3), digit(v, 3), d2.1);
        ((d0.0 + 16 * d1.0 + 256 * d2.0 + 4096 * d3.0) as u16, d3.1 == 1)
    }
}

/// One decimal digit of a subtraction with borrow: the digit and the borrow
/// out.
pub open spec fn bcd_digit_sub(x: int, y: int, b: int) -> (int, int) {
    let t = x - y - b;
    if t < 0 {
        ((t - 6) % 16, 1)
    } else {
        (t, 0)
    }
}

/// Decimal (BCD) subtraction with borrow (borrow is a clear carry), digit by
/// digit: the result and the carry out (set when nothing was borrowed).
pub open spec fn sub_decimal(a: u16, v: u16, carry: bool, wide: bool) -> (u16, bool) {
    let d0 = bcd_digit_sub(digit(a, 0), digit(v, 0), if carry { 0 } else { 1 });
    let d1 = bcd_digit_sub(digit(a, 1), digit(v, 1), d0.1);
    if !wide {
        ((d0.0 + 16 * d1.0) as u16, d1.1 == 0)
    } else {
        let d2 = bcd_digit_sub(digit(a, 2), digit(v, 2), d1.1);
        let d3 = bcd_digit_sub(digit(a, 3), digit(v, 3), d2.1);
        ((d0.0 + 16 * d1.0 + 256 * d2.0 + 4096 * d3.0) as u16, d3.1 == 0)
    }
}

/// ADC: binary or decimal by the D flag; V by the signed-overflow rule on
/// the result in either mode.
pub open spec fn adc_value(a: u16, v: u16, p: StatusFlags, wide: bool) -> (u16, StatusFlags) {
    if p.d {
        let (r, c) = add_decimal(a, v, p.c, wide);
        (r, set_nz(StatusFlags { c, v: (!(a ^ v)) & (a ^ r) & sign_bit(wide) != 0, ..p }, r, wide))
    } else {
        let (r, c, ov) = add_binary(a, v, p.c, wide);
        (r, set_nz(StatusFlags { c, v: ov, ..p }, r, wide))
    }
}

/// SBC: binary (addition of the complement) or decimal by the D flag.
pub open spec fn sbc_value(a: u16, v: u16, p: StatusFlags, wide: bool) -> (u16, StatusFlags) {
    if p.d {
        let (r, c) = sub_decimal(a, v, p.c, wide);
        (r, set_nz(StatusFlags { c, v: (a ^ v) & (a ^ r) & sign_bit(wide) != 0, ..p }, r, wide))
    } else {
        let inv = (!v) & (if wide { 0xFFFFu16 } else { 0xFFu16 });
        let (r, c, ov) = add_binary(a, inv, p.c, wide);
        (r, set_nz(StatusFlags { c, v: ov, ..p }, r, wide))
    }
}

/// A comparison: C when `reg >= v`, Z when equal, N from the difference.
pub open spec fn compare(reg: u16, v: u16, p: StatusFlags, wide: bool) -> StatusFlags {
    let diff = ((reg as int - v as int + modulus(wide)) % modulus(wide)) as u16;
    StatusFlags { c: reg >= v, ..set_nz(p, diff, wide) }
}

/// The accumulator and flags after an accumulator operation on the operand
/// `v`, where `full` is the whole accumulator and `a` its part at the width.
pub open spec fn alu_result(
    op: AluOp,
    mode: Mode,
    full: u16,
    a: u16,
    v: u16,
    p: StatusFlags,
    wide: bool,
) -> (u16, StatusFlags) {
    match op {
        AluOp::Adc => {
            let (r, p1) = adc_value(a, v, p, wide);
            (merge_a(full, r, wide), p1)
        },
        AluOp::Sbc => {
            let (r, p1) = sbc_value(a, v, p, wide);
            (merge_a(full, r, wide), p1)
        },
        AluOp::And => (merge_a(full, a & v, wide), set_nz(p, a & v, wide)),
        AluOp::Ora => (merge_a(full, a | v, wide), set_nz(p, a | v, wide)),
        AluOp::Eor => (merge_a(full, a ^ v, wide), set_nz(p, a ^ v, wide)),
        AluOp::Cmp => (full, compare(a, v, p, wide)),
        AluOp::Bit => if mode == Mode::Imm {
            (full, StatusFlags { z: a & v == 0, ..p })
        } else {
            (
                full,
                StatusFlags {
                    z: a & v == 0,
                    n: v & sign_bit(wide) != 0,
                    v: v & (sign_bit(wide) >> 1u16) != 0,
                    ..p
                },
            )
        },
    }
}

/// LDA-class accumulator operations: ADC SBC AND ORA EOR CMP BIT.
pub open spec fn exec_alu(c: Cpu65816, m: MemView, op: AluOp, mode: Mode) -> Effect {
    let wide = !c.p.m;
    let (v, c1) = operand(c, m, mode, wide);
    let (a, p) = alu_result(op, mode, c1.a, width_part(c.a, wide), v, c1.p, wide);
    Effect {
        cpu: Cpu65816 { a, p, ..c1 },
        mem: m,
        cycles: (read_cycles(mode) + wide_extra(wide)) as u8,
    }
}

/// CPX/CPY.
pub open spec fn exec_compare_index(c: Cpu65816, m: MemView, reg: u16, mode: Mode) -> Effect {
    let wide = !c.p.x;
    let (v, c1) = operand(c, m, mode, wide);
    Effect {
        cpu: Cpu65816 { p: compare(width_part(reg, wide), v, c1.p, wide), ..c1 },
        mem: m,
        cycles: (read_cycles(mode) + wide_extra(wide)) as u8,
    }
}

/// A read-modify-write result and the carry afterwards: shifts and
/// rotates move a bit through carry; INC and DEC wrap and keep carry.
pub open spec fn rmw_value(op: RmwOp, v: u16, carry: bool, wide: bool) -> (u16, bool) {
    let md = modulus(wide);
    let top = v & sign_bit(wide) != 0;
    match op {
        RmwOp::Asl => (((v as int * 2) % md) as u16, top),
        RmwOp::Lsr => (v / 2, v & 1 != 0),
        RmwOp::Rol => (((v as int * 2 + (if carry { 1int } else { 0int })) % md) as u16, top),
        RmwOp::Ror => ((v / 2 + (if carry { sign_bit(wide) } else { 0u16 })) as u16, v & 1 != 0),
        RmwOp::Inc => (((v as int + 1) % md) as u16, carry),
        RmwOp::Dec => (((v as int + md - 1) % md) as u16, carry),
    }
}

/// ASL/LSR/ROL/ROR/INC/DEC of the accumulator.
pub open spec fn exec_rmw_a(c: Cpu65816, m: MemView, op: RmwOp) -> Effect {
    let wide = !c.p.m;
    let (r, carry) = rmw_value(op, width_part(c.a, wide), c.p.c, wide);
    Effect {
        cpu: Cpu65816 {
            a: merge_a(c.a, r, wide),
            p: set_nz(StatusFlags { c: carry, ..c.p }, r, wide),
            ..c
        },
        mem: m,
        cycles: 2,
    }
}

/// ASL/LSR/ROL/ROR/INC/DEC of memory.
pub open spec fn exec_rmw_mem(c: Cpu65816, m: MemView, op: RmwOp, mode: Mode) -> Effect {
    let wide = !c.p.m;
    let (addr, c1) = effective_addr(c, m, mode);
    let v = read_sized(m, addr, wide);
    let (r, carry) = rmw_value(op, v, c.p.c, wide);
    Effect {
        cpu: Cpu65816 { p: set_nz(StatusFlags { c: carry, ..c1.p }, r, wide), ..c1 },
        mem: write_sized(m, addr, r, wide),
        cycles: (rmw_cycles(mode) + 2 * wide_extra(wide)) as u8,
    }
}

/// An index register after counting up or down, at the index width.
pub open spec fn index_step(v: u16, up: bool, wide: bool) -> u16 {
    let md = modulus(wide);
    let w = width_part(v, wide) as int;
    (if up {
        (w + 1) % md
    } else {
        (w + md - 1) % md
    }) as u16
}

/// A CPU whose registers obey the mode: in emulation mode M and X are set,
/// and while X is set the index registers hold only their low bytes.
pub open spec fn normalize(c: Cpu65816) -> Cpu65816 {
    let c1 = if c.p.e {
        Cpu65816 { p: StatusFlags { m: true, x: true, ..c.p }, ..c }
    } else {
        c
    };
    if c1.p.x {
        Cpu65816 { x: c1.x & 0xFF, y: c1.y & 0xFF, ..c1 }
    } else {
        c1
    }
}

/// The CPU after loading a status byte (PLP, REP, SEP, RTI).
pub open spec fn with_status(c: Cpu65816, value: u8) -> Cpu65816 {
    normalize(Cpu65816 { p: flags_from_byte(c.p, value), ..c })
}

/// The address the stack pointer designates: page 1 in emulation mode.
pub open spec fn stack_addr(c: Cpu65816) -> u32 {
    if c.p.e {
        (0x0100u16 | (c.s & 0xFF)) as u32
    } else {
        c.s as u32
    }
}

/// The stack pointer kept in page 1 in emulation mode.
pub open spec fn stack_wrap(s: u16, e: bool) -> u16 {
    if e {
        0x0100u16 | (s & 0xFF)
    } else {
        s
    }
}

/// Pushes a byte: written at the stack pointer, which then moves down.
pub open spec fn push8(c: Cpu65816, m: MemView, v: u8) -> (Cpu65816, MemView) {
    (
        Cpu65816 { s: stack_wrap(wsub16(c.s, 1), c.p.e), ..c },
        mem_write(m, stack_addr(c), v),
    )
}

/// Pushes a word: high byte first.
pub open spec fn push16(c: Cpu65816, m: MemView, v: u16) -> (Cpu65816, MemView) {
    let (c1, m1) = push8(c, m, (v / 256) as u8);
    push8(c1, m1, (v % 256) as u8)
}

/// Pulls a byte: the stack pointer moves up, then the byte there is read.
pub open spec fn pull8(c: Cpu65816, m: MemView) -> (Cpu65816, u8) {
    let c1 = Cpu65816 { s: stack_wrap(wadd16(c.s, 1), c.p.e), ..c };
    (c1, mem_read(m, stack_addr(c1)))
}

/// Pulls a word: low byte first.
pub open spec fn pull16(c: Cpu65816, m: MemView) -> (Cpu65816, u16) {
    let (c1, lo) = pull8(c, m);
    let (c2, hi) = pull8(c1, m);
    (c2, word(lo, hi))
}

/// Whether a branch condition holds.
pub open spec fn cond_holds(cond: Cond, p: StatusFlags) -> bool {
    match cond {
        Cond::CarryClear => !p.c,
        Cond::CarrySet => p.c,
        Cond::Equal => p.z,
        Cond::Minus => p.n,
        Cond::NotEqual => !p.z,
        Cond::Plus => !p.n,
        Cond::OverflowClear => !p.v,
        Cond::OverflowSet => p.v,
        Cond::Always => true,
    }
}

/// The flags after CLC/CLD/CLI/CLV or SEC/SED/SEI.
pub open spec fn with_flag(p: StatusFlags, f: Flag, on: bool) -> StatusFlags {
    match f {
        Flag::Carry => StatusFlags { c: on, ..p },
        Flag::Decimal => StatusFlags { d: on, ..p },
        Flag::IrqDisable => StatusFlags { i: on, ..p },
        Flag::Overflow => StatusFlags { v: on, ..p },
    }
}

/// A transfer into X or Y at the index width, setting N and Z.
pub open spec fn to_index(c: Cpu65816, v: u16) -> (u16, StatusFlags) {
    let wide = !c.p.x;
    (width_part(v, wide), set_nz(c.p, width_part(v, wide), wide))
}

/// BRK and COP: the return address (past the signature byte) and the status
/// are pushed (and the program bank in native mode), I is set, D cleared,
/// and execution continues at the vector in bank 0.
pub open spec fn exec_interrupt(c: Cpu65816, m: MemView, brk: bool) -> Effect {
    let (_sig, c1) = fetch8(c, m);
    if c.p.e {
        let (c2, m2) = push16(c1, m, c1.pc);
        let (c3, m3) = push8(c2, m2, flags_byte(c.p) | (if brk { 0x10u8 } else { 0u8 }));
        let vector: u32 = if brk { 0xFFFE } else { 0xFFF4 };
        Effect {
            cpu: Cpu65816 {
                p: StatusFlags { i: true, d: false, ..c3.p },
                pc: mem_read_word(m3, vector),
                pbr: 0,
                ..c3
            },
            mem: m3,
            cycles: 7,
        }
    } else {
        let (c2, m2) = push8(c1, m, c.pbr);
        let (c3, m3) = push16(c2, m2, c1.pc);
        let (c4, m4) = push8(c3, m3, flags_byte(c.p));
        let vector: u32 = if brk { 0xFFE6 } else { 0xFFE4 };
        Effect {
            cpu: Cpu65816 {
                p: StatusFlags { i: true, d: false, ..c4.p },
                pc: mem_read_word(m4, vector),
                pbr: 0,
                ..c4
            },
            mem: m4,
            cycles: 8,
        }
    }
}

/// MVN and MVP: one byte moves from X in the source bank to Y in the
/// destination bank, X and Y step (up for MVN, down for MVP), A counts down,
/// DBR becomes the destination bank, and the instruction repeats until A
/// wraps to $FFFF.
pub open spec fn exec_block_move(c: Cpu65816, m: MemView, up: bool) -> Effect {
    let (dst, c1) = fetch8(c, m);
    let (src, c2) = fetch8(c1, m);
    let byte = mem_read(m, long_addr(src, c.x));
    let m2 = mem_write(m, long_addr(dst, c.y), byte);
    let wide = !c.p.x;
    let a = wsub16(c.a, 1);
    Effect {
        cpu: Cpu65816 {
            x: index_step(c.x, up, wide),
            y: index_step(c.y, up, wide),
            a,
            dbr: dst,
            pc: if a != 0xFFFF { wsub16(c2.pc, 3) } else { c2.pc },
            ..c2
        },
        mem: m2,
        cycles: 7,
    }
}

/// Instructions that work on registers and flags alone (REP and SEP also
/// fetch their mask).
pub open spec fn is_register_op(i: Instr) -> bool {
    match i {
        Instr::Inx | Instr::Iny | Instr::Dex | Instr::Dey | Instr::Tax | Instr::Tay | Instr::Tsx
        | Instr::Txa | Instr::Txs | Instr::Tya | Instr::Txy | Instr::Tyx | Instr::Tcd | Instr::Tcs
        | Instr::Tdc | Instr::Tsc | Instr::Xba | Instr::ClearFlag(_) | Instr::SetFlag(_)
        | Instr::Rep | Instr::Sep | Instr::Xce | Instr::Wai | Instr::Stp | Instr::Nop => true,
        _ => false,
    }
}

/// Pushes and pulls.
pub open spec fn is_stack_op(i: Instr) -> bool {
    match i {
        Instr::Pha | Instr::Pla | Instr::Php | Instr::Plp | Instr::Phx | Instr::Plx | Instr::Phy
        | Instr::Ply | Instr::Phb | Instr::Plb | Instr::Phd | Instr::Pld | Instr::Phk | Instr::Pea
        | Instr::Pei | Instr::Per => true,
        _ => false,
    }
}

/// Branches, jumps, calls and returns.
pub open spec fn is_flow_op(i: Instr) -> bool {
    match i {
        Instr::Branch(_) | Instr::Jmp | Instr::Jsr | Instr::Rts | Instr::Jml | Instr::JmlIndirect
        | Instr::Jsl | Instr::Rtl => true,
        _ => false,
    }
}

/// Register transfers, counting, flag changes and mode switches.
pub open spec fn exec_register(i: Instr, c: Cpu65816, m: MemView) -> Effect {
    match i {
        Instr::Inx => {
            let v = index_step(c.x, true, !c.p.x);
            Effect { cpu: Cpu65816 { x: v, p: set_nz(c.p, v, !c.p.x), ..c }, mem: m, cycles: 2 }
        },
        Instr::Iny => {
            let v = index_step(c.y, true, !c.p.x);
            Effect { cpu: Cpu65816 { y: v, p: set_nz(c.p, v, !c.p.x), ..c }, mem: m, cycles: 2 }
        },
        Instr::Dex => {
            let v = index_step(c.x, false, !c.p.x);
            Effect { cpu: Cpu65816 { x: v, p: set_nz(c.p, v, !c.p.x), ..c }, mem: m, cycles: 2 }
        },
        Instr::Dey => {
            let v = index_step(c.y, false, !c.p.x);
            Effect { cpu: Cpu65816 { y: v, p: set_nz(c.p, v, !c.p.x), ..c }, mem: m, cycles: 2 }
        },
        Instr::Tax => {
            let (v, p) = to_index(c, c.a);
            Effect { cpu: Cpu65816 { x: v, p, ..c }, mem: m, cycles: 2 }
        },
        Instr::Tay => {
            let (v, p) = to_index(c, c.a);
            Effect { cpu: Cpu65816 { y: v, p, ..c }, mem: m, cycles: 2 }
        },
        Instr::Tsx => {
            let (v, p) = to_index(c, c.s);
            Effect { cpu: Cpu65816 { x: v, p, ..c }, mem: m, cycles: 2 }
        },
        Instr::Txy => {
            let (v, p) = to_index(c, c.x);
            Effect { cpu: Cpu65816 { y: v, p, ..c }, mem: m, cycles: 2 }
        },
        Instr::Tyx => {
            let (v, p) = to_index(c, c.y);
            Effect { cpu: Cpu65816 { x: v, p, ..c }, mem: m, cycles: 2 }
        },
        Instr::Txa => Effect {
            cpu: Cpu65816 { a: merge_a(c.a, c.x, !c.p.m), p: set_nz(c.p, c.x, !c.p.m), ..c },
            mem: m,
            cycles: 2,
        },
        Instr::Tya => Effect {
            cpu: Cpu65816 { a: merge_a(c.a, c.y, !c.p.m), p: set_nz(c.p, c.y, !c.p.m), ..c },
            mem: m,
            cycles: 2,
        },
        Instr::Txs => Effect { cpu: Cpu65816 { s: stack_wrap(c.x, c.p.e), ..c }, mem: m, cycles: 2 },
        Instr::Tcd => Effect { cpu: Cpu65816 { d: c.a, p: nz16(c.p, c.a), ..c }, mem: m, cycles: 2 },
        Instr::Tcs => Effect { cpu: Cpu65816 { s: stack_wrap(c.a, c.p.e), ..c }, mem: m, cycles: 2 },
        Instr::Tdc => Effect { cpu: Cpu65816 { a: c.d, p: nz16(c.p, c.d), ..c }, mem: m, cycles: 2 },
        Instr::Tsc => Effect { cpu: Cpu65816 { a: c.s, p: nz16(c.p, c.s), ..c }, mem: m, cycles: 2 },
        Instr::Xba => {
            let a = ((c.a / 256) + (c.a % 256) * 256) as u16;
            Effect { cpu: Cpu65816 { a, p: nz8(c.p, (a % 256) as u8), ..c }, mem: m, cycles: 3 }
        },
        Instr::ClearFlag(f) => Effect { cpu: Cpu65816 { p: with_flag(c.p, f, false), ..c }, mem: m, cycles: 2 },
        Instr::SetFlag(f) => Effect { cpu: Cpu65816 { p: with_flag(c.p, f, true), ..c }, mem: m, cycles: 2 },
        Instr::Rep => {
            let (mask, c1) = fetch8(c, m);
            Effect { cpu: with_status(c1, flags_byte(c.p) & !mask), mem: m, cycles: 3 }
        },
        Instr::Sep => {
            let (mask, c1) = fetch8(c, m);
            Effect { cpu: with_status(c1, flags_byte(c.p) | mask), mem: m, cycles: 3 }
        },
        Instr::Xce => {
            let c1 = Cpu65816 { p: StatusFlags { c: c.p.e, e: c.p.c, ..c.p }, ..c };
            let c2 = if c1.p.e {
                Cpu65816 { s: stack_wrap(c1.s, true), ..c1 }
            } else {
                c1
            };
            Effect { cpu: normalize(c2), mem: m, cycles: 2 }
        },
        Instr::Wai => Effect { cpu: Cpu65816 { waiting: true, ..c }, mem: m, cycles: 3 },
        Instr::Stp => Effect { cpu: Cpu65816 { stopped: true, ..c }, mem: m, cycles: 3 },
        Instr::Nop => Effect { cpu: c, mem: m, cycles: 2 },
        _ => Effect { cpu: c, mem: m, cycles: 2 },
    }
}

/// Pushes and pulls.
pub open spec fn exec_stack(i: Instr, c: Cpu65816, m: MemView) -> Effect {
    match i {
        Instr::Pha => if c.p.m {
            let (c1, m1) = push8(c, m, (c.a % 256) as u8);
            Effect { cpu: c1, mem: m1, cycles: 3 }
        } else {
            let (c1, m1) = push16(c, m, c.a);
            Effect { cpu: c1, mem: m1, cycles: 4 }
        },
        Instr::Phx => if c.p.x {
            let (c1, m1) = push8(c, m, (c.x % 256) as u8);
            Effect { cpu: c1, mem: m1, cycles: 3 }
        } else {
            let (c1, m1) = push16(c, m, c.x);
            Effect { cpu: c1, mem: m1, cycles: 4 }
        },
        Instr::Phy => if c.p.x {
            let (c1, m1) = push8(c, m, (c.y % 256) as u8);
            Effect { cpu: c1, mem: m1, cycles: 3 }
        } else {
            let (c1, m1) = push16(c, m, c.y);
            Effect { cpu: c1, mem: m1, cycles: 4 }
        },
        Instr::Pla => if c.p.m {
            let (c1, v) = pull8(c, m);
            Effect {
                cpu: Cpu65816 { a: merge_a(c1.a, v as u16, false), p: nz8(c1.p, v), ..c1 },
                mem: m,
                cycles: 4,
            }
        } else {
            let (c1, v) = pull16(c, m);
            Effect { cpu: Cpu65816 { a: v, p: nz16(c1.p, v), ..c1 }, mem: m, cycles: 5 }
        },
        Instr::Plx => if c.p.x {
            let (c1, v) = pull8(c, m);
            Effect { cpu: Cpu65816 { x: v as u16, p: nz8(c1.p, v), ..c1 }, mem: m, cycles: 4 }
        } else {
            let (c1, v) = pull16(c, m);
            Effect { cpu: Cpu65816 { x: v, p: nz16(c1.p, v), ..c1 }, mem: m, cycles: 5 }
        },
        Instr::Ply => if c.p.x {
            let (c1, v) = pull8(c, m);
            Effect { cpu: Cpu65816 { y: v as u16, p: nz8(c1.p, v), ..c1 }, mem: m, cycles: 4 }
        } else {
            let (c1, v) = pull16(c, m);
            Effect { cpu: Cpu65816 { y: v, p: nz16(c1.p, v), ..c1 }, mem: m, cycles: 5 }
        },
        Instr::Php => {
            let (c1, m1) = push8(c, m, flags_byte(c.p));
            Effect { cpu: c1, mem: m1, cycles: 3 }
        },
        Instr::Plp => {
            let (c1, v) = pull8(c, m);
            Effect { cpu: with_status(c1, v), mem: m, cycles: 4 }
        },
        Instr::Phb => {
            let (c1, m1) = push8(c, m, c.dbr);
            Effect { cpu: c1, mem: m1, cycles: 3 }
        },
        Instr::Phk => {
            let (c1, m1) = push8(c, m, c.pbr);
            Effect { cpu: c1, mem: m1, cycles: 3 }
        },
        Instr::Phd => {
            let (c1, m1) = push16(c, m, c.d);
            Effect { cpu: c1, mem: m1, cycles: 4 }
        },
        Instr::Plb => {
            let (c1, v) = pull8(c, m);
            Effect { cpu: Cpu65816 { dbr: v, p: nz8(c1.p, v), ..c1 }, mem: m, cycles: 4 }
        },
        Instr::Pld => {
            let (c1, v) = pull16(c, m);
            Effect { cpu: Cpu65816 { d: v, p: nz16(c1.p, v), ..c1 }, mem: m, cycles: 5 }
        },
        Instr::Pea => {
            let (w, c1) = fetch16(c, m);
            let (c2, m2) = push16(c1, m, w);
            Effect { cpu: c2, mem: m2, cycles: 5 }
        },
        Instr::Pei => {
            let (o, c1) = fetch8(c, m);
            let w = mem_read_word(m, dp_address(c.d, o as u16));
            let (c2, m2) = push16(c1, m, w);
            Effect { cpu: c2, mem: m2, cycles: 6 }
        },
        Instr::Per => {
            let (rel, c1) = fetch16(c, m);
            let (c2, m2) = push16(c1, m, wadd16(c1.pc, rel));
            Effect { cpu: c2, mem: m2, cycles: 6 }
        },
        _ => Effect { cpu: c, mem: m, cycles: 2 },
    }
}

/// Branches, jumps, calls and returns.
pub open spec fn exec_flow(i: Instr, c: Cpu65816, m: MemView) -> Effect {
    match i {
        Instr::Branch(cond) => {
            let (o, c1) = fetch8(c, m);
            if cond_holds(cond, c.p) {
                Effect { cpu: Cpu65816 { pc: wadd16(c1.pc, sext8(o)), ..c1 }, mem: m, cycles: 3 }
            } else {
                Effect { cpu: c1, mem: m, cycles: 2 }
            }
        },
        Instr::Jmp => {
            let (w, c1) = fetch16(c, m);
            Effect { cpu: Cpu65816 { pc: w, ..c1 }, mem: m, cycles: 3 }
        },
        Instr::Jsr => {
            let (w, c1) = fetch16(c, m);
            let (c2, m2) = push16(c1, m, wsub16(c1.pc, 1));
            Effect { cpu: Cpu65816 { pc: w, ..c2 }, mem: m2, cycles: 6 }
        },
        Instr::Rts => {
            let (c1, w) = pull16(c, m);
            Effect { cpu: Cpu65816 { pc: wadd16(w, 1), ..c1 }, mem: m, cycles: 6 }
        },
        Instr::Jml => {
            let (w, c1) = fetch16(c, m);
            let (b, c2) = fetch8(c1, m);
            Effect { cpu: Cpu65816 { pc: w, pbr: b, ..c2 }, mem: m, cycles: 4 }
        },
        Instr::JmlIndirect => {
            let (ptr, c1) = fetch16(c, m);
            let lo = mem_read(m, ptr as u32);
            let hi = mem_read(m, wadd16(ptr, 1) as u32);
            let bank = mem_read(m, wadd16(ptr, 2) as u32);
            Effect { cpu: Cpu65816 { pc: word(lo, hi), pbr: bank, ..c1 }, mem: m, cycles: 6 }
        },
        Instr::Jsl => {
            let (w, c1) = fetch16(c, m);
            let (b, c2) = fetch8(c1, m);
            let (c3, m3) = push8(c2, m, c.pbr);
            let (c4, m4) = push16(c3, m3, wsub16(c2.pc, 1));
            Effect { cpu: Cpu65816 { pc: w, pbr: b, ..c4 }, mem: m4, cycles: 8 }
        },
        Instr::Rtl => {
            let (c1, w) = pull16(c, m);
            let (c2, b) = pull8(c1, m);
            Effect { cpu: Cpu65816 { pc: wadd16(w, 1), pbr: b, ..c2 }, mem: m, cycles: 6 }
        },
        _ => Effect { cpu: c, mem: m, cycles: 2 },
    }
}

/// RTI: the status is pulled (and the registers fitted to it), then the
/// return address, and in native mode the program bank.
pub open spec fn exec_rti(c: Cpu65816, m: MemView) -> Effect {
    let (c1, st) = pull8(c, m);
    let c2 = with_status(c1, st);
    let (c3, w) = pull16(c2, m);
    if c.p.e {
        Effect { cpu: Cpu65816 { pc: w, ..c3 }, mem: m, cycles: 6 }
    } else {
        let (c4, b) = pull8(c3, m);
        Effect { cpu: Cpu65816 { pc: w, pbr: b, ..c4 }, mem: m, cycles: 7 }
    }
}

/// Loads, stores, accumulator and read-modify-write operations,
/// interrupts, RTI and block moves.
pub open spec fn exec_other(i: Instr, c: Cpu65816, m: MemView) -> Effect {
    match i {
        Instr::Load(r, mode) => exec_load(c, m, r, mode),
        Instr::Store(r, mode) => exec_store(c, m, r, mode),
        Instr::Alu(op, mode) => exec_alu(c, m, op, mode),
        Instr::CompareX(mode) => exec_compare_index(c, m, c.x, mode),
        Instr::CompareY(mode) => exec_compare_index(c, m, c.y, mode),
        Instr::RmwA(op) => exec_rmw_a(c, m, op),
        Instr::RmwMem(op, mode) => exec_rmw_mem(c, m, op, mode),
        Instr::Brk => exec_interrupt(c, m, true),
        Instr::Cop => exec_interrupt(c, m, false),
        Instr::Rti => exec_rti(c, m),
        Instr::Mvn => exec_block_move(c, m, true),
        Instr::Mvp => exec_block_move(c, m, false),
        _ => Effect { cpu: c, mem: m, cycles: 2 },
    }
}

/// What one instruction does, its opcode already fetched (PC past it).
#[verifier::opaque]
pub open spec fn exec_instr(i: Instr, c: Cpu65816, m: MemView) -> Effect {
    if is_register_op(i) {
        exec_register(i, c, m)
    } else if is_stack_op(i) {
        exec_stack(i, c, m)
    } else if is_flow_op(i) {
        exec_flow(i, c, m)
    } else {
        exec_other(i, c, m)
    }
}

/// A register instruction does what `exec_register` says.
pub proof fn lemma_exec_register(i: Instr, c: Cpu65816, m: MemView)
    requires
        is_register_op(i),
    ensures
        exec_instr(i, c, m) == exec_register(i, c, m),
{
    reveal(exec_instr);
}

/// A push or pull does what `exec_stack` says.
pub proof fn lemma_exec_stack(i: Instr, c: Cpu65816, m: MemView)
    requires
        is_stack_op(i),
    ensures
        exec_instr(i, c, m) == exec_stack(i, c, m),
{
    reveal(exec_instr);
}

/// A branch, jump, call or return does what `exec_flow` says.
pub proof fn lemma_exec_flow(i: Instr, c: Cpu65816, m: MemView)
    requires
        is_flow_op(i),
    ensures
        exec_instr(i, c, m) == exec_flow(i, c, m),
{
    reveal(exec_instr);
}

/// Any other instruction does what `exec_other` says.
pub proof fn lemma_exec_other(i: Instr, c: Cpu65816, m: MemView)
    requires
        !is_register_op(i),
        !is_stack_op(i),
        !is_flow_op(i),
    ensures
        exec_instr(i, c, m) == exec_other(i, c, m),
{
    reveal(exec_instr);
}

/// What one step does: nothing but a cycle when stopped or waiting;
/// otherwise the opcode at PC is fetched and executed, and its cycles are
/// added to the counter.
pub open spec fn cpu_step(c: Cpu65816, m: MemView) -> Effect {
    if c.stopped || c.waiting {
        Effect { cpu: c, mem: m, cycles: 1 }
    } else {
        let (op, c1) = fetch8(c, m);
        let e = exec_instr(decode(op), c1, m);
        Effect { cpu: Cpu65816 { cycles: wadd64(e.cpu.cycles, e.cycles as u64), ..e.cpu }, ..e }
    }
}


/// The CPU after a reset (see `Cpu65816::reset`).
pub open spec fn cpu_reset(c: Cpu65816, m: MemView) -> Cpu65816 {
    Cpu65816 {
        pc: word(mem_read(m, 0xFFFC), mem_read(m, 0xFFFD)),
        pbr: 0,
        dbr: 0,
        d: 0,
        s: 0x01FF,
        p: StatusFlags { e: true, m: true, x: true, i: true, d: false, ..c.p },
        cycles: 0,
        stopped: false,
        waiting: false,
        ..c
    }
}

// ---------------------------------------------------------------------------
// Value computations
// ---------------------------------------------------------------------------

fn nz8_flags(p: StatusFlags, v: u8) -> (r: StatusFlags)
    ensures
        r == nz8(p, v),
{
    StatusFlags { n: (v & 0x80) != 0, z: v == 0, ..p }
}

fn nz16_flags(p: StatusFlags, v: u16) -> (r: StatusFlags)
    ensures
        r == nz16(p, v),
{
    StatusFlags { n: (v & 0x8000) != 0, z: v == 0, ..p }
}

fn set_nz_flags(p: StatusFlags, v: u16, wide: bool) -> (r: StatusFlags)
    ensures
        r == set_nz(p, v, wide),
{
    if wide {
        nz16_flags(p, v)
    } else {
        nz8_flags(p, (v & 0xFF) as u8)
    }
}

fn part(v: u16, wide: bool) -> (r: u16)
    ensures
        r == width_part(v, wide),
{
    if wide {
        v
    } else {
        v & 0xFF
    }
}

fn merge_acc(a: u16, v: u16, wide: bool) -> (r: u16)
    ensures
        r == merge_a(a, v, wide),
{
    if wide {
        v
    } else {
        (a & 0xFF00) | (v & 0xFF)
    }
}

fn top_bit(wide: bool) -> (r: u16)
    ensures
        r == sign_bit(wide),
{
    if wide {
        0x8000
    } else {
        0x80
    }
}

fn add_binary_exec(a: u16, v: u16, carry: bool, wide: bool) -> (r: (u16, bool, bool))
    ensures
        r == add_binary(a, v, carry, wide),
{
    let sum: u32 = a as u32 + v as u32 + if carry {
        1u32
    } else {
        0u32
    };
    let md: u32 = if wide {
        0x10000
    } else {
        0x100
    };
    let r = (sum % md) as u16;
    (r, sum >= md, ((!(a ^ v)) & (a ^ r) & top_bit(wide)) != 0)
}

fn digit_exec(v: u16, k: u16) -> (r: u16)
    requires
        k < 4,
    ensures
        r as int == digit(v, k as int),
{
    if k == 0 {
        v % 16
    } else if k == 1 {
        (v / 16) % 16
    } else if k == 2 {
        (v / 256) % 16
    } else {
        (v / 4096) % 16
    }
}

fn bcd_digit_add_exec(x: u16, y: u16, c: u16) -> (r: (u16, u16))
    requires
        x < 16,
        y < 16,
        c <= 1,
    ensures
        (r.0 as int, r.1 as int) == bcd_digit_add(x as int, y as int, c as int),
        r.0 < 16,
        r.1 <= 1,
{
    let t = x + y + c;
    if t > 9 {
        ((t + 6) % 16, 1)
    } else {
        (t, 0)
    }
}

fn bcd_digit_sub_exec(x: u16, y: u16, b: u16) -> (r: (u16, u16))
    requires
        x < 16,
        y < 16,
        b <= 1,
    ensures
        (r.0 as int, r.1 as int) == bcd_digit_sub(x as int, y as int, b as int),
        r.0 < 16,
        r.1 <= 1,
{
    let t: i32 = x as i32 - y as i32 - b as i32;
    if t < 0 {
        (((t + 26) % 16) as u16, 1)
    } else {
        (t as u16, 0)
    }
}

fn add_decimal_exec(a: u16, v: u16, carry: bool, wide: bool) -> (r: (u16, bool))
    ensures
        r == add_decimal(a, v, carry, wide),
{
    let d0 = bcd_digit_add_exec(digit_exec(a, 0), digit_exec(v, 0), if carry { 1 } else { 0 });
    let d1 = bcd_digit_add_exec(digit_exec(a, 1), digit_exec(v, 1), d0.1);
    if !wide {
        (d0.0 + 16 * d1.0, d1.1 == 1)
    } else {
        let d2 = bcd_digit_add_exec(digit_exec(a, 2), digit_exec(v, 2), d1.1);
        let d3 = bcd_digit_add_exec(digit_exec(a, 3), digit_exec(v, 3), d2.1);
        (d0.0 + 16 * d1.0 + 256 * d2.0 + 4096 * d3.0, d3.1 == 1)
    }
}

fn sub_decimal_exec(a: u16, v: u16, carry: bool, wide: bool) -> (r: (u16, bool))
    ensures
        r == sub_decimal(a, v, carry, wide),
{
    let d0 = bcd_digit_sub_exec(digit_exec(a, 0), digit_exec(v, 0), if carry { 0 } else { 1 });
    let d1 = bcd_digit_sub_exec(digit_exec(a, 1), digit_exec(v, 1), d0.1);
    if !wide {
        (d0.0 + 16 * d1.0, d1.1 == 0)
    } else {
        let d2 = bcd_digit_sub_exec(digit_exec(a, 2), digit_exec(v, 2), d1.1);
        let d3 = bcd_digit_sub_exec(digit_exec(a, 3), digit_exec(v, 3), d2.1);
        (d0.0 + 16 * d1.0 + 256 * d2.0 + 4096 * d3.0, d3.1 == 0)
    }
}

fn adc_exec(a: u16, v: u16, p: StatusFlags, wide: bool) -> (r: (u16, StatusFlags))
    ensures
        r == adc_value(a, v, p, wide),
{
    if p.d {
        let (r, c) = add_decimal_exec(a, v, p.c, wide);
        let ov = ((!(a ^ v)) & (a ^ r) & top_bit(wide)) != 0;
        (r, set_nz_flags(StatusFlags { c, v: ov, ..p }, r, wide))
    } else {
        let (r, c, ov) = add_binary_exec(a, v, p.c, wide);
        (r, set_nz_flags(StatusFlags { c, v: ov, ..p }, r, wide))
    }
}

fn sbc_exec(a: u16, v: u16, p: StatusFlags, wide: bool) -> (r: (u16, StatusFlags))
    ensures
        r == sbc_value(a, v, p, wide),
{
    if p.d {
        let (r, c) = sub_decimal_exec(a, v, p.c, wide);
        let ov = ((a ^ v) & (a ^ r) & top_bit(wide)) != 0;
        (r, set_nz_flags(StatusFlags { c, v: ov, ..p }, r, wide))
    } else {
        let inv = (!v) & (if wide {
            0xFFFFu16
        } else {
            0xFFu16
        });
        let (r, c, ov) = add_binary_exec(a, inv, p.c, wide);
        (r, set_nz_flags(StatusFlags { c, v: ov, ..p }, r, wide))
    }
}

fn compare_exec(reg: u16, v: u16, p: StatusFlags, wide: bool) -> (r: StatusFlags)
    requires
        wide || (reg < 256 && v < 256),
    ensures
        r == compare(reg, v, p, wide),
{
    let md: u32 = if wide {
        0x10000
    } else {
        0x100
    };
    let diff = ((reg as u32 + md - v as u32) % md) as u16;
    StatusFlags { c: reg >= v, ..set_nz_flags(p, diff, wide) }
}

fn alu_exec(op: AluOp, mode: Mode, full: u16, a: u16, v: u16, p: StatusFlags, wide: bool) -> (r: (
    u16,
    StatusFlags,
))
    requires
        wide || (a < 256 && v < 256),
    ensures
        r == alu_result(op, mode, full, a, v, p, wide),
{
    match op {
        AluOp::Adc => {
            let (r, p1) = adc_exec(a, v, p, wide);
            (merge_acc(full, r, wide), p1)
        },
        AluOp::Sbc => {
            let (r, p1) = sbc_exec(a, v, p, wide);
            (merge_acc(full, r, wide), p1)
        },
        AluOp::And => (merge_acc(full, a & v, wide), set_nz_flags(p, a & v, wide)),
        AluOp::Ora => (merge_acc(full, a | v, wide), set_nz_flags(p, a | v, wide)),
        AluOp::Eor => (merge_acc(full, a ^ v, wide), set_nz_flags(p, a ^ v, wide)),
        AluOp::Cmp => (full, compare_exec(a, v, p, wide)),
        AluOp::Bit => {
            if mode == Mode::Imm {
                (full, StatusFlags { z: (a & v) == 0, ..p })
            } else {
                let sign = top_bit(wide);
                (full, StatusFlags { z: (a & v) == 0, n: (v & sign) != 0, v: (v & (sign >> 1u16)) != 0, ..p })
            }
        },
    }
}

fn rmw_exec(op: RmwOp, v: u16, carry: bool, wide: bool) -> (r: (u16, bool))
    requires
        wide || v < 256,
    ensures
        r == rmw_value(op, v, carry, wide),
{
    let md: u32 = if wide {
        0x10000
    } else {
        0x100
    };
    let top = (v & top_bit(wide)) != 0;
    match op {
        RmwOp::Asl => (((v as u32 * 2) % md) as u16, top),
        RmwOp::Lsr => (v / 2, (v & 1) != 0),
        RmwOp::Rol => (((v as u32 * 2 + if carry {
            1u32
        } else {
            0u32
        }) % md) as u16, top),
        RmwOp::Ror => (v / 2 + if carry {
            top_bit(wide)
        } else {
            0u16
        }, (v & 1) != 0),
        RmwOp::Inc => (((v as u32 + 1) % md) as u16, carry),
        RmwOp::Dec => (((v as u32 + md - 1) % md) as u16, carry),
    }
}

fn index_step_exec(v: u16, up: bool, wide: bool) -> (r: u16)
    ensures
        r == index_step(v, up, wide),
{
    let md: u32 = if wide {
        0x10000
    } else {
        0x100
    };
    let w = part(v, wide) as u32;
    assert(w < md) by (bit_vector)
        requires
            w == (if wide { v } else { v & 0xFF }) as u32,
            md == (if wide { 0x10000u32 } else { 0x100u32 }),
    ;
    (if up {
        (w + 1) % md
    } else {
        (w + md - 1) % md
    }) as u16
}

fn flag_update(p: StatusFlags, f: Flag, on: bool) -> (r: StatusFlags)
    ensures
        r == with_flag(p, f, on),
{
    match f {
        Flag::Carry => StatusFlags { c: on, ..p },
        Flag::Decimal => StatusFlags { d: on, ..p },
        Flag::IrqDisable => StatusFlags { i: on, ..p },
        Flag::Overflow => StatusFlags { v: on, ..p },
    }
}

fn cond_exec(cond: Cond, p: StatusFlags) -> (r: bool)
    ensures
        r == cond_holds(cond, p),
{
    match cond {
        Cond::CarryClear => !p.c,
        Cond::CarrySet => p.c,
        Cond::Equal => p.z,
        Cond::Minus => p.n,
        Cond::NotEqual => !p.z,
        Cond::Plus => !p.n,
        Cond::OverflowClear => !p.v,
        Cond::OverflowSet => p.v,
        Cond::Always => true,
    }
}

fn wrap_stack(s: u16, e: bool) -> (r: u16)
    ensures
        r == stack_wrap(s, e),
{
    if e {
        0x0100u16 | (s & 0xFF)
    } else {
        s
    }
}


// ---------------------------------------------------------------------------
// Execution
// ---------------------------------------------------------------------------

/// The effect observed after an instruction helper ran.
pub open spec fn observed(c: Cpu65816, m: &Memory, cycles: u8) -> Effect {
    Effect { cpu: c, mem: m@, cycles }
}

impl Cpu65816 {
    /// A CPU at power-on.
    pub fn new() -> (c: Self)
        ensures
            c == cpu_init(),
    {
        Cpu65816 {
            a: 0,
            x: 0,
            y: 0,
            s: 0x01FF,
            d: 0,
            pc: 0,
            pbr: 0,
            dbr: 0,
            p: StatusFlags::new(),
            cycles: 0,
            stopped: false,
            waiting: false,
        }
    }

    /// The address the next instruction byte comes from.
    fn pc_addr(&self) -> (r: u32)
        ensures
            r == pc_address(*self),
    {
        ((self.pbr as u32) << 16u32) | (self.pc as u32)
    }

    /// Fetches the byte at PC and advances PC.
    fn fetch_byte(&mut self, memory: &Memory) -> (v: u8)
        requires
            memory.wf(),
        ensures
            (v, *final(self)) == fetch8(*old(self), memory@),
    {
        let addr = self.pc_addr();
        let value = memory.read(addr);
        self.pc = add16(self.pc, 1);
        value
    }

    /// Fetches a little-endian word at PC and advances PC by two.
    fn fetch_word(&mut self, memory: &Memory) -> (v: u16)
        requires
            memory.wf(),
        ensures
            (v, *final(self)) == fetch16(*old(self), memory@),
    {
        let lo = self.fetch_byte(memory);
        let hi = self.fetch_byte(memory);
        make_word(lo, hi)
    }

    /// The effective address of a memory operand; fetches its bytes.
    fn effective_address(&mut self, memory: &Memory, mode: Mode) -> (addr: u32)
        requires
            memory.wf(),
        ensures
            (addr, *final(self)) == effective_addr(*old(self), memory@, mode),
    {
        match mode {
            Mode::Dp => {
                let offset = self.fetch_byte(memory) as u16;
                add16(self.d, offset) as u32
            },
            Mode::DpX => {
                let offset = self.fetch_byte(memory) as u16;
                add16(add16(self.d, offset), self.x) as u32
            },
            Mode::DpY => {
                let offset = self.fetch_byte(memory) as u16;
                add16(add16(self.d, offset), self.y) as u32
            },
            Mode::Abs => {
                let w = self.fetch_word(memory);
                ((self.dbr as u32) << 16u32) | (w as u32)
            },
            Mode::AbsX => {
                let w = add16(self.fetch_word(memory), self.x);
                ((self.dbr as u32) << 16u32) | (w as u32)
            },
            Mode::AbsY => {
                let w = add16(self.fetch_word(memory), self.y);
                ((self.dbr as u32) << 16u32) | (w as u32)
            },
            Mode::Imm => self.pc_addr(),
        }
    }

    /// Reads a value of the given width.
    fn read_value(memory: &Memory, addr: u32, wide: bool) -> (v: u16)
        requires
            memory.wf(),
        ensures
            v == read_sized(memory@, addr, wide),
            !wide ==> v < 256,
    {
        if wide {
            memory.read_word(addr)
        } else {
            memory.read(addr) as u16
        }
    }

    /// Writes a value of the given width.
    fn write_value(memory: &mut Memory, addr: u32, v: u16, wide: bool)
        requires
            old(memory).wf(),
        ensures
            final(memory).wf(),
            final(memory)@ == write_sized(old(memory)@, addr, v, wide),
    {
        if wide {
            memory.write_word(addr, v);
        } else {
            memory.write(addr, (v & 0xFF) as u8);
        }
    }

    /// The operand of the given width.
    fn read_operand(&mut self, memory: &Memory, mode: Mode, wide: bool) -> (v: u16)
        requires
            memory.wf(),
        ensures
            (v, *final(self)) == operand(*old(self), memory@, mode, wide),
            !wide ==> v < 256,
    {
        if mode == Mode::Imm {
            if wide {
                self.fetch_word(memory)
            } else {
                self.fetch_byte(memory) as u16
            }
        } else {
            let addr = self.effective_address(memory, mode);
            Self::read_value(memory, addr, wide)
        }
    }

    /// The stack address.
    fn stack_address(&self) -> (r: u32)
        ensures
            r == stack_addr(*self),
    {
        if self.p.e {
            (0x0100u16 | (self.s & 0xFF)) as u32
        } else {
            self.s as u32
        }
    }

    /// Pushes a byte.
    pub fn push_byte(&mut self, memory: &mut Memory, value: u8)
        requires
            old(memory).wf(),
        ensures
            final(memory).wf(),
            (*final(self), final(memory)@) == push8(*old(self), old(memory)@, value),
    {
        let addr = self.stack_address();
        memory.write(addr, value);
        self.s = wrap_stack(sub16(self.s, 1), self.p.e);
    }

    /// Pushes a word, high byte first.
    pub fn push_word(&mut self, memory: &mut Memory, value: u16)
        requires
            old(memory).wf(),
        ensures
            final(memory).wf(),
            (*final(self), final(memory)@) == push16(*old(self), old(memory)@, value),
    {
        self.push_byte(memory, (value / 256) as u8);
        self.push_byte(memory, (value % 256) as u8);
    }

    /// Pulls a byte.
    pub fn pull_byte(&mut self, memory: &Memory) -> (v: u8)
        requires
            memory.wf(),
        ensures
            (*final(self), v) == pull8(*old(self), memory@),
    {
        self.s = wrap_stack(add16(self.s, 1), self.p.e);
        let addr = self.stack_address();
        memory.read(addr)
    }

    /// Pulls a word, low byte first.
    pub fn pull_word(&mut self, memory: &Memory) -> (v: u16)
        requires
            memory.wf(),
        ensures
            (*final(self), v) == pull16(*old(self), memory@),
    {
        let lo = self.pull_byte(memory);
        let hi = self.pull_byte(memory);
        make_word(lo, hi)
    }

    /// Enforces the register widths of the mode (see `normalize`).
    fn normalize_registers(&mut self)
        ensures
            *final(self) == normalize(*old(self)),
    {
        if self.p.e {
            self.p.m = true;
            self.p.x = true;
        }
        if self.p.x {
            self.x = self.x & 0xFF;
            self.y = self.y & 0xFF;
        }
    }

    /// Loads a status byte (E stays) and enforces the register widths.
    fn set_status(&mut self, value: u8)
        ensures
            *final(self) == with_status(*old(self), value),
    {
        self.p.from_byte(value);
        self.normalize_registers();
    }
}


impl Cpu65816 {
    /// LDA/LDX/LDY.
    fn op_load(&mut self, memory: &Memory, r: Reg, mode: Mode) -> (cycles: u8)
        requires
            memory.wf(),
        ensures
            exec_load(*old(self), memory@, r, mode) == observed(*final(self), memory, cycles),
    {
        let wide = match r {
            Reg::A | Reg::Zero => !self.p.m,
            _ => !self.p.x,
        };
        let v = self.read_operand(memory, mode, wide);
        match r {
            Reg::A => {
                self.a = merge_acc(self.a, v, wide);
                self.p = set_nz_flags(self.p, v, wide);
            },
            Reg::X => {
                self.x = v;
                self.p = set_nz_flags(self.p, v, wide);
            },
            Reg::Y => {
                self.y = v;
                self.p = set_nz_flags(self.p, v, wide);
            },
            Reg::Zero => {},
        }
        let base: u8 = match mode {
            Mode::Imm => 2,
            Mode::Dp => 3,
            _ => 4,
        };
        if wide {
            base + 1
        } else {
            base
        }
    }

    /// STA/STX/STY/STZ.
    fn op_store(&mut self, memory: &mut Memory, r: Reg, mode: Mode) -> (cycles: u8)
        requires
            old(memory).wf(),
        ensures
            final(memory).wf(),
            exec_store(*old(self), old(memory)@, r, mode) == observed(
                *final(self),
                final(memory),
                cycles,
            ),
    {
        let wide = match r {
            Reg::A | Reg::Zero => !self.p.m,
            _ => !self.p.x,
        };
        let value = match r {
            Reg::A => self.a,
            Reg::X => self.x,
            Reg::Y => self.y,
            Reg::Zero => 0,
        };
        let addr = self.effective_address(memory, mode);
        Self::write_value(memory, addr, value, wide);
        let base: u8 = match mode {
            Mode::Dp => 3,
            Mode::DpX | Mode::DpY | Mode::Abs => 4,
            _ => 5,
        };
        if wide {
            base + 1
        } else {
            base
        }
    }

    /// ADC SBC AND ORA EOR CMP BIT.
    fn op_alu(&mut self, memory: &Memory, op: AluOp, mode: Mode) -> (cycles: u8)
        requires
            memory.wf(),
        ensures
            exec_alu(*old(self), memory@, op, mode) == observed(*final(self), memory, cycles),
    {
        let wide = !self.p.m;
        let ghost a0 = self.a;
        let a = part(self.a, wide);
        let v = self.read_operand(memory, mode, wide);
        assert(wide || a < 256) by (bit_vector)
            requires
                a == (if wide { a0 } else { a0 & 0xFF }),
        ;
        let (new_a, new_p) = alu_exec(op, mode, self.a, a, v, self.p, wide);
        self.a = new_a;
        self.p = new_p;
        let base: u8 = match mode {
            Mode::Imm => 2,
            Mode::Dp => 3,
            _ => 4,
        };
        if wide {
            base + 1
        } else {
            base
        }
    }

    /// CPX/CPY.
    fn op_compare_index(&mut self, memory: &Memory, use_y: bool, mode: Mode) -> (cycles: u8)
        requires
            memory.wf(),
        ensures
            exec_compare_index(
                *old(self),
                memory@,
                if use_y { old(self).y } else { old(self).x },
                mode,
            ) == observed(*final(self), memory, cycles),
    {
        let wide = !self.p.x;
        let reg = part(if use_y {
            self.y
        } else {
            self.x
        }, wide);
        let ghost r0 = if use_y { old(self).y } else { old(self).x };
        assert(wide || reg < 256) by (bit_vector)
            requires
                reg == (if wide { r0 } else { r0 & 0xFF }),
        ;
        let v = self.read_operand(memory, mode, wide);
        self.p = compare_exec(reg, v, self.p, wide);
        let base: u8 = match mode {
            Mode::Imm => 2,
            Mode::Dp => 3,
            _ => 4,
        };
        if wide {
            base + 1
        } else {
            base
        }
    }

    /// ASL/LSR/ROL/ROR/INC/DEC of the accumulator.
    fn op_rmw_a(&mut self, memory: &Memory, op: RmwOp) -> (cycles: u8)
        ensures
            exec_rmw_a(*old(self), memory@, op) == observed(*final(self), memory, cycles),
    {
        let wide = !self.p.m;
        let ghost a0 = self.a;
        let v = part(self.a, wide);
        assert(wide || v < 256) by (bit_vector)
            requires
                v == (if wide { a0 } else { a0 & 0xFF }),
        ;
        let (r, carry) = rmw_exec(op, v, self.p.c, wide);
        self.a = merge_acc(self.a, r, wide);
        self.p.c = carry;
        self.p = set_nz_flags(self.p, r, wide);
        2
    }

    /// ASL/LSR/ROL/ROR/INC/DEC of memory.
    fn op_rmw_mem(&mut self, memory: &mut Memory, op: RmwOp, mode: Mode) -> (cycles: u8)
        requires
            old(memory).wf(),
        ensures
            final(memory).wf(),
            exec_rmw_mem(*old(self), old(memory)@, op, mode) == observed(
                *final(self),
                final(memory),
                cycles,
            ),
    {
        let wide = !self.p.m;
        let carry_in = self.p.c;
        let addr = self.effective_address(memory, mode);
        let v = Self::read_value(memory, addr, wide);
        let (r, carry) = rmw_exec(op, v, carry_in, wide);
        Self::write_value(memory, addr, r, wide);
        self.p.c = carry;
        self.p = set_nz_flags(self.p, r, wide);
        let base: u8 = match mode {
            Mode::Dp => 5,
            Mode::AbsX => 7,
            _ => 6,
        };
        if wide {
            base + 2
        } else {
            base
        }
    }

    /// BRK and COP.
    fn op_interrupt(&mut self, memory: &mut Memory, brk: bool) -> (cycles: u8)
        requires
            old(memory).wf(),
        ensures
            final(memory).wf(),
            exec_interrupt(*old(self), old(memory)@, brk) == observed(
                *final(self),
                final(memory),
                cycles,
            ),
    {
        let status = self.p.to_byte();
        let emulation = self.p.e;
        let pbr = self.pbr;
        let _signature = self.fetch_byte(memory);
        let return_pc = self.pc;
        if emulation {
            self.push_word(memory, return_pc);
            self.push_byte(memory, status | if brk {
                0x10u8
            } else {
                0u8
            });
            self.p.i = true;
            self.p.d = false;
            let vector: u32 = if brk {
                0xFFFE
            } else {
                0xFFF4
            };
            self.pc = memory.read_word(vector);
            self.pbr = 0;
            7
        } else {
            self.push_byte(memory, pbr);
            self.push_word(memory, return_pc);
            self.push_byte(memory, status);
            self.p.i = true;
            self.p.d = false;
            let vector: u32 = if brk {
                0xFFE6
            } else {
                0xFFE4
            };
            self.pc = memory.read_word(vector);
            self.pbr = 0;
            8
        }
    }

    /// MVN and MVP.
    fn op_block_move(&mut self, memory: &mut Memory, up: bool) -> (cycles: u8)
        requires
            old(memory).wf(),
        ensures
            final(memory).wf(),
            exec_block_move(*old(self), old(memory)@, up) == observed(
                *final(self),
                final(memory),
                cycles,
            ),
    {
        let dst = self.fetch_byte(memory);
        let src = self.fetch_byte(memory);
        let src_addr = ((src as u32) << 16u32) | (self.x as u32);
        let dst_addr = ((dst as u32) << 16u32) | (self.y as u32);
        let byte = memory.read(src_addr);
        memory.write(dst_addr, byte);
        let wide = !self.p.x;
        self.x = index_step_exec(self.x, up, wide);
        self.y = index_step_exec(self.y, up, wide);
        self.a = sub16(self.a, 1);
        self.dbr = dst;
        if self.a != 0xFFFF {
            self.pc = sub16(self.pc, 3);
        }
        7
    }

    /// RTI.
    fn op_rti(&mut self, memory: &Memory) -> (cycles: u8)
        requires
            memory.wf(),
        ensures
            exec_rti(*old(self), memory@) == observed(*final(self), memory, cycles),
    {
        let emulation = self.p.e;
        let status = self.pull_byte(memory);
        self.set_status(status);
        let pc = self.pull_word(memory);
        if emulation {
            self.pc = pc;
            6
        } else {
            let bank = self.pull_byte(memory);
            self.pc = pc;
            self.pbr = bank;
            7
        }
    }
}


impl Cpu65816 {
    /// INX INY DEX DEY.
    #[verifier::spinoff_prover]
    fn op_count(&mut self, memory: &Memory, instr: Instr) -> (cycles: u8)
        requires
            instr is Inx || instr is Iny || instr is Dex || instr is Dey,
        ensures
            exec_register(instr, *old(self), memory@) == observed(*final(self), memory, cycles),
    {
        let wide = !self.p.x;
        let up = matches!(instr, Instr::Inx | Instr::Iny);
        let on_y = matches!(instr, Instr::Iny | Instr::Dey);
        let v = index_step_exec(if on_y { self.y } else { self.x }, up, wide);
        if on_y {
            self.y = v;
        } else {
            self.x = v;
        }
        self.p = set_nz_flags(self.p, v, wide);
        2
    }

    /// TAX TAY TSX TXY TYX: a transfer into an index register.
    #[verifier::spinoff_prover]
    fn op_to_index(&mut self, memory: &Memory, instr: Instr) -> (cycles: u8)
        requires
            instr is Tax || instr is Tay || instr is Tsx || instr is Txy || instr is Tyx,
        ensures
            exec_register(instr, *old(self), memory@) == observed(*final(self), memory, cycles),
    {
        let wide = !self.p.x;
        let source = match instr {
            Instr::Tsx => self.s,
            Instr::Txy => self.x,
            Instr::Tyx => self.y,
            _ => self.a,
        };
        let v = part(source, wide);
        if matches!(instr, Instr::Tay | Instr::Txy) {
            self.y = v;
        } else {
            self.x = v;
        }
        self.p = set_nz_flags(self.p, v, wide);
        2
    }

    /// TXA TYA TXS TCD TCS TDC TSC XBA.
    #[verifier::spinoff_prover]
    fn op_transfer(&mut self, memory: &Memory, instr: Instr) -> (cycles: u8)
        requires
            instr is Txa || instr is Tya || instr is Txs || instr is Tcd || instr is Tcs
                || instr is Tdc || instr is Tsc || instr is Xba,
        ensures
            exec_register(instr, *old(self), memory@) == observed(*final(self), memory, cycles),
    {
        let wide = !self.p.m;
        match instr {
            Instr::Txa => {
                self.a = merge_acc(self.a, self.x, wide);
                self.p = set_nz_flags(self.p, self.x, wide);
                2
            },
            Instr::Tya => {
                self.a = merge_acc(self.a, self.y, wide);
                self.p = set_nz_flags(self.p, self.y, wide);
                2
            },
            Instr::Txs => {
                self.s = wrap_stack(self.x, self.p.e);
                2
            },
            Instr::Tcd => {
                self.d = self.a;
                self.p = nz16_flags(self.p, self.a);
                2
            },
            Instr::Tcs => {
                self.s = wrap_stack(self.a, self.p.e);
                2
            },
            Instr::Tdc => {
                self.a = self.d;
                self.p = nz16_flags(self.p, self.d);
                2
            },
            Instr::Tsc => {
                self.a = self.s;
                self.p = nz16_flags(self.p, self.s);
                2
            },
            _ => {
                let swapped = (self.a / 256) + (self.a % 256) * 256;
                self.a = swapped;
                self.p = nz8_flags(self.p, (swapped % 256) as u8);
                3
            },
        }
    }

    /// CLC CLD CLI CLV SEC SED SEI REP SEP XCE WAI STP NOP.
    #[verifier::spinoff_prover]
    fn op_status(&mut self, memory: &Memory, instr: Instr) -> (cycles: u8)
        requires
            memory.wf(),
            instr is ClearFlag || instr is SetFlag || instr is Rep || instr is Sep || instr is Xce
                || instr is Wai || instr is Stp || instr is Nop,
        ensures
            exec_register(instr, *old(self), memory@) == observed(*final(self), memory, cycles),
    {
        match instr {
            Instr::ClearFlag(f) => {
                self.p = flag_update(self.p, f, false);
                2
            },
            Instr::SetFlag(f) => {
                self.p = flag_update(self.p, f, true);
                2
            },
            Instr::Rep => {
                let status = self.p.to_byte();
                let mask = self.fetch_byte(memory);
                self.set_status(status & !mask);
                3
            },
            Instr::Sep => {
                let status = self.p.to_byte();
                let mask = self.fetch_byte(memory);
                self.set_status(status | mask);
                3
            },
            Instr::Xce => {
                let carry = self.p.c;
                self.p.c = self.p.e;
                self.p.e = carry;
                if self.p.e {
                    self.s = wrap_stack(self.s, true);
                }
                self.normalize_registers();
                2
            },
            Instr::Wai => {
                self.waiting = true;
                3
            },
            Instr::Stp => {
                self.stopped = true;
                3
            },
            _ => 2,
        }
    }

    /// PHA PHX PHY: a register at its width.
    #[verifier::spinoff_prover]
    fn op_push_register(&mut self, memory: &mut Memory, instr: Instr) -> (cycles: u8)
        requires
            old(memory).wf(),
            instr is Pha || instr is Phx || instr is Phy,
        ensures
            final(memory).wf(),
            exec_stack(instr, *old(self), old(memory)@) == observed(
                *final(self),
                final(memory),
                cycles,
            ),
    {
        let (value, narrow) = match instr {
            Instr::Pha => (self.a, self.p.m),
            Instr::Phx => (self.x, self.p.x),
            _ => (self.y, self.p.x),
        };
        if narrow {
            self.push_byte(memory, (value % 256) as u8);
            3
        } else {
            self.push_word(memory, value);
            4
        }
    }

    /// PLA PLX PLY: a register at its width.
    #[verifier::spinoff_prover]
    fn op_pull_register(&mut self, memory: &Memory, instr: Instr) -> (cycles: u8)
        requires
            memory.wf(),
            instr is Pla || instr is Plx || instr is Ply,
        ensures
            exec_stack(instr, *old(self), memory@) == observed(*final(self), memory, cycles),
    {
        let narrow = if matches!(instr, Instr::Pla) {
            self.p.m
        } else {
            self.p.x
        };
        if narrow {
            let v = self.pull_byte(memory);
            match instr {
                Instr::Pla => self.a = merge_acc(self.a, v as u16, false),
                Instr::Plx => self.x = v as u16,
                _ => self.y = v as u16,
            }
            self.p = nz8_flags(self.p, v);
            4
        } else {
            let v = self.pull_word(memory);
            match instr {
                Instr::Pla => self.a = v,
                Instr::Plx => self.x = v,
                _ => self.y = v,
            }
            self.p = nz16_flags(self.p, v);
            5
        }
    }

    /// PHP PHB PHK PHD PEA PEI PER.
    #[verifier::spinoff_prover]
    fn op_push_other(&mut self, memory: &mut Memory, instr: Instr) -> (cycles: u8)
        requires
            old(memory).wf(),
            instr is Php || instr is Phb || instr is Phk || instr is Phd || instr is Pea
                || instr is Pei || instr is Per,
        ensures
            final(memory).wf(),
            exec_stack(instr, *old(self), old(memory)@) == observed(
                *final(self),
                final(memory),
                cycles,
            ),
    {
        match instr {
            Instr::Php => {
                let status = self.p.to_byte();
                self.push_byte(memory, status);
                3
            },
            Instr::Phb => {
                self.push_byte(memory, self.dbr);
                3
            },
            Instr::Phk => {
                self.push_byte(memory, self.pbr);
                3
            },
            Instr::Phd => {
                self.push_word(memory, self.d);
                4
            },
            Instr::Pea => {
                let w = self.fetch_word(memory);
                self.push_word(memory, w);
                5
            },
            Instr::Pei => {
                let offset = self.fetch_byte(memory);
                let w = memory.read_word(add16(self.d, offset as u16) as u32);
                self.push_word(memory, w);
                6
            },
            _ => {
                let rel = self.fetch_word(memory);
                let target = add16(self.pc, rel);
                self.push_word(memory, target);
                6
            },
        }
    }

    /// PLP PLB PLD.
    #[verifier::spinoff_prover]
    fn op_pull_other(&mut self, memory: &Memory, instr: Instr) -> (cycles: u8)
        requires
            memory.wf(),
            instr is Plp || instr is Plb || instr is Pld,
        ensures
            exec_stack(instr, *old(self), memory@) == observed(*final(self), memory, cycles),
    {
        match instr {
            Instr::Plp => {
                let v = self.pull_byte(memory);
                self.set_status(v);
                4
            },
            Instr::Plb => {
                let v = self.pull_byte(memory);
                self.dbr = v;
                self.p = nz8_flags(self.p, v);
                4
            },
            _ => {
                let v = self.pull_word(memory);
                self.d = v;
                self.p = nz16_flags(self.p, v);
                5
            },
        }
    }

    /// Branches: the displacement is fetched, and added to PC when the
    /// condition holds.
    #[verifier::spinoff_prover]
    fn op_branch(&mut self, memory: &Memory, cond: Cond) -> (cycles: u8)
        requires
            memory.wf(),
        ensures
            exec_flow(Instr::Branch(cond), *old(self), memory@) == observed(
                *final(self),
                memory,
                cycles,
            ),
    {
        let taken = cond_exec(cond, self.p);
        let offset = self.fetch_byte(memory);
        if taken {
            self.pc = add16(self.pc, sign_extend8(offset));
            3
        } else {
            2
        }
    }

    /// JMP JML and JML [addr].
    #[verifier::spinoff_prover]
    fn op_jump(&mut self, memory: &Memory, instr: Instr) -> (cycles: u8)
        requires
            memory.wf(),
            instr is Jmp || instr is Jml || instr is JmlIndirect,
        ensures
            exec_flow(instr, *old(self), memory@) == observed(*final(self), memory, cycles),
    {
        match instr {
            Instr::Jmp => {
                let w = self.fetch_word(memory);
                self.pc = w;
                3
            },
            Instr::Jml => {
                let w = self.fetch_word(memory);
                let bank = self.fetch_byte(memory);
                self.pc = w;
                self.pbr = bank;
                4
            },
            _ => {
                let ptr = self.fetch_word(memory);
                let lo = memory.read(ptr as u32);
                let hi = memory.read(add16(ptr, 1) as u32);
                let bank = memory.read(add16(ptr, 2) as u32);
                self.pc = make_word(lo, hi);
                self.pbr = bank;
                6
            },
        }
    }

    /// JSR and JSL: the return address less one is pushed (and the program
    /// bank, for JSL).
    #[verifier::spinoff_prover]
    fn op_call(&mut self, memory: &mut Memory, long: bool) -> (cycles: u8)
        requires
            old(memory).wf(),
        ensures
            final(memory).wf(),
            exec_flow(if long { Instr::Jsl } else { Instr::Jsr }, *old(self), old(memory)@)
                == observed(*final(self), final(memory), cycles),
    {
        let pbr = self.pbr;
        let w = self.fetch_word(memory);
        if long {
            let bank = self.fetch_byte(memory);
            let ret = sub16(self.pc, 1);
            self.push_byte(memory, pbr);
            self.push_word(memory, ret);
            self.pc = w;
            self.pbr = bank;
            8
        } else {
            let ret = sub16(self.pc, 1);
            self.push_word(memory, ret);
            self.pc = w;
            6
        }
    }

    /// RTS and RTL.
    #[verifier::spinoff_prover]
    fn op_return(&mut self, memory: &Memory, long: bool) -> (cycles: u8)
        requires
            memory.wf(),
        ensures
            exec_flow(if long { Instr::Rtl } else { Instr::Rts }, *old(self), memory@) == observed(
                *final(self),
                memory,
                cycles,
            ),
    {
        let w = self.pull_word(memory);
        if long {
            let bank = self.pull_byte(memory);
            self.pbr = bank;
        }
        self.pc = add16(w, 1);
        6
    }
}

/// Decodes an opcode (see `decode`).
pub fn decode_opcode(op: u8) -> (i: Instr)
    ensures
        i == decode(op),
{
    match op {
        0xA9 => Instr::Load(Reg::A, Mode::Imm),
        0xA5 => Instr::Load(Reg::A, Mode::Dp),
        0xB5 => Instr::Load(Reg::A, Mode::DpX),
        0xAD => Instr::Load(Reg::A, Mode::Abs),
        0xBD => Instr::Load(Reg::A, Mode::AbsX),
        0xB9 => Instr::Load(Reg::A, Mode::AbsY),
        0xA2 => Instr::Load(Reg::X, Mode::Imm),
        0xA6 => Instr::Load(Reg::X, Mode::Dp),
        0xB6 => Instr::Load(Reg::X, Mode::DpY),
        0xAE => Instr::Load(Reg::X, Mode::Abs),
        0xBE => Instr::Load(Reg::X, Mode::AbsY),
        0xA0 => Instr::Load(Reg::Y, Mode::Imm),
        0xA4 => Instr::Load(Reg::Y, Mode::Dp),
        0xB4 => Instr::Load(Reg::Y, Mode::DpX),
        0xAC => Instr::Load(Reg::Y, Mode::Abs),
        0xBC => Instr::Load(Reg::Y, Mode::AbsX),
        0x85 => Instr::Store(Reg::A, Mode::Dp),
        0x95 => Instr::Store(Reg::A, Mode::DpX),
        0x8D => Instr::Store(Reg::A, Mode::Abs),
        0x9D => Instr::Store(Reg::A, Mode::AbsX),
        0x99 => Instr::Store(Reg::A, Mode::AbsY),
        0x86 => Instr::Store(Reg::X, Mode::Dp),
        0x96 => Instr::Store(Reg::X, Mode::DpY),
        0x8E => Instr::Store(Reg::X, Mode::Abs),
        0x84 => Instr::Store(Reg::Y, Mode::Dp),
        0x94 => Instr::Store(Reg::Y, Mode::DpX),
        0x8C => Instr::Store(Reg::Y, Mode::Abs),
        0x64 => Instr::Store(Reg::Zero, Mode::Dp),
        0x74 => Instr::Store(Reg::Zero, Mode::DpX),
        0x9C => Instr::Store(Reg::Zero, Mode::Abs),
        0x9E => Instr::Store(Reg::Zero, Mode::AbsX),
        0x69 => Instr::Alu(AluOp::Adc, Mode::Imm),
        0x65 => Instr::Alu(AluOp::Adc, Mode::Dp),
        0x75 => Instr::Alu(AluOp::Adc, Mode::DpX),
        0x6D => Instr::Alu(AluOp::Adc, Mode::Abs),
        0x7D => Instr::Alu(AluOp::Adc, Mode::AbsX),
        0x79 => Instr::Alu(AluOp::Adc, Mode::AbsY),
        0xE9 => Instr::Alu(AluOp::Sbc, Mode::Imm),
        0xE5 => Instr::Alu(AluOp::Sbc, Mode::Dp),
        0xF5 => Instr::Alu(AluOp::Sbc, Mode::DpX),
        0xED => Instr::Alu(AluOp::Sbc, Mode::Abs),
        0xFD => Instr::Alu(AluOp::Sbc, Mode::AbsX),
        0xF9 => Instr::Alu(AluOp::Sbc, Mode::AbsY),
        0x29 => Instr::Alu(AluOp::And, Mode::Imm),
        0x25 => Instr::Alu(AluOp::And, Mode::Dp),
        0x35 => Instr::Alu(AluOp::And, Mode::DpX),
        0x2D => Instr::Alu(AluOp::And, Mode::Abs),
        0x3D => Instr::Alu(AluOp::And, Mode::AbsX),
        0x39 => Instr::Alu(AluOp::And, Mode::AbsY),
        0x09 => Instr::Alu(AluOp::Ora, Mode::Imm),
        0x05 => Instr::Alu(AluOp::Ora, Mode::Dp),
        0x15 => Instr::Alu(AluOp::Ora, Mode::DpX),
        0x0D => Instr::Alu(AluOp::Ora, Mode::Abs),
        0x1D => Instr::Alu(AluOp::Ora, Mode::AbsX),
        0x19 => Instr::Alu(AluOp::Ora, Mode::AbsY),
        0x49 => Instr::Alu(AluOp::Eor, Mode::Imm),
        0x45 => Instr::Alu(AluOp::Eor, Mode::Dp),
        0x55 => Instr::Alu(AluOp::Eor, Mode::DpX),
        0x4D => Instr::Alu(AluOp::Eor, Mode::Abs),
        0x5D => Instr::Alu(AluOp::Eor, Mode::AbsX),
        0x59 => Instr::Alu(AluOp::Eor, Mode::AbsY),
        0xC9 => Instr::Alu(AluOp::Cmp, Mode::Imm),
        0xC5 => Instr::Alu(AluOp::Cmp, Mode::Dp),
        0xD5 => Instr::Alu(AluOp::Cmp, Mode::DpX),
        0xCD => Instr::Alu(AluOp::Cmp, Mode::Abs),
        0xDD => Instr::Alu(AluOp::Cmp, Mode::AbsX),
        0xD9 => Instr::Alu(AluOp::Cmp, Mode::AbsY),
        0x89 => Instr::Alu(AluOp::Bit, Mode::Imm),
        0x24 => Instr::Alu(AluOp::Bit, Mode::Dp),
        0x34 => Instr::Alu(AluOp::Bit, Mode::DpX),
        0x2C => Instr::Alu(AluOp::Bit, Mode::Abs),
        0x3C => Instr::Alu(AluOp::Bit, Mode::AbsX),
        0xE0 => Instr::CompareX(Mode::Imm),
        0xE4 => Instr::CompareX(Mode::Dp),
        0xEC => Instr::CompareX(Mode::Abs),
        0xC0 => Instr::CompareY(Mode::Imm),
        0xC4 => Instr::CompareY(Mode::Dp),
        0xCC => Instr::CompareY(Mode::Abs),
        0x0A => Instr::RmwA(RmwOp::Asl),
        0x06 => Instr::RmwMem(RmwOp::Asl, Mode::Dp),
        0x16 => Instr::RmwMem(RmwOp::Asl, Mode::DpX),
        0x0E => Instr::RmwMem(RmwOp::Asl, Mode::Abs),
        0x1E => Instr::RmwMem(RmwOp::Asl, Mode::AbsX),
        0x4A => Instr::RmwA(RmwOp::Lsr),
        0x46 => Instr::RmwMem(RmwOp::Lsr, Mode::Dp),
        0x56 => Instr::RmwMem(RmwOp::Lsr, Mode::DpX),
        0x4E => Instr::RmwMem(RmwOp::Lsr, Mode::Abs),
        0x5E => Instr::RmwMem(RmwOp::Lsr, Mode::AbsX),
        0x2A => Instr::RmwA(RmwOp::Rol),
        0x26 => Instr::RmwMem(RmwOp::Rol, Mode::Dp),
        0x36 => Instr::RmwMem(RmwOp::Rol, Mode::DpX),
        0x2E => Instr::RmwMem(RmwOp::Rol, Mode::Abs),
        0x3E => Instr::RmwMem(RmwOp::Rol, Mode::AbsX),
        0x6A => Instr::RmwA(RmwOp::Ror),
        0x66 => Instr::RmwMem(RmwOp::Ror, Mode::Dp),
        0x76 => Instr::RmwMem(RmwOp::Ror, Mode::DpX),
        0x6E => Instr::RmwMem(RmwOp::Ror, Mode::Abs),
        0x7E => Instr::RmwMem(RmwOp::Ror, Mode::AbsX),
        0x1A => Instr::RmwA(RmwOp::Inc),
        0xE6 => Instr::RmwMem(RmwOp::Inc, Mode::Dp),
        0xF6 => Instr::RmwMem(RmwOp::Inc, Mode::DpX),
        0xEE => Instr::RmwMem(RmwOp::Inc, Mode::Abs),
        0xFE => Instr::RmwMem(RmwOp::Inc, Mode::AbsX),
        0x3A => Instr::RmwA(RmwOp::Dec),
        0xC6 => Instr::RmwMem(RmwOp::Dec, Mode::Dp),
        0xD6 => Instr::RmwMem(RmwOp::Dec, Mode::DpX),
        0xCE => Instr::RmwMem(RmwOp::Dec, Mode::Abs),
        0xDE => Instr::RmwMem(RmwOp::Dec, Mode::AbsX),
        0xE8 => Instr::Inx,
        0xC8 => Instr::Iny,
        0xCA => Instr::Dex,
        0x88 => Instr::Dey,
        0xAA => Instr::Tax,
        0xA8 => Instr::Tay,
        0xBA => Instr::Tsx,
        0x8A => Instr::Txa,
        0x9A => Instr::Txs,
        0x98 => Instr::Tya,
        0x9B => Instr::Txy,
        0xBB => Instr::Tyx,
        0x5B => Instr::Tcd,
        0x1B => Instr::Tcs,
        0x7B => Instr::Tdc,
        0x3B => Instr::Tsc,
        0xEB => Instr::Xba,
        0x48 => Instr::Pha,
        0x68 => Instr::Pla,
        0x08 => Instr::Php,
        0x28 => Instr::Plp,
        0xDA => Instr::Phx,
        0xFA => Instr::Plx,
        0x5A => Instr::Phy,
        0x7A => Instr::Ply,
        0x8B => Instr::Phb,
        0xAB => Instr::Plb,
        0x0B => Instr::Phd,
        0x2B => Instr::Pld,
        0x4B => Instr::Phk,
        0xF4 => Instr::Pea,
        0xD4 => Instr::Pei,
        0x62 => Instr::Per,
        0x90 => Instr::Branch(Cond::CarryClear),
        0xB0 => Instr::Branch(Cond::CarrySet),
        0xF0 => Instr::Branch(Cond::Equal),
        0x30 => Instr::Branch(Cond::Minus),
        0xD0 => Instr::Branch(Cond::NotEqual),
        0x10 => Instr::Branch(Cond::Plus),
        0x50 => Instr::Branch(Cond::OverflowClear),
        0x70 => Instr::Branch(Cond::OverflowSet),
        0x80 => Instr::Branch(Cond::Always),
        0x4C => Instr::Jmp,
        0x20 => Instr::Jsr,
        0x60 => Instr::Rts,
        0x5C => Instr::Jml,
        0xDC => Instr::JmlIndirect,
        0x22 => Instr::Jsl,
        0x6B => Instr::Rtl,
        0x00 => Instr::Brk,
        0x02 => Instr::Cop,
        0x40 => Instr::Rti,
        0x18 => Instr::ClearFlag(Flag::Carry),
        0xD8 => Instr::ClearFlag(Flag::Decimal),
        0x58 => Instr::ClearFlag(Flag::IrqDisable),
        0xB8 => Instr::ClearFlag(Flag::Overflow),
        0x38 => Instr::SetFlag(Flag::Carry),
        0xF8 => Instr::SetFlag(Flag::Decimal),
        0x78 => Instr::SetFlag(Flag::IrqDisable),
        0xC2 => Instr::Rep,
        0xE2 => Instr::Sep,
        0xFB => Instr::Xce,
        0xCB => Instr::Wai,
        0xDB => Instr::Stp,
        0x54 => Instr::Mvn,
        0x44 => Instr::Mvp,
        _ => Instr::Nop,
    }
}


impl Cpu65816 {
    /// Executes a decoded instruction whose opcode has been fetched.
    #[verifier::spinoff_prover]
    #[verifier::rlimit(30)]
    fn execute(&mut self, memory: &mut Memory, instr: Instr) -> (cycles: u8)
        requires
            old(memory).wf(),
        ensures
            final(memory).wf(),
            exec_instr(instr, *old(self), old(memory)@) == observed(
                *final(self),
                final(memory),
                cycles,
            ),
    {
        let ghost c0 = *self;
        let ghost m0 = memory@;
        proof {
            if is_register_op(instr) {
                lemma_exec_register(instr, c0, m0);
            } else if is_stack_op(instr) {
                lemma_exec_stack(instr, c0, m0);
            } else if is_flow_op(instr) {
                lemma_exec_flow(instr, c0, m0);
            } else {
                lemma_exec_other(instr, c0, m0);
            }
        }
        match instr {
            Instr::Load(r, mode) => self.op_load(memory, r, mode),
            Instr::Store(r, mode) => self.op_store(memory, r, mode),
            Instr::Alu(op, mode) => self.op_alu(memory, op, mode),
            Instr::CompareX(mode) => self.op_compare_index(memory, false, mode),
            Instr::CompareY(mode) => self.op_compare_index(memory, true, mode),
            Instr::RmwA(op) => self.op_rmw_a(memory, op),
            Instr::RmwMem(op, mode) => self.op_rmw_mem(memory, op, mode),
            Instr::Inx | Instr::Iny | Instr::Dex | Instr::Dey => self.op_count(memory, instr),
            Instr::Tax | Instr::Tay | Instr::Tsx | Instr::Txy | Instr::Tyx => self.op_to_index(
                memory,
                instr,
            ),
            Instr::Txa | Instr::Tya | Instr::Txs | Instr::Tcd | Instr::Tcs | Instr::Tdc
            | Instr::Tsc | Instr::Xba => self.op_transfer(memory, instr),
            Instr::ClearFlag(_) | Instr::SetFlag(_) | Instr::Rep | Instr::Sep | Instr::Xce
            | Instr::Wai | Instr::Stp | Instr::Nop => self.op_status(memory, instr),
            Instr::Pha | Instr::Phx | Instr::Phy => self.op_push_register(memory, instr),
            Instr::Pla | Instr::Plx | Instr::Ply => self.op_pull_register(memory, instr),
            Instr::Php | Instr::Phb | Instr::Phk | Instr::Phd | Instr::Pea | Instr::Pei
            | Instr::Per => self.op_push_other(memory, instr),
            Instr::Plp | Instr::Plb | Instr::Pld => self.op_pull_other(memory, instr),
            Instr::Branch(cond) => self.op_branch(memory, cond),
            Instr::Jmp | Instr::Jml | Instr::JmlIndirect => self.op_jump(memory, instr),
            Instr::Jsr => self.op_call(memory, false),
            Instr::Jsl => self.op_call(memory, true),
            Instr::Rts => self.op_return(memory, false),
            Instr::Rtl => self.op_return(memory, true),
            Instr::Brk => self.op_interrupt(memory, true),
            Instr::Cop => self.op_interrupt(memory, false),
            Instr::Rti => self.op_rti(memory),
            Instr::Mvn => self.op_block_move(memory, true),
            Instr::Mvp => self.op_block_move(memory, false),
        }
    }

    /// Executes one instruction and returns the cycles it took; a stopped
    /// or waiting CPU only spends one cycle.
    pub fn step(&mut self, memory: &mut Memory) -> (cycles: u8)
        requires
            old(memory).wf(),
        ensures
            final(memory).wf(),
            cpu_step(*old(self), old(memory)@) == observed(*final(self), final(memory), cycles),
    {
        if self.stopped || self.waiting {
            return 1;
        }
        let opcode = self.fetch_byte(memory);
        let instr = decode_opcode(opcode);
        let cycles = self.execute(memory, instr);
        self.cycles = add64(self.cycles, cycles as u64);
        cycles
    }

    /// Resets the CPU: PC from the reset vector at $00FFFC, banks and direct
    /// page cleared, stack at $01FF, emulation mode with 8-bit registers and
    /// IRQs disabled; A, X, Y and the other flags keep their values.
    pub fn reset(&mut self, memory: &Memory)
        requires
            memory.wf(),
        ensures
            *final(self) == cpu_reset(*old(self), memory@),
    {
        let pcl = memory.read(0x00FFFC);
        let pch = memory.read(0x00FFFD);
        self.pc = make_word(pcl, pch);
        self.pbr = 0;
        self.dbr = 0;
        self.d = 0;
        self.s = 0x01FF;
        self.p.e = true;
        self.p.m = true;
        self.p.x = true;
        self.p.i = true;
        self.p.d = false;
        self.cycles = 0;
        self.stopped = false;
        self.waiting = false;
    }
}


} // verus!
