//! Enhancement chips that cartridges carry: the DSP-1 maths coprocessor, the
//! SA-1 accelerator and the SuperFX graphics processor.
use vstd::prelude::*;

pub mod dsp;
pub mod sa1;
pub mod superfx;

use crate::chips::dsp::Dsp1;
use crate::chips::sa1::Sa1;
use crate::chips::superfx::SuperFx;

verus! {

/// What every coprocessor offers the memory system and the timing loop.
/// Each chip states, through the spec functions, what its operations do.
pub trait CoProcessor: Sized {
    /// The invariant every state of the chip keeps.
    spec fn inv(&self) -> bool;

    /// Whether the chip answers at `addr`.
    spec fn answers(&self, addr: u32) -> bool;

    /// A read of `addr` gives `value` and leaves the chip as `after`.
    spec fn read_spec(&self, addr: u32, value: u8, after: Self) -> bool;

    /// Whether a write of `value` to `addr` is one the chip carries out
    /// (false for writes on which the chip has no defined behaviour).
    spec fn write_ok(&self, addr: u32, value: u8) -> bool;

    /// A write of `value` to `addr` leaves the chip as `after`.
    spec fn write_spec(&self, addr: u32, value: u8, after: Self) -> bool;

    /// Whether a run of `cycles` master cycles stays within the chip's
    /// counters.
    spec fn step_ok(&self, cycles: u32) -> bool;

    /// A run of `cycles` master cycles reports `done` and leaves `after`.
    spec fn step_spec(&self, cycles: u32, done: u32, after: Self) -> bool;

    /// A reset leaves `after`.
    spec fn reset_spec(&self, after: Self) -> bool;

    /// Resets the chip.
    fn reset(&mut self)
        ensures
            old(self).reset_spec(*final(self)),
            final(self).inv(),
    ;

    /// Reads a byte of the chip's address space (24-bit address).
    fn read(&mut self, addr: u32) -> (value: u8)
        requires
            old(self).inv(),
        ensures
            old(self).read_spec(addr, value, *final(self)),
            final(self).inv(),
    ;

    /// Writes a byte of the chip's address space (24-bit address).
    fn write(&mut self, addr: u32, value: u8)
        requires
            old(self).inv(),
            old(self).write_ok(addr, value),
        ensures
            old(self).write_spec(addr, value, *final(self)),
            final(self).inv(),
    ;

    /// Runs the chip for `cycles` master cycles; returns the cycles it
    /// accounts for.
    fn step(&mut self, cycles: u32) -> (done: u32)
        requires
            old(self).inv(),
            old(self).step_ok(cycles),
        ensures
            old(self).step_spec(cycles, done, *final(self)),
            final(self).inv(),
    ;

    /// Whether the chip handles reads and writes of `addr`.
    fn handles_address(&self, addr: u32) -> (b: bool)
        ensures
            b == self.answers(addr),
    ;
}

/// The coprocessor a cartridge header names.
#[derive(Debug, Clone, Copy, PartialEq, Eq, Structural)]
pub enum ChipType {
    /// DSP-1 (and its relatives).
    Dsp1,
    /// SA-1.
    Sa1,
    /// SuperFX (GSU).
    SuperFx,
    /// CX4.
    Cx4,
    /// S-DD1.
    Sdd1,
    /// SPC7110.
    Spc7110,
    /// OBC1.
    Obc1,
    /// A chip byte that names nothing known.
    Unknown(u8),
}

/// The chip a cartridge type byte (header offset $FFD6) names.
pub open spec fn chip_of_byte(b: u8) -> Option<ChipType> {
    if b == 0x03 || b == 0x04 || b == 0x05 || b == 0x06 {
        Some(ChipType::Dsp1)
    } else if b == 0x13 || b == 0x14 || b == 0x15 || b == 0x1A {
        Some(ChipType::SuperFx)
    } else if b == 0x23 || b == 0x33 || b == 0x34 || b == 0x35 || b == 0x36 {
        Some(ChipType::Sa1)
    } else if b == 0xE3 || b == 0xE4 || b == 0xE5 {
        Some(ChipType::Sdd1)
    } else if b == 0xF3 {
        Some(ChipType::Cx4)
    } else if b == 0xF5 || b == 0xF6 || b == 0xF9 {
        Some(ChipType::Spc7110)
    } else {
        None
    }
}

impl ChipType {
    /// The chip a cartridge type byte names (see `chip_of_byte`); `None`
    /// for bytes that name no chip.
    pub fn from_cartridge_byte(cartridge_type_byte: u8) -> (r: Option<Self>)
        ensures
            r == chip_of_byte(cartridge_type_byte),
    {
        match cartridge_type_byte {
            0x03 | 0x04 | 0x05 | 0x06 => Some(ChipType::Dsp1),
            0x13 | 0x14 | 0x15 | 0x1A => Some(ChipType::SuperFx),
            0x23 | 0x33 | 0x34 | 0x35 | 0x36 => Some(ChipType::Sa1),
            0xE3 | 0xE4 | 0xE5 => Some(ChipType::Sdd1),
            0xF3 => Some(ChipType::Cx4),
            0xF5 | 0xF6 | 0xF9 => Some(ChipType::Spc7110),
            _ => None,
        }
    }
}


/// One of the coprocessors the library emulates.
pub enum Coprocessor {
    Dsp1(Dsp1),
    Sa1(Sa1),
    SuperFx(SuperFx),
}

impl CoProcessor for Coprocessor {
    open spec fn inv(&self) -> bool {
        match self {
            Coprocessor::Dsp1(c) => c.inv(),
            Coprocessor::Sa1(c) => c.inv(),
            Coprocessor::SuperFx(c) => c.inv(),
        }
    }

    open spec fn answers(&self, addr: u32) -> bool {
        match self {
            Coprocessor::Dsp1(c) => c.answers(addr),
            Coprocessor::Sa1(c) => c.answers(addr),
            Coprocessor::SuperFx(c) => c.answers(addr),
        }
    }

    open spec fn read_spec(&self, addr: u32, value: u8, after: Self) -> bool {
        match (self, after) {
            (Coprocessor::Dsp1(c), Coprocessor::Dsp1(d)) => c.read_spec(addr, value, d),
            (Coprocessor::Sa1(c), Coprocessor::Sa1(d)) => c.read_spec(addr, value, d),
            (Coprocessor::SuperFx(c), Coprocessor::SuperFx(d)) => c.read_spec(addr, value, d),
            _ => false,
        }
    }

    open spec fn write_ok(&self, addr: u32, value: u8) -> bool {
        match self {
            Coprocessor::Dsp1(c) => c.write_ok(addr, value),
            Coprocessor::Sa1(c) => c.write_ok(addr, value),
            Coprocessor::SuperFx(c) => c.write_ok(addr, value),
        }
    }

    open spec fn write_spec(&self, addr: u32, value: u8, after: Self) -> bool {
        match (self, after) {
            (Coprocessor::Dsp1(c), Coprocessor::Dsp1(d)) => c.write_spec(addr, value, d),
            (Coprocessor::Sa1(c), Coprocessor::Sa1(d)) => c.write_spec(addr, value, d),
            (Coprocessor::SuperFx(c), Coprocessor::SuperFx(d)) => c.write_spec(addr, value, d),
            _ => false,
        }
    }

    open spec fn step_ok(&self, cycles: u32) -> bool {
        match self {
            Coprocessor::Dsp1(c) => c.step_ok(cycles),
            Coprocessor::Sa1(c) => c.step_ok(cycles),
            Coprocessor::SuperFx(c) => c.step_ok(cycles),
        }
    }

    open spec fn step_spec(&self, cycles: u32, done: u32, after: Self) -> bool {
        match (self, after) {
            (Coprocessor::Dsp1(c), Coprocessor::Dsp1(d)) => c.step_spec(cycles, done, d),
            (Coprocessor::Sa1(c), Coprocessor::Sa1(d)) => c.step_spec(cycles, done, d),
            (Coprocessor::SuperFx(c), Coprocessor::SuperFx(d)) => c.step_spec(cycles, done, d),
            _ => false,
        }
    }

    open spec fn reset_spec(&self, after: Self) -> bool {
        match (self, after) {
            (Coprocessor::Dsp1(c), Coprocessor::Dsp1(d)) => c.reset_spec(d),
            (Coprocessor::Sa1(c), Coprocessor::Sa1(d)) => c.reset_spec(d),
            (Coprocessor::SuperFx(c), Coprocessor::SuperFx(d)) => c.reset_spec(d),
            _ => false,
        }
    }

    fn reset(&mut self) {
        match self {
            Coprocessor::Dsp1(c) => c.reset(),
            Coprocessor::Sa1(c) => c.reset(),
            Coprocessor::SuperFx(c) => c.reset(),
        }
    }

    fn read(&mut self, addr: u32) -> (value: u8) {
        match self {
            Coprocessor::Dsp1(c) => c.read(addr),
            Coprocessor::Sa1(c) => c.read(addr),
            Coprocessor::SuperFx(c) => c.read(addr),
        }
    }

    fn write(&mut self, addr: u32, value: u8) {
        match self {
            Coprocessor::Dsp1(c) => c.write(addr, value),
            Coprocessor::Sa1(c) => c.write(addr, value),
            Coprocessor::SuperFx(c) => c.write(addr, value),
        }
    }

    fn step(&mut self, cycles: u32) -> (done: u32) {
        match self {
            Coprocessor::Dsp1(c) => c.step(cycles),
            Coprocessor::Sa1(c) => c.step(cycles),
            Coprocessor::SuperFx(c) => c.step(cycles),
        }
    }

    fn handles_address(&self, addr: u32) -> (b: bool) {
        match self {
            Coprocessor::Dsp1(c) => c.handles_address(addr),
            Coprocessor::Sa1(c) => c.handles_address(addr),
            Coprocessor::SuperFx(c) => c.handles_address(addr),
        }
    }
}

/// A powered-up coprocessor of the given type, for the three emulated
/// chips; `None` for the others.
pub fn create_coprocessor(chip_type: ChipType) -> (c: Option<Coprocessor>)
    ensures
        match chip_type {
            ChipType::Dsp1 => c matches Some(Coprocessor::Dsp1(d)) && d@ == dsp::dsp1_init(),
            ChipType::Sa1 => c matches Some(Coprocessor::Sa1(s)) && s == sa1::sa1_init(),
            ChipType::SuperFx => c matches Some(Coprocessor::SuperFx(s)) && s == superfx::sfx_init(),
            _ => c is None,
        },
        c matches Some(p) ==> p.inv(),
{
    match chip_type {
        ChipType::Dsp1 => Some(Coprocessor::Dsp1(Dsp1::new())),
        ChipType::Sa1 => Some(Coprocessor::Sa1(Sa1::new())),
        ChipType::SuperFx => Some(Coprocessor::SuperFx(SuperFx::new())),
        _ => None,
    }
}


/// A coprocessor as the contracts see it.
pub enum ChipView {
    Dsp1(dsp::Dsp1View),
    Sa1(Sa1),
    SuperFx(SuperFx),
}

impl View for Coprocessor {
    type V = ChipView;

    open spec fn view(&self) -> ChipView {
        match self {
            Coprocessor::Dsp1(c) => ChipView::Dsp1(c@),
            Coprocessor::Sa1(c) => ChipView::Sa1(*c),
            Coprocessor::SuperFx(c) => ChipView::SuperFx(*c),
        }
    }
}

/// A coprocessor after a run of `cycles` master cycles: the DSP-1 does
/// nothing, the SA-1 counts (see `sa1_step`), the SuperFX runs its program
/// (see `sfx_run`).
pub open spec fn chip_stepped(v: ChipView, cycles: u32) -> ChipView {
    match v {
        ChipView::Dsp1(d) => ChipView::Dsp1(d),
        ChipView::Sa1(s) => ChipView::Sa1(sa1::sa1_step(s, cycles)),
        ChipView::SuperFx(s) => ChipView::SuperFx(
            superfx::sfx_run(s, (cycles * s.clock_multiplier) as int, 0).0,
        ),
    }
}

impl Coprocessor {
    /// Runs the coprocessor for `cycles` master cycles (see
    /// `chip_stepped`).
    pub fn run(&mut self, cycles: u32) -> (done: u32)
        requires
            old(self).inv(),
            old(self).step_ok(cycles),
        ensures
            final(self).inv(),
            final(self)@ == chip_stepped(old(self)@, cycles),
    {
        self.step(cycles)
    }
}

} // verus!
