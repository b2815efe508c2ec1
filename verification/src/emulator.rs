//! The whole machine: main CPU, PPU, APU, memory and cartridge, run in
//! lockstep on the master clock.
use vstd::prelude::*;

use crate::apu::{apu_init, apu_run, psw_clear, Apu, ApuView, Spc700};
use crate::bits::{add64, wadd64};
use crate::cartridge::{header_fits, header_offset, strip_copier_header, Cartridge, CartridgeType, LOROM_HEADER};
use crate::chips::dsp::{
    dsp1_completed, dsp1_init, dsp1_read, dsp1_write, dsp1_write_ok, host_request, reply_fits, Dsp1View,
    HostReply, HostRequest,
};
use crate::chips::sa1::sa1_init;
use crate::chips::superfx::sfx_init;
use crate::chips::{chip_of_byte, chip_stepped, create_coprocessor, ChipType, ChipView, CoProcessor, Coprocessor};
use crate::cpu::{cpu_init, cpu_reset, cpu_step, Cpu65816};
use crate::memory::{mem_read, mem_write, MemView, Memory, WRAM_SIZE};
use crate::ppu::{bulk_write, ppu_init, ppu_read, ppu_reset, ppu_step, ppu_write, Ppu, PpuView, FRAME_HEIGHT, FRAME_WIDTH};

verus! {

/// The machine as the contracts see it.
pub struct EmuView {
    pub cpu: Cpu65816,
    pub ppu: PpuView,
    pub apu: ApuView,
    pub memory: Option<MemView>,
    pub cartridge: Option<Cartridge>,
    pub chip: Option<ChipView>,
    pub master_cycles: u64,
    pub paused: bool,
}

/// The whole emulated machine.
pub struct Emulator {
    cpu: Cpu65816,
    ppu: Ppu,
    apu: Apu,
    memory: Option<Memory>,
    cartridge: Option<Cartridge>,
    coprocessor: Option<Coprocessor>,
    master_cycles: u64,
    paused: bool,
}

/// A frame run stops, frame or not, when the master clock reaches a
/// multiple of this many cycles.
pub const FRAME_CYCLE_LIMIT: u64 = 100000;

/// The memory view of an optional memory system.
pub open spec fn memory_view(m: Option<Memory>) -> Option<MemView> {
    match m {
        Some(mem) => Some(mem@),
        None => None,
    }
}

/// The view of an optional coprocessor.
pub open spec fn chip_view(c: Option<Coprocessor>) -> Option<ChipView> {
    match c {
        Some(chip) => Some(chip@),
        None => None,
    }
}

impl View for Emulator {
    type V = EmuView;

    closed spec fn view(&self) -> EmuView {
        EmuView {
            cpu: self.cpu,
            ppu: self.ppu@,
            apu: self.apu@,
            memory: memory_view(self.memory),
            cartridge: self.cartridge,
            chip: chip_view(self.coprocessor),
            master_cycles: self.master_cycles,
            paused: self.paused,
        }
    }
}

/// The machine at power-on: no cartridge, nothing run.
pub open spec fn emu_init() -> EmuView {
    EmuView {
        cpu: cpu_init(),
        ppu: ppu_init(),
        apu: Apu::new_view(),
        memory: None,
        cartridge: None,
        chip: None,
        master_cycles: 0,
        paused: false,
    }
}

/// The coprocessor a cartridge's header names, if any.
pub open spec fn cartridge_chip(cart: Cartridge) -> Option<ChipType> {
    match cart.spec_cartridge_type() {
        CartridgeType::RomCoprocessor(b) => chip_of_byte(b),
        _ => None,
    }
}

/// A powered-up coprocessor of the given type, for the emulated chips.
pub open spec fn fresh_chip(t: Option<ChipType>) -> Option<ChipView> {
    match t {
        Some(ChipType::Dsp1) => Some(ChipView::Dsp1(dsp1_init())),
        Some(ChipType::Sa1) => Some(ChipView::Sa1(sa1_init())),
        Some(ChipType::SuperFx) => Some(ChipView::SuperFx(sfx_init())),
        _ => None,
    }
}

/// A fresh memory system for `cart` (see `Memory::new`).
pub open spec fn mem_fresh(cart: Cartridge) -> MemView {
    MemView {
        wram: Seq::new(WRAM_SIZE as nat, |i: int| 0u8),
        sram: Seq::new(cart.spec_sram_size(), |i: int| 0u8),
        rom: cart.spec_rom(),
        apu: Apu::new_view(),
        mapping_mode: cart.spec_mapping_mode(),
    }
}

/// The machine with `cart` inserted: fresh memory and coprocessor for it,
/// and the CPU reset from its reset vector.
pub open spec fn with_cartridge(v: EmuView, cart: Cartridge) -> EmuView {
    EmuView {
        cpu: cpu_reset(v.cpu, mem_fresh(cart)),
        memory: Some(mem_fresh(cart)),
        cartridge: Some(cart),
        chip: fresh_chip(cartridge_chip(cart)),
        ..v
    }
}

/// The APU after a reset.
pub open spec fn apu_after_reset() -> ApuView {
    apu_init(Spc700 { a: 0, x: 0, y: 0, psw: psw_clear(), sp: 0xFF, pc: 0xFFC0, cycles: 0 })
}

/// A machine reset: with a cartridge in, fresh memory and coprocessor and
/// a CPU reset; in any case PPU and APU reset, the clock at zero and the
/// machine running.
pub open spec fn emu_reset(v: EmuView) -> EmuView {
    let v1 = match v.cartridge {
        Some(cart) => with_cartridge(v, cart),
        None => v,
    };
    EmuView {
        ppu: ppu_reset(v1.ppu),
        apu: apu_after_reset(),
        master_cycles: 0,
        paused: false,
        ..v1
    }
}

/// One CPU instruction against the memory system, when there is one.
pub open spec fn cpu_stepped(v: EmuView) -> EmuView {
    match v.memory {
        Some(m) => {
            let e = cpu_step(v.cpu, m);
            EmuView { cpu: e.cpu, memory: Some(e.mem), ..v }
        },
        None => v,
    }
}

/// The coprocessor run for `cycles` master cycles, when there is a memory
/// system and a coprocessor.
pub open spec fn chip_ran(v: EmuView, cycles: u32) -> EmuView {
    match (v.memory, v.chip) {
        (Some(_), Some(c)) => EmuView { chip: Some(chip_stepped(c, cycles)), ..v },
        _ => v,
    }
}

/// One master cycle of a frame run: the PPU advances a dot; on every sixth
/// cycle the CPU runs an instruction and the coprocessor six cycles; the
/// APU runs two instructions; the clock advances. Also returns whether the
/// PPU completed a frame.
#[verifier::opaque]
pub open spec fn frame_tick(v: EmuView) -> (bool, EmuView) {
    let (done, ppu) = ppu_step(v.ppu);
    let v1 = EmuView { ppu, ..v };
    let v2 = if v.master_cycles % 6 == 0 {
        chip_ran(cpu_stepped(v1), 6)
    } else {
        v1
    };
    (done, EmuView { apu: apu_run(v2.apu, 2), master_cycles: wadd64(v2.master_cycles, 1), ..v2 })
}

/// Master cycles run until the PPU completes a frame or the clock reaches a
/// multiple of `FRAME_CYCLE_LIMIT`; returns whether the frame completed.
pub open spec fn frame_loop(v: EmuView) -> (bool, EmuView)
    decreases FRAME_CYCLE_LIMIT - v.master_cycles % FRAME_CYCLE_LIMIT,
{
    let (done, v1) = frame_tick(v);
    if done || v1.master_cycles % FRAME_CYCLE_LIMIT == 0 {
        (done, v1)
    } else {
        proof {
            lemma_tick_clock(v);
        }
        frame_loop(v1)
    }
}

/// A frame tick advances the clock by one.
pub proof fn lemma_tick_clock(v: EmuView)
    ensures
        frame_tick(v).1.master_cycles == wadd64(v.master_cycles, 1),
{
    reveal(frame_tick);
}

/// A frame run always ends: it runs at least one master cycle and stops at
/// the next multiple of `FRAME_CYCLE_LIMIT` at the latest (where the clock
/// is that far from the top of its range).
pub proof fn law_frame_run_bounded(v: EmuView)
    requires
        v.master_cycles + (FRAME_CYCLE_LIMIT - v.master_cycles % FRAME_CYCLE_LIMIT) <= u64::MAX,
    ensures
        v.master_cycles < frame_loop(v).1.master_cycles <= v.master_cycles + (FRAME_CYCLE_LIMIT
            - v.master_cycles % FRAME_CYCLE_LIMIT),
    decreases FRAME_CYCLE_LIMIT - v.master_cycles % FRAME_CYCLE_LIMIT,
{
    lemma_tick_clock(v);
    let (done, v1) = frame_tick(v);
    if !(done || v1.master_cycles % FRAME_CYCLE_LIMIT == 0) {
        law_frame_run_bounded(v1);
    }
}

/// `n` PPU dots.
pub open spec fn ppu_steps(p: PpuView, n: nat) -> PpuView
    decreases n,
{
    if n == 0 {
        p
    } else {
        ppu_step(ppu_steps(p, (n - 1) as nat)).1
    }
}

/// One single step: a CPU instruction, six coprocessor cycles, six PPU
/// dots, 32 APU instructions, and six master cycles on the clock.
pub open spec fn emu_step(v: EmuView) -> EmuView {
    let v1 = chip_ran(cpu_stepped(v), 6);
    let v2 = EmuView { ppu: ppu_steps(v1.ppu, 6), ..v1 };
    EmuView { apu: apu_run(v2.apu, 32), master_cycles: wadd64(v2.master_cycles, 6), ..v2 }
}

/// Message of the error for an empty ROM image.
pub open spec fn empty_rom_message() -> Seq<char> {
    "ROM data is empty"@
}

/// Message of the error for a ROM image too short for a header.
pub open spec fn load_failed_message() -> Seq<char> {
    "Failed to load ROM: \"ROM too small to contain valid header\""@
}

impl Emulator {
    /// The parts keep their invariants: the PPU its shape, the memory
    /// system its lookup tables, the coprocessor its own invariant.
    pub closed spec fn wf(&self) -> bool {
        &&& self.ppu.wf()
        &&& (self.memory matches Some(m) ==> m.wf())
        &&& (self.coprocessor matches Some(c) ==> c.inv())
    }

    /// A machine at power-on (see `emu_init`).
    pub fn new() -> (e: Self)
        ensures
            e@ == emu_init(),
            e.wf(),
    {
        Emulator {
            cpu: Cpu65816::new(),
            ppu: Ppu::new(),
            apu: Apu::new(),
            memory: None,
            cartridge: None,
            coprocessor: None,
            master_cycles: 0,
            paused: false,
        }
    }
}

/// Resetting a coprocessor gives the powered-up chip of its kind.
proof fn lemma_reset_fresh(c: Coprocessor, after: Coprocessor, t: Option<ChipType>)
    requires
        c.reset_spec(after),
        fresh_chip(t) == Some(c@),
    ensures
        after@ == c@,
{
    broadcast use vstd::array::group_array_axioms;

    match (c, after) {
        (Coprocessor::Sa1(_), Coprocessor::Sa1(a)) => {
            assert(a.iram =~= sa1_init().iram);
        },
        _ => {},
    }
}

impl Emulator {
    /// The coprocessor the cartridge's header names, powered up.
    fn create_coprocessor_for_cartridge(cartridge: &Cartridge) -> (c: Option<Coprocessor>)
        ensures
            chip_view(c) == fresh_chip(cartridge_chip(*cartridge)),
            c matches Some(p) ==> p.inv(),
    {
        if let CartridgeType::RomCoprocessor(chip_byte) = cartridge.cartridge_type() {
            if let Some(chip_type) = ChipType::from_cartridge_byte(chip_byte) {
                return create_coprocessor(chip_type);
            }
        }
        None
    }

    /// Resets the machine (see `emu_reset`).
    pub fn reset(&mut self)
        requires
            old(self).wf(),
        ensures
            final(self).wf(),
            final(self)@ == emu_reset(old(self)@),
    {
        match &self.cartridge {
            Some(cart) => {
                let chip = match Self::create_coprocessor_for_cartridge(cart) {
                    Some(mut c) => {
                        let ghost before = c;
                        c.reset();
                        proof {
                            lemma_reset_fresh(before, c, cartridge_chip(*cart));
                        }
                        Some(c)
                    },
                    None => None,
                };
                let memory = Memory::new(cart);
                self.cpu.reset(&memory);
                self.memory = Some(memory);
                self.coprocessor = chip;
            },
            None => {},
        }
        self.ppu.reset();
        self.apu.reset();
        self.master_cycles = 0;
        self.paused = false;
    }

    /// One CPU instruction, when there is a memory system.
    fn step_cpu(&mut self)
        requires
            old(self).wf(),
        ensures
            final(self).wf(),
            final(self)@ == cpu_stepped(old(self)@),
    {
        match self.memory.as_mut() {
            Some(memory) => {
                let _ = self.cpu.step(memory);
            },
            None => {},
        }
    }

    /// Six coprocessor cycles, when there is a memory system and a chip.
    fn step_coprocessor(&mut self)
        requires
            old(self).wf(),
        ensures
            final(self).wf(),
            final(self)@ == chip_ran(old(self)@, 6),
    {
        if self.memory.is_some() {
            match self.coprocessor.as_mut() {
                Some(chip) => {
                    let _ = chip.run(6);
                },
                None => {},
            }
        }
    }

    /// One master cycle of a frame run (see `frame_tick`).
    fn tick(&mut self) -> (done: bool)
        requires
            old(self).wf(),
        ensures
            final(self).wf(),
            (done, final(self)@) == frame_tick(old(self)@),
            final(self)@.master_cycles == wadd64(old(self)@.master_cycles, 1),
    {
        reveal(frame_tick);
        let done = self.ppu.step();
        if self.master_cycles % 6 == 0 {
            self.step_cpu();
            self.step_coprocessor();
        }
        self.apu.step_spc(2);
        self.master_cycles = add64(self.master_cycles, 1);
        done
    }

    /// Runs until the PPU completes a frame (see `frame_loop`); a paused
    /// machine does nothing and reports no frame.
    pub fn run_frame(&mut self) -> (frame_complete: bool)
        requires
            old(self).wf(),
        ensures
            final(self).wf(),
            old(self)@.paused ==> !frame_complete && final(self)@ == old(self)@,
            !old(self)@.paused ==> (frame_complete, final(self)@) == frame_loop(old(self)@),
    {
        if self.paused {
            return false;
        }
        let ghost start = self@;
        let mut frame_complete = false;
        while !frame_complete
            invariant_except_break
                !frame_complete,
                frame_loop(self@) == frame_loop(start),
            invariant
                self.wf(),
            ensures
                (frame_complete, self@) == frame_loop(start),
            decreases FRAME_CYCLE_LIMIT - self@.master_cycles % FRAME_CYCLE_LIMIT,
        {
            frame_complete = self.tick();
            if self.master_cycles % FRAME_CYCLE_LIMIT == 0 {
                break;
            }
            if frame_complete {
                break;
            }
        }
        frame_complete
    }

    /// Runs one instruction's worth (see `emu_step`); a paused machine does
    /// nothing.
    pub fn step(&mut self)
        requires
            old(self).wf(),
        ensures
            final(self).wf(),
            final(self)@ == (if old(self)@.paused { old(self)@ } else { emu_step(old(self)@) }),
    {
        if !self.paused {
            self.step_cpu();
            self.step_coprocessor();
            let ghost v1 = self@;
            let mut i: u32 = 0;
            while i < 6
                invariant
                    i <= 6,
                    self.wf(),
                    self@ == (EmuView { ppu: ppu_steps(v1.ppu, i as nat), ..v1 }),
                decreases 6 - i,
            {
                let _ = self.ppu.step();
                i = i + 1;
            }
            self.apu.step_spc(32);
            self.master_cycles = add64(self.master_cycles, 6);
        }
    }
}

/// The DSP-1 the machine's cartridge carries, if any.
pub open spec fn dsp1_of(v: EmuView) -> Option<Dsp1View> {
    match v.chip {
        Some(ChipView::Dsp1(d)) => Some(d),
        _ => None,
    }
}

/// The request the machine's DSP-1 waits on, if any.
pub open spec fn dsp1_pending(v: EmuView) -> Option<HostRequest> {
    match dsp1_of(v) {
        Some(d) => host_request(d),
        None => None,
    }
}

impl Emulator {
    /// Writes a byte to the DSP-1's registers (see `dsp1_write`), when the
    /// cartridge carries one (otherwise nothing changes), and returns the
    /// request the chip then waits on: the host answers it with
    /// `complete_dsp1` before the chip is read again.
    pub fn write_dsp1(&mut self, addr: u32, value: u8) -> (r: Option<HostRequest>)
        requires
            old(self).wf(),
            dsp1_of(old(self)@) matches Some(d) ==> dsp1_write_ok(d, addr, value),
        ensures
            final(self).wf(),
            final(self)@ == (EmuView {
                chip: match dsp1_of(old(self)@) {
                    Some(d) => Some(ChipView::Dsp1(dsp1_write(d, addr, value))),
                    None => old(self)@.chip,
                },
                ..old(self)@
            }),
            r == dsp1_pending(final(self)@),
    {
        match &mut self.coprocessor {
            Some(Coprocessor::Dsp1(d)) => {
                d.write(addr, value);
                d.pending_request()
            },
            _ => None,
        }
    }

    /// Reads a byte of the DSP-1's registers (see `dsp1_read`); `None`
    /// when the cartridge carries no DSP-1.
    pub fn read_dsp1(&mut self, addr: u32) -> (r: Option<u8>)
        requires
            old(self).wf(),
        ensures
            final(self).wf(),
            match dsp1_of(old(self)@) {
                Some(d) => r == Some(dsp1_read(d, addr).0) && final(self)@ == (EmuView {
                    chip: Some(ChipView::Dsp1(dsp1_read(d, addr).1)),
                    ..old(self)@
                }),
                None => r is None && final(self)@ == old(self)@,
            },
    {
        match &mut self.coprocessor {
            Some(Coprocessor::Dsp1(d)) => Some(d.read(addr)),
            _ => None,
        }
    }

    /// Whether `write_dsp1` may write `value` to `addr` (see
    /// `dsp1_write_ok`); always true without a DSP-1.
    pub fn dsp1_write_allowed(&self, addr: u32, value: u8) -> (b: bool)
        requires
            self.wf(),
        ensures
            b == (dsp1_of(self@) matches Some(d) ==> dsp1_write_ok(d, addr, value)),
    {
        match &self.coprocessor {
            Some(Coprocessor::Dsp1(d)) => d.write_allowed(addr, value),
            _ => true,
        }
    }

    /// The request the DSP-1 waits on, if any (see `host_request`).
    pub fn dsp1_request(&self) -> (r: Option<HostRequest>)
        requires
            self.wf(),
        ensures
            r == dsp1_pending(self@),
    {
        match &self.coprocessor {
            Some(Coprocessor::Dsp1(d)) => d.pending_request(),
            _ => None,
        }
    }

    /// Answers the request the DSP-1 waits on (see `dsp1_completed`):
    /// afterwards the chip reads ready with the command's results in place.
    pub fn complete_dsp1(&mut self, reply: HostReply)
        requires
            old(self).wf(),
            dsp1_of(old(self)@) matches Some(d) && reply_fits(d, reply),
        ensures
            final(self).wf(),
            final(self)@ == (EmuView {
                chip: Some(ChipView::Dsp1(dsp1_completed(dsp1_of(old(self)@)->0, reply))),
                ..old(self)@
            }),
            dsp1_pending(final(self)@) is None,
    {
        match &mut self.coprocessor {
            Some(Coprocessor::Dsp1(d)) => d.complete(reply),
            _ => {},
        }
    }
}

impl Emulator {
    /// Loads a ROM image: an empty image, or one too short to hold a
    /// header, is refused and leaves the machine as it was; otherwise the
    /// cartridge goes in with fresh memory and coprocessor, and the CPU is
    /// reset from its reset vector (see `with_cartridge`).
    pub fn load_rom(&mut self, rom_data: &[u8]) -> (r: Result<(), String>)
        requires
            old(self).wf(),
        ensures
            final(self).wf(),
            r is Ok <==> rom_data@.len() > 0 && header_fits(
                strip_copier_header(rom_data@),
                LOROM_HEADER as int,
            ),
            match r {
                Ok(_) => {
                    let rom = strip_copier_header(rom_data@);
                    &&& final(self)@.cartridge matches Some(cart)
                    &&& cart.described_by(rom, header_offset(rom)->0)
                    &&& final(self)@ == with_cartridge(old(self)@, cart)
                },
                Err(msg) => {
                    &&& final(self)@ == old(self)@
                    &&& msg@ == (if rom_data@.len() == 0 {
                        empty_rom_message()
                    } else {
                        load_failed_message()
                    })
                },
            },
    {
        if rom_data.len() == 0 {
            return Err(String::from_str("ROM data is empty"));
        }
        let cartridge = match Cartridge::from_rom(vstd::slice::slice_to_vec(rom_data)) {
            Ok(c) => c,
            Err(_) => {
                return Err(
                    String::from_str("Failed to load ROM: \"ROM too small to contain valid header\""),
                );
            },
        };
        let coprocessor = Self::create_coprocessor_for_cartridge(&cartridge);
        let memory = Memory::new(&cartridge);
        self.cpu.reset(&memory);
        self.cartridge = Some(cartridge);
        self.memory = Some(memory);
        self.coprocessor = coprocessor;
        Ok(())
    }

    /// A read as the CPU side of the bus sees it: PPU registers at
    /// $2100-$213F and APU ports at $2140-$2143 (by the low 16 bits of the
    /// address), memory elsewhere, zero without a memory system.
    #[allow(dead_code)]
    fn read_byte(&mut self, addr: u32) -> (v: u8)
        requires
            old(self).wf(),
        ensures
            final(self).wf(),
            ({
                let a = addr as u16;
                if 0x2100 <= a <= 0x213F {
                    (v, final(self)@.ppu) == ppu_read(old(self)@.ppu, a)
                        && final(self)@ == (EmuView { ppu: final(self)@.ppu, ..old(self)@ })
                } else if 0x2140 <= a <= 0x2143 {
                    v == old(self)@.apu.spc_ports[(a & 3) as int] && final(self)@ == old(self)@
                } else {
                    final(self)@ == old(self)@ && v == match old(self)@.memory {
                        Some(m) => mem_read(m, addr),
                        None => 0,
                    }
                }
            }),
    {
        let a = addr as u16;
        if 0x2100 <= a && a <= 0x213F {
            return self.ppu.read_register(a);
        }
        if 0x2140 <= a && a <= 0x2143 {
            return self.apu.cpu_read_port(a);
        }
        match &self.memory {
            Some(memory) => memory.read(addr),
            None => 0,
        }
    }

    /// A write as the CPU side of the bus sees it: PPU registers at
    /// $2100-$2133 and APU ports at $2140-$2143 (by the low 16 bits of the
    /// address), memory elsewhere, nothing without a memory system.
    #[allow(dead_code)]
    fn write_byte(&mut self, addr: u32, value: u8)
        requires
            old(self).wf(),
        ensures
            final(self).wf(),
            ({
                let a = addr as u16;
                let v = old(self)@;
                final(self)@ == if 0x2100 <= a <= 0x2133 {
                    EmuView { ppu: ppu_write(v.ppu, a, value), ..v }
                } else if 0x2140 <= a <= 0x2143 {
                    EmuView {
                        apu: ApuView {
                            cpu_ports: v.apu.cpu_ports.update((a & 3) as int, value),
                            ..v.apu
                        },
                        ..v
                    }
                } else {
                    match v.memory {
                        Some(m) => EmuView { memory: Some(mem_write(m, addr, value)), ..v },
                        None => v,
                    }
                }
            }),
    {
        let a = addr as u16;
        if 0x2100 <= a && a <= 0x2133 {
            self.ppu.write_register(a, value);
            return;
        }
        if 0x2140 <= a && a <= 0x2143 {
            self.apu.cpu_write_port(a, value);
            return;
        }
        match self.memory.as_mut() {
            Some(memory) => memory.write(addr, value),
            None => {},
        }
    }

    /// The picture, one RGBA word per pixel.
    pub fn get_framebuffer(&self) -> (f: &[u32])
        ensures
            f@ == self@.ppu.framebuffer,
    {
        self.ppu.framebuffer_slice()
    }

    /// The picture as a mutable slice; what is written through it becomes
    /// the picture.
    pub fn get_framebuffer_mut(&mut self) -> (f: &mut [u32])
        ensures
            f@ == old(self)@.ppu.framebuffer,
            final(self)@ == (EmuView {
                ppu: PpuView { framebuffer: final(f)@, ..old(self)@.ppu },
                ..old(self)@
            }),
            old(self).wf() && final(f)@.len() == f@.len() ==> final(self).wf(),
    {
        self.ppu.framebuffer_slice_mut()
    }

    /// The picture's width and height in pixels.
    pub fn get_framebuffer_size(&self) -> (size: (usize, usize))
        ensures
            size == (512usize, 478usize),
    {
        (FRAME_WIDTH, FRAME_HEIGHT)
    }

    /// Writes a PPU register (see `ppu_write`).
    pub fn write_ppu_register(&mut self, addr: u16, value: u8)
        requires
            old(self).wf(),
        ensures
            final(self).wf(),
            final(self)@ == (EmuView { ppu: ppu_write(old(self)@.ppu, addr, value), ..old(self)@ }),
    {
        self.ppu.write_register(addr, value);
    }

    /// Reads a PPU register (see `ppu_read`).
    pub fn read_ppu_register(&mut self, addr: u16) -> (r: u8)
        requires
            old(self).wf(),
        ensures
            final(self).wf(),
            (r, final(self)@.ppu) == ppu_read(old(self)@.ppu, addr),
            final(self)@ == (EmuView { ppu: final(self)@.ppu, ..old(self)@ }),
    {
        self.ppu.read_register(addr)
    }

    /// Whether the PPU is in vertical blank.
    pub fn in_vblank(&self) -> (b: bool)
        ensures
            b == self@.ppu.vblank,
    {
        self.ppu.in_vblank()
    }

    /// The PPU's current scanline.
    pub fn get_scanline(&self) -> (line: u16)
        ensures
            line == self@.ppu.scanline,
    {
        self.ppu.get_scanline()
    }

    /// Pauses emulation.
    pub fn pause(&mut self)
        ensures
            final(self)@ == (EmuView { paused: true, ..old(self)@ }),
            old(self).wf() ==> final(self).wf(),
    {
        self.paused = true;
    }

    /// Resumes emulation.
    pub fn resume(&mut self)
        ensures
            final(self)@ == (EmuView { paused: false, ..old(self)@ }),
            old(self).wf() ==> final(self).wf(),
    {
        self.paused = false;
    }

    /// Whether emulation is paused.
    pub fn is_paused(&self) -> (b: bool)
        ensures
            b == self@.paused,
    {
        self.paused
    }

    /// Master cycles run so far.
    pub fn get_master_cycles(&self) -> (n: u64)
        ensures
            n == self@.master_cycles,
    {
        self.master_cycles
    }

    /// Copies `data` into VRAM from `addr` on (see `Ppu::write_vram_wasm`).
    pub fn write_vram(&mut self, addr: u16, data: &[u8])
        requires
            old(self).wf(),
        ensures
            final(self).wf(),
            final(self)@ == (EmuView {
                ppu: PpuView {
                    vram: bulk_write(old(self)@.ppu.vram, addr as int, 0x10000, data@, data@.len()),
                    ..old(self)@.ppu
                },
                ..old(self)@
            }),
    {
        self.ppu.write_vram_wasm(addr, data);
    }

    /// Copies `data` into colour RAM from `addr` on (see
    /// `Ppu::write_cgram_wasm`).
    pub fn write_cgram(&mut self, addr: u8, data: &[u16])
        requires
            old(self).wf(),
        ensures
            final(self).wf(),
            final(self)@ == (EmuView {
                ppu: PpuView {
                    cgram: bulk_write(old(self)@.ppu.cgram, addr as int, 256, data@, data@.len()),
                    ..old(self)@.ppu
                },
                ..old(self)@
            }),
    {
        self.ppu.write_cgram_wasm(addr, data);
    }

    /// Copies `data` into OAM from `addr` on (see `Ppu::write_oam_wasm`).
    pub fn write_oam(&mut self, addr: u16, data: &[u8])
        requires
            old(self).wf(),
        ensures
            final(self).wf(),
            final(self)@ == (EmuView {
                ppu: PpuView {
                    oam: bulk_write(old(self)@.ppu.oam, addr as int, 0x10000, data@, data@.len()),
                    ..old(self)@.ppu
                },
                ..old(self)@
            }),
    {
        self.ppu.write_oam_wasm(addr, data);
    }

    /// The main CPU.
    pub fn cpu(&self) -> (c: &Cpu65816)
        ensures
            *c == self@.cpu,
    {
        &self.cpu
    }

    /// The main CPU, for changing it.
    pub fn cpu_mut(&mut self) -> (c: &mut Cpu65816)
        ensures
            *c == old(self)@.cpu,
            final(self)@ == (EmuView { cpu: *final(c), ..old(self)@ }),
            old(self).wf() ==> final(self).wf(),
    {
        &mut self.cpu
    }

    /// The PPU.
    pub fn ppu(&self) -> (p: &Ppu)
        ensures
            p@ == self@.ppu,
            self.wf() ==> p.wf(),
    {
        &self.ppu
    }

    /// The PPU, for changing it.
    pub fn ppu_mut(&mut self) -> (p: &mut Ppu)
        ensures
            p@ == old(self)@.ppu,
            old(self).wf() ==> p.wf(),
            final(self)@ == (EmuView { ppu: final(p)@, ..old(self)@ }),
            old(self).wf() && final(p).wf() ==> final(self).wf(),
    {
        &mut self.ppu
    }

    /// The memory system, once a ROM is loaded.
    pub fn memory(&self) -> (m: Option<&Memory>)
        ensures
            m is Some <==> self@.memory is Some,
            m is Some ==> self@.memory == Some(m->0@),
            m is Some && self.wf() ==> m->0.wf(),
    {
        self.memory.as_ref()
    }

    /// The memory system, for changing it, once a ROM is loaded.
    pub fn memory_mut(&mut self) -> (m: Option<&mut Memory>)
        ensures
            m is Some <==> old(self)@.memory is Some,
            m is None ==> final(self)@ == old(self)@,
            m is Some ==> {
                &&& old(self)@.memory == Some(m.unwrap()@)
                &&& final(self)@ == (EmuView { memory: Some(final(m.unwrap())@), ..old(self)@ })
                &&& old(self).wf() ==> m.unwrap().wf()
                &&& old(self).wf() && final(m.unwrap()).wf() ==> final(self).wf()
            },
    {
        self.memory.as_mut()
    }

    /// The APU, for changing it.
    pub fn apu_mut(&mut self) -> (a: &mut Apu)
        ensures
            a@ == old(self)@.apu,
            final(self)@ == (EmuView { apu: final(a)@, ..old(self)@ }),
            old(self).wf() ==> final(self).wf(),
    {
        &mut self.apu
    }

    /// The APU.
    pub fn apu(&self) -> (a: &Apu)
        ensures
            a@ == self@.apu,
    {
        &self.apu
    }
}

impl Default for Emulator {
    fn default() -> (e: Self)
        ensures
            e@ == emu_init(),
            e.wf(),
    {
        Self::new()
    }
}

impl Emulator {
    /// What a well-formed machine tells of its parts: the PPU has its shape
    /// and the memory system all of WRAM.
    pub proof fn lemma_wf_parts(e: &Emulator)
        requires
            e.wf(),
        ensures
            crate::ppu::ppu_wf(e@.ppu),
            e@.memory matches Some(m) ==> m.wram.len() == WRAM_SIZE,
    {
        Ppu::lemma_wf_view(&e.ppu);
        if let Some(m) = &e.memory {
            Memory::lemma_wf_view(m);
        }
    }
}

} // verus!
