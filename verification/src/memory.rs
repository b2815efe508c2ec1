//! The SNES memory system: 24-bit addresses, 256 banks of 64 KiB, decoded
//! in 8 KiB pages to work RAM, save RAM, cartridge ROM or open bus according
//! to the cartridge's mapping mode, plus the APU's four I/O ports.
use vstd::prelude::*;
use crate::apu::{Apu, ApuView};
use crate::cartridge::{Cartridge, MappingMode};

use crate::bits::{lemma_index_masks};

verus! {

/// Size of work RAM.
pub const WRAM_SIZE: usize = 0x20000;

/// Number of 8 KiB pages in the 16 MiB address space.
pub const PAGE_COUNT: usize = 2048;

/// What an 8 KiB page is backed by.
#[derive(Copy, Clone, Debug, PartialEq, Eq, Structural)]
pub enum RegionType {
    OpenBus,
    Wram,
    Sram,
    Rom,
}

/// The backing of an 8 KiB page: the memory it maps to and the offset of
/// the page's first byte in it.
#[derive(Copy, Clone, Debug, PartialEq, Eq, Structural)]
pub struct MemoryRegion {
    pub region_type: RegionType,
    pub offset: usize,
}

/// An unmapped page (open bus).
pub open spec fn unmapped() -> MemoryRegion {
    MemoryRegion { region_type: RegionType::OpenBus, offset: 0 }
}

/// A page mapped to `t` at `offset`.
pub open spec fn mapped(t: RegionType, offset: int) -> MemoryRegion {
    MemoryRegion { region_type: t, offset: offset as usize }
}

/// Banks $00-$3F and $80-$BF: the system banks that mirror each other.
pub open spec fn is_system_bank(bank: int) -> bool {
    bank <= 0x3F || (0x80 <= bank <= 0xBF)
}

/// ROM where `offset` lies inside a ROM of `rom_len` bytes, else open bus.
pub open spec fn rom_if_present(offset: int, rom_len: nat) -> MemoryRegion {
    if offset < rom_len {
        mapped(RegionType::Rom, offset)
    } else {
        unmapped()
    }
}

/// Save RAM at `offset` wrapped to its size, or open bus where there is none.
pub open spec fn sram_if_present(offset: int, sram_len: nat) -> MemoryRegion {
    if sram_len > 0 {
        mapped(RegionType::Sram, offset % (sram_len as int))
    } else {
        unmapped()
    }
}

/// LoROM reads. System banks: $0000-$1FFF the first 8 KiB of WRAM,
/// $8000-$FFFF 32 KiB of ROM per bank. $40-$6F and $C0-$EF: ROM from
/// 2 MiB up in their upper halves. $70-$7D and $F0-$FD: SRAM in their upper
/// halves. $7E-$7F: all 128 KiB of WRAM. Everything else is open bus.
pub open spec fn lorom_read_region(page: int, rom_len: nat, sram_len: nat) -> MemoryRegion {
    let bank = page / 8;
    let s = page % 8;
    if is_system_bank(bank) {
        if s == 0 {
            mapped(RegionType::Wram, 0)
        } else if s >= 4 {
            rom_if_present((bank % 64) * 0x8000 + (s - 4) * 0x2000, rom_len)
        } else {
            unmapped()
        }
    } else if (0x40 <= bank <= 0x6F) || (0xC0 <= bank <= 0xEF) {
        if s >= 4 {
            rom_if_present((bank % 64 + 0x40) * 0x8000 + (s - 4) * 0x2000, rom_len)
        } else {
            unmapped()
        }
    } else if (0x70 <= bank <= 0x7D) || (0xF0 <= bank <= 0xFD) {
        if s >= 4 {
            sram_if_present((bank % 16) * 0x8000 + (s - 4) * 0x2000, sram_len)
        } else {
            unmapped()
        }
    } else if bank == 0x7E || bank == 0x7F {
        mapped(RegionType::Wram, (bank - 0x7E) * 0x10000 + s * 0x2000)
    } else {
        unmapped()
    }
}

/// LoROM writes: the WRAM and SRAM pages of the read map; ROM is read-only.
pub open spec fn lorom_write_region(page: int, rom_len: nat, sram_len: nat) -> MemoryRegion {
    let r = lorom_read_region(page, rom_len, sram_len);
    if r.region_type == RegionType::Rom {
        unmapped()
    } else {
        r
    }
}

/// HiROM reads. System banks: $0000-$1FFF WRAM, $6000-$7FFF SRAM (8 KiB per
/// bank, wrapped to its size), $8000-$FFFF the upper half of each 64 KiB ROM
/// bank. $40-$7D and $C0-$FF: 64 KiB ROM banks ($C0-$FF read as $40-$7F).
/// $7E-$7F: WRAM.
pub open spec fn hirom_read_region(page: int, rom_len: nat, sram_len: nat) -> MemoryRegion {
    let bank = page / 8;
    let s = page % 8;
    if is_system_bank(bank) {
        if s == 0 {
            mapped(RegionType::Wram, 0)
        } else if s == 3 {
            sram_if_present((bank % 64) * 0x2000, sram_len)
        } else if s >= 4 {
            rom_if_present((bank % 64) * 0x10000 + (s - 4) * 0x2000, rom_len)
        } else {
            unmapped()
        }
    } else if (0x40 <= bank <= 0x7D) || bank >= 0xC0 {
        let rom_bank = if bank >= 0xC0 { bank - 0x80 } else { bank };
        rom_if_present(rom_bank * 0x10000 + s * 0x2000, rom_len)
    } else if bank == 0x7E || bank == 0x7F {
        mapped(RegionType::Wram, (bank - 0x7E) * 0x10000 + s * 0x2000)
    } else {
        unmapped()
    }
}

/// ExHiROM reads: as HiROM, but the system banks show ROM from 4 MiB up and
/// banks $40-$7D and $C0-$FF map linearly by bank number.
pub open spec fn exhirom_read_region(page: int, rom_len: nat, sram_len: nat) -> MemoryRegion {
    let bank = page / 8;
    let s = page % 8;
    if is_system_bank(bank) {
        if s == 0 {
            mapped(RegionType::Wram, 0)
        } else if s == 3 {
            sram_if_present((bank % 64) * 0x2000, sram_len)
        } else if s >= 4 {
            rom_if_present((bank % 64 + 0x40) * 0x10000 + (s - 4) * 0x2000, rom_len)
        } else {
            unmapped()
        }
    } else if (0x40 <= bank <= 0x7D) || bank >= 0xC0 {
        rom_if_present(bank * 0x10000 + s * 0x2000, rom_len)
    } else if bank == 0x7E || bank == 0x7F {
        mapped(RegionType::Wram, (bank - 0x7E) * 0x10000 + s * 0x2000)
    } else {
        unmapped()
    }
}

/// What a read of page `page` reaches under `mode`.
pub open spec fn read_region(mode: MappingMode, page: int, rom_len: nat, sram_len: nat) -> MemoryRegion {
    match mode {
        MappingMode::LoRom => lorom_read_region(page, rom_len, sram_len),
        MappingMode::HiRom => hirom_read_region(page, rom_len, sram_len),
        MappingMode::ExHiRom => exhirom_read_region(page, rom_len, sram_len),
    }
}

/// What a write of page `page` reaches under `mode`: the read mapping with
/// ROM taken out.
pub open spec fn write_region(mode: MappingMode, page: int, rom_len: nat, sram_len: nat) -> MemoryRegion {
    let r = read_region(mode, page, rom_len, sram_len);
    if r.region_type == RegionType::Rom {
        unmapped()
    } else {
        r
    }
}

/// The memory system as the contracts see it.
pub struct MemView {
    pub wram: Seq<u8>,
    pub sram: Seq<u8>,
    pub rom: Seq<u8>,
    pub apu: ApuView,
    pub mapping_mode: MappingMode,
}

/// The 8 KiB page that an address lies in.
pub open spec fn page_of(addr: u32) -> int {
    (addr as int / 0x2000) % 0x800
}

/// The position of an address within its page.
pub open spec fn page_offset(addr: u32) -> int {
    addr as int % 0x2000
}

/// The page and the position within it, cut out of an address by shifts
/// and masks.
proof fn lemma_page_split(addr: u32)
    by (bit_vector)
    ensures
        ((addr >> 13u32) & 0x7FF) as usize == page_of(addr),
        (addr & 0x1FFF) as usize == page_offset(addr),
{
}

/// An address in a system bank ($00-$3F, $80-$BF) whose low 16 bits are
/// $2140-$2143 reaches the APU ports.
pub open spec fn is_apu_port(addr: u32) -> bool {
    &&& is_system_bank(page_of(addr) / 8)
    &&& 0x2140 <= (addr as u16) <= 0x2143
}

/// The APU port that such an address selects.
pub open spec fn apu_port_index(addr: u32) -> int {
    ((addr as u16) & 3) as int
}

/// What a read of `addr` gives: an APU port, or the byte of the page's
/// backing memory (WRAM and SRAM wrapped to their size, ROM past its end and
/// unmapped pages reading $FF).
#[verifier::opaque]
pub open spec fn mem_read(v: MemView, addr: u32) -> u8 {
    if is_apu_port(addr) {
        v.apu.spc_ports[apu_port_index(addr)]
    } else {
        let r = read_region(v.mapping_mode, page_of(addr), v.rom.len(), v.sram.len());
        let i = r.offset + page_offset(addr);
        match r.region_type {
            RegionType::Wram => v.wram[i % (v.wram.len() as int)],
            RegionType::Sram => v.sram[i % (v.sram.len() as int)],
            RegionType::Rom => if i < v.rom.len() {
                v.rom[i]
            } else {
                0xFF
            },
            RegionType::OpenBus => 0xFF,
        }
    }
}

/// What a write of `value` to `addr` does: fills an APU port, or stores
/// into WRAM or SRAM; ROM and unmapped pages ignore it.
#[verifier::opaque]
pub open spec fn mem_write(v: MemView, addr: u32, value: u8) -> MemView {
    if is_apu_port(addr) {
        MemView {
            apu: ApuView {
                cpu_ports: v.apu.cpu_ports.update(apu_port_index(addr), value),
                ..v.apu
            },
            ..v
        }
    } else {
        let r = write_region(v.mapping_mode, page_of(addr), v.rom.len(), v.sram.len());
        let i = r.offset + page_offset(addr);
        match r.region_type {
            RegionType::Wram => MemView {
                wram: v.wram.update(i % (v.wram.len() as int), value),
                ..v
            },
            RegionType::Sram => MemView {
                sram: v.sram.update(i % (v.sram.len() as int), value),
                ..v
            },
            _ => v,
        }
    }
}

/// The 32-bit address one past `addr` (wrapping).
pub open spec fn next_addr(addr: u32) -> u32 {
    ((addr as int + 1) % 0x1_0000_0000) as u32
}

/// A little-endian 16-bit read: `addr` then the next address.
pub open spec fn mem_read_word(v: MemView, addr: u32) -> u16 {
    (mem_read(v, addr) as int + mem_read(v, next_addr(addr)) as int * 256) as u16
}

/// A little-endian 16-bit write: low byte at `addr`, high byte next.
pub open spec fn mem_write_word(v: MemView, addr: u32, value: u16) -> MemView {
    mem_write(mem_write(v, addr, (value % 256) as u8), next_addr(addr), (value / 256) as u8)
}

/// Every region offset stays below 16 MiB, and an SRAM region exists only
/// where there is SRAM.
pub proof fn lemma_region_bounds(mode: MappingMode, page: int, rom_len: nat, sram_len: nat)
    requires
        0 <= page < 0x800,
    ensures
        read_region(mode, page, rom_len, sram_len).offset < 0x100_0000,
        read_region(mode, page, rom_len, sram_len).region_type == RegionType::Sram ==> sram_len
            > 0,
        write_region(mode, page, rom_len, sram_len).offset < 0x100_0000,
        write_region(mode, page, rom_len, sram_len).region_type == RegionType::Sram ==> sram_len
            > 0,
        write_region(mode, page, rom_len, sram_len).region_type != RegionType::Rom,
{
    let bank = page / 8;
    let s = page % 8;
    if sram_len > 0 {
        let m = sram_len as int;
        assert forall|x: int| 0 <= x < 0x100_0000 implies #[trigger] (x % m) < 0x100_0000 by {
            assert(x % m <= x) by (nonlinear_arith)
                requires
                    x >= 0,
                    m > 0,
            ;
        }
        assert((bank % 16) * 0x8000 + (s - 4) * 0x2000 < 0x100_0000);
        assert((bank % 64) * 0x2000 < 0x100_0000);
    }
}

/// The memory system.
pub struct Memory {
    wram: Vec<u8>,
    sram: Vec<u8>,
    rom: Vec<u8>,
    /// The audio subsystem, reached through the ports at $2140-$2143.
    pub apu: Apu,
    mapping_mode: MappingMode,
    read_map: [MemoryRegion; 2048],
    write_map: [MemoryRegion; 2048],
}

impl Memory {
    /// The memory system as the contracts see it.
    pub closed spec fn view(&self) -> MemView {
        MemView {
            wram: self.wram@,
            sram: self.sram@,
            rom: self.rom@,
            apu: self.apu@,
            mapping_mode: self.mapping_mode,
        }
    }

    /// The lookup tables agree with the mapping mode, and WRAM has its size.
    pub closed spec fn wf(&self) -> bool {
        &&& self.wram@.len() == WRAM_SIZE
        &&& forall|p: int|
            0 <= p < 0x800 ==> #[trigger] self.read_map@[p] == read_region(
                self.mapping_mode,
                p,
                self.rom@.len(),
                self.sram@.len(),
            )
        &&& forall|p: int|
            0 <= p < 0x800 ==> #[trigger] self.write_map@[p] == write_region(
                self.mapping_mode,
                p,
                self.rom@.len(),
                self.sram@.len(),
            )
    }
}


/// An unmapped page.
fn no_region() -> (r: MemoryRegion)
    ensures
        r == unmapped(),
{
    MemoryRegion { region_type: RegionType::OpenBus, offset: 0 }
}

/// The read and write regions of a LoROM page.
fn lorom_regions(page: usize, rom_len: usize, sram_len: usize) -> (r: (MemoryRegion, MemoryRegion))
    requires
        page < PAGE_COUNT,
    ensures
        r.0 == lorom_read_region(page as int, rom_len as nat, sram_len as nat),
        r.1 == write_region(MappingMode::LoRom, page as int, rom_len as nat, sram_len as nat),
{
    let bank = page / 8;
    let page_in_bank = page % 8;
    if bank <= 0x3F || (bank >= 0x80 && bank <= 0xBF) {
        let effective_bank = bank & 0x3F;
        proof {
            lemma_index_masks(bank);
        }
        if page_in_bank == 0 {
            let w = MemoryRegion { region_type: RegionType::Wram, offset: 0 };
            (w, w)
        } else if page_in_bank >= 4 {
            let rom_offset = effective_bank * 0x8000 + (page_in_bank - 4) * 0x2000;
            if rom_offset < rom_len {
                (MemoryRegion { region_type: RegionType::Rom, offset: rom_offset }, no_region())
            } else {
                (no_region(), no_region())
            }
        } else {
            (no_region(), no_region())
        }
    } else if (bank >= 0x40 && bank <= 0x6F) || (bank >= 0xC0 && bank <= 0xEF) {
        let effective_bank = bank & 0x3F;
        proof {
            lemma_index_masks(bank);
        }
        if page_in_bank >= 4 {
            let rom_offset = (effective_bank + 0x40) * 0x8000 + (page_in_bank - 4) * 0x2000;
            if rom_offset < rom_len {
                (MemoryRegion { region_type: RegionType::Rom, offset: rom_offset }, no_region())
            } else {
                (no_region(), no_region())
            }
        } else {
            (no_region(), no_region())
        }
    } else if (bank >= 0x70 && bank <= 0x7D) || (bank >= 0xF0 && bank <= 0xFD) {
        if page_in_bank >= 4 && sram_len != 0 {
            let low = bank & 0x0F;
            proof {
                lemma_index_masks(bank);
            }
            let sram_offset = low * 0x8000 + (page_in_bank - 4) * 0x2000;
            let sram_offset = sram_offset % sram_len;
            let r = MemoryRegion { region_type: RegionType::Sram, offset: sram_offset };
            (r, r)
        } else {
            (no_region(), no_region())
        }
    } else if bank == 0x7E || bank == 0x7F {
        let wram_offset = (bank - 0x7E) * 0x10000 + page_in_bank * 0x2000;
        let r = MemoryRegion { region_type: RegionType::Wram, offset: wram_offset };
        (r, r)
    } else {
        (no_region(), no_region())
    }
}

/// The read and write regions of a HiROM page.
fn hirom_regions(page: usize, rom_len: usize, sram_len: usize) -> (r: (MemoryRegion, MemoryRegion))
    requires
        page < PAGE_COUNT,
    ensures
        r.0 == hirom_read_region(page as int, rom_len as nat, sram_len as nat),
        r.1 == write_region(MappingMode::HiRom, page as int, rom_len as nat, sram_len as nat),
{
    let bank = page / 8;
    let page_in_bank = page % 8;
    if bank <= 0x3F || (bank >= 0x80 && bank <= 0xBF) {
        let effective_bank = bank & 0x3F;
        proof {
            lemma_index_masks(bank);
        }
        if page_in_bank == 0 {
            let w = MemoryRegion { region_type: RegionType::Wram, offset: 0 };
            (w, w)
        } else if page_in_bank == 3 {
            if sram_len != 0 {
                let sram_offset = effective_bank * 0x2000;
                let sram_offset = sram_offset % sram_len;
                let r = MemoryRegion { region_type: RegionType::Sram, offset: sram_offset };
                (r, r)
            } else {
                (no_region(), no_region())
            }
        } else if page_in_bank >= 4 {
            let rom_offset = effective_bank * 0x10000 + (page_in_bank - 4) * 0x2000;
            if rom_offset < rom_len {
                (MemoryRegion { region_type: RegionType::Rom, offset: rom_offset }, no_region())
            } else {
                (no_region(), no_region())
            }
        } else {
            (no_region(), no_region())
        }
    } else if (bank >= 0x40 && bank <= 0x7D) || bank >= 0xC0 {
        let rom_bank = if bank >= 0xC0 {
            bank - 0x80
        } else {
            bank
        };
        let rom_offset = rom_bank * 0x10000 + page_in_bank * 0x2000;
        if rom_offset < rom_len {
            (MemoryRegion { region_type: RegionType::Rom, offset: rom_offset }, no_region())
        } else {
            (no_region(), no_region())
        }
    } else if bank == 0x7E || bank == 0x7F {
        let wram_offset = (bank - 0x7E) * 0x10000 + page_in_bank * 0x2000;
        let r = MemoryRegion { region_type: RegionType::Wram, offset: wram_offset };
        (r, r)
    } else {
        (no_region(), no_region())
    }
}

/// The read and write regions of an ExHiROM page.
fn exhirom_regions(page: usize, rom_len: usize, sram_len: usize) -> (r: (
    MemoryRegion,
    MemoryRegion,
))
    requires
        page < PAGE_COUNT,
    ensures
        r.0 == exhirom_read_region(page as int, rom_len as nat, sram_len as nat),
        r.1 == write_region(MappingMode::ExHiRom, page as int, rom_len as nat, sram_len as nat),
{
    let bank = page / 8;
    let page_in_bank = page % 8;
    if bank <= 0x3F || (bank >= 0x80 && bank <= 0xBF) {
        let effective_bank = bank & 0x3F;
        proof {
            lemma_index_masks(bank);
        }
        if page_in_bank == 0 {
            let w = MemoryRegion { region_type: RegionType::Wram, offset: 0 };
            (w, w)
        } else if page_in_bank == 3 {
            if sram_len != 0 {
                let sram_offset = effective_bank * 0x2000;
                let sram_offset = sram_offset % sram_len;
                let r = MemoryRegion { region_type: RegionType::Sram, offset: sram_offset };
                (r, r)
            } else {
                (no_region(), no_region())
            }
        } else if page_in_bank >= 4 {
            let rom_offset = (effective_bank + 0x40) * 0x10000 + (page_in_bank - 4) * 0x2000;
            if rom_offset < rom_len {
                (MemoryRegion { region_type: RegionType::Rom, offset: rom_offset }, no_region())
            } else {
                (no_region(), no_region())
            }
        } else {
            (no_region(), no_region())
        }
    } else if (bank >= 0x40 && bank <= 0x7D) || bank >= 0xC0 {
        let rom_offset = bank * 0x10000 + page_in_bank * 0x2000;
        if rom_offset < rom_len {
            (MemoryRegion { region_type: RegionType::Rom, offset: rom_offset }, no_region())
        } else {
            (no_region(), no_region())
        }
    } else if bank == 0x7E || bank == 0x7F {
        let wram_offset = (bank - 0x7E) * 0x10000 + page_in_bank * 0x2000;
        let r = MemoryRegion { region_type: RegionType::Wram, offset: wram_offset };
        (r, r)
    } else {
        (no_region(), no_region())
    }
}

impl Memory {
    /// A memory system for `cartridge`: WRAM clear, SRAM of the size its
    /// header states (clear), its ROM, a powered-up APU, and lookup tables
    /// for its mapping mode.
    pub fn new(cartridge: &Cartridge) -> (m: Self)
        ensures
            m.wf(),
            m@.wram == Seq::new(WRAM_SIZE as nat, |i: int| 0u8),
            m@.sram == Seq::new(cartridge.spec_sram_size(), |i: int| 0u8),
            m@.rom == cartridge.spec_rom(),
            m@.apu == Apu::new_view(),
            m@.mapping_mode == cartridge.spec_mapping_mode(),
    {
        let wram: Vec<u8> = vec![0u8; WRAM_SIZE];
        let sram: Vec<u8> = vec![0u8; cartridge.sram_size()];
        let rom = vstd::slice::slice_to_vec(cartridge.rom_data());
        let unmapped_page = no_region();
        let mut memory = Memory {
            wram,
            sram,
            rom,
            apu: Apu::new(),
            mapping_mode: cartridge.mapping_mode(),
            read_map: [unmapped_page; 2048],
            write_map: [unmapped_page; 2048],
        };
        memory.initialize_memory_map();
        proof {
            assert(memory@.wram =~= Seq::new(WRAM_SIZE as nat, |i: int| 0u8));
            assert(memory@.sram =~= Seq::new(cartridge.spec_sram_size(), |i: int| 0u8));
        }
        memory
    }

    /// Fills both lookup tables for the mapping mode.
    fn initialize_memory_map(&mut self)
        requires
            old(self).wram@.len() == WRAM_SIZE,
        ensures
            final(self).wf(),
            final(self).wram == old(self).wram,
            final(self).sram == old(self).sram,
            final(self).rom == old(self).rom,
            final(self).apu == old(self).apu,
            final(self).mapping_mode == old(self).mapping_mode,
    {
        let rom_len = self.rom.len();
        let sram_len = self.sram.len();
        let mut page: usize = 0;
        while page < PAGE_COUNT
            invariant
                page <= PAGE_COUNT,
                rom_len == self.rom@.len(),
                sram_len == self.sram@.len(),
                self.wram == old(self).wram,
                self.sram == old(self).sram,
                self.rom == old(self).rom,
                self.apu == old(self).apu,
                self.mapping_mode == old(self).mapping_mode,
                self.wram@.len() == WRAM_SIZE,
                forall|p: int|
                    0 <= p < page ==> #[trigger] self.read_map@[p] == read_region(
                        self.mapping_mode,
                        p,
                        rom_len as nat,
                        sram_len as nat,
                    ),
                forall|p: int|
                    0 <= p < page ==> #[trigger] self.write_map@[p] == write_region(
                        self.mapping_mode,
                        p,
                        rom_len as nat,
                        sram_len as nat,
                    ),
            decreases PAGE_COUNT - page,
        {
            let regions = match self.mapping_mode {
                MappingMode::LoRom => lorom_regions(page, rom_len, sram_len),
                MappingMode::HiRom => hirom_regions(page, rom_len, sram_len),
                MappingMode::ExHiRom => exhirom_regions(page, rom_len, sram_len),
            };
            self.read_map[page] = regions.0;
            self.write_map[page] = regions.1;
            page = page + 1;
        }
    }

    /// Reads a byte from a 24-bit address (higher bits select pages by
    /// their low 11 bits, as the hardware ignores them).
    pub fn read(&self, addr: u32) -> (v: u8)
        requires
            self.wf(),
        ensures
            v == mem_read(self@, addr),
    {
        reveal(mem_read);
        let lo = addr as u16;
        let page = ((addr >> 13u32) & 0x7FF) as usize;
        let offset_in_page = (addr & 0x1FFF) as usize;
        proof {
            lemma_page_split(addr);
        }
        let bank = page / 8;
        if (bank <= 0x3F || (bank >= 0x80 && bank <= 0xBF)) && lo >= 0x2140 && lo <= 0x2143 {
            return self.apu.cpu_read_port(lo);
        }
        let region = self.read_map[page];
        proof {
            lemma_region_bounds(self.mapping_mode, page as int, self.rom@.len(), self.sram@.len());
        }
        match region.region_type {
            RegionType::Wram => {
                let a = (region.offset + offset_in_page) % self.wram.len();
                self.wram[a]
            },
            RegionType::Sram => {
                let a = (region.offset + offset_in_page) % self.sram.len();
                self.sram[a]
            },
            RegionType::Rom => {
                let a = region.offset + offset_in_page;
                if a < self.rom.len() {
                    self.rom[a]
                } else {
                    0xFF
                }
            },
            RegionType::OpenBus => 0xFF,
        }
    }

    /// Writes a byte to a 24-bit address; ROM and unmapped pages ignore it.
    pub fn write(&mut self, addr: u32, value: u8)
        requires
            old(self).wf(),
        ensures
            final(self).wf(),
            final(self)@ == mem_write(old(self)@, addr, value),
    {
        reveal(mem_write);
        let lo = addr as u16;
        let page = ((addr >> 13u32) & 0x7FF) as usize;
        let offset_in_page = (addr & 0x1FFF) as usize;
        proof {
            lemma_page_split(addr);
        }
        let bank = page / 8;
        if (bank <= 0x3F || (bank >= 0x80 && bank <= 0xBF)) && lo >= 0x2140 && lo <= 0x2143 {
            self.apu.cpu_write_port(lo, value);
            return;
        }
        let region = self.write_map[page];
        proof {
            lemma_region_bounds(self.mapping_mode, page as int, self.rom@.len(), self.sram@.len());
        }
        match region.region_type {
            RegionType::Wram => {
                let a = (region.offset + offset_in_page) % self.wram.len();
                self.wram.set(a, value);
            },
            RegionType::Sram => {
                let a = (region.offset + offset_in_page) % self.sram.len();
                self.sram.set(a, value);
            },
            RegionType::Rom | RegionType::OpenBus => {},
        }
    }

    /// Reads a little-endian 16-bit word.
    pub fn read_word(&self, addr: u32) -> (v: u16)
        requires
            self.wf(),
        ensures
            v == mem_read_word(self@, addr),
    {
        let next = addr.wrapping_add(1);
        assert(next == next_addr(addr));
        let lo = self.read(addr) as u16;
        let hi = self.read(next) as u16;
        assert(lo | (hi << 8u16) == lo + hi * 256) by (bit_vector)
            requires
                lo < 256,
                hi < 256,
        ;
        lo | (hi << 8u16)
    }

    /// Writes a little-endian 16-bit word.
    #[verifier::spinoff_prover]
    pub fn write_word(&mut self, addr: u32, value: u16)
        requires
            old(self).wf(),
        ensures
            final(self).wf(),
            final(self)@ == mem_write_word(old(self)@, addr, value),
    {
        let lo = (value & 0xFF) as u8;
        let hi = (value >> 8u16) as u8;
        assert(lo == value % 256 && hi == value / 256) by (bit_vector)
            requires
                lo == (value & 0xFF) as u8,
                hi == (value >> 8u16) as u8,
        ;
        let next = addr.wrapping_add(1);
        assert(next == next_addr(addr));
        self.write(addr, lo);
        self.write(next, hi);
    }

    /// The SRAM contents, for saving.
    pub fn sram(&self) -> (s: &[u8])
        ensures
            s@ == self@.sram,
    {
        self.sram.as_slice()
    }

    /// The APU.
    pub fn apu(&self) -> (a: &Apu)
        ensures
            a@ == self@.apu,
    {
        &self.apu
    }

    /// The APU, to change.
    pub fn apu_mut(&mut self) -> (a: &mut Apu)
        ensures
            a@ == old(self)@.apu,
            final(self)@ == (MemView { apu: final(a)@, ..old(self)@ }),
            final(self).wf() == old(self).wf(),
    {
        &mut self.apu
    }

    /// Loads saved SRAM: as many bytes as both hold are copied from the
    /// start; the rest of SRAM stays.
    pub fn load_sram(&mut self, data: &[u8])
        requires
            old(self).wf(),
        ensures
            final(self).wf(),
            final(self)@ == (MemView {
                sram: Seq::new(
                    old(self)@.sram.len(),
                    |i: int|
                        if i < data@.len() {
                            data@[i]
                        } else {
                            old(self)@.sram[i]
                        },
                ),
                ..old(self)@
            }),
    {
        let len = if data.len() < self.sram.len() {
            data.len()
        } else {
            self.sram.len()
        };
        let mut i: usize = 0;
        while i < len
            invariant
                len <= data@.len(),
                len <= self.sram@.len(),
                i <= len,
                self.wram == old(self).wram,
                self.rom == old(self).rom,
                self.apu == old(self).apu,
                self.mapping_mode == old(self).mapping_mode,
                self.read_map == old(self).read_map,
                self.write_map == old(self).write_map,
                self.sram@.len() == old(self).sram@.len(),
                forall|j: int|
                    0 <= j < self.sram@.len() ==> #[trigger] self.sram@[j] == (if j < i {
                        data@[j]
                    } else {
                        old(self).sram@[j]
                    }),
            decreases len - i,
        {
            self.sram.set(i, data[i]);
            i = i + 1;
        }
        proof {
            assert(self@.sram =~= Seq::new(
                old(self)@.sram.len(),
                |i: int|
                    if i < data@.len() {
                        data@[i]
                    } else {
                        old(self)@.sram[i]
                    },
            ));
        }
    }

    /// Clears WRAM (a full power cycle; a console reset keeps WRAM).
    pub fn reset(&mut self)
        requires
            old(self).wf(),
        ensures
            final(self).wf(),
            final(self)@ == (MemView { wram: Seq::new(WRAM_SIZE as nat, |i: int| 0u8), ..old(self)@ }),
    {
        let mut i: usize = 0;
        while i < WRAM_SIZE
            invariant
                i <= WRAM_SIZE,
                self.wram@.len() == WRAM_SIZE,
                self.sram == old(self).sram,
                self.rom == old(self).rom,
                self.apu == old(self).apu,
                self.mapping_mode == old(self).mapping_mode,
                self.read_map == old(self).read_map,
                self.write_map == old(self).write_map,
                forall|j: int| 0 <= j < i ==> #[trigger] self.wram@[j] == 0u8,
            decreases WRAM_SIZE - i,
        {
            self.wram.set(i, 0);
            i = i + 1;
        }
        proof {
            assert(self@.wram =~= Seq::new(WRAM_SIZE as nat, |i: int| 0u8));
        }
    }
}

// ---------------------------------------------------------------------------
// Laws of the memory map
// ---------------------------------------------------------------------------

/// Where a read reaches RAM (work RAM or save RAM), reading an address after
/// writing it gives back the byte written.
pub proof fn law_ram_read_after_write(v: MemView, addr: u32, value: u8)
    requires
        v.wram.len() == WRAM_SIZE,
        !is_apu_port(addr),
        read_region(v.mapping_mode, page_of(addr), v.rom.len(), v.sram.len()).region_type
            == RegionType::Wram || read_region(
            v.mapping_mode,
            page_of(addr),
            v.rom.len(),
            v.sram.len(),
        ).region_type == RegionType::Sram,
    ensures
        mem_read(mem_write(v, addr, value), addr) == value,
{
    reveal(mem_read);
    reveal(mem_write);
    lemma_region_bounds(v.mapping_mode, page_of(addr), v.rom.len(), v.sram.len());
}

/// An APU port write is seen by the APU, and a port read gives what the
/// SPC700 wrote: the two directions are separate latches.
pub proof fn law_apu_ports(v: MemView, addr: u32, value: u8)
    requires
        is_apu_port(addr),
    ensures
        mem_write(v, addr, value).apu.cpu_ports == v.apu.cpu_ports.update(
            apu_port_index(addr),
            value,
        ),
        mem_read(mem_write(v, addr, value), addr) == mem_read(v, addr),
{
    reveal(mem_read);
    reveal(mem_write);
}

/// Writing a ROM address changes nothing: ROM is read-only.
pub proof fn law_rom_is_read_only(v: MemView, addr: u32, value: u8)
    requires
        !is_apu_port(addr),
        read_region(v.mapping_mode, page_of(addr), v.rom.len(), v.sram.len()).region_type
            == RegionType::Rom,
    ensures
        mem_write(v, addr, value) == v,
{
    reveal(mem_write);
}

/// The 24-bit address `bank:offset`.
pub open spec fn long_addr(bank: u8, offset: u16) -> u32 {
    ((bank as u32) << 16u32) | (offset as u32)
}

proof fn lemma_long_addr(bank: u8, offset: u16)
    ensures
        long_addr(bank, offset) as int == bank as int * 0x10000 + offset as int,
        (long_addr(bank, offset) as u16) == offset,
        page_of(long_addr(bank, offset)) == bank as int * 8 + offset as int / 0x2000,
        page_offset(long_addr(bank, offset)) == offset as int % 0x2000,
{
    let a = long_addr(bank, offset);
    assert(a == (bank as u32) * 0x10000u32 + (offset as u32) && (a as u16) == offset)
        by (bit_vector)
        requires
            a == ((bank as u32) << 16u32) | (offset as u32),
    ;
    assert(page_of(a) == bank as int * 8 + offset as int / 0x2000) by (nonlinear_arith)
        requires
            a as int == bank as int * 0x10000 + offset as int,
            0 <= bank < 256,
            0 <= offset < 0x10000,
            page_of(a) == (a as int / 0x2000) % 0x800,
    ;
    assert(page_offset(a) == offset as int % 0x2000) by (nonlinear_arith)
        requires
            a as int == bank as int * 0x10000 + offset as int,
            0 <= bank < 256,
            0 <= offset < 0x10000,
            page_offset(a) == a as int % 0x2000,
    ;
}

/// In every mapping mode, $0000-$1FFF of the system banks ($00-$3F,
/// $80-$BF) mirrors the first 8 KiB of WRAM, which $7E:0000-$7E:1FFF shows.
pub proof fn law_low_wram_mirror(v: MemView, bank: u8, offset: u16)
    requires
        is_system_bank(bank as int),
        offset < 0x2000,
        v.wram.len() == WRAM_SIZE,
    ensures
        mem_read(v, long_addr(bank, offset)) == mem_read(v, long_addr(0x7E, offset)),
        mem_read(v, long_addr(0x7E, offset)) == v.wram[offset as int],
{
    reveal(mem_read);
    lemma_long_addr(bank, offset);
    lemma_long_addr(0x7E, offset);
}

/// Banks $80-$BF mirror banks $00-$3F in every mapping mode.
pub proof fn law_upper_system_banks_mirror(v: MemView, bank: u8, offset: u16)
    requires
        bank <= 0x3F,
    ensures
        mem_read(v, long_addr(bank, offset)) == mem_read(v, long_addr((bank + 0x80) as u8, offset)),
{
    let a = long_addr(bank, offset);
    let b = long_addr((bank + 0x80) as u8, offset);
    lemma_long_addr(bank, offset);
    lemma_long_addr((bank + 0x80) as u8, offset);
    let p1 = page_of(a);
    let p2 = page_of(b);
    assert(p1 / 8 == bank as int && p2 / 8 == bank as int + 0x80 && p1 % 8 == p2 % 8);
    assert(read_region(v.mapping_mode, p1, v.rom.len(), v.sram.len()) == read_region(
        v.mapping_mode,
        p2,
        v.rom.len(),
        v.sram.len(),
    ));
    reveal(mem_read);
}

/// Banks $7E-$7F show all 128 KiB of WRAM in order.
pub proof fn law_full_wram_banks(v: MemView, bank: u8, offset: u16)
    requires
        bank == 0x7E || bank == 0x7F,
        v.wram.len() == WRAM_SIZE,
    ensures
        mem_read(v, long_addr(bank, offset)) == v.wram[(bank - 0x7E) * 0x10000 + offset],
{
    reveal(mem_read);
    lemma_long_addr(bank, offset);
}

/// In bank $00, $0000-$1FFF is the first 8 KiB of WRAM in every mapping
/// mode: a read gives the WRAM byte and a write stores into it.
pub proof fn law_bank0_low_ram(v: MemView, addr: u32, value: u8)
    requires
        addr < 0x2000,
        v.wram.len() == WRAM_SIZE,
    ensures
        mem_read(v, addr) == v.wram[addr as int],
        mem_write(v, addr, value) == (MemView { wram: v.wram.update(addr as int, value), ..v }),
{
    reveal(mem_read);
    reveal(mem_write);
    assert(page_of(addr) == 0);
    assert(page_offset(addr) == addr);
    assert((addr as u16) == addr) by (bit_vector)
        requires
            addr < 0x2000,
    ;
}

impl Memory {
    /// A well-formed memory system holds all 128 KiB of WRAM (so the laws
    /// on `MemView` apply to it).
    pub proof fn lemma_wf_view(m: &Memory)
        requires
            m.wf(),
        ensures
            m@.wram.len() == WRAM_SIZE,
    {
    }
}

} // verus!
