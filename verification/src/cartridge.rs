//! Cartridge ROM loading and header parsing.
//!
//! Accepts `.sfc` images and `.smc` images (a 512-byte copier header in
//! front), finds the internal header at $7FC0 (LoROM) or $FFC0 (HiROM) by
//! scoring both places, and reads title, mapping mode, region, cartridge type
//! and sizes from it.
use vstd::prelude::*;
use crate::text::{decode_utf8_lossy, trim_end_owned, trim_end_spec, utf8_lossy};

verus! {

/// How the cartridge ROM is laid out in the CPU's address space.
#[derive(Debug, Clone, Copy, PartialEq, Eq, Structural)]
pub enum MappingMode {
    LoRom,
    HiRom,
    ExHiRom,
}

/// Destination region code of the header.
#[derive(Debug, Clone, Copy, PartialEq, Eq, Structural)]
pub enum Region {
    Japan,
    NorthAmerica,
    Europe,
    Sweden,
    Finland,
    Denmark,
    France,
    Netherlands,
    Spain,
    Germany,
    Italy,
    China,
    Indonesia,
    Korea,
    Common,
    Canada,
    Brazil,
    Australia,
    Other(u8),
}

/// The region that a header's region byte names.
pub open spec fn region_of(value: u8) -> Region {
    if value == 0x00 {
        Region::Japan
    } else if value == 0x01 {
        Region::NorthAmerica
    } else if value == 0x02 {
        Region::Europe
    } else if value == 0x03 {
        Region::Sweden
    } else if value == 0x04 {
        Region::Finland
    } else if value == 0x05 {
        Region::Denmark
    } else if value == 0x06 {
        Region::France
    } else if value == 0x07 {
        Region::Netherlands
    } else if value == 0x08 {
        Region::Spain
    } else if value == 0x09 {
        Region::Germany
    } else if value == 0x0A {
        Region::Italy
    } else if value == 0x0B {
        Region::China
    } else if value == 0x0C {
        Region::Indonesia
    } else if value == 0x0D {
        Region::Korea
    } else if value == 0x0E {
        Region::Common
    } else if value == 0x0F {
        Region::Canada
    } else if value == 0x10 {
        Region::Brazil
    } else if value == 0x11 {
        Region::Australia
    } else {
        Region::Other(value)
    }
}

impl Region {
    /// The region that a header's region byte names.
    pub fn from_byte(value: u8) -> (r: Region)
        ensures
            r == region_of(value),
    {
        match value {
            0x00 => Region::Japan,
            0x01 => Region::NorthAmerica,
            0x02 => Region::Europe,
            0x03 => Region::Sweden,
            0x04 => Region::Finland,
            0x05 => Region::Denmark,
            0x06 => Region::France,
            0x07 => Region::Netherlands,
            0x08 => Region::Spain,
            0x09 => Region::Germany,
            0x0A => Region::Italy,
            0x0B => Region::China,
            0x0C => Region::Indonesia,
            0x0D => Region::Korea,
            0x0E => Region::Common,
            0x0F => Region::Canada,
            0x10 => Region::Brazil,
            0x11 => Region::Australia,
            other => Region::Other(other),
        }
    }
}

impl From<u8> for Region {
    fn from(value: u8) -> (r: Region) {
        Region::from_byte(value)
    }
}

impl vstd::std_specs::convert::FromSpecImpl<u8> for Region {
    open spec fn obeys_from_spec() -> bool {
        true
    }

    open spec fn from_spec(v: u8) -> Region {
        region_of(v)
    }
}

/// What the cartridge holds besides ROM.
#[derive(Debug, Clone, Copy, PartialEq, Eq, Structural)]
pub enum CartridgeType {
    RomOnly,
    RomRam,
    RomRamBattery,
    RomCoprocessor(u8),
}

/// The cartridge type that a header's type byte names.
pub open spec fn cartridge_type_of(b: u8) -> CartridgeType {
    if b == 0x00 {
        CartridgeType::RomOnly
    } else if b == 0x01 {
        CartridgeType::RomRam
    } else if b == 0x02 {
        CartridgeType::RomRamBattery
    } else if 0x03 <= b <= 0x06 {
        CartridgeType::RomCoprocessor(b)
    } else {
        CartridgeType::RomOnly
    }
}

/// The mapping mode named by the low nibble of the header's map mode byte.
pub open spec fn mapping_mode_of(mode_byte: u8) -> MappingMode {
    let mode = mode_byte & 0x0F;
    if mode == 0x01 {
        MappingMode::HiRom
    } else if mode == 0x05 {
        MappingMode::ExHiRom
    } else {
        MappingMode::LoRom
    }
}

/// Offset of the LoROM header candidate.
pub const LOROM_HEADER: usize = 0x7FC0;

/// Offset of the HiROM header candidate.
pub const HIROM_HEADER: usize = 0xFFC0;

/// The header candidate at `offset` lies inside the image.
pub open spec fn header_fits(rom: Seq<u8>, offset: int) -> bool {
    rom.len() > offset + 0x30
}

/// Plausibility score of a header candidate: points for a map mode byte in
/// $20-$35, a small type byte, a ROM size byte in $08-$0D, an SRAM size byte
/// up to $08, a region byte up to $14, and most of all a checksum and
/// complement that are each other's inverse.
pub open spec fn header_score(rom: Seq<u8>, offset: int) -> nat {
    let map_mode = rom[offset + 0x15];
    let cart_type = rom[offset + 0x16];
    let rom_size = rom[offset + 0x17];
    let sram_size = rom[offset + 0x18];
    let region = rom[offset + 0x19];
    let checksum = (rom[offset + 0x1C] as u16) | ((rom[offset + 0x1D] as u16) << 8u16);
    let complement = (rom[offset + 0x1E] as u16) | ((rom[offset + 0x1F] as u16) << 8u16);
    (if 0x20 <= map_mode <= 0x35 { 2nat } else { 0nat })
        + (if cart_type <= 0x0F { 1nat } else { 0nat })
        + (if 0x08 <= rom_size <= 0x0D { 2nat } else { 0nat })
        + (if sram_size <= 0x08 { 1nat } else { 0nat })
        + (if region <= 0x14 { 1nat } else { 0nat })
        + (if checksum ^ complement == 0xFFFF { 4nat } else { 0nat })
}

/// Score of the candidate at `offset`, or 0 where it does not fit.
pub open spec fn candidate_score(rom: Seq<u8>, offset: int) -> nat {
    if header_fits(rom, offset) {
        header_score(rom, offset)
    } else {
        0
    }
}

/// The header location chosen for an image: LoROM where it scores strictly
/// higher and above zero, else HiROM where that scores above zero, else
/// LoROM where the image is large enough.
pub open spec fn header_offset(rom: Seq<u8>) -> Option<int> {
    let lo = candidate_score(rom, LOROM_HEADER as int);
    let hi = candidate_score(rom, HIROM_HEADER as int);
    if lo > hi && lo > 0 {
        Some(LOROM_HEADER as int)
    } else if hi > 0 {
        Some(HIROM_HEADER as int)
    } else if header_fits(rom, LOROM_HEADER as int) {
        Some(LOROM_HEADER as int)
    } else {
        None
    }
}

/// The image with a 512-byte copier header removed where its length says it
/// has one (length modulo 1024 is 512).
pub open spec fn strip_copier_header(data: Seq<u8>) -> Seq<u8> {
    if data.len() % 1024 == 512 {
        data.subrange(512, data.len() as int)
    } else {
        data
    }
}

/// An image of whole KiB loads the same with or without a 512-byte copier
/// header in front: the header is stripped, and the bare image is kept.
pub proof fn law_copier_header_stripped(header: Seq<u8>, rom: Seq<u8>)
    requires
        header.len() == 512,
        rom.len() % 1024 == 0,
    ensures
        strip_copier_header(header + rom) == rom,
        strip_copier_header(rom) == rom,
{
    assert((header + rom).subrange(512, (header + rom).len() as int) =~= rom);
}

/// ROM size stated by a size byte: 2^n KiB, or the image length where the
/// byte is 16 or more.
pub open spec fn rom_size_of(b: u8, image_len: nat) -> nat {
    if b < 16 {
        (1024usize << b) as nat
    } else {
        image_len
    }
}

/// SRAM size stated by a size byte: 2^n KiB for 1..15, none otherwise.
pub open spec fn sram_size_of(b: u8) -> nat {
    if 0 < b < 16 {
        (1024usize << b) as nat
    } else {
        0
    }
}

/// A loaded cartridge.
pub struct Cartridge {
    rom_data: Vec<u8>,
    mapping_mode: MappingMode,
    title: String,
    region: Region,
    cartridge_type: CartridgeType,
    rom_size: usize,
    sram_size: usize,
    header_valid: bool,
}

/// Message of the one error `from_rom` gives.
pub open spec fn too_small_message() -> Seq<char> {
    "ROM too small to contain valid header"@
}

/// Message of the error the header reader gives for an image that ends
/// inside the header.
pub open spec fn header_cut_message() -> Seq<char> {
    "ROM too small for header"@
}

impl Cartridge {
    /// The ROM image, copier header removed.
    pub closed spec fn spec_rom(&self) -> Seq<u8> {
        self.rom_data@
    }

    /// The mapping mode read from the header.
    pub closed spec fn spec_mapping_mode(&self) -> MappingMode {
        self.mapping_mode
    }

    /// The title read from the header.
    pub closed spec fn spec_title(&self) -> Seq<char> {
        self.title@
    }

    /// The region read from the header.
    pub closed spec fn spec_region(&self) -> Region {
        self.region
    }

    /// The cartridge type read from the header.
    pub closed spec fn spec_cartridge_type(&self) -> CartridgeType {
        self.cartridge_type
    }

    /// The ROM size read from the header.
    pub closed spec fn spec_rom_size(&self) -> nat {
        self.rom_size as nat
    }

    /// The SRAM size read from the header.
    pub closed spec fn spec_sram_size(&self) -> nat {
        self.sram_size as nat
    }

    /// Whether the header was accepted.
    pub closed spec fn spec_header_valid(&self) -> bool {
        self.header_valid
    }

    /// The cartridge described by the header at `offset` of `rom`.
    pub open spec fn described_by(&self, rom: Seq<u8>, offset: int) -> bool {
        &&& self.spec_rom() == rom
        &&& self.spec_mapping_mode() == mapping_mode_of(rom[offset + 0x15])
        &&& self.spec_title() == trim_end_spec(utf8_lossy(rom.subrange(offset, offset + 21)))
        &&& self.spec_region() == region_of(rom[offset + 0x19])
        &&& self.spec_cartridge_type() == cartridge_type_of(rom[offset + 0x16])
        &&& self.spec_rom_size() == rom_size_of(rom[offset + 0x17], rom.len())
        &&& self.spec_sram_size() == sram_size_of(rom[offset + 0x18])
        &&& self.spec_header_valid() == (candidate_score(rom, offset) > 0)
    }

    /// Loads a ROM image: strips a copier header, locates the internal
    /// header and reads it. Fails exactly when the image (after stripping)
    /// is too short to hold a header at $7FC0.
    pub fn from_rom(data: Vec<u8>) -> (res: Result<Self, String>)
        ensures
            match res {
                Ok(cart) => {
                    let rom = strip_copier_header(data@);
                    &&& header_offset(rom) is Some
                    &&& cart.described_by(rom, header_offset(rom)->0)
                },
                Err(msg) => {
                    &&& header_offset(strip_copier_header(data@)) is None
                    &&& msg@ == too_small_message()
                },
            },
            res is Ok <==> header_fits(strip_copier_header(data@), LOROM_HEADER as int),
    {
        let has_header = data.len() % 1024 == 512;
        let rom_data = if has_header {
            let mut d = data;
            d.split_off(512)
        } else {
            data
        };
        match Self::detect_mapping_mode(&rom_data) {
            None => {
                proof {
                    reveal_strlit("ROM too small to contain valid header");
                }
                Err(String::from_str("ROM too small to contain valid header"))
            },
            Some((_mode, offset)) => {
                let valid = Self::score_header(&rom_data, offset) > 0;
                Self::parse_header(rom_data, offset, valid)
            },
        }
    }

    /// Chooses the header location; `None` where the image is too small.
    fn detect_mapping_mode(rom_data: &Vec<u8>) -> (res: Option<(MappingMode, usize)>)
        ensures
            match res {
                Some((mode, offset)) => {
                    &&& header_offset(rom_data@) == Some(offset as int)
                    &&& offset <= HIROM_HEADER
                    &&& mode == (if candidate_score(rom_data@, offset as int) > 0 {
                        mapping_mode_of(rom_data@[offset + 0x15])
                    } else {
                        MappingMode::LoRom
                    })
                },
                None => header_offset(rom_data@) is None,
            },
    {
        let lorom_score = if rom_data.len() > LOROM_HEADER + 0x30 {
            Self::score_header(rom_data, LOROM_HEADER)
        } else {
            0
        };
        let hirom_score = if rom_data.len() > HIROM_HEADER + 0x30 {
            Self::score_header(rom_data, HIROM_HEADER)
        } else {
            0
        };
        if lorom_score > hirom_score && lorom_score > 0 {
            let mapping = Self::parse_mapping_mode(rom_data[LOROM_HEADER + 0x15]);
            Some((mapping, LOROM_HEADER))
        } else if hirom_score > 0 {
            let mapping = Self::parse_mapping_mode(rom_data[HIROM_HEADER + 0x15]);
            Some((mapping, HIROM_HEADER))
        } else if rom_data.len() > LOROM_HEADER + 0x30 {
            Some((MappingMode::LoRom, LOROM_HEADER))
        } else {
            None
        }
    }

    /// Plausibility score of the header candidate at `offset`.
    fn score_header(rom_data: &Vec<u8>, offset: usize) -> (score: u32)
        requires
            header_fits(rom_data@, offset as int),
            offset <= HIROM_HEADER,
        ensures
            score == header_score(rom_data@, offset as int),
    {
        let mut score: u32 = 0;
        let map_mode = rom_data[offset + 0x15];
        if map_mode >= 0x20 && map_mode <= 0x35 {
            score += 2;
        }
        let cart_type = rom_data[offset + 0x16];
        if cart_type <= 0x0F {
            score += 1;
        }
        let rom_size = rom_data[offset + 0x17];
        if rom_size >= 0x08 && rom_size <= 0x0D {
            score += 2;
        }
        let sram_size = rom_data[offset + 0x18];
        if sram_size <= 0x08 {
            score += 1;
        }
        let region = rom_data[offset + 0x19];
        if region <= 0x14 {
            score += 1;
        }
        let checksum_lo = rom_data[offset + 0x1C] as u16;
        let checksum_hi = rom_data[offset + 0x1D] as u16;
        let checksum_comp_lo = rom_data[offset + 0x1E] as u16;
        let checksum_comp_hi = rom_data[offset + 0x1F] as u16;
        let checksum = checksum_lo | (checksum_hi << 8u16);
        let checksum_comp = checksum_comp_lo | (checksum_comp_hi << 8u16);
        if checksum ^ checksum_comp == 0xFFFF {
            score += 4;
        }
        score
    }

    /// The mapping mode named by a map mode byte.
    fn parse_mapping_mode(mode_byte: u8) -> (m: MappingMode)
        ensures
            m == mapping_mode_of(mode_byte),
    {
        let mode = mode_byte & 0x0F;
        match mode {
            0x01 => MappingMode::HiRom,
            0x05 => MappingMode::ExHiRom,
            _ => MappingMode::LoRom,
        }
    }

    /// Reads the header at `offset`; `valid` tells whether that header
    /// candidate scored above 0. Fails exactly when the image ends before
    /// the header's $30 bytes do.
    fn parse_header(rom_data: Vec<u8>, offset: usize, valid: bool) -> (res: Result<Cartridge, String>)
        requires
            valid == (candidate_score(rom_data@, offset as int) > 0),
        ensures
            match res {
                Ok(cart) => rom_data@.len() >= offset + 0x30 && cart.described_by(
                    rom_data@,
                    offset as int,
                ),
                Err(msg) => rom_data@.len() < offset + 0x30 && msg@ == header_cut_message(),
            },
    {
        if offset > rom_data.len() || rom_data.len() - offset < 0x30 {
            proof {
                reveal_strlit("ROM too small for header");
            }
            return Err(String::from_str("ROM too small for header"));
        }
        let title_bytes = vstd::slice::slice_subrange(rom_data.as_slice(), offset, offset + 21);
        let lossy = decode_utf8_lossy(title_bytes);
        let title = trim_end_owned(lossy.as_str());
        let mapping_mode = Self::parse_mapping_mode(rom_data[offset + 0x15]);
        let cart_type_byte = rom_data[offset + 0x16];
        let cartridge_type = match cart_type_byte {
            0x00 => CartridgeType::RomOnly,
            0x01 => CartridgeType::RomRam,
            0x02 => CartridgeType::RomRamBattery,
            0x03..=0x06 => CartridgeType::RomCoprocessor(cart_type_byte),
            _ => CartridgeType::RomOnly,
        };
        let rom_size_byte = rom_data[offset + 0x17];
        let rom_size = if rom_size_byte < 16 {
            1024usize << rom_size_byte
        } else {
            rom_data.len()
        };
        let sram_size_byte = rom_data[offset + 0x18];
        let sram_size = if sram_size_byte > 0 && sram_size_byte < 16 {
            1024usize << sram_size_byte
        } else {
            0
        };
        let region = Region::from_byte(rom_data[offset + 0x19]);
        Ok(
            Cartridge {
                rom_data,
                mapping_mode,
                title,
                region,
                cartridge_type,
                rom_size,
                sram_size,
                header_valid: valid,
            },
        )
    }

    /// The ROM image, copier header removed.
    pub fn rom_data(&self) -> (r: &[u8])
        ensures
            r@ == self.spec_rom(),
    {
        self.rom_data.as_slice()
    }

    /// The mapping mode read from the header.
    pub fn mapping_mode(&self) -> (m: MappingMode)
        ensures
            m == self.spec_mapping_mode(),
    {
        self.mapping_mode
    }

    /// The title read from the header, trailing whitespace removed.
    pub fn title(&self) -> (t: &str)
        ensures
            t@ == self.spec_title(),
    {
        self.title.as_str()
    }

    /// The region read from the header.
    pub fn region(&self) -> (r: Region)
        ensures
            r == self.spec_region(),
    {
        self.region
    }

    /// The cartridge type read from the header.
    pub fn cartridge_type(&self) -> (t: CartridgeType)
        ensures
            t == self.spec_cartridge_type(),
    {
        self.cartridge_type
    }

    /// The ROM size in bytes read from the header.
    pub fn rom_size(&self) -> (n: usize)
        ensures
            n == self.spec_rom_size(),
    {
        self.rom_size
    }

    /// The SRAM size in bytes read from the header.
    pub fn sram_size(&self) -> (n: usize)
        ensures
            n == self.spec_sram_size(),
    {
        self.sram_size
    }

    /// Whether the header was accepted: its location scored above 0 (the
    /// LoROM location taken as a last resort may not have).
    pub fn is_header_valid(&self) -> (b: bool)
        ensures
            b == self.spec_header_valid(),
    {
        self.header_valid
    }
}

/// The cartridge type comes from the header's type byte ($FFD6 of the
/// header): $00 is ROM only, $01 ROM and RAM, $02 ROM, RAM and battery,
/// $03-$06 a coprocessor (the byte kept to name it), and any other byte ROM
/// only.
pub proof fn law_header_cartridge_type(cart: Cartridge, rom: Seq<u8>, offset: int)
    requires
        cart.described_by(rom, offset),
    ensures
        ({
            let b = rom[offset + 0x16];
            &&& b == 0x00 ==> cart.spec_cartridge_type() == CartridgeType::RomOnly
            &&& b == 0x01 ==> cart.spec_cartridge_type() == CartridgeType::RomRam
            &&& b == 0x02 ==> cart.spec_cartridge_type() == CartridgeType::RomRamBattery
            &&& 0x03 <= b <= 0x06 ==> cart.spec_cartridge_type() == CartridgeType::RomCoprocessor(b)
            &&& b > 0x06 ==> cart.spec_cartridge_type() == CartridgeType::RomOnly
        }),
{
}

/// The mapping mode comes from the low nibble of the header's map mode
/// byte ($FFD5): 1 is HiROM, 5 ExHiROM, anything else LoROM; the region
/// byte ($FFD9) names, in order from $00, Japan, North America, Europe,
/// Sweden, Finland, Denmark, France, the Netherlands, Spain, Germany,
/// Italy, China, Indonesia, Korea, the common region, Canada, Brazil and
/// Australia, and any other byte is kept as it is.
pub proof fn law_header_mode_and_region(cart: Cartridge, rom: Seq<u8>, offset: int)
    requires
        cart.described_by(rom, offset),
    ensures
        ({
            let mode = rom[offset + 0x15] % 16;
            let r = rom[offset + 0x19];
            &&& mode == 1 ==> cart.spec_mapping_mode() == MappingMode::HiRom
            &&& mode == 5 ==> cart.spec_mapping_mode() == MappingMode::ExHiRom
            &&& mode != 1 && mode != 5 ==> cart.spec_mapping_mode() == MappingMode::LoRom
            &&& r == 0x00 ==> cart.spec_region() == Region::Japan
            &&& r == 0x01 ==> cart.spec_region() == Region::NorthAmerica
            &&& r == 0x02 ==> cart.spec_region() == Region::Europe
            &&& r == 0x03 ==> cart.spec_region() == Region::Sweden
            &&& r == 0x04 ==> cart.spec_region() == Region::Finland
            &&& r == 0x05 ==> cart.spec_region() == Region::Denmark
            &&& r == 0x06 ==> cart.spec_region() == Region::France
            &&& r == 0x07 ==> cart.spec_region() == Region::Netherlands
            &&& r == 0x08 ==> cart.spec_region() == Region::Spain
            &&& r == 0x09 ==> cart.spec_region() == Region::Germany
            &&& r == 0x0A ==> cart.spec_region() == Region::Italy
            &&& r == 0x0B ==> cart.spec_region() == Region::China
            &&& r == 0x0C ==> cart.spec_region() == Region::Indonesia
            &&& r == 0x0D ==> cart.spec_region() == Region::Korea
            &&& r == 0x0E ==> cart.spec_region() == Region::Common
            &&& r == 0x0F ==> cart.spec_region() == Region::Canada
            &&& r == 0x10 ==> cart.spec_region() == Region::Brazil
            &&& r == 0x11 ==> cart.spec_region() == Region::Australia
            &&& r > 0x11 ==> cart.spec_region() == Region::Other(r)
        }),
{
    let b = rom[offset + 0x15];
    assert(b & 0x0F == b % 16) by (bit_vector);
}

/// The size bytes count in powers of two: a ROM size byte of 0 is 1 KiB and
/// each step up doubles it, up to 15; from 16 on the image's own length is
/// taken. An SRAM size byte of 0 means no SRAM, 1 is 2 KiB and each step up
/// doubles it, up to 15; from 16 on there is none.
pub proof fn law_header_sizes(b: u8, image_len: nat)
    ensures
        rom_size_of(0, image_len) == 1024,
        b < 15 ==> rom_size_of((b + 1) as u8, image_len) == 2 * rom_size_of(b, image_len),
        b >= 16 ==> rom_size_of(b, image_len) == image_len,
        sram_size_of(0) == 0,
        sram_size_of(1) == 2048,
        1 <= b < 15 ==> sram_size_of((b + 1) as u8) == 2 * sram_size_of(b),
        b >= 16 ==> sram_size_of(b) == 0,
{
    assert((1024usize << 0u8) == 1024 && (1024usize << 1u8) == 2048 && (b < 15 ==> (1024usize
        << ((b + 1) as u8)) == 2 * (1024usize << b))) by (bit_vector);
}

} // verus!
