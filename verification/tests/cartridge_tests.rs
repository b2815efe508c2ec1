use znes_wasm::cartridge::{Cartridge, CartridgeType, MappingMode, Region};

fn create_lorom_header() -> Vec<u8> {
    let mut rom = vec![0; 0x8000]; // 32KB

    // Header at $7FC0
    let offset = 0x7FC0;

    // Title: "TEST ROM" (padded with spaces to exactly 21 bytes)
    let title = b"TEST ROM             "; // 21 bytes
    rom[offset..offset + 21].copy_from_slice(title);

    // Mapping mode: LoROM, Fast ($20)
    rom[offset + 0x15] = 0x20;
    // Cartridge type: ROM only
    rom[offset + 0x16] = 0x00;
    // ROM size: 32KB = 2^15 = $08
    rom[offset + 0x17] = 0x08;
    // SRAM size: 8KB = 2^13 = $03
    rom[offset + 0x18] = 0x03;
    // Region: North America
    rom[offset + 0x19] = 0x01;
    // Checksum complement
    rom[offset + 0x1C] = 0x00;
    rom[offset + 0x1D] = 0x00;
    rom[offset + 0x1E] = 0xFF;
    rom[offset + 0x1F] = 0xFF;

    rom
}

fn create_hirom_header() -> Vec<u8> {
    let mut rom = vec![0; 0x10000]; // 64KB

    // Header at $FFC0
    let offset = 0xFFC0;

    // Title (exactly 21 bytes)
    let title = b"HIROM TEST           "; // 21 bytes
    rom[offset..offset + 21].copy_from_slice(title);

    // Mapping mode: HiROM, Fast ($21)
    rom[offset + 0x15] = 0x21;
    // Cartridge type: ROM+RAM
    rom[offset + 0x16] = 0x01;
    // ROM size: 64KB = 2^16 = $09
    rom[offset + 0x17] = 0x09;
    // SRAM size: None
    rom[offset + 0x18] = 0x00;
    // Region: Japan
    rom[offset + 0x19] = 0x00;
    // Checksum complement
    rom[offset + 0x1C] = 0x12;
    rom[offset + 0x1D] = 0x34;
    rom[offset + 0x1E] = 0xED;
    rom[offset + 0x1F] = 0xCB;

    rom
}

#[test]
fn test_lorom_detection() {
    let rom = create_lorom_header();
    let cartridge = Cartridge::from_rom(rom).unwrap();

    assert_eq!(cartridge.mapping_mode(), MappingMode::LoRom);
    assert_eq!(cartridge.title(), "TEST ROM");
    assert_eq!(cartridge.region(), Region::NorthAmerica);
    assert_eq!(cartridge.sram_size(), 8192);
}

#[test]
fn test_hirom_detection() {
    let rom = create_hirom_header();
    let cartridge = Cartridge::from_rom(rom).unwrap();

    assert_eq!(cartridge.mapping_mode(), MappingMode::HiRom);
    assert_eq!(cartridge.title(), "HIROM TEST");
    assert_eq!(cartridge.region(), Region::Japan);
}

#[test]
fn test_smc_header_removal() {
    let mut rom_with_header = vec![0; 512]; // 512-byte .smc header
    let mut rom = create_lorom_header();
    rom_with_header.append(&mut rom);

    let cartridge = Cartridge::from_rom(rom_with_header).unwrap();

    assert_eq!(cartridge.mapping_mode(), MappingMode::LoRom);
    assert_eq!(cartridge.title(), "TEST ROM");
    assert_eq!(cartridge.rom_data().len(), 0x8000);
}

#[test]
fn test_cartridge_type_detection() {
    let mut rom = create_lorom_header();

    // Set cartridge type to ROM+RAM+Battery
    rom[0x7FC0 + 0x16] = 0x02;

    let cartridge = Cartridge::from_rom(rom).unwrap();
    assert_eq!(cartridge.cartridge_type(), CartridgeType::RomRamBattery);
}

#[test]
fn test_region_detection() {
    let mut rom = create_lorom_header();

    // Test various regions
    rom[0x7FC0 + 0x19] = 0x02; // Europe
    let cartridge = Cartridge::from_rom(rom.clone()).unwrap();
    assert_eq!(cartridge.region(), Region::Europe);

    rom[0x7FC0 + 0x19] = 0x00; // Japan
    let cartridge = Cartridge::from_rom(rom.clone()).unwrap();
    assert_eq!(cartridge.region(), Region::Japan);
}

#[test]
fn from_rom_rejects_short_image() {
    let result = Cartridge::from_rom(vec![0u8; 0x7FF0]);
    match result {
        Err(msg) => assert_eq!(msg, "ROM too small to contain valid header"),
        Ok(_) => panic!("a short image must be refused"),
    }
}

#[test]
fn from_rom_accepts_image_just_long_enough() {
    let cartridge = Cartridge::from_rom(vec![0u8; 0x7FF1]).unwrap();
    assert_eq!(cartridge.mapping_mode(), MappingMode::LoRom);
    assert_eq!(cartridge.cartridge_type(), CartridgeType::RomOnly);
    assert!(cartridge.is_header_valid());
}

#[test]
fn from_rom_reads_sizes_and_coprocessor_type() {
    let mut rom = create_lorom_header();
    rom[0x7FC0 + 0x16] = 0x03;
    rom[0x7FC0 + 0x18] = 0x00;
    let cartridge = Cartridge::from_rom(rom).unwrap();
    assert_eq!(cartridge.cartridge_type(), CartridgeType::RomCoprocessor(0x03));
    assert_eq!(cartridge.sram_size(), 0);
    assert_eq!(cartridge.rom_size(), 0x40000);
}

#[test]
fn title_with_invalid_utf8_is_replaced() {
    let mut rom = create_lorom_header();
    rom[0x7FC0] = 0xFF;
    let cartridge = Cartridge::from_rom(rom).unwrap();
    assert_eq!(cartridge.title(), "\u{FFFD}EST ROM");
}

#[test]
fn region_from_byte_maps_known_codes() {
    assert_eq!(Region::from_byte(0x01), Region::NorthAmerica);
    assert_eq!(Region::from_byte(0x00), Region::Japan);
    assert_eq!(Region::from_byte(0x02), Region::Europe);
}

#[test]
fn region_from_u8_matches_from_byte() {
    assert_eq!(Region::from(0x02u8), Region::Europe);
    assert_eq!(Region::from(0x0Du8), Region::Korea);
    assert_eq!(Region::from(0x42u8), Region::Other(0x42));
}

#[test]
fn header_without_a_plausible_location_is_not_valid() {
    let cartridge = Cartridge::from_rom(vec![0xFFu8; 0x8000]).unwrap();
    assert_eq!(cartridge.mapping_mode(), MappingMode::LoRom);
    assert!(!cartridge.is_header_valid());
    let cartridge = Cartridge::from_rom(create_lorom_header()).unwrap();
    assert!(cartridge.is_header_valid());
}
