use znes_wasm::chips::dsp::Dsp1;
use znes_wasm::chips::sa1::Sa1;
use znes_wasm::chips::superfx::SuperFx;
use znes_wasm::chips::{create_coprocessor, ChipType, CoProcessor};

// Chip detection

#[test]
fn test_chip_type_detection() {
    assert_eq!(ChipType::from_cartridge_byte(0x03), Some(ChipType::Dsp1));
    assert_eq!(ChipType::from_cartridge_byte(0x13), Some(ChipType::SuperFx));
    assert_eq!(ChipType::from_cartridge_byte(0x23), Some(ChipType::Sa1));
    assert_eq!(ChipType::from_cartridge_byte(0xF3), Some(ChipType::Cx4));
    assert_eq!(ChipType::from_cartridge_byte(0x00), None);
}

#[test]
fn test_create_coprocessor() {
    // Should successfully create implemented chips
    assert!(create_coprocessor(ChipType::Dsp1).is_some());
    assert!(create_coprocessor(ChipType::Sa1).is_some());
    assert!(create_coprocessor(ChipType::SuperFx).is_some());
    
    // Unimplemented chips should return None
    assert!(create_coprocessor(ChipType::Cx4).is_none());
}

// DSP-1

#[test]
fn test_multiply() {
    let mut dsp = Dsp1::new();
    
    // Write multiply command
    dsp.write(0x6000, 0x00);
    
    // Write operands: 100 * 200
    dsp.write(0x6000, 100);
    dsp.write(0x6000, 0);
    dsp.write(0x6000, 200);
    dsp.write(0x6000, 0);
    
    // Read result (should be 20000 = 0x4E20)
    let lo = dsp.read(0x6000) as u32;
    let ml = dsp.read(0x6000) as u32;
    let mh = dsp.read(0x6000) as u32;
    let hi = dsp.read(0x6000) as u32;
    let result = lo | (ml << 8) | (mh << 16) | (hi << 24);
    
    assert_eq!(result, 20000);
}

#[test]
fn test_square_root() {
    let mut dsp = Dsp1::new();
    
    // Write square root command
    dsp.write(0x6000, 0x0C);
    
    // Write operand: 144
    dsp.write(0x6000, 144);
    dsp.write(0x6000, 0);
    
    // Read result (should be 12)
    let lo = dsp.read(0x6000);
    let hi = dsp.read(0x6000);
    let result = (hi as u16) << 8 | (lo as u16);
    
    assert_eq!(result, 12);
}

#[test]
fn test_radius() {
    let mut dsp = Dsp1::new();
    
    // Write radius command
    dsp.write(0x6000, 0x02);
    
    // Write coordinates: (3, 4) -> distance should be 5
    dsp.write(0x6000, 3);
    dsp.write(0x6000, 0);
    dsp.write(0x6000, 4);
    dsp.write(0x6000, 0);
    
    // Read result
    let lo = dsp.read(0x6000);
    let hi = dsp.read(0x6000);
    let result = (hi as u16) << 8 | (lo as u16);
    
    assert_eq!(result, 5);
}

#[test]
fn dsp_test_status_register() {
    let mut dsp = Dsp1::new();
    
    // Initially not busy
    assert_eq!(dsp.read(0x7000), 0x00);
    
    // Start multiply command
    dsp.write(0x6000, 0x00);
    assert_eq!(dsp.read(0x7000), 0x80); // Busy
    
    // Complete the command
    dsp.write(0x6000, 1);
    dsp.write(0x6000, 0);
    dsp.write(0x6000, 1);
    dsp.write(0x6000, 0);
    
    // Should be not busy after completion
    assert_eq!(dsp.read(0x7000), 0x00);
}

#[test]
fn dsp_test_handles_address() {
    let dsp = Dsp1::new();
    
    assert!(dsp.handles_address(0x6000));
    assert!(dsp.handles_address(0x6FFF));
    assert!(dsp.handles_address(0x7000));
    assert!(dsp.handles_address(0x7FFF));
    assert!(!dsp.handles_address(0x5FFF));
    assert!(!dsp.handles_address(0x8000));
}

// SA-1

#[test]
fn test_iram_access() {
    let mut sa1 = Sa1::new();
    
    // Write to I-RAM
    sa1.write(0x3000, 0x42);
    sa1.write(0x37FF, 0xFF);
    
    // Read back
    assert_eq!(sa1.read(0x3000), 0x42);
    assert_eq!(sa1.read(0x37FF), 0xFF);
}

#[test]
fn test_message_passing() {
    let mut sa1 = Sa1::new();
    
    // SNES writes to SA-1
    sa1.write(0x2210, 0x12);
    sa1.write(0x2211, 0x34);
    
    // SA-1 reads from SNES
    assert_eq!(sa1.registers.snes_message[0], 0x12);
    assert_eq!(sa1.registers.snes_message[1], 0x34);
    
    // SA-1 writes back to SNES
    sa1.write(0x2214, 0xAB);
    sa1.write(0x2215, 0xCD);
    
    assert_eq!(sa1.read(0x2301), 0xAB);
    assert_eq!(sa1.read(0x2302), 0xCD);
}

#[test]
fn test_math_multiply() {
    let mut sa1 = Sa1::new();
    
    // Set up multiplication: 100 * 200
    sa1.write(0x2250, 100);  // Low byte of A
    sa1.write(0x2251, 0);    // High byte of A
    sa1.write(0x2252, 200);  // Low byte of B
    sa1.write(0x2253, 0);    // High byte of B (triggers operation)
    
    // Read result (should be 20000 = 0x4E20)
    let lo = sa1.read(0x2306) as u32;
    let hi = sa1.read(0x2307) as u32;
    let result = (hi << 8) | lo;
    
    assert_eq!(result, 20000);
}

#[test]
fn sa1_test_handles_address() {
    let sa1 = Sa1::new();
    
    assert!(sa1.handles_address(0x2200));
    assert!(sa1.handles_address(0x23FF));
    assert!(sa1.handles_address(0x3000));
    assert!(sa1.handles_address(0x37FF));
    assert!(!sa1.handles_address(0x2000));
    assert!(!sa1.handles_address(0x4000));
}

#[test]
fn test_sa1_control() {
    let mut sa1 = Sa1::new();
    
    // Set reset vector
    sa1.write(0x2203, 0x00);
    sa1.write(0x2204, 0x80);
    assert_eq!(sa1.registers.crv, 0x8000);
    
    // Start SA-1
    sa1.write(0x2200, 0x80);
    assert!(sa1.sa1_running);
    assert_eq!(sa1.sa1_pc, 0x8000);
}

// SuperFX

#[test]
fn test_register_access() {
    let mut sfx = SuperFx::new();
    
    // Write to R0 (address 0x3000-0x3001)
    sfx.write(0x3000, 0x34);
    sfx.write(0x3001, 0x12);
    
    // Read back
    assert_eq!(sfx.read(0x3000), 0x34);
    assert_eq!(sfx.read(0x3001), 0x12);
    assert_eq!(sfx.r[0], 0x1234);
}

#[test]
fn test_cache_ram() {
    let mut sfx = SuperFx::new();
    
    // Write to cache RAM
    sfx.write(0x3100, 0xAB);
    sfx.write(0x32FF, 0xCD);
    
    // Read back
    assert_eq!(sfx.read(0x3100), 0xAB);
    assert_eq!(sfx.read(0x32FF), 0xCD);
}

#[test]
fn test_add_instruction() {
    let mut sfx = SuperFx::new();
    
    // Set up registers: R0 = 100, R1 = 50
    sfx.r[0] = 100;
    sfx.r[1] = 50;
    
    // Execute ADD R1 (opcode 0x51)
    let cycles = sfx.execute_instruction(0x51);
    
    // Check result
    assert_eq!(sfx.r[0], 150);
    assert!(!sfx.status.zero);
    assert!(!sfx.status.sign);
    assert_eq!(cycles, 1);
}

#[test]
fn test_mult_instruction() {
    let mut sfx = SuperFx::new();
    
    // Set up registers: R0 = 10, R2 = 20
    sfx.r[0] = 10;
    sfx.r[2] = 20;
    
    // Execute MULT R2 (opcode 0x82)
    let cycles = sfx.execute_instruction(0x82);
    
    // Check result
    assert_eq!(sfx.r[0], 200);
    assert_eq!(cycles, 8); // Multiply takes more cycles
}

#[test]
fn superfx_test_status_register() {
    let mut sfx = SuperFx::new();
    
    // Initially not running
    assert_eq!(sfx.read(0x3030) & 0x20, 0);
    
    // Start execution
    sfx.write(0x3030, 0x20);
    assert!(sfx.status.go);
    assert_eq!(sfx.read(0x3030) & 0x20, 0x20);
}

#[test]
fn test_clock_speed() {
    let mut sfx = SuperFx::new();
    
    // Default: 10.7 MHz (multiplier = 1)
    assert_eq!(sfx.clock_multiplier, 1);
    
    // Set high-speed mode: 21.4 MHz
    sfx.write(0x3034, 0x20);
    assert_eq!(sfx.clock_multiplier, 2);
}

#[test]
fn superfx_test_handles_address() {
    let sfx = SuperFx::new();
    
    assert!(sfx.handles_address(0x3000));
    assert!(sfx.handles_address(0x303F));
    assert!(sfx.handles_address(0x3100));
    assert!(sfx.handles_address(0x32FF));
    assert!(!sfx.handles_address(0x2FFF));
    assert!(!sfx.handles_address(0x3300));
}
