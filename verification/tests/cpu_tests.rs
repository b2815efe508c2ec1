use znes_wasm::cartridge::Cartridge;
use znes_wasm::cpu::{Cpu65816, StatusFlags};
use znes_wasm::memory::Memory;

fn create_test_system() -> (Cpu65816, Memory) {
    let rom = create_test_rom();
    let cartridge = Cartridge::from_rom(rom).unwrap();
    let memory = Memory::new(&cartridge);
    let cpu = Cpu65816::new();
    (cpu, memory)
}

fn create_test_system_with_code(code: &[u8]) -> (Cpu65816, Memory) {
    let rom = create_test_rom_with_code(code);
    let cartridge = Cartridge::from_rom(rom).unwrap();
    let memory = Memory::new(&cartridge);
    let cpu = Cpu65816::new();
    (cpu, memory)
}

fn create_test_rom() -> Vec<u8> {
    create_test_rom_with_code(&[0xEA]) // NOP
}

fn create_test_rom_with_code(code: &[u8]) -> Vec<u8> {
    let mut rom = vec![0; 0x8000];
    let header_offset = 0x7FC0;
    
    let title = b"TEST ROM             ";
    rom[header_offset..header_offset + 21].copy_from_slice(title);
    rom[header_offset + 0x15] = 0x20;
    rom[header_offset + 0x16] = 0x00;
    rom[header_offset + 0x17] = 0x08;
    rom[header_offset + 0x18] = 0x00;
    rom[header_offset + 0x19] = 0x01;
    rom[header_offset + 0x1C] = 0xFF;
    rom[header_offset + 0x1D] = 0xFF;
    rom[header_offset + 0x1E] = 0x00;
    rom[header_offset + 0x1F] = 0x00;
    
    // Place code at start of ROM
    rom[..code.len()].copy_from_slice(code);
    
    rom
}

#[test]
fn test_cpu_creation() {
    let cpu = Cpu65816::new();
    assert_eq!(cpu.a, 0);
    assert_eq!(cpu.x, 0);
    assert_eq!(cpu.y, 0);
    assert_eq!(cpu.s, 0x01FF);
    assert!(cpu.p.e); // Emulation mode
    assert!(cpu.p.m); // 8-bit accumulator
    assert!(cpu.p.x); // 8-bit index
}

#[test]
fn test_cpu_reset() {
    // Create ROM with reset vector
    let mut rom = vec![0; 0x8000];
    let header_offset = 0x7FC0;
    
    let title = b"TEST ROM             ";
    rom[header_offset..header_offset + 21].copy_from_slice(title);
    rom[header_offset + 0x15] = 0x20;
    rom[header_offset + 0x16] = 0x00;
    rom[header_offset + 0x17] = 0x08;
    rom[header_offset + 0x18] = 0x00;
    rom[header_offset + 0x19] = 0x01;
    rom[header_offset + 0x1C] = 0xFF;
    rom[header_offset + 0x1D] = 0xFF;
    rom[header_offset + 0x1E] = 0x00;
    rom[header_offset + 0x1F] = 0x00;
    
    // Set reset vector at $FFFC-$FFFD (LoROM: at offset $7FFC in ROM)
    rom[0x7FFC] = 0x00;
    rom[0x7FFD] = 0x80; // Reset to $8000
    
    let cartridge = Cartridge::from_rom(rom).unwrap();
    let memory = Memory::new(&cartridge);
    let mut cpu = Cpu65816::new();
    
    cpu.reset(&memory);
    
    assert_eq!(cpu.pc, 0x8000);
    assert_eq!(cpu.pbr, 0);
    assert!(cpu.p.e);
    assert!(cpu.p.i);
}

#[test]
fn test_status_flags_byte_conversion() {
    let mut flags = StatusFlags::new();
    flags.n = true;
    flags.z = true;
    flags.c = true;
    
    let byte = flags.to_byte();
    assert_eq!(byte & 0x80, 0x80); // N
    assert_eq!(byte & 0x02, 0x02); // Z
    assert_eq!(byte & 0x01, 0x01); // C
    
    let mut flags2 = StatusFlags::new();
    flags2.from_byte(byte);
    assert!(flags2.n);
    assert!(flags2.z);
    assert!(flags2.c);
}

#[test]
fn test_stack_push_pull() {
    let (mut cpu, mut memory) = create_test_system();
    cpu.reset(&memory);
    
    let initial_sp = cpu.s;
    cpu.push_byte(&mut memory, 0x42);
    assert_eq!(cpu.s, initial_sp.wrapping_sub(1));
    
    let value = cpu.pull_byte(&memory);
    assert_eq!(value, 0x42);
    assert_eq!(cpu.s, initial_sp);
}

#[test]
fn test_lda_immediate_8bit() {
    let code = vec![0xA9, 0x42]; // LDA #$42
    let (mut cpu, mut memory) = create_test_system_with_code(&code);
    
    cpu.pc = 0x8000;
    cpu.pbr = 0;
    cpu.p.m = true; // 8-bit mode
    
    let cycles = cpu.step(&mut memory);
    
    assert_eq!(cpu.a & 0xFF, 0x42);
    assert_eq!(cycles, 2);
    assert!(!cpu.p.z);
    assert!(!cpu.p.n);
}

#[test]
fn test_lda_immediate_16bit() {
    let code = vec![0xA9, 0x34, 0x12]; // LDA #$1234
    let (mut cpu, mut memory) = create_test_system_with_code(&code);
    
    cpu.pc = 0x8000;
    cpu.pbr = 0;
    cpu.p.m = false; // 16-bit mode
    cpu.p.e = false; // Native mode for 16-bit
    
    let cycles = cpu.step(&mut memory);
    
    assert_eq!(cpu.a, 0x1234);
    assert_eq!(cycles, 3);
    assert!(!cpu.p.z);
    assert!(!cpu.p.n);
}

#[test]
fn test_lda_zero_flag() {
    let code = vec![0xA9, 0x00]; // LDA #$00
    let (mut cpu, mut memory) = create_test_system_with_code(&code);
    
    cpu.pc = 0x8000;
    cpu.pbr = 0;
    cpu.p.m = true;
    
    cpu.step(&mut memory);
    
    assert_eq!(cpu.a & 0xFF, 0x00);
    assert!(cpu.p.z);
    assert!(!cpu.p.n);
}

#[test]
fn test_lda_negative_flag() {
    let code = vec![0xA9, 0x80]; // LDA #$80
    let (mut cpu, mut memory) = create_test_system_with_code(&code);
    
    cpu.pc = 0x8000;
    cpu.pbr = 0;
    cpu.p.m = true;
    
    cpu.step(&mut memory);
    
    assert_eq!(cpu.a & 0xFF, 0x80);
    assert!(cpu.p.n);
    assert!(!cpu.p.z);
}

#[test]
fn test_sta_direct_page() {
    let code = vec![0x85, 0x10]; // STA $10
    let (mut cpu, mut memory) = create_test_system_with_code(&code);
    
    cpu.a = 0x42;
    cpu.d = 0x0000;
    cpu.p.m = true;
    cpu.pbr = 0;
    cpu.pc = 0x8000;
    
    cpu.step(&mut memory);
    
    assert_eq!(memory.read(0x0010), 0x42);
}

#[test]
fn test_tax_transfer() {
    let code = vec![0xAA]; // TAX
    let (mut cpu, mut memory) = create_test_system_with_code(&code);
    
    cpu.a = 0x42;
    cpu.p.x = true; // 8-bit index
    cpu.pbr = 0;
    cpu.pc = 0x8000;
    
    cpu.step(&mut memory);
    
    assert_eq!(cpu.x, 0x42);
    assert!(!cpu.p.z);
    assert!(!cpu.p.n);
}

#[test]
fn test_branch_taken() {
    let code = vec![0xF0, 0x05]; // BEQ +5
    let (mut cpu, mut memory) = create_test_system_with_code(&code);
    
    cpu.p.z = true;
    cpu.pbr = 0;
    cpu.pc = 0x8000;
    
    let cycles = cpu.step(&mut memory);
    
    assert_eq!(cpu.pc, 0x8007); // 0x8002 + 5
    assert_eq!(cycles, 3);
}

#[test]
fn test_branch_not_taken() {
    let code = vec![0xF0, 0x05]; // BEQ +5
    let (mut cpu, mut memory) = create_test_system_with_code(&code);
    
    cpu.p.z = false;
    cpu.pbr = 0;
    cpu.pc = 0x8000;
    
    let cycles = cpu.step(&mut memory);
    
    assert_eq!(cpu.pc, 0x8002);
    assert_eq!(cycles, 2);
}

#[test]
fn test_jsr_rts() {
    let code = vec![
        0x20, 0x05, 0x80, // JSR $8005
        0xEA,             // NOP (shouldn't reach here before RTS)
        0xEA,             // NOP
        0x60,             // RTS (at $8005)
    ];
    let (mut cpu, mut memory) = create_test_system_with_code(&code);
    
    cpu.pc = 0x8000;
    cpu.pbr = 0;
    cpu.s = 0x01FF;
    
    cpu.step(&mut memory); // JSR
    assert_eq!(cpu.pc, 0x8005);
    
    cpu.step(&mut memory); // RTS
    assert_eq!(cpu.pc, 0x8003);
}
