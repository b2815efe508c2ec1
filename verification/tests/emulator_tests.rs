use znes_wasm::chips::dsp::{HostReply, HostRequest};
use znes_wasm::emulator::Emulator;

/// A LoROM image whose reset vector points at $8000, with `code` there.
fn rom_with_code(code: &[u8]) -> Vec<u8> {
    let mut rom = vec![0xFF; 0x8000];
    rom[..code.len()].copy_from_slice(code);
    rom[0x7FFC] = 0x00;
    rom[0x7FFD] = 0x80;
    rom
}

#[test]
fn new_emulator_is_at_power_on() {
    let emu = Emulator::new();
    assert_eq!(emu.get_master_cycles(), 0);
    assert!(!emu.is_paused());
    assert!(emu.memory().is_none());
    assert_eq!(emu.get_framebuffer_size(), (512, 478));
    assert_eq!(emu.get_framebuffer().len(), 512 * 478);
    assert!(emu.in_vblank());
    assert_eq!(emu.get_scanline(), 0);
    assert_eq!(emu.cpu().s, 0x01FF);
}

#[test]
fn load_rom_refuses_empty_image() {
    let mut emu = Emulator::new();
    assert_eq!(emu.load_rom(&[]), Err("ROM data is empty".to_string()));
    assert!(emu.memory().is_none());
}

#[test]
fn load_rom_refuses_short_image() {
    let mut emu = Emulator::new();
    let result = emu.load_rom(&[0u8; 100]);
    assert_eq!(
        result,
        Err("Failed to load ROM: \"ROM too small to contain valid header\"".to_string())
    );
    assert!(emu.memory().is_none());
}

#[test]
fn load_rom_resets_cpu_to_reset_vector() {
    let mut emu = Emulator::new();
    emu.load_rom(&rom_with_code(&[0xEA])).unwrap();
    assert!(emu.memory().is_some());
    assert_eq!(emu.cpu().pc, 0x8000);
    assert_eq!(emu.cpu().pbr, 0);
    assert!(emu.cpu().p.e);
}

#[test]
fn step_runs_one_instruction_and_six_master_cycles() {
    let mut emu = Emulator::new();
    emu.load_rom(&rom_with_code(&[0xA9, 0x42, 0xEA])).unwrap();
    emu.step();
    assert_eq!(emu.cpu().a & 0xFF, 0x42);
    assert_eq!(emu.cpu().pc, 0x8002);
    assert_eq!(emu.get_master_cycles(), 6);
    emu.step();
    assert_eq!(emu.get_master_cycles(), 12);
}

#[test]
fn paused_emulator_does_nothing() {
    let mut emu = Emulator::new();
    emu.load_rom(&rom_with_code(&[0xA9, 0x42])).unwrap();
    emu.pause();
    assert!(emu.is_paused());
    emu.step();
    assert!(!emu.run_frame());
    assert_eq!(emu.get_master_cycles(), 0);
    assert_eq!(emu.cpu().pc, 0x8000);
    emu.resume();
    assert!(!emu.is_paused());
    emu.step();
    assert_eq!(emu.cpu().pc, 0x8002);
}

#[test]
fn run_frame_without_cartridge_completes_one_frame() {
    let mut emu = Emulator::new();
    assert!(emu.run_frame());
    // 262 lines of 341 dots, one dot per master cycle.
    assert_eq!(emu.get_master_cycles(), 262 * 341);
    assert_eq!(emu.get_scanline(), 0);
    assert!(!emu.in_vblank());
}

#[test]
fn run_frame_stops_at_the_cycle_limit() {
    let mut emu = Emulator::new();
    assert!(emu.run_frame());
    // The second frame would end at 2 * 89342 cycles, past the limit.
    assert!(!emu.run_frame());
    assert_eq!(emu.get_master_cycles(), 100000);
}

#[test]
fn run_frame_executes_the_program() {
    let mut emu = Emulator::new();
    // LDA #$42; STA $10; STP
    emu.load_rom(&rom_with_code(&[0xA9, 0x42, 0x85, 0x10, 0xDB])).unwrap();
    assert!(emu.run_frame());
    assert!(emu.cpu().stopped);
    assert_eq!(emu.memory().unwrap().read(0x7E0010), 0x42);
}

#[test]
fn reset_clears_clock_and_reloads_memory() {
    let mut emu = Emulator::new();
    emu.load_rom(&rom_with_code(&[0xA9, 0x42, 0x85, 0x10, 0xDB])).unwrap();
    for _ in 0..3 {
        emu.step();
    }
    assert_eq!(emu.memory().unwrap().read(0x7E0010), 0x42);
    emu.pause();
    emu.reset();
    assert_eq!(emu.get_master_cycles(), 0);
    assert!(!emu.is_paused());
    assert_eq!(emu.cpu().pc, 0x8000);
    assert!(!emu.cpu().stopped);
    assert_eq!(emu.memory().unwrap().read(0x7E0010), 0x00);
    assert!(emu.in_vblank());
}

#[test]
fn ppu_registers_through_the_emulator() {
    let mut emu = Emulator::new();
    emu.write_ppu_register(0x2121, 0x05);
    emu.write_ppu_register(0x2122, 0x34);
    emu.write_ppu_register(0x2122, 0x12);
    emu.write_ppu_register(0x2121, 0x05);
    assert_eq!(emu.read_ppu_register(0x213B), 0x34);
    assert_eq!(emu.read_ppu_register(0x213B), 0x12);
}

#[test]
fn bulk_writes_land_in_ppu_memories() {
    let mut emu = Emulator::new();
    emu.write_vram(0x1000, &[0xAB, 0xCD]);
    emu.write_ppu_register(0x2115, 0x80);
    emu.write_ppu_register(0x2116, 0x00);
    emu.write_ppu_register(0x2117, 0x08);
    assert_eq!(emu.read_ppu_register(0x2139), 0xAB);

    emu.write_cgram(0xFF, &[0x7FFF, 0x001F]);
    emu.write_ppu_register(0x2121, 0x00);
    assert_eq!(emu.read_ppu_register(0x213B), 0x1F);
    assert_eq!(emu.read_ppu_register(0x213B), 0x00);

    emu.write_oam(0x0010, &[0x99]);
    emu.write_ppu_register(0x2102, 0x10);
    emu.write_ppu_register(0x2103, 0x00);
    assert_eq!(emu.read_ppu_register(0x2138), 0x99);
}

#[test]
fn framebuffer_writes_are_visible() {
    let mut emu = Emulator::new();
    emu.get_framebuffer_mut()[7] = 0xDEADBEEF;
    assert_eq!(emu.get_framebuffer()[7], 0xDEADBEEF);
}

#[test]
fn coprocessor_cartridge_loads() {
    let mut rom = rom_with_code(&[0xEA]);
    rom[0x7FC0 + 0x16] = 0x03; // ROM + DSP-1
    let mut emu = Emulator::new();
    emu.load_rom(&rom).unwrap();
    emu.step();
    emu.reset();
    assert_eq!(emu.get_master_cycles(), 0);
}

/// A machine with a DSP-1 cartridge loaded.
fn dsp1_machine() -> Emulator {
    let mut rom = rom_with_code(&[0xEA]);
    rom[0x7FC0 + 0x16] = 0x03; // ROM + DSP-1
    let mut emu = Emulator::new();
    emu.load_rom(&rom).unwrap();
    emu
}

#[test]
fn dsp1_through_the_emulator_computes_on_the_chip() {
    let mut emu = dsp1_machine();
    assert_eq!(emu.write_dsp1(0x6000, 0x00), None); // MULTIPLY
    for b in [3u8, 0, 5, 0] {
        assert_eq!(emu.write_dsp1(0x6000, b), None);
    }
    assert_eq!(emu.read_dsp1(0x7000), Some(0x00));
    assert_eq!(emu.read_dsp1(0x6000), Some(15));
}

#[test]
fn dsp1_rotate_through_the_emulator_waits_for_the_host() {
    let mut emu = dsp1_machine();
    let mut request = None;
    for b in [0x05u8, 0x00, 0x40, 100, 0] {
        request = emu.write_dsp1(0x6000, b);
    }
    assert_eq!(request, Some(HostRequest::Rotate { angle: 0x4000 }));
    assert_eq!(emu.dsp1_request(), Some(HostRequest::Rotate { angle: 0x4000 }));
    assert_eq!(emu.read_dsp1(0x7000), Some(0x80));
    emu.complete_dsp1(HostReply::Rotate { cos: 0, sin: 256 });
    assert_eq!(emu.dsp1_request(), None);
    assert_eq!(emu.read_dsp1(0x7000), Some(0x00));
    let out: Vec<u8> = (0..4).map(|_| emu.read_dsp1(0x6000).unwrap()).collect();
    assert_eq!(out, vec![0, 0, 100, 0]);
}

#[test]
fn dsp1_is_absent_without_its_cartridge() {
    let mut emu = Emulator::new();
    assert_eq!(emu.write_dsp1(0x6000, 0x00), None);
    assert_eq!(emu.read_dsp1(0x7000), None);
    assert_eq!(emu.dsp1_request(), None);
}
