use znes_wasm::apu::{decode_brr_block, Apu, Psw, SpcBus};
use znes_wasm::cartridge::Cartridge;
use znes_wasm::chips::dsp::{isqrt_u32, Dsp1, Dsp1Command, HostReply, HostRequest};
use znes_wasm::chips::sa1::Sa1;
use znes_wasm::chips::superfx::SuperFx;
use znes_wasm::chips::{CoProcessor, Coprocessor};
use znes_wasm::cpu::{Cpu65816, StatusFlags};
use znes_wasm::memory::Memory;

/// A CPU reset into `code` at $00:8000 of a LoROM image.
fn system_with_code(code: &[u8]) -> (Cpu65816, Memory) {
    let mut rom = vec![0xFF; 0x8000];
    rom[..code.len()].copy_from_slice(code);
    rom[0x7FFC] = 0x00;
    rom[0x7FFD] = 0x80;
    let cartridge = Cartridge::from_rom(rom).unwrap();
    let memory = Memory::new(&cartridge);
    let mut cpu = Cpu65816::new();
    cpu.reset(&memory);
    (cpu, memory)
}

fn run(cpu: &mut Cpu65816, memory: &mut Memory, steps: usize) {
    for _ in 0..steps {
        cpu.step(memory);
    }
}

// ---------------------------------------------------------------------------
// Main CPU
// ---------------------------------------------------------------------------

#[test]
fn pha_then_pla_restores_accumulator_and_stack() {
    // LDA #$5A; PHA; LDA #$00; PLA
    let (mut cpu, mut memory) = system_with_code(&[0xA9, 0x5A, 0x48, 0xA9, 0x00, 0x68]);
    run(&mut cpu, &mut memory, 2);
    let s_after_push = cpu.s;
    assert_eq!(s_after_push, 0x01FE);
    run(&mut cpu, &mut memory, 2);
    assert_eq!(cpu.a & 0xFF, 0x5A);
    assert_eq!(cpu.s, 0x01FF);
}

#[test]
fn php_then_plp_restores_flags() {
    // SEC; SED; PHP; CLC; CLD; PLP
    let (mut cpu, mut memory) = system_with_code(&[0x38, 0xF8, 0x08, 0x18, 0xD8, 0x28]);
    run(&mut cpu, &mut memory, 3);
    let saved = cpu.p.to_byte();
    run(&mut cpu, &mut memory, 2);
    assert!(!cpu.p.c);
    run(&mut cpu, &mut memory, 1);
    assert_eq!(cpu.p.to_byte(), saved);
    assert!(cpu.p.c && cpu.p.d);
}

#[test]
fn xba_twice_restores_accumulator() {
    // CLC; XCE; REP #$20; LDA #$1234; XBA; XBA
    let (mut cpu, mut memory) = system_with_code(&[0x18, 0xFB, 0xC2, 0x20, 0xA9, 0x34, 0x12, 0xEB, 0xEB]);
    run(&mut cpu, &mut memory, 5);
    assert_eq!(cpu.a, 0x3412);
    run(&mut cpu, &mut memory, 1);
    assert_eq!(cpu.a, 0x1234);
}

#[test]
fn compare_sets_carry_and_zero() {
    // LDA #$40; CMP #$41; CMP #$40; CMP #$3F
    let (mut cpu, mut memory) = system_with_code(&[0xA9, 0x40, 0xC9, 0x41, 0xC9, 0x40, 0xC9, 0x3F]);
    run(&mut cpu, &mut memory, 2);
    assert!(!cpu.p.c && !cpu.p.z && cpu.p.n);
    run(&mut cpu, &mut memory, 1);
    assert!(cpu.p.c && cpu.p.z);
    run(&mut cpu, &mut memory, 1);
    assert!(cpu.p.c && !cpu.p.z);
}

#[test]
fn decimal_add_and_subtract() {
    // SED; CLC; LDA #$15; ADC #$27; SEC; SBC #$50
    let (mut cpu, mut memory) = system_with_code(&[0xF8, 0x18, 0xA9, 0x15, 0x69, 0x27, 0x38, 0xE9, 0x50]);
    run(&mut cpu, &mut memory, 4);
    assert_eq!(cpu.a & 0xFF, 0x42);
    assert!(!cpu.p.c);
    run(&mut cpu, &mut memory, 2);
    // 42 - 50 = -8, that is 92 with a borrow.
    assert_eq!(cpu.a & 0xFF, 0x92);
    assert!(!cpu.p.c);
}

#[test]
fn decimal_add_carries_out() {
    // SED; SEC; LDA #$99; ADC #$00
    let (mut cpu, mut memory) = system_with_code(&[0xF8, 0x38, 0xA9, 0x99, 0x69, 0x00]);
    run(&mut cpu, &mut memory, 4);
    assert_eq!(cpu.a & 0xFF, 0x00);
    assert!(cpu.p.c);
}

#[test]
fn register_widths_follow_the_mode() {
    // CLC; XCE; REP #$30; LDX #$1234; LDY #$5678; SEP #$10; SEC; XCE
    let (mut cpu, mut memory) = system_with_code(&[
        0x18, 0xFB, 0xC2, 0x30, 0xA2, 0x34, 0x12, 0xA0, 0x78, 0x56, 0xE2, 0x10, 0x38, 0xFB,
    ]);
    run(&mut cpu, &mut memory, 5);
    assert_eq!(cpu.x, 0x1234);
    assert_eq!(cpu.y, 0x5678);
    run(&mut cpu, &mut memory, 1);
    assert_eq!(cpu.x, 0x34);
    assert_eq!(cpu.y, 0x78);
    run(&mut cpu, &mut memory, 2);
    assert!(cpu.p.e && cpu.p.m && cpu.p.x);
}

#[test]
fn status_flags_roundtrip_through_a_byte() {
    let mut flags = StatusFlags::new();
    flags.from_byte(0xA5);
    assert_eq!(flags.to_byte(), 0xA5);
    let mut other = StatusFlags::new();
    other.from_byte(flags.to_byte());
    assert_eq!(other.to_byte(), flags.to_byte());
}

#[test]
fn stopped_cpu_spends_one_cycle() {
    // STP
    let (mut cpu, mut memory) = system_with_code(&[0xDB]);
    assert_eq!(cpu.step(&mut memory), 3);
    assert!(cpu.stopped);
    let pc = cpu.pc;
    assert_eq!(cpu.step(&mut memory), 1);
    assert_eq!(cpu.pc, pc);
}

// ---------------------------------------------------------------------------
// Memory
// ---------------------------------------------------------------------------

#[test]
fn low_ram_of_bank_zero_reads_back() {
    let (_cpu, mut memory) = system_with_code(&[0xEA]);
    memory.write(0x001FFF, 0x3C);
    assert_eq!(memory.read(0x001FFF), 0x3C);
    assert_eq!(memory.read(0x7E1FFF), 0x3C);
}

#[test]
fn apu_ports_are_one_way() {
    let (_cpu, mut memory) = system_with_code(&[0xEA]);
    memory.write(0x002141, 0x77);
    assert_eq!(memory.apu().cpu_ports[1], 0x77);
    // The CPU reads what the SPC700 wrote, not what it wrote itself.
    assert_eq!(memory.read(0x002141), 0x00);
    memory.apu_mut().spc_ports[1] = 0x55;
    assert_eq!(memory.read(0x802141), 0x55);
}

#[test]
fn wram_banks_have_no_port_hole() {
    let (_cpu, mut memory) = system_with_code(&[0xEA]);
    memory.write(0x7E2140, 0x42);
    assert_eq!(memory.read(0x7E2140), 0x42);
    assert_eq!(memory.apu().cpu_ports[0], 0x00);
    memory.write(0x7F2143, 0x24);
    assert_eq!(memory.read(0x7F2143), 0x24);
}

#[test]
fn word_access_is_little_endian() {
    let (_cpu, mut memory) = system_with_code(&[0xEA]);
    memory.write_word(0x7E2000, 0xBEEF);
    assert_eq!(memory.read(0x7E2000), 0xEF);
    assert_eq!(memory.read(0x7E2001), 0xBE);
    assert_eq!(memory.read_word(0x7E2000), 0xBEEF);
}

#[test]
fn sram_loads_and_resets() {
    let mut rom = vec![0u8; 0x8000];
    rom[0x7FC0 + 0x18] = 0x01; // 2 KiB of SRAM
    let cartridge = Cartridge::from_rom(rom).unwrap();
    let mut memory = Memory::new(&cartridge);
    assert_eq!(memory.sram().len(), 2048);
    memory.load_sram(&[1, 2, 3]);
    assert_eq!(&memory.sram()[..4], &[1, 2, 3, 0]);
    memory.write(0x7E0000, 9);
    memory.reset();
    assert_eq!(memory.read(0x7E0000), 0);
}

// ---------------------------------------------------------------------------
// APU
// ---------------------------------------------------------------------------

#[test]
fn psw_roundtrips_through_a_byte() {
    let mut psw = Psw::new();
    psw.from_byte(0x5A);
    assert_eq!(psw.to_byte(), 0x5A);
    psw.update_nz(0x80);
    assert_eq!(psw.to_byte(), 0xD8);
}

#[test]
fn brr_block_without_filter() {
    // Range 0, filter 0: each nybble, sign-extended, times 16.
    let out = decode_brr_block(0x00, &[0x1F, 0x70, 0, 0, 0, 0, 0, 0]);
    assert_eq!(out[0], 16);
    assert_eq!(out[1], -16);
    assert_eq!(out[2], 112);
    assert_eq!(out[3], 0);
}

#[test]
fn brr_block_with_filter_one() {
    // Filter 1 adds 15/16 of the previous sample.
    let out = decode_brr_block(0x04, &[0x10, 0, 0, 0, 0, 0, 0, 0]);
    assert_eq!(out[0], 16);
    assert_eq!(out[1], 15);
    assert_eq!(out[2], 14);
}

#[test]
fn brr_range_shifts_right() {
    let out = decode_brr_block(0x20, &[0x70, 0, 0, 0, 0, 0, 0, 0]);
    assert_eq!(out[0], 28);
}

#[test]
fn spc_writes_dsp_registers_through_f2_f3() {
    let mut apu = Apu::new();
    apu.write8(0xF2, 0x84);
    assert_eq!(apu.read8(0xF2), 0x04);
    apu.write8(0xF3, 0x12);
    assert_eq!(apu.read8(0xF3), 0x12);
    assert_eq!(apu.dsp.registers[0x04], 0x12);
}

#[test]
fn key_on_starts_a_voice() {
    let mut apu = Apu::new();
    // Voice 0 sample source 1: its BRR blocks start at $0100.
    apu.ram[0x0100] = 0x00;
    apu.ram[0x0101] = 0x10;
    apu.write8(0xF2, 0x04);
    apu.write8(0xF3, 0x01);
    apu.write8(0xF2, 0x4C);
    apu.write8(0xF3, 0x01);
    assert!(apu.dsp.voices[0].is_active());
    assert!(!apu.dsp.voices[1].is_active());
    apu.write8(0xF2, 0x5C);
    apu.write8(0xF3, 0x01);
    assert!(!apu.dsp.voices[0].is_active());
}

// ---------------------------------------------------------------------------
// Coprocessors
// ---------------------------------------------------------------------------

fn dsp_command(dsp: &mut Dsp1, command: u8, params: &[u8]) {
    dsp.write(0x6000, command);
    for &p in params {
        dsp.write(0x6000, p);
    }
}

#[test]
fn dsp1_inverse() {
    let mut dsp = Dsp1::new();
    dsp_command(&mut dsp, 0x04, &[4, 0]);
    assert_eq!(dsp.read(0x6000), 0x00);
    assert_eq!(dsp.read(0x6000), 0x40);

    let mut dsp = Dsp1::new();
    dsp_command(&mut dsp, 0x04, &[0xFD, 0xFF]); // -3
    assert_eq!(dsp.read(0x6000), 0xAB);
    assert_eq!(dsp.read(0x6000), 0xAA);

    let mut dsp = Dsp1::new();
    dsp_command(&mut dsp, 0x04, &[0, 0]);
    assert_eq!(dsp.read(0x6000), 0xFF);
    assert_eq!(dsp.read(0x6000), 0x7F);
}

#[test]
fn dsp1_project() {
    let mut dsp = Dsp1::new();
    dsp_command(&mut dsp, 0x07, &[100, 0, 0xCE, 0xFF, 200, 0]); // 100, -50, 200
    assert_eq!(dsp.read(0x6000), 128);
    assert_eq!(dsp.read(0x6000), 0);
    assert_eq!(dsp.read(0x6000), 0xC0);
    assert_eq!(dsp.read(0x6000), 0xFF);
}

#[test]
fn dsp1_takes_a_new_command_after_one_completes() {
    let mut d = Dsp1::new();
    dsp_command(&mut d, 0x00, &[1, 0, 1, 0]);
    let product: Vec<u8> = (0..4).map(|_| d.read(0x6000)).collect();
    assert_eq!(product, vec![1, 0, 0, 0]);
    assert_eq!(d.read(0x7000), 0x00);
    // Radius of (3, 4).
    dsp_command(&mut d, 0x02, &[3, 0, 4, 0]);
    assert_eq!(d.read(0x6000), 5);
    assert_eq!(d.read(0x6000), 0);
}

#[test]
fn dsp1_status_while_waiting_for_the_host() {
    let mut d = Dsp1::new();
    dsp_command(&mut d, 0x05, &[0, 0, 7, 0]);
    assert_eq!(d.read(0x7000), 0x80);
    d.complete_rotate(256, 0);
    assert_eq!(d.read(0x7000), 0x00);
    // The next byte starts a new command.
    dsp_command(&mut d, 0x0C, &[81, 0]);
    assert_eq!(d.read(0x6000), 9);
}

#[test]
fn dsp1_attitude_output_size_matches_its_results() {
    assert_eq!(Dsp1Command::Attitude.output_size(), 16);
    assert_eq!(Dsp1Command::Attitude.input_size(), 8);
}

#[test]
fn dsp1_distance_saturates() {
    let mut dsp = Dsp1::new();
    dsp_command(&mut dsp, 0x01, &[0xFF, 0x7F, 0xFF, 0x7F, 0x00, 0x00]);
    assert_eq!(dsp.read(0x6000), 0xFF);
    assert_eq!(dsp.read(0x6000), 0x7F);
}

#[test]
fn dsp1_rotate_waits_for_the_host() {
    let mut dsp = Dsp1::new();
    dsp_command(&mut dsp, 0x05, &[0x00, 0x40, 100, 0]); // a quarter turn, value 100
    assert_eq!(dsp.read(0x7000), 0x80);
    assert_eq!(dsp.pending_request(), Some(HostRequest::Rotate { angle: 0x4000 }));
    dsp.complete(HostReply::Rotate { cos: 0, sin: 256 });
    assert_eq!(dsp.read(0x7000), 0x00);
    assert_eq!(dsp.read(0x6000), 0);
    assert_eq!(dsp.read(0x6000), 0);
    assert_eq!(dsp.read(0x6000), 100);
    assert_eq!(dsp.read(0x6000), 0);
    assert!(dsp.pending_request().is_none());
}

#[test]
fn dsp1_attitude_reports_the_host_matrix() {
    let mut dsp = Dsp1::new();
    dsp_command(&mut dsp, 0x06, &[0, 0, 0, 0, 0, 0, 9, 0]);
    assert_eq!(
        dsp.pending_request(),
        Some(HostRequest::Attitude { pitch: 0, yaw: 0, roll: 0 })
    );
    assert_eq!(dsp.read(0x7000), 0x80);
    dsp.complete(HostReply::Attitude { matrix: [256, 0, 0, 0, 256, 0, 0, 0, 256] });
    assert_eq!(dsp.read(0x7000), 0x00);
    let out: Vec<u8> = (0..16).map(|_| dsp.read(0x6000)).collect();
    assert_eq!(out, vec![0, 1, 0, 0, 0, 0, 0, 1, 0, 0, 0, 0, 9, 0, 0, 0]);
}

#[test]
fn dsp1_objective_with_a_fresh_matrix() {
    let mut dsp = Dsp1::new();
    dsp_command(&mut dsp, 0x08, &[3, 0, 0xFE, 0xFF, 7, 0]);
    let out: Vec<u8> = (0..6).map(|_| dsp.read(0x6000)).collect();
    assert_eq!(out, vec![0, 0, 0, 0, 0, 0]);
}

#[test]
fn dsp1_subjective_distance() {
    let mut dsp = Dsp1::new();
    dsp_command(&mut dsp, 0x0A, &[2, 0, 3, 0, 6, 0]);
    assert_eq!(dsp.subjective_distance(), 7);
    assert_eq!(dsp.pending_request(), Some(HostRequest::Subjective { x: 2, y: 3, z: 6, distance: 7 }));
    dsp.complete(HostReply::Subjective { angle_h: 11, angle_v: 22 });
    assert_eq!(dsp.read(0x7000), 0x00);
    let out: Vec<u8> = (0..6).map(|_| dsp.read(0x6000)).collect();
    assert_eq!(out, vec![7, 0, 11, 0, 22, 0]);
}

#[test]
fn integer_square_root() {
    assert_eq!(isqrt_u32(0), 0);
    assert_eq!(isqrt_u32(15), 3);
    assert_eq!(isqrt_u32(16), 4);
    assert_eq!(isqrt_u32(u32::MAX), 65535);
}

#[test]
fn sa1_signed_division() {
    let mut sa1 = Sa1::new();
    sa1.write(0x2250, 0xF9); // -7
    sa1.write(0x2251, 0xFF);
    sa1.write(0x2200, 0x01); // divide
    sa1.write(0x2252, 2);
    sa1.write(0x2253, 0);
    // Quotient -3, remainder -1.
    assert_eq!(sa1.read(0x2306), 0xFD);
    assert_eq!(sa1.read(0x2307), 0xFF);
    assert_eq!(sa1.read(0x2308), 0xFF);
    assert_eq!(sa1.read(0x2309), 0xFF);
}

#[test]
fn sa1_signed_multiply() {
    let mut sa1 = Sa1::new();
    sa1.write(0x2250, 0xF6); // -10
    sa1.write(0x2251, 0xFF);
    sa1.write(0x2252, 3);
    sa1.write(0x2253, 0);
    // -30 as 64 bits.
    assert_eq!(sa1.read(0x2306), 0xE2);
    assert_eq!(sa1.read(0x2307), 0xFF);
    assert_eq!(sa1.read(0x230B), 0xFF);
}

#[test]
fn sa1_steps_only_while_running() {
    let mut sa1 = Sa1::new();
    assert_eq!(sa1.step(10), 10);
    assert_eq!(sa1.sa1_pc, 0);
    sa1.write(0x2203, 0x00);
    sa1.write(0x2204, 0x90);
    sa1.write(0x2200, 0x80);
    sa1.step(10);
    assert_eq!(sa1.sa1_pc, 0x9001);
}

#[test]
fn superfx_sub_sets_flags() {
    let mut sfx = SuperFx::new();
    sfx.r[0] = 5;
    sfx.r[3] = 7;
    sfx.execute_instruction(0x63); // SUB R3
    assert_eq!(sfx.r[0], 0xFFFE);
    assert!(sfx.status.sign);
    assert!(!sfx.status.zero);
}

#[test]
fn superfx_stops_on_stop_instruction() {
    let mut sfx = SuperFx::new();
    // STOP at the program counter (R15 = 0, cache base 0).
    sfx.write(0x3100, 0x00);
    sfx.write(0x3030, 0x20);
    assert!(sfx.status.go);
    sfx.step(16);
    assert!(!sfx.status.go);
}

#[test]
fn coprocessor_enum_dispatches() {
    let mut chip = Coprocessor::Dsp1(Dsp1::new());
    assert!(chip.handles_address(0x6000));
    assert!(!chip.handles_address(0x8000));
    chip.write(0x6000, 0x00);
    for _ in 0..4 {
        chip.write(0x6000, 2);
    }
    assert_eq!(chip.read(0x6000), 0x04);
    assert_eq!(chip.run(6), 0);
}

#[test]
fn dsp1_refuses_a_radius_whose_squares_overflow() {
    let mut d = Dsp1::new();
    assert!(d.write_allowed(0x6000, 0x02));
    d.write(0x6000, 0x02); // RADIUS
    for b in [0x00u8, 0x80, 0x00] {
        assert!(d.write_allowed(0x6000, b));
        d.write(0x6000, b);
    }
    // x = y = -32768: the sum of squares is 2^31.
    assert!(!d.write_allowed(0x6000, 0x80));
    assert!(d.write_allowed(0x6000, 0x00));
    assert!(d.write_allowed(0x7000, 0x80));
}
