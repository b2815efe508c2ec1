# znes_wasm

A Super Nintendo emulator core whose behaviour is stated in contracts and
proved with Verus.

## Layout

- `src/cartridge.rs` — ROM images: copier-header stripping, header location
  and parsing (title, region, mapping mode, sizes, chip type).
- `src/memory.rs` — the 24-bit memory map for LoROM, HiROM and ExHiROM,
  built as page tables and described page by page; laws on mirrors,
  read-after-write and read-only ROM.
- `src/cpu.rs`, `src/cpu_laws.rs` — the 65816: decoding, addressing modes and
  the instruction semantics as spec functions, the executing core proved
  against them, and laws (stack round trips, JSR/RTS, XBA, compare flags,
  decimal arithmetic).
- `src/ppu.rs` — the PPU: registers, beam timing, and scanline rendering of
  modes 0, 1 and 7 with sprites; laws on the memory ports and the beam.
- `src/apu.rs` — the SPC700 subset, the DSP register file and voices, BRR
  decoding, and the APU's ports.
- `src/chips/` — the DSP-1, SA-1 and SuperFX coprocessors behind one trait.
- `src/emulator.rs` — the machine run in lockstep on the master clock.
- `app/` — WebAssembly bindings and the floating-point parts: the audio
  mixer and the DSP-1's trigonometry. A DSP-1 command that needs sines or
  arc tangents hands the host a request when its last parameter arrives;
  the machine in `app/` answers it at once, before the chip can be read,
  and the chip is then ready with its results in place.
