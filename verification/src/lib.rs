//! A Super Nintendo emulator core: cartridge header parsing, the system
//! memory map, the 65816 main CPU, the PPU, the SPC700 audio CPU and the
//! enhancement chips, each with its behaviour stated as a contract.
use vstd::prelude::*;

pub mod text;
pub mod cartridge;
pub mod bits;
pub mod apu;
pub mod memory;
pub mod cpu;
pub mod cpu_laws;
pub mod ppu;
pub mod chips;
pub mod emulator;

verus! {

/// The greeting for `name`.
pub open spec fn greeting(name: Seq<char>) -> Seq<char> {
    "Hello, "@ + name + "! Welcome to ZNES-WASM!"@
}

/// Greets `name` (see `greeting`).
pub fn greet(name: &str) -> (s: String)
    ensures
        s@ == greeting(name@),
{
    let mut s = String::from_str("Hello, ");
    s.append(name);
    s.append("! Welcome to ZNES-WASM!");
    s
}

/// The sum of two numbers (which must not exceed 64 bits).
pub fn add(left: u64, right: u64) -> (sum: u64)
    requires
        left + right <= u64::MAX,
    ensures
        sum == left + right,
{
    left + right
}

} // verus!
