//! Small arithmetic helpers shared by the processor cores.
use vstd::prelude::*;

verus! {

/// 16-bit sum modulo 2^16.
pub open spec fn wadd16(x: u16, y: u16) -> u16 {
    ((x as int + y as int) % 0x10000) as u16
}

/// 16-bit difference modulo 2^16.
pub open spec fn wsub16(x: u16, y: u16) -> u16 {
    ((x as int - y as int + 0x10000) % 0x10000) as u16
}

/// 64-bit sum modulo 2^64.
pub open spec fn wadd64(x: u64, y: u64) -> u64 {
    ((x as int + y as int) % 0x1_0000_0000_0000_0000) as u64
}

/// The 16-bit pattern of a byte read as a signed displacement (sign-extended).
pub open spec fn sext8(b: u8) -> u16 {
    if b < 0x80 {
        b as u16
    } else {
        (b as int + 0xFF00) as u16
    }
}

/// Wrapping 16-bit addition.
pub fn add16(x: u16, y: u16) -> (r: u16)
    ensures
        r == wadd16(x, y),
{
    x.wrapping_add(y)
}

/// Wrapping 16-bit subtraction.
pub fn sub16(x: u16, y: u16) -> (r: u16)
    ensures
        r == wsub16(x, y),
{
    x.wrapping_sub(y)
}

/// Wrapping 64-bit addition.
pub fn add64(x: u64, y: u64) -> (r: u64)
    ensures
        r == wadd64(x, y),
{
    x.wrapping_add(y)
}

/// A byte sign-extended to 16 bits (the bit pattern of `b as i8 as u16`).
pub fn sign_extend8(b: u8) -> (r: u16)
    ensures
        r == sext8(b),
{
    if b < 0x80 {
        b as u16
    } else {
        b as u16 + 0xFF00
    }
}

/// The low 16 and the low 24 bits of an address, as remainders.
pub proof fn lemma_addr_masks(addr: u32)
    by (bit_vector)
    ensures
        (addr & 0xFFFF) as int == addr as int % 0x10000,
        (addr & 0xFF_FFFF) as int == addr as int % 0x100_0000,
{
}

/// The low 6 and the low 4 bits of an index, as remainders.
pub proof fn lemma_index_masks(n: usize)
    by (bit_vector)
    ensures
        n & 0x3F == n % 64,
        n & 0x0F == n % 16,
{
}

/// Bit fields cut out of a byte or a word are no wider than their masks.
pub proof fn lemma_field_bounds(b: u8, s: u8, w: u16)
    by (bit_vector)
    ensures
        b & 3 <= 3,
        b & 7 <= 7,
        b & 0x0F < 16,
        (b / 8) & 3 <= 3,
        (b / 16) & 3 <= 3,
        (b / 2) & 7 <= 7,
        (b >> s) & 1 <= 1,
        w & 3 < 4,
{
}

/// Little-endian word from two bytes.
pub open spec fn word(lo: u8, hi: u8) -> u16 {
    (lo as int + hi as int * 256) as u16
}

/// Little-endian word from two bytes.
pub fn make_word(lo: u8, hi: u8) -> (r: u16)
    ensures
        r == word(lo, hi),
{
    lo as u16 + (hi as u16) * 256
}

} // verus!
