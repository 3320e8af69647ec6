//! Wrapping 8-bit and 16-bit arithmetic, as the 6502 address and
//! register paths perform it.

use vstd::prelude::*;

verus! {

/// `x` reduced to the 16-bit range, the way every program-counter and
/// address addition wraps.
pub open spec fn wrap16(x: int) -> u16 {
    (x % 0x10000) as u16
}

/// `x` reduced to the 8-bit range, the way register arithmetic wraps.
pub open spec fn wrap8(x: int) -> u8 {
    (x % 0x100) as u8
}

/// `x` reduced to the 64-bit range, the way the cycle counter would
/// wrap if it could ever reach its ceiling.
pub open spec fn wrap64(x: int) -> u64 {
    (x % 0x10000000000000000) as u64
}

/// Low byte of a 16-bit word.
pub open spec fn lo(w: u16) -> u8 {
    (w % 0x100) as u8
}

/// High byte of a 16-bit word.
pub open spec fn hi(w: u16) -> u8 {
    (w / 0x100) as u8
}

/// The 16-bit word assembled little-endian from a low and a high byte.
pub open spec fn word(lo: u8, hi: u8) -> u16 {
    (lo + 0x100 * hi) as u16
}

/// The displacement a branch applies: `off` read as a signed byte.
pub open spec fn signed8(off: u8) -> int {
    if off >= 0x80 {
        off - 0x100
    } else {
        off as int
    }
}

/// Page number of an address: its high byte.  A "page cross" is an
/// address computation whose page number changes.
pub open spec fn page(a: u16) -> int {
    a as int / 0x100
}

/// The power of two that weights bit `n` of a byte.
pub open spec fn spec_pow2(n: u8) -> int {
    if n == 0 {
        1
    } else if n == 1 {
        2
    } else if n == 2 {
        4
    } else if n == 3 {
        8
    } else if n == 4 {
        16
    } else if n == 5 {
        32
    } else if n == 6 {
        64
    } else {
        128
    }
}

/// Whether bit `n` of `v` is set.
pub open spec fn bit_n(v: u8, n: u8) -> bool {
    (v as int / spec_pow2(n)) % 2 == 1
}

/// Test bit `n` of `v`.
pub fn test_bit(v: u8, n: u8) -> (r: bool)
    requires
        n < 8,
    ensures
        r == bit_n(v, n),
{
    if n == 0 {
        v % 2 == 1
    } else if n == 1 {
        (v / 2) % 2 == 1
    } else if n == 2 {
        (v / 4) % 2 == 1
    } else if n == 3 {
        (v / 8) % 2 == 1
    } else if n == 4 {
        (v / 16) % 2 == 1
    } else if n == 5 {
        (v / 32) % 2 == 1
    } else if n == 6 {
        (v / 64) % 2 == 1
    } else {
        (v / 128) % 2 == 1
    }
}

/// Setting a clear bit stays within the byte; a set bit is at least
/// its own weight, so clearing it cannot underflow.
pub proof fn lemma_clear_bit_bound(v: u8, n: u8)
    requires
        n < 8,
    ensures
        !bit_n(v, n) ==> v + spec_pow2(n) <= 255,
        bit_n(v, n) ==> v >= spec_pow2(n),
{
    if n == 0 {
    } else if n == 1 {
    } else if n == 2 {
    } else if n == 3 {
    } else if n == 4 {
    } else if n == 5 {
    } else if n == 6 {
    } else {
    }
}

/// 16-bit wrapping addition.
pub fn wadd16(a: u16, b: u16) -> (r: u16)
    ensures
        r == wrap16(a + b),
{
    (((a as u32) + (b as u32)) % 0x10000) as u16
}

/// 16-bit addition of a signed 8-bit displacement, wrapping.
pub fn wadd16_signed(a: u16, off: u8) -> (r: u16)
    ensures
        r == wrap16(a + signed8(off)),
{
    if off >= 0x80 {
        (((a as u32) + (off as u32) + 0x10000 - 0x100) % 0x10000) as u16
    } else {
        (((a as u32) + (off as u32)) % 0x10000) as u16
    }
}

/// 8-bit wrapping addition.
pub fn wadd8(a: u8, b: u8) -> (r: u8)
    ensures
        r == wrap8(a + b),
{
    (((a as u16) + (b as u16)) % 0x100) as u8
}

/// 8-bit wrapping subtraction.
pub fn wsub8(a: u8, b: u8) -> (r: u8)
    ensures
        r == wrap8(a - b),
{
    (((a as u16) + 0x100 - (b as u16)) % 0x100) as u8
}

/// Low byte of a word.
pub fn lo_byte(w: u16) -> (r: u8)
    ensures
        r == lo(w),
{
    (w % 0x100) as u8
}

/// High byte of a word.
pub fn hi_byte(w: u16) -> (r: u8)
    ensures
        r == hi(w),
{
    (w / 0x100) as u8
}

/// Assemble a word little-endian from its two bytes.
pub fn make_word(lo_b: u8, hi_b: u8) -> (r: u16)
    ensures
        r == word(lo_b, hi_b),
{
    (lo_b as u16) + 0x100 * (hi_b as u16)
}

/// Incrementing an already-wrapped successor wraps the same as adding
/// two outright.
pub proof fn lemma_wrap16_chain(pc: u16)
    ensures
        wrap16(wrap16(pc + 1) + 1) == wrap16(pc + 2),
{
    if pc < 0xFFFE {
    } else if pc == 0xFFFE {
    } else {
    }
}

/// Reducing before or after adding a displacement wraps the same.
pub proof fn lemma_wrap8_shift(x: int, d: int)
    ensures
        wrap8(wrap8(x) + d) == wrap8(x + d),
{
    vstd::arithmetic::div_mod::lemma_fundamental_div_mod(x, 0x100);
    vstd::arithmetic::div_mod::lemma_mod_multiples_vanish(x / 0x100, x % 0x100 + d, 0x100);
}

/// The 16-bit analogue of [`lemma_wrap8_shift`].
pub proof fn lemma_wrap16_shift(x: int, d: int)
    ensures
        wrap16(wrap16(x) + d) == wrap16(x + d),
{
    vstd::arithmetic::div_mod::lemma_fundamental_div_mod(x, 0x10000);
    vstd::arithmetic::div_mod::lemma_mod_multiples_vanish(x / 0x10000, x % 0x10000 + d, 0x10000);
}

/// A word is exactly its two bytes reassembled little-endian.
pub proof fn lemma_word_lo_hi(w: u16)
    ensures
        word(lo(w), hi(w)) == w,
{
}

/// Whether `from` and `to` lie on different 256-byte pages.
pub fn crosses_page_exec(from: u16, to: u16) -> (r: bool)
    ensures
        r == (page(from) != page(to)),
{
    (from / 0x100) != (to / 0x100)
}

} // verus!
