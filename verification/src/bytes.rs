//! 16-bit word arithmetic: splitting a word into its two bytes, rebuilding a
//! word from bytes (high byte first), and wrapping 16-bit addition and
//! subtraction as used for program-counter and stack-pointer updates.

use vstd::prelude::*;

verus! {

/// The 16-bit word whose high byte is `hi` and low byte is `lo`.
pub open spec fn word(hi: u8, lo: u8) -> u16 {
    (hi * 0x100 + lo) as u16
}

/// The high byte of a 16-bit word.
pub open spec fn hi8(v: u16) -> u8 {
    (v / 0x100) as u8
}

/// The low byte of a 16-bit word.
pub open spec fn lo8(v: u16) -> u8 {
    (v % 0x100) as u8
}

/// 16-bit addition with wraparound.
pub open spec fn add16(a: u16, b: u16) -> u16 {
    if a + b > 0xFFFF {
        (a + b - 0x10000) as u16
    } else {
        (a + b) as u16
    }
}

/// 16-bit subtraction with wraparound.
pub open spec fn sub16(a: u16, b: u16) -> u16 {
    if a - b < 0 {
        (a - b + 0x10000) as u16
    } else {
        (a - b) as u16
    }
}

/// Splitting a word into bytes and rebuilding it gives the word back.
pub proof fn lemma_word_round_trip(v: u16)
    ensures
        word(hi8(v), lo8(v)) == v,
{
    assert(0x100 * (v / 0x100) + v % 0x100 == v) by (nonlinear_arith);
}

pub fn make_word(hi: u8, lo: u8) -> (r: u16)
    ensures
        r == word(hi, lo),
{
    proof {
        assert(((hi as u16) << 8 | (lo as u16)) == hi * 0x100 + lo) by (bit_vector);
    }
    (hi as u16) << 8 | lo as u16
}

pub fn high_byte(v: u16) -> (r: u8)
    ensures
        r == hi8(v),
{
    proof {
        assert(v >> 8 == v / 0x100 && v >> 8 < 0x100) by (bit_vector);
    }
    (v >> 8) as u8
}

pub fn low_byte(v: u16) -> (r: u8)
    ensures
        r == lo8(v),
{
    proof {
        assert(v & 0xFF == v % 0x100) by (bit_vector);
    }
    (v & 0xFF) as u8
}

} // verus!
