//! The register file: eight 8-bit registers (one of which is the packed
//! flags register) with virtual 16-bit register-pair views AF, BC, DE and HL.
//! A pair is read by concatenating two 8-bit registers high byte first and
//! written by splitting a 16-bit value back into those two bytes.

use vstd::prelude::*;
use crate::bytes::{word, hi8, lo8, lemma_word_round_trip, make_word, high_byte, low_byte};

verus! {

/// Bit of the flags byte holding the zero flag.
pub const ZERO_FLAG_MASK: u8 = 0x80;

/// Bit of the flags byte holding the subtract flag.
pub const SUBTRACT_FLAG_MASK: u8 = 0x40;

/// Bit of the flags byte holding the half-carry flag.
pub const HALF_CARRY_FLAG_MASK: u8 = 0x20;

/// Bit of the flags byte holding the carry flag.
pub const CARRY_FLAG_MASK: u8 = 0x10;

/// Four condition flags packed into one byte: zero at bit 7, subtract at
/// bit 6, half-carry at bit 5, carry at bit 4. Bits 3 to 0 are always zero.
#[derive(Clone, Copy, PartialEq, Eq, Structural, Debug)]
pub struct FlagsRegister {
    /// Set when the result of the operation was 0.
    pub zero: bool,
    /// Set when the operation was a subtraction.
    pub subtract: bool,
    /// Set when the operation carried out of the low nibble into the high nibble.
    pub half_carry: bool,
    /// Set when the operation overflowed the 8-bit result.
    pub carry: bool,
}

impl FlagsRegister {
    /// The byte encoding of the flags, one fixed bit per flag. The masks are
    /// disjoint, so summing the set ones places each flag in its own bit.
    pub open spec fn spec_to_byte(self) -> u8 {
        ((if self.zero { ZERO_FLAG_MASK } else { 0u8 })
        + (if self.subtract { SUBTRACT_FLAG_MASK } else { 0u8 })
        + (if self.half_carry { HALF_CARRY_FLAG_MASK } else { 0u8 })
        + (if self.carry { CARRY_FLAG_MASK } else { 0u8 })) as u8
    }

    /// The flags encoded in a byte; bits 3 to 0 of the byte are ignored.
    pub open spec fn spec_from_byte(byte: u8) -> FlagsRegister {
        FlagsRegister {
            zero: byte & ZERO_FLAG_MASK != 0,
            subtract: byte & SUBTRACT_FLAG_MASK != 0,
            half_carry: byte & HALF_CARRY_FLAG_MASK != 0,
            carry: byte & CARRY_FLAG_MASK != 0,
        }
    }

    pub fn to_byte(self) -> (r: u8)
        ensures
            r == self.spec_to_byte(),
    {
        (if self.zero { ZERO_FLAG_MASK } else { 0 })
        + (if self.subtract { SUBTRACT_FLAG_MASK } else { 0 })
        + (if self.half_carry { HALF_CARRY_FLAG_MASK } else { 0 })
        + (if self.carry { CARRY_FLAG_MASK } else { 0 })
    }

    pub fn from_byte(byte: u8) -> (r: FlagsRegister)
        ensures
            r == FlagsRegister::spec_from_byte(byte),
    {
        FlagsRegister {
            zero: byte & ZERO_FLAG_MASK != 0,
            subtract: byte & SUBTRACT_FLAG_MASK != 0,
            half_carry: byte & HALF_CARRY_FLAG_MASK != 0,
            carry: byte & CARRY_FLAG_MASK != 0,
        }
    }
}

/// Decoding a byte into flags and re-encoding reproduces the byte, for every
/// byte whose low nibble is zero.
pub proof fn lemma_flags_byte_round_trip(byte: u8)
    requires
        byte & 0x0F == 0,
    ensures
        FlagsRegister::spec_from_byte(byte).spec_to_byte() == byte,
{
    assert(((if (byte & 0x80 != 0) { 0x80u8 } else { 0u8 })
        + (if (byte & 0x40 != 0) { 0x40u8 } else { 0u8 })
        + (if (byte & 0x20 != 0) { 0x20u8 } else { 0u8 })
        + (if (byte & 0x10 != 0) { 0x10u8 } else { 0u8 })) == byte) by (bit_vector)
        requires
            byte & 0x0F == 0,
    ;
}

/// The register file: registers A, B, C, D, E, H and L plus the flags
/// register in the remaining slot.
#[derive(Clone, Copy, PartialEq, Eq, Structural, Debug)]
pub struct Registers {
    pub a: u8,
    pub b: u8,
    pub c: u8,
    pub d: u8,
    pub e: u8,
    pub f: FlagsRegister,
    pub h: u8,
    pub l: u8,
}

/// The AF pair: A as high byte, the encoded flags as low byte.
pub open spec fn spec_get_af(regs: Registers) -> u16 {
    word(regs.a, regs.f.spec_to_byte())
}

/// Writing the AF pair: A takes the high byte, the flags decode the low byte.
pub open spec fn spec_set_af(regs: Registers, value: u16) -> Registers {
    Registers { a: hi8(value), f: FlagsRegister::spec_from_byte(lo8(value)), ..regs }
}

/// The BC pair: B as high byte, C as low byte.
pub open spec fn spec_get_bc(regs: Registers) -> u16 {
    word(regs.b, regs.c)
}

/// Writing the BC pair splits the value into B and C.
pub open spec fn spec_set_bc(regs: Registers, value: u16) -> Registers {
    Registers { b: hi8(value), c: lo8(value), ..regs }
}

/// The DE pair: D as high byte, E as low byte.
pub open spec fn spec_get_de(regs: Registers) -> u16 {
    word(regs.d, regs.e)
}

/// Writing the DE pair splits the value into D and E.
pub open spec fn spec_set_de(regs: Registers, value: u16) -> Registers {
    Registers { d: hi8(value), e: lo8(value), ..regs }
}

/// The HL pair: H as high byte, L as low byte.
pub open spec fn spec_get_hl(regs: Registers) -> u16 {
    word(regs.h, regs.l)
}

/// Writing the HL pair splits the value into H and L.
pub open spec fn spec_set_hl(regs: Registers, value: u16) -> Registers {
    Registers { h: hi8(value), l: lo8(value), ..regs }
}

impl Registers {
    pub fn get_af(&self) -> (r: u16)
        ensures
            r == spec_get_af(*self),
    {
        make_word(self.a, self.f.to_byte())
    }

    pub fn set_af(&mut self, value: u16)
        ensures
            *final(self) == spec_set_af(*old(self), value),
    {
        self.a = high_byte(value);
        self.f = FlagsRegister::from_byte(low_byte(value));
    }

    pub fn get_bc(&self) -> (r: u16)
        ensures
            r == spec_get_bc(*self),
    {
        make_word(self.b, self.c)
    }

    pub fn set_bc(&mut self, value: u16)
        ensures
            *final(self) == spec_set_bc(*old(self), value),
    {
        self.b = high_byte(value);
        self.c = low_byte(value);
    }

    pub fn get_de(&self) -> (r: u16)
        ensures
            r == spec_get_de(*self),
    {
        make_word(self.d, self.e)
    }

    pub fn set_de(&mut self, value: u16)
        ensures
            *final(self) == spec_set_de(*old(self), value),
    {
        self.d = high_byte(value);
        self.e = low_byte(value);
    }

    pub fn get_hl(&self) -> (r: u16)
        ensures
            r == spec_get_hl(*self),
    {
        make_word(self.h, self.l)
    }

    pub fn set_hl(&mut self, value: u16)
        ensures
            *final(self) == spec_set_hl(*old(self), value),
    {
        self.h = high_byte(value);
        self.l = low_byte(value);
    }
}

/// Setting then reading the BC pair returns the value written.
pub proof fn lemma_bc_round_trip(regs: Registers, value: u16)
    ensures
        spec_get_bc(spec_set_bc(regs, value)) == value,
{
    lemma_word_round_trip(value);
}

/// Setting then reading the DE pair returns the value written.
pub proof fn lemma_de_round_trip(regs: Registers, value: u16)
    ensures
        spec_get_de(spec_set_de(regs, value)) == value,
{
    lemma_word_round_trip(value);
}

/// Setting then reading the HL pair returns the value written.
pub proof fn lemma_hl_round_trip(regs: Registers, value: u16)
    ensures
        spec_get_hl(spec_set_hl(regs, value)) == value,
{
    lemma_word_round_trip(value);
}

/// The AF pair always reads with a zero low nibble: only the top four bits
/// of the flags byte are flag-significant, and the unused bits read as zero.
pub proof fn lemma_af_low_nibble_zero(regs: Registers)
    ensures
        spec_get_af(regs) & 0x0F == 0,
{
    let a = regs.a;
    let fb = regs.f.spec_to_byte();
    assert(fb % 0x10 == 0);
    assert(word(a, fb) & 0x0F == 0) by (bit_vector)
        requires
            fb % 0x10 == 0,
    ;
}

/// Setting then reading the AF pair returns the value written, for every
/// value whose low nibble is zero (the flag-insignificant bits of F).
pub proof fn lemma_af_round_trip(regs: Registers, value: u16)
    requires
        value & 0x0F == 0,
    ensures
        spec_get_af(spec_set_af(regs, value)) == value,
{
    assert((value % 0x100) as u8 & 0x0F == 0) by (bit_vector)
        requires
            value & 0x0F == 0,
    ;
    lemma_flags_byte_round_trip(lo8(value));
    lemma_word_round_trip(value);
}

} // verus!
