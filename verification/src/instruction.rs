//! The instruction decoder: a closed tagged-variant instruction type and two
//! disjoint lookup tables, one for the plain opcode space and one for the
//! space reached through the prefix byte. A byte with no mapping decodes to
//! nothing, which the step driver reports as an unknown opcode.

use vstd::prelude::*;

verus! {

/// One decoded instruction: the opcode category plus the operand
/// descriptors that category needs.
#[derive(Clone, Copy, PartialEq, Eq, Structural, Debug)]
pub enum Instruction {
    /// Add a register to the accumulator, recomputing all four flags.
    ADD(ArithmeticTarget),
    /// Increment a 16-bit register pair by one with wraparound; flags untouched.
    INC(IncDecTarget),
    /// Rotate a register left (prefixed opcode space).
    RLC(PrefixTarget),
    /// Conditional absolute jump to a 16-bit immediate target.
    JP(JumpTest),
    /// Byte load between registers, an immediate byte, or the byte at HL.
    LD(LoadType),
    /// Push a register pair onto the stack.
    PUSH(StackTarget),
    /// Pop a register pair off the stack.
    POP(StackTarget),
    /// Conditional call: push the return address, then jump to the immediate target.
    CALL(JumpTest),
    /// Conditional return: pop the return address off the stack.
    RET(JumpTest),
}

/// The source register of an arithmetic instruction.
#[derive(Clone, Copy, PartialEq, Eq, Structural, Debug)]
pub enum ArithmeticTarget {
    A,
    B,
    C,
    D,
    E,
    H,
    L,
}

/// The register pair an increment/decrement instruction acts on.
#[derive(Clone, Copy, PartialEq, Eq, Structural, Debug)]
pub enum IncDecTarget {
    BC,
    DE,
}

/// The register a prefixed rotate instruction acts on.
#[derive(Clone, Copy, PartialEq, Eq, Structural, Debug)]
pub enum PrefixTarget {
    B,
}

/// The condition a control-flow instruction tests against the flags.
#[derive(Clone, Copy, PartialEq, Eq, Structural, Debug)]
pub enum JumpTest {
    NotZero,
    Zero,
    NotCarry,
    Carry,
    Always,
}

/// The operand shape of a load instruction.
#[derive(Clone, Copy, PartialEq, Eq, Structural, Debug)]
pub enum LoadType {
    Byte(LoadByteTarget, LoadByteSource),
}

/// Where a byte load writes: a register, or the byte at address HL.
#[derive(Clone, Copy, PartialEq, Eq, Structural, Debug)]
pub enum LoadByteTarget {
    A,
    B,
    C,
    D,
    E,
    H,
    L,
    HLI,
}

/// Where a byte load reads: a register, the immediate byte at `pc + 1`
/// (`D8`), or the byte at address HL (`HLI`).
#[derive(Clone, Copy, PartialEq, Eq, Structural, Debug)]
pub enum LoadByteSource {
    A,
    B,
    C,
    D,
    E,
    H,
    L,
    /// "Direct 8-bit value": the byte at `pc + 1`.
    D8,
    HLI,
}

/// The register pair a stack push or pop moves.
#[derive(Clone, Copy, PartialEq, Eq, Structural, Debug)]
pub enum StackTarget {
    BC,
}

/// The lookup table for the prefixed opcode space.
pub open spec fn spec_from_byte_prefixed(byte: u8) -> Option<Instruction> {
    match byte {
        0x00 => Some(Instruction::RLC(PrefixTarget::B)),
        _ => None,
    }
}

/// The lookup table for the plain opcode space.
pub open spec fn spec_from_byte_not_prefixed(byte: u8) -> Option<Instruction> {
    match byte {
        0x02 => Some(Instruction::INC(IncDecTarget::BC)),
        0x13 => Some(Instruction::INC(IncDecTarget::DE)),
        _ => None,
    }
}

/// The decode of a raw opcode byte: the prefixed table when a prefix byte
/// was consumed, the plain table otherwise. `None` is an unknown opcode.
pub open spec fn spec_from_byte(byte: u8, prefixed: bool) -> Option<Instruction> {
    if prefixed {
        spec_from_byte_prefixed(byte)
    } else {
        spec_from_byte_not_prefixed(byte)
    }
}

impl Instruction {
    pub fn from_byte(byte: u8, prefixed: bool) -> (r: Option<Instruction>)
        ensures
            r == spec_from_byte(byte, prefixed),
    {
        if prefixed {
            Instruction::from_byte_prefixed(byte)
        } else {
            Instruction::from_byte_not_prefixed(byte)
        }
    }

    pub fn from_byte_prefixed(byte: u8) -> (r: Option<Instruction>)
        ensures
            r == spec_from_byte_prefixed(byte),
    {
        match byte {
            0x00 => Some(Instruction::RLC(PrefixTarget::B)),
            _ => None,
        }
    }

    pub fn from_byte_not_prefixed(byte: u8) -> (r: Option<Instruction>)
        ensures
            r == spec_from_byte_not_prefixed(byte),
    {
        match byte {
            0x02 => Some(Instruction::INC(IncDecTarget::BC)),
            0x13 => Some(Instruction::INC(IncDecTarget::DE)),
            _ => None,
        }
    }
}

} // verus!
