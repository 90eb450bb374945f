//! The processor state and execution engine: a flat byte-addressable memory
//! bus, the program counter and stack pointer, the register file, and the
//! per-instruction execute rules together with the single-step driver.
//!
//! The mathematical semantics of execution lives in [`spec_execute`] and
//! [`spec_step`]; every executable method is proved against it.

use vstd::prelude::*;
use crate::bytes::{word, hi8, lo8, add16, sub16, lemma_word_round_trip, make_word, high_byte, low_byte};
use crate::instruction::{
    ArithmeticTarget, IncDecTarget, Instruction, JumpTest, LoadByteSource, LoadByteTarget,
    LoadType, StackTarget, spec_from_byte,
};
use crate::register::{
    FlagsRegister, Registers, spec_get_bc, spec_set_bc, spec_get_de, spec_set_de, spec_get_hl,
};

verus! {

/// Number of addressable bytes: the full 16-bit address space.
pub const MEMORY_SIZE: usize = 0x10000;

/// A flat byte-addressable memory space. Every 16-bit address is always
/// mapped, so reads and writes never fail.
pub struct MemoryBus {
    memory: Vec<u8>,
}

impl MemoryBus {
    /// The memory contents as a sequence of bytes indexed by address.
    pub closed spec fn view(&self) -> Seq<u8> {
        self.memory@
    }

    /// The bus covers the whole 16-bit address space.
    pub open spec fn wf(&self) -> bool {
        self@.len() == MEMORY_SIZE
    }

    /// A zero-initialized memory space.
    pub fn new() -> (r: MemoryBus)
        ensures
            r.wf(),
            forall|i: int| 0 <= i < MEMORY_SIZE ==> r@[i] == 0u8,
    {
        let mut memory: Vec<u8> = Vec::new();
        while memory.len() < MEMORY_SIZE
            invariant
                memory@.len() <= MEMORY_SIZE,
                forall|i: int| 0 <= i < memory@.len() ==> memory@[i] == 0u8,
            decreases MEMORY_SIZE - memory@.len(),
        {
            memory.push(0);
        }
        MemoryBus { memory }
    }

    pub fn read_byte(&self, address: u16) -> (r: u8)
        requires
            self.wf(),
        ensures
            r == self@[address as int],
    {
        self.memory[address as usize]
    }

    pub fn write_byte(&mut self, address: u16, byte: u8)
        requires
            old(self).wf(),
        ensures
            final(self).wf(),
            final(self)@ == old(self)@.update(address as int, byte),
    {
        self.memory.set(address as usize, byte);
    }
}

/// The 16-bit little-endian word stored at `address`: the byte at the lower
/// address is the least significant.
pub open spec fn read16(mem: Seq<u8>, address: u16) -> u16 {
    word(mem[add16(address, 1) as int], mem[address as int])
}

/// The memory after pushing a 16-bit value at stack pointer `sp`: the stack
/// grows downward, the high byte stored at the higher address `sp - 1`, the
/// low byte at `sp - 2`.
pub open spec fn push_mem(mem: Seq<u8>, sp: u16, value: u16) -> Seq<u8> {
    mem.update(sub16(sp, 1) as int, hi8(value)).update(sub16(sp, 2) as int, lo8(value))
}

/// The full observable processor state: register file, program counter,
/// stack pointer, and memory contents.
#[verifier::ext_equal]
pub struct CpuModel {
    pub regs: Registers,
    pub pc: u16,
    pub sp: u16,
    pub mem: Seq<u8>,
}

/// A failure of one fetch-decode-execute step, carrying the raw opcode byte
/// and whether it was read from the prefixed opcode space.
#[derive(Clone, Copy, PartialEq, Eq, Structural, Debug)]
pub enum StepError {
    /// The opcode byte has no mapping in the selected decode table.
    UnknownOpcode { opcode: u8, prefixed: bool },
    /// The opcode decoded, but the engine has no rule for the decoded
    /// instruction/operand combination.
    Unimplemented { opcode: u8, prefixed: bool },
}

/// A failure of the execution engine: the decoded instruction/operand
/// combination has no execute rule yet.
#[derive(Clone, Copy, PartialEq, Eq, Structural, Debug)]
pub enum ExecError {
    Unimplemented,
}

/// The 8-bit value of the register an arithmetic instruction reads.
pub open spec fn spec_reg8(regs: Registers, target: ArithmeticTarget) -> u8 {
    match target {
        ArithmeticTarget::A => regs.a,
        ArithmeticTarget::B => regs.b,
        ArithmeticTarget::C => regs.c,
        ArithmeticTarget::D => regs.d,
        ArithmeticTarget::E => regs.e,
        ArithmeticTarget::H => regs.h,
        ArithmeticTarget::L => regs.l,
    }
}

/// Whether a condition test holds of the current flags.
pub open spec fn spec_test(test: JumpTest, flags: FlagsRegister) -> bool {
    match test {
        JumpTest::NotZero => !flags.zero,
        JumpTest::Zero => flags.zero,
        JumpTest::NotCarry => !flags.carry,
        JumpTest::Carry => flags.carry,
        JumpTest::Always => true,
    }
}

/// 8-bit addition with wraparound.
pub open spec fn add8(a: u8, b: u8) -> u8 {
    if a + b > 0xFF {
        (a + b - 0x100) as u8
    } else {
        (a + b) as u8
    }
}

/// The flags an 8-bit addition of `a` and `b` produces: zero iff the wrapped
/// result is zero, subtract cleared, half-carry iff the low nibbles sum past
/// 0xF, carry iff the 8-bit addition overflowed.
pub open spec fn add_flags(a: u8, b: u8) -> FlagsRegister {
    FlagsRegister {
        zero: add8(a, b) == 0,
        subtract: false,
        half_carry: a % 0x10 + b % 0x10 > 0xF,
        carry: a + b > 0xFF,
    }
}

/// The semantics of one instruction: from the pre-state, the post-state
/// (with the program counter not yet committed) and the next program-counter
/// value, or `None` where the instruction/operand combination has no execute
/// rule yet.
pub open spec fn spec_execute(instruction: Instruction, s: CpuModel) -> Option<(CpuModel, u16)> {
    match instruction {
        Instruction::ADD(target) => {
            let value = spec_reg8(s.regs, target);
            let new_regs = Registers { a: add8(s.regs.a, value), f: add_flags(s.regs.a, value), ..s.regs };
            Some((CpuModel { regs: new_regs, ..s }, add16(s.pc, 1)))
        },
        Instruction::INC(target) => {
            let new_regs = match target {
                IncDecTarget::BC => spec_set_bc(s.regs, add16(spec_get_bc(s.regs), 1)),
                IncDecTarget::DE => spec_set_de(s.regs, add16(spec_get_de(s.regs), 1)),
            };
            Some((CpuModel { regs: new_regs, ..s }, add16(s.pc, 1)))
        },
        Instruction::RLC(_) => None,
        Instruction::JP(test) => {
            if spec_test(test, s.regs.f) {
                Some((s, read16(s.mem, add16(s.pc, 1))))
            } else {
                Some((s, add16(s.pc, 3)))
            }
        },
        Instruction::LD(load_type) => match load_type {
            LoadType::Byte(target, source) => {
                let value = match source {
                    LoadByteSource::A => s.regs.a,
                    LoadByteSource::B => s.regs.b,
                    LoadByteSource::C => s.regs.c,
                    LoadByteSource::D => s.regs.d,
                    LoadByteSource::E => s.regs.e,
                    LoadByteSource::H => s.regs.h,
                    LoadByteSource::L => s.regs.l,
                    LoadByteSource::D8 => s.mem[add16(s.pc, 1) as int],
                    LoadByteSource::HLI => s.mem[spec_get_hl(s.regs) as int],
                };
                let stored = match target {
                    LoadByteTarget::A => CpuModel { regs: Registers { a: value, ..s.regs }, ..s },
                    LoadByteTarget::B => CpuModel { regs: Registers { b: value, ..s.regs }, ..s },
                    LoadByteTarget::C => CpuModel { regs: Registers { c: value, ..s.regs }, ..s },
                    LoadByteTarget::D => CpuModel { regs: Registers { d: value, ..s.regs }, ..s },
                    LoadByteTarget::E => CpuModel { regs: Registers { e: value, ..s.regs }, ..s },
                    LoadByteTarget::H => CpuModel { regs: Registers { h: value, ..s.regs }, ..s },
                    LoadByteTarget::L => CpuModel { regs: Registers { l: value, ..s.regs }, ..s },
                    LoadByteTarget::HLI => CpuModel {
                        mem: s.mem.update(spec_get_hl(s.regs) as int, value),
                        ..s
                    },
                };
                let next_pc = match source {
                    LoadByteSource::D8 => add16(s.pc, 2),
                    _ => add16(s.pc, 1),
                };
                Some((stored, next_pc))
            },
        },
        Instruction::PUSH(target) => {
            let value = match target {
                StackTarget::BC => spec_get_bc(s.regs),
            };
            let pushed = CpuModel { mem: push_mem(s.mem, s.sp, value), sp: sub16(s.sp, 2), ..s };
            Some((pushed, add16(s.pc, 1)))
        },
        Instruction::POP(target) => {
            let value = read16(s.mem, s.sp);
            let new_regs = match target {
                StackTarget::BC => spec_set_bc(s.regs, value),
            };
            Some((CpuModel { regs: new_regs, sp: add16(s.sp, 2), ..s }, add16(s.pc, 1)))
        },
        Instruction::CALL(test) => {
            if spec_test(test, s.regs.f) {
                let pushed_mem = push_mem(s.mem, s.sp, add16(s.pc, 3));
                let pushed = CpuModel { mem: pushed_mem, sp: sub16(s.sp, 2), ..s };
                Some((pushed, read16(pushed_mem, add16(s.pc, 1))))
            } else {
                Some((s, add16(s.pc, 3)))
            }
        },
        Instruction::RET(test) => {
            if spec_test(test, s.regs.f) {
                Some((CpuModel { sp: add16(s.sp, 2), ..s }, read16(s.mem, s.sp)))
            } else {
                Some((s, add16(s.pc, 1)))
            }
        },
    }
}

/// The prefix byte that selects the secondary opcode table.
pub const PREFIX_BYTE: u8 = 0xCB;

/// The semantics of one full fetch-decode-execute step: the post-state with
/// the returned program counter committed, or the reported failure. A failed
/// step leaves the state unchanged.
pub open spec fn spec_step(s: CpuModel) -> Result<CpuModel, StepError> {
    let first = s.mem[s.pc as int];
    let prefixed = first == PREFIX_BYTE;
    let opcode = if prefixed { s.mem[add16(s.pc, 1) as int] } else { first };
    match spec_from_byte(opcode, prefixed) {
        None => Err(StepError::UnknownOpcode { opcode, prefixed }),
        Some(instruction) => match spec_execute(instruction, s) {
            None => Err(StepError::Unimplemented { opcode, prefixed }),
            Some((s2, next_pc)) => Ok(CpuModel { pc: next_pc, ..s2 }),
        },
    }
}

/// Pushing a 16-bit value and popping it back yields the value and restores
/// the stack pointer, for every starting stack pointer.
pub proof fn lemma_push_pop_inverse(mem: Seq<u8>, sp: u16, value: u16)
    requires
        mem.len() == MEMORY_SIZE,
    ensures
        read16(push_mem(mem, sp, value), sub16(sp, 2)) == value,
        add16(sub16(sp, 2), 2) == sp,
{
    assert(add16(sub16(sp, 2), 1) == sub16(sp, 1));
    lemma_word_round_trip(value);
}

/// The processor: register file, program counter, stack pointer, and
/// exclusive ownership of the memory bus. One value of this type is one
/// independent core; all mutation goes through [`CPU::step`] and
/// [`MemoryBus::write_byte`].
pub struct CPU {
    pub registers: Registers,
    pub pc: u16,
    pub sp: u16,
    pub bus: MemoryBus,
}

impl CPU {
    /// The observable state of the processor.
    pub open spec fn view(&self) -> CpuModel {
        CpuModel { regs: self.registers, pc: self.pc, sp: self.sp, mem: self.bus@ }
    }

    pub open spec fn wf(&self) -> bool {
        self.bus.wf()
    }

    /// A processor at reset: all registers, flags, counters and memory zero.
    pub fn new() -> (r: CPU)
        ensures
            r.wf(),
            r.registers == (Registers {
                a: 0u8,
                b: 0u8,
                c: 0u8,
                d: 0u8,
                e: 0u8,
                f: FlagsRegister { zero: false, subtract: false, half_carry: false, carry: false },
                h: 0u8,
                l: 0u8,
            }),
            r.pc == 0u16,
            r.sp == 0u16,
            forall|i: int| 0 <= i < MEMORY_SIZE ==> r@.mem[i] == 0u8,
    {
        CPU {
            registers: Registers {
                a: 0,
                b: 0,
                c: 0,
                d: 0,
                e: 0,
                f: FlagsRegister { zero: false, subtract: false, half_carry: false, carry: false },
                h: 0,
                l: 0,
            },
            pc: 0,
            sp: 0,
            bus: MemoryBus::new(),
        }
    }

    /// The immediate byte following the current opcode.
    pub fn read_next_byte(&mut self) -> (r: u8)
        requires
            old(self).wf(),
        ensures
            *final(self) == *old(self),
            r == old(self)@.mem[add16(old(self).pc, 1) as int],
    {
        self.bus.read_byte(self.pc.wrapping_add(1))
    }

    /// The little-endian 16-bit immediate following the current opcode.
    pub fn read_next_word(&mut self) -> (r: u16)
        requires
            old(self).wf(),
        ensures
            *final(self) == *old(self),
            r == read16(old(self)@.mem, add16(old(self).pc, 1)),
    {
        let lsb = self.bus.read_byte(self.pc.wrapping_add(1));
        let msb = self.bus.read_byte(self.pc.wrapping_add(2));
        proof {
            assert(add16(add16(self.pc, 1), 1) == add16(self.pc, 2));
        }
        make_word(msb, lsb)
    }

    /// Adds `value` to the accumulator with wraparound and recomputes all
    /// four flags; returns the wrapped sum without writing it back.
    pub fn add(&mut self, value: u8) -> (r: u8)
        requires
            old(self).wf(),
        ensures
            r == add8(old(self).registers.a, value),
            final(self).registers == (Registers {
                f: add_flags(old(self).registers.a, value),
                ..old(self).registers
            }),
            final(self).pc == old(self).pc,
            final(self).sp == old(self).sp,
            final(self).bus@ == old(self).bus@,
            final(self).wf(),
    {
        let a = self.registers.a;
        let new_value = a.wrapping_add(value);
        proof {
            assert(a & 0xF == a % 0x10 && value & 0xF == value % 0x10) by (bit_vector);
        }
        self.registers.f.zero = new_value == 0;
        self.registers.f.subtract = false;
        self.registers.f.carry = (a as u16) + (value as u16) > 0xFF;
        self.registers.f.half_carry = (a & 0xF) + (value & 0xF) > 0xF;
        new_value
    }

    /// The next program counter of a 3-byte absolute jump: the little-endian
    /// target following the opcode when the condition held, the address past
    /// the instruction otherwise. Mutates nothing.
    pub fn jump(&mut self, should_jump: bool) -> (r: u16)
        requires
            old(self).wf(),
        ensures
            *final(self) == *old(self),
            should_jump ==> r == read16(old(self)@.mem, add16(old(self).pc, 1)),
            !should_jump ==> r == add16(old(self).pc, 3),
    {
        if should_jump {
            // Little endian: pc + 1 holds the least significant byte,
            // pc + 2 the most significant.
            let least_significant_byte = self.bus.read_byte(self.pc.wrapping_add(1));
            let most_significant_byte = self.bus.read_byte(self.pc.wrapping_add(2));
            proof {
                assert(add16(add16(self.pc, 1), 1) == add16(self.pc, 2));
            }
            make_word(most_significant_byte, least_significant_byte)
        } else {
            // The jump instruction is 3 bytes wide: the opcode and the
            // 2-byte target address.
            self.pc.wrapping_add(3)
        }
    }

    /// Pushes a 16-bit value: the stack pointer drops by 2, the high byte is
    /// stored at the higher address.
    pub fn push(&mut self, value: u16)
        requires
            old(self).wf(),
        ensures
            final(self).sp == sub16(old(self).sp, 2),
            final(self).bus@ == push_mem(old(self).bus@, old(self).sp, value),
            final(self).registers == old(self).registers,
            final(self).pc == old(self).pc,
            final(self).wf(),
    {
        self.sp = self.sp.wrapping_sub(1);
        self.bus.write_byte(self.sp, high_byte(value));
        self.sp = self.sp.wrapping_sub(1);
        self.bus.write_byte(self.sp, low_byte(value));
        proof {
            assert(sub16(sub16(old(self).sp, 1), 1) == sub16(old(self).sp, 2));
        }
    }

    /// Pops a 16-bit value: the low byte is read at the stack pointer, the
    /// high byte above it, and the stack pointer rises by 2.
    pub fn pop(&mut self) -> (r: u16)
        requires
            old(self).wf(),
        ensures
            r == read16(old(self)@.mem, old(self).sp),
            final(self).sp == add16(old(self).sp, 2),
            final(self).bus@ == old(self).bus@,
            final(self).registers == old(self).registers,
            final(self).pc == old(self).pc,
            final(self).wf(),
    {
        let lsb = self.bus.read_byte(self.sp);
        self.sp = self.sp.wrapping_add(1);
        let msb = self.bus.read_byte(self.sp);
        self.sp = self.sp.wrapping_add(1);
        proof {
            assert(add16(add16(old(self).sp, 1), 1) == add16(old(self).sp, 2));
        }
        make_word(msb, lsb)
    }

    /// A 3-byte conditional call: when the condition held, pushes the address
    /// past the instruction and returns the immediate target; otherwise
    /// returns the address past the instruction and touches nothing.
    pub fn call(&mut self, should_jump: bool) -> (r: u16)
        requires
            old(self).wf(),
        ensures
            final(self).wf(),
            final(self).registers == old(self).registers,
            final(self).pc == old(self).pc,
            should_jump ==> {
                &&& final(self).bus@ == push_mem(old(self).bus@, old(self).sp, add16(old(self).pc, 3))
                &&& final(self).sp == sub16(old(self).sp, 2)
                &&& r == read16(final(self).bus@, add16(old(self).pc, 1))
            },
            !should_jump ==> *final(self) == *old(self) && r == add16(old(self).pc, 3),
    {
        let next_pc = self.pc.wrapping_add(3);
        if should_jump {
            self.push(next_pc);
            self.read_next_word()
        } else {
            next_pc
        }
    }

    /// A conditional return: when the condition held, pops the return
    /// address; otherwise returns the address of the next instruction.
    pub fn return_(&mut self, should_jump: bool) -> (r: u16)
        requires
            old(self).wf(),
        ensures
            final(self).wf(),
            final(self).registers == old(self).registers,
            final(self).pc == old(self).pc,
            final(self).bus@ == old(self).bus@,
            should_jump ==> r == read16(old(self)@.mem, old(self).sp)
                && final(self).sp == add16(old(self).sp, 2),
            !should_jump ==> *final(self) == *old(self) && r == add16(old(self).pc, 1),
    {
        if should_jump {
            self.pop()
        } else {
            self.pc.wrapping_add(1)
        }
    }

    /// Performs one decoded instruction and returns the next program-counter
    /// value without committing it. An instruction/operand combination with
    /// no execute rule is reported and leaves the state untouched.
    pub fn execute(&mut self, instruction: Instruction) -> (r: Result<u16, ExecError>)
        requires
            old(self).wf(),
        ensures
            final(self).wf(),
            (match spec_execute(instruction, old(self)@) {
                Some((s2, next_pc)) => r == Ok::<u16, ExecError>(next_pc) && final(self)@ == s2,
                None => r == Err::<u16, ExecError>(ExecError::Unimplemented)
                    && *final(self) == *old(self),
            }),
    {
        match instruction {
            Instruction::ADD(target) => {
                let value = match target {
                    ArithmeticTarget::A => self.registers.a,
                    ArithmeticTarget::B => self.registers.b,
                    ArithmeticTarget::C => self.registers.c,
                    ArithmeticTarget::D => self.registers.d,
                    ArithmeticTarget::E => self.registers.e,
                    ArithmeticTarget::H => self.registers.h,
                    ArithmeticTarget::L => self.registers.l,
                };
                let new_value = self.add(value);
                self.registers.a = new_value;
                Ok(self.pc.wrapping_add(1))
            },
            Instruction::INC(target) => {
                match target {
                    IncDecTarget::BC => {
                        let incremented = self.registers.get_bc().wrapping_add(1);
                        self.registers.set_bc(incremented);
                    },
                    IncDecTarget::DE => {
                        let incremented = self.registers.get_de().wrapping_add(1);
                        self.registers.set_de(incremented);
                    },
                }
                Ok(self.pc.wrapping_add(1))
            },
            Instruction::RLC(_) => Err(ExecError::Unimplemented),
            Instruction::JP(test) => {
                let jump_condition = match test {
                    JumpTest::NotZero => !self.registers.f.zero,
                    JumpTest::Zero => self.registers.f.zero,
                    JumpTest::NotCarry => !self.registers.f.carry,
                    JumpTest::Carry => self.registers.f.carry,
                    JumpTest::Always => true,
                };
                Ok(self.jump(jump_condition))
            },
            Instruction::LD(load_type) => match load_type {
                LoadType::Byte(target, source) => {
                    let source_value = match source {
                        LoadByteSource::A => self.registers.a,
                        LoadByteSource::B => self.registers.b,
                        LoadByteSource::C => self.registers.c,
                        LoadByteSource::D => self.registers.d,
                        LoadByteSource::E => self.registers.e,
                        LoadByteSource::H => self.registers.h,
                        LoadByteSource::L => self.registers.l,
                        LoadByteSource::D8 => self.read_next_byte(),
                        LoadByteSource::HLI => self.bus.read_byte(self.registers.get_hl()),
                    };
                    match target {
                        LoadByteTarget::A => self.registers.a = source_value,
                        LoadByteTarget::B => self.registers.b = source_value,
                        LoadByteTarget::C => self.registers.c = source_value,
                        LoadByteTarget::D => self.registers.d = source_value,
                        LoadByteTarget::E => self.registers.e = source_value,
                        LoadByteTarget::H => self.registers.h = source_value,
                        LoadByteTarget::L => self.registers.l = source_value,
                        LoadByteTarget::HLI => {
                            let address = self.registers.get_hl();
                            self.bus.write_byte(address, source_value);
                        },
                    }
                    match source {
                        LoadByteSource::D8 => Ok(self.pc.wrapping_add(2)),
                        _ => Ok(self.pc.wrapping_add(1)),
                    }
                },
            },
            Instruction::PUSH(target) => {
                let value = match target {
                    StackTarget::BC => self.registers.get_bc(),
                };
                self.push(value);
                Ok(self.pc.wrapping_add(1))
            },
            Instruction::POP(target) => {
                let value = self.pop();
                match target {
                    StackTarget::BC => self.registers.set_bc(value),
                }
                Ok(self.pc.wrapping_add(1))
            },
            Instruction::CALL(test) => {
                let jump_condition = match test {
                    JumpTest::NotZero => !self.registers.f.zero,
                    JumpTest::Zero => self.registers.f.zero,
                    JumpTest::NotCarry => !self.registers.f.carry,
                    JumpTest::Carry => self.registers.f.carry,
                    JumpTest::Always => true,
                };
                Ok(self.call(jump_condition))
            },
            Instruction::RET(test) => {
                let jump_condition = match test {
                    JumpTest::NotZero => !self.registers.f.zero,
                    JumpTest::Zero => self.registers.f.zero,
                    JumpTest::NotCarry => !self.registers.f.carry,
                    JumpTest::Carry => self.registers.f.carry,
                    JumpTest::Always => true,
                };
                Ok(self.return_(jump_condition))
            },
        }
    }

    /// One fetch-decode-execute cycle: reads the opcode at `pc` (consuming
    /// the prefix byte first where present), decodes it, executes, and
    /// commits the returned program counter. A failed step reports the
    /// offending opcode byte and prefix flag and mutates nothing.
    pub fn step(&mut self) -> (r: Result<(), StepError>)
        requires
            old(self).wf(),
        ensures
            final(self).wf(),
            (match spec_step(old(self)@) {
                Ok(s2) => r == Ok::<(), StepError>(()) && final(self)@ == s2,
                Err(e) => r == Err::<(), StepError>(e) && *final(self) == *old(self),
            }),
    {
        let mut instruction_byte = self.bus.read_byte(self.pc);

        let is_prefixed = instruction_byte == PREFIX_BYTE;
        if is_prefixed {
            instruction_byte = self.bus.read_byte(self.pc.wrapping_add(1));
        }

        match Instruction::from_byte(instruction_byte, is_prefixed) {
            Some(instruction) => match self.execute(instruction) {
                Ok(next_pc) => {
                    self.pc = next_pc;
                    Ok(())
                },
                Err(ExecError::Unimplemented) => Err(StepError::Unimplemented {
                    opcode: instruction_byte,
                    prefixed: is_prefixed,
                }),
            },
            None => Err(StepError::UnknownOpcode {
                opcode: instruction_byte,
                prefixed: is_prefixed,
            }),
        }
    }
}

/// A jump-on-zero instruction moves the program counter to the little-endian
/// target encoded in the two bytes after the opcode when the zero flag is
/// set, and past the 3-byte instruction when it is clear; flags, registers
/// and memory stay untouched either way.
pub proof fn lemma_conditional_jump(s: CpuModel)
    ensures
        s.regs.f.zero ==> spec_execute(Instruction::JP(JumpTest::Zero), s)
            == Some((s, read16(s.mem, add16(s.pc, 1)))),
        !s.regs.f.zero ==> spec_execute(Instruction::JP(JumpTest::Zero), s)
            == Some((s, add16(s.pc, 3))),
{
}

/// A conditional call whose condition held, followed eventually by a
/// conditional return whose condition held, restores the program counter to
/// the address past the 3-byte call and the stack pointer to its value
/// before the call — provided the pushed return address is still on top of
/// the stack when the return executes.
pub proof fn lemma_call_ret_round_trip(
    s: CpuModel,
    test: JumpTest,
    called: CpuModel,
    target: u16,
    later: CpuModel,
)
    requires
        s.mem.len() == MEMORY_SIZE,
        spec_test(test, s.regs.f),
        spec_test(test, later.regs.f),
        spec_execute(Instruction::CALL(test), s) == Some((called, target)),
        later.sp == called.sp,
        read16(later.mem, later.sp) == read16(called.mem, called.sp),
    ensures
        spec_execute(Instruction::RET(test), later)
            == Some((CpuModel { sp: s.sp, ..later }, add16(s.pc, 3))),
{
    lemma_push_pop_inverse(s.mem, s.sp, add16(s.pc, 3));
    assert(add16(later.sp, 2) == s.sp);
}

/// An opcode byte mapped by neither decode table makes the step fail with a
/// report carrying that exact byte and the prefix flag; by the contract of
/// [`CPU::step`], such a step leaves registers, counters and memory
/// unchanged.
pub proof fn lemma_unknown_opcode_reported(s: CpuModel, opcode: u8, prefixed: bool)
    requires
        prefixed == (s.mem[s.pc as int] == PREFIX_BYTE),
        opcode == if prefixed { s.mem[add16(s.pc, 1) as int] } else { s.mem[s.pc as int] },
        spec_from_byte(opcode, prefixed) is None,
    ensures
        spec_step(s) == Err::<CpuModel, StepError>(StepError::UnknownOpcode { opcode, prefixed }),
{
}

} // verus!
