//! An 8-bit processor core: a register file with packed condition flags, a
//! flat byte-addressable memory bus, an instruction decoder over two opcode
//! tables (plain and prefixed), and an execution engine that performs one
//! fetch-decode-execute step at a time.

pub mod bytes;
pub mod register;
pub mod instruction;
pub mod cpu;
