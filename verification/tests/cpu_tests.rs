use emu_core::cpu::{ExecError, MemoryBus, StepError, CPU};
use emu_core::instruction::{
    ArithmeticTarget, IncDecTarget, Instruction, JumpTest, LoadByteSource, LoadByteTarget,
    LoadType, PrefixTarget, StackTarget,
};

#[test]
fn memory_bus_starts_zeroed() {
    let bus = MemoryBus::new();
    assert_eq!(bus.read_byte(0x0000), 0);
    assert_eq!(bus.read_byte(0x1234), 0);
    assert_eq!(bus.read_byte(0xFFFF), 0);
}

#[test]
fn memory_bus_write_then_read() {
    let mut bus = MemoryBus::new();
    bus.write_byte(0x1234, 0xAB);
    assert_eq!(bus.read_byte(0x1234), 0xAB);
    assert_eq!(bus.read_byte(0x1233), 0);
    assert_eq!(bus.read_byte(0x1235), 0);
}

#[test]
fn read_next_word_is_little_endian() {
    let mut cpu = CPU::new();
    cpu.pc = 0x0010;
    cpu.bus.write_byte(0x0011, 0xCD);
    cpu.bus.write_byte(0x0012, 0xAB);
    assert_eq!(cpu.read_next_word(), 0xABCD);
    assert_eq!(cpu.read_next_byte(), 0xCD);
}

#[test]
fn push_stores_high_byte_at_higher_address() {
    let mut cpu = CPU::new();
    cpu.sp = 0x8000;
    cpu.push(0xBEEF);
    assert_eq!(cpu.sp, 0x7FFE);
    assert_eq!(cpu.bus.read_byte(0x7FFF), 0xBE);
    assert_eq!(cpu.bus.read_byte(0x7FFE), 0xEF);
}

#[test]
fn pop_reads_low_byte_first() {
    let mut cpu = CPU::new();
    cpu.sp = 0x8000;
    cpu.bus.write_byte(0x8000, 0x34);
    cpu.bus.write_byte(0x8001, 0x12);
    assert_eq!(cpu.pop(), 0x1234);
    assert_eq!(cpu.sp, 0x8002);
}

#[test]
fn push_pop_round_trip() {
    let mut cpu = CPU::new();
    cpu.sp = 0x8000;
    cpu.push(0xBEEF);
    assert_eq!(cpu.pop(), 0xBEEF);
    assert_eq!(cpu.sp, 0x8000);
}

#[test]
fn push_pop_round_trip_wraps_at_address_zero() {
    let mut cpu = CPU::new();
    cpu.sp = 0x0000;
    cpu.push(0xA55A);
    assert_eq!(cpu.sp, 0xFFFE);
    assert_eq!(cpu.bus.read_byte(0xFFFF), 0xA5);
    assert_eq!(cpu.bus.read_byte(0xFFFE), 0x5A);
    assert_eq!(cpu.pop(), 0xA55A);
    assert_eq!(cpu.sp, 0x0000);
}

#[test]
fn add_sets_half_carry_on_low_nibble_overflow() {
    let mut cpu = CPU::new();
    cpu.pc = 0x0100;
    cpu.registers.a = 0x0F;
    cpu.registers.c = 0x01;
    let r = cpu.execute(Instruction::ADD(ArithmeticTarget::C));
    assert_eq!(r, Ok(0x0101));
    assert_eq!(cpu.registers.a, 0x10);
    assert!(cpu.registers.f.half_carry);
    assert!(!cpu.registers.f.carry);
    assert!(!cpu.registers.f.zero);
    assert!(!cpu.registers.f.subtract);
}

#[test]
fn add_sets_zero_and_carry_on_overflow() {
    let mut cpu = CPU::new();
    cpu.registers.a = 0xFF;
    cpu.registers.c = 0x01;
    let r = cpu.execute(Instruction::ADD(ArithmeticTarget::C));
    assert_eq!(r, Ok(0x0001));
    assert_eq!(cpu.registers.a, 0x00);
    assert!(cpu.registers.f.zero);
    assert!(cpu.registers.f.carry);
    assert!(cpu.registers.f.half_carry);
    assert!(!cpu.registers.f.subtract);
}

#[test]
fn add_reads_any_source_register() {
    let mut cpu = CPU::new();
    cpu.registers.a = 0x20;
    cpu.registers.h = 0x05;
    let r = cpu.execute(Instruction::ADD(ArithmeticTarget::H));
    assert_eq!(r, Ok(0x0001));
    assert_eq!(cpu.registers.a, 0x25);
}

#[test]
fn inc_bc_increments_pair_without_touching_flags() {
    let mut cpu = CPU::new();
    cpu.registers.set_bc(0x00FF);
    cpu.registers.f.zero = true;
    let r = cpu.execute(Instruction::INC(IncDecTarget::BC));
    assert_eq!(r, Ok(0x0001));
    assert_eq!(cpu.registers.get_bc(), 0x0100);
    assert!(cpu.registers.f.zero);
}

#[test]
fn inc_de_wraps_around() {
    let mut cpu = CPU::new();
    cpu.registers.set_de(0xFFFF);
    let r = cpu.execute(Instruction::INC(IncDecTarget::DE));
    assert_eq!(r, Ok(0x0001));
    assert_eq!(cpu.registers.get_de(), 0x0000);
}

#[test]
fn jump_if_zero_taken_moves_pc_to_target() {
    let mut cpu = CPU::new();
    cpu.pc = 0x0100;
    cpu.registers.f.zero = true;
    cpu.bus.write_byte(0x0101, 0x34);
    cpu.bus.write_byte(0x0102, 0x12);
    let r = cpu.execute(Instruction::JP(JumpTest::Zero));
    assert_eq!(r, Ok(0x1234));
}

#[test]
fn jump_if_zero_not_taken_skips_three_bytes() {
    let mut cpu = CPU::new();
    cpu.pc = 0x0100;
    cpu.registers.f.zero = false;
    cpu.bus.write_byte(0x0101, 0x34);
    cpu.bus.write_byte(0x0102, 0x12);
    let r = cpu.execute(Instruction::JP(JumpTest::Zero));
    assert_eq!(r, Ok(0x0103));
}

#[test]
fn jump_always_is_unconditional() {
    let mut cpu = CPU::new();
    cpu.pc = 0x0200;
    cpu.bus.write_byte(0x0201, 0x00);
    cpu.bus.write_byte(0x0202, 0x80);
    let r = cpu.execute(Instruction::JP(JumpTest::Always));
    assert_eq!(r, Ok(0x8000));
}

#[test]
fn ld_a_d8_loads_immediate_and_advances_two() {
    let mut cpu = CPU::new();
    cpu.pc = 0x0100;
    cpu.bus.write_byte(0x0101, 0x42);
    let r = cpu.execute(Instruction::LD(LoadType::Byte(
        LoadByteTarget::A,
        LoadByteSource::D8,
    )));
    assert_eq!(r, Ok(0x0102));
    assert_eq!(cpu.registers.a, 0x42);
}

#[test]
fn ld_hli_a_stores_accumulator_at_hl() {
    let mut cpu = CPU::new();
    cpu.pc = 0x0100;
    cpu.registers.a = 0x99;
    cpu.registers.set_hl(0xC000);
    let r = cpu.execute(Instruction::LD(LoadType::Byte(
        LoadByteTarget::HLI,
        LoadByteSource::A,
    )));
    assert_eq!(r, Ok(0x0101));
    assert_eq!(cpu.bus.read_byte(0xC000), 0x99);
}

#[test]
fn ld_a_hli_loads_byte_at_hl() {
    let mut cpu = CPU::new();
    cpu.registers.set_hl(0xC000);
    cpu.bus.write_byte(0xC000, 0x07);
    let r = cpu.execute(Instruction::LD(LoadType::Byte(
        LoadByteTarget::A,
        LoadByteSource::HLI,
    )));
    assert_eq!(r, Ok(0x0001));
    assert_eq!(cpu.registers.a, 0x07);
}

#[test]
fn ld_register_to_register() {
    let mut cpu = CPU::new();
    cpu.registers.c = 0x5C;
    let r = cpu.execute(Instruction::LD(LoadType::Byte(
        LoadByteTarget::B,
        LoadByteSource::C,
    )));
    assert_eq!(r, Ok(0x0001));
    assert_eq!(cpu.registers.b, 0x5C);
}

#[test]
fn push_bc_and_pop_bc_via_execute() {
    let mut cpu = CPU::new();
    cpu.sp = 0x8000;
    cpu.registers.set_bc(0xCAFE);
    let r = cpu.execute(Instruction::PUSH(StackTarget::BC));
    assert_eq!(r, Ok(0x0001));
    assert_eq!(cpu.sp, 0x7FFE);
    cpu.registers.set_bc(0x0000);
    let r = cpu.execute(Instruction::POP(StackTarget::BC));
    assert_eq!(r, Ok(0x0001));
    assert_eq!(cpu.registers.get_bc(), 0xCAFE);
    assert_eq!(cpu.sp, 0x8000);
}

#[test]
fn call_then_ret_restores_pc_past_the_call() {
    let mut cpu = CPU::new();
    cpu.pc = 0x0200;
    cpu.sp = 0x8000;
    cpu.bus.write_byte(0x0201, 0x00);
    cpu.bus.write_byte(0x0202, 0x30);
    let r = cpu.execute(Instruction::CALL(JumpTest::Always));
    assert_eq!(r, Ok(0x3000));
    assert_eq!(cpu.sp, 0x7FFE);
    cpu.pc = 0x3000;
    let r = cpu.execute(Instruction::RET(JumpTest::Always));
    assert_eq!(r, Ok(0x0203));
    assert_eq!(cpu.sp, 0x8000);
}

#[test]
fn call_not_taken_skips_instruction_and_leaves_stack() {
    let mut cpu = CPU::new();
    cpu.pc = 0x0200;
    cpu.sp = 0x8000;
    cpu.registers.f.zero = false;
    let r = cpu.execute(Instruction::CALL(JumpTest::Zero));
    assert_eq!(r, Ok(0x0203));
    assert_eq!(cpu.sp, 0x8000);
}

#[test]
fn ret_not_taken_advances_one_byte() {
    let mut cpu = CPU::new();
    cpu.pc = 0x0200;
    cpu.sp = 0x8000;
    cpu.registers.f.carry = false;
    let r = cpu.execute(Instruction::RET(JumpTest::Carry));
    assert_eq!(r, Ok(0x0201));
    assert_eq!(cpu.sp, 0x8000);
}

#[test]
fn execute_reports_unimplemented_rotate() {
    let mut cpu = CPU::new();
    cpu.pc = 0x0200;
    let r = cpu.execute(Instruction::RLC(PrefixTarget::B));
    assert_eq!(r, Err(ExecError::Unimplemented));
    assert_eq!(cpu.pc, 0x0200);
}

#[test]
fn step_executes_inc_bc_and_commits_pc() {
    let mut cpu = CPU::new();
    cpu.bus.write_byte(0x0000, 0x02);
    let r = cpu.step();
    assert_eq!(r, Ok(()));
    assert_eq!(cpu.pc, 0x0001);
    assert_eq!(cpu.registers.get_bc(), 0x0001);
}

#[test]
fn step_executes_inc_de() {
    let mut cpu = CPU::new();
    cpu.pc = 0x0150;
    cpu.bus.write_byte(0x0150, 0x13);
    cpu.registers.set_de(0x00FF);
    let r = cpu.step();
    assert_eq!(r, Ok(()));
    assert_eq!(cpu.pc, 0x0151);
    assert_eq!(cpu.registers.get_de(), 0x0100);
}

#[test]
fn step_reports_unknown_opcode_with_byte_and_flag() {
    let mut cpu = CPU::new();
    cpu.pc = 0x0100;
    cpu.registers.a = 0x55;
    cpu.bus.write_byte(0x0100, 0xFF);
    let r = cpu.step();
    assert_eq!(
        r,
        Err(StepError::UnknownOpcode { opcode: 0xFF, prefixed: false })
    );
    // A failed step mutates nothing.
    assert_eq!(cpu.pc, 0x0100);
    assert_eq!(cpu.registers.a, 0x55);
    assert_eq!(cpu.bus.read_byte(0x0100), 0xFF);
}

#[test]
fn step_reports_unknown_prefixed_opcode() {
    let mut cpu = CPU::new();
    cpu.pc = 0x0100;
    cpu.bus.write_byte(0x0100, 0xCB);
    cpu.bus.write_byte(0x0101, 0x01);
    let r = cpu.step();
    assert_eq!(
        r,
        Err(StepError::UnknownOpcode { opcode: 0x01, prefixed: true })
    );
    assert_eq!(cpu.pc, 0x0100);
}

#[test]
fn step_reports_unimplemented_prefixed_instruction() {
    let mut cpu = CPU::new();
    cpu.pc = 0x0100;
    cpu.bus.write_byte(0x0100, 0xCB);
    cpu.bus.write_byte(0x0101, 0x00);
    let r = cpu.step();
    assert_eq!(
        r,
        Err(StepError::Unimplemented { opcode: 0x00, prefixed: true })
    );
    assert_eq!(cpu.pc, 0x0100);
}
