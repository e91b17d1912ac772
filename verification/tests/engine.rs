use rusty_gb::cpu::{
    ArithmeticTarget, ArithmeticTarget16, ControlCondition, FlagsRegister, Instruction, JumpAddr,
    LoadByteDestination, LoadByteSource, LoadType, LoadWordDestination, LoadWordSource, RstValue,
    CPU,
};

fn running() -> CPU {
    let mut cpu = CPU::new();
    cpu.is_halted = false;
    cpu.is_stopped = false;
    cpu
}

fn flags(zero: bool, subtract: bool, half_carry: bool, carry: bool) -> FlagsRegister {
    FlagsRegister { zero, subtract, half_carry, carry }
}

fn ld_byte(destination: LoadByteDestination, source: LoadByteSource) -> Instruction {
    Instruction::LD(LoadType::Byte(destination, source))
}

fn ld_word(destination: LoadWordDestination, source: LoadWordSource) -> Instruction {
    Instruction::LD(LoadType::Word(destination, source))
}

#[test]
fn reset_state_is_halted_and_stopped() {
    let cpu = CPU::new();
    assert_eq!(cpu.is_halted, true);
    assert_eq!(cpu.is_stopped, true);
    assert_eq!(cpu.interrupt_enable, true);
    assert_eq!(cpu.pc, 0);
    assert_eq!(cpu.sp, 0xFFFF);
    assert_eq!(cpu.frequency, 4194304);
    assert_eq!(cpu.frame_delay, 16750);
    assert_eq!(cpu.reg.get_af(), 0);
    assert_eq!(cpu.reg.get_bc(), 0);
    assert_eq!(cpu.reg.get_de(), 0);
    assert_eq!(cpu.reg.get_hl(), 0);
    assert!(cpu.bus.memory.iter().all(|byte| *byte == 0));
}

#[test]
fn memory_covers_the_top_address() {
    let mut cpu = CPU::new();
    assert_eq!(cpu.bus.memory.len(), 0x10000);
    assert_eq!(cpu.bus.read_byte(0xFFFF), 0);
    cpu.bus.write_byte(0xFFFF, 0xA5);
    assert_eq!(cpu.bus.read_byte(0xFFFF), 0xA5);
    assert_eq!(cpu.bus.read_byte(0xFFFE), 0);
    cpu.bus.write_byte(0x0000, 0x5A);
    assert_eq!(cpu.bus.read_byte(0x0000), 0x5A);
    assert_eq!(cpu.bus.memory[0xFFFF], 0xA5);
}

#[test]
fn a_halted_or_stopped_processor_executes_nothing() {
    for (halted, stopped) in [(true, false), (false, true), (true, true)] {
        let mut cpu = CPU::new();
        cpu.is_halted = halted;
        cpu.is_stopped = stopped;
        cpu.pc = 0x0200;
        cpu.reg.a = 0x11;
        cpu.reg.b = 0x22;
        let next = cpu.execute(Instruction::ADD(ArithmeticTarget::B));
        assert_eq!(next, (0x0200, 0));
        assert_eq!(cpu.reg.a, 0x11);
        assert_eq!(cpu.reg.f, flags(false, false, false, false));
        let next = cpu.execute(Instruction::CALL(ControlCondition::NONE));
        assert_eq!(next, (0x0200, 0));
        assert_eq!(cpu.sp, 0xFFFF);
        // Even an instruction that the engine cannot execute is passed over.
        let next = cpu.execute(Instruction::INC(ArithmeticTarget::IMM8));
        assert_eq!(next, (0x0200, 0));
    }
}

#[test]
fn step_on_a_halted_processor_stays_and_counts_the_table_cycles() {
    let mut cpu = CPU::new();
    cpu.bus.memory[0] = 0x01;
    assert_eq!(cpu.step(), 12);
    assert_eq!(cpu.pc, 0);
    assert_eq!(cpu.reg.get_bc(), 0);
}

#[test]
fn step_over_a_nop_moves_on_by_one_and_takes_four_cycles() {
    let mut cpu = running();
    cpu.bus.memory[0] = 0x00;
    assert_eq!(cpu.step(), 4);
    assert_eq!(cpu.pc, 1);
    assert_eq!(cpu.sp, 0xFFFF);
    assert_eq!(cpu.reg.get_af(), 0);
}

#[test]
fn add_b_overflows_into_zero() {
    let mut cpu = running();
    cpu.reg.a = 0xFF;
    cpu.reg.b = 0x01;
    let next = cpu.execute(Instruction::ADD(ArithmeticTarget::B));
    assert_eq!(cpu.reg.a, 0x00);
    assert_eq!(cpu.reg.f, flags(true, false, true, true));
    assert_eq!(next, (1, 0));
    assert_eq!(cpu.reg.b, 0x01);
}

#[test]
fn load_a_from_the_immediate_byte() {
    let mut cpu = running();
    cpu.pc = 0x0100;
    cpu.bus.memory[0x0101] = 0x42;
    let next = cpu.execute(ld_byte(LoadByteDestination::A, LoadByteSource::IMM8));
    assert_eq!(cpu.reg.a, 0x42);
    assert_eq!(next, (0x0102, 0));
    // The engine leaves the program counter to the caller.
    assert_eq!(cpu.pc, 0x0100);
}

#[test]
fn daa_instruction_corrects_after_an_addition_with_half_carry() {
    let mut cpu = running();
    cpu.reg.a = 0x08;
    cpu.reg.b = 0x08;
    cpu.execute(Instruction::ADD(ArithmeticTarget::B));
    assert_eq!(cpu.reg.a, 0x10);
    assert_eq!(cpu.reg.f, flags(false, false, true, false));
    let next = cpu.execute(Instruction::DAA);
    assert_eq!(cpu.reg.a, 0x16);
    assert_eq!(cpu.reg.f, flags(false, false, false, false));
    assert_eq!(next, (1, 0));
}

#[test]
fn arithmetic_reads_each_operand() {
    let mut cpu = running();
    cpu.pc = 0x0300;
    cpu.reg.b = 1;
    cpu.reg.c = 2;
    cpu.reg.d = 3;
    cpu.reg.e = 4;
    cpu.reg.h = 0x40;
    cpu.reg.l = 0x05;
    cpu.bus.memory[0x4005] = 6;
    cpu.bus.memory[0x0301] = 7;
    let operands = [
        (ArithmeticTarget::B, 1u8, 1u16),
        (ArithmeticTarget::C, 2, 1),
        (ArithmeticTarget::D, 3, 1),
        (ArithmeticTarget::E, 4, 1),
        (ArithmeticTarget::H, 0x40, 1),
        (ArithmeticTarget::L, 0x05, 1),
        (ArithmeticTarget::HL, 6, 1),
        (ArithmeticTarget::IMM8, 7, 2),
    ];
    for (target, value, length) in operands {
        cpu.reg.a = 0x80;
        let next = cpu.execute(Instruction::ADD(target));
        assert_eq!(cpu.reg.a, 0x80 + value);
        assert_eq!(next, (0x0300 + length, 0));
    }
    cpu.reg.a = 0x21;
    let next = cpu.execute(Instruction::ADD(ArithmeticTarget::A));
    assert_eq!(cpu.reg.a, 0x42);
    assert_eq!(next, (0x0301, 0));
}

#[test]
fn each_arithmetic_instruction_on_the_accumulator() {
    let mut cpu = running();
    cpu.reg.b = 0x0F;

    cpu.reg.a = 0x10;
    cpu.execute(Instruction::SUB(ArithmeticTarget::B));
    assert_eq!(cpu.reg.a, 0x01);
    assert_eq!(cpu.reg.f, flags(false, true, true, false));

    cpu.reg.a = 0x3C;
    cpu.execute(Instruction::AND(ArithmeticTarget::B));
    assert_eq!(cpu.reg.a, 0x0C);
    assert_eq!(cpu.reg.f, flags(false, false, true, false));

    cpu.reg.a = 0x30;
    cpu.execute(Instruction::OR(ArithmeticTarget::B));
    assert_eq!(cpu.reg.a, 0x3F);
    assert_eq!(cpu.reg.f, flags(false, false, false, false));

    cpu.reg.a = 0x0F;
    cpu.execute(Instruction::XOR(ArithmeticTarget::B));
    assert_eq!(cpu.reg.a, 0x00);
    assert_eq!(cpu.reg.f, flags(true, false, false, false));

    cpu.reg.a = 0xF0;
    cpu.reg.f.carry = true;
    cpu.execute(Instruction::ADC(ArithmeticTarget::B));
    assert_eq!(cpu.reg.a, 0x00);
    assert_eq!(cpu.reg.f, flags(true, false, true, true));

    cpu.reg.a = 0x10;
    cpu.reg.f.carry = true;
    cpu.execute(Instruction::SBC(ArithmeticTarget::B));
    assert_eq!(cpu.reg.a, 0x00);
    assert_eq!(cpu.reg.f, flags(true, true, true, false));
}

#[test]
fn compare_sets_the_flags_of_a_subtraction_and_keeps_the_accumulator() {
    let mut cpu = running();
    cpu.reg.a = 0x10;
    cpu.reg.c = 0x10;
    let next = cpu.execute(Instruction::CP(ArithmeticTarget::C));
    assert_eq!(cpu.reg.a, 0x10);
    assert_eq!(cpu.reg.f, flags(true, true, false, false));
    assert_eq!(next, (1, 0));
    cpu.bus.memory[1] = 0x20;
    let next = cpu.execute(Instruction::CP(ArithmeticTarget::IMM8));
    assert_eq!(cpu.reg.a, 0x10);
    assert_eq!(cpu.reg.f, flags(false, true, false, true));
    assert_eq!(next, (2, 0));
}

#[test]
fn increment_and_decrement_write_back_where_they_read() {
    let mut cpu = running();
    cpu.reg.f.carry = true;
    cpu.reg.b = 0x0F;
    let next = cpu.execute(Instruction::INC(ArithmeticTarget::B));
    assert_eq!(cpu.reg.b, 0x10);
    assert_eq!(cpu.reg.f, flags(false, false, true, true));
    assert_eq!(next, (1, 0));

    cpu.reg.h = 0x80;
    cpu.reg.l = 0x00;
    cpu.bus.memory[0x8000] = 0xFF;
    cpu.execute(Instruction::INC(ArithmeticTarget::HL));
    assert_eq!(cpu.bus.memory[0x8000], 0x00);
    assert_eq!(cpu.reg.f, flags(true, false, true, true));
    assert_eq!(cpu.reg.get_hl(), 0x8000);

    cpu.execute(Instruction::DEC(ArithmeticTarget::HL));
    assert_eq!(cpu.bus.memory[0x8000], 0xFF);
    assert_eq!(cpu.reg.f, flags(false, true, true, true));

    cpu.reg.a = 0x01;
    cpu.execute(Instruction::DEC(ArithmeticTarget::A));
    assert_eq!(cpu.reg.a, 0x00);
    assert_eq!(cpu.reg.f, flags(true, true, false, true));
}

#[test]
fn sixteen_bit_increment_and_decrement_wrap_and_leave_the_flags() {
    let mut cpu = running();
    cpu.reg.f = flags(true, true, true, true);
    cpu.reg.set_bc(0xFFFF);
    let next = cpu.execute(Instruction::INC16(ArithmeticTarget16::BC));
    assert_eq!(cpu.reg.get_bc(), 0x0000);
    assert_eq!(next, (1, 0));
    cpu.execute(Instruction::DEC16(ArithmeticTarget16::BC));
    assert_eq!(cpu.reg.get_bc(), 0xFFFF);
    cpu.reg.set_de(0x00FF);
    cpu.execute(Instruction::INC16(ArithmeticTarget16::DE));
    assert_eq!(cpu.reg.get_de(), 0x0100);
    cpu.reg.set_hl(0x0100);
    cpu.execute(Instruction::DEC16(ArithmeticTarget16::HL));
    assert_eq!(cpu.reg.get_hl(), 0x00FF);
    cpu.sp = 0xFFFF;
    cpu.execute(Instruction::INC16(ArithmeticTarget16::SP));
    assert_eq!(cpu.sp, 0x0000);
    cpu.execute(Instruction::DEC16(ArithmeticTarget16::SP));
    assert_eq!(cpu.sp, 0xFFFF);
    assert_eq!(cpu.reg.f, flags(true, true, true, true));
}

#[test]
fn sixteen_bit_addition_goes_to_hl() {
    let mut cpu = running();
    cpu.reg.f.zero = true;
    cpu.reg.set_hl(0x0FFF);
    cpu.reg.set_bc(0x0001);
    let next = cpu.execute(Instruction::ADD16(ArithmeticTarget16::BC));
    assert_eq!(cpu.reg.get_hl(), 0x1000);
    assert_eq!(cpu.reg.f, flags(true, false, true, false));
    assert_eq!(next, (1, 0));
    cpu.reg.set_de(0xF000);
    cpu.execute(Instruction::ADD16(ArithmeticTarget16::DE));
    assert_eq!(cpu.reg.get_hl(), 0x0000);
    assert_eq!(cpu.reg.f, flags(true, false, false, true));
    cpu.reg.set_hl(0x8080);
    cpu.execute(Instruction::ADD16(ArithmeticTarget16::HL));
    assert_eq!(cpu.reg.get_hl(), 0x0100);
    assert_eq!(cpu.reg.f, flags(true, false, false, true));
    cpu.sp = 0x0023;
    cpu.execute(Instruction::ADD16(ArithmeticTarget16::SP));
    assert_eq!(cpu.reg.get_hl(), 0x0123);
    assert_eq!(cpu.sp, 0x0023);
}

#[test]
fn stack_pointer_takes_a_signed_immediate() {
    let mut cpu = running();
    cpu.reg.f = flags(true, true, true, true);
    cpu.pc = 0x0010;
    cpu.sp = 0x1000;
    cpu.bus.memory[0x0011] = 0xFE;
    let next = cpu.execute(Instruction::ADD16(ArithmeticTarget16::SPIMM));
    assert_eq!(cpu.sp, 0x0FFE);
    assert_eq!(next, (0x0012, 0));
    assert_eq!(cpu.reg.f, flags(true, true, true, true));
    cpu.bus.memory[0x0011] = 0x7F;
    cpu.execute(Instruction::ADD16(ArithmeticTarget16::SPIMM));
    assert_eq!(cpu.sp, 0x107D);
    cpu.sp = 0x0001;
    cpu.bus.memory[0x0011] = 0x80;
    cpu.execute(Instruction::ADD16(ArithmeticTarget16::SPIMM));
    assert_eq!(cpu.sp, 0xFF81);
}

#[test]
fn hl_takes_the_stack_pointer_plus_a_signed_immediate() {
    let mut cpu = running();
    cpu.pc = 0x0010;
    cpu.sp = 0x1000;
    cpu.reg.f = flags(true, true, false, false);
    cpu.bus.memory[0x0011] = 0xFF;
    let next = cpu.execute(ld_word(LoadWordDestination::HL, LoadWordSource::SPIMM));
    assert_eq!(cpu.reg.get_hl(), 0x0FFF);
    assert_eq!(cpu.sp, 0x1000);
    assert_eq!(next, (0x0012, 0));
    // 0x1000 + 0xFFFF carries out of bit 15 but not out of bit 11.
    assert_eq!(cpu.reg.f, flags(false, false, false, true));

    cpu.sp = 0x0FFF;
    cpu.bus.memory[0x0011] = 0x01;
    cpu.execute(ld_word(LoadWordDestination::HL, LoadWordSource::SPIMM));
    assert_eq!(cpu.reg.get_hl(), 0x1000);
    assert_eq!(cpu.reg.f, flags(false, false, true, false));
}

#[test]
fn byte_loads_between_registers_and_memory() {
    let mut cpu = running();
    cpu.pc = 0x0100;
    cpu.reg.a = 0xAA;
    cpu.reg.set_bc(0x2000);
    cpu.reg.set_de(0x3000);
    cpu.reg.set_hl(0x4000);

    let next = cpu.execute(ld_byte(LoadByteDestination::BC, LoadByteSource::A));
    assert_eq!(cpu.bus.memory[0x2000], 0xAA);
    assert_eq!(next, (0x0101, 0));
    cpu.execute(ld_byte(LoadByteDestination::DE, LoadByteSource::B));
    assert_eq!(cpu.bus.memory[0x3000], 0x20);
    cpu.execute(ld_byte(LoadByteDestination::HL, LoadByteSource::D));
    assert_eq!(cpu.bus.memory[0x4000], 0x30);

    cpu.execute(ld_byte(LoadByteDestination::E, LoadByteSource::BC));
    assert_eq!(cpu.reg.e, 0xAA);
    // E has changed, so DE now addresses 0x30AA.
    cpu.bus.memory[0x30AA] = 0x21;
    cpu.execute(ld_byte(LoadByteDestination::L, LoadByteSource::DE));
    assert_eq!(cpu.reg.l, 0x21);
    cpu.reg.set_hl(0x4000);
    cpu.execute(ld_byte(LoadByteDestination::C, LoadByteSource::HL));
    assert_eq!(cpu.reg.c, 0x30);
    cpu.execute(ld_byte(LoadByteDestination::H, LoadByteSource::C));
    assert_eq!(cpu.reg.h, 0x30);
    cpu.execute(ld_byte(LoadByteDestination::D, LoadByteSource::H));
    assert_eq!(cpu.reg.d, 0x30);
    cpu.execute(ld_byte(LoadByteDestination::B, LoadByteSource::L));
    assert_eq!(cpu.reg.b, 0x00);
    assert_eq!(cpu.reg.f, flags(false, false, false, false));
}

#[test]
fn byte_loads_through_hl_move_the_pair() {
    let mut cpu = running();
    cpu.reg.a = 0x77;
    cpu.reg.set_hl(0xFFFF);
    let next = cpu.execute(ld_byte(LoadByteDestination::HLI, LoadByteSource::A));
    assert_eq!(cpu.bus.memory[0xFFFF], 0x77);
    assert_eq!(cpu.reg.get_hl(), 0x0000);
    assert_eq!(next, (1, 0));
    cpu.execute(ld_byte(LoadByteDestination::HLD, LoadByteSource::A));
    assert_eq!(cpu.bus.memory[0x0000], 0x77);
    assert_eq!(cpu.reg.get_hl(), 0xFFFF);

    cpu.bus.memory[0x1234] = 0x55;
    cpu.reg.set_hl(0x1234);
    cpu.execute(ld_byte(LoadByteDestination::A, LoadByteSource::HLI));
    assert_eq!(cpu.reg.a, 0x55);
    assert_eq!(cpu.reg.get_hl(), 0x1235);
    cpu.bus.memory[0x1235] = 0x66;
    cpu.execute(ld_byte(LoadByteDestination::A, LoadByteSource::HLD));
    assert_eq!(cpu.reg.a, 0x66);
    assert_eq!(cpu.reg.get_hl(), 0x1234);

    // The source is read and moves the pair before the destination stores.
    cpu.bus.memory[0x1234] = 0x99;
    cpu.execute(ld_byte(LoadByteDestination::HLI, LoadByteSource::HLI));
    assert_eq!(cpu.bus.memory[0x1235], 0x99);
    assert_eq!(cpu.reg.get_hl(), 0x1236);
}

#[test]
fn byte_loads_through_the_high_page_and_immediate_addresses() {
    let mut cpu = running();
    cpu.pc = 0x0100;
    cpu.bus.memory[0x0101] = 0x80;
    cpu.bus.memory[0x0102] = 0xC0;
    cpu.reg.a = 0x12;
    let next = cpu.execute(ld_byte(LoadByteDestination::A8, LoadByteSource::A));
    assert_eq!(cpu.bus.memory[0xFF80], 0x12);
    assert_eq!(next, (0x0102, 0));

    cpu.bus.memory[0xFF80] = 0x34;
    let next = cpu.execute(ld_byte(LoadByteDestination::A, LoadByteSource::A8));
    assert_eq!(cpu.reg.a, 0x34);
    assert_eq!(next, (0x0102, 0));

    cpu.reg.c = 0x81;
    let next = cpu.execute(ld_byte(LoadByteDestination::CA8, LoadByteSource::A));
    assert_eq!(cpu.bus.memory[0xFF81], 0x34);
    assert_eq!(next, (0x0101, 0));
    cpu.bus.memory[0xFF81] = 0x56;
    let next = cpu.execute(ld_byte(LoadByteDestination::A, LoadByteSource::CA8));
    assert_eq!(cpu.reg.a, 0x56);
    assert_eq!(next, (0x0101, 0));

    let next = cpu.execute(ld_byte(LoadByteDestination::A16, LoadByteSource::A));
    assert_eq!(cpu.bus.memory[0xC080], 0x56);
    assert_eq!(next, (0x0103, 0));
    cpu.bus.memory[0xC080] = 0x78;
    let next = cpu.execute(ld_byte(LoadByteDestination::A, LoadByteSource::A16));
    assert_eq!(cpu.reg.a, 0x78);
    assert_eq!(next, (0x0103, 0));

    // An immediate source with an immediate address as destination is two bytes long.
    let next = cpu.execute(ld_byte(LoadByteDestination::A16, LoadByteSource::IMM8));
    assert_eq!(cpu.bus.memory[0xC080], 0x80);
    assert_eq!(next, (0x0102, 0));
}

#[test]
fn word_loads_between_pairs() {
    let mut cpu = running();
    cpu.pc = 0x0100;
    cpu.bus.memory[0x0101] = 0x34;
    cpu.bus.memory[0x0102] = 0x12;
    let next = cpu.execute(ld_word(LoadWordDestination::BC, LoadWordSource::IMM16));
    assert_eq!(cpu.reg.get_bc(), 0x1234);
    assert_eq!(next, (0x0103, 0));
    let next = cpu.execute(ld_word(LoadWordDestination::DE, LoadWordSource::BC));
    assert_eq!(cpu.reg.get_de(), 0x1234);
    assert_eq!(next, (0x0101, 0));
    cpu.execute(ld_word(LoadWordDestination::HL, LoadWordSource::DE));
    assert_eq!(cpu.reg.get_hl(), 0x1234);
    cpu.execute(ld_word(LoadWordDestination::SP, LoadWordSource::HL));
    assert_eq!(cpu.sp, 0x1234);
    cpu.execute(ld_word(LoadWordDestination::AF, LoadWordSource::SP));
    assert_eq!(cpu.reg.get_af(), 0x1230);
    cpu.execute(ld_word(LoadWordDestination::BC, LoadWordSource::AF));
    assert_eq!(cpu.reg.get_bc(), 0x1230);
}

#[test]
fn word_store_at_an_immediate_address_is_low_byte_first() {
    let mut cpu = running();
    cpu.pc = 0x0100;
    cpu.sp = 0xBEEF;
    cpu.bus.memory[0x0101] = 0xFF;
    cpu.bus.memory[0x0102] = 0xFF;
    let next = cpu.execute(ld_word(LoadWordDestination::A16, LoadWordSource::SP));
    assert_eq!(cpu.bus.memory[0xFFFF], 0xEF);
    // The high byte goes to the address after, which wraps to zero.
    assert_eq!(cpu.bus.memory[0x0000], 0xBE);
    assert_eq!(next, (0x0103, 0));
}

#[test]
fn push_stores_the_high_byte_first() {
    let mut cpu = running();
    cpu.sp = 0xD000;
    cpu.reg.set_bc(0x1234);
    let next = cpu.execute(ld_word(LoadWordDestination::PUSH, LoadWordSource::BC));
    assert_eq!(cpu.sp, 0xCFFE);
    assert_eq!(cpu.bus.memory[0xCFFF], 0x12);
    assert_eq!(cpu.bus.memory[0xCFFE], 0x34);
    assert_eq!(next, (1, 0));
}

#[test]
fn pop_takes_the_top_of_the_stack_as_the_high_byte() {
    let mut cpu = running();
    cpu.sp = 0xCFFE;
    cpu.bus.memory[0xCFFE] = 0xAB;
    cpu.bus.memory[0xCFFF] = 0xCD;
    let next = cpu.execute(ld_word(LoadWordDestination::DE, LoadWordSource::POP));
    assert_eq!(cpu.reg.get_de(), 0xABCD);
    assert_eq!(cpu.sp, 0xD000);
    assert_eq!(next, (1, 0));
    cpu.sp = 0xCFFE;
    cpu.execute(ld_word(LoadWordDestination::AF, LoadWordSource::POP));
    assert_eq!(cpu.reg.a, 0xAB);
    assert_eq!(cpu.reg.f, flags(true, true, false, false));
}

#[test]
fn conditions_test_the_flags() {
    let cases = [
        (ControlCondition::NZ, flags(false, false, false, false), true),
        (ControlCondition::NZ, flags(true, false, false, false), false),
        (ControlCondition::Z, flags(true, false, false, false), true),
        (ControlCondition::Z, flags(false, false, false, true), false),
        (ControlCondition::NC, flags(true, false, false, false), true),
        (ControlCondition::NC, flags(false, false, false, true), false),
        (ControlCondition::C, flags(false, false, false, true), true),
        (ControlCondition::C, flags(true, true, true, false), false),
        (ControlCondition::NONE, flags(true, true, true, true), true),
        (ControlCondition::NONE, flags(false, false, false, false), true),
    ];
    for (condition, f, taken) in cases {
        let mut cpu = running();
        cpu.pc = 0x0100;
        cpu.bus.memory[0x0101] = 0x00;
        cpu.bus.memory[0x0102] = 0x80;
        cpu.reg.f = f;
        let next = cpu.execute(Instruction::JP(condition, JumpAddr::IMM16));
        assert_eq!(next, if taken { (0x8000, 4) } else { (0x0103, 0) });
        assert_eq!(cpu.reg.f, f);
    }
}

#[test]
fn jumps_by_each_kind_of_address() {
    let mut cpu = running();
    cpu.pc = 0x0100;
    cpu.bus.memory[0x0101] = 0x10;
    cpu.bus.memory[0x0102] = 0x20;
    cpu.reg.set_hl(0x4000);
    let none = ControlCondition::NONE;
    assert_eq!(cpu.execute(Instruction::JP(none, JumpAddr::IMM16)), (0x2010, 4));
    assert_eq!(cpu.execute(Instruction::JP(none, JumpAddr::HL)), (0x4000, 4));
    assert_eq!(cpu.execute(Instruction::JP(none, JumpAddr::REL)), (0x0110, 4));
    let z = ControlCondition::Z;
    assert_eq!(cpu.execute(Instruction::JP(z, JumpAddr::IMM16)), (0x0103, 0));
    assert_eq!(cpu.execute(Instruction::JP(z, JumpAddr::HL)), (0x0101, 0));
    assert_eq!(cpu.execute(Instruction::JP(z, JumpAddr::REL)), (0x0102, 0));
    assert_eq!(cpu.pc, 0x0100);
}

#[test]
fn relative_jumps_take_a_signed_displacement() {
    let mut cpu = running();
    let jump = Instruction::JP(ControlCondition::NONE, JumpAddr::REL);
    cpu.pc = 0x0100;
    cpu.bus.memory[0x0101] = 0xFE;
    assert_eq!(cpu.execute(jump), (0x00FE, 4));
    cpu.bus.memory[0x0101] = 0x80;
    assert_eq!(cpu.execute(jump), (0x0080, 4));
    cpu.bus.memory[0x0101] = 0x7F;
    assert_eq!(cpu.execute(jump), (0x017F, 4));
    cpu.pc = 0x0001;
    cpu.bus.memory[0x0002] = 0xFD;
    assert_eq!(cpu.execute(jump), (0xFFFE, 4));
}

#[test]
fn call_pushes_the_return_address_high_byte_first() {
    let mut cpu = running();
    cpu.pc = 0x1234;
    cpu.sp = 0xD000;
    cpu.bus.memory[0x1235] = 0x78;
    cpu.bus.memory[0x1236] = 0x56;
    let next = cpu.execute(Instruction::CALL(ControlCondition::NONE));
    assert_eq!(next, (0x5678, 12));
    assert_eq!(cpu.sp, 0xCFFE);
    assert_eq!(cpu.bus.memory[0xCFFF], 0x12);
    assert_eq!(cpu.bus.memory[0xCFFE], 0x37);
}

#[test]
fn call_not_taken_falls_through() {
    let mut cpu = running();
    cpu.pc = 0x1234;
    cpu.sp = 0xD000;
    cpu.reg.f.zero = true;
    let next = cpu.execute(Instruction::CALL(ControlCondition::NZ));
    assert_eq!(next, (0x1237, 0));
    assert_eq!(cpu.sp, 0xD000);
    assert!(cpu.bus.memory.iter().all(|byte| *byte == 0));
}

#[test]
fn call_then_return_comes_back_after_the_call() {
    for pc in [0x0000u16, 0x0150, 0x7FFE, 0xFFFD, 0xFFFF] {
        for sp in [0xFFFFu16, 0xD000, 0x0001, 0x0000] {
            let mut cpu = running();
            cpu.pc = pc;
            cpu.sp = sp;
            cpu.bus.memory[pc.wrapping_add(1) as usize] = 0x00;
            cpu.bus.memory[pc.wrapping_add(2) as usize] = 0x90;
            let (target, penalty) = cpu.execute(Instruction::CALL(ControlCondition::NONE));
            assert_eq!(penalty, 12);
            cpu.pc = target;
            let (back, penalty) = cpu.execute(Instruction::RET(ControlCondition::NONE));
            assert_eq!(penalty, 12);
            assert_eq!(back, pc.wrapping_add(3));
            assert_eq!(cpu.sp, sp);
        }
    }
}

#[test]
fn call_and_return_through_step() {
    let mut cpu = running();
    cpu.sp = 0xD000;
    // 0x0000: CALL 0x0010; 0x0010: RET
    cpu.bus.memory[0x0000] = 0xCD;
    cpu.bus.memory[0x0001] = 0x10;
    cpu.bus.memory[0x0002] = 0x00;
    cpu.bus.memory[0x0010] = 0xC9;
    assert_eq!(cpu.step(), 12);
    assert_eq!(cpu.pc, 0x0010);
    assert_eq!(cpu.sp, 0xCFFE);
    assert_eq!(cpu.step(), 12);
    assert_eq!(cpu.pc, 0x0003);
    assert_eq!(cpu.sp, 0xD000);
}

#[test]
fn return_pops_the_low_byte_first() {
    let mut cpu = running();
    cpu.pc = 0x0100;
    cpu.sp = 0xCFFE;
    cpu.bus.memory[0xCFFE] = 0x34;
    cpu.bus.memory[0xCFFF] = 0x12;
    let next = cpu.execute(Instruction::RET(ControlCondition::NONE));
    assert_eq!(next, (0x1234, 12));
    assert_eq!(cpu.sp, 0xD000);
}

#[test]
fn return_not_taken_falls_through() {
    let mut cpu = running();
    cpu.pc = 0x0100;
    cpu.sp = 0xCFFE;
    cpu.reg.f.carry = true;
    let next = cpu.execute(Instruction::RET(ControlCondition::NC));
    assert_eq!(next, (0x0101, 0));
    assert_eq!(cpu.sp, 0xCFFE);
}

#[test]
fn return_from_interrupt_enables_interrupts() {
    let mut cpu = running();
    cpu.interrupt_enable = false;
    cpu.sp = 0xCFFE;
    cpu.bus.memory[0xCFFE] = 0x50;
    cpu.bus.memory[0xCFFF] = 0x01;
    let next = cpu.execute(Instruction::RET(ControlCondition::NONEEI));
    assert_eq!(next, (0x0150, 12));
    assert_eq!(cpu.interrupt_enable, true);
    assert_eq!(cpu.sp, 0xD000);

    let mut cpu = running();
    cpu.interrupt_enable = false;
    cpu.execute(Instruction::RET(ControlCondition::NONE));
    assert_eq!(cpu.interrupt_enable, false);
}

#[test]
fn restart_pushes_the_address_of_the_instruction_itself() {
    let vectors = [
        (RstValue::H00, 0x00u16),
        (RstValue::H08, 0x08),
        (RstValue::H10, 0x10),
        (RstValue::H18, 0x18),
        (RstValue::H20, 0x20),
        (RstValue::H28, 0x28),
        (RstValue::H30, 0x30),
        (RstValue::H38, 0x38),
    ];
    for (value, vector) in vectors {
        let mut cpu = running();
        cpu.pc = 0x1234;
        cpu.sp = 0xD000;
        let next = cpu.execute(Instruction::RST(value));
        assert_eq!(next, (vector, 0));
        assert_eq!(cpu.sp, 0xCFFE);
        assert_eq!(cpu.bus.memory[0xCFFF], 0x12);
        assert_eq!(cpu.bus.memory[0xCFFE], 0x34);
    }
}

#[test]
fn halt_and_stop_end_the_run() {
    let mut cpu = running();
    let next = cpu.execute(Instruction::HALT);
    assert_eq!(next, (1, 0));
    assert_eq!((cpu.is_halted, cpu.is_stopped), (true, false));
    assert_eq!(cpu.execute(Instruction::NOP), (0, 0));

    let mut cpu = running();
    let next = cpu.execute(Instruction::STOP);
    assert_eq!(next, (1, 0));
    assert_eq!((cpu.is_halted, cpu.is_stopped), (false, true));
    assert_eq!(cpu.execute(Instruction::NOP), (0, 0));
}

#[test]
fn halt_through_step_freezes_the_program_counter() {
    let mut cpu = running();
    cpu.bus.memory[0] = 0x76;
    cpu.bus.memory[1] = 0x01;
    assert_eq!(cpu.step(), 0);
    assert_eq!(cpu.pc, 1);
    assert_eq!(cpu.is_halted, true);
    assert_eq!(cpu.step(), 12);
    assert_eq!(cpu.pc, 1);
    assert_eq!(cpu.reg.get_bc(), 0);
}

#[test]
fn interrupt_switches() {
    let mut cpu = running();
    assert_eq!(cpu.execute(Instruction::DI), (1, 0));
    assert_eq!(cpu.interrupt_enable, false);
    assert_eq!(cpu.execute(Instruction::EI), (1, 0));
    assert_eq!(cpu.interrupt_enable, true);
}

#[test]
fn complement_and_carry_instructions() {
    let mut cpu = running();
    cpu.reg.a = 0b1010_0101;
    cpu.reg.f = flags(true, false, false, true);
    assert_eq!(cpu.execute(Instruction::CPL), (1, 0));
    assert_eq!(cpu.reg.a, 0b0101_1010);
    assert_eq!(cpu.reg.f, flags(true, true, true, true));

    assert_eq!(cpu.execute(Instruction::CCF), (1, 0));
    assert_eq!(cpu.reg.f, flags(true, false, false, false));
    cpu.execute(Instruction::CCF);
    assert_eq!(cpu.reg.f, flags(true, false, false, true));

    cpu.reg.f = flags(false, true, true, false);
    assert_eq!(cpu.execute(Instruction::SCF), (1, 0));
    assert_eq!(cpu.reg.f, flags(false, false, false, true));
    assert_eq!(cpu.reg.a, 0b0101_1010);
}

#[test]
fn the_program_counter_wraps_at_the_top_of_memory() {
    let mut cpu = running();
    cpu.pc = 0xFFFF;
    assert_eq!(cpu.execute(Instruction::NOP), (0x0000, 0));
    cpu.bus.memory[0x0000] = 0x42;
    let next = cpu.execute(ld_byte(LoadByteDestination::A, LoadByteSource::IMM8));
    assert_eq!(cpu.reg.a, 0x42);
    assert_eq!(next, (0x0001, 0));
    cpu.bus.memory[0xFFFF] = 0x00;
    assert_eq!(cpu.step(), 4);
    assert_eq!(cpu.pc, 0x0000);
}

#[test]
fn fetch_reads_past_the_prefix() {
    let mut cpu = running();
    cpu.pc = 0x0100;
    cpu.bus.memory[0x0100] = 0x3E;
    cpu.bus.memory[0x0101] = 0x11;
    assert_eq!(cpu.fetch(), (0x3E, false));
    cpu.bus.memory[0x0100] = 0xCB;
    assert_eq!(cpu.fetch(), (0x11, true));
    cpu.pc = 0xFFFF;
    cpu.bus.memory[0xFFFF] = 0xCB;
    cpu.bus.memory[0x0000] = 0x22;
    assert_eq!(cpu.fetch(), (0x22, true));
}

#[test]
fn a_taken_relative_jump_costs_the_table_count_and_the_penalty() {
    let mut cpu = running();
    // 0x18 is the unconditional relative jump; its table count is 12.
    cpu.bus.memory[0x0000] = 0x18;
    cpu.bus.memory[0x0001] = 0x10;
    assert_eq!(cpu.step(), 16);
    assert_eq!(cpu.pc, 0x0010);
}

/// The length of each opcode in bytes; 0 where the opcode has no
/// instruction or always sends execution elsewhere.
const WIDTHS: [u16; 256] = [
    1, 3, 1, 1, 1, 1, 2, 0, 3, 1, 1, 1, 1, 1, 2, 0, // 0x00
    1, 3, 1, 1, 1, 1, 2, 0, 0, 1, 1, 1, 1, 1, 2, 0, // 0x10
    2, 3, 1, 1, 1, 1, 2, 1, 2, 1, 1, 1, 1, 1, 2, 1, // 0x20
    2, 3, 1, 1, 1, 1, 2, 1, 2, 1, 1, 1, 1, 1, 2, 1, // 0x30
    1, 1, 1, 1, 1, 1, 1, 1, 1, 1, 1, 1, 1, 1, 1, 1, // 0x40
    1, 1, 1, 1, 1, 1, 1, 1, 1, 1, 1, 1, 1, 1, 1, 1, // 0x50
    1, 1, 1, 1, 1, 1, 1, 1, 1, 1, 1, 1, 1, 1, 1, 1, // 0x60
    1, 1, 1, 1, 1, 1, 1, 1, 1, 1, 1, 1, 1, 1, 1, 1, // 0x70
    1, 1, 1, 1, 1, 1, 1, 1, 1, 1, 1, 1, 1, 1, 1, 1, // 0x80
    1, 1, 1, 1, 1, 1, 1, 1, 1, 1, 1, 1, 1, 1, 1, 1, // 0x90
    1, 1, 1, 1, 1, 1, 1, 1, 1, 1, 1, 1, 1, 1, 1, 1, // 0xA0
    1, 1, 1, 1, 1, 1, 1, 1, 1, 1, 1, 1, 1, 1, 1, 1, // 0xB0
    1, 1, 3, 0, 3, 1, 2, 0, 1, 0, 3, 0, 3, 0, 2, 0, // 0xC0
    1, 1, 3, 0, 3, 1, 2, 0, 1, 0, 0, 0, 3, 0, 2, 0, // 0xD0
    2, 1, 1, 0, 0, 1, 2, 0, 2, 3, 3, 0, 0, 0, 2, 0, // 0xE0
    2, 1, 1, 1, 0, 1, 2, 0, 2, 1, 3, 1, 0, 0, 2, 0, // 0xF0
];

#[test]
fn every_instruction_that_falls_through_goes_on_after_its_own_length() {
    let mut seen = 0;
    for byte in 0..=255u8 {
        let width = WIDTHS[byte as usize];
        let instruction = match Instruction::from_byte(byte, false) {
            Some(instruction) => instruction,
            None => {
                assert_eq!(width, 0, "{:#04x}", byte);
                continue;
            }
        };
        let mut cpu = running();
        cpu.pc = 0x0100;
        cpu.sp = 0xD000;
        // Make every condition fail, so that only the unconditional
        // transfers leave the straight line.
        let condition = match instruction {
            Instruction::JP(condition, _) => Some(condition),
            Instruction::CALL(condition) => Some(condition),
            Instruction::RET(condition) => Some(condition),
            Instruction::RST(_) => Some(ControlCondition::NONE),
            _ => None,
        };
        match condition {
            Some(ControlCondition::NZ) => cpu.reg.f.zero = true,
            Some(ControlCondition::NC) => cpu.reg.f.carry = true,
            Some(ControlCondition::Z) | Some(ControlCondition::C) => {}
            Some(ControlCondition::NONE) | Some(ControlCondition::NONEEI) => {
                assert_eq!(width, 0, "{:#04x}", byte);
                continue;
            }
            None => {}
        }
        let next = cpu.execute(instruction);
        assert_eq!(next, (0x0100 + width, 0), "{:#04x}", byte);
        assert_eq!(cpu.pc, 0x0100);
        seen += 1;
    }
    // 239 opcodes have an instruction; 13 of them always go elsewhere.
    assert_eq!(seen, 226);
}
