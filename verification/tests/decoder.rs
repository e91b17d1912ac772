use rusty_gb::cpu::{
    get_cycle_count, ArithmeticTarget, ArithmeticTarget16, ControlCondition, Instruction, JumpAddr,
    LoadByteDestination, LoadByteSource, LoadType, LoadWordDestination, LoadWordSource, RstValue,
};

#[test]
fn decoding_is_a_function_of_the_opcode_and_the_prefix() {
    for byte in 0..=255u8 {
        for prefixed in [false, true] {
            let first = Instruction::from_byte(byte, prefixed);
            let second = Instruction::from_byte(byte, prefixed);
            assert_eq!(first, second);
        }
    }
}

#[test]
fn no_prefixed_opcode_has_an_instruction() {
    for byte in 0..=255u8 {
        assert_eq!(Instruction::from_byte(byte, true), None);
        assert_eq!(Instruction::from_byte_prefixed(byte), None);
    }
}

#[test]
fn from_byte_without_prefix_is_the_plain_table() {
    for byte in 0..=255u8 {
        assert_eq!(Instruction::from_byte(byte, false), Instruction::from_byte_not_prefixed(byte));
    }
}

#[test]
fn opcodes_without_an_instruction() {
    let holes: [u8; 17] = [
        0x07, 0x0F, 0x17, 0x1F, 0xCB, 0xD3, 0xDA, 0xDB, 0xDD, 0xE3, 0xE4, 0xEB, 0xEC, 0xED, 0xF4,
        0xFC, 0xFD,
    ];
    for byte in 0..=255u8 {
        let decoded = Instruction::from_byte(byte, false);
        assert_eq!(decoded.is_none(), holes.contains(&byte), "{:#04x}", byte);
    }
}

#[test]
fn the_load_block_pairs_every_register_with_every_register() {
    let destinations = [
        LoadByteDestination::B,
        LoadByteDestination::C,
        LoadByteDestination::D,
        LoadByteDestination::E,
        LoadByteDestination::H,
        LoadByteDestination::L,
        LoadByteDestination::HL,
        LoadByteDestination::A,
    ];
    let sources = [
        LoadByteSource::B,
        LoadByteSource::C,
        LoadByteSource::D,
        LoadByteSource::E,
        LoadByteSource::H,
        LoadByteSource::L,
        LoadByteSource::HL,
        LoadByteSource::A,
    ];
    for (row, destination) in destinations.iter().enumerate() {
        for (column, source) in sources.iter().enumerate() {
            let byte = 0x40 + 8 * row as u8 + column as u8;
            let expected = if byte == 0x76 {
                Instruction::HALT
            } else {
                Instruction::LD(LoadType::Byte(*destination, *source))
            };
            assert_eq!(Instruction::from_byte(byte, false), Some(expected));
        }
    }
}

#[test]
fn the_arithmetic_block_pairs_every_operation_with_every_register() {
    let targets = [
        ArithmeticTarget::B,
        ArithmeticTarget::C,
        ArithmeticTarget::D,
        ArithmeticTarget::E,
        ArithmeticTarget::H,
        ArithmeticTarget::L,
        ArithmeticTarget::HL,
        ArithmeticTarget::A,
    ];
    for (column, target) in targets.iter().enumerate() {
        let column = column as u8;
        let t = *target;
        assert_eq!(Instruction::from_byte(0x80 + column, false), Some(Instruction::ADD(t)));
        assert_eq!(Instruction::from_byte(0x88 + column, false), Some(Instruction::ADC(t)));
        assert_eq!(Instruction::from_byte(0x90 + column, false), Some(Instruction::SUB(t)));
        assert_eq!(Instruction::from_byte(0x98 + column, false), Some(Instruction::SBC(t)));
        assert_eq!(Instruction::from_byte(0xA0 + column, false), Some(Instruction::AND(t)));
        assert_eq!(Instruction::from_byte(0xA8 + column, false), Some(Instruction::XOR(t)));
        assert_eq!(Instruction::from_byte(0xB0 + column, false), Some(Instruction::OR(t)));
        assert_eq!(Instruction::from_byte(0xB8 + column, false), Some(Instruction::CP(t)));
    }
    let imm = ArithmeticTarget::IMM8;
    assert_eq!(Instruction::from_byte(0xC6, false), Some(Instruction::ADD(imm)));
    assert_eq!(Instruction::from_byte(0xCE, false), Some(Instruction::ADC(imm)));
    assert_eq!(Instruction::from_byte(0xD6, false), Some(Instruction::SUB(imm)));
    assert_eq!(Instruction::from_byte(0xDE, false), Some(Instruction::SBC(imm)));
    assert_eq!(Instruction::from_byte(0xE6, false), Some(Instruction::AND(imm)));
    assert_eq!(Instruction::from_byte(0xEE, false), Some(Instruction::XOR(imm)));
    assert_eq!(Instruction::from_byte(0xF6, false), Some(Instruction::OR(imm)));
    assert_eq!(Instruction::from_byte(0xFE, false), Some(Instruction::CP(imm)));
}

#[test]
fn single_opcodes_decode_to_their_instructions() {
    let decode = |byte: u8| Instruction::from_byte(byte, false);
    assert_eq!(decode(0x00), Some(Instruction::NOP));
    assert_eq!(decode(0x10), Some(Instruction::STOP));
    assert_eq!(decode(0x76), Some(Instruction::HALT));
    assert_eq!(decode(0xF3), Some(Instruction::DI));
    assert_eq!(decode(0xFB), Some(Instruction::EI));
    assert_eq!(decode(0x27), Some(Instruction::DAA));
    assert_eq!(decode(0x37), Some(Instruction::SCF));
    assert_eq!(decode(0x2F), Some(Instruction::CPL));
    assert_eq!(decode(0x3F), Some(Instruction::CCF));
    assert_eq!(
        decode(0x3E),
        Some(Instruction::LD(LoadType::Byte(LoadByteDestination::A, LoadByteSource::IMM8)))
    );
    assert_eq!(
        decode(0x36),
        Some(Instruction::LD(LoadType::Byte(LoadByteDestination::HL, LoadByteSource::IMM8)))
    );
    assert_eq!(
        decode(0x22),
        Some(Instruction::LD(LoadType::Byte(LoadByteDestination::HLI, LoadByteSource::A)))
    );
    assert_eq!(
        decode(0x3A),
        Some(Instruction::LD(LoadType::Byte(LoadByteDestination::A, LoadByteSource::HLD)))
    );
    assert_eq!(
        decode(0xE0),
        Some(Instruction::LD(LoadType::Byte(LoadByteDestination::A8, LoadByteSource::A)))
    );
    assert_eq!(
        decode(0xF2),
        Some(Instruction::LD(LoadType::Byte(LoadByteDestination::A, LoadByteSource::CA8)))
    );
    assert_eq!(
        decode(0xEA),
        Some(Instruction::LD(LoadType::Byte(LoadByteDestination::A16, LoadByteSource::A)))
    );
    assert_eq!(
        decode(0x31),
        Some(Instruction::LD(LoadType::Word(LoadWordDestination::SP, LoadWordSource::IMM16)))
    );
    assert_eq!(
        decode(0xF1),
        Some(Instruction::LD(LoadType::Word(LoadWordDestination::AF, LoadWordSource::POP)))
    );
    assert_eq!(
        decode(0xC5),
        Some(Instruction::LD(LoadType::Word(LoadWordDestination::PUSH, LoadWordSource::BC)))
    );
    assert_eq!(
        decode(0x08),
        Some(Instruction::LD(LoadType::Word(LoadWordDestination::A16, LoadWordSource::SP)))
    );
    assert_eq!(
        decode(0xF8),
        Some(Instruction::LD(LoadType::Word(LoadWordDestination::HL, LoadWordSource::SPIMM)))
    );
    assert_eq!(
        decode(0xF9),
        Some(Instruction::LD(LoadType::Word(LoadWordDestination::SP, LoadWordSource::HL)))
    );
    assert_eq!(decode(0x34), Some(Instruction::INC(ArithmeticTarget::HL)));
    assert_eq!(decode(0x3D), Some(Instruction::DEC(ArithmeticTarget::A)));
    assert_eq!(decode(0x13), Some(Instruction::INC16(ArithmeticTarget16::DE)));
    assert_eq!(decode(0x39), Some(Instruction::ADD16(ArithmeticTarget16::SP)));
    assert_eq!(decode(0x0B), Some(Instruction::ADD16(ArithmeticTarget16::BC)));
    assert_eq!(decode(0x3B), Some(Instruction::ADD16(ArithmeticTarget16::SP)));
    assert_eq!(decode(0xE8), Some(Instruction::ADD16(ArithmeticTarget16::SPIMM)));
    assert_eq!(decode(0x18), Some(Instruction::JP(ControlCondition::NONE, JumpAddr::REL)));
    assert_eq!(decode(0x20), Some(Instruction::JP(ControlCondition::NZ, JumpAddr::REL)));
    assert_eq!(decode(0x28), Some(Instruction::JP(ControlCondition::Z, JumpAddr::REL)));
    assert_eq!(decode(0x30), Some(Instruction::JP(ControlCondition::NC, JumpAddr::REL)));
    assert_eq!(decode(0x38), Some(Instruction::JP(ControlCondition::C, JumpAddr::REL)));
    assert_eq!(decode(0xC2), Some(Instruction::JP(ControlCondition::NZ, JumpAddr::IMM16)));
    assert_eq!(decode(0xD2), Some(Instruction::JP(ControlCondition::NC, JumpAddr::IMM16)));
    assert_eq!(decode(0xC3), Some(Instruction::JP(ControlCondition::NONE, JumpAddr::IMM16)));
    assert_eq!(decode(0xE9), Some(Instruction::JP(ControlCondition::Z, JumpAddr::IMM16)));
    assert_eq!(decode(0xCA), Some(Instruction::JP(ControlCondition::C, JumpAddr::IMM16)));
    assert_eq!(decode(0xC4), Some(Instruction::CALL(ControlCondition::NZ)));
    assert_eq!(decode(0xCC), Some(Instruction::CALL(ControlCondition::Z)));
    assert_eq!(decode(0xD4), Some(Instruction::CALL(ControlCondition::NC)));
    assert_eq!(decode(0xDC), Some(Instruction::CALL(ControlCondition::C)));
    assert_eq!(decode(0xCD), Some(Instruction::CALL(ControlCondition::NONE)));
    assert_eq!(decode(0xC0), Some(Instruction::RET(ControlCondition::NZ)));
    assert_eq!(decode(0xC8), Some(Instruction::RET(ControlCondition::Z)));
    assert_eq!(decode(0xD0), Some(Instruction::RET(ControlCondition::NC)));
    assert_eq!(decode(0xD8), Some(Instruction::RET(ControlCondition::C)));
    assert_eq!(decode(0xC9), Some(Instruction::RET(ControlCondition::NONE)));
    assert_eq!(decode(0xD9), Some(Instruction::RET(ControlCondition::NONEEI)));
    assert_eq!(decode(0xC7), Some(Instruction::RST(RstValue::H00)));
    assert_eq!(decode(0xCF), Some(Instruction::RST(RstValue::H08)));
    assert_eq!(decode(0xD7), Some(Instruction::RST(RstValue::H10)));
    assert_eq!(decode(0xDF), Some(Instruction::RST(RstValue::H18)));
    assert_eq!(decode(0xE7), Some(Instruction::RST(RstValue::H20)));
    assert_eq!(decode(0xEF), Some(Instruction::RST(RstValue::H28)));
    assert_eq!(decode(0xF7), Some(Instruction::RST(RstValue::H30)));
    assert_eq!(decode(0xFF), Some(Instruction::RST(RstValue::H38)));
}

#[test]
fn the_decoder_never_yields_what_the_engine_cannot_execute() {
    for byte in 0..=255u8 {
        match Instruction::from_byte(byte, false) {
            Some(Instruction::INC(target)) | Some(Instruction::DEC(target)) => {
                assert_ne!(target, ArithmeticTarget::IMM8)
            }
            Some(Instruction::INC16(target)) | Some(Instruction::DEC16(target)) => {
                assert_ne!(target, ArithmeticTarget16::SPIMM)
            }
            Some(Instruction::CALL(condition)) | Some(Instruction::JP(condition, _)) => {
                assert_ne!(condition, ControlCondition::NONEEI)
            }
            _ => {}
        }
    }
}

#[test]
fn cycle_counts_of_the_first_two_rows() {
    let first: [u8; 16] = [4, 12, 8, 8, 4, 4, 8, 4, 20, 8, 8, 8, 4, 4, 8, 4];
    let second: [u8; 16] = [4, 12, 8, 8, 4, 4, 8, 4, 12, 8, 8, 8, 4, 4, 8, 4];
    for column in 0..16u8 {
        assert_eq!(get_cycle_count(column, false), first[column as usize]);
        assert_eq!(get_cycle_count(0x10 + column, false), second[column as usize]);
    }
}

#[test]
fn cycle_counts_outside_the_table_are_zero() {
    for byte in 0x20..=0xFFu8 {
        assert_eq!(get_cycle_count(byte, false), 0);
    }
    for byte in 0..=255u8 {
        assert_eq!(get_cycle_count(byte, true), 0);
    }
}
