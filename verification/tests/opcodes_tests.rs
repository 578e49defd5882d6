use emu6502::addressing_modes::AddressingMode;
use emu6502::opcodes::{from_code, Opcode, OpcodeType};

#[test]
fn implemented_opcodes_decode_as_expected() {
    let expected: [(u8, OpcodeType, AddressingMode); 12] = [
        (0x00, OpcodeType::BRK, AddressingMode::IMPL),
        (0xEA, OpcodeType::NOP, AddressingMode::IMPL),
        (0xA9, OpcodeType::LDA, AddressingMode::IMM),
        (0xAD, OpcodeType::LDA, AddressingMode::ABS),
        (0xA5, OpcodeType::LDA, AddressingMode::ZPG),
        (0x8D, OpcodeType::STA, AddressingMode::ABS),
        (0x85, OpcodeType::STA, AddressingMode::ZPG),
        (0x81, OpcodeType::STA, AddressingMode::INDX),
        (0x69, OpcodeType::ADC, AddressingMode::IMM),
        (0x4C, OpcodeType::JMP, AddressingMode::ABS),
        (0xF0, OpcodeType::BEQ, AddressingMode::REL),
        (0xD0, OpcodeType::BNE, AddressingMode::REL),
    ];
    for (code, name, mode) in expected {
        assert_eq!(from_code(code), Some(Opcode { name, addr_mode: mode }));
    }
}

#[test]
fn unassigned_bytes_have_no_entry() {
    for code in [0x02u8, 0x03, 0x80, 0x9E, 0xFF] {
        assert_eq!(from_code(code), None);
    }
}

#[test]
fn the_table_holds_all_legal_codes() {
    let mut assigned = 0;
    for code in 0..=0xFFu8 {
        if from_code(code).is_some() {
            assigned += 1;
        }
    }
    assert_eq!(assigned, 151);
}
