//! The opcode table of the 6502: the static mapping from an instruction byte
//! to its mnemonic and addressing mode. A byte with no entry is a legitimate
//! outcome (an unassigned hardware code), reported as an unknown opcode at
//! decode time, never a construction error.

use vstd::prelude::*;

use crate::addressing_modes::AddressingMode;

verus! {

/// The mnemonics of the legal 6502 instruction set. The execution engine
/// implements a subset; the rest decode but fail dispatch.
#[derive(Copy, Clone, PartialEq, Eq, Structural, Debug)]
pub enum OpcodeType {
    ADC,
    AND,
    ASL,
    BCC,
    BCS,
    BEQ,
    BIT,
    BMI,
    BNE,
    BPL,
    BRK,
    BVC,
    BVS,
    CLC,
    CLD,
    CLI,
    CLV,
    CMP,
    CPX,
    CPY,
    DEC,
    DEX,
    DEY,
    EOR,
    INC,
    INX,
    INY,
    JMP,
    JSR,
    LDA,
    LDX,
    LDY,
    LSR,
    NOP,
    ORA,
    PHA,
    PHP,
    PLA,
    PLP,
    ROL,
    ROR,
    RTI,
    RTS,
    SBC,
    SEC,
    SED,
    SEI,
    STA,
    STX,
    STY,
    TAX,
    TAY,
    TSX,
    TXA,
    TXS,
    TYA,
}

/// One entry of the opcode table: a mnemonic paired with the addressing mode
/// that this particular instruction byte selects.
#[derive(Copy, Clone, PartialEq, Eq, Structural, Debug)]
pub struct Opcode {
    pub name: OpcodeType,
    pub addr_mode: AddressingMode,
}

/// The full opcode table as a mathematical function: every legal 6502
/// instruction byte maps to its descriptor, every unassigned byte to `None`.
pub open spec fn spec_opcode(code: u8) -> Option<Opcode> {
    match code {
        0x00 => Some(Opcode { name: OpcodeType::BRK, addr_mode: AddressingMode::IMPL }),
        0x01 => Some(Opcode { name: OpcodeType::ORA, addr_mode: AddressingMode::INDX }),
        0x05 => Some(Opcode { name: OpcodeType::ORA, addr_mode: AddressingMode::ZPG }),
        0x06 => Some(Opcode { name: OpcodeType::ASL, addr_mode: AddressingMode::ZPG }),
        0x08 => Some(Opcode { name: OpcodeType::PHP, addr_mode: AddressingMode::IMPL }),
        0x09 => Some(Opcode { name: OpcodeType::ORA, addr_mode: AddressingMode::IMM }),
        0x0A => Some(Opcode { name: OpcodeType::ASL, addr_mode: AddressingMode::A }),
        0x0D => Some(Opcode { name: OpcodeType::ORA, addr_mode: AddressingMode::ABS }),
        0x0E => Some(Opcode { name: OpcodeType::ASL, addr_mode: AddressingMode::ABS }),
        0x10 => Some(Opcode { name: OpcodeType::BPL, addr_mode: AddressingMode::REL }),
        0x11 => Some(Opcode { name: OpcodeType::ORA, addr_mode: AddressingMode::INDY }),
        0x15 => Some(Opcode { name: OpcodeType::ORA, addr_mode: AddressingMode::ZPGX }),
        0x16 => Some(Opcode { name: OpcodeType::ASL, addr_mode: AddressingMode::ZPGX }),
        0x18 => Some(Opcode { name: OpcodeType::CLC, addr_mode: AddressingMode::IMPL }),
        0x19 => Some(Opcode { name: OpcodeType::ORA, addr_mode: AddressingMode::ABSY }),
        0x1D => Some(Opcode { name: OpcodeType::ORA, addr_mode: AddressingMode::ABSX }),
        0x1E => Some(Opcode { name: OpcodeType::ASL, addr_mode: AddressingMode::ABSX }),
        0x20 => Some(Opcode { name: OpcodeType::JSR, addr_mode: AddressingMode::ABS }),
        0x21 => Some(Opcode { name: OpcodeType::AND, addr_mode: AddressingMode::INDX }),
        0x24 => Some(Opcode { name: OpcodeType::BIT, addr_mode: AddressingMode::ZPG }),
        0x25 => Some(Opcode { name: OpcodeType::AND, addr_mode: AddressingMode::ZPG }),
        0x26 => Some(Opcode { name: OpcodeType::ROL, addr_mode: AddressingMode::ZPG }),
        0x28 => Some(Opcode { name: OpcodeType::PLP, addr_mode: AddressingMode::IMPL }),
        0x29 => Some(Opcode { name: OpcodeType::AND, addr_mode: AddressingMode::IMM }),
        0x2A => Some(Opcode { name: OpcodeType::ROL, addr_mode: AddressingMode::A }),
        0x2C => Some(Opcode { name: OpcodeType::BIT, addr_mode: AddressingMode::ABS }),
        0x2D => Some(Opcode { name: OpcodeType::AND, addr_mode: AddressingMode::ABS }),
        0x2E => Some(Opcode { name: OpcodeType::ROL, addr_mode: AddressingMode::ABS }),
        0x30 => Some(Opcode { name: OpcodeType::BMI, addr_mode: AddressingMode::REL }),
        0x31 => Some(Opcode { name: OpcodeType::AND, addr_mode: AddressingMode::INDY }),
        0x35 => Some(Opcode { name: OpcodeType::AND, addr_mode: AddressingMode::ZPGX }),
        0x36 => Some(Opcode { name: OpcodeType::ROL, addr_mode: AddressingMode::ZPGX }),
        0x38 => Some(Opcode { name: OpcodeType::SEC, addr_mode: AddressingMode::IMPL }),
        0x39 => Some(Opcode { name: OpcodeType::AND, addr_mode: AddressingMode::ABSY }),
        0x3D => Some(Opcode { name: OpcodeType::AND, addr_mode: AddressingMode::ABSX }),
        0x3E => Some(Opcode { name: OpcodeType::ROL, addr_mode: AddressingMode::ABSX }),
        0x40 => Some(Opcode { name: OpcodeType::RTI, addr_mode: AddressingMode::IMPL }),
        0x41 => Some(Opcode { name: OpcodeType::EOR, addr_mode: AddressingMode::INDX }),
        0x45 => Some(Opcode { name: OpcodeType::EOR, addr_mode: AddressingMode::ZPG }),
        0x46 => Some(Opcode { name: OpcodeType::LSR, addr_mode: AddressingMode::ZPG }),
        0x48 => Some(Opcode { name: OpcodeType::PHA, addr_mode: AddressingMode::IMPL }),
        0x49 => Some(Opcode { name: OpcodeType::EOR, addr_mode: AddressingMode::IMM }),
        0x4A => Some(Opcode { name: OpcodeType::LSR, addr_mode: AddressingMode::A }),
        0x4C => Some(Opcode { name: OpcodeType::JMP, addr_mode: AddressingMode::ABS }),
        0x4D => Some(Opcode { name: OpcodeType::EOR, addr_mode: AddressingMode::ABS }),
        0x4E => Some(Opcode { name: OpcodeType::LSR, addr_mode: AddressingMode::ABS }),
        0x50 => Some(Opcode { name: OpcodeType::BVC, addr_mode: AddressingMode::REL }),
        0x51 => Some(Opcode { name: OpcodeType::EOR, addr_mode: AddressingMode::INDY }),
        0x55 => Some(Opcode { name: OpcodeType::EOR, addr_mode: AddressingMode::ZPGX }),
        0x56 => Some(Opcode { name: OpcodeType::LSR, addr_mode: AddressingMode::ZPGX }),
        0x58 => Some(Opcode { name: OpcodeType::CLI, addr_mode: AddressingMode::IMPL }),
        0x59 => Some(Opcode { name: OpcodeType::EOR, addr_mode: AddressingMode::ABSY }),
        0x5D => Some(Opcode { name: OpcodeType::EOR, addr_mode: AddressingMode::ABSX }),
        0x5E => Some(Opcode { name: OpcodeType::LSR, addr_mode: AddressingMode::ABSX }),
        0x60 => Some(Opcode { name: OpcodeType::RTS, addr_mode: AddressingMode::IMPL }),
        0x61 => Some(Opcode { name: OpcodeType::ADC, addr_mode: AddressingMode::INDX }),
        0x65 => Some(Opcode { name: OpcodeType::ADC, addr_mode: AddressingMode::ZPG }),
        0x66 => Some(Opcode { name: OpcodeType::ROR, addr_mode: AddressingMode::ZPG }),
        0x68 => Some(Opcode { name: OpcodeType::PLA, addr_mode: AddressingMode::IMPL }),
        0x69 => Some(Opcode { name: OpcodeType::ADC, addr_mode: AddressingMode::IMM }),
        0x6A => Some(Opcode { name: OpcodeType::ROR, addr_mode: AddressingMode::A }),
        0x6C => Some(Opcode { name: OpcodeType::JMP, addr_mode: AddressingMode::IND }),
        0x6D => Some(Opcode { name: OpcodeType::ADC, addr_mode: AddressingMode::ABS }),
        0x6E => Some(Opcode { name: OpcodeType::ROR, addr_mode: AddressingMode::ABS }),
        0x70 => Some(Opcode { name: OpcodeType::BVS, addr_mode: AddressingMode::REL }),
        0x71 => Some(Opcode { name: OpcodeType::ADC, addr_mode: AddressingMode::INDY }),
        0x75 => Some(Opcode { name: OpcodeType::ADC, addr_mode: AddressingMode::ZPGX }),
        0x76 => Some(Opcode { name: OpcodeType::ROR, addr_mode: AddressingMode::ZPGX }),
        0x78 => Some(Opcode { name: OpcodeType::SEI, addr_mode: AddressingMode::IMPL }),
        0x79 => Some(Opcode { name: OpcodeType::ADC, addr_mode: AddressingMode::ABSY }),
        0x7D => Some(Opcode { name: OpcodeType::ADC, addr_mode: AddressingMode::ABSX }),
        0x7E => Some(Opcode { name: OpcodeType::ROR, addr_mode: AddressingMode::ABSX }),
        0x81 => Some(Opcode { name: OpcodeType::STA, addr_mode: AddressingMode::INDX }),
        0x84 => Some(Opcode { name: OpcodeType::STY, addr_mode: AddressingMode::ZPG }),
        0x85 => Some(Opcode { name: OpcodeType::STA, addr_mode: AddressingMode::ZPG }),
        0x86 => Some(Opcode { name: OpcodeType::STX, addr_mode: AddressingMode::ZPG }),
        0x88 => Some(Opcode { name: OpcodeType::DEY, addr_mode: AddressingMode::IMPL }),
        0x8A => Some(Opcode { name: OpcodeType::TXA, addr_mode: AddressingMode::IMPL }),
        0x8C => Some(Opcode { name: OpcodeType::STY, addr_mode: AddressingMode::ABS }),
        0x8D => Some(Opcode { name: OpcodeType::STA, addr_mode: AddressingMode::ABS }),
        0x8E => Some(Opcode { name: OpcodeType::STX, addr_mode: AddressingMode::ABS }),
        0x90 => Some(Opcode { name: OpcodeType::BCC, addr_mode: AddressingMode::REL }),
        0x91 => Some(Opcode { name: OpcodeType::STA, addr_mode: AddressingMode::INDY }),
        0x94 => Some(Opcode { name: OpcodeType::STY, addr_mode: AddressingMode::ZPGX }),
        0x95 => Some(Opcode { name: OpcodeType::STA, addr_mode: AddressingMode::ZPGX }),
        0x96 => Some(Opcode { name: OpcodeType::STX, addr_mode: AddressingMode::ZPGY }),
        0x98 => Some(Opcode { name: OpcodeType::TYA, addr_mode: AddressingMode::IMPL }),
        0x99 => Some(Opcode { name: OpcodeType::STA, addr_mode: AddressingMode::ABSY }),
        0x9A => Some(Opcode { name: OpcodeType::TXS, addr_mode: AddressingMode::IMPL }),
        0x9D => Some(Opcode { name: OpcodeType::STA, addr_mode: AddressingMode::ABSX }),
        0xA0 => Some(Opcode { name: OpcodeType::LDY, addr_mode: AddressingMode::IMM }),
        0xA1 => Some(Opcode { name: OpcodeType::LDA, addr_mode: AddressingMode::INDX }),
        0xA2 => Some(Opcode { name: OpcodeType::LDX, addr_mode: AddressingMode::IMM }),
        0xA4 => Some(Opcode { name: OpcodeType::LDY, addr_mode: AddressingMode::ZPG }),
        0xA5 => Some(Opcode { name: OpcodeType::LDA, addr_mode: AddressingMode::ZPG }),
        0xA6 => Some(Opcode { name: OpcodeType::LDX, addr_mode: AddressingMode::ZPG }),
        0xA8 => Some(Opcode { name: OpcodeType::TAY, addr_mode: AddressingMode::IMPL }),
        0xA9 => Some(Opcode { name: OpcodeType::LDA, addr_mode: AddressingMode::IMM }),
        0xAA => Some(Opcode { name: OpcodeType::TAX, addr_mode: AddressingMode::IMPL }),
        0xAC => Some(Opcode { name: OpcodeType::LDY, addr_mode: AddressingMode::ABS }),
        0xAD => Some(Opcode { name: OpcodeType::LDA, addr_mode: AddressingMode::ABS }),
        0xAE => Some(Opcode { name: OpcodeType::LDX, addr_mode: AddressingMode::ABS }),
        0xB0 => Some(Opcode { name: OpcodeType::BCS, addr_mode: AddressingMode::REL }),
        0xB1 => Some(Opcode { name: OpcodeType::LDA, addr_mode: AddressingMode::INDY }),
        0xB4 => Some(Opcode { name: OpcodeType::LDY, addr_mode: AddressingMode::ZPGX }),
        0xB5 => Some(Opcode { name: OpcodeType::LDA, addr_mode: AddressingMode::ZPGX }),
        0xB6 => Some(Opcode { name: OpcodeType::LDX, addr_mode: AddressingMode::ZPGY }),
        0xB8 => Some(Opcode { name: OpcodeType::CLV, addr_mode: AddressingMode::IMPL }),
        0xB9 => Some(Opcode { name: OpcodeType::LDA, addr_mode: AddressingMode::ABSY }),
        0xBA => Some(Opcode { name: OpcodeType::TSX, addr_mode: AddressingMode::IMPL }),
        0xBC => Some(Opcode { name: OpcodeType::LDY, addr_mode: AddressingMode::ABSX }),
        0xBD => Some(Opcode { name: OpcodeType::LDA, addr_mode: AddressingMode::ABSX }),
        0xBE => Some(Opcode { name: OpcodeType::LDX, addr_mode: AddressingMode::ABSY }),
        0xC0 => Some(Opcode { name: OpcodeType::CPY, addr_mode: AddressingMode::IMM }),
        0xC1 => Some(Opcode { name: OpcodeType::CMP, addr_mode: AddressingMode::INDX }),
        0xC4 => Some(Opcode { name: OpcodeType::CPY, addr_mode: AddressingMode::ZPG }),
        0xC5 => Some(Opcode { name: OpcodeType::CMP, addr_mode: AddressingMode::ZPG }),
        0xC6 => Some(Opcode { name: OpcodeType::DEC, addr_mode: AddressingMode::ZPG }),
        0xC8 => Some(Opcode { name: OpcodeType::INY, addr_mode: AddressingMode::IMPL }),
        0xC9 => Some(Opcode { name: OpcodeType::CMP, addr_mode: AddressingMode::IMM }),
        0xCA => Some(Opcode { name: OpcodeType::DEX, addr_mode: AddressingMode::IMPL }),
        0xCC => Some(Opcode { name: OpcodeType::CPY, addr_mode: AddressingMode::ABS }),
        0xCD => Some(Opcode { name: OpcodeType::CMP, addr_mode: AddressingMode::ABS }),
        0xCE => Some(Opcode { name: OpcodeType::DEC, addr_mode: AddressingMode::ABS }),
        0xD0 => Some(Opcode { name: OpcodeType::BNE, addr_mode: AddressingMode::REL }),
        0xD1 => Some(Opcode { name: OpcodeType::CMP, addr_mode: AddressingMode::INDY }),
        0xD5 => Some(Opcode { name: OpcodeType::CMP, addr_mode: AddressingMode::ZPGX }),
        0xD6 => Some(Opcode { name: OpcodeType::DEC, addr_mode: AddressingMode::ZPGX }),
        0xD8 => Some(Opcode { name: OpcodeType::CLD, addr_mode: AddressingMode::IMPL }),
        0xD9 => Some(Opcode { name: OpcodeType::CMP, addr_mode: AddressingMode::ABSY }),
        0xDD => Some(Opcode { name: OpcodeType::CMP, addr_mode: AddressingMode::ABSX }),
        0xDE => Some(Opcode { name: OpcodeType::DEC, addr_mode: AddressingMode::ABSX }),
        0xE0 => Some(Opcode { name: OpcodeType::CPX, addr_mode: AddressingMode::IMM }),
        0xE1 => Some(Opcode { name: OpcodeType::SBC, addr_mode: AddressingMode::INDX }),
        0xE4 => Some(Opcode { name: OpcodeType::CPX, addr_mode: AddressingMode::ZPG }),
        0xE5 => Some(Opcode { name: OpcodeType::SBC, addr_mode: AddressingMode::ZPG }),
        0xE6 => Some(Opcode { name: OpcodeType::INC, addr_mode: AddressingMode::ZPG }),
        0xE8 => Some(Opcode { name: OpcodeType::INX, addr_mode: AddressingMode::IMPL }),
        0xE9 => Some(Opcode { name: OpcodeType::SBC, addr_mode: AddressingMode::IMM }),
        0xEA => Some(Opcode { name: OpcodeType::NOP, addr_mode: AddressingMode::IMPL }),
        0xEC => Some(Opcode { name: OpcodeType::CPX, addr_mode: AddressingMode::ABS }),
        0xED => Some(Opcode { name: OpcodeType::SBC, addr_mode: AddressingMode::ABS }),
        0xEE => Some(Opcode { name: OpcodeType::INC, addr_mode: AddressingMode::ABS }),
        0xF0 => Some(Opcode { name: OpcodeType::BEQ, addr_mode: AddressingMode::REL }),
        0xF1 => Some(Opcode { name: OpcodeType::SBC, addr_mode: AddressingMode::INDY }),
        0xF5 => Some(Opcode { name: OpcodeType::SBC, addr_mode: AddressingMode::ZPGX }),
        0xF6 => Some(Opcode { name: OpcodeType::INC, addr_mode: AddressingMode::ZPGX }),
        0xF8 => Some(Opcode { name: OpcodeType::SED, addr_mode: AddressingMode::IMPL }),
        0xF9 => Some(Opcode { name: OpcodeType::SBC, addr_mode: AddressingMode::ABSY }),
        0xFD => Some(Opcode { name: OpcodeType::SBC, addr_mode: AddressingMode::ABSX }),
        0xFE => Some(Opcode { name: OpcodeType::INC, addr_mode: AddressingMode::ABSX }),
        _ => None,
    }
}

/// Look an instruction byte up in the opcode table.
pub fn from_code(code: u8) -> (r: Option<Opcode>)
    ensures
        r == spec_opcode(code),
{
    match code {
        0x00 => Some(Opcode { name: OpcodeType::BRK, addr_mode: AddressingMode::IMPL }),
        0x01 => Some(Opcode { name: OpcodeType::ORA, addr_mode: AddressingMode::INDX }),
        0x05 => Some(Opcode { name: OpcodeType::ORA, addr_mode: AddressingMode::ZPG }),
        0x06 => Some(Opcode { name: OpcodeType::ASL, addr_mode: AddressingMode::ZPG }),
        0x08 => Some(Opcode { name: OpcodeType::PHP, addr_mode: AddressingMode::IMPL }),
        0x09 => Some(Opcode { name: OpcodeType::ORA, addr_mode: AddressingMode::IMM }),
        0x0A => Some(Opcode { name: OpcodeType::ASL, addr_mode: AddressingMode::A }),
        0x0D => Some(Opcode { name: OpcodeType::ORA, addr_mode: AddressingMode::ABS }),
        0x0E => Some(Opcode { name: OpcodeType::ASL, addr_mode: AddressingMode::ABS }),
        0x10 => Some(Opcode { name: OpcodeType::BPL, addr_mode: AddressingMode::REL }),
        0x11 => Some(Opcode { name: OpcodeType::ORA, addr_mode: AddressingMode::INDY }),
        0x15 => Some(Opcode { name: OpcodeType::ORA, addr_mode: AddressingMode::ZPGX }),
        0x16 => Some(Opcode { name: OpcodeType::ASL, addr_mode: AddressingMode::ZPGX }),
        0x18 => Some(Opcode { name: OpcodeType::CLC, addr_mode: AddressingMode::IMPL }),
        0x19 => Some(Opcode { name: OpcodeType::ORA, addr_mode: AddressingMode::ABSY }),
        0x1D => Some(Opcode { name: OpcodeType::ORA, addr_mode: AddressingMode::ABSX }),
        0x1E => Some(Opcode { name: OpcodeType::ASL, addr_mode: AddressingMode::ABSX }),
        0x20 => Some(Opcode { name: OpcodeType::JSR, addr_mode: AddressingMode::ABS }),
        0x21 => Some(Opcode { name: OpcodeType::AND, addr_mode: AddressingMode::INDX }),
        0x24 => Some(Opcode { name: OpcodeType::BIT, addr_mode: AddressingMode::ZPG }),
        0x25 => Some(Opcode { name: OpcodeType::AND, addr_mode: AddressingMode::ZPG }),
        0x26 => Some(Opcode { name: OpcodeType::ROL, addr_mode: AddressingMode::ZPG }),
        0x28 => Some(Opcode { name: OpcodeType::PLP, addr_mode: AddressingMode::IMPL }),
        0x29 => Some(Opcode { name: OpcodeType::AND, addr_mode: AddressingMode::IMM }),
        0x2A => Some(Opcode { name: OpcodeType::ROL, addr_mode: AddressingMode::A }),
        0x2C => Some(Opcode { name: OpcodeType::BIT, addr_mode: AddressingMode::ABS }),
        0x2D => Some(Opcode { name: OpcodeType::AND, addr_mode: AddressingMode::ABS }),
        0x2E => Some(Opcode { name: OpcodeType::ROL, addr_mode: AddressingMode::ABS }),
        0x30 => Some(Opcode { name: OpcodeType::BMI, addr_mode: AddressingMode::REL }),
        0x31 => Some(Opcode { name: OpcodeType::AND, addr_mode: AddressingMode::INDY }),
        0x35 => Some(Opcode { name: OpcodeType::AND, addr_mode: AddressingMode::ZPGX }),
        0x36 => Some(Opcode { name: OpcodeType::ROL, addr_mode: AddressingMode::ZPGX }),
        0x38 => Some(Opcode { name: OpcodeType::SEC, addr_mode: AddressingMode::IMPL }),
        0x39 => Some(Opcode { name: OpcodeType::AND, addr_mode: AddressingMode::ABSY }),
        0x3D => Some(Opcode { name: OpcodeType::AND, addr_mode: AddressingMode::ABSX }),
        0x3E => Some(Opcode { name: OpcodeType::ROL, addr_mode: AddressingMode::ABSX }),
        0x40 => Some(Opcode { name: OpcodeType::RTI, addr_mode: AddressingMode::IMPL }),
        0x41 => Some(Opcode { name: OpcodeType::EOR, addr_mode: AddressingMode::INDX }),
        0x45 => Some(Opcode { name: OpcodeType::EOR, addr_mode: AddressingMode::ZPG }),
        0x46 => Some(Opcode { name: OpcodeType::LSR, addr_mode: AddressingMode::ZPG }),
        0x48 => Some(Opcode { name: OpcodeType::PHA, addr_mode: AddressingMode::IMPL }),
        0x49 => Some(Opcode { name: OpcodeType::EOR, addr_mode: AddressingMode::IMM }),
        0x4A => Some(Opcode { name: OpcodeType::LSR, addr_mode: AddressingMode::A }),
        0x4C => Some(Opcode { name: OpcodeType::JMP, addr_mode: AddressingMode::ABS }),
        0x4D => Some(Opcode { name: OpcodeType::EOR, addr_mode: AddressingMode::ABS }),
        0x4E => Some(Opcode { name: OpcodeType::LSR, addr_mode: AddressingMode::ABS }),
        0x50 => Some(Opcode { name: OpcodeType::BVC, addr_mode: AddressingMode::REL }),
        0x51 => Some(Opcode { name: OpcodeType::EOR, addr_mode: AddressingMode::INDY }),
        0x55 => Some(Opcode { name: OpcodeType::EOR, addr_mode: AddressingMode::ZPGX }),
        0x56 => Some(Opcode { name: OpcodeType::LSR, addr_mode: AddressingMode::ZPGX }),
        0x58 => Some(Opcode { name: OpcodeType::CLI, addr_mode: AddressingMode::IMPL }),
        0x59 => Some(Opcode { name: OpcodeType::EOR, addr_mode: AddressingMode::ABSY }),
        0x5D => Some(Opcode { name: OpcodeType::EOR, addr_mode: AddressingMode::ABSX }),
        0x5E => Some(Opcode { name: OpcodeType::LSR, addr_mode: AddressingMode::ABSX }),
        0x60 => Some(Opcode { name: OpcodeType::RTS, addr_mode: AddressingMode::IMPL }),
        0x61 => Some(Opcode { name: OpcodeType::ADC, addr_mode: AddressingMode::INDX }),
        0x65 => Some(Opcode { name: OpcodeType::ADC, addr_mode: AddressingMode::ZPG }),
        0x66 => Some(Opcode { name: OpcodeType::ROR, addr_mode: AddressingMode::ZPG }),
        0x68 => Some(Opcode { name: OpcodeType::PLA, addr_mode: AddressingMode::IMPL }),
        0x69 => Some(Opcode { name: OpcodeType::ADC, addr_mode: AddressingMode::IMM }),
        0x6A => Some(Opcode { name: OpcodeType::ROR, addr_mode: AddressingMode::A }),
        0x6C => Some(Opcode { name: OpcodeType::JMP, addr_mode: AddressingMode::IND }),
        0x6D => Some(Opcode { name: OpcodeType::ADC, addr_mode: AddressingMode::ABS }),
        0x6E => Some(Opcode { name: OpcodeType::ROR, addr_mode: AddressingMode::ABS }),
        0x70 => Some(Opcode { name: OpcodeType::BVS, addr_mode: AddressingMode::REL }),
        0x71 => Some(Opcode { name: OpcodeType::ADC, addr_mode: AddressingMode::INDY }),
        0x75 => Some(Opcode { name: OpcodeType::ADC, addr_mode: AddressingMode::ZPGX }),
        0x76 => Some(Opcode { name: OpcodeType::ROR, addr_mode: AddressingMode::ZPGX }),
        0x78 => Some(Opcode { name: OpcodeType::SEI, addr_mode: AddressingMode::IMPL }),
        0x79 => Some(Opcode { name: OpcodeType::ADC, addr_mode: AddressingMode::ABSY }),
        0x7D => Some(Opcode { name: OpcodeType::ADC, addr_mode: AddressingMode::ABSX }),
        0x7E => Some(Opcode { name: OpcodeType::ROR, addr_mode: AddressingMode::ABSX }),
        0x81 => Some(Opcode { name: OpcodeType::STA, addr_mode: AddressingMode::INDX }),
        0x84 => Some(Opcode { name: OpcodeType::STY, addr_mode: AddressingMode::ZPG }),
        0x85 => Some(Opcode { name: OpcodeType::STA, addr_mode: AddressingMode::ZPG }),
        0x86 => Some(Opcode { name: OpcodeType::STX, addr_mode: AddressingMode::ZPG }),
        0x88 => Some(Opcode { name: OpcodeType::DEY, addr_mode: AddressingMode::IMPL }),
        0x8A => Some(Opcode { name: OpcodeType::TXA, addr_mode: AddressingMode::IMPL }),
        0x8C => Some(Opcode { name: OpcodeType::STY, addr_mode: AddressingMode::ABS }),
        0x8D => Some(Opcode { name: OpcodeType::STA, addr_mode: AddressingMode::ABS }),
        0x8E => Some(Opcode { name: OpcodeType::STX, addr_mode: AddressingMode::ABS }),
        0x90 => Some(Opcode { name: OpcodeType::BCC, addr_mode: AddressingMode::REL }),
        0x91 => Some(Opcode { name: OpcodeType::STA, addr_mode: AddressingMode::INDY }),
        0x94 => Some(Opcode { name: OpcodeType::STY, addr_mode: AddressingMode::ZPGX }),
        0x95 => Some(Opcode { name: OpcodeType::STA, addr_mode: AddressingMode::ZPGX }),
        0x96 => Some(Opcode { name: OpcodeType::STX, addr_mode: AddressingMode::ZPGY }),
        0x98 => Some(Opcode { name: OpcodeType::TYA, addr_mode: AddressingMode::IMPL }),
        0x99 => Some(Opcode { name: OpcodeType::STA, addr_mode: AddressingMode::ABSY }),
        0x9A => Some(Opcode { name: OpcodeType::TXS, addr_mode: AddressingMode::IMPL }),
        0x9D => Some(Opcode { name: OpcodeType::STA, addr_mode: AddressingMode::ABSX }),
        0xA0 => Some(Opcode { name: OpcodeType::LDY, addr_mode: AddressingMode::IMM }),
        0xA1 => Some(Opcode { name: OpcodeType::LDA, addr_mode: AddressingMode::INDX }),
        0xA2 => Some(Opcode { name: OpcodeType::LDX, addr_mode: AddressingMode::IMM }),
        0xA4 => Some(Opcode { name: OpcodeType::LDY, addr_mode: AddressingMode::ZPG }),
        0xA5 => Some(Opcode { name: OpcodeType::LDA, addr_mode: AddressingMode::ZPG }),
        0xA6 => Some(Opcode { name: OpcodeType::LDX, addr_mode: AddressingMode::ZPG }),
        0xA8 => Some(Opcode { name: OpcodeType::TAY, addr_mode: AddressingMode::IMPL }),
        0xA9 => Some(Opcode { name: OpcodeType::LDA, addr_mode: AddressingMode::IMM }),
        0xAA => Some(Opcode { name: OpcodeType::TAX, addr_mode: AddressingMode::IMPL }),
        0xAC => Some(Opcode { name: OpcodeType::LDY, addr_mode: AddressingMode::ABS }),
        0xAD => Some(Opcode { name: OpcodeType::LDA, addr_mode: AddressingMode::ABS }),
        0xAE => Some(Opcode { name: OpcodeType::LDX, addr_mode: AddressingMode::ABS }),
        0xB0 => Some(Opcode { name: OpcodeType::BCS, addr_mode: AddressingMode::REL }),
        0xB1 => Some(Opcode { name: OpcodeType::LDA, addr_mode: AddressingMode::INDY }),
        0xB4 => Some(Opcode { name: OpcodeType::LDY, addr_mode: AddressingMode::ZPGX }),
        0xB5 => Some(Opcode { name: OpcodeType::LDA, addr_mode: AddressingMode::ZPGX }),
        0xB6 => Some(Opcode { name: OpcodeType::LDX, addr_mode: AddressingMode::ZPGY }),
        0xB8 => Some(Opcode { name: OpcodeType::CLV, addr_mode: AddressingMode::IMPL }),
        0xB9 => Some(Opcode { name: OpcodeType::LDA, addr_mode: AddressingMode::ABSY }),
        0xBA => Some(Opcode { name: OpcodeType::TSX, addr_mode: AddressingMode::IMPL }),
        0xBC => Some(Opcode { name: OpcodeType::LDY, addr_mode: AddressingMode::ABSX }),
        0xBD => Some(Opcode { name: OpcodeType::LDA, addr_mode: AddressingMode::ABSX }),
        0xBE => Some(Opcode { name: OpcodeType::LDX, addr_mode: AddressingMode::ABSY }),
        0xC0 => Some(Opcode { name: OpcodeType::CPY, addr_mode: AddressingMode::IMM }),
        0xC1 => Some(Opcode { name: OpcodeType::CMP, addr_mode: AddressingMode::INDX }),
        0xC4 => Some(Opcode { name: OpcodeType::CPY, addr_mode: AddressingMode::ZPG }),
        0xC5 => Some(Opcode { name: OpcodeType::CMP, addr_mode: AddressingMode::ZPG }),
        0xC6 => Some(Opcode { name: OpcodeType::DEC, addr_mode: AddressingMode::ZPG }),
        0xC8 => Some(Opcode { name: OpcodeType::INY, addr_mode: AddressingMode::IMPL }),
        0xC9 => Some(Opcode { name: OpcodeType::CMP, addr_mode: AddressingMode::IMM }),
        0xCA => Some(Opcode { name: OpcodeType::DEX, addr_mode: AddressingMode::IMPL }),
        0xCC => Some(Opcode { name: OpcodeType::CPY, addr_mode: AddressingMode::ABS }),
        0xCD => Some(Opcode { name: OpcodeType::CMP, addr_mode: AddressingMode::ABS }),
        0xCE => Some(Opcode { name: OpcodeType::DEC, addr_mode: AddressingMode::ABS }),
        0xD0 => Some(Opcode { name: OpcodeType::BNE, addr_mode: AddressingMode::REL }),
        0xD1 => Some(Opcode { name: OpcodeType::CMP, addr_mode: AddressingMode::INDY }),
        0xD5 => Some(Opcode { name: OpcodeType::CMP, addr_mode: AddressingMode::ZPGX }),
        0xD6 => Some(Opcode { name: OpcodeType::DEC, addr_mode: AddressingMode::ZPGX }),
        0xD8 => Some(Opcode { name: OpcodeType::CLD, addr_mode: AddressingMode::IMPL }),
        0xD9 => Some(Opcode { name: OpcodeType::CMP, addr_mode: AddressingMode::ABSY }),
        0xDD => Some(Opcode { name: OpcodeType::CMP, addr_mode: AddressingMode::ABSX }),
        0xDE => Some(Opcode { name: OpcodeType::DEC, addr_mode: AddressingMode::ABSX }),
        0xE0 => Some(Opcode { name: OpcodeType::CPX, addr_mode: AddressingMode::IMM }),
        0xE1 => Some(Opcode { name: OpcodeType::SBC, addr_mode: AddressingMode::INDX }),
        0xE4 => Some(Opcode { name: OpcodeType::CPX, addr_mode: AddressingMode::ZPG }),
        0xE5 => Some(Opcode { name: OpcodeType::SBC, addr_mode: AddressingMode::ZPG }),
        0xE6 => Some(Opcode { name: OpcodeType::INC, addr_mode: AddressingMode::ZPG }),
        0xE8 => Some(Opcode { name: OpcodeType::INX, addr_mode: AddressingMode::IMPL }),
        0xE9 => Some(Opcode { name: OpcodeType::SBC, addr_mode: AddressingMode::IMM }),
        0xEA => Some(Opcode { name: OpcodeType::NOP, addr_mode: AddressingMode::IMPL }),
        0xEC => Some(Opcode { name: OpcodeType::CPX, addr_mode: AddressingMode::ABS }),
        0xED => Some(Opcode { name: OpcodeType::SBC, addr_mode: AddressingMode::ABS }),
        0xEE => Some(Opcode { name: OpcodeType::INC, addr_mode: AddressingMode::ABS }),
        0xF0 => Some(Opcode { name: OpcodeType::BEQ, addr_mode: AddressingMode::REL }),
        0xF1 => Some(Opcode { name: OpcodeType::SBC, addr_mode: AddressingMode::INDY }),
        0xF5 => Some(Opcode { name: OpcodeType::SBC, addr_mode: AddressingMode::ZPGX }),
        0xF6 => Some(Opcode { name: OpcodeType::INC, addr_mode: AddressingMode::ZPGX }),
        0xF8 => Some(Opcode { name: OpcodeType::SED, addr_mode: AddressingMode::IMPL }),
        0xF9 => Some(Opcode { name: OpcodeType::SBC, addr_mode: AddressingMode::ABSY }),
        0xFD => Some(Opcode { name: OpcodeType::SBC, addr_mode: AddressingMode::ABSX }),
        0xFE => Some(Opcode { name: OpcodeType::INC, addr_mode: AddressingMode::ABSX }),
        _ => None,
    }
}

} // verus!
