//! The instruction set: operation and addressing-mode tags, and the fixed
//! 256-entry lookup table that decodes an opcode byte into an
//! (operation, addressing mode) pair. An opcode byte with no table entry
//! decodes to nothing; per the error model it is a fatal configuration
//! error that callers must not silently step over.

use vstd::prelude::*;

verus! {

#[derive(PartialEq, Eq, Copy, Clone, Structural, Debug)]
pub enum AddressingMode {
    Implied,
    Accumulator,
    Immediate,
    Absolute,
    ZeroPage,
    ZeroPageX,
    ZeroPageY,
    AbsoluteX,
    AbsoluteY,
    Relative,
    Indirect,
    IndirectX,
    IndirectY,
}

#[derive(PartialEq, Eq, Copy, Clone, Structural, Debug)]
pub enum Opcode {
    ADC,
    SBC,
    AND,
    EOR,
    ORA,
    ASL,
    LSR,
    ROL,
    ROR,
    INC,
    INX,
    INY,
    DEC,
    DEX,
    DEY,
    LDA,
    LDX,
    LDY,
    STA,
    STX,
    STY,
    SEC,
    SED,
    SEI,
    CLC,
    CLD,
    CLI,
    CLV,
    CMP,
    CPX,
    CPY,
    JMP,
    JSR,
    RTI,
    RTS,
    BCC,
    BCS,
    BEQ,
    BMI,
    BNE,
    BPL,
    BVC,
    BVS,
    PHA,
    PHP,
    PLA,
    PLP,
    TAX,
    TAY,
    TSX,
    TXA,
    TXS,
    TYA,
    BRK,
    BIT,
    NOP,
    ALR,
    ANC,
    ARR,
    AXS,
    LAX,
    SAX,
    DCP,
    ISC,
    RLA,
    RRA,
    SLO,
    SRE,
    SKB,
    IGN,
}

/// An effective address or immediate value, paired with the addressing
/// mode's base cycle cost.
#[derive(Clone, Copy, PartialEq, Eq, Structural)]
pub struct Operand(pub u16, pub u8);

/// A decoded instruction: the operation and the addressing mode it uses.
#[derive(Clone, Copy, PartialEq, Eq, Structural, Debug)]
pub struct Instruction(pub Opcode, pub AddressingMode);

/// The decode table as a mathematical function: the single authority on
/// which opcode bytes exist and what they decode to.
pub open spec fn decode_spec(code: u8) -> Option<Instruction> {
    match code {
        0x00 => Some(Instruction(Opcode::BRK, AddressingMode::Implied)),
        0x01 => Some(Instruction(Opcode::ORA, AddressingMode::IndirectX)),
        0x03 => Some(Instruction(Opcode::SLO, AddressingMode::IndirectX)),
        0x04 => Some(Instruction(Opcode::IGN, AddressingMode::ZeroPage)),
        0x05 => Some(Instruction(Opcode::ORA, AddressingMode::ZeroPage)),
        0x06 => Some(Instruction(Opcode::ASL, AddressingMode::ZeroPage)),
        0x07 => Some(Instruction(Opcode::SLO, AddressingMode::ZeroPage)),
        0x08 => Some(Instruction(Opcode::PHP, AddressingMode::Implied)),
        0x09 => Some(Instruction(Opcode::ORA, AddressingMode::Immediate)),
        0x0a => Some(Instruction(Opcode::ASL, AddressingMode::Accumulator)),
        0x0b => Some(Instruction(Opcode::ANC, AddressingMode::Immediate)),
        0x0c => Some(Instruction(Opcode::IGN, AddressingMode::Absolute)),
        0x0d => Some(Instruction(Opcode::ORA, AddressingMode::Absolute)),
        0x0e => Some(Instruction(Opcode::ASL, AddressingMode::Absolute)),
        0x0f => Some(Instruction(Opcode::SLO, AddressingMode::Absolute)),
        0x10 => Some(Instruction(Opcode::BPL, AddressingMode::Relative)),
        0x11 => Some(Instruction(Opcode::ORA, AddressingMode::IndirectY)),
        0x13 => Some(Instruction(Opcode::SLO, AddressingMode::IndirectY)),
        0x14 => Some(Instruction(Opcode::IGN, AddressingMode::ZeroPageX)),
        0x15 => Some(Instruction(Opcode::ORA, AddressingMode::ZeroPageX)),
        0x16 => Some(Instruction(Opcode::ASL, AddressingMode::ZeroPageX)),
        0x17 => Some(Instruction(Opcode::SLO, AddressingMode::ZeroPageX)),
        0x18 => Some(Instruction(Opcode::CLC, AddressingMode::Implied)),
        0x19 => Some(Instruction(Opcode::ORA, AddressingMode::AbsoluteY)),
        0x1b => Some(Instruction(Opcode::SLO, AddressingMode::AbsoluteY)),
        0x1c => Some(Instruction(Opcode::IGN, AddressingMode::AbsoluteX)),
        0x1d => Some(Instruction(Opcode::ORA, AddressingMode::AbsoluteX)),
        0x1e => Some(Instruction(Opcode::ASL, AddressingMode::AbsoluteX)),
        0x1f => Some(Instruction(Opcode::SLO, AddressingMode::AbsoluteX)),
        0x20 => Some(Instruction(Opcode::JSR, AddressingMode::Absolute)),
        0x21 => Some(Instruction(Opcode::AND, AddressingMode::IndirectX)),
        0x23 => Some(Instruction(Opcode::RLA, AddressingMode::IndirectX)),
        0x24 => Some(Instruction(Opcode::BIT, AddressingMode::ZeroPage)),
        0x25 => Some(Instruction(Opcode::AND, AddressingMode::ZeroPage)),
        0x26 => Some(Instruction(Opcode::ROL, AddressingMode::ZeroPage)),
        0x27 => Some(Instruction(Opcode::RLA, AddressingMode::ZeroPage)),
        0x28 => Some(Instruction(Opcode::PLP, AddressingMode::Implied)),
        0x29 => Some(Instruction(Opcode::AND, AddressingMode::Immediate)),
        0x2a => Some(Instruction(Opcode::ROL, AddressingMode::Accumulator)),
        0x2c => Some(Instruction(Opcode::BIT, AddressingMode::Absolute)),
        0x2d => Some(Instruction(Opcode::AND, AddressingMode::Absolute)),
        0x2e => Some(Instruction(Opcode::ROL, AddressingMode::Absolute)),
        0x2f => Some(Instruction(Opcode::RLA, AddressingMode::Absolute)),
        0x30 => Some(Instruction(Opcode::BMI, AddressingMode::Relative)),
        0x31 => Some(Instruction(Opcode::AND, AddressingMode::IndirectY)),
        0x33 => Some(Instruction(Opcode::RLA, AddressingMode::IndirectY)),
        0x34 => Some(Instruction(Opcode::IGN, AddressingMode::ZeroPageX)),
        0x35 => Some(Instruction(Opcode::AND, AddressingMode::ZeroPageX)),
        0x36 => Some(Instruction(Opcode::ROL, AddressingMode::ZeroPageX)),
        0x37 => Some(Instruction(Opcode::RLA, AddressingMode::ZeroPageX)),
        0x38 => Some(Instruction(Opcode::SEC, AddressingMode::Implied)),
        0x39 => Some(Instruction(Opcode::AND, AddressingMode::AbsoluteY)),
        0x3b => Some(Instruction(Opcode::RLA, AddressingMode::AbsoluteY)),
        0x3c => Some(Instruction(Opcode::IGN, AddressingMode::AbsoluteX)),
        0x3d => Some(Instruction(Opcode::AND, AddressingMode::AbsoluteX)),
        0x3e => Some(Instruction(Opcode::ROL, AddressingMode::AbsoluteX)),
        0x3f => Some(Instruction(Opcode::RLA, AddressingMode::AbsoluteX)),
        0x40 => Some(Instruction(Opcode::RTI, AddressingMode::Implied)),
        0x41 => Some(Instruction(Opcode::EOR, AddressingMode::IndirectX)),
        0x43 => Some(Instruction(Opcode::SRE, AddressingMode::IndirectX)),
        0x44 => Some(Instruction(Opcode::IGN, AddressingMode::ZeroPage)),
        0x45 => Some(Instruction(Opcode::EOR, AddressingMode::ZeroPage)),
        0x46 => Some(Instruction(Opcode::LSR, AddressingMode::ZeroPage)),
        0x47 => Some(Instruction(Opcode::SRE, AddressingMode::ZeroPage)),
        0x48 => Some(Instruction(Opcode::PHA, AddressingMode::Implied)),
        0x49 => Some(Instruction(Opcode::EOR, AddressingMode::Immediate)),
        0x4a => Some(Instruction(Opcode::LSR, AddressingMode::Accumulator)),
        0x4b => Some(Instruction(Opcode::ALR, AddressingMode::Immediate)),
        0x4c => Some(Instruction(Opcode::JMP, AddressingMode::Absolute)),
        0x4d => Some(Instruction(Opcode::EOR, AddressingMode::Absolute)),
        0x4e => Some(Instruction(Opcode::LSR, AddressingMode::Absolute)),
        0x4f => Some(Instruction(Opcode::SRE, AddressingMode::Absolute)),
        0x50 => Some(Instruction(Opcode::BVC, AddressingMode::Relative)),
        0x51 => Some(Instruction(Opcode::EOR, AddressingMode::IndirectY)),
        0x53 => Some(Instruction(Opcode::SRE, AddressingMode::IndirectY)),
        0x54 => Some(Instruction(Opcode::IGN, AddressingMode::ZeroPageX)),
        0x55 => Some(Instruction(Opcode::EOR, AddressingMode::ZeroPageX)),
        0x56 => Some(Instruction(Opcode::LSR, AddressingMode::ZeroPageX)),
        0x57 => Some(Instruction(Opcode::SRE, AddressingMode::ZeroPageX)),
        0x58 => Some(Instruction(Opcode::CLI, AddressingMode::Implied)),
        0x59 => Some(Instruction(Opcode::EOR, AddressingMode::AbsoluteY)),
        0x5b => Some(Instruction(Opcode::SRE, AddressingMode::AbsoluteY)),
        0x5c => Some(Instruction(Opcode::IGN, AddressingMode::AbsoluteX)),
        0x5d => Some(Instruction(Opcode::EOR, AddressingMode::AbsoluteX)),
        0x5e => Some(Instruction(Opcode::LSR, AddressingMode::AbsoluteX)),
        0x5f => Some(Instruction(Opcode::SRE, AddressingMode::AbsoluteX)),
        0x60 => Some(Instruction(Opcode::RTS, AddressingMode::Implied)),
        0x61 => Some(Instruction(Opcode::ADC, AddressingMode::IndirectX)),
        0x63 => Some(Instruction(Opcode::RRA, AddressingMode::IndirectX)),
        0x64 => Some(Instruction(Opcode::IGN, AddressingMode::ZeroPage)),
        0x65 => Some(Instruction(Opcode::ADC, AddressingMode::ZeroPage)),
        0x66 => Some(Instruction(Opcode::ROR, AddressingMode::ZeroPage)),
        0x67 => Some(Instruction(Opcode::RRA, AddressingMode::ZeroPage)),
        0x68 => Some(Instruction(Opcode::PLA, AddressingMode::Implied)),
        0x69 => Some(Instruction(Opcode::ADC, AddressingMode::Immediate)),
        0x6a => Some(Instruction(Opcode::ROR, AddressingMode::Accumulator)),
        0x6b => Some(Instruction(Opcode::ARR, AddressingMode::Immediate)),
        0x6c => Some(Instruction(Opcode::JMP, AddressingMode::Indirect)),
        0x6d => Some(Instruction(Opcode::ADC, AddressingMode::Absolute)),
        0x6e => Some(Instruction(Opcode::ROR, AddressingMode::Absolute)),
        0x6f => Some(Instruction(Opcode::RRA, AddressingMode::Absolute)),
        0x70 => Some(Instruction(Opcode::BVS, AddressingMode::Relative)),
        0x71 => Some(Instruction(Opcode::ADC, AddressingMode::IndirectY)),
        0x73 => Some(Instruction(Opcode::RRA, AddressingMode::IndirectY)),
        0x74 => Some(Instruction(Opcode::IGN, AddressingMode::ZeroPageX)),
        0x75 => Some(Instruction(Opcode::ADC, AddressingMode::ZeroPageX)),
        0x76 => Some(Instruction(Opcode::ROR, AddressingMode::ZeroPageX)),
        0x77 => Some(Instruction(Opcode::RRA, AddressingMode::ZeroPageX)),
        0x78 => Some(Instruction(Opcode::SEI, AddressingMode::Implied)),
        0x79 => Some(Instruction(Opcode::ADC, AddressingMode::AbsoluteY)),
        0x7b => Some(Instruction(Opcode::RRA, AddressingMode::AbsoluteY)),
        0x7c => Some(Instruction(Opcode::IGN, AddressingMode::AbsoluteX)),
        0x7d => Some(Instruction(Opcode::ADC, AddressingMode::AbsoluteX)),
        0x7e => Some(Instruction(Opcode::ROR, AddressingMode::AbsoluteX)),
        0x7f => Some(Instruction(Opcode::RRA, AddressingMode::AbsoluteX)),
        0x80 => Some(Instruction(Opcode::SKB, AddressingMode::Immediate)),
        0x81 => Some(Instruction(Opcode::STA, AddressingMode::IndirectX)),
        0x82 => Some(Instruction(Opcode::SKB, AddressingMode::Immediate)),
        0x83 => Some(Instruction(Opcode::SAX, AddressingMode::IndirectX)),
        0x84 => Some(Instruction(Opcode::STY, AddressingMode::ZeroPage)),
        0x85 => Some(Instruction(Opcode::STA, AddressingMode::ZeroPage)),
        0x86 => Some(Instruction(Opcode::STX, AddressingMode::ZeroPage)),
        0x87 => Some(Instruction(Opcode::SAX, AddressingMode::ZeroPage)),
        0x88 => Some(Instruction(Opcode::DEY, AddressingMode::Implied)),
        0x89 => Some(Instruction(Opcode::SKB, AddressingMode::Immediate)),
        0x8a => Some(Instruction(Opcode::TXA, AddressingMode::Implied)),
        0x8d => Some(Instruction(Opcode::STA, AddressingMode::Absolute)),
        0x8f => Some(Instruction(Opcode::SAX, AddressingMode::Absolute)),
        0x90 => Some(Instruction(Opcode::BCC, AddressingMode::Relative)),
        0x91 => Some(Instruction(Opcode::STA, AddressingMode::IndirectY)),
        0x95 => Some(Instruction(Opcode::STA, AddressingMode::ZeroPageX)),
        0x97 => Some(Instruction(Opcode::SAX, AddressingMode::ZeroPageY)),
        0x98 => Some(Instruction(Opcode::TYA, AddressingMode::Implied)),
        0x99 => Some(Instruction(Opcode::STA, AddressingMode::AbsoluteY)),
        0x9a => Some(Instruction(Opcode::TXS, AddressingMode::Implied)),
        0x9d => Some(Instruction(Opcode::STA, AddressingMode::AbsoluteX)),
        0xa0 => Some(Instruction(Opcode::LDY, AddressingMode::Immediate)),
        0xa1 => Some(Instruction(Opcode::LDA, AddressingMode::IndirectX)),
        0xa2 => Some(Instruction(Opcode::LDX, AddressingMode::Immediate)),
        0xa3 => Some(Instruction(Opcode::LAX, AddressingMode::IndirectX)),
        0xa4 => Some(Instruction(Opcode::LDY, AddressingMode::ZeroPage)),
        0xa5 => Some(Instruction(Opcode::LDA, AddressingMode::ZeroPage)),
        0xa6 => Some(Instruction(Opcode::LDX, AddressingMode::ZeroPage)),
        0xa7 => Some(Instruction(Opcode::LAX, AddressingMode::ZeroPage)),
        0xa8 => Some(Instruction(Opcode::TAY, AddressingMode::Implied)),
        0xa9 => Some(Instruction(Opcode::LDA, AddressingMode::Immediate)),
        0xaa => Some(Instruction(Opcode::TAX, AddressingMode::Implied)),
        0xac => Some(Instruction(Opcode::LDY, AddressingMode::Absolute)),
        0xad => Some(Instruction(Opcode::LDA, AddressingMode::Absolute)),
        0xae => Some(Instruction(Opcode::LDX, AddressingMode::Absolute)),
        0xaf => Some(Instruction(Opcode::LAX, AddressingMode::Absolute)),
        0xb0 => Some(Instruction(Opcode::BCS, AddressingMode::Relative)),
        0xb1 => Some(Instruction(Opcode::LDA, AddressingMode::IndirectY)),
        0xb3 => Some(Instruction(Opcode::LAX, AddressingMode::IndirectY)),
        0xb4 => Some(Instruction(Opcode::LDY, AddressingMode::ZeroPageY)),
        0xb5 => Some(Instruction(Opcode::LDA, AddressingMode::ZeroPageX)),
        0xb6 => Some(Instruction(Opcode::LDX, AddressingMode::ZeroPageX)),
        0xb7 => Some(Instruction(Opcode::LAX, AddressingMode::ZeroPageY)),
        0xb8 => Some(Instruction(Opcode::CLV, AddressingMode::Implied)),
        0xb9 => Some(Instruction(Opcode::LDA, AddressingMode::AbsoluteY)),
        0xba => Some(Instruction(Opcode::TSX, AddressingMode::Implied)),
        0xbc => Some(Instruction(Opcode::LDY, AddressingMode::AbsoluteX)),
        0xbd => Some(Instruction(Opcode::LDA, AddressingMode::AbsoluteX)),
        0xbe => Some(Instruction(Opcode::LDX, AddressingMode::AbsoluteY)),
        0xbf => Some(Instruction(Opcode::LAX, AddressingMode::AbsoluteY)),
        0xc0 => Some(Instruction(Opcode::CPY, AddressingMode::Immediate)),
        0xc1 => Some(Instruction(Opcode::CMP, AddressingMode::IndirectX)),
        0xc2 => Some(Instruction(Opcode::SKB, AddressingMode::Immediate)),
        0xc3 => Some(Instruction(Opcode::DCP, AddressingMode::IndirectX)),
        0xc4 => Some(Instruction(Opcode::CPY, AddressingMode::ZeroPage)),
        0xc5 => Some(Instruction(Opcode::CMP, AddressingMode::ZeroPage)),
        0xc6 => Some(Instruction(Opcode::DEC, AddressingMode::ZeroPage)),
        0xc7 => Some(Instruction(Opcode::DCP, AddressingMode::ZeroPage)),
        0xc8 => Some(Instruction(Opcode::INY, AddressingMode::Implied)),
        0xc9 => Some(Instruction(Opcode::CMP, AddressingMode::Immediate)),
        0xca => Some(Instruction(Opcode::DEX, AddressingMode::Implied)),
        0xcb => Some(Instruction(Opcode::AXS, AddressingMode::Immediate)),
        0xcc => Some(Instruction(Opcode::CPY, AddressingMode::Absolute)),
        0xcd => Some(Instruction(Opcode::CMP, AddressingMode::Absolute)),
        0xce => Some(Instruction(Opcode::DEC, AddressingMode::Absolute)),
        0xcf => Some(Instruction(Opcode::DCP, AddressingMode::Absolute)),
        0xd0 => Some(Instruction(Opcode::BNE, AddressingMode::Relative)),
        0xd1 => Some(Instruction(Opcode::CMP, AddressingMode::IndirectY)),
        0xd3 => Some(Instruction(Opcode::DCP, AddressingMode::IndirectY)),
        0xd4 => Some(Instruction(Opcode::IGN, AddressingMode::ZeroPageX)),
        0xd5 => Some(Instruction(Opcode::CMP, AddressingMode::ZeroPageX)),
        0xd6 => Some(Instruction(Opcode::DEC, AddressingMode::ZeroPageX)),
        0xd7 => Some(Instruction(Opcode::DCP, AddressingMode::ZeroPageX)),
        0xd8 => Some(Instruction(Opcode::CLD, AddressingMode::Implied)),
        0xd9 => Some(Instruction(Opcode::CMP, AddressingMode::AbsoluteY)),
        0xdb => Some(Instruction(Opcode::DCP, AddressingMode::AbsoluteY)),
        0xdc => Some(Instruction(Opcode::IGN, AddressingMode::AbsoluteX)),
        0xdd => Some(Instruction(Opcode::CMP, AddressingMode::AbsoluteX)),
        0xde => Some(Instruction(Opcode::DEC, AddressingMode::AbsoluteX)),
        0xdf => Some(Instruction(Opcode::DCP, AddressingMode::AbsoluteX)),
        0xe0 => Some(Instruction(Opcode::CPX, AddressingMode::Immediate)),
        0xe1 => Some(Instruction(Opcode::SBC, AddressingMode::IndirectX)),
        0xe2 => Some(Instruction(Opcode::SKB, AddressingMode::Immediate)),
        0xe3 => Some(Instruction(Opcode::ISC, AddressingMode::IndirectX)),
        0xe4 => Some(Instruction(Opcode::CPX, AddressingMode::ZeroPage)),
        0xe5 => Some(Instruction(Opcode::SBC, AddressingMode::ZeroPage)),
        0xe6 => Some(Instruction(Opcode::INC, AddressingMode::ZeroPage)),
        0xe7 => Some(Instruction(Opcode::ISC, AddressingMode::ZeroPage)),
        0xe8 => Some(Instruction(Opcode::INX, AddressingMode::Implied)),
        0xe9 => Some(Instruction(Opcode::SBC, AddressingMode::Immediate)),
        0xea => Some(Instruction(Opcode::NOP, AddressingMode::Implied)),
        0xec => Some(Instruction(Opcode::CPX, AddressingMode::Absolute)),
        0xed => Some(Instruction(Opcode::SBC, AddressingMode::Absolute)),
        0xee => Some(Instruction(Opcode::INC, AddressingMode::Absolute)),
        0xef => Some(Instruction(Opcode::ISC, AddressingMode::Absolute)),
        0xf0 => Some(Instruction(Opcode::BEQ, AddressingMode::Relative)),
        0xf1 => Some(Instruction(Opcode::SBC, AddressingMode::IndirectY)),
        0xf3 => Some(Instruction(Opcode::ISC, AddressingMode::IndirectY)),
        0xf4 => Some(Instruction(Opcode::IGN, AddressingMode::ZeroPageX)),
        0xf5 => Some(Instruction(Opcode::SBC, AddressingMode::ZeroPageX)),
        0xf6 => Some(Instruction(Opcode::INC, AddressingMode::ZeroPageX)),
        0xf7 => Some(Instruction(Opcode::ISC, AddressingMode::ZeroPageX)),
        0xf8 => Some(Instruction(Opcode::SED, AddressingMode::Implied)),
        0xf9 => Some(Instruction(Opcode::SBC, AddressingMode::AbsoluteY)),
        0xfb => Some(Instruction(Opcode::ISC, AddressingMode::AbsoluteY)),
        0xfc => Some(Instruction(Opcode::IGN, AddressingMode::AbsoluteX)),
        0xfd => Some(Instruction(Opcode::SBC, AddressingMode::AbsoluteX)),
        0xfe => Some(Instruction(Opcode::INC, AddressingMode::AbsoluteX)),
        0xff => Some(Instruction(Opcode::ISC, AddressingMode::AbsoluteX)),
        _ => None,
    }
}

impl Instruction {
    /// Decodes one opcode byte; an unmapped byte yields `None`.
    pub fn from(code: u8) -> (result: Option<Instruction>)
        ensures
            result == decode_spec(code),
    {
        match code {
            0x00 => Some(Instruction(Opcode::BRK, AddressingMode::Implied)),
            0x01 => Some(Instruction(Opcode::ORA, AddressingMode::IndirectX)),
            0x03 => Some(Instruction(Opcode::SLO, AddressingMode::IndirectX)),
            0x04 => Some(Instruction(Opcode::IGN, AddressingMode::ZeroPage)),
            0x05 => Some(Instruction(Opcode::ORA, AddressingMode::ZeroPage)),
            0x06 => Some(Instruction(Opcode::ASL, AddressingMode::ZeroPage)),
            0x07 => Some(Instruction(Opcode::SLO, AddressingMode::ZeroPage)),
            0x08 => Some(Instruction(Opcode::PHP, AddressingMode::Implied)),
            0x09 => Some(Instruction(Opcode::ORA, AddressingMode::Immediate)),
            0x0a => Some(Instruction(Opcode::ASL, AddressingMode::Accumulator)),
            0x0b => Some(Instruction(Opcode::ANC, AddressingMode::Immediate)),
            0x0c => Some(Instruction(Opcode::IGN, AddressingMode::Absolute)),
            0x0d => Some(Instruction(Opcode::ORA, AddressingMode::Absolute)),
            0x0e => Some(Instruction(Opcode::ASL, AddressingMode::Absolute)),
            0x0f => Some(Instruction(Opcode::SLO, AddressingMode::Absolute)),
            0x10 => Some(Instruction(Opcode::BPL, AddressingMode::Relative)),
            0x11 => Some(Instruction(Opcode::ORA, AddressingMode::IndirectY)),
            0x13 => Some(Instruction(Opcode::SLO, AddressingMode::IndirectY)),
            0x14 => Some(Instruction(Opcode::IGN, AddressingMode::ZeroPageX)),
            0x15 => Some(Instruction(Opcode::ORA, AddressingMode::ZeroPageX)),
            0x16 => Some(Instruction(Opcode::ASL, AddressingMode::ZeroPageX)),
            0x17 => Some(Instruction(Opcode::SLO, AddressingMode::ZeroPageX)),
            0x18 => Some(Instruction(Opcode::CLC, AddressingMode::Implied)),
            0x19 => Some(Instruction(Opcode::ORA, AddressingMode::AbsoluteY)),
            0x1b => Some(Instruction(Opcode::SLO, AddressingMode::AbsoluteY)),
            0x1c => Some(Instruction(Opcode::IGN, AddressingMode::AbsoluteX)),
            0x1d => Some(Instruction(Opcode::ORA, AddressingMode::AbsoluteX)),
            0x1e => Some(Instruction(Opcode::ASL, AddressingMode::AbsoluteX)),
            0x1f => Some(Instruction(Opcode::SLO, AddressingMode::AbsoluteX)),
            0x20 => Some(Instruction(Opcode::JSR, AddressingMode::Absolute)),
            0x21 => Some(Instruction(Opcode::AND, AddressingMode::IndirectX)),
            0x23 => Some(Instruction(Opcode::RLA, AddressingMode::IndirectX)),
            0x24 => Some(Instruction(Opcode::BIT, AddressingMode::ZeroPage)),
            0x25 => Some(Instruction(Opcode::AND, AddressingMode::ZeroPage)),
            0x26 => Some(Instruction(Opcode::ROL, AddressingMode::ZeroPage)),
            0x27 => Some(Instruction(Opcode::RLA, AddressingMode::ZeroPage)),
            0x28 => Some(Instruction(Opcode::PLP, AddressingMode::Implied)),
            0x29 => Some(Instruction(Opcode::AND, AddressingMode::Immediate)),
            0x2a => Some(Instruction(Opcode::ROL, AddressingMode::Accumulator)),
            0x2c => Some(Instruction(Opcode::BIT, AddressingMode::Absolute)),
            0x2d => Some(Instruction(Opcode::AND, AddressingMode::Absolute)),
            0x2e => Some(Instruction(Opcode::ROL, AddressingMode::Absolute)),
            0x2f => Some(Instruction(Opcode::RLA, AddressingMode::Absolute)),
            0x30 => Some(Instruction(Opcode::BMI, AddressingMode::Relative)),
            0x31 => Some(Instruction(Opcode::AND, AddressingMode::IndirectY)),
            0x33 => Some(Instruction(Opcode::RLA, AddressingMode::IndirectY)),
            0x34 => Some(Instruction(Opcode::IGN, AddressingMode::ZeroPageX)),
            0x35 => Some(Instruction(Opcode::AND, AddressingMode::ZeroPageX)),
            0x36 => Some(Instruction(Opcode::ROL, AddressingMode::ZeroPageX)),
            0x37 => Some(Instruction(Opcode::RLA, AddressingMode::ZeroPageX)),
            0x38 => Some(Instruction(Opcode::SEC, AddressingMode::Implied)),
            0x39 => Some(Instruction(Opcode::AND, AddressingMode::AbsoluteY)),
            0x3b => Some(Instruction(Opcode::RLA, AddressingMode::AbsoluteY)),
            0x3c => Some(Instruction(Opcode::IGN, AddressingMode::AbsoluteX)),
            0x3d => Some(Instruction(Opcode::AND, AddressingMode::AbsoluteX)),
            0x3e => Some(Instruction(Opcode::ROL, AddressingMode::AbsoluteX)),
            0x3f => Some(Instruction(Opcode::RLA, AddressingMode::AbsoluteX)),
            0x40 => Some(Instruction(Opcode::RTI, AddressingMode::Implied)),
            0x41 => Some(Instruction(Opcode::EOR, AddressingMode::IndirectX)),
            0x43 => Some(Instruction(Opcode::SRE, AddressingMode::IndirectX)),
            0x44 => Some(Instruction(Opcode::IGN, AddressingMode::ZeroPage)),
            0x45 => Some(Instruction(Opcode::EOR, AddressingMode::ZeroPage)),
            0x46 => Some(Instruction(Opcode::LSR, AddressingMode::ZeroPage)),
            0x47 => Some(Instruction(Opcode::SRE, AddressingMode::ZeroPage)),
            0x48 => Some(Instruction(Opcode::PHA, AddressingMode::Implied)),
            0x49 => Some(Instruction(Opcode::EOR, AddressingMode::Immediate)),
            0x4a => Some(Instruction(Opcode::LSR, AddressingMode::Accumulator)),
            0x4b => Some(Instruction(Opcode::ALR, AddressingMode::Immediate)),
            0x4c => Some(Instruction(Opcode::JMP, AddressingMode::Absolute)),
            0x4d => Some(Instruction(Opcode::EOR, AddressingMode::Absolute)),
            0x4e => Some(Instruction(Opcode::LSR, AddressingMode::Absolute)),
            0x4f => Some(Instruction(Opcode::SRE, AddressingMode::Absolute)),
            0x50 => Some(Instruction(Opcode::BVC, AddressingMode::Relative)),
            0x51 => Some(Instruction(Opcode::EOR, AddressingMode::IndirectY)),
            0x53 => Some(Instruction(Opcode::SRE, AddressingMode::IndirectY)),
            0x54 => Some(Instruction(Opcode::IGN, AddressingMode::ZeroPageX)),
            0x55 => Some(Instruction(Opcode::EOR, AddressingMode::ZeroPageX)),
            0x56 => Some(Instruction(Opcode::LSR, AddressingMode::ZeroPageX)),
            0x57 => Some(Instruction(Opcode::SRE, AddressingMode::ZeroPageX)),
            0x58 => Some(Instruction(Opcode::CLI, AddressingMode::Implied)),
            0x59 => Some(Instruction(Opcode::EOR, AddressingMode::AbsoluteY)),
            0x5b => Some(Instruction(Opcode::SRE, AddressingMode::AbsoluteY)),
            0x5c => Some(Instruction(Opcode::IGN, AddressingMode::AbsoluteX)),
            0x5d => Some(Instruction(Opcode::EOR, AddressingMode::AbsoluteX)),
            0x5e => Some(Instruction(Opcode::LSR, AddressingMode::AbsoluteX)),
            0x5f => Some(Instruction(Opcode::SRE, AddressingMode::AbsoluteX)),
            0x60 => Some(Instruction(Opcode::RTS, AddressingMode::Implied)),
            0x61 => Some(Instruction(Opcode::ADC, AddressingMode::IndirectX)),
            0x63 => Some(Instruction(Opcode::RRA, AddressingMode::IndirectX)),
            0x64 => Some(Instruction(Opcode::IGN, AddressingMode::ZeroPage)),
            0x65 => Some(Instruction(Opcode::ADC, AddressingMode::ZeroPage)),
            0x66 => Some(Instruction(Opcode::ROR, AddressingMode::ZeroPage)),
            0x67 => Some(Instruction(Opcode::RRA, AddressingMode::ZeroPage)),
            0x68 => Some(Instruction(Opcode::PLA, AddressingMode::Implied)),
            0x69 => Some(Instruction(Opcode::ADC, AddressingMode::Immediate)),
            0x6a => Some(Instruction(Opcode::ROR, AddressingMode::Accumulator)),
            0x6b => Some(Instruction(Opcode::ARR, AddressingMode::Immediate)),
            0x6c => Some(Instruction(Opcode::JMP, AddressingMode::Indirect)),
            0x6d => Some(Instruction(Opcode::ADC, AddressingMode::Absolute)),
            0x6e => Some(Instruction(Opcode::ROR, AddressingMode::Absolute)),
            0x6f => Some(Instruction(Opcode::RRA, AddressingMode::Absolute)),
            0x70 => Some(Instruction(Opcode::BVS, AddressingMode::Relative)),
            0x71 => Some(Instruction(Opcode::ADC, AddressingMode::IndirectY)),
            0x73 => Some(Instruction(Opcode::RRA, AddressingMode::IndirectY)),
            0x74 => Some(Instruction(Opcode::IGN, AddressingMode::ZeroPageX)),
            0x75 => Some(Instruction(Opcode::ADC, AddressingMode::ZeroPageX)),
            0x76 => Some(Instruction(Opcode::ROR, AddressingMode::ZeroPageX)),
            0x77 => Some(Instruction(Opcode::RRA, AddressingMode::ZeroPageX)),
            0x78 => Some(Instruction(Opcode::SEI, AddressingMode::Implied)),
            0x79 => Some(Instruction(Opcode::ADC, AddressingMode::AbsoluteY)),
            0x7b => Some(Instruction(Opcode::RRA, AddressingMode::AbsoluteY)),
            0x7c => Some(Instruction(Opcode::IGN, AddressingMode::AbsoluteX)),
            0x7d => Some(Instruction(Opcode::ADC, AddressingMode::AbsoluteX)),
            0x7e => Some(Instruction(Opcode::ROR, AddressingMode::AbsoluteX)),
            0x7f => Some(Instruction(Opcode::RRA, AddressingMode::AbsoluteX)),
            0x80 => Some(Instruction(Opcode::SKB, AddressingMode::Immediate)),
            0x81 => Some(Instruction(Opcode::STA, AddressingMode::IndirectX)),
            0x82 => Some(Instruction(Opcode::SKB, AddressingMode::Immediate)),
            0x83 => Some(Instruction(Opcode::SAX, AddressingMode::IndirectX)),
            0x84 => Some(Instruction(Opcode::STY, AddressingMode::ZeroPage)),
            0x85 => Some(Instruction(Opcode::STA, AddressingMode::ZeroPage)),
            0x86 => Some(Instruction(Opcode::STX, AddressingMode::ZeroPage)),
            0x87 => Some(Instruction(Opcode::SAX, AddressingMode::ZeroPage)),
            0x88 => Some(Instruction(Opcode::DEY, AddressingMode::Implied)),
            0x89 => Some(Instruction(Opcode::SKB, AddressingMode::Immediate)),
            0x8a => Some(Instruction(Opcode::TXA, AddressingMode::Implied)),
            0x8d => Some(Instruction(Opcode::STA, AddressingMode::Absolute)),
            0x8f => Some(Instruction(Opcode::SAX, AddressingMode::Absolute)),
            0x90 => Some(Instruction(Opcode::BCC, AddressingMode::Relative)),
            0x91 => Some(Instruction(Opcode::STA, AddressingMode::IndirectY)),
            0x95 => Some(Instruction(Opcode::STA, AddressingMode::ZeroPageX)),
            0x97 => Some(Instruction(Opcode::SAX, AddressingMode::ZeroPageY)),
            0x98 => Some(Instruction(Opcode::TYA, AddressingMode::Implied)),
            0x99 => Some(Instruction(Opcode::STA, AddressingMode::AbsoluteY)),
            0x9a => Some(Instruction(Opcode::TXS, AddressingMode::Implied)),
            0x9d => Some(Instruction(Opcode::STA, AddressingMode::AbsoluteX)),
            0xa0 => Some(Instruction(Opcode::LDY, AddressingMode::Immediate)),
            0xa1 => Some(Instruction(Opcode::LDA, AddressingMode::IndirectX)),
            0xa2 => Some(Instruction(Opcode::LDX, AddressingMode::Immediate)),
            0xa3 => Some(Instruction(Opcode::LAX, AddressingMode::IndirectX)),
            0xa4 => Some(Instruction(Opcode::LDY, AddressingMode::ZeroPage)),
            0xa5 => Some(Instruction(Opcode::LDA, AddressingMode::ZeroPage)),
            0xa6 => Some(Instruction(Opcode::LDX, AddressingMode::ZeroPage)),
            0xa7 => Some(Instruction(Opcode::LAX, AddressingMode::ZeroPage)),
            0xa8 => Some(Instruction(Opcode::TAY, AddressingMode::Implied)),
            0xa9 => Some(Instruction(Opcode::LDA, AddressingMode::Immediate)),
            0xaa => Some(Instruction(Opcode::TAX, AddressingMode::Implied)),
            0xac => Some(Instruction(Opcode::LDY, AddressingMode::Absolute)),
            0xad => Some(Instruction(Opcode::LDA, AddressingMode::Absolute)),
            0xae => Some(Instruction(Opcode::LDX, AddressingMode::Absolute)),
            0xaf => Some(Instruction(Opcode::LAX, AddressingMode::Absolute)),
            0xb0 => Some(Instruction(Opcode::BCS, AddressingMode::Relative)),
            0xb1 => Some(Instruction(Opcode::LDA, AddressingMode::IndirectY)),
            0xb3 => Some(Instruction(Opcode::LAX, AddressingMode::IndirectY)),
            0xb4 => Some(Instruction(Opcode::LDY, AddressingMode::ZeroPageY)),
            0xb5 => Some(Instruction(Opcode::LDA, AddressingMode::ZeroPageX)),
            0xb6 => Some(Instruction(Opcode::LDX, AddressingMode::ZeroPageX)),
            0xb7 => Some(Instruction(Opcode::LAX, AddressingMode::ZeroPageY)),
            0xb8 => Some(Instruction(Opcode::CLV, AddressingMode::Implied)),
            0xb9 => Some(Instruction(Opcode::LDA, AddressingMode::AbsoluteY)),
            0xba => Some(Instruction(Opcode::TSX, AddressingMode::Implied)),
            0xbc => Some(Instruction(Opcode::LDY, AddressingMode::AbsoluteX)),
            0xbd => Some(Instruction(Opcode::LDA, AddressingMode::AbsoluteX)),
            0xbe => Some(Instruction(Opcode::LDX, AddressingMode::AbsoluteY)),
            0xbf => Some(Instruction(Opcode::LAX, AddressingMode::AbsoluteY)),
            0xc0 => Some(Instruction(Opcode::CPY, AddressingMode::Immediate)),
            0xc1 => Some(Instruction(Opcode::CMP, AddressingMode::IndirectX)),
            0xc2 => Some(Instruction(Opcode::SKB, AddressingMode::Immediate)),
            0xc3 => Some(Instruction(Opcode::DCP, AddressingMode::IndirectX)),
            0xc4 => Some(Instruction(Opcode::CPY, AddressingMode::ZeroPage)),
            0xc5 => Some(Instruction(Opcode::CMP, AddressingMode::ZeroPage)),
            0xc6 => Some(Instruction(Opcode::DEC, AddressingMode::ZeroPage)),
            0xc7 => Some(Instruction(Opcode::DCP, AddressingMode::ZeroPage)),
            0xc8 => Some(Instruction(Opcode::INY, AddressingMode::Implied)),
            0xc9 => Some(Instruction(Opcode::CMP, AddressingMode::Immediate)),
            0xca => Some(Instruction(Opcode::DEX, AddressingMode::Implied)),
            0xcb => Some(Instruction(Opcode::AXS, AddressingMode::Immediate)),
            0xcc => Some(Instruction(Opcode::CPY, AddressingMode::Absolute)),
            0xcd => Some(Instruction(Opcode::CMP, AddressingMode::Absolute)),
            0xce => Some(Instruction(Opcode::DEC, AddressingMode::Absolute)),
            0xcf => Some(Instruction(Opcode::DCP, AddressingMode::Absolute)),
            0xd0 => Some(Instruction(Opcode::BNE, AddressingMode::Relative)),
            0xd1 => Some(Instruction(Opcode::CMP, AddressingMode::IndirectY)),
            0xd3 => Some(Instruction(Opcode::DCP, AddressingMode::IndirectY)),
            0xd4 => Some(Instruction(Opcode::IGN, AddressingMode::ZeroPageX)),
            0xd5 => Some(Instruction(Opcode::CMP, AddressingMode::ZeroPageX)),
            0xd6 => Some(Instruction(Opcode::DEC, AddressingMode::ZeroPageX)),
            0xd7 => Some(Instruction(Opcode::DCP, AddressingMode::ZeroPageX)),
            0xd8 => Some(Instruction(Opcode::CLD, AddressingMode::Implied)),
            0xd9 => Some(Instruction(Opcode::CMP, AddressingMode::AbsoluteY)),
            0xdb => Some(Instruction(Opcode::DCP, AddressingMode::AbsoluteY)),
            0xdc => Some(Instruction(Opcode::IGN, AddressingMode::AbsoluteX)),
            0xdd => Some(Instruction(Opcode::CMP, AddressingMode::AbsoluteX)),
            0xde => Some(Instruction(Opcode::DEC, AddressingMode::AbsoluteX)),
            0xdf => Some(Instruction(Opcode::DCP, AddressingMode::AbsoluteX)),
            0xe0 => Some(Instruction(Opcode::CPX, AddressingMode::Immediate)),
            0xe1 => Some(Instruction(Opcode::SBC, AddressingMode::IndirectX)),
            0xe2 => Some(Instruction(Opcode::SKB, AddressingMode::Immediate)),
            0xe3 => Some(Instruction(Opcode::ISC, AddressingMode::IndirectX)),
            0xe4 => Some(Instruction(Opcode::CPX, AddressingMode::ZeroPage)),
            0xe5 => Some(Instruction(Opcode::SBC, AddressingMode::ZeroPage)),
            0xe6 => Some(Instruction(Opcode::INC, AddressingMode::ZeroPage)),
            0xe7 => Some(Instruction(Opcode::ISC, AddressingMode::ZeroPage)),
            0xe8 => Some(Instruction(Opcode::INX, AddressingMode::Implied)),
            0xe9 => Some(Instruction(Opcode::SBC, AddressingMode::Immediate)),
            0xea => Some(Instruction(Opcode::NOP, AddressingMode::Implied)),
            0xec => Some(Instruction(Opcode::CPX, AddressingMode::Absolute)),
            0xed => Some(Instruction(Opcode::SBC, AddressingMode::Absolute)),
            0xee => Some(Instruction(Opcode::INC, AddressingMode::Absolute)),
            0xef => Some(Instruction(Opcode::ISC, AddressingMode::Absolute)),
            0xf0 => Some(Instruction(Opcode::BEQ, AddressingMode::Relative)),
            0xf1 => Some(Instruction(Opcode::SBC, AddressingMode::IndirectY)),
            0xf3 => Some(Instruction(Opcode::ISC, AddressingMode::IndirectY)),
            0xf4 => Some(Instruction(Opcode::IGN, AddressingMode::ZeroPageX)),
            0xf5 => Some(Instruction(Opcode::SBC, AddressingMode::ZeroPageX)),
            0xf6 => Some(Instruction(Opcode::INC, AddressingMode::ZeroPageX)),
            0xf7 => Some(Instruction(Opcode::ISC, AddressingMode::ZeroPageX)),
            0xf8 => Some(Instruction(Opcode::SED, AddressingMode::Implied)),
            0xf9 => Some(Instruction(Opcode::SBC, AddressingMode::AbsoluteY)),
            0xfb => Some(Instruction(Opcode::ISC, AddressingMode::AbsoluteY)),
            0xfc => Some(Instruction(Opcode::IGN, AddressingMode::AbsoluteX)),
            0xfd => Some(Instruction(Opcode::SBC, AddressingMode::AbsoluteX)),
            0xfe => Some(Instruction(Opcode::INC, AddressingMode::AbsoluteX)),
            0xff => Some(Instruction(Opcode::ISC, AddressingMode::AbsoluteX)),
            _ => None,
        }
    }
}

} // verus!
