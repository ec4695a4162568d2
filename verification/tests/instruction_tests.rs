use nes_core::instruction::{Instruction, Opcode, AddressingMode};

#[test]
fn decode_covers_documented_opcodes() {
    assert_eq!(
        Instruction::from(0x69),
        Some(Instruction(Opcode::ADC, AddressingMode::Immediate))
    );
    assert_eq!(
        Instruction::from(0x4c),
        Some(Instruction(Opcode::JMP, AddressingMode::Absolute))
    );
    assert_eq!(
        Instruction::from(0x6c),
        Some(Instruction(Opcode::JMP, AddressingMode::Indirect))
    );
    assert_eq!(Instruction::from(0x00), Some(Instruction(Opcode::BRK, AddressingMode::Implied)));
    assert_eq!(Instruction::from(0xea), Some(Instruction(Opcode::NOP, AddressingMode::Implied)));
    assert_eq!(
        Instruction::from(0xb1),
        Some(Instruction(Opcode::LDA, AddressingMode::IndirectY))
    );
    assert_eq!(
        Instruction::from(0x91),
        Some(Instruction(Opcode::STA, AddressingMode::IndirectY))
    );
}

#[test]
fn decode_covers_undocumented_opcodes() {
    assert_eq!(Instruction::from(0x4b), Some(Instruction(Opcode::ALR, AddressingMode::Immediate)));
    assert_eq!(Instruction::from(0xa3), Some(Instruction(Opcode::LAX, AddressingMode::IndirectX)));
    assert_eq!(Instruction::from(0xdb), Some(Instruction(Opcode::DCP, AddressingMode::AbsoluteY)));
    assert_eq!(Instruction::from(0xff), Some(Instruction(Opcode::ISC, AddressingMode::AbsoluteX)));
    assert_eq!(Instruction::from(0x80), Some(Instruction(Opcode::SKB, AddressingMode::Immediate)));
    assert_eq!(Instruction::from(0x0c), Some(Instruction(Opcode::IGN, AddressingMode::Absolute)));
}

#[test]
fn decode_rejects_unmapped_bytes() {
    for code in [0x02u8, 0x12, 0x22, 0x32, 0x42, 0x52, 0x62, 0x72, 0x92, 0xb2, 0xd2, 0xf2] {
        assert_eq!(Instruction::from(code), None);
    }
}

#[test]
fn every_byte_decodes_consistently_with_itself() {
    // The table is a function: decoding twice gives the same entry.
    for code in 0..=255u8 {
        assert_eq!(Instruction::from(code), Instruction::from(code));
    }
}
