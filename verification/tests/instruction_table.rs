use nesemu::nes::cpu::instructions::Access;
use nesemu::nes::cpu::instructions::AddressingMode;
use nesemu::nes::cpu::instructions::Instruction;
use nesemu::nes::cpu::instructions::InstructionVariant;
use nesemu::nes::cpu::Cpu;

fn row(opcode: u8) -> (InstructionVariant, AddressingMode, u8, u8) {
    let found = Instruction::lookup(opcode).unwrap();
    (found.variant, found.mode, found.length, found.cycles)
}

#[test]
fn table_holds_227_opcodes() {
    let known = (0..=255u8).filter(|op| Instruction::lookup(*op).is_some()).count();
    assert_eq!(known, 227);
}

#[test]
fn documented_rows() {
    assert_eq!(row(0x69), (InstructionVariant::ADC, AddressingMode::Immediate, 2, 2));
    assert_eq!(row(0x7D), (InstructionVariant::ADC, AddressingMode::AbsoluteX, 3, 4));
    assert_eq!(row(0x0A), (InstructionVariant::ASL, AddressingMode::Accumulator, 1, 2));
    assert_eq!(row(0x1E), (InstructionVariant::ASL, AddressingMode::AbsoluteX, 3, 7));
    assert_eq!(row(0x00), (InstructionVariant::BRK, AddressingMode::Implied, 1, 7));
    assert_eq!(row(0x4C), (InstructionVariant::JMP, AddressingMode::Absolute, 3, 3));
    assert_eq!(row(0x6C), (InstructionVariant::JMP, AddressingMode::Indirect, 3, 5));
    assert_eq!(row(0x20), (InstructionVariant::JSR, AddressingMode::Absolute, 3, 6));
    assert_eq!(row(0x60), (InstructionVariant::RTS, AddressingMode::Implied, 1, 6));
    assert_eq!(row(0x40), (InstructionVariant::RTI, AddressingMode::Implied, 1, 6));
    assert_eq!(row(0xB1), (InstructionVariant::LDA, AddressingMode::IndirectY, 2, 5));
    assert_eq!(row(0xA1), (InstructionVariant::LDA, AddressingMode::IndirectX, 2, 6));
    assert_eq!(row(0xB6), (InstructionVariant::LDX, AddressingMode::ZeroPageY, 2, 4));
    assert_eq!(row(0x91), (InstructionVariant::STA, AddressingMode::IndirectY, 2, 6));
    assert_eq!(row(0x9D), (InstructionVariant::STA, AddressingMode::AbsoluteX, 3, 5));
    assert_eq!(row(0xF0), (InstructionVariant::BEQ, AddressingMode::Relative, 2, 2));
    assert_eq!(row(0xEA), (InstructionVariant::NOP, AddressingMode::Implied, 1, 2));
    assert_eq!(row(0x48), (InstructionVariant::PHA, AddressingMode::Implied, 1, 3));
    assert_eq!(row(0x68), (InstructionVariant::PLA, AddressingMode::Implied, 1, 4));
    assert_eq!(row(0xC9), (InstructionVariant::CMP, AddressingMode::Immediate, 2, 2));
}

#[test]
fn undocumented_rows() {
    assert_eq!(row(0xA7), (InstructionVariant::LAX, AddressingMode::ZeroPage, 2, 3));
    assert_eq!(row(0xB3), (InstructionVariant::LAX, AddressingMode::IndirectY, 2, 5));
    assert_eq!(row(0x83), (InstructionVariant::SAX, AddressingMode::IndirectX, 2, 6));
    assert_eq!(row(0xEB), (InstructionVariant::SBC, AddressingMode::Immediate, 2, 2));
    assert_eq!(row(0xC3), (InstructionVariant::DCP, AddressingMode::IndirectX, 2, 8));
    assert_eq!(row(0xFF), (InstructionVariant::ISB, AddressingMode::AbsoluteX, 3, 7));
    assert_eq!(row(0x1B), (InstructionVariant::SLO, AddressingMode::AbsoluteY, 3, 7));
    assert_eq!(row(0x27), (InstructionVariant::RLA, AddressingMode::ZeroPage, 2, 5));
    assert_eq!(row(0x57), (InstructionVariant::SRE, AddressingMode::ZeroPageX, 2, 6));
    assert_eq!(row(0x6F), (InstructionVariant::RRA, AddressingMode::Absolute, 3, 6));
}

#[test]
fn undocumented_nops_cost_what_their_mode_costs() {
    for opcode in [0x04u8, 0x44, 0x64] {
        assert_eq!(row(opcode), (InstructionVariant::NOP, AddressingMode::ZeroPage, 2, 3));
    }
    assert_eq!(row(0x0C), (InstructionVariant::NOP, AddressingMode::Absolute, 3, 4));
    for opcode in [0x14u8, 0x34, 0x54, 0x74, 0xD4, 0xF4] {
        assert_eq!(row(opcode), (InstructionVariant::NOP, AddressingMode::ZeroPageX, 2, 4));
    }
    for opcode in [0x1Cu8, 0x3C, 0x5C, 0x7C, 0xDC, 0xFC] {
        assert_eq!(row(opcode), (InstructionVariant::NOP, AddressingMode::AbsoluteX, 3, 4));
    }
    for opcode in [0x1Au8, 0x3A, 0x5A, 0x7A, 0xDA, 0xFA] {
        assert_eq!(row(opcode), (InstructionVariant::NOP, AddressingMode::Implied, 1, 2));
    }
    assert_eq!(row(0x80), (InstructionVariant::NOP, AddressingMode::Immediate, 2, 2));
}

#[test]
fn bytes_without_an_instruction() {
    for opcode in [0x02u8, 0x0B, 0x12, 0x22, 0x8B, 0x9C, 0xAB, 0xF2] {
        assert_eq!(Instruction::lookup(opcode), None);
    }
}

#[test]
fn every_row_is_as_long_as_its_mode() {
    for opcode in 0..=255u8 {
        if let Some(found) = Instruction::lookup(opcode) {
            assert_eq!(found.length, found.mode.length());
            assert!((2..=8).contains(&found.cycles));
        }
    }
}

#[test]
fn mode_lengths() {
    assert_eq!(AddressingMode::Implied.length(), 1);
    assert_eq!(AddressingMode::Accumulator.length(), 1);
    assert_eq!(AddressingMode::Immediate.length(), 2);
    assert_eq!(AddressingMode::Relative.length(), 2);
    assert_eq!(AddressingMode::ZeroPage.length(), 2);
    assert_eq!(AddressingMode::ZeroPageX.length(), 2);
    assert_eq!(AddressingMode::ZeroPageY.length(), 2);
    assert_eq!(AddressingMode::IndirectX.length(), 2);
    assert_eq!(AddressingMode::IndirectY.length(), 2);
    assert_eq!(AddressingMode::Absolute.length(), 3);
    assert_eq!(AddressingMode::AbsoluteX.length(), 3);
    assert_eq!(AddressingMode::AbsoluteY.length(), 3);
    assert_eq!(AddressingMode::Indirect.length(), 3);
}

#[test]
fn decode_gives_the_row_of_a_known_opcode() {
    let found = Cpu::decode(0xA9);
    assert_eq!(found.variant, InstructionVariant::LDA);
    assert_eq!(found.mode, AddressingMode::Immediate);
    assert_eq!(found.length, 2);
    assert_eq!(found.cycles, 2);
}

#[test]
fn access_kinds() {
    assert_eq!(InstructionVariant::LDA.operand_access(), Access::Read);
    assert_eq!(InstructionVariant::CMP.operand_access(), Access::Read);
    assert_eq!(InstructionVariant::BIT.operand_access(), Access::Read);
    assert_eq!(InstructionVariant::STA.operand_access(), Access::Write);
    assert_eq!(InstructionVariant::SAX.operand_access(), Access::Write);
    assert_eq!(InstructionVariant::INC.operand_access(), Access::Modify);
    assert_eq!(InstructionVariant::RRA.operand_access(), Access::Modify);
    assert_eq!(InstructionVariant::JMP.operand_access(), Access::Nothing);
    assert_eq!(InstructionVariant::NOP.operand_access(), Access::Nothing);
    assert_eq!(InstructionVariant::BEQ.operand_access(), Access::Nothing);
}

#[test]
fn jumps_and_returns_set_the_program_counter() {
    assert!(InstructionVariant::JMP.is_jump());
    assert!(InstructionVariant::JSR.is_jump());
    assert!(InstructionVariant::RTS.is_jump());
    assert!(InstructionVariant::RTI.is_jump());
    assert!(!InstructionVariant::BNE.is_jump());
    assert!(!InstructionVariant::BRK.is_jump());
    assert!(!InstructionVariant::LDA.is_jump());
}
