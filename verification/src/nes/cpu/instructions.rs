//! The instruction set: addressing modes, instruction variants and the table
//! that maps an opcode byte to the instruction it encodes.

use vstd::prelude::*;

verus! {

/// Base cycle cost of an instruction.
pub type Cycles = u8;

/// Encoded length of an instruction in bytes, opcode included.
pub type Length = u8;

/// How an instruction finds its operand.
#[derive(Debug, Clone, Copy, PartialEq, Eq, Structural)]
pub enum AddressingMode {
    /// A signed displacement from the next instruction (branches).
    Relative,
    /// No operand.
    Implied,
    /// The operand word points at the word to jump to.
    Indirect,
    /// The operand is the accumulator.
    Accumulator,
    /// The operand is the byte after the opcode.
    Immediate,
    /// The operand byte is an address in page zero.
    ZeroPage,
    /// Page-zero address plus X, wrapping inside page zero.
    ZeroPageX,
    /// Page-zero address plus Y, wrapping inside page zero.
    ZeroPageY,
    /// The operand word is the address.
    Absolute,
    /// Operand word plus X.
    AbsoluteX,
    /// Operand word plus Y.
    AbsoluteY,
    /// The operand byte plus X names a page-zero pointer to the address.
    IndirectX,
    /// The operand byte names a page-zero pointer; the address is that pointer plus Y.
    IndirectY,
}

/// What an instruction does, whatever its addressing mode.
#[allow(clippy::upper_case_acronyms)]
#[derive(Debug, Clone, Copy, PartialEq, Eq, Structural)]
pub enum InstructionVariant {
    /// Add memory and carry to the accumulator.
    ADC,
    /// Bitwise and of memory into the accumulator.
    AND,
    /// Shift left by one bit.
    ASL,
    /// Test bits of memory against the accumulator.
    BIT,
    /// Branch when negative is clear.
    BPL,
    /// Branch when negative is set.
    BMI,
    /// Branch when overflow is clear.
    BVC,
    /// Branch when overflow is set.
    BVS,
    /// Branch when carry is clear.
    BCC,
    /// Branch when carry is set.
    BCS,
    /// Branch when zero is clear.
    BNE,
    /// Branch when zero is set.
    BEQ,
    /// Software interrupt.
    BRK,
    /// Compare memory with the accumulator.
    CMP,
    /// Compare memory with X.
    CPX,
    /// Compare memory with Y.
    CPY,
    /// Decrement memory.
    DEC,
    /// Bitwise exclusive or of memory into the accumulator.
    EOR,
    /// Clear carry.
    CLC,
    /// Set carry.
    SEC,
    /// Clear interrupt-disable.
    CLI,
    /// Set interrupt-disable.
    SEI,
    /// Clear overflow.
    CLV,
    /// Clear decimal mode.
    CLD,
    /// Set decimal mode.
    SED,
    /// Increment memory.
    INC,
    /// Jump.
    JMP,
    /// Jump to subroutine.
    JSR,
    /// Load the accumulator.
    LDA,
    /// Load X.
    LDX,
    /// Load Y.
    LDY,
    /// Shift right by one bit.
    LSR,
    /// No operation.
    NOP,
    /// Bitwise or of memory into the accumulator.
    ORA,
    /// Copy the accumulator to X.
    TAX,
    /// Copy X to the accumulator.
    TXA,
    /// Decrement X.
    DEX,
    /// Increment X.
    INX,
    /// Copy the accumulator to Y.
    TAY,
    /// Copy Y to the accumulator.
    TYA,
    /// Decrement Y.
    DEY,
    /// Increment Y.
    INY,
    /// Rotate left through carry.
    ROL,
    /// Rotate right through carry.
    ROR,
    /// Return from interrupt.
    RTI,
    /// Return from subroutine.
    RTS,
    /// Subtract memory and borrow from the accumulator.
    SBC,
    /// Store the accumulator.
    STA,
    /// Copy X to the stack pointer.
    TXS,
    /// Copy the stack pointer to X.
    TSX,
    /// Push the accumulator.
    PHA,
    /// Pull the accumulator.
    PLA,
    /// Push the status byte.
    PHP,
    /// Pull the status byte.
    PLP,
    /// Store X.
    STX,
    /// Store Y.
    STY,
    /// Undocumented: load the accumulator and X together.
    LAX,
    /// Undocumented: store the accumulator and-ed with X.
    SAX,
    /// Undocumented: decrement memory, then compare.
    DCP,
    /// Undocumented: increment memory, then subtract.
    ISB,
    /// Undocumented: shift memory left, then or.
    SLO,
    /// Undocumented: rotate memory left, then and.
    RLA,
    /// Undocumented: shift memory right, then exclusive or.
    SRE,
    /// Undocumented: rotate memory right, then add.
    RRA,
}

/// What an instruction does with the byte at its effective address.
#[derive(Debug, Clone, Copy, PartialEq, Eq, Structural)]
pub enum Access {
    /// It does not touch it.
    Nothing,
    /// It reads it.
    Read,
    /// It writes it.
    Write,
    /// It reads it and writes it back changed.
    Modify,
}

/// One row of the instruction table.
#[derive(Debug, Clone, Copy, PartialEq, Eq, Structural)]
pub struct Instruction {
    pub variant: InstructionVariant,
    pub mode: AddressingMode,
    /// Bytes the instruction occupies, opcode included.
    pub length: Length,
    /// Cycles charged before any page-cross or branch penalty.
    pub cycles: Cycles,
}

impl AddressingMode {
    /// Bytes that an instruction with this mode occupies: the opcode and its operand.
    pub open spec fn encoded_length(self) -> Length {
        match self {
            AddressingMode::Implied | AddressingMode::Accumulator => 1,
            AddressingMode::Absolute
            | AddressingMode::AbsoluteX
            | AddressingMode::AbsoluteY
            | AddressingMode::Indirect => 3,
            _ => 2,
        }
    }

    /// Bytes that an instruction with this mode occupies: the opcode and its operand.
    pub fn length(self) -> (length: Length)
        ensures
            length == self.encoded_length(),
    {
        match self {
            AddressingMode::Implied | AddressingMode::Accumulator => 1,
            AddressingMode::Absolute
            | AddressingMode::AbsoluteX
            | AddressingMode::AbsoluteY
            | AddressingMode::Indirect => 3,
            _ => 2,
        }
    }
}

impl InstructionVariant {
    /// What the instruction does with the byte at its effective address.
    pub open spec fn access(self) -> Access {
        match self {
            InstructionVariant::ADC
            | InstructionVariant::AND
            | InstructionVariant::BIT
            | InstructionVariant::CMP
            | InstructionVariant::CPX
            | InstructionVariant::CPY
            | InstructionVariant::EOR
            | InstructionVariant::LDA
            | InstructionVariant::LDX
            | InstructionVariant::LDY
            | InstructionVariant::ORA
            | InstructionVariant::SBC
            | InstructionVariant::LAX => Access::Read,
            InstructionVariant::STA
            | InstructionVariant::STX
            | InstructionVariant::STY
            | InstructionVariant::SAX => Access::Write,
            InstructionVariant::ASL
            | InstructionVariant::LSR
            | InstructionVariant::ROL
            | InstructionVariant::ROR
            | InstructionVariant::INC
            | InstructionVariant::DEC
            | InstructionVariant::DCP
            | InstructionVariant::ISB
            | InstructionVariant::SLO
            | InstructionVariant::RLA
            | InstructionVariant::SRE
            | InstructionVariant::RRA => Access::Modify,
            _ => Access::Nothing,
        }
    }

    /// Whether the instruction leaves the program counter where execution goes
    /// on, so that it is not moved past the operand afterwards: the jumps and
    /// the returns.
    pub open spec fn sets_pc(self) -> bool {
        self == InstructionVariant::JMP || self == InstructionVariant::JSR || self
            == InstructionVariant::RTS || self == InstructionVariant::RTI
    }

    /// What the instruction does with the byte at its effective address.
    pub fn operand_access(self) -> (access: Access)
        ensures
            access == self.access(),
    {
        match self {
            InstructionVariant::ADC
            | InstructionVariant::AND
            | InstructionVariant::BIT
            | InstructionVariant::CMP
            | InstructionVariant::CPX
            | InstructionVariant::CPY
            | InstructionVariant::EOR
            | InstructionVariant::LDA
            | InstructionVariant::LDX
            | InstructionVariant::LDY
            | InstructionVariant::ORA
            | InstructionVariant::SBC
            | InstructionVariant::LAX => Access::Read,
            InstructionVariant::STA
            | InstructionVariant::STX
            | InstructionVariant::STY
            | InstructionVariant::SAX => Access::Write,
            InstructionVariant::ASL
            | InstructionVariant::LSR
            | InstructionVariant::ROL
            | InstructionVariant::ROR
            | InstructionVariant::INC
            | InstructionVariant::DEC
            | InstructionVariant::DCP
            | InstructionVariant::ISB
            | InstructionVariant::SLO
            | InstructionVariant::RLA
            | InstructionVariant::SRE
            | InstructionVariant::RRA => Access::Modify,
            _ => Access::Nothing,
        }
    }

    /// Whether the instruction leaves the program counter where execution goes on.
    pub fn is_jump(self) -> (jump: bool)
        ensures
            jump == self.sets_pc(),
    {
        match self {
            InstructionVariant::JMP
            | InstructionVariant::JSR
            | InstructionVariant::RTS
            | InstructionVariant::RTI => true,
            _ => false,
        }
    }
}

impl Instruction {
    /// The table row for `variant` in `mode` at a base cost of `cycles`.
    pub open spec fn row(
        variant: InstructionVariant,
        mode: AddressingMode,
        cycles: Cycles,
    ) -> Option<Instruction> {
        Some(Instruction { variant, mode, length: mode.encoded_length(), cycles })
    }

    /// The instruction that `opcode` encodes, if it encodes one: the 151 documented
    /// opcodes and the undocumented ones that programs rely on.
    pub open spec fn encoded_by(opcode: u8) -> Option<Instruction> {
        match opcode {
            0x69 => Self::row(InstructionVariant::ADC, AddressingMode::Immediate, 2),
            0x65 => Self::row(InstructionVariant::ADC, AddressingMode::ZeroPage, 3),
            0x75 => Self::row(InstructionVariant::ADC, AddressingMode::ZeroPageX, 4),
            0x6D => Self::row(InstructionVariant::ADC, AddressingMode::Absolute, 4),
            0x7D => Self::row(InstructionVariant::ADC, AddressingMode::AbsoluteX, 4),
            0x79 => Self::row(InstructionVariant::ADC, AddressingMode::AbsoluteY, 4),
            0x61 => Self::row(InstructionVariant::ADC, AddressingMode::IndirectX, 6),
            0x71 => Self::row(InstructionVariant::ADC, AddressingMode::IndirectY, 5),
            0x29 => Self::row(InstructionVariant::AND, AddressingMode::Immediate, 2),
            0x25 => Self::row(InstructionVariant::AND, AddressingMode::ZeroPage, 3),
            0x35 => Self::row(InstructionVariant::AND, AddressingMode::ZeroPageX, 4),
            0x2D => Self::row(InstructionVariant::AND, AddressingMode::Absolute, 4),
            0x3D => Self::row(InstructionVariant::AND, AddressingMode::AbsoluteX, 4),
            0x39 => Self::row(InstructionVariant::AND, AddressingMode::AbsoluteY, 4),
            0x21 => Self::row(InstructionVariant::AND, AddressingMode::IndirectX, 6),
            0x31 => Self::row(InstructionVariant::AND, AddressingMode::IndirectY, 5),
            0x0A => Self::row(InstructionVariant::ASL, AddressingMode::Accumulator, 2),
            0x06 => Self::row(InstructionVariant::ASL, AddressingMode::ZeroPage, 5),
            0x16 => Self::row(InstructionVariant::ASL, AddressingMode::ZeroPageX, 6),
            0x0E => Self::row(InstructionVariant::ASL, AddressingMode::Absolute, 6),
            0x1E => Self::row(InstructionVariant::ASL, AddressingMode::AbsoluteX, 7),
            0x24 => Self::row(InstructionVariant::BIT, AddressingMode::ZeroPage, 3),
            0x2C => Self::row(InstructionVariant::BIT, AddressingMode::Absolute, 4),
            0x10 => Self::row(InstructionVariant::BPL, AddressingMode::Relative, 2),
            0x30 => Self::row(InstructionVariant::BMI, AddressingMode::Relative, 2),
            0x50 => Self::row(InstructionVariant::BVC, AddressingMode::Relative, 2),
            0x70 => Self::row(InstructionVariant::BVS, AddressingMode::Relative, 2),
            0x90 => Self::row(InstructionVariant::BCC, AddressingMode::Relative, 2),
            0xB0 => Self::row(InstructionVariant::BCS, AddressingMode::Relative, 2),
            0xD0 => Self::row(InstructionVariant::BNE, AddressingMode::Relative, 2),
            0xF0 => Self::row(InstructionVariant::BEQ, AddressingMode::Relative, 2),
            0x00 => Self::row(InstructionVariant::BRK, AddressingMode::Implied, 7),
            0xC9 => Self::row(InstructionVariant::CMP, AddressingMode::Immediate, 2),
            0xC5 => Self::row(InstructionVariant::CMP, AddressingMode::ZeroPage, 3),
            0xD5 => Self::row(InstructionVariant::CMP, AddressingMode::ZeroPageX, 4),
            0xCD => Self::row(InstructionVariant::CMP, AddressingMode::Absolute, 4),
            0xDD => Self::row(InstructionVariant::CMP, AddressingMode::AbsoluteX, 4),
            0xD9 => Self::row(InstructionVariant::CMP, AddressingMode::AbsoluteY, 4),
            0xC1 => Self::row(InstructionVariant::CMP, AddressingMode::IndirectX, 6),
            0xD1 => Self::row(InstructionVariant::CMP, AddressingMode::IndirectY, 5),
            0xE0 => Self::row(InstructionVariant::CPX, AddressingMode::Immediate, 2),
            0xE4 => Self::row(InstructionVariant::CPX, AddressingMode::ZeroPage, 3),
            0xEC => Self::row(InstructionVariant::CPX, AddressingMode::Absolute, 4),
            0xC0 => Self::row(InstructionVariant::CPY, AddressingMode::Immediate, 2),
            0xC4 => Self::row(InstructionVariant::CPY, AddressingMode::ZeroPage, 3),
            0xCC => Self::row(InstructionVariant::CPY, AddressingMode::Absolute, 4),
            0xC6 => Self::row(InstructionVariant::DEC, AddressingMode::ZeroPage, 5),
            0xD6 => Self::row(InstructionVariant::DEC, AddressingMode::ZeroPageX, 6),
            0xCE => Self::row(InstructionVariant::DEC, AddressingMode::Absolute, 6),
            0xDE => Self::row(InstructionVariant::DEC, AddressingMode::AbsoluteX, 7),
            0x49 => Self::row(InstructionVariant::EOR, AddressingMode::Immediate, 2),
            0x45 => Self::row(InstructionVariant::EOR, AddressingMode::ZeroPage, 3),
            0x55 => Self::row(InstructionVariant::EOR, AddressingMode::ZeroPageX, 4),
            0x4D => Self::row(InstructionVariant::EOR, AddressingMode::Absolute, 4),
            0x5D => Self::row(InstructionVariant::EOR, AddressingMode::AbsoluteX, 4),
            0x59 => Self::row(InstructionVariant::EOR, AddressingMode::AbsoluteY, 4),
            0x41 => Self::row(InstructionVariant::EOR, AddressingMode::IndirectX, 6),
            0x51 => Self::row(InstructionVariant::EOR, AddressingMode::IndirectY, 5),
            0x18 => Self::row(InstructionVariant::CLC, AddressingMode::Implied, 2),
            0x38 => Self::row(InstructionVariant::SEC, AddressingMode::Implied, 2),
            0x58 => Self::row(InstructionVariant::CLI, AddressingMode::Implied, 2),
            0x78 => Self::row(InstructionVariant::SEI, AddressingMode::Implied, 2),
            0xB8 => Self::row(InstructionVariant::CLV, AddressingMode::Implied, 2),
            0xD8 => Self::row(InstructionVariant::CLD, AddressingMode::Implied, 2),
            0xF8 => Self::row(InstructionVariant::SED, AddressingMode::Implied, 2),
            0xE6 => Self::row(InstructionVariant::INC, AddressingMode::ZeroPage, 5),
            0xF6 => Self::row(InstructionVariant::INC, AddressingMode::ZeroPageX, 6),
            0xEE => Self::row(InstructionVariant::INC, AddressingMode::Absolute, 6),
            0xFE => Self::row(InstructionVariant::INC, AddressingMode::AbsoluteX, 7),
            0x4C => Self::row(InstructionVariant::JMP, AddressingMode::Absolute, 3),
            0x6C => Self::row(InstructionVariant::JMP, AddressingMode::Indirect, 5),
            0x20 => Self::row(InstructionVariant::JSR, AddressingMode::Absolute, 6),
            0xA9 => Self::row(InstructionVariant::LDA, AddressingMode::Immediate, 2),
            0xA5 => Self::row(InstructionVariant::LDA, AddressingMode::ZeroPage, 3),
            0xB5 => Self::row(InstructionVariant::LDA, AddressingMode::ZeroPageX, 4),
            0xAD => Self::row(InstructionVariant::LDA, AddressingMode::Absolute, 4),
            0xBD => Self::row(InstructionVariant::LDA, AddressingMode::AbsoluteX, 4),
            0xB9 => Self::row(InstructionVariant::LDA, AddressingMode::AbsoluteY, 4),
            0xA1 => Self::row(InstructionVariant::LDA, AddressingMode::IndirectX, 6),
            0xB1 => Self::row(InstructionVariant::LDA, AddressingMode::IndirectY, 5),
            0xA2 => Self::row(InstructionVariant::LDX, AddressingMode::Immediate, 2),
            0xA6 => Self::row(InstructionVariant::LDX, AddressingMode::ZeroPage, 3),
            0xB6 => Self::row(InstructionVariant::LDX, AddressingMode::ZeroPageY, 4),
            0xAE => Self::row(InstructionVariant::LDX, AddressingMode::Absolute, 4),
            0xBE => Self::row(InstructionVariant::LDX, AddressingMode::AbsoluteY, 4),
            0xA0 => Self::row(InstructionVariant::LDY, AddressingMode::Immediate, 2),
            0xA4 => Self::row(InstructionVariant::LDY, AddressingMode::ZeroPage, 3),
            0xB4 => Self::row(InstructionVariant::LDY, AddressingMode::ZeroPageX, 4),
            0xAC => Self::row(InstructionVariant::LDY, AddressingMode::Absolute, 4),
            0xBC => Self::row(InstructionVariant::LDY, AddressingMode::AbsoluteX, 4),
            0x4A => Self::row(InstructionVariant::LSR, AddressingMode::Accumulator, 2),
            0x46 => Self::row(InstructionVariant::LSR, AddressingMode::ZeroPage, 5),
            0x56 => Self::row(InstructionVariant::LSR, AddressingMode::ZeroPageX, 6),
            0x4E => Self::row(InstructionVariant::LSR, AddressingMode::Absolute, 6),
            0x5E => Self::row(InstructionVariant::LSR, AddressingMode::AbsoluteX, 7),
            0xEA => Self::row(InstructionVariant::NOP, AddressingMode::Implied, 2),
            0x09 => Self::row(InstructionVariant::ORA, AddressingMode::Immediate, 2),
            0x05 => Self::row(InstructionVariant::ORA, AddressingMode::ZeroPage, 3),
            0x15 => Self::row(InstructionVariant::ORA, AddressingMode::ZeroPageX, 4),
            0x0D => Self::row(InstructionVariant::ORA, AddressingMode::Absolute, 4),
            0x1D => Self::row(InstructionVariant::ORA, AddressingMode::AbsoluteX, 4),
            0x19 => Self::row(InstructionVariant::ORA, AddressingMode::AbsoluteY, 4),
            0x01 => Self::row(InstructionVariant::ORA, AddressingMode::IndirectX, 6),
            0x11 => Self::row(InstructionVariant::ORA, AddressingMode::IndirectY, 5),
            0xAA => Self::row(InstructionVariant::TAX, AddressingMode::Implied, 2),
            0x8A => Self::row(InstructionVariant::TXA, AddressingMode::Implied, 2),
            0xCA => Self::row(InstructionVariant::DEX, AddressingMode::Implied, 2),
            0xE8 => Self::row(InstructionVariant::INX, AddressingMode::Implied, 2),
            0xA8 => Self::row(InstructionVariant::TAY, AddressingMode::Implied, 2),
            0x98 => Self::row(InstructionVariant::TYA, AddressingMode::Implied, 2),
            0x88 => Self::row(InstructionVariant::DEY, AddressingMode::Implied, 2),
            0xC8 => Self::row(InstructionVariant::INY, AddressingMode::Implied, 2),
            0x2A => Self::row(InstructionVariant::ROL, AddressingMode::Accumulator, 2),
            0x26 => Self::row(InstructionVariant::ROL, AddressingMode::ZeroPage, 5),
            0x36 => Self::row(InstructionVariant::ROL, AddressingMode::ZeroPageX, 6),
            0x2E => Self::row(InstructionVariant::ROL, AddressingMode::Absolute, 6),
            0x3E => Self::row(InstructionVariant::ROL, AddressingMode::AbsoluteX, 7),
            0x6A => Self::row(InstructionVariant::ROR, AddressingMode::Accumulator, 2),
            0x66 => Self::row(InstructionVariant::ROR, AddressingMode::ZeroPage, 5),
            0x76 => Self::row(InstructionVariant::ROR, AddressingMode::ZeroPageX, 6),
            0x6E => Self::row(InstructionVariant::ROR, AddressingMode::Absolute, 6),
            0x7E => Self::row(InstructionVariant::ROR, AddressingMode::AbsoluteX, 7),
            0x40 => Self::row(InstructionVariant::RTI, AddressingMode::Implied, 6),
            0x60 => Self::row(InstructionVariant::RTS, AddressingMode::Implied, 6),
            0xE9 => Self::row(InstructionVariant::SBC, AddressingMode::Immediate, 2),
            0xE5 => Self::row(InstructionVariant::SBC, AddressingMode::ZeroPage, 3),
            0xF5 => Self::row(InstructionVariant::SBC, AddressingMode::ZeroPageX, 4),
            0xED => Self::row(InstructionVariant::SBC, AddressingMode::Absolute, 4),
            0xFD => Self::row(InstructionVariant::SBC, AddressingMode::AbsoluteX, 4),
            0xF9 => Self::row(InstructionVariant::SBC, AddressingMode::AbsoluteY, 4),
            0xE1 => Self::row(InstructionVariant::SBC, AddressingMode::IndirectX, 6),
            0xF1 => Self::row(InstructionVariant::SBC, AddressingMode::IndirectY, 5),
            0x85 => Self::row(InstructionVariant::STA, AddressingMode::ZeroPage, 3),
            0x95 => Self::row(InstructionVariant::STA, AddressingMode::ZeroPageX, 4),
            0x8D => Self::row(InstructionVariant::STA, AddressingMode::Absolute, 4),
            0x9D => Self::row(InstructionVariant::STA, AddressingMode::AbsoluteX, 5),
            0x99 => Self::row(InstructionVariant::STA, AddressingMode::AbsoluteY, 5),
            0x81 => Self::row(InstructionVariant::STA, AddressingMode::IndirectX, 6),
            0x91 => Self::row(InstructionVariant::STA, AddressingMode::IndirectY, 6),
            0x9A => Self::row(InstructionVariant::TXS, AddressingMode::Implied, 2),
            0xBA => Self::row(InstructionVariant::TSX, AddressingMode::Implied, 2),
            0x48 => Self::row(InstructionVariant::PHA, AddressingMode::Implied, 3),
            0x68 => Self::row(InstructionVariant::PLA, AddressingMode::Implied, 4),
            0x08 => Self::row(InstructionVariant::PHP, AddressingMode::Implied, 3),
            0x28 => Self::row(InstructionVariant::PLP, AddressingMode::Implied, 4),
            0x86 => Self::row(InstructionVariant::STX, AddressingMode::ZeroPage, 3),
            0x96 => Self::row(InstructionVariant::STX, AddressingMode::ZeroPageY, 4),
            0x8E => Self::row(InstructionVariant::STX, AddressingMode::Absolute, 4),
            0x84 => Self::row(InstructionVariant::STY, AddressingMode::ZeroPage, 3),
            0x94 => Self::row(InstructionVariant::STY, AddressingMode::ZeroPageX, 4),
            0x8C => Self::row(InstructionVariant::STY, AddressingMode::Absolute, 4),
            0x04 => Self::row(InstructionVariant::NOP, AddressingMode::ZeroPage, 3),
            0x44 => Self::row(InstructionVariant::NOP, AddressingMode::ZeroPage, 3),
            0x64 => Self::row(InstructionVariant::NOP, AddressingMode::ZeroPage, 3),
            0x0C => Self::row(InstructionVariant::NOP, AddressingMode::Absolute, 4),
            0x14 => Self::row(InstructionVariant::NOP, AddressingMode::ZeroPageX, 4),
            0x34 => Self::row(InstructionVariant::NOP, AddressingMode::ZeroPageX, 4),
            0x54 => Self::row(InstructionVariant::NOP, AddressingMode::ZeroPageX, 4),
            0x74 => Self::row(InstructionVariant::NOP, AddressingMode::ZeroPageX, 4),
            0xD4 => Self::row(InstructionVariant::NOP, AddressingMode::ZeroPageX, 4),
            0xF4 => Self::row(InstructionVariant::NOP, AddressingMode::ZeroPageX, 4),
            0x80 => Self::row(InstructionVariant::NOP, AddressingMode::Immediate, 2),
            0x1C => Self::row(InstructionVariant::NOP, AddressingMode::AbsoluteX, 4),
            0x3C => Self::row(InstructionVariant::NOP, AddressingMode::AbsoluteX, 4),
            0x5C => Self::row(InstructionVariant::NOP, AddressingMode::AbsoluteX, 4),
            0x7C => Self::row(InstructionVariant::NOP, AddressingMode::AbsoluteX, 4),
            0xDC => Self::row(InstructionVariant::NOP, AddressingMode::AbsoluteX, 4),
            0xFC => Self::row(InstructionVariant::NOP, AddressingMode::AbsoluteX, 4),
            0x1A => Self::row(InstructionVariant::NOP, AddressingMode::Implied, 2),
            0x3A => Self::row(InstructionVariant::NOP, AddressingMode::Implied, 2),
            0x5A => Self::row(InstructionVariant::NOP, AddressingMode::Implied, 2),
            0x7A => Self::row(InstructionVariant::NOP, AddressingMode::Implied, 2),
            0xDA => Self::row(InstructionVariant::NOP, AddressingMode::Implied, 2),
            0xFA => Self::row(InstructionVariant::NOP, AddressingMode::Implied, 2),
            0xA7 => Self::row(InstructionVariant::LAX, AddressingMode::ZeroPage, 3),
            0xB7 => Self::row(InstructionVariant::LAX, AddressingMode::ZeroPageY, 4),
            0xAF => Self::row(InstructionVariant::LAX, AddressingMode::Absolute, 4),
            0xBF => Self::row(InstructionVariant::LAX, AddressingMode::AbsoluteY, 4),
            0xA3 => Self::row(InstructionVariant::LAX, AddressingMode::IndirectX, 6),
            0xB3 => Self::row(InstructionVariant::LAX, AddressingMode::IndirectY, 5),
            0x87 => Self::row(InstructionVariant::SAX, AddressingMode::ZeroPage, 3),
            0x97 => Self::row(InstructionVariant::SAX, AddressingMode::ZeroPageY, 4),
            0x8F => Self::row(InstructionVariant::SAX, AddressingMode::Absolute, 4),
            0x83 => Self::row(InstructionVariant::SAX, AddressingMode::IndirectX, 6),
            0xEB => Self::row(InstructionVariant::SBC, AddressingMode::Immediate, 2),
            0xC7 => Self::row(InstructionVariant::DCP, AddressingMode::ZeroPage, 5),
            0xD7 => Self::row(InstructionVariant::DCP, AddressingMode::ZeroPageX, 6),
            0xCF => Self::row(InstructionVariant::DCP, AddressingMode::Absolute, 6),
            0xDF => Self::row(InstructionVariant::DCP, AddressingMode::AbsoluteX, 7),
            0xDB => Self::row(InstructionVariant::DCP, AddressingMode::AbsoluteY, 7),
            0xC3 => Self::row(InstructionVariant::DCP, AddressingMode::IndirectX, 8),
            0xD3 => Self::row(InstructionVariant::DCP, AddressingMode::IndirectY, 8),
            0xE7 => Self::row(InstructionVariant::ISB, AddressingMode::ZeroPage, 5),
            0xF7 => Self::row(InstructionVariant::ISB, AddressingMode::ZeroPageX, 6),
            0xEF => Self::row(InstructionVariant::ISB, AddressingMode::Absolute, 6),
            0xFF => Self::row(InstructionVariant::ISB, AddressingMode::AbsoluteX, 7),
            0xFB => Self::row(InstructionVariant::ISB, AddressingMode::AbsoluteY, 7),
            0xE3 => Self::row(InstructionVariant::ISB, AddressingMode::IndirectX, 8),
            0xF3 => Self::row(InstructionVariant::ISB, AddressingMode::IndirectY, 8),
            0x07 => Self::row(InstructionVariant::SLO, AddressingMode::ZeroPage, 5),
            0x17 => Self::row(InstructionVariant::SLO, AddressingMode::ZeroPageX, 6),
            0x0F => Self::row(InstructionVariant::SLO, AddressingMode::Absolute, 6),
            0x1F => Self::row(InstructionVariant::SLO, AddressingMode::AbsoluteX, 7),
            0x1B => Self::row(InstructionVariant::SLO, AddressingMode::AbsoluteY, 7),
            0x03 => Self::row(InstructionVariant::SLO, AddressingMode::IndirectX, 8),
            0x13 => Self::row(InstructionVariant::SLO, AddressingMode::IndirectY, 8),
            0x27 => Self::row(InstructionVariant::RLA, AddressingMode::ZeroPage, 5),
            0x37 => Self::row(InstructionVariant::RLA, AddressingMode::ZeroPageX, 6),
            0x2F => Self::row(InstructionVariant::RLA, AddressingMode::Absolute, 6),
            0x3F => Self::row(InstructionVariant::RLA, AddressingMode::AbsoluteX, 7),
            0x3B => Self::row(InstructionVariant::RLA, AddressingMode::AbsoluteY, 7),
            0x23 => Self::row(InstructionVariant::RLA, AddressingMode::IndirectX, 8),
            0x33 => Self::row(InstructionVariant::RLA, AddressingMode::IndirectY, 8),
            0x47 => Self::row(InstructionVariant::SRE, AddressingMode::ZeroPage, 5),
            0x57 => Self::row(InstructionVariant::SRE, AddressingMode::ZeroPageX, 6),
            0x4F => Self::row(InstructionVariant::SRE, AddressingMode::Absolute, 6),
            0x5F => Self::row(InstructionVariant::SRE, AddressingMode::AbsoluteX, 7),
            0x5B => Self::row(InstructionVariant::SRE, AddressingMode::AbsoluteY, 7),
            0x43 => Self::row(InstructionVariant::SRE, AddressingMode::IndirectX, 8),
            0x53 => Self::row(InstructionVariant::SRE, AddressingMode::IndirectY, 8),
            0x67 => Self::row(InstructionVariant::RRA, AddressingMode::ZeroPage, 5),
            0x77 => Self::row(InstructionVariant::RRA, AddressingMode::ZeroPageX, 6),
            0x6F => Self::row(InstructionVariant::RRA, AddressingMode::Absolute, 6),
            0x7F => Self::row(InstructionVariant::RRA, AddressingMode::AbsoluteX, 7),
            0x7B => Self::row(InstructionVariant::RRA, AddressingMode::AbsoluteY, 7),
            0x63 => Self::row(InstructionVariant::RRA, AddressingMode::IndirectX, 8),
            0x73 => Self::row(InstructionVariant::RRA, AddressingMode::IndirectY, 8),
            _ => None,
        }
    }

    fn make(
        variant: InstructionVariant,
        mode: AddressingMode,
        cycles: Cycles,
    ) -> (row: Option<Instruction>)
        ensures
            row == Self::row(variant, mode, cycles),
    {
        Some(Instruction { variant, mode, length: mode.length(), cycles })
    }

    /// Looks `opcode` up in the instruction table.
    pub fn lookup(opcode: u8) -> (found: Option<Instruction>)
        ensures
            found == Self::encoded_by(opcode),
    {
        match opcode {
            0x00 => Self::make(InstructionVariant::BRK, AddressingMode::Implied, 7),
            0x01 => Self::make(InstructionVariant::ORA, AddressingMode::IndirectX, 6),
            0x03 => Self::make(InstructionVariant::SLO, AddressingMode::IndirectX, 8),
            0x04 => Self::make(InstructionVariant::NOP, AddressingMode::ZeroPage, 3),
            0x05 => Self::make(InstructionVariant::ORA, AddressingMode::ZeroPage, 3),
            0x06 => Self::make(InstructionVariant::ASL, AddressingMode::ZeroPage, 5),
            0x07 => Self::make(InstructionVariant::SLO, AddressingMode::ZeroPage, 5),
            0x08 => Self::make(InstructionVariant::PHP, AddressingMode::Implied, 3),
            0x09 => Self::make(InstructionVariant::ORA, AddressingMode::Immediate, 2),
            0x0A => Self::make(InstructionVariant::ASL, AddressingMode::Accumulator, 2),
            0x0C => Self::make(InstructionVariant::NOP, AddressingMode::Absolute, 4),
            0x0D => Self::make(InstructionVariant::ORA, AddressingMode::Absolute, 4),
            0x0E => Self::make(InstructionVariant::ASL, AddressingMode::Absolute, 6),
            0x0F => Self::make(InstructionVariant::SLO, AddressingMode::Absolute, 6),
            0x10 => Self::make(InstructionVariant::BPL, AddressingMode::Relative, 2),
            0x11 => Self::make(InstructionVariant::ORA, AddressingMode::IndirectY, 5),
            0x13 => Self::make(InstructionVariant::SLO, AddressingMode::IndirectY, 8),
            0x14 => Self::make(InstructionVariant::NOP, AddressingMode::ZeroPageX, 4),
            0x15 => Self::make(InstructionVariant::ORA, AddressingMode::ZeroPageX, 4),
            0x16 => Self::make(InstructionVariant::ASL, AddressingMode::ZeroPageX, 6),
            0x17 => Self::make(InstructionVariant::SLO, AddressingMode::ZeroPageX, 6),
            0x18 => Self::make(InstructionVariant::CLC, AddressingMode::Implied, 2),
            0x19 => Self::make(InstructionVariant::ORA, AddressingMode::AbsoluteY, 4),
            0x1A => Self::make(InstructionVariant::NOP, AddressingMode::Implied, 2),
            0x1B => Self::make(InstructionVariant::SLO, AddressingMode::AbsoluteY, 7),
            0x1C => Self::make(InstructionVariant::NOP, AddressingMode::AbsoluteX, 4),
            0x1D => Self::make(InstructionVariant::ORA, AddressingMode::AbsoluteX, 4),
            0x1E => Self::make(InstructionVariant::ASL, AddressingMode::AbsoluteX, 7),
            0x1F => Self::make(InstructionVariant::SLO, AddressingMode::AbsoluteX, 7),
            0x20 => Self::make(InstructionVariant::JSR, AddressingMode::Absolute, 6),
            0x21 => Self::make(InstructionVariant::AND, AddressingMode::IndirectX, 6),
            0x23 => Self::make(InstructionVariant::RLA, AddressingMode::IndirectX, 8),
            0x24 => Self::make(InstructionVariant::BIT, AddressingMode::ZeroPage, 3),
            0x25 => Self::make(InstructionVariant::AND, AddressingMode::ZeroPage, 3),
            0x26 => Self::make(InstructionVariant::ROL, AddressingMode::ZeroPage, 5),
            0x27 => Self::make(InstructionVariant::RLA, AddressingMode::ZeroPage, 5),
            0x28 => Self::make(InstructionVariant::PLP, AddressingMode::Implied, 4),
            0x29 => Self::make(InstructionVariant::AND, AddressingMode::Immediate, 2),
            0x2A => Self::make(InstructionVariant::ROL, AddressingMode::Accumulator, 2),
            0x2C => Self::make(InstructionVariant::BIT, AddressingMode::Absolute, 4),
            0x2D => Self::make(InstructionVariant::AND, AddressingMode::Absolute, 4),
            0x2E => Self::make(InstructionVariant::ROL, AddressingMode::Absolute, 6),
            0x2F => Self::make(InstructionVariant::RLA, AddressingMode::Absolute, 6),
            0x30 => Self::make(InstructionVariant::BMI, AddressingMode::Relative, 2),
            0x31 => Self::make(InstructionVariant::AND, AddressingMode::IndirectY, 5),
            0x33 => Self::make(InstructionVariant::RLA, AddressingMode::IndirectY, 8),
            0x34 => Self::make(InstructionVariant::NOP, AddressingMode::ZeroPageX, 4),
            0x35 => Self::make(InstructionVariant::AND, AddressingMode::ZeroPageX, 4),
            0x36 => Self::make(InstructionVariant::ROL, AddressingMode::ZeroPageX, 6),
            0x37 => Self::make(InstructionVariant::RLA, AddressingMode::ZeroPageX, 6),
            0x38 => Self::make(InstructionVariant::SEC, AddressingMode::Implied, 2),
            0x39 => Self::make(InstructionVariant::AND, AddressingMode::AbsoluteY, 4),
            0x3A => Self::make(InstructionVariant::NOP, AddressingMode::Implied, 2),
            0x3B => Self::make(InstructionVariant::RLA, AddressingMode::AbsoluteY, 7),
            0x3C => Self::make(InstructionVariant::NOP, AddressingMode::AbsoluteX, 4),
            0x3D => Self::make(InstructionVariant::AND, AddressingMode::AbsoluteX, 4),
            0x3E => Self::make(InstructionVariant::ROL, AddressingMode::AbsoluteX, 7),
            0x3F => Self::make(InstructionVariant::RLA, AddressingMode::AbsoluteX, 7),
            0x40 => Self::make(InstructionVariant::RTI, AddressingMode::Implied, 6),
            0x41 => Self::make(InstructionVariant::EOR, AddressingMode::IndirectX, 6),
            0x43 => Self::make(InstructionVariant::SRE, AddressingMode::IndirectX, 8),
            0x44 => Self::make(InstructionVariant::NOP, AddressingMode::ZeroPage, 3),
            0x45 => Self::make(InstructionVariant::EOR, AddressingMode::ZeroPage, 3),
            0x46 => Self::make(InstructionVariant::LSR, AddressingMode::ZeroPage, 5),
            0x47 => Self::make(InstructionVariant::SRE, AddressingMode::ZeroPage, 5),
            0x48 => Self::make(InstructionVariant::PHA, AddressingMode::Implied, 3),
            0x49 => Self::make(InstructionVariant::EOR, AddressingMode::Immediate, 2),
            0x4A => Self::make(InstructionVariant::LSR, AddressingMode::Accumulator, 2),
            0x4C => Self::make(InstructionVariant::JMP, AddressingMode::Absolute, 3),
            0x4D => Self::make(InstructionVariant::EOR, AddressingMode::Absolute, 4),
            0x4E => Self::make(InstructionVariant::LSR, AddressingMode::Absolute, 6),
            0x4F => Self::make(InstructionVariant::SRE, AddressingMode::Absolute, 6),
            0x50 => Self::make(InstructionVariant::BVC, AddressingMode::Relative, 2),
            0x51 => Self::make(InstructionVariant::EOR, AddressingMode::IndirectY, 5),
            0x53 => Self::make(InstructionVariant::SRE, AddressingMode::IndirectY, 8),
            0x54 => Self::make(InstructionVariant::NOP, AddressingMode::ZeroPageX, 4),
            0x55 => Self::make(InstructionVariant::EOR, AddressingMode::ZeroPageX, 4),
            0x56 => Self::make(InstructionVariant::LSR, AddressingMode::ZeroPageX, 6),
            0x57 => Self::make(InstructionVariant::SRE, AddressingMode::ZeroPageX, 6),
            0x58 => Self::make(InstructionVariant::CLI, AddressingMode::Implied, 2),
            0x59 => Self::make(InstructionVariant::EOR, AddressingMode::AbsoluteY, 4),
            0x5A => Self::make(InstructionVariant::NOP, AddressingMode::Implied, 2),
            0x5B => Self::make(InstructionVariant::SRE, AddressingMode::AbsoluteY, 7),
            0x5C => Self::make(InstructionVariant::NOP, AddressingMode::AbsoluteX, 4),
            0x5D => Self::make(InstructionVariant::EOR, AddressingMode::AbsoluteX, 4),
            0x5E => Self::make(InstructionVariant::LSR, AddressingMode::AbsoluteX, 7),
            0x5F => Self::make(InstructionVariant::SRE, AddressingMode::AbsoluteX, 7),
            0x60 => Self::make(InstructionVariant::RTS, AddressingMode::Implied, 6),
            0x61 => Self::make(InstructionVariant::ADC, AddressingMode::IndirectX, 6),
            0x63 => Self::make(InstructionVariant::RRA, AddressingMode::IndirectX, 8),
            0x64 => Self::make(InstructionVariant::NOP, AddressingMode::ZeroPage, 3),
            0x65 => Self::make(InstructionVariant::ADC, AddressingMode::ZeroPage, 3),
            0x66 => Self::make(InstructionVariant::ROR, AddressingMode::ZeroPage, 5),
            0x67 => Self::make(InstructionVariant::RRA, AddressingMode::ZeroPage, 5),
            0x68 => Self::make(InstructionVariant::PLA, AddressingMode::Implied, 4),
            0x69 => Self::make(InstructionVariant::ADC, AddressingMode::Immediate, 2),
            0x6A => Self::make(InstructionVariant::ROR, AddressingMode::Accumulator, 2),
            0x6C => Self::make(InstructionVariant::JMP, AddressingMode::Indirect, 5),
            0x6D => Self::make(InstructionVariant::ADC, AddressingMode::Absolute, 4),
            0x6E => Self::make(InstructionVariant::ROR, AddressingMode::Absolute, 6),
            0x6F => Self::make(InstructionVariant::RRA, AddressingMode::Absolute, 6),
            0x70 => Self::make(InstructionVariant::BVS, AddressingMode::Relative, 2),
            0x71 => Self::make(InstructionVariant::ADC, AddressingMode::IndirectY, 5),
            0x73 => Self::make(InstructionVariant::RRA, AddressingMode::IndirectY, 8),
            0x74 => Self::make(InstructionVariant::NOP, AddressingMode::ZeroPageX, 4),
            0x75 => Self::make(InstructionVariant::ADC, AddressingMode::ZeroPageX, 4),
            0x76 => Self::make(InstructionVariant::ROR, AddressingMode::ZeroPageX, 6),
            0x77 => Self::make(InstructionVariant::RRA, AddressingMode::ZeroPageX, 6),
            0x78 => Self::make(InstructionVariant::SEI, AddressingMode::Implied, 2),
            0x79 => Self::make(InstructionVariant::ADC, AddressingMode::AbsoluteY, 4),
            0x7A => Self::make(InstructionVariant::NOP, AddressingMode::Implied, 2),
            0x7B => Self::make(InstructionVariant::RRA, AddressingMode::AbsoluteY, 7),
            0x7C => Self::make(InstructionVariant::NOP, AddressingMode::AbsoluteX, 4),
            0x7D => Self::make(InstructionVariant::ADC, AddressingMode::AbsoluteX, 4),
            0x7E => Self::make(InstructionVariant::ROR, AddressingMode::AbsoluteX, 7),
            0x7F => Self::make(InstructionVariant::RRA, AddressingMode::AbsoluteX, 7),
            0x80 => Self::make(InstructionVariant::NOP, AddressingMode::Immediate, 2),
            0x81 => Self::make(InstructionVariant::STA, AddressingMode::IndirectX, 6),
            0x83 => Self::make(InstructionVariant::SAX, AddressingMode::IndirectX, 6),
            0x84 => Self::make(InstructionVariant::STY, AddressingMode::ZeroPage, 3),
            0x85 => Self::make(InstructionVariant::STA, AddressingMode::ZeroPage, 3),
            0x86 => Self::make(InstructionVariant::STX, AddressingMode::ZeroPage, 3),
            0x87 => Self::make(InstructionVariant::SAX, AddressingMode::ZeroPage, 3),
            0x88 => Self::make(InstructionVariant::DEY, AddressingMode::Implied, 2),
            0x8A => Self::make(InstructionVariant::TXA, AddressingMode::Implied, 2),
            0x8C => Self::make(InstructionVariant::STY, AddressingMode::Absolute, 4),
            0x8D => Self::make(InstructionVariant::STA, AddressingMode::Absolute, 4),
            0x8E => Self::make(InstructionVariant::STX, AddressingMode::Absolute, 4),
            0x8F => Self::make(InstructionVariant::SAX, AddressingMode::Absolute, 4),
            0x90 => Self::make(InstructionVariant::BCC, AddressingMode::Relative, 2),
            0x91 => Self::make(InstructionVariant::STA, AddressingMode::IndirectY, 6),
            0x94 => Self::make(InstructionVariant::STY, AddressingMode::ZeroPageX, 4),
            0x95 => Self::make(InstructionVariant::STA, AddressingMode::ZeroPageX, 4),
            0x96 => Self::make(InstructionVariant::STX, AddressingMode::ZeroPageY, 4),
            0x97 => Self::make(InstructionVariant::SAX, AddressingMode::ZeroPageY, 4),
            0x98 => Self::make(InstructionVariant::TYA, AddressingMode::Implied, 2),
            0x99 => Self::make(InstructionVariant::STA, AddressingMode::AbsoluteY, 5),
            0x9A => Self::make(InstructionVariant::TXS, AddressingMode::Implied, 2),
            0x9D => Self::make(InstructionVariant::STA, AddressingMode::AbsoluteX, 5),
            0xA0 => Self::make(InstructionVariant::LDY, AddressingMode::Immediate, 2),
            0xA1 => Self::make(InstructionVariant::LDA, AddressingMode::IndirectX, 6),
            0xA2 => Self::make(InstructionVariant::LDX, AddressingMode::Immediate, 2),
            0xA3 => Self::make(InstructionVariant::LAX, AddressingMode::IndirectX, 6),
            0xA4 => Self::make(InstructionVariant::LDY, AddressingMode::ZeroPage, 3),
            0xA5 => Self::make(InstructionVariant::LDA, AddressingMode::ZeroPage, 3),
            0xA6 => Self::make(InstructionVariant::LDX, AddressingMode::ZeroPage, 3),
            0xA7 => Self::make(InstructionVariant::LAX, AddressingMode::ZeroPage, 3),
            0xA8 => Self::make(InstructionVariant::TAY, AddressingMode::Implied, 2),
            0xA9 => Self::make(InstructionVariant::LDA, AddressingMode::Immediate, 2),
            0xAA => Self::make(InstructionVariant::TAX, AddressingMode::Implied, 2),
            0xAC => Self::make(InstructionVariant::LDY, AddressingMode::Absolute, 4),
            0xAD => Self::make(InstructionVariant::LDA, AddressingMode::Absolute, 4),
            0xAE => Self::make(InstructionVariant::LDX, AddressingMode::Absolute, 4),
            0xAF => Self::make(InstructionVariant::LAX, AddressingMode::Absolute, 4),
            0xB0 => Self::make(InstructionVariant::BCS, AddressingMode::Relative, 2),
            0xB1 => Self::make(InstructionVariant::LDA, AddressingMode::IndirectY, 5),
            0xB3 => Self::make(InstructionVariant::LAX, AddressingMode::IndirectY, 5),
            0xB4 => Self::make(InstructionVariant::LDY, AddressingMode::ZeroPageX, 4),
            0xB5 => Self::make(InstructionVariant::LDA, AddressingMode::ZeroPageX, 4),
            0xB6 => Self::make(InstructionVariant::LDX, AddressingMode::ZeroPageY, 4),
            0xB7 => Self::make(InstructionVariant::LAX, AddressingMode::ZeroPageY, 4),
            0xB8 => Self::make(InstructionVariant::CLV, AddressingMode::Implied, 2),
            0xB9 => Self::make(InstructionVariant::LDA, AddressingMode::AbsoluteY, 4),
            0xBA => Self::make(InstructionVariant::TSX, AddressingMode::Implied, 2),
            0xBC => Self::make(InstructionVariant::LDY, AddressingMode::AbsoluteX, 4),
            0xBD => Self::make(InstructionVariant::LDA, AddressingMode::AbsoluteX, 4),
            0xBE => Self::make(InstructionVariant::LDX, AddressingMode::AbsoluteY, 4),
            0xBF => Self::make(InstructionVariant::LAX, AddressingMode::AbsoluteY, 4),
            0xC0 => Self::make(InstructionVariant::CPY, AddressingMode::Immediate, 2),
            0xC1 => Self::make(InstructionVariant::CMP, AddressingMode::IndirectX, 6),
            0xC3 => Self::make(InstructionVariant::DCP, AddressingMode::IndirectX, 8),
            0xC4 => Self::make(InstructionVariant::CPY, AddressingMode::ZeroPage, 3),
            0xC5 => Self::make(InstructionVariant::CMP, AddressingMode::ZeroPage, 3),
            0xC6 => Self::make(InstructionVariant::DEC, AddressingMode::ZeroPage, 5),
            0xC7 => Self::make(InstructionVariant::DCP, AddressingMode::ZeroPage, 5),
            0xC8 => Self::make(InstructionVariant::INY, AddressingMode::Implied, 2),
            0xC9 => Self::make(InstructionVariant::CMP, AddressingMode::Immediate, 2),
            0xCA => Self::make(InstructionVariant::DEX, AddressingMode::Implied, 2),
            0xCC => Self::make(InstructionVariant::CPY, AddressingMode::Absolute, 4),
            0xCD => Self::make(InstructionVariant::CMP, AddressingMode::Absolute, 4),
            0xCE => Self::make(InstructionVariant::DEC, AddressingMode::Absolute, 6),
            0xCF => Self::make(InstructionVariant::DCP, AddressingMode::Absolute, 6),
            0xD0 => Self::make(InstructionVariant::BNE, AddressingMode::Relative, 2),
            0xD1 => Self::make(InstructionVariant::CMP, AddressingMode::IndirectY, 5),
            0xD3 => Self::make(InstructionVariant::DCP, AddressingMode::IndirectY, 8),
            0xD4 => Self::make(InstructionVariant::NOP, AddressingMode::ZeroPageX, 4),
            0xD5 => Self::make(InstructionVariant::CMP, AddressingMode::ZeroPageX, 4),
            0xD6 => Self::make(InstructionVariant::DEC, AddressingMode::ZeroPageX, 6),
            0xD7 => Self::make(InstructionVariant::DCP, AddressingMode::ZeroPageX, 6),
            0xD8 => Self::make(InstructionVariant::CLD, AddressingMode::Implied, 2),
            0xD9 => Self::make(InstructionVariant::CMP, AddressingMode::AbsoluteY, 4),
            0xDA => Self::make(InstructionVariant::NOP, AddressingMode::Implied, 2),
            0xDB => Self::make(InstructionVariant::DCP, AddressingMode::AbsoluteY, 7),
            0xDC => Self::make(InstructionVariant::NOP, AddressingMode::AbsoluteX, 4),
            0xDD => Self::make(InstructionVariant::CMP, AddressingMode::AbsoluteX, 4),
            0xDE => Self::make(InstructionVariant::DEC, AddressingMode::AbsoluteX, 7),
            0xDF => Self::make(InstructionVariant::DCP, AddressingMode::AbsoluteX, 7),
            0xE0 => Self::make(InstructionVariant::CPX, AddressingMode::Immediate, 2),
            0xE1 => Self::make(InstructionVariant::SBC, AddressingMode::IndirectX, 6),
            0xE3 => Self::make(InstructionVariant::ISB, AddressingMode::IndirectX, 8),
            0xE4 => Self::make(InstructionVariant::CPX, AddressingMode::ZeroPage, 3),
            0xE5 => Self::make(InstructionVariant::SBC, AddressingMode::ZeroPage, 3),
            0xE6 => Self::make(InstructionVariant::INC, AddressingMode::ZeroPage, 5),
            0xE7 => Self::make(InstructionVariant::ISB, AddressingMode::ZeroPage, 5),
            0xE8 => Self::make(InstructionVariant::INX, AddressingMode::Implied, 2),
            0xE9 => Self::make(InstructionVariant::SBC, AddressingMode::Immediate, 2),
            0xEA => Self::make(InstructionVariant::NOP, AddressingMode::Implied, 2),
            0xEB => Self::make(InstructionVariant::SBC, AddressingMode::Immediate, 2),
            0xEC => Self::make(InstructionVariant::CPX, AddressingMode::Absolute, 4),
            0xED => Self::make(InstructionVariant::SBC, AddressingMode::Absolute, 4),
            0xEE => Self::make(InstructionVariant::INC, AddressingMode::Absolute, 6),
            0xEF => Self::make(InstructionVariant::ISB, AddressingMode::Absolute, 6),
            0xF0 => Self::make(InstructionVariant::BEQ, AddressingMode::Relative, 2),
            0xF1 => Self::make(InstructionVariant::SBC, AddressingMode::IndirectY, 5),
            0xF3 => Self::make(InstructionVariant::ISB, AddressingMode::IndirectY, 8),
            0xF4 => Self::make(InstructionVariant::NOP, AddressingMode::ZeroPageX, 4),
            0xF5 => Self::make(InstructionVariant::SBC, AddressingMode::ZeroPageX, 4),
            0xF6 => Self::make(InstructionVariant::INC, AddressingMode::ZeroPageX, 6),
            0xF7 => Self::make(InstructionVariant::ISB, AddressingMode::ZeroPageX, 6),
            0xF8 => Self::make(InstructionVariant::SED, AddressingMode::Implied, 2),
            0xF9 => Self::make(InstructionVariant::SBC, AddressingMode::AbsoluteY, 4),
            0xFA => Self::make(InstructionVariant::NOP, AddressingMode::Implied, 2),
            0xFB => Self::make(InstructionVariant::ISB, AddressingMode::AbsoluteY, 7),
            0xFC => Self::make(InstructionVariant::NOP, AddressingMode::AbsoluteX, 4),
            0xFD => Self::make(InstructionVariant::SBC, AddressingMode::AbsoluteX, 4),
            0xFE => Self::make(InstructionVariant::INC, AddressingMode::AbsoluteX, 7),
            0xFF => Self::make(InstructionVariant::ISB, AddressingMode::AbsoluteX, 7),
            _ => None,
        }
    }
}

/// Every row of the table is as long as its addressing mode says and costs
/// between two and eight cycles.
pub proof fn lemma_table_rows_are_sound(opcode: u8)
    ensures
        Instruction::encoded_by(opcode) matches Some(row) ==> row.length
            == row.mode.encoded_length() && 1 <= row.length <= 3 && 2 <= row.cycles <= 8,
{
}

} // verus!
