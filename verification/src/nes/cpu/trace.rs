//! The instruction tracer: one line of text for the instruction that is
//! about to execute, in the layout of the Nintendulator log.
//!
//! ```text
//! C000  4C F5 C5  JMP $C5F5                       A:00 X:00 Y:00 P:24 SP:FD PPU:  0, 21 CYC:7
//! ```
//!
//! The columns are the program counter, the bytes of the instruction, the
//! mnemonic (with `*` before an undocumented one), the operand in 28 columns,
//! the registers, the position of the beam and the cycle counter. The tracer
//! reads the machine through `peek` alone, so it changes nothing.

use super::instructions::AddressingMode;
use super::instructions::Instruction;
use super::instructions::InstructionVariant;
use super::Addr;
use super::Cpu;
use super::CpuView;
use super::Fault;
use crate::nes::bus::signed_byte;
use crate::nes::bus::to_signed;
use vstd::prelude::*;
use vstd::string::StrSliceExecFns;
use vstd::string::StringExecFns;

verus! {

/// The procedures that render trace lines.
pub struct Trace;

/// The digit for `value`, which is below 16, in upper-case hexadecimal.
pub open spec fn hex_digit(value: int) -> Seq<char> {
    if value == 0 {
        "0"@
    } else if value == 1 {
        "1"@
    } else if value == 2 {
        "2"@
    } else if value == 3 {
        "3"@
    } else if value == 4 {
        "4"@
    } else if value == 5 {
        "5"@
    } else if value == 6 {
        "6"@
    } else if value == 7 {
        "7"@
    } else if value == 8 {
        "8"@
    } else if value == 9 {
        "9"@
    } else if value == 10 {
        "A"@
    } else if value == 11 {
        "B"@
    } else if value == 12 {
        "C"@
    } else if value == 13 {
        "D"@
    } else if value == 14 {
        "E"@
    } else {
        "F"@
    }
}

/// A byte as two hexadecimal digits.
pub open spec fn hex_byte(value: u8) -> Seq<char> {
    hex_digit(value as int / 16) + hex_digit(value as int % 16)
}

/// A word as four hexadecimal digits.
pub open spec fn hex_word(value: u16) -> Seq<char> {
    hex_byte((value / 256) as u8) + hex_byte((value % 256) as u8)
}

/// A number in decimal, without leading zeros.
pub open spec fn decimal(value: nat) -> Seq<char>
    decreases value,
{
    if value < 10 {
        hex_digit(value as int)
    } else {
        decimal(value / 10) + hex_digit(value as int % 10)
    }
}

/// `count` spaces.
pub open spec fn spaces(count: nat) -> Seq<char>
    decreases count,
{
    if count == 0 {
        Seq::empty()
    } else {
        spaces((count - 1) as nat) + " "@
    }
}

/// `text` with spaces after it up to `width` characters; longer text is kept whole.
pub open spec fn left_justified(text: Seq<char>, width: nat) -> Seq<char> {
    if text.len() >= width {
        text
    } else {
        text + spaces((width - text.len()) as nat)
    }
}

/// `text` with spaces before it up to `width` characters; longer text is kept whole.
pub open spec fn right_justified(text: Seq<char>, width: nat) -> Seq<char> {
    if text.len() >= width {
        text
    } else {
        spaces((width - text.len()) as nat) + text
    }
}

/// The three letters of an instruction.
pub open spec fn mnemonic(variant: InstructionVariant) -> Seq<char> {
    match variant {
        InstructionVariant::ADC => "ADC"@,
        InstructionVariant::AND => "AND"@,
        InstructionVariant::ASL => "ASL"@,
        InstructionVariant::BIT => "BIT"@,
        InstructionVariant::BPL => "BPL"@,
        InstructionVariant::BMI => "BMI"@,
        InstructionVariant::BVC => "BVC"@,
        InstructionVariant::BVS => "BVS"@,
        InstructionVariant::BCC => "BCC"@,
        InstructionVariant::BCS => "BCS"@,
        InstructionVariant::BNE => "BNE"@,
        InstructionVariant::BEQ => "BEQ"@,
        InstructionVariant::BRK => "BRK"@,
        InstructionVariant::CMP => "CMP"@,
        InstructionVariant::CPX => "CPX"@,
        InstructionVariant::CPY => "CPY"@,
        InstructionVariant::DEC => "DEC"@,
        InstructionVariant::EOR => "EOR"@,
        InstructionVariant::CLC => "CLC"@,
        InstructionVariant::SEC => "SEC"@,
        InstructionVariant::CLI => "CLI"@,
        InstructionVariant::SEI => "SEI"@,
        InstructionVariant::CLV => "CLV"@,
        InstructionVariant::CLD => "CLD"@,
        InstructionVariant::SED => "SED"@,
        InstructionVariant::INC => "INC"@,
        InstructionVariant::JMP => "JMP"@,
        InstructionVariant::JSR => "JSR"@,
        InstructionVariant::LDA => "LDA"@,
        InstructionVariant::LDX => "LDX"@,
        InstructionVariant::LDY => "LDY"@,
        InstructionVariant::LSR => "LSR"@,
        InstructionVariant::NOP => "NOP"@,
        InstructionVariant::ORA => "ORA"@,
        InstructionVariant::TAX => "TAX"@,
        InstructionVariant::TXA => "TXA"@,
        InstructionVariant::DEX => "DEX"@,
        InstructionVariant::INX => "INX"@,
        InstructionVariant::TAY => "TAY"@,
        InstructionVariant::TYA => "TYA"@,
        InstructionVariant::DEY => "DEY"@,
        InstructionVariant::INY => "INY"@,
        InstructionVariant::ROL => "ROL"@,
        InstructionVariant::ROR => "ROR"@,
        InstructionVariant::RTI => "RTI"@,
        InstructionVariant::RTS => "RTS"@,
        InstructionVariant::SBC => "SBC"@,
        InstructionVariant::STA => "STA"@,
        InstructionVariant::TXS => "TXS"@,
        InstructionVariant::TSX => "TSX"@,
        InstructionVariant::PHA => "PHA"@,
        InstructionVariant::PLA => "PLA"@,
        InstructionVariant::PHP => "PHP"@,
        InstructionVariant::PLP => "PLP"@,
        InstructionVariant::STX => "STX"@,
        InstructionVariant::STY => "STY"@,
        InstructionVariant::LAX => "LAX"@,
        InstructionVariant::SAX => "SAX"@,
        InstructionVariant::DCP => "DCP"@,
        InstructionVariant::ISB => "ISB"@,
        InstructionVariant::SLO => "SLO"@,
        InstructionVariant::RLA => "RLA"@,
        InstructionVariant::SRE => "SRE"@,
        InstructionVariant::RRA => "RRA"@,
    }
}

/// Whether `opcode` is an undocumented encoding of `variant`: every opcode of
/// the eight undocumented instructions, each `NOP` but `0xEA`, and the `SBC` at
/// `0xEB`.
pub open spec fn is_unofficial(opcode: u8, variant: InstructionVariant) -> bool {
    match variant {
        InstructionVariant::NOP => opcode != 0xEA,
        InstructionVariant::SBC => opcode == 0xEB,
        InstructionVariant::LAX
        | InstructionVariant::SAX
        | InstructionVariant::DCP
        | InstructionVariant::ISB
        | InstructionVariant::SLO
        | InstructionVariant::RLA
        | InstructionVariant::SRE
        | InstructionVariant::RRA => true,
        _ => false,
    }
}

/// Whether the operand column shows the byte in memory: it does, but for the
/// two jumps, whose operand is a place in the program.
pub open spec fn shows_memory(variant: InstructionVariant) -> bool {
    variant != InstructionVariant::JSR && variant != InstructionVariant::JMP
}

impl CpuView {
    /// The first `count` bytes from `pc` on, each as two digits and a space.
    pub open spec fn bytes_text(self, pc: Addr, count: nat) -> Seq<char>
        decreases count,
    {
        if count == 0 {
            Seq::empty()
        } else {
            self.bytes_text(pc, (count - 1) as nat) + hex_byte(
                self.bus.peek(pc.wrapping_add((count - 1) as u16)),
            ) + " "@
        }
    }

    /// The column of instruction bytes: the `length` bytes of the instruction
    /// and three spaces for each byte that it is shorter than three.
    pub open spec fn byte_column(self, length: u8) -> Seq<char> {
        self.bytes_text(self.regs.pc, length as nat) + spaces(
            if length < 3 {
                (3 * (3 - length)) as nat
            } else {
                0
            },
        )
    }

    /// The mnemonic column: a star or a space, the three letters, a space.
    pub open spec fn mnemonic_column(self, variant: InstructionVariant) -> Seq<char> {
        (if is_unofficial(self.bus.peek(self.regs.pc), variant) {
            "*"@
        } else {
            " "@
        }) + mnemonic(variant) + " "@
    }

    /// The operand column of `instruction`, whose opcode is at the program
    /// counter: the operand as the assembler writes it, then the effective
    /// address and the byte found there where the mode has them, in 28 columns.
    pub open spec fn operand_column(self, instruction: Instruction) -> Seq<char> {
        let pc = self.regs.pc.wrapping_add(1);
        let operand = self.bus.peek(pc);
        let operand_word = self.bus.peek_u16(pc);
        let address = self.resolve_at(pc, instruction.mode).0;
        let found = hex_byte(self.bus.peek(address));
        let shown = shows_memory(instruction.variant);
        match instruction.mode {
            AddressingMode::Implied => spaces(28),
            AddressingMode::Accumulator => left_justified("A"@, 28),
            AddressingMode::Relative => "$"@ + left_justified(
                hex_word(
                    pc.wrapping_add(1).wrapping_add_signed(signed_byte(operand) as i16),
                ),
                27,
            ),
            AddressingMode::Immediate => "#$"@ + left_justified(hex_byte(operand), 26),
            AddressingMode::ZeroPage => "$"@ + left_justified(
                if shown {
                    hex_byte(operand) + " = "@ + found
                } else {
                    hex_word(operand as u16)
                },
                27,
            ),
            AddressingMode::ZeroPageX => "$"@ + left_justified(
                if shown {
                    hex_byte(operand) + ",X @ "@ + hex_byte((address % 256) as u8) + " = "@ + found
                } else {
                    hex_byte(operand) + ",X"@
                },
                27,
            ),
            AddressingMode::ZeroPageY => "$"@ + left_justified(
                if shown {
                    hex_byte(operand) + ",Y @ "@ + hex_byte((address % 256) as u8) + " = "@ + found
                } else {
                    hex_byte(operand) + ",Y"@
                },
                27,
            ),
            AddressingMode::Absolute => "$"@ + left_justified(
                if shown {
                    hex_word(operand_word) + " = "@ + found
                } else {
                    hex_word(operand_word)
                },
                27,
            ),
            AddressingMode::AbsoluteX => "$"@ + left_justified(
                hex_word(operand_word) + ",X @ "@ + hex_word(address) + " = "@ + found,
                27,
            ),
            AddressingMode::AbsoluteY => "$"@ + left_justified(
                hex_word(operand_word) + ",Y @ "@ + hex_word(address) + " = "@ + found,
                27,
            ),
            AddressingMode::IndirectX => "($"@ + left_justified(
                hex_byte(operand) + ",X) @ "@ + hex_byte(operand.wrapping_add(self.regs.idx_x))
                    + " = "@ + hex_word(address) + " = "@ + found,
                26,
            ),
            AddressingMode::IndirectY => "($"@ + left_justified(
                hex_byte(operand) + "),Y = "@ + hex_word(
                    address.wrapping_sub(self.regs.idx_y as u16),
                ) + " @ "@ + hex_word(address) + " = "@ + found,
                26,
            ),
            AddressingMode::Indirect => "($"@ + left_justified(
                hex_word(operand_word) + ") = "@ + hex_word(address),
                26,
            ),
        }
    }

    /// The registers, the position of the beam and the cycle counter.
    pub open spec fn register_column(self) -> Seq<char> {
        "A:"@ + hex_byte(self.regs.acc) + " X:"@ + hex_byte(self.regs.idx_x) + " Y:"@ + hex_byte(
            self.regs.idx_y,
        ) + " P:"@ + hex_byte(self.regs.status.bits) + " SP:"@ + hex_byte(self.regs.sp) + " PPU:"@
            + right_justified(decimal(self.bus.ppu.scanline as nat), 3) + ","@ + right_justified(
            decimal(self.bus.ppu.dot as nat),
            3,
        ) + " CYC:"@ + decimal(self.cycles as nat)
    }

    /// The trace line for `instruction`, whose opcode is at the program counter.
    pub open spec fn trace_line(self, instruction: Instruction) -> Seq<char> {
        hex_word(self.regs.pc) + "  "@ + self.byte_column(instruction.length)
            + self.mnemonic_column(instruction.variant) + self.operand_column(instruction)
            + self.register_column()
    }

    /// The trace line for the instruction that the machine executes next; empty
    /// where the byte at the program counter encodes none.
    #[verifier::opaque]
    pub open spec fn trace(self) -> Seq<char> {
        match self.next_instruction() {
            Some(instruction) => self.trace_line(instruction),
            None => Seq::empty(),
        }
    }
}

impl Trace {
    /// The digit for `value` in upper-case hexadecimal.
    pub fn hex_digit(value: u8) -> (digit: &'static str)
        requires
            value < 16,
        ensures
            digit@ == hex_digit(value as int),
    {
        if value == 0 {
            "0"
        } else if value == 1 {
            "1"
        } else if value == 2 {
            "2"
        } else if value == 3 {
            "3"
        } else if value == 4 {
            "4"
        } else if value == 5 {
            "5"
        } else if value == 6 {
            "6"
        } else if value == 7 {
            "7"
        } else if value == 8 {
            "8"
        } else if value == 9 {
            "9"
        } else if value == 10 {
            "A"
        } else if value == 11 {
            "B"
        } else if value == 12 {
            "C"
        } else if value == 13 {
            "D"
        } else if value == 14 {
            "E"
        } else {
            "F"
        }
    }

    /// A byte as two hexadecimal digits.
    pub fn hex_byte(value: u8) -> (text: String)
        ensures
            text@ == hex_byte(value),
    {
        let mut text = String::from_str(Trace::hex_digit(value / 16));
        text.append(Trace::hex_digit(value % 16));
        text
    }

    /// A word as four hexadecimal digits.
    pub fn hex_word(value: u16) -> (text: String)
        ensures
            text@ == hex_word(value),
    {
        let mut text = Trace::hex_byte((value / 256) as u8);
        text.append(Trace::hex_byte((value % 256) as u8).as_str());
        text
    }

    /// A number in decimal, without leading zeros.
    pub fn decimal(value: u64) -> (text: String)
        ensures
            text@ == decimal(value as nat),
        decreases value,
    {
        if value < 10 {
            String::from_str(Trace::hex_digit(value as u8))
        } else {
            let mut text = Trace::decimal(value / 10);
            text.append(Trace::hex_digit((value % 10) as u8));
            text
        }
    }

    /// `count` spaces.
    pub fn spaces(count: usize) -> (text: String)
        ensures
            text@ == spaces(count as nat),
    {
        let mut text = String::new();
        let mut written: usize = 0;
        while written < count
            invariant
                written <= count,
                text@ == spaces(written as nat),
            decreases count - written,
        {
            text.append(" ");
            written += 1;
        }
        text
    }

    /// `text` with spaces after it up to `width` characters.
    pub fn left_justify(text: String, width: usize) -> (padded: String)
        ensures
            padded@ == left_justified(text@, width as nat),
    {
        let length = text.as_str().unicode_len();
        if length >= width {
            text
        } else {
            let mut padded = text;
            padded.append(Trace::spaces(width - length).as_str());
            padded
        }
    }

    /// `text` with spaces before it up to `width` characters.
    pub fn right_justify(text: String, width: usize) -> (padded: String)
        ensures
            padded@ == right_justified(text@, width as nat),
    {
        let length = text.as_str().unicode_len();
        if length >= width {
            text
        } else {
            let mut padded = Trace::spaces(width - length);
            padded.append(text.as_str());
            padded
        }
    }

    /// The three letters of an instruction.
    pub fn mnemonic(variant: InstructionVariant) -> (letters: &'static str)
        ensures
            letters@ == mnemonic(variant),
    {
        match variant {
            InstructionVariant::ADC => "ADC",
            InstructionVariant::AND => "AND",
            InstructionVariant::ASL => "ASL",
            InstructionVariant::BIT => "BIT",
            InstructionVariant::BPL => "BPL",
            InstructionVariant::BMI => "BMI",
            InstructionVariant::BVC => "BVC",
            InstructionVariant::BVS => "BVS",
            InstructionVariant::BCC => "BCC",
            InstructionVariant::BCS => "BCS",
            InstructionVariant::BNE => "BNE",
            InstructionVariant::BEQ => "BEQ",
            InstructionVariant::BRK => "BRK",
            InstructionVariant::CMP => "CMP",
            InstructionVariant::CPX => "CPX",
            InstructionVariant::CPY => "CPY",
            InstructionVariant::DEC => "DEC",
            InstructionVariant::EOR => "EOR",
            InstructionVariant::CLC => "CLC",
            InstructionVariant::SEC => "SEC",
            InstructionVariant::CLI => "CLI",
            InstructionVariant::SEI => "SEI",
            InstructionVariant::CLV => "CLV",
            InstructionVariant::CLD => "CLD",
            InstructionVariant::SED => "SED",
            InstructionVariant::INC => "INC",
            InstructionVariant::JMP => "JMP",
            InstructionVariant::JSR => "JSR",
            InstructionVariant::LDA => "LDA",
            InstructionVariant::LDX => "LDX",
            InstructionVariant::LDY => "LDY",
            InstructionVariant::LSR => "LSR",
            InstructionVariant::NOP => "NOP",
            InstructionVariant::ORA => "ORA",
            InstructionVariant::TAX => "TAX",
            InstructionVariant::TXA => "TXA",
            InstructionVariant::DEX => "DEX",
            InstructionVariant::INX => "INX",
            InstructionVariant::TAY => "TAY",
            InstructionVariant::TYA => "TYA",
            InstructionVariant::DEY => "DEY",
            InstructionVariant::INY => "INY",
            InstructionVariant::ROL => "ROL",
            InstructionVariant::ROR => "ROR",
            InstructionVariant::RTI => "RTI",
            InstructionVariant::RTS => "RTS",
            InstructionVariant::SBC => "SBC",
            InstructionVariant::STA => "STA",
            InstructionVariant::TXS => "TXS",
            InstructionVariant::TSX => "TSX",
            InstructionVariant::PHA => "PHA",
            InstructionVariant::PLA => "PLA",
            InstructionVariant::PHP => "PHP",
            InstructionVariant::PLP => "PLP",
            InstructionVariant::STX => "STX",
            InstructionVariant::STY => "STY",
            InstructionVariant::LAX => "LAX",
            InstructionVariant::SAX => "SAX",
            InstructionVariant::DCP => "DCP",
            InstructionVariant::ISB => "ISB",
            InstructionVariant::SLO => "SLO",
            InstructionVariant::RLA => "RLA",
            InstructionVariant::SRE => "SRE",
            InstructionVariant::RRA => "RRA",
        }
    }

    /// Whether `opcode` is an undocumented encoding of `variant`.
    pub fn is_unofficial(opcode: u8, variant: InstructionVariant) -> (unofficial: bool)
        ensures
            unofficial == is_unofficial(opcode, variant),
    {
        match variant {
            InstructionVariant::NOP => opcode != 0xEA,
            InstructionVariant::LAX => true,
            InstructionVariant::SAX => true,
            InstructionVariant::SBC => opcode == 0xEB,
            InstructionVariant::DCP => true,
            InstructionVariant::ISB => true,
            InstructionVariant::SLO => true,
            InstructionVariant::RLA => true,
            InstructionVariant::SRE => true,
            InstructionVariant::RRA => true,
            _ => false,
        }
    }

    /// The column of instruction bytes.
    fn print_bytes(cpu: &Cpu, length: u8) -> (text: String)
        ensures
            text@ == cpu@.byte_column(length),
    {
        let mut text = String::new();
        let mut idx: u8 = 0;
        while idx < length
            invariant
                idx <= length,
                text@ == cpu@.bytes_text(cpu.regs.pc, idx as nat),
            decreases length - idx,
        {
            let byte = cpu.bus.peek_u8(cpu.regs.pc.wrapping_add(idx as u16));
            text.append(Trace::hex_byte(byte).as_str());
            text.append(" ");
            idx += 1;
        }
        let missing: usize = if length < 3 {
            3 * (3 - length as usize)
        } else {
            0
        };
        text.append(Trace::spaces(missing).as_str());
        text
    }

    /// `head`, then `text` and `tail`, then `found` after `" = "`.
    fn with_memory(head: String, text: &str, tail: String, found: &String) -> (joined: String)
        ensures
            joined@ == head@ + text@ + tail@ + " = "@ + found@,
    {
        let mut joined = head;
        joined.append(text);
        joined.append(tail.as_str());
        joined.append(" = ");
        joined.append(found.as_str());
        joined
    }

    /// `text` in `width` columns behind `prefix`.
    fn column(prefix: &str, text: String, width: usize) -> (column: String)
        ensures
            column@ == prefix@ + left_justified(text@, width as nat),
    {
        let mut column = String::from_str(prefix);
        column.append(Trace::left_justify(text, width).as_str());
        column
    }

    /// The operand column of `instr`, whose opcode is at the program counter.
    pub fn print_adressing(cpu: &Cpu, instr: &Instruction) -> (text: String)
        ensures
            text@ == cpu@.operand_column(*instr),
    {
        let print_operand = match instr.variant {
            InstructionVariant::JSR | InstructionVariant::JMP => false,
            _ => true,
        };
        let pc = cpu.regs.pc.wrapping_add(1);
        let (addr, _) = cpu.resolve_at(pc, instr.mode);
        let found = Trace::hex_byte(cpu.bus.peek_u8(addr));

        match instr.mode {
            AddressingMode::Implied => Trace::spaces(28),
            AddressingMode::Accumulator => Trace::left_justify(String::from_str("A"), 28),
            AddressingMode::Relative => {
                let op = to_signed(cpu.bus.peek_u8(pc));
                let target = pc.wrapping_add(1).wrapping_add_signed(op as i16);
                Trace::column("$", Trace::hex_word(target), 27)
            },
            AddressingMode::Immediate => {
                let op = cpu.bus.peek_u8(pc);
                Trace::column("#$", Trace::hex_byte(op), 26)
            },
            AddressingMode::ZeroPage => {
                let immediate = cpu.bus.peek_u8(pc);
                if print_operand {
                    let mut text = Trace::hex_byte(immediate);
                    text.append(" = ");
                    text.append(found.as_str());
                    Trace::column("$", text, 27)
                } else {
                    Trace::column("$", Trace::hex_word(immediate as u16), 27)
                }
            },
            AddressingMode::ZeroPageX => {
                let immediate = cpu.bus.peek_u8(pc);
                if print_operand {
                    let text = Trace::with_memory(
                        Trace::hex_byte(immediate),
                        ",X @ ",
                        Trace::hex_byte((addr % 256) as u8),
                        &found,
                    );
                    Trace::column("$", text, 27)
                } else {
                    let mut text = Trace::hex_byte(immediate);
                    text.append(",X");
                    Trace::column("$", text, 27)
                }
            },
            AddressingMode::ZeroPageY => {
                let immediate = cpu.bus.peek_u8(pc);
                if print_operand {
                    let text = Trace::with_memory(
                        Trace::hex_byte(immediate),
                        ",Y @ ",
                        Trace::hex_byte((addr % 256) as u8),
                        &found,
                    );
                    Trace::column("$", text, 27)
                } else {
                    let mut text = Trace::hex_byte(immediate);
                    text.append(",Y");
                    Trace::column("$", text, 27)
                }
            },
            AddressingMode::Absolute => {
                let mut text = Trace::hex_word(cpu.bus.peek_u16(pc));
                if print_operand {
                    text.append(" = ");
                    text.append(found.as_str());
                }
                Trace::column("$", text, 27)
            },
            AddressingMode::AbsoluteX => {
                let text = Trace::with_memory(
                    Trace::hex_word(cpu.bus.peek_u16(pc)),
                    ",X @ ",
                    Trace::hex_word(addr),
                    &found,
                );
                Trace::column("$", text, 27)
            },
            AddressingMode::AbsoluteY => {
                let text = Trace::with_memory(
                    Trace::hex_word(cpu.bus.peek_u16(pc)),
                    ",Y @ ",
                    Trace::hex_word(addr),
                    &found,
                );
                Trace::column("$", text, 27)
            },
            AddressingMode::IndirectX => {
                let immediate = cpu.bus.peek_u8(pc);
                let mut text = Trace::hex_byte(immediate);
                text.append(",X) @ ");
                text.append(Trace::hex_byte(immediate.wrapping_add(cpu.regs.idx_x)).as_str());
                let text = Trace::with_memory(text, " = ", Trace::hex_word(addr), &found);
                Trace::column("($", text, 26)
            },
            AddressingMode::IndirectY => {
                let immediate = cpu.bus.peek_u8(pc);
                let mut text = Trace::hex_byte(immediate);
                text.append("),Y = ");
                text.append(Trace::hex_word(addr.wrapping_sub(cpu.regs.idx_y as u16)).as_str());
                let text = Trace::with_memory(text, " @ ", Trace::hex_word(addr), &found);
                Trace::column("($", text, 26)
            },
            AddressingMode::Indirect => {
                let mut text = Trace::hex_word(cpu.bus.peek_u16(pc));
                text.append(") = ");
                text.append(Trace::hex_word(addr).as_str());
                Trace::column("($", text, 26)
            },
        }
    }

    /// The trace line for `instr`, whose opcode is at the program counter. The
    /// line is a function of the state of the machine and of `instr` alone, so
    /// equal states give equal lines.
    pub fn print_state(cpu: &Cpu, instr: &Instruction) -> (line: String)
        ensures
            line@ == cpu@.trace_line(*instr),
    {
        let mut line = Trace::hex_word(cpu.regs.pc);
        line.append("  ");
        line.append(Trace::print_bytes(cpu, instr.length).as_str());

        let opcode = cpu.bus.peek_u8(cpu.regs.pc);
        let mut name = if Trace::is_unofficial(opcode, instr.variant) {
            String::from_str("*")
        } else {
            String::from_str(" ")
        };
        name.append(Trace::mnemonic(instr.variant));
        name.append(" ");
        line.append(name.as_str());

        line.append(Trace::print_adressing(cpu, instr).as_str());
        line.append(cpu.to_string().as_str());
        line
    }
}

impl Fault {
    /// The fault in words, with opcode and addresses in hexadecimal.
    pub open spec fn text(self) -> Seq<char> {
        match self {
            Fault::UnknownOpcode { opcode, pc } => "Unknown opcode "@ + hex_byte(opcode) + " at "@
                + hex_word(pc),
            Fault::InvalidRegisterAccess { address, pc } => "Invalid access to register "@
                + hex_word(address) + " at "@ + hex_word(pc),
            Fault::CycleCounterFull { pc } => "Cycle counter is full at "@ + hex_word(pc),
        }
    }

    /// The fault in words, with opcode and addresses in hexadecimal.
    pub fn message(&self) -> (text: String)
        ensures
            text@ == self.text(),
    {
        match *self {
            Fault::UnknownOpcode { opcode, pc } => {
                let mut text = String::from_str("Unknown opcode ");
                text.append(Trace::hex_byte(opcode).as_str());
                text.append(" at ");
                text.append(Trace::hex_word(pc).as_str());
                text
            },
            Fault::InvalidRegisterAccess { address, pc } => {
                let mut text = String::from_str("Invalid access to register ");
                text.append(Trace::hex_word(address).as_str());
                text.append(" at ");
                text.append(Trace::hex_word(pc).as_str());
                text
            },
            Fault::CycleCounterFull { pc } => {
                let mut text = String::from_str("Cycle counter is full at ");
                text.append(Trace::hex_word(pc).as_str());
                text
            },
        }
    }
}

impl Cpu {
    /// The registers, the position of the beam and the cycle counter, as the
    /// trace line ends.
    pub fn to_string(&self) -> (text: String)
        ensures
            text@ == self@.register_column(),
    {
        let (scanline, dot) = self.bus.get_ppu_tick();
        let mut text = String::from_str("A:");
        text.append(Trace::hex_byte(self.regs.acc).as_str());
        text.append(" X:");
        text.append(Trace::hex_byte(self.regs.idx_x).as_str());
        text.append(" Y:");
        text.append(Trace::hex_byte(self.regs.idx_y).as_str());
        text.append(" P:");
        text.append(Trace::hex_byte(self.regs.status.bits()).as_str());
        text.append(" SP:");
        text.append(Trace::hex_byte(self.regs.sp).as_str());
        text.append(" PPU:");
        text.append(Trace::right_justify(Trace::decimal(scanline as u64), 3).as_str());
        text.append(",");
        text.append(Trace::right_justify(Trace::decimal(dot as u64), 3).as_str());
        text.append(" CYC:");
        text.append(Trace::decimal(self.cycles).as_str());
        text
    }
}

} // verus!
