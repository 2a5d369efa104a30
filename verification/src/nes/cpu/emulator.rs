//! The instructions of the 6502, one procedure for each.
//!
//! Every procedure is entered with the program counter on the first operand
//! byte, the byte after the opcode. It resolves its addressing mode, does its
//! work on registers and memory and charges what goes beyond the base cost of
//! the instruction: one cycle where indexing crossed a page on a read, one or
//! two for a branch taken. What it does is stated as a function on the state
//! of the machine, `CpuView`, which has the name of the procedure; the three
//! comparisons are stated by `compare_acc`, `compare_x` and `compare_y`.

use super::Addr;
use super::Cpu;
use super::CpuView;
use super::instructions::AddressingMode;
use super::instructions::Instruction;
use super::lemma_load_keeps_shape;
use super::lemma_store_keeps_shape;
use super::lemma_store_takes_time;
use super::page_crossed;
use super::registers::is_negative;
use super::registers::lemma_flag_keeps_others;
use super::registers::lemma_flag_reads_back;
use super::registers::ProcessorStatus;
use super::registers::Registers;
use crate::nes::bus::is_ppu_register;
use crate::nes::bus::readable;
use crate::nes::bus::signed_byte;
use crate::nes::bus::to_signed;
use crate::nes::bus::writable;
use vstd::prelude::*;

verus! {

/// The procedures that execute instructions.
pub struct Emu;

/// Whether adding `operand` to `acc` overflowed as a signed addition: both had
/// the same sign and `result` has the other.
pub open spec fn signed_overflow(acc: u8, operand: u8, result: u8) -> bool {
    is_negative(acc) == is_negative(operand) && is_negative(acc) != is_negative(result)
}

/// The one's complement of a byte, by which subtraction becomes addition.
pub open spec fn complement(value: u8) -> u8 {
    (255 - value) as u8
}

/// `value` moved left by one bit, with `carry_in` coming in as bit 0. The bit
/// that leaves is bit 7 of `value`.
pub open spec fn shifted_left(value: u8, carry_in: bool) -> u8 {
    ((value * 2 + if carry_in {
        1int
    } else {
        0int
    }) % 256) as u8
}

/// `value` moved right by one bit, with `carry_in` coming in as bit 7. The bit
/// that leaves is bit 0 of `value`.
pub open spec fn shifted_right(value: u8, carry_in: bool) -> u8 {
    (value / 2 + if carry_in {
        128int
    } else {
        0int
    }) as u8
}

/// The status byte as `PLP` and `RTI` take it from the stack: the break flag
/// is dropped and bit 5 is set.
pub open spec fn pulled_status(byte: u8) -> ProcessorStatus {
    ProcessorStatus { bits: byte }.with(ProcessorStatus::BREAK_CMD, false).with(
        ProcessorStatus::BREAK_CMD2,
        true,
    )
}

/// The status byte as `PHP` and `BRK` push it: with the break flag and bit 5 set.
pub open spec fn pushed_status(status: ProcessorStatus) -> u8 {
    status.with(ProcessorStatus::BREAK_CMD, true).with(ProcessorStatus::BREAK_CMD2, true).bits
}

/// A status pulled from the stack has bit 5 set and the break flag clear,
/// whatever byte was on the stack; the six other flags are those of the byte.
pub proof fn lemma_pulled_status_flags(byte: u8)
    ensures
        pulled_status(byte).has(ProcessorStatus::BREAK_CMD2),
        !pulled_status(byte).has(ProcessorStatus::BREAK_CMD),
        pulled_status(byte).bits & 0xCF == byte & 0xCF,
{
    assert(((byte & !0x10u8) | 0x20u8) & 0x20u8 == 0x20u8 && ((byte & !0x10u8) | 0x20u8) & 0x10u8
        != 0x10u8 && ((byte & !0x10u8) | 0x20u8) & 0xCFu8 == byte & 0xCFu8) by (bit_vector);
}

/// A status pushed by `PHP` or `BRK` has the break flag and bit 5 set; the six
/// other flags are those of the processor.
pub proof fn lemma_pushed_status_flags(status: ProcessorStatus)
    ensures
        pushed_status(status) & 0x30 == 0x30,
        pushed_status(status) & 0xCF == status.bits & 0xCF,
{
    let bits = status.bits;
    assert(((bits | 0x10u8) | 0x20u8) & 0x30u8 == 0x30u8 && ((bits | 0x10u8) | 0x20u8) & 0xCFu8
        == bits & 0xCFu8) by (bit_vector);
}

impl CpuView {
    /// Whether the instruction may read its operand in `mode`.
    pub open spec fn can_read(self, mode: AddressingMode) -> bool {
        readable(self.resolve(mode).0)
    }

    /// Whether the instruction may write its result in `mode`.
    pub open spec fn can_write(self, mode: AddressingMode) -> bool {
        writable(self.resolve(mode).0)
    }

    /// Whether the instruction may read its operand in `mode` and write it back:
    /// the accumulator always, memory where it can be read and written.
    pub open spec fn can_modify(self, mode: AddressingMode) -> bool {
        mode == AddressingMode::Accumulator || (self.can_read(mode) && self.can_write(mode))
    }

    /// The byte at the effective address of `mode`.
    pub open spec fn memory_operand(self, mode: AddressingMode) -> u8 {
        self.bus.peek(self.resolve(mode).0)
    }

    /// The machine after the byte at the effective address of `mode` was read.
    pub open spec fn read_operand(self, mode: AddressingMode) -> CpuView {
        self.load(self.resolve(mode).0)
    }

    /// Whether indexing in `mode` crossed a page.
    pub open spec fn crossed(self, mode: AddressingMode) -> bool {
        self.resolve(mode).1
    }

    /// The operand of an instruction that changes it in place: the accumulator
    /// in accumulator mode, else the byte at the effective address.
    pub open spec fn operand(self, mode: AddressingMode) -> u8 {
        if mode == AddressingMode::Accumulator {
            self.regs.acc
        } else {
            self.memory_operand(mode)
        }
    }

    /// The machine after the operand was read and `result` written in its place.
    #[verifier::opaque]
    pub open spec fn modified(self, mode: AddressingMode, result: u8) -> CpuView {
        if mode == AddressingMode::Accumulator {
            self.with_acc(result)
        } else {
            self.read_operand(mode).store(self.resolve(mode).0, result)
        }
    }

    /// `A + operand + C`: the low byte of the sum goes to the accumulator, carry
    /// is set when the sum is above 255, overflow when it overflowed as a signed
    /// sum, zero and negative from the accumulator.
    pub open spec fn add_with_carry(self, operand: u8) -> CpuView {
        let sum = self.regs.acc + operand + if self.carry() {
            1int
        } else {
            0int
        };
        let result = (sum % 256) as u8;
        self.with_flag(ProcessorStatus::CARRY_FLAG, sum > 0xFF).with_flag(
            ProcessorStatus::OVERFLOW_FLAG,
            signed_overflow(self.regs.acc, operand, result),
        ).with_zn(result).with_acc(result)
    }

    /// `register - operand` for the flags alone: carry is set when `register` is
    /// not below `operand`, zero and negative from the difference.
    pub open spec fn compare(self, register: u8, operand: u8) -> CpuView {
        self.with_flag(ProcessorStatus::CARRY_FLAG, register >= operand).with_zn(
            register.wrapping_sub(operand),
        )
    }

    /// A branch: where `condition` holds, the signed operand byte is added to the
    /// program counter, at the cost of one cycle, and one more where the
    /// instruction after the branch and the target lie in different pages.
    #[verifier::opaque]
    pub open spec fn branch(self, condition: bool) -> CpuView {
        if condition {
            let offset = signed_byte(self.bus.peek(self.regs.pc));
            let target = self.regs.pc.wrapping_add_signed(offset as i16);
            self.tick(1).penalty(
                page_crossed(target.wrapping_add(1), self.regs.pc.wrapping_add(1)),
            ).with_pc(target)
        } else {
            self
        }
    }

    /// `ADC`: add memory and carry to the accumulator.
    #[verifier::opaque]
    pub open spec fn adc(self, mode: AddressingMode) -> CpuView {
        self.read_operand(mode).add_with_carry(self.memory_operand(mode)).penalty(
            self.crossed(mode),
        )
    }

    /// `SBC`: subtract memory and borrow, which is `ADC` of the complement of
    /// memory.
    #[verifier::opaque]
    pub open spec fn sbc(self, mode: AddressingMode) -> CpuView {
        self.read_operand(mode).add_with_carry(complement(self.memory_operand(mode))).penalty(
            self.crossed(mode),
        )
    }

    /// `AND`: bitwise and of memory into the accumulator; zero and negative
    /// from it.
    #[verifier::opaque]
    pub open spec fn and(self, mode: AddressingMode) -> CpuView {
        let result = self.regs.acc & self.memory_operand(mode);
        self.read_operand(mode).with_acc(result).with_zn(result).penalty(self.crossed(mode))
    }

    /// `ORA`: bitwise or of memory into the accumulator; zero and negative
    /// from it.
    #[verifier::opaque]
    pub open spec fn ora(self, mode: AddressingMode) -> CpuView {
        let result = self.regs.acc | self.memory_operand(mode);
        self.read_operand(mode).with_acc(result).with_zn(result).penalty(self.crossed(mode))
    }

    /// `EOR`: bitwise exclusive or of memory into the accumulator; zero and negative
    /// from it.
    #[verifier::opaque]
    pub open spec fn eor(self, mode: AddressingMode) -> CpuView {
        let result = self.regs.acc ^ self.memory_operand(mode);
        self.read_operand(mode).with_acc(result).with_zn(result).penalty(self.crossed(mode))
    }

    /// `BIT`: zero from `A & M`; negative and overflow are bits 7 and 6 of memory
    /// itself.
    #[verifier::opaque]
    pub open spec fn bit(self, mode: AddressingMode) -> CpuView {
        let operand = self.memory_operand(mode);
        self.read_operand(mode).with_flag(
            ProcessorStatus::ZERO_FLAG,
            operand & self.regs.acc == 0,
        ).with_flag(ProcessorStatus::NEGATIVE_FLAG, is_negative(operand)).with_flag(
            ProcessorStatus::OVERFLOW_FLAG,
            operand & 0x40 != 0,
        )
    }

    /// `CMP`: compare memory with the accumulator.
    #[verifier::opaque]
    pub open spec fn compare_acc(self, mode: AddressingMode) -> CpuView {
        self.read_operand(mode).compare(self.regs.acc, self.memory_operand(mode)).penalty(
            self.crossed(mode),
        )
    }

    /// `CPX`: compare memory with X.
    #[verifier::opaque]
    pub open spec fn compare_x(self, mode: AddressingMode) -> CpuView {
        self.read_operand(mode).compare(self.regs.idx_x, self.memory_operand(mode))
    }

    /// `CPY`: compare memory with Y.
    #[verifier::opaque]
    pub open spec fn compare_y(self, mode: AddressingMode) -> CpuView {
        self.read_operand(mode).compare(self.regs.idx_y, self.memory_operand(mode))
    }

    /// `ASL`: shift left; bit 7 goes to carry.
    #[verifier::opaque]
    pub open spec fn asl(self, mode: AddressingMode) -> CpuView {
        let operand = self.operand(mode);
        let result = shifted_left(operand, false);
        self.modified(mode, result).with_carry(is_negative(operand)).with_zn(result)
    }

    /// `LSR`: shift right; bit 0 goes to carry.
    #[verifier::opaque]
    pub open spec fn lsr(self, mode: AddressingMode) -> CpuView {
        let operand = self.operand(mode);
        let result = shifted_right(operand, false);
        self.modified(mode, result).with_carry(operand % 2 == 1).with_zn(result)
    }

    /// `ROL`: rotate left through carry.
    #[verifier::opaque]
    pub open spec fn rol(self, mode: AddressingMode) -> CpuView {
        let operand = self.operand(mode);
        let result = shifted_left(operand, self.carry());
        self.modified(mode, result).with_carry(is_negative(operand)).with_zn(result)
    }

    /// `ROR`: rotate right through carry.
    #[verifier::opaque]
    pub open spec fn ror(self, mode: AddressingMode) -> CpuView {
        let operand = self.operand(mode);
        let result = shifted_right(operand, self.carry());
        self.modified(mode, result).with_carry(operand % 2 == 1).with_zn(result)
    }

    /// `INC`: memory plus one, wrapping; zero and negative from it.
    #[verifier::opaque]
    pub open spec fn inc(self, mode: AddressingMode) -> CpuView {
        let result = self.operand(mode).wrapping_add(1);
        self.modified(mode, result).with_zn(result)
    }

    /// `DEC`: memory minus one, wrapping; zero and negative from it.
    #[verifier::opaque]
    pub open spec fn dec(self, mode: AddressingMode) -> CpuView {
        let result = self.operand(mode).wrapping_sub(1);
        self.modified(mode, result).with_zn(result)
    }

    /// `INX`: X plus one, wrapping; zero and negative from it.
    #[verifier::opaque]
    pub open spec fn inx(self) -> CpuView {
        let result = self.regs.idx_x.wrapping_add(1);
        self.with_x(result).with_zn(result)
    }

    /// `INY`: Y plus one, wrapping; zero and negative from it.
    #[verifier::opaque]
    pub open spec fn iny(self) -> CpuView {
        let result = self.regs.idx_y.wrapping_add(1);
        self.with_y(result).with_zn(result)
    }

    /// `DEX`: X minus one, wrapping; zero and negative from it.
    #[verifier::opaque]
    pub open spec fn dex(self) -> CpuView {
        let result = self.regs.idx_x.wrapping_sub(1);
        self.with_x(result).with_zn(result)
    }

    /// `DEY`: Y minus one, wrapping; zero and negative from it.
    #[verifier::opaque]
    pub open spec fn dey(self) -> CpuView {
        let result = self.regs.idx_y.wrapping_sub(1);
        self.with_y(result).with_zn(result)
    }

    /// `LDA`: load the accumulator from memory; zero and negative from it.
    #[verifier::opaque]
    pub open spec fn lda(self, mode: AddressingMode) -> CpuView {
        let operand = self.memory_operand(mode);
        self.read_operand(mode).with_acc(operand).with_zn(operand).penalty(self.crossed(mode))
    }

    /// `LDX`: load X from memory; zero and negative from it.
    #[verifier::opaque]
    pub open spec fn ldx(self, mode: AddressingMode) -> CpuView {
        let operand = self.memory_operand(mode);
        self.read_operand(mode).with_x(operand).with_zn(operand).penalty(self.crossed(mode))
    }

    /// `LDY`: load Y from memory; zero and negative from it.
    #[verifier::opaque]
    pub open spec fn ldy(self, mode: AddressingMode) -> CpuView {
        let operand = self.memory_operand(mode);
        self.read_operand(mode).with_y(operand).with_zn(operand).penalty(self.crossed(mode))
    }

    /// `LAX`: load the accumulator and X from memory; zero and negative from it.
    #[verifier::opaque]
    pub open spec fn lax(self, mode: AddressingMode) -> CpuView {
        let operand = self.memory_operand(mode);
        self.read_operand(mode).with_x(operand).with_acc(operand).with_zn(operand).penalty(
            self.crossed(mode),
        )
    }

    /// `STA`: store the accumulator; no flag changes.
    #[verifier::opaque]
    pub open spec fn sta(self, mode: AddressingMode) -> CpuView {
        self.store(self.resolve(mode).0, self.regs.acc)
    }

    /// `STX`: store X; no flag changes.
    #[verifier::opaque]
    pub open spec fn stx(self, mode: AddressingMode) -> CpuView {
        self.store(self.resolve(mode).0, self.regs.idx_x)
    }

    /// `STY`: store Y; no flag changes.
    #[verifier::opaque]
    pub open spec fn sty(self, mode: AddressingMode) -> CpuView {
        self.store(self.resolve(mode).0, self.regs.idx_y)
    }

    /// `SAX`: store `A & X`; no flag changes.
    #[verifier::opaque]
    pub open spec fn sax(self, mode: AddressingMode) -> CpuView {
        self.store(self.resolve(mode).0, self.regs.acc & self.regs.idx_x)
    }

    /// `TAX`: copy the accumulator to X; zero and negative from it.
    #[verifier::opaque]
    pub open spec fn tax(self) -> CpuView {
        self.with_x(self.regs.acc).with_zn(self.regs.acc)
    }

    /// `TAY`: copy the accumulator to Y; zero and negative from it.
    #[verifier::opaque]
    pub open spec fn tay(self) -> CpuView {
        self.with_y(self.regs.acc).with_zn(self.regs.acc)
    }

    /// `TSX`: copy the stack pointer to X; zero and negative from it.
    #[verifier::opaque]
    pub open spec fn tsx(self) -> CpuView {
        self.with_x(self.regs.sp).with_zn(self.regs.sp)
    }

    /// `TXA`: copy X to the accumulator; zero and negative from it.
    #[verifier::opaque]
    pub open spec fn txa(self) -> CpuView {
        self.with_acc(self.regs.idx_x).with_zn(self.regs.idx_x)
    }

    /// `TYA`: copy Y to the accumulator; zero and negative from it.
    #[verifier::opaque]
    pub open spec fn tya(self) -> CpuView {
        self.with_acc(self.regs.idx_y).with_zn(self.regs.idx_y)
    }

    /// `TXS`: copy X to the stack pointer; no flag changes.
    #[verifier::opaque]
    pub open spec fn txs(self) -> CpuView {
        self.with_sp(self.regs.idx_x)
    }

    /// `CLC`: clear carry.
    #[verifier::opaque]
    pub open spec fn clc(self) -> CpuView {
        self.with_flag(ProcessorStatus::CARRY_FLAG, false)
    }

    /// `SEC`: set carry.
    #[verifier::opaque]
    pub open spec fn sec(self) -> CpuView {
        self.with_flag(ProcessorStatus::CARRY_FLAG, true)
    }

    /// `CLI`: clear interrupt-disable.
    #[verifier::opaque]
    pub open spec fn cli(self) -> CpuView {
        self.with_flag(ProcessorStatus::INTERRUPT_DISABLE, false)
    }

    /// `SEI`: set interrupt-disable.
    #[verifier::opaque]
    pub open spec fn sei(self) -> CpuView {
        self.with_flag(ProcessorStatus::INTERRUPT_DISABLE, true)
    }

    /// `CLV`: clear overflow.
    #[verifier::opaque]
    pub open spec fn clv(self) -> CpuView {
        self.with_flag(ProcessorStatus::OVERFLOW_FLAG, false)
    }

    /// `CLD`: clear decimal mode.
    #[verifier::opaque]
    pub open spec fn cld(self) -> CpuView {
        self.with_flag(ProcessorStatus::DECIMAL_MODE, false)
    }

    /// `SED`: set decimal mode.
    #[verifier::opaque]
    pub open spec fn sed(self) -> CpuView {
        self.with_flag(ProcessorStatus::DECIMAL_MODE, true)
    }

    /// `BPL`: branch when negative is clear.
    pub open spec fn bpl(self) -> CpuView {
        self.branch(!self.regs.status.has(ProcessorStatus::NEGATIVE_FLAG))
    }

    /// `BMI`: branch when negative is set.
    pub open spec fn bmi(self) -> CpuView {
        self.branch(self.regs.status.has(ProcessorStatus::NEGATIVE_FLAG))
    }

    /// `BVC`: branch when overflow is clear.
    pub open spec fn bvc(self) -> CpuView {
        self.branch(!self.regs.status.has(ProcessorStatus::OVERFLOW_FLAG))
    }

    /// `BVS`: branch when overflow is set.
    pub open spec fn bvs(self) -> CpuView {
        self.branch(self.regs.status.has(ProcessorStatus::OVERFLOW_FLAG))
    }

    /// `BCC`: branch when carry is clear.
    pub open spec fn bcc(self) -> CpuView {
        self.branch(!self.regs.status.has(ProcessorStatus::CARRY_FLAG))
    }

    /// `BCS`: branch when carry is set.
    pub open spec fn bcs(self) -> CpuView {
        self.branch(self.regs.status.has(ProcessorStatus::CARRY_FLAG))
    }

    /// `BNE`: branch when zero is clear.
    pub open spec fn bne(self) -> CpuView {
        self.branch(!self.regs.status.has(ProcessorStatus::ZERO_FLAG))
    }

    /// `BEQ`: branch when zero is set.
    pub open spec fn beq(self) -> CpuView {
        self.branch(self.regs.status.has(ProcessorStatus::ZERO_FLAG))
    }

    /// `JMP`: continue at the effective address.
    #[verifier::opaque]
    pub open spec fn jmp(self, mode: AddressingMode) -> CpuView {
        self.with_pc(self.resolve(mode).0)
    }

    /// `JSR`: push the address of the last byte of the instruction, then continue at the
    /// effective address.
    #[verifier::opaque]
    pub open spec fn jsr(self, mode: AddressingMode, length: u8) -> CpuView {
        let last_byte = self.regs.pc.wrapping_add(length as u16).wrapping_sub(2);
        self.push_u16(last_byte).with_pc(self.resolve(mode).0)
    }

    /// `RTS`: pull an address and continue at the byte after it.
    #[verifier::opaque]
    pub open spec fn rts(self) -> CpuView {
        self.pop_u16().with_pc(self.top_u16().wrapping_add(1))
    }

    /// `RTI`: pull the status, without break and with bit 5, then pull the program
    /// counter.
    #[verifier::opaque]
    pub open spec fn rti(self) -> CpuView {
        let status = pulled_status(self.top());
        self.pop().pop_u16().with_status(status).with_pc(self.pop().top_u16())
    }

    /// `PHA`: push the accumulator.
    #[verifier::opaque]
    pub open spec fn pha(self) -> CpuView {
        self.push(self.regs.acc)
    }

    /// `PHP`: push the status with the break flag and bit 5 set.
    #[verifier::opaque]
    pub open spec fn php(self) -> CpuView {
        self.push(pushed_status(self.regs.status))
    }

    /// `PLA`: pull the accumulator; zero and negative from it.
    #[verifier::opaque]
    pub open spec fn pla(self) -> CpuView {
        self.pop().with_acc(self.top()).with_zn(self.top())
    }

    /// `PLP`: pull the status, without break and with bit 5.
    #[verifier::opaque]
    pub open spec fn plp(self) -> CpuView {
        self.pop().with_status(pulled_status(self.top()))
    }

    /// `BRK`: push the address of the byte after the padding byte and the status
    /// with the break flag set, hold interrupts off and continue at the address
    /// in the vector at `0xFFFE`.
    #[verifier::opaque]
    pub open spec fn brk(self) -> CpuView {
        let pushed = self.push_u16(self.regs.pc.wrapping_add(1)).push(
            pushed_status(self.regs.status),
        );
        pushed.with_flag(ProcessorStatus::INTERRUPT_DISABLE, true).with_pc(
            pushed.bus.peek_u16(0xFFFE),
        )
    }

    /// `NOP`: nothing, but for the cycle of an indexed mode that crossed a page.
    #[verifier::opaque]
    pub open spec fn nop(self, mode: AddressingMode) -> CpuView {
        self.penalty(self.crossed(mode))
    }

    /// `DCP`: decrement memory, then compare the accumulator with it.
    #[verifier::opaque]
    pub open spec fn dcp(self, mode: AddressingMode) -> CpuView {
        let result = self.operand(mode).wrapping_sub(1);
        self.modified(mode, result).compare(self.regs.acc, result)
    }

    /// `ISB`: increment memory, then subtract it from the accumulator.
    #[verifier::opaque]
    pub open spec fn isb(self, mode: AddressingMode) -> CpuView {
        let result = self.operand(mode).wrapping_add(1);
        self.modified(mode, result).add_with_carry(complement(result))
    }

    /// `SLO`: shift memory left, then or it into the accumulator.
    #[verifier::opaque]
    pub open spec fn slo(self, mode: AddressingMode) -> CpuView {
        let operand = self.operand(mode);
        let result = shifted_left(operand, false);
        let stored = self.modified(mode, result);
        let acc = stored.regs.acc | result;
        stored.with_carry(is_negative(operand)).with_acc(acc).with_zn(acc)
    }

    /// `RLA`: rotate memory left, then and it into the accumulator.
    #[verifier::opaque]
    pub open spec fn rla(self, mode: AddressingMode) -> CpuView {
        let operand = self.operand(mode);
        let result = shifted_left(operand, self.carry());
        let stored = self.modified(mode, result);
        let acc = stored.regs.acc & result;
        stored.with_carry(is_negative(operand)).with_acc(acc).with_zn(acc)
    }

    /// `SRE`: shift memory right, then exclusive-or it into the accumulator.
    #[verifier::opaque]
    pub open spec fn sre(self, mode: AddressingMode) -> CpuView {
        let operand = self.operand(mode);
        let result = shifted_right(operand, false);
        let stored = self.modified(mode, result);
        let acc = stored.regs.acc ^ result;
        stored.with_carry(operand % 2 == 1).with_acc(acc).with_zn(acc)
    }

    /// `RRA`: rotate memory right, then add it and the bit that left to the
    /// accumulator.
    #[verifier::opaque]
    pub open spec fn rra(self, mode: AddressingMode) -> CpuView {
        let operand = self.operand(mode);
        let result = shifted_right(operand, self.carry());
        self.modified(mode, result).with_carry(operand % 2 == 1).add_with_carry(result)
    }
}

/// What an addition leaves behind: the low byte of `A + operand + C` in the
/// accumulator, carry for a sum above 255, overflow for a signed overflow, zero
/// and negative from the accumulator, and every other flag as it was.
pub proof fn lemma_add_with_carry_flags(cpu: CpuView, operand: u8)
    ensures
        ({
            let sum = cpu.regs.acc + operand + if cpu.carry() {
                1int
            } else {
                0int
            };
            let added = cpu.add_with_carry(operand);
            &&& added.regs.acc == sum % 256
            &&& added.carry() == (sum > 0xFF)
            &&& added.regs.status.has(ProcessorStatus::OVERFLOW_FLAG) == signed_overflow(
                cpu.regs.acc,
                operand,
                added.regs.acc,
            )
            &&& added.regs.status.has(ProcessorStatus::ZERO_FLAG) == (added.regs.acc == 0)
            &&& added.regs.status.has(ProcessorStatus::NEGATIVE_FLAG) == is_negative(
                added.regs.acc,
            )
            &&& added.regs.status.bits & 0x3C == cpu.regs.status.bits & 0x3C
            &&& added == CpuView {
                regs: Registers { acc: added.regs.acc, status: added.regs.status, ..cpu.regs },
                ..cpu
            }
        }),
{
    let sum = cpu.regs.acc + operand + if cpu.carry() {
        1int
    } else {
        0int
    };
    let result = (sum % 256) as u8;
    let s0 = cpu.regs.status;
    let s1 = s0.with(ProcessorStatus::CARRY_FLAG, sum > 0xFF);
    let s2 = s1.with(
        ProcessorStatus::OVERFLOW_FLAG,
        signed_overflow(cpu.regs.acc, operand, result),
    );
    let s3 = s2.with(ProcessorStatus::ZERO_FLAG, result == 0);
    let s4 = s3.with(ProcessorStatus::NEGATIVE_FLAG, is_negative(result));
    assert(cpu.add_with_carry(operand).regs.status == s4);
    lemma_flag_reads_back(s0, ProcessorStatus::CARRY_FLAG, sum > 0xFF);
    lemma_flag_keeps_others(
        s1,
        ProcessorStatus::OVERFLOW_FLAG,
        signed_overflow(cpu.regs.acc, operand, result),
        ProcessorStatus::CARRY_FLAG,
    );
    lemma_flag_keeps_others(
        s2,
        ProcessorStatus::ZERO_FLAG,
        result == 0,
        ProcessorStatus::CARRY_FLAG,
    );
    lemma_flag_keeps_others(
        s3,
        ProcessorStatus::NEGATIVE_FLAG,
        is_negative(result),
        ProcessorStatus::CARRY_FLAG,
    );
    lemma_flag_reads_back(
        s1,
        ProcessorStatus::OVERFLOW_FLAG,
        signed_overflow(cpu.regs.acc, operand, result),
    );
    lemma_flag_keeps_others(
        s2,
        ProcessorStatus::ZERO_FLAG,
        result == 0,
        ProcessorStatus::OVERFLOW_FLAG,
    );
    lemma_flag_keeps_others(
        s3,
        ProcessorStatus::NEGATIVE_FLAG,
        is_negative(result),
        ProcessorStatus::OVERFLOW_FLAG,
    );
    lemma_flag_reads_back(s2, ProcessorStatus::ZERO_FLAG, result == 0);
    lemma_flag_keeps_others(
        s3,
        ProcessorStatus::NEGATIVE_FLAG,
        is_negative(result),
        ProcessorStatus::ZERO_FLAG,
    );
    lemma_flag_reads_back(s3, ProcessorStatus::NEGATIVE_FLAG, is_negative(result));
    let b0 = s0.bits;
    let b1 = s1.bits;
    let b2 = s2.bits;
    let b3 = s3.bits;
    assert((b0 | 0x01u8) & 0x3Cu8 == b0 & 0x3Cu8 && (b0 & !0x01u8) & 0x3Cu8 == b0 & 0x3Cu8)
        by (bit_vector);
    assert((b1 | 0x40u8) & 0x3Cu8 == b1 & 0x3Cu8 && (b1 & !0x40u8) & 0x3Cu8 == b1 & 0x3Cu8)
        by (bit_vector);
    assert((b2 | 0x02u8) & 0x3Cu8 == b2 & 0x3Cu8 && (b2 & !0x02u8) & 0x3Cu8 == b2 & 0x3Cu8)
        by (bit_vector);
    assert((b3 | 0x80u8) & 0x3Cu8 == b3 & 0x3Cu8 && (b3 & !0x80u8) & 0x3Cu8 == b3 & 0x3Cu8)
        by (bit_vector);
}

/// Adding `operand` with carry clear and then subtracting it with carry set
/// gives the accumulator back, whatever accumulator and operand are. Zero and
/// negative then describe the accumulator, overflow and carry are those of the
/// subtraction, and nothing else has changed but these four flags.
pub proof fn lemma_add_then_subtract_restores_accumulator(cpu: CpuView, operand: u8)
    ensures
        ({
            let added = cpu.with_flag(ProcessorStatus::CARRY_FLAG, false).add_with_carry(
                operand,
            );
            let restored = added.with_flag(ProcessorStatus::CARRY_FLAG, true).add_with_carry(
                complement(operand),
            );
            &&& added.regs.acc == (cpu.regs.acc + operand) % 256
            &&& restored.regs.acc == cpu.regs.acc
            &&& restored.regs.status.has(ProcessorStatus::ZERO_FLAG) == (cpu.regs.acc == 0)
            &&& restored.regs.status.has(ProcessorStatus::NEGATIVE_FLAG) == is_negative(
                cpu.regs.acc,
            )
            &&& restored.regs.status.has(ProcessorStatus::OVERFLOW_FLAG) == signed_overflow(
                added.regs.acc,
                complement(operand),
                cpu.regs.acc,
            )
            &&& restored.carry() == (added.regs.acc >= operand)
            &&& restored.regs.status.bits & 0x3C == cpu.regs.status.bits & 0x3C
            &&& restored == CpuView {
                regs: Registers { status: restored.regs.status, ..cpu.regs },
                ..cpu
            }
        }),
{
    let cleared = cpu.with_flag(ProcessorStatus::CARRY_FLAG, false);
    let added = cleared.add_with_carry(operand);
    let set = added.with_flag(ProcessorStatus::CARRY_FLAG, true);
    lemma_flag_reads_back(cpu.regs.status, ProcessorStatus::CARRY_FLAG, false);
    lemma_add_with_carry_flags(cleared, operand);
    lemma_flag_reads_back(added.regs.status, ProcessorStatus::CARRY_FLAG, true);
    lemma_add_with_carry_flags(set, complement(operand));
    let b = cpu.regs.status.bits;
    let a = added.regs.status.bits;
    assert((b & !0x01u8) & 0x3Cu8 == b & 0x3Cu8) by (bit_vector);
    assert((a | 0x01u8) & 0x3Cu8 == a & 0x3Cu8) by (bit_vector);
}

/// `CLC`, `ADC`, `SEC`, `SBC`, the two with the same immediate operand in
/// memory, leave the accumulator as it was, and zero and negative describe it.
/// Memory, the other registers and the cycle counter are as before: the
/// procedures leave the program counter and the base cycles to the step.
pub proof fn lemma_adc_then_sbc_is_identity(cpu: CpuView)
    requires
        !is_ppu_register(cpu.regs.pc),
    ensures
        ({
            let after = cpu.clc().adc(AddressingMode::Immediate).sec().sbc(
                AddressingMode::Immediate,
            );
            &&& after.regs.acc == cpu.regs.acc
            &&& after.regs.status.has(ProcessorStatus::ZERO_FLAG) == (cpu.regs.acc == 0)
            &&& after.regs.status.has(ProcessorStatus::NEGATIVE_FLAG) == is_negative(
                cpu.regs.acc,
            )
            &&& after == CpuView {
                regs: Registers { status: after.regs.status, ..cpu.regs },
                ..cpu
            }
        }),
{
    reveal(CpuView::clc);
    reveal(CpuView::adc);
    reveal(CpuView::sec);
    reveal(CpuView::sbc);
    lemma_add_then_subtract_restores_accumulator(cpu, cpu.bus.peek(cpu.regs.pc));
}

/// An instruction that reads its operand takes the cycle of a page crossing at
/// most beyond its base cost, and never takes cycles back.
pub proof fn lemma_reading_takes_time(cpu: CpuView, mode: AddressingMode)
    ensures
        cpu.cycles <= cpu.adc(mode).cycles <= cpu.cycles + 1,
        cpu.cycles <= cpu.sbc(mode).cycles <= cpu.cycles + 1,
        cpu.cycles <= cpu.and(mode).cycles <= cpu.cycles + 1,
        cpu.cycles <= cpu.ora(mode).cycles <= cpu.cycles + 1,
        cpu.cycles <= cpu.eor(mode).cycles <= cpu.cycles + 1,
        cpu.cycles <= cpu.bit(mode).cycles <= cpu.cycles + 1,
        cpu.cycles <= cpu.compare_acc(mode).cycles <= cpu.cycles + 1,
        cpu.cycles <= cpu.compare_x(mode).cycles <= cpu.cycles + 1,
        cpu.cycles <= cpu.compare_y(mode).cycles <= cpu.cycles + 1,
        cpu.cycles <= cpu.lda(mode).cycles <= cpu.cycles + 1,
        cpu.cycles <= cpu.ldx(mode).cycles <= cpu.cycles + 1,
        cpu.cycles <= cpu.ldy(mode).cycles <= cpu.cycles + 1,
        cpu.cycles <= cpu.lax(mode).cycles <= cpu.cycles + 1,
        cpu.cycles <= cpu.nop(mode).cycles <= cpu.cycles + 1,
{
    reveal(CpuView::adc);
    reveal(CpuView::sbc);
    reveal(CpuView::and);
    reveal(CpuView::ora);
    reveal(CpuView::eor);
    reveal(CpuView::bit);
    reveal(CpuView::compare_acc);
    reveal(CpuView::compare_x);
    reveal(CpuView::compare_y);
    reveal(CpuView::lda);
    reveal(CpuView::ldx);
    reveal(CpuView::ldy);
    reveal(CpuView::lax);
    reveal(CpuView::nop);
}

/// Reading an operand and writing a result in its place takes no cycles, but
/// for the 513 of a sprite transfer that the write may start.
pub proof fn lemma_modified_takes_time(cpu: CpuView, mode: AddressingMode)
    ensures
        forall|result: u8|
            cpu.cycles <= (#[trigger] cpu.modified(mode, result)).cycles <= cpu.cycles + 513,
{
    reveal(CpuView::modified);
    lemma_store_takes_time(cpu.read_operand(mode));
}

/// An instruction that changes its operand in place takes no cycles beyond its
/// base cost, but for the 513 of a sprite transfer that its write may start.
pub proof fn lemma_modifying_takes_time(cpu: CpuView, mode: AddressingMode)
    ensures
        cpu.cycles <= cpu.asl(mode).cycles <= cpu.cycles + 513,
        cpu.cycles <= cpu.lsr(mode).cycles <= cpu.cycles + 513,
        cpu.cycles <= cpu.rol(mode).cycles <= cpu.cycles + 513,
        cpu.cycles <= cpu.ror(mode).cycles <= cpu.cycles + 513,
        cpu.cycles <= cpu.inc(mode).cycles <= cpu.cycles + 513,
        cpu.cycles <= cpu.dec(mode).cycles <= cpu.cycles + 513,
        cpu.cycles <= cpu.dcp(mode).cycles <= cpu.cycles + 513,
        cpu.cycles <= cpu.isb(mode).cycles <= cpu.cycles + 513,
        cpu.cycles <= cpu.slo(mode).cycles <= cpu.cycles + 513,
        cpu.cycles <= cpu.rla(mode).cycles <= cpu.cycles + 513,
        cpu.cycles <= cpu.sre(mode).cycles <= cpu.cycles + 513,
        cpu.cycles <= cpu.rra(mode).cycles <= cpu.cycles + 513,
{
    reveal(CpuView::asl);
    reveal(CpuView::lsr);
    reveal(CpuView::rol);
    reveal(CpuView::ror);
    reveal(CpuView::inc);
    reveal(CpuView::dec);
    reveal(CpuView::dcp);
    reveal(CpuView::isb);
    reveal(CpuView::slo);
    reveal(CpuView::rla);
    reveal(CpuView::sre);
    reveal(CpuView::rra);
    lemma_modified_takes_time(cpu, mode);
}

/// A store takes no cycles beyond its base cost, but for the 513 of a sprite
/// transfer that it may start.
pub proof fn lemma_storing_takes_time(cpu: CpuView, mode: AddressingMode)
    ensures
        cpu.cycles <= cpu.sta(mode).cycles <= cpu.cycles + 513,
        cpu.cycles <= cpu.stx(mode).cycles <= cpu.cycles + 513,
        cpu.cycles <= cpu.sty(mode).cycles <= cpu.cycles + 513,
        cpu.cycles <= cpu.sax(mode).cycles <= cpu.cycles + 513,
{
    reveal(CpuView::sta);
    reveal(CpuView::stx);
    reveal(CpuView::sty);
    reveal(CpuView::sax);
    lemma_store_takes_time(cpu);
}

/// Instructions that work on registers and stack, and the jumps, take no
/// cycles beyond their base cost.
pub proof fn lemma_others_take_no_time(cpu: CpuView, mode: AddressingMode, length: u8)
    ensures
        cpu.inx().cycles == cpu.cycles,
        cpu.iny().cycles == cpu.cycles,
        cpu.dex().cycles == cpu.cycles,
        cpu.dey().cycles == cpu.cycles,
        cpu.tax().cycles == cpu.cycles,
        cpu.tay().cycles == cpu.cycles,
        cpu.tsx().cycles == cpu.cycles,
        cpu.txa().cycles == cpu.cycles,
        cpu.tya().cycles == cpu.cycles,
        cpu.txs().cycles == cpu.cycles,
        cpu.clc().cycles == cpu.cycles,
        cpu.sec().cycles == cpu.cycles,
        cpu.cli().cycles == cpu.cycles,
        cpu.sei().cycles == cpu.cycles,
        cpu.clv().cycles == cpu.cycles,
        cpu.cld().cycles == cpu.cycles,
        cpu.sed().cycles == cpu.cycles,
        cpu.rts().cycles == cpu.cycles,
        cpu.rti().cycles == cpu.cycles,
        cpu.pha().cycles == cpu.cycles,
        cpu.php().cycles == cpu.cycles,
        cpu.pla().cycles == cpu.cycles,
        cpu.plp().cycles == cpu.cycles,
        cpu.brk().cycles == cpu.cycles,
        cpu.jmp(mode).cycles == cpu.cycles,
        cpu.jsr(mode, length).cycles == cpu.cycles,
{
    reveal(CpuView::inx);
    reveal(CpuView::iny);
    reveal(CpuView::dex);
    reveal(CpuView::dey);
    reveal(CpuView::tax);
    reveal(CpuView::tay);
    reveal(CpuView::tsx);
    reveal(CpuView::txa);
    reveal(CpuView::tya);
    reveal(CpuView::txs);
    reveal(CpuView::clc);
    reveal(CpuView::sec);
    reveal(CpuView::cli);
    reveal(CpuView::sei);
    reveal(CpuView::clv);
    reveal(CpuView::cld);
    reveal(CpuView::sed);
    reveal(CpuView::rts);
    reveal(CpuView::rti);
    reveal(CpuView::pha);
    reveal(CpuView::php);
    reveal(CpuView::pla);
    reveal(CpuView::plp);
    reveal(CpuView::brk);
    reveal(CpuView::jmp);
    reveal(CpuView::jsr);
}

/// A branch takes two cycles at most beyond its base cost, and none where it
/// is not taken.
pub proof fn lemma_branch_takes_time(cpu: CpuView, condition: bool)
    ensures
        cpu.cycles <= cpu.branch(condition).cycles <= cpu.cycles + 2,
        !condition ==> cpu.branch(condition) == cpu,
{
    reveal(CpuView::branch);
}

/// An instruction that reads its operand leaves the machine well-formed.
pub proof fn lemma_reading_keeps_shape(cpu: CpuView, mode: AddressingMode)
    requires
        cpu.wf(),
    ensures
        cpu.adc(mode).wf(),
        cpu.sbc(mode).wf(),
        cpu.and(mode).wf(),
        cpu.ora(mode).wf(),
        cpu.eor(mode).wf(),
        cpu.bit(mode).wf(),
        cpu.compare_acc(mode).wf(),
        cpu.compare_x(mode).wf(),
        cpu.compare_y(mode).wf(),
        cpu.lda(mode).wf(),
        cpu.ldx(mode).wf(),
        cpu.ldy(mode).wf(),
        cpu.lax(mode).wf(),
        cpu.nop(mode).wf(),
{
    reveal(CpuView::adc);
    reveal(CpuView::sbc);
    reveal(CpuView::and);
    reveal(CpuView::ora);
    reveal(CpuView::eor);
    reveal(CpuView::bit);
    reveal(CpuView::compare_acc);
    reveal(CpuView::compare_x);
    reveal(CpuView::compare_y);
    reveal(CpuView::lda);
    reveal(CpuView::ldx);
    reveal(CpuView::ldy);
    reveal(CpuView::lax);
    reveal(CpuView::nop);
    lemma_load_keeps_shape(cpu);
}

/// Reading an operand and writing a result in its place leaves the machine
/// well-formed.
pub proof fn lemma_modified_keeps_shape(cpu: CpuView, mode: AddressingMode)
    requires
        cpu.wf(),
    ensures
        forall|result: u8| (#[trigger] cpu.modified(mode, result)).wf(),
{
    reveal(CpuView::modified);
    lemma_load_keeps_shape(cpu);
    assert(cpu.read_operand(mode).wf());
    lemma_store_keeps_shape(cpu.read_operand(mode));
}

/// An instruction that changes its operand in place leaves the machine
/// well-formed.
pub proof fn lemma_modifying_keeps_shape(cpu: CpuView, mode: AddressingMode)
    requires
        cpu.wf(),
    ensures
        cpu.asl(mode).wf(),
        cpu.lsr(mode).wf(),
        cpu.rol(mode).wf(),
        cpu.ror(mode).wf(),
        cpu.inc(mode).wf(),
        cpu.dec(mode).wf(),
        cpu.dcp(mode).wf(),
        cpu.isb(mode).wf(),
        cpu.slo(mode).wf(),
        cpu.rla(mode).wf(),
        cpu.sre(mode).wf(),
        cpu.rra(mode).wf(),
{
    reveal(CpuView::asl);
    reveal(CpuView::lsr);
    reveal(CpuView::rol);
    reveal(CpuView::ror);
    reveal(CpuView::inc);
    reveal(CpuView::dec);
    reveal(CpuView::dcp);
    reveal(CpuView::isb);
    reveal(CpuView::slo);
    reveal(CpuView::rla);
    reveal(CpuView::sre);
    reveal(CpuView::rra);
    lemma_modified_keeps_shape(cpu, mode);
}

/// A store leaves the machine well-formed.
pub proof fn lemma_storing_keeps_shape(cpu: CpuView, mode: AddressingMode)
    requires
        cpu.wf(),
    ensures
        cpu.sta(mode).wf(),
        cpu.stx(mode).wf(),
        cpu.sty(mode).wf(),
        cpu.sax(mode).wf(),
{
    reveal(CpuView::sta);
    reveal(CpuView::stx);
    reveal(CpuView::sty);
    reveal(CpuView::sax);
    lemma_store_keeps_shape(cpu);
}

/// Instructions that work on registers and stack, and the jumps, leave the
/// machine well-formed.
pub proof fn lemma_others_keep_shape(cpu: CpuView, mode: AddressingMode, length: u8)
    requires
        cpu.wf(),
    ensures
        cpu.inx().wf(),
        cpu.iny().wf(),
        cpu.dex().wf(),
        cpu.dey().wf(),
        cpu.tax().wf(),
        cpu.tay().wf(),
        cpu.tsx().wf(),
        cpu.txa().wf(),
        cpu.tya().wf(),
        cpu.txs().wf(),
        cpu.clc().wf(),
        cpu.sec().wf(),
        cpu.cli().wf(),
        cpu.sei().wf(),
        cpu.clv().wf(),
        cpu.cld().wf(),
        cpu.sed().wf(),
        cpu.rts().wf(),
        cpu.rti().wf(),
        cpu.pha().wf(),
        cpu.php().wf(),
        cpu.pla().wf(),
        cpu.plp().wf(),
        cpu.brk().wf(),
        cpu.jmp(mode).wf(),
        cpu.jsr(mode, length).wf(),
{
    reveal(CpuView::inx);
    reveal(CpuView::iny);
    reveal(CpuView::dex);
    reveal(CpuView::dey);
    reveal(CpuView::tax);
    reveal(CpuView::tay);
    reveal(CpuView::tsx);
    reveal(CpuView::txa);
    reveal(CpuView::tya);
    reveal(CpuView::txs);
    reveal(CpuView::clc);
    reveal(CpuView::sec);
    reveal(CpuView::cli);
    reveal(CpuView::sei);
    reveal(CpuView::clv);
    reveal(CpuView::cld);
    reveal(CpuView::sed);
    reveal(CpuView::rts);
    reveal(CpuView::rti);
    reveal(CpuView::pha);
    reveal(CpuView::php);
    reveal(CpuView::pla);
    reveal(CpuView::plp);
    reveal(CpuView::brk);
    reveal(CpuView::jmp);
    reveal(CpuView::jsr);
}

/// A branch leaves the machine well-formed.
pub proof fn lemma_branch_keeps_shape(cpu: CpuView, condition: bool)
    requires
        cpu.wf(),
    ensures
        cpu.branch(condition).wf(),
{
    reveal(CpuView::branch);
}

/// `value` moved left by one bit, with `carry_in` coming in as bit 0.
pub fn shift_left(value: u8, carry_in: bool) -> (result: u8)
    ensures
        result == shifted_left(value, carry_in),
{
    assert((value << 1u8) | 1u8 == (value * 2 + 1) % 256 && (value << 1u8) == (value * 2) % 256)
        by (bit_vector);
    if carry_in {
        (value << 1u8) | 0x1
    } else {
        value << 1u8
    }
}

/// `value` moved right by one bit, with `carry_in` coming in as bit 7.
pub fn shift_right(value: u8, carry_in: bool) -> (result: u8)
    ensures
        result == shifted_right(value, carry_in),
{
    assert((value >> 1u8) | 0x80u8 == value / 2 + 128 && (value >> 1u8) == value / 2)
        by (bit_vector);
    if carry_in {
        (value >> 1u8) | 0x80
    } else {
        value >> 1u8
    }
}

impl Emu {
    /// Reads the operand of an instruction that only reads it.
    fn read_operand(cpu: &mut Cpu, mode: AddressingMode) -> (read: (u8, bool))
        requires
            old(cpu)@.can_read(mode),
        ensures
            read.0 == old(cpu)@.memory_operand(mode),
            read.1 == old(cpu)@.crossed(mode),
            final(cpu)@ == old(cpu)@.read_operand(mode),
    {
        let (addr, page_cross) = cpu.resolve_adressing(mode);
        let op = cpu.bus.read_u8(addr);
        (op, page_cross)
    }

    /// Reads the operand of an instruction that changes it in place.
    fn fetch(cpu: &mut Cpu, mode: AddressingMode) -> (fetched: (u8, Addr))
        requires
            old(cpu)@.can_modify(mode),
        ensures
            fetched.0 == old(cpu)@.operand(mode),
            fetched.1 == old(cpu)@.resolve(mode).0,
            final(cpu)@ == if mode == AddressingMode::Accumulator {
                old(cpu)@
            } else {
                old(cpu)@.read_operand(mode)
            },
    {
        let (addr, _) = cpu.resolve_adressing(mode);
        if let AddressingMode::Accumulator = mode {
            (cpu.regs.acc, addr)
        } else {
            (cpu.bus.read_u8(addr), addr)
        }
    }

    /// Writes the result of an instruction that changes its operand in place.
    fn write_back(cpu: &mut Cpu, mode: AddressingMode, addr: Addr, result: u8)
        requires
            mode == AddressingMode::Accumulator || writable(addr),
            old(cpu)@.has_headroom(),
        ensures
            final(cpu)@ == if mode == AddressingMode::Accumulator {
                old(cpu)@.with_acc(result)
            } else {
                old(cpu)@.store(addr, result)
            },
            old(cpu)@.cycles <= final(cpu)@.cycles <= old(cpu)@.cycles + 513,
    {
        if let AddressingMode::Accumulator = mode {
            cpu.regs.acc = result;
        } else {
            cpu.store(addr, result);
        }
    }

    /// Charges the cycle of a page crossing.
    fn penalty(cpu: &mut Cpu, page_cross: bool)
        requires
            old(cpu)@.has_headroom(),
        ensures
            final(cpu)@ == old(cpu)@.penalty(page_cross),
            old(cpu)@.cycles <= final(cpu)@.cycles <= old(cpu)@.cycles + 1,
    {
        if page_cross {
            cpu.tick(1);
        }
    }

    /// Adds `op` and carry to the accumulator and sets carry, overflow, zero and
    /// negative. Carry records the unsigned overflow of the sum, overflow the
    /// signed one.
    fn add_with_carry(cpu: &mut Cpu, op: u8)
        ensures
            final(cpu)@ == old(cpu)@.add_with_carry(op),
    {
        let acc = cpu.regs.acc;
        let carry: u16 = if cpu.regs.status.contains(ProcessorStatus::CARRY_FLAG) {
            0x1
        } else {
            0x0
        };
        let sum: u16 = acc as u16 + op as u16 + carry;
        let result: u8 = (sum % 256) as u8;

        let ops_have_same_sign = (acc ^ op) & 0x80 == 0x0;
        let result_has_same_sign = (acc ^ result) & 0x80 == 0x0;
        let overflow = ops_have_same_sign && !result_has_same_sign;
        assert(((acc ^ op) & 0x80 == 0) == ((acc >= 0x80) == (op >= 0x80))) by (bit_vector);
        assert(((acc ^ result) & 0x80 == 0) == ((acc >= 0x80) == (result >= 0x80)))
            by (bit_vector);

        cpu.regs.status.set_carry_flag(sum > 0xFF).set_overflow_flag(overflow).set_zero_flag(
            result,
        ).set_negative_flag(result);
        cpu.regs.acc = result;
    }

    /// Sets carry, zero and negative from `register - op`.
    fn compare(cpu: &mut Cpu, register: u8, op: u8)
        ensures
            final(cpu)@ == old(cpu)@.compare(register, op),
    {
        let res = register.wrapping_sub(op);
        cpu.regs.status.set_carry_flag(register >= op).set_zero_flag(res).set_negative_flag(res);
    }

    /// Sets zero and negative from `value`.
    fn set_zn(cpu: &mut Cpu, value: u8)
        ensures
            final(cpu)@ == old(cpu)@.with_zn(value),
    {
        cpu.regs.status.set_zero_flag(value).set_negative_flag(value);
    }

    /// Takes the branch where `condition` holds.
    fn branch(cpu: &mut Cpu, condition: bool)
        requires
            old(cpu)@.has_headroom(),
        ensures
            final(cpu)@ == old(cpu)@.branch(condition),
            old(cpu)@.cycles <= final(cpu)@.cycles <= old(cpu)@.cycles + 2,
    {
        reveal(CpuView::branch);
        if condition {
            let op = to_signed(cpu.bus.peek_u8(cpu.regs.pc));
            let pc = cpu.regs.pc;
            let new_pc = pc.wrapping_add_signed(op as i16);
            cpu.tick(1);
            if Cpu::is_page_cross(new_pc.wrapping_add(1), pc.wrapping_add(1)) {
                cpu.tick(1);
            }
            cpu.regs.pc = new_pc;
        }
    }

    /// Executes `ADC`.
    pub fn adc(cpu: &mut Cpu, instr: &Instruction)
        requires
            old(cpu)@.can_read(instr.mode),
            old(cpu)@.has_headroom(),
        ensures
            final(cpu)@ == old(cpu)@.adc(instr.mode),
            old(cpu)@.cycles <= final(cpu)@.cycles <= old(cpu)@.cycles + 513,
    {
        reveal(CpuView::adc);
        let (op, page_cross) = Emu::read_operand(cpu, instr.mode);
        Emu::add_with_carry(cpu, op);
        Emu::penalty(cpu, page_cross);
    }

    /// Executes `AND`.
    pub fn and(cpu: &mut Cpu, instr: &Instruction)
        requires
            old(cpu)@.can_read(instr.mode),
            old(cpu)@.has_headroom(),
        ensures
            final(cpu)@ == old(cpu)@.and(instr.mode),
            old(cpu)@.cycles <= final(cpu)@.cycles <= old(cpu)@.cycles + 513,
    {
        reveal(CpuView::and);
        let (op, page_cross) = Emu::read_operand(cpu, instr.mode);
        cpu.regs.acc &= op;
        Emu::set_zn(cpu, cpu.regs.acc);
        Emu::penalty(cpu, page_cross);
    }

    /// Executes `ASL`.
    pub fn asl(cpu: &mut Cpu, instr: &Instruction)
        requires
            old(cpu)@.can_modify(instr.mode),
            old(cpu)@.has_headroom(),
        ensures
            final(cpu)@ == old(cpu)@.asl(instr.mode),
            old(cpu)@.cycles <= final(cpu)@.cycles <= old(cpu)@.cycles + 513,
    {
        reveal(CpuView::asl);
        reveal(CpuView::modified);
        let (op, addr) = Emu::fetch(cpu, instr.mode);
        assert((op & 0x80 != 0) == (op >= 0x80)) by (bit_vector);
        let result = shift_left(op, false);
        Emu::write_back(cpu, instr.mode, addr, result);
        // Bit 7 goes to the carry flag.
        cpu.regs.status.set_carry_flag(op & 0x80 != 0).set_zero_flag(result).set_negative_flag(
            result,
        );
    }

    /// Executes `BCC`.
    pub fn bcc(cpu: &mut Cpu, _instr: &Instruction)
        requires
            old(cpu)@.has_headroom(),
        ensures
            final(cpu)@ == old(cpu)@.bcc(),
            old(cpu)@.cycles <= final(cpu)@.cycles <= old(cpu)@.cycles + 513,
    {
        let taken = !cpu.regs.status.contains(ProcessorStatus::CARRY_FLAG);
        Emu::branch(cpu, taken);
    }

    /// Executes `BCS`.
    pub fn bcs(cpu: &mut Cpu, _instr: &Instruction)
        requires
            old(cpu)@.has_headroom(),
        ensures
            final(cpu)@ == old(cpu)@.bcs(),
            old(cpu)@.cycles <= final(cpu)@.cycles <= old(cpu)@.cycles + 513,
    {
        let taken = cpu.regs.status.contains(ProcessorStatus::CARRY_FLAG);
        Emu::branch(cpu, taken);
    }

    /// Executes `BEQ`.
    pub fn beq(cpu: &mut Cpu, _instr: &Instruction)
        requires
            old(cpu)@.has_headroom(),
        ensures
            final(cpu)@ == old(cpu)@.beq(),
            old(cpu)@.cycles <= final(cpu)@.cycles <= old(cpu)@.cycles + 513,
    {
        let taken = cpu.regs.status.contains(ProcessorStatus::ZERO_FLAG);
        Emu::branch(cpu, taken);
    }

    /// Executes `BRK`.
    pub fn brk(cpu: &mut Cpu, _instr: &Instruction)
        ensures
            final(cpu)@ == old(cpu)@.brk(),
            old(cpu)@.cycles <= final(cpu)@.cycles <= old(cpu)@.cycles + 513,
    {
        reveal(CpuView::brk);
        let flags = cpu.regs.status;
        let mut pushed = flags;
        // The copy on the stack has the break flag and bit 5 set.
        pushed.set(ProcessorStatus::BREAK_CMD, true);
        pushed.set(ProcessorStatus::BREAK_CMD2, true);

        cpu.stack_push_u16(cpu.regs.pc.wrapping_add(1));
        cpu.stack_push_u8(pushed.bits());
        cpu.regs.status.set(ProcessorStatus::INTERRUPT_DISABLE, true);
        cpu.regs.pc = cpu.bus.peek_u16(0xFFFE);
    }

    /// Executes `BNE`.
    pub fn bne(cpu: &mut Cpu, _instr: &Instruction)
        requires
            old(cpu)@.has_headroom(),
        ensures
            final(cpu)@ == old(cpu)@.bne(),
            old(cpu)@.cycles <= final(cpu)@.cycles <= old(cpu)@.cycles + 513,
    {
        let taken = !cpu.regs.status.contains(ProcessorStatus::ZERO_FLAG);
        Emu::branch(cpu, taken);
    }

    /// Executes `BMI`.
    pub fn bmi(cpu: &mut Cpu, _instr: &Instruction)
        requires
            old(cpu)@.has_headroom(),
        ensures
            final(cpu)@ == old(cpu)@.bmi(),
            old(cpu)@.cycles <= final(cpu)@.cycles <= old(cpu)@.cycles + 513,
    {
        let taken = cpu.regs.status.contains(ProcessorStatus::NEGATIVE_FLAG);
        Emu::branch(cpu, taken);
    }

    /// Executes `BPL`.
    pub fn bpl(cpu: &mut Cpu, _instr: &Instruction)
        requires
            old(cpu)@.has_headroom(),
        ensures
            final(cpu)@ == old(cpu)@.bpl(),
            old(cpu)@.cycles <= final(cpu)@.cycles <= old(cpu)@.cycles + 513,
    {
        let taken = !cpu.regs.status.contains(ProcessorStatus::NEGATIVE_FLAG);
        Emu::branch(cpu, taken);
    }

    /// Executes `BVS`.
    pub fn bvs(cpu: &mut Cpu, _instr: &Instruction)
        requires
            old(cpu)@.has_headroom(),
        ensures
            final(cpu)@ == old(cpu)@.bvs(),
            old(cpu)@.cycles <= final(cpu)@.cycles <= old(cpu)@.cycles + 513,
    {
        let taken = cpu.regs.status.contains(ProcessorStatus::OVERFLOW_FLAG);
        Emu::branch(cpu, taken);
    }

    /// Executes `BVC`.
    pub fn bvc(cpu: &mut Cpu, _instr: &Instruction)
        requires
            old(cpu)@.has_headroom(),
        ensures
            final(cpu)@ == old(cpu)@.bvc(),
            old(cpu)@.cycles <= final(cpu)@.cycles <= old(cpu)@.cycles + 513,
    {
        let taken = !cpu.regs.status.contains(ProcessorStatus::OVERFLOW_FLAG);
        Emu::branch(cpu, taken);
    }

    /// Executes `BIT`.
    pub fn bit(cpu: &mut Cpu, instr: &Instruction)
        requires
            old(cpu)@.can_read(instr.mode),
        ensures
            final(cpu)@ == old(cpu)@.bit(instr.mode),
            old(cpu)@.cycles <= final(cpu)@.cycles <= old(cpu)@.cycles + 513,
    {
        reveal(CpuView::bit);
        let (op, _) = Emu::read_operand(cpu, instr.mode);
        let is_neg_set = op & 0x80 != 0x0;
        let is_of_set = op & 0x40 != 0x0;
        assert((op & 0x80 != 0) == (op >= 0x80)) by (bit_vector);

        cpu.regs.status.set(ProcessorStatus::ZERO_FLAG, op & cpu.regs.acc == 0);
        // Bits 7 and 6 of memory itself go to negative and overflow.
        cpu.regs.status.set(ProcessorStatus::NEGATIVE_FLAG, is_neg_set);
        cpu.regs.status.set(ProcessorStatus::OVERFLOW_FLAG, is_of_set);
    }

    /// Executes `CLC`.
    pub fn clc(cpu: &mut Cpu, _instr: &Instruction)
        ensures
            final(cpu)@ == old(cpu)@.clc(),
            old(cpu)@.cycles <= final(cpu)@.cycles <= old(cpu)@.cycles + 513,
    {
        reveal(CpuView::clc);
        cpu.regs.status.set(ProcessorStatus::CARRY_FLAG, false);
    }

    /// Executes `CLD`.
    pub fn cld(cpu: &mut Cpu, _instr: &Instruction)
        ensures
            final(cpu)@ == old(cpu)@.cld(),
            old(cpu)@.cycles <= final(cpu)@.cycles <= old(cpu)@.cycles + 513,
    {
        reveal(CpuView::cld);
        cpu.regs.status.set(ProcessorStatus::DECIMAL_MODE, false);
    }

    /// Executes `CLI`.
    pub fn cli(cpu: &mut Cpu, _instr: &Instruction)
        ensures
            final(cpu)@ == old(cpu)@.cli(),
            old(cpu)@.cycles <= final(cpu)@.cycles <= old(cpu)@.cycles + 513,
    {
        reveal(CpuView::cli);
        cpu.regs.status.set(ProcessorStatus::INTERRUPT_DISABLE, false);
    }

    /// Executes `CLV`.
    pub fn clv(cpu: &mut Cpu, _instr: &Instruction)
        ensures
            final(cpu)@ == old(cpu)@.clv(),
            old(cpu)@.cycles <= final(cpu)@.cycles <= old(cpu)@.cycles + 513,
    {
        reveal(CpuView::clv);
        cpu.regs.status.set(ProcessorStatus::OVERFLOW_FLAG, false);
    }

    /// Executes `CMP`.
    pub fn cmp(cpu: &mut Cpu, instr: &Instruction)
        requires
            old(cpu)@.can_read(instr.mode),
            old(cpu)@.has_headroom(),
        ensures
            final(cpu)@ == old(cpu)@.compare_acc(instr.mode),
            old(cpu)@.cycles <= final(cpu)@.cycles <= old(cpu)@.cycles + 513,
    {
        reveal(CpuView::compare_acc);
        let (op, page_cross) = Emu::read_operand(cpu, instr.mode);
        Emu::compare(cpu, cpu.regs.acc, op);
        Emu::penalty(cpu, page_cross);
    }

    /// Executes `CPX`.
    pub fn cpx(cpu: &mut Cpu, instr: &Instruction)
        requires
            old(cpu)@.can_read(instr.mode),
        ensures
            final(cpu)@ == old(cpu)@.compare_x(instr.mode),
            old(cpu)@.cycles <= final(cpu)@.cycles <= old(cpu)@.cycles + 513,
    {
        reveal(CpuView::compare_x);
        let (op, _) = Emu::read_operand(cpu, instr.mode);
        Emu::compare(cpu, cpu.regs.idx_x, op);
    }

    /// Executes `CPY`.
    pub fn cpy(cpu: &mut Cpu, instr: &Instruction)
        requires
            old(cpu)@.can_read(instr.mode),
        ensures
            final(cpu)@ == old(cpu)@.compare_y(instr.mode),
            old(cpu)@.cycles <= final(cpu)@.cycles <= old(cpu)@.cycles + 513,
    {
        reveal(CpuView::compare_y);
        let (op, _) = Emu::read_operand(cpu, instr.mode);
        Emu::compare(cpu, cpu.regs.idx_y, op);
    }

    /// Executes `DEC`.
    pub fn dec(cpu: &mut Cpu, instr: &Instruction)
        requires
            old(cpu)@.can_modify(instr.mode),
            old(cpu)@.has_headroom(),
        ensures
            final(cpu)@ == old(cpu)@.dec(instr.mode),
            old(cpu)@.cycles <= final(cpu)@.cycles <= old(cpu)@.cycles + 513,
    {
        reveal(CpuView::dec);
        reveal(CpuView::modified);
        let (op, addr) = Emu::fetch(cpu, instr.mode);
        let result = op.wrapping_sub(1);
        Emu::write_back(cpu, instr.mode, addr, result);
        Emu::set_zn(cpu, result);
    }

    /// Executes `DEX`.
    pub fn dex(cpu: &mut Cpu, _instr: &Instruction)
        ensures
            final(cpu)@ == old(cpu)@.dex(),
            old(cpu)@.cycles <= final(cpu)@.cycles <= old(cpu)@.cycles + 513,
    {
        reveal(CpuView::dex);
        cpu.regs.idx_x = cpu.regs.idx_x.wrapping_sub(1);
        Emu::set_zn(cpu, cpu.regs.idx_x);
    }

    /// Executes `DEY`.
    pub fn dey(cpu: &mut Cpu, _instr: &Instruction)
        ensures
            final(cpu)@ == old(cpu)@.dey(),
            old(cpu)@.cycles <= final(cpu)@.cycles <= old(cpu)@.cycles + 513,
    {
        reveal(CpuView::dey);
        cpu.regs.idx_y = cpu.regs.idx_y.wrapping_sub(1);
        Emu::set_zn(cpu, cpu.regs.idx_y);
    }

    /// Executes `EOR`.
    pub fn eor(cpu: &mut Cpu, instr: &Instruction)
        requires
            old(cpu)@.can_read(instr.mode),
            old(cpu)@.has_headroom(),
        ensures
            final(cpu)@ == old(cpu)@.eor(instr.mode),
            old(cpu)@.cycles <= final(cpu)@.cycles <= old(cpu)@.cycles + 513,
    {
        reveal(CpuView::eor);
        let (op, page_cross) = Emu::read_operand(cpu, instr.mode);
        cpu.regs.acc ^= op;
        Emu::set_zn(cpu, cpu.regs.acc);
        Emu::penalty(cpu, page_cross);
    }

    /// Executes `INC`.
    pub fn inc(cpu: &mut Cpu, instr: &Instruction)
        requires
            old(cpu)@.can_modify(instr.mode),
            old(cpu)@.has_headroom(),
        ensures
            final(cpu)@ == old(cpu)@.inc(instr.mode),
            old(cpu)@.cycles <= final(cpu)@.cycles <= old(cpu)@.cycles + 513,
    {
        reveal(CpuView::inc);
        reveal(CpuView::modified);
        let (op, addr) = Emu::fetch(cpu, instr.mode);
        let result = op.wrapping_add(1);
        Emu::write_back(cpu, instr.mode, addr, result);
        Emu::set_zn(cpu, result);
    }

    /// Executes `INX`.
    pub fn inx(cpu: &mut Cpu, _instr: &Instruction)
        ensures
            final(cpu)@ == old(cpu)@.inx(),
            old(cpu)@.cycles <= final(cpu)@.cycles <= old(cpu)@.cycles + 513,
    {
        reveal(CpuView::inx);
        cpu.regs.idx_x = cpu.regs.idx_x.wrapping_add(1);
        Emu::set_zn(cpu, cpu.regs.idx_x);
    }

    /// Executes `INY`.
    pub fn iny(cpu: &mut Cpu, _instr: &Instruction)
        ensures
            final(cpu)@ == old(cpu)@.iny(),
            old(cpu)@.cycles <= final(cpu)@.cycles <= old(cpu)@.cycles + 513,
    {
        reveal(CpuView::iny);
        cpu.regs.idx_y = cpu.regs.idx_y.wrapping_add(1);
        Emu::set_zn(cpu, cpu.regs.idx_y);
    }

    /// Executes `JMP`.
    pub fn jmp(cpu: &mut Cpu, instr: &Instruction)
        ensures
            final(cpu)@ == old(cpu)@.jmp(instr.mode),
            old(cpu)@.cycles <= final(cpu)@.cycles <= old(cpu)@.cycles + 513,
    {
        reveal(CpuView::jmp);
        let (addr, _) = cpu.resolve_adressing(instr.mode);

        cpu.regs.pc = addr;
    }

    /// Executes `JSR`.
    pub fn jsr(cpu: &mut Cpu, instr: &Instruction)
        ensures
            final(cpu)@ == old(cpu)@.jsr(instr.mode, instr.length),
            old(cpu)@.cycles <= final(cpu)@.cycles <= old(cpu)@.cycles + 513,
    {
        reveal(CpuView::jsr);
        let (addr, _) = cpu.resolve_adressing(instr.mode);

        let last_byte = cpu.regs.pc.wrapping_add(instr.length as u16).wrapping_sub(2);
        cpu.stack_push_u16(last_byte);

        cpu.regs.pc = addr;
    }

    /// Executes `LDA`.
    pub fn lda(cpu: &mut Cpu, instr: &Instruction)
        requires
            old(cpu)@.can_read(instr.mode),
            old(cpu)@.has_headroom(),
        ensures
            final(cpu)@ == old(cpu)@.lda(instr.mode),
            old(cpu)@.cycles <= final(cpu)@.cycles <= old(cpu)@.cycles + 513,
    {
        reveal(CpuView::lda);
        let (op, page_cross) = Emu::read_operand(cpu, instr.mode);
        cpu.regs.acc = op;
        Emu::set_zn(cpu, op);
        Emu::penalty(cpu, page_cross);
    }

    /// Executes `LDX`.
    pub fn ldx(cpu: &mut Cpu, instr: &Instruction)
        requires
            old(cpu)@.can_read(instr.mode),
            old(cpu)@.has_headroom(),
        ensures
            final(cpu)@ == old(cpu)@.ldx(instr.mode),
            old(cpu)@.cycles <= final(cpu)@.cycles <= old(cpu)@.cycles + 513,
    {
        reveal(CpuView::ldx);
        let (op, page_cross) = Emu::read_operand(cpu, instr.mode);
        cpu.regs.idx_x = op;
        Emu::set_zn(cpu, op);
        Emu::penalty(cpu, page_cross);
    }

    /// Executes `LDY`.
    pub fn ldy(cpu: &mut Cpu, instr: &Instruction)
        requires
            old(cpu)@.can_read(instr.mode),
            old(cpu)@.has_headroom(),
        ensures
            final(cpu)@ == old(cpu)@.ldy(instr.mode),
            old(cpu)@.cycles <= final(cpu)@.cycles <= old(cpu)@.cycles + 513,
    {
        reveal(CpuView::ldy);
        let (op, page_cross) = Emu::read_operand(cpu, instr.mode);
        cpu.regs.idx_y = op;
        Emu::set_zn(cpu, op);
        Emu::penalty(cpu, page_cross);
    }

    /// Executes `LSR`.
    pub fn lsr(cpu: &mut Cpu, instr: &Instruction)
        requires
            old(cpu)@.can_modify(instr.mode),
            old(cpu)@.has_headroom(),
        ensures
            final(cpu)@ == old(cpu)@.lsr(instr.mode),
            old(cpu)@.cycles <= final(cpu)@.cycles <= old(cpu)@.cycles + 513,
    {
        reveal(CpuView::lsr);
        reveal(CpuView::modified);
        let (op, addr) = Emu::fetch(cpu, instr.mode);
        let result = shift_right(op, false);
        Emu::write_back(cpu, instr.mode, addr, result);
        // Bit 0 goes to the carry flag.
        cpu.regs.status.set_carry_flag(op % 2 == 1).set_zero_flag(result).set_negative_flag(result);
    }

    /// Executes `NOP`. The undocumented forms with an operand still resolve it,
    /// for the cycle of a page crossing.
    pub fn nop(cpu: &mut Cpu, instr: &Instruction)
        requires
            old(cpu)@.has_headroom(),
        ensures
            final(cpu)@ == old(cpu)@.nop(instr.mode),
            old(cpu)@.cycles <= final(cpu)@.cycles <= old(cpu)@.cycles + 513,
    {
        reveal(CpuView::nop);
        let (_, page_cross) = cpu.resolve_adressing(instr.mode);
        Emu::penalty(cpu, page_cross);
    }

    /// Executes `ORA`.
    pub fn ora(cpu: &mut Cpu, instr: &Instruction)
        requires
            old(cpu)@.can_read(instr.mode),
            old(cpu)@.has_headroom(),
        ensures
            final(cpu)@ == old(cpu)@.ora(instr.mode),
            old(cpu)@.cycles <= final(cpu)@.cycles <= old(cpu)@.cycles + 513,
    {
        reveal(CpuView::ora);
        let (op, page_cross) = Emu::read_operand(cpu, instr.mode);
        cpu.regs.acc |= op;
        Emu::set_zn(cpu, cpu.regs.acc);
        Emu::penalty(cpu, page_cross);
    }

    /// Executes `PHA`.
    pub fn pha(cpu: &mut Cpu, _instr: &Instruction)
        ensures
            final(cpu)@ == old(cpu)@.pha(),
            old(cpu)@.cycles <= final(cpu)@.cycles <= old(cpu)@.cycles + 513,
    {
        reveal(CpuView::pha);
        cpu.stack_push_u8(cpu.regs.acc);
    }

    /// Executes `PHP`.
    pub fn php(cpu: &mut Cpu, _instr: &Instruction)
        ensures
            final(cpu)@ == old(cpu)@.php(),
            old(cpu)@.cycles <= final(cpu)@.cycles <= old(cpu)@.cycles + 513,
    {
        reveal(CpuView::php);
        let mut flags = cpu.regs.status;

        // The copy on the stack has the break flag and bit 5 set.
        flags.set(ProcessorStatus::BREAK_CMD, true);
        flags.set(ProcessorStatus::BREAK_CMD2, true);

        cpu.stack_push_u8(flags.bits());
    }

    /// Executes `PLA`.
    pub fn pla(cpu: &mut Cpu, _instr: &Instruction)
        ensures
            final(cpu)@ == old(cpu)@.pla(),
            old(cpu)@.cycles <= final(cpu)@.cycles <= old(cpu)@.cycles + 513,
    {
        reveal(CpuView::pla);
        cpu.regs.acc = cpu.stack_pop_u8();
        Emu::set_zn(cpu, cpu.regs.acc);
    }

    /// Executes `PLP`. Bit 5 of the status is set afterwards, and the break flag
    /// clear.
    pub fn plp(cpu: &mut Cpu, _instr: &Instruction)
        ensures
            final(cpu)@ == old(cpu)@.plp(),
            old(cpu)@.cycles <= final(cpu)@.cycles <= old(cpu)@.cycles + 513,
            final(cpu)@.regs.status.has(ProcessorStatus::BREAK_CMD2),
            !final(cpu)@.regs.status.has(ProcessorStatus::BREAK_CMD),
    {
        reveal(CpuView::plp);
        let new_status = cpu.stack_pop_u8();
        cpu.regs.status = ProcessorStatus::from_bits(new_status);
        proof {
            lemma_pulled_status_flags(new_status);
        }

        // The break flag has no latch in the processor: it is dropped.
        cpu.regs.status.set(ProcessorStatus::BREAK_CMD, false);
        cpu.regs.status.set(ProcessorStatus::BREAK_CMD2, true);
    }

    /// Executes `ROL`.
    pub fn rol(cpu: &mut Cpu, instr: &Instruction)
        requires
            old(cpu)@.can_modify(instr.mode),
            old(cpu)@.has_headroom(),
        ensures
            final(cpu)@ == old(cpu)@.rol(instr.mode),
            old(cpu)@.cycles <= final(cpu)@.cycles <= old(cpu)@.cycles + 513,
    {
        reveal(CpuView::rol);
        reveal(CpuView::modified);
        let (op, addr) = Emu::fetch(cpu, instr.mode);
        assert((op & 0x80 != 0) == (op >= 0x80)) by (bit_vector);
        let is_current_carry_set = cpu.regs.status.contains(ProcessorStatus::CARRY_FLAG);
        let result = shift_left(op, is_current_carry_set);
        Emu::write_back(cpu, instr.mode, addr, result);
        cpu.regs.status.set_carry_flag(op & 0x80 != 0).set_zero_flag(result).set_negative_flag(
            result,
        );
    }

    /// Executes `ROR`.
    pub fn ror(cpu: &mut Cpu, instr: &Instruction)
        requires
            old(cpu)@.can_modify(instr.mode),
            old(cpu)@.has_headroom(),
        ensures
            final(cpu)@ == old(cpu)@.ror(instr.mode),
            old(cpu)@.cycles <= final(cpu)@.cycles <= old(cpu)@.cycles + 513,
    {
        reveal(CpuView::ror);
        reveal(CpuView::modified);
        let (op, addr) = Emu::fetch(cpu, instr.mode);
        let is_current_carry_set = cpu.regs.status.contains(ProcessorStatus::CARRY_FLAG);
        let result = shift_right(op, is_current_carry_set);
        Emu::write_back(cpu, instr.mode, addr, result);
        cpu.regs.status.set_carry_flag(op % 2 == 1).set_zero_flag(result).set_negative_flag(result);
    }

    /// Executes `RTI`. Bit 5 of the status is set afterwards, and the break flag
    /// clear.
    pub fn rti(cpu: &mut Cpu, _instr: &Instruction)
        ensures
            final(cpu)@ == old(cpu)@.rti(),
            old(cpu)@.cycles <= final(cpu)@.cycles <= old(cpu)@.cycles + 513,
            final(cpu)@.regs.status.has(ProcessorStatus::BREAK_CMD2),
            !final(cpu)@.regs.status.has(ProcessorStatus::BREAK_CMD),
    {
        reveal(CpuView::rti);
        let flags = cpu.stack_pop_u8();
        cpu.regs.status = ProcessorStatus::from_bits(flags);
        proof {
            lemma_pulled_status_flags(flags);
        }

        // The break flag has no latch in the processor: it is dropped.
        cpu.regs.status.set(ProcessorStatus::BREAK_CMD, false);
        cpu.regs.status.set(ProcessorStatus::BREAK_CMD2, true);

        cpu.regs.pc = cpu.stack_pop_u16();
    }

    /// Executes `RTS`.
    pub fn rts(cpu: &mut Cpu, _instr: &Instruction)
        ensures
            final(cpu)@ == old(cpu)@.rts(),
            old(cpu)@.cycles <= final(cpu)@.cycles <= old(cpu)@.cycles + 513,
    {
        reveal(CpuView::rts);
        cpu.regs.pc = cpu.stack_pop_u16().wrapping_add(1);
    }

    /// Executes `SBC`.
    pub fn sbc(cpu: &mut Cpu, instr: &Instruction)
        requires
            old(cpu)@.can_read(instr.mode),
            old(cpu)@.has_headroom(),
        ensures
            final(cpu)@ == old(cpu)@.sbc(instr.mode),
            old(cpu)@.cycles <= final(cpu)@.cycles <= old(cpu)@.cycles + 513,
    {
        reveal(CpuView::sbc);
        let (op, page_cross) = Emu::read_operand(cpu, instr.mode);
        assert(!op == 255 - op) by (bit_vector);
        // Subtraction is addition of the complement.
        Emu::add_with_carry(cpu, !op);
        Emu::penalty(cpu, page_cross);
    }

    /// Executes `SEC`.
    pub fn sec(cpu: &mut Cpu, _instr: &Instruction)
        ensures
            final(cpu)@ == old(cpu)@.sec(),
            old(cpu)@.cycles <= final(cpu)@.cycles <= old(cpu)@.cycles + 513,
    {
        reveal(CpuView::sec);
        cpu.regs.status.set(ProcessorStatus::CARRY_FLAG, true);
    }

    /// Executes `SED`.
    pub fn sed(cpu: &mut Cpu, _instr: &Instruction)
        ensures
            final(cpu)@ == old(cpu)@.sed(),
            old(cpu)@.cycles <= final(cpu)@.cycles <= old(cpu)@.cycles + 513,
    {
        reveal(CpuView::sed);
        cpu.regs.status.set(ProcessorStatus::DECIMAL_MODE, true);
    }

    /// Executes `SEI`.
    pub fn sei(cpu: &mut Cpu, _instr: &Instruction)
        ensures
            final(cpu)@ == old(cpu)@.sei(),
            old(cpu)@.cycles <= final(cpu)@.cycles <= old(cpu)@.cycles + 513,
    {
        reveal(CpuView::sei);
        cpu.regs.status.set(ProcessorStatus::INTERRUPT_DISABLE, true);
    }

    /// Executes `STA`.
    pub fn sta(cpu: &mut Cpu, instr: &Instruction)
        requires
            old(cpu)@.can_write(instr.mode),
            old(cpu)@.has_headroom(),
        ensures
            final(cpu)@ == old(cpu)@.sta(instr.mode),
            old(cpu)@.cycles <= final(cpu)@.cycles <= old(cpu)@.cycles + 513,
    {
        reveal(CpuView::sta);
        let (addr, _) = cpu.resolve_adressing(instr.mode);
        cpu.store(addr, cpu.regs.acc);
    }

    /// Executes `STX`.
    pub fn stx(cpu: &mut Cpu, instr: &Instruction)
        requires
            old(cpu)@.can_write(instr.mode),
            old(cpu)@.has_headroom(),
        ensures
            final(cpu)@ == old(cpu)@.stx(instr.mode),
            old(cpu)@.cycles <= final(cpu)@.cycles <= old(cpu)@.cycles + 513,
    {
        reveal(CpuView::stx);
        let (addr, _) = cpu.resolve_adressing(instr.mode);
        cpu.store(addr, cpu.regs.idx_x);
    }

    /// Executes `STY`.
    pub fn sty(cpu: &mut Cpu, instr: &Instruction)
        requires
            old(cpu)@.can_write(instr.mode),
            old(cpu)@.has_headroom(),
        ensures
            final(cpu)@ == old(cpu)@.sty(instr.mode),
            old(cpu)@.cycles <= final(cpu)@.cycles <= old(cpu)@.cycles + 513,
    {
        reveal(CpuView::sty);
        let (addr, _) = cpu.resolve_adressing(instr.mode);
        cpu.store(addr, cpu.regs.idx_y);
    }

    /// Executes `TAX`.
    pub fn tax(cpu: &mut Cpu, _instr: &Instruction)
        ensures
            final(cpu)@ == old(cpu)@.tax(),
            old(cpu)@.cycles <= final(cpu)@.cycles <= old(cpu)@.cycles + 513,
    {
        reveal(CpuView::tax);
        cpu.regs.idx_x = cpu.regs.acc;
        Emu::set_zn(cpu, cpu.regs.idx_x);
    }

    /// Executes `TAY`.
    pub fn tay(cpu: &mut Cpu, _instr: &Instruction)
        ensures
            final(cpu)@ == old(cpu)@.tay(),
            old(cpu)@.cycles <= final(cpu)@.cycles <= old(cpu)@.cycles + 513,
    {
        reveal(CpuView::tay);
        cpu.regs.idx_y = cpu.regs.acc;
        Emu::set_zn(cpu, cpu.regs.idx_y);
    }

    /// Executes `TSX`.
    pub fn tsx(cpu: &mut Cpu, _instr: &Instruction)
        ensures
            final(cpu)@ == old(cpu)@.tsx(),
            old(cpu)@.cycles <= final(cpu)@.cycles <= old(cpu)@.cycles + 513,
    {
        reveal(CpuView::tsx);
        cpu.regs.idx_x = cpu.regs.sp;
        Emu::set_zn(cpu, cpu.regs.idx_x);
    }

    /// Executes `TXA`.
    pub fn txa(cpu: &mut Cpu, _instr: &Instruction)
        ensures
            final(cpu)@ == old(cpu)@.txa(),
            old(cpu)@.cycles <= final(cpu)@.cycles <= old(cpu)@.cycles + 513,
    {
        reveal(CpuView::txa);
        cpu.regs.acc = cpu.regs.idx_x;
        Emu::set_zn(cpu, cpu.regs.acc);
    }

    /// Executes `TXS`, which leaves every flag as it is, also when X is zero.
    pub fn txs(cpu: &mut Cpu, _instr: &Instruction)
        ensures
            final(cpu)@ == old(cpu)@.txs(),
            old(cpu)@.cycles <= final(cpu)@.cycles <= old(cpu)@.cycles + 513,
            final(cpu)@.regs.status == old(cpu)@.regs.status,
    {
        reveal(CpuView::txs);
        cpu.regs.sp = cpu.regs.idx_x;
    }

    /// Executes `TYA`.
    pub fn tya(cpu: &mut Cpu, _instr: &Instruction)
        ensures
            final(cpu)@ == old(cpu)@.tya(),
            old(cpu)@.cycles <= final(cpu)@.cycles <= old(cpu)@.cycles + 513,
    {
        reveal(CpuView::tya);
        cpu.regs.acc = cpu.regs.idx_y;
        Emu::set_zn(cpu, cpu.regs.acc);
    }

    /// Executes `LAX`.
    pub fn lax(cpu: &mut Cpu, instr: &Instruction)
        requires
            old(cpu)@.can_read(instr.mode),
            old(cpu)@.has_headroom(),
        ensures
            final(cpu)@ == old(cpu)@.lax(instr.mode),
            old(cpu)@.cycles <= final(cpu)@.cycles <= old(cpu)@.cycles + 513,
    {
        reveal(CpuView::lax);
        let (op, page_cross) = Emu::read_operand(cpu, instr.mode);
        cpu.regs.idx_x = op;
        cpu.regs.acc = op;
        Emu::set_zn(cpu, op);
        Emu::penalty(cpu, page_cross);
    }

    /// Executes `SAX`.
    pub fn sax(cpu: &mut Cpu, instr: &Instruction)
        requires
            old(cpu)@.can_write(instr.mode),
            old(cpu)@.has_headroom(),
        ensures
            final(cpu)@ == old(cpu)@.sax(instr.mode),
            old(cpu)@.cycles <= final(cpu)@.cycles <= old(cpu)@.cycles + 513,
    {
        reveal(CpuView::sax);
        let (addr, _) = cpu.resolve_adressing(instr.mode);
        let op = cpu.regs.acc & cpu.regs.idx_x;

        cpu.store(addr, op);
    }

    /// Executes `DCP`.
    pub fn dcp(cpu: &mut Cpu, instr: &Instruction)
        requires
            old(cpu)@.can_modify(instr.mode),
            old(cpu)@.has_headroom(),
        ensures
            final(cpu)@ == old(cpu)@.dcp(instr.mode),
            old(cpu)@.cycles <= final(cpu)@.cycles <= old(cpu)@.cycles + 513,
    {
        reveal(CpuView::dcp);
        reveal(CpuView::modified);
        let acc = cpu.regs.acc;
        let (op, addr) = Emu::fetch(cpu, instr.mode);
        let result = op.wrapping_sub(1);
        Emu::write_back(cpu, instr.mode, addr, result);
        Emu::compare(cpu, acc, result);
    }

    /// Executes `ISB`.
    pub fn isb(cpu: &mut Cpu, instr: &Instruction)
        requires
            old(cpu)@.can_modify(instr.mode),
            old(cpu)@.has_headroom(),
        ensures
            final(cpu)@ == old(cpu)@.isb(instr.mode),
            old(cpu)@.cycles <= final(cpu)@.cycles <= old(cpu)@.cycles + 513,
    {
        reveal(CpuView::isb);
        reveal(CpuView::modified);
        let (op, addr) = Emu::fetch(cpu, instr.mode);
        let result = op.wrapping_add(1);
        Emu::write_back(cpu, instr.mode, addr, result);
        assert(!result == 255 - result) by (bit_vector);
        // Subtraction is addition of the complement.
        Emu::add_with_carry(cpu, !result);
    }

    /// Executes `SLO`.
    pub fn slo(cpu: &mut Cpu, instr: &Instruction)
        requires
            old(cpu)@.can_modify(instr.mode),
            old(cpu)@.has_headroom(),
        ensures
            final(cpu)@ == old(cpu)@.slo(instr.mode),
            old(cpu)@.cycles <= final(cpu)@.cycles <= old(cpu)@.cycles + 513,
    {
        reveal(CpuView::slo);
        reveal(CpuView::modified);
        let (op, addr) = Emu::fetch(cpu, instr.mode);
        assert((op & 0x80 != 0) == (op >= 0x80)) by (bit_vector);
        let result = shift_left(op, false);
        Emu::write_back(cpu, instr.mode, addr, result);
        cpu.regs.status.set_carry_flag(op & 0x80 != 0);

        cpu.regs.acc |= result;
        Emu::set_zn(cpu, cpu.regs.acc);
    }

    /// Executes `RLA`.
    pub fn rla(cpu: &mut Cpu, instr: &Instruction)
        requires
            old(cpu)@.can_modify(instr.mode),
            old(cpu)@.has_headroom(),
        ensures
            final(cpu)@ == old(cpu)@.rla(instr.mode),
            old(cpu)@.cycles <= final(cpu)@.cycles <= old(cpu)@.cycles + 513,
    {
        reveal(CpuView::rla);
        reveal(CpuView::modified);
        let (op, addr) = Emu::fetch(cpu, instr.mode);
        assert((op & 0x80 != 0) == (op >= 0x80)) by (bit_vector);
        let is_current_carry_set = cpu.regs.status.contains(ProcessorStatus::CARRY_FLAG);
        let result = shift_left(op, is_current_carry_set);
        Emu::write_back(cpu, instr.mode, addr, result);
        cpu.regs.status.set_carry_flag(op & 0x80 != 0);

        cpu.regs.acc &= result;
        Emu::set_zn(cpu, cpu.regs.acc);
    }

    /// Executes `SRE`.
    pub fn sre(cpu: &mut Cpu, instr: &Instruction)
        requires
            old(cpu)@.can_modify(instr.mode),
            old(cpu)@.has_headroom(),
        ensures
            final(cpu)@ == old(cpu)@.sre(instr.mode),
            old(cpu)@.cycles <= final(cpu)@.cycles <= old(cpu)@.cycles + 513,
    {
        reveal(CpuView::sre);
        reveal(CpuView::modified);
        let (op, addr) = Emu::fetch(cpu, instr.mode);
        let result = shift_right(op, false);
        Emu::write_back(cpu, instr.mode, addr, result);
        cpu.regs.status.set_carry_flag(op % 2 == 1);

        cpu.regs.acc ^= result;
        Emu::set_zn(cpu, cpu.regs.acc);
    }

    /// Executes `RRA`.
    pub fn rra(cpu: &mut Cpu, instr: &Instruction)
        requires
            old(cpu)@.can_modify(instr.mode),
            old(cpu)@.has_headroom(),
        ensures
            final(cpu)@ == old(cpu)@.rra(instr.mode),
            old(cpu)@.cycles <= final(cpu)@.cycles <= old(cpu)@.cycles + 513,
    {
        reveal(CpuView::rra);
        reveal(CpuView::modified);
        let (op, addr) = Emu::fetch(cpu, instr.mode);
        let is_current_carry_set = cpu.regs.status.contains(ProcessorStatus::CARRY_FLAG);
        let result = shift_right(op, is_current_carry_set);
        Emu::write_back(cpu, instr.mode, addr, result);
        cpu.regs.status.set_carry_flag(op % 2 == 1);

        Emu::add_with_carry(cpu, result);
    }
}

} // verus!
