//! The register file of the 6502 and its processor-status byte.

use vstd::prelude::*;

verus! {

/// The processor-status byte `P`, one flag per bit.
///
/// A flag, or a set of flags, is named by its mask: `set` and `contains` take
/// such a mask, and so do `with` and `has`, by which contracts speak of flags.
#[derive(Clone, Copy, Debug, PartialEq, Eq, Hash, Structural)]
pub struct ProcessorStatus {
    pub bits: u8,
}

/// The registers of the processor.
#[derive(Clone, Copy, Debug, PartialEq, Eq, Structural)]
pub struct Registers {
    /// Program counter.
    pub pc: u16,
    /// Stack pointer; the stack lives in page one, at `0x0100 + sp`.
    pub sp: u8,
    /// Accumulator.
    pub acc: u8,
    /// Index register X.
    pub idx_x: u8,
    /// Index register Y.
    pub idx_y: u8,
    /// Processor status.
    pub status: ProcessorStatus,
}

/// Whether bit 7 of `value` is set, which is what the negative flag records.
pub open spec fn is_negative(value: u8) -> bool {
    value >= 0x80
}

impl ProcessorStatus {
    /// Bit 0: carry out of the last addition, shift or comparison.
    pub const CARRY_FLAG: u8 = 0x01;

    /// Bit 1: the last result was zero.
    pub const ZERO_FLAG: u8 = 0x02;

    /// Bit 2: maskable interrupts are held off.
    pub const INTERRUPT_DISABLE: u8 = 0x04;

    /// Bit 3: decimal mode (kept, but without effect on arithmetic here).
    pub const DECIMAL_MODE: u8 = 0x08;

    /// Bit 4: set only in the copy of `P` that `PHP` and `BRK` push.
    pub const BREAK_CMD: u8 = 0x10;

    /// Bit 5: has no latch in the processor and always reads as one.
    pub const BREAK_CMD2: u8 = 0x20;

    /// Bit 6: signed overflow of the last addition or subtraction.
    pub const OVERFLOW_FLAG: u8 = 0x40;

    /// Bit 7: bit 7 of the last result.
    pub const NEGATIVE_FLAG: u8 = 0x80;

    /// The status with the flags of `flag` switched on or off and all others kept.
    pub open spec fn with(self, flag: u8, on: bool) -> ProcessorStatus {
        ProcessorStatus {
            bits: if on {
                self.bits | flag
            } else {
                self.bits & !flag
            },
        }
    }

    /// Whether every flag of `flag` is set.
    pub open spec fn has(self, flag: u8) -> bool {
        self.bits & flag == flag
    }

    /// The status after zero and negative have been taken from `value`.
    pub open spec fn with_zn(self, value: u8) -> ProcessorStatus {
        self.with(Self::ZERO_FLAG, value == 0).with(Self::NEGATIVE_FLAG, is_negative(value))
    }

    /// The status whose byte is `bits`; every bit names a flag, so none is dropped.
    pub fn from_bits(bits: u8) -> (status: ProcessorStatus)
        ensures
            status.bits == bits,
    {
        ProcessorStatus { bits }
    }

    /// The status byte.
    pub fn bits(&self) -> (bits: u8)
        ensures
            bits == self.bits,
    {
        self.bits
    }

    /// Whether every flag of `flag` is set.
    pub fn contains(&self, flag: u8) -> (present: bool)
        ensures
            present == self.has(flag),
    {
        self.bits & flag == flag
    }

    /// Switches the flags of `flag` on or off.
    pub fn set(&mut self, flag: u8, on: bool)
        ensures
            *final(self) == old(self).with(flag, on),
    {
        if on {
            self.bits = self.bits | flag;
        } else {
            self.bits = self.bits & !flag;
        }
    }

    /// Sets carry to `overflow`.
    pub fn set_carry_flag(&mut self, overflow: bool) -> (ret: &mut Self)
        ensures
            *ret == old(self).with(Self::CARRY_FLAG, overflow),
            *final(self) == *final(ret),
    {
        self.set(Self::CARRY_FLAG, overflow);
        self
    }

    /// Sets zero exactly when `result` is zero.
    pub fn set_zero_flag(&mut self, result: u8) -> (ret: &mut Self)
        ensures
            *ret == old(self).with(Self::ZERO_FLAG, result == 0),
            *final(self) == *final(ret),
    {
        self.set(Self::ZERO_FLAG, result == 0);
        self
    }

    /// Sets overflow to `overflow`.
    pub fn set_overflow_flag(&mut self, overflow: bool) -> (ret: &mut Self)
        ensures
            *ret == old(self).with(Self::OVERFLOW_FLAG, overflow),
            *final(self) == *final(ret),
    {
        self.set(Self::OVERFLOW_FLAG, overflow);
        self
    }

    /// Sets negative exactly when bit 7 of `result` is set.
    pub fn set_negative_flag(&mut self, result: u8) -> (ret: &mut Self)
        ensures
            *ret == old(self).with(Self::NEGATIVE_FLAG, is_negative(result)),
            *final(self) == *final(ret),
    {
        assert((result & 0x80 != 0) == (result >= 0x80)) by (bit_vector);
        self.set(Self::NEGATIVE_FLAG, result & 0x80 != 0);
        self
    }
}

impl Default for Registers {
    /// The power-on registers: `SP = $FD`, `P = $24`, everything else zero.
    fn default() -> (regs: Registers)
        ensures
            regs == Registers::power_on(),
    {
        Registers {
            pc: 0x0,
            sp: 0xFD,
            acc: 0x0,
            idx_x: 0x0,
            idx_y: 0x0,
            status: ProcessorStatus::from_bits(0x24),
        }
    }
}

impl Registers {
    /// The registers as they are when power comes on.
    pub open spec fn power_on() -> Registers {
        Registers {
            pc: 0,
            sp: 0xFD,
            acc: 0,
            idx_x: 0,
            idx_y: 0,
            status: ProcessorStatus { bits: 0x24 },
        }
    }
}

/// One of the eight single-flag masks.
pub open spec fn is_single_flag(flag: u8) -> bool {
    flag == 0x01 || flag == 0x02 || flag == 0x04 || flag == 0x08 || flag == 0x10 || flag == 0x20
        || flag == 0x40 || flag == 0x80
}

/// A flag reads back as it was last set.
pub proof fn lemma_flag_reads_back(status: ProcessorStatus, flag: u8, on: bool)
    requires
        is_single_flag(flag),
    ensures
        status.with(flag, on).has(flag) == on,
{
    let b = status.bits;
    assert(flag != 0 ==> (b | flag) & flag == flag && (b & !flag) & flag != flag) by (bit_vector);
}

/// Setting one flag leaves every other flag as it was.
pub proof fn lemma_flag_keeps_others(status: ProcessorStatus, flag: u8, on: bool, other: u8)
    requires
        is_single_flag(flag),
        is_single_flag(other),
        flag != other,
    ensures
        status.with(flag, on).has(other) == status.has(other),
{
    let b = status.bits;
    assert(flag & other == 0) by (bit_vector)
        requires
            is_single_flag(flag),
            is_single_flag(other),
            flag != other,
    ;
    assert(flag & other == 0 ==> ((b | flag) & other == other) == (b & other == other) && ((b
        & !flag) & other == other) == (b & other == other)) by (bit_vector);
}

} // verus!
