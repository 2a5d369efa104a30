//! The video address register behind `PPUADDR`, written one byte at a time.

use crate::nes::cpu::Addr;
use vstd::prelude::*;

verus! {

/// Which half of the address the next write goes to.
#[derive(Debug, Clone, Copy, PartialEq, Eq, Structural)]
pub enum AddressState {
    WaitingForUpperByte,
    WaitingForLowerByte,
}

/// The video address as two bytes, with the latch that tells them apart.
#[derive(Debug, Clone, Copy, PartialEq, Eq, Structural)]
pub struct AddressRegister {
    pub state: AddressState,
    pub upper: u8,
    pub lower: u8,
}

impl Default for AddressRegister {
    /// Address zero, waiting for the upper byte.
    fn default() -> (reg: AddressRegister)
        ensures
            reg == AddressRegister::cleared(),
    {
        AddressRegister { state: AddressState::WaitingForUpperByte, upper: 0x0, lower: 0x0 }
    }
}

impl AddressState {
    /// The other state.
    pub open spec fn flipped(self) -> AddressState {
        match self {
            AddressState::WaitingForUpperByte => AddressState::WaitingForLowerByte,
            AddressState::WaitingForLowerByte => AddressState::WaitingForUpperByte,
        }
    }
}

impl AddressRegister {
    /// Address zero, waiting for the upper byte.
    pub open spec fn cleared() -> AddressRegister {
        AddressRegister { state: AddressState::WaitingForUpperByte, upper: 0, lower: 0 }
    }

    /// The address held: the upper byte times 256 plus the lower byte.
    pub open spec fn value(self) -> Addr {
        (self.upper * 256 + self.lower) as u16
    }

    /// The register after `value` was written to it: the byte goes to the half
    /// that the latch names, and the latch flips.
    pub open spec fn written(self, value: u8) -> AddressRegister {
        match self.state {
            AddressState::WaitingForUpperByte => AddressRegister {
                state: AddressState::WaitingForLowerByte,
                upper: value,
                lower: self.lower,
            },
            AddressState::WaitingForLowerByte => AddressRegister {
                state: AddressState::WaitingForUpperByte,
                upper: self.upper,
                lower: value,
            },
        }
    }

    /// The register after the address moved on by `increment`: the sum wraps at
    /// sixteen bits and is then mirrored down into the 14-bit video space.
    pub open spec fn incremented(self, increment: u8) -> AddressRegister {
        let moved = (self.value() + increment) % 0x1_0000 % 0x4000;
        AddressRegister {
            state: self.state,
            upper: (moved / 256) as u8,
            lower: (moved % 256) as u8,
        }
    }

    /// The register with the latch back at the upper byte.
    pub open spec fn with_latch_reset(self) -> AddressRegister {
        AddressRegister { state: AddressState::WaitingForUpperByte, ..self }
    }

    /// The register with the latch flipped and the address kept.
    pub open spec fn with_latch_flipped(self) -> AddressRegister {
        AddressRegister { state: self.state.flipped(), ..self }
    }

    /// Writes one byte of the address, upper byte first.
    pub fn write_byte(&mut self, value: u8)
        ensures
            *final(self) == old(self).written(value),
    {
        match self.state {
            AddressState::WaitingForUpperByte => {
                self.upper = value;
                self.state = AddressState::WaitingForLowerByte;
            },
            AddressState::WaitingForLowerByte => {
                self.lower = value;
                self.state = AddressState::WaitingForUpperByte;
            },
        }
    }

    /// The address held.
    pub fn get(&self) -> (addr: Addr)
        ensures
            addr == self.value(),
    {
        self.upper as u16 * 256 + self.lower as u16
    }

    /// Moves the address on by `increment`, mirroring it down past `0x3FFF`.
    pub fn increment(&mut self, increment: u8)
        ensures
            *final(self) == old(self).incremented(increment),
    {
        let addr: u16 = self.get().wrapping_add(increment as u16) % 0x4000;
        self.lower = (addr % 256) as u8;
        self.upper = (addr / 256) as u8;
    }

    /// Whether the next write goes to the upper byte.
    pub fn is_waiting_for_upper(&self) -> (waiting: bool)
        ensures
            waiting == (self.state == AddressState::WaitingForUpperByte),
    {
        match self.state {
            AddressState::WaitingForUpperByte => true,
            AddressState::WaitingForLowerByte => false,
        }
    }

    /// Puts the latch back at the upper byte, as reading the status register does.
    pub fn reset_latch(&mut self)
        ensures
            *final(self) == old(self).with_latch_reset(),
    {
        self.state = AddressState::WaitingForUpperByte;
    }

    /// Flips the latch without touching the address, as a scroll write does.
    pub fn flip_latch(&mut self)
        ensures
            *final(self) == old(self).with_latch_flipped(),
    {
        self.state = match self.state {
            AddressState::WaitingForUpperByte => AddressState::WaitingForLowerByte,
            AddressState::WaitingForLowerByte => AddressState::WaitingForUpperByte,
        };
    }
}

/// Writing the high byte and then the low byte, with the latch at the upper
/// byte, makes the register hold `(high << 8) | low`.
pub proof fn lemma_address_written_in_two_bytes(reg: AddressRegister, high: u8, low: u8)
    requires
        reg.state == AddressState::WaitingForUpperByte,
    ensures
        reg.written(high).written(low).value() == high * 256 + low,
        reg.written(high).written(low).value() == ((high as u16) << 8) | (low as u16),
        reg.written(high).written(low).state == AddressState::WaitingForUpperByte,
{
    assert(((high as u16) << 8) | (low as u16) == (high as u16) * 256 + (low as u16))
        by (bit_vector);
}

/// After an increment the address lies inside the 14-bit video space.
pub proof fn lemma_incremented_stays_in_video_space(reg: AddressRegister, increment: u8)
    ensures
        reg.incremented(increment).value() == (reg.value() + increment) % 0x1_0000 % 0x4000,
        reg.incremented(increment).value() < 0x4000,
{
}

} // verus!
