//! The control register of the picture processor, `PPUCTRL`.

use crate::nes::cpu::Addr;
use vstd::prelude::*;

verus! {

/// How far the video address moves after each access to the data register.
#[derive(Debug, Clone, Copy, PartialEq, Eq, Structural)]
pub enum VramIncrement {
    /// By one: across a row.
    Add1,
    /// By thirty-two: down a column.
    Add32,
}

/// Height of a sprite.
#[derive(Debug, Clone, Copy, PartialEq, Eq, Structural)]
pub enum SpriteSize {
    Size8x8,
    Size8x16,
}

/// Direction of the picture processor's EXT pins.
#[derive(Debug, Clone, Copy, PartialEq, Eq, Structural)]
pub enum PpuSelect {
    ReadBackdrop,
    OutputColor,
}

/// The decoded contents of `PPUCTRL`.
///
/// ```text
/// 7  bit  0
/// VPHB SINN
/// |||| ||++- base nametable ($2000, $2400, $2800, $2C00)
/// |||| |+--- video address increment (0: 1, 1: 32)
/// |||| +---- sprite pattern table ($0000, $1000)
/// |||+------ background pattern table ($0000, $1000)
/// ||+------- sprite size (0: 8x8, 1: 8x16)
/// |+-------- EXT pins (0: read backdrop, 1: output colour)
/// +--------- raise a non-maskable interrupt at vertical blank
/// ```
#[derive(Debug, Clone, Copy, PartialEq, Eq, Structural)]
pub struct ControlRegister {
    pub nametable_addr: Addr,
    pub sprite_pattern_addr: Addr,
    pub background_pattern_addr: Addr,
    pub vram_increment: VramIncrement,
    pub sprite_size: SpriteSize,
    pub ppu_select: PpuSelect,
    pub generate_nmi: bool,
}

impl Default for ControlRegister {
    /// The register as written with zero.
    fn default() -> (reg: ControlRegister)
        ensures
            reg == ControlRegister::cleared(),
    {
        ControlRegister {
            nametable_addr: 0x2000,
            sprite_pattern_addr: 0,
            background_pattern_addr: 0,
            vram_increment: VramIncrement::Add1,
            sprite_size: SpriteSize::Size8x8,
            ppu_select: PpuSelect::ReadBackdrop,
            generate_nmi: false,
        }
    }
}

impl VramIncrement {
    /// The step as a number.
    pub open spec fn step(self) -> u8 {
        match self {
            VramIncrement::Add1 => 1,
            VramIncrement::Add32 => 32,
        }
    }
}

impl ControlRegister {
    /// The register before anything was written to it: every bit clear.
    pub open spec fn cleared() -> ControlRegister {
        ControlRegister {
            nametable_addr: 0x2000,
            sprite_pattern_addr: 0,
            background_pattern_addr: 0,
            vram_increment: VramIncrement::Add1,
            sprite_size: SpriteSize::Size8x8,
            ppu_select: PpuSelect::ReadBackdrop,
            generate_nmi: false,
        }
    }

    /// What the byte `arg` means when written to the register.
    pub open spec fn decoded(arg: u8) -> ControlRegister {
        ControlRegister {
            nametable_addr: (0x2000 + 0x400 * (arg % 4)) as u16,
            sprite_pattern_addr: if arg & 0x08 != 0 {
                0x1000
            } else {
                0
            },
            background_pattern_addr: if arg & 0x10 != 0 {
                0x1000
            } else {
                0
            },
            vram_increment: if arg & 0x04 != 0 {
                VramIncrement::Add32
            } else {
                VramIncrement::Add1
            },
            sprite_size: if arg & 0x20 != 0 {
                SpriteSize::Size8x16
            } else {
                SpriteSize::Size8x8
            },
            ppu_select: if arg & 0x40 != 0 {
                PpuSelect::OutputColor
            } else {
                PpuSelect::ReadBackdrop
            },
            generate_nmi: arg & 0x80 != 0,
        }
    }

    /// Replaces the contents of the register by what `arg` encodes.
    pub fn update(&mut self, arg: u8)
        ensures
            *final(self) == Self::decoded(arg),
    {
        let table: u16 = (arg % 4) as u16;
        self.nametable_addr = 0x2000 + 0x400 * table;

        self.vram_increment = if arg & 0b100 != 0 {
            VramIncrement::Add32
        } else {
            VramIncrement::Add1
        };

        self.sprite_pattern_addr = if arg & 0b1000 != 0 {
            0x1000
        } else {
            0x0000
        };

        self.background_pattern_addr = if arg & 0b1_0000 != 0 {
            0x1000
        } else {
            0x0000
        };

        self.sprite_size = if arg & 0b10_0000 != 0 {
            SpriteSize::Size8x16
        } else {
            SpriteSize::Size8x8
        };

        self.ppu_select = if arg & 0b100_0000 != 0 {
            PpuSelect::OutputColor
        } else {
            PpuSelect::ReadBackdrop
        };

        self.generate_nmi = arg & 0b1000_0000 != 0;
    }

    /// The step by which the video address moves after an access to the data register.
    pub fn get_vram_increment(&self) -> (step: u8)
        ensures
            step == self.vram_increment.step(),
    {
        match self.vram_increment {
            VramIncrement::Add1 => 1,
            VramIncrement::Add32 => 32,
        }
    }
}

/// Writing zero gives the cleared register.
pub proof fn lemma_zero_decodes_to_cleared()
    ensures
        ControlRegister::decoded(0) == ControlRegister::cleared(),
{
    assert(0u8 & 0x08 == 0 && 0u8 & 0x10 == 0 && 0u8 & 0x04 == 0 && 0u8 & 0x20 == 0 && 0u8 & 0x40
        == 0 && 0u8 & 0x80 == 0) by (bit_vector);
}

} // verus!
