//! The mask register of the picture processor, `PPUMASK`.

use vstd::prelude::*;

verus! {

/// The decoded contents of `PPUMASK`.
///
/// ```text
/// 7  bit  0
/// BGRs bMmG
/// |||| |||+- greyscale
/// |||| ||+-- show background in the leftmost 8 pixels
/// |||| |+--- show sprites in the leftmost 8 pixels
/// |||| +---- show background
/// |||+------ show sprites
/// ||+------- emphasize red
/// |+-------- emphasize green
/// +--------- emphasize blue
/// ```
#[derive(Debug, Clone, Copy, PartialEq, Eq, Structural)]
pub struct MaskRegister {
    pub greyscale: bool,
    pub show_leftmost_background: bool,
    pub show_leftmost_sprites: bool,
    pub show_background: bool,
    pub show_sprites: bool,
    pub emphasize_red: bool,
    pub emphasize_green: bool,
    pub emphasize_blue: bool,
}

impl Default for MaskRegister {
    /// The register with every bit clear.
    fn default() -> (reg: MaskRegister)
        ensures
            reg == MaskRegister::cleared(),
    {
        MaskRegister {
            greyscale: false,
            show_leftmost_background: false,
            show_leftmost_sprites: false,
            show_background: false,
            show_sprites: false,
            emphasize_red: false,
            emphasize_green: false,
            emphasize_blue: false,
        }
    }
}

impl MaskRegister {
    /// The register before anything was written to it: every bit clear.
    pub open spec fn cleared() -> MaskRegister {
        MaskRegister {
            greyscale: false,
            show_leftmost_background: false,
            show_leftmost_sprites: false,
            show_background: false,
            show_sprites: false,
            emphasize_red: false,
            emphasize_green: false,
            emphasize_blue: false,
        }
    }

    /// What the byte `arg` means when written to the register.
    pub open spec fn decoded(arg: u8) -> MaskRegister {
        MaskRegister {
            greyscale: arg & 0x01 != 0,
            show_leftmost_background: arg & 0x02 != 0,
            show_leftmost_sprites: arg & 0x04 != 0,
            show_background: arg & 0x08 != 0,
            show_sprites: arg & 0x10 != 0,
            emphasize_red: arg & 0x20 != 0,
            emphasize_green: arg & 0x40 != 0,
            emphasize_blue: arg & 0x80 != 0,
        }
    }

    /// Replaces the contents of the register by what `arg` encodes.
    pub fn update(&mut self, arg: u8)
        ensures
            *final(self) == Self::decoded(arg),
    {
        self.greyscale = arg & 0b1 != 0;
        self.show_leftmost_background = arg & 0b10 != 0;
        self.show_leftmost_sprites = arg & 0b100 != 0;
        self.show_background = arg & 0b1000 != 0;
        self.show_sprites = arg & 0b1_0000 != 0;
        self.emphasize_red = arg & 0b10_0000 != 0;
        self.emphasize_green = arg & 0b100_0000 != 0;
        self.emphasize_blue = arg & 0b1000_0000 != 0;
    }
}

} // verus!
