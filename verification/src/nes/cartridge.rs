//! Loading a cartridge from an iNES (version 1) image.
//!
//! An image is a 16-byte header, an optional 512-byte trainer, the program
//! banks of 16 KiB each and the character banks of 8 KiB each:
//!
//! ```text
//! 0..4   "NES" 0x1A
//! 4      number of program banks
//! 5      number of character banks
//! 6      flags 6: mirroring, battery RAM, trainer, four-screen, mapper low nibble
//! 7      flags 7: format version bits, mapper high nibble
//! 8..16  unused here
//! ```

use vstd::prelude::*;
use vstd::slice::slice_subrange;
use vstd::slice::slice_to_vec;

verus! {

/// Bytes in the header of an image.
pub const NES_HEADER_SIZE: usize = 0x10;

/// Bytes in a trainer, where an image has one.
pub const TRAINER_SIZE: usize = 0x200;

/// Bytes in one bank of program memory.
pub const PRG_ROM_BLOCK_SIZE: usize = 0x4000;

/// Bytes in one bank of character memory.
pub const CHR_ROM_BLOCK_SIZE: usize = 0x2000;

/// How the two nametables are laid out.
#[derive(Debug, Clone, Copy, PartialEq, Eq, Structural)]
pub enum Mirroring {
    Horizontal,
    Vertical,
}

/// Why an image was turned down.
#[derive(Debug, Clone, Copy, PartialEq, Eq, Structural)]
pub enum RomLoadError {
    /// The image does not begin with `"NES"` and `0x1A`.
    BadSignature,
    /// Flags 7 mark the image as NES 2.0.
    UnsupportedNes2,
    /// The image asks for a mapper other than 0.
    UnsupportedMapper,
    /// The image ends before its header, or before the banks its header announces.
    Truncated,
}

/// A parsed cartridge.
pub struct Cartridge {
    pub prg_rom: Vec<u8>,
    pub chr_rom: Vec<u8>,
    pub mirroring: Mirroring,
    pub has_prg_ram: bool,
    pub has_trainer: bool,
    pub has_four_screen: bool,
    pub mapper: u8,
}

/// What a cartridge holds, as plain values.
pub struct CartridgeView {
    pub prg_rom: Seq<u8>,
    pub chr_rom: Seq<u8>,
    pub mirroring: Mirroring,
    pub has_prg_ram: bool,
    pub has_trainer: bool,
    pub has_four_screen: bool,
    pub mapper: u8,
}

impl View for Cartridge {
    type V = CartridgeView;

    open spec fn view(&self) -> CartridgeView {
        CartridgeView {
            prg_rom: self.prg_rom@,
            chr_rom: self.chr_rom@,
            mirroring: self.mirroring,
            has_prg_ram: self.has_prg_ram,
            has_trainer: self.has_trainer,
            has_four_screen: self.has_four_screen,
            mapper: self.mapper,
        }
    }
}

impl Default for Mirroring {
    /// Horizontal.
    fn default() -> (mirroring: Mirroring)
        ensures
            mirroring == Mirroring::Horizontal,
    {
        Mirroring::Horizontal
    }
}

/// Whether `raw` begins with the four signature bytes.
pub open spec fn has_signature(raw: Seq<u8>) -> bool {
    raw.len() >= 4 && raw[0] == 0x4E && raw[1] == 0x45 && raw[2] == 0x53 && raw[3] == 0x1A
}

/// Whether flags 7 mark the image as NES 2.0.
pub open spec fn is_nes2(flags7: u8) -> bool {
    flags7 & 0x0C == 0x0C
}

/// The mapper number: its high nibble from flags 7, its low nibble from the
/// high nibble of flags 6.
pub open spec fn mapper_number(flags6: u8, flags7: u8) -> u8 {
    (flags7 & 0xF0) | (flags6 >> 4)
}

/// Whether flags 6 announce a trainer.
pub open spec fn announces_trainer(flags6: u8) -> bool {
    flags6 & 0x04 != 0
}

/// Where program memory begins in an image with a complete header.
pub open spec fn prg_start(raw: Seq<u8>) -> int {
    NES_HEADER_SIZE + if announces_trainer(raw[6]) {
        TRAINER_SIZE as int
    } else {
        0int
    }
}

/// Where character memory begins, which is where program memory ends.
pub open spec fn chr_start(raw: Seq<u8>) -> int {
    prg_start(raw) + raw[4] * PRG_ROM_BLOCK_SIZE
}

/// Where character memory ends: the length that the header asks of the image.
pub open spec fn chr_end(raw: Seq<u8>) -> int {
    chr_start(raw) + raw[5] * CHR_ROM_BLOCK_SIZE
}

/// The reason to turn `raw` down, if there is one. The checks are made in this
/// order, and the first that fails names the error.
pub open spec fn load_error(raw: Seq<u8>) -> Option<RomLoadError> {
    if !has_signature(raw) {
        Some(RomLoadError::BadSignature)
    } else if raw.len() < NES_HEADER_SIZE {
        Some(RomLoadError::Truncated)
    } else if is_nes2(raw[7]) {
        Some(RomLoadError::UnsupportedNes2)
    } else if mapper_number(raw[6], raw[7]) != 0 {
        Some(RomLoadError::UnsupportedMapper)
    } else if raw.len() < chr_end(raw) {
        Some(RomLoadError::Truncated)
    } else {
        None
    }
}

/// The cartridge that an acceptable image describes.
pub open spec fn loaded(raw: Seq<u8>) -> CartridgeView {
    CartridgeView {
        prg_rom: raw.subrange(prg_start(raw), chr_start(raw)),
        chr_rom: raw.subrange(chr_start(raw), chr_end(raw)),
        mirroring: if raw[6] & 0x01 != 0 {
            Mirroring::Vertical
        } else {
            Mirroring::Horizontal
        },
        has_prg_ram: raw[6] & 0x02 != 0,
        has_trainer: announces_trainer(raw[6]),
        has_four_screen: raw[6] & 0x08 != 0,
        mapper: mapper_number(raw[6], raw[7]),
    }
}

impl Cartridge {
    /// Parses the image `raw`.
    ///
    /// An image is accepted exactly when `load_error` finds nothing wrong with it,
    /// and the cartridge is then the one that `loaded` describes.
    pub fn new(raw: &[u8]) -> (result: Result<Cartridge, RomLoadError>)
        ensures
            match result {
                Ok(cartridge) => load_error(raw@) is None && cartridge@ == loaded(raw@),
                Err(error) => load_error(raw@) == Some(error),
            },
    {
        if raw.len() < 4 || raw[0] != 0x4E || raw[1] != 0x45 || raw[2] != 0x53 || raw[3] != 0x1A {
            return Err(RomLoadError::BadSignature);
        }
        if raw.len() < NES_HEADER_SIZE {
            return Err(RomLoadError::Truncated);
        }
        let flags6 = raw[6];
        let flags7 = raw[7];

        let mirroring = if flags6 & 0b1 != 0 {
            Mirroring::Vertical
        } else {
            Mirroring::Horizontal
        };
        let has_prg_ram = flags6 & 0b10 != 0;
        let has_trainer = flags6 & 0b100 != 0;
        let has_four_screen = flags6 & 0b1000 != 0;
        let mapper = (flags7 & 0xF0) | (flags6 >> 4);

        if flags7 & 0b1100 == 0b1100 {
            return Err(RomLoadError::UnsupportedNes2);
        }
        if mapper != 0 {
            return Err(RomLoadError::UnsupportedMapper);
        }
        let trainer_size = if has_trainer {
            TRAINER_SIZE
        } else {
            0
        };
        let prg_rom_size = raw[4] as usize * PRG_ROM_BLOCK_SIZE;
        let chr_rom_size = raw[5] as usize * CHR_ROM_BLOCK_SIZE;

        let prg_rom_begin = NES_HEADER_SIZE + trainer_size;
        let prg_rom_end = prg_rom_begin + prg_rom_size;
        let chr_rom_begin = prg_rom_end;
        let chr_rom_end = chr_rom_begin + chr_rom_size;
        if raw.len() < chr_rom_end {
            return Err(RomLoadError::Truncated);
        }
        let prg_rom = slice_to_vec(slice_subrange(raw, prg_rom_begin, prg_rom_end));
        let chr_rom = slice_to_vec(slice_subrange(raw, chr_rom_begin, chr_rom_end));

        Ok(
            Cartridge {
                prg_rom,
                chr_rom,
                mirroring,
                has_prg_ram,
                has_trainer,
                has_four_screen,
                mapper,
            },
        )
    }
}

impl RomLoadError {
    /// The error in words.
    pub fn message(&self) -> (text: &'static str)
        ensures
            text@ == match *self {
                RomLoadError::BadSignature => "NES signature not found"@,
                RomLoadError::UnsupportedNes2 => "Can't parse NES 2.0 roms yet"@,
                RomLoadError::UnsupportedMapper => "Only mapper 0 is supported"@,
                RomLoadError::Truncated => "ROM image is shorter than its header says"@,
            },
    {
        match self {
            RomLoadError::BadSignature => "NES signature not found",
            RomLoadError::UnsupportedNes2 => "Can't parse NES 2.0 roms yet",
            RomLoadError::UnsupportedMapper => "Only mapper 0 is supported",
            RomLoadError::Truncated => "ROM image is shorter than its header says",
        }
    }
}

/// An accepted image yields as many bytes of program and character memory as
/// its header announces, and a cartridge for mapper 0.
pub proof fn lemma_loaded_sizes(raw: Seq<u8>)
    requires
        load_error(raw) is None,
    ensures
        loaded(raw).prg_rom.len() == raw[4] * 0x4000,
        loaded(raw).chr_rom.len() == raw[5] * 0x2000,
        loaded(raw).mapper == 0,
{
}

} // verus!
