//! Core of a Nintendo Entertainment System emulator: the 6502 processor, the
//! system bus with its memory map, an NROM cartridge loader and the slice of the
//! picture processor that the processor can observe through its registers.
//!
//! Every function carries a contract over a mathematical model of the machine
//! state, and every contract is machine-checked.

pub mod nes;
