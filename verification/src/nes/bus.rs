//! The system bus: it decodes the processor's 16-bit addresses.
//!
//! ```text
//! $0000-$1FFF  2 KiB of internal memory, repeated four times
//! $2000-$3FFF  the eight registers of the picture processor, repeated every 8 bytes
//! $4000-$401F  sound and input, not modelled: writes are dropped, reads give 0
//! $4014        among them, sprite direct-memory transfer (write only)
//! $4020-$FFFF  the cartridge; program memory from $8000 on
//! ```
//!
//! A read comes in two kinds. `read_u8` is the access that an instruction makes
//! to its operand: it has the side effects that the register read has, and it is
//! not offered for a register that cannot be read. `peek_u8` is the access of an
//! observer and of instruction fetch: it returns what `read_u8` would and leaves
//! the bus as it is, and it gives 0 for a register that cannot be read.

use super::cartridge::Cartridge;
use super::cartridge::CartridgeView;
use super::cpu::Addr;
use super::ppu::Ppu;
use super::ppu::PpuView;
use vstd::prelude::*;

verus! {

/// Bytes that the processor can address.
pub const MEMORY_SIZE: usize = 0x10000;

/// The bus with what it owns: memory, cartridge and picture processor.
pub struct Bus {
    /// Backing store of the address space. Internal memory is its first 2 KiB,
    /// cartridge space lies at its own addresses; the rest is not used.
    pub mem: [u8; MEMORY_SIZE],
    pub rom: Cartridge,
    pub ppu: Ppu,
}

/// The state of the bus as plain values.
pub struct BusView {
    pub mem: Seq<u8>,
    pub rom: CartridgeView,
    pub ppu: PpuView,
}

impl View for Bus {
    type V = BusView;

    open spec fn view(&self) -> BusView {
        BusView { mem: self.mem@, rom: self.rom@, ppu: self.ppu@ }
    }
}

/// Whether `address` reaches a register of the picture processor.
pub open spec fn is_ppu_register(address: Addr) -> bool {
    0x2000 <= address <= 0x3FFF
}

/// Whether `address` lies in the block of sound, input and transfer registers.
pub open spec fn is_io_register(address: Addr) -> bool {
    0x4000 <= address <= 0x401F
}

/// Whether register `idx` of the picture processor can be read: status (2),
/// sprite data (4) and video data (7).
pub open spec fn ppu_register_readable(idx: u8) -> bool {
    idx == 2 || idx == 4 || idx == 7
}

/// Whether register `idx` of the picture processor can be written: all eight
/// but status (2).
pub open spec fn ppu_register_writable(idx: u8) -> bool {
    idx < 8 && idx != 2
}

/// Whether an instruction may read its operand at `address`.
pub open spec fn readable(address: Addr) -> bool {
    if is_ppu_register(address) {
        ppu_register_readable((address % 8) as u8)
    } else {
        address != 0x4014
    }
}

/// Whether an instruction may write at `address`.
pub open spec fn writable(address: Addr) -> bool {
    is_ppu_register(address) ==> ppu_register_writable((address % 8) as u8)
}

/// Where in the backing store the byte of a memory address is kept: internal
/// memory repeats every 2 KiB, cartridge space is kept at its own address.
pub open spec fn mem_index(address: Addr) -> int {
    if address < 0x2000 {
        (address % 0x800) as int
    } else {
        address as int
    }
}

/// The byte of program memory that the cartridge shows at `address`, from
/// `0x8000` on. Two banks or more show the first two, one after the other; a
/// single bank shows in both halves.
pub open spec fn prg_byte(prg: Seq<u8>, address: int) -> u8 {
    let offset = address - 0x8000;
    if prg.len() >= 0x8000 {
        prg[offset]
    } else if offset % 0x4000 < prg.len() {
        prg[offset % 0x4000]
    } else {
        0
    }
}

/// The sign-extended reading of a byte.
pub open spec fn signed_byte(value: u8) -> i8 {
    if value < 0x80 {
        value as i8
    } else {
        (value - 0x100) as i8
    }
}

impl BusView {
    /// Whether the state has the shape of a bus: 64 KiB of backing store and a
    /// picture processor that has its shape.
    pub open spec fn wf(self) -> bool {
        self.mem.len() == 0x10000 && self.ppu.wf()
    }

    /// The bus with `rom` plugged in: internal memory clear, program memory
    /// shown from `0x8000` on, character memory in the pattern tables of `ppu`.
    pub open spec fn assembled(rom: CartridgeView, ppu: PpuView) -> BusView {
        BusView {
            mem: Seq::new(
                0x10000,
                |a: int|
                    if a >= 0x8000 {
                        prg_byte(rom.prg_rom, a)
                    } else {
                        0u8
                    },
            ),
            rom,
            ppu: ppu.with_chr(rom.chr_rom),
        }
    }

    /// The byte that register `idx` of the picture processor shows; 0 where the
    /// register cannot be read.
    pub open spec fn ppu_register_value(self, idx: u8) -> u8 {
        if idx == 2 {
            self.ppu.status
        } else if idx == 4 {
            self.ppu.oam_value()
        } else if idx == 7 {
            self.ppu.data_value()
        } else {
            0
        }
    }

    /// The bus after register `idx` of the picture processor was read.
    pub open spec fn ppu_register_read(self, idx: u8) -> BusView {
        if idx == 2 {
            BusView { ppu: self.ppu.status_read(), ..self }
        } else if idx == 7 {
            BusView { ppu: self.ppu.data_read(), ..self }
        } else {
            self
        }
    }

    /// The bus after `value` was written to register `idx` of the picture
    /// processor.
    pub open spec fn ppu_register_written(self, idx: u8, value: u8) -> BusView {
        BusView {
            ppu: if idx == 0 {
                self.ppu.ctrl_written(value)
            } else if idx == 1 {
                self.ppu.mask_written(value)
            } else if idx == 3 {
                self.ppu.oam_addr_written(value)
            } else if idx == 4 {
                self.ppu.oam_data_written(value)
            } else if idx == 5 {
                self.ppu.scroll_written(value)
            } else if idx == 6 {
                self.ppu.addr_written(value)
            } else if idx == 7 {
                self.ppu.data_written(value)
            } else {
                self.ppu
            },
            ..self
        }
    }

    /// The byte that the bus shows at `address`.
    pub open spec fn peek(self, address: Addr) -> u8 {
        if is_ppu_register(address) {
            self.ppu_register_value((address % 8) as u8)
        } else if is_io_register(address) {
            0
        } else {
            self.mem[mem_index(address)]
        }
    }

    /// The little-endian word that the bus shows at `address` and the address
    /// after it, which is `0x0000` after `0xFFFF`.
    pub open spec fn peek_u16(self, address: Addr) -> u16 {
        (self.peek(address) + 256 * self.peek(address.wrapping_add(1))) as u16
    }

    /// The bus after an instruction read its operand at `address`.
    pub open spec fn read(self, address: Addr) -> BusView {
        if is_ppu_register(address) {
            self.ppu_register_read((address % 8) as u8)
        } else {
            self
        }
    }

    /// The 256 bytes that the bus shows in page `page`, from `page * 256` on.
    pub open spec fn page(self, page: u8) -> Seq<u8> {
        Seq::new(256, |i: int| self.peek((page * 256 + i) as u16))
    }

    /// The bus after a direct-memory transfer of page `page` into sprite memory.
    pub open spec fn oam_dma(self, page: u8) -> BusView {
        BusView { ppu: self.ppu.oam_dma(self.page(page)), ..self }
    }

    /// The bus after `value` was written at `address`.
    pub open spec fn written(self, address: Addr, value: u8) -> BusView {
        if is_ppu_register(address) {
            self.ppu_register_written((address % 8) as u8, value)
        } else if address == 0x4014 {
            self.oam_dma(value)
        } else if is_io_register(address) {
            self
        } else {
            BusView { mem: self.mem.update(mem_index(address), value), ..self }
        }
    }

    /// The bus after the beam of the picture processor moved on by `tick` dots.
    pub open spec fn ppu_tick(self, tick: u8) -> BusView {
        BusView { ppu: self.ppu.tick(tick), ..self }
    }
}

impl Bus {
    /// Assembles the bus: plugs `rom` in and hands its character memory to `ppu`.
    pub fn new(rom: Cartridge, ppu: Ppu) -> (bus: Bus)
        ensures
            bus@ == BusView::assembled(rom@, ppu@),
    {
        let mut bus = Bus { mem: [0x0;MEMORY_SIZE], rom, ppu };
        bus.init();
        bus
    }

    /// Shows program memory in cartridge space and loads the pattern tables.
    fn init(&mut self)
        requires
            forall|a: int| 0 <= a < 0x10000 ==> old(self).mem@[a] == 0,
        ensures
            final(self)@ == BusView::assembled(old(self).rom@, old(self).ppu@),
    {
        let banked = self.rom.prg_rom.len() >= 0x8000;
        let mut offset: usize = 0;
        while offset < 0x8000
            invariant
                offset <= 0x8000,
                banked == (self.rom.prg_rom@.len() >= 0x8000),
                self.rom == old(self).rom,
                self.ppu == old(self).ppu,
                forall|a: int|
                    0 <= a < 0x10000 ==> self.mem@[a] == if 0x8000 <= a < 0x8000 + offset {
                        prg_byte(self.rom.prg_rom@, a)
                    } else {
                        0u8
                    },
            decreases 0x8000 - offset,
        {
            let source = if banked {
                offset
            } else {
                offset % 0x4000
            };
            if source < self.rom.prg_rom.len() {
                self.mem[0x8000 + offset] = self.rom.prg_rom[source];
            }
            offset += 1;
        }
        self.ppu.load_chr(&self.rom.chr_rom);
        assert(self.mem@ =~= BusView::assembled(old(self).rom@, old(self).ppu@).mem);
    }

    /// Moves the beam of the picture processor on by `tick` dots.
    pub fn ppu_tick(&mut self, tick: u8)
        ensures
            final(self)@ == old(self)@.ppu_tick(tick),
            0 <= final(self)@.ppu.dot <= 340,
            0 <= final(self)@.ppu.scanline <= 261,
    {
        self.ppu.tick(tick);
    }

    /// Where the beam is: the scanline, from 0 to 261, and the dot, from 0 to 340.
    pub fn get_ppu_tick(&self) -> (position: (usize, usize))
        ensures
            position.0 == self@.ppu.scanline,
            position.1 == self@.ppu.dot,
            position.0 <= 261,
            position.1 <= 340,
            self@.wf(),
    {
        (self.ppu.get_scanlines(), self.ppu.get_cycles())
    }

    /// Reads register `idx` of the picture processor.
    pub fn handle_ppu_read(&mut self, idx: u8) -> (value: u8)
        requires
            ppu_register_readable(idx),
        ensures
            value == old(self)@.ppu_register_value(idx),
            final(self)@ == old(self)@.ppu_register_read(idx),
    {
        if idx == 2 {
            self.ppu.status()
        } else if idx == 4 {
            self.ppu.oam_data_read()
        } else {
            self.ppu.data_read()
        }
    }

    /// Writes `value` to register `idx` of the picture processor.
    pub fn handle_ppu_write(&mut self, idx: u8, value: u8)
        requires
            ppu_register_writable(idx),
        ensures
            final(self)@ == old(self)@.ppu_register_written(idx, value),
    {
        if idx == 0 {
            self.ppu.ctrl(value)
        } else if idx == 1 {
            self.ppu.mask(value)
        } else if idx == 3 {
            self.ppu.oam_addr(value)
        } else if idx == 4 {
            self.ppu.oam_data_write(value)
        } else if idx == 5 {
            self.ppu.scroll(value)
        } else if idx == 6 {
            self.ppu.addr(value)
        } else {
            self.ppu.data_write(value)
        }
    }

    /// Copies page `value` of the address space into sprite memory.
    pub fn handle_oam_dma(&mut self, value: u8)
        ensures
            final(self)@ == old(self)@.oam_dma(value),
    {
        let base: u16 = value as u16 * 256;
        let mut data: [u8; 256] = [0;256];
        let mut i: usize = 0;
        while i < 256
            invariant
                i <= 256,
                base == value * 256,
                forall|j: int| 0 <= j < i ==> data@[j] == self@.peek((value * 256 + j) as u16),
            decreases 256 - i,
        {
            data[i] = self.peek_u8(base + i as u16);
            i += 1;
        }
        assert(data@ =~= self@.page(value));
        self.ppu.oam_dma(&data);
    }

    /// Whether an instruction may read its operand at `address`.
    pub fn is_readable(address: Addr) -> (yes: bool)
        ensures
            yes == readable(address),
    {
        if 0x2000 <= address && address <= 0x3FFF {
            let idx = address % 8;
            idx == 2 || idx == 4 || idx == 7
        } else {
            address != 0x4014
        }
    }

    /// Whether an instruction may write at `address`.
    pub fn is_writable(address: Addr) -> (yes: bool)
        ensures
            yes == writable(address),
    {
        !(0x2000 <= address && address <= 0x3FFF && address % 8 == 2)
    }

    /// The byte at `address`, read without any effect on the bus.
    pub fn peek_u8(&self, address: Addr) -> (value: u8)
        ensures
            value == self@.peek(address),
    {
        if address < 0x2000 {
            self.mem[(address % 0x800) as usize]
        } else if address < 0x4000 {
            let idx = (address % 8) as u8;
            if idx == 2 {
                self.ppu.peek_status()
            } else if idx == 4 {
                self.ppu.oam_data_read()
            } else if idx == 7 {
                self.ppu.peek_data()
            } else {
                0
            }
        } else if address < 0x4020 {
            0
        } else {
            self.mem[address as usize]
        }
    }

    /// The little-endian word at `address`, read without any effect on the bus.
    pub fn peek_u16(&self, address: Addr) -> (value: u16)
        ensures
            value == self@.peek_u16(address),
    {
        let low = self.peek_u8(address);
        let high = self.peek_u8(address.wrapping_add(1));
        low as u16 + 256 * high as u16
    }

    /// Reads the little-endian word at `address`: the low byte first, then the
    /// high byte at the address after it.
    pub fn read_u16(&mut self, address: Addr) -> (value: u16)
        requires
            readable(address),
            readable(address.wrapping_add(1)),
        ensures
            value == old(self)@.peek(address) + 256 * old(self)@.read(address).peek(
                address.wrapping_add(1),
            ),
            final(self)@ == old(self)@.read(address).read(address.wrapping_add(1)),
    {
        let low = self.read_u8(address);
        let high = self.read_u8(address.wrapping_add(1));
        low as u16 + 256 * high as u16
    }

    /// Reads the byte at `address` as an instruction reads its operand.
    pub fn read_u8(&mut self, address: Addr) -> (value: u8)
        requires
            readable(address),
        ensures
            value == old(self)@.peek(address),
            final(self)@ == old(self)@.read(address),
    {
        if address < 0x2000 {
            self.mem[(address % 0x800) as usize]
        } else if address < 0x4000 {
            self.handle_ppu_read((address % 8) as u8)
        } else if address < 0x4020 {
            0
        } else {
            self.mem[address as usize]
        }
    }

    /// Reads the byte at `address` as a signed number.
    pub fn read_i8(&mut self, address: Addr) -> (value: i8)
        requires
            readable(address),
        ensures
            value == signed_byte(old(self)@.peek(address)),
            final(self)@ == old(self)@.read(address),
    {
        to_signed(self.read_u8(address))
    }

    /// Writes `value` at `address`.
    pub fn write_u8(&mut self, address: Addr, value: u8)
        requires
            writable(address),
        ensures
            final(self)@ == old(self)@.written(address, value),
    {
        if address < 0x2000 {
            self.mem[(address % 0x800) as usize] = value;
        } else if address < 0x4000 {
            self.handle_ppu_write((address % 8) as u8, value);
        } else if address == 0x4014 {
            self.handle_oam_dma(value);
        } else if address < 0x4020 {
        } else {
            self.mem[address as usize] = value;
        }
    }
}

/// The sign-extended reading of a byte.
pub fn to_signed(value: u8) -> (signed: i8)
    ensures
        signed == signed_byte(value),
{
    if value < 0x80 {
        value as i8
    } else {
        (value as i16 - 0x100) as i8
    }
}

/// A read leaves the bus well-formed.
pub proof fn lemma_read_keeps_shape(bus: BusView, address: Addr)
    requires
        bus.wf(),
    ensures
        bus.read(address).wf(),
{
}

/// A write leaves the bus well-formed.
pub proof fn lemma_written_keeps_shape(bus: BusView, address: Addr, value: u8)
    requires
        bus.wf(),
    ensures
        bus.written(address, value).wf(),
{
}

/// The bus is well-formed when it has been assembled around a well-formed
/// picture processor.
pub proof fn lemma_assembled_has_shape(rom: CartridgeView, ppu: PpuView)
    requires
        ppu.wf(),
    ensures
        BusView::assembled(rom, ppu).wf(),
{
}

/// Internal memory shows the same byte at an address and at the address 2 KiB
/// further on.
pub proof fn lemma_internal_memory_is_mirrored(bus: BusView, address: Addr)
    requires
        address < 0x1800,
    ensures
        bus.peek(address) == bus.peek((address + 0x800) as u16),
{
}

/// The registers of the picture processor show again every eight bytes.
pub proof fn lemma_ppu_registers_are_mirrored(bus: BusView, address: Addr)
    requires
        0x2000 <= address < 0x3FF8,
    ensures
        bus.peek(address) == bus.peek((address + 8) as u16),
        readable(address) == readable((address + 8) as u16),
        writable(address) == writable((address + 8) as u16),
        forall|value: u8| bus.written(address, value) == bus.written((address + 8) as u16, value),
{
}

/// What was written to memory is what the bus shows there afterwards.
pub proof fn lemma_memory_reads_back(bus: BusView, address: Addr, value: u8)
    requires
        bus.mem.len() == 0x10000,
        !is_ppu_register(address),
        !is_io_register(address),
    ensures
        bus.written(address, value).peek(address) == value,
{
}

/// A cartridge with a single bank of program memory shows it in both halves of
/// cartridge space, and one with two banks shows them one after the other.
pub proof fn lemma_program_memory_layout(rom: CartridgeView, ppu: PpuView, address: Addr)
    requires
        address >= 0x8000,
    ensures
        rom.prg_rom.len() == 0x4000 ==> BusView::assembled(rom, ppu).peek(address)
            == rom.prg_rom[(address - 0x8000) % 0x4000],
        rom.prg_rom.len() == 0x8000 ==> BusView::assembled(rom, ppu).peek(address)
            == rom.prg_rom[address - 0x8000],
{
}

} // verus!
