//! The picture processor as far as the processor can observe it: video memory
//! behind the data register, sprite memory, the register latches and the position
//! of the beam.

pub mod addr_reg;
pub mod ctrl_reg;
pub mod mask_reg;

use addr_reg::AddressRegister;
use addr_reg::AddressState;
use ctrl_reg::ControlRegister;
use mask_reg::MaskRegister;
use vstd::prelude::*;

verus! {

/// Dots in one scanline.
pub const DOTS_PER_SCANLINE: usize = 341;

/// Scanlines in one frame.
pub const SCANLINES_PER_FRAME: usize = 262;

/// The picture processor.
///
/// The beam position is kept inside the frame at all times: the dot is below
/// 341 and the scanline below 262.
pub struct Ppu {
    mem: [u8; 0x4000],
    ctrl: ControlRegister,
    mask: MaskRegister,
    addr: AddressRegister,
    status: u8,
    scroll_x: u8,
    scroll_y: u8,
    oam_addr: u8,
    oam: [u8; 256],
    data_latch: u8,
    cycles: usize,
    scanlines: usize,
}

/// The state of the picture processor as plain values.
pub struct PpuView {
    /// The 16 KiB of video address space.
    pub mem: Seq<u8>,
    pub ctrl: ControlRegister,
    pub mask: MaskRegister,
    pub addr: AddressRegister,
    /// The status byte: vertical blank in bit 7, sprite-zero hit in bit 6,
    /// sprite overflow in bit 5.
    pub status: u8,
    pub scroll_x: u8,
    pub scroll_y: u8,
    pub oam_addr: u8,
    /// The 256 bytes of sprite memory.
    pub oam: Seq<u8>,
    /// The byte that the data register hands out on its next read below the palette.
    pub data_latch: u8,
    /// The dot within the scanline.
    pub dot: int,
    /// The scanline within the frame.
    pub scanline: int,
}

impl PpuView {
    /// Whether the state has the shape of a picture processor: 16 KiB of video
    /// memory, 256 bytes of sprite memory and the beam inside the frame, on a dot
    /// from 0 to 340 of a scanline from 0 to 261.
    pub open spec fn wf(self) -> bool {
        &&& self.mem.len() == 0x4000
        &&& self.oam.len() == 256
        &&& 0 <= self.dot <= 340
        &&& 0 <= self.scanline <= 261
    }

    /// How many dots into the frame the beam is: 341 for each scanline above it
    /// and the dots before it on its own scanline.
    pub open spec fn position(self) -> int {
        self.scanline * 341 + self.dot
    }

    /// The picture processor when power comes on.
    pub open spec fn power_on() -> PpuView {
        PpuView {
            mem: Seq::new(0x4000, |i: int| 0u8),
            ctrl: ControlRegister::cleared(),
            mask: MaskRegister::cleared(),
            addr: AddressRegister::cleared(),
            status: 0,
            scroll_x: 0,
            scroll_y: 0,
            oam_addr: 0,
            oam: Seq::new(256, |i: int| 0u8),
            data_latch: 0,
            dot: 21,
            scanline: 0,
        }
    }

    /// The beam moved on by `tick` dots: past the last dot of a scanline it goes
    /// to the next one, and past the last scanline back to the first.
    pub open spec fn tick(self, tick: u8) -> PpuView {
        PpuView {
            dot: (self.dot + tick) % 341,
            scanline: if self.dot + tick >= 341 {
                (self.scanline + 1) % 262
            } else {
                self.scanline
            },
            ..self
        }
    }

    /// Character memory copied to the pattern tables, from address zero on and
    /// for at most their 8 KiB.
    pub open spec fn with_chr(self, chr: Seq<u8>) -> PpuView {
        PpuView {
            mem: Seq::new(
                0x4000,
                |i: int|
                    if i < chr.len() && i < 0x2000 {
                        chr[i]
                    } else {
                        self.mem[i]
                    },
            ),
            ..self
        }
    }

    /// After a write of `arg` to the control register.
    pub open spec fn ctrl_written(self, arg: u8) -> PpuView {
        PpuView { ctrl: ControlRegister::decoded(arg), ..self }
    }

    /// After a write of `arg` to the mask register.
    pub open spec fn mask_written(self, arg: u8) -> PpuView {
        PpuView { mask: MaskRegister::decoded(arg), ..self }
    }

    /// After a read of the status register: vertical blank is cleared and the
    /// address latch goes back to the upper byte.
    pub open spec fn status_read(self) -> PpuView {
        PpuView { status: self.status & 0x7F, addr: self.addr.with_latch_reset(), ..self }
    }

    /// After a write of `value` to the scroll register: the first write of a pair
    /// is the horizontal scroll, the second the vertical one; the latch is the one
    /// that the address register uses.
    pub open spec fn scroll_written(self, value: u8) -> PpuView {
        if self.addr.state == AddressState::WaitingForUpperByte {
            PpuView { scroll_x: value, addr: self.addr.with_latch_flipped(), ..self }
        } else {
            PpuView { scroll_y: value, addr: self.addr.with_latch_flipped(), ..self }
        }
    }

    /// After a write of `value` to the address register.
    pub open spec fn addr_written(self, value: u8) -> PpuView {
        PpuView { addr: self.addr.written(value), ..self }
    }

    /// The place in video memory that the data register reaches: the address
    /// register mirrored into the 14-bit video space.
    pub open spec fn vram_addr(self) -> int {
        (self.addr.value() % 0x4000) as int
    }

    /// Whether the data register reaches the palette, which it reads without delay.
    pub open spec fn at_palette(self) -> bool {
        self.vram_addr() >= 0x3F00
    }

    /// The byte that a read of the data register returns: below the palette the byte
    /// latched by the read before, in the palette the byte addressed.
    pub open spec fn data_value(self) -> u8 {
        if self.at_palette() {
            self.mem[self.vram_addr()]
        } else {
            self.data_latch
        }
    }

    /// After a read of the data register: the latch holds the byte addressed and the
    /// address has moved on by the step of the control register.
    pub open spec fn data_read(self) -> PpuView {
        PpuView {
            data_latch: self.mem[self.vram_addr()],
            addr: self.addr.incremented(self.ctrl.vram_increment.step()),
            ..self
        }
    }

    /// After a write of `value` to the data register.
    pub open spec fn data_written(self, value: u8) -> PpuView {
        PpuView {
            mem: self.mem.update(self.vram_addr(), value),
            addr: self.addr.incremented(self.ctrl.vram_increment.step()),
            ..self
        }
    }

    /// After a write of `value` to the sprite-memory address.
    pub open spec fn oam_addr_written(self, value: u8) -> PpuView {
        PpuView { oam_addr: value, ..self }
    }

    /// The byte that a read of the sprite-data register returns.
    pub open spec fn oam_value(self) -> u8 {
        self.oam[self.oam_addr as int]
    }

    /// After a write of `value` to the sprite-data register: the byte is stored and
    /// the sprite-memory address moves on by one, wrapping at 256.
    pub open spec fn oam_data_written(self, value: u8) -> PpuView {
        PpuView {
            oam: self.oam.update(self.oam_addr as int, value),
            oam_addr: ((self.oam_addr + 1) % 256) as u8,
            ..self
        }
    }

    /// After a transfer of the 256 bytes of `data` into sprite memory: byte `k`
    /// goes to `(oam_addr + k) % 256`, and the sprite-memory address stays.
    pub open spec fn oam_dma(self, data: Seq<u8>) -> PpuView {
        PpuView { oam: Seq::new(256, |i: int| data[(i + 256 - self.oam_addr) % 256]), ..self }
    }
}

impl View for Ppu {
    type V = PpuView;

    closed spec fn view(&self) -> PpuView {
        PpuView {
            mem: self.mem@,
            ctrl: self.ctrl,
            mask: self.mask,
            addr: self.addr,
            status: self.status,
            scroll_x: self.scroll_x,
            scroll_y: self.scroll_y,
            oam_addr: self.oam_addr,
            oam: self.oam@,
            data_latch: self.data_latch,
            dot: self.cycles as int,
            scanline: self.scanlines as int,
        }
    }
}

impl Ppu {
    /// The beam is inside the frame.
    #[verifier::type_invariant]
    spec fn beam_in_frame(self) -> bool {
        self.cycles < 341 && self.scanlines < 262
    }

    /// The picture processor when power comes on: memory and registers clear,
    /// the beam on dot 21 of scanline 0.
    pub fn new() -> (ppu: Ppu)
        ensures
            ppu@ == PpuView::power_on(),
    {
        let ppu = Ppu {
            mem: [0;0x4000],
            ctrl: ControlRegister::default(),
            mask: MaskRegister::default(),
            addr: AddressRegister::default(),
            status: 0,
            scroll_x: 0,
            scroll_y: 0,
            oam_addr: 0,
            oam: [0;256],
            data_latch: 0,
            cycles: 21,
            scanlines: 0,
        };
        assert(ppu@.mem =~= PpuView::power_on().mem);
        assert(ppu@.oam =~= PpuView::power_on().oam);
        ppu
    }

    /// Moves the beam on by `tick` dots. Afterwards the dot is below 341 and the
    /// scanline below 262, as before.
    pub fn tick(&mut self, tick: u8)
        ensures
            final(self)@ == old(self)@.tick(tick),
            0 <= final(self)@.dot <= 340,
            0 <= final(self)@.scanline <= 261,
    {
        proof {
            use_type_invariant(&*self);
        }
        let dot = self.cycles + tick as usize;
        if dot >= DOTS_PER_SCANLINE {
            self.scanlines = (self.scanlines + 1) % SCANLINES_PER_FRAME;
            self.cycles = dot % DOTS_PER_SCANLINE;
        } else {
            self.cycles = dot;
        }
    }

    /// The scanline that the beam is on, from 0 to 261.
    pub fn get_scanlines(&self) -> (scanline: usize)
        ensures
            scanline == self@.scanline,
            scanline <= 261,
            self@.wf(),
    {
        proof {
            use_type_invariant(self);
        }
        self.scanlines
    }

    /// The dot that the beam is on, from 0 to 340.
    pub fn get_cycles(&self) -> (dot: usize)
        ensures
            dot == self@.dot,
            dot <= 340,
            self@.wf(),
    {
        proof {
            use_type_invariant(self);
        }
        self.cycles
    }

    /// Copies character memory to the pattern tables.
    pub fn load_chr(&mut self, chr: &Vec<u8>)
        ensures
            final(self)@ == old(self)@.with_chr(chr@),
    {
        proof {
            use_type_invariant(&*self);
        }
        let count = if chr.len() < 0x2000 {
            chr.len()
        } else {
            0x2000
        };
        let mut load_addr: usize = 0x0;
        while load_addr < count
            invariant
                load_addr <= count <= 0x2000,
                count <= chr.len(),
                self@ == (PpuView { mem: self.mem@, ..old(self)@ }),
                forall|i: int|
                    0 <= i < 0x4000 ==> self.mem@[i] == if i < load_addr {
                        chr@[i]
                    } else {
                        old(self).mem@[i]
                    },
            decreases count - load_addr,
        {
            proof {
                use_type_invariant(&*self);
            }
            self.mem[load_addr] = chr[load_addr];
            load_addr += 1;
        }
        assert(self.mem@ =~= old(self)@.with_chr(chr@).mem);
    }

    /// Writes `arg` to the control register.
    pub fn ctrl(&mut self, arg: u8)
        ensures
            final(self)@ == old(self)@.ctrl_written(arg),
    {
        proof {
            use_type_invariant(&*self);
        }
        let mut ctrl = self.ctrl;
        ctrl.update(arg);
        self.ctrl = ctrl;
    }

    /// Writes `arg` to the mask register.
    pub fn mask(&mut self, arg: u8)
        ensures
            final(self)@ == old(self)@.mask_written(arg),
    {
        proof {
            use_type_invariant(&*self);
        }
        let mut mask = self.mask;
        mask.update(arg);
        self.mask = mask;
    }

    /// Reads the status register, which clears vertical blank and puts the
    /// address latch back at the upper byte.
    pub fn status(&mut self) -> (value: u8)
        ensures
            value == old(self)@.status,
            final(self)@ == old(self)@.status_read(),
    {
        proof {
            use_type_invariant(&*self);
        }
        let value = self.status;
        self.status = self.status & 0x7F;
        let mut addr = self.addr;
        addr.reset_latch();
        self.addr = addr;
        value
    }

    /// The status byte, read without any effect on the registers.
    pub fn peek_status(&self) -> (value: u8)
        ensures
            value == self@.status,
    {
        self.status
    }

    /// Writes `value` to the scroll register.
    pub fn scroll(&mut self, value: u8)
        ensures
            final(self)@ == old(self)@.scroll_written(value),
    {
        proof {
            use_type_invariant(&*self);
        }
        if self.addr.is_waiting_for_upper() {
            self.scroll_x = value;
        } else {
            self.scroll_y = value;
        }
        let mut addr = self.addr;
        addr.flip_latch();
        self.addr = addr;
    }

    /// Writes `value` to the address register.
    pub fn addr(&mut self, value: u8)
        ensures
            final(self)@ == old(self)@.addr_written(value),
    {
        proof {
            use_type_invariant(&*self);
        }
        let mut addr = self.addr;
        addr.write_byte(value);
        self.addr = addr;
    }

    /// Reads the data register.
    pub fn data_read(&mut self) -> (value: u8)
        ensures
            value == old(self)@.data_value(),
            final(self)@ == old(self)@.data_read(),
    {
        proof {
            use_type_invariant(&*self);
        }
        let addr = self.addr.get() % 0x4000;
        let needs_dummy = addr < 0x3F00;
        let previous_data = self.data_latch;
        self.data_latch = self.mem[addr as usize];
        self.advance_addr();
        if needs_dummy {
            previous_data
        } else {
            self.data_latch
        }
    }

    /// Moves the video address on by the step of the control register.
    fn advance_addr(&mut self)
        ensures
            final(self)@ == (PpuView {
                addr: old(self)@.addr.incremented(old(self)@.ctrl.vram_increment.step()),
                ..old(self)@
            }),
    {
        proof {
            use_type_invariant(&*self);
        }
        let mut addr = self.addr;
        addr.increment(self.ctrl.get_vram_increment());
        self.addr = addr;
    }

    /// The byte that a read of the data register would return, read without any
    /// effect on latch or address.
    pub fn peek_data(&self) -> (value: u8)
        ensures
            value == self@.data_value(),
    {
        let addr = self.addr.get() % 0x4000;
        if addr < 0x3F00 {
            self.data_latch
        } else {
            self.mem[addr as usize]
        }
    }

    /// Writes `value` to the data register.
    pub fn data_write(&mut self, value: u8)
        ensures
            final(self)@ == old(self)@.data_written(value),
    {
        proof {
            use_type_invariant(&*self);
        }
        let addr = self.addr.get() % 0x4000;
        self.mem[addr as usize] = value;
        self.advance_addr();
    }

    /// Writes `value` to the sprite-memory address.
    pub fn oam_addr(&mut self, value: u8)
        ensures
            final(self)@ == old(self)@.oam_addr_written(value),
    {
        proof {
            use_type_invariant(&*self);
        }
        self.oam_addr = value;
    }

    /// Reads the sprite-data register, which has no effect on the registers.
    pub fn oam_data_read(&self) -> (value: u8)
        ensures
            value == self@.oam_value(),
    {
        self.oam[self.oam_addr as usize]
    }

    /// Writes `value` to the sprite-data register.
    pub fn oam_data_write(&mut self, value: u8)
        ensures
            final(self)@ == old(self)@.oam_data_written(value),
    {
        proof {
            use_type_invariant(&*self);
        }
        self.oam[self.oam_addr as usize] = value;
        self.oam_addr = self.oam_addr.wrapping_add(1);
    }

    /// Takes the 256 bytes of a direct-memory transfer into sprite memory,
    /// starting at the sprite-memory address and wrapping at its end.
    pub fn oam_dma(&mut self, data: &[u8; 256])
        ensures
            final(self)@ == old(self)@.oam_dma(data@),
    {
        proof {
            use_type_invariant(&*self);
        }
        let start = self.oam_addr as usize;
        let mut k: usize = 0;
        while k < 256
            invariant
                k <= 256,
                start == old(self).oam_addr,
                self@ == (PpuView { oam: self.oam@, ..old(self)@ }),
                forall|i: int|
                    0 <= i < 256 ==> self.oam@[i] == if (i + 256 - start) % 256 < k {
                        data@[(i + 256 - start) % 256]
                    } else {
                        old(self).oam@[i]
                    },
            decreases 256 - k,
        {
            proof {
                use_type_invariant(&*self);
            }
            self.oam[(start + k) % 256] = data[k];
            k += 1;
        }
        assert(self.oam@ =~= old(self)@.oam_dma(data@).oam);
    }

    /// The byte of video memory at `addr`, mirrored into the 14-bit video space.
    pub fn vram_byte(&self, addr: u16) -> (value: u8)
        ensures
            value == self@.mem[(addr % 0x4000) as int],
    {
        self.mem[(addr % 0x4000) as usize]
    }

    /// The byte of sprite memory at `index`.
    pub fn oam_byte(&self, index: u8) -> (value: u8)
        ensures
            value == self@.oam[index as int],
    {
        self.oam[index as usize]
    }
}

/// Whatever the beam position was, a tick leaves the dot below 341; and a
/// scanline that was inside the frame stays inside it.
pub proof fn lemma_tick_keeps_beam_in_frame(ppu: PpuView, tick: u8)
    requires
        0 <= ppu.dot <= 340,
        0 <= ppu.scanline <= 261,
    ensures
        0 <= ppu.tick(tick).dot <= 340,
        0 <= ppu.tick(tick).scanline <= 261,
        ppu.dot + tick < 341 ==> ppu.tick(tick).scanline == ppu.scanline && ppu.tick(tick).dot
            == ppu.dot + tick,
        ppu.dot + tick >= 341 ==> ppu.tick(tick).dot == ppu.dot + tick - 341,
        ppu.dot + tick >= 341 && ppu.scanline == 261 ==> ppu.tick(tick).scanline == 0,
        ppu.dot + tick >= 341 && ppu.scanline < 261 ==> ppu.tick(tick).scanline == ppu.scanline
            + 1,
{
}

/// A tick moves the beam on by as many dots as it says, counted through the
/// 89342 dots of a frame.
pub proof fn lemma_tick_moves_the_beam(ppu: PpuView, tick: u8)
    requires
        ppu.wf(),
    ensures
        ppu.tick(tick).wf(),
        ppu.tick(tick).position() == (ppu.position() + tick) % 89342,
{
    lemma_tick_keeps_beam_in_frame(ppu, tick);
    let moved = ppu.position() + tick;
    let after = ppu.tick(tick).position();
    assert(after == moved || after == moved - 89342);
}

/// The picture processor is well-formed when power comes on.
pub proof fn lemma_power_on_has_shape()
    ensures
        PpuView::power_on().wf(),
{
}

/// A transfer that starts at sprite-memory address zero fills sprite memory
/// with the bytes in their order.
pub proof fn lemma_oam_dma_from_zero(ppu: PpuView, data: Seq<u8>)
    requires
        ppu.oam_addr == 0,
        data.len() == 256,
    ensures
        ppu.oam_dma(data).oam == data,
{
}

} // verus!
