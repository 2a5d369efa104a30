//! The 6502 processor: registers, cycle counter, stack, addressing modes and
//! the step that fetches, decodes and executes one instruction.

pub mod emulator;
pub mod instructions;
pub mod registers;
pub mod trace;

use super::bus::Bus;
use super::bus::BusView;
use super::bus::lemma_read_keeps_shape;
use super::bus::lemma_written_keeps_shape;
use super::bus::mem_index;
use super::bus::writable;
use super::ppu::lemma_tick_moves_the_beam;
use emulator::Emu;
use emulator::lemma_branch_keeps_shape;
use emulator::lemma_branch_takes_time;
use emulator::lemma_modifying_keeps_shape;
use emulator::lemma_modifying_takes_time;
use emulator::lemma_others_keep_shape;
use emulator::lemma_others_take_no_time;
use emulator::lemma_reading_keeps_shape;
use emulator::lemma_reading_takes_time;
use emulator::lemma_storing_keeps_shape;
use emulator::lemma_storing_takes_time;
use instructions::Access;
use instructions::AddressingMode;
use instructions::Instruction;
use instructions::InstructionVariant;
use instructions::lemma_table_rows_are_sound;
use registers::ProcessorStatus;
use registers::Registers;
use trace::Trace;
use vstd::prelude::*;

verus! {

/// An address on the processor's bus.
pub type Addr = u16;

/// The processor with the bus that it owns.
pub struct Cpu {
    pub regs: Registers,
    pub bus: Bus,
    /// Cycles since reset.
    pub cycles: u64,
}

/// Why the machine cannot take a step.
#[derive(Debug, Clone, Copy, PartialEq, Eq, Structural)]
pub enum Fault {
    /// The byte `opcode` at the program counter `pc` encodes no instruction.
    UnknownOpcode { opcode: u8, pc: Addr },
    /// The instruction at `pc` would read the register at `address`, which
    /// cannot be read, or write it, and it cannot be written.
    InvalidRegisterAccess { address: Addr, pc: Addr },
    /// The cycle counter is above the limit at which an instruction may begin.
    CycleCounterFull { pc: Addr },
}

/// The state of the machine as plain values.
pub struct CpuView {
    pub regs: Registers,
    pub bus: BusView,
    pub cycles: int,
}

impl View for Cpu {
    type V = CpuView;

    open spec fn view(&self) -> CpuView {
        CpuView { regs: self.regs, bus: self.bus@, cycles: self.cycles as int }
    }
}

/// The address of the stack slot that the stack pointer `sp` names.
pub open spec fn stack_addr(sp: u8) -> Addr {
    (0x0100 + sp) as u16
}

/// Whether two addresses lie in different pages of 256 bytes.
pub open spec fn page_crossed(from: Addr, to: Addr) -> bool {
    from / 256 != to / 256
}

/// The word with the low byte `low` and the high byte `high`.
pub open spec fn word(low: u8, high: u8) -> u16 {
    (low + 256 * high) as u16
}

impl CpuView {
    /// The machine when power comes on, around the bus `bus`: the power-on
    /// registers and seven cycles on the counter.
    pub open spec fn power_on(bus: BusView) -> CpuView {
        CpuView { regs: Registers::power_on(), bus, cycles: 7 }
    }

    /// Whether the state has the shape of a machine: a bus that has its shape
    /// and a cycle counter that is not negative.
    pub open spec fn wf(self) -> bool {
        self.bus.wf() && self.cycles >= 0
    }

    /// Whether the cycle counter leaves room for one more instruction.
    pub open spec fn has_headroom(self) -> bool {
        0 <= self.cycles <= Cpu::CYCLE_LIMIT
    }

    /// The machine with the program counter at `pc`.
    pub open spec fn with_pc(self, pc: Addr) -> CpuView {
        CpuView { regs: Registers { pc, ..self.regs }, ..self }
    }

    /// The machine with the stack pointer at `sp`.
    pub open spec fn with_sp(self, sp: u8) -> CpuView {
        CpuView { regs: Registers { sp, ..self.regs }, ..self }
    }

    /// The machine with `acc` in the accumulator.
    pub open spec fn with_acc(self, acc: u8) -> CpuView {
        CpuView { regs: Registers { acc, ..self.regs }, ..self }
    }

    /// The machine with `idx_x` in X.
    pub open spec fn with_x(self, idx_x: u8) -> CpuView {
        CpuView { regs: Registers { idx_x, ..self.regs }, ..self }
    }

    /// The machine with `idx_y` in Y.
    pub open spec fn with_y(self, idx_y: u8) -> CpuView {
        CpuView { regs: Registers { idx_y, ..self.regs }, ..self }
    }

    /// The machine with the processor status `status`.
    pub open spec fn with_status(self, status: ProcessorStatus) -> CpuView {
        CpuView { regs: Registers { status, ..self.regs }, ..self }
    }

    /// The machine with the flags of `flag` switched on or off.
    pub open spec fn with_flag(self, flag: u8, on: bool) -> CpuView {
        self.with_status(self.regs.status.with(flag, on))
    }

    /// The machine with zero and negative taken from `value`.
    pub open spec fn with_zn(self, value: u8) -> CpuView {
        self.with_status(self.regs.status.with_zn(value))
    }

    /// The machine with carry switched on or off.
    pub open spec fn with_carry(self, on: bool) -> CpuView {
        self.with_flag(ProcessorStatus::CARRY_FLAG, on)
    }

    /// Whether carry is set.
    pub open spec fn carry(self) -> bool {
        self.regs.status.has(ProcessorStatus::CARRY_FLAG)
    }

    /// The machine `cycles` cycles later: the counter has advanced, and the beam
    /// of the picture processor has moved on three times as many dots.
    pub open spec fn tick(self, cycles: u8) -> CpuView {
        CpuView {
            cycles: self.cycles + cycles,
            bus: self.bus.ppu_tick(cycles).ppu_tick(cycles).ppu_tick(cycles),
            ..self
        }
    }

    /// The machine one cycle later if `crossed`, else as it is.
    pub open spec fn penalty(self, crossed: bool) -> CpuView {
        if crossed {
            self.tick(1)
        } else {
            self
        }
    }

    /// The machine after an instruction read its operand at `address`. The byte
    /// read is `self.bus.peek(address)`.
    pub open spec fn load(self, address: Addr) -> CpuView {
        CpuView { bus: self.bus.read(address), ..self }
    }

    /// The machine after an instruction wrote `value` at `address`. A write to
    /// `0x4014` starts a sprite transfer, during which the processor stands
    /// still for 513 cycles.
    #[verifier::opaque]
    pub open spec fn store(self, address: Addr, value: u8) -> CpuView {
        let written = CpuView { bus: self.bus.written(address, value), ..self };
        if address == 0x4014 {
            written.tick(255).tick(255).tick(3)
        } else {
            written
        }
    }

    /// The machine after `value` was pushed: stored at the stack pointer, which
    /// then moves down by one, wrapping inside page one.
    pub open spec fn push(self, value: u8) -> CpuView {
        CpuView {
            bus: self.bus.written(stack_addr(self.regs.sp), value),
            ..self
        }.with_sp(self.regs.sp.wrapping_sub(1))
    }

    /// The byte that a pull returns: the one above the stack pointer.
    pub open spec fn top(self) -> u8 {
        self.bus.peek(stack_addr(self.regs.sp.wrapping_add(1)))
    }

    /// The machine after a pull: the stack pointer has moved up by one,
    /// wrapping inside page one.
    pub open spec fn pop(self) -> CpuView {
        self.with_sp(self.regs.sp.wrapping_add(1))
    }

    /// The machine after the word `value` was pushed, high byte first.
    pub open spec fn push_u16(self, value: u16) -> CpuView {
        self.push((value / 256) as u8).push((value % 256) as u8)
    }

    /// The word that pulling two bytes returns, low byte first.
    pub open spec fn top_u16(self) -> u16 {
        word(self.top(), self.pop().top())
    }

    /// The machine after two bytes were pulled.
    pub open spec fn pop_u16(self) -> CpuView {
        self.pop().pop()
    }

    /// The effective address of an instruction in `mode` whose operand begins at
    /// `pc`, and whether indexing carried the address into another page.
    ///
    /// Modes without an address give `0xFFFF`. Page-zero indexing wraps inside
    /// page zero, and so does the fetch of a page-zero pointer. The pointer of an
    /// indirect jump does not carry into its high byte: the word at `0x..FF`
    /// takes its high byte from `0x..00` of the same page.
    pub open spec fn resolve_at(self, pc: Addr, mode: AddressingMode) -> (Addr, bool) {
        let operand = self.bus.peek(pc);
        let operand_word = self.bus.peek_u16(pc);
        match mode {
            AddressingMode::Implied | AddressingMode::Accumulator => (0xFFFF, false),
            AddressingMode::Relative | AddressingMode::Immediate => (pc, false),
            AddressingMode::ZeroPage => (operand as u16, false),
            AddressingMode::ZeroPageX => (operand.wrapping_add(self.regs.idx_x) as u16, false),
            AddressingMode::ZeroPageY => (operand.wrapping_add(self.regs.idx_y) as u16, false),
            AddressingMode::Absolute => (operand_word, false),
            AddressingMode::AbsoluteX => {
                let address = operand_word.wrapping_add(self.regs.idx_x as u16);
                (address, page_crossed(operand_word, address))
            },
            AddressingMode::AbsoluteY => {
                let address = operand_word.wrapping_add(self.regs.idx_y as u16);
                (address, page_crossed(operand_word, address))
            },
            AddressingMode::IndirectX => {
                let pointer = operand.wrapping_add(self.regs.idx_x);
                (
                    word(
                        self.bus.peek(pointer as u16),
                        self.bus.peek(pointer.wrapping_add(1) as u16),
                    ),
                    false,
                )
            },
            AddressingMode::IndirectY => {
                let base = word(
                    self.bus.peek(operand as u16),
                    self.bus.peek(operand.wrapping_add(1) as u16),
                );
                let address = base.wrapping_add(self.regs.idx_y as u16);
                (address, page_crossed(base, address))
            },
            AddressingMode::Indirect => {
                let high_at = if operand_word % 256 == 255 {
                    (operand_word - 255) as u16
                } else {
                    (operand_word + 1) as u16
                };
                (word(self.bus.peek(operand_word), self.bus.peek(high_at)), false)
            },
        }
    }

    /// The effective address in `mode` of the instruction whose operand the
    /// program counter points at, and whether indexing crossed a page.
    pub open spec fn resolve(self, mode: AddressingMode) -> (Addr, bool) {
        self.resolve_at(self.regs.pc, mode)
    }

    /// Whether the bus lets `instruction` make the access that it makes to its
    /// effective address. The program counter is on the first operand byte.
    pub open spec fn allows(self, instruction: Instruction) -> bool {
        match instruction.variant.access() {
            Access::Nothing => true,
            Access::Read => self.can_read(instruction.mode),
            Access::Write => self.can_write(instruction.mode),
            Access::Modify => self.can_modify(instruction.mode),
        }
    }

    /// The machine after the work of `instruction` was done, with the program
    /// counter on the first operand byte before it.
    pub open spec fn perform(self, instruction: Instruction) -> CpuView {
        match instruction.variant {
            InstructionVariant::ADC => self.adc(instruction.mode),
            InstructionVariant::AND => self.and(instruction.mode),
            InstructionVariant::ASL => self.asl(instruction.mode),
            InstructionVariant::BIT => self.bit(instruction.mode),
            InstructionVariant::BPL => self.bpl(),
            InstructionVariant::BMI => self.bmi(),
            InstructionVariant::BVC => self.bvc(),
            InstructionVariant::BVS => self.bvs(),
            InstructionVariant::BCC => self.bcc(),
            InstructionVariant::BCS => self.bcs(),
            InstructionVariant::BNE => self.bne(),
            InstructionVariant::BEQ => self.beq(),
            InstructionVariant::BRK => self.brk(),
            InstructionVariant::CMP => self.compare_acc(instruction.mode),
            InstructionVariant::CPX => self.compare_x(instruction.mode),
            InstructionVariant::CPY => self.compare_y(instruction.mode),
            InstructionVariant::DEC => self.dec(instruction.mode),
            InstructionVariant::EOR => self.eor(instruction.mode),
            InstructionVariant::CLC => self.clc(),
            InstructionVariant::SEC => self.sec(),
            InstructionVariant::CLI => self.cli(),
            InstructionVariant::SEI => self.sei(),
            InstructionVariant::CLV => self.clv(),
            InstructionVariant::CLD => self.cld(),
            InstructionVariant::SED => self.sed(),
            InstructionVariant::INC => self.inc(instruction.mode),
            InstructionVariant::JMP => self.jmp(instruction.mode),
            InstructionVariant::JSR => self.jsr(instruction.mode, instruction.length),
            InstructionVariant::LDA => self.lda(instruction.mode),
            InstructionVariant::LDX => self.ldx(instruction.mode),
            InstructionVariant::LDY => self.ldy(instruction.mode),
            InstructionVariant::LSR => self.lsr(instruction.mode),
            InstructionVariant::NOP => self.nop(instruction.mode),
            InstructionVariant::ORA => self.ora(instruction.mode),
            InstructionVariant::TAX => self.tax(),
            InstructionVariant::TXA => self.txa(),
            InstructionVariant::DEX => self.dex(),
            InstructionVariant::INX => self.inx(),
            InstructionVariant::TAY => self.tay(),
            InstructionVariant::TYA => self.tya(),
            InstructionVariant::DEY => self.dey(),
            InstructionVariant::INY => self.iny(),
            InstructionVariant::ROL => self.rol(instruction.mode),
            InstructionVariant::ROR => self.ror(instruction.mode),
            InstructionVariant::RTI => self.rti(),
            InstructionVariant::RTS => self.rts(),
            InstructionVariant::SBC => self.sbc(instruction.mode),
            InstructionVariant::STA => self.sta(instruction.mode),
            InstructionVariant::TXS => self.txs(),
            InstructionVariant::TSX => self.tsx(),
            InstructionVariant::PHA => self.pha(),
            InstructionVariant::PLA => self.pla(),
            InstructionVariant::PHP => self.php(),
            InstructionVariant::PLP => self.plp(),
            InstructionVariant::STX => self.stx(instruction.mode),
            InstructionVariant::STY => self.sty(instruction.mode),
            InstructionVariant::LAX => self.lax(instruction.mode),
            InstructionVariant::SAX => self.sax(instruction.mode),
            InstructionVariant::DCP => self.dcp(instruction.mode),
            InstructionVariant::ISB => self.isb(instruction.mode),
            InstructionVariant::SLO => self.slo(instruction.mode),
            InstructionVariant::RLA => self.rla(instruction.mode),
            InstructionVariant::SRE => self.sre(instruction.mode),
            InstructionVariant::RRA => self.rra(instruction.mode),
        }
    }

    /// Whether `instruction`, with its opcode at the program counter, can be
    /// executed: the bus allows its access and the cycle counter has room.
    pub open spec fn ready_for(self, instruction: Instruction) -> bool {
        self.has_headroom() && self.with_pc(self.regs.pc.wrapping_add(1)).allows(instruction)
    }

    /// The machine after `instruction`, whose opcode is at the program counter,
    /// was executed: the program counter moves past the opcode, the work of the
    /// instruction is done, its base cycles pass, and, unless the instruction is
    /// a jump or a return, the program counter moves past the operand.
    pub open spec fn emulate(self, instruction: Instruction) -> CpuView {
        let done = self.with_pc(self.regs.pc.wrapping_add(1)).perform(instruction).tick(
            instruction.cycles,
        );
        if instruction.variant.sets_pc() {
            done
        } else {
            done.with_pc(done.regs.pc.wrapping_add(instruction.length as u16).wrapping_sub(1))
        }
    }

    /// The instruction whose opcode is at the program counter, if the byte there
    /// encodes one.
    pub open spec fn next_instruction(self) -> Option<Instruction> {
        Instruction::encoded_by(self.bus.peek(self.regs.pc))
    }

    /// Whether the machine can take a step: the byte at the program counter
    /// encodes an instruction, and that instruction can be executed.
    #[verifier::opaque]
    pub open spec fn can_step(self) -> bool {
        self.next_instruction() matches Some(instruction) && self.ready_for(instruction)
    }

    /// What keeps the machine from taking a step, if anything does: a byte at
    /// the program counter that encodes no instruction; else an access that the
    /// bus does not allow; else a cycle counter without room.
    pub open spec fn fault(self) -> Option<Fault> {
        let pc = self.regs.pc;
        match self.next_instruction() {
            None => Some(Fault::UnknownOpcode { opcode: self.bus.peek(pc), pc }),
            Some(instruction) => {
                if !self.with_pc(pc.wrapping_add(1)).allows(instruction) {
                    Some(
                        Fault::InvalidRegisterAccess {
                            address: self.resolve_at(pc.wrapping_add(1), instruction.mode).0,
                            pc,
                        },
                    )
                } else if !self.has_headroom() {
                    Some(Fault::CycleCounterFull { pc })
                } else {
                    None
                }
            },
        }
    }

    /// The machine one instruction later.
    #[verifier::opaque]
    pub open spec fn step(self) -> CpuView {
        match self.next_instruction() {
            Some(instruction) => self.emulate(instruction),
            None => self,
        }
    }

    /// The machine after it took `steps` steps, or as many as it could take.
    pub open spec fn run(self, steps: nat) -> CpuView
        decreases steps,
    {
        if steps == 0 || !self.can_step() {
            self
        } else {
            self.step().run((steps - 1) as nat)
        }
    }

    /// The trace lines of the steps that `run` takes, in their order.
    pub open spec fn run_trace(self, steps: nat) -> Seq<Seq<char>>
        decreases steps,
    {
        if steps == 0 || !self.can_step() {
            Seq::empty()
        } else {
            seq![self.trace()] + self.step().run_trace((steps - 1) as nat)
        }
    }
}

impl Cpu {
    /// The greatest reading of the cycle counter at which an instruction may
    /// begin: it leaves 1024 cycles to the end of the counter, more than any
    /// instruction takes, so that the counter cannot run over while one executes.
    pub const CYCLE_LIMIT: u64 = 0xFFFF_FFFF_FFFF_FBFF;

    /// The processor when power comes on, around `bus`.
    pub fn new(bus: Bus) -> (cpu: Cpu)
        ensures
            cpu@ == CpuView::power_on(bus@),
    {
        let regs = Registers::default();

        Cpu { regs, bus, cycles: 7 }
    }

    /// Sets the program counter.
    pub fn set_pc(&mut self, value: Addr)
        ensures
            final(self)@ == old(self)@.with_pc(value),
    {
        self.regs.pc = value;
    }

    /// The instruction that `opcode` encodes.
    pub fn decode(opcode: u8) -> (instruction: Instruction)
        requires
            Instruction::encoded_by(opcode) is Some,
        ensures
            Instruction::encoded_by(opcode) == Some(instruction),
    {
        match Instruction::lookup(opcode) {
            Some(instruction) => instruction,
            None => vstd::pervasive::unreached(),
        }
    }

    /// Pushes the word `op`, high byte first, so that it lies in memory low byte
    /// first.
    pub fn stack_push_u16(&mut self, op: u16)
        ensures
            final(self)@ == old(self)@.push_u16(op),
    {
        self.stack_push_u8((op / 256) as u8);
        self.stack_push_u8((op % 256) as u8);
    }

    /// Pushes the byte `op`. The slot written lies in page one.
    pub fn stack_push_u8(&mut self, op: u8)
        ensures
            final(self)@ == old(self)@.push(op),
    {
        let addr: Addr = 0x0100 + self.regs.sp as u16;
        self.bus.write_u8(addr, op);

        self.regs.sp = self.regs.sp.wrapping_sub(1);
    }

    /// Pulls a word, low byte first.
    pub fn stack_pop_u16(&mut self) -> (value: u16)
        ensures
            value == old(self)@.top_u16(),
            final(self)@ == old(self)@.pop_u16(),
    {
        let byte1 = self.stack_pop_u8();
        let byte2 = self.stack_pop_u8();

        byte1 as u16 + 256 * byte2 as u16
    }

    /// Pulls a byte. The slot read lies in page one.
    pub fn stack_pop_u8(&mut self) -> (value: u8)
        ensures
            value == old(self)@.top(),
            final(self)@ == old(self)@.pop(),
    {
        self.regs.sp = self.regs.sp.wrapping_add(1);

        let addr: Addr = 0x0100 + self.regs.sp as u16;
        self.bus.read_u8(addr)
    }

    /// Whether two addresses lie in different pages.
    pub fn is_page_cross(from: Addr, to: Addr) -> (crossed: bool)
        ensures
            crossed == page_crossed(from, to),
    {
        from / 256 != to / 256
    }

    /// Resolves `mode` for the instruction whose operand begins at `pc`.
    pub fn resolve_at(&self, pc: Addr, mode: AddressingMode) -> (resolved: (Addr, bool))
        ensures
            resolved == self@.resolve_at(pc, mode),
    {
        match mode {
            AddressingMode::Implied | AddressingMode::Accumulator => (0xFFFF, false),
            AddressingMode::Relative | AddressingMode::Immediate => (pc, false),
            AddressingMode::ZeroPage => {
                let op = self.bus.peek_u8(pc);
                (op as u16, false)
            },
            AddressingMode::ZeroPageX => {
                let op = self.bus.peek_u8(pc).wrapping_add(self.regs.idx_x);
                (op as u16, false)
            },
            AddressingMode::ZeroPageY => {
                let op = self.bus.peek_u8(pc).wrapping_add(self.regs.idx_y);
                (op as u16, false)
            },
            AddressingMode::Absolute => (self.bus.peek_u16(pc), false),
            AddressingMode::AbsoluteX => {
                let base = self.bus.peek_u16(pc);
                let addr = base.wrapping_add(self.regs.idx_x as u16);
                (addr, Cpu::is_page_cross(base, addr))
            },
            AddressingMode::AbsoluteY => {
                let base = self.bus.peek_u16(pc);
                let addr = base.wrapping_add(self.regs.idx_y as u16);
                (addr, Cpu::is_page_cross(base, addr))
            },
            AddressingMode::IndirectX => {
                let pointer = self.bus.peek_u8(pc).wrapping_add(self.regs.idx_x);
                let lb = self.bus.peek_u8(pointer as u16);
                let hb = self.bus.peek_u8(pointer.wrapping_add(1) as u16);
                (lb as u16 + 256 * hb as u16, false)
            },
            AddressingMode::IndirectY => {
                let op = self.bus.peek_u8(pc);
                let lb = self.bus.peek_u8(op as u16);
                let hb = self.bus.peek_u8(op.wrapping_add(1) as u16);
                let base = lb as u16 + 256 * hb as u16;
                let addr = base.wrapping_add(self.regs.idx_y as u16);
                (addr, Cpu::is_page_cross(base, addr))
            },
            AddressingMode::Indirect => {
                let indirect_addr = self.bus.peek_u16(pc);
                // The 6502 does not carry into the high byte of the pointer: the
                // word at $xxFF takes its high byte from $xx00.
                let lb = self.bus.peek_u8(indirect_addr);
                let hb = if indirect_addr % 256 == 255 {
                    self.bus.peek_u8(indirect_addr - 255)
                } else {
                    self.bus.peek_u8(indirect_addr + 1)
                };
                (lb as u16 + 256 * hb as u16, false)
            },
        }
    }

    /// Resolves `mode` for the instruction whose operand the program counter
    /// points at: its effective address, and whether indexing crossed a page.
    /// Nothing is changed by it.
    pub fn resolve_adressing(&self, mode: AddressingMode) -> (resolved: (Addr, bool))
        ensures
            resolved == self@.resolve(mode),
    {
        self.resolve_at(self.regs.pc, mode)
    }

    /// Lets `cycles` cycles pass: the counter advances, and the beam of the
    /// picture processor moves on by three dots for each of them.
    pub fn tick(&mut self, cycles: u8)
        requires
            old(self).cycles + cycles <= u64::MAX,
        ensures
            final(self)@ == old(self)@.tick(cycles),
            final(self)@.cycles >= old(self)@.cycles,
    {
        self.cycles += cycles as u64;
        self.bus.ppu_tick(cycles);
        self.bus.ppu_tick(cycles);
        self.bus.ppu_tick(cycles);
    }

    /// Writes `value` at `address` for an instruction, and lets the 513 cycles
    /// of a sprite transfer pass where the write started one.
    pub fn store(&mut self, address: Addr, value: u8)
        requires
            writable(address),
            old(self)@.has_headroom(),
        ensures
            final(self)@ == old(self)@.store(address, value),
            old(self)@.cycles <= final(self)@.cycles <= old(self)@.cycles + 513,
    {
        reveal(CpuView::store);
        self.bus.write_u8(address, value);
        if address == 0x4014 {
            self.tick(255);
            self.tick(255);
            self.tick(3);
        }
    }

    /// Whether the bus lets `instruction` make its access, were its first operand
    /// byte at `pc`.
    fn allows_at(&self, pc: Addr, instruction: &Instruction) -> (allowed: bool)
        ensures
            allowed == self@.with_pc(pc).allows(*instruction),
    {
        let (addr, _) = self.resolve_at(pc, instruction.mode);
        match instruction.variant.operand_access() {
            Access::Nothing => true,
            Access::Read => Bus::is_readable(addr),
            Access::Write => Bus::is_writable(addr),
            Access::Modify => {
                if let AddressingMode::Accumulator = instruction.mode {
                    true
                } else {
                    Bus::is_readable(addr) && Bus::is_writable(addr)
                }
            },
        }
    }

    /// Whether the next instruction can be executed: the byte at the program
    /// counter is an opcode, the instruction reads no register that cannot be
    /// read and writes none that cannot be written, and the cycle counter has
    /// room. Nothing is changed by the test.
    pub fn can_execute(&self) -> (ready: bool)
        ensures
            ready == self@.can_step(),
    {
        reveal(CpuView::can_step);
        if self.cycles > Cpu::CYCLE_LIMIT {
            return false;
        }
        match Instruction::lookup(self.bus.peek_u8(self.regs.pc)) {
            Some(instruction) => self.allows_at(self.regs.pc.wrapping_add(1), &instruction),
            None => false,
        }
    }

    /// What keeps the next instruction from being executed, if anything does.
    /// Nothing is changed by the test.
    pub fn fault(&self) -> (fault: Option<Fault>)
        ensures
            fault == self@.fault(),
            fault is None <==> self@.can_step(),
    {
        reveal(CpuView::can_step);
        let pc = self.regs.pc;
        let opcode = self.bus.peek_u8(pc);
        match Instruction::lookup(opcode) {
            None => Some(Fault::UnknownOpcode { opcode, pc }),
            Some(instruction) => {
                if !self.allows_at(pc.wrapping_add(1), &instruction) {
                    let (address, _) = self.resolve_at(pc.wrapping_add(1), instruction.mode);
                    Some(Fault::InvalidRegisterAccess { address, pc })
                } else if self.cycles > Cpu::CYCLE_LIMIT {
                    Some(Fault::CycleCounterFull { pc })
                } else {
                    None
                }
            },
        }
    }

    /// Executes the instruction at the program counter and returns its trace
    /// line, which shows the machine as it was before. The cycle counter has
    /// advanced afterwards.
    pub fn execute(&mut self) -> (line: String)
        requires
            old(self)@.can_step(),
        ensures
            line@ == old(self)@.trace(),
            final(self)@ == old(self)@.step(),
            final(self)@.cycles >= old(self)@.cycles + 2,
    {
        reveal(CpuView::can_step);
        reveal(CpuView::step);
        reveal(CpuView::trace);
        let opcode = self.bus.peek_u8(self.regs.pc);
        let instruction = Cpu::decode(opcode);
        proof {
            lemma_table_rows_are_sound(opcode);
        }

        let line = Trace::print_state(self, &instruction);

        self.emulate(&instruction);
        line
    }

    /// Calls the procedure of `instruction`.
    fn dispatch(&mut self, instruction: &Instruction)
        requires
            old(self)@.allows(*instruction),
            old(self)@.has_headroom(),
        ensures
            final(self)@ == old(self)@.perform(*instruction),
            old(self)@.cycles <= final(self)@.cycles <= old(self)@.cycles + 513,
    {
        match instruction.variant {
            InstructionVariant::ADC => Emu::adc(self, instruction),
            InstructionVariant::AND => Emu::and(self, instruction),
            InstructionVariant::ASL => Emu::asl(self, instruction),
            InstructionVariant::BIT => Emu::bit(self, instruction),
            InstructionVariant::BPL => Emu::bpl(self, instruction),
            InstructionVariant::BMI => Emu::bmi(self, instruction),
            InstructionVariant::BVC => Emu::bvc(self, instruction),
            InstructionVariant::BVS => Emu::bvs(self, instruction),
            InstructionVariant::BCC => Emu::bcc(self, instruction),
            InstructionVariant::BCS => Emu::bcs(self, instruction),
            InstructionVariant::BNE => Emu::bne(self, instruction),
            InstructionVariant::BEQ => Emu::beq(self, instruction),
            InstructionVariant::BRK => Emu::brk(self, instruction),
            InstructionVariant::CMP => Emu::cmp(self, instruction),
            InstructionVariant::CPX => Emu::cpx(self, instruction),
            InstructionVariant::CPY => Emu::cpy(self, instruction),
            InstructionVariant::DEC => Emu::dec(self, instruction),
            InstructionVariant::EOR => Emu::eor(self, instruction),
            InstructionVariant::CLC => Emu::clc(self, instruction),
            InstructionVariant::SEC => Emu::sec(self, instruction),
            InstructionVariant::CLI => Emu::cli(self, instruction),
            InstructionVariant::SEI => Emu::sei(self, instruction),
            InstructionVariant::CLV => Emu::clv(self, instruction),
            InstructionVariant::CLD => Emu::cld(self, instruction),
            InstructionVariant::SED => Emu::sed(self, instruction),
            InstructionVariant::INC => Emu::inc(self, instruction),
            InstructionVariant::JMP => Emu::jmp(self, instruction),
            InstructionVariant::JSR => Emu::jsr(self, instruction),
            InstructionVariant::LDA => Emu::lda(self, instruction),
            InstructionVariant::LDX => Emu::ldx(self, instruction),
            InstructionVariant::LDY => Emu::ldy(self, instruction),
            InstructionVariant::LSR => Emu::lsr(self, instruction),
            InstructionVariant::NOP => Emu::nop(self, instruction),
            InstructionVariant::ORA => Emu::ora(self, instruction),
            InstructionVariant::TAX => Emu::tax(self, instruction),
            InstructionVariant::TXA => Emu::txa(self, instruction),
            InstructionVariant::DEX => Emu::dex(self, instruction),
            InstructionVariant::INX => Emu::inx(self, instruction),
            InstructionVariant::TAY => Emu::tay(self, instruction),
            InstructionVariant::TYA => Emu::tya(self, instruction),
            InstructionVariant::DEY => Emu::dey(self, instruction),
            InstructionVariant::INY => Emu::iny(self, instruction),
            InstructionVariant::ROL => Emu::rol(self, instruction),
            InstructionVariant::ROR => Emu::ror(self, instruction),
            InstructionVariant::RTI => Emu::rti(self, instruction),
            InstructionVariant::RTS => Emu::rts(self, instruction),
            InstructionVariant::SBC => Emu::sbc(self, instruction),
            InstructionVariant::STA => Emu::sta(self, instruction),
            InstructionVariant::TXS => Emu::txs(self, instruction),
            InstructionVariant::TSX => Emu::tsx(self, instruction),
            InstructionVariant::PHA => Emu::pha(self, instruction),
            InstructionVariant::PLA => Emu::pla(self, instruction),
            InstructionVariant::PHP => Emu::php(self, instruction),
            InstructionVariant::PLP => Emu::plp(self, instruction),
            InstructionVariant::STX => Emu::stx(self, instruction),
            InstructionVariant::STY => Emu::sty(self, instruction),
            InstructionVariant::LAX => Emu::lax(self, instruction),
            InstructionVariant::SAX => Emu::sax(self, instruction),
            InstructionVariant::DCP => Emu::dcp(self, instruction),
            InstructionVariant::ISB => Emu::isb(self, instruction),
            InstructionVariant::SLO => Emu::slo(self, instruction),
            InstructionVariant::RLA => Emu::rla(self, instruction),
            InstructionVariant::SRE => Emu::sre(self, instruction),
            InstructionVariant::RRA => Emu::rra(self, instruction),
        }
    }

    /// Executes `instruction`, whose opcode is at the program counter. The cycle
    /// counter never goes back: it advances by the base cost of the
    /// instruction at least.
    pub fn emulate(&mut self, instruction: &Instruction)
        requires
            old(self)@.ready_for(*instruction),
        ensures
            final(self)@ == old(self)@.emulate(*instruction),
            final(self)@.cycles >= old(self)@.cycles + instruction.cycles,
    {
        // Move past the opcode, so that the procedures find the operand at the
        // program counter.
        self.regs.pc = self.regs.pc.wrapping_add(1);

        self.dispatch(instruction);

        self.tick(instruction.cycles);

        if !instruction.variant.is_jump() {
            self.regs.pc = self.regs.pc.wrapping_add(instruction.length as u16).wrapping_sub(1);
        }
    }
}

/// The machine can take a step exactly when nothing keeps it from it.
pub proof fn lemma_no_fault_means_can_step(cpu: CpuView)
    ensures
        cpu.fault() is None <==> cpu.can_step(),
{
    reveal(CpuView::can_step);
}

/// The work of an instruction never takes cycles back, and takes 513 at most.
pub proof fn lemma_perform_takes_time(cpu: CpuView, instruction: Instruction)
    ensures
        cpu.cycles <= cpu.perform(instruction).cycles <= cpu.cycles + 513,
{
    lemma_reading_takes_time(cpu, instruction.mode);
    lemma_modifying_takes_time(cpu, instruction.mode);
    lemma_storing_takes_time(cpu, instruction.mode);
    lemma_others_take_no_time(cpu, instruction.mode, instruction.length);
    lemma_branch_takes_time(cpu, true);
    lemma_branch_takes_time(cpu, false);
}

/// A write by an instruction never takes cycles back: it takes none, but for
/// the 513 of a sprite transfer, and it leaves the registers as they are.
pub proof fn lemma_store_takes_time(cpu: CpuView)
    ensures
        forall|address: Addr, value: u8|
            {
                let stored = #[trigger] cpu.store(address, value);
                &&& stored.regs == cpu.regs
                &&& stored.cycles == cpu.cycles + if address == 0x4014 {
                    513int
                } else {
                    0int
                }
            },
{
    reveal(CpuView::store);
}

/// Three moves of `step` dots, each counted through the 89342 dots of a frame,
/// are one move of three times as many dots.
proof fn lemma_three_moves_are_one(start: int, step: int, first: int, second: int, third: int)
    requires
        0 <= start < 89342,
        0 <= step <= 255,
        first == (start + step) % 89342,
        second == (first + step) % 89342,
        third == (second + step) % 89342,
    ensures
        third == (start + 3 * step) % 89342,
{
}

/// The beam of the picture processor moves three dots for each cycle of the
/// processor: after `cycles` cycles it is `3 * cycles` dots further on, counted
/// through the 89342 dots of a frame. Registers and memory are as before.
pub proof fn lemma_tick_moves_three_dots_per_cycle(cpu: CpuView, cycles: u8)
    requires
        cpu.wf(),
    ensures
        cpu.tick(cycles).wf(),
        cpu.tick(cycles).cycles == cpu.cycles + cycles,
        cpu.tick(cycles).bus.ppu.position() == (cpu.bus.ppu.position() + 3 * cycles) % 89342,
        cpu.tick(cycles).regs == cpu.regs,
        cpu.tick(cycles).bus.mem == cpu.bus.mem,
{
    let start = cpu.bus.ppu;
    let first = start.tick(cycles);
    let second = first.tick(cycles);
    let third = second.tick(cycles);
    lemma_tick_moves_the_beam(start, cycles);
    lemma_tick_moves_the_beam(first, cycles);
    lemma_tick_moves_the_beam(second, cycles);
    lemma_three_moves_are_one(
        start.position(),
        cycles as int,
        first.position(),
        second.position(),
        third.position(),
    );
}

/// The passing of cycles leaves the machine well-formed: the beam stays inside
/// the frame.
pub proof fn lemma_tick_keeps_shape(cpu: CpuView, cycles: u8)
    requires
        cpu.wf(),
    ensures
        cpu.tick(cycles).wf(),
{
    lemma_tick_moves_three_dots_per_cycle(cpu, cycles);
}

/// A write by an instruction leaves the machine well-formed.
pub proof fn lemma_store_keeps_shape(cpu: CpuView)
    requires
        cpu.wf(),
    ensures
        forall|address: Addr, value: u8| (#[trigger] cpu.store(address, value)).wf(),
{
    reveal(CpuView::store);
    assert forall|address: Addr, value: u8| (#[trigger] cpu.store(address, value)).wf() by {
        let written = CpuView { bus: cpu.bus.written(address, value), ..cpu };
        lemma_written_keeps_shape(cpu.bus, address, value);
        lemma_tick_keeps_shape(written, 255);
        lemma_tick_keeps_shape(written.tick(255), 255);
        lemma_tick_keeps_shape(written.tick(255).tick(255), 3);
    }
}

/// A read by an instruction leaves the machine well-formed.
pub proof fn lemma_load_keeps_shape(cpu: CpuView)
    requires
        cpu.wf(),
    ensures
        forall|address: Addr| (#[trigger] cpu.load(address)).wf(),
{
    assert forall|address: Addr| (#[trigger] cpu.load(address)).wf() by {
        lemma_read_keeps_shape(cpu.bus, address);
    }
}

/// The work of an instruction leaves the machine well-formed.
pub proof fn lemma_perform_keeps_shape(cpu: CpuView, instruction: Instruction)
    requires
        cpu.wf(),
    ensures
        cpu.perform(instruction).wf(),
{
    lemma_reading_keeps_shape(cpu, instruction.mode);
    lemma_modifying_keeps_shape(cpu, instruction.mode);
    lemma_storing_keeps_shape(cpu, instruction.mode);
    lemma_others_keep_shape(cpu, instruction.mode, instruction.length);
    lemma_branch_keeps_shape(cpu, true);
    lemma_branch_keeps_shape(cpu, false);
}

/// After any instruction the beam of the picture processor is inside the
/// frame, on a dot from 0 to 340 of a scanline from 0 to 261, and the
/// memories have the sizes that they had.
pub proof fn lemma_step_keeps_shape(cpu: CpuView)
    requires
        cpu.wf(),
    ensures
        cpu.step().wf(),
{
    reveal(CpuView::step);
    match cpu.next_instruction() {
        Some(instruction) => {
            lemma_perform_keeps_shape(cpu.with_pc(cpu.regs.pc.wrapping_add(1)), instruction);
        },
        None => {},
    }
}

/// The machine is well-formed when power comes on, and stays so over a run.
pub proof fn lemma_run_keeps_shape(cpu: CpuView, steps: nat)
    requires
        cpu.wf(),
    ensures
        cpu.run(steps).wf(),
    decreases steps,
{
    if steps > 0 && cpu.can_step() {
        lemma_step_keeps_shape(cpu);
        lemma_run_keeps_shape(cpu.step(), (steps - 1) as nat);
    }
}

/// The cycle counter never goes back: a step advances it by the base cost of
/// the instruction at least, which is two cycles or more, and by 523 at most.
pub proof fn lemma_step_takes_time(cpu: CpuView)
    requires
        cpu.can_step(),
    ensures
        cpu.cycles + 2 <= cpu.step().cycles <= cpu.cycles + 523,
        cpu.step().cycles <= u64::MAX,
{
    reveal(CpuView::can_step);
    reveal(CpuView::step);
    let instruction = cpu.next_instruction()->0;
    lemma_table_rows_are_sound(cpu.bus.peek(cpu.regs.pc));
    lemma_perform_takes_time(cpu.with_pc(cpu.regs.pc.wrapping_add(1)), instruction);
}

/// Over a run the cycle counter never goes back: it advances by two cycles at
/// least for each step taken.
pub proof fn lemma_run_takes_time(cpu: CpuView, steps: nat)
    ensures
        cpu.run(steps).cycles >= cpu.cycles + 2 * cpu.run_trace(steps).len(),
    decreases steps,
{
    if steps > 0 && cpu.can_step() {
        lemma_step_takes_time(cpu);
        lemma_run_takes_time(cpu.step(), (steps - 1) as nat);
    }
}

/// Every stack slot lies in page one, whatever the stack pointer holds.
pub proof fn lemma_stack_stays_in_page_one(sp: u8)
    ensures
        0x0100 <= stack_addr(sp) <= 0x01FF,
        mem_index(stack_addr(sp)) == 0x0100 + sp,
        writable(stack_addr(sp)),
{
}

/// A byte pushed is the byte pulled next, and the pull puts the stack pointer
/// back where it was.
pub proof fn lemma_push_then_pop(cpu: CpuView, value: u8)
    requires
        cpu.bus.mem.len() == 0x10000,
    ensures
        cpu.push(value).top() == value,
        cpu.push(value).pop().regs.sp == cpu.regs.sp,
        cpu.push(value).regs.sp == cpu.regs.sp.wrapping_sub(1),
{
}

/// A word pushed is the word pulled next. On the stack it lies low byte first:
/// the high byte in the slot that the stack pointer named, the low byte below.
pub proof fn lemma_push_then_pop_word(cpu: CpuView, value: u16)
    requires
        cpu.bus.mem.len() == 0x10000,
    ensures
        cpu.push_u16(value).top_u16() == value,
        cpu.push_u16(value).pop_u16().regs.sp == cpu.regs.sp,
        cpu.push_u16(value).bus.peek(stack_addr(cpu.regs.sp)) == value / 256,
        cpu.push_u16(value).bus.peek(stack_addr(cpu.regs.sp.wrapping_sub(1))) == value % 256,
{
}

/// Indexing in page zero never leaves page zero.
pub proof fn lemma_zero_page_modes_stay_in_page_zero(cpu: CpuView, pc: Addr)
    ensures
        cpu.resolve_at(pc, AddressingMode::ZeroPage).0 <= 0xFF,
        cpu.resolve_at(pc, AddressingMode::ZeroPageX).0 == (cpu.bus.peek(pc) + cpu.regs.idx_x)
            % 256,
        cpu.resolve_at(pc, AddressingMode::ZeroPageY).0 == (cpu.bus.peek(pc) + cpu.regs.idx_y)
            % 256,
{
}

/// The pointer of an indirect jump at the last byte of a page takes its high
/// byte from the first byte of the same page, not from the next page.
pub proof fn lemma_indirect_jump_stays_in_page(cpu: CpuView, pc: Addr)
    requires
        cpu.bus.peek_u16(pc) % 256 == 255,
    ensures
        cpu.resolve_at(pc, AddressingMode::Indirect).0 == word(
            cpu.bus.peek(cpu.bus.peek_u16(pc)),
            cpu.bus.peek((cpu.bus.peek_u16(pc) - 255) as u16),
        ),
{
}

} // verus!
