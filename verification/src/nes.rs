//! The console: a processor that owns the bus, which owns memory, cartridge
//! and picture processor.

pub mod bus;
pub mod cartridge;
pub mod cpu;
pub mod ppu;

use bus::Bus;
use bus::BusView;
use cartridge::load_error;
use cartridge::loaded;
use cartridge::Cartridge;
use cartridge::RomLoadError;
use cpu::lemma_run_keeps_shape;
use cpu::lemma_run_takes_time;
use cpu::Cpu;
use cpu::CpuView;
use ppu::Ppu;
use ppu::PpuView;
use vstd::prelude::*;

verus! {

/// The console.
pub struct Nes {
    pub cpu: Cpu,
}

impl View for Nes {
    type V = CpuView;

    open spec fn view(&self) -> CpuView {
        self.cpu@
    }
}

/// The console when power comes on with the cartridge of the image `rom` in it.
pub open spec fn power_on(rom: Seq<u8>) -> CpuView {
    CpuView::power_on(BusView::assembled(loaded(rom), PpuView::power_on()))
}

impl Nes {
    /// Where `run` begins: the entry point of the automated processor test.
    pub const START: u16 = 0xC000;

    /// Builds the console around the cartridge image `rom`.
    ///
    /// The image is accepted exactly when `load_error` finds nothing wrong with
    /// it; the console is then in its power-on state.
    pub fn new(rom: &[u8]) -> (result: Result<Nes, RomLoadError>)
        ensures
            match result {
                Ok(nes) => load_error(rom@) is None && nes@ == power_on(rom@),
                Err(error) => load_error(rom@) == Some(error),
            },
    {
        let cartridge = match Cartridge::new(rom) {
            Ok(cartridge) => cartridge,
            Err(error) => {
                return Err(error);
            },
        };
        let ppu = Ppu::new();
        let bus = Bus::new(cartridge, ppu);
        let cpu = Cpu::new(bus);

        Ok(Nes { cpu })
    }

    /// Sets the program counter to `0xC000` and executes instructions from
    /// there: `max_steps` of them, or fewer where the machine comes to an
    /// instruction that it cannot execute. Returns the trace lines of the
    /// instructions executed, in their order.
    ///
    /// State and lines are functions of the state before and of `max_steps`, so
    /// the same console with the same cartridge gives the same lines.
    pub fn run(&mut self, max_steps: usize) -> (lines: Vec<String>)
        ensures
            final(self)@ == old(self)@.with_pc(Self::START).run(max_steps as nat),
            lines.deep_view() == old(self)@.with_pc(Self::START).run_trace(max_steps as nat),
            lines.len() <= max_steps,
            final(self)@.cycles >= old(self)@.cycles + 2 * lines.len(),
    {
        self.cpu.set_pc(Self::START);

        let ghost start = self@;
        let mut lines: Vec<String> = Vec::new();
        let mut done: usize = 0;
        loop
            invariant
                done <= max_steps,
                lines.len() == done,
                self@.cycles >= start.cycles + 2 * done,
                start.run(max_steps as nat) == self@.run((max_steps - done) as nat),
                start.run_trace(max_steps as nat) =~= lines.deep_view() + self@.run_trace(
                    (max_steps - done) as nat,
                ),
            ensures
                self@ == start.run(max_steps as nat),
                lines.deep_view() =~= start.run_trace(max_steps as nat),
                lines.len() == done <= max_steps,
                self@.cycles >= start.cycles + 2 * done,
            decreases max_steps - done,
        {
            if done >= max_steps {
                break ;
            }
            let ready = self.cpu.can_execute();
            if !ready {
                break ;
            }
            let line = self.cpu.execute();
            lines.push(line);
            done += 1;
        }
        lines
    }
}

/// A run takes no more steps than it was given, and leaves one trace line for
/// each step that it took.
pub proof fn lemma_run_trace_is_bounded(cpu: CpuView, steps: nat)
    ensures
        cpu.run_trace(steps).len() <= steps,
        !cpu.can_step() ==> cpu.run(steps) == cpu && cpu.run_trace(steps).len() == 0,
    decreases steps,
{
    if steps > 0 && cpu.can_step() {
        lemma_run_trace_is_bounded(cpu.step(), (steps - 1) as nat);
    }
}

/// A run of `first + second` steps is a run of `first` steps and, from where it
/// ends, a run of `second` steps; and its trace is the two traces one after
/// the other.
pub proof fn lemma_run_can_be_split(cpu: CpuView, first: nat, second: nat)
    ensures
        cpu.run(first + second) == cpu.run(first).run(second),
        cpu.run_trace(first + second) == cpu.run_trace(first) + cpu.run(first).run_trace(second),
    decreases first,
{
    if first > 0 && cpu.can_step() {
        lemma_run_can_be_split(cpu.step(), (first - 1) as nat, second);
    }
}

/// Every state that a console reaches is well-formed: from power-on and after
/// any number of instructions the memories have their sizes and the beam of the
/// picture processor is inside the frame, on a dot from 0 to 340 of a scanline
/// from 0 to 261.
pub proof fn lemma_reachable_states_are_well_formed(rom: Seq<u8>, steps: nat)
    ensures
        power_on(rom).wf(),
        power_on(rom).with_pc(Nes::START).run(steps).wf(),
        power_on(rom).with_pc(Nes::START).run(steps).cycles >= 7,
{
    lemma_run_keeps_shape(power_on(rom).with_pc(Nes::START), steps);
    lemma_run_takes_time(power_on(rom).with_pc(Nes::START), steps);
}

/// The trace is a function of the cartridge image and of the number of steps:
/// equal images give consoles in equal states, and consoles in equal states
/// leave equal traces, line for line, and end in equal states.
pub proof fn lemma_trace_is_deterministic(first: Seq<u8>, second: Seq<u8>, steps: nat)
    requires
        first == second,
    ensures
        power_on(first) == power_on(second),
        power_on(first).with_pc(Nes::START).run_trace(steps) == power_on(second).with_pc(
            Nes::START,
        ).run_trace(steps),
        power_on(first).with_pc(Nes::START).run(steps) == power_on(second).with_pc(
            Nes::START,
        ).run(steps),
{
}

} // verus!
