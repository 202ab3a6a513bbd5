use vstd::prelude::*;

use crate::cpu::{machine_wf, ran, state_of, steps_to, Cpu, State};
use crate::error::Error;
use crate::keypad::Key;
use crate::memory::{loaded, Ram, MEM_SIZE, PROGRAM_CAPACITY, PROGRAM_START};
use crate::screen::{blank, Screen};

verus! {

/// The emulator: one interpreter, its memory and its display.
pub struct Chip8 {
    pub cpu: Cpu,
    pub ram: Ram,
    pub screen: Screen,
}

impl Chip8 {
    pub open spec fn wf(&self) -> bool {
        machine_wf(&self.cpu, &self.ram, &self.screen)
    }

    /// The whole machine as values.
    pub open spec fn state(&self) -> State {
        state_of(&self.cpu, &self.ram, &self.screen)
    }

    /// A machine with zeroed registers and memory, a dark display and the program counter
    /// at the start of the program region.
    pub fn new() -> (r: Chip8)
        ensures
            r.wf(),
            r.state().cpu.pc == PROGRAM_START,
            r.state().cpu.sp == 0,
            r.state().cpu.key is None,
            r.state().cpu.i == 0,
            forall|j: int| 0 <= j < 16 ==> r.state().cpu.v[j] == 0,
            forall|a: int| 0 <= a < MEM_SIZE ==> r.state().mem[a] == 0,
            r.state().screen == blank(),
    {
        Chip8 { cpu: Cpu::new(), ram: Ram::new(), screen: Screen::new() }
    }

    /// Loads the font and the program image `rom`; see `Ram::load`.
    pub fn load(&mut self, rom: &[u8]) -> (r: Result<(), Error>)
        requires
            old(self).wf(),
        ensures
            final(self).wf(),
            final(self).state().cpu == old(self).state().cpu,
            final(self).state().screen == old(self).state().screen,
            rom@.len() > PROGRAM_CAPACITY ==> r is Err && final(self).state().mem == old(self).state().mem,
            rom@.len() <= PROGRAM_CAPACITY ==> r is Ok && final(self).state().mem == loaded(old(self).state().mem, rom@),
    {
        self.ram.load(rom)
    }

    /// Runs cycles with no key input until the program counter reaches the top of memory,
    /// a fault arises or `budget` cycles have run: the same as calling `tick` with no key
    /// while the program counter is below the top of memory. Returns how many cycles ran;
    /// on a fault, the state is the one in which the faulting cycle began.
    pub fn run(&mut self, budget: usize) -> (r: Result<usize, Error>)
        requires
            old(self).wf(),
        ensures
            final(self).wf(),
            ran(old(self).state(), budget as nat, final(self).state(), r),
    {
        self.cpu.run(&mut self.ram, &mut self.screen, budget)
    }

    /// One cycle; `incoming` is the key pressed since the last cycle, if any.
    pub fn tick(&mut self, incoming: Option<Key>) -> (r: Result<(), Error>)
        requires
            old(self).wf(),
        ensures
            final(self).wf(),
            exists|timer: u8, rnd: u8| steps_to(old(self).state(), incoming, timer, rnd, final(self).state(), r),
    {
        self.cpu.tick(&mut self.ram, &mut self.screen, incoming)
    }
}

} // verus!
