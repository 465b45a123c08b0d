use vstd::prelude::*;
use crate::constants::{
    DISPLAY_HEIGHT, DISPLAY_WIDTH, MEMORY_SIZE, NUM_KEYS, PROGRAM_START, STACK_SIZE,
};
use crate::cpu::Cpu;
use crate::display::{frame_of, Display};
use crate::error::{CpuError, EmulatorError, KeypadError, MemoryError};
use crate::input::Keypad;
use crate::isa::{cycle_spec, draws_random};
use crate::machine::{Machine, Outcome};
use crate::memory::Memory;

verus! {

/// The result of a cycle as the emulator reports it: a processor error is
/// wrapped, success stays success.
pub open spec fn surfaced(result: Result<(), CpuError>) -> Result<(), EmulatorError> {
    match result {
        Ok(()) => Ok(()),
        Err(source) => Err(EmulatorError::Cpu { source }),
    }
}

/// Whether a cycle with outcome `outcome` leaves the emulator in state
/// `machine` and makes it return `result`.
pub open spec fn reports(
    outcome: Outcome,
    machine: Machine,
    result: Result<(), EmulatorError>,
) -> bool {
    &&& outcome.machine == machine
    &&& surfaced(outcome.result) == result
}

/// The machine as a whole: one processor, memory, display and keypad.
pub struct Emulator {
    cpu: Cpu,
    memory: Memory,
    display: Display,
    keypad: Keypad,
}

impl View for Emulator {
    type V = Machine;

    closed spec fn view(&self) -> Machine {
        Machine {
            cpu: self.cpu@,
            memory: self.memory@,
            display: self.display@,
            keys: self.keypad@,
        }
    }
}

impl Emulator {
    /// Every component of an emulator has its fixed size.
    pub proof fn lemma_view_wf(&self)
        ensures
            self@.wf(),
    {
        self.cpu.lemma_view_wf();
        self.memory.lemma_view_wf();
        self.display.lemma_view_wf();
        self.keypad.lemma_view_len();
    }

    /// Creates an emulator in its initial state: everything zero, the font
    /// table in memory, execution about to start at the program start
    /// address.
    pub fn new() -> (emulator: Self)
        ensures
            emulator@ == Machine::initial(),
    {
        Self { cpu: Cpu::new(), memory: Memory::new(), display: Display::new(), keypad: Keypad::new() }
    }

    /// Puts every component back into its initial state.
    pub fn reset(&mut self)
        ensures
            final(self)@ == Machine::initial(),
    {
        self.cpu.reset();
        self.memory.reset();
        self.keypad.reset();
        self.display.clear();
    }

    /// Runs one processor cycle. A word `CXNN` draws a random byte, so its
    /// outcome is one of those that some byte gives; every other cycle is
    /// determined by the machine alone.
    pub fn cycle(&mut self) -> (r: Result<(), EmulatorError>)
        ensures
            !draws_random(old(self)@) ==> reports(cycle_spec(old(self)@, 0), final(self)@, r),
            draws_random(old(self)@) ==> exists|random: u8|
                reports(#[trigger] cycle_spec(old(self)@, random), final(self)@, r),
            final(self)@.cpu.sp <= STACK_SIZE,
    {
        match self.cpu.cycle(&mut self.memory, &mut self.display, &mut self.keypad) {
            Ok(()) => Ok(()),
            Err(e) => Err(EmulatorError::from(e)),
        }
    }

    /// Copies a program image into memory at the program start address.
    /// An image that does not fit is refused and nothing is written; the
    /// other components are never touched.
    pub fn load_rom(&mut self, data: &[u8]) -> (r: Result<(), EmulatorError>)
        ensures
            PROGRAM_START + data@.len() <= MEMORY_SIZE ==> r == Ok::<
                (),
                EmulatorError,
            >(()) && final(self)@ == (Machine {
                memory: old(self)@.memory.with_bytes(PROGRAM_START as int, data@),
                ..old(self)@
            }),
            PROGRAM_START + data@.len() > MEMORY_SIZE ==> r == Err::<
                (),
                EmulatorError,
            >(
                EmulatorError::Memory {
                    source: MemoryError::OutOfBoundsWriteRange {
                        start: PROGRAM_START,
                        len: data.len(),
                    },
                },
            ) && final(self)@ == old(self)@,
    {
        match self.memory.write_bytes(PROGRAM_START, data) {
            Ok(()) => Ok(()),
            Err(e) => Err(EmulatorError::from(e)),
        }
    }

    /// Moves each timer one step towards zero.
    pub fn tick_timers(&mut self)
        ensures
            final(self)@ == (Machine { cpu: old(self)@.cpu.ticked(), ..old(self)@ }),
    {
        self.cpu.tick_timers();
    }

    /// The sound timer. A sound should play while it is above zero.
    pub fn get_st(&self) -> (st: u8)
        ensures
            st == self@.cpu.st,
    {
        self.cpu.get_st()
    }

    /// Borrows the framebuffer, indexed by row and then by column.
    pub fn get_display_buffer(&self) -> (buffer: &[[bool; DISPLAY_WIDTH]; DISPLAY_HEIGHT])
        ensures
            frame_of(*buffer) == self@.display,
    {
        self.display.get_buffer()
    }

    /// Borrows the processor, to read its registers.
    pub fn get_cpu(&self) -> (cpu: &Cpu)
        ensures
            cpu@ == self@.cpu,
    {
        &self.cpu
    }

    /// Copies out the bytes of RAM at `start .. end`, or fails if the
    /// bounds are reversed or `end` lies past the end of RAM.
    pub fn read_memory(&self, start: u16, end: u16) -> (r: Result<Vec<u8>, EmulatorError>)
        ensures
            match r {
                Ok(bytes) => start <= end <= MEMORY_SIZE && bytes@
                    == self@.memory.ram.subrange(start as int, end as int),
                Err(e) => !(start <= end <= MEMORY_SIZE) && e == (
                EmulatorError::Memory {
                    source: MemoryError::OutOfBoundsReadRange { start, end },
                }),
            },
    {
        match self.memory.read_bytes(start, end) {
            Ok(bytes) => Ok(bytes),
            Err(e) => Err(EmulatorError::from(e)),
        }
    }

    /// Marks key `idx` as held down, or fails, changing nothing, if there
    /// is no such key.
    pub fn press_key(&mut self, idx: usize) -> (r: Result<(), EmulatorError>)
        ensures
            idx < NUM_KEYS ==> r == Ok::<(), EmulatorError>(()) && final(self)@ == (Machine {
                keys: old(self)@.keys.update(idx as int, true),
                ..old(self)@
            }),
            idx >= NUM_KEYS ==> r == Err::<(), EmulatorError>(
                EmulatorError::Keypad { source: KeypadError::OutOfBoundsKeyIndex { idx } },
            ) && final(self)@ == old(self)@,
    {
        match self.keypad.press_key(idx) {
            Ok(()) => Ok(()),
            Err(e) => Err(EmulatorError::from(e)),
        }
    }

    /// Marks key `idx` as released, or fails, changing nothing, if there
    /// is no such key.
    pub fn release_key(&mut self, idx: usize) -> (r: Result<(), EmulatorError>)
        ensures
            idx < NUM_KEYS ==> r == Ok::<(), EmulatorError>(()) && final(self)@ == (Machine {
                keys: old(self)@.keys.update(idx as int, false),
                ..old(self)@
            }),
            idx >= NUM_KEYS ==> r == Err::<(), EmulatorError>(
                EmulatorError::Keypad { source: KeypadError::OutOfBoundsKeyIndex { idx } },
            ) && final(self)@ == old(self)@,
    {
        match self.keypad.release_key(idx) {
            Ok(()) => Ok(()),
            Err(e) => Err(EmulatorError::from(e)),
        }
    }
}

} // verus!
