use vstd::prelude::*;
use crate::constants::{NUM_KEYS, NUM_REGS, PROGRAM_START};
use crate::display::{blank_frame, frame_wf};
use crate::error::CpuError;
use crate::input::all_released;
use crate::memory::MemoryView;

verus! {

/// What a processor holds: its registers, pointers and timers.
#[verifier::ext_equal]
pub struct CpuView {
    /// Program counter: the address of the next instruction.
    pub pc: u16,
    /// Stack pointer: the number of return addresses on the call stack.
    pub sp: u16,
    /// The general registers `V0..VF`.
    pub v: Seq<u8>,
    /// The index register `I`.
    pub i: u16,
    /// Delay timer.
    pub dt: u8,
    /// Sound timer.
    pub st: u8,
}

impl CpuView {
    /// There are sixteen general registers.
    pub open spec fn wf(self) -> bool {
        self.v.len() == NUM_REGS
    }

    /// The state after construction or reset: every register and timer is
    /// zero, the call stack is empty, and execution starts at the program
    /// start address.
    pub open spec fn initial() -> CpuView {
        CpuView {
            pc: PROGRAM_START,
            sp: 0,
            v: Seq::new(NUM_REGS as nat, |x: int| 0u8),
            i: 0,
            dt: 0,
            st: 0,
        }
    }

    /// Both timers one step closer to zero, where they stay.
    pub open spec fn ticked(self) -> CpuView {
        CpuView {
            dt: if self.dt > 0 { (self.dt - 1) as u8 } else { 0 },
            st: if self.st > 0 { (self.st - 1) as u8 } else { 0 },
            ..self
        }
    }
}

/// The whole machine: processor, memory, display and keypad.
#[verifier::ext_equal]
pub struct Machine {
    pub cpu: CpuView,
    pub memory: MemoryView,
    /// The frame on the display, `display[y][x]`.
    pub display: Seq<Seq<bool>>,
    /// The key states; `true` is held down.
    pub keys: Seq<bool>,
}

impl Machine {
    /// Every component has its fixed size.
    pub open spec fn wf(self) -> bool {
        &&& self.cpu.wf()
        &&& self.memory.wf()
        &&& frame_wf(self.display)
        &&& self.keys.len() == NUM_KEYS
    }

    /// The machine after construction or reset.
    pub open spec fn initial() -> Machine {
        Machine {
            cpu: CpuView::initial(),
            memory: MemoryView::initial(),
            display: blank_frame(),
            keys: all_released(),
        }
    }

    /// The value of register `Vx`.
    pub open spec fn reg(self, x: u8) -> u8 {
        self.cpu.v[x as int]
    }

    /// The machine with the program counter set to `pc`.
    pub open spec fn with_pc(self, pc: u16) -> Machine {
        Machine { cpu: CpuView { pc, ..self.cpu }, ..self }
    }

    /// The machine with the index register set to `i`.
    pub open spec fn with_i(self, i: u16) -> Machine {
        Machine { cpu: CpuView { i, ..self.cpu }, ..self }
    }

    /// The machine with register `Vx` set to `value`.
    pub open spec fn with_reg(self, x: u8, value: u8) -> Machine {
        Machine { cpu: CpuView { v: self.cpu.v.update(x as int, value), ..self.cpu }, ..self }
    }

    /// The machine with the program counter moved past one more
    /// instruction if `condition` holds.
    pub open spec fn skip_if(self, condition: bool) -> Machine {
        if condition {
            self.with_pc(self.cpu.pc.wrapping_add(2))
        } else {
            self
        }
    }
}

/// What one step leaves behind: the machine as it stands afterwards, and
/// whether the step succeeded.
pub struct Outcome {
    pub machine: Machine,
    pub result: Result<(), CpuError>,
}

/// A step that succeeded and left `machine`.
pub open spec fn done(machine: Machine) -> Outcome {
    Outcome { machine, result: Ok(()) }
}

/// A step that failed with `error` and left `machine`.
pub open spec fn failed(machine: Machine, error: CpuError) -> Outcome {
    Outcome { machine, result: Err(error) }
}

} // verus!
