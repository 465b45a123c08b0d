use vstd::prelude::*;
use vstd::std_specs::convert::FromSpecImpl;

verus! {

/// Failures of the memory component.
#[derive(Debug, Clone, Copy, PartialEq, Eq)]
pub enum MemoryError {
    /// A single-byte write addressed a location past the end of RAM.
    OutOfBoundsWrite { addr: u16 },
    /// A block write would have run past the end of RAM.
    OutOfBoundsWriteRange { start: u16, len: usize },
    /// A single-byte read addressed a location past the end of RAM.
    OutOfBoundsRead { addr: u16 },
    /// A block read had its bounds reversed or ran past the end of RAM.
    OutOfBoundsReadRange { start: u16, end: u16 },
    /// A push was attempted with the call stack already full.
    StackOverflow { sp: usize },
    /// A pop was attempted outside the call stack.
    StackUnderflow { sp: usize },
}

/// Failures of the keypad component.
#[derive(Debug, Clone, Copy, PartialEq, Eq)]
pub enum KeypadError {
    /// The key index does not name one of the sixteen keys.
    OutOfBoundsKeyIndex { idx: usize },
}

/// Failures of one processor cycle.
#[allow(inconsistent_fields)]
#[derive(Debug, Clone, Copy, PartialEq, Eq)]
pub enum CpuError {
    /// A memory access made by the instruction failed.
    Memory { source: MemoryError },
    /// A keypad access made by the instruction failed.
    Keypad { source: KeypadError },
    /// The fetched word is not an instruction of the base set.
    UnimplementedOpcode { opcode: u16 },
}

/// Failures surfaced by the composed machine.
#[allow(inconsistent_fields)]
#[derive(Debug, Clone, Copy, PartialEq, Eq)]
pub enum EmulatorError {
    /// Loading a program image failed.
    Memory { source: MemoryError },
    /// A key event named a key that does not exist.
    Keypad { source: KeypadError },
    /// Executing an instruction failed.
    Cpu { source: CpuError },
}

impl From<MemoryError> for CpuError {
    fn from(source: MemoryError) -> (e: CpuError) {
        CpuError::Memory { source }
    }
}

impl FromSpecImpl<MemoryError> for CpuError {
    open spec fn obeys_from_spec() -> bool {
        true
    }

    open spec fn from_spec(source: MemoryError) -> CpuError {
        CpuError::Memory { source }
    }
}

impl From<KeypadError> for CpuError {
    fn from(source: KeypadError) -> (e: CpuError) {
        CpuError::Keypad { source }
    }
}

impl FromSpecImpl<KeypadError> for CpuError {
    open spec fn obeys_from_spec() -> bool {
        true
    }

    open spec fn from_spec(source: KeypadError) -> CpuError {
        CpuError::Keypad { source }
    }
}

impl From<MemoryError> for EmulatorError {
    fn from(source: MemoryError) -> (e: EmulatorError) {
        EmulatorError::Memory { source }
    }
}

impl FromSpecImpl<MemoryError> for EmulatorError {
    open spec fn obeys_from_spec() -> bool {
        true
    }

    open spec fn from_spec(source: MemoryError) -> EmulatorError {
        EmulatorError::Memory { source }
    }
}

impl From<KeypadError> for EmulatorError {
    fn from(source: KeypadError) -> (e: EmulatorError) {
        EmulatorError::Keypad { source }
    }
}

impl FromSpecImpl<KeypadError> for EmulatorError {
    open spec fn obeys_from_spec() -> bool {
        true
    }

    open spec fn from_spec(source: KeypadError) -> EmulatorError {
        EmulatorError::Keypad { source }
    }
}

impl From<CpuError> for EmulatorError {
    fn from(source: CpuError) -> (e: EmulatorError) {
        EmulatorError::Cpu { source }
    }
}

impl FromSpecImpl<CpuError> for EmulatorError {
    open spec fn obeys_from_spec() -> bool {
        true
    }

    open spec fn from_spec(source: CpuError) -> EmulatorError {
        EmulatorError::Cpu { source }
    }
}

} // verus!
