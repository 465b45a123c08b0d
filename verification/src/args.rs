use vstd::prelude::*;

verus! {

/// Processor frequency in hertz when none is given.
pub const DEFAULT_CPU_FREQUENCY: u32 = 500;

/// Display refresh frequency in hertz when none is given.
pub const DEFAULT_DISPLAY_FREQUENCY: u32 = 60;

/// Timer frequency in hertz when none is given.
pub const DEFAULT_TIMER_FREQUENCY: u32 = 60;

/// The settings a host runs the machine with.
#[derive(Debug, Clone)]
pub struct Args {
    /// Path of the program image to load.
    pub rom_path: String,
    /// Processor frequency in hertz.
    pub cpu_frequency: u32,
    /// Display refresh frequency in hertz.
    pub display_frequency: u32,
    /// Timer frequency in hertz.
    pub timer_frequency: u32,
    /// Number of cycles to run per frame; when set, it replaces pacing by
    /// the processor frequency.
    pub steps_per_frame: Option<usize>,
}

} // verus!
