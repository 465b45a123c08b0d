pub mod args;
pub mod constants;
pub mod cpu;
pub mod display;
pub mod emulator;
pub mod error;
pub mod frame;
pub mod input;
pub mod isa;
pub mod keyboard;
pub mod laws;
pub mod machine;
pub mod memory;
pub mod pacing;

pub use emulator::Emulator;
