//! Cycle-accurate core of an 8-bit games-console emulator: a 6502-style CPU
//! stepper and a raster video clock advanced in lockstep, one master clock
//! tick at a time, over a flat mirrored memory bus.

pub mod cpu;
pub mod errors;
pub mod laws;
pub mod machine;
pub mod model;
pub mod rom;

pub use cpu::Cpu;
pub use cpu::CpuStep;
pub use errors::EmuError;
pub use machine::Nes;
pub use rom::Rom;
pub use rom::sample_rom;
