//! Core of a PlayStation emulator: the memory bus, the interrupt controller,
//! the geometry transformation engine (GTE) and the GPU command processor
//! with its software rasterizer.

pub mod error;
pub mod interrupt;
pub mod gpu;
pub mod gte;
pub mod memory;
