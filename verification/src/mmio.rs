//! The values written to and read from the memory-mapped I/O registers.
//!
//! Every register value is a small bit field. The types here build those
//! fields; where in memory a value goes is for the program to know.

pub mod audio;
pub mod bits;
pub mod dma;
pub mod interrupts;
pub mod keys;
pub mod timer;
pub mod vram;
