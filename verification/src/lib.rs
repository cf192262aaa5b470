//! Rules engine of a four-player territory game played on a 16x16 board of
//! directional nodes.

pub mod audio;
pub mod game;
pub mod mmio;
pub mod random;
pub mod screen;
