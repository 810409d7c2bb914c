//! Hardware core of a Game Boy class machine: the register file, the memory
//! bus and the tile decoder.

pub mod bits;
pub mod cpu;
pub mod graphics;
pub mod hardware;
pub mod memory;
