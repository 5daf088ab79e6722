//! Cycle-stepped model of the MOS 6526 Complex Interface Adapter and the
//! small pieces of a Commodore 64 that sit next to it.

pub mod clock;
pub mod cpu;
pub mod device;
pub mod io;
pub mod loader;
pub mod system;
pub mod util;
