//! The emulated machine and its parts.

use vstd::prelude::*;

pub mod assembly;
pub mod clock;
pub mod cpu;
pub mod ines;
pub mod io;
pub mod mappers;
pub mod memory;
pub mod nes;
pub mod ppu;
pub mod util;

pub use self::nes::NES;

verus! {

/// Frequency of the NTSC master clock, in Hz.
pub const NES_MASTER_CLOCK_HZ: u64 = 21_477_272;

} // verus!
