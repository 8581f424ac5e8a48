//! Cycle-driven core of an emulator for the Nintendo Entertainment System:
//! the 6502-family CPU, the memory bus, the cartridge mappers, the picture
//! processing unit and the clock driver that interleaves them.

pub mod bits;
pub mod emulator;
pub mod ui;
