//! The cartridge mappers, in iNES mapper number order. A mapper answers the
//! CPU's loads and stores in cartridge space, and says which banks of
//! pattern memory the PPU sees and how the nametables are mirrored.

use crate::emulator::memory::{Reader, Writer};
use crate::emulator::ppu::vram::Mirroring;
use vstd::prelude::*;

// #0 NROM
pub mod nrom;

// #1 MMC1
pub mod mmc1;

// #2 UxROM
pub mod uxrom;

// #3 CNROM
pub mod cnrom;

pub use self::cnrom::CNROM;
pub use self::mmc1::MMC1;
pub use self::nrom::NROM;
pub use self::uxrom::UXROM;

verus! {

/// Bytes in one bank of program memory.
pub const PRG_BANK_SIZE: usize = 0x4000;

/// The most banks of program memory that a bank register can reach.
pub const PRG_BANKS_MAX: usize = 256;

/// Where cartridge ROM starts in the CPU's address space.
pub const ROM_START: u16 = 0x8000;

/// The byte of program memory behind `address` when the window that
/// contains the address shows bank `bank`. Bank numbers wrap at the number
/// of banks.
pub open spec fn prg_index(prg: Seq<u8>, bank: int, address: u16) -> int {
    (bank % (prg.len() as int / 0x4000)) * 0x4000 + address as int % 0x4000
}

/// Whether program memory is made of whole banks of 16 KiB, at least one
/// and at most 256.
pub open spec fn prg_valid(prg: Seq<u8>) -> bool {
    prg.len() % 0x4000 == 0 && 0x4000 <= prg.len() <= 0x4000 * 256
}

/// Whether a vector can serve as program memory.
pub fn is_prg(prg: &Vec<u8>) -> (valid: bool)
    ensures
        valid == prg_valid(prg@),
{
    prg.len() % PRG_BANK_SIZE == 0 && prg.len() >= PRG_BANK_SIZE && prg.len() <= 0x400000
}

/// Loads from program memory through a window.
pub fn prg_byte(prg: &Vec<u8>, bank: usize, address: u16) -> (byte: u8)
    requires
        prg_valid(prg@),
    ensures
        byte == prg@[prg_index(prg@, bank as int, address)],
        0 <= prg_index(prg@, bank as int, address) < prg@.len(),
{
    let banks = prg.len() / PRG_BANK_SIZE;
    let shown = bank % banks;
    prg[shown * 0x4000 + (address % 0x4000) as usize]
}

/// Number of banks of program memory.
pub fn prg_banks(prg: &Vec<u8>) -> (banks: usize)
    requires
        prg_valid(prg@),
    ensures
        banks == prg@.len() as int / 0x4000,
        1 <= banks <= 256,
{
    prg.len() / PRG_BANK_SIZE
}

/// What a mapper shows the PPU: the 4 KiB banks of pattern memory behind
/// `$0000` and `$1000`, and the mirroring if the mapper controls it.
#[derive(Clone, Copy, Debug, PartialEq, Eq, Structural)]
pub struct VideoBanks {
    pub low: u8,
    pub high: u8,
    pub mirroring: Option<Mirroring>,
}

/// A cartridge's mapper.
pub enum Mapper {
    Nrom(NROM),
    Mmc1(MMC1),
    Uxrom(UXROM),
    Cnrom(CNROM),
}

/// The model of a mapper.
pub enum MapperState {
    Nrom(nrom::NromState),
    Mmc1(mmc1::Mmc1State),
    Uxrom(uxrom::UxromState),
    Cnrom(cnrom::CnromState),
}

impl View for Mapper {
    type V = MapperState;

    open spec fn view(&self) -> MapperState {
        match self {
            Mapper::Nrom(mapper) => MapperState::Nrom(mapper@),
            Mapper::Mmc1(mapper) => MapperState::Mmc1(mapper@),
            Mapper::Uxrom(mapper) => MapperState::Uxrom(mapper@),
            Mapper::Cnrom(mapper) => MapperState::Cnrom(mapper@),
        }
    }
}

impl MapperState {
    /// What the mapper shows the PPU.
    pub open spec fn video_banks(self) -> VideoBanks {
        match self {
            MapperState::Nrom(mapper) => VideoBanks { low: 0, high: 1, mirroring: None },
            MapperState::Mmc1(mapper) => mapper.video_banks(),
            MapperState::Uxrom(mapper) => VideoBanks { low: 0, high: 1, mirroring: None },
            MapperState::Cnrom(mapper) => mapper.video_banks(),
        }
    }

    /// The program RAM that a battery keeps, where the cartridge has any.
    pub open spec fn battery_ram(self) -> Option<Seq<u8>> {
        match self {
            MapperState::Mmc1(mapper) => Some(mapper.prg_ram),
            _ => None,
        }
    }

    /// The mapper with the program RAM that was kept, where the cartridge
    /// has program RAM and the bytes are of its size.
    pub open spec fn restored(self, bytes: Seq<u8>) -> MapperState {
        match self {
            MapperState::Mmc1(mapper) => if bytes.len() == mmc1::PRG_RAM_SIZE {
                MapperState::Mmc1(mmc1::Mmc1State { prg_ram: bytes, ..mapper })
            } else {
                self
            },
            _ => self,
        }
    }

    /// The mapper with its clock at `cycle`. Only MMC1 keeps a clock.
    pub open spec fn at_cycle(self, cycle: u64) -> MapperState {
        match self {
            MapperState::Mmc1(mapper) => MapperState::Mmc1(mmc1::Mmc1State { clock: cycle, ..mapper }),
            _ => self,
        }
    }
}

impl Mapper {
    /// What the mapper shows the PPU.
    pub fn video_banks(&self) -> (banks: VideoBanks)
        ensures
            banks == self@.video_banks(),
    {
        match self {
            Mapper::Nrom(_) => VideoBanks { low: 0, high: 1, mirroring: None },
            Mapper::Mmc1(mapper) => mapper.video_banks(),
            Mapper::Uxrom(_) => VideoBanks { low: 0, high: 1, mirroring: None },
            Mapper::Cnrom(mapper) => mapper.video_banks(),
        }
    }

    /// A copy of the program RAM that a battery keeps, where the cartridge
    /// has any.
    pub fn battery_ram(&self) -> (bytes: Option<Vec<u8>>)
        ensures
            match bytes {
                Some(b) => self@.battery_ram() == Some(b@),
                None => self@.battery_ram() is None,
            },
    {
        match self {
            Mapper::Mmc1(mapper) => Some(mapper.prg_ram()),
            _ => None,
        }
    }

    /// Puts back program RAM that was kept. Yields whether the cartridge
    /// took it: it has program RAM and the bytes are of its size.
    pub fn restore_battery_ram(&mut self, bytes: &[u8]) -> (restored: bool)
        ensures
            restored == (old(self)@.battery_ram() is Some && bytes@.len() == mmc1::PRG_RAM_SIZE),
            final(self)@ == old(self)@.restored(bytes@),
    {
        match self {
            Mapper::Mmc1(mapper) => mapper.restore_prg_ram(bytes),
            _ => false,
        }
    }

    /// Tells the mapper the CPU cycle at which the stores that follow
    /// happen.
    pub fn set_clock(&mut self, cycle: u64)
        ensures
            final(self)@ == old(self)@.at_cycle(cycle),
    {
        match self {
            Mapper::Mmc1(mapper) => mapper.set_clock(cycle),
            _ => {},
        }
    }
}

impl Reader for Mapper {
    open spec fn read_spec(state: MapperState, address: u16) -> (MapperState, u8) {
        match state {
            MapperState::Nrom(mapper) => (
                MapperState::Nrom(NROM::read_spec(mapper, address).0),
                NROM::read_spec(mapper, address).1,
            ),
            MapperState::Mmc1(mapper) => (
                MapperState::Mmc1(MMC1::read_spec(mapper, address).0),
                MMC1::read_spec(mapper, address).1,
            ),
            MapperState::Uxrom(mapper) => (
                MapperState::Uxrom(UXROM::read_spec(mapper, address).0),
                UXROM::read_spec(mapper, address).1,
            ),
            MapperState::Cnrom(mapper) => (
                MapperState::Cnrom(CNROM::read_spec(mapper, address).0),
                CNROM::read_spec(mapper, address).1,
            ),
        }
    }

    fn read(&mut self, address: u16) -> (byte: u8) {
        match self {
            Mapper::Nrom(mapper) => mapper.read(address),
            Mapper::Mmc1(mapper) => mapper.read(address),
            Mapper::Uxrom(mapper) => mapper.read(address),
            Mapper::Cnrom(mapper) => mapper.read(address),
        }
    }
}

impl Writer for Mapper {
    open spec fn write_spec(state: MapperState, address: u16, byte: u8) -> MapperState {
        match state {
            MapperState::Nrom(mapper) => MapperState::Nrom(NROM::write_spec(mapper, address, byte)),
            MapperState::Mmc1(mapper) => MapperState::Mmc1(MMC1::write_spec(mapper, address, byte)),
            MapperState::Uxrom(mapper) => MapperState::Uxrom(UXROM::write_spec(mapper, address, byte)),
            MapperState::Cnrom(mapper) => MapperState::Cnrom(CNROM::write_spec(mapper, address, byte)),
        }
    }

    fn write(&mut self, address: u16, byte: u8) {
        match self {
            Mapper::Nrom(mapper) => mapper.write(address, byte),
            Mapper::Mmc1(mapper) => mapper.write(address, byte),
            Mapper::Uxrom(mapper) => mapper.write(address, byte),
            Mapper::Cnrom(mapper) => mapper.write(address, byte),
        }
    }
}

} // verus!
