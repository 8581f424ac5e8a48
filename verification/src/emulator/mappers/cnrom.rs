//! Mapper 3, CNROM: program memory fixed as in NROM, and a register that
//! selects the 8 KiB bank of pattern memory.

use crate::emulator::mappers::{is_prg, prg_byte, prg_index, prg_valid, VideoBanks, ROM_START};
use crate::emulator::memory::{Reader, Writer};
use vstd::prelude::*;

verus! {

/// A CNROM cartridge, as the CPU sees it.
pub struct CNROM {
    prg: Vec<u8>,
    chr_bank: u8,
}

/// The model of a CNROM cartridge.
pub struct CnromState {
    pub prg: Seq<u8>,
    /// The bank register, two bits.
    pub chr_bank: u8,
}

impl CnromState {
    /// The two 4 KiB halves of the selected 8 KiB bank.
    pub open spec fn video_banks(self) -> VideoBanks {
        VideoBanks {
            low: ((self.chr_bank % 4) * 2) as u8,
            high: ((self.chr_bank % 4) * 2 + 1) as u8,
            mirroring: None,
        }
    }
}

impl View for CNROM {
    type V = CnromState;

    closed spec fn view(&self) -> CnromState {
        CnromState { prg: self.prg@, chr_bank: self.chr_bank }
    }
}

impl CNROM {
    #[verifier::type_invariant]
    spec fn well_formed(self) -> bool {
        prg_valid(self.prg@) && self.prg@.len() <= 0x8000
    }

    /// A cartridge with pattern bank 0 selected, or nothing if `prg` is not
    /// one or two banks.
    pub fn new(prg: Vec<u8>) -> (mapper: Option<CNROM>)
        ensures
            match mapper {
                Some(m) => m@ == (CnromState { prg: prg@, chr_bank: 0 }) && (prg@.len() == 0x4000
                    || prg@.len() == 0x8000),
                None => prg@.len() != 0x4000 && prg@.len() != 0x8000,
            },
    {
        if is_prg(&prg) && prg.len() <= 0x8000 {
            Some(CNROM { prg, chr_bank: 0 })
        } else {
            None
        }
    }

    /// What the cartridge shows the PPU.
    pub fn video_banks(&self) -> (banks: VideoBanks)
        ensures
            banks == self@.video_banks(),
    {
        VideoBanks { low: (self.chr_bank % 4) * 2, high: (self.chr_bank % 4) * 2 + 1, mirroring: None }
    }
}

impl Reader for CNROM {
    /// Program memory answers from `$8000` on, as in NROM.
    open spec fn read_spec(state: CnromState, address: u16) -> (CnromState, u8) {
        if address >= ROM_START {
            (state, state.prg[prg_index(state.prg, (address as int / 0x4000) % 2, address)])
        } else {
            (state, 0u8)
        }
    }

    fn read(&mut self, address: u16) -> (byte: u8) {
        proof {
            use_type_invariant(&*self);
        }
        if address >= ROM_START {
            prg_byte(&self.prg, ((address / 0x4000) % 2) as usize, address)
        } else {
            0
        }
    }
}

impl Writer for CNROM {
    /// A store anywhere from `$8000` on selects the pattern bank by the low
    /// two bits of the byte. Other stores are dropped.
    open spec fn write_spec(state: CnromState, address: u16, byte: u8) -> CnromState {
        if address >= ROM_START {
            CnromState { chr_bank: byte % 4, ..state }
        } else {
            state
        }
    }

    fn write(&mut self, address: u16, byte: u8) {
        proof {
            use_type_invariant(&*self);
        }
        if address >= ROM_START {
            self.chr_bank = byte % 4;
        }
    }
}

} // verus!
