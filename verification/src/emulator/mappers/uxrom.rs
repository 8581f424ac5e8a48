//! Mapper 2, UxROM: a switchable bank of program memory at `$8000`, the last
//! bank fixed at `$C000`, and 8 KiB of pattern RAM.

use crate::emulator::mappers::{is_prg, prg_banks, prg_byte, prg_index, prg_valid, ROM_START};
use crate::emulator::memory::{Reader, Writer};
use vstd::prelude::*;

verus! {

/// A UxROM cartridge, as the CPU sees it.
pub struct UXROM {
    prg: Vec<u8>,
    bank: u8,
}

/// The model of a UxROM cartridge.
pub struct UxromState {
    pub prg: Seq<u8>,
    /// The bank register, four bits.
    pub bank: u8,
}

impl View for UXROM {
    type V = UxromState;

    closed spec fn view(&self) -> UxromState {
        UxromState { prg: self.prg@, bank: self.bank }
    }
}

impl UXROM {
    #[verifier::type_invariant]
    spec fn well_formed(self) -> bool {
        prg_valid(self.prg@)
    }

    /// A cartridge with bank 0 selected, or nothing if `prg` is not made of
    /// whole banks.
    pub fn new(prg: Vec<u8>) -> (mapper: Option<UXROM>)
        ensures
            match mapper {
                Some(m) => m@ == (UxromState { prg: prg@, bank: 0 }) && prg_valid(prg@),
                None => !prg_valid(prg@),
            },
    {
        if is_prg(&prg) {
            Some(UXROM { prg, bank: 0 })
        } else {
            None
        }
    }

    /// The bank register.
    pub fn bank(&self) -> (bank: u8)
        ensures
            bank == self@.bank,
    {
        self.bank
    }
}

impl Reader for UXROM {
    /// `$8000-$BFFF` shows the bank that the register selects, `$C000-$FFFF`
    /// the last bank. Below `$8000` nothing answers and a load yields 0.
    open spec fn read_spec(state: UxromState, address: u16) -> (UxromState, u8) {
        if address >= 0xC000 {
            (state, state.prg[prg_index(state.prg, state.prg.len() as int / 0x4000 - 1, address)])
        } else if address >= ROM_START {
            (state, state.prg[prg_index(state.prg, state.bank as int, address)])
        } else {
            (state, 0u8)
        }
    }

    fn read(&mut self, address: u16) -> (byte: u8) {
        proof {
            use_type_invariant(&*self);
        }
        if address >= 0xC000 {
            prg_byte(&self.prg, prg_banks(&self.prg) - 1, address)
        } else if address >= ROM_START {
            prg_byte(&self.prg, self.bank as usize, address)
        } else {
            0
        }
    }
}

impl Writer for UXROM {
    /// A store anywhere from `$8000` on sets the bank register to the low
    /// four bits of the byte. Other stores are dropped.
    open spec fn write_spec(state: UxromState, address: u16, byte: u8) -> UxromState {
        if address >= ROM_START {
            UxromState { bank: byte % 16, ..state }
        } else {
            state
        }
    }

    fn write(&mut self, address: u16, byte: u8) {
        proof {
            use_type_invariant(&*self);
        }
        if address >= ROM_START {
            self.bank = byte % 16;
        }
    }
}

} // verus!
