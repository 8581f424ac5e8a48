//! Mapper 0, NROM: 16 or 32 KiB of program memory, fixed, and no registers.

use crate::emulator::mappers::{is_prg, prg_byte, prg_index, prg_valid, ROM_START};
use crate::emulator::memory::{Reader, Writer};
use vstd::prelude::*;

verus! {

/// An NROM cartridge, as the CPU sees it.
pub struct NROM {
    prg: Vec<u8>,
}

/// The model of an NROM cartridge.
pub struct NromState {
    pub prg: Seq<u8>,
}

impl View for NROM {
    type V = NromState;

    closed spec fn view(&self) -> NromState {
        NromState { prg: self.prg@ }
    }
}

impl NROM {
    #[verifier::type_invariant]
    spec fn well_formed(self) -> bool {
        prg_valid(self.prg@) && self.prg@.len() <= 0x8000
    }

    /// A cartridge with one or two banks of program memory, or nothing if
    /// `prg` is of another size.
    pub fn new(prg: Vec<u8>) -> (mapper: Option<NROM>)
        ensures
            match mapper {
                Some(m) => m@.prg == prg@ && (prg@.len() == 0x4000 || prg@.len() == 0x8000),
                None => prg@.len() != 0x4000 && prg@.len() != 0x8000,
            },
    {
        if is_prg(&prg) && prg.len() <= 0x8000 {
            Some(NROM { prg })
        } else {
            None
        }
    }
}

impl Reader for NROM {
    /// From `$8000` on, program memory answers: the first bank at `$8000`,
    /// and at `$C000` the second, or the first again where there is one
    /// only. Below `$8000` nothing answers and a load yields 0.
    open spec fn read_spec(state: NromState, address: u16) -> (NromState, u8) {
        if address >= ROM_START {
            (state, state.prg[prg_index(state.prg, (address as int / 0x4000) % 2, address)])
        } else {
            (state, 0u8)
        }
    }

    fn read(&mut self, address: u16) -> (byte: u8) {
        proof {
            use_type_invariant(&*self);
        }
        if address >= ROM_START {
            prg_byte(&self.prg, ((address / 0x4000) % 2) as usize, address)
        } else {
            0
        }
    }
}

impl Writer for NROM {
    /// Stores are dropped.
    open spec fn write_spec(state: NromState, address: u16, byte: u8) -> NromState {
        state
    }

    fn write(&mut self, address: u16, byte: u8) {
    }
}

} // verus!
