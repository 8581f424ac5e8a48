//! The processor status register.
//!
//! The register holds six flags. On the stack it travels as a byte laid out
//! `N V 1 B D I Z C` from bit 7 down: bit 5 is always 1, and bit 4 says
//! whether the byte was pushed by an instruction (BRK, PHP) or by an
//! interrupt. Neither of the two is a flag of the register itself.

use crate::bits::bit;
use vstd::prelude::*;

verus! {

/// One flag of the status register.
#[derive(Clone, Copy, Debug, PartialEq, Eq, Structural)]
pub enum Flag {
    /// Carry.
    C,
    /// Zero.
    Z,
    /// Interrupt disable.
    I,
    /// Decimal mode.
    D,
    /// Overflow.
    V,
    /// Negative.
    N,
}

/// The status register.
#[derive(Clone, Copy, Debug, PartialEq, Eq, Structural)]
pub struct Flags {
    pub c: bool,
    pub z: bool,
    pub i: bool,
    pub d: bool,
    pub v: bool,
    pub n: bool,
}

/// 1 for a set flag, 0 for a clear one.
pub open spec fn weight(flag: bool) -> int {
    if flag {
        1
    } else {
        0
    }
}

impl Flags {
    /// Whether `flag` is set.
    pub open spec fn get(self, flag: Flag) -> bool {
        match flag {
            Flag::C => self.c,
            Flag::Z => self.z,
            Flag::I => self.i,
            Flag::D => self.d,
            Flag::V => self.v,
            Flag::N => self.n,
        }
    }

    /// The register with `flag` set to `value` and the others as they were.
    pub open spec fn with(self, flag: Flag, value: bool) -> Flags {
        match flag {
            Flag::C => Flags { c: value, ..self },
            Flag::Z => Flags { z: value, ..self },
            Flag::I => Flags { i: value, ..self },
            Flag::D => Flags { d: value, ..self },
            Flag::V => Flags { v: value, ..self },
            Flag::N => Flags { n: value, ..self },
        }
    }

    /// The register after an operation whose result is `result`: Z says that
    /// the result is zero, N that its bit 7 is set.
    pub open spec fn with_zn(self, result: u8) -> Flags {
        Flags { z: result == 0, n: result >= 128, ..self }
    }

    /// The byte that goes to the stack, with bit 4 as given and bit 5 set.
    pub open spec fn pack(self, brk: bool) -> u8 {
        (weight(self.c) + 2 * weight(self.z) + 4 * weight(self.i) + 8 * weight(self.d) + 16 * weight(brk)
            + 32 + 64 * weight(self.v) + 128 * weight(self.n)) as u8
    }

    /// The register that a byte from the stack restores: bits 4 and 5 are
    /// dropped.
    pub open spec fn unpack(byte: u8) -> Flags {
        Flags {
            c: bit(byte, 0),
            z: bit(byte, 1),
            i: bit(byte, 2),
            d: bit(byte, 3),
            v: bit(byte, 6),
            n: bit(byte, 7),
        }
    }

    /// The register at power-on: interrupts disabled, all else clear.
    pub fn new() -> (flags: Flags)
        ensures
            flags == (Flags { c: false, z: false, i: true, d: false, v: false, n: false }),
    {
        Flags { c: false, z: false, i: true, d: false, v: false, n: false }
    }

    pub fn is_set(&self, flag: Flag) -> (set: bool)
        ensures
            set == self.get(flag),
    {
        match flag {
            Flag::C => self.c,
            Flag::Z => self.z,
            Flag::I => self.i,
            Flag::D => self.d,
            Flag::V => self.v,
            Flag::N => self.n,
        }
    }

    pub fn assign(&mut self, flag: Flag, value: bool)
        ensures
            *final(self) == old(self).with(flag, value),
    {
        match flag {
            Flag::C => self.c = value,
            Flag::Z => self.z = value,
            Flag::I => self.i = value,
            Flag::D => self.d = value,
            Flag::V => self.v = value,
            Flag::N => self.n = value,
        }
    }

    pub fn set(&mut self, flag: Flag)
        ensures
            *final(self) == old(self).with(flag, true),
    {
        self.assign(flag, true);
    }

    pub fn clear(&mut self, flag: Flag)
        ensures
            *final(self) == old(self).with(flag, false),
    {
        self.assign(flag, false);
    }

    /// Sets Z and N from the result of an operation.
    pub fn update_zn(&mut self, result: u8)
        ensures
            *final(self) == old(self).with_zn(result),
    {
        self.z = result == 0;
        self.n = result >= 128;
    }

    pub fn to_byte(&self, brk: bool) -> (byte: u8)
        ensures
            byte == self.pack(brk),
    {
        let mut byte: u8 = 32;
        if self.c {
            byte += 1;
        }
        if self.z {
            byte += 2;
        }
        if self.i {
            byte += 4;
        }
        if self.d {
            byte += 8;
        }
        if brk {
            byte += 16;
        }
        if self.v {
            byte += 64;
        }
        if self.n {
            byte += 128;
        }
        byte
    }

    pub fn from_byte(byte: u8) -> (flags: Flags)
        ensures
            flags == Flags::unpack(byte),
    {
        Flags {
            c: byte % 2 == 1,
            z: (byte / 2) % 2 == 1,
            i: (byte / 4) % 2 == 1,
            d: (byte / 8) % 2 == 1,
            v: (byte / 64) % 2 == 1,
            n: (byte / 128) % 2 == 1,
        }
    }
}

/// A register that went to the stack comes back as it was, whatever bit 4
/// said; on the stack bit 5 is set and bit 4 is the one given.
pub proof fn lemma_pack_unpack(flags: Flags, brk: bool)
    ensures
        Flags::unpack(flags.pack(brk)) == flags,
        bit(flags.pack(brk), 5),
        bit(flags.pack(brk), 4) == brk,
{
}

/// A byte from the stack goes back to it unchanged but for bits 4 and 5,
/// which are forced.
pub proof fn lemma_unpack_pack(byte: u8, brk: bool)
    ensures
        bit(Flags::unpack(byte).pack(brk), 0) == bit(byte, 0),
        bit(Flags::unpack(byte).pack(brk), 1) == bit(byte, 1),
        bit(Flags::unpack(byte).pack(brk), 2) == bit(byte, 2),
        bit(Flags::unpack(byte).pack(brk), 3) == bit(byte, 3),
        bit(Flags::unpack(byte).pack(brk), 4) == brk,
        bit(Flags::unpack(byte).pack(brk), 5),
        bit(Flags::unpack(byte).pack(brk), 6) == bit(byte, 6),
        bit(Flags::unpack(byte).pack(brk), 7) == bit(byte, 7),
{
    lemma_pack_unpack(Flags::unpack(byte), brk);
}

/// The layout of the stacked byte in masks: `N V 1 B D I Z C`.
pub proof fn lemma_pack_masks(flags: Flags, brk: bool)
    ensures
        (flags.pack(brk) & 0x01 != 0) == flags.c,
        (flags.pack(brk) & 0x02 != 0) == flags.z,
        (flags.pack(brk) & 0x04 != 0) == flags.i,
        (flags.pack(brk) & 0x08 != 0) == flags.d,
        (flags.pack(brk) & 0x10 != 0) == brk,
        (flags.pack(brk) & 0x20 != 0),
        (flags.pack(brk) & 0x40 != 0) == flags.v,
        (flags.pack(brk) & 0x80 != 0) == flags.n,
{
    let byte = flags.pack(brk);
    lemma_pack_unpack(flags, brk);
    assert((byte & 0x01 != 0) == (byte % 2 == 1) && (byte & 0x02 != 0) == ((byte / 2) % 2 == 1) && (byte
        & 0x04 != 0) == ((byte / 4) % 2 == 1) && (byte & 0x08 != 0) == ((byte / 8) % 2 == 1) && (byte & 0x10
        != 0) == ((byte / 16) % 2 == 1) && (byte & 0x20 != 0) == ((byte / 32) % 2 == 1) && (byte & 0x40 != 0)
        == ((byte / 64) % 2 == 1) && (byte & 0x80 != 0) == ((byte / 128) % 2 == 1)) by (bit_vector);
}

} // verus!
