//! The iNES cartridge image: a header of 16 bytes, an optional trainer of
//! 512 bytes, the program memory and the pattern memory.

use crate::emulator::ppu::vram::Mirroring;
use vstd::prelude::*;

verus! {

/// Bytes in the header.
pub const HEADER_SIZE: usize = 16;

/// Bytes in a trainer.
pub const TRAINER_SIZE: usize = 512;

/// Bytes in one unit of program memory.
pub const PRG_UNIT: usize = 16384;

/// Bytes in one unit of pattern memory.
pub const CHR_UNIT: usize = 8192;

/// The highest mapper number that is supported.
pub const MAPPER_MAX: u8 = 3;

/// Why an image is refused.
#[derive(Clone, Copy, Debug, PartialEq, Eq, Structural)]
pub enum InvalidROM {
    /// The image does not start with `N E S $1A`.
    BadMagic,
    /// The image is shorter than its header says, or has no program memory.
    Truncated,
    /// The image needs a mapper that is not supported.
    UnsupportedMapper(u8),
}

/// What an image holds.
pub struct ROM {
    pub mapper_id: u8,
    pub prg: Vec<u8>,
    pub chr: Vec<u8>,
    pub mirroring: Mirroring,
    pub has_battery: bool,
}

/// The model of what an image holds.
pub struct RomImage {
    pub mapper_id: u8,
    pub prg: Seq<u8>,
    pub chr: Seq<u8>,
    pub mirroring: Mirroring,
    pub has_battery: bool,
}

impl View for ROM {
    type V = RomImage;

    open spec fn view(&self) -> RomImage {
        RomImage {
            mapper_id: self.mapper_id,
            prg: self.prg@,
            chr: self.chr@,
            mirroring: self.mirroring,
            has_battery: self.has_battery,
        }
    }
}

/// Whether the image starts with the four bytes `N E S $1A`.
pub open spec fn has_magic(bytes: Seq<u8>) -> bool {
    bytes.len() >= 4 && bytes[0] == 0x4E && bytes[1] == 0x45 && bytes[2] == 0x53 && bytes[3] == 0x1A
}

/// Bytes of program memory that the header announces: byte 4 counts units
/// of 16 KiB.
pub open spec fn prg_size(bytes: Seq<u8>) -> int {
    bytes[4] * 16384
}

/// Bytes of pattern memory that the header announces: byte 5 counts units
/// of 8 KiB.
pub open spec fn chr_size(bytes: Seq<u8>) -> int {
    bytes[5] * 8192
}

/// Whether a trainer precedes the program memory: bit 2 of byte 6.
pub open spec fn has_trainer(bytes: Seq<u8>) -> bool {
    (bytes[6] / 4) % 2 == 1
}

/// Where program memory starts: after the header and the trainer.
pub open spec fn prg_start(bytes: Seq<u8>) -> int {
    if has_trainer(bytes) {
        528
    } else {
        16
    }
}

/// The mapper number: its low half in the high half of byte 6, its high
/// half in the high half of byte 7.
pub open spec fn mapper_number(bytes: Seq<u8>) -> u8 {
    (bytes[6] / 16 + (bytes[7] / 16) * 16) as u8
}

/// What `parse` makes of an image.
pub open spec fn parsed(bytes: Seq<u8>) -> Result<RomImage, InvalidROM> {
    if bytes.len() < 16 {
        Err(InvalidROM::Truncated)
    } else if !has_magic(bytes) {
        Err(InvalidROM::BadMagic)
    } else if mapper_number(bytes) > MAPPER_MAX {
        Err(InvalidROM::UnsupportedMapper(mapper_number(bytes)))
    } else if prg_size(bytes) == 0 || bytes.len() < prg_start(bytes) + prg_size(bytes) + chr_size(bytes) {
        Err(InvalidROM::Truncated)
    } else {
        Ok(
            RomImage {
                mapper_id: mapper_number(bytes),
                prg: bytes.subrange(prg_start(bytes), prg_start(bytes) + prg_size(bytes)),
                chr: bytes.subrange(
                    prg_start(bytes) + prg_size(bytes),
                    prg_start(bytes) + prg_size(bytes) + chr_size(bytes),
                ),
                mirroring: if bytes[6] % 2 == 1 {
                    Mirroring::Vertical
                } else {
                    Mirroring::Horizontal
                },
                has_battery: (bytes[6] / 2) % 2 == 1,
            },
        )
    }
}

/// A copy of the bytes from `from` up to `to`.
pub fn copy_range(bytes: &[u8], from: usize, to: usize) -> (copy: Vec<u8>)
    requires
        from <= to <= bytes@.len(),
    ensures
        copy@ == bytes@.subrange(from as int, to as int),
{
    let mut copy: Vec<u8> = Vec::new();
    let mut i: usize = from;
    while i < to
        invariant
            from <= i <= to,
            to <= bytes@.len(),
            copy@ == bytes@.subrange(from as int, i as int),
        decreases to - i,
    {
        copy.push(bytes[i]);
        i += 1;
    }
    copy
}

/// Reads an image. The image is refused if it is shorter than a header, if
/// it lacks the magic, if its mapper is beyond those supported, or if it
/// has no program memory or is shorter than the header announces, in that
/// order.
pub fn parse(bytes: &[u8]) -> (result: Result<ROM, InvalidROM>)
    ensures
        match result {
            Ok(rom) => parsed(bytes@) == Ok::<RomImage, InvalidROM>(rom@),
            Err(error) => parsed(bytes@) == Err::<RomImage, InvalidROM>(error),
        },
{
    if bytes.len() < HEADER_SIZE {
        return Err(InvalidROM::Truncated);
    }
    if bytes[0] != 0x4E || bytes[1] != 0x45 || bytes[2] != 0x53 || bytes[3] != 0x1A {
        return Err(InvalidROM::BadMagic);
    }
    let mapper_id: u8 = bytes[6] / 16 + (bytes[7] / 16) * 16;
    if mapper_id > MAPPER_MAX {
        return Err(InvalidROM::UnsupportedMapper(mapper_id));
    }
    let prg_size: usize = bytes[4] as usize * 16384;
    let chr_size: usize = bytes[5] as usize * 8192;
    let start: usize = if (bytes[6] / 4) % 2 == 1 {
        HEADER_SIZE + TRAINER_SIZE
    } else {
        HEADER_SIZE
    };
    if prg_size == 0 || bytes.len() < start + prg_size + chr_size {
        return Err(InvalidROM::Truncated);
    }
    let prg = copy_range(bytes, start, start + prg_size);
    let chr = copy_range(bytes, start + prg_size, start + prg_size + chr_size);
    let mirroring = if bytes[6] % 2 == 1 {
        Mirroring::Vertical
    } else {
        Mirroring::Horizontal
    };
    Ok(ROM { mapper_id, prg, chr, mirroring, has_battery: (bytes[6] / 2) % 2 == 1 })
}

} // verus!
