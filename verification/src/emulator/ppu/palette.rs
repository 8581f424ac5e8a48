//! The colours of the console: what each of the 64 values that palette RAM
//! can hold looks like on screen.

use crate::emulator::ppu::Pixel;
use vstd::prelude::*;

verus! {

/// The colour that the low six bits of `value` stand for.
pub open spec fn colour_of(value: u8) -> Pixel {
    match value % 64 {
        0u8 => Pixel { r: 84, g: 84, b: 84 },
        1u8 => Pixel { r: 0, g: 30, b: 116 },
        2u8 => Pixel { r: 8, g: 16, b: 144 },
        3u8 => Pixel { r: 48, g: 0, b: 136 },
        4u8 => Pixel { r: 68, g: 0, b: 100 },
        5u8 => Pixel { r: 92, g: 0, b: 48 },
        6u8 => Pixel { r: 84, g: 4, b: 0 },
        7u8 => Pixel { r: 60, g: 24, b: 0 },
        8u8 => Pixel { r: 32, g: 42, b: 0 },
        9u8 => Pixel { r: 8, g: 58, b: 0 },
        10u8 => Pixel { r: 0, g: 64, b: 0 },
        11u8 => Pixel { r: 0, g: 60, b: 0 },
        12u8 => Pixel { r: 0, g: 50, b: 60 },
        13u8 => Pixel { r: 0, g: 0, b: 0 },
        14u8 => Pixel { r: 0, g: 0, b: 0 },
        15u8 => Pixel { r: 0, g: 0, b: 0 },
        16u8 => Pixel { r: 152, g: 150, b: 152 },
        17u8 => Pixel { r: 8, g: 76, b: 196 },
        18u8 => Pixel { r: 48, g: 50, b: 236 },
        19u8 => Pixel { r: 92, g: 30, b: 228 },
        20u8 => Pixel { r: 136, g: 20, b: 176 },
        21u8 => Pixel { r: 160, g: 20, b: 100 },
        22u8 => Pixel { r: 152, g: 34, b: 32 },
        23u8 => Pixel { r: 120, g: 60, b: 0 },
        24u8 => Pixel { r: 84, g: 90, b: 0 },
        25u8 => Pixel { r: 40, g: 114, b: 0 },
        26u8 => Pixel { r: 8, g: 124, b: 0 },
        27u8 => Pixel { r: 0, g: 118, b: 40 },
        28u8 => Pixel { r: 0, g: 102, b: 120 },
        29u8 => Pixel { r: 0, g: 0, b: 0 },
        30u8 => Pixel { r: 0, g: 0, b: 0 },
        31u8 => Pixel { r: 0, g: 0, b: 0 },
        32u8 => Pixel { r: 236, g: 238, b: 236 },
        33u8 => Pixel { r: 76, g: 154, b: 236 },
        34u8 => Pixel { r: 120, g: 124, b: 236 },
        35u8 => Pixel { r: 176, g: 98, b: 236 },
        36u8 => Pixel { r: 228, g: 84, b: 236 },
        37u8 => Pixel { r: 236, g: 88, b: 180 },
        38u8 => Pixel { r: 236, g: 106, b: 100 },
        39u8 => Pixel { r: 212, g: 136, b: 32 },
        40u8 => Pixel { r: 160, g: 170, b: 0 },
        41u8 => Pixel { r: 116, g: 196, b: 0 },
        42u8 => Pixel { r: 76, g: 208, b: 32 },
        43u8 => Pixel { r: 56, g: 204, b: 108 },
        44u8 => Pixel { r: 56, g: 180, b: 204 },
        45u8 => Pixel { r: 60, g: 60, b: 60 },
        46u8 => Pixel { r: 0, g: 0, b: 0 },
        47u8 => Pixel { r: 0, g: 0, b: 0 },
        48u8 => Pixel { r: 236, g: 238, b: 236 },
        49u8 => Pixel { r: 168, g: 204, b: 236 },
        50u8 => Pixel { r: 188, g: 188, b: 236 },
        51u8 => Pixel { r: 212, g: 178, b: 236 },
        52u8 => Pixel { r: 236, g: 174, b: 236 },
        53u8 => Pixel { r: 236, g: 174, b: 212 },
        54u8 => Pixel { r: 236, g: 180, b: 176 },
        55u8 => Pixel { r: 228, g: 196, b: 144 },
        56u8 => Pixel { r: 204, g: 210, b: 120 },
        57u8 => Pixel { r: 180, g: 222, b: 120 },
        58u8 => Pixel { r: 168, g: 226, b: 144 },
        59u8 => Pixel { r: 152, g: 226, b: 180 },
        60u8 => Pixel { r: 160, g: 214, b: 228 },
        61u8 => Pixel { r: 160, g: 162, b: 160 },
        62u8 => Pixel { r: 0, g: 0, b: 0 },
        _ => Pixel { r: 0, g: 0, b: 0 },
    }
}

/// Looks a colour up.
pub fn colour(value: u8) -> (pixel: Pixel)
    ensures
        pixel == colour_of(value),
{
    match value % 64 {
        0 => Pixel { r: 84, g: 84, b: 84 },
        1 => Pixel { r: 0, g: 30, b: 116 },
        2 => Pixel { r: 8, g: 16, b: 144 },
        3 => Pixel { r: 48, g: 0, b: 136 },
        4 => Pixel { r: 68, g: 0, b: 100 },
        5 => Pixel { r: 92, g: 0, b: 48 },
        6 => Pixel { r: 84, g: 4, b: 0 },
        7 => Pixel { r: 60, g: 24, b: 0 },
        8 => Pixel { r: 32, g: 42, b: 0 },
        9 => Pixel { r: 8, g: 58, b: 0 },
        10 => Pixel { r: 0, g: 64, b: 0 },
        11 => Pixel { r: 0, g: 60, b: 0 },
        12 => Pixel { r: 0, g: 50, b: 60 },
        13 => Pixel { r: 0, g: 0, b: 0 },
        14 => Pixel { r: 0, g: 0, b: 0 },
        15 => Pixel { r: 0, g: 0, b: 0 },
        16 => Pixel { r: 152, g: 150, b: 152 },
        17 => Pixel { r: 8, g: 76, b: 196 },
        18 => Pixel { r: 48, g: 50, b: 236 },
        19 => Pixel { r: 92, g: 30, b: 228 },
        20 => Pixel { r: 136, g: 20, b: 176 },
        21 => Pixel { r: 160, g: 20, b: 100 },
        22 => Pixel { r: 152, g: 34, b: 32 },
        23 => Pixel { r: 120, g: 60, b: 0 },
        24 => Pixel { r: 84, g: 90, b: 0 },
        25 => Pixel { r: 40, g: 114, b: 0 },
        26 => Pixel { r: 8, g: 124, b: 0 },
        27 => Pixel { r: 0, g: 118, b: 40 },
        28 => Pixel { r: 0, g: 102, b: 120 },
        29 => Pixel { r: 0, g: 0, b: 0 },
        30 => Pixel { r: 0, g: 0, b: 0 },
        31 => Pixel { r: 0, g: 0, b: 0 },
        32 => Pixel { r: 236, g: 238, b: 236 },
        33 => Pixel { r: 76, g: 154, b: 236 },
        34 => Pixel { r: 120, g: 124, b: 236 },
        35 => Pixel { r: 176, g: 98, b: 236 },
        36 => Pixel { r: 228, g: 84, b: 236 },
        37 => Pixel { r: 236, g: 88, b: 180 },
        38 => Pixel { r: 236, g: 106, b: 100 },
        39 => Pixel { r: 212, g: 136, b: 32 },
        40 => Pixel { r: 160, g: 170, b: 0 },
        41 => Pixel { r: 116, g: 196, b: 0 },
        42 => Pixel { r: 76, g: 208, b: 32 },
        43 => Pixel { r: 56, g: 204, b: 108 },
        44 => Pixel { r: 56, g: 180, b: 204 },
        45 => Pixel { r: 60, g: 60, b: 60 },
        46 => Pixel { r: 0, g: 0, b: 0 },
        47 => Pixel { r: 0, g: 0, b: 0 },
        48 => Pixel { r: 236, g: 238, b: 236 },
        49 => Pixel { r: 168, g: 204, b: 236 },
        50 => Pixel { r: 188, g: 188, b: 236 },
        51 => Pixel { r: 212, g: 178, b: 236 },
        52 => Pixel { r: 236, g: 174, b: 236 },
        53 => Pixel { r: 236, g: 174, b: 212 },
        54 => Pixel { r: 236, g: 180, b: 176 },
        55 => Pixel { r: 228, g: 196, b: 144 },
        56 => Pixel { r: 204, g: 210, b: 120 },
        57 => Pixel { r: 180, g: 222, b: 120 },
        58 => Pixel { r: 168, g: 226, b: 144 },
        59 => Pixel { r: 152, g: 226, b: 180 },
        60 => Pixel { r: 160, g: 214, b: 228 },
        61 => Pixel { r: 160, g: 162, b: 160 },
        62 => Pixel { r: 0, g: 0, b: 0 },
        _ => Pixel { r: 0, g: 0, b: 0 },
    }
}

} // verus!
