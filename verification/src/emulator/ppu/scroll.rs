//! Arithmetic on the PPU's 15-bit VRAM address registers.
//!
//! During rendering an address is laid out `yyy NN YYYYY XXXXX` from bit 14
//! down: fine Y scroll, nametable select, coarse Y scroll, coarse X scroll.

use vstd::prelude::*;

verus! {

/// The bits of an address that move horizontally: coarse X and the low
/// nametable bit.
pub const HORIZONTAL_BITS: u16 = 0x041F;

/// The bits of an address that move vertically: fine Y, coarse Y and the high
/// nametable bit.
pub const VERTICAL_BITS: u16 = 0x7BE0;

/// The largest value of a 15-bit register.
pub const ADDRESS_MAX: u16 = 0x7FFF;

/// Coarse X scroll: the tile column, 0 to 31.
pub open spec fn coarse_x(v: u16) -> int {
    v as int % 32
}

/// Coarse Y scroll: the tile row, 0 to 31.
pub open spec fn coarse_y(v: u16) -> int {
    (v as int / 32) % 32
}

/// Which of the two nametables side by side: 0 or 1.
pub open spec fn nametable_x(v: u16) -> int {
    (v as int / 1024) % 2
}

/// Which of the two nametables one above the other: 0 or 1.
pub open spec fn nametable_y(v: u16) -> int {
    (v as int / 2048) % 2
}

/// Fine Y scroll: the pixel row within the tile, 0 to 7.
pub open spec fn fine_y(v: u16) -> int {
    (v as int / 4096) % 8
}

/// The address with the given parts.
pub open spec fn compose(fine_y: int, nametable_y: int, nametable_x: int, coarse_y: int, coarse_x: int) -> u16 {
    (fine_y * 4096 + nametable_y * 2048 + nametable_x * 1024 + coarse_y * 32 + coarse_x) as u16
}

/// A 15-bit address is made of its five parts.
pub proof fn lemma_parts(v: u16)
    requires
        v <= ADDRESS_MAX,
    ensures
        v == compose(fine_y(v), nametable_y(v), nametable_x(v), coarse_y(v), coarse_x(v)),
{
    assert(v == ((v / 4096) % 8) * 4096 + ((v / 2048) % 2) * 2048 + ((v / 1024) % 2) * 1024 + ((v / 32) % 32)
        * 32 + v % 32) by (bit_vector)
        requires
            v <= 0x7FFF,
    ;
}

/// The address one tile to the right: coarse X goes up by one, and from 31
/// back to 0 into the nametable beside.
pub open spec fn next_coarse_x(v: u16) -> u16 {
    if coarse_x(v) == 31 {
        compose(fine_y(v), nametable_y(v), 1 - nametable_x(v), coarse_y(v), 0)
    } else {
        compose(fine_y(v), nametable_y(v), nametable_x(v), coarse_y(v), coarse_x(v) + 1)
    }
}

/// The address one pixel row down: fine Y goes up by one; from 7 it goes
/// back to 0 and coarse Y goes up by one. Coarse Y goes from 29 back to 0
/// into the nametable below, and from 31, which lies in the attribute
/// table, back to 0 in the same nametable.
pub open spec fn next_y(v: u16) -> u16 {
    if fine_y(v) < 7 {
        compose(fine_y(v) + 1, nametable_y(v), nametable_x(v), coarse_y(v), coarse_x(v))
    } else if coarse_y(v) == 29 {
        compose(0, 1 - nametable_y(v), nametable_x(v), 0, coarse_x(v))
    } else if coarse_y(v) == 31 {
        compose(0, nametable_y(v), nametable_x(v), 0, coarse_x(v))
    } else {
        compose(0, nametable_y(v), nametable_x(v), coarse_y(v) + 1, coarse_x(v))
    }
}

/// `v` with its horizontal parts taken from `t`.
pub open spec fn with_horizontal(v: u16, t: u16) -> u16 {
    compose(fine_y(v), nametable_y(v), nametable_x(t), coarse_y(v), coarse_x(t))
}

/// `v` with its vertical parts taken from `t`.
pub open spec fn with_vertical(v: u16, t: u16) -> u16 {
    compose(fine_y(t), nametable_y(t), nametable_x(v), coarse_y(t), coarse_x(v))
}

/// Where the tile index for address `v` is read from.
pub open spec fn tile_address_of(v: u16) -> u16 {
    0x2000 | (v & 0x0FFF)
}

/// Where the attribute byte for address `v` is read from.
pub open spec fn attribute_address_of(v: u16) -> u16 {
    0x23C0 | (v & 0x0C00) | ((v >> 4) & 0x38) | ((v >> 2) & 0x07)
}

/// The attribute byte of a tile lies in the attribute table of the tile's
/// nametable, at the row and column of the tile's block of four by four.
pub proof fn lemma_attribute_address(v: u16)
    requires
        v <= ADDRESS_MAX,
    ensures
        attribute_address_of(v) == 0x23C0 + nametable_y(v) * 2048 + nametable_x(v) * 1024 + (coarse_y(v) / 4)
            * 8 + coarse_x(v) / 4,
        tile_address_of(v) == 0x2000 + v % 4096,
{
    assert((0x23C0u16 | (v & 0x0C00) | ((v >> 4) & 0x38) | ((v >> 2) & 0x07)) == 0x23C0 + ((v / 2048) % 2)
        * 2048 + ((v / 1024) % 2) * 1024 + (((v / 32) % 32) / 4) * 8 + (v % 32) / 4 && (0x2000u16 | (v
        & 0x0FFF)) == 0x2000 + v % 4096) by (bit_vector)
        requires
            v <= 0x7FFF,
    ;
}

pub fn fine_y_scroll(v: u16) -> (part: u16)
    ensures
        part == fine_y(v),
{
    (v / 4096) % 8
}

pub fn nametable_select(v: u16) -> (part: u16)
    ensures
        part == nametable_y(v) * 2 + nametable_x(v),
{
    (v / 1024) % 4
}

pub fn coarse_y_scroll(v: u16) -> (part: u16)
    ensures
        part == coarse_y(v),
{
    (v / 32) % 32
}

pub fn coarse_x_scroll(v: u16) -> (part: u16)
    ensures
        part == coarse_x(v),
{
    v % 32
}

/// Moves the address one tile to the right.
pub fn increment_coarse_x(v: u16) -> (next: u16)
    requires
        v <= ADDRESS_MAX,
    ensures
        next == next_coarse_x(v),
        next <= ADDRESS_MAX,
{
    if coarse_x_scroll(v) == 31 {
        // Coarse X = 0, switch horizontal nametable.
        let next = (v & !0x001F) ^ 0x0400;
        assert(((v & !0x001Fu16) ^ 0x0400) == ((v / 4096) % 8) * 4096 + ((v / 2048) % 2) * 2048 + (1 - (v
            / 1024) % 2) * 1024 + ((v / 32) % 32) * 32) by (bit_vector)
            requires
                v <= 0x7FFF,
        ;
        next
    } else {
        // Increment coarse X.
        proof {
            lemma_parts(v);
        }
        v + 1
    }
}

/// Moves the address one pixel row down.
pub fn increment_y(v: u16) -> (next: u16)
    requires
        v <= ADDRESS_MAX,
    ensures
        next == next_y(v),
        next <= ADDRESS_MAX,
{
    if fine_y_scroll(v) < 7 {
        // Increment fine Y.
        proof {
            lemma_parts(v);
        }
        v + 0x1000
    } else {
        // Fine Y = 0.
        let cleared = v & !0x7000;
        let mut coarse_y = coarse_y_scroll(v);
        let flipped = if coarse_y == 29 {
            coarse_y = 0;
            // Switch vertical nametable.
            cleared ^ 0x0800
        } else if coarse_y == 31 {
            coarse_y = 0;
            cleared
        } else {
            coarse_y += 1;
            cleared
        };
        // Put coarse Y back into v.
        let next = (flipped & !0x03E0) | (coarse_y << 5);
        assert(((((v & !0x7000u16) ^ 0x0800) & !0x03E0) | (coarse_y << 5)) == (1 - (v / 2048) % 2) * 2048 + ((v
            / 1024) % 2) * 1024 + coarse_y * 32 + v % 32 && (((v & !0x7000u16) & !0x03E0) | (coarse_y << 5))
            == ((v / 2048) % 2) * 2048 + ((v / 1024) % 2) * 1024 + coarse_y * 32 + v % 32) by (bit_vector)
            requires
                v <= 0x7FFF,
                coarse_y < 32,
        ;
        next
    }
}

/// Copies the horizontal bits of `t` into `v`.
pub fn copy_horizontal(v: u16, t: u16) -> (next: u16)
    requires
        v <= ADDRESS_MAX,
        t <= ADDRESS_MAX,
    ensures
        next == with_horizontal(v, t),
        next == (v & !HORIZONTAL_BITS) | (t & HORIZONTAL_BITS),
        next <= ADDRESS_MAX,
{
    let next = (v & !HORIZONTAL_BITS) | (t & HORIZONTAL_BITS);
    assert(((v & !0x041Fu16) | (t & 0x041F)) == ((v / 4096) % 8) * 4096 + ((v / 2048) % 2) * 2048 + ((t / 1024)
        % 2) * 1024 + ((v / 32) % 32) * 32 + t % 32) by (bit_vector)
        requires
            v <= 0x7FFF,
            t <= 0x7FFF,
    ;
    next
}

/// Copies the vertical bits of `t` into `v`.
pub fn copy_vertical(v: u16, t: u16) -> (next: u16)
    requires
        v <= ADDRESS_MAX,
        t <= ADDRESS_MAX,
    ensures
        next == with_vertical(v, t),
        next == (v & !VERTICAL_BITS) | (t & VERTICAL_BITS),
        next <= ADDRESS_MAX,
{
    let next = (v & !VERTICAL_BITS) | (t & VERTICAL_BITS);
    assert(((v & !0x7BE0u16) | (t & 0x7BE0)) == ((t / 4096) % 8) * 4096 + ((t / 2048) % 2) * 2048 + ((v / 1024)
        % 2) * 1024 + ((t / 32) % 32) * 32 + v % 32) by (bit_vector)
        requires
            v <= 0x7FFF,
            t <= 0x7FFF,
    ;
    next
}

/// Where the tile index for address `v` is read from.
pub fn tile_address(v: u16) -> (address: u16)
    ensures
        address == tile_address_of(v),
{
    0x2000 | (v & 0x0FFF)
}

/// Where the attribute byte for address `v` is read from.
pub fn attribute_address(v: u16) -> (address: u16)
    ensures
        address == attribute_address_of(v),
{
    0x23C0 | (v & 0x0C00) | ((v >> 4) & 0x38) | ((v >> 2) & 0x07)
}

} // verus!
