//! The pixel pipeline: the background's shift registers, the sprite units,
//! sprite evaluation, and the choice between background and sprite.

use crate::bits::{bit, test_bit};
use crate::emulator::cpu::flags::weight;
use vstd::prelude::*;

verus! {

/// The background's shift registers and the latches that feed them.
///
/// The two pattern registers hold one bit plane each of two tiles: the high
/// byte is being drawn, the low byte is next. The two attribute registers
/// hold the palette bits of the eight pixels being drawn, and are fed from
/// the two latches, which hold the palette of the tile that is next.
#[derive(Clone, Copy, Debug, PartialEq, Eq, Structural)]
pub struct Background {
    pub pattern_lo: u16,
    pub pattern_hi: u16,
    pub attribute_lo: u8,
    pub attribute_hi: u8,
    pub latch_lo: bool,
    pub latch_hi: bool,
    /// Tile index fetched for the tile after next.
    pub next_tile: u8,
    /// Palette number, 0 to 3, fetched for the tile after next.
    pub next_palette: u8,
    /// Low bit plane fetched for the tile after next.
    pub next_lo: u8,
    /// High bit plane fetched for the tile after next.
    pub next_hi: u8,
}

/// The two bits that an attribute byte holds for the tile at the given
/// coarse position: one palette number for each quadrant of a block of four
/// by four tiles.
pub open spec fn quadrant_palette(attribute: u8, coarse_x: int, coarse_y: int) -> u8 {
    let quadrant = 2 * ((coarse_y / 2) % 2) + (coarse_x / 2) % 2;
    if quadrant == 0 {
        attribute % 4
    } else if quadrant == 1 {
        (attribute / 4) % 4
    } else if quadrant == 2 {
        (attribute / 16) % 4
    } else {
        (attribute / 64) % 4
    }
}

/// Picks a tile's palette out of its attribute byte.
pub fn select_palette(attribute: u8, coarse_x: u16, coarse_y: u16) -> (palette: u8)
    ensures
        palette == quadrant_palette(attribute, coarse_x as int, coarse_y as int),
        palette < 4,
{
    let quadrant = 2 * ((coarse_y / 2) % 2) + (coarse_x / 2) % 2;
    if quadrant == 0 {
        attribute % 4
    } else if quadrant == 1 {
        (attribute / 4) % 4
    } else if quadrant == 2 {
        (attribute / 16) % 4
    } else {
        (attribute / 64) % 4
    }
}

impl Background {
    /// All registers empty.
    pub open spec fn empty() -> Background {
        Background {
            pattern_lo: 0,
            pattern_hi: 0,
            attribute_lo: 0,
            attribute_hi: 0,
            latch_lo: false,
            latch_hi: false,
            next_tile: 0,
            next_palette: 0,
            next_lo: 0,
            next_hi: 0,
        }
    }

    /// After one dot: every register moves one pixel to the left, and the
    /// attribute registers take their new bit from the latches.
    pub open spec fn shifted(self) -> Background {
        Background {
            pattern_lo: ((self.pattern_lo * 2) % 0x10000) as u16,
            pattern_hi: ((self.pattern_hi * 2) % 0x10000) as u16,
            attribute_lo: ((self.attribute_lo * 2 + weight(self.latch_lo)) % 256) as u8,
            attribute_hi: ((self.attribute_hi * 2 + weight(self.latch_hi)) % 256) as u8,
            ..self
        }
    }

    /// After a reload: the low eight bits of the pattern registers take the
    /// planes fetched last, and the latches the palette fetched last.
    pub open spec fn reloaded(self) -> Background {
        Background {
            pattern_lo: ((self.pattern_lo / 256) * 256 + self.next_lo) as u16,
            pattern_hi: ((self.pattern_hi / 256) * 256 + self.next_hi) as u16,
            latch_lo: self.next_palette % 2 == 1,
            latch_hi: (self.next_palette / 2) % 2 == 1,
            ..self
        }
    }

    /// The pixel that fine X selects: the palette number in bits 3 and 2,
    /// the colour within the palette in bits 1 and 0.
    pub open spec fn pixel(self, fine_x: u8) -> u8 {
        (((self.attribute_hi >> (7 - fine_x) as u8) % 2) * 8 + ((self.attribute_lo >> (7 - fine_x) as u8) % 2)
            * 4 + ((self.pattern_hi >> (15 - fine_x) as u16) % 2) * 2 + (self.pattern_lo >> (15
            - fine_x) as u16) % 2) as u8
    }

    pub fn new() -> (background: Background)
        ensures
            background == Background::empty(),
    {
        Background {
            pattern_lo: 0,
            pattern_hi: 0,
            attribute_lo: 0,
            attribute_hi: 0,
            latch_lo: false,
            latch_hi: false,
            next_tile: 0,
            next_palette: 0,
            next_lo: 0,
            next_hi: 0,
        }
    }

    pub fn shift(&mut self)
        ensures
            *final(self) == old(self).shifted(),
    {
        self.pattern_lo = (((self.pattern_lo as u32) * 2) % 0x10000) as u16;
        self.pattern_hi = (((self.pattern_hi as u32) * 2) % 0x10000) as u16;
        let feed_lo: u16 = if self.latch_lo {
            1
        } else {
            0
        };
        let feed_hi: u16 = if self.latch_hi {
            1
        } else {
            0
        };
        self.attribute_lo = (((self.attribute_lo as u16) * 2 + feed_lo) % 256) as u8;
        self.attribute_hi = (((self.attribute_hi as u16) * 2 + feed_hi) % 256) as u8;
    }

    pub fn reload(&mut self)
        ensures
            *final(self) == old(self).reloaded(),
    {
        self.pattern_lo = (self.pattern_lo / 256) * 256 + self.next_lo as u16;
        self.pattern_hi = (self.pattern_hi / 256) * 256 + self.next_hi as u16;
        self.latch_lo = self.next_palette % 2 == 1;
        self.latch_hi = (self.next_palette / 2) % 2 == 1;
    }

    pub fn select(&self, fine_x: u8) -> (pixel: u8)
        requires
            fine_x < 8,
        ensures
            pixel == self.pixel(fine_x),
            pixel < 16,
    {
        let a1: u8 = (self.attribute_hi >> (7 - fine_x)) % 2;
        let a0: u8 = (self.attribute_lo >> (7 - fine_x)) % 2;
        let p1: u16 = (self.pattern_hi >> (15 - fine_x) as u16) % 2;
        let p0: u16 = (self.pattern_lo >> (15 - fine_x) as u16) % 2;
        a1 * 8 + a0 * 4 + (p1 as u8) * 2 + p0 as u8
    }
}

/// One of the eight sprite units: the two bit planes of the sprite's row on
/// the scanline, its attribute byte, and the X position of its left edge.
#[derive(Clone, Copy, Debug, PartialEq, Eq, Structural)]
pub struct SpriteUnit {
    pub pattern_lo: u8,
    pub pattern_hi: u8,
    pub attributes: u8,
    pub x: u8,
    /// Whether the unit holds sprite 0.
    pub zero: bool,
}

/// What the sprite units put on a pixel.
#[derive(Clone, Copy, Debug, PartialEq, Eq, Structural)]
pub struct SpritePixel {
    /// Colour within the palette, 0 for a transparent pixel.
    pub colour: u8,
    /// Palette number, 0 to 3.
    pub palette: u8,
    /// Whether the sprite stands behind the background.
    pub behind: bool,
    /// Whether the pixel comes from sprite 0.
    pub zero: bool,
}

impl SpriteUnit {
    /// A unit that draws nothing.
    pub open spec fn idle() -> SpriteUnit {
        SpriteUnit { pattern_lo: 0, pattern_hi: 0, attributes: 0, x: 0, zero: false }
    }

    /// The colour, 0 to 3, that the unit puts at column `x` of the screen:
    /// 0 outside the eight columns from its left edge on. The leftmost
    /// pixel is bit 7 of the planes.
    pub open spec fn colour_at(self, x: u8) -> u8 {
        if self.x <= x && x - self.x < 8 {
            (((self.pattern_hi >> (7 - (x - self.x)) as u8) % 2) * 2 + (self.pattern_lo >> (7 - (x
                - self.x)) as u8) % 2) as u8
        } else {
            0
        }
    }

    /// What the unit puts at column `x`.
    pub open spec fn pixel_at(self, x: u8) -> SpritePixel {
        SpritePixel {
            colour: self.colour_at(x),
            palette: self.attributes % 4,
            behind: bit(self.attributes, 5),
            zero: self.zero,
        }
    }

    pub fn colour(&self, x: u8) -> (colour: u8)
        ensures
            colour == self.colour_at(x),
            colour < 4,
    {
        if self.x <= x && x - self.x < 8 {
            let shift: u8 = 7 - (x - self.x);
            ((self.pattern_hi >> shift) % 2) * 2 + (self.pattern_lo >> shift) % 2
        } else {
            0
        }
    }
}

/// A transparent sprite pixel.
pub open spec fn no_sprite() -> SpritePixel {
    SpritePixel { colour: 0, palette: 0, behind: false, zero: false }
}

/// What the units from `from` on put at column `x`: the pixel of the first
/// unit whose pixel there is opaque.
pub open spec fn sprite_pixel_from(units: Seq<SpriteUnit>, x: u8, from: int) -> SpritePixel
    decreases units.len() - from,
{
    if from < 0 || from >= units.len() {
        no_sprite()
    } else if units[from].colour_at(x) != 0 {
        units[from].pixel_at(x)
    } else {
        sprite_pixel_from(units, x, from + 1)
    }
}

/// What the sprite units put at column `x`.
pub open spec fn sprite_pixel(units: Seq<SpriteUnit>, x: u8) -> SpritePixel {
    sprite_pixel_from(units, x, 0)
}

/// What the sprite units put at column `x`.
pub fn select_sprite(units: &Vec<SpriteUnit>, x: u8) -> (pixel: SpritePixel)
    ensures
        pixel == sprite_pixel(units@, x),
        pixel.colour < 4,
        pixel.palette < 4,
{
    let mut i: usize = 0;
    while i < units.len()
        invariant
            i <= units.len(),
            sprite_pixel(units@, x) == sprite_pixel_from(units@, x, i as int),
        decreases units.len() - i,
    {
        let colour = units[i].colour(x);
        if colour != 0 {
            return SpritePixel {
                colour,
                palette: units[i].attributes % 4,
                behind: test_bit(units[i].attributes, 5),
                zero: units[i].zero,
            };
        }
        i += 1;
    }
    SpritePixel { colour: 0, palette: 0, behind: false, zero: false }
}

/// The index into palette RAM, 0 to 31, of a pixel on which the background
/// puts `background` (palette in bits 3 and 2, colour in bits 1 and 0) and
/// the sprites put `sprite`. A colour of 0 is transparent. Where both are
/// transparent the backdrop shows; where one is, the other shows; where
/// neither is, the sprite shows unless it stands behind the background.
pub open spec fn palette_index(background: u8, sprite: SpritePixel) -> u8 {
    if sprite.colour != 0 && (background % 4 == 0 || !sprite.behind) {
        (16 + sprite.palette * 4 + sprite.colour) as u8
    } else if background % 4 != 0 {
        background
    } else {
        0
    }
}

/// Chooses between background and sprite.
pub fn mix(background: u8, sprite: SpritePixel) -> (index: u8)
    requires
        background < 16,
        sprite.colour < 4,
        sprite.palette < 4,
    ensures
        index == palette_index(background, sprite),
        index < 32,
{
    if sprite.colour != 0 && (background % 4 == 0 || !sprite.behind) {
        16 + sprite.palette * 4 + sprite.colour
    } else if background % 4 != 0 {
        background
    } else {
        0
    }
}

/// Whether sprite 0 hits the background on a pixel: both are opaque there,
/// and the pixel is not in the last column.
pub open spec fn is_zero_hit(background: u8, sprite: SpritePixel, x: u8) -> bool {
    sprite.zero && sprite.colour != 0 && background % 4 != 0 && x != 255
}

/// Whether a sprite whose top is recorded as `y` has a row on the scanline
/// after `scanline`: sprites are drawn one line below their recorded top.
pub open spec fn covers_next(y: u8, scanline: int, height: int) -> bool {
    y <= scanline && scanline < y + height
}

/// What sprite evaluation finds.
pub struct Evaluation {
    /// The four bytes of each sprite found, in the order of primary OAM.
    pub found: Seq<u8>,
    /// The entry of primary OAM at which the search stopped.
    pub stopped: int,
}

/// The search for the sprites of the next scanline, from entry `n` of
/// primary OAM on with `found` already collected: it takes the sprites that
/// have a row on the next scanline, and stops at the eighth.
pub open spec fn search(oam: Seq<u8>, scanline: int, height: int, n: int, found: Seq<u8>) -> Evaluation
    decreases 64 - n,
{
    if n < 0 || n >= 64 || found.len() >= 32 {
        Evaluation { found, stopped: n }
    } else if covers_next(oam[4 * n], scanline, height) {
        search(oam, scanline, height, n + 1, found + oam.subrange(4 * n, 4 * n + 4))
    } else {
        search(oam, scanline, height, n + 1, found)
    }
}

/// Whether the search for a ninth sprite raises the overflow flag. After
/// eight sprites the hardware goes on from entry `n`, but steps the byte
/// within the entry, `m`, together with the entry: it reads tile numbers,
/// attributes and X positions as if they were tops.
pub open spec fn overflows(oam: Seq<u8>, scanline: int, height: int, n: int, m: int) -> bool
    decreases 64 - n,
{
    if n < 0 || n >= 64 || m < 0 || m >= 4 {
        false
    } else if covers_next(oam[4 * n + m], scanline, height) {
        true
    } else {
        overflows(oam, scanline, height, n + 1, (m + 1) % 4)
    }
}

/// Secondary OAM after evaluation: the sprites found, then `$FF` up to 32
/// bytes.
pub open spec fn secondary_of(found: Seq<u8>) -> Seq<u8> {
    Seq::new(
        32,
        |i: int|
            if i < found.len() {
                found[i]
            } else {
                0xFFu8
            },
    )
}

/// What evaluation yields in registers.
pub struct Evaluated {
    pub secondary: Vec<u8>,
    /// Sprites found, at most 8.
    pub count: u8,
    /// Whether a ninth sprite was seen.
    pub overflow: bool,
    /// Whether sprite 0 is among those found.
    pub zero: bool,
}

/// Finds the sprites of the scanline after `scanline`: up to eight whose
/// rows cover it, in the order of primary OAM.
pub fn evaluate(oam: &Vec<u8>, scanline: u16, tall: bool) -> (out: Evaluated)
    requires
        oam@.len() == 256,
    ensures
        ({
            let height: int = if tall {
                16
            } else {
                8
            };
            let searched = search(oam@, scanline as int, height, 0, Seq::empty());
            &&& out.secondary@ == secondary_of(searched.found)
            &&& out.count * 4 == searched.found.len()
            &&& out.count <= 8
            &&& out.overflow == (searched.found.len() == 32 && overflows(
                oam@,
                scanline as int,
                height,
                searched.stopped,
                0,
            ))
            &&& out.zero == covers_next(oam@[0], scanline as int, height)
        }),
{
    let height: u16 = if tall {
        16
    } else {
        8
    };
    let ghost h = height as int;
    let ghost line = scanline as int;
    let mut secondary: Vec<u8> = vec![0xFFu8; 32];
    let mut count: usize = 0;
    let mut n: usize = 0;
    let mut zero = false;
    let ghost mut found: Seq<u8> = Seq::empty();
    while n < 64 && count < 8
        invariant
            n <= 64,
            count <= 8,
            oam@.len() == 256,
            secondary@.len() == 32,
            found.len() == 4 * count,
            secondary@ == secondary_of(found),
            h == height,
            line == scanline,
            height == 8 || height == 16,
            search(oam@, line, h, 0, Seq::empty()) == search(oam@, line, h, n as int, found),
            zero == (n > 0 && covers_next(oam@[0], line, h)),
            n == 0 ==> count == 0,
        decreases 64 - n,
    {
        let y = oam[4 * n];
        if y as u16 <= scanline && scanline < y as u16 + height {
            secondary[4 * count] = oam[4 * n];
            secondary[4 * count + 1] = oam[4 * n + 1];
            secondary[4 * count + 2] = oam[4 * n + 2];
            secondary[4 * count + 3] = oam[4 * n + 3];
            proof {
                found = found + oam@.subrange(4 * n as int, 4 * n as int + 4);
            }
            if n == 0 {
                zero = true;
            }
            count += 1;
        }
        n += 1;
    }
    let ghost stopped = n as int;
    let mut overflow = false;
    if count == 8 {
        let mut m: usize = 0;
        while n < 64
            invariant_except_break
                !overflow,
                overflows(oam@, line, h, stopped, 0) == overflows(oam@, line, h, n as int, m as int),
            invariant
                n <= 64,
                m < 4,
                oam@.len() == 256,
                h == height,
                line == scanline,
                height == 8 || height == 16,
            ensures
                overflow == overflows(oam@, line, h, stopped, 0),
            decreases 64 - n,
        {
            let y = oam[4 * n + m];
            if y as u16 <= scanline && scanline < y as u16 + height {
                overflow = true;
                break ;
            }
            n += 1;
            m = (m + 1) % 4;
        }
    }
    Evaluated { secondary, count: count as u8, overflow, zero }
}

} // verus!
