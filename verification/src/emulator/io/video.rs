//! A video output that keeps the picture in memory.

use crate::emulator::ppu::{Pixel, VideoOut};
use vstd::prelude::*;

verus! {

/// Pixels in a line of the picture.
pub const WIDTH: usize = 256;

/// Lines in the picture.
pub const HEIGHT: usize = 240;

/// Pixels in the picture.
pub const PICTURE_SIZE: usize = 61440;

/// A sink that assembles the pixels it is given into pictures of 256 by
/// 240, line by line from the top left. Once a picture is full the next
/// pixel starts over at the top left.
pub struct SimpleVideoOut {
    pixels: Vec<Pixel>,
    cursor: usize,
    count: u64,
    history: Ghost<Seq<Pixel>>,
}

impl SimpleVideoOut {
    #[verifier::type_invariant]
    spec fn well_formed(self) -> bool {
        self.pixels@.len() == PICTURE_SIZE && self.cursor < PICTURE_SIZE
    }

    /// The picture as it stands: line by line from the top left.
    pub closed spec fn picture(self) -> Seq<Pixel> {
        self.pixels@
    }

    /// The place in the picture where the next pixel goes.
    pub closed spec fn place(self) -> int {
        self.cursor as int
    }

    /// How many pixels the sink was given, wrapping at 64 bits.
    pub closed spec fn counted(self) -> u64 {
        self.count
    }

    /// A black picture, with the next pixel due at the top left.
    pub fn new() -> (out: SimpleVideoOut)
        ensures
            out.emitted() == Seq::<Pixel>::empty(),
            out.picture() == Seq::new(61440, |i: int| Pixel { r: 0, g: 0, b: 0 }),
            out.place() == 0,
            out.counted() == 0,
    {
        let pixels: Vec<Pixel> = vec![Pixel { r: 0, g: 0, b: 0 }; PICTURE_SIZE];
        SimpleVideoOut { pixels, cursor: 0, count: 0, history: Ghost(Seq::empty()) }
    }

    /// The pixel at column `x` of line `y`.
    pub fn pixel(&self, x: usize, y: usize) -> (pixel: Pixel)
        requires
            x < WIDTH,
            y < HEIGHT,
        ensures
            pixel == self.picture()[y * 256 + x],
    {
        proof {
            use_type_invariant(self);
        }
        self.pixels[y * 256 + x]
    }

    /// How many pixels the sink was given, wrapping at 64 bits.
    pub fn count(&self) -> (count: u64)
        ensures
            count == self.counted(),
    {
        self.count
    }

    /// The place in the picture where the next pixel goes, counting line by
    /// line from the top left.
    pub fn cursor(&self) -> (cursor: usize)
        ensures
            cursor == self.place(),
            cursor < PICTURE_SIZE,
            self.picture().len() == PICTURE_SIZE,
    {
        proof {
            use_type_invariant(self);
        }
        self.cursor
    }
}

impl VideoOut for SimpleVideoOut {
    closed spec fn emitted(&self) -> Seq<Pixel> {
        self.history@
    }

    /// The pixel goes to the next place of the picture, and the place moves
    /// on, from the last back to the first.
    fn emit(&mut self, p: Pixel)
        ensures
            final(self).picture() == old(self).picture().update(old(self).place(), p),
            final(self).place() == (old(self).place() + 1) % 61440,
            final(self).counted() == old(self).counted().wrapping_add(1),
    {
        proof {
            use_type_invariant(&*self);
        }
        let at = self.cursor;
        self.pixels[at] = p;
        self.cursor = if at + 1 == PICTURE_SIZE {
            0
        } else {
            at + 1
        };
        self.count = self.count.wrapping_add(1);
        self.history = Ghost(self.history@.push(p));
    }
}

} // verus!
