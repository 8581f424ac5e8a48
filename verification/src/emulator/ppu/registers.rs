//! The PPU's registers as the CPU sees them through `$2000` to `$2007`, and
//! the internal registers behind them.

use crate::bits::{bit, test_bit};
use crate::emulator::cpu::flags::weight;
use crate::emulator::ppu::scroll::{
    coarse_x, coarse_x_scroll, coarse_y, coarse_y_scroll, compose, fine_y, fine_y_scroll, nametable_x, nametable_y,
    ADDRESS_MAX,
};
use vstd::prelude::*;

verus! {

/// The registers of the PPU.
#[derive(Clone, Copy, Debug, PartialEq, Eq, Structural)]
pub struct Registers {
    /// Control, `$2000`.
    pub ctrl: u8,
    /// Mask, `$2001`.
    pub mask: u8,
    /// Bit 7 of the status, `$2002`: vertical blank has started.
    pub vblank: bool,
    /// Bit 6 of the status: an opaque pixel of sprite 0 met one of the
    /// background.
    pub sprite_zero_hit: bool,
    /// Bit 5 of the status: more than eight sprites on a scanline.
    pub sprite_overflow: bool,
    /// OAM address, `$2003`.
    pub oam_addr: u8,
    /// Current VRAM address, 15 bits.
    pub v: u16,
    /// Temporary VRAM address, 15 bits.
    pub t: u16,
    /// Fine X scroll, 3 bits.
    pub fine_x: u8,
    /// Write toggle: set between the first and the second write to `$2005`
    /// or `$2006`.
    pub w: bool,
    /// What the last load from `$2007` left behind for the next.
    pub read_buffer: u8,
    /// An NMI edge that the CPU has not taken yet.
    pub nmi: bool,
}

/// The 15-bit address made of the five parts.
pub fn make_address(fine_y: u16, nametable_y: u16, nametable_x: u16, coarse_y: u16, coarse_x: u16) -> (v: u16)
    requires
        fine_y < 8,
        nametable_y < 2,
        nametable_x < 2,
        coarse_y < 32,
        coarse_x < 32,
    ensures
        v == compose(fine_y as int, nametable_y as int, nametable_x as int, coarse_y as int, coarse_x as int),
        v <= ADDRESS_MAX,
{
    fine_y * 4096 + nametable_y * 2048 + nametable_x * 1024 + coarse_y * 32 + coarse_x
}

impl Registers {
    /// Whether the address registers and the fine scroll are within their
    /// widths.
    pub open spec fn valid(self) -> bool {
        self.v <= ADDRESS_MAX && self.t <= ADDRESS_MAX && self.fine_x < 8
    }

    /// Whether the start of vertical blank raises an NMI: bit 7 of control.
    pub open spec fn nmi_enabled(self) -> bool {
        bit(self.ctrl, 7)
    }

    /// Height of a sprite in pixels: 16 if bit 5 of control is set, else 8.
    pub open spec fn sprite_height(self) -> int {
        if bit(self.ctrl, 5) {
            16
        } else {
            8
        }
    }

    /// Where the background's patterns start: bit 4 of control.
    pub open spec fn background_table(self) -> u16 {
        if bit(self.ctrl, 4) {
            0x1000
        } else {
            0
        }
    }

    /// Where the patterns of 8 by 8 sprites start: bit 3 of control.
    pub open spec fn sprite_table(self) -> u16 {
        if bit(self.ctrl, 3) {
            0x1000
        } else {
            0
        }
    }

    /// By how much an access through `$2007` moves the address: 32 if bit 2
    /// of control is set, else 1.
    pub open spec fn increment(self) -> int {
        if bit(self.ctrl, 2) {
            32
        } else {
            1
        }
    }

    /// Whether the background is drawn: bit 3 of mask.
    pub open spec fn show_background(self) -> bool {
        bit(self.mask, 3)
    }

    /// Whether sprites are drawn: bit 4 of mask.
    pub open spec fn show_sprites(self) -> bool {
        bit(self.mask, 4)
    }

    /// Whether the background is drawn in the leftmost eight pixels: bit 1
    /// of mask.
    pub open spec fn show_left_background(self) -> bool {
        bit(self.mask, 1)
    }

    /// Whether sprites are drawn in the leftmost eight pixels: bit 2 of
    /// mask.
    pub open spec fn show_left_sprites(self) -> bool {
        bit(self.mask, 2)
    }

    /// Whether rendering is enabled: background or sprites are drawn.
    pub open spec fn rendering(self) -> bool {
        self.show_background() || self.show_sprites()
    }

    /// The three status flags in bits 7, 6 and 5.
    pub open spec fn status(self) -> u8 {
        (128 * weight(self.vblank) + 64 * weight(self.sprite_zero_hit) + 32 * weight(self.sprite_overflow)) as u8
    }

    /// After a store to `$2000`: the two low bits select the nametable in `t`.
    pub open spec fn with_ctrl(self, byte: u8) -> Registers {
        Registers {
            ctrl: byte,
            t: compose(
                fine_y(self.t),
                (byte as int / 2) % 2,
                byte as int % 2,
                coarse_y(self.t),
                coarse_x(self.t),
            ),
            ..self
        }
    }

    /// After a load from `$2002`, and the byte it yields: the load clears
    /// the vblank flag and the write toggle, and with the flag an NMI that
    /// the CPU has not taken yet.
    pub open spec fn read_status(self) -> (Registers, u8) {
        (Registers { vblank: false, w: false, nmi: false, ..self }, self.status())
    }

    /// After a store to `$2005`. The first of a pair sets fine X and coarse
    /// X, the second fine Y and coarse Y.
    pub open spec fn with_scroll(self, byte: u8) -> Registers {
        if !self.w {
            Registers {
                t: compose(
                    fine_y(self.t),
                    nametable_y(self.t),
                    nametable_x(self.t),
                    coarse_y(self.t),
                    byte as int / 8,
                ),
                fine_x: byte % 8,
                w: true,
                ..self
            }
        } else {
            Registers {
                t: compose(
                    byte as int % 8,
                    nametable_y(self.t),
                    nametable_x(self.t),
                    byte as int / 8,
                    coarse_x(self.t),
                ),
                w: false,
                ..self
            }
        }
    }

    /// After a store to `$2006`. The first of a pair sets bits 8 to 13 of `t`
    /// and clears bit 14; the second sets the low eight bits and copies `t`
    /// to `v`.
    pub open spec fn with_address(self, byte: u8) -> Registers {
        if !self.w {
            Registers { t: ((byte % 64) * 256 + self.t % 256) as u16, w: true, ..self }
        } else {
            let t = ((self.t / 256) * 256 + byte) as u16;
            Registers { t, v: t, w: false, ..self }
        }
    }

    /// After an access through `$2007`: the address moves on by the
    /// increment and wraps at 15 bits.
    pub open spec fn advanced(self) -> Registers {
        Registers { v: ((self.v + self.increment()) % 0x8000) as u16, ..self }
    }

    /// The registers at power-on: all zero.
    pub open spec fn initial() -> Registers {
        Registers {
            ctrl: 0,
            mask: 0,
            vblank: false,
            sprite_zero_hit: false,
            sprite_overflow: false,
            oam_addr: 0,
            v: 0,
            t: 0,
            fine_x: 0,
            w: false,
            read_buffer: 0,
            nmi: false,
        }
    }

    /// The registers at power-on.
    pub fn new() -> (registers: Registers)
        ensures
            registers == Registers::initial(),
    {
        Registers {
            ctrl: 0,
            mask: 0,
            vblank: false,
            sprite_zero_hit: false,
            sprite_overflow: false,
            oam_addr: 0,
            v: 0,
            t: 0,
            fine_x: 0,
            w: false,
            read_buffer: 0,
            nmi: false,
        }
    }

    pub fn is_nmi_enabled(&self) -> (enabled: bool)
        ensures
            enabled == self.nmi_enabled(),
    {
        test_bit(self.ctrl, 7)
    }

    pub fn tall_sprites(&self) -> (tall: bool)
        ensures
            tall == (self.sprite_height() == 16),
    {
        test_bit(self.ctrl, 5)
    }

    pub fn background_pattern_table(&self) -> (base: u16)
        ensures
            base == self.background_table(),
    {
        if test_bit(self.ctrl, 4) {
            0x1000
        } else {
            0
        }
    }

    pub fn sprite_pattern_table(&self) -> (base: u16)
        ensures
            base == self.sprite_table(),
    {
        if test_bit(self.ctrl, 3) {
            0x1000
        } else {
            0
        }
    }

    pub fn address_increment(&self) -> (step: u16)
        ensures
            step == self.increment(),
    {
        if test_bit(self.ctrl, 2) {
            32
        } else {
            1
        }
    }

    pub fn shows_background(&self) -> (shown: bool)
        ensures
            shown == self.show_background(),
    {
        test_bit(self.mask, 3)
    }

    pub fn shows_sprites(&self) -> (shown: bool)
        ensures
            shown == self.show_sprites(),
    {
        test_bit(self.mask, 4)
    }

    pub fn shows_left_background(&self) -> (shown: bool)
        ensures
            shown == self.show_left_background(),
    {
        test_bit(self.mask, 1)
    }

    pub fn shows_left_sprites(&self) -> (shown: bool)
        ensures
            shown == self.show_left_sprites(),
    {
        test_bit(self.mask, 2)
    }

    pub fn rendering_is_enabled(&self) -> (enabled: bool)
        ensures
            enabled == self.rendering(),
    {
        self.shows_background() || self.shows_sprites()
    }

    pub fn status_byte(&self) -> (byte: u8)
        ensures
            byte == self.status(),
    {
        let mut byte: u8 = 0;
        if self.vblank {
            byte += 128;
        }
        if self.sprite_zero_hit {
            byte += 64;
        }
        if self.sprite_overflow {
            byte += 32;
        }
        byte
    }

    pub fn write_ctrl(&mut self, byte: u8)
        requires
            old(self).valid(),
        ensures
            *final(self) == old(self).with_ctrl(byte),
            final(self).valid(),
    {
        self.ctrl = byte;
        self.t = make_address(
            fine_y_scroll(self.t),
            ((byte / 2) % 2) as u16,
            (byte % 2) as u16,
            coarse_y_scroll(self.t),
            coarse_x_scroll(self.t),
        );
    }

    pub fn take_status(&mut self) -> (byte: u8)
        ensures
            (*final(self), byte) == old(self).read_status(),
            old(self).valid() ==> final(self).valid(),
    {
        let byte = self.status_byte();
        self.vblank = false;
        self.w = false;
        self.nmi = false;
        byte
    }

    pub fn write_scroll(&mut self, byte: u8)
        requires
            old(self).valid(),
        ensures
            *final(self) == old(self).with_scroll(byte),
            final(self).valid(),
    {
        if !self.w {
            self.t = make_address(
                fine_y_scroll(self.t),
                (self.t / 2048) % 2,
                (self.t / 1024) % 2,
                coarse_y_scroll(self.t),
                (byte / 8) as u16,
            );
            self.fine_x = byte % 8;
            self.w = true;
        } else {
            self.t = make_address(
                (byte % 8) as u16,
                (self.t / 2048) % 2,
                (self.t / 1024) % 2,
                (byte / 8) as u16,
                coarse_x_scroll(self.t),
            );
            self.w = false;
        }
    }

    pub fn write_address(&mut self, byte: u8)
        requires
            old(self).valid(),
        ensures
            *final(self) == old(self).with_address(byte),
            final(self).valid(),
    {
        if !self.w {
            self.t = ((byte % 64) as u16) * 256 + self.t % 256;
            self.w = true;
        } else {
            self.t = (self.t / 256) * 256 + byte as u16;
            self.v = self.t;
            self.w = false;
        }
    }

    pub fn advance(&mut self)
        requires
            old(self).valid(),
        ensures
            *final(self) == old(self).advanced(),
            final(self).valid(),
    {
        self.v = (self.v + self.address_increment()) % 0x8000;
    }
}

/// The documented bit forms of the register writes: what a store to
/// `$2000`, `$2005` or `$2006` does to `t`, in shifts and masks.
pub proof fn lemma_register_bit_forms(registers: Registers, byte: u8)
    requires
        registers.valid(),
    ensures
        registers.with_ctrl(byte).t == (registers.t & 0x73FF) | (((byte & 0x03) as u16) << 10),
        !registers.w ==> registers.with_scroll(byte).t == (registers.t & 0x7FE0) | ((byte >> 3) as u16),
        !registers.w ==> registers.with_scroll(byte).fine_x == byte & 0x07,
        registers.w ==> registers.with_scroll(byte).t == (registers.t & 0x0C1F) | (((byte & 0x07) as u16) << 12)
            | (((byte >> 3) as u16) << 5),
        !registers.w ==> registers.with_address(byte).t == (registers.t & 0x00FF) | (((byte & 0x3F) as u16)
            << 8),
        registers.w ==> registers.with_address(byte).t == (registers.t & 0x7F00) | (byte as u16),
{
    let t = registers.t;
    assert(t <= 0x7FFF ==> ((t & 0x73FF) | (((byte & 0x03) as u16) << 10)) == ((t / 4096) % 8) * 4096 + ((byte
        / 2) % 2) * 2048 + (byte % 2) * 1024 + ((t / 32) % 32) * 32 + t % 32) by (bit_vector);
    assert(t <= 0x7FFF ==> ((t & 0x7FE0) | ((byte >> 3) as u16)) == ((t / 4096) % 8) * 4096 + ((t / 2048) % 2)
        * 2048 + ((t / 1024) % 2) * 1024 + ((t / 32) % 32) * 32 + byte / 8) by (bit_vector);
    assert(byte % 8 == byte & 0x07) by (bit_vector);
    assert(t <= 0x7FFF ==> ((t & 0x0C1F) | (((byte & 0x07) as u16) << 12) | (((byte >> 3) as u16) << 5)) == (
    byte % 8) * 4096 + ((t / 2048) % 2) * 2048 + ((t / 1024) % 2) * 1024 + (byte / 8) * 32 + t % 32)
        by (bit_vector);
    assert(((t & 0x00FF) | (((byte & 0x3F) as u16) << 8)) == (byte % 64) * 256 + t % 256) by (bit_vector);
    assert(t <= 0x7FFF ==> ((t & 0x7F00) | (byte as u16)) == (t / 256) * 256 + byte) by (bit_vector);
}

} // verus!
