//! The picture processing unit: a state machine that runs through 262
//! scanlines of 341 dots each, fetching tiles and sprites from its own
//! memory and emitting one pixel for each dot of the visible picture.

use crate::bits::{bit, test_bit};
use crate::emulator::memory::{ReadWriter, Reader, Writer};
use crate::emulator::ppu::palette::{colour, colour_of};
use crate::emulator::ppu::registers::Registers;
use crate::emulator::ppu::render::{
    covers_next, evaluate, is_zero_hit, mix, no_sprite, overflows, palette_index, quadrant_palette, search,
    secondary_of, select_palette, select_sprite, sprite_pixel, Background, SpritePixel, SpriteUnit,
};
use crate::emulator::ppu::scroll::{
    attribute_address, attribute_address_of, coarse_x, coarse_x_scroll, coarse_y, coarse_y_scroll, copy_horizontal,
    copy_vertical, fine_y, fine_y_scroll, increment_coarse_x, increment_y, next_coarse_x, next_y, tile_address,
    tile_address_of, with_horizontal, with_vertical,
};
use vstd::prelude::*;

pub mod frame;
pub mod palette;
pub mod registers;
pub mod render;
pub mod scroll;
pub mod vram;

verus! {

/// The last scanline of a frame, the pre-render line.
pub const LAST_SCANLINE: u16 = 261;

/// The last dot of a scanline.
pub const LAST_DOT: u16 = 340;

/// Scanlines of the visible picture.
pub const VISIBLE_SCANLINES: u16 = 240;

/// Dots of a visible scanline that carry a pixel.
pub const VISIBLE_DOTS: u16 = 256;

/// The scanline on which vertical blank starts.
pub const VBLANK_SCANLINE: u16 = 241;

/// One pixel of the picture.
#[derive(Clone, Copy, Debug, PartialEq, Eq, Structural)]
pub struct Pixel {
    pub r: u8,
    pub g: u8,
    pub b: u8,
}

/// Where the PPU sends the picture, one pixel at a time in raster order.
pub trait VideoOut {
    /// Every pixel the sink was given, oldest first.
    spec fn emitted(&self) -> Seq<Pixel>;

    fn emit(&mut self, p: Pixel)
        ensures
            final(self).emitted() == old(self).emitted().push(p),
    ;
}

/// Where in the frame the PPU is.
#[derive(Clone, Copy, Debug, PartialEq, Eq, Structural)]
pub struct Position {
    /// 0 to 239 are visible, 240 is idle, 241 to 260 are vertical blank, 261
    /// is the pre-render line.
    pub scanline: u16,
    /// The dot within the scanline, 0 to 340. Dot 0 is idle.
    pub cycle: u16,
    /// Whether the frame is an odd one, counting from 0.
    pub odd_frame: bool,
}

impl Position {
    /// Whether the scanline and the dot are within the frame.
    pub open spec fn valid(self) -> bool {
        self.scanline <= LAST_SCANLINE && self.cycle <= LAST_DOT
    }

    /// Whether the dot carries a pixel of the picture.
    pub open spec fn visible(self) -> bool {
        self.scanline < VISIBLE_SCANLINES && 1 <= self.cycle <= VISIBLE_DOTS
    }

    /// The position one dot later. After the last dot of the pre-render line
    /// a new frame starts, of the other parity; an odd frame skips its
    /// first, idle dot while rendering is enabled.
    pub open spec fn next(self, rendering: bool) -> Position {
        if self.cycle < LAST_DOT {
            Position { cycle: (self.cycle + 1) as u16, ..self }
        } else if self.scanline < LAST_SCANLINE {
            Position { scanline: (self.scanline + 1) as u16, cycle: 0, ..self }
        } else {
            Position {
                scanline: 0,
                cycle: if !self.odd_frame && rendering {
                    1
                } else {
                    0
                },
                odd_frame: !self.odd_frame,
            }
        }
    }

    /// Moves on by one dot.
    pub fn advance(&mut self, rendering: bool)
        requires
            old(self).valid(),
        ensures
            *final(self) == old(self).next(rendering),
            final(self).valid(),
    {
        if self.cycle < LAST_DOT {
            self.cycle = self.cycle + 1;
        } else if self.scanline < LAST_SCANLINE {
            self.scanline = self.scanline + 1;
            self.cycle = 0;
        } else {
            self.scanline = 0;
            self.cycle = if !self.odd_frame && rendering {
                1
            } else {
                0
            };
            self.odd_frame = !self.odd_frame;
        }
    }
}

/// What the PPU holds besides its memory.
pub struct Core {
    pub(crate) regs: Registers,
    pub(crate) bg: Background,
    pub(crate) pos: Position,
    /// The eight sprite units, loaded for the scanline being drawn.
    pub(crate) units: Vec<SpriteUnit>,
    /// Sprite memory: four bytes for each of 64 sprites.
    pub(crate) oam: Vec<u8>,
    /// The sprites found for the next scanline.
    pub(crate) secondary_oam: Vec<u8>,
    /// How many sprites secondary OAM holds.
    pub(crate) secondary_count: u8,
    /// Whether the first sprite in secondary OAM is sprite 0.
    pub(crate) secondary_zero: bool,
}

/// The model of what the PPU holds besides its memory.
pub struct CoreState {
    pub regs: Registers,
    pub bg: Background,
    pub pos: Position,
    pub units: Seq<SpriteUnit>,
    pub oam: Seq<u8>,
    pub secondary_oam: Seq<u8>,
    pub secondary_count: u8,
    pub secondary_zero: bool,
}

impl View for Core {
    type V = CoreState;

    closed spec fn view(&self) -> CoreState {
        CoreState {
            regs: self.regs,
            bg: self.bg,
            pos: self.pos,
            units: self.units@,
            oam: self.oam@,
            secondary_oam: self.secondary_oam@,
            secondary_count: self.secondary_count,
            secondary_zero: self.secondary_zero,
        }
    }
}

/// The PPU, wired to its memory.
///
/// The memory is laid out like so: `$0000-$1FFF` pattern tables,
/// `$2000-$2FFF` nametables, `$3000-$3EFF` their mirror, `$3F00-$3FFF`
/// palette RAM.
pub struct PPU<M> {
    pub(crate) core: Core,
    pub(crate) memory: M,
}

/// The model of a PPU.
pub struct PpuState<M: View> {
    pub core: CoreState,
    pub memory: M::V,
}

impl<M: View> View for PPU<M> {
    type V = PpuState<M>;

    closed spec fn view(&self) -> PpuState<M> {
        PpuState { core: self.core@, memory: self.memory@ }
    }
}

/// A byte with its bits in reverse order.
pub open spec fn reversed(byte: u8) -> u8 {
    (128 * (byte % 2) + 64 * ((byte / 2) % 2) + 32 * ((byte / 4) % 2) + 16 * ((byte / 8) % 2) + 8 * ((byte
        / 16) % 2) + 4 * ((byte / 32) % 2) + 2 * ((byte / 64) % 2) + (byte / 128) % 2) as u8
}

/// Reverses the bits of a byte.
pub fn reverse(byte: u8) -> (mirrored: u8)
    ensures
        mirrored == reversed(byte),
{
    128 * (byte % 2) + 64 * ((byte / 2) % 2) + 32 * ((byte / 4) % 2) + 16 * ((byte / 8) % 2) + 8 * ((byte / 16)
        % 2) + 4 * ((byte / 32) % 2) + 2 * ((byte / 64) % 2) + (byte / 128) % 2
}

/// Where the low plane of a sprite's row is read from. `row` counts from the
/// sprite's top; a sprite flipped vertically is read from the bottom up.
/// Sprites of 8 rows take their patterns from the table that control bit 3
/// selects. Sprites of 16 rows take them from the table that bit 0 of the
/// tile number selects, the upper half from the even tile and the lower
/// half from the odd one after it.
pub open spec fn sprite_row_address(regs: Registers, tile: u8, attributes: u8, row: int) -> u16 {
    let height = regs.sprite_height();
    let line = if bit(attributes, 7) {
        height - 1 - row
    } else {
        row
    };
    if height == 8 {
        (regs.sprite_table() + tile * 16 + line) as u16
    } else {
        ((tile % 2) * 0x1000 + (tile - tile % 2 + line / 8) * 16 + line % 8) as u16
    }
}

/// Where the low plane of a background tile's row is read from.
pub open spec fn tile_row_address(regs: Registers, tile: u8) -> u16 {
    (regs.background_table() + tile * 16 + fine_y(regs.v)) as u16
}

impl CoreState {
    /// Whether the state is one that a PPU can be in: the position within
    /// the frame, the registers within their widths, the memories of their
    /// sizes.
    pub open spec fn valid(self) -> bool {
        &&& self.regs.valid()
        &&& self.pos.valid()
        &&& self.units.len() == 8
        &&& self.oam.len() == 256
        &&& self.secondary_oam.len() == 32
        &&& self.secondary_count <= 8
    }

    /// The state at power-on.
    pub open spec fn initial() -> CoreState {
        CoreState {
            regs: Registers::initial(),
            bg: Background::empty(),
            pos: Position { scanline: 0, cycle: 0, odd_frame: false },
            units: Seq::new(8, |i: int| SpriteUnit::idle()),
            oam: Seq::new(256, |i: int| 0u8),
            secondary_oam: Seq::new(32, |i: int| 0xFFu8),
            secondary_count: 0,
            secondary_zero: false,
        }
    }

    /// Column of the screen that the dot stands for.
    pub open spec fn column(self) -> u8 {
        (self.pos.cycle - 1) as u8
    }

    /// What the background puts on the pixel of this dot: nothing where it
    /// is switched off, or switched off for the eight columns on the left.
    pub open spec fn background_pixel(self) -> u8 {
        if self.regs.show_background() && (self.column() >= 8 || self.regs.show_left_background()) {
            self.bg.pixel(self.regs.fine_x)
        } else {
            0
        }
    }

    /// What the sprites put on the pixel of this dot.
    pub open spec fn sprite_pixel(self) -> SpritePixel {
        if self.regs.show_sprites() && (self.column() >= 8 || self.regs.show_left_sprites()) {
            sprite_pixel(self.units, self.column())
        } else {
            no_sprite()
        }
    }

    /// The entry of palette RAM that colours the pixel of this dot.
    pub open spec fn pixel_index(self) -> u8 {
        palette_index(self.background_pixel(), self.sprite_pixel())
    }

    /// After the pixel of this dot was composed: the sprite 0 flag is
    /// raised where sprite 0 hits the background.
    pub open spec fn after_pixel(self) -> CoreState {
        CoreState {
            regs: Registers {
                sprite_zero_hit: self.regs.sprite_zero_hit || is_zero_hit(
                    self.background_pixel(),
                    self.sprite_pixel(),
                    self.column(),
                ),
                ..self.regs
            },
            ..self
        }
    }

    /// Whether the background is fetched on this dot: dots 1 to 256 and 321
    /// to 336.
    pub open spec fn fetching(self) -> bool {
        (1 <= self.pos.cycle <= 256) || (321 <= self.pos.cycle <= 336)
    }

    /// The scrolling that rendering does on this dot of a render line:
    /// from dot 328 of one line to dot 256 of the next, coarse X moves on
    /// at every eighth dot; at dot 256 Y moves on; at dot 257 the
    /// horizontal bits of `t` go to `v`; and on dots 280 to 304 of the
    /// pre-render line the vertical bits do.
    pub open spec fn scrolled(self) -> CoreState {
        let dot = self.pos.cycle;
        let v0 = self.regs.v;
        let v1 = if dot == 256 {
            next_y(v0)
        } else {
            v0
        };
        let v2 = if dot == 257 {
            with_horizontal(v1, self.regs.t)
        } else {
            v1
        };
        let v3 = if self.pos.scanline == LAST_SCANLINE && 280 <= dot <= 304 {
            with_vertical(v2, self.regs.t)
        } else {
            v2
        };
        let v4 = if ((0 < dot <= 256) || dot >= 328) && dot % 8 == 0 {
            next_coarse_x(v3)
        } else {
            v3
        };
        CoreState { regs: Registers { v: v4, ..self.regs }, ..self }
    }

    /// A dot of vertical blank. At dot 1 of scanline 241 the vblank flag is
    /// set, and an NMI is latched for the CPU if control bit 7 enables it.
    pub open spec fn tick_vblank(self) -> CoreState {
        if self.pos.scanline == VBLANK_SCANLINE && self.pos.cycle == 1 {
            CoreState {
                regs: Registers { vblank: true, nmi: self.regs.nmi || self.regs.nmi_enabled(), ..self.regs },
                ..self
            }
        } else {
            self
        }
    }

    /// At dot 1 of the pre-render line the three status flags are cleared.
    pub open spec fn cleared(self) -> CoreState {
        if self.pos.scanline == LAST_SCANLINE && self.pos.cycle == 1 {
            CoreState {
                regs: Registers {
                    vblank: false,
                    sprite_zero_hit: false,
                    sprite_overflow: false,
                    ..self.regs
                },
                ..self
            }
        } else {
            self
        }
    }

    /// Sprite evaluation on a visible scanline with rendering enabled. At
    /// dot 1 secondary OAM is cleared to `$FF`. At dot 65 the sprites of the
    /// next scanline are searched in primary OAM, up to eight of them, and
    /// the overflow flag is raised if the search for a ninth, as the
    /// hardware makes it, finds one.
    pub open spec fn evaluated(self) -> CoreState {
        if self.pos.cycle == 1 {
            CoreState {
                secondary_oam: Seq::new(32, |i: int| 0xFFu8),
                secondary_count: 0,
                secondary_zero: false,
                ..self
            }
        } else if self.pos.cycle == 65 {
            let searched = search(
                self.oam,
                self.pos.scanline as int,
                self.regs.sprite_height(),
                0,
                Seq::empty(),
            );
            CoreState {
                secondary_oam: secondary_of(searched.found),
                secondary_count: (searched.found.len() / 4) as u8,
                secondary_zero: covers_next(self.oam[0], self.pos.scanline as int, self.regs.sprite_height()),
                regs: Registers {
                    sprite_overflow: self.regs.sprite_overflow || (searched.found.len() == 32 && overflows(
                        self.oam,
                        self.pos.scanline as int,
                        self.regs.sprite_height(),
                        searched.stopped,
                        0,
                    )),
                    ..self.regs
                },
                ..self
            }
        } else {
            self
        }
    }
}

impl<M: View> PpuState<M> {
    /// Whether the state is one that a PPU can be in.
    pub open spec fn valid(self) -> bool {
        self.core.valid()
    }
}

impl<M: ReadWriter> PpuState<M> {
    /// Loads a byte from the PPU's memory.
    pub open spec fn load(self, address: u16) -> (Self, u8) {
        let (memory, byte) = M::read_spec(self.memory, address);
        (PpuState { memory, ..self }, byte)
    }

    /// Stores a byte in the PPU's memory.
    pub open spec fn store(self, address: u16, byte: u8) -> Self {
        PpuState { memory: M::write_spec(self.memory, address, byte), ..self }
    }

    /// The state with other registers.
    pub open spec fn with_regs(self, regs: Registers) -> Self {
        PpuState { core: CoreState { regs, ..self.core }, ..self }
    }

    /// A load from `$2007`, and the byte it yields. Below the palette the
    /// load yields what the load before left in the buffer, and fills the
    /// buffer from the address. Within the palette, from `$3F00` on, it
    /// yields the palette entry at once, and fills the buffer from the
    /// nametable that lies under the palette. Either way the address then
    /// moves on.
    pub open spec fn read_data(self) -> (Self, u8) {
        let address = self.core.regs.v % 0x4000;
        if address < 0x3F00 {
            let (state, byte) = self.load(address);
            (
                state.with_regs(Registers { read_buffer: byte, ..state.core.regs }.advanced()),
                self.core.regs.read_buffer,
            )
        } else {
            let (state, byte) = self.load(address);
            let (state, under) = state.load((address - 0x1000) as u16);
            (state.with_regs(Registers { read_buffer: under, ..state.core.regs }.advanced()), byte)
        }
    }

    /// A store to `$2007`: the byte goes to memory at `v`, which then moves
    /// on.
    pub open spec fn write_data(self, byte: u8) -> Self {
        let state = self.store(self.core.regs.v % 0x4000, byte);
        state.with_regs(state.core.regs.advanced())
    }

    /// A load by the CPU from one of the eight ports, which repeat through
    /// `$2000-$3FFF`: port 2 is the status, port 4 the byte of sprite memory
    /// at the OAM address, port 7 the data port. The other ports cannot be
    /// read and yield 0.
    pub open spec fn read_port(self, address: u16) -> (Self, u8) {
        let port = address % 8;
        if port == 2 {
            let (regs, byte) = self.core.regs.read_status();
            (self.with_regs(regs), byte)
        } else if port == 4 {
            (self, self.core.oam[self.core.regs.oam_addr as int])
        } else if port == 7 {
            self.read_data()
        } else {
            (self, 0u8)
        }
    }

    /// A store by the CPU to one of the eight ports: control, mask, (status,
    /// which ignores stores,) OAM address, OAM data, scroll, address, data.
    /// A store to OAM data moves the OAM address on by one.
    pub open spec fn write_port(self, address: u16, byte: u8) -> Self {
        let port = address % 8;
        if port == 0 {
            self.with_regs(self.core.regs.with_ctrl(byte))
        } else if port == 1 {
            self.with_regs(Registers { mask: byte, ..self.core.regs })
        } else if port == 3 {
            self.with_regs(Registers { oam_addr: byte, ..self.core.regs })
        } else if port == 4 {
            PpuState {
                core: CoreState {
                    oam: self.core.oam.update(self.core.regs.oam_addr as int, byte),
                    regs: Registers {
                        oam_addr: ((self.core.regs.oam_addr + 1) % 256) as u8,
                        ..self.core.regs
                    },
                    ..self.core
                },
                ..self
            }
        } else if port == 5 {
            self.with_regs(self.core.regs.with_scroll(byte))
        } else if port == 6 {
            self.with_regs(self.core.regs.with_address(byte))
        } else if port == 7 {
            self.write_data(byte)
        } else {
            self
        }
    }

    /// The CPU takes the NMI: whether an edge was latched, and the state
    /// with the latch cleared.
    pub open spec fn take_nmi(self) -> (Self, bool) {
        (self.with_regs(Registers { nmi: false, ..self.core.regs }), self.core.regs.nmi)
    }

    /// The pixel of this dot, which must be a visible one: its entry of
    /// palette RAM, at `$3F00` plus the index, is loaded and looked up in
    /// the table of colours.
    pub open spec fn draw(self) -> (Self, Pixel) {
        let index = self.core.pixel_index();
        let state = PpuState { core: self.core.after_pixel(), ..self };
        let (state, value) = state.load((0x3F00 + index) as u16);
        (state, colour_of(value))
    }

    /// The background's part of a dot on which it is fetched: the
    /// registers shift; then, by the dot's place in its group of eight, the
    /// tile index is loaded at dot 1, the attribute byte at dot 3, the low
    /// plane of the tile's row at dot 5 and the high plane at dot 7; and at
    /// the end of dot 8 the registers reload, which makes the new tile the
    /// next from dot 9 on.
    pub open spec fn fetch_background(self) -> Self {
        let bg = self.core.bg.shifted();
        let regs = self.core.regs;
        let phase = (self.core.pos.cycle - 1) % 8;
        if phase == 0 {
            let (state, byte) = self.load(tile_address_of(regs.v));
            PpuState { core: CoreState { bg: Background { next_tile: byte, ..bg }, ..state.core }, ..state }
        } else if phase == 2 {
            let (state, byte) = self.load(attribute_address_of(regs.v));
            PpuState {
                core: CoreState {
                    bg: Background {
                        next_palette: quadrant_palette(byte, coarse_x(regs.v), coarse_y(regs.v)),
                        ..bg
                    },
                    ..state.core
                },
                ..state
            }
        } else if phase == 4 {
            let (state, byte) = self.load(tile_row_address(regs, bg.next_tile));
            PpuState { core: CoreState { bg: Background { next_lo: byte, ..bg }, ..state.core }, ..state }
        } else if phase == 6 {
            let (state, byte) = self.load((tile_row_address(regs, bg.next_tile) + 8) as u16);
            PpuState { core: CoreState { bg: Background { next_hi: byte, ..bg }, ..state.core }, ..state }
        } else if phase == 7 {
            PpuState { core: CoreState { bg: bg.reloaded(), ..self.core }, ..self }
        } else {
            PpuState { core: CoreState { bg, ..self.core }, ..self }
        }
    }

    /// Sprite unit `i` loaded from entry `i` of secondary OAM, and the
    /// memory after the two loads of its planes. A sprite flipped
    /// horizontally has its planes reversed. An entry beyond those that
    /// evaluation found leaves the unit idle and the memory alone.
    pub open spec fn load_unit(self, i: int) -> (Self, SpriteUnit) {
        if i < self.core.secondary_count {
            let y = self.core.secondary_oam[4 * i];
            let tile = self.core.secondary_oam[4 * i + 1];
            let attributes = self.core.secondary_oam[4 * i + 2];
            let x = self.core.secondary_oam[4 * i + 3];
            let row = (self.core.pos.scanline + 256 - y) % self.core.regs.sprite_height();
            let address = sprite_row_address(self.core.regs, tile, attributes, row);
            let (state, lo) = self.load(address);
            let (state, hi) = state.load((address + 8) as u16);
            let flip = bit(attributes, 6);
            (
                state,
                SpriteUnit {
                    pattern_lo: if flip {
                        reversed(lo)
                    } else {
                        lo
                    },
                    pattern_hi: if flip {
                        reversed(hi)
                    } else {
                        hi
                    },
                    attributes,
                    x,
                    zero: i == 0 && self.core.secondary_zero,
                },
            )
        } else {
            (self, SpriteUnit::idle())
        }
    }

    /// The sprite units from `i` on loaded from secondary OAM.
    pub open spec fn load_units(self, i: int) -> Self
        decreases 8 - i,
    {
        if i < 0 || i >= 8 {
            self
        } else {
            let (state, unit) = self.load_unit(i);
            (PpuState { core: CoreState { units: state.core.units.update(i, unit), ..state.core }, ..state })
                .load_units(i + 1)
        }
    }

    /// The sprites' part of a dot of a render line with rendering enabled.
    /// On a visible line, evaluation runs at dots 1 and 65, and at dot 257
    /// the units are loaded with what it found. On the pre-render line the
    /// units are left idle at dot 257, since nothing was evaluated for
    /// scanline 0.
    pub open spec fn tick_sprites(self) -> Self {
        if self.core.pos.scanline < VISIBLE_SCANLINES {
            if self.core.pos.cycle == 257 {
                self.load_units(0)
            } else {
                PpuState { core: self.core.evaluated(), ..self }
            }
        } else if self.core.pos.cycle == 257 {
            PpuState {
                core: CoreState { units: Seq::new(8, |i: int| SpriteUnit::idle()), ..self.core },
                ..self
            }
        } else {
            self
        }
    }

    /// A dot of a render line, visible or pre-render, and the pixel it
    /// yields if it is a visible dot. The status flags are cleared where
    /// that is due. A visible dot yields its pixel, whether rendering is
    /// enabled or not. While rendering is enabled the background is
    /// fetched, the sprites are evaluated and loaded, and the address
    /// scrolls.
    pub open spec fn tick_render(self) -> (Self, Option<Pixel>) {
        let rendering = self.core.regs.rendering();
        let state = PpuState { core: self.core.cleared(), ..self };
        let (state, pixel) = if state.core.pos.visible() {
            let (drawn, pixel) = state.draw();
            (drawn, Some(pixel))
        } else {
            (state, None)
        };
        if rendering {
            let state = if state.core.fetching() {
                state.fetch_background()
            } else {
                state
            };
            let state = state.tick_sprites();
            (PpuState { core: state.core.scrolled(), ..state }, pixel)
        } else {
            (state, pixel)
        }
    }

    /// One dot: the state after it, and the pixel it yields if it is a
    /// visible dot. Scanlines 0 to 239 and 261 are render lines, 240 is
    /// idle, and 241 to 260 are vertical blank. The position then moves on
    /// by one dot, by the rendering switch as it was before the dot.
    pub open spec fn tick(self) -> (Self, Option<Pixel>) {
        let rendering = self.core.regs.rendering();
        let line = self.core.pos.scanline;
        let (state, pixel) = if line < VISIBLE_SCANLINES || line == LAST_SCANLINE {
            self.tick_render()
        } else if line == VISIBLE_SCANLINES {
            (self, None)
        } else {
            (PpuState { core: self.core.tick_vblank(), ..self }, None)
        };
        (
            PpuState { core: CoreState { pos: state.core.pos.next(rendering), ..state.core }, ..state },
            pixel,
        )
    }
}

impl Core {
    #[verifier::type_invariant]
    spec fn well_formed(self) -> bool {
        &&& self.regs.valid()
        &&& self.pos.valid()
        &&& self.units@.len() == 8
        &&& self.oam@.len() == 256
        &&& self.secondary_oam@.len() == 32
        &&& self.secondary_count <= 8
    }

    fn new() -> (core: Core)
        ensures
            core@ == CoreState::initial(),
    {
        let idle = SpriteUnit { pattern_lo: 0, pattern_hi: 0, attributes: 0, x: 0, zero: false };
        let units: Vec<SpriteUnit> = vec![idle; 8];
        let oam: Vec<u8> = vec![0u8; 256];
        let secondary_oam: Vec<u8> = vec![0xFFu8; 32];
        assert(units@ =~= Seq::new(8, |i: int| SpriteUnit::idle()));
        assert(oam@ =~= Seq::new(256, |i: int| 0u8));
        assert(secondary_oam@ =~= Seq::new(32, |i: int| 0xFFu8));
        Core {
            regs: Registers::new(),
            bg: Background::new(),
            pos: Position { scanline: 0, cycle: 0, odd_frame: false },
            units,
            oam,
            secondary_oam,
            secondary_count: 0,
            secondary_zero: false,
        }
    }

    fn set_registers(&mut self, regs: Registers)
        requires
            regs.valid(),
        ensures
            final(self)@ == (CoreState { regs, ..old(self)@ }),
    {
        proof {
            use_type_invariant(&*self);
        }
        self.regs = regs;
    }

    fn set_background(&mut self, bg: Background)
        ensures
            final(self)@ == (CoreState { bg, ..old(self)@ }),
    {
        proof {
            use_type_invariant(&*self);
        }
        self.bg = bg;
    }

    fn set_position(&mut self, pos: Position)
        requires
            pos.valid(),
        ensures
            final(self)@ == (CoreState { pos, ..old(self)@ }),
    {
        proof {
            use_type_invariant(&*self);
        }
        self.pos = pos;
    }

    fn set_unit(&mut self, i: usize, unit: SpriteUnit)
        requires
            i < 8,
        ensures
            final(self)@ == (CoreState { units: old(self)@.units.update(i as int, unit), ..old(self)@ }),
    {
        proof {
            use_type_invariant(&*self);
        }
        self.units[i] = unit;
    }

    fn write_oam(&mut self, byte: u8)
        ensures
            final(self)@ == (CoreState {
                regs: Registers { oam_addr: ((old(self)@.regs.oam_addr + 1) % 256) as u8, ..old(self)@.regs },
                oam: old(self)@.oam.update(old(self)@.regs.oam_addr as int, byte),
                ..old(self)@
            }),
    {
        proof {
            use_type_invariant(&*self);
        }
        self.oam[self.regs.oam_addr as usize] = byte;
        self.regs.oam_addr = if self.regs.oam_addr == 255 {
            0
        } else {
            self.regs.oam_addr + 1
        };
    }

    fn compose_pixel(&mut self) -> (index: u8)
        requires
            old(self)@.pos.visible(),
        ensures
            index == old(self)@.pixel_index(),
            final(self)@ == old(self)@.after_pixel(),
            index < 32,
    {
        proof {
            use_type_invariant(&*self);
        }
        let x: u8 = (self.pos.cycle - 1) as u8;
        let background = if self.regs.shows_background() && (x >= 8 || self.regs.shows_left_background()) {
            self.bg.select(self.regs.fine_x)
        } else {
            0
        };
        let sprite = if self.regs.shows_sprites() && (x >= 8 || self.regs.shows_left_sprites()) {
            select_sprite(&self.units, x)
        } else {
            SpritePixel { colour: 0, palette: 0, behind: false, zero: false }
        };
        if sprite.zero && sprite.colour != 0 && background % 4 != 0 && x != 255 {
            self.regs.sprite_zero_hit = true;
        }
        mix(background, sprite)
    }

    fn handle_scrolling(&mut self)
        ensures
            final(self)@ == old(self)@.scrolled(),
    {
        proof {
            use_type_invariant(&*self);
        }
        let mut v = self.regs.v;

        // On dot 256 of each scanline, the PPU increments y position.
        if self.pos.cycle == 256 {
            v = increment_y(v);
        }
        // On dot 257 of each scanline, copy all horizontal bits from t to v.

        if self.pos.cycle == 257 {
            v = copy_horizontal(v, self.regs.t);
        }
        // Between dots 280 to 304 of the pre-render scanline, the PPU repeatedly copies the
        // vertical bits from t to v.

        if self.pos.scanline == 261 && self.pos.cycle >= 280 && self.pos.cycle <= 304 {
            v = copy_vertical(v, self.regs.t);
        }
        // Between dot 328 of a scanline, and 256 of the next scanline, x scroll is incremented
        // on every multiple of 8 dots except 0.  i.e. 328, 336, 8, 16, ..., 256.

        if ((self.pos.cycle > 0 && self.pos.cycle <= 256) || self.pos.cycle >= 328) && (self.pos.cycle % 8
            == 0) {
            v = increment_coarse_x(v);
        }
        self.regs.v = v;
    }

    fn tick_vblank(&mut self)
        ensures
            final(self)@ == old(self)@.tick_vblank(),
    {
        proof {
            use_type_invariant(&*self);
        }
        if self.pos.scanline == 241 && self.pos.cycle == 1 {
            self.regs.vblank = true;
            if self.regs.is_nmi_enabled() {
                self.regs.nmi = true;
            }
        }
    }

    fn clear_flags(&mut self)
        ensures
            final(self)@ == old(self)@.cleared(),
    {
        proof {
            use_type_invariant(&*self);
        }
        if self.pos.scanline == 261 && self.pos.cycle == 1 {
            self.regs.vblank = false;
            self.regs.sprite_zero_hit = false;
            self.regs.sprite_overflow = false;
        }
    }

    fn evaluate_sprites(&mut self)
        ensures
            final(self)@ == old(self)@.evaluated(),
    {
        proof {
            use_type_invariant(&*self);
        }
        if self.pos.cycle == 1 {
            let cleared: Vec<u8> = vec![0xFFu8; 32];
            assert(cleared@ =~= Seq::new(32, |i: int| 0xFFu8));
            self.secondary_oam = cleared;
            self.secondary_count = 0;
            self.secondary_zero = false;
        } else if self.pos.cycle == 65 {
            let found = evaluate(&self.oam, self.pos.scanline, self.regs.tall_sprites());
            self.secondary_oam = found.secondary;
            self.secondary_count = found.count;
            self.secondary_zero = found.zero;
            if found.overflow {
                self.regs.sprite_overflow = true;
            }
        }
    }

    fn idle_units(&mut self)
        ensures
            final(self)@ == (CoreState { units: Seq::new(8, |i: int| SpriteUnit::idle()), ..old(self)@ }),
    {
        proof {
            use_type_invariant(&*self);
        }
        let idle = SpriteUnit { pattern_lo: 0, pattern_hi: 0, attributes: 0, x: 0, zero: false };
        let units: Vec<SpriteUnit> = vec![idle; 8];
        assert(units@ =~= Seq::new(8, |i: int| SpriteUnit::idle()));
        self.units = units;
    }

    fn advance(&mut self, rendering: bool)
        ensures
            final(self)@ == (CoreState { pos: old(self)@.pos.next(rendering), ..old(self)@ }),
    {
        proof {
            use_type_invariant(&*self);
        }
        let mut pos = self.pos;
        pos.advance(rendering);
        self.pos = pos;
    }
}

impl<M: ReadWriter> PPU<M> {
    /// A PPU at power-on, wired to `memory`: at the first dot of an even
    /// frame, registers and sprite memory zero, nothing in the pipeline.
    pub fn new(memory: M) -> (ppu: PPU<M>)
        ensures
            ppu@ == (PpuState::<M> { core: CoreState::initial(), memory: memory@ }),
            ppu@.valid(),
    {
        PPU { core: Core::new(), memory }
    }

    /// The registers.
    pub fn registers(&self) -> (registers: Registers)
        ensures
            registers == self@.core.regs,
            self@.valid(),
    {
        proof {
            use_type_invariant(&self.core);
        }
        self.core.regs
    }

    /// The scanline the PPU is on, never beyond 261.
    pub fn scanline(&self) -> (scanline: u16)
        ensures
            scanline == self@.core.pos.scanline,
            scanline <= LAST_SCANLINE,
    {
        proof {
            use_type_invariant(&self.core);
        }
        self.core.pos.scanline
    }

    /// The dot the PPU is on, never beyond 340.
    pub fn cycle(&self) -> (cycle: u16)
        ensures
            cycle == self@.core.pos.cycle,
            cycle <= LAST_DOT,
    {
        proof {
            use_type_invariant(&self.core);
        }
        self.core.pos.cycle
    }

    /// Whether the frame is an odd one.
    pub fn odd_frame(&self) -> (odd: bool)
        ensures
            odd == self@.core.pos.odd_frame,
    {
        self.core.pos.odd_frame
    }

    /// A byte of sprite memory.
    pub fn oam_byte(&self, index: u8) -> (byte: u8)
        ensures
            byte == self@.core.oam[index as int],
    {
        proof {
            use_type_invariant(&self.core);
        }
        self.core.oam[index as usize]
    }

    /// The PPU's memory, to be changed in place.
    pub fn memory_mut(&mut self) -> (memory: &mut M)
        ensures
            memory@ == old(self)@.memory,
            final(self)@ == (PpuState::<M> { memory: final(memory)@, ..old(self)@ }),
    {
        &mut self.memory
    }

    /// Loads from the PPU's own memory, as the PPU does.
    pub fn load_memory(&mut self, address: u16) -> (byte: u8)
        ensures
            (final(self)@, byte) == old(self)@.load(address),
            final(self)@.valid(),
    {
        proof {
            use_type_invariant(&self.core);
        }
        self.memory.read(address)
    }

    /// Stores in the PPU's own memory.
    pub fn store_memory(&mut self, address: u16, byte: u8)
        ensures
            final(self)@ == old(self)@.store(address, byte),
            final(self)@.valid(),
    {
        proof {
            use_type_invariant(&self.core);
        }
        self.memory.write(address, byte)
    }

    /// Whether the PPU has latched an NMI for the CPU. Taking it clears the
    /// latch, so that one edge is taken once.
    pub fn take_nmi(&mut self) -> (latched: bool)
        ensures
            (final(self)@, latched) == old(self)@.take_nmi(),
            final(self)@.valid(),
    {
        proof {
            use_type_invariant(&self.core);
        }
        let mut regs = self.core.regs;
        let latched = regs.nmi;
        regs.nmi = false;
        self.core.set_registers(regs);
        proof {
            use_type_invariant(&self.core);
        }
        latched
    }

    fn read_data(&mut self) -> (byte: u8)
        ensures
            (final(self)@, byte) == old(self)@.read_data(),
    {
        proof {
            use_type_invariant(&self.core);
        }
        let mut regs = self.core.regs;
        let address = regs.v % 0x4000;
        let fetched = self.memory.read(address);
        let byte = if address < 0x3F00 {
            let buffered = regs.read_buffer;
            regs.read_buffer = fetched;
            buffered
        } else {
            let under = self.memory.read(address - 0x1000);
            regs.read_buffer = under;
            fetched
        };
        regs.advance();
        self.core.set_registers(regs);
        byte
    }

    fn write_data(&mut self, byte: u8)
        ensures
            final(self)@ == old(self)@.write_data(byte),
    {
        proof {
            use_type_invariant(&self.core);
        }
        let mut regs = self.core.regs;
        self.memory.write(regs.v % 0x4000, byte);
        regs.advance();
        self.core.set_registers(regs);
    }

    fn draw(&mut self) -> (pixel: Pixel)
        requires
            old(self)@.core.pos.visible(),
        ensures
            (final(self)@, pixel) == old(self)@.draw(),
    {
        let index = self.core.compose_pixel();
        let value = self.memory.read(0x3F00 + index as u16);
        colour(value)
    }

    fn fetch_background(&mut self)
        requires
            old(self)@.core.fetching(),
        ensures
            final(self)@ == old(self)@.fetch_background(),
    {
        proof {
            use_type_invariant(&self.core);
        }
        let regs = self.core.regs;
        let mut bg = self.core.bg;
        bg.shift();
        let phase = (self.core.pos.cycle - 1) % 8;
        if phase == 0 {
            bg.next_tile = self.memory.read(tile_address(regs.v));
        } else if phase == 2 {
            let byte = self.memory.read(attribute_address(regs.v));
            bg.next_palette = select_palette(byte, coarse_x_scroll(regs.v), coarse_y_scroll(regs.v));
        } else if phase == 4 {
            let address = regs.background_pattern_table() + (bg.next_tile as u16) * 16 + fine_y_scroll(regs.v);
            bg.next_lo = self.memory.read(address);
        } else if phase == 6 {
            let address = regs.background_pattern_table() + (bg.next_tile as u16) * 16 + fine_y_scroll(regs.v);
            bg.next_hi = self.memory.read(address + 8);
        } else if phase == 7 {
            bg.reload();
        }
        self.core.set_background(bg);
    }

    fn load_unit(&mut self, i: usize) -> (unit: SpriteUnit)
        requires
            i < 8,
        ensures
            (final(self)@, unit) == old(self)@.load_unit(i as int),
    {
        proof {
            use_type_invariant(&self.core);
        }
        if i < self.core.secondary_count as usize {
            let regs = self.core.regs;
            let y = self.core.secondary_oam[4 * i];
            let tile = self.core.secondary_oam[4 * i + 1];
            let attributes = self.core.secondary_oam[4 * i + 2];
            let x = self.core.secondary_oam[4 * i + 3];
            let tall = regs.tall_sprites();
            let height: u16 = if tall {
                16
            } else {
                8
            };
            let row = (self.core.pos.scanline + 256 - y as u16) % height;
            let line = if test_bit(attributes, 7) {
                height - 1 - row
            } else {
                row
            };
            let address = if !tall {
                regs.sprite_pattern_table() + (tile as u16) * 16 + line
            } else {
                ((tile % 2) as u16) * 0x1000 + ((tile - tile % 2) as u16 + line / 8) * 16 + line % 8
            };
            let lo = self.memory.read(address);
            let hi = self.memory.read(address + 8);
            let flip = test_bit(attributes, 6);
            SpriteUnit {
                pattern_lo: if flip {
                    reverse(lo)
                } else {
                    lo
                },
                pattern_hi: if flip {
                    reverse(hi)
                } else {
                    hi
                },
                attributes,
                x,
                zero: i == 0 && self.core.secondary_zero,
            }
        } else {
            SpriteUnit { pattern_lo: 0, pattern_hi: 0, attributes: 0, x: 0, zero: false }
        }
    }

    fn load_units(&mut self)
        ensures
            final(self)@ == old(self)@.load_units(0),
    {
        let ghost start = self@;
        let mut i: usize = 0;
        while i < 8
            invariant
                i <= 8,
                start.load_units(0) == self@.load_units(i as int),
            decreases 8 - i,
        {
            let unit = self.load_unit(i);
            self.core.set_unit(i, unit);
            i += 1;
        }
    }

    fn tick_sprites(&mut self)
        ensures
            final(self)@ == old(self)@.tick_sprites(),
    {
        proof {
            use_type_invariant(&self.core);
        }
        if self.core.pos.scanline < 240 {
            if self.core.pos.cycle == 257 {
                self.load_units();
            } else {
                self.core.evaluate_sprites();
            }
        } else if self.core.pos.cycle == 257 {
            self.core.idle_units();
        }
    }

    fn tick_render<O: VideoOut>(&mut self, output: &mut O)
        ensures
            final(self)@ == old(self)@.tick_render().0,
            final(output).emitted() == match old(self)@.tick_render().1 {
                Some(pixel) => old(output).emitted().push(pixel),
                None => old(output).emitted(),
            },
    {
        proof {
            use_type_invariant(&self.core);
        }
        let rendering = self.core.regs.rendering_is_enabled();
        self.core.clear_flags();
        proof {
            use_type_invariant(&self.core);
        }
        if self.core.pos.scanline < 240 && 1 <= self.core.pos.cycle && self.core.pos.cycle <= 256 {
            let pixel = self.draw();
            output.emit(pixel);
        }
        if rendering {
            proof {
                use_type_invariant(&self.core);
            }
            let dot = self.core.pos.cycle;
            if (1 <= dot && dot <= 256) || (321 <= dot && dot <= 336) {
                self.fetch_background();
            }
            self.tick_sprites();
            self.core.handle_scrolling();
        }
    }

    /// Runs the PPU for one dot and yields the dots run, which is 1. A
    /// visible dot sends its pixel to `output`.
    pub fn tick<O: VideoOut>(&mut self, output: &mut O) -> (cycles: u16)
        ensures
            final(self)@ == old(self)@.tick().0,
            final(output).emitted() == match old(self)@.tick().1 {
                Some(pixel) => old(output).emitted().push(pixel),
                None => old(output).emitted(),
            },
            final(self)@.valid(),
            cycles == 1,
    {
        proof {
            use_type_invariant(&self.core);
        }
        let rendering = self.core.regs.rendering_is_enabled();
        let line = self.core.pos.scanline;
        if line < 240 || line == 261 {
            self.tick_render(output);
        } else if line > 240 {
            self.core.tick_vblank();
        }
        self.core.advance(rendering);
        proof {
            use_type_invariant(&self.core);
        }
        1
    }
}

impl<M: ReadWriter> Reader for PPU<M> {
    open spec fn read_spec(state: PpuState<M>, address: u16) -> (PpuState<M>, u8) {
        state.read_port(address)
    }

    fn read(&mut self, address: u16) -> (byte: u8) {
        proof {
            use_type_invariant(&self.core);
        }
        let port = address % 8;
        if port == 2 {
            let mut regs = self.core.regs;
            let byte = regs.take_status();
            self.core.set_registers(regs);
            byte
        } else if port == 4 {
            self.core.oam[self.core.regs.oam_addr as usize]
        } else if port == 7 {
            self.read_data()
        } else {
            0
        }
    }
}

impl<M: ReadWriter> Writer for PPU<M> {
    open spec fn write_spec(state: PpuState<M>, address: u16, byte: u8) -> PpuState<M> {
        state.write_port(address, byte)
    }

    fn write(&mut self, address: u16, byte: u8) {
        proof {
            use_type_invariant(&self.core);
        }
        let port = address % 8;
        let mut regs = self.core.regs;
        if port == 0 {
            regs.write_ctrl(byte);
            self.core.set_registers(regs);
        } else if port == 1 {
            regs.mask = byte;
            self.core.set_registers(regs);
        } else if port == 3 {
            regs.oam_addr = byte;
            self.core.set_registers(regs);
        } else if port == 4 {
            self.core.write_oam(byte);
        } else if port == 5 {
            regs.write_scroll(byte);
            self.core.set_registers(regs);
        } else if port == 6 {
            regs.write_address(byte);
            self.core.set_registers(regs);
        } else if port == 7 {
            self.write_data(byte);
        }
    }
}

} // verus!
