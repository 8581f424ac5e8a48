//! The cadence of the PPU: how the position runs through a frame, which dots
//! yield a pixel, and when the NMI is raised and taken.

use crate::emulator::memory::{kept_by_memory, ReadWriter};
use crate::emulator::ppu::{
    CoreState, Pixel, Position, PpuState, LAST_SCANLINE, VBLANK_SCANLINE, VISIBLE_DOTS, VISIBLE_SCANLINES,
};
use vstd::prelude::*;

verus! {

/// Dots in a scanline.
pub const DOTS_PER_SCANLINE: u32 = 341;

/// Scanlines in a frame.
pub const SCANLINES_PER_FRAME: u32 = 262;

/// Dots in a frame that skips none.
pub const DOTS_PER_FRAME: u32 = 89342;

/// Pixels in a picture: 256 by 240.
pub const PIXELS_PER_FRAME: u32 = 61440;

/// How many dots of the frame lie before a position.
pub open spec fn dots_before(pos: Position) -> int {
    pos.scanline * 341 + pos.cycle
}

/// How many visible dots of the frame lie before a position: the pixels
/// that the frame has yielded when the PPU stands there.
pub open spec fn pixels_before(pos: Position) -> int {
    if pos.scanline >= VISIBLE_SCANLINES {
        61440
    } else if pos.cycle == 0 {
        pos.scanline * 256
    } else if pos.cycle > VISIBLE_DOTS {
        pos.scanline * 256 + 256
    } else {
        pos.scanline * 256 + pos.cycle - 1
    }
}

impl<M: ReadWriter> PpuState<M> {
    /// The state after so many dots, and the pixels they yielded, oldest
    /// first.
    pub open spec fn run(self, dots: nat) -> (Self, Seq<Pixel>)
        decreases dots,
    {
        if dots == 0 {
            (self, Seq::empty())
        } else {
            let (state, pixels) = self.run((dots - 1) as nat);
            let (next, pixel) = state.tick();
            (
                next,
                match pixel {
                    Some(p) => pixels.push(p),
                    None => pixels,
                },
            )
        }
    }
}

/// The position stays within the frame: the scanline never goes beyond 261
/// nor the dot beyond 340. Within a frame it moves on by one dot; after the
/// last dot a frame of the other parity starts.
pub proof fn lemma_position_stays_in_frame(pos: Position, rendering: bool)
    requires
        pos.valid(),
    ensures
        pos.next(rendering).valid(),
        dots_before(pos) < 89341 ==> dots_before(pos.next(rendering)) == dots_before(pos) + 1,
        dots_before(pos) == 89341 ==> pos.next(rendering).scanline == 0 && pos.next(rendering).cycle <= 1
            && pos.next(rendering).odd_frame != pos.odd_frame,
        0 <= dots_before(pos) <= 89341,
{
}

/// A visible dot is the next pixel of the picture in raster order: the
/// pixels before it are those of the scanlines above and those to its left.
/// Every other dot leaves the count alone, and the count of a whole frame is
/// 256 times 240.
pub proof fn lemma_pixels_in_raster_order(pos: Position, rendering: bool)
    requires
        pos.valid(),
    ensures
        pos.visible() ==> pixels_before(pos) == pos.scanline * 256 + (pos.cycle - 1),
        dots_before(pos) < 89341 ==> pixels_before(pos.next(rendering)) == pixels_before(pos) + if pos.visible() {
            1int
        } else {
            0int
        },
        dots_before(pos) == 89341 ==> pixels_before(pos) == 61440 && !pos.visible() && pixels_before(
            pos.next(rendering),
        ) == 0,
        0 <= pixels_before(pos) <= 61440,
{
}

/// Loading the sprite units touches neither the position nor the
/// registers.
pub proof fn lemma_load_units_frame<M: ReadWriter>(state: PpuState<M>, i: int)
    ensures
        state.load_units(i).core.pos == state.core.pos,
        state.load_units(i).core.regs == state.core.regs,
    decreases 8 - i,
{
    if 0 <= i < 8 {
        let (loaded, unit) = state.load_unit(i);
        let next = PpuState::<M> {
            core: CoreState { units: loaded.core.units.update(i, unit), ..loaded.core },
            ..loaded
        };
        lemma_load_units_frame(next, i + 1);
    }
}

/// What a dot does to the position and to the NMI latch, and whether it
/// yields a pixel. The position moves on by one dot and so stays within the
/// frame. The dot yields a pixel exactly when it is visible. The latch is
/// set only at dot 1 of scanline 241 and only if control bit 7 enables it;
/// no dot clears it.
pub proof fn lemma_tick_cadence<M: ReadWriter>(state: PpuState<M>)
    requires
        state.core.pos.valid(),
    ensures
        state.tick().0.core.pos == state.core.pos.next(state.core.regs.rendering()),
        state.tick().0.core.pos.valid(),
        state.tick().1 is Some <==> state.core.pos.visible(),
        state.tick().0.core.regs.nmi == (state.core.regs.nmi || (state.core.pos.scanline == VBLANK_SCANLINE
            && state.core.pos.cycle == 1 && state.core.regs.nmi_enabled())),
        state.core.pos.scanline == VBLANK_SCANLINE && state.core.pos.cycle == 1 ==> state.tick().0.core.regs.vblank,
{
    let line = state.core.pos.scanline;
    if line < VISIBLE_SCANLINES || line == LAST_SCANLINE {
        let cleared = PpuState::<M> { core: state.core.cleared(), ..state };
        let drawn = if cleared.core.pos.visible() {
            cleared.draw().0
        } else {
            cleared
        };
        if state.core.regs.rendering() {
            let fetched = if drawn.core.fetching() {
                drawn.fetch_background()
            } else {
                drawn
            };
            lemma_load_units_frame(fetched, 0);
            let sprites = fetched.tick_sprites();
        }
    }
}

/// Within a frame, so many dots move the position on by as many, and yield
/// exactly the pixels of the visible dots among them.
pub proof fn lemma_run_within_frame<M: ReadWriter>(state: PpuState<M>, dots: nat)
    requires
        state.core.pos.valid(),
        dots_before(state.core.pos) + dots <= 89341,
    ensures
        state.run(dots).0.core.pos.valid(),
        dots_before(state.run(dots).0.core.pos) == dots_before(state.core.pos) + dots,
        state.run(dots).1.len() == pixels_before(state.run(dots).0.core.pos) - pixels_before(state.core.pos),
    decreases dots,
{
    if dots > 0 {
        lemma_run_within_frame(state, (dots - 1) as nat);
        let (before, pixels) = state.run((dots - 1) as nat);
        lemma_tick_cadence(before);
        lemma_position_stays_in_frame(before.core.pos, before.core.regs.rendering());
        lemma_pixels_in_raster_order(before.core.pos, before.core.regs.rendering());
    }
}

/// A frame yields exactly 256 times 240 pixels. From its first dot, or from
/// its second where the first is skipped, the frame runs to the first dot
/// of the next frame, of the other parity, and yields 61440 pixels on the
/// way.
pub proof fn lemma_frame_yields_picture<M: ReadWriter>(state: PpuState<M>)
    requires
        state.core.pos.valid(),
        state.core.pos.scanline == 0,
        state.core.pos.cycle <= 1,
    ensures
        ({
            let dots = (89342 - state.core.pos.cycle) as nat;
            let (after, pixels) = state.run(dots);
            &&& pixels.len() == 61440
            &&& after.core.pos.scanline == 0
            &&& after.core.pos.cycle <= 1
            &&& after.core.pos.odd_frame != state.core.pos.odd_frame
        }),
{
    let dots = (89341 - state.core.pos.cycle) as nat;
    lemma_run_within_frame(state, dots);
    let (last, pixels) = state.run(dots);
    lemma_tick_cadence(last);
    lemma_position_stays_in_frame(last.core.pos, last.core.regs.rendering());
    lemma_run_parity(state, dots);
}

/// Within a frame the parity stays.
pub proof fn lemma_run_parity<M: ReadWriter>(state: PpuState<M>, dots: nat)
    requires
        state.core.pos.valid(),
        dots_before(state.core.pos) + dots <= 89341,
    ensures
        state.run(dots).0.core.pos.odd_frame == state.core.pos.odd_frame,
    decreases dots,
{
    if dots > 0 {
        lemma_run_parity(state, (dots - 1) as nat);
        lemma_run_within_frame(state, (dots - 1) as nat);
        let (before, pixels) = state.run((dots - 1) as nat);
        lemma_tick_cadence(before);
    }
}

/// Running one dot and then some more is running them all.
pub proof fn lemma_run_from_first<M: ReadWriter>(ppu: PpuState<M>, more: nat)
    ensures
        ppu.run(more + 1).0 == ppu.tick().0.run(more).0,
        ppu.run(more + 1).1 == match ppu.tick().1 {
            Some(p) => seq![p] + ppu.tick().0.run(more).1,
            None => ppu.tick().0.run(more).1,
        },
    decreases more,
{
    if more == 0 {
        assert(ppu.run(0).0 == ppu);
    } else {
        lemma_run_from_first(ppu, (more - 1) as nat);
    }
}

/// One NMI edge is taken once: after the CPU took the latch, it finds it
/// clear until the PPU raises it again. And an NMI is suppressed by a load
/// of the status before the CPU takes it: the load clears the vblank flag
/// and the latch with it.
pub proof fn lemma_nmi_taken_once<M: ReadWriter>(state: PpuState<M>, address: u16)
    ensures
        !state.take_nmi().0.take_nmi().1,
        state.take_nmi().1 == state.core.regs.nmi,
        address % 8 == 2 ==> !state.read_port(address).0.take_nmi().1,
        address % 8 == 2 ==> !state.read_port(address).0.core.regs.vblank,
        address % 8 == 2 ==> (state.read_port(address).1 >= 128) == state.core.regs.vblank,
{
}

/// Loading the sprite units keeps what loads and stores keep of the PPU's
/// memory.
pub proof fn lemma_load_units_keeps<M: ReadWriter>(state: PpuState<M>, i: int, kept: spec_fn(M::V) -> bool)
    requires
        kept_by_memory::<M>(kept),
        kept(state.memory),
    ensures
        kept(state.load_units(i).memory),
    decreases 8 - i,
{
    if 0 <= i < 8 {
        let (loaded, unit) = state.load_unit(i);
        let next = PpuState::<M> {
            core: CoreState { units: loaded.core.units.update(i, unit), ..loaded.core },
            ..loaded
        };
        lemma_load_units_keeps(next, i + 1, kept);
    }
}

/// The PPU touches its memory through loads and stores only: whatever holds
/// of the memory and survives every load and store holds after a dot, and
/// after a load or a store by the CPU through the ports.
pub proof fn lemma_ppu_keeps<M: ReadWriter>(state: PpuState<M>, address: u16, byte: u8, kept: spec_fn(M::V) -> bool)
    requires
        kept_by_memory::<M>(kept),
        kept(state.memory),
    ensures
        kept(state.tick().0.memory),
        kept(state.read_port(address).0.memory),
        kept(state.write_port(address, byte).memory),
{
    let line = state.core.pos.scanline;
    if line < VISIBLE_SCANLINES || line == LAST_SCANLINE {
        let cleared = PpuState::<M> { core: state.core.cleared(), ..state };
        let drawn = if cleared.core.pos.visible() {
            cleared.draw().0
        } else {
            cleared
        };
        if state.core.regs.rendering() {
            let fetched = if drawn.core.fetching() {
                drawn.fetch_background()
            } else {
                drawn
            };
            lemma_load_units_keeps(fetched, 0, kept);
        }
    }
}

} // verus!
