//! Pacing: how many cycles a frame may run, how long the host sleeps after
//! it, and what is carried over to the next frame. The clock driver itself
//! knows nothing of wall-clock time; the host measures it and asks here.

use vstd::prelude::*;

verus! {

/// Nanoseconds in a second.
pub const NANOS_PER_SECOND: u64 = 1_000_000_000;

/// Ticks that the host runs between two looks at the clock.
pub const BATCH_SIZE: u64 = 99;

/// The pace of a run of frames.
pub struct Pacer {
    frames_per_second: u64,
    overflow_cycles: u64,
}

/// The model of a pacer.
pub struct Pace {
    /// Frames that the host shows in a second, not zero.
    pub frames_per_second: u64,
    /// Cycles that the last frame ran beyond its budget.
    pub overflow_cycles: u64,
}

impl View for Pacer {
    type V = Pace;

    closed spec fn view(&self) -> Pace {
        Pace { frames_per_second: self.frames_per_second, overflow_cycles: self.overflow_cycles }
    }
}

/// One number less another, but not below zero.
pub open spec fn less(left: u64, right: u64) -> u64 {
    if left >= right {
        (left - right) as u64
    } else {
        0
    }
}

impl Pace {
    /// Cycles that a frame may run at `target_hz`: its share of a second,
    /// less what the frame before ran beyond its own budget, but not below
    /// zero.
    pub open spec fn budget(self, target_hz: u64) -> u64 {
        less(target_hz / self.frames_per_second, self.overflow_cycles)
    }

    /// Nanoseconds that a frame lasts.
    pub open spec fn frame_time(self) -> u64 {
        NANOS_PER_SECOND / self.frames_per_second
    }

    /// Whether a frame that has run `cycles` of its `budget` in `elapsed`
    /// nanoseconds runs on: until it has used up its cycles or its time.
    pub open spec fn runs_on(self, cycles: u64, budget: u64, elapsed: u64) -> bool {
        cycles < budget && elapsed < self.frame_time()
    }
}

/// The frequency at which `cycles` cycles ran in `nanos` nanoseconds, in Hz,
/// or the largest number of 64 bits if it is beyond that.
pub open spec fn frequency(cycles: u64, nanos: u64) -> u64 {
    if cycles * NANOS_PER_SECOND / (nanos as int) > u64::MAX {
        u64::MAX
    } else {
        (cycles * NANOS_PER_SECOND / (nanos as int)) as u64
    }
}

impl Pacer {
    #[verifier::type_invariant]
    spec fn well_formed(self) -> bool {
        self.frames_per_second > 0
    }

    /// A pacer for so many frames a second with nothing carried over, or
    /// nothing if the rate is zero.
    pub fn new(frames_per_second: u64) -> (pacer: Option<Pacer>)
        ensures
            match pacer {
                Some(p) => frames_per_second > 0 && p@ == (Pace { frames_per_second, overflow_cycles: 0 }),
                None => frames_per_second == 0,
            },
    {
        if frames_per_second == 0 {
            None
        } else {
            Some(Pacer { frames_per_second, overflow_cycles: 0 })
        }
    }

    pub fn frames_per_second(&self) -> (rate: u64)
        ensures
            rate == self@.frames_per_second,
            rate > 0,
    {
        proof {
            use_type_invariant(self);
        }
        self.frames_per_second
    }

    pub fn overflow_cycles(&self) -> (cycles: u64)
        ensures
            cycles == self@.overflow_cycles,
    {
        self.overflow_cycles
    }

    /// Cycles that the next frame may run.
    pub fn budget(&self, target_hz: u64) -> (cycles: u64)
        ensures
            cycles == self@.budget(target_hz),
    {
        proof {
            use_type_invariant(self);
        }
        (target_hz / self.frames_per_second).saturating_sub(self.overflow_cycles)
    }

    /// Nanoseconds that a frame lasts.
    pub fn frame_time_ns(&self) -> (nanos: u64)
        ensures
            nanos == self@.frame_time(),
    {
        proof {
            use_type_invariant(self);
        }
        NANOS_PER_SECOND / self.frames_per_second
    }

    /// Whether the frame runs another batch of ticks.
    pub fn runs_on(&self, cycles_this_frame: u64, budget: u64, frame_ns: u64) -> (on: bool)
        ensures
            on == self@.runs_on(cycles_this_frame, budget, frame_ns),
    {
        cycles_this_frame < budget && frame_ns < self.frame_time_ns()
    }

    /// Ends a frame that ran `cycles_this_frame` of its `budget` in
    /// `frame_ns` nanoseconds: what it ran beyond its budget is carried
    /// over, and the host is to sleep for what is left of the frame's time.
    pub fn finish_frame(&mut self, cycles_this_frame: u64, budget: u64, frame_ns: u64) -> (sleep_ns: u64)
        ensures
            final(self)@ == (Pace { overflow_cycles: less(cycles_this_frame, budget), ..old(self)@ }),
            sleep_ns == less(old(self)@.frame_time(), frame_ns),
    {
        proof {
            use_type_invariant(&*self);
        }
        let frame_time = NANOS_PER_SECOND / self.frames_per_second;
        self.overflow_cycles = cycles_this_frame.saturating_sub(budget);
        frame_time.saturating_sub(frame_ns)
    }
}

/// The frequency at which `cycles` cycles ran in `nanos` nanoseconds.
pub fn measured_hz(cycles: u64, nanos: u64) -> (hz: u64)
    requires
        nanos > 0,
    ensures
        hz == frequency(cycles, nanos),
{
    let scaled: u128 = (cycles as u128) * (NANOS_PER_SECOND as u128);
    let hz: u128 = scaled / (nanos as u128);
    if hz > u64::MAX as u128 {
        u64::MAX
    } else {
        hz as u64
    }
}

} // verus!
