//! Whether the machine runs, and how fast.

use crate::emulator::io::event::{Event, Key};
use crate::emulator::NES_MASTER_CLOCK_HZ;
use vstd::prelude::*;

verus! {

/// The run state that the keyboard steers: Escape stops the machine, Tab
/// toggles the speed lock, Minus halves and Equals doubles the target
/// frequency, and 0 sets it back to the master clock.
pub struct Lifecycle {
    is_running: bool,
    unlock_speed: bool,
    target_hz: u64,
}

/// The model of a `Lifecycle`.
pub struct LifecycleState {
    pub is_running: bool,
    pub unlock_speed: bool,
    pub target_hz: u64,
}

impl View for Lifecycle {
    type V = LifecycleState;

    closed spec fn view(&self) -> LifecycleState {
        LifecycleState {
            is_running: self.is_running,
            unlock_speed: self.unlock_speed,
            target_hz: self.target_hz,
        }
    }
}

impl LifecycleState {
    /// Whether `event` can be handled without the doubled frequency leaving
    /// the range of 64 bits.
    pub open spec fn accepts(self, event: Event) -> bool {
        event == Event::KeyDown(Key::Equals) ==> self.target_hz * 2 <= u64::MAX
    }

    /// The state after `event`.
    pub open spec fn after(self, event: Event) -> LifecycleState {
        match event {
            Event::KeyDown(Key::Escape) => LifecycleState { is_running: false, ..self },
            Event::KeyDown(Key::Tab) => LifecycleState { unlock_speed: !self.unlock_speed, ..self },
            Event::KeyDown(Key::Minus) => LifecycleState { target_hz: self.target_hz / 2, ..self },
            Event::KeyDown(Key::Equals) => LifecycleState { target_hz: (self.target_hz * 2) as u64, ..self },
            Event::KeyDown(Key::Num0) => LifecycleState { target_hz: NES_MASTER_CLOCK_HZ, ..self },
            _ => self,
        }
    }
}

impl Lifecycle {
    /// A machine that is not running yet, locked to the master clock.
    pub fn new() -> (lifecycle: Lifecycle)
        ensures
            lifecycle@ == (LifecycleState {
                is_running: false,
                unlock_speed: false,
                target_hz: NES_MASTER_CLOCK_HZ,
            }),
    {
        Lifecycle { is_running: false, unlock_speed: false, target_hz: NES_MASTER_CLOCK_HZ }
    }

    pub fn is_running(&self) -> (running: bool)
        ensures
            running == self@.is_running,
    {
        self.is_running
    }

    pub fn start(&mut self)
        ensures
            final(self)@ == (LifecycleState { is_running: true, ..old(self)@ }),
    {
        self.is_running = true;
    }

    pub fn speed_is_unlocked(&self) -> (unlocked: bool)
        ensures
            unlocked == self@.unlock_speed,
    {
        self.unlock_speed
    }

    pub fn target_hz(&self) -> (hz: u64)
        ensures
            hz == self@.target_hz,
    {
        self.target_hz
    }

    /// Whether `handle_event` may be called with `event`: doubling must not
    /// overflow the frequency.
    pub fn can_handle(&self, event: Event) -> (ok: bool)
        ensures
            ok == self@.accepts(event),
    {
        match event {
            Event::KeyDown(Key::Equals) => self.target_hz <= u64::MAX / 2,
            _ => true,
        }
    }

    pub fn handle_event(&mut self, event: Event)
        requires
            old(self)@.accepts(event),
        ensures
            final(self)@ == old(self)@.after(event),
    {
        match event {
            Event::KeyDown(key) => {
                match key {
                    Key::Escape => self.is_running = false,
                    Key::Tab => self.unlock_speed = !self.unlock_speed,
                    Key::Minus => self.target_hz = self.target_hz / 2,
                    Key::Equals => self.target_hz = self.target_hz * 2,
                    Key::Num0 => self.target_hz = NES_MASTER_CLOCK_HZ,
                    _ => (),
                };
            },
            _ => (),
        };
    }
}

} // verus!
