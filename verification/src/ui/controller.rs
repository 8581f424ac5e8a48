//! The front-end's controller: it owns the console, and the keyboard
//! switches it on and off, sets its speed and asks for traces.

use crate::emulator::cpu::CpuError;
use crate::emulator::io::event::{Event, Key};
use crate::emulator::nes::{NesState, NES};
use crate::emulator::ppu::VideoOut;
use crate::emulator::NES_MASTER_CLOCK_HZ;
use vstd::prelude::*;

verus! {

/// What the host is to do after an event.
#[derive(Clone, Copy, Debug, PartialEq, Eq, Structural)]
pub enum Action {
    /// Nothing.
    Nothing,
    /// Start recording a trace of the CPU, and say so.
    StartTracing,
    /// Stop recording the trace, and say so.
    StopTracing,
    /// Write the trace recorded so far to its file.
    FlushTrace,
}

/// The console and the switches that the keyboard sets.
pub struct Controller<O> {
    nes: NES<O>,
    is_running: bool,
    is_tracing: bool,
    target_hz: u64,
    show_debug: bool,
}

/// The switches of a controller.
#[derive(Clone, Copy, Debug, PartialEq, Eq, Structural)]
pub struct Switches {
    pub is_running: bool,
    pub is_tracing: bool,
    /// The frequency to run at, in Hz. 0 pauses the console.
    pub target_hz: u64,
    pub show_debug: bool,
}

/// The model of a controller.
pub struct ControllerState {
    pub nes: NesState,
    pub switches: Switches,
}

impl<O: VideoOut> View for Controller<O> {
    type V = ControllerState;

    closed spec fn view(&self) -> ControllerState {
        ControllerState {
            nes: self.nes@,
            switches: Switches {
                is_running: self.is_running,
                is_tracing: self.is_tracing,
                target_hz: self.target_hz,
                show_debug: self.show_debug,
            },
        }
    }
}

impl Switches {
    /// The switches after an event, and what the host is to do. Only keys
    /// going down count. Escape stops the console. Tab toggles tracing.
    /// Return asks for the trace to be written. Backquote toggles the debug
    /// display. The digits set the speed: 1 pauses, 2 to 5 run at 20 kHz,
    /// 200 kHz, 2 MHz and 10 MHz, 6 at the master clock, and 7, 8, 9 and 0
    /// at two, three, four and five times the master clock.
    pub open spec fn after(self, event: Event) -> (Switches, Action) {
        match event {
            Event::KeyDown(Key::Escape) => (Switches { is_running: false, ..self }, Action::Nothing),
            Event::KeyDown(Key::Tab) => if self.is_tracing {
                (Switches { is_tracing: false, ..self }, Action::StopTracing)
            } else {
                (Switches { is_tracing: true, ..self }, Action::StartTracing)
            },
            Event::KeyDown(Key::Return) => (self, Action::FlushTrace),
            Event::KeyDown(Key::Backquote) => (Switches { show_debug: !self.show_debug, ..self }, Action::Nothing),
            Event::KeyDown(Key::Num1) => (Switches { target_hz: 0, ..self }, Action::Nothing),
            Event::KeyDown(Key::Num2) => (Switches { target_hz: 20_000, ..self }, Action::Nothing),
            Event::KeyDown(Key::Num3) => (Switches { target_hz: 200_000, ..self }, Action::Nothing),
            Event::KeyDown(Key::Num4) => (Switches { target_hz: 2_000_000, ..self }, Action::Nothing),
            Event::KeyDown(Key::Num5) => (Switches { target_hz: 10_000_000, ..self }, Action::Nothing),
            Event::KeyDown(Key::Num6) => (Switches { target_hz: NES_MASTER_CLOCK_HZ, ..self }, Action::Nothing),
            Event::KeyDown(Key::Num7) => (
                Switches { target_hz: (NES_MASTER_CLOCK_HZ * 2) as u64, ..self },
                Action::Nothing,
            ),
            Event::KeyDown(Key::Num8) => (
                Switches { target_hz: (NES_MASTER_CLOCK_HZ * 3) as u64, ..self },
                Action::Nothing,
            ),
            Event::KeyDown(Key::Num9) => (
                Switches { target_hz: (NES_MASTER_CLOCK_HZ * 4) as u64, ..self },
                Action::Nothing,
            ),
            Event::KeyDown(Key::Num0) => (
                Switches { target_hz: (NES_MASTER_CLOCK_HZ * 5) as u64, ..self },
                Action::Nothing,
            ),
            _ => (self, Action::Nothing),
        }
    }
}

impl<O: VideoOut> Controller<O> {
    /// A controller around a console that is not running yet, at the master
    /// clock, with tracing and the debug display off.
    pub fn new(nes: NES<O>) -> (controller: Controller<O>)
        ensures
            controller@ == (ControllerState {
                nes: nes@,
                switches: Switches {
                    is_running: false,
                    is_tracing: false,
                    target_hz: NES_MASTER_CLOCK_HZ,
                    show_debug: false,
                },
            }),
    {
        Controller {
            nes,
            is_running: false,
            is_tracing: false,
            target_hz: NES_MASTER_CLOCK_HZ,
            show_debug: false,
        }
    }

    /// Runs the console for one tick.
    pub fn tick(&mut self) -> (result: Result<u64, CpuError>)
        ensures
            final(self)@.nes == old(self)@.nes.tick().0,
            result == old(self)@.nes.tick().1,
            final(self)@.switches == old(self)@.switches,
    {
        self.nes.tick()
    }

    /// The console, to look at.
    pub fn nes(&self) -> (nes: &NES<O>)
        ensures
            nes@ == self@.nes,
    {
        &self.nes
    }

    /// Reports the buttons that are held on the two controllers of the
    /// console.
    pub fn set_buttons(&mut self, first: u8, second: u8)
        ensures
            final(self)@ == (ControllerState { nes: old(self)@.nes.pressed(first, second), ..old(self)@ }),
    {
        self.nes.set_buttons(first, second);
    }

    pub fn is_running(&self) -> (running: bool)
        ensures
            running == self@.switches.is_running,
    {
        self.is_running
    }

    pub fn start(&mut self)
        ensures
            final(self)@ == (ControllerState {
                switches: Switches { is_running: true, ..old(self)@.switches },
                ..old(self)@
            }),
    {
        self.is_running = true;
    }

    pub fn is_tracing(&self) -> (tracing: bool)
        ensures
            tracing == self@.switches.is_tracing,
    {
        self.is_tracing
    }

    pub fn target_hz(&self) -> (hz: u64)
        ensures
            hz == self@.switches.target_hz,
    {
        self.target_hz
    }

    pub fn show_debug(&self) -> (shown: bool)
        ensures
            shown == self@.switches.show_debug,
    {
        self.show_debug
    }

    /// Takes an event from the host and yields what the host is to do about
    /// it. The console itself is not touched.
    pub fn handle_event(&mut self, event: Event) -> (action: Action)
        ensures
            final(self)@.nes == old(self)@.nes,
            (final(self)@.switches, action) == old(self)@.switches.after(event),
    {
        match event {
            Event::KeyDown(key) => {
                match key {
                    Key::Escape => {
                        self.is_running = false;
                        Action::Nothing
                    },
                    Key::Tab => {
                        if self.is_tracing {
                            self.is_tracing = false;
                            Action::StopTracing
                        } else {
                            self.is_tracing = true;
                            Action::StartTracing
                        }
                    },
                    Key::Return => Action::FlushTrace,
                    Key::Backquote => {
                        self.show_debug = !self.show_debug;
                        Action::Nothing
                    },
                    // Paused
                    Key::Num1 => {
                        self.target_hz = 0;
                        Action::Nothing
                    },
                    // Scanlines
                    Key::Num2 => {
                        self.target_hz = 20_000;
                        Action::Nothing
                    },
                    // Frames
                    Key::Num3 => {
                        self.target_hz = 200_000;
                        Action::Nothing
                    },
                    // 1/10 slow-mo
                    Key::Num4 => {
                        self.target_hz = 2_000_000;
                        Action::Nothing
                    },
                    // 1/2 Slow-mo
                    Key::Num5 => {
                        self.target_hz = 10_000_000;
                        Action::Nothing
                    },
                    // Normal
                    Key::Num6 => {
                        self.target_hz = NES_MASTER_CLOCK_HZ;
                        Action::Nothing
                    },
                    // Fast Forward
                    Key::Num7 => {
                        self.target_hz = NES_MASTER_CLOCK_HZ * 2;
                        Action::Nothing
                    },
                    Key::Num8 => {
                        self.target_hz = NES_MASTER_CLOCK_HZ * 3;
                        Action::Nothing
                    },
                    Key::Num9 => {
                        self.target_hz = NES_MASTER_CLOCK_HZ * 4;
                        Action::Nothing
                    },
                    Key::Num0 => {
                        self.target_hz = NES_MASTER_CLOCK_HZ * 5;
                        Action::Nothing
                    },
                    _ => Action::Nothing,
                }
            },
            _ => Action::Nothing,
        }
    }
}

} // verus!
