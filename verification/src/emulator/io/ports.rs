//! The CPU's input and output ports at `$4000-$4017`: the two controllers
//! and the register that asks for a copy into sprite memory.

use crate::emulator::memory::{Reader, Writer};
use vstd::prelude::*;

verus! {

/// The port that starts a copy into sprite memory.
pub const OAM_DMA: u16 = 0x4014;

/// The port of the first controller, and of the strobe for both.
pub const JOYPAD_1: u16 = 0x4016;

/// The port of the second controller.
pub const JOYPAD_2: u16 = 0x4017;

/// A controller: eight buttons behind a shift register.
///
/// A bit of the mask is set while its button is held: A, B, Select, Start,
/// Up, Down, Left, Right from bit 0 up.
#[derive(Clone, Copy, Debug, PartialEq, Eq, Structural)]
pub struct Joypad {
    /// The buttons as the host last reported them.
    pub buttons: u8,
    /// What is left to shift out.
    pub shift: u8,
    /// While the strobe is high the shift register follows the buttons.
    pub strobe: bool,
}

impl Joypad {
    /// A controller with no button held.
    pub open spec fn idle() -> Joypad {
        Joypad { buttons: 0, shift: 0, strobe: false }
    }

    /// After the host reported the buttons.
    pub open spec fn pressed(self, buttons: u8) -> Joypad {
        Joypad {
            buttons,
            shift: if self.strobe {
                buttons
            } else {
                self.shift
            },
            ..self
        }
    }

    /// After a store to the strobe port: bit 0 is the strobe. While it is
    /// high, and when it falls, the shift register takes the buttons.
    pub open spec fn strobed(self, byte: u8) -> Joypad {
        let strobe = byte % 2 == 1;
        Joypad {
            strobe,
            shift: if strobe || self.strobe {
                self.buttons
            } else {
                self.shift
            },
            ..self
        }
    }

    /// After a load from the controller's port, and the byte it yields: the
    /// next button in bit 0. With the strobe high that is always the first
    /// button. With the strobe low the register moves on, and yields ones
    /// once the eight buttons are out.
    pub open spec fn shifted(self) -> (Joypad, u8) {
        if self.strobe {
            (self, self.buttons % 2)
        } else {
            (Joypad { shift: (self.shift / 2 + 128) as u8, ..self }, self.shift % 2)
        }
    }

    pub fn new() -> (pad: Joypad)
        ensures
            pad == Joypad::idle(),
    {
        Joypad { buttons: 0, shift: 0, strobe: false }
    }

    pub fn press(&mut self, buttons: u8)
        ensures
            *final(self) == old(self).pressed(buttons),
    {
        self.buttons = buttons;
        if self.strobe {
            self.shift = buttons;
        }
    }

    pub fn write_strobe(&mut self, byte: u8)
        ensures
            *final(self) == old(self).strobed(byte),
    {
        let strobe = byte % 2 == 1;
        if strobe || self.strobe {
            self.shift = self.buttons;
        }
        self.strobe = strobe;
    }

    pub fn read_button(&mut self) -> (byte: u8)
        ensures
            (*final(self), byte) == old(self).shifted(),
    {
        if self.strobe {
            self.buttons % 2
        } else {
            let bit = self.shift % 2;
            self.shift = self.shift / 2 + 128;
            bit
        }
    }
}

/// The eight buttons come out one per load, A first, after the strobe went
/// high and low again.
pub proof fn lemma_buttons_in_order(pad: Joypad)
    ensures
        ({
            let latched = pad.strobed(1).strobed(0);
            let (one, b0) = latched.shifted();
            let (two, b1) = one.shifted();
            let (three, b2) = two.shifted();
            let (four, b3) = three.shifted();
            let (five, b4) = four.shifted();
            let (six, b5) = five.shifted();
            let (seven, b6) = six.shifted();
            let (eight, b7) = seven.shifted();
            &&& pad.buttons == b0 + 2 * b1 + 4 * b2 + 8 * b3 + 16 * b4 + 32 * b5 + 64 * b6 + 128 * b7
            &&& eight.shifted().1 == 1
        }),
{
}

/// The ports.
#[derive(Clone, Copy, Debug, PartialEq, Eq, Structural)]
pub struct IoPorts {
    pub pad1: Joypad,
    pub pad2: Joypad,
    /// The page that a store to `$4014` asked to be copied into sprite
    /// memory, until the copy is made.
    pub dma_page: Option<u8>,
}

impl View for IoPorts {
    type V = IoPorts;

    open spec fn view(&self) -> IoPorts {
        *self
    }
}

impl IoPorts {
    /// The ports with no button held and no copy asked for.
    pub open spec fn idle() -> IoPorts {
        IoPorts { pad1: Joypad::idle(), pad2: Joypad::idle(), dma_page: None }
    }

    pub fn new() -> (ports: IoPorts)
        ensures
            ports == IoPorts::idle(),
    {
        IoPorts { pad1: Joypad::new(), pad2: Joypad::new(), dma_page: None }
    }
}

impl Reader for IoPorts {
    /// `$4016` and `$4017` shift a button out of their controller. The
    /// other ports yield 0.
    open spec fn read_spec(state: IoPorts, address: u16) -> (IoPorts, u8) {
        if address == JOYPAD_1 {
            (IoPorts { pad1: state.pad1.shifted().0, ..state }, state.pad1.shifted().1)
        } else if address == JOYPAD_2 {
            (IoPorts { pad2: state.pad2.shifted().0, ..state }, state.pad2.shifted().1)
        } else {
            (state, 0u8)
        }
    }

    fn read(&mut self, address: u16) -> (byte: u8) {
        if address == JOYPAD_1 {
            self.pad1.read_button()
        } else if address == JOYPAD_2 {
            self.pad2.read_button()
        } else {
            0
        }
    }
}

impl Writer for IoPorts {
    /// A store to `$4014` asks for a copy of the page of that number into
    /// sprite memory. A store to `$4016` strobes both controllers. Stores
    /// to the other ports, which belong to the sound unit, are dropped.
    open spec fn write_spec(state: IoPorts, address: u16, byte: u8) -> IoPorts {
        if address == OAM_DMA {
            IoPorts { dma_page: Some(byte), ..state }
        } else if address == JOYPAD_1 {
            IoPorts { pad1: state.pad1.strobed(byte), pad2: state.pad2.strobed(byte), ..state }
        } else {
            state
        }
    }

    fn write(&mut self, address: u16, byte: u8) {
        if address == OAM_DMA {
            self.dma_page = Some(byte);
        } else if address == JOYPAD_1 {
            self.pad1.write_strobe(byte);
            self.pad2.write_strobe(byte);
        }
    }
}

} // verus!
