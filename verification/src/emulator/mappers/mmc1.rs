//! Mapper 1, MMC1: registers that are written one bit at a time through a
//! shift register, banked program and pattern memory, 8 KiB of program RAM,
//! and mirroring under the cartridge's control.

use crate::bits::pow2;
use crate::emulator::ines::copy_range;
use crate::emulator::mappers::{is_prg, prg_banks, prg_byte, prg_index, prg_valid, VideoBanks, ROM_START};
use crate::emulator::memory::{Reader, Writer};
use crate::emulator::ppu::vram::Mirroring;
use vstd::prelude::*;

verus! {

/// Bytes of program RAM, at `$6000-$7FFF`.
pub const PRG_RAM_SIZE: usize = 0x2000;

/// Where program RAM starts.
pub const PRG_RAM_START: u16 = 0x6000;

/// The control register at power-on: program mode 3, which fixes the last
/// bank at `$C000`.
pub const CONTROL_AT_POWER_ON: u8 = 0x0C;

/// The registers of the MMC1.
#[derive(Clone, Copy, Debug, PartialEq, Eq, Structural)]
pub struct Registers {
    /// The bits shifted in so far, the first in bit 0.
    pub shift: u8,
    /// How many bits were shifted in, 0 to 4.
    pub count: u8,
    /// Control: mirroring in bits 0 and 1, program mode in bits 2 and 3,
    /// pattern mode in bit 4.
    pub control: u8,
    /// Pattern bank for `$0000`.
    pub chr0: u8,
    /// Pattern bank for `$1000`.
    pub chr1: u8,
    /// Program bank.
    pub prg: u8,
}

impl Registers {
    /// Whether every register is within its five bits and the count within
    /// its range.
    pub open spec fn valid(self) -> bool {
        &&& self.shift < 32
        &&& self.count < 5
        &&& self.shift < pow2(self.count as nat)
        &&& self.control < 32
        &&& self.chr0 < 32
        &&& self.chr1 < 32
        &&& self.prg < 32
    }

    /// The registers at power-on.
    pub open spec fn initial() -> Registers {
        Registers { shift: 0, count: 0, control: CONTROL_AT_POWER_ON, chr0: 0, chr1: 0, prg: 0 }
    }

    /// The registers with `value` in the one that `address` selects by its
    /// bits 13 and 14: control, first pattern bank, second pattern bank,
    /// program bank. The shift register starts over.
    pub open spec fn committed(self, address: u16, value: u8) -> Registers {
        let target = (address / 0x2000) % 4;
        let cleared = Registers { shift: 0, count: 0, ..self };
        if target == 0 {
            Registers { control: value, ..cleared }
        } else if target == 1 {
            Registers { chr0: value, ..cleared }
        } else if target == 2 {
            Registers { chr1: value, ..cleared }
        } else {
            Registers { prg: value, ..cleared }
        }
    }

    /// The registers after a store of `byte` at `address`, which is
    /// `$8000` or above. A byte with bit 7 set starts the shift register
    /// over and sets program mode 3. Any other byte shifts its bit 0 in,
    /// above the bits that came before; the fifth such store commits the
    /// five bits.
    pub open spec fn written(self, address: u16, byte: u8) -> Registers {
        if byte >= 128 {
            Registers { shift: 0, count: 0, control: (self.control % 4 + 12 + (self.control / 16) * 16) as u8, ..self }
        } else {
            let value = (self.shift + (byte % 2) * pow2(self.count as nat)) as u8;
            if self.count == 4 {
                self.committed(address, value)
            } else {
                Registers { shift: value, count: (self.count + 1) as u8, ..self }
            }
        }
    }

    /// Program mode, 0 to 3.
    pub open spec fn prg_mode(self) -> int {
        (self.control as int / 4) % 4
    }

    /// The bank of program memory that the window containing `address`
    /// shows, for `address` from `$8000` on and `banks` banks in all. In
    /// modes 0 and 1 the two windows show a pair of banks, the register's
    /// low bit ignored. In mode 2 the first bank is fixed at `$8000` and
    /// the register selects the bank at `$C000`. In mode 3 the register
    /// selects the bank at `$8000` and the last bank is fixed at `$C000`.
    pub open spec fn prg_bank(self, address: u16, banks: int) -> int {
        let upper = address >= 0xC000;
        let selected = self.prg as int % 16;
        if self.prg_mode() < 2 {
            (selected / 2) * 2 + if upper {
                1int
            } else {
                0int
            }
        } else if self.prg_mode() == 2 {
            if upper {
                selected
            } else {
                0
            }
        } else {
            if upper {
                banks - 1
            } else {
                selected
            }
        }
    }

    /// The mirroring that control bits 0 and 1 select.
    pub open spec fn mirroring(self) -> Mirroring {
        let mode = self.control % 4;
        if mode == 0 {
            Mirroring::OneScreenLow
        } else if mode == 1 {
            Mirroring::OneScreenHigh
        } else if mode == 2 {
            Mirroring::Vertical
        } else {
            Mirroring::Horizontal
        }
    }

    /// What the PPU sees. With control bit 4 clear, pattern memory is
    /// switched 8 KiB at a time by the first bank register, its low bit
    /// ignored; with the bit set, each window has its own register.
    pub open spec fn video_banks(self) -> VideoBanks {
        if (self.control / 16) % 2 == 0 {
            VideoBanks {
                low: ((self.chr0 / 2) * 2) as u8,
                high: ((self.chr0 / 2) * 2 + 1) as u8,
                mirroring: Some(self.mirroring()),
            }
        } else {
            VideoBanks { low: self.chr0, high: self.chr1, mirroring: Some(self.mirroring()) }
        }
    }

    /// The registers at power-on.
    pub fn new() -> (registers: Registers)
        ensures
            registers == Registers::initial(),
            registers.valid(),
    {
        Registers { shift: 0, count: 0, control: CONTROL_AT_POWER_ON, chr0: 0, chr1: 0, prg: 0 }
    }

    /// Stores `byte` at `address` in register space.
    pub fn write(&mut self, address: u16, byte: u8)
        requires
            old(self).valid(),
        ensures
            *final(self) == old(self).written(address, byte),
            final(self).valid(),
    {
        if byte >= 128 {
            self.shift = 0;
            self.count = 0;
            self.control = self.control % 4 + 12 + (self.control / 16) * 16;
        } else {
            let weight: u8 = if self.count == 0 {
                1
            } else if self.count == 1 {
                2
            } else if self.count == 2 {
                4
            } else if self.count == 3 {
                8
            } else {
                16
            };
            let value: u8 = self.shift + (byte % 2) * weight;
            if self.count == 4 {
                let target = (address / 0x2000) % 4;
                if target == 0 {
                    self.control = value;
                } else if target == 1 {
                    self.chr0 = value;
                } else if target == 2 {
                    self.chr1 = value;
                } else {
                    self.prg = value;
                }
                self.shift = 0;
                self.count = 0;
            } else {
                self.shift = value;
                self.count = self.count + 1;
            }
        }
    }

    /// The bank of program memory behind `address`.
    pub fn select_prg_bank(&self, address: u16, banks: usize) -> (bank: usize)
        requires
            1 <= banks <= 256,
        ensures
            bank == self.prg_bank(address, banks as int),
    {
        let upper = address >= 0xC000;
        let selected = (self.prg % 16) as usize;
        let mode = (self.control / 4) % 4;
        if mode < 2 {
            (selected / 2) * 2 + if upper {
                1
            } else {
                0
            }
        } else if mode == 2 {
            if upper {
                selected
            } else {
                0
            }
        } else {
            if upper {
                banks - 1
            } else {
                selected
            }
        }
    }

    /// What the registers show the PPU.
    pub fn select_video_banks(&self) -> (banks: VideoBanks)
        requires
            self.valid(),
        ensures
            banks == self.video_banks(),
    {
        let mode = self.control % 4;
        let mirroring = if mode == 0 {
            Mirroring::OneScreenLow
        } else if mode == 1 {
            Mirroring::OneScreenHigh
        } else if mode == 2 {
            Mirroring::Vertical
        } else {
            Mirroring::Horizontal
        };
        if (self.control / 16) % 2 == 0 {
            VideoBanks { low: (self.chr0 / 2) * 2, high: (self.chr0 / 2) * 2 + 1, mirroring: Some(mirroring) }
        } else {
            VideoBanks { low: self.chr0, high: self.chr1, mirroring: Some(mirroring) }
        }
    }
}

/// A register is committed by exactly five stores without bit 7. From a
/// shift register that has just started over, four such stores commit
/// nothing, and the fifth puts the five low bits, the first store's in bit
/// 0, into the register that its address selects.
pub proof fn lemma_five_writes_commit(
    registers: Registers,
    a0: u16,
    b0: u8,
    a1: u16,
    b1: u8,
    a2: u16,
    b2: u8,
    a3: u16,
    b3: u8,
    a4: u16,
    b4: u8,
)
    requires
        registers.valid(),
        registers.count == 0,
        b0 < 128,
        b1 < 128,
        b2 < 128,
        b3 < 128,
        b4 < 128,
    ensures
        ({
            let one = registers.written(a0, b0);
            let two = one.written(a1, b1);
            let three = two.written(a2, b2);
            let four = three.written(a3, b3);
            let five = four.written(a4, b4);
            let value = (b0 % 2 + 2 * (b1 % 2) + 4 * (b2 % 2) + 8 * (b3 % 2) + 16 * (b4 % 2)) as u8;
            &&& one == (Registers { shift: one.shift, count: 1, ..registers })
            &&& two == (Registers { shift: two.shift, count: 2, ..registers })
            &&& three == (Registers { shift: three.shift, count: 3, ..registers })
            &&& four == (Registers { shift: four.shift, count: 4, ..registers })
            &&& five == registers.committed(a4, value)
            &&& five.count == 0 && five.shift == 0
        }),
{
}

/// A store with bit 7 set starts the shift register over, whatever was
/// shifted in before, and sets program mode 3; the bank registers stay.
pub proof fn lemma_reset_write(registers: Registers, address: u16, byte: u8)
    requires
        registers.valid(),
        byte >= 128,
    ensures
        registers.written(address, byte).count == 0,
        registers.written(address, byte).shift == 0,
        registers.written(address, byte).prg_mode() == 3,
        registers.written(address, byte).control == registers.control | 0x0C,
        registers.written(address, byte).chr0 == registers.chr0,
        registers.written(address, byte).chr1 == registers.chr1,
        registers.written(address, byte).prg == registers.prg,
        registers.written(address, byte).valid(),
{
    let control = registers.control;
    assert(control < 32 ==> (control | 0x0C) == control % 4 + 12 + (control / 16) * 16) by (bit_vector);
}

/// An MMC1 cartridge, as the CPU sees it.
pub struct MMC1 {
    prg: Vec<u8>,
    prg_ram: Vec<u8>,
    registers: Registers,
    /// The CPU cycle of the stores that come in.
    clock: u64,
    /// The CPU cycle of the last store to register space.
    last_write: Option<u64>,
}

/// The model of an MMC1 cartridge.
pub struct Mmc1State {
    pub prg: Seq<u8>,
    pub prg_ram: Seq<u8>,
    pub registers: Registers,
    pub clock: u64,
    pub last_write: Option<u64>,
}

impl Mmc1State {
    /// Whether a store to register space now follows the one before it too
    /// closely: in the same CPU cycle or in the next.
    pub open spec fn too_soon(self) -> bool {
        match self.last_write {
            Some(cycle) => cycle <= self.clock && self.clock - cycle <= 1,
            None => false,
        }
    }

    /// What the cartridge shows the PPU.
    pub open spec fn video_banks(self) -> VideoBanks {
        self.registers.video_banks()
    }
}

impl View for MMC1 {
    type V = Mmc1State;

    closed spec fn view(&self) -> Mmc1State {
        Mmc1State {
            prg: self.prg@,
            prg_ram: self.prg_ram@,
            registers: self.registers,
            clock: self.clock,
            last_write: self.last_write,
        }
    }
}

impl MMC1 {
    #[verifier::type_invariant]
    spec fn well_formed(self) -> bool {
        prg_valid(self.prg@) && self.prg_ram@.len() == PRG_RAM_SIZE && self.registers.valid()
    }

    /// A cartridge at power-on with zeroed program RAM, or nothing if `prg`
    /// is not made of whole banks.
    pub fn new(prg: Vec<u8>) -> (mapper: Option<MMC1>)
        ensures
            match mapper {
                Some(m) => m@ == (Mmc1State {
                    prg: prg@,
                    prg_ram: Seq::new(0x2000, |i: int| 0u8),
                    registers: Registers::initial(),
                    clock: 0,
                    last_write: None,
                }) && prg_valid(prg@),
                None => !prg_valid(prg@),
            },
    {
        if is_prg(&prg) {
            let prg_ram: Vec<u8> = vec![0u8; PRG_RAM_SIZE];
            assert(prg_ram@ =~= Seq::new(0x2000, |i: int| 0u8));
            Some(MMC1 { prg, prg_ram, registers: Registers::new(), clock: 0, last_write: None })
        } else {
            None
        }
    }

    /// The registers.
    pub fn registers(&self) -> (registers: Registers)
        ensures
            registers == self@.registers,
            registers.valid(),
    {
        proof {
            use_type_invariant(self);
        }
        self.registers
    }

    /// What the cartridge shows the PPU.
    pub fn video_banks(&self) -> (banks: VideoBanks)
        ensures
            banks == self@.video_banks(),
    {
        proof {
            use_type_invariant(self);
        }
        self.registers.select_video_banks()
    }

    /// A copy of program RAM, to be kept while the console is off.
    pub fn prg_ram(&self) -> (bytes: Vec<u8>)
        ensures
            bytes@ == self@.prg_ram,
            bytes@.len() == PRG_RAM_SIZE,
    {
        proof {
            use_type_invariant(self);
        }
        let bytes = copy_range(self.prg_ram.as_slice(), 0, PRG_RAM_SIZE);
        bytes
    }

    /// Puts back program RAM that was kept. Bytes that are not 8 KiB are
    /// refused and change nothing.
    pub fn restore_prg_ram(&mut self, bytes: &[u8]) -> (restored: bool)
        ensures
            restored == (bytes@.len() == PRG_RAM_SIZE),
            final(self)@ == if restored {
                Mmc1State { prg_ram: bytes@, ..old(self)@ }
            } else {
                old(self)@
            },
    {
        proof {
            use_type_invariant(&*self);
        }
        if bytes.len() != PRG_RAM_SIZE {
            return false;
        }
        let copy = copy_range(bytes, 0, PRG_RAM_SIZE);
        assert(copy@ =~= bytes@);
        self.prg_ram = copy;
        true
    }

    /// Tells the mapper the CPU cycle at which the stores that follow
    /// happen.
    pub fn set_clock(&mut self, cycle: u64)
        ensures
            final(self)@ == (Mmc1State { clock: cycle, ..old(self)@ }),
    {
        proof {
            use_type_invariant(&*self);
        }
        self.clock = cycle;
    }
}

impl Reader for MMC1 {
    /// `$6000-$7FFF` is program RAM. From `$8000` on, program memory
    /// answers through the two windows that the registers set. Below
    /// `$6000` nothing answers and a load yields 0.
    open spec fn read_spec(state: Mmc1State, address: u16) -> (Mmc1State, u8) {
        if address >= ROM_START {
            (
                state,
                state.prg[prg_index(
                    state.prg,
                    state.registers.prg_bank(address, state.prg.len() as int / 0x4000),
                    address,
                )],
            )
        } else if address >= PRG_RAM_START {
            (state, state.prg_ram[address - PRG_RAM_START])
        } else {
            (state, 0u8)
        }
    }

    fn read(&mut self, address: u16) -> (byte: u8) {
        proof {
            use_type_invariant(&*self);
        }
        if address >= ROM_START {
            let bank = self.registers.select_prg_bank(address, prg_banks(&self.prg));
            prg_byte(&self.prg, bank, address)
        } else if address >= PRG_RAM_START {
            self.prg_ram[(address - PRG_RAM_START) as usize]
        } else {
            0
        }
    }
}

impl Writer for MMC1 {
    /// A store to `$6000-$7FFF` goes to program RAM. A store from `$8000`
    /// on goes to the registers, unless it follows the store before it in
    /// the same or the next CPU cycle: then it is ignored. Either way the
    /// cycle of the store is remembered. Other stores are dropped.
    open spec fn write_spec(state: Mmc1State, address: u16, byte: u8) -> Mmc1State {
        if address >= ROM_START {
            Mmc1State {
                registers: if state.too_soon() {
                    state.registers
                } else {
                    state.registers.written(address, byte)
                },
                last_write: Some(state.clock),
                ..state
            }
        } else if address >= PRG_RAM_START {
            Mmc1State { prg_ram: state.prg_ram.update(address - PRG_RAM_START, byte), ..state }
        } else {
            state
        }
    }

    fn write(&mut self, address: u16, byte: u8) {
        proof {
            use_type_invariant(&*self);
        }
        if address >= ROM_START {
            let too_soon = match self.last_write {
                Some(cycle) => cycle <= self.clock && self.clock - cycle <= 1,
                None => false,
            };
            if !too_soon {
                let mut registers = self.registers;
                registers.write(address, byte);
                self.registers = registers;
            }
            self.last_write = Some(self.clock);
        } else if address >= PRG_RAM_START {
            self.prg_ram[(address - PRG_RAM_START) as usize] = byte;
        }
    }
}

} // verus!
