//! What is mounted on the PPU's bus: pattern memory, which the cartridge
//! banks; the nametables, which it mirrors; and palette RAM.

use crate::emulator::memory::{Reader, Writer};
use vstd::prelude::*;

verus! {

/// Bytes in one nametable.
pub const NAMETABLE_SIZE: usize = 0x400;

/// Bytes of nametable memory in the console: two nametables.
pub const VRAM_SIZE: usize = 0x800;

/// Bytes in one bank of pattern memory.
pub const PATTERN_BANK_SIZE: usize = 0x1000;

/// Bytes of palette RAM.
pub const PALETTE_SIZE: usize = 32;

/// How the four nametables of the address space fold onto the two that the
/// console has.
#[derive(Clone, Copy, Debug, PartialEq, Eq, Structural)]
pub enum Mirroring {
    /// Tables side by side are the same: scrolling is vertical.
    Horizontal,
    /// Tables one above the other are the same: scrolling is horizontal.
    Vertical,
    /// All four are the first table.
    OneScreenLow,
    /// All four are the second table.
    OneScreenHigh,
}

/// Which of the two physical nametables stands behind logical table `table`,
/// 0 to 3.
pub open spec fn physical_table(mirroring: Mirroring, table: int) -> int {
    match mirroring {
        Mirroring::Horizontal => table / 2,
        Mirroring::Vertical => table % 2,
        Mirroring::OneScreenLow => 0,
        Mirroring::OneScreenHigh => 1,
    }
}

/// The byte of nametable memory behind an address. Addresses repeat every
/// `$1000`, so that `$3000-$3EFF` mirrors `$2000-$2EFF`.
pub open spec fn vram_index(mirroring: Mirroring, address: u16) -> int {
    physical_table(mirroring, (address as int % 0x1000) / 0x400) * 0x400 + address as int % 0x400
}

/// The two nametables and the way they are mirrored.
pub struct NameTables {
    vram: Vec<u8>,
    mirroring: Mirroring,
}

/// The model of the nametables.
pub struct NameTablesState {
    pub vram: Seq<u8>,
    pub mirroring: Mirroring,
}

impl View for NameTables {
    type V = NameTablesState;

    closed spec fn view(&self) -> NameTablesState {
        NameTablesState { vram: self.vram@, mirroring: self.mirroring }
    }
}

impl NameTables {
    #[verifier::type_invariant]
    spec fn well_formed(self) -> bool {
        self.vram@.len() == VRAM_SIZE
    }

    /// Zeroed nametables.
    pub fn new(mirroring: Mirroring) -> (tables: NameTables)
        ensures
            tables@ == (NameTablesState { vram: Seq::new(0x800, |i: int| 0u8), mirroring }),
    {
        let vram: Vec<u8> = vec![0u8; VRAM_SIZE];
        assert(vram@ =~= Seq::new(0x800, |i: int| 0u8));
        NameTables { vram, mirroring }
    }

    pub fn mirroring(&self) -> (mirroring: Mirroring)
        ensures
            mirroring == self@.mirroring,
            self@.vram.len() == VRAM_SIZE,
    {
        proof {
            use_type_invariant(self);
        }
        self.mirroring
    }

    /// Changes the mirroring; the memory stays.
    pub fn set_mirroring(&mut self, mirroring: Mirroring)
        ensures
            final(self)@ == (NameTablesState { mirroring, ..old(self)@ }),
    {
        proof {
            use_type_invariant(&*self);
        }
        self.mirroring = mirroring;
    }

    fn index(&self, address: u16) -> (index: usize)
        ensures
            index == vram_index(self@.mirroring, address),
            index < VRAM_SIZE,
    {
        let table = (address % 0x1000) / 0x400;
        let physical: u16 = match self.mirroring {
            Mirroring::Horizontal => table / 2,
            Mirroring::Vertical => table % 2,
            Mirroring::OneScreenLow => 0,
            Mirroring::OneScreenHigh => 1,
        };
        (physical * 0x400 + address % 0x400) as usize
    }
}

impl Reader for NameTables {
    open spec fn read_spec(state: NameTablesState, address: u16) -> (NameTablesState, u8) {
        (state, state.vram[vram_index(state.mirroring, address)])
    }

    fn read(&mut self, address: u16) -> (byte: u8) {
        proof {
            use_type_invariant(&*self);
        }
        let index = self.index(address);
        self.vram[index]
    }
}

impl Writer for NameTables {
    open spec fn write_spec(state: NameTablesState, address: u16, byte: u8) -> NameTablesState {
        NameTablesState { vram: state.vram.update(vram_index(state.mirroring, address), byte), ..state }
    }

    fn write(&mut self, address: u16, byte: u8) {
        proof {
            use_type_invariant(&*self);
        }
        let index = self.index(address);
        self.vram[index] = byte;
    }
}

/// The entry of palette RAM behind an address. The 32 entries repeat through
/// `$3F00-$3FFF`, and the first entry of each sprite palette is that of the
/// background palette of the same number.
pub open spec fn palette_entry(address: u16) -> int {
    if address % 4 == 0 {
        address as int % 16
    } else {
        address as int % 32
    }
}

/// Palette RAM.
pub struct PaletteRam {
    data: Vec<u8>,
}

impl View for PaletteRam {
    type V = Seq<u8>;

    closed spec fn view(&self) -> Seq<u8> {
        self.data@
    }
}

impl PaletteRam {
    #[verifier::type_invariant]
    spec fn well_formed(self) -> bool {
        self.data@.len() == PALETTE_SIZE
    }

    /// Zeroed palette RAM.
    pub fn new() -> (palette: PaletteRam)
        ensures
            palette@ == Seq::new(32, |i: int| 0u8),
    {
        let data: Vec<u8> = vec![0u8; PALETTE_SIZE];
        PaletteRam { data }
    }

    fn index(address: u16) -> (index: usize)
        ensures
            index == palette_entry(address),
            index < PALETTE_SIZE,
    {
        if address % 4 == 0 {
            (address % 16) as usize
        } else {
            (address % 32) as usize
        }
    }
}

impl Reader for PaletteRam {
    open spec fn read_spec(state: Seq<u8>, address: u16) -> (Seq<u8>, u8) {
        (state, state[palette_entry(address)])
    }

    fn read(&mut self, address: u16) -> (byte: u8) {
        proof {
            use_type_invariant(&*self);
        }
        self.data[PaletteRam::index(address)]
    }
}

impl Writer for PaletteRam {
    open spec fn write_spec(state: Seq<u8>, address: u16, byte: u8) -> Seq<u8> {
        state.update(palette_entry(address), byte)
    }

    fn write(&mut self, address: u16, byte: u8) {
        proof {
            use_type_invariant(&*self);
        }
        let index = PaletteRam::index(address);
        self.data[index] = byte;
    }
}

/// Pattern memory: the cartridge's CHR ROM or RAM, seen through two windows
/// of 4 KiB at `$0000` and `$1000`.
pub struct PatternMemory {
    data: Vec<u8>,
    writable: bool,
    /// Which 4 KiB bank each window shows.
    low_bank: usize,
    high_bank: usize,
}

/// The model of pattern memory.
pub struct PatternState {
    pub data: Seq<u8>,
    pub writable: bool,
    pub low_bank: int,
    pub high_bank: int,
}

impl PatternState {
    /// Number of 4 KiB banks.
    pub open spec fn banks(self) -> int {
        self.data.len() as int / 0x1000
    }

    /// Whether the memory is made of whole banks, at least two, and the
    /// windows show banks that exist.
    pub open spec fn valid(self) -> bool {
        &&& self.data.len() % 0x1000 == 0
        &&& self.banks() >= 2
        &&& 0 <= self.low_bank < self.banks()
        &&& 0 <= self.high_bank < self.banks()
    }

    /// The byte of the memory behind an address. Addresses repeat every
    /// `$2000`.
    pub open spec fn index(self, address: u16) -> int {
        if address % 0x2000 < 0x1000 {
            self.low_bank * 0x1000 + address % 0x1000
        } else {
            self.high_bank * 0x1000 + address % 0x1000
        }
    }

    /// The memory with the windows on the banks of the given numbers, which
    /// wrap at the number of banks.
    pub open spec fn selected(self, low: int, high: int) -> PatternState {
        PatternState { low_bank: low % self.banks(), high_bank: high % self.banks(), ..self }
    }
}

impl View for PatternMemory {
    type V = PatternState;

    closed spec fn view(&self) -> PatternState {
        PatternState {
            data: self.data@,
            writable: self.writable,
            low_bank: self.low_bank as int,
            high_bank: self.high_bank as int,
        }
    }
}

impl PatternMemory {
    #[verifier::type_invariant]
    spec fn well_formed(self) -> bool {
        self@.valid()
    }

    /// Pattern memory over `data`, with the windows on banks 0 and 1, or
    /// nothing if `data` is not made of whole banks or holds fewer than two.
    pub fn new(data: Vec<u8>, writable: bool) -> (memory: Option<PatternMemory>)
        ensures
            match memory {
                Some(m) => {
                    &&& m@ == (PatternState { data: data@, writable, low_bank: 0, high_bank: 1 })
                    &&& m@.valid()
                },
                None => data@.len() % 0x1000 != 0 || data@.len() < 0x2000,
            },
    {
        if data.len() % PATTERN_BANK_SIZE != 0 || data.len() < 2 * PATTERN_BANK_SIZE {
            None
        } else {
            Some(PatternMemory { data, writable, low_bank: 0, high_bank: 1 })
        }
    }

    /// 8 KiB of zeroed pattern RAM.
    pub fn ram() -> (memory: PatternMemory)
        ensures
            memory@ == (PatternState {
                data: Seq::new(0x2000, |i: int| 0u8),
                writable: true,
                low_bank: 0,
                high_bank: 1,
            }),
            memory@.valid(),
    {
        let data: Vec<u8> = vec![0u8; 2 * PATTERN_BANK_SIZE];
        assert(data@ =~= Seq::new(0x2000, |i: int| 0u8));
        PatternMemory { data, writable: true, low_bank: 0, high_bank: 1 }
    }

    /// Puts the windows on the banks of the given numbers, which wrap at
    /// the number of banks.
    pub fn select(&mut self, low: u8, high: u8)
        ensures
            final(self)@ == old(self)@.selected(low as int, high as int),
            final(self)@.valid(),
    {
        proof {
            use_type_invariant(&*self);
        }
        let banks = self.data.len() / PATTERN_BANK_SIZE;
        self.low_bank = low as usize % banks;
        self.high_bank = high as usize % banks;
    }

    fn index(&self, address: u16) -> (index: usize)
        ensures
            index == self@.index(address),
            index < self@.data.len(),
    {
        let length = self.data.len();
        proof {
            use_type_invariant(self);
        }
        if address % 0x2000 < 0x1000 {
            self.low_bank * 0x1000 + (address % 0x1000) as usize
        } else {
            self.high_bank * 0x1000 + (address % 0x1000) as usize
        }
    }
}

impl Reader for PatternMemory {
    open spec fn read_spec(state: PatternState, address: u16) -> (PatternState, u8) {
        (state, state.data[state.index(address)])
    }

    fn read(&mut self, address: u16) -> (byte: u8) {
        let index = self.index(address);
        self.data[index]
    }
}

impl Writer for PatternMemory {
    /// A store to pattern ROM is dropped.
    open spec fn write_spec(state: PatternState, address: u16, byte: u8) -> PatternState {
        if state.writable {
            PatternState { data: state.data.update(state.index(address), byte), ..state }
        } else {
            state
        }
    }

    fn write(&mut self, address: u16, byte: u8) {
        proof {
            use_type_invariant(&*self);
        }
        if self.writable {
            let index = self.index(address);
            self.data[index] = byte;
        }
    }
}

/// A device on the PPU's bus.
pub enum VideoDevice {
    Patterns(PatternMemory),
    NameTables(NameTables),
    Palette(PaletteRam),
}

/// The model of a device on the PPU's bus.
pub enum VideoDeviceState {
    Patterns(PatternState),
    NameTables(NameTablesState),
    Palette(Seq<u8>),
}

impl View for VideoDevice {
    type V = VideoDeviceState;

    open spec fn view(&self) -> VideoDeviceState {
        match self {
            VideoDevice::Patterns(device) => VideoDeviceState::Patterns(device@),
            VideoDevice::NameTables(device) => VideoDeviceState::NameTables(device@),
            VideoDevice::Palette(device) => VideoDeviceState::Palette(device@),
        }
    }
}

impl Reader for VideoDevice {
    open spec fn read_spec(state: VideoDeviceState, address: u16) -> (VideoDeviceState, u8) {
        match state {
            VideoDeviceState::Patterns(device) => (
                VideoDeviceState::Patterns(PatternMemory::read_spec(device, address).0),
                PatternMemory::read_spec(device, address).1,
            ),
            VideoDeviceState::NameTables(device) => (
                VideoDeviceState::NameTables(NameTables::read_spec(device, address).0),
                NameTables::read_spec(device, address).1,
            ),
            VideoDeviceState::Palette(device) => (
                VideoDeviceState::Palette(PaletteRam::read_spec(device, address).0),
                PaletteRam::read_spec(device, address).1,
            ),
        }
    }

    fn read(&mut self, address: u16) -> (byte: u8) {
        match self {
            VideoDevice::Patterns(device) => device.read(address),
            VideoDevice::NameTables(device) => device.read(address),
            VideoDevice::Palette(device) => device.read(address),
        }
    }
}

impl Writer for VideoDevice {
    open spec fn write_spec(state: VideoDeviceState, address: u16, byte: u8) -> VideoDeviceState {
        match state {
            VideoDeviceState::Patterns(device) => VideoDeviceState::Patterns(
                PatternMemory::write_spec(device, address, byte),
            ),
            VideoDeviceState::NameTables(device) => VideoDeviceState::NameTables(
                NameTables::write_spec(device, address, byte),
            ),
            VideoDeviceState::Palette(device) => VideoDeviceState::Palette(
                PaletteRam::write_spec(device, address, byte),
            ),
        }
    }

    fn write(&mut self, address: u16, byte: u8) {
        match self {
            VideoDevice::Patterns(device) => device.write(address, byte),
            VideoDevice::NameTables(device) => device.write(address, byte),
            VideoDevice::Palette(device) => device.write(address, byte),
        }
    }
}

} // verus!
