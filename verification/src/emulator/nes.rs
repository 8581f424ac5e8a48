//! The console: the CPU on its bus, and on that bus the work RAM, the PPU
//! with its own bus, the input and output ports, and the cartridge. `tick`
//! is the clock driver: it runs one CPU instruction and lets the PPU catch
//! up at three dots for each CPU cycle.

use crate::emulator::assembly::{assembled, lemma_built_is_assembled, lemma_reset_keeps_layout, lemma_tick_keeps_layout};
use crate::emulator::cpu::{CpuError, CpuState, CPU};
use crate::emulator::ines::{InvalidROM, RomImage, ROM};
use crate::emulator::io::ports::IoPorts;
use crate::emulator::mappers::cnrom::CnromState;
use crate::emulator::mappers::mmc1::{Mmc1State, Registers};
use crate::emulator::mappers::nrom::NromState;
use crate::emulator::mappers::uxrom::UxromState;
use crate::emulator::mappers::{prg_valid, Mapper, MapperState, VideoBanks, CNROM, MMC1, NROM, UXROM};
use crate::emulator::memory::{Manager, Module, ModuleView, Reader, Writer, RAM};
use crate::emulator::ppu::vram::{
    Mirroring, NameTables, NameTablesState, PaletteRam, PatternMemory, PatternState, VideoDevice, VideoDeviceState,
};
use crate::emulator::ppu::{CoreState, Pixel, PpuState, VideoOut, PPU, VISIBLE_SCANLINES};
use vstd::prelude::*;

verus! {

/// The PPU's bus.
pub type VideoBus = Manager<VideoDevice>;

/// The model of the PPU's bus.
pub type VideoBusState = Seq<ModuleView<VideoDeviceState>>;

/// The model of the CPU's bus.
pub type BusState = Seq<ModuleView<DeviceState>>;

/// Where on the CPU's bus the PPU is mounted, counting from the range
/// mounted last.
pub const PPU_SLOT: usize = 0;

/// Where on the CPU's bus the ports are mounted.
pub const IO_SLOT: usize = 1;

/// Where on the CPU's bus the cartridge is mounted.
pub const CARTRIDGE_SLOT: usize = 2;

/// Where on the CPU's bus the work RAM is mounted.
pub const RAM_SLOT: usize = 3;

/// Where on the PPU's bus palette RAM is mounted.
pub const PALETTE_SLOT: usize = 0;

/// Where on the PPU's bus the nametables are mounted.
pub const NAMETABLE_SLOT: usize = 1;

/// Where on the PPU's bus pattern memory is mounted.
pub const PATTERN_SLOT: usize = 2;

/// The PPU's port for sprite memory, through which a copy goes.
pub const OAM_DATA: u16 = 0x2004;

/// CPU cycles that a copy into sprite memory takes, before the one more
/// that it takes when it starts on an odd cycle.
pub const DMA_CYCLES: u64 = 513;

/// PPU dots in one CPU cycle.
pub const DOTS_PER_CYCLE: u64 = 3;

/// A device on the CPU's bus.
pub enum Device {
    Ram(RAM),
    Ppu(PPU<VideoBus>),
    Cartridge(Mapper),
    Io(IoPorts),
}

/// The model of a device on the CPU's bus.
pub enum DeviceState {
    Ram(Seq<u8>),
    Ppu(PpuState<VideoBus>),
    Cartridge(MapperState),
    Io(IoPorts),
}

impl View for Device {
    type V = DeviceState;

    open spec fn view(&self) -> DeviceState {
        match self {
            Device::Ram(device) => DeviceState::Ram(device@),
            Device::Ppu(device) => DeviceState::Ppu(device@),
            Device::Cartridge(device) => DeviceState::Cartridge(device@),
            Device::Io(device) => DeviceState::Io(device@),
        }
    }
}

impl Reader for Device {
    open spec fn read_spec(state: DeviceState, address: u16) -> (DeviceState, u8) {
        match state {
            DeviceState::Ram(device) => (
                DeviceState::Ram(RAM::read_spec(device, address).0),
                RAM::read_spec(device, address).1,
            ),
            DeviceState::Ppu(device) => (
                DeviceState::Ppu(PPU::<VideoBus>::read_spec(device, address).0),
                PPU::<VideoBus>::read_spec(device, address).1,
            ),
            DeviceState::Cartridge(device) => (
                DeviceState::Cartridge(Mapper::read_spec(device, address).0),
                Mapper::read_spec(device, address).1,
            ),
            DeviceState::Io(device) => (
                DeviceState::Io(IoPorts::read_spec(device, address).0),
                IoPorts::read_spec(device, address).1,
            ),
        }
    }

    fn read(&mut self, address: u16) -> (byte: u8) {
        match self {
            Device::Ram(device) => device.read(address),
            Device::Ppu(device) => device.read(address),
            Device::Cartridge(device) => device.read(address),
            Device::Io(device) => device.read(address),
        }
    }
}

impl Writer for Device {
    open spec fn write_spec(state: DeviceState, address: u16, byte: u8) -> DeviceState {
        match state {
            DeviceState::Ram(device) => DeviceState::Ram(RAM::write_spec(device, address, byte)),
            DeviceState::Ppu(device) => DeviceState::Ppu(PPU::<VideoBus>::write_spec(device, address, byte)),
            DeviceState::Cartridge(device) => DeviceState::Cartridge(Mapper::write_spec(device, address, byte)),
            DeviceState::Io(device) => DeviceState::Io(IoPorts::write_spec(device, address, byte)),
        }
    }

    fn write(&mut self, address: u16, byte: u8) {
        match self {
            Device::Ram(device) => device.write(address, byte),
            Device::Ppu(device) => device.write(address, byte),
            Device::Cartridge(device) => device.write(address, byte),
            Device::Io(device) => device.write(address, byte),
        }
    }
}

/// The PPU's bus with pattern memory and the nametables set as the
/// cartridge asks: the windows on the banks it selects, and the mirroring
/// it selects if it controls the mirroring. A bus on which either is not
/// mounted in its slot keeps that part as it is.
pub open spec fn video_synced(bus: VideoBusState, banks: VideoBanks) -> VideoBusState {
    let patterned = if bus.len() > PATTERN_SLOT {
        match bus[PATTERN_SLOT as int].delegate {
            VideoDeviceState::Patterns(patterns) => bus.update(
                PATTERN_SLOT as int,
                ModuleView {
                    delegate: VideoDeviceState::Patterns(patterns.selected(banks.low as int, banks.high as int)),
                    ..bus[PATTERN_SLOT as int]
                },
            ),
            _ => bus,
        }
    } else {
        bus
    };
    match banks.mirroring {
        Some(mirroring) => if patterned.len() > NAMETABLE_SLOT {
            match patterned[NAMETABLE_SLOT as int].delegate {
                VideoDeviceState::NameTables(tables) => patterned.update(
                    NAMETABLE_SLOT as int,
                    ModuleView {
                        delegate: VideoDeviceState::NameTables(NameTablesState { mirroring, ..tables }),
                        ..patterned[NAMETABLE_SLOT as int]
                    },
                ),
                _ => patterned,
            }
        } else {
            patterned
        },
        None => patterned,
    }
}

/// Sets pattern memory and the nametables as the cartridge asks.
pub fn sync_video(bus: &mut VideoBus, banks: VideoBanks)
    ensures
        final(bus)@ == video_synced(old(bus)@, banks),
{
    if bus.modules.len() > PATTERN_SLOT {
        match &mut bus.modules[PATTERN_SLOT].delegate {
            VideoDevice::Patterns(patterns) => {
                patterns.select(banks.low, banks.high);
            },
            _ => {},
        }
    }
    assert(bus@ =~= video_synced(old(bus)@, VideoBanks { mirroring: None, ..banks }));
    match banks.mirroring {
        Some(mirroring) => {
            if bus.modules.len() > NAMETABLE_SLOT {
                match &mut bus.modules[NAMETABLE_SLOT].delegate {
                    VideoDevice::NameTables(tables) => {
                        tables.set_mirroring(mirroring);
                    },
                    _ => {},
                }
            }
        },
        None => {},
    }
    assert(bus@ =~= video_synced(old(bus)@, banks));
}

/// The console.
pub struct NES<O> {
    pub(crate) cpu: CPU<Manager<Device>>,
    pub(crate) output: O,
    pub(crate) frames: u64,
    pub(crate) has_battery: bool,
}

/// The model of the console.
pub struct NesState {
    pub cpu: CpuState<Manager<Device>>,
    /// Every pixel sent to the video output, oldest first.
    pub emitted: Seq<Pixel>,
    /// Frames completed, wrapping at 64 bits.
    pub frames: u64,
    /// Whether a battery keeps the cartridge's program RAM.
    pub has_battery: bool,
}

impl<O: VideoOut> View for NES<O> {
    type V = NesState;

    closed spec fn view(&self) -> NesState {
        NesState {
            cpu: self.cpu@,
            emitted: self.output.emitted(),
            frames: self.frames,
            has_battery: self.has_battery,
        }
    }
}

impl NesState {
    /// The PPU, if it is mounted in its slot.
    pub open spec fn ppu(self) -> Option<PpuState<VideoBus>> {
        if self.cpu.memory.len() > PPU_SLOT {
            match self.cpu.memory[PPU_SLOT as int].delegate {
                DeviceState::Ppu(ppu) => Some(ppu),
                _ => None,
            }
        } else {
            None
        }
    }

    /// The console with another PPU in the PPU's slot.
    pub open spec fn with_ppu(self, ppu: PpuState<VideoBus>) -> NesState {
        NesState {
            cpu: CpuState {
                memory: self.cpu.memory.update(
                    PPU_SLOT as int,
                    ModuleView { delegate: DeviceState::Ppu(ppu), ..self.cpu.memory[PPU_SLOT as int] },
                ),
                ..self.cpu
            },
            ..self
        }
    }

    /// The cartridge, if it is mounted in its slot.
    pub open spec fn cartridge(self) -> Option<MapperState> {
        if self.cpu.memory.len() > CARTRIDGE_SLOT {
            match self.cpu.memory[CARTRIDGE_SLOT as int].delegate {
                DeviceState::Cartridge(mapper) => Some(mapper),
                _ => None,
            }
        } else {
            None
        }
    }

    /// The ports, if they are mounted in their slot.
    pub open spec fn ports(self) -> Option<IoPorts> {
        if self.cpu.memory.len() > IO_SLOT {
            match self.cpu.memory[IO_SLOT as int].delegate {
                DeviceState::Io(ports) => Some(ports),
                _ => None,
            }
        } else {
            None
        }
    }

    /// The console with other ports in the ports' slot.
    pub open spec fn with_ports(self, ports: IoPorts) -> NesState {
        NesState {
            cpu: CpuState {
                memory: self.cpu.memory.update(
                    IO_SLOT as int,
                    ModuleView { delegate: DeviceState::Io(ports), ..self.cpu.memory[IO_SLOT as int] },
                ),
                ..self.cpu
            },
            ..self
        }
    }

    /// The console with the program RAM that was kept put back into the
    /// cartridge, where the cartridge takes it.
    pub open spec fn restored(self, bytes: Seq<u8>) -> NesState {
        match self.cartridge() {
            Some(mapper) => NesState {
                cpu: CpuState {
                    memory: self.cpu.memory.update(
                        CARTRIDGE_SLOT as int,
                        ModuleView {
                            delegate: DeviceState::Cartridge(mapper.restored(bytes)),
                            ..self.cpu.memory[CARTRIDGE_SLOT as int]
                        },
                    ),
                    ..self.cpu
                },
                ..self
            },
            None => self,
        }
    }

    /// The console after the host reported the buttons held on the two
    /// controllers.
    pub open spec fn pressed(self, first: u8, second: u8) -> NesState {
        match self.ports() {
            Some(ports) => self.with_ports(
                IoPorts { pad1: ports.pad1.pressed(first), pad2: ports.pad2.pressed(second), ..ports },
            ),
            None => self,
        }
    }

    /// The cartridge is told the CPU's cycle count, by which MMC1 tells
    /// stores that follow each other too closely.
    pub open spec fn clocked(self) -> NesState {
        match self.cartridge() {
            Some(mapper) => NesState {
                cpu: CpuState {
                    memory: self.cpu.memory.update(
                        CARTRIDGE_SLOT as int,
                        ModuleView {
                            delegate: DeviceState::Cartridge(mapper.at_cycle(self.cpu.cycles)),
                            ..self.cpu.memory[CARTRIDGE_SLOT as int]
                        },
                    ),
                    ..self.cpu
                },
                ..self
            },
            None => self,
        }
    }

    /// The bytes from `index` on of page `page` are copied to sprite
    /// memory: each is loaded through the bus and stored to the PPU's port
    /// `$2004`.
    pub open spec fn copied(self, page: u8, index: int) -> NesState
        decreases 256 - index,
    {
        if index < 0 || index >= 256 {
            self
        } else {
            let (cpu, byte) = self.cpu.load((page * 256 + index) as u16);
            (NesState { cpu: cpu.store(OAM_DATA, byte), ..self }).copied(page, index + 1)
        }
    }

    /// Cycles that a copy steals from the CPU when it starts at the given
    /// count: 513, and one more from an odd count.
    pub open spec fn dma_cycles(cycles: u64) -> u64 {
        if cycles % 2 == 1 {
            (DMA_CYCLES + 1) as u64
        } else {
            DMA_CYCLES
        }
    }

    /// The copy that a store to `$4014` asked for is made, and the cycles
    /// that it steals from the CPU, which are added to the CPU's count.
    /// Where no copy was asked for nothing happens.
    pub open spec fn dma(self) -> (NesState, u64) {
        match self.ports() {
            Some(ports) => match ports.dma_page {
                Some(page) => {
                    let cleared = self.with_ports(IoPorts { dma_page: None, ..ports });
                    let copied = cleared.copied(page, 0);
                    let stolen = Self::dma_cycles(self.cpu.cycles);
                    (
                        NesState {
                            cpu: CpuState { cycles: copied.cpu.cycles.wrapping_add(stolen), ..copied.cpu },
                            ..copied
                        },
                        stolen,
                    )
                },
                None => (self, 0),
            },
            None => (self, 0),
        }
    }

    /// The PPU's memory is set as the cartridge asks.
    pub open spec fn synced(self) -> NesState {
        match (self.ppu(), self.cartridge()) {
            (Some(ppu), Some(mapper)) => self.with_ppu(
                PpuState { memory: video_synced(ppu.memory, mapper.video_banks()), ..ppu },
            ),
            _ => self,
        }
    }

    /// Whether a position is the one that completes a frame: dot 0 of
    /// scanline 240.
    pub open spec fn completes_frame(ppu: PpuState<VideoBus>) -> bool {
        ppu.core.pos.scanline == VISIBLE_SCANLINES && ppu.core.pos.cycle == 0
    }

    /// One dot of the PPU: its pixel, if it yields one, goes to the video
    /// output, and the frame count goes up when the dot completes a frame.
    pub open spec fn dot(self) -> NesState {
        match self.ppu() {
            Some(ppu) => {
                let (next, pixel) = ppu.tick();
                let moved = self.with_ppu(next);
                NesState {
                    emitted: match pixel {
                        Some(p) => self.emitted.push(p),
                        None => self.emitted,
                    },
                    frames: if Self::completes_frame(next) {
                        self.frames.wrapping_add(1)
                    } else {
                        self.frames
                    },
                    ..moved
                }
            },
            None => self,
        }
    }

    /// So many dots of the PPU.
    pub open spec fn dots(self, count: nat) -> NesState
        decreases count,
    {
        if count == 0 {
            self
        } else {
            self.dot().dots((count - 1) as nat)
        }
    }

    /// The NMI that the PPU has latched goes to the CPU, once.
    pub open spec fn nmi_forwarded(self) -> NesState {
        match self.ppu() {
            Some(ppu) => {
                let (taken, latched) = ppu.take_nmi();
                let moved = self.with_ppu(taken);
                NesState { cpu: CpuState { nmi_pending: moved.cpu.nmi_pending || latched, ..moved.cpu }, ..moved }
            },
            None => self,
        }
    }

    /// One tick of the console, and the CPU cycles it took. The CPU runs
    /// one step. If the step asked for a copy into sprite memory, the copy
    /// is made and its cycles are added. The PPU's memory is set as the
    /// cartridge asks. Then the PPU runs three dots for each cycle taken,
    /// and the NMI that it latched on the way goes to the CPU, which
    /// services it in its next step. A step that the CPU refuses ends the
    /// tick at once.
    pub open spec fn tick(self) -> (NesState, Result<u64, CpuError>) {
        let clocked = self.clocked();
        let (cpu, result) = clocked.cpu.step();
        let stepped = NesState { cpu, ..clocked };
        match result {
            Ok(cycles) => {
                let (copied, stolen) = stepped.dma();
                let total = (cycles + stolen) as u64;
                (copied.synced().dots((DOTS_PER_CYCLE * total) as nat).nmi_forwarded(), Ok(total))
            },
            Err(error) => (stepped, Err(error)),
        }
    }
}

/// The mapper that an image asks for, or why the image is refused: its
/// mapper number is beyond those supported, or its program memory is not of
/// a size that the mapper takes.
pub open spec fn mapper_for(rom: RomImage) -> Result<MapperState, InvalidROM> {
    if rom.mapper_id == 0 {
        if rom.prg.len() == 0x4000 || rom.prg.len() == 0x8000 {
            Ok(MapperState::Nrom(NromState { prg: rom.prg }))
        } else {
            Err(InvalidROM::Truncated)
        }
    } else if rom.mapper_id == 1 {
        if prg_valid(rom.prg) {
            Ok(
                MapperState::Mmc1(
                    Mmc1State {
                        prg: rom.prg,
                        prg_ram: Seq::new(0x2000, |i: int| 0u8),
                        registers: Registers::initial(),
                        clock: 0,
                        last_write: None,
                    },
                ),
            )
        } else {
            Err(InvalidROM::Truncated)
        }
    } else if rom.mapper_id == 2 {
        if prg_valid(rom.prg) {
            Ok(MapperState::Uxrom(UxromState { prg: rom.prg, bank: 0 }))
        } else {
            Err(InvalidROM::Truncated)
        }
    } else if rom.mapper_id == 3 {
        if rom.prg.len() == 0x4000 || rom.prg.len() == 0x8000 {
            Ok(MapperState::Cnrom(CnromState { prg: rom.prg, chr_bank: 0 }))
        } else {
            Err(InvalidROM::Truncated)
        }
    } else {
        Err(InvalidROM::UnsupportedMapper(rom.mapper_id))
    }
}

/// The pattern memory that an image brings: its pattern ROM, or 8 KiB of
/// RAM if it has none. Pattern ROM that is not made of whole banks of 4 KiB
/// is refused.
pub open spec fn patterns_for(rom: RomImage) -> Result<PatternState, InvalidROM> {
    if rom.chr.len() == 0 {
        Ok(PatternState { data: Seq::new(0x2000, |i: int| 0u8), writable: true, low_bank: 0, high_bank: 1 })
    } else if rom.chr.len() % 0x1000 != 0 || rom.chr.len() < 0x2000 {
        Err(InvalidROM::Truncated)
    } else {
        Ok(PatternState { data: rom.chr, writable: false, low_bank: 0, high_bank: 1 })
    }
}

/// The PPU's bus as the console is built: pattern memory at `$0000-$1FFF`,
/// the nametables at `$2000-$3EFF`, palette RAM at `$3F00-$3FFF`.
pub open spec fn video_bus_of(patterns: PatternState, mirroring: Mirroring) -> VideoBusState {
    seq![
        ModuleView {
            delegate: VideoDeviceState::Palette(Seq::new(32, |i: int| 0u8)),
            start_addr: 0x3F00,
            end_addr: 0x3FFF,
        },
        ModuleView {
            delegate: VideoDeviceState::NameTables(
                NameTablesState { vram: Seq::new(0x800, |i: int| 0u8), mirroring },
            ),
            start_addr: 0x2000,
            end_addr: 0x3EFF,
        },
        ModuleView { delegate: VideoDeviceState::Patterns(patterns), start_addr: 0x0000, end_addr: 0x1FFF },
    ]
}

/// The CPU's bus as the console is built: work RAM under everything, the
/// cartridge at `$4020-$FFFF`, the ports at `$4000-$4017`, the PPU at
/// `$2000-$3FFF`.
pub open spec fn bus_of(mapper: MapperState, patterns: PatternState, mirroring: Mirroring) -> BusState {
    seq![
        ModuleView {
            delegate: DeviceState::Ppu(
                PpuState { core: CoreState::initial(), memory: video_bus_of(patterns, mirroring) },
            ),
            start_addr: 0x2000,
            end_addr: 0x3FFF,
        },
        ModuleView { delegate: DeviceState::Io(IoPorts::idle()), start_addr: 0x4000, end_addr: 0x4017 },
        ModuleView { delegate: DeviceState::Cartridge(mapper), start_addr: 0x4020, end_addr: 0xFFFF },
        ModuleView {
            delegate: DeviceState::Ram(Seq::new(65536, |i: int| 0u8)),
            start_addr: 0x0000,
            end_addr: 0xFFFF,
        },
    ]
}

fn build_mapper(mapper_id: u8, prg: Vec<u8>) -> (result: Result<Mapper, InvalidROM>)
    ensures
        match result {
            Ok(mapper) => mapper_for(
                RomImage { mapper_id, prg: prg@, chr: Seq::empty(), mirroring: Mirroring::Horizontal, has_battery: false },
            ) == Ok::<MapperState, InvalidROM>(mapper@),
            Err(error) => mapper_for(
                RomImage { mapper_id, prg: prg@, chr: Seq::empty(), mirroring: Mirroring::Horizontal, has_battery: false },
            ) == Err::<MapperState, InvalidROM>(error),
        },
{
    if mapper_id == 0 {
        match NROM::new(prg) {
            Some(mapper) => Ok(Mapper::Nrom(mapper)),
            None => Err(InvalidROM::Truncated),
        }
    } else if mapper_id == 1 {
        match MMC1::new(prg) {
            Some(mapper) => Ok(Mapper::Mmc1(mapper)),
            None => Err(InvalidROM::Truncated),
        }
    } else if mapper_id == 2 {
        match UXROM::new(prg) {
            Some(mapper) => Ok(Mapper::Uxrom(mapper)),
            None => Err(InvalidROM::Truncated),
        }
    } else if mapper_id == 3 {
        match CNROM::new(prg) {
            Some(mapper) => Ok(Mapper::Cnrom(mapper)),
            None => Err(InvalidROM::Truncated),
        }
    } else {
        Err(InvalidROM::UnsupportedMapper(mapper_id))
    }
}

fn build_patterns(chr: Vec<u8>) -> (result: Result<PatternMemory, InvalidROM>)
    ensures
        match result {
            Ok(patterns) => patterns_for(
                RomImage { mapper_id: 0, prg: Seq::empty(), chr: chr@, mirroring: Mirroring::Horizontal, has_battery: false },
            ) == Ok::<PatternState, InvalidROM>(patterns@),
            Err(error) => patterns_for(
                RomImage { mapper_id: 0, prg: Seq::empty(), chr: chr@, mirroring: Mirroring::Horizontal, has_battery: false },
            ) == Err::<PatternState, InvalidROM>(error),
        },
{
    if chr.len() == 0 {
        Ok(PatternMemory::ram())
    } else {
        match PatternMemory::new(chr, false) {
            Some(patterns) => Ok(patterns),
            None => Err(InvalidROM::Truncated),
        }
    }
}

fn build_video_bus(patterns: PatternMemory, mirroring: Mirroring) -> (bus: VideoBus)
    ensures
        bus@ == video_bus_of(patterns@, mirroring),
{
    let mut modules: Vec<Module<VideoDevice>> = Vec::new();
    modules.push(
        Module { delegate: VideoDevice::Palette(PaletteRam::new()), start_addr: 0x3F00, end_addr: 0x3FFF },
    );
    modules.push(
        Module {
            delegate: VideoDevice::NameTables(NameTables::new(mirroring)),
            start_addr: 0x2000,
            end_addr: 0x3EFF,
        },
    );
    modules.push(Module { delegate: VideoDevice::Patterns(patterns), start_addr: 0x0000, end_addr: 0x1FFF });
    let bus = Manager { modules };
    assert(bus@ =~= video_bus_of(patterns@, mirroring));
    bus
}

fn build_bus(mapper: Mapper, patterns: PatternMemory, mirroring: Mirroring) -> (bus: Manager<Device>)
    ensures
        bus@ == bus_of(mapper@, patterns@, mirroring),
{
    let ppu = PPU::new(build_video_bus(patterns, mirroring));
    let mut modules: Vec<Module<Device>> = Vec::new();
    modules.push(Module { delegate: Device::Ppu(ppu), start_addr: 0x2000, end_addr: 0x3FFF });
    modules.push(Module { delegate: Device::Io(IoPorts::new()), start_addr: 0x4000, end_addr: 0x4017 });
    modules.push(Module { delegate: Device::Cartridge(mapper), start_addr: 0x4020, end_addr: 0xFFFF });
    modules.push(Module { delegate: Device::Ram(RAM::new()), start_addr: 0x0000, end_addr: 0xFFFF });
    let bus = Manager { modules };
    assert(bus@ =~= bus_of(mapper@, patterns@, mirroring));
    bus
}

impl<O: VideoOut> NES<O> {
    /// Builds the console around a cartridge and resets the CPU. The image
    /// is refused if its mapper is not supported or its memories are not of
    /// sizes that the mapper takes; the program memory is looked at first.
    pub fn new(rom: ROM, output: O) -> (result: Result<NES<O>, InvalidROM>)
        ensures
            match result {
                Ok(nes) => {
                    &&& mapper_for(rom@) is Ok
                    &&& patterns_for(rom@) is Ok
                    &&& nes@.cpu == (CpuState::<Manager<Device>> {
                        a: 0,
                        x: 0,
                        y: 0,
                        s: crate::emulator::cpu::RESET_STACK_POINTER,
                        pc: 0,
                        p: crate::emulator::cpu::flags::Flags {
                            c: false,
                            z: false,
                            i: true,
                            d: false,
                            v: false,
                            n: false,
                        },
                        cycles: 0,
                        nmi_pending: false,
                        irq_line: false,
                        decimal_enabled: false,
                        strict: false,
                        memory: bus_of(mapper_for(rom@)->Ok_0, patterns_for(rom@)->Ok_0, rom@.mirroring),
                    }).reset()
                    &&& nes@.emitted == output.emitted()
                    &&& nes@.frames == 0
                    &&& nes@.has_battery == rom@.has_battery
                    &&& assembled(nes@.cpu.memory)
                },
                Err(error) => {
                    ||| mapper_for(rom@) == Err::<MapperState, InvalidROM>(error)
                    ||| mapper_for(rom@) is Ok && patterns_for(rom@) == Err::<PatternState, InvalidROM>(error)
                },
            },
    {
        let mirroring = rom.mirroring;
        let has_battery = rom.has_battery;
        let mapper = match build_mapper(rom.mapper_id, rom.prg) {
            Ok(mapper) => mapper,
            Err(error) => {
                return Err(error);
            },
        };
        let patterns = match build_patterns(rom.chr) {
            Ok(patterns) => patterns,
            Err(error) => {
                return Err(error);
            },
        };
        let mut cpu = CPU::new(build_bus(mapper, patterns, mirroring));
        proof {
            lemma_built_is_assembled(mapper@, patterns@, mirroring);
            lemma_reset_keeps_layout(cpu@);
        }
        cpu.reset();
        Ok(NES { cpu, output, frames: 0, has_battery })
    }

    /// The CPU with its bus, to look at.
    pub fn cpu(&self) -> (cpu: &CPU<Manager<Device>>)
        ensures
            cpu@ == self@.cpu,
    {
        &self.cpu
    }

    /// Loads a byte through the CPU's bus, as the CPU would.
    pub fn load(&mut self, address: u16) -> (byte: u8)
        ensures
            final(self)@ == (NesState { cpu: old(self)@.cpu.load(address).0, ..old(self)@ }),
            byte == old(self)@.cpu.load(address).1,
    {
        self.cpu.load_memory(address)
    }

    /// Stores a byte through the CPU's bus, as the CPU would.
    pub fn store(&mut self, address: u16, byte: u8)
        ensures
            final(self)@ == (NesState { cpu: old(self)@.cpu.store(address, byte), ..old(self)@ }),
    {
        self.cpu.store_memory(address, byte)
    }

    /// The video output.
    pub fn output(&self) -> (output: &O)
        ensures
            output.emitted() == self@.emitted,
    {
        &self.output
    }

    /// Frames completed so far.
    pub fn frames(&self) -> (frames: u64)
        ensures
            frames == self@.frames,
    {
        self.frames
    }

    /// The CPU's cycle count.
    pub fn cycles(&self) -> (cycles: u64)
        ensures
            cycles == self@.cpu.cycles,
    {
        self.cpu.cycles
    }

    /// A copy of the program RAM that a battery keeps, where the cartridge
    /// has a battery and program RAM, to be written out when the console
    /// is switched off.
    pub fn battery_ram(&self) -> (bytes: Option<Vec<u8>>)
        ensures
            match bytes {
                Some(b) => self@.has_battery && self@.cartridge() is Some
                    && self@.cartridge()->Some_0.battery_ram() == Some(b@),
                None => !self@.has_battery || self@.cartridge() is None
                    || self@.cartridge()->Some_0.battery_ram() is None,
            },
    {
        if self.has_battery && self.cpu.memory.modules.len() > CARTRIDGE_SLOT {
            match &self.cpu.memory.modules[CARTRIDGE_SLOT].delegate {
                Device::Cartridge(mapper) => mapper.battery_ram(),
                _ => None,
            }
        } else {
            None
        }
    }

    /// Puts back program RAM that was written out before. Yields whether
    /// the cartridge took it: it has program RAM and the bytes are of its
    /// size.
    pub fn restore_battery_ram(&mut self, bytes: &[u8]) -> (restored: bool)
        ensures
            restored == (old(self)@.cartridge() is Some && old(self)@.cartridge()->Some_0.battery_ram() is Some
                && bytes@.len() == crate::emulator::mappers::mmc1::PRG_RAM_SIZE),
            final(self)@ == old(self)@.restored(bytes@),
    {
        let mut restored = false;
        if self.cpu.memory.modules.len() > CARTRIDGE_SLOT {
            match &mut self.cpu.memory.modules[CARTRIDGE_SLOT].delegate {
                Device::Cartridge(mapper) => {
                    restored = mapper.restore_battery_ram(bytes);
                },
                _ => {},
            }
        }
        assert(self@.cpu.memory =~= old(self)@.restored(bytes@).cpu.memory);
        restored
    }

    /// Reports the buttons that are held on the two controllers.
    pub fn set_buttons(&mut self, first: u8, second: u8)
        ensures
            final(self)@ == old(self)@.pressed(first, second),
    {
        if self.cpu.memory.modules.len() > IO_SLOT {
            match &mut self.cpu.memory.modules[IO_SLOT].delegate {
                Device::Io(ports) => {
                    ports.pad1.press(first);
                    ports.pad2.press(second);
                },
                _ => {},
            }
        }
        assert(self@.cpu.memory =~= old(self)@.pressed(first, second).cpu.memory);
    }

    fn clock_cartridge(&mut self)
        ensures
            final(self)@ == old(self)@.clocked(),
    {
        let cycles = self.cpu.cycles;
        if self.cpu.memory.modules.len() > CARTRIDGE_SLOT {
            match &mut self.cpu.memory.modules[CARTRIDGE_SLOT].delegate {
                Device::Cartridge(mapper) => {
                    mapper.set_clock(cycles);
                },
                _ => {},
            }
        }
        assert(self@.cpu.memory =~= old(self)@.clocked().cpu.memory);
    }

    fn take_dma_page(&mut self) -> (page: Option<u8>)
        ensures
            match old(self)@.ports() {
                Some(ports) => {
                    &&& page == ports.dma_page
                    &&& final(self)@ == if ports.dma_page is Some {
                        old(self)@.with_ports(IoPorts { dma_page: None, ..ports })
                    } else {
                        old(self)@
                    }
                },
                None => page is None && final(self)@ == old(self)@,
            },
    {
        let mut page: Option<u8> = None;
        if self.cpu.memory.modules.len() > IO_SLOT {
            match &mut self.cpu.memory.modules[IO_SLOT].delegate {
                Device::Io(ports) => {
                    page = ports.dma_page;
                    ports.dma_page = None;
                },
                _ => {},
            }
        }
        assert(self@.cpu.memory =~= match old(self)@.ports() {
            Some(ports) => if ports.dma_page is Some {
                old(self)@.with_ports(IoPorts { dma_page: None, ..ports })
            } else {
                old(self)@
            },
            None => old(self)@,
        }.cpu.memory);
        page
    }

    fn copy_page(&mut self, page: u8)
        ensures
            final(self)@ == old(self)@.copied(page, 0),
    {
        let ghost start = self@;
        let base: u16 = (page as u16) * 256;
        let mut index: u16 = 0;
        while index < 256
            invariant
                index <= 256,
                base == page * 256,
                start.copied(page, 0) == self@.copied(page, index as int),
            decreases 256 - index,
        {
            let byte = self.cpu.load_memory(base + index);
            self.cpu.store_memory(OAM_DATA, byte);
            index += 1;
        }
    }

    fn run_dma(&mut self) -> (stolen: u64)
        ensures
            (final(self)@, stolen) == old(self)@.dma(),
            stolen <= DMA_CYCLES + 1,
    {
        let cycles = self.cpu.cycles;
        match self.take_dma_page() {
            Some(page) => {
                self.copy_page(page);
                let stolen: u64 = if cycles % 2 == 1 {
                    DMA_CYCLES + 1
                } else {
                    DMA_CYCLES
                };
                self.cpu.cycles = self.cpu.cycles.wrapping_add(stolen);
                stolen
            },
            None => 0,
        }
    }

    fn sync(&mut self)
        ensures
            final(self)@ == old(self)@.synced(),
    {
        let mut wanted: Option<VideoBanks> = None;
        if self.cpu.memory.modules.len() > CARTRIDGE_SLOT {
            match &self.cpu.memory.modules[CARTRIDGE_SLOT].delegate {
                Device::Cartridge(mapper) => {
                    wanted = Some(mapper.video_banks());
                },
                _ => {},
            }
        }
        match wanted {
            Some(banks) => {
                match &mut self.cpu.memory.modules[PPU_SLOT].delegate {
                    Device::Ppu(ppu) => {
                        sync_video(ppu.memory_mut(), banks);
                    },
                    _ => {},
                }
            },
            None => {},
        }
        assert(self@.cpu.memory =~= old(self)@.synced().cpu.memory);
    }

    fn tick_ppu(&mut self)
        ensures
            final(self)@ == old(self)@.dot(),
    {
        if self.cpu.memory.modules.len() > PPU_SLOT {
            match &mut self.cpu.memory.modules[PPU_SLOT].delegate {
                Device::Ppu(ppu) => {
                    ppu.tick(&mut self.output);
                    if ppu.scanline() == 240 && ppu.cycle() == 0 {
                        self.frames = self.frames.wrapping_add(1);
                    }
                },
                _ => {},
            }
        }
        assert(self@.cpu.memory =~= old(self)@.dot().cpu.memory);
    }

    fn run_ppu(&mut self, count: u64)
        ensures
            final(self)@ == old(self)@.dots(count as nat),
    {
        let ghost start = self@;
        let mut left: u64 = count;
        while left > 0
            invariant
                start.dots(count as nat) == self@.dots(left as nat),
            decreases left,
        {
            self.tick_ppu();
            left -= 1;
        }
    }

    fn forward_nmi(&mut self)
        ensures
            final(self)@ == old(self)@.nmi_forwarded(),
    {
        let mut latched = false;
        if self.cpu.memory.modules.len() > PPU_SLOT {
            match &mut self.cpu.memory.modules[PPU_SLOT].delegate {
                Device::Ppu(ppu) => {
                    latched = ppu.take_nmi();
                },
                _ => {},
            }
        }
        if latched {
            self.cpu.trigger_nmi();
        }
        assert(self@.cpu.memory =~= old(self)@.nmi_forwarded().cpu.memory);
    }

    /// Runs the console for one CPU step and yields the CPU cycles taken,
    /// after letting the PPU run three dots for each of them.
    pub fn tick(&mut self) -> (result: Result<u64, CpuError>)
        ensures
            (final(self)@, result) == old(self)@.tick(),
            assembled(old(self)@.cpu.memory) ==> assembled(final(self)@.cpu.memory),
    {
        proof {
            if assembled(self@.cpu.memory) {
                lemma_tick_keeps_layout(self@);
            }
        }
        self.clock_cartridge();
        let cycles = match self.cpu.step() {
            Ok(cycles) => cycles as u64,
            Err(error) => {
                return Err(error);
            },
        };
        proof {
            crate::emulator::cpu::lemma_step_cycles(old(self)@.clocked().cpu);
        }
        let stolen = self.run_dma();
        let total: u64 = cycles + stolen;
        self.sync();
        self.run_ppu(DOTS_PER_CYCLE * total);
        self.forward_nmi();
        Ok(total)
    }
}

} // verus!
