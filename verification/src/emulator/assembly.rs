//! The layout of the console's two buses, and why it lasts: the devices stay
//! in the slots where the console mounts them, whatever the program does.

use crate::emulator::cpu::frame::lemma_step_keeps;
use crate::emulator::cpu::CpuState;
use crate::emulator::io::ports::IoPorts;
use crate::emulator::mappers::{MapperState, VideoBanks};
use crate::emulator::memory::{
    echoes, kept_by_memory, lemma_bus_echoes, lemma_ram_echoes, lemma_route_from, route, Manager, ReadWriter,
    Reader, Writer,
};
use crate::emulator::nes::{
    bus_of, video_bus_of, video_synced, BusState, Device, DeviceState, NesState, VideoBus, VideoBusState,
    CARTRIDGE_SLOT, DOTS_PER_CYCLE, IO_SLOT, NAMETABLE_SLOT, PALETTE_SLOT, PATTERN_SLOT, PPU_SLOT, RAM_SLOT,
};
use crate::emulator::ppu::frame::{lemma_ppu_keeps, lemma_run_from_first};
use crate::emulator::ppu::vram::{Mirroring, PatternState};
use crate::emulator::ppu::{Pixel, PpuState};
use vstd::prelude::*;

verus! {

/// Whether the PPU's bus is laid out as the console builds it: palette RAM
/// at `$3F00-$3FFF` over the nametables at `$2000-$3EFF` over pattern
/// memory at `$0000-$1FFF`.
pub open spec fn video_assembled(bus: VideoBusState) -> bool {
    &&& bus.len() == 3
    &&& bus[PALETTE_SLOT as int].delegate is Palette
    &&& bus[PALETTE_SLOT as int].start_addr == 0x3F00
    &&& bus[PALETTE_SLOT as int].end_addr == 0x3FFF
    &&& bus[NAMETABLE_SLOT as int].delegate is NameTables
    &&& bus[NAMETABLE_SLOT as int].start_addr == 0x2000
    &&& bus[NAMETABLE_SLOT as int].end_addr == 0x3EFF
    &&& bus[PATTERN_SLOT as int].delegate is Patterns
    &&& bus[PATTERN_SLOT as int].start_addr == 0x0000
    &&& bus[PATTERN_SLOT as int].end_addr == 0x1FFF
}

/// Whether the CPU's bus is laid out as the console builds it: the PPU at
/// `$2000-$3FFF`, the ports at `$4000-$4017` and the cartridge at
/// `$4020-$FFFF`, over work RAM that spans the address space; and the PPU's
/// own bus is laid out as built.
pub open spec fn assembled(bus: BusState) -> bool {
    &&& bus.len() == 4
    &&& bus[PPU_SLOT as int].start_addr == 0x2000
    &&& bus[PPU_SLOT as int].end_addr == 0x3FFF
    &&& match bus[PPU_SLOT as int].delegate {
        DeviceState::Ppu(ppu) => video_assembled(ppu.memory),
        _ => false,
    }
    &&& bus[IO_SLOT as int].delegate is Io
    &&& bus[IO_SLOT as int].start_addr == 0x4000
    &&& bus[IO_SLOT as int].end_addr == 0x4017
    &&& bus[CARTRIDGE_SLOT as int].delegate is Cartridge
    &&& bus[CARTRIDGE_SLOT as int].start_addr == 0x4020
    &&& bus[CARTRIDGE_SLOT as int].end_addr == 0xFFFF
    &&& bus[RAM_SLOT as int].start_addr == 0x0000
    &&& bus[RAM_SLOT as int].end_addr == 0xFFFF
    &&& match bus[RAM_SLOT as int].delegate {
        DeviceState::Ram(ram) => ram.len() == 65536,
        _ => false,
    }
}

/// No load or store through the PPU's bus changes its layout.
pub proof fn lemma_video_bus_keeps_layout()
    ensures
        kept_by_memory::<VideoBus>(|bus: VideoBusState| video_assembled(bus)),
{
    assert forall|bus: VideoBusState, address: u16| video_assembled(bus) implies video_assembled(
        (#[trigger] VideoBus::read_spec(bus, address)).0,
    ) by {
        lemma_route_from(bus, address, 0);
    }
    assert forall|bus: VideoBusState, address: u16, byte: u8| video_assembled(bus) implies video_assembled(
        #[trigger] VideoBus::write_spec(bus, address, byte),
    ) by {
        lemma_route_from(bus, address, 0);
    }
}

/// No load or store through the CPU's bus changes its layout, nor that of
/// the PPU's bus behind it.
pub proof fn lemma_bus_keeps_layout()
    ensures
        kept_by_memory::<Manager<Device>>(|bus: BusState| assembled(bus)),
{
    lemma_video_bus_keeps_layout();
    let kept = |bus: VideoBusState| video_assembled(bus);
    assert forall|bus: BusState, address: u16| assembled(bus) implies assembled(
        (#[trigger] Manager::<Device>::read_spec(bus, address)).0,
    ) by {
        lemma_route_from(bus, address, 0);
        match bus[PPU_SLOT as int].delegate {
            DeviceState::Ppu(ppu) => {
                lemma_ppu_keeps(ppu, address, 0, kept);
            },
            _ => {},
        }
    }
    assert forall|bus: BusState, address: u16, byte: u8| assembled(bus) implies assembled(
        #[trigger] Manager::<Device>::write_spec(bus, address, byte),
    ) by {
        lemma_route_from(bus, address, 0);
        match bus[PPU_SLOT as int].delegate {
            DeviceState::Ppu(ppu) => {
                lemma_ppu_keeps(ppu, address, byte, kept);
            },
            _ => {},
        }
    }
}

/// The buses come out of the builder laid out as `assembled` says.
pub proof fn lemma_built_is_assembled(mapper: MapperState, patterns: PatternState, mirroring: Mirroring)
    ensures
        assembled(bus_of(mapper, patterns, mirroring)),
        video_assembled(video_bus_of(patterns, mirroring)),
{
}

/// Setting the PPU's memory as the cartridge asks keeps the layout.
pub proof fn lemma_sync_keeps_layout(bus: VideoBusState, banks: VideoBanks)
    requires
        video_assembled(bus),
    ensures
        video_assembled(video_synced(bus, banks)),
{
}

/// Dots of the PPU keep the layout.
pub proof fn lemma_dots_keep_layout(nes: NesState, count: nat)
    requires
        assembled(nes.cpu.memory),
    ensures
        assembled(nes.dots(count).cpu.memory),
    decreases count,
{
    if count > 0 {
        lemma_video_bus_keeps_layout();
        match nes.ppu() {
            Some(ppu) => {
                lemma_ppu_keeps(ppu, 0, 0, |bus: VideoBusState| video_assembled(bus));
            },
            None => {},
        }
        lemma_dots_keep_layout(nes.dot(), (count - 1) as nat);
    }
}

/// A copy into sprite memory keeps the layout.
pub proof fn lemma_copy_keeps_layout(nes: NesState, page: u8, index: int)
    requires
        assembled(nes.cpu.memory),
    ensures
        assembled(nes.copied(page, index).cpu.memory),
    decreases 256 - index,
{
    if 0 <= index < 256 {
        lemma_bus_keeps_layout();
        let (cpu, byte) = nes.cpu.load((page * 256 + index) as u16);
        let next = NesState { cpu: cpu.store(crate::emulator::nes::OAM_DATA, byte), ..nes };
        lemma_copy_keeps_layout(next, page, index + 1);
    }
}

/// The console stays assembled: a tick leaves every device in its slot. So
/// on a console that is assembled, as `new` builds it, every tick runs the
/// PPU, and the PPU's NMI reaches the CPU.
pub proof fn lemma_tick_keeps_layout(nes: NesState)
    requires
        assembled(nes.cpu.memory),
    ensures
        assembled(nes.tick().0.cpu.memory),
        nes.tick().0.ppu() is Some,
        nes.tick().0.cartridge() is Some,
        nes.tick().0.ports() is Some,
{
    lemma_bus_keeps_layout();
    let clocked = nes.clocked();
    lemma_step_keeps(clocked.cpu, |bus: BusState| assembled(bus));
    let (cpu, result) = clocked.cpu.step();
    let stepped = NesState { cpu, ..clocked };
    match result {
        Ok(cycles) => {
            let (copied, stolen) = stepped.dma();
            match stepped.ports() {
                Some(ports) => match ports.dma_page {
                    Some(page) => {
                        let cleared = stepped.with_ports(IoPorts { dma_page: None, ..ports });
                        lemma_copy_keeps_layout(cleared, page, 0);
                    },
                    None => {},
                },
                None => {},
            }
            let synced = copied.synced();
            match (copied.ppu(), copied.cartridge()) {
                (Some(ppu), Some(mapper)) => {
                    lemma_sync_keeps_layout(ppu.memory, mapper.video_banks());
                },
                _ => {},
            }
            let total = (cycles + stolen) as u64;
            lemma_dots_keep_layout(synced, (DOTS_PER_CYCLE * total) as nat);
        },
        Err(error) => {},
    }
}

/// A reset keeps the layout, so the console that `new` builds is assembled.
pub proof fn lemma_reset_keeps_layout(cpu: CpuState<Manager<Device>>)
    requires
        assembled(cpu.memory),
    ensures
        assembled(cpu.reset().memory),
{
    lemma_bus_keeps_layout();
}

/// On an assembled console the PPU's dots are those of the PPU alone: so
/// many dots of the console leave the PPU where as many dots leave it by
/// itself, and send the video output the pixels that those dots yield.
pub proof fn lemma_dots_are_the_ppus(nes: NesState, count: nat)
    requires
        assembled(nes.cpu.memory),
    ensures
        nes.ppu() is Some,
        nes.dots(count).ppu() == Some(nes.ppu()->Some_0.run(count).0),
        nes.dots(count).emitted == nes.emitted + nes.ppu()->Some_0.run(count).1,
        nes.dots(count).cpu == (CpuState::<Manager<Device>> {
            memory: nes.dots(count).cpu.memory,
            ..nes.cpu
        }),
    decreases count,
{
    let ppu = nes.ppu()->Some_0;
    if count > 0 {
        lemma_dots_keep_layout(nes, 1);
        assert(nes.dots(1) == nes.dot()) by {
            assert(nes.dot().dots(0) == nes.dot());
        }
        lemma_dots_are_the_ppus(nes.dot(), (count - 1) as nat);
        lemma_run_from_first(ppu, (count - 1) as nat);
    }
}

/// On an assembled console the work RAM below the PPU's ports gives back
/// what is stored in it. The stack lies there, so the stack instructions
/// undo each other on the console as they do on plain RAM.
pub proof fn lemma_work_ram_echoes(bus: BusState, address: u16, byte: u8)
    requires
        assembled(bus),
        address < 0x2000,
    ensures
        echoes::<Manager<Device>>(bus, address, byte),
        route(bus, address) == Some(RAM_SLOT as int),
{
    lemma_route_from(bus, address, 0);
    let ram = bus[RAM_SLOT as int].delegate->Ram_0;
    lemma_ram_echoes(ram, address, byte);
    lemma_bus_echoes::<Device>(bus, address, byte);
}

} // verus!
