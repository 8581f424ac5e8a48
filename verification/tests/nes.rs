use mos_6500::emulator::ines::{parse, InvalidROM, ROM};
use mos_6500::emulator::io::ports::{IoPorts, Joypad};
use mos_6500::emulator::io::video::SimpleVideoOut;
use mos_6500::emulator::cpu::CPU;
use mos_6500::emulator::memory::{Reader, Writer, RAM};
use mos_6500::emulator::ppu::PPU;
use mos_6500::emulator::ppu::vram::Mirroring;
use mos_6500::emulator::clock::{measured_hz, Pacer, BATCH_SIZE};
use mos_6500::emulator::io::event::{Event, Key};
use mos_6500::emulator::NES;
use mos_6500::ui::controller::{Action, Controller};

fn cartridge(program: &[u8]) -> ROM {
    let mut prg = vec![0xEAu8; 0x4000];
    for (i, byte) in program.iter().enumerate() {
        prg[i] = *byte;
    }
    prg[0x3F00] = 0x40;
    prg[0x3FFA] = 0x00;
    prg[0x3FFB] = 0x90;
    prg[0x3FFC] = 0x00;
    prg[0x3FFD] = 0x80;
    prg[0x3FFE] = 0x00;
    prg[0x3FFF] = 0xBF;
    ROM { mapper_id: 0, prg, chr: Vec::new(), mirroring: Mirroring::Vertical, has_battery: false }
}

#[test]
fn console_resets_into_the_cartridge() {
    let nes = NES::new(cartridge(&[]), SimpleVideoOut::new()).ok().unwrap();
    assert_eq!(nes.cpu().pc, 0x8000);
    assert_eq!(nes.cpu().s, 0xFD);
    assert_eq!(nes.cycles(), 0);
    assert_eq!(nes.frames(), 0);
}

#[test]
fn tick_runs_the_ppu_three_dots_per_cycle() {
    let mut nes = NES::new(cartridge(&[0xA9, 0x01, 0x8D, 0x00, 0x02]), SimpleVideoOut::new()).ok().unwrap();
    assert_eq!(nes.tick(), Ok(2));
    assert_eq!(nes.output().count(), 5);
    assert_eq!(nes.tick(), Ok(4));
    assert_eq!(nes.output().count(), 17);
    assert_eq!(nes.cycles(), 6);
    assert_eq!(nes.load(0x0200), 0x01);
    assert_eq!(nes.cpu().a, 0x01);
}

#[test]
fn ppu_vblank_nmi() {
    let program = [0xA9, 0x80, 0x8D, 0x00, 0x20, 0x4C, 0x05, 0x80];
    let mut nes = NES::new(cartridge(&program), SimpleVideoOut::new()).ok().unwrap();
    let mut ticks = 0;
    while !nes.cpu().nmi_pending {
        nes.tick().unwrap();
        ticks += 1;
        assert!(ticks < 20000);
    }
    let dots = 3 * nes.cycles();
    assert!(dots > 241 * 341 + 1);
    assert!(dots <= 241 * 341 + 1 + 9);
    assert_eq!(nes.cpu().pc, 0x8005);
    let status = nes.cpu().p.to_byte(false);
    assert_eq!(nes.tick(), Ok(7));
    assert_eq!(nes.cpu().pc, 0x9000);
    assert!(!nes.cpu().nmi_pending);
    assert!(nes.cpu().p.i);
    assert_eq!(nes.cpu().s, 0xFA);
    assert_eq!(nes.load(0x01FD), 0x80);
    assert_eq!(nes.load(0x01FC), 0x05);
    assert_eq!(nes.load(0x01FB), status);
    assert_eq!(status & 0x10, 0);
    assert_eq!(status & 0x20, 0x20);
    nes.tick().unwrap();
    assert!(!nes.cpu().nmi_pending);
}

#[test]
fn reading_status_before_service_suppresses_nmi() {
    let mut ram = RAM::new();
    ram.write(0xFFFC, 0x00);
    ram.write(0xFFFD, 0x80);
    ram.write(0xFFFA, 0x00);
    ram.write(0xFFFB, 0x90);
    ram.write(0x8000, 0xEA);
    let mut cpu = CPU::new(ram);
    cpu.reset();
    let mut ppu = PPU::new(RAM::new());
    ppu.write(0x2000, 0x80);
    let mut out = SimpleVideoOut::new();
    for _ in 0..(241 * 341 + 2) {
        ppu.tick(&mut out);
    }
    assert!(ppu.registers().nmi);
    assert_eq!(ppu.read(0x2002), 0x80);
    if ppu.take_nmi() {
        cpu.trigger_nmi();
    }
    assert_eq!(cpu.step(), Ok(2));
    assert_eq!(cpu.pc, 0x8001);

    for _ in 0..(341 * 262) {
        ppu.tick(&mut out);
    }
    if ppu.take_nmi() {
        cpu.trigger_nmi();
    }
    assert_eq!(cpu.step(), Ok(7));
    assert_eq!(cpu.pc, 0x9000);
    if ppu.take_nmi() {
        cpu.trigger_nmi();
    }
    assert!(!cpu.nmi_pending);
}

#[test]
fn frames_are_counted_at_scanline_240() {
    let mut nes = NES::new(cartridge(&[0x4C, 0x00, 0x80]), SimpleVideoOut::new()).ok().unwrap();
    while 3 * nes.cycles() < 240 * 341 {
        assert_eq!(nes.frames(), 0);
        nes.tick().unwrap();
    }
    assert_eq!(nes.frames(), 1);
    assert_eq!(nes.output().count(), 61440);
    while 3 * nes.cycles() < 240 * 341 + 341 * 262 {
        assert_eq!(nes.frames(), 1);
        nes.tick().unwrap();
    }
    assert_eq!(nes.frames(), 2);
    assert_eq!(nes.output().count(), 2 * 61440);
}

#[test]
fn oam_dma_copies_a_page_and_steals_cycles() {
    let program = [0xA9, 0x02, 0x8D, 0x14, 0x40, 0xEA];
    let mut nes = NES::new(cartridge(&program), SimpleVideoOut::new()).ok().unwrap();
    for i in 0..=255u16 {
        nes.store(0x0200 + i, i as u8 ^ 0x5A);
    }
    assert_eq!(nes.tick(), Ok(2));
    assert_eq!(nes.tick(), Ok(4 + 513));
    assert_eq!(nes.cycles(), 519);
    nes.store(0x2003, 0x00);
    assert_eq!(nes.load(0x2004), 0x5A);
    nes.store(0x2003, 0x10);
    assert_eq!(nes.load(0x2004), 0x10 ^ 0x5A);
    nes.store(0x2003, 0xFF);
    assert_eq!(nes.load(0x2004), 0xFF ^ 0x5A);
    assert_eq!(nes.tick(), Ok(2));
}

#[test]
fn oam_dma_takes_one_more_cycle_from_an_odd_count() {
    let program = [0xA5, 0x00, 0xA9, 0x02, 0x8D, 0x14, 0x40];
    let mut nes = NES::new(cartridge(&program), SimpleVideoOut::new()).ok().unwrap();
    assert_eq!(nes.tick(), Ok(3));
    assert_eq!(nes.tick(), Ok(2));
    assert_eq!(nes.tick(), Ok(4 + 514));
}

#[test]
fn controller_is_read_through_the_port() {
    let mut nes = NES::new(cartridge(&[]), SimpleVideoOut::new()).ok().unwrap();
    nes.set_buttons(0b1000_0101, 0b0000_0010);
    nes.store(0x4016, 1);
    nes.store(0x4016, 0);
    let mut first = 0u8;
    let mut second = 0u8;
    for bit in 0..8 {
        first |= nes.load(0x4016) << bit;
        second |= nes.load(0x4017) << bit;
    }
    assert_eq!(first, 0b1000_0101);
    assert_eq!(second, 0b0000_0010);
    assert_eq!(nes.load(0x4016), 1);
}

#[test]
fn joypad_strobe() {
    let mut pad = Joypad::new();
    pad.press(0x03);
    pad.write_strobe(1);
    assert_eq!(pad.read_button(), 1);
    assert_eq!(pad.read_button(), 1);
    pad.press(0x02);
    assert_eq!(pad.read_button(), 0);
    pad.write_strobe(0);
    assert_eq!(pad.read_button(), 0);
    assert_eq!(pad.read_button(), 1);
    assert_eq!(pad.read_button(), 0);
    let mut ports = IoPorts::new();
    ports.write(0x4014, 0x07);
    assert_eq!(ports.dma_page, Some(0x07));
    ports.write(0x4015, 0xFF);
    assert_eq!(ports.read(0x4015), 0);
}

#[test]
fn cartridge_pattern_ram_is_reached_through_the_ppu_port() {
    let mut nes = NES::new(cartridge(&[]), SimpleVideoOut::new()).ok().unwrap();
    nes.store(0x2006, 0x00);
    nes.store(0x2006, 0x10);
    nes.store(0x2007, 0xAB);
    nes.store(0x2006, 0x24);
    nes.store(0x2006, 0x00);
    nes.store(0x2007, 0xCD);
    nes.store(0x2006, 0x3F);
    nes.store(0x2006, 0x10);
    nes.store(0x2007, 0x2A);
    nes.store(0x2006, 0x00);
    nes.store(0x2006, 0x10);
    nes.load(0x2007);
    assert_eq!(nes.load(0x2007), 0xAB);
    nes.store(0x2006, 0x2C);
    nes.store(0x2006, 0x00);
    nes.load(0x2007);
    assert_eq!(nes.load(0x2007), 0xCD);
    nes.store(0x2006, 0x3F);
    nes.store(0x2006, 0x00);
    assert_eq!(nes.load(0x2007), 0x2A);
}

#[test]
fn cnrom_bank_switch_reaches_the_ppu_at_the_tick() {
    let mut prg = vec![0xEAu8; 0x4000];
    let program = [0xA9, 0x01, 0x8D, 0x00, 0x80, 0x4C, 0x05, 0x80];
    for (i, byte) in program.iter().enumerate() {
        prg[i] = *byte;
    }
    prg[0x3FFC] = 0x00;
    prg[0x3FFD] = 0x80;
    let mut chr = vec![0u8; 0x4000];
    chr[0x0000] = 0x11;
    chr[0x2000] = 0x22;
    let rom = ROM { mapper_id: 3, prg, chr, mirroring: Mirroring::Horizontal, has_battery: false };
    let mut nes = NES::new(rom, SimpleVideoOut::new()).ok().unwrap();
    nes.store(0x2006, 0x00);
    nes.store(0x2006, 0x00);
    nes.load(0x2007);
    assert_eq!(nes.load(0x2007), 0x11);
    nes.tick().unwrap();
    nes.tick().unwrap();
    nes.store(0x2006, 0x00);
    nes.store(0x2006, 0x00);
    nes.load(0x2007);
    assert_eq!(nes.load(0x2007), 0x22);
}

#[test]
fn images_are_refused_for_their_mapper_or_their_sizes() {
    let mut rom = cartridge(&[]);
    rom.mapper_id = 4;
    assert_eq!(NES::new(rom, SimpleVideoOut::new()).err(), Some(InvalidROM::UnsupportedMapper(4)));
    let mut rom = cartridge(&[]);
    rom.prg = vec![0u8; 0x3000];
    assert_eq!(NES::new(rom, SimpleVideoOut::new()).err(), Some(InvalidROM::Truncated));
    let mut rom = cartridge(&[]);
    rom.chr = vec![0u8; 0x1000];
    assert_eq!(NES::new(rom, SimpleVideoOut::new()).err(), Some(InvalidROM::Truncated));
    let mut rom = cartridge(&[]);
    rom.mapper_id = 2;
    rom.prg = vec![0u8; 0x20000];
    assert!(NES::new(rom, SimpleVideoOut::new()).is_ok());
    let mut rom = cartridge(&[]);
    rom.mapper_id = 1;
    assert!(NES::new(rom, SimpleVideoOut::new()).is_ok());
}

fn image(prg_units: u8, chr_units: u8, flags6: u8, flags7: u8, trainer: bool) -> Vec<u8> {
    let mut bytes = vec![0x4E, 0x45, 0x53, 0x1A, prg_units, chr_units, flags6, flags7];
    bytes.extend_from_slice(&[0u8; 8]);
    if trainer {
        bytes.extend_from_slice(&[0xEEu8; 512]);
    }
    for unit in 0..prg_units {
        bytes.extend_from_slice(&vec![0x10 + unit; 16384]);
    }
    for unit in 0..chr_units {
        bytes.extend_from_slice(&vec![0x80 + unit; 8192]);
    }
    bytes
}

#[test]
fn ines_header_is_parsed() {
    let rom = parse(&image(2, 1, 0x13, 0x00, false)).ok().unwrap();
    assert_eq!(rom.mapper_id, 1);
    assert_eq!(rom.prg.len(), 32768);
    assert_eq!(rom.chr.len(), 8192);
    assert_eq!(rom.prg[0], 0x10);
    assert_eq!(rom.prg[16384], 0x11);
    assert_eq!(rom.chr[0], 0x80);
    assert_eq!(rom.mirroring, Mirroring::Vertical);
    assert!(rom.has_battery);
    let rom = parse(&image(1, 0, 0x24, 0x00, true)).ok().unwrap();
    assert_eq!(rom.mapper_id, 2);
    assert_eq!(rom.prg.len(), 16384);
    assert_eq!(rom.prg[0], 0x10);
    assert_eq!(rom.chr.len(), 0);
    assert_eq!(rom.mirroring, Mirroring::Horizontal);
    assert!(!rom.has_battery);
}

#[test]
fn ines_errors() {
    assert_eq!(parse(&[0x4E, 0x45, 0x53]).err(), Some(InvalidROM::Truncated));
    let mut bad = image(1, 1, 0, 0, false);
    bad[3] = 0x00;
    assert_eq!(parse(&bad).err(), Some(InvalidROM::BadMagic));
    assert_eq!(parse(&image(1, 1, 0x40, 0x00, false)).err(), Some(InvalidROM::UnsupportedMapper(4)));
    assert_eq!(parse(&image(1, 1, 0x10, 0x10, false)).err(), Some(InvalidROM::UnsupportedMapper(0x11)));
    let mut short = image(1, 1, 0, 0, false);
    short.pop();
    assert_eq!(parse(&short).err(), Some(InvalidROM::Truncated));
    assert_eq!(parse(&image(0, 1, 0, 0, false)).err(), Some(InvalidROM::Truncated));
    let mut no_trainer = image(1, 0, 0x04, 0, false);
    assert_eq!(parse(&no_trainer).err(), Some(InvalidROM::Truncated));
    no_trainer.extend_from_slice(&[0u8; 512]);
    assert!(parse(&no_trainer).is_ok());
}

#[test]
fn parsed_image_boots() {
    let mut bytes = image(1, 1, 0x00, 0x00, false);
    bytes[16 + 0x3FFC] = 0x34;
    bytes[16 + 0x3FFD] = 0x92;
    let rom = parse(&bytes).ok().unwrap();
    let nes = NES::new(rom, SimpleVideoOut::new()).ok().unwrap();
    assert_eq!(nes.cpu().pc, 0x9234);
}

#[test]
fn controller_follows_keys() {
    let nes = NES::new(cartridge(&[]), SimpleVideoOut::new()).ok().unwrap();
    let mut controller = Controller::new(nes);
    assert!(!controller.is_running());
    assert!(!controller.is_tracing());
    assert!(!controller.show_debug());
    assert_eq!(controller.target_hz(), 21_477_272);
    controller.start();
    assert!(controller.is_running());
    assert_eq!(controller.handle_event(Event::KeyDown(Key::Tab)), Action::StartTracing);
    assert!(controller.is_tracing());
    assert_eq!(controller.handle_event(Event::KeyDown(Key::Return)), Action::FlushTrace);
    assert_eq!(controller.handle_event(Event::KeyDown(Key::Tab)), Action::StopTracing);
    assert!(!controller.is_tracing());
    assert_eq!(controller.handle_event(Event::KeyDown(Key::Backquote)), Action::Nothing);
    assert!(controller.show_debug());
    let speeds = [
        (Key::Num1, 0),
        (Key::Num2, 20_000),
        (Key::Num3, 200_000),
        (Key::Num4, 2_000_000),
        (Key::Num5, 10_000_000),
        (Key::Num6, 21_477_272),
        (Key::Num7, 42_954_544),
        (Key::Num8, 64_431_816),
        (Key::Num9, 85_909_088),
        (Key::Num0, 107_386_360),
    ];
    for (key, hz) in speeds {
        assert_eq!(controller.handle_event(Event::KeyDown(key)), Action::Nothing);
        assert_eq!(controller.target_hz(), hz);
    }
    assert_eq!(controller.handle_event(Event::KeyUp(Key::Escape)), Action::Nothing);
    assert_eq!(controller.handle_event(Event::Quit), Action::Nothing);
    assert_eq!(controller.handle_event(Event::KeyDown(Key::Minus)), Action::Nothing);
    assert!(controller.is_running());
    assert_eq!(controller.target_hz(), 107_386_360);
    assert_eq!(controller.tick(), Ok(2));
    assert_eq!(controller.nes().cycles(), 2);
    controller.set_buttons(1, 0);
    assert_eq!(controller.handle_event(Event::KeyDown(Key::Escape)), Action::Nothing);
    assert!(!controller.is_running());
}

#[test]
fn pacing_carries_excess_cycles_over() {
    assert!(Pacer::new(0).is_none());
    let mut pacer = Pacer::new(30).unwrap();
    assert_eq!(pacer.frames_per_second(), 30);
    assert_eq!(pacer.frame_time_ns(), 33_333_333);
    assert_eq!(pacer.budget(21_477_272), 715_909);
    assert!(pacer.runs_on(0, 715_909, 0));
    assert!(!pacer.runs_on(715_909, 715_909, 0));
    assert!(!pacer.runs_on(0, 715_909, 33_333_333));
    assert_eq!(pacer.finish_frame(716_000, 715_909, 20_000_000), 13_333_333);
    assert_eq!(pacer.overflow_cycles(), 91);
    assert_eq!(pacer.budget(21_477_272), 715_818);
    assert_eq!(pacer.finish_frame(700_000, 715_818, 40_000_000), 0);
    assert_eq!(pacer.overflow_cycles(), 0);
    assert_eq!(pacer.finish_frame(1_000, 0, 0), 33_333_333);
    assert_eq!(pacer.budget(0), 0);
    assert_eq!(pacer.budget(30_000), 0);
    assert_eq!(measured_hz(21_477_272, 1_000_000_000), 21_477_272);
    assert_eq!(measured_hz(1_000, 500), 2_000_000_000);
    assert_eq!(measured_hz(u64::MAX, 1), u64::MAX);
    assert_eq!(BATCH_SIZE, 99);
}

#[test]
fn battery_ram_is_kept_and_put_back() {
    let mut rom = cartridge(&[]);
    rom.mapper_id = 1;
    rom.has_battery = true;
    let mut nes = NES::new(rom, SimpleVideoOut::new()).ok().unwrap();
    nes.store(0x6000, 0x42);
    nes.store(0x7FFF, 0x24);
    let kept = nes.battery_ram().unwrap();
    assert_eq!(kept.len(), 8192);
    assert_eq!(kept[0], 0x42);
    assert_eq!(kept[8191], 0x24);

    let mut rom = cartridge(&[]);
    rom.mapper_id = 1;
    rom.has_battery = true;
    let mut fresh = NES::new(rom, SimpleVideoOut::new()).ok().unwrap();
    assert_eq!(fresh.load(0x6000), 0);
    assert!(!fresh.restore_battery_ram(&kept[1..]));
    assert_eq!(fresh.load(0x6000), 0);
    assert!(fresh.restore_battery_ram(&kept));
    assert_eq!(fresh.load(0x6000), 0x42);
    assert_eq!(fresh.load(0x7FFF), 0x24);

    let mut rom = cartridge(&[]);
    rom.mapper_id = 1;
    let no_battery = NES::new(rom, SimpleVideoOut::new()).ok().unwrap();
    assert!(no_battery.battery_ram().is_none());
    let mut plain = NES::new(cartridge(&[]), SimpleVideoOut::new()).ok().unwrap();
    assert!(plain.battery_ram().is_none());
    assert!(!plain.restore_battery_ram(&kept));
}

#[test]
fn work_ram_echoes_on_the_console() {
    let mut nes = NES::new(cartridge(&[]), SimpleVideoOut::new()).ok().unwrap();
    for address in [0x0000u16, 0x00FF, 0x0100, 0x01FF, 0x07FF, 0x1FFF] {
        nes.store(address, (address & 0xFF) as u8 ^ 0xA5);
        assert_eq!(nes.load(address), (address & 0xFF) as u8 ^ 0xA5);
    }
    nes.store(0x8000, 0x12);
    assert_eq!(nes.load(0x8000), 0xEA);
}
