use mos_6500::emulator::mappers::mmc1::Registers;
use mos_6500::emulator::mappers::{Mapper, VideoBanks, CNROM, MMC1, NROM, UXROM};
use mos_6500::emulator::memory::{Reader, Writer};
use mos_6500::emulator::ppu::vram::Mirroring;

fn banked(banks: usize) -> Vec<u8> {
    let mut prg = vec![0u8; banks * 0x4000];
    for bank in 0..banks {
        prg[bank * 0x4000] = bank as u8;
        prg[bank * 0x4000 + 0x3FFF] = 0xF0 | bank as u8;
    }
    prg
}

fn serial(mapper: &mut MMC1, address: u16, value: u8, cycle: &mut u64) {
    for bit in 0..5 {
        *cycle += 4;
        mapper.set_clock(*cycle);
        mapper.write(address, (value >> bit) & 1);
    }
}

#[test]
fn nrom_mirrors_a_single_bank() {
    let mut small = NROM::new(banked(1)).unwrap();
    assert_eq!(small.read(0x8000), 0);
    assert_eq!(small.read(0xC000), 0);
    assert_eq!(small.read(0xFFFF), 0xF0);
    assert_eq!(small.read(0x6000), 0);
    let mut large = NROM::new(banked(2)).unwrap();
    assert_eq!(large.read(0x8000), 0);
    assert_eq!(large.read(0xBFFF), 0xF0);
    assert_eq!(large.read(0xC000), 1);
    large.write(0x8000, 0x55);
    assert_eq!(large.read(0x8000), 0);
    assert!(NROM::new(banked(3)).is_none());
    assert!(NROM::new(vec![0u8; 100]).is_none());
    assert!(NROM::new(Vec::new()).is_none());
}

#[test]
fn uxrom_switches_the_low_window() {
    let mut mapper = UXROM::new(banked(8)).unwrap();
    assert_eq!(mapper.read(0x8000), 0);
    assert_eq!(mapper.read(0xC000), 7);
    mapper.write(0x8000, 5);
    assert_eq!(mapper.bank(), 5);
    assert_eq!(mapper.read(0x8000), 5);
    assert_eq!(mapper.read(0xBFFF), 0xF5);
    assert_eq!(mapper.read(0xC000), 7);
    mapper.write(0xFFFF, 0xFA);
    assert_eq!(mapper.read(0x8000), 2);
    mapper.write(0x7FFF, 1);
    assert_eq!(mapper.read(0x8000), 2);
    assert!(UXROM::new(vec![0u8; 0x4001]).is_none());
}

#[test]
fn cnrom_selects_pattern_banks() {
    let mut mapper = CNROM::new(banked(2)).unwrap();
    assert_eq!(mapper.video_banks(), VideoBanks { low: 0, high: 1, mirroring: None });
    mapper.write(0x8000, 0x02);
    assert_eq!(mapper.video_banks(), VideoBanks { low: 4, high: 5, mirroring: None });
    mapper.write(0x9000, 0xFF);
    assert_eq!(mapper.video_banks(), VideoBanks { low: 6, high: 7, mirroring: None });
    assert_eq!(mapper.read(0xC000), 1);
    assert!(CNROM::new(banked(4)).is_none());
}

#[test]
fn mmc1_commits_on_the_fifth_write() {
    let mut regs = Registers::new();
    assert_eq!(regs.control, 0x0C);
    regs.write(0xE000, 1);
    regs.write(0xE000, 0);
    regs.write(0xE000, 1);
    regs.write(0xE000, 0);
    assert_eq!(regs.count, 4);
    assert_eq!(regs.shift, 0b0101);
    assert_eq!(regs.prg, 0);
    regs.write(0xE000, 1);
    assert_eq!(regs.prg, 0b10101);
    assert_eq!(regs.count, 0);
    assert_eq!(regs.shift, 0);
    for _ in 0..5 {
        regs.write(0xA000, 0xFF & 0x7F);
    }
    assert_eq!(regs.chr0, 0x1F);
    for bit in [0, 1, 0, 0, 0] {
        regs.write(0xC000, bit);
    }
    assert_eq!(regs.chr1, 0x02);
    for bit in [1, 1, 0, 0, 1] {
        regs.write(0x8000, bit);
    }
    assert_eq!(regs.control, 0x13);
}

#[test]
fn mmc1_reset_write_clears_progress() {
    let mut regs = Registers::new();
    for bit in [0, 0, 0, 0, 0] {
        regs.write(0x8000, bit);
    }
    assert_eq!(regs.control, 0x00);
    regs.write(0xE000, 1);
    regs.write(0xE000, 1);
    regs.write(0xE000, 0x80);
    assert_eq!(regs.count, 0);
    assert_eq!(regs.shift, 0);
    assert_eq!(regs.control, 0x0C);
    for bit in [1, 0, 0, 0, 0] {
        regs.write(0xE000, bit);
    }
    assert_eq!(regs.prg, 1);
}

#[test]
fn mmc1_program_modes() {
    let mut mapper = MMC1::new(banked(8)).unwrap();
    let mut cycle = 0;
    assert_eq!(mapper.read(0x8000), 0);
    assert_eq!(mapper.read(0xC000), 7);
    serial(&mut mapper, 0xE000, 3, &mut cycle);
    assert_eq!(mapper.read(0x8000), 3);
    assert_eq!(mapper.read(0xC000), 7);
    serial(&mut mapper, 0x8000, 0x08, &mut cycle);
    assert_eq!(mapper.read(0x8000), 0);
    assert_eq!(mapper.read(0xC000), 3);
    serial(&mut mapper, 0x8000, 0x00, &mut cycle);
    assert_eq!(mapper.read(0x8000), 2);
    assert_eq!(mapper.read(0xC000), 3);
    assert_eq!(mapper.read(0xFFFF), 0xF3);
}

#[test]
fn mmc1_pattern_modes_and_mirroring() {
    let mut mapper = MMC1::new(banked(2)).unwrap();
    let mut cycle = 0;
    assert_eq!(
        mapper.video_banks(),
        VideoBanks { low: 0, high: 1, mirroring: Some(Mirroring::OneScreenLow) }
    );
    serial(&mut mapper, 0xA000, 5, &mut cycle);
    serial(&mut mapper, 0xC000, 9, &mut cycle);
    assert_eq!(
        mapper.video_banks(),
        VideoBanks { low: 4, high: 5, mirroring: Some(Mirroring::OneScreenLow) }
    );
    serial(&mut mapper, 0x8000, 0x1E, &mut cycle);
    assert_eq!(mapper.video_banks(), VideoBanks { low: 5, high: 9, mirroring: Some(Mirroring::Vertical) });
    serial(&mut mapper, 0x8000, 0x1F, &mut cycle);
    assert_eq!(mapper.video_banks().mirroring, Some(Mirroring::Horizontal));
    serial(&mut mapper, 0x8000, 0x1D, &mut cycle);
    assert_eq!(mapper.video_banks().mirroring, Some(Mirroring::OneScreenHigh));
}

#[test]
fn mmc1_ignores_writes_in_adjacent_cycles() {
    let mut mapper = MMC1::new(banked(2)).unwrap();
    mapper.set_clock(10);
    mapper.write(0xE000, 1);
    mapper.write(0xE000, 1);
    assert_eq!(mapper.registers().count, 1);
    mapper.set_clock(11);
    mapper.write(0xE000, 1);
    assert_eq!(mapper.registers().count, 1);
    mapper.set_clock(12);
    mapper.write(0xE000, 1);
    assert_eq!(mapper.registers().count, 1);
    mapper.set_clock(14);
    mapper.write(0xE000, 1);
    assert_eq!(mapper.registers().count, 2);
    assert_eq!(mapper.registers().shift, 3);
}

#[test]
fn mmc1_program_ram() {
    let mut mapper = MMC1::new(banked(2)).unwrap();
    mapper.write(0x6000, 0x12);
    mapper.write(0x7FFF, 0x34);
    assert_eq!(mapper.read(0x6000), 0x12);
    assert_eq!(mapper.read(0x7FFF), 0x34);
    assert_eq!(mapper.read(0x5FFF), 0);
    assert_eq!(mapper.registers().count, 0);
    assert!(MMC1::new(Vec::new()).is_none());
}

#[test]
fn mapper_dispatch() {
    let mut mapper = Mapper::Uxrom(UXROM::new(banked(4)).unwrap());
    mapper.write(0x8000, 2);
    assert_eq!(mapper.read(0x8000), 2);
    assert_eq!(mapper.video_banks(), VideoBanks { low: 0, high: 1, mirroring: None });
    mapper.set_clock(99);
    let mut mapper = Mapper::Mmc1(MMC1::new(banked(4)).unwrap());
    mapper.set_clock(5);
    mapper.write(0x8000, 0x80);
    mapper.write(0x8000, 1);
    match &mapper {
        Mapper::Mmc1(inner) => assert_eq!(inner.registers().count, 0),
        _ => panic!("not an MMC1"),
    }
    let mut mapper = Mapper::Nrom(NROM::new(banked(1)).unwrap());
    assert_eq!(mapper.read(0xFFFF), 0xF0);
    let mut mapper = Mapper::Cnrom(CNROM::new(banked(1)).unwrap());
    mapper.write(0x8000, 1);
    assert_eq!(mapper.video_banks().low, 2);
}
