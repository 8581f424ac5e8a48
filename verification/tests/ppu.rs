use mos_6500::emulator::io::video::SimpleVideoOut;
use mos_6500::emulator::memory::{Reader, Writer, RAM};
use mos_6500::emulator::ppu::palette::colour;
use mos_6500::emulator::ppu::registers::Registers;
use mos_6500::emulator::ppu::render::{
    evaluate, mix, select_palette, select_sprite, Background, SpritePixel, SpriteUnit,
};
use mos_6500::emulator::ppu::scroll::{
    attribute_address, coarse_x_scroll, coarse_y_scroll, copy_horizontal, copy_vertical, fine_y_scroll,
    increment_coarse_x, increment_y, nametable_select, tile_address,
};
use mos_6500::emulator::ppu::vram::{Mirroring, NameTables, PaletteRam, PatternMemory};
use mos_6500::emulator::ppu::{reverse, Pixel, Position, VideoOut, PPU};

fn run(ppu: &mut PPU<RAM>, out: &mut SimpleVideoOut, dots: usize) {
    for _ in 0..dots {
        assert_eq!(ppu.tick(out), 1);
    }
}

#[test]
fn coarse_x_increments_and_wraps_into_next_nametable() {
    assert_eq!(increment_coarse_x(0x0000), 0x0001);
    assert_eq!(increment_coarse_x(0x001E), 0x001F);
    assert_eq!(increment_coarse_x(0x001F), 0x0400);
    assert_eq!(increment_coarse_x(0x041F), 0x0000);
    assert_eq!(increment_coarse_x(0x7BFF), 0x7FE0);
}

#[test]
fn y_increments_through_fine_and_coarse() {
    assert_eq!(increment_y(0x0000), 0x1000);
    assert_eq!(increment_y(0x6000), 0x7000);
    assert_eq!(increment_y(0x7000), 0x0020);
    assert_eq!(increment_y(0x7000 | (29 << 5)), 0x0800);
    assert_eq!(increment_y(0x7800 | (29 << 5)), 0x0000);
    assert_eq!(increment_y(0x7000 | (31 << 5)), 0x0000);
    assert_eq!(increment_y(0x7800 | (31 << 5) | 0x1F), 0x081F);
    assert_eq!(increment_y(0x7000 | (30 << 5)), 31 << 5);
}

#[test]
fn copies_of_scroll_bits_use_the_right_masks() {
    assert_eq!(copy_horizontal(0x7FFF, 0x0000), 0x7BE0);
    assert_eq!(copy_horizontal(0x0000, 0x7FFF), 0x041F);
    assert_eq!(copy_vertical(0x7FFF, 0x0000), 0x041F);
    assert_eq!(copy_vertical(0x0000, 0x7FFF), 0x7BE0);
}

#[test]
fn address_parts_and_fetch_addresses() {
    let v: u16 = (5 << 12) | (2 << 10) | (17 << 5) | 9;
    assert_eq!(fine_y_scroll(v), 5);
    assert_eq!(nametable_select(v), 2);
    assert_eq!(coarse_y_scroll(v), 17);
    assert_eq!(coarse_x_scroll(v), 9);
    assert_eq!(tile_address(v), 0x2000 | (v & 0x0FFF));
    assert_eq!(tile_address(v), 0x2A29);
    assert_eq!(attribute_address(v), 0x23C0 | 0x0800 | (4 << 3) | 2);
}

#[test]
fn register_writes_follow_the_toggle() {
    let mut regs = Registers::new();
    regs.write_ctrl(0x83);
    assert_eq!(regs.t, 0x0C00);
    assert!(regs.is_nmi_enabled());
    regs.write_scroll(0x7D);
    assert_eq!(regs.fine_x, 5);
    assert_eq!(regs.t, 0x0C00 | 15);
    assert!(regs.w);
    regs.write_scroll(0x5E);
    assert_eq!(regs.t, 0x6C00 | (11 << 5) | 15);
    assert!(!regs.w);
    regs.write_address(0xFD);
    assert_eq!(regs.t, 0x3D00 | (0x6C00 | (11 << 5) | 15) & 0x00FF);
    assert_eq!(regs.v, 0);
    regs.write_address(0xF0);
    assert_eq!(regs.t, 0x3DF0);
    assert_eq!(regs.v, 0x3DF0);
    assert!(!regs.w);
}

#[test]
fn control_and_mask_bits() {
    let mut regs = Registers::new();
    assert_eq!(regs.address_increment(), 1);
    assert_eq!(regs.background_pattern_table(), 0);
    assert_eq!(regs.sprite_pattern_table(), 0);
    assert!(!regs.tall_sprites());
    assert!(!regs.rendering_is_enabled());
    regs.write_ctrl(0x3C);
    assert_eq!(regs.address_increment(), 32);
    assert_eq!(regs.background_pattern_table(), 0x1000);
    assert_eq!(regs.sprite_pattern_table(), 0x1000);
    assert!(regs.tall_sprites());
    assert!(!regs.is_nmi_enabled());
    regs.mask = 0x08;
    assert!(regs.shows_background() && !regs.shows_sprites() && regs.rendering_is_enabled());
    assert!(!regs.shows_left_background());
    regs.mask = 0x16;
    assert!(!regs.shows_background() && regs.shows_sprites() && regs.rendering_is_enabled());
    assert!(regs.shows_left_background() && regs.shows_left_sprites());
    regs.vblank = true;
    regs.sprite_overflow = true;
    assert_eq!(regs.status_byte(), 0xA0);
    regs.v = 0x7FFF;
    regs.advance();
    assert_eq!(regs.v, 0x001F);
}

#[test]
fn status_read_clears_vblank_toggle_and_latch() {
    let mut ppu = PPU::new(RAM::new());
    ppu.write(0x2000, 0x80);
    ppu.write(0x2005, 0x00);
    let mut out = SimpleVideoOut::new();
    run(&mut ppu, &mut out, 241 * 341 + 2);
    assert!(ppu.registers().vblank);
    assert!(ppu.registers().nmi);
    assert!(ppu.registers().w);
    assert_eq!(ppu.read(0x2002), 0x80);
    assert!(!ppu.registers().vblank);
    assert!(!ppu.registers().nmi);
    assert!(!ppu.registers().w);
    assert!(!ppu.take_nmi());
    assert_eq!(ppu.read(0x3FFA), 0x00);
}

#[test]
fn vblank_nmi_is_latched_once_at_241_1() {
    let mut ppu = PPU::new(RAM::new());
    ppu.write(0x2000, 0x80);
    let mut out = SimpleVideoOut::new();
    run(&mut ppu, &mut out, 241 * 341 + 1);
    assert_eq!((ppu.scanline(), ppu.cycle()), (241, 1));
    assert!(!ppu.registers().vblank);
    assert!(!ppu.take_nmi());
    run(&mut ppu, &mut out, 1);
    assert!(ppu.registers().vblank);
    assert!(ppu.take_nmi());
    assert!(!ppu.take_nmi());
    run(&mut ppu, &mut out, 1000);
    assert!(!ppu.take_nmi());
    assert!(ppu.registers().vblank);
    run(&mut ppu, &mut out, 20 * 341 - 1001);
    assert_eq!((ppu.scanline(), ppu.cycle()), (261, 1));
    assert!(ppu.registers().vblank);
    run(&mut ppu, &mut out, 1);
    assert!(!ppu.registers().vblank);
}

#[test]
fn vblank_without_nmi_enable_latches_nothing() {
    let mut ppu = PPU::new(RAM::new());
    let mut out = SimpleVideoOut::new();
    run(&mut ppu, &mut out, 242 * 341);
    assert!(ppu.registers().vblank);
    assert!(!ppu.take_nmi());
}

#[test]
fn position_runs_through_the_frame() {
    let mut ppu = PPU::new(RAM::new());
    let mut out = SimpleVideoOut::new();
    assert_eq!((ppu.scanline(), ppu.cycle(), ppu.odd_frame()), (0, 0, false));
    run(&mut ppu, &mut out, 340);
    assert_eq!((ppu.scanline(), ppu.cycle()), (0, 340));
    run(&mut ppu, &mut out, 1);
    assert_eq!((ppu.scanline(), ppu.cycle()), (1, 0));
    run(&mut ppu, &mut out, 341 * 261 - 1);
    assert_eq!((ppu.scanline(), ppu.cycle()), (261, 340));
    run(&mut ppu, &mut out, 1);
    assert_eq!((ppu.scanline(), ppu.cycle(), ppu.odd_frame()), (0, 0, true));
    run(&mut ppu, &mut out, 341 * 262);
    assert_eq!((ppu.scanline(), ppu.cycle(), ppu.odd_frame()), (0, 0, false));
}

#[test]
fn position_next_by_hand() {
    let mut pos = Position { scanline: 261, cycle: 340, odd_frame: false };
    pos.advance(true);
    assert_eq!(pos, Position { scanline: 0, cycle: 1, odd_frame: true });
    pos = Position { scanline: 261, cycle: 340, odd_frame: true };
    pos.advance(true);
    assert_eq!(pos, Position { scanline: 0, cycle: 0, odd_frame: false });
    pos = Position { scanline: 100, cycle: 340, odd_frame: true };
    pos.advance(true);
    assert_eq!(pos, Position { scanline: 101, cycle: 0, odd_frame: true });
}

#[test]
fn a_frame_emits_256_by_240_pixels() {
    let mut ppu = PPU::new(RAM::new());
    let mut out = SimpleVideoOut::new();
    run(&mut ppu, &mut out, 341 * 262);
    assert_eq!(out.count(), 256 * 240);
    ppu.write(0x2001, 0x1E);
    run(&mut ppu, &mut out, 341 * 262);
    assert_eq!(out.count(), 2 * 256 * 240);
    assert_eq!((ppu.scanline(), ppu.cycle(), ppu.odd_frame()), (0, 0, false));
    run(&mut ppu, &mut out, 341 * 262);
    assert_eq!(out.count(), 3 * 256 * 240);
    assert_eq!((ppu.scanline(), ppu.cycle(), ppu.odd_frame()), (0, 1, true));
    run(&mut ppu, &mut out, 341 * 262 - 1);
    assert_eq!(out.count(), 4 * 256 * 240);
    assert_eq!((ppu.scanline(), ppu.cycle(), ppu.odd_frame()), (0, 0, false));
}

#[test]
fn pixels_come_in_raster_order() {
    let mut ppu = PPU::new(RAM::new());
    let mut out = SimpleVideoOut::new();
    run(&mut ppu, &mut out, 1);
    assert_eq!(out.count(), 0);
    run(&mut ppu, &mut out, 1);
    assert_eq!(out.count(), 1);
    run(&mut ppu, &mut out, 255);
    assert_eq!(out.count(), 256);
    run(&mut ppu, &mut out, 84 + 1);
    assert_eq!(out.count(), 256);
    run(&mut ppu, &mut out, 1);
    assert_eq!(out.count(), 257);
}

#[test]
fn backdrop_shows_while_rendering_is_off() {
    let mut ppu = PPU::new(RAM::new());
    ppu.store_memory(0x3F00, 0x21);
    let mut out = SimpleVideoOut::new();
    run(&mut ppu, &mut out, 2);
    assert_eq!(out.pixel(0, 0), Pixel { r: 76, g: 154, b: 236 });
}

fn scene() -> PPU<RAM> {
    let mut ppu = PPU::new(RAM::new());
    for row in 0..8u16 {
        ppu.store_memory(0x0010 + row, 0xFF);
        ppu.store_memory(0x0018 + row, 0x00);
        ppu.store_memory(0x0020 + row, 0x00);
        ppu.store_memory(0x0028 + row, 0xFF);
    }
    for entry in 0..960u16 {
        ppu.store_memory(0x2000 + entry, 1);
    }
    ppu.store_memory(0x3F00, 0x0F);
    ppu.store_memory(0x3F01, 0x21);
    ppu.store_memory(0x3F16, 0x16);
    ppu
}

#[test]
fn background_fills_the_picture() {
    let mut ppu = scene();
    ppu.write(0x2001, 0x0A);
    let mut out = SimpleVideoOut::new();
    for _ in 0..(2 * 341 * 262 - 1) {
        ppu.tick(&mut out);
    }
    assert_eq!((ppu.scanline(), ppu.cycle()), (0, 0));
    assert_eq!(out.cursor(), 0);
    let blue = Pixel { r: 76, g: 154, b: 236 };
    assert_eq!(out.pixel(0, 0), blue);
    assert_eq!(out.pixel(255, 0), blue);
    assert_eq!(out.pixel(17, 100), blue);
    assert_eq!(out.pixel(0, 239), blue);
    assert_eq!(out.pixel(255, 239), blue);
    let mut others = 0;
    for y in 0..240 {
        for x in 0..256 {
            if out.pixel(x, y) != blue {
                others += 1;
            }
        }
    }
    assert_eq!(others, 0);
}

#[test]
fn left_column_is_clipped_without_mask_bit() {
    let mut ppu = scene();
    ppu.write(0x2001, 0x08);
    let mut out = SimpleVideoOut::new();
    for _ in 0..(2 * 341 * 262 - 1) {
        ppu.tick(&mut out);
    }
    assert_eq!(out.pixel(7, 10), Pixel { r: 0, g: 0, b: 0 });
    assert_eq!(out.pixel(8, 10), Pixel { r: 76, g: 154, b: 236 });
}

#[test]
fn sprite_is_drawn_one_line_below_its_top_and_hits() {
    let mut ppu = scene();
    ppu.write(0x2003, 0x00);
    ppu.write(0x2004, 49);
    ppu.write(0x2004, 2);
    ppu.write(0x2004, 0x01);
    ppu.write(0x2004, 100);
    for _ in 4..256 {
        ppu.write(0x2004, 0xFF);
    }
    assert_eq!(ppu.oam_byte(0), 49);
    assert_eq!(ppu.oam_byte(3), 100);
    assert_eq!(ppu.oam_byte(4), 0xFF);
    ppu.write(0x2001, 0x1E);
    let mut out = SimpleVideoOut::new();
    for _ in 0..(341 * 50 + 100) {
        ppu.tick(&mut out);
    }
    assert!(!ppu.registers().sprite_zero_hit);
    for _ in 0..2 {
        ppu.tick(&mut out);
    }
    assert!(ppu.registers().sprite_zero_hit);
    for _ in 0..(341 * 191) {
        ppu.tick(&mut out);
    }
    assert!(ppu.registers().sprite_zero_hit);
    assert!(!ppu.registers().sprite_overflow);
    assert_eq!(ppu.scanline(), 241);
    for _ in 0..(341 * 21 + 341 * 262 - 103) {
        ppu.tick(&mut out);
    }
    assert_eq!((ppu.scanline(), ppu.cycle()), (0, 0));
    let blue = Pixel { r: 76, g: 154, b: 236 };
    let red = Pixel { r: 152, g: 34, b: 32 };
    assert_eq!(out.pixel(100, 50), red);
    assert_eq!(out.pixel(107, 57), red);
    assert_eq!(out.pixel(99, 50), blue);
    assert_eq!(out.pixel(108, 50), blue);
    assert_eq!(out.pixel(100, 49), blue);
    assert_eq!(out.pixel(100, 58), blue);
    assert_eq!(ppu.read(0x2002) & 0x40, 0x00);
}

#[test]
fn sprite_behind_background_is_hidden_but_still_hits() {
    let mut ppu = scene();
    ppu.write(0x2003, 0x00);
    ppu.write(0x2004, 49);
    ppu.write(0x2004, 2);
    ppu.write(0x2004, 0x21);
    ppu.write(0x2004, 100);
    for _ in 4..256 {
        ppu.write(0x2004, 0xFF);
    }
    ppu.write(0x2001, 0x1E);
    let mut out = SimpleVideoOut::new();
    for _ in 0..(341 * 100) {
        ppu.tick(&mut out);
    }
    assert_eq!(out.pixel(100, 50), Pixel { r: 76, g: 154, b: 236 });
    assert!(ppu.registers().sprite_zero_hit);
}

#[test]
fn data_port_reads_are_buffered_below_the_palette() {
    let mut ppu = PPU::new(RAM::new());
    ppu.store_memory(0x2100, 0xAA);
    ppu.store_memory(0x2101, 0xBB);
    ppu.store_memory(0x3F05, 0x2C);
    ppu.store_memory(0x2F05, 0x77);
    ppu.write(0x2006, 0x21);
    ppu.write(0x2006, 0x00);
    assert_eq!(ppu.read(0x2007), 0x00);
    assert_eq!(ppu.read(0x2007), 0xAA);
    assert_eq!(ppu.read(0x2007), 0xBB);
    ppu.write(0x2006, 0x3F);
    ppu.write(0x2006, 0x05);
    assert_eq!(ppu.read(0x2007), 0x2C);
    assert_eq!(ppu.registers().read_buffer, 0x77);
    assert_eq!(ppu.registers().v, 0x3F06);
}

#[test]
fn data_port_writes_advance_by_one_or_thirty_two() {
    let mut ppu = PPU::new(RAM::new());
    ppu.write(0x2006, 0x20);
    ppu.write(0x2006, 0x00);
    ppu.write(0x2007, 0x11);
    ppu.write(0x2007, 0x22);
    assert_eq!(ppu.load_memory(0x2000), 0x11);
    assert_eq!(ppu.load_memory(0x2001), 0x22);
    ppu.write(0x2000, 0x04);
    ppu.write(0x2007, 0x33);
    ppu.write(0x2007, 0x44);
    assert_eq!(ppu.load_memory(0x2002), 0x33);
    assert_eq!(ppu.load_memory(0x2022), 0x44);
    assert_eq!(ppu.registers().v, 0x2042);
}

#[test]
fn oam_port_reads_without_advancing() {
    let mut ppu = PPU::new(RAM::new());
    ppu.write(0x2003, 0x10);
    ppu.write(0x2004, 0x99);
    assert_eq!(ppu.registers().oam_addr, 0x11);
    ppu.write(0x2003, 0x10);
    assert_eq!(ppu.read(0x2004), 0x99);
    assert_eq!(ppu.read(0x2004), 0x99);
    ppu.write(0x2003, 0xFF);
    ppu.write(0x2004, 0x01);
    assert_eq!(ppu.registers().oam_addr, 0x00);
}

#[test]
fn shift_registers_feed_the_pixel() {
    let mut bg = Background::new();
    bg.next_lo = 0b1000_0001;
    bg.next_hi = 0b0100_0001;
    bg.next_palette = 2;
    bg.reload();
    assert_eq!(bg.pattern_lo, 0x0081);
    assert!(!bg.latch_lo && bg.latch_hi);
    for _ in 0..8 {
        bg.shift();
    }
    assert_eq!(bg.pattern_lo, 0x8100);
    assert_eq!(bg.pattern_hi, 0x4100);
    assert_eq!(bg.attribute_lo, 0x00);
    assert_eq!(bg.attribute_hi, 0xFF);
    assert_eq!(bg.select(0), 0b1001);
    assert_eq!(bg.select(1), 0b1010);
    assert_eq!(bg.select(2), 0b1000);
    assert_eq!(bg.select(7), 0b1011);
}

#[test]
fn attribute_quadrants() {
    let attribute = 0b11_10_01_00;
    assert_eq!(select_palette(attribute, 0, 0), 0);
    assert_eq!(select_palette(attribute, 2, 0), 1);
    assert_eq!(select_palette(attribute, 1, 2), 2);
    assert_eq!(select_palette(attribute, 3, 3), 3);
    assert_eq!(select_palette(attribute, 4, 4), 0);
}

#[test]
fn sprite_priority_and_mixing() {
    let behind = SpritePixel { colour: 2, palette: 1, behind: true, zero: false };
    let front = SpritePixel { colour: 3, palette: 2, behind: false, zero: false };
    let none = SpritePixel { colour: 0, palette: 3, behind: false, zero: false };
    assert_eq!(mix(0b0101, front), 16 + 8 + 3);
    assert_eq!(mix(0b0101, behind), 0b0101);
    assert_eq!(mix(0b0100, behind), 16 + 4 + 2);
    assert_eq!(mix(0b0101, none), 0b0101);
    assert_eq!(mix(0b1100, none), 0);
    assert_eq!(mix(0, none), 0);
}

#[test]
fn first_opaque_sprite_unit_wins() {
    let idle = SpriteUnit { pattern_lo: 0, pattern_hi: 0, attributes: 0, x: 0, zero: false };
    let mut units = vec![idle; 8];
    units[1] = SpriteUnit { pattern_lo: 0x0F, pattern_hi: 0x00, attributes: 0x01, x: 10, zero: false };
    units[2] = SpriteUnit { pattern_lo: 0xFF, pattern_hi: 0xFF, attributes: 0x22, x: 12, zero: true };
    assert_eq!(select_sprite(&units, 9).colour, 0);
    assert_eq!(select_sprite(&units, 12), SpritePixel { colour: 3, palette: 2, behind: true, zero: true });
    assert_eq!(select_sprite(&units, 14), SpritePixel { colour: 1, palette: 1, behind: false, zero: false });
    assert_eq!(select_sprite(&units, 17).colour, 1);
    assert_eq!(select_sprite(&units, 18).palette, 2);
    assert_eq!(select_sprite(&units, 20).colour, 0);
    assert_eq!(units[1].colour(13), 0);
    assert_eq!(units[2].colour(255), 0);
}

#[test]
fn evaluation_finds_up_to_eight_sprites() {
    let mut oam = vec![0xFFu8; 256];
    for n in 0..9 {
        oam[4 * n] = 20;
        oam[4 * n + 1] = n as u8;
        oam[4 * n + 3] = (n * 10) as u8;
    }
    let found = evaluate(&oam, 23, false);
    assert_eq!(found.count, 8);
    assert!(found.zero);
    assert!(found.overflow);
    assert_eq!(found.secondary[0], 20);
    assert_eq!(found.secondary[4 * 7 + 1], 7);
    assert_eq!(found.secondary[4 * 7 + 3], 70);
    let none = evaluate(&oam, 28, false);
    assert_eq!(none.count, 0);
    assert!(!none.zero && !none.overflow);
    assert_eq!(none.secondary, vec![0xFFu8; 32]);
    let tall = evaluate(&oam, 35, true);
    assert_eq!(tall.count, 8);
}

#[test]
fn evaluation_overflow_reads_the_wrong_bytes() {
    let mut oam = vec![0xFFu8; 256];
    for n in 0..8 {
        oam[4 * n] = 20;
    }
    oam[4 * 8] = 200;
    oam[4 * 9] = 20;
    let found = evaluate(&oam, 23, false);
    assert_eq!(found.count, 8);
    assert!(!found.overflow);
    oam[4 * 9 + 1] = 20;
    let found = evaluate(&oam, 23, false);
    assert!(found.overflow);
}

#[test]
fn bits_reverse() {
    assert_eq!(reverse(0b1000_0000), 0b0000_0001);
    assert_eq!(reverse(0b1100_1010), 0b0101_0011);
    assert_eq!(reverse(0xFF), 0xFF);
    assert_eq!(reverse(0x00), 0x00);
}

#[test]
fn colour_table() {
    assert_eq!(colour(0x00), Pixel { r: 84, g: 84, b: 84 });
    assert_eq!(colour(0x0F), Pixel { r: 0, g: 0, b: 0 });
    assert_eq!(colour(0x21), Pixel { r: 76, g: 154, b: 236 });
    assert_eq!(colour(0x30), Pixel { r: 236, g: 238, b: 236 });
    assert_eq!(colour(0x61), Pixel { r: 76, g: 154, b: 236 });
}

#[test]
fn nametable_mirroring() {
    let mut horizontal = NameTables::new(Mirroring::Horizontal);
    horizontal.write(0x2000, 1);
    horizontal.write(0x2800, 2);
    assert_eq!(horizontal.read(0x2400), 1);
    assert_eq!(horizontal.read(0x2C00), 2);
    assert_eq!(horizontal.read(0x3000), 1);
    let mut vertical = NameTables::new(Mirroring::Vertical);
    vertical.write(0x2000, 1);
    vertical.write(0x2400, 2);
    assert_eq!(vertical.read(0x2800), 1);
    assert_eq!(vertical.read(0x2C00), 2);
    vertical.set_mirroring(Mirroring::OneScreenHigh);
    assert_eq!(vertical.mirroring(), Mirroring::OneScreenHigh);
    assert_eq!(vertical.read(0x2000), 2);
    assert_eq!(vertical.read(0x2800), 2);
    vertical.set_mirroring(Mirroring::OneScreenLow);
    assert_eq!(vertical.read(0x2C00), 1);
}

#[test]
fn palette_mirrors_backdrop_entries() {
    let mut palette = PaletteRam::new();
    palette.write(0x3F10, 0x2A);
    assert_eq!(palette.read(0x3F00), 0x2A);
    palette.write(0x3F04, 0x11);
    assert_eq!(palette.read(0x3F14), 0x11);
    palette.write(0x3F11, 0x05);
    assert_eq!(palette.read(0x3F01), 0x00);
    assert_eq!(palette.read(0x3F31), 0x05);
}

#[test]
fn pattern_memory_banks() {
    let mut data = vec![0u8; 0x4000];
    data[0x0000] = 1;
    data[0x1000] = 2;
    data[0x2000] = 3;
    data[0x3000] = 4;
    let mut patterns = PatternMemory::new(data, false).unwrap();
    assert_eq!(patterns.read(0x0000), 1);
    assert_eq!(patterns.read(0x1000), 2);
    patterns.select(2, 3);
    assert_eq!(patterns.read(0x0000), 3);
    assert_eq!(patterns.read(0x1000), 4);
    patterns.select(5, 4);
    assert_eq!(patterns.read(0x0000), 2);
    assert_eq!(patterns.read(0x1000), 1);
    patterns.write(0x0000, 9);
    assert_eq!(patterns.read(0x0000), 2);
    assert!(PatternMemory::new(vec![0u8; 0x1000], false).is_none());
    assert!(PatternMemory::new(vec![0u8; 0x2001], false).is_none());
    let mut ram = PatternMemory::ram();
    ram.write(0x1FFF, 7);
    assert_eq!(ram.read(0x1FFF), 7);
    assert_eq!(ram.read(0x3FFF), 7);
}

#[test]
fn video_sink_assembles_the_picture() {
    let mut out = SimpleVideoOut::new();
    assert_eq!(out.cursor(), 0);
    out.emit(Pixel { r: 1, g: 2, b: 3 });
    out.emit(Pixel { r: 4, g: 5, b: 6 });
    assert_eq!(out.cursor(), 2);
    assert_eq!(out.pixel(0, 0), Pixel { r: 1, g: 2, b: 3 });
    assert_eq!(out.pixel(1, 0), Pixel { r: 4, g: 5, b: 6 });
    assert_eq!(out.pixel(2, 0), Pixel { r: 0, g: 0, b: 0 });
    for _ in 2..61440 {
        out.emit(Pixel { r: 9, g: 9, b: 9 });
    }
    assert_eq!(out.cursor(), 0);
    assert_eq!(out.pixel(255, 239), Pixel { r: 9, g: 9, b: 9 });
    out.emit(Pixel { r: 7, g: 7, b: 7 });
    assert_eq!(out.pixel(0, 0), Pixel { r: 7, g: 7, b: 7 });
}

fn two_frames(ppu: &mut PPU<RAM>) -> SimpleVideoOut {
    let mut out = SimpleVideoOut::new();
    for _ in 0..(2 * 341 * 262 - 1) {
        ppu.tick(&mut out);
    }
    assert_eq!((ppu.scanline(), ppu.cycle()), (0, 0));
    out
}

#[test]
fn fine_x_scroll_shifts_the_picture() {
    let mut ppu = scene();
    for entry in 0..960u16 {
        ppu.store_memory(0x2000 + entry, if entry % 2 == 0 { 1 } else { 2 });
    }
    ppu.store_memory(0x3F02, 0x16);
    ppu.write(0x2005, 3);
    ppu.write(0x2005, 0);
    ppu.write(0x2001, 0x0A);
    let out = two_frames(&mut ppu);
    let blue = Pixel { r: 76, g: 154, b: 236 };
    let red = Pixel { r: 152, g: 34, b: 32 };
    let black = Pixel { r: 0, g: 0, b: 0 };
    assert_eq!(out.pixel(0, 10), blue);
    assert_eq!(out.pixel(4, 10), blue);
    assert_eq!(out.pixel(5, 10), red);
    assert_eq!(out.pixel(12, 10), red);
    assert_eq!(out.pixel(13, 10), blue);
    assert_eq!(out.pixel(252, 10), red);
    assert_eq!(out.pixel(253, 10), black);
    assert_eq!(out.pixel(255, 239), black);
}

#[test]
fn coarse_y_scroll_moves_the_picture_up() {
    let mut ppu = scene();
    for entry in 0..960u16 {
        ppu.store_memory(0x2000 + entry, if (entry / 32) % 2 == 0 { 1 } else { 2 });
    }
    ppu.store_memory(0x3F02, 0x16);
    ppu.write(0x2005, 0);
    ppu.write(0x2005, 8 + 5);
    ppu.write(0x2001, 0x0A);
    let out = two_frames(&mut ppu);
    let blue = Pixel { r: 76, g: 154, b: 236 };
    let red = Pixel { r: 152, g: 34, b: 32 };
    assert_eq!(out.pixel(100, 0), red);
    assert_eq!(out.pixel(100, 2), red);
    assert_eq!(out.pixel(100, 3), blue);
    assert_eq!(out.pixel(100, 10), blue);
    assert_eq!(out.pixel(100, 11), red);
}

#[test]
fn attribute_table_selects_the_palette() {
    let mut ppu = scene();
    ppu.store_memory(0x23C0, 0b11_10_01_00);
    ppu.store_memory(0x3F05, 0x16);
    ppu.store_memory(0x3F09, 0x2A);
    ppu.store_memory(0x3F0D, 0x30);
    ppu.write(0x2001, 0x0A);
    let out = two_frames(&mut ppu);
    assert_eq!(out.pixel(0, 0), Pixel { r: 76, g: 154, b: 236 });
    assert_eq!(out.pixel(15, 15), Pixel { r: 76, g: 154, b: 236 });
    assert_eq!(out.pixel(16, 0), Pixel { r: 152, g: 34, b: 32 });
    assert_eq!(out.pixel(31, 15), Pixel { r: 152, g: 34, b: 32 });
    assert_eq!(out.pixel(0, 16), Pixel { r: 76, g: 208, b: 32 });
    assert_eq!(out.pixel(16, 16), Pixel { r: 236, g: 238, b: 236 });
    assert_eq!(out.pixel(31, 31), Pixel { r: 236, g: 238, b: 236 });
    assert_eq!(out.pixel(32, 0), Pixel { r: 76, g: 154, b: 236 });
    assert_eq!(out.pixel(0, 32), Pixel { r: 76, g: 154, b: 236 });
}

#[test]
fn tall_and_flipped_sprites() {
    let mut ppu = scene();
    for row in 0..8u16 {
        ppu.store_memory(0x1040 + row, 0x80);
        ppu.store_memory(0x1048 + row, 0x00);
        ppu.store_memory(0x1050 + row, if row == 7 { 0xFF } else { 0x00 });
        ppu.store_memory(0x1058 + row, 0x00);
    }
    ppu.store_memory(0x3F11, 0x30);
    ppu.write(0x2000, 0x20);
    ppu.write(0x2003, 0x00);
    for byte in [99, 0x05, 0x00, 40] {
        ppu.write(0x2004, byte);
    }
    for byte in [119, 0x05, 0xC0, 80] {
        ppu.write(0x2004, byte);
    }
    for _ in 8..256 {
        ppu.write(0x2004, 0xFF);
    }
    ppu.write(0x2001, 0x14);
    let out = two_frames(&mut ppu);
    let white = Pixel { r: 236, g: 238, b: 236 };
    let black = Pixel { r: 0, g: 0, b: 0 };
    assert_eq!(out.pixel(40, 100), white);
    assert_eq!(out.pixel(41, 100), black);
    assert_eq!(out.pixel(40, 107), white);
    assert_eq!(out.pixel(40, 108), black);
    assert_eq!(out.pixel(47, 115), white);
    assert_eq!(out.pixel(40, 115), white);
    assert_eq!(out.pixel(40, 116), black);
    assert_eq!(out.pixel(80, 120), white);
    assert_eq!(out.pixel(87, 120), white);
    assert_eq!(out.pixel(87, 121), black);
    assert_eq!(out.pixel(87, 128), white);
    assert_eq!(out.pixel(86, 128), black);
    assert_eq!(out.pixel(87, 135), white);
    assert_eq!(out.pixel(87, 136), black);
}
