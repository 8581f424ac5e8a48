use mos_6500::emulator::cpu::addressing::AddressingMode;
use mos_6500::emulator::cpu::flags::{Flag, Flags};
use mos_6500::emulator::cpu::instructions::{
    adc, add_with_carry, and, asl, bcc, bcs, beq, bit_test, bmi, bne, bpl, brk, bvc, bvs, clc, cld, cli, clv, cmp,
    cpx, cpy, dec, dex, dey, eor, execute, inc, inx, iny, jmp, jsr, lda, ldx, ldy, lsr, nop, ora, pha, php, pla,
    plp, rol, ror, rti, rts, sbc, sec, sed, sei, shift_value, sta, stx, sty, subtract_with_borrow, tax, tay, tsx,
    txa, txs, tya, Shift, Sum,
};
use mos_6500::emulator::cpu::opcodes;
use mos_6500::emulator::cpu::opcodes::{decode, Instruction, Mnemonic};
use mos_6500::emulator::cpu::{CpuError, CPU};
use mos_6500::emulator::memory::{new, Manager, Reader, Writer, RAM};
use mos_6500::emulator::util::{bcd_to_hex, hex_to_bcd};

fn machine(origin: u16, program: &[u8]) -> CPU<Manager<RAM>> {
    let mut bus = new();
    let mut address = origin;
    for byte in program {
        bus.write(address, *byte);
        address = address.wrapping_add(1);
    }
    bus.write(0xFFFC, (origin & 0xFF) as u8);
    bus.write(0xFFFD, (origin >> 8) as u8);
    let mut cpu = CPU::new(bus);
    cpu.reset();
    cpu
}

#[test]
fn reset_loads_vector_and_registers() {
    let mut bus = new();
    bus.write(0xFFFC, 0x34);
    bus.write(0xFFFD, 0x12);
    let mut cpu = CPU::new(bus);
    cpu.p.d = true;
    cpu.p.i = false;
    cpu.s = 0x10;
    cpu.cycles = 99;
    cpu.nmi_pending = true;
    cpu.reset();
    assert_eq!(cpu.pc, 0x1234);
    assert_eq!(cpu.s, 0xFD);
    assert!(cpu.p.is_set(Flag::I));
    assert!(!cpu.p.is_set(Flag::D));
    assert_eq!(cpu.cycles, 0);
    assert!(!cpu.nmi_pending);
}

#[test]
fn lda_immediate() {
    let mut cpu = machine(0xC000, &[0xA9, 0x42, 0x00]);
    assert_eq!(cpu.pc, 0xC000);
    assert_eq!(cpu.step(), Ok(2));
    assert_eq!(cpu.a, 0x42);
    assert!(!cpu.p.is_set(Flag::Z));
    assert!(!cpu.p.is_set(Flag::N));
    assert_eq!(cpu.pc, 0xC002);
    assert_eq!(cpu.cycles, 2);
}

#[test]
fn lda_sets_zero_and_negative() {
    let mut cpu = machine(0xC000, &[0xA9, 0x00, 0xA9, 0x80]);
    cpu.step().unwrap();
    assert!(cpu.p.is_set(Flag::Z));
    assert!(!cpu.p.is_set(Flag::N));
    cpu.step().unwrap();
    assert!(!cpu.p.is_set(Flag::Z));
    assert!(cpu.p.is_set(Flag::N));
    assert_eq!(cpu.a, 0x80);
}

#[test]
fn adc_with_overflow() {
    let mut cpu = machine(0xC000, &[0x69, 0x50]);
    cpu.a = 0x50;
    cpu.p.d = false;
    cpu.p.c = false;
    assert_eq!(cpu.step(), Ok(2));
    assert_eq!(cpu.a, 0xA0);
    assert!(!cpu.p.is_set(Flag::C));
    assert!(cpu.p.is_set(Flag::V));
    assert!(cpu.p.is_set(Flag::N));
    assert!(!cpu.p.is_set(Flag::Z));
}

#[test]
fn sbc_borrow() {
    let mut cpu = machine(0xC000, &[0xE9, 0xF0]);
    cpu.a = 0x50;
    cpu.p.c = true;
    assert_eq!(cpu.step(), Ok(2));
    assert_eq!(cpu.a, 0x60);
    assert!(!cpu.p.is_set(Flag::C));
    assert!(!cpu.p.is_set(Flag::V));
}

#[test]
fn sbc_of_zero_keeps_carry() {
    let mut cpu = machine(0xC000, &[0xE9, 0x00]);
    cpu.a = 0x50;
    cpu.p.c = true;
    cpu.step().unwrap();
    assert_eq!(cpu.a, 0x50);
    assert!(cpu.p.is_set(Flag::C));
}

#[test]
fn arithmetic_unit_binary() {
    assert_eq!(add_with_carry(0xFF, 0x01, false, false), Sum { result: 0x00, carry: true, overflow: false });
    assert_eq!(add_with_carry(0x7F, 0x00, true, false), Sum { result: 0x80, carry: false, overflow: true });
    assert_eq!(add_with_carry(0x80, 0x80, false, false), Sum { result: 0x00, carry: true, overflow: true });
    assert_eq!(subtract_with_borrow(0x00, 0x01, true, false), Sum { result: 0xFF, carry: false, overflow: false });
    assert_eq!(subtract_with_borrow(0x80, 0x01, true, false), Sum { result: 0x7F, carry: true, overflow: true });
    assert_eq!(subtract_with_borrow(0x50, 0x50, false, false), Sum { result: 0xFF, carry: false, overflow: false });
}

#[test]
fn arithmetic_unit_decimal() {
    assert_eq!(add_with_carry(0x19, 0x28, false, true), Sum { result: 0x47, carry: false, overflow: false });
    assert_eq!(add_with_carry(0x99, 0x01, false, true), Sum { result: 0x00, carry: true, overflow: false });
    assert_eq!(add_with_carry(0x58, 0x46, true, true), Sum { result: 0x05, carry: true, overflow: false });
    assert_eq!(subtract_with_borrow(0x46, 0x12, true, true), Sum { result: 0x34, carry: true, overflow: false });
    assert_eq!(subtract_with_borrow(0x12, 0x21, true, true), Sum { result: 0x91, carry: false, overflow: false });
    assert_eq!(subtract_with_borrow(0x00, 0x00, false, true), Sum { result: 0x99, carry: false, overflow: false });
}

#[test]
fn decimal_mode_is_ignored_by_console_cpu() {
    let mut cpu = machine(0xC000, &[0xF8, 0x69, 0x01]);
    cpu.a = 0x09;
    assert_eq!(cpu.step(), Ok(2));
    assert!(cpu.p.is_set(Flag::D));
    cpu.step().unwrap();
    assert_eq!(cpu.a, 0x0A);
}

#[test]
fn decimal_mode_is_honoured_when_enabled() {
    let mut bus = new();
    bus.write(0x0200, 0xF8);
    bus.write(0x0201, 0x69);
    bus.write(0x0202, 0x01);
    bus.write(0xFFFC, 0x00);
    bus.write(0xFFFD, 0x02);
    let mut cpu = CPU::with_options(bus, true, false);
    cpu.reset();
    cpu.a = 0x09;
    cpu.step().unwrap();
    cpu.step().unwrap();
    assert_eq!(cpu.a, 0x10);
}

#[test]
fn bcd_conversions() {
    assert_eq!(bcd_to_hex(0x42), 42);
    assert_eq!(bcd_to_hex(0x99), 99);
    assert_eq!(hex_to_bcd(42), 0x42);
    assert_eq!(hex_to_bcd(99), 0x99);
    assert_eq!(hex_to_bcd(0), 0x00);
}

#[test]
fn indirect_jmp_bug() {
    let mut cpu = machine(0xC000, &[0x6C, 0xFF, 0x10]);
    cpu.memory.write(0x10FF, 0x34);
    cpu.memory.write(0x1100, 0x56);
    cpu.memory.write(0x1000, 0x78);
    assert_eq!(cpu.step(), Ok(5));
    assert_eq!(cpu.pc, 0x7834);
}

#[test]
fn branch_page_cross_cycles() {
    let mut cpu = machine(0xC0FE, &[0xD0, 0x04]);
    cpu.p.z = false;
    assert_eq!(cpu.step(), Ok(4));
    assert_eq!(cpu.pc, 0xC104);

    let mut cpu = machine(0xC000, &[0xD0, 0x04]);
    cpu.p.z = false;
    assert_eq!(cpu.step(), Ok(3));
    assert_eq!(cpu.pc, 0xC006);

    let mut cpu = machine(0xC000, &[0xD0, 0x04]);
    cpu.p.z = true;
    assert_eq!(cpu.step(), Ok(2));
    assert_eq!(cpu.pc, 0xC002);
}

#[test]
fn branch_backwards() {
    let mut cpu = machine(0xC010, &[0xF0, 0xFC]);
    cpu.p.z = true;
    assert_eq!(cpu.step(), Ok(3));
    assert_eq!(cpu.pc, 0xC00E);
}

#[test]
fn all_branches_follow_their_flag() {
    let mut cpu = machine(0xC000, &[0x00, 0x02]);
    cpu.p = Flags { c: true, z: false, i: false, d: false, v: true, n: false };
    cpu.pc = 0xC001;
    assert_eq!(bcs(&mut cpu, AddressingMode::Relative), 1);
    assert_eq!(cpu.pc, 0xC004);
    cpu.pc = 0xC001;
    assert_eq!(bcc(&mut cpu, AddressingMode::Relative), 0);
    assert_eq!(cpu.pc, 0xC002);
    cpu.pc = 0xC001;
    assert_eq!(bvs(&mut cpu, AddressingMode::Relative), 1);
    cpu.pc = 0xC001;
    assert_eq!(bvc(&mut cpu, AddressingMode::Relative), 0);
    cpu.pc = 0xC001;
    assert_eq!(bpl(&mut cpu, AddressingMode::Relative), 1);
    cpu.pc = 0xC001;
    assert_eq!(bmi(&mut cpu, AddressingMode::Relative), 0);
    cpu.pc = 0xC001;
    assert_eq!(bne(&mut cpu, AddressingMode::Relative), 1);
    cpu.pc = 0xC001;
    assert_eq!(beq(&mut cpu, AddressingMode::Relative), 0);
    cpu.p = Flags { c: false, z: true, i: false, d: false, v: false, n: true };
    cpu.pc = 0xC001;
    assert_eq!(bcc(&mut cpu, AddressingMode::Relative), 1);
    cpu.pc = 0xC001;
    assert_eq!(bvc(&mut cpu, AddressingMode::Relative), 1);
    cpu.pc = 0xC001;
    assert_eq!(bmi(&mut cpu, AddressingMode::Relative), 1);
    cpu.pc = 0xC001;
    assert_eq!(beq(&mut cpu, AddressingMode::Relative), 1);
    assert_eq!(cpu.pc, 0xC004);
}

#[test]
fn stack_lives_in_page_one_and_wraps() {
    let mut cpu = machine(0xC000, &[]);
    assert_eq!(cpu.s, 0xFD);
    cpu.push(0xAB);
    assert_eq!(cpu.s, 0xFC);
    assert_eq!(cpu.memory.read(0x01FD), 0xAB);
    cpu.s = 0x00;
    cpu.push(0xCD);
    assert_eq!(cpu.s, 0xFF);
    assert_eq!(cpu.memory.read(0x0100), 0xCD);
    assert_eq!(cpu.pop(), 0xCD);
    assert_eq!(cpu.s, 0x00);
}

#[test]
fn pha_pla_round_trip() {
    let mut cpu = machine(0xC000, &[0x48, 0xA9, 0x00, 0x68]);
    cpu.a = 0x80;
    assert_eq!(cpu.step(), Ok(3));
    cpu.step().unwrap();
    assert_eq!(cpu.a, 0);
    assert!(cpu.p.is_set(Flag::Z));
    assert_eq!(cpu.step(), Ok(4));
    assert_eq!(cpu.a, 0x80);
    assert!(cpu.p.is_set(Flag::N));
    assert!(!cpu.p.is_set(Flag::Z));
    assert_eq!(cpu.s, 0xFD);
}

#[test]
fn php_plp_round_trip() {
    let mut cpu = machine(0xC000, &[0x08, 0x28]);
    cpu.p = Flags { c: true, z: false, i: true, d: false, v: true, n: true };
    assert_eq!(cpu.step(), Ok(3));
    assert_eq!(cpu.memory.read(0x01FD), 0b1111_0101);
    cpu.p = Flags { c: false, z: true, i: false, d: true, v: false, n: false };
    assert_eq!(cpu.step(), Ok(4));
    assert_eq!(cpu.p, Flags { c: true, z: false, i: true, d: false, v: true, n: true });
}

#[test]
fn plp_drops_bits_four_and_five() {
    let mut cpu = machine(0xC000, &[0x28, 0x08]);
    cpu.push(0x00);
    cpu.step().unwrap();
    assert_eq!(cpu.p, Flags { c: false, z: false, i: false, d: false, v: false, n: false });
    cpu.step().unwrap();
    assert_eq!(cpu.memory.read(0x01FD), 0x30);
}

#[test]
fn flags_byte_layout() {
    let flags = Flags { c: true, z: true, i: false, d: false, v: false, n: true };
    assert_eq!(flags.to_byte(false), 0b1010_0011);
    assert_eq!(flags.to_byte(true), 0b1011_0011);
    assert_eq!(Flags::from_byte(0xFF), Flags { c: true, z: true, i: true, d: true, v: true, n: true });
    assert_eq!(Flags::from_byte(0x30), Flags { c: false, z: false, i: false, d: false, v: false, n: false });
    assert_eq!(Flags::new().to_byte(false), 0x24);
}

#[test]
fn jsr_rts_round_trip() {
    let mut cpu = machine(0xC000, &[0x20, 0x00, 0xD0, 0xEA]);
    cpu.memory.write(0xD000, 0x60);
    assert_eq!(cpu.step(), Ok(6));
    assert_eq!(cpu.pc, 0xD000);
    assert_eq!(cpu.memory.read(0x01FD), 0xC0);
    assert_eq!(cpu.memory.read(0x01FC), 0x02);
    assert_eq!(cpu.s, 0xFB);
    assert_eq!(cpu.step(), Ok(6));
    assert_eq!(cpu.pc, 0xC003);
    assert_eq!(cpu.s, 0xFD);
}

#[test]
fn brk_and_rti() {
    let mut cpu = machine(0xC000, &[0x00, 0xFF, 0xEA]);
    cpu.memory.write(0xFFFE, 0x00);
    cpu.memory.write(0xFFFF, 0xE0);
    cpu.memory.write(0xE000, 0x40);
    cpu.p = Flags { c: true, z: false, i: false, d: false, v: false, n: false };
    assert_eq!(cpu.step(), Ok(7));
    assert_eq!(cpu.pc, 0xE000);
    assert!(cpu.p.is_set(Flag::I));
    assert_eq!(cpu.memory.read(0x01FD), 0xC0);
    assert_eq!(cpu.memory.read(0x01FC), 0x02);
    assert_eq!(cpu.memory.read(0x01FB), 0x31);
    assert_eq!(cpu.step(), Ok(6));
    assert_eq!(cpu.pc, 0xC002);
    assert_eq!(cpu.p, Flags { c: true, z: false, i: false, d: false, v: false, n: false });
}

#[test]
fn nmi_is_serviced_once() {
    let mut cpu = machine(0xC000, &[0xEA, 0xEA]);
    cpu.memory.write(0xFFFA, 0x00);
    cpu.memory.write(0xFFFB, 0x90);
    cpu.memory.write(0x9000, 0xEA);
    cpu.p = Flags { c: false, z: true, i: false, d: false, v: false, n: false };
    cpu.trigger_nmi();
    assert_eq!(cpu.step(), Ok(7));
    assert_eq!(cpu.pc, 0x9000);
    assert!(!cpu.nmi_pending);
    assert!(cpu.p.is_set(Flag::I));
    assert_eq!(cpu.memory.read(0x01FD), 0xC0);
    assert_eq!(cpu.memory.read(0x01FC), 0x00);
    assert_eq!(cpu.memory.read(0x01FB), 0x22);
    assert_eq!(cpu.step(), Ok(2));
    assert_eq!(cpu.pc, 0x9001);
    assert_eq!(cpu.cycles, 9);
}

#[test]
fn irq_is_masked_by_i_and_level_triggered() {
    let mut cpu = machine(0xC000, &[0xEA, 0x58, 0xEA]);
    cpu.memory.write(0xFFFE, 0x00);
    cpu.memory.write(0xFFFF, 0xA0);
    cpu.memory.write(0xA000, 0x58);
    cpu.memory.write(0xA001, 0xEA);
    cpu.set_irq(true);
    assert_eq!(cpu.step(), Ok(2));
    assert_eq!(cpu.pc, 0xC001);
    assert_eq!(cpu.step(), Ok(2));
    assert_eq!(cpu.step(), Ok(7));
    assert_eq!(cpu.pc, 0xA000);
    assert_eq!(cpu.memory.read(0x01FB), 0x20);
    assert_eq!(cpu.step(), Ok(2));
    assert_eq!(cpu.step(), Ok(7));
    assert_eq!(cpu.pc, 0xA000);
    cpu.set_irq(false);
    assert_eq!(cpu.step(), Ok(2));
    assert_eq!(cpu.step(), Ok(2));
    assert_eq!(cpu.pc, 0xA002);
}

#[test]
fn undocumented_opcode_is_nop_or_error() {
    let mut cpu = machine(0xC000, &[0x02, 0xEA]);
    assert_eq!(cpu.step(), Ok(2));
    assert_eq!(cpu.pc, 0xC001);
    assert_eq!(cpu.cycles, 2);

    let mut bus = new();
    bus.write(0xC000, 0x02);
    bus.write(0xFFFD, 0xC0);
    let mut cpu = CPU::with_options(bus, false, true);
    cpu.reset();
    assert_eq!(cpu.step(), Err(CpuError::UnsupportedOpcode(0x02)));
    assert_eq!(cpu.pc, 0xC000);
    assert_eq!(cpu.cycles, 0);
}

#[test]
fn addressing_modes_resolve() {
    let mut cpu = machine(0xC000, &[0x80, 0x12]);
    cpu.x = 0x90;
    cpu.y = 0x05;
    assert_eq!(AddressingMode::Implied.resolve(&mut cpu), (0, 0));
    assert_eq!(AddressingMode::Accumulator.resolve(&mut cpu), (0, 0));
    assert_eq!(cpu.pc, 0xC000);
    assert_eq!(AddressingMode::Immediate.resolve(&mut cpu), (0xC000, 0));
    assert_eq!(cpu.pc, 0xC001);
    cpu.pc = 0xC000;
    assert_eq!(AddressingMode::ZeroPage.resolve(&mut cpu), (0x0080, 0));
    cpu.pc = 0xC000;
    assert_eq!(AddressingMode::ZeroPageX.resolve(&mut cpu), (0x0010, 0));
    cpu.pc = 0xC000;
    assert_eq!(AddressingMode::ZeroPageY.resolve(&mut cpu), (0x0085, 0));
    cpu.pc = 0xC000;
    assert_eq!(AddressingMode::Absolute.resolve(&mut cpu), (0x1280, 0));
    assert_eq!(cpu.pc, 0xC002);
    cpu.pc = 0xC000;
    assert_eq!(AddressingMode::AbsoluteX.resolve(&mut cpu), (0x1310, 1));
    cpu.pc = 0xC000;
    assert_eq!(AddressingMode::AbsoluteY.resolve(&mut cpu), (0x1285, 0));
}

#[test]
fn indirect_modes_wrap_in_page_zero() {
    let mut cpu = machine(0xC000, &[0xF0]);
    cpu.x = 0x0F;
    cpu.memory.write(0x00FF, 0x34);
    cpu.memory.write(0x0000, 0x12);
    assert_eq!(AddressingMode::IndexedIndirect.resolve(&mut cpu), (0x1234, 0));

    let mut cpu = machine(0xC000, &[0xFF]);
    cpu.y = 0xFF;
    cpu.memory.write(0x00FF, 0x02);
    cpu.memory.write(0x0000, 0x20);
    assert_eq!(AddressingMode::IndirectIndexed.resolve(&mut cpu), (0x2101, 1));
    cpu.pc = 0xC000;
    cpu.y = 0x01;
    assert_eq!(AddressingMode::IndirectIndexed.resolve(&mut cpu), (0x2003, 0));
}

#[test]
fn page_cross_costs_a_cycle_on_loads_only() {
    let mut cpu = machine(0xC000, &[0xBD, 0xFF, 0x10, 0x9D, 0xFF, 0x10, 0xBD, 0x00, 0x10]);
    cpu.x = 1;
    assert_eq!(cpu.step(), Ok(5));
    assert_eq!(cpu.step(), Ok(5));
    assert_eq!(cpu.step(), Ok(4));
}

#[test]
fn stores_and_loads() {
    let mut cpu = machine(0xC000, &[0x10, 0x10, 0x11, 0x12]);
    cpu.a = 0x11;
    cpu.x = 0x22;
    cpu.y = 0x33;
    assert_eq!(sta(&mut cpu, AddressingMode::ZeroPage), 0);
    assert_eq!(stx(&mut cpu, AddressingMode::ZeroPageY), 0);
    assert_eq!(sty(&mut cpu, AddressingMode::ZeroPage), 0);
    assert_eq!(cpu.memory.read(0x0010), 0x11);
    assert_eq!(cpu.memory.read(0x0043), 0x22);
    assert_eq!(cpu.memory.read(0x0011), 0x33);
    cpu.pc = 0xC002;
    assert_eq!(ldx(&mut cpu, AddressingMode::ZeroPage), 0);
    assert_eq!(cpu.x, 0x33);
    cpu.pc = 0xC000;
    assert_eq!(ldy(&mut cpu, AddressingMode::ZeroPage), 0);
    assert_eq!(cpu.y, 0x11);
    cpu.pc = 0xC003;
    assert_eq!(lda(&mut cpu, AddressingMode::Immediate), 0);
    assert_eq!(cpu.a, 0x12);
}

#[test]
fn transfers() {
    let mut cpu = machine(0xC000, &[]);
    cpu.a = 0x80;
    tax(&mut cpu, AddressingMode::Implied);
    assert_eq!(cpu.x, 0x80);
    assert!(cpu.p.n);
    cpu.a = 0;
    tay(&mut cpu, AddressingMode::Implied);
    assert_eq!(cpu.y, 0);
    assert!(cpu.p.z);
    cpu.x = 0x7F;
    txa(&mut cpu, AddressingMode::Implied);
    assert_eq!(cpu.a, 0x7F);
    assert!(!cpu.p.z && !cpu.p.n);
    cpu.y = 0x01;
    tya(&mut cpu, AddressingMode::Implied);
    assert_eq!(cpu.a, 0x01);
    cpu.x = 0x00;
    cpu.p.z = false;
    txs(&mut cpu, AddressingMode::Implied);
    assert_eq!(cpu.s, 0x00);
    assert!(!cpu.p.z);
    cpu.s = 0xFF;
    tsx(&mut cpu, AddressingMode::Implied);
    assert_eq!(cpu.x, 0xFF);
    assert!(cpu.p.n);
}

#[test]
fn logic_and_bit() {
    let mut cpu = machine(0xC000, &[0x0F, 0xF0, 0xFF, 0xC0]);
    cpu.a = 0x3C;
    and(&mut cpu, AddressingMode::Immediate);
    assert_eq!(cpu.a, 0x0C);
    ora(&mut cpu, AddressingMode::Immediate);
    assert_eq!(cpu.a, 0xFC);
    assert!(cpu.p.n);
    eor(&mut cpu, AddressingMode::Immediate);
    assert_eq!(cpu.a, 0x03);
    bit_test(&mut cpu, AddressingMode::Immediate);
    assert!(cpu.p.z);
    assert!(cpu.p.n);
    assert!(cpu.p.v);
    assert_eq!(cpu.a, 0x03);
}

#[test]
fn shifts_and_rotates() {
    assert_eq!(shift_value(Shift::Left, 0x81, false), (0x02, true));
    assert_eq!(shift_value(Shift::Right, 0x81, true), (0x40, true));
    assert_eq!(shift_value(Shift::RotateLeft, 0x81, true), (0x03, true));
    assert_eq!(shift_value(Shift::RotateLeft, 0x40, false), (0x80, false));
    assert_eq!(shift_value(Shift::RotateRight, 0x81, true), (0xC0, true));
    assert_eq!(shift_value(Shift::RotateRight, 0x02, false), (0x01, false));

    let mut cpu = machine(0xC000, &[0x10]);
    cpu.a = 0x80;
    assert_eq!(asl(&mut cpu, AddressingMode::Accumulator), 0);
    assert_eq!(cpu.a, 0);
    assert!(cpu.p.c && cpu.p.z);
    assert_eq!(cpu.pc, 0xC000);
    cpu.memory.write(0x0010, 0x03);
    lsr(&mut cpu, AddressingMode::ZeroPage);
    assert_eq!(cpu.memory.read(0x0010), 0x01);
    assert!(cpu.p.c);
    cpu.pc = 0xC000;
    rol(&mut cpu, AddressingMode::ZeroPage);
    assert_eq!(cpu.memory.read(0x0010), 0x03);
    assert!(!cpu.p.c);
    cpu.pc = 0xC000;
    cpu.p.c = true;
    ror(&mut cpu, AddressingMode::ZeroPage);
    assert_eq!(cpu.memory.read(0x0010), 0x81);
    assert!(cpu.p.c && cpu.p.n);
}

#[test]
fn compares() {
    let mut cpu = machine(0xC000, &[0x40, 0x41, 0x3F]);
    cpu.a = 0x40;
    cpu.x = 0x40;
    cpu.y = 0x40;
    assert_eq!(cmp(&mut cpu, AddressingMode::Immediate), 0);
    assert!(cpu.p.c && cpu.p.z && !cpu.p.n);
    cpx(&mut cpu, AddressingMode::Immediate);
    assert!(!cpu.p.c && !cpu.p.z && cpu.p.n);
    cpy(&mut cpu, AddressingMode::Immediate);
    assert!(cpu.p.c && !cpu.p.z && !cpu.p.n);
    assert_eq!(cpu.a, 0x40);
}

#[test]
fn increments_and_decrements() {
    let mut cpu = machine(0xC000, &[0x10]);
    cpu.memory.write(0x0010, 0xFF);
    inc(&mut cpu, AddressingMode::ZeroPage);
    assert_eq!(cpu.memory.read(0x0010), 0x00);
    assert!(cpu.p.z);
    cpu.pc = 0xC000;
    dec(&mut cpu, AddressingMode::ZeroPage);
    assert_eq!(cpu.memory.read(0x0010), 0xFF);
    assert!(cpu.p.n);
    cpu.x = 0xFF;
    inx(&mut cpu, AddressingMode::Implied);
    assert_eq!(cpu.x, 0);
    dex(&mut cpu, AddressingMode::Implied);
    assert_eq!(cpu.x, 0xFF);
    cpu.y = 0x00;
    dey(&mut cpu, AddressingMode::Implied);
    assert_eq!(cpu.y, 0xFF);
    iny(&mut cpu, AddressingMode::Implied);
    assert_eq!(cpu.y, 0);
}

#[test]
fn flag_instructions() {
    let mut cpu = machine(0xC000, &[]);
    assert_eq!(sec(&mut cpu, AddressingMode::Implied), 0);
    assert!(cpu.p.c);
    clc(&mut cpu, AddressingMode::Implied);
    assert!(!cpu.p.c);
    cli(&mut cpu, AddressingMode::Implied);
    assert!(!cpu.p.i);
    sei(&mut cpu, AddressingMode::Implied);
    assert!(cpu.p.i);
    sed(&mut cpu, AddressingMode::Implied);
    assert!(cpu.p.d);
    cld(&mut cpu, AddressingMode::Implied);
    assert!(!cpu.p.d);
    cpu.p.v = true;
    clv(&mut cpu, AddressingMode::Implied);
    assert!(!cpu.p.v);
    assert_eq!(nop(&mut cpu, AddressingMode::Implied), 0);
    assert_eq!(cpu.pc, 0xC000);
}

#[test]
fn jumps_and_stack_instructions_directly() {
    let mut cpu = machine(0xC000, &[0x34, 0x12]);
    assert_eq!(jmp(&mut cpu, AddressingMode::Absolute), 0);
    assert_eq!(cpu.pc, 0x1234);
    cpu.pc = 0xC000;
    assert_eq!(jsr(&mut cpu, AddressingMode::Absolute), 0);
    assert_eq!(cpu.pc, 0x1234);
    assert_eq!(rts(&mut cpu, AddressingMode::Implied), 0);
    assert_eq!(cpu.pc, 0xC002);
    cpu.a = 0x55;
    pha(&mut cpu, AddressingMode::Implied);
    cpu.a = 0;
    pla(&mut cpu, AddressingMode::Implied);
    assert_eq!(cpu.a, 0x55);
    cpu.p.c = true;
    php(&mut cpu, AddressingMode::Implied);
    cpu.p.c = false;
    plp(&mut cpu, AddressingMode::Implied);
    assert!(cpu.p.c);
    cpu.memory.write(0xFFFE, 0x00);
    cpu.memory.write(0xFFFF, 0x80);
    cpu.pc = 0xC001;
    brk(&mut cpu, AddressingMode::Implied);
    assert_eq!(cpu.pc, 0x8000);
    rti(&mut cpu, AddressingMode::Implied);
    assert_eq!(cpu.pc, 0xC002);
}

#[test]
fn execute_dispatches() {
    let mut cpu = machine(0xC000, &[0x07, 0x00]);
    assert_eq!(execute(&mut cpu, Mnemonic::Lda, AddressingMode::Immediate), 0);
    assert_eq!(cpu.a, 0x07);
    assert_eq!(execute(&mut cpu, Mnemonic::Tax, AddressingMode::Implied), 0);
    assert_eq!(cpu.x, 0x07);
    assert_eq!(execute(&mut cpu, Mnemonic::Sec, AddressingMode::Implied), 0);
    assert!(cpu.p.c);
    assert_eq!(execute(&mut cpu, Mnemonic::Bcs, AddressingMode::Relative), 1);
    assert_eq!(cpu.pc, 0xC002);
}

#[test]
fn opcode_table() {
    assert_eq!(opcodes::ADC_IMM, 0x69);
    assert_eq!(opcodes::LDA_IND_IX, 0xB1);
    assert_eq!(opcodes::STA_IX_IND, 0x81);
    assert_eq!(opcodes::SEC, 0x38);
    assert_eq!(
        decode(0xA9),
        Some(Instruction { mnemonic: Mnemonic::Lda, mode: AddressingMode::Immediate, cycles: 2 })
    );
    assert_eq!(
        decode(0x9D),
        Some(Instruction { mnemonic: Mnemonic::Sta, mode: AddressingMode::AbsoluteX, cycles: 5 })
    );
    assert_eq!(
        decode(0x6C),
        Some(Instruction { mnemonic: Mnemonic::Jmp, mode: AddressingMode::Indirect, cycles: 5 })
    );
    assert_eq!(decode(0x02), None);
    let mut documented = 0;
    for opcode in 0..=255u8 {
        if decode(opcode).is_some() {
            documented += 1;
        }
    }
    assert_eq!(documented, 151);
}

#[test]
fn cpu_on_plain_ram() {
    let mut ram = RAM::new();
    ram.write(0xFFFC, 0x00);
    ram.write(0xFFFD, 0x80);
    ram.write(0x8000, 0xE8);
    let mut cpu = CPU::new(ram);
    cpu.reset();
    assert_eq!(cpu.step(), Ok(2));
    assert_eq!(cpu.x, 1);
    assert_eq!(cpu.load_word(0xFFFC), 0x8000);
}

#[test]
fn adc_and_sbc_directly() {
    let mut cpu = machine(0xC000, &[0x50, 0xF0, 0x10]);
    cpu.a = 0x50;
    cpu.p.c = false;
    assert_eq!(adc(&mut cpu, AddressingMode::Immediate), 0);
    assert_eq!(cpu.a, 0xA0);
    assert!(!cpu.p.c && cpu.p.v && cpu.p.n && !cpu.p.z);
    cpu.a = 0x50;
    cpu.p.c = true;
    assert_eq!(sbc(&mut cpu, AddressingMode::Immediate), 0);
    assert_eq!(cpu.a, 0x60);
    assert!(!cpu.p.c && !cpu.p.v);
    cpu.x = 0xFF;
    cpu.pc = 0xC002;
    cpu.memory.write(0x000F, 0x01);
    cpu.a = 0xFF;
    assert_eq!(adc(&mut cpu, AddressingMode::ZeroPageX), 0);
    assert_eq!(cpu.a, 0x00);
    assert!(cpu.p.c && cpu.p.z && !cpu.p.v);
}
