//! The instructions. Each takes the CPU with its program counter at the byte
//! after the opcode, and the addressing mode that the opcode selects, and
//! yields the cycles it needs beyond the opcode's base count.

use crate::bits::{add16, add8, bit, signed, sub16, sub8, test_bit, wrap16, wrap8};
use crate::emulator::cpu::addressing::{lemma_resolve_cycles, AddressingMode};
use crate::emulator::cpu::flags::{weight, Flag, Flags};
use crate::emulator::cpu::opcodes::Mnemonic;
use crate::emulator::cpu::{CpuState, CPU, IRQ_VECTOR};
use crate::emulator::memory::ReadWriter;
use crate::emulator::util::{bcd_digits, bcd_to_hex, bcd_value, hex_to_bcd};
use vstd::prelude::*;

verus! {

/// What the arithmetic unit yields: the byte, the carry out, and whether the
/// result, read as a signed number, left the range of a byte.
#[derive(Clone, Copy, Debug, PartialEq, Eq, Structural)]
pub struct Sum {
    pub result: u8,
    pub carry: bool,
    pub overflow: bool,
}

/// `a + m + carry` in binary.
pub open spec fn add_binary(a: u8, m: u8, carry: bool) -> Sum {
    let total = a + m + weight(carry);
    let signed_total = signed(a) + signed(m) + weight(carry);
    Sum { result: wrap8(total), carry: total > 255, overflow: signed_total < -128 || signed_total > 127 }
}

/// `a - m - borrow` in binary, where the borrow is the complement of the
/// carry. The carry out is clear exactly when the subtraction borrowed.
pub open spec fn subtract_binary(a: u8, m: u8, carry: bool) -> Sum {
    let total = a - m - (1 - weight(carry));
    let signed_total = signed(a) - signed(m) - (1 - weight(carry));
    Sum { result: wrap8(total), carry: total >= 0, overflow: signed_total < -128 || signed_total > 127 }
}

/// `a + m + carry` in decimal mode: the operands are read as two decimal
/// digits each, and the sum wraps at 100 into the carry. Overflow follows
/// the signs of the bytes as in binary mode.
pub open spec fn add_decimal(a: u8, m: u8, carry: bool) -> Sum {
    let total = bcd_value(a) + bcd_value(m) + weight(carry);
    let result = bcd_digits(total % 100);
    Sum {
        result,
        carry: total > 99,
        overflow: (a >= 128) == (m >= 128) && (a >= 128) != (result >= 128),
    }
}

/// `a - m - borrow` in decimal mode: the difference wraps below zero to 99
/// and clears the carry.
pub open spec fn subtract_decimal(a: u8, m: u8, carry: bool) -> Sum {
    let total = bcd_value(a) - bcd_value(m) - (1 - weight(carry));
    let result = bcd_digits(total % 100);
    Sum {
        result,
        carry: total >= 0,
        overflow: (a >= 128) != (m >= 128) && (m >= 128) == (result >= 128),
    }
}

/// In binary addition the overflow flag is set exactly when the operands
/// have the same sign and the result has the other one.
pub proof fn lemma_add_overflow_by_signs(a: u8, m: u8, carry: bool)
    ensures
        add_binary(a, m, carry).overflow == ((a >= 128) == (m >= 128) && (a >= 128) != (add_binary(
            a,
            m,
            carry,
        ).result >= 128)),
{
}

/// Binary subtraction is the addition of the operand's complement, and its
/// overflow flag is set exactly when the operands differ in sign and the
/// result has the sign of the subtrahend.
pub proof fn lemma_subtract_is_add_complement(a: u8, m: u8, carry: bool)
    ensures
        subtract_binary(a, m, carry) == add_binary(a, !m, carry),
        subtract_binary(a, m, carry).overflow == ((a >= 128) != (m >= 128) && (m >= 128) == (
        subtract_binary(a, m, carry).result >= 128)),
{
    assert(!m == 255 - m) by (bit_vector);
}

/// The shifts and rotates.
#[derive(Clone, Copy, Debug, PartialEq, Eq, Structural)]
pub enum Shift {
    /// Shift left: bit 7 goes to the carry, 0 comes in at bit 0.
    Left,
    /// Shift right: bit 0 goes to the carry, 0 comes in at bit 7.
    Right,
    /// Rotate left through the carry.
    RotateLeft,
    /// Rotate right through the carry.
    RotateRight,
}

/// The byte and the carry that a shift or rotate makes of `m` and the carry.
pub open spec fn shifted(kind: Shift, m: u8, carry: bool) -> (u8, bool) {
    match kind {
        Shift::Left => (wrap8(2 * m), m >= 128),
        Shift::Right => ((m / 2) as u8, m % 2 == 1),
        Shift::RotateLeft => (wrap8(2 * m + weight(carry)), m >= 128),
        Shift::RotateRight => ((m / 2 + 128 * weight(carry)) as u8, m % 2 == 1),
    }
}

/// The three registers that loads, stores and compares work on.
#[derive(Clone, Copy, Debug, PartialEq, Eq, Structural)]
pub enum Register {
    A,
    X,
    Y,
}

impl<M: ReadWriter> CpuState<M> {
    /// The value of a register.
    pub open spec fn register(self, register: Register) -> u8 {
        match register {
            Register::A => self.a,
            Register::X => self.x,
            Register::Y => self.y,
        }
    }

    /// The state with a register set, and Z and N set from the new value.
    pub open spec fn with_register(self, register: Register, value: u8) -> Self {
        let p = self.p.with_zn(value);
        match register {
            Register::A => CpuState { a: value, p, ..self },
            Register::X => CpuState { x: value, p, ..self },
            Register::Y => CpuState { y: value, p, ..self },
        }
    }

    /// The state with one flag set to `value`.
    pub open spec fn with_flag(self, flag: Flag, value: bool) -> Self {
        CpuState { p: self.p.with(flag, value), ..self }
    }

    /// Resolves the mode and loads the operand: the state after, the
    /// operand, and the cycles of the address phase.
    pub open spec fn operand(self, mode: AddressingMode) -> (Self, u8, u32) {
        let resolved = self.resolve(mode);
        let (state, byte) = resolved.state.load(resolved.address);
        (state, byte, resolved.cycles)
    }

    /// Loads a register from memory.
    pub open spec fn load_register(self, register: Register, mode: AddressingMode) -> (Self, u32) {
        let (state, byte, cycles) = self.operand(mode);
        (state.with_register(register, byte), cycles)
    }

    /// Stores a register in memory. The cycle that indexing may cost is part
    /// of a store's base count, so a store never takes extra cycles.
    pub open spec fn store_register(self, register: Register, mode: AddressingMode) -> (Self, u32) {
        let resolved = self.resolve(mode);
        (resolved.state.store(resolved.address, self.register(register)), 0)
    }

    pub open spec fn lda(self, mode: AddressingMode) -> (Self, u32) {
        self.load_register(Register::A, mode)
    }

    pub open spec fn ldx(self, mode: AddressingMode) -> (Self, u32) {
        self.load_register(Register::X, mode)
    }

    pub open spec fn ldy(self, mode: AddressingMode) -> (Self, u32) {
        self.load_register(Register::Y, mode)
    }

    pub open spec fn sta(self, mode: AddressingMode) -> (Self, u32) {
        self.store_register(Register::A, mode)
    }

    pub open spec fn stx(self, mode: AddressingMode) -> (Self, u32) {
        self.store_register(Register::X, mode)
    }

    pub open spec fn sty(self, mode: AddressingMode) -> (Self, u32) {
        self.store_register(Register::Y, mode)
    }

    pub open spec fn tax(self) -> (Self, u32) {
        (self.with_register(Register::X, self.a), 0)
    }

    pub open spec fn tay(self) -> (Self, u32) {
        (self.with_register(Register::Y, self.a), 0)
    }

    pub open spec fn txa(self) -> (Self, u32) {
        (self.with_register(Register::A, self.x), 0)
    }

    pub open spec fn tya(self) -> (Self, u32) {
        (self.with_register(Register::A, self.y), 0)
    }

    pub open spec fn tsx(self) -> (Self, u32) {
        (self.with_register(Register::X, self.s), 0)
    }

    /// TXS sets no flag.
    pub open spec fn txs(self) -> (Self, u32) {
        (CpuState { s: self.x, ..self }, 0)
    }

    pub open spec fn pha(self) -> (Self, u32) {
        (self.push(self.a), 0)
    }

    pub open spec fn pla(self) -> (Self, u32) {
        let (state, byte) = self.pop();
        (state.with_register(Register::A, byte), 0)
    }

    /// PHP pushes the status with bits 4 and 5 set.
    pub open spec fn php(self) -> (Self, u32) {
        (self.push(self.p.pack(true)), 0)
    }

    /// PLP takes the six flags from the popped byte; its bits 4 and 5 are
    /// dropped.
    pub open spec fn plp(self) -> (Self, u32) {
        let (state, byte) = self.pop();
        (CpuState { p: Flags::unpack(byte), ..state }, 0)
    }

    /// The sum that ADC forms of the accumulator and `m`.
    pub open spec fn sum(self, m: u8) -> Sum {
        if self.decimal_enabled && self.p.d {
            add_decimal(self.a, m, self.p.c)
        } else {
            add_binary(self.a, m, self.p.c)
        }
    }

    /// The difference that SBC forms of the accumulator and `m`.
    pub open spec fn difference(self, m: u8) -> Sum {
        if self.decimal_enabled && self.p.d {
            subtract_decimal(self.a, m, self.p.c)
        } else {
            subtract_binary(self.a, m, self.p.c)
        }
    }

    /// The state after the arithmetic unit delivered `sum` to the
    /// accumulator.
    pub open spec fn with_sum(self, sum: Sum) -> Self {
        CpuState {
            a: sum.result,
            p: Flags { c: sum.carry, v: sum.overflow, ..self.p }.with_zn(sum.result),
            ..self
        }
    }

    pub open spec fn adc(self, mode: AddressingMode) -> (Self, u32) {
        let (state, m, cycles) = self.operand(mode);
        (state.with_sum(state.sum(m)), cycles)
    }

    pub open spec fn sbc(self, mode: AddressingMode) -> (Self, u32) {
        let (state, m, cycles) = self.operand(mode);
        (state.with_sum(state.difference(m)), cycles)
    }

    pub open spec fn and(self, mode: AddressingMode) -> (Self, u32) {
        let (state, m, cycles) = self.operand(mode);
        (state.with_register(Register::A, m & state.a), cycles)
    }

    pub open spec fn ora(self, mode: AddressingMode) -> (Self, u32) {
        let (state, m, cycles) = self.operand(mode);
        (state.with_register(Register::A, m | state.a), cycles)
    }

    pub open spec fn eor(self, mode: AddressingMode) -> (Self, u32) {
        let (state, m, cycles) = self.operand(mode);
        (state.with_register(Register::A, m ^ state.a), cycles)
    }

    /// BIT: Z says whether `A & M` is zero; N and V are bits 7 and 6 of M.
    pub open spec fn bit(self, mode: AddressingMode) -> (Self, u32) {
        let (state, m, cycles) = self.operand(mode);
        (
            CpuState { p: Flags { z: m & state.a == 0, n: bit(m, 7), v: bit(m, 6), ..state.p }, ..state },
            cycles,
        )
    }

    /// A shift or rotate, of the accumulator or of a byte in memory. The
    /// cycle that indexing may cost is part of the base count.
    pub open spec fn shift(self, kind: Shift, mode: AddressingMode) -> (Self, u32) {
        if mode == AddressingMode::Accumulator {
            let (result, carry) = shifted(kind, self.a, self.p.c);
            (CpuState { a: result, p: Flags { c: carry, ..self.p }.with_zn(result), ..self }, 0)
        } else {
            let resolved = self.resolve(mode);
            let (state, m) = resolved.state.load(resolved.address);
            let (result, carry) = shifted(kind, m, state.p.c);
            let state = state.store(resolved.address, result);
            (CpuState { p: Flags { c: carry, ..state.p }.with_zn(result), ..state }, 0)
        }
    }

    pub open spec fn asl(self, mode: AddressingMode) -> (Self, u32) {
        self.shift(Shift::Left, mode)
    }

    pub open spec fn lsr(self, mode: AddressingMode) -> (Self, u32) {
        self.shift(Shift::Right, mode)
    }

    pub open spec fn rol(self, mode: AddressingMode) -> (Self, u32) {
        self.shift(Shift::RotateLeft, mode)
    }

    pub open spec fn ror(self, mode: AddressingMode) -> (Self, u32) {
        self.shift(Shift::RotateRight, mode)
    }

    /// Compares a register with memory: C says that the register is not
    /// below the operand, Z that they are equal, and N is bit 7 of their
    /// difference.
    pub open spec fn compare(self, register: Register, mode: AddressingMode) -> (Self, u32) {
        let (state, m, cycles) = self.operand(mode);
        let value = state.register(register);
        (CpuState { p: Flags { c: value >= m, ..state.p }.with_zn(wrap8(value - m)), ..state }, cycles)
    }

    pub open spec fn cmp(self, mode: AddressingMode) -> (Self, u32) {
        self.compare(Register::A, mode)
    }

    pub open spec fn cpx(self, mode: AddressingMode) -> (Self, u32) {
        self.compare(Register::X, mode)
    }

    pub open spec fn cpy(self, mode: AddressingMode) -> (Self, u32) {
        self.compare(Register::Y, mode)
    }

    /// Adds `delta` to a byte in memory, wrapping, and sets Z and N.
    pub open spec fn step_memory(self, delta: int, mode: AddressingMode) -> (Self, u32) {
        let resolved = self.resolve(mode);
        let (state, m) = resolved.state.load(resolved.address);
        let result = wrap8(m + delta);
        let state = state.store(resolved.address, result);
        (CpuState { p: state.p.with_zn(result), ..state }, 0)
    }

    pub open spec fn inc(self, mode: AddressingMode) -> (Self, u32) {
        self.step_memory(1, mode)
    }

    pub open spec fn dec(self, mode: AddressingMode) -> (Self, u32) {
        self.step_memory(-1, mode)
    }

    pub open spec fn inx(self) -> (Self, u32) {
        (self.with_register(Register::X, wrap8(self.x + 1)), 0)
    }

    pub open spec fn iny(self) -> (Self, u32) {
        (self.with_register(Register::Y, wrap8(self.y + 1)), 0)
    }

    pub open spec fn dex(self) -> (Self, u32) {
        (self.with_register(Register::X, wrap8(self.x - 1)), 0)
    }

    pub open spec fn dey(self) -> (Self, u32) {
        (self.with_register(Register::Y, wrap8(self.y - 1)), 0)
    }

    pub open spec fn jmp(self, mode: AddressingMode) -> (Self, u32) {
        let resolved = self.resolve(mode);
        (CpuState { pc: resolved.address, ..resolved.state }, resolved.cycles)
    }

    /// JSR pushes the address of its own last byte and jumps.
    pub open spec fn jsr(self, mode: AddressingMode) -> (Self, u32) {
        let resolved = self.resolve(mode);
        let state = resolved.state.push_word(wrap16(resolved.state.pc - 1));
        (CpuState { pc: resolved.address, ..state }, resolved.cycles)
    }

    /// RTS pops an address and continues at the byte after it.
    pub open spec fn rts(self) -> (Self, u32) {
        let (state, address) = self.pop_word();
        (CpuState { pc: wrap16(address + 1), ..state }, 0)
    }

    /// A branch: the offset is fetched either way. A branch that is taken
    /// costs a cycle, and one more where the address phase says so; one that
    /// is not taken costs nothing extra.
    pub open spec fn branch(self, mode: AddressingMode, should_branch: bool) -> (Self, u32) {
        let resolved = self.resolve(mode);
        if should_branch {
            (CpuState { pc: resolved.address, ..resolved.state }, (resolved.cycles + 1) as u32)
        } else {
            (resolved.state, 0)
        }
    }

    /// BRK skips the byte after the opcode and enters the IRQ handler with
    /// bit 4 of the stacked status set.
    pub open spec fn brk(self) -> (Self, u32) {
        ((CpuState { pc: wrap16(self.pc + 1), ..self }).interrupt(IRQ_VECTOR, true), 0)
    }

    /// RTI pops the status, dropping bits 4 and 5, and then the program
    /// counter.
    pub open spec fn rti(self) -> (Self, u32) {
        let (state, byte) = self.pop();
        let (state, pc) = state.pop_word();
        (CpuState { p: Flags::unpack(byte), pc, ..state }, 0)
    }

    /// What the instruction `mnemonic` does with addressing mode `mode`,
    /// from the state in which the program counter is at the byte after the
    /// opcode: the state after, and the cycles beyond the opcode's base
    /// count. The instructions are looked up by family; the body of each
    /// family is hidden from the solver until it is revealed.
    pub open spec fn execute(self, mnemonic: Mnemonic, mode: AddressingMode) -> (Self, u32) {
        match mnemonic {
            Mnemonic::Lda | Mnemonic::Ldx | Mnemonic::Ldy | Mnemonic::Sta | Mnemonic::Stx | Mnemonic::Sty | Mnemonic::Tax | Mnemonic::Tay | Mnemonic::Txa | Mnemonic::Tya | Mnemonic::Tsx | Mnemonic::Txs => self.execute_transfer(mnemonic, mode),
            Mnemonic::Adc | Mnemonic::Sbc | Mnemonic::And | Mnemonic::Ora | Mnemonic::Eor | Mnemonic::Bit | Mnemonic::Cmp | Mnemonic::Cpx | Mnemonic::Cpy => self.execute_arithmetic(mnemonic, mode),
            Mnemonic::Asl | Mnemonic::Lsr | Mnemonic::Rol | Mnemonic::Ror | Mnemonic::Inc | Mnemonic::Dec | Mnemonic::Inx | Mnemonic::Iny | Mnemonic::Dex | Mnemonic::Dey => self.execute_modify(mnemonic, mode),
            Mnemonic::Bcc | Mnemonic::Bcs | Mnemonic::Beq | Mnemonic::Bne | Mnemonic::Bmi | Mnemonic::Bpl | Mnemonic::Bvc | Mnemonic::Bvs => self.execute_branch(mnemonic, mode),
            Mnemonic::Jmp | Mnemonic::Jsr | Mnemonic::Rts | Mnemonic::Brk | Mnemonic::Rti | Mnemonic::Pha | Mnemonic::Pla | Mnemonic::Php | Mnemonic::Plp => self.execute_control(mnemonic, mode),
            Mnemonic::Clc | Mnemonic::Sec | Mnemonic::Cli | Mnemonic::Sei | Mnemonic::Cld | Mnemonic::Sed | Mnemonic::Clv | Mnemonic::Nop => self.execute_status(mnemonic, mode),
        }
    }

    /// What `mnemonic` does where it is a load, a store or a transfer between registers. Any other mnemonic
    /// leaves the state alone.
    #[verifier::opaque]
    pub open spec fn execute_transfer(self, mnemonic: Mnemonic, mode: AddressingMode) -> (Self, u32) {
        match mnemonic {
            Mnemonic::Lda => self.lda(mode),
            Mnemonic::Ldx => self.ldx(mode),
            Mnemonic::Ldy => self.ldy(mode),
            Mnemonic::Sta => self.sta(mode),
            Mnemonic::Stx => self.stx(mode),
            Mnemonic::Sty => self.sty(mode),
            Mnemonic::Tax => self.tax(),
            Mnemonic::Tay => self.tay(),
            Mnemonic::Txa => self.txa(),
            Mnemonic::Tya => self.tya(),
            Mnemonic::Tsx => self.tsx(),
            Mnemonic::Txs => self.txs(),
            _ => (self, 0),
        }
    }

    /// What `mnemonic` does where it is an arithmetic, logic or compare instruction. Any other mnemonic
    /// leaves the state alone.
    #[verifier::opaque]
    pub open spec fn execute_arithmetic(self, mnemonic: Mnemonic, mode: AddressingMode) -> (Self, u32) {
        match mnemonic {
            Mnemonic::Adc => self.adc(mode),
            Mnemonic::Sbc => self.sbc(mode),
            Mnemonic::And => self.and(mode),
            Mnemonic::Ora => self.ora(mode),
            Mnemonic::Eor => self.eor(mode),
            Mnemonic::Bit => self.bit(mode),
            Mnemonic::Cmp => self.cmp(mode),
            Mnemonic::Cpx => self.cpx(mode),
            Mnemonic::Cpy => self.cpy(mode),
            _ => (self, 0),
        }
    }

    /// What `mnemonic` does where it is a shift, a rotate, an increment or a decrement. Any other mnemonic
    /// leaves the state alone.
    #[verifier::opaque]
    pub open spec fn execute_modify(self, mnemonic: Mnemonic, mode: AddressingMode) -> (Self, u32) {
        match mnemonic {
            Mnemonic::Asl => self.asl(mode),
            Mnemonic::Lsr => self.lsr(mode),
            Mnemonic::Rol => self.rol(mode),
            Mnemonic::Ror => self.ror(mode),
            Mnemonic::Inc => self.inc(mode),
            Mnemonic::Dec => self.dec(mode),
            Mnemonic::Inx => self.inx(),
            Mnemonic::Iny => self.iny(),
            Mnemonic::Dex => self.dex(),
            Mnemonic::Dey => self.dey(),
            _ => (self, 0),
        }
    }

    /// What `mnemonic` does where it is a branch. Any other mnemonic
    /// leaves the state alone.
    #[verifier::opaque]
    pub open spec fn execute_branch(self, mnemonic: Mnemonic, mode: AddressingMode) -> (Self, u32) {
        match mnemonic {
            Mnemonic::Bcc => self.branch(mode, !self.p.c),
            Mnemonic::Bcs => self.branch(mode, self.p.c),
            Mnemonic::Beq => self.branch(mode, self.p.z),
            Mnemonic::Bne => self.branch(mode, !self.p.z),
            Mnemonic::Bmi => self.branch(mode, self.p.n),
            Mnemonic::Bpl => self.branch(mode, !self.p.n),
            Mnemonic::Bvc => self.branch(mode, !self.p.v),
            Mnemonic::Bvs => self.branch(mode, self.p.v),
            _ => (self, 0),
        }
    }

    /// What `mnemonic` does where it is a jump, a stack instruction or a return. Any other mnemonic
    /// leaves the state alone.
    #[verifier::opaque]
    pub open spec fn execute_control(self, mnemonic: Mnemonic, mode: AddressingMode) -> (Self, u32) {
        match mnemonic {
            Mnemonic::Jmp => self.jmp(mode),
            Mnemonic::Jsr => self.jsr(mode),
            Mnemonic::Rts => self.rts(),
            Mnemonic::Brk => self.brk(),
            Mnemonic::Rti => self.rti(),
            Mnemonic::Pha => self.pha(),
            Mnemonic::Pla => self.pla(),
            Mnemonic::Php => self.php(),
            Mnemonic::Plp => self.plp(),
            _ => (self, 0),
        }
    }

    /// What `mnemonic` does where it is a flag instruction or NOP. Any other mnemonic
    /// leaves the state alone.
    #[verifier::opaque]
    pub open spec fn execute_status(self, mnemonic: Mnemonic, mode: AddressingMode) -> (Self, u32) {
        match mnemonic {
            Mnemonic::Clc => (self.with_flag(Flag::C, false), 0),
            Mnemonic::Sec => (self.with_flag(Flag::C, true), 0),
            Mnemonic::Cli => (self.with_flag(Flag::I, false), 0),
            Mnemonic::Sei => (self.with_flag(Flag::I, true), 0),
            Mnemonic::Cld => (self.with_flag(Flag::D, false), 0),
            Mnemonic::Sed => (self.with_flag(Flag::D, true), 0),
            Mnemonic::Clv => (self.with_flag(Flag::V, false), 0),
            Mnemonic::Nop => (self, 0),
            _ => (self, 0),
        }
    }
}

fn update_zero_flag<M: ReadWriter>(cpu: &mut CPU<M>, result: u8)
    ensures
        final(cpu)@ == old(cpu)@.with_flag(Flag::Z, result == 0),
{
    if result == 0 {
        cpu.p.set(Flag::Z);
    } else {
        cpu.p.clear(Flag::Z);
    }
}

fn update_negative_flag<M: ReadWriter>(cpu: &mut CPU<M>, result: u8)
    ensures
        final(cpu)@ == old(cpu)@.with_flag(Flag::N, result >= 128),
{
    if result >= 128 {
        cpu.p.set(Flag::N);
    } else {
        cpu.p.clear(Flag::N);
    }
}

fn read_register<M: ReadWriter>(cpu: &CPU<M>, register: Register) -> (value: u8)
    ensures
        value == cpu@.register(register),
{
    match register {
        Register::A => cpu.a,
        Register::X => cpu.x,
        Register::Y => cpu.y,
    }
}

fn write_register<M: ReadWriter>(cpu: &mut CPU<M>, register: Register, value: u8)
    ensures
        final(cpu)@ == old(cpu)@.with_register(register, value),
{
    update_zero_flag(cpu, value);
    update_negative_flag(cpu, value);
    match register {
        Register::A => cpu.a = value,
        Register::X => cpu.x = value,
        Register::Y => cpu.y = value,
    }
}

fn load_register<M: ReadWriter>(cpu: &mut CPU<M>, register: Register, load_addr: AddressingMode) -> (cycles: u32)
    ensures
        (final(cpu)@, cycles) == old(cpu)@.load_register(register, load_addr),
{
    let (addr, addr_cycles) = load_addr.resolve(cpu);
    let res = cpu.load_memory(addr);
    write_register(cpu, register, res);
    addr_cycles
}

fn store_register<M: ReadWriter>(cpu: &mut CPU<M>, register: Register, load_addr: AddressingMode) -> (cycles: u32)
    ensures
        (final(cpu)@, cycles) == old(cpu)@.store_register(register, load_addr),
{
    let byte = read_register(cpu, register);
    let (addr, _) = load_addr.resolve(cpu);
    cpu.store_memory(addr, byte);
    0
}

/// LDA: load the accumulator from memory.
pub fn lda<M: ReadWriter>(cpu: &mut CPU<M>, load_addr: AddressingMode) -> (cycles: u32)
    ensures
        (final(cpu)@, cycles) == old(cpu)@.lda(load_addr),
{
    let (addr, addr_cycles) = load_addr.resolve(cpu);
    let res = cpu.load_memory(addr);
    update_zero_flag(cpu, res);
    update_negative_flag(cpu, res);
    cpu.a = res;
    addr_cycles
}

/// LDX: load X from memory.
pub fn ldx<M: ReadWriter>(cpu: &mut CPU<M>, load_addr: AddressingMode) -> (cycles: u32)
    ensures
        (final(cpu)@, cycles) == old(cpu)@.ldx(load_addr),
{
    load_register(cpu, Register::X, load_addr)
}

/// LDY: load Y from memory.
pub fn ldy<M: ReadWriter>(cpu: &mut CPU<M>, load_addr: AddressingMode) -> (cycles: u32)
    ensures
        (final(cpu)@, cycles) == old(cpu)@.ldy(load_addr),
{
    load_register(cpu, Register::Y, load_addr)
}

/// STA: store the accumulator in memory.
pub fn sta<M: ReadWriter>(cpu: &mut CPU<M>, load_addr: AddressingMode) -> (cycles: u32)
    ensures
        (final(cpu)@, cycles) == old(cpu)@.sta(load_addr),
{
    let byte = cpu.a;
    let (addr, _) = load_addr.resolve(cpu);
    cpu.store_memory(addr, byte);
    0
}

/// STX: store X in memory.
pub fn stx<M: ReadWriter>(cpu: &mut CPU<M>, load_addr: AddressingMode) -> (cycles: u32)
    ensures
        (final(cpu)@, cycles) == old(cpu)@.stx(load_addr),
{
    store_register(cpu, Register::X, load_addr)
}

/// STY: store Y in memory.
pub fn sty<M: ReadWriter>(cpu: &mut CPU<M>, load_addr: AddressingMode) -> (cycles: u32)
    ensures
        (final(cpu)@, cycles) == old(cpu)@.sty(load_addr),
{
    store_register(cpu, Register::Y, load_addr)
}

/// TAX: copy the accumulator to X.
pub fn tax<M: ReadWriter>(cpu: &mut CPU<M>, _mode: AddressingMode) -> (cycles: u32)
    ensures
        (final(cpu)@, cycles) == old(cpu)@.tax(),
{
    write_register(cpu, Register::X, cpu.a);
    0
}

/// TAY: copy the accumulator to Y.
pub fn tay<M: ReadWriter>(cpu: &mut CPU<M>, _mode: AddressingMode) -> (cycles: u32)
    ensures
        (final(cpu)@, cycles) == old(cpu)@.tay(),
{
    write_register(cpu, Register::Y, cpu.a);
    0
}

/// TXA: copy X to the accumulator.
pub fn txa<M: ReadWriter>(cpu: &mut CPU<M>, _mode: AddressingMode) -> (cycles: u32)
    ensures
        (final(cpu)@, cycles) == old(cpu)@.txa(),
{
    write_register(cpu, Register::A, cpu.x);
    0
}

/// TYA: copy Y to the accumulator.
pub fn tya<M: ReadWriter>(cpu: &mut CPU<M>, _mode: AddressingMode) -> (cycles: u32)
    ensures
        (final(cpu)@, cycles) == old(cpu)@.tya(),
{
    write_register(cpu, Register::A, cpu.y);
    0
}

/// TSX: copy the stack pointer to X.
pub fn tsx<M: ReadWriter>(cpu: &mut CPU<M>, _mode: AddressingMode) -> (cycles: u32)
    ensures
        (final(cpu)@, cycles) == old(cpu)@.tsx(),
{
    write_register(cpu, Register::X, cpu.s);
    0
}

/// TXS: copy X to the stack pointer.
pub fn txs<M: ReadWriter>(cpu: &mut CPU<M>, _mode: AddressingMode) -> (cycles: u32)
    ensures
        (final(cpu)@, cycles) == old(cpu)@.txs(),
{
    cpu.s = cpu.x;
    0
}

/// PHA: push the accumulator.
pub fn pha<M: ReadWriter>(cpu: &mut CPU<M>, _mode: AddressingMode) -> (cycles: u32)
    ensures
        (final(cpu)@, cycles) == old(cpu)@.pha(),
{
    cpu.push(cpu.a);
    0
}

/// PLA: pop the accumulator.
pub fn pla<M: ReadWriter>(cpu: &mut CPU<M>, _mode: AddressingMode) -> (cycles: u32)
    ensures
        (final(cpu)@, cycles) == old(cpu)@.pla(),
{
    let byte = cpu.pop();
    write_register(cpu, Register::A, byte);
    0
}

/// PHP: push the status.
pub fn php<M: ReadWriter>(cpu: &mut CPU<M>, _mode: AddressingMode) -> (cycles: u32)
    ensures
        (final(cpu)@, cycles) == old(cpu)@.php(),
{
    cpu.push(cpu.p.to_byte(true));
    0
}

/// PLP: pop the status.
pub fn plp<M: ReadWriter>(cpu: &mut CPU<M>, _mode: AddressingMode) -> (cycles: u32)
    ensures
        (final(cpu)@, cycles) == old(cpu)@.plp(),
{
    let byte = cpu.pop();
    cpu.p = Flags::from_byte(byte);
    0
}

fn add_binary_with_carry(a: u8, m: u8, carry_in: bool) -> (sum: Sum)
    ensures
        sum == add_binary(a, m, carry_in),
{
    let carry_val: u16 = if carry_in {
        1
    } else {
        0
    };
    let total: u16 = a as u16 + m as u16 + carry_val;
    let res: u8 = (total % 256) as u8;

    // Overflow: the operands agree in sign and the result does not.
    let a_sign = a >= 128;
    let mem_sign = m >= 128;
    let res_sign = res >= 128;
    proof {
        lemma_add_overflow_by_signs(a, m, carry_in);
    }
    Sum { result: res, carry: total > 255, overflow: (a_sign == mem_sign) && (a_sign != res_sign) }
}

fn add_decimal_with_carry(a: u8, m: u8, carry_in: bool) -> (sum: Sum)
    ensures
        sum == add_decimal(a, m, carry_in),
{
    let carry_val: u16 = if carry_in {
        1
    } else {
        0
    };
    let hex_a = bcd_to_hex(a);
    let hex_mem = bcd_to_hex(m);
    let hex_res: u16 = hex_a as u16 + hex_mem as u16 + carry_val;

    // Wrap to at most 99.
    let (res, carry) = if hex_res <= 99 {
        (hex_to_bcd(hex_res as u8), false)
    } else {
        (hex_to_bcd((hex_res % 100) as u8), true)
    };
    let a_sign = a >= 128;
    let mem_sign = m >= 128;
    let res_sign = res >= 128;
    Sum { result: res, carry, overflow: (a_sign == mem_sign) && (a_sign != res_sign) }
}

/// Adds `m` and the carry to `a`, in decimal if `decimal` says so.
pub fn add_with_carry(a: u8, m: u8, carry_in: bool, decimal: bool) -> (sum: Sum)
    ensures
        sum == if decimal {
            add_decimal(a, m, carry_in)
        } else {
            add_binary(a, m, carry_in)
        },
{
    if decimal {
        add_decimal_with_carry(a, m, carry_in)
    } else {
        add_binary_with_carry(a, m, carry_in)
    }
}

fn subtract_binary_with_borrow(a: u8, m: u8, carry_in: bool) -> (sum: Sum)
    ensures
        sum == subtract_binary(a, m, carry_in),
{
    let borrow: u16 = if carry_in {
        0
    } else {
        1
    };
    // Lifted by 256 to stay above zero.
    let lifted: u16 = 256 + a as u16 - m as u16 - borrow;
    let res: u8 = (lifted % 256) as u8;
    proof {
        let total = a - m - (1 - weight(carry_in));
        vstd::arithmetic::div_mod::lemma_mod_multiples_vanish(1, total, 256);
        lemma_subtract_is_add_complement(a, m, carry_in);
    }

    // Overflow: the operands differ in sign and the result sides with `m`.
    let a_sign = a >= 128;
    let mem_sign = m >= 128;
    let res_sign = res >= 128;
    Sum { result: res, carry: lifted >= 256, overflow: (a_sign != mem_sign) && (mem_sign == res_sign) }
}

fn subtract_decimal_with_borrow(a: u8, m: u8, carry_in: bool) -> (sum: Sum)
    ensures
        sum == subtract_decimal(a, m, carry_in),
{
    let borrow: u16 = if carry_in {
        0
    } else {
        1
    };
    let hex_a = bcd_to_hex(a);
    let hex_mem = bcd_to_hex(m);
    let hex_sub_amount: u16 = hex_mem as u16 + borrow;

    // Lifted by 200 to stay above zero: below 200 the difference wrapped
    // to 99 and borrowed.
    let lifted: u16 = 200 + hex_a as u16 - hex_sub_amount;
    proof {
        let total = bcd_value(a) - bcd_value(m) - (1 - weight(carry_in));
        vstd::arithmetic::div_mod::lemma_mod_multiples_vanish(2, total, 100);
    }
    let res = hex_to_bcd((lifted % 100) as u8);
    let a_sign = a >= 128;
    let mem_sign = m >= 128;
    let res_sign = res >= 128;
    Sum { result: res, carry: lifted >= 200, overflow: (a_sign != mem_sign) && (mem_sign == res_sign) }
}

/// Subtracts `m` and the borrow from `a`, in decimal if `decimal` says so.
/// The borrow is the complement of the carry.
pub fn subtract_with_borrow(a: u8, m: u8, carry_in: bool, decimal: bool) -> (sum: Sum)
    ensures
        sum == if decimal {
            subtract_decimal(a, m, carry_in)
        } else {
            subtract_binary(a, m, carry_in)
        },
{
    if decimal {
        subtract_decimal_with_borrow(a, m, carry_in)
    } else {
        subtract_binary_with_borrow(a, m, carry_in)
    }
}

fn deliver<M: ReadWriter>(cpu: &mut CPU<M>, sum: Sum)
    ensures
        final(cpu)@ == old(cpu)@.with_sum(sum),
{
    cpu.p.assign(Flag::C, sum.carry);
    cpu.p.assign(Flag::V, sum.overflow);
    update_zero_flag(cpu, sum.result);
    update_negative_flag(cpu, sum.result);
    cpu.a = sum.result;
}

/// ADC: add memory and the carry to the accumulator.
pub fn adc<M: ReadWriter>(cpu: &mut CPU<M>, load_addr: AddressingMode) -> (cycles: u32)
    ensures
        (final(cpu)@, cycles) == old(cpu)@.adc(load_addr),
{
    let (addr, addr_cycles) = load_addr.resolve(cpu);
    let mem = cpu.load_memory(addr);
    let decimal = cpu.decimal_enabled && cpu.p.is_set(Flag::D);
    let sum = add_with_carry(cpu.a, mem, cpu.p.is_set(Flag::C), decimal);
    deliver(cpu, sum);
    addr_cycles
}

/// SBC: subtract memory and the borrow from the accumulator. The borrow is
/// the complement of the carry.
pub fn sbc<M: ReadWriter>(cpu: &mut CPU<M>, load_addr: AddressingMode) -> (cycles: u32)
    ensures
        (final(cpu)@, cycles) == old(cpu)@.sbc(load_addr),
{
    let (addr, addr_cycles) = load_addr.resolve(cpu);
    let mem = cpu.load_memory(addr);
    let decimal = cpu.decimal_enabled && cpu.p.is_set(Flag::D);
    let sum = subtract_with_borrow(cpu.a, mem, cpu.p.is_set(Flag::C), decimal);
    deliver(cpu, sum);
    addr_cycles
}

/// AND: bitwise AND of memory with the accumulator.
pub fn and<M: ReadWriter>(cpu: &mut CPU<M>, load_addr: AddressingMode) -> (cycles: u32)
    ensures
        (final(cpu)@, cycles) == old(cpu)@.and(load_addr),
{
    let (addr, addr_cycles) = load_addr.resolve(cpu);
    let mem = cpu.load_memory(addr);
    let res = mem & cpu.a;
    update_zero_flag(cpu, res);
    update_negative_flag(cpu, res);
    cpu.a = res;
    addr_cycles
}

/// ORA: bitwise OR of memory with the accumulator.
pub fn ora<M: ReadWriter>(cpu: &mut CPU<M>, load_addr: AddressingMode) -> (cycles: u32)
    ensures
        (final(cpu)@, cycles) == old(cpu)@.ora(load_addr),
{
    let (addr, addr_cycles) = load_addr.resolve(cpu);
    let mem = cpu.load_memory(addr);
    let res = mem | cpu.a;
    update_zero_flag(cpu, res);
    update_negative_flag(cpu, res);
    cpu.a = res;
    addr_cycles
}

/// EOR: bitwise exclusive OR of memory with the accumulator.
pub fn eor<M: ReadWriter>(cpu: &mut CPU<M>, load_addr: AddressingMode) -> (cycles: u32)
    ensures
        (final(cpu)@, cycles) == old(cpu)@.eor(load_addr),
{
    let (addr, addr_cycles) = load_addr.resolve(cpu);
    let mem = cpu.load_memory(addr);
    let res = mem ^ cpu.a;
    update_zero_flag(cpu, res);
    update_negative_flag(cpu, res);
    cpu.a = res;
    addr_cycles
}

/// BIT: test bits of memory against the accumulator.
pub fn bit_test<M: ReadWriter>(cpu: &mut CPU<M>, load_addr: AddressingMode) -> (cycles: u32)
    ensures
        (final(cpu)@, cycles) == old(cpu)@.bit(load_addr),
{
    let (addr, addr_cycles) = load_addr.resolve(cpu);
    let mem = cpu.load_memory(addr);
    let res = mem & cpu.a;
    update_zero_flag(cpu, res);
    cpu.p.assign(Flag::N, test_bit(mem, 7));
    cpu.p.assign(Flag::V, test_bit(mem, 6));
    addr_cycles
}

/// The byte and the carry that a shift or rotate makes.
pub fn shift_value(kind: Shift, m: u8, carry: bool) -> (out: (u8, bool))
    ensures
        out == shifted(kind, m, carry),
{
    match kind {
        Shift::Left => (add8(m, m), m >= 128),
        Shift::Right => (m / 2, m % 2 == 1),
        Shift::RotateLeft => {
            let doubled = add8(m, m);
            (
                if carry {
                    doubled + 1
                } else {
                    doubled
                },
                m >= 128,
            )
        },
        Shift::RotateRight => (
            if carry {
                m / 2 + 128
            } else {
                m / 2
            },
            m % 2 == 1,
        ),
    }
}

fn shift<M: ReadWriter>(cpu: &mut CPU<M>, kind: Shift, load_addr: AddressingMode) -> (cycles: u32)
    ensures
        (final(cpu)@, cycles) == old(cpu)@.shift(kind, load_addr),
{
    match load_addr {
        AddressingMode::Accumulator => {
            let (res, carry) = shift_value(kind, cpu.a, cpu.p.is_set(Flag::C));
            cpu.a = res;
            cpu.p.assign(Flag::C, carry);
            cpu.p.update_zn(res);
        },
        _ => {
            let (addr, _) = load_addr.resolve(cpu);
            let mem = cpu.load_memory(addr);
            let (res, carry) = shift_value(kind, mem, cpu.p.is_set(Flag::C));
            cpu.store_memory(addr, res);
            cpu.p.assign(Flag::C, carry);
            cpu.p.update_zn(res);
        },
    }
    0
}

/// ASL: shift left.
pub fn asl<M: ReadWriter>(cpu: &mut CPU<M>, load_addr: AddressingMode) -> (cycles: u32)
    ensures
        (final(cpu)@, cycles) == old(cpu)@.asl(load_addr),
{
    shift(cpu, Shift::Left, load_addr)
}

/// LSR: shift right.
pub fn lsr<M: ReadWriter>(cpu: &mut CPU<M>, load_addr: AddressingMode) -> (cycles: u32)
    ensures
        (final(cpu)@, cycles) == old(cpu)@.lsr(load_addr),
{
    shift(cpu, Shift::Right, load_addr)
}

/// ROL: rotate left through the carry.
pub fn rol<M: ReadWriter>(cpu: &mut CPU<M>, load_addr: AddressingMode) -> (cycles: u32)
    ensures
        (final(cpu)@, cycles) == old(cpu)@.rol(load_addr),
{
    shift(cpu, Shift::RotateLeft, load_addr)
}

/// ROR: rotate right through the carry.
pub fn ror<M: ReadWriter>(cpu: &mut CPU<M>, load_addr: AddressingMode) -> (cycles: u32)
    ensures
        (final(cpu)@, cycles) == old(cpu)@.ror(load_addr),
{
    shift(cpu, Shift::RotateRight, load_addr)
}

fn compare<M: ReadWriter>(cpu: &mut CPU<M>, register: Register, load_addr: AddressingMode) -> (cycles: u32)
    ensures
        (final(cpu)@, cycles) == old(cpu)@.compare(register, load_addr),
{
    let (addr, addr_cycles) = load_addr.resolve(cpu);
    let mem = cpu.load_memory(addr);
    let value = read_register(cpu, register);

    let diff = sub8(value, mem);
    update_zero_flag(cpu, diff);
    update_negative_flag(cpu, diff);

    if value < mem {
        cpu.p.clear(Flag::C);
    } else {
        cpu.p.set(Flag::C);
    }

    addr_cycles
}

/// CMP: compare memory and the accumulator.
pub fn cmp<M: ReadWriter>(cpu: &mut CPU<M>, load_addr: AddressingMode) -> (cycles: u32)
    ensures
        (final(cpu)@, cycles) == old(cpu)@.cmp(load_addr),
{
    let (addr, addr_cycles) = load_addr.resolve(cpu);
    let mem = cpu.load_memory(addr);

    let diff = sub8(cpu.a, mem);
    update_zero_flag(cpu, diff);
    update_negative_flag(cpu, diff);

    if cpu.a < mem {
        cpu.p.clear(Flag::C);
    } else {
        cpu.p.set(Flag::C);
    }

    addr_cycles
}

/// CPX: compare memory and X.
pub fn cpx<M: ReadWriter>(cpu: &mut CPU<M>, load_addr: AddressingMode) -> (cycles: u32)
    ensures
        (final(cpu)@, cycles) == old(cpu)@.cpx(load_addr),
{
    compare(cpu, Register::X, load_addr)
}

/// CPY: compare memory and Y.
pub fn cpy<M: ReadWriter>(cpu: &mut CPU<M>, load_addr: AddressingMode) -> (cycles: u32)
    ensures
        (final(cpu)@, cycles) == old(cpu)@.cpy(load_addr),
{
    compare(cpu, Register::Y, load_addr)
}

/// INC: add one to a byte in memory.
pub fn inc<M: ReadWriter>(cpu: &mut CPU<M>, load_addr: AddressingMode) -> (cycles: u32)
    ensures
        (final(cpu)@, cycles) == old(cpu)@.inc(load_addr),
{
    let (addr, _) = load_addr.resolve(cpu);
    let mem = cpu.load_memory(addr);
    let res = add8(mem, 1);
    cpu.store_memory(addr, res);
    cpu.p.update_zn(res);
    0
}

/// DEC: subtract one from a byte in memory.
pub fn dec<M: ReadWriter>(cpu: &mut CPU<M>, load_addr: AddressingMode) -> (cycles: u32)
    ensures
        (final(cpu)@, cycles) == old(cpu)@.dec(load_addr),
{
    let (addr, _) = load_addr.resolve(cpu);
    let mem = cpu.load_memory(addr);
    let res = sub8(mem, 1);
    cpu.store_memory(addr, res);
    cpu.p.update_zn(res);
    0
}

/// INX: add one to X.
pub fn inx<M: ReadWriter>(cpu: &mut CPU<M>, _mode: AddressingMode) -> (cycles: u32)
    ensures
        (final(cpu)@, cycles) == old(cpu)@.inx(),
{
    write_register(cpu, Register::X, add8(cpu.x, 1));
    0
}

/// INY: add one to Y.
pub fn iny<M: ReadWriter>(cpu: &mut CPU<M>, _mode: AddressingMode) -> (cycles: u32)
    ensures
        (final(cpu)@, cycles) == old(cpu)@.iny(),
{
    write_register(cpu, Register::Y, add8(cpu.y, 1));
    0
}

/// DEX: subtract one from X.
pub fn dex<M: ReadWriter>(cpu: &mut CPU<M>, _mode: AddressingMode) -> (cycles: u32)
    ensures
        (final(cpu)@, cycles) == old(cpu)@.dex(),
{
    write_register(cpu, Register::X, sub8(cpu.x, 1));
    0
}

/// DEY: subtract one from Y.
pub fn dey<M: ReadWriter>(cpu: &mut CPU<M>, _mode: AddressingMode) -> (cycles: u32)
    ensures
        (final(cpu)@, cycles) == old(cpu)@.dey(),
{
    write_register(cpu, Register::Y, sub8(cpu.y, 1));
    0
}

/// SEC: set the carry flag.
pub fn sec<M: ReadWriter>(cpu: &mut CPU<M>, _mode: AddressingMode) -> (cycles: u32)
    ensures
        final(cpu)@ == old(cpu)@.with_flag(Flag::C, true),
        cycles == 0,
{
    cpu.p.set(Flag::C);
    0
}

/// CLC: clear the carry flag.
pub fn clc<M: ReadWriter>(cpu: &mut CPU<M>, _mode: AddressingMode) -> (cycles: u32)
    ensures
        final(cpu)@ == old(cpu)@.with_flag(Flag::C, false),
        cycles == 0,
{
    cpu.p.clear(Flag::C);
    0
}

/// SEI: set interrupt disable.
pub fn sei<M: ReadWriter>(cpu: &mut CPU<M>, _mode: AddressingMode) -> (cycles: u32)
    ensures
        final(cpu)@ == old(cpu)@.with_flag(Flag::I, true),
        cycles == 0,
{
    cpu.p.set(Flag::I);
    0
}

/// CLI: clear interrupt disable.
pub fn cli<M: ReadWriter>(cpu: &mut CPU<M>, _mode: AddressingMode) -> (cycles: u32)
    ensures
        final(cpu)@ == old(cpu)@.with_flag(Flag::I, false),
        cycles == 0,
{
    cpu.p.clear(Flag::I);
    0
}

/// SED: set decimal mode.
pub fn sed<M: ReadWriter>(cpu: &mut CPU<M>, _mode: AddressingMode) -> (cycles: u32)
    ensures
        final(cpu)@ == old(cpu)@.with_flag(Flag::D, true),
        cycles == 0,
{
    cpu.p.set(Flag::D);
    0
}

/// CLD: clear decimal mode.
pub fn cld<M: ReadWriter>(cpu: &mut CPU<M>, _mode: AddressingMode) -> (cycles: u32)
    ensures
        final(cpu)@ == old(cpu)@.with_flag(Flag::D, false),
        cycles == 0,
{
    cpu.p.clear(Flag::D);
    0
}

/// CLV: clear the overflow flag.
pub fn clv<M: ReadWriter>(cpu: &mut CPU<M>, _mode: AddressingMode) -> (cycles: u32)
    ensures
        final(cpu)@ == old(cpu)@.with_flag(Flag::V, false),
        cycles == 0,
{
    cpu.p.clear(Flag::V);
    0
}

/// JMP: jump to a new location.
pub fn jmp<M: ReadWriter>(cpu: &mut CPU<M>, load_addr: AddressingMode) -> (cycles: u32)
    ensures
        (final(cpu)@, cycles) == old(cpu)@.jmp(load_addr),
{
    let (addr, addr_cycles) = load_addr.resolve(cpu);
    cpu.pc = addr;
    addr_cycles
}

/// JSR: jump to a subroutine.
pub fn jsr<M: ReadWriter>(cpu: &mut CPU<M>, load_addr: AddressingMode) -> (cycles: u32)
    ensures
        (final(cpu)@, cycles) == old(cpu)@.jsr(load_addr),
{
    let (addr, addr_cycles) = load_addr.resolve(cpu);
    cpu.push_word(sub16(cpu.pc, 1));
    cpu.pc = addr;
    addr_cycles
}

/// RTS: return from a subroutine.
pub fn rts<M: ReadWriter>(cpu: &mut CPU<M>, _mode: AddressingMode) -> (cycles: u32)
    ensures
        (final(cpu)@, cycles) == old(cpu)@.rts(),
{
    let address = cpu.pop_word();
    cpu.pc = add16(address, 1);
    0
}

// Common functionality for branch instructions.
fn branch_if<M: ReadWriter>(cpu: &mut CPU<M>, load_addr: AddressingMode, should_branch: bool) -> (cycles: u32)
    ensures
        (final(cpu)@, cycles) == old(cpu)@.branch(load_addr, should_branch),
{
    let (addr, addr_cycles) = load_addr.resolve(cpu);
    if should_branch {
        cpu.pc = addr;
        addr_cycles + 1
    } else {
        // If not branching we don't incur any of the extra cycles.
        0
    }
}

/// BMI: branch on result minus.
pub fn bmi<M: ReadWriter>(cpu: &mut CPU<M>, load_addr: AddressingMode) -> (cycles: u32)
    ensures
        (final(cpu)@, cycles) == old(cpu)@.branch(load_addr, old(cpu).p.n),
{
    let should_branch = cpu.p.is_set(Flag::N);
    branch_if(cpu, load_addr, should_branch)
}

/// BPL: branch on result plus.
pub fn bpl<M: ReadWriter>(cpu: &mut CPU<M>, load_addr: AddressingMode) -> (cycles: u32)
    ensures
        (final(cpu)@, cycles) == old(cpu)@.branch(load_addr, !old(cpu).p.n),
{
    let should_branch = !cpu.p.is_set(Flag::N);
    branch_if(cpu, load_addr, should_branch)
}

/// BCC: branch on carry clear.
pub fn bcc<M: ReadWriter>(cpu: &mut CPU<M>, load_addr: AddressingMode) -> (cycles: u32)
    ensures
        (final(cpu)@, cycles) == old(cpu)@.branch(load_addr, !old(cpu).p.c),
{
    let should_branch = !cpu.p.is_set(Flag::C);
    branch_if(cpu, load_addr, should_branch)
}

/// BCS: branch on carry set.
pub fn bcs<M: ReadWriter>(cpu: &mut CPU<M>, load_addr: AddressingMode) -> (cycles: u32)
    ensures
        (final(cpu)@, cycles) == old(cpu)@.branch(load_addr, old(cpu).p.c),
{
    let should_branch = cpu.p.is_set(Flag::C);
    branch_if(cpu, load_addr, should_branch)
}

/// BEQ: branch on result zero.
pub fn beq<M: ReadWriter>(cpu: &mut CPU<M>, load_addr: AddressingMode) -> (cycles: u32)
    ensures
        (final(cpu)@, cycles) == old(cpu)@.branch(load_addr, old(cpu).p.z),
{
    let should_branch = cpu.p.is_set(Flag::Z);
    branch_if(cpu, load_addr, should_branch)
}

/// BNE: branch on result not zero.
pub fn bne<M: ReadWriter>(cpu: &mut CPU<M>, load_addr: AddressingMode) -> (cycles: u32)
    ensures
        (final(cpu)@, cycles) == old(cpu)@.branch(load_addr, !old(cpu).p.z),
{
    let should_branch = !cpu.p.is_set(Flag::Z);
    branch_if(cpu, load_addr, should_branch)
}

/// BVS: branch on overflow set.
pub fn bvs<M: ReadWriter>(cpu: &mut CPU<M>, load_addr: AddressingMode) -> (cycles: u32)
    ensures
        (final(cpu)@, cycles) == old(cpu)@.branch(load_addr, old(cpu).p.v),
{
    let should_branch = cpu.p.is_set(Flag::V);
    branch_if(cpu, load_addr, should_branch)
}

/// BVC: branch on overflow clear.
pub fn bvc<M: ReadWriter>(cpu: &mut CPU<M>, load_addr: AddressingMode) -> (cycles: u32)
    ensures
        (final(cpu)@, cycles) == old(cpu)@.branch(load_addr, !old(cpu).p.v),
{
    let should_branch = !cpu.p.is_set(Flag::V);
    branch_if(cpu, load_addr, should_branch)
}

/// NOP: do nothing.
pub fn nop<M: ReadWriter>(cpu: &mut CPU<M>, _mode: AddressingMode) -> (cycles: u32)
    ensures
        final(cpu)@ == old(cpu)@,
        cycles == 0,
{
    0
}

/// BRK: force an interrupt.
pub fn brk<M: ReadWriter>(cpu: &mut CPU<M>, _mode: AddressingMode) -> (cycles: u32)
    ensures
        (final(cpu)@, cycles) == old(cpu)@.brk(),
{
    cpu.pc = add16(cpu.pc, 1);
    cpu.interrupt(IRQ_VECTOR, true);
    0
}

/// RTI: return from an interrupt.
pub fn rti<M: ReadWriter>(cpu: &mut CPU<M>, _mode: AddressingMode) -> (cycles: u32)
    ensures
        (final(cpu)@, cycles) == old(cpu)@.rti(),
{
    let byte = cpu.pop();
    let pc = cpu.pop_word();
    cpu.p = Flags::from_byte(byte);
    cpu.pc = pc;
    0
}

fn execute_transfer<M: ReadWriter>(cpu: &mut CPU<M>, mnemonic: Mnemonic, mode: AddressingMode) -> (cycles: u32)
    ensures
        (final(cpu)@, cycles) == old(cpu)@.execute_transfer(mnemonic, mode),
{
    reveal(CpuState::execute_transfer);
    match mnemonic {
        Mnemonic::Lda => lda(cpu, mode),
        Mnemonic::Ldx => ldx(cpu, mode),
        Mnemonic::Ldy => ldy(cpu, mode),
        Mnemonic::Sta => sta(cpu, mode),
        Mnemonic::Stx => stx(cpu, mode),
        Mnemonic::Sty => sty(cpu, mode),
        Mnemonic::Tax => tax(cpu, mode),
        Mnemonic::Tay => tay(cpu, mode),
        Mnemonic::Txa => txa(cpu, mode),
        Mnemonic::Tya => tya(cpu, mode),
        Mnemonic::Tsx => tsx(cpu, mode),
        Mnemonic::Txs => txs(cpu, mode),
        _ => 0,
    }
}

fn execute_arithmetic<M: ReadWriter>(cpu: &mut CPU<M>, mnemonic: Mnemonic, mode: AddressingMode) -> (cycles: u32)
    ensures
        (final(cpu)@, cycles) == old(cpu)@.execute_arithmetic(mnemonic, mode),
{
    reveal(CpuState::execute_arithmetic);
    match mnemonic {
        Mnemonic::Adc => adc(cpu, mode),
        Mnemonic::Sbc => sbc(cpu, mode),
        Mnemonic::And => and(cpu, mode),
        Mnemonic::Ora => ora(cpu, mode),
        Mnemonic::Eor => eor(cpu, mode),
        Mnemonic::Bit => bit_test(cpu, mode),
        Mnemonic::Cmp => cmp(cpu, mode),
        Mnemonic::Cpx => cpx(cpu, mode),
        Mnemonic::Cpy => cpy(cpu, mode),
        _ => 0,
    }
}

fn execute_modify<M: ReadWriter>(cpu: &mut CPU<M>, mnemonic: Mnemonic, mode: AddressingMode) -> (cycles: u32)
    ensures
        (final(cpu)@, cycles) == old(cpu)@.execute_modify(mnemonic, mode),
{
    reveal(CpuState::execute_modify);
    match mnemonic {
        Mnemonic::Asl => asl(cpu, mode),
        Mnemonic::Lsr => lsr(cpu, mode),
        Mnemonic::Rol => rol(cpu, mode),
        Mnemonic::Ror => ror(cpu, mode),
        Mnemonic::Inc => inc(cpu, mode),
        Mnemonic::Dec => dec(cpu, mode),
        Mnemonic::Inx => inx(cpu, mode),
        Mnemonic::Iny => iny(cpu, mode),
        Mnemonic::Dex => dex(cpu, mode),
        Mnemonic::Dey => dey(cpu, mode),
        _ => 0,
    }
}

fn execute_branch<M: ReadWriter>(cpu: &mut CPU<M>, mnemonic: Mnemonic, mode: AddressingMode) -> (cycles: u32)
    ensures
        (final(cpu)@, cycles) == old(cpu)@.execute_branch(mnemonic, mode),
{
    reveal(CpuState::execute_branch);
    match mnemonic {
        Mnemonic::Bcc => bcc(cpu, mode),
        Mnemonic::Bcs => bcs(cpu, mode),
        Mnemonic::Beq => beq(cpu, mode),
        Mnemonic::Bne => bne(cpu, mode),
        Mnemonic::Bmi => bmi(cpu, mode),
        Mnemonic::Bpl => bpl(cpu, mode),
        Mnemonic::Bvc => bvc(cpu, mode),
        Mnemonic::Bvs => bvs(cpu, mode),
        _ => 0,
    }
}

fn execute_control<M: ReadWriter>(cpu: &mut CPU<M>, mnemonic: Mnemonic, mode: AddressingMode) -> (cycles: u32)
    ensures
        (final(cpu)@, cycles) == old(cpu)@.execute_control(mnemonic, mode),
{
    reveal(CpuState::execute_control);
    match mnemonic {
        Mnemonic::Jmp => jmp(cpu, mode),
        Mnemonic::Jsr => jsr(cpu, mode),
        Mnemonic::Rts => rts(cpu, mode),
        Mnemonic::Brk => brk(cpu, mode),
        Mnemonic::Rti => rti(cpu, mode),
        Mnemonic::Pha => pha(cpu, mode),
        Mnemonic::Pla => pla(cpu, mode),
        Mnemonic::Php => php(cpu, mode),
        Mnemonic::Plp => plp(cpu, mode),
        _ => 0,
    }
}

fn execute_status<M: ReadWriter>(cpu: &mut CPU<M>, mnemonic: Mnemonic, mode: AddressingMode) -> (cycles: u32)
    ensures
        (final(cpu)@, cycles) == old(cpu)@.execute_status(mnemonic, mode),
{
    reveal(CpuState::execute_status);
    match mnemonic {
        Mnemonic::Clc => clc(cpu, mode),
        Mnemonic::Sec => sec(cpu, mode),
        Mnemonic::Cli => cli(cpu, mode),
        Mnemonic::Sei => sei(cpu, mode),
        Mnemonic::Cld => cld(cpu, mode),
        Mnemonic::Sed => sed(cpu, mode),
        Mnemonic::Clv => clv(cpu, mode),
        Mnemonic::Nop => nop(cpu, mode),
        _ => 0,
    }
}

/// No instruction takes more than two cycles beyond its base count: one for
/// a page crossed, one for a branch taken.
pub proof fn lemma_extra_cycles<M: ReadWriter>(state: CpuState<M>, mnemonic: Mnemonic, mode: AddressingMode)
    ensures
        state.execute(mnemonic, mode).1 <= 2,
{
    lemma_resolve_cycles(state, mode);
    match mnemonic {
        Mnemonic::Lda | Mnemonic::Ldx | Mnemonic::Ldy | Mnemonic::Sta | Mnemonic::Stx | Mnemonic::Sty | Mnemonic::Tax | Mnemonic::Tay | Mnemonic::Txa | Mnemonic::Tya | Mnemonic::Tsx | Mnemonic::Txs => {
            reveal(CpuState::execute_transfer);
        },
        Mnemonic::Adc | Mnemonic::Sbc | Mnemonic::And | Mnemonic::Ora | Mnemonic::Eor | Mnemonic::Bit | Mnemonic::Cmp | Mnemonic::Cpx | Mnemonic::Cpy => {
            reveal(CpuState::execute_arithmetic);
        },
        Mnemonic::Asl | Mnemonic::Lsr | Mnemonic::Rol | Mnemonic::Ror | Mnemonic::Inc | Mnemonic::Dec | Mnemonic::Inx | Mnemonic::Iny | Mnemonic::Dex | Mnemonic::Dey => {
            reveal(CpuState::execute_modify);
        },
        Mnemonic::Bcc | Mnemonic::Bcs | Mnemonic::Beq | Mnemonic::Bne | Mnemonic::Bmi | Mnemonic::Bpl | Mnemonic::Bvc | Mnemonic::Bvs => {
            reveal(CpuState::execute_branch);
        },
        Mnemonic::Jmp | Mnemonic::Jsr | Mnemonic::Rts | Mnemonic::Brk | Mnemonic::Rti | Mnemonic::Pha | Mnemonic::Pla | Mnemonic::Php | Mnemonic::Plp => {
            reveal(CpuState::execute_control);
        },
        Mnemonic::Clc | Mnemonic::Sec | Mnemonic::Cli | Mnemonic::Sei | Mnemonic::Cld | Mnemonic::Sed | Mnemonic::Clv | Mnemonic::Nop => {
            reveal(CpuState::execute_status);
        },
    }
}

/// No instruction touches the cycle counter, the interrupt lines or the
/// CPU's configuration.
pub proof fn lemma_execute_frame<M: ReadWriter>(state: CpuState<M>, mnemonic: Mnemonic, mode: AddressingMode)
    ensures
        state.execute(mnemonic, mode).0.cycles == state.cycles,
        state.execute(mnemonic, mode).0.nmi_pending == state.nmi_pending,
        state.execute(mnemonic, mode).0.irq_line == state.irq_line,
        state.execute(mnemonic, mode).0.decimal_enabled == state.decimal_enabled,
        state.execute(mnemonic, mode).0.strict == state.strict,
{
    lemma_resolve_cycles(state, mode);
    match mnemonic {
        Mnemonic::Lda | Mnemonic::Ldx | Mnemonic::Ldy | Mnemonic::Sta | Mnemonic::Stx | Mnemonic::Sty | Mnemonic::Tax | Mnemonic::Tay | Mnemonic::Txa | Mnemonic::Tya | Mnemonic::Tsx | Mnemonic::Txs => {
            reveal(CpuState::execute_transfer);
        },
        Mnemonic::Adc | Mnemonic::Sbc | Mnemonic::And | Mnemonic::Ora | Mnemonic::Eor | Mnemonic::Bit | Mnemonic::Cmp | Mnemonic::Cpx | Mnemonic::Cpy => {
            reveal(CpuState::execute_arithmetic);
        },
        Mnemonic::Asl | Mnemonic::Lsr | Mnemonic::Rol | Mnemonic::Ror | Mnemonic::Inc | Mnemonic::Dec | Mnemonic::Inx | Mnemonic::Iny | Mnemonic::Dex | Mnemonic::Dey => {
            reveal(CpuState::execute_modify);
        },
        Mnemonic::Bcc | Mnemonic::Bcs | Mnemonic::Beq | Mnemonic::Bne | Mnemonic::Bmi | Mnemonic::Bpl | Mnemonic::Bvc | Mnemonic::Bvs => {
            reveal(CpuState::execute_branch);
        },
        Mnemonic::Jmp | Mnemonic::Jsr | Mnemonic::Rts | Mnemonic::Brk | Mnemonic::Rti | Mnemonic::Pha | Mnemonic::Pla | Mnemonic::Php | Mnemonic::Plp => {
            reveal(CpuState::execute_control);
        },
        Mnemonic::Clc | Mnemonic::Sec | Mnemonic::Cli | Mnemonic::Sei | Mnemonic::Cld | Mnemonic::Sed | Mnemonic::Clv | Mnemonic::Nop => {
            reveal(CpuState::execute_status);
        },
    }
}

/// Runs one instruction.
pub fn execute<M: ReadWriter>(cpu: &mut CPU<M>, mnemonic: Mnemonic, mode: AddressingMode) -> (cycles: u32)
    ensures
        (final(cpu)@, cycles) == old(cpu)@.execute(mnemonic, mode),
        cycles <= 2,
{
    proof {
        lemma_extra_cycles(cpu@, mnemonic, mode);
    }
    match mnemonic {
        Mnemonic::Lda | Mnemonic::Ldx | Mnemonic::Ldy | Mnemonic::Sta | Mnemonic::Stx | Mnemonic::Sty | Mnemonic::Tax | Mnemonic::Tay | Mnemonic::Txa | Mnemonic::Tya | Mnemonic::Tsx | Mnemonic::Txs => execute_transfer(cpu, mnemonic, mode),
        Mnemonic::Adc | Mnemonic::Sbc | Mnemonic::And | Mnemonic::Ora | Mnemonic::Eor | Mnemonic::Bit | Mnemonic::Cmp | Mnemonic::Cpx | Mnemonic::Cpy => execute_arithmetic(cpu, mnemonic, mode),
        Mnemonic::Asl | Mnemonic::Lsr | Mnemonic::Rol | Mnemonic::Ror | Mnemonic::Inc | Mnemonic::Dec | Mnemonic::Inx | Mnemonic::Iny | Mnemonic::Dex | Mnemonic::Dey => execute_modify(cpu, mnemonic, mode),
        Mnemonic::Bcc | Mnemonic::Bcs | Mnemonic::Beq | Mnemonic::Bne | Mnemonic::Bmi | Mnemonic::Bpl | Mnemonic::Bvc | Mnemonic::Bvs => execute_branch(cpu, mnemonic, mode),
        Mnemonic::Jmp | Mnemonic::Jsr | Mnemonic::Rts | Mnemonic::Brk | Mnemonic::Rti | Mnemonic::Pha | Mnemonic::Pla | Mnemonic::Php | Mnemonic::Plp => execute_control(cpu, mnemonic, mode),
        Mnemonic::Clc | Mnemonic::Sec | Mnemonic::Cli | Mnemonic::Sei | Mnemonic::Cld | Mnemonic::Sed | Mnemonic::Clv | Mnemonic::Nop => execute_status(cpu, mnemonic, mode),
    }
}

} // verus!
