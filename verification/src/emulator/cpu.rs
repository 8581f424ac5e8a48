//! The CPU: registers, the stack, interrupts and the fetch-decode-dispatch
//! loop. Everything the CPU does to the outside goes through its memory.

use crate::bits::{add16, add8, high, high_byte, join, low, low_byte, make_word, sub8, wrap16, wrap8};
use crate::emulator::cpu::flags::Flags;
use crate::emulator::cpu::instructions::execute;
use crate::emulator::cpu::opcodes::{decode, decode_spec};
use crate::emulator::memory::{ReadWriter, Reader, Writer};
use vstd::prelude::*;

pub mod addressing;
pub mod flags;
pub mod frame;
pub mod instructions;
pub mod opcodes;
pub mod round_trips;

verus! {

/// Where the address of the NMI handler is stored.
pub const NMI_VECTOR: u16 = 0xFFFA;

/// Where the address of the reset handler is stored.
pub const RESET_VECTOR: u16 = 0xFFFC;

/// Where the address of the IRQ and BRK handler is stored.
pub const IRQ_VECTOR: u16 = 0xFFFE;

/// The stack pointer after a reset.
pub const RESET_STACK_POINTER: u8 = 0xFD;

/// Cycles that servicing an interrupt takes.
pub const INTERRUPT_CYCLES: u32 = 7;

/// Cycles that an undocumented opcode takes where it runs as a NOP.
pub const UNDOCUMENTED_CYCLES: u32 = 2;

/// Why the CPU stopped.
#[derive(Clone, Copy, Debug, PartialEq, Eq, Structural)]
pub enum CpuError {
    /// The byte at the program counter is no documented opcode.
    UnsupportedOpcode(u8),
}

/// The CPU and the memory it is wired to.
pub struct CPU<M> {
    /// Accumulator.
    pub a: u8,
    /// Index register X.
    pub x: u8,
    /// Index register Y.
    pub y: u8,
    /// Stack pointer: the offset of the next free byte in page 1.
    pub s: u8,
    /// Program counter.
    pub pc: u16,
    /// Status register.
    pub p: Flags,
    /// Cycles run since the last reset.
    pub cycles: u64,
    /// An NMI edge was seen and has not been serviced yet.
    pub nmi_pending: bool,
    /// The level of the IRQ line: true while a device asks for an interrupt.
    pub irq_line: bool,
    /// Whether ADC and SBC honour the D flag. The console's CPU does not.
    pub decimal_enabled: bool,
    /// Whether an undocumented opcode is an error rather than a NOP.
    pub strict: bool,
    pub memory: M,
}

/// The model of a CPU: its registers and the model of its memory.
pub struct CpuState<M: View> {
    pub a: u8,
    pub x: u8,
    pub y: u8,
    pub s: u8,
    pub pc: u16,
    pub p: Flags,
    pub cycles: u64,
    pub nmi_pending: bool,
    pub irq_line: bool,
    pub decimal_enabled: bool,
    pub strict: bool,
    pub memory: M::V,
}

impl<M: View> View for CPU<M> {
    type V = CpuState<M>;

    open spec fn view(&self) -> CpuState<M> {
        CpuState {
            a: self.a,
            x: self.x,
            y: self.y,
            s: self.s,
            pc: self.pc,
            p: self.p,
            cycles: self.cycles,
            nmi_pending: self.nmi_pending,
            irq_line: self.irq_line,
            decimal_enabled: self.decimal_enabled,
            strict: self.strict,
            memory: self.memory@,
        }
    }
}

/// The address in page 1 that stack pointer `s` stands for.
pub open spec fn stack_address(s: u8) -> u16 {
    (0x0100 + s) as u16
}

/// The stack lives in page 1: the address is `$0100 | s`.
pub proof fn lemma_stack_address(s: u8)
    ensures
        stack_address(s) == 0x0100u16 | (s as u16),
        0x0100 <= stack_address(s) <= 0x01FF,
{
    assert(0x0100u16 | (s as u16) == 0x0100 + s) by (bit_vector);
}

impl<M: ReadWriter> CpuState<M> {
    /// Loads a byte.
    pub open spec fn load(self, address: u16) -> (Self, u8) {
        let (memory, byte) = M::read_spec(self.memory, address);
        (CpuState { memory, ..self }, byte)
    }

    /// Stores a byte.
    pub open spec fn store(self, address: u16, byte: u8) -> Self {
        CpuState { memory: M::write_spec(self.memory, address, byte), ..self }
    }

    /// Loads the word whose low byte is at `address` and whose high byte
    /// follows it.
    pub open spec fn load_word(self, address: u16) -> (Self, u16) {
        let (st, lo) = self.load(address);
        let (st, hi) = st.load(wrap16(address + 1));
        (st, join(lo, hi))
    }

    /// Loads the byte at the program counter and steps over it.
    pub open spec fn fetch(self) -> (Self, u8) {
        let (st, byte) = self.load(self.pc);
        (CpuState { pc: wrap16(st.pc + 1), ..st }, byte)
    }

    /// Loads the word at the program counter, low byte first, and steps over it.
    pub open spec fn fetch_word(self) -> (Self, u16) {
        let (st, lo) = self.fetch();
        let (st, hi) = st.fetch();
        (st, join(lo, hi))
    }

    /// Stores a byte at the stack pointer, which then moves down.
    pub open spec fn push(self, byte: u8) -> Self {
        let st = self.store(stack_address(self.s), byte);
        CpuState { s: wrap8(st.s - 1), ..st }
    }

    /// Moves the stack pointer up and loads the byte it then points at.
    pub open spec fn pop(self) -> (Self, u8) {
        let s = wrap8(self.s + 1);
        (CpuState { s, ..self }).load(stack_address(s))
    }

    /// Pushes a word, high byte first.
    pub open spec fn push_word(self, word: u16) -> Self {
        self.push(high(word)).push(low(word))
    }

    /// Pops a word, low byte first.
    pub open spec fn pop_word(self) -> (Self, u16) {
        let (st, lo) = self.pop();
        let (st, hi) = st.pop();
        (st, join(lo, hi))
    }

    /// The CPU after a reset.
    pub open spec fn reset(self) -> Self {
        let (st, pc) = self.load_word(RESET_VECTOR);
        CpuState {
            pc,
            s: RESET_STACK_POINTER,
            p: Flags { i: true, d: false, ..st.p },
            cycles: 0,
            nmi_pending: false,
            ..st
        }
    }

    /// Enters the handler whose address is stored at `vector`: the program
    /// counter and the status go to the stack, the status with bit 4 as
    /// `brk` says, and interrupts are disabled.
    pub open spec fn interrupt(self, vector: u16, brk: bool) -> Self {
        let st = self.push_word(self.pc).push(self.p.pack(brk));
        let (st, pc) = st.load_word(vector);
        CpuState { pc, p: Flags { i: true, ..st.p }, ..st }
    }

    /// The CPU with `cycles` more cycles on its counter, which wraps at 64 bits.
    pub open spec fn elapse(self, cycles: u32) -> Self {
        CpuState { cycles: self.cycles.wrapping_add(cycles as u64), ..self }
    }

    /// One step of the CPU, and the cycles it took.
    ///
    /// A latched NMI is serviced first and the latch cleared. Failing that,
    /// an asserted IRQ is serviced if I is clear. Either takes seven cycles
    /// and stacks the status with bit 4 clear. Otherwise the opcode at the
    /// program counter is fetched and run: it takes its base count plus what
    /// the instruction reports for page crossing and taken branches.
    ///
    /// An undocumented opcode runs as a NOP of one byte and two cycles,
    /// unless the CPU is strict: then the step is refused, with the program
    /// counter back at the opcode and the cycle counter untouched.
    pub open spec fn step(self) -> (Self, Result<u32, CpuError>) {
        if self.nmi_pending {
            (
                (CpuState { nmi_pending: false, ..self }).interrupt(NMI_VECTOR, false).elapse(
                    INTERRUPT_CYCLES,
                ),
                Ok(INTERRUPT_CYCLES),
            )
        } else if self.irq_line && !self.p.i {
            (self.interrupt(IRQ_VECTOR, false).elapse(INTERRUPT_CYCLES), Ok(INTERRUPT_CYCLES))
        } else {
            let (fetched, opcode) = self.fetch();
            match decode_spec(opcode) {
                Some(entry) => {
                    let (state, extra) = fetched.execute(entry.mnemonic, entry.mode);
                    let cycles = (entry.cycles + extra) as u32;
                    (state.elapse(cycles), Ok(cycles))
                },
                None => if self.strict {
                    (CpuState { pc: self.pc, ..fetched }, Err(CpuError::UnsupportedOpcode(opcode)))
                } else {
                    (fetched.elapse(UNDOCUMENTED_CYCLES), Ok(UNDOCUMENTED_CYCLES))
                },
            }
        }
    }
}

impl<M: ReadWriter> CPU<M> {
    /// A console CPU at power-on, wired to `memory`: registers zero, stack
    /// pointer at `$FD`, interrupts disabled, no decimal mode, undocumented
    /// opcodes run as NOP. The program counter is zero until `reset`.
    pub fn new(memory: M) -> (cpu: CPU<M>)
        ensures
            cpu@ == (CpuState::<M> {
                a: 0,
                x: 0,
                y: 0,
                s: RESET_STACK_POINTER,
                pc: 0,
                p: Flags { c: false, z: false, i: true, d: false, v: false, n: false },
                cycles: 0,
                nmi_pending: false,
                irq_line: false,
                decimal_enabled: false,
                strict: false,
                memory: memory@,
            }),
    {
        CPU::with_options(memory, false, false)
    }

    /// A CPU at power-on that honours the D flag in ADC and SBC if
    /// `decimal_enabled`, and refuses undocumented opcodes if `strict`.
    pub fn with_options(memory: M, decimal_enabled: bool, strict: bool) -> (cpu: CPU<M>)
        ensures
            cpu@ == (CpuState::<M> {
                a: 0,
                x: 0,
                y: 0,
                s: RESET_STACK_POINTER,
                pc: 0,
                p: Flags { c: false, z: false, i: true, d: false, v: false, n: false },
                cycles: 0,
                nmi_pending: false,
                irq_line: false,
                decimal_enabled,
                strict,
                memory: memory@,
            }),
    {
        CPU {
            a: 0,
            x: 0,
            y: 0,
            s: RESET_STACK_POINTER,
            pc: 0,
            p: Flags::new(),
            cycles: 0,
            nmi_pending: false,
            irq_line: false,
            decimal_enabled,
            strict,
            memory,
        }
    }

    pub fn load_memory(&mut self, address: u16) -> (byte: u8)
        ensures
            (final(self)@, byte) == old(self)@.load(address),
    {
        self.memory.read(address)
    }

    pub fn store_memory(&mut self, address: u16, byte: u8)
        ensures
            final(self)@ == old(self)@.store(address, byte),
    {
        self.memory.write(address, byte)
    }

    pub fn load_word(&mut self, address: u16) -> (word: u16)
        ensures
            (final(self)@, word) == old(self)@.load_word(address),
    {
        let lo = self.load_memory(address);
        let hi = self.load_memory(add16(address, 1));
        make_word(lo, hi)
    }

    pub fn fetch(&mut self) -> (byte: u8)
        ensures
            (final(self)@, byte) == old(self)@.fetch(),
    {
        let byte = self.load_memory(self.pc);
        self.pc = add16(self.pc, 1);
        byte
    }

    pub fn fetch_word(&mut self) -> (word: u16)
        ensures
            (final(self)@, word) == old(self)@.fetch_word(),
    {
        let lo = self.fetch();
        let hi = self.fetch();
        make_word(lo, hi)
    }

    /// Pushes a byte: it is stored at `$0100 | s`, and `s` moves down by one,
    /// wrapping within the page.
    pub fn push(&mut self, byte: u8)
        ensures
            final(self)@ == old(self)@.push(byte),
    {
        let address: u16 = 0x0100 + self.s as u16;
        self.store_memory(address, byte);
        self.s = sub8(self.s, 1);
    }

    /// Pops a byte: `s` moves up by one, wrapping within the page, and the
    /// byte at `$0100 | s` is loaded.
    pub fn pop(&mut self) -> (byte: u8)
        ensures
            (final(self)@, byte) == old(self)@.pop(),
    {
        self.s = add8(self.s, 1);
        let address: u16 = 0x0100 + self.s as u16;
        self.load_memory(address)
    }

    pub fn push_word(&mut self, word: u16)
        ensures
            final(self)@ == old(self)@.push_word(word),
    {
        self.push(high_byte(word));
        self.push(low_byte(word));
    }

    pub fn pop_word(&mut self) -> (word: u16)
        ensures
            (final(self)@, word) == old(self)@.pop_word(),
    {
        let lo = self.pop();
        let hi = self.pop();
        make_word(lo, hi)
    }

    /// Resets the CPU: the program counter comes from the vector at `$FFFC`,
    /// I is set, D is cleared, the stack pointer is `$FD`, the cycle counter
    /// starts again and a latched NMI is forgotten.
    pub fn reset(&mut self)
        ensures
            final(self)@ == old(self)@.reset(),
    {
        let pc = self.load_word(RESET_VECTOR);
        self.pc = pc;
        self.s = RESET_STACK_POINTER;
        self.p.i = true;
        self.p.d = false;
        self.cycles = 0;
        self.nmi_pending = false;
    }

    /// Latches an NMI edge. The next `step` services it.
    pub fn trigger_nmi(&mut self)
        ensures
            final(self)@ == (CpuState::<M> { nmi_pending: true, ..old(self)@ }),
    {
        self.nmi_pending = true;
    }

    /// Sets the level of the IRQ line. While it is asserted and I is clear,
    /// each `step` services it.
    pub fn set_irq(&mut self, asserted: bool)
        ensures
            final(self)@ == (CpuState::<M> { irq_line: asserted, ..old(self)@ }),
    {
        self.irq_line = asserted;
    }

    /// Enters an interrupt handler.
    pub fn interrupt(&mut self, vector: u16, brk: bool)
        ensures
            final(self)@ == old(self)@.interrupt(vector, brk),
    {
        self.push_word(self.pc);
        self.push(self.p.to_byte(brk));
        let pc = self.load_word(vector);
        self.pc = pc;
        self.p.i = true;
    }

    /// Adds to the cycle counter.
    pub fn elapse(&mut self, cycles: u32)
        ensures
            final(self)@ == old(self)@.elapse(cycles),
    {
        self.cycles = self.cycles.wrapping_add(cycles as u64);
    }

    /// Runs one step: services a pending interrupt, or else fetches, decodes
    /// and runs one instruction. Yields the cycles taken, which have been
    /// added to the cycle counter.
    pub fn step(&mut self) -> (result: Result<u32, CpuError>)
        ensures
            (final(self)@, result) == old(self)@.step(),
    {
        if self.nmi_pending {
            self.nmi_pending = false;
            self.interrupt(NMI_VECTOR, false);
            self.elapse(INTERRUPT_CYCLES);
            return Ok(INTERRUPT_CYCLES);
        }
        if self.irq_line && !self.p.i {
            self.interrupt(IRQ_VECTOR, false);
            self.elapse(INTERRUPT_CYCLES);
            return Ok(INTERRUPT_CYCLES);
        }
        let opcode_address = self.pc;
        let opcode = self.fetch();
        match decode(opcode) {
            Some(entry) => {
                proof {
                    crate::emulator::cpu::opcodes::lemma_base_cycles(opcode);
                }
                let extra = execute(self, entry.mnemonic, entry.mode);
                let cycles: u32 = entry.cycles + extra;
                self.elapse(cycles);
                Ok(cycles)
            },
            None => {
                if self.strict {
                    self.pc = opcode_address;
                    Err(CpuError::UnsupportedOpcode(opcode))
                } else {
                    self.elapse(UNDOCUMENTED_CYCLES);
                    Ok(UNDOCUMENTED_CYCLES)
                }
            },
        }
    }
}

/// What a step costs. Servicing an interrupt takes seven cycles. A
/// documented instruction takes its opcode's base count, plus one where the
/// address phase crosses a page, plus one where a branch is taken: between
/// two and nine in all. The cycle counter moves on by exactly as much, as
/// long as it does not wrap; a refused step leaves it alone.
pub proof fn lemma_step_cycles<M: ReadWriter>(state: CpuState<M>)
    ensures
        match state.step().1 {
            Ok(cycles) => {
                &&& 2 <= cycles <= 9
                &&& state.cycles + cycles <= u64::MAX ==> state.step().0.cycles == state.cycles + cycles
                &&& state.nmi_pending || (state.irq_line && !state.p.i) ==> cycles == INTERRUPT_CYCLES
                &&& !state.nmi_pending && !(state.irq_line && !state.p.i) ==> match decode_spec(
                    state.fetch().1,
                ) {
                    Some(entry) => cycles == entry.cycles + state.fetch().0.execute(
                        entry.mnemonic,
                        entry.mode,
                    ).1,
                    None => cycles == UNDOCUMENTED_CYCLES,
                }
            },
            Err(_) => state.step().0.cycles == state.cycles,
        },
{
    let (fetched, opcode) = state.fetch();
    crate::emulator::cpu::opcodes::lemma_base_cycles(opcode);
    match decode_spec(opcode) {
        Some(entry) => {
            crate::emulator::cpu::instructions::lemma_extra_cycles(fetched, entry.mnemonic, entry.mode);
            crate::emulator::cpu::instructions::lemma_execute_frame(fetched, entry.mnemonic, entry.mode);
        },
        None => {},
    }
}

/// A latched NMI is serviced by the next step and by no other: the step
/// clears the latch, takes seven cycles and runs no instruction. It leaves
/// the stack pointer three bytes down, with the program counter and then
/// the status stacked, the status with bit 4 clear and bit 5 set; it sets
/// I; and it continues at the address stored at `$FFFA`.
pub proof fn lemma_nmi_service<M: ReadWriter>(state: CpuState<M>)
    requires
        state.nmi_pending,
    ensures
        state.step().1 == Ok::<u32, CpuError>(INTERRUPT_CYCLES),
        !state.step().0.nmi_pending,
        state.step().0.p == (Flags { i: true, ..state.p }),
        state.step().0.s == wrap8(state.s - 3),
        state.step().0.a == state.a && state.step().0.x == state.x && state.step().0.y == state.y,
        ({
            let stacked = state.push_word(state.pc).push(state.p.pack(false));
            &&& stacked.memory == M::write_spec(
                state.push_word(state.pc).memory,
                stack_address(wrap8(state.s - 2)),
                state.p.pack(false),
            )
            &&& state.step().0.pc == stacked.load_word(NMI_VECTOR).1
            &&& state.step().0.memory == stacked.load_word(NMI_VECTOR).0.memory
        }),
        !crate::bits::bit(state.p.pack(false), 4),
        crate::bits::bit(state.p.pack(false), 5),
{
    crate::emulator::cpu::flags::lemma_pack_unpack(state.p, false);
}

} // verus!
