//! Addressing modes: how an instruction finds its operand.

use crate::bits::{add16, add8, high, high_byte, join, low, low_byte, make_word, signed, sub16, wrap16, wrap8};
use crate::emulator::cpu::{CpuState, CPU};
use crate::emulator::memory::ReadWriter;
use vstd::prelude::*;

verus! {

/// The thirteen addressing modes.
#[derive(Clone, Copy, Debug, PartialEq, Eq, Structural)]
pub enum AddressingMode {
    /// No operand.
    Implied,
    /// The operand is the accumulator.
    Accumulator,
    /// The operand is the byte after the opcode.
    Immediate,
    /// The byte after the opcode is an address in page 0.
    ZeroPage,
    /// As `ZeroPage`, plus X, wrapping within page 0.
    ZeroPageX,
    /// As `ZeroPage`, plus Y, wrapping within page 0.
    ZeroPageY,
    /// The word after the opcode is the address.
    Absolute,
    /// As `Absolute`, plus X.
    AbsoluteX,
    /// As `Absolute`, plus Y.
    AbsoluteY,
    /// The word after the opcode points at the address. The pointer's high
    /// byte is read from the pointer's own page.
    Indirect,
    /// `(zp,X)`: the byte after the opcode, plus X, points into page 0 at the
    /// address.
    IndexedIndirect,
    /// `(zp),Y`: the byte after the opcode points into page 0 at a base, to
    /// which Y is added.
    IndirectIndexed,
    /// The byte after the opcode is a signed offset from the next
    /// instruction.
    Relative,
}

/// What resolving a mode yields besides the CPU's new state.
pub struct Resolved<M: View> {
    pub state: CpuState<M>,
    pub address: u16,
    pub cycles: u32,
}

/// 1 if the two addresses lie in different pages, else 0.
pub open spec fn page_cross(from: u16, to: u16) -> u32 {
    if high(from) != high(to) {
        1
    } else {
        0
    }
}

/// The target of a branch: `offset`, read as a signed byte, from `next`.
pub open spec fn branch_target(next: u16, offset: u8) -> u16 {
    wrap16(next + signed(offset))
}

impl<M: ReadWriter> CpuState<M> {
    /// Resolves `mode` with the program counter at the byte after the
    /// opcode: the state after the operand bytes were fetched, the
    /// effective address, and the extra cycles of the address phase.
    ///
    /// `Implied` and `Accumulator` have no address and yield 0. For
    /// `Immediate` the address is that of the operand byte itself. Indexing
    /// costs a cycle where `AbsoluteX`, `AbsoluteY` or `IndirectIndexed`
    /// leaves the page of the base. For `Relative` the extra cycle is due
    /// where the target lies in another page than the branch's opcode.
    ///
    /// The body is hidden from the solver until `reveal(CpuState::resolve)`.
    #[verifier::opaque]
    pub open spec fn resolve(self, mode: AddressingMode) -> Resolved<M> {
        match mode {
            AddressingMode::Implied | AddressingMode::Accumulator => Resolved {
                state: self,
                address: 0,
                cycles: 0,
            },
            AddressingMode::Immediate => Resolved {
                state: CpuState { pc: wrap16(self.pc + 1), ..self },
                address: self.pc,
                cycles: 0,
            },
            AddressingMode::ZeroPage => {
                let (state, base) = self.fetch();
                Resolved { state, address: join(base, 0), cycles: 0 }
            },
            AddressingMode::ZeroPageX => {
                let (state, base) = self.fetch();
                Resolved { state, address: join(wrap8(base + state.x), 0), cycles: 0 }
            },
            AddressingMode::ZeroPageY => {
                let (state, base) = self.fetch();
                Resolved { state, address: join(wrap8(base + state.y), 0), cycles: 0 }
            },
            AddressingMode::Absolute => {
                let (state, address) = self.fetch_word();
                Resolved { state, address, cycles: 0 }
            },
            AddressingMode::AbsoluteX => {
                let (state, base) = self.fetch_word();
                let address = wrap16(base + state.x);
                Resolved { state, address, cycles: page_cross(base, address) }
            },
            AddressingMode::AbsoluteY => {
                let (state, base) = self.fetch_word();
                let address = wrap16(base + state.y);
                Resolved { state, address, cycles: page_cross(base, address) }
            },
            AddressingMode::Indirect => {
                let (state, pointer) = self.fetch_word();
                let (state, lo) = state.load(pointer);
                let (state, hi) = state.load(join(wrap8(low(pointer) + 1), high(pointer)));
                Resolved { state, address: join(lo, hi), cycles: 0 }
            },
            AddressingMode::IndexedIndirect => {
                let (state, base) = self.fetch();
                let pointer = wrap8(base + state.x);
                let (state, lo) = state.load(join(pointer, 0));
                let (state, hi) = state.load(join(wrap8(pointer + 1), 0));
                Resolved { state, address: join(lo, hi), cycles: 0 }
            },
            AddressingMode::IndirectIndexed => {
                let (state, pointer) = self.fetch();
                let (state, lo) = state.load(join(pointer, 0));
                let (state, hi) = state.load(join(wrap8(pointer + 1), 0));
                let base = join(lo, hi);
                let address = wrap16(base + state.y);
                Resolved { state, address, cycles: page_cross(base, address) }
            },
            AddressingMode::Relative => {
                let opcode_address = wrap16(self.pc - 1);
                let (state, offset) = self.fetch();
                let address = branch_target(state.pc, offset);
                Resolved { state, address, cycles: page_cross(opcode_address, address) }
            },
        }
    }
}

/// In absolute mode the address is the word after the opcode.
pub proof fn lemma_resolve_absolute<M: ReadWriter>(state: CpuState<M>)
    ensures
        state.resolve(AddressingMode::Absolute) == (Resolved::<M> {
            state: state.fetch_word().0,
            address: state.fetch_word().1,
            cycles: 0,
        }),
{
    reveal(CpuState::resolve);
}

/// The address phase costs at most one cycle, and touches nothing of the
/// CPU but the program counter and the memory.
pub proof fn lemma_resolve_cycles<M: ReadWriter>(state: CpuState<M>, mode: AddressingMode)
    ensures
        state.resolve(mode).cycles <= 1,
        state.resolve(mode).state == (CpuState::<M> {
            pc: state.resolve(mode).state.pc,
            memory: state.resolve(mode).state.memory,
            ..state
        }),
{
    reveal(CpuState::resolve);
}

/// 1 if the two addresses lie in different pages, else 0.
pub fn page_cross_cycles(from: u16, to: u16) -> (cycles: u32)
    ensures
        cycles == page_cross(from, to),
{
    if high_byte(from) != high_byte(to) {
        1
    } else {
        0
    }
}

impl AddressingMode {
    /// Fetches the operand bytes and yields the effective address and the
    /// extra cycles of the address phase.
    pub fn resolve<M: ReadWriter>(self, cpu: &mut CPU<M>) -> (resolved: (u16, u32))
        ensures
            final(cpu)@ == old(cpu)@.resolve(self).state,
            resolved.0 == old(cpu)@.resolve(self).address,
            resolved.1 == old(cpu)@.resolve(self).cycles,
            resolved.1 <= 1,
    {
        reveal(CpuState::resolve);
        match self {
            AddressingMode::Implied | AddressingMode::Accumulator => (0, 0),
            AddressingMode::Immediate => {
                let address = cpu.pc;
                cpu.pc = add16(cpu.pc, 1);
                (address, 0)
            },
            AddressingMode::ZeroPage => {
                let base = cpu.fetch();
                (make_word(base, 0), 0)
            },
            AddressingMode::ZeroPageX => {
                let base = cpu.fetch();
                (make_word(add8(base, cpu.x), 0), 0)
            },
            AddressingMode::ZeroPageY => {
                let base = cpu.fetch();
                (make_word(add8(base, cpu.y), 0), 0)
            },
            AddressingMode::Absolute => {
                let address = cpu.fetch_word();
                (address, 0)
            },
            AddressingMode::AbsoluteX => {
                let base = cpu.fetch_word();
                let address = add16(base, make_word(cpu.x, 0));
                (address, page_cross_cycles(base, address))
            },
            AddressingMode::AbsoluteY => {
                let base = cpu.fetch_word();
                let address = add16(base, make_word(cpu.y, 0));
                (address, page_cross_cycles(base, address))
            },
            AddressingMode::Indirect => {
                let pointer = cpu.fetch_word();
                let lo = cpu.load_memory(pointer);
                let hi = cpu.load_memory(make_word(add8(low_byte(pointer), 1), high_byte(pointer)));
                (make_word(lo, hi), 0)
            },
            AddressingMode::IndexedIndirect => {
                let base = cpu.fetch();
                let pointer = add8(base, cpu.x);
                let lo = cpu.load_memory(make_word(pointer, 0));
                let hi = cpu.load_memory(make_word(add8(pointer, 1), 0));
                (make_word(lo, hi), 0)
            },
            AddressingMode::IndirectIndexed => {
                let pointer = cpu.fetch();
                let lo = cpu.load_memory(make_word(pointer, 0));
                let hi = cpu.load_memory(make_word(add8(pointer, 1), 0));
                let base = make_word(lo, hi);
                let address = add16(base, make_word(cpu.y, 0));
                (address, page_cross_cycles(base, address))
            },
            AddressingMode::Relative => {
                let opcode_address = sub16(cpu.pc, 1);
                let offset = cpu.fetch();
                let address = if offset >= 128 {
                    sub16(cpu.pc, 256 - offset as u16)
                } else {
                    add16(cpu.pc, offset as u16)
                };
                (address, page_cross_cycles(opcode_address, address))
            },
        }
    }
}

} // verus!
