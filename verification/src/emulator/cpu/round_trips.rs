//! What the stack instructions undo of each other, on a memory that gives
//! back what is stored in it.

use crate::bits::{high, lemma_split_join, lemma_step_back, low, wrap16, wrap8};
use crate::emulator::cpu::addressing::{lemma_resolve_absolute, AddressingMode};
use crate::emulator::cpu::flags::lemma_pack_unpack;
use crate::emulator::cpu::{stack_address, CpuState};
use crate::emulator::memory::{echoes, echoes_two, lemma_ram_echoes, lemma_ram_echoes_two, ReadWriter, RAM, ADDRESS_SPACE};
use vstd::prelude::*;

verus! {

/// A push stores at `$0100 | s` and moves `s` down by one; a pop moves `s`
/// up by one and loads from `$0100 | s`. Either way `s` wraps within a byte,
/// so the stack never leaves page 1.
pub proof fn lemma_stack_stays_in_page_one<M: ReadWriter>(state: CpuState<M>, byte: u8)
    ensures
        state.push(byte) == (CpuState::<M> {
            s: wrap8(state.s - 1),
            memory: M::write_spec(state.memory, 0x0100u16 | (state.s as u16), byte),
            ..state
        }),
        state.pop() == (
            CpuState::<M> {
                s: wrap8(state.s + 1),
                memory: M::read_spec(state.memory, 0x0100u16 | (wrap8(state.s + 1) as u16)).0,
                ..state
            },
            M::read_spec(state.memory, 0x0100u16 | (wrap8(state.s + 1) as u16)).1,
        ),
        0x0100 <= stack_address(state.s) <= 0x01FF,
{
    crate::emulator::cpu::lemma_stack_address(state.s);
    crate::emulator::cpu::lemma_stack_address(wrap8(state.s + 1));
}

/// A pop undoes a push: it yields the byte pushed and puts the stack
/// pointer back, wherever the memory gives back the byte.
pub proof fn lemma_push_pop<M: ReadWriter>(state: CpuState<M>, byte: u8)
    requires
        echoes::<M>(state.memory, stack_address(state.s), byte),
    ensures
        state.push(byte).pop() == (CpuState::<M> { s: state.s, ..state.push(byte) }, byte),
{
}

/// PLA after PHA leaves the accumulator and the stack pointer as they were,
/// with Z and N set from the accumulator.
pub proof fn lemma_pha_pla<M: ReadWriter>(state: CpuState<M>)
    requires
        echoes::<M>(state.memory, stack_address(state.s), state.a),
    ensures
        state.pha().0.pla().0 == (CpuState::<M> {
            p: state.p.with_zn(state.a),
            memory: state.pha().0.memory,
            ..state
        }),
{
    lemma_push_pop(state, state.a);
}

/// PLP after PHP leaves the status and the stack pointer as they were. The
/// byte that was on the stack in between had bits 4 and 5 set, and the pop
/// dropped them.
pub proof fn lemma_php_plp<M: ReadWriter>(state: CpuState<M>)
    requires
        echoes::<M>(state.memory, stack_address(state.s), state.p.pack(true)),
    ensures
        state.php().0.plp().0 == (CpuState::<M> { memory: state.php().0.memory, ..state }),
        state.php().0.memory == M::write_spec(state.memory, stack_address(state.s), state.p.pack(true)),
        crate::bits::bit(state.p.pack(true), 4),
        crate::bits::bit(state.p.pack(true), 5),
{
    lemma_push_pop(state, state.p.pack(true));
    lemma_pack_unpack(state.p, true);
}

/// Popping a word undoes pushing it, wherever the memory gives back the two
/// bytes.
pub proof fn lemma_push_pop_word<M: ReadWriter>(state: CpuState<M>, word: u16)
    requires
        echoes_two::<M>(
            state.memory,
            stack_address(state.s),
            high(word),
            stack_address(wrap8(state.s - 1)),
            low(word),
        ),
    ensures
        state.push_word(word).pop_word() == (CpuState::<M> { s: state.s, ..state.push_word(word) }, word),
{
    lemma_step_back(state.s);
    lemma_step_back(wrap8(state.s - 1));
    lemma_split_join(word);
}

/// RTS after JSR continues at the byte after the JSR instruction, with the
/// stack pointer as it was, wherever the stack gives back the return
/// address. `state` has the program counter at the byte after the JSR
/// opcode; the condition speaks of the memory as the fetch of the target
/// leaves it.
pub proof fn lemma_jsr_rts<M: ReadWriter>(state: CpuState<M>)
    requires
        ({
            let fetched = state.fetch_word().0;
            let back = wrap16(fetched.pc - 1);
            echoes_two::<M>(
                fetched.memory,
                stack_address(fetched.s),
                high(back),
                stack_address(wrap8(fetched.s - 1)),
                low(back),
            )
        }),
    ensures
        state.jsr(AddressingMode::Absolute).0.rts().0.pc == wrap16(state.pc + 2),
        state.jsr(AddressingMode::Absolute).0.rts().0.s == state.s,
        state.jsr(AddressingMode::Absolute).0.pc == state.fetch_word().1,
{
    lemma_resolve_absolute(state);
    let fetched = state.fetch_word().0;
    let back = wrap16(fetched.pc - 1);
    lemma_split_join(state.pc);
    lemma_split_join(fetched.pc);
    lemma_push_pop_word(fetched, back);
}

/// On plain RAM the stack instructions undo each other without further
/// conditions.
pub proof fn lemma_round_trips_on_ram(state: CpuState<RAM>)
    requires
        state.memory.len() == ADDRESS_SPACE,
    ensures
        state.pha().0.pla().0.a == state.a,
        state.pha().0.pla().0.s == state.s,
        state.pha().0.pla().0.p == state.p.with_zn(state.a),
        state.php().0.plp().0.p == state.p,
        state.php().0.plp().0.s == state.s,
        state.jsr(AddressingMode::Absolute).0.rts().0.pc == wrap16(state.pc + 2),
        state.jsr(AddressingMode::Absolute).0.rts().0.s == state.s,
{
    lemma_ram_echoes(state.memory, stack_address(state.s), state.a);
    lemma_pha_pla(state);
    lemma_ram_echoes(state.memory, stack_address(state.s), state.p.pack(true));
    lemma_php_plp(state);
    let fetched = state.fetch_word().0;
    let back = wrap16(fetched.pc - 1);
    lemma_ram_echoes_two(
        fetched.memory,
        stack_address(fetched.s),
        high(back),
        stack_address(wrap8(fetched.s - 1)),
        low(back),
    );
    lemma_jsr_rts(state);
}

} // verus!
