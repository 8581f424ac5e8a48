//! What the CPU leaves alone: it touches its memory through loads and stores
//! only, so whatever holds of the memory and survives every load and store
//! holds after whatever the CPU does.

use crate::emulator::cpu::addressing::AddressingMode;
use crate::emulator::cpu::opcodes::{decode_spec, Mnemonic};
use crate::emulator::cpu::CpuState;
use crate::emulator::memory::{kept_by_memory, ReadWriter};
use vstd::prelude::*;

verus! {

/// The address phase keeps what loads and stores keep.
pub proof fn lemma_resolve_keeps<M: ReadWriter>(
    state: CpuState<M>,
    mode: AddressingMode,
    kept: spec_fn(M::V) -> bool,
)
    requires
        kept_by_memory::<M>(kept),
        kept(state.memory),
    ensures
        kept(state.resolve(mode).state.memory),
{
    reveal(CpuState::resolve);
}

/// An instruction keeps what loads and stores keep.
pub proof fn lemma_execute_keeps<M: ReadWriter>(
    state: CpuState<M>,
    mnemonic: Mnemonic,
    mode: AddressingMode,
    kept: spec_fn(M::V) -> bool,
)
    requires
        kept_by_memory::<M>(kept),
        kept(state.memory),
    ensures
        kept(state.execute(mnemonic, mode).0.memory),
{
    lemma_resolve_keeps(state, mode, kept);
    match mnemonic {
        Mnemonic::Lda | Mnemonic::Ldx | Mnemonic::Ldy | Mnemonic::Sta | Mnemonic::Stx | Mnemonic::Sty | Mnemonic::Tax | Mnemonic::Tay | Mnemonic::Txa | Mnemonic::Tya | Mnemonic::Tsx | Mnemonic::Txs => {
            reveal(CpuState::execute_transfer);
        },
        Mnemonic::Adc | Mnemonic::Sbc | Mnemonic::And | Mnemonic::Ora | Mnemonic::Eor | Mnemonic::Bit | Mnemonic::Cmp | Mnemonic::Cpx | Mnemonic::Cpy => {
            reveal(CpuState::execute_arithmetic);
        },
        Mnemonic::Asl | Mnemonic::Lsr | Mnemonic::Rol | Mnemonic::Ror | Mnemonic::Inc | Mnemonic::Dec | Mnemonic::Inx | Mnemonic::Iny | Mnemonic::Dex | Mnemonic::Dey => {
            reveal(CpuState::execute_modify);
        },
        Mnemonic::Bcc | Mnemonic::Bcs | Mnemonic::Beq | Mnemonic::Bne | Mnemonic::Bmi | Mnemonic::Bpl | Mnemonic::Bvc | Mnemonic::Bvs => {
            reveal(CpuState::execute_branch);
        },
        Mnemonic::Jmp | Mnemonic::Jsr | Mnemonic::Rts | Mnemonic::Brk | Mnemonic::Rti | Mnemonic::Pha | Mnemonic::Pla | Mnemonic::Php | Mnemonic::Plp => {
            reveal(CpuState::execute_control);
        },
        Mnemonic::Clc | Mnemonic::Sec | Mnemonic::Cli | Mnemonic::Sei | Mnemonic::Cld | Mnemonic::Sed | Mnemonic::Clv | Mnemonic::Nop => {
            reveal(CpuState::execute_status);
        },
    }
}

/// A step of the CPU, whether it services an interrupt, runs an instruction
/// or is refused, keeps what loads and stores keep.
pub proof fn lemma_step_keeps<M: ReadWriter>(state: CpuState<M>, kept: spec_fn(M::V) -> bool)
    requires
        kept_by_memory::<M>(kept),
        kept(state.memory),
    ensures
        kept(state.step().0.memory),
{
    let (fetched, opcode) = state.fetch();
    match decode_spec(opcode) {
        Some(entry) => {
            lemma_execute_keeps(fetched, entry.mnemonic, entry.mode, kept);
        },
        None => {},
    }
}

} // verus!
