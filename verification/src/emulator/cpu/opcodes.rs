//! The opcodes: one byte each, binding a mnemonic to an addressing mode and
//! a base count of cycles.

use crate::emulator::cpu::addressing::AddressingMode;
use vstd::prelude::*;

verus! {


// The documented opcodes, by mnemonic and addressing mode.

pub const ADC_IMM: u8 = 0x69;
pub const ADC_ZPG: u8 = 0x65;
pub const ADC_ZPG_X: u8 = 0x75;
pub const ADC_ABS: u8 = 0x6D;
pub const ADC_ABS_X: u8 = 0x7D;
pub const ADC_ABS_Y: u8 = 0x79;
pub const ADC_IX_IND: u8 = 0x61;
pub const ADC_IND_IX: u8 = 0x71;

pub const AND_IMM: u8 = 0x29;
pub const AND_ZPG: u8 = 0x25;
pub const AND_ZPG_X: u8 = 0x35;
pub const AND_ABS: u8 = 0x2D;
pub const AND_ABS_X: u8 = 0x3D;
pub const AND_ABS_Y: u8 = 0x39;
pub const AND_IX_IND: u8 = 0x21;
pub const AND_IND_IX: u8 = 0x31;

pub const ASL_ACC: u8 = 0x0A;
pub const ASL_ZPG: u8 = 0x06;
pub const ASL_ZPG_X: u8 = 0x16;
pub const ASL_ABS: u8 = 0x0E;
pub const ASL_ABS_X: u8 = 0x1E;

pub const BCC: u8 = 0x90;

pub const BCS: u8 = 0xB0;

pub const BEQ: u8 = 0xF0;

pub const BIT_ZPG: u8 = 0x24;
pub const BIT_ABS: u8 = 0x2C;

pub const BMI: u8 = 0x30;

pub const BNE: u8 = 0xD0;

pub const BPL: u8 = 0x10;

pub const BRK: u8 = 0x00;

pub const BVC: u8 = 0x50;

pub const BVS: u8 = 0x70;

pub const CLC: u8 = 0x18;

pub const CLD: u8 = 0xD8;

pub const CLI: u8 = 0x58;

pub const CLV: u8 = 0xB8;

pub const CMP_IMM: u8 = 0xC9;
pub const CMP_ZPG: u8 = 0xC5;
pub const CMP_ZPG_X: u8 = 0xD5;
pub const CMP_ABS: u8 = 0xCD;
pub const CMP_ABS_X: u8 = 0xDD;
pub const CMP_ABS_Y: u8 = 0xD9;
pub const CMP_IX_IND: u8 = 0xC1;
pub const CMP_IND_IX: u8 = 0xD1;

pub const CPX_IMM: u8 = 0xE0;
pub const CPX_ZPG: u8 = 0xE4;
pub const CPX_ABS: u8 = 0xEC;

pub const CPY_IMM: u8 = 0xC0;
pub const CPY_ZPG: u8 = 0xC4;
pub const CPY_ABS: u8 = 0xCC;

pub const DEC_ZPG: u8 = 0xC6;
pub const DEC_ZPG_X: u8 = 0xD6;
pub const DEC_ABS: u8 = 0xCE;
pub const DEC_ABS_X: u8 = 0xDE;

pub const DEX: u8 = 0xCA;

pub const DEY: u8 = 0x88;

pub const EOR_IMM: u8 = 0x49;
pub const EOR_ZPG: u8 = 0x45;
pub const EOR_ZPG_X: u8 = 0x55;
pub const EOR_ABS: u8 = 0x4D;
pub const EOR_ABS_X: u8 = 0x5D;
pub const EOR_ABS_Y: u8 = 0x59;
pub const EOR_IX_IND: u8 = 0x41;
pub const EOR_IND_IX: u8 = 0x51;

pub const INC_ZPG: u8 = 0xE6;
pub const INC_ZPG_X: u8 = 0xF6;
pub const INC_ABS: u8 = 0xEE;
pub const INC_ABS_X: u8 = 0xFE;

pub const INX: u8 = 0xE8;

pub const INY: u8 = 0xC8;

pub const JMP_ABS: u8 = 0x4C;
pub const JMP_IND: u8 = 0x6C;

pub const JSR_ABS: u8 = 0x20;

pub const LDA_IMM: u8 = 0xA9;
pub const LDA_ZPG: u8 = 0xA5;
pub const LDA_ZPG_X: u8 = 0xB5;
pub const LDA_ABS: u8 = 0xAD;
pub const LDA_ABS_X: u8 = 0xBD;
pub const LDA_ABS_Y: u8 = 0xB9;
pub const LDA_IX_IND: u8 = 0xA1;
pub const LDA_IND_IX: u8 = 0xB1;

pub const LDX_IMM: u8 = 0xA2;
pub const LDX_ZPG: u8 = 0xA6;
pub const LDX_ZPG_Y: u8 = 0xB6;
pub const LDX_ABS: u8 = 0xAE;
pub const LDX_ABS_Y: u8 = 0xBE;

pub const LDY_IMM: u8 = 0xA0;
pub const LDY_ZPG: u8 = 0xA4;
pub const LDY_ZPG_X: u8 = 0xB4;
pub const LDY_ABS: u8 = 0xAC;
pub const LDY_ABS_X: u8 = 0xBC;

pub const LSR_ACC: u8 = 0x4A;
pub const LSR_ZPG: u8 = 0x46;
pub const LSR_ZPG_X: u8 = 0x56;
pub const LSR_ABS: u8 = 0x4E;
pub const LSR_ABS_X: u8 = 0x5E;

pub const NOP: u8 = 0xEA;

pub const ORA_IMM: u8 = 0x09;
pub const ORA_ZPG: u8 = 0x05;
pub const ORA_ZPG_X: u8 = 0x15;
pub const ORA_ABS: u8 = 0x0D;
pub const ORA_ABS_X: u8 = 0x1D;
pub const ORA_ABS_Y: u8 = 0x19;
pub const ORA_IX_IND: u8 = 0x01;
pub const ORA_IND_IX: u8 = 0x11;

pub const PHA: u8 = 0x48;

pub const PHP: u8 = 0x08;

pub const PLA: u8 = 0x68;

pub const PLP: u8 = 0x28;

pub const ROL_ACC: u8 = 0x2A;
pub const ROL_ZPG: u8 = 0x26;
pub const ROL_ZPG_X: u8 = 0x36;
pub const ROL_ABS: u8 = 0x2E;
pub const ROL_ABS_X: u8 = 0x3E;

pub const ROR_ACC: u8 = 0x6A;
pub const ROR_ZPG: u8 = 0x66;
pub const ROR_ZPG_X: u8 = 0x76;
pub const ROR_ABS: u8 = 0x6E;
pub const ROR_ABS_X: u8 = 0x7E;

pub const RTI: u8 = 0x40;

pub const RTS: u8 = 0x60;

pub const SBC_IMM: u8 = 0xE9;
pub const SBC_ZPG: u8 = 0xE5;
pub const SBC_ZPG_X: u8 = 0xF5;
pub const SBC_ABS: u8 = 0xED;
pub const SBC_ABS_X: u8 = 0xFD;
pub const SBC_ABS_Y: u8 = 0xF9;
pub const SBC_IX_IND: u8 = 0xE1;
pub const SBC_IND_IX: u8 = 0xF1;

pub const SEC: u8 = 0x38;

pub const SED: u8 = 0xF8;

pub const SEI: u8 = 0x78;

pub const STA_ZPG: u8 = 0x85;
pub const STA_ZPG_X: u8 = 0x95;
pub const STA_ABS: u8 = 0x8D;
pub const STA_ABS_X: u8 = 0x9D;
pub const STA_ABS_Y: u8 = 0x99;
pub const STA_IX_IND: u8 = 0x81;
pub const STA_IND_IX: u8 = 0x91;

pub const STX_ZPG: u8 = 0x86;
pub const STX_ZPG_Y: u8 = 0x96;
pub const STX_ABS: u8 = 0x8E;

pub const STY_ZPG: u8 = 0x84;
pub const STY_ZPG_X: u8 = 0x94;
pub const STY_ABS: u8 = 0x8C;

pub const TAX: u8 = 0xAA;

pub const TAY: u8 = 0xA8;

pub const TSX: u8 = 0xBA;

pub const TXA: u8 = 0x8A;

pub const TXS: u8 = 0x9A;

pub const TYA: u8 = 0x98;

/// What an instruction does, apart from how it finds its operand.
#[derive(Clone, Copy, Debug, PartialEq, Eq, Structural)]
pub enum Mnemonic {
    /// ADC: add with carry.
    Adc,
    /// AND: bitwise AND.
    And,
    /// ASL: shift left.
    Asl,
    /// BCC: branch on carry clear.
    Bcc,
    /// BCS: branch on carry set.
    Bcs,
    /// BEQ: branch on zero.
    Beq,
    /// BIT: bit test.
    Bit,
    /// BMI: branch on minus.
    Bmi,
    /// BNE: branch on not zero.
    Bne,
    /// BPL: branch on plus.
    Bpl,
    /// BRK: force interrupt.
    Brk,
    /// BVC: branch on overflow clear.
    Bvc,
    /// BVS: branch on overflow set.
    Bvs,
    /// CLC: clear carry.
    Clc,
    /// CLD: clear decimal.
    Cld,
    /// CLI: clear interrupt disable.
    Cli,
    /// CLV: clear overflow.
    Clv,
    /// CMP: compare with accumulator.
    Cmp,
    /// CPX: compare with X.
    Cpx,
    /// CPY: compare with Y.
    Cpy,
    /// DEC: decrement memory.
    Dec,
    /// DEX: decrement X.
    Dex,
    /// DEY: decrement Y.
    Dey,
    /// EOR: bitwise exclusive OR.
    Eor,
    /// INC: increment memory.
    Inc,
    /// INX: increment X.
    Inx,
    /// INY: increment Y.
    Iny,
    /// JMP: jump.
    Jmp,
    /// JSR: jump to subroutine.
    Jsr,
    /// LDA: load accumulator.
    Lda,
    /// LDX: load X.
    Ldx,
    /// LDY: load Y.
    Ldy,
    /// LSR: shift right.
    Lsr,
    /// NOP: no operation.
    Nop,
    /// ORA: bitwise OR.
    Ora,
    /// PHA: push accumulator.
    Pha,
    /// PHP: push status.
    Php,
    /// PLA: pop accumulator.
    Pla,
    /// PLP: pop status.
    Plp,
    /// ROL: rotate left.
    Rol,
    /// ROR: rotate right.
    Ror,
    /// RTI: return from interrupt.
    Rti,
    /// RTS: return from subroutine.
    Rts,
    /// SBC: subtract with borrow.
    Sbc,
    /// SEC: set carry.
    Sec,
    /// SED: set decimal.
    Sed,
    /// SEI: set interrupt disable.
    Sei,
    /// STA: store accumulator.
    Sta,
    /// STX: store X.
    Stx,
    /// STY: store Y.
    Sty,
    /// TAX: accumulator to X.
    Tax,
    /// TAY: accumulator to Y.
    Tay,
    /// TSX: stack pointer to X.
    Tsx,
    /// TXA: X to accumulator.
    Txa,
    /// TXS: X to stack pointer.
    Txs,
    /// TYA: Y to accumulator.
    Tya,
}

/// One entry of the opcode table.
#[derive(Clone, Copy, Debug, PartialEq, Eq, Structural)]
pub struct Instruction {
    pub mnemonic: Mnemonic,
    pub mode: AddressingMode,
    /// The cycles the opcode takes before any page-crossing or branch
    /// adjustment.
    pub cycles: u32,
}

/// The opcode table. An opcode without an entry is undocumented.
pub open spec fn decode_spec(opcode: u8) -> Option<Instruction> {
    match opcode {
        0x00u8 => Some(Instruction { mnemonic: Mnemonic::Brk, mode: AddressingMode::Implied, cycles: 7 }),
        0x01u8 => Some(Instruction { mnemonic: Mnemonic::Ora, mode: AddressingMode::IndexedIndirect, cycles: 6 }),
        0x05u8 => Some(Instruction { mnemonic: Mnemonic::Ora, mode: AddressingMode::ZeroPage, cycles: 3 }),
        0x06u8 => Some(Instruction { mnemonic: Mnemonic::Asl, mode: AddressingMode::ZeroPage, cycles: 5 }),
        0x08u8 => Some(Instruction { mnemonic: Mnemonic::Php, mode: AddressingMode::Implied, cycles: 3 }),
        0x09u8 => Some(Instruction { mnemonic: Mnemonic::Ora, mode: AddressingMode::Immediate, cycles: 2 }),
        0x0Au8 => Some(Instruction { mnemonic: Mnemonic::Asl, mode: AddressingMode::Accumulator, cycles: 2 }),
        0x0Du8 => Some(Instruction { mnemonic: Mnemonic::Ora, mode: AddressingMode::Absolute, cycles: 4 }),
        0x0Eu8 => Some(Instruction { mnemonic: Mnemonic::Asl, mode: AddressingMode::Absolute, cycles: 6 }),
        0x10u8 => Some(Instruction { mnemonic: Mnemonic::Bpl, mode: AddressingMode::Relative, cycles: 2 }),
        0x11u8 => Some(Instruction { mnemonic: Mnemonic::Ora, mode: AddressingMode::IndirectIndexed, cycles: 5 }),
        0x15u8 => Some(Instruction { mnemonic: Mnemonic::Ora, mode: AddressingMode::ZeroPageX, cycles: 4 }),
        0x16u8 => Some(Instruction { mnemonic: Mnemonic::Asl, mode: AddressingMode::ZeroPageX, cycles: 6 }),
        0x18u8 => Some(Instruction { mnemonic: Mnemonic::Clc, mode: AddressingMode::Implied, cycles: 2 }),
        0x19u8 => Some(Instruction { mnemonic: Mnemonic::Ora, mode: AddressingMode::AbsoluteY, cycles: 4 }),
        0x1Du8 => Some(Instruction { mnemonic: Mnemonic::Ora, mode: AddressingMode::AbsoluteX, cycles: 4 }),
        0x1Eu8 => Some(Instruction { mnemonic: Mnemonic::Asl, mode: AddressingMode::AbsoluteX, cycles: 7 }),
        0x20u8 => Some(Instruction { mnemonic: Mnemonic::Jsr, mode: AddressingMode::Absolute, cycles: 6 }),
        0x21u8 => Some(Instruction { mnemonic: Mnemonic::And, mode: AddressingMode::IndexedIndirect, cycles: 6 }),
        0x24u8 => Some(Instruction { mnemonic: Mnemonic::Bit, mode: AddressingMode::ZeroPage, cycles: 3 }),
        0x25u8 => Some(Instruction { mnemonic: Mnemonic::And, mode: AddressingMode::ZeroPage, cycles: 3 }),
        0x26u8 => Some(Instruction { mnemonic: Mnemonic::Rol, mode: AddressingMode::ZeroPage, cycles: 5 }),
        0x28u8 => Some(Instruction { mnemonic: Mnemonic::Plp, mode: AddressingMode::Implied, cycles: 4 }),
        0x29u8 => Some(Instruction { mnemonic: Mnemonic::And, mode: AddressingMode::Immediate, cycles: 2 }),
        0x2Au8 => Some(Instruction { mnemonic: Mnemonic::Rol, mode: AddressingMode::Accumulator, cycles: 2 }),
        0x2Cu8 => Some(Instruction { mnemonic: Mnemonic::Bit, mode: AddressingMode::Absolute, cycles: 4 }),
        0x2Du8 => Some(Instruction { mnemonic: Mnemonic::And, mode: AddressingMode::Absolute, cycles: 4 }),
        0x2Eu8 => Some(Instruction { mnemonic: Mnemonic::Rol, mode: AddressingMode::Absolute, cycles: 6 }),
        0x30u8 => Some(Instruction { mnemonic: Mnemonic::Bmi, mode: AddressingMode::Relative, cycles: 2 }),
        0x31u8 => Some(Instruction { mnemonic: Mnemonic::And, mode: AddressingMode::IndirectIndexed, cycles: 5 }),
        0x35u8 => Some(Instruction { mnemonic: Mnemonic::And, mode: AddressingMode::ZeroPageX, cycles: 4 }),
        0x36u8 => Some(Instruction { mnemonic: Mnemonic::Rol, mode: AddressingMode::ZeroPageX, cycles: 6 }),
        0x38u8 => Some(Instruction { mnemonic: Mnemonic::Sec, mode: AddressingMode::Implied, cycles: 2 }),
        0x39u8 => Some(Instruction { mnemonic: Mnemonic::And, mode: AddressingMode::AbsoluteY, cycles: 4 }),
        0x3Du8 => Some(Instruction { mnemonic: Mnemonic::And, mode: AddressingMode::AbsoluteX, cycles: 4 }),
        0x3Eu8 => Some(Instruction { mnemonic: Mnemonic::Rol, mode: AddressingMode::AbsoluteX, cycles: 7 }),
        0x40u8 => Some(Instruction { mnemonic: Mnemonic::Rti, mode: AddressingMode::Implied, cycles: 6 }),
        0x41u8 => Some(Instruction { mnemonic: Mnemonic::Eor, mode: AddressingMode::IndexedIndirect, cycles: 6 }),
        0x45u8 => Some(Instruction { mnemonic: Mnemonic::Eor, mode: AddressingMode::ZeroPage, cycles: 3 }),
        0x46u8 => Some(Instruction { mnemonic: Mnemonic::Lsr, mode: AddressingMode::ZeroPage, cycles: 5 }),
        0x48u8 => Some(Instruction { mnemonic: Mnemonic::Pha, mode: AddressingMode::Implied, cycles: 3 }),
        0x49u8 => Some(Instruction { mnemonic: Mnemonic::Eor, mode: AddressingMode::Immediate, cycles: 2 }),
        0x4Au8 => Some(Instruction { mnemonic: Mnemonic::Lsr, mode: AddressingMode::Accumulator, cycles: 2 }),
        0x4Cu8 => Some(Instruction { mnemonic: Mnemonic::Jmp, mode: AddressingMode::Absolute, cycles: 3 }),
        0x4Du8 => Some(Instruction { mnemonic: Mnemonic::Eor, mode: AddressingMode::Absolute, cycles: 4 }),
        0x4Eu8 => Some(Instruction { mnemonic: Mnemonic::Lsr, mode: AddressingMode::Absolute, cycles: 6 }),
        0x50u8 => Some(Instruction { mnemonic: Mnemonic::Bvc, mode: AddressingMode::Relative, cycles: 2 }),
        0x51u8 => Some(Instruction { mnemonic: Mnemonic::Eor, mode: AddressingMode::IndirectIndexed, cycles: 5 }),
        0x55u8 => Some(Instruction { mnemonic: Mnemonic::Eor, mode: AddressingMode::ZeroPageX, cycles: 4 }),
        0x56u8 => Some(Instruction { mnemonic: Mnemonic::Lsr, mode: AddressingMode::ZeroPageX, cycles: 6 }),
        0x58u8 => Some(Instruction { mnemonic: Mnemonic::Cli, mode: AddressingMode::Implied, cycles: 2 }),
        0x59u8 => Some(Instruction { mnemonic: Mnemonic::Eor, mode: AddressingMode::AbsoluteY, cycles: 4 }),
        0x5Du8 => Some(Instruction { mnemonic: Mnemonic::Eor, mode: AddressingMode::AbsoluteX, cycles: 4 }),
        0x5Eu8 => Some(Instruction { mnemonic: Mnemonic::Lsr, mode: AddressingMode::AbsoluteX, cycles: 7 }),
        0x60u8 => Some(Instruction { mnemonic: Mnemonic::Rts, mode: AddressingMode::Implied, cycles: 6 }),
        0x61u8 => Some(Instruction { mnemonic: Mnemonic::Adc, mode: AddressingMode::IndexedIndirect, cycles: 6 }),
        0x65u8 => Some(Instruction { mnemonic: Mnemonic::Adc, mode: AddressingMode::ZeroPage, cycles: 3 }),
        0x66u8 => Some(Instruction { mnemonic: Mnemonic::Ror, mode: AddressingMode::ZeroPage, cycles: 5 }),
        0x68u8 => Some(Instruction { mnemonic: Mnemonic::Pla, mode: AddressingMode::Implied, cycles: 4 }),
        0x69u8 => Some(Instruction { mnemonic: Mnemonic::Adc, mode: AddressingMode::Immediate, cycles: 2 }),
        0x6Au8 => Some(Instruction { mnemonic: Mnemonic::Ror, mode: AddressingMode::Accumulator, cycles: 2 }),
        0x6Cu8 => Some(Instruction { mnemonic: Mnemonic::Jmp, mode: AddressingMode::Indirect, cycles: 5 }),
        0x6Du8 => Some(Instruction { mnemonic: Mnemonic::Adc, mode: AddressingMode::Absolute, cycles: 4 }),
        0x6Eu8 => Some(Instruction { mnemonic: Mnemonic::Ror, mode: AddressingMode::Absolute, cycles: 6 }),
        0x70u8 => Some(Instruction { mnemonic: Mnemonic::Bvs, mode: AddressingMode::Relative, cycles: 2 }),
        0x71u8 => Some(Instruction { mnemonic: Mnemonic::Adc, mode: AddressingMode::IndirectIndexed, cycles: 5 }),
        0x75u8 => Some(Instruction { mnemonic: Mnemonic::Adc, mode: AddressingMode::ZeroPageX, cycles: 4 }),
        0x76u8 => Some(Instruction { mnemonic: Mnemonic::Ror, mode: AddressingMode::ZeroPageX, cycles: 6 }),
        0x78u8 => Some(Instruction { mnemonic: Mnemonic::Sei, mode: AddressingMode::Implied, cycles: 2 }),
        0x79u8 => Some(Instruction { mnemonic: Mnemonic::Adc, mode: AddressingMode::AbsoluteY, cycles: 4 }),
        0x7Du8 => Some(Instruction { mnemonic: Mnemonic::Adc, mode: AddressingMode::AbsoluteX, cycles: 4 }),
        0x7Eu8 => Some(Instruction { mnemonic: Mnemonic::Ror, mode: AddressingMode::AbsoluteX, cycles: 7 }),
        0x81u8 => Some(Instruction { mnemonic: Mnemonic::Sta, mode: AddressingMode::IndexedIndirect, cycles: 6 }),
        0x84u8 => Some(Instruction { mnemonic: Mnemonic::Sty, mode: AddressingMode::ZeroPage, cycles: 3 }),
        0x85u8 => Some(Instruction { mnemonic: Mnemonic::Sta, mode: AddressingMode::ZeroPage, cycles: 3 }),
        0x86u8 => Some(Instruction { mnemonic: Mnemonic::Stx, mode: AddressingMode::ZeroPage, cycles: 3 }),
        0x88u8 => Some(Instruction { mnemonic: Mnemonic::Dey, mode: AddressingMode::Implied, cycles: 2 }),
        0x8Au8 => Some(Instruction { mnemonic: Mnemonic::Txa, mode: AddressingMode::Implied, cycles: 2 }),
        0x8Cu8 => Some(Instruction { mnemonic: Mnemonic::Sty, mode: AddressingMode::Absolute, cycles: 4 }),
        0x8Du8 => Some(Instruction { mnemonic: Mnemonic::Sta, mode: AddressingMode::Absolute, cycles: 4 }),
        0x8Eu8 => Some(Instruction { mnemonic: Mnemonic::Stx, mode: AddressingMode::Absolute, cycles: 4 }),
        0x90u8 => Some(Instruction { mnemonic: Mnemonic::Bcc, mode: AddressingMode::Relative, cycles: 2 }),
        0x91u8 => Some(Instruction { mnemonic: Mnemonic::Sta, mode: AddressingMode::IndirectIndexed, cycles: 6 }),
        0x94u8 => Some(Instruction { mnemonic: Mnemonic::Sty, mode: AddressingMode::ZeroPageX, cycles: 4 }),
        0x95u8 => Some(Instruction { mnemonic: Mnemonic::Sta, mode: AddressingMode::ZeroPageX, cycles: 4 }),
        0x96u8 => Some(Instruction { mnemonic: Mnemonic::Stx, mode: AddressingMode::ZeroPageY, cycles: 4 }),
        0x98u8 => Some(Instruction { mnemonic: Mnemonic::Tya, mode: AddressingMode::Implied, cycles: 2 }),
        0x99u8 => Some(Instruction { mnemonic: Mnemonic::Sta, mode: AddressingMode::AbsoluteY, cycles: 5 }),
        0x9Au8 => Some(Instruction { mnemonic: Mnemonic::Txs, mode: AddressingMode::Implied, cycles: 2 }),
        0x9Du8 => Some(Instruction { mnemonic: Mnemonic::Sta, mode: AddressingMode::AbsoluteX, cycles: 5 }),
        0xA0u8 => Some(Instruction { mnemonic: Mnemonic::Ldy, mode: AddressingMode::Immediate, cycles: 2 }),
        0xA1u8 => Some(Instruction { mnemonic: Mnemonic::Lda, mode: AddressingMode::IndexedIndirect, cycles: 6 }),
        0xA2u8 => Some(Instruction { mnemonic: Mnemonic::Ldx, mode: AddressingMode::Immediate, cycles: 2 }),
        0xA4u8 => Some(Instruction { mnemonic: Mnemonic::Ldy, mode: AddressingMode::ZeroPage, cycles: 3 }),
        0xA5u8 => Some(Instruction { mnemonic: Mnemonic::Lda, mode: AddressingMode::ZeroPage, cycles: 3 }),
        0xA6u8 => Some(Instruction { mnemonic: Mnemonic::Ldx, mode: AddressingMode::ZeroPage, cycles: 3 }),
        0xA8u8 => Some(Instruction { mnemonic: Mnemonic::Tay, mode: AddressingMode::Implied, cycles: 2 }),
        0xA9u8 => Some(Instruction { mnemonic: Mnemonic::Lda, mode: AddressingMode::Immediate, cycles: 2 }),
        0xAAu8 => Some(Instruction { mnemonic: Mnemonic::Tax, mode: AddressingMode::Implied, cycles: 2 }),
        0xACu8 => Some(Instruction { mnemonic: Mnemonic::Ldy, mode: AddressingMode::Absolute, cycles: 4 }),
        0xADu8 => Some(Instruction { mnemonic: Mnemonic::Lda, mode: AddressingMode::Absolute, cycles: 4 }),
        0xAEu8 => Some(Instruction { mnemonic: Mnemonic::Ldx, mode: AddressingMode::Absolute, cycles: 4 }),
        0xB0u8 => Some(Instruction { mnemonic: Mnemonic::Bcs, mode: AddressingMode::Relative, cycles: 2 }),
        0xB1u8 => Some(Instruction { mnemonic: Mnemonic::Lda, mode: AddressingMode::IndirectIndexed, cycles: 5 }),
        0xB4u8 => Some(Instruction { mnemonic: Mnemonic::Ldy, mode: AddressingMode::ZeroPageX, cycles: 4 }),
        0xB5u8 => Some(Instruction { mnemonic: Mnemonic::Lda, mode: AddressingMode::ZeroPageX, cycles: 4 }),
        0xB6u8 => Some(Instruction { mnemonic: Mnemonic::Ldx, mode: AddressingMode::ZeroPageY, cycles: 4 }),
        0xB8u8 => Some(Instruction { mnemonic: Mnemonic::Clv, mode: AddressingMode::Implied, cycles: 2 }),
        0xB9u8 => Some(Instruction { mnemonic: Mnemonic::Lda, mode: AddressingMode::AbsoluteY, cycles: 4 }),
        0xBAu8 => Some(Instruction { mnemonic: Mnemonic::Tsx, mode: AddressingMode::Implied, cycles: 2 }),
        0xBCu8 => Some(Instruction { mnemonic: Mnemonic::Ldy, mode: AddressingMode::AbsoluteX, cycles: 4 }),
        0xBDu8 => Some(Instruction { mnemonic: Mnemonic::Lda, mode: AddressingMode::AbsoluteX, cycles: 4 }),
        0xBEu8 => Some(Instruction { mnemonic: Mnemonic::Ldx, mode: AddressingMode::AbsoluteY, cycles: 4 }),
        0xC0u8 => Some(Instruction { mnemonic: Mnemonic::Cpy, mode: AddressingMode::Immediate, cycles: 2 }),
        0xC1u8 => Some(Instruction { mnemonic: Mnemonic::Cmp, mode: AddressingMode::IndexedIndirect, cycles: 6 }),
        0xC4u8 => Some(Instruction { mnemonic: Mnemonic::Cpy, mode: AddressingMode::ZeroPage, cycles: 3 }),
        0xC5u8 => Some(Instruction { mnemonic: Mnemonic::Cmp, mode: AddressingMode::ZeroPage, cycles: 3 }),
        0xC6u8 => Some(Instruction { mnemonic: Mnemonic::Dec, mode: AddressingMode::ZeroPage, cycles: 5 }),
        0xC8u8 => Some(Instruction { mnemonic: Mnemonic::Iny, mode: AddressingMode::Implied, cycles: 2 }),
        0xC9u8 => Some(Instruction { mnemonic: Mnemonic::Cmp, mode: AddressingMode::Immediate, cycles: 2 }),
        0xCAu8 => Some(Instruction { mnemonic: Mnemonic::Dex, mode: AddressingMode::Implied, cycles: 2 }),
        0xCCu8 => Some(Instruction { mnemonic: Mnemonic::Cpy, mode: AddressingMode::Absolute, cycles: 4 }),
        0xCDu8 => Some(Instruction { mnemonic: Mnemonic::Cmp, mode: AddressingMode::Absolute, cycles: 4 }),
        0xCEu8 => Some(Instruction { mnemonic: Mnemonic::Dec, mode: AddressingMode::Absolute, cycles: 6 }),
        0xD0u8 => Some(Instruction { mnemonic: Mnemonic::Bne, mode: AddressingMode::Relative, cycles: 2 }),
        0xD1u8 => Some(Instruction { mnemonic: Mnemonic::Cmp, mode: AddressingMode::IndirectIndexed, cycles: 5 }),
        0xD5u8 => Some(Instruction { mnemonic: Mnemonic::Cmp, mode: AddressingMode::ZeroPageX, cycles: 4 }),
        0xD6u8 => Some(Instruction { mnemonic: Mnemonic::Dec, mode: AddressingMode::ZeroPageX, cycles: 6 }),
        0xD8u8 => Some(Instruction { mnemonic: Mnemonic::Cld, mode: AddressingMode::Implied, cycles: 2 }),
        0xD9u8 => Some(Instruction { mnemonic: Mnemonic::Cmp, mode: AddressingMode::AbsoluteY, cycles: 4 }),
        0xDDu8 => Some(Instruction { mnemonic: Mnemonic::Cmp, mode: AddressingMode::AbsoluteX, cycles: 4 }),
        0xDEu8 => Some(Instruction { mnemonic: Mnemonic::Dec, mode: AddressingMode::AbsoluteX, cycles: 7 }),
        0xE0u8 => Some(Instruction { mnemonic: Mnemonic::Cpx, mode: AddressingMode::Immediate, cycles: 2 }),
        0xE1u8 => Some(Instruction { mnemonic: Mnemonic::Sbc, mode: AddressingMode::IndexedIndirect, cycles: 6 }),
        0xE4u8 => Some(Instruction { mnemonic: Mnemonic::Cpx, mode: AddressingMode::ZeroPage, cycles: 3 }),
        0xE5u8 => Some(Instruction { mnemonic: Mnemonic::Sbc, mode: AddressingMode::ZeroPage, cycles: 3 }),
        0xE6u8 => Some(Instruction { mnemonic: Mnemonic::Inc, mode: AddressingMode::ZeroPage, cycles: 5 }),
        0xE8u8 => Some(Instruction { mnemonic: Mnemonic::Inx, mode: AddressingMode::Implied, cycles: 2 }),
        0xE9u8 => Some(Instruction { mnemonic: Mnemonic::Sbc, mode: AddressingMode::Immediate, cycles: 2 }),
        0xEAu8 => Some(Instruction { mnemonic: Mnemonic::Nop, mode: AddressingMode::Implied, cycles: 2 }),
        0xECu8 => Some(Instruction { mnemonic: Mnemonic::Cpx, mode: AddressingMode::Absolute, cycles: 4 }),
        0xEDu8 => Some(Instruction { mnemonic: Mnemonic::Sbc, mode: AddressingMode::Absolute, cycles: 4 }),
        0xEEu8 => Some(Instruction { mnemonic: Mnemonic::Inc, mode: AddressingMode::Absolute, cycles: 6 }),
        0xF0u8 => Some(Instruction { mnemonic: Mnemonic::Beq, mode: AddressingMode::Relative, cycles: 2 }),
        0xF1u8 => Some(Instruction { mnemonic: Mnemonic::Sbc, mode: AddressingMode::IndirectIndexed, cycles: 5 }),
        0xF5u8 => Some(Instruction { mnemonic: Mnemonic::Sbc, mode: AddressingMode::ZeroPageX, cycles: 4 }),
        0xF6u8 => Some(Instruction { mnemonic: Mnemonic::Inc, mode: AddressingMode::ZeroPageX, cycles: 6 }),
        0xF8u8 => Some(Instruction { mnemonic: Mnemonic::Sed, mode: AddressingMode::Implied, cycles: 2 }),
        0xF9u8 => Some(Instruction { mnemonic: Mnemonic::Sbc, mode: AddressingMode::AbsoluteY, cycles: 4 }),
        0xFDu8 => Some(Instruction { mnemonic: Mnemonic::Sbc, mode: AddressingMode::AbsoluteX, cycles: 4 }),
        0xFEu8 => Some(Instruction { mnemonic: Mnemonic::Inc, mode: AddressingMode::AbsoluteX, cycles: 7 }),
        _ => None,
    }
}

/// Looks an opcode up in the table.
pub fn decode(opcode: u8) -> (entry: Option<Instruction>)
    ensures
        entry == decode_spec(opcode),
{
    match opcode {
        BRK => Some(Instruction { mnemonic: Mnemonic::Brk, mode: AddressingMode::Implied, cycles: 7 }),
        ORA_IX_IND => Some(Instruction { mnemonic: Mnemonic::Ora, mode: AddressingMode::IndexedIndirect, cycles: 6 }),
        ORA_ZPG => Some(Instruction { mnemonic: Mnemonic::Ora, mode: AddressingMode::ZeroPage, cycles: 3 }),
        ASL_ZPG => Some(Instruction { mnemonic: Mnemonic::Asl, mode: AddressingMode::ZeroPage, cycles: 5 }),
        PHP => Some(Instruction { mnemonic: Mnemonic::Php, mode: AddressingMode::Implied, cycles: 3 }),
        ORA_IMM => Some(Instruction { mnemonic: Mnemonic::Ora, mode: AddressingMode::Immediate, cycles: 2 }),
        ASL_ACC => Some(Instruction { mnemonic: Mnemonic::Asl, mode: AddressingMode::Accumulator, cycles: 2 }),
        ORA_ABS => Some(Instruction { mnemonic: Mnemonic::Ora, mode: AddressingMode::Absolute, cycles: 4 }),
        ASL_ABS => Some(Instruction { mnemonic: Mnemonic::Asl, mode: AddressingMode::Absolute, cycles: 6 }),
        BPL => Some(Instruction { mnemonic: Mnemonic::Bpl, mode: AddressingMode::Relative, cycles: 2 }),
        ORA_IND_IX => Some(Instruction { mnemonic: Mnemonic::Ora, mode: AddressingMode::IndirectIndexed, cycles: 5 }),
        ORA_ZPG_X => Some(Instruction { mnemonic: Mnemonic::Ora, mode: AddressingMode::ZeroPageX, cycles: 4 }),
        ASL_ZPG_X => Some(Instruction { mnemonic: Mnemonic::Asl, mode: AddressingMode::ZeroPageX, cycles: 6 }),
        CLC => Some(Instruction { mnemonic: Mnemonic::Clc, mode: AddressingMode::Implied, cycles: 2 }),
        ORA_ABS_Y => Some(Instruction { mnemonic: Mnemonic::Ora, mode: AddressingMode::AbsoluteY, cycles: 4 }),
        ORA_ABS_X => Some(Instruction { mnemonic: Mnemonic::Ora, mode: AddressingMode::AbsoluteX, cycles: 4 }),
        ASL_ABS_X => Some(Instruction { mnemonic: Mnemonic::Asl, mode: AddressingMode::AbsoluteX, cycles: 7 }),
        JSR_ABS => Some(Instruction { mnemonic: Mnemonic::Jsr, mode: AddressingMode::Absolute, cycles: 6 }),
        AND_IX_IND => Some(Instruction { mnemonic: Mnemonic::And, mode: AddressingMode::IndexedIndirect, cycles: 6 }),
        BIT_ZPG => Some(Instruction { mnemonic: Mnemonic::Bit, mode: AddressingMode::ZeroPage, cycles: 3 }),
        AND_ZPG => Some(Instruction { mnemonic: Mnemonic::And, mode: AddressingMode::ZeroPage, cycles: 3 }),
        ROL_ZPG => Some(Instruction { mnemonic: Mnemonic::Rol, mode: AddressingMode::ZeroPage, cycles: 5 }),
        PLP => Some(Instruction { mnemonic: Mnemonic::Plp, mode: AddressingMode::Implied, cycles: 4 }),
        AND_IMM => Some(Instruction { mnemonic: Mnemonic::And, mode: AddressingMode::Immediate, cycles: 2 }),
        ROL_ACC => Some(Instruction { mnemonic: Mnemonic::Rol, mode: AddressingMode::Accumulator, cycles: 2 }),
        BIT_ABS => Some(Instruction { mnemonic: Mnemonic::Bit, mode: AddressingMode::Absolute, cycles: 4 }),
        AND_ABS => Some(Instruction { mnemonic: Mnemonic::And, mode: AddressingMode::Absolute, cycles: 4 }),
        ROL_ABS => Some(Instruction { mnemonic: Mnemonic::Rol, mode: AddressingMode::Absolute, cycles: 6 }),
        BMI => Some(Instruction { mnemonic: Mnemonic::Bmi, mode: AddressingMode::Relative, cycles: 2 }),
        AND_IND_IX => Some(Instruction { mnemonic: Mnemonic::And, mode: AddressingMode::IndirectIndexed, cycles: 5 }),
        AND_ZPG_X => Some(Instruction { mnemonic: Mnemonic::And, mode: AddressingMode::ZeroPageX, cycles: 4 }),
        ROL_ZPG_X => Some(Instruction { mnemonic: Mnemonic::Rol, mode: AddressingMode::ZeroPageX, cycles: 6 }),
        SEC => Some(Instruction { mnemonic: Mnemonic::Sec, mode: AddressingMode::Implied, cycles: 2 }),
        AND_ABS_Y => Some(Instruction { mnemonic: Mnemonic::And, mode: AddressingMode::AbsoluteY, cycles: 4 }),
        AND_ABS_X => Some(Instruction { mnemonic: Mnemonic::And, mode: AddressingMode::AbsoluteX, cycles: 4 }),
        ROL_ABS_X => Some(Instruction { mnemonic: Mnemonic::Rol, mode: AddressingMode::AbsoluteX, cycles: 7 }),
        RTI => Some(Instruction { mnemonic: Mnemonic::Rti, mode: AddressingMode::Implied, cycles: 6 }),
        EOR_IX_IND => Some(Instruction { mnemonic: Mnemonic::Eor, mode: AddressingMode::IndexedIndirect, cycles: 6 }),
        EOR_ZPG => Some(Instruction { mnemonic: Mnemonic::Eor, mode: AddressingMode::ZeroPage, cycles: 3 }),
        LSR_ZPG => Some(Instruction { mnemonic: Mnemonic::Lsr, mode: AddressingMode::ZeroPage, cycles: 5 }),
        PHA => Some(Instruction { mnemonic: Mnemonic::Pha, mode: AddressingMode::Implied, cycles: 3 }),
        EOR_IMM => Some(Instruction { mnemonic: Mnemonic::Eor, mode: AddressingMode::Immediate, cycles: 2 }),
        LSR_ACC => Some(Instruction { mnemonic: Mnemonic::Lsr, mode: AddressingMode::Accumulator, cycles: 2 }),
        JMP_ABS => Some(Instruction { mnemonic: Mnemonic::Jmp, mode: AddressingMode::Absolute, cycles: 3 }),
        EOR_ABS => Some(Instruction { mnemonic: Mnemonic::Eor, mode: AddressingMode::Absolute, cycles: 4 }),
        LSR_ABS => Some(Instruction { mnemonic: Mnemonic::Lsr, mode: AddressingMode::Absolute, cycles: 6 }),
        BVC => Some(Instruction { mnemonic: Mnemonic::Bvc, mode: AddressingMode::Relative, cycles: 2 }),
        EOR_IND_IX => Some(Instruction { mnemonic: Mnemonic::Eor, mode: AddressingMode::IndirectIndexed, cycles: 5 }),
        EOR_ZPG_X => Some(Instruction { mnemonic: Mnemonic::Eor, mode: AddressingMode::ZeroPageX, cycles: 4 }),
        LSR_ZPG_X => Some(Instruction { mnemonic: Mnemonic::Lsr, mode: AddressingMode::ZeroPageX, cycles: 6 }),
        CLI => Some(Instruction { mnemonic: Mnemonic::Cli, mode: AddressingMode::Implied, cycles: 2 }),
        EOR_ABS_Y => Some(Instruction { mnemonic: Mnemonic::Eor, mode: AddressingMode::AbsoluteY, cycles: 4 }),
        EOR_ABS_X => Some(Instruction { mnemonic: Mnemonic::Eor, mode: AddressingMode::AbsoluteX, cycles: 4 }),
        LSR_ABS_X => Some(Instruction { mnemonic: Mnemonic::Lsr, mode: AddressingMode::AbsoluteX, cycles: 7 }),
        RTS => Some(Instruction { mnemonic: Mnemonic::Rts, mode: AddressingMode::Implied, cycles: 6 }),
        ADC_IX_IND => Some(Instruction { mnemonic: Mnemonic::Adc, mode: AddressingMode::IndexedIndirect, cycles: 6 }),
        ADC_ZPG => Some(Instruction { mnemonic: Mnemonic::Adc, mode: AddressingMode::ZeroPage, cycles: 3 }),
        ROR_ZPG => Some(Instruction { mnemonic: Mnemonic::Ror, mode: AddressingMode::ZeroPage, cycles: 5 }),
        PLA => Some(Instruction { mnemonic: Mnemonic::Pla, mode: AddressingMode::Implied, cycles: 4 }),
        ADC_IMM => Some(Instruction { mnemonic: Mnemonic::Adc, mode: AddressingMode::Immediate, cycles: 2 }),
        ROR_ACC => Some(Instruction { mnemonic: Mnemonic::Ror, mode: AddressingMode::Accumulator, cycles: 2 }),
        JMP_IND => Some(Instruction { mnemonic: Mnemonic::Jmp, mode: AddressingMode::Indirect, cycles: 5 }),
        ADC_ABS => Some(Instruction { mnemonic: Mnemonic::Adc, mode: AddressingMode::Absolute, cycles: 4 }),
        ROR_ABS => Some(Instruction { mnemonic: Mnemonic::Ror, mode: AddressingMode::Absolute, cycles: 6 }),
        BVS => Some(Instruction { mnemonic: Mnemonic::Bvs, mode: AddressingMode::Relative, cycles: 2 }),
        ADC_IND_IX => Some(Instruction { mnemonic: Mnemonic::Adc, mode: AddressingMode::IndirectIndexed, cycles: 5 }),
        ADC_ZPG_X => Some(Instruction { mnemonic: Mnemonic::Adc, mode: AddressingMode::ZeroPageX, cycles: 4 }),
        ROR_ZPG_X => Some(Instruction { mnemonic: Mnemonic::Ror, mode: AddressingMode::ZeroPageX, cycles: 6 }),
        SEI => Some(Instruction { mnemonic: Mnemonic::Sei, mode: AddressingMode::Implied, cycles: 2 }),
        ADC_ABS_Y => Some(Instruction { mnemonic: Mnemonic::Adc, mode: AddressingMode::AbsoluteY, cycles: 4 }),
        ADC_ABS_X => Some(Instruction { mnemonic: Mnemonic::Adc, mode: AddressingMode::AbsoluteX, cycles: 4 }),
        ROR_ABS_X => Some(Instruction { mnemonic: Mnemonic::Ror, mode: AddressingMode::AbsoluteX, cycles: 7 }),
        STA_IX_IND => Some(Instruction { mnemonic: Mnemonic::Sta, mode: AddressingMode::IndexedIndirect, cycles: 6 }),
        STY_ZPG => Some(Instruction { mnemonic: Mnemonic::Sty, mode: AddressingMode::ZeroPage, cycles: 3 }),
        STA_ZPG => Some(Instruction { mnemonic: Mnemonic::Sta, mode: AddressingMode::ZeroPage, cycles: 3 }),
        STX_ZPG => Some(Instruction { mnemonic: Mnemonic::Stx, mode: AddressingMode::ZeroPage, cycles: 3 }),
        DEY => Some(Instruction { mnemonic: Mnemonic::Dey, mode: AddressingMode::Implied, cycles: 2 }),
        TXA => Some(Instruction { mnemonic: Mnemonic::Txa, mode: AddressingMode::Implied, cycles: 2 }),
        STY_ABS => Some(Instruction { mnemonic: Mnemonic::Sty, mode: AddressingMode::Absolute, cycles: 4 }),
        STA_ABS => Some(Instruction { mnemonic: Mnemonic::Sta, mode: AddressingMode::Absolute, cycles: 4 }),
        STX_ABS => Some(Instruction { mnemonic: Mnemonic::Stx, mode: AddressingMode::Absolute, cycles: 4 }),
        BCC => Some(Instruction { mnemonic: Mnemonic::Bcc, mode: AddressingMode::Relative, cycles: 2 }),
        STA_IND_IX => Some(Instruction { mnemonic: Mnemonic::Sta, mode: AddressingMode::IndirectIndexed, cycles: 6 }),
        STY_ZPG_X => Some(Instruction { mnemonic: Mnemonic::Sty, mode: AddressingMode::ZeroPageX, cycles: 4 }),
        STA_ZPG_X => Some(Instruction { mnemonic: Mnemonic::Sta, mode: AddressingMode::ZeroPageX, cycles: 4 }),
        STX_ZPG_Y => Some(Instruction { mnemonic: Mnemonic::Stx, mode: AddressingMode::ZeroPageY, cycles: 4 }),
        TYA => Some(Instruction { mnemonic: Mnemonic::Tya, mode: AddressingMode::Implied, cycles: 2 }),
        STA_ABS_Y => Some(Instruction { mnemonic: Mnemonic::Sta, mode: AddressingMode::AbsoluteY, cycles: 5 }),
        TXS => Some(Instruction { mnemonic: Mnemonic::Txs, mode: AddressingMode::Implied, cycles: 2 }),
        STA_ABS_X => Some(Instruction { mnemonic: Mnemonic::Sta, mode: AddressingMode::AbsoluteX, cycles: 5 }),
        LDY_IMM => Some(Instruction { mnemonic: Mnemonic::Ldy, mode: AddressingMode::Immediate, cycles: 2 }),
        LDA_IX_IND => Some(Instruction { mnemonic: Mnemonic::Lda, mode: AddressingMode::IndexedIndirect, cycles: 6 }),
        LDX_IMM => Some(Instruction { mnemonic: Mnemonic::Ldx, mode: AddressingMode::Immediate, cycles: 2 }),
        LDY_ZPG => Some(Instruction { mnemonic: Mnemonic::Ldy, mode: AddressingMode::ZeroPage, cycles: 3 }),
        LDA_ZPG => Some(Instruction { mnemonic: Mnemonic::Lda, mode: AddressingMode::ZeroPage, cycles: 3 }),
        LDX_ZPG => Some(Instruction { mnemonic: Mnemonic::Ldx, mode: AddressingMode::ZeroPage, cycles: 3 }),
        TAY => Some(Instruction { mnemonic: Mnemonic::Tay, mode: AddressingMode::Implied, cycles: 2 }),
        LDA_IMM => Some(Instruction { mnemonic: Mnemonic::Lda, mode: AddressingMode::Immediate, cycles: 2 }),
        TAX => Some(Instruction { mnemonic: Mnemonic::Tax, mode: AddressingMode::Implied, cycles: 2 }),
        LDY_ABS => Some(Instruction { mnemonic: Mnemonic::Ldy, mode: AddressingMode::Absolute, cycles: 4 }),
        LDA_ABS => Some(Instruction { mnemonic: Mnemonic::Lda, mode: AddressingMode::Absolute, cycles: 4 }),
        LDX_ABS => Some(Instruction { mnemonic: Mnemonic::Ldx, mode: AddressingMode::Absolute, cycles: 4 }),
        BCS => Some(Instruction { mnemonic: Mnemonic::Bcs, mode: AddressingMode::Relative, cycles: 2 }),
        LDA_IND_IX => Some(Instruction { mnemonic: Mnemonic::Lda, mode: AddressingMode::IndirectIndexed, cycles: 5 }),
        LDY_ZPG_X => Some(Instruction { mnemonic: Mnemonic::Ldy, mode: AddressingMode::ZeroPageX, cycles: 4 }),
        LDA_ZPG_X => Some(Instruction { mnemonic: Mnemonic::Lda, mode: AddressingMode::ZeroPageX, cycles: 4 }),
        LDX_ZPG_Y => Some(Instruction { mnemonic: Mnemonic::Ldx, mode: AddressingMode::ZeroPageY, cycles: 4 }),
        CLV => Some(Instruction { mnemonic: Mnemonic::Clv, mode: AddressingMode::Implied, cycles: 2 }),
        LDA_ABS_Y => Some(Instruction { mnemonic: Mnemonic::Lda, mode: AddressingMode::AbsoluteY, cycles: 4 }),
        TSX => Some(Instruction { mnemonic: Mnemonic::Tsx, mode: AddressingMode::Implied, cycles: 2 }),
        LDY_ABS_X => Some(Instruction { mnemonic: Mnemonic::Ldy, mode: AddressingMode::AbsoluteX, cycles: 4 }),
        LDA_ABS_X => Some(Instruction { mnemonic: Mnemonic::Lda, mode: AddressingMode::AbsoluteX, cycles: 4 }),
        LDX_ABS_Y => Some(Instruction { mnemonic: Mnemonic::Ldx, mode: AddressingMode::AbsoluteY, cycles: 4 }),
        CPY_IMM => Some(Instruction { mnemonic: Mnemonic::Cpy, mode: AddressingMode::Immediate, cycles: 2 }),
        CMP_IX_IND => Some(Instruction { mnemonic: Mnemonic::Cmp, mode: AddressingMode::IndexedIndirect, cycles: 6 }),
        CPY_ZPG => Some(Instruction { mnemonic: Mnemonic::Cpy, mode: AddressingMode::ZeroPage, cycles: 3 }),
        CMP_ZPG => Some(Instruction { mnemonic: Mnemonic::Cmp, mode: AddressingMode::ZeroPage, cycles: 3 }),
        DEC_ZPG => Some(Instruction { mnemonic: Mnemonic::Dec, mode: AddressingMode::ZeroPage, cycles: 5 }),
        INY => Some(Instruction { mnemonic: Mnemonic::Iny, mode: AddressingMode::Implied, cycles: 2 }),
        CMP_IMM => Some(Instruction { mnemonic: Mnemonic::Cmp, mode: AddressingMode::Immediate, cycles: 2 }),
        DEX => Some(Instruction { mnemonic: Mnemonic::Dex, mode: AddressingMode::Implied, cycles: 2 }),
        CPY_ABS => Some(Instruction { mnemonic: Mnemonic::Cpy, mode: AddressingMode::Absolute, cycles: 4 }),
        CMP_ABS => Some(Instruction { mnemonic: Mnemonic::Cmp, mode: AddressingMode::Absolute, cycles: 4 }),
        DEC_ABS => Some(Instruction { mnemonic: Mnemonic::Dec, mode: AddressingMode::Absolute, cycles: 6 }),
        BNE => Some(Instruction { mnemonic: Mnemonic::Bne, mode: AddressingMode::Relative, cycles: 2 }),
        CMP_IND_IX => Some(Instruction { mnemonic: Mnemonic::Cmp, mode: AddressingMode::IndirectIndexed, cycles: 5 }),
        CMP_ZPG_X => Some(Instruction { mnemonic: Mnemonic::Cmp, mode: AddressingMode::ZeroPageX, cycles: 4 }),
        DEC_ZPG_X => Some(Instruction { mnemonic: Mnemonic::Dec, mode: AddressingMode::ZeroPageX, cycles: 6 }),
        CLD => Some(Instruction { mnemonic: Mnemonic::Cld, mode: AddressingMode::Implied, cycles: 2 }),
        CMP_ABS_Y => Some(Instruction { mnemonic: Mnemonic::Cmp, mode: AddressingMode::AbsoluteY, cycles: 4 }),
        CMP_ABS_X => Some(Instruction { mnemonic: Mnemonic::Cmp, mode: AddressingMode::AbsoluteX, cycles: 4 }),
        DEC_ABS_X => Some(Instruction { mnemonic: Mnemonic::Dec, mode: AddressingMode::AbsoluteX, cycles: 7 }),
        CPX_IMM => Some(Instruction { mnemonic: Mnemonic::Cpx, mode: AddressingMode::Immediate, cycles: 2 }),
        SBC_IX_IND => Some(Instruction { mnemonic: Mnemonic::Sbc, mode: AddressingMode::IndexedIndirect, cycles: 6 }),
        CPX_ZPG => Some(Instruction { mnemonic: Mnemonic::Cpx, mode: AddressingMode::ZeroPage, cycles: 3 }),
        SBC_ZPG => Some(Instruction { mnemonic: Mnemonic::Sbc, mode: AddressingMode::ZeroPage, cycles: 3 }),
        INC_ZPG => Some(Instruction { mnemonic: Mnemonic::Inc, mode: AddressingMode::ZeroPage, cycles: 5 }),
        INX => Some(Instruction { mnemonic: Mnemonic::Inx, mode: AddressingMode::Implied, cycles: 2 }),
        SBC_IMM => Some(Instruction { mnemonic: Mnemonic::Sbc, mode: AddressingMode::Immediate, cycles: 2 }),
        NOP => Some(Instruction { mnemonic: Mnemonic::Nop, mode: AddressingMode::Implied, cycles: 2 }),
        CPX_ABS => Some(Instruction { mnemonic: Mnemonic::Cpx, mode: AddressingMode::Absolute, cycles: 4 }),
        SBC_ABS => Some(Instruction { mnemonic: Mnemonic::Sbc, mode: AddressingMode::Absolute, cycles: 4 }),
        INC_ABS => Some(Instruction { mnemonic: Mnemonic::Inc, mode: AddressingMode::Absolute, cycles: 6 }),
        BEQ => Some(Instruction { mnemonic: Mnemonic::Beq, mode: AddressingMode::Relative, cycles: 2 }),
        SBC_IND_IX => Some(Instruction { mnemonic: Mnemonic::Sbc, mode: AddressingMode::IndirectIndexed, cycles: 5 }),
        SBC_ZPG_X => Some(Instruction { mnemonic: Mnemonic::Sbc, mode: AddressingMode::ZeroPageX, cycles: 4 }),
        INC_ZPG_X => Some(Instruction { mnemonic: Mnemonic::Inc, mode: AddressingMode::ZeroPageX, cycles: 6 }),
        SED => Some(Instruction { mnemonic: Mnemonic::Sed, mode: AddressingMode::Implied, cycles: 2 }),
        SBC_ABS_Y => Some(Instruction { mnemonic: Mnemonic::Sbc, mode: AddressingMode::AbsoluteY, cycles: 4 }),
        SBC_ABS_X => Some(Instruction { mnemonic: Mnemonic::Sbc, mode: AddressingMode::AbsoluteX, cycles: 4 }),
        INC_ABS_X => Some(Instruction { mnemonic: Mnemonic::Inc, mode: AddressingMode::AbsoluteX, cycles: 7 }),
        _ => None,
    }
}

/// No opcode takes fewer than two cycles or more than seven.
pub proof fn lemma_base_cycles(opcode: u8)
    ensures
        match decode_spec(opcode) {
            Some(entry) => 2 <= entry.cycles <= 7,
            None => true,
        },
{
}

} // verus!
