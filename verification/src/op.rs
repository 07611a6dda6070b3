//! The opcode table: a pure map from an 8-bit opcode to its decoded
//! descriptor (mnemonic, addressing mode, base cycle count).
//!
//! The table covers the 151 official opcodes; every other opcode decodes to
//! `None`, which the step driver treats as a fatal decode error.  The cycle
//! counts are the documented base counts: page-crossing and taken-branch
//! penalties are not modelled.

use vstd::prelude::*;

verus! {

/// The abstract operation of an instruction.
#[derive(Clone, Copy, Debug, PartialEq, Eq, Structural)]
pub enum Mnemonic {
    /// Add with Carry
    Adc,
    /// Logical AND
    And,
    /// Arithmetic Shift Left
    Asl,
    /// Branch if Carry Clear
    Bcc,
    /// Branch if Carry Set
    Bcs,
    /// Branch if Equal
    Beq,
    /// Bit Test
    Bit,
    /// Branch if Minus
    Bmi,
    /// Branch if Not Equal
    Bne,
    /// Branch if Positive
    Bpl,
    /// Force Interrupt
    Brk,
    /// Branch if Overflow Clear
    Bvc,
    /// Branch if Overflow Set
    Bvs,
    /// Clear Carry Flag
    Clc,
    /// Clear Decimal Mode
    Cld,
    /// Clear Interrupt Disable
    Cli,
    /// Clear Overflow Flag
    Clv,
    /// Compare
    Cmp,
    /// Compare X Register
    Cpx,
    /// Compare Y Register
    Cpy,
    /// Decrement Memory
    Dec,
    /// Decrement X Register
    Dex,
    /// Decrement Y Register
    Dey,
    /// Exclusive OR
    Eor,
    /// Increment Memory
    Inc,
    /// Increment X Register
    Inx,
    /// Increment Y Register
    Iny,
    /// Jump
    Jmp,
    /// Jump to Subroutine
    Jsr,
    /// Load Accumulator
    Lda,
    /// Load X Register
    Ldx,
    /// Load Y Register
    Ldy,
    /// Logical Shift Right
    Lsr,
    /// No Operation
    Nop,
    /// Logical Inclusive OR
    Ora,
    /// Push Accumulator
    Pha,
    /// Push Processor Status
    Php,
    /// Pull Accumulator
    Pla,
    /// Pull Processor Status
    Plp,
    /// Rotate Left
    Rol,
    /// Rotate Right
    Ror,
    /// Return from Interrupt
    Rti,
    /// Return from Subroutine
    Rts,
    /// Subtract with Carry
    Sbc,
    /// Set Carry Flag
    Sec,
    /// Set Decimal Flag
    Sed,
    /// Set Interrupt Disable
    Sei,
    /// Store Accumulator
    Sta,
    /// Store X Register
    Stx,
    /// Store Y Register
    Sty,
    /// Transfer Accumulator to X
    Tax,
    /// Transfer Accumulator to Y
    Tay,
    /// Transfer Stack Pointer to X
    Tsx,
    /// Transfer X to Accumulator
    Txa,
    /// Transfer X to Stack Pointer
    Txs,
    /// Transfer Y to Accumulator
    Tya,
}

/// The addressing mode of an instruction, which determines how many operand
/// bytes follow the opcode and how the effective address is formed.
#[derive(Clone, Copy, Debug, PartialEq, Eq, Structural)]
pub enum Mode {
    Implied,
    Relative,
    Accumulator,
    Immediate,
    ZeroPage,
    ZeroPageX,
    ZeroPageY,
    Absolute,
    AbsoluteX,
    AbsoluteY,
    Indirect,
    IndirectX,
    IndirectY,
}

/// A decoded op descriptor: mnemonic, addressing mode and base cycle count.
#[derive(Clone, Copy, Debug, PartialEq, Eq, Structural)]
pub struct Op {
    pub mnemonic: Mnemonic,
    pub mode: Mode,
    pub cycles: u8,
}

impl Op {
    /// The opcode table as a mathematical function.
    pub open spec fn decode(opcode: u8) -> Option<Op> {
        match opcode {
            0x00 => Some(Op { mnemonic: Mnemonic::Brk, mode: Mode::Implied, cycles: 7 }),
            0x01 => Some(Op { mnemonic: Mnemonic::Ora, mode: Mode::IndirectX, cycles: 6 }),
            0x05 => Some(Op { mnemonic: Mnemonic::Ora, mode: Mode::ZeroPage, cycles: 3 }),
            0x06 => Some(Op { mnemonic: Mnemonic::Asl, mode: Mode::ZeroPage, cycles: 5 }),
            0x08 => Some(Op { mnemonic: Mnemonic::Php, mode: Mode::Implied, cycles: 3 }),
            0x09 => Some(Op { mnemonic: Mnemonic::Ora, mode: Mode::Immediate, cycles: 2 }),
            0x0A => Some(Op { mnemonic: Mnemonic::Asl, mode: Mode::Accumulator, cycles: 2 }),
            0x0D => Some(Op { mnemonic: Mnemonic::Ora, mode: Mode::Absolute, cycles: 4 }),
            0x0E => Some(Op { mnemonic: Mnemonic::Asl, mode: Mode::Absolute, cycles: 6 }),
            0x10 => Some(Op { mnemonic: Mnemonic::Bpl, mode: Mode::Relative, cycles: 2 }),
            0x11 => Some(Op { mnemonic: Mnemonic::Ora, mode: Mode::IndirectY, cycles: 5 }),
            0x15 => Some(Op { mnemonic: Mnemonic::Ora, mode: Mode::ZeroPageX, cycles: 4 }),
            0x16 => Some(Op { mnemonic: Mnemonic::Asl, mode: Mode::ZeroPageX, cycles: 6 }),
            0x18 => Some(Op { mnemonic: Mnemonic::Clc, mode: Mode::Implied, cycles: 2 }),
            0x19 => Some(Op { mnemonic: Mnemonic::Ora, mode: Mode::AbsoluteY, cycles: 4 }),
            0x1D => Some(Op { mnemonic: Mnemonic::Ora, mode: Mode::AbsoluteX, cycles: 4 }),
            0x1E => Some(Op { mnemonic: Mnemonic::Asl, mode: Mode::AbsoluteX, cycles: 7 }),
            0x20 => Some(Op { mnemonic: Mnemonic::Jsr, mode: Mode::Absolute, cycles: 6 }),
            0x21 => Some(Op { mnemonic: Mnemonic::And, mode: Mode::IndirectX, cycles: 6 }),
            0x24 => Some(Op { mnemonic: Mnemonic::Bit, mode: Mode::ZeroPage, cycles: 3 }),
            0x25 => Some(Op { mnemonic: Mnemonic::And, mode: Mode::ZeroPage, cycles: 3 }),
            0x26 => Some(Op { mnemonic: Mnemonic::Rol, mode: Mode::ZeroPage, cycles: 5 }),
            0x28 => Some(Op { mnemonic: Mnemonic::Plp, mode: Mode::Implied, cycles: 4 }),
            0x29 => Some(Op { mnemonic: Mnemonic::And, mode: Mode::Immediate, cycles: 2 }),
            0x2A => Some(Op { mnemonic: Mnemonic::Rol, mode: Mode::Accumulator, cycles: 2 }),
            0x2C => Some(Op { mnemonic: Mnemonic::Bit, mode: Mode::Absolute, cycles: 4 }),
            0x2D => Some(Op { mnemonic: Mnemonic::And, mode: Mode::Absolute, cycles: 4 }),
            0x2E => Some(Op { mnemonic: Mnemonic::Rol, mode: Mode::Absolute, cycles: 6 }),
            0x30 => Some(Op { mnemonic: Mnemonic::Bmi, mode: Mode::Relative, cycles: 2 }),
            0x31 => Some(Op { mnemonic: Mnemonic::And, mode: Mode::IndirectY, cycles: 5 }),
            0x35 => Some(Op { mnemonic: Mnemonic::And, mode: Mode::ZeroPageX, cycles: 4 }),
            0x36 => Some(Op { mnemonic: Mnemonic::Rol, mode: Mode::ZeroPageX, cycles: 6 }),
            0x38 => Some(Op { mnemonic: Mnemonic::Sec, mode: Mode::Implied, cycles: 2 }),
            0x39 => Some(Op { mnemonic: Mnemonic::And, mode: Mode::AbsoluteY, cycles: 4 }),
            0x3D => Some(Op { mnemonic: Mnemonic::And, mode: Mode::AbsoluteX, cycles: 4 }),
            0x3E => Some(Op { mnemonic: Mnemonic::Rol, mode: Mode::AbsoluteX, cycles: 7 }),
            0x40 => Some(Op { mnemonic: Mnemonic::Rti, mode: Mode::Implied, cycles: 6 }),
            0x41 => Some(Op { mnemonic: Mnemonic::Eor, mode: Mode::IndirectX, cycles: 6 }),
            0x45 => Some(Op { mnemonic: Mnemonic::Eor, mode: Mode::ZeroPage, cycles: 3 }),
            0x46 => Some(Op { mnemonic: Mnemonic::Lsr, mode: Mode::ZeroPage, cycles: 5 }),
            0x48 => Some(Op { mnemonic: Mnemonic::Pha, mode: Mode::Implied, cycles: 3 }),
            0x49 => Some(Op { mnemonic: Mnemonic::Eor, mode: Mode::Immediate, cycles: 2 }),
            0x4A => Some(Op { mnemonic: Mnemonic::Lsr, mode: Mode::Accumulator, cycles: 2 }),
            0x4C => Some(Op { mnemonic: Mnemonic::Jmp, mode: Mode::Absolute, cycles: 3 }),
            0x4D => Some(Op { mnemonic: Mnemonic::Eor, mode: Mode::Absolute, cycles: 4 }),
            0x4E => Some(Op { mnemonic: Mnemonic::Lsr, mode: Mode::Absolute, cycles: 6 }),
            0x50 => Some(Op { mnemonic: Mnemonic::Bvc, mode: Mode::Relative, cycles: 2 }),
            0x51 => Some(Op { mnemonic: Mnemonic::Eor, mode: Mode::IndirectY, cycles: 5 }),
            0x55 => Some(Op { mnemonic: Mnemonic::Eor, mode: Mode::ZeroPageX, cycles: 4 }),
            0x56 => Some(Op { mnemonic: Mnemonic::Lsr, mode: Mode::ZeroPageX, cycles: 6 }),
            0x58 => Some(Op { mnemonic: Mnemonic::Cli, mode: Mode::Implied, cycles: 2 }),
            0x59 => Some(Op { mnemonic: Mnemonic::Eor, mode: Mode::AbsoluteY, cycles: 4 }),
            0x5D => Some(Op { mnemonic: Mnemonic::Eor, mode: Mode::AbsoluteX, cycles: 4 }),
            0x5E => Some(Op { mnemonic: Mnemonic::Lsr, mode: Mode::AbsoluteX, cycles: 7 }),
            0x60 => Some(Op { mnemonic: Mnemonic::Rts, mode: Mode::Implied, cycles: 6 }),
            0x61 => Some(Op { mnemonic: Mnemonic::Adc, mode: Mode::IndirectX, cycles: 6 }),
            0x65 => Some(Op { mnemonic: Mnemonic::Adc, mode: Mode::ZeroPage, cycles: 3 }),
            0x66 => Some(Op { mnemonic: Mnemonic::Ror, mode: Mode::ZeroPage, cycles: 5 }),
            0x68 => Some(Op { mnemonic: Mnemonic::Pla, mode: Mode::Implied, cycles: 4 }),
            0x69 => Some(Op { mnemonic: Mnemonic::Adc, mode: Mode::Immediate, cycles: 2 }),
            0x6A => Some(Op { mnemonic: Mnemonic::Ror, mode: Mode::Accumulator, cycles: 2 }),
            0x6C => Some(Op { mnemonic: Mnemonic::Jmp, mode: Mode::Indirect, cycles: 5 }),
            0x6D => Some(Op { mnemonic: Mnemonic::Adc, mode: Mode::Absolute, cycles: 4 }),
            0x6E => Some(Op { mnemonic: Mnemonic::Ror, mode: Mode::Absolute, cycles: 6 }),
            0x70 => Some(Op { mnemonic: Mnemonic::Bvs, mode: Mode::Relative, cycles: 2 }),
            0x71 => Some(Op { mnemonic: Mnemonic::Adc, mode: Mode::IndirectY, cycles: 5 }),
            0x75 => Some(Op { mnemonic: Mnemonic::Adc, mode: Mode::ZeroPageX, cycles: 4 }),
            0x76 => Some(Op { mnemonic: Mnemonic::Ror, mode: Mode::ZeroPageX, cycles: 6 }),
            0x78 => Some(Op { mnemonic: Mnemonic::Sei, mode: Mode::Implied, cycles: 2 }),
            0x79 => Some(Op { mnemonic: Mnemonic::Adc, mode: Mode::AbsoluteY, cycles: 4 }),
            0x7D => Some(Op { mnemonic: Mnemonic::Adc, mode: Mode::AbsoluteX, cycles: 4 }),
            0x7E => Some(Op { mnemonic: Mnemonic::Ror, mode: Mode::AbsoluteX, cycles: 7 }),
            0x81 => Some(Op { mnemonic: Mnemonic::Sta, mode: Mode::IndirectX, cycles: 6 }),
            0x84 => Some(Op { mnemonic: Mnemonic::Sty, mode: Mode::ZeroPage, cycles: 3 }),
            0x85 => Some(Op { mnemonic: Mnemonic::Sta, mode: Mode::ZeroPage, cycles: 3 }),
            0x86 => Some(Op { mnemonic: Mnemonic::Stx, mode: Mode::ZeroPage, cycles: 3 }),
            0x88 => Some(Op { mnemonic: Mnemonic::Dey, mode: Mode::Implied, cycles: 2 }),
            0x8A => Some(Op { mnemonic: Mnemonic::Txa, mode: Mode::Implied, cycles: 2 }),
            0x8C => Some(Op { mnemonic: Mnemonic::Sty, mode: Mode::Absolute, cycles: 4 }),
            0x8D => Some(Op { mnemonic: Mnemonic::Sta, mode: Mode::Absolute, cycles: 4 }),
            0x8E => Some(Op { mnemonic: Mnemonic::Stx, mode: Mode::Absolute, cycles: 4 }),
            0x90 => Some(Op { mnemonic: Mnemonic::Bcc, mode: Mode::Relative, cycles: 2 }),
            0x91 => Some(Op { mnemonic: Mnemonic::Sta, mode: Mode::IndirectY, cycles: 6 }),
            0x94 => Some(Op { mnemonic: Mnemonic::Sty, mode: Mode::ZeroPageX, cycles: 4 }),
            0x95 => Some(Op { mnemonic: Mnemonic::Sta, mode: Mode::ZeroPageX, cycles: 4 }),
            0x96 => Some(Op { mnemonic: Mnemonic::Stx, mode: Mode::ZeroPageY, cycles: 4 }),
            0x98 => Some(Op { mnemonic: Mnemonic::Tya, mode: Mode::Implied, cycles: 2 }),
            0x99 => Some(Op { mnemonic: Mnemonic::Sta, mode: Mode::AbsoluteY, cycles: 5 }),
            0x9A => Some(Op { mnemonic: Mnemonic::Txs, mode: Mode::Implied, cycles: 2 }),
            0x9D => Some(Op { mnemonic: Mnemonic::Sta, mode: Mode::AbsoluteX, cycles: 5 }),
            0xA0 => Some(Op { mnemonic: Mnemonic::Ldy, mode: Mode::Immediate, cycles: 2 }),
            0xA1 => Some(Op { mnemonic: Mnemonic::Lda, mode: Mode::IndirectX, cycles: 6 }),
            0xA2 => Some(Op { mnemonic: Mnemonic::Ldx, mode: Mode::Immediate, cycles: 2 }),
            0xA4 => Some(Op { mnemonic: Mnemonic::Ldy, mode: Mode::ZeroPage, cycles: 3 }),
            0xA5 => Some(Op { mnemonic: Mnemonic::Lda, mode: Mode::ZeroPage, cycles: 3 }),
            0xA6 => Some(Op { mnemonic: Mnemonic::Ldx, mode: Mode::ZeroPage, cycles: 3 }),
            0xA8 => Some(Op { mnemonic: Mnemonic::Tay, mode: Mode::Implied, cycles: 2 }),
            0xA9 => Some(Op { mnemonic: Mnemonic::Lda, mode: Mode::Immediate, cycles: 2 }),
            0xAA => Some(Op { mnemonic: Mnemonic::Tax, mode: Mode::Implied, cycles: 2 }),
            0xAC => Some(Op { mnemonic: Mnemonic::Ldy, mode: Mode::Absolute, cycles: 4 }),
            0xAD => Some(Op { mnemonic: Mnemonic::Lda, mode: Mode::Absolute, cycles: 4 }),
            0xAE => Some(Op { mnemonic: Mnemonic::Ldx, mode: Mode::Absolute, cycles: 4 }),
            0xB0 => Some(Op { mnemonic: Mnemonic::Bcs, mode: Mode::Relative, cycles: 2 }),
            0xB1 => Some(Op { mnemonic: Mnemonic::Lda, mode: Mode::IndirectY, cycles: 5 }),
            0xB4 => Some(Op { mnemonic: Mnemonic::Ldy, mode: Mode::ZeroPageX, cycles: 4 }),
            0xB5 => Some(Op { mnemonic: Mnemonic::Lda, mode: Mode::ZeroPageX, cycles: 4 }),
            0xB6 => Some(Op { mnemonic: Mnemonic::Ldx, mode: Mode::ZeroPageY, cycles: 4 }),
            0xB8 => Some(Op { mnemonic: Mnemonic::Clv, mode: Mode::Implied, cycles: 2 }),
            0xB9 => Some(Op { mnemonic: Mnemonic::Lda, mode: Mode::AbsoluteY, cycles: 4 }),
            0xBA => Some(Op { mnemonic: Mnemonic::Tsx, mode: Mode::Implied, cycles: 2 }),
            0xBC => Some(Op { mnemonic: Mnemonic::Ldy, mode: Mode::AbsoluteX, cycles: 4 }),
            0xBD => Some(Op { mnemonic: Mnemonic::Lda, mode: Mode::AbsoluteX, cycles: 4 }),
            0xBE => Some(Op { mnemonic: Mnemonic::Ldx, mode: Mode::AbsoluteY, cycles: 4 }),
            0xC0 => Some(Op { mnemonic: Mnemonic::Cpy, mode: Mode::Immediate, cycles: 2 }),
            0xC1 => Some(Op { mnemonic: Mnemonic::Cmp, mode: Mode::IndirectX, cycles: 6 }),
            0xC4 => Some(Op { mnemonic: Mnemonic::Cpy, mode: Mode::ZeroPage, cycles: 3 }),
            0xC5 => Some(Op { mnemonic: Mnemonic::Cmp, mode: Mode::ZeroPage, cycles: 3 }),
            0xC6 => Some(Op { mnemonic: Mnemonic::Dec, mode: Mode::ZeroPage, cycles: 5 }),
            0xC8 => Some(Op { mnemonic: Mnemonic::Iny, mode: Mode::Implied, cycles: 2 }),
            0xC9 => Some(Op { mnemonic: Mnemonic::Cmp, mode: Mode::Immediate, cycles: 2 }),
            0xCA => Some(Op { mnemonic: Mnemonic::Dex, mode: Mode::Implied, cycles: 2 }),
            0xCC => Some(Op { mnemonic: Mnemonic::Cpy, mode: Mode::Absolute, cycles: 4 }),
            0xCD => Some(Op { mnemonic: Mnemonic::Cmp, mode: Mode::Absolute, cycles: 4 }),
            0xCE => Some(Op { mnemonic: Mnemonic::Dec, mode: Mode::Absolute, cycles: 6 }),
            0xD0 => Some(Op { mnemonic: Mnemonic::Bne, mode: Mode::Relative, cycles: 2 }),
            0xD1 => Some(Op { mnemonic: Mnemonic::Cmp, mode: Mode::IndirectY, cycles: 5 }),
            0xD5 => Some(Op { mnemonic: Mnemonic::Cmp, mode: Mode::ZeroPageX, cycles: 4 }),
            0xD6 => Some(Op { mnemonic: Mnemonic::Dec, mode: Mode::ZeroPageX, cycles: 6 }),
            0xD8 => Some(Op { mnemonic: Mnemonic::Cld, mode: Mode::Implied, cycles: 2 }),
            0xD9 => Some(Op { mnemonic: Mnemonic::Cmp, mode: Mode::AbsoluteY, cycles: 4 }),
            0xDD => Some(Op { mnemonic: Mnemonic::Cmp, mode: Mode::AbsoluteX, cycles: 4 }),
            0xDE => Some(Op { mnemonic: Mnemonic::Dec, mode: Mode::AbsoluteX, cycles: 7 }),
            0xE0 => Some(Op { mnemonic: Mnemonic::Cpx, mode: Mode::Immediate, cycles: 2 }),
            0xE1 => Some(Op { mnemonic: Mnemonic::Sbc, mode: Mode::IndirectX, cycles: 6 }),
            0xE4 => Some(Op { mnemonic: Mnemonic::Cpx, mode: Mode::ZeroPage, cycles: 3 }),
            0xE5 => Some(Op { mnemonic: Mnemonic::Sbc, mode: Mode::ZeroPage, cycles: 3 }),
            0xE6 => Some(Op { mnemonic: Mnemonic::Inc, mode: Mode::ZeroPage, cycles: 5 }),
            0xE8 => Some(Op { mnemonic: Mnemonic::Inx, mode: Mode::Implied, cycles: 2 }),
            0xE9 => Some(Op { mnemonic: Mnemonic::Sbc, mode: Mode::Immediate, cycles: 2 }),
            0xEA => Some(Op { mnemonic: Mnemonic::Nop, mode: Mode::Implied, cycles: 2 }),
            0xEC => Some(Op { mnemonic: Mnemonic::Cpx, mode: Mode::Absolute, cycles: 4 }),
            0xED => Some(Op { mnemonic: Mnemonic::Sbc, mode: Mode::Absolute, cycles: 4 }),
            0xEE => Some(Op { mnemonic: Mnemonic::Inc, mode: Mode::Absolute, cycles: 6 }),
            0xF0 => Some(Op { mnemonic: Mnemonic::Beq, mode: Mode::Relative, cycles: 2 }),
            0xF1 => Some(Op { mnemonic: Mnemonic::Sbc, mode: Mode::IndirectY, cycles: 5 }),
            0xF5 => Some(Op { mnemonic: Mnemonic::Sbc, mode: Mode::ZeroPageX, cycles: 4 }),
            0xF6 => Some(Op { mnemonic: Mnemonic::Inc, mode: Mode::ZeroPageX, cycles: 6 }),
            0xF8 => Some(Op { mnemonic: Mnemonic::Sed, mode: Mode::Implied, cycles: 2 }),
            0xF9 => Some(Op { mnemonic: Mnemonic::Sbc, mode: Mode::AbsoluteY, cycles: 4 }),
            0xFD => Some(Op { mnemonic: Mnemonic::Sbc, mode: Mode::AbsoluteX, cycles: 4 }),
            0xFE => Some(Op { mnemonic: Mnemonic::Inc, mode: Mode::AbsoluteX, cycles: 7 }),
            _ => None,
        }
    }

    /// Decodes an opcode byte; `None` for the 105 unofficial opcodes.
    pub fn parse(opcode: u8) -> Option<Op>
        returns
            Op::decode(opcode),
    {
        match opcode {
            0x00 => Some(Op { mnemonic: Mnemonic::Brk, mode: Mode::Implied, cycles: 7 }),
            0x01 => Some(Op { mnemonic: Mnemonic::Ora, mode: Mode::IndirectX, cycles: 6 }),
            0x05 => Some(Op { mnemonic: Mnemonic::Ora, mode: Mode::ZeroPage, cycles: 3 }),
            0x06 => Some(Op { mnemonic: Mnemonic::Asl, mode: Mode::ZeroPage, cycles: 5 }),
            0x08 => Some(Op { mnemonic: Mnemonic::Php, mode: Mode::Implied, cycles: 3 }),
            0x09 => Some(Op { mnemonic: Mnemonic::Ora, mode: Mode::Immediate, cycles: 2 }),
            0x0A => Some(Op { mnemonic: Mnemonic::Asl, mode: Mode::Accumulator, cycles: 2 }),
            0x0D => Some(Op { mnemonic: Mnemonic::Ora, mode: Mode::Absolute, cycles: 4 }),
            0x0E => Some(Op { mnemonic: Mnemonic::Asl, mode: Mode::Absolute, cycles: 6 }),
            0x10 => Some(Op { mnemonic: Mnemonic::Bpl, mode: Mode::Relative, cycles: 2 }),
            0x11 => Some(Op { mnemonic: Mnemonic::Ora, mode: Mode::IndirectY, cycles: 5 }),
            0x15 => Some(Op { mnemonic: Mnemonic::Ora, mode: Mode::ZeroPageX, cycles: 4 }),
            0x16 => Some(Op { mnemonic: Mnemonic::Asl, mode: Mode::ZeroPageX, cycles: 6 }),
            0x18 => Some(Op { mnemonic: Mnemonic::Clc, mode: Mode::Implied, cycles: 2 }),
            0x19 => Some(Op { mnemonic: Mnemonic::Ora, mode: Mode::AbsoluteY, cycles: 4 }),
            0x1D => Some(Op { mnemonic: Mnemonic::Ora, mode: Mode::AbsoluteX, cycles: 4 }),
            0x1E => Some(Op { mnemonic: Mnemonic::Asl, mode: Mode::AbsoluteX, cycles: 7 }),
            0x20 => Some(Op { mnemonic: Mnemonic::Jsr, mode: Mode::Absolute, cycles: 6 }),
            0x21 => Some(Op { mnemonic: Mnemonic::And, mode: Mode::IndirectX, cycles: 6 }),
            0x24 => Some(Op { mnemonic: Mnemonic::Bit, mode: Mode::ZeroPage, cycles: 3 }),
            0x25 => Some(Op { mnemonic: Mnemonic::And, mode: Mode::ZeroPage, cycles: 3 }),
            0x26 => Some(Op { mnemonic: Mnemonic::Rol, mode: Mode::ZeroPage, cycles: 5 }),
            0x28 => Some(Op { mnemonic: Mnemonic::Plp, mode: Mode::Implied, cycles: 4 }),
            0x29 => Some(Op { mnemonic: Mnemonic::And, mode: Mode::Immediate, cycles: 2 }),
            0x2A => Some(Op { mnemonic: Mnemonic::Rol, mode: Mode::Accumulator, cycles: 2 }),
            0x2C => Some(Op { mnemonic: Mnemonic::Bit, mode: Mode::Absolute, cycles: 4 }),
            0x2D => Some(Op { mnemonic: Mnemonic::And, mode: Mode::Absolute, cycles: 4 }),
            0x2E => Some(Op { mnemonic: Mnemonic::Rol, mode: Mode::Absolute, cycles: 6 }),
            0x30 => Some(Op { mnemonic: Mnemonic::Bmi, mode: Mode::Relative, cycles: 2 }),
            0x31 => Some(Op { mnemonic: Mnemonic::And, mode: Mode::IndirectY, cycles: 5 }),
            0x35 => Some(Op { mnemonic: Mnemonic::And, mode: Mode::ZeroPageX, cycles: 4 }),
            0x36 => Some(Op { mnemonic: Mnemonic::Rol, mode: Mode::ZeroPageX, cycles: 6 }),
            0x38 => Some(Op { mnemonic: Mnemonic::Sec, mode: Mode::Implied, cycles: 2 }),
            0x39 => Some(Op { mnemonic: Mnemonic::And, mode: Mode::AbsoluteY, cycles: 4 }),
            0x3D => Some(Op { mnemonic: Mnemonic::And, mode: Mode::AbsoluteX, cycles: 4 }),
            0x3E => Some(Op { mnemonic: Mnemonic::Rol, mode: Mode::AbsoluteX, cycles: 7 }),
            0x40 => Some(Op { mnemonic: Mnemonic::Rti, mode: Mode::Implied, cycles: 6 }),
            0x41 => Some(Op { mnemonic: Mnemonic::Eor, mode: Mode::IndirectX, cycles: 6 }),
            0x45 => Some(Op { mnemonic: Mnemonic::Eor, mode: Mode::ZeroPage, cycles: 3 }),
            0x46 => Some(Op { mnemonic: Mnemonic::Lsr, mode: Mode::ZeroPage, cycles: 5 }),
            0x48 => Some(Op { mnemonic: Mnemonic::Pha, mode: Mode::Implied, cycles: 3 }),
            0x49 => Some(Op { mnemonic: Mnemonic::Eor, mode: Mode::Immediate, cycles: 2 }),
            0x4A => Some(Op { mnemonic: Mnemonic::Lsr, mode: Mode::Accumulator, cycles: 2 }),
            0x4C => Some(Op { mnemonic: Mnemonic::Jmp, mode: Mode::Absolute, cycles: 3 }),
            0x4D => Some(Op { mnemonic: Mnemonic::Eor, mode: Mode::Absolute, cycles: 4 }),
            0x4E => Some(Op { mnemonic: Mnemonic::Lsr, mode: Mode::Absolute, cycles: 6 }),
            0x50 => Some(Op { mnemonic: Mnemonic::Bvc, mode: Mode::Relative, cycles: 2 }),
            0x51 => Some(Op { mnemonic: Mnemonic::Eor, mode: Mode::IndirectY, cycles: 5 }),
            0x55 => Some(Op { mnemonic: Mnemonic::Eor, mode: Mode::ZeroPageX, cycles: 4 }),
            0x56 => Some(Op { mnemonic: Mnemonic::Lsr, mode: Mode::ZeroPageX, cycles: 6 }),
            0x58 => Some(Op { mnemonic: Mnemonic::Cli, mode: Mode::Implied, cycles: 2 }),
            0x59 => Some(Op { mnemonic: Mnemonic::Eor, mode: Mode::AbsoluteY, cycles: 4 }),
            0x5D => Some(Op { mnemonic: Mnemonic::Eor, mode: Mode::AbsoluteX, cycles: 4 }),
            0x5E => Some(Op { mnemonic: Mnemonic::Lsr, mode: Mode::AbsoluteX, cycles: 7 }),
            0x60 => Some(Op { mnemonic: Mnemonic::Rts, mode: Mode::Implied, cycles: 6 }),
            0x61 => Some(Op { mnemonic: Mnemonic::Adc, mode: Mode::IndirectX, cycles: 6 }),
            0x65 => Some(Op { mnemonic: Mnemonic::Adc, mode: Mode::ZeroPage, cycles: 3 }),
            0x66 => Some(Op { mnemonic: Mnemonic::Ror, mode: Mode::ZeroPage, cycles: 5 }),
            0x68 => Some(Op { mnemonic: Mnemonic::Pla, mode: Mode::Implied, cycles: 4 }),
            0x69 => Some(Op { mnemonic: Mnemonic::Adc, mode: Mode::Immediate, cycles: 2 }),
            0x6A => Some(Op { mnemonic: Mnemonic::Ror, mode: Mode::Accumulator, cycles: 2 }),
            0x6C => Some(Op { mnemonic: Mnemonic::Jmp, mode: Mode::Indirect, cycles: 5 }),
            0x6D => Some(Op { mnemonic: Mnemonic::Adc, mode: Mode::Absolute, cycles: 4 }),
            0x6E => Some(Op { mnemonic: Mnemonic::Ror, mode: Mode::Absolute, cycles: 6 }),
            0x70 => Some(Op { mnemonic: Mnemonic::Bvs, mode: Mode::Relative, cycles: 2 }),
            0x71 => Some(Op { mnemonic: Mnemonic::Adc, mode: Mode::IndirectY, cycles: 5 }),
            0x75 => Some(Op { mnemonic: Mnemonic::Adc, mode: Mode::ZeroPageX, cycles: 4 }),
            0x76 => Some(Op { mnemonic: Mnemonic::Ror, mode: Mode::ZeroPageX, cycles: 6 }),
            0x78 => Some(Op { mnemonic: Mnemonic::Sei, mode: Mode::Implied, cycles: 2 }),
            0x79 => Some(Op { mnemonic: Mnemonic::Adc, mode: Mode::AbsoluteY, cycles: 4 }),
            0x7D => Some(Op { mnemonic: Mnemonic::Adc, mode: Mode::AbsoluteX, cycles: 4 }),
            0x7E => Some(Op { mnemonic: Mnemonic::Ror, mode: Mode::AbsoluteX, cycles: 7 }),
            0x81 => Some(Op { mnemonic: Mnemonic::Sta, mode: Mode::IndirectX, cycles: 6 }),
            0x84 => Some(Op { mnemonic: Mnemonic::Sty, mode: Mode::ZeroPage, cycles: 3 }),
            0x85 => Some(Op { mnemonic: Mnemonic::Sta, mode: Mode::ZeroPage, cycles: 3 }),
            0x86 => Some(Op { mnemonic: Mnemonic::Stx, mode: Mode::ZeroPage, cycles: 3 }),
            0x88 => Some(Op { mnemonic: Mnemonic::Dey, mode: Mode::Implied, cycles: 2 }),
            0x8A => Some(Op { mnemonic: Mnemonic::Txa, mode: Mode::Implied, cycles: 2 }),
            0x8C => Some(Op { mnemonic: Mnemonic::Sty, mode: Mode::Absolute, cycles: 4 }),
            0x8D => Some(Op { mnemonic: Mnemonic::Sta, mode: Mode::Absolute, cycles: 4 }),
            0x8E => Some(Op { mnemonic: Mnemonic::Stx, mode: Mode::Absolute, cycles: 4 }),
            0x90 => Some(Op { mnemonic: Mnemonic::Bcc, mode: Mode::Relative, cycles: 2 }),
            0x91 => Some(Op { mnemonic: Mnemonic::Sta, mode: Mode::IndirectY, cycles: 6 }),
            0x94 => Some(Op { mnemonic: Mnemonic::Sty, mode: Mode::ZeroPageX, cycles: 4 }),
            0x95 => Some(Op { mnemonic: Mnemonic::Sta, mode: Mode::ZeroPageX, cycles: 4 }),
            0x96 => Some(Op { mnemonic: Mnemonic::Stx, mode: Mode::ZeroPageY, cycles: 4 }),
            0x98 => Some(Op { mnemonic: Mnemonic::Tya, mode: Mode::Implied, cycles: 2 }),
            0x99 => Some(Op { mnemonic: Mnemonic::Sta, mode: Mode::AbsoluteY, cycles: 5 }),
            0x9A => Some(Op { mnemonic: Mnemonic::Txs, mode: Mode::Implied, cycles: 2 }),
            0x9D => Some(Op { mnemonic: Mnemonic::Sta, mode: Mode::AbsoluteX, cycles: 5 }),
            0xA0 => Some(Op { mnemonic: Mnemonic::Ldy, mode: Mode::Immediate, cycles: 2 }),
            0xA1 => Some(Op { mnemonic: Mnemonic::Lda, mode: Mode::IndirectX, cycles: 6 }),
            0xA2 => Some(Op { mnemonic: Mnemonic::Ldx, mode: Mode::Immediate, cycles: 2 }),
            0xA4 => Some(Op { mnemonic: Mnemonic::Ldy, mode: Mode::ZeroPage, cycles: 3 }),
            0xA5 => Some(Op { mnemonic: Mnemonic::Lda, mode: Mode::ZeroPage, cycles: 3 }),
            0xA6 => Some(Op { mnemonic: Mnemonic::Ldx, mode: Mode::ZeroPage, cycles: 3 }),
            0xA8 => Some(Op { mnemonic: Mnemonic::Tay, mode: Mode::Implied, cycles: 2 }),
            0xA9 => Some(Op { mnemonic: Mnemonic::Lda, mode: Mode::Immediate, cycles: 2 }),
            0xAA => Some(Op { mnemonic: Mnemonic::Tax, mode: Mode::Implied, cycles: 2 }),
            0xAC => Some(Op { mnemonic: Mnemonic::Ldy, mode: Mode::Absolute, cycles: 4 }),
            0xAD => Some(Op { mnemonic: Mnemonic::Lda, mode: Mode::Absolute, cycles: 4 }),
            0xAE => Some(Op { mnemonic: Mnemonic::Ldx, mode: Mode::Absolute, cycles: 4 }),
            0xB0 => Some(Op { mnemonic: Mnemonic::Bcs, mode: Mode::Relative, cycles: 2 }),
            0xB1 => Some(Op { mnemonic: Mnemonic::Lda, mode: Mode::IndirectY, cycles: 5 }),
            0xB4 => Some(Op { mnemonic: Mnemonic::Ldy, mode: Mode::ZeroPageX, cycles: 4 }),
            0xB5 => Some(Op { mnemonic: Mnemonic::Lda, mode: Mode::ZeroPageX, cycles: 4 }),
            0xB6 => Some(Op { mnemonic: Mnemonic::Ldx, mode: Mode::ZeroPageY, cycles: 4 }),
            0xB8 => Some(Op { mnemonic: Mnemonic::Clv, mode: Mode::Implied, cycles: 2 }),
            0xB9 => Some(Op { mnemonic: Mnemonic::Lda, mode: Mode::AbsoluteY, cycles: 4 }),
            0xBA => Some(Op { mnemonic: Mnemonic::Tsx, mode: Mode::Implied, cycles: 2 }),
            0xBC => Some(Op { mnemonic: Mnemonic::Ldy, mode: Mode::AbsoluteX, cycles: 4 }),
            0xBD => Some(Op { mnemonic: Mnemonic::Lda, mode: Mode::AbsoluteX, cycles: 4 }),
            0xBE => Some(Op { mnemonic: Mnemonic::Ldx, mode: Mode::AbsoluteY, cycles: 4 }),
            0xC0 => Some(Op { mnemonic: Mnemonic::Cpy, mode: Mode::Immediate, cycles: 2 }),
            0xC1 => Some(Op { mnemonic: Mnemonic::Cmp, mode: Mode::IndirectX, cycles: 6 }),
            0xC4 => Some(Op { mnemonic: Mnemonic::Cpy, mode: Mode::ZeroPage, cycles: 3 }),
            0xC5 => Some(Op { mnemonic: Mnemonic::Cmp, mode: Mode::ZeroPage, cycles: 3 }),
            0xC6 => Some(Op { mnemonic: Mnemonic::Dec, mode: Mode::ZeroPage, cycles: 5 }),
            0xC8 => Some(Op { mnemonic: Mnemonic::Iny, mode: Mode::Implied, cycles: 2 }),
            0xC9 => Some(Op { mnemonic: Mnemonic::Cmp, mode: Mode::Immediate, cycles: 2 }),
            0xCA => Some(Op { mnemonic: Mnemonic::Dex, mode: Mode::Implied, cycles: 2 }),
            0xCC => Some(Op { mnemonic: Mnemonic::Cpy, mode: Mode::Absolute, cycles: 4 }),
            0xCD => Some(Op { mnemonic: Mnemonic::Cmp, mode: Mode::Absolute, cycles: 4 }),
            0xCE => Some(Op { mnemonic: Mnemonic::Dec, mode: Mode::Absolute, cycles: 6 }),
            0xD0 => Some(Op { mnemonic: Mnemonic::Bne, mode: Mode::Relative, cycles: 2 }),
            0xD1 => Some(Op { mnemonic: Mnemonic::Cmp, mode: Mode::IndirectY, cycles: 5 }),
            0xD5 => Some(Op { mnemonic: Mnemonic::Cmp, mode: Mode::ZeroPageX, cycles: 4 }),
            0xD6 => Some(Op { mnemonic: Mnemonic::Dec, mode: Mode::ZeroPageX, cycles: 6 }),
            0xD8 => Some(Op { mnemonic: Mnemonic::Cld, mode: Mode::Implied, cycles: 2 }),
            0xD9 => Some(Op { mnemonic: Mnemonic::Cmp, mode: Mode::AbsoluteY, cycles: 4 }),
            0xDD => Some(Op { mnemonic: Mnemonic::Cmp, mode: Mode::AbsoluteX, cycles: 4 }),
            0xDE => Some(Op { mnemonic: Mnemonic::Dec, mode: Mode::AbsoluteX, cycles: 7 }),
            0xE0 => Some(Op { mnemonic: Mnemonic::Cpx, mode: Mode::Immediate, cycles: 2 }),
            0xE1 => Some(Op { mnemonic: Mnemonic::Sbc, mode: Mode::IndirectX, cycles: 6 }),
            0xE4 => Some(Op { mnemonic: Mnemonic::Cpx, mode: Mode::ZeroPage, cycles: 3 }),
            0xE5 => Some(Op { mnemonic: Mnemonic::Sbc, mode: Mode::ZeroPage, cycles: 3 }),
            0xE6 => Some(Op { mnemonic: Mnemonic::Inc, mode: Mode::ZeroPage, cycles: 5 }),
            0xE8 => Some(Op { mnemonic: Mnemonic::Inx, mode: Mode::Implied, cycles: 2 }),
            0xE9 => Some(Op { mnemonic: Mnemonic::Sbc, mode: Mode::Immediate, cycles: 2 }),
            0xEA => Some(Op { mnemonic: Mnemonic::Nop, mode: Mode::Implied, cycles: 2 }),
            0xEC => Some(Op { mnemonic: Mnemonic::Cpx, mode: Mode::Absolute, cycles: 4 }),
            0xED => Some(Op { mnemonic: Mnemonic::Sbc, mode: Mode::Absolute, cycles: 4 }),
            0xEE => Some(Op { mnemonic: Mnemonic::Inc, mode: Mode::Absolute, cycles: 6 }),
            0xF0 => Some(Op { mnemonic: Mnemonic::Beq, mode: Mode::Relative, cycles: 2 }),
            0xF1 => Some(Op { mnemonic: Mnemonic::Sbc, mode: Mode::IndirectY, cycles: 5 }),
            0xF5 => Some(Op { mnemonic: Mnemonic::Sbc, mode: Mode::ZeroPageX, cycles: 4 }),
            0xF6 => Some(Op { mnemonic: Mnemonic::Inc, mode: Mode::ZeroPageX, cycles: 6 }),
            0xF8 => Some(Op { mnemonic: Mnemonic::Sed, mode: Mode::Implied, cycles: 2 }),
            0xF9 => Some(Op { mnemonic: Mnemonic::Sbc, mode: Mode::AbsoluteY, cycles: 4 }),
            0xFD => Some(Op { mnemonic: Mnemonic::Sbc, mode: Mode::AbsoluteX, cycles: 4 }),
            0xFE => Some(Op { mnemonic: Mnemonic::Inc, mode: Mode::AbsoluteX, cycles: 7 }),
            _ => None,
        }
    }

    pub fn mnemonic(&self) -> Mnemonic
        returns
            self.mnemonic,
    {
        self.mnemonic
    }

    pub fn mode(&self) -> Mode
        returns
            self.mode,
    {
        self.mode
    }

    pub fn cycles(&self) -> u8
        returns
            self.cycles,
    {
        self.cycles
    }
}

} // verus!
