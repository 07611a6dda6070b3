//! The mathematical model of one instruction step.
//!
//! Memory is modelled as a sequence of 65536 bytes.  [`step_spec`] maps a
//! register file and a memory to the machine state after one instruction,
//! composing [`Op::decode`], the addressing resolver [`resolve_spec`] and the
//! per-mnemonic transition functions.  The executable interpreter
//! (`Cpu::next`) is proved to compute exactly this function.

use vstd::prelude::*;

use crate::flags::Flags;
use crate::op::{Mnemonic, Mode, Op};
use crate::regs::Regs;

verus! {

/// Base address of the fixed stack page.
pub const STACK_START: u16 = 0x0100;

/// The effective stack address for a stack pointer value.
pub open spec fn stack_addr(sp: u8) -> u16 {
    (0x0100 + sp) as u16
}

/// The byte a memory holds at an address.
pub open spec fn mread(m: Seq<u8>, a: u16) -> u8 {
    m[a as int]
}

/// The memory after one byte is stored.
pub open spec fn mwrite(m: Seq<u8>, a: u16, v: u8) -> Seq<u8> {
    m.update(a as int, v)
}

/// The low byte of a 16-bit value.
pub open spec fn u16_lo(v: u16) -> u8 {
    (v % 256) as u8
}

/// The high byte of a 16-bit value.
pub open spec fn u16_hi(v: u16) -> u8 {
    (v / 256) as u8
}

/// The 16-bit value with the given low and high bytes.
pub open spec fn u16_from_bytes(lo: u8, hi: u8) -> u16 {
    (lo + hi * 256) as u16
}

/// Little-endian 16-bit read at (a, a+1), with wrapping address increment.
pub open spec fn mread16_le(m: Seq<u8>, a: u16) -> u16 {
    u16_from_bytes(mread(m, a), mread(m, a.wrapping_add(1)))
}

/// Big-endian 16-bit read at (a, a+1), with wrapping address increment.
pub open spec fn mread16_be(m: Seq<u8>, a: u16) -> u16 {
    u16_from_bytes(mread(m, a.wrapping_add(1)), mread(m, a))
}

/// Little-endian 16-bit write at (a, a+1), with wrapping address increment.
pub open spec fn mwrite16_le(m: Seq<u8>, a: u16, v: u16) -> Seq<u8> {
    mwrite(mwrite(m, a, u16_lo(v)), a.wrapping_add(1), u16_hi(v))
}

/// Big-endian 16-bit write at (a, a+1), with wrapping address increment.
pub open spec fn mwrite16_be(m: Seq<u8>, a: u16, v: u16) -> Seq<u8> {
    mwrite(mwrite(m, a, u16_hi(v)), a.wrapping_add(1), u16_lo(v))
}

/// Whether a byte is zero; the value the ZERO flag takes from a result.
#[verifier::allow_in_spec]
pub fn is_zero(n: u8) -> bool
    returns
        n == 0,
{
    n == 0x00
}

/// Whether bit 7 of a byte is set; the value the NEGATIVE flag takes.
#[verifier::allow_in_spec]
pub fn is_negative(n: u8) -> bool
    returns
        n & 0x80 != 0,
{
    n & 0b1000_0000 != 0
}

/// The signed-overflow test of ADC: the sign of the result differs from the
/// sign of both addends.
#[verifier::allow_in_spec]
pub fn is_signed_overflow(n: u8, m: u8, result: u8) -> bool
    returns
        (n ^ result) & (m ^ result) & 0x80 != 0,
{
    (n ^ result) & (m ^ result) & 0x80 != 0
}

/// ZERO and NEGATIVE taken from a result byte; all other flags kept.
pub open spec fn set_nz(f: Flags, v: u8) -> Flags {
    Flags { zero: v == 0, negative: v & 0x80 != 0, ..f }
}

/// The number of operand bytes an addressing mode consumes after the opcode.
pub open spec fn operand_bytes(mode: Mode) -> int {
    match mode {
        Mode::Implied | Mode::Accumulator => 0,
        Mode::Immediate | Mode::Relative => 1,
        Mode::ZeroPage | Mode::ZeroPageX | Mode::ZeroPageY => 1,
        Mode::IndirectX | Mode::IndirectY => 1,
        Mode::Absolute | Mode::AbsoluteX | Mode::AbsoluteY | Mode::Indirect => 2,
    }
}

/// The program counter after a taken branch: the sign-extended offset byte
/// added to the already-advanced program counter, modulo 2^16.
pub open spec fn branch_target(pc: u16, off: u8) -> u16 {
    if off < 0x80 {
        pc.wrapping_add(off as u16)
    } else {
        pc.wrapping_add((off + 0xFF00) as u16)
    }
}

/// The addressing resolver: advances the program counter past the operand
/// bytes and yields the effective address, or `None` for the implied and
/// accumulator forms.  The zero-page reads needed by the indirect modes are
/// reads of the same memory the instruction executes against.  The Indirect
/// pointer is read as a clean little-endian word: the hardware's
/// page-boundary quirk is not reproduced.
pub open spec fn resolve_spec(mode: Mode, r: Regs, m: Seq<u8>) -> (Option<u16>, Regs) {
    match mode {
        Mode::Implied | Mode::Accumulator => (None, r),
        Mode::Immediate | Mode::Relative => (Some(r.pc), Regs { pc: r.pc.wrapping_add(1), ..r }),
        Mode::ZeroPage => (Some(mread(m, r.pc) as u16), Regs { pc: r.pc.wrapping_add(1), ..r }),
        Mode::ZeroPageX => (
            Some(mread(m, r.pc).wrapping_add(r.x) as u16),
            Regs { pc: r.pc.wrapping_add(1), ..r },
        ),
        Mode::ZeroPageY => (
            Some(mread(m, r.pc).wrapping_add(r.y) as u16),
            Regs { pc: r.pc.wrapping_add(1), ..r },
        ),
        Mode::Absolute => (Some(mread16_le(m, r.pc)), Regs { pc: r.pc.wrapping_add(2), ..r }),
        Mode::AbsoluteX => (
            Some(mread16_le(m, r.pc).wrapping_add(r.x as u16)),
            Regs { pc: r.pc.wrapping_add(2), ..r },
        ),
        Mode::AbsoluteY => (
            Some(mread16_le(m, r.pc).wrapping_add(r.y as u16)),
            Regs { pc: r.pc.wrapping_add(2), ..r },
        ),
        Mode::Indirect => (
            Some(mread16_le(m, mread16_le(m, r.pc))),
            Regs { pc: r.pc.wrapping_add(2), ..r },
        ),
        Mode::IndirectX => (
            Some(mread16_le(m, mread(m, r.pc).wrapping_add(r.x) as u16)),
            Regs { pc: r.pc.wrapping_add(1), ..r },
        ),
        Mode::IndirectY => (
            Some(mread16_le(m, mread(m, r.pc) as u16).wrapping_add(r.y as u16)),
            Regs { pc: r.pc.wrapping_add(1), ..r },
        ),
    }
}

/// ADC: A + M + CARRY as a 9-bit sum; CARRY from bit 8, OVERFLOW from the
/// sign rule, NZ from the 8-bit result.  The DECIMAL flag is ignored.
pub open spec fn adc_spec(r: Regs, m: u8) -> Regs {
    let c: int = if r.flags.carry {
        1
    } else {
        0
    };
    let total: int = r.a + m + c;
    let result: u8 = (total % 256) as u8;
    Regs {
        a: result,
        flags: Flags {
            carry: total > 255,
            overflow: is_signed_overflow(r.a, m, result),
            ..set_nz(r.flags, result)
        },
        ..r
    }
}

/// SBC: A + !M + CARRY; CARRY afterwards means "no borrow", OVERFLOW from
/// the subtraction sign rule.  The DECIMAL flag is ignored.
pub open spec fn sbc_spec(r: Regs, m: u8) -> Regs {
    let c: int = if r.flags.carry {
        1
    } else {
        0
    };
    let total: int = r.a + (!m) + c;
    let result: u8 = (total % 256) as u8;
    Regs {
        a: result,
        flags: Flags {
            carry: total > 255,
            overflow: (r.a ^ result) & (r.a ^ m) & 0x80 != 0,
            ..set_nz(r.flags, result)
        },
        ..r
    }
}

/// AND/ORA/EOR share this shape: A combined with M, NZ from the result.
pub open spec fn and_spec(r: Regs, m: u8) -> Regs {
    Regs { a: r.a & m, flags: set_nz(r.flags, (r.a & m) as u8), ..r }
}

pub open spec fn ora_spec(r: Regs, m: u8) -> Regs {
    Regs { a: r.a | m, flags: set_nz(r.flags, (r.a | m) as u8), ..r }
}

pub open spec fn eor_spec(r: Regs, m: u8) -> Regs {
    Regs { a: r.a ^ m, flags: set_nz(r.flags, (r.a ^ m) as u8), ..r }
}

/// BIT: ZERO from A & M, NEGATIVE from bit 7 of M, OVERFLOW from bit 6 of M;
/// the accumulator is unchanged.
pub open spec fn bit_spec(r: Regs, m: u8) -> Regs {
    Regs {
        flags: Flags {
            zero: r.a & m == 0,
            overflow: m & 0x40 != 0,
            negative: m & 0x80 != 0,
            ..r.flags
        },
        ..r
    }
}

/// CMP/CPX/CPY: flags from the wrapped difference reg - M; nothing else
/// changes.  CARRY means reg >= M unsigned.
pub open spec fn compare_spec(f: Flags, reg: u8, m: u8) -> Flags {
    Flags { carry: reg >= m, zero: reg == m, negative: reg.wrapping_sub(m) & 0x80 != 0, ..f }
}

/// The loads: destination takes M, NZ from M.
pub open spec fn lda_spec(r: Regs, m: u8) -> Regs {
    Regs { a: m, flags: set_nz(r.flags, m), ..r }
}

pub open spec fn ldx_spec(r: Regs, m: u8) -> Regs {
    Regs { x: m, flags: set_nz(r.flags, m), ..r }
}

pub open spec fn ldy_spec(r: Regs, m: u8) -> Regs {
    Regs { y: m, flags: set_nz(r.flags, m), ..r }
}

/// ASL on the accumulator: CARRY from bit 7, then a left shift.
pub open spec fn asl_a_spec(r: Regs) -> Regs {
    let result: u8 = r.a << 1;
    Regs { a: result, flags: Flags { carry: r.a & 0x80 != 0, ..set_nz(r.flags, result) }, ..r }
}

/// LSR on the accumulator: CARRY from bit 0, then a right shift.
pub open spec fn lsr_a_spec(r: Regs) -> Regs {
    let result: u8 = r.a >> 1;
    Regs { a: result, flags: Flags { carry: r.a & 0x01 != 0, ..set_nz(r.flags, result) }, ..r }
}

/// ROL on the accumulator: the old CARRY rotates into bit 0.
pub open spec fn rol_a_spec(r: Regs) -> Regs {
    let result: u8 = (r.a << 1) | (if r.flags.carry {
        1u8
    } else {
        0u8
    });
    Regs { a: result, flags: Flags { carry: r.a & 0x80 != 0, ..set_nz(r.flags, result) }, ..r }
}

/// ROR on the accumulator: the old CARRY rotates into bit 7.
pub open spec fn ror_a_spec(r: Regs) -> Regs {
    let result: u8 = (r.a >> 1) | (if r.flags.carry {
        0x80u8
    } else {
        0u8
    });
    Regs { a: result, flags: Flags { carry: r.a & 0x01 != 0, ..set_nz(r.flags, result) }, ..r }
}

/// The memory forms of the shifts and rotates: same flag rule, the result
/// is written back to the effective address.
pub open spec fn asl_mem_spec(r: Regs, m: Seq<u8>, a: u16) -> (Regs, Seq<u8>) {
    let v = mread(m, a);
    let result: u8 = v << 1;
    (
        Regs { flags: Flags { carry: v & 0x80 != 0, ..set_nz(r.flags, result) }, ..r },
        mwrite(m, a, result),
    )
}

pub open spec fn lsr_mem_spec(r: Regs, m: Seq<u8>, a: u16) -> (Regs, Seq<u8>) {
    let v = mread(m, a);
    let result: u8 = v >> 1;
    (
        Regs { flags: Flags { carry: v & 0x01 != 0, ..set_nz(r.flags, result) }, ..r },
        mwrite(m, a, result),
    )
}

pub open spec fn rol_mem_spec(r: Regs, m: Seq<u8>, a: u16) -> (Regs, Seq<u8>) {
    let v = mread(m, a);
    let result: u8 = (v << 1) | (if r.flags.carry {
        1u8
    } else {
        0u8
    });
    (
        Regs { flags: Flags { carry: v & 0x80 != 0, ..set_nz(r.flags, result) }, ..r },
        mwrite(m, a, result),
    )
}

pub open spec fn ror_mem_spec(r: Regs, m: Seq<u8>, a: u16) -> (Regs, Seq<u8>) {
    let v = mread(m, a);
    let result: u8 = (v >> 1) | (if r.flags.carry {
        0x80u8
    } else {
        0u8
    });
    (
        Regs { flags: Flags { carry: v & 0x01 != 0, ..set_nz(r.flags, result) }, ..r },
        mwrite(m, a, result),
    )
}

/// INC/DEC: memory takes (M +/- 1) mod 256, NZ from the new value.
pub open spec fn inc_spec(r: Regs, m: Seq<u8>, a: u16) -> (Regs, Seq<u8>) {
    let result = mread(m, a).wrapping_add(1);
    (Regs { flags: set_nz(r.flags, result), ..r }, mwrite(m, a, result))
}

pub open spec fn dec_spec(r: Regs, m: Seq<u8>, a: u16) -> (Regs, Seq<u8>) {
    let result = mread(m, a).wrapping_sub(1);
    (Regs { flags: set_nz(r.flags, result), ..r }, mwrite(m, a, result))
}

/// The branches: if the condition holds, the sign-extended offset byte at
/// the operand address is added to the already-advanced program counter.
pub open spec fn branch_spec(r: Regs, m: Seq<u8>, a: u16, taken: bool) -> Regs {
    if taken {
        Regs { pc: branch_target(r.pc, mread(m, a)), ..r }
    } else {
        r
    }
}

/// JSR: pushes the address of the last byte of the instruction (pc - 1,
/// with pc already past the operand), little-endian, then jumps.
pub open spec fn jsr_spec(r: Regs, m: Seq<u8>, target: u16) -> (Regs, Seq<u8>) {
    (
        Regs { pc: target, sp: r.sp.wrapping_sub(2), ..r },
        mwrite16_le(m, stack_addr(r.sp.wrapping_sub(1)), r.pc.wrapping_sub(1)),
    )
}

/// RTS: pops the return address pushed by JSR and resumes one byte past it.
pub open spec fn rts_spec(r: Regs, m: Seq<u8>) -> Regs {
    Regs {
        pc: mread16_le(m, stack_addr(r.sp.wrapping_add(1))).wrapping_add(1),
        sp: r.sp.wrapping_add(2),
        ..r
    }
}

/// RTI: pops the status byte (BREAK1 discarded, BREAK2 forced), then the
/// program counter.
pub open spec fn rti_spec(r: Regs, m: Seq<u8>) -> Regs {
    let sp1 = r.sp.wrapping_add(1);
    let f = Flags::from_bits(mread(m, stack_addr(sp1)));
    Regs {
        flags: Flags { break_1: false, break_2: true, ..f },
        pc: mread16_le(m, stack_addr(sp1.wrapping_add(1))),
        sp: r.sp.wrapping_add(3),
        ..r
    }
}

/// PHA: pushes the accumulator.
pub open spec fn pha_spec(r: Regs, m: Seq<u8>) -> (Regs, Seq<u8>) {
    (Regs { sp: r.sp.wrapping_sub(1), ..r }, mwrite(m, stack_addr(r.sp), r.a))
}

/// PHP: pushes the status byte with BREAK1 and BREAK2 both forced set.
pub open spec fn php_spec(r: Regs, m: Seq<u8>) -> (Regs, Seq<u8>) {
    let pushed = Flags { break_1: true, break_2: true, ..r.flags };
    (Regs { sp: r.sp.wrapping_sub(1), ..r }, mwrite(m, stack_addr(r.sp), pushed.bits()))
}

/// PLA: pulls into the accumulator, NZ from the pulled byte.
pub open spec fn pla_spec(r: Regs, m: Seq<u8>) -> Regs {
    let sp1 = r.sp.wrapping_add(1);
    let v = mread(m, stack_addr(sp1));
    Regs { a: v, sp: sp1, flags: set_nz(r.flags, v), ..r }
}

/// PLP: pulls the status byte; BREAK1 is discarded, BREAK2 forced set.
pub open spec fn plp_spec(r: Regs, m: Seq<u8>) -> Regs {
    let sp1 = r.sp.wrapping_add(1);
    let f = Flags::from_bits(mread(m, stack_addr(sp1)));
    Regs { sp: sp1, flags: Flags { break_1: false, break_2: true, ..f }, ..r }
}

/// The per-mnemonic transition: the register file and memory after the
/// operation runs with the given effective address.
///
/// Combinations the opcode table never produces (an addressed form of an
/// implied mnemonic or the reverse) leave the state unchanged.
pub open spec fn exec_insn(mn: Mnemonic, addr: Option<u16>, r: Regs, m: Seq<u8>) -> (Regs, Seq<
    u8,
>) {
    match (mn, addr) {
        (Mnemonic::Adc, Some(a)) => (adc_spec(r, mread(m, a)), m),
        (Mnemonic::And, Some(a)) => (and_spec(r, mread(m, a)), m),
        (Mnemonic::Asl, Some(a)) => asl_mem_spec(r, m, a),
        (Mnemonic::Asl, None) => (asl_a_spec(r), m),
        (Mnemonic::Bcc, Some(a)) => (branch_spec(r, m, a, !r.flags.carry), m),
        (Mnemonic::Bcs, Some(a)) => (branch_spec(r, m, a, r.flags.carry), m),
        (Mnemonic::Beq, Some(a)) => (branch_spec(r, m, a, r.flags.zero), m),
        (Mnemonic::Bit, Some(a)) => (bit_spec(r, mread(m, a)), m),
        (Mnemonic::Bmi, Some(a)) => (branch_spec(r, m, a, r.flags.negative), m),
        (Mnemonic::Bne, Some(a)) => (branch_spec(r, m, a, !r.flags.zero), m),
        (Mnemonic::Bpl, Some(a)) => (branch_spec(r, m, a, !r.flags.negative), m),
        (Mnemonic::Brk, None) => (
            Regs { flags: Flags { break_1: true, ..r.flags }, ..r },
            m,
        ),
        (Mnemonic::Bvc, Some(a)) => (branch_spec(r, m, a, !r.flags.overflow), m),
        (Mnemonic::Bvs, Some(a)) => (branch_spec(r, m, a, r.flags.overflow), m),
        (Mnemonic::Clc, None) => (Regs { flags: Flags { carry: false, ..r.flags }, ..r }, m),
        (Mnemonic::Cld, None) => (Regs { flags: Flags { decimal: false, ..r.flags }, ..r }, m),
        (Mnemonic::Cli, None) => (
            Regs { flags: Flags { interrupt_disable: false, ..r.flags }, ..r },
            m,
        ),
        (Mnemonic::Clv, None) => (Regs { flags: Flags { overflow: false, ..r.flags }, ..r }, m),
        (Mnemonic::Cmp, Some(a)) => (
            Regs { flags: compare_spec(r.flags, r.a, mread(m, a)), ..r },
            m,
        ),
        (Mnemonic::Cpx, Some(a)) => (
            Regs { flags: compare_spec(r.flags, r.x, mread(m, a)), ..r },
            m,
        ),
        (Mnemonic::Cpy, Some(a)) => (
            Regs { flags: compare_spec(r.flags, r.y, mread(m, a)), ..r },
            m,
        ),
        (Mnemonic::Dec, Some(a)) => dec_spec(r, m, a),
        (Mnemonic::Dex, None) => (
            Regs { x: r.x.wrapping_sub(1), flags: set_nz(r.flags, r.x.wrapping_sub(1)), ..r },
            m,
        ),
        (Mnemonic::Dey, None) => (
            Regs { y: r.y.wrapping_sub(1), flags: set_nz(r.flags, r.y.wrapping_sub(1)), ..r },
            m,
        ),
        (Mnemonic::Eor, Some(a)) => (eor_spec(r, mread(m, a)), m),
        (Mnemonic::Inc, Some(a)) => inc_spec(r, m, a),
        (Mnemonic::Inx, None) => (
            Regs { x: r.x.wrapping_add(1), flags: set_nz(r.flags, r.x.wrapping_add(1)), ..r },
            m,
        ),
        (Mnemonic::Iny, None) => (
            Regs { y: r.y.wrapping_add(1), flags: set_nz(r.flags, r.y.wrapping_add(1)), ..r },
            m,
        ),
        (Mnemonic::Jmp, Some(a)) => (Regs { pc: a, ..r }, m),
        (Mnemonic::Jsr, Some(a)) => jsr_spec(r, m, a),
        (Mnemonic::Nop, None) => (r, m),
        (Mnemonic::Lda, Some(a)) => (lda_spec(r, mread(m, a)), m),
        (Mnemonic::Ldx, Some(a)) => (ldx_spec(r, mread(m, a)), m),
        (Mnemonic::Ldy, Some(a)) => (ldy_spec(r, mread(m, a)), m),
        (Mnemonic::Lsr, Some(a)) => lsr_mem_spec(r, m, a),
        (Mnemonic::Lsr, None) => (lsr_a_spec(r), m),
        (Mnemonic::Ora, Some(a)) => (ora_spec(r, mread(m, a)), m),
        (Mnemonic::Pha, None) => pha_spec(r, m),
        (Mnemonic::Php, None) => php_spec(r, m),
        (Mnemonic::Pla, None) => (pla_spec(r, m), m),
        (Mnemonic::Plp, None) => (plp_spec(r, m), m),
        (Mnemonic::Rol, Some(a)) => rol_mem_spec(r, m, a),
        (Mnemonic::Rol, None) => (rol_a_spec(r), m),
        (Mnemonic::Ror, Some(a)) => ror_mem_spec(r, m, a),
        (Mnemonic::Ror, None) => (ror_a_spec(r), m),
        (Mnemonic::Rti, None) => (rti_spec(r, m), m),
        (Mnemonic::Rts, None) => (rts_spec(r, m), m),
        (Mnemonic::Sbc, Some(a)) => (sbc_spec(r, mread(m, a)), m),
        (Mnemonic::Sec, None) => (Regs { flags: Flags { carry: true, ..r.flags }, ..r }, m),
        (Mnemonic::Sed, None) => (Regs { flags: Flags { decimal: true, ..r.flags }, ..r }, m),
        (Mnemonic::Sei, None) => (
            Regs { flags: Flags { interrupt_disable: true, ..r.flags }, ..r },
            m,
        ),
        (Mnemonic::Sta, Some(a)) => (r, mwrite(m, a, r.a)),
        (Mnemonic::Stx, Some(a)) => (r, mwrite(m, a, r.x)),
        (Mnemonic::Sty, Some(a)) => (r, mwrite(m, a, r.y)),
        (Mnemonic::Tax, None) => (Regs { x: r.a, flags: set_nz(r.flags, r.a), ..r }, m),
        (Mnemonic::Tay, None) => (Regs { y: r.a, flags: set_nz(r.flags, r.a), ..r }, m),
        (Mnemonic::Tsx, None) => (Regs { x: r.sp, flags: set_nz(r.flags, r.sp), ..r }, m),
        (Mnemonic::Txa, None) => (Regs { a: r.x, flags: set_nz(r.flags, r.x), ..r }, m),
        (Mnemonic::Txs, None) => (Regs { sp: r.x, ..r }, m),
        (Mnemonic::Tya, None) => (Regs { a: r.y, flags: set_nz(r.flags, r.y), ..r }, m),
        _ => (r, m),
    }
}

/// Everything one step produces: the new machine state and the trace record
/// handed to observers.
pub struct StepOutcome {
    pub regs: Regs,
    pub mem: Seq<u8>,
    pub op: Op,
    pub operand_address: Option<u16>,
    pub operand: Option<u8>,
}

/// One instruction step: fetch the opcode at pc, decode it, resolve the
/// operand address, read the operand byte for the trace, and run the
/// operation.  `None` when the opcode byte is not an official opcode.
pub open spec fn step_spec(r: Regs, m: Seq<u8>) -> Option<StepOutcome> {
    match Op::decode(mread(m, r.pc)) {
        None => None,
        Some(op) => {
            let r1 = Regs { pc: r.pc.wrapping_add(1), ..r };
            let resolved = resolve_spec(op.mode, r1, m);
            let addr = resolved.0;
            let r2 = resolved.1;
            let operand = match addr {
                Some(a) => Some(mread(m, a)),
                None => None,
            };
            let stepped = exec_insn(op.mnemonic, addr, r2, m);
            Some(
                StepOutcome {
                    regs: stepped.0,
                    mem: stepped.1,
                    op,
                    operand_address: addr,
                    operand,
                },
            )
        },
    }
}

} // verus!
