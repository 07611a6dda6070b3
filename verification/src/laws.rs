//! Laws of the interpreter, proved of the step model.
//!
//! Everything here is stated over [`step_spec`] and the per-mnemonic spec
//! functions, which `Cpu::next` is proved to compute exactly.

use vstd::prelude::*;

use crate::flags::{lemma_flags_bits_round_trip, Flags};
use crate::model::{
    adc_spec, asl_a_spec, exec_insn, lsr_a_spec, mread, mread16_le, mwrite, mwrite16_le,
    operand_bytes, resolve_spec, stack_addr, step_spec, u16_from_bytes, u16_hi, u16_lo,
};
use crate::op::{Mnemonic, Mode, Op};
use crate::regs::Regs;

verus! {

/// The mnemonics that set the program counter explicitly.
pub open spec fn is_control_transfer(mn: Mnemonic) -> bool {
    ||| mn == Mnemonic::Jmp
    ||| mn == Mnemonic::Jsr
    ||| mn == Mnemonic::Rts
    ||| mn == Mnemonic::Rti
    ||| mn == Mnemonic::Brk
}

/// Whether a branch mnemonic takes its branch under the given flags.
pub open spec fn is_taken_branch(mn: Mnemonic, f: Flags) -> bool {
    ||| mn == Mnemonic::Bcc && !f.carry
    ||| mn == Mnemonic::Bcs && f.carry
    ||| mn == Mnemonic::Beq && f.zero
    ||| mn == Mnemonic::Bne && !f.zero
    ||| mn == Mnemonic::Bmi && f.negative
    ||| mn == Mnemonic::Bpl && !f.negative
    ||| mn == Mnemonic::Bvc && !f.overflow
    ||| mn == Mnemonic::Bvs && f.overflow
}

/// The resolver advances the program counter by exactly the operand-byte
/// count of the mode, and changes nothing else.
pub proof fn lemma_resolve_pc(mode: Mode, r: Regs, m: Seq<u8>)
    ensures
        resolve_spec(mode, r, m).1 == (Regs {
            pc: r.pc.wrapping_add(operand_bytes(mode) as u16),
            ..r
        }),
{
}

/// The engine leaves the program counter alone except for the explicit
/// control transfers and taken branches.
pub proof fn lemma_exec_insn_pc(mn: Mnemonic, addr: Option<u16>, r: Regs, m: Seq<u8>)
    requires
        !is_control_transfer(mn),
        !is_taken_branch(mn, r.flags),
    ensures
        exec_insn(mn, addr, r, m).0.pc == r.pc,
{
}

/// P-advance law: after any step whose operation is not JMP, JSR, RTS, RTI
/// or BRK and whose branch (if any) is not taken, the program counter has
/// advanced by exactly 1 + the operand-byte count of the mode, modulo 2^16.
pub proof fn lemma_pc_advance(r: Regs, m: Seq<u8>)
    requires
        step_spec(r, m) is Some,
        !is_control_transfer(step_spec(r, m).unwrap().op.mnemonic),
        !is_taken_branch(step_spec(r, m).unwrap().op.mnemonic, r.flags),
    ensures
        step_spec(r, m).unwrap().regs.pc == r.pc.wrapping_add(
            (1 + operand_bytes(step_spec(r, m).unwrap().op.mode)) as u16,
        ),
{
    let op = step_spec(r, m).unwrap().op;
    let r1 = Regs { pc: r.pc.wrapping_add(1), ..r };
    lemma_resolve_pc(op.mode, r1, m);
    let resolved = resolve_spec(op.mode, r1, m);
    lemma_exec_insn_pc(op.mnemonic, resolved.0, resolved.1, m);
    assert(r.pc.wrapping_add(1).wrapping_add(operand_bytes(op.mode) as u16) == r.pc.wrapping_add(
        (1 + operand_bytes(op.mode)) as u16,
    ));
}

/// The byte from which an instruction sets ZERO and NEGATIVE, for the
/// instructions that take both flags from a single result byte.  (BIT is
/// not among them: it takes NEGATIVE from the memory operand and ZERO from
/// the masked accumulator.)
pub open spec fn nz_result(mn: Mnemonic, addr: Option<u16>, r: Regs, m: Seq<u8>) -> Option<u8> {
    match (mn, addr) {
        (Mnemonic::Adc, Some(a)) => Some(adc_spec(r, mread(m, a)).a),
        (Mnemonic::Sbc, Some(a)) => Some(crate::model::sbc_spec(r, mread(m, a)).a),
        (Mnemonic::And, Some(a)) => Some(r.a & mread(m, a)),
        (Mnemonic::Ora, Some(a)) => Some(r.a | mread(m, a)),
        (Mnemonic::Eor, Some(a)) => Some(r.a ^ mread(m, a)),
        (Mnemonic::Asl, Some(a)) => Some(mread(m, a) << 1),
        (Mnemonic::Asl, None) => Some(r.a << 1),
        (Mnemonic::Lsr, Some(a)) => Some(mread(m, a) >> 1),
        (Mnemonic::Lsr, None) => Some(r.a >> 1),
        (Mnemonic::Rol, Some(a)) => Some(
            (mread(m, a) << 1) | (if r.flags.carry {
                1u8
            } else {
                0u8
            }),
        ),
        (Mnemonic::Rol, None) => Some(
            (r.a << 1) | (if r.flags.carry {
                1u8
            } else {
                0u8
            }),
        ),
        (Mnemonic::Ror, Some(a)) => Some(
            (mread(m, a) >> 1) | (if r.flags.carry {
                0x80u8
            } else {
                0u8
            }),
        ),
        (Mnemonic::Ror, None) => Some(
            (r.a >> 1) | (if r.flags.carry {
                0x80u8
            } else {
                0u8
            }),
        ),
        (Mnemonic::Cmp, Some(a)) => Some(r.a.wrapping_sub(mread(m, a))),
        (Mnemonic::Cpx, Some(a)) => Some(r.x.wrapping_sub(mread(m, a))),
        (Mnemonic::Cpy, Some(a)) => Some(r.y.wrapping_sub(mread(m, a))),
        (Mnemonic::Dec, Some(a)) => Some(mread(m, a).wrapping_sub(1)),
        (Mnemonic::Inc, Some(a)) => Some(mread(m, a).wrapping_add(1)),
        (Mnemonic::Dex, None) => Some(r.x.wrapping_sub(1)),
        (Mnemonic::Dey, None) => Some(r.y.wrapping_sub(1)),
        (Mnemonic::Inx, None) => Some(r.x.wrapping_add(1)),
        (Mnemonic::Iny, None) => Some(r.y.wrapping_add(1)),
        (Mnemonic::Lda, Some(a)) => Some(mread(m, a)),
        (Mnemonic::Ldx, Some(a)) => Some(mread(m, a)),
        (Mnemonic::Ldy, Some(a)) => Some(mread(m, a)),
        (Mnemonic::Pla, None) => Some(mread(m, stack_addr(r.sp.wrapping_add(1)))),
        (Mnemonic::Tax, None) => Some(r.a),
        (Mnemonic::Tay, None) => Some(r.a),
        (Mnemonic::Tsx, None) => Some(r.sp),
        (Mnemonic::Txa, None) => Some(r.x),
        (Mnemonic::Tya, None) => Some(r.y),
        _ => None,
    }
}

/// NZ law: after any instruction that sets ZERO and NEGATIVE from a result
/// byte, ZERO equals (result == 0) and NEGATIVE equals (result & 0x80 != 0).
#[verifier::rlimit(100)]
pub proof fn lemma_nz_flags(r: Regs, m: Seq<u8>)
    requires
        step_spec(r, m) is Some,
        nz_result(
            step_spec(r, m).unwrap().op.mnemonic,
            step_spec(r, m).unwrap().operand_address,
            r,
            m,
        ) is Some,
    ensures
        ({
            let outcome = step_spec(r, m).unwrap();
            let result = nz_result(outcome.op.mnemonic, outcome.operand_address, r, m).unwrap();
            outcome.regs.flags.zero == (result == 0) && outcome.regs.flags.negative == (result
                & 0x80 != 0)
        }),
{
    let outcome = step_spec(r, m).unwrap();
    let result = nz_result(outcome.op.mnemonic, outcome.operand_address, r, m).unwrap();
    match (outcome.op.mnemonic, outcome.operand_address) {
        (Mnemonic::Adc, Some(a)) => {
            assert(outcome.regs.flags.zero == (result == 0));
            assert(outcome.regs.flags.negative == (result & 0x80 != 0));
        },
        (Mnemonic::Sbc, Some(a)) => {
            assert(outcome.regs.flags.zero == (result == 0));
            assert(outcome.regs.flags.negative == (result & 0x80 != 0));
        },
        (Mnemonic::And, Some(a)) => {
            assert(outcome.regs.flags.zero == (result == 0));
            assert(outcome.regs.flags.negative == (result & 0x80 != 0));
        },
        (Mnemonic::Ora, Some(a)) => {
            assert(outcome.regs.flags.zero == (result == 0));
            assert(outcome.regs.flags.negative == (result & 0x80 != 0));
        },
        (Mnemonic::Eor, Some(a)) => {
            assert(outcome.regs.flags.zero == (result == 0));
            assert(outcome.regs.flags.negative == (result & 0x80 != 0));
        },
        (Mnemonic::Asl, Some(a)) => {
            assert(outcome.regs.flags.zero == (result == 0));
            assert(outcome.regs.flags.negative == (result & 0x80 != 0));
        },
        (Mnemonic::Asl, None) => {
            assert(outcome.regs.flags.zero == (result == 0));
            assert(outcome.regs.flags.negative == (result & 0x80 != 0));
        },
        (Mnemonic::Lsr, Some(a)) => {
            assert(outcome.regs.flags.zero == (result == 0));
            assert(outcome.regs.flags.negative == (result & 0x80 != 0));
        },
        (Mnemonic::Lsr, None) => {
            assert(outcome.regs.flags.zero == (result == 0));
            assert(outcome.regs.flags.negative == (result & 0x80 != 0));
        },
        (Mnemonic::Rol, Some(a)) => {
            assert(outcome.regs.flags.zero == (result == 0));
            assert(outcome.regs.flags.negative == (result & 0x80 != 0));
        },
        (Mnemonic::Rol, None) => {
            assert(outcome.regs.flags.zero == (result == 0));
            assert(outcome.regs.flags.negative == (result & 0x80 != 0));
        },
        (Mnemonic::Ror, Some(a)) => {
            assert(outcome.regs.flags.zero == (result == 0));
            assert(outcome.regs.flags.negative == (result & 0x80 != 0));
        },
        (Mnemonic::Ror, None) => {
            assert(outcome.regs.flags.zero == (result == 0));
            assert(outcome.regs.flags.negative == (result & 0x80 != 0));
        },
        (Mnemonic::Cmp, Some(a)) => {
            assert(outcome.regs.flags.zero == (result == 0));
            assert(outcome.regs.flags.negative == (result & 0x80 != 0));
        },
        (Mnemonic::Cpx, Some(a)) => {
            assert(outcome.regs.flags.zero == (result == 0));
            assert(outcome.regs.flags.negative == (result & 0x80 != 0));
        },
        (Mnemonic::Cpy, Some(a)) => {
            assert(outcome.regs.flags.zero == (result == 0));
            assert(outcome.regs.flags.negative == (result & 0x80 != 0));
        },
        (Mnemonic::Dec, Some(a)) => {
            assert(outcome.regs.flags.zero == (result == 0));
            assert(outcome.regs.flags.negative == (result & 0x80 != 0));
        },
        (Mnemonic::Inc, Some(a)) => {
            assert(outcome.regs.flags.zero == (result == 0));
            assert(outcome.regs.flags.negative == (result & 0x80 != 0));
        },
        (Mnemonic::Dex, None) => {
            assert(outcome.regs.flags.zero == (result == 0));
            assert(outcome.regs.flags.negative == (result & 0x80 != 0));
        },
        (Mnemonic::Dey, None) => {
            assert(outcome.regs.flags.zero == (result == 0));
            assert(outcome.regs.flags.negative == (result & 0x80 != 0));
        },
        (Mnemonic::Inx, None) => {
            assert(outcome.regs.flags.zero == (result == 0));
            assert(outcome.regs.flags.negative == (result & 0x80 != 0));
        },
        (Mnemonic::Iny, None) => {
            assert(outcome.regs.flags.zero == (result == 0));
            assert(outcome.regs.flags.negative == (result & 0x80 != 0));
        },
        (Mnemonic::Lda, Some(a)) => {
            assert(outcome.regs.flags.zero == (result == 0));
            assert(outcome.regs.flags.negative == (result & 0x80 != 0));
        },
        (Mnemonic::Ldx, Some(a)) => {
            assert(outcome.regs.flags.zero == (result == 0));
            assert(outcome.regs.flags.negative == (result & 0x80 != 0));
        },
        (Mnemonic::Ldy, Some(a)) => {
            assert(outcome.regs.flags.zero == (result == 0));
            assert(outcome.regs.flags.negative == (result & 0x80 != 0));
        },
        (Mnemonic::Pla, None) => {
            assert(outcome.regs.flags.zero == (result == 0));
            assert(outcome.regs.flags.negative == (result & 0x80 != 0));
        },
        (Mnemonic::Tax, None) => {
            assert(outcome.regs.flags.zero == (result == 0));
            assert(outcome.regs.flags.negative == (result & 0x80 != 0));
        },
        (Mnemonic::Tay, None) => {
            assert(outcome.regs.flags.zero == (result == 0));
            assert(outcome.regs.flags.negative == (result & 0x80 != 0));
        },
        (Mnemonic::Tsx, None) => {
            assert(outcome.regs.flags.zero == (result == 0));
            assert(outcome.regs.flags.negative == (result & 0x80 != 0));
        },
        (Mnemonic::Txa, None) => {
            assert(outcome.regs.flags.zero == (result == 0));
            assert(outcome.regs.flags.negative == (result & 0x80 != 0));
        },
        (Mnemonic::Tya, None) => {
            assert(outcome.regs.flags.zero == (result == 0));
            assert(outcome.regs.flags.negative == (result & 0x80 != 0));
        },
        _ => {
            assert(nz_result(outcome.op.mnemonic, outcome.operand_address, r, m) is None);
        },
    }
}

/// Every decoded descriptor pairs its mnemonic with a mode of the right
/// shape: the stack, status and transfer operations are implied, and the
/// operations that read or write memory carry an operand.
pub proof fn lemma_decode_mode(opcode: u8)
    ensures
        Op::decode(opcode) matches Some(op) ==> {
            &&& ((op.mnemonic == Mnemonic::Plp || op.mnemonic == Mnemonic::Rti)
                ==> op.mode == Mode::Implied)
            &&& ((op.mnemonic == Mnemonic::Cmp || op.mnemonic == Mnemonic::Cpx
                || op.mnemonic == Mnemonic::Cpy) ==> op.mode != Mode::Implied && op.mode
                != Mode::Accumulator)
        },
{
}

/// BREAK2 law: the live status register has BREAK2 set after any PLP or
/// RTI, whatever byte was pulled.
pub proof fn lemma_break2_after_pull(r: Regs, m: Seq<u8>)
    requires
        step_spec(r, m) is Some,
        step_spec(r, m).unwrap().op.mnemonic == Mnemonic::Plp || step_spec(r, m).unwrap().op.mnemonic
            == Mnemonic::Rti,
    ensures
        step_spec(r, m).unwrap().regs.flags.break_2,
{
    lemma_decode_mode(mread(m, r.pc));
}

/// CMP-equal law: comparing a register with an equal operand sets CARRY and
/// ZERO and clears NEGATIVE.
pub proof fn lemma_cmp_equal(r: Regs, m: Seq<u8>)
    requires
        step_spec(r, m) is Some,
        step_spec(r, m).unwrap().op.mnemonic == Mnemonic::Cmp,
        step_spec(r, m).unwrap().operand == Some(r.a),
    ensures
        step_spec(r, m).unwrap().regs.flags.carry,
        step_spec(r, m).unwrap().regs.flags.zero,
        !step_spec(r, m).unwrap().regs.flags.negative,
{
    lemma_decode_mode(mread(m, r.pc));
    assert(0u8 & 0x80 == 0) by (bit_vector);
}

/// ADC commutativity: adding M to A produces the same accumulator and the
/// same flags as adding A to M, for every carry-in.
pub proof fn lemma_adc_commutative(r: Regs, a: u8, m: u8)
    ensures
        adc_spec(Regs { a: a, ..r }, m) == adc_spec(Regs { a: m, ..r }, a),
{
    let c: int = if r.flags.carry {
        1
    } else {
        0
    };
    let result: u8 = ((a + m + c) % 256) as u8;
    assert((a ^ result) & (m ^ result) & 0x80 == (m ^ result) & (a ^ result) & 0x80)
        by (bit_vector);
}

/// ASL-then-LSR law: shifting the accumulator left and then right restores
/// its low 7 bits and always clears NEGATIVE.
pub proof fn lemma_asl_lsr(r: Regs)
    ensures
        lsr_a_spec(asl_a_spec(r)).a == r.a & 0x7F,
        !lsr_a_spec(asl_a_spec(r)).flags.negative,
{
    let a = r.a;
    assert((a << 1) >> 1 == a & 0x7F) by (bit_vector);
    assert(((a << 1) >> 1) & 0x80 == 0) by (bit_vector);
}

/// The machine state after one step, dropping the trace record.
pub open spec fn step_state(r: Regs, m: Seq<u8>) -> Option<(Regs, Seq<u8>)> {
    match step_spec(r, m) {
        Some(o) => Some((o.regs, o.mem)),
        None => None,
    }
}

/// The machine state after `n` steps, `None` if any of them hits an
/// unofficial opcode.
pub open spec fn steps(n: nat, r: Regs, m: Seq<u8>) -> Option<(Regs, Seq<u8>)>
    decreases n,
{
    if n == 0 {
        Some((r, m))
    } else {
        match step_state(r, m) {
            Some(s) => steps((n - 1) as nat, s.0, s.1),
            None => None,
        }
    }
}

/// Stack round-trip law: pushing the accumulator and the status byte and
/// then pulling them back (PHA, PHP, PLP, PLA) recovers the accumulator and
/// the stack pointer, leaves X and Y alone, and moves the program counter
/// past the four opcodes.  The two stack slots used must not overlay the
/// program bytes still to be fetched.
pub proof fn lemma_stack_round_trip(r: Regs, m: Seq<u8>)
    requires
        m.len() == 0x10000,
        mread(m, r.pc) == 0x48,  // PHA
        mread(m, r.pc.wrapping_add(1)) == 0x08,  // PHP
        mread(m, r.pc.wrapping_add(2)) == 0x28,  // PLP
        mread(m, r.pc.wrapping_add(3)) == 0x68,  // PLA
        stack_addr(r.sp) != r.pc.wrapping_add(1),
        stack_addr(r.sp) != r.pc.wrapping_add(2),
        stack_addr(r.sp) != r.pc.wrapping_add(3),
        stack_addr(r.sp.wrapping_sub(1)) != r.pc.wrapping_add(2),
        stack_addr(r.sp.wrapping_sub(1)) != r.pc.wrapping_add(3),
    ensures
        steps(4, r, m) matches Some(s) && {
            &&& s.0.a == r.a
            &&& s.0.x == r.x
            &&& s.0.y == r.y
            &&& s.0.sp == r.sp
            &&& s.0.pc == r.pc.wrapping_add(4)
        },
{
    let slot1 = stack_addr(r.sp);
    let slot2 = stack_addr(r.sp.wrapping_sub(1));
    assert(slot1 != slot2);

    // PHA
    assert(step_spec(r, m) is Some);
    let o1 = step_spec(r, m).unwrap();
    assert(o1.regs == Regs { pc: r.pc.wrapping_add(1), sp: r.sp.wrapping_sub(1), ..r });
    assert(o1.mem == mwrite(m, slot1, r.a));

    // PHP
    let pushed = Flags { break_1: true, break_2: true, ..r.flags };
    assert(mread(o1.mem, r.pc.wrapping_add(1)) == 0x08);
    let o2 = step_spec(o1.regs, o1.mem).unwrap();
    assert(o2.regs == Regs { pc: r.pc.wrapping_add(2), sp: r.sp.wrapping_sub(2), ..r });
    assert(o2.mem == mwrite(o1.mem, slot2, pushed.bits()));

    // PLP
    assert(mread(o2.mem, r.pc.wrapping_add(2)) == 0x28);
    assert(r.sp.wrapping_sub(2).wrapping_add(1) == r.sp.wrapping_sub(1));
    assert(mread(o2.mem, slot2) == pushed.bits());
    lemma_flags_bits_round_trip(pushed);
    let o3 = step_spec(o2.regs, o2.mem).unwrap();
    assert(o3.regs == Regs {
        pc: r.pc.wrapping_add(3),
        sp: r.sp.wrapping_sub(1),
        flags: Flags { break_1: false, break_2: true, ..r.flags },
        ..r
    });
    assert(o3.mem == o2.mem);

    // PLA
    assert(mread(o3.mem, r.pc.wrapping_add(3)) == 0x68);
    assert(r.sp.wrapping_sub(1).wrapping_add(1) == r.sp);
    assert(mread(o3.mem, slot1) == r.a);
    let o4 = step_spec(o3.regs, o3.mem).unwrap();
    assert(o4.regs.a == r.a);
    assert(o4.regs.x == r.x);
    assert(o4.regs.y == r.y);
    assert(o4.regs.sp == r.sp);
    assert(o4.regs.pc == r.pc.wrapping_add(4));

    assert(steps(4, r, m) == steps(3, o1.regs, o1.mem));
    assert(steps(3, o1.regs, o1.mem) == steps(2, o2.regs, o2.mem));
    assert(steps(2, o2.regs, o2.mem) == steps(1, o3.regs, o3.mem));
    assert(steps(1, o3.regs, o3.mem) == steps(0, o4.regs, o4.mem));
}

/// JSR-then-RTS law: a JSR to a subroutine that immediately returns is a
/// no-op on every register but the program counter, which ends up at the
/// instruction after the JSR; the flags are untouched.  The two stack slots
/// the return address passes through must not overlay the RTS opcode.
pub proof fn lemma_jsr_rts(r: Regs, m: Seq<u8>, target: u16)
    requires
        m.len() == 0x10000,
        mread(m, r.pc) == 0x20,  // JSR absolute
        mread16_le(m, r.pc.wrapping_add(1)) == target,
        mread(m, target) == 0x60,  // RTS
        stack_addr(r.sp.wrapping_sub(1)) != target,
        stack_addr(r.sp.wrapping_sub(1)).wrapping_add(1) != target,
    ensures
        steps(2, r, m) matches Some(s) && s.0 == (Regs { pc: r.pc.wrapping_add(3), ..r }),
{
    let base = stack_addr(r.sp.wrapping_sub(1));
    let pushed = r.pc.wrapping_add(3).wrapping_sub(1);

    // JSR
    assert(step_spec(r, m) is Some);
    let o1 = step_spec(r, m).unwrap();
    assert(o1.regs == Regs { pc: target, sp: r.sp.wrapping_sub(2), ..r });
    assert(o1.mem == mwrite16_le(m, base, pushed));

    // RTS reads back exactly what JSR pushed.
    assert(base.wrapping_add(1) != base);
    assert(mread(o1.mem, base) == u16_lo(pushed));
    assert(mread(o1.mem, base.wrapping_add(1)) == u16_hi(pushed));
    assert(u16_from_bytes(u16_lo(pushed), u16_hi(pushed)) == pushed);
    assert(mread16_le(o1.mem, base) == pushed);

    assert(mread(o1.mem, target) == 0x60);
    assert(r.sp.wrapping_sub(2).wrapping_add(1) == r.sp.wrapping_sub(1));
    let o2 = step_spec(o1.regs, o1.mem).unwrap();
    assert(r.sp.wrapping_sub(2).wrapping_add(2) == r.sp);
    assert(o2.regs == Regs { pc: r.pc.wrapping_add(3), ..r });

    assert(steps(2, r, m) == steps(1, o1.regs, o1.mem));
    assert(steps(1, o1.regs, o1.mem) == steps(0, o2.regs, o2.mem));
}

} // verus!
