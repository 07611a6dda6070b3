//! The CPU: the memory-bus boundary, the addressing resolver, the
//! execution engine and the step driver.
//!
//! Every public operation is specified against the mathematical model in
//! [`crate::model`]; in particular [`Cpu::next`] computes exactly
//! [`step_spec`].

use vstd::prelude::*;

use crate::flags::Flags;
use crate::model::{
    adc_spec, and_spec, asl_a_spec, asl_mem_spec, bit_spec, branch_spec, branch_target,
    compare_spec, dec_spec, eor_spec, exec_insn, inc_spec, is_negative, is_signed_overflow, is_zero,
    jsr_spec, lda_spec, ldx_spec, ldy_spec, lsr_a_spec, lsr_mem_spec, mread, mread16_be,
    mread16_le, mwrite, mwrite16_be, mwrite16_le, ora_spec, pha_spec, php_spec, pla_spec,
    plp_spec, resolve_spec, rol_a_spec, rol_mem_spec, ror_a_spec, ror_mem_spec, rti_spec,
    rts_spec, sbc_spec, set_nz, step_spec, STACK_START,
};
use crate::op::{Mnemonic, Mode, Op};
use crate::regs::Regs;

verus! {

/// The abstract byte-addressable memory the CPU drives.
///
/// An implementation presents a view of 65536 bytes (`mem`) and a
/// well-formedness condition (`wf`) that its operations keep.  A read
/// returns the byte of the view at the address; a write changes the view at
/// exactly that address.  The CPU never bounds-checks: every 16-bit address
/// is legal, and decoding or mirroring is the implementation's business as
/// long as the view obeys these laws.
pub trait Bus {
    /// The 64 KiB of memory this bus presents.  The default is the empty
    /// view, for implementations outside the verifier; a verified
    /// implementation overrides it.
    open spec fn mem(&self) -> Seq<u8> {
        Seq::empty()
    }

    /// The bus's working state, kept by every operation.  The default is
    /// never-true, for implementations outside the verifier; a verified
    /// implementation overrides it.
    open spec fn wf(&self) -> bool {
        false
    }

    /// Reads one byte.
    fn read_u8(&mut self, address: u16) -> (data: u8)
        requires
            old(self).wf(),
        ensures
            final(self).wf(),
            final(self).mem() == old(self).mem(),
            data == mread(old(self).mem(), address),
    ;

    /// Writes one byte.
    fn write_u8(&mut self, address: u16, data: u8)
        requires
            old(self).wf(),
        ensures
            final(self).wf(),
            final(self).mem() == mwrite(old(self).mem(), address, data),
    ;

    /// Reads [AB, CD] at (address, address + 1) as 0xABCD.
    fn read_u16_be(&mut self, address: u16) -> (data: u16)
        requires
            old(self).wf(),
        ensures
            final(self).wf(),
            final(self).mem() == old(self).mem(),
            data == mread16_be(old(self).mem(), address),
    {
        let x = self.read_u8(address);
        let y = self.read_u8(address.wrapping_add(1));
        (y as u16) + (x as u16) * 256
    }

    /// Writes 0xABCD as [AB, CD] at (address, address + 1).
    fn write_u16_be(&mut self, address: u16, data: u16)
        requires
            old(self).wf(),
        ensures
            final(self).wf(),
            final(self).mem() == mwrite16_be(old(self).mem(), address, data),
    {
        self.write_u8(address, (data / 256) as u8);
        self.write_u8(address.wrapping_add(1), (data % 256) as u8);
    }

    /// Reads [AB, CD] at (address, address + 1) as 0xCDAB.
    fn read_u16_le(&mut self, address: u16) -> (data: u16)
        requires
            old(self).wf(),
        ensures
            final(self).wf(),
            final(self).mem() == old(self).mem(),
            data == mread16_le(old(self).mem(), address),
    {
        let x = self.read_u8(address);
        let y = self.read_u8(address.wrapping_add(1));
        (x as u16) + (y as u16) * 256
    }

    /// Writes 0xABCD as [CD, AB] at (address, address + 1).
    fn write_u16_le(&mut self, address: u16, data: u16)
        requires
            old(self).wf(),
        ensures
            final(self).wf(),
            final(self).mem() == mwrite16_le(old(self).mem(), address, data),
    {
        self.write_u8(address, (data % 256) as u8);
        self.write_u8(address.wrapping_add(1), (data / 256) as u8);
    }
}

/// The CPU itself: nothing but its register file.
#[derive(Clone, Copy, Debug, PartialEq, Eq, Structural)]
pub struct Cpu {
    pub regs: Regs,
}

/// The observable trace of one executed instruction, consumed by debuggers
/// and golden-log harnesses.
#[derive(Clone, Copy, Debug, PartialEq, Eq)]
pub struct Effects {
    /// The decoded op descriptor.
    pub op: Op,
    /// The effective operand address, where the mode has one.
    pub operand_address: Option<u16>,
    /// The byte read from the operand address, where the mode has one.
    pub operand: Option<u8>,
    /// The instruction's base cycle count.
    pub cycles: u8,
}

impl Cpu {
    /// A CPU in its power-on state: A = X = Y = 0, SP = 0xFD, only
    /// INTERRUPT_DISABLE and BREAK2 set; the host sets the program counter.
    pub fn new() -> (cpu: Cpu)
        ensures
            cpu.regs == (Regs {
                a: 0,
                x: 0,
                y: 0,
                pc: 0,
                sp: 0xFD,
                flags: Flags::power_on(),
            }),
    {
        Cpu {
            regs: Regs { a: 0, x: 0, y: 0, pc: 0, sp: 0xFD, flags: Flags::power_on() },
        }
    }

    /// A CPU with an explicit register file.
    pub fn from_regs(regs: Regs) -> (cpu: Cpu)
        ensures
            cpu.regs == regs,
    {
        Cpu { regs }
    }

    /// The current register file.
    pub fn regs(&self) -> (regs: Regs)
        ensures
            regs == self.regs,
    {
        self.regs
    }

    /// Executes the instruction at the program counter and returns its
    /// trace.  The step is exactly one application of [`step_spec`]: opcode
    /// fetch, decode, operand resolution, the trace read of the operand
    /// byte, and the operation itself, in that order.
    ///
    /// The opcode at the program counter must be one of the 151 official
    /// opcodes; the model calls everything else a fatal decode error.
    pub fn next<B: Bus>(&mut self, bus: &mut B) -> (effects: Effects)
        requires
            old(bus).wf(),
            Op::decode(mread(old(bus).mem(), old(self).regs.pc)) is Some,
        ensures
            final(bus).wf(),
            step_spec(old(self).regs, old(bus).mem()) matches Some(outcome)
                && final(self).regs == outcome.regs
                && final(bus).mem() == outcome.mem
                && effects.op == outcome.op
                && effects.operand_address == outcome.operand_address
                && effects.operand == outcome.operand
                && effects.cycles == outcome.op.cycles,
    {
        let mut regs = self.regs;

        let opcode = bus.read_u8(regs.pc);
        regs.pc = regs.pc.wrapping_add(1);

        let op = Op::parse(opcode).unwrap();

        let operand_address = operand_address(op.mode(), &mut regs, bus);
        let operand = match operand_address {
            Some(address) => Some(bus.read_u8(address)),
            None => None,
        };
        dispatch(op.mnemonic(), operand_address, &mut regs, bus);

        self.regs = regs;
        Effects { op, operand_address, operand, cycles: op.cycles() }
    }
}

/// Runs one decoded operation: the per-mnemonic dispatch of the execution
/// engine, as [`exec_insn`] describes.  Combinations of mnemonic and
/// operand presence that the opcode table never produces do nothing.
#[verifier::rlimit(60)]
fn dispatch<B: Bus>(mnemonic: Mnemonic, operand_address: Option<u16>, regs: &mut Regs, bus: &mut B)
    requires
        old(bus).wf(),
    ensures
        final(bus).wf(),
        *final(regs) == exec_insn(mnemonic, operand_address, *old(regs), old(bus).mem()).0,
        final(bus).mem() == exec_insn(mnemonic, operand_address, *old(regs), old(bus).mem()).1,
{
    match (mnemonic, operand_address) {
        (Mnemonic::Adc, Some(address)) => adc(address, regs, bus),
        (Mnemonic::And, Some(address)) => and(address, regs, bus),
        (Mnemonic::Asl, Some(address)) => asl(address, regs, bus),
        (Mnemonic::Asl, None) => asl_a(regs),
        (Mnemonic::Bcc, Some(address)) => bcc(address, regs, bus),
        (Mnemonic::Bcs, Some(address)) => bcs(address, regs, bus),
        (Mnemonic::Beq, Some(address)) => beq(address, regs, bus),
        (Mnemonic::Bit, Some(address)) => bit(address, regs, bus),
        (Mnemonic::Bmi, Some(address)) => bmi(address, regs, bus),
        (Mnemonic::Bne, Some(address)) => bne(address, regs, bus),
        (Mnemonic::Bpl, Some(address)) => bpl(address, regs, bus),
        (Mnemonic::Brk, None) => brk(regs),
        (Mnemonic::Bvc, Some(address)) => bvc(address, regs, bus),
        (Mnemonic::Bvs, Some(address)) => bvs(address, regs, bus),
        (Mnemonic::Clc, None) => clc(regs),
        (Mnemonic::Cld, None) => cld(regs),
        (Mnemonic::Cli, None) => cli(regs),
        (Mnemonic::Clv, None) => clv(regs),
        (Mnemonic::Cmp, Some(address)) => cmp(address, regs, bus),
        (Mnemonic::Cpx, Some(address)) => cpx(address, regs, bus),
        (Mnemonic::Cpy, Some(address)) => cpy(address, regs, bus),
        (Mnemonic::Dec, Some(address)) => dec(address, regs, bus),
        (Mnemonic::Dex, None) => dex(regs),
        (Mnemonic::Dey, None) => dey(regs),
        (Mnemonic::Eor, Some(address)) => eor(address, regs, bus),
        (Mnemonic::Inc, Some(address)) => inc(address, regs, bus),
        (Mnemonic::Inx, None) => inx(regs),
        (Mnemonic::Iny, None) => iny(regs),
        (Mnemonic::Jmp, Some(address)) => jmp(address, regs),
        (Mnemonic::Jsr, Some(address)) => jsr(address, regs, bus),
        (Mnemonic::Nop, None) => nop(),
        (Mnemonic::Lda, Some(address)) => lda(address, regs, bus),
        (Mnemonic::Ldx, Some(address)) => ldx(address, regs, bus),
        (Mnemonic::Ldy, Some(address)) => ldy(address, regs, bus),
        (Mnemonic::Lsr, Some(address)) => lsr(address, regs, bus),
        (Mnemonic::Lsr, None) => lsr_a(regs),
        (Mnemonic::Ora, Some(address)) => ora(address, regs, bus),
        (Mnemonic::Pha, None) => pha(regs, bus),
        (Mnemonic::Php, None) => php(regs, bus),
        (Mnemonic::Pla, None) => pla(regs, bus),
        (Mnemonic::Plp, None) => plp(regs, bus),
        (Mnemonic::Rol, Some(address)) => rol(address, regs, bus),
        (Mnemonic::Rol, None) => rol_a(regs),
        (Mnemonic::Ror, Some(address)) => ror(address, regs, bus),
        (Mnemonic::Ror, None) => ror_a(regs),
        (Mnemonic::Rti, None) => rti(regs, bus),
        (Mnemonic::Rts, None) => rts(regs, bus),
        (Mnemonic::Sbc, Some(address)) => sbc(address, regs, bus),
        (Mnemonic::Sec, None) => sec(regs),
        (Mnemonic::Sed, None) => sed(regs),
        (Mnemonic::Sei, None) => sei(regs),
        (Mnemonic::Sta, Some(address)) => sta(address, regs, bus),
        (Mnemonic::Stx, Some(address)) => stx(address, regs, bus),
        (Mnemonic::Sty, Some(address)) => sty(address, regs, bus),
        (Mnemonic::Tax, None) => tax(regs),
        (Mnemonic::Tay, None) => tay(regs),
        (Mnemonic::Tsx, None) => tsx(regs),
        (Mnemonic::Txa, None) => txa(regs),
        (Mnemonic::Txs, None) => txs(regs),
        (Mnemonic::Tya, None) => tya(regs),
        _ => {},
    }
}

/// Resolves the operand of the immediate and relative modes: the operand is
/// the byte at the program counter, which advances past it.
pub fn operand_immediate(regs: &mut Regs) -> (address: u16)
    ensures
        address == old(regs).pc,
        *final(regs) == (Regs { pc: old(regs).pc.wrapping_add(1), ..*old(regs) }),
{
    let address = regs.pc;
    regs.pc = regs.pc.wrapping_add(1);
    address
}

/// Resolves a zero-page operand: the fetched byte, zero-extended.
pub fn operand_zero_page<B: Bus>(regs: &mut Regs, bus: &mut B) -> (address: u16)
    requires
        old(bus).wf(),
    ensures
        final(bus).wf(),
        final(bus).mem() == old(bus).mem(),
        address == mread(old(bus).mem(), old(regs).pc) as u16,
        *final(regs) == (Regs { pc: old(regs).pc.wrapping_add(1), ..*old(regs) }),
{
    let address = bus.read_u8(regs.pc);
    regs.pc = regs.pc.wrapping_add(1);
    address as u16
}

/// Resolves a zero-page,X operand: (fetched byte + X) mod 256.
pub fn operand_zero_page_x<B: Bus>(regs: &mut Regs, bus: &mut B) -> (address: u16)
    requires
        old(bus).wf(),
    ensures
        final(bus).wf(),
        final(bus).mem() == old(bus).mem(),
        address == mread(old(bus).mem(), old(regs).pc).wrapping_add(old(regs).x) as u16,
        *final(regs) == (Regs { pc: old(regs).pc.wrapping_add(1), ..*old(regs) }),
{
    let raw = bus.read_u8(regs.pc);
    regs.pc = regs.pc.wrapping_add(1);
    raw.wrapping_add(regs.x) as u16
}

/// Resolves a zero-page,Y operand: (fetched byte + Y) mod 256.
pub fn operand_zero_page_y<B: Bus>(regs: &mut Regs, bus: &mut B) -> (address: u16)
    requires
        old(bus).wf(),
    ensures
        final(bus).wf(),
        final(bus).mem() == old(bus).mem(),
        address == mread(old(bus).mem(), old(regs).pc).wrapping_add(old(regs).y) as u16,
        *final(regs) == (Regs { pc: old(regs).pc.wrapping_add(1), ..*old(regs) }),
{
    let raw = bus.read_u8(regs.pc);
    regs.pc = regs.pc.wrapping_add(1);
    raw.wrapping_add(regs.y) as u16
}

/// Resolves an absolute operand: the little-endian word after the opcode.
pub fn operand_absolute<B: Bus>(regs: &mut Regs, bus: &mut B) -> (address: u16)
    requires
        old(bus).wf(),
    ensures
        final(bus).wf(),
        final(bus).mem() == old(bus).mem(),
        address == mread16_le(old(bus).mem(), old(regs).pc),
        *final(regs) == (Regs { pc: old(regs).pc.wrapping_add(2), ..*old(regs) }),
{
    let address = bus.read_u16_le(regs.pc);
    regs.pc = regs.pc.wrapping_add(2);
    address
}

/// Resolves an absolute,X operand, with 16-bit wrap.
pub fn operand_absolute_x<B: Bus>(regs: &mut Regs, bus: &mut B) -> (address: u16)
    requires
        old(bus).wf(),
    ensures
        final(bus).wf(),
        final(bus).mem() == old(bus).mem(),
        address == mread16_le(old(bus).mem(), old(regs).pc).wrapping_add(old(regs).x as u16),
        *final(regs) == (Regs { pc: old(regs).pc.wrapping_add(2), ..*old(regs) }),
{
    let raw = bus.read_u16_le(regs.pc);
    regs.pc = regs.pc.wrapping_add(2);
    raw.wrapping_add(regs.x as u16)
}

/// Resolves an absolute,Y operand, with 16-bit wrap.
pub fn operand_absolute_y<B: Bus>(regs: &mut Regs, bus: &mut B) -> (address: u16)
    requires
        old(bus).wf(),
    ensures
        final(bus).wf(),
        final(bus).mem() == old(bus).mem(),
        address == mread16_le(old(bus).mem(), old(regs).pc).wrapping_add(old(regs).y as u16),
        *final(regs) == (Regs { pc: old(regs).pc.wrapping_add(2), ..*old(regs) }),
{
    let raw = bus.read_u16_le(regs.pc);
    regs.pc = regs.pc.wrapping_add(2);
    raw.wrapping_add(regs.y as u16)
}

/// The addressing resolver: advances the program counter past the operand
/// bytes and yields the effective address, as [`resolve_spec`] describes.
/// The zero-page reads of the indirect modes go through the bus.  The
/// Indirect pointer is read as a clean little-endian word: the hardware's
/// page-boundary quirk is not reproduced.
fn operand_address<B: Bus>(mode: Mode, regs: &mut Regs, bus: &mut B) -> (address: Option<u16>)
    requires
        old(bus).wf(),
    ensures
        final(bus).wf(),
        final(bus).mem() == old(bus).mem(),
        (address, *final(regs)) == resolve_spec(mode, *old(regs), old(bus).mem()),
{
    match mode {
        Mode::Implied | Mode::Accumulator => None,
        Mode::Immediate | Mode::Relative => Some(operand_immediate(regs)),
        Mode::ZeroPage => Some(operand_zero_page(regs, bus)),
        Mode::ZeroPageX => Some(operand_zero_page_x(regs, bus)),
        Mode::ZeroPageY => Some(operand_zero_page_y(regs, bus)),
        Mode::Absolute => Some(operand_absolute(regs, bus)),
        Mode::AbsoluteX => Some(operand_absolute_x(regs, bus)),
        Mode::AbsoluteY => Some(operand_absolute_y(regs, bus)),
        Mode::Indirect => {
            let raw = bus.read_u16_le(regs.pc);
            regs.pc = regs.pc.wrapping_add(2);
            let address = bus.read_u16_le(raw);
            Some(address)
        },
        Mode::IndirectX => {
            let raw = bus.read_u8(regs.pc);
            regs.pc = regs.pc.wrapping_add(1);
            let address = bus.read_u16_le(raw.wrapping_add(regs.x) as u16);
            Some(address)
        },
        Mode::IndirectY => {
            let raw = bus.read_u8(regs.pc);
            regs.pc = regs.pc.wrapping_add(1);
            let address = bus.read_u16_le(raw as u16).wrapping_add(regs.y as u16);
            Some(address)
        },
    }
}

/// The already-advanced program counter plus a sign-extended offset byte.
fn branch_add(pc: u16, off: u8) -> (target: u16)
    returns
        branch_target(pc, off),
{
    if off < 0x80 {
        pc.wrapping_add(off as u16)
    } else {
        pc.wrapping_add(off as u16 + 0xFF00)
    }
}

fn adc<B: Bus>(address: u16, regs: &mut Regs, bus: &mut B)
    requires
        old(bus).wf(),
    ensures
        final(bus).wf(),
        final(bus).mem() == old(bus).mem(),
        *final(regs) == adc_spec(*old(regs), mread(old(bus).mem(), address)),
{
    let a = regs.a;
    let m = bus.read_u8(address);
    let c: u16 = if regs.flags.carry {
        1
    } else {
        0
    };
    let total: u16 = a as u16 + m as u16 + c;
    let result: u8 = (total % 256) as u8;
    regs.flags.carry = total > 255;
    regs.flags.zero = is_zero(result);
    regs.flags.overflow = is_signed_overflow(a, m, result);
    regs.flags.negative = is_negative(result);
    regs.a = result;
}

fn sbc<B: Bus>(address: u16, regs: &mut Regs, bus: &mut B)
    requires
        old(bus).wf(),
    ensures
        final(bus).wf(),
        final(bus).mem() == old(bus).mem(),
        *final(regs) == sbc_spec(*old(regs), mread(old(bus).mem(), address)),
{
    let a = regs.a;
    let m = bus.read_u8(address);
    let c: u16 = if regs.flags.carry {
        1
    } else {
        0
    };
    let total: u16 = a as u16 + (!m) as u16 + c;
    let result: u8 = (total % 256) as u8;
    regs.flags.carry = total > 255;
    regs.flags.zero = is_zero(result);
    regs.flags.overflow = (a ^ result) & (a ^ m) & 0x80 != 0;
    regs.flags.negative = is_negative(result);
    regs.a = result;
}

fn bit<B: Bus>(address: u16, regs: &mut Regs, bus: &mut B)
    requires
        old(bus).wf(),
    ensures
        final(bus).wf(),
        final(bus).mem() == old(bus).mem(),
        *final(regs) == bit_spec(*old(regs), mread(old(bus).mem(), address)),
{
    let m = bus.read_u8(address);
    regs.flags.zero = regs.a & m == 0;
    regs.flags.overflow = m & 0x40 != 0;
    regs.flags.negative = m & 0x80 != 0;
}

/// BRK only marks the break in the flags; the full interrupt push sequence
/// is not modelled.
fn brk(regs: &mut Regs)
    ensures
        *final(regs) == (Regs {
            flags: Flags { break_1: true, ..old(regs).flags },
            ..*old(regs)
        }),
{
    regs.flags.break_1 = true;
}

fn jmp(address: u16, regs: &mut Regs)
    ensures
        *final(regs) == (Regs { pc: address, ..*old(regs) }),
{
    regs.pc = address;
}

fn jsr<B: Bus>(address: u16, regs: &mut Regs, bus: &mut B)
    requires
        old(bus).wf(),
    ensures
        final(bus).wf(),
        *final(regs) == jsr_spec(*old(regs), old(bus).mem(), address).0,
        final(bus).mem() == jsr_spec(*old(regs), old(bus).mem(), address).1,
{
    bus.write_u16_le(
        STACK_START.wrapping_add(regs.sp.wrapping_sub(1) as u16),
        regs.pc.wrapping_sub(1),
    );
    regs.sp = regs.sp.wrapping_sub(2);
    regs.pc = address;
}

fn rts<B: Bus>(regs: &mut Regs, bus: &mut B)
    requires
        old(bus).wf(),
    ensures
        final(bus).wf(),
        final(bus).mem() == old(bus).mem(),
        *final(regs) == rts_spec(*old(regs), old(bus).mem()),
{
    regs.pc = bus.read_u16_le(STACK_START.wrapping_add(regs.sp.wrapping_add(1) as u16))
        .wrapping_add(1);
    regs.sp = regs.sp.wrapping_add(2);
}

fn rti<B: Bus>(regs: &mut Regs, bus: &mut B)
    requires
        old(bus).wf(),
    ensures
        final(bus).wf(),
        final(bus).mem() == old(bus).mem(),
        *final(regs) == rti_spec(*old(regs), old(bus).mem()),
{
    regs.sp = regs.sp.wrapping_add(1);
    let pulled = bus.read_u8(STACK_START.wrapping_add(regs.sp as u16));
    regs.flags = Flags::from_bits(pulled);
    regs.flags.break_1 = false;
    regs.flags.break_2 = true;
    regs.pc = bus.read_u16_le(STACK_START.wrapping_add(regs.sp.wrapping_add(1) as u16));
    regs.sp = regs.sp.wrapping_add(2);
}

fn pha<B: Bus>(regs: &mut Regs, bus: &mut B)
    requires
        old(bus).wf(),
    ensures
        final(bus).wf(),
        *final(regs) == pha_spec(*old(regs), old(bus).mem()).0,
        final(bus).mem() == pha_spec(*old(regs), old(bus).mem()).1,
{
    bus.write_u8(STACK_START.wrapping_add(regs.sp as u16), regs.a);
    regs.sp = regs.sp.wrapping_sub(1);
}

fn php<B: Bus>(regs: &mut Regs, bus: &mut B)
    requires
        old(bus).wf(),
    ensures
        final(bus).wf(),
        *final(regs) == php_spec(*old(regs), old(bus).mem()).0,
        final(bus).mem() == php_spec(*old(regs), old(bus).mem()).1,
{
    let pushed = Flags { break_1: true, break_2: true, ..regs.flags };
    bus.write_u8(STACK_START.wrapping_add(regs.sp as u16), pushed.bits());
    regs.sp = regs.sp.wrapping_sub(1);
}

fn pla<B: Bus>(regs: &mut Regs, bus: &mut B)
    requires
        old(bus).wf(),
    ensures
        final(bus).wf(),
        final(bus).mem() == old(bus).mem(),
        *final(regs) == pla_spec(*old(regs), old(bus).mem()),
{
    regs.sp = regs.sp.wrapping_add(1);
    regs.a = bus.read_u8(STACK_START.wrapping_add(regs.sp as u16));
    regs.flags.zero = is_zero(regs.a);
    regs.flags.negative = is_negative(regs.a);
}

fn plp<B: Bus>(regs: &mut Regs, bus: &mut B)
    requires
        old(bus).wf(),
    ensures
        final(bus).wf(),
        final(bus).mem() == old(bus).mem(),
        *final(regs) == plp_spec(*old(regs), old(bus).mem()),
{
    regs.sp = regs.sp.wrapping_add(1);
    let pulled = bus.read_u8(STACK_START.wrapping_add(regs.sp as u16));
    regs.flags = Flags::from_bits(pulled);
    regs.flags.break_1 = false;
    regs.flags.break_2 = true;
}

fn nop() {
}

fn bcc<B: Bus>(address: u16, regs: &mut Regs, bus: &mut B)
    requires
        old(bus).wf(),
    ensures
        final(bus).wf(),
        final(bus).mem() == old(bus).mem(),
        *final(regs) == branch_spec(*old(regs), old(bus).mem(), address, !old(regs).flags.carry),
{
    if !regs.flags.carry {
        let offset = bus.read_u8(address);
        regs.pc = branch_add(regs.pc, offset);
    }
}

fn bcs<B: Bus>(address: u16, regs: &mut Regs, bus: &mut B)
    requires
        old(bus).wf(),
    ensures
        final(bus).wf(),
        final(bus).mem() == old(bus).mem(),
        *final(regs) == branch_spec(*old(regs), old(bus).mem(), address, old(regs).flags.carry),
{
    if regs.flags.carry {
        let offset = bus.read_u8(address);
        regs.pc = branch_add(regs.pc, offset);
    }
}

fn beq<B: Bus>(address: u16, regs: &mut Regs, bus: &mut B)
    requires
        old(bus).wf(),
    ensures
        final(bus).wf(),
        final(bus).mem() == old(bus).mem(),
        *final(regs) == branch_spec(*old(regs), old(bus).mem(), address, old(regs).flags.zero),
{
    if regs.flags.zero {
        let offset = bus.read_u8(address);
        regs.pc = branch_add(regs.pc, offset);
    }
}

fn bmi<B: Bus>(address: u16, regs: &mut Regs, bus: &mut B)
    requires
        old(bus).wf(),
    ensures
        final(bus).wf(),
        final(bus).mem() == old(bus).mem(),
        *final(regs) == branch_spec(*old(regs), old(bus).mem(), address, old(regs).flags.negative),
{
    if regs.flags.negative {
        let offset = bus.read_u8(address);
        regs.pc = branch_add(regs.pc, offset);
    }
}

fn bne<B: Bus>(address: u16, regs: &mut Regs, bus: &mut B)
    requires
        old(bus).wf(),
    ensures
        final(bus).wf(),
        final(bus).mem() == old(bus).mem(),
        *final(regs) == branch_spec(*old(regs), old(bus).mem(), address, !old(regs).flags.zero),
{
    if !regs.flags.zero {
        let offset = bus.read_u8(address);
        regs.pc = branch_add(regs.pc, offset);
    }
}

fn bpl<B: Bus>(address: u16, regs: &mut Regs, bus: &mut B)
    requires
        old(bus).wf(),
    ensures
        final(bus).wf(),
        final(bus).mem() == old(bus).mem(),
        *final(regs) == branch_spec(*old(regs), old(bus).mem(), address, !old(regs).flags.negative),
{
    if !regs.flags.negative {
        let offset = bus.read_u8(address);
        regs.pc = branch_add(regs.pc, offset);
    }
}

fn bvc<B: Bus>(address: u16, regs: &mut Regs, bus: &mut B)
    requires
        old(bus).wf(),
    ensures
        final(bus).wf(),
        final(bus).mem() == old(bus).mem(),
        *final(regs) == branch_spec(*old(regs), old(bus).mem(), address, !old(regs).flags.overflow),
{
    if !regs.flags.overflow {
        let offset = bus.read_u8(address);
        regs.pc = branch_add(regs.pc, offset);
    }
}

fn bvs<B: Bus>(address: u16, regs: &mut Regs, bus: &mut B)
    requires
        old(bus).wf(),
    ensures
        final(bus).wf(),
        final(bus).mem() == old(bus).mem(),
        *final(regs) == branch_spec(*old(regs), old(bus).mem(), address, old(regs).flags.overflow),
{
    if regs.flags.overflow {
        let offset = bus.read_u8(address);
        regs.pc = branch_add(regs.pc, offset);
    }
}

fn clc(regs: &mut Regs)
    ensures
        *final(regs) == (Regs { flags: Flags { carry: false, ..old(regs).flags }, ..*old(regs) }),
{
    regs.flags.carry = false;
}

fn cld(regs: &mut Regs)
    ensures
        *final(regs) == (Regs { flags: Flags { decimal: false, ..old(regs).flags }, ..*old(regs) }),
{
    regs.flags.decimal = false;
}

fn cli(regs: &mut Regs)
    ensures
        *final(regs) == (Regs { flags: Flags { interrupt_disable: false, ..old(regs).flags }, ..*old(regs) }),
{
    regs.flags.interrupt_disable = false;
}

fn clv(regs: &mut Regs)
    ensures
        *final(regs) == (Regs { flags: Flags { overflow: false, ..old(regs).flags }, ..*old(regs) }),
{
    regs.flags.overflow = false;
}

fn sec(regs: &mut Regs)
    ensures
        *final(regs) == (Regs { flags: Flags { carry: true, ..old(regs).flags }, ..*old(regs) }),
{
    regs.flags.carry = true;
}

fn sed(regs: &mut Regs)
    ensures
        *final(regs) == (Regs { flags: Flags { decimal: true, ..old(regs).flags }, ..*old(regs) }),
{
    regs.flags.decimal = true;
}

fn sei(regs: &mut Regs)
    ensures
        *final(regs) == (Regs { flags: Flags { interrupt_disable: true, ..old(regs).flags }, ..*old(regs) }),
{
    regs.flags.interrupt_disable = true;
}

fn lda<B: Bus>(address: u16, regs: &mut Regs, bus: &mut B)
    requires
        old(bus).wf(),
    ensures
        final(bus).wf(),
        final(bus).mem() == old(bus).mem(),
        *final(regs) == lda_spec(*old(regs), mread(old(bus).mem(), address)),
{
    regs.a = bus.read_u8(address);
    regs.flags.zero = is_zero(regs.a);
    regs.flags.negative = is_negative(regs.a);
}

fn ldx<B: Bus>(address: u16, regs: &mut Regs, bus: &mut B)
    requires
        old(bus).wf(),
    ensures
        final(bus).wf(),
        final(bus).mem() == old(bus).mem(),
        *final(regs) == ldx_spec(*old(regs), mread(old(bus).mem(), address)),
{
    regs.x = bus.read_u8(address);
    regs.flags.zero = is_zero(regs.x);
    regs.flags.negative = is_negative(regs.x);
}

fn ldy<B: Bus>(address: u16, regs: &mut Regs, bus: &mut B)
    requires
        old(bus).wf(),
    ensures
        final(bus).wf(),
        final(bus).mem() == old(bus).mem(),
        *final(regs) == ldy_spec(*old(regs), mread(old(bus).mem(), address)),
{
    regs.y = bus.read_u8(address);
    regs.flags.zero = is_zero(regs.y);
    regs.flags.negative = is_negative(regs.y);
}

fn and<B: Bus>(address: u16, regs: &mut Regs, bus: &mut B)
    requires
        old(bus).wf(),
    ensures
        final(bus).wf(),
        final(bus).mem() == old(bus).mem(),
        *final(regs) == and_spec(*old(regs), mread(old(bus).mem(), address)),
{
    let operand = bus.read_u8(address);
    regs.a = regs.a & operand;
    regs.flags.zero = is_zero(regs.a);
    regs.flags.negative = is_negative(regs.a);
}

fn ora<B: Bus>(address: u16, regs: &mut Regs, bus: &mut B)
    requires
        old(bus).wf(),
    ensures
        final(bus).wf(),
        final(bus).mem() == old(bus).mem(),
        *final(regs) == ora_spec(*old(regs), mread(old(bus).mem(), address)),
{
    let operand = bus.read_u8(address);
    regs.a = regs.a | operand;
    regs.flags.zero = is_zero(regs.a);
    regs.flags.negative = is_negative(regs.a);
}

fn eor<B: Bus>(address: u16, regs: &mut Regs, bus: &mut B)
    requires
        old(bus).wf(),
    ensures
        final(bus).wf(),
        final(bus).mem() == old(bus).mem(),
        *final(regs) == eor_spec(*old(regs), mread(old(bus).mem(), address)),
{
    let operand = bus.read_u8(address);
    regs.a = regs.a ^ operand;
    regs.flags.zero = is_zero(regs.a);
    regs.flags.negative = is_negative(regs.a);
}

fn cmp<B: Bus>(address: u16, regs: &mut Regs, bus: &mut B)
    requires
        old(bus).wf(),
    ensures
        final(bus).wf(),
        final(bus).mem() == old(bus).mem(),
        *final(regs) == (Regs {
            flags: compare_spec(old(regs).flags, old(regs).a, mread(old(bus).mem(), address)),
            ..*old(regs)
        }),
{
    let m = bus.read_u8(address);
    regs.flags.carry = regs.a >= m;
    regs.flags.zero = regs.a == m;
    regs.flags.negative = is_negative(regs.a.wrapping_sub(m));
}

fn cpx<B: Bus>(address: u16, regs: &mut Regs, bus: &mut B)
    requires
        old(bus).wf(),
    ensures
        final(bus).wf(),
        final(bus).mem() == old(bus).mem(),
        *final(regs) == (Regs {
            flags: compare_spec(old(regs).flags, old(regs).x, mread(old(bus).mem(), address)),
            ..*old(regs)
        }),
{
    let m = bus.read_u8(address);
    regs.flags.carry = regs.x >= m;
    regs.flags.zero = regs.x == m;
    regs.flags.negative = is_negative(regs.x.wrapping_sub(m));
}

fn cpy<B: Bus>(address: u16, regs: &mut Regs, bus: &mut B)
    requires
        old(bus).wf(),
    ensures
        final(bus).wf(),
        final(bus).mem() == old(bus).mem(),
        *final(regs) == (Regs {
            flags: compare_spec(old(regs).flags, old(regs).y, mread(old(bus).mem(), address)),
            ..*old(regs)
        }),
{
    let m = bus.read_u8(address);
    regs.flags.carry = regs.y >= m;
    regs.flags.zero = regs.y == m;
    regs.flags.negative = is_negative(regs.y.wrapping_sub(m));
}

fn dex(regs: &mut Regs)
    ensures
        *final(regs) == (Regs {
            x: old(regs).x.wrapping_sub(1),
            flags: set_nz(old(regs).flags, old(regs).x.wrapping_sub(1)),
            ..*old(regs)
        }),
{
    regs.x = regs.x.wrapping_sub(1);
    regs.flags.zero = is_zero(regs.x);
    regs.flags.negative = is_negative(regs.x);
}

fn dey(regs: &mut Regs)
    ensures
        *final(regs) == (Regs {
            y: old(regs).y.wrapping_sub(1),
            flags: set_nz(old(regs).flags, old(regs).y.wrapping_sub(1)),
            ..*old(regs)
        }),
{
    regs.y = regs.y.wrapping_sub(1);
    regs.flags.zero = is_zero(regs.y);
    regs.flags.negative = is_negative(regs.y);
}

fn inx(regs: &mut Regs)
    ensures
        *final(regs) == (Regs {
            x: old(regs).x.wrapping_add(1),
            flags: set_nz(old(regs).flags, old(regs).x.wrapping_add(1)),
            ..*old(regs)
        }),
{
    regs.x = regs.x.wrapping_add(1);
    regs.flags.zero = is_zero(regs.x);
    regs.flags.negative = is_negative(regs.x);
}

fn iny(regs: &mut Regs)
    ensures
        *final(regs) == (Regs {
            y: old(regs).y.wrapping_add(1),
            flags: set_nz(old(regs).flags, old(regs).y.wrapping_add(1)),
            ..*old(regs)
        }),
{
    regs.y = regs.y.wrapping_add(1);
    regs.flags.zero = is_zero(regs.y);
    regs.flags.negative = is_negative(regs.y);
}

fn dec<B: Bus>(address: u16, regs: &mut Regs, bus: &mut B)
    requires
        old(bus).wf(),
    ensures
        final(bus).wf(),
        *final(regs) == dec_spec(*old(regs), old(bus).mem(), address).0,
        final(bus).mem() == dec_spec(*old(regs), old(bus).mem(), address).1,
{
    let m = bus.read_u8(address);
    let m = m.wrapping_sub(1);
    regs.flags.zero = is_zero(m);
    regs.flags.negative = is_negative(m);
    bus.write_u8(address, m);
}

fn inc<B: Bus>(address: u16, regs: &mut Regs, bus: &mut B)
    requires
        old(bus).wf(),
    ensures
        final(bus).wf(),
        *final(regs) == inc_spec(*old(regs), old(bus).mem(), address).0,
        final(bus).mem() == inc_spec(*old(regs), old(bus).mem(), address).1,
{
    let m = bus.read_u8(address);
    let m = m.wrapping_add(1);
    regs.flags.zero = is_zero(m);
    regs.flags.negative = is_negative(m);
    bus.write_u8(address, m);
}

fn tax(regs: &mut Regs)
    ensures
        *final(regs) == (Regs {
            x: old(regs).a,
            flags: set_nz(old(regs).flags, old(regs).a),
            ..*old(regs)
        }),
{
    regs.x = regs.a;
    regs.flags.zero = is_zero(regs.x);
    regs.flags.negative = is_negative(regs.x);
}

fn tay(regs: &mut Regs)
    ensures
        *final(regs) == (Regs {
            y: old(regs).a,
            flags: set_nz(old(regs).flags, old(regs).a),
            ..*old(regs)
        }),
{
    regs.y = regs.a;
    regs.flags.zero = is_zero(regs.y);
    regs.flags.negative = is_negative(regs.y);
}

fn tsx(regs: &mut Regs)
    ensures
        *final(regs) == (Regs {
            x: old(regs).sp,
            flags: set_nz(old(regs).flags, old(regs).sp),
            ..*old(regs)
        }),
{
    regs.x = regs.sp;
    regs.flags.zero = is_zero(regs.x);
    regs.flags.negative = is_negative(regs.x);
}

fn txa(regs: &mut Regs)
    ensures
        *final(regs) == (Regs {
            a: old(regs).x,
            flags: set_nz(old(regs).flags, old(regs).x),
            ..*old(regs)
        }),
{
    regs.a = regs.x;
    regs.flags.zero = is_zero(regs.a);
    regs.flags.negative = is_negative(regs.a);
}

fn tya(regs: &mut Regs)
    ensures
        *final(regs) == (Regs {
            a: old(regs).y,
            flags: set_nz(old(regs).flags, old(regs).y),
            ..*old(regs)
        }),
{
    regs.a = regs.y;
    regs.flags.zero = is_zero(regs.a);
    regs.flags.negative = is_negative(regs.a);
}

fn txs(regs: &mut Regs)
    ensures
        *final(regs) == (Regs { sp: old(regs).x, ..*old(regs) }),
{
    regs.sp = regs.x;
}

fn sta<B: Bus>(address: u16, regs: &Regs, bus: &mut B)
    requires
        old(bus).wf(),
    ensures
        final(bus).wf(),
        final(bus).mem() == mwrite(old(bus).mem(), address, regs.a),
{
    bus.write_u8(address, regs.a)
}

fn stx<B: Bus>(address: u16, regs: &Regs, bus: &mut B)
    requires
        old(bus).wf(),
    ensures
        final(bus).wf(),
        final(bus).mem() == mwrite(old(bus).mem(), address, regs.x),
{
    bus.write_u8(address, regs.x)
}

fn sty<B: Bus>(address: u16, regs: &Regs, bus: &mut B)
    requires
        old(bus).wf(),
    ensures
        final(bus).wf(),
        final(bus).mem() == mwrite(old(bus).mem(), address, regs.y),
{
    bus.write_u8(address, regs.y)
}

fn asl_a(regs: &mut Regs)
    ensures
        *final(regs) == asl_a_spec(*old(regs)),
{
    regs.flags.carry = regs.a & 0x80 != 0;
    regs.a = regs.a << 1;
    regs.flags.zero = is_zero(regs.a);
    regs.flags.negative = is_negative(regs.a);
}

fn lsr_a(regs: &mut Regs)
    ensures
        *final(regs) == lsr_a_spec(*old(regs)),
{
    regs.flags.carry = regs.a & 0x01 != 0;
    regs.a = regs.a >> 1;
    regs.flags.zero = is_zero(regs.a);
    regs.flags.negative = is_negative(regs.a);
}

fn rol_a(regs: &mut Regs)
    ensures
        *final(regs) == rol_a_spec(*old(regs)),
{
    let new_carry = regs.a & 0x80 != 0;
    regs.a = (regs.a << 1) | (if regs.flags.carry { 1u8 } else { 0u8 });
    regs.flags.carry = new_carry;
    regs.flags.zero = is_zero(regs.a);
    regs.flags.negative = is_negative(regs.a);
}

fn ror_a(regs: &mut Regs)
    ensures
        *final(regs) == ror_a_spec(*old(regs)),
{
    let new_carry = regs.a & 0x01 != 0;
    regs.a = (regs.a >> 1) | (if regs.flags.carry { 0x80u8 } else { 0u8 });
    regs.flags.carry = new_carry;
    regs.flags.zero = is_zero(regs.a);
    regs.flags.negative = is_negative(regs.a);
}

fn asl<B: Bus>(address: u16, regs: &mut Regs, bus: &mut B)
    requires
        old(bus).wf(),
    ensures
        final(bus).wf(),
        *final(regs) == asl_mem_spec(*old(regs), old(bus).mem(), address).0,
        final(bus).mem() == asl_mem_spec(*old(regs), old(bus).mem(), address).1,
{
    let m = bus.read_u8(address);
    let result = m << 1;
    regs.flags.carry = m & 0x80 != 0;
    regs.flags.zero = is_zero(result);
    regs.flags.negative = is_negative(result);
    bus.write_u8(address, result);
}

fn lsr<B: Bus>(address: u16, regs: &mut Regs, bus: &mut B)
    requires
        old(bus).wf(),
    ensures
        final(bus).wf(),
        *final(regs) == lsr_mem_spec(*old(regs), old(bus).mem(), address).0,
        final(bus).mem() == lsr_mem_spec(*old(regs), old(bus).mem(), address).1,
{
    let m = bus.read_u8(address);
    let result = m >> 1;
    regs.flags.carry = m & 0x01 != 0;
    regs.flags.zero = is_zero(result);
    regs.flags.negative = is_negative(result);
    bus.write_u8(address, result);
}

fn rol<B: Bus>(address: u16, regs: &mut Regs, bus: &mut B)
    requires
        old(bus).wf(),
    ensures
        final(bus).wf(),
        *final(regs) == rol_mem_spec(*old(regs), old(bus).mem(), address).0,
        final(bus).mem() == rol_mem_spec(*old(regs), old(bus).mem(), address).1,
{
    let m = bus.read_u8(address);
    let result = (m << 1) | (if regs.flags.carry { 1u8 } else { 0u8 });
    regs.flags.carry = m & 0x80 != 0;
    regs.flags.zero = is_zero(result);
    regs.flags.negative = is_negative(result);
    bus.write_u8(address, result);
}

fn ror<B: Bus>(address: u16, regs: &mut Regs, bus: &mut B)
    requires
        old(bus).wf(),
    ensures
        final(bus).wf(),
        *final(regs) == ror_mem_spec(*old(regs), old(bus).mem(), address).0,
        final(bus).mem() == ror_mem_spec(*old(regs), old(bus).mem(), address).1,
{
    let m = bus.read_u8(address);
    let result = (m >> 1) | (if regs.flags.carry { 0x80u8 } else { 0u8 });
    regs.flags.carry = m & 0x01 != 0;
    regs.flags.zero = is_zero(result);
    regs.flags.negative = is_negative(result);
    bus.write_u8(address, result);
}

} // verus!
