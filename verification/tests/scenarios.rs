//! End-to-end scenarios: literal programs with their expected final state.

use nes_emu::{Bus, Cpu, FlatMemory, Flags, Regs};

fn flags0() -> Flags {
    Flags::from_bits(0)
}

fn regs_at(pc: u16) -> Regs {
    Regs { a: 0, x: 0, y: 0, pc, sp: 0xFD, flags: flags0() }
}

#[test]
fn branch_not_taken() {
    // BCS with carry clear: both operand bytes are consumed, nothing else.
    let mut mem = FlatMemory::new();
    mem.write_u8(0x0000, 0xB0);
    mem.write_u8(0x0001, 0x02);
    let mut cpu = Cpu::from_regs(regs_at(0x0000));
    cpu.next(&mut mem);
    assert_eq!(cpu.regs().pc, 0x0002);
    assert_eq!(cpu.regs(), Regs { pc: 0x0002, ..regs_at(0x0000) });
}

#[test]
fn branch_taken_forward() {
    // BCC with carry clear jumps past the offset.
    let mut mem = FlatMemory::new();
    mem.write_u8(0x0000, 0x90);
    mem.write_u8(0x0001, 0x05);
    let mut cpu = Cpu::from_regs(regs_at(0x0000));
    cpu.next(&mut mem);
    assert_eq!(cpu.regs().pc, 0x0007);
}

#[test]
fn branch_taken_backward() {
    // BCC with a negative offset: the sign-extended byte walks pc back.
    let mut mem = FlatMemory::new();
    mem.write_u8(0x0010, 0x90);
    mem.write_u8(0x0011, 0xFC); // -4
    let mut cpu = Cpu::from_regs(regs_at(0x0010));
    cpu.next(&mut mem);
    assert_eq!(cpu.regs().pc, 0x000E);
}

#[test]
fn adc_wraps_to_zero_with_carry() {
    let mut mem = FlatMemory::new();
    mem.write_u8(0x0000, 0x69);
    mem.write_u8(0x0001, 0x01);
    let mut cpu = Cpu::from_regs(Regs { a: 0xFF, ..regs_at(0x0000) });
    cpu.next(&mut mem);
    let regs = cpu.regs();
    assert_eq!(regs.a, 0x00);
    assert_eq!(regs.pc, 0x0002);
    assert!(regs.flags.zero);
    assert!(regs.flags.carry);
    assert!(!regs.flags.overflow);
    assert!(!regs.flags.negative);
}

#[test]
fn adc_signed_overflow_positive_to_negative() {
    let mut mem = FlatMemory::new();
    mem.write_u8(0x0000, 0x69);
    mem.write_u8(0x0001, 0x50);
    let mut cpu = Cpu::from_regs(Regs { a: 0x50, ..regs_at(0x0000) });
    cpu.next(&mut mem);
    let regs = cpu.regs();
    assert_eq!(regs.a, 0xA0);
    assert!(regs.flags.overflow);
    assert!(regs.flags.negative);
    assert!(!regs.flags.carry);
}

#[test]
fn jsr_then_rts() {
    // JSR $0003 at 0x0000, then the RTS there, land one past the JSR.
    let mut mem = FlatMemory::new();
    mem.write_u8(0x0000, 0x20);
    mem.write_u8(0x0001, 0x03);
    mem.write_u8(0x0002, 0x00);
    mem.write_u8(0x0003, 0x60);
    let mut cpu = Cpu::from_regs(Regs { sp: 0xFF, ..regs_at(0x0000) });

    cpu.next(&mut mem);
    assert_eq!(cpu.regs().pc, 0x0003);
    assert_eq!(cpu.regs().sp, 0xFD);
    // Little-endian push of 0x0002, the address of the JSR's last byte.
    assert_eq!(mem.bytes[0x01FE], 0x02);
    assert_eq!(mem.bytes[0x01FF], 0x00);

    cpu.next(&mut mem);
    assert_eq!(cpu.regs().pc, 0x0003);
    assert_eq!(cpu.regs().sp, 0xFF);
}

#[test]
fn indirect_jmp() {
    let mut mem = FlatMemory::new();
    mem.write_u8(0x0000, 0x6C);
    mem.write_u8(0x0001, 0xFC);
    mem.write_u8(0x0002, 0xFF);
    mem.write_u8(0xFFFC, 0xFC);
    mem.write_u8(0xFFFD, 0xBA);
    let mut cpu = Cpu::from_regs(regs_at(0x0000));
    cpu.next(&mut mem);
    assert_eq!(cpu.regs().pc, 0xBAFC);
}

#[test]
fn iny_wraps_and_sets_zero() {
    let mut mem = FlatMemory::new();
    mem.write_u8(0x0000, 0xC8);
    let mut cpu = Cpu::from_regs(Regs { y: 0xFF, ..regs_at(0x0000) });
    cpu.next(&mut mem);
    let regs = cpu.regs();
    assert_eq!(regs.pc, 0x0001);
    assert_eq!(regs.y, 0x00);
    assert!(regs.flags.zero);
    assert!(!regs.flags.negative);
}

#[test]
fn effects_trace_records_the_step() {
    // LDA $10 with 0x42 at 0x0010: the trace carries the decoded op, the
    // effective address, the operand byte and the base cycle count.
    let mut mem = FlatMemory::new();
    mem.write_u8(0x0000, 0xA5);
    mem.write_u8(0x0001, 0x10);
    mem.write_u8(0x0010, 0x42);
    let mut cpu = Cpu::from_regs(regs_at(0x0000));
    let effects = cpu.next(&mut mem);
    assert_eq!(effects.op.mnemonic(), nes_emu::op::Mnemonic::Lda);
    assert_eq!(effects.op.mode(), nes_emu::op::Mode::ZeroPage);
    assert_eq!(effects.operand_address, Some(0x0010));
    assert_eq!(effects.operand, Some(0x42));
    assert_eq!(effects.cycles, 3);
    assert_eq!(cpu.regs().a, 0x42);
}
