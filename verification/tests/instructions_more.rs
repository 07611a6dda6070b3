//! More per-instruction tests: the mnemonics and modes the first batch
//! leaves out, plus a small multi-instruction program.

use nes_emu::{Bus, Cpu, FlatMemory, Flags, Regs};

fn base_regs() -> Regs {
    Regs { a: 0, x: 0, y: 0, pc: 0x0000, sp: 0xFD, flags: Flags::from_bits(0) }
}

fn run_one(program: &[u8], regs: Regs) -> (Regs, FlatMemory) {
    let mut mem = FlatMemory::new();
    for (i, byte) in program.iter().enumerate() {
        mem.write_u8(regs.pc.wrapping_add(i as u16), *byte);
    }
    let mut cpu = Cpu::from_regs(regs);
    cpu.next(&mut mem);
    (cpu.regs(), mem)
}

#[test]
fn eor_and_ora_immediate() {
    let (after, _) = run_one(&[0x49, 0xFF], Regs { a: 0x0F, ..base_regs() }); // EOR
    assert_eq!(after.a, 0xF0);
    assert!(after.flags.negative);

    let (after, _) = run_one(&[0x09, 0x0F], Regs { a: 0xF0, ..base_regs() }); // ORA
    assert_eq!(after.a, 0xFF);
    assert!(after.flags.negative && !after.flags.zero);
}

#[test]
fn inx_wraps_to_zero() {
    let (after, _) = run_one(&[0xE8], Regs { x: 0xFF, ..base_regs() });
    assert_eq!(after.x, 0x00);
    assert!(after.flags.zero && !after.flags.negative);
}

#[test]
fn nop_changes_nothing_but_pc() {
    let before = Regs { a: 1, x: 2, y: 3, ..base_regs() };
    let (after, _) = run_one(&[0xEA], before);
    assert_eq!(after, Regs { pc: 0x0001, ..before });
}

#[test]
fn transfers_tax_tay_tsx_tya() {
    let (after, _) = run_one(&[0xAA], Regs { a: 0x00, x: 9, ..base_regs() }); // TAX
    assert_eq!(after.x, 0x00);
    assert!(after.flags.zero);

    let (after, _) = run_one(&[0xA8], Regs { a: 0x81, ..base_regs() }); // TAY
    assert_eq!(after.y, 0x81);
    assert!(after.flags.negative);

    let (after, _) = run_one(&[0xBA], Regs { sp: 0xFD, ..base_regs() }); // TSX
    assert_eq!(after.x, 0xFD);
    assert!(after.flags.negative);

    let (after, _) = run_one(&[0x98], Regs { y: 0x42, ..base_regs() }); // TYA
    assert_eq!(after.a, 0x42);
    assert!(!after.flags.zero && !after.flags.negative);
}

#[test]
fn remaining_branches() {
    let mut regs = base_regs();
    regs.flags.negative = true;
    let (after, _) = run_one(&[0x30, 0x02], regs); // BMI taken
    assert_eq!(after.pc, 0x0004);

    let (after, _) = run_one(&[0xD0, 0x02], base_regs()); // BNE taken (zero clear)
    assert_eq!(after.pc, 0x0004);

    let (after, _) = run_one(&[0x50, 0x02], base_regs()); // BVC taken
    assert_eq!(after.pc, 0x0004);

    let mut regs = base_regs();
    regs.flags.overflow = true;
    let (after, _) = run_one(&[0x70, 0x02], regs); // BVS taken
    assert_eq!(after.pc, 0x0004);

    let mut regs = base_regs();
    regs.flags.carry = true;
    let (after, _) = run_one(&[0xB0, 0x02], regs); // BCS taken
    assert_eq!(after.pc, 0x0004);
}

#[test]
fn cpx_compares_x_register() {
    let (after, _) = run_one(&[0xE0, 0x30], Regs { x: 0x30, ..base_regs() });
    assert!(after.flags.carry && after.flags.zero && !after.flags.negative);
}

#[test]
fn cli_and_cld_clear_their_flags() {
    let mut regs = base_regs();
    regs.flags = Flags::from_bits(0xFF);
    let (after, _) = run_one(&[0x58], regs); // CLI
    assert!(!after.flags.interrupt_disable);
    let (after, _) = run_one(&[0xD8], regs); // CLD
    assert!(!after.flags.decimal);
}

#[test]
fn lsr_memory_form() {
    let mut mem = FlatMemory::new();
    mem.write_u8(0x0000, 0x46); // LSR $10
    mem.write_u8(0x0001, 0x10);
    mem.write_u8(0x0010, 0x01);
    let mut cpu = Cpu::from_regs(base_regs());
    cpu.next(&mut mem);
    assert_eq!(mem.bytes[0x0010], 0x00);
    assert!(cpu.regs().flags.carry && cpu.regs().flags.zero);
}

#[test]
fn rol_and_ror_memory_forms() {
    let mut mem = FlatMemory::new();
    mem.write_u8(0x0000, 0x26); // ROL $10
    mem.write_u8(0x0001, 0x10);
    mem.write_u8(0x0010, 0b0100_0000);
    let mut regs = base_regs();
    regs.flags.carry = true;
    let mut cpu = Cpu::from_regs(regs);
    cpu.next(&mut mem);
    assert_eq!(mem.bytes[0x0010], 0b1000_0001);
    assert!(!cpu.regs().flags.carry);
    assert!(cpu.regs().flags.negative);

    let mut mem = FlatMemory::new();
    mem.write_u8(0x0000, 0x66); // ROR $10
    mem.write_u8(0x0001, 0x10);
    mem.write_u8(0x0010, 0b0000_0011);
    let mut cpu = Cpu::from_regs(base_regs());
    cpu.next(&mut mem);
    assert_eq!(mem.bytes[0x0010], 0b0000_0001);
    assert!(cpu.regs().flags.carry);
}

#[test]
fn ldx_zero_page_y_and_absolute_y() {
    let mut mem = FlatMemory::new();
    mem.write_u8(0x0000, 0xB6); // LDX $20,Y
    mem.write_u8(0x0001, 0x20);
    mem.write_u8(0x0023, 0x77);
    let mut cpu = Cpu::from_regs(Regs { y: 0x03, ..base_regs() });
    cpu.next(&mut mem);
    assert_eq!(cpu.regs().x, 0x77);

    let mut mem = FlatMemory::new();
    mem.write_u8(0x0000, 0xBE); // LDX $1000,Y
    mem.write_u8(0x0001, 0x00);
    mem.write_u8(0x0002, 0x10);
    mem.write_u8(0x1002, 0x55);
    let mut cpu = Cpu::from_regs(Regs { y: 0x02, ..base_regs() });
    cpu.next(&mut mem);
    assert_eq!(cpu.regs().x, 0x55);
}

#[test]
fn sta_indexed_and_indirect_modes() {
    let mut mem = FlatMemory::new();
    mem.write_u8(0x0000, 0x9D); // STA $2000,X
    mem.write_u8(0x0001, 0x00);
    mem.write_u8(0x0002, 0x20);
    let mut cpu = Cpu::from_regs(Regs { a: 0x5C, x: 0x10, ..base_regs() });
    cpu.next(&mut mem);
    assert_eq!(mem.bytes[0x2010], 0x5C);

    let mut mem = FlatMemory::new();
    mem.write_u8(0x0000, 0x91); // STA ($20),Y
    mem.write_u8(0x0001, 0x20);
    mem.write_u8(0x0020, 0x00);
    mem.write_u8(0x0021, 0x30);
    let mut cpu = Cpu::from_regs(Regs { a: 0x99, y: 0x01, ..base_regs() });
    cpu.next(&mut mem);
    assert_eq!(mem.bytes[0x3001], 0x99);
}

#[test]
fn pha_and_pla_move_a_through_the_stack() {
    let mut mem = FlatMemory::new();
    mem.write_u8(0x0000, 0x48); // PHA
    mem.write_u8(0x0001, 0xA9); // LDA #$00
    mem.write_u8(0x0002, 0x00);
    mem.write_u8(0x0003, 0x68); // PLA
    let mut cpu = Cpu::from_regs(Regs { a: 0x3C, ..base_regs() });
    cpu.next(&mut mem);
    assert_eq!(mem.bytes[0x01FD], 0x3C);
    assert_eq!(cpu.regs().sp, 0xFC);
    cpu.next(&mut mem);
    assert_eq!(cpu.regs().a, 0x00);
    cpu.next(&mut mem);
    assert_eq!(cpu.regs().a, 0x3C);
    assert_eq!(cpu.regs().sp, 0xFD);
}

#[test]
fn countdown_loop_program() {
    // LDX #$03; DEX; BNE -3; the loop runs until X is zero.
    let mut mem = FlatMemory::new();
    mem.write_u8(0x0000, 0xA2);
    mem.write_u8(0x0001, 0x03);
    mem.write_u8(0x0002, 0xCA);
    mem.write_u8(0x0003, 0xD0);
    mem.write_u8(0x0004, 0xFD); // -3
    let mut cpu = Cpu::from_regs(base_regs());
    cpu.next(&mut mem); // LDX
    for _ in 0..3 {
        cpu.next(&mut mem); // DEX
        cpu.next(&mut mem); // BNE
    }
    assert_eq!(cpu.regs().x, 0x00);
    assert!(cpu.regs().flags.zero);
    assert_eq!(cpu.regs().pc, 0x0005);
}
