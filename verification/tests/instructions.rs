//! Per-instruction unit tests: one concrete program each, full register
//! file compared afterwards.

use nes_emu::{Bus, Cpu, FlatMemory, Flags, Regs};

fn base_regs() -> Regs {
    Regs { a: 0, x: 0, y: 0, pc: 0x0000, sp: 0xFD, flags: Flags::from_bits(0) }
}

fn run_one(program: &[u8], regs: Regs) -> (Regs, FlatMemory) {
    let mut mem = FlatMemory::new();
    for (i, byte) in program.iter().enumerate() {
        mem.write_u8(regs.pc.wrapping_add(i as u16), *byte);
    }
    let mut cpu = Cpu::from_regs(regs);
    cpu.next(&mut mem);
    (cpu.regs(), mem)
}

#[test]
fn adc_signed_wrapping_into_zero() {
    let regs = Regs { a: 0xFF, ..base_regs() };
    let (after, _) = run_one(&[0x69, 0x01], regs);
    let mut flags = Flags::from_bits(0);
    flags.zero = true;
    flags.carry = true;
    assert_eq!(after, Regs { a: 0x00, pc: 0x02, flags, ..regs });
}

#[test]
fn adc_signed_wrapping_into_positive() {
    let regs = Regs { a: 0xFF, ..base_regs() };
    let (after, _) = run_one(&[0x69, 0x02], regs);
    let mut flags = Flags::from_bits(0);
    flags.carry = true;
    assert_eq!(after, Regs { a: 0x01, pc: 0x02, flags, ..regs });
}

#[test]
fn and_immediate_masks_accumulator() {
    let regs = Regs { a: 0b1100_1100, ..base_regs() };
    let (after, _) = run_one(&[0x29, 0b1010_1010], regs);
    assert_eq!(after.a, 0b1000_1000);
    assert!(after.flags.negative);
    assert!(!after.flags.zero);
}

#[test]
fn asl_memory_shifts_and_sets_carry() {
    let mut mem = FlatMemory::new();
    mem.write_u8(0x0000, 0x06); // ASL $10
    mem.write_u8(0x0001, 0x10);
    mem.write_u8(0x0010, 0b1000_0001);
    let mut cpu = Cpu::from_regs(base_regs());
    cpu.next(&mut mem);
    assert_eq!(mem.bytes[0x0010], 0b0000_0010);
    assert!(cpu.regs().flags.carry);
    assert!(!cpu.regs().flags.negative);
}

#[test]
fn beq_taken_only_when_zero_set() {
    let mut regs = base_regs();
    regs.flags.zero = true;
    let (after, _) = run_one(&[0xF0, 0x10], regs);
    assert_eq!(after.pc, 0x0012);

    let regs = base_regs();
    let (after, _) = run_one(&[0xF0, 0x10], regs);
    assert_eq!(after.pc, 0x0002);
}

#[test]
fn bit_reads_flags_from_memory_operand() {
    let mut mem = FlatMemory::new();
    mem.write_u8(0x0000, 0x24); // BIT $20
    mem.write_u8(0x0001, 0x20);
    mem.write_u8(0x0020, 0b1100_0000);
    let mut cpu = Cpu::from_regs(Regs { a: 0b0011_1111, ..base_regs() });
    cpu.next(&mut mem);
    let f = cpu.regs().flags;
    assert!(f.zero); // A & M == 0
    assert!(f.overflow); // bit 6 of M
    assert!(f.negative); // bit 7 of M
    assert_eq!(cpu.regs().a, 0b0011_1111);
}

#[test]
fn bpl_taken_when_negative_clear() {
    let (after, _) = run_one(&[0x10, 0x04], base_regs());
    assert_eq!(after.pc, 0x0006);
}

#[test]
fn cmp_greater_equal_lesser() {
    let (after, _) = run_one(&[0xC9, 0x01], Regs { a: 0x02, ..base_regs() });
    assert!(after.flags.carry && !after.flags.zero && !after.flags.negative);

    let (after, _) = run_one(&[0xC9, 0x01], Regs { a: 0x01, ..base_regs() });
    assert!(after.flags.carry && after.flags.zero && !after.flags.negative);

    let (after, _) = run_one(&[0xC9, 0x02], Regs { a: 0x01, ..base_regs() });
    assert!(!after.flags.carry && !after.flags.zero && after.flags.negative);
}

#[test]
fn cpy_compares_y_register() {
    let (after, _) = run_one(&[0xC0, 0x10], Regs { y: 0x20, ..base_regs() });
    assert!(after.flags.carry && !after.flags.zero);
}

#[test]
fn dec_wraps_through_zero() {
    let mut mem = FlatMemory::new();
    mem.write_u8(0x0000, 0xC6); // DEC $40
    mem.write_u8(0x0001, 0x40);
    mem.write_u8(0x0040, 0x00);
    let mut cpu = Cpu::from_regs(base_regs());
    cpu.next(&mut mem);
    assert_eq!(mem.bytes[0x0040], 0xFF);
    assert!(cpu.regs().flags.negative);
}

#[test]
fn dex_and_dey_set_flags() {
    let (after, _) = run_one(&[0xCA], Regs { x: 0x01, ..base_regs() });
    assert_eq!(after.x, 0x00);
    assert!(after.flags.zero);

    let (after, _) = run_one(&[0x88], Regs { y: 0x00, ..base_regs() });
    assert_eq!(after.y, 0xFF);
    assert!(after.flags.negative);
}

#[test]
fn inc_memory_sets_negative() {
    let mut mem = FlatMemory::new();
    mem.write_u8(0x0000, 0xE6); // INC $40
    mem.write_u8(0x0001, 0x40);
    mem.write_u8(0x0040, 0x7F);
    let mut cpu = Cpu::from_regs(base_regs());
    cpu.next(&mut mem);
    assert_eq!(mem.bytes[0x0040], 0x80);
    assert!(cpu.regs().flags.negative);
}

#[test]
fn jmp_absolute_sets_pc() {
    let (after, _) = run_one(&[0x4C, 0xCD, 0xAB], base_regs());
    assert_eq!(after.pc, 0xABCD);
}

#[test]
fn lda_all_zero_page_and_indexed_modes() {
    // LDA $10,X with X = 0x05 reads 0x0015.
    let mut mem = FlatMemory::new();
    mem.write_u8(0x0000, 0xB5);
    mem.write_u8(0x0001, 0x10);
    mem.write_u8(0x0015, 0x99);
    let mut cpu = Cpu::from_regs(Regs { x: 0x05, ..base_regs() });
    cpu.next(&mut mem);
    assert_eq!(cpu.regs().a, 0x99);
    assert!(cpu.regs().flags.negative);
}

#[test]
fn lda_indirect_x_and_indirect_y() {
    // LDA ($20,X) with X = 4: pointer at 0x24 -> 0x3000.
    let mut mem = FlatMemory::new();
    mem.write_u8(0x0000, 0xA1);
    mem.write_u8(0x0001, 0x20);
    mem.write_u8(0x0024, 0x00);
    mem.write_u8(0x0025, 0x30);
    mem.write_u8(0x3000, 0x42);
    let mut cpu = Cpu::from_regs(Regs { x: 0x04, ..base_regs() });
    cpu.next(&mut mem);
    assert_eq!(cpu.regs().a, 0x42);

    // LDA ($20),Y with Y = 1: pointer at 0x20 -> 0x3000, +1.
    let mut mem = FlatMemory::new();
    mem.write_u8(0x0000, 0xB1);
    mem.write_u8(0x0001, 0x20);
    mem.write_u8(0x0020, 0x00);
    mem.write_u8(0x0021, 0x30);
    mem.write_u8(0x3001, 0x24);
    let mut cpu = Cpu::from_regs(Regs { y: 0x01, ..base_regs() });
    cpu.next(&mut mem);
    assert_eq!(cpu.regs().a, 0x24);
}

#[test]
fn ldy_immediate_loads() {
    let (after, _) = run_one(&[0xA0, 0x00], Regs { y: 0x55, ..base_regs() });
    assert_eq!(after.y, 0x00);
    assert!(after.flags.zero);
}

#[test]
fn sbc_with_borrow_and_without() {
    // 0x10 - 0x08 with carry set (no borrow): 0x08, carry stays set.
    let mut regs = Regs { a: 0x10, ..base_regs() };
    regs.flags.carry = true;
    let (after, _) = run_one(&[0xE9, 0x08], regs);
    assert_eq!(after.a, 0x08);
    assert!(after.flags.carry);
    assert!(!after.flags.overflow);

    // 0x08 - 0x10 with carry set: wraps to 0xF8, carry (no-borrow) clear.
    let mut regs = Regs { a: 0x08, ..base_regs() };
    regs.flags.carry = true;
    let (after, _) = run_one(&[0xE9, 0x10], regs);
    assert_eq!(after.a, 0xF8);
    assert!(!after.flags.carry);
    assert!(after.flags.negative);
}

#[test]
fn txa_copies_and_sets_flags() {
    let (after, _) = run_one(&[0x8A], Regs { x: 0x80, a: 0x00, ..base_regs() });
    assert_eq!(after.a, 0x80);
    assert!(after.flags.negative);
}

#[test]
fn sta_stx_sty_write_registers() {
    let regs = Regs { a: 1, x: 2, y: 3, ..base_regs() };
    let (_, mem) = run_one(&[0x85, 0x30], regs); // STA $30
    assert_eq!(mem.bytes[0x0030], 1);
    let (_, mem) = run_one(&[0x86, 0x30], regs); // STX $30
    assert_eq!(mem.bytes[0x0030], 2);
    let (_, mem) = run_one(&[0x84, 0x30], regs); // STY $30
    assert_eq!(mem.bytes[0x0030], 3);
}

#[test]
fn rol_and_ror_rotate_through_carry() {
    let mut regs = Regs { a: 0b1000_0000, ..base_regs() };
    regs.flags.carry = true;
    let (after, _) = run_one(&[0x2A], regs); // ROL A
    assert_eq!(after.a, 0b0000_0001);
    assert!(after.flags.carry);

    let mut regs = Regs { a: 0b0000_0001, ..base_regs() };
    regs.flags.carry = true;
    let (after, _) = run_one(&[0x6A], regs); // ROR A
    assert_eq!(after.a, 0b1000_0000);
    assert!(after.flags.carry);
    assert!(after.flags.negative);
}

#[test]
fn php_pushes_break_bits_set() {
    let mut mem = FlatMemory::new();
    mem.write_u8(0x0000, 0x08); // PHP
    let mut cpu = Cpu::from_regs(base_regs());
    cpu.next(&mut mem);
    // All flags clear, but the pushed byte carries BREAK1 | BREAK2.
    assert_eq!(mem.bytes[0x01FD], 0b0011_0000);
    assert_eq!(cpu.regs().sp, 0xFC);
}

#[test]
fn txs_moves_x_without_flags() {
    let (after, _) = run_one(&[0x9A], Regs { x: 0x00, ..base_regs() });
    assert_eq!(after.sp, 0x00);
    assert!(!after.flags.zero); // TXS never touches the flags
}

#[test]
fn flag_instructions_toggle_their_flag() {
    let (after, _) = run_one(&[0x38], base_regs()); // SEC
    assert!(after.flags.carry);
    let (after, _) = run_one(&[0xF8], base_regs()); // SED
    assert!(after.flags.decimal);
    let (after, _) = run_one(&[0x78], base_regs()); // SEI
    assert!(after.flags.interrupt_disable);

    let mut regs = base_regs();
    regs.flags = Flags::from_bits(0xFF);
    let (after, _) = run_one(&[0x18], regs); // CLC
    assert!(!after.flags.carry);
    let (after, _) = run_one(&[0xB8], regs); // CLV
    assert!(!after.flags.overflow);
}

#[test]
fn brk_sets_break1_only() {
    let (after, _) = run_one(&[0x00], base_regs());
    assert!(after.flags.break_1);
    assert_eq!(after.pc, 0x0001);
}
