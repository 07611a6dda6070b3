//! Concrete instances of the laws proved in the library's `laws` module.

use nes_emu::{Bus, Cpu, FlatMemory, Flags, Regs};

fn regs_at(pc: u16) -> Regs {
    Regs { a: 0, x: 0, y: 0, pc, sp: 0xFD, flags: Flags::from_bits(0) }
}

#[test]
fn pc_advances_by_one_plus_operand_bytes() {
    // One instruction of each operand width: INX (0), LDA # (1), LDA abs (2).
    let mut mem = FlatMemory::new();
    mem.write_u8(0x0000, 0xE8); // INX
    mem.write_u8(0x0001, 0xA9); // LDA #$07
    mem.write_u8(0x0002, 0x07);
    mem.write_u8(0x0003, 0xAD); // LDA $1234
    mem.write_u8(0x0004, 0x34);
    mem.write_u8(0x0005, 0x12);
    let mut cpu = Cpu::from_regs(regs_at(0x0000));
    cpu.next(&mut mem);
    assert_eq!(cpu.regs().pc, 0x0001);
    cpu.next(&mut mem);
    assert_eq!(cpu.regs().pc, 0x0003);
    cpu.next(&mut mem);
    assert_eq!(cpu.regs().pc, 0x0006);
}

#[test]
fn zero_flag_tracks_result_byte() {
    // AND #$00 gives zero; AND #$FF with A=0x40 does not.
    let mut mem = FlatMemory::new();
    mem.write_u8(0x0000, 0x29);
    mem.write_u8(0x0001, 0x00);
    mem.write_u8(0x0002, 0x29);
    mem.write_u8(0x0003, 0xFF);
    let mut cpu = Cpu::from_regs(Regs { a: 0x40, ..regs_at(0x0000) });
    cpu.next(&mut mem);
    assert!(cpu.regs().flags.zero);
    cpu.regs.a = 0x40;
    cpu.next(&mut mem);
    assert!(!cpu.regs().flags.zero);
}

#[test]
fn negative_flag_tracks_bit_seven() {
    // LDX #$80 sets NEGATIVE; LDX #$7F clears it.
    let mut mem = FlatMemory::new();
    mem.write_u8(0x0000, 0xA2);
    mem.write_u8(0x0001, 0x80);
    mem.write_u8(0x0002, 0xA2);
    mem.write_u8(0x0003, 0x7F);
    let mut cpu = Cpu::from_regs(regs_at(0x0000));
    cpu.next(&mut mem);
    assert!(cpu.regs().flags.negative);
    cpu.next(&mut mem);
    assert!(!cpu.regs().flags.negative);
}

#[test]
fn break2_set_after_plp_and_rti() {
    // PLP pulling 0x00 still leaves BREAK2 set in the live flags.
    let mut mem = FlatMemory::new();
    mem.write_u8(0x0000, 0x28); // PLP
    mem.write_u8(0x01FE, 0x00); // byte pulled
    let mut cpu = Cpu::from_regs(Regs { sp: 0xFD, ..regs_at(0x0000) });
    cpu.next(&mut mem);
    assert!(cpu.regs().flags.break_2);
    assert!(!cpu.regs().flags.break_1);

    // RTI pulling 0x00 as the status byte does the same.
    let mut mem = FlatMemory::new();
    mem.write_u8(0x0000, 0x40); // RTI
    mem.write_u8(0x01FE, 0x00); // status byte
    mem.write_u8(0x01FF, 0x00); // pc low
    mem.write_u8(0x0200, 0x10); // pc high
    let mut cpu = Cpu::from_regs(Regs { sp: 0xFD, ..regs_at(0x0000) });
    cpu.next(&mut mem);
    assert!(cpu.regs().flags.break_2);
    assert_eq!(cpu.regs().pc, 0x1000);
    assert_eq!(cpu.regs().sp, 0x00);
}

#[test]
fn stack_round_trip_recovers_byte() {
    // PHA PHP PLP PLA with A = 0x5A: A and SP come back.
    let mut mem = FlatMemory::new();
    mem.write_u8(0x0000, 0x48);
    mem.write_u8(0x0001, 0x08);
    mem.write_u8(0x0002, 0x28);
    mem.write_u8(0x0003, 0x68);
    let before = Regs { a: 0x5A, x: 3, y: 4, ..regs_at(0x0000) };
    let mut cpu = Cpu::from_regs(before);
    for _ in 0..4 {
        cpu.next(&mut mem);
    }
    let regs = cpu.regs();
    assert_eq!(regs.a, 0x5A);
    assert_eq!(regs.sp, before.sp);
    assert_eq!(regs.x, before.x);
    assert_eq!(regs.y, before.y);
    assert_eq!(regs.pc, 0x0004);
}

#[test]
fn cmp_equal_sets_carry_and_zero_clears_negative() {
    let mut mem = FlatMemory::new();
    mem.write_u8(0x0000, 0xC9); // CMP #$77
    mem.write_u8(0x0001, 0x77);
    let mut cpu = Cpu::from_regs(Regs { a: 0x77, ..regs_at(0x0000) });
    cpu.next(&mut mem);
    let f = cpu.regs().flags;
    assert!(f.carry);
    assert!(f.zero);
    assert!(!f.negative);
}

#[test]
fn adc_is_commutative_in_its_operands() {
    // 0x37 + 0x90 and 0x90 + 0x37 with carry in: same A, same flags.
    let run = |a: u8, m: u8| -> Regs {
        let mut mem = FlatMemory::new();
        mem.write_u8(0x0000, 0x69);
        mem.write_u8(0x0001, m);
        let mut flags = Flags::from_bits(0);
        flags.carry = true;
        let mut cpu = Cpu::from_regs(Regs { a, flags, ..regs_at(0x0000) });
        cpu.next(&mut mem);
        cpu.regs()
    };
    let r1 = run(0x37, 0x90);
    let r2 = run(0x90, 0x37);
    assert_eq!(r1.a, r2.a);
    assert_eq!(r1.flags, r2.flags);
}

#[test]
fn asl_then_lsr_keeps_low_seven_bits() {
    // A = 0xD5: after ASL then LSR, A = 0x55 and NEGATIVE is clear.
    let mut mem = FlatMemory::new();
    mem.write_u8(0x0000, 0x0A);
    mem.write_u8(0x0001, 0x4A);
    let mut cpu = Cpu::from_regs(Regs { a: 0xD5, ..regs_at(0x0000) });
    cpu.next(&mut mem);
    cpu.next(&mut mem);
    assert_eq!(cpu.regs().a, 0xD5 & 0x7F);
    assert!(!cpu.regs().flags.negative);
}

#[test]
fn jsr_rts_is_a_no_op_but_for_pc() {
    // JSR $4000; the subroutine is a bare RTS.
    let mut mem = FlatMemory::new();
    mem.write_u8(0x0000, 0x20);
    mem.write_u8(0x0001, 0x00);
    mem.write_u8(0x0002, 0x40);
    mem.write_u8(0x4000, 0x60);
    let mut flags = Flags::from_bits(0);
    flags.carry = true;
    flags.negative = true;
    let before = Regs { a: 1, x: 2, y: 3, sp: 0xFD, pc: 0x0000, flags };
    let mut cpu = Cpu::from_regs(before);
    cpu.next(&mut mem);
    cpu.next(&mut mem);
    assert_eq!(cpu.regs(), Regs { pc: 0x0003, ..before });
}
