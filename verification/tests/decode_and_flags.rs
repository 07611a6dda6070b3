//! The opcode table and the packed status byte.

use nes_emu::op::{Mnemonic, Mode, Op};
use nes_emu::Flags;

#[test]
fn decode_samples() {
    let op = Op::parse(0x69).unwrap();
    assert_eq!(op.mnemonic(), Mnemonic::Adc);
    assert_eq!(op.mode(), Mode::Immediate);
    assert_eq!(op.cycles(), 2);

    let op = Op::parse(0x6C).unwrap();
    assert_eq!(op.mnemonic(), Mnemonic::Jmp);
    assert_eq!(op.mode(), Mode::Indirect);
    assert_eq!(op.cycles(), 5);

    let op = Op::parse(0x91).unwrap();
    assert_eq!(op.mnemonic(), Mnemonic::Sta);
    assert_eq!(op.mode(), Mode::IndirectY);
    assert_eq!(op.cycles(), 6);

    let op = Op::parse(0xF6).unwrap();
    assert_eq!(op.mnemonic(), Mnemonic::Inc);
    assert_eq!(op.mode(), Mode::ZeroPageX);
    assert_eq!(op.cycles(), 6);

    let op = Op::parse(0xF8).unwrap();
    assert_eq!(op.mnemonic(), Mnemonic::Sed);
    let op = Op::parse(0x78).unwrap();
    assert_eq!(op.mnemonic(), Mnemonic::Sei);
}

#[test]
fn unknown_opcodes_decode_to_none() {
    assert!(Op::parse(0x02).is_none());
    assert!(Op::parse(0xFF).is_none());
    assert!(Op::parse(0x80).is_none());
}

#[test]
fn the_table_covers_exactly_the_official_opcodes() {
    let mut count = 0;
    for opcode in 0..=255u8 {
        if Op::parse(opcode).is_some() {
            count += 1;
        }
    }
    assert_eq!(count, 151);
}

#[test]
fn flags_bits_layout() {
    let mut f = Flags::from_bits(0);
    assert_eq!(f.bits(), 0x00);
    f.carry = true;
    assert_eq!(f.bits(), 0x01);
    f.negative = true;
    assert_eq!(f.bits(), 0x81);

    let f = Flags::from_bits(0b0010_0101);
    assert!(f.carry && f.interrupt_disable && f.break_2);
    assert!(!f.zero && !f.decimal && !f.break_1 && !f.overflow && !f.negative);
}

#[test]
fn flags_round_trip_all_bytes() {
    for b in 0..=255u8 {
        assert_eq!(Flags::from_bits(b).bits(), b);
    }
}

#[test]
fn power_on_flags_byte() {
    assert_eq!(Flags::power_on().bits(), 0b0010_0100);
}
