//! The iNES parser and the gamepad.

use nes_emu::joypad::{BUTTON_A, BUTTON_B, BUTTON_START};
use nes_emu::rom::{parse, ParseError, PRG_ROM_PAGE_LEN};
use nes_emu::nes_bus::NesBus;
use nes_emu::Joypad;

fn ines_image(npages: u8, trainer: bool, fill: u8) -> Vec<u8> {
    let mut bytes = vec![0u8; 16];
    bytes[0] = 0x4E; // N
    bytes[1] = 0x45; // E
    bytes[2] = 0x53; // S
    bytes[3] = 0x1A;
    bytes[4] = npages;
    bytes[6] = if trainer { 0b100 } else { 0 };
    if trainer {
        bytes.extend(std::iter::repeat(0xEE).take(512));
    }
    bytes.extend(std::iter::repeat(fill).take(npages as usize * PRG_ROM_PAGE_LEN));
    bytes
}

#[test]
fn parse_accepts_a_two_page_image() {
    let image = ines_image(2, false, 0xAB);
    let rom = parse(&image).unwrap();
    assert_eq!(rom.header.prg_rom_npages, 2);
    assert!(!rom.header.has_trainer);
    assert_eq!(rom.prg_rom.len(), 2 * PRG_ROM_PAGE_LEN);
    assert!(rom.prg_rom.iter().all(|&b| b == 0xAB));
}

#[test]
fn parse_skips_the_trainer() {
    let image = ines_image(1, true, 0x31);
    let rom = parse(&image).unwrap();
    assert!(rom.header.has_trainer);
    assert_eq!(rom.prg_rom.len(), PRG_ROM_PAGE_LEN);
    // The 0xEE trainer bytes are not part of the PRG ROM.
    assert!(rom.prg_rom.iter().all(|&b| b == 0x31));
}

#[test]
fn parse_rejects_bad_magic() {
    let mut image = ines_image(1, false, 0);
    image[3] = 0x00;
    assert_eq!(parse(&image), Err(ParseError::Header));
}

#[test]
fn parse_rejects_short_images() {
    assert_eq!(parse(&[0x4E, 0x45, 0x53, 0x1A]), Err(ParseError::Header));
    // Header promises a page that is not there.
    let mut image = ines_image(1, false, 0);
    image.truncate(16 + PRG_ROM_PAGE_LEN - 1);
    assert_eq!(parse(&image), Err(ParseError::Header));
}

#[test]
fn joypad_press_and_release() {
    let mut pad = Joypad::new();
    assert_eq!(pad.button_status_flags, 0);
    pad.press(BUTTON_A | BUTTON_START);
    assert_eq!(pad.button_status_flags, BUTTON_A | BUTTON_START);
    pad.press(BUTTON_B);
    pad.release(BUTTON_START);
    assert_eq!(pad.button_status_flags, BUTTON_A | BUTTON_B);
}

#[test]
fn joypad_register_stubs() {
    let mut pad = Joypad::new();
    pad.press(BUTTON_A);
    let before = pad;
    assert_eq!(pad.read_u8(), 0);
    pad.write_u8(0x01);
    assert_eq!(pad, before);
}

#[test]
fn nes_bus_mirrors_ram_and_banks() {
    let mut prg = vec![0u8; 0x4000];
    prg[0x0000] = 0x11;
    prg[0x3FFF] = 0x22;
    let mut bus = NesBus::new(prg);

    // One RAM write is visible at all four mirrors.
    bus.write_u8(0x0005, 0xAB);
    assert_eq!(bus.read_u8(0x0005), 0xAB);
    assert_eq!(bus.read_u8(0x0805), 0xAB);
    assert_eq!(bus.read_u8(0x1005), 0xAB);
    assert_eq!(bus.read_u8(0x1805), 0xAB);

    // A single 16 KiB PRG bank appears in both halves of 0x8000-0xFFFF.
    assert_eq!(bus.read_u8(0x8000), 0x11);
    assert_eq!(bus.read_u8(0xC000), 0x11);
    assert_eq!(bus.read_u8(0xBFFF), 0x22);
    assert_eq!(bus.read_u8(0xFFFF), 0x22);

    // The gamepad registers read 0 and swallow writes.
    assert_eq!(bus.read_u8(0x4016), 0);
    bus.write_u8(0x4017, 0xFF);
    assert_eq!(bus.read_u8(0x4017), 0);
}
