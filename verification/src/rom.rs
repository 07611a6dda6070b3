//! iNES cartridge images: header validation and PRG ROM extraction.
//!
//! An iNES image starts with a 16-byte header: the magic "NES\x1A" at
//! offsets 0-3, the PRG ROM page count at offset 4, and a flags byte at
//! offset 6 whose bit 2 marks an optional 512-byte trainer between the
//! header and the PRG ROM.  The PRG ROM is 16384 bytes per page.

use vstd::prelude::*;

verus! {

/// Bytes of one PRG ROM page.
pub const PRG_ROM_PAGE_LEN: usize = 16384;

/// The fields of an iNES header that the emulator consumes.
#[derive(Clone, Copy, Debug, PartialEq, Eq, Structural)]
pub struct Header {
    /// Number of 16384-byte PRG ROM pages.
    pub prg_rom_npages: u8,
    /// Whether a 512-byte trainer precedes the PRG ROM.
    pub has_trainer: bool,
}

/// A parsed cartridge: its header and its PRG ROM bytes.
#[derive(Debug, PartialEq, Eq)]
pub struct Rom {
    pub header: Header,
    pub prg_rom: Vec<u8>,
}

/// Why an image was rejected.
#[derive(Clone, Copy, Debug, PartialEq, Eq, Structural)]
pub enum ParseError {
    /// The header is missing, carries the wrong magic, or promises more
    /// bytes than the image holds.
    Header,
}

/// Whether the image starts with the 16-byte header and the "NES\x1A" magic.
pub open spec fn ines_magic_ok(b: Seq<u8>) -> bool {
    b.len() >= 16 && b[0] == 0x4Eu8 && b[1] == 0x45u8 && b[2] == 0x53u8 && b[3] == 0x1Au8
}

/// The PRG ROM page count of an image (header offset 4).
pub open spec fn ines_npages(b: Seq<u8>) -> u8 {
    b[4]
}

/// Whether the image carries a 512-byte trainer (bit 2 of header offset 6).
pub open spec fn ines_has_trainer(b: Seq<u8>) -> bool {
    b[6] & 0x04 != 0
}

/// The offset at which the PRG ROM starts.
pub open spec fn ines_prg_start(b: Seq<u8>) -> int {
    16 + if ines_has_trainer(b) {
        512int
    } else {
        0int
    }
}

/// The byte length of the PRG ROM the header promises.
pub open spec fn ines_prg_len(b: Seq<u8>) -> int {
    ines_npages(b) * 16384
}

/// Whether the image is well-formed: magic present and large enough to hold
/// the PRG ROM it promises.
pub open spec fn ines_ok(b: Seq<u8>) -> bool {
    ines_magic_ok(b) && b.len() >= ines_prg_start(b) + ines_prg_len(b)
}

/// Parses an iNES image.  Succeeds exactly on well-formed images, and then
/// yields the header fields and the PRG ROM bytes.
pub fn parse(bytes: &[u8]) -> (rom: Result<Rom, ParseError>)
    ensures
        rom is Ok <==> ines_ok(bytes@),
        rom matches Ok(r) ==> {
            &&& r.header.prg_rom_npages == ines_npages(bytes@)
            &&& r.header.has_trainer == ines_has_trainer(bytes@)
            &&& r.prg_rom@ == bytes@.subrange(
                ines_prg_start(bytes@),
                ines_prg_start(bytes@) + ines_prg_len(bytes@),
            )
        },
{
    if bytes.len() < 16 {
        return Err(ParseError::Header);
    }
    if !(bytes[0] == 0x4E && bytes[1] == 0x45 && bytes[2] == 0x53 && bytes[3] == 0x1A) {
        return Err(ParseError::Header);
    }

    let prg_rom_npages = bytes[4];
    let has_trainer = bytes[6] & 0b100 != 0;
    let prg_rom_start: usize = if has_trainer {
        16 + 512
    } else {
        16
    };
    let prg_rom_size: usize = (prg_rom_npages as usize) * PRG_ROM_PAGE_LEN;

    if bytes.len() < prg_rom_start || bytes.len() - prg_rom_start < prg_rom_size {
        return Err(ParseError::Header);
    }

    let mut prg_rom: Vec<u8> = Vec::new();
    let mut i: usize = 0;
    while i < prg_rom_size
        invariant
            prg_rom@.len() == i,
            i <= prg_rom_size,
            prg_rom_start + prg_rom_size <= bytes@.len(),
            prg_rom_size == ines_prg_len(bytes@),
            prg_rom_start == ines_prg_start(bytes@),
            forall|j: int| 0 <= j < i ==> prg_rom@[j] == bytes@[prg_rom_start + j],
        decreases prg_rom_size - i,
    {
        prg_rom.push(bytes[prg_rom_start + i]);
        i = i + 1;
    }

    proof {
        assert(prg_rom@ =~= bytes@.subrange(
            ines_prg_start(bytes@),
            ines_prg_start(bytes@) + ines_prg_len(bytes@),
        ));
    }

    Ok(Rom { header: Header { prg_rom_npages, has_trainer }, prg_rom })
}

} // verus!
