//! The NES address-decoding bus: what the console maps into the CPU's
//! 16-bit address space.
//!
//! 0x0000-0x1FFF is 2 KiB of RAM mirrored four times (address & 0x07FF);
//! 0x4016 and 0x4017 are the two gamepads; 0x8000-0xFFFF is PRG ROM, with a
//! single 16 KiB bank mirrored into both halves.  The PPU registers at
//! 0x2000-0x3FFF and the remaining APU/IO range are not emulated, and
//! writes to ROM are rejected: the address ranges these operations accept
//! say so.
//!
//! Because RAM is mirrored, one write changes what four addresses read;
//! this bus therefore has its own exact contracts instead of the
//! single-point-update law of [`crate::cpu::Bus`], and a host shell that
//! drives the CPU with it carries the glue.

use vstd::prelude::*;

use crate::joypad::Joypad;

verus! {

/// The console's memory map: RAM, PRG ROM and the two gamepads.
pub struct NesBus {
    pub ram: Vec<u8>,
    pub prg_rom: Vec<u8>,
    pub joypad_1: Joypad,
    pub joypad_2: Joypad,
}

impl NesBus {
    /// The sizes the decoder relies on: 2 KiB of RAM and one or two 16 KiB
    /// PRG ROM banks.
    pub open spec fn wf(self) -> bool {
        &&& self.ram@.len() == 0x0800
        &&& (self.prg_rom@.len() == 0x4000 || self.prg_rom@.len() == 0x8000)
    }

    /// Whether the console maps the address for reading.
    pub open spec fn readable(address: u16) -> bool {
        ||| address < 0x2000
        ||| address == 0x4016
        ||| address == 0x4017
        ||| address >= 0x8000
    }

    /// Whether the console maps the address for writing: RAM and the
    /// gamepad registers; ROM writes are rejected.
    pub open spec fn writable(address: u16) -> bool {
        ||| address < 0x2000
        ||| address == 0x4016
        ||| address == 0x4017
    }

    /// The byte a read of a mapped address returns: RAM through the
    /// mirror mask, 0 from the gamepads (whose shift protocol is not
    /// modelled), and PRG ROM through the bank mirror.
    pub open spec fn decoded(self, address: u16) -> u8
        recommends
            self.wf(),
            NesBus::readable(address),
    {
        if address < 0x2000 {
            self.ram@[(address & 0x07FF) as int]
        } else if address == 0x4016 || address == 0x4017 {
            0
        } else {
            self.prg_rom@[(address - 0x8000) as int % self.prg_rom@.len() as int]
        }
    }

    /// A bus with zeroed RAM, the given PRG ROM and idle gamepads.
    pub fn new(prg_rom: Vec<u8>) -> (bus: NesBus)
        requires
            prg_rom@.len() == 0x4000 || prg_rom@.len() == 0x8000,
        ensures
            bus.wf(),
            bus.prg_rom == prg_rom,
            forall|j: int| 0 <= j < 0x0800 ==> bus.ram@[j] == 0u8,
    {
        let mut ram: Vec<u8> = Vec::new();
        let mut i: usize = 0;
        while i < 0x0800
            invariant
                ram@.len() == i,
                i <= 0x0800,
                forall|j: int| 0 <= j < i ==> ram@[j] == 0u8,
            decreases 0x0800 - i,
        {
            ram.push(0);
            i = i + 1;
        }
        NesBus { ram, prg_rom, joypad_1: Joypad::new(), joypad_2: Joypad::new() }
    }

    /// Reads one byte of the console's address space.
    pub fn read_u8(&mut self, address: u16) -> (data: u8)
        requires
            old(self).wf(),
            NesBus::readable(address),
        ensures
            *final(self) == *old(self),
            data == old(self).decoded(address),
    {
        if address < 0x2000 {
            let index = address & 0x07FF;
            proof {
                assert(address & 0x07FF < 0x0800) by (bit_vector);
            }
            self.ram[index as usize]
        } else if address == 0x4016 {
            self.joypad_1.read_u8()
        } else if address == 0x4017 {
            self.joypad_2.read_u8()
        } else {
            let offset = (address - 0x8000) as usize % self.prg_rom.len();
            self.prg_rom[offset]
        }
    }

    /// Writes one byte to RAM or a gamepad register; the RAM write lands
    /// at the mirrored index, so all four mirrors of the address see it.
    pub fn write_u8(&mut self, address: u16, data: u8)
        requires
            old(self).wf(),
            NesBus::writable(address),
        ensures
            final(self).wf(),
            final(self).prg_rom == old(self).prg_rom,
            final(self).joypad_1 == old(self).joypad_1,
            final(self).joypad_2 == old(self).joypad_2,
            address < 0x2000 ==> final(self).ram@ == old(self).ram@.update(
                (address & 0x07FF) as int,
                data,
            ),
            address >= 0x2000 ==> final(self).ram == old(self).ram,
    {
        if address < 0x2000 {
            let index = address & 0x07FF;
            proof {
                assert(address & 0x07FF < 0x0800) by (bit_vector);
            }
            self.ram.set(index as usize, data);
        } else if address == 0x4016 {
            self.joypad_1.write_u8(data);
        } else {
            self.joypad_2.write_u8(data);
        }
    }
}

} // verus!
