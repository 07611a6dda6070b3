//! The NES gamepad: button state and strobe latching.
//!
//! The CPU core only ever sees a gamepad through the bus addresses 0x4016
//! and 0x4017; this type carries the button state the host shell feeds in.
//! The serial register protocol behind `read_u8`/`write_u8` is not
//! modelled: reads report 0 and writes latch nothing, which is what the
//! emulator's bus exposes today.

use vstd::prelude::*;

verus! {

/// A set of buttons, one bit each, in the order the hardware shifts them
/// out: A, B, SELECT, START, UP, DOWN, LEFT, RIGHT from bit 0 up.
pub type ButtonFlags = u8;

pub const BUTTON_RIGHT: ButtonFlags = 0b1000_0000;

pub const BUTTON_LEFT: ButtonFlags = 0b0100_0000;

pub const BUTTON_DOWN: ButtonFlags = 0b0010_0000;

pub const BUTTON_UP: ButtonFlags = 0b0001_0000;

pub const BUTTON_START: ButtonFlags = 0b0000_1000;

pub const BUTTON_SELECT: ButtonFlags = 0b0000_0100;

pub const BUTTON_B: ButtonFlags = 0b0000_0010;

pub const BUTTON_A: ButtonFlags = 0b0000_0001;

/// One gamepad: its strobe latch and the buttons currently held.
#[derive(Clone, Copy, Debug, PartialEq, Eq, Structural)]
pub struct Joypad {
    pub is_strobe: bool,
    pub button_status_flags: ButtonFlags,
}

impl Joypad {
    /// A gamepad with no button held and the strobe low.
    pub fn new() -> (j: Joypad)
        ensures
            j.is_strobe == false,
            j.button_status_flags == 0,
    {
        Joypad { is_strobe: false, button_status_flags: 0 }
    }

    /// Holds the given buttons down, on top of those already held.
    pub fn press(&mut self, button_flags: ButtonFlags)
        ensures
            final(self).button_status_flags == old(self).button_status_flags | button_flags,
            final(self).is_strobe == old(self).is_strobe,
    {
        self.button_status_flags = self.button_status_flags | button_flags;
    }

    /// Releases the given buttons; others stay held.
    pub fn release(&mut self, button_flags: ButtonFlags)
        ensures
            final(self).button_status_flags == old(self).button_status_flags & !button_flags,
            final(self).is_strobe == old(self).is_strobe,
    {
        self.button_status_flags = self.button_status_flags & !button_flags;
    }

    /// Reads the gamepad register; the shift protocol is not modelled, so
    /// every read reports 0 and moves nothing.
    pub fn read_u8(&mut self) -> (data: u8)
        ensures
            data == 0,
            *final(self) == *old(self),
    {
        0
    }

    /// Writes the gamepad register; the strobe protocol is not modelled,
    /// so the write latches nothing.
    pub fn write_u8(&mut self, data: u8)
        ensures
            *final(self) == *old(self),
    {
    }
}

} // verus!
