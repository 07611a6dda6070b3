//! The 6502 register file.

use vstd::prelude::*;

use crate::flags::Flags;

verus! {

/// The six registers of the CPU.
///
/// `sp` indexes into the fixed stack page: the effective stack address is
/// `0x0100 + sp`.  All register arithmetic is modulo 2^8, and program
/// counter arithmetic modulo 2^16.
#[derive(Clone, Copy, Debug, PartialEq, Eq, Structural)]
pub struct Regs {
    /// Accumulator
    pub a: u8,
    /// Register X
    pub x: u8,
    /// Register Y
    pub y: u8,
    /// Program counter
    pub pc: u16,
    /// Stack pointer
    pub sp: u8,
    /// Status flags
    pub flags: Flags,
}

} // verus!
