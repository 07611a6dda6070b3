//! The 6502 status register.
//!
//! Each flag is stored as a named boolean; [`Flags::bits`] and
//! [`Flags::from_bits`] convert to and from the packed byte layout used by
//! the hardware (CARRY=bit0, ZERO=bit1, INTERRUPT_DISABLE=bit2, DECIMAL=bit3,
//! BREAK1=bit4, BREAK2=bit5, OVERFLOW=bit6, NEGATIVE=bit7).  The packed form
//! only matters where a status byte crosses the bus: PHP/PLP/RTI.

use vstd::prelude::*;

verus! {

/// The processor status flags.
///
/// BREAK2 is always set in the live status register of a running CPU;
/// BREAK1 is only meaningful in copies of the status byte pushed on the
/// stack (both are forced set in the byte pushed by PHP).
#[derive(Clone, Copy, Debug, PartialEq, Eq, Structural)]
pub struct Flags {
    /// Unsigned carry out (bit 0).
    pub carry: bool,
    /// Result was zero (bit 1).
    pub zero: bool,
    /// Interrupts disabled (bit 2).
    pub interrupt_disable: bool,
    /// Decimal mode (bit 3); ADC/SBC ignore it on the NES 2A03 variant.
    pub decimal: bool,
    /// Break flag as seen in stacked status bytes (bit 4).
    pub break_1: bool,
    /// Always-set flag of the live status register (bit 5).
    pub break_2: bool,
    /// Signed overflow (bit 6).
    pub overflow: bool,
    /// Result was negative, i.e. bit 7 of the result was set (bit 7).
    pub negative: bool,
}

impl Flags {
    /// The flag state at power-on: only INTERRUPT_DISABLE and BREAK2 set.
    #[verifier::allow_in_spec]
    pub fn power_on() -> Flags
        returns
            (Flags {
                carry: false,
                zero: false,
                interrupt_disable: true,
                decimal: false,
                break_1: false,
                break_2: true,
                overflow: false,
                negative: false,
            }),
    {
        Flags {
            carry: false,
            zero: false,
            interrupt_disable: true,
            decimal: false,
            break_1: false,
            break_2: true,
            overflow: false,
            negative: false,
        }
    }

    /// Packs the flags into the hardware byte layout.
    #[verifier::allow_in_spec]
    pub fn bits(&self) -> u8
        returns
            (((if self.carry { 0x01u8 } else { 0u8 }) + (if self.zero { 0x02u8 } else { 0u8 })
                + (if self.interrupt_disable { 0x04u8 } else { 0u8 })
                + (if self.decimal { 0x08u8 } else { 0u8 })
                + (if self.break_1 { 0x10u8 } else { 0u8 })
                + (if self.break_2 { 0x20u8 } else { 0u8 })
                + (if self.overflow { 0x40u8 } else { 0u8 })
                + (if self.negative { 0x80u8 } else { 0u8 })) as u8),
    {
        (if self.carry { 0x01u8 } else { 0u8 }) + (if self.zero { 0x02u8 } else { 0u8 })
            + (if self.interrupt_disable { 0x04u8 } else { 0u8 })
            + (if self.decimal { 0x08u8 } else { 0u8 })
            + (if self.break_1 { 0x10u8 } else { 0u8 })
            + (if self.break_2 { 0x20u8 } else { 0u8 })
            + (if self.overflow { 0x40u8 } else { 0u8 })
            + (if self.negative { 0x80u8 } else { 0u8 })
    }

    /// Unpacks a status byte; every bit of the byte is significant.
    #[verifier::allow_in_spec]
    pub fn from_bits(bits: u8) -> Flags
        returns
            (Flags {
                carry: bits & 0x01 != 0,
                zero: bits & 0x02 != 0,
                interrupt_disable: bits & 0x04 != 0,
                decimal: bits & 0x08 != 0,
                break_1: bits & 0x10 != 0,
                break_2: bits & 0x20 != 0,
                overflow: bits & 0x40 != 0,
                negative: bits & 0x80 != 0,
            }),
    {
        Flags {
            carry: bits & 0x01 != 0,
            zero: bits & 0x02 != 0,
            interrupt_disable: bits & 0x04 != 0,
            decimal: bits & 0x08 != 0,
            break_1: bits & 0x10 != 0,
            break_2: bits & 0x20 != 0,
            overflow: bits & 0x40 != 0,
            negative: bits & 0x80 != 0,
        }
    }
}

/// Packing then unpacking a flag state gives the flags back.
pub proof fn lemma_flags_bits_round_trip(f: Flags)
    ensures
        Flags::from_bits(f.bits()) == f,
{
    let c = f.carry;
    let z = f.zero;
    let i = f.interrupt_disable;
    let d = f.decimal;
    let b1 = f.break_1;
    let b2 = f.break_2;
    let v = f.overflow;
    let n = f.negative;
    let b = f.bits();
    assert((b & 0x01 != 0) == c && (b & 0x02 != 0) == z && (b & 0x04 != 0) == i && (b & 0x08 != 0)
        == d && (b & 0x10 != 0) == b1 && (b & 0x20 != 0) == b2 && (b & 0x40 != 0) == v && (b & 0x80
        != 0) == n) by (bit_vector)
        requires
            b == (((if c { 0x01u8 } else { 0u8 }) + (if z { 0x02u8 } else { 0u8 }) + (if i { 0x04u8 } else { 0u8 })
                + (if d { 0x08u8 } else { 0u8 }) + (if b1 { 0x10u8 } else { 0u8 })
                + (if b2 { 0x20u8 } else { 0u8 }) + (if v { 0x40u8 } else { 0u8 })
                + (if n { 0x80u8 } else { 0u8 })) as u8),
    ;
}

} // verus!
