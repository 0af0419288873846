//! The resolution policy: whether a value fits a device's bit width, and
//! how the value is packed into the two frame bytes.
//!
//! The device family interprets the frame's twelve-bit value field as
//! most-significant-bit-aligned, so an 8- or 10-bit value is shifted left
//! until its top bit sits just below the four config bits.

use vstd::prelude::*;

use crate::marker::{Resolution10Bit, Resolution12Bit, Resolution8Bit};
use crate::private::Sealed;
use crate::Error;

verus! {

/// Whether a value fits in the given bit width.
pub open spec fn value_fits(value: u16, bits: u16) -> bool {
    value < (1u16 << bits)
}

/// The first (high) frame byte of a packed value: the value's top four
/// bits, placed in the byte's low nibble.
pub open spec fn spi_high_byte(value: u16, bits: u16) -> u8 {
    (value >> ((bits - 4) as u16)) as u8
}

/// The second (low) frame byte of a packed value: the value's remaining
/// bits, left-justified into the byte.
pub open spec fn spi_low_byte(value: u16, bits: u16) -> u8 {
    ((value << ((12 - bits) as u16)) & 0xff) as u8
}

/// The resolution policy of a device: validation and packing of the
/// numeric value for the device's bit width.
pub trait ResolutionSupport<CommE, PinE>: Sealed {
    /// Bit width of the device's value field.
    spec fn bits() -> u16;

    /// The bit width is one of the three the family supports.
    proof fn bits_in_range()
        ensures
            Self::bits() == 8 || Self::bits() == 10 || Self::bits() == 12,
    ;

    /// Check that the value fits the device's bit width.
    fn check_value_is_appropriate(value: u16) -> (r: Result<(), Error<CommE, PinE>>)
        ensures
            r == (if value_fits(value, Self::bits()) {
                Ok::<(), Error<CommE, PinE>>(())
            } else {
                Err(Error::InvalidValue)
            }),
    ;

    /// Pack the value into the two frame bytes, left-justified in the
    /// twelve-bit field below the four config bits.
    fn get_value_for_spi(value: u16) -> (r: [u8; 2])
        ensures
            r[0] == spi_high_byte(value, Self::bits()),
            r[1] == spi_low_byte(value, Self::bits()),
    ;
}

impl<CommE, PinE> ResolutionSupport<CommE, PinE> for Resolution12Bit {
    open spec fn bits() -> u16 {
        12
    }

    proof fn bits_in_range() {
    }

    fn check_value_is_appropriate(value: u16) -> (r: Result<(), Error<CommE, PinE>>) {
        if value >= 1u16 << 12 {
            Err(Error::InvalidValue)
        } else {
            Ok(())
        }
    }

    fn get_value_for_spi(value: u16) -> (r: [u8; 2]) {
        proof {
            assert(((value << 0u16) & 0xff) as u8 == (value & 0xff) as u8) by (bit_vector);
        }
        [(value >> 8) as u8, (value & 0xff) as u8]
    }
}

impl<CommE, PinE> ResolutionSupport<CommE, PinE> for Resolution10Bit {
    open spec fn bits() -> u16 {
        10
    }

    proof fn bits_in_range() {
    }

    fn check_value_is_appropriate(value: u16) -> (r: Result<(), Error<CommE, PinE>>) {
        if value >= 1u16 << 10 {
            Err(Error::InvalidValue)
        } else {
            Ok(())
        }
    }

    fn get_value_for_spi(value: u16) -> (r: [u8; 2]) {
        [(value >> 6) as u8, ((value << 2) & 0xff) as u8]
    }
}

impl<CommE, PinE> ResolutionSupport<CommE, PinE> for Resolution8Bit {
    open spec fn bits() -> u16 {
        8
    }

    proof fn bits_in_range() {
    }

    fn check_value_is_appropriate(value: u16) -> (r: Result<(), Error<CommE, PinE>>) {
        if value >= 1u16 << 8 {
            Err(Error::InvalidValue)
        } else {
            Ok(())
        }
    }

    fn get_value_for_spi(value: u16) -> (r: [u8; 2]) {
        [(value >> 4) as u8, ((value << 4) & 0xff) as u8]
    }
}

/// Packing is reversible: for a value that fits the bit width, the packed
/// high byte keeps its top four bits clear, and shifting the sixteen-bit
/// frame word back down recovers the value exactly.
pub proof fn lemma_pack_round_trip(value: u16, bits: u16)
    requires
        bits == 8 || bits == 10 || bits == 12,
        value_fits(value, bits),
    ensures
        spi_high_byte(value, bits) & 0xf0 == 0,
        (((spi_high_byte(value, bits) as u16) << 8u16) | (spi_low_byte(value, bits) as u16)) >> ((
        12 - bits) as u16) == value,
{
    let hi_shift = (bits - 4) as u16;
    let lo_shift = (12 - bits) as u16;
    assert((bits == 8 && hi_shift == 4 && lo_shift == 4) || (bits == 10 && hi_shift == 6
        && lo_shift == 2) || (bits == 12 && hi_shift == 8 && lo_shift == 0));
    assert(((value >> hi_shift) as u8) & 0xf0 == 0 && (((((value >> hi_shift) as u8) as u16)
        << 8u16) | ((((value << lo_shift) & 0xff) as u8) as u16)) >> lo_shift == value)
        by (bit_vector)
        requires
            (bits == 8 && hi_shift == 4 && lo_shift == 4) || (bits == 10 && hi_shift == 6
                && lo_shift == 2) || (bits == 12 && hi_shift == 8 && lo_shift == 0),
            value < (1u16 << bits),
    ;
}

} // verus!
