//! The buffering policy: whether a buffered send is legal on a device with
//! the given buffering capability.

use vstd::prelude::*;

use crate::marker::{Buffered, Unbuffered};
use crate::private::Sealed;
use crate::Error;

verus! {

/// The buffering policy of a device: whether buffered commands are legal.
pub trait BufferingSupport<CommE, PinE>: Sealed {
    /// Whether a command with the given buffered flag is legal.
    spec fn buffering_is_appropriate(buffered: bool) -> bool;

    /// Check that a command with the given buffered flag is legal.
    fn check_buffering_is_appropriate(buffered: bool) -> (r: Result<(), Error<CommE, PinE>>)
        ensures
            r == (if Self::buffering_is_appropriate(buffered) {
                Ok::<(), Error<CommE, PinE>>(())
            } else {
                Err(Error::BufferingNotSupported)
            }),
    ;
}

impl<CommE, PinE> BufferingSupport<CommE, PinE> for Buffered {
    open spec fn buffering_is_appropriate(buffered: bool) -> bool {
        true
    }

    fn check_buffering_is_appropriate(buffered: bool) -> (r: Result<(), Error<CommE, PinE>>) {
        Ok(())
    }
}

impl<CommE, PinE> BufferingSupport<CommE, PinE> for Unbuffered {
    open spec fn buffering_is_appropriate(buffered: bool) -> bool {
        !buffered
    }

    fn check_buffering_is_appropriate(buffered: bool) -> (r: Result<(), Error<CommE, PinE>>) {
        if buffered {
            Err(Error::BufferingNotSupported)
        } else {
            Ok(())
        }
    }
}

} // verus!
