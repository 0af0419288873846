//! The channel policy: whether a requested channel exists on a device with
//! the given channel count.

use vstd::prelude::*;

use crate::marker::{DualChannel, SingleChannel};
use crate::private::Sealed;
use crate::{Channel, Error};

verus! {

/// The channel policy of a device: which channels a command may address.
pub trait ChannelSupport<CommE, PinE>: Sealed {
    /// Whether the device has the given channel.
    spec fn channel_is_appropriate(channel: Channel) -> bool;

    /// Check that the device has the given channel.
    fn check_channel_is_appropriate(channel: Channel) -> (r: Result<(), Error<CommE, PinE>>)
        ensures
            r == (if Self::channel_is_appropriate(channel) {
                Ok::<(), Error<CommE, PinE>>(())
            } else {
                Err(Error::InvalidChannel)
            }),
    ;
}

impl<CommE, PinE> ChannelSupport<CommE, PinE> for SingleChannel {
    open spec fn channel_is_appropriate(channel: Channel) -> bool {
        channel == Channel::Ch0
    }

    fn check_channel_is_appropriate(channel: Channel) -> (r: Result<(), Error<CommE, PinE>>) {
        if channel != Channel::Ch0 {
            Err(Error::InvalidChannel)
        } else {
            Ok(())
        }
    }
}

impl<CommE, PinE> ChannelSupport<CommE, PinE> for DualChannel {
    open spec fn channel_is_appropriate(channel: Channel) -> bool {
        true
    }

    fn check_channel_is_appropriate(channel: Channel) -> (r: Result<(), Error<CommE, PinE>>) {
        Ok(())
    }
}

} // verus!
