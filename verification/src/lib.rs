//! Platform-agnostic driver for the MCP49xx and MCP48xx families of SPI
//! digital-to-analog converters.
//!
//! A caller builds a [`Command`] describing the wanted output (channel,
//! buffering, gain, shutdown and numeric value) and hands it to the driver's
//! `send`. The driver checks the command against the capabilities of the
//! concrete device (resolution, channel count, buffering support), packs the
//! value into the fixed two-byte frame of the protocol and asks the transport
//! to transmit it with chip select asserted.
//!
//! The capabilities are carried as type-level markers (see [`marker`]), one
//! triple per supported part number, so that a driver instance only accepts
//! the commands its physical device understands; what the types cannot rule
//! out (the value magnitude, the channel on a single-channel part, buffering
//! on an unbuffered part) is rejected at run time by `send`.

use vstd::prelude::*;

pub mod marker;
mod private;

pub mod interface;

mod buffering;
mod channel;
mod command;
mod construction;
mod resolution;

pub use crate::buffering::BufferingSupport;
pub use crate::channel::ChannelSupport;
pub use crate::command::{
    lemma_builders_idempotent,
    lemma_config_bits_high_nibble_only,
    lemma_enable_undoes_shutdown,
    Command,
};
pub use crate::resolution::{
    lemma_pack_round_trip,
    spi_high_byte,
    spi_low_byte,
    value_fits,
    ResolutionSupport,
};

verus! {

/// All possible errors in this crate.
#[derive(Debug, PartialEq)]
pub enum Error<CommE, PinE> {
    /// Communication error
    Comm(CommE),
    /// Pin error
    Pin(PinE),
    /// The channel provided is not available in the current device (MCP4xx1)
    InvalidChannel,
    /// The value provided does not fit the bitness of the current device
    InvalidValue,
    /// Buffering is not available in the current device (MCP48xx)
    BufferingNotSupported,
}

/// Channel selector.
#[derive(Debug, Clone, Copy, PartialEq, Eq, Structural)]
pub enum Channel {
    /// Channel 0
    Ch0,
    /// Channel 1 (only valid for dual channel devices, i.e. MCP4xx2)
    ///
    /// Sending a command on this channel to a single channel device will
    /// return an `Error::InvalidChannel`.
    Ch1,
}

/// The two-byte frame that a command produces on a device with the given
/// bit width: the config bits ORed with the packed value's high byte,
/// then the packed value's low byte.
pub open spec fn frame_bytes(command: Command, bits: u16) -> (u8, u8) {
    (
        command.spec_config_bits() | spi_high_byte(command.value, bits),
        spi_low_byte(command.value, bits),
    )
}

/// In the first frame byte the config bits and the packed value never
/// overlap: the byte's top nibble is exactly the config bits and its low
/// nibble is exactly the packed value's high bits.
pub proof fn lemma_frame_bits_disjoint(command: Command, bits: u16)
    requires
        bits == 8 || bits == 10 || bits == 12,
        value_fits(command.value, bits),
    ensures
        frame_bytes(command, bits).0 & 0xf0 == command.spec_config_bits(),
        frame_bytes(command, bits).0 & 0x0f == spi_high_byte(command.value, bits),
{
    lemma_config_bits_high_nibble_only(command);
    lemma_pack_round_trip(command.value, bits);
    let config = command.spec_config_bits();
    let hi = spi_high_byte(command.value, bits);
    assert((config | hi) & 0xf0 == config && (config | hi) & 0x0f == hi) by (bit_vector)
        requires
            config & 0x0f == 0,
            hi & 0xf0 == 0,
    ;
}

/// The transmitted frame is reversible: its first byte's top nibble is
/// exactly the command's config bits, and shifting the frame word's low
/// twelve bits back down by the resolution's alignment recovers the
/// command's value exactly.
pub proof fn lemma_frame_round_trip(command: Command, bits: u16)
    requires
        bits == 8 || bits == 10 || bits == 12,
        value_fits(command.value, bits),
    ensures
        frame_bytes(command, bits).0 & 0xf0 == command.spec_config_bits(),
        ((((frame_bytes(command, bits).0 & 0x0f) as u16) << 8u16) | (frame_bytes(
            command,
            bits,
        ).1 as u16)) >> ((12 - bits) as u16) == command.value,
{
    lemma_frame_bits_disjoint(command, bits);
    lemma_pack_round_trip(command.value, bits);
}

/// MCP49xx digital-to-analog converter driver.
///
/// The driver owns its transport exclusively and is parameterized by the
/// capability triple of the concrete part: resolution, channel count and
/// buffering support.
#[derive(Debug)]
pub struct Mcp49xx<DEV, RES, CH, BUF> {
    pub(crate) dev: DEV,
    pub(crate) _resolution: core::marker::PhantomData<RES>,
    pub(crate) _channels: core::marker::PhantomData<CH>,
    pub(crate) _buffering: core::marker::PhantomData<BUF>,
}

impl<DEV, RES, CH, BUF> Mcp49xx<DEV, RES, CH, BUF> {
    /// The transport owned by the driver.
    pub closed spec fn transport(&self) -> DEV {
        self.dev
    }
}

impl<DEV: interface::WriteCommand, RES, CH, BUF> Mcp49xx<DEV, RES, CH, BUF> {
    /// The frames the driver's transport was asked to transmit, in
    /// order.
    pub open spec fn frames(&self) -> Seq<(u8, u8)> {
        self.transport().frames()
    }
}

impl<DEV, RES, CH, BUF, CommE, PinE> Mcp49xx<DEV, RES, CH, BUF> where
    DEV: interface::WriteCommand<CommError = CommE, PinError = PinE>,
    RES: ResolutionSupport<CommE, PinE>,
    CH: ChannelSupport<CommE, PinE>,
    BUF: BufferingSupport<CommE, PinE>,
 {
    /// Send a command to the device.
    ///
    /// The command is checked against the device's capability triple
    /// before anything touches the transport: an inappropriate channel,
    /// value or buffered flag returns the matching error and the
    /// transport is never asked to transmit. Only a command that passes
    /// all three checks is packed into its two-byte frame and handed to
    /// the transport; a transmission failure comes back as the
    /// transport's error.
    pub fn send(&mut self, command: Command) -> (r: Result<(), Error<CommE, PinE>>)
        ensures
            !CH::channel_is_appropriate(command.channel) ==> {
                &&& r == Err::<(), Error<CommE, PinE>>(Error::InvalidChannel)
                &&& *final(self) == *old(self)
            },
            CH::channel_is_appropriate(command.channel) && !value_fits(command.value, RES::bits()) ==> {
                &&& r == Err::<(), Error<CommE, PinE>>(Error::InvalidValue)
                &&& *final(self) == *old(self)
            },
            CH::channel_is_appropriate(command.channel) && value_fits(command.value, RES::bits()) && !BUF::buffering_is_appropriate(command.buffered) ==> {
                &&& r == Err::<(), Error<CommE, PinE>>(Error::BufferingNotSupported)
                &&& *final(self) == *old(self)
            },
            CH::channel_is_appropriate(command.channel) && value_fits(command.value, RES::bits()) && BUF::buffering_is_appropriate(command.buffered) ==> {
                &&& final(self).frames() == old(self).frames().push(
                    frame_bytes(command, RES::bits()),
                )
                &&& r matches Err(e) ==> (e matches Error::Pin(_) || e matches Error::Comm(_))
            },
            r is Ok ==> CH::channel_is_appropriate(command.channel) && value_fits(command.value, RES::bits()) && BUF::buffering_is_appropriate(command.buffered),
    {
        if let Err(e) = CH::check_channel_is_appropriate(command.channel) {
            return Err(e);
        }
        if let Err(e) = RES::check_value_is_appropriate(command.value) {
            return Err(e);
        }
        if let Err(e) = BUF::check_buffering_is_appropriate(command.buffered) {
            return Err(e);
        }
        let value = RES::get_value_for_spi(command.value);
        let config = command.get_config_bits();
        self.dev.write_command(config | value[0], value[1])
    }
}

} // verus!
