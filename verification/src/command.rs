//! The configuration record that a caller builds and the driver consumes:
//! an immutable-update value type, plus the encoder for the config bits of
//! the frame's first byte.

use vstd::prelude::*;

use crate::Channel;

verus! {

/// Configurable command that can be sent to the device.
///
/// Every builder method takes the command by value and returns a changed
/// copy; a command that is sent stays usable afterwards.
#[derive(Debug, Copy, Clone, PartialEq, Eq, Structural)]
pub struct Command {
    /// The channel the command addresses.
    pub channel: Channel,
    /// Whether the value goes through the device's input buffer.
    pub buffered: bool,
    /// Whether the output amplifier gain is 2x instead of 1x.
    pub double_gain: bool,
    /// Whether the addressed channel is shut down.
    pub shutdown: bool,
    /// The numeric output value; its admissible range depends on the
    /// device's resolution and is checked at send time.
    pub value: u16,
}

impl Default for Command {
    /// Create a new command instance.
    ///
    /// Per default the command is on channel 0, unbuffered, with single
    /// gain, enabled and with value 0.
    fn default() -> (r: Self)
        ensures
            r == (Command {
                channel: Channel::Ch0,
                buffered: false,
                double_gain: false,
                shutdown: false,
                value: 0,
            }),
    {
        Command {
            channel: Channel::Ch0,
            buffered: false,
            double_gain: false,
            shutdown: false,
            value: 0,
        }
    }
}

impl Command {
    /// The command with the channel replaced.
    pub open spec fn spec_channel(self, channel: Channel) -> Command {
        Command { channel: channel, ..self }
    }

    /// The command with the shutdown flag set.
    pub open spec fn spec_shutdown(self) -> Command {
        Command { shutdown: true, ..self }
    }

    /// The command with the shutdown flag cleared.
    pub open spec fn spec_enable(self) -> Command {
        Command { shutdown: false, ..self }
    }

    /// The command with the buffered flag set.
    pub open spec fn spec_buffered(self) -> Command {
        Command { buffered: true, ..self }
    }

    /// The command with the buffered flag cleared.
    pub open spec fn spec_unbuffered(self) -> Command {
        Command { buffered: false, ..self }
    }

    /// The command with the gain flag set to 2x.
    pub open spec fn spec_double_gain(self) -> Command {
        Command { double_gain: true, ..self }
    }

    /// The command with the gain flag set to 1x.
    pub open spec fn spec_single_gain(self) -> Command {
        Command { double_gain: false, ..self }
    }

    /// The command with the value replaced.
    pub open spec fn spec_value(self, value: u16) -> Command {
        Command { value: value, ..self }
    }

    /// Select the channel.
    pub fn channel(self, channel: Channel) -> (r: Self)
        ensures
            r == self.spec_channel(channel),
    {
        let mut cmd = self;
        cmd.channel = channel;
        cmd
    }

    /// Shutdown the channel.
    pub fn shutdown(self) -> (r: Self)
        ensures
            r == self.spec_shutdown(),
    {
        let mut cmd = self;
        cmd.shutdown = true;
        cmd
    }

    /// Enable the channel (undo a shutdown).
    pub fn enable(self) -> (r: Self)
        ensures
            r == self.spec_enable(),
    {
        let mut cmd = self;
        cmd.shutdown = false;
        cmd
    }

    /// Send the value buffered.
    pub fn buffered(self) -> (r: Self)
        ensures
            r == self.spec_buffered(),
    {
        let mut cmd = self;
        cmd.buffered = true;
        cmd
    }

    /// Send the value unbuffered.
    pub fn unbuffered(self) -> (r: Self)
        ensures
            r == self.spec_unbuffered(),
    {
        let mut cmd = self;
        cmd.buffered = false;
        cmd
    }

    /// Send the value with double gain (2x).
    pub fn double_gain(self) -> (r: Self)
        ensures
            r == self.spec_double_gain(),
    {
        let mut cmd = self;
        cmd.double_gain = true;
        cmd
    }

    /// Send the value with single gain (1x).
    pub fn single_gain(self) -> (r: Self)
        ensures
            r == self.spec_single_gain(),
    {
        let mut cmd = self;
        cmd.double_gain = false;
        cmd
    }

    /// Set the value.
    pub fn value(self, value: u16) -> (r: Self)
        ensures
            r == self.spec_value(value),
    {
        let mut cmd = self;
        cmd.value = value;
        cmd
    }

    /// The config bits at the beginning of the frame: a base pattern with
    /// bits 5 and 4 set, bit 7 set for channel 1, bit 6 set for buffering,
    /// bit 5 cleared for double gain (active low) and bit 4 cleared for
    /// shutdown (active low).
    pub open spec fn spec_config_bits(self) -> u8 {
        let base = 0b0011_0000u8;
        let with_channel = if self.channel != Channel::Ch0 {
            base | 0b1000_0000u8
        } else {
            base
        };
        let with_buffer = if self.buffered {
            with_channel | 0b0100_0000u8
        } else {
            with_channel
        };
        let with_gain = if self.double_gain {
            with_buffer & 0b1101_1111u8
        } else {
            with_buffer
        };
        if self.shutdown {
            with_gain & 0b1110_1111u8
        } else {
            with_gain
        }
    }

    /// Get the config bits at the beginning of the command.
    pub fn get_config_bits(self) -> (r: u8)
        ensures
            r == self.spec_config_bits(),
    {
        let mut value: u8 = 0b0011_0000;
        if self.channel != Channel::Ch0 {
            value |= 0b1000_0000;
        }
        if self.buffered {
            value |= 0b0100_0000;
        }
        if self.double_gain {
            value &= 0b1101_1111;
        }
        if self.shutdown {
            value &= 0b1110_1111;
        }
        value
    }
}

/// Builder methods are idempotent: applying one twice gives the same
/// command as applying it once.
pub proof fn lemma_builders_idempotent(c: Command, channel: Channel, value: u16)
    ensures
        c.spec_channel(channel).spec_channel(channel) == c.spec_channel(channel),
        c.spec_shutdown().spec_shutdown() == c.spec_shutdown(),
        c.spec_enable().spec_enable() == c.spec_enable(),
        c.spec_buffered().spec_buffered() == c.spec_buffered(),
        c.spec_unbuffered().spec_unbuffered() == c.spec_unbuffered(),
        c.spec_double_gain().spec_double_gain() == c.spec_double_gain(),
        c.spec_single_gain().spec_single_gain() == c.spec_single_gain(),
        c.spec_value(value).spec_value(value) == c.spec_value(value),
{
}

/// Enabling a command that was not shut down to begin with undoes a
/// shutdown exactly: the original command comes back.
pub proof fn lemma_enable_undoes_shutdown(c: Command)
    requires
        !c.shutdown,
    ensures
        c.spec_shutdown().spec_enable() == c,
{
}

/// The config bits only ever occupy the top four bit positions of the
/// byte; the low nibble stays clear for the packed value's high bits.
pub proof fn lemma_config_bits_high_nibble_only(c: Command)
    ensures
        c.spec_config_bits() & 0x0f == 0,
{
    let base = 0b0011_0000u8;
    let with_channel = if c.channel != Channel::Ch0 {
        base | 0b1000_0000u8
    } else {
        base
    };
    let with_buffer = if c.buffered {
        with_channel | 0b0100_0000u8
    } else {
        with_channel
    };
    let with_gain = if c.double_gain {
        with_buffer & 0b1101_1111u8
    } else {
        with_buffer
    };
    let full = if c.shutdown {
        with_gain & 0b1110_1111u8
    } else {
        with_gain
    };
    assert(full & 0x0f == 0) by (bit_vector)
        requires
            with_channel == 0b0011_0000u8 || with_channel == 0b0011_0000u8 | 0b1000_0000u8,
            with_buffer == with_channel || with_buffer == with_channel | 0b0100_0000u8,
            with_gain == with_buffer || with_gain == with_buffer & 0b1101_1111u8,
            full == with_gain || full == with_gain & 0b1110_1111u8,
    ;
    assert(c.spec_config_bits() == full);
}

} // verus!
