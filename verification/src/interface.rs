//! The transport abstraction: "transmit one two-byte frame while chip
//! select is asserted", and the SPI-bus-plus-pin transmit operation that
//! platform code wraps into an implementation of it.

use vstd::prelude::*;

use crate::Error;

verus! {

/// Perform a command.
///
/// A transport carries a log of the frames it was asked to transmit, so
/// that a caller's contract can say exactly when a transmission was
/// requested and with which bytes. Platform code implements this trait
/// for its own SPI binding; [`SpiInterface`] supplies the transmit
/// operation for an `embedded_hal` bus-and-pin pair, ready to be wrapped
/// into such an implementation.
pub trait WriteCommand {
    /// Error type of the underlying bus.
    type CommError;

    /// Error type of the chip select pin.
    type PinError;

    /// The frames this transport was asked to transmit, in order.
    spec fn frames(&self) -> Seq<(u8, u8)>;

    /// Ask the transport to transmit the two-byte frame `(command, data)`
    /// with chip select asserted. The frame is logged whether or not the
    /// transmission succeeds; a failure shows in the returned error, a
    /// bus fault mapped to `Comm` and a pin fault to `Pin`.
    fn write_command(&mut self, command: u8, data: u8) -> (r: Result<
        (),
        Error<Self::CommError, Self::PinError>,
    >)
        ensures
            final(self).frames() == old(self).frames().push((command, data)),
            r matches Err(e) ==> (e matches Error::Pin(_) || e matches Error::Comm(_)),
    ;
}

/// SPI interface: a transport that owns both the bus handle and the chip
/// select pin and brackets every transfer with a chip select assert and
/// release.
pub struct SpiInterface<SPI, CS> {
    /// The SPI bus handle.
    pub(crate) spi: SPI,
    /// The chip select pin, driven low during a transfer.
    pub(crate) cs: CS,
    /// Log of the frames this interface was asked to transmit.
    pub(crate) log: Ghost<Seq<(u8, u8)>>,
}

impl<SPI, CS> SpiInterface<SPI, CS> {
    /// The SPI bus handle the interface owns.
    pub closed spec fn spi_part(&self) -> SPI {
        self.spi
    }

    /// The chip select pin the interface owns.
    pub closed spec fn cs_part(&self) -> CS {
        self.cs
    }

    /// The frames this interface was asked to transmit, in order.
    pub closed spec fn frames(&self) -> Seq<(u8, u8)> {
        self.log@
    }

    /// Wrap an SPI bus handle and a chip select pin into a transport.
    pub fn new(spi: SPI, cs: CS) -> (r: Self)
        ensures
            r.spi_part() == spi,
            r.cs_part() == cs,
            r.frames() == Seq::<(u8, u8)>::empty(),
    {
        SpiInterface { spi, cs, log: Ghost(Seq::empty()) }
    }

    /// Release the owned SPI bus handle and chip select pin, so that the
    /// caller can reuse them for another purpose.
    pub fn release(self) -> (r: (SPI, CS))
        ensures
            r.0 == self.spi_part(),
            r.1 == self.cs_part(),
    {
        (self.spi, self.cs)
    }
}

impl<SPI, CS, CommE, PinE> SpiInterface<SPI, CS> where
    SPI: embedded_hal::blocking::spi::Write<u8, Error = CommE>,
    CS: embedded_hal::digital::v2::OutputPin<Error = PinE>,
 {
    /// Transmit the two-byte frame `(command, data)`: assert chip select,
    /// write both bytes, release chip select (the release is attempted
    /// even when the write fails, so the bus is never left held). A pin
    /// fault comes back as `Pin`, a bus fault as `Comm`.
    ///
    /// Relies on `embedded_hal::digital::v2::OutputPin::{set_low, set_high}`
    /// to toggle the chip select line and on
    /// `embedded_hal::blocking::spi::Write::write` to send the two bytes;
    /// each call's error is passed on in the matching variant, and nothing
    /// more is assumed of the three calls.
    #[verifier::external_body]
    pub fn write_command(&mut self, command: u8, data: u8) -> (r: Result<(), Error<CommE, PinE>>)
        ensures
            final(self).frames() == old(self).frames().push((command, data)),
            r matches Err(e) ==> (e matches Error::Pin(_) || e matches Error::Comm(_)),
    {
        if let Err(e) = self.cs.set_low() {
            return Err(Error::Pin(e));
        }
        let payload: [u8; 2] = [command, data];
        let result = self.spi.write(&payload).map_err(Error::Comm);
        if let Err(e) = self.cs.set_high() {
            return Err(Error::Pin(e));
        }
        result
    }
}

} // verus!
