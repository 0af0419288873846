use vstd::prelude::Seq;

use mcp49xx::interface::WriteCommand;
use mcp49xx::{Channel, Command, Error, Mcp49xx};

/// A transport that records every frame it is asked to transmit and can
/// be told to fail with a fixed transport error.
struct MockTransport {
    frames: Vec<(u8, u8)>,
    fail_with: Option<Error<u8, u8>>,
}

impl MockTransport {
    fn new() -> Self {
        MockTransport { frames: Vec::new(), fail_with: None }
    }

    fn failing(error: Error<u8, u8>) -> Self {
        MockTransport { frames: Vec::new(), fail_with: Some(error) }
    }
}

impl WriteCommand for MockTransport {
    type CommError = u8;
    type PinError = u8;

    // Ghost state, never evaluated at run time.
    fn frames(&self) -> Seq<(u8, u8)> {
        unreachable!()
    }

    fn write_command(&mut self, command: u8, data: u8) -> Result<(), Error<u8, u8>> {
        self.frames.push((command, data));
        match self.fail_with {
            Some(Error::Comm(e)) => Err(Error::Comm(e)),
            Some(Error::Pin(e)) => Err(Error::Pin(e)),
            _ => Ok(()),
        }
    }
}

#[test]
fn integration_matches() {
    let result: Result<(), Error<(), ()>> = Err(Error::InvalidValue);
    match result {
        Err(Error::InvalidValue) => (),
        _ => panic!("Error not reported."),
    }
}

#[should_panic]
#[test]
fn integration_can_fail() {
    let result: Result<(), Error<(), ()>> = Ok(());
    match result {
        Err(Error::InvalidValue) => (),
        _ => panic!("Error not reported."),
    }
}

#[test]
fn send_default_command() {
    let mut dac = Mcp49xx::new_mcp4922(MockTransport::new());
    dac.send(Command::default()).unwrap();
    let transport = dac.destroy();
    assert_eq!(transport.frames, vec![(0b0011_0000, 0b0000_0000)]);
}

#[test]
fn send_double_gain_command() {
    let mut dac = Mcp49xx::new_mcp4922(MockTransport::new());
    dac.send(Command::default().double_gain()).unwrap();
    let transport = dac.destroy();
    assert_eq!(transport.frames, vec![(0b0001_0000, 0b0000_0000)]);
}

#[test]
fn send_shutdown_command() {
    let mut dac = Mcp49xx::new_mcp4922(MockTransport::new());
    dac.send(Command::default().shutdown()).unwrap();
    let transport = dac.destroy();
    assert_eq!(transport.frames, vec![(0b0010_0000, 0b0000_0000)]);
}

#[test]
fn send_buffered_command() {
    let mut dac = Mcp49xx::new_mcp4922(MockTransport::new());
    dac.send(Command::default().buffered()).unwrap();
    let transport = dac.destroy();
    assert_eq!(transport.frames, vec![(0b0111_0000, 0b0000_0000)]);
}

#[test]
fn send_channel_one_on_dual_device() {
    let mut dac = Mcp49xx::new_mcp4922(MockTransport::new());
    dac.send(Command::default().channel(Channel::Ch1)).unwrap();
    let transport = dac.destroy();
    assert_eq!(transport.frames, vec![(0b1011_0000, 0b0000_0000)]);
}

#[test]
fn send_value_on_12bit_device() {
    let mut dac = Mcp49xx::new_mcp4922(MockTransport::new());
    dac.send(Command::default().value(0b0000_1010_1010_1011)).unwrap();
    let transport = dac.destroy();
    assert_eq!(transport.frames, vec![(0b0011_1010, 0b1010_1011)]);
}

#[test]
fn send_value_on_10bit_device() {
    let mut dac = Mcp49xx::new_mcp4912(MockTransport::new());
    dac.send(Command::default().value(0b0000_0010_1010_1011)).unwrap();
    let transport = dac.destroy();
    assert_eq!(transport.frames, vec![(0b0011_1010, 0b1010_1100)]);
}

#[test]
fn send_value_on_8bit_device() {
    let mut dac = Mcp49xx::new_mcp4902(MockTransport::new());
    dac.send(Command::default().value(0b0000_0000_1010_1011)).unwrap();
    let transport = dac.destroy();
    assert_eq!(transport.frames, vec![(0b0011_1010, 0b1011_0000)]);
}

#[test]
fn send_max_value_of_each_resolution() {
    let mut dac12 = Mcp49xx::new_mcp4922(MockTransport::new());
    dac12.send(Command::default().value(4095)).unwrap();
    assert_eq!(dac12.destroy().frames, vec![(0b0011_1111, 0b1111_1111)]);

    let mut dac10 = Mcp49xx::new_mcp4912(MockTransport::new());
    dac10.send(Command::default().value(1023)).unwrap();
    assert_eq!(dac10.destroy().frames, vec![(0b0011_1111, 0b1111_1100)]);

    let mut dac8 = Mcp49xx::new_mcp4902(MockTransport::new());
    dac8.send(Command::default().value(255)).unwrap();
    assert_eq!(dac8.destroy().frames, vec![(0b0011_1111, 0b1111_0000)]);
}

#[test]
fn cannot_send_too_large_value() {
    let mut dac12 = Mcp49xx::new_mcp4922(MockTransport::new());
    assert_eq!(dac12.send(Command::default().value(1 << 12)), Err(Error::InvalidValue));
    assert_eq!(dac12.destroy().frames, vec![]);

    let mut dac10 = Mcp49xx::new_mcp4912(MockTransport::new());
    assert_eq!(dac10.send(Command::default().value(1 << 10)), Err(Error::InvalidValue));
    assert_eq!(dac10.destroy().frames, vec![]);

    let mut dac8 = Mcp49xx::new_mcp4902(MockTransport::new());
    assert_eq!(dac8.send(Command::default().value(1 << 8)), Err(Error::InvalidValue));
    assert_eq!(dac8.destroy().frames, vec![]);
}

#[test]
fn cannot_send_channel_one_on_single_channel_device() {
    let mut dac = Mcp49xx::new_mcp4921(MockTransport::new());
    assert_eq!(
        dac.send(Command::default().channel(Channel::Ch1)),
        Err(Error::InvalidChannel)
    );
    assert_eq!(dac.destroy().frames, vec![]);
}

#[test]
fn cannot_send_buffered_on_unbuffered_device() {
    let mut dac = Mcp49xx::new_mcp4822(MockTransport::new());
    assert_eq!(
        dac.send(Command::default().buffered()),
        Err(Error::BufferingNotSupported)
    );
    assert_eq!(dac.destroy().frames, vec![]);
}

#[test]
fn can_send_unbuffered_on_unbuffered_device() {
    let mut dac = Mcp49xx::new_mcp4822(MockTransport::new());
    dac.send(Command::default().unbuffered()).unwrap();
    assert_eq!(dac.destroy().frames, vec![(0b0011_0000, 0b0000_0000)]);
}

#[test]
fn checks_run_before_any_transmission() {
    // An oversized value on a device that also dislikes the channel:
    // the channel check comes first and nothing reaches the transport.
    let mut dac = Mcp49xx::new_mcp4921(MockTransport::new());
    let cmd = Command::default().channel(Channel::Ch1).value(1 << 12);
    assert_eq!(dac.send(cmd), Err(Error::InvalidChannel));
    assert_eq!(dac.destroy().frames, vec![]);
}

#[test]
fn transport_errors_propagate() {
    let mut dac = Mcp49xx::new_mcp4922(MockTransport::failing(Error::Comm(7)));
    assert_eq!(dac.send(Command::default()), Err(Error::Comm(7)));
    let mut dac = Mcp49xx::new_mcp4922(MockTransport::failing(Error::Pin(9)));
    assert_eq!(dac.send(Command::default()), Err(Error::Pin(9)));
}

#[test]
fn command_stays_usable_after_send() {
    let mut dac = Mcp49xx::new_mcp4922(MockTransport::new());
    let cmd = Command::default().value(42);
    dac.send(cmd).unwrap();
    dac.send(cmd).unwrap();
    let transport = dac.destroy();
    assert_eq!(transport.frames.len(), 2);
    assert_eq!(transport.frames[0], transport.frames[1]);
}
