//! Type-level markers for the capability triple of a device: resolution,
//! channel count and buffering support. They carry no data and exist only
//! to select the matching policy implementation at compile time.

use vstd::prelude::*;

verus! {

/// 12-Bit resolution device
pub struct Resolution12Bit(());

/// 10-Bit resolution device
pub struct Resolution10Bit(());

/// 8-Bit resolution device
pub struct Resolution8Bit(());

/// Single channel device
pub struct SingleChannel(());

/// Dual channel device
pub struct DualChannel(());

/// Device supports buffered commands
pub struct Buffered(());

/// Device does not support buffered commands
pub struct Unbuffered(());

} // verus!
