//! The seal that closes the capability policy traits: only the marker
//! types may implement them.

use vstd::prelude::*;

verus! {

/// Supertrait of the capability policy traits, so that no type outside
/// this crate can implement them.
pub trait Sealed {}

impl Sealed for crate::marker::Resolution12Bit {

}

impl Sealed for crate::marker::Resolution10Bit {

}

impl Sealed for crate::marker::Resolution8Bit {

}

impl Sealed for crate::marker::SingleChannel {

}

impl Sealed for crate::marker::DualChannel {

}

impl Sealed for crate::marker::Buffered {

}

impl Sealed for crate::marker::Unbuffered {

}

} // verus!
