//! One factory per concrete part number, producing the driver with the
//! matching capability triple, and the destructor that hands the owned
//! transport back.

use core::marker::PhantomData;

use vstd::prelude::*;

use crate::marker::{
    Buffered,
    DualChannel,
    Resolution10Bit,
    Resolution12Bit,
    Resolution8Bit,
    SingleChannel,
    Unbuffered,
};
use crate::Mcp49xx;

verus! {

impl<DEV, RES, CH, BUF> Mcp49xx<DEV, RES, CH, BUF> {
    /// Destroy driver instance, return the owned transport.
    pub fn destroy(self) -> (r: DEV)
        ensures
            r == self.transport(),
    {
        self.dev
    }
}

impl<DEV> Mcp49xx<DEV, Resolution8Bit, SingleChannel, Unbuffered> {
    /// Create a new instance of an MCP4801 device.
    pub fn new_mcp4801(transport: DEV) -> (r: Self)
        ensures
            r.transport() == transport,
    {
        Mcp49xx {
            dev: transport,
            _resolution: PhantomData,
            _channels: PhantomData,
            _buffering: PhantomData,
        }
    }
}

impl<DEV> Mcp49xx<DEV, Resolution8Bit, DualChannel, Unbuffered> {
    /// Create a new instance of an MCP4802 device.
    pub fn new_mcp4802(transport: DEV) -> (r: Self)
        ensures
            r.transport() == transport,
    {
        Mcp49xx {
            dev: transport,
            _resolution: PhantomData,
            _channels: PhantomData,
            _buffering: PhantomData,
        }
    }
}

impl<DEV> Mcp49xx<DEV, Resolution10Bit, SingleChannel, Unbuffered> {
    /// Create a new instance of an MCP4811 device.
    pub fn new_mcp4811(transport: DEV) -> (r: Self)
        ensures
            r.transport() == transport,
    {
        Mcp49xx {
            dev: transport,
            _resolution: PhantomData,
            _channels: PhantomData,
            _buffering: PhantomData,
        }
    }
}

impl<DEV> Mcp49xx<DEV, Resolution10Bit, DualChannel, Unbuffered> {
    /// Create a new instance of an MCP4812 device.
    pub fn new_mcp4812(transport: DEV) -> (r: Self)
        ensures
            r.transport() == transport,
    {
        Mcp49xx {
            dev: transport,
            _resolution: PhantomData,
            _channels: PhantomData,
            _buffering: PhantomData,
        }
    }
}

impl<DEV> Mcp49xx<DEV, Resolution12Bit, SingleChannel, Unbuffered> {
    /// Create a new instance of an MCP4821 device.
    pub fn new_mcp4821(transport: DEV) -> (r: Self)
        ensures
            r.transport() == transport,
    {
        Mcp49xx {
            dev: transport,
            _resolution: PhantomData,
            _channels: PhantomData,
            _buffering: PhantomData,
        }
    }
}

impl<DEV> Mcp49xx<DEV, Resolution12Bit, DualChannel, Unbuffered> {
    /// Create a new instance of an MCP4822 device.
    pub fn new_mcp4822(transport: DEV) -> (r: Self)
        ensures
            r.transport() == transport,
    {
        Mcp49xx {
            dev: transport,
            _resolution: PhantomData,
            _channels: PhantomData,
            _buffering: PhantomData,
        }
    }
}

impl<DEV> Mcp49xx<DEV, Resolution8Bit, SingleChannel, Buffered> {
    /// Create a new instance of an MCP4901 device.
    pub fn new_mcp4901(transport: DEV) -> (r: Self)
        ensures
            r.transport() == transport,
    {
        Mcp49xx {
            dev: transport,
            _resolution: PhantomData,
            _channels: PhantomData,
            _buffering: PhantomData,
        }
    }
}

impl<DEV> Mcp49xx<DEV, Resolution8Bit, DualChannel, Buffered> {
    /// Create a new instance of an MCP4902 device.
    pub fn new_mcp4902(transport: DEV) -> (r: Self)
        ensures
            r.transport() == transport,
    {
        Mcp49xx {
            dev: transport,
            _resolution: PhantomData,
            _channels: PhantomData,
            _buffering: PhantomData,
        }
    }
}

impl<DEV> Mcp49xx<DEV, Resolution10Bit, SingleChannel, Buffered> {
    /// Create a new instance of an MCP4911 device.
    pub fn new_mcp4911(transport: DEV) -> (r: Self)
        ensures
            r.transport() == transport,
    {
        Mcp49xx {
            dev: transport,
            _resolution: PhantomData,
            _channels: PhantomData,
            _buffering: PhantomData,
        }
    }
}

impl<DEV> Mcp49xx<DEV, Resolution10Bit, DualChannel, Buffered> {
    /// Create a new instance of an MCP4912 device.
    pub fn new_mcp4912(transport: DEV) -> (r: Self)
        ensures
            r.transport() == transport,
    {
        Mcp49xx {
            dev: transport,
            _resolution: PhantomData,
            _channels: PhantomData,
            _buffering: PhantomData,
        }
    }
}

impl<DEV> Mcp49xx<DEV, Resolution12Bit, SingleChannel, Buffered> {
    /// Create a new instance of an MCP4921 device.
    pub fn new_mcp4921(transport: DEV) -> (r: Self)
        ensures
            r.transport() == transport,
    {
        Mcp49xx {
            dev: transport,
            _resolution: PhantomData,
            _channels: PhantomData,
            _buffering: PhantomData,
        }
    }
}

impl<DEV> Mcp49xx<DEV, Resolution12Bit, DualChannel, Buffered> {
    /// Create a new instance of an MCP4922 device.
    pub fn new_mcp4922(transport: DEV) -> (r: Self)
        ensures
            r.transport() == transport,
    {
        Mcp49xx {
            dev: transport,
            _resolution: PhantomData,
            _channels: PhantomData,
            _buffering: PhantomData,
        }
    }
}

} // verus!
