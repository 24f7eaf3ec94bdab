//! Configuration of the driver: flow control and absent pins.

use vstd::prelude::*;

verus! {

/// A pin that is not connected: it reads high and ignores writes.
#[derive(Debug, Clone, Copy, PartialEq, Eq, Structural)]
pub struct NoPin;

impl NoPin {
    /// An absent input pin reads high.
    pub fn is_high(&self) -> (r: bool)
        ensures
            r,
    {
        true
    }

    /// An absent input pin never reads low.
    pub fn is_low(&self) -> (r: bool)
        ensures
            !r,
    {
        false
    }

    /// Driving an absent pin low does nothing.
    pub fn set_low(&mut self)
        ensures
            *final(self) == *old(self),
    {
    }

    /// Driving an absent pin high does nothing.
    pub fn set_high(&mut self)
        ensures
            *final(self) == *old(self),
    {
    }
}

/// Flow control on the serial interface to the module.
#[derive(Debug, Clone, Copy, PartialEq, Eq, Structural)]
pub enum FlowControl {
    /// No flow control.
    NoFlowControl,
    /// Hardware flow control on the RTS and CTS lines.
    RtsCts,
}

} // verus!
