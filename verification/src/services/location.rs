//! The location service of the device.

use vstd::prelude::*;

verus! {

/// Empty location service, to showcase how multiple services can be implemented!
#[derive(Debug, Clone, Copy, PartialEq, Eq, Structural)]
pub struct LocationService;

} // verus!
