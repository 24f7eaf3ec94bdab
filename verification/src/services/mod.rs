//! Services offered on top of a registered module.

pub mod data;
pub mod location;
