//! Driver logic for u-blox cellular modules that speak the AT command set.

pub mod client;
pub mod command;
pub mod config;
pub mod error;
pub mod hex;
pub mod module_timing;
pub mod network;
pub mod power;
pub mod registration;
pub mod services;
pub mod text;
pub mod socket;
pub mod time;
