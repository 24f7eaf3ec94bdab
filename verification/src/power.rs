//! Power state of the module.

use crate::command::mobile_control::Functionality;
use crate::error::{Error, GenericError};
use vstd::prelude::*;

verus! {

/// Whether the module is powered.
#[derive(Debug, Clone, Copy, PartialEq, Eq, Structural)]
pub enum PowerState {
    Off,
    On,
}

/// The power state that the VINT pin shows when it is connected (`vint` is
/// its level), or else that the module answering AT commands (`alive`) shows.
pub fn power_state_of(vint: Option<bool>, alive: bool) -> (r: PowerState)
    ensures
        r == (match vint {
            Some(high) => if high {
                PowerState::On
            } else {
                PowerState::Off
            },
            None => if alive {
                PowerState::On
            } else {
                PowerState::Off
            },
        }),
{
    match vint {
        Some(high) => if high {
            PowerState::On
        } else {
            PowerState::Off
        },
        None => if alive {
            PowerState::On
        } else {
            PowerState::Off
        },
    }
}

/// How to power the module on.
#[derive(Debug, Clone, Copy, PartialEq, Eq, Structural)]
pub enum PowerOnPlan {
    /// The module is on already.
    AlreadyOn,
    /// Pulse the `PWR_ON` pin low, then wait for the module to come up.
    PulsePowerPin,
    /// Without a power pin: reset the module softly (and hard if that fails).
    SoftReset,
}

/// How to power on a module in state `state`, with or without a power pin.
pub fn power_on_plan(state: PowerState, has_power_pin: bool) -> (r: PowerOnPlan)
    ensures
        state == PowerState::On ==> r == PowerOnPlan::AlreadyOn,
        state != PowerState::On && has_power_pin ==> r == PowerOnPlan::PulsePowerPin,
        state != PowerState::On && !has_power_pin ==> r == PowerOnPlan::SoftReset,
{
    if state == PowerState::On {
        PowerOnPlan::AlreadyOn
    } else if has_power_pin {
        PowerOnPlan::PulsePowerPin
    } else {
        PowerOnPlan::SoftReset
    }
}

/// Whether to pulse the power pin to switch a module in state `state` off
/// hard: only an on module is switched off, and only through a power pin
/// (`Err(Generic(Unsupported))` without one).
pub fn hard_power_off_plan(state: PowerState, has_power_pin: bool) -> (r: Result<bool, Error>)
    ensures
        state != PowerState::On ==> r == Ok::<bool, Error>(false),
        state == PowerState::On && has_power_pin ==> r == Ok::<bool, Error>(true),
        state == PowerState::On && !has_power_pin ==> r == Err::<bool, Error>(
            Error::Generic(GenericError::Unsupported),
        ),
{
    if state != PowerState::On {
        Ok(false)
    } else if has_power_pin {
        Ok(true)
    } else {
        Err(Error::Generic(GenericError::Unsupported))
    }
}

/// The functionality that resets the module softly, with or without a
/// reset of the SIM card.
pub fn soft_reset_functionality(sim_reset: bool) -> (r: Functionality)
    ensures
        r == (if sim_reset {
            Functionality::SilentResetWithSimReset
        } else {
            Functionality::SilentReset
        }),
{
    if sim_reset {
        Functionality::SilentResetWithSimReset
    } else {
        Functionality::SilentReset
    }
}

/// The outcome of waiting for the module to reach the power state
/// `expected`: reached (`Ok`), still worth waiting for while less than the
/// timeout has passed (`None` asks to poll again), or `Err(Generic(Timeout))`.
pub fn power_wait_step(current: PowerState, expected: PowerState, elapsed_ms: u64, timeout_ms: u64) -> (r: Option<
    Result<(), Error>,
>)
    ensures
        elapsed_ms >= timeout_ms ==> r == Some(Err::<(), Error>(Error::Generic(GenericError::Timeout))),
        elapsed_ms < timeout_ms && current == expected ==> r == Some(Ok::<(), Error>(())),
        elapsed_ms < timeout_ms && current != expected ==> r is None,
{
    if elapsed_ms >= timeout_ms {
        Some(Err(Error::Generic(GenericError::Timeout)))
    } else if current == expected {
        Some(Ok(()))
    } else {
        None
    }
}

} // verus!
