//! How long the control pins of the module are held low.

use crate::time::Duration;
use vstd::prelude::*;

verus! {

/// Low time of the `PWR_ON` pin that switches the module on from power off
/// mode: 50 microseconds.
pub fn pwr_on_time<const FREQ_HZ: u32>() -> (r: Duration<FREQ_HZ>)
    ensures
        r.tick_count() == 50 * FREQ_HZ as int / 1_000_000,
{
    assert(50 * FREQ_HZ as int / 1_000_000 <= u32::MAX);
    Duration::from_micros(50)
}

/// Low time of the `PWR_ON` pin that switches the module off gracefully:
/// 1 second.
pub fn pwr_off_time<const FREQ_HZ: u32>() -> (r: Duration<FREQ_HZ>)
    ensures
        r.tick_count() == FREQ_HZ,
{
    Duration::from_secs(1)
}

/// Low time of the `RESET_N` pin that resets (reboots) the module:
/// 50 milliseconds.
pub fn reset_time<const FREQ_HZ: u32>() -> (r: Duration<FREQ_HZ>)
    ensures
        r.tick_count() == 50 * FREQ_HZ as int / 1_000,
{
    assert(50 * FREQ_HZ as int / 1_000 <= u32::MAX);
    Duration::from_millis(50)
}

/// Low time of the `RESET_N` pin that switches the module off abruptly:
/// none, the module does not support it.
pub fn kill_time<const FREQ_HZ: u32>() -> (r: Option<Duration<FREQ_HZ>>)
    ensures
        r is None,
{
    None
}

} // verus!
