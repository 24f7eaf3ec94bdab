//! Instants and durations on a free-running tick counter.
//!
//! A tick counter of `FREQ_HZ` ticks per second is 32 bits wide and wraps
//! around; instants are compared on the circle, so an instant is later than
//! another one when it lies less than half the counter range ahead of it.

use vstd::prelude::*;

verus! {

/// Half of the range of the 32-bit tick counter.
pub open spec fn half_range() -> int {
    0x8000_0000
}

/// The number of ticks from `earlier` forward to `later`, on the circle.
pub open spec fn ticks_between(later: u32, earlier: u32) -> int {
    if later >= earlier {
        later - earlier
    } else {
        later - earlier + 0x1_0000_0000
    }
}

/// A point in time, counted in ticks of a `FREQ_HZ` timer.
#[derive(Debug, Clone, Copy, PartialEq, Eq)]
pub struct Instant<const FREQ_HZ: u32> {
    ticks: u32,
}

/// A span of time, counted in ticks of a `FREQ_HZ` timer.
#[derive(Debug, Clone, Copy, PartialEq, Eq)]
pub struct Duration<const FREQ_HZ: u32> {
    ticks: u32,
}

impl<const FREQ_HZ: u32> Instant<FREQ_HZ> {
    /// The tick count of this instant.
    pub closed spec fn tick_count(self) -> u32 {
        self.ticks
    }

    /// The instant at tick count `ticks`.
    pub fn from_ticks(ticks: u32) -> (r: Self)
        ensures
            r.tick_count() == ticks,
    {
        Instant { ticks }
    }

    /// The tick count of this instant.
    pub fn ticks(&self) -> (r: u32)
        ensures
            r == self.tick_count(),
    {
        self.ticks
    }

    /// The time from `other` to `self`, when `other` is not later than
    /// `self`: that is, when `self` lies less than half the counter range
    /// ahead of `other` (or equals it).
    pub fn checked_duration_since(&self, other: Self) -> (r: Option<Duration<FREQ_HZ>>)
        ensures
            r == (if ticks_between(self.tick_count(), other.tick_count()) < half_range() {
                Some(Duration::<FREQ_HZ>::spec_from_ticks(
                    ticks_between(self.tick_count(), other.tick_count()) as u32,
                ))
            } else {
                None::<Duration<FREQ_HZ>>
            }),
            r matches Some(d) ==> d.tick_count() == ticks_between(self.tick_count(), other.tick_count()),
    {
        let v: u32 = self.ticks.wrapping_sub(other.ticks);
        if v < 0x8000_0000 {
            Some(Duration { ticks: v })
        } else {
            None
        }
    }
}

impl<const FREQ_HZ: u32> Duration<FREQ_HZ> {
    /// The tick count of this duration.
    pub closed spec fn tick_count(self) -> u32 {
        self.ticks
    }

    /// The duration of `ticks` ticks.
    pub closed spec fn spec_from_ticks(ticks: u32) -> Self {
        Duration { ticks }
    }

    /// The duration of `ticks` ticks.
    pub fn from_ticks(ticks: u32) -> (r: Self)
        ensures
            r == Self::spec_from_ticks(ticks),
            r.tick_count() == ticks,
    {
        Duration { ticks }
    }

    /// The tick count of this duration.
    pub fn ticks(&self) -> (r: u32)
        ensures
            r == self.tick_count(),
    {
        self.ticks
    }

    /// The duration of `us` microseconds, rounded down to whole ticks.
    pub fn from_micros(us: u32) -> (r: Self)
        requires
            us as int * FREQ_HZ as int / 1_000_000 <= u32::MAX,
        ensures
            r.tick_count() == us as int * FREQ_HZ as int / 1_000_000,
    {
        let hz: u32 = FREQ_HZ;
        assert(us as int * hz as int <= u64::MAX) by (nonlinear_arith)
            requires
                us <= u32::MAX,
                hz <= u32::MAX,
        ;
        let t: u64 = us as u64 * hz as u64 / 1_000_000;
        Duration { ticks: t as u32 }
    }

    /// The duration of `ms` milliseconds, rounded down to whole ticks.
    pub fn from_millis(ms: u32) -> (r: Self)
        requires
            ms as int * FREQ_HZ as int / 1_000 <= u32::MAX,
        ensures
            r.tick_count() == ms as int * FREQ_HZ as int / 1_000,
    {
        let hz: u32 = FREQ_HZ;
        assert(ms as int * hz as int <= u64::MAX) by (nonlinear_arith)
            requires
                ms <= u32::MAX,
                hz <= u32::MAX,
        ;
        let t: u64 = ms as u64 * hz as u64 / 1_000;
        Duration { ticks: t as u32 }
    }

    /// The duration of `secs` seconds.
    pub fn from_secs(secs: u32) -> (r: Self)
        requires
            secs as int * FREQ_HZ as int <= u32::MAX,
        ensures
            r.tick_count() == secs as int * FREQ_HZ as int,
    {
        let hz: u32 = FREQ_HZ;
        Duration { ticks: secs * hz }
    }

    /// The whole microseconds that this duration lasts.
    pub fn to_micros(&self) -> (r: u64)
        requires
            FREQ_HZ > 0,
        ensures
            r == self.tick_count() as int * 1_000_000 / FREQ_HZ as int,
    {
        let hz: u32 = FREQ_HZ;
        let t: u64 = self.ticks as u64;
        assert(t * 1_000_000 <= u64::MAX) by (nonlinear_arith)
            requires
                t <= u32::MAX,
        ;
        t * 1_000_000 / hz as u64
    }

    /// The whole milliseconds that this duration lasts.
    pub fn to_millis(&self) -> (r: u64)
        requires
            FREQ_HZ > 0,
        ensures
            r == self.tick_count() as int * 1_000 / FREQ_HZ as int,
    {
        let hz: u32 = FREQ_HZ;
        let t: u64 = self.ticks as u64;
        assert(t * 1_000 <= u64::MAX) by (nonlinear_arith)
            requires
                t <= u32::MAX,
        ;
        t * 1_000 / hz as u64
    }

    /// Whether this duration lasts at least `secs` seconds.
    pub fn at_least_secs(&self, secs: u32) -> (r: bool)
        ensures
            r == (self.tick_count() as int >= secs as int * FREQ_HZ as int),
    {
        let lhs: u64 = self.ticks as u64;
        let hz: u32 = FREQ_HZ;
        assert(secs as int * hz as int <= u64::MAX) by (nonlinear_arith)
            requires
                secs <= u32::MAX,
                hz <= u32::MAX,
        ;
        let rhs: u64 = secs as u64 * hz as u64;
        lhs >= rhs
    }
}

/// Two instants are the same exactly when their tick counts are.
pub proof fn lemma_instant_eq<const FREQ_HZ: u32>(a: Instant<FREQ_HZ>, b: Instant<FREQ_HZ>)
    ensures
        (a == b) <==> (a.tick_count() == b.tick_count()),
{
}

} // verus!
