//! Quantities with a unit.

use vstd::prelude::*;

verus! {

/// A span of time, kept in milliseconds.
#[derive(Debug, Clone, Copy, PartialEq, Eq, PartialOrd, Ord, Hash, Structural)]
pub struct Duration {
    milliseconds: u64,
}

impl View for Duration {
    type V = nat;

    /// The span in milliseconds.
    closed spec fn view(&self) -> nat {
        self.milliseconds as nat
    }
}

impl Duration {
    /// The span of `ms` milliseconds.
    pub fn from_millis(ms: u64) -> (r: Self)
        ensures
            r@ == ms,
    {
        Self { milliseconds: ms }
    }

    /// The span of `hours` hours.
    pub fn from_hours(hours: u64) -> (r: Self)
        requires
            hours * 3_600_000 <= u64::MAX,
        ensures
            r@ == hours * 3_600_000,
    {
        Self { milliseconds: hours * 3_600_000 }
    }

    /// The span of `minutes` minutes.
    pub fn from_minutes(minutes: u64) -> (r: Self)
        requires
            minutes * 60_000 <= u64::MAX,
        ensures
            r@ == minutes * 60_000,
    {
        Self { milliseconds: minutes * 60_000 }
    }

    /// The span in milliseconds.
    pub fn as_millis(&self) -> (r: u64)
        ensures
            r == self@,
    {
        self.milliseconds
    }

    /// The span in whole seconds.
    pub fn as_secs(&self) -> (r: u64)
        ensures
            r == self@ / 1000,
    {
        self.milliseconds / 1000
    }

    /// The span in whole minutes.
    pub fn as_minutes(&self) -> (r: u64)
        ensures
            r == self@ / 60_000,
    {
        self.milliseconds / 60_000
    }

    /// The span in whole hours.
    pub fn as_hours(&self) -> (r: u64)
        ensures
            r == self@ / 3_600_000,
    {
        self.milliseconds / 3_600_000
    }
}

} // verus!
