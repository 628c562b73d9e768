//! Instants of the session clock.

use vstd::prelude::*;

verus! {

/// A moment in UTC, as milliseconds since the Unix epoch.
#[derive(Clone, Copy, Debug, PartialEq, Eq, Structural)]
pub struct Timestamp {
    pub millis: i64,
}

/// Milliseconds in a second.
pub const MILLIS_PER_SECOND: u64 = 1000;

/// Milliseconds in a minute.
pub const MILLIS_PER_MINUTE: u64 = 60000;

/// Distance between two instants in milliseconds, whichever came first.
pub open spec fn spec_millis_between(a: Timestamp, b: Timestamp) -> int {
    if a.millis >= b.millis {
        a.millis - b.millis
    } else {
        b.millis - a.millis
    }
}

/// Whole seconds between two instants, whichever came first.
pub open spec fn spec_seconds_between(a: Timestamp, b: Timestamp) -> int {
    spec_millis_between(a, b) / (MILLIS_PER_SECOND as int)
}

/// Whole minutes between two instants, whichever came first.
pub open spec fn spec_minutes_between(a: Timestamp, b: Timestamp) -> int {
    spec_millis_between(a, b) / (MILLIS_PER_MINUTE as int)
}

/// Reads the system clock through `chrono::Utc::now`, and converts with
/// `DateTime::timestamp_millis`. Nothing is claimed of the instant read.
#[verifier::external_body]
fn clock_millis() -> i64 {
    chrono::Utc::now().timestamp_millis()
}

impl Timestamp {
    /// The instant `millis` milliseconds after the Unix epoch.
    pub fn from_millis(millis: i64) -> (t: Timestamp)
        ensures
            t.millis == millis,
    {
        Timestamp { millis }
    }

    /// The present instant, by the system clock.
    pub fn now() -> Timestamp {
        Timestamp { millis: clock_millis() }
    }

    /// Milliseconds between this instant and another.
    pub fn millis_between(&self, other: Timestamp) -> (d: u64)
        ensures
            d == spec_millis_between(*self, other),
    {
        let a: i128 = self.millis as i128;
        let b: i128 = other.millis as i128;
        if a >= b {
            (a - b) as u64
        } else {
            (b - a) as u64
        }
    }

    /// Whole seconds between this instant and another.
    pub fn seconds_between(&self, other: Timestamp) -> (d: u64)
        ensures
            d == spec_seconds_between(*self, other),
    {
        self.millis_between(other) / MILLIS_PER_SECOND
    }

    /// Whole minutes between this instant and another.
    pub fn minutes_between(&self, other: Timestamp) -> (d: u64)
        ensures
            d == spec_minutes_between(*self, other),
    {
        self.millis_between(other) / MILLIS_PER_MINUTE
    }
}

} // verus!
