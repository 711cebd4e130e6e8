//! Points in time, as the tokens and the token store see them.

use vstd::prelude::*;

verus! {

/// Earliest second that a UTC date-time can hold (year -262143, January 1st).
pub const MIN_UTC_SECS: i64 = -8334601315200;

/// Latest second that a UTC date-time can hold (year 262142, December 31st).
pub const MAX_UTC_SECS: i64 = 8210266876799;

/// Largest number of seconds that a time delta can hold.
pub const MAX_DELTA_SECS: i64 = 9223372036854775;

/// A UTC point in time: seconds since the Unix epoch and the nanoseconds within that second.
#[derive(Debug, Clone, Copy, PartialEq, Eq, Structural)]
pub struct Timestamp {
    pub secs: i64,
    pub nanos: u32,
}

impl Timestamp {
    /// A timestamp that a UTC date-time can represent.
    pub open spec fn wf(self) -> bool {
        &&& MIN_UTC_SECS <= self.secs <= MAX_UTC_SECS
        &&& self.nanos < 1_000_000_000
    }

    /// `self` comes strictly before `other`.
    pub open spec fn spec_before(self, other: Timestamp) -> bool {
        self.secs < other.secs || (self.secs == other.secs && self.nanos < other.nanos)
    }

    pub fn is_before(&self, other: &Timestamp) -> (r: bool)
        ensures
            r == self.spec_before(*other),
    {
        self.secs < other.secs || (self.secs == other.secs && self.nanos < other.nanos)
    }

    /// Adding `delta` seconds to `self` stays within what a date-time can hold.
    pub open spec fn can_add_seconds(self, delta: i64) -> bool {
        &&& -MAX_DELTA_SECS <= delta <= MAX_DELTA_SECS
        &&& MIN_UTC_SECS <= self.secs + delta <= MAX_UTC_SECS
    }

    /// Whether `delta` seconds can be added to `self`.
    pub fn can_add(&self, delta: i64) -> (r: bool)
        ensures
            r == self.can_add_seconds(delta),
    {
        if delta < -MAX_DELTA_SECS || delta > MAX_DELTA_SECS {
            return false;
        }
        let end = self.secs as i128 + delta as i128;
        MIN_UTC_SECS as i128 <= end && end <= MAX_UTC_SECS as i128
    }

    pub open spec fn spec_plus_seconds(self, delta: i64) -> Timestamp {
        Timestamp { secs: (self.secs + delta) as i64, nanos: self.nanos }
    }

    /// The point in time `delta` seconds after `self`.
    pub fn plus_seconds(&self, delta: i64) -> (r: Timestamp)
        requires
            self.can_add_seconds(delta),
        ensures
            r == self.spec_plus_seconds(delta),
    {
        Timestamp { secs: self.secs + delta, nanos: self.nanos }
    }
}

/// Reads the system clock.
///
/// Calls `chrono::Utc::now`. Claimed: the result is a date-time that chrono can
/// represent, split into its Unix timestamp and its sub-second nanoseconds.
/// Nothing is claimed about which instant it is.
#[verifier::external_body]
pub fn now() -> (t: Timestamp)
    ensures
        t.wf(),
{
    let now = chrono::Utc::now();
    Timestamp { secs: now.timestamp(), nanos: now.timestamp_subsec_nanos() }
}

} // verus!
