//! Durations and wall-clock timestamps as plain integers.

use vstd::prelude::*;

verus! {

/// A length of time in whole milliseconds.
#[derive(Debug, Clone, Copy, PartialEq, Eq, Structural)]
pub struct TimeSpan {
    pub millis: u64,
}

impl TimeSpan {
    /// The empty span.
    pub fn zero() -> (r: TimeSpan)
        ensures
            r.millis == 0,
    {
        TimeSpan { millis: 0 }
    }

    /// A span of `millis` milliseconds.
    pub fn from_millis(millis: u64) -> (r: TimeSpan)
        ensures
            r.millis == millis,
    {
        TimeSpan { millis }
    }

    /// A span of `secs` seconds.
    pub fn from_secs(secs: u64) -> (r: TimeSpan)
        requires
            secs * 1000 <= u64::MAX,
        ensures
            r.millis == secs * 1000,
    {
        TimeSpan { millis: secs * 1000 }
    }

    /// Whether the span is empty.
    pub fn is_zero(&self) -> (r: bool)
        ensures
            r == (self.millis == 0),
    {
        self.millis == 0
    }

    /// The span in milliseconds.
    pub fn as_millis(&self) -> (r: u64)
        ensures
            r == self.millis,
    {
        self.millis
    }
}

/// Relies on chrono::Utc::now and DateTime::timestamp_millis: the current
/// wall-clock time in milliseconds since the Unix epoch. Nothing is promised
/// of its value; the clock may even step backwards.
#[verifier::external_body]
pub(crate) fn now_millis() -> (r: i64) {
    chrono::Utc::now().timestamp_millis()
}

} // verus!
