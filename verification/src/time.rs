//! Points in time, as plain numbers.

use vstd::prelude::*;

verus! {

/// An instant in UTC: whole seconds since 1970-01-01 00:00:00 and the
/// nanoseconds since the last second boundary.
#[derive(Clone, Copy, Debug, PartialEq, Eq, Structural)]
pub struct Timestamp {
    pub secs: i64,
    pub nanos: u32,
}

impl Timestamp {
    /// The nanosecond part stays below two seconds: one second, and one
    /// more during a leap second.
    pub open spec fn wf(self) -> bool {
        self.nanos < 2_000_000_000
    }
}

/// The current time, read from the system clock through
/// `chrono::Utc::now`. The contract claims only what chrono keeps for every
/// `DateTime`: the sub-second part is below 2,000,000,000 nanoseconds.
/// Nothing is said about which instant comes back. `Utc::now` stops the
/// program when the system clock stands before 1970.
#[verifier::external_body]
pub(crate) fn utc_now() -> (t: Timestamp)
    ensures
        t.wf(),
{
    let now = chrono::Utc::now();
    Timestamp { secs: now.timestamp(), nanos: now.timestamp_subsec_nanos() }
}

} // verus!
