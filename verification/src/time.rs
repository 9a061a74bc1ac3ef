//! Points in time, as the store records them.

use vstd::prelude::*;

verus! {

/// Nanoseconds in a second.
pub const NANOS_PER_SECOND: u32 = 1_000_000_000;

/// A point in time: whole seconds since the Unix epoch, and the nanoseconds
/// into that second.
#[derive(Debug, Clone, Copy, PartialEq, Eq, Structural)]
pub struct Timestamp {
    pub secs: i64,
    pub nanos: u32,
}

impl Timestamp {
    /// The point in time as nanoseconds since the epoch.
    pub open spec fn as_nanos(self) -> int {
        self.secs * 1_000_000_000 + self.nanos
    }
}

/// The nanoseconds that lie between two points in time; negative where
/// `later` is the earlier one.
pub open spec fn nanos_between(earlier: Timestamp, later: Timestamp) -> int {
    later.as_nanos() - earlier.as_nanos()
}

/// Reads the clock with `chrono::Utc::now`, and hands back the seconds and
/// nanoseconds that `chrono` counts for that moment. The contract claims
/// nothing: the time is whatever the clock says.
#[verifier::external_body]
pub(crate) fn now() -> (time: Timestamp) {
    let moment = chrono::Utc::now();
    Timestamp { secs: moment.timestamp(), nanos: moment.timestamp_subsec_nanos() }
}

} // verus!
