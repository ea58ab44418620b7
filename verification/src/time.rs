//! The plain representation of an absolute UTC instant.

use vstd::prelude::*;

verus! {

/// An absolute UTC timestamp: whole seconds relative to the Unix epoch
/// (negative for instants before it) and the nanosecond fraction within
/// that second.
///
/// This crate never compares a timestamp against a clock; it only stores
/// the instant at which an access token expires and hands it back to the
/// delivery collaborator, which owns the expiry decision.
#[derive(Clone, Copy, Debug, PartialEq, Eq, Structural)]
pub struct UtcTimestamp {
    pub seconds: i64,
    pub nanos: u32,
}

impl UtcTimestamp {
    /// The nanosecond fraction names a point within one second.
    pub open spec fn well_formed(&self) -> bool {
        self.nanos < 1_000_000_000
    }

    /// The timestamp at `seconds` and `nanos` past the epoch.
    pub fn new(seconds: i64, nanos: u32) -> (r: UtcTimestamp)
        requires
            nanos < 1_000_000_000,
        ensures
            r.seconds == seconds,
            r.nanos == nanos,
            r.well_formed(),
    {
        UtcTimestamp { seconds, nanos }
    }
}

} // verus!
