//! Latency recorder: per-iteration issue/completion timestamps and the
//! elapsed duration derived from them.
//!
//! A timestamp is a nanosecond reading of a monotonic clock; the embedding
//! runtime captures the readings and hands them in as plain values. Nothing
//! is stored beyond the current iteration and nothing is aggregated:
//! reporting is the caller's concern.

use vstd::prelude::*;

verus! {

/// Nanosecond reading of a monotonic clock.
pub type Timestamp = u64;

/// The elapsed nanoseconds between an issue reading and a completion
/// reading, zero when the readings are out of order.
pub open spec fn elapsed_spec(issue: Timestamp, complete: Timestamp) -> u64 {
    if complete >= issue {
        (complete - issue) as u64
    } else {
        0
    }
}

/// Issue and completion readings of one operation, created at issuance and
/// consumed at the matching completion within a single loop iteration.
#[derive(Clone, Copy, Debug, PartialEq, Eq, Structural)]
pub struct LatencySample {
    pub issue: Timestamp,
    pub complete: Timestamp,
}

impl LatencySample {
    /// The duration this sample measured.
    pub fn duration_nanos(&self) -> (r: u64)
        ensures
            r == elapsed_spec(self.issue, self.complete),
    {
        elapsed_nanos(self.issue, self.complete)
    }
}

/// Duration between two clock readings, saturating at zero.
pub fn elapsed_nanos(issue: Timestamp, complete: Timestamp) -> (r: u64)
    ensures
        r == elapsed_spec(issue, complete),
{
    if complete >= issue {
        complete - issue
    } else {
        0
    }
}

} // verus!
