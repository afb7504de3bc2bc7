//! An asynchronous structured-logging core: producers capture log entries on a
//! fast path, a bounded transport carries batches to a single worker per sink,
//! and the worker formats, rotates and flushes the output.

use vstd::prelude::*;

pub mod civil;
pub mod clock;
pub mod entry;
pub mod fmt_num;
pub mod laws;
pub mod level;
pub mod render;
pub mod rotate;
pub mod transport;
pub mod worker;

verus! {

/// Largest timestamp (in whole seconds since the epoch) that the rendering
/// pipeline accepts: one day short of year 10000, so that the local calendar
/// year always fits in four digits for any valid UTC offset.
pub const MAX_TS_SECS: u64 = 253402214400;

pub const NANOS_PER_SEC: u32 = 1_000_000_000;

/// A wall-clock instant: whole seconds since the Unix epoch plus the
/// nanoseconds within that second.
#[derive(Clone, Copy, Debug)]
pub struct Timestamp {
    pub secs: u64,
    pub nanos: u32,
}

impl Timestamp {
    /// A timestamp is well formed when the nanosecond part names a position
    /// inside one second and the second count is renderable (below year 10000).
    pub open spec fn wf(self) -> bool {
        self.nanos < NANOS_PER_SEC && self.secs < MAX_TS_SECS
    }

    /// The instant as a total nanosecond count, for stating arithmetic.
    pub open spec fn as_nanos(self) -> int {
        self.secs as int * NANOS_PER_SEC as int + self.nanos as int
    }

    /// Build a timestamp from raw parts, clamping anything outside the
    /// supported range to the largest representable instant.
    pub fn new(secs: u64, nanos: u32) -> (t: Timestamp)
        ensures
            t.wf(),
            secs < MAX_TS_SECS && nanos < NANOS_PER_SEC ==> t.secs == secs && t.nanos == nanos,
    {
        Timestamp {
            secs: if secs < MAX_TS_SECS { secs } else { MAX_TS_SECS - 1 },
            nanos: if nanos < NANOS_PER_SEC { nanos } else { NANOS_PER_SEC - 1 },
        }
    }
}

} // verus!
