//! Clock access and the producer-side timestamp cache: one wall-clock read
//! per thread per second, sub-second readings derived from a monotonic anchor.

use vstd::prelude::*;
use crate::{Timestamp, MAX_TS_SECS, NANOS_PER_SEC};

verus! {

#[verifier::external_type_specification]
#[verifier::external_body]
pub struct ExInstant(std::time::Instant);

/// Relies on std::time::SystemTime::now and duration_since(UNIX_EPOCH): the
/// wall-clock time since the epoch as whole seconds plus nanoseconds within
/// the second; the nanosecond part of a Duration is below one second.
#[verifier::external_body]
fn wall_clock_parts() -> (p: (u64, u32))
    ensures
        p.1 < NANOS_PER_SEC,
{
    let d = std::time::SystemTime::now()
        .duration_since(std::time::UNIX_EPOCH)
        .unwrap_or_else(|e| e.duration());
    (d.as_secs(), d.subsec_nanos())
}

/// Relies on std::time::Instant::now: a reading of the monotonic clock.
#[verifier::external_body]
pub(crate) fn monotonic_now() -> (i: std::time::Instant) {
    std::time::Instant::now()
}

/// Relies on std::time::Instant::elapsed: the time since the anchor as whole
/// seconds plus nanoseconds within the second; the nanosecond part of a
/// Duration is below one second.
#[verifier::external_body]
pub(crate) fn elapsed_parts(anchor: &std::time::Instant) -> (p: (u64, u32))
    ensures
        p.1 < NANOS_PER_SEC,
{
    let d = anchor.elapsed();
    (d.as_secs(), d.subsec_nanos())
}

/// A wall-clock reading, clamped into the renderable range.
pub fn now_timestamp() -> (t: Timestamp)
    ensures
        t.wf(),
{
    let (s, n) = wall_clock_parts();
    Timestamp::new(s, n)
}

/// `base` advanced by less than one second, with exact carry arithmetic;
/// saturates at the top of the renderable range.
pub fn advance(base: Timestamp, delta_nanos: u32) -> (t: Timestamp)
    requires
        base.wf(),
        delta_nanos < NANOS_PER_SEC,
    ensures
        t.wf(),
        base.as_nanos() + delta_nanos < MAX_TS_SECS as int * NANOS_PER_SEC as int ==> t.as_nanos()
            == base.as_nanos() + delta_nanos,
{
    let total: u64 = base.nanos as u64 + delta_nanos as u64;
    let carry: u64 = total / (NANOS_PER_SEC as u64);
    let nanos: u32 = (total % (NANOS_PER_SEC as u64)) as u32;
    if carry == 0 || base.secs < MAX_TS_SECS - 1 {
        Timestamp { secs: base.secs + carry, nanos }
    } else {
        Timestamp { secs: MAX_TS_SECS - 1, nanos: NANOS_PER_SEC - 1 }
    }
}

/// Per-thread timestamp cache: a monotonic anchor and the wall-clock value
/// captured at that anchor. Readings inside one second after the anchor are
/// derived from the anchor without touching the wall clock.
pub struct ThreadClock {
    anchor: std::time::Instant,
    base: Timestamp,
}

impl ThreadClock {
    pub closed spec fn wf(&self) -> bool {
        self.base.wf()
    }

    /// Anchor a fresh cache at the current instant.
    pub fn new() -> (c: ThreadClock)
        ensures
            c.wf(),
    {
        ThreadClock { anchor: monotonic_now(), base: now_timestamp() }
    }

    /// Resynchronize: take a fresh wall-clock reading and reset the anchor.
    pub fn refresh(&mut self) -> (t: Timestamp)
        ensures
            t.wf(),
            final(self).wf(),
    {
        let t = now_timestamp();
        self.anchor = monotonic_now();
        self.base = t;
        t
    }

    /// The current wall time: resynchronized when a second or more has passed
    /// since the anchor, otherwise derived from the anchor plus the elapsed
    /// monotonic time.
    pub fn now(&mut self) -> (t: Timestamp)
        requires
            old(self).wf(),
        ensures
            t.wf(),
            final(self).wf(),
    {
        let (es, en) = elapsed_parts(&self.anchor);
        if es >= 1 {
            self.refresh()
        } else {
            advance(self.base, en)
        }
    }
}

} // verus!
