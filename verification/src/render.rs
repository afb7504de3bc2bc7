//! Line formatting: the two literal output modes, the consumer-side
//! per-second prefix cache, and exact character-level specifications.

use vstd::prelude::*;
use crate::civil::{CivilTime, local_civil};
use crate::entry::LogEntry;
use crate::fmt_num::{dec_chars, padded_dec, push_dec, push_padded};
use crate::level::{Level, level_label, level_name};
use crate::{Timestamp, MAX_TS_SECS};

verus! {

/// The part of a line after the time field: severity, optional logger name,
/// and the message, written byte-for-byte without escaping.
pub open spec fn render_tail(level: Level, name: Option<Seq<char>>, msg: Seq<char>) -> Seq<char> {
    level_label(level) + (match name {
        Some(n) => " name="@ + n,
        None => Seq::<char>::empty(),
    }) + " msg=\""@ + msg + "\"\n"@
}

/// The cached calendar prefix: `time=<YYYY-MM-DDTHH:MM:SS.>`.
pub open spec fn cal_prefix(c: CivilTime) -> Seq<char> {
    "time="@ + padded_dec(c.year as nat, 4) + "-"@ + padded_dec(c.month as nat, 2) + "-"@
        + padded_dec(c.day as nat, 2) + "T"@ + padded_dec(c.hour as nat, 2) + ":"@ + padded_dec(
        c.minute as nat,
        2,
    ) + ":"@ + padded_dec(c.second as nat, 2) + "."@
}

/// The cached offset suffix: `<±HH:MM> level=`.
pub open spec fn offset_part(off: int) -> Seq<char> {
    (if off >= 0 {
        "+"@
    } else {
        "-"@
    }) + padded_dec((if off >= 0 {
        off
    } else {
        -off
    }) as nat / 3600, 2) + ":"@ + padded_dec(((if off >= 0 {
        off
    } else {
        -off
    }) as nat % 3600) / 60, 2) + " level="@
}

/// The whole calendar-mode time field, microsecond-truncated fraction included.
pub open spec fn cal_time_field(c: CivilTime, nanos: u32) -> Seq<char> {
    cal_prefix(c) + padded_dec((nanos / 1000) as nat, 6) + offset_part(c.offset_secs as int)
}

/// The cached unix prefix: `time=<epoch-seconds>.`.
pub open spec fn unix_prefix_spec(secs: u64) -> Seq<char> {
    "time="@ + dec_chars(secs as nat) + "."@
}

/// The whole unix-mode time field: epoch seconds and nine nanosecond digits.
pub open spec fn unix_time_field(t: Timestamp) -> Seq<char> {
    unix_prefix_spec(t.secs) + padded_dec(t.nanos as nat, 9) + " level="@
}

/// A calendar-mode line: the time field read from the civil breakdown `c`,
/// followed by the common tail.
pub open spec fn cal_line(c: CivilTime, e: LogEntry) -> Seq<char> {
    cal_time_field(c, e.ts.nanos) + render_tail(e.level, e.name_view(), e.msg@)
}

/// A unix-mode line: a pure function of the entry alone.
pub open spec fn unix_line(e: LogEntry) -> Seq<char> {
    unix_time_field(e.ts) + render_tail(e.level, e.name_view(), e.msg@)
}

/// One formatted line for entry `e`: the time field of the chosen mode
/// followed by the common tail. In calendar mode the time field reads the
/// civil breakdown `c`; in unix mode it depends on the entry alone.
pub open spec fn render_entry(c: CivilTime, e: LogEntry, unix: bool) -> Seq<char> {
    if unix {
        unix_line(e)
    } else {
        cal_line(c, e)
    }
}

/// Consumer-side per-second cache: the last-seen second with its civil
/// breakdown and the pre-rendered prefix strings, recomputed only when the
/// second advances.
pub struct RenderCache {
    pub valid: bool,
    pub last_secs: u64,
    pub civil: CivilTime,
    pub time_prefix: String,
    pub offset_prefix: String,
    pub unix_prefix: String,
}

impl RenderCache {
    /// The cached strings agree with the cached second and breakdown.
    pub open spec fn wf(&self) -> bool {
        self.valid ==> {
            &&& self.last_secs < MAX_TS_SECS
            &&& self.civil.wf()
            &&& self.time_prefix@ == cal_prefix(self.civil)
            &&& self.offset_prefix@ == offset_part(self.civil.offset_secs as int)
            &&& self.unix_prefix@ == unix_prefix_spec(self.last_secs)
        }
    }

    /// An empty cache that matches no second.
    pub fn new() -> (c: RenderCache)
        ensures
            c.wf(),
            !c.valid,
    {
        RenderCache {
            valid: false,
            last_secs: 0,
            civil: CivilTime {
                year: 1970,
                month: 1,
                day: 1,
                hour: 0,
                minute: 0,
                second: 0,
                offset_secs: 0,
            },
            time_prefix: String::new(),
            offset_prefix: String::new(),
            unix_prefix: String::new(),
        }
    }

    /// Bring the cache to the second `secs`: a hit leaves it untouched, a miss
    /// recomputes the civil breakdown and re-renders the three prefixes.
    pub fn update(&mut self, secs: u64)
        requires
            old(self).wf(),
            secs < MAX_TS_SECS,
        ensures
            final(self).wf(),
            final(self).valid,
            final(self).last_secs == secs,
            old(self).valid && old(self).last_secs == secs ==> *final(self) == *old(self),
    {
        if self.valid && self.last_secs == secs {
            return ;
        }
        let c = local_civil(secs);
        let mut tp = String::new();
        tp.append("time=");
        push_padded(&mut tp, c.year as u64, 4);
        tp.append("-");
        push_padded(&mut tp, c.month as u64, 2);
        tp.append("-");
        push_padded(&mut tp, c.day as u64, 2);
        tp.append("T");
        push_padded(&mut tp, c.hour as u64, 2);
        tp.append(":");
        push_padded(&mut tp, c.minute as u64, 2);
        tp.append(":");
        push_padded(&mut tp, c.second as u64, 2);
        tp.append(".");
        proof {
            assert(tp@ =~= cal_prefix(c));
        }
        let mut op = String::new();
        let abs_off: u32 = if c.offset_secs >= 0 {
            op.append("+");
            c.offset_secs as u32
        } else {
            op.append("-");
            (-c.offset_secs) as u32
        };
        push_padded(&mut op, (abs_off / 3600) as u64, 2);
        op.append(":");
        push_padded(&mut op, ((abs_off % 3600) / 60) as u64, 2);
        op.append(" level=");
        proof {
            assert(op@ =~= offset_part(c.offset_secs as int));
        }
        let mut up = String::new();
        up.append("time=");
        push_dec(&mut up, secs);
        up.append(".");
        proof {
            assert(up@ =~= unix_prefix_spec(secs));
        }
        self.valid = true;
        self.last_secs = secs;
        self.civil = c;
        self.time_prefix = tp;
        self.offset_prefix = op;
        self.unix_prefix = up;
    }
}

/// Format one entry in the sink's mode, through the per-second cache. The
/// output is exactly `render_entry` of the entry and the breakdown now held by
/// the cache; when the cache already held the entry's second, the breakdown
/// (and so the output) is a pure function of the prior cache state.
pub fn format_entry(cache: &mut RenderCache, e: &LogEntry, unix: bool) -> (line: String)
    requires
        old(cache).wf(),
        e.wf(),
    ensures
        final(cache).wf(),
        final(cache).valid,
        final(cache).last_secs == e.ts.secs,
        line@ == render_entry(final(cache).civil, *e, unix),
        old(cache).valid && old(cache).last_secs == e.ts.secs ==> *final(cache) == *old(cache),
{
    cache.update(e.ts.secs);
    let mut out = String::new();
    if unix {
        out.append(cache.unix_prefix.as_str());
        push_padded(&mut out, e.ts.nanos as u64, 9);
        out.append(" level=");
    } else {
        out.append(cache.time_prefix.as_str());
        push_padded(&mut out, (e.ts.nanos / 1000) as u64, 6);
        out.append(cache.offset_prefix.as_str());
    }
    out.append(level_name(e.level));
    match &e.name {
        Some(n) => {
            out.append(" name=");
            out.append(n.as_str());
        },
        None => {},
    }
    out.append(" msg=\"");
    out.append(e.msg.as_str());
    out.append("\"\n");
    proof {
        assert(out@ =~= render_entry(cache.civil, *e, unix));
    }
    out
}

/// Formatting is deterministic: a line is a pure function of the entry and
/// the civil breakdown in effect, so formatting the same entry against the
/// same breakdown twice yields byte-identical output.
pub proof fn lemma_render_deterministic(
    c1: CivilTime,
    c2: CivilTime,
    e1: LogEntry,
    e2: LogEntry,
    unix: bool,
    r1: Seq<char>,
    r2: Seq<char>,
)
    requires
        c1 == c2,
        e1 == e2,
        r1 == render_entry(c1, e1, unix),
        r2 == render_entry(c2, e2, unix),
    ensures
        r1 == r2,
{
}

/// The two output modes produce the same line but for the time field: both
/// are some time field followed by the same `level=... msg="..."` tail.
pub proof fn lemma_modes_differ_only_in_time_field(c: CivilTime, e: LogEntry)
    ensures
        render_entry(c, e, false) == cal_time_field(c, e.ts.nanos) + render_tail(
            e.level,
            e.name_view(),
            e.msg@,
        ),
        render_entry(c, e, true) == unix_time_field(e.ts) + render_tail(
            e.level,
            e.name_view(),
            e.msg@,
        ),
{
}

} // verus!
