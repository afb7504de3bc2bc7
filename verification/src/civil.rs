//! Calendar view of an instant in the local time zone: the civil fields and
//! the UTC offset, read through chrono.

use vstd::prelude::*;
use crate::MAX_TS_SECS;
use chrono::Datelike;
use chrono::Timelike;

verus! {

/// The civil (calendar) breakdown of an instant in some time zone, together
/// with that zone's offset from UTC at the instant, in seconds.
#[derive(Clone, Copy, Debug, PartialEq, Eq, Structural)]
pub struct CivilTime {
    pub year: u32,
    pub month: u32,
    pub day: u32,
    pub hour: u32,
    pub minute: u32,
    pub second: u32,
    pub offset_secs: i32,
}

/// A calendar date alone, for the rotation check.
#[derive(Clone, Copy, Debug, PartialEq, Eq, Structural)]
pub struct CivilDate {
    pub year: u32,
    pub month: u32,
    pub day: u32,
}

impl CivilTime {
    /// Field ranges of a valid breakdown. The year bounds follow from the
    /// timestamp range the pipeline accepts (before year 10000) widened by
    /// one day on each side for the zone offset.
    pub open spec fn wf(&self) -> bool {
        &&& 1969 <= self.year <= 9999
        &&& 1 <= self.month <= 12
        &&& 1 <= self.day <= 31
        &&& self.hour <= 23
        &&& self.minute <= 59
        &&& self.second <= 59
        &&& -86400 < self.offset_secs < 86400
    }

    /// The date part of the breakdown.
    pub open spec fn spec_date(&self) -> CivilDate {
        CivilDate { year: self.year, month: self.month, day: self.day }
    }

    /// The date part of the breakdown.
    pub fn date(&self) -> (d: CivilDate)
        ensures
            d == self.spec_date(),
    {
        CivilDate { year: self.year, month: self.month, day: self.day }
    }
}

impl CivilDate {
    pub open spec fn wf(&self) -> bool {
        &&& 1969 <= self.year <= 9999
        &&& 1 <= self.month <= 12
        &&& 1 <= self.day <= 31
    }
}

/// Relies on chrono's `DateTime<Local>` (via its `From<SystemTime>` impl,
/// `Datelike`, `Timelike` and `FixedOffset::local_minus_utc`): the calendar
/// breakdown of the instant `secs` after the epoch in the machine's local
/// time zone, and the zone's UTC offset at that instant. For the admitted
/// range the fields lie in the stated calendar ranges.
#[verifier::external_body]
pub(crate) fn local_civil(secs: u64) -> (c: CivilTime)
    requires
        secs < MAX_TS_SECS,
    ensures
        c.wf(),
{
    let dt: chrono::DateTime<chrono::Local> = chrono::DateTime::from(
        std::time::UNIX_EPOCH + std::time::Duration::from_secs(secs),
    );
    let off = dt.offset().local_minus_utc();
    CivilTime {
        year: dt.year() as u32,
        month: dt.month(),
        day: dt.day(),
        hour: dt.hour(),
        minute: dt.minute(),
        second: dt.second(),
        offset_secs: off,
    }
}

} // verus!
