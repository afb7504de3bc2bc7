//! Severity levels: five ordered values, and the producer-side filter.

use vstd::prelude::*;

verus! {

/// Severity of a log entry, from least to most severe.
#[derive(Clone, Copy, Debug, PartialEq, Eq, Structural, Hash)]
pub enum Level {
    Trace,
    Debug,
    Info,
    Warn,
    Error,
}

/// The position of a level in the severity order: trace < debug < info < warn < error.
pub open spec fn rank_spec(l: Level) -> int {
    match l {
        Level::Trace => 0,
        Level::Debug => 1,
        Level::Info => 2,
        Level::Warn => 3,
        Level::Error => 4,
    }
}

impl Level {
    /// The numeric rank of this level in the severity order.
    pub fn rank(self) -> (r: u8)
        ensures
            r as int == rank_spec(self),
    {
        match self {
            Level::Trace => 0,
            Level::Debug => 1,
            Level::Info => 2,
            Level::Warn => 3,
            Level::Error => 4,
        }
    }
}

/// Whether an entry at severity `level` passes a logger whose configured
/// minimum is `min`: everything at least as severe as the minimum passes.
pub open spec fn enabled_spec(level: Level, min: Level) -> bool {
    rank_spec(level) >= rank_spec(min)
}

/// The producer-side severity filter.
pub fn enabled(level: Level, min: Level) -> (r: bool)
    ensures
        r == enabled_spec(level, min),
{
    level.rank() >= min.rank()
}

/// The label under which a level appears in a formatted line.
pub open spec fn level_label(l: Level) -> Seq<char> {
    match l {
        Level::Trace => "trace"@,
        Level::Debug => "debug"@,
        Level::Info => "info"@,
        Level::Warn => "warn"@,
        Level::Error => "error"@,
    }
}

/// The printable name of a level.
pub fn level_name(l: Level) -> (s: &'static str)
    ensures
        s@ == level_label(l),
{
    match l {
        Level::Trace => "trace",
        Level::Debug => "debug",
        Level::Info => "info",
        Level::Warn => "warn",
        Level::Error => "error",
    }
}

} // verus!
