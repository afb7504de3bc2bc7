// These tests assume the machine's local time zone is UTC, which the exact
// expected offsets and calendar fields below encode.

use fastlog::entry::{LogEntry, LogMessage};
use fastlog::level::Level;
use fastlog::render::{format_entry, RenderCache};
use fastlog::Timestamp;

// 2024-01-15T10:30:05 UTC.
const SECS: u64 = 1_705_314_605;

fn sample_entry() -> LogEntry {
    LogEntry::new(
        Timestamp::new(SECS, 123_456_789),
        Some(String::from("app")),
        Level::Info,
        LogMessage::new("hello"),
    )
}

#[test]
fn calendar_mode_exact_line() {
    let mut cache = RenderCache::new();
    let line = format_entry(&mut cache, &sample_entry(), false);
    assert_eq!(
        line.as_str(),
        "time=2024-01-15T10:30:05.123456+00:00 level=info name=app msg=\"hello\"\n"
    );
}

#[test]
fn unix_mode_exact_line() {
    let mut cache = RenderCache::new();
    let line = format_entry(&mut cache, &sample_entry(), true);
    assert_eq!(
        line.as_str(),
        "time=1705314605.123456789 level=info name=app msg=\"hello\"\n"
    );
}

#[test]
fn formatting_twice_is_byte_identical() {
    let e = sample_entry();
    let mut cache = RenderCache::new();
    let first = format_entry(&mut cache, &e, false);
    let second = format_entry(&mut cache, &e, false);
    assert_eq!(first, second);

    let mut cache = RenderCache::new();
    let first = format_entry(&mut cache, &e, true);
    let second = format_entry(&mut cache, &e, true);
    assert_eq!(first, second);
}

#[test]
fn modes_differ_only_in_the_time_field() {
    let e = sample_entry();
    let mut cache = RenderCache::new();
    let cal = format_entry(&mut cache, &e, false);
    let unix = format_entry(&mut cache, &e, true);
    let tail = " level=info name=app msg=\"hello\"\n";
    assert!(cal.ends_with(tail));
    assert!(unix.ends_with(tail));
    assert!(cal.starts_with("time="));
    assert!(unix.starts_with("time="));
    assert_ne!(cal, unix);
}

#[test]
fn nameless_entry_omits_the_name_field() {
    let e = LogEntry::new(
        Timestamp::new(SECS, 0),
        None,
        Level::Error,
        LogMessage::new("bad"),
    );
    let mut cache = RenderCache::new();
    let line = format_entry(&mut cache, &e, false);
    assert_eq!(
        line.as_str(),
        "time=2024-01-15T10:30:05.000000+00:00 level=error msg=\"bad\"\n"
    );
}

#[test]
fn message_written_verbatim_without_escaping() {
    let e = LogEntry::new(
        Timestamp::new(SECS, 1_000),
        None,
        Level::Debug,
        LogMessage::new("a \"quoted\"\nline"),
    );
    let mut cache = RenderCache::new();
    let line = format_entry(&mut cache, &e, true);
    assert_eq!(
        line.as_str(),
        "time=1705314605.000001000 level=debug msg=\"a \"quoted\"\nline\"\n"
    );
}

#[test]
fn fractional_seconds_are_microsecond_truncated_in_calendar_mode() {
    let e = LogEntry::new(
        Timestamp::new(SECS, 999_999_999),
        None,
        Level::Trace,
        LogMessage::new("t"),
    );
    let mut cache = RenderCache::new();
    let line = format_entry(&mut cache, &e, false);
    assert_eq!(
        line.as_str(),
        "time=2024-01-15T10:30:05.999999+00:00 level=trace msg=\"t\"\n"
    );
}
