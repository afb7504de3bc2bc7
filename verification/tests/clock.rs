use fastlog::clock::{advance, now_timestamp, ThreadClock};
use fastlog::{Timestamp, MAX_TS_SECS, NANOS_PER_SEC};

#[test]
fn wall_clock_reading_is_well_formed_and_current() {
    let t = now_timestamp();
    assert!(t.nanos < NANOS_PER_SEC);
    assert!(t.secs < MAX_TS_SECS);
    // After 2020, before year 10000: a sane wall clock.
    assert!(t.secs > 1_577_836_800);
}

#[test]
fn cached_clock_yields_well_formed_timestamps() {
    let mut clock = ThreadClock::new();
    let t1 = clock.now();
    let t2 = clock.now();
    assert!(t1.nanos < NANOS_PER_SEC);
    assert!(t2.nanos < NANOS_PER_SEC);
    assert!(t1.secs > 1_577_836_800 && t1.secs < MAX_TS_SECS);
    assert!(t2.secs > 1_577_836_800 && t2.secs < MAX_TS_SECS);
}

#[test]
fn advance_carries_nanoseconds_into_seconds() {
    let t = advance(Timestamp { secs: 5, nanos: 999_999_999 }, 2);
    assert_eq!(t.secs, 6);
    assert_eq!(t.nanos, 1);

    let t = advance(Timestamp { secs: 5, nanos: 1 }, 2);
    assert_eq!(t.secs, 5);
    assert_eq!(t.nanos, 3);

    // Saturates instead of leaving the renderable range.
    let t = advance(Timestamp { secs: MAX_TS_SECS - 1, nanos: 999_999_999 }, 1);
    assert_eq!(t.secs, MAX_TS_SECS - 1);
    assert_eq!(t.nanos, 999_999_999);
}
