// These tests drive the whole pipeline single-threaded: producer calls fill
// the transport, then the worker is stepped by hand and its actions checked.
// The rotation test assumes the machine's local time zone is UTC.

use fastlog::entry::{LogEntry, LogMessage};
use fastlog::level::Level;
use fastlog::transport::{
    flush_sink, log_record, open_transport, poll_directive, push_entry, send_exit, Directive,
    RecvOutcome, ENTRY_BATCH_SIZE,
};
use fastlog::clock::ThreadClock;
use fastlog::worker::{SinkConfig, WorkerAction, WorkerState};
use fastlog::Timestamp;

fn entry(secs: u64, nanos: u32, msg: &str) -> LogEntry {
    LogEntry::new(
        Timestamp::new(secs, nanos),
        Some(String::from("app")),
        Level::Info,
        LogMessage::new(msg),
    )
}

#[test]
fn full_buffer_hands_off_one_batch_in_call_order() {
    let (tx, rx) = open_transport();
    let mut buf: Vec<LogEntry> = Vec::new();
    for i in 0..ENTRY_BATCH_SIZE {
        push_entry(&mut buf, &tx, entry(1_700_000_000, 0, &format!("m{}", i)));
    }
    assert_eq!(buf.len(), 0);
    match poll_directive(&rx) {
        RecvOutcome::Message(Directive::WriteBatch(b)) => {
            assert_eq!(b.len(), ENTRY_BATCH_SIZE);
            for (i, e) in b.iter().enumerate() {
                assert_eq!(e.msg(), format!("m{}", i).as_str());
            }
        }
        _ => panic!("expected one full batch"),
    }
}

#[test]
fn partial_batches_stay_buffered_until_flushed() {
    let (tx, rx) = open_transport();
    let mut buf: Vec<LogEntry> = Vec::new();
    push_entry(&mut buf, &tx, entry(1, 0, "a"));
    push_entry(&mut buf, &tx, entry(1, 0, "b"));
    assert_eq!(buf.len(), 2);
    flush_sink(&mut buf, &tx);
    assert_eq!(buf.len(), 0);
    match poll_directive(&rx) {
        RecvOutcome::Message(Directive::WriteBatch(b)) => {
            assert_eq!(b.len(), 2);
            assert_eq!(b[0].msg(), "a");
            assert_eq!(b[1].msg(), "b");
        }
        _ => panic!("expected the drained partial batch"),
    }
    match poll_directive(&rx) {
        RecvOutcome::Message(Directive::Flush) => {}
        _ => panic!("expected the flush directive"),
    }
}

#[test]
fn dropped_receiver_makes_sends_silent_noops() {
    let (tx, rx) = open_transport();
    drop(rx);
    let mut buf: Vec<LogEntry> = Vec::new();
    for i in 0..ENTRY_BATCH_SIZE {
        push_entry(&mut buf, &tx, entry(1, 0, &format!("m{}", i)));
    }
    assert_eq!(buf.len(), 0);
    flush_sink(&mut buf, &tx);
    send_exit(&tx);
}

#[test]
fn disconnected_transport_terminates_the_worker() {
    let (tx, rx) = open_transport();
    drop(tx);
    let (mut st, _) = WorkerState::new(SinkConfig { path: None, unix_ts: true });
    match poll_directive(&rx) {
        RecvOutcome::Disconnected => {}
        _ => panic!("expected a disconnection"),
    }
    let acts = st.step(RecvOutcome::Disconnected);
    assert_eq!(acts.len(), 1);
    assert!(matches!(acts[0], WorkerAction::Exit));
}

#[test]
fn producer_fast_path_filters_and_batches() {
    let (tx, _rx) = open_transport();
    let mut buf: Vec<LogEntry> = Vec::new();
    let mut clock = ThreadClock::new();
    let name = Some(String::from("svc"));

    log_record(&mut buf, &tx, &mut clock, &name, Level::Debug, Level::Info, "dropped");
    assert_eq!(buf.len(), 0);

    log_record(&mut buf, &tx, &mut clock, &name, Level::Error, Level::Info, "kept");
    assert_eq!(buf.len(), 1);
    assert_eq!(buf[0].msg(), "kept");
    assert_eq!(buf[0].name(), Some("svc"));
    assert_eq!(buf[0].level(), Level::Error);
    assert!(buf[0].ts().nanos < 1_000_000_000);
}

#[test]
fn console_sink_opens_nothing_and_writes_unix_lines_in_order() {
    let (mut st, boot) = WorkerState::new(SinkConfig { path: None, unix_ts: true });
    assert_eq!(boot.len(), 0);
    let batch = vec![
        entry(1_705_314_605, 1, "first"),
        entry(1_705_314_605, 2, "second"),
    ];
    let acts = st.step(RecvOutcome::Message(Directive::WriteBatch(batch)));
    let writes: Vec<&String> = acts
        .iter()
        .filter_map(|a| match a {
            WorkerAction::Write(s) => Some(s),
            _ => None,
        })
        .collect();
    assert_eq!(writes.len(), 2);
    assert_eq!(
        writes[0].as_str(),
        "time=1705314605.000000001 level=info name=app msg=\"first\"\n"
    );
    assert_eq!(
        writes[1].as_str(),
        "time=1705314605.000000002 level=info name=app msg=\"second\"\n"
    );
    assert!(!acts.iter().any(|a| matches!(a, WorkerAction::Open(_))));
}

#[test]
fn exit_flushes_once_more_and_terminates() {
    let (mut st, _) = WorkerState::new(SinkConfig { path: None, unix_ts: false });
    let acts = st.step(RecvOutcome::Message(Directive::Exit));
    assert_eq!(acts.len(), 2);
    assert!(matches!(acts[0], WorkerAction::Flush));
    assert!(matches!(acts[1], WorkerAction::Exit));
}

#[test]
fn flush_directive_forces_a_flush() {
    let (mut st, _) = WorkerState::new(SinkConfig { path: None, unix_ts: false });
    let acts = st.step(RecvOutcome::Message(Directive::Flush));
    assert!(!acts.is_empty());
    assert!(acts.iter().all(|a| matches!(a, WorkerAction::Flush)));
}

#[test]
fn timeout_alone_writes_nothing() {
    let (mut st, _) = WorkerState::new(SinkConfig { path: None, unix_ts: false });
    let acts = st.step(RecvOutcome::TimedOut);
    assert!(acts.len() <= 1);
    assert!(acts.iter().all(|a| matches!(a, WorkerAction::Flush)));
}

#[test]
fn day_change_rotates_between_two_files() {
    // 2024-01-15T23:59:59.9Z, then 2024-01-16T00:00:00.1Z.
    let (mut st, boot) = WorkerState::new(SinkConfig {
        path: Some(String::from("app.log")),
        unix_ts: false,
    });
    assert_eq!(boot.len(), 1);
    match &boot[0] {
        WorkerAction::Open(p) => {
            assert!(p.starts_with("app_"));
            assert!(p.ends_with(".log"));
        }
        _ => panic!("expected the initial open"),
    }
    let batch = vec![
        entry(1_705_363_199, 900_000_000, "before midnight"),
        entry(1_705_363_200, 100_000_000, "after midnight"),
    ];
    let acts = st.step(RecvOutcome::Message(Directive::WriteBatch(batch)));
    assert_eq!(acts.len(), 4);
    match &acts[0] {
        WorkerAction::Open(p) => assert_eq!(p.as_str(), "app_20240115.log"),
        _ => panic!("expected a rotation to the first day"),
    }
    match &acts[1] {
        WorkerAction::Write(s) => assert_eq!(
            s.as_str(),
            "time=2024-01-15T23:59:59.900000+00:00 level=info name=app msg=\"before midnight\"\n"
        ),
        _ => panic!("expected the first line"),
    }
    match &acts[2] {
        WorkerAction::Open(p) => assert_eq!(p.as_str(), "app_20240116.log"),
        _ => panic!("expected a rotation to the second day"),
    }
    match &acts[3] {
        WorkerAction::Write(s) => assert_eq!(
            s.as_str(),
            "time=2024-01-16T00:00:00.100000+00:00 level=info name=app msg=\"after midnight\"\n"
        ),
        _ => panic!("expected the second line"),
    }
}

#[test]
fn same_day_entries_share_one_file() {
    let (mut st, _) = WorkerState::new(SinkConfig {
        path: Some(String::from("app.log")),
        unix_ts: false,
    });
    let batch = vec![
        entry(1_705_314_605, 0, "one"),
        entry(1_705_314_606, 0, "two"),
    ];
    let acts = st.step(RecvOutcome::Message(Directive::WriteBatch(batch)));
    let opens = acts
        .iter()
        .filter(|a| matches!(a, WorkerAction::Open(_)))
        .count();
    let writes = acts
        .iter()
        .filter(|a| matches!(a, WorkerAction::Write(_)))
        .count();
    assert_eq!(opens, 1);
    assert_eq!(writes, 2);
}
