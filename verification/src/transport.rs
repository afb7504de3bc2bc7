//! The bounded transport between producers and a sink's worker, and the
//! producer fast path: thread-exclusive batching with a full-buffer hand-off.

use vstd::prelude::*;
use crate::clock::ThreadClock;
use crate::entry::{LogEntry, LogMessage};
use crate::level::{enabled, enabled_spec, Level};

verus! {

/// Capacity of the bounded transport of one sink.
pub const CHANNEL_CAPACITY: usize = 65536;

/// Number of entries a thread accumulates before handing a batch off.
pub const ENTRY_BATCH_SIZE: usize = 32;

/// A message on the transport: a batch of entries, a flush request, or the
/// shutdown directive.
pub enum Directive {
    WriteBatch(Vec<LogEntry>),
    Flush,
    Exit,
}

/// What one bounded wait on the transport produced.
pub enum RecvOutcome {
    Message(Directive),
    TimedOut,
    Disconnected,
}

#[verifier::external_type_specification]
#[verifier::external_body]
#[verifier::reject_recursive_types(T)]
pub struct ExSender<T>(crossbeam_channel::Sender<T>);

#[verifier::external_type_specification]
#[verifier::external_body]
#[verifier::reject_recursive_types(T)]
pub struct ExReceiver<T>(crossbeam_channel::Receiver<T>);

/// Relies on crossbeam_channel::bounded: a channel holding at most `cap`
/// messages; senders block while it is full, and messages arrive in send
/// order per sender.
#[verifier::external_body]
fn channel_bounded(cap: usize) -> (pair: (
    crossbeam_channel::Sender<Directive>,
    crossbeam_channel::Receiver<Directive>,
)) {
    crossbeam_channel::bounded(cap)
}

/// Relies on crossbeam_channel::Sender::send: blocks while the channel is
/// full; delivers the message unless every receiver is gone, in which case it
/// hands the message back untouched.
#[verifier::external_body]
fn channel_send(tx: &crossbeam_channel::Sender<Directive>, d: Directive) -> (r: Result<
    (),
    Directive,
>)
    ensures
        r matches Err(back) ==> back == d,
{
    match tx.send(d) {
        Ok(()) => Ok(()),
        Err(e) => Err(e.0),
    }
}

/// Relies on crossbeam_channel::Receiver::recv_timeout: waits up to the
/// timeout for the next message and tells a lapse from a disconnection.
#[verifier::external_body]
fn channel_recv_timeout(rx: &crossbeam_channel::Receiver<Directive>, timeout_secs: u64) -> (ev:
    RecvOutcome) {
    match rx.recv_timeout(std::time::Duration::from_secs(timeout_secs)) {
        Ok(d) => RecvOutcome::Message(d),
        Err(crossbeam_channel::RecvTimeoutError::Timeout) => RecvOutcome::TimedOut,
        Err(crossbeam_channel::RecvTimeoutError::Disconnected) => RecvOutcome::Disconnected,
    }
}

/// Open the bounded transport for one sink.
pub fn open_transport() -> (pair: (
    crossbeam_channel::Sender<Directive>,
    crossbeam_channel::Receiver<Directive>,
)) {
    channel_bounded(CHANNEL_CAPACITY)
}

/// Wait up to one second for the next directive.
pub fn poll_directive(rx: &crossbeam_channel::Receiver<Directive>) -> (ev: RecvOutcome) {
    channel_recv_timeout(rx, 1)
}

/// Append an entry to a thread's exclusive batch buffer; when the buffer
/// reaches the batch size, it is swapped for an empty one and the filled
/// batch is returned for hand-off.
pub fn batch_push(buf: &mut Vec<LogEntry>, e: LogEntry) -> (full: Option<Vec<LogEntry>>)
    ensures
        match full {
            None => final(buf)@ == old(buf)@.push(e) && old(buf)@.len() + 1 < ENTRY_BATCH_SIZE,
            Some(b) => b@ == old(buf)@.push(e) && final(buf)@ == Seq::<LogEntry>::empty() && old(
                buf,
            )@.len() + 1 >= ENTRY_BATCH_SIZE,
        },
{
    buf.push(e);
    if buf.len() >= ENTRY_BATCH_SIZE {
        let mut batch: Vec<LogEntry> = Vec::new();
        core::mem::swap(buf, &mut batch);
        Some(batch)
    } else {
        None
    }
}

/// Append to the thread's batch and hand a full batch to the transport. A
/// send after the consumer is gone is a deliberate no-op: after shutdown,
/// entries are dropped rather than stalling or faulting the caller.
pub fn push_entry(buf: &mut Vec<LogEntry>, tx: &crossbeam_channel::Sender<Directive>, e: LogEntry)
    ensures
        old(buf)@.len() + 1 < ENTRY_BATCH_SIZE ==> final(buf)@ == old(buf)@.push(e),
        old(buf)@.len() + 1 >= ENTRY_BATCH_SIZE ==> final(buf)@ == Seq::<LogEntry>::empty(),
{
    match batch_push(buf, e) {
        Some(batch) => {
            let _ = channel_send(tx, Directive::WriteBatch(batch));
        },
        None => {},
    }
}

/// Hand any partial thread-local batch to the transport.
pub fn flush_thread_buffer(buf: &mut Vec<LogEntry>, tx: &crossbeam_channel::Sender<Directive>)
    ensures
        final(buf)@ == Seq::<LogEntry>::empty(),
{
    if buf.len() > 0 {
        let mut batch: Vec<LogEntry> = Vec::new();
        core::mem::swap(buf, &mut batch);
        let _ = channel_send(tx, Directive::WriteBatch(batch));
    }
}

/// Explicit flush: drain the thread's partial batch, then ask the consumer to
/// synchronize the output to storage.
pub fn flush_sink(buf: &mut Vec<LogEntry>, tx: &crossbeam_channel::Sender<Directive>)
    ensures
        final(buf)@ == Seq::<LogEntry>::empty(),
{
    flush_thread_buffer(buf, tx);
    let _ = channel_send(tx, Directive::Flush);
}

/// Begin shutdown of the sink's worker.
pub fn send_exit(tx: &crossbeam_channel::Sender<Directive>) {
    let _ = channel_send(tx, Directive::Exit);
}

/// The view of an optional logger name.
pub open spec fn opt_str_view(o: Option<String>) -> Option<Seq<char>> {
    match o {
        Some(s) => Some(s@),
        None => None,
    }
}

/// The producer fast path for one call: filter by severity, capture the
/// message (inline when it fits, heap otherwise — never truncated), stamp it
/// from the thread's cached clock, and append it to the thread's batch,
/// handing a full batch to the transport.
pub fn log_record(
    buf: &mut Vec<LogEntry>,
    tx: &crossbeam_channel::Sender<Directive>,
    clock: &mut ThreadClock,
    name: &Option<String>,
    level: Level,
    min: Level,
    msg: &str,
)
    requires
        old(clock).wf(),
    ensures
        final(clock).wf(),
        !enabled_spec(level, min) ==> final(buf)@ == old(buf)@,
        enabled_spec(level, min) ==> exists|e: LogEntry|
            {
                &&& e.wf()
                &&& e.level == level
                &&& e.msg@ == msg@
                &&& e.name_view() == opt_str_view(*name)
                &&& (old(buf)@.len() + 1 < ENTRY_BATCH_SIZE ==> final(buf)@ == old(buf)@.push(e))
                &&& (old(buf)@.len() + 1 >= ENTRY_BATCH_SIZE ==> final(buf)@ == Seq::<
                    LogEntry,
                >::empty())
            },
{
    if !enabled(level, min) {
        return ;
    }
    let m = LogMessage::new(msg);
    let ts = clock.now();
    let n: Option<String> = match name {
        Some(s) => Some(s.clone()),
        None => None,
    };
    let e = LogEntry::new(ts, n, level, m);
    proof {
        assert(e.name_view() == opt_str_view(*name));
    }
    push_entry(buf, tx, e);
}

} // verus!
