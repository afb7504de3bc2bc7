//! Pipeline-wide ordering laws: per-thread call order survives batching on
//! the producer side and batch processing on the consumer side.

use vstd::prelude::*;
use crate::civil::CivilTime;
use crate::entry::LogEntry;
use crate::render::{render_entry, unix_line};
use crate::worker::{rendered_lines, rendered_unix};

verus! {

/// The entries of a sequence of handed-off batches, concatenated in order.
pub open spec fn concat_batches(batches: Seq<Seq<LogEntry>>) -> Seq<LogEntry>
    decreases batches.len(),
{
    if batches.len() == 0 {
        Seq::<LogEntry>::empty()
    } else {
        concat_batches(batches.drop_last()) + batches.last()
    }
}

/// One producer call preserves per-thread order. A thread's pending entries
/// are the batches it has handed to the transport, concatenated, followed by
/// its buffered ones; whether a call only buffers the entry or completes a
/// batch that is handed off whole (leaving the buffer empty), the pending
/// sequence afterwards is the pending sequence before with the entry appended.
pub proof fn lemma_producer_order_push(sent: Seq<Seq<LogEntry>>, buf: Seq<LogEntry>, e: LogEntry)
    ensures
        concat_batches(sent) + buf.push(e) == (concat_batches(sent) + buf).push(e),
        concat_batches(sent.push(buf.push(e))) + Seq::<LogEntry>::empty() == (concat_batches(sent)
            + buf).push(e),
{
    assert(concat_batches(sent) + buf.push(e) =~= (concat_batches(sent) + buf).push(e));
    assert(sent.push(buf.push(e)).drop_last() =~= sent);
    assert(concat_batches(sent.push(buf.push(e))) == concat_batches(sent) + buf.push(e));
    assert(concat_batches(sent) + buf.push(e) + Seq::<LogEntry>::empty() =~= (concat_batches(sent)
        + buf).push(e));
}

/// A batch produces exactly one line per entry.
pub proof fn lemma_rendered_lines_len(entries: Seq<LogEntry>, civils: Seq<CivilTime>, unix: bool)
    requires
        civils.len() == entries.len(),
    ensures
        rendered_lines(entries, civils, unix).len() == entries.len(),
    decreases entries.len(),
{
    if entries.len() > 0 {
        lemma_rendered_lines_len(entries.drop_last(), civils.drop_last(), unix);
    }
}

/// The worker emits a batch in order: the i-th written line of a batch is the
/// rendering of the i-th entry against the i-th breakdown.
pub proof fn lemma_rendered_lines_index(
    entries: Seq<LogEntry>,
    civils: Seq<CivilTime>,
    unix: bool,
    i: int,
)
    requires
        civils.len() == entries.len(),
        0 <= i < entries.len(),
    ensures
        rendered_lines(entries, civils, unix)[i] == render_entry(civils[i], entries[i], unix),
    decreases entries.len(),
{
    lemma_rendered_lines_len(entries.drop_last(), civils.drop_last(), unix);
    if i < entries.len() - 1 {
        lemma_rendered_lines_index(entries.drop_last(), civils.drop_last(), unix, i);
        assert(entries.drop_last()[i] == entries[i]);
        assert(civils.drop_last()[i] == civils[i]);
    }
}

/// Lines of successive batches from one thread appear in order: rendering the
/// concatenation of two batches yields the lines of the first followed by the
/// lines of the second.
pub proof fn lemma_rendered_unix_concat(a: Seq<LogEntry>, b: Seq<LogEntry>)
    ensures
        rendered_unix(a + b) == rendered_unix(a) + rendered_unix(b),
    decreases b.len(),
{
    if b.len() == 0 {
        assert(a + b =~= a);
        assert(rendered_unix(a) + rendered_unix(b) =~= rendered_unix(a));
    } else {
        lemma_rendered_unix_concat(a, b.drop_last());
        assert((a + b).drop_last() =~= a + b.drop_last());
        assert((a + b).last() == b.last());
        assert(rendered_unix(a + b.drop_last()) + seq![unix_line(b.last())] =~= rendered_unix(a)
            + rendered_unix(b));
    }
}

/// The unix-mode analogue: the i-th line of a batch is the unix line of the
/// i-th entry, a pure function of that entry.
pub proof fn lemma_rendered_unix_index(entries: Seq<LogEntry>, i: int)
    requires
        0 <= i < entries.len(),
    ensures
        rendered_unix(entries).len() == entries.len(),
        rendered_unix(entries)[i] == unix_line(entries[i]),
    decreases entries.len(),
{
    if entries.len() == 1 {
        assert(entries.drop_last() =~= Seq::<LogEntry>::empty());
        assert(rendered_unix(Seq::<LogEntry>::empty()) == Seq::<Seq<char>>::empty());
    } else {
        lemma_rendered_unix_index(entries.drop_last(), if i < entries.len() - 1 {
            i
        } else {
            0
        });
        if i < entries.len() - 1 {
            assert(entries.drop_last()[i] == entries[i]);
        }
    }
}

} // verus!
