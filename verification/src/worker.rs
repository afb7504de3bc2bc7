//! The consumer side of one sink: a state machine from received directives to
//! output actions. The surrounding thread loop performs the actions (open,
//! write, flush) and stops at `Exit`; every decision here is verified.

use vstd::prelude::*;
use crate::civil::{local_civil, CivilDate, CivilTime};
use crate::clock::{elapsed_parts, monotonic_now, now_timestamp};
use crate::entry::LogEntry;
use crate::render::{format_entry, render_entry, unix_line, RenderCache};
use crate::rotate::{rotated_path, rotated_path_spec};
use crate::transport::{Directive, RecvOutcome};

verus! {

/// What the worker asks its surrounding loop to do, in order: switch the sink
/// to a (rotated) file, write a formatted line, force the buffered output to
/// storage, or terminate.
pub enum WorkerAction {
    Open(String),
    Write(String),
    Flush,
    Exit,
}

/// The payload of a `Write` action.
pub open spec fn write_payload(a: WorkerAction) -> Seq<char> {
    match a {
        WorkerAction::Write(s) => s@,
        _ => Seq::<char>::empty(),
    }
}

/// The payload of an `Open` action.
pub open spec fn open_payload(a: WorkerAction) -> Seq<char> {
    match a {
        WorkerAction::Open(s) => s@,
        _ => Seq::<char>::empty(),
    }
}

/// The written lines of an action sequence, in order, rotation and flush
/// actions skipped.
pub open spec fn write_payloads(acts: Seq<WorkerAction>) -> Seq<Seq<char>>
    decreases acts.len(),
{
    if acts.len() == 0 {
        Seq::<Seq<char>>::empty()
    } else {
        write_payloads(acts.drop_last()) + (if acts.last() is Write {
            seq![write_payload(acts.last())]
        } else {
            Seq::<Seq<char>>::empty()
        })
    }
}

/// The lines of a batch, each rendered against its own civil breakdown.
pub open spec fn rendered_lines(
    entries: Seq<LogEntry>,
    civils: Seq<CivilTime>,
    unix: bool,
) -> Seq<Seq<char>>
    decreases entries.len(),
{
    if entries.len() == 0 {
        Seq::<Seq<char>>::empty()
    } else {
        rendered_lines(entries.drop_last(), civils.drop_last(), unix) + seq![
            render_entry(civils.last(), entries.last(), unix),
        ]
    }
}

/// The lines of a batch in unix mode: a pure function of the entries.
pub open spec fn rendered_unix(entries: Seq<LogEntry>) -> Seq<Seq<char>>
    decreases entries.len(),
{
    if entries.len() == 0 {
        Seq::<Seq<char>>::empty()
    } else {
        rendered_unix(entries.drop_last()) + seq![unix_line(entries.last())]
    }
}

/// In unix mode the civil breakdowns do not matter: the rendered lines are a
/// function of the entries alone.
pub proof fn lemma_rendered_unix(entries: Seq<LogEntry>, civils: Seq<CivilTime>)
    requires
        civils.len() == entries.len(),
    ensures
        rendered_lines(entries, civils, true) == rendered_unix(entries),
    decreases entries.len(),
{
    if entries.len() > 0 {
        lemma_rendered_unix(entries.drop_last(), civils.drop_last());
    }
}

/// Appending a non-write action leaves the written lines unchanged.
proof fn lemma_payloads_push_other(a: Seq<WorkerAction>, x: WorkerAction)
    requires
        !(x is Write),
    ensures
        write_payloads(a.push(x)) == write_payloads(a),
{
    assert(a.push(x).drop_last() =~= a);
}

/// Appending a write action appends its line.
proof fn lemma_payloads_push_write(a: Seq<WorkerAction>, x: WorkerAction)
    requires
        x is Write,
    ensures
        write_payloads(a.push(x)) == write_payloads(a) + seq![write_payload(x)],
{
    assert(a.push(x).drop_last() =~= a);
}

/// Whether every `Open` in `a` names a dated rotation of `path` (and appears
/// only when the sink has a path at all).
pub open spec fn opens_are_rotations(a: Seq<WorkerAction>, path_some: bool, path: Seq<char>) -> bool {
    forall|j: int|
        0 <= j < a.len() && (#[trigger] a[j]) is Open ==> path_some && (exists|d: CivilDate|
            d.wf() && open_payload(a[j]) == rotated_path_spec(path, d))
}

/// The `Open` property extends over a push whose new element satisfies it.
proof fn lemma_opens_extend(
    prev: Seq<WorkerAction>,
    cur: Seq<WorkerAction>,
    x: WorkerAction,
    path_some: bool,
    path: Seq<char>,
)
    requires
        cur == prev.push(x),
        opens_are_rotations(prev, path_some, path),
        x is Open ==> path_some && (exists|d: CivilDate|
            d.wf() && open_payload(x) == rotated_path_spec(path, d)),
    ensures
        opens_are_rotations(cur, path_some, path),
{
    assert forall|j: int|
        0 <= j < cur.len() && (#[trigger] cur[j]) is Open implies path_some && (exists|
        d: CivilDate,
    |
        d.wf() && open_payload(cur[j]) == rotated_path_spec(path, d)) by {
        if j < prev.len() {
            assert(cur[j] == prev[j]);
        } else {
            assert(cur[j] == x);
        }
    }
}

/// All entries carried by an event are well formed.
pub open spec fn event_wf(ev: RecvOutcome) -> bool {
    match ev {
        RecvOutcome::Message(Directive::WriteBatch(b)) => forall|i: int|
            0 <= i < b@.len() ==> (#[trigger] b@[i]).wf(),
        _ => true,
    }
}

/// Fixed configuration of one sink.
pub struct SinkConfig {
    pub path: Option<String>,
    pub unix_ts: bool,
}

/// The view of the configured path; empty for a console sink.
pub open spec fn path_view(c: SinkConfig) -> Seq<char> {
    match c.path {
        Some(p) => p@,
        None => Seq::<char>::empty(),
    }
}

/// Worker-owned state: the sink configuration, the current rotation date, the
/// per-second formatting cache and the periodic-flush anchor.
pub struct WorkerState {
    pub config: SinkConfig,
    pub date: CivilDate,
    pub cache: RenderCache,
    pub last_flush: std::time::Instant,
}

impl WorkerState {
    pub open spec fn wf(&self) -> bool {
        self.cache.wf()
    }

    /// Start a worker: remember today's local date as the rotation date and,
    /// for a file sink, ask for today's rotated file to be opened. A console
    /// sink opens nothing and is never rotated.
    pub fn new(config: SinkConfig) -> (r: (WorkerState, Vec<WorkerAction>))
        ensures
            r.0.wf(),
            r.0.config == config,
            config.path is Some ==> r.1@.len() == 1 && r.1@[0] is Open && (exists|d: CivilDate|
                d.wf() && open_payload(r.1@[0]) == rotated_path_spec(path_view(config), d)),
            config.path is None ==> r.1@.len() == 0,
    {
        let t = now_timestamp();
        let c = local_civil(t.secs);
        let date = c.date();
        let mut actions: Vec<WorkerAction> = Vec::new();
        match &config.path {
            Some(p) => {
                let name = rotated_path(p.as_str(), date);
                let ghost nv = name@;
                actions.push(WorkerAction::Open(name));
                proof {
                    assert(date.wf());
                    assert(open_payload(actions@[0]) == nv);
                    assert(nv == rotated_path_spec(path_view(config), date));
                }
            },
            None => {},
        }
        let st = WorkerState {
            config,
            date,
            cache: RenderCache::new(),
            last_flush: monotonic_now(),
        };
        (st, actions)
    }

    /// Handle one transport outcome.
    ///
    /// The returned actions are performed in order by the surrounding loop.
    /// A batch becomes one `Write` per entry, in batch order — each line is
    /// `render_entry` of the entry against the civil breakdown of its second,
    /// and in unix mode exactly `unix_line` of the entry — preceded by an
    /// `Open` of the day's rotated filename whenever a file sink's date
    /// changed. `Flush` synchronizes the output; `Exit` flushes once more and
    /// terminates; a disconnected transport terminates without a flush; after
    /// anything but termination, a flush is added when a second has passed
    /// since the last one.
    pub fn step(&mut self, event: RecvOutcome) -> (acts: Vec<WorkerAction>)
        requires
            old(self).wf(),
            event_wf(event),
        ensures
            final(self).wf(),
            final(self).config == old(self).config,
            match event {
                RecvOutcome::Message(Directive::WriteBatch(b)) => exists|cs: Seq<CivilTime>|
                    cs.len() == b@.len() && (forall|i: int|
                        0 <= i < cs.len() ==> (#[trigger] cs[i]).wf()) && write_payloads(acts@)
                        == rendered_lines(b@, cs, old(self).config.unix_ts),
                _ => write_payloads(acts@) == Seq::<Seq<char>>::empty(),
            },
            match event {
                RecvOutcome::Message(Directive::WriteBatch(b)) => old(self).config.unix_ts
                    ==> write_payloads(acts@) == rendered_unix(b@),
                RecvOutcome::Message(Directive::Flush) => 1 <= acts@.len() <= 2 && forall|i: int|
                    0 <= i < acts@.len() ==> (#[trigger] acts@[i]) is Flush,
                RecvOutcome::Message(Directive::Exit) => acts@.len() == 2 && acts@[0] is Flush
                    && acts@[1] is Exit,
                RecvOutcome::TimedOut => acts@.len() <= 1 && forall|i: int|
                    0 <= i < acts@.len() ==> (#[trigger] acts@[i]) is Flush,
                RecvOutcome::Disconnected => acts@.len() == 1 && acts@[0] is Exit,
            },
            opens_are_rotations(
                acts@,
                old(self).config.path is Some,
                path_view(old(self).config),
            ),
    {
        let ghost path_some = old(self).config.path is Some;
        let ghost pathv = path_view(old(self).config);
        let mut actions: Vec<WorkerAction> = Vec::new();
        match event {
            RecvOutcome::Message(d) => match d {
                Directive::WriteBatch(entries) => {
                    let unix = self.config.unix_ts;
                    let ghost mut cs: Seq<CivilTime> = Seq::<CivilTime>::empty();
                    let n = entries.len();
                    let mut i: usize = 0;
                    while i < n
                        invariant
                            i <= n == entries@.len(),
                            self.wf(),
                            self.config == old(self).config,
                            unix == old(self).config.unix_ts,
                            path_some == (old(self).config.path is Some),
                            pathv == path_view(old(self).config),
                            forall|j: int| 0 <= j < entries@.len() ==> (#[trigger] entries@[j]).wf(),
                            cs.len() == i,
                            forall|j: int| 0 <= j < cs.len() ==> (#[trigger] cs[j]).wf(),
                            write_payloads(actions@) == rendered_lines(
                                entries@.take(i as int),
                                cs,
                                unix,
                            ),
                            opens_are_rotations(actions@, path_some, pathv),
                        decreases n - i,
                    {
                        let ghost prev_cs = cs;
                        let e = &entries[i];
                        let line = format_entry(&mut self.cache, e, unix);
                        match &self.config.path {
                            Some(p) => {
                                let cd = self.cache.civil.date();
                                if cd != self.date {
                                    self.date = cd;
                                    let newp = rotated_path(p.as_str(), cd);
                                    let ghost npv = newp@;
                                    let ghost prev_actions = actions@;
                                    actions.push(WorkerAction::Open(newp));
                                    proof {
                                        lemma_payloads_push_other(prev_actions, actions@.last());
                                        assert(open_payload(actions@.last()) == npv);
                                        assert(cd.wf());
                                        assert(p@ == pathv);
                                        assert(npv == rotated_path_spec(pathv, cd));
                                        lemma_opens_extend(
                                            prev_actions,
                                            actions@,
                                            actions@.last(),
                                            path_some,
                                            pathv,
                                        );
                                    }
                                }
                            },
                            None => {},
                        }
                        let ghost mid_actions = actions@;
                        actions.push(WorkerAction::Write(line));
                        proof {
                            lemma_payloads_push_write(mid_actions, actions@.last());
                            lemma_opens_extend(
                                mid_actions,
                                actions@,
                                actions@.last(),
                                path_some,
                                pathv,
                            );
                            cs = cs.push(self.cache.civil);
                            assert(entries@.take((i + 1) as int).drop_last() =~= entries@.take(
                                i as int,
                            ));
                            assert(cs.drop_last() =~= prev_cs);
                            assert(entries@.take((i + 1) as int).last() == entries@[i as int]);
                        }
                        i = i + 1;
                    }
                    proof {
                        assert(entries@.take(n as int) =~= entries@);
                        if unix {
                            lemma_rendered_unix(entries@, cs);
                        }
                    }
                },
                Directive::Flush => {
                    let ghost prev_actions = actions@;
                    actions.push(WorkerAction::Flush);
                    proof {
                        lemma_payloads_push_other(prev_actions, actions@.last());
                        lemma_opens_extend(
                            prev_actions,
                            actions@,
                            actions@.last(),
                            path_some,
                            pathv,
                        );
                    }
                },
                Directive::Exit => {
                    let ghost a0 = actions@;
                    actions.push(WorkerAction::Flush);
                    proof {
                        lemma_payloads_push_other(a0, actions@.last());
                        lemma_opens_extend(a0, actions@, actions@.last(), path_some, pathv);
                    }
                    let ghost a1 = actions@;
                    actions.push(WorkerAction::Exit);
                    proof {
                        lemma_payloads_push_other(a1, actions@.last());
                        lemma_opens_extend(a1, actions@, actions@.last(), path_some, pathv);
                    }
                    return actions;
                },
            },
            RecvOutcome::TimedOut => {},
            RecvOutcome::Disconnected => {
                let ghost a0 = actions@;
                actions.push(WorkerAction::Exit);
                proof {
                    lemma_payloads_push_other(a0, actions@.last());
                    lemma_opens_extend(a0, actions@, actions@.last(), path_some, pathv);
                }
                return actions;
            },
        }
        let ghost before_flush = actions@;
        let (es, _en) = elapsed_parts(&self.last_flush);
        if es >= 1 {
            self.last_flush = monotonic_now();
            actions.push(WorkerAction::Flush);
            proof {
                lemma_payloads_push_other(before_flush, actions@.last());
                lemma_opens_extend(before_flush, actions@, actions@.last(), path_some, pathv);
            }
        }
        actions
    }
}

} // verus!
