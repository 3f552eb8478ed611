//! The capture loop's engine: one sink per configured channel, and the
//! decisions of one poll cycle — which sinks to read, what to append to
//! which file, and how a sink degrades when its file can no longer be
//! written.
//!
//! The reads from the target and the file appends are I/O done by the
//! caller, which feeds every outcome back in here; everything that is
//! decided about those outcomes is verified. A sink's `written` field is
//! the model of its file: every byte run successfully appended, in order.

use vstd::prelude::*;

verus! {

/// One bound sink: an exclusively owned upstream channel drained into one
/// output file.
pub struct ChannelSink {
    /// Index of the upstream channel this sink drains.
    pub up: usize,
    /// Diagnostic label.
    pub name: String,
    /// Path of the output file.
    pub path: String,
    /// True until an output write fails; a dead sink is skipped on every
    /// later cycle, with no recovery for the rest of the run.
    pub working: bool,
    /// Model of the output file's content: the byte runs successfully
    /// appended so far, concatenated in the order they were received.
    pub written: Ghost<Seq<u8>>,
}

/// Outcome of one best-effort read of a sink's upstream channel.
pub enum ReadOutcome {
    /// The bytes that were available, possibly none.
    Bytes(Vec<u8>),
    /// A transport-level read failure.
    ReadError,
}

/// What the loop must do for one sink after one channel read.
pub enum SinkAction {
    /// No bytes were available; nothing to do.
    Idle,
    /// Append exactly these bytes, in this order, to the sink's file, and
    /// record the result with `record_append`.
    Append(Vec<u8>),
    /// Report the read failure; the sink stays alive and its file is
    /// untouched.
    Report,
}

/// The action that one read outcome calls for: available bytes are
/// appended, an empty read is a no-op, and a read error is only reported —
/// read failures never kill a sink, only write failures do.
pub open spec fn classify_read_spec(outcome: ReadOutcome) -> SinkAction {
    match outcome {
        ReadOutcome::Bytes(b) => if b@.len() == 0 {
            SinkAction::Idle
        } else {
            SinkAction::Append(b)
        },
        ReadOutcome::ReadError => SinkAction::Report,
    }
}

/// Decide what one read outcome requires of the loop.
pub fn classify_read(outcome: ReadOutcome) -> (a: SinkAction)
    ensures
        a == classify_read_spec(outcome),
{
    match outcome {
        ReadOutcome::Bytes(b) => if b.len() == 0 {
            SinkAction::Idle
        } else {
            SinkAction::Append(b)
        },
        ReadOutcome::ReadError => SinkAction::Report,
    }
}

impl ChannelSink {
    /// Record the result of appending `bytes` to this sink's file: on
    /// success the file grew by exactly those bytes, in order; on failure
    /// the sink is permanently disabled and no other part of it changes.
    /// The new state is exactly what the cycle model `sink_cycle` gives.
    pub fn record_append(&mut self, bytes: &Vec<u8>, write_ok: bool)
        requires
            old(self).working,
        ensures
            final(self).up == old(self).up,
            final(self).name == old(self).name,
            final(self).path == old(self).path,
            write_ok ==> final(self).working && final(self).written@ == old(self).written@
                + bytes@,
            !write_ok ==> !final(self).working && final(self).written@ == old(self).written@,
            (final(self).working, final(self).written@) == sink_cycle(
                old(self).working,
                old(self).written@,
                SinkAction::Append(*bytes),
                write_ok,
            ),
    {
        if write_ok {
            self.written = Ghost(self.written@ + bytes@);
        } else {
            self.working = false;
        }
    }
}

/// The aggregate of all sinks of one run. The set of sinks is fixed once
/// binding succeeds; each holds a distinct upstream channel.
pub struct CaptureSession {
    pub sinks: Vec<ChannelSink>,
}

impl CaptureSession {
    /// Session invariant: no two sinks share an upstream channel.
    pub open spec fn wf(self) -> bool {
        forall|i: int, j: int|
            0 <= i < j < self.sinks@.len() ==> self.sinks@[i].up != self.sinks@[j].up
    }

    /// How many sinks the session holds.
    pub fn sink_count(&self) -> (n: usize)
        ensures
            n == self.sinks@.len(),
    {
        self.sinks.len()
    }

    /// Whether the loop polls sink `i` this cycle: dead sinks are skipped.
    pub fn should_poll(&self, i: usize) -> (r: bool)
        requires
            i < self.sinks@.len(),
        ensures
            r == self.sinks@[i as int].working,
    {
        self.sinks[i].working
    }

    /// Record the result of appending `bytes` to sink `i`'s file. Every
    /// other sink is left exactly as it was: a write failure disables sink
    /// `i` alone, and bytes never cross from one file to another.
    pub fn record_append(&mut self, i: usize, bytes: &Vec<u8>, write_ok: bool)
        requires
            i < old(self).sinks@.len(),
            old(self).sinks@[i as int].working,
        ensures
            final(self).sinks@.len() == old(self).sinks@.len(),
            forall|j: int|
                0 <= j < final(self).sinks@.len() && j != i
                    ==> final(self).sinks@[j] == old(self).sinks@[j],
            final(self).sinks@[i as int].up == old(self).sinks@[i as int].up,
            final(self).sinks@[i as int].name == old(self).sinks@[i as int].name,
            final(self).sinks@[i as int].path == old(self).sinks@[i as int].path,
            write_ok ==> final(self).sinks@[i as int].working
                && final(self).sinks@[i as int].written@
                == old(self).sinks@[i as int].written@ + bytes@,
            !write_ok ==> !final(self).sinks@[i as int].working
                && final(self).sinks@[i as int].written@
                == old(self).sinks@[i as int].written@,
            old(self).wf() ==> final(self).wf(),
    {
        let sink = &mut self.sinks[i];
        sink.record_append(bytes, write_ok);
    }
}

/// The model of one poll cycle of one sink: its `working` flag and file
/// content before the cycle, the action its read called for, and whether
/// the append (when one was needed) succeeded.
pub open spec fn sink_cycle(
    working: bool,
    written: Seq<u8>,
    action: SinkAction,
    write_ok: bool,
) -> (bool, Seq<u8>) {
    if !working {
        (working, written)
    } else {
        match action {
            SinkAction::Idle => (true, written),
            SinkAction::Report => (true, written),
            SinkAction::Append(b) => if write_ok {
                (true, written + b@)
            } else {
                (false, written)
            },
        }
    }
}

/// The model of a sink over any number of later cycles.
pub open spec fn sink_run(
    working: bool,
    written: Seq<u8>,
    cycles: Seq<(SinkAction, bool)>,
) -> (bool, Seq<u8>)
    decreases cycles.len(),
{
    if cycles.len() == 0 {
        (working, written)
    } else {
        let s = sink_cycle(working, written, cycles[0].0, cycles[0].1);
        sink_run(s.0, s.1, cycles.drop_first())
    }
}

/// Idempotence law: a cycle in which the channel yielded zero bytes leaves
/// the sink's file content (and the sink) unchanged.
pub proof fn lemma_zero_read_idempotent(
    written: Seq<u8>,
    outcome: ReadOutcome,
    write_ok: bool,
)
    requires
        outcome matches ReadOutcome::Bytes(b) && b@.len() == 0,
    ensures
        sink_cycle(true, written, classify_read_spec(outcome), write_ok) == (true, written),
{
}

/// The bytes a cycle script appends: the byte runs of its append actions,
/// concatenated in script order.
pub open spec fn appended_bytes(cycles: Seq<(SinkAction, bool)>) -> Seq<u8>
    decreases cycles.len(),
{
    if cycles.len() == 0 {
        Seq::empty()
    } else {
        (match cycles[0].0 {
            SinkAction::Append(b) => b@,
            _ => Seq::empty(),
        }) + appended_bytes(cycles.drop_first())
    }
}

/// Ordering law, over any number of cycles: when every append succeeds, a
/// sink's file holds what it held before followed by every received byte
/// run, concatenated in exactly the order the reads returned them.
pub proof fn lemma_run_ordering(written: Seq<u8>, cycles: Seq<(SinkAction, bool)>)
    requires
        forall|k: int| 0 <= k < cycles.len() ==> (#[trigger] cycles[k]).1,
    ensures
        sink_run(true, written, cycles) == (true, written + appended_bytes(cycles)),
    decreases cycles.len(),
{
    if cycles.len() == 0 {
        assert(written + appended_bytes(cycles) =~= written);
    } else {
        let s = sink_cycle(true, written, cycles[0].0, cycles[0].1);
        assert(s.0);
        lemma_run_ordering(s.1, cycles.drop_first());
        assert(s.1 + appended_bytes(cycles.drop_first()) =~= written + appended_bytes(cycles));
    }
}

/// A dead sink never changes again: whatever later cycles bring, its file
/// content is frozen.
pub proof fn lemma_dead_sink_stays(written: Seq<u8>, cycles: Seq<(SinkAction, bool)>)
    ensures
        sink_run(false, written, cycles) == (false, written),
    decreases cycles.len(),
{
    if cycles.len() > 0 {
        lemma_dead_sink_stays(written, cycles.drop_first());
    }
}

/// Failure-isolation law, per sink: once an append fails, the sink is dead
/// and its file stops growing for the rest of the run; `record_append`'s
/// contract adds that no other sink is touched by any of this.
pub proof fn lemma_failure_isolation(
    written: Seq<u8>,
    b: Vec<u8>,
    cycles: Seq<(SinkAction, bool)>,
)
    ensures
        ({
            let s = sink_cycle(true, written, SinkAction::Append(b), false);
            sink_run(s.0, s.1, cycles) == (false, written)
        }),
{
    lemma_dead_sink_stays(written, cycles);
}

/// How many full passes the capture loop makes, given the value of the
/// shared cancellation flag that its once-per-pass check observed before
/// each pass (`true` = keep running).
pub open spec fn passes_completed(checks: Seq<bool>) -> nat
    decreases checks.len(),
{
    if checks.len() == 0 {
        0
    } else if !checks[0] {
        0
    } else {
        1 + passes_completed(checks.drop_first())
    }
}

/// Cancellation law: the loop consults the shared flag once per full pass,
/// so once a check observes the flag cleared, no further pass begins — at
/// most the pass already under way when the flag was set completes.
pub proof fn lemma_cancellation(checks: Seq<bool>, k: int)
    requires
        0 <= k < checks.len(),
        !checks[k],
    ensures
        passes_completed(checks) <= k,
    decreases k,
{
    if k > 0 && checks[0] {
        lemma_cancellation(checks.drop_first(), k - 1);
    }
}

} // verus!
