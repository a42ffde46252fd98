//! One supervision session: the state machine and the fan-out discipline.
//!
//! A session makes a single best-effort spawn attempt and then consumes
//! the child's event channel until it closes. The session owns the
//! histories of both sinks, and its well-formedness ties them together:
//! every captured line stands in the log and in the publication history
//! at the same relative position with the same rendered form, a failed
//! spawn leaves exactly one diagnostic and publishes nothing, and the
//! closing diagnostic is the log's last record once the channel closed.

use vstd::prelude::*;
use crate::emitter::{log_topic, log_topic_spec, EventEmitter};
use crate::log_sink::LogSink;
use crate::multiplexer::{classify, deliveries, delivery_spec, OutputEvent};
use crate::supervisor::{
    failure_line, failure_line_spec, spawn_confirmation_line, spawn_confirmation_spec,
    termination_line, termination_line_spec, SpawnError,
};

verus! {

/// Where a supervision session stands. SpawnFailed and Terminated are
/// terminal: nothing re-enters Spawning.
#[derive(Clone, Copy, PartialEq, Eq, Structural, Debug)]
pub enum SessionState {
    Idle,
    Spawning,
    Running,
    SpawnFailed,
    Terminated,
}

/// What can happen to a session: the host asks for the sidecar, the one
/// spawn attempt succeeds or fails, the event channel closes.
#[derive(Clone, Copy, PartialEq, Eq, Structural, Debug)]
pub enum SessionEvent {
    StartRequested,
    SpawnSucceeded,
    SpawnRejected,
    ChannelClosed,
}

/// The session state machine: Idle → Spawning → {Running, SpawnFailed},
/// Running → Terminated on channel closure; anything else changes
/// nothing.
pub open spec fn step_spec(s: SessionState, e: SessionEvent) -> SessionState {
    match (s, e) {
        (SessionState::Idle, SessionEvent::StartRequested) => SessionState::Spawning,
        (SessionState::Spawning, SessionEvent::SpawnSucceeded) => SessionState::Running,
        (SessionState::Spawning, SessionEvent::SpawnRejected) => SessionState::SpawnFailed,
        (SessionState::Running, SessionEvent::ChannelClosed) => SessionState::Terminated,
        _ => s,
    }
}

/// Law: no transition re-enters Spawning — only the initial start, from
/// Idle, ever enters it, so a session holds at most one spawn attempt.
pub proof fn lemma_spawning_entered_once(s: SessionState, e: SessionEvent)
    ensures
        s != SessionState::Idle && s != SessionState::Spawning
            ==> step_spec(s, e) != SessionState::Spawning,
        step_spec(SessionState::Idle, e) == SessionState::Spawning
            ==> e == SessionEvent::StartRequested,
{
}

/// Law: SpawnFailed and Terminated are terminal — no event leaves them.
pub proof fn lemma_terminal_states_absorb(s: SessionState, e: SessionEvent)
    requires
        s == SessionState::SpawnFailed || s == SessionState::Terminated,
    ensures
        step_spec(s, e) == s,
{
}

/// One supervision session: its state and the histories of both sinks.
/// The host mirrors the sink histories outward (file writes, live
/// events); the session decides what enters them.
pub struct Session {
    pub state: SessionState,
    pub sink: LogSink,
    pub emitter: EventEmitter,
}

impl Session {
    /// The log records written so far.
    pub open spec fn log_lines(self) -> Seq<Seq<char>> {
        self.sink.lines()
    }

    /// The payloads published live so far.
    pub open spec fn published(self) -> Seq<Seq<char>> {
        self.emitter.payloads()
    }

    /// The fan-out discipline. Before the spawn attempt resolves, nothing
    /// was written or published. A failed spawn leaves exactly one
    /// diagnostic record and publishes nothing. While running, the log
    /// holds the spawn confirmation followed by exactly the published
    /// payloads, in publication order; termination appends the closing
    /// diagnostic after them. Everything published went out on the log
    /// topic.
    pub open spec fn wf(self) -> bool {
        &&& self.emitter.topics_ok()
        &&& match self.state {
            SessionState::Idle => self.log_lines().len() == 0 && self.published().len() == 0,
            SessionState::Spawning => self.log_lines().len() == 0 && self.published().len() == 0,
            SessionState::SpawnFailed => self.log_lines().len() == 1 && self.published().len() == 0,
            SessionState::Running => {
                &&& self.log_lines().len() == self.published().len() + 1
                &&& forall|i: int|
                    0 <= i < self.published().len() ==> self.log_lines()[i + 1] == #[trigger] self.published()[i]
            },
            SessionState::Terminated => {
                &&& self.log_lines().len() == self.published().len() + 2
                &&& (forall|i: int|
                    0 <= i < self.published().len() ==> self.log_lines()[i + 1] == #[trigger] self.published()[i])
                &&& self.log_lines().last() == termination_line_spec()
            },
        }
    }

    /// A fresh session: idle, nothing written, nothing published.
    pub fn new() -> (r: Session)
        ensures
            r.wf(),
            r.state == SessionState::Idle,
            r.log_lines().len() == 0,
            r.published().len() == 0,
    {
        Session { state: SessionState::Idle, sink: LogSink::new(), emitter: EventEmitter::new() }
    }

    /// The host asked for the sidecar: the single spawn attempt begins.
    pub fn begin_spawn(&mut self)
        requires
            old(self).wf(),
            old(self).state == SessionState::Idle,
        ensures
            final(self).wf(),
            final(self).state == step_spec(old(self).state, SessionEvent::StartRequested),
            final(self).sink == old(self).sink,
            final(self).emitter == old(self).emitter,
    {
        self.state = SessionState::Spawning;
    }

    /// The spawn attempt failed: the session ends with exactly one
    /// diagnostic record naming the failure, and nothing ever published.
    /// There is no retry.
    pub fn record_failure(&mut self, error: &SpawnError)
        requires
            old(self).wf(),
            old(self).state == SessionState::Spawning,
        ensures
            final(self).wf(),
            final(self).state == step_spec(old(self).state, SessionEvent::SpawnRejected),
            final(self).log_lines() == old(self).log_lines().push(failure_line_spec(*error)),
            final(self).published().len() == 0,
            final(self).emitter == old(self).emitter,
    {
        let line = failure_line(error);
        self.sink.append(line);
        self.state = SessionState::SpawnFailed;
    }

    /// The spawn attempt succeeded: one record confirms it and names the
    /// working directory the session resolved; the channel is now live.
    pub fn record_spawn(&mut self, work_dir: &str)
        requires
            old(self).wf(),
            old(self).state == SessionState::Spawning,
        ensures
            final(self).wf(),
            final(self).state == step_spec(old(self).state, SessionEvent::SpawnSucceeded),
            final(self).log_lines() == old(self).log_lines().push(spawn_confirmation_spec(work_dir@)),
            final(self).published().len() == 0,
            final(self).emitter == old(self).emitter,
    {
        let line = spawn_confirmation_line(work_dir);
        self.sink.append(line);
        self.state = SessionState::Running;
    }

    /// Consumes one event from the channel. A line-bearing event is
    /// decoded, tagged and rendered once, then delivered to the log and
    /// to the live stream, in that order, within this one call — no
    /// batching, no skew between the sinks. Exit and bookkeeping events
    /// change nothing. Returns the rendered line that was delivered, if
    /// any, so the host can mirror it outward.
    pub fn handle_event(&mut self, event: &OutputEvent) -> (delivered: Option<String>)
        requires
            old(self).wf(),
            old(self).state == SessionState::Running,
        ensures
            final(self).wf(),
            final(self).state == SessionState::Running,
            match delivery_spec(*event) {
                Some(line) => {
                    &&& final(self).log_lines() == old(self).log_lines().push(line)
                    &&& final(self).published() == old(self).published().push(line)
                    &&& delivered matches Some(d) && d@ == line
                },
                None => {
                    &&& final(self).sink == old(self).sink
                    &&& final(self).emitter == old(self).emitter
                    &&& delivered is None
                },
            },
    {
        match classify(event) {
            Some(log_line) => {
                let rendered = log_line.rendered();
                self.sink.append(rendered.clone());
                self.emitter.publish(log_topic().to_owned(), rendered.clone());
                Some(rendered)
            },
            None => None,
        }
    }

    /// The channel closed: the child exited and its buffered output was
    /// drained. One closing diagnostic record ends the log; nothing more
    /// is ever published.
    pub fn finish(&mut self)
        requires
            old(self).wf(),
            old(self).state == SessionState::Running,
        ensures
            final(self).wf(),
            final(self).state == step_spec(old(self).state, SessionEvent::ChannelClosed),
            final(self).log_lines() == old(self).log_lines().push(termination_line_spec()),
            final(self).published() == old(self).published(),
    {
        let line = termination_line();
        self.sink.append(line);
        self.state = SessionState::Terminated;
    }

    /// Consumes a whole batch of events in arrival order: both sinks are
    /// extended by exactly the batch's rendered lines, in that order —
    /// stdout and stderr interleavings are preserved, nothing is dropped,
    /// duplicated or reordered.
    pub fn run_events(&mut self, events: &Vec<OutputEvent>)
        requires
            old(self).wf(),
            old(self).state == SessionState::Running,
        ensures
            final(self).wf(),
            final(self).state == SessionState::Running,
            final(self).log_lines() == old(self).log_lines() + deliveries(events@),
            final(self).published() == old(self).published() + deliveries(events@),
    {
        let ghost initial_log = self.log_lines();
        let ghost initial_published = self.published();
        let mut i: usize = 0;
        while i < events.len()
            invariant
                self.wf(),
                self.state == SessionState::Running,
                i <= events@.len(),
                self.log_lines() == initial_log + deliveries(events@.take(i as int)),
                self.published() == initial_published + deliveries(events@.take(i as int)),
            decreases events@.len() - i,
        {
            let ghost prefix = events@.take(i as int);
            let ghost next_prefix = events@.take(i as int + 1);
            self.handle_event(&events[i]);
            proof {
                assert(next_prefix.drop_last() =~= prefix);
                assert(next_prefix.last() == events@[i as int]);
                match delivery_spec(events@[i as int]) {
                    Some(line) => {
                        assert(deliveries(next_prefix) == deliveries(prefix).push(line));
                        assert(initial_log + deliveries(prefix).push(line)
                            =~= (initial_log + deliveries(prefix)).push(line));
                        assert(initial_published + deliveries(prefix).push(line)
                            =~= (initial_published + deliveries(prefix)).push(line));
                    },
                    None => {
                        assert(deliveries(next_prefix) == deliveries(prefix));
                    },
                }
            }
            i = i + 1;
        }
        proof {
            assert(events@.take(events@.len() as int) =~= events@);
        }
    }
}

/// Law: no fan-out skew. In a live or terminated session every published
/// payload stands in the log at the same relative position with the same
/// rendered form — position i of the publication history is position
/// i + 1 of the log, right after the spawn confirmation.
pub proof fn lemma_fan_out_no_skew(s: Session)
    requires
        s.wf(),
        s.state == SessionState::Running || s.state == SessionState::Terminated,
    ensures
        forall|i: int| 0 <= i < s.published().len() ==> s.log_lines()[i + 1] == #[trigger] s.published()[i],
        s.log_lines().len() >= s.published().len() + 1,
{
}

/// Law: a failed spawn is silent. A session whose spawn attempt failed
/// has published nothing and holds exactly one diagnostic record.
pub proof fn lemma_failed_spawn_is_silent(s: Session)
    requires
        s.wf(),
        s.state == SessionState::SpawnFailed,
    ensures
        s.published().len() == 0,
        s.log_lines().len() == 1,
{
}

} // verus!
