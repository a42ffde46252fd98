//! Classification of the child's output events.
//!
//! The child's I/O channel yields an interleaved stream of events. Each
//! stdout or stderr event carries the raw bytes of one line; it is decoded
//! permissively, tagged with a severity, and rendered once — the rendered
//! line is what both sinks receive. Exit and bookkeeping events carry no
//! line and are dropped here (the closing diagnostic is written when the
//! whole channel closes, not per event).

use vstd::prelude::*;
use vstd::string::StringExecFns;
use crate::decode::{decode_lossy, lossy_of};

verus! {

/// One event from the child's I/O channel: a captured stdout line, a
/// captured stderr line, process exit (status code or signal, if known),
/// or internal bookkeeping with no line content.
pub enum OutputEvent {
    Stdout(Vec<u8>),
    Stderr(Vec<u8>),
    Exited(Option<i32>),
    Other,
}

/// Severity tag of a captured line: stdout lines are informational,
/// stderr lines are errors.
#[derive(Clone, Copy, PartialEq, Eq, Structural, Debug)]
pub enum Severity {
    Info,
    Error,
}

impl Severity {
    /// The tag's text form.
    pub open spec fn tag_spec(self) -> Seq<char> {
        match self {
            Severity::Info => "INFO"@,
            Severity::Error => "ERR"@,
        }
    }

    /// The tag as written into rendered lines.
    pub fn tag(&self) -> (r: &'static str)
        ensures
            r@ == self.tag_spec(),
    {
        match self {
            Severity::Info => "INFO",
            Severity::Error => "ERR",
        }
    }
}

/// The form `[<severity tag>] <text>` in which a captured line is
/// delivered to both sinks.
pub open spec fn render_spec(severity: Severity, text: Seq<char>) -> Seq<char> {
    "["@ + severity.tag_spec() + "] "@ + text
}

/// A captured line after decoding and tagging, before rendering.
pub struct LogLine {
    pub severity: Severity,
    pub text: String,
}

impl LogLine {
    /// The rendered form of this line.
    pub open spec fn rendered_spec(self) -> Seq<char> {
        render_spec(self.severity, self.text@)
    }

    /// Renders the line as both sinks receive it.
    pub fn rendered(&self) -> (r: String)
        ensures
            r@ == self.rendered_spec(),
    {
        let mut r = "[".to_owned();
        r.append(self.severity.tag());
        r.append("] ");
        r.append(self.text.as_str());
        r
    }
}

/// The rendered line an event gives rise to: stdout and stderr events
/// yield exactly one line each, decoded permissively from their bytes;
/// every other event yields none.
pub open spec fn delivery_spec(e: OutputEvent) -> Option<Seq<char>> {
    match e {
        OutputEvent::Stdout(bytes) => Some(render_spec(Severity::Info, lossy_of(bytes@))),
        OutputEvent::Stderr(bytes) => Some(render_spec(Severity::Error, lossy_of(bytes@))),
        OutputEvent::Exited(_) => None,
        OutputEvent::Other => None,
    }
}

/// Classifies one event: a line-bearing event becomes exactly one tagged
/// line, decoded permissively (decoding is total, so no byte sequence is
/// ever fatal); exit and bookkeeping events become nothing.
pub fn classify(e: &OutputEvent) -> (r: Option<LogLine>)
    ensures
        match *e {
            OutputEvent::Stdout(bytes) => {
                &&& r matches Some(l)
                &&& l.severity == Severity::Info
                &&& l.text@ == lossy_of(bytes@)
            },
            OutputEvent::Stderr(bytes) => {
                &&& r matches Some(l)
                &&& l.severity == Severity::Error
                &&& l.text@ == lossy_of(bytes@)
            },
            OutputEvent::Exited(_) => r is None,
            OutputEvent::Other => r is None,
        },
        r matches Some(l) ==> delivery_spec(*e) == Some(l.rendered_spec()),
        r is None <==> delivery_spec(*e) is None,
{
    match e {
        OutputEvent::Stdout(bytes) => Some(LogLine { severity: Severity::Info, text: decode_lossy(bytes) }),
        OutputEvent::Stderr(bytes) => Some(LogLine { severity: Severity::Error, text: decode_lossy(bytes) }),
        OutputEvent::Exited(_) => None,
        OutputEvent::Other => None,
    }
}

/// The rendered lines a whole batch of events gives rise to, in arrival
/// order: line-bearing events contribute exactly one line each, at the
/// position arrival order gives it; the rest contribute nothing. Stdout
/// and stderr are not buffered apart, so a chronological interleaving
/// stays chronological.
pub open spec fn deliveries(events: Seq<OutputEvent>) -> Seq<Seq<char>>
    decreases events.len(),
{
    if events.len() == 0 {
        Seq::empty()
    } else {
        let rest = deliveries(events.drop_last());
        match delivery_spec(events.last()) {
            Some(line) => rest.push(line),
            None => rest,
        }
    }
}

/// Law: deliveries compose over concatenation — consuming a stream in two
/// batches delivers exactly what consuming it whole does, so arrival
/// order is preserved however the channel chunks the stream.
pub proof fn lemma_deliveries_concat(first: Seq<OutputEvent>, second: Seq<OutputEvent>)
    ensures
        deliveries(first + second) == deliveries(first) + deliveries(second),
    decreases second.len(),
{
    if second.len() == 0 {
        assert(first + second =~= first);
        assert(deliveries(first) + deliveries(second) =~= deliveries(first));
    } else {
        lemma_deliveries_concat(first, second.drop_last());
        assert((first + second).drop_last() =~= first + second.drop_last());
        match delivery_spec(second.last()) {
            Some(line) => {
                assert(deliveries(first) + deliveries(second.drop_last()).push(line)
                    =~= (deliveries(first) + deliveries(second.drop_last())).push(line));
            },
            None => {},
        }
    }
}

/// Law: a batch never delivers more lines than it has events, and a batch
/// of only line-bearing events delivers exactly one line per event.
pub proof fn lemma_deliveries_bounded(events: Seq<OutputEvent>)
    ensures
        deliveries(events).len() <= events.len(),
        (forall|i: int| 0 <= i < events.len() ==> delivery_spec(#[trigger] events[i]) is Some)
            ==> deliveries(events).len() == events.len(),
    decreases events.len(),
{
    if events.len() > 0 {
        lemma_deliveries_bounded(events.drop_last());
        assert(forall|i: int| 0 <= i < events.len() - 1 ==> events.drop_last()[i] == events[i]);
    }
}

} // verus!
