//! The append-only log, modelled as the sequence of records written.
//!
//! The durable sink is best-effort: the host opens the well-known file in
//! create-or-append mode on every call and discards write errors, so a
//! stuck or missing file never aborts supervision. What is decided here,
//! and verified, is the record history itself: every append adds exactly
//! one record at the end, no record is merged with an earlier one, and
//! nothing already written changes.

use vstd::prelude::*;

verus! {

/// Well-known name of the log file, a sibling of the running executable.
pub open spec fn log_file_name_spec() -> Seq<char> {
    "_sidecar_debug.log"@
}

/// The file name the host appends to.
pub fn log_file_name() -> (r: &'static str)
    ensures
        r@ == log_file_name_spec(),
{
    "_sidecar_debug.log"
}

/// Append-only log of diagnostic records, in the order written. Each
/// record is one line; the host mirrors every append into the log file.
pub struct LogSink {
    pub records: Vec<String>,
}

impl LogSink {
    /// The history of records, as text.
    pub open spec fn lines(self) -> Seq<Seq<char>> {
        self.records@.map_values(|s: String| s@)
    }

    /// A log with nothing written yet.
    pub fn new() -> (r: LogSink)
        ensures
            r.lines() == Seq::<Seq<char>>::empty(),
    {
        let r = LogSink { records: Vec::new() };
        proof {
            assert(r.lines() =~= Seq::<Seq<char>>::empty());
        }
        r
    }

    /// Appends exactly one record holding the given text at the end of
    /// the history; everything already written stays as it was.
    pub fn append(&mut self, line: String)
        ensures
            final(self).lines() == old(self).lines().push(line@),
    {
        self.records.push(line);
        proof {
            assert(self.lines() =~= old(self).lines().push(line@));
        }
    }
}

/// Law: appending the same text twice yields two separate records, each
/// holding that text, at two distinct positions — records are never
/// merged. The premises are exactly what two calls of append ensure.
pub proof fn lemma_append_never_merges(before: LogSink, mid: LogSink, after: LogSink, text: Seq<char>)
    requires
        mid.lines() == before.lines().push(text),
        after.lines() == mid.lines().push(text),
    ensures
        after.lines().len() == before.lines().len() + 2,
        after.lines()[before.lines().len() as int] == text,
        after.lines()[before.lines().len() as int + 1] == text,
{
}

} // verus!
