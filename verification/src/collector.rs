//! Artifact collector: the path at which a declared output is read, and what
//! the attempt to read it yields.

use vstd::prelude::*;
use vstd::string::StringExecFns;
use crate::host::{Action, ActionView, ReadOutcome, ReadOutcomeView};
use crate::job::{JobArtifact, JobArtifactView, JobOutputView};
use crate::log::{LogEntry, LogEntryView};

verus! {

/// The path at which the output declared with `path` is read: the workspace
/// `dir`, a slash, and `path` as it was declared. The declared path is not
/// looked into; one that holds `..` names a file outside the workspace.
pub open spec fn output_path(dir: Seq<char>, path: Seq<char>) -> Seq<char> {
    dir + "/"@ + path
}

/// The request that reads the output declared with `path`.
pub open spec fn read_request(dir: Seq<char>, path: Seq<char>) -> ActionView {
    ActionView::ReadText { path: output_path(dir, path) }
}

/// The path at which the output declared with `path` is read: `dir`, a slash,
/// and `path` as it was declared.
pub fn artifact_path(dir: &str, path: &str) -> (full: String)
    ensures
        full@ == output_path(dir@, path@),
{
    let mut full = String::from_str(dir);
    full.append("/");
    full.append(path);
    full
}

/// The request that reads the output declared with `path` from the workspace
/// `dir`.
pub fn output_request(dir: &str, path: &str) -> (action: Action)
    ensures
        action@ == read_request(dir@, path@),
{
    Action::ReadText { path: artifact_path(dir, path) }
}

/// What reading the output declared as `name` yields: an artifact with all of
/// the file's text, or the log entry that tells why there is none.
pub open spec fn collected(name: Seq<char>, outcome: ReadOutcomeView) -> Result<
    JobArtifactView,
    LogEntryView,
> {
    match outcome {
        ReadOutcomeView::Text { content } => Ok(JobArtifactView { name, content }),
        ReadOutcomeView::Unreadable { reason } => Err(
            LogEntryView::OutputUnreadable { name, reason },
        ),
    }
}

/// Turns the outcome of reading the output declared as `name` into an artifact
/// or a log entry.
pub fn collect_one(name: &str, outcome: ReadOutcome) -> (got: Result<JobArtifact, LogEntry>)
    ensures
        got is Ok <==> outcome@ is Text,
        match got {
            Ok(artifact) => collected(name@, outcome@) == Ok::<JobArtifactView, LogEntryView>(
                artifact@,
            ),
            Err(entry) => collected(name@, outcome@) == Err::<JobArtifactView, LogEntryView>(
                entry@,
            ),
        },
{
    match outcome {
        ReadOutcome::Text { content } => Ok(JobArtifact { name: String::from_str(name), content }),
        ReadOutcome::Unreadable { reason } => Err(
            LogEntry::OutputUnreadable { name: String::from_str(name), reason },
        ),
    }
}

/// The artifacts gathered when the first outputs meet `reads` in order: one
/// for each output that could be read, in the order of declaration.
pub open spec fn harvest(outputs: Seq<JobOutputView>, reads: Seq<ReadOutcomeView>) -> Seq<
    JobArtifactView,
>
    decreases reads.len(),
{
    if reads.len() == 0 {
        Seq::empty()
    } else {
        let before = harvest(outputs, reads.drop_last());
        match collected(outputs[reads.len() - 1].name, reads.last()) {
            Ok(artifact) => before.push(artifact),
            Err(_) => before,
        }
    }
}

/// The log entries written when the first outputs meet `reads` in order: one
/// for each output that could not be read, in the order of declaration.
pub open spec fn harvest_log(outputs: Seq<JobOutputView>, reads: Seq<ReadOutcomeView>) -> Seq<
    LogEntryView,
>
    decreases reads.len(),
{
    if reads.len() == 0 {
        Seq::empty()
    } else {
        let before = harvest_log(outputs, reads.drop_last());
        match collected(outputs[reads.len() - 1].name, reads.last()) {
            Ok(_) => before,
            Err(entry) => before.push(entry),
        }
    }
}

/// What is gathered does not depend on the outputs beyond those that were
/// read.
pub proof fn lemma_harvest_prefix(
    one: Seq<JobOutputView>,
    other: Seq<JobOutputView>,
    reads: Seq<ReadOutcomeView>,
)
    requires
        forall|i: int| 0 <= i < reads.len() ==> one[i].name == other[i].name,
    ensures
        harvest(one, reads) == harvest(other, reads),
        harvest_log(one, reads) == harvest_log(other, reads),
    decreases reads.len(),
{
    if reads.len() > 0 {
        lemma_harvest_prefix(one, other, reads.drop_last());
    }
}

/// An output that cannot be read leaves no trace among the artifacts: they are
/// the same as if it had not been declared.
pub proof fn lemma_harvest_skips_unreadable(
    outputs: Seq<JobOutputView>,
    reads: Seq<ReadOutcomeView>,
    at: int,
)
    requires
        reads.len() <= outputs.len(),
        0 <= at < reads.len(),
        reads[at] is Unreadable,
    ensures
        harvest(outputs, reads) == harvest(outputs.remove(at), reads.remove(at)),
    decreases reads.len(),
{
    let fewer = reads.drop_last();
    if at == reads.len() - 1 {
        assert(reads.remove(at) =~= fewer);
        lemma_harvest_prefix(outputs, outputs.remove(at), fewer);
    } else {
        lemma_harvest_skips_unreadable(outputs, fewer, at);
        assert(reads.remove(at).drop_last() =~= fewer.remove(at));
        assert(reads.remove(at).last() == reads.last());
        assert(outputs.remove(at)[reads.len() - 2] == outputs[reads.len() - 1]);
    }
}

/// Every output that cannot be read is told of in the log.
pub proof fn lemma_harvest_log_tells(
    outputs: Seq<JobOutputView>,
    reads: Seq<ReadOutcomeView>,
    at: int,
)
    requires
        0 <= at < reads.len(),
        reads[at] is Unreadable,
    ensures
        harvest_log(outputs, reads).contains(
            LogEntryView::OutputUnreadable { name: outputs[at].name, reason: reads[at]->reason },
        ),
    decreases reads.len(),
{
    let entry = LogEntryView::OutputUnreadable {
        name: outputs[at].name,
        reason: reads[at]->reason,
    };
    let before = harvest_log(outputs, reads.drop_last());
    if at == reads.len() - 1 {
        assert(harvest_log(outputs, reads) == before.push(entry));
        assert(before.push(entry)[before.len() as int] == entry);
    } else {
        lemma_harvest_log_tells(outputs, reads.drop_last(), at);
        let found = choose|i: int| 0 <= i < before.len() && before[i] == entry;
        assert(harvest_log(outputs, reads)[found] == entry);
    }
}

} // verus!
