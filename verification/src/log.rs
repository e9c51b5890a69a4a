//! The log of a job: one entry for each thing worth telling, turned into text
//! only when the report is made.

use vstd::prelude::*;
use vstd::string::StringExecFns;
use crate::paint::{Marks, MarksView};

verus! {

/// One thing that happened during a job and shows in its report.
#[derive(Debug, Clone, PartialEq, Eq)]
pub enum LogEntry {
    /// The workspace could not be created, so nothing was run.
    WorkspaceNotCreated { reason: String },
    /// The clone ran and exited with a non-zero status; `diagnostic` is what it
    /// wrote to its error stream.
    FetchFailed { diagnostic: String },
    /// The clone could not be started.
    FetchNotStarted { reason: String },
    /// `command` ran to its end, whatever its exit status.
    CommandRan { command: String, stdout: String, stderr: String },
    /// A command could not be started.
    CommandNotStarted { reason: String },
    /// The output declared as `name` could not be read.
    OutputUnreadable { name: String, reason: String },
}

pub enum LogEntryView {
    WorkspaceNotCreated { reason: Seq<char> },
    FetchFailed { diagnostic: Seq<char> },
    FetchNotStarted { reason: Seq<char> },
    CommandRan { command: Seq<char>, stdout: Seq<char>, stderr: Seq<char> },
    CommandNotStarted { reason: Seq<char> },
    OutputUnreadable { name: Seq<char>, reason: Seq<char> },
}

impl View for LogEntry {
    type V = LogEntryView;

    open spec fn view(&self) -> LogEntryView {
        match self {
            LogEntry::WorkspaceNotCreated { reason } => LogEntryView::WorkspaceNotCreated {
                reason: reason@,
            },
            LogEntry::FetchFailed { diagnostic } => LogEntryView::FetchFailed {
                diagnostic: diagnostic@,
            },
            LogEntry::FetchNotStarted { reason } => LogEntryView::FetchNotStarted {
                reason: reason@,
            },
            LogEntry::CommandRan { command, stdout, stderr } => LogEntryView::CommandRan {
                command: command@,
                stdout: stdout@,
                stderr: stderr@,
            },
            LogEntry::CommandNotStarted { reason } => LogEntryView::CommandNotStarted {
                reason: reason@,
            },
            LogEntry::OutputUnreadable { name, reason } => LogEntryView::OutputUnreadable {
                name: name@,
                reason: reason@,
            },
        }
    }
}

impl DeepView for LogEntry {
    type V = LogEntryView;

    open spec fn deep_view(&self) -> LogEntryView {
        self@
    }
}

/// The text of one entry. A workspace that could not be created and a failed
/// clone end without a line break; every other entry ends its own last line,
/// but for a command whose output does not.
pub open spec fn entry_text(entry: LogEntryView, marks: MarksView) -> Seq<char> {
    match entry {
        LogEntryView::WorkspaceNotCreated { reason } => marks.failure
            + " Failed to create work directory: "@ + reason,
        LogEntryView::FetchFailed { diagnostic } => marks.failure
            + " Failed to clone repository: "@ + diagnostic,
        LogEntryView::FetchNotStarted { reason } => marks.failure
            + " Error cloning repository: "@ + reason,
        LogEntryView::CommandRan { command, stdout, stderr } => marks.command + " Command: "@
            + command + "\n"@ + stdout + stderr,
        LogEntryView::CommandNotStarted { reason } => marks.failure
            + " Error executing command: "@ + reason + "\n"@,
        LogEntryView::OutputUnreadable { name, reason } => marks.failure
            + " Error reading output "@ + name + ": "@ + reason + "\n"@,
    }
}

/// The text of a whole log: the texts of its entries, in order, with nothing
/// between them.
pub open spec fn log_text(entries: Seq<LogEntryView>, marks: MarksView) -> Seq<char>
    decreases entries.len(),
{
    if entries.len() == 0 {
        Seq::empty()
    } else {
        log_text(entries.drop_last(), marks) + entry_text(entries.last(), marks)
    }
}

/// The text of one entry, opened by the mark of its kind.
pub fn render_entry(entry: &LogEntry, marks: &Marks) -> (text: String)
    ensures
        text@ == entry_text(entry@, marks@),
{
    match entry {
        LogEntry::WorkspaceNotCreated { reason } => {
            let mut text = marks.failure.clone();
            text.append(" Failed to create work directory: ");
            text.append(reason.as_str());
            text
        },
        LogEntry::FetchFailed { diagnostic } => {
            let mut text = marks.failure.clone();
            text.append(" Failed to clone repository: ");
            text.append(diagnostic.as_str());
            text
        },
        LogEntry::FetchNotStarted { reason } => {
            let mut text = marks.failure.clone();
            text.append(" Error cloning repository: ");
            text.append(reason.as_str());
            text
        },
        LogEntry::CommandRan { command, stdout, stderr } => {
            let mut text = marks.command.clone();
            text.append(" Command: ");
            text.append(command.as_str());
            text.append("\n");
            text.append(stdout.as_str());
            text.append(stderr.as_str());
            text
        },
        LogEntry::CommandNotStarted { reason } => {
            let mut text = marks.failure.clone();
            text.append(" Error executing command: ");
            text.append(reason.as_str());
            text.append("\n");
            text
        },
        LogEntry::OutputUnreadable { name, reason } => {
            let mut text = marks.failure.clone();
            text.append(" Error reading output ");
            text.append(name.as_str());
            text.append(": ");
            text.append(reason.as_str());
            text.append("\n");
            text
        },
    }
}

/// The words that warn of a workspace that could not be removed: the failure
/// mark, what could not be done, and the system's message. They are for the
/// host's own records; the log of the job does not hold them.
pub open spec fn removal_warning_text(reason: Seq<char>, marks: MarksView) -> Seq<char> {
    marks.failure + " Failed to remove work directory: "@ + reason
}

/// The words that warn of a workspace that could not be removed.
pub fn render_removal_warning(reason: &str, marks: &Marks) -> (text: String)
    ensures
        text@ == removal_warning_text(reason@, marks@),
{
    let mut text = marks.failure.clone();
    text.append(" Failed to remove work directory: ");
    text.append(reason);
    text
}

/// The text of a whole log.
pub fn render_log(entries: &Vec<LogEntry>, marks: &Marks) -> (text: String)
    ensures
        text@ == log_text(entries.deep_view(), marks@),
{
    let mut text = String::new();
    let mut i: usize = 0;
    while i < entries.len()
        invariant
            i <= entries.len(),
            text@ == log_text(entries.deep_view().take(i as int), marks@),
        decreases entries.len() - i,
    {
        let line = render_entry(&entries[i], marks);
        text.append(line.as_str());
        proof {
            let upto = entries.deep_view().take(i + 1);
            assert(upto.drop_last() =~= entries.deep_view().take(i as int));
            assert(upto.last() == entries[i as int]@);
        }
        i += 1;
    }
    proof {
        assert(entries.deep_view().take(entries.len() as int) =~= entries.deep_view());
    }
    text
}

/// `part` stands somewhere in `whole`, in one piece.
pub open spec fn occurs_in(part: Seq<char>, whole: Seq<char>) -> bool {
    exists|at: int|
        0 <= at && at + part.len() <= whole.len() && #[trigger] whole.subrange(
            at,
            at + part.len(),
        ) == part
}

/// The text of two logs in a row is the text of the first, then that of the
/// second.
pub proof fn lemma_log_text_concat(
    first: Seq<LogEntryView>,
    rest: Seq<LogEntryView>,
    marks: MarksView,
)
    ensures
        log_text(first + rest, marks) == log_text(first, marks) + log_text(rest, marks),
    decreases rest.len(),
{
    if rest.len() == 0 {
        assert(first + rest =~= first);
        assert(log_text(first, marks) + log_text(rest, marks) =~= log_text(first, marks));
    } else {
        assert((first + rest).drop_last() =~= first + rest.drop_last());
        assert((first + rest).last() == rest.last());
        lemma_log_text_concat(first, rest.drop_last(), marks);
        assert(log_text(first + rest, marks) =~= log_text(first, marks) + log_text(rest, marks));
    }
}

/// The text of every entry of a log stands in the text of the log, in one
/// piece.
pub proof fn lemma_entry_occurs(entries: Seq<LogEntryView>, marks: MarksView, index: int)
    requires
        0 <= index < entries.len(),
    ensures
        occurs_in(entry_text(entries[index], marks), log_text(entries, marks)),
{
    let head = entries.take(index);
    let tail = entries.skip(index + 1);
    let line = entry_text(entries[index], marks);
    assert(entries =~= head.push(entries[index]) + tail);
    lemma_log_text_concat(head.push(entries[index]), tail, marks);
    assert(head.push(entries[index]).drop_last() =~= head);
    let whole = log_text(entries, marks);
    let at = log_text(head, marks).len() as int;
    assert(whole =~= log_text(head, marks) + line + log_text(tail, marks));
    assert(whole.subrange(at, at + line.len()) =~= line);
}

} // verus!
