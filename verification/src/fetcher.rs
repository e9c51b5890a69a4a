//! Source fetcher: how the repository is brought into the workspace, and what
//! the outcome of the attempt means.

use vstd::prelude::*;
use vstd::string::StringExecFns;
use crate::host::{Action, ActionView, ProcessOutcome, ProcessOutcomeView};
use crate::log::{LogEntry, LogEntryView};

verus! {

/// The request that clones `branch` of `repository` into the directory `into`:
/// `git clone -b <branch> <repository> <into>`, run from the host's own
/// directory.
pub open spec fn clone_request(repository: Seq<char>, branch: Seq<char>, into: Seq<char>)
    -> ActionView {
    ActionView::Spawn {
        program: "git"@,
        args: seq!["clone"@, "-b"@, branch, repository, into],
        cwd: None,
    }
}

/// The request that clones `branch` of `repository` into the directory `into`.
pub fn fetch_request(repository: &str, branch: &str, into: &str) -> (action: Action)
    ensures
        action@ == clone_request(repository@, branch@, into@),
{
    let mut args: Vec<String> = Vec::new();
    args.push(String::from_str("clone"));
    args.push(String::from_str("-b"));
    args.push(String::from_str(branch));
    args.push(String::from_str(repository));
    args.push(String::from_str(into));
    proof {
        assert(args.deep_view() =~= seq!["clone"@, "-b"@, branch@, repository@, into@]);
    }
    Action::Spawn { program: String::from_str("git"), args, cwd: None }
}

/// Why the repository could not be fetched.
#[derive(Debug, Clone, PartialEq, Eq)]
pub enum FetchError {
    /// The clone ran and exited with a non-zero status; `diagnostic` is what it
    /// wrote to its error stream.
    ToolFailed { diagnostic: String },
    /// The clone could not be started; `reason` is the system's message.
    NotStarted { reason: String },
}

pub enum FetchErrorView {
    ToolFailed { diagnostic: Seq<char> },
    NotStarted { reason: Seq<char> },
}

impl View for FetchError {
    type V = FetchErrorView;

    open spec fn view(&self) -> FetchErrorView {
        match self {
            FetchError::ToolFailed { diagnostic } => FetchErrorView::ToolFailed {
                diagnostic: diagnostic@,
            },
            FetchError::NotStarted { reason } => FetchErrorView::NotStarted { reason: reason@ },
        }
    }
}

impl FetchErrorView {
    /// The log entry that tells of this error.
    pub open spec fn entry(self) -> LogEntryView {
        match self {
            FetchErrorView::ToolFailed { diagnostic } => LogEntryView::FetchFailed { diagnostic },
            FetchErrorView::NotStarted { reason } => LogEntryView::FetchNotStarted { reason },
        }
    }
}

impl FetchError {
    /// The log entry that tells of this error.
    pub fn into_entry(self) -> (entry: LogEntry)
        ensures
            entry@ == self@.entry(),
    {
        match self {
            FetchError::ToolFailed { diagnostic } => LogEntry::FetchFailed { diagnostic },
            FetchError::NotStarted { reason } => LogEntry::FetchNotStarted { reason },
        }
    }
}

/// What the outcome of the clone means: the repository is there exactly when
/// the clone ran and exited with status zero. Otherwise the error carries the
/// clone's error stream, or the reason it could not be started.
pub open spec fn fetch_verdict(outcome: ProcessOutcomeView) -> Result<(), FetchErrorView> {
    match outcome {
        ProcessOutcomeView::Exited { success, stdout, stderr } => if success {
            Ok(())
        } else {
            Err(FetchErrorView::ToolFailed { diagnostic: stderr })
        },
        ProcessOutcomeView::NotStarted { reason } => Err(FetchErrorView::NotStarted { reason }),
    }
}

/// Judges the outcome of the clone.
pub fn fetch_result(outcome: ProcessOutcome) -> (verdict: Result<(), FetchError>)
    ensures
        verdict is Ok <==> outcome@.succeeded(),
        match verdict {
            Ok(_) => fetch_verdict(outcome@) is Ok,
            Err(error) => fetch_verdict(outcome@) == Err::<(), FetchErrorView>(error@),
        },
{
    match outcome {
        ProcessOutcome::Exited { success, stdout, stderr } => {
            if success {
                Ok(())
            } else {
                Err(FetchError::ToolFailed { diagnostic: stderr })
            }
        },
        ProcessOutcome::NotStarted { reason } => Err(FetchError::NotStarted { reason }),
    }
}

} // verus!
