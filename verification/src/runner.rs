//! Command runner: how one command is started, and what its outcome adds to
//! the log.

use vstd::prelude::*;
use vstd::string::StringExecFns;
use crate::host::{Action, ActionView, ProcessOutcome, ProcessOutcomeView};
use crate::job::JobStatus;
use crate::log::{LogEntry, LogEntryView};

verus! {

/// The request that runs `command` in the directory `dir`: `sh -c <command>`.
/// The command is handed to the shell as it stands.
pub open spec fn shell_request(command: Seq<char>, dir: Seq<char>) -> ActionView {
    ActionView::Spawn { program: "sh"@, args: seq!["-c"@, command], cwd: Some(dir) }
}

/// The request that runs `command` in the directory `dir`.
pub fn command_request(command: &str, dir: &str) -> (action: Action)
    ensures
        action@ == shell_request(command@, dir@),
{
    let mut args: Vec<String> = Vec::new();
    args.push(String::from_str("-c"));
    args.push(String::from_str(command));
    proof {
        assert(args.deep_view() =~= seq!["-c"@, command@]);
    }
    Action::Spawn { program: String::from_str("sh"), args, cwd: Some(String::from_str(dir)) }
}

/// What the outcome of `command` adds to the log. A command that ran shows
/// with both of its streams, standard output first, whatever its exit status;
/// one that could not be started shows with the reason.
pub open spec fn command_entry(command: Seq<char>, outcome: ProcessOutcomeView) -> LogEntryView {
    match outcome {
        ProcessOutcomeView::Exited { success, stdout, stderr } => LogEntryView::CommandRan {
            command,
            stdout,
            stderr,
        },
        ProcessOutcomeView::NotStarted { reason } => LogEntryView::CommandNotStarted { reason },
    }
}

/// Records the outcome of `command`: the log entry, and whether the next
/// command may run.
pub fn record_command(command: &str, outcome: ProcessOutcome) -> (recorded: (LogEntry, bool))
    ensures
        recorded.0@ == command_entry(command@, outcome@),
        recorded.1 == outcome@.succeeded(),
{
    match outcome {
        ProcessOutcome::Exited { success, stdout, stderr } => {
            (LogEntry::CommandRan { command: String::from_str(command), stdout, stderr }, success)
        },
        ProcessOutcome::NotStarted { reason } => (LogEntry::CommandNotStarted { reason }, false),
    }
}

/// How many of the commands are started when they meet `outcomes` in order:
/// every one up to and including the first that does not succeed.
pub open spec fn started(outcomes: Seq<ProcessOutcomeView>) -> nat
    decreases outcomes.len(),
{
    if outcomes.len() == 0 {
        0
    } else if outcomes[0].succeeded() {
        1 + started(outcomes.drop_first())
    } else {
        1
    }
}

/// The log of a run: one entry for each command that was started.
pub open spec fn run_log(commands: Seq<Seq<char>>, outcomes: Seq<ProcessOutcomeView>) -> Seq<
    LogEntryView,
> {
    Seq::new(started(outcomes), |i: int| command_entry(commands[i], outcomes[i]))
}

/// The status of a run: failed exactly when one of the commands does not
/// succeed. (The first such command is always started, and is the last.)
pub open spec fn run_status(outcomes: Seq<ProcessOutcomeView>) -> JobStatus {
    if exists|i: int| 0 <= i < outcomes.len() && !(#[trigger] outcomes[i]).succeeded() {
        JobStatus::Failed
    } else {
        JobStatus::Success
    }
}

/// Every one of `outcomes` is a program that exited with status zero.
pub open spec fn all_succeeded(outcomes: Seq<ProcessOutcomeView>) -> bool {
    forall|i: int| 0 <= i < outcomes.len() ==> (#[trigger] outcomes[i]).succeeded()
}

/// How many commands are started, and which of them succeed: all but the last
/// that was started, and that one too exactly when the whole run succeeds.
pub proof fn lemma_started(outcomes: Seq<ProcessOutcomeView>)
    ensures
        started(outcomes) <= outcomes.len(),
        outcomes.len() > 0 ==> started(outcomes) >= 1,
        forall|i: int| 0 <= i < started(outcomes) - 1 ==> (#[trigger] outcomes[i]).succeeded(),
        run_status(outcomes) == JobStatus::Success <==> all_succeeded(outcomes),
        all_succeeded(outcomes) ==> started(outcomes) == outcomes.len(),
        !all_succeeded(outcomes) ==> started(outcomes) >= 1 && !outcomes[started(outcomes)
            - 1].succeeded(),
    decreases outcomes.len(),
{
    if outcomes.len() > 0 {
        let rest = outcomes.drop_first();
        lemma_started(rest);
        assert(forall|i: int| 0 <= i < rest.len() ==> rest[i] == outcomes[i + 1]);
        if outcomes[0].succeeded() {
            assert forall|i: int| 0 <= i < started(outcomes) - 1 implies (
            #[trigger] outcomes[i]).succeeded() by {
                if i > 0 {
                    assert(rest[i - 1].succeeded());
                }
            }
            if all_succeeded(rest) {
                assert forall|i: int| 0 <= i < outcomes.len() implies (
                #[trigger] outcomes[i]).succeeded() by {
                    if i > 0 {
                        assert(rest[i - 1].succeeded());
                    }
                }
            } else {
                let bad = choose|i: int| 0 <= i < rest.len() && !(#[trigger] rest[i]).succeeded();
                assert(!outcomes[bad + 1].succeeded());
                assert(outcomes[started(outcomes) - 1] == rest[started(rest) - 1]);
            }
        }
    }
}

} // verus!
