//! What holds of every execution, whatever the host answers, and what holds
//! of a job whose host does what it is asked: theorems about whole runs of
//! the machine, proved from its rule.

use vstd::prelude::*;
use crate::collector::{
    harvest, harvest_log, lemma_harvest_log_tells, lemma_harvest_skips_unreadable, output_path,
};
use crate::fetcher::{clone_request, fetch_verdict};
use crate::host::{ActionView, EventView, ProcessOutcomeView, ReadOutcomeView};
use crate::job::{JobArtifactView, JobResultView, JobStatus, JobView};
use crate::log::{entry_text, lemma_entry_occurs, log_text, occurs_in, LogEntryView};
use crate::orchestrator::{ExecutionView, PhaseView};
use crate::paint::MarksView;
use crate::runner::{all_succeeded, lemma_started, run_log, shell_request, started};
use crate::runs::{
    after, answers, command_entries, command_requests, expected_requests, faithful_events,
    law_faithful_host, lemma_after_one, lemma_after_well_formed, process_events, removal_event,
    requests,
};

verus! {

/// A request that leaves the outside world as it is.
pub open spec fn is_quiet(action: ActionView) -> bool {
    action is Report || action is Rejected
}

/// None of `all` asks for a workspace to be removed.
pub open spec fn never_removed(all: Seq<ActionView>) -> bool {
    forall|i: int| 0 <= i < all.len() ==> !((#[trigger] all[i]) is RemoveWorkspace)
}

/// The request at `at`, which is not the first, asks for `dir` to be removed; no
/// other request of `all` asks for a removal; and every request after it is
/// quiet.
pub open spec fn removed_once_at(all: Seq<ActionView>, dir: Seq<char>, at: int) -> bool {
    &&& 0 < at < all.len()
    &&& all[at] == ActionView::RemoveWorkspace { dir }
    &&& forall|i: int| 0 <= i < all.len() && i != at ==> !((#[trigger] all[i]) is RemoveWorkspace)
    &&& forall|i: int| at < i < all.len() ==> is_quiet(#[trigger] all[i])
}

/// Only the request at 0 asks for a workspace to be created, and it asks for
/// `dir`.
pub open spec fn created_once(all: Seq<ActionView>, dir: Seq<char>) -> bool {
    &&& all.len() >= 1
    &&& all[0] == ActionView::CreateWorkspace { dir }
    &&& forall|i: int| 0 < i < all.len() ==> !((#[trigger] all[i]) is CreateWorkspace)
}

/// After the request for the workspace nothing was asked of the host: every
/// later request is quiet.
pub open spec fn nothing_done(all: Seq<ActionView>) -> bool {
    forall|i: int| 0 < i < all.len() ==> is_quiet(#[trigger] all[i])
}

/// The job failed because its workspace could not be created: that is all its
/// log tells of, and it has no artifact.
pub open spec fn failed_at_setup(end: ExecutionView) -> bool {
    &&& end.status == JobStatus::Failed
    &&& end.log.len() == 1
    &&& end.log[0] is WorkspaceNotCreated
    &&& end.artifacts.len() == 0
}

/// How the requests made so far bear on the workspace, by the phase that the
/// execution is in.
pub open spec fn workspace_kept(end: ExecutionView, all: Seq<ActionView>, dir: Seq<char>) -> bool {
    &&& created_once(all, dir)
    &&& match end.phase {
        PhaseView::Preparing => never_removed(all) && nothing_done(all),
        PhaseView::Fetching | PhaseView::Running { .. } | PhaseView::Collecting { .. } => {
            never_removed(all) && !nothing_done(all)
        },
        PhaseView::Removing => !nothing_done(all) && exists|at: int|
            #[trigger] removed_once_at(all, dir, at) && forall|i: int|
                at < i < all.len() ==> (#[trigger] all[i]) is Rejected,
        PhaseView::Finished => if nothing_done(all) {
            never_removed(all) && failed_at_setup(end)
        } else {
            exists|at: int| #[trigger] removed_once_at(all, dir, at)
        },
    }
}

/// The workspace invariant holds after every run.
pub proof fn lemma_workspace_kept(job: JobView, dir: Seq<char>, events: Seq<EventView>)
    ensures
        workspace_kept(
            after(ExecutionView::initial(job, dir), events),
            requests(job, dir, events),
            dir,
        ),
    decreases events.len(),
{
    let start = ExecutionView::initial(job, dir);
    let all = requests(job, dir, events);
    if events.len() == 0 {
        assert(all =~= seq![start.first_request()]);
    } else {
        let before = after(start, events.drop_last());
        let earlier = requests(job, dir, events.drop_last());
        let (end, action) = before.step(events.last());
        lemma_workspace_kept(job, dir, events.drop_last());
        lemma_after_well_formed(start, events.drop_last());
        assert(all =~= earlier.push(action));
        assert(forall|i: int| 0 <= i < earlier.len() ==> all[i] == earlier[i]);
        assert(all[all.len() - 1] == action);
        if !nothing_done(earlier) {
            let busy = choose|i: int| 0 < i < earlier.len() && !is_quiet(#[trigger] earlier[i]);
            assert(!is_quiet(all[busy]));
        }
        match before.phase {
            PhaseView::Preparing => {
                if end.phase is Fetching {
                    assert(!is_quiet(all[all.len() - 1]));
                }
            },
            PhaseView::Removing => {
                let at = choose|at: int|
                    #[trigger] removed_once_at(earlier, dir, at) && forall|i: int|
                        at < i < earlier.len() ==> (#[trigger] earlier[i]) is Rejected;
                assert(removed_once_at(all, dir, at));
            },
            PhaseView::Finished => {
                if !nothing_done(earlier) {
                    let at = choose|at: int| #[trigger] removed_once_at(earlier, dir, at);
                    assert(removed_once_at(all, dir, at));
                }
            },
            _ => {
                if end.phase is Removing {
                    assert(removed_once_at(all, dir, all.len() - 1));
                }
            },
        }
    }
}

/// One workspace for each job. In every execution, whatever the host answers:
/// the workspace is asked for at the very start and never again; its removal
/// is asked for at most once, for that same directory and after its creation;
/// once that is asked the machine asks for nothing more that touches the
/// outside world. An execution that has come to its report has asked for the
/// removal exactly once, with one exception: where nothing at all was asked
/// after the workspace itself, which is the job whose workspace could not be
/// created, there is no workspace and none is removed.
pub proof fn law_one_workspace(job: JobView, dir: Seq<char>, events: Seq<EventView>)
    ensures
        ({
            let all = requests(job, dir, events);
            let end = after(ExecutionView::initial(job, dir), events);
            &&& all.len() == events.len() + 1
            &&& created_once(all, dir)
            &&& (never_removed(all) || exists|at: int| #[trigger] removed_once_at(all, dir, at))
            &&& (end.phase is Finished && !nothing_done(all) ==> exists|at: int| #[trigger]
                removed_once_at(all, dir, at))
            &&& (end.phase is Finished && nothing_done(all) ==> never_removed(all)
                && failed_at_setup(end))
        }),
{
    lemma_workspace_kept(job, dir, events);
    lemma_after_well_formed(ExecutionView::initial(job, dir), events);
}

/// A workspace that cannot be created fails the job and nothing else. The
/// host is asked for nothing more: no clone, no command, no read, no removal.
/// The report is ready at once; it says `failed`, holds no artifact, and its
/// output is the one line that tells of the failure and ends with the
/// system's message.
pub proof fn law_setup_failure(
    job: JobView,
    dir: Seq<char>,
    reason: Seq<char>,
    id: Seq<char>,
    marks: MarksView,
)
    ensures
        ({
            let events = seq![EventView::WorkspaceNotCreated { reason }];
            let end = after(ExecutionView::initial(job, dir), events);
            &&& requests(job, dir, events) == seq![
                ActionView::CreateWorkspace { dir },
                ActionView::Report { warning: None },
            ]
            &&& end.report(id, marks) == Some(
                JobResultView {
                    id,
                    status: JobStatus::Failed,
                    output: marks.failure + " Failed to create work directory: "@ + reason,
                    artifacts: Seq::empty(),
                },
            )
        }),
{
    let start = ExecutionView::initial(job, dir);
    let event = EventView::WorkspaceNotCreated { reason };
    lemma_after_one(start, event);
    assert(requests(job, dir, seq![event]) =~= seq![
        ActionView::CreateWorkspace { dir },
        ActionView::Report { warning: None },
    ]);
    let entry = LogEntryView::WorkspaceNotCreated { reason };
    let log = start.log.push(entry);
    assert(log.drop_last() =~= Seq::<LogEntryView>::empty());
    assert(log_text(log.drop_last(), marks) =~= Seq::<char>::empty());
    assert(log_text(log, marks) =~= entry_text(entry, marks));
    assert(after(start, seq![event]).artifacts =~= Seq::empty());
}

/// A workspace that cannot be removed changes nothing in the job's result.
/// Whatever came before, the execution is the same after the answer that the
/// workspace is gone and after the answer that it could not be removed, and
/// so is its report. Where the removal was pending, the execution is
/// finished with its status, log and artifacts as they were, and the request
/// that follows differs only in the warning, which holds the system's
/// message.
pub proof fn law_removal_failure_keeps_result(
    job: JobView,
    dir: Seq<char>,
    events: Seq<EventView>,
    reason: Seq<char>,
    id: Seq<char>,
    marks: MarksView,
)
    ensures
        ({
            let start = ExecutionView::initial(job, dir);
            let before = after(start, events);
            let gone = events.push(EventView::WorkspaceRemoved);
            let left = events.push(EventView::WorkspaceNotRemoved { reason });
            &&& after(start, left) == after(start, gone)
            &&& after(start, left).report(id, marks) == after(start, gone).report(id, marks)
            &&& before.phase is Removing ==> {
                &&& after(start, left) == ExecutionView { phase: PhaseView::Finished, ..before }
                &&& requests(job, dir, gone).last() == ActionView::Report { warning: None }
                &&& requests(job, dir, left).last() == ActionView::Report {
                    warning: Some(reason),
                }
            }
        }),
{
    let start = ExecutionView::initial(job, dir);
    let gone = events.push(EventView::WorkspaceRemoved);
    let left = events.push(EventView::WorkspaceNotRemoved { reason });
    assert(gone.drop_last() =~= events);
    assert(left.drop_last() =~= events);
    assert(gone.last() == EventView::WorkspaceRemoved);
    assert(left.last() == EventView::WorkspaceNotRemoved { reason });
}

/// A request that the execution of `job` in the workspace `dir` may make: to
/// create or remove `dir` itself; to clone the job's repository into `dir`; to
/// run one of the job's commands with `dir` as its directory; to read the file
/// whose path is `dir`, a slash, and the path of one of the job's outputs as
/// it was declared; or one that leaves the outside world as it is. Neither a
/// command nor a declared path is looked into: a command may reach outside
/// `dir`, and a declared path that holds `..` names a file outside it.
pub open spec fn is_own_request(action: ActionView, job: JobView, dir: Seq<char>) -> bool {
    match action {
        ActionView::CreateWorkspace { dir: asked } => asked == dir,
        ActionView::RemoveWorkspace { dir: asked } => asked == dir,
        ActionView::Spawn { .. } => action == clone_request(job.repository, job.branch, dir)
            || exists|i: int|
            0 <= i < job.commands.len() && action == shell_request(#[trigger] job.commands[i], dir),
        ActionView::ReadText { path } => exists|j: int|
            0 <= j < job.outputs.len() && path == output_path(
                dir,
                (#[trigger] job.outputs[j]).path,
            ),
        ActionView::Report { .. } | ActionView::Rejected => true,
    }
}

/// Every answer of a well-formed execution is a request of its own job, made
/// with its own workspace.
pub proof fn lemma_step_is_own_request(before: ExecutionView, event: EventView)
    requires
        before.well_formed(),
    ensures
        is_own_request(before.step(event).1, before.job, before.work_dir),
{
}

/// An execution asks only for what is its own. Whatever the host answers: no
/// directory but the workspace is created or removed; no program is run but
/// the clone and the job's commands; each command is started with the
/// workspace as its directory; and the path of every file that is read is the
/// workspace, a slash, and the path of one of the job's outputs as it was
/// declared.
pub proof fn law_only_own_requests(job: JobView, dir: Seq<char>, events: Seq<EventView>)
    ensures
        forall|i: int|
            0 <= i < requests(job, dir, events).len() ==> is_own_request(
                #[trigger] requests(job, dir, events)[i],
                job,
                dir,
            ),
    decreases events.len(),
{
    let start = ExecutionView::initial(job, dir);
    let all = requests(job, dir, events);
    if events.len() == 0 {
        assert(all =~= seq![start.first_request()]);
    } else {
        let before = after(start, events.drop_last());
        let earlier = requests(job, dir, events.drop_last());
        law_only_own_requests(job, dir, events.drop_last());
        lemma_after_well_formed(start, events.drop_last());
        lemma_step_is_own_request(before, events.last());
        assert(all =~= earlier.push(before.step(events.last()).1));
        assert forall|i: int| 0 <= i < all.len() implies is_own_request(
            #[trigger] all[i],
            job,
            dir,
        ) by {
            if i < earlier.len() {
                assert(all[i] == earlier[i]);
            }
        }
    }
}

/// A clone that fails ends the job at once. The host is asked to remove the
/// workspace and for nothing else; the report says `failed`, holds no
/// artifact, and its output is the one line that tells of the failure, which
/// ends with what the clone wrote to its error stream (or with the reason
/// why it could not be started). This holds whether or not the workspace
/// could be removed.
pub proof fn law_fetch_failure(
    job: JobView,
    dir: Seq<char>,
    fetch: ProcessOutcomeView,
    removal: Option<Seq<char>>,
    id: Seq<char>,
    marks: MarksView,
)
    requires
        !fetch.succeeded(),
    ensures
        ({
            let events = seq![
                EventView::WorkspaceCreated,
                EventView::Process(fetch),
                removal_event(removal),
            ];
            let end = after(ExecutionView::initial(job, dir), events);
            let output = match fetch {
                ProcessOutcomeView::Exited { stderr, .. } => marks.failure
                    + " Failed to clone repository: "@ + stderr,
                ProcessOutcomeView::NotStarted { reason } => marks.failure
                    + " Error cloning repository: "@ + reason,
            };
            &&& requests(job, dir, events) == seq![
                ActionView::CreateWorkspace { dir },
                clone_request(job.repository, job.branch, dir),
                ActionView::RemoveWorkspace { dir },
                ActionView::Report { warning: removal },
            ]
            &&& end.report(id, marks) == Some(
                JobResultView { id, status: JobStatus::Failed, output, artifacts: Seq::empty() },
            )
        }),
{
    let outcomes = Seq::new(job.commands.len(), |i: int| fetch);
    let reads = Seq::new(
        job.outputs.len(),
        |i: int| ReadOutcomeView::Unreadable { reason: Seq::empty() },
    );
    let events = seq![
        EventView::WorkspaceCreated,
        EventView::Process(fetch),
        removal_event(removal),
    ];
    law_faithful_host(job, dir, fetch, outcomes, reads, removal);
    assert(faithful_events(fetch, outcomes, reads, removal) =~= events);
    assert(expected_requests(job, dir, fetch, outcomes, removal) =~= seq![
        ActionView::CreateWorkspace { dir },
        clone_request(job.repository, job.branch, dir),
        ActionView::RemoveWorkspace { dir },
        ActionView::Report { warning: removal },
    ]);
    let entry = fetch_verdict(fetch)->Err_0.entry();
    let log = seq![entry];
    assert(log.drop_last() =~= Seq::<LogEntryView>::empty());
    assert(log_text(log.drop_last(), marks) =~= Seq::<char>::empty());
    assert(log_text(log, marks) =~= entry_text(entry, marks));
}

/// Fail fast. Where the clone succeeds and the command at `at` is the first
/// that fails, the host is asked to run the commands up to that one, then to
/// remove the workspace, and nothing else: no later command runs and no output
/// is read. The job has failed, its log holds the commands that ran, each with
/// its output, and it has no artifact. This holds whether or not the workspace
/// could be removed.
pub proof fn law_fail_fast(
    job: JobView,
    dir: Seq<char>,
    fetch: ProcessOutcomeView,
    outcomes: Seq<ProcessOutcomeView>,
    reads: Seq<ReadOutcomeView>,
    removal: Option<Seq<char>>,
    at: int,
)
    requires
        fetch.succeeded(),
        outcomes.len() == job.commands.len(),
        reads.len() == job.outputs.len(),
        0 <= at < outcomes.len(),
        forall|i: int| 0 <= i < at ==> (#[trigger] outcomes[i]).succeeded(),
        !outcomes[at].succeeded(),
    ensures
        ({
            let ran = outcomes.take(at + 1);
            let events = seq![EventView::WorkspaceCreated, EventView::Process(fetch)]
                + process_events(ran) + seq![removal_event(removal)];
            let end = after(ExecutionView::initial(job, dir), events);
            &&& faithful_events(fetch, outcomes, reads, removal) == events
            &&& requests(job, dir, events) == seq![
                ActionView::CreateWorkspace { dir },
                clone_request(job.repository, job.branch, dir),
            ] + command_requests(job.commands, dir, (at + 1) as nat) + seq![
                ActionView::RemoveWorkspace { dir },
                ActionView::Report { warning: removal },
            ]
            &&& end.phase is Finished
            &&& end.status == JobStatus::Failed
            &&& end.log == command_entries(job.commands, ran)
            &&& end.artifacts == Seq::<JobArtifactView>::empty()
        }),
{
    lemma_started(outcomes);
    let count = started(outcomes);
    assert(count == at + 1) by {
        if count - 1 < at {
            assert(outcomes[count - 1].succeeded());
        } else if count - 1 > at {
            assert(outcomes[at].succeeded());
        }
    }
    law_faithful_host(job, dir, fetch, outcomes, reads, removal);
    let ran = outcomes.take(at + 1);
    assert(run_log(job.commands, outcomes) =~= command_entries(job.commands, ran));
}

/// A missing output degrades the report and does not fail the job. Where the
/// clone and every command succeed and the output at `at` cannot be read: the
/// job succeeds; its artifacts are those of the outputs that could be read, in
/// the order of declaration, the same as if the output at `at` had not been
/// declared; and the output of the report holds the line that tells of it.
/// This holds whether or not the workspace could be removed.
pub proof fn law_unreadable_output(
    job: JobView,
    dir: Seq<char>,
    fetch: ProcessOutcomeView,
    outcomes: Seq<ProcessOutcomeView>,
    reads: Seq<ReadOutcomeView>,
    removal: Option<Seq<char>>,
    at: int,
    id: Seq<char>,
    marks: MarksView,
)
    requires
        fetch.succeeded(),
        outcomes.len() == job.commands.len(),
        all_succeeded(outcomes),
        reads.len() == job.outputs.len(),
        0 <= at < reads.len(),
        reads[at] is Unreadable,
    ensures
        ({
            let end = after(
                ExecutionView::initial(job, dir),
                faithful_events(fetch, outcomes, reads, removal),
            );
            let line = marks.failure + " Error reading output "@ + job.outputs[at].name + ": "@
                + reads[at]->reason + "\n"@;
            &&& end.report(id, marks) matches Some(report)
            &&& report.status == JobStatus::Success
            &&& report.artifacts == harvest(job.outputs, reads)
            &&& report.artifacts == harvest(job.outputs.remove(at), reads.remove(at))
            &&& report.artifacts.len() < job.outputs.len()
            &&& occurs_in(line, report.output)
        }),
{
    lemma_started(outcomes);
    law_faithful_host(job, dir, fetch, outcomes, reads, removal);
    lemma_harvest_skips_unreadable(job.outputs, reads, at);
    lemma_harvest_log_tells(job.outputs, reads, at);
    let start = ExecutionView::initial(job, dir);
    let end = after(start, faithful_events(fetch, outcomes, reads, removal));
    let entry = LogEntryView::OutputUnreadable {
        name: job.outputs[at].name,
        reason: reads[at]->reason,
    };
    let told = harvest_log(job.outputs, reads);
    let found = choose|i: int| 0 <= i < told.len() && told[i] == entry;
    let ran = run_log(job.commands, outcomes);
    assert(end.log[ran.len() + found] == entry);
    lemma_entry_occurs(end.log, marks, ran.len() + found);
    lemma_after_well_formed(start, faithful_events(fetch, outcomes, reads, removal));
    assert(end.log.len() >= ran.len() + 1);
}

/// Two executions of one job that get the same answers are in the same phase,
/// with the same status, log and artifacts, whatever their workspaces are
/// called.
pub proof fn lemma_workspace_name_is_immaterial(
    job: JobView,
    one: Seq<char>,
    other: Seq<char>,
    events: Seq<EventView>,
)
    ensures
        ({
            let a = after(ExecutionView::initial(job, one), events);
            let b = after(ExecutionView::initial(job, other), events);
            a == ExecutionView { work_dir: one, ..b }
        }),
    decreases events.len(),
{
    if events.len() > 0 {
        lemma_workspace_name_is_immaterial(job, one, other, events.drop_last());
    }
}

/// Reporting is repeatable. Two executions of the same job whose hosts give
/// the same answers end alike: both have a report or neither has, and the two
/// reports agree in status, output and artifacts. They differ at most in
/// their identifiers; the names of the two workspaces leave no trace.
pub proof fn law_same_answers_same_report(
    job: JobView,
    one: Seq<char>,
    other: Seq<char>,
    events: Seq<EventView>,
    one_id: Seq<char>,
    other_id: Seq<char>,
    marks: MarksView,
)
    ensures
        ({
            let a = after(ExecutionView::initial(job, one), events).report(one_id, marks);
            let b = after(ExecutionView::initial(job, other), events).report(other_id, marks);
            &&& a is Some <==> b is Some
            &&& a is Some ==> a->0 == JobResultView { id: one_id, ..b->0 }
        }),
{
    lemma_workspace_name_is_immaterial(job, one, other, events);
}

/// The name of a job and its inputs are carried along and never read: two
/// jobs that differ in nothing else make the same requests and, on the same
/// answers, come to the same phase, status, log and artifacts.
pub proof fn law_name_and_inputs_unread(
    job: JobView,
    other: JobView,
    dir: Seq<char>,
    events: Seq<EventView>,
)
    requires
        other == (JobView { name: other.name, inputs: other.inputs, ..job }),
    ensures
        ({
            let a = after(ExecutionView::initial(job, dir), events);
            let b = after(ExecutionView::initial(other, dir), events);
            &&& a == ExecutionView { job, ..b }
            &&& answers(ExecutionView::initial(job, dir), events) == answers(
                ExecutionView::initial(other, dir),
                events,
            )
            &&& requests(job, dir, events) == requests(other, dir, events)
        }),
    decreases events.len(),
{
    if events.len() > 0 {
        law_name_and_inputs_unread(job, other, dir, events.drop_last());
        lemma_after_well_formed(ExecutionView::initial(other, dir), events.drop_last());
    }
}

} // verus!
