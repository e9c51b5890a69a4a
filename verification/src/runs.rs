//! Whole runs of the machine: what an execution becomes, and what it asks
//! for, as the host's answers come in one after the other; and the run of a
//! host that does what it is asked.

use vstd::prelude::*;
use crate::collector::{collected, harvest, harvest_log, read_request};
use crate::fetcher::{clone_request, fetch_verdict};
use crate::host::{Action, ActionView, Event, EventView, ProcessOutcomeView, ReadOutcomeView};
use crate::job::{Job, JobArtifactView, JobOutputView, JobStatus, JobView};
use crate::log::LogEntryView;
use crate::orchestrator::{lemma_step_well_formed, Execution, ExecutionView, PhaseView};
use crate::runner::{
    all_succeeded, command_entry, lemma_started, run_log, run_status, shell_request, started,
};

verus! {

/// The execution that `start` has become once the host has given `events`, one
/// after the other.
pub open spec fn after(start: ExecutionView, events: Seq<EventView>) -> ExecutionView
    decreases events.len(),
{
    if events.len() == 0 {
        start
    } else {
        after(start, events.drop_last()).step(events.last()).0
    }
}

/// The requests that the machine has made in answer to `events`, one for each
/// event.
pub open spec fn answers(start: ExecutionView, events: Seq<EventView>) -> Seq<ActionView>
    decreases events.len(),
{
    if events.len() == 0 {
        Seq::empty()
    } else {
        answers(start, events.drop_last()).push(
            after(start, events.drop_last()).step(events.last()).1,
        )
    }
}

/// Every request of the execution of `job` in the workspace `dir` up to the
/// answer to the last of `events`: the first request, then the answers.
pub open spec fn requests(job: JobView, dir: Seq<char>, events: Seq<EventView>) -> Seq<
    ActionView,
> {
    let start = ExecutionView::initial(job, dir);
    seq![start.first_request()] + answers(start, events)
}

/// Runs `job` in the workspace `work_dir` against a host whose answers are
/// known beforehand: hands `events` to a new execution one after the other and
/// returns what it has become, with every request it made on the way, the
/// first one included. Nothing is performed.
pub fn replay(job: Job, work_dir: String, events: Vec<Event>) -> (run: (Execution, Vec<Action>))
    ensures
        run.0@ == after(ExecutionView::initial(job@, work_dir@), events.deep_view()),
        run.1.deep_view() == requests(job@, work_dir@, events.deep_view()),
{
    let ghost start = ExecutionView::initial(job@, work_dir@);
    let ghost script = events.deep_view();
    let ghost items = events@;
    let (begun, first) = Execution::begin(job, work_dir);
    let mut execution = begun;
    let mut asked: Vec<Action> = Vec::new();
    asked.push(first);
    proof {
        assert(script.take(0) =~= Seq::<EventView>::empty());
        assert(asked.deep_view() =~= seq![start.first_request()] + answers(start, script.take(0)));
    }
    for event in it: events.into_iter()
        invariant
            it.seq() == items,
            script == Seq::new(items.len(), |i: int| items[i]@),
            execution@ == after(start, script.take(it.index() as int)),
            asked.deep_view() == seq![start.first_request()] + answers(
                start,
                script.take(it.index() as int),
            ),
    {
        let ghost done = it.index() as int;
        let ghost before = asked.deep_view();
        let (next, action) = execution.step(event);
        execution = next;
        asked.push(action);
        proof {
            let upto = script.take(done + 1);
            assert(upto.drop_last() =~= script.take(done));
            assert(upto.last() == event@);
            assert(asked.deep_view() =~= before.push(action@));
            assert(asked.deep_view() =~= seq![start.first_request()] + answers(start, upto));
        }
    }
    proof {
        assert(script.take(script.len() as int) =~= script);
    }
    (execution, asked)
}

/// Running on `first` and then on `rest` is running on both in a row.
pub proof fn lemma_after_concat(start: ExecutionView, first: Seq<EventView>, rest: Seq<EventView>)
    ensures
        after(start, first + rest) == after(after(start, first), rest),
        answers(start, first + rest) == answers(start, first) + answers(
            after(start, first),
            rest,
        ),
    decreases rest.len(),
{
    if rest.len() == 0 {
        assert(first + rest =~= first);
        assert(answers(start, first) + Seq::<ActionView>::empty() =~= answers(start, first));
    } else {
        assert((first + rest).drop_last() =~= first + rest.drop_last());
        assert((first + rest).last() == rest.last());
        lemma_after_concat(start, first, rest.drop_last());
        assert(answers(start, first + rest) =~= answers(start, first) + answers(
            after(start, first),
            rest,
        ));
    }
}

/// A run on one event is one step.
pub proof fn lemma_after_one(start: ExecutionView, event: EventView)
    ensures
        after(start, seq![event]) == start.step(event).0,
        answers(start, seq![event]) == seq![start.step(event).1],
{
    let one = seq![event];
    assert(one.drop_last() =~= Seq::<EventView>::empty());
    assert(one.last() == event);
    assert(after(start, one.drop_last()) == start);
    assert(answers(start, one.drop_last()) =~= Seq::<ActionView>::empty());
    assert(answers(start, one) =~= seq![start.step(event).1]);
}

/// An execution stays well formed, and stays with its job and its workspace,
/// whatever the host answers. There is one answer for each event.
pub proof fn lemma_after_well_formed(start: ExecutionView, events: Seq<EventView>)
    requires
        start.well_formed(),
    ensures
        after(start, events).well_formed(),
        after(start, events).job == start.job,
        after(start, events).work_dir == start.work_dir,
        answers(start, events).len() == events.len(),
    decreases events.len(),
{
    if events.len() > 0 {
        lemma_after_well_formed(start, events.drop_last());
        lemma_step_well_formed(after(start, events.drop_last()), events.last());
    }
}

/// The events of a host that answers one process request after the other with
/// `outcomes`.
pub open spec fn process_events(outcomes: Seq<ProcessOutcomeView>) -> Seq<EventView> {
    Seq::new(outcomes.len(), |i: int| EventView::Process(outcomes[i]))
}

/// The events of a host that answers one read request after the other with
/// `reads`.
pub open spec fn read_events(reads: Seq<ReadOutcomeView>) -> Seq<EventView> {
    Seq::new(reads.len(), |i: int| EventView::Read(reads[i]))
}

/// The log entries of the first commands, each with its outcome.
pub open spec fn command_entries(commands: Seq<Seq<char>>, outcomes: Seq<ProcessOutcomeView>)
    -> Seq<LogEntryView> {
    Seq::new(outcomes.len(), |i: int| command_entry(commands[i], outcomes[i]))
}

/// The requests that run the first `count` commands, in order.
pub open spec fn command_requests(commands: Seq<Seq<char>>, dir: Seq<char>, count: nat) -> Seq<
    ActionView,
> {
    Seq::new(count, |i: int| shell_request(commands[i], dir))
}

/// The requests that read the first `count` outputs, in order.
pub open spec fn output_requests(outputs: Seq<JobOutputView>, dir: Seq<char>, count: nat) -> Seq<
    ActionView,
> {
    Seq::new(count, |i: int| read_request(dir, outputs[i].path))
}

/// `base` turned to the command at `index`, with `entries` added to its log.
pub open spec fn at_command(base: ExecutionView, entries: Seq<LogEntryView>, index: nat) -> (
    ExecutionView,
    ActionView,
) {
    ExecutionView { log: base.log + entries, ..base }.begin_command(index)
}

/// `base` turned to the output at `index`, with `entries` added to its log and
/// `artifacts` to what it has gathered.
pub open spec fn at_output(
    base: ExecutionView,
    entries: Seq<LogEntryView>,
    artifacts: Seq<JobArtifactView>,
    index: nat,
) -> (ExecutionView, ActionView) {
    ExecutionView {
        log: base.log + entries,
        artifacts: base.artifacts + artifacts,
        ..base
    }.begin_output(index)
}

/// While the commands succeed, the machine runs them one after the other and
/// logs each with its outcome.
pub proof fn lemma_commands_succeed(base: ExecutionView, outcomes: Seq<ProcessOutcomeView>)
    requires
        outcomes.len() <= base.job.commands.len(),
        all_succeeded(outcomes),
    ensures
        after(base.begin_command(0).0, process_events(outcomes)) == at_command(
            base,
            command_entries(base.job.commands, outcomes),
            outcomes.len(),
        ).0,
        seq![base.begin_command(0).1] + answers(
            base.begin_command(0).0,
            process_events(outcomes),
        ) == command_requests(base.job.commands, base.work_dir, outcomes.len()).push(
            base.begin_command(outcomes.len()).1,
        ),
    decreases outcomes.len(),
{
    let commands = base.job.commands;
    let first = base.begin_command(0);
    let events = process_events(outcomes);
    let entries = command_entries(commands, outcomes);
    if outcomes.len() == 0 {
        assert(base.log + entries =~= base.log);
        assert(seq![first.1] + answers(first.0, events) =~= command_requests(
            commands,
            base.work_dir,
            0,
        ).push(first.1));
    } else {
        let fewer = outcomes.drop_last();
        let count = fewer.len();
        lemma_commands_succeed(base, fewer);
        assert(events.drop_last() =~= process_events(fewer));
        assert(events.last() == EventView::Process(outcomes.last()));
        assert(outcomes.last().succeeded());
        let before = at_command(base, command_entries(commands, fewer), count).0;
        assert(before.phase == PhaseView::Running { index: count });
        assert(before.log.push(command_entry(commands[count as int], outcomes.last()))
            =~= base.log + entries);
        assert(after(first.0, events) == before.step(events.last()).0);
        assert(seq![first.1] + answers(first.0, events) =~= (seq![first.1] + answers(
            first.0,
            events.drop_last(),
        )).push(before.step(events.last()).1));
        assert(command_requests(commands, base.work_dir, count).push(
            base.begin_command(count).1,
        ) =~= command_requests(commands, base.work_dir, outcomes.len()));
    }
}

/// The machine asks for each output in turn, whatever became of the one
/// before: what could be read is gathered, what could not is logged.
pub proof fn lemma_outputs_read(base: ExecutionView, reads: Seq<ReadOutcomeView>)
    requires
        reads.len() <= base.job.outputs.len(),
    ensures
        after(base.begin_output(0).0, read_events(reads)) == at_output(
            base,
            harvest_log(base.job.outputs, reads),
            harvest(base.job.outputs, reads),
            reads.len(),
        ).0,
        seq![base.begin_output(0).1] + answers(base.begin_output(0).0, read_events(reads))
            == output_requests(base.job.outputs, base.work_dir, reads.len()).push(
            base.begin_output(reads.len()).1,
        ),
    decreases reads.len(),
{
    let outputs = base.job.outputs;
    let first = base.begin_output(0);
    let events = read_events(reads);
    if reads.len() == 0 {
        assert(base.log + harvest_log(outputs, reads) =~= base.log);
        assert(base.artifacts + harvest(outputs, reads) =~= base.artifacts);
        assert(seq![first.1] + answers(first.0, events) =~= output_requests(
            outputs,
            base.work_dir,
            0,
        ).push(first.1));
    } else {
        let fewer = reads.drop_last();
        let count = fewer.len();
        lemma_outputs_read(base, fewer);
        assert(events.drop_last() =~= read_events(fewer));
        assert(events.last() == EventView::Read(reads.last()));
        let before = at_output(base, harvest_log(outputs, fewer), harvest(outputs, fewer), count).0;
        assert(before.phase == PhaseView::Collecting { index: count });
        match collected(outputs[count as int].name, reads.last()) {
            Ok(artifact) => {
                assert(before.artifacts.push(artifact) =~= base.artifacts + harvest(
                    outputs,
                    reads,
                ));
            },
            Err(entry) => {
                assert(before.log.push(entry) =~= base.log + harvest_log(outputs, reads));
            },
        }
        assert(after(first.0, events) == before.step(events.last()).0);
        assert(seq![first.1] + answers(first.0, events) =~= (seq![first.1] + answers(
            first.0,
            events.drop_last(),
        )).push(before.step(events.last()).1));
        assert(output_requests(outputs, base.work_dir, count).push(base.begin_output(count).1)
            =~= output_requests(outputs, base.work_dir, reads.len()));
    }
}

/// What the host answers to the request to remove the workspace: that it is
/// gone, or, with `removal` the system's message, that it could not be
/// removed.
pub open spec fn removal_event(removal: Option<Seq<char>>) -> EventView {
    match removal {
        None => EventView::WorkspaceRemoved,
        Some(reason) => EventView::WorkspaceNotRemoved { reason },
    }
}

/// The events of a host that creates the workspace, does what it is asked and
/// answers the clone with `fetch`, the command at `i` with `outcomes[i]`, the
/// output at `j` with `reads[j]`, and the removal of the workspace as
/// `removal` says: it is asked for the commands up to the first that fails,
/// and for the outputs only where no command failed.
pub open spec fn faithful_events(
    fetch: ProcessOutcomeView,
    outcomes: Seq<ProcessOutcomeView>,
    reads: Seq<ReadOutcomeView>,
    removal: Option<Seq<char>>,
) -> Seq<EventView> {
    seq![EventView::WorkspaceCreated, EventView::Process(fetch)] + stage_events(
        fetch,
        outcomes,
        reads,
    ) + seq![removal_event(removal)]
}

/// The events between the end of the clone and the removal of the workspace.
pub open spec fn stage_events(
    fetch: ProcessOutcomeView,
    outcomes: Seq<ProcessOutcomeView>,
    reads: Seq<ReadOutcomeView>,
) -> Seq<EventView> {
    if !fetch.succeeded() {
        Seq::empty()
    } else if run_status(outcomes) == JobStatus::Success {
        process_events(outcomes) + read_events(reads)
    } else {
        process_events(outcomes.take(started(outcomes) as int))
    }
}

/// The status that the stages give a job: failed where the clone or one of
/// the commands failed, and only there.
pub open spec fn expected_status(fetch: ProcessOutcomeView, outcomes: Seq<ProcessOutcomeView>)
    -> JobStatus {
    if fetch.succeeded() {
        run_status(outcomes)
    } else {
        JobStatus::Failed
    }
}

/// The log that the stages give a job: the clone's error alone; or the
/// commands that were started, followed, where all succeeded, by the outputs
/// that could not be read.
pub open spec fn expected_log(
    job: JobView,
    fetch: ProcessOutcomeView,
    outcomes: Seq<ProcessOutcomeView>,
    reads: Seq<ReadOutcomeView>,
) -> Seq<LogEntryView> {
    match fetch_verdict(fetch) {
        Err(error) => seq![error.entry()],
        Ok(_) => if run_status(outcomes) == JobStatus::Success {
            run_log(job.commands, outcomes) + harvest_log(job.outputs, reads)
        } else {
            run_log(job.commands, outcomes)
        },
    }
}

/// The artifacts that the stages give a job: those of the outputs that could
/// be read where the clone and every command succeeded, none otherwise.
pub open spec fn expected_artifacts(
    job: JobView,
    fetch: ProcessOutcomeView,
    outcomes: Seq<ProcessOutcomeView>,
    reads: Seq<ReadOutcomeView>,
) -> Seq<JobArtifactView> {
    if fetch.succeeded() && run_status(outcomes) == JobStatus::Success {
        harvest(job.outputs, reads)
    } else {
        Seq::empty()
    }
}

/// The requests between the clone and the removal of the workspace.
pub open spec fn stage_requests(
    job: JobView,
    dir: Seq<char>,
    fetch: ProcessOutcomeView,
    outcomes: Seq<ProcessOutcomeView>,
) -> Seq<ActionView> {
    if !fetch.succeeded() {
        Seq::empty()
    } else if run_status(outcomes) == JobStatus::Success {
        command_requests(job.commands, dir, job.commands.len()) + output_requests(
            job.outputs,
            dir,
            job.outputs.len(),
        )
    } else {
        command_requests(job.commands, dir, started(outcomes))
    }
}

/// Every request of a job whose host is faithful, in order. The last one
/// carries the warning where the workspace could not be removed.
pub open spec fn expected_requests(
    job: JobView,
    dir: Seq<char>,
    fetch: ProcessOutcomeView,
    outcomes: Seq<ProcessOutcomeView>,
    removal: Option<Seq<char>>,
) -> Seq<ActionView> {
    seq![
        ActionView::CreateWorkspace { dir },
        clone_request(job.repository, job.branch, dir),
    ] + stage_requests(job, dir, fetch, outcomes) + seq![
        ActionView::RemoveWorkspace { dir },
        ActionView::Report { warning: removal },
    ]
}

/// From the end of a clone that succeeded to the request to remove the
/// workspace: the commands run up to the first that fails; the outputs are
/// read only where none failed.
pub proof fn lemma_stages(
    base: ExecutionView,
    fetch: ProcessOutcomeView,
    outcomes: Seq<ProcessOutcomeView>,
    reads: Seq<ReadOutcomeView>,
)
    requires
        fetch.succeeded(),
        base.status == JobStatus::Success,
        base.log.len() == 0,
        base.artifacts.len() == 0,
        outcomes.len() == base.job.commands.len(),
        reads.len() == base.job.outputs.len(),
    ensures
        after(base.begin_command(0).0, stage_events(fetch, outcomes, reads)) == (ExecutionView {
            phase: PhaseView::Removing,
            status: run_status(outcomes),
            log: expected_log(base.job, fetch, outcomes, reads),
            artifacts: expected_artifacts(base.job, fetch, outcomes, reads),
            ..base
        }),
        seq![base.begin_command(0).1] + answers(
            base.begin_command(0).0,
            stage_events(fetch, outcomes, reads),
        ) == stage_requests(base.job, base.work_dir, fetch, outcomes).push(
            ActionView::RemoveWorkspace { dir: base.work_dir },
        ),
{
    let job = base.job;
    let dir = base.work_dir;
    let first = base.begin_command(0);
    lemma_started(outcomes);
    assert(base.log =~= Seq::empty());
    assert(base.artifacts =~= Seq::empty());
    if run_status(outcomes) == JobStatus::Success {
        let entries = command_entries(job.commands, outcomes);
        assert(entries =~= run_log(job.commands, outcomes));
        lemma_commands_succeed(base, outcomes);
        let ran = ExecutionView { log: base.log + entries, ..base };
        assert(ran.begin_command(outcomes.len()) == ran.begin_output(0));
        assert(base.begin_command(outcomes.len()).1 == ran.begin_output(0).1);
        lemma_outputs_read(ran, reads);
        lemma_after_concat(first.0, process_events(outcomes), read_events(reads));
        let read = at_output(
            ran,
            harvest_log(job.outputs, reads),
            harvest(job.outputs, reads),
            reads.len(),
        );
        assert(ran.log + harvest_log(job.outputs, reads) =~= expected_log(
            job,
            fetch,
            outcomes,
            reads,
        ));
        assert(ran.artifacts + harvest(job.outputs, reads) =~= expected_artifacts(
            job,
            fetch,
            outcomes,
            reads,
        ));
        assert(ran.begin_output(reads.len()).1 == ActionView::RemoveWorkspace { dir });
        let command_part = seq![first.1] + answers(first.0, process_events(outcomes));
        let output_part = seq![ran.begin_output(0).1] + answers(
            ran.begin_output(0).0,
            read_events(reads),
        );
        assert(command_part.len() == outcomes.len() + 1);
        assert(output_part.len() == reads.len() + 1);
        assert(command_part.last() == ran.begin_output(0).1);
        assert(after(first.0, process_events(outcomes)) == ran.begin_output(0).0);
        assert(command_part =~= command_part.drop_last() + seq![ran.begin_output(0).1]);
        assert(seq![first.1] + answers(first.0, stage_events(fetch, outcomes, reads))
            =~= command_part.drop_last() + output_part);
        assert(command_part.drop_last() =~= command_requests(job.commands, dir, outcomes.len()));
        assert(command_part.drop_last() + output_part =~= stage_requests(
            job,
            dir,
            fetch,
            outcomes,
        ).push(ActionView::RemoveWorkspace { dir }));
    } else {
        let count = started(outcomes);
        let good = outcomes.take(count - 1);
        let bad = outcomes[count - 1];
        assert(all_succeeded(good)) by {
            assert forall|i: int| 0 <= i < good.len() implies (#[trigger] good[i]).succeeded() by {
                assert(outcomes[i].succeeded());
            }
        }
        lemma_commands_succeed(base, good);
        let events = stage_events(fetch, outcomes, reads);
        assert(events =~= process_events(good) + seq![EventView::Process(bad)]);
        lemma_after_concat(first.0, process_events(good), seq![EventView::Process(bad)]);
        let before = at_command(base, command_entries(job.commands, good), good.len()).0;
        assert(before.phase == PhaseView::Running { index: good.len() });
        lemma_after_one(before, EventView::Process(bad));
        let entry = command_entry(job.commands[count - 1], bad);
        assert(before.step(EventView::Process(bad)) == before.fail(entry));
        assert(before.log.push(entry) =~= run_log(job.commands, outcomes));
        let command_part = seq![first.1] + answers(first.0, process_events(good));
        assert(command_part =~= command_requests(job.commands, dir, count));
        assert(seq![first.1] + answers(first.0, events) =~= command_part.push(
            ActionView::RemoveWorkspace { dir },
        ));
    }
}

/// The whole of a job whose host is faithful. It ends with a report. Its
/// status, log and artifacts are those that the stages give one after the
/// other, whether or not the workspace could be removed in the end; and the
/// host was asked for exactly this: the workspace, the clone, the commands up
/// to the first that failed, the outputs (only where no command failed), the
/// removal of the workspace.
pub proof fn law_faithful_host(
    job: JobView,
    dir: Seq<char>,
    fetch: ProcessOutcomeView,
    outcomes: Seq<ProcessOutcomeView>,
    reads: Seq<ReadOutcomeView>,
    removal: Option<Seq<char>>,
)
    requires
        outcomes.len() == job.commands.len(),
        reads.len() == job.outputs.len(),
    ensures
        after(
            ExecutionView::initial(job, dir),
            faithful_events(fetch, outcomes, reads, removal),
        ) == (ExecutionView {
            job,
            work_dir: dir,
            phase: PhaseView::Finished,
            status: expected_status(fetch, outcomes),
            log: expected_log(job, fetch, outcomes, reads),
            artifacts: expected_artifacts(job, fetch, outcomes, reads),
        }),
        requests(job, dir, faithful_events(fetch, outcomes, reads, removal)) == expected_requests(
            job,
            dir,
            fetch,
            outcomes,
            removal,
        ),
{
    let start = ExecutionView::initial(job, dir);
    let created = EventView::WorkspaceCreated;
    let fetched = EventView::Process(fetch);
    let removed = removal_event(removal);
    let opening = seq![created, fetched];
    let middle = stage_events(fetch, outcomes, reads);
    let events = faithful_events(fetch, outcomes, reads, removal);
    let base = start.step(created).0;
    let clone = clone_request(job.repository, job.branch, dir);
    let remove = ActionView::RemoveWorkspace { dir };

    // The workspace is there and the clone has ended.
    assert(opening =~= seq![created] + seq![fetched]);
    lemma_after_concat(start, seq![created], seq![fetched]);
    lemma_after_one(start, created);
    lemma_after_one(base, fetched);
    let cloned = base.step(fetched);
    assert(after(start, opening) == cloned.0);
    assert(answers(start, opening) =~= seq![clone, cloned.1]);

    // The stages, up to the request to remove the workspace.
    lemma_after_concat(start, opening, middle);
    let staged = after(cloned.0, middle);
    let wanted = ExecutionView {
        phase: PhaseView::Removing,
        status: expected_status(fetch, outcomes),
        log: expected_log(job, fetch, outcomes, reads),
        artifacts: expected_artifacts(job, fetch, outcomes, reads),
        ..base
    };
    let asked = seq![cloned.1] + answers(cloned.0, middle);
    if fetch.succeeded() {
        assert(cloned == base.begin_command(0));
        lemma_stages(base, fetch, outcomes, reads);
    } else {
        assert(middle =~= Seq::<EventView>::empty());
        assert(cloned == base.fail(fetch_verdict(fetch)->Err_0.entry()));
        assert(base.log.push(fetch_verdict(fetch)->Err_0.entry()) =~= expected_log(
            job,
            fetch,
            outcomes,
            reads,
        ));
        assert(base.artifacts =~= expected_artifacts(job, fetch, outcomes, reads));
        assert(asked =~= stage_requests(job, dir, fetch, outcomes).push(remove));
    }
    assert(staged == wanted);
    assert(asked == stage_requests(job, dir, fetch, outcomes).push(remove));

    // The workspace goes.
    lemma_after_concat(start, opening + middle, seq![removed]);
    lemma_after_one(staged, removed);
    assert(answers(start, events) =~= seq![clone] + asked + seq![
        ActionView::Report { warning: removal },
    ]);
    assert(requests(job, dir, events) =~= expected_requests(job, dir, fetch, outcomes, removal));
}

} // verus!
