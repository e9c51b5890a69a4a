//! Job orchestrator: one execution of a job as a state machine. The host
//! performs the request that the machine hands out and reports what happened;
//! the machine decides what comes next. It never touches the outside world
//! itself.
//!
//! The stages follow one another strictly: create the workspace, clone the
//! repository, run the commands in order until one fails, read the declared
//! outputs (only if every command succeeded), remove the workspace (always),
//! report. No failure ends an execution without a report: a workspace that
//! cannot be created makes a failed job, and one that cannot be removed
//! leaves the job's result as it is and is told to the host as a warning.

use vstd::prelude::*;
use crate::collector::{collect_one, collected, output_request, read_request};
use crate::fetcher::{clone_request, fetch_request, fetch_result, fetch_verdict};
use crate::host::{Action, ActionView, Event, EventView};
use crate::job::{Job, JobArtifact, JobArtifactView, JobResult, JobResultView, JobStatus, JobView};
use crate::log::{log_text, render_log, LogEntry, LogEntryView};
use crate::paint::{Marks, MarksView};
use crate::runner::{command_entry, command_request, record_command, shell_request};
use crate::workspace::{fresh_uuid_text, fresh_workspace_name, is_uuid_text, is_workspace_name};

verus! {

/// Where an execution stands: which answer it waits for.
#[derive(Debug, Clone, Copy, PartialEq, Eq, Structural)]
pub enum Phase {
    /// Waiting for the workspace to be created.
    Preparing,
    /// Waiting for the clone to end.
    Fetching,
    /// Waiting for the command at `index` to end.
    Running { index: usize },
    /// Waiting for the output at `index` to be read.
    Collecting { index: usize },
    /// Waiting for the workspace to be removed.
    Removing,
    /// The job is over and the report can be taken.
    Finished,
}

pub enum PhaseView {
    Preparing,
    Fetching,
    Running { index: nat },
    Collecting { index: nat },
    Removing,
    Finished,
}

impl View for Phase {
    type V = PhaseView;

    open spec fn view(&self) -> PhaseView {
        match self {
            Phase::Preparing => PhaseView::Preparing,
            Phase::Fetching => PhaseView::Fetching,
            Phase::Running { index } => PhaseView::Running { index: *index as nat },
            Phase::Collecting { index } => PhaseView::Collecting { index: *index as nat },
            Phase::Removing => PhaseView::Removing,
            Phase::Finished => PhaseView::Finished,
        }
    }
}

/// An execution as a mathematical value.
pub struct ExecutionView {
    pub job: JobView,
    pub work_dir: Seq<char>,
    pub phase: PhaseView,
    pub status: JobStatus,
    pub log: Seq<LogEntryView>,
    pub artifacts: Seq<JobArtifactView>,
}

impl ExecutionView {
    /// The execution of `job` in the workspace `work_dir` before anything has
    /// happened.
    pub open spec fn initial(job: JobView, work_dir: Seq<char>) -> ExecutionView {
        ExecutionView {
            job,
            work_dir,
            phase: PhaseView::Preparing,
            status: JobStatus::Success,
            log: Seq::empty(),
            artifacts: Seq::empty(),
        }
    }

    /// The first request of every execution: create its workspace.
    pub open spec fn first_request(self) -> ActionView {
        ActionView::CreateWorkspace { dir: self.work_dir }
    }

    /// What holds of every execution, at every moment: the phase points at a
    /// command or output that exists; nothing is logged or gathered before the
    /// clone has ended; nothing is gathered while commands run; a job that
    /// failed has no artifacts and at least one log entry; a job that
    /// succeeded has dealt with every command and every output.
    pub open spec fn well_formed(self) -> bool {
        match self.phase {
            PhaseView::Preparing | PhaseView::Fetching => {
                &&& self.status == JobStatus::Success
                &&& self.log.len() == 0
                &&& self.artifacts.len() == 0
            },
            PhaseView::Running { index } => {
                &&& index < self.job.commands.len()
                &&& self.status == JobStatus::Success
                &&& self.log.len() == index
                &&& self.artifacts.len() == 0
            },
            PhaseView::Collecting { index } => {
                &&& index < self.job.outputs.len()
                &&& self.status == JobStatus::Success
                &&& self.log.len() + self.artifacts.len() == self.job.commands.len() + index
                &&& self.artifacts.len() <= index
            },
            PhaseView::Removing | PhaseView::Finished => match self.status {
                JobStatus::Failed => self.artifacts.len() == 0 && self.log.len() >= 1,
                JobStatus::Success => {
                    &&& self.log.len() + self.artifacts.len() == self.job.commands.len()
                        + self.job.outputs.len()
                    &&& self.artifacts.len() <= self.job.outputs.len()
                },
            },
        }
    }

    /// The workspace is the last thing to go: ask for its removal.
    pub open spec fn begin_removal(self) -> (ExecutionView, ActionView) {
        (
            ExecutionView { phase: PhaseView::Removing, ..self },
            ActionView::RemoveWorkspace { dir: self.work_dir },
        )
    }

    /// Turn to the output at `index`: ask for it to be read, or, where there is
    /// none left, for the workspace to be removed.
    pub open spec fn begin_output(self, index: nat) -> (ExecutionView, ActionView) {
        if index < self.job.outputs.len() {
            (
                ExecutionView { phase: PhaseView::Collecting { index }, ..self },
                read_request(self.work_dir, self.job.outputs[index as int].path),
            )
        } else {
            self.begin_removal()
        }
    }

    /// Turn to the command at `index`: ask for it to be run, or, where there is
    /// none left, turn to the outputs.
    pub open spec fn begin_command(self, index: nat) -> (ExecutionView, ActionView) {
        if index < self.job.commands.len() {
            (
                ExecutionView { phase: PhaseView::Running { index }, ..self },
                shell_request(self.job.commands[index as int], self.work_dir),
            )
        } else {
            self.begin_output(0)
        }
    }

    /// The job has failed: note why, skip what is left, and ask for the
    /// workspace to be removed.
    pub open spec fn fail(self, entry: LogEntryView) -> (ExecutionView, ActionView) {
        ExecutionView {
            status: JobStatus::Failed,
            log: self.log.push(entry),
            ..self
        }.begin_removal()
    }

    /// The workspace could not be created: the job has failed before anything
    /// was run. Note why; the report is ready, and there is nothing to remove.
    pub open spec fn fail_setup(self, reason: Seq<char>) -> (ExecutionView, ActionView) {
        (
            ExecutionView {
                phase: PhaseView::Finished,
                status: JobStatus::Failed,
                log: self.log.push(LogEntryView::WorkspaceNotCreated { reason }),
                ..self
            },
            ActionView::Report { warning: None },
        )
    }

    /// The job is over. Whether the workspace is gone or was left behind, the
    /// status, the log and the artifacts stay as they are; a workspace left
    /// behind is told to the host as a warning.
    pub open spec fn finish(self, warning: Option<Seq<char>>) -> (ExecutionView, ActionView) {
        (ExecutionView { phase: PhaseView::Finished, ..self }, ActionView::Report { warning })
    }

    /// The event answers no pending request: nothing changes.
    pub open spec fn reject(self) -> (ExecutionView, ActionView) {
        (self, ActionView::Rejected)
    }

    /// The whole rule of the machine: the execution after `event`, and the
    /// next request to the host.
    pub open spec fn step(self, event: EventView) -> (ExecutionView, ActionView) {
        match self.phase {
            PhaseView::Preparing => match event {
                EventView::WorkspaceCreated => (
                    ExecutionView { phase: PhaseView::Fetching, ..self },
                    clone_request(self.job.repository, self.job.branch, self.work_dir),
                ),
                EventView::WorkspaceNotCreated { reason } => self.fail_setup(reason),
                _ => self.reject(),
            },
            PhaseView::Fetching => match event {
                EventView::Process(outcome) => match fetch_verdict(outcome) {
                    Ok(_) => self.begin_command(0),
                    Err(error) => self.fail(error.entry()),
                },
                _ => self.reject(),
            },
            PhaseView::Running { index } => match event {
                EventView::Process(outcome) => {
                    let entry = command_entry(self.job.commands[index as int], outcome);
                    if outcome.succeeded() {
                        ExecutionView { log: self.log.push(entry), ..self }.begin_command(
                            index + 1,
                        )
                    } else {
                        self.fail(entry)
                    }
                },
                _ => self.reject(),
            },
            PhaseView::Collecting { index } => match event {
                EventView::Read(outcome) => match collected(
                    self.job.outputs[index as int].name,
                    outcome,
                ) {
                    Ok(artifact) => ExecutionView {
                        artifacts: self.artifacts.push(artifact),
                        ..self
                    }.begin_output(index + 1),
                    Err(entry) => ExecutionView {
                        log: self.log.push(entry),
                        ..self
                    }.begin_output(index + 1),
                },
                _ => self.reject(),
            },
            PhaseView::Removing => match event {
                EventView::WorkspaceRemoved => self.finish(None),
                EventView::WorkspaceNotRemoved { reason } => self.finish(Some(reason)),
                _ => self.reject(),
            },
            PhaseView::Finished => self.reject(),
        }
    }

    /// The report of a finished execution, under the identifier `id` and with
    /// the log opened by `marks`; none while the execution is under way.
    pub open spec fn report(self, id: Seq<char>, marks: MarksView) -> Option<JobResultView> {
        if self.phase is Finished {
            Some(
                JobResultView {
                    id,
                    status: self.status,
                    output: log_text(self.log, marks),
                    artifacts: self.artifacts,
                },
            )
        } else {
            None
        }
    }
}

/// Every step keeps an execution well formed, and keeps its job and its
/// workspace: an execution never turns to another job or another directory.
pub proof fn lemma_step_well_formed(before: ExecutionView, event: EventView)
    requires
        before.well_formed(),
    ensures
        before.step(event).0.well_formed(),
        before.step(event).0.job == before.job,
        before.step(event).0.work_dir == before.work_dir,
{
}

/// One execution of one job. It owns the job, the name of its workspace, and
/// what has been logged and gathered so far.
#[derive(Debug)]
pub struct Execution {
    job: Job,
    work_dir: String,
    phase: Phase,
    status: JobStatus,
    log: Vec<LogEntry>,
    artifacts: Vec<JobArtifact>,
}

/// The mathematical value of an execution with these parts.
spec fn assemble(
    job: Job,
    work_dir: String,
    phase: Phase,
    status: JobStatus,
    log: Vec<LogEntry>,
    artifacts: Vec<JobArtifact>,
) -> ExecutionView {
    ExecutionView {
        job: job@,
        work_dir: work_dir@,
        phase: phase@,
        status,
        log: log.deep_view(),
        artifacts: artifacts.deep_view(),
    }
}

/// An execution between two phases: the parts that the next phase starts from.
spec fn staged(
    job: JobView,
    work_dir: Seq<char>,
    status: JobStatus,
    log: Seq<LogEntryView>,
    artifacts: Seq<JobArtifactView>,
) -> ExecutionView {
    ExecutionView { job, work_dir, phase: PhaseView::Removing, status, log, artifacts }
}

impl View for Execution {
    type V = ExecutionView;

    closed spec fn view(&self) -> ExecutionView {
        assemble(self.job, self.work_dir, self.phase, self.status, self.log, self.artifacts)
    }
}

impl Execution {
    #[verifier::type_invariant]
    spec fn inv(self) -> bool {
        self@.well_formed()
    }

    /// Starts the execution of `job` in the workspace `work_dir`. The first
    /// request asks for that directory to be created.
    pub fn begin(job: Job, work_dir: String) -> (started: (Execution, Action))
        ensures
            started.0@ == ExecutionView::initial(job@, work_dir@),
            started.0@.well_formed(),
            started.1@ == started.0@.first_request(),
    {
        let action = Action::CreateWorkspace { dir: work_dir.clone() };
        let log: Vec<LogEntry> = Vec::new();
        let artifacts: Vec<JobArtifact> = Vec::new();
        proof {
            assert(log.deep_view() =~= Seq::empty());
            assert(artifacts.deep_view() =~= Seq::empty());
        }
        let execution = Execution {
            job,
            work_dir,
            phase: Phase::Preparing,
            status: JobStatus::Success,
            log,
            artifacts,
        };
        (execution, action)
    }

    /// Starts the execution of `job` in a workspace of its own, under a name
    /// drawn for this execution alone.
    pub fn start(job: Job) -> (started: (Execution, Action))
        ensures
            is_workspace_name(started.0@.work_dir),
            started.0@ == ExecutionView::initial(job@, started.0@.work_dir),
            started.0@.well_formed(),
            started.1@ == started.0@.first_request(),
    {
        Execution::begin(job, fresh_workspace_name())
    }

    /// Where the execution stands.
    pub fn phase(&self) -> (phase: Phase)
        ensures
            phase@ == self@.phase,
    {
        self.phase
    }

    /// Whether the job has failed so far.
    pub fn status(&self) -> (status: JobStatus)
        ensures
            status == self@.status,
    {
        self.status
    }

    /// The job that is executed.
    pub fn job(&self) -> (job: &Job)
        ensures
            job@ == self@.job,
    {
        &self.job
    }

    /// The directory of the workspace.
    pub fn work_dir(&self) -> (dir: &str)
        ensures
            dir@ == self@.work_dir,
    {
        self.work_dir.as_str()
    }

    /// What has been logged so far, oldest first.
    pub fn log(&self) -> (log: &Vec<LogEntry>)
        ensures
            log.deep_view() == self@.log,
    {
        &self.log
    }

    /// What has been gathered so far, in the order of declaration.
    pub fn artifacts(&self) -> (artifacts: &Vec<JobArtifact>)
        ensures
            artifacts.deep_view() == self@.artifacts,
    {
        &self.artifacts
    }

    /// Whether the execution has come to its end and its report can be taken.
    pub fn is_over(&self) -> (over: bool)
        ensures
            over == (self@.phase is Finished),
    {
        match self.phase {
            Phase::Finished => true,
            _ => false,
        }
    }

    /// Turns to the removal of the workspace.
    fn enter_removal(
        job: Job,
        work_dir: String,
        status: JobStatus,
        log: Vec<LogEntry>,
        artifacts: Vec<JobArtifact>,
    ) -> (next: (Execution, Action))
        requires
            staged(job@, work_dir@, status, log.deep_view(), artifacts.deep_view()).well_formed(),
        ensures
            (next.0@, next.1@) == staged(
                job@,
                work_dir@,
                status,
                log.deep_view(),
                artifacts.deep_view(),
            ).begin_removal(),
    {
        let action = Action::RemoveWorkspace { dir: work_dir.clone() };
        (Execution { job, work_dir, phase: Phase::Removing, status, log, artifacts }, action)
    }

    /// Turns to the output at `index`, or to the removal where none is left.
    fn enter_output(
        job: Job,
        work_dir: String,
        log: Vec<LogEntry>,
        artifacts: Vec<JobArtifact>,
        index: usize,
    ) -> (next: (Execution, Action))
        requires
            index <= job.outputs.len(),
            artifacts.len() <= index,
            log.len() + artifacts.len() == job.commands.len() + index,
        ensures
            (next.0@, next.1@) == staged(
                job@,
                work_dir@,
                JobStatus::Success,
                log.deep_view(),
                artifacts.deep_view(),
            ).begin_output(index as nat),
    {
        if index < job.outputs.len() {
            let action = output_request(work_dir.as_str(), job.outputs[index].path.as_str());
            (
                Execution {
                    job,
                    work_dir,
                    phase: Phase::Collecting { index },
                    status: JobStatus::Success,
                    log,
                    artifacts,
                },
                action,
            )
        } else {
            Execution::enter_removal(job, work_dir, JobStatus::Success, log, artifacts)
        }
    }

    /// Turns to the command at `index`, or to the outputs where none is left.
    fn enter_command(job: Job, work_dir: String, log: Vec<LogEntry>, index: usize) -> (next: (
        Execution,
        Action,
    ))
        requires
            index <= job.commands.len(),
            log.len() == index,
        ensures
            (next.0@, next.1@) == staged(
                job@,
                work_dir@,
                JobStatus::Success,
                log.deep_view(),
                Seq::empty(),
            ).begin_command(index as nat),
    {
        let artifacts: Vec<JobArtifact> = Vec::new();
        proof {
            assert(artifacts.deep_view() =~= Seq::empty());
        }
        if index < job.commands.len() {
            let action = command_request(job.commands[index].as_str(), work_dir.as_str());
            (
                Execution {
                    job,
                    work_dir,
                    phase: Phase::Running { index },
                    status: JobStatus::Success,
                    log,
                    artifacts,
                },
                action,
            )
        } else {
            Execution::enter_output(job, work_dir, log, artifacts, 0)
        }
    }

    /// Notes why the job has failed and turns to the removal of the workspace.
    fn enter_failure(job: Job, work_dir: String, log: Vec<LogEntry>, entry: LogEntry) -> (next: (
        Execution,
        Action,
    ))
        ensures
            (next.0@, next.1@) == staged(
                job@,
                work_dir@,
                JobStatus::Success,
                log.deep_view(),
                Seq::empty(),
            ).fail(entry@),
    {
        let mut log = log;
        let ghost before = log.deep_view();
        log.push(entry);
        let artifacts: Vec<JobArtifact> = Vec::new();
        proof {
            assert(log.deep_view() =~= before.push(entry@));
            assert(artifacts.deep_view() =~= Seq::empty());
        }
        Execution::enter_removal(job, work_dir, JobStatus::Failed, log, artifacts)
    }

    /// Takes the host's answer and gives the next request. An answer that
    /// fits no pending request is rejected and changes nothing.
    pub fn step(self, event: Event) -> (next: (Execution, Action))
        ensures
            (next.0@, next.1@) == self@.step(event@),
            next.0@.well_formed(),
    {
        proof {
            use_type_invariant(&self);
            lemma_step_well_formed(self@, event@);
        }
        let Execution { job, work_dir, phase, status, log, artifacts } = self;
        match phase {
            Phase::Preparing => match event {
                Event::WorkspaceCreated => {
                    let action = fetch_request(
                        job.repository.as_str(),
                        job.branch.as_str(),
                        work_dir.as_str(),
                    );
                    (
                        Execution { job, work_dir, phase: Phase::Fetching, status, log, artifacts },
                        action,
                    )
                },
                Event::WorkspaceNotCreated { reason } => {
                    let mut log = log;
                    let ghost before = log.deep_view();
                    let entry = LogEntry::WorkspaceNotCreated { reason };
                    log.push(entry);
                    proof {
                        assert(log.deep_view() =~= before.push(entry@));
                    }
                    (
                        Execution {
                            job,
                            work_dir,
                            phase: Phase::Finished,
                            status: JobStatus::Failed,
                            log,
                            artifacts,
                        },
                        Action::Report { warning: None },
                    )
                },
                _ => (Execution { job, work_dir, phase, status, log, artifacts }, Action::Rejected),
            },
            Phase::Fetching => match event {
                Event::Process(outcome) => {
                    proof {
                        assert(artifacts.deep_view() =~= Seq::empty());
                    }
                    match fetch_result(outcome) {
                        Ok(_) => Execution::enter_command(job, work_dir, log, 0),
                        Err(error) => Execution::enter_failure(
                            job,
                            work_dir,
                            log,
                            error.into_entry(),
                        ),
                    }
                },
                _ => (Execution { job, work_dir, phase, status, log, artifacts }, Action::Rejected),
            },
            Phase::Running { index } => match event {
                Event::Process(outcome) => {
                    assert(index < job.commands.len());
                    proof {
                        assert(artifacts.deep_view() =~= Seq::empty());
                    }
                    let (entry, succeeded) = record_command(job.commands[index].as_str(), outcome);
                    if succeeded {
                        let mut log = log;
                        let ghost before = log.deep_view();
                        log.push(entry);
                        proof {
                            assert(log.deep_view() =~= before.push(entry@));
                        }
                        Execution::enter_command(job, work_dir, log, index + 1)
                    } else {
                        Execution::enter_failure(job, work_dir, log, entry)
                    }
                },
                _ => (Execution { job, work_dir, phase, status, log, artifacts }, Action::Rejected),
            },
            Phase::Collecting { index } => match event {
                Event::Read(outcome) => {
                    assert(index < job.outputs.len());
                    let mut log = log;
                    let mut artifacts = artifacts;
                    let ghost log_before = log.deep_view();
                    let ghost artifacts_before = artifacts.deep_view();
                    match collect_one(job.outputs[index].name.as_str(), outcome) {
                        Ok(artifact) => {
                            artifacts.push(artifact);
                            proof {
                                assert(artifacts.deep_view() =~= artifacts_before.push(artifact@));
                            }
                        },
                        Err(entry) => {
                            log.push(entry);
                            proof {
                                assert(log.deep_view() =~= log_before.push(entry@));
                            }
                        },
                    }
                    Execution::enter_output(job, work_dir, log, artifacts, index + 1)
                },
                _ => (Execution { job, work_dir, phase, status, log, artifacts }, Action::Rejected),
            },
            Phase::Removing => match event {
                Event::WorkspaceRemoved => (
                    Execution { job, work_dir, phase: Phase::Finished, status, log, artifacts },
                    Action::Report { warning: None },
                ),
                Event::WorkspaceNotRemoved { reason } => (
                    Execution { job, work_dir, phase: Phase::Finished, status, log, artifacts },
                    Action::Report { warning: Some(reason) },
                ),
                _ => (Execution { job, work_dir, phase, status, log, artifacts }, Action::Rejected),
            },
            Phase::Finished => (
                Execution { job, work_dir, phase, status, log, artifacts },
                Action::Rejected,
            ),
        }
    }

    /// The report of a finished execution under the identifier `id`, its log
    /// opened by `marks`; none while the execution is under way.
    pub fn conclude(self, id: String, marks: &Marks) -> (report: Option<JobResult>)
        ensures
            report is Some <==> self@.phase is Finished,
            match report {
                Some(result) => self@.report(id@, marks@) == Some(result@),
                None => self@.report(id@, marks@) is None,
            },
    {
        match self.phase {
            Phase::Finished => {
                let output = render_log(&self.log, marks);
                Some(JobResult { id, status: self.status, output, artifacts: self.artifacts })
            },
            _ => None,
        }
    }

    /// The report of a finished execution, under an identifier drawn for it
    /// alone and unrelated to anything the job holds. The log is opened by the
    /// marks as this process prints them.
    pub fn report(self) -> (report: Option<JobResult>)
        ensures
            report is Some <==> self@.phase is Finished,
            report matches Some(result) ==> {
                &&& is_uuid_text(result@.id)
                &&& result@.status == self@.status
                &&& result@.artifacts == self@.artifacts
                &&& exists|marks: MarksView|
                    marks.valid() && #[trigger] log_text(self@.log, marks) == result@.output
            },
    {
        let id = fresh_uuid_text();
        let marks = Marks::current();
        self.conclude(id, &marks)
    }
}

} // verus!
