//! What passes between an execution and its host: the requests that the host
//! is asked to perform, and what it reports back.

use vstd::prelude::*;
use vstd::utf8::{decode_utf8, valid_utf8};

verus! {

/// The text that `String::from_utf8_lossy` makes of `bytes`.
pub uninterp spec fn utf8_lossy(bytes: Seq<u8>) -> Seq<char>;

/// Calls `String::from_utf8_lossy` on `bytes`. Trusted: the text is a function
/// of the bytes alone, and for well-formed UTF-8 it is the text that the bytes
/// encode. (Each ill-formed part comes out as U+FFFD; that part of the
/// function is not stated here.)
#[verifier::external_body]
pub(crate) fn decode_lossy(bytes: &Vec<u8>) -> (text: String)
    ensures
        text@ == utf8_lossy(bytes@),
        valid_utf8(bytes@) ==> text@ == decode_utf8(bytes@),
{
    String::from_utf8_lossy(bytes).into_owned()
}

/// How the attempt to run an external program ended.
#[derive(Debug, Clone, PartialEq, Eq)]
pub enum ProcessOutcome {
    /// The program ran to its end; `success` says whether its exit status was
    /// zero. Both streams were captured whole.
    Exited { success: bool, stdout: String, stderr: String },
    /// The program could not be started; `reason` is the system's message.
    NotStarted { reason: String },
}

pub enum ProcessOutcomeView {
    Exited { success: bool, stdout: Seq<char>, stderr: Seq<char> },
    NotStarted { reason: Seq<char> },
}

impl View for ProcessOutcome {
    type V = ProcessOutcomeView;

    open spec fn view(&self) -> ProcessOutcomeView {
        match self {
            ProcessOutcome::Exited { success, stdout, stderr } => ProcessOutcomeView::Exited {
                success: *success,
                stdout: stdout@,
                stderr: stderr@,
            },
            ProcessOutcome::NotStarted { reason } => ProcessOutcomeView::NotStarted {
                reason: reason@,
            },
        }
    }
}

impl ProcessOutcomeView {
    /// The program ran and exited with status zero.
    pub open spec fn succeeded(self) -> bool {
        self matches ProcessOutcomeView::Exited { success, .. } && success
    }
}

impl ProcessOutcome {
    /// The outcome of a program that ran to its end, from the raw bytes of its
    /// two streams. Bytes that are not UTF-8 are replaced, never refused.
    pub fn exited(success: bool, stdout: &Vec<u8>, stderr: &Vec<u8>) -> (outcome: ProcessOutcome)
        ensures
            outcome@ == (ProcessOutcomeView::Exited {
                success,
                stdout: utf8_lossy(stdout@),
                stderr: utf8_lossy(stderr@),
            }),
            valid_utf8(stdout@) ==> outcome@->stdout == decode_utf8(stdout@),
            valid_utf8(stderr@) ==> outcome@->stderr == decode_utf8(stderr@),
    {
        let out = decode_lossy(stdout);
        let err = decode_lossy(stderr);
        ProcessOutcome::Exited { success, stdout: out, stderr: err }
    }

    /// Whether the program ran and exited with status zero.
    pub fn succeeded(&self) -> (yes: bool)
        ensures
            yes == self@.succeeded(),
    {
        match self {
            ProcessOutcome::Exited { success, .. } => *success,
            ProcessOutcome::NotStarted { .. } => false,
        }
    }
}

/// How the attempt to read a file as text ended.
#[derive(Debug, Clone, PartialEq, Eq)]
pub enum ReadOutcome {
    /// The file was read; `content` is all of it.
    Text { content: String },
    /// The file is missing, unreadable or not text; `reason` is the system's
    /// message.
    Unreadable { reason: String },
}

pub enum ReadOutcomeView {
    Text { content: Seq<char> },
    Unreadable { reason: Seq<char> },
}

impl View for ReadOutcome {
    type V = ReadOutcomeView;

    open spec fn view(&self) -> ReadOutcomeView {
        match self {
            ReadOutcome::Text { content } => ReadOutcomeView::Text { content: content@ },
            ReadOutcome::Unreadable { reason } => ReadOutcomeView::Unreadable { reason: reason@ },
        }
    }
}

/// What the host reports after it has performed a request.
#[derive(Debug, Clone, PartialEq, Eq)]
pub enum Event {
    /// The workspace directory now exists and is empty.
    WorkspaceCreated,
    /// The workspace directory could not be created; `reason` is the system's
    /// message.
    WorkspaceNotCreated { reason: String },
    /// The program that was asked for has been dealt with.
    Process(ProcessOutcome),
    /// The file that was asked for has been dealt with.
    Read(ReadOutcome),
    /// The workspace directory and all below it are gone.
    WorkspaceRemoved,
    /// The workspace directory could not be removed; `reason` is the system's
    /// message.
    WorkspaceNotRemoved { reason: String },
}

pub enum EventView {
    WorkspaceCreated,
    WorkspaceNotCreated { reason: Seq<char> },
    Process(ProcessOutcomeView),
    Read(ReadOutcomeView),
    WorkspaceRemoved,
    WorkspaceNotRemoved { reason: Seq<char> },
}

impl View for Event {
    type V = EventView;

    open spec fn view(&self) -> EventView {
        match self {
            Event::WorkspaceCreated => EventView::WorkspaceCreated,
            Event::WorkspaceNotCreated { reason } => EventView::WorkspaceNotCreated {
                reason: reason@,
            },
            Event::Process(outcome) => EventView::Process(outcome@),
            Event::Read(outcome) => EventView::Read(outcome@),
            Event::WorkspaceRemoved => EventView::WorkspaceRemoved,
            Event::WorkspaceNotRemoved { reason } => EventView::WorkspaceNotRemoved {
                reason: reason@,
            },
        }
    }
}

impl DeepView for Event {
    type V = EventView;

    open spec fn deep_view(&self) -> EventView {
        self@
    }
}

/// What an execution asks of its host next.
#[derive(Debug, Clone, PartialEq, Eq)]
pub enum Action {
    /// Create the directory `dir`; it must not exist yet.
    CreateWorkspace { dir: String },
    /// Run `program` with `args` and capture both of its streams whole. With
    /// `cwd` the program runs in that directory, without it in the host's own.
    Spawn { program: String, args: Vec<String>, cwd: Option<String> },
    /// Read the file at `path` as text.
    ReadText { path: String },
    /// Remove the directory `dir` and all below it.
    RemoveWorkspace { dir: String },
    /// The job is over and the report can be taken. `warning` holds the
    /// system's message where the workspace could not be removed and is left
    /// behind; the report is the same with and without it.
    Report { warning: Option<String> },
    /// The event answers no pending request; the execution is unchanged.
    Rejected,
}

pub enum ActionView {
    CreateWorkspace { dir: Seq<char> },
    Spawn { program: Seq<char>, args: Seq<Seq<char>>, cwd: Option<Seq<char>> },
    ReadText { path: Seq<char> },
    RemoveWorkspace { dir: Seq<char> },
    Report { warning: Option<Seq<char>> },
    Rejected,
}

impl View for Action {
    type V = ActionView;

    open spec fn view(&self) -> ActionView {
        match self {
            Action::CreateWorkspace { dir } => ActionView::CreateWorkspace { dir: dir@ },
            Action::Spawn { program, args, cwd } => ActionView::Spawn {
                program: program@,
                args: args.deep_view(),
                cwd: cwd.deep_view(),
            },
            Action::ReadText { path } => ActionView::ReadText { path: path@ },
            Action::RemoveWorkspace { dir } => ActionView::RemoveWorkspace { dir: dir@ },
            Action::Report { warning } => ActionView::Report { warning: warning.deep_view() },
            Action::Rejected => ActionView::Rejected,
        }
    }
}

impl DeepView for Action {
    type V = ActionView;

    open spec fn deep_view(&self) -> ActionView {
        self@
    }
}

} // verus!
