//! The data that travels with a job: what is asked for and what is reported.

use vstd::prelude::*;

verus! {

/// A named value supplied with a job. It is kept with the job; no stage of an
/// execution reads it.
#[derive(Debug, Clone, PartialEq, Eq)]
pub struct JobInput {
    pub name: String,
    pub value: String,
}

pub struct JobInputView {
    pub name: Seq<char>,
    pub value: Seq<char>,
}

impl View for JobInput {
    type V = JobInputView;

    open spec fn view(&self) -> JobInputView {
        JobInputView { name: self.name@, value: self.value@ }
    }
}

impl DeepView for JobInput {
    type V = JobInputView;

    open spec fn deep_view(&self) -> JobInputView {
        self@
    }
}

/// A file to harvest once the commands have run: `path` is relative to the
/// workspace root, `name` is the name under which its content is reported.
#[derive(Debug, Clone, PartialEq, Eq)]
pub struct JobOutput {
    pub name: String,
    pub path: String,
}

pub struct JobOutputView {
    pub name: Seq<char>,
    pub path: Seq<char>,
}

impl View for JobOutput {
    type V = JobOutputView;

    open spec fn view(&self) -> JobOutputView {
        JobOutputView { name: self.name@, path: self.path@ }
    }
}

impl DeepView for JobOutput {
    type V = JobOutputView;

    open spec fn deep_view(&self) -> JobOutputView {
        self@
    }
}

/// One request to build a repository: clone `branch` of `repository`, run
/// `commands` in order, then collect `outputs`. `name` is descriptive only.
#[derive(Debug, Clone, PartialEq, Eq)]
pub struct Job {
    pub name: String,
    pub repository: String,
    pub branch: String,
    pub commands: Vec<String>,
    pub inputs: Vec<JobInput>,
    pub outputs: Vec<JobOutput>,
}

pub struct JobView {
    pub name: Seq<char>,
    pub repository: Seq<char>,
    pub branch: Seq<char>,
    pub commands: Seq<Seq<char>>,
    pub inputs: Seq<JobInputView>,
    pub outputs: Seq<JobOutputView>,
}

impl View for Job {
    type V = JobView;

    open spec fn view(&self) -> JobView {
        JobView {
            name: self.name@,
            repository: self.repository@,
            branch: self.branch@,
            commands: self.commands.deep_view(),
            inputs: self.inputs.deep_view(),
            outputs: self.outputs.deep_view(),
        }
    }
}

/// How a job ended.
#[derive(Debug, Clone, Copy, PartialEq, Eq, Structural)]
pub enum JobStatus {
    Success,
    Failed,
}

impl JobStatus {
    /// The word that stands for this status in a report.
    pub open spec fn label_view(self) -> Seq<char> {
        match self {
            JobStatus::Success => "success"@,
            JobStatus::Failed => "failed"@,
        }
    }

    /// The word that stands for this status in a report: `success` or `failed`.
    pub fn label(&self) -> (word: String)
        ensures
            word@ == self.label_view(),
    {
        match self {
            JobStatus::Success => "success".to_owned(),
            JobStatus::Failed => "failed".to_owned(),
        }
    }
}

/// The content of one harvested output file, under the name it was declared with.
#[derive(Debug, Clone, PartialEq, Eq)]
pub struct JobArtifact {
    pub name: String,
    pub content: String,
}

pub struct JobArtifactView {
    pub name: Seq<char>,
    pub content: Seq<char>,
}

impl View for JobArtifact {
    type V = JobArtifactView;

    open spec fn view(&self) -> JobArtifactView {
        JobArtifactView { name: self.name@, content: self.content@ }
    }
}

impl DeepView for JobArtifact {
    type V = JobArtifactView;

    open spec fn deep_view(&self) -> JobArtifactView {
        self@
    }
}

/// What is reported for a finished job.
#[derive(Debug, Clone, PartialEq, Eq)]
pub struct JobResult {
    pub id: String,
    pub status: JobStatus,
    pub output: String,
    pub artifacts: Vec<JobArtifact>,
}

pub struct JobResultView {
    pub id: Seq<char>,
    pub status: JobStatus,
    pub output: Seq<char>,
    pub artifacts: Seq<JobArtifactView>,
}

impl View for JobResult {
    type V = JobResultView;

    open spec fn view(&self) -> JobResultView {
        JobResultView {
            id: self.id@,
            status: self.status,
            output: self.output@,
            artifacts: self.artifacts.deep_view(),
        }
    }
}

} // verus!
