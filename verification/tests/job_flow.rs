use ci_worker::host::{Action, Event, ProcessOutcome, ReadOutcome};
use ci_worker::job::{Job, JobArtifact, JobInput, JobOutput, JobResult, JobStatus};
use ci_worker::log::LogEntry;
use ci_worker::orchestrator::{Execution, Phase};
use ci_worker::paint::Marks;
use ci_worker::runs::replay;

fn job(commands: &[&str], outputs: &[(&str, &str)]) -> Job {
    Job {
        name: "nightly".to_string(),
        repository: "https://example.org/demo.git".to_string(),
        branch: "main".to_string(),
        commands: commands.iter().map(|c| c.to_string()).collect(),
        inputs: vec![JobInput { name: "level".to_string(), value: "3".to_string() }],
        outputs: outputs
            .iter()
            .map(|(name, path)| JobOutput { name: name.to_string(), path: path.to_string() })
            .collect(),
    }
}

fn exited(success: bool, stdout: &str, stderr: &str) -> Event {
    Event::Process(ProcessOutcome::exited(
        success,
        &stdout.as_bytes().to_vec(),
        &stderr.as_bytes().to_vec(),
    ))
}

fn not_started(reason: &str) -> Event {
    Event::Process(ProcessOutcome::NotStarted { reason: reason.to_string() })
}

fn text(content: &str) -> Event {
    Event::Read(ReadOutcome::Text { content: content.to_string() })
}

fn unreadable(reason: &str) -> Event {
    Event::Read(ReadOutcome::Unreadable { reason: reason.to_string() })
}

fn sh(command: &str, dir: &str) -> Action {
    Action::Spawn {
        program: "sh".to_string(),
        args: vec!["-c".to_string(), command.to_string()],
        cwd: Some(dir.to_string()),
    }
}

/// Feeds `events` to a new execution in the workspace `dir` and returns it
/// with every request it made, the first one included.
fn drive(job: Job, dir: &str, events: Vec<Event>) -> (Execution, Vec<Action>) {
    replay(job, dir.to_string(), events)
}

fn conclude(execution: Execution) -> JobResult {
    execution.conclude("id-1".to_string(), &Marks::plain()).expect("the execution is finished")
}

fn count(requests: &[Action], wanted: fn(&Action) -> bool) -> usize {
    requests.iter().filter(|a| wanted(a)).count()
}

fn is_create(action: &Action) -> bool {
    matches!(action, Action::CreateWorkspace { .. })
}

fn is_remove(action: &Action) -> bool {
    matches!(action, Action::RemoveWorkspace { .. })
}

#[test]
fn readme_is_collected_when_there_are_no_commands() {
    let (execution, requests) = drive(
        job(&[], &[("readme", "README.md")]),
        "work_a",
        vec![Event::WorkspaceCreated, exited(true, "", "Cloning into 'work_a'...\n"), text("hello"), Event::WorkspaceRemoved],
    );
    assert_eq!(
        requests,
        vec![
            Action::CreateWorkspace { dir: "work_a".to_string() },
            Action::Spawn {
                program: "git".to_string(),
                args: vec![
                    "clone".to_string(),
                    "-b".to_string(),
                    "main".to_string(),
                    "https://example.org/demo.git".to_string(),
                    "work_a".to_string(),
                ],
                cwd: None,
            },
            Action::ReadText { path: "work_a/README.md".to_string() },
            Action::RemoveWorkspace { dir: "work_a".to_string() },
            Action::Report { warning: None },
        ]
    );
    let report = conclude(execution);
    assert_eq!(report.status, JobStatus::Success);
    assert_eq!(
        report.artifacts,
        vec![JobArtifact { name: "readme".to_string(), content: "hello".to_string() }]
    );
    assert_eq!(report.output, "");
    assert_eq!(report.id, "id-1");
}

#[test]
fn invalid_repository_fails_with_a_diagnostic() {
    let mut bad = job(&["make"], &[("readme", "README.md")]);
    bad.repository = "not a url".to_string();
    let (execution, requests) = drive(
        bad,
        "work_b",
        vec![
            Event::WorkspaceCreated,
            exited(false, "", "fatal: repository 'not a url' does not exist\n"),
            Event::WorkspaceRemoved,
        ],
    );
    assert_eq!(requests.len(), 4);
    assert_eq!(requests[2], Action::RemoveWorkspace { dir: "work_b".to_string() });
    assert_eq!(requests[3], Action::Report { warning: None });
    let report = conclude(execution);
    assert_eq!(report.status, JobStatus::Failed);
    assert!(report.artifacts.is_empty());
    assert!(!report.output.is_empty());
    assert_eq!(
        report.output,
        "\u{274c} Failed to clone repository: fatal: repository 'not a url' does not exist\n"
    );
}

#[test]
fn clone_that_cannot_start_fails_the_job() {
    let (execution, requests) = drive(
        job(&["make"], &[]),
        "work_c",
        vec![Event::WorkspaceCreated, not_started("No such file or directory (os error 2)"), Event::WorkspaceRemoved],
    );
    assert_eq!(count(&requests, is_remove), 1);
    assert_eq!(
        execution.log(),
        &vec![LogEntry::FetchNotStarted {
            reason: "No such file or directory (os error 2)".to_string()
        }]
    );
    let report = conclude(execution);
    assert_eq!(report.status, JobStatus::Failed);
    assert!(report.artifacts.is_empty());
    assert_eq!(
        report.output,
        "\u{274c} Error cloning repository: No such file or directory (os error 2)"
    );
}

#[test]
fn one_workspace_is_created_and_removed_on_every_path() {
    let paths: Vec<Vec<Event>> = vec![
        // all goes well
        vec![Event::WorkspaceCreated, exited(true, "", ""), exited(true, "ok\n", ""), text("x"), Event::WorkspaceRemoved],
        // the clone fails
        vec![Event::WorkspaceCreated, exited(false, "", "denied"), Event::WorkspaceRemoved],
        // the command fails
        vec![Event::WorkspaceCreated, exited(true, "", ""), exited(false, "", "boom"), Event::WorkspaceRemoved],
        // the output cannot be read
        vec![Event::WorkspaceCreated, exited(true, "", ""), exited(true, "", ""), unreadable("gone"), Event::WorkspaceRemoved],
    ];
    for events in paths {
        let (execution, requests) = drive(job(&["make"], &[("bin", "out/bin")]), "work_d", events);
        assert_eq!(execution.phase(), Phase::Finished);
        assert_eq!(requests[0], Action::CreateWorkspace { dir: "work_d".to_string() });
        assert_eq!(count(&requests, is_create), 1);
        assert_eq!(count(&requests, is_remove), 1);
        assert_eq!(requests[requests.len() - 2], Action::RemoveWorkspace { dir: "work_d".to_string() });
        assert_eq!(requests[requests.len() - 1], Action::Report { warning: None });
    }
}

#[test]
fn second_command_failing_keeps_the_third_from_running() {
    let (execution, requests) = drive(
        job(&["echo a", "false", "echo c"], &[("bin", "out/bin")]),
        "work_e",
        vec![
            Event::WorkspaceCreated,
            exited(true, "", ""),
            exited(true, "a\n", ""),
            exited(false, "", "b failed\n"),
            Event::WorkspaceRemoved,
        ],
    );
    assert_eq!(requests[2], sh("echo a", "work_e"));
    assert_eq!(requests[3], sh("false", "work_e"));
    assert_eq!(requests[4], Action::RemoveWorkspace { dir: "work_e".to_string() });
    assert_eq!(requests[5], Action::Report { warning: None });
    assert!(!requests.contains(&sh("echo c", "work_e")));
    assert!(!requests.iter().any(|a| matches!(a, Action::ReadText { .. })));
    let report = conclude(execution);
    assert_eq!(report.status, JobStatus::Failed);
    assert!(report.artifacts.is_empty());
    assert_eq!(
        report.output,
        "\u{1f5a5}\u{fe0f} Command: echo a\na\n\u{1f5a5}\u{fe0f} Command: false\nb failed\n"
    );
    assert!(!report.output.contains("echo c"));
}

#[test]
fn command_that_cannot_start_stops_the_run() {
    let (execution, requests) = drive(
        job(&["first", "second"], &[]),
        "work_f",
        vec![
            Event::WorkspaceCreated,
            exited(true, "", ""),
            not_started("Permission denied (os error 13)"),
            Event::WorkspaceRemoved,
        ],
    );
    assert_eq!(requests[3], Action::RemoveWorkspace { dir: "work_f".to_string() });
    assert!(!requests.contains(&sh("second", "work_f")));
    let report = conclude(execution);
    assert_eq!(report.status, JobStatus::Failed);
    assert_eq!(report.output, "\u{274c} Error executing command: Permission denied (os error 13)\n");
}

#[test]
fn missing_output_is_left_out_and_told_of() {
    let (execution, requests) = drive(
        job(&["make"], &[("bin", "out/bin"), ("log", "out/log.txt"), ("doc", "out/doc.txt")]),
        "work_g",
        vec![
            Event::WorkspaceCreated,
            exited(true, "", ""),
            exited(true, "made\n", "warning\n"),
            text("binary"),
            unreadable("No such file or directory (os error 2)"),
            text("words"),
            Event::WorkspaceRemoved,
        ],
    );
    assert_eq!(requests[3], Action::ReadText { path: "work_g/out/bin".to_string() });
    assert_eq!(requests[4], Action::ReadText { path: "work_g/out/log.txt".to_string() });
    assert_eq!(requests[5], Action::ReadText { path: "work_g/out/doc.txt".to_string() });
    let report = conclude(execution);
    assert_eq!(report.status, JobStatus::Success);
    assert_eq!(
        report.artifacts,
        vec![
            JobArtifact { name: "bin".to_string(), content: "binary".to_string() },
            JobArtifact { name: "doc".to_string(), content: "words".to_string() },
        ]
    );
    assert_eq!(
        report.output,
        "\u{1f5a5}\u{fe0f} Command: make\nmade\nwarning\n\u{274c} Error reading output log: No such file or directory (os error 2)\n"
    );
}

#[test]
fn same_failing_job_reports_alike_twice() {
    let events = || {
        vec![
            Event::WorkspaceCreated,
            exited(true, "", ""),
            exited(true, "a\n", ""),
            exited(false, "", "nope\n"),
            Event::WorkspaceRemoved,
        ]
    };
    let (one, _) = drive(job(&["echo a", "false"], &[("bin", "out/bin")]), "work_one", events());
    let (other, _) = drive(job(&["echo a", "false"], &[("bin", "out/bin")]), "work_other", events());
    let first = one.conclude("id-1".to_string(), &Marks::plain()).unwrap();
    let second = other.conclude("id-2".to_string(), &Marks::plain()).unwrap();
    assert_eq!(first.status, JobStatus::Failed);
    assert_eq!(first.status, second.status);
    assert_eq!(first.output, second.output);
    assert_eq!(first.artifacts, second.artifacts);
    assert_ne!(first.id, second.id);
}

#[test]
fn no_commands_and_no_outputs_succeed_with_an_empty_log() {
    let (execution, requests) = drive(
        job(&[], &[]),
        "work_h",
        vec![Event::WorkspaceCreated, exited(true, "ignored", "ignored"), Event::WorkspaceRemoved],
    );
    assert_eq!(requests[2], Action::RemoveWorkspace { dir: "work_h".to_string() });
    assert!(execution.log().is_empty());
    let report = conclude(execution);
    assert_eq!(report.status, JobStatus::Success);
    assert_eq!(report.output, "");
    assert!(report.artifacts.is_empty());
}

#[test]
fn successful_command_shows_both_streams_output_first() {
    let (execution, _) = drive(
        job(&["build"], &[]),
        "work_i",
        vec![Event::WorkspaceCreated, exited(true, "", ""), exited(true, "out", "err"), Event::WorkspaceRemoved],
    );
    assert_eq!(
        execution.log(),
        &vec![LogEntry::CommandRan {
            command: "build".to_string(),
            stdout: "out".to_string(),
            stderr: "err".to_string(),
        }]
    );
    assert_eq!(conclude(execution).output, "\u{1f5a5}\u{fe0f} Command: build\nouterr");
}

#[test]
fn workspace_that_cannot_be_created_fails_the_job() {
    let (execution, first) =
        Execution::begin(job(&["make"], &[("bin", "out/bin")]), "work_j".to_string());
    assert_eq!(first, Action::CreateWorkspace { dir: "work_j".to_string() });
    assert_eq!(execution.phase(), Phase::Preparing);
    let (execution, action) =
        execution.step(Event::WorkspaceNotCreated { reason: "File exists (os error 17)".to_string() });
    assert_eq!(action, Action::Report { warning: None });
    assert_eq!(execution.phase(), Phase::Finished);
    assert_eq!(execution.status(), JobStatus::Failed);
    assert!(execution.is_over());
    assert_eq!(
        execution.log(),
        &vec![LogEntry::WorkspaceNotCreated { reason: "File exists (os error 17)".to_string() }]
    );
    let (execution, action) = execution.step(Event::WorkspaceCreated);
    assert_eq!(action, Action::Rejected);
    let report = conclude(execution);
    assert_eq!(report.status, JobStatus::Failed);
    assert!(report.artifacts.is_empty());
    assert_eq!(
        report.output,
        "\u{274c} Failed to create work directory: File exists (os error 17)"
    );
}

#[test]
fn workspace_that_cannot_be_created_is_asked_for_nothing_more() {
    let (execution, requests) = drive(
        job(&["make"], &[("bin", "out/bin")]),
        "work_q",
        vec![
            Event::WorkspaceNotCreated { reason: "Permission denied (os error 13)".to_string() },
            exited(true, "", ""),
            text("late"),
            Event::WorkspaceRemoved,
        ],
    );
    assert_eq!(
        requests,
        vec![
            Action::CreateWorkspace { dir: "work_q".to_string() },
            Action::Report { warning: None },
            Action::Rejected,
            Action::Rejected,
            Action::Rejected,
        ]
    );
    assert_eq!(count(&requests, is_remove), 0);
    assert_eq!(execution.phase(), Phase::Finished);
    assert_eq!(execution.status(), JobStatus::Failed);
}

#[test]
fn workspace_that_cannot_be_removed_leaves_the_result_as_it_is() {
    let events = |last: Event| {
        vec![
            Event::WorkspaceCreated,
            exited(true, "", ""),
            exited(true, "made\n", ""),
            text("binary"),
            last,
        ]
    };
    let (left, left_requests) = drive(
        job(&["make"], &[("bin", "out/bin")]),
        "work_k",
        events(Event::WorkspaceNotRemoved { reason: "Directory not empty (os error 39)".to_string() }),
    );
    let (gone, gone_requests) =
        drive(job(&["make"], &[("bin", "out/bin")]), "work_k", events(Event::WorkspaceRemoved));
    assert_eq!(left_requests[4], Action::RemoveWorkspace { dir: "work_k".to_string() });
    assert_eq!(
        left_requests[5],
        Action::Report { warning: Some("Directory not empty (os error 39)".to_string()) }
    );
    assert_eq!(gone_requests[5], Action::Report { warning: None });
    assert_eq!(left.phase(), Phase::Finished);
    assert_eq!(left.status(), JobStatus::Success);
    let kept = conclude(left);
    assert_eq!(kept.status, JobStatus::Success);
    assert_eq!(
        kept.artifacts,
        vec![JobArtifact { name: "bin".to_string(), content: "binary".to_string() }]
    );
    assert_eq!(kept.output, "\u{1f5a5}\u{fe0f} Command: make\nmade\n");
    assert_eq!(kept, conclude(gone));
}

#[test]
fn workspace_that_cannot_be_removed_does_not_mend_a_failed_job() {
    let (execution, requests) = drive(
        job(&["false"], &[]),
        "work_r",
        vec![
            Event::WorkspaceCreated,
            exited(true, "", ""),
            exited(false, "", "no\n"),
            Event::WorkspaceNotRemoved { reason: "busy".to_string() },
        ],
    );
    assert_eq!(requests[4], Action::Report { warning: Some("busy".to_string()) });
    assert_eq!(count(&requests, is_remove), 1);
    let report = conclude(execution);
    assert_eq!(report.status, JobStatus::Failed);
    assert_eq!(report.output, "\u{1f5a5}\u{fe0f} Command: false\nno\n");
}

#[test]
fn answer_that_fits_no_request_is_rejected() {
    let (execution, _) = Execution::begin(job(&["make"], &[("bin", "out/bin")]), "work_l".to_string());
    let (execution, action) = execution.step(text("early"));
    assert_eq!(action, Action::Rejected);
    assert_eq!(execution.phase(), Phase::Preparing);
    let (execution, _) = execution.step(Event::WorkspaceCreated);
    assert_eq!(execution.phase(), Phase::Fetching);
    let (execution, action) = execution.step(Event::WorkspaceRemoved);
    assert_eq!(action, Action::Rejected);
    assert_eq!(execution.phase(), Phase::Fetching);
    let (execution, _) = execution.step(exited(true, "", ""));
    assert_eq!(execution.phase(), Phase::Running { index: 0 });
    let (execution, action) = execution.step(text("early"));
    assert_eq!(action, Action::Rejected);
    let (execution, _) = execution.step(exited(true, "", ""));
    assert_eq!(execution.phase(), Phase::Collecting { index: 0 });
    let (execution, action) = execution.step(exited(true, "", ""));
    assert_eq!(action, Action::Rejected);
    assert!(execution.log().len() == 1);
    assert!(execution.artifacts().is_empty());
    assert!(!execution.is_over());
    assert!(execution.conclude("id".to_string(), &Marks::plain()).is_none());
}

#[test]
fn finished_execution_takes_no_more_events() {
    let (execution, _) = drive(
        job(&[], &[]),
        "work_m",
        vec![Event::WorkspaceCreated, exited(true, "", ""), Event::WorkspaceRemoved],
    );
    assert_eq!(execution.phase(), Phase::Finished);
    assert!(execution.is_over());
    let (execution, action) = execution.step(Event::WorkspaceRemoved);
    assert_eq!(action, Action::Rejected);
    let (execution, action) = execution.step(exited(true, "", ""));
    assert_eq!(action, Action::Rejected);
    assert_eq!(execution.phase(), Phase::Finished);
    assert_eq!(execution.work_dir(), "work_m");
    assert_eq!(execution.job().name, "nightly");
    assert_eq!(execution.job().inputs.len(), 1);
}

#[test]
fn artifacts_are_not_collected_after_a_failed_command() {
    let (execution, requests) = drive(
        job(&["false"], &[("bin", "out/bin")]),
        "work_n",
        vec![Event::WorkspaceCreated, exited(true, "", ""), exited(false, "", ""), text("late"), Event::WorkspaceRemoved],
    );
    // The read was never asked for, so its answer is rejected.
    assert_eq!(requests[3], Action::RemoveWorkspace { dir: "work_n".to_string() });
    assert_eq!(requests[4], Action::Rejected);
    assert_eq!(requests[5], Action::Report { warning: None });
    let report = conclude(execution);
    assert_eq!(report.status, JobStatus::Failed);
    assert!(report.artifacts.is_empty());
}

#[test]
fn replay_of_nothing_only_asks_for_the_workspace() {
    let (execution, requests) = replay(job(&["make"], &[]), "work_o".to_string(), vec![]);
    assert_eq!(requests, vec![Action::CreateWorkspace { dir: "work_o".to_string() }]);
    assert_eq!(execution.phase(), Phase::Preparing);
    assert_eq!(execution.status(), JobStatus::Success);
}

#[test]
fn replay_agrees_with_stepping_by_hand() {
    let events = vec![Event::WorkspaceCreated, exited(true, "", ""), exited(false, "x", "y")];
    let (replayed, requests) = replay(job(&["make"], &[]), "work_p".to_string(), events.clone());
    let (mut execution, first) = Execution::begin(job(&["make"], &[]), "work_p".to_string());
    let mut by_hand = vec![first];
    for event in events {
        let (next, action) = execution.step(event);
        execution = next;
        by_hand.push(action);
    }
    assert_eq!(requests, by_hand);
    assert_eq!(replayed.phase(), execution.phase());
    assert_eq!(replayed.status(), execution.status());
    assert_eq!(replayed.log(), execution.log());
    assert_eq!(replayed.artifacts(), execution.artifacts());
}
