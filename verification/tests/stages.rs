use ci_worker::collector::{artifact_path, collect_one, output_request};
use ci_worker::fetcher::{fetch_request, fetch_result, FetchError};
use ci_worker::host::{Action, ProcessOutcome, ReadOutcome};
use ci_worker::job::{JobArtifact, JobStatus};
use ci_worker::log::{render_entry, render_log, render_removal_warning, LogEntry};
use ci_worker::paint::Marks;
use ci_worker::runner::{command_request, record_command};
use ci_worker::workspace::workspace_name;

fn marks() -> Marks {
    Marks { failure: "[E]".to_string(), command: "[C]".to_string() }
}

#[test]
fn workspace_name_is_prefix_and_token() {
    assert_eq!(workspace_name("0a1b"), "work_0a1b");
    assert_eq!(workspace_name(""), "work_");
}

#[test]
fn clone_is_asked_for_branch_then_repository_then_directory() {
    assert_eq!(
        fetch_request("git@host:team/app.git", "release/1.2", "work_x"),
        Action::Spawn {
            program: "git".to_string(),
            args: vec![
                "clone".to_string(),
                "-b".to_string(),
                "release/1.2".to_string(),
                "git@host:team/app.git".to_string(),
                "work_x".to_string(),
            ],
            cwd: None,
        }
    );
}

#[test]
fn clone_succeeds_only_on_exit_status_zero() {
    let ok = ProcessOutcome::Exited { success: true, stdout: "".to_string(), stderr: "noise".to_string() };
    assert!(ok.succeeded());
    assert_eq!(fetch_result(ok), Ok(()));
    let bad = ProcessOutcome::Exited { success: false, stdout: "out".to_string(), stderr: "denied".to_string() };
    assert!(!bad.succeeded());
    assert_eq!(fetch_result(bad), Err(FetchError::ToolFailed { diagnostic: "denied".to_string() }));
    let none = ProcessOutcome::NotStarted { reason: "no git".to_string() };
    assert!(!none.succeeded());
    assert_eq!(fetch_result(none), Err(FetchError::NotStarted { reason: "no git".to_string() }));
}

#[test]
fn fetch_errors_become_log_entries() {
    assert_eq!(
        FetchError::ToolFailed { diagnostic: "denied".to_string() }.into_entry(),
        LogEntry::FetchFailed { diagnostic: "denied".to_string() }
    );
    assert_eq!(
        FetchError::NotStarted { reason: "no git".to_string() }.into_entry(),
        LogEntry::FetchNotStarted { reason: "no git".to_string() }
    );
}

#[test]
fn command_is_handed_to_the_shell_as_it_stands() {
    assert_eq!(
        command_request("cargo build && ls -la 'a b'", "work_y"),
        Action::Spawn {
            program: "sh".to_string(),
            args: vec!["-c".to_string(), "cargo build && ls -la 'a b'".to_string()],
            cwd: Some("work_y".to_string()),
        }
    );
}

#[test]
fn command_outcome_is_recorded_with_its_streams() {
    let ran = ProcessOutcome::Exited { success: false, stdout: "o".to_string(), stderr: "e".to_string() };
    assert_eq!(
        record_command("make", ran),
        (
            LogEntry::CommandRan {
                command: "make".to_string(),
                stdout: "o".to_string(),
                stderr: "e".to_string()
            },
            false
        )
    );
    let fine = ProcessOutcome::Exited { success: true, stdout: "".to_string(), stderr: "".to_string() };
    assert!(record_command("make", fine).1);
    let none = ProcessOutcome::NotStarted { reason: "no sh".to_string() };
    assert_eq!(
        record_command("make", none),
        (LogEntry::CommandNotStarted { reason: "no sh".to_string() }, false)
    );
}

#[test]
fn output_path_is_workspace_slash_declared_path() {
    assert_eq!(artifact_path("work_z", "README.md"), "work_z/README.md");
    assert_eq!(artifact_path("work_z", "target/out.txt"), "work_z/target/out.txt");
    assert_eq!(artifact_path("work_z", "../secret"), "work_z/../secret");
    assert_eq!(
        output_request("work_z", "README.md"),
        Action::ReadText { path: "work_z/README.md".to_string() }
    );
}

#[test]
fn read_outcome_becomes_artifact_or_log_entry() {
    assert_eq!(
        collect_one("readme", ReadOutcome::Text { content: "hello".to_string() }),
        Ok(JobArtifact { name: "readme".to_string(), content: "hello".to_string() })
    );
    assert_eq!(
        collect_one("readme", ReadOutcome::Unreadable { reason: "gone".to_string() }),
        Err(LogEntry::OutputUnreadable { name: "readme".to_string(), reason: "gone".to_string() })
    );
}

#[test]
fn every_kind_of_entry_has_its_line() {
    let m = marks();
    assert_eq!(
        render_entry(&LogEntry::WorkspaceNotCreated { reason: "File exists".to_string() }, &m),
        "[E] Failed to create work directory: File exists"
    );
    assert_eq!(
        render_entry(&LogEntry::FetchFailed { diagnostic: "denied\n".to_string() }, &m),
        "[E] Failed to clone repository: denied\n"
    );
    assert_eq!(
        render_entry(&LogEntry::FetchNotStarted { reason: "no git".to_string() }, &m),
        "[E] Error cloning repository: no git"
    );
    assert_eq!(
        render_entry(
            &LogEntry::CommandRan {
                command: "ls".to_string(),
                stdout: "a\nb\n".to_string(),
                stderr: "warn\n".to_string()
            },
            &m
        ),
        "[C] Command: ls\na\nb\nwarn\n"
    );
    assert_eq!(
        render_entry(&LogEntry::CommandNotStarted { reason: "no sh".to_string() }, &m),
        "[E] Error executing command: no sh\n"
    );
    assert_eq!(
        render_entry(
            &LogEntry::OutputUnreadable { name: "bin".to_string(), reason: "gone".to_string() },
            &m
        ),
        "[E] Error reading output bin: gone\n"
    );
}

#[test]
fn log_text_is_the_entries_in_a_row() {
    let m = marks();
    assert_eq!(render_log(&vec![], &m), "");
    let entries = vec![
        LogEntry::CommandRan { command: "a".to_string(), stdout: "1".to_string(), stderr: "".to_string() },
        LogEntry::CommandRan { command: "b".to_string(), stdout: "".to_string(), stderr: "2".to_string() },
        LogEntry::OutputUnreadable { name: "bin".to_string(), reason: "gone".to_string() },
    ];
    assert_eq!(
        render_log(&entries, &m),
        "[C] Command: a\n1[C] Command: b\n2[E] Error reading output bin: gone\n"
    );
}

#[test]
fn status_has_its_word() {
    assert_eq!(JobStatus::Success.label(), "success");
    assert_eq!(JobStatus::Failed.label(), "failed");
}

#[test]
fn workspace_left_behind_has_its_warning() {
    assert_eq!(
        render_removal_warning("busy", &marks()),
        "[E] Failed to remove work directory: busy"
    );
    assert_eq!(
        render_removal_warning("Directory not empty (os error 39)", &Marks::plain()),
        "\u{274c} Failed to remove work directory: Directory not empty (os error 39)"
    );
}

#[test]
fn plain_marks_are_the_bare_signs() {
    let plain = Marks::plain();
    assert_eq!(plain.failure, "\u{274c}");
    assert_eq!(plain.command, "\u{1f5a5}\u{fe0f}");
}
