use ci_worker::host::{Event, ProcessOutcome};
use ci_worker::job::{Job, JobStatus};
use ci_worker::orchestrator::Execution;
use ci_worker::workspace::fresh_workspace_name;

fn is_lower_hex(c: char) -> bool {
    c.is_ascii_digit() || ('a'..='f').contains(&c)
}

fn has_uuid_shape(text: &str) -> bool {
    text.chars().count() == 36
        && text.chars().enumerate().all(|(i, c)| {
            if i == 8 || i == 13 || i == 18 || i == 23 {
                c == '-'
            } else {
                is_lower_hex(c)
            }
        })
}

fn empty_job() -> Job {
    Job {
        name: "empty".to_string(),
        repository: "repo".to_string(),
        branch: "main".to_string(),
        commands: vec![],
        inputs: vec![],
        outputs: vec![],
    }
}

#[test]
fn fresh_workspace_names_have_the_shape_and_differ() {
    let one = fresh_workspace_name();
    let other = fresh_workspace_name();
    assert!(one.starts_with("work_"));
    assert_eq!(one.len(), 41);
    assert!(has_uuid_shape(&one[5..]));
    assert!(!one.contains('/'));
    assert!(uuid::Uuid::parse_str(&one[5..]).is_ok());
    assert_eq!(uuid::Uuid::parse_str(&one[5..]).unwrap().get_version_num(), 4);
    assert_ne!(one, other);
}

#[test]
fn started_execution_asks_for_its_own_workspace() {
    let (execution, first) = Execution::start(empty_job());
    let dir = execution.work_dir().to_string();
    assert!(dir.starts_with("work_"));
    assert!(has_uuid_shape(&dir[5..]));
    assert_eq!(first, ci_worker::host::Action::CreateWorkspace { dir });
}

#[test]
fn report_gets_a_fresh_identifier() {
    let run = || {
        let (execution, _) = Execution::start(empty_job());
        let (execution, _) = execution.step(Event::WorkspaceCreated);
        let (execution, _) =
            execution.step(Event::Process(ProcessOutcome::exited(true, &vec![], &vec![])));
        let (execution, _) = execution.step(Event::WorkspaceRemoved);
        execution.report().expect("the execution is finished")
    };
    let first = run();
    let second = run();
    assert!(has_uuid_shape(&first.id));
    assert!(has_uuid_shape(&second.id));
    assert_ne!(first.id, second.id);
    assert_eq!(first.status, JobStatus::Success);
    assert_eq!(first.output, "");
    assert!(first.artifacts.is_empty());
}

#[test]
fn report_is_withheld_until_the_workspace_is_gone() {
    let (execution, _) = Execution::start(empty_job());
    assert!(execution.report().is_none());
    let (execution, _) = Execution::start(empty_job());
    let (execution, _) = execution.step(Event::WorkspaceCreated);
    let (execution, _) =
        execution.step(Event::Process(ProcessOutcome::exited(true, &vec![], &vec![])));
    assert!(execution.report().is_none());
}

#[test]
fn bytes_that_are_not_text_are_replaced() {
    let outcome = ProcessOutcome::exited(false, &vec![0x68, 0x69, 0xff, 0x21], &vec![0xc3, 0xa9, 0x80]);
    assert_eq!(
        outcome,
        ProcessOutcome::Exited {
            success: false,
            stdout: "hi\u{fffd}!".to_string(),
            stderr: "\u{e9}\u{fffd}".to_string(),
        }
    );
    let clean = ProcessOutcome::exited(true, &"gr\u{fc}n\n".as_bytes().to_vec(), &vec![]);
    assert_eq!(
        clean,
        ProcessOutcome::Exited { success: true, stdout: "gr\u{fc}n\n".to_string(), stderr: "".to_string() }
    );
}
