use control_panel::audit::{completion_entries, exit_code, run_result, EntryKind};
use control_panel::root::FsPath;
use control_panel::runner::{Action, Event, Run};

const STAMP: &str = "2024-05-01 10:20:30";

fn path(parts: &[&str]) -> FsPath {
    FsPath { parts: parts.iter().map(|p| p.to_string()).collect() }
}

fn parts_of(p: &FsPath) -> Vec<&str> {
    p.parts.iter().map(|s| s.as_str()).collect()
}

fn appended(a: Action) -> String {
    match a {
        Action::Append { text } => text,
        other => panic!("expected an append, got {:?}", other),
    }
}

/// Drives a run up to the spawn of its command, checking each action.
fn run_to_spawn(command: &str) -> (Run, Vec<String>) {
    let (mut run, first) = Run::with_stamp(path(&["home", "proj"]), command.to_string(), STAMP.to_string());
    match first {
        Action::CreateDir { path } => assert_eq!(parts_of(&path), vec!["home", "proj", "logs"]),
        other => panic!("expected the logs directory first, got {:?}", other),
    }
    let mut log = Vec::new();
    match run.step(Event::Done) {
        Action::OpenLog { .. } => {}
        other => panic!("expected the log to be opened, got {:?}", other),
    }
    log.push(appended(run.step(Event::Done)));
    log.push(appended(run.step(Event::Done)));
    match run.step(Event::Done) {
        Action::Spawn { command: c, dir } => {
            assert_eq!(c, command);
            assert_eq!(parts_of(&dir), vec!["home", "proj"]);
        }
        other => panic!("expected the spawn, got {:?}", other),
    }
    (run, log)
}

#[test]
fn echo_hello_succeeds_and_is_logged() {
    let (mut run, mut log) = run_to_spawn("echo hello");
    log.push(appended(run.step(Event::Exited {
        stdout: "hello\n".to_string(),
        stderr: String::new(),
        code: Some(0),
    })));
    log.push(appended(run.step(Event::Done)));
    match run.step(Event::Done) {
        Action::Finish { result } => assert_eq!(result, Ok("hello\n".to_string())),
        other => panic!("expected the end of the run, got {:?}", other),
    }
    assert!(run.is_finished());
    assert_eq!(log.len(), 4);
    assert_eq!(log[0], "\n[2024-05-01 10:20:30] ═══════════════════════════════════════\n");
    assert_eq!(log[1], "[2024-05-01 10:20:30] 🚀 EXECUTING: echo hello\n");
    assert_eq!(log[2], "[2024-05-01 10:20:30] STDOUT:\nhello\n\n");
    assert!(log[2].contains("hello"));
    assert_eq!(log[3], "[2024-05-01 10:20:30] ✅ SUCCESS - Exit code: 0\n");
}

#[test]
fn echo_hello_goes_to_the_generic_log() {
    let (mut run, _) = Run::with_stamp(path(&["p"]), "echo hello".to_string(), STAMP.to_string());
    match run.step(Event::Done) {
        Action::OpenLog { path } => assert_eq!(parts_of(&path), vec!["p", "logs", "gui_commands.log"]),
        other => panic!("expected the log to be opened, got {:?}", other),
    }
}

#[test]
fn start_script_goes_to_the_start_log() {
    let (mut run, _) = Run::with_stamp(path(&["p"]), "bash scripts/start.sh".to_string(), STAMP.to_string());
    match run.step(Event::Done) {
        Action::OpenLog { path } => assert_eq!(parts_of(&path), vec!["p", "logs", "gui_start.log"]),
        other => panic!("expected the log to be opened, got {:?}", other),
    }
}

#[test]
fn exit_one_fails_and_is_logged() {
    let (mut run, _) = run_to_spawn("exit 1");
    let line = appended(run.step(Event::Exited { stdout: String::new(), stderr: String::new(), code: Some(1) }));
    assert_eq!(line, "[2024-05-01 10:20:30] ❌ FAILED - Exit code: 1\n");
    match run.step(Event::Done) {
        Action::Finish { result } => {
            let e = result.unwrap_err();
            assert!(e.contains("exit code 1"));
            assert_eq!(e, "Command gagal (exit code 1):\n");
        }
        other => panic!("expected the end of the run, got {:?}", other),
    }
}

#[test]
fn exit_seven_reports_code_and_stderr() {
    let (mut run, _) = run_to_spawn("echo oops >&2; exit 7");
    let block = appended(run.step(Event::Exited {
        stdout: String::new(),
        stderr: "oops\n".to_string(),
        code: Some(7),
    }));
    assert_eq!(block, "[2024-05-01 10:20:30] STDERR:\noops\n\n");
    let line = appended(run.step(Event::Done));
    assert_eq!(line, "[2024-05-01 10:20:30] ❌ FAILED - Exit code: 7\n");
    match run.step(Event::Done) {
        Action::Finish { result } => {
            let e = result.unwrap_err();
            assert!(e.contains('7'));
            assert!(e.contains("oops\n"));
        }
        other => panic!("expected the end of the run, got {:?}", other),
    }
}

#[test]
fn killed_process_records_minus_one() {
    assert_eq!(exit_code(None), -1);
    assert_eq!(exit_code(Some(3)), 3);
    let r = run_result("", "killed", None);
    assert_eq!(r, Err("Command gagal (exit code -1):\nkilled".to_string()));
    let es = completion_entries(STAMP, "", "", None);
    assert_eq!(es.len(), 1);
    assert_eq!(es[0].text, "[2024-05-01 10:20:30] ❌ FAILED - Exit code: -1\n");
}

#[test]
fn quiet_success_has_one_stdout_block_and_no_stderr_block() {
    let es = completion_entries(STAMP, "done\n", "", Some(0));
    let kinds: Vec<EntryKind> = es.iter().map(|e| e.kind).collect();
    assert_eq!(kinds, vec![EntryKind::Stdout, EntryKind::Success]);
    assert_eq!(es[1].text, "[2024-05-01 10:20:30] ✅ SUCCESS - Exit code: 0\n");
}

#[test]
fn silent_success_has_only_the_outcome_line() {
    let es = completion_entries(STAMP, "", "", Some(0));
    assert_eq!(es.len(), 1);
    assert_eq!(es[0].kind, EntryKind::Success);
    assert_eq!(run_result("", "", Some(0)), Ok(String::new()));
}

#[test]
fn both_streams_are_logged_in_order() {
    let es = completion_entries(STAMP, "a", "b", Some(2));
    let kinds: Vec<EntryKind> = es.iter().map(|e| e.kind).collect();
    assert_eq!(kinds, vec![EntryKind::Stdout, EntryKind::Stderr, EntryKind::Failure]);
}

#[test]
fn logs_dir_failure_ends_the_run() {
    let (mut run, _) = Run::with_stamp(path(&["p"]), "ls".to_string(), STAMP.to_string());
    match run.step(Event::Failed { reason: "denied".to_string() }) {
        Action::Finish { result } => {
            assert_eq!(result, Err("Failed to create logs directory: denied".to_string()))
        }
        other => panic!("expected the end of the run, got {:?}", other),
    }
    assert!(run.is_finished());
    assert!(!run.accepts(&Event::Done));
}

#[test]
fn log_open_failure_ends_the_run() {
    let (mut run, _) = Run::with_stamp(path(&["p"]), "ls".to_string(), STAMP.to_string());
    run.step(Event::Done);
    match run.step(Event::Failed { reason: "busy".to_string() }) {
        Action::Finish { result } => assert_eq!(result, Err("Failed to open log file: busy".to_string())),
        other => panic!("expected the end of the run, got {:?}", other),
    }
}

#[test]
fn header_write_failure_ends_the_run() {
    let (mut run, _) = Run::with_stamp(path(&["p"]), "ls".to_string(), STAMP.to_string());
    run.step(Event::Done);
    run.step(Event::Done);
    match run.step(Event::Failed { reason: "full".to_string() }) {
        Action::Finish { result } => assert_eq!(result, Err("Failed to write to log: full".to_string())),
        other => panic!("expected the end of the run, got {:?}", other),
    }
}

#[test]
fn spawn_failure_ends_the_run() {
    let (mut run, _) = run_to_spawn("ls");
    assert!(!run.accepts(&Event::Done));
    match run.step(Event::Failed { reason: "no shell".to_string() }) {
        Action::Finish { result } => assert_eq!(result, Err("Gagal menjalankan command: no shell".to_string())),
        other => panic!("expected the end of the run, got {:?}", other),
    }
}

#[test]
fn output_write_failure_names_the_block() {
    let (mut run, _) = run_to_spawn("ls");
    run.step(Event::Exited { stdout: "x".to_string(), stderr: "y".to_string(), code: Some(0) });
    run.step(Event::Done);
    match run.step(Event::Failed { reason: "full".to_string() }) {
        Action::Finish { result } => assert_eq!(result, Err("Failed to write stderr to log: full".to_string())),
        other => panic!("expected the end of the run, got {:?}", other),
    }
}

#[test]
fn start_stamps_with_the_clock() {
    let (run, first) = Run::start(path(&["p"]), "ls".to_string());
    assert!(!run.is_finished());
    match first {
        Action::CreateDir { path } => assert_eq!(parts_of(&path), vec!["p", "logs"]),
        other => panic!("expected the logs directory first, got {:?}", other),
    }
}
