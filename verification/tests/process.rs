use gyros::process::{logged_run, run_git_command, Invocation, Log, ProcessOutcome};
use gyros::registry::Repo;
use gyros::report::{Channel, Emission, Style};

#[test]
fn log_new_is_empty_and_successful() {
    let log = Log::new("/repos/a");
    assert_eq!(log.label, "/repos/a");
    assert_eq!(log.stdout, "");
    assert_eq!(log.stderr, "");
    assert!(log.success);
    assert_eq!(log.spawn_error, None);
}

#[test]
fn log_captured_keeps_what_it_is_given() {
    let log = Log::captured("/repos/a", false, "out".to_string(), "err".to_string());
    assert_eq!(
        log,
        Log {
            stdout: "out".to_string(),
            stderr: "err".to_string(),
            success: false,
            label: "/repos/a".to_string(),
            spawn_error: None,
        }
    );
    assert_eq!(log.clone(), log);
}

#[test]
fn log_spawn_failed_has_no_output() {
    let log = Log::spawn_failed("/repos/a", "permission denied".to_string());
    assert_eq!(log.stdout, "");
    assert_eq!(log.stderr, "");
    assert!(!log.success);
    assert_eq!(log.spawn_error, Some("permission denied".to_string()));
    assert_eq!(log.label, "/repos/a");
}

#[test]
fn logged_run_relays_the_streams_of_a_successful_process() {
    let outcome = ProcessOutcome::Exited {
        success: true,
        stdout: b"Already up to date.\n".to_vec(),
        stderr: b"From origin\n".to_vec(),
    };
    let log = logged_run(outcome, "/repos/a");
    assert_eq!(log.stdout, "Already up to date.\n");
    assert_eq!(log.stderr, "From origin\n");
    assert!(log.success);
    assert_eq!(log.label, "/repos/a");
    assert_eq!(log.spawn_error, None);
}

#[test]
fn logged_run_keeps_a_non_zero_exit_as_an_outcome() {
    let outcome = ProcessOutcome::Exited {
        success: false,
        stdout: Vec::new(),
        stderr: b"fatal: not a git repository\n".to_vec(),
    };
    let log = logged_run(outcome, "/repos/b");
    assert!(!log.success);
    assert_eq!(log.stderr, "fatal: not a git repository\n");
    assert_eq!(log.spawn_error, None);
}

#[test]
fn logged_run_records_a_spawn_failure() {
    let outcome =
        ProcessOutcome::SpawnFailed { message: "No such file or directory".to_string() };
    let log = logged_run(outcome, "/missing");
    assert!(!log.success);
    assert_eq!(log.stdout, "");
    assert_eq!(log.stderr, "");
    assert_eq!(log.spawn_error, Some("No such file or directory".to_string()));
    assert_eq!(log.label, "/missing");
}

#[test]
fn logged_run_decodes_valid_text_as_it_stands() {
    let outcome = ProcessOutcome::Exited {
        success: true,
        stdout: "grüße → 日本語\n".as_bytes().to_vec(),
        stderr: Vec::new(),
    };
    let log = logged_run(outcome, "/repos/a");
    assert_eq!(log.stdout, "grüße → 日本語\n");
    assert_eq!(log.stderr, "");
}

#[test]
fn logged_run_replaces_bytes_that_are_no_text() {
    let outcome = ProcessOutcome::Exited {
        success: true,
        stdout: vec![b'a', 0xff, b'b'],
        stderr: vec![0xc3],
    };
    let log = logged_run(outcome, "/repos/a");
    assert_eq!(log.stdout, "a\u{fffd}b");
    assert_eq!(log.stderr, "\u{fffd}");
}

#[test]
fn run_git_command_plans_git_in_the_directory_of_the_repo() {
    let repo = Repo::new("svc-a", "/repos/a");
    let args = vec!["log".to_string(), "--oneline".to_string(), "-3".to_string()];
    let invocation = run_git_command(&repo, &args);
    assert_eq!(
        invocation,
        Invocation {
            program: "git".to_string(),
            args,
            working_dir: "/repos/a".to_string(),
            input: None,
        }
    );
}

#[test]
fn run_git_command_accepts_no_arguments() {
    let repo = Repo::new("svc-a", "/repos/a");
    let invocation = run_git_command(&repo, &[]);
    assert_eq!(invocation.program, "git");
    assert!(invocation.args.is_empty());
    assert_eq!(invocation.working_dir, "/repos/a");
}

#[test]
fn log_display_writes_header_then_stdout_then_stderr() {
    let log = Log::captured("/repos/a", true, "out\n".to_string(), "err\n".to_string());
    assert_eq!(
        log.display(),
        vec![
            Emission {
                channel: Channel::Stdout,
                style: Style::Header,
                text: ":: /repos/a\n".to_string(),
            },
            Emission { channel: Channel::Stdout, style: Style::Plain, text: "out\n".to_string() },
            Emission { channel: Channel::Stderr, style: Style::Plain, text: "err\n".to_string() },
        ]
    );
}
