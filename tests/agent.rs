use machine_agent::execute::{
    finish_execute, finish_execute_async, plan_execute, plan_execute_async, AsyncOutcome, Plan,
    RawOutput, SpawnError, SyncOutcome,
};
use machine_agent::log::{log_file_name, render_entry, LogRecord};
use machine_agent::request::{default_timeout, ExecuteRequest};
use machine_agent::response::{health_response, home_response, ReplyStatus};
use machine_agent::shell::{shell_for, OsFamily};
use machine_agent::validate::{check_trimmed, validate_command, CommandError};

fn finished(stdout: &[u8], stderr: &[u8], code: Option<i32>) -> SyncOutcome {
    SyncOutcome::Finished(RawOutput { stdout: stdout.to_vec(), stderr: stderr.to_vec(), code })
}

fn spawn_error() -> SpawnError {
    SpawnError {
        message: "No such file or directory (os error 2)".to_string(),
        detail: "Os { code: 2, kind: NotFound }".to_string(),
    }
}

#[test]
fn default_timeout_is_thirty_seconds() {
    assert_eq!(default_timeout(), 30);
    assert_eq!(ExecuteRequest::new("ls".to_string()).timeout, 30);
}

#[test]
fn validate_trims_surrounding_white_space() {
    assert_eq!(validate_command("  ls -la \n"), Ok("ls -la".to_string()));
    assert_eq!(validate_command("echo  a   b"), Ok("echo  a   b".to_string()));
}

#[test]
fn validate_refuses_blank_commands() {
    for raw in ["", " ", "\t\n  ", "\r\n"] {
        assert_eq!(validate_command(raw), Err(CommandError::EmptyCommand));
    }
    assert_eq!(check_trimmed(String::new()), Err(CommandError::EmptyCommand));
    assert_eq!(check_trimmed("x".to_string()), Ok("x".to_string()));
}

#[test]
fn blank_command_is_refused_on_both_routes() {
    let req = ExecuteRequest::new("   ".to_string());
    match plan_execute(&req, OsFamily::Unix) {
        Plan::Answer(r) => {
            assert_eq!(r.status, ReplyStatus::BadRequest);
            assert!(!r.body.success);
            assert_eq!(r.body.command, "");
            assert_eq!(r.body.error.as_deref(), Some("Command must be a non-empty string"));
            assert!(r.body.stdout.is_none() && r.body.return_code.is_none());
            let log = r.log.expect("a refusal is logged");
            assert_eq!(log.endpoint, "/execute");
            assert_eq!(log.command.as_deref(), Some("   "));
            assert!(log.detail.is_none());
        }
        Plan::Run { .. } => panic!("a blank command must not run"),
    }
    match plan_execute_async(&req, OsFamily::Unix) {
        Plan::Answer(r) => {
            assert_eq!(r.status, ReplyStatus::BadRequest);
            assert!(!r.body.success);
            assert_eq!(r.body.pid, 0);
            assert_eq!(r.body.started_at, "");
            assert_eq!(r.body.status, "");
            assert_eq!(r.log.expect("a refusal is logged").endpoint, "/execute-async");
        }
        Plan::Run { .. } => panic!("a blank command must not run"),
    }
}

#[test]
fn accepted_command_runs_trimmed_in_the_shell() {
    let req = ExecuteRequest::new("  echo hello  ".to_string());
    match plan_execute(&req, OsFamily::Unix) {
        Plan::Run { command, shell } => {
            assert_eq!(command, "echo hello");
            assert_eq!(shell.program, "sh");
            assert_eq!(shell.args, vec!["-c".to_string(), "echo hello".to_string()]);
        }
        Plan::Answer(_) => panic!("the command should run"),
    }
    match plan_execute_async(&req, OsFamily::Windows) {
        Plan::Run { command, shell } => {
            assert_eq!(command, "echo hello");
            assert_eq!(shell.program, "cmd");
            assert_eq!(shell.args, vec!["/C".to_string(), "echo hello".to_string()]);
        }
        Plan::Answer(_) => panic!("the command should run"),
    }
}

#[test]
fn shell_gets_metacharacters_verbatim() {
    let shell = shell_for(OsFamily::Unix, "a | b && c > 'd'");
    assert_eq!(shell.args[1], "a | b && c > 'd'");
}

#[test]
fn successful_run_reports_output_and_zero_code() {
    let r = finish_execute("echo hello", &finished(b"hello\n", b"", Some(0)));
    assert_eq!(r.status, ReplyStatus::Success);
    assert!(r.body.success);
    assert_eq!(r.body.executed, Some(true));
    assert_eq!(r.body.return_code, Some(0));
    assert!(r.body.stdout.as_deref().unwrap().contains("hello"));
    assert_eq!(r.body.stderr.as_deref(), Some(""));
    assert!(r.body.error.is_none());
    assert!(r.log.is_none());
}

#[test]
fn nonzero_exit_is_still_a_success() {
    let r = finish_execute("exit 3", &finished(b"", b"oops\n", Some(3)));
    assert_eq!(r.status, ReplyStatus::Success);
    assert!(r.body.success);
    assert_eq!(r.body.executed, Some(true));
    assert_eq!(r.body.return_code, Some(3));
    assert_eq!(r.body.stderr.as_deref(), Some("oops\n"));
}

#[test]
fn killed_process_has_no_exit_code() {
    let r = finish_execute("kill -9 $$", &finished(b"", b"", None));
    assert!(r.body.success);
    assert_eq!(r.body.return_code, None);
}

#[test]
fn invalid_utf8_output_is_replaced() {
    let r = finish_execute("cat bin", &finished(&[b'a', 0xff, b'b'], &[0xc3], Some(0)));
    assert_eq!(r.body.stdout.as_deref(), Some("a\u{FFFD}b"));
    assert_eq!(r.body.stderr.as_deref(), Some("\u{FFFD}"));
}

#[test]
fn spawn_failure_is_a_server_error_and_is_logged() {
    let r = finish_execute("ls", &SyncOutcome::Failed(spawn_error()));
    assert_eq!(r.status, ReplyStatus::InternalServerError);
    assert!(!r.body.success);
    assert_eq!(r.body.command, "ls");
    assert_eq!(r.body.error.as_deref(), Some("No such file or directory (os error 2)"));
    assert!(r.body.stdout.is_none() && r.body.stderr.is_none());
    assert!(r.body.return_code.is_none() && r.body.executed.is_none());
    let log = r.log.expect("a spawn failure is logged");
    assert_eq!(log.endpoint, "/execute");
    assert_eq!(log.message, "Command execution failed: No such file or directory (os error 2)");
    assert_eq!(log.command.as_deref(), Some("ls"));
    assert_eq!(log.detail.as_deref(), Some("Os { code: 2, kind: NotFound }"));
}

#[test]
fn started_command_is_reported_running() {
    let outcome = AsyncOutcome::Started {
        pid: Some(4242),
        started_at: "2024-05-01T12:30:00.123456+02:00".to_string(),
    };
    let r = finish_execute_async("sleep 5", &outcome);
    assert_eq!(r.status, ReplyStatus::Success);
    assert!(r.body.success);
    assert_eq!(r.body.message.as_deref(), Some("Command started successfully"));
    assert_eq!(r.body.command, "sleep 5");
    assert_eq!(r.body.pid, 4242);
    assert_eq!(r.body.started_at, "2024-05-01T12:30:00.123456+02:00");
    assert_eq!(r.body.status, "running");
    assert!(r.body.error.is_none() && r.log.is_none());
}

#[test]
fn started_command_without_id_reports_pid_zero() {
    let outcome = AsyncOutcome::Started { pid: None, started_at: "t".to_string() };
    assert_eq!(finish_execute_async("true", &outcome).body.pid, 0);
}

#[test]
fn failed_start_is_a_server_error_and_is_logged() {
    let r = finish_execute_async("ls", &AsyncOutcome::Failed(spawn_error()));
    assert_eq!(r.status, ReplyStatus::InternalServerError);
    assert!(!r.body.success);
    assert!(r.body.message.is_none());
    assert_eq!(r.body.pid, 0);
    assert_eq!(r.body.started_at, "");
    assert_eq!(r.body.status, "");
    let log = r.log.expect("a failed start is logged");
    assert_eq!(log.endpoint, "/execute-async");
    assert_eq!(log.message, "Failed to start command: No such file or directory (os error 2)");
}

#[test]
fn accepted_command_is_echoed_after_trimming() {
    let req = ExecuteRequest::new("\t uname -a \n".to_string());
    let command = match plan_execute(&req, OsFamily::Unix) {
        Plan::Run { command, .. } => command,
        Plan::Answer(_) => panic!("the command should run"),
    };
    assert_eq!(finish_execute(&command, &finished(b"", b"", Some(0))).body.command, "uname -a");
    assert_eq!(finish_execute(&command, &SyncOutcome::Failed(spawn_error())).body.command, "uname -a");
    let started = AsyncOutcome::Started { pid: Some(1), started_at: "t".to_string() };
    assert_eq!(finish_execute_async(&command, &started).body.command, "uname -a");
}

#[test]
fn health_is_stable_across_calls() {
    let a = health_response("linux");
    let b = health_response("linux");
    assert_eq!(a.status, "healthy");
    assert_eq!(a.status, b.status);
    assert_eq!(a.platform, "linux");
    assert_eq!(b.platform, "linux");
}

#[test]
fn home_lists_the_routes() {
    let h = home_response();
    assert_eq!(h.message, "Machine Agent API");
    let routes: Vec<&str> = h.endpoints.iter().map(|(k, _)| k.as_str()).collect();
    assert_eq!(routes, vec!["/execute", "/execute-async", "/health"]);
    assert_eq!(h.endpoints[2].1, "GET - Check API health");
}

#[test]
fn log_entry_plain_shape() {
    let rec = LogRecord {
        endpoint: "/execute".to_string(),
        message: "Command must be a non-empty string".to_string(),
        command: Some("  ".to_string()),
        detail: None,
    };
    assert_eq!(
        render_entry("2024-05-01 12:30:00", &rec),
        "2024-05-01 12:30:00 - ERROR - /execute - Command must be a non-empty string - Command:   \n"
    );
    let bare = LogRecord { command: None, ..rec };
    assert_eq!(
        render_entry("T", &bare),
        "T - ERROR - /execute - Command must be a non-empty string\n"
    );
}

#[test]
fn log_entry_with_detail_has_second_line() {
    let rec = LogRecord {
        endpoint: "/execute-async".to_string(),
        message: "Failed to start command: boom".to_string(),
        command: Some("ls".to_string()),
        detail: Some("Os { code: 2 }".to_string()),
    };
    assert_eq!(
        render_entry("T", &rec),
        "T - ERROR - /execute-async - Failed to start command: boom - Command: ls\nDetail: Os { code: 2 }\n"
    );
}

#[test]
fn log_file_is_named_app_error_log() {
    assert_eq!(log_file_name(), "app_error.log");
}
