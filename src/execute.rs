use vstd::prelude::*;
use crate::log::LogRecord;
use crate::request::ExecuteRequest;
use crate::response::{holds_text, AsyncExecuteResponse, ExecuteResponse, Reply, ReplyStatus};
use crate::shell::{runs_in_shell, shell_for, OsFamily, ShellInvocation};
use crate::text::{decode_lossy, lossy_utf8, trim_text, trimmed};
use crate::validate::check_trimmed;

verus! {

/// What a finished process left behind.
pub struct RawOutput {
    pub stdout: Vec<u8>,
    pub stderr: Vec<u8>,
    /// The exit code; absent where the process was ended by a signal.
    pub code: Option<i32>,
}

/// Why a process could not be started.
pub struct SpawnError {
    /// A short description, shown to the caller.
    pub message: String,
    /// The full diagnostic, kept for the log.
    pub detail: String,
}

/// How a synchronous run went.
pub enum SyncOutcome {
    Finished(RawOutput),
    Failed(SpawnError),
}

/// How a start in the background went.
pub enum AsyncOutcome {
    /// The process runs; `pid` is absent where the OS gave no id.
    Started { pid: Option<u32>, started_at: String },
    Failed(SpawnError),
}

/// What a handler does with a request: answer at once, or run `command`
/// through `shell` and answer from the outcome.
pub enum Plan<B> {
    Answer(Reply<B>),
    Run { command: String, shell: ShellInvocation },
}

pub open spec fn empty_command_message() -> Seq<char> {
    "Command must be a non-empty string"@
}

/// `log` records that a blank command `raw` was refused at `route`.
pub open spec fn is_refusal_log(log: Option<LogRecord>, route: Seq<char>, raw: Seq<char>) -> bool {
    match log {
        Some(l) => {
            &&& l.endpoint@ == route
            &&& l.message@ == empty_command_message()
            &&& holds_text(l.command, raw)
            &&& l.detail is None
        },
        None => false,
    }
}

/// `log` records at `route` that `command` could not be started, for `err`.
pub open spec fn is_failure_log(
    log: Option<LogRecord>,
    route: Seq<char>,
    prefix: Seq<char>,
    command: Seq<char>,
    err: SpawnError,
) -> bool {
    match log {
        Some(l) => {
            &&& l.endpoint@ == route
            &&& l.message@ == prefix + err.message@
            &&& holds_text(l.command, command)
            &&& holds_text(l.detail, err.detail@)
        },
        None => false,
    }
}

/// `r` refuses the blank command `raw` on the synchronous route.
pub open spec fn is_sync_refusal(r: Reply<ExecuteResponse>, raw: Seq<char>) -> bool {
    &&& r.status == ReplyStatus::BadRequest
    &&& !r.body.success
    &&& r.body.command@ == trimmed(raw)
    &&& r.body.stdout is None
    &&& r.body.stderr is None
    &&& r.body.return_code is None
    &&& r.body.executed is None
    &&& holds_text(r.body.error, empty_command_message())
    &&& is_refusal_log(r.log, "/execute"@, raw)
}

/// `r` answers the synchronous run of `command` that went as `outcome`.
pub open spec fn is_sync_reply(r: Reply<ExecuteResponse>, command: Seq<char>, outcome: SyncOutcome) -> bool {
    &&& r.body.command@ == command
    &&& match outcome {
        SyncOutcome::Finished(out) => {
            &&& r.status == ReplyStatus::Success
            &&& r.body.success
            &&& holds_text(r.body.stdout, lossy_utf8(out.stdout@))
            &&& holds_text(r.body.stderr, lossy_utf8(out.stderr@))
            &&& r.body.return_code == out.code
            &&& r.body.executed == Some(true)
            &&& r.body.error is None
            &&& r.log is None
        },
        SyncOutcome::Failed(e) => {
            &&& r.status == ReplyStatus::InternalServerError
            &&& !r.body.success
            &&& r.body.stdout is None
            &&& r.body.stderr is None
            &&& r.body.return_code is None
            &&& r.body.executed is None
            &&& holds_text(r.body.error, e.message@)
            &&& is_failure_log(r.log, "/execute"@, "Command execution failed: "@, command, e)
        },
    }
}

/// `p` is what the synchronous route does with the received text `raw` on
/// a host of `family`.
pub open spec fn is_sync_plan(p: Plan<ExecuteResponse>, raw: Seq<char>, family: OsFamily) -> bool {
    match p {
        Plan::Answer(r) => trimmed(raw).len() == 0 && is_sync_refusal(r, raw),
        Plan::Run { command, shell } => {
            &&& trimmed(raw).len() > 0
            &&& command@ == trimmed(raw)
            &&& runs_in_shell(shell, family, command@)
        },
    }
}

/// `r` refuses the blank command `raw` on the background route.
pub open spec fn is_async_refusal(r: Reply<AsyncExecuteResponse>, raw: Seq<char>) -> bool {
    &&& r.status == ReplyStatus::BadRequest
    &&& !r.body.success
    &&& r.body.message is None
    &&& r.body.command@ == trimmed(raw)
    &&& r.body.pid == 0
    &&& r.body.started_at@.len() == 0
    &&& r.body.status@.len() == 0
    &&& holds_text(r.body.error, empty_command_message())
    &&& is_refusal_log(r.log, "/execute-async"@, raw)
}

/// `r` answers the start of `command` in the background that went as `outcome`.
pub open spec fn is_async_reply(
    r: Reply<AsyncExecuteResponse>,
    command: Seq<char>,
    outcome: AsyncOutcome,
) -> bool {
    &&& r.body.command@ == command
    &&& match outcome {
        AsyncOutcome::Started { pid, started_at } => {
            &&& r.status == ReplyStatus::Success
            &&& r.body.success
            &&& holds_text(r.body.message, "Command started successfully"@)
            &&& r.body.pid == match pid {
                Some(p) => p,
                None => 0u32,
            }
            &&& r.body.started_at@ == started_at@
            &&& r.body.status@ == "running"@
            &&& r.body.error is None
            &&& r.log is None
        },
        AsyncOutcome::Failed(e) => {
            &&& r.status == ReplyStatus::InternalServerError
            &&& !r.body.success
            &&& r.body.message is None
            &&& r.body.pid == 0
            &&& r.body.started_at@.len() == 0
            &&& r.body.status@.len() == 0
            &&& holds_text(r.body.error, e.message@)
            &&& is_failure_log(r.log, "/execute-async"@, "Failed to start command: "@, command, e)
        },
    }
}

/// `p` is what the background route does with the received text `raw` on a
/// host of `family`.
pub open spec fn is_async_plan(p: Plan<AsyncExecuteResponse>, raw: Seq<char>, family: OsFamily) -> bool {
    match p {
        Plan::Answer(r) => trimmed(raw).len() == 0 && is_async_refusal(r, raw),
        Plan::Run { command, shell } => {
            &&& trimmed(raw).len() > 0
            &&& command@ == trimmed(raw)
            &&& runs_in_shell(shell, family, command@)
        },
    }
}

fn refusal_log(route: &str, raw: &str) -> (r: Option<LogRecord>)
    ensures
        is_refusal_log(r, route@, raw@),
{
    Some(
        LogRecord {
            endpoint: String::from_str(route),
            message: String::from_str("Command must be a non-empty string"),
            command: Some(String::from_str(raw)),
            detail: None,
        },
    )
}

fn failure_log(route: &str, prefix: &str, command: &str, err: &SpawnError) -> (r: Option<LogRecord>)
    ensures
        is_failure_log(r, route@, prefix@, command@, *err),
{
    let message = String::from_str(prefix).concat(err.message.as_str());
    Some(
        LogRecord {
            endpoint: String::from_str(route),
            message,
            command: Some(String::from_str(command)),
            detail: Some(err.detail.clone()),
        },
    )
}

/// Decides what the synchronous route does with `req` on a host of `family`:
/// a blank command is refused with a client error and nothing runs;
/// otherwise the trimmed command runs through the host's shell.
pub fn plan_execute(req: &ExecuteRequest, family: OsFamily) -> (p: Plan<ExecuteResponse>)
    ensures
        p is Answer <==> trimmed(req.command@).len() == 0,
        is_sync_plan(p, req.command@, family),
{
    let raw = req.command.as_str();
    match check_trimmed(trim_text(raw)) {
        Ok(command) => {
            let shell = shell_for(family, command.as_str());
            Plan::Run { command, shell }
        },
        Err(_) => {
            let body = ExecuteResponse {
                success: false,
                command: String::new(),
                stdout: None,
                stderr: None,
                return_code: None,
                executed: None,
                error: Some(String::from_str("Command must be a non-empty string")),
            };
            assert(body.command@ =~= trimmed(req.command@));
            Plan::Answer(
                Reply { status: ReplyStatus::BadRequest, body, log: refusal_log("/execute", raw) },
            )
        },
    }
}

/// Answers the synchronous run of `command` from how it went: the output
/// and exit code of a finished process, whatever that code is, or the
/// reason it could not start.
pub fn finish_execute(command: &str, outcome: &SyncOutcome) -> (r: Reply<ExecuteResponse>)
    ensures
        is_sync_reply(r, command@, *outcome),
{
    match outcome {
        SyncOutcome::Finished(out) => {
            let body = ExecuteResponse {
                success: true,
                command: String::from_str(command),
                stdout: Some(decode_lossy(out.stdout.as_slice())),
                stderr: Some(decode_lossy(out.stderr.as_slice())),
                return_code: out.code,
                executed: Some(true),
                error: None,
            };
            Reply { status: ReplyStatus::Success, body, log: None }
        },
        SyncOutcome::Failed(e) => {
            let body = ExecuteResponse {
                success: false,
                command: String::from_str(command),
                stdout: None,
                stderr: None,
                return_code: None,
                executed: None,
                error: Some(e.message.clone()),
            };
            let log = failure_log("/execute", "Command execution failed: ", command, e);
            Reply { status: ReplyStatus::InternalServerError, body, log }
        },
    }
}

/// Decides what the background route does with `req` on a host of `family`,
/// as `plan_execute` does for the synchronous one.
pub fn plan_execute_async(req: &ExecuteRequest, family: OsFamily) -> (p: Plan<AsyncExecuteResponse>)
    ensures
        p is Answer <==> trimmed(req.command@).len() == 0,
        is_async_plan(p, req.command@, family),
{
    let raw = req.command.as_str();
    match check_trimmed(trim_text(raw)) {
        Ok(command) => {
            let shell = shell_for(family, command.as_str());
            Plan::Run { command, shell }
        },
        Err(_) => {
            let body = AsyncExecuteResponse {
                success: false,
                message: None,
                command: String::new(),
                pid: 0,
                started_at: String::new(),
                status: String::new(),
                error: Some(String::from_str("Command must be a non-empty string")),
            };
            assert(body.command@ =~= trimmed(req.command@));
            Plan::Answer(
                Reply {
                    status: ReplyStatus::BadRequest,
                    body,
                    log: refusal_log("/execute-async", raw),
                },
            )
        },
    }
}

/// Answers the start of `command` in the background from how it went: the
/// process id and start time of a running process, or the reason it could
/// not start.
pub fn finish_execute_async(command: &str, outcome: &AsyncOutcome) -> (r: Reply<AsyncExecuteResponse>)
    ensures
        is_async_reply(r, command@, *outcome),
{
    match outcome {
        AsyncOutcome::Started { pid, started_at } => {
            let id: u32 = match pid {
                Some(p) => *p,
                None => 0,
            };
            let body = AsyncExecuteResponse {
                success: true,
                message: Some(String::from_str("Command started successfully")),
                command: String::from_str(command),
                pid: id,
                started_at: started_at.clone(),
                status: String::from_str("running"),
                error: None,
            };
            Reply { status: ReplyStatus::Success, body, log: None }
        },
        AsyncOutcome::Failed(e) => {
            let body = AsyncExecuteResponse {
                success: false,
                message: None,
                command: String::from_str(command),
                pid: 0,
                started_at: String::new(),
                status: String::new(),
                error: Some(e.message.clone()),
            };
            let log = failure_log("/execute-async", "Failed to start command: ", command, e);
            Reply { status: ReplyStatus::InternalServerError, body, log }
        },
    }
}

/// A command that is blank once trimmed is refused with a client error on
/// both routes, reports no success, and starts no process.
pub proof fn lemma_blank_command_refused(
    raw: Seq<char>,
    family: OsFamily,
    sync: Plan<ExecuteResponse>,
    background: Plan<AsyncExecuteResponse>,
)
    requires
        trimmed(raw).len() == 0,
        is_sync_plan(sync, raw, family),
        is_async_plan(background, raw, family),
    ensures
        sync matches Plan::Answer(r) && r.status == ReplyStatus::BadRequest && !r.body.success,
        background matches Plan::Answer(r) && r.status == ReplyStatus::BadRequest
            && !r.body.success,
{
}

/// A process that ran to its end is a success of the agent whatever its exit
/// code: the reply says it ran and carries that code.
pub proof fn lemma_exit_code_is_no_failure(
    command: Seq<char>,
    out: RawOutput,
    r: Reply<ExecuteResponse>,
)
    requires
        is_sync_reply(r, command, SyncOutcome::Finished(out)),
    ensures
        r.status == ReplyStatus::Success,
        r.body.success,
        r.body.executed == Some(true),
        r.body.return_code == out.code,
{
}

/// An accepted command comes back, trimmed and otherwise verbatim, in the
/// reply of the synchronous route, however the run went.
pub proof fn lemma_sync_command_echoed(
    raw: Seq<char>,
    family: OsFamily,
    p: Plan<ExecuteResponse>,
    outcome: SyncOutcome,
    r: Reply<ExecuteResponse>,
)
    requires
        is_sync_plan(p, raw, family),
        p matches Plan::Run { command, .. } && is_sync_reply(r, command@, outcome),
    ensures
        r.body.command@ == trimmed(raw),
{
}

/// An accepted command comes back, trimmed and otherwise verbatim, in the
/// reply of the background route, however the start went.
pub proof fn lemma_async_command_echoed(
    raw: Seq<char>,
    family: OsFamily,
    p: Plan<AsyncExecuteResponse>,
    outcome: AsyncOutcome,
    r: Reply<AsyncExecuteResponse>,
)
    requires
        is_async_plan(p, raw, family),
        p matches Plan::Run { command, .. } && is_async_reply(r, command@, outcome),
    ensures
        r.body.command@ == trimmed(raw),
{
}

} // verus!
