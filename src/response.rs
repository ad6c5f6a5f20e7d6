use vstd::prelude::*;
use crate::log::LogRecord;

verus! {

/// The HTTP status that a reply is sent with.
#[derive(Debug, Clone, Copy, PartialEq, Eq, Structural)]
pub enum ReplyStatus {
    Success,
    BadRequest,
    InternalServerError,
}

/// Body of a reply to a synchronous run. Either the run's output fields
/// (`stdout`, `stderr`, `return_code`, `executed`) are set, or `error` is.
pub struct ExecuteResponse {
    pub success: bool,
    pub command: String,
    pub stdout: Option<String>,
    pub stderr: Option<String>,
    /// Absent where the process ended without an exit code (by a signal).
    pub return_code: Option<i32>,
    pub executed: Option<bool>,
    pub error: Option<String>,
}

/// Body of a reply to a command started in the background. On failure `pid`
/// is 0 and `started_at` and `status` are empty.
pub struct AsyncExecuteResponse {
    pub success: bool,
    pub message: Option<String>,
    pub command: String,
    pub pid: u32,
    /// The start time, in RFC 3339 form with a UTC offset.
    pub started_at: String,
    pub status: String,
    pub error: Option<String>,
}

/// Body of a reply to a health probe.
pub struct HealthResponse {
    pub status: String,
    pub platform: String,
}

/// Body of the reply at the root: a greeting and each route with what it does.
pub struct HomeResponse {
    pub message: String,
    pub endpoints: Vec<(String, String)>,
}

/// What a handler answers: a status, a body, and the failure to log, if any.
pub struct Reply<B> {
    pub status: ReplyStatus,
    pub body: B,
    pub log: Option<LogRecord>,
}

/// `o` holds text equal to `t`.
pub open spec fn holds_text(o: Option<String>, t: Seq<char>) -> bool {
    match o {
        Some(s) => s@ == t,
        None => false,
    }
}

/// `h` is the health body for a host whose OS is named `platform`.
pub open spec fn is_health(h: HealthResponse, platform: Seq<char>) -> bool {
    h.status@ == "healthy"@ && h.platform@ == platform
}

/// Answers a health probe on a host whose OS is named `platform`.
pub fn health_response(platform: &str) -> (r: HealthResponse)
    ensures
        is_health(r, platform@),
{
    HealthResponse { status: String::from_str("healthy"), platform: String::from_str(platform) }
}

/// Health answers on one host agree: the same status, and the host's OS name.
pub proof fn lemma_health_stable(platform: Seq<char>, a: HealthResponse, b: HealthResponse)
    requires
        is_health(a, platform),
        is_health(b, platform),
    ensures
        a.status@ == b.status@,
        a.platform@ == platform,
        b.platform@ == platform,
{
}

/// `r` names the agent and lists its routes besides the root, each with its
/// method and purpose.
pub open spec fn is_home(r: HomeResponse) -> bool {
    &&& r.message@ == "Machine Agent API"@
    &&& r.endpoints@.len() == 3
    &&& r.endpoints@[0].0@ == "/execute"@
    &&& r.endpoints@[0].1@ == "POST - Execute a command and wait for response"@
    &&& r.endpoints@[1].0@ == "/execute-async"@
    &&& r.endpoints@[1].1@ == "POST - Execute a command asynchronously (fire and forget)"@
    &&& r.endpoints@[2].0@ == "/health"@
    &&& r.endpoints@[2].1@ == "GET - Check API health"@
}

/// Answers a request at the root.
pub fn home_response() -> (r: HomeResponse)
    ensures
        is_home(r),
{
    let mut endpoints: Vec<(String, String)> = Vec::new();
    endpoints.push(
        (
            String::from_str("/execute"),
            String::from_str("POST - Execute a command and wait for response"),
        ),
    );
    endpoints.push(
        (
            String::from_str("/execute-async"),
            String::from_str("POST - Execute a command asynchronously (fire and forget)"),
        ),
    );
    endpoints.push((String::from_str("/health"), String::from_str("GET - Check API health")));
    HomeResponse { message: String::from_str("Machine Agent API"), endpoints }
}

} // verus!
