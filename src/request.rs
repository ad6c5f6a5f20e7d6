use vstd::prelude::*;

verus! {

/// Seconds a caller may ask a command to take when the request names no
/// limit. The value is advisory: nothing in this library enforces it.
pub const DEFAULT_TIMEOUT_SECS: u64 = 30;

/// The limit that a request without a `timeout` field carries.
pub fn default_timeout() -> (r: u64)
    ensures
        r == DEFAULT_TIMEOUT_SECS,
{
    DEFAULT_TIMEOUT_SECS
}

} // verus!

verus! {

/// A request to run `command` through the host's shell. `command` is kept as
/// received; it is trimmed before use.
pub struct ExecuteRequest {
    pub command: String,
    /// Seconds the caller allows; advisory only, never enforced.
    pub timeout: u64,
}

impl ExecuteRequest {
    /// A request for `command` with the default timeout.
    pub fn new(command: String) -> (r: ExecuteRequest)
        ensures
            r.command@ == command@,
            r.timeout == DEFAULT_TIMEOUT_SECS,
    {
        ExecuteRequest { command, timeout: default_timeout() }
    }
}

} // verus!
