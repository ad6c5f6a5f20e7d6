//! An agent that runs shell commands on request: it validates the command
//! text, picks the host's shell, and turns how a run went into the reply and
//! the error-log entry. Starting processes, the clock, the log file and the
//! HTTP transport are left to the program that embeds it.

pub mod execute;
pub mod log;
pub mod request;
pub mod response;
pub mod shell;
pub mod text;
pub mod validate;
