use vstd::prelude::*;
use crate::text::{trim_text, trimmed};

verus! {

/// Why a command was refused before anything ran.
#[derive(Debug, Clone, Copy, PartialEq, Eq, Structural)]
pub enum CommandError {
    /// Nothing but white space was sent.
    EmptyCommand,
}

/// Accepts `t`, text that has already been trimmed, when anything is left of it.
pub fn check_trimmed(t: String) -> (r: Result<String, CommandError>)
    ensures
        r is Ok <==> t@.len() > 0,
        r matches Ok(c) ==> c@ == t@,
        r matches Err(e) ==> e == CommandError::EmptyCommand,
{
    if t.as_str().is_empty() {
        Err(CommandError::EmptyCommand)
    } else {
        Ok(t)
    }
}

/// Trims `raw` and accepts what is left when it is not empty.
pub fn validate_command(raw: &str) -> (r: Result<String, CommandError>)
    ensures
        r is Ok <==> trimmed(raw@).len() > 0,
        r matches Ok(c) ==> c@ == trimmed(raw@),
        r matches Err(e) ==> e == CommandError::EmptyCommand,
{
    check_trimmed(trim_text(raw))
}

} // verus!
