use vstd::prelude::*;

verus! {

/// The family of operating systems that decides which shell runs a command.
#[derive(Debug, Clone, Copy, PartialEq, Eq, Structural)]
pub enum OsFamily {
    Windows,
    Unix,
}

/// A program and its arguments, ready to be started.
pub struct ShellInvocation {
    pub program: String,
    pub args: Vec<String>,
}

/// The shell program of `family`.
pub open spec fn shell_program(family: OsFamily) -> Seq<char> {
    match family {
        OsFamily::Windows => "cmd"@,
        OsFamily::Unix => "sh"@,
    }
}

/// The flag after which `family`'s shell reads one command line.
pub open spec fn shell_flag(family: OsFamily) -> Seq<char> {
    match family {
        OsFamily::Windows => "/C"@,
        OsFamily::Unix => "-c"@,
    }
}

/// `inv` runs `command` through the shell of `family`, the command being
/// handed over whole as a single argument.
pub open spec fn runs_in_shell(inv: ShellInvocation, family: OsFamily, command: Seq<char>) -> bool {
    &&& inv.program@ == shell_program(family)
    &&& inv.args@.len() == 2
    &&& inv.args@[0]@ == shell_flag(family)
    &&& inv.args@[1]@ == command
}

/// The invocation that runs `command` through the shell of `family`.
pub fn shell_for(family: OsFamily, command: &str) -> (r: ShellInvocation)
    ensures
        runs_in_shell(r, family, command@),
{
    let (program, flag) = match family {
        OsFamily::Windows => (String::from_str("cmd"), String::from_str("/C")),
        OsFamily::Unix => (String::from_str("sh"), String::from_str("-c")),
    };
    let mut args: Vec<String> = Vec::new();
    args.push(flag);
    args.push(String::from_str(command));
    ShellInvocation { program, args }
}

} // verus!
