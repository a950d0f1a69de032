//! The command-runner boundary: an external OS command as plain data, the
//! captured outcome of running one, and the mapping of a non-zero exit to a
//! structured failure.  The library never launches a process itself; the
//! surrounding shell executes a [`CommandSpec`] and hands back a
//! [`CmdResult`].

use vstd::prelude::*;
use crate::errors::TunError;

verus! {

/// One external OS command: a program name and its argument vector.
pub struct CommandSpec {
    pub program: String,
    pub args: Vec<String>,
}

/// What came back from running one external command: either the captured
/// streams and exit code, or the reason the program could not be launched at
/// all.
pub enum CmdResult {
    Output { stdout: String, stderr: String, code: i32 },
    Unlaunchable { message: String },
}

/// Maps a captured outcome to the command runner's contract: the standard
/// output on a zero exit, and a `CommandFailed` carrying the command line,
/// the exit code and both captured streams otherwise.  A command that
/// could not be launched fails the same way, with the launch error in
/// place of the error stream and an exit code of minus one.
pub fn command_outcome(spec: CommandSpec, r: CmdResult) -> (out: Result<String, TunError>)
    ensures
        match r {
            CmdResult::Output { stdout, stderr, code } => {
                if code == 0 {
                    out == Result::<String, TunError>::Ok(stdout)
                } else {
                    out == Result::<String, TunError>::Err(
                        TunError::CommandFailed {
                            command: spec.program,
                            args: spec.args,
                            stdout,
                            stderr,
                            exit_code: code,
                        },
                    )
                }
            },
            CmdResult::Unlaunchable { message } => (out matches Result::Err(
                TunError::CommandFailed { command, args, stdout: so, stderr: se, exit_code },
            ) && command == spec.program && args == spec.args && so@ == Seq::<char>::empty() && se
                == message && exit_code == -1),
        },
{
    match r {
        CmdResult::Output { stdout, stderr, code } => {
            if code == 0 {
                Ok(stdout)
            } else {
                Err(
                    TunError::CommandFailed {
                        command: spec.program,
                        args: spec.args,
                        stdout,
                        stderr,
                        exit_code: code,
                    },
                )
            }
        },
        CmdResult::Unlaunchable { message } => {
            Err(
                TunError::CommandFailed {
                    command: spec.program,
                    args: spec.args,
                    stdout: String::new(),
                    stderr: message,
                    exit_code: -1,
                },
            )
        },
    }
}

} // verus!
