//! The error taxonomy of the session controller.

use vstd::prelude::*;

verus! {

/// Everything that can make a session start fail.
///
/// Teardown never fails, so these arise only on the way up:
/// - `CommandFailed`: an external host command exited non-zero or could not be
///   launched; the command, its arguments, the exit code and both captured
///   streams are kept, because the host's network tools routinely report
///   errors on the success stream.  A command that could not be launched at
///   all carries the launch error as its error stream and an exit code of
///   minus one.
/// - `NoGatewayFound`: gateway detection produced no usable candidate.
/// - `AlreadyRunning`: a tunnel session is already active and the tunnel does
///   not supersede; the caller must stop it first.
/// - `SpawnFailed`: the tunnel helper process could not be created.
/// - `InterfaceTimeout`: the virtual interface never became configurable.
#[derive(Clone, Debug)]
pub enum TunError {
    CommandFailed {
        command: String,
        args: Vec<String>,
        stdout: String,
        stderr: String,
        exit_code: i32,
    },
    NoGatewayFound,
    AlreadyRunning,
    SpawnFailed { message: String },
    InterfaceTimeout,
}

impl TunError {
    /// A human-readable description, embedding any captured command output so
    /// host-specific tool failures can be diagnosed.
    pub fn message(&self) -> (r: String)
        ensures
            match self {
                TunError::CommandFailed { stdout, stderr, .. } => r@
                    == "Command failed: STDOUT: "@ + stdout@ + " || STDERR: "@ + stderr@,
                TunError::NoGatewayFound => r@ == "Gateway detection returned no usable result."@,
                TunError::AlreadyRunning => r@ == "Tun is already running"@,
                TunError::SpawnFailed { message } => r@ == "Failed to spawn Tun2Socks: "@
                    + message@,
                TunError::InterfaceTimeout => r@ == "Interface tun0 did not appear within 5000ms"@,
            },
    {
        match self {
            TunError::CommandFailed { stdout, stderr, .. } => {
                let mut r = String::from_str("Command failed: STDOUT: ");
                r.append(stdout.as_str());
                r.append(" || STDERR: ");
                r.append(stderr.as_str());
                r
            },
            TunError::NoGatewayFound => String::from_str(
                "Gateway detection returned no usable result.",
            ),
            TunError::AlreadyRunning => String::from_str("Tun is already running"),
            TunError::SpawnFailed { message } => {
                let mut r = String::from_str("Failed to spawn Tun2Socks: ");
                r.append(message.as_str());
                r
            },
            TunError::InterfaceTimeout => String::from_str(
                "Interface tun0 did not appear within 5000ms",
            ),
        }
    }
}

} // verus!
