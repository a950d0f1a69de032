//! The leveled log events the controller streams to its observer, and the
//! heuristic that reclassifies helper-process error-stream lines.
//!
//! The tunnel helper routinely prints initialization chatter on its error
//! stream, so a line from there is reported as an error only when it looks
//! like one: when it contains a failure keyword, compared without regard to
//! ASCII case.  The heuristic is a best-effort annotation only; nothing else
//! depends on it.

use vstd::prelude::*;
use crate::text::{contains_ci, str_contains_ci};

verus! {

/// Severity of one log event.
#[derive(PartialEq, Eq, Structural, Clone, Copy, Debug)]
pub enum LogLevel {
    Info,
    Warn,
    Error,
}

/// One record of the controller's observability stream.
pub struct LogEvent {
    pub level: LogLevel,
    pub message: String,
}

/// The line contains one of the failure keywords, ignoring ASCII case.
pub open spec fn looks_like_error(line: Seq<char>) -> bool {
    contains_ci(line, "error"@) || contains_ci(line, "fatal"@) || contains_ci(line, "panic"@)
        || contains_ci(line, "fail"@)
}

/// Classifies a line read from the helper's error stream.
pub fn classify_output_line(line: &str) -> (r: LogLevel)
    ensures
        r == (if looks_like_error(line@) {
            LogLevel::Error
        } else {
            LogLevel::Info
        }),
{
    if str_contains_ci(line, "error") || str_contains_ci(line, "fatal") || str_contains_ci(
        line,
        "panic",
    ) || str_contains_ci(line, "fail") {
        LogLevel::Error
    } else {
        LogLevel::Info
    }
}

/// The event for a line from the helper's output stream: always
/// informational, tagged with the helper's name.
pub fn helper_stdout_event(line: &str) -> (e: LogEvent)
    ensures
        e.level == LogLevel::Info,
        e.message@ == "[Tun2Socks] "@ + line@,
{
    let mut message = String::from_str("[Tun2Socks] ");
    message.append(line);
    LogEvent { level: LogLevel::Info, message }
}

/// The event for a line from the helper's error stream: tagged the same
/// way, reclassified by [`classify_output_line`].
pub fn helper_stderr_event(line: &str) -> (e: LogEvent)
    ensures
        e.level == (if looks_like_error(line@) {
            LogLevel::Error
        } else {
            LogLevel::Info
        }),
        e.message@ == "[Tun2Socks] "@ + line@,
{
    let level = classify_output_line(line);
    let mut message = String::from_str("[Tun2Socks] ");
    message.append(line);
    LogEvent { level, message }
}

} // verus!
