//! Plain data handed across the boundary by the shell's diagnostic
//! utilities.

use vstd::prelude::*;

verus! {

/// The outcome of one connectivity probe against a server: whether it
/// answered, and after how many milliseconds.
pub struct PingResult {
    pub latency: u128,
    pub success: bool,
}

impl PingResult {
    /// A failed probe, reported with zero latency.
    pub fn failed() -> (r: Self)
        ensures
            !r.success,
            r.latency == 0,
    {
        PingResult { latency: 0, success: false }
    }

    /// A successful probe that took `latency` milliseconds.
    pub fn succeeded(latency: u128) -> (r: Self)
        ensures
            r.success,
            r.latency == latency,
    {
        PingResult { latency, success: true }
    }
}

} // verus!
