//! The interface-readiness poller: a bounded wait, at a fixed interval,
//! for the virtual interface to become configurable.
//!
//! The poller only accounts for time; the probe itself (asking the host's
//! interface-introspection tool) and the sleeping are the shell's.  The
//! interval is fixed — the expected wait is short driver-attach time, so
//! backoff or jitter would buy nothing.

use vstd::prelude::*;

verus! {

/// Book-keeping for one bounded readiness wait.
pub struct InterfacePoller {
    pub timeout_ms: u64,
    pub interval_ms: u64,
    pub elapsed_ms: u64,
}

impl InterfacePoller {
    /// The bounds every poller keeps: a positive interval, both bounds
    /// small enough that accounting can never overflow.
    pub open spec fn wf(self) -> bool {
        1 <= self.interval_ms <= 0xFFFF_FFFF && self.timeout_ms <= 0xFFFF_FFFF
            && self.elapsed_ms <= self.timeout_ms + self.interval_ms
    }

    pub fn new(timeout_ms: u64, interval_ms: u64) -> (p: Self)
        requires
            1 <= interval_ms <= 0xFFFF_FFFF,
            timeout_ms <= 0xFFFF_FFFF,
        ensures
            p == (InterfacePoller { timeout_ms, interval_ms, elapsed_ms: 0u64 }),
            p.wf(),
    {
        InterfacePoller { timeout_ms, interval_ms, elapsed_ms: 0 }
    }

    /// Whether the bounded wait is over without the interface appearing.
    pub fn expired(&self) -> (r: bool)
        ensures
            r == (self.elapsed_ms >= self.timeout_ms),
    {
        self.elapsed_ms >= self.timeout_ms
    }

    /// Accounts for one failed probe followed by one fixed-interval sleep.
    pub fn note_failed_probe(&mut self)
        requires
            old(self).wf(),
            old(self).elapsed_ms < old(self).timeout_ms,
        ensures
            final(self).wf(),
            final(self).elapsed_ms == old(self).elapsed_ms + old(self).interval_ms,
            final(self).timeout_ms == old(self).timeout_ms,
            final(self).interval_ms == old(self).interval_ms,
    {
        self.elapsed_ms = self.elapsed_ms + self.interval_ms;
    }
}

} // verus!
