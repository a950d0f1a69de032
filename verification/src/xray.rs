//! The process supervisor for the proxy engine.
//!
//! The supervisor owns at most one handle to the external engine process.
//! Starting while one is owned supersedes it — the old handle is handed
//! back to be terminated before the new process is recorded — and stopping
//! when nothing runs is a success, not an error.  The handle is an opaque
//! token chosen by the shell (the shell owns the real child); the
//! supervisor's state reflects only the owned token, not actual process
//! liveness, which the by-name force-kill of the teardown plans reconciles.

use vstd::prelude::*;
use crate::net::{NetAction, NetActionV, engine_image};

verus! {

/// The generated policy/config document for the proxy engine, as handed in
/// by the config-generation collaborator: where it was written, and what
/// was written.
pub struct ConfigResult {
    pub path: String,
    pub content: String,
}

/// The supervisor state for the proxy engine process.
pub struct XrayState {
    pub process: Option<u64>,
}

impl XrayState {
    pub fn new() -> (s: Self)
        ensures
            s.process is None,
    {
        XrayState { process: None }
    }

    /// A handle is currently owned.
    pub open spec fn spec_is_running(self) -> bool {
        self.process is Some
    }

    /// Reflects only the owned handle, not actual OS process liveness.
    pub fn is_xray_running(&self) -> (r: bool)
        ensures
            r == self.spec_is_running(),
    {
        self.process.is_some()
    }

    /// The supersede step of a start: gives up whichever handle was owned.
    pub open spec fn spec_begin_start(self) -> (XrayState, Option<u64>) {
        (XrayState { process: None }, self.process)
    }

    /// Begins a start.  Whatever handle was owned is returned so the shell
    /// terminates it before spawning afresh; the supervisor owns nothing
    /// until the new spawn is recorded.
    pub fn start_xray_begin(&mut self) -> (kill: Option<u64>)
        ensures
            (*final(self), kill) == old(self).spec_begin_start(),
    {
        self.process.take()
    }

    pub open spec fn spec_complete_start(self, handle: u64) -> XrayState {
        XrayState { process: Some(handle) }
    }

    /// Records the freshly spawned engine process.  Only a supervisor that
    /// owns nothing (one that has begun a start) may record, so a handle is
    /// never silently dropped.
    pub fn start_xray_spawned(&mut self, handle: u64) -> (msg: String)
        requires
            !old(self).spec_is_running(),
        ensures
            *final(self) == old(self).spec_complete_start(handle),
            msg@ == "Xray started successfully"@,
    {
        self.process = Some(handle);
        String::from_str("Xray started successfully")
    }

    /// Stops the engine: gives up the owned handle, if any, for the shell
    /// to terminate, plus the unconditional by-name force-kill that
    /// reconciles a handle gone stale (the process may have ended on its
    /// own).  Always a success; the message says whether anything was
    /// running.
    pub fn stop_xray(&mut self) -> (r: (Option<u64>, NetAction, String))
        ensures
            final(self).process is None,
            r.0 == old(self).process,
            r.1@ == (NetActionV::KillProcessByName { image: engine_image() }),
            old(self).spec_is_running() ==> r.2@ == "Xray stopped"@,
            !old(self).spec_is_running() ==> r.2@ == "Xray was not running"@,
    {
        let kill = self.process.take();
        let msg = if kill.is_some() {
            String::from_str("Xray stopped")
        } else {
            String::from_str("Xray was not running")
        };
        let safety_net = NetAction::KillProcessByName { image: String::from_str("xray.exe") };
        (kill, safety_net, msg)
    }
}

/// The argument vector the engine is spawned with: run against the
/// generated config document.
pub fn xray_spawn_args(config: &ConfigResult) -> (args: Vec<String>)
    ensures
        args.deep_view() == seq!["run"@, "-c"@, config.path@],
{
    let mut args: Vec<String> = Vec::new();
    args.push(String::from_str("run"));
    args.push(String::from_str("-c"));
    args.push(config.path.clone());
    assert(args.deep_view() =~~= seq!["run"@, "-c"@, config.path@]);
    args
}

/// Supersede, not stack: beginning a start on a running supervisor hands
/// back exactly the old handle for termination and leaves the supervisor
/// not running, and only recording the new spawn makes it run again — so
/// the first process is terminated before the second is ever observed
/// running.
pub proof fn lemma_start_supersedes(s: XrayState, new_handle: u64)
    requires
        s.spec_is_running(),
    ensures
        ({
            let (cleared, kill) = s.spec_begin_start();
            kill == s.process && kill is Some && !cleared.spec_is_running()
                && cleared.spec_complete_start(new_handle).process == Some(new_handle)
        }),
{
}

} // verus!
