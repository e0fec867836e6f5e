//! The process-wide supervision state: the supervised process's id, the
//! readiness flag, and the resolved log path, with the transitions that
//! launch, readiness detection and shutdown drive, and the frontend's
//! status view of it.
//!
//! The host application holds this state behind its own locking and the
//! real process handle beside it; the transitions here say exactly how
//! each step changes the state, and shutdown takes the handle's id out
//! so nothing can be killed twice.

use vstd::prelude::*;

verus! {

/// The shared supervision state, one instance per host application.
pub struct SupervisorCore {
    /// The supervised process's id, while one is held.
    pub backend_pid: Option<u32>,
    /// Whether the backend has answered a health check.
    pub backend_ready: bool,
    /// Where the backend's log is captured, once a launch resolved it.
    pub backend_log_path: Option<String>,
}

impl SupervisorCore {
    /// The state at host startup: no process, not ready, no log path.
    pub fn new() -> (s: SupervisorCore)
        ensures
            s.backend_pid is None,
            !s.backend_ready,
            s.backend_log_path is None,
    {
        SupervisorCore { backend_pid: None, backend_ready: false, backend_log_path: None }
    }

    /// A successful spawn records the process and its log path, before
    /// any readiness poller runs against this state — so a poller never
    /// sees the process without its log path.
    pub fn record_launch(&mut self, pid: u32, log_path: String)
        ensures
            final(self).backend_pid == Some(pid),
            final(self).backend_log_path matches Some(p) && p@ == log_path@,
            final(self).backend_ready == old(self).backend_ready,
    {
        self.backend_pid = Some(pid);
        self.backend_log_path = Some(log_path);
    }

    /// The readiness flag flips only after a successful poll outcome;
    /// nothing else changes.
    pub fn mark_ready(&mut self)
        ensures
            final(self).backend_ready,
            final(self).backend_pid == old(self).backend_pid,
            final(self).backend_log_path == old(self).backend_log_path,
    {
        self.backend_ready = true;
    }

    /// Shutdown takes the process id out, so the process cannot be
    /// killed twice; the rest of the state stays.
    pub fn take_handle(&mut self) -> (r: Option<u32>)
        ensures
            r == old(self).backend_pid,
            final(self).backend_pid is None,
            final(self).backend_ready == old(self).backend_ready,
            final(self).backend_log_path == old(self).backend_log_path,
    {
        let r = self.backend_pid;
        self.backend_pid = None;
        r
    }

    /// The connection status the frontend sees; it never fails.
    pub fn status_label(&self) -> (r: String)
        ensures
            self.backend_ready ==> r@ == "connected"@,
            !self.backend_ready ==> r@ == "connecting"@,
    {
        if self.backend_ready {
            String::from_str("connected")
        } else {
            String::from_str("connecting")
        }
    }
}

/// The greeting the host answers a frontend probe with.
pub fn greet(name: &str) -> (r: String)
    ensures
        r@ == "Hello, "@ + name@ + "! Welcome to ALPROJ GUI."@,
{
    let mut r = String::from_str("Hello, ");
    r.append(name);
    r.append("! Welcome to ALPROJ GUI.");
    r
}

} // verus!
