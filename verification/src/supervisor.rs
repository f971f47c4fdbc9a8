//! Process supervisor: owns the start-on-demand / stop-on-idle lifecycle of
//! the single backend server process.
//!
//! The supervisor records whether a backend process is currently live; the
//! actual spawn, signal and wait are operating-system effects that the caller
//! performs exactly when a transition demands them. At most one backend is
//! recorded as running, and no new start is demanded while one is recorded.

use vstd::prelude::*;

verus! {

/// Lifecycle state of the (at most one) backend server process.
#[derive(Clone, Copy, PartialEq, Eq, Structural, Debug)]
pub struct Supervisor {
    /// Whether a backend process is currently recorded as running.
    pub running: bool,
}

impl Supervisor {
    /// A fresh supervisor with no backend recorded.
    pub fn new() -> (s: Self)
        ensures
            !s.running,
    {
        Supervisor { running: false }
    }

    /// Demand that the backend be running. Returns true exactly when the
    /// caller must spawn the backend process now: that happens only if no
    /// process was recorded, so a recorded process is never spawned twice.
    /// The new handle is recorded immediately, so that packets arriving
    /// during the warm-up interval do not demand a duplicate spawn.
    pub fn ensure_started(&mut self) -> (spawn: bool)
        ensures
            final(self).running,
            spawn == !old(self).running,
    {
        let spawn = !self.running;
        self.running = true;
        spawn
    }

    /// Demand that the backend be stopped. Returns true exactly when the
    /// caller must signal the recorded process and wait for its exit; the
    /// handle is cleared, so a second stop demands nothing.
    pub fn stop(&mut self) -> (signal: bool)
        ensures
            !final(self).running,
            signal == old(self).running,
    {
        let signal = self.running;
        self.running = false;
        signal
    }
}

} // verus!
