//! Shared last-activity clock read by the inactivity watchdog.
//!
//! A single timestamp, overwritten every time any packet arrives from any
//! client; it represents last-observed liveness of the proxy as a whole,
//! not per-client liveness. While it is unset the watchdog is inert.

use vstd::prelude::*;

verus! {

/// The shared "last packet seen" timestamp. Times are plain ticks of a
/// monotonic clock; the caller picks the unit and uses the same unit for
/// the idle timeout.
#[derive(Clone, Copy, PartialEq, Eq, Structural, Debug)]
pub struct ActivityClock {
    /// Time of the most recent packet, or None when no packet has been
    /// seen since startup or since the last idle shutdown.
    pub last: Option<u64>,
}

/// Whether the idle timeout has elapsed: a packet was seen, and strictly
/// more than `timeout` ticks have passed since. A reading that lies before
/// the recorded timestamp (impossible with a monotonic clock) counts as no
/// elapsed time at all.
pub open spec fn spec_idle_expired(clock: ActivityClock, now: u64, timeout: u64) -> bool {
    match clock.last {
        Some(t) => t <= now && now - t > timeout,
        None => false,
    }
}

impl ActivityClock {
    /// A fresh clock with no activity recorded.
    pub fn new() -> (c: Self)
        ensures
            c.last is None,
    {
        ActivityClock { last: None }
    }

    /// Record that a packet arrived at time `now`.
    pub fn record(&mut self, now: u64)
        ensures
            final(self).last == Some(now),
    {
        self.last = Some(now);
    }

    /// Forget the recorded activity, leaving the watchdog inert until the
    /// next packet.
    pub fn clear(&mut self)
        ensures
            final(self).last is None,
    {
        self.last = None;
    }

    /// Whether the idle timeout has expired at time `now`.
    pub fn expired(&self, now: u64, timeout: u64) -> (r: bool)
        ensures
            r == spec_idle_expired(*self, now, timeout),
    {
        match self.last {
            Some(t) => t <= now && now - t > timeout,
            None => false,
        }
    }
}

} // verus!
