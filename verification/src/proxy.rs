//! The proxy core: the decisions of the forwarding loop and of the
//! inactivity watchdog, proved to implement the transitions of
//! [`crate::state`].
//!
//! The caller owns the sockets, the threads and the backend process; it
//! holds this core behind a lock, feeds it one event at a time — a datagram
//! from the public socket, or a watchdog check — and performs exactly the
//! actions each outcome demands.

use vstd::prelude::*;
use crate::activity::ActivityClock;
use crate::addr::ClientAddr;
use crate::sessions::{SessionTable, spec_session_slot};
use crate::state::{ProxyState, step_packet, step_tick, tick_expired, spawn_needed};
use crate::supervisor::Supervisor;

verus! {

/// Seconds of silence after which the backend is stopped.
pub const TIMEOUT_SECS: u64 = 200;

/// Seconds between two watchdog checks; materially smaller than the
/// timeout so the excess idle time before shutdown stays bounded.
pub const CHECK_INTERVAL_SECS: u64 = 30;

/// Seconds the forwarding loop waits after spawning the backend, so that
/// the backend can bind its socket before traffic reaches it.
pub const WARMUP_SECS: u64 = 6;

/// Size of the datagram receive buffers, on both forwarding directions.
pub const BUFFER_SIZE: usize = 65535;

/// Milliseconds both poll loops sleep after an empty non-blocking read.
pub const POLL_SLEEP_MILLIS: u64 = 100;

/// What the forwarding loop must do for one received datagram.
pub struct PacketOutcome {
    /// Spawn the backend process, then wait out the warm-up interval.
    pub spawn: bool,
    /// Bind a fresh return socket for this client and start its reply
    /// listener.
    pub create_session: bool,
    /// Forward the datagram's bytes to the backend through this session's
    /// socket.
    pub session: usize,
}

/// The shared state of the proxy, one exec component per model field.
pub struct ProxyCore {
    pub supervisor: Supervisor,
    pub activity: ActivityClock,
    pub sessions: SessionTable,
}

impl ProxyCore {
    /// The model state this core is in.
    pub open spec fn view(&self) -> ProxyState {
        ProxyState {
            running: self.supervisor.running,
            last_activity: self.activity.last,
            clients: self.sessions@,
        }
    }

    /// A fresh core: no backend, no activity, no sessions.
    pub fn new() -> (c: Self)
        ensures
            crate::state::initial_state(c@),
    {
        let c = ProxyCore {
            supervisor: Supervisor::new(),
            activity: ActivityClock::new(),
            sessions: SessionTable::new(),
        };
        proof {
            assert(c@.clients =~= Seq::<ClientAddr>::empty());
        }
        c
    }

    /// Handle one datagram received from `src` at time `now`: record the
    /// activity, demand a backend spawn if none is recorded, and resolve
    /// the client's session, creating it if this is the first packet from
    /// `src`. The caller then forwards the exact received bytes through
    /// session `session` to the backend address.
    pub fn handle_packet(&mut self, src: ClientAddr, now: u64) -> (o: PacketOutcome)
        ensures
            final(self)@ == step_packet(old(self)@, src, now),
            o.spawn == spawn_needed(old(self)@),
            o.create_session == crate::state::session_needed(old(self)@, src),
            o.session as int == spec_session_slot(old(self)@.clients, src),
            o.session < final(self)@.clients.len(),
            final(self)@.clients[o.session as int] == src,
    {
        self.activity.record(now);
        let spawn = self.supervisor.ensure_started();
        let (session, created) = self.sessions.get_or_create(src);
        PacketOutcome { spawn, create_session: created, session }
    }

    /// Run one watchdog check at time `now`. Returns true exactly when the
    /// caller must stop the backend process now — signal it and wait for
    /// its exit: that happens only when the idle timeout expired and a
    /// process was recorded, so one idle period stops the backend at most
    /// once.
    pub fn watchdog_check(&mut self, now: u64, timeout: u64) -> (stop: bool)
        ensures
            final(self)@ == step_tick(old(self)@, now, timeout),
            stop == (tick_expired(old(self)@, now, timeout) && old(self)@.running),
    {
        if self.activity.expired(now, timeout) {
            self.activity.clear();
            self.supervisor.stop()
        } else {
            false
        }
    }

    /// The client that backend replies received on `session`'s socket must
    /// be forwarded to.
    pub fn reply_target(&self, session: usize) -> (a: ClientAddr)
        requires
            session < self@.clients.len(),
        ensures
            a == self@.clients[session as int],
    {
        self.sessions.client_of(session)
    }
}

/// The exact bytes of a datagram read into a fixed-size buffer: the first
/// `len` bytes, unmodified. Both forwarding directions hand exactly this
/// to their send, so payloads cross the proxy byte for byte.
pub fn datagram_bytes(buf: &[u8], len: usize) -> (r: Vec<u8>)
    requires
        len <= buf.len(),
    ensures
        r@ == buf@.subrange(0, len as int),
{
    let mut r: Vec<u8> = Vec::new();
    let mut i: usize = 0;
    while i < len
        invariant
            i <= len,
            len <= buf.len(),
            r@ == buf@.subrange(0, i as int),
        decreases len - i,
    {
        r.push(buf[i]);
        proof {
            assert(r@ =~= buf@.subrange(0, i + 1));
        }
        i += 1;
    }
    r
}

} // verus!
