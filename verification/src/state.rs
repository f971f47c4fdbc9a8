//! Mathematical model of the proxy: one state and two transitions.
//!
//! `step_packet` is what the forwarding loop does to the shared state for
//! each datagram received on the public socket; `step_tick` is one check of
//! the inactivity watchdog. The executable components prove that they
//! implement exactly these transitions, and the lemmas in this module state
//! the lifecycle laws of the proxy over them.

use vstd::prelude::*;
use crate::addr::ClientAddr;
use crate::sessions::{spec_session_slot, lemma_session_slot_props};

verus! {

/// The shared state of the proxy: backend liveness, the last-activity
/// clock, and the clients with a session, in creation order.
pub struct ProxyState {
    /// Whether a backend process is recorded as running.
    pub running: bool,
    /// Time of the most recent packet, or None when unset.
    pub last_activity: Option<u64>,
    /// Slot `i` holds the client that owns session `i`.
    pub clients: Seq<ClientAddr>,
}

/// Whether a packet arriving now must spawn the backend: exactly when none
/// is recorded as running.
pub open spec fn spawn_needed(s: ProxyState) -> bool {
    !s.running
}

/// Whether a packet from `addr` must create a session: exactly when `addr`
/// has none yet.
pub open spec fn session_needed(s: ProxyState, addr: ClientAddr) -> bool {
    !s.clients.contains(addr)
}

/// The state after the forwarding loop handles one datagram from `src` at
/// time `now`: activity is recorded unconditionally, the backend is
/// recorded as running, and `src` is given a session if it had none.
pub open spec fn step_packet(s: ProxyState, src: ClientAddr, now: u64) -> ProxyState {
    ProxyState {
        running: true,
        last_activity: Some(now),
        clients: if s.clients.contains(src) {
            s.clients
        } else {
            s.clients.push(src)
        },
    }
}

/// Whether a watchdog check at time `now` observes an expired idle
/// timeout: a packet was seen, and strictly more than `timeout` ticks have
/// passed since.
pub open spec fn tick_expired(s: ProxyState, now: u64, timeout: u64) -> bool {
    match s.last_activity {
        Some(t) => t <= now && now - t > timeout,
        None => false,
    }
}

/// The state after one watchdog check at time `now`: on an expired timeout
/// the backend is stopped and the clock is cleared, so the next packet
/// triggers a fresh start; otherwise nothing changes. Sessions are never
/// reclaimed.
pub open spec fn step_tick(s: ProxyState, now: u64, timeout: u64) -> ProxyState {
    if tick_expired(s, now, timeout) {
        ProxyState { running: false, last_activity: None, clients: s.clients }
    } else {
        s
    }
}

/// No two sessions belong to the same client.
pub open spec fn distinct_clients(s: ProxyState) -> bool {
    forall|i: int, j: int|
        0 <= i < j < s.clients.len() ==> s.clients[i] != s.clients[j]
}

/// The state in which the proxy starts: no backend, no activity, no
/// sessions.
pub open spec fn initial_state(s: ProxyState) -> bool {
    &&& !s.running
    &&& s.last_activity is None
    &&& s.clients == Seq::<ClientAddr>::empty()
}

/// The proxy starts with no duplicate sessions; with the two preservation
/// lemmas below, every reachable state has none.
pub proof fn lemma_initial_distinct(s: ProxyState)
    requires
        initial_state(s),
    ensures
        distinct_clients(s),
{
}

/// Handling a packet never creates a duplicate session: if every session
/// belongs to a distinct client, that still holds afterwards. Together
/// with `lemma_repeated_client_reuses_session` this is what keeps two
/// near-simultaneous first packets from one new address — serialized by
/// the table's lock — from leaving two listeners behind.
pub proof fn lemma_step_packet_keeps_distinct(s: ProxyState, src: ClientAddr, now: u64)
    requires
        distinct_clients(s),
    ensures
        distinct_clients(step_packet(s, src, now)),
{
    let c2 = step_packet(s, src, now).clients;
    if !s.clients.contains(src) {
        assert forall|i: int, j: int| 0 <= i < j < c2.len() implies c2[i] != c2[j] by {
            if j == c2.len() - 1 {
                assert(s.clients[i] == c2[i]);
                if c2[i] == src {
                    assert(s.clients.contains(src));
                }
            }
        }
    }
}

/// The watchdog never touches the session table.
pub proof fn lemma_step_tick_keeps_sessions(s: ProxyState, now: u64, timeout: u64)
    ensures
        step_tick(s, now, timeout).clients == s.clients,
        distinct_clients(s) ==> distinct_clients(step_tick(s, now, timeout)),
{
}

/// A session, once created, keeps belonging to the same client: no
/// transition moves or reclaims a slot, so the reply listener bound to
/// slot `i` forwards backend replies to the client that opened session `i`
/// for as long as the proxy runs.
pub proof fn lemma_sessions_are_stable(
    s: ProxyState,
    i: int,
    src: ClientAddr,
    now: u64,
    timeout: u64,
)
    requires
        0 <= i < s.clients.len(),
    ensures
        step_packet(s, src, now).clients[i] == s.clients[i],
        step_tick(s, now, timeout).clients[i] == s.clients[i],
{
}

/// Repeated packets from the same client address reuse the existing
/// session: after a first packet from `src`, a later packet from `src`
/// creates no session and is forwarded through the same slot.
pub proof fn lemma_repeated_client_reuses_session(
    s: ProxyState,
    src: ClientAddr,
    n1: u64,
    n2: u64,
)
    ensures
        !session_needed(step_packet(s, src, n1), src),
        step_packet(step_packet(s, src, n1), src, n2).clients == step_packet(
            s,
            src,
            n1,
        ).clients,
        spec_session_slot(step_packet(s, src, n1).clients, src) == spec_session_slot(
            s.clients,
            src,
        ),
{
    let c1 = step_packet(s, src, n1).clients;
    if s.clients.contains(src) {
        assert(c1 == s.clients);
    } else {
        assert(c1 == s.clients.push(src));
        assert(c1[s.clients.len() as int] == src);
        assert(c1.contains(src));
        lemma_session_slot_props(s.clients, src);
        lemma_session_slot_props(c1, src);
        let slot = spec_session_slot(c1, src);
        assert(forall|j: int| 0 <= j < s.clients.len() ==> c1[j] == s.clients[j]);
        if slot < s.clients.len() {
            assert(s.clients[slot] == src);
            assert(s.clients.contains(src));
        }
        assert(slot == s.clients.len());
    }
}

/// Two distinct client addresses get two distinct sessions, and a backend
/// reply arriving on one client's session is addressed to that client
/// alone: after packets from `a` and then `b`, the two slots differ and
/// each slot still names its own client.
pub proof fn lemma_distinct_clients_distinct_sessions(
    s: ProxyState,
    a: ClientAddr,
    b: ClientAddr,
    n1: u64,
    n2: u64,
)
    requires
        a != b,
    ensures
        ({
            let s1 = step_packet(s, a, n1);
            let s2 = step_packet(s1, b, n2);
            let slot_a = spec_session_slot(s1.clients, a);
            let slot_b = spec_session_slot(s2.clients, b);
            &&& slot_a != slot_b
            &&& 0 <= slot_a < s2.clients.len() && s2.clients[slot_a] == a
            &&& 0 <= slot_b < s2.clients.len() && s2.clients[slot_b] == b
        }),
{
    let s1 = step_packet(s, a, n1);
    let s2 = step_packet(s1, b, n2);
    assert(s1.clients.contains(a)) by {
        if !s.clients.contains(a) {
            assert(s1.clients[s.clients.len() as int] == a);
        }
    }
    assert(s2.clients.contains(b)) by {
        if !s1.clients.contains(b) {
            assert(s2.clients[s1.clients.len() as int] == b);
        }
    }
    assert(s2.clients.contains(a)) by {
        let k = choose|k: int| 0 <= k < s1.clients.len() && s1.clients[k] == a;
        assert(s2.clients[k] == a);
    }
    lemma_session_slot_props(s1.clients, a);
    lemma_session_slot_props(s2.clients, b);
    let slot_a = spec_session_slot(s1.clients, a);
    let slot_b = spec_session_slot(s2.clients, b);
    assert(s2.clients[slot_a] == a);
    assert(s2.clients[slot_b] == b);
    assert(spec_session_slot(s2.clients, a) == slot_a) by {
        lemma_session_slot_props(s2.clients, a);
        let slot2 = spec_session_slot(s2.clients, a);
        if slot2 < slot_a {
            assert(s1.clients[slot2] == s2.clients[slot2]);
        }
        if slot_a < slot2 {
            assert(s2.clients[slot_a] != a);
        }
    }
}

/// One idle period stops the backend exactly once, and the next packet
/// starts it exactly once: the check that observes the expiry stops the
/// backend and clears the clock; every further check before new traffic
/// finds the clock unset and does nothing; the first packet after that
/// demands exactly one spawn, and a second packet demands none.
pub proof fn lemma_idle_period_stops_once(
    s: ProxyState,
    timeout: u64,
    n1: u64,
    n2: u64,
    src: ClientAddr,
    n3: u64,
    src2: ClientAddr,
    n4: u64,
)
    requires
        tick_expired(s, n1, timeout),
    ensures
        ({
            let s1 = step_tick(s, n1, timeout);
            let s2 = step_tick(s1, n2, timeout);
            let s3 = step_packet(s2, src, n3);
            let s4 = step_packet(s3, src2, n4);
            &&& !s1.running && s1.last_activity is None
            &&& !tick_expired(s1, n2, timeout) && s2 == s1
            &&& spawn_needed(s2) && s3.running
            &&& !spawn_needed(s3) && s4.running
        }),
{
}

/// The watchdog never stops the backend before the timeout has elapsed:
/// while at most `timeout` ticks have passed since the last packet, a
/// check changes nothing.
pub proof fn lemma_no_stop_before_timeout(s: ProxyState, t: u64, now: u64, timeout: u64)
    requires
        s.last_activity == Some(t),
        t <= now,
        now - t <= timeout,
    ensures
        !tick_expired(s, now, timeout),
        step_tick(s, now, timeout) == s,
{
}

/// A packet spawns the backend only when none is recorded: while one is
/// recorded — live or still warming up — packets demand no further spawn.
pub proof fn lemma_no_duplicate_spawn(s: ProxyState, src: ClientAddr, now: u64)
    requires
        s.running,
    ensures
        !spawn_needed(s),
        step_packet(s, src, now).running,
{
}

} // verus!
