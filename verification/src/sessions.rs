//! Client session table: maps each distinct client address to a dedicated
//! session slot, in creation order.
//!
//! A session stands for the forwarding state of one client: a dedicated
//! return socket and its background reply listener, both created by the
//! caller exactly when a lookup reports that the address is new. Sessions
//! are never removed while the proxy runs, so a slot, once handed out,
//! stays valid and keeps denoting the same client.

use vstd::prelude::*;
use crate::addr::ClientAddr;

verus! {

/// The slot of `addr` in `clients`: the index of its first occurrence, or
/// `clients.len()` when it does not occur (the slot a new session would
/// take).
pub open spec fn spec_session_slot(clients: Seq<ClientAddr>, addr: ClientAddr) -> int
    decreases clients.len(),
{
    if clients.len() == 0 {
        0
    } else if clients[0] == addr {
        0
    } else {
        1 + spec_session_slot(clients.drop_first(), addr)
    }
}

/// What the slot of an address means: it is the first occurrence of the
/// address when the address is present, and the length of the table when
/// it is not.
pub proof fn lemma_session_slot_props(clients: Seq<ClientAddr>, addr: ClientAddr)
    ensures
        0 <= spec_session_slot(clients, addr) <= clients.len(),
        clients.contains(addr) <==> spec_session_slot(clients, addr) < clients.len(),
        clients.contains(addr) ==> clients[spec_session_slot(clients, addr)] == addr,
        forall|j: int| 0 <= j < spec_session_slot(clients, addr) ==> clients[j] != addr,
    decreases clients.len(),
{
    if clients.len() > 0 && clients[0] != addr {
        let rest = clients.drop_first();
        lemma_session_slot_props(rest, addr);
        assert(clients.contains(addr) <==> rest.contains(addr)) by {
            if clients.contains(addr) {
                let k = choose|k: int| 0 <= k < clients.len() && clients[k] == addr;
                assert(rest[k - 1] == addr);
            }
            if rest.contains(addr) {
                let k = choose|k: int| 0 <= k < rest.len() && rest[k] == addr;
                assert(clients[k + 1] == addr);
            }
        }
        assert forall|j: int| 0 <= j < spec_session_slot(clients, addr) implies clients[j]
            != addr by {
            if j > 0 {
                assert(rest[j - 1] == clients[j]);
            }
        }
    }
}

/// The table of live client sessions. Slot `i` belongs to the `i`-th
/// distinct client address ever observed.
pub struct SessionTable {
    clients: Vec<ClientAddr>,
}

impl SessionTable {
    /// The clients with a session, in creation order.
    pub closed spec fn view(&self) -> Seq<ClientAddr> {
        self.clients@
    }

    /// An empty table.
    pub fn new() -> (t: Self)
        ensures
            t@ == Seq::<ClientAddr>::empty(),
    {
        SessionTable { clients: Vec::new() }
    }

    /// How many sessions exist.
    pub fn len(&self) -> (n: usize)
        ensures
            n == self@.len(),
    {
        self.clients.len()
    }

    /// Look `addr` up; if absent, create a session for it in the next free
    /// slot. Returns the slot and whether it was created just now: the
    /// caller binds a fresh return socket and starts the reply listener
    /// exactly in that case, so each address gets at most one listener.
    pub fn get_or_create(&mut self, addr: ClientAddr) -> (r: (usize, bool))
        ensures
            r.1 == !old(self)@.contains(addr),
            r.1 ==> final(self)@ == old(self)@.push(addr),
            !r.1 ==> final(self)@ == old(self)@,
            r.0 as int == spec_session_slot(old(self)@, addr),
            r.0 < final(self)@.len(),
            final(self)@[r.0 as int] == addr,
    {
        let n = self.clients.len();
        let mut i: usize = 0;
        while i < n
            invariant
                *self == *old(self),
                n == self.clients.len(),
                i <= n,
                forall|j: int| 0 <= j < i ==> self.clients@[j] != addr,
            decreases n - i,
        {
            if self.clients[i] == addr {
                proof {
                    lemma_session_slot_props(self@, addr);
                    let slot = spec_session_slot(self@, addr);
                    assert(self@.contains(addr)) by {
                        assert(self@[i as int] == addr);
                    }
                    if slot < i {
                        assert(self@[slot] != addr);
                    }
                }
                return (i, false);
            }
            i += 1;
        }
        proof {
            lemma_session_slot_props(self@, addr);
            assert(!self@.contains(addr));
        }
        self.clients.push(addr);
        (n, true)
    }

    /// The client that session `session` belongs to: the target of every
    /// backend reply received on that session's socket.
    pub fn client_of(&self, session: usize) -> (a: ClientAddr)
        requires
            session < self@.len(),
        ensures
            a == self@[session as int],
    {
        self.clients[session]
    }
}

} // verus!
