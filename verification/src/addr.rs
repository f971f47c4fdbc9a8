//! Plain-value model of a client's network endpoint.

use vstd::prelude::*;

verus! {

/// The network endpoint (IP address + port) of an external client, as
/// observed on the public socket. Immutable; used as a lookup key by the
/// session table. An IPv4 address is carried in the low 32 bits of `ip`
/// with `is_v6` false; an IPv6 address fills all 128 bits.
#[derive(Clone, Copy, PartialEq, Eq, Structural, Hash, Debug)]
pub struct ClientAddr {
    pub is_v6: bool,
    pub ip: u128,
    pub port: u16,
}

} // verus!
