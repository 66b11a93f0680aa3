//! Address decisions of the UDP endpoint: which targets are broadcast
//! addresses, which local address a client binds, and where a broadcast
//! client sends once a peer has answered.

use crate::dedup::{duration_as_nanos, duration_nanos};
use std::time::Duration;
use vstd::prelude::*;

verus! {

/// What the UDP endpoint reads of a socket address: the four octets of an
/// IPv4 address, or that it is IPv6.
#[derive(Debug, Clone, Copy)]
pub enum IpTarget {
    /// An IPv4 address, octets in network order.
    V4 {
        /// The address octets.
        octets: [u8; 4],
    },
    /// An IPv6 address.
    V6,
}

/// IPv4 addresses whose last octet is 255 (the global broadcast
/// 255.255.255.255 and the /24 subnet broadcasts); never IPv6, which has
/// no broadcast.
pub open spec fn is_broadcast_target(addr: IpTarget) -> bool {
    match addr {
        IpTarget::V4 { octets } => octets@ =~= seq![255u8, 255, 255, 255] || octets@[3] == 255,
        IpTarget::V6 => false,
    }
}

/// Whether `addr` is a broadcast address.
pub fn is_broadcast_addr(addr: &IpTarget) -> (r: bool)
    ensures
        r == is_broadcast_target(*addr),
{
    match addr {
        IpTarget::V4 { octets } => {
            let all = octets[0] == 255 && octets[1] == 255 && octets[2] == 255 && octets[3]
                == 255;
            assert(all ==> octets@ =~= seq![255u8, 255, 255, 255]);
            all || octets[3] == 255
        },
        IpTarget::V6 => false,
    }
}

/// Whether a broadcast client adopts the sender of a datagram as its
/// unicast peer: only in broadcast mode, and only for a sender that is
/// neither the broadcast target itself nor a broadcast address.
pub fn adopts_peer(broadcast_mode: bool, from_is_target: bool, from: &IpTarget) -> (r: bool)
    ensures
        r == (broadcast_mode && !from_is_target && !is_broadcast_target(*from)),
{
    broadcast_mode && !from_is_target && !is_broadcast_addr(from)
}

/// The local address a UDP client binds before sending to `target`: the
/// unspecified address of the target's family, port 0.
pub fn client_bind_addr(target: &IpTarget) -> (r: &'static str)
    ensures
        r@ == (if target is V4 {
            "0.0.0.0:0"@
        } else {
            "[::]:0"@
        }),
{
    match target {
        IpTarget::V4 { .. } => "0.0.0.0:0",
        IpTarget::V6 => "[::]:0",
    }
}

/// Where a broadcast client sends: to the peer that last answered while it
/// was heard from less than `timeout` ago, else to the broadcast address.
/// `peer` holds the peer's address and the time since it was last heard.
pub fn broadcast_send_target<A: Copy>(
    peer: Option<(A, Duration)>,
    broadcast_addr: A,
    timeout: &Duration,
) -> (r: A)
    ensures
        r == match peer {
            Some((addr, since)) => if duration_nanos(since) < duration_nanos(*timeout) {
                addr
            } else {
                broadcast_addr
            },
            None => broadcast_addr,
        },
{
    match peer {
        Some((addr, since)) => {
            if duration_as_nanos(&since) < duration_as_nanos(timeout) {
                addr
            } else {
                broadcast_addr
            }
        },
        None => broadcast_addr,
    }
}

/// Whether a server-mode client last heard from `since` ago stays in the
/// client table, whose entries live `ttl_secs` seconds: it stays while less
/// than the TTL has passed.
pub fn client_is_fresh(since: &Duration, ttl_secs: u64) -> (r: bool)
    ensures
        r == (duration_nanos(*since) < ttl_secs * 1_000_000_000),
{
    let ttl_nanos: u128 = (ttl_secs as u128) * 1_000_000_000;
    duration_as_nanos(since) < ttl_nanos
}

} // verus!
