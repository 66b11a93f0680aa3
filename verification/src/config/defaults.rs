//! Default values of configuration fields that the TOML may leave out.

use super::endpoint::EndpointMode;
use vstd::prelude::*;

verus! {

/// Default message-bus capacity.
pub fn default_bus_capacity() -> (r: usize)
    ensures
        r == 5000,
{
    5000
}

/// Default time-to-live of routing-table entries, in seconds.
pub fn default_routing_table_ttl_secs() -> (r: u64)
    ensures
        r == 300,
{
    300
}

/// Default interval between routing-table prunes, in seconds.
pub fn default_routing_table_prune_interval_secs() -> (r: u64)
    ensures
        r == 60,
{
    60
}

/// Default retention of the stats history, in seconds (24 hours).
pub fn default_stats_retention_secs() -> (r: u64)
    ensures
        r == 86400,
{
    86400
}

/// Default stats sampling interval, in seconds.
pub fn default_stats_sample_interval_secs() -> (r: u64)
    ensures
        r == 1,
{
    1
}

/// Default stats logging interval, in seconds.
pub fn default_stats_log_interval_secs() -> (r: u64)
    ensures
        r == 60,
{
    60
}

/// Default timeout before a broadcast UDP client reverts from its unicast
/// peer to broadcast, in seconds.
pub fn default_broadcast_timeout_secs() -> (r: u64)
    ensures
        r == 5,
{
    5
}

/// Default mode of a UDP endpoint: server.
pub fn default_mode_server() -> (r: EndpointMode)
    ensures
        r == EndpointMode::Server,
{
    EndpointMode::Server
}

/// Default mode of a TCP endpoint: client.
pub fn default_mode_client() -> (r: EndpointMode)
    ensures
        r == EndpointMode::Client,
{
    EndpointMode::Client
}

} // verus!
