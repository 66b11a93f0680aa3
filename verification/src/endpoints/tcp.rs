//! Admission of ground-station clients by the TCP server endpoint.

use vstd::prelude::*;

verus! {

/// Most clients a TCP server serves at once.
pub const MAX_TCP_CLIENTS: usize = 100;

/// Endpoint id of the first accepted TCP client; later clients count up
/// from it, clear of the configured endpoints' ids.
pub const FIRST_TCP_CLIENT_ID: usize = 10000;

/// Whether a new connection is accepted while `active` clients are served.
pub fn admits_client(active: usize) -> (r: bool)
    ensures
        r == (active < MAX_TCP_CLIENTS),
{
    active < MAX_TCP_CLIENTS
}

} // verus!
