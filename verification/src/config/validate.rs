//! Configuration-wide validation: endpoint addresses and duplicate ports,
//! baud-rate bounds, message-id filter bounds, and `[general]` bounds.

use super::endpoint::{BaudRate, EndpointConfig};
use super::socket_addr::{parse_socket_addr_port, socket_addr_port};
use super::Config;
use crate::error::RouterError;
use crate::text::{decimal, push_decimal, push_text, string_from_chars};
use crate::filter::{msg_id_items, msg_id_set_to_vec, EndpointFilters};
use ahash::AHashSet;
use std::collections::HashSet;
use vstd::prelude::*;

verus! {

broadcast use vstd::std_specs::hash::group_hash_axioms;

/// The port of a TCP endpoint (`tcp`) or UDP endpoint (`!tcp`) whose
/// address parses; `None` for other endpoints.
pub open spec fn net_port(e: EndpointConfig, tcp: bool) -> Option<u16> {
    match e {
        EndpointConfig::Tcp { address, .. } => if tcp {
            socket_addr_port(address@)
        } else {
            None
        },
        EndpointConfig::Udp { address, .. } => if !tcp {
            socket_addr_port(address@)
        } else {
            None
        },
        EndpointConfig::Serial { .. } => None,
    }
}

/// Whether every message id of a set is at most 65535.
pub open spec fn msg_ids_in_range(s: Set<u32>) -> bool {
    forall|id: u32| s.contains(id) ==> id <= 65535
}

/// Whether the four message-id lists of a filter stay within 0..=65535.
pub open spec fn filter_ids_in_range(f: EndpointFilters) -> bool {
    &&& msg_ids_in_range(msg_id_items(f.allow_msg_id_out))
    &&& msg_ids_in_range(msg_id_items(f.block_msg_id_out))
    &&& msg_ids_in_range(msg_id_items(f.allow_msg_id_in))
    &&& msg_ids_in_range(msg_id_items(f.block_msg_id_in))
}

/// Whether a baud rate is within 300..=4_000_000.
pub open spec fn baud_in_range(r: u32) -> bool {
    300 <= r <= 4_000_000
}

impl Config {
    /// Whether `p` is already taken for the protocol before endpoint `i`:
    /// by the general TCP port (for TCP) or by an earlier endpoint.
    pub open spec fn port_taken_before(&self, tcp: bool, i: int, p: u16) -> bool {
        ||| tcp && self.general.tcp_port == Some(p)
        ||| exists|j: int| 0 <= j < i && net_port(#[trigger] self.endpoint@[j], tcp) == Some(p)
    }

    /// Whether endpoint `i` passes its checks: a network endpoint's address
    /// parses and its port is not taken earlier for the same protocol; a
    /// serial endpoint has at least one baud rate and all within
    /// 300..=4_000_000; and its message-id filters stay within 0..=65535.
    pub open spec fn endpoint_ok_at(&self, i: int) -> bool {
        &&& match self.endpoint@[i] {
            EndpointConfig::Tcp { address, .. } => match socket_addr_port(address@) {
                Some(p) => !self.port_taken_before(true, i, p),
                None => false,
            },
            EndpointConfig::Udp { address, .. } => match socket_addr_port(address@) {
                Some(p) => !self.port_taken_before(false, i, p),
                None => false,
            },
            EndpointConfig::Serial { baud, .. } => rates_ok(baud),
        }
        &&& filter_ids_in_range(self.endpoint@[i].filters_field())
    }

    /// Whether the configuration passes validation.
    pub open spec fn valid(&self) -> bool {
        &&& forall|i: int| 0 <= i < self.endpoint@.len() ==> #[trigger] self.endpoint_ok_at(i)
        &&& 10 <= self.general.bus_capacity <= 1_000_000
        &&& self.general.routing_table_prune_interval_secs != 0
    }

    /// Checks the configuration for duplicate ports (per protocol, the
    /// general TCP port included), unparsable endpoint addresses, empty or
    /// out-of-range baud rates, message ids above 65535 in filters, a bus
    /// capacity outside 10..=1_000_000, and a zero prune interval.
    pub fn validate(&self) -> (r: Result<(), RouterError>)
        ensures
            r is Ok == self.valid(),
            r matches Err(e) ==> e.is_validation(),
    {
        let mut tcp_ports: HashSet<u16> = HashSet::new();
        let mut udp_ports: HashSet<u16> = HashSet::new();
        if let Some(p) = self.general.tcp_port {
            tcp_ports.insert(p);
        }
        let mut i: usize = 0;
        while i < self.endpoint.len()
            invariant
                i <= self.endpoint@.len(),
                forall|j: int| 0 <= j < i ==> #[trigger] self.endpoint_ok_at(j),
                forall|p: u16| tcp_ports@.contains(p) == self.port_taken_before(true, i as int, p),
                forall|p: u16| udp_ports@.contains(p) == self.port_taken_before(false, i as int, p),
            decreases self.endpoint@.len() - i,
        {
            let ghost tcp0 = tcp_ports@;
            let ghost udp0 = udp_ports@;
            let e = &self.endpoint[i];
            proof {
                lemma_fits_is_ok_at(*self, i as int, tcp0, udp0);
            }
            validate_endpoint(i, e, &mut tcp_ports, &mut udp_ports)?;
            check_filter_ids(i, endpoint_filters(e))?;
            proof {
                lemma_ports_step(*self, true, i as int, tcp0, tcp_ports@);
                lemma_ports_step(*self, false, i as int, udp0, udp_ports@);
            }
            i = i + 1;
        }
        if self.general.bus_capacity < 10 {
            return Err(number_error("bus_capacity too small: ", self.general.bus_capacity as u64));
        }
        if self.general.bus_capacity > 1_000_000 {
            return Err(
                numbered_error(
                    "bus_capacity too large: ",
                    self.general.bus_capacity as u64,
                    " (must be <= 1000000)",
                ),
            );
        }
        if self.general.routing_table_prune_interval_secs == 0 {
            return Err(RouterError::config("routing_table_prune_interval_secs must be greater than 0"));
        }
        Ok(())
    }
}

/// Whether endpoint `e` passes the checks of its kind, given the ports
/// already taken for TCP and for UDP: a network endpoint's address parses
/// and its port is not taken for its protocol; a serial endpoint has
/// acceptable baud rates (see [`rates_ok`]).
pub open spec fn endpoint_fits(e: EndpointConfig, tcp: Set<u16>, udp: Set<u16>) -> bool {
    match e {
        EndpointConfig::Tcp { address, .. } => match socket_addr_port(address@) {
            Some(p) => !tcp.contains(p),
            None => false,
        },
        EndpointConfig::Udp { address, .. } => match socket_addr_port(address@) {
            Some(p) => !udp.contains(p),
            None => false,
        },
        EndpointConfig::Serial { baud, .. } => rates_ok(baud),
    }
}

/// The first rate of a list outside 300..=4_000_000, if any.
pub open spec fn first_bad_rate(rates: Seq<u32>) -> Option<u32>
    decreases rates.len(),
{
    if rates.len() == 0 {
        None
    } else if !baud_in_range(rates[0]) {
        Some(rates[0])
    } else {
        first_bad_rate(rates.drop_first())
    }
}

/// The message of a failed endpoint check (endpoint `i`).
pub open spec fn endpoint_error_text(i: nat, e: EndpointConfig, tcp: Set<u16>, udp: Set<u16>) -> Seq<
    char,
> {
    match e {
        EndpointConfig::Tcp { address, .. } => match socket_addr_port(address@) {
            None => "Invalid address in endpoint "@ + decimal(i) + ": "@ + address@
                + " (invalid socket address syntax)"@,
            Some(p) => "Duplicate TCP port "@ + decimal(p as nat) + " in endpoint "@ + decimal(i),
        },
        EndpointConfig::Udp { address, .. } => match socket_addr_port(address@) {
            None => "Invalid address in endpoint "@ + decimal(i) + ": "@ + address@
                + " (invalid socket address syntax)"@,
            Some(p) => "Duplicate UDP port "@ + decimal(p as nat) + " in endpoint "@ + decimal(i),
        },
        EndpointConfig::Serial { baud, .. } => if baud.rate_list().len() == 0 {
            "Empty baud rate list in endpoint "@ + decimal(i)
        } else {
            "Invalid baud rate in endpoint "@ + decimal(i) + ": "@ + decimal(
                first_bad_rate(baud.rate_list()).unwrap() as nat,
            ) + " (must be 300-4000000)"@
        },
    }
}

/// A validation error whose message is `a`, the decimal `n`, then `b`.
fn numbered_error(a: &str, n: u64, b: &str) -> (e: RouterError)
    ensures
        e.is_validation(),
        e.is_validation_with(a@ + decimal(n as nat) + b@),
{
    let mut out: Vec<char> = Vec::new();
    push_text(&mut out, a);
    push_decimal(&mut out, n);
    push_text(&mut out, b);
    let text = string_from_chars(out.as_slice());
    RouterError::config(text.as_str())
}

/// A validation error whose message is `a` then the decimal `n`.
fn number_error(a: &str, n: u64) -> (e: RouterError)
    ensures
        e.is_validation(),
        e.is_validation_with(a@ + decimal(n as nat)),
{
    let mut out: Vec<char> = Vec::new();
    push_text(&mut out, a);
    push_decimal(&mut out, n);
    let text = string_from_chars(out.as_slice());
    RouterError::config(text.as_str())
}

/// A validation error whose message is `a`, `n`, `b`, then `m`.
fn two_number_error(a: &str, n: u64, b: &str, m: u64) -> (e: RouterError)
    ensures
        e.is_validation(),
        e.is_validation_with(a@ + decimal(n as nat) + b@ + decimal(m as nat)),
{
    let mut out: Vec<char> = Vec::new();
    push_text(&mut out, a);
    push_decimal(&mut out, n);
    push_text(&mut out, b);
    push_decimal(&mut out, m);
    let text = string_from_chars(out.as_slice());
    RouterError::config(text.as_str())
}

/// Checks the address or baud rates of endpoint `i` and records its port
/// among those taken for its protocol. On success the endpoint's port (if
/// it has one) is added to the set of its protocol; on failure neither
/// set changes.
fn validate_endpoint(
    i: usize,
    endpoint: &EndpointConfig,
    tcp_ports: &mut HashSet<u16>,
    udp_ports: &mut HashSet<u16>,
) -> (r: Result<(), RouterError>)
    ensures
        r is Ok == endpoint_fits(*endpoint, old(tcp_ports)@, old(udp_ports)@),
        r matches Err(e) ==> e.is_validation(),
        r matches Err(e) ==> e.is_validation_with(
            endpoint_error_text(i as nat, *endpoint, old(tcp_ports)@, old(udp_ports)@),
        ),
        r is Ok ==> final(tcp_ports)@ == match net_port(*endpoint, true) {
            Some(p) => old(tcp_ports)@.insert(p),
            None => old(tcp_ports)@,
        },
        r is Ok ==> final(udp_ports)@ == match net_port(*endpoint, false) {
            Some(p) => old(udp_ports)@.insert(p),
            None => old(udp_ports)@,
        },
        r is Err ==> final(tcp_ports)@ == old(tcp_ports)@ && final(udp_ports)@ == old(udp_ports)@,
{
    match endpoint {
        EndpointConfig::Tcp { address, .. } | EndpointConfig::Udp { address, .. } => {
            let tcp = match endpoint {
                EndpointConfig::Tcp { .. } => true,
                _ => false,
            };
            let p = match parse_socket_addr_port(address.as_str()) {
                Some(p) => p,
                None => {
                    let mut out: Vec<char> = Vec::new();
                    push_text(&mut out, "Invalid address in endpoint ");
                    push_decimal(&mut out, i as u64);
                    push_text(&mut out, ": ");
                    push_text(&mut out, address.as_str());
                    push_text(&mut out, " (invalid socket address syntax)");
                    let text = string_from_chars(out.as_slice());
                    return Err(RouterError::config(text.as_str()));
                },
            };
            if tcp {
                if tcp_ports.contains(&p) {
                    return Err(
                        two_number_error("Duplicate TCP port ", p as u64, " in endpoint ", i as u64),
                    );
                }
                tcp_ports.insert(p);
            } else {
                if udp_ports.contains(&p) {
                    return Err(
                        two_number_error("Duplicate UDP port ", p as u64, " in endpoint ", i as u64),
                    );
                }
                udp_ports.insert(p);
            }
        },
        EndpointConfig::Serial { baud, .. } => {
            let rates = baud.rates();
            if rates.len() == 0 {
                return Err(number_error("Empty baud rate list in endpoint ", i as u64));
            }
            match find_bad_rate(rates) {
                Some(rate) => {
                    let mut out: Vec<char> = Vec::new();
                    push_text(&mut out, "Invalid baud rate in endpoint ");
                    push_decimal(&mut out, i as u64);
                    push_text(&mut out, ": ");
                    push_decimal(&mut out, rate as u64);
                    push_text(&mut out, " (must be 300-4000000)");
                    let text = string_from_chars(out.as_slice());
                    return Err(RouterError::config(text.as_str()));
                },
                None => {},
            }
        },
    }
    Ok(())
}

/// The first rate outside 300..=4_000_000 (see [`first_bad_rate`]).
fn find_bad_rate(rates: &[u32]) -> (r: Option<u32>)
    ensures
        r == first_bad_rate(rates@),
        r is None == forall|k: int| 0 <= k < rates@.len() ==> baud_in_range(#[trigger] rates@[k]),
{
    let mut k: usize = 0;
    assert(rates@.skip(0) =~= rates@);
    while k < rates.len()
        invariant
            k <= rates@.len(),
            forall|t: int| 0 <= t < k ==> baud_in_range(#[trigger] rates@[t]),
            first_bad_rate(rates@) == first_bad_rate(rates@.skip(k as int)),
        decreases rates@.len() - k,
    {
        let ghost rest = rates@.skip(k as int);
        assert(rest.drop_first() =~= rates@.skip(k + 1));
        if rates[k] < 300 || rates[k] > 4_000_000 {
            return Some(rates[k]);
        }
        k = k + 1;
    }
    assert(rates@.skip(k as int).len() == 0);
    None
}

/// The filter lists of an endpoint.
fn endpoint_filters(e: &EndpointConfig) -> (f: &EndpointFilters)
    ensures
        *f == e.filters_field(),
{
    match e {
        EndpointConfig::Udp { filters, .. } => filters,
        EndpointConfig::Tcp { filters, .. } => filters,
        EndpointConfig::Serial { filters, .. } => filters,
    }
}

/// The message of a message id above 65535 in list `kind` of endpoint `i`.
pub open spec fn filter_id_error_text(kind: Seq<char>, i: nat, id: u32) -> Seq<char> {
    "Invalid "@ + kind + " msg_id in endpoint "@ + decimal(i) + ": "@ + decimal(id as nat)
        + " (must be <= 65535)"@
}

/// Checks one message-id list of endpoint `i`.
fn check_id_list(i: usize, ids: &AHashSet<u32>, kind: &str) -> (r: Result<(), RouterError>)
    ensures
        r is Ok == msg_ids_in_range(msg_id_items(*ids)),
        r matches Err(e) ==> e.is_validation() && exists|id: u32|
            id > 65535 && msg_id_items(*ids).contains(id) && e.is_validation_with(
                filter_id_error_text(kind@, i as nat, id),
            ),
{
    match id_over_limit(ids) {
        None => Ok(()),
        Some(id) => {
            let mut out: Vec<char> = Vec::new();
            push_text(&mut out, "Invalid ");
            push_text(&mut out, kind);
            push_text(&mut out, " msg_id in endpoint ");
            push_decimal(&mut out, i as u64);
            push_text(&mut out, ": ");
            push_decimal(&mut out, id as u64);
            push_text(&mut out, " (must be <= 65535)");
            assert(out@ =~= filter_id_error_text(kind@, i as nat, id));
            let text = string_from_chars(out.as_slice());
            Err(RouterError::config(text.as_str()))
        },
    }
}

/// Checks that the message-id filters of endpoint `i` stay within
/// 0..=65535, list by list (`allow_out`, `block_out`, `allow_in`,
/// `block_in`).
fn check_filter_ids(i: usize, f: &EndpointFilters) -> (r: Result<(), RouterError>)
    ensures
        r is Ok == filter_ids_in_range(*f),
        r matches Err(e) ==> e.is_validation(),
{
    check_id_list(i, &f.allow_msg_id_out, "allow_out")?;
    check_id_list(i, &f.block_msg_id_out, "block_out")?;
    check_id_list(i, &f.allow_msg_id_in, "allow_in")?;
    check_id_list(i, &f.block_msg_id_in, "block_in")?;
    Ok(())
}

/// With the port lists matching the ports taken before endpoint `i`, the
/// endpoint passes [`Config::endpoint_ok_at`] exactly when it fits and its
/// filters are in range.
proof fn lemma_fits_is_ok_at(c: Config, i: int, tcp: Set<u16>, udp: Set<u16>)
    requires
        0 <= i < c.endpoint@.len(),
        forall|p: u16| tcp.contains(p) == c.port_taken_before(true, i, p),
        forall|p: u16| udp.contains(p) == c.port_taken_before(false, i, p),
    ensures
        c.endpoint_ok_at(i) == (endpoint_fits(c.endpoint@[i], tcp, udp) && filter_ids_in_range(
            c.endpoint@[i].filters_field(),
        )),
{
}

/// Whether a serial endpoint's rates are acceptable: at least one, each
/// within 300..=4_000_000.
pub open spec fn rates_ok(b: BaudRate) -> bool {
    &&& b.rate_list().len() > 0
    &&& forall|k: int| 0 <= k < b.rate_list().len() ==> baud_in_range(#[trigger] b.rate_list()[k])
}

/// Decides [`rates_ok`].
fn rates_in_range(b: &BaudRate) -> (r: bool)
    ensures
        r == rates_ok(*b),
{
    let rates = b.rates();
    if rates.len() == 0 {
        return false;
    }
    let mut k: usize = 0;
    while k < rates.len()
        invariant
            k <= rates@.len(),
            rates@ == b.rate_list(),
            forall|t: int| 0 <= t < k ==> baud_in_range(#[trigger] rates@[t]),
        decreases rates@.len() - k,
    {
        if rates[k] < 300 || rates[k] > 4_000_000 {
            assert(!baud_in_range(b.rate_list()[k as int]));
            return false;
        }
        k = k + 1;
    }
    true
}

/// The ports recorded after checking endpoint `i` are those taken before
/// endpoint `i + 1`.
proof fn lemma_ports_step(c: Config, tcp: bool, i: int, before: Set<u16>, after: Set<u16>)
    requires
        0 <= i < c.endpoint@.len(),
        forall|p: u16| before.contains(p) == c.port_taken_before(tcp, i, p),
        after == match net_port(c.endpoint@[i], tcp) {
            Some(p) => before.insert(p),
            None => before,
        },
    ensures
        forall|p: u16| after.contains(p) == c.port_taken_before(tcp, i + 1, p),
{
    assert forall|q: u16| after.contains(q) == c.port_taken_before(tcp, i + 1, q) by {
        lemma_port_taken_step(c, tcp, i, q);
    }
}

/// Ports taken before endpoint `i + 1` are those taken before endpoint `i`
/// and the port of endpoint `i` itself.
proof fn lemma_port_taken_step(c: Config, tcp: bool, i: int, q: u16)
    requires
        0 <= i < c.endpoint@.len(),
    ensures
        c.port_taken_before(tcp, i + 1, q) == (c.port_taken_before(tcp, i, q) || net_port(
            c.endpoint@[i],
            tcp,
        ) == Some(q)),
{
    if c.port_taken_before(tcp, i + 1, q) && !(tcp && c.general.tcp_port == Some(q)) {
        let j = choose|j: int| 0 <= j < i + 1 && net_port(#[trigger] c.endpoint@[j], tcp) == Some(q);
        if j < i {
            assert(c.port_taken_before(tcp, i, q));
        }
    }
    if c.port_taken_before(tcp, i, q) && !(tcp && c.general.tcp_port == Some(q)) {
        let j = choose|j: int| 0 <= j < i && net_port(#[trigger] c.endpoint@[j], tcp) == Some(q);
        assert(c.port_taken_before(tcp, i + 1, q));
    }
    if net_port(c.endpoint@[i], tcp) == Some(q) {
        assert(c.port_taken_before(tcp, i + 1, q));
    }
}

/// A message id of the set above 65535, if any.
fn id_over_limit(s: &AHashSet<u32>) -> (r: Option<u32>)
    ensures
        r is None == msg_ids_in_range(msg_id_items(*s)),
        r matches Some(id) ==> id > 65535 && msg_id_items(*s).contains(id),
{
    let ids = msg_id_set_to_vec(s);
    let mut i: usize = 0;
    while i < ids.len()
        invariant
            i <= ids@.len(),
            ids@.to_set() == msg_id_items(*s),
            forall|j: int| 0 <= j < i ==> ids@[j] <= 65535,
        decreases ids@.len() - i,
    {
        if ids[i] > 65535 {
            assert(ids@.to_set().contains(ids@[i as int]));
            return Some(ids[i]);
        }
        i = i + 1;
    }
    assert forall|id: u32| msg_id_items(*s).contains(id) implies id <= 65535 by {
        assert(ids@.to_set().contains(id));
        let j = choose|j: int| 0 <= j < ids@.len() && ids@[j] == id;
    }
    None
}

/// In a valid configuration no two TCP endpoints, and no two UDP
/// endpoints, share a port, and no TCP endpoint uses the general TCP port.
pub proof fn lemma_valid_ports_distinct(c: Config, i: int, j: int, tcp: bool)
    requires
        c.valid(),
        0 <= i < j < c.endpoint@.len(),
        net_port(c.endpoint@[i], tcp) is Some,
    ensures
        net_port(c.endpoint@[j], tcp) != net_port(c.endpoint@[i], tcp),
        tcp ==> c.general.tcp_port != net_port(c.endpoint@[j], tcp) || net_port(
            c.endpoint@[j],
            tcp,
        ) is None,
{
    assert(c.endpoint_ok_at(j));
    if net_port(c.endpoint@[j], tcp) == net_port(c.endpoint@[i], tcp) {
        let p = net_port(c.endpoint@[i], tcp).unwrap();
        assert(c.port_taken_before(tcp, j, p));
    }
    if tcp && net_port(c.endpoint@[j], tcp) is Some {
        let p = net_port(c.endpoint@[j], tcp).unwrap();
        if c.general.tcp_port == Some(p) {
            assert(c.port_taken_before(tcp, j, p));
        }
    }
}

} // verus!
