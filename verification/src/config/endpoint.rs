//! Endpoint configuration: one `[[endpoint]]` block of the TOML and the
//! enums it uses.

use super::toml_doc::{
    entry_lookup, int_field_or, int_in, int_list, int_list_field,
    lemma_int_list_bounds, lemma_int_list_field_bounds, opt_string_field, read_int_field_or,
    read_int_in, read_int_list, read_int_list_field, read_opt_string_field, read_required_string,
    read_string_is, required_string, string_is, to_u32_vec, lookup, TomlValue,
};
use crate::error::RouterError;
use crate::filter::{
    byte_id_items, byte_id_set_insert, byte_id_set_new, msg_id_items, msg_id_set_insert,
    msg_id_set_new, EndpointFilters,
};
use ahash::AHashSet;
use vstd::prelude::*;

verus! {

/// `std::slice::from_ref`: a one-element slice of the referenced value.
#[verifier::external_body]
fn slice_of_one(x: &u32) -> (s: &[u32])
    ensures
        s@ == seq![*x],
{
    std::slice::from_ref(x)
}

/// Baud rate of a serial endpoint: one rate, or a list to try in turn for
/// automatic detection.
#[derive(Debug)]
pub enum BaudRate {
    /// A fixed baud rate.
    Fixed(u32),
    /// Baud rates to cycle through for auto-detection.
    Auto(Vec<u32>),
}

impl BaudRate {
    /// The configured rates in order.
    pub open spec fn rate_list(&self) -> Seq<u32> {
        match self {
            BaudRate::Fixed(r) => seq![*r],
            BaudRate::Auto(v) => v@,
        }
    }

    /// The baud rates as a slice: one element for `Fixed`, the list for
    /// `Auto`.
    pub fn rates(&self) -> (r: &[u32])
        ensures
            r@ == self.rate_list(),
    {
        match self {
            BaudRate::Fixed(rate) => slice_of_one(rate),
            BaudRate::Auto(rates) => rates.as_slice(),
        }
    }
}

impl BaudRate {
    /// Same kind and same rates.
    pub open spec fn same_as(&self, other: &BaudRate) -> bool {
        (self is Fixed) == (other is Fixed) && self.rate_list() == other.rate_list()
    }
}

impl Clone for BaudRate {
    /// A copy with the same rates.
    fn clone(&self) -> (c: Self)
        ensures
            c.same_as(self),
    {
        match self {
            BaudRate::Fixed(r) => BaudRate::Fixed(*r),
            BaudRate::Auto(v) => {
                let c = v.clone();
                assert(c@ =~= v@);
                BaudRate::Auto(c)
            },
        }
    }
}

/// Operating mode of a network endpoint.
#[derive(Debug, Clone, Copy, PartialEq, Eq, Structural)]
pub enum EndpointMode {
    /// Connects to a remote server.
    Client,
    /// Listens for incoming connections.
    Server,
}

/// Flow control of a serial endpoint.
#[derive(Debug, Clone, Copy, PartialEq, Eq, Structural)]
pub enum FlowControl {
    /// No flow control (written "none" in the TOML).
    Off,
    /// Hardware (RTS/CTS) flow control.
    Hardware,
    /// Software (XON/XOFF) flow control.
    Software,
}

impl Default for FlowControl {
    /// No flow control.
    fn default() -> (r: Self)
        ensures
            r == FlowControl::Off,
    {
        FlowControl::Off
    }
}

/// Configuration of one communication endpoint.
#[derive(Debug)]
pub enum EndpointConfig {
    /// A UDP endpoint.
    Udp {
        /// Address to bind (server) or send to (client), e.g. "0.0.0.0:14550".
        address: String,
        /// Client or server.
        mode: EndpointMode,
        /// Seconds of silence from a unicast peer before a broadcast client
        /// reverts to broadcasting.
        broadcast_timeout_secs: u64,
        /// Filters applied to traffic through this endpoint.
        filters: EndpointFilters,
        /// Group of redundant endpoints sharing routing knowledge.
        group: Option<String>,
    },
    /// A TCP endpoint.
    Tcp {
        /// Address to connect to (client) or listen on (server).
        address: String,
        /// Client or server.
        mode: EndpointMode,
        /// Filters applied to traffic through this endpoint.
        filters: EndpointFilters,
        /// Group of redundant endpoints sharing routing knowledge.
        group: Option<String>,
    },
    /// A serial endpoint.
    Serial {
        /// Device path, e.g. "/dev/ttyACM0".
        device: String,
        /// Baud rate, or rates to try.
        baud: BaudRate,
        /// Flow control.
        flow_control: FlowControl,
        /// Filters applied to traffic through this endpoint.
        filters: EndpointFilters,
        /// Group of redundant endpoints sharing routing knowledge.
        group: Option<String>,
    },
}

impl EndpointConfig {
    /// The group field, whichever the kind of endpoint.
    pub open spec fn group_field(&self) -> Option<String> {
        match self {
            EndpointConfig::Udp { group, .. } => *group,
            EndpointConfig::Tcp { group, .. } => *group,
            EndpointConfig::Serial { group, .. } => *group,
        }
    }

    /// The filters, whichever the kind of endpoint.
    pub open spec fn filters_field(&self) -> EndpointFilters {
        match self {
            EndpointConfig::Udp { filters, .. } => *filters,
            EndpointConfig::Tcp { filters, .. } => *filters,
            EndpointConfig::Serial { filters, .. } => *filters,
        }
    }

    /// The group name: the group field when set and not empty.
    pub open spec fn group_name(&self) -> Option<Seq<char>> {
        match self.group_field() {
            Some(g) => if g@.len() > 0 {
                Some(g@)
            } else {
                None
            },
            None => None,
        }
    }

    /// The group of this endpoint; `None` when no group is set or the group
    /// string is empty.
    pub fn group(&self) -> (r: Option<&str>)
        ensures
            r is Some == self.group_name() is Some,
            r matches Some(g) ==> Some(g@) == self.group_name(),
    {
        let group = match self {
            EndpointConfig::Udp { group, .. } => group,
            EndpointConfig::Tcp { group, .. } => group,
            EndpointConfig::Serial { group, .. } => group,
        };
        match group {
            Some(g) => {
                let s = g.as_str();
                if s.is_empty() {
                    None
                } else {
                    Some(s)
                }
            },
            None => None,
        }
    }

    /// Whether two endpoint configurations hold the same settings.
    pub open spec fn same_settings(&self, other: &EndpointConfig) -> bool {
        match (self, other) {
            (
                EndpointConfig::Udp { address: a1, mode: m1, broadcast_timeout_secs: b1, filters: f1, group: g1 },
                EndpointConfig::Udp { address: a2, mode: m2, broadcast_timeout_secs: b2, filters: f2, group: g2 },
            ) => a1 == a2 && m1 == m2 && b1 == b2 && f1.same_lists(f2) && g1 == g2,
            (
                EndpointConfig::Tcp { address: a1, mode: m1, filters: f1, group: g1 },
                EndpointConfig::Tcp { address: a2, mode: m2, filters: f2, group: g2 },
            ) => a1 == a2 && m1 == m2 && f1.same_lists(f2) && g1 == g2,
            (
                EndpointConfig::Serial { device: d1, baud: b1, flow_control: c1, filters: f1, group: g1 },
                EndpointConfig::Serial { device: d2, baud: b2, flow_control: c2, filters: f2, group: g2 },
            ) => d1 == d2 && b1.same_as(b2) && c1 == c2 && f1.same_lists(f2) && g1 == g2,
            _ => false,
        }
    }
}

impl Clone for EndpointConfig {
    /// A copy with the same settings.
    fn clone(&self) -> (c: Self)
        ensures
            c.same_settings(self),
    {
        match self {
            EndpointConfig::Udp { address, mode, broadcast_timeout_secs, filters, group } => {
                EndpointConfig::Udp {
                    address: address.clone(),
                    mode: *mode,
                    broadcast_timeout_secs: *broadcast_timeout_secs,
                    filters: filters.clone(),
                    group: clone_opt_string(group),
                }
            },
            EndpointConfig::Tcp { address, mode, filters, group } => EndpointConfig::Tcp {
                address: address.clone(),
                mode: *mode,
                filters: filters.clone(),
                group: clone_opt_string(group),
            },
            EndpointConfig::Serial { device, baud, flow_control, filters, group } => {
                EndpointConfig::Serial {
                    device: device.clone(),
                    baud: baud.clone(),
                    flow_control: *flow_control,
                    filters: filters.clone(),
                    group: clone_opt_string(group),
                }
            },
        }
    }
}

/// A copy of an optional string.
pub fn clone_opt_string(s: &Option<String>) -> (c: Option<String>)
    ensures
        c == *s,
{
    match s {
        Some(x) => Some(x.clone()),
        None => None,
    }
}

/// The set of values of a list of integers, as `u32`.
pub open spec fn u32_set_of(xs: Seq<int>) -> Set<u32> {
    Set::new(|v: u32| exists|i: int| 0 <= i < xs.len() && xs[i] == v as int)
}

/// The set of values of a list of integers, as `u8`.
pub open spec fn u8_set_of(xs: Seq<int>) -> Set<u8> {
    Set::new(|v: u8| exists|i: int| 0 <= i < xs.len() && xs[i] == v as int)
}

/// Collects integers known to lie in `0..=u32::MAX` into a message-id set.
fn msg_id_set_of(xs: &Vec<i64>) -> (s: AHashSet<u32>)
    requires
        forall|i: int| 0 <= i < xs@.len() ==> 0 <= #[trigger] xs@[i] <= u32::MAX,
    ensures
        msg_id_items(s) == u32_set_of(xs@.map_values(|x: i64| x as int)),
{
    let mut s = msg_id_set_new();
    let mut i: usize = 0;
    while i < xs.len()
        invariant
            i <= xs@.len(),
            forall|j: int| 0 <= j < xs@.len() ==> 0 <= #[trigger] xs@[j] <= u32::MAX,
            msg_id_items(s) == u32_set_of(xs@.take(i as int).map_values(|x: i64| x as int)),
        decreases xs@.len() - i,
    {
        let x = xs[i];
        msg_id_set_insert(&mut s, x as u32);
        proof {
            let pre = xs@.take(i as int).map_values(|x: i64| x as int);
            let post = xs@.take(i + 1).map_values(|x: i64| x as int);
            assert forall|v: u32| u32_set_of(post).contains(v) == u32_set_of(pre).insert(
                x as u32,
            ).contains(v) by {
                if u32_set_of(post).contains(v) {
                    let k = choose|k: int| 0 <= k < post.len() && post[k] == v as int;
                    if k < i {
                        assert(pre[k] == v as int);
                    }
                }
                if u32_set_of(pre).contains(v) {
                    let k = choose|k: int| 0 <= k < pre.len() && pre[k] == v as int;
                    assert(post[k] == v as int);
                }
                if v == x as u32 {
                    assert(post[i as int] == v as int);
                }
            }
            assert(u32_set_of(post) =~= u32_set_of(pre).insert(x as u32));
        }
        i = i + 1;
    }
    assert(xs@.take(xs@.len() as int) =~= xs@);
    s
}

/// Collects integers known to lie in `0..=255` into an id set.
fn byte_id_set_of(xs: &Vec<i64>) -> (s: AHashSet<u8>)
    requires
        forall|i: int| 0 <= i < xs@.len() ==> 0 <= #[trigger] xs@[i] <= 255,
    ensures
        byte_id_items(s) == u8_set_of(xs@.map_values(|x: i64| x as int)),
{
    let mut s = byte_id_set_new();
    let mut i: usize = 0;
    while i < xs.len()
        invariant
            i <= xs@.len(),
            forall|j: int| 0 <= j < xs@.len() ==> 0 <= #[trigger] xs@[j] <= 255,
            byte_id_items(s) == u8_set_of(xs@.take(i as int).map_values(|x: i64| x as int)),
        decreases xs@.len() - i,
    {
        let x = xs[i];
        byte_id_set_insert(&mut s, x as u8);
        proof {
            let pre = xs@.take(i as int).map_values(|x: i64| x as int);
            let post = xs@.take(i + 1).map_values(|x: i64| x as int);
            assert forall|v: u8| u8_set_of(post).contains(v) == u8_set_of(pre).insert(
                x as u8,
            ).contains(v) by {
                if u8_set_of(post).contains(v) {
                    let k = choose|k: int| 0 <= k < post.len() && post[k] == v as int;
                    if k < i {
                        assert(pre[k] == v as int);
                    }
                }
                if u8_set_of(pre).contains(v) {
                    let k = choose|k: int| 0 <= k < pre.len() && pre[k] == v as int;
                    assert(post[k] == v as int);
                }
                if v == x as u8 {
                    assert(post[i as int] == v as int);
                }
            }
            assert(u8_set_of(post) =~= u8_set_of(pre).insert(x as u8));
        }
        i = i + 1;
    }
    assert(xs@.take(xs@.len() as int) =~= xs@);
    s
}

/// Reads a message-id list field (each id a `u32`), empty when absent.
fn read_msg_id_field(es: &Vec<(String, TomlValue)>, key: &str) -> (r: Option<AHashSet<u32>>)
    ensures
        r is Some == int_list_field(es@, key@, 0, u32::MAX as int) is Some,
        r matches Some(s) ==> msg_id_items(s) == u32_set_of(
            int_list_field(es@, key@, 0, u32::MAX as int).unwrap(),
        ),
{
    match read_int_list_field(es, key, 0, 4294967295) {
        Some(xs) => {
            proof {
                lemma_int_list_field_bounds(es@, key@, 0, u32::MAX as int);
                assert forall|i: int| 0 <= i < xs@.len() implies 0 <= #[trigger] xs@[i]
                    <= u32::MAX by {
                    assert(int_list_field(es@, key@, 0, u32::MAX as int).unwrap()[i] == xs@[i] as int);
                }
            }
            Some(msg_id_set_of(&xs))
        },
        None => None,
    }
}

/// Reads a component- or system-id list field (each id a `u8`), empty when
/// absent.
fn read_byte_id_field(es: &Vec<(String, TomlValue)>, key: &str) -> (r: Option<AHashSet<u8>>)
    ensures
        r is Some == int_list_field(es@, key@, 0, 255) is Some,
        r matches Some(s) ==> byte_id_items(s) == u8_set_of(
            int_list_field(es@, key@, 0, 255).unwrap(),
        ),
{
    match read_int_list_field(es, key, 0, 255) {
        Some(xs) => {
            proof {
                lemma_int_list_field_bounds(es@, key@, 0, 255);
                assert forall|i: int| 0 <= i < xs@.len() implies 0 <= #[trigger] xs@[i] <= 255 by {
                    assert(int_list_field(es@, key@, 0, 255).unwrap()[i] == xs@[i] as int);
                }
            }
            Some(byte_id_set_of(&xs))
        },
        None => None,
    }
}

/// Whether one message-id list field reads well.
pub open spec fn msg_ids_ok(es: Seq<(String, TomlValue)>, key: Seq<char>) -> bool {
    int_list_field(es, key, 0, u32::MAX as int) is Some
}

/// Whether one byte-id list field reads well.
pub open spec fn byte_ids_ok(es: Seq<(String, TomlValue)>, key: Seq<char>) -> bool {
    int_list_field(es, key, 0, 255) is Some
}

/// The ids a message-id list field names.
pub open spec fn msg_ids_of(es: Seq<(String, TomlValue)>, key: Seq<char>) -> Set<u32> {
    u32_set_of(int_list_field(es, key, 0, u32::MAX as int).unwrap())
}

/// The ids a byte-id list field names.
pub open spec fn byte_ids_of(es: Seq<(String, TomlValue)>, key: Seq<char>) -> Set<u8> {
    u8_set_of(int_list_field(es, key, 0, 255).unwrap())
}

/// Whether the twelve filter lists of an endpoint table read well: each is
/// absent or an array of integers in the range of its ids.
pub open spec fn filters_table_ok(es: Seq<(String, TomlValue)>) -> bool {
    &&& msg_ids_ok(es, "allow_msg_id_out"@)
    &&& msg_ids_ok(es, "block_msg_id_out"@)
    &&& byte_ids_ok(es, "allow_src_comp_out"@)
    &&& byte_ids_ok(es, "block_src_comp_out"@)
    &&& byte_ids_ok(es, "allow_src_sys_out"@)
    &&& byte_ids_ok(es, "block_src_sys_out"@)
    &&& msg_ids_ok(es, "allow_msg_id_in"@)
    &&& msg_ids_ok(es, "block_msg_id_in"@)
    &&& byte_ids_ok(es, "allow_src_comp_in"@)
    &&& byte_ids_ok(es, "block_src_comp_in"@)
    &&& byte_ids_ok(es, "allow_src_sys_in"@)
    &&& byte_ids_ok(es, "block_src_sys_in"@)
}

/// Whether `f` holds exactly the ids the endpoint table lists.
pub open spec fn filters_from_table(es: Seq<(String, TomlValue)>, f: EndpointFilters) -> bool {
    &&& msg_id_items(f.allow_msg_id_out) == msg_ids_of(es, "allow_msg_id_out"@)
    &&& msg_id_items(f.block_msg_id_out) == msg_ids_of(es, "block_msg_id_out"@)
    &&& byte_id_items(f.allow_src_comp_out) == byte_ids_of(es, "allow_src_comp_out"@)
    &&& byte_id_items(f.block_src_comp_out) == byte_ids_of(es, "block_src_comp_out"@)
    &&& byte_id_items(f.allow_src_sys_out) == byte_ids_of(es, "allow_src_sys_out"@)
    &&& byte_id_items(f.block_src_sys_out) == byte_ids_of(es, "block_src_sys_out"@)
    &&& msg_id_items(f.allow_msg_id_in) == msg_ids_of(es, "allow_msg_id_in"@)
    &&& msg_id_items(f.block_msg_id_in) == msg_ids_of(es, "block_msg_id_in"@)
    &&& byte_id_items(f.allow_src_comp_in) == byte_ids_of(es, "allow_src_comp_in"@)
    &&& byte_id_items(f.block_src_comp_in) == byte_ids_of(es, "block_src_comp_in"@)
    &&& byte_id_items(f.allow_src_sys_in) == byte_ids_of(es, "allow_src_sys_in"@)
    &&& byte_id_items(f.block_src_sys_in) == byte_ids_of(es, "block_src_sys_in"@)
}

/// The error for an endpoint table that does not fit the schema.
fn bad_endpoint(what: &str) -> (e: RouterError)
    ensures
        e.is_validation(),
        e.is_validation_with("Failed to parse config: endpoint "@ + what@),
{
    let mut msg = String::from_str("Failed to parse config: endpoint ");
    msg.append(what);
    RouterError::config(msg.as_str())
}

/// Reads the filter lists of an endpoint table.
pub fn decode_filters(es: &Vec<(String, TomlValue)>) -> (r: Result<EndpointFilters, RouterError>)
    ensures
        r is Ok == filters_table_ok(es@),
        r matches Ok(f) ==> filters_from_table(es@, f),
        r matches Err(e) ==> e.is_validation(),
{
    let allow_msg_id_out = match read_msg_id_field(es, "allow_msg_id_out") {
        Some(s) => s,
        None => return Err(bad_endpoint("filter allow_msg_id_out")),
    };
    let block_msg_id_out = match read_msg_id_field(es, "block_msg_id_out") {
        Some(s) => s,
        None => return Err(bad_endpoint("filter block_msg_id_out")),
    };
    let allow_src_comp_out = match read_byte_id_field(es, "allow_src_comp_out") {
        Some(s) => s,
        None => return Err(bad_endpoint("filter allow_src_comp_out")),
    };
    let block_src_comp_out = match read_byte_id_field(es, "block_src_comp_out") {
        Some(s) => s,
        None => return Err(bad_endpoint("filter block_src_comp_out")),
    };
    let allow_src_sys_out = match read_byte_id_field(es, "allow_src_sys_out") {
        Some(s) => s,
        None => return Err(bad_endpoint("filter allow_src_sys_out")),
    };
    let block_src_sys_out = match read_byte_id_field(es, "block_src_sys_out") {
        Some(s) => s,
        None => return Err(bad_endpoint("filter block_src_sys_out")),
    };
    let allow_msg_id_in = match read_msg_id_field(es, "allow_msg_id_in") {
        Some(s) => s,
        None => return Err(bad_endpoint("filter allow_msg_id_in")),
    };
    let block_msg_id_in = match read_msg_id_field(es, "block_msg_id_in") {
        Some(s) => s,
        None => return Err(bad_endpoint("filter block_msg_id_in")),
    };
    let allow_src_comp_in = match read_byte_id_field(es, "allow_src_comp_in") {
        Some(s) => s,
        None => return Err(bad_endpoint("filter allow_src_comp_in")),
    };
    let block_src_comp_in = match read_byte_id_field(es, "block_src_comp_in") {
        Some(s) => s,
        None => return Err(bad_endpoint("filter block_src_comp_in")),
    };
    let allow_src_sys_in = match read_byte_id_field(es, "allow_src_sys_in") {
        Some(s) => s,
        None => return Err(bad_endpoint("filter allow_src_sys_in")),
    };
    let block_src_sys_in = match read_byte_id_field(es, "block_src_sys_in") {
        Some(s) => s,
        None => return Err(bad_endpoint("filter block_src_sys_in")),
    };
    Ok(
        EndpointFilters {
            allow_msg_id_out,
            block_msg_id_out,
            allow_src_comp_out,
            block_src_comp_out,
            allow_src_sys_out,
            block_src_sys_out,
            allow_msg_id_in,
            block_msg_id_in,
            allow_src_comp_in,
            block_src_comp_in,
            allow_src_sys_in,
            block_src_sys_in,
        },
    )
}

/// The kind an endpoint table names in its `type` field: 0 for "udp", 1 for
/// "tcp", 2 for "serial"; `None` when missing or anything else.
pub open spec fn endpoint_kind(es: Seq<(String, TomlValue)>) -> Option<int> {
    match entry_lookup(es, "type"@) {
        Some(v) => if string_is(v, "udp"@) {
            Some(0)
        } else if string_is(v, "tcp"@) {
            Some(1)
        } else if string_is(v, "serial"@) {
            Some(2)
        } else {
            None
        },
        None => None,
    }
}

/// The `mode` field: "client" or "server", `default` when absent.
pub open spec fn mode_field(es: Seq<(String, TomlValue)>, default: EndpointMode) -> Option<
    EndpointMode,
> {
    match entry_lookup(es, "mode"@) {
        None => Some(default),
        Some(v) => if string_is(v, "client"@) {
            Some(EndpointMode::Client)
        } else if string_is(v, "server"@) {
            Some(EndpointMode::Server)
        } else {
            None
        },
    }
}

/// The `flow_control` field: "none", "hardware" or "software", no flow
/// control when absent.
pub open spec fn flow_control_field(es: Seq<(String, TomlValue)>) -> Option<FlowControl> {
    match entry_lookup(es, "flow_control"@) {
        None => Some(FlowControl::Off),
        Some(v) => if string_is(v, "none"@) {
            Some(FlowControl::Off)
        } else if string_is(v, "hardware"@) {
            Some(FlowControl::Hardware)
        } else if string_is(v, "software"@) {
            Some(FlowControl::Software)
        } else {
            None
        },
    }
}

/// The `baud` field, which must be present: an integer in `u32` gives a
/// fixed rate (`true`), an array of such integers the rates to try
/// (`false`).
pub open spec fn baud_field(es: Seq<(String, TomlValue)>) -> Option<(bool, Seq<int>)> {
    match entry_lookup(es, "baud"@) {
        None => None,
        Some(v) => match v {
            TomlValue::Integer(_) => match int_in(v, 0, u32::MAX as int) {
                Some(x) => Some((true, seq![x])),
                None => None,
            },
            TomlValue::Array(_) => match int_list(v, 0, u32::MAX as int) {
                Some(xs) => Some((false, xs)),
                None => None,
            },
            _ => None,
        },
    }
}

/// Whether an endpoint table fits the schema of the kind it names.
pub open spec fn endpoint_table_ok(es: Seq<(String, TomlValue)>) -> bool {
    match endpoint_kind(es) {
        Some(k) => {
            &&& opt_string_field(es, "group"@) is Some
            &&& filters_table_ok(es)
            &&& if k == 0 {
                &&& required_string(es, "address"@) is Some
                &&& mode_field(es, EndpointMode::Server) is Some
                &&& int_field_or(es, "broadcast_timeout_secs"@, 0, i64::MAX as int, 5) is Some
            } else if k == 1 {
                &&& required_string(es, "address"@) is Some
                &&& mode_field(es, EndpointMode::Client) is Some
            } else {
                &&& required_string(es, "device"@) is Some
                &&& baud_field(es) is Some
                &&& flow_control_field(es) is Some
            }
        },
        None => false,
    }
}

/// Whether `e` holds exactly what the endpoint table says, with the
/// defaults for absent fields.
pub open spec fn endpoint_from_table(es: Seq<(String, TomlValue)>, e: EndpointConfig) -> bool {
    &&& opt_string_field(es, "group"@) == Some(e.group_field())
    &&& filters_from_table(es, e.filters_field())
    &&& match e {
        EndpointConfig::Udp { address, mode, broadcast_timeout_secs, .. } => {
            &&& endpoint_kind(es) == Some(0int)
            &&& required_string(es, "address"@) == Some(address)
            &&& mode_field(es, EndpointMode::Server) == Some(mode)
            &&& int_field_or(es, "broadcast_timeout_secs"@, 0, i64::MAX as int, 5) == Some(
                broadcast_timeout_secs as int,
            )
        },
        EndpointConfig::Tcp { address, mode, .. } => {
            &&& endpoint_kind(es) == Some(1int)
            &&& required_string(es, "address"@) == Some(address)
            &&& mode_field(es, EndpointMode::Client) == Some(mode)
        },
        EndpointConfig::Serial { device, baud, flow_control, .. } => {
            &&& endpoint_kind(es) == Some(2int)
            &&& required_string(es, "device"@) == Some(device)
            &&& baud_field(es) == Some(
                (baud is Fixed, baud.rate_list().map_values(|x: u32| x as int)),
            )
            &&& flow_control_field(es) == Some(flow_control)
        },
    }
}

/// Whether a value is an endpoint table that fits the schema.
pub open spec fn endpoint_value_ok(v: TomlValue) -> bool {
    match v {
        TomlValue::Table(es) => endpoint_table_ok(es@),
        _ => false,
    }
}

/// Whether `e` is what the endpoint value says.
pub open spec fn endpoint_from_value(v: TomlValue, e: EndpointConfig) -> bool {
    match v {
        TomlValue::Table(es) => endpoint_from_table(es@, e),
        _ => false,
    }
}

/// Reads the `mode` field.
fn read_mode(es: &Vec<(String, TomlValue)>, default: EndpointMode) -> (r: Option<EndpointMode>)
    ensures
        r == mode_field(es@, default),
{
    match lookup(es, "mode") {
        None => Some(default),
        Some(v) => if read_string_is(v, "client") {
            Some(EndpointMode::Client)
        } else if read_string_is(v, "server") {
            Some(EndpointMode::Server)
        } else {
            None
        },
    }
}

/// Reads the `flow_control` field.
fn read_flow_control(es: &Vec<(String, TomlValue)>) -> (r: Option<FlowControl>)
    ensures
        r == flow_control_field(es@),
{
    match lookup(es, "flow_control") {
        None => Some(FlowControl::Off),
        Some(v) => if read_string_is(v, "none") {
            Some(FlowControl::Off)
        } else if read_string_is(v, "hardware") {
            Some(FlowControl::Hardware)
        } else if read_string_is(v, "software") {
            Some(FlowControl::Software)
        } else {
            None
        },
    }
}

/// Reads the `baud` field.
fn read_baud(es: &Vec<(String, TomlValue)>) -> (r: Option<BaudRate>)
    ensures
        r is Some == baud_field(es@) is Some,
        r matches Some(b) ==> baud_field(es@) == Some(
            (b is Fixed, b.rate_list().map_values(|x: u32| x as int)),
        ),
{
    match lookup(es, "baud") {
        None => None,
        Some(v) => match v {
            TomlValue::Integer(_) => match read_int_in(v, 0, 4294967295) {
                Some(x) => {
                    let b = BaudRate::Fixed(x as u32);
                    assert(b.rate_list().map_values(|x: u32| x as int) =~= seq![x as int]);
                    Some(b)
                },
                None => None,
            },
            TomlValue::Array(_) => match read_int_list(v, 0, 4294967295) {
                Some(xs) => {
                    proof {
                        lemma_int_list_bounds(*v, 0, u32::MAX as int);
                        assert forall|i: int| 0 <= i < xs@.len() implies 0 <= #[trigger] xs@[i]
                            <= u32::MAX by {
                            assert(int_list(*v, 0, u32::MAX as int).unwrap()[i] == xs@[i] as int);
                        }
                    }
                    let rates = to_u32_vec(&xs);
                    Some(BaudRate::Auto(rates))
                },
                None => None,
            },
            _ => None,
        },
    }
}

/// Reads one `[[endpoint]]` table. The `type` field picks the kind
/// ("udp", "tcp" or "serial"); each kind's fields must have their types;
/// absent optional fields take their defaults (UDP: server mode, 5 s
/// broadcast timeout; TCP: client mode; serial: no flow control); keys the
/// kind does not use are ignored.
pub fn decode_endpoint(v: &TomlValue) -> (r: Result<EndpointConfig, RouterError>)
    ensures
        r is Ok == endpoint_value_ok(*v),
        r matches Ok(e) ==> endpoint_from_value(*v, e),
        r matches Err(e) ==> e.is_validation(),
{
    let es = match v {
        TomlValue::Table(es) => es,
        _ => return Err(bad_endpoint("is not a table")),
    };
    let kind: u8 = match lookup(es, "type") {
        Some(t) => if read_string_is(t, "udp") {
            0
        } else if read_string_is(t, "tcp") {
            1
        } else if read_string_is(t, "serial") {
            2
        } else {
            return Err(bad_endpoint("has an unknown type"));
        },
        None => return Err(bad_endpoint("has no type")),
    };
    let group = match read_opt_string_field(es, "group") {
        Some(g) => g,
        None => return Err(bad_endpoint("group is not a string")),
    };
    let filters = decode_filters(es)?;
    if kind == 0 {
        let address = match read_required_string(es, "address") {
            Some(a) => a,
            None => return Err(bad_endpoint("needs an address string")),
        };
        let mode = match read_mode(es, EndpointMode::Server) {
            Some(m) => m,
            None => return Err(bad_endpoint("mode is not client or server")),
        };
        let broadcast_timeout_secs = match read_int_field_or(
            es,
            "broadcast_timeout_secs",
            0,
            i64::MAX,
            5,
        ) {
            Some(x) => x as u64,
            None => return Err(bad_endpoint("broadcast_timeout_secs is invalid")),
        };
        Ok(EndpointConfig::Udp { address, mode, broadcast_timeout_secs, filters, group })
    } else if kind == 1 {
        let address = match read_required_string(es, "address") {
            Some(a) => a,
            None => return Err(bad_endpoint("needs an address string")),
        };
        let mode = match read_mode(es, EndpointMode::Client) {
            Some(m) => m,
            None => return Err(bad_endpoint("mode is not client or server")),
        };
        Ok(EndpointConfig::Tcp { address, mode, filters, group })
    } else {
        let device = match read_required_string(es, "device") {
            Some(d) => d,
            None => return Err(bad_endpoint("needs a device string")),
        };
        let baud = match read_baud(es) {
            Some(b) => b,
            None => return Err(bad_endpoint("baud is invalid")),
        };
        let flow_control = match read_flow_control(es) {
            Some(f) => f,
            None => return Err(bad_endpoint("flow_control is invalid")),
        };
        Ok(EndpointConfig::Serial { device, baud, flow_control, filters, group })
    }
}

} // verus!
