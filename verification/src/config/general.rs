//! The `[general]` section of the configuration.

use super::defaults::{
    default_bus_capacity, default_routing_table_prune_interval_secs,
    default_routing_table_ttl_secs, default_stats_log_interval_secs, default_stats_retention_secs,
    default_stats_sample_interval_secs,
};
use super::toml_doc::{
    bool_field_or, int_field_or, int_list_field, lemma_int_list_field_bounds, opt_int_field,
    opt_string_field, read_bool_field_or, read_int_field_or, read_int_list_field,
    read_opt_int_field, read_opt_string_field, to_byte_vec, TomlValue,
};
use crate::error::RouterError;
use vstd::prelude::*;

verus! {

/// General router settings.
#[derive(Debug)]
pub struct GeneralConfig {
    /// TCP server port for ground stations, if any.
    pub tcp_port: Option<u16>,
    /// De-duplication period in milliseconds, if any.
    pub dedup_period_ms: Option<u64>,
    /// Directory for traffic logs, if any.
    pub log: Option<String>,
    /// Whether to log telemetry to files.
    pub log_telemetry: bool,
    /// Capacity of the message bus.
    pub bus_capacity: usize,
    /// Time-to-live of routing-table entries, in seconds.
    pub routing_table_ttl_secs: u64,
    /// Interval between routing-table prunes, in seconds.
    pub routing_table_prune_interval_secs: u64,
    /// Retention of the stats history, in seconds (0 disables stats).
    pub stats_retention_secs: u64,
    /// Stats sampling interval, in seconds.
    pub stats_sample_interval_secs: u64,
    /// Stats logging interval, in seconds.
    pub stats_log_interval_secs: u64,
    /// Path of the Unix socket answering stats queries, if any.
    pub stats_socket_path: Option<String>,
    /// System ids whose presence on an endpoint makes it receive all traffic.
    pub sniffer_sysids: Vec<u8>,
}

impl GeneralConfig {
    /// Every field at its default value.
    pub open spec fn is_default(&self) -> bool {
        &&& self.tcp_port is None
        &&& self.dedup_period_ms is None
        &&& self.log is None
        &&& !self.log_telemetry
        &&& self.bus_capacity == 5000
        &&& self.routing_table_ttl_secs == 300
        &&& self.routing_table_prune_interval_secs == 60
        &&& self.stats_retention_secs == 86400
        &&& self.stats_sample_interval_secs == 1
        &&& self.stats_log_interval_secs == 60
        &&& self.stats_socket_path is None
        &&& self.sniffer_sysids@.len() == 0
    }
}

impl Default for GeneralConfig {
    /// Every field at its default value.
    fn default() -> (g: Self)
        ensures
            g.is_default(),
    {
        GeneralConfig {
            tcp_port: None,
            dedup_period_ms: None,
            log: None,
            log_telemetry: false,
            bus_capacity: default_bus_capacity(),
            routing_table_ttl_secs: default_routing_table_ttl_secs(),
            routing_table_prune_interval_secs: default_routing_table_prune_interval_secs(),
            stats_retention_secs: default_stats_retention_secs(),
            stats_sample_interval_secs: default_stats_sample_interval_secs(),
            stats_log_interval_secs: default_stats_log_interval_secs(),
            stats_socket_path: None,
            sniffer_sysids: Vec::new(),
        }
    }
}

/// The largest `usize` that a TOML integer can hold.
pub open spec fn usize_field_max() -> int {
    if usize::MAX < i64::MAX {
        usize::MAX as int
    } else {
        i64::MAX as int
    }
}

/// An optional `u16` setting agrees with what the table says.
pub open spec fn opt_u16_read(o: Option<u16>, r: Option<Option<int>>) -> bool {
    r == Some(
        match o {
            Some(x) => Some(x as int),
            None => None::<int>,
        },
    )
}

/// An optional `u64` setting agrees with what the table says.
pub open spec fn opt_u64_read(o: Option<u64>, r: Option<Option<int>>) -> bool {
    r == Some(
        match o {
            Some(x) => Some(x as int),
            None => None::<int>,
        },
    )
}

/// Whether every field of a `[general]` table is well-typed: integers in
/// the range of their field, strings and booleans where expected.
pub open spec fn general_table_ok(es: Seq<(String, TomlValue)>) -> bool {
    &&& opt_int_field(es, "tcp_port"@, 0, 65535) is Some
    &&& opt_int_field(es, "dedup_period_ms"@, 0, i64::MAX as int) is Some
    &&& opt_string_field(es, "log"@) is Some
    &&& bool_field_or(es, "log_telemetry"@, false) is Some
    &&& int_field_or(es, "bus_capacity"@, 0, usize_field_max(), 5000) is Some
    &&& int_field_or(es, "routing_table_ttl_secs"@, 0, i64::MAX as int, 300) is Some
    &&& int_field_or(es, "routing_table_prune_interval_secs"@, 0, i64::MAX as int, 60) is Some
    &&& int_field_or(es, "stats_retention_secs"@, 0, i64::MAX as int, 86400) is Some
    &&& int_field_or(es, "stats_sample_interval_secs"@, 0, i64::MAX as int, 1) is Some
    &&& int_field_or(es, "stats_log_interval_secs"@, 0, i64::MAX as int, 60) is Some
    &&& opt_string_field(es, "stats_socket_path"@) is Some
    &&& int_list_field(es, "sniffer_sysids"@, 0, 255) is Some
}

/// Whether `g` holds exactly what the `[general]` table says, with the
/// defaults for absent fields.
pub open spec fn general_from_table(es: Seq<(String, TomlValue)>, g: GeneralConfig) -> bool {
    &&& opt_u16_read(g.tcp_port, opt_int_field(es, "tcp_port"@, 0, 65535))
    &&& opt_u64_read(g.dedup_period_ms, opt_int_field(es, "dedup_period_ms"@, 0, i64::MAX as int))
    &&& opt_string_field(es, "log"@) == Some(g.log)
    &&& bool_field_or(es, "log_telemetry"@, false) == Some(g.log_telemetry)
    &&& int_field_or(es, "bus_capacity"@, 0, usize_field_max(), 5000) == Some(g.bus_capacity as int)
    &&& int_field_or(es, "routing_table_ttl_secs"@, 0, i64::MAX as int, 300) == Some(
        g.routing_table_ttl_secs as int,
    )
    &&& int_field_or(es, "routing_table_prune_interval_secs"@, 0, i64::MAX as int, 60) == Some(
        g.routing_table_prune_interval_secs as int,
    )
    &&& int_field_or(es, "stats_retention_secs"@, 0, i64::MAX as int, 86400) == Some(
        g.stats_retention_secs as int,
    )
    &&& int_field_or(es, "stats_sample_interval_secs"@, 0, i64::MAX as int, 1) == Some(
        g.stats_sample_interval_secs as int,
    )
    &&& int_field_or(es, "stats_log_interval_secs"@, 0, i64::MAX as int, 60) == Some(
        g.stats_log_interval_secs as int,
    )
    &&& opt_string_field(es, "stats_socket_path"@) == Some(g.stats_socket_path)
    &&& int_list_field(es, "sniffer_sysids"@, 0, 255) == Some(
        g.sniffer_sysids@.map_values(|x: u8| x as int),
    )
}

/// The error for a `[general]` field of the wrong type or range.
fn bad_general_field() -> (e: RouterError)
    ensures
        e.is_validation(),
        e.is_validation_with("Failed to parse config: invalid value in [general]"@),
{
    RouterError::config("Failed to parse config: invalid value in [general]")
}

/// Reads a `u64` field with a default.
fn read_u64_field_or(es: &Vec<(String, TomlValue)>, key: &str, default: u64) -> (r: Option<u64>)
    requires
        default <= i64::MAX,
    ensures
        r matches Some(x) ==> int_field_or(es@, key@, 0, i64::MAX as int, default as int) == Some(
            x as int,
        ),
        r is None ==> int_field_or(es@, key@, 0, i64::MAX as int, default as int) is None,
{
    match read_int_field_or(es, key, 0, i64::MAX, default as i64) {
        Some(x) => Some(x as u64),
        None => None,
    }
}

/// Reads the `[general]` table: each field present must have the type of
/// its setting; absent fields take their defaults; other keys are ignored.
pub fn decode_general(es: &Vec<(String, TomlValue)>) -> (r: Result<GeneralConfig, RouterError>)
    ensures
        r is Ok == general_table_ok(es@),
        r matches Ok(g) ==> general_from_table(es@, g),
        r matches Err(e) ==> e.is_validation(),
{
    let tcp_port = match read_opt_int_field(es, "tcp_port", 0, 65535) {
        Some(Some(x)) => Some(x as u16),
        Some(None) => None,
        None => return Err(bad_general_field()),
    };
    let dedup_period_ms = match read_opt_int_field(es, "dedup_period_ms", 0, i64::MAX) {
        Some(Some(x)) => Some(x as u64),
        Some(None) => None,
        None => return Err(bad_general_field()),
    };
    let log = match read_opt_string_field(es, "log") {
        Some(v) => v,
        None => return Err(bad_general_field()),
    };
    let log_telemetry = match read_bool_field_or(es, "log_telemetry", false) {
        Some(b) => b,
        None => return Err(bad_general_field()),
    };
    let bus_capacity = match read_int_field_or(es, "bus_capacity", 0, i64::MAX, 5000) {
        Some(x) => {
            if (x as u64) > (usize::MAX as u64) {
                return Err(bad_general_field());
            }
            x as usize
        },
        None => return Err(bad_general_field()),
    };
    let routing_table_ttl_secs = match read_u64_field_or(es, "routing_table_ttl_secs", 300) {
        Some(x) => x,
        None => return Err(bad_general_field()),
    };
    let routing_table_prune_interval_secs = match read_u64_field_or(
        es,
        "routing_table_prune_interval_secs",
        60,
    ) {
        Some(x) => x,
        None => return Err(bad_general_field()),
    };
    let stats_retention_secs = match read_u64_field_or(es, "stats_retention_secs", 86400) {
        Some(x) => x,
        None => return Err(bad_general_field()),
    };
    let stats_sample_interval_secs = match read_u64_field_or(es, "stats_sample_interval_secs", 1) {
        Some(x) => x,
        None => return Err(bad_general_field()),
    };
    let stats_log_interval_secs = match read_u64_field_or(es, "stats_log_interval_secs", 60) {
        Some(x) => x,
        None => return Err(bad_general_field()),
    };
    let stats_socket_path = match read_opt_string_field(es, "stats_socket_path") {
        Some(v) => v,
        None => return Err(bad_general_field()),
    };
    let sniffer_sysids = match read_int_list_field(es, "sniffer_sysids", 0, 255) {
        Some(xs) => {
            proof {
                lemma_int_list_field_bounds(es@, "sniffer_sysids"@, 0, 255);
                assert forall|i: int| 0 <= i < xs@.len() implies 0 <= #[trigger] xs@[i] <= 255 by {
                    assert(xs@.map_values(|x: i64| x as int)[i] == xs@[i] as int);
                    assert(int_list_field(es@, "sniffer_sysids"@, 0, 255).unwrap()[i] == xs@[i] as int);
                }
            }
            to_byte_vec(&xs)
        },
        None => return Err(bad_general_field()),
    };
    Ok(
        GeneralConfig {
            tcp_port,
            dedup_period_ms,
            log,
            log_telemetry,
            bus_capacity,
            routing_table_ttl_secs,
            routing_table_prune_interval_secs,
            stats_retention_secs,
            stats_sample_interval_secs,
            stats_log_interval_secs,
            stats_socket_path,
            sniffer_sysids,
        },
    )
}

} // verus!
