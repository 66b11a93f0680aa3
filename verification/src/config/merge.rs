//! Merging of configurations read from several files: for optional
//! `[general]` settings the overlay wins when it sets them; every other
//! `[general]` setting comes from the overlay (the last file wins);
//! endpoint lists are concatenated.

use super::general::GeneralConfig;
use super::Config;
use vstd::prelude::*;

verus! {

/// The `[general]` settings after laying `b` over `a`.
pub open spec fn merged_general(a: GeneralConfig, b: GeneralConfig) -> GeneralConfig {
    GeneralConfig {
        tcp_port: if b.tcp_port is Some {
            b.tcp_port
        } else {
            a.tcp_port
        },
        dedup_period_ms: if b.dedup_period_ms is Some {
            b.dedup_period_ms
        } else {
            a.dedup_period_ms
        },
        log: if b.log is Some {
            b.log
        } else {
            a.log
        },
        stats_socket_path: if b.stats_socket_path is Some {
            b.stats_socket_path
        } else {
            a.stats_socket_path
        },
        ..b
    }
}

impl Config {
    /// Lays `other` over this configuration: an optional `[general]`
    /// setting of `other` replaces this one's when set; every other
    /// `[general]` setting is `other`'s; `other`'s endpoints follow this
    /// one's.
    pub fn merge(self, other: Config) -> (r: Config)
        ensures
            r.general == merged_general(self.general, other.general),
            r.endpoint@ == self.endpoint@ + other.endpoint@,
    {
        let Config { general: a, endpoint: mut endpoint } = self;
        let Config { general: b, endpoint: mut more } = other;
        let GeneralConfig {
            tcp_port: a_tcp_port,
            dedup_period_ms: a_dedup_period_ms,
            log: a_log,
            stats_socket_path: a_stats_socket_path,
            ..
        } = a;
        let GeneralConfig {
            tcp_port,
            dedup_period_ms,
            log,
            log_telemetry,
            bus_capacity,
            routing_table_ttl_secs,
            routing_table_prune_interval_secs,
            stats_retention_secs,
            stats_sample_interval_secs,
            stats_log_interval_secs,
            stats_socket_path,
            sniffer_sysids,
        } = b;
        let general = GeneralConfig {
            tcp_port: if tcp_port.is_some() {
                tcp_port
            } else {
                a_tcp_port
            },
            dedup_period_ms: if dedup_period_ms.is_some() {
                dedup_period_ms
            } else {
                a_dedup_period_ms
            },
            log: if log.is_some() {
                log
            } else {
                a_log
            },
            log_telemetry,
            bus_capacity,
            routing_table_ttl_secs,
            routing_table_prune_interval_secs,
            stats_retention_secs,
            stats_sample_interval_secs,
            stats_log_interval_secs,
            stats_socket_path: if stats_socket_path.is_some() {
                stats_socket_path
            } else {
                a_stats_socket_path
            },
            sniffer_sysids,
        };
        endpoint.append(&mut more);
        Config { general, endpoint }
    }
}

/// Merging is associative: laying `c` over the merge of `a` and `b` gives
/// the same settings and endpoints as laying the merge of `b` and `c` over
/// `a`; merging a directory of files one by one therefore depends only on
/// their order.
pub proof fn lemma_merge_associative(
    a: GeneralConfig,
    b: GeneralConfig,
    c: GeneralConfig,
    ea: Seq<super::endpoint::EndpointConfig>,
    eb: Seq<super::endpoint::EndpointConfig>,
    ec: Seq<super::endpoint::EndpointConfig>,
)
    ensures
        merged_general(merged_general(a, b), c) == merged_general(a, merged_general(b, c)),
        (ea + eb) + ec == ea + (eb + ec),
{
    assert((ea + eb) + ec =~= ea + (eb + ec));
}

/// The settings that are not optional always come from the overlay; an
/// optional setting is the overlay's when the overlay sets it (the later
/// file wins) and the base's when the overlay leaves it unset.
pub proof fn lemma_merge_overlay_wins(a: GeneralConfig, b: GeneralConfig)
    ensures
        merged_general(a, b).bus_capacity == b.bus_capacity,
        merged_general(a, b).log_telemetry == b.log_telemetry,
        merged_general(a, b).routing_table_ttl_secs == b.routing_table_ttl_secs,
        merged_general(a, b).routing_table_prune_interval_secs
            == b.routing_table_prune_interval_secs,
        merged_general(a, b).sniffer_sysids == b.sniffer_sysids,
        b.tcp_port is None ==> merged_general(a, b).tcp_port == a.tcp_port,
        b.tcp_port is Some ==> merged_general(a, b).tcp_port == b.tcp_port,
        b.log is None ==> merged_general(a, b).log == a.log,
        b.dedup_period_ms is None ==> merged_general(a, b).dedup_period_ms == a.dedup_period_ms,
        b.dedup_period_ms is Some ==> merged_general(a, b).dedup_period_ms == b.dedup_period_ms,
        b.log is Some ==> merged_general(a, b).log == b.log,
        b.stats_socket_path is None ==> merged_general(a, b).stats_socket_path
            == a.stats_socket_path,
        b.stats_socket_path is Some ==> merged_general(a, b).stats_socket_path
            == b.stats_socket_path,
        merged_general(a, b).stats_retention_secs == b.stats_retention_secs,
        merged_general(a, b).stats_sample_interval_secs == b.stats_sample_interval_secs,
        merged_general(a, b).stats_log_interval_secs == b.stats_log_interval_secs,
{
}

} // verus!
