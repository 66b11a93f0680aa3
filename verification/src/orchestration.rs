//! Which tasks a configuration starts, under which names and endpoint ids,
//! and the small decisions of the long-running tasks: the stats reporter's
//! logging cadence and a serial endpoint's baud-rate rotation.

use crate::config::endpoint::EndpointConfig;
use crate::config::Config;
use crate::error::RouterError;
use crate::router::EndpointId;
use crate::text::{decimal, push_chars, push_decimal, push_text, string_from_chars};
use vstd::prelude::*;

pub mod stats_server;

verus! {

/// What a planned task does.
#[derive(Debug, Clone, Copy, PartialEq, Eq, Structural)]
pub enum TaskRole {
    /// Rotates the de-duplication time wheel.
    DedupRotator,
    /// Applies route observations and prunes the routing table.
    RoutingUpdater,
    /// The TCP server for ground stations on `general.tcp_port`.
    ImplicitTcpServer {
        /// Port to listen on (all interfaces).
        port: u16,
    },
    /// Writes telemetry logs into `general.log`.
    TlogLogger,
    /// Runs the configured endpoint at this index.
    Endpoint {
        /// Index into `Config::endpoint`.
        index: usize,
    },
}

/// A task to start: its name, its role, and the endpoint id it counts
/// traffic under (for tasks that carry traffic).
#[derive(Debug)]
pub struct PlannedTask {
    /// Name used in logs and shutdown diagnostics.
    pub name: String,
    /// What the task does.
    pub role: TaskRole,
    /// Endpoint id of a traffic-carrying task.
    pub endpoint_id: Option<EndpointId>,
}

/// A planned task as plain values.
pub open spec fn task_view(t: PlannedTask) -> (Seq<char>, TaskRole, Option<EndpointId>) {
    (t.name@, t.role, t.endpoint_id)
}

/// `UDP Endpoint <i> (<address>)`, `TCP Endpoint <i> (<address>)` or
/// `Serial Endpoint <i> (<device>)`.
pub open spec fn endpoint_task_name(e: EndpointConfig, i: nat) -> Seq<char> {
    match e {
        EndpointConfig::Udp { address, .. } => seq!['U', 'D', 'P', ' '] + endpoint_word() + decimal(i)
            + seq![' ', '('] + address@ + seq![')'],
        EndpointConfig::Tcp { address, .. } => seq!['T', 'C', 'P', ' '] + endpoint_word() + decimal(i)
            + seq![' ', '('] + address@ + seq![')'],
        EndpointConfig::Serial { device, .. } => seq!['S', 'e', 'r', 'i', 'a', 'l', ' ']
            + endpoint_word() + decimal(i) + seq![' ', '('] + device@ + seq![')'],
    }
}

/// `Endpoint ` (with the trailing space).
pub open spec fn endpoint_word() -> Seq<char> {
    seq!['E', 'n', 'd', 'p', 'o', 'i', 'n', 't', ' ']
}

/// The tasks of the configured endpoints, in configuration order.
pub open spec fn endpoint_tasks(eps: Seq<EndpointConfig>) -> Seq<(Seq<char>, TaskRole, Option<EndpointId>)> {
    Seq::new(
        eps.len(),
        |i: int|
            (
                endpoint_task_name(eps[i], i as nat),
                TaskRole::Endpoint { index: i as usize },
                Some(EndpointId(i as usize)),
            ),
    )
}

/// `Dedup Rotator`.
pub open spec fn rotator_name() -> Seq<char> {
    seq!['D', 'e', 'd', 'u', 'p', ' ', 'R', 'o', 't', 'a', 't', 'o', 'r']
}

/// `Routing Updater`.
pub open spec fn updater_name() -> Seq<char> {
    seq!['R', 'o', 'u', 't', 'i', 'n', 'g', ' ', 'U', 'p', 'd', 'a', 't', 'e', 'r']
}

/// `Implicit TCP Server :<port>`.
pub open spec fn implicit_tcp_name(port: u16) -> Seq<char> {
    seq![
        'I', 'm', 'p', 'l', 'i', 'c', 'i', 't', ' ', 'T', 'C', 'P', ' ', 'S', 'e', 'r', 'v', 'e', 'r',
        ' ', ':',
    ] + decimal(port as nat)
}

/// `TLog Logger <dir>`.
pub open spec fn tlog_name(dir: Seq<char>) -> Seq<char> {
    seq!['T', 'L', 'o', 'g', ' ', 'L', 'o', 'g', 'g', 'e', 'r', ' '] + dir
}

/// The tasks a configuration starts, in start order: the de-duplication
/// rotator when a non-zero de-duplication period is set; the routing
/// updater; the ground-station TCP server when `tcp_port` is set (under the
/// endpoint id that follows the configured endpoints); the telemetry
/// logger when a log directory is set and telemetry logging is on; then
/// one task per configured endpoint, under its index.
pub open spec fn planned_tasks(c: Config) -> Seq<(Seq<char>, TaskRole, Option<EndpointId>)> {
    let rotator: Seq<(Seq<char>, TaskRole, Option<EndpointId>)> = match c.general.dedup_period_ms {
        Some(ms) if ms != 0 => seq![(rotator_name(), TaskRole::DedupRotator, None)],
        _ => seq![],
    };
    let updater = seq![(updater_name(), TaskRole::RoutingUpdater, None)];
    let tcp: Seq<(Seq<char>, TaskRole, Option<EndpointId>)> = match c.general.tcp_port {
        Some(port) => seq![
            (
                implicit_tcp_name(port),
                TaskRole::ImplicitTcpServer { port },
                Some(EndpointId(c.endpoint@.len() as usize)),
            ),
        ],
        None => seq![],
    };
    let tlog: Seq<(Seq<char>, TaskRole, Option<EndpointId>)> = match c.general.log {
        Some(dir) if c.general.log_telemetry => seq![
            (tlog_name(dir@), TaskRole::TlogLogger, None),
        ],
        _ => seq![],
    };
    rotator + updater + tcp + tlog + endpoint_tasks(c.endpoint@)
}

/// No two traffic-carrying tasks share an endpoint id: the configured
/// endpoints run under their indices and the ground-station TCP server
/// under the id that follows them, so traffic counters and routes of
/// different tasks never mix.
pub proof fn lemma_planned_endpoint_ids_distinct(c: Config, i: int, j: int)
    requires
        c.endpoint@.len() < usize::MAX,
        0 <= i < j < planned_tasks(c).len(),
        planned_tasks(c)[i].2 is Some,
        planned_tasks(c)[j].2 is Some,
    ensures
        planned_tasks(c)[i].2 != planned_tasks(c)[j].2,
{
    let t = planned_tasks(c);
    let n = c.endpoint@.len();
    let eps = endpoint_tasks(c.endpoint@);
    assert(t.len() >= n);
    assert forall|k: int| t.len() - n <= k < t.len() implies t[k] == eps[k - (t.len() - n)] by {}
    assert forall|k: int| 0 <= k < t.len() - n && (#[trigger] t[k]).2 is Some implies t[k].2 == Some(
        EndpointId(n as usize),
    ) by {}
    if j < t.len() - n {
        let rotator_len: int = match c.general.dedup_period_ms {
            Some(ms) if ms != 0 => 1,
            _ => 0,
        };
        assert(c.general.tcp_port is Some);
        assert(i == rotator_len + 1 && j == rotator_len + 1);
    } else if i < t.len() - n {
        assert(t[j].2 == Some(EndpointId((j - (t.len() - n)) as usize)));
    } else {
        assert(t[i].2 == Some(EndpointId((i - (t.len() - n)) as usize)));
        assert(t[j].2 == Some(EndpointId((j - (t.len() - n)) as usize)));
    }
}

/// The name of the task of endpoint `i`.
fn endpoint_name(e: &EndpointConfig, i: usize) -> (s: String)
    ensures
        s@ == endpoint_task_name(*e, i as nat),
{
    let mut out: Vec<char> = Vec::new();
    match e {
        EndpointConfig::Udp { address, .. } => {
            push_chars(&mut out, &['U', 'D', 'P', ' ']);
            push_chars(&mut out, &['E', 'n', 'd', 'p', 'o', 'i', 'n', 't', ' ']);
            push_decimal(&mut out, i as u64);
            push_chars(&mut out, &[' ', '(']);
            push_text(&mut out, address.as_str());
        },
        EndpointConfig::Tcp { address, .. } => {
            push_chars(&mut out, &['T', 'C', 'P', ' ']);
            push_chars(&mut out, &['E', 'n', 'd', 'p', 'o', 'i', 'n', 't', ' ']);
            push_decimal(&mut out, i as u64);
            push_chars(&mut out, &[' ', '(']);
            push_text(&mut out, address.as_str());
        },
        EndpointConfig::Serial { device, .. } => {
            push_chars(&mut out, &['S', 'e', 'r', 'i', 'a', 'l', ' ']);
            push_chars(&mut out, &['E', 'n', 'd', 'p', 'o', 'i', 'n', 't', ' ']);
            push_decimal(&mut out, i as u64);
            push_chars(&mut out, &[' ', '(']);
            push_text(&mut out, device.as_str());
        },
    }
    out.push(')');
    assert(out@ =~= endpoint_task_name(*e, i as nat));
    string_from_chars(out.as_slice())
}

/// The tasks `config` starts (see [`planned_tasks`]).
pub fn plan_tasks(config: &Config) -> (v: Vec<PlannedTask>)
    requires
        config.endpoint@.len() < usize::MAX,
    ensures
        v@.map_values(|t: PlannedTask| task_view(t)) == planned_tasks(*config),
{
    let mut v: Vec<PlannedTask> = Vec::new();
    let ghost c = *config;
    if let Some(ms) = config.general.dedup_period_ms {
        if ms != 0 {
            let name = string_from_chars(
                &['D', 'e', 'd', 'u', 'p', ' ', 'R', 'o', 't', 'a', 't', 'o', 'r'],
            );
            v.push(PlannedTask { name, role: TaskRole::DedupRotator, endpoint_id: None });
        }
    }
    let ghost head1 = v@.map_values(|t: PlannedTask| task_view(t));
    let name = string_from_chars(
        &['R', 'o', 'u', 't', 'i', 'n', 'g', ' ', 'U', 'p', 'd', 'a', 't', 'e', 'r'],
    );
    v.push(PlannedTask { name, role: TaskRole::RoutingUpdater, endpoint_id: None });
    if let Some(port) = config.general.tcp_port {
        let mut out: Vec<char> = Vec::new();
        push_chars(
            &mut out,
            &[
                'I', 'm', 'p', 'l', 'i', 'c', 'i', 't', ' ', 'T', 'C', 'P', ' ', 'S', 'e', 'r',
                'v', 'e', 'r', ' ', ':',
            ],
        );
        push_decimal(&mut out, port as u64);
        assert(out@ =~= implicit_tcp_name(port));
        let name = string_from_chars(out.as_slice());
        v.push(
            PlannedTask {
                name,
                role: TaskRole::ImplicitTcpServer { port },
                endpoint_id: Some(EndpointId(config.endpoint.len())),
            },
        );
    }
    if let Some(dir) = &config.general.log {
        if config.general.log_telemetry {
            let mut out: Vec<char> = Vec::new();
            push_chars(&mut out, &['T', 'L', 'o', 'g', ' ', 'L', 'o', 'g', 'g', 'e', 'r', ' ']);
            push_text(&mut out, dir.as_str());
            assert(out@ =~= tlog_name(dir@));
            let name = string_from_chars(out.as_slice());
            v.push(PlannedTask { name, role: TaskRole::TlogLogger, endpoint_id: None });
        }
    }
    let ghost head = v@.map_values(|t: PlannedTask| task_view(t));
    let ghost rotator: Seq<(Seq<char>, TaskRole, Option<EndpointId>)> = match c.general.dedup_period_ms {
        Some(ms) if ms != 0 => seq![(rotator_name(), TaskRole::DedupRotator, None)],
        _ => seq![],
    };
    let ghost tcp: Seq<(Seq<char>, TaskRole, Option<EndpointId>)> = match c.general.tcp_port {
        Some(port) => seq![
            (
                implicit_tcp_name(port),
                TaskRole::ImplicitTcpServer { port },
                Some(EndpointId(c.endpoint@.len() as usize)),
            ),
        ],
        None => seq![],
    };
    let ghost tlog: Seq<(Seq<char>, TaskRole, Option<EndpointId>)> = match c.general.log {
        Some(dir) if c.general.log_telemetry => seq![
            (tlog_name(dir@), TaskRole::TlogLogger, None),
        ],
        _ => seq![],
    };
    assert(head =~= rotator + seq![(updater_name(), TaskRole::RoutingUpdater, None)] + tcp + tlog);
    let n = config.endpoint.len();
    let mut i: usize = 0;
    while i < n
        invariant
            n == config.endpoint@.len(),
            i <= n,
            c == *config,
            v@.len() == head.len() + i,
            v@.map_values(|t: PlannedTask| task_view(t)) =~= head + endpoint_tasks(
                config.endpoint@.take(i as int),
            ),
        decreases n - i,
    {
        let name = endpoint_name(&config.endpoint[i], i);
        let task = PlannedTask {
            name,
            role: TaskRole::Endpoint { index: i },
            endpoint_id: Some(EndpointId(i)),
        };
        let ghost before = v@;
        let ghost tv = task_view(task);
        v.push(task);
        proof {
            let eps = config.endpoint@;
            assert(tv == (
                endpoint_task_name(eps[i as int], i as nat),
                TaskRole::Endpoint { index: i },
                Some(EndpointId(i)),
            ));
            assert(v@.map_values(|t: PlannedTask| task_view(t)) =~= before.map_values(
                |t: PlannedTask| task_view(t),
            ).push(tv));
            assert(endpoint_tasks(eps.take(i + 1)) =~= endpoint_tasks(eps.take(i as int)).push(tv));
        }
        i = i + 1;
    }
    assert(config.endpoint@.take(n as int) =~= config.endpoint@);
    v
}

/// Endpoint groups to register: `(id, group)` for each endpoint with a
/// non-empty group, in configuration order.
pub open spec fn group_entries(eps: Seq<EndpointConfig>) -> Seq<(EndpointId, Seq<char>)>
    decreases eps.len(),
{
    if eps.len() == 0 {
        seq![]
    } else {
        let rest = group_entries(eps.drop_last());
        match eps.last().group_name() {
            Some(g) => rest.push((EndpointId((eps.len() - 1) as usize), g)),
            None => rest,
        }
    }
}

/// The endpoint groups of `config` (see [`group_entries`]).
pub fn endpoint_groups(config: &Config) -> (v: Vec<(EndpointId, String)>)
    ensures
        v@.map_values(|e: (EndpointId, String)| (e.0, e.1@)) == group_entries(config.endpoint@),
{
    let mut v: Vec<(EndpointId, String)> = Vec::new();
    let n = config.endpoint.len();
    let mut i: usize = 0;
    while i < n
        invariant
            n == config.endpoint@.len(),
            i <= n,
            v@.map_values(|e: (EndpointId, String)| (e.0, e.1@)) =~= group_entries(
                config.endpoint@.take(i as int),
            ),
        decreases n - i,
    {
        proof {
            assert(config.endpoint@.take(i + 1).drop_last() =~= config.endpoint@.take(i as int));
        }
        match config.endpoint[i].group() {
            Some(g) => {
                v.push((EndpointId(i), g.to_owned()));
            },
            None => {},
        }
        i = i + 1;
    }
    assert(config.endpoint@.take(n as int) =~= config.endpoint@);
    v
}

/// Whether a configuration starts anything that carries traffic: a
/// configured endpoint or the ground-station TCP server.
pub open spec fn has_endpoints(c: Config) -> bool {
    c.endpoint@.len() > 0 || c.general.tcp_port is Some
}

/// Refuses to start a router with nothing to route between: a
/// configuration error, "No endpoints configured", unless
/// [`has_endpoints`] holds.
pub fn check_startable(config: &Config) -> (r: Result<(), RouterError>)
    ensures
        r is Ok == has_endpoints(*config),
        r matches Err(e) ==> e.is_validation_with("No endpoints configured"@),
{
    if config.endpoint.len() == 0 && config.general.tcp_port.is_none() {
        return Err(RouterError::config("No endpoints configured"));
    }
    Ok(())
}

/// The baud rate a serial endpoint opens with on its `attempt`-th start:
/// the configured rates in turn, from the first, wrapping around.
pub fn baud_for_attempt(rates: &[u32], attempt: usize) -> (r: u32)
    requires
        rates@.len() > 0,
    ensures
        r == rates@[(attempt as int) % (rates@.len() as int)],
{
    rates[attempt % rates.len()]
}

/// The stats reporter's step on a sample taken at `timestamp` (seconds):
/// whether to log the aggregates now (when at least `log_interval`
/// seconds passed since the last log, counting a clock that went back as
/// no time passed) and the time of the last log afterwards.
pub fn reporter_step(last_log_time: u64, timestamp: u64, log_interval: u64) -> (r: (bool, u64))
    ensures
        r.0 == (if timestamp >= last_log_time {
            timestamp - last_log_time
        } else {
            0
        } >= log_interval),
        r.1 == if r.0 {
            timestamp
        } else {
            last_log_time
        },
{
    let elapsed = timestamp.saturating_sub(last_log_time);
    if elapsed >= log_interval {
        (true, timestamp)
    } else {
        (false, last_log_time)
    }
}

/// Whether the stats reporter runs: only with a non-zero sampling interval
/// and a non-zero retention.
pub fn stats_reporter_enabled(sample_interval: u64, retention: u64) -> (r: bool)
    ensures
        r == (sample_interval != 0 && retention != 0),
{
    sample_interval != 0 && retention != 0
}

} // verus!
