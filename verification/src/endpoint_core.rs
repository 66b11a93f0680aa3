//! What every endpoint shares: traffic counters, the arrival clock, and the
//! two per-message decisions, whether an incoming frame is accepted and
//! whether a bus message goes out through an endpoint.

use crate::dedup::{duration_as_nanos, duration_from_millis, duration_nanos};
use crate::filter::{msg_id_items, EndpointFilters};
use crate::framing::{bytes_data, MavlinkFrame};
use crate::mavlink_utils::{MavHeader, MessageTarget};
use crate::router::{EndpointId, RoutedMessage};
use crate::text::{decimal, push_chars, push_decimal, string_from_chars};
use std::sync::atomic::AtomicU64;
use std::sync::atomic::Ordering;
use std::time::{Duration, Instant, SystemTime, UNIX_EPOCH};
use vstd::prelude::*;

verus! {

/// A point in wall-clock time.
#[verifier::external_type_specification]
#[verifier::external_body]
pub struct ExSystemTime(SystemTime);

/// Per-endpoint traffic counters, updated concurrently by the endpoint's
/// tasks.
#[derive(Debug)]
pub struct EndpointStats {
    /// Messages received on this endpoint.
    pub msgs_in: AtomicU64,
    /// Messages sent from this endpoint.
    pub msgs_out: AtomicU64,
    /// Bytes received on this endpoint.
    pub bytes_in: AtomicU64,
    /// Bytes sent from this endpoint.
    pub bytes_out: AtomicU64,
    /// Errors seen on this endpoint.
    pub errors: AtomicU64,
    /// Bus messages this endpoint missed because its receiver fell behind
    /// (added by the count the bus reports, not by one).
    pub bus_lagged: AtomicU64,
}

impl EndpointStats {
    /// All counters at zero.
    pub fn new() -> (s: Self) {
        EndpointStats {
            msgs_in: AtomicU64::new(0),
            msgs_out: AtomicU64::new(0),
            bytes_in: AtomicU64::new(0),
            bytes_out: AtomicU64::new(0),
            errors: AtomicU64::new(0),
            bus_lagged: AtomicU64::new(0),
        }
    }

    /// The counters' current values, each read on its own.
    pub fn snapshot(&self) -> (s: EndpointStatsSnapshot) {
        EndpointStatsSnapshot {
            msgs_in: self.msgs_in.load(Ordering::Relaxed),
            msgs_out: self.msgs_out.load(Ordering::Relaxed),
            bytes_in: self.bytes_in.load(Ordering::Relaxed),
            bytes_out: self.bytes_out.load(Ordering::Relaxed),
            errors: self.errors.load(Ordering::Relaxed),
            bus_lagged: self.bus_lagged.load(Ordering::Relaxed),
        }
    }

    /// Counts one outgoing message of `bytes` bytes.
    pub fn record_outgoing(&self, bytes: u64) {
        self.msgs_out.fetch_add(1, Ordering::Relaxed);
        self.bytes_out.fetch_add(bytes, Ordering::Relaxed);
    }
}

impl Default for EndpointStats {
    /// All counters at zero.
    fn default() -> (s: Self) {
        EndpointStats::new()
    }
}

/// The counters of an [`EndpointStats`] read at one moment, as plain
/// numbers.
#[derive(Debug, Clone, PartialEq, Eq, Structural)]
pub struct EndpointStatsSnapshot {
    /// Messages received.
    pub msgs_in: u64,
    /// Messages sent.
    pub msgs_out: u64,
    /// Bytes received.
    pub bytes_in: u64,
    /// Bytes sent.
    pub bytes_out: u64,
    /// Errors seen.
    pub errors: u64,
    /// Bus messages missed.
    pub bus_lagged: u64,
}

impl Default for EndpointStatsSnapshot {
    /// Every count zero.
    fn default() -> (s: Self)
        ensures
            s.msgs_in == 0 && s.msgs_out == 0 && s.bytes_in == 0,
            s.bytes_out == 0 && s.errors == 0 && s.bus_lagged == 0,
    {
        EndpointStatsSnapshot {
            msgs_in: 0,
            msgs_out: 0,
            bytes_in: 0,
            bytes_out: 0,
            errors: 0,
            bus_lagged: 0,
        }
    }
}

/// `in=<msgs>/<bytes> out=<msgs>/<bytes> err=<errors> lagged=<missed>`.
pub open spec fn snapshot_text(s: EndpointStatsSnapshot) -> Seq<char> {
    seq!['i', 'n', '='] + decimal(s.msgs_in as nat) + seq!['/'] + decimal(s.bytes_in as nat)
        + seq![' ', 'o', 'u', 't', '='] + decimal(s.msgs_out as nat) + seq!['/'] + decimal(
        s.bytes_out as nat,
    ) + seq![' ', 'e', 'r', 'r', '='] + decimal(s.errors as nat) + seq![
        ' ',
        'l',
        'a',
        'g',
        'g',
        'e',
        'd',
        '=',
    ] + decimal(s.bus_lagged as nat)
}

impl EndpointStatsSnapshot {
    /// The one-line summary the stats reporter logs:
    /// `in=<msgs>/<bytes> out=<msgs>/<bytes> err=<errors> lagged=<missed>`.
    pub fn to_string(&self) -> (t: String)
        ensures
            t@ == snapshot_text(*self),
    {
        let mut out: Vec<char> = Vec::new();
        push_chars(&mut out, &['i', 'n', '=']);
        push_decimal(&mut out, self.msgs_in);
        out.push('/');
        push_decimal(&mut out, self.bytes_in);
        push_chars(&mut out, &[' ', 'o', 'u', 't', '=']);
        push_decimal(&mut out, self.msgs_out);
        out.push('/');
        push_decimal(&mut out, self.bytes_out);
        push_chars(&mut out, &[' ', 'e', 'r', 'r', '=']);
        push_decimal(&mut out, self.errors);
        push_chars(&mut out, &[' ', 'l', 'a', 'g', 'g', 'e', 'd', '=']);
        push_decimal(&mut out, self.bus_lagged);
        assert(out@ =~= snapshot_text(*self));
        string_from_chars(out.as_slice())
    }
}

/// `SystemTime::now`: the current wall-clock time.
#[verifier::external_body]
fn system_time_now() -> SystemTime {
    SystemTime::now()
}

/// `SystemTime::duration_since(UNIX_EPOCH)`: the time elapsed since the
/// epoch, `None` for a time before it.
#[verifier::external_body]
fn since_unix_epoch(t: &SystemTime) -> Option<Duration> {
    t.duration_since(UNIX_EPOCH).ok()
}

/// A microsecond count saturated to `u64`.
pub fn saturating_micros(total: u128) -> (r: u64)
    ensures
        r == if total > u64::MAX as u128 {
            u64::MAX as u128
        } else {
            total
        },
{
    if total > u64::MAX as u128 {
        u64::MAX
    } else {
        total as u64
    }
}

/// A point of the monotonic clock.
#[verifier::external_type_specification]
#[verifier::external_body]
pub struct ExInstant(Instant);

/// `Instant::now`: the current point of the monotonic clock.
#[verifier::external_body]
fn instant_now() -> Instant {
    Instant::now()
}

/// `Instant::elapsed`: the time since the instant (zero where the clock
/// reads earlier). Not stated: its value, which rests on the clock.
#[verifier::external_body]
fn instant_elapsed(i: &Instant) -> Duration {
    i.elapsed()
}

/// A wall clock read once and then advanced by the monotonic clock, so that
/// its timestamps do not go back when the system clock is stepped.
pub struct WallClock {
    start: Instant,
    start_unix: Duration,
}

impl WallClock {
    /// The wall time of the anchor, in nanoseconds since the UNIX epoch.
    pub closed spec fn start_unix_nanos(&self) -> nat {
        duration_nanos(self.start_unix)
    }

    /// Anchors the clock now: the wall time since the UNIX epoch (zero when
    /// the system clock is set before the epoch) and the monotonic instant.
    pub fn new() -> (c: WallClock) {
        let now = system_time_now();
        let start_unix = match since_unix_epoch(&now) {
            Some(d) => d,
            None => duration_from_millis(0),
        };
        WallClock { start: instant_now(), start_unix }
    }
}

/// Microseconds of a nanosecond count, saturated to `u64`.
pub open spec fn saturated_micros_of(nanos: nat) -> int {
    if nanos / 1000 > u64::MAX {
        u64::MAX as int
    } else {
        (nanos / 1000) as int
    }
}

/// The timestamp of the time `elapsed` nanoseconds after an anchor
/// `start` nanoseconds after the UNIX epoch.
pub open spec fn anchored_at(start: nat, elapsed: nat) -> int {
    saturated_micros_of(start + elapsed)
}

/// The timestamp, in microseconds since the UNIX epoch saturated to `u64`,
/// of the time `elapsed` after an anchor taken `start_unix` after the epoch.
pub fn anchored_micros(start_unix: &Duration, elapsed: &Duration) -> (r: u64)
    ensures
        r == anchored_at(duration_nanos(*start_unix), duration_nanos(*elapsed)),
{
    let total = duration_as_nanos(start_unix) + duration_as_nanos(elapsed);
    saturating_micros(total / 1000)
}

/// Current wall-clock time in microseconds since the UNIX epoch, saturated
/// to `u64`: the clock's anchor advanced by the monotonic time since.
pub fn timestamp_us_fast(clock: &WallClock) -> (r: u64)
    ensures
        exists|elapsed: nat| #[trigger] anchored_at(clock.start_unix_nanos(), elapsed) == r,
{
    let elapsed = instant_elapsed(&clock.start);
    let r = anchored_micros(&clock.start_unix, &elapsed);
    assert(anchored_at(clock.start_unix_nanos(), duration_nanos(elapsed)) == r);
    r
}

/// Whether an incoming frame enters the router: frames from system id 0
/// (a placeholder, never a real sender) are dropped, the rest go through
/// the endpoint's incoming filters.
pub fn accept_frame(filters: &EndpointFilters, header: &MavHeader, message_id: u32) -> (r: bool)
    ensures
        r == (header.system_id != 0 && filters.incoming_allows(*header, message_id)),
{
    if header.system_id == 0 {
        return false;
    }
    filters.check_incoming(header, message_id)
}

/// What an endpoint does with a message from the bus.
#[derive(Debug, Clone, Copy, PartialEq, Eq, Structural)]
pub enum OutgoingDecision {
    /// Not sent.
    Drop,
    /// Sent.
    Send,
    /// Sent if the routing table says the endpoint leads to this target.
    AskRoute {
        /// Target system id.
        system_id: u8,
        /// Target component id.
        component_id: u8,
    },
}

/// The decision for message `msg` at endpoint `endpoint` with `filters`.
pub open spec fn outgoing_plan(
    endpoint: EndpointId,
    filters: EndpointFilters,
    msg: RoutedMessage,
) -> OutgoingDecision {
    if msg.source_id == endpoint {
        OutgoingDecision::Drop
    } else if !filters.outgoing_allows(msg.header, msg.message_id) {
        OutgoingDecision::Drop
    } else if msg.target.system_id == 0 {
        OutgoingDecision::Send
    } else {
        OutgoingDecision::AskRoute {
            system_id: msg.target.system_id,
            component_id: msg.target.component_id,
        }
    }
}

/// Whether a bus message goes out through `endpoint`: never back to the
/// endpoint it came from, never when the outgoing filters refuse it,
/// always when it is a broadcast (target system 0), and otherwise as the
/// routing table decides for its target.
pub fn outgoing_decision(
    endpoint: EndpointId,
    filters: &EndpointFilters,
    msg: &RoutedMessage,
) -> (d: OutgoingDecision)
    ensures
        d == outgoing_plan(endpoint, *filters, *msg),
{
    if msg.source_id == endpoint {
        return OutgoingDecision::Drop;
    }
    if !filters.check_outgoing(&msg.header, msg.message_id) {
        return OutgoingDecision::Drop;
    }
    if msg.target.system_id == 0 {
        return OutgoingDecision::Send;
    }
    OutgoingDecision::AskRoute {
        system_id: msg.target.system_id,
        component_id: msg.target.component_id,
    }
}

/// What an endpoint does with a bus message, case by case: a message never
/// goes back to the endpoint it came from; a message that the endpoint's
/// outgoing filters refuse is dropped, whatever its target; a broadcast
/// that passes them is sent; a targeted one that passes them is sent as the
/// routing table decides for its target. Whatever is sent or asked about
/// came from another endpoint and passed the outgoing filters.
pub proof fn lemma_outgoing_cases(endpoint: EndpointId, filters: EndpointFilters, msg: RoutedMessage)
    ensures
        msg.source_id == endpoint ==> outgoing_plan(endpoint, filters, msg) == OutgoingDecision::Drop,
        !filters.outgoing_allows(msg.header, msg.message_id) ==> outgoing_plan(
            endpoint,
            filters,
            msg,
        ) == OutgoingDecision::Drop,
        msg.source_id != endpoint && filters.outgoing_allows(msg.header, msg.message_id)
            && msg.target.system_id == 0 ==> outgoing_plan(endpoint, filters, msg)
            == OutgoingDecision::Send,
        msg.source_id != endpoint && filters.outgoing_allows(msg.header, msg.message_id)
            && msg.target.system_id != 0 ==> outgoing_plan(endpoint, filters, msg) == (
        OutgoingDecision::AskRoute {
            system_id: msg.target.system_id,
            component_id: msg.target.component_id,
        }),
        outgoing_plan(endpoint, filters, msg) != OutgoingDecision::Drop ==> msg.source_id
            != endpoint && filters.outgoing_allows(msg.header, msg.message_id),
{
}

/// A message whose id is on an endpoint's outgoing block list never goes
/// out through it, broadcast or targeted.
pub proof fn lemma_blocked_id_never_sent(endpoint: EndpointId, filters: EndpointFilters, msg: RoutedMessage)
    requires
        msg_id_items(filters.block_msg_id_out).contains(msg.message_id),
    ensures
        outgoing_plan(endpoint, filters, msg) == OutgoingDecision::Drop,
{
}

/// The bus message made from a frame received on `source`: the frame's
/// header, version and raw bytes, with the message id, arrival time and
/// target read at ingress.
pub fn routed_from_frame(
    frame: MavlinkFrame,
    source: EndpointId,
    message_id: u32,
    timestamp_us: u64,
    target: MessageTarget,
) -> (m: RoutedMessage)
    ensures
        m.source_id == source,
        m.header == frame.header,
        m.message_id == message_id,
        m.version == frame.version,
        m.timestamp_us == timestamp_us,
        bytes_data(m.serialized_bytes) == bytes_data(frame.raw_bytes),
        m.target == target,
{
    RoutedMessage {
        source_id: source,
        header: frame.header,
        message_id,
        version: frame.version,
        timestamp_us,
        serialized_bytes: frame.raw_bytes,
        target,
    }
}

} // verus!
