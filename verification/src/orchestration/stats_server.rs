//! The stats query protocol: a client sends one line (`stats`,
//! `endpoint_stats` or `help`) and gets one reply, JSON for the two stats
//! queries.

use crate::endpoint_core::EndpointStatsSnapshot;
use crate::router::EndpointId;
use crate::text::{decimal, push_decimal, push_text, string_from_chars};
use vstd::prelude::*;

verus! {

/// The text of a byte string decoded as UTF-8, each invalid sequence
/// replaced by U+FFFD.
pub uninterp spec fn utf8_lossy_text(raw: Seq<u8>) -> Seq<char>;

/// `String::from_utf8_lossy`: the bytes decoded as UTF-8, invalid
/// sequences replaced by U+FFFD.
#[verifier::external_body]
fn utf8_lossy(raw: &[u8]) -> (s: String)
    ensures
        s@ == utf8_lossy_text(raw@),
{
    String::from_utf8_lossy(raw).into_owned()
}

/// Unicode `White_Space`, the characters `char::is_whitespace` accepts.
pub open spec fn is_white_space(c: char) -> bool {
    ||| '\u{9}' <= c <= '\u{d}'
    ||| c == ' '
    ||| c == '\u{85}'
    ||| c == '\u{a0}'
    ||| c == '\u{1680}'
    ||| '\u{2000}' <= c <= '\u{200a}'
    ||| c == '\u{2028}'
    ||| c == '\u{2029}'
    ||| c == '\u{202f}'
    ||| c == '\u{205f}'
    ||| c == '\u{3000}'
}

fn exec_is_white_space(c: char) -> (r: bool)
    ensures
        r == is_white_space(c),
{
    ('\u{9}' <= c && c <= '\u{d}') || c == ' ' || c == '\u{85}' || c == '\u{a0}' || c
        == '\u{1680}' || ('\u{2000}' <= c && c <= '\u{200a}') || c == '\u{2028}' || c
        == '\u{2029}' || c == '\u{202f}' || c == '\u{205f}' || c == '\u{3000}'
}

/// Number of leading white-space characters.
pub open spec fn leading_ws(s: Seq<char>) -> nat
    decreases s.len(),
{
    if s.len() > 0 && is_white_space(s[0]) {
        1 + leading_ws(s.drop_first())
    } else {
        0
    }
}

/// Number of trailing white-space characters.
pub open spec fn trailing_ws(s: Seq<char>) -> nat
    decreases s.len(),
{
    if s.len() > 0 && is_white_space(s.last()) {
        1 + trailing_ws(s.drop_last())
    } else {
        0
    }
}

/// The text without leading and trailing white space (`str::trim`).
pub open spec fn trimmed(s: Seq<char>) -> Seq<char> {
    let t = s.skip(leading_ws(s) as int);
    t.take(t.len() - trailing_ws(t))
}

proof fn lemma_leading_ws(s: Seq<char>, k: int)
    requires
        0 <= k <= s.len(),
        forall|j: int| 0 <= j < k ==> is_white_space(s[j]),
        k == s.len() || !is_white_space(s[k]),
    ensures
        leading_ws(s) == k,
    decreases k,
{
    if k > 0 {
        lemma_leading_ws(s.drop_first(), k - 1);
    }
}

proof fn lemma_trailing_ws(s: Seq<char>, k: int)
    requires
        0 <= k <= s.len(),
        forall|j: int| s.len() - k <= j < s.len() ==> is_white_space(s[j]),
        k == s.len() || !is_white_space(s[s.len() - k - 1]),
    ensures
        trailing_ws(s) == k,
    decreases k,
{
    if k > 0 {
        lemma_trailing_ws(s.drop_last(), k - 1);
    }
}

/// The text without leading and trailing white space.
fn trim_chars(s: &Vec<char>) -> (t: Vec<char>)
    ensures
        t@ == trimmed(s@),
{
    let n = s.len();
    let mut a: usize = 0;
    while a < n && exec_is_white_space(s[a])
        invariant
            n == s@.len(),
            a <= n,
            forall|j: int| 0 <= j < a ==> is_white_space(s@[j]),
        decreases n - a,
    {
        a = a + 1;
    }
    proof {
        lemma_leading_ws(s@, a as int);
    }
    let ghost rest = s@.skip(a as int);
    let mut b: usize = n;
    while b > a && exec_is_white_space(s[b - 1])
        invariant
            n == s@.len(),
            a <= b <= n,
            rest == s@.skip(a as int),
            forall|j: int| b <= j < n ==> is_white_space(s@[j]),
        decreases b - a,
    {
        b = b - 1;
    }
    proof {
        lemma_trailing_ws(rest, (n - b) as int);
    }
    let mut t: Vec<char> = Vec::new();
    let mut i: usize = a;
    while i < b
        invariant
            a <= i <= b <= n,
            n == s@.len(),
            t@ =~= s@.subrange(a as int, i as int),
        decreases b - i,
    {
        t.push(s[i]);
        i = i + 1;
    }
    assert(t@ =~= trimmed(s@));
    t
}

/// A query of the stats protocol.
#[derive(Debug, Clone, Copy, PartialEq, Eq, Structural)]
pub enum StatsCommand {
    /// `stats`: routing-table totals.
    Stats,
    /// `endpoint_stats`: per-endpoint counters.
    EndpointStats,
    /// `help`: the list of commands.
    Help,
    /// Anything else.
    Unknown,
}

/// The query a request line names: its text decoded leniently as UTF-8
/// and trimmed, then compared with the command words.
pub open spec fn command_of(raw: Seq<u8>) -> StatsCommand {
    let t = trimmed(utf8_lossy_text(raw));
    if t == seq!['s', 't', 'a', 't', 's'] {
        StatsCommand::Stats
    } else if t == seq!['e', 'n', 'd', 'p', 'o', 'i', 'n', 't', '_', 's', 't', 'a', 't', 's'] {
        StatsCommand::EndpointStats
    } else if t == seq!['h', 'e', 'l', 'p'] {
        StatsCommand::Help
    } else {
        StatsCommand::Unknown
    }
}

fn chars_equal(a: &Vec<char>, b: &[char]) -> (r: bool)
    ensures
        r == (a@ == b@),
{
    if a.len() != b.len() {
        return false;
    }
    let mut i: usize = 0;
    while i < a.len()
        invariant
            a@.len() == b@.len(),
            i <= a@.len(),
            forall|j: int| 0 <= j < i ==> a@[j] == b@[j],
        decreases a@.len() - i,
    {
        if a[i] != b[i] {
            return false;
        }
        i = i + 1;
    }
    assert(a@ =~= b@);
    true
}

/// The query named by a request line (see [`command_of`]).
pub fn parse_command(raw: &[u8]) -> (c: StatsCommand)
    ensures
        c == command_of(raw@),
{
    let text = utf8_lossy(raw);
    let chars = crate::config::socket_addr::str_chars(text.as_str());
    let t = trim_chars(&chars);
    if chars_equal(&t, &['s', 't', 'a', 't', 's']) {
        StatsCommand::Stats
    } else if chars_equal(&t, &['e', 'n', 'd', 'p', 'o', 'i', 'n', 't', '_', 's', 't', 'a', 't', 's']) {
        StatsCommand::EndpointStats
    } else if chars_equal(&t, &['h', 'e', 'l', 'p']) {
        StatsCommand::Help
    } else {
        StatsCommand::Unknown
    }
}

/// Totals of the routing table at one moment.
#[derive(Debug, Clone, Copy, PartialEq, Eq, Structural)]
pub struct RoutingStats {
    /// Number of known systems.
    pub total_systems: usize,
    /// Number of routes.
    pub total_routes: usize,
    /// Number of endpoints with routes.
    pub total_endpoints: usize,
    /// When the totals were taken, in seconds since the UNIX epoch.
    pub timestamp: u64,
}

/// `{"total_systems":<n>,"total_routes":<n>,"total_endpoints":<n>,"timestamp":<t>}`.
pub open spec fn totals_json(t: RoutingStats) -> Seq<char> {
    seq!['{', '"'] + "total_systems"@ + seq!['"', ':'] + decimal(t.total_systems as nat) + seq![
        ',',
        '"',
    ] + "total_routes"@ + seq!['"', ':'] + decimal(t.total_routes as nat) + seq![',', '"']
        + "total_endpoints"@ + seq!['"', ':'] + decimal(t.total_endpoints as nat) + seq![',', '"']
        + "timestamp"@ + seq!['"', ':'] + decimal(t.timestamp as nat) + seq!['}']
}

/// Appends `"<key>":` to `out`.
fn push_key(out: &mut Vec<char>, key: &str)
    ensures
        final(out)@ == old(out)@ + seq!['"'] + key@ + seq!['"', ':'],
{
    out.push('"');
    push_text(out, key);
    out.push('"');
    out.push(':');
}

/// The reply to `stats`.
pub fn totals_response(t: &RoutingStats) -> (s: String)
    ensures
        s@ == totals_json(*t),
{
    let mut out: Vec<char> = Vec::new();
    out.push('{');
    push_key(&mut out, "total_systems");
    push_decimal(&mut out, t.total_systems as u64);
    out.push(',');
    push_key(&mut out, "total_routes");
    push_decimal(&mut out, t.total_routes as u64);
    out.push(',');
    push_key(&mut out, "total_endpoints");
    push_decimal(&mut out, t.total_endpoints as u64);
    out.push(',');
    push_key(&mut out, "timestamp");
    push_decimal(&mut out, t.timestamp);
    out.push('}');
    assert(out@ =~= totals_json(*t));
    string_from_chars(out.as_slice())
}

/// `"<key>":<n>`.
pub open spec fn num_field(key: Seq<char>, n: nat) -> Seq<char> {
    seq!['"'] + key + seq!['"', ':'] + decimal(n)
}

/// The counters of an entry:
/// `"msgs_in":<n>,"msgs_out":<n>,"bytes_in":<n>,"bytes_out":<n>,"errors":<n>`.
pub open spec fn counters_json(s: EndpointStatsSnapshot) -> Seq<char> {
    num_field("msgs_in"@, s.msgs_in as nat) + seq![','] + num_field("msgs_out"@, s.msgs_out as nat)
        + seq![','] + num_field("bytes_in"@, s.bytes_in as nat) + seq![','] + num_field(
        "bytes_out"@,
        s.bytes_out as nat,
    ) + seq![','] + num_field("errors"@, s.errors as nat)
}

/// One endpoint's entry:
/// `{"id":<id>,"name":"<name>","msgs_in":<n>,"msgs_out":<n>,"bytes_in":<n>,"bytes_out":<n>,"errors":<n>}`
/// (the name is written as it is).
pub open spec fn entry_json(id: EndpointId, name: Seq<char>, s: EndpointStatsSnapshot) -> Seq<char> {
    seq!['{'] + num_field("id"@, id.0 as nat) + seq![','] + seq!['"'] + "name"@ + seq![
        '"',
        ':',
        '"',
    ] + name + seq!['"', ','] + counters_json(s) + seq!['}']
}

/// The entries joined by commas.
pub open spec fn entries_json(es: Seq<(EndpointId, Seq<char>, EndpointStatsSnapshot)>) -> Seq<char>
    decreases es.len(),
{
    if es.len() == 0 {
        seq![]
    } else if es.len() == 1 {
        entry_json(es[0].0, es[0].1, es[0].2)
    } else {
        entries_json(es.drop_last()) + seq![','] + entry_json(es.last().0, es.last().1, es.last().2)
    }
}

/// An endpoint entry as plain values.
pub open spec fn entry_view(e: (EndpointId, String, EndpointStatsSnapshot)) -> (
    EndpointId,
    Seq<char>,
    EndpointStatsSnapshot,
) {
    (e.0, e.1@, e.2)
}

/// Appends `"<key>":<n>`.
fn push_num_field(out: &mut Vec<char>, key: &str, n: u64)
    ensures
        final(out)@ == old(out)@ + num_field(key@, n as nat),
{
    let ghost start = out@;
    push_key(out, key);
    push_decimal(out, n);
    assert(out@ =~= start + num_field(key@, n as nat));
}

/// Appends the counters of an entry.
fn push_counters(out: &mut Vec<char>, s: &EndpointStatsSnapshot)
    ensures
        final(out)@ == old(out)@ + counters_json(*s),
{
    let ghost start = out@;
    push_num_field(out, "msgs_in", s.msgs_in);
    out.push(',');
    push_num_field(out, "msgs_out", s.msgs_out);
    out.push(',');
    push_num_field(out, "bytes_in", s.bytes_in);
    out.push(',');
    push_num_field(out, "bytes_out", s.bytes_out);
    out.push(',');
    push_num_field(out, "errors", s.errors);
    assert(out@ =~= start + counters_json(*s));
}

/// Appends one endpoint's entry.
fn push_entry(out: &mut Vec<char>, id: EndpointId, name: &str, s: &EndpointStatsSnapshot)
    ensures
        final(out)@ == old(out)@ + entry_json(id, name@, *s),
{
    let ghost start = out@;
    out.push('{');
    push_num_field(out, "id", id.0 as u64);
    out.push(',');
    push_key(out, "name");
    out.push('"');
    push_text(out, name);
    out.push('"');
    out.push(',');
    push_counters(out, s);
    out.push('}');
    assert(out@ =~= start + entry_json(id, name@, *s));
}

/// The reply to `endpoint_stats`: `[` the entries joined by commas `]`.
pub fn endpoint_stats_response(entries: &[(EndpointId, String, EndpointStatsSnapshot)]) -> (s:
    String)
    ensures
        s@ == seq!['['] + entries_json(entries@.map_values(
            |e: (EndpointId, String, EndpointStatsSnapshot)| entry_view(e),
        )) + seq![']'],
{
    let ghost es = entries@.map_values(
        |e: (EndpointId, String, EndpointStatsSnapshot)| entry_view(e),
    );
    let mut out: Vec<char> = Vec::new();
    out.push('[');
    let mut i: usize = 0;
    while i < entries.len()
        invariant
            i <= entries@.len(),
            es == entries@.map_values(
                |e: (EndpointId, String, EndpointStatsSnapshot)| entry_view(e),
            ),
            out@ =~= seq!['['] + entries_json(es.take(i as int)),
        decreases entries@.len() - i,
    {
        let ghost before = out@;
        if i > 0 {
            out.push(',');
        }
        let (id, name, snap) = &entries[i];
        push_entry(&mut out, *id, name.as_str(), snap);
        proof {
            assert(es.take(i + 1).drop_last() =~= es.take(i as int));
            assert(es.take(i + 1).last() == es[i as int]);
        }
        i = i + 1;
    }
    assert(es.take(entries@.len() as int) =~= es);
    out.push(']');
    string_from_chars(out.as_slice())
}

/// The reply to `help`.
pub fn help_response() -> (s: String)
    ensures
        s@ == "Available commands: stats, endpoint_stats, help"@,
{
    "Available commands: stats, endpoint_stats, help".to_owned()
}

/// The reply to anything else.
pub fn unknown_response() -> (s: String)
    ensures
        s@ == "Unknown command. Try 'help'"@,
{
    "Unknown command. Try 'help'".to_owned()
}

} // verus!
