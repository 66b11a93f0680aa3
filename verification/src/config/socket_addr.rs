//! The textual socket-address grammar of the standard library
//! (`SocketAddr`'s `FromStr`): `a.b.c.d:port`, or `[ipv6%scope]:port`, with
//! no host-name resolution. Configuration validation needs whether an
//! endpoint address parses and, if so, its port.
//!
//! The grammar, as the standard library reads it byte by byte:
//! - a number is a maximal run of digits; it fails when the run is empty,
//!   longer than an allowed maximum, above the value range, or (where
//!   leading zeros are refused) starts with `0` and has more than one digit;
//! - IPv4: four decimal numbers (at most 3 digits, at most 255, no leading
//!   zero) separated by `.`;
//! - IPv6: up to eight hex groups (at most 4 digits) separated by `:`, one
//!   `::` for a run of zero groups, and a dotted IPv4 address allowed in
//!   place of the last two groups;
//! - a port is `:` followed by a decimal number at most 65535, leading
//!   zeros allowed;
//! - an IPv6 socket address is `[`, the address, an optional `%` and
//!   decimal scope id (a `u32`), `]`, and a port;
//! - the whole text must be consumed; the IPv4 form is tried first.

use vstd::prelude::*;

verus! {

/// `str::chars` collected: the characters of the text in order.
#[verifier::external_body]
pub(crate) fn str_chars(s: &str) -> (v: Vec<char>)
    ensures
        v@ == s@,
{
    s.chars().collect()
}

/// Value of a digit in radix 10 or 16.
pub open spec fn digit_value(c: char, radix: int) -> Option<int> {
    if '0' <= c <= '9' {
        Some(c as int - '0' as int)
    } else if radix == 16 && 'a' <= c <= 'f' {
        Some(c as int - 'a' as int + 10)
    } else if radix == 16 && 'A' <= c <= 'F' {
        Some(c as int - 'A' as int + 10)
    } else {
        None
    }
}

/// Whether position `pos` holds a digit.
pub open spec fn is_digit_at(s: Seq<char>, pos: int, radix: int) -> bool {
    0 <= pos < s.len() && digit_value(s[pos], radix) is Some
}

/// Length of the run of digits starting at `pos`.
pub open spec fn digit_run(s: Seq<char>, pos: int, radix: int) -> nat
    decreases s.len() - pos,
{
    if 0 <= pos < s.len() && digit_value(s[pos], radix) is Some {
        1 + digit_run(s, pos + 1, radix)
    } else {
        0
    }
}

/// Value of the `n` digits starting at `pos`.
pub open spec fn digits_value(s: Seq<char>, pos: int, n: nat, radix: int) -> int
    decreases n,
{
    if n == 0 {
        0
    } else {
        digits_value(s, pos, (n - 1) as nat, radix) * radix + digit_value(
            s[pos + n - 1],
            radix,
        ).unwrap()
    }
}

/// A number at `pos`: its value and the position after it. `max_digits` 0
/// means no digit limit.
pub open spec fn read_number(
    s: Seq<char>,
    pos: int,
    radix: int,
    max_digits: int,
    allow_zero_prefix: bool,
    max_value: int,
) -> Option<(int, int)> {
    let n = digit_run(s, pos, radix);
    if n == 0 {
        None
    } else if max_digits > 0 && n > max_digits {
        None
    } else if digits_value(s, pos, n, radix) > max_value {
        None
    } else if !allow_zero_prefix && s[pos] == '0' && n > 1 {
        None
    } else {
        Some((digits_value(s, pos, n, radix), pos + n))
    }
}

/// Whether position `pos` holds `c`.
pub open spec fn char_at(s: Seq<char>, pos: int, c: char) -> bool {
    0 <= pos < s.len() && s[pos] == c
}

/// Position after the separator of group `i` (none before the first).
pub open spec fn after_sep(s: Seq<char>, pos: int, i: int, sep: char) -> Option<int> {
    if i > 0 {
        if char_at(s, pos, sep) {
            Some(pos + 1)
        } else {
            None
        }
    } else {
        Some(pos)
    }
}

/// Reads IPv4 groups `i..4` from `pos`; the end position.
pub open spec fn ipv4_from(s: Seq<char>, pos: int, i: int) -> Option<int>
    decreases 4 - i,
{
    if i >= 4 {
        Some(pos)
    } else {
        match after_sep(s, pos, i, '.') {
            None => None,
            Some(q) => match read_number(s, q, 10, 3, false, 255) {
                None => None,
                Some((_, q2)) => ipv4_from(s, q2, i + 1),
            },
        }
    }
}

/// A dotted IPv4 address at `pos`; the end position.
pub open spec fn read_ipv4(s: Seq<char>, pos: int) -> Option<int> {
    ipv4_from(s, pos, 0)
}

/// Reads IPv6 groups `i..limit` from `pos`: how many groups were read,
/// whether an embedded IPv4 address ended them, and the end position.
pub open spec fn groups_from(s: Seq<char>, pos: int, i: int, limit: int) -> (int, bool, int)
    decreases limit - i,
{
    if i >= limit {
        (limit, false, pos)
    } else {
        let v4 = if i < limit - 1 {
            match after_sep(s, pos, i, ':') {
                Some(q) => read_ipv4(s, q),
                None => None,
            }
        } else {
            None
        };
        match v4 {
            Some(q) => (i + 2, true, q),
            None => match after_sep(s, pos, i, ':') {
                Some(q) => match read_number(s, q, 16, 4, true, 65535) {
                    Some((_, q2)) => groups_from(s, q2, i + 1, limit),
                    None => (i, false, pos),
                },
                None => (i, false, pos),
            },
        }
    }
}

/// An IPv6 address at `pos`; the end position.
pub open spec fn read_ipv6(s: Seq<char>, pos: int) -> Option<int> {
    let (h, h4, p1) = groups_from(s, pos, 0, 8);
    if h == 8 {
        Some(p1)
    } else if h4 {
        None
    } else if char_at(s, p1, ':') && char_at(s, p1 + 1, ':') {
        Some(groups_from(s, p1 + 2, 0, 7 - h).2)
    } else {
        None
    }
}

/// A port (`:` and a decimal number at most 65535) at `pos`.
pub open spec fn read_port(s: Seq<char>, pos: int) -> Option<(int, int)> {
    if char_at(s, pos, ':') {
        read_number(s, pos + 1, 10, 0, true, 65535)
    } else {
        None
    }
}

/// Position after an optional `%scope` at `pos`.
pub open spec fn scope_end(s: Seq<char>, pos: int) -> int {
    if char_at(s, pos, '%') {
        match read_number(s, pos + 1, 10, 0, true, u32::MAX as int) {
            Some((_, q)) => q,
            None => pos,
        }
    } else {
        pos
    }
}

/// An IPv4 socket address at the start: port and end position.
pub open spec fn socket_v4(s: Seq<char>) -> Option<(int, int)> {
    match read_ipv4(s, 0) {
        Some(p) => read_port(s, p),
        None => None,
    }
}

/// An IPv6 socket address at the start: port and end position.
pub open spec fn socket_v6(s: Seq<char>) -> Option<(int, int)> {
    if char_at(s, 0, '[') {
        match read_ipv6(s, 1) {
            Some(p) => {
                let q = scope_end(s, p);
                if char_at(s, q, ']') {
                    read_port(s, q + 1)
                } else {
                    None
                }
            },
            None => None,
        }
    } else {
        None
    }
}

/// The port of a socket-address text, or `None` when the text is not a
/// socket address.
pub open spec fn socket_addr_port(s: Seq<char>) -> Option<u16> {
    match socket_v4(s) {
        Some((port, end)) => if end == s.len() {
            Some(port as u16)
        } else {
            None
        },
        None => match socket_v6(s) {
            Some((port, end)) => if end == s.len() {
                Some(port as u16)
            } else {
                None
            },
            None => None,
        },
    }
}

/// The digit run ends where the digits stop.
proof fn lemma_digit_run(s: Seq<char>, pos: int, j: int, radix: int)
    requires
        0 <= pos <= j <= s.len(),
        forall|t: int| pos <= t < j ==> is_digit_at(s, t, radix),
        !is_digit_at(s, j, radix),
    ensures
        digit_run(s, pos, radix) == j - pos,
    decreases j - pos,
{
    if pos < j {
        assert(is_digit_at(s, pos, radix));
        lemma_digit_run(s, pos + 1, j, radix);
    } else {
        assert(!is_digit_at(s, pos, radix));
    }
}

/// Digit values are not negative.
proof fn lemma_digits_value_nonneg(s: Seq<char>, pos: int, n: nat, radix: int)
    requires
        radix >= 1,
        forall|t: int| pos <= t < pos + n ==> is_digit_at(s, t, radix),
    ensures
        digits_value(s, pos, n, radix) >= 0,
    decreases n,
{
    if n > 0 {
        assert(is_digit_at(s, pos + n - 1, radix));
        lemma_digits_value_nonneg(s, pos, (n - 1) as nat, radix);
        let v = digits_value(s, pos, (n - 1) as nat, radix);
        assert(v * radix >= 0) by (nonlinear_arith)
            requires
                v >= 0,
                radix >= 1,
        ;
    }
}

/// The value of a digit character.
fn exec_digit_value(c: char, radix: u32) -> (r: Option<u32>)
    requires
        radix == 10 || radix == 16,
    ensures
        r matches Some(d) ==> digit_value(c, radix as int) == Some(d as int) && d < radix,
        r is None ==> digit_value(c, radix as int) is None,
{
    if '0' <= c && c <= '9' {
        Some((c as u32) - ('0' as u32))
    } else if radix == 16 && 'a' <= c && c <= 'f' {
        Some((c as u32) - ('a' as u32) + 10)
    } else if radix == 16 && 'A' <= c && c <= 'F' {
        Some((c as u32) - ('A' as u32) + 10)
    } else {
        None
    }
}

/// Reads a number at `pos` (see [`read_number`]).
fn exec_read_number(
    s: &Vec<char>,
    pos: usize,
    radix: u32,
    max_digits: usize,
    allow_zero_prefix: bool,
    max_value: u32,
) -> (r: Option<(u32, usize)>)
    requires
        radix == 10 || radix == 16,
        pos <= s@.len(),
    ensures
        r matches Some((v, q)) ==> read_number(
            s@,
            pos as int,
            radix as int,
            max_digits as int,
            allow_zero_prefix,
            max_value as int,
        ) == Some((v as int, q as int)),
        r is None ==> read_number(
            s@,
            pos as int,
            radix as int,
            max_digits as int,
            allow_zero_prefix,
            max_value as int,
        ) is None,
        r matches Some((v, q)) ==> pos < q <= s@.len(),
{
    let mut j: usize = pos;
    let mut acc: u64 = 0;
    let mut over = false;
    while j < s.len() && exec_digit_value(s[j], radix).is_some()
        invariant
            radix == 10 || radix == 16,
            pos <= j <= s@.len(),
            forall|t: int| pos <= t < j ==> is_digit_at(s@, t, radix as int),
            !over ==> acc == digits_value(s@, pos as int, (j - pos) as nat, radix as int) && acc
                <= max_value,
            over ==> digits_value(s@, pos as int, (j - pos) as nat, radix as int) > max_value,
        decreases s@.len() - j,
    {
        let d = match exec_digit_value(s[j], radix) {
            Some(d) => d,
            None => 0,
        };
        proof {
            lemma_digits_value_nonneg(s@, pos as int, (j - pos) as nat, radix as int);
            assert(digits_value(s@, pos as int, (j + 1 - pos) as nat, radix as int)
                == digits_value(s@, pos as int, (j - pos) as nat, radix as int) * radix as int
                + d as int);
        }
        if over {
            proof {
                let v = digits_value(s@, pos as int, (j - pos) as nat, radix as int);
                assert(v * radix as int + d as int > max_value) by (nonlinear_arith)
                    requires
                        v > max_value,
                        radix >= 1,
                        d >= 0,
                ;
            }
        } else {
            assert(acc * (radix as u64) <= 4294967295 * 16) by (nonlinear_arith)
                requires
                    acc <= 4294967295,
                    radix <= 16,
            ;
            let next = acc * (radix as u64) + (d as u64);
            if next > max_value as u64 {
                over = true;
            } else {
                acc = next;
            }
        }
        j = j + 1;
    }
    proof {
        lemma_digit_run(s@, pos as int, j as int, radix as int);
    }
    let n = j - pos;
    if n == 0 {
        return None;
    }
    if max_digits > 0 && n > max_digits {
        return None;
    }
    if over {
        return None;
    }
    if !allow_zero_prefix && s[pos] == '0' && n > 1 {
        return None;
    }
    Some((acc as u32, j))
}

/// Position after the separator of group `i`.
fn exec_after_sep(s: &Vec<char>, pos: usize, i: usize, sep: char) -> (r: Option<usize>)
    requires
        pos <= s@.len(),
    ensures
        r matches Some(q) ==> after_sep(s@, pos as int, i as int, sep) == Some(q as int) && q
            <= s@.len(),
        r is None ==> after_sep(s@, pos as int, i as int, sep) is None,
{
    if i > 0 {
        if pos < s.len() && s[pos] == sep {
            Some(pos + 1)
        } else {
            None
        }
    } else {
        Some(pos)
    }
}

/// Reads a dotted IPv4 address at `pos`.
fn exec_read_ipv4(s: &Vec<char>, pos: usize) -> (r: Option<usize>)
    requires
        pos <= s@.len(),
    ensures
        r matches Some(q) ==> read_ipv4(s@, pos as int) == Some(q as int) && q <= s@.len(),
        r is None ==> read_ipv4(s@, pos as int) is None,
{
    let mut p = pos;
    let mut i: usize = 0;
    while i < 4
        invariant
            i <= 4,
            p <= s@.len(),
            read_ipv4(s@, pos as int) == ipv4_from(s@, p as int, i as int),
        decreases 4 - i,
    {
        let q = match exec_after_sep(s, p, i, '.') {
            Some(q) => q,
            None => return None,
        };
        let q2 = match exec_read_number(s, q, 10, 3, false, 255) {
            Some((_, q2)) => q2,
            None => return None,
        };
        p = q2;
        i = i + 1;
    }
    Some(p)
}

/// Reads IPv6 groups `0..limit` at `pos` (see [`groups_from`]).
fn exec_read_groups(s: &Vec<char>, pos: usize, limit: usize) -> (r: (usize, bool, usize))
    requires
        pos <= s@.len(),
        limit <= 8,
    ensures
        groups_from(s@, pos as int, 0, limit as int) == (r.0 as int, r.1, r.2 as int),
        r.2 <= s@.len(),
        r.0 <= limit,
{
    let mut p = pos;
    let mut i: usize = 0;
    while i < limit
        invariant
            i <= limit <= 8,
            p <= s@.len(),
            groups_from(s@, pos as int, 0, limit as int) == groups_from(
                s@,
                p as int,
                i as int,
                limit as int,
            ),
        decreases limit - i,
    {
        if i + 1 < limit {
            if let Some(q) = exec_after_sep(s, p, i, ':') {
                if let Some(q2) = exec_read_ipv4(s, q) {
                    return (i + 2, true, q2);
                }
            }
        }
        let q = match exec_after_sep(s, p, i, ':') {
            Some(q) => q,
            None => return (i, false, p),
        };
        match exec_read_number(s, q, 16, 4, true, 65535) {
            Some((_, q2)) => {
                p = q2;
            },
            None => return (i, false, p),
        }
        i = i + 1;
    }
    (limit, false, p)
}

/// Reads an IPv6 address at `pos`.
fn exec_read_ipv6(s: &Vec<char>, pos: usize) -> (r: Option<usize>)
    requires
        pos <= s@.len(),
    ensures
        r matches Some(q) ==> read_ipv6(s@, pos as int) == Some(q as int) && q <= s@.len(),
        r is None ==> read_ipv6(s@, pos as int) is None,
{
    let (h, h4, p1) = exec_read_groups(s, pos, 8);
    if h == 8 {
        return Some(p1);
    }
    if h4 {
        return None;
    }
    if p1 < s.len() && p1 + 1 < s.len() && s[p1] == ':' && s[p1 + 1] == ':' {
        let (_, _, p3) = exec_read_groups(s, p1 + 2, 7 - h);
        Some(p3)
    } else {
        None
    }
}

/// Reads a port at `pos`.
fn exec_read_port(s: &Vec<char>, pos: usize) -> (r: Option<(u32, usize)>)
    requires
        pos <= s@.len(),
    ensures
        r matches Some((v, q)) ==> read_port(s@, pos as int) == Some((v as int, q as int)) && q
            <= s@.len(),
        r is None ==> read_port(s@, pos as int) is None,
{
    if pos < s.len() && s[pos] == ':' {
        exec_read_number(s, pos + 1, 10, 0, true, 65535)
    } else {
        None
    }
}

/// The port of a socket-address text, or `None` when the text is not a
/// socket address in the standard library's grammar.
pub fn parse_socket_addr_port(text: &str) -> (r: Option<u16>)
    ensures
        r == socket_addr_port(text@),
{
    let s = str_chars(text);
    if let Some(p) = exec_read_ipv4(&s, 0) {
        if let Some((port, end)) = exec_read_port(&s, p) {
            if end == s.len() {
                return Some(port as u16);
            }
            return None;
        }
    }
    if s.len() == 0 || s[0] != '[' {
        return None;
    }
    let p = match exec_read_ipv6(&s, 1) {
        Some(p) => p,
        None => return None,
    };
    let mut q = p;
    if p < s.len() && s[p] == '%' {
        if let Some((_, q2)) = exec_read_number(&s, p + 1, 10, 0, true, 4294967295) {
            q = q2;
        }
    }
    if !(q < s.len() && s[q] == ']') {
        return None;
    }
    match exec_read_port(&s, q + 1) {
        Some((port, end)) => if end == s.len() {
            Some(port as u16)
        } else {
            None
        },
        None => None,
    }
}

} // verus!
