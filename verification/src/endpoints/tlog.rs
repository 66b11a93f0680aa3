//! The telemetry log format: one file per run named after its start time,
//! holding for every message its arrival time (8 bytes, big-endian
//! microseconds since the UNIX epoch) followed by the raw frame.

use crate::text::{decimal, push_chars, push_decimal, string_from_chars};
use vstd::prelude::*;

verus! {

/// `flight_<start>.tlog`, the log file of a run started at `start_us`.
pub open spec fn tlog_file_name_text(start_us: u64) -> Seq<char> {
    seq!['f', 'l', 'i', 'g', 'h', 't', '_'] + decimal(start_us as nat) + seq![
        '.',
        't',
        'l',
        'o',
        'g',
    ]
}

/// The name of the log file of a run started at `start_us`.
pub fn tlog_file_name(start_us: u64) -> (s: String)
    ensures
        s@ == tlog_file_name_text(start_us),
{
    let mut out: Vec<char> = Vec::new();
    push_chars(&mut out, &['f', 'l', 'i', 'g', 'h', 't', '_']);
    push_decimal(&mut out, start_us);
    push_chars(&mut out, &['.', 't', 'l', 'o', 'g']);
    string_from_chars(out.as_slice())
}

/// The eight bytes of `x`, most significant first.
pub open spec fn be_bytes(x: u64) -> Seq<u8> {
    seq![
        (x >> 56u64) as u8,
        (x >> 48u64) as u8,
        (x >> 40u64) as u8,
        (x >> 32u64) as u8,
        (x >> 24u64) as u8,
        (x >> 16u64) as u8,
        (x >> 8u64) as u8,
        x as u8,
    ]
}

/// The log record of a message: its arrival time as eight big-endian
/// bytes, then its raw frame.
pub fn tlog_record(timestamp_us: u64, frame: &[u8]) -> (r: Vec<u8>)
    ensures
        r@ == be_bytes(timestamp_us) + frame@,
{
    let mut r: Vec<u8> = Vec::new();
    r.push((timestamp_us >> 56u64) as u8);
    r.push((timestamp_us >> 48u64) as u8);
    r.push((timestamp_us >> 40u64) as u8);
    r.push((timestamp_us >> 32u64) as u8);
    r.push((timestamp_us >> 24u64) as u8);
    r.push((timestamp_us >> 16u64) as u8);
    r.push((timestamp_us >> 8u64) as u8);
    r.push(timestamp_us as u8);
    let ghost head = r@;
    let mut i: usize = 0;
    while i < frame.len()
        invariant
            i <= frame@.len(),
            r@ =~= head + frame@.take(i as int),
        decreases frame@.len() - i,
    {
        r.push(frame[i]);
        i = i + 1;
    }
    assert(frame@.take(frame@.len() as int) =~= frame@);
    assert(head =~= be_bytes(timestamp_us));
    r
}

} // verus!
