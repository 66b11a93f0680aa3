//! Framing of MAVLink packets out of a byte stream.
//!
//! A [`StreamParser`] accumulates bytes and hands out complete MAVLink v1
//! or v2 frames: it skips to the next start byte (0xFD or 0xFE), lets the
//! `mavlink` crate decode a frame there (v2 first, then v1), waits for more
//! bytes when the frame is incomplete, and skips the start byte when
//! neither version decodes.

use crate::mavlink_utils::{mav_message_id, message_target_fields, MavHeader, MavlinkVersion, TargetFields};
use bytes::{Buf, Bytes, BytesMut};
use mavlink::common::MavMessage;
use mavlink::Message;
use vstd::prelude::*;

verus! {

/// Growable byte buffer of the `bytes` crate.
#[verifier::external_type_specification]
#[verifier::external_body]
pub struct ExBytesMut(BytesMut);

/// Immutable shared byte buffer of the `bytes` crate.
#[verifier::external_type_specification]
#[verifier::external_body]
pub struct ExBytes(Bytes);

/// A decoded message of the `mavlink` crate's common dialect.
#[verifier::external_type_specification]
#[verifier::external_body]
pub struct ExMavMessage(MavMessage);

/// The bytes a `BytesMut` holds.
pub uninterp spec fn bytes_mut_data(b: BytesMut) -> Seq<u8>;

/// The bytes a `Bytes` holds.
pub uninterp spec fn bytes_data(b: Bytes) -> Seq<u8>;

/// `BytesMut::with_capacity`: an empty buffer.
#[verifier::external_body]
fn bytes_mut_with_capacity(n: usize) -> (b: BytesMut)
    ensures
        bytes_mut_data(b) == Seq::<u8>::empty(),
{
    BytesMut::with_capacity(n)
}

/// `BytesMut::len`.
#[verifier::external_body]
fn bytes_mut_len(b: &BytesMut) -> (n: usize)
    ensures
        n == bytes_mut_data(*b).len(),
{
    b.len()
}

/// `Buf::advance` on a `BytesMut`: drops the first `n` bytes.
#[verifier::external_body]
fn bytes_mut_advance(b: &mut BytesMut, n: usize)
    requires
        n <= bytes_mut_data(*old(b)).len(),
    ensures
        bytes_mut_data(*final(b)) == bytes_mut_data(*old(b)).skip(n as int),
{
    b.advance(n)
}

/// `BytesMut::clear`: drops every byte.
#[verifier::external_body]
fn bytes_mut_clear(b: &mut BytesMut)
    ensures
        bytes_mut_data(*final(b)) == Seq::<u8>::empty(),
{
    b.clear()
}

/// `BytesMut::extend_from_slice`: appends the bytes of `data`.
#[verifier::external_body]
fn bytes_mut_extend(b: &mut BytesMut, data: &[u8])
    ensures
        bytes_mut_data(*final(b)) == bytes_mut_data(*old(b)) + data@,
{
    b.extend_from_slice(data)
}

/// `BytesMut::split_to`: takes the first `n` bytes out into a buffer of
/// their own.
#[verifier::external_body]
fn bytes_mut_split_to(b: &mut BytesMut, n: usize) -> (head: BytesMut)
    requires
        n <= bytes_mut_data(*old(b)).len(),
    ensures
        bytes_mut_data(head) == bytes_mut_data(*old(b)).take(n as int),
        bytes_mut_data(*final(b)) == bytes_mut_data(*old(b)).skip(n as int),
{
    b.split_to(n)
}

/// `BytesMut::freeze`: the same bytes as an immutable `Bytes`.
#[verifier::external_body]
fn bytes_mut_freeze(b: BytesMut) -> (r: Bytes)
    ensures
        bytes_data(r) == bytes_mut_data(b),
{
    b.freeze()
}

/// The buffer's bytes as a slice (`Deref` of `BytesMut`).
#[verifier::external_body]
fn bytes_mut_as_slice(b: &BytesMut) -> (s: &[u8])
    ensures
        s@ == bytes_mut_data(*b),
{
    &b[..]
}

/// `Clone for Bytes`: a handle to the same bytes.
pub assume_specification[ <Bytes as Clone>::clone ](b: &Bytes) -> (r: Bytes)
    ensures
        bytes_data(r) == bytes_data(*b),
;

/// Index of the first byte equal to `n1` or `n2`.
pub open spec fn first_of_either(hay: Seq<u8>, n1: u8, n2: u8) -> Option<int> {
    if exists|i: int| 0 <= i < hay.len() && (hay[i] == n1 || hay[i] == n2) {
        Some(
            choose|i: int|
                0 <= i < hay.len() && (hay[i] == n1 || hay[i] == n2) && forall|j: int|
                    0 <= j < i ==> hay[j] != n1 && hay[j] != n2,
        )
    } else {
        None
    }
}

/// `memchr::memchr2`: the index of the first byte of `hay` equal to `n1`
/// or `n2`, or `None` when there is none.
#[verifier::external_body]
fn memchr2(n1: u8, n2: u8, hay: &[u8]) -> (r: Option<usize>)
    ensures
        r matches Some(i) ==> i < hay@.len() && (hay@[i as int] == n1 || hay@[i as int] == n2)
            && forall|j: int| 0 <= j < i ==> hay@[j] != n1 && hay@[j] != n2,
        r is None ==> forall|j: int| 0 <= j < hay@.len() ==> hay@[j] != n1 && hay@[j] != n2,
{
    memchr::memchr2(n1, n2, hay)
}

/// What a decoder of the `mavlink` crate makes of a byte buffer read from
/// its start.
pub enum FrameRead {
    /// A frame decoded with this header, `consumed` bytes into the buffer.
    Decoded {
        /// The frame's header.
        header: MavHeader,
        /// The decoded message's id and target fields.
        targets: TargetFields,
        /// Bytes read from the buffer, up to the end of the decoded frame.
        consumed: usize,
    },
    /// The buffer ended before a frame was complete.
    NeedMoreData,
    /// The decoder failed otherwise.
    Invalid,
}

/// Why a frame could not be decoded.
pub enum ReadFailure {
    /// More bytes are needed.
    NeedMoreData,
    /// The bytes do not decode.
    Invalid,
}

/// What `mavlink::read_v2_msg` (common dialect) makes of a buffer.
pub uninterp spec fn mavlink_v2_read(buf: Seq<u8>) -> FrameRead;

/// What `mavlink::read_v1_msg` (common dialect) makes of a buffer.
pub uninterp spec fn mavlink_v1_read(buf: Seq<u8>) -> FrameRead;

/// The outcome of a decoder call without the decoded message.
pub open spec fn read_outcome(r: Result<(MavHeader, MavMessage, u32, usize), ReadFailure>) -> FrameRead {
    match r {
        Ok((header, m, _, consumed)) => FrameRead::Decoded { header, targets: message_target_fields(m), consumed },
        Err(ReadFailure::NeedMoreData) => FrameRead::NeedMoreData,
        Err(ReadFailure::Invalid) => FrameRead::Invalid,
    }
}

/// `mavlink::read_v2_msg` over a cursor on `buf`: the decoder skips to a
/// 0xFD start byte, skips frames whose checksum fails, and decodes the
/// next frame. The result is the header, the message, its id (as
/// `Message::message_id` gives it) and how far the cursor got; an
/// end-of-input error means more bytes are needed. The cursor always reads
/// at least one byte and never past the buffer. The outcome named by
/// [`mavlink_v2_read`] carries the decoded message's target fields.
#[verifier::external_body]
fn read_v2(buf: &[u8]) -> (r: Result<(MavHeader, MavMessage, u32, usize), ReadFailure>)
    ensures
        read_outcome(r) == mavlink_v2_read(buf@),
        r matches Ok((_, _, _, n)) ==> 1 <= n <= buf@.len(),
        r matches Ok((_, m, id, _)) ==> id == mav_message_id(m),
{
    let mut cursor = std::io::Cursor::new(buf);
    match mavlink::read_v2_msg::<MavMessage, _>(&mut cursor) {
        Ok((h, m)) => {
            let id = m.message_id();
            Ok((MavHeader { system_id: h.system_id, component_id: h.component_id, sequence: h.sequence }, m, id, cursor.position() as usize))
        },
        Err(mavlink::error::MessageReadError::Io(e)) if e.kind() == std::io::ErrorKind::UnexpectedEof => Err(ReadFailure::NeedMoreData),
        Err(_) => Err(ReadFailure::Invalid),
    }
}

/// `mavlink::read_v1_msg` over a cursor on `buf`, as [`read_v2`] for the
/// 0xFE start byte of MAVLink 1.
#[verifier::external_body]
fn read_v1(buf: &[u8]) -> (r: Result<(MavHeader, MavMessage, u32, usize), ReadFailure>)
    ensures
        read_outcome(r) == mavlink_v1_read(buf@),
        r matches Ok((_, _, _, n)) ==> 1 <= n <= buf@.len(),
        r matches Ok((_, m, id, _)) ==> id == mav_message_id(m),
{
    let mut cursor = std::io::Cursor::new(buf);
    match mavlink::read_v1_msg::<MavMessage, _>(&mut cursor) {
        Ok((h, m)) => {
            let id = m.message_id();
            Ok((MavHeader { system_id: h.system_id, component_id: h.component_id, sequence: h.sequence }, m, id, cursor.position() as usize))
        },
        Err(mavlink::error::MessageReadError::Io(e)) if e.kind() == std::io::ErrorKind::UnexpectedEof => Err(ReadFailure::NeedMoreData),
        Err(_) => Err(ReadFailure::Invalid),
    }
}

/// Largest number of bytes the parser keeps buffered (1 MiB).
pub const MAX_BUFFER_SIZE: usize = 1048576;

/// Start byte of a MAVLink 2 frame.
pub const STX_V2: u8 = 0xFD;

/// Start byte of a MAVLink 1 frame.
pub const STX_V1: u8 = 0xFE;

/// A decoded frame: header, message, version, and the bytes it was read
/// from.
pub struct MavlinkFrame {
    /// The frame's header.
    pub header: MavHeader,
    /// The decoded message.
    pub message: MavMessage,
    /// The decoded message's id.
    pub message_id: u32,
    /// MAVLink version of the frame.
    pub version: MavlinkVersion,
    /// The bytes read for this frame: from the start byte the search
    /// stopped at to the frame's end (a frame with a bad checksum that the
    /// decoder skipped on the way is included).
    pub raw_bytes: Bytes,
}

/// The plain part of a frame handed out: version, header, the message's id
/// and target fields, and raw bytes.
pub type FrameInfo = (MavlinkVersion, MavHeader, TargetFields, Seq<u8>);

/// One call of `parse_next` on a buffer: the frame handed out, if any, and
/// the bytes left buffered.
pub open spec fn parse_step(buf: Seq<u8>) -> (Option<FrameInfo>, Seq<u8>)
    decreases buf.len(),
{
    if buf.len() == 0 {
        (None, buf)
    } else {
        match first_of_either(buf, STX_V2, STX_V1) {
            None => (None, Seq::<u8>::empty()),
            Some(i) => {
                let b = buf.skip(i);
                match mavlink_v2_read(b) {
                    FrameRead::Decoded { header, targets, consumed } => (
                        Some((MavlinkVersion::V2, header, targets, b.take(consumed as int))),
                        b.skip(consumed as int),
                    ),
                    r2 => match mavlink_v1_read(b) {
                        FrameRead::Decoded { header, targets, consumed } => (
                            Some((MavlinkVersion::V1, header, targets, b.take(consumed as int))),
                            b.skip(consumed as int),
                        ),
                        r1 => if r2 is NeedMoreData || r1 is NeedMoreData {
                            (None, b)
                        } else if 0 <= i < buf.len() {
                            parse_step(b.skip(1))
                        } else {
                            (None, b)
                        },
                    },
                }
            },
        }
    }
}

proof fn lemma_least_match(hay: Seq<u8>, n1: u8, n2: u8, k: int)
    requires
        0 <= k < hay.len(),
        hay[k] == n1 || hay[k] == n2,
    ensures
        exists|i: int|
            0 <= i < hay.len() && (hay[i] == n1 || hay[i] == n2) && forall|j: int|
                0 <= j < i ==> hay[j] != n1 && hay[j] != n2,
    decreases k,
{
    if exists|j: int| 0 <= j < k && (hay[j] == n1 || hay[j] == n2) {
        let j = choose|j: int| 0 <= j < k && (hay[j] == n1 || hay[j] == n2);
        lemma_least_match(hay, n1, n2, j);
    } else {
        assert(0 <= k < hay.len() && (hay[k] == n1 || hay[k] == n2) && forall|j: int|
            0 <= j < k ==> hay[j] != n1 && hay[j] != n2);
    }
}

/// When no frame comes out of the buffer, what stays buffered is nothing,
/// or bytes from a start byte on that a decoder needs more bytes to
/// finish: bytes before the first start byte, and start bytes that lead to
/// no frame, are dropped. The buffer is emptied only where it held no
/// start byte, or where both decoders refuse, without asking for more
/// bytes, what follows each start byte it held.
pub proof fn lemma_no_frame_leaves_nothing_or_a_partial_frame(buf: Seq<u8>)
    ensures
        (parse_step(buf).0 is None && parse_step(buf).1.len() == 0) ==> forall|k: int|
            0 <= k < buf.len() && (buf[k] == STX_V2 || buf[k] == STX_V1) ==> (mavlink_v2_read(
                #[trigger] buf.skip(k),
            ) is Invalid && mavlink_v1_read(buf.skip(k)) is Invalid),
        parse_step(buf).0 is None ==> {
            let rest = parse_step(buf).1;
            ||| rest.len() == 0
            ||| (rest[0] == STX_V2 || rest[0] == STX_V1) && (mavlink_v2_read(rest) is NeedMoreData
                || mavlink_v1_read(rest) is NeedMoreData)
        },
        (forall|k: int| 0 <= k < buf.len() ==> buf[k] != STX_V2 && buf[k] != STX_V1) ==> (
        parse_step(buf).0 is None && parse_step(buf).1.len() == 0),
    decreases buf.len(),
{
    if buf.len() > 0 {
        if exists|k: int| 0 <= k < buf.len() && (buf[k] == STX_V2 || buf[k] == STX_V1) {
            let k = choose|k: int| 0 <= k < buf.len() && (buf[k] == STX_V2 || buf[k] == STX_V1);
            lemma_least_match(buf, STX_V2, STX_V1, k);
            let i = first_of_either(buf, STX_V2, STX_V1).unwrap();
            assert(0 <= i < buf.len() && (buf[i] == STX_V2 || buf[i] == STX_V1));
            let b = buf.skip(i);
            assert(b[0] == buf[i]);
            lemma_no_frame_leaves_nothing_or_a_partial_frame(b.skip(1));
            assert forall|k: int| i < k < buf.len() implies #[trigger] buf.skip(k) == b.skip(1).skip(
                k - i - 1,
            ) && buf[k] == b.skip(1)[k - i - 1] by {
                assert(buf.skip(k) =~= b.skip(1).skip(k - i - 1));
            }
        }
    }
}

/// The buffer after `push(data)`: when the total would exceed the limit,
/// the old bytes are dropped first, then `data` is appended.
pub open spec fn pushed(buf: Seq<u8>, data: Seq<u8>) -> Seq<u8> {
    if buf.len() + data.len() > MAX_BUFFER_SIZE {
        data
    } else {
        buf + data
    }
}

/// `Bytes::copy_from_slice`: a buffer holding a copy of `s`.
#[verifier::external_body]
fn bytes_copy_from_slice(s: &[u8]) -> (b: Bytes)
    ensures
        bytes_data(b) == s@,
{
    Bytes::copy_from_slice(s)
}

/// The frame a datagram starts with: the MAVLink 2 decoder reads from the
/// datagram's first byte and, failing it, the MAVLink 1 decoder does; the
/// raw bytes are those read up to the end of the decoded frame.
pub open spec fn datagram_frame(d: Seq<u8>) -> Option<FrameInfo> {
    match mavlink_v2_read(d) {
        FrameRead::Decoded { header, targets, consumed } => Some(
            (MavlinkVersion::V2, header, targets, d.take(consumed as int)),
        ),
        _ => match mavlink_v1_read(d) {
            FrameRead::Decoded { header, targets, consumed } => Some(
                (MavlinkVersion::V1, header, targets, d.take(consumed as int)),
            ),
            _ => None,
        },
    }
}

/// Decodes the frame a UDP datagram starts with (see [`datagram_frame`]);
/// `None` when neither version decodes.
pub fn parse_datagram(d: &[u8]) -> (r: Option<MavlinkFrame>)
    ensures
        r is Some == datagram_frame(d@) is Some,
        r matches Some(f) ==> datagram_frame(d@) == Some(
            (f.version, f.header, message_target_fields(f.message), bytes_data(f.raw_bytes)),
        ),
        r matches Some(f) ==> f.message_id == mav_message_id(f.message),
{
    let (header, message, message_id, n, version) = match read_v2(d) {
        Ok((header, message, message_id, n)) => (header, message, message_id, n, MavlinkVersion::V2),
        Err(_) => match read_v1(d) {
            Ok((header, message, message_id, n)) => (header, message, message_id, n, MavlinkVersion::V1),
            Err(_) => return None,
        },
    };
    let raw = bytes_copy_from_slice(&d[0..n]);
    assert(d@.subrange(0, n as int) =~= d@.take(n as int));
    Some(MavlinkFrame { header, message, message_id, version, raw_bytes: raw })
}

/// `true` when `tail` is what is left of `whole` after some bytes were
/// taken from its front.
pub open spec fn is_suffix(tail: Seq<u8>, whole: Seq<u8>) -> bool {
    tail.len() <= whole.len() && tail =~= whole.skip(whole.len() - tail.len())
}

/// Pushing never lets the buffer outgrow the limit when the pushed chunk
/// itself fits: the result is at most `MAX_BUFFER_SIZE` bytes; it is the old
/// bytes followed by the new ones when they fit together, and the new bytes
/// alone otherwise.
pub proof fn lemma_push_within_limit(buf: Seq<u8>, data: Seq<u8>)
    requires
        data.len() <= MAX_BUFFER_SIZE,
    ensures
        buf.len() <= MAX_BUFFER_SIZE ==> pushed(buf, data).len() <= MAX_BUFFER_SIZE,
        buf.len() + data.len() <= MAX_BUFFER_SIZE ==> pushed(buf, data) == buf + data,
        buf.len() + data.len() > MAX_BUFFER_SIZE ==> pushed(buf, data) == data,
{
}

proof fn lemma_suffix_trans(a: Seq<u8>, b: Seq<u8>, c: Seq<u8>)
    requires
        is_suffix(a, b),
        is_suffix(b, c),
    ensures
        is_suffix(a, c),
{
    assert(a =~= c.skip(c.len() - a.len()));
}

proof fn lemma_skip_is_suffix(b: Seq<u8>, n: int)
    requires
        0 <= n <= b.len(),
    ensures
        is_suffix(b.skip(n), b),
{
}

proof fn lemma_split_is_suffix(b: Seq<u8>, n: int, whole: Seq<u8>)
    requires
        0 <= n <= b.len(),
        is_suffix(b, whole),
    ensures
        is_suffix(b.take(n) + b.skip(n), whole),
        is_suffix(b.skip(n), whole),
{
    assert(b.take(n) + b.skip(n) =~= b);
    lemma_skip_is_suffix(b, n);
    lemma_suffix_trans(b.skip(n), b, whole);
}

/// Accumulates bytes and extracts MAVLink frames from them.
pub struct StreamParser {
    buffer: BytesMut,
}

impl Default for StreamParser {
    /// A parser with nothing buffered.
    fn default() -> (p: Self)
        ensures
            p.data() == Seq::<u8>::empty(),
    {
        StreamParser::new()
    }
}

impl StreamParser {
    /// The buffered bytes.
    pub closed spec fn data(&self) -> Seq<u8> {
        bytes_mut_data(self.buffer)
    }

    /// A parser with nothing buffered.
    pub fn new() -> (p: Self)
        ensures
            p.data() == Seq::<u8>::empty(),
    {
        StreamParser { buffer: bytes_mut_with_capacity(4096) }
    }

    /// Number of buffered bytes.
    pub fn buffered_len(&self) -> (n: usize)
        ensures
            n == self.data().len(),
    {
        bytes_mut_len(&self.buffer)
    }

    /// Appends bytes. When the buffer would exceed 1 MiB, it is cleared
    /// first, so it then holds the new bytes alone.
    pub fn push(&mut self, data: &[u8])
        ensures
            final(self).data() == pushed(old(self).data(), data@),
    {
        let len = bytes_mut_len(&self.buffer);
        if len as u128 + data.len() as u128 > MAX_BUFFER_SIZE as u128 {
            bytes_mut_clear(&mut self.buffer);
        }
        bytes_mut_extend(&mut self.buffer, data);
        assert(Seq::<u8>::empty() + data@ =~= data@);
    }

    /// Hands out the next complete frame, if the buffer holds one.
    ///
    /// Skips to the first start byte (clearing the buffer when there is
    /// none), then lets the MAVLink 2 decoder and, failing it, the MAVLink 1
    /// decoder read from there. A decoded frame is taken out of the buffer
    /// with the bytes consumed for it. When a decoder needs more bytes the
    /// buffer is kept from the start byte on and `None` is returned; when
    /// neither decodes, the start byte is dropped and the search goes on.
    pub fn parse_next(&mut self) -> (r: Option<MavlinkFrame>)
        ensures
            final(self).data() == parse_step(old(self).data()).1,
            r is Some == parse_step(old(self).data()).0 is Some,
            r matches Some(f) ==> parse_step(old(self).data()).0 == Some(
                (f.version, f.header, message_target_fields(f.message), bytes_data(f.raw_bytes)),
            ),
            r matches Some(f) ==> f.message_id == mav_message_id(f.message),
            is_suffix(final(self).data(), old(self).data()),
            r matches Some(f) ==> bytes_data(f.raw_bytes).len() >= 1 && is_suffix(
                bytes_data(f.raw_bytes) + final(self).data(),
                old(self).data(),
            ),
            r matches Some(f) ==> (bytes_data(f.raw_bytes)[0] == STX_V2 || bytes_data(
                f.raw_bytes,
            )[0] == STX_V1),
            r is None ==> final(self).data().len() == 0 || (final(self).data()[0] == STX_V2
                || final(self).data()[0] == STX_V1) && (mavlink_v2_read(final(self).data())
                is NeedMoreData || mavlink_v1_read(final(self).data()) is NeedMoreData),
    {
        proof {
            lemma_no_frame_leaves_nothing_or_a_partial_frame(self.data());
        }
        loop
            invariant
                parse_step(old(self).data()) == parse_step(self.data()),
                is_suffix(self.data(), old(self).data()),
            decreases self.data().len(),
        {
            let ghost before = self.data();
            let len = bytes_mut_len(&self.buffer);
            if len == 0 {
                return None;
            }
            let start = memchr2(STX_V2, STX_V1, bytes_mut_as_slice(&self.buffer));
            let idx = match start {
                Some(idx) => idx,
                None => {
                    proof {
                        assert(!exists|i: int| 0 <= i < before.len() && (before[i] == STX_V2 || before[i] == STX_V1));
                    }
                    bytes_mut_clear(&mut self.buffer);
                    assert(is_suffix(self.data(), old(self).data()));
                    return None;
                },
            };
            proof {
                let i = idx as int;
                assert(0 <= i < before.len() && (before[i] == STX_V2 || before[i] == STX_V1));
                let c = first_of_either(before, STX_V2, STX_V1).unwrap();
                assert(c == i) by {
                    if c < i {
                        assert(before[c] != STX_V2 && before[c] != STX_V1);
                    }
                    if c > i {
                    }
                }
            }
            if idx > 0 {
                bytes_mut_advance(&mut self.buffer, idx);
            } else {
                assert(before.skip(0) =~= before);
            }
            let ghost b = self.data();
            proof {
                lemma_skip_is_suffix(before, idx as int);
                lemma_suffix_trans(b, before, old(self).data());
                assert(b[0] == before[idx as int]);
            }
            match read_v2(bytes_mut_as_slice(&self.buffer)) {
                Ok((header, message, message_id, n)) => {
                    let raw = bytes_mut_split_to(&mut self.buffer, n);
                    proof {
                        lemma_split_is_suffix(b, n as int, old(self).data());
                    }
                    return Some(
                        MavlinkFrame {
                            header,
                            message,
                            message_id,
                            version: MavlinkVersion::V2,
                            raw_bytes: bytes_mut_freeze(raw),
                        },
                    );
                },
                Err(e2) => {
                    match read_v1(bytes_mut_as_slice(&self.buffer)) {
                        Ok((header, message, message_id, n)) => {
                            let raw = bytes_mut_split_to(&mut self.buffer, n);
                            proof {
                                lemma_split_is_suffix(b, n as int, old(self).data());
                            }
                            return Some(
                                MavlinkFrame {
                                    header,
                                    message,
                                    message_id,
                                    version: MavlinkVersion::V1,
                                    raw_bytes: bytes_mut_freeze(raw),
                                },
                            );
                        },
                        Err(e1) => {
                            let need_more = match (e2, e1) {
                                (ReadFailure::NeedMoreData, _) => true,
                                (_, ReadFailure::NeedMoreData) => true,
                                _ => false,
                            };
                            if need_more {
                                return None;
                            }
                            bytes_mut_advance(&mut self.buffer, 1);
                            proof {
                                lemma_skip_is_suffix(b, 1);
                                lemma_suffix_trans(self.data(), b, old(self).data());
                            }
                        },
                    }
                },
            }
        }
    }
}

} // verus!
