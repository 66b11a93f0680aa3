//! Identity of endpoints and the message value that travels on the bus.

use crate::framing::bytes_data;
use crate::mavlink_utils::{MavHeader, MavlinkVersion, MessageTarget};
use crate::text::{decimal, push_chars, push_decimal, string_from_chars};
use bytes::Bytes;
use vstd::prelude::*;

verus! {

/// Unique identifier of a routing endpoint.
#[derive(Debug, Clone, Copy, PartialEq, Eq, Hash, Structural)]
pub struct EndpointId(pub usize);

/// `Endpoint(<id>)`, the text shown for an endpoint id.
pub open spec fn endpoint_id_text(id: usize) -> Seq<char> {
    seq!['E', 'n', 'd', 'p', 'o', 'i', 'n', 't', '('] + decimal(id as nat) + seq![')']
}

impl EndpointId {
    /// The id as text: `Endpoint(<id>)`.
    pub fn to_string(&self) -> (s: String)
        ensures
            s@ == endpoint_id_text(self.0),
    {
        let mut out: Vec<char> = Vec::new();
        push_chars(&mut out, &['E', 'n', 'd', 'p', 'o', 'i', 'n', 't', '(']);
        push_decimal(&mut out, self.0 as u64);
        out.push(')');
        string_from_chars(out.as_slice())
    }
}

/// A MAVLink message as it travels between endpoints: where it came from,
/// its header, id, version, arrival time, the raw frame bytes, and its
/// target (read once at ingress).
#[derive(Clone, Debug)]
pub struct RoutedMessage {
    /// Endpoint that received the message.
    pub source_id: EndpointId,
    /// The message's header.
    pub header: MavHeader,
    /// MAVLink message id.
    pub message_id: u32,
    /// MAVLink version of the frame.
    pub version: MavlinkVersion,
    /// Arrival time in microseconds since the UNIX epoch.
    pub timestamp_us: u64,
    /// The raw frame bytes, forwarded as received.
    pub serialized_bytes: Bytes,
    /// Target system and component of the message.
    pub target: MessageTarget,
}

impl RoutedMessage {
    /// The raw frame bytes.
    pub open spec fn bytes(&self) -> Seq<u8> {
        bytes_data(self.serialized_bytes)
    }
}

} // verus!
