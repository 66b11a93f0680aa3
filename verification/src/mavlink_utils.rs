//! MAVLink header, protocol version and message-target values, the small
//! predicates the router asks of them, and the rule by which the router
//! reads the target (system and component ids) of a decoded message.

use mavlink::common::MavMessage;
use mavlink::Message;
use vstd::prelude::*;

verus! {

/// Metadata of a MAVLink packet header.
#[derive(Debug, Clone, Copy, PartialEq, Eq, Structural)]
pub struct MavHeader {
    /// Sender system id.
    pub system_id: u8,
    /// Sender component id.
    pub component_id: u8,
    /// Packet sequence number.
    pub sequence: u8,
}

impl Default for MavHeader {
    /// The header a ground station uses by default: system 255, component 0,
    /// sequence 0.
    fn default() -> (h: Self)
        ensures
            h.system_id == 255,
            h.component_id == 0,
            h.sequence == 0,
    {
        MavHeader { system_id: 255, component_id: 0, sequence: 0 }
    }
}

/// MAVLink protocol version of a frame.
#[derive(Debug, Clone, Copy, PartialEq, Eq, Structural)]
pub enum MavlinkVersion {
    /// MAVLink 1 (start byte 0xFE).
    V1,
    /// MAVLink 2 (start byte 0xFD).
    V2,
}

/// The target (system and component ids) of a MAVLink message.
#[derive(Debug, Clone, Copy, PartialEq, Eq, Structural)]
pub struct MessageTarget {
    /// The target system id (0 for broadcast).
    pub system_id: u8,
    /// The target component id (0 for system-wide or broadcast).
    pub component_id: u8,
}

impl MessageTarget {
    /// `true` if the message is a broadcast (target system 0).
    pub fn is_broadcast(&self) -> (r: bool)
        ensures
            r == (self.system_id == 0),
    {
        self.system_id == 0
    }

    /// `true` if the message addresses every component of its system
    /// (target component 0).
    pub fn is_system_wide(&self) -> (r: bool)
        ensures
            r == (self.component_id == 0),
    {
        self.component_id == 0
    }
}

/// How the router reads the target of a message, by message id.
#[derive(Debug, Clone, Copy, PartialEq, Eq, Structural)]
pub enum TargetScope {
    /// Addressed to one component: `(target_system, target_component)`.
    Component,
    /// Addressed to every component of one system: `(target_system, 0)`.
    System,
    /// An answer to the ground station that asked for control:
    /// `(gcs_system_id, 0)`.
    Operator,
    /// A broadcast, or a message without target fields: `(0, 0)`.
    Untargeted,
}

/// The scope of each message id of the common dialect.
///
/// Component-addressed: PING (4), PARAM_REQUEST_READ (20),
/// PARAM_REQUEST_LIST (21), PARAM_SET (23), MISSION_REQUEST_PARTIAL_LIST
/// (37), MISSION_WRITE_PARTIAL_LIST (38), MISSION_ITEM (39), MISSION_REQUEST
/// (40), MISSION_SET_CURRENT (41), MISSION_REQUEST_LIST (43), MISSION_COUNT
/// (44), MISSION_CLEAR_ALL (45), MISSION_ACK (47), PARAM_MAP_RC (50),
/// MISSION_REQUEST_INT (51), SAFETY_SET_ALLOWED_AREA (54),
/// REQUEST_DATA_STREAM (66), RC_CHANNELS_OVERRIDE (70), MISSION_ITEM_INT
/// (73), COMMAND_INT (75), COMMAND_LONG (76), COMMAND_CANCEL (80),
/// FILE_TRANSFER_PROTOCOL (110), LOG_REQUEST_LIST (117), LOG_REQUEST_DATA
/// (119), LOG_ERASE (121), LOG_REQUEST_END (122), GPS_INJECT_DATA (123),
/// SETUP_SIGNING (256), PLAY_TUNE (258), LOGGING_DATA (266),
/// LOGGING_DATA_ACKED (267), GIMBAL_MANAGER_SET_ATTITUDE (282),
/// GIMBAL_MANAGER_SET_PITCHYAW (287), PARAM_EXT_REQUEST_READ (320),
/// PARAM_EXT_REQUEST_LIST (321), PARAM_EXT_SET (323), TUNNEL (385),
/// PLAY_TUNE_V2 (400).
///
/// System-addressed: CHANGE_OPERATOR_CONTROL (5), SET_MODE (11),
/// SET_GPS_GLOBAL_ORIGIN (48), SET_ATTITUDE_TARGET (82),
/// SET_POSITION_TARGET_LOCAL_NED (84), SET_POSITION_TARGET_GLOBAL_INT (86).
///
/// Operator: CHANGE_OPERATOR_CONTROL_ACK (6). Every other id, among them
/// COMMAND_ACK (77), MISSION_CURRENT (42), MISSION_ITEM_REACHED (46) and
/// PARAM_VALUE (22), which answer whoever listens, is untargeted.
pub open spec fn target_scope(message_id: u32) -> TargetScope {
    match message_id {
        4 | 20 | 21 | 23 | 37 | 38 | 39 | 40 | 41 | 43 | 44 | 45
        | 47 | 50 | 51 | 54 | 66 | 70 | 73 | 75 | 76 | 80 | 110
        | 117 | 119 | 121 | 122 | 123 | 256 | 258 | 266 | 267 | 282
        | 287 | 320 | 321 | 323 | 385 | 400 => TargetScope::Component,
        5 | 11 | 48 | 82 | 84 | 86 => TargetScope::System,
        6 => TargetScope::Operator,
        _ => TargetScope::Untargeted,
    }
}

/// The target fields of a decoded message, as plain values: its id, and
/// each field that its type carries (`None` where it has no such field).
#[derive(Debug, Clone, Copy, PartialEq, Eq, Structural)]
pub struct TargetFields {
    /// The message id.
    pub message_id: u32,
    /// The `target_system` field.
    pub target_system: Option<u8>,
    /// The `target_component` field.
    pub target_component: Option<u8>,
    /// The `gcs_system_id` field.
    pub gcs_system_id: Option<u8>,
}

/// A field's value, 0 where the message has no such field.
pub open spec fn field_or_zero(field: Option<u8>) -> u8 {
    match field {
        Some(v) => v,
        None => 0,
    }
}

/// The target of a message with the given fields.
pub open spec fn target_rule(f: TargetFields) -> MessageTarget {
    match target_scope(f.message_id) {
        TargetScope::Component => MessageTarget {
            system_id: field_or_zero(f.target_system),
            component_id: field_or_zero(f.target_component),
        },
        TargetScope::System => MessageTarget {
            system_id: field_or_zero(f.target_system),
            component_id: 0,
        },
        TargetScope::Operator => MessageTarget {
            system_id: field_or_zero(f.gcs_system_id),
            component_id: 0,
        },
        TargetScope::Untargeted => MessageTarget { system_id: 0, component_id: 0 },
    }
}

/// The scope of a message id.
pub fn scope_of(message_id: u32) -> (s: TargetScope)
    ensures
        s == target_scope(message_id),
{
    match message_id {
        4 | 20 | 21 | 23 | 37 | 38 | 39 | 40 | 41 | 43 | 44 | 45
        | 47 | 50 | 51 | 54 | 66 | 70 | 73 | 75 | 76 | 80 | 110
        | 117 | 119 | 121 | 122 | 123 | 256 | 258 | 266 | 267 | 282
        | 287 | 320 | 321 | 323 | 385 | 400 => TargetScope::Component,
        5 | 11 | 48 | 82 | 84 | 86 => TargetScope::System,
        6 => TargetScope::Operator,
        _ => TargetScope::Untargeted,
    }
}

fn value_or_zero(field: Option<u8>) -> (v: u8)
    ensures
        v == field_or_zero(field),
{
    match field {
        Some(v) => v,
        None => 0,
    }
}

/// The target (system and component ids) of a message, `(0, 0)` for
/// broadcasts and for messages without target fields.
pub fn extract_target(f: &TargetFields) -> (t: MessageTarget)
    ensures
        t == target_rule(*f),
{
    match scope_of(f.message_id) {
        TargetScope::Component => MessageTarget {
            system_id: value_or_zero(f.target_system),
            component_id: value_or_zero(f.target_component),
        },
        TargetScope::System => MessageTarget {
            system_id: value_or_zero(f.target_system),
            component_id: 0,
        },
        TargetScope::Operator => MessageTarget {
            system_id: value_or_zero(f.gcs_system_id),
            component_id: 0,
        },
        TargetScope::Untargeted => MessageTarget { system_id: 0, component_id: 0 },
    }
}

/// The id of a message of the common dialect (`Message::message_id`).
pub uninterp spec fn mav_message_id(m: MavMessage) -> u32;

/// Reads the id of a `mavlink::common::MavMessage` through the crate's
/// `Message::message_id`, which the generated code answers with the id of
/// the message's type.
#[verifier::external_body]
pub(crate) fn message_id_of(m: &MavMessage) -> (r: u32)
    ensures
        r == mav_message_id(*m),
{
    m.message_id()
}

/// `(target_system, target_component)` of a message whose type is one of
/// those that [`addressed_pair_1`] reads, `None` for any other type.
pub uninterp spec fn mav_addressed_pair_1(m: MavMessage) -> Option<(u8, u8)>;

/// Reads `target_system` and `target_component` of a
/// `mavlink::common::MavMessage` of one of the types matched below, as
/// they stand; `None` for any other type. The message is opaque to Verus:
/// what this reads is named by [`mav_addressed_pair_1`].
#[verifier::external_body]
fn addressed_pair_1(m: &MavMessage) -> (r: Option<(u8, u8)>)
    ensures
        r == mav_addressed_pair_1(*m),
{
    match m {
        MavMessage::PING(d) => Some((d.target_system, d.target_component)),
        MavMessage::PARAM_REQUEST_READ(d) => Some((d.target_system, d.target_component)),
        MavMessage::PARAM_REQUEST_LIST(d) => Some((d.target_system, d.target_component)),
        MavMessage::PARAM_SET(d) => Some((d.target_system, d.target_component)),
        MavMessage::MISSION_REQUEST_PARTIAL_LIST(d) => Some((d.target_system, d.target_component)),
        MavMessage::MISSION_WRITE_PARTIAL_LIST(d) => Some((d.target_system, d.target_component)),
        MavMessage::MISSION_ITEM(d) => Some((d.target_system, d.target_component)),
        MavMessage::MISSION_REQUEST(d) => Some((d.target_system, d.target_component)),
        _ => None,
    }
}

/// `(target_system, target_component)` of a message whose type is one of
/// those that [`addressed_pair_2`] reads, `None` for any other type.
pub uninterp spec fn mav_addressed_pair_2(m: MavMessage) -> Option<(u8, u8)>;

/// Reads `target_system` and `target_component` of a
/// `mavlink::common::MavMessage` of one of the types matched below, as
/// they stand; `None` for any other type. The message is opaque to Verus:
/// what this reads is named by [`mav_addressed_pair_2`].
#[verifier::external_body]
fn addressed_pair_2(m: &MavMessage) -> (r: Option<(u8, u8)>)
    ensures
        r == mav_addressed_pair_2(*m),
{
    match m {
        MavMessage::MISSION_SET_CURRENT(d) => Some((d.target_system, d.target_component)),
        MavMessage::MISSION_REQUEST_LIST(d) => Some((d.target_system, d.target_component)),
        MavMessage::MISSION_COUNT(d) => Some((d.target_system, d.target_component)),
        MavMessage::MISSION_CLEAR_ALL(d) => Some((d.target_system, d.target_component)),
        MavMessage::MISSION_ACK(d) => Some((d.target_system, d.target_component)),
        MavMessage::PARAM_MAP_RC(d) => Some((d.target_system, d.target_component)),
        MavMessage::MISSION_REQUEST_INT(d) => Some((d.target_system, d.target_component)),
        MavMessage::SAFETY_SET_ALLOWED_AREA(d) => Some((d.target_system, d.target_component)),
        _ => None,
    }
}

/// `(target_system, target_component)` of a message whose type is one of
/// those that [`addressed_pair_3`] reads, `None` for any other type.
pub uninterp spec fn mav_addressed_pair_3(m: MavMessage) -> Option<(u8, u8)>;

/// Reads `target_system` and `target_component` of a
/// `mavlink::common::MavMessage` of one of the types matched below, as
/// they stand; `None` for any other type. The message is opaque to Verus:
/// what this reads is named by [`mav_addressed_pair_3`].
#[verifier::external_body]
fn addressed_pair_3(m: &MavMessage) -> (r: Option<(u8, u8)>)
    ensures
        r == mav_addressed_pair_3(*m),
{
    match m {
        MavMessage::REQUEST_DATA_STREAM(d) => Some((d.target_system, d.target_component)),
        MavMessage::RC_CHANNELS_OVERRIDE(d) => Some((d.target_system, d.target_component)),
        MavMessage::MISSION_ITEM_INT(d) => Some((d.target_system, d.target_component)),
        MavMessage::COMMAND_INT(d) => Some((d.target_system, d.target_component)),
        MavMessage::COMMAND_LONG(d) => Some((d.target_system, d.target_component)),
        MavMessage::COMMAND_CANCEL(d) => Some((d.target_system, d.target_component)),
        MavMessage::SET_ATTITUDE_TARGET(d) => Some((d.target_system, d.target_component)),
        _ => None,
    }
}

/// `(target_system, target_component)` of a message whose type is one of
/// those that [`addressed_pair_4`] reads, `None` for any other type.
pub uninterp spec fn mav_addressed_pair_4(m: MavMessage) -> Option<(u8, u8)>;

/// Reads `target_system` and `target_component` of a
/// `mavlink::common::MavMessage` of one of the types matched below, as
/// they stand; `None` for any other type. The message is opaque to Verus:
/// what this reads is named by [`mav_addressed_pair_4`].
#[verifier::external_body]
fn addressed_pair_4(m: &MavMessage) -> (r: Option<(u8, u8)>)
    ensures
        r == mav_addressed_pair_4(*m),
{
    match m {
        MavMessage::SET_POSITION_TARGET_LOCAL_NED(d) => Some((d.target_system, d.target_component)),
        MavMessage::SET_POSITION_TARGET_GLOBAL_INT(d) => Some((d.target_system, d.target_component)),
        MavMessage::FILE_TRANSFER_PROTOCOL(d) => Some((d.target_system, d.target_component)),
        MavMessage::LOG_REQUEST_LIST(d) => Some((d.target_system, d.target_component)),
        MavMessage::LOG_REQUEST_DATA(d) => Some((d.target_system, d.target_component)),
        MavMessage::LOG_ERASE(d) => Some((d.target_system, d.target_component)),
        MavMessage::LOG_REQUEST_END(d) => Some((d.target_system, d.target_component)),
        _ => None,
    }
}

/// `(target_system, target_component)` of a message whose type is one of
/// those that [`addressed_pair_5`] reads, `None` for any other type.
pub uninterp spec fn mav_addressed_pair_5(m: MavMessage) -> Option<(u8, u8)>;

/// Reads `target_system` and `target_component` of a
/// `mavlink::common::MavMessage` of one of the types matched below, as
/// they stand; `None` for any other type. The message is opaque to Verus:
/// what this reads is named by [`mav_addressed_pair_5`].
#[verifier::external_body]
fn addressed_pair_5(m: &MavMessage) -> (r: Option<(u8, u8)>)
    ensures
        r == mav_addressed_pair_5(*m),
{
    match m {
        MavMessage::GPS_INJECT_DATA(d) => Some((d.target_system, d.target_component)),
        MavMessage::SET_ACTUATOR_CONTROL_TARGET(d) => Some((d.target_system, d.target_component)),
        MavMessage::V2_EXTENSION(d) => Some((d.target_system, d.target_component)),
        MavMessage::SETUP_SIGNING(d) => Some((d.target_system, d.target_component)),
        MavMessage::PLAY_TUNE(d) => Some((d.target_system, d.target_component)),
        MavMessage::LOGGING_DATA(d) => Some((d.target_system, d.target_component)),
        MavMessage::LOGGING_DATA_ACKED(d) => Some((d.target_system, d.target_component)),
        _ => None,
    }
}

/// `(target_system, target_component)` of a message whose type is one of
/// those that [`addressed_pair_6`] reads, `None` for any other type.
pub uninterp spec fn mav_addressed_pair_6(m: MavMessage) -> Option<(u8, u8)>;

/// Reads `target_system` and `target_component` of a
/// `mavlink::common::MavMessage` of one of the types matched below, as
/// they stand; `None` for any other type. The message is opaque to Verus:
/// what this reads is named by [`mav_addressed_pair_6`].
#[verifier::external_body]
fn addressed_pair_6(m: &MavMessage) -> (r: Option<(u8, u8)>)
    ensures
        r == mav_addressed_pair_6(*m),
{
    match m {
        MavMessage::LOGGING_ACK(d) => Some((d.target_system, d.target_component)),
        MavMessage::GIMBAL_MANAGER_SET_ATTITUDE(d) => Some((d.target_system, d.target_component)),
        MavMessage::GIMBAL_DEVICE_SET_ATTITUDE(d) => Some((d.target_system, d.target_component)),
        MavMessage::GIMBAL_DEVICE_ATTITUDE_STATUS(d) => Some((d.target_system, d.target_component)),
        MavMessage::AUTOPILOT_STATE_FOR_GIMBAL_DEVICE(d) => Some((d.target_system, d.target_component)),
        MavMessage::GIMBAL_MANAGER_SET_PITCHYAW(d) => Some((d.target_system, d.target_component)),
        MavMessage::GIMBAL_MANAGER_SET_MANUAL_CONTROL(d) => Some((d.target_system, d.target_component)),
        MavMessage::PARAM_EXT_REQUEST_READ(d) => Some((d.target_system, d.target_component)),
        _ => None,
    }
}

/// `(target_system, target_component)` of a message whose type is one of
/// those that [`addressed_pair_7`] reads, `None` for any other type.
pub uninterp spec fn mav_addressed_pair_7(m: MavMessage) -> Option<(u8, u8)>;

/// Reads `target_system` and `target_component` of a
/// `mavlink::common::MavMessage` of one of the types matched below, as
/// they stand; `None` for any other type. The message is opaque to Verus:
/// what this reads is named by [`mav_addressed_pair_7`].
#[verifier::external_body]
fn addressed_pair_7(m: &MavMessage) -> (r: Option<(u8, u8)>)
    ensures
        r == mav_addressed_pair_7(*m),
{
    match m {
        MavMessage::PARAM_EXT_REQUEST_LIST(d) => Some((d.target_system, d.target_component)),
        MavMessage::PARAM_EXT_SET(d) => Some((d.target_system, d.target_component)),
        MavMessage::TUNNEL(d) => Some((d.target_system, d.target_component)),
        MavMessage::CAN_FRAME(d) => Some((d.target_system, d.target_component)),
        MavMessage::PLAY_TUNE_V2(d) => Some((d.target_system, d.target_component)),
        MavMessage::SUPPORTED_TUNES(d) => Some((d.target_system, d.target_component)),
        MavMessage::REQUEST_EVENT(d) => Some((d.target_system, d.target_component)),
        MavMessage::RESPONSE_EVENT_ERROR(d) => Some((d.target_system, d.target_component)),
        _ => None,
    }
}

/// `(target_system, target_component)` of a message whose type is one of
/// those that [`addressed_pair_8`] reads, `None` for any other type.
pub uninterp spec fn mav_addressed_pair_8(m: MavMessage) -> Option<(u8, u8)>;

/// Reads `target_system` and `target_component` of a
/// `mavlink::common::MavMessage` of one of the types matched below, as
/// they stand; `None` for any other type. The message is opaque to Verus:
/// what this reads is named by [`mav_addressed_pair_8`].
#[verifier::external_body]
fn addressed_pair_8(m: &MavMessage) -> (r: Option<(u8, u8)>)
    ensures
        r == mav_addressed_pair_8(*m),
{
    match m {
        MavMessage::CANFD_FRAME(d) => Some((d.target_system, d.target_component)),
        MavMessage::CAN_FILTER_MODIFY(d) => Some((d.target_system, d.target_component)),
        MavMessage::OPEN_DRONE_ID_BASIC_ID(d) => Some((d.target_system, d.target_component)),
        MavMessage::OPEN_DRONE_ID_LOCATION(d) => Some((d.target_system, d.target_component)),
        MavMessage::OPEN_DRONE_ID_AUTHENTICATION(d) => Some((d.target_system, d.target_component)),
        MavMessage::OPEN_DRONE_ID_SELF_ID(d) => Some((d.target_system, d.target_component)),
        MavMessage::OPEN_DRONE_ID_SYSTEM(d) => Some((d.target_system, d.target_component)),
        MavMessage::OPEN_DRONE_ID_OPERATOR_ID(d) => Some((d.target_system, d.target_component)),
        _ => None,
    }
}

/// `(target_system, target_component)` of a message whose type is one of
/// those that [`addressed_pair_9`] reads, `None` for any other type.
pub uninterp spec fn mav_addressed_pair_9(m: MavMessage) -> Option<(u8, u8)>;

/// Reads `target_system` and `target_component` of a
/// `mavlink::common::MavMessage` of one of the types matched below, as
/// they stand; `None` for any other type. The message is opaque to Verus:
/// what this reads is named by [`mav_addressed_pair_9`].
#[verifier::external_body]
fn addressed_pair_9(m: &MavMessage) -> (r: Option<(u8, u8)>)
    ensures
        r == mav_addressed_pair_9(*m),
{
    match m {
        MavMessage::OPEN_DRONE_ID_MESSAGE_PACK(d) => Some((d.target_system, d.target_component)),
        MavMessage::OPEN_DRONE_ID_SYSTEM_UPDATE(d) => Some((d.target_system, d.target_component)),
        _ => None,
    }
}

/// `(target_system, gcs_system_id)` of a message whose type is one of those
/// that [`addressed_single`] reads, each `None` where the type lacks it.
pub uninterp spec fn mav_addressed_single(m: MavMessage) -> (Option<u8>, Option<u8>);

/// Reads `target_system` (first) or `gcs_system_id` (second) of a
/// `mavlink::common::MavMessage` of one of the types matched below, which
/// carry that field without a `target_component`; `(None, None)` for any
/// other type. What this reads is named by [`mav_addressed_single`].
#[verifier::external_body]
fn addressed_single(m: &MavMessage) -> (r: (Option<u8>, Option<u8>))
    ensures
        r == mav_addressed_single(*m),
{
    match m {
        MavMessage::CHANGE_OPERATOR_CONTROL(d) => (Some(d.target_system), None),
        MavMessage::SET_MODE(d) => (Some(d.target_system), None),
        MavMessage::SET_GPS_GLOBAL_ORIGIN(d) => (Some(d.target_system), None),
        MavMessage::SET_HOME_POSITION(d) => (Some(d.target_system), None),
        MavMessage::CHANGE_OPERATOR_CONTROL_ACK(d) => (None, Some(d.gcs_system_id)),
        _ => (None, None),
    }
}

/// The first of two readings that found something.
pub open spec fn either(a: Option<(u8, u8)>, b: Option<(u8, u8)>) -> Option<(u8, u8)> {
    if a is Some {
        a
    } else {
        b
    }
}

/// The `(target_system, target_component)` pair of a message, if its type
/// carries both.
pub open spec fn message_target_pair(m: MavMessage) -> Option<(u8, u8)> {
    either(mav_addressed_pair_1(m), either(mav_addressed_pair_2(m), either(
        mav_addressed_pair_3(m),
        either(mav_addressed_pair_4(m), either(mav_addressed_pair_5(m), either(
            mav_addressed_pair_6(m),
            either(mav_addressed_pair_7(m), either(mav_addressed_pair_8(m), mav_addressed_pair_9(m))),
        ))),
    )))
}

/// The target fields of a message: its id and each of `target_system`,
/// `target_component` and `gcs_system_id` that its type carries.
pub open spec fn message_target_fields(m: MavMessage) -> TargetFields {
    match message_target_pair(m) {
        Some((system, component)) => TargetFields {
            message_id: mav_message_id(m),
            target_system: Some(system),
            target_component: Some(component),
            gcs_system_id: None,
        },
        None => TargetFields {
            message_id: mav_message_id(m),
            target_system: mav_addressed_single(m).0,
            target_component: None,
            gcs_system_id: mav_addressed_single(m).1,
        },
    }
}

/// The target of a decoded message (see [`target_rule`]).
pub open spec fn message_target(m: MavMessage) -> MessageTarget {
    target_rule(message_target_fields(m))
}

/// The target fields of a decoded message: its id and each of
/// `target_system`, `target_component` and `gcs_system_id` that its type
/// carries, as the readers above find them.
pub fn target_fields(m: &MavMessage) -> (f: TargetFields)
    ensures
        f == message_target_fields(*m),
{
    let message_id = message_id_of(m);
    let mut pair = addressed_pair_1(m);
    if pair.is_none() {
        pair = addressed_pair_2(m);
    }
    if pair.is_none() {
        pair = addressed_pair_3(m);
    }
    if pair.is_none() {
        pair = addressed_pair_4(m);
    }
    if pair.is_none() {
        pair = addressed_pair_5(m);
    }
    if pair.is_none() {
        pair = addressed_pair_6(m);
    }
    if pair.is_none() {
        pair = addressed_pair_7(m);
    }
    if pair.is_none() {
        pair = addressed_pair_8(m);
    }
    if pair.is_none() {
        pair = addressed_pair_9(m);
    }
    match pair {
        Some((system, component)) => TargetFields {
            message_id,
            target_system: Some(system),
            target_component: Some(component),
            gcs_system_id: None,
        },
        None => {
            let (system, gcs) = addressed_single(m);
            TargetFields { message_id, target_system: system, target_component: None, gcs_system_id: gcs }
        },
    }
}

/// The ids of the messages that address one component: PING, the
/// parameter, mission, command, log, file-transfer, tune, signing, gimbal
/// manager and tunnel requests, among them COMMAND_INT (75) and
/// COMMAND_LONG (76). For each, the target is the message's own
/// `target_system` and `target_component`.
pub proof fn lemma_component_addressed_messages(f: TargetFields, system: u8, component: u8)
    requires
        set![
            4u32, 20, 21, 23, 37, 38, 39, 40, 41, 43, 44, 45, 47, 50, 51, 54, 66,
            70, 73, 75, 76, 80, 110, 117, 119, 121, 122, 123, 256, 258, 266, 267,
            282, 287, 320, 321, 323, 385, 400
        ].contains(f.message_id),
        f.target_system == Some(system),
        f.target_component == Some(component),
    ensures
        target_rule(f) == (MessageTarget { system_id: system, component_id: component }),
{
}

/// The messages that address a whole system (CHANGE_OPERATOR_CONTROL,
/// SET_MODE, SET_GPS_GLOBAL_ORIGIN, SET_ATTITUDE_TARGET and the two
/// SET_POSITION_TARGET messages) target their `target_system` with
/// component 0, whatever component they name.
pub proof fn lemma_system_addressed_messages(f: TargetFields, system: u8)
    requires
        set![
            5u32, 11, 48, 82, 84, 86
        ].contains(f.message_id),
        f.target_system == Some(system),
    ensures
        target_rule(f) == (MessageTarget { system_id: system, component_id: 0 }),
{
}

/// CHANGE_OPERATOR_CONTROL_ACK (6) goes to the ground station that asked,
/// its `gcs_system_id`; answers that whoever listens may use (COMMAND_ACK
/// 77, PARAM_VALUE 22, MISSION_CURRENT 42, MISSION_ITEM_REACHED 46) and
/// messages without targets (HEARTBEAT 0) are broadcasts, whatever fields
/// they carry.
pub proof fn lemma_operator_and_broadcast_messages(f: TargetFields, gcs: u8)
    ensures
        f.message_id == 6 && f.gcs_system_id == Some(gcs) ==> target_rule(f) == (MessageTarget {
            system_id: gcs,
            component_id: 0,
        }),
        set![0u32, 22, 42, 46, 77].contains(f.message_id) ==> target_rule(f) == (MessageTarget {
            system_id: 0,
            component_id: 0,
        }),
{
}

} // verus!
