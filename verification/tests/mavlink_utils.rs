use mavlink::common::{
    MavMessage, CHANGE_OPERATOR_CONTROL_ACK_DATA, COMMAND_ACK_DATA, COMMAND_LONG_DATA,
    HEARTBEAT_DATA, MISSION_REQUEST_LIST_DATA, PARAM_SET_DATA, PING_DATA,
    SET_POSITION_TARGET_LOCAL_NED_DATA, SET_MODE_DATA,
};
use mavrouter::mavlink_utils::{
    extract_target, scope_of, target_fields, MessageTarget, TargetFields, TargetScope,
};

fn target_of(msg: &MavMessage) -> MessageTarget {
    extract_target(&target_fields(msg))
}

#[test]
fn test_command_long_target() {
    let cmd = COMMAND_LONG_DATA {
        target_system: 1,
        target_component: 2,
        command: mavlink::common::MavCmd::MAV_CMD_COMPONENT_ARM_DISARM,
        confirmation: 0,
        param1: 0.0,
        param2: 0.0,
        param3: 0.0,
        param4: 0.0,
        param5: 0.0,
        param6: 0.0,
        param7: 0.0,
    };

    let target = target_of(&MavMessage::COMMAND_LONG(cmd));
    assert_eq!(target.system_id, 1);
    assert_eq!(target.component_id, 2);
    assert!(!target.is_broadcast());
}

#[test]
fn test_heartbeat_broadcast() {
    let hb = HEARTBEAT_DATA::default();
    let target = target_of(&MavMessage::HEARTBEAT(hb));
    assert!(target.is_broadcast());
}

#[test]
fn test_param_set_target() {
    let param = PARAM_SET_DATA {
        target_system: 100,
        target_component: 1,
        param_id: [0u8; 16],
        param_value: 0.0,
        param_type: mavlink::common::MavParamType::MAV_PARAM_TYPE_REAL32,
    };

    let target = target_of(&MavMessage::PARAM_SET(param));
    assert_eq!(target.system_id, 100);
    assert_eq!(target.component_id, 1);
}

#[test]
fn test_mission_request_list_target() {
    let mission = MISSION_REQUEST_LIST_DATA { target_system: 1, target_component: 190 };
    let target = target_of(&MavMessage::MISSION_REQUEST_LIST(mission));
    assert_eq!(target.system_id, 1);
    assert_eq!(target.component_id, 190);
    assert!(!target.is_broadcast());
    assert!(!target.is_system_wide());
}

#[test]
fn test_set_mode_system_wide() {
    let mode = SET_MODE_DATA {
        target_system: 1,
        base_mode: mavlink::common::MavMode::MAV_MODE_MANUAL_ARMED,
        custom_mode: 0,
    };
    let target = target_of(&MavMessage::SET_MODE(mode));
    assert_eq!(target.system_id, 1);
    assert_eq!(target.component_id, 0);
    assert!(!target.is_broadcast());
    assert!(target.is_system_wide());
}

#[test]
fn test_ping_target() {
    let ping = PING_DATA { time_usec: 0, seq: 0, target_system: 5, target_component: 10 };
    let target = target_of(&MavMessage::PING(ping));
    assert_eq!(target.system_id, 5);
    assert_eq!(target.component_id, 10);
}

#[test]
fn test_command_ack_broadcast() {
    // COMMAND_ACK is a broadcast message (returns 0,0)
    let ack = COMMAND_ACK_DATA::default();
    let target = target_of(&MavMessage::COMMAND_ACK(ack));
    assert!(target.is_broadcast());
}

#[test]
fn target_fields_read_ids_and_fields() {
    let ping = PING_DATA { time_usec: 0, seq: 0, target_system: 7, target_component: 9 };
    let f = target_fields(&MavMessage::PING(ping));
    assert_eq!(
        f,
        TargetFields {
            message_id: 4,
            target_system: Some(7),
            target_component: Some(9),
            gcs_system_id: None,
        }
    );
    let hb = target_fields(&MavMessage::HEARTBEAT(HEARTBEAT_DATA::default()));
    assert_eq!(hb.message_id, 0);
    assert_eq!((hb.target_system, hb.target_component, hb.gcs_system_id), (None, None, None));
}

#[test]
fn position_target_is_system_wide() {
    let mut sp = SET_POSITION_TARGET_LOCAL_NED_DATA::default();
    sp.target_system = 3;
    sp.target_component = 4;
    let target = target_of(&MavMessage::SET_POSITION_TARGET_LOCAL_NED(sp));
    assert_eq!(target, MessageTarget { system_id: 3, component_id: 0 });
}

#[test]
fn operator_control_ack_goes_to_the_ground_station() {
    let mut ack = CHANGE_OPERATOR_CONTROL_ACK_DATA::default();
    ack.gcs_system_id = 42;
    let target = target_of(&MavMessage::CHANGE_OPERATOR_CONTROL_ACK(ack));
    assert_eq!(target, MessageTarget { system_id: 42, component_id: 0 });
}

#[test]
fn rule_on_plain_fields() {
    let f = |id: u32| TargetFields {
        message_id: id,
        target_system: Some(8),
        target_component: Some(6),
        gcs_system_id: Some(250),
    };
    assert_eq!(extract_target(&f(76)), MessageTarget { system_id: 8, component_id: 6 });
    assert_eq!(extract_target(&f(11)), MessageTarget { system_id: 8, component_id: 0 });
    assert_eq!(extract_target(&f(6)), MessageTarget { system_id: 250, component_id: 0 });
    assert_eq!(extract_target(&f(77)), MessageTarget { system_id: 0, component_id: 0 });
    assert_eq!(extract_target(&f(22)), MessageTarget { system_id: 0, component_id: 0 });
    let missing = TargetFields {
        message_id: 76,
        target_system: None,
        target_component: None,
        gcs_system_id: None,
    };
    assert_eq!(extract_target(&missing), MessageTarget { system_id: 0, component_id: 0 });
    assert_eq!(scope_of(400), TargetScope::Component);
    assert_eq!(scope_of(48), TargetScope::System);
    assert_eq!(scope_of(6), TargetScope::Operator);
    assert_eq!(scope_of(0), TargetScope::Untargeted);
}
