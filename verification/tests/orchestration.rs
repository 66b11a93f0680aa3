use mavrouter::config::Config;
use mavrouter::orchestration::{
    baud_for_attempt, check_startable, endpoint_groups, plan_tasks, reporter_step, stats_reporter_enabled, TaskRole,
};
use mavrouter::router::EndpointId;
use std::str::FromStr;

const FULL: &str = r#"
[general]
tcp_port = 5760
dedup_period_ms = 100
log = "/tmp/logs"
log_telemetry = true

[[endpoint]]
type = "udp"
address = "0.0.0.0:14550"
mode = "server"
group = "radios"

[[endpoint]]
type = "tcp"
address = "127.0.0.1:5761"
mode = "client"

[[endpoint]]
type = "serial"
device = "/dev/ttyUSB0"
baud = [57600, 115200]
group = "radios"
"#;

#[test]
fn plan_of_full_config() {
    let config = Config::from_str(FULL).expect("config parses");
    let plan = plan_tasks(&config);
    let names: Vec<&str> = plan.iter().map(|t| t.name.as_str()).collect();
    assert_eq!(
        names,
        vec![
            "Dedup Rotator",
            "Routing Updater",
            "Implicit TCP Server :5760",
            "TLog Logger /tmp/logs",
            "UDP Endpoint 0 (0.0.0.0:14550)",
            "TCP Endpoint 1 (127.0.0.1:5761)",
            "Serial Endpoint 2 (/dev/ttyUSB0)",
        ]
    );
    assert_eq!(plan[0].role, TaskRole::DedupRotator);
    assert_eq!(plan[1].role, TaskRole::RoutingUpdater);
    assert_eq!(plan[2].role, TaskRole::ImplicitTcpServer { port: 5760 });
    assert_eq!(plan[2].endpoint_id, Some(EndpointId(3)));
    assert_eq!(plan[3].role, TaskRole::TlogLogger);
    assert_eq!(plan[3].endpoint_id, None);
    assert_eq!(plan[6].role, TaskRole::Endpoint { index: 2 });
    assert_eq!(plan[6].endpoint_id, Some(EndpointId(2)));
}

#[test]
fn plan_of_minimal_config() {
    let config = Config::from_str(
        r#"
[general]
dedup_period_ms = 0
log = "/tmp/logs"
log_telemetry = false
"#,
    )
    .expect("config parses");
    let plan = plan_tasks(&config);
    assert_eq!(plan.len(), 1);
    assert_eq!(plan[0].name, "Routing Updater");
    assert_eq!(plan[0].role, TaskRole::RoutingUpdater);
}

#[test]
fn groups_of_full_config() {
    let config = Config::from_str(FULL).expect("config parses");
    let groups = endpoint_groups(&config);
    assert_eq!(
        groups,
        vec![(EndpointId(0), "radios".to_string()), (EndpointId(2), "radios".to_string())]
    );
}

#[test]
fn baud_rotation_wraps() {
    let rates = [57600, 115200, 921600];
    assert_eq!(baud_for_attempt(&rates, 0), 57600);
    assert_eq!(baud_for_attempt(&rates, 1), 115200);
    assert_eq!(baud_for_attempt(&rates, 2), 921600);
    assert_eq!(baud_for_attempt(&rates, 3), 57600);
    assert_eq!(baud_for_attempt(&[9600], 41), 9600);
}

#[test]
fn reporter_logs_once_interval_has_passed() {
    assert_eq!(reporter_step(0, 100, 60), (true, 100));
    assert_eq!(reporter_step(100, 130, 60), (false, 100));
    assert_eq!(reporter_step(100, 160, 60), (true, 160));
    assert_eq!(reporter_step(200, 100, 0), (true, 100));
    assert_eq!(reporter_step(200, 100, 1), (false, 200));
}

#[test]
fn reporter_enabled_needs_both_settings() {
    assert!(stats_reporter_enabled(10, 86400));
    assert!(!stats_reporter_enabled(0, 86400));
    assert!(!stats_reporter_enabled(10, 0));
}

#[test]
fn router_needs_something_to_route() {
    let empty = Config::from_str("").expect("empty config parses");
    match check_startable(&empty) {
        Err(mavrouter::error::RouterError::ConfigValidation { context }) => {
            assert_eq!(context, "No endpoints configured")
        }
        other => panic!("expected a validation error, got {:?}", other.is_ok()),
    }
    let tcp_only = Config::from_str("[general]\ntcp_port = 5760\n").expect("config parses");
    assert!(check_startable(&tcp_only).is_ok());
    let full = Config::from_str(FULL).expect("config parses");
    assert!(check_startable(&full).is_ok());
}
