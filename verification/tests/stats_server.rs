use mavrouter::endpoint_core::EndpointStatsSnapshot;
use mavrouter::orchestration::stats_server::{
    endpoint_stats_response, help_response, parse_command, totals_response, unknown_response,
    RoutingStats, StatsCommand,
};
use mavrouter::router::EndpointId;

#[test]
fn commands_are_trimmed_and_matched_exactly() {
    assert_eq!(parse_command(b"stats"), StatsCommand::Stats);
    assert_eq!(parse_command(b"  stats\r\n"), StatsCommand::Stats);
    assert_eq!(parse_command(b"endpoint_stats\n"), StatsCommand::EndpointStats);
    assert_eq!(parse_command(b"\thelp "), StatsCommand::Help);
    assert_eq!(parse_command(b"STATS"), StatsCommand::Unknown);
    assert_eq!(parse_command(b"stats now"), StatsCommand::Unknown);
    assert_eq!(parse_command(b""), StatsCommand::Unknown);
    assert_eq!(parse_command(b"\xffstats"), StatsCommand::Unknown);
    assert_eq!(parse_command("\u{a0}help\u{3000}".as_bytes()), StatsCommand::Help);
}

#[test]
fn totals_reply_is_json() {
    let t = RoutingStats { total_systems: 3, total_routes: 7, total_endpoints: 2, timestamp: 1700000000 };
    assert_eq!(
        totals_response(&t),
        r#"{"total_systems":3,"total_routes":7,"total_endpoints":2,"timestamp":1700000000}"#
    );
}

#[test]
fn endpoint_stats_reply_lists_entries() {
    let a = EndpointStatsSnapshot { msgs_in: 1, msgs_out: 2, bytes_in: 30, bytes_out: 40, errors: 0, bus_lagged: 9 };
    let b = EndpointStatsSnapshot::default();
    let entries = vec![
        (EndpointId(0), "UDP Endpoint 0 (0.0.0.0:14550)".to_string(), a),
        (EndpointId(10000), "tcp".to_string(), b),
    ];
    let first = r#"[{"id":0,"name":"UDP Endpoint 0 (0.0.0.0:14550)","msgs_in":1,"msgs_out":2,"bytes_in":30,"bytes_out":40,"errors":0},"#;
    let second = r#"{"id":10000,"name":"tcp","msgs_in":0,"msgs_out":0,"bytes_in":0,"bytes_out":0,"errors":0}]"#;
    assert_eq!(endpoint_stats_response(&entries), format!("{}{}", first, second));
    assert_eq!(endpoint_stats_response(&[]), "[]");
}

#[test]
fn help_and_unknown_replies() {
    assert_eq!(help_response(), "Available commands: stats, endpoint_stats, help");
    assert_eq!(unknown_response(), "Unknown command. Try 'help'");
}
