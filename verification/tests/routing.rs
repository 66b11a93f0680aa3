use mavrouter::router::EndpointId;
use mavrouter::routing::{RoutingTable, ROUTE_REFRESH_MS};

#[test]
fn learned_route_is_used_for_its_target() {
    let mut rt = RoutingTable::new();
    assert!(!rt.should_send(EndpointId(1), 5, 3));
    rt.update(EndpointId(1), 5, 3, 1000);
    assert!(rt.should_send(EndpointId(1), 5, 3));
    assert!(rt.should_send(EndpointId(1), 5, 0));
    assert!(!rt.should_send(EndpointId(1), 5, 4));
    assert!(!rt.should_send(EndpointId(1), 99, 1));
    assert!(!rt.should_send(EndpointId(2), 5, 3));
}

#[test]
fn group_members_share_routes() {
    let mut rt = RoutingTable::new();
    rt.set_endpoint_group(EndpointId(1), "radios".to_string());
    rt.set_endpoint_group(EndpointId(2), "radios".to_string());
    rt.set_endpoint_group(EndpointId(3), "other".to_string());
    rt.update(EndpointId(1), 1, 1, 0);
    assert!(rt.should_send(EndpointId(2), 1, 1));
    assert!(!rt.should_send(EndpointId(3), 1, 1));
    assert!(!rt.should_send(EndpointId(4), 1, 1));
}

#[test]
fn sniffer_endpoint_gets_everything() {
    let mut rt = RoutingTable::new();
    rt.set_sniffer_sysids(&[253, 254]);
    rt.update(EndpointId(7), 254, 1, 0);
    assert!(rt.should_send(EndpointId(7), 42, 9));
    assert!(!rt.should_send(EndpointId(8), 42, 9));
}

#[test]
fn refresh_and_prune_follow_the_clock() {
    let mut rt = RoutingTable::new();
    assert!(rt.needs_update_for_endpoint(EndpointId(1), 1, 1, 0));
    rt.update(EndpointId(1), 1, 1, 10_000);
    assert!(!rt.needs_update_for_endpoint(EndpointId(1), 1, 1, 10_000 + ROUTE_REFRESH_MS - 1));
    assert!(rt.needs_update_for_endpoint(EndpointId(1), 1, 1, 10_000 + ROUTE_REFRESH_MS));
    assert!(!rt.needs_update_for_endpoint(EndpointId(1), 1, 1, 5_000));

    rt.update(EndpointId(2), 2, 1, 20_000);
    rt.prune(30_000, 15_000);
    assert!(!rt.should_send(EndpointId(1), 1, 1));
    assert!(rt.should_send(EndpointId(2), 2, 1));
}

#[test]
fn stats_count_distinct_systems_and_endpoints() {
    let mut rt = RoutingTable::new();
    rt.update(EndpointId(1), 1, 1, 0);
    rt.update(EndpointId(1), 1, 2, 0);
    rt.update(EndpointId(2), 1, 1, 0);
    rt.update(EndpointId(2), 3, 1, 0);
    rt.update(EndpointId(2), 3, 1, 5);
    let s = rt.stats(77);
    assert_eq!(s.total_routes, 4);
    assert_eq!(s.total_systems, 2);
    assert_eq!(s.total_endpoints, 2);
    assert_eq!(s.timestamp, 77);
}
