use mavrouter::endpoints::tcp::{admits_client, MAX_TCP_CLIENTS};
use mavrouter::endpoints::tlog::{tlog_file_name, tlog_record};
use mavrouter::endpoints::udp::{
    client_is_fresh,
    adopts_peer, broadcast_send_target, client_bind_addr, is_broadcast_addr, IpTarget,
};
use std::time::Duration;

fn v4(a: u8, b: u8, c: u8, d: u8) -> IpTarget {
    IpTarget::V4 { octets: [a, b, c, d] }
}

#[test]
fn test_is_broadcast_addr_global() {
    // 255.255.255.255:14550
    assert!(is_broadcast_addr(&v4(255, 255, 255, 255)));
}

#[test]
fn test_is_broadcast_addr_subnet() {
    // 192.168.1.255:14550
    assert!(is_broadcast_addr(&v4(192, 168, 1, 255)));
}

#[test]
fn test_is_broadcast_addr_unicast() {
    // 192.168.1.1:14550
    assert!(!is_broadcast_addr(&v4(192, 168, 1, 1)));
}

#[test]
fn test_is_broadcast_addr_ipv6() {
    // [::1]:14550
    assert!(!is_broadcast_addr(&IpTarget::V6));
}

#[test]
fn test_is_broadcast_addr_10_network() {
    // 10.0.0.255:14550
    assert!(is_broadcast_addr(&v4(10, 0, 0, 255)));
}

#[test]
fn test_is_broadcast_addr_ipv6_not_broadcast() {
    // [fe80::1]:14550
    assert!(!is_broadcast_addr(&IpTarget::V6));
}

#[test]
fn test_client_bind_addr_ipv4() {
    // 192.168.1.1:14550
    assert_eq!(client_bind_addr(&v4(192, 168, 1, 1)), "0.0.0.0:0");
}

#[test]
fn test_client_bind_addr_ipv6() {
    // [::1]:14550
    assert_eq!(client_bind_addr(&IpTarget::V6), "[::]:0");
}

#[test]
fn test_broadcast_peer_state_machine() {
    let broadcast_addr = "192.168.1.255:14550";
    let unicast_addr = "192.168.1.42:14550";
    let timeout = Duration::from_millis(100);

    // No peer yet: send to the broadcast address.
    assert_eq!(broadcast_send_target(None, broadcast_addr, &timeout), broadcast_addr);

    // A unicast peer was just heard from: send to it.
    let fresh = Some((unicast_addr, Duration::from_millis(0)));
    assert_eq!(broadcast_send_target(fresh, broadcast_addr, &timeout), unicast_addr);

    // The peer has been silent for 200 ms: back to broadcast.
    let stale = Some((unicast_addr, Duration::from_millis(200)));
    assert_eq!(broadcast_send_target(stale, broadcast_addr, &timeout), broadcast_addr);
}

#[test]
fn broadcast_target_at_exact_timeout_reverts() {
    let timeout = Duration::from_millis(100);
    let at_limit = Some((1u32, Duration::from_millis(100)));
    assert_eq!(broadcast_send_target(at_limit, 9u32, &timeout), 9);
    let just_below = Some((1u32, Duration::from_nanos(99_999_999)));
    assert_eq!(broadcast_send_target(just_below, 9u32, &timeout), 1);
}

#[test]
fn peer_adoption_needs_broadcast_mode_and_a_unicast_sender() {
    assert!(adopts_peer(true, false, &v4(192, 168, 1, 42)));
    assert!(!adopts_peer(false, false, &v4(192, 168, 1, 42)));
    assert!(!adopts_peer(true, true, &v4(192, 168, 1, 42)));
    assert!(!adopts_peer(true, false, &v4(192, 168, 1, 255)));
    assert!(adopts_peer(true, false, &IpTarget::V6));
}

#[test]
fn tcp_server_admits_up_to_the_limit() {
    assert!(admits_client(0));
    assert!(admits_client(MAX_TCP_CLIENTS - 1));
    assert!(!admits_client(MAX_TCP_CLIENTS));
}

#[test]
fn tlog_name_and_record_layout() {
    assert_eq!(tlog_file_name(1700000000123456), "flight_1700000000123456.tlog");
    assert_eq!(
        tlog_record(0x0102030405060708, &[0xFD, 0x09]),
        vec![1, 2, 3, 4, 5, 6, 7, 8, 0xFD, 0x09]
    );
    assert_eq!(tlog_record(0, &[]), vec![0; 8]);
}

#[test]
fn client_expires_at_its_ttl() {
    assert!(client_is_fresh(&Duration::from_secs(0), 300));
    assert!(client_is_fresh(&Duration::from_millis(299_999), 300));
    assert!(!client_is_fresh(&Duration::from_secs(300), 300));
    assert!(!client_is_fresh(&Duration::from_secs(301), 300));
    assert!(!client_is_fresh(&Duration::from_secs(0), 0));
}
