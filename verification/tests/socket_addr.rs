use mavrouter::config::socket_addr::parse_socket_addr_port;

fn port(s: &str) -> Option<u16> {
    parse_socket_addr_port(s)
}

#[test]
fn ipv4_socket_addresses() {
    assert_eq!(port("127.0.0.1:14550"), Some(14550));
    assert_eq!(port("0.0.0.0:0"), Some(0));
    assert_eq!(port("255.255.255.255:65535"), Some(65535));
    // Octets with a leading zero are refused; a lone zero is fine.
    assert_eq!(port("192.168.01.1:80"), None);
    assert_eq!(port("192.168.0.1:80"), Some(80));
    assert_eq!(port("256.0.0.1:80"), None);
    assert_eq!(port("1.2.3:80"), None);
    assert_eq!(port("1.2.3.4.5:80"), None);
    assert_eq!(port("1.2.3.4"), None);
    assert_eq!(port("localhost:80"), None);
}

#[test]
fn ports_at_the_limit() {
    assert_eq!(port("1.2.3.4:65535"), Some(65535));
    assert_eq!(port("1.2.3.4:65536"), None);
    assert_eq!(port("1.2.3.4:"), None);
    // Leading zeros are allowed in a port.
    assert_eq!(port("1.2.3.4:0080"), Some(80));
    assert_eq!(port("1.2.3.4:+80"), None);
    assert_eq!(port("1.2.3.4:80 "), None);
}

#[test]
fn ipv6_socket_addresses() {
    assert_eq!(port("[::]:80"), Some(80));
    assert_eq!(port("[::1]:14550"), Some(14550));
    assert_eq!(port("[1:2:3:4:5:6:7:8]:1"), Some(1));
    assert_eq!(port("[1::8]:2"), Some(2));
    assert_eq!(port("[fe80::]:3"), Some(3));
    assert_eq!(port("[1::2::3]:80"), None);
    assert_eq!(port("[1:2:3:4:5:6:7:8:9]:80"), None);
    assert_eq!(port("[12345::1]:80"), None);
    assert_eq!(port("::1:80"), None);
    assert_eq!(port("[::1]"), None);
}

#[test]
fn ipv6_with_embedded_ipv4() {
    assert_eq!(port("[::ffff:192.168.1.1]:80"), Some(80));
    assert_eq!(port("[::1.2.3.4]:81"), Some(81));
    assert_eq!(port("[1:2:3:4:5:6:1.2.3.4]:82"), Some(82));
    assert_eq!(port("[::ffff:192.168.01.1]:80"), None);
}

#[test]
fn ipv6_scope_ids() {
    assert_eq!(port("[fe80::1%2]:80"), Some(80));
    assert_eq!(port("[fe80::1%4294967295]:80"), Some(80));
    assert_eq!(port("[fe80::1%4294967296]:80"), None);
    assert_eq!(port("[fe80::1%eth0]:80"), None);
    assert_eq!(port("[fe80::1%]:80"), None);
}
