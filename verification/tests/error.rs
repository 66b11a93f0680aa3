use mavrouter::config::Config;
use mavrouter::error::RouterError;
use std::io;

#[test]
fn config_validation_constructor_works() {
    let err = RouterError::config_validation("invalid setting");
    assert!(matches!(err, RouterError::ConfigValidation { .. }));
    assert!(err.to_string().contains("invalid setting"));
}

#[test]
fn legacy_config_constructor_maps_to_validation() {
    let err = RouterError::config("invalid setting");
    assert!(matches!(err, RouterError::ConfigValidation { .. }));
    assert!(err.to_string().contains("invalid setting"));
}

#[test]
fn test_network_error_creation() {
    let io_err = io::Error::new(io::ErrorKind::ConnectionRefused, "refused");
    let err = RouterError::network("127.0.0.1:5760", io_err);
    assert!(matches!(err, RouterError::Network { .. }));
    assert!(err.to_string().contains("127.0.0.1:5760"));
}

#[test]
fn test_serial_timeout_error_creation() {
    let err = RouterError::serial_timeout("/dev/ttyUSB0", 3);
    assert!(matches!(
        err,
        RouterError::SerialTimeout {
            ref device,
            timeout_secs: 3,
        } if device == "/dev/ttyUSB0"
    ));
    assert!(err.to_string().contains("/dev/ttyUSB0"));
    assert!(err.to_string().contains("3s"));
}

#[test]
fn test_filesystem_error_creation() {
    let io_err = io::Error::new(io::ErrorKind::NotFound, "not found");
    let err = RouterError::filesystem("/var/log/test.log", io_err);
    assert!(matches!(err, RouterError::Filesystem { .. }));
    assert!(err.to_string().contains("/var/log/test.log"));
}

#[test]
fn test_io_error_requires_context() {
    let io_err = io::Error::new(io::ErrorKind::BrokenPipe, "broken");
    let router_err = RouterError::network("test-endpoint", io_err);
    assert!(matches!(router_err, RouterError::Network { .. }));
    assert!(router_err.to_string().contains("test-endpoint"));
}

#[test]
fn messages_are_complete() {
    assert_eq!(
        RouterError::serial_timeout("/dev/ttyACM0", 10).to_string(),
        "Serial port open on '/dev/ttyACM0' timed out after 10s"
    );
    assert_eq!(
        RouterError::config_validation("bad port").to_string(),
        "Configuration validation error: bad port"
    );
    let io_err = io::Error::new(io::ErrorKind::Other, "boom");
    assert_eq!(
        RouterError::filesystem("/x", io_err).to_string(),
        "Filesystem error at '/x': boom"
    );
}

#[test]
fn config_parse_file_preserves_path_and_span() {
    let bad = "key =\n";
    let parse_err = toml::from_str::<toml::Value>(bad).expect_err("expected parse failure");
    let raw = parse_err.to_string();
    let wrapped = RouterError::config_parse_file("/tmp/foo.toml", parse_err);
    let text = wrapped.to_string();
    assert!(text.starts_with("Failed to parse TOML config file '/tmp/foo.toml': "));
    assert!(text.ends_with(&raw));
    assert!(matches!(wrapped, RouterError::ConfigParseFile { .. }));
}

#[test]
fn config_parse_preserves_toml_span() {
    let bad = "key = \"unterminated\nkey2 = 1\n";
    let parse_err = toml::from_str::<toml::Value>(bad).expect_err("expected parse failure");
    let raw_msg = parse_err.to_string();

    let wrapped = RouterError::config_parse(parse_err);
    assert!(matches!(wrapped, RouterError::ConfigParse { .. }));
    match &wrapped {
        RouterError::ConfigParse { source } => assert_eq!(source.to_string(), raw_msg),
        _ => panic!("ConfigParse should expose source"),
    }
}

#[test]
fn parse_of_non_toml_keeps_the_toml_error() {
    let err = Config::parse("this is not valid toml {{{{").expect_err("not TOML");
    assert!(matches!(err, RouterError::ConfigParse { .. }));
    let err = Config::parse("bus_capacity = 1\n[general]\nbus_capacity = 5\n").expect_err("invalid");
    assert!(matches!(err, RouterError::ConfigValidation { .. }));
}
