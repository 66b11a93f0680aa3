use mavrouter::error::RouterError;
use mavrouter::config::load::{is_toml_file_name, toml_files_in_order};
use mavrouter::config::Config;

fn files(entries: &[(&str, &str)]) -> Vec<(String, String)> {
    entries.iter().map(|(p, t)| (p.to_string(), t.to_string())).collect()
}

#[test]
fn toml_names_are_recognised() {
    assert!(is_toml_file_name("config.toml"));
    assert!(is_toml_file_name("00-base.toml"));
    assert!(is_toml_file_name("a.b.toml"));
    assert!(!is_toml_file_name(".toml"));
    assert!(!is_toml_file_name("backup.toml.bak"));
    assert!(!is_toml_file_name("notes.txt"));
    assert!(!is_toml_file_name("toml"));
    assert!(!is_toml_file_name("README.md"));
}

#[test]
fn toml_files_are_filtered_and_sorted() {
    let names = vec![
        "10-override.toml".to_string(),
        "notes.txt".to_string(),
        "00-base.toml".to_string(),
        "backup.toml.bak".to_string(),
        "05-middle.toml".to_string(),
    ];
    assert_eq!(
        toml_files_in_order(names),
        vec!["00-base.toml".to_string(), "05-middle.toml".to_string(), "10-override.toml".to_string()]
    );
    assert!(toml_files_in_order(vec![]).is_empty());
}

#[test]
fn merging_files_lays_later_over_earlier() {
    let fs = files(&[
        ("00-base.toml", "[general]\ntcp_port = 5760\nbus_capacity = 1000\n"),
        ("10-endpoints.toml", "[[endpoint]]\ntype = \"udp\"\naddress = \"0.0.0.0:14550\"\nmode = \"server\"\n"),
    ]);
    let config = Config::merge_files(&fs).expect("merge");
    assert_eq!(config.general.tcp_port, Some(5760));
    assert_eq!(config.general.bus_capacity, 5000);
    assert_eq!(config.endpoint.len(), 1);
}

#[test]
fn merging_files_in_order_accumulates_endpoints() {
    let fs = files(&[
        ("00-base.toml", "[general]\nbus_capacity = 1000\n[[endpoint]]\ntype = \"udp\"\naddress = \"0.0.0.0:14550\"\nmode = \"server\"\n"),
        ("10-override.toml", "[general]\nbus_capacity = 2000\n[[endpoint]]\ntype = \"tcp\"\naddress = \"127.0.0.1:5761\"\nmode = \"client\"\n"),
    ]);
    let config = Config::merge_files(&fs).expect("merge");
    assert_eq!(config.general.bus_capacity, 2000);
    assert_eq!(config.endpoint.len(), 2);
}

#[test]
fn merging_no_files_gives_defaults() {
    let config = Config::merge_files(&[]).expect("empty");
    assert!(config.endpoint.is_empty());
    assert_eq!(config.general.bus_capacity, 5000);
}

#[test]
fn merging_reports_the_broken_file() {
    let fs = files(&[("01-bad.toml", "key = \"unterminated\n")]);
    let err = Config::merge_files(&fs).expect_err("not TOML");
    match err {
        RouterError::ConfigParseFile { path, .. } => assert_eq!(path.to_str(), Some("01-bad.toml")),
        other => panic!("expected ConfigParseFile, got {:?}", other),
    }
    let fs = files(&[
        ("00-ok.toml", "[general]\nbus_capacity = 100\n"),
        ("01-bad.toml", "key = \"unterminated\n"),
        ("02-bad.toml", "also = \n"),
    ]);
    match Config::merge_files(&fs).expect_err("not TOML") {
        RouterError::ConfigParseFile { path, .. } => assert_eq!(path.to_str(), Some("01-bad.toml")),
        other => panic!("expected ConfigParseFile, got {:?}", other),
    }
}

#[test]
fn merged_result_is_validated_once() {
    let fs = files(&[
        ("a.toml", "[general]\nbus_capacity = 5\n"),
        ("b.toml", "[general]\nbus_capacity = 100\n"),
    ]);
    assert!(Config::merge_files(&fs).is_ok());
    let fs = files(&[
        ("a.toml", "[general]\nbus_capacity = 100\n"),
        ("b.toml", "[general]\nbus_capacity = 5\n"),
    ]);
    assert!(Config::merge_files(&fs).is_err());
}
