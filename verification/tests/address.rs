use port_reconciler::address::Ipv4Octets;
use port_reconciler::address::parse_ipv4;
use port_reconciler::address::parse_ipv4_bytes;
use port_reconciler::config::Config;
use port_reconciler::config::ConfigError;
use port_reconciler::config::TransmissionRpcConfig;

fn octets(a: u8, b: u8, c: u8, d: u8) -> Ipv4Octets {
    Ipv4Octets { a, b, c, d }
}

#[test]
fn parses_a_plain_address() {
    assert_eq!(parse_ipv4("192.168.1.1"), Some(octets(192, 168, 1, 1)));
}

#[test]
fn parses_boundary_values() {
    assert_eq!(parse_ipv4("0.0.0.0"), Some(octets(0, 0, 0, 0)));
    assert_eq!(parse_ipv4("255.255.255.255"), Some(octets(255, 255, 255, 255)));
    assert_eq!(parse_ipv4("10.0.0.255"), Some(octets(10, 0, 0, 255)));
}

#[test]
fn rejects_empty_and_short_forms() {
    assert_eq!(parse_ipv4(""), None);
    assert_eq!(parse_ipv4("1.2.3"), None);
    assert_eq!(parse_ipv4("1.2.3."), None);
    assert_eq!(parse_ipv4(".1.2.3"), None);
}

#[test]
fn rejects_extra_segments_and_trailing_text() {
    assert_eq!(parse_ipv4("1.2.3.4.5"), None);
    assert_eq!(parse_ipv4("1.2.3.4 "), None);
    assert_eq!(parse_ipv4("1.2.3.4x"), None);
}

#[test]
fn rejects_out_of_range_octets() {
    assert_eq!(parse_ipv4("256.1.1.1"), None);
    assert_eq!(parse_ipv4("1.1.1.999"), None);
    assert_eq!(parse_ipv4("1.1.1.1000"), None);
}

#[test]
fn rejects_leading_zeros() {
    assert_eq!(parse_ipv4("01.2.3.4"), None);
    assert_eq!(parse_ipv4("1.2.3.04"), None);
    assert_eq!(parse_ipv4("192.168.001.1"), None);
}

#[test]
fn rejects_non_digit_characters() {
    assert_eq!(parse_ipv4("a.b.c.d"), None);
    assert_eq!(parse_ipv4("-1.2.3.4"), None);
    assert_eq!(parse_ipv4("1..2.3"), None);
    assert_eq!(parse_ipv4("1.2.3.+4"), None);
}

#[test]
fn byte_and_text_entry_points_agree() {
    assert_eq!(parse_ipv4_bytes(b"172.16.254.3"), Some(octets(172, 16, 254, 3)));
    assert_eq!(parse_ipv4_bytes(b"172.16.254."), None);
    assert_eq!(parse_ipv4("172.16.254.3"), Some(octets(172, 16, 254, 3)));
}

#[test]
fn config_accepts_a_parseable_gateway() {
    let config = Config { gateway: String::from("10.2.0.1"), transmission: None };
    assert_eq!(config.validate_gateway(), Ok(octets(10, 2, 0, 1)));
}

#[test]
fn config_rejects_an_unparseable_gateway() {
    let config = Config { gateway: String::from("gateway.local"), transmission: None };
    assert_eq!(config.validate_gateway(), Err(ConfigError::InvalidGatewayAddress));
}

#[test]
fn config_reports_downstream_presence() {
    let without = Config { gateway: String::from("10.2.0.1"), transmission: None };
    assert!(!without.has_downstream());
    let with = Config {
        gateway: String::from("10.2.0.1"),
        transmission: Some(TransmissionRpcConfig {
            rpc_url: String::from("http://localhost:9091/transmission/rpc"),
            rpc_username: String::from("user"),
            rpc_password: String::from("pass"),
        }),
    };
    assert!(with.has_downstream());
}

#[test]
fn default_config_is_empty_and_degraded() {
    let config = Config::default();
    assert_eq!(config.gateway, String::new());
    assert!(config.transmission.is_none());
    let rpc = TransmissionRpcConfig::default();
    assert_eq!(rpc.rpc_url, String::new());
    assert_eq!(rpc.rpc_username, String::new());
    assert_eq!(rpc.rpc_password, String::new());
}
