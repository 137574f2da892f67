use libp2p_perf::protocol::PerfProtocolConfig;
use libp2p_perf::transport::{YAMUX_MAX_BUFFER, YAMUX_RECEIVE_WINDOW};
use libp2p_perf::TcpTransportSecurity;

#[test]
fn parses_each_security_name() {
    assert_eq!(TcpTransportSecurity::parse("noise"), Ok(TcpTransportSecurity::Noise));
    assert_eq!(TcpTransportSecurity::parse("plaintext"), Ok(TcpTransportSecurity::Plaintext));
    assert_eq!(TcpTransportSecurity::parse("all"), Ok(TcpTransportSecurity::All));
}

#[test]
fn rejects_unknown_security_name() {
    let expected = "Expected one of 'noise', 'plaintext' or 'all'.".to_string();
    assert_eq!(TcpTransportSecurity::parse("tls"), Err(expected.clone()));
    assert_eq!(TcpTransportSecurity::parse("Noise"), Err(expected.clone()));
    assert_eq!(TcpTransportSecurity::parse(""), Err(expected.clone()));
    assert_eq!("noise ".parse::<TcpTransportSecurity>(), Err(expected));
}

#[test]
fn from_str_agrees_with_parse() {
    assert_eq!("plaintext".parse::<TcpTransportSecurity>(), Ok(TcpTransportSecurity::Plaintext));
}

#[test]
fn security_names_print_as_variants() {
    assert_eq!(TcpTransportSecurity::Noise.name(), "Noise");
    assert_eq!(TcpTransportSecurity::Plaintext.name(), "Plaintext");
    assert_eq!(TcpTransportSecurity::All.name(), "All");
}

#[test]
fn security_choice_selects_upgrades() {
    assert!(TcpTransportSecurity::Noise.uses_noise());
    assert!(!TcpTransportSecurity::Noise.uses_plaintext());
    assert!(!TcpTransportSecurity::Plaintext.uses_noise());
    assert!(TcpTransportSecurity::Plaintext.uses_plaintext());
    assert!(TcpTransportSecurity::All.uses_noise());
    assert!(TcpTransportSecurity::All.uses_plaintext());
}

#[test]
fn multiplexer_windows_are_sixteen_mebibytes() {
    assert_eq!(YAMUX_RECEIVE_WINDOW, 16 * 1024 * 1024);
    assert_eq!(YAMUX_MAX_BUFFER, 16 * 1024 * 1024);
}

#[test]
fn protocol_identifier_and_no_op_upgrade() {
    let config = PerfProtocolConfig::new();
    assert_eq!(config.protocol_info(), "/perf/0.1.0");
    assert_eq!(config.upgrade_inbound(vec![1u8, 2, 3]), vec![1u8, 2, 3]);
    assert_eq!(config.upgrade_outbound("stream"), "stream");
}
