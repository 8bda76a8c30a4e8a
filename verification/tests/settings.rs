use thru::config::Config;
use thru::error::TunnelError;
use thru::quic::quic_transport_params;
use thru::stream::AsyncReadWrite;
use thru::transport::{first_ipv4, TcpClient};

#[test]
fn config_defaults() {
    let c = Config::new(Some("cert.pem".to_string()), None, Some("root.pem".to_string()));
    assert_eq!(c.tls_cert_path.as_deref(), Some("cert.pem"));
    assert_eq!(c.tls_key_path, None);
    assert_eq!(c.tls_peer_cert_path.as_deref(), Some("root.pem"));
    assert_eq!(c.quic_max_idle_timeout, 30_000);
    assert_eq!(c.quic_keep_alive_interval, 15_000);
    assert_eq!(c.quic_retry_interval, 5_000);
    assert_eq!(c.quic_stream_receive_window, 2 * 1024 * 1024);
    assert_eq!(c.quic_send_window, 8 * c.quic_stream_receive_window);
    assert_eq!(c.udp_max_idle_timeout, 10_000);
}

#[test]
fn tls_paths_required() {
    let c = Config::new(None, None, None);
    assert!(matches!(c.required_tls_cert_path(), Err(TunnelError::MissingTlsCert)));
    assert!(matches!(c.required_tls_key_path(), Err(TunnelError::MissingTlsKey)));
    let c = Config::new(Some("c".to_string()), Some("k".to_string()), None);
    assert_eq!(c.required_tls_cert_path().unwrap(), "c");
    assert_eq!(c.required_tls_key_path().unwrap(), "k");
}

#[test]
fn quic_params_from_defaults() {
    let c = Config::new(None, None, None);
    let p = quic_transport_params(&c).unwrap();
    assert_eq!(p.keep_alive_interval, 15_000);
    assert_eq!(p.send_window, 16 * 1024 * 1024);
    assert_eq!(p.stream_receive_window, quinn::VarInt::from_u32(2 * 1024 * 1024));
    assert_eq!(p.max_idle_timeout, quinn::IdleTimeout::from(quinn::VarInt::from_u32(30_000)));
}

#[test]
fn quic_params_idle_timeout_bound() {
    let mut c = Config::new(None, None, None);
    c.quic_max_idle_timeout = (1u64 << 62) - 1;
    assert!(quic_transport_params(&c).is_ok());
    c.quic_max_idle_timeout = 1u64 << 62;
    assert!(matches!(
        quic_transport_params(&c),
        Err(TunnelError::IdleTimeoutOutOfRange)
    ));
    c.quic_max_idle_timeout = u64::MAX;
    c.quic_stream_receive_window = u64::MAX;
    assert!(matches!(
        quic_transport_params(&c),
        Err(TunnelError::IdleTimeoutOutOfRange)
    ));
}

#[test]
fn tcp_client_keeps_address() {
    let c = TcpClient::new("example.com:80");
    assert_eq!(c.remote_addr(), "example.com:80");
}

#[test]
fn read_write_halves() {
    let s = AsyncReadWrite::new(1u8, "w");
    assert_eq!(s.into_parts(), (1u8, "w"));
}

#[test]
fn first_ipv4_picks_first() {
    assert_eq!(first_ipv4(&vec![false, true, true]), Some(1));
    assert_eq!(first_ipv4(&vec![true]), Some(0));
    assert_eq!(first_ipv4(&vec![false, false]), None);
    assert_eq!(first_ipv4(&vec![]), None);
}
