use thru::error::TunnelError;
use thru::quic::server_name;
use thru::text::split_once_separator;
use thru::transport::TransportType;
use thru::tunnel::{parse_tunnel_arg, TunnelEndpoint, UrlParts};

#[test]
fn transport_type_known_schemes() {
    assert_eq!(TransportType::try_from("tcp").unwrap(), TransportType::Tcp);
    assert_eq!(TransportType::try_from("udp").unwrap(), TransportType::Udp);
    assert_eq!(TransportType::try_from("quic").unwrap(), TransportType::Quic);
}

#[test]
fn transport_type_unknown_scheme() {
    match TransportType::try_from("http") {
        Err(TunnelError::UnknownTransportType(s)) => assert_eq!(s, "http"),
        other => panic!("unexpected {:?}", other),
    }
    assert!(TransportType::try_from("TCP").is_err());
    assert!(TransportType::try_from("").is_err());
    assert!(TransportType::try_from("tcpx").is_err());
}

#[test]
fn endpoint_from_tcp_url() {
    let e = TunnelEndpoint::try_from("tcp://127.0.0.1:4242").unwrap();
    assert_eq!(e.transport_type, TransportType::Tcp);
    assert_eq!(e.addr, "127.0.0.1:4242");
}

#[test]
fn endpoint_from_quic_url_with_domain() {
    let e = TunnelEndpoint::try_from("quic://example.com:4242").unwrap();
    assert_eq!(e.transport_type, TransportType::Quic);
    assert_eq!(e.addr, "example.com:4242");
}

#[test]
fn endpoint_port_rendering() {
    let e = TunnelEndpoint::try_from("udp://0.0.0.0:0").unwrap();
    assert_eq!(e.transport_type, TransportType::Udp);
    assert_eq!(e.addr, "0.0.0.0:0");
    let e = TunnelEndpoint::try_from("udp://h:65535").unwrap();
    assert_eq!(e.addr, "h:65535");
    let e = TunnelEndpoint::try_from("tcp://h:10").unwrap();
    assert_eq!(e.addr, "h:10");
}

#[test]
fn endpoint_host_kept_as_written() {
    // The URL parser, not the library, decides the host text; tcp is not a special scheme,
    // so the host is kept as written.
    let e = TunnelEndpoint::try_from("tcp://Example.com:1").unwrap();
    assert_eq!(e.addr, "Example.com:1");
}

#[test]
fn endpoint_missing_port() {
    match TunnelEndpoint::try_from("tcp://127.0.0.1") {
        Err(TunnelError::InvalidEndpointPort(u)) => assert_eq!(u, "tcp://127.0.0.1"),
        other => panic!("unexpected {:?}", other),
    }
}

#[test]
fn endpoint_missing_host() {
    match TunnelEndpoint::try_from("tcp:4242") {
        Err(TunnelError::InvalidEndpointHost(u)) => assert_eq!(u, "tcp:4242"),
        other => panic!("unexpected {:?}", other),
    }
}

#[test]
fn endpoint_unknown_scheme() {
    match TunnelEndpoint::try_from("sctp://127.0.0.1:4242") {
        Err(TunnelError::UnknownTransportType(s)) => assert_eq!(s, "sctp"),
        other => panic!("unexpected {:?}", other),
    }
}

#[test]
fn endpoint_not_a_url() {
    match TunnelEndpoint::try_from("127.0.0.1:4242:x") {
        Err(TunnelError::InvalidUrl(t)) => assert_eq!(t, "relative URL without a base"),
        other => panic!("unexpected {:?}", other),
    }
    assert!(matches!(
        TunnelEndpoint::try_from("no scheme here"),
        Err(TunnelError::InvalidUrl(_))
    ));
    assert!(matches!(
        TunnelEndpoint::try_from("tcp://127.0.0.1:99999"),
        Err(TunnelError::InvalidUrl(t)) if t == "invalid port number"
    ));
}

#[test]
fn endpoint_from_url_parts_exact() {
    let parts = UrlParts {
        serialization: "quic://h:7".to_string(),
        scheme: "quic".to_string(),
        host: Some("h".to_string()),
        port: Some(7),
    };
    let e = TunnelEndpoint::from_url_parts(&parts).unwrap();
    assert_eq!(e.transport_type, TransportType::Quic);
    assert_eq!(e.addr, "h:7");
}

#[test]
fn endpoint_from_url_parts_errors_in_order() {
    let parts = UrlParts {
        serialization: "x://".to_string(),
        scheme: "x".to_string(),
        host: None,
        port: None,
    };
    assert!(matches!(
        TunnelEndpoint::from_url_parts(&parts),
        Err(TunnelError::UnknownTransportType(_))
    ));
    let parts = UrlParts {
        serialization: "tcp:".to_string(),
        scheme: "tcp".to_string(),
        host: None,
        port: None,
    };
    assert!(matches!(
        TunnelEndpoint::from_url_parts(&parts),
        Err(TunnelError::InvalidEndpointHost(_))
    ));
    let parts = UrlParts {
        serialization: "tcp://a".to_string(),
        scheme: "tcp".to_string(),
        host: Some("a".to_string()),
        port: None,
    };
    assert!(matches!(
        TunnelEndpoint::from_url_parts(&parts),
        Err(TunnelError::InvalidEndpointPort(_))
    ));
}

#[test]
fn tunnel_arg_readme_example() {
    let (from, to) = parse_tunnel_arg("tcp://127.0.0.1:4242==quic://example.com:4242").unwrap();
    assert_eq!(from.transport_type, TransportType::Tcp);
    assert_eq!(from.addr, "127.0.0.1:4242");
    assert_eq!(to.transport_type, TransportType::Quic);
    assert_eq!(to.addr, "example.com:4242");
}

#[test]
fn tunnel_arg_server_example() {
    let (from, to) = parse_tunnel_arg("quic://0.0.0.0:4242==tcp://tcpbin.com:4242").unwrap();
    assert_eq!(from.transport_type, TransportType::Quic);
    assert_eq!(from.addr, "0.0.0.0:4242");
    assert_eq!(to.transport_type, TransportType::Tcp);
    assert_eq!(to.addr, "tcpbin.com:4242");
}

#[test]
fn tunnel_arg_without_separator() {
    match parse_tunnel_arg("tcp://127.0.0.1:4242") {
        Err(TunnelError::InvalidTunnel(a)) => assert_eq!(a, "tcp://127.0.0.1:4242"),
        other => panic!("unexpected {:?}", other),
    }
    assert!(matches!(parse_tunnel_arg("a=b"), Err(TunnelError::InvalidTunnel(_))));
}

#[test]
fn tunnel_arg_first_endpoint_error_wins() {
    assert!(matches!(
        parse_tunnel_arg("x://a:1==y://b:2"),
        Err(TunnelError::UnknownTransportType(s)) if s == "x"
    ));
    assert!(matches!(
        parse_tunnel_arg("tcp://a:1==y://b:2"),
        Err(TunnelError::UnknownTransportType(s)) if s == "y"
    ));
}

#[test]
fn split_at_first_separator() {
    assert_eq!(split_once_separator("a==b==c"), Some(("a", "b==c")));
    assert_eq!(split_once_separator("a===b"), Some(("a", "=b")));
    assert_eq!(split_once_separator("==b"), Some(("", "b")));
    assert_eq!(split_once_separator("a=="), Some(("a", "")));
    assert_eq!(split_once_separator("a=b"), None);
    assert_eq!(split_once_separator(""), None);
    assert_eq!(split_once_separator("é==ü"), Some(("é", "ü")));
}

#[test]
fn split_law_roundtrip() {
    let from = "tcp://x:1";
    let to = "udp://y:2==z";
    let joined = format!("{}=={}", from, to);
    assert_eq!(split_once_separator(&joined), Some((from, to)));
}

#[test]
fn server_name_is_host_of_endpoint() {
    let e = TunnelEndpoint::try_from("quic://example.com:4242").unwrap();
    assert_eq!(server_name(&e.addr), "example.com");
    assert_eq!(server_name("a:b:c"), "a");
    assert_eq!(server_name(":1"), "");
}

#[test]
fn error_messages() {
    assert_eq!(
        TunnelError::InvalidTunnel("abc".to_string()).message(),
        "invalid tunnel: abc"
    );
    assert_eq!(
        TunnelError::UnknownTransportType("ftp".to_string()).message(),
        "unknown transport type: ftp"
    );
    assert_eq!(
        TunnelError::InvalidEndpointHost("tcp:1".to_string()).message(),
        "invalid endpoint host: tcp:1"
    );
    assert_eq!(
        TunnelError::InvalidEndpointPort("tcp://a".to_string()).message(),
        "invalid endpoint port: tcp://a"
    );
    assert_eq!(
        TunnelError::IdleTimeoutOutOfRange.message(),
        "value too large for varint encoding"
    );
    assert_eq!(TunnelError::MissingTlsCert.message(), "tls cert must be provided");
    assert_eq!(TunnelError::MissingTlsKey.message(), "tls key must be provided");
    assert_eq!(
        TunnelError::ConnectionNotEstablished.message(),
        "connection not established"
    );
    assert_eq!(
        TunnelError::NotAcceptingConnections.message(),
        "not accepting connections"
    );
    match TunnelEndpoint::try_from("nope") {
        Err(e) => assert_eq!(e.message(), "relative URL without a base"),
        Ok(_) => panic!("parsed"),
    }
    assert_eq!(
        TunnelError::InvalidUrl("invalid port number".to_string()).message(),
        "invalid port number"
    );
}

#[test]
fn port_text_reads_back() {
    for port in [0u16, 1, 9, 10, 99, 100, 4242, 9999, 10000, 65535] {
        let e = TunnelEndpoint::try_from(format!("tcp://h:{}", port).as_str()).unwrap();
        let text = e.addr.rsplit(':').next().unwrap();
        assert!(text.chars().all(|c| c.is_ascii_digit()));
        assert_eq!(text.parse::<u16>().unwrap(), port);
    }
}

#[test]
fn tunnel_arg_is_two_endpoint_parses() {
    let (f, t) = parse_tunnel_arg("udp://a:1==tcp://b:2").unwrap();
    let f2 = TunnelEndpoint::try_from("udp://a:1").unwrap();
    let t2 = TunnelEndpoint::try_from("tcp://b:2").unwrap();
    assert_eq!((f.transport_type, f.addr), (f2.transport_type, f2.addr));
    assert_eq!((t.transport_type, t.addr), (t2.transport_type, t2.addr));
    match parse_tunnel_arg("tcp://a:1==tcp://b") {
        Err(TunnelError::InvalidEndpointPort(u)) => assert_eq!(u, "tcp://b"),
        other => panic!("unexpected {:?}", other),
    }
}
