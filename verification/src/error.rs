//! The library's error type.
use vstd::prelude::*;

verus! {

/// Why a tunnel could not be set up or used.
#[derive(Debug)]
pub enum TunnelError {
    /// The tunnel argument holds no `==` between its two endpoints; carries the argument.
    InvalidTunnel(String),
    /// An endpoint is not a URL; carries the URL parser's description of the error.
    InvalidUrl(String),
    /// The URL scheme names no transport; carries the scheme.
    UnknownTransportType(String),
    /// The endpoint URL has no host; carries the URL.
    InvalidEndpointHost(String),
    /// The endpoint URL has no port; carries the URL.
    InvalidEndpointPort(String),
    /// The QUIC idle timeout does not fit a QUIC variable-length integer.
    IdleTimeoutOutOfRange,
    /// The QUIC server was started without a TLS certificate path.
    MissingTlsCert,
    /// The QUIC server was started without a TLS private key path.
    MissingTlsKey,
    /// A PEM file does not decode; carries the reader's error text.
    InvalidPem(String),
    /// A root certificate file holds no certificate.
    InvalidRootCertificate,
    /// No QUIC connection to the remote endpoint is up.
    ConnectionNotEstablished,
    /// The QUIC endpoint stopped accepting connections.
    NotAcceptingConnections,
}

/// The model of a `TunnelError`: the same variants, with the texts as character sequences.
pub enum TunnelErrorView {
    InvalidTunnel(Seq<char>),
    InvalidUrl(Seq<char>),
    UnknownTransportType(Seq<char>),
    InvalidEndpointHost(Seq<char>),
    InvalidEndpointPort(Seq<char>),
    IdleTimeoutOutOfRange,
    MissingTlsCert,
    MissingTlsKey,
    InvalidPem(Seq<char>),
    InvalidRootCertificate,
    ConnectionNotEstablished,
    NotAcceptingConnections,
}

impl View for TunnelError {
    type V = TunnelErrorView;

    open spec fn view(&self) -> TunnelErrorView {
        match self {
            TunnelError::InvalidTunnel(a) => TunnelErrorView::InvalidTunnel(a@),
            TunnelError::InvalidUrl(t) => TunnelErrorView::InvalidUrl(t@),
            TunnelError::UnknownTransportType(s) => TunnelErrorView::UnknownTransportType(s@),
            TunnelError::InvalidEndpointHost(u) => TunnelErrorView::InvalidEndpointHost(u@),
            TunnelError::InvalidEndpointPort(u) => TunnelErrorView::InvalidEndpointPort(u@),
            TunnelError::IdleTimeoutOutOfRange => TunnelErrorView::IdleTimeoutOutOfRange,
            TunnelError::MissingTlsCert => TunnelErrorView::MissingTlsCert,
            TunnelError::MissingTlsKey => TunnelErrorView::MissingTlsKey,
            TunnelError::InvalidPem(t) => TunnelErrorView::InvalidPem(t@),
            TunnelError::InvalidRootCertificate => TunnelErrorView::InvalidRootCertificate,
            TunnelError::ConnectionNotEstablished => TunnelErrorView::ConnectionNotEstablished,
            TunnelError::NotAcceptingConnections => TunnelErrorView::NotAcceptingConnections,
        }
    }
}

/// The text of an error, as the tunnel reports it.
pub open spec fn error_text(e: TunnelErrorView) -> Seq<char> {
    match e {
        TunnelErrorView::InvalidTunnel(a) => "invalid tunnel: "@ + a,
        TunnelErrorView::InvalidUrl(t) => t,
        TunnelErrorView::UnknownTransportType(s) => "unknown transport type: "@ + s,
        TunnelErrorView::InvalidEndpointHost(u) => "invalid endpoint host: "@ + u,
        TunnelErrorView::InvalidEndpointPort(u) => "invalid endpoint port: "@ + u,
        TunnelErrorView::IdleTimeoutOutOfRange => "value too large for varint encoding"@,
        TunnelErrorView::MissingTlsCert => "tls cert must be provided"@,
        TunnelErrorView::MissingTlsKey => "tls key must be provided"@,
        TunnelErrorView::InvalidPem(t) => t,
        TunnelErrorView::InvalidRootCertificate => "invalid root certificate"@,
        TunnelErrorView::ConnectionNotEstablished => "connection not established"@,
        TunnelErrorView::NotAcceptingConnections => "not accepting connections"@,
    }
}

impl TunnelError {
    /// The error's text.
    pub fn message(&self) -> (m: String)
        ensures
            m@ == error_text(self@),
    {
        match self {
            TunnelError::InvalidTunnel(a) => String::from_str("invalid tunnel: ").concat(a.as_str()),
            TunnelError::InvalidUrl(t) => t.clone(),
            TunnelError::UnknownTransportType(s) => String::from_str("unknown transport type: ").concat(
                s.as_str(),
            ),
            TunnelError::InvalidEndpointHost(u) => String::from_str("invalid endpoint host: ").concat(
                u.as_str(),
            ),
            TunnelError::InvalidEndpointPort(u) => String::from_str("invalid endpoint port: ").concat(
                u.as_str(),
            ),
            TunnelError::IdleTimeoutOutOfRange => String::from_str("value too large for varint encoding"),
            TunnelError::InvalidPem(t) => t.clone(),
            TunnelError::InvalidRootCertificate => String::from_str("invalid root certificate"),
            TunnelError::MissingTlsCert => String::from_str("tls cert must be provided"),
            TunnelError::MissingTlsKey => String::from_str("tls key must be provided"),
            TunnelError::ConnectionNotEstablished => String::from_str("connection not established"),
            TunnelError::NotAcceptingConnections => String::from_str("not accepting connections"),
        }
    }
}

} // verus!
