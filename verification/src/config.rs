//! The tunnel's settings.
use vstd::prelude::*;

use crate::error::TunnelError;

verus! {

/// Idle time after which a QUIC connection is dropped, in milliseconds (30 s).
pub const QUIC_MAX_IDLE_TIMEOUT: u64 = 30_000;

/// Interval of QUIC keep-alive packets, in milliseconds (15 s).
pub const QUIC_KEEP_ALIVE_INTERVAL: u64 = 15_000;

/// Wait before a QUIC client tries to reconnect, in milliseconds (5 s).
pub const QUIC_RETRY_INTERVAL: u64 = 5_000;

/// Bytes a peer may send on one QUIC stream before it is blocked (2 MiB).
pub const QUIC_STREAM_RECEIVE_WINDOW: u64 = 1024 * 1024 * 2;

/// Bytes of unacknowledged data a QUIC connection may have in flight (eight stream windows).
pub const QUIC_SEND_WINDOW: u64 = QUIC_STREAM_RECEIVE_WINDOW * 8;

/// Idle time after which a UDP session is closed, in milliseconds (10 s).
pub const UDP_MAX_IDLE_TIMEOUT: u64 = 10_000;

/// Settings of a tunnel. Durations are in milliseconds.
#[derive(Debug, Clone)]
pub struct Config {
    pub tls_cert_path: Option<String>,
    pub tls_key_path: Option<String>,
    pub tls_peer_cert_path: Option<String>,
    pub quic_max_idle_timeout: u64,
    pub quic_keep_alive_interval: u64,
    pub quic_retry_interval: u64,
    pub quic_stream_receive_window: u64,
    pub quic_send_window: u64,
    pub udp_max_idle_timeout: u64,
}

impl Config {
    /// Settings with the given TLS file paths and the default timeouts and windows.
    pub fn new(
        tls_cert_path: Option<String>,
        tls_key_path: Option<String>,
        tls_peer_cert_path: Option<String>,
    ) -> (c: Self)
        ensures
            c.tls_cert_path == tls_cert_path,
            c.tls_key_path == tls_key_path,
            c.tls_peer_cert_path == tls_peer_cert_path,
            c.quic_max_idle_timeout == 30_000,
            c.quic_keep_alive_interval == 15_000,
            c.quic_retry_interval == 5_000,
            c.quic_stream_receive_window == 2_097_152,
            c.quic_send_window == 16_777_216,
            c.udp_max_idle_timeout == 10_000,
    {
        Config {
            tls_cert_path,
            tls_key_path,
            tls_peer_cert_path,
            quic_max_idle_timeout: QUIC_MAX_IDLE_TIMEOUT,
            quic_keep_alive_interval: QUIC_KEEP_ALIVE_INTERVAL,
            quic_retry_interval: QUIC_RETRY_INTERVAL,
            quic_stream_receive_window: QUIC_STREAM_RECEIVE_WINDOW,
            quic_send_window: QUIC_SEND_WINDOW,
            udp_max_idle_timeout: UDP_MAX_IDLE_TIMEOUT,
        }
    }

    /// The TLS certificate path that a QUIC server needs, or `MissingTlsCert`.
    pub fn required_tls_cert_path(&self) -> (r: Result<String, TunnelError>)
        ensures
            match self.tls_cert_path {
                Some(p) => r matches Ok(q) && q@ == p@,
                None => r matches Err(TunnelError::MissingTlsCert),
            },
    {
        match &self.tls_cert_path {
            Some(p) => Ok(p.clone()),
            None => Err(TunnelError::MissingTlsCert),
        }
    }

    /// The TLS private key path that a QUIC server needs, or `MissingTlsKey`.
    pub fn required_tls_key_path(&self) -> (r: Result<String, TunnelError>)
        ensures
            match self.tls_key_path {
                Some(p) => r matches Ok(q) && q@ == p@,
                None => r matches Err(TunnelError::MissingTlsKey),
            },
    {
        match &self.tls_key_path {
            Some(p) => Ok(p.clone()),
            None => Err(TunnelError::MissingTlsKey),
        }
    }
}

} // verus!
