//! A QUIC tunnel for TCP and UDP: the verified logic of endpoint parsing, settings, session
//! dispatch and connection supervision.
pub mod config;
pub mod error;
pub mod idle;
pub mod pem;
pub mod quic;
pub mod sessions;
pub mod stream;
pub mod text;
pub mod transport;
pub mod tunnel;
