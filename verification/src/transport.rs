//! Transport kinds and the plain-value parts of the transport clients.
use vstd::prelude::*;

use crate::error::TunnelError;
use crate::text::str_equal;

verus! {

/// The transports a tunnel endpoint can use.
#[derive(Debug, Clone, Copy, PartialEq, Eq)]
pub enum TransportType {
    Tcp,
    Udp,
    Quic,
}

/// The transport that a URL scheme names: `tcp`, `udp` or `quic`, exactly.
pub open spec fn transport_of_scheme(scheme: Seq<char>) -> Option<TransportType> {
    if scheme == seq!['t', 'c', 'p'] {
        Some(TransportType::Tcp)
    } else if scheme == seq!['u', 'd', 'p'] {
        Some(TransportType::Udp)
    } else if scheme == seq!['q', 'u', 'i', 'c'] {
        Some(TransportType::Quic)
    } else {
        None
    }
}

impl TransportType {
    /// The transport named by `value`, or `UnknownTransportType` carrying `value`.
    pub fn try_from(value: &str) -> (r: Result<TransportType, TunnelError>)
        ensures
            match r {
                Ok(t) => transport_of_scheme(value@) == Some(t),
                Err(TunnelError::UnknownTransportType(s)) => transport_of_scheme(value@) is None
                    && s@ == value@,
                Err(_) => false,
            },
    {
        proof {
            reveal_strlit("tcp");
            reveal_strlit("udp");
            reveal_strlit("quic");
            assert("tcp"@ =~= seq!['t', 'c', 'p']);
            assert("udp"@ =~= seq!['u', 'd', 'p']);
            assert("quic"@ =~= seq!['q', 'u', 'i', 'c']);
        }
        if str_equal(value, "tcp") {
            Ok(TransportType::Tcp)
        } else if str_equal(value, "udp") {
            Ok(TransportType::Udp)
        } else if str_equal(value, "quic") {
            Ok(TransportType::Quic)
        } else {
            Err(TunnelError::UnknownTransportType(String::from_str(value)))
        }
    }
}

} // verus!

verus! {

/// A TCP client: it connects to one remote address.
#[derive(Clone, Debug)]
pub struct TcpClient {
    remote_addr: String,
}

impl TcpClient {
    /// The address the client connects to.
    pub closed spec fn spec_remote_addr(&self) -> Seq<char> {
        self.remote_addr@
    }

    /// A client of `remote_addr`.
    pub fn new(remote_addr: &str) -> (c: TcpClient)
        ensures
            c.spec_remote_addr() == remote_addr@,
    {
        TcpClient { remote_addr: String::from_str(remote_addr) }
    }

    /// The address the client connects to.
    pub fn remote_addr(&self) -> (a: &str)
        ensures
            a@ == self.spec_remote_addr(),
    {
        self.remote_addr.as_str()
    }
}

/// The first of the resolved addresses that is IPv4, given which of them are: the one that
/// UDP and QUIC clients use.
pub fn first_ipv4(is_ipv4: &Vec<bool>) -> (r: Option<usize>)
    ensures
        match r {
            Some(i) => i < is_ipv4@.len() && is_ipv4@[i as int] && forall|j: int|
                0 <= j < i ==> !is_ipv4@[j],
            None => forall|j: int| 0 <= j < is_ipv4@.len() ==> !is_ipv4@[j],
        },
{
    let n = is_ipv4.len();
    let mut i: usize = 0;
    while i < n
        invariant
            n == is_ipv4@.len(),
            i <= n,
            forall|j: int| 0 <= j < i ==> !is_ipv4@[j],
        decreases n - i,
    {
        if is_ipv4[i] {
            return Some(i);
        }
        i = i + 1;
    }
    None
}

} // verus!
