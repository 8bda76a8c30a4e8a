//! Tunnel endpoints: parsing `scheme://host:port` URLs and `from==to` tunnel arguments.
use vstd::prelude::*;

use crate::error::{TunnelError, TunnelErrorView};
use crate::text::{
    decimal, decimal_value, find_separator, law_decimal_roundtrip, lemma_decimal_no_leading_zero, law_split_tunnel_arg, push_decimal, split_at_separator,
    split_once_separator,
};
use crate::transport::{transport_of_scheme, TransportType};

verus! {

/// The parts of a parsed URL that an endpoint is made of.
#[derive(Debug, Clone)]
pub struct UrlParts {
    /// The URL as the parser serializes it.
    pub serialization: String,
    /// The lower-case scheme, without `:`.
    pub scheme: String,
    /// The host, where the URL has one.
    pub host: Option<String>,
    /// The port, where the URL gives one that is not the scheme's default.
    pub port: Option<u16>,
}

/// The model of an optional string.
pub open spec fn opt_string_view(o: Option<String>) -> Option<Seq<char>> {
    match o {
        Some(s) => Some(s@),
        None => None,
    }
}

impl View for UrlParts {
    type V = (Seq<char>, Seq<char>, Option<Seq<char>>, Option<u16>);

    open spec fn view(&self) -> Self::V {
        (self.serialization@, self.scheme@, opt_string_view(self.host), self.port)
    }
}

/// The parts of a URL as its model: serialization, scheme, host and port.
pub type UrlPartsView = (Seq<char>, Seq<char>, Option<Seq<char>>, Option<u16>);

/// What `url::Url::parse` makes of `input`: its serialization, scheme, host and port, or, where
/// it refuses the input, the parser's description of the error.
pub uninterp spec fn parsed_url(input: Seq<char>) -> Result<UrlPartsView, Seq<char>>;

/// Calls `url::Url::parse` on `input` and reads its serialization (`as_str`), `scheme`,
/// `host_str` and `port`, or the description (`Display`) of its `ParseError`. Trusted: the
/// outcome is the one that `parsed_url` names.
#[verifier::external_body]
fn parse_url(input: &str) -> (r: Result<UrlParts, String>)
    ensures
        match r {
            Ok(parts) => parsed_url(input@) == Ok::<UrlPartsView, Seq<char>>(parts@),
            Err(e) => parsed_url(input@) == Err::<UrlPartsView, Seq<char>>(e@),
        },
{
    let url = url::Url::parse(input).map_err(|e| e.to_string())?;
    Ok(UrlParts {
        serialization: url.as_str().to_string(),
        scheme: url.scheme().to_string(),
        host: url.host_str().map(str::to_string),
        port: url.port(),
    })
}

/// A tunnel endpoint: a transport and the `host:port` address it reaches.
#[derive(Debug, Clone)]
pub struct TunnelEndpoint {
    pub transport_type: TransportType,
    pub addr: String,
}

impl View for TunnelEndpoint {
    type V = (TransportType, Seq<char>);

    open spec fn view(&self) -> (TransportType, Seq<char>) {
        (self.transport_type, self.addr@)
    }
}

/// The model of an endpoint result.
pub open spec fn endpoint_result_view(r: Result<TunnelEndpoint, TunnelError>) -> Result<
    (TransportType, Seq<char>),
    TunnelErrorView,
> {
    match r {
        Ok(e) => Ok(e@),
        Err(e) => Err(e@),
    }
}

/// The `host:port` address text, as `format!("{}:{}", host, port)` writes it.
pub open spec fn host_port(host: Seq<char>, port: u16) -> Seq<char> {
    host + seq![':'] + decimal(port as nat)
}

/// The endpoint that the parts of a URL make: the scheme names the transport, and the host and
/// port make the address; or the first of these that is missing.
pub open spec fn endpoint_of_parts(v: UrlPartsView) -> Result<(TransportType, Seq<char>), TunnelErrorView> {
    match transport_of_scheme(v.1) {
        None => Err(TunnelErrorView::UnknownTransportType(v.1)),
        Some(t) => match v.2 {
            None => Err(TunnelErrorView::InvalidEndpointHost(v.0)),
            Some(h) => match v.3 {
                None => Err(TunnelErrorView::InvalidEndpointPort(v.0)),
                Some(p) => Ok((t, host_port(h, p))),
            },
        },
    }
}

/// The endpoint that a URL text makes, or why it makes none.
pub open spec fn endpoint_of_url(text: Seq<char>) -> Result<(TransportType, Seq<char>), TunnelErrorView> {
    match parsed_url(text) {
        Err(e) => Err(TunnelErrorView::InvalidUrl(e)),
        Ok(v) => endpoint_of_parts(v),
    }
}

/// The two endpoints of a tunnel argument `from==to`, split at its first `==`: the first error
/// of the two endpoint parses, or both endpoints.
pub open spec fn tunnel_of_arg(arg: Seq<char>) -> Result<
    ((TransportType, Seq<char>), (TransportType, Seq<char>)),
    TunnelErrorView,
> {
    match split_at_separator(arg) {
        None => Err(TunnelErrorView::InvalidTunnel(arg)),
        Some((from, to)) => match (endpoint_of_url(from), endpoint_of_url(to)) {
            (Err(e), _) => Err(e),
            (Ok(_), Err(e)) => Err(e),
            (Ok(f), Ok(t)) => Ok((f, t)),
        },
    }
}

/// The model of a tunnel argument's result.
pub open spec fn tunnel_result_view(r: Result<(TunnelEndpoint, TunnelEndpoint), TunnelError>) -> Result<
    ((TransportType, Seq<char>), (TransportType, Seq<char>)),
    TunnelErrorView,
> {
    match r {
        Ok((f, t)) => Ok((f@, t@)),
        Err(e) => Err(e@),
    }
}

impl TunnelEndpoint {
    /// Makes an endpoint from the parts of a parsed URL: the scheme names the transport, and
    /// the host and port make the address `host:port`.
    pub fn from_url_parts(parts: &UrlParts) -> (r: Result<TunnelEndpoint, TunnelError>)
        ensures
            endpoint_result_view(r) == endpoint_of_parts(parts@),
    {
        let transport_type = match TransportType::try_from(parts.scheme.as_str()) {
            Ok(t) => t,
            Err(e) => return Err(e),
        };
        let host = match &parts.host {
            Some(h) => h,
            None => return Err(TunnelError::InvalidEndpointHost(parts.serialization.clone())),
        };
        let port = match parts.port {
            Some(p) => p,
            None => return Err(TunnelError::InvalidEndpointPort(parts.serialization.clone())),
        };
        let mut addr = String::from_str(host.as_str());
        proof {
            reveal_strlit(":");
        }
        addr.append(":");
        push_decimal(&mut addr, port);
        assert(addr@ =~= host_port(host@, port));
        Ok(TunnelEndpoint { transport_type, addr })
    }

    /// Parses an endpoint URL such as `quic://example.com:4242`.
    pub fn try_from(url: &str) -> (r: Result<TunnelEndpoint, TunnelError>)
        ensures
            endpoint_result_view(r) == endpoint_of_url(url@),
    {
        match parse_url(url) {
            Ok(parts) => TunnelEndpoint::from_url_parts(&parts),
            Err(e) => Err(TunnelError::InvalidUrl(e)),
        }
    }
}

/// Parses a tunnel argument `from==to` into its two endpoints; it splits at the first `==`.
pub fn parse_tunnel_arg(arg: &str) -> (r: Result<(TunnelEndpoint, TunnelEndpoint), TunnelError>)
    ensures
        tunnel_result_view(r) == tunnel_of_arg(arg@),
{
    let (from, to) = match split_once_separator(arg) {
        Some(p) => p,
        None => return Err(TunnelError::InvalidTunnel(String::from_str(arg))),
    };
    let from = match TunnelEndpoint::try_from(from) {
        Ok(e) => e,
        Err(e) => return Err(e),
    };
    let to = match TunnelEndpoint::try_from(to) {
        Ok(e) => e,
        Err(e) => return Err(e),
    };
    Ok((from, to))
}

/// A tunnel argument written as `from==to` gives the two endpoints that `from` and `to` give
/// on their own (or the first error of the two), wherever `from` holds no `==` and does not end
/// in `=`.
pub proof fn law_tunnel_arg_is_two_endpoints(from: Seq<char>, to: Seq<char>)
    requires
        find_separator(from) is None,
        from.len() > 0 ==> from.last() != '=',
    ensures
        tunnel_of_arg(from + seq!['=', '='] + to) == match (endpoint_of_url(from), endpoint_of_url(to)) {
            (Err(e), _) => Err(e),
            (Ok(_), Err(e)) => Err(e),
            (Ok(f), Ok(t)) => Ok((f, t)),
        },
{
    law_split_tunnel_arg(from, to);
}

/// The endpoint of a URL, in terms of what the URL parser makes of it: where the URL has a host
/// `h` and a port `p` and its scheme is `tcp`, `udp` or `quic`, the endpoint has that transport,
/// and its address is the whole host `h`, then `:`, then the port in decimal digits (no leading
/// zero) that read back as `p`.
pub proof fn law_endpoint_of_url_keeps_host_and_port(
    text: Seq<char>,
    serialization: Seq<char>,
    scheme: Seq<char>,
    h: Seq<char>,
    p: u16,
)
    requires
        parsed_url(text) == Ok::<UrlPartsView, Seq<char>>((serialization, scheme, Some(h), Some(p))),
        scheme == seq!['t', 'c', 'p'] || scheme == seq!['u', 'd', 'p'] || scheme == seq![
            'q',
            'u',
            'i',
            'c',
        ],
    ensures
        endpoint_of_url(text) matches Ok((t, addr)) && (scheme == seq!['t', 'c', 'p'] ==> t
            == TransportType::Tcp) && (scheme == seq!['u', 'd', 'p'] ==> t == TransportType::Udp)
            && (scheme == seq!['q', 'u', 'i', 'c'] ==> t == TransportType::Quic) && addr.len() > h.len()
            + 1 && addr.take(h.len() as int) == h && addr[h.len() as int] == ':' && decimal_value(
            addr.skip(h.len() as int + 1),
        ) == p && (forall|i: int|
            h.len() < i < addr.len() ==> '0' <= #[trigger] addr[i] <= '9') && (addr.len() == h.len()
            + 2 || addr[h.len() as int + 1] != '0'),
{
    law_decimal_roundtrip(p as nat);
    let d = decimal(p as nat);
    let addr = h + seq![':'] + d;
    assert(addr.take(h.len() as int) =~= h);
    assert(addr.skip(h.len() as int + 1) =~= d);
    assert forall|i: int| h.len() < i < addr.len() implies '0' <= #[trigger] addr[i] <= '9' by {
        assert(addr[i] == d[i - h.len() - 1]);
    }
    lemma_decimal_no_leading_zero(p as nat);
}

} // verus!
