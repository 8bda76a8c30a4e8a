//! QUIC: the transport parameters taken from the settings, the TLS server name of a remote
//! address, and the decisions of the client's connection monitor.
use vstd::prelude::*;

use crate::config::Config;
use crate::error::TunnelError;
use crate::text::{before_first, find_char_from, prefix_before_char};
use crate::tunnel::host_port;

verus! {

#[verifier::external_type_specification]
#[verifier::external_body]
pub struct ExIdleTimeout(quinn::IdleTimeout);

#[verifier::external_type_specification]
#[verifier::external_body]
pub struct ExVarInt(quinn::VarInt);

#[verifier::external_type_specification]
#[verifier::external_body]
pub struct ExVarIntBoundsExceeded(quinn::VarIntBoundsExceeded);

/// The bound of QUIC variable-length integers: values must be below 2^62.
pub open spec fn varint_bound() -> int {
    0x4000_0000_0000_0000
}

/// The idle timeout that quinn makes of `ms` milliseconds.
pub uninterp spec fn quinn_idle_timeout(ms: u64) -> quinn::IdleTimeout;

/// The QUIC integer that quinn makes of `x`.
pub uninterp spec fn quinn_varint(x: u64) -> quinn::VarInt;

/// Calls quinn's `IdleTimeout::try_from` on a `Duration` of `ms` milliseconds. Trusted: it
/// succeeds exactly when `ms` is below 2^62 (quinn converts the milliseconds with
/// `VarInt::from_u64`, which "succeeds iff x < 2^62"), and then gives the timeout that
/// `quinn_idle_timeout` names.
#[verifier::external_body]
fn idle_timeout_from_millis(ms: u64) -> (r: Result<quinn::IdleTimeout, quinn::VarIntBoundsExceeded>)
    ensures
        r is Ok <==> ms < varint_bound(),
        r matches Ok(t) ==> t == quinn_idle_timeout(ms),
{
    quinn::IdleTimeout::try_from(std::time::Duration::from_millis(ms))
}

/// Calls quinn's `VarInt::from_u64`. Trusted: it succeeds exactly when `x` is below 2^62, as
/// its documentation says, and then gives the integer that `quinn_varint` names.
#[verifier::external_body]
fn varint_from_u64(x: u64) -> (r: Result<quinn::VarInt, quinn::VarIntBoundsExceeded>)
    ensures
        r is Ok <==> x < varint_bound(),
        r matches Ok(v) ==> v == quinn_varint(x),
{
    quinn::VarInt::from_u64(x)
}

/// The values a QUIC endpoint's transport configuration is given.
pub struct QuicTransportParams {
    pub max_idle_timeout: quinn::IdleTimeout,
    /// In milliseconds.
    pub keep_alive_interval: u64,
    pub stream_receive_window: quinn::VarInt,
    pub send_window: u64,
}

/// The QUIC transport parameters of the settings. Fails with `IdleTimeoutOutOfRange` where
/// the idle timeout does not fit a QUIC integer; the stream window must then fit one too.
pub fn quic_transport_params(config: &Config) -> (r: Result<QuicTransportParams, TunnelError>)
    requires
        config.quic_max_idle_timeout < varint_bound() ==> config.quic_stream_receive_window
            < varint_bound(),
    ensures
        r is Ok <==> config.quic_max_idle_timeout < varint_bound(),
        r matches Err(e) ==> e is IdleTimeoutOutOfRange,
        r matches Ok(p) ==> p.max_idle_timeout == quinn_idle_timeout(config.quic_max_idle_timeout)
            && p.keep_alive_interval == config.quic_keep_alive_interval
            && p.stream_receive_window == quinn_varint(config.quic_stream_receive_window)
            && p.send_window == config.quic_send_window,
{
    let max_idle_timeout = match idle_timeout_from_millis(config.quic_max_idle_timeout) {
        Ok(t) => t,
        Err(_) => return Err(TunnelError::IdleTimeoutOutOfRange),
    };
    let stream_receive_window = match varint_from_u64(config.quic_stream_receive_window) {
        Ok(v) => v,
        Err(_) => {
            assert(false);
            return Err(TunnelError::IdleTimeoutOutOfRange);
        },
    };
    Ok(QuicTransportParams {
        max_idle_timeout,
        keep_alive_interval: config.quic_keep_alive_interval,
        stream_receive_window,
        send_window: config.quic_send_window,
    })
}

/// The TLS server name of a remote `host:port` address: the text before its first `:`.
pub fn server_name(remote_addr: &str) -> (r: &str)
    requires
        remote_addr@.contains(':'),
    ensures
        before_first(remote_addr@, ':') == Some(r@),
{
    prefix_before_char(remote_addr, ':')
}

proof fn lemma_colon_after_host(host: Seq<char>, port: u16, k: int)
    requires
        0 <= k <= host.len(),
        !host.contains(':'),
    ensures
        find_char_from(host_port(host, port), ':', k) == Some(host.len() as int),
    decreases host.len() - k,
{
    let s = host_port(host, port);
    if k < host.len() {
        assert(s[k] == host[k]);
        lemma_colon_after_host(host, port, k + 1);
    } else {
        assert(s[k] == ':');
    }
}

/// The TLS server name that a QUIC client derives from an endpoint's address is the host
/// of the endpoint URL, wherever that host holds no `:` (an IPv6 host does).
pub proof fn law_server_name_of_endpoint_addr(host: Seq<char>, port: u16)
    requires
        !host.contains(':'),
    ensures
        before_first(host_port(host, port), ':') == Some(host),
{
    lemma_colon_after_host(host, port, 0);
    assert(host_port(host, port).take(host.len() as int) =~= host);
}

/// Where a QUIC client's connection monitor stands.
#[derive(Debug, Clone, Copy, PartialEq, Eq, Structural)]
pub enum MonitorState {
    /// A connection attempt is under way.
    Connecting,
    /// A connection is up and is watched until it closes.
    Connected,
    /// The monitor waits the retry interval before the next attempt.
    Waiting,
}

/// What the monitor's last action came to.
#[derive(Debug, Clone, Copy, PartialEq, Eq, Structural)]
pub enum MonitorEvent {
    ConnectSucceeded,
    ConnectFailed,
    ConnectionClosed,
    WaitElapsed,
}

/// What the monitor asks for next.
#[derive(Debug, Clone, Copy, PartialEq, Eq, Structural)]
pub enum MonitorAction {
    /// Try to connect to the remote endpoint, and keep the connection if it comes up.
    Connect,
    /// Wait until the kept connection closes.
    Watch,
    /// Sleep this many milliseconds.
    Wait(u64),
}

/// The state after `event` in `state`; an event that the state does not wait for changes
/// nothing.
pub open spec fn monitor_next(state: MonitorState, event: MonitorEvent) -> MonitorState {
    match (state, event) {
        (MonitorState::Connecting, MonitorEvent::ConnectSucceeded) => MonitorState::Connected,
        (MonitorState::Connecting, MonitorEvent::ConnectFailed) => MonitorState::Waiting,
        (MonitorState::Connected, MonitorEvent::ConnectionClosed) => MonitorState::Waiting,
        (MonitorState::Waiting, MonitorEvent::WaitElapsed) => MonitorState::Connecting,
        _ => state,
    }
}

/// The action that a state asks for.
pub open spec fn monitor_action(state: MonitorState, retry_interval: u64) -> MonitorAction {
    match state {
        MonitorState::Connecting => MonitorAction::Connect,
        MonitorState::Connected => MonitorAction::Watch,
        MonitorState::Waiting => MonitorAction::Wait(retry_interval),
    }
}

/// The decisions of a QUIC client that keeps one connection to its remote endpoint: it
/// connects, watches the connection until it closes, and after a failed attempt or a closed
/// connection waits the retry interval before it tries again.
pub struct ConnectionMonitor {
    pub state: MonitorState,
    /// In milliseconds.
    pub retry_interval: u64,
}

impl ConnectionMonitor {
    /// A monitor that starts with a connection attempt and retries after the settings' interval.
    pub fn new(config: &Config) -> (m: Self)
        ensures
            m.state == MonitorState::Connecting,
            m.retry_interval == config.quic_retry_interval,
    {
        ConnectionMonitor { state: MonitorState::Connecting, retry_interval: config.quic_retry_interval }
    }

    /// The action the monitor asks for now.
    pub fn action(&self) -> (a: MonitorAction)
        ensures
            a == monitor_action(self.state, self.retry_interval),
    {
        match self.state {
            MonitorState::Connecting => MonitorAction::Connect,
            MonitorState::Connected => MonitorAction::Watch,
            MonitorState::Waiting => MonitorAction::Wait(self.retry_interval),
        }
    }

    /// Takes in what the last action came to and returns the next action.
    pub fn step(&mut self, event: MonitorEvent) -> (a: MonitorAction)
        ensures
            final(self).state == monitor_next(old(self).state, event),
            final(self).retry_interval == old(self).retry_interval,
            a == monitor_action(final(self).state, final(self).retry_interval),
    {
        let next = match (self.state, event) {
            (MonitorState::Connecting, MonitorEvent::ConnectSucceeded) => MonitorState::Connected,
            (MonitorState::Connecting, MonitorEvent::ConnectFailed) => MonitorState::Waiting,
            (MonitorState::Connected, MonitorEvent::ConnectionClosed) => MonitorState::Waiting,
            (MonitorState::Waiting, MonitorEvent::WaitElapsed) => MonitorState::Connecting,
            (s, _) => s,
        };
        self.state = next;
        self.action()
    }
}

/// A new connection attempt only ever follows a retry wait that has elapsed, and a failed
/// attempt or a closed connection is always followed by a wait of the retry interval.
pub proof fn law_monitor_retries_after_wait(state: MonitorState, event: MonitorEvent, retry_interval: u64)
    ensures
        monitor_next(state, event) == MonitorState::Connecting && state != MonitorState::Connecting
            ==> state == MonitorState::Waiting && event == MonitorEvent::WaitElapsed,
        (state == MonitorState::Connecting && event == MonitorEvent::ConnectFailed) ==> monitor_action(
            monitor_next(state, event),
            retry_interval,
        ) == MonitorAction::Wait(retry_interval),
        (state == MonitorState::Connected && event == MonitorEvent::ConnectionClosed) ==> monitor_action(
            monitor_next(state, event),
            retry_interval,
        ) == MonitorAction::Wait(retry_interval),
{
}

/// The monitor watches a connection only after an attempt succeeded: the `Connected` state is
/// entered from an attempt that succeeded, and only from one.
pub proof fn law_monitor_watches_only_live_connections(state: MonitorState, event: MonitorEvent)
    ensures
        monitor_next(state, event) == MonitorState::Connected && state != MonitorState::Connected
            <==> state == MonitorState::Connecting && event == MonitorEvent::ConnectSucceeded,
{
}

/// The monitor's state after the first `n` events of a run that starts in `start`.
pub open spec fn monitor_state_after(start: MonitorState, events: Seq<MonitorEvent>, n: nat) -> MonitorState
    decreases n,
{
    if n == 0 {
        start
    } else {
        monitor_next(monitor_state_after(start, events, (n - 1) as nat), events[n - 1])
    }
}

proof fn lemma_leaves_connected_by_close(start: MonitorState, events: Seq<MonitorEvent>, k: nat, j: nat)
    requires
        k < j <= events.len(),
        monitor_state_after(start, events, k) == MonitorState::Connected,
        forall|m: nat| k < m < j ==> monitor_state_after(start, events, m) != MonitorState::Connected,
        monitor_state_after(start, events, j) == MonitorState::Connecting,
    ensures
        events[k as int] == MonitorEvent::ConnectionClosed,
        monitor_state_after(start, events, k + 1) == MonitorState::Waiting,
        exists|m: nat|
            k + 1 <= m < j && #[trigger] monitor_state_after(start, events, m) == MonitorState::Waiting
                && events[m as int] == MonitorEvent::WaitElapsed,
{
    let after = |n: nat| monitor_state_after(start, events, n);
    assert(after(k + 1) == monitor_next(after(k), events[k as int]));
    if k + 1 == j {
        assert(false);
    }
    lemma_reaches_connecting_by_wait(start, events, (k + 1) as nat, j);
}

proof fn lemma_reaches_connecting_by_wait(start: MonitorState, events: Seq<MonitorEvent>, a: nat, b: nat)
    requires
        a < b <= events.len(),
        monitor_state_after(start, events, a) == MonitorState::Waiting,
        forall|m: nat| a <= m < b ==> monitor_state_after(start, events, m) != MonitorState::Connected,
        monitor_state_after(start, events, b) == MonitorState::Connecting,
    ensures
        exists|m: nat|
            a <= m < b && #[trigger] monitor_state_after(start, events, m) == MonitorState::Waiting
                && events[m as int] == MonitorEvent::WaitElapsed,
    decreases b - a,
{
    let next = monitor_state_after(start, events, a + 1);
    assert(next == monitor_next(MonitorState::Waiting, events[a as int]));
    if next == MonitorState::Connecting {
        assert(events[a as int] == MonitorEvent::WaitElapsed);
    } else {
        assert(a + 1 < b);
        lemma_reaches_connecting_by_wait(start, events, (a + 1) as nat, b);
    }
}

proof fn lemma_last_connected(start: MonitorState, events: Seq<MonitorEvent>, i: nat, j: nat) -> (k: nat)
    requires
        i < j,
        monitor_state_after(start, events, i) == MonitorState::Connected,
    ensures
        i <= k < j,
        monitor_state_after(start, events, k) == MonitorState::Connected,
        forall|m: nat| k < m < j ==> monitor_state_after(start, events, m) != MonitorState::Connected,
    decreases j - i,
{
    if i + 1 == j {
        i
    } else if monitor_state_after(start, events, (j - 1) as nat) == MonitorState::Connected {
        (j - 1) as nat
    } else {
        let k = lemma_last_connected(start, events, i, (j - 1) as nat);
        k
    }
}

/// Over a whole run: when the monitor holds a connection at step `i` and comes to hold a new
/// one at step `j`, the old one closed in between, and after that the monitor waited the full
/// retry interval and the wait elapsed before the new attempt.
pub proof fn law_monitor_replaces_only_after_close_and_wait(
    start: MonitorState,
    events: Seq<MonitorEvent>,
    retry_interval: u64,
    i: nat,
    j: nat,
)
    requires
        i < j <= events.len(),
        monitor_state_after(start, events, i) == MonitorState::Connected,
        monitor_state_after(start, events, (j - 1) as nat) != MonitorState::Connected,
        monitor_state_after(start, events, j) == MonitorState::Connected,
    ensures
        exists|k: nat, m: nat|
            i <= k < m < j && #[trigger] monitor_state_after(start, events, k) == MonitorState::Connected
                && events[k as int] == MonitorEvent::ConnectionClosed
                && #[trigger] monitor_state_after(start, events, m) == MonitorState::Waiting
                && monitor_action(monitor_state_after(start, events, m), retry_interval)
                == MonitorAction::Wait(retry_interval) && events[m as int] == MonitorEvent::WaitElapsed,
{
    let jp = (j - 1) as nat;
    assert(monitor_state_after(start, events, j) == monitor_next(
        monitor_state_after(start, events, jp),
        events[jp as int],
    ));
    assert(monitor_state_after(start, events, jp) == MonitorState::Connecting);
    assert(i < jp);
    let k = lemma_last_connected(start, events, i, jp);
    lemma_leaves_connected_by_close(start, events, k, jp);
    let m = choose|m: nat|
        k + 1 <= m < jp && #[trigger] monitor_state_after(start, events, m) == MonitorState::Waiting
            && events[m as int] == MonitorEvent::WaitElapsed;
    assert(monitor_state_after(start, events, k) == MonitorState::Connected);
    assert(monitor_state_after(start, events, m) == MonitorState::Waiting);
}

} // verus!
