use thru::config::Config;
use thru::idle::{restarts_idle_timer, IdleDecision, IdleReadState};
use thru::quic::{ConnectionMonitor, MonitorAction, MonitorEvent, MonitorState};
use thru::sessions::{PeerAddr, Route, Sessions};

fn peer(port: u16) -> PeerAddr {
    PeerAddr { family: 4, ip: 0x7f00_0001, port, flowinfo: 0, scope_id: 0 }
}

#[test]
fn monitor_connects_first() {
    let c = Config::new(None, None, None);
    let m = ConnectionMonitor::new(&c);
    assert_eq!(m.state, MonitorState::Connecting);
    assert_eq!(m.action(), MonitorAction::Connect);
}

#[test]
fn monitor_retries_after_failure_and_close() {
    let c = Config::new(None, None, None);
    let mut m = ConnectionMonitor::new(&c);
    assert_eq!(m.step(MonitorEvent::ConnectFailed), MonitorAction::Wait(5_000));
    assert_eq!(m.step(MonitorEvent::WaitElapsed), MonitorAction::Connect);
    assert_eq!(m.step(MonitorEvent::ConnectSucceeded), MonitorAction::Watch);
    assert_eq!(m.state, MonitorState::Connected);
    assert_eq!(m.step(MonitorEvent::ConnectionClosed), MonitorAction::Wait(5_000));
    assert_eq!(m.step(MonitorEvent::WaitElapsed), MonitorAction::Connect);
}

#[test]
fn monitor_ignores_unexpected_events() {
    let c = Config::new(None, None, None);
    let mut m = ConnectionMonitor::new(&c);
    assert_eq!(m.step(MonitorEvent::WaitElapsed), MonitorAction::Connect);
    assert_eq!(m.step(MonitorEvent::ConnectionClosed), MonitorAction::Connect);
    assert_eq!(m.state, MonitorState::Connecting);
}

#[test]
fn idle_timer_decisions() {
    let mut s = IdleReadState::new();
    assert_eq!(s.before_read(false), IdleDecision::Read);
    assert_eq!(s.before_read(true), IdleDecision::TimedOut);
    // Timing out is final.
    assert_eq!(s.before_read(false), IdleDecision::TimedOut);
    assert!(s.timed_out);
    assert!(restarts_idle_timer(true, 3));
    assert!(!restarts_idle_timer(true, 0));
    assert!(!restarts_idle_timer(false, 3));
}

#[test]
fn sessions_route_and_forget() {
    let mut s: Sessions<&str> = Sessions::new();
    assert_eq!(s.len(), 0);
    assert!(matches!(s.route(&peer(1)), Route::OpenSession));
    s.session_opened(peer(1), "one");
    s.session_opened(peer(2), "two");
    assert_eq!(s.len(), 2);
    assert!(matches!(s.route(&peer(1)), Route::Deliver(&"one")));
    assert!(matches!(s.route(&peer(2)), Route::Deliver(&"two")));
    s.remove(&peer(1));
    assert!(matches!(s.route(&peer(1)), Route::OpenSession));
    assert_eq!(s.get(&peer(2)), Some(&"two"));
    assert_eq!(s.len(), 1);
    s.remove(&peer(3));
    assert_eq!(s.len(), 1);
}

#[test]
fn sessions_one_per_peer() {
    let mut s: Sessions<u32> = Sessions::new();
    s.session_opened(peer(9), 1);
    s.session_opened(peer(9), 2);
    assert_eq!(s.len(), 1);
    assert_eq!(s.get(&peer(9)), Some(&2));
    let v6 = PeerAddr { family: 6, ip: 0x7f00_0001, port: 9, flowinfo: 0, scope_id: 0 };
    assert_eq!(s.get(&v6), None);
}

#[test]
fn sessions_after_delivery() {
    let mut s: Sessions<u8> = Sessions::new();
    s.session_opened(peer(1), 1);
    s.session_opened(peer(2), 2);
    s.after_delivery(&peer(1), true);
    assert_eq!(s.get(&peer(1)), Some(&1));
    s.after_delivery(&peer(1), false);
    assert_eq!(s.get(&peer(1)), None);
    assert_eq!(s.get(&peer(2)), Some(&2));
    s.session_closed(&peer(2));
    assert_eq!(s.len(), 0);
}
