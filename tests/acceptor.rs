use portforward::{Acceptor, AcceptorAction, AcceptorEvent, AcceptorPhase};

#[test]
fn keeps_accepting_while_connections_come_and_go() {
    let mut a = Acceptor::unbounded();
    let n: u64 = 5;
    for _ in 0..n {
        assert_eq!(a.on_event(AcceptorEvent::Accepted), AcceptorAction::Forward);
    }
    assert_eq!(a.active(), n);
    assert_eq!(a.on_event(AcceptorEvent::ConnectionClosed), AcceptorAction::Continue);
    assert_eq!(a.on_event(AcceptorEvent::ConnectionClosed), AcceptorAction::Continue);
    assert_eq!(a.on_event(AcceptorEvent::Accepted), AcceptorAction::Forward);
    assert_eq!(a.active(), n - 1);
    for _ in 0..(n - 1) {
        assert_eq!(a.on_event(AcceptorEvent::ConnectionClosed), AcceptorAction::Continue);
    }
    assert_eq!(a.active(), 0);
    assert!(a.is_accepting());
    assert_eq!(a.on_event(AcceptorEvent::Accepted), AcceptorAction::Forward);
}

#[test]
fn cancellation_stops_accepting_but_lets_connections_drain() {
    let mut a = Acceptor::unbounded();
    a.on_event(AcceptorEvent::Accepted);
    a.on_event(AcceptorEvent::Accepted);
    assert_eq!(a.on_event(AcceptorEvent::Cancelled), AcceptorAction::Shutdown);
    assert_eq!(a.phase(), AcceptorPhase::Cancelled);
    assert_eq!(a.active(), 2);
    assert_eq!(a.on_event(AcceptorEvent::Accepted), AcceptorAction::Refuse);
    assert_eq!(a.on_event(AcceptorEvent::ConnectionClosed), AcceptorAction::Continue);
    assert_eq!(a.active(), 1);
    assert_eq!(a.on_event(AcceptorEvent::Cancelled), AcceptorAction::Continue);
}

#[test]
fn listener_failure_ends_the_session_with_an_error() {
    let mut a = Acceptor::unbounded();
    assert_eq!(a.on_event(AcceptorEvent::ListenerFailed), AcceptorAction::ShutdownWithError);
    assert_eq!(a.phase(), AcceptorPhase::Failed);
    assert!(!a.is_accepting());
    assert_eq!(a.on_event(AcceptorEvent::Cancelled), AcceptorAction::Continue);
    assert_eq!(a.phase(), AcceptorPhase::Failed);
}

#[test]
fn bound_refuses_connections_beyond_the_limit() {
    let mut a = Acceptor::with_limit(2);
    assert_eq!(a.on_event(AcceptorEvent::Accepted), AcceptorAction::Forward);
    assert_eq!(a.on_event(AcceptorEvent::Accepted), AcceptorAction::Forward);
    assert_eq!(a.on_event(AcceptorEvent::Accepted), AcceptorAction::Refuse);
    assert_eq!(a.active(), 2);
    a.on_event(AcceptorEvent::ConnectionClosed);
    assert_eq!(a.on_event(AcceptorEvent::Accepted), AcceptorAction::Forward);
    assert!(a.is_accepting());
}

#[test]
fn spurious_close_keeps_count_at_zero() {
    let mut a = Acceptor::with_limit(0);
    assert_eq!(a.on_event(AcceptorEvent::ConnectionClosed), AcceptorAction::Continue);
    assert_eq!(a.active(), 0);
    assert_eq!(a.on_event(AcceptorEvent::Accepted), AcceptorAction::Refuse);
}
