use portforward::{register_session, stop, Forwarding, QualifiedName, Registry, StopOutcome};
use tokio::sync::oneshot;

fn key(ns: &str, pod: &str, port: u16) -> QualifiedName {
    QualifiedName::new(ns, pod, port)
}

#[test]
fn qualified_name_equality_uses_all_parts() {
    let a = key("default", "web-7f9", 80);
    assert_eq!(a.namespace, "default");
    assert_eq!(a.pod_name, "web-7f9");
    assert_eq!(a.target_port, 80);
    assert!(a == key("default", "web-7f9", 80));
    assert!(a != key("other", "web-7f9", 80));
    assert!(a != key("default", "web-7fa", 80));
    assert!(a != key("default", "web-7f9", 81));
    assert!(a.same_as(&a.clone()));
}

#[test]
fn stop_signals_registered_session() {
    let mut registry = Registry::new();
    let (tx, mut rx) = oneshot::channel();
    assert!(registry.register(key("ns", "pod", 80), Forwarding::new(tx)).is_none());
    assert!(registry.contains(&key("ns", "pod", 80)));
    assert_eq!(registry.stop(&key("ns", "pod", 80)), StopOutcome::Cancelled);
    assert_eq!(rx.try_recv(), Ok(()));
    assert!(!registry.contains(&key("ns", "pod", 80)));
}

#[test]
fn stop_leaves_other_keys_alone() {
    let mut registry = Registry::new();
    let (tx1, mut rx1) = oneshot::channel();
    let (tx2, mut rx2) = oneshot::channel();
    registry.register(key("ns", "pod", 80), Forwarding::new(tx1));
    registry.register(key("ns", "pod", 81), Forwarding::new(tx2));
    assert_eq!(registry.stop(&key("ns", "pod", 80)), StopOutcome::Cancelled);
    assert_eq!(rx1.try_recv(), Ok(()));
    assert_eq!(rx2.try_recv(), Err(oneshot::error::TryRecvError::Empty));
    assert!(registry.contains(&key("ns", "pod", 81)));
}

#[test]
fn stop_twice_signals_once() {
    let mut registry = Registry::new();
    let (tx, mut rx) = oneshot::channel();
    registry.register(key("ns", "pod", 80), Forwarding::new(tx));
    assert_eq!(registry.stop(&key("ns", "pod", 80)), StopOutcome::Cancelled);
    assert_eq!(registry.stop(&key("ns", "pod", 80)), StopOutcome::NotRegistered);
    assert_eq!(rx.try_recv(), Ok(()));
    assert_eq!(rx.try_recv(), Err(oneshot::error::TryRecvError::Closed));
}

#[test]
fn stop_of_unknown_key_is_a_no_op() {
    let mut registry = Registry::new();
    let (tx, mut rx) = oneshot::channel();
    registry.register(key("ns", "pod", 80), Forwarding::new(tx));
    assert_eq!(registry.stop(&key("ns", "other", 80)), StopOutcome::NotRegistered);
    assert!(registry.contains(&key("ns", "pod", 80)));
    assert_eq!(rx.try_recv(), Err(oneshot::error::TryRecvError::Empty));
}

#[test]
fn stop_after_loop_ended_reports_it() {
    let mut registry = Registry::new();
    let (tx, rx) = oneshot::channel();
    drop(rx);
    registry.register(key("ns", "pod", 80), Forwarding::new(tx));
    assert_eq!(registry.stop(&key("ns", "pod", 80)), StopOutcome::AlreadyEnded);
    assert!(!registry.contains(&key("ns", "pod", 80)));
}

#[test]
fn register_hands_back_replaced_handle() {
    let mut registry = Registry::new();
    let (tx1, mut rx1) = oneshot::channel();
    let (tx2, _rx2) = oneshot::channel();
    registry.register(key("ns", "pod", 80), Forwarding::new(tx1));
    let prev = registry.register(key("ns", "pod", 80), Forwarding::new(tx2));
    let prev = prev.expect("the first session was registered");
    assert!(prev.cancel());
    assert_eq!(rx1.try_recv(), Ok(()));
}

#[test]
fn register_session_cancels_replaced_session() {
    let mut registry = Registry::new();
    let (tx1, mut rx1) = oneshot::channel();
    let (tx2, mut rx2) = oneshot::channel();
    assert_eq!(
        register_session(&mut registry, key("ns", "pod", 80), Forwarding::new(tx1)),
        StopOutcome::NotRegistered
    );
    assert_eq!(rx1.try_recv(), Err(oneshot::error::TryRecvError::Empty));
    assert_eq!(
        register_session(&mut registry, key("ns", "pod", 80), Forwarding::new(tx2)),
        StopOutcome::Cancelled
    );
    assert_eq!(rx1.try_recv(), Ok(()));
    assert_eq!(rx2.try_recv(), Err(oneshot::error::TryRecvError::Empty));
    assert_eq!(stop(&mut registry, "ns", "pod", 80), StopOutcome::Cancelled);
    assert_eq!(rx2.try_recv(), Ok(()));
}

#[test]
fn stop_by_parts_matches_the_key() {
    let mut registry = Registry::new();
    let (tx, mut rx) = oneshot::channel();
    registry.register(key("default", "web-7f9", 80), Forwarding::new(tx));
    assert_eq!(stop(&mut registry, "default", "web-7f9", 8080), StopOutcome::NotRegistered);
    assert_eq!(stop(&mut registry, "kube-system", "web-7f9", 80), StopOutcome::NotRegistered);
    assert_eq!(rx.try_recv(), Err(oneshot::error::TryRecvError::Empty));
    assert_eq!(stop(&mut registry, "default", "web-7f9", 80), StopOutcome::Cancelled);
    assert_eq!(rx.try_recv(), Ok(()));
    assert_eq!(stop(&mut registry, "default", "web-7f9", 80), StopOutcome::NotRegistered);
}
