use portforward::{
    first_named_pod, to_label_selector, ErrorKind, ResolveStep, Resolver, ServiceLookup,
};

fn pairs(ps: &[(&str, &str)]) -> Vec<(String, String)> {
    ps.iter().map(|(k, v)| (k.to_string(), v.to_string())).collect()
}

fn names(ns: &[Option<&str>]) -> Vec<Option<String>> {
    ns.iter().map(|n| n.map(|s| s.to_string())).collect()
}

#[test]
fn label_selector_joins_terms_in_order() {
    assert_eq!(to_label_selector(&pairs(&[])), "");
    assert_eq!(to_label_selector(&pairs(&[("app", "web")])), "app=web");
    assert_eq!(
        to_label_selector(&pairs(&[("app", "web"), ("tier", "front"), ("env", "prod")])),
        "app=web,tier=front,env=prod"
    );
}

#[test]
fn first_named_pod_keeps_listing_order() {
    assert_eq!(first_named_pod(&names(&[])), None);
    assert_eq!(first_named_pod(&names(&[None, None])), None);
    assert_eq!(
        first_named_pod(&names(&[None, Some("b-1"), Some("a-1")])),
        Some("b-1".to_string())
    );
}

#[test]
fn pod_name_wins_over_service() {
    let mut r = Resolver::new("web");
    assert!(matches!(r.step(), ResolveStep::FetchPod));
    r.on_pod_lookup(true);
    assert!(matches!(r.step(), ResolveStep::Resolved(p) if p == "web"));
    r.on_service_lookup(ServiceLookup::Selector(pairs(&[("app", "other")])));
    r.on_pods_listed(names(&[Some("other-1")]));
    assert!(matches!(r.step(), ResolveStep::Resolved(p) if p == "web"));
}

#[test]
fn service_resolves_to_first_listed_pod() {
    let mut r = Resolver::new("web-svc");
    r.on_pod_lookup(false);
    assert!(matches!(r.step(), ResolveStep::FetchService));
    r.on_service_lookup(ServiceLookup::Selector(pairs(&[("app", "web"), ("tier", "front")])));
    assert!(matches!(r.step(), ResolveStep::ListPods(s) if s == "app=web,tier=front"));
    r.on_pods_listed(names(&[Some("web-7f9"), Some("web-8a0")]));
    assert!(matches!(r.step(), ResolveStep::Resolved(p) if p == "web-7f9"));
    assert_eq!(r.name(), "web-svc");
}

#[test]
fn service_without_matching_pods_is_not_found() {
    let mut r = Resolver::new("web-svc");
    r.on_pod_lookup(false);
    r.on_service_lookup(ServiceLookup::Selector(pairs(&[("app", "web")])));
    r.on_pods_listed(names(&[]));
    assert!(
        matches!(r.step(), ResolveStep::Failed(e) if e.kind == ErrorKind::NotFound && e.detail == "web-svc")
    );
}

#[test]
fn listing_of_unnamed_pods_is_not_found() {
    let mut r = Resolver::new("web-svc");
    r.on_pod_lookup(false);
    r.on_service_lookup(ServiceLookup::Selector(pairs(&[("app", "web")])));
    r.on_pods_listed(names(&[None]));
    assert!(matches!(r.step(), ResolveStep::Failed(e) if e.kind == ErrorKind::NotFound));
}

#[test]
fn missing_service_is_not_found() {
    let mut r = Resolver::new("ghost");
    r.on_pod_lookup(false);
    r.on_service_lookup(ServiceLookup::Missing);
    assert!(
        matches!(r.step(), ResolveStep::Failed(e) if e.kind == ErrorKind::NotFound && e.detail == "ghost")
    );
}

#[test]
fn service_without_selector_is_not_found() {
    let mut r = Resolver::new("headless");
    r.on_pod_lookup(false);
    r.on_service_lookup(ServiceLookup::NoSelector);
    assert!(matches!(r.step(), ResolveStep::Failed(e) if e.kind == ErrorKind::NotFound));
    let mut r = Resolver::new("headless");
    r.on_pod_lookup(false);
    r.on_service_lookup(ServiceLookup::Selector(Vec::new()));
    assert!(matches!(r.step(), ResolveStep::Failed(e) if e.kind == ErrorKind::NotFound));
}

#[test]
fn reports_out_of_turn_are_ignored() {
    let mut r = Resolver::new("web");
    r.on_pods_listed(names(&[Some("x")]));
    r.on_service_lookup(ServiceLookup::Missing);
    assert!(matches!(r.step(), ResolveStep::FetchPod));
}
