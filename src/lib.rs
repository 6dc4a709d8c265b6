//! Session engine for forwarding local TCP ports to pods of a cluster.
//!
//! The library holds the decisions of a port-forwarding session: the
//! identity of a session, the table of running sessions, the resolution of a
//! pod-or-service name to a pod, the acceptor loop's reaction to its events,
//! and the phases a `forward` request goes through. The surrounding program
//! performs the network and cluster calls and reports their outcomes here.

mod acceptor;
mod config;
mod error;
mod registry;
mod resolve;
mod session;
mod target;

pub use acceptor::{
    acceptor_next, acceptor_run, is_stop_event, lemma_connections_balance, lemma_keeps_accepting,
    Acceptor, AcceptorAction, AcceptorEvent, AcceptorPhase, AcceptorView,
};
pub use config::{config_source, ConfigSource, ForwardConfig, ForwardConfigBuilder};
pub use error::{ErrorKind, ForwardError};
pub use registry::{
    after_stop, lemma_stop_spares_other_keys, lemma_stop_twice, stop_signals, Forwarding, Registry,
    StopOutcome,
};
pub use resolve::{
    after_pod_lookup, after_pods_listed, after_service_lookup, first_named, first_named_pod,
    lemma_pod_takes_precedence, lemma_resolved_pod_was_reported, lemma_unmatched_service_not_found,
    resolution, resolver_start, selector_text, term_text, to_label_selector, ResolveStep, Resolver,
    ResolverView, ServiceLookup, Stage,
};
pub use session::{
    forward_next, forward_run, lemma_failure_is_final, lemma_no_failure_once_bound,
    lemma_readiness_gate, register_session, stop, ForwardEvent, ForwardPhase, ForwardPlan, PhaseView,
    READY_TIMEOUT_SECS,
};
pub use target::{KeyView, QualifiedName};
