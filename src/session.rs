use crate::error::{ErrorKind, ForwardError};
use crate::registry::{Forwarding, Registry, StopOutcome, after_stop, stop_signals};
use crate::target::QualifiedName;
use vstd::prelude::*;

verus! {

/// How long `forward` waits for the resolved pod to report running.
pub const READY_TIMEOUT_SECS: u64 = 30;

/// Where a `forward` request stands, mathematically.
pub enum PhaseView {
    LoadConfig,
    Resolve,
    AwaitReady(Seq<char>),
    Bind(Seq<char>),
    Register(Seq<char>, u16),
    Launched(Seq<char>, u16),
    Failed(ErrorKind, Seq<char>),
}

/// Where a `forward` request stands: the next piece of outside work, or the
/// result.
#[derive(Clone, Debug)]
pub enum ForwardPhase {
    /// Build a cluster client from the credentials.
    LoadConfig,
    /// Resolve the pod-or-service name to a pod.
    Resolve,
    /// Wait until this pod reports running.
    AwaitReady(String),
    /// Bind the local listener for this pod.
    Bind(String),
    /// Register the session of this pod, listening on this local port.
    Register(String, u16),
    /// The session runs: this pod, reached through this local port.
    Launched(String, u16),
    /// The request failed before any session was registered.
    Failed(ForwardError),
}

impl View for ForwardPhase {
    type V = PhaseView;

    open spec fn view(&self) -> PhaseView {
        match self {
            ForwardPhase::LoadConfig => PhaseView::LoadConfig,
            ForwardPhase::Resolve => PhaseView::Resolve,
            ForwardPhase::AwaitReady(p) => PhaseView::AwaitReady(p@),
            ForwardPhase::Bind(p) => PhaseView::Bind(p@),
            ForwardPhase::Register(p, port) => PhaseView::Register(p@, *port),
            ForwardPhase::Launched(p, port) => PhaseView::Launched(p@, *port),
            ForwardPhase::Failed(e) => PhaseView::Failed(e.kind, e.detail@),
        }
    }
}

/// The outcome of one piece of outside work.
#[derive(Clone, Debug)]
pub enum ForwardEvent {
    ConfigLoaded,
    ConfigFailed(String),
    Resolved(String),
    ResolveFailed(ForwardError),
    PodReady,
    ReadyTimedOut,
    ReadyCheckFailed(String),
    Bound(u16),
    BindFailed(String),
    Registered,
}

/// The next phase: each piece of work leads to the next one or to its own
/// error; an event that does not answer the current phase changes nothing.
pub open spec fn forward_next(p: PhaseView, ev: ForwardEvent) -> PhaseView {
    match (p, ev) {
        (PhaseView::LoadConfig, ForwardEvent::ConfigLoaded) => PhaseView::Resolve,
        (PhaseView::LoadConfig, ForwardEvent::ConfigFailed(d)) => PhaseView::Failed(
            ErrorKind::ConfigError,
            d@,
        ),
        (PhaseView::Resolve, ForwardEvent::Resolved(pod)) => PhaseView::AwaitReady(pod@),
        (PhaseView::Resolve, ForwardEvent::ResolveFailed(e)) => PhaseView::Failed(
            e.kind,
            e.detail@,
        ),
        (PhaseView::AwaitReady(pod), ForwardEvent::PodReady) => PhaseView::Bind(pod),
        (PhaseView::AwaitReady(pod), ForwardEvent::ReadyTimedOut) => PhaseView::Failed(
            ErrorKind::Timeout,
            pod,
        ),
        (PhaseView::AwaitReady(_), ForwardEvent::ReadyCheckFailed(d)) => PhaseView::Failed(
            ErrorKind::ClusterError,
            d@,
        ),
        (PhaseView::Bind(pod), ForwardEvent::Bound(port)) => PhaseView::Register(pod, port),
        (PhaseView::Bind(_), ForwardEvent::BindFailed(d)) => PhaseView::Failed(
            ErrorKind::BindError,
            d@,
        ),
        (PhaseView::Register(pod, port), ForwardEvent::Registered) => PhaseView::Launched(
            pod,
            port,
        ),
        _ => p,
    }
}

/// The phase after a sequence of events.
pub open spec fn forward_run(p: PhaseView, evs: Seq<ForwardEvent>) -> PhaseView
    decreases evs.len(),
{
    if evs.len() == 0 {
        p
    } else {
        forward_run(forward_next(p, evs[0]), evs.drop_first())
    }
}

/// Once the listener is bound, nothing makes the request fail: every error
/// comes before the session is registered.
pub proof fn lemma_no_failure_once_bound(p: PhaseView, evs: Seq<ForwardEvent>)
    requires
        p is Register || p is Launched,
    ensures
        forward_run(p, evs) is Register || forward_run(p, evs) is Launched,
    decreases evs.len(),
{
    if evs.len() > 0 {
        lemma_no_failure_once_bound(forward_next(p, evs[0]), evs.drop_first());
    }
}

/// A failed request stays failed, with the same error, whatever follows.
pub proof fn lemma_failure_is_final(p: PhaseView, evs: Seq<ForwardEvent>)
    requires
        p is Failed,
    ensures
        forward_run(p, evs) == p,
    decreases evs.len(),
{
    if evs.len() > 0 {
        lemma_failure_is_final(forward_next(p, evs[0]), evs.drop_first());
    }
}

/// A pod that reports running lets the request go on to bind; one that does
/// not within the wait fails the request with `Timeout`, naming the pod.
pub proof fn lemma_readiness_gate(pod: Seq<char>)
    ensures
        forward_next(PhaseView::AwaitReady(pod), ForwardEvent::PodReady) == PhaseView::Bind(pod),
        forward_next(PhaseView::AwaitReady(pod), ForwardEvent::ReadyTimedOut) == PhaseView::Failed(
            ErrorKind::Timeout,
            pod,
        ),
{
}

/// The decisions of one `forward` request. The caller performs the work that
/// `phase` names and reports its outcome with `on_event`.
pub struct ForwardPlan {
    phase: ForwardPhase,
}

impl View for ForwardPlan {
    type V = PhaseView;

    closed spec fn view(&self) -> PhaseView {
        self.phase@
    }
}

impl ForwardPlan {
    pub fn new() -> (r: ForwardPlan)
        ensures
            r@ == PhaseView::LoadConfig,
    {
        ForwardPlan { phase: ForwardPhase::LoadConfig }
    }

    pub fn phase(&self) -> (r: &ForwardPhase)
        ensures
            r@ == self@,
    {
        &self.phase
    }

    pub fn on_event(&mut self, ev: ForwardEvent)
        ensures
            final(self)@ == forward_next(old(self)@, ev),
    {
        let next = match (&self.phase, ev) {
            (ForwardPhase::LoadConfig, ForwardEvent::ConfigLoaded) => ForwardPhase::Resolve,
            (ForwardPhase::LoadConfig, ForwardEvent::ConfigFailed(d)) => ForwardPhase::Failed(
                ForwardError::new(ErrorKind::ConfigError, d),
            ),
            (ForwardPhase::Resolve, ForwardEvent::Resolved(pod)) => ForwardPhase::AwaitReady(pod),
            (ForwardPhase::Resolve, ForwardEvent::ResolveFailed(e)) => ForwardPhase::Failed(e),
            (ForwardPhase::AwaitReady(pod), ForwardEvent::PodReady) => ForwardPhase::Bind(
                pod.clone(),
            ),
            (ForwardPhase::AwaitReady(pod), ForwardEvent::ReadyTimedOut) => ForwardPhase::Failed(
                ForwardError::new(ErrorKind::Timeout, pod.clone()),
            ),
            (ForwardPhase::AwaitReady(_), ForwardEvent::ReadyCheckFailed(d)) => ForwardPhase::Failed(
                ForwardError::new(ErrorKind::ClusterError, d),
            ),
            (ForwardPhase::Bind(pod), ForwardEvent::Bound(port)) => ForwardPhase::Register(
                pod.clone(),
                port,
            ),
            (ForwardPhase::Bind(_), ForwardEvent::BindFailed(d)) => ForwardPhase::Failed(
                ForwardError::new(ErrorKind::BindError, d),
            ),
            (ForwardPhase::Register(pod, port), ForwardEvent::Registered) => ForwardPhase::Launched(
                pod.clone(),
                *port,
            ),
            _ => {
                return;
            },
        };
        self.phase = next;
    }

    /// The result, once there is one: the pod and the local port of the
    /// running session, or the error.
    pub fn outcome(&self) -> (r: Option<Result<(String, u16), ForwardError>>)
        ensures
            self@ is Launched <==> (r is Some && r->Some_0 is Ok),
            self@ is Failed <==> (r is Some && r->Some_0 is Err),
            self@ is Launched ==> r->Some_0->Ok_0.0@ == self@->Launched_0 && r->Some_0->Ok_0.1
                == self@->Launched_1,
            self@ is Failed ==> r->Some_0->Err_0.kind == self@->Failed_0
                && r->Some_0->Err_0.detail@ == self@->Failed_1,
    {
        match &self.phase {
            ForwardPhase::Launched(pod, port) => Some(Ok((pod.clone(), *port))),
            ForwardPhase::Failed(e) => Some(Err(ForwardError::new(e.kind, e.detail.clone()))),
            _ => None,
        }
    }
}

/// Registers a new session under `key`. A session registered there before is
/// replaced and its acceptor loop is signalled, so that no loop keeps running
/// without a registry entry.
pub fn register_session(registry: &mut Registry, key: QualifiedName, forwarding: Forwarding) -> (r:
    StopOutcome)
    requires
        old(registry).wf(),
    ensures
        final(registry).wf(),
        final(registry)@ == old(registry)@.insert(key@, forwarding),
        r != StopOutcome::NotRegistered <==> old(registry)@.contains_key(key@),
{
    match registry.register(key, forwarding) {
        Some(prev) => {
            if prev.cancel() {
                StopOutcome::Cancelled
            } else {
                StopOutcome::AlreadyEnded
            }
        },
        None => StopOutcome::NotRegistered,
    }
}

/// Stops the session that forwards to `to_port` of pod `actual_pod` in
/// `namespace`: its registry entry goes and its acceptor loop is signalled.
/// Without such a session nothing happens; stopping never fails.
pub fn stop(registry: &mut Registry, namespace: &str, actual_pod: &str, to_port: u16) -> (r:
    StopOutcome)
    requires
        old(registry).wf(),
    ensures
        final(registry).wf(),
        final(registry)@ == after_stop(old(registry)@, (namespace@, actual_pod@, to_port)),
        r != StopOutcome::NotRegistered <==> stop_signals(
            old(registry)@,
            (namespace@, actual_pod@, to_port),
        ),
{
    let q_name = QualifiedName::new(namespace, actual_pod, to_port);
    registry.stop(&q_name)
}

} // verus!
