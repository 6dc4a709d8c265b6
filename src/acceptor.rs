use vstd::prelude::*;

verus! {

/// What happened to a session's listener or to one of its connections.
#[derive(Clone, Copy, Debug, PartialEq, Eq, Structural)]
pub enum AcceptorEvent {
    /// A client connection was accepted.
    Accepted,
    /// A connection's forwarder finished, whether it succeeded or failed.
    ConnectionClosed,
    /// The session's cancellation signal fired.
    Cancelled,
    /// The listener failed and cannot accept any more.
    ListenerFailed,
}

/// What the acceptor loop does in answer to an event.
#[derive(Clone, Copy, Debug, PartialEq, Eq, Structural)]
pub enum AcceptorAction {
    /// Hand the accepted connection to a forwarder of its own.
    Forward,
    /// Close the accepted connection at once.
    Refuse,
    /// Go on as before.
    Continue,
    /// Stop accepting; running forwarders drain on their own.
    Shutdown,
    /// Stop accepting and report a server error for this session alone.
    ShutdownWithError,
}

/// Whether the loop still accepts, and if not, why.
#[derive(Clone, Copy, Debug, PartialEq, Eq, Structural)]
pub enum AcceptorPhase {
    Accepting,
    Cancelled,
    Failed,
}

pub struct AcceptorView {
    pub phase: AcceptorPhase,
    pub active: int,
    pub max_active: int,
}

/// The loop's reaction to one event: its next state and its action.
pub open spec fn acceptor_next(v: AcceptorView, ev: AcceptorEvent) -> (AcceptorView, AcceptorAction) {
    match ev {
        AcceptorEvent::Accepted => if v.phase == AcceptorPhase::Accepting && v.active
            < v.max_active {
            (AcceptorView { active: v.active + 1, ..v }, AcceptorAction::Forward)
        } else {
            (v, AcceptorAction::Refuse)
        },
        AcceptorEvent::ConnectionClosed => if v.active > 0 {
            (AcceptorView { active: v.active - 1, ..v }, AcceptorAction::Continue)
        } else {
            (v, AcceptorAction::Continue)
        },
        AcceptorEvent::Cancelled => if v.phase == AcceptorPhase::Accepting {
            (AcceptorView { phase: AcceptorPhase::Cancelled, ..v }, AcceptorAction::Shutdown)
        } else {
            (v, AcceptorAction::Continue)
        },
        AcceptorEvent::ListenerFailed => if v.phase == AcceptorPhase::Accepting {
            (
                AcceptorView { phase: AcceptorPhase::Failed, ..v },
                AcceptorAction::ShutdownWithError,
            )
        } else {
            (v, AcceptorAction::Continue)
        },
    }
}

/// The state after a sequence of events.
pub open spec fn acceptor_run(v: AcceptorView, evs: Seq<AcceptorEvent>) -> AcceptorView
    decreases evs.len(),
{
    if evs.len() == 0 {
        v
    } else {
        acceptor_run(acceptor_next(v, evs[0]).0, evs.drop_first())
    }
}

pub open spec fn is_stop_event(ev: AcceptorEvent) -> bool {
    ev == AcceptorEvent::Cancelled || ev == AcceptorEvent::ListenerFailed
}

/// Connections coming and going never stop the loop: after any sequence of
/// events without a cancellation or a listener failure the loop still
/// accepts, and forwards the next connection whenever it is under its bound.
pub proof fn lemma_keeps_accepting(v: AcceptorView, evs: Seq<AcceptorEvent>)
    requires
        v.phase == AcceptorPhase::Accepting,
        forall|i: int| 0 <= i < evs.len() ==> !is_stop_event(#[trigger] evs[i]),
    ensures
        acceptor_run(v, evs).phase == AcceptorPhase::Accepting,
        acceptor_run(v, evs).max_active == v.max_active,
        acceptor_run(v, evs).active < v.max_active ==> acceptor_next(
            acceptor_run(v, evs),
            AcceptorEvent::Accepted,
        ).1 == AcceptorAction::Forward,
    decreases evs.len(),
{
    if evs.len() > 0 {
        assert(!is_stop_event(evs[0]));
        let rest = evs.drop_first();
        assert forall|i: int| 0 <= i < rest.len() implies !is_stop_event(#[trigger] rest[i]) by {
            assert(rest[i] == evs[i + 1]);
        }
        lemma_keeps_accepting(acceptor_next(v, evs[0]).0, rest);
    }
}

/// Each accepted connection that is forwarded is counted once and released
/// once: after `n` forwarded connections have all closed, in whatever order
/// their closings interleave, the count is back where it started.
pub proof fn lemma_connections_balance(v: AcceptorView, n: nat)
    requires
        v.phase == AcceptorPhase::Accepting,
        0 <= v.active,
        v.active + n <= v.max_active,
    ensures
        acceptor_run(
            v,
            Seq::new(n, |i: int| AcceptorEvent::Accepted) + Seq::new(
                n,
                |i: int| AcceptorEvent::ConnectionClosed,
            ),
        ) == v,
{
    let opens = Seq::new(n, |i: int| AcceptorEvent::Accepted);
    let closes = Seq::new(n, |i: int| AcceptorEvent::ConnectionClosed);
    lemma_run_append(v, opens, closes);
    lemma_run_opens(v, n);
    lemma_run_closes(acceptor_run(v, opens), n);
}

proof fn lemma_run_append(v: AcceptorView, a: Seq<AcceptorEvent>, b: Seq<AcceptorEvent>)
    ensures
        acceptor_run(v, a + b) == acceptor_run(acceptor_run(v, a), b),
    decreases a.len(),
{
    if a.len() > 0 {
        assert((a + b).drop_first() =~= a.drop_first() + b);
        lemma_run_append(acceptor_next(v, a[0]).0, a.drop_first(), b);
    } else {
        assert(a + b =~= b);
    }
}

proof fn lemma_run_opens(v: AcceptorView, n: nat)
    requires
        v.phase == AcceptorPhase::Accepting,
        v.active + n <= v.max_active,
    ensures
        acceptor_run(v, Seq::new(n, |i: int| AcceptorEvent::Accepted)) == (AcceptorView {
            active: v.active + n,
            ..v
        }),
    decreases n,
{
    if n > 0 {
        let s = Seq::new(n, |i: int| AcceptorEvent::Accepted);
        assert(s.drop_first() =~= Seq::new((n - 1) as nat, |i: int| AcceptorEvent::Accepted));
        lemma_run_opens(acceptor_next(v, AcceptorEvent::Accepted).0, (n - 1) as nat);
    } else {
        assert(Seq::new(n, |i: int| AcceptorEvent::Accepted).len() == 0);
    }
}

proof fn lemma_run_closes(v: AcceptorView, n: nat)
    requires
        v.active >= n,
    ensures
        acceptor_run(v, Seq::new(n, |i: int| AcceptorEvent::ConnectionClosed)) == (AcceptorView {
            active: v.active - n,
            ..v
        }),
    decreases n,
{
    if n > 0 {
        let s = Seq::new(n, |i: int| AcceptorEvent::ConnectionClosed);
        assert(s.drop_first() =~= Seq::new(
            (n - 1) as nat,
            |i: int| AcceptorEvent::ConnectionClosed,
        ));
        lemma_run_closes(acceptor_next(v, AcceptorEvent::ConnectionClosed).0, (n - 1) as nat);
    } else {
        assert(Seq::new(n, |i: int| AcceptorEvent::ConnectionClosed).len() == 0);
    }
}

/// The decisions of one session's acceptor loop, with an optional bound on
/// the number of connections forwarded at the same time.
pub struct Acceptor {
    phase: AcceptorPhase,
    active: u64,
    max_active: u64,
}

impl View for Acceptor {
    type V = AcceptorView;

    closed spec fn view(&self) -> AcceptorView {
        AcceptorView {
            phase: self.phase,
            active: self.active as int,
            max_active: self.max_active as int,
        }
    }
}

impl Acceptor {
    /// The number of forwarded connections never exceeds the bound.
    pub closed spec fn wf(&self) -> bool {
        self.active <= self.max_active
    }

    /// A loop that forwards at most `max_active` connections at a time.
    pub fn with_limit(max_active: u64) -> (r: Acceptor)
        ensures
            r.wf(),
            r@ == (AcceptorView {
                phase: AcceptorPhase::Accepting,
                active: 0,
                max_active: max_active as int,
            }),
    {
        Acceptor { phase: AcceptorPhase::Accepting, active: 0, max_active }
    }

    /// A loop without a bound of its own (only the counter's range limits it).
    pub fn unbounded() -> (r: Acceptor)
        ensures
            r.wf(),
            r@ == (AcceptorView {
                phase: AcceptorPhase::Accepting,
                active: 0,
                max_active: u64::MAX as int,
            }),
    {
        Acceptor::with_limit(u64::MAX)
    }

    pub fn phase(&self) -> (r: AcceptorPhase)
        ensures
            r == self@.phase,
    {
        self.phase
    }

    /// Whether the loop still accepts connections.
    pub fn is_accepting(&self) -> (r: bool)
        ensures
            r == (self@.phase == AcceptorPhase::Accepting),
    {
        self.phase == AcceptorPhase::Accepting
    }

    /// The number of connections being forwarded.
    pub fn active(&self) -> (r: u64)
        ensures
            r as int == self@.active,
    {
        self.active
    }

    /// Takes one event and says what to do about it.
    pub fn on_event(&mut self, ev: AcceptorEvent) -> (r: AcceptorAction)
        requires
            old(self).wf(),
        ensures
            final(self).wf(),
            (final(self)@, r) == acceptor_next(old(self)@, ev),
    {
        match ev {
            AcceptorEvent::Accepted => {
                if self.phase == AcceptorPhase::Accepting && self.active < self.max_active {
                    self.active = self.active + 1;
                    AcceptorAction::Forward
                } else {
                    AcceptorAction::Refuse
                }
            },
            AcceptorEvent::ConnectionClosed => {
                if self.active > 0 {
                    self.active = self.active - 1;
                }
                AcceptorAction::Continue
            },
            AcceptorEvent::Cancelled => {
                if self.phase == AcceptorPhase::Accepting {
                    self.phase = AcceptorPhase::Cancelled;
                    AcceptorAction::Shutdown
                } else {
                    AcceptorAction::Continue
                }
            },
            AcceptorEvent::ListenerFailed => {
                if self.phase == AcceptorPhase::Accepting {
                    self.phase = AcceptorPhase::Failed;
                    AcceptorAction::ShutdownWithError
                } else {
                    AcceptorAction::Continue
                }
            },
        }
    }
}

} // verus!
