use crate::target::{KeyView, QualifiedName};
use tokio::sync::oneshot::Sender;
use vstd::prelude::*;

verus! {

/// tokio's `oneshot::Sender`, carried as an opaque cancellation handle.
#[verifier::external_type_specification]
#[verifier::external_body]
#[verifier::reject_recursive_types(T)]
pub struct ExSender<T>(Sender<T>);

/// Relies on tokio's `oneshot::Sender::send`: it consumes the sender, so a
/// value goes through a channel at most once; when the receiving half is gone
/// the value comes back as the error.
pub assume_specification<T>[ Sender::<T>::send ](sender: Sender<T>, t: T) -> (r: Result<
    (),
    T,
>)
    ensures
        r is Err ==> r->Err_0 == t,
;

/// The cancellation handle of one running session.
#[derive(Debug)]
pub struct Forwarding {
    cancel_sender: Sender<()>,
}

impl Forwarding {
    /// The sender that signals the session's acceptor loop.
    pub closed spec fn handle(&self) -> Sender<()> {
        self.cancel_sender
    }

    pub fn new(cancel_sender: Sender<()>) -> (r: Forwarding)
        ensures
            r.handle() == cancel_sender,
    {
        Forwarding { cancel_sender }
    }

    /// Signals the session's acceptor loop to stop. Consuming the handle
    /// makes the signal one-shot. Returns whether the loop was still
    /// listening for it.
    pub fn cancel(self) -> (listening: bool) {
        match self.cancel_sender.send(()) {
            Ok(()) => true,
            Err(_) => false,
        }
    }
}

/// What `stop` found under a key.
#[derive(Clone, Copy, Debug, PartialEq, Eq, Structural)]
pub enum StopOutcome {
    /// No session was registered under the key; nothing was signalled.
    NotRegistered,
    /// The session was removed and its acceptor loop was signalled.
    Cancelled,
    /// The session was removed; its acceptor loop had already ended.
    AlreadyEnded,
}

pub type Entry = (QualifiedName, Forwarding);

pub open spec fn seq_has(s: Seq<Entry>, k: KeyView) -> bool {
    exists|i: int| 0 <= i < s.len() && (#[trigger] s[i]).0@ == k
}

pub open spec fn keys_unique(s: Seq<Entry>) -> bool {
    forall|i: int, j: int|
        0 <= i < s.len() && 0 <= j < s.len() && i != j ==> (#[trigger] s[i]).0@ != (
        #[trigger] s[j]).0@
}

pub open spec fn seq_map(s: Seq<Entry>) -> Map<KeyView, Forwarding> {
    Map::new(
        |k: KeyView| seq_has(s, k),
        |k: KeyView| s[choose|i: int| 0 <= i < s.len() && (#[trigger] s[i]).0@ == k].1,
    )
}

proof fn lemma_seq_map_at(s: Seq<Entry>, i: int)
    requires
        keys_unique(s),
        0 <= i < s.len(),
    ensures
        seq_map(s).contains_key(s[i].0@),
        seq_map(s)[s[i].0@] == s[i].1,
{
    let k = s[i].0@;
    assert(seq_has(s, k));
    let j = choose|j: int| 0 <= j < s.len() && (#[trigger] s[j]).0@ == k;
    assert(j == i);
}

proof fn lemma_seq_map_remove(s: Seq<Entry>, i: int)
    requires
        keys_unique(s),
        0 <= i < s.len(),
    ensures
        keys_unique(s.remove(i)),
        seq_map(s.remove(i)) == seq_map(s).remove(s[i].0@),
{
    let t = s.remove(i);
    let k = s[i].0@;
    assert forall|a: int, b: int|
        0 <= a < t.len() && 0 <= b < t.len() && a != b implies (#[trigger] t[a]).0@ != (
        #[trigger] t[b]).0@ by {
        let a2 = if a < i { a } else { a + 1 };
        let b2 = if b < i { b } else { b + 1 };
        assert(t[a] == s[a2] && t[b] == s[b2]);
    }
    assert forall|x: KeyView| #[trigger] seq_has(t, x) == (seq_has(s, x) && x != k) by {
        if seq_has(t, x) {
            let a = choose|a: int| 0 <= a < t.len() && (#[trigger] t[a]).0@ == x;
            let a2 = if a < i { a } else { a + 1 };
            assert(s[a2] == t[a]);
        }
        if seq_has(s, x) && x != k {
            let a = choose|a: int| 0 <= a < s.len() && (#[trigger] s[a]).0@ == x;
            assert(a != i);
            let a2 = if a < i { a } else { a - 1 };
            assert(t[a2] == s[a]);
        }
    }
    assert forall|x: KeyView| #[trigger] seq_map(t).contains_key(x) implies seq_map(t)[x]
        == seq_map(s)[x] by {
        let a = choose|a: int| 0 <= a < t.len() && (#[trigger] t[a]).0@ == x;
        let a2 = if a < i { a } else { a + 1 };
        assert(s[a2] == t[a]);
        lemma_seq_map_at(t, a);
        lemma_seq_map_at(s, a2);
    }
    assert(seq_map(t) =~= seq_map(s).remove(k));
}

proof fn lemma_seq_map_push(s: Seq<Entry>, e: Entry)
    requires
        keys_unique(s),
        !seq_has(s, e.0@),
    ensures
        keys_unique(s.push(e)),
        seq_map(s.push(e)) == seq_map(s).insert(e.0@, e.1),
{
    let t = s.push(e);
    assert forall|a: int, b: int|
        0 <= a < t.len() && 0 <= b < t.len() && a != b implies (#[trigger] t[a]).0@ != (
        #[trigger] t[b]).0@ by {
        if a < s.len() && b < s.len() {
            assert(t[a] == s[a] && t[b] == s[b]);
        } else if a < s.len() {
            assert(t[a] == s[a]);
        } else if b < s.len() {
            assert(t[b] == s[b]);
        }
    }
    assert forall|x: KeyView| #[trigger] seq_has(t, x) == (seq_has(s, x) || x == e.0@) by {
        if seq_has(s, x) {
            let a = choose|a: int| 0 <= a < s.len() && (#[trigger] s[a]).0@ == x;
            assert(t[a] == s[a]);
        }
        if x == e.0@ {
            assert(t[s.len() as int] == e);
        }
        if seq_has(t, x) {
            let a = choose|a: int| 0 <= a < t.len() && (#[trigger] t[a]).0@ == x;
            if a < s.len() {
                assert(t[a] == s[a]);
            }
        }
    }
    assert forall|x: KeyView| #[trigger] seq_map(t).contains_key(x) implies seq_map(t)[x]
        == seq_map(s).insert(e.0@, e.1)[x] by {
        let a = choose|a: int| 0 <= a < t.len() && (#[trigger] t[a]).0@ == x;
        lemma_seq_map_at(t, a);
        if a < s.len() {
            assert(t[a] == s[a]);
            lemma_seq_map_at(s, a);
        }
    }
    assert(seq_map(t) =~= seq_map(s).insert(e.0@, e.1));
}

/// The sessions that remain after stopping the one under `k`.
pub open spec fn after_stop(m: Map<KeyView, Forwarding>, k: KeyView) -> Map<KeyView, Forwarding> {
    m.remove(k)
}

/// Whether stopping `k` signals a session: exactly when one is registered
/// under `k`.
pub open spec fn stop_signals(m: Map<KeyView, Forwarding>, k: KeyView) -> bool {
    m.contains_key(k)
}

/// Stopping one key leaves the session of every other key registered, with
/// the same handle, so its one-shot signal has not been used.
pub proof fn lemma_stop_spares_other_keys(m: Map<KeyView, Forwarding>, k1: KeyView, k2: KeyView)
    requires
        k1 != k2,
    ensures
        after_stop(m, k1).contains_key(k2) == m.contains_key(k2),
        m.contains_key(k2) ==> after_stop(m, k1)[k2] == m[k2],
{
}

/// Stopping the same key twice signals at most once: the second stop finds
/// nothing under the key, signals nothing and changes nothing.
pub proof fn lemma_stop_twice(m: Map<KeyView, Forwarding>, k: KeyView)
    ensures
        !stop_signals(after_stop(m, k), k),
        after_stop(after_stop(m, k), k) == after_stop(m, k),
{
    assert(after_stop(after_stop(m, k), k) =~= after_stop(m, k));
}

/// The table of running sessions, keyed by qualified name. Each key appears
/// at most once.
pub struct Registry {
    entries: Vec<Entry>,
}

impl View for Registry {
    type V = Map<KeyView, Forwarding>;

    closed spec fn view(&self) -> Map<KeyView, Forwarding> {
        seq_map(self.entries@)
    }
}

impl Registry {
    /// Each key is held at most once.
    pub closed spec fn wf(&self) -> bool {
        keys_unique(self.entries@)
    }

    pub fn new() -> (r: Registry)
        ensures
            r.wf(),
            r@ == Map::<KeyView, Forwarding>::empty(),
    {
        let r = Registry { entries: Vec::new() };
        assert(r@ =~= Map::<KeyView, Forwarding>::empty());
        r
    }

    fn position(&self, key: &QualifiedName) -> (r: Option<usize>)
        requires
            self.wf(),
        ensures
            r is Some ==> r->Some_0 < self.entries@.len() && self.entries@[r->Some_0 as int].0@
                == key@,
            r is None ==> !seq_has(self.entries@, key@),
    {
        let mut i: usize = 0;
        while i < self.entries.len()
            invariant
                i <= self.entries@.len(),
                forall|j: int| 0 <= j < i ==> (#[trigger] self.entries@[j]).0@ != key@,
            decreases self.entries@.len() - i,
        {
            if self.entries[i].0.same_as(key) {
                return Some(i);
            }
            i = i + 1;
        }
        None
    }

    /// Whether a session is registered under `key`.
    pub fn contains(&self, key: &QualifiedName) -> (r: bool)
        requires
            self.wf(),
        ensures
            r == self@.contains_key(key@),
    {
        self.position(key).is_some()
    }

    /// Registers `forwarding` under `key`, replacing any session registered
    /// there before. The replaced handle is handed back so that the caller can
    /// cancel the session it belongs to.
    pub fn register(&mut self, key: QualifiedName, forwarding: Forwarding) -> (prev: Option<
        Forwarding,
    >)
        requires
            old(self).wf(),
        ensures
            final(self).wf(),
            final(self)@ == old(self)@.insert(key@, forwarding),
            prev is Some <==> old(self)@.contains_key(key@),
            prev is Some ==> prev->Some_0 == old(self)@[key@],
    {
        let pos = self.position(&key);
        let ghost k = key@;
        let ghost e = (key, forwarding);
        match pos {
            Some(i) => {
                proof {
                    lemma_seq_map_at(self.entries@, i as int);
                    lemma_seq_map_remove(self.entries@, i as int);
                }
                let ghost s0 = self.entries@;
                let removed = self.entries.remove(i);
                proof {
                    assert(!seq_has(self.entries@, k)) by {
                        assert(!seq_map(self.entries@).contains_key(k));
                    }
                    lemma_seq_map_push(self.entries@, e);
                    assert(seq_map(s0).remove(k).insert(k, e.1) =~= seq_map(s0).insert(k, e.1));
                }
                self.entries.push((key, forwarding));
                Some(removed.1)
            },
            None => {
                proof {
                    lemma_seq_map_push(self.entries@, e);
                }
                self.entries.push((key, forwarding));
                None
            },
        }
    }

    /// Removes the session registered under `key` and signals its acceptor
    /// loop. Without such a session nothing happens.
    pub fn stop(&mut self, key: &QualifiedName) -> (r: StopOutcome)
        requires
            old(self).wf(),
        ensures
            final(self).wf(),
            final(self)@ == after_stop(old(self)@, key@),
            r != StopOutcome::NotRegistered <==> stop_signals(old(self)@, key@),
    {
        match self.position(key) {
            Some(i) => {
                proof {
                    lemma_seq_map_at(self.entries@, i as int);
                    lemma_seq_map_remove(self.entries@, i as int);
                }
                let removed = self.entries.remove(i);
                if removed.1.cancel() {
                    StopOutcome::Cancelled
                } else {
                    StopOutcome::AlreadyEnded
                }
            },
            None => {
                assert(self@.remove(key@) =~= self@);
                StopOutcome::NotRegistered
            },
        }
    }
}

} // verus!
