use crate::error::{ErrorKind, ForwardError};
use vstd::prelude::*;

verus! {

/// The text of one selector term, `key=value`.
pub open spec fn term_text(p: (String, String)) -> Seq<char> {
    p.0@ + seq!['='] + p.1@
}

/// The label selector of a service: its terms joined by commas, in order.
pub open spec fn selector_text(s: Seq<(String, String)>) -> Seq<char>
    decreases s.len(),
{
    if s.len() == 0 {
        Seq::empty()
    } else if s.len() == 1 {
        term_text(s[0])
    } else {
        selector_text(s.drop_last()) + seq![','] + term_text(s.last())
    }
}

/// Builds the label selector (`k1=v1,k2=v2`) that lists the pods of a service
/// whose selector holds the given key and value pairs.
pub fn to_label_selector(selector: &Vec<(String, String)>) -> (r: String)
    ensures
        r@ == selector_text(selector@),
{
    let mut out = String::new();
    let mut i: usize = 0;
    proof {
        assert(selector@.subrange(0, 0) =~= Seq::<(String, String)>::empty());
    }
    while i < selector.len()
        invariant
            i <= selector@.len(),
            out@ == selector_text(selector@.subrange(0, i as int)),
        decreases selector@.len() - i,
    {
        let ghost before = out@;
        proof {
            reveal_strlit(",");
            reveal_strlit("=");
        }
        if i > 0 {
            out.append(",");
        }
        out.append(selector[i].0.as_str());
        out.append("=");
        out.append(selector[i].1.as_str());
        proof {
            let s = selector@.subrange(0, i + 1);
            assert(s.drop_last() =~= selector@.subrange(0, i as int));
            assert(s.last() == selector@[i as int]);
            if i == 0 {
                assert(out@ =~= term_text(selector@[0]));
            } else {
                assert(out@ =~= before + seq![','] + term_text(selector@[i as int]));
            }
        }
        i = i + 1;
    }
    proof {
        assert(selector@.subrange(0, selector@.len() as int) =~= selector@);
    }
    out
}

/// The first pod name in listing order; entries without a name are passed
/// over.
pub open spec fn first_named(s: Seq<Option<String>>) -> Option<Seq<char>>
    decreases s.len(),
{
    if s.len() == 0 {
        None
    } else if s[0] is Some {
        Some(s[0]->Some_0@)
    } else {
        first_named(s.drop_first())
    }
}

/// Picks the first named pod of a listing, in the listing's order.
pub fn first_named_pod(names: &Vec<Option<String>>) -> (r: Option<String>)
    ensures
        r is Some <==> first_named(names@) is Some,
        r is Some ==> r->Some_0@ == first_named(names@)->Some_0,
{
    let mut i: usize = 0;
    proof {
        assert(names@.subrange(0, names@.len() as int) =~= names@);
    }
    while i < names.len()
        invariant
            i <= names@.len(),
            first_named(names@.subrange(i as int, names@.len() as int)) == first_named(names@),
        decreases names@.len() - i,
    {
        let ghost rest = names@.subrange(i as int, names@.len() as int);
        assert(rest[0] == names@[i as int]);
        match &names[i] {
            Some(n) => {
                return Some(n.clone());
            },
            None => {
                assert(rest.drop_first() =~= names@.subrange(i + 1, names@.len() as int));
            },
        }
        i = i + 1;
    }
    assert(names@.subrange(i as int, names@.len() as int).len() == 0);
    None
}

/// What the lookup of a service found.
#[derive(Clone, Debug)]
pub enum ServiceLookup {
    /// No service has the name.
    Missing,
    /// The service exists but has no selector.
    NoSelector,
    /// The service's selector, as key and value pairs in order.
    Selector(Vec<(String, String)>),
}

/// Where the resolution of a name stands, mathematically.
pub enum Stage {
    FetchPod,
    FetchService,
    ListPods(Seq<char>),
    Resolved(Seq<char>),
    Failed(ErrorKind, Seq<char>),
}

/// Where the resolution of a name stands: the next lookup to perform, or the
/// result.
#[derive(Clone, Debug)]
pub enum ResolveStep {
    /// Look up a pod under the name.
    FetchPod,
    /// Look up a service under the name.
    FetchService,
    /// List the pods that match this label selector.
    ListPods(String),
    /// The name resolves to this pod.
    Resolved(String),
    /// The name resolves to no pod.
    Failed(ForwardError),
}

impl View for ResolveStep {
    type V = Stage;

    open spec fn view(&self) -> Stage {
        match self {
            ResolveStep::FetchPod => Stage::FetchPod,
            ResolveStep::FetchService => Stage::FetchService,
            ResolveStep::ListPods(s) => Stage::ListPods(s@),
            ResolveStep::Resolved(p) => Stage::Resolved(p@),
            ResolveStep::Failed(e) => Stage::Failed(e.kind, e.detail@),
        }
    }
}

pub struct ResolverView {
    pub name: Seq<char>,
    pub stage: Stage,
}

pub open spec fn resolver_start(name: Seq<char>) -> ResolverView {
    ResolverView { name, stage: Stage::FetchPod }
}

/// A pod under the name wins outright; otherwise the name is tried as a
/// service.
pub open spec fn after_pod_lookup(r: ResolverView, found: bool) -> ResolverView {
    match r.stage {
        Stage::FetchPod => if found {
            ResolverView { name: r.name, stage: Stage::Resolved(r.name) }
        } else {
            ResolverView { name: r.name, stage: Stage::FetchService }
        },
        _ => r,
    }
}

/// A missing service, or one without a selector term, resolves to no pod;
/// otherwise its pods are listed by its label selector.
pub open spec fn after_service_lookup(r: ResolverView, svc: ServiceLookup) -> ResolverView {
    match r.stage {
        Stage::FetchService => match svc {
            ServiceLookup::Selector(p) => if p@.len() > 0 {
                ResolverView { name: r.name, stage: Stage::ListPods(selector_text(p@)) }
            } else {
                ResolverView { name: r.name, stage: Stage::Failed(ErrorKind::NotFound, r.name) }
            },
            _ => ResolverView { name: r.name, stage: Stage::Failed(ErrorKind::NotFound, r.name) },
        },
        _ => r,
    }
}

/// The first named pod of the listing is the result; an empty listing
/// resolves to no pod.
pub open spec fn after_pods_listed(r: ResolverView, names: Seq<Option<String>>) -> ResolverView {
    match r.stage {
        Stage::ListPods(_) => match first_named(names) {
            Some(p) => ResolverView { name: r.name, stage: Stage::Resolved(p) },
            None => ResolverView { name: r.name, stage: Stage::Failed(ErrorKind::NotFound, r.name) },
        },
        _ => r,
    }
}

/// The outcome of resolving `name` when the lookups report `pod_found`, `svc`
/// and the pod listing `names`.
pub open spec fn resolution(
    name: Seq<char>,
    pod_found: bool,
    svc: ServiceLookup,
    names: Seq<Option<String>>,
) -> Stage {
    after_pods_listed(after_service_lookup(after_pod_lookup(resolver_start(name), pod_found), svc), names).stage
}

/// A pod that carries the name is chosen whatever a service of the same name
/// would select.
pub proof fn lemma_pod_takes_precedence(
    name: Seq<char>,
    svc: ServiceLookup,
    names: Seq<Option<String>>,
)
    ensures
        resolution(name, true, svc, names) == Stage::Resolved(name),
{
}

/// A service whose selector matches no named pod resolves to `NotFound`,
/// never to a pod.
pub proof fn lemma_unmatched_service_not_found(
    name: Seq<char>,
    svc: ServiceLookup,
    names: Seq<Option<String>>,
)
    requires
        svc is Selector,
        forall|i: int| 0 <= i < names.len() ==> names[i] is None,
    ensures
        resolution(name, false, svc, names) == Stage::Failed(ErrorKind::NotFound, name),
{
    assert(first_named(names) is None) by {
        lemma_no_named_entry(names);
    }
}

/// A resolved pod is never made up: it is the requested name, found as a pod,
/// or the first named pod that the service's selector listed.
pub proof fn lemma_resolved_pod_was_reported(
    name: Seq<char>,
    pod_found: bool,
    svc: ServiceLookup,
    names: Seq<Option<String>>,
)
    ensures
        resolution(name, pod_found, svc, names) is Resolved ==> {
            let p = resolution(name, pod_found, svc, names)->Resolved_0;
            (pod_found && p == name) || (!pod_found && svc is Selector && first_named(names)
                == Some(p))
        },
{
}

proof fn lemma_no_named_entry(names: Seq<Option<String>>)
    requires
        forall|i: int| 0 <= i < names.len() ==> names[i] is None,
    ensures
        first_named(names) is None,
    decreases names.len(),
{
    if names.len() > 0 {
        assert(names[0] is None);
        let rest = names.drop_first();
        assert forall|i: int| 0 <= i < rest.len() implies rest[i] is None by {
            assert(rest[i] == names[i + 1]);
        }
        lemma_no_named_entry(rest);
    }
}

/// Resolves a pod-or-service name to a pod, one lookup at a time: the caller
/// performs the lookup that `step` asks for and reports what it found.
pub struct Resolver {
    name: String,
    step: ResolveStep,
}

impl View for Resolver {
    type V = ResolverView;

    closed spec fn view(&self) -> ResolverView {
        ResolverView { name: self.name@, stage: self.step@ }
    }
}

impl Resolver {
    pub fn new(name: &str) -> (r: Resolver)
        ensures
            r@ == resolver_start(name@),
    {
        Resolver { name: name.to_owned(), step: ResolveStep::FetchPod }
    }

    /// The name being resolved.
    pub fn name(&self) -> (r: &String)
        ensures
            r@ == self@.name,
    {
        &self.name
    }

    /// The lookup to perform next, or the result.
    pub fn step(&self) -> (r: &ResolveStep)
        ensures
            r@ == self@.stage,
    {
        &self.step
    }

    /// Reports whether a pod carries the name.
    pub fn on_pod_lookup(&mut self, found: bool)
        ensures
            final(self)@ == after_pod_lookup(old(self)@, found),
    {
        if let ResolveStep::FetchPod = self.step {
            if found {
                self.step = ResolveStep::Resolved(self.name.clone());
            } else {
                self.step = ResolveStep::FetchService;
            }
        }
    }

    /// Reports what the lookup of a service under the name found.
    pub fn on_service_lookup(&mut self, svc: ServiceLookup)
        ensures
            final(self)@ == after_service_lookup(old(self)@, svc),
    {
        if let ResolveStep::FetchService = self.step {
            let not_found = ForwardError::new(ErrorKind::NotFound, self.name.clone());
            match svc {
                ServiceLookup::Selector(p) => {
                    if p.len() > 0 {
                        self.step = ResolveStep::ListPods(to_label_selector(&p));
                    } else {
                        self.step = ResolveStep::Failed(not_found);
                    }
                },
                _ => {
                    self.step = ResolveStep::Failed(not_found);
                },
            }
        }
    }

    /// Reports the names of the pods that the label selector listed, in
    /// listing order (`None` for a pod without a name).
    pub fn on_pods_listed(&mut self, names: Vec<Option<String>>)
        ensures
            final(self)@ == after_pods_listed(old(self)@, names@),
    {
        if let ResolveStep::ListPods(_) = self.step {
            match first_named_pod(&names) {
                Some(p) => {
                    self.step = ResolveStep::Resolved(p);
                },
                None => {
                    self.step = ResolveStep::Failed(
                        ForwardError::new(ErrorKind::NotFound, self.name.clone()),
                    );
                },
            }
        }
    }
}

} // verus!
