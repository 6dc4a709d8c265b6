use vstd::prelude::*;

verus! {

/// The kinds of failure a session can run into.
#[derive(Clone, Copy, Debug, PartialEq, Eq, Structural)]
pub enum ErrorKind {
    /// Credentials or cluster context could not be loaded.
    ConfigError,
    /// The pod or service is absent, or no pod matches the service.
    NotFound,
    /// The pod did not report running in time.
    Timeout,
    /// The local socket could not be bound.
    BindError,
    /// A connection's channel into the pod could not be opened.
    TargetUnreachable,
    /// The listener of a session failed.
    ServerError,
    /// The cluster's API answered a request with an error.
    ClusterError,
}

/// A failure together with a human-readable detail (such as the name that
/// could not be found).
#[derive(Clone, Debug)]
pub struct ForwardError {
    pub kind: ErrorKind,
    pub detail: String,
}

impl ForwardError {
    pub fn new(kind: ErrorKind, detail: String) -> (r: ForwardError)
        ensures
            r.kind == kind,
            r.detail@ == detail@,
    {
        ForwardError { kind, detail }
    }

    pub fn kind(&self) -> (r: ErrorKind)
        ensures
            r == self.kind,
    {
        self.kind
    }

    pub fn detail(&self) -> (r: &String)
        ensures
            r@ == self.detail@,
    {
        &self.detail
    }
}

} // verus!
