use vstd::prelude::*;

verus! {

/// The mathematical identity of a session: namespace, pod name, target port.
pub type KeyView = (Seq<char>, Seq<char>, u16);

/// The qualified key of a session: the pod a session forwards to and the port
/// inside it. Two keys are equal exactly when all three parts are equal.
#[derive(Clone, Debug, Eq, Hash)]
pub struct QualifiedName {
    pub namespace: String,
    pub pod_name: String,
    pub target_port: u16,
}

impl View for QualifiedName {
    type V = KeyView;

    open spec fn view(&self) -> KeyView {
        (self.namespace@, self.pod_name@, self.target_port)
    }
}

impl QualifiedName {
    pub fn new(namespace: &str, name: &str, target_port: u16) -> (r: QualifiedName)
        ensures
            r@ == (namespace@, name@, target_port),
    {
        QualifiedName {
            namespace: namespace.to_owned(),
            pod_name: name.to_owned(),
            target_port,
        }
    }

    /// Whether both keys name the same session.
    pub fn same_as(&self, other: &QualifiedName) -> (r: bool)
        ensures
            r == (self@ == other@),
    {
        self.target_port == other.target_port && self.namespace == other.namespace
            && self.pod_name == other.pod_name
    }
}

impl PartialEq for QualifiedName {
    fn eq(&self, other: &QualifiedName) -> (r: bool) {
        self.same_as(other)
    }
}

impl vstd::std_specs::cmp::PartialEqSpecImpl for QualifiedName {
    open spec fn obeys_eq_spec() -> bool {
        true
    }

    open spec fn eq_spec(&self, other: &QualifiedName) -> bool {
        self@ == other@
    }
}

} // verus!
