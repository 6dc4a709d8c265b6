use vstd::prelude::*;

verus! {

/// What a `forward` request asks for: the namespace, the pod or service to
/// reach, the local address to bind, the port inside the pod, and where the
/// cluster credentials come from.
#[derive(Clone, Debug)]
pub struct ForwardConfig {
    pub namespace: String,
    pub pod_or_service: String,
    pub bind_address: String,
    pub to_port: u16,
    pub config_path: String,
    pub kube_context: String,
}

impl ForwardConfig {
    pub fn new(
        namespace: String,
        pod_or_service: String,
        bind_address: String,
        to_port: u16,
        config_path: String,
        kube_context: String,
    ) -> (r: ForwardConfig)
        ensures
            r.namespace@ == namespace@,
            r.pod_or_service@ == pod_or_service@,
            r.bind_address@ == bind_address@,
            r.to_port == to_port,
            r.config_path@ == config_path@,
            r.kube_context@ == kube_context@,
    {
        ForwardConfig { namespace, pod_or_service, bind_address, to_port, config_path, kube_context }
    }

    /// A builder whose fields start empty (port 0); an empty credentials path
    /// and an empty context select the defaults.
    pub fn builder() -> (r: ForwardConfigBuilder)
        ensures
            r@.namespace@.len() == 0,
            r@.pod_or_service@.len() == 0,
            r@.bind_address@.len() == 0,
            r@.to_port == 0,
            r@.config_path@.len() == 0,
            r@.kube_context@.len() == 0,
    {
        ForwardConfigBuilder {
            config: ForwardConfig::new(
                String::new(),
                String::new(),
                String::new(),
                0,
                String::new(),
                String::new(),
            ),
        }
    }
}

/// Sets the fields of a `ForwardConfig` one by one.
pub struct ForwardConfigBuilder {
    config: ForwardConfig,
}

impl View for ForwardConfigBuilder {
    type V = ForwardConfig;

    closed spec fn view(&self) -> ForwardConfig {
        self.config
    }
}

impl ForwardConfigBuilder {
    pub fn namespace(self, namespace: String) -> (r: ForwardConfigBuilder)
        ensures
            r@ == (ForwardConfig { namespace, ..self@ }),
    {
        ForwardConfigBuilder { config: ForwardConfig { namespace, ..self.config } }
    }

    pub fn pod_or_service(self, pod_or_service: String) -> (r: ForwardConfigBuilder)
        ensures
            r@ == (ForwardConfig { pod_or_service, ..self@ }),
    {
        ForwardConfigBuilder { config: ForwardConfig { pod_or_service, ..self.config } }
    }

    pub fn bind_address(self, bind_address: String) -> (r: ForwardConfigBuilder)
        ensures
            r@ == (ForwardConfig { bind_address, ..self@ }),
    {
        ForwardConfigBuilder { config: ForwardConfig { bind_address, ..self.config } }
    }

    pub fn to_port(self, to_port: u16) -> (r: ForwardConfigBuilder)
        ensures
            r@ == (ForwardConfig { to_port, ..self@ }),
    {
        ForwardConfigBuilder { config: ForwardConfig { to_port, ..self.config } }
    }

    pub fn config_path(self, config_path: String) -> (r: ForwardConfigBuilder)
        ensures
            r@ == (ForwardConfig { config_path, ..self@ }),
    {
        ForwardConfigBuilder { config: ForwardConfig { config_path, ..self.config } }
    }

    pub fn kube_context(self, kube_context: String) -> (r: ForwardConfigBuilder)
        ensures
            r@ == (ForwardConfig { kube_context, ..self@ }),
    {
        ForwardConfigBuilder { config: ForwardConfig { kube_context, ..self.config } }
    }

    pub fn build(self) -> (r: ForwardConfig)
        ensures
            r == self@,
    {
        self.config
    }
}

/// Where the cluster client takes its credentials from.
#[derive(Clone, Debug)]
pub enum ConfigSource {
    /// The ambient credentials of a pod running inside the cluster.
    InCluster,
    /// The credentials file, with the named context, or its current context
    /// for `None`.
    Kubeconfig(Option<String>),
}

/// Chooses the credentials: without a file at the configured path the ambient
/// in-cluster credentials are used; an empty context name stands for the
/// file's current context.
pub fn config_source(config_file_exists: bool, kube_context: &str) -> (r: ConfigSource)
    ensures
        !config_file_exists ==> r is InCluster,
        config_file_exists && kube_context@.len() == 0 ==> r == ConfigSource::Kubeconfig(None),
        config_file_exists && kube_context@.len() > 0 ==> r is Kubeconfig
            && r->Kubeconfig_0 is Some && r->Kubeconfig_0->Some_0@ == kube_context@,
{
    if !config_file_exists {
        ConfigSource::InCluster
    } else if kube_context.is_empty() {
        ConfigSource::Kubeconfig(None)
    } else {
        ConfigSource::Kubeconfig(Some(kube_context.to_owned()))
    }
}

} // verus!
