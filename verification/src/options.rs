//! The settings of a remote-run target.

use vstd::prelude::*;

verus! {

/// Settings of a target that runs shell commands before the login.
#[derive(Debug, PartialEq, Eq)]
pub struct BashOptions {
    /// The commands, in order; `None` when the setting is absent.
    pub pre_login_commands: Option<Vec<String>>,
}

/// Settings of a target whose host comes from a provisioning service.
#[derive(Debug, PartialEq, Eq)]
pub struct ProvisionOptions {
    /// Where the service answers.
    pub provision_url: String,
}

/// Settings of a target that is a pod of a Kubernetes cluster.
#[derive(Debug, PartialEq, Eq)]
pub struct KubernetesOptions {
    /// Path of the kubeconfig file of the cluster.
    pub kubeconfig: String,
    /// Label selector that picks the pod.
    pub pod_selector: String,
}

/// How a remote-run target is reached.
#[derive(Debug, PartialEq, Eq)]
pub enum RemoteRunMode {
    Bash(BashOptions),
    Provision(ProvisionOptions),
    Kubernetes(KubernetesOptions),
}

/// The settings of a remote-run target.
#[derive(Debug, PartialEq, Eq)]
pub struct TargetRemoteRunOptions {
    pub mode: RemoteRunMode,
}

impl RemoteRunMode {
    /// The commands to run before the login: those of a Bash target, as they are set;
    /// none where the setting is absent or the target is of another mode.
    pub open spec fn pre_login_commands(self) -> Seq<Seq<char>> {
        match self {
            RemoteRunMode::Bash(opts) => match opts.pre_login_commands {
                Some(commands) => commands.deep_view(),
                None => Seq::empty(),
            },
            _ => Seq::empty(),
        }
    }
}

} // verus!
