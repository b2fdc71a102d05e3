//! What to do for a remote-run target.

use vstd::prelude::*;
use vstd::utf8::{decode_utf8, valid_utf8};

use crate::error::RunnerError;
use crate::json;
use crate::kubectl;
use crate::kubectl::{CommandLine, CommandOutput};
use crate::options::{RemoteRunMode, TargetRemoteRunOptions};
use crate::provision;
use crate::text;

verus! {

/// Decides how one remote-run target is reached.
pub struct RemoteRunner {
    options: TargetRemoteRunOptions,
}

impl View for RemoteRunner {
    type V = TargetRemoteRunOptions;

    closed spec fn view(&self) -> TargetRemoteRunOptions {
        self.options
    }
}

impl RemoteRunner {
    pub fn new(options: TargetRemoteRunOptions) -> (runner: Self)
        ensures
            runner@ == options,
    {
        RemoteRunner { options }
    }

    /// The commands to run before the login.
    pub fn get_pre_login_commands(&self) -> (commands: Vec<String>)
        ensures
            commands.deep_view() == self@.mode.pre_login_commands(),
            self@.mode matches RemoteRunMode::Bash(opts) ==> (
            opts.pre_login_commands matches Some(set) ==> commands@.len() == set@.len() && forall|
                i: int,
            |
                0 <= i < set@.len() ==> (#[trigger] commands@[i])@ == set@[i]@),
            self@.mode matches RemoteRunMode::Bash(opts) ==> (opts.pre_login_commands is None
                ==> commands@.len() == 0),
            !(self@.mode is Bash) ==> commands@.len() == 0,
    {
        match &self.options.mode {
            RemoteRunMode::Bash(opts) => match &opts.pre_login_commands {
                Some(set) => {
                    let commands = set.clone();
                    assert(commands.deep_view() =~= set.deep_view());
                    commands
                },
                None => {
                    let commands: Vec<String> = Vec::new();
                    assert(commands.deep_view() =~= Seq::<Seq<char>>::empty());
                    commands
                },
            },
            _ => {
                let commands: Vec<String> = Vec::new();
                assert(commands.deep_view() =~= Seq::<Seq<char>>::empty());
                commands
            },
        }
    }

    /// Where to ask for a host, before [`provision`](Self::provision).
    pub fn provision_url(&self) -> (url: Result<&str, RunnerError>)
        ensures
            match self@.mode {
                RemoteRunMode::Provision(opts) => url matches Ok(url) && url@
                    == opts.provision_url@,
                _ => url matches Err(RunnerError::NotInProvisionMode),
            },
    {
        match &self.options.mode {
            RemoteRunMode::Provision(opts) => Ok(opts.provision_url.as_str()),
            _ => Err(RunnerError::NotInProvisionMode),
        }
    }

    /// The host, port and user name to connect to, out of the body that a `GET` of
    /// [`provision_url`](Self::provision_url) brought, whatever its status.
    pub fn provision(&self, body: &[u8]) -> (target: Result<(String, u16, String), RunnerError>)
        ensures
            match self@.mode {
                RemoteRunMode::Provision(_) => match json::parsed(body@) {
                    Ok(answer) => provision::is_outcome(target, provision::target_in(answer)),
                    Err(reason) => target matches Err(RunnerError::InvalidResponse(held)) && held@
                        == reason,
                },
                _ => target matches Err(RunnerError::NotInProvisionMode),
            },
    {
        match &self.options.mode {
            RemoteRunMode::Provision(_) => provision::decode_answer(body),
            _ => Err(RunnerError::NotInProvisionMode),
        }
    }

    /// The command that looks the pod up, to run before [`start_kubectl`](Self::start_kubectl).
    pub fn find_pod_command(&self) -> (command: Result<CommandLine, RunnerError>)
        ensures
            match self@.mode {
                RemoteRunMode::Kubernetes(opts) => command matches Ok(command) && command@
                    == kubectl::find_pod(opts.kubeconfig@, opts.pod_selector@),
                _ => command matches Err(RunnerError::NotInKubernetesMode),
            },
    {
        match &self.options.mode {
            RemoteRunMode::Kubernetes(opts) => Ok(
                kubectl::find_pod_command(opts.kubeconfig.as_str(), opts.pod_selector.as_str()),
            ),
            _ => Err(RunnerError::NotInKubernetesMode),
        }
    }

    /// The command that attaches to the pod, out of what
    /// [`find_pod_command`](Self::find_pod_command) came to.
    ///
    /// The pod's name is all that the lookup wrote to its standard output, as one argument.
    /// A lookup that failed is an error that holds what it wrote to its standard error.
    pub fn start_kubectl(&self, lookup: &CommandOutput) -> (command: Result<
        CommandLine,
        RunnerError,
    >)
        ensures
            match self@.mode {
                RemoteRunMode::Kubernetes(opts) => if lookup.success {
                    command matches Ok(command) && command@ == kubectl::attach(
                        opts.kubeconfig@,
                        text::lossy_text(lookup.stdout@),
                    )
                } else {
                    command matches Err(RunnerError::PodNotFound(stderr)) && stderr@
                        == text::lossy_text(lookup.stderr@)
                },
                _ => command matches Err(RunnerError::NotInKubernetesMode),
            },
            command matches Ok(command) ==> (valid_utf8(lookup.stdout@) ==> command.args@.len() > 4
                && command.args@[4]@ == decode_utf8(lookup.stdout@)),
            command matches Err(RunnerError::PodNotFound(stderr)) ==> (valid_utf8(lookup.stderr@)
                ==> stderr@ == decode_utf8(lookup.stderr@)),
    {
        match &self.options.mode {
            RemoteRunMode::Kubernetes(opts) => {
                if !lookup.success {
                    return Err(
                        RunnerError::PodNotFound(text::from_utf8_lossy(lookup.stderr.as_slice())),
                    );
                }
                let pod_name = text::from_utf8_lossy(lookup.stdout.as_slice());
                Ok(kubectl::attach_command(opts.kubeconfig.as_str(), pod_name.as_str()))
            },
            _ => Err(RunnerError::NotInKubernetesMode),
        }
    }
}

} // verus!
