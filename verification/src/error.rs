//! What can go wrong in [`RemoteRunner`](crate::runner::RemoteRunner).

use vstd::prelude::*;

verus! {

/// Why a remote-run target could not be reached.
#[derive(Debug, PartialEq, Eq)]
pub enum RunnerError {
    /// A host was asked for, and the target is not in provision mode.
    NotInProvisionMode,
    /// A pod was asked for, and the target is not in Kubernetes mode.
    NotInKubernetesMode,
    /// The provisioning service answered with something that is not JSON; holds what the
    /// parser says of it.
    InvalidResponse(String),
    /// The answer of the provisioning service names no host.
    MissingHost,
    /// `kubectl` failed to look the pod up; holds what it wrote to its standard error.
    PodNotFound(String),
}

impl RunnerError {
    /// The message for the user.
    pub open spec fn text(self) -> Seq<char> {
        match self {
            RunnerError::NotInProvisionMode => "Not in provision mode"@,
            RunnerError::NotInKubernetesMode => "Not in kubernetes mode"@,
            RunnerError::InvalidResponse(_) => "error decoding response body"@,
            RunnerError::MissingHost => "Missing host in provision response"@,
            RunnerError::PodNotFound(stderr) => "Failed to find pod: "@ + stderr@,
        }
    }

    /// The message for the user.
    pub fn message(&self) -> (message: String)
        ensures
            message@ == self.text(),
            self matches RunnerError::PodNotFound(stderr) ==> message@ == "Failed to find pod: "@
                + stderr@,
    {
        match self {
            RunnerError::NotInProvisionMode => "Not in provision mode".to_owned(),
            RunnerError::NotInKubernetesMode => "Not in kubernetes mode".to_owned(),
            RunnerError::InvalidResponse(_) => "error decoding response body".to_owned(),
            RunnerError::MissingHost => "Missing host in provision response".to_owned(),
            RunnerError::PodNotFound(stderr) => {
                let mut message = "Failed to find pod: ".to_owned();
                message.append(stderr.as_str());
                message
            },
        }
    }
}

} // verus!
