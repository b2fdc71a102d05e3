//! The `kubectl` commands that find a pod and attach to it.

use vstd::prelude::*;

verus! {

/// How a command is started.
#[derive(Clone, Copy, Debug, PartialEq, Eq)]
pub enum Launch {
    /// Run to its end, with what it writes collected.
    Collect,
    /// Left running, with pipes to its standard input, output and error.
    Piped,
}

/// A command to start.
#[derive(Debug, PartialEq, Eq)]
pub struct CommandLine {
    pub program: String,
    pub args: Vec<String>,
    pub launch: Launch,
}

/// What a command came to that was run to its end.
#[derive(Debug, PartialEq, Eq)]
pub struct CommandOutput {
    /// Whether it exited with status zero.
    pub success: bool,
    pub stdout: Vec<u8>,
    pub stderr: Vec<u8>,
}

/// A [`CommandLine`] as characters.
pub struct CommandLineView {
    pub program: Seq<char>,
    pub args: Seq<Seq<char>>,
    pub launch: Launch,
}

impl View for CommandLine {
    type V = CommandLineView;

    open spec fn view(&self) -> CommandLineView {
        CommandLineView {
            program: self.program@,
            args: self.args.deep_view(),
            launch: self.launch,
        }
    }
}

/// The command that writes the name of the first pod that a selector matches.
pub open spec fn find_pod(kubeconfig: Seq<char>, pod_selector: Seq<char>) -> CommandLineView {
    CommandLineView {
        program: "kubectl"@,
        args: seq![
            "--kubeconfig"@,
            kubeconfig,
            "get"@,
            "pods"@,
            "-l"@,
            pod_selector,
            "-o"@,
            "jsonpath={.items[0].metadata.name}"@,
        ],
        launch: Launch::Collect,
    }
}

/// The command that runs a shell in a pod.
pub open spec fn attach(kubeconfig: Seq<char>, pod_name: Seq<char>) -> CommandLineView {
    CommandLineView {
        program: "kubectl"@,
        args: seq!["--kubeconfig"@, kubeconfig, "exec"@, "-it"@, pod_name, "--"@, "bash"@],
        launch: Launch::Piped,
    }
}

/// The command that writes the name of the first pod that a selector matches.
pub fn find_pod_command(kubeconfig: &str, pod_selector: &str) -> (command: CommandLine)
    ensures
        command@ == find_pod(kubeconfig@, pod_selector@),
        command.program@ == "kubectl"@,
        command.args@.len() == 8,
        command.args@[0]@ == "--kubeconfig"@,
        command.args@[1]@ == kubeconfig@,
        command.args@[2]@ == "get"@,
        command.args@[3]@ == "pods"@,
        command.args@[4]@ == "-l"@,
        command.args@[5]@ == pod_selector@,
        command.args@[6]@ == "-o"@,
        command.args@[7]@ == "jsonpath={.items[0].metadata.name}"@,
        command.launch is Collect,
{
    let mut args: Vec<String> = Vec::new();
    args.push("--kubeconfig".to_owned());
    args.push(kubeconfig.to_owned());
    args.push("get".to_owned());
    args.push("pods".to_owned());
    args.push("-l".to_owned());
    args.push(pod_selector.to_owned());
    args.push("-o".to_owned());
    args.push("jsonpath={.items[0].metadata.name}".to_owned());
    let command = CommandLine { program: "kubectl".to_owned(), args, launch: Launch::Collect };
    assert(command@.args =~= find_pod(kubeconfig@, pod_selector@).args);
    command
}

/// The command that runs a shell in a pod.
pub fn attach_command(kubeconfig: &str, pod_name: &str) -> (command: CommandLine)
    ensures
        command@ == attach(kubeconfig@, pod_name@),
        command.program@ == "kubectl"@,
        command.args@.len() == 7,
        command.args@[0]@ == "--kubeconfig"@,
        command.args@[1]@ == kubeconfig@,
        command.args@[2]@ == "exec"@,
        command.args@[3]@ == "-it"@,
        command.args@[4]@ == pod_name@,
        command.args@[5]@ == "--"@,
        command.args@[6]@ == "bash"@,
        command.launch is Piped,
{
    let mut args: Vec<String> = Vec::new();
    args.push("--kubeconfig".to_owned());
    args.push(kubeconfig.to_owned());
    args.push("exec".to_owned());
    args.push("-it".to_owned());
    args.push(pod_name.to_owned());
    args.push("--".to_owned());
    args.push("bash".to_owned());
    let command = CommandLine { program: "kubectl".to_owned(), args, launch: Launch::Piped };
    assert(command@.args =~= attach(kubeconfig@, pod_name@).args);
    command
}

} // verus!
