//! What holds of a remote-run target across the functions of
//! [`RemoteRunner`](crate::runner::RemoteRunner).

use vstd::prelude::*;
use vstd::utf8::{
    decode_utf8_encode_utf8, encode_utf8, encode_utf8_decode_utf8, encode_utf8_valid_utf8,
    valid_utf8,
};

use crate::error::RunnerError;
use crate::json::Json;
use crate::kubectl;
use crate::kubectl::CommandLine;
use crate::options::{BashOptions, KubernetesOptions, ProvisionOptions, RemoteRunMode};
use crate::provision;
use crate::text;

verus! {

/// Only a Bash target has commands to run before the login.
pub proof fn law_only_bash_runs_commands(mode: RemoteRunMode)
    ensures
        mode.pre_login_commands().len() > 0 ==> mode is Bash,
{
}

/// A Bash target runs the commands that are set, all of them, in their order and as they are
/// written.
pub proof fn law_commands_run_as_set(set: Vec<String>)
    ensures
        ({
            let mode = RemoteRunMode::Bash(BashOptions { pre_login_commands: Some(set) });
            &&& mode.pre_login_commands().len() == set@.len()
            &&& forall|i: int|
                0 <= i < set@.len() ==> #[trigger] mode.pre_login_commands()[i] == set@[i]@
        }),
{
}

/// A Bash target without the setting runs no commands, and neither does a target of another
/// mode.
pub proof fn law_no_setting_no_commands(provision: ProvisionOptions, pod: KubernetesOptions)
    ensures
        RemoteRunMode::Bash(
            BashOptions { pre_login_commands: None },
        ).pre_login_commands().len() == 0,
        RemoteRunMode::Provision(provision).pre_login_commands().len() == 0,
        RemoteRunMode::Kubernetes(pod).pre_login_commands().len() == 0,
{
}

/// An answer names a target exactly if its `host` is a string.
pub proof fn law_target_needs_host_only(answer: Json)
    ensures
        provision::target_in(answer) is Some <==> answer.member("host"@) is Text,
{
}

/// An answer that is no object names no target.
pub proof fn law_target_needs_object(answer: Json)
    requires
        !(answer is Object),
    ensures
        provision::target_in(answer) is None,
{
}

/// An answer with nothing but a host stands for the SSH port and `root`; so does one whose
/// port is no number that fits `u64` and whose user name is no string.
pub proof fn law_port_and_user_have_defaults(answer: Json, host: Seq<char>)
    requires
        answer.member("host"@) == Json::Text(host),
        !(answer.member("port"@) is Unsigned),
        !(answer.member("username"@) is Text),
    ensures
        provision::target_in(answer) == Some((host, 22int, "root"@)),
{
}

/// What an answer with a host comes to is a target, and its host is the one that stands under
/// `host`, whatever the port and the user name are.
pub proof fn law_host_is_the_member_host(
    members: Map<Seq<char>, Json>,
    host: Seq<char>,
    outcome: Result<(String, u16, String), RunnerError>,
)
    requires
        members.dom().contains("host"@),
        members["host"@] == Json::Text(host),
        provision::is_outcome(outcome, provision::target_in(Json::Object(members))),
    ensures
        outcome matches Ok(target) && target.0@ == host,
{
}

/// What an answer without a host comes to is the error that says so, whatever else it holds.
pub proof fn law_no_host_is_an_error(
    answer: Json,
    outcome: Result<(String, u16, String), RunnerError>,
)
    requires
        answer matches Json::Object(members) ==> (members.dom().contains("host"@) ==> !(
        members["host"@] is Text)),
        provision::is_outcome(outcome, provision::target_in(answer)),
    ensures
        outcome matches Err(error) && error is MissingHost,
{
}

/// The port of a target is 22 where the answer has no `port` that is a number and fits `u64`,
/// whatever the host and the user name are.
pub proof fn law_port_defaults_by_itself(
    members: Map<Seq<char>, Json>,
    target: (String, u16, String),
)
    requires
        members.dom().contains("port"@) ==> !(members["port"@] is Unsigned),
        provision::is_outcome(Ok(target), provision::target_in(Json::Object(members))),
    ensures
        target.1 == 22,
{
}

/// The port of a target is the one that stands under `port`, but for multiples of 2 to the 16,
/// whatever the host and the user name are.
pub proof fn law_port_is_the_member_port(
    members: Map<Seq<char>, Json>,
    port: u64,
    target: (String, u16, String),
)
    requires
        members.dom().contains("port"@),
        members["port"@] == Json::Unsigned(port),
        provision::is_outcome(Ok(target), provision::target_in(Json::Object(members))),
    ensures
        port <= u16::MAX ==> target.1 == port,
        (port - target.1) % 0x1_0000 == 0,
{
}

/// The user name of a target is `root` where the answer has no `username` that is a string,
/// whatever the host and the port are.
pub proof fn law_user_defaults_by_itself(
    members: Map<Seq<char>, Json>,
    target: (String, u16, String),
)
    requires
        members.dom().contains("username"@) ==> !(members["username"@] is Text),
        provision::is_outcome(Ok(target), provision::target_in(Json::Object(members))),
    ensures
        target.2@ == "root"@,
{
}

/// The user name of a target is the one that stands under `username`, whatever the host and
/// the port are.
pub proof fn law_user_is_the_member_username(
    members: Map<Seq<char>, Json>,
    username: Seq<char>,
    target: (String, u16, String),
)
    requires
        members.dom().contains("username"@),
        members["username"@] == Json::Text(username),
        provision::is_outcome(Ok(target), provision::target_in(Json::Object(members))),
    ensures
        target.2@ == username,
{
}

/// A target depends on the members `host`, `port` and `username` of an answer and on nothing
/// else in it.
pub proof fn law_other_members_do_not_matter(answer: Json, other: Json)
    requires
        answer.member("host"@) == other.member("host"@),
        answer.member("port"@) == other.member("port"@),
        answer.member("username"@) == other.member("username"@),
    ensures
        provision::target_in(answer) == provision::target_in(other),
{
}

/// A port that an answer names is taken as it is where it is a port.
pub proof fn law_port_is_kept(host: Seq<char>, port: u64, username: Option<Seq<char>>)
    requires
        port <= u16::MAX,
    ensures
        provision::target_of(Some(host), Some(port), username) matches Some(target) && target.1
            == port,
{
}

/// Whatever an answer holds, the port of its target is one.
pub proof fn law_port_is_in_range(answer: Json)
    ensures
        provision::target_in(answer) matches Some(target) ==> 0 <= target.1 <= u16::MAX,
{
}

/// The lookup asks the cluster of the kubeconfig for the pods that the selector matches, for
/// the name of the first of them and for nothing else, and what it writes is collected. The
/// kubeconfig and the selector are arguments of their own, as they are set.
pub proof fn law_lookup_arguments(kubeconfig: Seq<char>, pod_selector: Seq<char>)
    ensures
        kubectl::find_pod(kubeconfig, pod_selector).program == "kubectl"@,
        kubectl::find_pod(kubeconfig, pod_selector).args == seq![
            "--kubeconfig"@,
            kubeconfig,
            "get"@,
            "pods"@,
            "-l"@,
            pod_selector,
            "-o"@,
            "jsonpath={.items[0].metadata.name}"@,
        ],
        kubectl::find_pod(kubeconfig, pod_selector).launch is Collect,
{
}

/// The attachment runs `bash` in the very pod that is named, with a terminal and pipes. The
/// kubeconfig and the pod's name are arguments of their own, as they are given.
pub proof fn law_attach_arguments(kubeconfig: Seq<char>, pod_name: Seq<char>)
    ensures
        kubectl::attach(kubeconfig, pod_name).program == "kubectl"@,
        kubectl::attach(kubeconfig, pod_name).args == seq![
            "--kubeconfig"@,
            kubeconfig,
            "exec"@,
            "-it"@,
            pod_name,
            "--"@,
            "bash"@,
        ],
        kubectl::attach(kubeconfig, pod_name).launch is Piped,
{
}

/// A command is seen whole: its program, each of its arguments and the way it is started.
pub proof fn law_command_is_seen_whole(command: CommandLine)
    ensures
        command@.program == command.program@,
        command@.args.len() == command.args@.len(),
        forall|i: int|
            0 <= i < command.args@.len() ==> #[trigger] command@.args[i] == command.args@[i]@,
        command@.launch == command.launch,
{
}

/// Both commands address the same cluster.
pub proof fn law_commands_share_cluster(
    kubeconfig: Seq<char>,
    pod_selector: Seq<char>,
    pod_name: Seq<char>,
)
    ensures
        kubectl::find_pod(kubeconfig, pod_selector).program == kubectl::attach(
            kubeconfig,
            pod_name,
        ).program,
        kubectl::find_pod(kubeconfig, pod_selector).args.take(2) == kubectl::attach(
            kubeconfig,
            pod_name,
        ).args.take(2),
{
    assert(kubectl::find_pod(kubeconfig, pod_selector).args.take(2) =~= seq![
        "--kubeconfig"@,
        kubeconfig,
    ]);
    assert(kubectl::attach(kubeconfig, pod_name).args.take(2) =~= seq![
        "--kubeconfig"@,
        kubeconfig,
    ]);
}

/// Targets with other settings get other commands: a setting is one argument, whatever
/// characters it holds.
pub proof fn law_commands_tell_settings_apart(
    kubeconfig: Seq<char>,
    pod: Seq<char>,
    other_kubeconfig: Seq<char>,
    other_pod: Seq<char>,
)
    ensures
        kubectl::find_pod(kubeconfig, pod) == kubectl::find_pod(other_kubeconfig, other_pod) ==> (
        kubeconfig == other_kubeconfig && pod == other_pod),
        kubectl::attach(kubeconfig, pod) == kubectl::attach(other_kubeconfig, other_pod) ==> (
        kubeconfig == other_kubeconfig && pod == other_pod),
{
    assert(kubectl::find_pod(kubeconfig, pod).args[1] == kubeconfig);
    assert(kubectl::find_pod(other_kubeconfig, other_pod).args[1] == other_kubeconfig);
    assert(kubectl::find_pod(kubeconfig, pod).args[5] == pod);
    assert(kubectl::find_pod(other_kubeconfig, other_pod).args[5] == other_pod);
    assert(kubectl::attach(kubeconfig, pod).args[1] == kubeconfig);
    assert(kubectl::attach(other_kubeconfig, other_pod).args[1] == other_kubeconfig);
    assert(kubectl::attach(kubeconfig, pod).args[4] == pod);
    assert(kubectl::attach(other_kubeconfig, other_pod).args[4] == other_pod);
}

/// The pod that is attached to is the one whose name the lookup wrote.
pub proof fn law_pod_name_passes_through(kubeconfig: Seq<char>, pod_name: Seq<char>)
    ensures
        text::lossy_text(encode_utf8(pod_name)) == pod_name,
        kubectl::attach(kubeconfig, text::lossy_text(encode_utf8(pod_name))).args[4] == pod_name,
        kubectl::attach(kubeconfig, text::lossy_text(encode_utf8(pod_name))) == kubectl::attach(
            kubeconfig,
            pod_name,
        ),
{
    encode_utf8_valid_utf8(pod_name);
    encode_utf8_decode_utf8(pod_name);
}

/// Text that a command wrote in UTF-8 is read as it was written: encoded again, it gives the
/// same bytes. Other bytes are repaired.
pub proof fn law_text_is_read_as_written(bytes: Seq<u8>)
    ensures
        valid_utf8(bytes) ==> encode_utf8(text::lossy_text(bytes)) == bytes,
        !valid_utf8(bytes) ==> text::lossy_text(bytes) == text::repaired_utf8(bytes),
{
    if valid_utf8(bytes) {
        decode_utf8_encode_utf8(bytes);
    }
}

/// The message of each error, for whatever it holds: a failed lookup is reported with what
/// `kubectl` wrote, in full and behind a fixed heading.
pub proof fn law_messages(held: String)
    ensures
        RunnerError::NotInProvisionMode.text() == "Not in provision mode"@,
        RunnerError::NotInKubernetesMode.text() == "Not in kubernetes mode"@,
        RunnerError::InvalidResponse(held).text() == "error decoding response body"@,
        RunnerError::MissingHost.text() == "Missing host in provision response"@,
        RunnerError::PodNotFound(held).text() == "Failed to find pod: "@ + held@,
{
}

} // verus!
