use warpgate_protocol_remoterun::error::RunnerError;
use warpgate_protocol_remoterun::kubectl::{
    attach_command, find_pod_command, CommandLine, CommandOutput, Launch,
};
use warpgate_protocol_remoterun::options::{
    BashOptions, KubernetesOptions, ProvisionOptions, RemoteRunMode, TargetRemoteRunOptions,
};
use warpgate_protocol_remoterun::provision::{
    decode_answer, target_from_fields, target_from_value,
};
use warpgate_protocol_remoterun::runner::RemoteRunner;

fn bash(commands: Option<Vec<&str>>) -> RemoteRunner {
    RemoteRunner::new(TargetRemoteRunOptions {
        mode: RemoteRunMode::Bash(BashOptions {
            pre_login_commands: commands
                .map(|commands| commands.into_iter().map(String::from).collect()),
        }),
    })
}

fn provision() -> RemoteRunner {
    RemoteRunner::new(TargetRemoteRunOptions {
        mode: RemoteRunMode::Provision(ProvisionOptions {
            provision_url: "https://hosts.example/next".to_string(),
        }),
    })
}

fn kubernetes() -> RemoteRunner {
    RemoteRunner::new(TargetRemoteRunOptions {
        mode: RemoteRunMode::Kubernetes(KubernetesOptions {
            kubeconfig: "/etc/kube/config".to_string(),
            pod_selector: "app=shell,tier in (a, b)".to_string(),
        }),
    })
}

fn found(stdout: &[u8]) -> CommandOutput {
    CommandOutput {
        success: true,
        stdout: stdout.to_vec(),
        stderr: b"warning".to_vec(),
    }
}

fn args(command: &CommandLine) -> Vec<&str> {
    command.args.iter().map(String::as_str).collect()
}

fn target(host: &str, port: u16, username: &str) -> (String, u16, String) {
    (host.to_string(), port, username.to_string())
}

#[test]
fn pre_login_commands_are_those_of_a_bash_target() {
    let runner = bash(Some(vec!["whoami", "", "ls -l"]));
    assert_eq!(runner.get_pre_login_commands(), vec!["whoami", "", "ls -l"]);
    assert!(bash(Some(vec![])).get_pre_login_commands().is_empty());
    assert!(bash(None).get_pre_login_commands().is_empty());
    assert!(provision().get_pre_login_commands().is_empty());
    assert!(kubernetes().get_pre_login_commands().is_empty());
}

#[test]
fn provision_url_is_that_of_a_provision_target() {
    assert_eq!(provision().provision_url().unwrap(), "https://hosts.example/next");
    assert!(matches!(bash(None).provision_url(), Err(RunnerError::NotInProvisionMode)));
    assert!(matches!(kubernetes().provision_url(), Err(RunnerError::NotInProvisionMode)));
}

#[test]
fn provision_reads_all_three_fields() {
    let body = br#"{"host": "10.0.0.7", "port": 2222, "username": "deploy", "ttl": 60}"#;
    assert_eq!(provision().provision(body).unwrap(), target("10.0.0.7", 2222, "deploy"));
}

#[test]
fn provision_has_defaults() {
    let body = br#"{"host": "h"}"#;
    assert_eq!(provision().provision(body).unwrap(), target("h", 22, "root"));
    let body = br#"{"host": "", "port": null, "username": null}"#;
    assert_eq!(provision().provision(body).unwrap(), target("", 22, "root"));
    let body = br#"{"host": "h", "port": "2222", "username": 7}"#;
    assert_eq!(provision().provision(body).unwrap(), target("h", 22, "root"));
    let body = br#"{"host": "h", "port": -1}"#;
    assert_eq!(provision().provision(body).unwrap(), target("h", 22, "root"));
    let body = br#"{"host": "h", "port": 2222.0}"#;
    assert_eq!(provision().provision(body).unwrap(), target("h", 22, "root"));
    let body = br#"{"host": "h", "port": 18446744073709551616}"#;
    assert_eq!(provision().provision(body).unwrap(), target("h", 22, "root"));
}

#[test]
fn provision_cuts_a_port_to_sixteen_bits() {
    let body = br#"{"host": "h", "port": 65535}"#;
    assert_eq!(provision().provision(body).unwrap().1, 65535);
    let body = br#"{"host": "h", "port": 65536}"#;
    assert_eq!(provision().provision(body).unwrap().1, 0);
    let body = br#"{"host": "h", "port": 70000}"#;
    assert_eq!(provision().provision(body).unwrap().1, 4464);
    let body = br#"{"host": "h", "port": 18446744073709551615}"#;
    assert_eq!(provision().provision(body).unwrap().1, 65535);
}

#[test]
fn provision_reads_escapes_and_the_last_of_equal_keys() {
    let body = br#"{"host": "a", "host": "b\u00e9\n"}"#;
    assert_eq!(provision().provision(body).unwrap().0, "b\u{e9}\n");
}

#[test]
fn provision_needs_a_host() {
    for body in [
        &b"{}"[..],
        &br#"{"host": null}"#[..],
        &br#"{"host": 5, "port": 22}"#[..],
        &br#"{"Host": "h"}"#[..],
        &br#"["host"]"#[..],
        &br#""host""#[..],
        &b"null"[..],
        &b"22"[..],
    ] {
        assert!(matches!(provision().provision(body), Err(RunnerError::MissingHost)));
    }
}

#[test]
fn provision_needs_json() {
    for body in [
        &b""[..],
        &b"not found"[..],
        &br#"{"host": "h""#[..],
        &br#"{"host": "h"} x"#[..],
        &b"{\"host\": \"\xff\"}"[..],
    ] {
        assert!(matches!(provision().provision(body), Err(RunnerError::InvalidResponse(_))));
    }
}

#[test]
fn provision_says_why_a_body_is_not_json() {
    assert_eq!(
        provision().provision(b""),
        Err(RunnerError::InvalidResponse(
            "EOF while parsing a value at line 1 column 0".to_string()
        ))
    );
    let body = br#"{"host": "h"} x"#;
    assert_eq!(
        provision().provision(body),
        Err(RunnerError::InvalidResponse(
            "trailing characters at line 1 column 15".to_string()
        ))
    );
    assert_eq!(decode_answer(body), provision().provision(body));
}

#[test]
fn provision_needs_provision_mode() {
    let body = br#"{"host": "h"}"#;
    assert!(matches!(bash(None).provision(body), Err(RunnerError::NotInProvisionMode)));
    assert!(matches!(kubernetes().provision(b""), Err(RunnerError::NotInProvisionMode)));
}

#[test]
fn answers_are_decoded_in_three_stages() {
    let body = br#"{"host": "h", "port": 1, "username": "u"}"#;
    let value: serde_json::Value = serde_json::from_slice(body).unwrap();
    assert_eq!(decode_answer(body).unwrap(), target("h", 1, "u"));
    assert_eq!(target_from_value(&value).unwrap(), target("h", 1, "u"));
    assert_eq!(
        target_from_fields(Some("h"), Some(1), Some("u")).unwrap(),
        target("h", 1, "u")
    );
    assert!(matches!(
        target_from_fields(None, Some(1), Some("u")),
        Err(RunnerError::MissingHost)
    ));
}

#[test]
fn find_pod_asks_for_the_first_pod_of_the_selector() {
    let command = kubernetes().find_pod_command().unwrap();
    assert_eq!(command.program, "kubectl");
    assert_eq!(
        args(&command),
        vec![
            "--kubeconfig",
            "/etc/kube/config",
            "get",
            "pods",
            "-l",
            "app=shell,tier in (a, b)",
            "-o",
            "jsonpath={.items[0].metadata.name}",
        ]
    );
    assert_eq!(command.launch, Launch::Collect);
    assert_eq!(command, find_pod_command("/etc/kube/config", "app=shell,tier in (a, b)"));
}

#[test]
fn start_kubectl_attaches_to_the_pod_that_was_found() {
    let command = kubernetes().start_kubectl(&found(b"shell-0")).unwrap();
    assert_eq!(command.program, "kubectl");
    assert_eq!(
        args(&command),
        vec!["--kubeconfig", "/etc/kube/config", "exec", "-it", "shell-0", "--", "bash"]
    );
    assert_eq!(command.launch, Launch::Piped);
    assert_eq!(command, attach_command("/etc/kube/config", "shell-0"));
}

#[test]
fn start_kubectl_takes_the_name_as_it_was_written() {
    let command = kubernetes().start_kubectl(&found(" a b\n".as_bytes())).unwrap();
    assert_eq!(command.args[4], " a b\n");
    let command = kubernetes().start_kubectl(&found("caf\u{e9}".as_bytes())).unwrap();
    assert_eq!(command.args[4], "caf\u{e9}");
    let command = kubernetes().start_kubectl(&found(b"")).unwrap();
    assert_eq!(command.args[4], "");
    let command = kubernetes().start_kubectl(&found(b"p\xffq")).unwrap();
    assert_eq!(command.args[4], "p\u{fffd}q");
}

#[test]
fn start_kubectl_reports_a_failed_lookup() {
    let lookup = CommandOutput {
        success: false,
        stdout: b"shell-0".to_vec(),
        stderr: b"no such \xfe".to_vec(),
    };
    let error = kubernetes().start_kubectl(&lookup).unwrap_err();
    assert!(matches!(&error, RunnerError::PodNotFound(stderr) if stderr == "no such \u{fffd}"));
    assert_eq!(error.message(), "Failed to find pod: no such \u{fffd}");
}

#[test]
fn kubectl_needs_kubernetes_mode() {
    for runner in [bash(None), provision()] {
        assert!(matches!(
            runner.find_pod_command(),
            Err(RunnerError::NotInKubernetesMode)
        ));
        assert!(matches!(
            runner.start_kubectl(&found(b"shell-0")),
            Err(RunnerError::NotInKubernetesMode)
        ));
    }
}

#[test]
fn both_commands_address_the_same_cluster() {
    let find = kubernetes().find_pod_command().unwrap();
    let attach = kubernetes().start_kubectl(&found(b"p")).unwrap();
    assert_eq!(find.program, attach.program);
    assert_eq!(find.args[..2], attach.args[..2]);
}

#[test]
fn errors_have_messages() {
    assert_eq!(RunnerError::NotInProvisionMode.message(), "Not in provision mode");
    assert_eq!(RunnerError::NotInKubernetesMode.message(), "Not in kubernetes mode");
    assert_eq!(RunnerError::MissingHost.message(), "Missing host in provision response");
    assert_eq!(
        provision().provision(b"").unwrap_err().message(),
        "error decoding response body"
    );
}
