use uuid::Uuid;
use warpgate_protocol_remoterun::session::message::{
    ChannelMsg, ChannelOperation, Input, PtyRequest, RCEvent, RusshCall, SshClientError, Step,
    X11Request,
};
use warpgate_protocol_remoterun::session::{SessionChannel, SessionChannelBackend};

const CHANNEL: u128 = 7;
const SESSION: u128 = 9;

fn id() -> Uuid {
    Uuid::from_u128(CHANNEL)
}

fn ssh() -> SessionChannel {
    SessionChannel::new(SessionChannelBackend::Russh, id(), Uuid::from_u128(SESSION))
}

fn process(stdin: bool, stdout: bool, stderr: bool) -> SessionChannel {
    SessionChannel::new(
        SessionChannelBackend::Process { stdin, stdout, stderr },
        id(),
        Uuid::from_u128(SESSION),
    )
}

fn operation(operation: ChannelOperation) -> Input {
    Input::Operation(Some(operation))
}

fn message(message: ChannelMsg) -> Input {
    Input::Message(Some(message))
}

fn pty() -> PtyRequest {
    PtyRequest {
        term: "xterm".to_string(),
        col_width: 80,
        row_height: 24,
        pix_width: 640,
        pix_height: 480,
        modes: vec![(russh::Pty::ECHO, 1)],
    }
}

fn x11() -> X11Request {
    X11Request {
        single_conection: true,
        x11_auth_protocol: "MIT-MAGIC-COOKIE-1".to_string(),
        x11_auth_cookie: "c0".to_string(),
        x11_screen_number: 3,
    }
}

fn every_operation() -> Vec<ChannelOperation> {
    vec![
        ChannelOperation::OpenShell,
        ChannelOperation::OpenDirectTCPIP,
        ChannelOperation::OpenDirectStreamlocal,
        ChannelOperation::OpenX11,
        ChannelOperation::RequestPty(pty()),
        ChannelOperation::ResizePty(pty()),
        ChannelOperation::RequestShell,
        ChannelOperation::RequestEnv("A".to_string(), "b".to_string()),
        ChannelOperation::RequestExec("ls".to_string()),
        ChannelOperation::RequestX11(x11()),
        ChannelOperation::AgentForward,
        ChannelOperation::RequestSubsystem("sftp".to_string()),
        ChannelOperation::Data(vec![1]),
        ChannelOperation::ExtendedData { ext: 1, data: vec![2] },
        ChannelOperation::Signal(russh::Sig::INT),
        ChannelOperation::Eof,
    ]
}

fn sent(step: Step) -> RCEvent {
    match step {
        Step::Send(event) => event,
        other => panic!("{other:?}"),
    }
}

fn called(input: ChannelOperation) -> RusshCall {
    match ssh().run(operation(input)) {
        Step::Call(call) => call,
        other => panic!("{other:?}"),
    }
}

fn finished(step: Step) -> (Result<(), SshClientError>, Option<RCEvent>) {
    match step {
        Step::Finish { result, last } => (result, last),
        other => panic!("{other:?}"),
    }
}

fn closed_well() -> (Result<(), SshClientError>, Option<RCEvent>) {
    (Ok(()), Some(RCEvent::Close(id())))
}

#[test]
fn a_channel_keeps_its_identity() {
    let mut channel = ssh();
    channel.run(Input::Operation(None));
    assert_eq!(channel.channel_id(), id());
    assert_eq!(channel.session_id(), Uuid::from_u128(SESSION));
}

#[test]
fn a_channel_waits_for_the_backend_that_it_has() {
    assert!(ssh().waits_for_messages());
    assert!(!ssh().reads_stdout());
    assert!(!ssh().reads_stderr());
    assert!(!process(true, true, true).waits_for_messages());
    assert!(process(false, true, false).reads_stdout());
    assert!(!process(false, true, false).reads_stderr());
    assert!(!process(false, false, true).reads_stdout());
    assert!(process(false, false, true).reads_stderr());
}

#[test]
fn operations_become_calls() {
    assert!(matches!(called(ChannelOperation::Data(vec![1, 2])),
        RusshCall::Data { data } if data == [1, 2]));
    assert!(matches!(called(ChannelOperation::ExtendedData { ext: 5, data: vec![3] }),
        RusshCall::ExtendedData { ext: 5, data } if data == [3]));
    assert!(matches!(called(ChannelOperation::RequestPty(pty())),
        RusshCall::RequestPty { want_reply: true, pty }
            if pty.term == "xterm" && pty.col_width == 80 && pty.row_height == 24
                && pty.pix_width == 640 && pty.pix_height == 480
                && pty.modes == [(russh::Pty::ECHO, 1)]));
    assert!(matches!(
        called(ChannelOperation::ResizePty(pty())),
        RusshCall::WindowChange {
            col_width: 80,
            row_height: 24,
            pix_width: 640,
            pix_height: 480
        }
    ));
    assert!(matches!(
        called(ChannelOperation::RequestShell),
        RusshCall::RequestShell { want_reply: true }
    ));
    assert!(matches!(called(ChannelOperation::RequestEnv("A".to_string(), "b".to_string())),
        RusshCall::SetEnv { want_reply: false, name, value } if name == "A" && value == "b"));
    assert!(matches!(called(ChannelOperation::RequestExec("ls".to_string())),
        RusshCall::Exec { want_reply: false, command } if command == "ls"));
    assert!(matches!(called(ChannelOperation::RequestSubsystem("sftp".to_string())),
        RusshCall::RequestSubsystem { want_reply: false, name } if name == "sftp"));
    assert!(matches!(called(ChannelOperation::Eof), RusshCall::Eof));
    assert!(matches!(
        called(ChannelOperation::Signal(russh::Sig::INT)),
        RusshCall::Signal { signal: russh::Sig::INT }
    ));
    assert!(matches!(called(ChannelOperation::RequestX11(x11())),
        RusshCall::RequestX11 { want_reply: true, x11 }
            if x11.single_conection && x11.x11_auth_protocol == "MIT-MAGIC-COOKIE-1"
                && x11.x11_auth_cookie == "c0" && x11.x11_screen_number == 3));
    assert!(matches!(
        called(ChannelOperation::AgentForward),
        RusshCall::AgentForward { want_reply: true }
    ));
}

#[test]
fn an_open_channel_passes_over_requests_to_open_one() {
    for input in [
        ChannelOperation::OpenShell,
        ChannelOperation::OpenDirectTCPIP,
        ChannelOperation::OpenDirectStreamlocal,
        ChannelOperation::OpenX11,
    ] {
        assert!(matches!(ssh().run(operation(input)), Step::Continue));
    }
}

#[test]
fn a_process_gets_data_and_nothing_else() {
    let mut channel = process(true, true, true);
    for input in every_operation() {
        let data = matches!(input, ChannelOperation::Data(_));
        match channel.run(operation(input)) {
            Step::WriteStdin(bytes) => {
                assert!(data);
                assert_eq!(bytes, vec![1]);
            }
            Step::Continue => assert!(!data),
            other => panic!("{other:?}"),
        }
    }
    let mut channel = process(false, true, true);
    assert!(matches!(
        channel.run(operation(ChannelOperation::Data(vec![1]))),
        Step::Continue
    ));
}

#[test]
fn messages_become_events() {
    let mut channel = ssh();
    assert_eq!(
        sent(channel.run(message(ChannelMsg::Data { data: vec![1, 2] }))),
        RCEvent::Output(id(), vec![1, 2])
    );
    assert_eq!(
        sent(channel.run(message(ChannelMsg::Data { data: vec![] }))),
        RCEvent::Output(id(), vec![])
    );
    assert_eq!(
        sent(channel.run(message(ChannelMsg::ExtendedData { data: vec![3], ext: 4 }))),
        RCEvent::ExtendedData { channel: id(), data: vec![3], ext: 4 }
    );
    assert_eq!(sent(channel.run(message(ChannelMsg::Success))), RCEvent::Success(id()));
    assert_eq!(
        sent(channel.run(message(ChannelMsg::Failure))),
        RCEvent::ChannelFailure(id())
    );
    assert_eq!(sent(channel.run(message(ChannelMsg::Eof))), RCEvent::Eof(id()));
    assert_eq!(
        sent(channel.run(message(ChannelMsg::ExitStatus { exit_status: 130 }))),
        RCEvent::ExitStatus(id(), 130)
    );
    assert!(matches!(channel.run(message(ChannelMsg::Other)), Step::Continue));
    assert!(matches!(channel.run(Input::Message(None)), Step::Continue));
    assert_eq!(channel.close(), Some(RCEvent::Close(id())));
}

#[test]
fn what_a_process_writes_becomes_events() {
    let mut channel = process(true, true, true);
    assert_eq!(
        sent(channel.run(Input::Stdout(Some(vec![1])))),
        RCEvent::Output(id(), vec![1])
    );
    assert_eq!(
        sent(channel.run(Input::Stderr(Some(vec![2])))),
        RCEvent::ExtendedData { channel: id(), data: vec![2], ext: 1 }
    );
    assert!(matches!(channel.run(Input::Stderr(Some(vec![]))), Step::Continue));
    assert!(matches!(channel.run(Input::Stderr(None)), Step::Continue));
}

#[test]
fn the_loop_is_left_without_error() {
    let mut channel = ssh();
    assert_eq!(finished(channel.run(Input::Operation(None))), closed_well());
    let mut channel = process(true, true, true);
    assert_eq!(finished(channel.run(operation(ChannelOperation::Close))), closed_well());
    let mut channel = ssh();
    assert_eq!(finished(channel.run(message(ChannelMsg::Close))), closed_well());
    let mut channel = process(true, true, true);
    assert_eq!(finished(channel.run(Input::Stdout(Some(vec![])))), closed_well());
    let mut channel = process(true, true, true);
    assert_eq!(finished(channel.run(Input::Stdout(None))), closed_well());
}

#[test]
fn the_loop_is_left_with_an_error() {
    let close = Some(RCEvent::Close(id()));
    let mut channel = ssh();
    assert_eq!(
        finished(channel.run(Input::CallFailed)),
        (Err(SshClientError::Russh), close)
    );
    let close = Some(RCEvent::Close(id()));
    let mut channel = process(true, true, true);
    assert_eq!(
        finished(channel.run(Input::CallFailed)),
        (Err(SshClientError::Io), close)
    );
    let close = Some(RCEvent::Close(id()));
    let mut channel = ssh();
    assert_eq!(
        finished(channel.run(Input::SendFailed)),
        (Err(SshClientError::MpscError), close)
    );
}

#[test]
fn the_end_is_reported_once() {
    let mut channel = ssh();
    assert_eq!(channel.close(), Some(RCEvent::Close(id())));
    assert_eq!(channel.close(), None);
    assert_eq!(finished(channel.run(Input::Operation(None))), (Ok(()), None));

    let mut channel = ssh();
    channel.run(Input::SendFailed);
    assert_eq!(channel.close(), None);
}

#[test]
fn bytes_pass_through_in_order() {
    let mut channel = process(true, true, true);
    let mut written = Vec::new();
    let mut reported = Vec::new();
    let mut errors = Vec::new();
    for input in [
        operation(ChannelOperation::Data(vec![1, 2])),
        Input::Stdout(Some(vec![10])),
        operation(ChannelOperation::Eof),
        Input::Stderr(Some(vec![20, 21])),
        Input::Stdout(Some(vec![11, 12])),
        operation(ChannelOperation::Data(vec![3])),
    ] {
        match channel.run(input) {
            Step::WriteStdin(data) => written.extend(data),
            Step::Send(RCEvent::Output(_, data)) => reported.extend(data),
            Step::Send(RCEvent::ExtendedData { data, ext: 1, .. }) => errors.extend(data),
            Step::Continue => {}
            other => panic!("{other:?}"),
        }
    }
    assert_eq!(written, vec![1, 2, 3]);
    assert_eq!(reported, vec![10, 11, 12]);
    assert_eq!(errors, vec![20, 21]);
}
