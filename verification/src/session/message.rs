//! What goes in and out of a session channel.

use vstd::prelude::*;

verus! {

/// The identifier of a channel or of a session.
#[verifier::external_type_specification]
#[verifier::external_body]
pub struct ExUuid(uuid::Uuid);

/// The code of a terminal mode.
#[verifier::external_type_specification]
#[verifier::external_body]
pub struct ExPty(russh::Pty);

/// A signal.
#[verifier::external_type_specification]
#[verifier::external_body]
pub struct ExSig(russh::Sig);

/// The identifier of a session.
pub type SessionId = uuid::Uuid;

/// The terminal that a client has.
#[derive(Debug)]
pub struct PtyRequest {
    pub term: String,
    pub col_width: u32,
    pub row_height: u32,
    pub pix_width: u32,
    pub pix_height: u32,
    pub modes: Vec<(russh::Pty, u32)>,
}

/// The X11 display that a client offers.
#[derive(Debug)]
pub struct X11Request {
    pub single_conection: bool,
    pub x11_auth_protocol: String,
    pub x11_auth_cookie: String,
    pub x11_screen_number: u32,
}

/// What the client side of the gateway asks of a channel.
///
/// The four `Open` operations are for whoever opens a channel; an open channel passes
/// over them.
#[derive(Debug)]
pub enum ChannelOperation {
    OpenShell,
    OpenDirectTCPIP,
    OpenDirectStreamlocal,
    OpenX11,
    RequestPty(PtyRequest),
    ResizePty(PtyRequest),
    RequestShell,
    RequestEnv(String, String),
    RequestExec(String),
    RequestX11(X11Request),
    AgentForward,
    RequestSubsystem(String),
    Data(Vec<u8>),
    ExtendedData { ext: u32, data: Vec<u8> },
    Close,
    Signal(russh::Sig),
    Eof,
}

/// What the remote end of an SSH channel sends.
#[derive(Debug)]
pub enum ChannelMsg {
    Data { data: Vec<u8> },
    ExtendedData { data: Vec<u8>, ext: u32 },
    Eof,
    Close,
    Success,
    Failure,
    ExitStatus { exit_status: u32 },
    /// Any other message.
    Other,
}

/// What a channel reports to the client side of the gateway.
#[derive(Debug, PartialEq, Eq)]
pub enum RCEvent {
    Output(uuid::Uuid, Vec<u8>),
    Success(uuid::Uuid),
    ChannelFailure(uuid::Uuid),
    Eof(uuid::Uuid),
    ExitStatus(uuid::Uuid, u32),
    ExtendedData { channel: uuid::Uuid, data: Vec<u8>, ext: u32 },
    Close(uuid::Uuid),
}

impl RCEvent {
    /// The channel that an event is about.
    pub open spec fn channel(self) -> uuid::Uuid {
        match self {
            RCEvent::Output(channel, _) => channel,
            RCEvent::Success(channel) => channel,
            RCEvent::ChannelFailure(channel) => channel,
            RCEvent::Eof(channel) => channel,
            RCEvent::ExitStatus(channel, _) => channel,
            RCEvent::ExtendedData { channel, .. } => channel,
            RCEvent::Close(channel) => channel,
        }
    }
}

/// A call on an SSH channel.
#[derive(Debug)]
pub enum RusshCall {
    Data { data: Vec<u8> },
    ExtendedData { ext: u32, data: Vec<u8> },
    RequestPty { want_reply: bool, pty: PtyRequest },
    WindowChange { col_width: u32, row_height: u32, pix_width: u32, pix_height: u32 },
    RequestShell { want_reply: bool },
    SetEnv { want_reply: bool, name: String, value: String },
    Exec { want_reply: bool, command: String },
    RequestSubsystem { want_reply: bool, name: String },
    Eof,
    Signal { signal: russh::Sig },
    RequestX11 { want_reply: bool, x11: X11Request },
    AgentForward { want_reply: bool },
}

/// Why a channel ended in an error.
#[derive(Clone, Copy, Debug, PartialEq, Eq)]
pub enum SshClientError {
    /// A call on the SSH channel failed.
    Russh,
    /// A write to the process failed.
    Io,
    /// The client side of the gateway takes no more events.
    MpscError,
}

/// What a channel's loop wakes up to.
#[derive(Debug)]
pub enum Input {
    /// The next operation; `None` when there will be no more.
    Operation(Option<ChannelOperation>),
    /// The next message of the SSH channel; `None` when there will be no more.
    Message(Option<ChannelMsg>),
    /// What was read from the process's standard output: no bytes at its end, `None` when
    /// the read failed.
    Stdout(Option<Vec<u8>>),
    /// The same of its standard error.
    Stderr(Option<Vec<u8>>),
    /// The call or the write that the last step asked for failed.
    CallFailed,
    /// The event that the last step asked to send was not taken.
    SendFailed,
}

/// What a channel's loop does next.
#[derive(Debug)]
pub enum Step {
    /// Wait for the next input.
    Continue,
    /// Make this call on the SSH channel.
    Call(RusshCall),
    /// Write these bytes to the process's standard input.
    WriteStdin(Vec<u8>),
    /// Send this event.
    Send(RCEvent),
    /// Leave the loop with this result, after an attempt to send the last event, if any.
    Finish { result: Result<(), SshClientError>, last: Option<RCEvent> },
}

} // verus!
