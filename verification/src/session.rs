//! The loop of a session channel.
//!
//! A channel joins the client side of the gateway to a backend: an SSH channel or a process.
//! [`SessionChannel::run`] is one turn of its loop. It takes what the loop woke up to and
//! says what to do about it.

use vstd::prelude::*;

use self::message::{
    ChannelMsg, ChannelOperation, Input, RCEvent, RusshCall, SessionId, SshClientError, Step,
};

pub mod laws;
pub mod message;

verus! {

/// The extended-data code of standard error.
pub const STDERR: u32 = 1;

/// What a channel is joined to.
#[derive(Clone, Copy, Debug, PartialEq, Eq, Structural)]
pub enum SessionChannelBackend {
    /// An SSH channel.
    Russh,
    /// A process, with the pipes to it that there are.
    Process { stdin: bool, stdout: bool, stderr: bool },
}

/// A session channel.
pub struct SessionChannel {
    backend: SessionChannelBackend,
    channel_id: uuid::Uuid,
    session_id: SessionId,
    closed: bool,
}

/// What is known of a [`SessionChannel`].
pub struct ChannelState {
    pub backend: SessionChannelBackend,
    pub channel_id: uuid::Uuid,
    pub session_id: SessionId,
    /// Whether the channel has reported its end.
    pub closed: bool,
}

impl View for SessionChannel {
    type V = ChannelState;

    closed spec fn view(&self) -> ChannelState {
        ChannelState {
            backend: self.backend,
            channel_id: self.channel_id,
            session_id: self.session_id,
            closed: self.closed,
        }
    }
}

/// The call on an SSH channel that an operation stands for. A reply is asked for where the
/// client waits for one: of a terminal, a shell, X11 and agent forwarding.
pub open spec fn call_for(operation: ChannelOperation) -> Option<RusshCall> {
    match operation {
        ChannelOperation::Data(data) => Some(RusshCall::Data { data }),
        ChannelOperation::ExtendedData { ext, data } => Some(RusshCall::ExtendedData { ext, data }),
        ChannelOperation::RequestPty(pty) => Some(
            RusshCall::RequestPty { want_reply: true, pty },
        ),
        ChannelOperation::ResizePty(request) => Some(
            RusshCall::WindowChange {
                col_width: request.col_width,
                row_height: request.row_height,
                pix_width: request.pix_width,
                pix_height: request.pix_height,
            },
        ),
        ChannelOperation::RequestShell => Some(RusshCall::RequestShell { want_reply: true }),
        ChannelOperation::RequestEnv(name, value) => Some(
            RusshCall::SetEnv { want_reply: false, name, value },
        ),
        ChannelOperation::RequestExec(command) => Some(
            RusshCall::Exec { want_reply: false, command },
        ),
        ChannelOperation::RequestSubsystem(name) => Some(
            RusshCall::RequestSubsystem { want_reply: false, name },
        ),
        ChannelOperation::Eof => Some(RusshCall::Eof),
        ChannelOperation::Signal(signal) => Some(RusshCall::Signal { signal }),
        ChannelOperation::RequestX11(x11) => Some(
            RusshCall::RequestX11 { want_reply: true, x11 },
        ),
        ChannelOperation::AgentForward => Some(RusshCall::AgentForward { want_reply: true }),
        _ => None,
    }
}

/// The event that reports a message of the SSH channel; `None` for those that are passed over.
pub open spec fn event_for(channel_id: uuid::Uuid, message: ChannelMsg) -> Option<RCEvent> {
    match message {
        ChannelMsg::Data { data } => Some(RCEvent::Output(channel_id, data)),
        ChannelMsg::ExtendedData { data, ext } => Some(
            RCEvent::ExtendedData { channel: channel_id, data, ext },
        ),
        ChannelMsg::Success => Some(RCEvent::Success(channel_id)),
        ChannelMsg::Failure => Some(RCEvent::ChannelFailure(channel_id)),
        ChannelMsg::Eof => Some(RCEvent::Eof(channel_id)),
        ChannelMsg::ExitStatus { exit_status } => Some(
            RCEvent::ExitStatus(channel_id, exit_status),
        ),
        ChannelMsg::Close => None,
        ChannelMsg::Other => None,
    }
}

impl ChannelState {
    /// The report of the channel's end, if it is still owed.
    pub open spec fn farewell(self) -> Option<RCEvent> {
        if self.closed {
            None
        } else {
            Some(RCEvent::Close(self.channel_id))
        }
    }

    /// The way out of the loop.
    pub open spec fn finish(self, result: Result<(), SshClientError>) -> Step {
        Step::Finish { result, last: self.farewell() }
    }

    /// What an operation leads to. An SSH channel gets the call that it stands for. A process
    /// gets data, if there is a pipe for it, and nothing else.
    pub open spec fn on_operation(self, operation: ChannelOperation) -> Step {
        match self.backend {
            SessionChannelBackend::Russh => match call_for(operation) {
                Some(call) => Step::Call(call),
                None => Step::Continue,
            },
            SessionChannelBackend::Process { stdin, .. } => match operation {
                ChannelOperation::Data(data) if stdin => Step::WriteStdin(data),
                _ => Step::Continue,
            },
        }
    }

    /// What an input leads to. The end of the SSH channel's messages, and the end or a failed
    /// read of the process's standard error, are passed over: neither ends the loop.
    pub open spec fn step(self, input: Input) -> Step {
        match input {
            Input::Operation(None) => self.finish(Ok(())),
            Input::Operation(Some(ChannelOperation::Close)) => self.finish(Ok(())),
            Input::Operation(Some(operation)) => self.on_operation(operation),
            Input::Message(None) => Step::Continue,
            Input::Message(Some(ChannelMsg::Close)) => self.finish(Ok(())),
            Input::Message(Some(message)) => match event_for(self.channel_id, message) {
                Some(event) => Step::Send(event),
                None => Step::Continue,
            },
            Input::Stdout(None) => self.finish(Ok(())),
            Input::Stdout(Some(data)) => if data@.len() > 0 {
                Step::Send(RCEvent::Output(self.channel_id, data))
            } else {
                self.finish(Ok(()))
            },
            Input::Stderr(None) => Step::Continue,
            Input::Stderr(Some(data)) => if data@.len() > 0 {
                Step::Send(
                    RCEvent::ExtendedData { channel: self.channel_id, data, ext: STDERR },
                )
            } else {
                Step::Continue
            },
            Input::CallFailed => self.finish(
                Err(
                    match self.backend {
                        SessionChannelBackend::Russh => SshClientError::Russh,
                        SessionChannelBackend::Process { .. } => SshClientError::Io,
                    },
                ),
            ),
            Input::SendFailed => self.finish(Err(SshClientError::MpscError)),
        }
    }

    /// The state after an input: nothing changes but that a channel that leaves its loop has
    /// reported its end.
    pub open spec fn after(self, input: Input) -> ChannelState {
        if self.step(input) is Finish {
            self.after_close()
        } else {
            self
        }
    }

    /// The state once the end is reported.
    pub open spec fn after_close(self) -> ChannelState {
        ChannelState { closed: true, ..self }
    }
}

/// The call on an SSH channel that an operation stands for.
fn russh_call(operation: ChannelOperation) -> (call: Option<RusshCall>)
    ensures
        call == call_for(operation),
{
    match operation {
        ChannelOperation::Data(data) => Some(RusshCall::Data { data }),
        ChannelOperation::ExtendedData { ext, data } => Some(RusshCall::ExtendedData { ext, data }),
        ChannelOperation::RequestPty(pty) => Some(
            RusshCall::RequestPty { want_reply: true, pty },
        ),
        ChannelOperation::ResizePty(request) => Some(
            RusshCall::WindowChange {
                col_width: request.col_width,
                row_height: request.row_height,
                pix_width: request.pix_width,
                pix_height: request.pix_height,
            },
        ),
        ChannelOperation::RequestShell => Some(RusshCall::RequestShell { want_reply: true }),
        ChannelOperation::RequestEnv(name, value) => Some(
            RusshCall::SetEnv { want_reply: false, name, value },
        ),
        ChannelOperation::RequestExec(command) => Some(
            RusshCall::Exec { want_reply: false, command },
        ),
        ChannelOperation::RequestSubsystem(name) => Some(
            RusshCall::RequestSubsystem { want_reply: false, name },
        ),
        ChannelOperation::Eof => Some(RusshCall::Eof),
        ChannelOperation::Signal(signal) => Some(RusshCall::Signal { signal }),
        ChannelOperation::RequestX11(x11) => Some(
            RusshCall::RequestX11 { want_reply: true, x11 },
        ),
        ChannelOperation::AgentForward => Some(RusshCall::AgentForward { want_reply: true }),
        _ => None,
    }
}

impl SessionChannel {
    pub fn new(
        backend: SessionChannelBackend,
        channel_id: uuid::Uuid,
        session_id: SessionId,
    ) -> (channel: Self)
        ensures
            channel@ == (ChannelState { backend, channel_id, session_id, closed: false }),
    {
        SessionChannel { backend, channel_id, session_id, closed: false }
    }

    pub fn channel_id(&self) -> (id: uuid::Uuid)
        ensures
            id == self@.channel_id,
    {
        self.channel_id
    }

    pub fn session_id(&self) -> (id: SessionId)
        ensures
            id == self@.session_id,
    {
        self.session_id
    }

    /// Whether the loop waits for messages of an SSH channel.
    pub fn waits_for_messages(&self) -> (waits: bool)
        ensures
            waits == (self@.backend is Russh),
    {
        match self.backend {
            SessionChannelBackend::Russh => true,
            SessionChannelBackend::Process { .. } => false,
        }
    }

    /// Whether the loop reads a process's standard output.
    pub fn reads_stdout(&self) -> (reads: bool)
        ensures
            reads == (self@.backend matches SessionChannelBackend::Process { stdout, .. }
                && stdout),
    {
        match self.backend {
            SessionChannelBackend::Russh => false,
            SessionChannelBackend::Process { stdout, .. } => stdout,
        }
    }

    /// Whether the loop reads a process's standard error.
    pub fn reads_stderr(&self) -> (reads: bool)
        ensures
            reads == (self@.backend matches SessionChannelBackend::Process { stderr, .. }
                && stderr),
    {
        match self.backend {
            SessionChannelBackend::Russh => false,
            SessionChannelBackend::Process { stderr, .. } => stderr,
        }
    }

    fn on_operation(&self, operation: ChannelOperation) -> (step: Step)
        ensures
            step == self@.on_operation(operation),
    {
        match self.backend {
            SessionChannelBackend::Russh => match russh_call(operation) {
                Some(call) => Step::Call(call),
                None => Step::Continue,
            },
            SessionChannelBackend::Process { stdin, .. } => match operation {
                ChannelOperation::Data(data) => if stdin {
                    Step::WriteStdin(data)
                } else {
                    Step::Continue
                },
                _ => Step::Continue,
            },
        }
    }

    fn on_message(&mut self, message: ChannelMsg) -> (step: Step)
        ensures
            step == old(self)@.step(Input::Message(Some(message))),
            final(self)@ == old(self)@.after(Input::Message(Some(message))),
    {
        let channel_id = self.channel_id;
        match message {
            ChannelMsg::Data { data } => Step::Send(RCEvent::Output(channel_id, data)),
            ChannelMsg::ExtendedData { data, ext } => Step::Send(
                RCEvent::ExtendedData { channel: channel_id, data, ext },
            ),
            ChannelMsg::Success => Step::Send(RCEvent::Success(channel_id)),
            ChannelMsg::Failure => Step::Send(RCEvent::ChannelFailure(channel_id)),
            ChannelMsg::Eof => Step::Send(RCEvent::Eof(channel_id)),
            ChannelMsg::ExitStatus { exit_status } => Step::Send(
                RCEvent::ExitStatus(channel_id, exit_status),
            ),
            ChannelMsg::Close => self.finish(Ok(())),
            ChannelMsg::Other => Step::Continue,
        }
    }

    fn finish(&mut self, result: Result<(), SshClientError>) -> (step: Step)
        ensures
            step == old(self)@.finish(result),
            final(self)@ == old(self)@.after_close(),
    {
        let last = self.close();
        Step::Finish { result, last }
    }

    /// One turn of the loop.
    pub fn run(&mut self, input: Input) -> (step: Step)
        ensures
            step == old(self)@.step(input),
            final(self)@ == old(self)@.after(input),
    {
        match input {
            Input::Operation(None) => self.finish(Ok(())),
            Input::Operation(Some(ChannelOperation::Close)) => self.finish(Ok(())),
            Input::Operation(Some(operation)) => self.on_operation(operation),
            Input::Message(None) => Step::Continue,
            Input::Message(Some(message)) => self.on_message(message),
            Input::Stdout(None) => self.finish(Ok(())),
            Input::Stdout(Some(data)) => if data.len() > 0 {
                Step::Send(RCEvent::Output(self.channel_id, data))
            } else {
                self.finish(Ok(()))
            },
            Input::Stderr(None) => Step::Continue,
            Input::Stderr(Some(data)) => if data.len() > 0 {
                Step::Send(
                    RCEvent::ExtendedData { channel: self.channel_id, data, ext: STDERR },
                )
            } else {
                Step::Continue
            },
            Input::CallFailed => {
                let error = match self.backend {
                    SessionChannelBackend::Russh => SshClientError::Russh,
                    SessionChannelBackend::Process { .. } => SshClientError::Io,
                };
                self.finish(Err(error))
            },
            Input::SendFailed => self.finish(Err(SshClientError::MpscError)),
        }
    }

    /// Reports the end of the channel, unless that is done: the event to send, if any.
    ///
    /// The loop does this when it leaves; a channel that is dropped before does it then.
    pub fn close(&mut self) -> (event: Option<RCEvent>)
        ensures
            event == old(self)@.farewell(),
            final(self)@ == old(self)@.after_close(),
    {
        if self.closed {
            None
        } else {
            self.closed = true;
            Some(RCEvent::Close(self.channel_id))
        }
    }
}

} // verus!
