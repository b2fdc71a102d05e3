//! What holds of a session channel over its whole life.

use vstd::prelude::*;

use super::message::{
    ChannelMsg, ChannelOperation, Input, PtyRequest, RCEvent, RusshCall, Step, X11Request,
};
use super::{ChannelState, SessionChannelBackend, STDERR};

verus! {

/// The steps of a loop that wakes up to these inputs, in order, until it is left.
pub open spec fn steps(state: ChannelState, inputs: Seq<Input>) -> Seq<Step>
    decreases inputs.len(),
{
    if inputs.len() == 0 {
        Seq::empty()
    } else {
        let step = state.step(inputs.first());
        if step is Finish {
            seq![step]
        } else {
            seq![step] + steps(state.after(inputs.first()), inputs.drop_first())
        }
    }
}

/// The state in which such a loop leaves the channel.
pub open spec fn end_state(state: ChannelState, inputs: Seq<Input>) -> ChannelState
    decreases inputs.len(),
{
    if inputs.len() == 0 {
        state
    } else if state.step(inputs.first()) is Finish {
        state.after(inputs.first())
    } else {
        end_state(state.after(inputs.first()), inputs.drop_first())
    }
}

/// The inputs that such a loop wakes up to before it is left.
pub open spec fn taken(state: ChannelState, inputs: Seq<Input>) -> Seq<Input> {
    inputs.take(steps(state, inputs).len() as int)
}

/// An event, if there is one, as a sequence.
pub open spec fn events_in(event: Option<RCEvent>) -> Seq<RCEvent> {
    match event {
        Some(event) => seq![event],
        None => Seq::empty(),
    }
}

/// The events that a step hands over.
pub open spec fn events_of(step: Step) -> Seq<RCEvent> {
    match step {
        Step::Send(event) => seq![event],
        Step::Finish { last, .. } => events_in(last),
        _ => Seq::empty(),
    }
}

/// The events that a channel hands over in its life: those of its loop, and the one that it
/// still owes when it is dropped, if any.
pub open spec fn life_events(state: ChannelState, inputs: Seq<Input>) -> Seq<RCEvent> {
    steps(state, inputs).map_values(|step: Step| events_of(step)).flatten() + events_in(
        end_state(state, inputs).farewell(),
    )
}

/// The bytes that an input brings from the backend's output.
pub open spec fn output_in(input: Input) -> Seq<u8> {
    match input {
        Input::Message(Some(ChannelMsg::Data { data })) => data@,
        Input::Stdout(Some(data)) => data@,
        _ => Seq::empty(),
    }
}

/// The bytes that a step reports as output.
pub open spec fn output_of(step: Step) -> Seq<u8> {
    match step {
        Step::Send(RCEvent::Output(_, data)) => data@,
        _ => Seq::empty(),
    }
}

/// The bytes that an input brings from the backend under an extended-data code: those of the
/// SSH channel under that code, and a process's standard error under its own.
pub open spec fn extended_in(input: Input, code: u32) -> Seq<u8> {
    match input {
        Input::Message(Some(ChannelMsg::ExtendedData { data, ext })) if ext == code => data@,
        Input::Stderr(Some(data)) if code == STDERR => data@,
        _ => Seq::empty(),
    }
}

/// The bytes that a step reports under an extended-data code.
pub open spec fn extended_of(step: Step, code: u32) -> Seq<u8> {
    match step {
        Step::Send(RCEvent::ExtendedData { data, ext, .. }) if ext == code => data@,
        _ => Seq::empty(),
    }
}

/// The bytes that an input brings for the backend.
pub open spec fn data_in(input: Input) -> Seq<u8> {
    match input {
        Input::Operation(Some(ChannelOperation::Data(data))) => data@,
        _ => Seq::empty(),
    }
}

/// The bytes that a step hands to the backend.
pub open spec fn data_of(step: Step) -> Seq<u8> {
    match step {
        Step::Call(RusshCall::Data { data }) => data@,
        Step::WriteStdin(data) => data@,
        _ => Seq::empty(),
    }
}

/// Whether a channel can hand data to its backend.
pub open spec fn takes_data(state: ChannelState) -> bool {
    match state.backend {
        SessionChannelBackend::Russh => true,
        SessionChannelBackend::Process { stdin, .. } => stdin,
    }
}

/// Whether the loop is left on an input: when the client side closes the channel or goes
/// away, when the remote end closes it, when the process's standard output ends or cannot be
/// read, and when what the loop asked for failed.
pub open spec fn is_last(input: Input) -> bool {
    match input {
        Input::Operation(operation) => operation matches Some(operation) ==> operation is Close,
        Input::Message(message) => message matches Some(message) && message is Close,
        Input::Stdout(read) => read matches Some(data) ==> data@.len() == 0,
        Input::Stderr(_) => false,
        Input::CallFailed => true,
        Input::SendFailed => true,
    }
}

/// Each step answers the input of the same place, from the state that the loop began with.
proof fn lemma_steps(state: ChannelState, inputs: Seq<Input>)
    ensures
        steps(state, inputs).len() <= inputs.len(),
        forall|i: int|
            0 <= i < steps(state, inputs).len() ==> #[trigger] steps(state, inputs)[i]
                == state.step(inputs[i]),
    decreases inputs.len(),
{
    if inputs.len() > 0 && !(state.step(inputs.first()) is Finish) {
        lemma_steps(state, inputs.drop_first());
        let rest = steps(state, inputs.drop_first());
        assert forall|i: int| 0 <= i < steps(state, inputs).len() implies #[trigger] steps(
            state,
            inputs,
        )[i] == state.step(inputs[i]) by {
            if i > 0 {
                assert(steps(state, inputs)[i] == rest[i - 1]);
                assert(inputs.drop_first()[i - 1] == inputs[i]);
            }
        }
    }
}

/// The events of a step before those of the steps after it.
proof fn lemma_events_of_first(first: Step, rest: Seq<Step>)
    ensures
        (seq![first] + rest).map_values(|step: Step| events_of(step)).flatten() == events_of(first)
            + rest.map_values(|step: Step| events_of(step)).flatten(),
{
    let all = (seq![first] + rest).map_values(|step: Step| events_of(step));
    assert(all.drop_first() =~= rest.map_values(|step: Step| events_of(step)));
    assert(all.first() == events_of(first));
}

/// A channel that has not reported its end does so once in its life, and as its last event:
/// whatever it wakes up to, and whether its loop is left or it is dropped before.
pub proof fn law_close_is_reported_once_and_last(state: ChannelState, inputs: Seq<Input>)
    requires
        !state.closed,
    ensures
        life_events(state, inputs).len() > 0,
        life_events(state, inputs).last() == RCEvent::Close(state.channel_id),
        forall|i: int|
            0 <= i < life_events(state, inputs).len() - 1 ==> !(#[trigger] life_events(
                state,
                inputs,
            )[i] is Close),
    decreases inputs.len(),
{
    let events = |step: Step| events_of(step);
    if inputs.len() == 0 {
        assert(steps(state, inputs).map_values(events) =~= Seq::<Seq<RCEvent>>::empty());
        assert(life_events(state, inputs) =~= seq![RCEvent::Close(state.channel_id)]);
    } else {
        let step = state.step(inputs.first());
        if step is Finish {
            lemma_events_of_first(step, Seq::empty());
            assert(seq![step] + Seq::<Step>::empty() =~= seq![step]);
            assert(Seq::<Step>::empty().map_values(events) =~= Seq::<Seq<RCEvent>>::empty());
            assert(life_events(state, inputs) =~= seq![RCEvent::Close(state.channel_id)]);
        } else {
            law_close_is_reported_once_and_last(state, inputs.drop_first());
            lemma_events_of_first(step, steps(state, inputs.drop_first()));
            let rest = life_events(state, inputs.drop_first());
            assert(life_events(state, inputs) =~= events_of(step) + rest);
            assert forall|i: int| 0 <= i < life_events(state, inputs).len() - 1 implies !(
            #[trigger] life_events(state, inputs)[i] is Close) by {
                let n: int = events_of(step).len() as int;
                if i >= n {
                    assert(life_events(state, inputs)[i] == rest[i - n]);
                }
            }
        }
    }
}

/// Once the end is reported, closing again reports nothing and changes nothing.
pub proof fn law_closing_again_does_nothing(state: ChannelState)
    ensures
        state.after_close().farewell() is None,
        state.after_close().after_close() == state.after_close(),
{
}

/// Every event that a channel hands over names that channel.
pub proof fn law_events_name_their_channel(state: ChannelState, input: Input)
    ensures
        forall|i: int|
            0 <= i < events_of(state.step(input)).len() ==> (#[trigger] events_of(
                state.step(input),
            )[i]).channel() == state.channel_id,
{
}

/// The loop is left on just these inputs.
pub proof fn law_loop_is_left_on_last_input(state: ChannelState, input: Input)
    ensures
        state.step(input) is Finish <==> is_last(input),
{
}

/// A loop goes on until an input that it is left on, and takes none after that.
pub proof fn law_loop_ends_at_first_last_input(state: ChannelState, inputs: Seq<Input>)
    ensures
        taken(state, inputs).is_prefix_of(inputs),
        taken(state, inputs).len() == steps(state, inputs).len(),
        forall|i: int| 0 <= i < taken(state, inputs).len() - 1 ==> !is_last(#[trigger] inputs[i]),
        taken(state, inputs).len() < inputs.len() ==> taken(state, inputs).len() > 0 && is_last(
            taken(state, inputs).last(),
        ),
    decreases inputs.len(),
{
    lemma_steps(state, inputs);
    if inputs.len() > 0 && !(state.step(inputs.first()) is Finish) {
        let rest = inputs.drop_first();
        law_loop_ends_at_first_last_input(state, rest);
        assert(steps(state, inputs).len() == steps(state, rest).len() + 1);
        assert forall|i: int| 0 <= i < taken(state, inputs).len() - 1 implies !is_last(
            #[trigger] inputs[i],
        ) by {
            if i > 0 {
                assert(inputs[i] == rest[i - 1]);
            }
        }
        if taken(state, inputs).len() < inputs.len() {
            assert(taken(state, inputs).last() == taken(state, rest).last());
        }
    }
}

/// The bytes that the backend puts out are the bytes that the channel reports as output, all
/// of them and in order.
pub proof fn law_output_passes_through(state: ChannelState, inputs: Seq<Input>)
    ensures
        steps(state, inputs).map_values(|step: Step| output_of(step)).flatten() == taken(
            state,
            inputs,
        ).map_values(|input: Input| output_in(input)).flatten(),
{
    lemma_steps(state, inputs);
    assert(steps(state, inputs).map_values(|step: Step| output_of(step)) =~~= taken(
        state,
        inputs,
    ).map_values(|input: Input| output_in(input)));
}

/// The same of extended data, under each code: a process's standard error, among others, is
/// reported in full.
pub proof fn law_extended_data_passes_through(state: ChannelState, inputs: Seq<Input>, code: u32)
    ensures
        steps(state, inputs).map_values(|step: Step| extended_of(step, code)).flatten() == taken(
            state,
            inputs,
        ).map_values(|input: Input| extended_in(input, code)).flatten(),
{
    lemma_steps(state, inputs);
    assert(steps(state, inputs).map_values(|step: Step| extended_of(step, code)) =~~= taken(
        state,
        inputs,
    ).map_values(|input: Input| extended_in(input, code)));
}

/// The bytes that the client side sends are the bytes that the backend is handed, all of them
/// and in order, where there is a way to hand them over.
pub proof fn law_data_passes_through(state: ChannelState, inputs: Seq<Input>)
    requires
        takes_data(state),
    ensures
        steps(state, inputs).map_values(|step: Step| data_of(step)).flatten() == taken(
            state,
            inputs,
        ).map_values(|input: Input| data_in(input)).flatten(),
{
    lemma_steps(state, inputs);
    assert(steps(state, inputs).map_values(|step: Step| data_of(step)) =~~= taken(
        state,
        inputs,
    ).map_values(|input: Input| data_in(input)));
}

/// A channel calls only the backend that it has: no SSH call where there is a process, no
/// write to a process where there is none or no pipe to it.
pub proof fn law_backends_do_not_mix(state: ChannelState, input: Input)
    ensures
        state.step(input) is Call ==> state.backend is Russh,
        state.step(input) is WriteStdin ==> (state.backend matches SessionChannelBackend::Process {
            stdin,
            ..
        } && stdin),
{
}

/// Nothing that a channel wakes up to changes what it is joined to or what it is called; and
/// an end that is reported stays so.
pub proof fn law_identity_is_kept(state: ChannelState, input: Input)
    ensures
        state.after(input).backend == state.backend,
        state.after(input).channel_id == state.channel_id,
        state.after(input).session_id == state.session_id,
        state.closed ==> state.after(input).closed,
{
}

/// Output of the remote end is reported as output of this channel, byte for byte, and its
/// extended data as extended data under the same code.
pub proof fn law_remote_data_is_reported(state: ChannelState, bytes: Vec<u8>, code: u32)
    ensures
        state.step(Input::Message(Some(ChannelMsg::Data { data: bytes }))) matches Step::Send(
            RCEvent::Output(channel, data),
        ) && channel == state.channel_id && data == bytes,
        state.step(Input::Message(Some(ChannelMsg::ExtendedData { data: bytes, ext: code })))
            matches Step::Send(RCEvent::ExtendedData { channel, data, ext }) && channel
            == state.channel_id && data == bytes && ext == code,
{
}

/// The exit status that is reported is the one that the remote command ended with, for every
/// status: a failure is not taken for success, nor the other way round.
pub proof fn law_exit_status_is_reported(state: ChannelState, status: u32)
    ensures
        state.step(Input::Message(Some(ChannelMsg::ExitStatus { exit_status: status })))
            matches Step::Send(RCEvent::ExitStatus(channel, reported)) && channel
            == state.channel_id && reported == status,
{
}

/// Success, failure and the end of data are each reported as what they are.
pub proof fn law_replies_are_reported(state: ChannelState)
    ensures
        state.step(Input::Message(Some(ChannelMsg::Success))) matches Step::Send(
            RCEvent::Success(channel),
        ) && channel == state.channel_id,
        state.step(Input::Message(Some(ChannelMsg::Failure))) matches Step::Send(
            RCEvent::ChannelFailure(channel),
        ) && channel == state.channel_id,
        state.step(Input::Message(Some(ChannelMsg::Eof))) matches Step::Send(
            RCEvent::Eof(channel),
        ) && channel == state.channel_id,
{
}

/// Other messages of the remote end, and the end of its messages, are passed over.
pub proof fn law_other_messages_are_passed_over(state: ChannelState)
    ensures
        state.step(Input::Message(Some(ChannelMsg::Other))) is Continue,
        state.step(Input::Message(None)) is Continue,
{
}

/// What a process writes is reported byte for byte: its standard output as output, its
/// standard error as extended data under code 1.
pub proof fn law_process_data_is_reported(state: ChannelState, bytes: Vec<u8>)
    requires
        bytes@.len() > 0,
    ensures
        state.step(Input::Stdout(Some(bytes))) matches Step::Send(RCEvent::Output(channel, data))
            && channel == state.channel_id && data == bytes,
        state.step(Input::Stderr(Some(bytes))) matches Step::Send(
            RCEvent::ExtendedData { channel, data, ext },
        ) && channel == state.channel_id && data == bytes && ext == 1,
{
}

/// The end of a process's standard output ends the loop, and so does a failed read of it; the
/// same of its standard error does not.
pub proof fn law_process_output_ends_the_loop(state: ChannelState, nothing: Vec<u8>)
    requires
        nothing@.len() == 0,
    ensures
        state.step(Input::Stdout(Some(nothing))) matches Step::Finish { result, .. } && result
            is Ok,
        state.step(Input::Stdout(None)) matches Step::Finish { result, .. } && result is Ok,
        state.step(Input::Stderr(Some(nothing))) is Continue,
        state.step(Input::Stderr(None)) is Continue,
{
}

/// The client side ends the loop by closing the channel or by going away, the remote end by
/// closing it; none of these is an error.
pub proof fn law_closing_ends_the_loop(state: ChannelState)
    ensures
        state.step(Input::Operation(Some(ChannelOperation::Close))) matches Step::Finish {
            result,
            ..
        } && result is Ok,
        state.step(Input::Operation(None)) matches Step::Finish { result, .. } && result is Ok,
        state.step(Input::Message(Some(ChannelMsg::Close))) matches Step::Finish { result, .. }
            && result is Ok,
{
}

/// What failed ends the loop in the error that says so.
pub proof fn law_failures_end_the_loop(state: ChannelState)
    ensures
        state.step(Input::SendFailed) matches Step::Finish { result: Err(error), .. } && error
            is MpscError,
        state.step(Input::CallFailed) matches Step::Finish { result: Err(error), .. } && (
        state.backend is Russh ==> error is Russh) && (state.backend is Process ==> error is Io),
{
}

/// A channel whose loop is left has reported its end: by the last event of the loop, where it
/// had not before, and by none where it had. No other input reports the end.
pub proof fn law_leaving_reports_the_end(state: ChannelState, input: Input)
    ensures
        state.step(input) matches Step::Finish { last, .. } ==> (state.closed ==> last is None) && (
        !state.closed ==> (last matches Some(RCEvent::Close(channel)) && channel
            == state.channel_id)),
        state.step(input) is Finish ==> state.after(input).closed,
        !(state.step(input) is Finish) ==> state.after(input).closed == state.closed,
        state.step(input) matches Step::Send(event) ==> !(event is Close),
{
}

/// Closing a channel reports its end, where that is not done, and marks it as done.
pub proof fn law_closing_reports_the_end(state: ChannelState)
    ensures
        !state.closed ==> (state.farewell() matches Some(RCEvent::Close(channel)) && channel
            == state.channel_id),
        state.closed ==> state.farewell() is None,
        state.after_close().closed,
        state.after_close().backend == state.backend,
        state.after_close().channel_id == state.channel_id,
        state.after_close().session_id == state.session_id,
{
}

/// Data and extended data for an SSH channel arrive there byte for byte, and extended data
/// under the same code.
pub proof fn law_client_data_is_forwarded(state: ChannelState, bytes: Vec<u8>, code: u32)
    requires
        state.backend is Russh,
    ensures
        state.step(Input::Operation(Some(ChannelOperation::Data(bytes)))) matches Step::Call(
            RusshCall::Data { data },
        ) && data == bytes,
        state.step(
            Input::Operation(Some(ChannelOperation::ExtendedData { ext: code, data: bytes })),
        ) matches Step::Call(RusshCall::ExtendedData { ext, data }) && ext == code && data == bytes,
{
}

/// The terminal that an SSH channel is asked for is the one that the client has: its kind, its
/// four sizes and its modes. A reply is asked for.
pub proof fn law_terminal_is_forwarded(state: ChannelState, request: PtyRequest)
    requires
        state.backend is Russh,
    ensures
        state.step(Input::Operation(Some(ChannelOperation::RequestPty(request)))) matches Step::Call(
            RusshCall::RequestPty { want_reply, pty },
        ) && want_reply && pty.term@ == request.term@ && pty.col_width == request.col_width
            && pty.row_height == request.row_height && pty.pix_width == request.pix_width
            && pty.pix_height == request.pix_height && pty.modes@ == request.modes@,
{
}

/// The size that an SSH channel is told is the one that the client's terminal has, in all four
/// measures.
pub proof fn law_terminal_size_is_forwarded(state: ChannelState, request: PtyRequest)
    requires
        state.backend is Russh,
    ensures
        state.step(Input::Operation(Some(ChannelOperation::ResizePty(request)))) matches Step::Call(
            RusshCall::WindowChange { col_width, row_height, pix_width, pix_height },
        ) && col_width == request.col_width && row_height == request.row_height && pix_width
            == request.pix_width && pix_height == request.pix_height,
{
}

/// What the client wants to run on an SSH channel is asked for as the client names it: a shell,
/// with a reply, and a command or a subsystem, without one.
pub proof fn law_programs_are_forwarded(state: ChannelState, program: String)
    requires
        state.backend is Russh,
    ensures
        state.step(Input::Operation(Some(ChannelOperation::RequestShell))) matches Step::Call(
            RusshCall::RequestShell { want_reply },
        ) && want_reply,
        state.step(Input::Operation(Some(ChannelOperation::RequestExec(program))))
            matches Step::Call(RusshCall::Exec { want_reply, command }) && !want_reply && command@
            == program@,
        state.step(Input::Operation(Some(ChannelOperation::RequestSubsystem(program))))
            matches Step::Call(RusshCall::RequestSubsystem { want_reply, name }) && !want_reply
            && name@ == program@,
{
}

/// A variable of the client's environment is set on an SSH channel under its name and to its
/// value, without a reply.
pub proof fn law_environment_is_forwarded(state: ChannelState, variable: String, content: String)
    requires
        state.backend is Russh,
    ensures
        state.step(Input::Operation(Some(ChannelOperation::RequestEnv(variable, content))))
            matches Step::Call(RusshCall::SetEnv { want_reply, name, value }) && !want_reply
            && name@ == variable@ && value@ == content@,
{
}

/// A signal reaches an SSH channel as the one that it is, and the end of data as that.
pub proof fn law_signals_are_forwarded(state: ChannelState, sig: russh::Sig)
    requires
        state.backend is Russh,
    ensures
        state.step(Input::Operation(Some(ChannelOperation::Signal(sig)))) matches Step::Call(
            RusshCall::Signal { signal },
        ) && signal == sig,
        state.step(Input::Operation(Some(ChannelOperation::Eof))) matches Step::Call(call) && call
            is Eof,
{
}

/// The display and the agent that a client offers are asked for with a reply, and the display
/// as the client describes it.
pub proof fn law_forwarding_is_forwarded(state: ChannelState, request: X11Request)
    requires
        state.backend is Russh,
    ensures
        state.step(Input::Operation(Some(ChannelOperation::RequestX11(request)))) matches Step::Call(
            RusshCall::RequestX11 { want_reply, x11 },
        ) && want_reply && x11.single_conection == request.single_conection
            && x11.x11_auth_protocol@ == request.x11_auth_protocol@ && x11.x11_auth_cookie@
            == request.x11_auth_cookie@ && x11.x11_screen_number == request.x11_screen_number,
        state.step(Input::Operation(Some(ChannelOperation::AgentForward))) matches Step::Call(
            RusshCall::AgentForward { want_reply },
        ) && want_reply,
{
}

/// An open channel passes over requests to open one, whatever it is joined to.
pub proof fn law_open_requests_are_passed_over(state: ChannelState)
    ensures
        state.step(Input::Operation(Some(ChannelOperation::OpenShell))) is Continue,
        state.step(Input::Operation(Some(ChannelOperation::OpenDirectTCPIP))) is Continue,
        state.step(Input::Operation(Some(ChannelOperation::OpenDirectStreamlocal))) is Continue,
        state.step(Input::Operation(Some(ChannelOperation::OpenX11))) is Continue,
{
}

/// A process is handed the client's data, byte for byte, where there is a pipe to its standard
/// input.
pub proof fn law_process_gets_client_data(state: ChannelState, bytes: Vec<u8>)
    ensures
        state.backend matches SessionChannelBackend::Process { stdin, .. } ==> (stdin ==> (
        state.step(Input::Operation(Some(ChannelOperation::Data(bytes)))) matches Step::WriteStdin(
            data,
        ) && data == bytes)),
        state.backend matches SessionChannelBackend::Process { stdin, .. } ==> (!stdin
            ==> state.step(Input::Operation(Some(ChannelOperation::Data(bytes)))) is Continue),
{
}

/// A process is handed nothing but data: every other operation, but for the one that closes
/// the channel, is passed over.
pub proof fn law_process_gets_nothing_else(state: ChannelState, operation: ChannelOperation)
    requires
        state.backend is Process,
        !(operation is Data),
        !(operation is Close),
    ensures
        state.step(Input::Operation(Some(operation))) is Continue,
{
}

} // verus!
