//! What a client can rely on, whatever it sends: proved of the session's
//! state machine, and so of every session.

use crate::capabilities::{Capabilities, InitializeRequestArguments};
use crate::dispatch::{call_of, initialize_command, is_known_command};
use crate::encode::represents;
use crate::envelope::{envelope_of, request_of, ProtocolErrorView, ProtocolMessageView, RequestView};
use crate::messages::{
    CommandErrorView, EventBody, EventMessage, ExitedEvent, OutgoingView, ResponseView,
    TerminatedEvent,
};
use crate::model::{numbered_from, seq_advanced, seq_after, PendingView, SessionView, StepView};
use crate::requests::DisconnectArguments;
use vstd::prelude::*;

verus! {

/// Whether every response among `outgoing` answers the request with the
/// sequence number `request_seq`.
pub open spec fn answers(outgoing: Seq<OutgoingView>, request_seq: i64) -> bool {
    forall|i: int|
        0 <= i < outgoing.len() && (#[trigger] outgoing[i]) is Response
            ==> outgoing[i]->Response_0.request_seq == request_seq
}

/// Whether `outgoing` is what a session at `before` sends, and `after` is
/// where that leaves its counter: the messages are numbered on from the
/// counter, one by one, and the counter ends at the last number given.
pub open spec fn counts_on<H>(
    before: SessionView<H>,
    after: SessionView<H>,
    outgoing: Seq<OutgoingView>,
) -> bool {
    numbered_from(before.seq, outgoing) && after.seq == seq_advanced(before.seq, outgoing.len())
}

/// The counter goes up by one, and from the greatest number to the least.
pub proof fn counter_wraps(seq: i64)
    ensures
        seq < i64::MAX ==> seq_after(seq) == seq + 1,
        seq == i64::MAX ==> seq_after(seq) == i64::MIN,
{
}

/// Messages numbered on from a counter have consecutive numbers.
pub proof fn numbers_are_consecutive(seq: i64, outgoing: Seq<OutgoingView>, i: int)
    requires
        numbered_from(seq, outgoing),
        0 <= i < outgoing.len(),
    ensures
        i == 0 ==> outgoing[i].seq() == seq_after(seq),
        i > 0 ==> outgoing[i].seq() == seq_after(outgoing[i - 1].seq()),
{
    reveal_with_fuel(seq_advanced, 2);
}

/// Advancing a counter in two runs is advancing it once by as many steps.
pub proof fn advancing_adds_up(seq: i64, first: nat, second: nat)
    ensures
        seq_advanced(seq_advanced(seq, first), second) == seq_advanced(seq, first + second),
    decreases second,
{
    if second > 0 {
        advancing_adds_up(seq, first, (second - 1) as nat);
    }
}

/// What two steps send one after the other is numbered on from where the
/// counter stood before the first: the numbering runs through the whole
/// session, across responses and events alike.
pub proof fn numbering_continues(seq: i64, first: Seq<OutgoingView>, second: Seq<OutgoingView>)
    requires
        numbered_from(seq, first),
        numbered_from(seq_advanced(seq, first.len()), second),
    ensures
        numbered_from(seq, first + second),
        seq_advanced(seq_advanced(seq, first.len()), second.len()) == seq_advanced(
            seq,
            (first + second).len(),
        ),
{
    advancing_adds_up(seq, first.len(), second.len());
    assert forall|i: int| 0 <= i < (first + second).len() implies (#[trigger] (first + second)[i]).seq()
        == seq_advanced(seq, (i + 1) as nat) by {
        if i >= first.len() {
            let j = i - first.len();
            assert((first + second)[i] == second[j]);
            advancing_adds_up(seq, first.len(), (j + 1) as nat);
        }
    }
}

/// Whatever text comes in, what the session sends for it is numbered on
/// from its counter. A message that is refused changes nothing.
pub proof fn input_is_counted_and_answered<H>(session: SessionView<H>, message: Seq<char>)
    ensures
        match session.handle_input(message).1 {
            Ok(step) => counts_on(session, session.handle_input(message).0, step.outgoing()),
            Err(_) => session.handle_input(message).0 == session,
        },
{
    reveal_with_fuel(seq_advanced, 3);
}

/// Whatever request comes in, what the session sends for it is numbered on
/// from its counter, and every response in it echoes the sequence number of
/// the request.
pub proof fn request_is_counted_and_answered<H>(session: SessionView<H>, request: RequestView)
    ensures
        counts_on(
            session,
            session.handle_request(request).0,
            session.handle_request(request).1.outgoing(),
        ),
        answers(session.handle_request(request).1.outgoing(), request.seq),
        match session.handle_request(request).1 {
            StepView::Done { .. } => true,
            StepView::Spawn { pending, .. } => pending.request_seq == request.seq,
            StepView::Kill { pending, .. } => pending.request_seq == request.seq,
            StepView::Detach { pending, .. } => pending.request_seq == request.seq,
        },
{
    reveal_with_fuel(seq_advanced, 3);
}

/// Whatever the operating system reports, what the session then sends is
/// numbered on from its counter, and every response in it echoes the
/// sequence number of the request that was pending.
pub proof fn outcome_is_counted_and_answered<H>(
    session: SessionView<H>,
    pending: PendingView,
    spawn: Result<H, Seq<char>>,
    kill: Result<Option<i32>, Seq<char>>,
    detach: Result<(), Seq<char>>,
)
    ensures
        counts_on(session, session.spawned(pending, spawn).0, session.spawned(pending, spawn).1),
        answers(session.spawned(pending, spawn).1, pending.request_seq),
        counts_on(session, session.killed(pending, kill).0, session.killed(pending, kill).1),
        answers(session.killed(pending, kill).1, pending.request_seq),
        counts_on(session, session.detached(pending, detach).0, session.detached(pending, detach).1),
        answers(session.detached(pending, detach).1, pending.request_seq),
{
    reveal_with_fuel(seq_advanced, 3);
}

/// What can come in during a session: a message from the client, or word
/// from the operating system of what became of a step.
pub enum InputView<H> {
    Message { text: Seq<char> },
    Spawned { pending: PendingView, outcome: Result<H, Seq<char>> },
    Killed { pending: PendingView, outcome: Result<Option<i32>, Seq<char>> },
    Detached { pending: PendingView, outcome: Result<(), Seq<char>> },
}

/// The session after `input`, and what it sends for it.
pub open spec fn taking<H>(session: SessionView<H>, input: InputView<H>) -> (
    SessionView<H>,
    Seq<OutgoingView>,
) {
    match input {
        InputView::Message { text } => match session.handle_input(text).1 {
            Ok(step) => (session.handle_input(text).0, step.outgoing()),
            Err(_) => (session.handle_input(text).0, Seq::empty()),
        },
        InputView::Spawned { pending, outcome } => session.spawned(pending, outcome),
        InputView::Killed { pending, outcome } => session.killed(pending, outcome),
        InputView::Detached { pending, outcome } => session.detached(pending, outcome),
    }
}

/// The session after all of `inputs`, and everything it sends for them, in
/// the order in which it is sent.
pub open spec fn running<H>(session: SessionView<H>, inputs: Seq<InputView<H>>) -> (
    SessionView<H>,
    Seq<OutgoingView>,
)
    decreases inputs.len(),
{
    if inputs.len() == 0 {
        (session, Seq::empty())
    } else {
        let before = running(session, inputs.drop_last());
        let last = taking(before.0, inputs.last());
        (last.0, before.1 + last.1)
    }
}

/// Whatever comes in, what the session sends for it is numbered on from
/// its counter.
pub proof fn each_input_is_counted<H>(session: SessionView<H>, input: InputView<H>)
    ensures
        counts_on(session, taking(session, input).0, taking(session, input).1),
{
    reveal_with_fuel(seq_advanced, 3);
}

/// Everything a session sends in its life, responses and events alike, is
/// numbered on from where its counter stood at first, one by one, whatever
/// comes in and in whatever order.
pub proof fn whole_session_is_counted<H>(session: SessionView<H>, inputs: Seq<InputView<H>>)
    ensures
        counts_on(session, running(session, inputs).0, running(session, inputs).1),
    decreases inputs.len(),
{
    if inputs.len() > 0 {
        let before = running(session, inputs.drop_last());
        whole_session_is_counted(session, inputs.drop_last());
        each_input_is_counted(before.0, inputs.last());
        numbering_continues(session.seq, before.1, taking(before.0, inputs.last()).1);
    }
}

/// The JSON object that stands for an outgoing message has a well-formed
/// envelope, with the message's own sequence number and with its kind,
/// `event` or `response`: so the adapter would not take for a request what
/// it sends itself.
pub proof fn outgoing_envelope_reads_back(value: serde_json::Value, message: OutgoingView)
    requires
        represents(value, message),
    ensures
        envelope_of(value) == Ok::<ProtocolMessageView, ProtocolErrorView>(
            ProtocolMessageView {
                seq: message.seq(),
                type_: if message is Event {
                    "event"@
                } else {
                    "response"@
                },
            },
        ),
        request_of(value) is Err,
{
    reveal_strlit("event");
    reveal_strlit("response");
    reveal_strlit("request");
    assert("event"@.len() == 5);
    assert("response"@.len() == 8);
    assert("request"@.len() == 7);
}

/// The answer to `initialize` is a success that advertises
/// `supportTerminateDebuggee` and nothing else, and it is the same answer
/// whatever the client negotiated.
pub proof fn initialize_advertises_the_same<H>(
    session: SessionView<H>,
    pending: PendingView,
    arguments: InitializeRequestArguments,
    others: InitializeRequestArguments,
)
    ensures
        session.initialize(pending, arguments).1 == session.initialize(pending, others).1,
        session.initialize(pending, arguments).1 == (StepView::<H>::Done {
            outgoing: seq![
                OutgoingView::Response(
                    ResponseView {
                        seq: seq_after(session.seq),
                        request_seq: pending.request_seq,
                        command: pending.command,
                        success: true,
                        message: None,
                        body: Some(Capabilities { supportTerminateDebuggee: Some(true) }),
                    },
                ),
            ],
        }),
{
}

/// Two `initialize` requests with the same sequence number, each with
/// arguments that can be read, get the same answer, which advertises
/// `supportTerminateDebuggee`.
pub proof fn initialize_requests_are_answered_alike<H>(
    session: SessionView<H>,
    first: RequestView,
    second: RequestView,
)
    requires
        first.command == initialize_command(),
        second.command == initialize_command(),
        first.seq == second.seq,
        call_of(first.command, first.arguments) is Ok,
        call_of(second.command, second.arguments) is Ok,
    ensures
        session.handle_request(first).1 == session.handle_request(second).1,
        session.handle_request(first).1 == (StepView::<H>::Done {
            outgoing: seq![
                OutgoingView::Response(
                    ResponseView {
                        seq: seq_after(session.seq),
                        request_seq: first.seq,
                        command: first.command,
                        success: true,
                        message: None,
                        body: Some(Capabilities { supportTerminateDebuggee: Some(true) }),
                    },
                ),
            ],
        }),
{
}

/// Sending `initialize` again with the same arguments changes nothing but
/// the counter.
pub proof fn initialize_is_idempotent<H>(
    session: SessionView<H>,
    first: PendingView,
    second: PendingView,
    arguments: InitializeRequestArguments,
)
    ensures
        session.initialize(first, arguments).0.initialize(second, arguments).0 == (SessionView {
            seq: seq_after(seq_after(session.seq)),
            ..session.initialize(first, arguments).0
        }),
{
}

/// After a launch that succeeded, a `disconnect` that asks for the
/// debuggee to be killed hands that very debuggee over to be killed and
/// leaves the session without one; once the debuggee has exited, the
/// session sends exactly one event, `exited` with the exit code or -1
/// where there is none, and then the answer.
pub proof fn launch_then_terminate<H>(
    session: SessionView<H>,
    launch: PendingView,
    child: H,
    disconnect: PendingView,
    arguments: DisconnectArguments,
    code: Option<i32>,
)
    requires
        arguments.terminateDebuggee != Some(false),
    ensures
        ({
            let launched = session.spawned(launch, Ok(child)).0;
            let (killing, step) = launched.disconnect(disconnect, arguments);
            let (after, outgoing) = killing.killed(disconnect, Ok(code));
            &&& launched.child == Some(child)
            &&& step == StepView::Kill { pending: disconnect, child }
            &&& killing.child.is_none()
            &&& after.child.is_none()
            &&& outgoing == seq![
                OutgoingView::Event(
                    EventMessage {
                        seq: seq_after(killing.seq),
                        body: EventBody::Exited(
                            ExitedEvent {
                                exitCode: match code {
                                    Some(code) => code as i64,
                                    None => -1i64,
                                },
                            },
                        ),
                    },
                ),
                OutgoingView::Response(
                    ResponseView {
                        seq: seq_after(seq_after(killing.seq)),
                        request_seq: disconnect.request_seq,
                        command: disconnect.command,
                        success: true,
                        message: None,
                        body: None,
                    },
                ),
            ]
        }),
{
}

/// A `disconnect` that asks for the debuggee to be left running, in a
/// session that owns one, hands that debuggee over to be reaped in the
/// background and leaves the session without one. What the session then
/// sends does not wait for, or depend on, the debuggee's exit: exactly one
/// event, `terminated` without an exit code, and then the answer.
pub proof fn disconnect_without_terminating<H>(
    session: SessionView<H>,
    child: H,
    disconnect: PendingView,
    arguments: DisconnectArguments,
)
    requires
        session.child == Some(child),
        arguments.terminateDebuggee == Some(false),
    ensures
        ({
            let (detaching, step) = session.disconnect(disconnect, arguments);
            let (after, outgoing) = detaching.detached(disconnect, Ok(()));
            &&& step == StepView::Detach { pending: disconnect, child }
            &&& detaching.child.is_none()
            &&& after.child.is_none()
            &&& outgoing == seq![
                OutgoingView::Event(
                    EventMessage {
                        seq: seq_after(session.seq),
                        body: EventBody::Terminated(TerminatedEvent {  }),
                    },
                ),
                OutgoingView::Response(
                    ResponseView {
                        seq: seq_after(seq_after(session.seq)),
                        request_seq: disconnect.request_seq,
                        command: disconnect.command,
                        success: true,
                        message: None,
                        body: None,
                    },
                ),
            ]
        }),
{
}

/// A `disconnect` in a session that owns no debuggee succeeds at once and
/// sends no event: the answer is all that is sent.
pub proof fn disconnect_without_debuggee<H>(
    session: SessionView<H>,
    disconnect: PendingView,
    arguments: DisconnectArguments,
)
    requires
        session.child.is_none(),
    ensures
        session.disconnect(disconnect, arguments) == (
            session.counted(),
            StepView::<H>::Done {
                outgoing: seq![
                    OutgoingView::Response(
                        ResponseView {
                            seq: seq_after(session.seq),
                            request_seq: disconnect.request_seq,
                            command: disconnect.command,
                            success: true,
                            message: None,
                            body: None,
                        },
                    ),
                ],
            },
        ),
{
}

/// After a `disconnect` the session owns no debuggee, whatever it owned
/// before and whatever the arguments were; nothing else of it changes but
/// the counter.
pub proof fn disconnect_gives_up_the_debuggee<H>(
    session: SessionView<H>,
    disconnect: PendingView,
    arguments: DisconnectArguments,
)
    ensures
        session.disconnect(disconnect, arguments).0 == (SessionView {
            child: None,
            seq: session.disconnect(disconnect, arguments).0.seq,
            ..session
        }),
{
}

/// A launch that failed leaves the session as it was but for the counter,
/// so without a debuggee if it had none, and answers with the failure.
pub proof fn failed_launch_changes_nothing<H>(
    session: SessionView<H>,
    launch: PendingView,
    message: Seq<char>,
)
    ensures
        session.spawned(launch, Err(message)) == (
            session.counted(),
            seq![
                OutgoingView::Response(
                    ResponseView {
                        seq: seq_after(session.seq),
                        request_seq: launch.request_seq,
                        command: launch.command,
                        success: false,
                        message: Some(message),
                        body: None,
                    },
                ),
            ],
        ),
{
}

/// A request with a command that no handler is registered under is
/// answered with a failure that says so in a message that is not empty. No
/// event is sent, and nothing but the counter changes, whatever the
/// request's arguments are.
pub proof fn unknown_command_is_refused<H>(session: SessionView<H>, request: RequestView)
    requires
        !is_known_command(request.command),
    ensures
        session.handle_request(request) == (
            session.counted(),
            StepView::<H>::Done {
                outgoing: seq![
                    OutgoingView::Response(
                        ResponseView {
                            seq: seq_after(session.seq),
                            request_seq: request.seq,
                            command: request.command,
                            success: false,
                            message: Some(
                                (CommandErrorView::UnknownCommand {
                                    command: request.command,
                                }).text(),
                            ),
                            body: None,
                        },
                    ),
                ],
            },
        ),
        (CommandErrorView::UnknownCommand { command: request.command }).text().len() > 0,
{
    reveal_strlit("`");
}

} // verus!
