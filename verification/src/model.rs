//! The session as a state machine over mathematical values.
//!
//! A session answers one request at a time. Most requests are answered at
//! once. `launch` and `disconnect` may need the operating system, which the
//! session does not call itself: it hands out what is to be done, and goes
//! on when it is told how that went. Each function here takes the state
//! before and gives the state after, with what the session sends or asks for.

use crate::capabilities::{Capabilities, ClientCaps, InitializeRequestArguments};
use crate::messages::{
    CommandErrorView, EventBody, EventMessage, ExitedEvent, OutgoingView, ResponseView,
    TerminatedEvent,
};
use crate::dispatch::call_of;
use crate::envelope::{request_of, ProtocolErrorView, RequestView};
use crate::json::{error_text, parsed};
use crate::requests::{CallView, DisconnectArguments, LaunchView};
use vstd::prelude::*;

verus! {

/// The sequence number that follows `seq`: one more, and the least number
/// after the greatest.
pub open spec fn seq_after(seq: i64) -> i64 {
    if seq == i64::MAX {
        i64::MIN
    } else {
        (seq + 1) as i64
    }
}

/// The sequence number reached from `seq` in `steps` steps.
pub open spec fn seq_advanced(seq: i64, steps: nat) -> i64
    decreases steps,
{
    if steps == 0 {
        seq
    } else {
        seq_after(seq_advanced(seq, (steps - 1) as nat))
    }
}

/// Whether the messages of `outgoing` are numbered as a session numbers
/// them whose counter stands at `seq`: the first with the number after
/// `seq`, each next one with the number after that of the one before.
pub open spec fn numbered_from(seq: i64, outgoing: Seq<OutgoingView>) -> bool {
    forall|i: int|
        0 <= i < outgoing.len() ==> (#[trigger] outgoing[i]).seq() == seq_advanced(
            seq,
            (i + 1) as nat,
        )
}

/// The argument that tells the debuggee to trust what it is given to run.
pub open spec fn trust_flag() -> Seq<char> {
    "-trusted"@
}

/// The exit code that an `exited` event reports for a debuggee that ended
/// with `code`: the code itself, or -1 where there is none.
pub open spec fn reported_exit_code(code: Option<i32>) -> i64 {
    match code {
        Some(code) => code as i64,
        None => -1i64,
    }
}

/// A request that awaits its response: what the response will echo.
pub struct PendingView {
    pub request_seq: i64,
    pub command: Seq<char>,
}

/// What a session wants done after it has looked at a request.
pub enum StepView<H> {
    /// The request is answered: send these messages, in this order.
    Done { outgoing: Seq<OutgoingView> },
    /// Spawn `program` with `arguments` and without standard streams.
    Spawn { pending: PendingView, program: Seq<char>, arguments: Seq<Seq<char>> },
    /// Kill `child` and wait until it has exited.
    Kill { pending: PendingView, child: H },
    /// Let `child` run on, and reap it in the background when it exits.
    Detach { pending: PendingView, child: H },
}

impl<H> StepView<H> {
    /// The messages that this step sends.
    pub open spec fn outgoing(self) -> Seq<OutgoingView> {
        match self {
            StepView::Done { outgoing } => outgoing,
            _ => Seq::empty(),
        }
    }
}

/// The state of a session, with a debuggee handle of type `H`.
pub struct SessionView<H> {
    /// The executable that `launch` spawns.
    pub dreamseeker_exe: Seq<char>,
    /// The debuggee that the session owns, if any.
    pub child: Option<H>,
    /// The sequence number of the message sent last; 0 before the first.
    pub seq: i64,
    /// What the client negotiated with its latest `initialize`.
    pub client_caps: ClientCaps,
    /// Whether the client has sent an `initialize` yet.
    pub initialized: bool,
}

impl<H> SessionView<H> {
    /// A session that has seen no request.
    pub open spec fn fresh(dreamseeker_exe: Seq<char>) -> Self {
        SessionView {
            dreamseeker_exe,
            child: None,
            seq: 0,
            client_caps: ClientCaps::blank(),
            initialized: false,
        }
    }

    /// This state with its counter moved on by one.
    pub open spec fn counted(self) -> Self {
        SessionView { seq: seq_after(self.seq), ..self }
    }

    /// This state with `child` in place of the debuggee it owned.
    pub open spec fn owning(self, child: Option<H>) -> Self {
        SessionView { child, ..self }
    }

    /// The event that reports `body`, with the next sequence number.
    pub open spec fn event(self, body: EventBody) -> EventMessage {
        EventMessage { seq: seq_after(self.seq), body }
    }

    /// The response to `pending` that reports `handled`, with the next
    /// sequence number.
    pub open spec fn response(
        self,
        pending: PendingView,
        handled: Result<Option<Capabilities>, CommandErrorView>,
    ) -> ResponseView {
        ResponseView {
            seq: seq_after(self.seq),
            request_seq: pending.request_seq,
            command: pending.command,
            success: handled is Ok,
            message: match handled {
                Ok(_) => None,
                Err(error) => Some(error.text()),
            },
            body: match handled {
                Ok(body) => body,
                Err(_) => None,
            },
        }
    }

    /// Answering `pending` at once with `handled`.
    pub open spec fn answer(
        self,
        pending: PendingView,
        handled: Result<Option<Capabilities>, CommandErrorView>,
    ) -> (Self, Seq<OutgoingView>) {
        (self.counted(), seq![OutgoingView::Response(self.response(pending, handled))])
    }

    /// Sending an event that reports `body`, then answering `pending` with
    /// success.
    pub open spec fn announce(self, pending: PendingView, body: EventBody) -> (
        Self,
        Seq<OutgoingView>,
    ) {
        (
            self.counted().counted(),
            seq![
                OutgoingView::Event(self.event(body)),
                OutgoingView::Response(self.counted().response(pending, Ok(None))),
            ],
        )
    }

    /// `initialize`: the session remembers what the client negotiated, in
    /// place of anything negotiated before, and answers with what this
    /// adapter can do.
    pub open spec fn initialize(self, pending: PendingView, arguments: InitializeRequestArguments) -> (
        Self,
        StepView<H>,
    ) {
        let negotiated = SessionView {
            client_caps: ClientCaps::negotiated(arguments),
            initialized: true,
            ..self
        };
        let (after, outgoing) = negotiated.answer(pending, Ok(Some(Capabilities::advertised())));
        (after, StepView::Done { outgoing })
    }

    /// `launch`: the session asks for its executable to be spawned on the
    /// file the client named, and changes nothing yet.
    pub open spec fn launch(self, pending: PendingView, arguments: LaunchView) -> (
        Self,
        StepView<H>,
    ) {
        (
            self,
            StepView::Spawn {
                pending,
                program: self.dreamseeker_exe,
                arguments: seq![arguments.dmb, trust_flag()],
            },
        )
    }

    /// `disconnect`: without a debuggee the session answers at once. With
    /// one, it gives the debuggee up, to be killed or to be left running as
    /// the arguments say.
    pub open spec fn disconnect(self, pending: PendingView, arguments: DisconnectArguments) -> (
        Self,
        StepView<H>,
    ) {
        match self.child {
            None => {
                let (after, outgoing) = self.answer(pending, Ok(None));
                (after, StepView::Done { outgoing })
            },
            Some(child) => if arguments.spec_terminate() {
                (self.owning(None), StepView::Kill { pending, child })
            } else {
                (self.owning(None), StepView::Detach { pending, child })
            },
        }
    }

    /// Carrying out `call` for the request `pending`.
    pub open spec fn invoke(self, pending: PendingView, call: CallView) -> (Self, StepView<H>) {
        match call {
            CallView::Initialize(arguments) => self.initialize(pending, arguments),
            CallView::Launch(arguments) => self.launch(pending, arguments),
            CallView::Disconnect(arguments) => self.disconnect(pending, arguments),
        }
    }

    /// Taking a request: its command is looked up and its arguments are
    /// read. Where that fails the session answers with the failure at once;
    /// else it carries the call out.
    pub open spec fn handle_request(self, request: RequestView) -> (Self, StepView<H>) {
        let pending = PendingView { request_seq: request.seq, command: request.command };
        match call_of(request.command, request.arguments) {
            Ok(call) => self.invoke(pending, call),
            Err(error) => {
                let (after, outgoing) = self.answer(pending, Err(error));
                (after, StepView::Done { outgoing })
            },
        }
    }

    /// Taking a message as a JSON document: a document that is no request
    /// is an error and leaves the session as it is.
    pub open spec fn handle_document(self, document: serde_json::Value) -> (
        Self,
        Result<StepView<H>, ProtocolErrorView>,
    ) {
        match request_of(document) {
            Ok(request) => {
                let (after, step) = self.handle_request(request);
                (after, Ok(step))
            },
            Err(error) => (self, Err(error)),
        }
    }

    /// Taking a message as text: a text that is not JSON is an error and
    /// leaves the session as it is.
    pub open spec fn handle_input(self, message: Seq<char>) -> (
        Self,
        Result<StepView<H>, ProtocolErrorView>,
    ) {
        match parsed(message) {
            Ok(document) => self.handle_document(document),
            Err(error) => (self, Err(ProtocolErrorView::Syntax { message: error_text(error) })),
        }
    }

    /// What follows an attempt to spawn the debuggee: the session owns the
    /// new debuggee, in place of any it owned before, and answers with
    /// success; or it is as it was, and answers with the failure.
    pub open spec fn spawned(self, pending: PendingView, outcome: Result<H, Seq<char>>) -> (
        Self,
        Seq<OutgoingView>,
    ) {
        match outcome {
            Ok(child) => self.owning(Some(child)).answer(pending, Ok(None)),
            Err(message) => self.answer(pending, Err(CommandErrorView::Os { message })),
        }
    }

    /// What follows an attempt to kill the debuggee and to wait for its
    /// exit: an `exited` event with its exit code and then the answer, or
    /// the failure as the answer.
    pub open spec fn killed(self, pending: PendingView, outcome: Result<Option<i32>, Seq<char>>) -> (
        Self,
        Seq<OutgoingView>,
    ) {
        match outcome {
            Ok(code) => self.announce(
                pending,
                EventBody::Exited(ExitedEvent { exitCode: reported_exit_code(code) }),
            ),
            Err(message) => self.answer(pending, Err(CommandErrorView::Os { message })),
        }
    }

    /// What follows an attempt to hand the debuggee to a background reaper:
    /// a `terminated` event and then the answer, or the failure as the
    /// answer.
    pub open spec fn detached(self, pending: PendingView, outcome: Result<(), Seq<char>>) -> (
        Self,
        Seq<OutgoingView>,
    ) {
        match outcome {
            Ok(_) => self.announce(pending, EventBody::Terminated(TerminatedEvent {  })),
            Err(message) => self.answer(pending, Err(CommandErrorView::Os { message })),
        }
    }
}

} // verus!
