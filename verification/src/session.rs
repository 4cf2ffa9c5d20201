//! The session: what an adapter remembers between requests, and what it does
//! with each.
//!
//! The session never touches the operating system. Where a request needs a
//! process spawned, killed or handed off, the handler returns a [`Step`] that
//! says so, and the embedding program reports back through
//! [`Debugger::spawned`], [`Debugger::killed`] or [`Debugger::detached`]. The
//! debuggee's handle is of a type `H` that the embedding program chooses; the
//! session owns at most one, and gives it up by moving it into the step.

use crate::capabilities::{Capabilities, ClientCaps, InitializeRequestArguments};
use crate::dispatch::decode_call;
use crate::envelope::{decode_request, ProtocolError, ProtocolErrorView, RequestMessage};
use crate::json::{error_message, from_text};
use crate::messages::{
    views, CommandError, CommandErrorView, EventBody, EventMessage, ExitedEvent, Outgoing,
    ResponseMessage, TerminatedEvent,
};
use crate::model::{seq_after, PendingView, SessionView, StepView};
use crate::requests::{Call, DisconnectArguments, LaunchRequestArgumentsVsc};
use crate::strings::texts;
use vstd::prelude::*;
use vstd::string::*;

verus! {

/// A request that awaits its response: what the response will echo.
#[derive(Debug, PartialEq, Eq)]
pub struct Pending {
    /// The sequence number of the request.
    pub request_seq: i64,
    /// The command of the request.
    pub command: String,
}

impl View for Pending {
    type V = PendingView;

    open spec fn view(&self) -> PendingView {
        PendingView { request_seq: self.request_seq, command: self.command@ }
    }
}

/// What a session wants done after it has looked at a request.
#[derive(Debug, PartialEq, Eq)]
pub enum Step<H> {
    /// The request is answered: send these messages, in this order.
    Done { outgoing: Vec<Outgoing> },
    /// Spawn `program` with `arguments` and with none of the three standard
    /// streams, then report to [`Debugger::spawned`].
    Spawn { pending: Pending, program: String, arguments: Vec<String> },
    /// Kill `child`, wait until it has exited, then report to
    /// [`Debugger::killed`].
    Kill { pending: Pending, child: H },
    /// Hand `child` to a background task that waits for its exit and drops
    /// the result, then report to [`Debugger::detached`] without waiting.
    Detach { pending: Pending, child: H },
}

impl<H> View for Step<H> {
    type V = StepView<H>;

    open spec fn view(&self) -> StepView<H> {
        match self {
            Step::Done { outgoing } => StepView::Done { outgoing: views(outgoing@) },
            Step::Spawn { pending, program, arguments } => StepView::Spawn {
                pending: pending@,
                program: program@,
                arguments: texts(arguments@),
            },
            Step::Kill { pending, child } => StepView::Kill { pending: pending@, child: *child },
            Step::Detach { pending, child } => StepView::Detach {
                pending: pending@,
                child: *child,
            },
        }
    }
}

/// What a handler returned, as contracts see it.
pub open spec fn handled_view(handled: Result<Option<Capabilities>, CommandError>) -> Result<
    Option<Capabilities>,
    CommandErrorView,
> {
    match handled {
        Ok(body) => Ok(body),
        Err(error) => Err(error@),
    }
}

/// What the embedding program reports, as contracts see it.
pub open spec fn outcome_view<T>(outcome: Result<T, String>) -> Result<T, Seq<char>> {
    match outcome {
        Ok(value) => Ok(value),
        Err(message) => Err(message@),
    }
}

/// A step or the reason there is none, as contracts see it.
pub open spec fn taken_view<H>(taken: Result<Step<H>, ProtocolError>) -> Result<
    StepView<H>,
    ProtocolErrorView,
> {
    match taken {
        Ok(step) => Ok(step@),
        Err(error) => Err(error@),
    }
}

/// The sequence number that follows `seq`: one more, and the least number
/// after the greatest.
pub fn following(seq: i64) -> (next: i64)
    ensures
        next == seq_after(seq),
{
    seq.wrapping_add(1)
}

/// The state of one debug session.
pub struct Debugger<H> {
    dreamseeker_exe: String,
    child: Option<H>,
    seq: i64,
    client_caps: ClientCaps,
    initialized: bool,
}

impl<H> View for Debugger<H> {
    type V = SessionView<H>;

    closed spec fn view(&self) -> SessionView<H> {
        SessionView {
            dreamseeker_exe: self.dreamseeker_exe@,
            child: self.child,
            seq: self.seq,
            client_caps: self.client_caps,
            initialized: self.initialized,
        }
    }
}

impl<H> Debugger<H> {
    /// A session that will launch `dreamseeker_exe`. It has sent nothing,
    /// negotiated nothing and owns no debuggee.
    pub fn new(dreamseeker_exe: String) -> (session: Self)
        ensures
            session@ == SessionView::<H>::fresh(dreamseeker_exe@),
    {
        Debugger {
            dreamseeker_exe,
            child: None,
            seq: 0,
            client_caps: ClientCaps::default(),
            initialized: false,
        }
    }

    /// The sequence number of the message sent last; 0 before the first.
    pub fn seq(&self) -> (seq: i64)
        ensures
            seq == self@.seq,
    {
        self.seq
    }

    /// What the client negotiated with its latest `initialize`.
    pub fn client_caps(&self) -> (caps: ClientCaps)
        ensures
            caps == self@.client_caps,
    {
        self.client_caps
    }

    /// Whether the client has sent an `initialize` yet.
    pub fn is_initialized(&self) -> (initialized: bool)
        ensures
            initialized == self@.initialized,
    {
        self.initialized
    }

    /// The debuggee that the session owns, if any.
    pub fn child(&self) -> (child: Option<&H>)
        ensures
            match child {
                Some(handle) => self@.child == Some(*handle),
                None => self@.child.is_none(),
            },
    {
        self.child.as_ref()
    }

    /// The executable that `launch` spawns.
    pub fn dreamseeker_exe(&self) -> (path: &str)
        ensures
            path@ == self@.dreamseeker_exe,
    {
        self.dreamseeker_exe.as_str()
    }

    /// Moves the counter on and returns the number it then shows: one more
    /// than before, or the least number after the greatest.
    pub fn next_seq(&mut self) -> (seq: i64)
        ensures
            final(self)@ == old(self)@.counted(),
            seq == seq_after(old(self)@.seq),
    {
        self.seq = following(self.seq);
        self.seq
    }

    /// Numbers an event that reports `body`.
    pub fn issue_event(&mut self, body: EventBody) -> (event: EventMessage)
        ensures
            final(self)@ == old(self)@.counted(),
            event == old(self)@.event(body),
    {
        EventMessage { seq: self.next_seq(), body }
    }

    /// Numbers the response that tells the sender of `pending` what became of
    /// the request.
    pub fn respond(
        &mut self,
        pending: Pending,
        handled: Result<Option<Capabilities>, CommandError>,
    ) -> (response: ResponseMessage)
        ensures
            final(self)@ == old(self)@.counted(),
            response@ == old(self)@.response(pending@, handled_view(handled)),
            response@.well_formed(),
    {
        let seq = self.next_seq();
        match handled {
            Ok(body) => ResponseMessage {
                seq,
                request_seq: pending.request_seq,
                command: pending.command,
                success: true,
                message: None,
                body,
            },
            Err(error) => ResponseMessage {
                seq,
                request_seq: pending.request_seq,
                command: pending.command,
                success: false,
                message: Some(error.message()),
                body: None,
            },
        }
    }

    /// Answers `pending` at once.
    pub fn answer(
        &mut self,
        pending: Pending,
        handled: Result<Option<Capabilities>, CommandError>,
    ) -> (outgoing: Vec<Outgoing>)
        ensures
            (final(self)@, views(outgoing@)) == old(self)@.answer(pending@, handled_view(handled)),
    {
        let response = self.respond(pending, handled);
        let outgoing = vec![Outgoing::Response(response)];
        assert(views(outgoing@) =~= seq![outgoing@[0]@]);
        outgoing
    }

    /// Sends an event that reports `body`, then answers `pending` with
    /// success.
    pub fn announce(&mut self, pending: Pending, body: EventBody) -> (outgoing: Vec<Outgoing>)
        ensures
            (final(self)@, views(outgoing@)) == old(self)@.announce(pending@, body),
    {
        let event = self.issue_event(body);
        let response = self.respond(pending, Ok(None));
        let outgoing = vec![Outgoing::Event(event), Outgoing::Response(response)];
        assert(views(outgoing@) =~= seq![outgoing@[0]@, outgoing@[1]@]);
        outgoing
    }

    /// The handler of `initialize`.
    pub fn initialize(&mut self, pending: Pending, arguments: InitializeRequestArguments) -> (step:
        Step<H>)
        ensures
            (final(self)@, step@) == old(self)@.initialize(pending@, arguments),
    {
        self.client_caps = ClientCaps::parse(&arguments);
        self.initialized = true;
        let capabilities = Capabilities { supportTerminateDebuggee: Some(true) };
        Step::Done { outgoing: self.answer(pending, Ok(Some(capabilities))) }
    }

    /// The handler of `launch`.
    pub fn launch(&self, pending: Pending, arguments: LaunchRequestArgumentsVsc) -> (step: Step<H>)
        ensures
            (self@, step@) == self@.launch(pending@, arguments@),
    {
        let program = self.dreamseeker_exe.clone();
        let flag = String::from_str("-trusted");
        let arguments = vec![arguments.dmb, flag];
        assert(texts(arguments@) =~= seq![arguments@[0]@, arguments@[1]@]);
        Step::Spawn { pending, program, arguments }
    }

    /// The handler of `disconnect`.
    pub fn disconnect(&mut self, pending: Pending, arguments: DisconnectArguments) -> (step: Step<
        H,
    >)
        ensures
            (final(self)@, step@) == old(self)@.disconnect(pending@, arguments),
    {
        match self.child.take() {
            None => Step::Done { outgoing: self.answer(pending, Ok(None)) },
            Some(child) => if arguments.terminate() {
                Step::Kill { pending, child }
            } else {
                Step::Detach { pending, child }
            },
        }
    }

    /// Carries out `call` for the request `pending`.
    pub fn invoke(&mut self, pending: Pending, call: Call) -> (step: Step<H>)
        ensures
            (final(self)@, step@) == old(self)@.invoke(pending@, call@),
    {
        match call {
            Call::Initialize(arguments) => self.initialize(pending, arguments),
            Call::Launch(arguments) => self.launch(pending, arguments),
            Call::Disconnect(arguments) => self.disconnect(pending, arguments),
        }
    }

    /// Takes a request: looks its command up, reads its arguments and
    /// carries the call out, or answers with the reason why not.
    pub fn handle_request(&mut self, request: RequestMessage) -> (step: Step<H>)
        ensures
            (final(self)@, step@) == old(self)@.handle_request(request@),
    {
        let call = decode_call(request.command.as_str(), request.arguments);
        let pending = Pending { request_seq: request.seq, command: request.command };
        match call {
            Ok(call) => self.invoke(pending, call),
            Err(error) => Step::Done { outgoing: self.answer(pending, Err(error)) },
        }
    }

    /// Takes one incoming message as a JSON document. A document that is
    /// no request is an error, and the session stays as it is.
    pub fn handle_document(&mut self, document: &serde_json::Value) -> (taken: Result<
        Step<H>,
        ProtocolError,
    >)
        ensures
            (final(self)@, taken_view(taken)) == old(self)@.handle_document(*document),
    {
        match decode_request(document) {
            Ok(request) => Ok(self.handle_request(request)),
            Err(error) => Err(error),
        }
    }

    /// Takes one incoming message as the text of a JSON document. A text
    /// that is not JSON, or is no request, is an error, and the session
    /// stays as it is.
    pub fn handle_input_inner(&mut self, message: &str) -> (taken: Result<Step<H>, ProtocolError>)
        ensures
            (final(self)@, taken_view(taken)) == old(self)@.handle_input(message@),
    {
        match from_text(message) {
            Ok(document) => self.handle_document(&document),
            Err(error) => Err(ProtocolError::Syntax { message: error_message(&error) }),
        }
    }

    /// Takes the outcome of a [`Step::Spawn`]: the handle of the new
    /// debuggee, or what the operating system said against it.
    pub fn spawned(&mut self, pending: Pending, outcome: Result<H, String>) -> (outgoing: Vec<
        Outgoing,
    >)
        ensures
            (final(self)@, views(outgoing@)) == old(self)@.spawned(pending@, outcome_view(outcome)),
    {
        match outcome {
            Ok(child) => {
                self.child = Some(child);
                self.answer(pending, Ok(None))
            },
            Err(message) => self.answer(pending, Err(CommandError::Os { message })),
        }
    }

    /// Takes the outcome of a [`Step::Kill`]: the exit code of the debuggee,
    /// `None` where it ended without one, or what the operating system said
    /// against killing or awaiting it.
    pub fn killed(&mut self, pending: Pending, outcome: Result<Option<i32>, String>) -> (outgoing:
        Vec<Outgoing>)
        ensures
            (final(self)@, views(outgoing@)) == old(self)@.killed(pending@, outcome_view(outcome)),
    {
        match outcome {
            Ok(code) => {
                let exit_code: i64 = match code {
                    Some(code) => code as i64,
                    None => -1,
                };
                self.announce(pending, EventBody::Exited(ExitedEvent { exitCode: exit_code }))
            },
            Err(message) => self.answer(pending, Err(CommandError::Os { message })),
        }
    }

    /// Takes the outcome of a [`Step::Detach`]: that the debuggee was handed
    /// off, or what the operating system said against it.
    pub fn detached(&mut self, pending: Pending, outcome: Result<(), String>) -> (outgoing: Vec<
        Outgoing,
    >)
        ensures
            (final(self)@, views(outgoing@)) == old(self)@.detached(pending@, outcome_view(outcome)),
    {
        match outcome {
            Ok(_) => self.announce(pending, EventBody::Terminated(TerminatedEvent {  })),
            Err(message) => self.answer(pending, Err(CommandError::Os { message })),
        }
    }
}

} // verus!
