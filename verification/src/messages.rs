//! The messages an adapter sends: responses to requests, and events.
//!
//! Every outgoing message carries a sequence number of the sender's. A
//! response echoes the sequence number and the command of the request it
//! answers, and says whether the request succeeded; an event says what
//! happened to the debuggee.

use crate::capabilities::Capabilities;
use vstd::prelude::*;
use vstd::string::*;

verus! {

/// Why a request could not be carried out. The session goes on; the client is
/// told with a response that has `success: false` and this error's message.
#[derive(Debug, PartialEq, Eq)]
pub enum CommandError {
    /// No handler is registered under the request's command.
    UnknownCommand { command: String },
    /// The request's `arguments` are missing or are not a JSON object.
    ArgumentsNotObject,
    /// The member `name` of the request's `arguments` is missing though the
    /// command needs it, or holds a value of the wrong type.
    InvalidArgument { name: String },
    /// The operating system refused to spawn, kill, await or hand off the
    /// debuggee; `message` is what it said.
    Os { message: String },
}

/// What contracts say of a [`CommandError`].
pub enum CommandErrorView {
    UnknownCommand { command: Seq<char> },
    ArgumentsNotObject,
    InvalidArgument { name: Seq<char> },
    Os { message: Seq<char> },
}

impl View for CommandError {
    type V = CommandErrorView;

    open spec fn view(&self) -> CommandErrorView {
        match self {
            CommandError::UnknownCommand { command } => CommandErrorView::UnknownCommand {
                command: command@,
            },
            CommandError::ArgumentsNotObject => CommandErrorView::ArgumentsNotObject,
            CommandError::InvalidArgument { name } => CommandErrorView::InvalidArgument {
                name: name@,
            },
            CommandError::Os { message } => CommandErrorView::Os { message: message@ },
        }
    }
}

impl CommandErrorView {
    /// The text that tells the client of this error.
    pub open spec fn text(self) -> Seq<char> {
        match self {
            CommandErrorView::UnknownCommand { command } => "unknown command `"@ + command + "`"@,
            CommandErrorView::ArgumentsNotObject => "invalid arguments: expected an object"@,
            CommandErrorView::InvalidArgument { name } => "invalid argument `"@ + name + "`"@,
            CommandErrorView::Os { message } => message,
        }
    }
}

impl CommandError {
    /// The text that tells the client of this error.
    pub fn message(&self) -> (text: String)
        ensures
            text@ == self@.text(),
    {
        match self {
            CommandError::UnknownCommand { command } => {
                let mut text = String::from_str("unknown command `");
                text.append(command.as_str());
                text.append("`");
                text
            },
            CommandError::ArgumentsNotObject => String::from_str(
                "invalid arguments: expected an object",
            ),
            CommandError::InvalidArgument { name } => {
                let mut text = String::from_str("invalid argument `");
                text.append(name.as_str());
                text.append("`");
                text
            },
            CommandError::Os { message } => message.clone(),
        }
    }
}

/// The body of an `exited` event.
#[allow(non_snake_case)]
#[derive(Clone, Copy, Debug, PartialEq, Eq, Structural)]
pub struct ExitedEvent {
    /// The exit code of the debuggee, or -1 where it ended without one.
    pub exitCode: i64,
}

/// The body of a `terminated` event. It has no members: in particular it
/// says nothing of how, or whether, the debuggee exited.
#[derive(Clone, Copy, Debug, PartialEq, Eq, Structural)]
pub struct TerminatedEvent {}

/// What an event reports.
#[derive(Clone, Copy, Debug, PartialEq, Eq, Structural)]
pub enum EventBody {
    /// The debuggee was killed and has exited.
    Exited(ExitedEvent),
    /// Debugging has ended; the debuggee was left running.
    Terminated(TerminatedEvent),
}

impl EventBody {
    /// The name the protocol gives this kind of event.
    pub open spec fn spec_name(self) -> Seq<char> {
        match self {
            EventBody::Exited(_) => "exited"@,
            EventBody::Terminated(_) => "terminated"@,
        }
    }

    /// The name the protocol gives this kind of event.
    pub fn name(&self) -> (name: &'static str)
        ensures
            name@ == self.spec_name(),
    {
        match self {
            EventBody::Exited(_) => "exited",
            EventBody::Terminated(_) => "terminated",
        }
    }
}

/// An event, numbered for sending.
#[derive(Clone, Copy, Debug, PartialEq, Eq, Structural)]
pub struct EventMessage {
    /// The sequence number of this message.
    pub seq: i64,
    /// What happened.
    pub body: EventBody,
}

/// The response to a request, numbered for sending.
#[derive(Debug, PartialEq, Eq)]
pub struct ResponseMessage {
    /// The sequence number of this message.
    pub seq: i64,
    /// The sequence number of the request that this answers.
    pub request_seq: i64,
    /// The command of the request that this answers.
    pub command: String,
    /// Whether the request was carried out.
    pub success: bool,
    /// Why it was not: present exactly when `success` is false.
    pub message: Option<String>,
    /// What the handler returned: present only when `success` is true, and
    /// only for a command whose handler returns something.
    pub body: Option<Capabilities>,
}

/// What contracts say of a [`ResponseMessage`].
pub struct ResponseView {
    pub seq: i64,
    pub request_seq: i64,
    pub command: Seq<char>,
    pub success: bool,
    pub message: Option<Seq<char>>,
    pub body: Option<Capabilities>,
}

impl ResponseView {
    /// A response carries a message exactly when it reports a failure, and a
    /// body only when it reports success.
    pub open spec fn well_formed(self) -> bool {
        &&& self.success <==> self.message.is_none()
        &&& self.body.is_some() ==> self.success
    }
}

impl View for ResponseMessage {
    type V = ResponseView;

    open spec fn view(&self) -> ResponseView {
        ResponseView {
            seq: self.seq,
            request_seq: self.request_seq,
            command: self.command@,
            success: self.success,
            message: match self.message {
                Some(text) => Some(text@),
                None => None,
            },
            body: self.body,
        }
    }
}

/// A message on its way to the client.
#[derive(Debug, PartialEq, Eq)]
pub enum Outgoing {
    Event(EventMessage),
    Response(ResponseMessage),
}

/// What contracts say of an [`Outgoing`].
pub enum OutgoingView {
    Event(EventMessage),
    Response(ResponseView),
}

impl OutgoingView {
    /// The sequence number of the message.
    pub open spec fn seq(self) -> i64 {
        match self {
            OutgoingView::Event(event) => event.seq,
            OutgoingView::Response(response) => response.seq,
        }
    }
}

impl View for Outgoing {
    type V = OutgoingView;

    open spec fn view(&self) -> OutgoingView {
        match self {
            Outgoing::Event(event) => OutgoingView::Event(*event),
            Outgoing::Response(response) => OutgoingView::Response(response@),
        }
    }
}

impl Outgoing {
    /// The sequence number of the message.
    pub fn seq(&self) -> (seq: i64)
        ensures
            seq == self@.seq(),
    {
        match self {
            Outgoing::Event(event) => event.seq,
            Outgoing::Response(response) => response.seq,
        }
    }
}

/// The messages of `outgoing` as contracts see them, in order.
pub open spec fn views(outgoing: Seq<Outgoing>) -> Seq<OutgoingView> {
    Seq::new(outgoing.len(), |i: int| outgoing[i]@)
}

} // verus!
