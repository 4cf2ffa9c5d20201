//! The envelope that every message of the protocol shares, and the reading
//! of a request out of a JSON document.
//!
//! A message is a JSON object with a sequence number under `seq` and its
//! kind under `type`. A message of the kind `request` names a command under
//! `command` and may carry `arguments`. The adapter reads the envelope first
//! and looks at nothing else unless the kind is `request`.

use crate::json::{get_member, integer_of, member, text_of};
use vstd::prelude::*;
use vstd::string::*;

verus! {

/// A member that a message must have.
#[derive(Clone, Copy, Debug, PartialEq, Eq, Structural)]
pub enum EnvelopeField {
    /// `seq`, an integer.
    Sequence,
    /// `type`, a string.
    Kind,
    /// `command`, a string.
    Command,
}

impl EnvelopeField {
    /// The key of the member.
    pub open spec fn spec_key(self) -> Seq<char> {
        match self {
            EnvelopeField::Sequence => "seq"@,
            EnvelopeField::Kind => "type"@,
            EnvelopeField::Command => "command"@,
        }
    }

    /// The key of the member.
    pub fn key(&self) -> (key: &'static str)
        ensures
            key@ == self.spec_key(),
    {
        match self {
            EnvelopeField::Sequence => "seq",
            EnvelopeField::Kind => "type",
            EnvelopeField::Command => "command",
        }
    }
}

/// The kind of the messages that a client sends for the adapter to act on.
pub open spec fn request_kind() -> Seq<char> {
    "request"@
}

/// Why an incoming message could not be taken as a request. No response can
/// answer such a message, and the session does not outlive it.
#[derive(Debug, PartialEq, Eq)]
pub enum ProtocolError {
    /// The message is not JSON; `message` is what the parser said.
    Syntax { message: String },
    /// The message lacks `field`, or holds a value of the wrong type there.
    Field { field: EnvelopeField },
    /// The message is of the kind `kind`, which is not `request`.
    UnknownType { kind: String },
}

/// What contracts say of a [`ProtocolError`].
pub enum ProtocolErrorView {
    Syntax { message: Seq<char> },
    Field { field: EnvelopeField },
    UnknownType { kind: Seq<char> },
}

impl View for ProtocolError {
    type V = ProtocolErrorView;

    open spec fn view(&self) -> ProtocolErrorView {
        match self {
            ProtocolError::Syntax { message } => ProtocolErrorView::Syntax { message: message@ },
            ProtocolError::Field { field } => ProtocolErrorView::Field { field: *field },
            ProtocolError::UnknownType { kind } => ProtocolErrorView::UnknownType { kind: kind@ },
        }
    }
}

impl ProtocolErrorView {
    /// The text that describes this error.
    pub open spec fn text(self) -> Seq<char> {
        match self {
            ProtocolErrorView::Syntax { message } => message,
            ProtocolErrorView::Field { field } => "missing or invalid field `"@ + field.spec_key()
                + "`"@,
            ProtocolErrorView::UnknownType { kind } => "unknown `type` field \""@ + kind + "\""@,
        }
    }
}

impl ProtocolError {
    /// The text that describes this error.
    pub fn message(&self) -> (text: String)
        ensures
            text@ == self@.text(),
    {
        match self {
            ProtocolError::Syntax { message } => message.clone(),
            ProtocolError::Field { field } => {
                let mut text = String::from_str("missing or invalid field `");
                text.append(field.key());
                text.append("`");
                text
            },
            ProtocolError::UnknownType { kind } => {
                let mut text = String::from_str("unknown `type` field \"");
                text.append(kind.as_str());
                text.append("\"");
                text
            },
        }
    }
}

/// The envelope of a message: its sequence number and its kind.
#[derive(Debug, PartialEq, Eq)]
pub struct ProtocolMessage {
    /// The sequence number that the sender gave the message.
    pub seq: i64,
    /// The kind of the message: `request`, `response`, `event` or another.
    pub type_: String,
}

/// What contracts say of a [`ProtocolMessage`].
pub struct ProtocolMessageView {
    pub seq: i64,
    pub type_: Seq<char>,
}

impl View for ProtocolMessage {
    type V = ProtocolMessageView;

    open spec fn view(&self) -> ProtocolMessageView {
        ProtocolMessageView { seq: self.seq, type_: self.type_@ }
    }
}

/// A request as it came: its sequence number, its command, and its
/// arguments as the JSON they are.
#[derive(Debug, PartialEq, Eq)]
pub struct RequestMessage<'a> {
    /// The sequence number that the client gave the request.
    pub seq: i64,
    /// The name of the command.
    pub command: String,
    /// The member `arguments` of the message, if it has one.
    pub arguments: Option<&'a serde_json::Value>,
}

/// What contracts say of a [`RequestMessage`].
pub struct RequestView {
    pub seq: i64,
    pub command: Seq<char>,
    pub arguments: Option<serde_json::Value>,
}

impl<'a> View for RequestMessage<'a> {
    type V = RequestView;

    open spec fn view(&self) -> RequestView {
        RequestView {
            seq: self.seq,
            command: self.command@,
            arguments: match self.arguments {
                Some(arguments) => Some(*arguments),
                None => None,
            },
        }
    }
}

/// A decoded value or the reason there is none, as contracts see it.
pub open spec fn decoded_view<T: View>(decoded: Result<T, ProtocolError>) -> Result<
    T::V,
    ProtocolErrorView,
> {
    match decoded {
        Ok(value) => Ok(value@),
        Err(error) => Err(error@),
    }
}

/// A plain value or the reason there is none, as contracts see it.
pub open spec fn failure_view<T>(decoded: Result<T, ProtocolError>) -> Result<T, ProtocolErrorView> {
    match decoded {
        Ok(value) => Ok(value),
        Err(error) => Err(error@),
    }
}

/// The integer under `field` in `document`.
pub open spec fn integer_field(document: serde_json::Value, field: EnvelopeField) -> Result<
    i64,
    ProtocolErrorView,
> {
    match member(document, field.spec_key()) {
        Some(value) => match integer_of(value) {
            Some(integer) => Ok(integer),
            None => Err(ProtocolErrorView::Field { field }),
        },
        None => Err(ProtocolErrorView::Field { field }),
    }
}

/// The string under `field` in `document`.
pub open spec fn text_field(document: serde_json::Value, field: EnvelopeField) -> Result<
    Seq<char>,
    ProtocolErrorView,
> {
    match member(document, field.spec_key()) {
        Some(value) => match text_of(value) {
            Some(text) => Ok(text),
            None => Err(ProtocolErrorView::Field { field }),
        },
        None => Err(ProtocolErrorView::Field { field }),
    }
}

/// The envelope of `document`: it must be an object with an integer under
/// `seq` and a string under `type`.
pub open spec fn envelope_of(document: serde_json::Value) -> Result<
    ProtocolMessageView,
    ProtocolErrorView,
> {
    match integer_field(document, EnvelopeField::Sequence) {
        Err(error) => Err(error),
        Ok(seq) => match text_field(document, EnvelopeField::Kind) {
            Err(error) => Err(error),
            Ok(type_) => Ok(ProtocolMessageView { seq, type_ }),
        },
    }
}

/// The request that `document` is: its envelope must be of the kind
/// `request`, and it must have a string under `command`. What is under
/// `arguments` is taken as it is.
pub open spec fn request_of(document: serde_json::Value) -> Result<RequestView, ProtocolErrorView> {
    match envelope_of(document) {
        Err(error) => Err(error),
        Ok(envelope) => if envelope.type_ != request_kind() {
            Err(ProtocolErrorView::UnknownType { kind: envelope.type_ })
        } else {
            match text_field(document, EnvelopeField::Command) {
                Err(error) => Err(error),
                Ok(command) => Ok(
                    RequestView {
                        seq: envelope.seq,
                        command,
                        arguments: member(document, "arguments"@),
                    },
                ),
            }
        },
    }
}

/// Reads the integer under `field`.
fn read_integer(document: &serde_json::Value, field: EnvelopeField) -> (integer: Result<
    i64,
    ProtocolError,
>)
    ensures
        failure_view(integer) == integer_field(*document, field),
{
    match get_member(document, field.key()) {
        Some(value) => match value.as_i64() {
            Some(integer) => Ok(integer),
            None => Err(ProtocolError::Field { field }),
        },
        None => Err(ProtocolError::Field { field }),
    }
}

/// Reads the string under `field`.
fn read_text(document: &serde_json::Value, field: EnvelopeField) -> (text: Result<
    String,
    ProtocolError,
>)
    ensures
        decoded_view(text) == text_field(*document, field),
{
    match get_member(document, field.key()) {
        Some(value) => match value.as_str() {
            Some(text) => Ok(text.to_owned()),
            None => Err(ProtocolError::Field { field }),
        },
        None => Err(ProtocolError::Field { field }),
    }
}

/// Reads the envelope of a message, and nothing else of it.
pub fn decode_envelope(document: &serde_json::Value) -> (envelope: Result<
    ProtocolMessage,
    ProtocolError,
>)
    ensures
        decoded_view(envelope) == envelope_of(*document),
{
    let seq = match read_integer(document, EnvelopeField::Sequence) {
        Ok(seq) => seq,
        Err(error) => { return Err(error); },
    };
    let type_ = match read_text(document, EnvelopeField::Kind) {
        Ok(type_) => type_,
        Err(error) => { return Err(error); },
    };
    Ok(ProtocolMessage { seq, type_ })
}

/// Reads a message as a request: the envelope first, and the rest only if
/// the envelope says `request`.
pub fn decode_request<'a>(document: &'a serde_json::Value) -> (request: Result<
    RequestMessage<'a>,
    ProtocolError,
>)
    ensures
        decoded_view(request) == request_of(*document),
{
    let envelope = match decode_envelope(document) {
        Ok(envelope) => envelope,
        Err(error) => { return Err(error); },
    };
    if envelope.type_ != String::from_str("request") {
        return Err(ProtocolError::UnknownType { kind: envelope.type_ });
    }
    let command = match read_text(document, EnvelopeField::Command) {
        Ok(command) => command,
        Err(error) => { return Err(error); },
    };
    Ok(RequestMessage { seq: envelope.seq, command, arguments: get_member(document, "arguments") })
}

} // verus!
