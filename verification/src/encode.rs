//! The writing of outgoing messages as JSON.
//!
//! A message is built as a JSON object, member by member, and handed to
//! `serde_json` to be written as text. What is proved here is which members
//! the object has and what each of them reads back as; how an object looks
//! as text is `serde_json`'s business.

use crate::capabilities::Capabilities;
use crate::json::{
    entries, error_message, error_text, flag_of, flag_value, integer_of, integer_value,
    new_object, object_of, object_value, rendered, set_member, text_of, text_value, to_text,
};
use crate::messages::{
    EventBody, EventMessage, Outgoing, OutgoingView, ResponseMessage, ResponseView,
};
use vstd::prelude::*;
use vstd::string::*;

verus! {

/// Whether `members` has the integer `integer` under `key`.
pub open spec fn holds_integer(
    members: Map<Seq<char>, serde_json::Value>,
    key: Seq<char>,
    integer: i64,
) -> bool {
    members.contains_key(key) && integer_of(members[key]) == Some(integer)
}

/// Whether `members` has the string `text` under `key`.
pub open spec fn holds_text(
    members: Map<Seq<char>, serde_json::Value>,
    key: Seq<char>,
    text: Seq<char>,
) -> bool {
    members.contains_key(key) && text_of(members[key]) == Some(text)
}

/// Whether `members` has the truth value `flag` under `key`.
pub open spec fn holds_flag(
    members: Map<Seq<char>, serde_json::Value>,
    key: Seq<char>,
    flag: bool,
) -> bool {
    members.contains_key(key) && flag_of(members[key]) == Some(flag)
}

/// Whether `value` is the JSON object that stands for `capabilities`: it
/// has a member for each capability that is not `None`, and no other.
pub open spec fn represents_capabilities(
    value: serde_json::Value,
    capabilities: Capabilities,
) -> bool {
    match object_of(value) {
        None => false,
        Some(members) => match capabilities.supportTerminateDebuggee {
            Some(flag) => {
                &&& members.dom() == set!["supportTerminateDebuggee"@]
                &&& holds_flag(members, "supportTerminateDebuggee"@, flag)
            },
            None => members.dom() == Set::<Seq<char>>::empty(),
        },
    }
}

/// Whether `value` is the JSON object that stands for the body of an event:
/// `exitCode` for `exited`, nothing for `terminated`.
pub open spec fn represents_event_body(value: serde_json::Value, body: EventBody) -> bool {
    match object_of(value) {
        None => false,
        Some(members) => match body {
            EventBody::Exited(exited) => {
                &&& members.dom() == set!["exitCode"@]
                &&& holds_integer(members, "exitCode"@, exited.exitCode)
            },
            EventBody::Terminated(_) => members.dom() == Set::<Seq<char>>::empty(),
        },
    }
}

/// Whether `value` is the JSON object that stands for `event`: the
/// envelope of the kind `event`, the event's name and its body.
pub open spec fn represents_event(value: serde_json::Value, event: EventMessage) -> bool {
    match object_of(value) {
        None => false,
        Some(members) => {
            &&& members.dom() == set!["seq"@, "type"@, "event"@, "body"@]
            &&& holds_integer(members, "seq"@, event.seq)
            &&& holds_text(members, "type"@, "event"@)
            &&& holds_text(members, "event"@, event.body.spec_name())
            &&& represents_event_body(members["body"@], event.body)
        },
    }
}

/// The keys of the JSON object that stands for `response`: `message` and
/// `body` are there only where the response has them.
pub open spec fn response_keys(response: ResponseView) -> Set<Seq<char>> {
    let always = set!["seq"@, "type"@, "request_seq"@, "command"@, "success"@];
    let with_message = if response.message is Some {
        always.insert("message"@)
    } else {
        always
    };
    if response.body is Some {
        with_message.insert("body"@)
    } else {
        with_message
    }
}

/// Whether `value` is the JSON object that stands for `response`: the
/// envelope of the kind `response` and each field of the response under
/// its name.
pub open spec fn represents_response(value: serde_json::Value, response: ResponseView) -> bool {
    match object_of(value) {
        None => false,
        Some(members) => {
            &&& members.dom() == response_keys(response)
            &&& holds_integer(members, "seq"@, response.seq)
            &&& holds_text(members, "type"@, "response"@)
            &&& holds_integer(members, "request_seq"@, response.request_seq)
            &&& holds_text(members, "command"@, response.command)
            &&& holds_flag(members, "success"@, response.success)
            &&& response.message matches Some(text) ==> holds_text(members, "message"@, text)
            &&& response.body matches Some(capabilities) ==> represents_capabilities(
                members["body"@],
                capabilities,
            )
        },
    }
}

/// Whether `value` is the JSON object that stands for `message`.
pub open spec fn represents(value: serde_json::Value, message: OutgoingView) -> bool {
    match message {
        OutgoingView::Event(event) => represents_event(value, event),
        OutgoingView::Response(response) => represents_response(value, response),
    }
}

/// The keys of the members of a message are different strings.
proof fn keys_differ()
    ensures
        "seq"@ != "type"@,
        "seq"@ != "request_seq"@,
        "seq"@ != "command"@,
        "seq"@ != "success"@,
        "seq"@ != "message"@,
        "seq"@ != "body"@,
        "seq"@ != "event"@,
        "type"@ != "request_seq"@,
        "type"@ != "command"@,
        "type"@ != "success"@,
        "type"@ != "message"@,
        "type"@ != "body"@,
        "type"@ != "event"@,
        "request_seq"@ != "command"@,
        "request_seq"@ != "success"@,
        "request_seq"@ != "message"@,
        "request_seq"@ != "body"@,
        "command"@ != "success"@,
        "command"@ != "message"@,
        "command"@ != "body"@,
        "success"@ != "message"@,
        "success"@ != "body"@,
        "message"@ != "body"@,
        "event"@ != "body"@,
{
    reveal_strlit("seq");
    reveal_strlit("type");
    reveal_strlit("request_seq");
    reveal_strlit("command");
    reveal_strlit("success");
    reveal_strlit("message");
    reveal_strlit("body");
    reveal_strlit("event");
    assert("seq"@.len() == 3);
    assert("type"@.len() == 4);
    assert("request_seq"@.len() == 11);
    assert("command"@.len() == 7);
    assert("success"@.len() == 7);
    assert("message"@.len() == 7);
    assert("body"@.len() == 4);
    assert("event"@.len() == 5);
    assert("type"@[0] == 't');
    assert("body"@[0] == 'b');
    assert("command"@[0] == 'c');
    assert("success"@[0] == 's');
    assert("message"@[0] == 'm');
}

/// Puts `value` under `key`.
fn put(object: &mut serde_json::Map<String, serde_json::Value>, key: &str, value: serde_json::Value)
    ensures
        entries(*final(object)) == entries(*old(object)).insert(key@, value),
{
    set_member(object, key.to_owned(), value);
}

/// Builds the JSON object that stands for `capabilities`.
pub fn capabilities_value(capabilities: &Capabilities) -> (value: serde_json::Value)
    ensures
        represents_capabilities(value, *capabilities),
{
    let mut object = new_object();
    match capabilities.supportTerminateDebuggee {
        Some(flag) => {
            put(&mut object, "supportTerminateDebuggee", flag_value(flag));
            assert(entries(object).dom() =~= set!["supportTerminateDebuggee"@]);
        },
        None => {
            assert(entries(object).dom() =~= Set::<Seq<char>>::empty());
        },
    }
    object_value(object)
}

/// Builds the JSON object that stands for the body of an event.
pub fn event_body_value(body: &EventBody) -> (value: serde_json::Value)
    ensures
        represents_event_body(value, *body),
{
    let mut object = new_object();
    match body {
        EventBody::Exited(exited) => {
            put(&mut object, "exitCode", integer_value(exited.exitCode));
            assert(entries(object).dom() =~= set!["exitCode"@]);
        },
        EventBody::Terminated(_) => {
            assert(entries(object).dom() =~= Set::<Seq<char>>::empty());
        },
    }
    object_value(object)
}

/// Builds the JSON object that stands for `event`.
pub fn event_value(event: &EventMessage) -> (value: serde_json::Value)
    ensures
        represents_event(value, *event),
{
    let mut object = new_object();
    put(&mut object, "seq", integer_value(event.seq));
    put(&mut object, "type", text_value(String::from_str("event")));
    put(&mut object, "event", text_value(String::from_str(event.body.name())));
    put(&mut object, "body", event_body_value(&event.body));
    proof {
        keys_differ();
        assert(entries(object).dom() =~= set!["seq"@, "type"@, "event"@, "body"@]);
    }
    object_value(object)
}

/// Builds the JSON object that stands for `response`.
pub fn response_value(response: &ResponseMessage) -> (value: serde_json::Value)
    ensures
        represents_response(value, response@),
{
    let mut object = new_object();
    put(&mut object, "seq", integer_value(response.seq));
    put(&mut object, "type", text_value(String::from_str("response")));
    put(&mut object, "request_seq", integer_value(response.request_seq));
    put(&mut object, "command", text_value(response.command.clone()));
    put(&mut object, "success", flag_value(response.success));
    proof {
        keys_differ();
        assert(entries(object).dom() =~= set![
            "seq"@,
            "type"@,
            "request_seq"@,
            "command"@,
            "success"@,
        ]);
    }
    match &response.message {
        Some(text) => {
            put(&mut object, "message", text_value(text.clone()));
        },
        None => {},
    }
    match &response.body {
        Some(capabilities) => {
            put(&mut object, "body", capabilities_value(capabilities));
        },
        None => {},
    }
    assert(entries(object).dom() =~= response_keys(response@));
    object_value(object)
}

/// Builds the JSON object that stands for `message`.
pub fn outgoing_value(message: &Outgoing) -> (value: serde_json::Value)
    ensures
        represents(value, message@),
{
    match message {
        Outgoing::Event(event) => event_value(event),
        Outgoing::Response(response) => response_value(response),
    }
}

/// Why a message could not be written as text.
#[derive(Debug, PartialEq, Eq)]
pub struct EncodeError {
    /// What the writer said.
    pub message: String,
}

/// Whether `encoded` is what writing `value` as text comes to: the text
/// that `serde_json` gives for it, or the message of the error it gives.
pub open spec fn written(value: serde_json::Value, encoded: Result<String, EncodeError>) -> bool {
    match encoded {
        Ok(text) => rendered(value) == Ok::<Seq<char>, serde_json::Error>(text@),
        Err(error) => rendered(value) is Err && error.message@ == error_text(
            rendered(value)->Err_0,
        ),
    }
}

/// Writes the JSON object `value` as text.
pub fn write_value(value: &serde_json::Value) -> (encoded: Result<String, EncodeError>)
    ensures
        written(*value, encoded),
{
    match to_text(value) {
        Ok(text) => Ok(text),
        Err(error) => Err(EncodeError { message: error_message(&error) }),
    }
}

/// Writes `message` as the text of a JSON object: the text of some object
/// that stands for the message.
pub fn encode(message: &Outgoing) -> (encoded: Result<String, EncodeError>)
    ensures
        exists|value: serde_json::Value| #[trigger]
            represents(value, message@) && written(value, encoded),
{
    let value = outgoing_value(message);
    write_value(&value)
}

} // verus!
