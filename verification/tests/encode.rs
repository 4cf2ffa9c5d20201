use debug_adapter::capabilities::Capabilities;
use debug_adapter::encode::{
    capabilities_value, encode, event_body_value, event_value, outgoing_value, response_value,
    write_value,
};
use debug_adapter::envelope::{decode_envelope, decode_request, ProtocolError, ProtocolMessage};
use debug_adapter::messages::{
    EventBody, EventMessage, ExitedEvent, Outgoing, ResponseMessage, TerminatedEvent,
};
use serde_json::Value;

fn json(text: &str) -> Value {
    serde_json::from_str(text).unwrap()
}

fn response(success: bool, message: Option<&str>, body: Option<Capabilities>) -> ResponseMessage {
    ResponseMessage {
        seq: 8,
        request_seq: 3,
        command: "launch".to_owned(),
        success,
        message: message.map(|text| text.to_owned()),
        body,
    }
}

#[test]
fn capabilities_hold_what_is_advertised() {
    assert_eq!(
        capabilities_value(&Capabilities { supportTerminateDebuggee: Some(true) }),
        json(r#"{"supportTerminateDebuggee":true}"#)
    );
    assert_eq!(
        capabilities_value(&Capabilities { supportTerminateDebuggee: Some(false) }),
        json(r#"{"supportTerminateDebuggee":false}"#)
    );
    assert_eq!(capabilities_value(&Capabilities { supportTerminateDebuggee: None }), json("{}"));
}

#[test]
fn event_bodies_hold_their_fields() {
    assert_eq!(
        event_body_value(&EventBody::Exited(ExitedEvent { exitCode: -1 })),
        json(r#"{"exitCode":-1}"#)
    );
    assert_eq!(
        event_body_value(&EventBody::Exited(ExitedEvent { exitCode: i64::MIN })),
        json(r#"{"exitCode":-9223372036854775808}"#)
    );
    assert_eq!(event_body_value(&EventBody::Terminated(TerminatedEvent {})), json("{}"));
}

#[test]
fn event_names() {
    assert_eq!(EventBody::Exited(ExitedEvent { exitCode: 0 }).name(), "exited");
    assert_eq!(EventBody::Terminated(TerminatedEvent {}).name(), "terminated");
}

#[test]
fn exited_event_as_json() {
    let event = EventMessage { seq: 5, body: EventBody::Exited(ExitedEvent { exitCode: 137 }) };
    assert_eq!(
        event_value(&event),
        json(r#"{"seq":5,"type":"event","event":"exited","body":{"exitCode":137}}"#)
    );
}

#[test]
fn terminated_event_as_json() {
    let event = EventMessage { seq: -2, body: EventBody::Terminated(TerminatedEvent {}) };
    assert_eq!(
        event_value(&event),
        json(r#"{"seq":-2,"type":"event","event":"terminated","body":{}}"#)
    );
}

#[test]
fn successful_response_as_json() {
    assert_eq!(
        response_value(&response(true, None, None)),
        json(r#"{"seq":8,"type":"response","request_seq":3,"command":"launch","success":true}"#)
    );
}

#[test]
fn successful_response_with_body_as_json() {
    let body = Capabilities { supportTerminateDebuggee: Some(true) };
    assert_eq!(
        response_value(&response(true, None, Some(body))),
        json(
            r#"{"seq":8,"type":"response","request_seq":3,"command":"launch","success":true,
                "body":{"supportTerminateDebuggee":true}}"#
        )
    );
}

#[test]
fn failed_response_as_json() {
    assert_eq!(
        response_value(&response(false, Some("no \"such\" file\n"), None)),
        json(
            r#"{"seq":8,"type":"response","request_seq":3,"command":"launch","success":false,
                "message":"no \"such\" file\n"}"#
        )
    );
}

#[test]
fn outgoing_value_follows_the_kind() {
    let event = EventMessage { seq: 1, body: EventBody::Terminated(TerminatedEvent {}) };
    assert_eq!(outgoing_value(&Outgoing::Event(event)), event_value(&event));
    assert_eq!(
        outgoing_value(&Outgoing::Response(response(true, None, None))),
        response_value(&response(true, None, None))
    );
}

#[test]
fn write_value_gives_json_text() {
    assert_eq!(write_value(&json(r#"{ "a" : [1, 2, {"b": null}] }"#)), Ok(r#"{"a":[1,2,{"b":null}]}"#.to_owned()));
    assert_eq!(write_value(&json("true")), Ok("true".to_owned()));
}

#[test]
fn encode_gives_text_that_reads_back() {
    let message = Outgoing::Response(response(false, Some("spawn failed"), None));
    let text = encode(&message).unwrap();
    assert_eq!(json(&text), outgoing_value(&message));
    let message =
        Outgoing::Event(EventMessage { seq: 77, body: EventBody::Exited(ExitedEvent { exitCode: 9 }) });
    let text = encode(&message).unwrap();
    assert_eq!(
        json(&text),
        json(r#"{"seq":77,"type":"event","event":"exited","body":{"exitCode":9}}"#)
    );
}

#[test]
fn outgoing_seq_is_that_of_the_message() {
    let event = EventMessage { seq: 31, body: EventBody::Terminated(TerminatedEvent {}) };
    assert_eq!(Outgoing::Event(event).seq(), 31);
    assert_eq!(Outgoing::Response(response(true, None, None)).seq(), 8);
}

#[test]
fn outgoing_envelope_reads_back() {
    let answer = Outgoing::Response(response(true, None, None));
    let value = outgoing_value(&answer);
    assert_eq!(decode_envelope(&value), Ok(ProtocolMessage { seq: 8, type_: "response".to_owned() }));
    assert_eq!(
        decode_request(&value),
        Err(ProtocolError::UnknownType { kind: "response".to_owned() })
    );
    let event =
        Outgoing::Event(EventMessage { seq: 9, body: EventBody::Exited(ExitedEvent { exitCode: 0 }) });
    let value = outgoing_value(&event);
    assert_eq!(decode_envelope(&value), Ok(ProtocolMessage { seq: 9, type_: "event".to_owned() }));
    assert_eq!(decode_request(&value), Err(ProtocolError::UnknownType { kind: "event".to_owned() }));
}
