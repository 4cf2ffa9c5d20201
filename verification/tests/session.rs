use debug_adapter::capabilities::{Capabilities, ClientCaps, InitializeRequestArguments};
use debug_adapter::messages::{
    CommandError, EventBody, EventMessage, ExitedEvent, Outgoing, ResponseMessage, TerminatedEvent,
};
use debug_adapter::requests::{
    Call, DisconnectArguments, LaunchRequestArguments, LaunchRequestArgumentsVsc,
};
use debug_adapter::session::{following, Debugger, Pending, Step};

fn pending(request_seq: i64, command: &str) -> Pending {
    Pending { request_seq, command: command.to_owned() }
}

fn no_flags() -> InitializeRequestArguments {
    InitializeRequestArguments {
        linesStartAt1: None,
        columnsStartAt1: None,
        supportsVariableType: None,
        supportsVariablePaging: None,
        supportsRunInTerminalRequest: None,
        supportsMemoryReferences: None,
    }
}

fn success(seq: i64, request_seq: i64, command: &str) -> Outgoing {
    Outgoing::Response(ResponseMessage {
        seq,
        request_seq,
        command: command.to_owned(),
        success: true,
        message: None,
        body: None,
    })
}

fn failure(seq: i64, request_seq: i64, command: &str, message: &str) -> Outgoing {
    Outgoing::Response(ResponseMessage {
        seq,
        request_seq,
        command: command.to_owned(),
        success: false,
        message: Some(message.to_owned()),
        body: None,
    })
}

fn launched(handle: u32) -> Debugger<u32> {
    let mut session = Debugger::new("dreamseeker.exe".to_owned());
    let sent = session.spawned(pending(1, "launch"), Ok(handle));
    assert_eq!(sent, vec![success(1, 1, "launch")]);
    session
}

#[test]
fn new_session_has_sent_and_negotiated_nothing() {
    let session: Debugger<u32> = Debugger::new("path/to/dreamseeker.exe".to_owned());
    assert_eq!(session.seq(), 0);
    assert_eq!(session.child(), None);
    assert_eq!(session.dreamseeker_exe(), "path/to/dreamseeker.exe");
    assert!(!session.is_initialized());
    assert_eq!(session.client_caps(), ClientCaps::default());
    assert_eq!(
        ClientCaps::default(),
        ClientCaps {
            lines_start_at_1: false,
            columns_start_at_1: false,
            variable_type: false,
            variable_paging: false,
            run_in_terminal: false,
            memory_references: false,
        }
    );
}

#[test]
fn next_seq_counts_from_one() {
    let mut session: Debugger<u32> = Debugger::new(String::new());
    assert_eq!(session.next_seq(), 1);
    assert_eq!(session.next_seq(), 2);
    assert_eq!(session.next_seq(), 3);
    assert_eq!(session.seq(), 3);
}

#[test]
fn following_wraps_at_the_greatest_number() {
    assert_eq!(following(0), 1);
    assert_eq!(following(-1), 0);
    assert_eq!(following(41), 42);
    assert_eq!(following(i64::MAX - 1), i64::MAX);
    assert_eq!(following(i64::MAX), i64::MIN);
    assert_eq!(following(i64::MIN), i64::MIN + 1);
}

#[test]
fn client_caps_defaults() {
    assert_eq!(
        ClientCaps::parse(&no_flags()),
        ClientCaps {
            lines_start_at_1: true,
            columns_start_at_1: true,
            variable_type: false,
            variable_paging: false,
            run_in_terminal: false,
            memory_references: false,
        }
    );
}

#[test]
fn client_caps_take_what_the_client_sent() {
    let arguments = InitializeRequestArguments {
        linesStartAt1: Some(false),
        columnsStartAt1: Some(true),
        supportsVariableType: Some(true),
        supportsVariablePaging: Some(false),
        supportsRunInTerminalRequest: Some(true),
        supportsMemoryReferences: None,
    };
    assert_eq!(
        ClientCaps::parse(&arguments),
        ClientCaps {
            lines_start_at_1: false,
            columns_start_at_1: true,
            variable_type: true,
            variable_paging: false,
            run_in_terminal: true,
            memory_references: false,
        }
    );
}

#[test]
fn capabilities_default_advertises_nothing() {
    assert_eq!(Capabilities::default(), Capabilities { supportTerminateDebuggee: None });
}

#[test]
fn issue_event_numbers_the_event() {
    let mut session: Debugger<u32> = Debugger::new(String::new());
    let body = EventBody::Terminated(TerminatedEvent {});
    assert_eq!(session.issue_event(body), EventMessage { seq: 1, body });
    let body = EventBody::Exited(ExitedEvent { exitCode: 3 });
    assert_eq!(session.issue_event(body), EventMessage { seq: 2, body });
    assert_eq!(session.seq(), 2);
}

#[test]
fn respond_reports_success_with_the_body() {
    let mut session: Debugger<u32> = Debugger::new(String::new());
    let body = Capabilities { supportTerminateDebuggee: Some(true) };
    let response = session.respond(pending(17, "initialize"), Ok(Some(body)));
    assert_eq!(
        response,
        ResponseMessage {
            seq: 1,
            request_seq: 17,
            command: "initialize".to_owned(),
            success: true,
            message: None,
            body: Some(body),
        }
    );
}

#[test]
fn respond_reports_failure_with_the_message() {
    let mut session: Debugger<u32> = Debugger::new(String::new());
    let error = CommandError::Os { message: "permission denied".to_owned() };
    let response = session.respond(pending(5, "launch"), Err(error));
    assert_eq!(
        response,
        ResponseMessage {
            seq: 1,
            request_seq: 5,
            command: "launch".to_owned(),
            success: false,
            message: Some("permission denied".to_owned()),
            body: None,
        }
    );
}

#[test]
fn initialize_answers_the_same_whatever_was_negotiated() {
    let all_on = InitializeRequestArguments {
        linesStartAt1: Some(true),
        columnsStartAt1: Some(true),
        supportsVariableType: Some(true),
        supportsVariablePaging: Some(true),
        supportsRunInTerminalRequest: Some(true),
        supportsMemoryReferences: Some(true),
    };
    let expected = Step::Done {
        outgoing: vec![Outgoing::Response(ResponseMessage {
            seq: 1,
            request_seq: 9,
            command: "initialize".to_owned(),
            success: true,
            message: None,
            body: Some(Capabilities { supportTerminateDebuggee: Some(true) }),
        })],
    };
    let mut first: Debugger<u32> = Debugger::new(String::new());
    assert_eq!(first.initialize(pending(9, "initialize"), no_flags()), expected);
    let mut second: Debugger<u32> = Debugger::new(String::new());
    assert_eq!(second.initialize(pending(9, "initialize"), all_on), expected);
    assert!(first.is_initialized());
    assert!(second.is_initialized());
    assert_eq!(first.client_caps(), ClientCaps::parse(&no_flags()));
    assert_eq!(second.client_caps(), ClientCaps::parse(&all_on));
}

#[test]
fn initialize_overwrites_what_was_negotiated_before() {
    let mut session: Debugger<u32> = Debugger::new(String::new());
    let first = InitializeRequestArguments { supportsVariableType: Some(true), ..no_flags() };
    let second = InitializeRequestArguments { supportsVariablePaging: Some(true), ..no_flags() };
    session.initialize(pending(1, "initialize"), first);
    assert!(session.client_caps().variable_type);
    session.initialize(pending(2, "initialize"), second);
    assert!(!session.client_caps().variable_type);
    assert!(session.client_caps().variable_paging);
    assert_eq!(session.seq(), 2);
}

#[test]
fn launch_asks_for_the_executable_with_the_trust_flag() {
    let session: Debugger<u32> = Debugger::new("bin/dreamseeker".to_owned());
    let arguments = LaunchRequestArgumentsVsc {
        base: LaunchRequestArguments { noDebug: Some(true) },
        dmb: "world.dmb".to_owned(),
    };
    assert_eq!(
        session.launch(pending(2, "launch"), arguments),
        Step::Spawn {
            pending: pending(2, "launch"),
            program: "bin/dreamseeker".to_owned(),
            arguments: vec!["world.dmb".to_owned(), "-trusted".to_owned()],
        }
    );
    assert_eq!(session.seq(), 0);
    assert_eq!(session.child(), None);
}

#[test]
fn no_debug_changes_nothing() {
    let session: Debugger<u32> = Debugger::new("ds".to_owned());
    let with = LaunchRequestArgumentsVsc {
        base: LaunchRequestArguments { noDebug: Some(true) },
        dmb: "a.dmb".to_owned(),
    };
    let without = LaunchRequestArgumentsVsc {
        base: LaunchRequestArguments { noDebug: None },
        dmb: "a.dmb".to_owned(),
    };
    assert_eq!(
        session.launch(pending(1, "launch"), with),
        session.launch(pending(1, "launch"), without)
    );
}

#[test]
fn spawned_stores_the_handle() {
    let session = launched(4711);
    assert_eq!(session.child(), Some(&4711));
    assert_eq!(session.seq(), 1);
}

#[test]
fn spawn_failure_leaves_the_session_without_a_debuggee() {
    let mut session: Debugger<u32> = Debugger::new("missing.exe".to_owned());
    let sent = session
        .spawned(pending(3, "launch"), Err("No such file or directory (os error 2)".to_owned()));
    assert_eq!(sent, vec![failure(1, 3, "launch", "No such file or directory (os error 2)")]);
    assert_eq!(session.child(), None);
}

#[test]
fn spawn_failure_keeps_the_debuggee_that_was_there() {
    let mut session = launched(1);
    let sent = session.spawned(pending(2, "launch"), Err("too many processes".to_owned()));
    assert_eq!(sent, vec![failure(2, 2, "launch", "too many processes")]);
    assert_eq!(session.child(), Some(&1));
}

#[test]
fn second_launch_replaces_the_handle() {
    let mut session = launched(1);
    let sent = session.spawned(pending(2, "launch"), Ok(2));
    assert_eq!(sent, vec![success(2, 2, "launch")]);
    assert_eq!(session.child(), Some(&2));
}

#[test]
fn disconnect_without_debuggee_sends_only_the_answer() {
    let mut session: Debugger<u32> = Debugger::new(String::new());
    for (seq, terminate) in [(1, None), (2, Some(true)), (3, Some(false))] {
        let step = session
            .disconnect(pending(10 + seq, "disconnect"), DisconnectArguments { terminateDebuggee: terminate });
        assert_eq!(step, Step::Done { outgoing: vec![success(seq, 10 + seq, "disconnect")] });
    }
    assert_eq!(session.child(), None);
}

#[test]
fn disconnect_terminates_by_default() {
    let mut session = launched(77);
    let step =
        session.disconnect(pending(2, "disconnect"), DisconnectArguments { terminateDebuggee: None });
    assert_eq!(step, Step::Kill { pending: pending(2, "disconnect"), child: 77 });
    assert_eq!(session.child(), None);
    assert_eq!(session.seq(), 1);
}

#[test]
fn disconnect_terminates_on_request() {
    let mut session = launched(78);
    let step = session
        .disconnect(pending(2, "disconnect"), DisconnectArguments { terminateDebuggee: Some(true) });
    assert_eq!(step, Step::Kill { pending: pending(2, "disconnect"), child: 78 });
    assert_eq!(session.child(), None);
}

#[test]
fn disconnect_detaches_on_request() {
    let mut session = launched(79);
    let step = session
        .disconnect(pending(2, "disconnect"), DisconnectArguments { terminateDebuggee: Some(false) });
    assert_eq!(step, Step::Detach { pending: pending(2, "disconnect"), child: 79 });
    assert_eq!(session.child(), None);
}

#[test]
fn killed_sends_exited_with_the_code_then_the_answer() {
    let mut session = launched(1);
    session.disconnect(pending(2, "disconnect"), DisconnectArguments { terminateDebuggee: None });
    let sent = session.killed(pending(2, "disconnect"), Ok(Some(137)));
    assert_eq!(
        sent,
        vec![
            Outgoing::Event(EventMessage {
                seq: 2,
                body: EventBody::Exited(ExitedEvent { exitCode: 137 }),
            }),
            success(3, 2, "disconnect"),
        ]
    );
    assert_eq!(session.child(), None);
    assert_eq!(session.seq(), 3);
}

#[test]
fn killed_without_a_code_reports_minus_one() {
    let mut session = launched(1);
    session.disconnect(pending(2, "disconnect"), DisconnectArguments { terminateDebuggee: None });
    let sent = session.killed(pending(2, "disconnect"), Ok(None));
    assert_eq!(
        sent[0],
        Outgoing::Event(EventMessage { seq: 2, body: EventBody::Exited(ExitedEvent { exitCode: -1 }) })
    );
    assert_eq!(sent.len(), 2);
}

#[test]
fn killed_keeps_negative_and_extreme_codes() {
    for code in [0, 1, -1, -1073741510, i32::MAX, i32::MIN] {
        let mut session = launched(1);
        session.disconnect(pending(2, "disconnect"), DisconnectArguments { terminateDebuggee: None });
        let sent = session.killed(pending(2, "disconnect"), Ok(Some(code)));
        assert_eq!(
            sent[0],
            Outgoing::Event(EventMessage {
                seq: 2,
                body: EventBody::Exited(ExitedEvent { exitCode: i64::from(code) }),
            })
        );
    }
}

#[test]
fn kill_failure_is_answered_without_an_event() {
    let mut session = launched(1);
    session.disconnect(pending(2, "disconnect"), DisconnectArguments { terminateDebuggee: None });
    let sent = session.killed(pending(2, "disconnect"), Err("invalid argument".to_owned()));
    assert_eq!(sent, vec![failure(2, 2, "disconnect", "invalid argument")]);
    assert_eq!(session.child(), None);
}

#[test]
fn detached_sends_terminated_then_the_answer() {
    let mut session = launched(1);
    session
        .disconnect(pending(2, "disconnect"), DisconnectArguments { terminateDebuggee: Some(false) });
    let sent = session.detached(pending(2, "disconnect"), Ok(()));
    assert_eq!(
        sent,
        vec![
            Outgoing::Event(EventMessage { seq: 2, body: EventBody::Terminated(TerminatedEvent {}) }),
            success(3, 2, "disconnect"),
        ]
    );
    assert_eq!(session.child(), None);
}

#[test]
fn detach_failure_is_answered_without_an_event() {
    let mut session = launched(1);
    session
        .disconnect(pending(2, "disconnect"), DisconnectArguments { terminateDebuggee: Some(false) });
    let sent = session.detached(pending(2, "disconnect"), Err("out of threads".to_owned()));
    assert_eq!(sent, vec![failure(2, 2, "disconnect", "out of threads")]);
}

#[test]
fn session_accepts_a_launch_after_a_detach() {
    let mut session = launched(1);
    session
        .disconnect(pending(2, "disconnect"), DisconnectArguments { terminateDebuggee: Some(false) });
    session.detached(pending(2, "disconnect"), Ok(()));
    let sent = session.spawned(pending(3, "launch"), Ok(2));
    assert_eq!(sent, vec![success(4, 3, "launch")]);
    assert_eq!(session.child(), Some(&2));
}

#[test]
fn invoke_carries_out_each_call() {
    let mut session: Debugger<u32> = Debugger::new("ds".to_owned());
    let step = session.invoke(pending(1, "initialize"), Call::Initialize(no_flags()));
    assert!(matches!(step, Step::Done { .. }));
    let launch = LaunchRequestArgumentsVsc {
        base: LaunchRequestArguments { noDebug: None },
        dmb: "w.dmb".to_owned(),
    };
    let step = session.invoke(pending(2, "launch"), Call::Launch(launch));
    assert_eq!(
        step,
        Step::Spawn {
            pending: pending(2, "launch"),
            program: "ds".to_owned(),
            arguments: vec!["w.dmb".to_owned(), "-trusted".to_owned()],
        }
    );
    let step = session.invoke(
        pending(3, "disconnect"),
        Call::Disconnect(DisconnectArguments { terminateDebuggee: None }),
    );
    assert_eq!(step, Step::Done { outgoing: vec![success(2, 3, "disconnect")] });
}

#[test]
fn outgoing_messages_are_numbered_one_by_one() {
    let mut session: Debugger<u32> = Debugger::new("ds".to_owned());
    let mut sent = Vec::new();
    if let Step::Done { outgoing } = session.initialize(pending(1, "initialize"), no_flags()) {
        sent.extend(outgoing);
    }
    sent.extend(session.spawned(pending(2, "launch"), Ok(5)));
    session.disconnect(pending(3, "disconnect"), DisconnectArguments { terminateDebuggee: None });
    sent.extend(session.killed(pending(3, "disconnect"), Ok(Some(0))));
    sent.extend(session.spawned(pending(4, "launch"), Err("gone".to_owned())));
    let numbers: Vec<i64> = sent.iter().map(|message| message.seq()).collect();
    assert_eq!(numbers, vec![1, 2, 3, 4, 5]);
    assert_eq!(session.seq(), 5);
}

#[test]
fn answer_and_announce_build_what_is_sent() {
    let mut session: Debugger<u32> = Debugger::new(String::new());
    assert_eq!(session.answer(pending(4, "x"), Ok(None)), vec![success(1, 4, "x")]);
    assert_eq!(
        session.announce(pending(5, "y"), EventBody::Terminated(TerminatedEvent {})),
        vec![
            Outgoing::Event(EventMessage { seq: 2, body: EventBody::Terminated(TerminatedEvent {}) }),
            success(3, 5, "y"),
        ]
    );
}
