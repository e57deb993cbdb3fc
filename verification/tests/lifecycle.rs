use mcp_call_proof::api::{McpCallProofResult, McpServerTransport, MCP_CALL_PROOF_MAX_RESPONSE_BYTES};
use mcp_call_proof::failure::{CallProofStage, McpCallProofErrorCode, McpCallProofFailure};
use mcp_call_proof::json::Json;
use mcp_call_proof::lifecycle::{CallEvent, CallStep, Outgoing, ReplyHead};
use mcp_call_proof::protocol::{JsonRpcError, JsonRpcResponse, SseEvent};
use mcp_call_proof::receive::{is_clean_deletion, StreamRead};
use mcp_call_proof::service::McpConnectionTestService;
use mcp_call_proof::spawn::SpawnErrorKind;
use std::collections::HashMap;

fn text(s: &str) -> Json {
    Json::Text(s.to_owned())
}

fn object(members: Vec<(&str, Json)>) -> Json {
    Json::Object(members.into_iter().map(|(name, value)| (name.to_owned(), value)).collect())
}

fn stdio() -> McpServerTransport {
    McpServerTransport::Stdio { command: "server".to_owned(), args: vec![], env: HashMap::new() }
}

fn http(url: &str) -> McpServerTransport {
    McpServerTransport::Http { url: url.to_owned(), headers: HashMap::new() }
}

fn sse(url: &str) -> McpServerTransport {
    McpServerTransport::Sse { url: url.to_owned(), headers: HashMap::new() }
}

fn start(transport: &McpServerTransport) -> CallStep {
    let service = McpConnectionTestService { timeout_nanos: 1_000 };
    service.call_proof(
        "server",
        transport,
        "read",
        object(vec![("id", Json::Unsigned(7))]),
        "user-1",
        None,
    )
}

fn response(id: u64, result: Json) -> CallEvent {
    CallEvent::Decoded(Some(JsonRpcResponse {
        jsonrpc: "2.0".to_owned(),
        id: Some(id),
        result: Some(result),
        error: None,
    }))
}

fn welcome() -> CallEvent {
    response(1, object(vec![("protocolVersion", text("2024-11-05"))]))
}

fn listing() -> CallEvent {
    response(
        2,
        object(vec![(
            "tools",
            Json::Array(vec![object(vec![
                ("name", text("read")),
                ("annotations", object(vec![("readOnlyHint", Json::Bool(true))])),
            ])]),
        )]),
    )
}

fn returned() -> CallEvent {
    response(3, object(vec![("content", Json::Array(vec![text("SECRET")]))]))
}

fn line() -> CallEvent {
    CallEvent::Line(b"{}\n".to_vec())
}

fn replied(status: u16) -> CallEvent {
    CallEvent::Replied(ReplyHead { status, content_type: None, session_id: None })
}

fn with_session(session: &str) -> CallEvent {
    CallEvent::Replied(ReplyHead {
        status: 200,
        content_type: Some("application/json".to_owned()),
        session_id: Some(session.to_owned()),
    })
}

fn event(event_type: &str, data: &str) -> CallEvent {
    CallEvent::Stream(StreamRead::Event(SseEvent {
        event_type: event_type.to_owned(),
        data: data.to_owned(),
    }))
}

/// Runs through `events` and notes each message as it comes up.
fn run(first: CallStep, events: Vec<CallEvent>) -> (CallStep, Vec<String>) {
    let mut sent = Vec::new();
    let mut step = first;
    note(&step, &mut sent);
    for event in events {
        step = step.advance(event);
        note(&step, &mut sent);
    }
    (step, sent)
}

fn note(step: &CallStep, sent: &mut Vec<String>) {
    if let CallStep::Send(_, message) = step {
        sent.push(match message {
            Outgoing::Initialize { id } => format!("initialize {id}"),
            Outgoing::Initialized => "initialized".to_owned(),
            Outgoing::ToolsList { id } => format!("tools/list {id}"),
            Outgoing::ToolsCall(request) => format!(
                "{} {} {}",
                request.method,
                request.id,
                String::from_utf8(request.params.as_ref().unwrap().to_bytes()).unwrap()
            ),
        });
    }
}

const SCRIPT: [&str; 4] = [
    "initialize 1",
    "initialized",
    "tools/list 2",
    "tools/call 3 {\"arguments\":{\"id\":7},\"name\":\"read\"}",
];

fn failed(step: CallStep) -> McpCallProofFailure {
    match step {
        CallStep::Done { outcome: Err(error), session_left: false } => error,
        other => panic!("{:?}", other),
    }
}

fn proved(step: CallStep) -> McpCallProofResult {
    match step {
        CallStep::Done { outcome: Ok(proved), session_left: false } => proved,
        other => panic!("{:?}", other),
    }
}

fn stdio_events() -> Vec<CallEvent> {
    vec![
        CallEvent::Spawned,
        CallEvent::Written,
        line(),
        welcome(),
        CallEvent::Written,
        CallEvent::Written,
        line(),
        listing(),
        CallEvent::Written,
        line(),
        returned(),
    ]
}

fn http_events() -> Vec<CallEvent> {
    vec![
        with_session("session-1"),
        CallEvent::Piece(b"{".to_vec()),
        CallEvent::Piece(b"}".to_vec()),
        CallEvent::BodyEnd,
        welcome(),
        replied(202),
        replied(200),
        CallEvent::BodyEnd,
        listing(),
        replied(200),
        CallEvent::BodyEnd,
        returned(),
    ]
}

fn sse_events() -> Vec<CallEvent> {
    vec![
        replied(200),
        event("ping", ""),
        event("endpoint", "/messages?id=1"),
        replied(202),
        event("message", "{}"),
        welcome(),
        replied(202),
        replied(202),
        event("", "{}"),
        listing(),
        replied(202),
        event("message", "{}"),
        returned(),
    ]
}

#[test]
fn stdio_call_goes_through_its_messages() {
    let (step, sent) = run(start(&stdio()), stdio_events());
    assert_eq!(sent, SCRIPT);
    assert!(matches!(step, CallStep::Kill(Ok(_))));
    let proof = proved(step.advance(CallEvent::Killed));
    assert_eq!(proof.protocol_version, "2024-11-05");
    assert_eq!(proof.content_items, 1);
    assert!(!format!("{:?}", proof).contains("SECRET"));
}

#[test]
fn http_call_goes_through_its_messages_and_deletes_its_session() {
    let (step, sent) = run(start(&http("http://h.example/mcp")), http_events());
    assert_eq!(sent, SCRIPT);
    match &step {
        CallStep::DeleteSession(p, Ok(_)) => assert_eq!(p.session, Some("session-1".to_owned())),
        other => panic!("{:?}", other),
    }
    let proof = proved(step.advance(CallEvent::SessionDeleted));
    assert_eq!(proof.tool, "read");
}

#[test]
fn http_call_without_a_session_has_nothing_to_delete() {
    let mut events = http_events();
    events[0] = replied(200);
    let (step, sent) = run(start(&http("https://h.example/mcp")), events);
    assert_eq!(sent, SCRIPT);
    proved(step);
}

#[test]
fn http_reply_may_be_an_event_stream() {
    let head = CallEvent::Replied(ReplyHead {
        status: 200,
        content_type: Some("text/event-stream; charset=utf-8".to_owned()),
        session_id: None,
    });
    let (step, _) = run(
        start(&http("http://h.example/mcp")),
        vec![head, event("other", "x"), event("message", "{}")],
    );
    assert!(matches!(&step, CallStep::Decode(_, bytes, _) if bytes.as_slice() == b"{}"));
    // What is no response is passed over.
    let step = step.advance(CallEvent::Decoded(None));
    assert!(matches!(step, CallStep::ReadEvent(_)));
    let error = failed(step.advance(CallEvent::Stream(StreamRead::Overflow)));
    assert_eq!(error.code(), McpCallProofErrorCode::ResponseTooLarge);
    assert_eq!(error.transport, "http");
}

#[test]
fn sse_call_goes_through_its_messages() {
    let (step, sent) = run(start(&sse("http://h.example/sse")), sse_events());
    assert_eq!(sent, SCRIPT);
    proved(step);
    let (step, _) = run(
        start(&sse("http://h.example/sse")),
        vec![replied(200), event("endpoint", "/messages?id=1")],
    );
    match step {
        CallStep::Send(p, _) => {
            assert_eq!(p.endpoint, Some("http://h.example/messages?id=1".to_owned()))
        }
        other => panic!("{:?}", other),
    }
}

#[test]
fn every_prefix_sends_a_prefix_of_the_script() {
    for n in 0..stdio_events().len() {
        let events: Vec<CallEvent> = stdio_events().into_iter().take(n).collect();
        let (_, sent) = run(start(&stdio()), events);
        assert!(SCRIPT.starts_with(&sent.iter().map(String::as_str).collect::<Vec<_>>()));
    }
}

#[test]
fn tool_that_is_not_offered_is_not_called() {
    let absent = response(2, object(vec![("tools", Json::Array(vec![]))]));
    let mut events = http_events();
    events.truncate(8);
    events.push(absent);
    let (step, sent) = run(start(&http("http://h.example/mcp")), events);
    assert_eq!(sent, SCRIPT[..3]);
    let error = failed(step.advance(CallEvent::SessionDeleted));
    assert_eq!(error.code(), McpCallProofErrorCode::ToolNotFound);
    assert_eq!(error.stage, CallProofStage::ToolsList);
}

#[test]
fn refused_call_sends_nothing() {
    let service = McpConnectionTestService { timeout_nanos: 1_000 };
    let step = service.call_proof("", &stdio(), "read", object(vec![]), "user-1", None);
    let (step, sent) = run(step, stdio_events());
    assert!(sent.is_empty());
    let error = failed(step);
    assert_eq!(error.code(), McpCallProofErrorCode::InvalidRequest);
    assert_eq!(error.transport, "stdio");
    for url in ["ftp://h.example/", "http://user@h.example/", "http://:pw@h.example/", "nonsense"] {
        for (transport, name) in [(http(url), "http"), (sse(url), "sse")] {
            let (step, sent) = run(start(&transport), vec![replied(200)]);
            assert!(sent.is_empty());
            let error = failed(step);
            assert_eq!(error.code(), McpCallProofErrorCode::InvalidRequest);
            assert_eq!(error.stage, CallProofStage::Validate);
            assert_eq!(error.transport, name);
        }
    }
}

#[test]
fn command_that_does_not_start_is_told() {
    let error = failed(start(&stdio()).advance(CallEvent::SpawnFailed(SpawnErrorKind::NotFound)));
    assert_eq!(error.code(), McpCallProofErrorCode::CommandNotFound);
}

#[test]
fn command_that_cannot_be_killed_fails_the_call() {
    let (step, _) = run(start(&stdio()), stdio_events());
    let error = failed(step.advance(CallEvent::KillFailed));
    assert_eq!(error.code(), McpCallProofErrorCode::ProcessCleanupFailed);
    assert_eq!(error.stage, CallProofStage::Cleanup);
}

#[test]
fn command_is_killed_after_every_failure() {
    for (events, code, stage) in [
        (
            vec![CallEvent::Spawned, CallEvent::SendFailed],
            McpCallProofErrorCode::ConnectionFailed,
            CallProofStage::Initialize,
        ),
        (
            vec![CallEvent::Spawned, CallEvent::EncodingFailed],
            McpCallProofErrorCode::ProtocolError,
            CallProofStage::Initialize,
        ),
        (
            vec![CallEvent::Spawned, CallEvent::Written, CallEvent::ReadFailed],
            McpCallProofErrorCode::ConnectionFailed,
            CallProofStage::Initialize,
        ),
        (
            vec![CallEvent::Spawned, CallEvent::Written, CallEvent::Line(vec![])],
            McpCallProofErrorCode::ProtocolError,
            CallProofStage::Initialize,
        ),
        (
            vec![CallEvent::Spawned, CallEvent::Written, CallEvent::Line(b"{}".to_vec())],
            McpCallProofErrorCode::ResponseTooLarge,
            CallProofStage::Initialize,
        ),
        (
            vec![CallEvent::Spawned, CallEvent::Written, line(), welcome(), CallEvent::SendFailed],
            McpCallProofErrorCode::ConnectionFailed,
            CallProofStage::Initialized,
        ),
        (
            vec![CallEvent::Spawned, CallEvent::Written, CallEvent::TimedOut],
            McpCallProofErrorCode::Timeout,
            CallProofStage::ToolsCall,
        ),
    ] {
        let (step, _) = run(start(&stdio()), events);
        assert!(matches!(step, CallStep::Kill(Err(_))));
        let error = failed(step.advance(CallEvent::Killed));
        assert_eq!(error.code(), code);
        assert_eq!(error.stage, stage);
        assert_eq!(error.transport, "stdio");
    }
}

#[test]
fn lines_may_take_the_limit_and_no_more() {
    let begin = || run(start(&stdio()), vec![CallEvent::Spawned, CallEvent::Written]).0;
    let mut longest = vec![b' '; MCP_CALL_PROOF_MAX_RESPONSE_BYTES - 1];
    longest.push(b'\n');
    assert!(matches!(begin().advance(CallEvent::Line(longest.clone())), CallStep::Decode(..)));
    longest.insert(0, b' ');
    let error = failed(begin().advance(CallEvent::Line(longest)).advance(CallEvent::Killed));
    assert_eq!(error.code(), McpCallProofErrorCode::ResponseTooLarge);
}

#[test]
fn lines_that_answer_nothing_are_passed_over() {
    let (step, _) = run(start(&stdio()), vec![CallEvent::Spawned, CallEvent::Written, line()]);
    let step = step.advance(CallEvent::Decoded(None));
    assert!(matches!(step, CallStep::ReadLine(_)));
    let notification =
        JsonRpcResponse { jsonrpc: "2.0".to_owned(), id: None, result: None, error: None };
    let step = step.advance(line()).advance(CallEvent::Decoded(Some(notification)));
    assert!(matches!(step, CallStep::ReadLine(_)));
}

#[test]
fn bodies_may_take_the_limit_and_no_more() {
    let begin = || start(&http("http://h.example/mcp")).advance(replied(200));
    let half = || vec![b'x'; MCP_CALL_PROOF_MAX_RESPONSE_BYTES / 2];
    let full = begin().advance(CallEvent::Piece(half())).advance(CallEvent::Piece(half()));
    match &full {
        CallStep::ReadBody(_, body) => assert_eq!(body.len(), MCP_CALL_PROOF_MAX_RESPONSE_BYTES),
        other => panic!("{:?}", other),
    }
    let error = failed(full.advance(CallEvent::Piece(vec![0])));
    assert_eq!(error.code(), McpCallProofErrorCode::ResponseTooLarge);
    assert_eq!(error.stage, CallProofStage::Initialize);
    // A body must be a response.
    let error = failed(begin().advance(CallEvent::BodyEnd).advance(CallEvent::Decoded(None)));
    assert_eq!(error.code(), McpCallProofErrorCode::ProtocolError);
    let error = failed(begin().advance(CallEvent::ReadFailed));
    assert_eq!(error.code(), McpCallProofErrorCode::ConnectionFailed);
}

#[test]
fn statuses_are_told_apart() {
    for (status, code) in [
        (301, McpCallProofErrorCode::RedirectRejected),
        (399, McpCallProofErrorCode::RedirectRejected),
        (199, McpCallProofErrorCode::HttpError),
        (401, McpCallProofErrorCode::HttpError),
        (500, McpCallProofErrorCode::HttpError),
    ] {
        let error = failed(start(&http("http://h.example/mcp")).advance(replied(status)));
        assert_eq!(error.code(), code);
        assert_eq!(error.stage, CallProofStage::Initialize);
        let error = failed(start(&sse("http://h.example/sse")).advance(replied(status)));
        assert_eq!(error.code(), code);
        assert_eq!(error.stage, CallProofStage::Connect);
    }
    for status in [200, 299] {
        assert!(matches!(
            start(&http("http://h.example/mcp")).advance(replied(status)),
            CallStep::ReadBody(..)
        ));
    }
    let error = failed(start(&sse("http://h.example/sse")).advance(CallEvent::SendFailed));
    assert_eq!(error.code(), McpCallProofErrorCode::ConnectionFailed);
    assert_eq!(error.stage, CallProofStage::Connect);
}

#[test]
fn endpoints_are_checked() {
    let begin = || start(&sse("https://h.example/sse")).advance(replied(200));
    for (data, code) in [
        ("https://other.example/m", McpCallProofErrorCode::RedirectRejected),
        ("http://h.example/m", McpCallProofErrorCode::RedirectRejected),
        ("https://h.example:444/m", McpCallProofErrorCode::RedirectRejected),
        ("https://user@h.example/m", McpCallProofErrorCode::RedirectRejected),
        ("https://:pw@h.example/m", McpCallProofErrorCode::RedirectRejected),
        ("https://[", McpCallProofErrorCode::ProtocolError),
    ] {
        let error = failed(begin().advance(event("endpoint", data)));
        assert_eq!(error.code(), code);
        assert_eq!(error.stage, CallProofStage::Endpoint);
    }
    assert!(matches!(
        begin().advance(event("endpoint", "https://h.example:443/m")),
        CallStep::Send(..)
    ));
    let error = failed(begin().advance(CallEvent::Stream(StreamRead::End)));
    assert_eq!(error.code(), McpCallProofErrorCode::ProtocolError);
    let error = failed(begin().advance(CallEvent::Stream(StreamRead::Overflow)));
    assert_eq!(error.code(), McpCallProofErrorCode::ResponseTooLarge);
    let long = "x".repeat(MCP_CALL_PROOF_MAX_RESPONSE_BYTES + 1);
    let error = failed(begin().advance(event("ping", &long)));
    assert_eq!(error.code(), McpCallProofErrorCode::ResponseTooLarge);
}

#[test]
fn stream_that_ends_early_is_told() {
    let begin = || {
        let mut events = sse_events();
        events.truncate(4);
        run(start(&sse("http://h.example/sse")), events).0
    };
    let error = failed(begin().advance(CallEvent::Stream(StreamRead::End)));
    assert_eq!(error.code(), McpCallProofErrorCode::ProtocolError);
    assert_eq!(error.stage, CallProofStage::Initialize);
    assert_eq!(error.transport, "sse");
    let long = "x".repeat(MCP_CALL_PROOF_MAX_RESPONSE_BYTES + 1);
    let error = failed(begin().advance(event("other", &long)));
    assert_eq!(error.code(), McpCallProofErrorCode::ResponseTooLarge);
}

#[test]
fn session_must_fit_into_a_header() {
    for (session, fits) in [("a b~\t\u{e9}", true), ("a\nb", false), ("\u{7f}", false), ("\u{0}", false)] {
        let step = start(&http("http://h.example/mcp"))
            .advance(with_session(session))
            .advance(CallEvent::BodyEnd)
            .advance(welcome());
        if fits {
            match step {
                CallStep::Send(p, Outgoing::Initialized) => {
                    assert_eq!(p.session, Some(session.to_owned()))
                }
                other => panic!("{:?}", other),
            }
        } else {
            let error = failed(step);
            assert_eq!(error.code(), McpCallProofErrorCode::ProtocolError);
            assert_eq!(error.stage, CallProofStage::Initialize);
        }
    }
}

#[test]
fn session_is_deleted_after_a_failure_and_left_after_a_timeout() {
    let begin = || {
        start(&http("http://h.example/mcp"))
            .advance(with_session("s"))
            .advance(CallEvent::BodyEnd)
            .advance(welcome())
    };
    let step = begin().advance(replied(500));
    assert!(matches!(step, CallStep::DeleteSession(..)));
    let error = failed(step.advance(CallEvent::SessionDeleted));
    assert_eq!(error.code(), McpCallProofErrorCode::HttpError);
    for step in [begin().advance(CallEvent::TimedOut), begin().advance(replied(500)).advance(CallEvent::TimedOut)] {
        match step {
            CallStep::Done { outcome: Err(error), session_left } => {
                assert!(session_left);
                assert_eq!(error.code(), McpCallProofErrorCode::Timeout);
                assert_eq!(error.stage, CallProofStage::ToolsCall);
            }
            other => panic!("{:?}", other),
        }
    }
    // Before the session is open there is none to leave.
    let error = failed(start(&http("http://h.example/mcp")).advance(CallEvent::TimedOut));
    assert_eq!(error.code(), McpCallProofErrorCode::Timeout);
}

#[test]
fn errors_of_the_server_are_redacted() {
    let begin = || {
        let mut events = sse_events();
        events.truncate(5);
        run(start(&sse("http://h.example/sse")), events).0
    };
    let refused = |message: &str| {
        begin().advance(CallEvent::Decoded(Some(JsonRpcResponse {
            jsonrpc: "2.0".to_owned(),
            id: Some(1),
            result: None,
            error: Some(JsonRpcError { code: -32000, message: message.to_owned() }),
        })))
    };
    let error = failed(refused("UPSTREAM_SECRET"));
    assert_eq!(error.code(), McpCallProofErrorCode::RpcError);
    assert_eq!(
        String::from_utf8(error.details().to_bytes()).unwrap(),
        r#"{"rpc_code":-32000,"stage":"initialize","transport":"sse"}"#
    );
    assert_eq!(format!("{:?}", refused("one")), format!("{:?}", refused("two")));
}

#[test]
fn answers_must_come_in_order() {
    let begin = || run(start(&stdio()), vec![CallEvent::Spawned, CallEvent::Written, line()]).0;
    for early in [listing(), returned()] {
        let error = failed(begin().advance(early).advance(CallEvent::Killed));
        assert_eq!(error.code(), McpCallProofErrorCode::ProtocolError);
        assert_eq!(error.stage, CallProofStage::Initialize);
    }
}

#[test]
fn tool_that_fails_fails_the_call() {
    let mut events = stdio_events();
    events.truncate(10);
    events.push(response(3, object(vec![("isError", Json::Bool(true))])));
    let (step, sent) = run(start(&stdio()), events);
    assert_eq!(sent, SCRIPT);
    let error = failed(step.advance(CallEvent::Killed));
    assert_eq!(error.code(), McpCallProofErrorCode::ToolCallFailed);
}

#[test]
fn events_that_nobody_waits_for_change_nothing() {
    let step = start(&stdio()).advance(CallEvent::Killed).advance(line()).advance(CallEvent::TimedOut);
    assert!(matches!(step, CallStep::Spawn(_)));
    let done = step.advance(CallEvent::SpawnFailed(SpawnErrorKind::Other));
    let error = failed(done.advance(CallEvent::Spawned).advance(CallEvent::TimedOut));
    assert_eq!(error.code(), McpCallProofErrorCode::CommandStartFailed);
}

#[test]
fn time_limit_is_the_smaller_one() {
    let limit = |nanos: u128| McpConnectionTestService { timeout_nanos: nanos }.time_limit_nanos();
    assert_eq!(limit(0), 0);
    assert_eq!(limit(5), 5);
    assert_eq!(limit(30_000_000_000), 30_000_000_000);
    assert_eq!(limit(30_000_000_001), 30_000_000_000);
    assert_eq!(limit(u128::MAX), 30_000_000_000);
}

#[test]
fn deletion_may_succeed_or_not_be_offered() {
    let clean: Vec<u16> = (100..600).filter(|status| is_clean_deletion(*status)).collect();
    let mut expected: Vec<u16> = (200..300).collect();
    expected.push(405);
    assert_eq!(clean, expected);
}

fn notification() -> CallEvent {
    CallEvent::Decoded(Some(JsonRpcResponse {
        jsonrpc: "2.0".to_owned(),
        id: None,
        result: None,
        error: None,
    }))
}

#[test]
fn stdio_call_passes_over_what_answers_nothing() {
    let mut events = vec![CallEvent::Spawned];
    for (answer, more) in [(welcome(), true), (listing(), false), (returned(), false)] {
        events.push(CallEvent::Written);
        events.extend([line(), CallEvent::Decoded(None), line(), notification()]);
        events.push(CallEvent::Line(b"answer\n".to_vec()));
        events.push(answer);
        if more {
            events.push(CallEvent::Written);
        }
    }
    let (step, sent) = run(start(&stdio()), events);
    assert_eq!(sent, SCRIPT);
    assert_eq!(proved(step.advance(CallEvent::Killed)).tool, "read");
}

#[test]
fn http_call_may_be_answered_by_bodies_and_by_event_streams() {
    let head = |status: u16, content_type: &str, session: Option<&str>| {
        CallEvent::Replied(ReplyHead {
            status,
            content_type: Some(content_type.to_owned()),
            session_id: session.map(str::to_owned),
        })
    };
    let events = vec![
        head(201, "text/event-stream", Some("s")),
        event("ping", "x"),
        event("message", "{}"),
        CallEvent::Decoded(None),
        event("", "{}"),
        notification(),
        event("message", "{\"id\":1}"),
        welcome(),
        head(202, "text/plain", None),
        head(200, "application/json", Some("another")),
        CallEvent::Piece(b"{\"id\"".to_vec()),
        CallEvent::Piece(b"".to_vec()),
        CallEvent::Piece(b":2}".to_vec()),
        CallEvent::BodyEnd,
        listing(),
        head(299, "text/event-stream; charset=utf-8", None),
        event("", "{\"id\":3}"),
        returned(),
    ];
    let (step, sent) = run(start(&http("https://h.example/mcp")), events);
    assert_eq!(sent, SCRIPT);
    match &step {
        CallStep::DeleteSession(p, Ok(_)) => assert_eq!(p.session, Some("s".to_owned())),
        other => panic!("{:?}", other),
    }
    assert_eq!(proved(step.advance(CallEvent::SessionDeleted)).tool, "read");
}

#[test]
fn sse_call_passes_over_what_decides_nothing() {
    let mut events = vec![replied(206), event("message", "early"), event("", ""), event("endpoint", "m")];
    for (answer, data, more) in
        [(welcome(), "1", true), (listing(), "2", false), (returned(), "3", false)]
    {
        events.push(replied(202));
        events.extend([event("ping", ""), event("message", "{}"), notification()]);
        events.push(event("message", data));
        events.push(answer);
        if more {
            events.push(replied(204));
        }
    }
    let (step, sent) = run(start(&sse("https://h.example/sse")), events);
    assert_eq!(sent, SCRIPT);
    assert_eq!(proved(step).tool, "read");
}
