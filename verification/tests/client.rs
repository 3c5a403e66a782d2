use codex_potter::client::frame_message;
use codex_potter::client::same_id;
use codex_potter::client::shutdown;
use codex_potter::client::shutdown_failure;
use codex_potter::client::JsonRpcMessage;
use codex_potter::client::PotterAppServerClient;
use codex_potter::client::PotterRead;
use codex_potter::client::ReadAction;
use codex_potter::client::ReadFailure;
use codex_potter::client::ReadInput;
use codex_potter::client::ShutdownAction;
use codex_potter::client::ShutdownInput;
use codex_potter::potter_protocol::PotterAppServerClientNotification;
use codex_potter::potter_protocol::PotterAppServerClientRequest;
use codex_potter::potter_protocol::ProjectInterruptParams;
use codex_potter::potter_protocol::ProjectListParams;
use codex_potter::potter_protocol::RequestId;
use codex_potter::potter_protocol::POTTER_EVENT_NOTIFICATION_METHOD;
use codex_potter::protocol::Event;
use codex_potter::protocol::EventMsg;

fn event(id: &str) -> Event {
    Event { id: id.to_string(), msg: EventMsg::ShutdownComplete }
}

fn response(id: i64) -> ReadInput {
    ReadInput::Message(JsonRpcMessage::Response {
        id: RequestId::Integer(id),
        result: serde_json::Value::Bool(true),
    })
}

fn failure(action: ReadAction) -> ReadFailure {
    match action {
        ReadAction::Failed { failure } => failure,
        other => panic!("expected a failure, got {other:?}"),
    }
}

#[test]
fn requests_are_numbered_in_order() {
    let mut client = PotterAppServerClient::new();
    let PotterAppServerClientRequest::Initialize { request_id, params } = client.initialize("1.2")
    else {
        panic!("expected initialize");
    };
    assert_eq!(request_id, RequestId::Integer(1));
    assert_eq!(params.client_info.name, "codex-potter");
    assert_eq!(params.client_info.title.as_deref(), Some("codex-potter"));
    assert_eq!(params.client_info.version, "1.2");
    assert!(params.capabilities.is_none());
    let PotterAppServerClientRequest::ProjectList { request_id, .. } =
        client.project_list(ProjectListParams { cwd: None })
    else {
        panic!("expected project/list");
    };
    assert_eq!(request_id, RequestId::Integer(2));
    let params = ProjectInterruptParams { project_id: "p".to_string() };
    let PotterAppServerClientRequest::ProjectInterrupt { request_id, params } =
        client.project_interrupt(params)
    else {
        panic!("expected project/interrupt");
    };
    assert_eq!(request_id, RequestId::Integer(3));
    assert_eq!(params.project_id, "p");
    assert_eq!(client.next_request_id(), RequestId::Integer(4));
}

#[test]
fn initializing_must_be_quiet() {
    assert_eq!(
        PotterAppServerClient::initialized(&Vec::new()),
        Ok(PotterAppServerClientNotification::Initialized)
    );
    assert_eq!(
        PotterAppServerClient::initialized(&vec![event("1")]),
        Err(
            "internal error: unexpected events during potter app-server initialize".to_string()
        )
    );
}

#[test]
fn answers_are_waited_for_and_events_kept() {
    let (mut read, action) =
        PotterRead::read_until_response(RequestId::Integer(2), vec![event("0")]);
    assert!(matches!(action, ReadAction::ReadLine));
    assert!(matches!(read.step(ReadInput::Line(Some("  ".to_string()))), ReadAction::ReadLine));
    let ReadAction::Decode { line } = read.step(ReadInput::Line(Some("{}".to_string()))) else {
        panic!("expected a line to decode");
    };
    assert_eq!(line, "{}");
    assert!(matches!(read.step(response(1)), ReadAction::ReadLine));
    assert!(matches!(read.step(ReadInput::Message(JsonRpcMessage::Request)), ReadAction::ReadLine));
    let other = JsonRpcMessage::Notification { method: "other".to_string(), params: None };
    assert!(matches!(read.step(ReadInput::Message(other)), ReadAction::ReadLine));
    let notification = JsonRpcMessage::Notification {
        method: POTTER_EVENT_NOTIFICATION_METHOD.to_string(),
        params: Some(serde_json::Value::Null),
    };
    assert!(matches!(
        read.step(ReadInput::Message(notification)),
        ReadAction::DecodeEvent { params: serde_json::Value::Null }
    ));
    assert!(matches!(read.step(ReadInput::Event(event("1"))), ReadAction::ReadLine));
    assert!(matches!(
        read.step(response(2)),
        ReadAction::Response { result: serde_json::Value::Bool(true) }
    ));
    let ids: Vec<String> = read.into_buffered_events().into_iter().map(|e| e.id).collect();
    assert_eq!(ids, ["0", "1"]);
}

#[test]
fn next_event_passes_answers_over() {
    let (mut read, _) = PotterRead::read_next_event();
    assert!(matches!(read.step(response(1)), ReadAction::ReadLine));
    let error = JsonRpcMessage::Error {
        id: RequestId::Integer(1),
        code: 1,
        message: String::new(),
    };
    assert!(matches!(read.step(ReadInput::Message(error)), ReadAction::ReadLine));
    let ReadAction::Event { event } = read.step(ReadInput::Event(event("7"))) else {
        panic!("expected an event");
    };
    assert_eq!(event.id, "7");
    assert!(matches!(read.step(ReadInput::Line(None)), ReadAction::EndOfStream));
}

#[test]
fn failures_of_reading_are_named() {
    let (mut read, _) = PotterRead::read_until_response(RequestId::Text("x".to_string()), Vec::new());
    assert_eq!(
        failure(read.step(ReadInput::LineFailed)).message(),
        "read potter app-server stdout line"
    );
    assert_eq!(
        failure(read.step(ReadInput::Line(None))).message(),
        "potter app-server closed stdout unexpectedly"
    );
    assert_eq!(
        failure(read.step(ReadInput::Undecodable { line: "a\"b\n".to_string() })).message(),
        "decode potter app-server JSON-RPC: \"a\\\"b\\n\""
    );
    let missing = JsonRpcMessage::Notification {
        method: POTTER_EVENT_NOTIFICATION_METHOD.to_string(),
        params: None,
    };
    assert_eq!(
        failure(read.step(ReadInput::Message(missing))).message(),
        "potter app-server event notification missing params"
    );
    assert_eq!(
        failure(read.step(ReadInput::UndecodableEvent)).message(),
        "deserialize potter event payload"
    );
    let error = JsonRpcMessage::Error {
        id: RequestId::Text("x".to_string()),
        code: -32000,
        message: "no".to_string(),
    };
    assert_eq!(
        failure(read.step(ReadInput::Message(error))).message(),
        "potter app-server JSON-RPC error: code=-32000 message=no"
    );
    let (mut next, _) = PotterRead::read_next_event();
    assert_eq!(
        failure(next.step(ReadInput::UndecodableEvent)).message(),
        "deserialize potter app-server event payload"
    );
}

#[test]
fn ids_differ_by_kind_and_value() {
    let one = RequestId::Integer(1);
    assert!(same_id(&one, &RequestId::Integer(1)));
    assert!(!same_id(&one, &RequestId::Integer(2)));
    assert!(!same_id(&one, &RequestId::Text("1".to_string())));
    assert!(same_id(&RequestId::Text("a".to_string()), &RequestId::Text("a".to_string())));
}

#[test]
fn messages_are_framed_as_lines() {
    assert_eq!(frame_message(b"{}".to_vec()), b"{}\n");
}

#[test]
fn stubborn_servers_are_killed() {
    let close = shutdown(None);
    assert_eq!(close, ShutdownAction::CloseInput);
    let wait = shutdown(Some((close, ShutdownInput::Succeeded)));
    assert_eq!(wait, ShutdownAction::WaitUpTo { secs: 2 });
    assert_eq!(shutdown(Some((wait, ShutdownInput::Succeeded))), ShutdownAction::Done);
    assert_eq!(shutdown(Some((wait, ShutdownInput::Failed))), ShutdownAction::WaitFailed);
    let kill = shutdown(Some((wait, ShutdownInput::TimedOut)));
    assert_eq!(kill, ShutdownAction::Kill);
    assert_eq!(shutdown(Some((kill, ShutdownInput::Failed))), ShutdownAction::KillFailed);
    let reap = shutdown(Some((kill, ShutdownInput::Succeeded)));
    assert_eq!(reap, ShutdownAction::Wait);
    let failed = shutdown(Some((reap, ShutdownInput::Failed)));
    assert_eq!(shutdown_failure(failed), Some("wait for killed potter app-server process"));
    assert_eq!(
        shutdown_failure(ShutdownAction::WaitFailed),
        Some("wait for potter app-server process")
    );
    assert_eq!(
        shutdown_failure(ShutdownAction::KillFailed),
        Some("kill potter app-server process")
    );
    assert_eq!(shutdown_failure(ShutdownAction::Done), None);
}
