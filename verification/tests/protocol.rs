use agentd::protocol::error::WireError;
use agentd::protocol::field::WireStatus;
use agentd::protocol::frame::{
    read_request, read_response, write_frame, write_request, write_response, FrameHeader,
    DAEMON_MANAGEMENT_VERSION, FRAME_MAGIC, PROTOCOL_VERSION,
};
use agentd::protocol::kind::MessageKind;
use agentd::protocol::management::{
    decode_daemon_management_request, read_daemon_management_response, read_incoming_request,
    write_daemon_management_request, write_daemon_management_response, DaemonManagementRequest,
    DaemonManagementResponse, DaemonManagementStatus, IncomingFrame, IncomingRequest,
    ManagementResponseShape, DAEMON_ERROR_RESPONSE_KIND, DAEMON_SHUTDOWN_REQUEST_KIND,
    DAEMON_STATUS_REQUEST_KIND,
};
use agentd::protocol::record::{
    DaemonInfo, NewSessionEvent, SessionEvent, WireCreateResult, WireSession,
};
use agentd::protocol::request::{decode_request, encode_request, Request};
use agentd::protocol::response::{decode_response, encode_response, Response};
use agentd::time::Timestamp;

fn now() -> Timestamp {
    let now = chrono::Utc::now();
    Timestamp::new(now.timestamp(), now.timestamp_subsec_nanos()).unwrap()
}

fn assert_request_round_trips(request: Request) {
    let (kind, payload) = encode_request(&request).unwrap();
    let decoded = decode_request(kind, &payload).unwrap();
    assert_eq!(decoded, request);
}

fn assert_response_round_trips(response: Response) {
    let (kind, payload) = encode_response(&response).unwrap();
    let decoded = decode_response(kind, &payload).unwrap();
    assert_eq!(decoded, response);
}

/// What a management request says whose payload is JSON.
fn decode_management(kind: u16, payload: &[u8]) -> Result<DaemonManagementRequest, WireError> {
    let force = match serde_json::from_slice::<serde_json::Value>(payload) {
        Ok(value) => match value.get("force").and_then(|force| force.as_bool()) {
            Some(force) => Ok(force),
            None => Err("missing field `force`".to_string()),
        },
        Err(error) => Err(error.to_string()),
    };
    decode_daemon_management_request(kind, payload, force)
}

fn read_incoming(bytes: &[u8]) -> IncomingRequest {
    match read_incoming_request(bytes).unwrap().unwrap() {
        (IncomingFrame::Standard(request), _) => IncomingRequest::Standard(request),
        (IncomingFrame::DaemonManagement { kind, payload }, _) => {
            IncomingRequest::DaemonManagement(decode_management(kind, &payload).unwrap())
        }
    }
}

#[test]
fn request_round_trips_binary_payloads() {
    let request = Request::SendInput {
        session_id: "demo".to_string(),
        data: vec![0, 1, 2, 255],
        source_session_id: Some("origin".to_string()),
    };
    let (kind, payload) = encode_request(&request).unwrap();
    let decoded = decode_request(kind, &payload).unwrap();
    assert_eq!(decoded, request);
}

#[test]
fn switch_attached_session_round_trips() {
    let request = Request::SwitchAttachedSession {
        source_session_id: "source".to_string(),
        target_session_id: "target".to_string(),
    };
    let (kind, payload) = encode_request(&request).unwrap();
    let decoded = decode_request(kind, &payload).unwrap();
    assert_eq!(decoded, request);
}

#[test]
fn detach_session_round_trips() {
    let request = Request::DetachSession { session_id: "demo".to_string() };
    let (kind, payload) = encode_request(&request).unwrap();
    let decoded = decode_request(kind, &payload).unwrap();
    assert_eq!(decoded, request);
}

#[test]
fn response_round_trips_snapshot_bytes() {
    let response = Response::Attached { snapshot: vec![0, 1, 2, 3, 4] };
    let (kind, payload) = encode_response(&response).unwrap();
    let decoded = decode_response(kind, &payload).unwrap();
    assert_eq!(decoded, response);
}

#[test]
fn switch_session_response_round_trips() {
    let response = Response::SwitchSession { session_id: "target".to_string() };
    let (kind, payload) = encode_response(&response).unwrap();
    let decoded = decode_response(kind, &payload).unwrap();
    assert_eq!(decoded, response);
}

#[test]
fn event_response_round_trips() {
    let mut payload_json = serde_json::Map::new();
    payload_json.insert("command".to_string(), serde_json::Value::from("cargo test"));
    payload_json.insert("exit_code".to_string(), serde_json::Value::from(1));
    let response = Response::Event {
        event: SessionEvent {
            id: 7,
            session_id: "demo".to_string(),
            timestamp: now(),
            event_type: "COMMAND_EXECUTED".to_string(),
            payload_json: serde_json::to_string(&serde_json::Value::Object(payload_json)).unwrap(),
        },
    };
    let (kind, payload) = encode_response(&response).unwrap();
    let decoded = decode_response(kind, &payload).unwrap();
    assert_eq!(decoded, response);
}

#[test]
fn sessions_response_round_trips() {
    let now = now();
    let response = Response::Sessions {
        sessions: vec![WireSession {
            session_id: "demo".to_string(),
            agent: "codex".to_string(),
            workspace: "/tmp/demo".to_string(),
            repo_path: "/tmp/demo".to_string(),
            task: "fix".to_string(),
            base_branch: "main".to_string(),
            branch: "agent/fix".to_string(),
            worktree: "/tmp/worktree".to_string(),
            status: WireStatus::Running,
            pid: Some(123),
            exit_code: None,
            error: None,
            created_at: now,
            updated_at: now,
            exited_at: None,
        }],
    };
    let (kind, payload) = encode_response(&response).unwrap();
    let decoded = decode_response(kind, &payload).unwrap();
    assert_eq!(decoded, response);
}

#[test]
fn daemon_info_carries_protocol_version() {
    let response = Response::DaemonInfo {
        info: DaemonInfo {
            daemon_version: "1.2.3".to_string(),
            protocol_version: PROTOCOL_VERSION,
        },
    };
    let (kind, payload) = encode_response(&response).unwrap();
    let decoded = decode_response(kind, &payload).unwrap();
    assert_eq!(decoded, response);
}

#[test]
fn session_ended_response_round_trips() {
    let response = Response::SessionEnded {
        session_id: "demo".to_string(),
        status: WireStatus::Exited,
        exit_code: Some(0),
        error: None,
    };
    let (kind, payload) = encode_response(&response).unwrap();
    let decoded = decode_response(kind, &payload).unwrap();
    assert_eq!(decoded, response);
}

#[test]
fn daemon_management_status_round_trips() {
    let mut bytes = Vec::new();
    let request = DaemonManagementRequest::Shutdown { force: true };
    write_daemon_management_request(&mut bytes, &request).unwrap();

    let incoming = read_incoming(&bytes);
    assert_eq!(incoming, IncomingRequest::DaemonManagement(request));
}

#[test]
fn daemon_management_response_round_trips() {
    let mut bytes = Vec::new();
    let response = DaemonManagementResponse::Status {
        status: DaemonManagementStatus {
            daemon_version: "1.2.3".to_string(),
            protocol_version: PROTOCOL_VERSION,
            pid: 42,
            root: "/tmp/agentd".to_string(),
            socket: "/tmp/agentd/agentd.sock".to_string(),
            running_sessions: false,
        },
    };
    write_daemon_management_response(&mut bytes, &response).unwrap();

    let (shape, payload, used) = read_daemon_management_response(&bytes).unwrap().unwrap();
    assert_eq!(used, bytes.len());
    assert_eq!(shape, ManagementResponseShape::Status);
    let value: serde_json::Value = serde_json::from_slice(&payload).unwrap();
    let decoded = DaemonManagementResponse::Status {
        status: DaemonManagementStatus {
            daemon_version: value["daemon_version"].as_str().unwrap().to_string(),
            protocol_version: value["protocol_version"].as_u64().unwrap() as u16,
            pid: value["pid"].as_u64().unwrap() as u32,
            root: value["root"].as_str().unwrap().to_string(),
            socket: value["socket"].as_str().unwrap().to_string(),
            running_sessions: value["running_sessions"].as_bool().unwrap(),
        },
    };
    assert_eq!(decoded, response);
}

#[test]
fn incoming_request_accepts_daemon_management_version() {
    let mut bytes = Vec::new();
    bytes.extend_from_slice(&FRAME_MAGIC.to_le_bytes());
    bytes.extend_from_slice(&DAEMON_MANAGEMENT_VERSION.to_le_bytes());
    bytes.extend_from_slice(&DAEMON_STATUS_REQUEST_KIND.to_le_bytes());
    bytes.extend_from_slice(&0_u16.to_le_bytes());
    bytes.extend_from_slice(&0_u16.to_le_bytes());
    bytes.extend_from_slice(&0_u32.to_le_bytes());

    let incoming = read_incoming(&bytes);
    assert_eq!(incoming, IncomingRequest::DaemonManagement(DaemonManagementRequest::Status));
}

#[test]
fn append_session_events_round_trips() {
    let mut payload_json = serde_json::Map::new();
    payload_json.insert("value".to_string(), serde_json::Value::from(42));
    let request = Request::AppendSessionEvents {
        session_id: "demo".to_string(),
        events: vec![NewSessionEvent {
            event_type: "progress".to_string(),
            payload_json: serde_json::to_string(&serde_json::Value::Object(payload_json)).unwrap(),
        }],
    };
    let (kind, payload) = encode_request(&request).unwrap();
    let decoded = decode_request(kind, &payload).unwrap();
    assert_eq!(decoded, request);
}

#[test]
fn create_session_result_round_trips() {
    let response = Response::CreateSession {
        session: WireCreateResult {
            session_id: "demo".to_string(),
            base_branch: "main".to_string(),
            branch: "agent/demo".to_string(),
            worktree: "/tmp/demo".to_string(),
            status: WireStatus::Running,
        },
    };
    let (kind, payload) = encode_response(&response).unwrap();
    let decoded = decode_response(kind, &payload).unwrap();
    assert_eq!(decoded, response);
}

#[test]
fn truncated_frame_header_returns_error() {
    let err = read_request(&[1, 2, 3]).unwrap_err();
    assert!(err.message().contains("truncated frame header"));
}

// ---------------------------------------------------------------------------
// Frames
// ---------------------------------------------------------------------------
#[test]
fn a_request_frame_has_an_exact_layout() {
    let mut bytes = Vec::new();
    write_request(&mut bytes, &Request::KillSession { session_id: "ab".to_string(), remove: true })
        .unwrap();
    let (kind, payload) =
        encode_request(&Request::KillSession { session_id: "ab".to_string(), remove: true })
            .unwrap();
    assert_eq!(kind, MessageKind::KillSessionRequest);
    assert_eq!(payload, vec![2, 0, 0, 0, 97, 98, 1]);
    assert_eq!(&bytes[0..4], &[0x50, 0x44, 0x47, 0x41]);
    assert_eq!(&bytes[4..6], &[10, 0]);
    assert_eq!(&bytes[8..12], &[0, 0, 0, 0]);
    assert_eq!(&bytes[12..16], &[7, 0, 0, 0]);
    assert_eq!(&bytes[16..], &payload[..]);
}

#[test]
fn frames_follow_one_another() {
    let mut bytes = Vec::new();
    write_request(&mut bytes, &Request::ListSessions).unwrap();
    write_request(&mut bytes, &Request::GetSession { session_id: "demo".to_string() }).unwrap();
    let (first, used) = read_request(&bytes).unwrap().unwrap();
    assert_eq!(first, Request::ListSessions);
    let (second, rest) = read_request(&bytes[used..]).unwrap().unwrap();
    assert_eq!(second, Request::GetSession { session_id: "demo".to_string() });
    assert_eq!(used + rest, bytes.len());
    assert_eq!(read_request(&bytes[used + rest..]).unwrap(), None);
}

#[test]
fn all_requests_round_trip() {
    let id = || "demo".to_string();
    assert_request_round_trips(Request::GetDaemonInfo);
    assert_request_round_trips(Request::ShutdownDaemon);
    assert_request_round_trips(Request::CreateSession {
        workspace: "/tmp".to_string(),
        task: "fix é".to_string(),
        agent: "codex".to_string(),
    });
    assert_request_round_trips(Request::CreateWorktree { session_id: id() });
    assert_request_round_trips(Request::CleanupWorktree { session_id: id() });
    assert_request_round_trips(Request::KillSession { session_id: id(), remove: false });
    assert_request_round_trips(Request::AttachSession { session_id: id() });
    assert_request_round_trips(Request::AttachInput { data: vec![1, 2] });
    assert_request_round_trips(Request::SendInput {
        session_id: id(),
        data: vec![],
        source_session_id: None,
    });
    assert_request_round_trips(Request::DiffSession { session_id: id() });
    assert_request_round_trips(Request::GetSession { session_id: id() });
    assert_request_round_trips(Request::ListSessions);
    assert_request_round_trips(Request::StreamLogs { session_id: id(), follow: true });
    assert_request_round_trips(Request::StreamEvents { session_id: id(), follow: false });
}

#[test]
fn all_responses_round_trip() {
    assert_response_round_trips(Response::KillSession { removed: true, was_running: false });
    assert_response_round_trips(Response::InputAccepted);
    assert_response_round_trips(Response::LogChunk { data: "log".to_string() });
    assert_response_round_trips(Response::PtyOutput { data: vec![27, 91] });
    assert_response_round_trips(Response::EndOfStream);
    assert_response_round_trips(Response::Error { message: "no".to_string() });
    assert_response_round_trips(Response::Done);
    for status in [
        WireStatus::Creating,
        WireStatus::Running,
        WireStatus::Paused,
        WireStatus::Exited,
        WireStatus::Failed,
        WireStatus::UnknownRecovered,
    ] {
        assert_response_round_trips(Response::SessionEnded {
            session_id: "demo".to_string(),
            status,
            exit_code: Some(-7),
            error: Some("boom".to_string()),
        });
    }
}

#[test]
fn response_frames_are_read_back() {
    let mut bytes = Vec::new();
    write_response(&mut bytes, &Response::Error { message: "no".to_string() }).unwrap();
    let (response, used) = read_response(&bytes).unwrap().unwrap();
    assert_eq!(response, Response::Error { message: "no".to_string() });
    assert_eq!(used, bytes.len());
}

// ---------------------------------------------------------------------------
// Faults
// ---------------------------------------------------------------------------
fn framed(version: u16, kind: u16, payload: &[u8]) -> Vec<u8> {
    let mut bytes = Vec::new();
    write_frame(&mut bytes, FrameHeader { version, kind }, payload).unwrap();
    bytes
}

#[test]
fn frames_of_other_versions_are_refused() {
    let error = read_request(&framed(9, 1, &[])).unwrap_err();
    assert_eq!(error, WireError::UnsupportedVersion(9));
    assert_eq!(error.message(), "unsupported protocol version `9`");
}

#[test]
fn unknown_kinds_are_refused() {
    let error = read_request(&framed(PROTOCOL_VERSION, 60_000, &[])).unwrap_err();
    assert_eq!(error, WireError::UnknownKind(60_000));
    assert_eq!(error.message(), "unknown message kind `60000`");
}

#[test]
fn other_magic_is_refused() {
    let mut bytes = framed(PROTOCOL_VERSION, 1, &[]);
    bytes[0] = 0;
    assert_eq!(read_request(&bytes).unwrap_err(), WireError::InvalidMagic);
}

#[test]
fn missing_payload_is_an_early_end() {
    let mut bytes = Vec::new();
    write_request(&mut bytes, &Request::GetSession { session_id: "demo".to_string() }).unwrap();
    bytes.pop();
    let error = read_request(&bytes).unwrap_err();
    assert_eq!(error, WireError::UnexpectedEof);
    assert_eq!(error.message(), "early eof");
}

#[test]
fn a_response_is_no_request() {
    let error = decode_request(MessageKind::EndOfStreamResponse, &[]).unwrap_err();
    assert_eq!(error, WireError::ResponseKind(MessageKind::EndOfStreamResponse));
    let error = decode_response(MessageKind::ListSessionsRequest, &[]).unwrap_err();
    assert_eq!(error, WireError::RequestKind(MessageKind::ListSessionsRequest));
}

#[test]
fn payloads_are_read_to_their_end() {
    let error = decode_request(MessageKind::ListSessionsRequest, &[0]).unwrap_err();
    assert_eq!(error, WireError::TrailingBytes);
    let error = decode_request(MessageKind::GetSessionRequest, &[4, 0, 0, 0, 97]).unwrap_err();
    assert_eq!(error, WireError::TruncatedPayload);
}

#[test]
fn values_outside_their_range_are_refused() {
    let error = decode_response(MessageKind::KillSessionResponse, &[2, 0]).unwrap_err();
    assert_eq!(error, WireError::InvalidBool(2));
    let error =
        decode_response(MessageKind::SessionEndedResponse, &[0, 0, 0, 0, 77, 0, 0]).unwrap_err();
    assert_eq!(error, WireError::InvalidStatus(77));
    assert_eq!(error.message(), "invalid session status `77`");
}

#[test]
fn texts_have_to_be_utf8() {
    let error =
        decode_request(MessageKind::GetSessionRequest, &[2, 0, 0, 0, 0x61, 0xff]).unwrap_err();
    let expected = String::from_utf8(vec![0x61, 0xff]).unwrap_err().to_string();
    assert_eq!(error, WireError::InvalidUtf8(expected));
}

#[test]
fn event_payloads_have_to_be_json() {
    let request = Request::AppendSessionEvents {
        session_id: "demo".to_string(),
        events: vec![NewSessionEvent {
            event_type: "progress".to_string(),
            payload_json: "{\"value\":".to_string(),
        }],
    };
    let (kind, payload) = encode_request(&request).unwrap();
    let expected = serde_json::from_str::<serde_json::Value>("{\"value\":").unwrap_err();
    assert_eq!(
        decode_request(kind, &payload).unwrap_err(),
        WireError::InvalidJson(expected.to_string())
    );
}

#[test]
fn timestamps_have_to_exist() {
    let response = Response::Event {
        event: SessionEvent {
            id: 7,
            session_id: "demo".to_string(),
            timestamp: Timestamp { seconds: 0, nanos: 1_000_000_000 },
            event_type: "x".to_string(),
            payload_json: "1".to_string(),
        },
    };
    let (kind, payload) = encode_response(&response).unwrap();
    assert_eq!(decode_response(kind, &payload).unwrap_err(), WireError::InvalidTimestamp);
}

#[test]
fn management_texts_are_escaped() {
    let mut bytes = Vec::new();
    write_daemon_management_response(
        &mut bytes,
        &DaemonManagementResponse::Error { message: "say \"no\"\n".to_string() },
    )
    .unwrap();
    let (shape, payload, _) = read_daemon_management_response(&bytes).unwrap().unwrap();
    assert_eq!(shape, ManagementResponseShape::Error);
    assert_eq!(String::from_utf8(payload).unwrap(), "{\"message\":\"say \\\"no\\\"\\n\"}");
    let response =
        DaemonManagementResponse::Error { message: "\u{1}\u{8}\u{c}\r\t\u{1f}\\\u{7f}é".to_string() };
    let mut bytes = Vec::new();
    write_daemon_management_response(&mut bytes, &response).unwrap();
    let (_, payload, _) = read_daemon_management_response(&bytes).unwrap().unwrap();
    assert_eq!(
        String::from_utf8(payload).unwrap(),
        "{\"message\":\"\\u0001\\b\\f\\r\\t\\u001f\\\\\u{7f}é\"}"
    );
}

#[test]
fn management_kinds_are_checked() {
    assert_eq!(
        decode_management(DAEMON_STATUS_REQUEST_KIND, &[1]).unwrap_err(),
        WireError::UnexpectedStatusPayload
    );
    assert!(matches!(
        decode_management(DAEMON_SHUTDOWN_REQUEST_KIND, b"{"),
        Err(WireError::InvalidJson(_))
    ));
    assert_eq!(
        decode_management(5, &[]).unwrap_err(),
        WireError::UnknownManagementRequest(5)
    );
    let frame = framed(DAEMON_MANAGEMENT_VERSION, 5, &[]);
    assert_eq!(
        read_daemon_management_response(&frame).unwrap_err(),
        WireError::UnknownManagementResponse(5)
    );
    let frame = framed(3, DAEMON_ERROR_RESPONSE_KIND, &[]);
    assert_eq!(
        read_daemon_management_response(&frame).unwrap_err(),
        WireError::UnsupportedManagementVersion(3)
    );
}

#[test]
fn standard_requests_arrive_too() {
    let mut bytes = Vec::new();
    write_request(&mut bytes, &Request::ListSessions).unwrap();
    assert_eq!(read_incoming(&bytes), IncomingRequest::Standard(Request::ListSessions));
}
