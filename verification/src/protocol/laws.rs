//! What stands on the wire, byte by byte.
use crate::protocol::body::{body_bytes, entries_bytes, fields_bytes, plain};
use crate::protocol::cursor::status_of;
use crate::protocol::error::WireFault;
use crate::protocol::field::{
    field_bytes, field_fits, le16, le32, le64, status_code, unsigned32, unsigned64, value32, FieldValue,
    WireStatus,
};
use crate::protocol::frame::{
    frame_bytes, parse_frame, request_frame, response_frame, standard_kind, FrameHeader,
};
use crate::protocol::kind::{code_kind, kind_code, kind_name, MessageKind};
use crate::protocol::management::{
    management_frame, management_request_kind, management_request_text, management_response_kind,
    response_shape, DaemonManagementRequest, DaemonManagementResponse, ManagementResponseShape,
};
use crate::protocol::record::{
    create_session_result_fields, daemon_info_fields, session_diff_fields, session_record_fields,
    worktree_record_fields, DaemonInfo, WireCreateResult, WireSession,
};
use crate::protocol::request::{request_body, request_kind, Request};
use crate::protocol::response::{response_body, response_kind, Response};
use crate::session::{SessionDiff, WorktreeRecord};
use vstd::prelude::*;
use vstd::string::*;
use vstd::utf8::*;

verus! {

// ---------------------------------------------------------------------------
// Fields
// ---------------------------------------------------------------------------
/// Numbers are written with their lowest byte first, and negative ones in two's complement.
pub proof fn numbers_are_written_lowest_first(x: u16, y: u32, z: i32)
    ensures
        le16(x as int).len() == 2,
        le16(x as int)[0] + 256 * le16(x as int)[1] == x,
        le32(y as int).len() == 4,
        le32(y as int)[0] + 256 * le32(y as int)[1] + 65_536 * le32(y as int)[2] + 16_777_216 * le32(
            y as int,
        )[3] == y,
        le64(y as int).len() == 8,
        le64(y as int).take(4) == le32(y as int),
        forall|i: int| 4 <= i < 8 ==> #[trigger] le64(y as int)[i] == 0,
        z < 0 ==> unsigned32(z as int) == 4_294_967_296 + z && unsigned64(z as int)
            == 18_446_744_073_709_551_616 + z,
        z >= 0 ==> unsigned32(z as int) == z && unsigned64(z as int) == z,
{
    reveal(le16);
    reveal(le32);
    reveal(le64);
    assert(y as int % 4_294_967_296 == y);
    assert(y as int / 4_294_967_296 == 0);
    assert(le64(y as int).take(4) =~= le32(y as int));
}

/// A truth value is one byte, and so is the mark before something that may be left out: one for
/// yes, and zero for no. A text and bytes stand behind their length.
pub proof fn fields_are_written(
    truth: bool,
    text: Seq<char>,
    bytes: Seq<u8>,
    number: u32,
    signed: i32,
)
    ensures
        field_bytes(FieldValue::Bool(truth)) == seq![if truth {
            1u8
        } else {
            0u8
        }],
        field_bytes(FieldValue::Bytes(bytes)) == le32(bytes.len() as int) + bytes,
        field_bytes(FieldValue::Text(text)) == le32(encode_utf8(text).len() as int) + encode_utf8(
            text,
        ),
        field_bytes(FieldValue::Json(text)) == field_bytes(FieldValue::Text(text)),
        field_bytes(FieldValue::OptionalText(Some(text))) == seq![1u8] + field_bytes(
            FieldValue::Text(text),
        ),
        field_bytes(FieldValue::OptionalText(None)) == seq![0u8],
        field_bytes(FieldValue::OptionalU32(Some(number))) == seq![1u8] + le32(number as int),
        field_bytes(FieldValue::OptionalU32(None)) == seq![0u8],
        signed >= 0 ==> field_bytes(FieldValue::OptionalI32(Some(signed))) == seq![1u8] + le32(
            signed as int,
        ),
        field_bytes(FieldValue::OptionalI32(None)) == seq![0u8],
        field_bytes(FieldValue::OptionalTime(None)) == seq![0u8],
        field_bytes(FieldValue::Length(number as nat)) == le32(number as int),
{
}

/// The states are numbered from one on: those of a session that is made, runs, pauses, has exited,
/// has failed or was recovered. No other byte is one.
pub proof fn states_are_numbered(status: WireStatus, byte: u8)
    ensures
        status_code(status) == (match status {
            WireStatus::Creating => 1u8,
            WireStatus::Running => 2u8,
            WireStatus::Paused => 3u8,
            WireStatus::Exited => 4u8,
            WireStatus::Failed => 5u8,
            WireStatus::UnknownRecovered => 6u8,
        }),
        status_of(byte) == Some(status) <==> byte == status_code(status),
        status_of(byte) is None <==> byte == 0 || byte > 6,
{
}

// ---------------------------------------------------------------------------
// Kinds
// ---------------------------------------------------------------------------
/// The kinds of requests, in the order of their numbers.
pub open spec fn request_kinds() -> Seq<MessageKind> {
    seq![
        MessageKind::GetDaemonInfoRequest,
        MessageKind::ShutdownDaemonRequest,
        MessageKind::CreateSessionRequest,
        MessageKind::CreateWorktreeRequest,
        MessageKind::CleanupWorktreeRequest,
        MessageKind::KillSessionRequest,
        MessageKind::AttachSessionRequest,
        MessageKind::AttachInputRequest,
        MessageKind::SendInputRequest,
        MessageKind::DiffSessionRequest,
        MessageKind::GetSessionRequest,
        MessageKind::ListSessionsRequest,
        MessageKind::AppendSessionEventsRequest,
        MessageKind::StreamLogsRequest,
        MessageKind::StreamEventsRequest,
        MessageKind::SwitchAttachedSessionRequest,
        MessageKind::DetachSessionRequest,
    ]
}

/// The kinds of responses, in the order of their numbers.
pub open spec fn response_kinds() -> Seq<MessageKind> {
    seq![
        MessageKind::DaemonInfoResponse,
        MessageKind::CreateSessionResponse,
        MessageKind::KillSessionResponse,
        MessageKind::AttachedResponse,
        MessageKind::InputAcceptedResponse,
        MessageKind::WorktreeResponse,
        MessageKind::DiffResponse,
        MessageKind::SessionResponse,
        MessageKind::SessionsResponse,
        MessageKind::EventResponse,
        MessageKind::LogChunkResponse,
        MessageKind::PtyOutputResponse,
        MessageKind::EndOfStreamResponse,
        MessageKind::ErrorResponse,
        MessageKind::OkResponse,
        MessageKind::SwitchSessionResponse,
        MessageKind::SessionEndedResponse,
    ]
}

/// Requests are numbered from one on and responses from a hundred and one on, and no other number is
/// a kind.
pub proof fn kinds_are_numbered(i: int, value: u16)
    requires
        0 <= i < 17,
    ensures
        request_kinds().len() == 17,
        response_kinds().len() == 17,
        kind_code(request_kinds()[i]) == i + 1,
        kind_code(response_kinds()[i]) == i + 101,
        code_kind(value) is Some <==> 1 <= value <= 17 || 101 <= value <= 117,
{
}

/// Every request and every response has the kind of its name, and requests never have the number of
/// a response.
pub proof fn messages_have_the_kind_of_their_name(request: Request, response: Response)
    ensures
        1 <= kind_code(request_kind(request)) <= 17,
        101 <= kind_code(response_kind(response)) <= 117,
        request is KillSession <==> kind_code(request_kind(request)) == 6,
        request is ShutdownDaemon <==> kind_code(request_kind(request)) == 2,
        request is CreateSession <==> kind_code(request_kind(request)) == 3,
        request is CreateWorktree <==> kind_code(request_kind(request)) == 4,
        request is CleanupWorktree <==> kind_code(request_kind(request)) == 5,
        request is AttachSession <==> kind_code(request_kind(request)) == 7,
        request is AttachInput <==> kind_code(request_kind(request)) == 8,
        request is SendInput <==> kind_code(request_kind(request)) == 9,
        request is DiffSession <==> kind_code(request_kind(request)) == 10,
        request is GetSession <==> kind_code(request_kind(request)) == 11,
        request is ListSessions <==> kind_code(request_kind(request)) == 12,
        request is AppendSessionEvents <==> kind_code(request_kind(request)) == 13,
        request is StreamLogs <==> kind_code(request_kind(request)) == 14,
        request is StreamEvents <==> kind_code(request_kind(request)) == 15,
        request is SwitchAttachedSession <==> kind_code(request_kind(request)) == 16,
        request is DetachSession <==> kind_code(request_kind(request)) == 17,
        request is GetDaemonInfo <==> kind_code(request_kind(request)) == 1,
        response is DaemonInfo <==> kind_code(response_kind(response)) == 101,
        response is CreateSession <==> kind_code(response_kind(response)) == 102,
        response is KillSession <==> kind_code(response_kind(response)) == 103,
        response is Attached <==> kind_code(response_kind(response)) == 104,
        response is InputAccepted <==> kind_code(response_kind(response)) == 105,
        response is Worktree <==> kind_code(response_kind(response)) == 106,
        response is Diff <==> kind_code(response_kind(response)) == 107,
        response is Session <==> kind_code(response_kind(response)) == 108,
        response is Sessions <==> kind_code(response_kind(response)) == 109,
        response is Event <==> kind_code(response_kind(response)) == 110,
        response is LogChunk <==> kind_code(response_kind(response)) == 111,
        response is PtyOutput <==> kind_code(response_kind(response)) == 112,
        response is EndOfStream <==> kind_code(response_kind(response)) == 113,
        response is Error <==> kind_code(response_kind(response)) == 114,
        response is Done <==> kind_code(response_kind(response)) == 115,
        response is SwitchSession <==> kind_code(response_kind(response)) == 116,
        response is SessionEnded <==> kind_code(response_kind(response)) == 117,
{
}

// ---------------------------------------------------------------------------
// Frames
// ---------------------------------------------------------------------------
/// A frame starts with its mark, the version, the kind and four bytes of zero; then comes the length
/// of the payload, and the payload.
pub proof fn frames_are_laid_out(header: FrameHeader, payload: Seq<u8>)
    requires
        payload.len() <= u32::MAX,
    ensures
        ({
            let b = frame_bytes(header, payload);
            &&& b.len() == 16 + payload.len()
            &&& b.subrange(0, 4) == seq![0x50u8, 0x44u8, 0x47u8, 0x41u8]
            &&& b.subrange(4, 6) == le16(header.version as int)
            &&& b.subrange(6, 8) == le16(header.kind as int)
            &&& b.subrange(8, 12) == seq![0u8, 0u8, 0u8, 0u8]
            &&& b.subrange(12, 16) == le32(payload.len() as int)
            &&& b.skip(16) == payload
        }),
{
    reveal(le16);
    reveal(le32);
    let b = frame_bytes(header, payload);
    assert(b.subrange(0, 4) =~= seq![0x50u8, 0x44u8, 0x47u8, 0x41u8]);
    assert(b.subrange(4, 6) =~= le16(header.version as int));
    assert(b.subrange(6, 8) =~= le16(header.kind as int));
    assert(b.subrange(8, 12) =~= seq![0u8, 0u8, 0u8, 0u8]);
    assert(b.subrange(12, 16) =~= le32(payload.len() as int));
    assert(b.skip(16) =~= payload);
}

/// Messages between the daemon and its clients carry version ten of the protocol, and those that
/// manage the daemon version one of theirs.
pub proof fn frames_carry_their_version(
    request: Request,
    response: Response,
    kind: u16,
    text: Seq<char>,
)
    ensures
        request_frame(request) == frame_bytes(
            FrameHeader { version: 10, kind: kind_code(request_kind(request)) },
            body_bytes(request_body(request)),
        ),
        response_frame(response) == frame_bytes(
            FrameHeader { version: 10, kind: kind_code(response_kind(response)) },
            body_bytes(response_body(response)),
        ),
        management_frame(kind, text) == frame_bytes(
            FrameHeader { version: 1, kind },
            encode_utf8(text),
        ),
{
}

/// Input that is at its end holds no frame. Less than a header, another mark and less than the
/// payload that the header announces are faults, and so is another version or an unknown kind.
pub proof fn broken_frames_are_refused(b: Seq<u8>, header: FrameHeader)
    ensures
        (parse_frame(b) matches Ok(found) && found is None) <==> b.len() == 0,
        0 < b.len() < 16 ==> parse_frame(b) == Err::<
            Option<crate::protocol::frame::FoundFrame>,
            WireFault,
        >(WireFault::TruncatedHeader),
        b.len() >= 16 && value32(b.subrange(0, 4)) != 0x4147_4450 ==> parse_frame(b) == Err::<
            Option<crate::protocol::frame::FoundFrame>,
            WireFault,
        >(WireFault::InvalidMagic),
        b.len() >= 16 && value32(b.subrange(0, 4)) == 0x4147_4450 && value32(b.subrange(12, 16)) + 16
            > b.len() ==> parse_frame(b) == Err::<
            Option<crate::protocol::frame::FoundFrame>,
            WireFault,
        >(WireFault::UnexpectedEof),
        b.len() >= 16 && value32(b.subrange(0, 4)) == 0x4147_4450 && value32(b.subrange(12, 16)) + 16
            <= b.len() ==> parse_frame(b) is Ok && parse_frame(b)->Ok_0->0.length == 16 + value32(
            b.subrange(12, 16),
        ) && parse_frame(b)->Ok_0->0.payload == b.subrange(16, 16 + value32(b.subrange(12, 16))),
        standard_kind(header) is Ok <==> header.version == 10 && (1 <= header.kind <= 17 || 101
            <= header.kind <= 117),
        header.version != 10 ==> standard_kind(header) == Err::<MessageKind, WireFault>(
            WireFault::UnsupportedVersion(header.version),
        ),
        header.version == 10 && standard_kind(header) is Err ==> standard_kind(header) == Err::<
            MessageKind,
            WireFault,
        >(WireFault::UnknownKind(header.kind)),
{
}

// ---------------------------------------------------------------------------
// Payloads
// ---------------------------------------------------------------------------
/// The bytes of a text behind its length.
pub open spec fn text_bytes(text: Seq<char>) -> Seq<u8> {
    le32(encode_utf8(text).len() as int) + encode_utf8(text)
}

/// The byte of a truth value.
pub open spec fn truth_byte(value: bool) -> Seq<u8> {
    if value {
        seq![1u8]
    } else {
        seq![0u8]
    }
}

proof fn no_entries(head: Seq<FieldValue>)
    ensures
        body_bytes(plain(head)) == fields_bytes(head),
{
    assert(fields_bytes(head) + entries_bytes(plain(head).entries) =~= fields_bytes(head));
}

proof fn one_field(a: FieldValue)
    ensures
        fields_bytes(seq![a]) == field_bytes(a),
{
    reveal_with_fuel(fields_bytes, 2);
    assert(seq![a].drop_last() =~= Seq::empty());
    assert(fields_bytes(seq![a]) =~= field_bytes(a));
}

proof fn two_fields(a: FieldValue, b: FieldValue)
    ensures
        fields_bytes(seq![a, b]) == field_bytes(a) + field_bytes(b),
{
    one_field(a);
    assert(seq![a, b].drop_last() =~= seq![a]);
}

proof fn three_fields(a: FieldValue, b: FieldValue, c: FieldValue)
    ensures
        fields_bytes(seq![a, b, c]) == field_bytes(a) + field_bytes(b) + field_bytes(c),
{
    two_fields(a, b);
    assert(seq![a, b, c].drop_last() =~= seq![a, b]);
}

/// A request for a session holds the session's name, and nothing else where it needs nothing else. The
/// mark whether to remove or to follow it stands last, and is one where that is asked for.
pub proof fn requests_hold_the_session_and_the_mark(id: String, flag: bool)
    ensures
        body_bytes(request_body(Request::KillSession { session_id: id, remove: flag }))
            == text_bytes(id@) + truth_byte(flag),
        body_bytes(request_body(Request::StreamLogs { session_id: id, follow: flag }))
            == text_bytes(id@) + truth_byte(flag),
        body_bytes(request_body(Request::StreamEvents { session_id: id, follow: flag }))
            == text_bytes(id@) + truth_byte(flag),
        body_bytes(request_body(Request::AttachSession { session_id: id })) == text_bytes(id@),
        body_bytes(request_body(Request::DetachSession { session_id: id })) == text_bytes(id@),
        body_bytes(request_body(Request::GetSession { session_id: id })) == text_bytes(id@),
        body_bytes(request_body(Request::DiffSession { session_id: id })) == text_bytes(id@),
        body_bytes(request_body(Request::CreateWorktree { session_id: id })) == text_bytes(id@),
        body_bytes(request_body(Request::CleanupWorktree { session_id: id })) == text_bytes(id@),
        body_bytes(request_body(Request::ListSessions)).len() == 0,
        body_bytes(request_body(Request::GetDaemonInfo)).len() == 0,
        body_bytes(request_body(Request::ShutdownDaemon)).len() == 0,
{
    let name = FieldValue::Text(id@);
    let mark = FieldValue::Bool(flag);
    no_entries(seq![name, mark]);
    no_entries(seq![name]);
    no_entries(Seq::empty());
    two_fields(name, mark);
    one_field(name);
    assert(field_bytes(mark) =~= truth_byte(flag));
}

/// A request for a session holds where it works, its task and its agent, in this order; input goes
/// behind the session that it is for, and a switch names the session that is left before the one
/// that is gone to.
pub proof fn requests_hold_their_parts_in_order(
    a: String,
    b: String,
    c: String,
    data: Vec<u8>,
)
    ensures
        body_bytes(request_body(Request::CreateSession { workspace: a, task: b, agent: c }))
            == text_bytes(a@) + text_bytes(b@) + text_bytes(c@),
        body_bytes(request_body(Request::AttachInput { data })) == le32(data@.len() as int) + data@,
        body_bytes(
            request_body(
                Request::SendInput { session_id: a, data, source_session_id: Some(b) },
            ),
        ) == text_bytes(a@) + (le32(data@.len() as int) + data@) + (seq![1u8] + text_bytes(b@)),
        body_bytes(
            request_body(Request::SendInput { session_id: a, data, source_session_id: None }),
        ) == text_bytes(a@) + (le32(data@.len() as int) + data@) + seq![0u8],
        body_bytes(
            request_body(
                Request::SwitchAttachedSession { source_session_id: a, target_session_id: b },
            ),
        ) == text_bytes(a@) + text_bytes(b@),
{
    let (x, y, z) = (FieldValue::Text(a@), FieldValue::Text(b@), FieldValue::Text(c@));
    let bytes = FieldValue::Bytes(data@);
    let some = FieldValue::OptionalText(Some(b@));
    let none = FieldValue::OptionalText(None);
    no_entries(seq![x, y, z]);
    three_fields(x, y, z);
    no_entries(seq![bytes]);
    one_field(bytes);
    no_entries(seq![x, bytes, some]);
    three_fields(x, bytes, some);
    no_entries(seq![x, bytes, none]);
    three_fields(x, bytes, none);
    no_entries(seq![x, y]);
    two_fields(x, y);
}

/// A response says whether a session was removed before it says whether it ran; output, logs and
/// errors are told as they are.
pub proof fn responses_hold_their_parts_in_order(
    removed: bool,
    was_running: bool,
    data: Vec<u8>,
    text: String,
)
    ensures
        body_bytes(response_body(Response::KillSession { removed, was_running })) == truth_byte(
            removed,
        ) + truth_byte(was_running),
        body_bytes(response_body(Response::PtyOutput { data })) == le32(data@.len() as int) + data@,
        body_bytes(response_body(Response::Attached { snapshot: data })) == le32(data@.len() as int)
            + data@,
        body_bytes(response_body(Response::LogChunk { data: text })) == text_bytes(text@),
        body_bytes(response_body(Response::Error { message: text })) == text_bytes(text@),
        body_bytes(response_body(Response::SwitchSession { session_id: text })) == text_bytes(text@),
        body_bytes(response_body(Response::Done)).len() == 0,
        body_bytes(response_body(Response::EndOfStream)).len() == 0,
        body_bytes(response_body(Response::InputAccepted)).len() == 0,
{
    let (a, b) = (FieldValue::Bool(removed), FieldValue::Bool(was_running));
    no_entries(seq![a, b]);
    two_fields(a, b);
    assert(field_bytes(a) =~= truth_byte(removed));
    assert(field_bytes(b) =~= truth_byte(was_running));
    no_entries(seq![FieldValue::Bytes(data@)]);
    one_field(FieldValue::Bytes(data@));
    no_entries(seq![FieldValue::Text(text@)]);
    one_field(FieldValue::Text(text@));
    no_entries(Seq::empty());
}

/// The records on the wire say these things in this order.
pub proof fn records_are_laid_out(
    info: DaemonInfo,
    made: WireCreateResult,
    place: WorktreeRecord,
    diff: SessionDiff,
    session: WireSession,
)
    ensures
        daemon_info_fields(info)[0] == FieldValue::Text(info.daemon_version@),
        daemon_info_fields(info)[1] == FieldValue::U16(info.protocol_version),
        create_session_result_fields(made)[0] == FieldValue::Text(made.session_id@),
        create_session_result_fields(made)[1] == FieldValue::Text(made.base_branch@),
        create_session_result_fields(made)[2] == FieldValue::Text(made.branch@),
        create_session_result_fields(made)[3] == FieldValue::Text(made.worktree@),
        create_session_result_fields(made)[4] == FieldValue::Status(made.status),
        worktree_record_fields(place)[0] == FieldValue::Text(place.session_id@),
        session_diff_fields(diff)[0] == FieldValue::Text(diff.session_id@),
        session_record_fields(session)[0] == FieldValue::Text(session.session_id@),
        session_record_fields(session)[1] == FieldValue::Text(session.agent@),
        session_record_fields(session)[2] == FieldValue::Text(session.workspace@),
        session_record_fields(session)[3] == FieldValue::Text(session.repo_path@),
        session_record_fields(session)[4] == FieldValue::Text(session.task@),
        session_record_fields(session)[5] == FieldValue::Text(session.base_branch@),
        session_record_fields(session)[6] == FieldValue::Text(session.branch@),
        session_record_fields(session)[7] == FieldValue::Text(session.worktree@),
        session_record_fields(session)[8] == FieldValue::Status(session.status),
        session_record_fields(session)[9] == FieldValue::OptionalU32(session.pid),
        session_record_fields(session)[10] == FieldValue::OptionalI32(session.exit_code),
        session_record_fields(session)[12] == FieldValue::Time(session.created_at),
        session_record_fields(session)[13] == FieldValue::Time(session.updated_at),
        session_record_fields(session)[14] == FieldValue::OptionalTime(session.exited_at),
{
}

// ---------------------------------------------------------------------------
// Managing the daemon
// ---------------------------------------------------------------------------
/// The request that the daemon stop says whether by force; the one for its status says nothing. What
/// a response is shows in its kind alone, and only in a frame of the management protocol.
pub proof fn management_says_what_it_is(
    force: bool,
    response: DaemonManagementResponse,
    header: FrameHeader,
)
    ensures
        management_request_text(DaemonManagementRequest::Status).len() == 0,
        management_request_text(DaemonManagementRequest::Shutdown { force }) == (if force {
            "{\"force\":true}"@
        } else {
            "{\"force\":false}"@
        }),
        management_request_kind(DaemonManagementRequest::Status) == 20_001,
        management_request_kind(DaemonManagementRequest::Shutdown { force }) == 20_002,
        management_response_kind(response) == (match response {
            DaemonManagementResponse::Status { .. } => 21_001u16,
            DaemonManagementResponse::Shutdown { .. } => 21_002u16,
            DaemonManagementResponse::Error { .. } => 21_099u16,
        }),
        header.version != 1 ==> response_shape(header) is Err,
        header.version == 1 && header.kind == management_response_kind(response) ==> response_shape(
            header,
        ) == Ok::<ManagementResponseShape, WireFault>(
            match response {
                DaemonManagementResponse::Status { .. } => ManagementResponseShape::Status,
                DaemonManagementResponse::Shutdown { .. } => ManagementResponseShape::Shutdown,
                DaemonManagementResponse::Error { .. } => ManagementResponseShape::Error,
            },
        ),
{
    reveal_strlit("{\"force\":");
    reveal_strlit("true");
    reveal_strlit("false");
    reveal_strlit("}");
    reveal_strlit("{\"force\":true}");
    reveal_strlit("{\"force\":false}");
    assert("{\"force\":"@ + "true"@ + "}"@ =~= "{\"force\":true}"@);
    assert("{\"force\":"@ + "false"@ + "}"@ =~= "{\"force\":false}"@);
}

/// A text and bytes can be written up to a length that thirty-two bits hold.
pub proof fn lengths_are_written_in_thirty_two_bits(bytes: Seq<u8>, text: Seq<char>, n: nat)
    ensures
        field_fits(FieldValue::Bytes(bytes)) <==> bytes.len() <= 0xffff_ffff,
        field_fits(FieldValue::Text(text)) <==> encode_utf8(text).len() <= 0xffff_ffff,
        field_fits(FieldValue::Json(text)) <==> encode_utf8(text).len() <= 0xffff_ffff,
        field_fits(FieldValue::OptionalText(Some(text))) <==> encode_utf8(text).len()
            <= 0xffff_ffff,
        field_fits(FieldValue::Length(n)) <==> n <= 0xffff_ffff,
        field_fits(FieldValue::OptionalText(None)),
        field_fits(FieldValue::Bool(true)),
{
}

/// Kinds are named in errors by what they are called.
pub proof fn kinds_are_named(kind: MessageKind)
    ensures
        kind == MessageKind::KillSessionRequest ==> kind_name(kind) == "KillSessionRequest"@,
        kind == MessageKind::CreateSessionRequest ==> kind_name(kind) == "CreateSessionRequest"@,
        kind == MessageKind::AttachSessionRequest ==> kind_name(kind) == "AttachSessionRequest"@,
        kind == MessageKind::DetachSessionRequest ==> kind_name(kind) == "DetachSessionRequest"@,
        kind == MessageKind::ListSessionsRequest ==> kind_name(kind) == "ListSessionsRequest"@,
        kind == MessageKind::GetSessionRequest ==> kind_name(kind) == "GetSessionRequest"@,
        kind == MessageKind::SessionResponse ==> kind_name(kind) == "SessionResponse"@,
        kind == MessageKind::SessionsResponse ==> kind_name(kind) == "SessionsResponse"@,
        kind == MessageKind::SwitchSessionResponse ==> kind_name(kind) == "SwitchSessionResponse"@,
        kind == MessageKind::SessionEndedResponse ==> kind_name(kind) == "SessionEndedResponse"@,
        kind == MessageKind::ErrorResponse ==> kind_name(kind) == "ErrorResponse"@,
        kind == MessageKind::OkResponse ==> kind_name(kind) == "OkResponse"@,
{
}

} // verus!
