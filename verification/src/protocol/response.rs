//! What the daemon answers.
use crate::protocol::body::{
    body_bytes, body_fits, body_is_canonical, body_round_trip, body_valid, entries_bytes,
    entries_stop_early, entry_count, fields_bytes, fields_fit, follows, items_values, parse_body,
    parse_entries,
    plain, put_items, types_of, values_of, Body, Layout,
};
use crate::protocol::cursor::{parse_fields, Cursor};
use crate::protocol::error::{WireError, WireFault};
use crate::protocol::field::{type_of, Field, FieldType, FieldValue, Item, WireStatus};
use crate::protocol::kind::MessageKind;
use crate::protocol::record::{
    DaemonInfo, SessionEvent, WireCreateResult, WireSession, create_session_result_fields,
    create_session_result_follows_layout, create_session_result_layout, daemon_info_fields,
    daemon_info_follows_layout, daemon_info_layout, pop_bool, pop_bytes, pop_length,
    pop_optional_i32, pop_optional_text, pop_status, pop_text, put_create_session_result,
    put_daemon_info, put_session_diff, put_session_event, put_session_record, put_worktree_record,
    session_diff_fields, session_diff_follows_layout, session_diff_layout, session_event_fields,
    session_event_follows_layout, session_event_layout, session_record_fields,
    session_record_follows_layout, session_record_layout, worktree_record_fields,
    worktree_record_follows_layout, worktree_record_layout,
};
use crate::session::{SessionDiff, WorktreeRecord};
use crate::text::{opt_str, opt_view};
use vstd::prelude::*;

verus! {

/// What the daemon answers.
#[derive(Debug, PartialEq)]
#[allow(inconsistent_fields)]
pub enum Response {
    /// Which daemon answers.
    DaemonInfo { info: DaemonInfo },
    /// The session that was created.
    CreateSession { session: WireCreateResult },
    /// What stopping a session came to.
    KillSession { removed: bool, was_running: bool },
    /// The client is attached; this is what the terminal shows.
    Attached { snapshot: Vec<u8> },
    /// The session that the client was attached to has ended.
    SessionEnded { session_id: String, status: WireStatus, exit_code: Option<i32>, error: Option<String> },
    /// Input was taken.
    InputAccepted,
    /// The worktree of a session.
    Worktree { worktree: WorktreeRecord },
    /// The changes of a session.
    Diff { diff: SessionDiff },
    /// A session.
    Session { session: WireSession },
    /// All sessions.
    Sessions { sessions: Vec<WireSession> },
    /// Something that happened in a session.
    Event { event: SessionEvent },
    /// A piece of the log of a session.
    LogChunk { data: String },
    /// What the terminal of a session printed.
    PtyOutput { data: Vec<u8> },
    /// The client is to attach to another session.
    SwitchSession { session_id: String },
    /// A stream has ended.
    EndOfStream,
    /// The request failed.
    Error { message: String },
    /// The request was carried out.
    Done,
}

/// The kind of a response.
pub open spec fn response_kind(response: Response) -> MessageKind {
    match response {
        Response::DaemonInfo { .. } => MessageKind::DaemonInfoResponse,
        Response::CreateSession { .. } => MessageKind::CreateSessionResponse,
        Response::KillSession { .. } => MessageKind::KillSessionResponse,
        Response::Attached { .. } => MessageKind::AttachedResponse,
        Response::SessionEnded { .. } => MessageKind::SessionEndedResponse,
        Response::InputAccepted => MessageKind::InputAcceptedResponse,
        Response::Worktree { .. } => MessageKind::WorktreeResponse,
        Response::Diff { .. } => MessageKind::DiffResponse,
        Response::Session { .. } => MessageKind::SessionResponse,
        Response::Sessions { .. } => MessageKind::SessionsResponse,
        Response::Event { .. } => MessageKind::EventResponse,
        Response::LogChunk { .. } => MessageKind::LogChunkResponse,
        Response::PtyOutput { .. } => MessageKind::PtyOutputResponse,
        Response::SwitchSession { .. } => MessageKind::SwitchSessionResponse,
        Response::EndOfStream => MessageKind::EndOfStreamResponse,
        Response::Error { .. } => MessageKind::ErrorResponse,
        Response::Done => MessageKind::OkResponse,
    }
}

/// What the payload of a response holds.
pub open spec fn response_body(response: Response) -> Body {
    match response {
        Response::DaemonInfo { info } => plain(daemon_info_fields(info)),
        Response::CreateSession { session } => plain(create_session_result_fields(session)),
        Response::KillSession { removed, was_running } => plain(
            seq![FieldValue::Bool(removed), FieldValue::Bool(was_running)],
        ),
        Response::Attached { snapshot } => plain(seq![FieldValue::Bytes(snapshot@)]),
        Response::SessionEnded { session_id, status, exit_code, error } => plain(
            seq![
                FieldValue::Text(session_id@),
                FieldValue::Status(status),
                FieldValue::OptionalI32(exit_code),
                FieldValue::OptionalText(opt_view(error)),
            ],
        ),
        Response::InputAccepted => plain(Seq::empty()),
        Response::Worktree { worktree } => plain(worktree_record_fields(worktree)),
        Response::Diff { diff } => plain(session_diff_fields(diff)),
        Response::Session { session } => plain(session_record_fields(session)),
        Response::Sessions { sessions } => Body {
            head: seq![FieldValue::Length(sessions@.len())],
            entries: Seq::new(sessions@.len(), |i: int| session_record_fields(sessions@[i])),
        },
        Response::Event { event } => plain(session_event_fields(event)),
        Response::LogChunk { data } => plain(seq![FieldValue::Text(data@)]),
        Response::PtyOutput { data } => plain(seq![FieldValue::Bytes(data@)]),
        Response::SwitchSession { session_id } => plain(seq![FieldValue::Text(session_id@)]),
        Response::EndOfStream => plain(Seq::empty()),
        Response::Error { message } => plain(seq![FieldValue::Text(message@)]),
        Response::Done => plain(Seq::empty()),
    }
}

/// The layout of the payload of a response of the given kind; nothing where no response has that kind.
pub open spec fn response_layout(kind: MessageKind) -> Option<Layout> {
    match kind {
        MessageKind::DaemonInfoResponse => Some(
            Layout {
                fields: daemon_info_layout(),
                entry: Seq::empty(),
            },
        ),
        MessageKind::CreateSessionResponse => Some(
            Layout {
                fields: create_session_result_layout(),
                entry: Seq::empty(),
            },
        ),
        MessageKind::KillSessionResponse => Some(
            Layout { fields: seq![FieldType::Bool, FieldType::Bool], entry: Seq::empty() },
        ),
        MessageKind::AttachedResponse => Some(
            Layout { fields: seq![FieldType::Bytes], entry: Seq::empty() },
        ),
        MessageKind::SessionEndedResponse => Some(
            Layout {
                fields: seq![
                    FieldType::Text,
                    FieldType::Status,
                    FieldType::OptionalI32,
                    FieldType::OptionalText,
                ],
                entry: Seq::empty(),
            },
        ),
        MessageKind::InputAcceptedResponse => Some(
            Layout {
                fields: Seq::empty(),
                entry: Seq::empty(),
            },
        ),
        MessageKind::WorktreeResponse => Some(
            Layout {
                fields: worktree_record_layout(),
                entry: Seq::empty(),
            },
        ),
        MessageKind::DiffResponse => Some(
            Layout {
                fields: session_diff_layout(),
                entry: Seq::empty(),
            },
        ),
        MessageKind::SessionResponse => Some(
            Layout {
                fields: session_record_layout(),
                entry: Seq::empty(),
            },
        ),
        MessageKind::SessionsResponse => Some(
            Layout { fields: seq![FieldType::Length], entry: session_record_layout() },
        ),
        MessageKind::EventResponse => Some(
            Layout {
                fields: session_event_layout(),
                entry: Seq::empty(),
            },
        ),
        MessageKind::LogChunkResponse => Some(
            Layout { fields: seq![FieldType::Text], entry: Seq::empty() },
        ),
        MessageKind::PtyOutputResponse => Some(
            Layout { fields: seq![FieldType::Bytes], entry: Seq::empty() },
        ),
        MessageKind::SwitchSessionResponse => Some(
            Layout { fields: seq![FieldType::Text], entry: Seq::empty() },
        ),
        MessageKind::EndOfStreamResponse => Some(
            Layout {
                fields: Seq::empty(),
                entry: Seq::empty(),
            },
        ),
        MessageKind::ErrorResponse => Some(
            Layout { fields: seq![FieldType::Text], entry: Seq::empty() },
        ),
        MessageKind::OkResponse => Some(Layout { fields: Seq::empty(), entry: Seq::empty() }),
        _ => None,
    }
}

/// A response of the given kind, as a reader finds it in a payload.
pub open spec fn parse_response(kind: MessageKind, b: Seq<u8>) -> Result<Body, WireFault> {
    match response_layout(kind) {
        Some(layout) => parse_body(layout, b),
        None => Err(WireFault::RequestKind(kind)),
    }
}

/// The payload of a response follows the layout of its kind.
pub proof fn response_follows_layout(response: Response)
    ensures
        response_layout(response_kind(response)) is Some,
        follows(response_body(response), response_layout(response_kind(response))->0),
{
    let body = response_body(response);
    let layout = response_layout(response_kind(response))->0;
    match response {
        Response::DaemonInfo { info } => {
            daemon_info_follows_layout(info);
        },
        Response::CreateSession { session } => {
            create_session_result_follows_layout(session);
        },
        Response::Worktree { worktree } => {
            worktree_record_follows_layout(worktree);
        },
        Response::Diff { diff } => {
            session_diff_follows_layout(diff);
        },
        Response::Session { session } => {
            session_record_follows_layout(session);
        },
        Response::Sessions { sessions, .. } => {
            assert forall|i: int| 0 <= i < body.entries.len() implies types_of(
                #[trigger] body.entries[i],
            ) == layout.entry by {
                session_record_follows_layout(sessions@[i]);
            }
        },
        Response::Event { event } => {
            session_event_follows_layout(event);
        },
        _ => {},
    }
    assert(types_of(body.head) =~= layout.fields);
}

/// A response is read back as it was written.
pub proof fn response_round_trip(response: Response)
    requires
        body_fits(response_body(response)),
        body_valid(response_body(response)),
        body_bytes(response_body(response)).len() <= usize::MAX,
    ensures
        parse_response(response_kind(response), body_bytes(response_body(response))) == Ok::<Body, WireFault>(
            response_body(response),
        ),
{
    response_follows_layout(response);
    body_round_trip(response_layout(response_kind(response))->0, response_body(response));
}

/// Whatever is read as a response are the bytes that a writer writes for what was read.
pub proof fn response_is_canonical(kind: MessageKind, b: Seq<u8>)
    requires
        parse_response(kind, b) is Ok,
    ensures
        body_bytes(parse_response(kind, b)->Ok_0) == b,
        body_fits(parse_response(kind, b)->Ok_0),
        body_valid(parse_response(kind, b)->Ok_0),
{
    body_is_canonical(response_layout(kind)->0, b);
}

/// The kind and the payload of a response.
pub fn encode_response(response: &Response) -> (r: Result<(MessageKind, Vec<u8>), WireError>)
    ensures
        body_fits(response_body(*response)) ==> r is Ok && r->Ok_0.0 == response_kind(*response)
            && r->Ok_0.1@ == body_bytes(response_body(*response)),
        !body_fits(response_body(*response)) ==> r == Err::<(MessageKind, Vec<u8>), WireError>(
            WireError::LengthExceedsU32,
        ),
{
    let ghost body = response_body(*response);
    let mut payload: Vec<u8> = Vec::new();
    let none: Vec<Item> = Vec::new();
    assert(items_values(none@) =~= Seq::empty());
    let (kind, written): (MessageKind, Result<(), WireError>) = match response {
        Response::DaemonInfo { info } => (
            MessageKind::DaemonInfoResponse,
            put_daemon_info(&mut payload, info),
        ),
        Response::CreateSession { session } => (
            MessageKind::CreateSessionResponse,
            put_create_session_result(&mut payload, session),
        ),
        Response::KillSession { removed, was_running } => {
            let items = vec![Item::Bool(*removed), Item::Bool(*was_running)];
            assert(items_values(items@) =~= body.head);
            (MessageKind::KillSessionResponse, put_items(&mut payload, &items))
        },
        Response::Attached { snapshot } => {
            let items = vec![Item::Bytes(snapshot.as_slice())];
            assert(items_values(items@) =~= body.head);
            (MessageKind::AttachedResponse, put_items(&mut payload, &items))
        },
        Response::SessionEnded { session_id, status, exit_code, error } => {
            let items = vec![
                Item::Text(session_id.as_str()),
                Item::Status(*status),
                Item::OptionalI32(*exit_code),
                Item::OptionalText(opt_str(error)),
            ];
            assert(items_values(items@) =~= body.head);
            (MessageKind::SessionEndedResponse, put_items(&mut payload, &items))
        },
        Response::InputAccepted => (MessageKind::InputAcceptedResponse, Ok(())),
        Response::Worktree { worktree } => (
            MessageKind::WorktreeResponse,
            put_worktree_record(&mut payload, worktree),
        ),
        Response::Diff { diff } => (
            MessageKind::DiffResponse,
            put_session_diff(&mut payload, diff),
        ),
        Response::Session { session } => (
            MessageKind::SessionResponse,
            put_session_record(&mut payload, session),
        ),
        Response::Sessions { sessions } => {
            let items = vec![Item::Length(sessions.len())];
            assert(items_values(items@) =~= body.head);
            (MessageKind::SessionsResponse, put_items(&mut payload, &items))
        },
        Response::Event { event } => (
            MessageKind::EventResponse,
            put_session_event(&mut payload, event),
        ),
        Response::LogChunk { data } => {
            let items = vec![Item::Text(data.as_str())];
            assert(items_values(items@) =~= body.head);
            (MessageKind::LogChunkResponse, put_items(&mut payload, &items))
        },
        Response::PtyOutput { data } => {
            let items = vec![Item::Bytes(data.as_slice())];
            assert(items_values(items@) =~= body.head);
            (MessageKind::PtyOutputResponse, put_items(&mut payload, &items))
        },
        Response::SwitchSession { session_id } => {
            let items = vec![Item::Text(session_id.as_str())];
            assert(items_values(items@) =~= body.head);
            (MessageKind::SwitchSessionResponse, put_items(&mut payload, &items))
        },
        Response::EndOfStream => (MessageKind::EndOfStreamResponse, Ok(())),
        Response::Error { message } => {
            let items = vec![Item::Text(message.as_str())];
            assert(items_values(items@) =~= body.head);
            (MessageKind::ErrorResponse, put_items(&mut payload, &items))
        },
        Response::Done => (MessageKind::OkResponse, Ok(())),
    };
    match written {
        Ok(()) => {},
        Err(error) => {
            return Err(error);
        },
    }
    assert(payload@ =~= fields_bytes(body.head));
    if let Response::Sessions { sessions, .. } = response {
        let mut i: usize = 0;
        assert(body.entries.take(0) =~= Seq::empty());
        assert(payload@ =~= fields_bytes(body.head) + entries_bytes(body.entries.take(0)));
        while i < sessions.len()
            invariant
                i <= sessions@.len(),
                body == response_body(*response),
                *response matches Response::Sessions { sessions: all, .. } && all == *sessions,
                fields_fit(body.head),
                forall|j: int| 0 <= j < i ==> fields_fit(#[trigger] body.entries[j]),
                payload@ == fields_bytes(body.head) + entries_bytes(body.entries.take(i as int)),
            decreases sessions@.len() - i,
        {
            match put_session_record(&mut payload, &sessions[i]) {
                Ok(()) => {},
                Err(error) => {
                    assert(!fields_fit(body.entries[i as int]));
                    return Err(error);
                },
            }
            proof {
                let more = body.entries.take(i as int + 1);
                assert(more.drop_last() =~= body.entries.take(i as int));
                assert(more.last() == body.entries[i as int]);
                assert(payload@ =~= fields_bytes(body.head) + entries_bytes(more));
            }
            i += 1;
        }
        assert(body.entries.take(sessions@.len() as int) =~= body.entries);
    } else {
        assert(payload@ =~= body_bytes(body));
    }
    Ok((kind, payload))
}

/// Whether a response of the given kind is made of single fields.
spec fn is_plain(kind: MessageKind) -> bool {
    response_layout(kind) is Some && response_layout(kind)->0.entry.len() == 0 && !is_record(kind)
}

/// Whether a response of the given kind carries one record.
spec fn is_record(kind: MessageKind) -> bool {
    match kind {
        MessageKind::DaemonInfoResponse => true,
        MessageKind::CreateSessionResponse => true,
        MessageKind::WorktreeResponse => true,
        MessageKind::DiffResponse => true,
        MessageKind::SessionResponse => true,
        MessageKind::EventResponse => true,
        _ => false,
    }
}

/// The types of the fields of a response of the given kind.
fn response_types(kind: MessageKind) -> (r: Vec<FieldType>)
    requires
        is_plain(kind),
    ensures
        r@ == response_layout(kind)->0.fields,
{
    let r: Vec<FieldType> = match kind {
        MessageKind::KillSessionResponse => vec![FieldType::Bool, FieldType::Bool],
        MessageKind::AttachedResponse => vec![FieldType::Bytes],
        MessageKind::SessionEndedResponse => vec![
            FieldType::Text,
            FieldType::Status,
            FieldType::OptionalI32,
            FieldType::OptionalText,
        ],
        MessageKind::LogChunkResponse => vec![FieldType::Text],
        MessageKind::PtyOutputResponse => vec![FieldType::Bytes],
        MessageKind::SwitchSessionResponse => vec![FieldType::Text],
        MessageKind::ErrorResponse => vec![FieldType::Text],
        _ => Vec::new(),
    };
    assert(r@ =~= response_layout(kind)->0.fields);
    r
}

/// The response of the given kind that is made of the given fields.
fn build_response(kind: MessageKind, fields: Vec<Field>) -> (r: Response)
    requires
        is_plain(kind),
        fields@.len() == response_layout(kind)->0.fields.len(),
        forall|i: int|
            0 <= i < fields@.len() ==> type_of(#[trigger] fields@[i]@) == response_layout(
                kind,
            )->0.fields[i],
    ensures
        response_kind(r) == kind,
        response_body(r) == plain(values_of(fields@)),
{
    let ghost values = values_of(fields@);
    let mut fields = fields;
    let r = match kind {
        MessageKind::KillSessionResponse => {
            let was_running: bool = pop_bool(&mut fields);
            let removed: bool = pop_bool(&mut fields);
            Response::KillSession { removed, was_running }
        },
        MessageKind::AttachedResponse => {
            let snapshot: Vec<u8> = pop_bytes(&mut fields);
            Response::Attached { snapshot }
        },
        MessageKind::SessionEndedResponse => {
            let error: Option<String> = pop_optional_text(&mut fields);
            let exit_code: Option<i32> = pop_optional_i32(&mut fields);
            let status: WireStatus = pop_status(&mut fields);
            let session_id: String = pop_text(&mut fields);
            Response::SessionEnded { session_id, status, exit_code, error }
        },
        MessageKind::InputAcceptedResponse => Response::InputAccepted,
        MessageKind::LogChunkResponse => {
            let data: String = pop_text(&mut fields);
            Response::LogChunk { data }
        },
        MessageKind::PtyOutputResponse => {
            let data: Vec<u8> = pop_bytes(&mut fields);
            Response::PtyOutput { data }
        },
        MessageKind::SwitchSessionResponse => {
            let session_id: String = pop_text(&mut fields);
            Response::SwitchSession { session_id }
        },
        MessageKind::EndOfStreamResponse => Response::EndOfStream,
        MessageKind::ErrorResponse => {
            let message: String = pop_text(&mut fields);
            Response::Error { message }
        },
        MessageKind::OkResponse => Response::Done,
        _ => vstd::pervasive::unreached(),
    };
    assert(response_body(r).head =~= values);
    r
}

/// A response of the given kind, which carries one record.
fn take_record<'a>(kind: MessageKind, cursor: &mut Cursor<'a>) -> (r: Result<Response, WireError>)
    requires
        is_record(kind),
        old(cursor).wf(),
    ensures
        final(cursor).wf(),
        final(cursor).bytes() == old(cursor).bytes(),
        match parse_fields(response_layout(kind)->0.fields, old(cursor).bytes(), old(cursor).at()) {
            Ok((values, next)) => r is Ok && response_kind(r->Ok_0) == kind && response_body(r->Ok_0)
                == plain(values) && final(cursor).at() == next,
            Err(fault) => r is Err && r->Err_0@ == fault,
        },
{
    match kind {
        MessageKind::DaemonInfoResponse => match cursor.take_daemon_info() {
            Ok(info) => Ok(Response::DaemonInfo { info }),
            Err(error) => Err(error),
        },
        MessageKind::CreateSessionResponse => match cursor.take_create_session_result() {
            Ok(session) => Ok(Response::CreateSession { session }),
            Err(error) => Err(error),
        },
        MessageKind::WorktreeResponse => match cursor.take_worktree_record() {
            Ok(worktree) => Ok(Response::Worktree { worktree }),
            Err(error) => Err(error),
        },
        MessageKind::DiffResponse => match cursor.take_session_diff() {
            Ok(diff) => Ok(Response::Diff { diff }),
            Err(error) => Err(error),
        },
        MessageKind::SessionResponse => match cursor.take_session_record() {
            Ok(session) => Ok(Response::Session { session }),
            Err(error) => Err(error),
        },
        MessageKind::EventResponse => match cursor.take_session_event() {
            Ok(event) => Ok(Response::Event { event }),
            Err(error) => Err(error),
        },
        _ => vstd::pervasive::unreached(),
    }
}

/// A response that carries a list.
fn take_list<'a>(cursor: &mut Cursor<'a>) -> (r: Result<Response, WireError>)
    requires
        old(cursor).wf(),
        old(cursor).at() == 0,
    ensures
        final(cursor).wf(),
        final(cursor).bytes() == old(cursor).bytes(),
        ({
            let layout = response_layout(MessageKind::SessionsResponse)->0;
            match parse_fields(layout.fields, old(cursor).bytes(), 0) {
                Ok((head, at)) => match parse_entries(
                    layout.entry,
                    entry_count(layout, head),
                    old(cursor).bytes(),
                    at,
                ) {
                    Ok((entries, end)) => r is Ok && response_kind(r->Ok_0)
                        == MessageKind::SessionsResponse && response_body(r->Ok_0) == (Body {
                        head,
                        entries,
                    }) && final(cursor).at() == end,
                    Err(fault) => r is Err && r->Err_0@ == fault,
                },
                Err(fault) => r is Err && r->Err_0@ == fault,
            }
        }),
{
    let types: Vec<FieldType> = vec![FieldType::Length];
    let ghost layout = response_layout(MessageKind::SessionsResponse)->0;
    assert(types@ =~= layout.fields);
    let mut fields = match cursor.take_fields(&types) {
        Ok(fields) => fields,
        Err(error) => {
            return Err(error);
        },
    };
    let ghost head = values_of(fields@);
    let ghost at = cursor.at();
    let len: usize = pop_length(&mut fields);
    assert(entry_count(layout, head) == len);
    match take_sessions(cursor, len) {
        Ok(sessions) => {
            let r = Response::Sessions { sessions };
            assert(response_body(r).head =~= head);
            assert(response_body(r).entries =~= parse_entries(
                layout.entry,
                len as nat,
                old(cursor).bytes(),
                at,
            )->Ok_0.0);
            Ok(r)
        },
        Err(error) => Err(error),
    }
}

/// The response of the given kind in a payload.
pub fn decode_response(kind: MessageKind, payload: &[u8]) -> (r: Result<Response, WireError>)
    ensures
        match parse_response(kind, payload@) {
            Ok(body) => r is Ok && response_kind(r->Ok_0) == kind && response_body(r->Ok_0) == body,
            Err(fault) => r is Err && r->Err_0@ == fault,
        },
{
    let mut cursor = Cursor::new(payload);
    let response = match kind {
        MessageKind::SessionsResponse => match take_list(&mut cursor) {
            Ok(response) => response,
            Err(error) => {
                return Err(error);
            },
        },
        MessageKind::DaemonInfoResponse
        | MessageKind::CreateSessionResponse
        | MessageKind::WorktreeResponse
        | MessageKind::DiffResponse
        | MessageKind::SessionResponse
        | MessageKind::EventResponse => match take_record(kind, &mut cursor) {
            Ok(response) => response,
            Err(error) => {
                return Err(error);
            },
        },
        MessageKind::KillSessionResponse
        | MessageKind::AttachedResponse
        | MessageKind::SessionEndedResponse
        | MessageKind::InputAcceptedResponse
        | MessageKind::LogChunkResponse
        | MessageKind::PtyOutputResponse
        | MessageKind::SwitchSessionResponse
        | MessageKind::EndOfStreamResponse
        | MessageKind::ErrorResponse
        | MessageKind::OkResponse => match cursor.take_fields(
            &response_types(kind),
        ) {
            Ok(fields) => build_response(kind, fields),
            Err(error) => {
                return Err(error);
            },
        },
        other => {
            return Err(WireError::RequestKind(other));
        },
    };
    match cursor.finish() {
        Ok(()) => Ok(response),
        Err(error) => Err(error),
    }
}

/// A number of entries.
fn take_sessions<'a>(cursor: &mut Cursor<'a>, len: usize) -> (r: Result<Vec<WireSession>, WireError>)
    requires
        old(cursor).wf(),
    ensures
        final(cursor).wf(),
        final(cursor).bytes() == old(cursor).bytes(),
        match parse_entries(session_record_layout(), len as nat, old(cursor).bytes(), old(cursor).at()) {
            Ok((entries, next)) => r is Ok && entries == Seq::new(
                r->Ok_0@.len(),
                |i: int| session_record_fields(r->Ok_0@[i]),
            ) && r->Ok_0@.len() == len && final(cursor).at() == next,
            Err(fault) => r is Err && r->Err_0@ == fault,
        },
{
    let ghost b = cursor.bytes();
    let ghost start = cursor.at();
    let mut sessions: Vec<WireSession> = Vec::new();
    let mut i: usize = 0;
    assert(Seq::new(sessions@.len(), |j: int| session_record_fields(sessions@[j])) =~= Seq::empty());
    while i < len
        invariant
            i <= len,
            sessions@.len() == i,
            cursor.wf(),
            cursor.bytes() == b,
            old(cursor).bytes() == b,
            old(cursor).at() == start,
            parse_entries(session_record_layout(), i as nat, b, start) == Ok::<
                (Seq<Seq<FieldValue>>, int),
                WireFault,
            >((Seq::new(sessions@.len(), |j: int| session_record_fields(sessions@[j])), cursor.at())),
        decreases len - i,
    {
        let ghost before = sessions@;
        match cursor.take_session_record() {
            Ok(entry) => {
                sessions.push(entry);
                assert(Seq::new(sessions@.len(), |j: int| session_record_fields(sessions@[j])) =~= Seq::new(
                    before.len(),
                    |j: int| session_record_fields(before[j]),
                ).push(session_record_fields(entry)));
            },
            Err(error) => {
                proof {
                    entries_stop_early(session_record_layout(), i as nat + 1, len as nat, b, start);
                }
                return Err(error);
            },
        }
        i += 1;
    }
    Ok(sessions)
}

} // verus!
