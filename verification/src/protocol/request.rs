//! What a client asks of the daemon.
use crate::protocol::body::{
    body_bytes, body_fits, body_is_canonical, body_round_trip, body_valid, entries_bytes,
    entries_stop_early, entry_count, fields_bytes, fields_fit, follows, items_values, parse_body,
    parse_entries,
    plain, put_items, types_of, values_of, Body, Layout,
};
use crate::protocol::cursor::{parse_fields, Cursor};
use crate::protocol::error::{WireError, WireFault};
use crate::protocol::field::{type_of, Field, FieldType, FieldValue, Item};
use crate::protocol::kind::MessageKind;
use crate::protocol::record::{
    new_session_event_fields, new_session_event_follows_layout, new_session_event_layout, pop_bool,
    pop_bytes, pop_length, pop_optional_text, pop_text, put_new_session_event, NewSessionEvent,
};
use crate::text::{opt_str, opt_view};
use vstd::prelude::*;

verus! {

/// What a client asks of the daemon.
#[derive(Debug, PartialEq)]
#[allow(inconsistent_fields)]
pub enum Request {
    /// Asks which daemon answers.
    GetDaemonInfo,
    /// Asks the daemon to end.
    ShutdownDaemon,
    /// Asks for a new session.
    CreateSession { workspace: String, task: String, agent: String },
    /// Asks for the worktree of a session.
    CreateWorktree { session_id: String },
    /// Asks that the worktree of a session be removed.
    CleanupWorktree { session_id: String },
    /// Asks that a session be stopped, and removed if so asked.
    KillSession { session_id: String, remove: bool },
    /// Asks to be attached to a session.
    AttachSession { session_id: String },
    /// Asks that the clients of a session be detached.
    DetachSession { session_id: String },
    /// Input for the session that the client is attached to.
    AttachInput { data: Vec<u8> },
    /// Input for a session.
    SendInput { session_id: String, data: Vec<u8>, source_session_id: Option<String> },
    /// Asks that the clients of one session be attached to another.
    SwitchAttachedSession { source_session_id: String, target_session_id: String },
    /// Asks for the changes of a session.
    DiffSession { session_id: String },
    /// Asks for a session.
    GetSession { session_id: String },
    /// Asks for all sessions.
    ListSessions,
    /// Records what happened in a session.
    AppendSessionEvents { session_id: String, events: Vec<NewSessionEvent> },
    /// Asks for the log of a session.
    StreamLogs { session_id: String, follow: bool },
    /// Asks for what happened in a session.
    StreamEvents { session_id: String, follow: bool },
}

/// The kind of a request.
pub open spec fn request_kind(request: Request) -> MessageKind {
    match request {
        Request::GetDaemonInfo => MessageKind::GetDaemonInfoRequest,
        Request::ShutdownDaemon => MessageKind::ShutdownDaemonRequest,
        Request::CreateSession { .. } => MessageKind::CreateSessionRequest,
        Request::CreateWorktree { .. } => MessageKind::CreateWorktreeRequest,
        Request::CleanupWorktree { .. } => MessageKind::CleanupWorktreeRequest,
        Request::KillSession { .. } => MessageKind::KillSessionRequest,
        Request::AttachSession { .. } => MessageKind::AttachSessionRequest,
        Request::DetachSession { .. } => MessageKind::DetachSessionRequest,
        Request::AttachInput { .. } => MessageKind::AttachInputRequest,
        Request::SendInput { .. } => MessageKind::SendInputRequest,
        Request::SwitchAttachedSession { .. } => MessageKind::SwitchAttachedSessionRequest,
        Request::DiffSession { .. } => MessageKind::DiffSessionRequest,
        Request::GetSession { .. } => MessageKind::GetSessionRequest,
        Request::ListSessions => MessageKind::ListSessionsRequest,
        Request::AppendSessionEvents { .. } => MessageKind::AppendSessionEventsRequest,
        Request::StreamLogs { .. } => MessageKind::StreamLogsRequest,
        Request::StreamEvents { .. } => MessageKind::StreamEventsRequest,
    }
}

/// What the payload of a request holds.
pub open spec fn request_body(request: Request) -> Body {
    match request {
        Request::GetDaemonInfo => plain(Seq::empty()),
        Request::ShutdownDaemon => plain(Seq::empty()),
        Request::CreateSession { workspace, task, agent } => plain(
            seq![FieldValue::Text(workspace@), FieldValue::Text(task@), FieldValue::Text(agent@)],
        ),
        Request::CreateWorktree { session_id } => plain(seq![FieldValue::Text(session_id@)]),
        Request::CleanupWorktree { session_id } => plain(seq![FieldValue::Text(session_id@)]),
        Request::KillSession { session_id, remove } => plain(
            seq![FieldValue::Text(session_id@), FieldValue::Bool(remove)],
        ),
        Request::AttachSession { session_id } => plain(seq![FieldValue::Text(session_id@)]),
        Request::DetachSession { session_id } => plain(seq![FieldValue::Text(session_id@)]),
        Request::AttachInput { data } => plain(seq![FieldValue::Bytes(data@)]),
        Request::SendInput { session_id, data, source_session_id } => plain(
            seq![
                FieldValue::Text(session_id@),
                FieldValue::Bytes(data@),
                FieldValue::OptionalText(opt_view(source_session_id)),
            ],
        ),
        Request::SwitchAttachedSession { source_session_id, target_session_id } => plain(
            seq![FieldValue::Text(source_session_id@), FieldValue::Text(target_session_id@)],
        ),
        Request::DiffSession { session_id } => plain(seq![FieldValue::Text(session_id@)]),
        Request::GetSession { session_id } => plain(seq![FieldValue::Text(session_id@)]),
        Request::ListSessions => plain(Seq::empty()),
        Request::AppendSessionEvents { session_id, events } => Body {
            head: seq![FieldValue::Text(session_id@), FieldValue::Length(events@.len())],
            entries: Seq::new(events@.len(), |i: int| new_session_event_fields(events@[i])),
        },
        Request::StreamLogs { session_id, follow } => plain(
            seq![FieldValue::Text(session_id@), FieldValue::Bool(follow)],
        ),
        Request::StreamEvents { session_id, follow } => plain(
            seq![FieldValue::Text(session_id@), FieldValue::Bool(follow)],
        ),
    }
}

/// The layout of the payload of a request of the given kind; nothing where no request has that kind.
pub open spec fn request_layout(kind: MessageKind) -> Option<Layout> {
    match kind {
        MessageKind::GetDaemonInfoRequest => Some(
            Layout {
                fields: Seq::empty(),
                entry: Seq::empty(),
            },
        ),
        MessageKind::ShutdownDaemonRequest => Some(
            Layout {
                fields: Seq::empty(),
                entry: Seq::empty(),
            },
        ),
        MessageKind::CreateSessionRequest => Some(
            Layout {
                fields: seq![FieldType::Text, FieldType::Text, FieldType::Text],
                entry: Seq::empty(),
            },
        ),
        MessageKind::CreateWorktreeRequest => Some(
            Layout { fields: seq![FieldType::Text], entry: Seq::empty() },
        ),
        MessageKind::CleanupWorktreeRequest => Some(
            Layout { fields: seq![FieldType::Text], entry: Seq::empty() },
        ),
        MessageKind::KillSessionRequest => Some(
            Layout { fields: seq![FieldType::Text, FieldType::Bool], entry: Seq::empty() },
        ),
        MessageKind::AttachSessionRequest => Some(
            Layout { fields: seq![FieldType::Text], entry: Seq::empty() },
        ),
        MessageKind::DetachSessionRequest => Some(
            Layout { fields: seq![FieldType::Text], entry: Seq::empty() },
        ),
        MessageKind::AttachInputRequest => Some(
            Layout { fields: seq![FieldType::Bytes], entry: Seq::empty() },
        ),
        MessageKind::SendInputRequest => Some(
            Layout {
                fields: seq![FieldType::Text, FieldType::Bytes, FieldType::OptionalText],
                entry: Seq::empty(),
            },
        ),
        MessageKind::SwitchAttachedSessionRequest => Some(
            Layout { fields: seq![FieldType::Text, FieldType::Text], entry: Seq::empty() },
        ),
        MessageKind::DiffSessionRequest => Some(
            Layout { fields: seq![FieldType::Text], entry: Seq::empty() },
        ),
        MessageKind::GetSessionRequest => Some(
            Layout { fields: seq![FieldType::Text], entry: Seq::empty() },
        ),
        MessageKind::ListSessionsRequest => Some(
            Layout {
                fields: Seq::empty(),
                entry: Seq::empty(),
            },
        ),
        MessageKind::AppendSessionEventsRequest => Some(
            Layout {
                fields: seq![FieldType::Text, FieldType::Length],
                entry: new_session_event_layout(),
            },
        ),
        MessageKind::StreamLogsRequest => Some(
            Layout { fields: seq![FieldType::Text, FieldType::Bool], entry: Seq::empty() },
        ),
        MessageKind::StreamEventsRequest => Some(
            Layout { fields: seq![FieldType::Text, FieldType::Bool], entry: Seq::empty() },
        ),
        _ => None,
    }
}

/// A request of the given kind, as a reader finds it in a payload.
pub open spec fn parse_request(kind: MessageKind, b: Seq<u8>) -> Result<Body, WireFault> {
    match request_layout(kind) {
        Some(layout) => parse_body(layout, b),
        None => Err(WireFault::ResponseKind(kind)),
    }
}

/// The payload of a request follows the layout of its kind.
pub proof fn request_follows_layout(request: Request)
    ensures
        request_layout(request_kind(request)) is Some,
        follows(request_body(request), request_layout(request_kind(request))->0),
{
    let body = request_body(request);
    let layout = request_layout(request_kind(request))->0;
    match request {
        Request::AppendSessionEvents { events, .. } => {
            assert forall|i: int| 0 <= i < body.entries.len() implies types_of(
                #[trigger] body.entries[i],
            ) == layout.entry by {
                new_session_event_follows_layout(events@[i]);
            }
        },
        _ => {},
    }
    assert(types_of(body.head) =~= layout.fields);
}

/// A request is read back as it was written.
pub proof fn request_round_trip(request: Request)
    requires
        body_fits(request_body(request)),
        body_valid(request_body(request)),
        body_bytes(request_body(request)).len() <= usize::MAX,
    ensures
        parse_request(request_kind(request), body_bytes(request_body(request))) == Ok::<Body, WireFault>(
            request_body(request),
        ),
{
    request_follows_layout(request);
    body_round_trip(request_layout(request_kind(request))->0, request_body(request));
}

/// Whatever is read as a request are the bytes that a writer writes for what was read.
pub proof fn request_is_canonical(kind: MessageKind, b: Seq<u8>)
    requires
        parse_request(kind, b) is Ok,
    ensures
        body_bytes(parse_request(kind, b)->Ok_0) == b,
        body_fits(parse_request(kind, b)->Ok_0),
        body_valid(parse_request(kind, b)->Ok_0),
{
    body_is_canonical(request_layout(kind)->0, b);
}

/// The kind and the payload of a request.
pub fn encode_request(request: &Request) -> (r: Result<(MessageKind, Vec<u8>), WireError>)
    ensures
        body_fits(request_body(*request)) ==> r is Ok && r->Ok_0.0 == request_kind(*request)
            && r->Ok_0.1@ == body_bytes(request_body(*request)),
        !body_fits(request_body(*request)) ==> r == Err::<(MessageKind, Vec<u8>), WireError>(
            WireError::LengthExceedsU32,
        ),
{
    let ghost body = request_body(*request);
    let mut payload: Vec<u8> = Vec::new();
    let none: Vec<Item> = Vec::new();
    assert(items_values(none@) =~= Seq::empty());
    let (kind, written): (MessageKind, Result<(), WireError>) = match request {
        Request::GetDaemonInfo => (MessageKind::GetDaemonInfoRequest, Ok(())),
        Request::ShutdownDaemon => (MessageKind::ShutdownDaemonRequest, Ok(())),
        Request::CreateSession { workspace, task, agent } => {
            let items = vec![
                Item::Text(workspace.as_str()),
                Item::Text(task.as_str()),
                Item::Text(agent.as_str()),
            ];
            assert(items_values(items@) =~= body.head);
            (MessageKind::CreateSessionRequest, put_items(&mut payload, &items))
        },
        Request::CreateWorktree { session_id } => {
            let items = vec![Item::Text(session_id.as_str())];
            assert(items_values(items@) =~= body.head);
            (MessageKind::CreateWorktreeRequest, put_items(&mut payload, &items))
        },
        Request::CleanupWorktree { session_id } => {
            let items = vec![Item::Text(session_id.as_str())];
            assert(items_values(items@) =~= body.head);
            (MessageKind::CleanupWorktreeRequest, put_items(&mut payload, &items))
        },
        Request::KillSession { session_id, remove } => {
            let items = vec![Item::Text(session_id.as_str()), Item::Bool(*remove)];
            assert(items_values(items@) =~= body.head);
            (MessageKind::KillSessionRequest, put_items(&mut payload, &items))
        },
        Request::AttachSession { session_id } => {
            let items = vec![Item::Text(session_id.as_str())];
            assert(items_values(items@) =~= body.head);
            (MessageKind::AttachSessionRequest, put_items(&mut payload, &items))
        },
        Request::DetachSession { session_id } => {
            let items = vec![Item::Text(session_id.as_str())];
            assert(items_values(items@) =~= body.head);
            (MessageKind::DetachSessionRequest, put_items(&mut payload, &items))
        },
        Request::AttachInput { data } => {
            let items = vec![Item::Bytes(data.as_slice())];
            assert(items_values(items@) =~= body.head);
            (MessageKind::AttachInputRequest, put_items(&mut payload, &items))
        },
        Request::SendInput { session_id, data, source_session_id } => {
            let items = vec![
                Item::Text(session_id.as_str()),
                Item::Bytes(data.as_slice()),
                Item::OptionalText(opt_str(source_session_id)),
            ];
            assert(items_values(items@) =~= body.head);
            (MessageKind::SendInputRequest, put_items(&mut payload, &items))
        },
        Request::SwitchAttachedSession { source_session_id, target_session_id } => {
            let items = vec![
                Item::Text(source_session_id.as_str()),
                Item::Text(target_session_id.as_str()),
            ];
            assert(items_values(items@) =~= body.head);
            (MessageKind::SwitchAttachedSessionRequest, put_items(&mut payload, &items))
        },
        Request::DiffSession { session_id } => {
            let items = vec![Item::Text(session_id.as_str())];
            assert(items_values(items@) =~= body.head);
            (MessageKind::DiffSessionRequest, put_items(&mut payload, &items))
        },
        Request::GetSession { session_id } => {
            let items = vec![Item::Text(session_id.as_str())];
            assert(items_values(items@) =~= body.head);
            (MessageKind::GetSessionRequest, put_items(&mut payload, &items))
        },
        Request::ListSessions => (MessageKind::ListSessionsRequest, Ok(())),
        Request::AppendSessionEvents { session_id, events } => {
            let items = vec![Item::Text(session_id.as_str()), Item::Length(events.len())];
            assert(items_values(items@) =~= body.head);
            (MessageKind::AppendSessionEventsRequest, put_items(&mut payload, &items))
        },
        Request::StreamLogs { session_id, follow } => {
            let items = vec![Item::Text(session_id.as_str()), Item::Bool(*follow)];
            assert(items_values(items@) =~= body.head);
            (MessageKind::StreamLogsRequest, put_items(&mut payload, &items))
        },
        Request::StreamEvents { session_id, follow } => {
            let items = vec![Item::Text(session_id.as_str()), Item::Bool(*follow)];
            assert(items_values(items@) =~= body.head);
            (MessageKind::StreamEventsRequest, put_items(&mut payload, &items))
        },
    };
    match written {
        Ok(()) => {},
        Err(error) => {
            return Err(error);
        },
    }
    assert(payload@ =~= fields_bytes(body.head));
    if let Request::AppendSessionEvents { events, .. } = request {
        let mut i: usize = 0;
        assert(body.entries.take(0) =~= Seq::empty());
        assert(payload@ =~= fields_bytes(body.head) + entries_bytes(body.entries.take(0)));
        while i < events.len()
            invariant
                i <= events@.len(),
                body == request_body(*request),
                *request matches Request::AppendSessionEvents { events: all, .. } && all == *events,
                fields_fit(body.head),
                forall|j: int| 0 <= j < i ==> fields_fit(#[trigger] body.entries[j]),
                payload@ == fields_bytes(body.head) + entries_bytes(body.entries.take(i as int)),
            decreases events@.len() - i,
        {
            match put_new_session_event(&mut payload, &events[i]) {
                Ok(()) => {},
                Err(error) => {
                    assert(!fields_fit(body.entries[i as int]));
                    return Err(error);
                },
            }
            proof {
                let more = body.entries.take(i as int + 1);
                assert(more.drop_last() =~= body.entries.take(i as int));
                assert(more.last() == body.entries[i as int]);
                assert(payload@ =~= fields_bytes(body.head) + entries_bytes(more));
            }
            i += 1;
        }
        assert(body.entries.take(events@.len() as int) =~= body.entries);
    } else {
        assert(payload@ =~= body_bytes(body));
    }
    Ok((kind, payload))
}

/// Whether a request of the given kind is made of single fields.
spec fn is_plain(kind: MessageKind) -> bool {
    request_layout(kind) is Some && request_layout(kind)->0.entry.len() == 0
}

/// The types of the fields of a request of the given kind.
fn request_types(kind: MessageKind) -> (r: Vec<FieldType>)
    requires
        is_plain(kind),
    ensures
        r@ == request_layout(kind)->0.fields,
{
    let r: Vec<FieldType> = match kind {
        MessageKind::CreateSessionRequest => vec![
            FieldType::Text,
            FieldType::Text,
            FieldType::Text,
        ],
        MessageKind::CreateWorktreeRequest => vec![FieldType::Text],
        MessageKind::CleanupWorktreeRequest => vec![FieldType::Text],
        MessageKind::KillSessionRequest => vec![FieldType::Text, FieldType::Bool],
        MessageKind::AttachSessionRequest => vec![FieldType::Text],
        MessageKind::DetachSessionRequest => vec![FieldType::Text],
        MessageKind::AttachInputRequest => vec![FieldType::Bytes],
        MessageKind::SendInputRequest => vec![
            FieldType::Text,
            FieldType::Bytes,
            FieldType::OptionalText,
        ],
        MessageKind::SwitchAttachedSessionRequest => vec![FieldType::Text, FieldType::Text],
        MessageKind::DiffSessionRequest => vec![FieldType::Text],
        MessageKind::GetSessionRequest => vec![FieldType::Text],
        MessageKind::StreamLogsRequest => vec![FieldType::Text, FieldType::Bool],
        MessageKind::StreamEventsRequest => vec![FieldType::Text, FieldType::Bool],
        _ => Vec::new(),
    };
    assert(r@ =~= request_layout(kind)->0.fields);
    r
}

/// The request of the given kind that is made of the given fields.
fn build_request(kind: MessageKind, fields: Vec<Field>) -> (r: Request)
    requires
        is_plain(kind),
        fields@.len() == request_layout(kind)->0.fields.len(),
        forall|i: int|
            0 <= i < fields@.len() ==> type_of(#[trigger] fields@[i]@) == request_layout(
                kind,
            )->0.fields[i],
    ensures
        request_kind(r) == kind,
        request_body(r) == plain(values_of(fields@)),
{
    let ghost values = values_of(fields@);
    let mut fields = fields;
    let r = match kind {
        MessageKind::GetDaemonInfoRequest => Request::GetDaemonInfo,
        MessageKind::ShutdownDaemonRequest => Request::ShutdownDaemon,
        MessageKind::CreateSessionRequest => {
            let agent: String = pop_text(&mut fields);
            let task: String = pop_text(&mut fields);
            let workspace: String = pop_text(&mut fields);
            Request::CreateSession { workspace, task, agent }
        },
        MessageKind::CreateWorktreeRequest => {
            let session_id: String = pop_text(&mut fields);
            Request::CreateWorktree { session_id }
        },
        MessageKind::CleanupWorktreeRequest => {
            let session_id: String = pop_text(&mut fields);
            Request::CleanupWorktree { session_id }
        },
        MessageKind::KillSessionRequest => {
            let remove: bool = pop_bool(&mut fields);
            let session_id: String = pop_text(&mut fields);
            Request::KillSession { session_id, remove }
        },
        MessageKind::AttachSessionRequest => {
            let session_id: String = pop_text(&mut fields);
            Request::AttachSession { session_id }
        },
        MessageKind::DetachSessionRequest => {
            let session_id: String = pop_text(&mut fields);
            Request::DetachSession { session_id }
        },
        MessageKind::AttachInputRequest => {
            let data: Vec<u8> = pop_bytes(&mut fields);
            Request::AttachInput { data }
        },
        MessageKind::SendInputRequest => {
            let source_session_id: Option<String> = pop_optional_text(&mut fields);
            let data: Vec<u8> = pop_bytes(&mut fields);
            let session_id: String = pop_text(&mut fields);
            Request::SendInput { session_id, data, source_session_id }
        },
        MessageKind::SwitchAttachedSessionRequest => {
            let target_session_id: String = pop_text(&mut fields);
            let source_session_id: String = pop_text(&mut fields);
            Request::SwitchAttachedSession { source_session_id, target_session_id }
        },
        MessageKind::DiffSessionRequest => {
            let session_id: String = pop_text(&mut fields);
            Request::DiffSession { session_id }
        },
        MessageKind::GetSessionRequest => {
            let session_id: String = pop_text(&mut fields);
            Request::GetSession { session_id }
        },
        MessageKind::ListSessionsRequest => Request::ListSessions,
        MessageKind::StreamLogsRequest => {
            let follow: bool = pop_bool(&mut fields);
            let session_id: String = pop_text(&mut fields);
            Request::StreamLogs { session_id, follow }
        },
        MessageKind::StreamEventsRequest => {
            let follow: bool = pop_bool(&mut fields);
            let session_id: String = pop_text(&mut fields);
            Request::StreamEvents { session_id, follow }
        },
        _ => vstd::pervasive::unreached(),
    };
    assert(request_body(r).head =~= values);
    r
}

/// A request that carries a list.
fn take_list<'a>(cursor: &mut Cursor<'a>) -> (r: Result<Request, WireError>)
    requires
        old(cursor).wf(),
        old(cursor).at() == 0,
    ensures
        final(cursor).wf(),
        final(cursor).bytes() == old(cursor).bytes(),
        ({
            let layout = request_layout(MessageKind::AppendSessionEventsRequest)->0;
            match parse_fields(layout.fields, old(cursor).bytes(), 0) {
                Ok((head, at)) => match parse_entries(
                    layout.entry,
                    entry_count(layout, head),
                    old(cursor).bytes(),
                    at,
                ) {
                    Ok((entries, end)) => r is Ok && request_kind(r->Ok_0)
                        == MessageKind::AppendSessionEventsRequest && request_body(r->Ok_0) == (Body {
                        head,
                        entries,
                    }) && final(cursor).at() == end,
                    Err(fault) => r is Err && r->Err_0@ == fault,
                },
                Err(fault) => r is Err && r->Err_0@ == fault,
            }
        }),
{
    let types: Vec<FieldType> = vec![FieldType::Text, FieldType::Length];
    let ghost layout = request_layout(MessageKind::AppendSessionEventsRequest)->0;
    assert(types@ =~= layout.fields);
    let mut fields = match cursor.take_fields(&types) {
        Ok(fields) => fields,
        Err(error) => {
            return Err(error);
        },
    };
    let ghost head = values_of(fields@);
    let ghost at = cursor.at();
    let len: usize = pop_length(&mut fields);
    let session_id: String = pop_text(&mut fields);
    assert(entry_count(layout, head) == len);
    match take_events(cursor, len) {
        Ok(events) => {
            let r = Request::AppendSessionEvents { session_id, events };
            assert(request_body(r).head =~= head);
            assert(request_body(r).entries =~= parse_entries(
                layout.entry,
                len as nat,
                old(cursor).bytes(),
                at,
            )->Ok_0.0);
            Ok(r)
        },
        Err(error) => Err(error),
    }
}

/// The request of the given kind in a payload.
pub fn decode_request(kind: MessageKind, payload: &[u8]) -> (r: Result<Request, WireError>)
    ensures
        match parse_request(kind, payload@) {
            Ok(body) => r is Ok && request_kind(r->Ok_0) == kind && request_body(r->Ok_0) == body,
            Err(fault) => r is Err && r->Err_0@ == fault,
        },
{
    let mut cursor = Cursor::new(payload);
    let request = match kind {
        MessageKind::AppendSessionEventsRequest => match take_list(&mut cursor) {
            Ok(request) => request,
            Err(error) => {
                return Err(error);
            },
        },
        MessageKind::GetDaemonInfoRequest
        | MessageKind::ShutdownDaemonRequest
        | MessageKind::CreateSessionRequest
        | MessageKind::CreateWorktreeRequest
        | MessageKind::CleanupWorktreeRequest
        | MessageKind::KillSessionRequest
        | MessageKind::AttachSessionRequest
        | MessageKind::DetachSessionRequest
        | MessageKind::AttachInputRequest
        | MessageKind::SendInputRequest
        | MessageKind::SwitchAttachedSessionRequest
        | MessageKind::DiffSessionRequest
        | MessageKind::GetSessionRequest
        | MessageKind::ListSessionsRequest
        | MessageKind::StreamLogsRequest
        | MessageKind::StreamEventsRequest => match cursor.take_fields(
            &request_types(kind),
        ) {
            Ok(fields) => build_request(kind, fields),
            Err(error) => {
                return Err(error);
            },
        },
        other => {
            return Err(WireError::ResponseKind(other));
        },
    };
    match cursor.finish() {
        Ok(()) => Ok(request),
        Err(error) => Err(error),
    }
}

/// A number of entries.
fn take_events<'a>(cursor: &mut Cursor<'a>, len: usize) -> (r: Result<Vec<NewSessionEvent>, WireError>)
    requires
        old(cursor).wf(),
    ensures
        final(cursor).wf(),
        final(cursor).bytes() == old(cursor).bytes(),
        match parse_entries(new_session_event_layout(), len as nat, old(cursor).bytes(), old(cursor).at()) {
            Ok((entries, next)) => r is Ok && entries == Seq::new(
                r->Ok_0@.len(),
                |i: int| new_session_event_fields(r->Ok_0@[i]),
            ) && r->Ok_0@.len() == len && final(cursor).at() == next,
            Err(fault) => r is Err && r->Err_0@ == fault,
        },
{
    let ghost b = cursor.bytes();
    let ghost start = cursor.at();
    let mut events: Vec<NewSessionEvent> = Vec::new();
    let mut i: usize = 0;
    assert(Seq::new(events@.len(), |j: int| new_session_event_fields(events@[j])) =~= Seq::empty());
    while i < len
        invariant
            i <= len,
            events@.len() == i,
            cursor.wf(),
            cursor.bytes() == b,
            old(cursor).bytes() == b,
            old(cursor).at() == start,
            parse_entries(new_session_event_layout(), i as nat, b, start) == Ok::<
                (Seq<Seq<FieldValue>>, int),
                WireFault,
            >((Seq::new(events@.len(), |j: int| new_session_event_fields(events@[j])), cursor.at())),
        decreases len - i,
    {
        let ghost before = events@;
        match cursor.take_new_session_event() {
            Ok(entry) => {
                events.push(entry);
                assert(Seq::new(events@.len(), |j: int| new_session_event_fields(events@[j])) =~= Seq::new(
                    before.len(),
                    |j: int| new_session_event_fields(before[j]),
                ).push(new_session_event_fields(entry)));
            },
            Err(error) => {
                proof {
                    entries_stop_early(new_session_event_layout(), i as nat + 1, len as nat, b, start);
                }
                return Err(error);
            },
        }
        i += 1;
    }
    Ok(events)
}

} // verus!
