//! The records that messages carry.
use crate::protocol::body::{
    fields_bytes, fields_fit, items_values, put_items, types_of, values_of,
};
use crate::protocol::cursor::{parse_fields, Cursor};
use crate::protocol::error::WireError;
use crate::protocol::field::{type_of, Field, FieldType, FieldValue, Item, WireStatus};
use crate::session::{SessionDiff, WorktreeRecord};
use crate::text::{opt_str, opt_view};
use crate::time::Timestamp;
use vstd::prelude::*;

verus! {

/// Which daemon answers, and which protocol it speaks.
#[derive(Debug, PartialEq)]
pub struct DaemonInfo {
    pub daemon_version: String,
    pub protocol_version: u16,
}

/// What the creation of a session came to, as far as the protocol tells it.
#[derive(Debug, PartialEq)]
pub struct WireCreateResult {
    pub session_id: String,
    pub base_branch: String,
    pub branch: String,
    pub worktree: String,
    pub status: WireStatus,
}

/// What is known of a session, as far as the protocol tells it.
#[derive(Debug, PartialEq)]
pub struct WireSession {
    pub session_id: String,
    pub agent: String,
    pub workspace: String,
    pub repo_path: String,
    pub task: String,
    pub base_branch: String,
    pub branch: String,
    pub worktree: String,
    pub status: WireStatus,
    pub pid: Option<u32>,
    pub exit_code: Option<i32>,
    pub error: Option<String>,
    pub created_at: Timestamp,
    pub updated_at: Timestamp,
    pub exited_at: Option<Timestamp>,
}

/// Something that happened in a session. Its payload is a JSON text.
#[derive(Debug, PartialEq)]
pub struct SessionEvent {
    pub id: i64,
    pub session_id: String,
    pub timestamp: Timestamp,
    pub event_type: String,
    pub payload_json: String,
}

/// Something that happened in a session and is not yet recorded. Its payload is a JSON text.
#[derive(Debug, PartialEq)]
pub struct NewSessionEvent {
    pub event_type: String,
    pub payload_json: String,
}

/// The fields of a [`DaemonInfo`].
pub open spec fn daemon_info_fields(value: DaemonInfo) -> Seq<FieldValue> {
    seq![
        FieldValue::Text(value.daemon_version@),
        FieldValue::U16(value.protocol_version),
    ]
}

/// The types of the fields of a [`DaemonInfo`].
pub open spec fn daemon_info_layout() -> Seq<FieldType> {
    seq![
        FieldType::Text,
        FieldType::U16,
    ]
}

/// The fields of a [`DaemonInfo`] have the types that its layout says.
pub proof fn daemon_info_follows_layout(value: DaemonInfo)
    ensures
        types_of(daemon_info_fields(value)) == daemon_info_layout(),
{
    assert(types_of(daemon_info_fields(value)) =~= daemon_info_layout());
}

/// Writes a [`DaemonInfo`].
pub fn put_daemon_info(buf: &mut Vec<u8>, value: &DaemonInfo) -> (r: Result<(), WireError>)
    ensures
        fields_fit(daemon_info_fields(*value)) ==> r is Ok && final(buf)@ == old(buf)@ + fields_bytes(
            daemon_info_fields(*value),
        ),
        !fields_fit(daemon_info_fields(*value)) ==> r == Err::<(), WireError>(
            WireError::LengthExceedsU32,
        ),
{
    let items = vec![
        Item::Text(value.daemon_version.as_str()),
        Item::U16(value.protocol_version),
    ];
    assert(items_values(items@) =~= daemon_info_fields(*value));
    put_items(buf, &items)
}

/// The fields of a [`WireCreateResult`].
pub open spec fn create_session_result_fields(value: WireCreateResult) -> Seq<FieldValue> {
    seq![
        FieldValue::Text(value.session_id@),
        FieldValue::Text(value.base_branch@),
        FieldValue::Text(value.branch@),
        FieldValue::Text(value.worktree@),
        FieldValue::Status(value.status),
    ]
}

/// The types of the fields of a [`WireCreateResult`].
pub open spec fn create_session_result_layout() -> Seq<FieldType> {
    seq![
        FieldType::Text,
        FieldType::Text,
        FieldType::Text,
        FieldType::Text,
        FieldType::Status,
    ]
}

/// The fields of a [`WireCreateResult`] have the types that its layout says.
pub proof fn create_session_result_follows_layout(value: WireCreateResult)
    ensures
        types_of(create_session_result_fields(value)) == create_session_result_layout(),
{
    assert(types_of(create_session_result_fields(value)) =~= create_session_result_layout());
}

/// Writes a [`WireCreateResult`].
pub fn put_create_session_result(buf: &mut Vec<u8>, value: &WireCreateResult) -> (r: Result<(), WireError>)
    ensures
        fields_fit(create_session_result_fields(*value)) ==> r is Ok && final(buf)@ == old(buf)@ + fields_bytes(
            create_session_result_fields(*value),
        ),
        !fields_fit(create_session_result_fields(*value)) ==> r == Err::<(), WireError>(
            WireError::LengthExceedsU32,
        ),
{
    let items = vec![
        Item::Text(value.session_id.as_str()),
        Item::Text(value.base_branch.as_str()),
        Item::Text(value.branch.as_str()),
        Item::Text(value.worktree.as_str()),
        Item::Status(value.status),
    ];
    assert(items_values(items@) =~= create_session_result_fields(*value));
    put_items(buf, &items)
}

/// The fields of a [`WorktreeRecord`].
pub open spec fn worktree_record_fields(value: WorktreeRecord) -> Seq<FieldValue> {
    seq![
        FieldValue::Text(value.session_id@),
        FieldValue::Text(value.repo_path@),
        FieldValue::Text(value.base_branch@),
        FieldValue::Text(value.branch@),
        FieldValue::Text(value.worktree@),
    ]
}

/// The types of the fields of a [`WorktreeRecord`].
pub open spec fn worktree_record_layout() -> Seq<FieldType> {
    seq![
        FieldType::Text,
        FieldType::Text,
        FieldType::Text,
        FieldType::Text,
        FieldType::Text,
    ]
}

/// The fields of a [`WorktreeRecord`] have the types that its layout says.
pub proof fn worktree_record_follows_layout(value: WorktreeRecord)
    ensures
        types_of(worktree_record_fields(value)) == worktree_record_layout(),
{
    assert(types_of(worktree_record_fields(value)) =~= worktree_record_layout());
}

/// Writes a [`WorktreeRecord`].
pub fn put_worktree_record(buf: &mut Vec<u8>, value: &WorktreeRecord) -> (r: Result<(), WireError>)
    ensures
        fields_fit(worktree_record_fields(*value)) ==> r is Ok && final(buf)@ == old(buf)@ + fields_bytes(
            worktree_record_fields(*value),
        ),
        !fields_fit(worktree_record_fields(*value)) ==> r == Err::<(), WireError>(
            WireError::LengthExceedsU32,
        ),
{
    let items = vec![
        Item::Text(value.session_id.as_str()),
        Item::Text(value.repo_path.as_str()),
        Item::Text(value.base_branch.as_str()),
        Item::Text(value.branch.as_str()),
        Item::Text(value.worktree.as_str()),
    ];
    assert(items_values(items@) =~= worktree_record_fields(*value));
    put_items(buf, &items)
}

/// The fields of a [`SessionDiff`].
pub open spec fn session_diff_fields(value: SessionDiff) -> Seq<FieldValue> {
    seq![
        FieldValue::Text(value.session_id@),
        FieldValue::Text(value.base_branch@),
        FieldValue::Text(value.branch@),
        FieldValue::Text(value.worktree@),
        FieldValue::Text(value.diff@),
    ]
}

/// The types of the fields of a [`SessionDiff`].
pub open spec fn session_diff_layout() -> Seq<FieldType> {
    seq![
        FieldType::Text,
        FieldType::Text,
        FieldType::Text,
        FieldType::Text,
        FieldType::Text,
    ]
}

/// The fields of a [`SessionDiff`] have the types that its layout says.
pub proof fn session_diff_follows_layout(value: SessionDiff)
    ensures
        types_of(session_diff_fields(value)) == session_diff_layout(),
{
    assert(types_of(session_diff_fields(value)) =~= session_diff_layout());
}

/// Writes a [`SessionDiff`].
pub fn put_session_diff(buf: &mut Vec<u8>, value: &SessionDiff) -> (r: Result<(), WireError>)
    ensures
        fields_fit(session_diff_fields(*value)) ==> r is Ok && final(buf)@ == old(buf)@ + fields_bytes(
            session_diff_fields(*value),
        ),
        !fields_fit(session_diff_fields(*value)) ==> r == Err::<(), WireError>(
            WireError::LengthExceedsU32,
        ),
{
    let items = vec![
        Item::Text(value.session_id.as_str()),
        Item::Text(value.base_branch.as_str()),
        Item::Text(value.branch.as_str()),
        Item::Text(value.worktree.as_str()),
        Item::Text(value.diff.as_str()),
    ];
    assert(items_values(items@) =~= session_diff_fields(*value));
    put_items(buf, &items)
}

/// The fields of a [`WireSession`].
pub open spec fn session_record_fields(value: WireSession) -> Seq<FieldValue> {
    seq![
        FieldValue::Text(value.session_id@),
        FieldValue::Text(value.agent@),
        FieldValue::Text(value.workspace@),
        FieldValue::Text(value.repo_path@),
        FieldValue::Text(value.task@),
        FieldValue::Text(value.base_branch@),
        FieldValue::Text(value.branch@),
        FieldValue::Text(value.worktree@),
        FieldValue::Status(value.status),
        FieldValue::OptionalU32(value.pid),
        FieldValue::OptionalI32(value.exit_code),
        FieldValue::OptionalText(opt_view(value.error)),
        FieldValue::Time(value.created_at),
        FieldValue::Time(value.updated_at),
        FieldValue::OptionalTime(value.exited_at),
    ]
}

/// The types of the fields of a [`WireSession`].
pub open spec fn session_record_layout() -> Seq<FieldType> {
    seq![
        FieldType::Text,
        FieldType::Text,
        FieldType::Text,
        FieldType::Text,
        FieldType::Text,
        FieldType::Text,
        FieldType::Text,
        FieldType::Text,
        FieldType::Status,
        FieldType::OptionalU32,
        FieldType::OptionalI32,
        FieldType::OptionalText,
        FieldType::Time,
        FieldType::Time,
        FieldType::OptionalTime,
    ]
}

/// The fields of a [`WireSession`] have the types that its layout says.
pub proof fn session_record_follows_layout(value: WireSession)
    ensures
        types_of(session_record_fields(value)) == session_record_layout(),
{
    assert(types_of(session_record_fields(value)) =~= session_record_layout());
}

/// Writes a [`WireSession`].
pub fn put_session_record(buf: &mut Vec<u8>, value: &WireSession) -> (r: Result<(), WireError>)
    ensures
        fields_fit(session_record_fields(*value)) ==> r is Ok && final(buf)@ == old(buf)@ + fields_bytes(
            session_record_fields(*value),
        ),
        !fields_fit(session_record_fields(*value)) ==> r == Err::<(), WireError>(
            WireError::LengthExceedsU32,
        ),
{
    let items = vec![
        Item::Text(value.session_id.as_str()),
        Item::Text(value.agent.as_str()),
        Item::Text(value.workspace.as_str()),
        Item::Text(value.repo_path.as_str()),
        Item::Text(value.task.as_str()),
        Item::Text(value.base_branch.as_str()),
        Item::Text(value.branch.as_str()),
        Item::Text(value.worktree.as_str()),
        Item::Status(value.status),
        Item::OptionalU32(value.pid),
        Item::OptionalI32(value.exit_code),
        Item::OptionalText(opt_str(&value.error)),
        Item::Time(value.created_at),
        Item::Time(value.updated_at),
        Item::OptionalTime(value.exited_at),
    ];
    assert(items_values(items@) =~= session_record_fields(*value));
    put_items(buf, &items)
}

/// The fields of a [`SessionEvent`].
pub open spec fn session_event_fields(value: SessionEvent) -> Seq<FieldValue> {
    seq![
        FieldValue::I64(value.id),
        FieldValue::Text(value.session_id@),
        FieldValue::Time(value.timestamp),
        FieldValue::Text(value.event_type@),
        FieldValue::Json(value.payload_json@),
    ]
}

/// The types of the fields of a [`SessionEvent`].
pub open spec fn session_event_layout() -> Seq<FieldType> {
    seq![
        FieldType::I64,
        FieldType::Text,
        FieldType::Time,
        FieldType::Text,
        FieldType::Json,
    ]
}

/// The fields of a [`SessionEvent`] have the types that its layout says.
pub proof fn session_event_follows_layout(value: SessionEvent)
    ensures
        types_of(session_event_fields(value)) == session_event_layout(),
{
    assert(types_of(session_event_fields(value)) =~= session_event_layout());
}

/// Writes a [`SessionEvent`].
pub fn put_session_event(buf: &mut Vec<u8>, value: &SessionEvent) -> (r: Result<(), WireError>)
    ensures
        fields_fit(session_event_fields(*value)) ==> r is Ok && final(buf)@ == old(buf)@ + fields_bytes(
            session_event_fields(*value),
        ),
        !fields_fit(session_event_fields(*value)) ==> r == Err::<(), WireError>(
            WireError::LengthExceedsU32,
        ),
{
    let items = vec![
        Item::I64(value.id),
        Item::Text(value.session_id.as_str()),
        Item::Time(value.timestamp),
        Item::Text(value.event_type.as_str()),
        Item::Json(value.payload_json.as_str()),
    ];
    assert(items_values(items@) =~= session_event_fields(*value));
    put_items(buf, &items)
}

/// The fields of a [`NewSessionEvent`].
pub open spec fn new_session_event_fields(value: NewSessionEvent) -> Seq<FieldValue> {
    seq![
        FieldValue::Text(value.event_type@),
        FieldValue::Json(value.payload_json@),
    ]
}

/// The types of the fields of a [`NewSessionEvent`].
pub open spec fn new_session_event_layout() -> Seq<FieldType> {
    seq![
        FieldType::Text,
        FieldType::Json,
    ]
}

/// The fields of a [`NewSessionEvent`] have the types that its layout says.
pub proof fn new_session_event_follows_layout(value: NewSessionEvent)
    ensures
        types_of(new_session_event_fields(value)) == new_session_event_layout(),
{
    assert(types_of(new_session_event_fields(value)) =~= new_session_event_layout());
}

/// Writes a [`NewSessionEvent`].
pub fn put_new_session_event(buf: &mut Vec<u8>, value: &NewSessionEvent) -> (r: Result<(), WireError>)
    ensures
        fields_fit(new_session_event_fields(*value)) ==> r is Ok && final(buf)@ == old(buf)@ + fields_bytes(
            new_session_event_fields(*value),
        ),
        !fields_fit(new_session_event_fields(*value)) ==> r == Err::<(), WireError>(
            WireError::LengthExceedsU32,
        ),
{
    let items = vec![
        Item::Text(value.event_type.as_str()),
        Item::Json(value.payload_json.as_str()),
    ];
    assert(items_values(items@) =~= new_session_event_fields(*value));
    put_items(buf, &items)
}

impl<'a> Cursor<'a> {
    /// A [`DaemonInfo`].
    pub fn take_daemon_info(&mut self) -> (r: Result<DaemonInfo, WireError>)
        requires
            old(self).wf(),
        ensures
            final(self).wf(),
            final(self).bytes() == old(self).bytes(),
            match parse_fields(daemon_info_layout(), old(self).bytes(), old(self).at()) {
                Ok((values, next)) => r is Ok && daemon_info_fields(r->Ok_0) == values
                    && final(self).at() == next,
                Err(fault) => r is Err && r->Err_0@ == fault,
            },
    {
        let layout = vec![
            FieldType::Text,
            FieldType::U16,
        ];
        assert(layout@ =~= daemon_info_layout());
        let mut fields = match self.take_fields(&layout) {
            Ok(fields) => fields,
            Err(error) => {
                return Err(error);
            },
        };
        let ghost values = values_of(fields@);
        let ghost all = fields@;
        let protocol_version: u16 = pop_u16(&mut fields);
        let daemon_version: String = pop_text(&mut fields);
        let value = DaemonInfo {
            daemon_version,
            protocol_version,
        };
        assert(daemon_info_fields(value) =~= values);
        Ok(value)
    }

    /// A [`WireCreateResult`].
    pub fn take_create_session_result(&mut self) -> (r: Result<WireCreateResult, WireError>)
        requires
            old(self).wf(),
        ensures
            final(self).wf(),
            final(self).bytes() == old(self).bytes(),
            match parse_fields(create_session_result_layout(), old(self).bytes(), old(self).at()) {
                Ok((values, next)) => r is Ok && create_session_result_fields(r->Ok_0) == values
                    && final(self).at() == next,
                Err(fault) => r is Err && r->Err_0@ == fault,
            },
    {
        let layout = vec![
            FieldType::Text,
            FieldType::Text,
            FieldType::Text,
            FieldType::Text,
            FieldType::Status,
        ];
        assert(layout@ =~= create_session_result_layout());
        let mut fields = match self.take_fields(&layout) {
            Ok(fields) => fields,
            Err(error) => {
                return Err(error);
            },
        };
        let ghost values = values_of(fields@);
        let ghost all = fields@;
        let status: WireStatus = pop_status(&mut fields);
        let worktree: String = pop_text(&mut fields);
        let branch: String = pop_text(&mut fields);
        let base_branch: String = pop_text(&mut fields);
        let session_id: String = pop_text(&mut fields);
        let value = WireCreateResult {
            session_id,
            base_branch,
            branch,
            worktree,
            status,
        };
        assert(create_session_result_fields(value) =~= values);
        Ok(value)
    }

    /// A [`WorktreeRecord`].
    pub fn take_worktree_record(&mut self) -> (r: Result<WorktreeRecord, WireError>)
        requires
            old(self).wf(),
        ensures
            final(self).wf(),
            final(self).bytes() == old(self).bytes(),
            match parse_fields(worktree_record_layout(), old(self).bytes(), old(self).at()) {
                Ok((values, next)) => r is Ok && worktree_record_fields(r->Ok_0) == values
                    && final(self).at() == next,
                Err(fault) => r is Err && r->Err_0@ == fault,
            },
    {
        let layout = vec![
            FieldType::Text,
            FieldType::Text,
            FieldType::Text,
            FieldType::Text,
            FieldType::Text,
        ];
        assert(layout@ =~= worktree_record_layout());
        let mut fields = match self.take_fields(&layout) {
            Ok(fields) => fields,
            Err(error) => {
                return Err(error);
            },
        };
        let ghost values = values_of(fields@);
        let ghost all = fields@;
        let worktree: String = pop_text(&mut fields);
        let branch: String = pop_text(&mut fields);
        let base_branch: String = pop_text(&mut fields);
        let repo_path: String = pop_text(&mut fields);
        let session_id: String = pop_text(&mut fields);
        let value = WorktreeRecord {
            session_id,
            repo_path,
            base_branch,
            branch,
            worktree,
        };
        assert(worktree_record_fields(value) =~= values);
        Ok(value)
    }

    /// A [`SessionDiff`].
    pub fn take_session_diff(&mut self) -> (r: Result<SessionDiff, WireError>)
        requires
            old(self).wf(),
        ensures
            final(self).wf(),
            final(self).bytes() == old(self).bytes(),
            match parse_fields(session_diff_layout(), old(self).bytes(), old(self).at()) {
                Ok((values, next)) => r is Ok && session_diff_fields(r->Ok_0) == values
                    && final(self).at() == next,
                Err(fault) => r is Err && r->Err_0@ == fault,
            },
    {
        let layout = vec![
            FieldType::Text,
            FieldType::Text,
            FieldType::Text,
            FieldType::Text,
            FieldType::Text,
        ];
        assert(layout@ =~= session_diff_layout());
        let mut fields = match self.take_fields(&layout) {
            Ok(fields) => fields,
            Err(error) => {
                return Err(error);
            },
        };
        let ghost values = values_of(fields@);
        let ghost all = fields@;
        let diff: String = pop_text(&mut fields);
        let worktree: String = pop_text(&mut fields);
        let branch: String = pop_text(&mut fields);
        let base_branch: String = pop_text(&mut fields);
        let session_id: String = pop_text(&mut fields);
        let value = SessionDiff {
            session_id,
            base_branch,
            branch,
            worktree,
            diff,
        };
        assert(session_diff_fields(value) =~= values);
        Ok(value)
    }

    /// A [`WireSession`].
    pub fn take_session_record(&mut self) -> (r: Result<WireSession, WireError>)
        requires
            old(self).wf(),
        ensures
            final(self).wf(),
            final(self).bytes() == old(self).bytes(),
            match parse_fields(session_record_layout(), old(self).bytes(), old(self).at()) {
                Ok((values, next)) => r is Ok && session_record_fields(r->Ok_0) == values
                    && final(self).at() == next,
                Err(fault) => r is Err && r->Err_0@ == fault,
            },
    {
        let layout = vec![
            FieldType::Text,
            FieldType::Text,
            FieldType::Text,
            FieldType::Text,
            FieldType::Text,
            FieldType::Text,
            FieldType::Text,
            FieldType::Text,
            FieldType::Status,
            FieldType::OptionalU32,
            FieldType::OptionalI32,
            FieldType::OptionalText,
            FieldType::Time,
            FieldType::Time,
            FieldType::OptionalTime,
        ];
        assert(layout@ =~= session_record_layout());
        let mut fields = match self.take_fields(&layout) {
            Ok(fields) => fields,
            Err(error) => {
                return Err(error);
            },
        };
        let ghost values = values_of(fields@);
        let ghost all = fields@;
        let exited_at: Option<Timestamp> = pop_optional_time(&mut fields);
        let updated_at: Timestamp = pop_time(&mut fields);
        let created_at: Timestamp = pop_time(&mut fields);
        let error: Option<String> = pop_optional_text(&mut fields);
        let exit_code: Option<i32> = pop_optional_i32(&mut fields);
        let pid: Option<u32> = pop_optional_u32(&mut fields);
        let status: WireStatus = pop_status(&mut fields);
        let worktree: String = pop_text(&mut fields);
        let branch: String = pop_text(&mut fields);
        let base_branch: String = pop_text(&mut fields);
        let task: String = pop_text(&mut fields);
        let repo_path: String = pop_text(&mut fields);
        let workspace: String = pop_text(&mut fields);
        let agent: String = pop_text(&mut fields);
        let session_id: String = pop_text(&mut fields);
        let value = WireSession {
            session_id,
            agent,
            workspace,
            repo_path,
            task,
            base_branch,
            branch,
            worktree,
            status,
            pid,
            exit_code,
            error,
            created_at,
            updated_at,
            exited_at,
        };
        assert(session_record_fields(value) =~= values);
        Ok(value)
    }

    /// A [`SessionEvent`].
    pub fn take_session_event(&mut self) -> (r: Result<SessionEvent, WireError>)
        requires
            old(self).wf(),
        ensures
            final(self).wf(),
            final(self).bytes() == old(self).bytes(),
            match parse_fields(session_event_layout(), old(self).bytes(), old(self).at()) {
                Ok((values, next)) => r is Ok && session_event_fields(r->Ok_0) == values
                    && final(self).at() == next,
                Err(fault) => r is Err && r->Err_0@ == fault,
            },
    {
        let layout = vec![
            FieldType::I64,
            FieldType::Text,
            FieldType::Time,
            FieldType::Text,
            FieldType::Json,
        ];
        assert(layout@ =~= session_event_layout());
        let mut fields = match self.take_fields(&layout) {
            Ok(fields) => fields,
            Err(error) => {
                return Err(error);
            },
        };
        let ghost values = values_of(fields@);
        let ghost all = fields@;
        let payload_json: String = pop_json(&mut fields);
        let event_type: String = pop_text(&mut fields);
        let timestamp: Timestamp = pop_time(&mut fields);
        let session_id: String = pop_text(&mut fields);
        let id: i64 = pop_i64(&mut fields);
        let value = SessionEvent {
            id,
            session_id,
            timestamp,
            event_type,
            payload_json,
        };
        assert(session_event_fields(value) =~= values);
        Ok(value)
    }

    /// A [`NewSessionEvent`].
    pub fn take_new_session_event(&mut self) -> (r: Result<NewSessionEvent, WireError>)
        requires
            old(self).wf(),
        ensures
            final(self).wf(),
            final(self).bytes() == old(self).bytes(),
            match parse_fields(new_session_event_layout(), old(self).bytes(), old(self).at()) {
                Ok((values, next)) => r is Ok && new_session_event_fields(r->Ok_0) == values
                    && final(self).at() == next,
                Err(fault) => r is Err && r->Err_0@ == fault,
            },
    {
        let layout = vec![
            FieldType::Text,
            FieldType::Json,
        ];
        assert(layout@ =~= new_session_event_layout());
        let mut fields = match self.take_fields(&layout) {
            Ok(fields) => fields,
            Err(error) => {
                return Err(error);
            },
        };
        let ghost values = values_of(fields@);
        let ghost all = fields@;
        let payload_json: String = pop_json(&mut fields);
        let event_type: String = pop_text(&mut fields);
        let value = NewSessionEvent {
            event_type,
            payload_json,
        };
        assert(new_session_event_fields(value) =~= values);
        Ok(value)
    }
}

/// Takes the last of the fields.
pub fn pop_text(fields: &mut Vec<Field>) -> (r: String)
    requires
        old(fields)@.len() > 0,
        type_of(old(fields)@.last()@) == FieldType::Text,
    ensures
        final(fields)@ == old(fields)@.drop_last(),
        old(fields)@.last()@ == FieldValue::Text(r@),
{
    match fields.pop() {
        Some(Field::Text(value)) => value,
        _ => vstd::pervasive::unreached(),
    }
}

/// Takes the last of the fields.
pub fn pop_bool(fields: &mut Vec<Field>) -> (r: bool)
    requires
        old(fields)@.len() > 0,
        type_of(old(fields)@.last()@) == FieldType::Bool,
    ensures
        final(fields)@ == old(fields)@.drop_last(),
        old(fields)@.last()@ == FieldValue::Bool(r),
{
    match fields.pop() {
        Some(Field::Bool(value)) => value,
        _ => vstd::pervasive::unreached(),
    }
}

/// Takes the last of the fields.
pub fn pop_bytes(fields: &mut Vec<Field>) -> (r: Vec<u8>)
    requires
        old(fields)@.len() > 0,
        type_of(old(fields)@.last()@) == FieldType::Bytes,
    ensures
        final(fields)@ == old(fields)@.drop_last(),
        old(fields)@.last()@ == FieldValue::Bytes(r@),
{
    match fields.pop() {
        Some(Field::Bytes(value)) => value,
        _ => vstd::pervasive::unreached(),
    }
}

/// Takes the last of the fields.
pub fn pop_optional_text(fields: &mut Vec<Field>) -> (r: Option<String>)
    requires
        old(fields)@.len() > 0,
        type_of(old(fields)@.last()@) == FieldType::OptionalText,
    ensures
        final(fields)@ == old(fields)@.drop_last(),
        old(fields)@.last()@ == FieldValue::OptionalText(opt_view(r)),
{
    match fields.pop() {
        Some(Field::OptionalText(value)) => value,
        _ => vstd::pervasive::unreached(),
    }
}

/// Takes the last of the fields.
pub fn pop_json(fields: &mut Vec<Field>) -> (r: String)
    requires
        old(fields)@.len() > 0,
        type_of(old(fields)@.last()@) == FieldType::Json,
    ensures
        final(fields)@ == old(fields)@.drop_last(),
        old(fields)@.last()@ == FieldValue::Json(r@),
{
    match fields.pop() {
        Some(Field::Json(value)) => value,
        _ => vstd::pervasive::unreached(),
    }
}

/// Takes the last of the fields.
pub fn pop_status(fields: &mut Vec<Field>) -> (r: WireStatus)
    requires
        old(fields)@.len() > 0,
        type_of(old(fields)@.last()@) == FieldType::Status,
    ensures
        final(fields)@ == old(fields)@.drop_last(),
        old(fields)@.last()@ == FieldValue::Status(r),
{
    match fields.pop() {
        Some(Field::Status(value)) => value,
        _ => vstd::pervasive::unreached(),
    }
}

/// Takes the last of the fields.
pub fn pop_u16(fields: &mut Vec<Field>) -> (r: u16)
    requires
        old(fields)@.len() > 0,
        type_of(old(fields)@.last()@) == FieldType::U16,
    ensures
        final(fields)@ == old(fields)@.drop_last(),
        old(fields)@.last()@ == FieldValue::U16(r),
{
    match fields.pop() {
        Some(Field::U16(value)) => value,
        _ => vstd::pervasive::unreached(),
    }
}

/// Takes the last of the fields.
pub fn pop_i64(fields: &mut Vec<Field>) -> (r: i64)
    requires
        old(fields)@.len() > 0,
        type_of(old(fields)@.last()@) == FieldType::I64,
    ensures
        final(fields)@ == old(fields)@.drop_last(),
        old(fields)@.last()@ == FieldValue::I64(r),
{
    match fields.pop() {
        Some(Field::I64(value)) => value,
        _ => vstd::pervasive::unreached(),
    }
}

/// Takes the last of the fields.
pub fn pop_optional_u32(fields: &mut Vec<Field>) -> (r: Option<u32>)
    requires
        old(fields)@.len() > 0,
        type_of(old(fields)@.last()@) == FieldType::OptionalU32,
    ensures
        final(fields)@ == old(fields)@.drop_last(),
        old(fields)@.last()@ == FieldValue::OptionalU32(r),
{
    match fields.pop() {
        Some(Field::OptionalU32(value)) => value,
        _ => vstd::pervasive::unreached(),
    }
}

/// Takes the last of the fields.
pub fn pop_optional_i32(fields: &mut Vec<Field>) -> (r: Option<i32>)
    requires
        old(fields)@.len() > 0,
        type_of(old(fields)@.last()@) == FieldType::OptionalI32,
    ensures
        final(fields)@ == old(fields)@.drop_last(),
        old(fields)@.last()@ == FieldValue::OptionalI32(r),
{
    match fields.pop() {
        Some(Field::OptionalI32(value)) => value,
        _ => vstd::pervasive::unreached(),
    }
}

/// Takes the last of the fields.
pub fn pop_time(fields: &mut Vec<Field>) -> (r: Timestamp)
    requires
        old(fields)@.len() > 0,
        type_of(old(fields)@.last()@) == FieldType::Time,
    ensures
        final(fields)@ == old(fields)@.drop_last(),
        old(fields)@.last()@ == FieldValue::Time(r),
{
    match fields.pop() {
        Some(Field::Time(value)) => value,
        _ => vstd::pervasive::unreached(),
    }
}

/// Takes the last of the fields.
pub fn pop_optional_time(fields: &mut Vec<Field>) -> (r: Option<Timestamp>)
    requires
        old(fields)@.len() > 0,
        type_of(old(fields)@.last()@) == FieldType::OptionalTime,
    ensures
        final(fields)@ == old(fields)@.drop_last(),
        old(fields)@.last()@ == FieldValue::OptionalTime(r),
{
    match fields.pop() {
        Some(Field::OptionalTime(value)) => value,
        _ => vstd::pervasive::unreached(),
    }
}

/// Takes the last of the fields.
pub fn pop_length(fields: &mut Vec<Field>) -> (r: usize)
    requires
        old(fields)@.len() > 0,
        type_of(old(fields)@.last()@) == FieldType::Length,
    ensures
        final(fields)@ == old(fields)@.drop_last(),
        old(fields)@.last()@ == FieldValue::Length(r as nat),
{
    match fields.pop() {
        Some(Field::Length(value)) => value,
        _ => vstd::pervasive::unreached(),
    }
}

} // verus!
