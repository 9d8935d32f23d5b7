//! What a client asks of the daemon and what it is answered, and how much of that the wire carries.
use crate::protocol::field::WireStatus;
use crate::protocol::record::{DaemonInfo, SessionEvent, WireCreateResult, WireSession};
use crate::protocol::request::Request;
use crate::protocol::response::Response;
use crate::session::{
    repo_name, repo_name_from_path, ApplyState, AttachmentKind, AttachmentRecord, AttentionLevel,
    CreateSessionResult, IntegrationPolicy, IntegrationState, SessionDiff, SessionMode,
    SessionRecord, SessionStatus, WorktreeRecord,
};
use vstd::prelude::*;

verus! {

/// What a client asks of the daemon.
#[derive(Debug)]
#[allow(inconsistent_fields)]
pub enum ClientRequest {
    GetDaemonInfo,
    ShutdownDaemon,
    CreateSession {
        workspace: String,
        name: Option<String>,
        agent: String,
        model: Option<String>,
        integration_policy: IntegrationPolicy,
    },
    KillSession { session_id: String, remove: bool },
    AttachSession { session_id: String, kind: AttachmentKind, cols: u16, rows: u16 },
    AttachInput { data: Vec<u8> },
    AttachResize { cols: u16, rows: u16 },
    DetachSession { session_id: String },
    DetachAttachment { session_id: String, attach_id: String },
    SendInput { session_id: String, data: Vec<u8>, source_session_id: Option<String> },
    SwitchAttachedSession { source_session_id: String, target_session_id: String },
    ApplySession { session_id: String },
    DiscardSession { session_id: String, force: bool },
    GetHistory { session_id: String, vt: bool },
    StreamLogs { session_id: String, follow: bool },
    StreamEvents { session_id: String, follow: bool },
    ListSessions,
    ListAttachments { session_id: String },
    GetSession { session_id: String },
    DiffSession { session_id: String },
    CreateWorktree { session_id: String },
    CleanupWorktree { session_id: String },
}

/// How a session ended.
#[derive(Debug)]
pub struct SessionEndSummary {
    pub session_id: String,
    pub status: SessionStatus,
    pub apply_state: ApplyState,
    pub has_commits: bool,
    pub branch: String,
    pub worktree: String,
    pub exit_code: Option<i32>,
    pub error: Option<String>,
}

/// What a client is answered.
#[derive(Debug)]
#[allow(inconsistent_fields)]
pub enum ClientResponse {
    DaemonInfo { info: DaemonInfo },
    CreateSession { session: CreateSessionResult },
    KillSession { removed: bool, was_running: bool },
    Attached { attach_id: Option<String>, snapshot: Vec<u8> },
    SessionEnded { summary: SessionEndSummary },
    InputAccepted,
    Worktree { worktree: WorktreeRecord },
    Diff { diff: SessionDiff },
    Session { session: SessionRecord },
    Sessions { sessions: Vec<SessionRecord> },
    Attachments { attachments: Vec<AttachmentRecord> },
    History { history: String },
    Event { event: SessionEvent },
    LogChunk { log: String },
    PtyOutput { data: Vec<u8> },
    SwitchSession { session_id: String },
    EndOfStream,
    Error { message: String },
    Done,
}

// ---------------------------------------------------------------------------
// Requests
// ---------------------------------------------------------------------------
/// Whether the wire carries a request.
pub open spec fn is_on_the_wire(request: ClientRequest) -> bool {
    match request {
        ClientRequest::AttachResize { .. } => false,
        ClientRequest::DetachAttachment { .. } => false,
        ClientRequest::ApplySession { .. } => false,
        ClientRequest::DiscardSession { .. } => false,
        ClientRequest::GetHistory { .. } => false,
        ClientRequest::ListAttachments { .. } => false,
        _ => true,
    }
}

/// Whether a request on the wire is what a client asks: the name of a session goes as its task, an
/// empty one where there is none. The wire has no place for the model and the policy of a session,
/// nor for the kind and the size of an attached terminal.
pub open spec fn carries(wire: Request, request: ClientRequest) -> bool {
    match request {
        ClientRequest::GetDaemonInfo => wire == Request::GetDaemonInfo,
        ClientRequest::ShutdownDaemon => wire == Request::ShutdownDaemon,
        ClientRequest::CreateSession { workspace, name, agent, .. } => wire matches
            Request::CreateSession { workspace: sent, task, agent: chosen } && sent == workspace
            && chosen == agent && task@ == match name {
            Some(name) => name@,
            None => ""@,
        },
        ClientRequest::KillSession { session_id, remove } => wire == (Request::KillSession {
            session_id,
            remove,
        }),
        ClientRequest::AttachSession { session_id, kind, cols, rows } => wire == (
        Request::AttachSession { session_id }),
        ClientRequest::AttachInput { data } => wire == (Request::AttachInput { data }),
        ClientRequest::DetachSession { session_id } => wire == (Request::DetachSession {
            session_id,
        }),
        ClientRequest::SendInput { session_id, data, source_session_id } => wire == (
        Request::SendInput { session_id, data, source_session_id }),
        ClientRequest::SwitchAttachedSession { source_session_id, target_session_id } => wire == (
        Request::SwitchAttachedSession { source_session_id, target_session_id }),
        ClientRequest::StreamLogs { session_id, follow } => wire == (Request::StreamLogs {
            session_id,
            follow,
        }),
        ClientRequest::StreamEvents { session_id, follow } => wire == (Request::StreamEvents {
            session_id,
            follow,
        }),
        ClientRequest::ListSessions => wire == Request::ListSessions,
        ClientRequest::GetSession { session_id } => wire == (Request::GetSession { session_id }),
        ClientRequest::DiffSession { session_id } => wire == (Request::DiffSession { session_id }),
        ClientRequest::CreateWorktree { session_id } => wire == (Request::CreateWorktree {
            session_id,
        }),
        ClientRequest::CleanupWorktree { session_id } => wire == (Request::CleanupWorktree {
            session_id,
        }),
        _ => false,
    }
}

/// The request as the wire carries it, where it does.
pub fn to_wire(request: ClientRequest) -> (r: Option<Request>)
    ensures
        r is Some <==> is_on_the_wire(request),
        r matches Some(wire) ==> carries(wire, request),
{
    match request {
        ClientRequest::GetDaemonInfo => Some(Request::GetDaemonInfo),
        ClientRequest::ShutdownDaemon => Some(Request::ShutdownDaemon),
        ClientRequest::CreateSession { workspace, name, agent, .. } => {
            let task = match name {
                Some(name) => name,
                None => "".to_string(),
            };
            Some(Request::CreateSession { workspace, task, agent })
        },
        ClientRequest::KillSession { session_id, remove } => Some(
            Request::KillSession { session_id, remove },
        ),
        ClientRequest::AttachSession { session_id, .. } => Some(
            Request::AttachSession { session_id },
        ),
        ClientRequest::AttachInput { data } => Some(Request::AttachInput { data }),
        ClientRequest::DetachSession { session_id } => Some(Request::DetachSession { session_id }),
        ClientRequest::SendInput { session_id, data, source_session_id } => Some(
            Request::SendInput { session_id, data, source_session_id },
        ),
        ClientRequest::SwitchAttachedSession { source_session_id, target_session_id } => Some(
            Request::SwitchAttachedSession { source_session_id, target_session_id },
        ),
        ClientRequest::StreamLogs { session_id, follow } => Some(
            Request::StreamLogs { session_id, follow },
        ),
        ClientRequest::StreamEvents { session_id, follow } => Some(
            Request::StreamEvents { session_id, follow },
        ),
        ClientRequest::ListSessions => Some(Request::ListSessions),
        ClientRequest::GetSession { session_id } => Some(Request::GetSession { session_id }),
        ClientRequest::DiffSession { session_id } => Some(Request::DiffSession { session_id }),
        ClientRequest::CreateWorktree { session_id } => Some(
            Request::CreateWorktree { session_id },
        ),
        ClientRequest::CleanupWorktree { session_id } => Some(
            Request::CleanupWorktree { session_id },
        ),
        _ => None,
    }
}

// ---------------------------------------------------------------------------
// Responses
// ---------------------------------------------------------------------------
/// The state of a session that the wire tells.
pub open spec fn told_status(status: WireStatus) -> SessionStatus {
    match status {
        WireStatus::Creating => SessionStatus::Creating,
        WireStatus::Running => SessionStatus::Running,
        WireStatus::Paused => SessionStatus::Paused,
        WireStatus::Exited => SessionStatus::Exited,
        WireStatus::Failed => SessionStatus::Failed,
        WireStatus::UnknownRecovered => SessionStatus::UnknownRecovered,
    }
}

/// The state of a session that the wire tells.
pub fn status_from_wire(status: WireStatus) -> (r: SessionStatus)
    ensures
        r == told_status(status),
{
    match status {
        WireStatus::Creating => SessionStatus::Creating,
        WireStatus::Running => SessionStatus::Running,
        WireStatus::Paused => SessionStatus::Paused,
        WireStatus::Exited => SessionStatus::Exited,
        WireStatus::Failed => SessionStatus::Failed,
        WireStatus::UnknownRecovered => SessionStatus::UnknownRecovered,
    }
}

/// Whether a session is the one that the wire tells: what the wire does not carry is at rest.
pub open spec fn is_told(session: SessionRecord, wire: WireSession) -> bool {
    &&& session.session_id == wire.session_id
    &&& session.thread_id is None
    &&& session.agent == wire.agent
    &&& session.model is None
    &&& session.mode == SessionMode::Execute
    &&& session.workspace == wire.workspace
    &&& session.repo_path == wire.repo_path
    &&& session.repo_name@ == repo_name(wire.repo_path@)
    &&& session.title@ == wire.task@
    &&& session.task == wire.task
    &&& session.base_branch == wire.base_branch
    &&& session.branch == wire.branch
    &&& session.worktree == wire.worktree
    &&& session.status == told_status(wire.status)
    &&& session.integration_policy == IntegrationPolicy::ManualReview
    &&& session.apply_state == ApplyState::Idle
    &&& session.integration_state == IntegrationState::Clean
    &&& session.git_sync@ == ""@
    &&& session.git_status_summary is None
    &&& !session.has_conflicts
    &&& session.dirty_count == 0
    &&& session.ahead_count == 0
    &&& !session.has_commits
    &&& !session.has_pending_changes
    &&& session.pid == wire.pid
    &&& session.exit_code == wire.exit_code
    &&& session.error == wire.error
    &&& session.attention == AttentionLevel::Info
    &&& session.attention_summary is None
    &&& session.created_at == wire.created_at
    &&& session.updated_at == wire.updated_at
    &&& session.exited_at == wire.exited_at
}

/// The session that the wire tells.
pub fn session_from_wire(wire: WireSession) -> (r: SessionRecord)
    ensures
        is_told(r, wire),
{
    SessionRecord {
        session_id: wire.session_id,
        thread_id: None,
        agent: wire.agent,
        model: None,
        mode: SessionMode::Execute,
        workspace: wire.workspace,
        repo_name: repo_name_from_path(wire.repo_path.as_str()),
        repo_path: wire.repo_path,
        title: wire.task.clone(),
        task: wire.task,
        base_branch: wire.base_branch,
        branch: wire.branch,
        worktree: wire.worktree,
        status: status_from_wire(wire.status),
        integration_policy: IntegrationPolicy::ManualReview,
        apply_state: ApplyState::Idle,
        integration_state: IntegrationState::Clean,
        git_sync: "".to_string(),
        git_status_summary: None,
        has_conflicts: false,
        dirty_count: 0,
        ahead_count: 0,
        has_commits: false,
        has_pending_changes: false,
        pid: wire.pid,
        exit_code: wire.exit_code,
        error: wire.error,
        attention: AttentionLevel::Info,
        attention_summary: None,
        created_at: wire.created_at,
        updated_at: wire.updated_at,
        exited_at: wire.exited_at,
    }
}

/// Whether sessions are the ones that the wire tells, in their order.
pub open spec fn are_told(sessions: Seq<SessionRecord>, wire: Seq<WireSession>) -> bool {
    &&& sessions.len() == wire.len()
    &&& forall|i: int| 0 <= i < sessions.len() ==> is_told(#[trigger] sessions[i], wire[i])
}

/// The sessions that the wire tells, in their order.
pub fn sessions_from_wire(wire: Vec<WireSession>) -> (r: Vec<SessionRecord>)
    ensures
        are_told(r@, wire@),
{
    let ghost all = wire@;
    let mut rest = wire;
    let mut sessions: Vec<SessionRecord> = Vec::new();
    let ghost mut done: int = 0;
    while rest.len() > 0
        invariant
            0 <= done <= all.len(),
            done + rest@.len() == all.len(),
            rest@ == all.skip(done),
            sessions@.len() == done,
            forall|i: int| 0 <= i < done ==> is_told(#[trigger] sessions@[i], all[i]),
        decreases rest.len(),
    {
        let next = rest.remove(0);
        assert(next == all[done]);
        sessions.push(session_from_wire(next));
        proof {
            done = done + 1;
        }
        assert(rest@ =~= all.skip(done));
    }
    sessions
}

/// Whether a response is what the wire answers. What the wire does not carry is at rest, or left
/// out.
pub open spec fn tells(response: ClientResponse, wire: Response) -> bool {
    match wire {
        Response::DaemonInfo { info } => response == (ClientResponse::DaemonInfo { info }),
        Response::CreateSession { session } => response matches ClientResponse::CreateSession {
            session: made,
        } && made.session_id == session.session_id && made.base_branch == session.base_branch
            && made.branch == session.branch && made.worktree == session.worktree && made.status
            == told_status(session.status) && made.mode == SessionMode::Execute
            && made.integration_policy == IntegrationPolicy::ManualReview,
        Response::KillSession { removed, was_running } => response == (
        ClientResponse::KillSession { removed, was_running }),
        Response::Attached { snapshot } => response == (ClientResponse::Attached {
            attach_id: None,
            snapshot,
        }),
        Response::SessionEnded { session_id, status, exit_code, error } => response matches
            ClientResponse::SessionEnded { summary } && summary.session_id == session_id
            && summary.status == told_status(status) && summary.exit_code == exit_code
            && summary.error == error && summary.apply_state == ApplyState::Idle
            && !summary.has_commits && summary.branch@ == ""@ && summary.worktree@ == ""@,
        Response::InputAccepted => response == ClientResponse::InputAccepted,
        Response::Worktree { worktree } => response == (ClientResponse::Worktree { worktree }),
        Response::Diff { diff } => response == (ClientResponse::Diff { diff }),
        Response::Session { session } => response matches ClientResponse::Session { session: told }
            && is_told(told, session),
        Response::Sessions { sessions } => response matches ClientResponse::Sessions {
            sessions: told,
        } && are_told(told@, sessions@),
        Response::Event { event } => response == (ClientResponse::Event { event }),
        Response::LogChunk { data } => response == (ClientResponse::LogChunk { log: data }),
        Response::PtyOutput { data } => response == (ClientResponse::PtyOutput { data }),
        Response::SwitchSession { session_id } => response == (ClientResponse::SwitchSession {
            session_id,
        }),
        Response::EndOfStream => response == ClientResponse::EndOfStream,
        Response::Error { message } => response == (ClientResponse::Error { message }),
        Response::Done => response == ClientResponse::Done,
    }
}

fn created_from_wire(session: WireCreateResult) -> (r: CreateSessionResult)
    ensures
        r.session_id == session.session_id,
        r.base_branch == session.base_branch,
        r.branch == session.branch,
        r.worktree == session.worktree,
        r.status == told_status(session.status),
        r.mode == SessionMode::Execute,
        r.integration_policy == IntegrationPolicy::ManualReview,
{
    CreateSessionResult {
        session_id: session.session_id,
        base_branch: session.base_branch,
        branch: session.branch,
        worktree: session.worktree,
        status: status_from_wire(session.status),
        mode: SessionMode::Execute,
        integration_policy: IntegrationPolicy::ManualReview,
    }
}

/// The response that the wire answers.
pub fn from_wire(wire: Response) -> (r: ClientResponse)
    ensures
        tells(r, wire),
{
    match wire {
        Response::DaemonInfo { info } => ClientResponse::DaemonInfo { info },
        Response::CreateSession { session } => ClientResponse::CreateSession {
            session: created_from_wire(session),
        },
        Response::KillSession { removed, was_running } => ClientResponse::KillSession {
            removed,
            was_running,
        },
        Response::Attached { snapshot } => ClientResponse::Attached { attach_id: None, snapshot },
        Response::SessionEnded { session_id, status, exit_code, error } => {
            ClientResponse::SessionEnded {
                summary: SessionEndSummary {
                    session_id,
                    status: status_from_wire(status),
                    apply_state: ApplyState::Idle,
                    has_commits: false,
                    branch: "".to_string(),
                    worktree: "".to_string(),
                    exit_code,
                    error,
                },
            }
        },
        Response::InputAccepted => ClientResponse::InputAccepted,
        Response::Worktree { worktree } => ClientResponse::Worktree { worktree },
        Response::Diff { diff } => ClientResponse::Diff { diff },
        Response::Session { session } => ClientResponse::Session {
            session: session_from_wire(session),
        },
        Response::Sessions { sessions } => ClientResponse::Sessions {
            sessions: sessions_from_wire(sessions),
        },
        Response::Event { event } => ClientResponse::Event { event },
        Response::LogChunk { data } => ClientResponse::LogChunk { log: data },
        Response::PtyOutput { data } => ClientResponse::PtyOutput { data },
        Response::SwitchSession { session_id } => ClientResponse::SwitchSession { session_id },
        Response::EndOfStream => ClientResponse::EndOfStream,
        Response::Error { message } => ClientResponse::Error { message },
        Response::Done => ClientResponse::Done,
    }
}

} // verus!
