//! What holds of a client's dealings with the daemon, from the wire to the end of an attachment.
use crate::attach_input::{ActionView, Hotkey};
use crate::client::answer::{comes_to, is_awaited, stop_steps, Answer, KillStep};
use crate::client::attach::{
    adjacent, are_steps_for, distinct_names, end_text, is_step_after, is_step_for, live,
    position_of, AttachOutcome, AttachSessionDirection, AttachStep,
};
use crate::client::command::Then;
use crate::client::daemon::ShutdownNext;
use crate::client::exchange::{
    carries, is_on_the_wire, told_status, tells, ClientRequest, ClientResponse, SessionEndSummary,
};
use crate::client::lifecycle::{
    ReplacementEvent, ReplacementView, RestartEvent, RestartView,
};
use crate::client::mode::{degraded_reason, DaemonState};
use crate::protocol::field::WireStatus;
use crate::protocol::frame::PROTOCOL_VERSION;
use crate::protocol::record::DaemonInfo;
use crate::protocol::request::Request;
use crate::protocol::response::Response;
use crate::session::{
    ApplyState, AttentionLevel, IntegrationState, SessionRecord, SessionStatus,
};
use crate::session_find::status_name;
use crate::text::{starts, views};
use crate::tui::pty::wire_status_name;
use vstd::prelude::*;
use vstd::string::*;

verus! {

// ---------------------------------------------------------------------------
// The wire
// ---------------------------------------------------------------------------
/// What goes over the wire is what was asked, with all that the wire has a place for: nothing is
/// stopped, removed, followed or detached by it that was not asked for, and nothing for another
/// session.
pub proof fn wire_requests_are_what_was_asked(wire: Request, request: ClientRequest)
    requires
        carries(wire, request),
    ensures
        match wire {
            Request::GetDaemonInfo => request is GetDaemonInfo,
            Request::ShutdownDaemon => request is ShutdownDaemon,
            Request::CreateSession { workspace, task, agent } => request matches
                ClientRequest::CreateSession { workspace: asked, agent: chosen, name, .. } && asked
                == workspace && chosen == agent && (name is Some ==> task@ == name->0@) && (name
                is None ==> task@ == ""@),
            Request::KillSession { session_id, remove } => request == (ClientRequest::KillSession {
                session_id,
                remove,
            }),
            Request::AttachSession { session_id } => request matches ClientRequest::AttachSession {
                session_id: id,
                ..
            } && id == session_id,
            Request::AttachInput { data } => request == (ClientRequest::AttachInput { data }),
            Request::DetachSession { session_id } => request == (ClientRequest::DetachSession {
                session_id,
            }),
            Request::SendInput { session_id, data, source_session_id } => request == (
            ClientRequest::SendInput { session_id, data, source_session_id }),
            Request::SwitchAttachedSession { source_session_id, target_session_id } => request == (
            ClientRequest::SwitchAttachedSession { source_session_id, target_session_id }),
            Request::StreamLogs { session_id, follow } => request == (ClientRequest::StreamLogs {
                session_id,
                follow,
            }),
            Request::StreamEvents { session_id, follow } => request == (
            ClientRequest::StreamEvents { session_id, follow }),
            Request::ListSessions => request is ListSessions,
            Request::GetSession { session_id } => request == (ClientRequest::GetSession {
                session_id,
            }),
            Request::DiffSession { session_id } => request == (ClientRequest::DiffSession {
                session_id,
            }),
            Request::CreateWorktree { session_id } => request == (ClientRequest::CreateWorktree {
                session_id,
            }),
            Request::CleanupWorktree { session_id } => request == (
            ClientRequest::CleanupWorktree { session_id }),
            _ => false,
        },
        is_on_the_wire(request),
{
}

/// The wire carries every request but those that merge or discard a session, detach a single
/// client, list clients, ask for a history, or tell the size of a terminal.
pub proof fn wire_carries_most_requests(request: ClientRequest)
    ensures
        is_on_the_wire(request) <==> !(request is ApplySession || request is DiscardSession
            || request is DetachAttachment || request is ListAttachments || request is GetHistory
            || request is AttachResize),
{
}

/// A state that the wire tells is the one of the same name.
pub proof fn states_keep_their_names(a: WireStatus, b: WireStatus)
    ensures
        status_name(told_status(a)) == wire_status_name(a),
        told_status(a) == told_status(b) ==> a == b,
        a is Running <==> told_status(a) == SessionStatus::Running,
        a is Failed <==> told_status(a) == SessionStatus::Failed,
        a is Exited <==> told_status(a) == SessionStatus::Exited,
        a is Creating <==> told_status(a) == SessionStatus::Creating,
        a is Paused <==> told_status(a) == SessionStatus::Paused,
{
}

/// What is told to a client is what came over the wire: a failure is a failure, an end is an end, and
/// what was printed, logged or found is passed on as it is.
pub proof fn wire_responses_are_passed_on(response: ClientResponse, wire: Response)
    requires
        tells(response, wire),
    ensures
        match response {
            ClientResponse::Error { message } => wire == (Response::Error { message }),
            ClientResponse::EndOfStream => wire is EndOfStream,
            ClientResponse::Done => wire is Done,
            ClientResponse::InputAccepted => wire is InputAccepted,
            ClientResponse::PtyOutput { data } => wire == (Response::PtyOutput { data }),
            ClientResponse::LogChunk { log } => wire == (Response::LogChunk { data: log }),
            ClientResponse::KillSession { removed, was_running } => wire == (
            Response::KillSession { removed, was_running }),
            ClientResponse::Attached { attach_id, snapshot } => wire == (Response::Attached {
                snapshot,
            }) && attach_id is None,
            ClientResponse::SwitchSession { session_id } => wire == (Response::SwitchSession {
                session_id,
            }),
            ClientResponse::SessionEnded { summary } => wire matches Response::SessionEnded {
                session_id,
                status,
                exit_code,
                error,
            } && summary.session_id == session_id && summary.exit_code == exit_code && summary.error
                == error && status_name(summary.status) == wire_status_name(status),
            ClientResponse::Session { session } => wire matches Response::Session { session: told }
                && session.session_id == told.session_id && session.pid == told.pid
                && session.branch == told.branch && session.worktree == told.worktree
                && session.base_branch == told.base_branch && session.exit_code == told.exit_code
                && session.error == told.error && session.created_at == told.created_at
                && session.updated_at == told.updated_at && session.exited_at == told.exited_at
                && session.agent == told.agent && session.task == told.task && status_name(
                session.status,
            ) == wire_status_name(told.status) && session.attention == AttentionLevel::Info
                && session.apply_state == ApplyState::Idle && session.integration_state
                == IntegrationState::Clean && !session.has_commits && !session.has_pending_changes
                && !session.has_conflicts && session.attention_summary is None
                && session.dirty_count == 0 && session.ahead_count == 0 && session.thread_id
                is None && session.model is None && session.title@
                == told.task@ && session.workspace == told.workspace && session.repo_path
                == told.repo_path,
            ClientResponse::Sessions { sessions } => wire matches Response::Sessions {
                sessions: told,
            } && sessions@.len() == told@.len() && forall|i: int|
                0 <= i < sessions@.len() ==> (#[trigger] sessions@[i]).session_id
                    == told@[i].session_id && status_name(sessions@[i].status) == wire_status_name(
                    told@[i].status,
                ),
            ClientResponse::CreateSession { session } => wire matches Response::CreateSession {
                session: told,
            } && session.session_id == told.session_id && session.branch == told.branch
                && session.worktree == told.worktree && session.base_branch == told.base_branch,
            ClientResponse::Diff { diff } => wire == (Response::Diff { diff }),
            ClientResponse::Worktree { worktree } => wire == (Response::Worktree { worktree }),
            ClientResponse::Event { event } => wire == (Response::Event { event }),
            ClientResponse::DaemonInfo { info } => wire == (Response::DaemonInfo { info }),
            ClientResponse::Attachments { .. } => false,
            ClientResponse::History { .. } => false,
        },
{
    if let ClientResponse::SessionEnded { summary } = response {
        states_keep_their_names(wire->SessionEnded_status, wire->SessionEnded_status);
    }
    if let ClientResponse::Session { session } = response {
        states_keep_their_names(wire->Session_session.status, wire->Session_session.status);
    }
    if let ClientResponse::Sessions { sessions } = response {
        let told = wire->Sessions_sessions;
        assert forall|i: int| 0 <= i < sessions@.len() implies (
        #[trigger] sessions@[i]).session_id == told@[i].session_id && status_name(
            sessions@[i].status,
        ) == wire_status_name(told@[i].status) by {
            assert(crate::client::exchange::is_told(sessions@[i], told@[i]));
            states_keep_their_names(told@[i].status, told@[i].status);
        }
    }
}

// ---------------------------------------------------------------------------
// Answers
// ---------------------------------------------------------------------------
/// An answer is waited for by what can use it, and an error by nothing: a session that was asked for
/// is never taken from an answer of another kind.
pub proof fn only_fitting_answers_are_used(next: Then, response: ClientResponse, color: bool, answer: Answer)
    ensures
        response is Error || response is DaemonInfo || response is Attached || response
            is SessionEnded || response is Event || response is LogChunk || response is PtyOutput
            || response is SwitchSession || response is EndOfStream ==> !is_awaited(next, response),
        is_awaited(next, response) <==> match next {
            Then::Attach => response is CreateSession,
            Then::ReportCreated => response is CreateSession,
            Then::ReportKilled(_) => response is KillSession,
            Then::ReportDetached(_) => response is Done,
            Then::Nothing => response is InputAccepted,
            Then::ReportSession => response is Session,
            Then::ReportDiff => response is Diff,
            Then::ReportWorktree => response is Worktree,
            Then::ReportCleanup => response is Worktree,
            Then::ListSessions => response is Sessions,
            Then::ListAttachments => response is Attachments,
            Then::ShowHistory => response is History,
        },
        comes_to(answer, next, response, color) ==> is_awaited(next, response) && match answer {
            Answer::Attach(id) => next is Attach && response->CreateSession_session.session_id == id,
            Answer::List(sessions) => response == (ClientResponse::Sessions { sessions }),
            Answer::ListAttachments(attachments) => response == (ClientResponse::Attachments {
                attachments,
            }),
            Answer::Show(history) => response == (ClientResponse::History { history }),
            Answer::Nothing => response is InputAccepted,
            Answer::PrintDiff(_, text) => response is Diff && (!color ==> text@
                == response->Diff_diff.diff@),
            Answer::Print(_) => !(response is Sessions || response is Diff || response is History),
        },
{
}

/// What is printed of an answer names the session that it is about, and says that a session was
/// terminated or removed exactly where it was.
pub proof fn answers_are_printed_as_they_are(
    lines: Vec<String>,
    next: Then,
    response: ClientResponse,
    color: bool,
)
    requires
        comes_to(Answer::Print(lines), next, response, color),
    ensures
        match response {
            ClientResponse::KillSession { removed, was_running } => next matches Then::ReportKilled(
                id,
            ) && views(lines@) == (if was_running {
                seq!["terminated session "@ + id@]
            } else {
                Seq::empty()
            }) + (if removed {
                seq!["removed session "@ + id@]
            } else {
                Seq::empty()
            }),
            ClientResponse::CreateSession { session } => views(lines@) == seq![
                "name: "@ + session.session_id@,
                "base_branch: "@ + session.base_branch@,
                "branch: "@ + session.branch@,
                "worktree: "@ + session.worktree@,
            ],
            ClientResponse::Session { session } => views(lines@)[0] == "name: "@
                + session.session_id@,
            ClientResponse::Worktree { worktree } => {
                let at: int = if next is ReportCleanup {
                    1
                } else {
                    0
                };
                &&& next is ReportCleanup ==> views(lines@)[0] == "cleaned up worktree for session "@
                    + worktree.session_id@
                &&& views(lines@)[at] == "name: "@ + worktree.session_id@
            },
            ClientResponse::Done => next matches Then::ReportDetached(id) && views(lines@) == seq![
                "detached from "@ + id@,
            ],
            _ => false,
        },
{
    match response {
        ClientResponse::KillSession { removed, was_running } => {
            let id = next->ReportKilled_0;
            assert(views(lines@) =~= (if was_running {
                seq!["terminated session "@ + id@]
            } else {
                Seq::empty()
            }) + (if removed {
                seq!["removed session "@ + id@]
            } else {
                Seq::empty()
            }));
        },
        ClientResponse::CreateSession { session } => {
            assert(views(lines@) =~= seq![
                "name: "@ + session.session_id@,
                "base_branch: "@ + session.base_branch@,
                "branch: "@ + session.branch@,
                "worktree: "@ + session.worktree@,
            ]);
        },
        _ => {},
    }
}

/// A session is ended before it is stored as ended, and only where it runs. One that only seems to
/// run is stored as one to be recovered, and any other is left as it is.
pub proof fn sessions_are_stopped_before_they_are_stored(session: SessionRecord, running: bool)
    ensures
        ({
            let steps = stop_steps(session, running);
            &&& steps.contains(KillStep::Terminate) <==> running
            &&& steps.contains(KillStep::MarkExited) <==> running
            &&& running ==> steps[0] == KillStep::Terminate && steps[1] == KillStep::MarkExited
            &&& steps.contains(KillStep::MarkRecovered) <==> !running && session.status
                == SessionStatus::Running
            &&& !steps.contains(KillStep::RemoveArtifacts) && !steps.contains(KillStep::Forget)
        }),
{
    let steps = stop_steps(session, running);
    if running {
        assert(steps[0] == KillStep::Terminate && steps[1] == KillStep::MarkExited);
    } else if session.status == SessionStatus::Running {
        assert(steps[0] == KillStep::MarkRecovered);
    }
}

// ---------------------------------------------------------------------------
// With the daemon or without it
// ---------------------------------------------------------------------------
/// The daemon is done without where it speaks another version of the protocol, could not be asked,
/// or could not be started; and the reason names which of these it was.
pub proof fn daemon_is_used_where_it_answers(state: DaemonState)
    ensures
        degraded_reason(state) is None <==> match state {
            DaemonState::Answers(version) => version == PROTOCOL_VERSION,
            DaemonState::Unclear(_) => false,
            DaemonState::Started(usable) => usable,
        },
        state matches DaemonState::Unclear(reason) ==> degraded_reason(state)->0
            == "agentd could not be queried: "@ + reason@ && starts(
            degraded_reason(state)->0,
            "agentd could not be queried:"@,
        ),
        state matches DaemonState::Started(usable) && !usable ==> degraded_reason(state) == Some(
            "agentd is unavailable"@,
        ),
{
    reveal_strlit("agentd could not be queried:");
    reveal_strlit("agentd could not be queried: ");
    if let DaemonState::Unclear(reason) = state {
        let text = degraded_reason(state)->0;
        assert(text.take("agentd could not be queried:"@.len() as int)
            =~= "agentd could not be queried:"@);
    }
}

// ---------------------------------------------------------------------------
// Restarting and replacing
// ---------------------------------------------------------------------------
/// A restart goes its way where nothing stands in it: a daemon that is found is asked, stopped and
/// started again, one that is not there is only started, and the new one is asked what it is.
/// Running sessions stand in the way unless force is used, and a daemon of another version ends it.
pub proof fn restarts_go_their_way(
    running: bool,
    force: bool,
    info: DaemonInfo,
    version: Seq<char>,
)
    ensures
        ({
            let start = RestartView::Connecting;
            let asked = start.after(RestartEvent::Connected(true), force, version);
            let told = asked.after(RestartEvent::Running(running), force, version);
            let stopped = told.after(RestartEvent::Stopped, force, version);
            let fresh = start.after(RestartEvent::Connected(false), force, version);
            let checked = |s: RestartView|
                s.after(RestartEvent::Started, force, version).after(
                    RestartEvent::Info(info),
                    force,
                    version,
                );
            let fits = info.protocol_version == PROTOCOL_VERSION;
            &&& asked is Asking
            &&& told is Stopping <==> !running || force
            &&& told is Refused <==> running && !force
            &&& told is Stopping ==> stopped is Starting
            &&& told is Stopping && fits ==> checked(stopped) is Finished
            &&& told is Stopping && !fits ==> checked(stopped) is Refused
            &&& fresh is Starting
            &&& fits ==> checked(fresh) is Finished
            &&& !fits ==> checked(fresh) is Refused
        }),
{
}

/// A daemon that speaks the client's protocol is kept. Another, or one that does not tell, is asked
/// whether sessions run, told to stop where none does, ended where it does not understand that,
/// waited for, and started again; then it is asked what it is.
pub proof fn replacements_go_their_way(
    info: DaemonInfo,
    running: bool,
    message: String,
    version: Seq<char>,
)
    ensures
        ({
            let start = ReplacementView::Checking;
            let fits = info.protocol_version == PROTOCOL_VERSION;
            let known = start.after(ReplacementEvent::Info(info), version);
            let unknown = start.after(ReplacementEvent::Failed, version);
            let next = |s: ReplacementView| s.after(ReplacementEvent::Running(running), version);
            let stop = |s: ReplacementView, n: ShutdownNext|
                s.after(ReplacementEvent::Shutdown(n), version);
            let rest = |s: ReplacementView|
                s.after(ReplacementEvent::Stopped, version).after(
                    ReplacementEvent::Started,
                    version,
                ).after(ReplacementEvent::Info(info), version);
            &&& known is Finished <==> fits
            &&& !fits ==> known == ReplacementView::Asking(Some(info))
            &&& unknown == ReplacementView::Asking(None)
            &&& next(unknown) is Refused <==> running
            &&& next(unknown) is Stopping <==> !running
            &&& !fits ==> (next(known) is Refused <==> running)
            &&& !fits ==> (next(known) is Stopping <==> !running)
            &&& !running ==> {
                let waits = stop(next(unknown), ShutdownNext::Wait);
                let ends = stop(next(unknown), ShutdownNext::EndProcess);
                &&& waits is Waiting
                &&& ends is Ending
                &&& ends.after(ReplacementEvent::Ended, version) is Waiting
                &&& stop(next(unknown), ShutdownNext::Refused(message)) == ReplacementView::Refused(
                    message@,
                )
                &&& rest(waits) is Finished <==> fits
                &&& rest(waits) is Refused <==> !fits
            }
        }),
{
}

/// A failure breaks what was going on, but for a daemon that does not tell what it is; what has ended
/// it does not touch.
pub proof fn failures_break_what_goes_on(
    restart: RestartView,
    replacement: ReplacementView,
    force: bool,
    version: Seq<char>,
)
    ensures
        restart is Finished || restart is Refused || restart is Broken ==> restart.after(
            RestartEvent::Failed,
            force,
            version,
        ) == restart,
        !(restart is Finished || restart is Refused) ==> restart.after(
            RestartEvent::Failed,
            force,
            version,
        ) is Broken,
        replacement is Finished || replacement is Refused || replacement is Broken
            ==> replacement.after(ReplacementEvent::Failed, version) == replacement,
        !(replacement is Finished || replacement is Refused || replacement is Checking)
            ==> replacement.after(ReplacementEvent::Failed, version) is Broken,
{
}

// ---------------------------------------------------------------------------
// An attached client
// ---------------------------------------------------------------------------
/// An attached client leaves by the key that detaches, sends what was typed as it is, and looks for
/// the session before its own or behind it by the keys of these names.
pub proof fn keys_of_an_attached_client(step: AttachStep, action: ActionView)
    requires
        is_step_for(step, action),
    ensures
        match step {
            AttachStep::Leave(outcome) => outcome is Detached && action == ActionView::Key(
                Hotkey::Detach,
            ),
            AttachStep::LookFor(direction) => action == ActionView::Key(
                if direction == AttachSessionDirection::Next {
                    Hotkey::NextSession
                } else {
                    Hotkey::PreviousSession
                },
            ),
            AttachStep::Send(data) => action == ActionView::Data(data@),
            _ => false,
        },
{
}

/// An attached client shows what the session printed and nothing else, goes to another session only
/// where the daemon says so, and ends where the session or the stream ends.
pub proof fn answers_to_an_attached_client(step: AttachStep, response: Option<ClientResponse>)
    requires
        is_step_after(step, response),
    ensures
        match step {
            AttachStep::Show(data) => response == Some(ClientResponse::PtyOutput { data }),
            AttachStep::Leave(AttachOutcome::SwitchSession(session_id)) => response == Some(
                ClientResponse::SwitchSession { session_id },
            ),
            AttachStep::Leave(AttachOutcome::SessionEnded(summary)) => response == Some(
                ClientResponse::SessionEnded { summary },
            ),
            AttachStep::Leave(AttachOutcome::Detached) => response is None || response == Some(
                ClientResponse::EndOfStream,
            ),
            AttachStep::Fail(message) => response == Some(ClientResponse::Error { message }),
            AttachStep::Unexpected(other) => response == Some(other) && !(other is PtyOutput || other
                is SwitchSession || other is SessionEnded || other is EndOfStream || other
                is Error),
            _ => false,
        },
{
}

/// The next session is the one behind, and after the last one the first; the previous one is the one
/// before, and before the first one the last. There is none where there is no other session, or
/// where the session itself is not there.
pub proof fn neighbours_stand_next_to_each_other(sessions: Seq<SessionRecord>, at: int, id: Seq<char>)
    requires
        distinct_names(sessions),
    ensures
        0 <= at && at + 1 < sessions.len() ==> adjacent(
            sessions,
            sessions[at].session_id@,
            AttachSessionDirection::Next,
        ) == Some(sessions[at + 1].session_id@),
        0 <= at && at + 1 < sessions.len() ==> adjacent(
            sessions,
            sessions[at + 1].session_id@,
            AttachSessionDirection::Previous,
        ) == Some(sessions[at].session_id@),
        sessions.len() > 1 ==> adjacent(
            sessions,
            sessions[sessions.len() - 1].session_id@,
            AttachSessionDirection::Next,
        ) == Some(sessions[0].session_id@),
        sessions.len() > 1 ==> adjacent(
            sessions,
            sessions[0].session_id@,
            AttachSessionDirection::Previous,
        ) == Some(sessions[sessions.len() - 1].session_id@),
        sessions.len() <= 1 ==> adjacent(sessions, id, AttachSessionDirection::Next) is None
            && adjacent(sessions, id, AttachSessionDirection::Previous) is None,
        (forall|k: int| 0 <= k < sessions.len() ==> (#[trigger] sessions[k]).session_id@ != id)
            ==> adjacent(sessions, id, AttachSessionDirection::Next) is None && adjacent(
            sessions,
            id,
            AttachSessionDirection::Previous,
        ) is None,
{
    if sessions.len() > 1 {
        stands_at(sessions, 0);
        stands_at(sessions, sessions.len() - 1);
    }
    if 0 <= at && at + 1 < sessions.len() {
        stands_at(sessions, at);
        stands_at(sessions, at + 1);
    }
    if forall|k: int| 0 <= k < sessions.len() ==> (#[trigger] sessions[k]).session_id@ != id {
        stands_nowhere(sessions, id);
    }
}

proof fn stands_at(sessions: Seq<SessionRecord>, at: int)
    requires
        0 <= at < sessions.len(),
        distinct_names(sessions),
    ensures
        position_of(sessions, sessions[at].session_id@) == at,
    decreases sessions.len(),
{
    if at > 0 {
        let rest = sessions.skip(1);
        assert(sessions[0].session_id@ != sessions[at].session_id@);
        assert forall|i: int, j: int| 0 <= i < j < rest.len() implies (
        #[trigger] rest[i]).session_id@ != (#[trigger] rest[j]).session_id@ by {
            assert(rest[i] == sessions[i + 1] && rest[j] == sessions[j + 1]);
        }
        stands_at(rest, at - 1);
    }
}

proof fn stands_nowhere(sessions: Seq<SessionRecord>, id: Seq<char>)
    requires
        forall|k: int| 0 <= k < sessions.len() ==> (#[trigger] sessions[k]).session_id@ != id,
    ensures
        position_of(sessions, id) == sessions.len(),
    decreases sessions.len(),
{
    if sessions.len() > 0 {
        let rest = sessions.skip(1);
        assert(sessions[0].session_id@ != id);
        assert forall|k: int| 0 <= k < rest.len() implies (#[trigger] rest[k]).session_id@ != id by {
            assert(rest[k] == sessions[k + 1]);
        }
        stands_nowhere(rest, id);
    }
}

/// The sessions that are gone to are the running ones, and all of them, in their order.
pub proof fn running_sessions_are_gone_to(sessions: Seq<SessionRecord>, session: SessionRecord)
    ensures
        live(sessions).contains(session) <==> sessions.contains(session) && session.status
            == SessionStatus::Running,
        live(sessions).len() <= sessions.len(),
        (forall|i: int|
            0 <= i < sessions.len() ==> (#[trigger] sessions[i]).status == SessionStatus::Running)
            ==> live(sessions) == sessions,
    decreases sessions.len(),
{
    if sessions.len() > 0 {
        let front = sessions.drop_last();
        let last = sessions[sessions.len() - 1];
        let found = live(front);
        running_sessions_are_gone_to(front, session);
        if forall|i: int|
            0 <= i < sessions.len() ==> (#[trigger] sessions[i]).status == SessionStatus::Running {
            assert forall|i: int| 0 <= i < front.len() implies (#[trigger] front[i]).status
                == SessionStatus::Running by {
                assert(front[i] == sessions[i]);
            }
            assert(last.status == SessionStatus::Running);
            assert(front.push(last) =~= sessions);
        }
        if sessions.contains(session) {
            let k = choose|k: int| 0 <= k < sessions.len() && sessions[k] == session;
            if k < front.len() {
                assert(front[k] == session);
            }
        }
        if front.contains(session) {
            let k = choose|k: int| 0 <= k < front.len() && front[k] == session;
            assert(sessions[k] == session);
        }
        if last.status == SessionStatus::Running {
            let all = found.push(last);
            assert(live(sessions) == all);
            assert(all[found.len() as int] == last);
            if found.contains(session) {
                let k = choose|k: int| 0 <= k < found.len() && found[k] == session;
                assert(all[k] == session);
            }
            if all.contains(session) {
                let k = choose|k: int| 0 <= k < all.len() && all[k] == session;
                if k < found.len() {
                    assert(found[k] == session);
                }
            }
        }
    } else {
        assert(live(sessions) =~= sessions);
    }
}

/// What is said at the end names the session first. It says that it failed exactly where it did, that
/// it was merged where it has ended and its changes were applied, and that there are changes where it
/// has ended with commits that were not.
pub proof fn ends_are_told_as_they_are(summary: SessionEndSummary)
    ensures
        ({
            let start = "session "@ + summary.session_id@;
            let text = end_text(summary);
            let rest = text.skip(start.len() as int);
            let over = summary.status == SessionStatus::Exited || summary.status
                == SessionStatus::UnknownRecovered || summary.status == SessionStatus::Paused;
            let applied = summary.apply_state == ApplyState::Applied;
            &&& starts(text, start)
            &&& starts(rest, " failed"@) <==> summary.status == SessionStatus::Failed
            &&& starts(rest, " merged from "@) <==> over && applied
            &&& starts(rest, " finished with changes on "@) <==> over && !applied
                && summary.has_commits
            &&& starts(rest, " finished"@) <==> over && !applied
            &&& rest == " ended"@ <==> !over && summary.status != SessionStatus::Failed
            &&& summary.status == SessionStatus::Failed && summary.error is Some ==> rest
                == " failed: "@ + summary.error->0@
        }),
{
    let start = "session "@ + summary.session_id@;
    let text = end_text(summary);
    let rest = text.skip(start.len() as int);
    reveal_strlit(" failed");
    reveal_strlit(" failed: ");
    reveal_strlit(" merged from ");
    reveal_strlit(" finished with changes on ");
    reveal_strlit(" finished (exit ");
    reveal_strlit(" finished");
    reveal_strlit(" ended");
    assert(text.take(start.len() as int) =~= start);
    assert(" failed"@.len() == 7 && " merged from "@.len() == 13 && " finished"@.len() == 9
        && " ended"@.len() == 6 && " finished with changes on "@.len() == 26);
    let over = summary.status == SessionStatus::Exited || summary.status
        == SessionStatus::UnknownRecovered || summary.status == SessionStatus::Paused;
    let applied = summary.apply_state == ApplyState::Applied;
    if starts(rest, " failed"@) {
        assert(rest.take(7)[2] == rest[2]);
        assert(" failed"@[2] == 'a');
    }
    if starts(rest, " merged from "@) {
        assert(rest.take(13)[1] == rest[1]);
        assert(" merged from "@[1] == 'm');
    }
    if starts(rest, " finished with changes on "@) {
        assert(rest.take(26)[2] == rest[2]);
        assert(rest.take(26)[10] == rest[10]);
        assert(" finished with changes on "@[2] == 'i');
        assert(" finished with changes on "@[10] == 'w');
    }
    if starts(rest, " finished"@) {
        assert(rest.take(9)[2] == rest[2]);
        assert(" finished"@[2] == 'i');
    }
    if summary.status == SessionStatus::Failed {
        match summary.error {
            Some(error) => {
                assert(rest =~= " failed: "@ + error@);
                assert(rest.take(7) =~= " failed"@);
            },
            None => {
                assert(rest =~= " failed"@);
                assert(rest.take(7) =~= " failed"@);
            },
        }
        assert(rest[2] == 'a' && rest[1] == 'f');
    } else if over && applied {
        let tail = " merged from "@ + summary.branch@ + " ("@ + summary.worktree@ + ")"@;
        assert(rest =~= tail);
        assert(rest.take(13) =~= " merged from "@);
        assert(rest[1] == 'm' && rest[2] == 'e');
    } else if over && summary.has_commits {
        assert(rest.take(26) =~= " finished with changes on "@);
        assert(rest.take(9) =~= " finished"@);
        assert(rest[1] == 'f' && rest[2] == 'i');
    } else if over {
        assert(rest.take(9) =~= " finished"@);
        assert(rest[1] == 'f' && rest[2] == 'i');
        if summary.exit_code is Some {
            assert(rest[10] == '(');
        }
    } else {
        assert(rest =~= " ended"@);
        assert(rest[1] == 'e');
    }
    assert(" ended"@[1] == 'e');
}

/// What was typed is acted on piece by piece, in its order, and nothing is left out.
pub proof fn all_that_is_typed_is_acted_on(steps: Seq<AttachStep>, actions: Seq<ActionView>, i: int)
    requires
        are_steps_for(steps, actions),
    ensures
        steps.len() == actions.len(),
        0 <= i < actions.len() ==> match actions[i] {
            ActionView::Data(bytes) => steps[i] matches AttachStep::Send(data) && data@ == bytes,
            ActionView::Key(Hotkey::Detach) => steps[i] == AttachStep::Leave(
                AttachOutcome::Detached,
            ),
            ActionView::Key(Hotkey::NextSession) => steps[i] == AttachStep::LookFor(
                AttachSessionDirection::Next,
            ),
            ActionView::Key(Hotkey::PreviousSession) => steps[i] == AttachStep::LookFor(
                AttachSessionDirection::Previous,
            ),
        },
{
    if 0 <= i < actions.len() {
        assert(is_step_for(steps[i], actions[i]));
    }
}

} // verus!
