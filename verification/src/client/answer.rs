//! What a client does with what it is answered, and what it does on its own.
use crate::client::command::Then;
use crate::client::daemon::ReplyFault;
use crate::client::diff_text::{is_tinted, render_diff_text};
use crate::client::exchange::ClientResponse;
use crate::client::report::{
    cleanup_report, created_report, diff_head, kill_lines, kill_report, place_lines, session_lines,
    session_report, worktree_lines, worktree_report,
};
use crate::protocol::record::SessionEvent;
use crate::session::{AttachmentRecord, SessionRecord, SessionStatus};
use crate::text::views;
use vstd::prelude::*;
use vstd::string::*;

verus! {

/// What an answer comes to.
#[derive(Debug)]
pub enum Answer {
    /// A session is attached to.
    Attach(String),
    /// Lines are printed.
    Print(Vec<String>),
    /// Lines are printed, and a text behind them.
    PrintDiff(Vec<String>, String),
    /// Sessions are listed.
    List(Vec<SessionRecord>),
    /// Attached clients are listed.
    ListAttachments(Vec<AttachmentRecord>),
    /// A text is printed as it is.
    Show(String),
    /// Nothing is printed.
    Nothing,
}

/// Whether an answer is of the kind that is waited for.
pub open spec fn is_awaited(next: Then, response: ClientResponse) -> bool {
    match (next, response) {
        (Then::Attach, ClientResponse::CreateSession { .. }) => true,
        (Then::ReportCreated, ClientResponse::CreateSession { .. }) => true,
        (Then::ReportKilled(_), ClientResponse::KillSession { .. }) => true,
        (Then::ReportDetached(_), ClientResponse::Done) => true,
        (Then::Nothing, ClientResponse::InputAccepted) => true,
        (Then::ReportSession, ClientResponse::Session { .. }) => true,
        (Then::ReportDiff, ClientResponse::Diff { .. }) => true,
        (Then::ReportWorktree, ClientResponse::Worktree { .. }) => true,
        (Then::ReportCleanup, ClientResponse::Worktree { .. }) => true,
        (Then::ListSessions, ClientResponse::Sessions { .. }) => true,
        (Then::ListAttachments, ClientResponse::Attachments { .. }) => true,
        (Then::ShowHistory, ClientResponse::History { .. }) => true,
        _ => false,
    }
}

/// Whether this is what an answer comes to that was waited for.
pub open spec fn comes_to(answer: Answer, next: Then, response: ClientResponse, color: bool) -> bool {
    match (next, response) {
        (Then::Attach, ClientResponse::CreateSession { session }) => answer == Answer::Attach(
            session.session_id,
        ),
        (Then::ReportCreated, ClientResponse::CreateSession { session }) => answer matches
            Answer::Print(lines) && views(lines@) == seq!["name: "@ + session.session_id@]
            + place_lines(session.base_branch@, session.branch@, session.worktree@),
        (
            Then::ReportKilled(session_id),
            ClientResponse::KillSession { removed, was_running },
        ) => answer matches Answer::Print(lines) && views(lines@) == kill_lines(
            session_id@,
            was_running,
            removed,
        ),
        (Then::ReportDetached(session_id), ClientResponse::Done) => answer matches Answer::Print(
            lines,
        ) && views(lines@) == seq!["detached from "@ + session_id@],
        (Then::Nothing, ClientResponse::InputAccepted) => answer == Answer::Nothing,
        (Then::ReportSession, ClientResponse::Session { session }) => answer matches Answer::Print(
            lines,
        ) && views(lines@) == session_lines(session),
        (Then::ReportDiff, ClientResponse::Diff { diff }) => answer matches Answer::PrintDiff(
            lines,
            text,
        ) && views(lines@) == (seq!["name: "@ + diff.session_id@] + place_lines(
            diff.base_branch@,
            diff.branch@,
            diff.worktree@,
        )).push(""@ + ""@) && (if color {
            is_tinted(text@, diff.diff@)
        } else {
            text@ == diff.diff@
        }),
        (Then::ReportWorktree, ClientResponse::Worktree { worktree }) => answer matches
            Answer::Print(lines) && views(lines@) == worktree_lines("name: "@, worktree),
        (Then::ReportCleanup, ClientResponse::Worktree { worktree }) => answer matches
            Answer::Print(lines) && views(lines@) == seq![
            "cleaned up worktree for session "@ + worktree.session_id@,
        ] + worktree_lines("name: "@, worktree),
        (Then::ListSessions, ClientResponse::Sessions { sessions }) => answer == Answer::List(
            sessions,
        ),
        (Then::ListAttachments, ClientResponse::Attachments { attachments }) => answer
            == Answer::ListAttachments(attachments),
        (Then::ShowHistory, ClientResponse::History { history }) => answer == Answer::Show(history),
        _ => false,
    }
}

fn detached_report(session_id: &str) -> (r: Vec<String>)
    ensures
        views(r@) == seq!["detached from "@ + session_id@],
{
    let mut line = "detached from ".to_string();
    line.append(session_id);
    let lines = vec![line];
    assert(views(lines@) =~= seq!["detached from "@ + session_id@]);
    lines
}

/// What an answer comes to: the one that is waited for, a refusal, or one that does not fit.
/// `color` says whether a diff is printed in colour.
pub fn answer(next: Then, response: ClientResponse, color: bool) -> (r: Result<
    Answer,
    ReplyFault<ClientResponse>,
>)
    ensures
        if is_awaited(next, response) {
            r matches Ok(answer) && comes_to(answer, next, response, color)
        } else if response is Error {
            r matches Err(ReplyFault::Refused(message)) && response == (ClientResponse::Error {
                message,
            })
        } else {
            r matches Err(ReplyFault::Unexpected(other)) && other == response
        },
{
    match (next, response) {
        (Then::Attach, ClientResponse::CreateSession { session }) => Ok(
            Answer::Attach(session.session_id),
        ),
        (Then::ReportCreated, ClientResponse::CreateSession { session }) => Ok(
            Answer::Print(created_report("name: ", &session)),
        ),
        (Then::ReportKilled(session_id), ClientResponse::KillSession { removed, was_running }) => {
            Ok(Answer::Print(kill_report(session_id.as_str(), was_running, removed)))
        },
        (Then::ReportDetached(session_id), ClientResponse::Done) => Ok(
            Answer::Print(detached_report(session_id.as_str())),
        ),
        (Then::Nothing, ClientResponse::InputAccepted) => Ok(Answer::Nothing),
        (Then::ReportSession, ClientResponse::Session { session }) => Ok(
            Answer::Print(session_report(&session)),
        ),
        (Then::ReportDiff, ClientResponse::Diff { diff }) => {
            let text = render_diff_text(diff.diff.as_str(), color);
            Ok(Answer::PrintDiff(diff_head("name: ", &diff), text))
        },
        (Then::ReportWorktree, ClientResponse::Worktree { worktree }) => Ok(
            Answer::Print(worktree_report("name: ", &worktree)),
        ),
        (Then::ReportCleanup, ClientResponse::Worktree { worktree }) => Ok(
            Answer::Print(cleanup_report("name: ", &worktree)),
        ),
        (Then::ListSessions, ClientResponse::Sessions { sessions }) => Ok(Answer::List(sessions)),
        (Then::ListAttachments, ClientResponse::Attachments { attachments }) => Ok(
            Answer::ListAttachments(attachments),
        ),
        (Then::ShowHistory, ClientResponse::History { history }) => Ok(Answer::Show(history)),
        (_, ClientResponse::Error { message }) => Err(ReplyFault::Refused(message)),
        (_, other) => Err(ReplyFault::Unexpected(other)),
    }
}

// ---------------------------------------------------------------------------
// Streams
// ---------------------------------------------------------------------------
/// What a client does with a piece of a stream.
#[derive(Debug)]
pub enum StreamStep {
    Print(String),
    PrintEvent(SessionEvent),
    End,
    Fail(String),
    Unexpected(ClientResponse),
}

/// What a client does with a piece of a log; a closed connection is an end.
pub fn log_step(response: Option<ClientResponse>) -> (r: StreamStep)
    ensures
        r == match response {
            None => StreamStep::End,
            Some(ClientResponse::LogChunk { log }) => StreamStep::Print(log),
            Some(ClientResponse::EndOfStream) => StreamStep::End,
            Some(ClientResponse::Error { message }) => StreamStep::Fail(message),
            Some(other) => StreamStep::Unexpected(other),
        },
{
    match response {
        None => StreamStep::End,
        Some(ClientResponse::LogChunk { log }) => StreamStep::Print(log),
        Some(ClientResponse::EndOfStream) => StreamStep::End,
        Some(ClientResponse::Error { message }) => StreamStep::Fail(message),
        Some(other) => StreamStep::Unexpected(other),
    }
}

/// What a client does with an event of a session; a closed connection is an end.
pub fn event_step(response: Option<ClientResponse>) -> (r: StreamStep)
    ensures
        r == match response {
            None => StreamStep::End,
            Some(ClientResponse::Event { event }) => StreamStep::PrintEvent(event),
            Some(ClientResponse::EndOfStream) => StreamStep::End,
            Some(ClientResponse::Error { message }) => StreamStep::Fail(message),
            Some(other) => StreamStep::Unexpected(other),
        },
{
    match response {
        None => StreamStep::End,
        Some(ClientResponse::Event { event }) => StreamStep::PrintEvent(event),
        Some(ClientResponse::EndOfStream) => StreamStep::End,
        Some(ClientResponse::Error { message }) => StreamStep::Fail(message),
        Some(other) => StreamStep::Unexpected(other),
    }
}

/// Where the next look at a session's stored events starts: behind the last that was seen.
pub fn events_seen(after_id: Option<i64>, events: &Vec<SessionEvent>) -> (r: Option<i64>)
    ensures
        r == (if events@.len() > 0 {
            Some(events@.last().id)
        } else {
            after_id
        }),
{
    if events.len() > 0 {
        Some(events[events.len() - 1].id)
    } else {
        after_id
    }
}

/// Whether a session's stored events are looked at again: while they are followed, and the session
/// runs or has just written some.
pub fn events_go_on(follow: bool, session_running: bool, any_events: bool) -> (r: bool)
    ensures
        r == (follow && (session_running || any_events)),
{
    if !follow {
        return false;
    }
    session_running || any_events
}

// ---------------------------------------------------------------------------
// Stopping a session without the daemon
// ---------------------------------------------------------------------------
/// What is done to a session without the daemon.
#[derive(Clone, Copy, Debug, PartialEq, Eq, Structural)]
pub enum KillStep {
    /// Its process is ended.
    Terminate,
    /// It is stored as ended.
    MarkExited,
    /// It is stored as one to be recovered.
    MarkRecovered,
    /// Its worktree and its logs are removed.
    RemoveArtifacts,
    /// It is forgotten.
    Forget,
}

/// What is done to a session without the daemon, and what is said at the end.
#[derive(Debug)]
pub struct KillPlan {
    pub steps: Vec<KillStep>,
    pub end: Result<Vec<String>, String>,
}

/// The name for a session that is not there.
pub fn not_found(session_id: &str) -> (r: String)
    ensures
        r@ == "session `"@ + session_id@ + "` not found"@,
{
    let mut text = "session `".to_string();
    text.append(session_id);
    text.append("` not found");
    text
}

/// What is done first to a session: it is ended where it runs, and stored as one to be recovered
/// where it only seems to.
pub open spec fn stop_steps(session: SessionRecord, running: bool) -> Seq<KillStep> {
    if running {
        seq![KillStep::Terminate, KillStep::MarkExited]
    } else if session.status == SessionStatus::Running {
        seq![KillStep::MarkRecovered]
    } else {
        seq![]
    }
}

/// What is said of a session whose commits would be lost.
pub open spec fn keeps_commits(id: Seq<char>) -> Seq<char> {
    "session `"@ + id + "` has committed changes; use `agent diff "@ + id + "` and `agent merge "@
        + id
        + "` before removing it, or reconnect to the daemon and run `agent discard "@ + id + "`"@
}

fn keeps_commits_of(id: &str) -> (r: String)
    ensures
        r@ == keeps_commits(id@),
{
    let mut text = "session `".to_string();
    text.append(id);
    text.append("` has committed changes; use `agent diff ");
    text.append(id);
    text.append("` and `agent merge ");
    text.append(id);
    text.append("` before removing it, or reconnect to the daemon and run `agent discard ");
    text.append(id);
    text.append("`");
    text
}

fn not_running(id: &str) -> (r: String)
    ensures
        r@ == "session `"@ + id@ + "` is not running"@,
{
    let mut text = "session `".to_string();
    text.append(id);
    text.append("` is not running");
    text
}

/// What is done to a session without the daemon: a session that does not run cannot be stopped,
/// and one with commits is not removed.
pub fn local_kill(session: &SessionRecord, running: bool, remove: bool) -> (r: KillPlan)
    ensures
        session.has_commits ==> !r.steps@.contains(KillStep::RemoveArtifacts) && !r.steps@.contains(
            KillStep::Forget,
        ),
        ({
            let id = session.session_id@;
            let stop = stop_steps(*session, running);
            if !running && !remove {
                &&& r.steps@ == stop
                &&& r.end matches Err(message) && message@ == "session `"@ + id
                    + "` is not running"@
            } else if remove && session.has_commits {
                &&& r.steps@ == stop
                &&& r.end matches Err(message) && message@ == keeps_commits(id)
            } else {
                &&& r.steps@ == stop + (if remove {
                    seq![KillStep::RemoveArtifacts, KillStep::Forget]
                } else {
                    seq![]
                })
                &&& r.end matches Ok(lines) && views(lines@) == kill_lines(id, running, remove)
            }
        }),
{
    let id = session.session_id.as_str();
    let mut steps: Vec<KillStep> = Vec::new();
    if running {
        steps.push(KillStep::Terminate);
        steps.push(KillStep::MarkExited);
    } else if session.status == SessionStatus::Running {
        steps.push(KillStep::MarkRecovered);
    }
    let ghost stop = stop_steps(*session, running);
    assert(steps@ =~= stop);
    if !running && !remove {
        return KillPlan { steps, end: Err(not_running(id)) };
    }
    if remove {
        if session.has_commits {
            return KillPlan { steps, end: Err(keeps_commits_of(id)) };
        }
        steps.push(KillStep::RemoveArtifacts);
        steps.push(KillStep::Forget);
        assert(steps@ =~= stop + seq![KillStep::RemoveArtifacts, KillStep::Forget]);
    } else {
        assert(steps@ =~= stop + seq![]);
    }
    KillPlan { steps, end: Ok(kill_report(id, running, remove)) }
}

} // verus!
