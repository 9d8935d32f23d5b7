//! What each command of a client asks of the daemon, and what none of them asks.
use crate::client::command::{
    daemon_refusal_of, is_daemon_step, is_local_step, local_refusal, Command, Step, Then,
};
use crate::client::exchange::ClientRequest;
use crate::client::mode::{preparation, Preparation};
use crate::session::{is_session_name, IntegrationPolicy};
use crate::text::{starts, trimmed};
use vstd::prelude::*;
use vstd::string::*;

verus! {

/// The session that a request is for; nothing where it is for none.
pub open spec fn session_asked_for(request: ClientRequest) -> Option<String> {
    match request {
        ClientRequest::KillSession { session_id, .. } => Some(session_id),
        ClientRequest::AttachSession { session_id, .. } => Some(session_id),
        ClientRequest::DetachSession { session_id } => Some(session_id),
        ClientRequest::DetachAttachment { session_id, .. } => Some(session_id),
        ClientRequest::SendInput { session_id, .. } => Some(session_id),
        ClientRequest::ApplySession { session_id } => Some(session_id),
        ClientRequest::DiscardSession { session_id, .. } => Some(session_id),
        ClientRequest::GetHistory { session_id, .. } => Some(session_id),
        ClientRequest::StreamLogs { session_id, .. } => Some(session_id),
        ClientRequest::StreamEvents { session_id, .. } => Some(session_id),
        ClientRequest::ListAttachments { session_id } => Some(session_id),
        ClientRequest::GetSession { session_id } => Some(session_id),
        ClientRequest::DiffSession { session_id } => Some(session_id),
        ClientRequest::CreateWorktree { session_id } => Some(session_id),
        ClientRequest::CleanupWorktree { session_id } => Some(session_id),
        _ => None,
    }
}

/// The session that a command names.
pub open spec fn session_named(command: Command) -> Option<String> {
    match command {
        Command::Runtime { session_id } => session_id,
        Command::Kill { session_id, .. } => Some(session_id),
        Command::Attach { session_id } => Some(session_id),
        Command::Detach { session_id, .. } => session_id,
        Command::SendInput { session_id, .. } => Some(session_id),
        Command::Merge { session_id } => session_id,
        Command::Accept { session_id } => Some(session_id),
        Command::Discard { session_id, .. } => Some(session_id),
        Command::History { session_id, .. } => Some(session_id),
        Command::Logs { session_id, .. } => Some(session_id),
        Command::Events { session_id, .. } => Some(session_id),
        Command::Attachments { session_id } => Some(session_id),
        Command::Status { session_id } => Some(session_id),
        Command::Diff { session_id } => Some(session_id),
        Command::WorktreeCreate { session_id } => Some(session_id),
        Command::WorktreeCleanup { session_id } => Some(session_id),
        _ => None,
    }
}

/// Whether a request only reads what the daemon knows.
pub open spec fn only_reads(request: ClientRequest) -> bool {
    match request {
        ClientRequest::GetDaemonInfo => true,
        ClientRequest::GetHistory { .. } => true,
        ClientRequest::StreamLogs { .. } => true,
        ClientRequest::StreamEvents { .. } => true,
        ClientRequest::ListSessions => true,
        ClientRequest::ListAttachments { .. } => true,
        ClientRequest::GetSession { .. } => true,
        ClientRequest::DiffSession { .. } => true,
        _ => false,
    }
}

/// Whether a command only shows something.
pub open spec fn only_shows(command: Command) -> bool {
    match command {
        Command::History { .. } => true,
        Command::Logs { .. } => true,
        Command::Events { .. } => true,
        Command::List => true,
        Command::Attachments { .. } => true,
        Command::Status { .. } => true,
        Command::Diff { .. } => true,
        Command::DaemonInfo => true,
        _ => false,
    }
}

/// The request that a step sends.
pub open spec fn request_of(step: Step) -> Option<ClientRequest> {
    match step {
        Step::Ask(request, _) => Some(request),
        Step::Stream(request) => Some(request),
        _ => None,
    }
}

/// What changes a session is asked for by the command of that name alone: the changes of a session
/// are thrown away by `discard` with the force that the user gave, it is stopped by `kill` and
/// removed as the user said, and it is merged by `merge` and `accept`. Clients are detached by
/// `detach`, input is sent by `send-input`, sessions are made by `create` and worktrees are made and
/// taken away by their own commands. No command asks the daemon to stop, or for the terminal of a
/// session, by such a request.
pub proof fn requests_come_from_their_commands(
    step: Step,
    command: Option<Command>,
    managed: Option<String>,
    request: ClientRequest,
)
    requires
        daemon_refusal_of(command, managed) is None,
        is_daemon_step(step, command, managed),
        request_of(step) == Some(request),
    ensures
        match request {
            ClientRequest::DiscardSession { session_id, force } => command == Some(
                Command::Discard { session_id, force },
            ),
            ClientRequest::KillSession { session_id, remove } => command == Some(
                Command::Kill { rm: remove, session_id },
            ),
            ClientRequest::ApplySession { session_id } => command == Some(
                Command::Accept { session_id },
            ) || command == Some(Command::Merge { session_id: Some(session_id) }) || command == Some(
                Command::Merge { session_id: None },
            ) && managed == Some(session_id),
            ClientRequest::DetachSession { .. } => command matches Some(
                Command::Detach { all, attach, .. },
            ) && all && attach is None,
            ClientRequest::DetachAttachment { attach_id, .. } => command matches Some(
                Command::Detach { all, attach, .. },
            ) && !all && attach == Some(attach_id),
            ClientRequest::SendInput { source_session_id: from, .. } => command matches Some(
                Command::SendInput { source_session_id, .. },
            ) && from == source_session_id,
            ClientRequest::CreateSession {
                workspace: asked,
                agent: chosen,
                name: named,
                model,
                integration_policy,
            } => command matches Some(Command::Create { workspace, agent, name }) && asked
                == workspace && chosen == agent && model is None && integration_policy
                == IntegrationPolicy::ManualReview && (named is Some <==> name is Some && trimmed(
                name->0@,
            ).len() > 0) && (named is Some ==> named->0@ == trimmed(name->0@)),
            ClientRequest::CreateWorktree { session_id } => command == Some(
                Command::WorktreeCreate { session_id },
            ),
            ClientRequest::CleanupWorktree { session_id } => command == Some(
                Command::WorktreeCleanup { session_id },
            ),
            ClientRequest::GetHistory { session_id, vt } => command == Some(
                Command::History { session_id, vt },
            ),
            ClientRequest::StreamLogs { session_id, follow } => command == Some(
                Command::Logs { session_id, follow },
            ),
            ClientRequest::StreamEvents { session_id, follow } => command == Some(
                Command::Events { session_id, follow },
            ),
            ClientRequest::ListSessions => command == Some(Command::List),
            ClientRequest::ListAttachments { session_id } => command == Some(
                Command::Attachments { session_id },
            ),
            ClientRequest::GetSession { session_id } => command == Some(
                Command::Status { session_id },
            ),
            ClientRequest::DiffSession { session_id } => command == Some(
                Command::Diff { session_id },
            ),
            _ => false,
        },
{
}

/// A request is for the session that the command names, or for the one that the client runs in where
/// the command names none. A command that only shows something asks for nothing that changes
/// anything.
pub proof fn requests_are_for_the_session_named(
    step: Step,
    command: Command,
    managed: Option<String>,
    request: ClientRequest,
)
    requires
        daemon_refusal_of(Some(command), managed) is None,
        is_daemon_step(step, Some(command), managed),
        request_of(step) == Some(request),
    ensures
        session_asked_for(request) is Some ==> session_asked_for(request) == (if session_named(
            command,
        ) is Some {
            session_named(command)
        } else {
            managed
        }),
        session_named(command) is Some ==> session_asked_for(request) == session_named(command),
        only_shows(command) ==> only_reads(request),
        command is Kill || command is Detach || command is SendInput || command is Merge || command
            is Accept || command is Discard || command is WorktreeCreate || command
            is WorktreeCleanup || command is Create ==> !only_reads(request),
{
}

/// Every command that acts on a session through the daemon sends a request, and those that attach
/// or manage the daemon do not. What attaches goes to the session that was named.
pub proof fn commands_are_carried_out(step: Step, command: Command, managed: Option<String>)
    requires
        daemon_refusal_of(Some(command), managed) is None,
        is_daemon_step(step, Some(command), managed),
    ensures
        request_of(step) is None <==> command is Runtime || command is New || command is Attach
            || command is DaemonInfo || command is DaemonRestart || command is DaemonUpgrade,
        step is Stream <==> command is Logs || command is Events,
        command matches Command::Attach { session_id } ==> step == Step::AttachTo(session_id),
        command matches Command::Runtime { session_id } ==> step == Step::Run(session_id),
        command matches Command::New { name, workspace, agent } ==> step == (Step::StartNew {
            name,
            workspace,
            agent,
        }),
        command matches Command::DaemonRestart { force } ==> step == (Step::DaemonRestart { force }),
        command is DaemonInfo <==> step == Step::DaemonInfo,
        command is DaemonUpgrade <==> step == Step::DaemonUpgrade,
        step is AttachTo <==> command is Attach,
        !(step is LocalKill || step is LocalList || step is LocalStatus || step is LocalLogs || step
            is LocalEvents),
{
}

/// What is done with an answer fits what was asked: a session that was merged, discarded or looked
/// up is reported, a list is listed, a history shown, and what was stopped or detached is named.
pub proof fn answers_are_used_for_what_was_asked(
    request: ClientRequest,
    then: Then,
    command: Option<Command>,
    managed: Option<String>,
)
    requires
        daemon_refusal_of(command, managed) is None,
        is_daemon_step(Step::Ask(request, then), command, managed),
    ensures
        then is ReportSession <==> request is ApplySession || request is DiscardSession || request
            is GetSession,
        then is ReportDiff <==> request is DiffSession,
        then is ReportWorktree <==> request is CreateWorktree,
        then is ReportCleanup <==> request is CleanupWorktree,
        then is ListSessions <==> request is ListSessions,
        then is ListAttachments <==> request is ListAttachments,
        then is ShowHistory <==> request is GetHistory,
        then is Nothing <==> request is SendInput,
        then is ReportCreated <==> request is CreateSession,
        then is ReportKilled <==> request is KillSession,
        then is ReportDetached <==> request is DetachSession || request is DetachAttachment,
        then matches Then::ReportKilled(id) ==> session_asked_for(request) is Some && id@
            == session_asked_for(request)->0@,
        then matches Then::ReportDetached(id) ==> session_asked_for(request) is Some && id@
            == session_asked_for(request)->0@,
        !(then is Attach),
{
}

/// `accept` asks exactly what `merge` asks for the same session, and `merge` without a name within
/// a session is `merge` of that session.
pub proof fn accepting_is_merging(step: Step, id: String, managed: Option<String>)
    ensures
        is_daemon_step(step, Some(Command::Accept { session_id: id }), managed) <==> is_daemon_step(
            step,
            Some(Command::Merge { session_id: Some(id) }),
            managed,
        ),
        is_daemon_step(step, Some(Command::Merge { session_id: None }), Some(id))
            <==> is_daemon_step(step, Some(Command::Accept { session_id: id }), None),
        daemon_refusal_of(Some(Command::Accept { session_id: id }), managed) is None,
        daemon_refusal_of(Some(Command::Merge { session_id: Some(id) }), managed) is None,
        daemon_refusal_of(Some(Command::Merge { session_id: None }), Some(id)) is None,
        daemon_refusal_of(Some(Command::Merge { session_id: None }), None) is Some,
{
}

/// With the daemon, a command is refused where it creates a session under a name that none may
/// have, where it detaches or merges without a session, and where it is unclear which clients it
/// detaches; never otherwise.
pub proof fn faulty_commands_are_refused(command: Option<Command>, managed: Option<String>)
    ensures
        daemon_refusal_of(command, managed) is Some <==> match command {
            Some(Command::Create { name, .. }) => name is Some && trimmed(name->0@).len() > 0
                && !is_session_name(trimmed(name->0@)),
            Some(Command::Detach { session_id, attach, all }) => session_id is None && managed
                is None || all == (attach is Some),
            Some(Command::Merge { session_id }) => session_id is None && managed is None,
            _ => false,
        },
{
}

/// Without the daemon, sessions are stopped, listed and shown and their logs and events read, as
/// the command says; everything else is refused, and the reason is told first. Nothing is asked
/// of the daemon then.
pub proof fn commands_without_the_daemon(step: Step, command: Option<Command>, reason: Seq<char>)
    ensures
        local_refusal(command, reason) is None <==> match command {
            Some(c) => c is Kill || c is Logs || c is Events || c is List || c is Status,
            None => false,
        },
        local_refusal(command, reason) matches Some(text) ==> starts(text, reason) && text.len()
            > reason.len(),
        is_local_step(step, command, reason) ==> request_of(step) is None && match step {
            Step::LocalKill { session_id, remove, notice } => command == Some(
                Command::Kill { rm: remove, session_id },
            ) && (notice <==> !starts(reason, "agentd could not be queried:"@)),
            Step::LocalList { notice } => command == Some(Command::List) && notice,
            Step::LocalStatus { session_id, notice } => command == Some(
                Command::Status { session_id },
            ) && notice,
            Step::LocalLogs { session_id, follow } => command == Some(
                Command::Logs { session_id, follow },
            ),
            Step::LocalEvents { session_id, follow } => command == Some(
                Command::Events { session_id, follow },
            ),
            _ => false,
        },
{
    crate::client::command::refused_without_the_daemon(command, reason);
    if let Some(text) = local_refusal(command, reason) {
        reveal_strlit(". `");
        reveal_strlit("` requires a compatible daemon");
        reveal_strlit(
            ". this command needs a compatible daemon with a live PTY; use `agent sessions` and `agent kill` first",
        );
        reveal_strlit(
            ". `agent diff` requires a compatible daemon; use `agent sessions` and `agent kill` to recover first",
        );
        reveal_strlit(
            ". worktree management requires a compatible daemon or a manual cleanup flow",
        );
        reveal_strlit(". daemon management requires a reachable daemon");
    }
}

/// The daemon is asked first, and done without if it does not answer, for the commands that work
/// without it. It is only started for its own information and restart, left as it is for an
/// upgrade, and required to answer for everything else.
pub proof fn daemon_is_prepared_for_a_command(command: Option<Command>)
    ensures
        match preparation(command) {
            Preparation::UseDaemon => command matches Some(Command::DaemonUpgrade),
            Preparation::StartDaemon => command matches Some(c) && (c is DaemonInfo || c
                is DaemonRestart),
            Preparation::AskDaemon => command matches Some(c) && (c is Kill || c is Logs || c
                is Events || c is List || c is Status),
            Preparation::RequireDaemon => match command {
                Some(c) => !(c is Kill || c is Logs || c is Events || c is List || c is Status || c
                    is DaemonInfo || c is DaemonRestart || c is DaemonUpgrade),
                None => true,
            },
        },
{
}

} // verus!
