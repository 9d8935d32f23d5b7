//! The commands of a client: what each of them asks, and what becomes of the answer.
use crate::client::exchange::ClientRequest;
use crate::client::mode::{
    bail_daemon_command, bail_live_command, daemon_refusal, live_refusal, preparation,
    should_print_degraded_notice, works_locally, DegradedNoticeCommand, ExecutionMode, Preparation,
};
use crate::config::Config;
use crate::paths::AppPaths;
use crate::session::{
    is_session_name, validate_session_name, IntegrationPolicy, SESSION_NAME_RULES,
};
use crate::text::{joined, opt_view, starts, trim, trimmed, views};
use vstd::prelude::*;
use vstd::string::*;
use vstd::utf8::*;

verus! {

/// A command of the user.
#[derive(Debug)]
#[allow(inconsistent_fields)]
pub enum Command {
    Runtime { session_id: Option<String> },
    New { name: Option<String>, workspace: Option<String>, agent: Option<String> },
    Create { workspace: String, agent: String, name: Option<String> },
    Kill { rm: bool, session_id: String },
    Attach { session_id: String },
    Detach { session_id: Option<String>, attach: Option<String>, all: bool },
    SendInput { session_id: String, source_session_id: Option<String>, data: Vec<String> },
    Merge { session_id: Option<String> },
    Accept { session_id: String },
    Discard { session_id: String, force: bool },
    History { session_id: String, vt: bool },
    Logs { session_id: String, follow: bool },
    Events { session_id: String, follow: bool },
    List,
    Attachments { session_id: String },
    Status { session_id: String },
    Diff { session_id: String },
    WorktreeCreate { session_id: String },
    WorktreeCleanup { session_id: String },
    DaemonInfo,
    DaemonRestart { force: bool },
    DaemonUpgrade,
}

// ---------------------------------------------------------------------------
// Names and options
// ---------------------------------------------------------------------------
/// The name that is asked for: trimmed, and nothing where it is blank.
pub open spec fn requested_name(name: Option<String>) -> Option<Seq<char>> {
    match name {
        Some(name) => if trimmed(name@).len() == 0 {
            None
        } else {
            Some(trimmed(name@))
        },
        None => None,
    }
}

/// The name that is asked for, which has to be one for a session.
pub fn normalize_requested_name(name: Option<String>) -> (r: Result<Option<String>, String>)
    ensures
        match requested_name(name) {
            None => r == Ok::<Option<String>, String>(None),
            Some(wanted) => if is_session_name(wanted) {
                r matches Ok(Some(found)) && found@ == wanted
            } else {
                r matches Err(message) && message@ == "invalid session name `"@ + wanted + "`: "@
                    + SESSION_NAME_RULES@
            },
        },
{
    let wanted = match name {
        Some(name) => trim(name.as_str()),
        None => {
            return Ok(None);
        },
    };
    if wanted.as_str().unicode_len() == 0 {
        return Ok(None);
    }
    match validate_session_name(wanted.as_str()) {
        Ok(_) => Ok(Some(wanted)),
        Err(_) => {
            let mut message = "invalid session name `".to_string();
            message.append(wanted.as_str());
            message.append("`: ");
            message.append(SESSION_NAME_RULES);
            Err(message)
        },
    }
}

/// What a new session is made with.
#[derive(Debug)]
pub struct NewSessionOptions {
    pub workspace: String,
    pub name: Option<String>,
    pub agent: String,
}

/// What a new session is made with: where nothing is asked for, the directory of the client and
/// the agent of the configuration.
pub fn resolve_new_session_options(
    paths: &AppPaths,
    config: &Config,
    current_dir: Option<String>,
    workspace: Option<String>,
    name: Option<String>,
    agent: Option<String>,
) -> (r: Result<NewSessionOptions, String>)
    ensures
        if workspace is None && current_dir is None {
            r matches Err(message) && message@ == "failed to resolve current directory"@
        } else if requested_name(name) matches Some(wanted) && !is_session_name(wanted) {
            r matches Err(message) && message@ == "invalid session name `"@ + requested_name(name)->0
                + "`: "@ + SESSION_NAME_RULES@
        } else if agent is None && !config.is_consistent() {
            r matches Err(message) && message@ == "default_agent `"@ + config.default_agent@
                + "` is not configured under [agents] in "@ + paths.config@
        } else {
            r matches Ok(options) && options.workspace@ == (match workspace {
                Some(workspace) => workspace@,
                None => current_dir->0@,
            }) && opt_view(options.name) == requested_name(name) && options.agent@ == (match agent {
                Some(agent) => agent@,
                None => config.default_agent@,
            })
        },
{
    let workspace = match workspace {
        Some(workspace) => workspace,
        None => match current_dir {
            Some(dir) => dir,
            None => {
                return Err("failed to resolve current directory".to_string());
            },
        },
    };
    let name = match normalize_requested_name(name) {
        Ok(name) => name,
        Err(message) => {
            return Err(message);
        },
    };
    let agent = match agent {
        Some(agent) => agent,
        None => match config.default_agent_name(paths) {
            Ok(agent) => agent.to_string(),
            Err(error) => {
                return Err(error.message());
            },
        },
    };
    Ok(NewSessionOptions { workspace, name, agent })
}

/// What a new session with a task is made with.
#[derive(Debug)]
pub struct TaskOptions {
    pub workspace: String,
    pub task: String,
    pub agent: String,
}

/// What a new session with a task is made with: where nothing is asked for, the directory of the
/// client, no task, and the first agent of all.
pub fn resolve_task_options(
    current_dir: Option<String>,
    workspace: Option<String>,
    task: Option<String>,
    agent: Option<String>,
) -> (r: Result<TaskOptions, String>)
    ensures
        if workspace is None && current_dir is None {
            r matches Err(message) && message@ == "failed to resolve current directory"@
        } else {
            r matches Ok(options) && options.workspace@ == (match workspace {
                Some(workspace) => workspace@,
                None => current_dir->0@,
            }) && options.task@ == (match task {
                Some(task) => task@,
                None => ""@,
            }) && options.agent@ == (match agent {
                Some(agent) => agent@,
                None => "codex"@,
            })
        },
{
    let workspace = match workspace {
        Some(workspace) => workspace,
        None => match current_dir {
            Some(dir) => dir,
            None => {
                return Err("failed to resolve current directory".to_string());
            },
        },
    };
    let task = match task {
        Some(task) => task,
        None => "".to_string(),
    };
    let agent = match agent {
        Some(agent) => agent,
        None => "codex".to_string(),
    };
    Ok(TaskOptions { workspace, task, agent })
}

/// The session that a command is for: the one that is named, or the one that the client runs in.
pub fn resolve_detach_session_id(session_id: Option<String>, managed: Option<String>) -> (r: Result<
    String,
    String,
>)
    ensures
        match (session_id, managed) {
            (Some(id), _) => r == Ok::<String, String>(id),
            (None, Some(id)) => r == Ok::<String, String>(id),
            (None, None) => r matches Err(message) && message@
                == "`agent detach` without a session id only works inside a managed session"@,
        },
{
    match session_id {
        Some(id) => Ok(id),
        None => match managed {
            Some(id) => Ok(id),
            None => Err(
                "`agent detach` without a session id only works inside a managed session".to_string(),
            ),
        },
    }
}

/// The session that a command is for: the one that is named, or the one that the client runs in.
pub fn resolve_merge_session_id(session_id: Option<String>, managed: Option<String>) -> (r: Result<
    String,
    String,
>)
    ensures
        match (session_id, managed) {
            (Some(id), _) => r == Ok::<String, String>(id),
            (None, Some(id)) => r == Ok::<String, String>(id),
            (None, None) => r matches Err(message) && message@
                == "`agent merge` without a session id only works inside a managed session"@,
        },
{
    match session_id {
        Some(id) => Ok(id),
        None => match managed {
            Some(id) => Ok(id),
            None => Err(
                "`agent merge` without a session id only works inside a managed session".to_string(),
            ),
        },
    }
}

/// The request that detaches: all clients of a session, or one of them.
pub fn detach_request(session_id: String, attach: Option<String>, all: bool) -> (r: Result<
    ClientRequest,
    String,
>)
    ensures
        match (all, attach) {
            (true, None) => r == Ok::<ClientRequest, String>(
                ClientRequest::DetachSession { session_id },
            ),
            (false, Some(attach_id)) => r == Ok::<ClientRequest, String>(
                ClientRequest::DetachAttachment { session_id, attach_id },
            ),
            (true, Some(_)) => r matches Err(message) && message@
                == "use either `--all` or `--attach <attach_id>`, not both"@,
            (false, None) => r matches Err(message) && message@
                == "shared attach requires either `--all` or `--attach <attach_id>`; use Ctrl-\\ to detach the local client"@,
        },
{
    match (all, attach) {
        (true, None) => Ok(ClientRequest::DetachSession { session_id }),
        (false, Some(attach_id)) => Ok(ClientRequest::DetachAttachment { session_id, attach_id }),
        (true, Some(_)) => Err(
            "use either `--all` or `--attach <attach_id>`, not both".to_string(),
        ),
        (false, None) => Err(
            "shared attach requires either `--all` or `--attach <attach_id>`; use Ctrl-\\ to detach the local client".to_string(),
        ),
    }
}

/// The words of an input, with one blank between them.
pub fn input_text(data: &Vec<String>) -> (r: String)
    ensures
        r@ == joined(views(data@), " "@),
{
    let mut text = String::new();
    let mut i: usize = 0;
    let ghost words = views(data@);
    assert(words.take(0) =~= Seq::empty());
    assert(text@ =~= joined(words.take(0), " "@));
    while i < data.len()
        invariant
            i <= data.len(),
            words == views(data@),
            text@ == joined(words.take(i as int), " "@),
        decreases data.len() - i,
    {
        assert(words.take(i as int + 1).drop_last() =~= words.take(i as int));
        assert(words[i as int] == data@[i as int]@);
        let ghost before = text@;
        if i > 0 {
            text.append(" ");
        }
        text.append(data[i].as_str());
        assert(i == 0 ==> text@ =~= words[0]);
        i = i + 1;
    }
    assert(words.take(i as int) =~= words);
    text
}

// ---------------------------------------------------------------------------
// From a command to what is done
// ---------------------------------------------------------------------------
/// What is done with the answer to a request.
#[derive(Debug)]
pub enum Then {
    Attach,
    ReportCreated,
    ReportKilled(String),
    ReportDetached(String),
    Nothing,
    ReportSession,
    ReportDiff,
    ReportWorktree,
    ReportCleanup,
    ListSessions,
    ListAttachments,
    ShowHistory,
}

/// What a command does first.
#[derive(Debug)]
pub enum Step {
    /// A session is picked, or the given one taken, and attached to.
    Run(Option<String>),
    /// A session is attached to.
    AttachTo(String),
    /// The options of a new session are settled, and it is asked for.
    StartNew { name: Option<String>, workspace: Option<String>, agent: Option<String> },
    /// The daemon is asked.
    Ask(ClientRequest, Then),
    /// What a session writes is shown as it comes.
    Stream(ClientRequest),
    /// A session is stopped without the daemon; the user is told so, or not.
    LocalKill { session_id: String, remove: bool, notice: bool },
    /// Sessions are listed without the daemon.
    LocalList { notice: bool },
    /// A session is shown without the daemon.
    LocalStatus { session_id: String, notice: bool },
    /// A log is shown without the daemon.
    LocalLogs { session_id: String, follow: bool },
    /// What happened in a session is shown without the daemon.
    LocalEvents { session_id: String, follow: bool },
    DaemonInfo,
    DaemonRestart { force: bool },
    DaemonUpgrade,
}

/// What is said of a command that cannot be carried out without the daemon; nothing where it can.
pub open spec fn local_refusal(command: Option<Command>, reason: Seq<char>) -> Option<Seq<char>> {
    match command {
        None => Some(daemon_refusal(reason, "agent"@)),
        Some(Command::Runtime { .. }) => Some(daemon_refusal(reason, "agent runtime"@)),
        Some(Command::New { .. }) => Some(live_refusal(reason)),
        Some(Command::Create { .. }) => Some(live_refusal(reason)),
        Some(Command::Attach { .. }) => Some(live_refusal(reason)),
        Some(Command::Detach { .. }) => Some(live_refusal(reason)),
        Some(Command::SendInput { .. }) => Some(live_refusal(reason)),
        Some(Command::Discard { .. }) => Some(live_refusal(reason)),
        Some(Command::Merge { .. }) => Some(daemon_refusal(reason, "agent merge"@)),
        Some(Command::Accept { .. }) => Some(daemon_refusal(reason, "agent accept"@)),
        Some(Command::History { .. }) => Some(daemon_refusal(reason, "agent history"@)),
        Some(Command::Attachments { .. }) => Some(daemon_refusal(reason, "agent attachments"@)),
        Some(Command::Diff { .. }) => Some(
            reason
                + ". `agent diff` requires a compatible daemon; use `agent sessions` and `agent kill` to recover first"@,
        ),
        Some(Command::WorktreeCreate { .. }) => Some(
            reason
                + ". worktree management requires a compatible daemon or a manual cleanup flow"@,
        ),
        Some(Command::WorktreeCleanup { .. }) => Some(
            reason
                + ". worktree management requires a compatible daemon or a manual cleanup flow"@,
        ),
        Some(Command::DaemonInfo) => Some(
            reason + ". daemon management requires a reachable daemon"@,
        ),
        Some(Command::DaemonRestart { .. }) => Some(
            reason + ". daemon management requires a reachable daemon"@,
        ),
        Some(Command::DaemonUpgrade) => Some(
            reason + ". daemon management requires a reachable daemon"@,
        ),
        _ => None,
    }
}

/// Whether a step is what a command does without the daemon.
pub open spec fn is_local_step(step: Step, command: Option<Command>, reason: Seq<char>) -> bool {
    match command {
        Some(Command::Kill { rm, session_id }) => step == (Step::LocalKill {
            session_id,
            remove: rm,
            notice: !starts(reason, "agentd could not be queried:"@),
        }),
        Some(Command::List) => step == (Step::LocalList { notice: true }),
        Some(Command::Status { session_id }) => step == (Step::LocalStatus {
            session_id,
            notice: true,
        }),
        Some(Command::Logs { session_id, follow }) => step == (Step::LocalLogs {
            session_id,
            follow,
        }),
        Some(Command::Events { session_id, follow }) => step == (Step::LocalEvents {
            session_id,
            follow,
        }),
        _ => false,
    }
}

fn with_end(reason: &str, end: &str) -> (r: String)
    ensures
        r@ == reason@ + end@,
{
    let mut text = reason.to_string();
    text.append(end);
    text
}

/// What a command does without the daemon.
pub fn plan_locally(command: Option<Command>, reason: &str) -> (r: Result<Step, String>)
    ensures
        match local_refusal(command, reason@) {
            Some(text) => r matches Err(message) && message@ == text,
            None => r matches Ok(step) && is_local_step(step, command, reason@),
        },
{
    let command = match command {
        None => {
            return Err(bail_daemon_command(reason, "agent"));
        },
        Some(command) => command,
    };
    match command {
        Command::Kill { rm, session_id } => Ok(
            Step::LocalKill {
                session_id,
                remove: rm,
                notice: should_print_degraded_notice(DegradedNoticeCommand::Kill, reason),
            },
        ),
        Command::List => Ok(
            Step::LocalList {
                notice: should_print_degraded_notice(DegradedNoticeCommand::List, reason),
            },
        ),
        Command::Status { session_id } => Ok(
            Step::LocalStatus {
                session_id,
                notice: should_print_degraded_notice(DegradedNoticeCommand::Status, reason),
            },
        ),
        Command::Logs { session_id, follow } => Ok(Step::LocalLogs { session_id, follow }),
        Command::Events { session_id, follow } => Ok(Step::LocalEvents { session_id, follow }),
        Command::Runtime { .. } => Err(bail_daemon_command(reason, "agent runtime")),
        Command::Merge { .. } => Err(bail_daemon_command(reason, "agent merge")),
        Command::Accept { .. } => Err(bail_daemon_command(reason, "agent accept")),
        Command::History { .. } => Err(bail_daemon_command(reason, "agent history")),
        Command::Attachments { .. } => Err(bail_daemon_command(reason, "agent attachments")),
        Command::Diff { .. } => Err(
            with_end(
                reason,
                ". `agent diff` requires a compatible daemon; use `agent sessions` and `agent kill` to recover first",
            ),
        ),
        Command::WorktreeCreate { .. } | Command::WorktreeCleanup { .. } => Err(
            with_end(
                reason,
                ". worktree management requires a compatible daemon or a manual cleanup flow",
            ),
        ),
        Command::DaemonInfo | Command::DaemonRestart { .. } | Command::DaemonUpgrade => Err(
            with_end(reason, ". daemon management requires a reachable daemon"),
        ),
        Command::New { .. }
        | Command::Create { .. }
        | Command::Attach { .. }
        | Command::Detach { .. }
        | Command::SendInput { .. }
        | Command::Discard { .. } => Err(bail_live_command(reason)),
    }
}

/// The session that a command without a name is for.
pub open spec fn session_or_managed(session_id: Option<String>, managed: Option<String>) -> Option<
    String,
> {
    match session_id {
        Some(id) => Some(id),
        None => managed,
    }
}

/// What is wrong with a command that the daemon would carry out; nothing where all is well.
pub open spec fn daemon_refusal_of(command: Option<Command>, managed: Option<String>) -> Option<
    Seq<char>,
> {
    match command {
        Some(Command::Create { workspace, agent, name }) => match requested_name(name) {
            Some(wanted) => if is_session_name(wanted) {
                None
            } else {
                Some("invalid session name `"@ + wanted + "`: "@ + SESSION_NAME_RULES@)
            },
            None => None,
        },
        Some(Command::Detach { session_id, attach, all }) => if session_or_managed(
            session_id,
            managed,
        ) is None {
            Some("`agent detach` without a session id only works inside a managed session"@)
        } else if all && attach is Some {
            Some("use either `--all` or `--attach <attach_id>`, not both"@)
        } else if !all && attach is None {
            Some(
                "shared attach requires either `--all` or `--attach <attach_id>`; use Ctrl-\\ to detach the local client"@,
            )
        } else {
            None
        },
        Some(Command::Merge { session_id }) => if session_or_managed(session_id, managed) is None {
            Some("`agent merge` without a session id only works inside a managed session"@)
        } else {
            None
        },
        _ => None,
    }
}

/// Whether a step is what a command without fault does with the daemon.
pub open spec fn is_daemon_step(
    step: Step,
    command: Option<Command>,
    managed: Option<String>,
) -> bool {
    match command {
        None => step == Step::Run(None),
        Some(Command::Runtime { session_id }) => step == Step::Run(session_id),
        Some(Command::New { name, workspace, agent }) => step == (Step::StartNew {
            name,
            workspace,
            agent,
        }),
        Some(Command::Create { workspace, agent, name }) => step matches Step::Ask(
            ClientRequest::CreateSession {
                workspace: asked,
                name: named,
                agent: chosen,
                model,
                integration_policy,
            },
            Then::ReportCreated,
        ) && asked == workspace && chosen == agent && opt_view(named) == requested_name(name)
            && model is None && integration_policy == IntegrationPolicy::ManualReview,
        Some(Command::Kill { rm, session_id }) => step matches Step::Ask(
            request,
            Then::ReportKilled(id),
        ) && request == (ClientRequest::KillSession { session_id, remove: rm }) && id@
            == session_id@,
        Some(Command::Attach { session_id }) => step == Step::AttachTo(session_id),
        Some(Command::Detach { session_id, attach, all }) => {
            let target = session_or_managed(session_id, managed)->0;
            step matches Step::Ask(request, Then::ReportDetached(id)) && id@ == target@ && request
                == (match attach {
                Some(attach_id) => ClientRequest::DetachAttachment {
                    session_id: target,
                    attach_id,
                },
                None => ClientRequest::DetachSession { session_id: target },
            })
        },
        Some(Command::SendInput { session_id, source_session_id, data }) => step matches Step::Ask(
            ClientRequest::SendInput { session_id: asked, data: sent, source_session_id: source },
            Then::Nothing,
        ) && asked == session_id && source == source_session_id && sent@ == encode_utf8(
            joined(views(data@), " "@),
        ),
        Some(Command::Merge { session_id }) => step == Step::Ask(
            ClientRequest::ApplySession { session_id: session_or_managed(session_id, managed)->0 },
            Then::ReportSession,
        ),
        Some(Command::Accept { session_id }) => step == Step::Ask(
            ClientRequest::ApplySession { session_id },
            Then::ReportSession,
        ),
        Some(Command::Discard { session_id, force }) => step == Step::Ask(
            ClientRequest::DiscardSession { session_id, force },
            Then::ReportSession,
        ),
        Some(Command::History { session_id, vt }) => step == Step::Ask(
            ClientRequest::GetHistory { session_id, vt },
            Then::ShowHistory,
        ),
        Some(Command::Logs { session_id, follow }) => step == Step::Stream(
            ClientRequest::StreamLogs { session_id, follow },
        ),
        Some(Command::Events { session_id, follow }) => step == Step::Stream(
            ClientRequest::StreamEvents { session_id, follow },
        ),
        Some(Command::List) => step == Step::Ask(ClientRequest::ListSessions, Then::ListSessions),
        Some(Command::Attachments { session_id }) => step == Step::Ask(
            ClientRequest::ListAttachments { session_id },
            Then::ListAttachments,
        ),
        Some(Command::Status { session_id }) => step == Step::Ask(
            ClientRequest::GetSession { session_id },
            Then::ReportSession,
        ),
        Some(Command::Diff { session_id }) => step == Step::Ask(
            ClientRequest::DiffSession { session_id },
            Then::ReportDiff,
        ),
        Some(Command::WorktreeCreate { session_id }) => step == Step::Ask(
            ClientRequest::CreateWorktree { session_id },
            Then::ReportWorktree,
        ),
        Some(Command::WorktreeCleanup { session_id }) => step == Step::Ask(
            ClientRequest::CleanupWorktree { session_id },
            Then::ReportCleanup,
        ),
        Some(Command::DaemonInfo) => step == Step::DaemonInfo,
        Some(Command::DaemonRestart { force }) => step == (Step::DaemonRestart { force }),
        Some(Command::DaemonUpgrade) => step == Step::DaemonUpgrade,
    }
}

/// What a command does with the daemon. `managed` is the session that the client runs in.
pub fn plan_with_daemon(command: Option<Command>, managed: Option<String>) -> (r: Result<
    Step,
    String,
>)
    ensures
        match daemon_refusal_of(command, managed) {
            Some(text) => r matches Err(message) && message@ == text,
            None => r matches Ok(step) && is_daemon_step(step, command, managed),
        },
{
    let command = match command {
        None => {
            return Ok(Step::Run(None));
        },
        Some(command) => command,
    };
    match command {
        Command::Runtime { session_id } => Ok(Step::Run(session_id)),
        Command::New { name, workspace, agent } => Ok(Step::StartNew { name, workspace, agent }),
        Command::Create { workspace, agent, name } => {
            let name = match normalize_requested_name(name) {
                Ok(name) => name,
                Err(message) => {
                    return Err(message);
                },
            };
            Ok(
                Step::Ask(
                    ClientRequest::CreateSession {
                        workspace,
                        name,
                        agent,
                        model: None,
                        integration_policy: IntegrationPolicy::ManualReview,
                    },
                    Then::ReportCreated,
                ),
            )
        },
        Command::Kill { rm, session_id } => {
            let id = session_id.clone();
            Ok(
                Step::Ask(
                    ClientRequest::KillSession { session_id, remove: rm },
                    Then::ReportKilled(id),
                ),
            )
        },
        Command::Attach { session_id } => Ok(Step::AttachTo(session_id)),
        Command::Detach { session_id, attach, all } => {
            let target = match resolve_detach_session_id(session_id, managed) {
                Ok(target) => target,
                Err(message) => {
                    return Err(message);
                },
            };
            let id = target.clone();
            match detach_request(target, attach, all) {
                Ok(request) => Ok(Step::Ask(request, Then::ReportDetached(id))),
                Err(message) => Err(message),
            }
        },
        Command::SendInput { session_id, source_session_id, data } => {
            let text = input_text(&data);
            let data = text.as_str().as_bytes_vec();
            Ok(
                Step::Ask(
                    ClientRequest::SendInput { session_id, data, source_session_id },
                    Then::Nothing,
                ),
            )
        },
        Command::Merge { session_id } => {
            match resolve_merge_session_id(session_id, managed) {
                Ok(session_id) => Ok(
                    Step::Ask(ClientRequest::ApplySession { session_id }, Then::ReportSession),
                ),
                Err(message) => Err(message),
            }
        },
        Command::Accept { session_id } => Ok(
            Step::Ask(ClientRequest::ApplySession { session_id }, Then::ReportSession),
        ),
        Command::Discard { session_id, force } => Ok(
            Step::Ask(ClientRequest::DiscardSession { session_id, force }, Then::ReportSession),
        ),
        Command::History { session_id, vt } => Ok(
            Step::Ask(ClientRequest::GetHistory { session_id, vt }, Then::ShowHistory),
        ),
        Command::Logs { session_id, follow } => Ok(
            Step::Stream(ClientRequest::StreamLogs { session_id, follow }),
        ),
        Command::Events { session_id, follow } => Ok(
            Step::Stream(ClientRequest::StreamEvents { session_id, follow }),
        ),
        Command::List => Ok(Step::Ask(ClientRequest::ListSessions, Then::ListSessions)),
        Command::Attachments { session_id } => Ok(
            Step::Ask(ClientRequest::ListAttachments { session_id }, Then::ListAttachments),
        ),
        Command::Status { session_id } => Ok(
            Step::Ask(ClientRequest::GetSession { session_id }, Then::ReportSession),
        ),
        Command::Diff { session_id } => Ok(
            Step::Ask(ClientRequest::DiffSession { session_id }, Then::ReportDiff),
        ),
        Command::WorktreeCreate { session_id } => Ok(
            Step::Ask(ClientRequest::CreateWorktree { session_id }, Then::ReportWorktree),
        ),
        Command::WorktreeCleanup { session_id } => Ok(
            Step::Ask(ClientRequest::CleanupWorktree { session_id }, Then::ReportCleanup),
        ),
        Command::DaemonInfo => Ok(Step::DaemonInfo),
        Command::DaemonRestart { force } => Ok(Step::DaemonRestart { force }),
        Command::DaemonUpgrade => Ok(Step::DaemonUpgrade),
    }
}

/// What a command does first.
pub fn plan(command: Option<Command>, mode: ExecutionMode, managed: Option<String>) -> (r: Result<
    Step,
    String,
>)
    ensures
        match mode {
            ExecutionMode::Local(reason) => match local_refusal(command, reason@) {
                Some(text) => r matches Err(message) && message@ == text,
                None => r matches Ok(step) && is_local_step(step, command, reason@),
            },
            ExecutionMode::Daemon => match daemon_refusal_of(command, managed) {
                Some(text) => r matches Err(message) && message@ == text,
                None => r matches Ok(step) && is_daemon_step(step, command, managed),
            },
        },
{
    match mode {
        ExecutionMode::Local(reason) => plan_locally(command, reason.as_str()),
        ExecutionMode::Daemon => plan_with_daemon(command, managed),
    }
}

/// The request for a new session.
pub fn new_session_step(options: NewSessionOptions) -> (r: Step)
    ensures
        r == Step::Ask(
            ClientRequest::CreateSession {
                workspace: options.workspace,
                name: options.name,
                agent: options.agent,
                model: None,
                integration_policy: IntegrationPolicy::ManualReview,
            },
            Then::Attach,
        ),
{
    Step::Ask(
        ClientRequest::CreateSession {
            workspace: options.workspace,
            name: options.name,
            agent: options.agent,
            model: None,
            integration_policy: IntegrationPolicy::ManualReview,
        },
        Then::Attach,
    )
}

// ---------------------------------------------------------------------------
// Laws
// ---------------------------------------------------------------------------
/// Without the daemon, a command is refused exactly where it needs the daemon; and then the reason
/// stands at the start of what is said.
pub proof fn refused_without_the_daemon(command: Option<Command>, reason: Seq<char>)
    ensures
        local_refusal(command, reason) is None <==> works_locally(command),
        local_refusal(command, reason) matches Some(text) ==> starts(text, reason),
{
    if let Some(text) = local_refusal(command, reason) {
        assert(text.take(reason.len() as int) =~= reason);
    }
}

/// Every command is either asked of the daemon, or prepared without asking it whether it answers:
/// only what can be carried out without the daemon is ever done without it.
pub proof fn only_local_commands_ask(command: Option<Command>)
    ensures
        preparation(command) == Preparation::AskDaemon <==> works_locally(command),
{
}

} // verus!
