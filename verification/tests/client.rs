use agentd::attach_input::{
    AttachInputAction, AttachInputParser, ATTACH_DETACH_BYTE, ATTACH_NEXT_SESSION_BYTE,
};
use agentd::client::answer::{
    answer, event_step, events_go_on, events_seen, local_kill, log_step, not_found, Answer,
    KillStep, StreamStep,
};
use agentd::client::attach::{
    adjacent_live_session_id, adjacent_live_session_id_in, after_attachment, attach_action,
    attach_handshake, attach_response, attach_startup_bytes, attach_target, attached_notice,
    format_attach_title, format_session_end_summary, opening_request, read_attach_stdin, terminal_title_bytes,
    AttachClient, AttachEvent, AttachHandshake, AttachInput, AttachNext, AttachOutcome, AttachSessionDirection, AttachStep,
    AGENTD_ATTACH_ENTER_SEQUENCE, AGENTD_ATTACH_EXIT_TITLE, AGENTD_ATTACH_RESTORE_SEQUENCE,
};
use agentd::client::command::{
    new_session_step, plan, resolve_detach_session_id, resolve_merge_session_id,
    resolve_new_session_options, resolve_task_options, Command, NewSessionOptions, Step, Then,
};
use agentd::client::daemon::{
    check_compatible, check_replaceable, check_replaced, check_restart, check_stale_daemon,
    check_upgrade, daemon_has_running_sessions, daemon_info, daemon_pid, daemon_pid_to_end,
    management_shutdown, management_status, plain_shutdown, wait_for_daemon, Reply, ReplyFault,
    ShutdownNext,
};
use agentd::client::diff_text::{render_diff_text, should_colorize_diff_output};
use agentd::client::exchange::{
    from_wire, to_wire, ClientRequest, ClientResponse, SessionEndSummary,
};
use agentd::client::lifecycle::{Replacement, ReplacementEvent, Restart, RestartEvent};
use agentd::client::mode::{
    bail_daemon_command, bail_live_command, command_supports_local_mode, degraded_mode_reason,
    degraded_notice, resolve_execution_mode, should_print_degraded_notice, DaemonState,
    DegradedNoticeCommand, ExecutionMode, Preparation,
};
use agentd::client::report::{
    attachments_report, cleanup_report, created_report, daemon_info_report, diff_head,
    kill_report, management_status_report, plain_session_line, session_report,
    short_session_report, worktree_report,
};
use agentd::config::{AgentConfig, Config, GitConfig};
use agentd::paths::AppPaths;
use agentd::protocol::field::WireStatus;
use agentd::protocol::frame::PROTOCOL_VERSION;
use agentd::protocol::management::{DaemonManagementResponse, DaemonManagementStatus};
use agentd::protocol::record::{DaemonInfo, SessionEvent, WireSession};
use agentd::protocol::request::Request;
use agentd::protocol::response::Response;
use agentd::session::{
    ApplyState, AttachmentKind, AttachmentRecord, AttentionLevel, CreateSessionResult,
    IntegrationPolicy, IntegrationState, SessionDiff, SessionMode, SessionRecord, SessionStatus,
    WorktreeRecord,
};
use agentd::session_list::{ordered_sessions, session_accepts_attach};
use agentd::time::Timestamp;

fn at(seconds: i64) -> Timestamp {
    Timestamp::new(1_700_000_000 + seconds, 0).unwrap()
}

fn demo_session(
    session_id: &str,
    status: SessionStatus,
    has_pending_changes: bool,
    updated_minutes_ago: i64,
    attention: AttentionLevel,
) -> SessionRecord {
    SessionRecord {
        session_id: session_id.to_string(),
        thread_id: Some(format!("thread-{session_id}")),
        agent: "codex".to_string(),
        model: Some("gpt-5.4".to_string()),
        mode: SessionMode::Execute,
        workspace: "/tmp/workspace".to_string(),
        repo_path: "/tmp/workspace".to_string(),
        repo_name: "workspace".to_string(),
        title: session_id.to_string(),
        task: String::new(),
        base_branch: "main".to_string(),
        branch: format!("agent/{session_id}"),
        worktree: format!("/tmp/{session_id}"),
        status,
        integration_policy: IntegrationPolicy::ManualReview,
        apply_state: ApplyState::Idle,
        integration_state: IntegrationState::Clean,
        git_sync: String::new(),
        git_status_summary: None,
        has_conflicts: false,
        dirty_count: 0,
        ahead_count: 0,
        has_commits: has_pending_changes,
        has_pending_changes,
        pid: Some(123),
        exit_code: None,
        error: None,
        attention,
        attention_summary: None,
        created_at: at(-60 * (updated_minutes_ago + 5)),
        updated_at: at(-60 * updated_minutes_ago),
        exited_at: None,
    }
}

fn test_paths() -> AppPaths {
    AppPaths::from_root("/tmp/agent-cli-test".to_string())
}

// ---------------------------------------------------------------------------
// With the daemon or without it
// ---------------------------------------------------------------------------
#[test]
fn kill_suppresses_query_failure_degraded_notice() {
    assert!(!should_print_degraded_notice(
        DegradedNoticeCommand::Kill,
        "agentd could not be queried: broken pipe"
    ));
}

#[test]
fn kill_keeps_unavailable_degraded_notice() {
    assert!(should_print_degraded_notice(DegradedNoticeCommand::Kill, "agentd is unavailable"));
}

#[test]
fn kill_keeps_protocol_mismatch_degraded_notice() {
    assert!(should_print_degraded_notice(
        DegradedNoticeCommand::Kill,
        "agentd protocol version 1 is incompatible with agent protocol version 2"
    ));
}

#[test]
fn list_keeps_query_failure_degraded_notice() {
    assert!(should_print_degraded_notice(
        DegradedNoticeCommand::List,
        "agentd could not be queried: broken pipe"
    ));
}

#[test]
fn status_keeps_query_failure_degraded_notice() {
    assert!(should_print_degraded_notice(
        DegradedNoticeCommand::Status,
        "agentd could not be queried: broken pipe"
    ));
}

#[test]
fn daemon_command_error_for_accept_does_not_mention_pty() {
    let err = bail_daemon_command("agentd is unavailable", "agent merge");
    assert_eq!(err, "agentd is unavailable. `agent merge` requires a compatible daemon");
}

#[test]
fn commands_are_prepared_by_what_they_need() {
    let kill = Some(Command::Kill { rm: false, session_id: "demo".to_string() });
    assert!(command_supports_local_mode(&kill));
    assert_eq!(resolve_execution_mode(&kill), Preparation::AskDaemon);
    assert_eq!(resolve_execution_mode(&Some(Command::List)), Preparation::AskDaemon);
    assert_eq!(resolve_execution_mode(&None), Preparation::RequireDaemon);
    assert!(!command_supports_local_mode(&None));
    assert_eq!(resolve_execution_mode(&Some(Command::DaemonInfo)), Preparation::StartDaemon);
    assert_eq!(resolve_execution_mode(&Some(Command::DaemonUpgrade)), Preparation::UseDaemon);
}

#[test]
fn the_daemon_is_done_without_for_a_reason() {
    assert_eq!(degraded_mode_reason(&DaemonState::Answers(PROTOCOL_VERSION)), None);
    assert_eq!(
        degraded_mode_reason(&DaemonState::Answers(3)).unwrap(),
        "agentd protocol version 3 is incompatible with agent protocol version 10"
    );
    assert_eq!(
        degraded_mode_reason(&DaemonState::Unclear("broken pipe".to_string())).unwrap(),
        "agentd could not be queried: broken pipe"
    );
    assert_eq!(degraded_mode_reason(&DaemonState::Started(true)), None);
    assert_eq!(
        degraded_mode_reason(&DaemonState::Started(false)).unwrap(),
        "agentd is unavailable"
    );
    assert_eq!(
        degraded_notice("agentd is unavailable"),
        "agent: agentd is unavailable; using local degraded mode for metadata/log/session cleanup commands"
    );
    assert!(bail_live_command("x").starts_with("x. this command needs a compatible daemon"));
}

fn local(command: Option<Command>) -> Result<Step, String> {
    plan(command, ExecutionMode::Local("agentd is unavailable".to_string()), None)
}

fn daemon(command: Command) -> Result<Step, String> {
    plan(Some(command), ExecutionMode::Daemon, Some("managed".to_string()))
}

#[test]
fn local_plans_do_what_needs_no_daemon() {
    let id = || "demo".to_string();
    assert!(matches!(
        local(Some(Command::Kill { rm: true, session_id: id() })),
        Ok(Step::LocalKill { remove: true, notice: true, .. })
    ));
    assert!(matches!(
        plan(
            Some(Command::Kill { rm: false, session_id: id() }),
            ExecutionMode::Local("agentd could not be queried: x".to_string()),
            None
        ),
        Ok(Step::LocalKill { remove: false, notice: false, .. })
    ));
    assert!(matches!(local(Some(Command::List)), Ok(Step::LocalList { notice: true })));
    assert!(matches!(
        local(Some(Command::Status { session_id: id() })),
        Ok(Step::LocalStatus { notice: true, .. })
    ));
    assert!(matches!(
        local(Some(Command::Logs { session_id: id(), follow: true })),
        Ok(Step::LocalLogs { follow: true, .. })
    ));
    assert_eq!(
        local(None).unwrap_err(),
        "agentd is unavailable. `agent` requires a compatible daemon"
    );
    assert_eq!(
        local(Some(Command::Diff { session_id: id() })).unwrap_err(),
        "agentd is unavailable. `agent diff` requires a compatible daemon; use `agent sessions` and `agent kill` to recover first"
    );
    assert_eq!(
        local(Some(Command::WorktreeCleanup { session_id: id() })).unwrap_err(),
        "agentd is unavailable. worktree management requires a compatible daemon or a manual cleanup flow"
    );
    assert_eq!(
        local(Some(Command::DaemonInfo)).unwrap_err(),
        "agentd is unavailable. daemon management requires a reachable daemon"
    );
    assert_eq!(
        local(Some(Command::Attach { session_id: id() })).unwrap_err(),
        "agentd is unavailable. this command needs a compatible daemon with a live PTY; use `agent sessions` and `agent kill` first"
    );
    assert_eq!(
        local(Some(Command::History { session_id: id(), vt: false })).unwrap_err(),
        "agentd is unavailable. `agent history` requires a compatible daemon"
    );
}

#[test]
fn daemon_plans_ask_what_the_command_says() {
    let id = || "demo".to_string();
    match daemon(Command::SendInput {
        session_id: id(),
        source_session_id: None,
        data: vec!["run".to_string(), "tests é".to_string()],
    }) {
        Ok(Step::Ask(ClientRequest::SendInput { data, .. }, Then::Nothing)) => {
            assert_eq!(data, "run tests é".as_bytes());
        }
        other => panic!("unexpected step: {other:?}"),
    }
    match daemon(Command::Merge { session_id: None }) {
        Ok(Step::Ask(ClientRequest::ApplySession { session_id }, Then::ReportSession)) => {
            assert_eq!(session_id, "managed");
        }
        other => panic!("unexpected step: {other:?}"),
    }
    match daemon(Command::Create {
        workspace: "/w".to_string(),
        agent: "codex".to_string(),
        name: Some(" fix ".to_string()),
    }) {
        Ok(Step::Ask(ClientRequest::CreateSession { name, .. }, Then::ReportCreated)) => {
            assert_eq!(name.as_deref(), Some("fix"));
        }
        other => panic!("unexpected step: {other:?}"),
    }
    assert!(daemon(Command::Create {
        workspace: "/w".to_string(),
        agent: "codex".to_string(),
        name: Some("Fix".to_string()),
    })
    .unwrap_err()
    .starts_with("invalid session name `Fix`: "));
    assert!(matches!(
        plan(None, ExecutionMode::Daemon, None),
        Ok(Step::Run(None))
    ));
    assert!(matches!(
        daemon(Command::Discard { session_id: id(), force: true }),
        Ok(Step::Ask(ClientRequest::DiscardSession { force: true, .. }, Then::ReportSession))
    ));
}

#[test]
fn detaching_names_all_clients_or_one() {
    let detach = |attach: Option<&str>, all| {
        daemon(Command::Detach {
            session_id: Some("demo".to_string()),
            attach: attach.map(str::to_string),
            all,
        })
    };
    assert!(matches!(
        detach(None, true),
        Ok(Step::Ask(ClientRequest::DetachSession { .. }, Then::ReportDetached(_)))
    ));
    match detach(Some("attach-1"), false) {
        Ok(Step::Ask(ClientRequest::DetachAttachment { session_id, attach_id }, _)) => {
            assert_eq!(session_id, "demo");
            assert_eq!(attach_id, "attach-1");
        }
        other => panic!("unexpected step: {other:?}"),
    }
    assert_eq!(
        detach(Some("attach-1"), true).unwrap_err(),
        "use either `--all` or `--attach <attach_id>`, not both"
    );
    assert_eq!(
        detach(None, false).unwrap_err(),
        "shared attach requires either `--all` or `--attach <attach_id>`; use Ctrl-\\ to detach the local client"
    );
}

// ---------------------------------------------------------------------------
// Options
// ---------------------------------------------------------------------------
#[test]
fn main_resolve_new_session_options_uses_defaults() {
    let paths = test_paths();
    let config = Config::default();
    let options =
        resolve_new_session_options(&paths, &config, Some("/here".to_string()), None, None, None)
            .unwrap();
    assert_eq!(options.workspace, "/here");
    assert!(options.name.is_none());
    assert_eq!(options.agent, "codex");
}

#[test]
fn resolve_new_session_options_uses_configured_default_agent() {
    let paths = test_paths();
    let agent = |command: &str| AgentConfig {
        command: command.to_string(),
        args: Vec::new(),
        model_flag: None,
    };
    let config = Config::with_agents(
        "cline".to_string(),
        vec![
            ("codex".to_string(), agent("codex")),
            ("cline".to_string(), agent("cline")),
        ],
        GitConfig::default(),
    );

    let options =
        resolve_new_session_options(&paths, &config, Some("/here".to_string()), None, None, None)
            .unwrap();
    assert_eq!(options.agent, "cline");
}

#[test]
fn main_resolve_new_session_options_preserves_explicit_values() {
    let paths = test_paths();
    let options = resolve_new_session_options(
        &paths,
        &Config::default(),
        None,
        Some("/tmp/repo".to_string()),
        Some("fix-tests".to_string()),
        Some("cline".to_string()),
    )
    .unwrap();
    assert_eq!(options.workspace, "/tmp/repo");
    assert_eq!(options.name.as_deref(), Some("fix-tests"));
    assert_eq!(options.agent, "cline");
}

#[test]
fn resolve_new_session_options_rejects_invalid_name() {
    let paths = test_paths();
    let err = resolve_new_session_options(
        &paths,
        &Config::default(),
        None,
        Some("/tmp/repo".to_string()),
        Some("fix tests".to_string()),
        Some("cline".to_string()),
    )
    .unwrap_err();
    assert!(err.contains("invalid session name"));
}

#[test]
fn resolve_new_session_options_uses_defaults() {
    let options = resolve_task_options(Some("/here".to_string()), None, None, None).unwrap();
    assert_eq!(options.workspace, "/here");
    assert_eq!(options.task, "");
    assert_eq!(options.agent, "codex");
}

#[test]
fn resolve_new_session_options_preserves_explicit_values() {
    let options = resolve_task_options(
        None,
        Some("/tmp/repo".to_string()),
        Some("fix tests".to_string()),
        Some("cline".to_string()),
    )
    .unwrap();
    assert_eq!(options.workspace, "/tmp/repo");
    assert_eq!(options.task, "fix tests");
    assert_eq!(options.agent, "cline");
}

#[test]
fn options_fail_without_a_directory() {
    assert_eq!(
        resolve_task_options(None, None, None, None).unwrap_err(),
        "failed to resolve current directory"
    );
    assert_eq!(
        resolve_new_session_options(&test_paths(), &Config::default(), None, None, None, None)
            .unwrap_err(),
        "failed to resolve current directory"
    );
    let config = Config::with_agents(
        "missing".to_string(),
        vec![(
            "codex".to_string(),
            AgentConfig { command: "codex".to_string(), args: Vec::new(), model_flag: None },
        )],
        GitConfig::default(),
    );
    assert_eq!(
        resolve_new_session_options(
            &test_paths(),
            &config,
            Some("/here".to_string()),
            None,
            None,
            None
        )
        .unwrap_err(),
        "default_agent `missing` is not configured under [agents] in /tmp/agent-cli-test/config.toml"
    );
    let step = new_session_step(NewSessionOptions {
        workspace: "/w".to_string(),
        name: None,
        agent: "codex".to_string(),
    });
    assert!(matches!(
        step,
        Step::Ask(
            ClientRequest::CreateSession {
                model: None,
                integration_policy: IntegrationPolicy::ManualReview,
                ..
            },
            Then::Attach
        )
    ));
}

#[test]
fn resolve_detach_session_id_prefers_explicit_value() {
    let session_id = resolve_detach_session_id(
        Some("explicit-session".to_string()),
        Some("env-session".to_string()),
    )
    .unwrap();
    assert_eq!(session_id, "explicit-session");
}

#[test]
fn resolve_detach_session_id_uses_environment() {
    let session_id = resolve_detach_session_id(None, Some("env-session".to_string())).unwrap();
    assert_eq!(session_id, "env-session");
}

#[test]
fn resolve_detach_session_id_errors_without_environment() {
    let err = resolve_detach_session_id(None, None).unwrap_err();
    assert!(err.contains("only works inside a managed session"));
}

#[test]
fn resolve_merge_session_id_uses_environment() {
    let session_id = resolve_merge_session_id(None, Some("env-session".to_string())).unwrap();
    assert_eq!(session_id, "env-session");
    assert!(resolve_merge_session_id(None, None).unwrap_err().starts_with("`agent merge`"));
}

// ---------------------------------------------------------------------------
// The daemon
// ---------------------------------------------------------------------------
#[test]
fn clear_stale_daemon_state_removes_dead_pid_and_socket() {
    let paths = test_paths();
    let pid = daemon_pid("999999\n", &paths).unwrap();
    assert_eq!(pid, Some(999_999));
    assert!(check_stale_daemon(pid, false, true, &paths).is_ok());
}

#[test]
fn running_daemons_keep_their_files() {
    let paths = test_paths();
    assert_eq!(
        check_stale_daemon(Some(7), true, true, &paths).unwrap_err(),
        "agentd is running (pid 7) but not responding; restart the daemon"
    );
    assert_eq!(
        check_stale_daemon(Some(7), true, false, &paths).unwrap_err(),
        "agentd is running (pid 7) but socket /tmp/agent-cli-test/agentd.sock is missing; restart the daemon"
    );
    assert!(check_stale_daemon(None, true, true, &paths).is_ok());
}

#[test]
fn pid_files_hold_a_number() {
    let paths = test_paths();
    assert_eq!(daemon_pid(" \n", &paths), Ok(None));
    assert_eq!(daemon_pid("+12", &paths), Ok(Some(12)));
    assert_eq!(daemon_pid("4294967295", &paths), Ok(Some(u32::MAX)));
    for wrong in ["4294967296", "-1", "x", "+", "1 2"] {
        assert_eq!(
            daemon_pid(wrong, &paths).unwrap_err(),
            "failed to parse pid from /tmp/agent-cli-test/agentd.pid"
        );
    }
    for text in
        ["12", " -7 ", "+3", "-0", "-2147483648", "2147483647", "2147483648", "-2147483649", "-",
         "+", "", "-+1", "--1", "1-", "٣"]
    {
        assert_eq!(
            daemon_pid_to_end(text).ok(),
            text.trim().parse::<i32>().ok(),
            "{text:?}"
        );
    }
    assert_eq!(daemon_pid_to_end("x").unwrap_err(), "invalid daemon pid file");
}

#[test]
fn waiting_for_the_daemon_ends() {
    assert_eq!(wait_for_daemon(true, true, true), Some(Ok(())));
    assert_eq!(wait_for_daemon(false, false, true), None);
    assert_eq!(
        wait_for_daemon(false, true, true),
        Some(Err("timed out waiting for agentd to start".to_string()))
    );
    assert_eq!(
        wait_for_daemon(false, true, false),
        Some(Err("timed out waiting for agentd to stop".to_string()))
    );
}

fn info(protocol_version: u16) -> DaemonInfo {
    DaemonInfo { daemon_version: "1.2.3".to_string(), protocol_version }
}

#[test]
fn daemons_tell_what_they_are() {
    assert_eq!(
        daemon_info(Reply::Answer(ClientResponse::DaemonInfo { info: info(3) })).unwrap(),
        info(3)
    );
    assert!(matches!(
        daemon_info(Reply::Answer(ClientResponse::Error { message: "no".to_string() })),
        Err(ReplyFault::Refused(message)) if message == "no"
    ));
    assert!(matches!(
        daemon_info(Reply::Answer(ClientResponse::Done)),
        Err(ReplyFault::Unexpected(ClientResponse::Done))
    ));
    assert!(matches!(
        daemon_info(Reply::TimedOut),
        Err(ReplyFault::Broken("agentd is out of date with the client; try upgrading the daemon"))
    ));
}

#[test]
fn daemons_are_compared_by_their_protocol() {
    assert!(check_compatible(&info(PROTOCOL_VERSION), "0.1.0").is_ok());
    assert_eq!(
        check_compatible(&info(3), "0.1.0").unwrap_err(),
        "agentd `1.2.3` is out of date with agent `0.1.0`; try upgrading the daemon"
    );
    assert!(check_replaceable(&None, false, "0.1.0").is_ok());
    assert_eq!(
        check_replaceable(&None, true, "0.1.0").unwrap_err(),
        "agentd `legacy` is incompatible with agentctl `0.1.0` and cannot be restarted while sessions are running"
    );
    assert_eq!(
        check_replaceable(&Some(info(3)), true, "0.1.0").unwrap_err(),
        "agentd `1.2.3` is incompatible with agentctl `0.1.0` and cannot be restarted while sessions are running"
    );
    assert!(check_replaced(&info(PROTOCOL_VERSION)).is_ok());
    assert_eq!(
        check_replaced(&info(3)).unwrap_err(),
        "agentd `1.2.3` still reports incompatible protocol version 3"
    );
}

#[test]
fn daemons_are_restarted_by_force_alone_while_sessions_run() {
    assert!(check_restart(false, false).is_ok());
    assert!(check_restart(true, true).is_ok());
    assert_eq!(
        check_restart(true, false).unwrap_err(),
        "cannot restart agentd while sessions are running"
    );
    assert!(check_upgrade(true, Some(0)).is_ok());
    assert_eq!(
        check_upgrade(false, Some(-2)).unwrap_err(),
        "agentd upgrade exited with status -2"
    );
    assert_eq!(check_upgrade(false, None).unwrap_err(), "agentd upgrade terminated by signal");
}

#[test]
fn restarts_go_step_by_step() {
    let next = |state: Restart, event, force| state.next(event, force, "0.1.0");
    let state = next(Restart::Connecting, RestartEvent::Connected(false), false);
    assert!(matches!(state, Restart::Starting));
    let state = next(Restart::Connecting, RestartEvent::Connected(true), false);
    assert!(matches!(state, Restart::Asking));
    assert!(matches!(
        next(Restart::Asking, RestartEvent::Running(true), false),
        Restart::Refused(message) if message == "cannot restart agentd while sessions are running"
    ));
    let state = next(Restart::Asking, RestartEvent::Running(true), true);
    assert!(matches!(state, Restart::Stopping));
    let state = next(state, RestartEvent::Stopped, true);
    let state = next(state, RestartEvent::Started, true);
    assert!(matches!(state, Restart::Checking));
    let state = next(state, RestartEvent::Info(info(PROTOCOL_VERSION)), true);
    assert!(matches!(state, Restart::Finished));
    assert!(matches!(next(state, RestartEvent::Failed, true), Restart::Finished));
    assert!(matches!(
        next(Restart::Checking, RestartEvent::Info(info(3)), true),
        Restart::Refused(message)
            if message == "agentd `1.2.3` is out of date with agent `0.1.0`; try upgrading the daemon"
    ));
    assert!(matches!(
        next(Restart::Starting, RestartEvent::Failed, true),
        Restart::Broken
    ));
}

#[test]
fn replacements_spare_running_sessions() {
    let next = |state: Replacement, event| state.next(event, "0.1.0");
    assert!(matches!(
        next(Replacement::Checking, ReplacementEvent::Info(info(PROTOCOL_VERSION))),
        Replacement::Finished
    ));
    let state = next(Replacement::Checking, ReplacementEvent::Failed);
    assert!(matches!(state, Replacement::Asking(None)));
    assert!(matches!(
        next(state, ReplacementEvent::Running(true)),
        Replacement::Refused(message) if message.starts_with("agentd `legacy` is incompatible")
    ));
    let state = next(Replacement::Checking, ReplacementEvent::Info(info(3)));
    let state = next(state, ReplacementEvent::Running(false));
    assert!(matches!(state, Replacement::Stopping));
    let state = next(state, ReplacementEvent::Shutdown(ShutdownNext::EndProcess));
    assert!(matches!(state, Replacement::Ending));
    let state = next(state, ReplacementEvent::Ended);
    let state = next(state, ReplacementEvent::Stopped);
    let state = next(state, ReplacementEvent::Started);
    assert!(matches!(state, Replacement::Verifying));
    assert!(matches!(
        next(state, ReplacementEvent::Info(info(3))),
        Replacement::Refused(message)
            if message == "agentd `1.2.3` still reports incompatible protocol version 3"
    ));
    assert!(matches!(
        next(
            Replacement::Stopping,
            ReplacementEvent::Shutdown(ShutdownNext::Refused("no".to_string()))
        ),
        Replacement::Refused(message) if message == "no"
    ));
    assert!(matches!(
        next(Replacement::Waiting, ReplacementEvent::Failed),
        Replacement::Broken
    ));
}

fn management() -> DaemonManagementStatus {
    DaemonManagementStatus {
        daemon_version: "1.2.3".to_string(),
        protocol_version: PROTOCOL_VERSION,
        pid: 42,
        root: "/r".to_string(),
        socket: "/r/agentd.sock".to_string(),
        running_sessions: true,
    }
}

#[test]
fn management_answers_are_told_apart() {
    let status = DaemonManagementResponse::Status { status: management() };
    assert_eq!(management_status(Reply::Answer(status)).unwrap(), management());
    assert!(matches!(
        management_status(Reply::Failed),
        Err(ReplyFault::Broken("daemon management status request failed"))
    ));
    assert!(matches!(
        management_status(Reply::TimedOut),
        Err(ReplyFault::Broken("timed out waiting for daemon management status"))
    ));
    let shutdown = |stopped| DaemonManagementResponse::Shutdown {
        stopped,
        running_sessions: true,
        message: "busy".to_string(),
    };
    assert!(management_shutdown(Reply::Answer(shutdown(true))).is_ok());
    assert!(matches!(
        management_shutdown(Reply::Answer(shutdown(false))),
        Err(ReplyFault::Refused(message)) if message == "busy"
    ));
    assert!(matches!(
        management_shutdown(Reply::TimedOut),
        Err(ReplyFault::Broken("timed out waiting for daemon management shutdown"))
    ));
    assert!(matches!(
        management_status(Reply::Answer(shutdown(true))),
        Err(ReplyFault::Unexpected(_))
    ));
    assert!(matches!(plain_shutdown(Reply::Answer(ClientResponse::Done)), ShutdownNext::Wait));
    assert!(matches!(plain_shutdown(Reply::Failed), ShutdownNext::EndProcess));
    assert!(matches!(
        plain_shutdown(Reply::Answer(ClientResponse::Error { message: "no".to_string() })),
        ShutdownNext::Refused(_)
    ));
}

#[test]
fn running_sessions_are_looked_for() {
    let running = |status| {
        daemon_has_running_sessions(Reply::Answer(ClientResponse::Sessions {
            sessions: vec![demo_session("a", status, false, 1, AttentionLevel::Info)],
        }))
        .unwrap()
    };
    assert!(running(SessionStatus::Running));
    assert!(!running(SessionStatus::Exited));
    assert!(matches!(daemon_has_running_sessions(Reply::Failed), Err(ReplyFault::Broken(_))));
}

// ---------------------------------------------------------------------------
// Input of an attached client
// ---------------------------------------------------------------------------
#[test]
fn attach_parser_forwards_regular_bytes() {
    let mut parser = AttachInputParser::default();
    assert_eq!(parser.push_bytes(b"hello"), vec![AttachInputAction::Data(b"hello".to_vec())]);
}

#[test]
fn attach_parser_preserves_mouse_and_scroll_sequences() {
    let mut parser = AttachInputParser::default();
    let mouse = b"\x1b[<64;10;5M";
    assert_eq!(parser.push_bytes(mouse), vec![AttachInputAction::Data(mouse.to_vec())]);
}

#[test]
fn attach_parser_switches_to_previous_session_on_kitty_ctrl_left_bracket() {
    let mut parser = AttachInputParser::default();
    assert_eq!(parser.push_bytes(b"\x1b[91;5u"), vec![AttachInputAction::PreviousSession]);
}

#[test]
fn attach_parser_detaches_on_kitty_ctrl_backslash() {
    let mut parser = AttachInputParser::default();
    assert_eq!(parser.push_bytes(b"\x1b[92;5u"), vec![AttachInputAction::Detach]);
}

#[test]
fn attach_parser_switches_to_next_session_on_kitty_ctrl_right_bracket() {
    let mut parser = AttachInputParser::default();
    assert_eq!(parser.push_bytes(b"\x1b[93;5u"), vec![AttachInputAction::NextSession]);
}

#[test]
fn attach_parser_ignores_kitty_hotkey_release_events() {
    let mut parser = AttachInputParser::default();
    assert_eq!(
        parser.push_bytes(b"\x1b[93;5:3u"),
        vec![AttachInputAction::Data(b"\x1b[93;5:3u".to_vec())]
    );
}

#[test]
fn attach_parser_carries_incomplete_kitty_hotkey_sequences_between_reads() {
    let mut parser = AttachInputParser::default();
    assert!(parser.push_bytes(b"\x1b[91;").is_empty());
    assert_eq!(parser.push_bytes(b"5u"), vec![AttachInputAction::PreviousSession]);
}

#[test]
fn attach_parser_flushes_bytes_around_control_sequences() {
    let mut parser = AttachInputParser::default();
    assert_eq!(
        parser.push_bytes(b"ab\x1ccd\x1d"),
        vec![
            AttachInputAction::Data(b"ab".to_vec()),
            AttachInputAction::Detach,
            AttachInputAction::Data(b"cd".to_vec()),
            AttachInputAction::NextSession,
        ]
    );
}

#[test]
fn attach_parser_detaches_on_ctrl_backslash_byte() {
    let mut parser = AttachInputParser::default();
    assert_eq!(parser.push_bytes(&[ATTACH_DETACH_BYTE]), vec![AttachInputAction::Detach]);
}

#[test]
fn attach_parser_switches_to_next_session_on_ctrl_right_bracket_byte() {
    let mut parser = AttachInputParser::default();
    assert_eq!(
        parser.push_bytes(&[ATTACH_NEXT_SESSION_BYTE]),
        vec![AttachInputAction::NextSession]
    );
}

#[test]
fn hotkeys_take_extra_fields() {
    let mut parser = AttachInputParser::default();
    assert_eq!(parser.push_bytes(b"\x1b[93:125:91;5:1;93u"), vec![AttachInputAction::NextSession]);
    assert_eq!(
        parser.push_bytes(b"\x1b[94;5u"),
        vec![AttachInputAction::Data(b"\x1b[94;5u".to_vec())]
    );
    assert_eq!(
        parser.push_bytes(b"\x1b[93;7u"),
        vec![AttachInputAction::Data(b"\x1b[93;7u".to_vec())]
    );
    assert_eq!(parser.push_bytes(b"\x1b[93;69u"), vec![AttachInputAction::NextSession]);
}

#[test]
fn no_input_is_lost() {
    let input = b"a\x1b[91;5ub\x1b[x\x1cc\x1d\x1b[92;";
    let mut parser = AttachInputParser::default();
    let mut written = Vec::new();
    let mut after_data = false;
    for action in parser.push_bytes(input) {
        match action {
            AttachInputAction::Data(data) => {
                assert!(!data.is_empty() && !after_data);
                written.extend(data);
                after_data = true;
                continue;
            }
            AttachInputAction::PreviousSession => written.extend(b"\x1b[91;5u"),
            AttachInputAction::Detach => written.push(ATTACH_DETACH_BYTE),
            AttachInputAction::NextSession => written.push(ATTACH_NEXT_SESSION_BYTE),
        }
        after_data = false;
    }
    written.extend(&parser.pending_escape);
    assert_eq!(written, input);
}

#[test]
fn blocks_of_input_end_at_the_detach_byte() {
    assert_eq!(read_attach_stdin(b""), vec![AttachInput::Detach]);
    assert_eq!(read_attach_stdin(b"ab"), vec![AttachInput::Data(b"ab".to_vec())]);
    assert_eq!(
        read_attach_stdin(b"ab\x1dcd"),
        vec![AttachInput::Data(b"ab".to_vec()), AttachInput::Detach]
    );
    assert_eq!(read_attach_stdin(b"\x1dcd"), vec![AttachInput::Detach]);
}

// ---------------------------------------------------------------------------
// The terminal of an attached client
// ---------------------------------------------------------------------------
#[test]
fn attach_restore_sequence_matches_agentd_cleanup() {
    assert_eq!(
        AGENTD_ATTACH_RESTORE_SEQUENCE.as_bytes(),
        b"\x1b[?1000l\x1b[?1002l\x1b[?1003l\x1b[?1006l\x1b[?2004l\x1b[?1004l\x1b[<u\x1b[?25h"
    );
}

#[test]
fn attach_startup_sequence_clears_then_replays_snapshot() {
    assert_eq!(
        attach_startup_bytes(b"\x1b[?25lhello"),
        b"\x1b[>1u\x1b[2J\x1b[H\x1b[?25lhello".to_vec()
    );
}

#[test]
fn attach_startup_sequence_does_not_force_alternate_screen() {
    let startup = attach_startup_bytes(b"snapshot");
    assert!(startup.starts_with(AGENTD_ATTACH_ENTER_SEQUENCE.as_bytes()));
    assert!(!startup.windows(6).any(|window| window == b"\x1b[?1049"));
}

#[test]
fn format_attach_title_appends_agentd_suffix() {
    assert_eq!(format_attach_title("fix-tests"), "fix-tests - agentd");
}

#[test]
fn terminal_title_bytes_set_both_window_title_sequences() {
    assert_eq!(
        terminal_title_bytes("fix-tests - agentd"),
        b"\x1b]0;fix-tests - agentd\x07\x1b]2;fix-tests - agentd\x07".to_vec()
    );
}

#[test]
fn terminal_title_bytes_reset_to_agentd_on_exit() {
    assert_eq!(
        terminal_title_bytes(AGENTD_ATTACH_EXIT_TITLE),
        b"\x1b]0;agentd\x07\x1b]2;agentd\x07".to_vec()
    );
}

#[test]
fn attached_clients_are_told_their_keys() {
    assert_eq!(
        attached_notice("demo", &Some("a1".to_string())),
        "attached to demo (a1); Ctrl-\\\\ detaches, Ctrl-[/Ctrl-] switch running sessions"
    );
    assert_eq!(
        attached_notice("demo", &None),
        "attached to demo; Ctrl-\\\\ detaches, Ctrl-[/Ctrl-] switch running sessions"
    );
}

// ---------------------------------------------------------------------------
// The sessions next to one
// ---------------------------------------------------------------------------
#[test]
fn adjacent_session_selection_wraps_in_both_directions() {
    let sessions = vec![
        demo_session("needs-input", SessionStatus::Running, false, 1, AttentionLevel::Action),
        demo_session("running", SessionStatus::Running, true, 2, AttentionLevel::Info),
        demo_session("idle", SessionStatus::Running, false, 3, AttentionLevel::Info),
    ];
    let sessions = ordered_sessions(&sessions);

    assert_eq!(
        adjacent_live_session_id_in(&sessions, "running", AttachSessionDirection::Previous),
        Some("needs-input".to_string())
    );
    assert_eq!(
        adjacent_live_session_id_in(&sessions, "idle", AttachSessionDirection::Next),
        Some("needs-input".to_string())
    );
}

#[test]
fn adjacent_session_selection_ignores_non_live_sessions() {
    let sessions = vec![
        demo_session("current", SessionStatus::Running, false, 1, AttentionLevel::Info),
        demo_session("finished", SessionStatus::Exited, false, 4, AttentionLevel::Info),
    ]
    .into_iter()
    .filter(session_accepts_attach)
    .collect::<Vec<_>>();
    let sessions = ordered_sessions(&sessions);

    assert_eq!(
        adjacent_live_session_id_in(&sessions, "current", AttachSessionDirection::Next),
        None
    );
}

#[test]
fn neighbours_lead_back() {
    let sessions = vec![
        demo_session("a", SessionStatus::Running, false, 1, AttentionLevel::Info),
        demo_session("b", SessionStatus::Exited, false, 2, AttentionLevel::Info),
        demo_session("c", SessionStatus::Running, false, 3, AttentionLevel::Info),
        demo_session("d", SessionStatus::Running, false, 4, AttentionLevel::Info),
    ];
    for id in ["a", "c", "d"] {
        let next =
            adjacent_live_session_id(&sessions, id, AttachSessionDirection::Next).unwrap();
        assert_ne!(next, id);
        assert_eq!(
            adjacent_live_session_id(&sessions, &next, AttachSessionDirection::Previous).unwrap(),
            id
        );
    }
    assert_eq!(adjacent_live_session_id(&sessions, "b", AttachSessionDirection::Next), None);
    assert!(matches!(
        attach_target(&sessions, "a", AttachSessionDirection::Next),
        AttachStep::Leave(AttachOutcome::SwitchSession(id)) if id == "c"
    ));
    assert!(matches!(
        attach_target(&sessions, "b", AttachSessionDirection::Next),
        AttachStep::Continue
    ));
}

// ---------------------------------------------------------------------------
// The end of a session
// ---------------------------------------------------------------------------
fn summary(
    status: SessionStatus,
    apply_state: ApplyState,
    has_commits: bool,
    exit_code: Option<i32>,
    error: Option<&str>,
) -> SessionEndSummary {
    SessionEndSummary {
        session_id: "demo".to_string(),
        status,
        apply_state,
        has_commits,
        branch: "agent/demo".to_string(),
        worktree: "/tmp/demo".to_string(),
        exit_code,
        error: error.map(str::to_string),
    }
}

#[test]
fn format_session_end_summary_reports_exit_code() {
    let summary = summary(SessionStatus::Exited, ApplyState::Idle, false, Some(7), None);
    assert_eq!(format_session_end_summary(&summary), "session demo finished (exit 7)");
}

#[test]
fn format_session_end_summary_reports_error() {
    let summary = summary(SessionStatus::Failed, ApplyState::Idle, false, None, Some("boom"));
    assert_eq!(format_session_end_summary(&summary), "session demo failed: boom");
}

#[test]
fn format_session_end_summary_reports_failure_message() {
    let summary =
        summary(SessionStatus::Failed, ApplyState::Idle, false, Some(1), Some("spawn failed"));
    assert_eq!(format_session_end_summary(&summary), "session demo failed: spawn failed");
}

#[test]
fn format_session_end_summary_reports_merge_actions() {
    let summary = summary(SessionStatus::Exited, ApplyState::Idle, true, Some(0), None);
    assert!(format_session_end_summary(&summary).contains("agent merge demo"));
}

#[test]
fn format_session_end_summary_reports_merged_sessions() {
    let summary = summary(SessionStatus::Exited, ApplyState::Applied, false, Some(0), None);
    assert!(format_session_end_summary(&summary).contains("merged"));
}

#[test]
fn ends_are_told_exactly() {
    let text = |status, apply_state, has_commits, exit_code, error| {
        format_session_end_summary(&summary(status, apply_state, has_commits, exit_code, error))
    };
    assert_eq!(
        text(SessionStatus::Exited, ApplyState::Idle, true, Some(0), None),
        "session demo finished with changes on agent/demo (/tmp/demo)\nrun: agent diff demo | agent merge demo | agent discard demo"
    );
    assert_eq!(
        text(SessionStatus::UnknownRecovered, ApplyState::Applied, true, None, None),
        "session demo merged from agent/demo (/tmp/demo)"
    );
    assert_eq!(
        text(SessionStatus::Exited, ApplyState::Idle, false, None, None),
        "session demo finished"
    );
    assert_eq!(
        text(SessionStatus::Exited, ApplyState::Idle, false, Some(-9), None),
        "session demo finished (exit -9)"
    );
    assert_eq!(
        text(SessionStatus::Failed, ApplyState::Applied, true, None, None),
        "session demo failed"
    );
    assert_eq!(
        text(SessionStatus::Running, ApplyState::Idle, true, None, None),
        "session demo ended"
    );
}

// ---------------------------------------------------------------------------
// The conversation with the daemon
// ---------------------------------------------------------------------------
#[test]
fn attaching_takes_the_first_answer() {
    assert!(matches!(
        attach_handshake(Some(ClientResponse::Attached { attach_id: None, snapshot: vec![1] })),
        AttachHandshake::Attached { snapshot, .. } if snapshot == vec![1]
    ));
    assert!(matches!(
        attach_handshake(None),
        AttachHandshake::Failed(message) if message == "agentd closed the connection"
    ));
    assert!(matches!(
        attach_handshake(Some(ClientResponse::Done)),
        AttachHandshake::Unexpected(ClientResponse::Done)
    ));
}

#[test]
fn attached_clients_follow_the_daemon() {
    assert!(matches!(
        attach_response(Some(ClientResponse::PtyOutput { data: vec![1] })),
        AttachStep::Show(data) if data == vec![1]
    ));
    assert!(matches!(attach_response(None), AttachStep::Leave(AttachOutcome::Detached)));
    assert!(matches!(
        attach_response(Some(ClientResponse::EndOfStream)),
        AttachStep::Leave(AttachOutcome::Detached)
    ));
    assert!(matches!(
        attach_response(Some(ClientResponse::SwitchSession { session_id: "b".to_string() })),
        AttachStep::Leave(AttachOutcome::SwitchSession(id)) if id == "b"
    ));
    assert!(matches!(
        attach_response(Some(ClientResponse::Error { message: "no".to_string() })),
        AttachStep::Fail(message) if message == "no"
    ));
    assert!(matches!(
        attach_response(Some(ClientResponse::InputAccepted)),
        AttachStep::Unexpected(ClientResponse::InputAccepted)
    ));
    assert!(matches!(
        attach_action(AttachInputAction::Data(vec![3])),
        AttachStep::Send(data) if data == vec![3]
    ));
    assert!(matches!(
        attach_action(AttachInputAction::PreviousSession),
        AttachStep::LookFor(AttachSessionDirection::Previous)
    ));
    assert!(matches!(
        after_attachment(AttachOutcome::SwitchSession("b".to_string())),
        AttachNext::Attach(id) if id == "b"
    ));
    assert!(matches!(after_attachment(AttachOutcome::Detached), AttachNext::Stop));
    let ended = summary(SessionStatus::Exited, ApplyState::Idle, false, Some(7), None);
    assert!(matches!(
        after_attachment(AttachOutcome::SessionEnded(ended)),
        AttachNext::Say(text) if text == "session demo finished (exit 7)"
    ));
}

#[test]
fn blocks_of_input_are_cut_anywhere() {
    let whole = b"ab\x1dcd";
    for split in 1..whole.len() {
        let mut data = Vec::new();
        let mut detached = 0;
        for block in [&whole[..split], &whole[split..], &b""[..]] {
            if detached > 0 {
                break;
            }
            for input in read_attach_stdin(block) {
                match input {
                    AttachInput::Data(bytes) => {
                        assert_eq!(detached, 0);
                        data.extend(bytes);
                    }
                    AttachInput::Detach => detached += 1,
                }
            }
        }
        assert_eq!((data.as_slice(), detached), (&b"ab"[..], 1));
    }
}

#[test]
fn attached_clients_take_events() {
    let mut client = AttachClient::new("a".to_string());
    let steps = client.handle(AttachEvent::Input(Some(b"ab\x1b[93;".to_vec())));
    assert!(matches!(&steps[..], [AttachStep::Send(data)] if data == b"ab"));
    let steps = client.handle(AttachEvent::Input(Some(b"5u\x1c".to_vec())));
    assert!(matches!(
        &steps[..],
        [
            AttachStep::LookFor(AttachSessionDirection::Next),
            AttachStep::Leave(AttachOutcome::Detached)
        ]
    ));
    let sessions = vec![
        demo_session("a", SessionStatus::Running, false, 1, AttentionLevel::Info),
        demo_session("b", SessionStatus::Running, false, 2, AttentionLevel::Info),
    ];
    let steps = client.handle(AttachEvent::Sessions(sessions, AttachSessionDirection::Next));
    assert!(matches!(
        &steps[..],
        [AttachStep::Leave(AttachOutcome::SwitchSession(id))] if id == "b"
    ));
    assert!(matches!(
        &client.handle(AttachEvent::Resized(Some((80, 24))))[..],
        [AttachStep::Resize { cols: 80, rows: 24 }]
    ));
    assert!(matches!(
        &client.handle(AttachEvent::Resized(None))[..],
        [AttachStep::Leave(AttachOutcome::Detached)]
    ));
    assert!(matches!(
        &client.handle(AttachEvent::Input(None))[..],
        [AttachStep::Leave(AttachOutcome::Detached)]
    ));
    assert!(matches!(
        &client.handle(AttachEvent::Response(None))[..],
        [AttachStep::Leave(AttachOutcome::Detached)]
    ));
}

#[test]
fn the_wire_carries_what_it_can() {
    assert_eq!(
        to_wire(ClientRequest::CreateSession {
            workspace: "/w".to_string(),
            name: None,
            agent: "codex".to_string(),
            model: Some("gpt-5.4".to_string()),
            integration_policy: IntegrationPolicy::ManualReview,
        }),
        Some(Request::CreateSession {
            workspace: "/w".to_string(),
            task: String::new(),
            agent: "codex".to_string(),
        })
    );
    assert_eq!(
        to_wire(ClientRequest::AttachSession {
            session_id: "demo".to_string(),
            kind: AttachmentKind::Attach,
            cols: 80,
            rows: 24,
        }),
        Some(Request::AttachSession { session_id: "demo".to_string() })
    );
    assert_eq!(to_wire(ClientRequest::ApplySession { session_id: "demo".to_string() }), None);
    assert_eq!(to_wire(ClientRequest::AttachResize { cols: 1, rows: 1 }), None);
    let wire = WireSession {
        session_id: "demo".to_string(),
        agent: "codex".to_string(),
        workspace: "/w".to_string(),
        repo_path: "/tmp/demo".to_string(),
        task: "fix".to_string(),
        base_branch: "main".to_string(),
        branch: "agent/demo".to_string(),
        worktree: "/t".to_string(),
        status: WireStatus::Running,
        pid: Some(3),
        exit_code: None,
        error: None,
        created_at: at(0),
        updated_at: at(1),
        exited_at: None,
    };
    match from_wire(Response::Sessions { sessions: vec![wire] }) {
        ClientResponse::Sessions { sessions } => {
            assert_eq!(sessions.len(), 1);
            assert_eq!(sessions[0].repo_name, "demo");
            assert_eq!(sessions[0].task, "fix");
            assert_eq!(sessions[0].status, SessionStatus::Running);
            assert_eq!(sessions[0].updated_at, at(1));
            assert!(!sessions[0].has_commits);
        }
        other => panic!("unexpected response: {other:?}"),
    }
    match from_wire(Response::SessionEnded {
        session_id: "demo".to_string(),
        status: WireStatus::Exited,
        exit_code: Some(7),
        error: None,
    }) {
        ClientResponse::SessionEnded { summary } => {
            assert_eq!(format_session_end_summary(&summary), "session demo finished (exit 7)");
        }
        other => panic!("unexpected response: {other:?}"),
    }
}

// ---------------------------------------------------------------------------
// Diffs
// ---------------------------------------------------------------------------
#[test]
fn diff_colorization_is_disabled_without_terminal() {
    assert!(!should_colorize_diff_output(false, None));
}

#[test]
fn diff_colorization_respects_no_color() {
    assert!(!should_colorize_diff_output(true, Some("1".to_string())));
    assert!(should_colorize_diff_output(true, None));
}

#[test]
fn render_diff_text_keeps_plain_output_without_color() {
    let diff = "@@ -1 +1 @@\n-old\n+new\n";
    assert_eq!(render_diff_text(diff, false), diff);
}

#[test]
fn render_diff_text_adds_ansi_when_enabled() {
    let rendered = render_diff_text("@@ -1 +1 @@\n-old\n+new\n", true);
    assert!(rendered.contains("\u{1b}["));
}

#[test]
fn diffs_are_rendered_line_by_line() {
    crossterm::style::force_color_output(true);
    assert_eq!(
        render_diff_text("--- a\n@@ 1\n-o\n+n\n c", true),
        "\u{1b}[38;2;153;214;255m\u{1b}[1m--- a\n\u{1b}[0m\
         \u{1b}[38;2;242;201;76m\u{1b}[1m@@ 1\n\u{1b}[0m\
         \u{1b}[38;2;255;107;107m-o\n\u{1b}[39m\
         \u{1b}[38;2;111;207;151m+n\n\u{1b}[39m c"
    );
    crossterm::style::force_color_output(false);
    assert_eq!(
        render_diff_text("@@ 1\n+n", true),
        "\u{1b}[m\u{1b}[1m@@ 1\n\u{1b}[0m\u{1b}[m+n\u{1b}[m"
    );
}

// ---------------------------------------------------------------------------
// Answers
// ---------------------------------------------------------------------------
fn printed(answer: Result<Answer, ReplyFault<ClientResponse>>) -> Vec<String> {
    match answer {
        Ok(Answer::Print(lines)) => lines,
        other => panic!("unexpected answer: {other:?}"),
    }
}

#[test]
fn answers_are_reported() {
    assert_eq!(
        printed(answer(
            Then::ReportKilled("demo".to_string()),
            ClientResponse::KillSession { removed: true, was_running: true },
            false
        )),
        vec!["terminated session demo", "removed session demo"]
    );
    assert_eq!(
        printed(answer(
            Then::ReportDetached("demo".to_string()),
            ClientResponse::Done,
            false
        )),
        vec!["detached from demo"]
    );
    assert!(matches!(
        answer(Then::Nothing, ClientResponse::InputAccepted, false),
        Ok(Answer::Nothing)
    ));
    assert!(matches!(
        answer(Then::ListSessions, ClientResponse::Error { message: "no".to_string() }, false),
        Err(ReplyFault::Refused(message)) if message == "no"
    ));
    assert!(matches!(
        answer(Then::ListSessions, ClientResponse::Done, false),
        Err(ReplyFault::Unexpected(ClientResponse::Done))
    ));
    let diff = SessionDiff {
        session_id: "demo".to_string(),
        base_branch: "main".to_string(),
        branch: "agent/demo".to_string(),
        worktree: "/t".to_string(),
        diff: "+x\n".to_string(),
    };
    match answer(Then::ReportDiff, ClientResponse::Diff { diff }, false) {
        Ok(Answer::PrintDiff(lines, text)) => {
            assert_eq!(
                lines,
                vec!["name: demo", "base_branch: main", "branch: agent/demo", "worktree: /t", ""]
            );
            assert_eq!(text, "+x\n");
        }
        other => panic!("unexpected answer: {other:?}"),
    }
    let made = CreateSessionResult {
        session_id: "demo".to_string(),
        base_branch: "main".to_string(),
        branch: "agent/demo".to_string(),
        worktree: "/t".to_string(),
        status: SessionStatus::Running,
        mode: SessionMode::Execute,
        integration_policy: IntegrationPolicy::ManualReview,
    };
    assert_eq!(
        created_report("session_id: ", &made),
        vec!["session_id: demo", "base_branch: main", "branch: agent/demo", "worktree: /t"]
    );
    assert!(matches!(
        answer(Then::Attach, ClientResponse::CreateSession { session: made }, false),
        Ok(Answer::Attach(id)) if id == "demo"
    ));
}

#[test]
fn streams_go_on_until_they_end() {
    assert!(matches!(
        log_step(Some(ClientResponse::LogChunk { log: "x".to_string() })),
        StreamStep::Print(text) if text == "x"
    ));
    assert!(matches!(log_step(None), StreamStep::End));
    assert!(matches!(log_step(Some(ClientResponse::EndOfStream)), StreamStep::End));
    assert!(matches!(
        event_step(Some(ClientResponse::LogChunk { log: "x".to_string() })),
        StreamStep::Unexpected(_)
    ));
    let event = |id| SessionEvent {
        id,
        session_id: "demo".to_string(),
        timestamp: at(0),
        event_type: "x".to_string(),
        payload_json: "1".to_string(),
    };
    assert!(matches!(
        event_step(Some(ClientResponse::Event { event: event(5) })),
        StreamStep::PrintEvent(_)
    ));
    assert_eq!(events_seen(Some(3), &vec![]), Some(3));
    assert_eq!(events_seen(Some(3), &vec![event(4), event(9)]), Some(9));
    assert!(!events_go_on(false, true, true));
    assert!(events_go_on(true, true, false));
    assert!(events_go_on(true, false, true));
    assert!(!events_go_on(true, false, false));
}

#[test]
fn sessions_are_stopped_without_the_daemon() {
    let session = demo_session("demo", SessionStatus::Running, false, 1, AttentionLevel::Info);
    let plan = local_kill(&session, true, false);
    assert_eq!(plan.steps, vec![KillStep::Terminate, KillStep::MarkExited]);
    assert_eq!(plan.end, Ok(vec!["terminated session demo".to_string()]));
    let plan = local_kill(&session, false, false);
    assert_eq!(plan.steps, vec![KillStep::MarkRecovered]);
    assert_eq!(plan.end, Err("session `demo` is not running".to_string()));
    let plan = local_kill(&session, false, true);
    assert_eq!(
        plan.steps,
        vec![KillStep::MarkRecovered, KillStep::RemoveArtifacts, KillStep::Forget]
    );
    assert_eq!(plan.end, Ok(vec!["removed session demo".to_string()]));
    let session = demo_session("demo", SessionStatus::Exited, true, 1, AttentionLevel::Info);
    let plan = local_kill(&session, false, true);
    assert!(plan.steps.is_empty());
    assert_eq!(
        plan.end.unwrap_err(),
        "session `demo` has committed changes; use `agent diff demo` and `agent merge demo` before removing it, or reconnect to the daemon and run `agent discard demo`"
    );
    assert_eq!(not_found("demo"), "session `demo` not found");
}

// ---------------------------------------------------------------------------
// Reports
// ---------------------------------------------------------------------------
#[test]
fn sessions_are_reported_line_by_line() {
    let mut session = demo_session("demo", SessionStatus::Exited, true, 1, AttentionLevel::Action);
    session.exit_code = Some(-1);
    session.error = Some("boom".to_string());
    session.attention_summary = Some("look".to_string());
    session.task = "fix".to_string();
    assert_eq!(
        session_report(&session),
        vec![
            "name: demo",
            "thread_id: thread-demo",
            "agent: codex",
            "model: gpt-5.4",
            "status: exited",
            "apply_state: idle",
            "has_commits: true",
            "has_pending_changes: true",
            "attention: action",
            "attention_summary: look",
            "repo_name: workspace",
            "repo_path: /tmp/workspace",
            "workspace: /tmp/workspace",
            "base_branch: main",
            "branch: agent/demo",
            "worktree: /tmp/demo",
            "pid: 123",
            "exit_code: -1",
            "error: boom",
        ]
    );
    assert_eq!(
        short_session_report(&session),
        vec![
            "session_id: demo",
            "agent: codex",
            "status: exited",
            "repo_path: /tmp/workspace",
            "workspace: /tmp/workspace",
            "task: fix",
            "base_branch: main",
            "branch: agent/demo",
            "worktree: /tmp/demo",
            "pid: 123",
            "exit_code: -1",
            "error: boom",
        ]
    );
    assert_eq!(plain_session_line(&session), "demo\tcodex\texited\tagent/demo");
    session.thread_id = None;
    session.model = None;
    session.attention_summary = None;
    session.pid = None;
    session.exit_code = None;
    session.error = None;
    assert_eq!(session_report(&session).len(), 13);
}

#[test]
fn other_things_are_reported_too() {
    let worktree = WorktreeRecord {
        session_id: "demo".to_string(),
        repo_path: "/r".to_string(),
        base_branch: "main".to_string(),
        branch: "agent/demo".to_string(),
        worktree: "/t".to_string(),
    };
    assert_eq!(
        worktree_report("session_id: ", &worktree),
        vec![
            "session_id: demo",
            "repo_path: /r",
            "base_branch: main",
            "branch: agent/demo",
            "worktree: /t"
        ]
    );
    assert_eq!(
        cleanup_report("name: ", &worktree)[0],
        "cleaned up worktree for session demo"
    );
    assert_eq!(cleanup_report("name: ", &worktree).len(), 6);
    assert_eq!(kill_report("demo", false, false), Vec::<String>::new());
    let attachment = AttachmentRecord {
        attach_id: "a1".to_string(),
        session_id: "demo".to_string(),
        kind: AttachmentKind::Tui,
        connected_at: at(0),
    };
    assert_eq!(
        attachments_report(&vec![attachment]),
        vec!["a1\tdemo\ttui\t2023-11-14T22:13:20+00:00"]
    );
    assert_eq!(
        management_status_report(&management(), "0.1.0"),
        vec![
            "source: daemon_management",
            "daemon_version: 1.2.3",
            "daemon_protocol_version: 10",
            "client_version: 0.1.0",
            "expected_protocol_version: 10",
            "pid: 42",
            "root: /r",
            "socket: /r/agentd.sock",
            "running_sessions: true",
        ]
    );
    assert_eq!(
        daemon_info_report(&info(3), Some("0.1.0")),
        vec![
            "daemon_version: 1.2.3",
            "protocol_version: 3",
            "client_version: 0.1.0",
            "expected_protocol_version: 10"
        ]
    );
    assert_eq!(
        daemon_info_report(&info(3), None),
        vec!["daemon_version: 1.2.3", "protocol_version: 3"]
    );
    let diff = SessionDiff {
        session_id: "demo".to_string(),
        base_branch: "main".to_string(),
        branch: "agent/demo".to_string(),
        worktree: "/t".to_string(),
        diff: String::new(),
    };
    assert_eq!(diff_head("session_id: ", &diff)[0], "session_id: demo");
}

#[test]
fn attaching_starts_with_the_session_and_the_size() {
    match opening_request("demo".to_string(), 120, 40) {
        ClientRequest::AttachSession { session_id, kind, cols, rows } => {
            assert_eq!(session_id, "demo");
            assert_eq!(kind, AttachmentKind::Attach);
            assert_eq!((cols, rows), (120, 40));
        }
        other => panic!("unexpected request: {other:?}"),
    }
    assert_eq!(
        agentd::tui::pty::opening_request("demo".to_string()),
        agentd::protocol::request::Request::AttachSession { session_id: "demo".to_string() }
    );
}
