use agentd::fuzzy::{fuzzy_score, score_lowered};
use agentd::keys::{KeyCode, KeyEvent, KeyModifiers};
use agentd::local::{
    ahead_count_of, branch_range, branch_ref, command_failure, dirty_count_of, exited_update,
    normalize_degraded_session, normalize_session, process_exists, process_number,
    recovered_update, refresh_commit_state, row_to_session, session_is_running,
    start_termination, status_to_str, str_to_apply_state, str_to_attention,
    str_to_integration_policy, str_to_mode, str_to_status, wait_for_exit, EndSignal, PidFault,
    Probe, SessionRow, Termination, TerminationEvent,
};
use agentd::session::{
    ApplyState, AttentionLevel, IntegrationPolicy, IntegrationState, SessionMode, SessionRecord,
    SessionStatus,
};
use agentd::switcher::{
    filtered_sessions, in_session_switch_context, render_session_picker, session_search_text,
    switch_choices, SwitchEffect, Switcher,
};
use agentd::time::Timestamp;

fn at(seconds: i64) -> Timestamp {
    Timestamp::new(1_700_000_000 + seconds, 0).unwrap()
}

fn demo_session(has_commits: bool, has_pending_changes: bool) -> SessionRecord {
    SessionRecord {
        session_id: "demo".to_string(),
        thread_id: None,
        agent: "codex".to_string(),
        model: Some("gpt-5.4".to_string()),
        mode: SessionMode::Execute,
        workspace: "/tmp/repo".to_string(),
        repo_path: "/tmp/repo".to_string(),
        repo_name: "repo".to_string(),
        title: String::new(),
        task: "fix".to_string(),
        base_branch: "main".to_string(),
        branch: "agent/demo".to_string(),
        worktree: "/tmp/worktree".to_string(),
        status: SessionStatus::Running,
        integration_policy: IntegrationPolicy::ManualReview,
        apply_state: ApplyState::Idle,
        integration_state: IntegrationState::Clean,
        git_sync: String::new(),
        git_status_summary: None,
        has_conflicts: false,
        dirty_count: if has_pending_changes && !has_commits { 1 } else { 0 },
        ahead_count: if has_commits { 1 } else { 0 },
        has_commits,
        has_pending_changes,
        pid: Some(1),
        exit_code: None,
        error: None,
        attention: AttentionLevel::Info,
        attention_summary: None,
        created_at: at(0),
        updated_at: at(0),
        exited_at: None,
    }
}

// ---------------------------------------------------------------------------
// Changes
// ---------------------------------------------------------------------------
#[test]
fn refresh_commit_state_marks_dirty_worktree_as_pending() {
    let dirty = dirty_count_of(b" M README.md\n".to_vec()).unwrap();
    let session = refresh_commit_state(demo_session(false, false), Some(dirty), 0);

    assert!(!session.has_commits);
    assert!(session.has_pending_changes);
}

#[test]
fn refresh_commit_state_marks_committed_branch_as_pending() {
    let dirty = dirty_count_of(Vec::new()).unwrap();
    let ahead = ahead_count_of(b"1\n".to_vec()).unwrap();
    let session = refresh_commit_state(demo_session(false, false), Some(dirty), ahead);

    assert!(session.has_commits);
    assert!(session.has_pending_changes);
}

#[test]
fn changes_are_counted_by_line() {
    assert_eq!(dirty_count_of(b" M a\n\n  \n?? b\r\n".to_vec()), Ok(2));
    assert_eq!(ahead_count_of(b" 12 \n".to_vec()), Ok(12));
    assert_eq!(ahead_count_of(b"many".to_vec()), Ok(0));
    assert_eq!(ahead_count_of(b"4294967296".to_vec()), Ok(0));
    let expected = String::from_utf8(vec![0xff]).unwrap_err().to_string();
    assert_eq!(dirty_count_of(vec![0xff]), Err(expected.clone()));
    assert_eq!(ahead_count_of(vec![0xff]), Err(expected));
    assert_eq!(command_failure("failed: ", b" fatal: \xff \n"), "failed: fatal: \u{fffd}");
    assert_eq!(branch_ref("agent/demo"), "refs/heads/agent/demo");
    assert_eq!(branch_range("main", "agent/demo"), "main..agent/demo");
    let session = refresh_commit_state(demo_session(true, true), None, 0);
    assert!(!session.has_commits && !session.has_pending_changes);
    assert_eq!(session.dirty_count, 0);
}

// ---------------------------------------------------------------------------
// Which sessions run
// ---------------------------------------------------------------------------
#[test]
fn degraded_mode_normalizes_running_session_to_recovered() {
    let session = demo_session(false, false);
    let normalized = normalize_degraded_session(session);
    assert_eq!(normalized.status, SessionStatus::UnknownRecovered);
}

#[test]
fn degraded_mode_preserves_exited_status() {
    let mut session = demo_session(false, false);
    session.status = SessionStatus::Exited;
    let normalized = normalize_degraded_session(session);
    assert_eq!(normalized.status, SessionStatus::Exited);
}

#[test]
fn sessions_run_while_their_process_is_there() {
    let session = demo_session(false, false);
    assert!(session_is_running(&session, true));
    assert!(!session_is_running(&session, false));
    assert_eq!(normalize_session(session.clone(), true), session);
    let gone = normalize_session(session.clone(), false);
    assert_eq!(gone.status, SessionStatus::UnknownRecovered);
    assert_eq!(normalize_session(gone.clone(), false), gone);
    assert_eq!(normalize_degraded_session(gone.clone()), gone);
    assert_eq!(process_number(None), None);
    assert_eq!(process_number(Some(0)), None);
    assert_eq!(process_number(Some(7)), Some(7));
    assert_eq!(process_number(Some(u32::MAX)), Some(-1));
    assert!(!process_exists(Some(0), true));
    assert!(process_exists(Some(7), true));
}

#[test]
fn processes_are_ended_step_by_step() {
    assert_eq!(start_termination(None), Err(PidFault::Missing));
    assert_eq!(start_termination(Some(0)), Err(PidFault::Zero));
    assert_eq!(PidFault::Missing.message("demo"), "session `demo` has no recorded pid");
    assert_eq!(PidFault::Zero.message("demo"), "session `demo` has an invalid pid");
    let (pid, state) = start_termination(Some(7)).unwrap();
    assert_eq!(pid, 7);
    assert_eq!(state, Termination::Sending(EndSignal::Terminate));
    let waiting = state.next(TerminationEvent::Sent);
    assert_eq!(waiting.next(TerminationEvent::Exited), Termination::Gone);
    let killing = waiting.next(TerminationEvent::TimedOut);
    assert_eq!(killing, Termination::Sending(EndSignal::Kill));
    let last = killing.next(TerminationEvent::Sent).next(TerminationEvent::TimedOut);
    assert_eq!(
        last.failure("demo").unwrap(),
        "session `demo` did not exit after SIGTERM and SIGKILL"
    );
    assert_eq!(
        state.next(TerminationEvent::NoSuchProcess).failure("demo").unwrap(),
        "session `demo` is not running"
    );
    assert_eq!(
        killing.next(TerminationEvent::SignalRefused).failure("demo").unwrap(),
        "failed to send SIGKILL to session `demo`"
    );
    assert_eq!(Termination::Gone.failure("demo"), None);
    assert_eq!(Termination::Gone.next(TerminationEvent::Sent), Termination::Gone);
    assert_eq!(wait_for_exit(Probe::NoSuchProcess, true), Some(true));
    assert_eq!(wait_for_exit(Probe::Refused, false), Some(false));
    assert_eq!(wait_for_exit(Probe::There, false), None);
    assert_eq!(wait_for_exit(Probe::There, true), Some(false));
}

// ---------------------------------------------------------------------------
// Rows
// ---------------------------------------------------------------------------
fn demo_row() -> SessionRow {
    SessionRow {
        session_id: "demo".to_string(),
        agent: "codex".to_string(),
        model: None,
        mode: "plan".to_string(),
        workspace: "/w".to_string(),
        repo_path: "/r".to_string(),
        repo_name: "r".to_string(),
        base_branch: "main".to_string(),
        branch: "agent/demo".to_string(),
        worktree: "/t".to_string(),
        status: "paused".to_string(),
        integration_policy: "auto_apply_safe".to_string(),
        integration_state: "pending_review".to_string(),
        pid: Some(9),
        exit_code: Some(-1),
        error: None,
        attention: "notice".to_string(),
        attention_summary: Some("look".to_string()),
        created_at: "2023-11-14T22:13:20+00:00".to_string(),
        updated_at: "2023-11-14T23:13:20.5+01:00".to_string(),
        exited_at: None,
    }
}

#[test]
fn rows_become_sessions() {
    let session = row_to_session(demo_row()).unwrap();
    assert_eq!(session.mode, SessionMode::Plan);
    assert_eq!(session.status, SessionStatus::UnknownRecovered);
    assert_eq!(session.integration_policy, IntegrationPolicy::AutoApplySafe);
    assert_eq!(session.apply_state, ApplyState::Idle);
    assert_eq!(session.attention, AttentionLevel::Notice);
    assert_eq!(session.created_at, at(0));
    assert_eq!(session.updated_at, Timestamp::new(1_700_000_000, 500_000_000).unwrap());
    assert_eq!(session.exited_at, None);
    assert_eq!(session.pid, Some(9));
    assert_eq!(session.exit_code, Some(-1));
    assert!(!session.has_commits);
}

#[test]
fn rows_fail_by_column() {
    let mut row = demo_row();
    row.mode = "x".to_string();
    let error = row_to_session(row).unwrap_err();
    assert_eq!((error.column, error.message.as_str()), (3, "unknown session mode `x`"));
    let mut row = demo_row();
    row.status = "x".to_string();
    let error = row_to_session(row).unwrap_err();
    assert_eq!((error.column, error.message.as_str()), (10, "unknown session status `x`"));
    let mut row = demo_row();
    row.integration_policy = "x".to_string();
    let error = row_to_session(row).unwrap_err();
    assert_eq!((error.column, error.message.as_str()), (11, "unknown integration policy `x`"));
    let mut row = demo_row();
    row.integration_state = "x".to_string();
    let error = row_to_session(row).unwrap_err();
    assert_eq!((error.column, error.message.as_str()), (12, "unknown apply state `x`"));
    let mut row = demo_row();
    row.attention = "x".to_string();
    let error = row_to_session(row).unwrap_err();
    assert_eq!((error.column, error.message.as_str()), (16, "unknown attention level `x`"));
    let expected = chrono::DateTime::parse_from_rfc3339("x").unwrap_err().to_string();
    let mut row = demo_row();
    row.exited_at = Some("x".to_string());
    let error = row_to_session(row).unwrap_err();
    assert_eq!((error.column, error.message), (0, expected));
}

#[test]
fn names_are_read_back() {
    for status in [
        SessionStatus::Creating,
        SessionStatus::Running,
        SessionStatus::Exited,
        SessionStatus::Failed,
        SessionStatus::UnknownRecovered,
    ] {
        assert_eq!(str_to_status(status_to_str(status)), Ok(status));
    }
    assert_eq!(status_to_str(SessionStatus::NeedsInput), "running");
    for state in
        [ApplyState::Idle, ApplyState::AutoApplying, ApplyState::Applied, ApplyState::Discarded]
    {
        assert_eq!(str_to_apply_state(state.as_str()), Ok(state));
    }
    assert_eq!(str_to_apply_state("clean"), Ok(ApplyState::Idle));
    for level in [AttentionLevel::Info, AttentionLevel::Notice, AttentionLevel::Action] {
        assert_eq!(str_to_attention(level.as_str()), Ok(level));
    }
    for policy in [IntegrationPolicy::ManualReview, IntegrationPolicy::AutoApplySafe] {
        assert_eq!(str_to_integration_policy(policy.as_str()), Ok(policy));
    }
    for mode in [SessionMode::Execute, SessionMode::Plan] {
        assert_eq!(str_to_mode(mode.as_str()), Ok(mode));
    }
}

#[test]
fn updates_are_stamped() {
    let update = exited_update(at(0));
    assert_eq!(update.status, "exited");
    assert_eq!(update.updated_at, "2023-11-14T22:13:20+00:00");
    assert_eq!(update.exited_at.as_deref(), Some("2023-11-14T22:13:20+00:00"));
    let update = recovered_update(at(1));
    assert_eq!(update.status, "unknown_recovered");
    assert_eq!(update.updated_at, "2023-11-14T22:13:21+00:00");
    assert_eq!(update.exited_at, None);
}

// ---------------------------------------------------------------------------
// Going to another session
// ---------------------------------------------------------------------------
fn named(id: &str, created: i64) -> SessionRecord {
    let mut session = demo_session(false, false);
    session.session_id = id.to_string();
    session.created_at = at(created);
    session
}

#[test]
fn fuzzy_scores_prefer_close_characters() {
    assert_eq!(fuzzy_score("anything", ""), Some(0));
    assert_eq!(fuzzy_score("abc", "abc"), Some(10 + 25 + 25));
    assert_eq!(fuzzy_score("xAbC", "aB"), Some(10 - 1 + 25));
    assert_eq!(fuzzy_score("a-b", "ab"), Some(10 + 10 - 1));
    assert_eq!(fuzzy_score("abc", "ca"), None);
    assert_eq!(fuzzy_score("ÄB", "äb"), Some(10 + 10 - 1));
    assert_eq!(fuzzy_score("aé", "aé"), Some(10 + 10));
    assert_eq!(score_lowered("ABC", "abc"), None);
    assert_eq!(score_lowered("", "a"), None);
}

#[test]
fn the_best_match_comes_first() {
    let sessions = vec![named("fix-a-b", 0), named("fix-ab", 5), named("other", 1), named("fix-ab", 2)];
    let found = filtered_sessions(&sessions, "fixab");
    assert_eq!(found.len(), 3);
    assert_eq!(found[0].1.created_at, at(2));
    assert_eq!(found[1].1.created_at, at(5));
    assert_eq!(found[2].1.session_id, "fix-a-b");
    assert!(found[0].0 == found[1].0 && found[1].0 > found[2].0);
    assert_eq!(session_search_text(&sessions[2]), "other codex agent/demo fix /tmp/repo");
}

#[test]
fn only_other_running_sessions_are_offered() {
    let mut ended = named("ended", 0);
    ended.status = SessionStatus::Exited;
    let choices = switch_choices(&vec![named("a", 0), ended, named("b", 0)], "a");
    assert_eq!(choices.len(), 1);
    assert_eq!(choices[0].session_id, "b");
    assert_eq!(
        in_session_switch_context(true, true, Some("a".to_string())),
        Some("a".to_string())
    );
    assert_eq!(in_session_switch_context(false, true, Some("a".to_string())), None);
}

fn press(code: KeyCode) -> KeyEvent {
    KeyEvent::new(code, KeyModifiers::none())
}

#[test]
fn the_switcher_takes_keys() {
    let sessions = vec![named("alpha", 0), named("beta", 1)];
    let mut switcher = Switcher::new();
    let all = filtered_sessions(&sessions, "");
    assert!(matches!(switcher.handle_key(press(KeyCode::Down), &all), SwitchEffect::Stay));
    assert!(matches!(switcher.handle_key(press(KeyCode::Down), &all), SwitchEffect::Stay));
    assert_eq!(switcher.selected, 1);
    assert!(matches!(
        switcher.handle_key(press(KeyCode::Enter), &all),
        SwitchEffect::Switch(id) if id == "beta"
    ));
    switcher.handle_key(press(KeyCode::Char('x')), &all);
    assert_eq!((switcher.query.clone(), switcher.selected), (vec!['x'], 0));
    switcher.handle_key(press(KeyCode::Backspace), &all);
    switcher.handle_key(press(KeyCode::Backspace), &all);
    assert!(switcher.query.is_empty());
    switcher.selected = 9;
    switcher.clamp(2);
    assert_eq!(switcher.selected, 1);
    switcher.handle_key(press(KeyCode::Up), &all);
    assert_eq!(switcher.selected, 0);
    assert!(matches!(switcher.handle_key(press(KeyCode::Esc), &all), SwitchEffect::Cancel));
    assert!(matches!(
        switcher.handle_key(KeyEvent::new(KeyCode::Char('c'), KeyModifiers::control()), &all),
        SwitchEffect::Cancel
    ));
    let none = filtered_sessions(&sessions, "zzz");
    assert!(matches!(switcher.handle_key(press(KeyCode::Enter), &none), SwitchEffect::Stay));
}

#[test]
fn the_switcher_shows_its_matches() {
    let sessions = vec![named("alpha", 0), named("beta", 1)];
    assert_eq!(
        render_session_picker("q", &filtered_sessions(&sessions, ""), 1),
        vec![
            "Switch session",
            "Query: q",
            "Enter switches, Esc cancels",
            "",
            "  alpha  codex  running  agent/demo",
            "  fix",
            "> beta  codex  running  agent/demo",
            "  fix",
        ]
    );
    assert_eq!(
        render_session_picker("q", &vec![], 0)[4],
        "No matching running sessions."
    );
    let many = (0..12).map(|i| named("s", i)).collect::<Vec<_>>();
    assert_eq!(render_session_picker("", &filtered_sessions(&many, ""), 0).len(), 24);
}
