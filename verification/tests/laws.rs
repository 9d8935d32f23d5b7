use agentd::keys::{KeyCode, KeyEvent, KeyModifiers};
use agentd::overlay::{AttachOverlay, OverlayEffect, OverlayMode, OverlayOutcome};
use agentd::picker::{PickerEffect, PickerMode, SessionPicker};
use agentd::picker_style::{
    fit_host_picker_line, host_picker_text, style_host_picker_menu_line,
};
use agentd::protocol::error::WireError;
use agentd::protocol::kind::MessageKind;
use agentd::session::{
    ApplyState, AttentionLevel, IntegrationPolicy, IntegrationState, SessionMode, SessionRecord,
    SessionStatus,
};
use agentd::session_display::{
    style_age, style_ahead, style_branch, style_dirty, style_name, style_run, RunState,
};
use agentd::session_find::{filtered_sessions, session_by_id};
use agentd::session_list::{
    format_session_list_cell, ordered_sessions, session_list_layout, session_list_total_width,
    session_list_visible_width,
};
use agentd::terminal::surface::TerminalSurface;
use agentd::text::{decimal_of, lines_of, parse_u32, signed_decimal_of, single_spaced};
use agentd::time::Timestamp;
use agentd::tui::app::{
    ComposerField, FocusTarget, HistoryPlan, Modal, PtyPlan, RuntimeApp, RuntimeEffect,
};
use agentd::tui::badge;
use agentd::tui::palette::Command;
use agentd::protocol::field::WireStatus;
use agentd::protocol::request::Request;
use agentd::protocol::response::Response;
use agentd::tui::pty::{
    FocusedPty, PtyAction, PtyCommand, PtyConnection, PtyEvent, PtyInput, PtyStage,
};

fn at(seconds: i64) -> Timestamp {
    Timestamp::new(1_700_000_000 + seconds, 0).unwrap()
}

fn session(id: &str, status: SessionStatus, updated: i64) -> SessionRecord {
    SessionRecord {
        session_id: id.to_string(),
        thread_id: None,
        agent: "codex".to_string(),
        model: None,
        mode: SessionMode::Execute,
        workspace: "/tmp/repo".to_string(),
        repo_path: "/tmp/repo".to_string(),
        repo_name: "repo".to_string(),
        title: id.to_string(),
        task: String::new(),
        base_branch: "main".to_string(),
        branch: format!("agent/{id}"),
        worktree: format!("/tmp/{id}"),
        status,
        integration_policy: IntegrationPolicy::ManualReview,
        apply_state: ApplyState::Idle,
        integration_state: IntegrationState::Clean,
        git_sync: "unknown".to_string(),
        git_status_summary: None,
        has_conflicts: false,
        dirty_count: 0,
        ahead_count: 0,
        has_commits: false,
        has_pending_changes: false,
        pid: None,
        exit_code: None,
        error: None,
        attention: AttentionLevel::Info,
        attention_summary: None,
        created_at: at(0),
        updated_at: at(updated),
        exited_at: None,
    }
}

fn press(code: KeyCode) -> KeyEvent {
    KeyEvent::new(code, KeyModifiers::none())
}

// ---------------------------------------------------------------------------
// Lists
// ---------------------------------------------------------------------------
#[test]
fn lists_hold_every_session_in_order() {
    let sessions = vec![
        session("ended", SessionStatus::Exited, 9),
        session("failed", SessionStatus::Failed, 1),
        session("old", SessionStatus::Running, 2),
        session("new", SessionStatus::Running, 3),
    ];
    let names = ordered_sessions(&sessions)
        .iter()
        .map(|session| session.session_id.as_str())
        .collect::<Vec<_>>();
    assert_eq!(names, vec!["new", "old", "failed", "ended"]);
}

#[test]
fn matches_are_exact() {
    let sessions =
        vec![session("alpha", SessionStatus::Running, 1), session("beta", SessionStatus::Exited, 2)];
    let found = filtered_sessions(&sessions, "EXIT");
    assert_eq!(found.len(), 1);
    assert_eq!(found[0].session_id, "beta");
    assert_eq!(session_by_id(&sessions, "alpha").unwrap().session_id, "alpha");
    assert!(session_by_id(&sessions, "gamma").is_none());
}

#[test]
fn lists_fill_their_width() {
    for width in 0..260 {
        let layout = session_list_layout(width);
        assert!(layout.session >= 6 && layout.session <= 24);
        assert!(layout.repo >= 6 && layout.repo <= 18);
        assert!(layout.branch >= 8 && layout.branch <= 34);
        assert!(
            session_list_total_width(layout) <= session_list_visible_width(width)
                || (layout.session == 6 && layout.repo == 6 && layout.branch == 8)
        );
    }
}

#[test]
fn cells_fill_their_columns() {
    for content in ["", "ab", "abcdef", "abcdefghijkl", "äöü"] {
        for width in 0..10 {
            assert_eq!(format_session_list_cell(content, width).chars().count(), width);
        }
    }
    assert_eq!(format_session_list_cell("abcdefgh", 6), "abc...");
}

#[test]
fn lines_fit_their_width() {
    assert_eq!(fit_host_picker_line("abc", 10), "abc");
    assert!(fit_host_picker_line("abcdefgh", 4).chars().count() <= 4);
    assert!(style_host_picker_menu_line("attach", 30, true).contains("attach"));
    assert!(host_picker_text(&vec!["a".to_string()], 0).ends_with('a'));
}

#[test]
fn names_are_shown_in_their_styles() {
    for styled in [
        style_run("x", RunState::Failed),
        style_dirty("x", 1),
        style_ahead("x", 1),
        style_age("x"),
        style_name("x"),
        style_branch("x"),
    ] {
        assert!(styled.starts_with("\u{1b}[") && styled.ends_with("x\u{1b}[0m"), "{styled:?}");
    }
    assert_eq!(style_dirty("x", 0), "x");
    assert_eq!(style_ahead("x", 0), "x");
}

// ---------------------------------------------------------------------------
// The picker and the overlay
// ---------------------------------------------------------------------------
#[test]
fn keys_keep_the_selection_on_a_row() {
    let mut picker = SessionPicker::new(vec!["codex".to_string()]);
    picker.refresh_sessions(
        vec![session("a", SessionStatus::Running, 1), session("b", SessionStatus::Running, 2)],
        vec!["codex".to_string()],
    );
    for code in [
        KeyCode::Down,
        KeyCode::Down,
        KeyCode::Down,
        KeyCode::Up,
        KeyCode::Char('b'),
        KeyCode::Backspace,
        KeyCode::Enter,
        KeyCode::Down,
        KeyCode::Down,
        KeyCode::Down,
        KeyCode::Enter,
    ] {
        let _ = picker.handle_key(press(code), "codex");
        assert!(picker.composer.selected < picker.picker_rows().len());
        match &picker.mode {
            PickerMode::SessionActions { session_id, selected } => {
                assert!(*selected < picker.action_items(session_id).len());
            }
            PickerMode::DeleteConfirm { selected, .. } => assert!(*selected < 2),
            PickerMode::CreateAgentSelect { selected } => {
                assert!(*selected < picker.create_agents.len());
            }
            _ => {}
        }
    }
}

#[test]
fn deleting_asks_first() {
    let mut picker = SessionPicker::new(vec!["codex".to_string()]);
    picker.refresh_sessions(
        vec![session("a", SessionStatus::Exited, 1)],
        vec!["codex".to_string()],
    );
    picker.open_action_menu("a");
    assert_eq!(picker.handle_key(press(KeyCode::Down), "codex"), PickerEffect::Stay);
    assert_eq!(picker.handle_key(press(KeyCode::Enter), "codex"), PickerEffect::Stay);
    assert!(matches!(picker.mode, PickerMode::DeleteConfirm { .. }));
    assert_eq!(
        picker.handle_key(press(KeyCode::Char('y')), "codex"),
        PickerEffect::Remove("a".to_string())
    );
}

#[test]
fn escape_leads_out_of_the_overlay() {
    let mut overlay = AttachOverlay::new("a".to_string());
    overlay.open(vec![session("a", SessionStatus::Running, 1)]);
    overlay.mode = OverlayMode::StopConfirm;
    assert_eq!(overlay.handle_key(press(KeyCode::Esc)), OverlayEffect::Stay);
    assert_eq!(overlay.mode, OverlayMode::Palette);
    assert_eq!(
        overlay.handle_key(press(KeyCode::Esc)),
        OverlayEffect::Finish(OverlayOutcome::Close)
    );
}

#[test]
fn the_overlay_switches_to_a_session() {
    let mut overlay = AttachOverlay::new("a".to_string());
    overlay.mode = OverlayMode::SessionSwitcher;
    overlay.sessions_loaded(vec![
        session("a", SessionStatus::Running, 1),
        session("b", SessionStatus::Running, 2),
    ]);
    assert_eq!(
        overlay.handle_key(press(KeyCode::Enter)),
        OverlayEffect::Finish(OverlayOutcome::SwitchSession("b".to_string()))
    );
    overlay.handle_key(press(KeyCode::Char('z')));
    assert_eq!(overlay.handle_key(press(KeyCode::Enter)), OverlayEffect::Stay);
}

// ---------------------------------------------------------------------------
// The full-screen view
// ---------------------------------------------------------------------------
fn view() -> RuntimeApp {
    let mut app = RuntimeApp::new(None);
    app.refresh_sessions(
        vec![
            session("a", SessionStatus::Running, 1),
            session("b", SessionStatus::Exited, 2),
            session("c", SessionStatus::NeedsInput, 3),
        ],
        at(10),
    );
    app
}

#[test]
fn going_on_and_back_leads_nowhere() {
    let mut app = view();
    for target in app.ordered_targets() {
        app.focus = target;
        let before = format!("{:?}", app.focus);
        app.cycle_focus(1, false);
        assert_ne!(format!("{:?}", app.focus), before);
        app.cycle_focus(-1, false);
        assert_eq!(format!("{:?}", app.focus), before);
    }
    let wanting = format!("{:?}", app.attention_targets());
    app.cycle_focus(1, true);
    assert!(wanting.contains(&format!("{:?}", app.focus)));
}

#[test]
fn the_focus_stays_on_a_session() {
    let mut app = view();
    app.focus = FocusTarget::Worker("a".to_string());
    app.refresh_sessions(vec![session("b", SessionStatus::Exited, 2)], at(10));
    assert!(app.focused_session().is_some() || matches!(app.focus, FocusTarget::Coordinator));
}

#[test]
fn the_terminal_follows_the_focus() {
    let mut app = view();
    app.focus = FocusTarget::Worker("a".to_string());
    assert_eq!(app.plan_pty(), PtyPlan::Attach("a".to_string()));
    app.pty = Some(FocusedPty::new("a".to_string()));
    assert_eq!(app.plan_pty(), PtyPlan::Keep);
    app.focus = FocusTarget::Worker("b".to_string());
    assert_eq!(app.plan_pty(), PtyPlan::Stop);
    assert_eq!(app.plan_history(), HistoryPlan::Load("b".to_string(), at(2)));
    app.history_loaded("b".to_string(), at(2), "done".to_string());
    assert_eq!(app.plan_history(), HistoryPlan::Keep);
    assert_eq!(app.focused_history, "done");
}

#[test]
fn the_leader_key_is_followed_by_a_command() {
    let mut app = view();
    let leader = KeyEvent::new(KeyCode::Char('b'), KeyModifiers::control());
    assert_eq!(app.handle_key(leader, None, at(10)), RuntimeEffect::Stay);
    assert!(app.leader_pending);
    assert_eq!(app.run_command(Command::SessionSwitcher, at(10)), RuntimeEffect::Stay);
    assert!(app.composer.active && app.composer.field == ComposerField::Query);
    app.close_composer();
    app.focus = FocusTarget::Worker("a".to_string());
    assert_eq!(
        app.run_command(Command::Diff, at(10)),
        RuntimeEffect::LoadDiff("a".to_string())
    );
    app.diff_loaded(Ok("+x".to_string()));
    assert_eq!(app.modal, Modal::Diff);
}

#[test]
fn urgent_sessions_come_first() {
    let sessions = vec![
        session("b", SessionStatus::Exited, 2),
        session("a", SessionStatus::Running, 1),
        session("c", SessionStatus::NeedsInput, 3),
    ];
    let first = badge::ordered_sessions(&sessions);
    assert_eq!(first[0].session_id, "c");
    for pair in first.windows(2) {
        assert!(badge::session_rank(pair[0]) <= badge::session_rank(pair[1]));
    }
}

// ---------------------------------------------------------------------------
// The terminal
// ---------------------------------------------------------------------------
fn shown(surface: &TerminalSurface) -> Vec<String> {
    surface
        .render_lines(false)
        .iter()
        .map(|line| line.spans.iter().map(|span| span.text.as_str()).collect::<String>())
        .map(|line| line.trim_end().to_string())
        .collect()
}

#[test]
fn the_saved_cursor_comes_back() {
    let mut surface = TerminalSurface::new(10, 2);
    assert!(surface.process_if_possible(b"ab\x1b7\x1b[2;5Hzz\x1b8c"));
    assert_eq!(shown(&surface), vec!["abc", "    zz"]);
}

#[test]
fn printed_text_is_shown() {
    let mut surface = TerminalSurface::new(10, 1);
    surface.process("héllo".as_bytes());
    assert_eq!(shown(&surface), vec!["héllo"]);
}

/// All that a connection tells about what happens to it.
fn told(inputs: Vec<PtyInput>) -> Vec<PtyEvent> {
    let mut connection = PtyConnection::new();
    inputs.into_iter().flat_map(|input| connection.handle(input).0).collect()
}

fn answer(response: Response) -> PtyInput {
    PtyInput::Response(Some(response))
}

fn attached() -> PtyInput {
    answer(Response::Attached { snapshot: vec![1] })
}

#[test]
fn connections_tell_in_order() {
    assert_eq!(
        told(vec![
            attached(),
            answer(Response::PtyOutput { data: vec![2] }),
            PtyInput::Command(Some(PtyCommand::Input(vec![9]))),
            answer(Response::PtyOutput { data: vec![3] }),
            answer(Response::SessionEnded {
                session_id: "a".to_string(),
                status: WireStatus::Exited,
                exit_code: None,
                error: None,
            }),
            answer(Response::PtyOutput { data: vec![4] }),
            PtyInput::Failed("late".to_string()),
        ]),
        vec![
            PtyEvent::Snapshot(vec![1]),
            PtyEvent::Output(vec![2]),
            PtyEvent::Output(vec![3]),
            PtyEvent::Ended("session ended: exited".to_string()),
            PtyEvent::Closed,
        ]
    );
    assert_eq!(
        told(vec![PtyInput::Failed("no socket".to_string())]),
        vec![PtyEvent::Error("no socket".to_string()), PtyEvent::Closed]
    );
    assert_eq!(
        told(vec![PtyInput::Response(None)]),
        vec![PtyEvent::Error("agentd closed the connection".to_string()), PtyEvent::Closed]
    );
    assert_eq!(
        told(vec![attached(), PtyInput::Response(None)]),
        vec![PtyEvent::Snapshot(vec![1]), PtyEvent::Closed]
    );
    assert_eq!(
        told(vec![attached(), PtyInput::Command(Some(PtyCommand::Close))]),
        vec![PtyEvent::Snapshot(vec![1]), PtyEvent::Closed]
    );
    assert_eq!(
        told(vec![answer(Response::Error { message: "no".to_string() })]),
        vec![PtyEvent::Error("no".to_string()), PtyEvent::Closed]
    );
    assert_eq!(
        told(vec![attached(), answer(Response::EndOfStream)]),
        vec![PtyEvent::Snapshot(vec![1]), PtyEvent::Closed]
    );
}

#[test]
fn connections_do_what_they_are_asked() {
    let mut connection = PtyConnection::new();
    assert_eq!(
        connection.handle(answer(Response::Done)),
        (vec![], PtyAction::Describe(Response::Done))
    );
    assert_eq!(connection.stage, PtyStage::Attaching);
    connection.handle(attached());
    assert_eq!(
        connection.handle(PtyInput::Command(Some(PtyCommand::Input(vec![9])))),
        (vec![], PtyAction::Send(Request::AttachInput { data: vec![9] }))
    );
    assert_eq!(
        connection.handle(PtyInput::Command(Some(PtyCommand::Resize { cols: 80, rows: 24 }))),
        (vec![], PtyAction::Resize { cols: 80, rows: 24 })
    );
    assert_eq!(
        connection.handle(PtyInput::Command(None)),
        (vec![PtyEvent::Closed], PtyAction::Stop)
    );
}

#[test]
fn connections_fill_the_terminal() {
    let mut pty = FocusedPty::new("a".to_string());
    assert!(pty.connected);
    assert!(pty.handle_event(PtyEvent::Snapshot(b"one".to_vec())));
    assert!(pty.handle_event(PtyEvent::Output(b" two".to_vec())));
    assert!(shown(&pty.terminal)[0].starts_with("one two"));
    pty.handle_event(PtyEvent::Ended("session ended: exited".to_string()));
    assert!(!pty.connected);
    assert_eq!(pty.last_error.as_deref(), Some("session ended: exited"));
}

// ---------------------------------------------------------------------------
// Codes and texts
// ---------------------------------------------------------------------------
#[test]
fn codes_lead_back() {
    let mut known = 0;
    for code in 0..=u16::MAX {
        match MessageKind::from_u16(code) {
            Ok(kind) => {
                known += 1;
                assert_eq!(kind.to_u16(), code);
            }
            Err(error) => assert_eq!(error, WireError::UnknownKind(code)),
        }
    }
    assert_eq!(known, 34);
}

#[test]
fn numbers_are_read_back() {
    for n in [0, 7, 10, 4_294_967_295_u64] {
        assert_eq!(decimal_of(n), format!("{n}"));
        assert_eq!(parse_u32(&decimal_of(n)), Some(n as u32));
    }
    for n in [i64::MIN, -1, 0, i64::MAX] {
        assert_eq!(signed_decimal_of(n), format!("{n}"));
    }
}

#[test]
fn lines_are_the_ones_of_strings() {
    for text in ["", "a", "a\n", "a\r\nb", "\n\n", "a\rb\r", "x\r\n\r\n"] {
        assert_eq!(lines_of(text), text.lines().map(str::to_string).collect::<Vec<_>>());
    }
    for text in ["", " a  b\n\tc ", "\u{3000}x"] {
        assert_eq!(single_spaced(text), text.split_whitespace().collect::<Vec<_>>().join(" "));
    }
}
