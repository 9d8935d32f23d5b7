use agentd::config::Config;
use agentd::keys::{KeyCode, KeyEvent, KeyModifiers};
use agentd::overlay::{
    format_details, AttachOverlay, OverlayEffect, OverlayEvent, OverlayMode, OverlayOutcome,
};
use agentd::overlay_render::OverlayScreen;
use agentd::picker::{
    configured_agent_names, default_model, PickerComposer, PickerEffect, PickerMode, PickerRow,
    SessionAction, SessionPicker,
};
use agentd::picker_style::{
    cursor_is_visible, fit_host_picker_line, format_merge_failure_toast, host_picker_text,
    render_host_picker_create_row, render_host_picker_legend_row, render_host_picker_session_row,
    render_host_picker_title_line, render_host_picker_toast_line, sanitize_picker_message,
    style_host_picker_background_row, style_host_picker_diff_line, style_host_picker_query_line,
    PickerToast, HOST_PICKER_CURSOR, HOST_PICKER_DIFF_ADD_STYLE, HOST_PICKER_DIFF_HEADER_STYLE,
    HOST_PICKER_DIFF_HUNK_STYLE, HOST_PICKER_DIFF_REMOVE_STYLE, HOST_PICKER_ENTER_SEQUENCE,
    HOST_PICKER_EXIT_SEQUENCE, HOST_PICKER_LEGEND_TEXT_STYLE, HOST_PICKER_PLACEHOLDER_FG,
    HOST_PICKER_SELECTED_STYLE,
};
use agentd::session::{
    ApplyState, AttentionLevel, IntegrationPolicy, SessionMode, SessionRecord, SessionStatus,
};
use agentd::session_display::ANSI_RESET;
use agentd::session_list::{
    ordered_sessions, pending_changes_marker, render_session_list_header_content,
    render_session_list_header_row, render_session_list_lines, render_session_list_lines_at,
    session_icon, session_icon_color, session_list_layout, HOST_PICKER_QUERY_BG,
    HOST_PICKER_SESSION_PREFIX_WIDTH, HOST_PICKER_STATUS_BLUE_FG, HOST_PICKER_STATUS_GREEN_FG,
    HOST_PICKER_STATUS_RED_FG, HOST_PICKER_STATUS_YELLOW_FG, HOST_PICKER_TEXT_FG,
};
use agentd::style::Color;
use agentd::time::Timestamp;

#[derive(Clone, Copy)]
enum IntegrationState {
    Clean,
    Applied,
    PendingReview,
    Blocked,
}

fn strip_ansi(input: &str) -> String {
    let mut output = String::new();
    let mut chars = input.chars().peekable();
    while let Some(ch) = chars.next() {
        if ch == '\u{1b}' {
            if matches!(chars.peek(), Some('[')) {
                chars.next();
                while let Some(next) = chars.next() {
                    if ('@'..='~').contains(&next) {
                        break;
                    }
                }
            }
            continue;
        }
        output.push(ch);
    }
    output
}

fn now() -> Timestamp {
    let now = chrono::Utc::now();
    Timestamp::new(now.timestamp(), now.timestamp_subsec_nanos()).unwrap()
}

fn minutes(from: Timestamp, minutes: i64) -> Timestamp {
    Timestamp::new(from.seconds + 60 * minutes, from.nanos).unwrap()
}

fn new_picker() -> SessionPicker {
    SessionPicker::new(vec!["codex".to_string(), "cline".to_string()])
}

fn demo(session_id: &str, repo_name: &str) -> SessionRecord {
    demo_with(session_id, repo_name, SessionStatus::Running, IntegrationState::Clean)
}

fn demo_with(
    session_id: &str,
    repo_name: &str,
    status: SessionStatus,
    integration_state: IntegrationState,
) -> SessionRecord {
    let (apply_state, has_commits) = match integration_state {
        IntegrationState::Clean => (ApplyState::Idle, false),
        IntegrationState::Applied => (ApplyState::Applied, false),
        IntegrationState::PendingReview | IntegrationState::Blocked => (ApplyState::Idle, true),
    };
    let attention = match integration_state {
        IntegrationState::Blocked => AttentionLevel::Action,
        _ => AttentionLevel::Info,
    };
    let now = now();
    SessionRecord {
        session_id: session_id.to_string(),
        thread_id: Some(format!("thread-{session_id}")),
        agent: "codex".to_string(),
        model: Some("gpt-5.4".to_string()),
        mode: SessionMode::Execute,
        workspace: "/tmp/repo".to_string(),
        repo_path: "/tmp/repo".to_string(),
        repo_name: repo_name.to_string(),
        title: session_id.to_string(),
        task: String::new(),
        base_branch: "main".to_string(),
        branch: format!("agent/{session_id}"),
        worktree: format!("/tmp/{session_id}"),
        status,
        integration_policy: IntegrationPolicy::AutoApplySafe,
        apply_state,
        integration_state: agentd::session::IntegrationState::Clean,
        git_sync: String::new(),
        git_status_summary: None,
        has_conflicts: false,
        dirty_count: 0,
        ahead_count: 0,
        has_commits,
        has_pending_changes: has_commits,
        pid: Some(123),
        exit_code: None,
        error: None,
        attention,
        attention_summary: None,
        created_at: now,
        updated_at: now,
        exited_at: None,
    }
}

fn default_composer() -> PickerComposer {
    PickerComposer { query: String::new(), selected: 0 }
}

#[test]
fn picker_rows_include_create_and_matching_sessions() {
    let mut picker = new_picker();
    picker.sessions = vec![demo("alpha", "repo-a"), demo("beta", "repo-b")];

    let rows = picker.picker_rows();
    assert_eq!(rows[2], PickerRow::Create);
    assert!(rows[..2].contains(&PickerRow::Session("alpha".to_string())));
    assert!(rows[..2].contains(&PickerRow::Session("beta".to_string())));
    assert_eq!(rows.len(), 3);
}

#[test]
fn query_filter_keeps_create_row() {
    let mut picker = new_picker();
    picker.sessions = vec![demo("alpha", "repo-a"), demo("beta", "repo-b")];
    picker.composer = PickerComposer { query: "beta".to_string(), selected: 0 };

    let rows = picker.picker_rows();
    assert_eq!(rows, vec![PickerRow::Session("beta".to_string()), PickerRow::Create]);
}

#[test]
fn clamp_selection_caps_to_available_rows() {
    let mut picker = new_picker();
    picker.sessions = vec![demo("alpha", "repo-a")];
    picker.composer.selected = 8;

    picker.clamp_selection();

    assert_eq!(picker.composer.selected, 1);
}

#[test]
fn composer_q_is_treated_as_query_input() {
    let mut picker = new_picker();

    let outcome =
        picker.handle_composer_key(KeyEvent::new(KeyCode::Char('q'), KeyModifiers::none()), "codex");

    assert_eq!(outcome, PickerEffect::Stay);
    assert_eq!(picker.composer.query, "q");
}

#[test]
fn composer_input_selects_first_matching_session_before_create_row() {
    let mut picker = new_picker();
    picker.sessions = vec![demo("alpha", "repo-a"), demo("beta", "repo-b")];

    let outcome =
        picker.handle_composer_key(KeyEvent::new(KeyCode::Char('b'), KeyModifiers::none()), "codex");

    assert_eq!(outcome, PickerEffect::Stay);
    assert_eq!(picker.composer.selected, 0);
    assert_eq!(
        picker.picker_rows(),
        vec![PickerRow::Session("beta".to_string()), PickerRow::Create]
    );
}

#[test]
fn paste_selects_first_matching_session_before_create_row() {
    let mut picker = new_picker();
    picker.sessions = vec![demo("alpha", "repo-a"), demo("beta", "repo-b")];

    picker.handle_paste("beta");

    assert_eq!(picker.composer.selected, 0);
    assert_eq!(
        picker.picker_rows(),
        vec![PickerRow::Session("beta".to_string()), PickerRow::Create]
    );
}

#[test]
fn composer_r_is_treated_as_query_input() {
    let mut picker = new_picker();

    let outcome =
        picker.handle_composer_key(KeyEvent::new(KeyCode::Char('r'), KeyModifiers::none()), "codex");

    assert_eq!(outcome, PickerEffect::Stay);
    assert_eq!(picker.composer.query, "r");
}

#[test]
fn composer_escape_still_closes_picker() {
    let mut picker = new_picker();

    let outcome =
        picker.handle_composer_key(KeyEvent::new(KeyCode::Esc, KeyModifiers::none()), "codex");

    assert_eq!(outcome, PickerEffect::Leave(None));
}

#[test]
fn attach_overlay_ctrl_b_forwards_literal_byte() {
    let mut overlay = AttachOverlay::new("alpha".to_string());
    overlay.mode = OverlayMode::Palette;

    let outcome =
        overlay.handle_key(KeyEvent::new(KeyCode::Char('b'), KeyModifiers::control()));

    assert_eq!(outcome, OverlayEffect::Finish(OverlayOutcome::ForwardInput(vec![0x02])));
}

#[test]
fn attach_overlay_escape_closes_palette() {
    let mut overlay = AttachOverlay::new("alpha".to_string());
    overlay.mode = OverlayMode::Palette;

    let outcome = overlay
        .handle_event(OverlayEvent::Key(KeyEvent::new(KeyCode::Esc, KeyModifiers::none())));

    assert_eq!(outcome, OverlayEffect::Finish(OverlayOutcome::Close));
}

#[test]
fn action_menu_shows_attach_for_live_sessions() {
    let picker = SessionPicker {
        sessions: vec![demo("alpha", "repo-a")],
        create_agents: vec!["cline".to_string(), "codex".to_string()],
        composer: default_composer(),
        mode: PickerMode::Browse,
        detail_text: String::new(),
        detail_scroll: 0,
        toast: None,
    };

    assert_eq!(
        picker.action_items("alpha"),
        vec![SessionAction::Attach, SessionAction::Diff, SessionAction::Delete]
    );
}

#[test]
fn action_menu_hides_attach_for_exited_sessions() {
    let mut session = demo("alpha", "repo-a");
    session.status = SessionStatus::Exited;
    let picker = SessionPicker {
        sessions: vec![session],
        create_agents: vec!["cline".to_string(), "codex".to_string()],
        composer: default_composer(),
        mode: PickerMode::Browse,
        detail_text: String::new(),
        detail_scroll: 0,
        toast: None,
    };

    assert_eq!(picker.action_items("alpha"), vec![SessionAction::Diff, SessionAction::Delete]);
}

#[test]
fn action_menu_shows_merge_for_pending_review() {
    let mut session = demo("alpha", "repo-a");
    session.has_commits = true;
    session.status = SessionStatus::Exited;
    let picker = SessionPicker {
        sessions: vec![session],
        create_agents: vec!["cline".to_string(), "codex".to_string()],
        composer: default_composer(),
        mode: PickerMode::Browse,
        detail_text: String::new(),
        detail_scroll: 0,
        toast: None,
    };

    assert_eq!(
        picker.action_items("alpha"),
        vec![SessionAction::Diff, SessionAction::Merge, SessionAction::Delete]
    );
}

#[test]
fn action_menu_shows_attach_and_merge_when_both_apply() {
    let mut session = demo("alpha", "repo-a");
    session.has_commits = true;
    let picker = SessionPicker {
        sessions: vec![session],
        create_agents: vec!["cline".to_string(), "codex".to_string()],
        composer: default_composer(),
        mode: PickerMode::Browse,
        detail_text: String::new(),
        detail_scroll: 0,
        toast: None,
    };

    assert_eq!(
        picker.action_items("alpha"),
        vec![
            SessionAction::Attach,
            SessionAction::Diff,
            SessionAction::Merge,
            SessionAction::Delete
        ]
    );
}

#[test]
fn clamp_mode_selection_caps_to_visible_actions() {
    let mut picker = SessionPicker {
        sessions: vec![demo("alpha", "repo-a")],
        create_agents: vec!["cline".to_string(), "codex".to_string()],
        composer: default_composer(),
        mode: PickerMode::SessionActions { session_id: "alpha".to_string(), selected: 9 },
        detail_text: String::new(),
        detail_scroll: 0,
        toast: None,
    };

    picker.clamp_mode_selection();

    assert_eq!(
        picker.mode,
        PickerMode::SessionActions { session_id: "alpha".to_string(), selected: 2 }
    );
}

#[test]
fn clamp_mode_selection_resets_when_session_disappears() {
    let mut picker = SessionPicker {
        sessions: Vec::new(),
        create_agents: vec!["cline".to_string(), "codex".to_string()],
        composer: default_composer(),
        mode: PickerMode::DeleteConfirm { session_id: "missing".to_string(), selected: 1 },
        detail_text: String::new(),
        detail_scroll: 0,
        toast: None,
    };

    picker.clamp_mode_selection();

    assert_eq!(picker.mode, PickerMode::Browse);
}

#[test]
fn render_lines_hides_session_list_in_action_mode() {
    let picker = SessionPicker {
        sessions: vec![demo("alpha", "repo-a"), demo("beta", "repo-b")],
        create_agents: vec!["cline".to_string(), "codex".to_string()],
        composer: default_composer(),
        mode: PickerMode::SessionActions { session_id: "alpha".to_string(), selected: 0 },
        detail_text: String::new(),
        detail_scroll: 0,
        toast: None,
    };

    let lines = picker.render_lines(120, true, now());
    let rendered = lines.join("\n");

    assert!(!rendered.contains("beta  repo-b"));
    assert!(rendered.contains("› 1. attach"));
    assert!(rendered.contains("  2. diff"));
    assert!(rendered.contains("/tmp/alpha"));
}

#[test]
fn render_lines_show_selector_on_delete_confirmation_rows() {
    let picker = SessionPicker {
        sessions: vec![demo("alpha", "repo-a")],
        create_agents: vec!["cline".to_string(), "codex".to_string()],
        composer: default_composer(),
        mode: PickerMode::DeleteConfirm { session_id: "alpha".to_string(), selected: 1 },
        detail_text: String::new(),
        detail_scroll: 0,
        toast: None,
    };

    let lines = picker.render_lines(120, true, now());
    let rendered = lines.join("\n");

    assert!(rendered.contains("  1. yes"));
    assert!(rendered.contains("› 2. no"));
}

#[test]
fn render_lines_remove_helper_and_agent_row_in_browse_mode() {
    let picker = SessionPicker {
        sessions: vec![demo("alpha", "repo-a")],
        create_agents: vec!["cline".to_string(), "codex".to_string()],
        composer: default_composer(),
        mode: PickerMode::Browse,
        detail_text: String::new(),
        detail_scroll: 0,
        toast: None,
    };

    let rendered = picker.render_lines(120, true, now()).join("\n");
    assert!(!rendered.contains("Tab switches field"));
    assert!(!rendered.contains("Enter opens the selected row"));
    assert!(!rendered.contains("agent  "));
    assert!(rendered.contains(HOST_PICKER_STATUS_GREEN_FG));
    assert!(rendered.contains("running"));
    assert!(rendered.contains("agentd -"));
    assert!(!rendered.contains("needs input"));
    assert!(!rendered.contains("pending review"));
}

#[test]
fn create_agent_menu_defaults_to_codex_when_present() {
    let mut picker = SessionPicker {
        sessions: vec![demo("alpha", "repo-a")],
        create_agents: vec!["codex".to_string(), "cline".to_string()],
        composer: default_composer(),
        mode: PickerMode::Browse,
        detail_text: String::new(),
        detail_scroll: 0,
        toast: None,
    };

    picker.open_create_agent_menu("codex");

    assert_eq!(picker.mode, PickerMode::CreateAgentSelect { selected: 0 });
}

#[test]
fn create_agent_menu_clamps_and_renders_agents() {
    let mut picker = SessionPicker {
        sessions: vec![demo("alpha", "repo-a")],
        create_agents: vec!["codex".to_string(), "cline".to_string()],
        composer: default_composer(),
        mode: PickerMode::CreateAgentSelect { selected: 9 },
        detail_text: String::new(),
        detail_scroll: 0,
        toast: None,
    };

    picker.clamp_mode_selection();
    let rendered = picker.render_lines(120, true, now()).join("\n");

    assert_eq!(picker.mode, PickerMode::CreateAgentSelect { selected: 1 });
    assert!(rendered.contains("1. codex"));
    assert!(rendered.contains("› 2. cline"));
    assert!(!rendered.contains("alpha  repo-a"));
}

#[test]
fn configured_agents_keep_their_order() {
    let names = vec!["zed".to_string(), "codex".to_string()];
    assert_eq!(configured_agent_names(names.clone()), names);
    assert_eq!(configured_agent_names(Vec::new()), vec!["codex".to_string()]);
    assert_eq!(configured_agent_names(Config::default().agent_names())[0], "codex");
}

#[test]
fn runtime_icons_match_requested_symbols() {
    assert_eq!(
        session_icon(&demo_with(
            "alpha",
            "repo-a",
            SessionStatus::Running,
            IntegrationState::Blocked
        )),
        "◦"
    );
    assert_eq!(
        session_icon(&demo_with(
            "alpha",
            "repo-a",
            SessionStatus::Failed,
            IntegrationState::Clean
        )),
        "✖"
    );
    assert_eq!(
        session_icon(&demo_with(
            "alpha",
            "repo-a",
            SessionStatus::UnknownRecovered,
            IntegrationState::Clean
        )),
        "⚠"
    );
    assert_eq!(
        session_icon(&demo_with(
            "alpha",
            "repo-a",
            SessionStatus::Running,
            IntegrationState::Applied
        )),
        "✔"
    );
    assert_eq!(
        session_icon(&demo_with(
            "alpha",
            "repo-a",
            SessionStatus::Running,
            IntegrationState::PendingReview
        )),
        "●"
    );
    assert_eq!(
        session_icon(&demo_with(
            "alpha",
            "repo-a",
            SessionStatus::Running,
            IntegrationState::Clean
        )),
        "●"
    );
    assert_eq!(
        session_icon(&demo_with(
            "alpha",
            "repo-a",
            SessionStatus::UnknownRecovered,
            IntegrationState::Clean
        )),
        "⚠"
    );
    assert_eq!(
        session_icon(&demo_with(
            "alpha",
            "repo-a",
            SessionStatus::Exited,
            IntegrationState::Clean
        )),
        "✔"
    );
}

#[test]
fn runtime_icon_colors_match_requested_palette() {
    assert_eq!(
        session_icon_color(&demo_with(
            "alpha",
            "repo-a",
            SessionStatus::Running,
            IntegrationState::Blocked
        )),
        Color::Yellow
    );
    assert_eq!(
        session_icon_color(&demo_with(
            "alpha",
            "repo-a",
            SessionStatus::Failed,
            IntegrationState::Clean
        )),
        Color::Red
    );
    assert_eq!(
        session_icon_color(&demo_with(
            "alpha",
            "repo-a",
            SessionStatus::UnknownRecovered,
            IntegrationState::Clean
        )),
        Color::Yellow
    );
    assert_eq!(
        session_icon_color(&demo_with(
            "alpha",
            "repo-a",
            SessionStatus::Exited,
            IntegrationState::PendingReview
        )),
        Color::Green
    );
    assert_eq!(
        pending_changes_marker(&demo_with(
            "alpha",
            "repo-a",
            SessionStatus::Exited,
            IntegrationState::PendingReview
        )),
        "⧖"
    );
    assert_eq!(
        session_icon_color(&demo_with(
            "alpha",
            "repo-a",
            SessionStatus::Running,
            IntegrationState::Clean
        )),
        Color::Green
    );
    assert_eq!(
        session_icon_color(&demo_with(
            "alpha",
            "repo-a",
            SessionStatus::UnknownRecovered,
            IntegrationState::Clean
        )),
        Color::Yellow
    );
}

#[test]
fn host_picker_session_row_includes_status_color_escape() {
    let mut running_session =
        demo_with("alpha", "repo-a", SessionStatus::Running, IntegrationState::Clean);
    running_session.created_at = minutes(now(), -23);
    let running = render_host_picker_session_row(&running_session, 120, true, now());
    let review = render_host_picker_session_row(
        &demo_with("alpha", "repo-a", SessionStatus::Exited, IntegrationState::PendingReview),
        120,
        false,
        now(),
    );
    let failed = render_host_picker_session_row(
        &demo_with("alpha", "repo-a", SessionStatus::Failed, IntegrationState::Clean),
        120,
        false,
        now(),
    );

    assert!(running.contains(HOST_PICKER_STATUS_GREEN_FG));
    assert!(review.contains(HOST_PICKER_STATUS_BLUE_FG));
    assert!(failed.contains(HOST_PICKER_STATUS_RED_FG));
    assert!(running.contains(HOST_PICKER_SELECTED_STYLE));
    assert!(running.contains("› "));
    assert!(running.contains("●"));
    let running_plain = strip_ansi(&running);
    assert!(running_plain.contains("23m"));
    assert!(running_plain.contains("alpha"));
    assert!(running_plain.contains("repo-a"));
    assert!(running_plain.contains("agent/alpha"));
    assert!(review.contains("⧖"));
    assert!(failed.contains("✖"));
    let needs_input = render_host_picker_session_row(
        &demo_with("alpha", "repo-a", SessionStatus::Running, IntegrationState::Blocked),
        120,
        false,
        now(),
    );
    assert!(needs_input.contains(HOST_PICKER_STATUS_YELLOW_FG));
}

#[test]
fn host_picker_legend_uses_colored_icons_and_separator() {
    let sessions = vec![
        demo_with("alpha", "repo-a", SessionStatus::Running, IntegrationState::Blocked),
        demo_with("beta", "repo-b", SessionStatus::Running, IntegrationState::Applied),
        demo_with("delta", "repo-d", SessionStatus::Exited, IntegrationState::PendingReview),
        demo_with("gamma", "repo-c", SessionStatus::UnknownRecovered, IntegrationState::Clean),
    ];
    let rendered = render_host_picker_legend_row(200, &sessions.iter().collect());
    assert!(rendered.contains(HOST_PICKER_STATUS_YELLOW_FG));
    assert!(rendered.contains(HOST_PICKER_STATUS_BLUE_FG));
    assert!(rendered.contains(HOST_PICKER_STATUS_GREEN_FG));
    assert!(rendered.contains(HOST_PICKER_LEGEND_TEXT_STYLE));
    assert!(rendered.starts_with("  "));
    assert!(rendered.contains("◦"));
    assert!(rendered.contains("⧖"));
    assert!(rendered.contains("⚠"));
    assert!(rendered.contains("✔"));
    assert!(rendered.contains("needs input"));
    assert!(rendered.contains("applied"));
    assert!(rendered.contains("pending"));
    assert!(rendered.contains("recovered"));
    assert!(rendered.contains(" • "));
    assert!(!rendered.contains("failed"));
    assert!(!rendered.contains("running"));
}

#[test]
fn host_picker_title_uses_shared_header() {
    let title = render_host_picker_title_line(120);
    assert_eq!(strip_ansi(&title), "agentd - agent multiplexer");
}

#[test]
fn host_picker_title_does_not_truncate_for_narrow_widths() {
    let title = render_host_picker_title_line(4);
    assert_eq!(strip_ansi(&title), "agentd - agent multiplexer");
}

#[test]
fn session_list_renders_title_header_and_rows_without_selector() {
    let session = demo("alpha", "repo-a");
    let rendered = render_session_list_lines(&vec![session], 120).join("\n");

    assert!(!rendered.contains("agentd - "));
    assert!(rendered.contains("STATUS"));
    assert!(rendered.contains("COMMITS"));
    assert!(rendered.contains("NAME"));
    assert!(rendered.contains("running"));
    assert!(!rendered.contains("› "));
}

#[test]
fn ordered_sessions_keep_active_sessions_first_even_when_applied_or_pending() {
    let now = now();
    let mut running = demo("running", "repo-a");
    running.updated_at = minutes(now, -2);
    let mut applied =
        demo_with("applied", "repo-b", SessionStatus::Running, IntegrationState::Applied);
    applied.updated_at = minutes(now, -1);
    let mut needs_input =
        demo_with("needs-input", "repo-c", SessionStatus::NeedsInput, IntegrationState::Clean);
    needs_input.updated_at = now;
    let mut pending =
        demo_with("pending", "repo-d", SessionStatus::Running, IntegrationState::PendingReview);
    pending.updated_at = minutes(now, -3);

    let sessions = vec![needs_input, running, applied, pending];
    let ordered = ordered_sessions(&sessions);

    assert_eq!(
        ordered.iter().map(|session| session.session_id.as_str()).collect::<Vec<_>>(),
        vec!["applied", "running", "pending", "needs-input"]
    );
}

#[test]
fn session_list_keeps_applied_label_for_live_applied_sessions() {
    let running = demo("running", "repo-a");
    let applied =
        demo_with("applied", "repo-b", SessionStatus::Running, IntegrationState::Applied);
    let rendered = strip_ansi(&render_session_list_lines(&vec![running, applied], 120).join("\n"));

    assert!(rendered.contains("✔ applied"));
    assert!(rendered.contains("running"));
}

#[test]
fn host_picker_uses_applied_icon_for_live_applied_sessions() {
    let session =
        demo_with("alpha", "repo-a", SessionStatus::Running, IntegrationState::Applied);
    let rendered = render_host_picker_session_row(&session, 120, false, now());

    assert!(rendered.contains(HOST_PICKER_STATUS_GREEN_FG));
    assert!(rendered.contains("✔"));
    assert!(!rendered.contains("●"));
}

#[test]
fn session_list_uses_single_row_and_dynamic_widths() {
    let mut session = demo("alpha", "repository-with-a-long-name");
    session.session_id =
        "a-very-long-session-name-that-should-be-truncated-in-the-fixed-width-column"
            .to_string();
    session.branch =
        "agent/this-is-a-very-long-branch-name-that-should-be-truncated".to_string();
    session.attention_summary =
        Some("needs manual review because a long follow-up summary is present".to_string());

    let wide = render_session_list_lines(&vec![session.clone()], 120).join("\n");
    let narrow = render_session_list_lines(&vec![session], 80).join("\n");

    assert_eq!(wide.lines().count(), 2);
    assert!(!wide.contains("needs manual review because a long follow-up summary is present"));
    assert!(wide.contains("a-very-long-session-n..."));
    assert!(wide.contains("agent/this-is-a-very-long-branc..."));
    assert!(narrow.contains("a-ver..."));
    assert!(narrow.contains("agent/this-is-a-very-lo..."));
}

#[test]
fn session_list_shows_empty_state() {
    let rendered = render_session_list_lines(&vec![], 120).join("\n");

    assert!(rendered.contains("No sessions."));
    assert!(rendered.contains("STATUS"));
}

#[test]
fn session_list_does_not_render_legend() {
    let rendered = render_session_list_lines(
        &vec![
            demo_with("alpha", "repo-a", SessionStatus::Running, IntegrationState::Blocked),
            demo_with(
                "beta",
                "repo-b",
                SessionStatus::UnknownRecovered,
                IntegrationState::Clean,
            ),
        ],
        120,
    )
    .join("\n");

    assert!(!rendered.contains(" • "));
    assert!(!rendered.contains("pending review"));
}

#[test]
fn session_list_header_only_wraps_its_content() {
    let wide_layout = session_list_layout(200);
    let narrow_layout = session_list_layout(80);
    let wide = strip_ansi(&render_session_list_header_row(wide_layout));
    let narrow = strip_ansi(&render_session_list_header_row(narrow_layout));

    assert_eq!(wide, render_session_list_header_content(wide_layout));
    assert_eq!(
        wide.chars().count(),
        render_session_list_header_content(wide_layout).chars().count()
    );
    assert_eq!(narrow, render_session_list_header_content(narrow_layout));
    assert_eq!(
        narrow.chars().count(),
        render_session_list_header_content(narrow_layout).chars().count()
    );
}

#[test]
fn host_picker_legend_is_hidden_in_submenus() {
    let picker = SessionPicker {
        sessions: vec![demo("alpha", "repo-a")],
        create_agents: vec!["cline".to_string(), "codex".to_string()],
        composer: default_composer(),
        mode: PickerMode::CreateAgentSelect { selected: 0 },
        detail_text: String::new(),
        detail_scroll: 0,
        toast: None,
    };

    let rendered = picker.render_lines(200, true, now()).join("\n");
    assert!(!rendered.contains("needs input"));
    assert!(!rendered.contains("pending review"));
}

#[test]
fn host_picker_session_row_uses_exit_time_for_finished_sessions() {
    let mut session =
        demo_with("alpha", "repo-a", SessionStatus::Exited, IntegrationState::Clean);
    let created_at = minutes(now(), -60 * 5);
    session.created_at = created_at;
    session.exited_at = Some(minutes(created_at, 90));

    let rendered = strip_ansi(&render_host_picker_session_row(&session, 120, false, now()));

    assert!(rendered.contains("1h"));
    assert!(rendered.contains("alpha"));
}

#[test]
fn host_picker_session_row_uses_fixed_width_columns_and_truncation() {
    let mut session = demo("alpha", "repository-with-a-long-name");
    session.created_at = minutes(now(), -23);
    session.session_id =
        "a-very-long-session-name-that-should-be-truncated-in-the-fixed-width-column"
            .to_string();
    session.branch =
        "agent/this-is-a-very-long-branch-name-that-should-be-truncated".to_string();

    let wide = strip_ansi(&render_host_picker_session_row(&session, 120, false, now()));
    let narrow = strip_ansi(&render_host_picker_session_row(&session, 60, false, now()));

    assert!(wide.contains("23m    a-very-long-session-n..."));
    assert!(wide.contains("repository-with..."));
    assert!(wide.contains("agent/this-is-a-very-long-branc..."));
    assert!(narrow.contains("23m    a-ver..."));
    assert!(narrow.contains("repos..."));
    assert!(narrow.contains("agent/this-is-a-very"));
    assert!(narrow.trim_end().ends_with("..."));
}

#[test]
fn host_picker_create_row_aligns_with_elapsed_column() {
    let mut session = demo("alpha", "repo-a");
    session.created_at = minutes(now(), -23);

    let session_row = strip_ansi(&render_host_picker_session_row(&session, 120, false, now()));
    let create_row =
        strip_ansi(&render_host_picker_create_row("Create new session", 120, false));
    let session_column = session_row
        .split("23m")
        .next()
        .expect("session row should include elapsed time")
        .chars()
        .count();
    let create_column = create_row
        .split("Create new session")
        .next()
        .expect("create row should include label")
        .chars()
        .count();

    assert_eq!(session_column, create_column);
}

#[test]
fn host_picker_create_row_truncates_query_text() {
    let rendered =
        strip_ansi(&render_host_picker_create_row("Create new session: beta", 20, false));

    assert_eq!(rendered.find("Create"), Some(HOST_PICKER_SESSION_PREFIX_WIDTH));
    assert!(rendered.trim_end().ends_with("..."));
}

#[test]
fn diff_view_renders_and_hides_legend() {
    let picker = SessionPicker {
        sessions: vec![demo("alpha", "repo-a")],
        create_agents: vec!["cline".to_string(), "codex".to_string()],
        composer: default_composer(),
        mode: PickerMode::DiffView { session_id: "alpha".to_string() },
        detail_text: "@@ -1 +1 @@\n-old\n+new\n".to_string(),
        detail_scroll: 0,
        toast: None,
    };

    let rendered = picker.render_lines(200, true, now()).join("\n");
    assert!(rendered.contains("Diff: alpha"));
    assert!(rendered.contains(HOST_PICKER_DIFF_HUNK_STYLE));
    assert!(rendered.contains(HOST_PICKER_DIFF_REMOVE_STYLE));
    assert!(rendered.contains(HOST_PICKER_DIFF_ADD_STYLE));
    assert!(rendered.contains("@@ -1 +1 @@"));
    assert!(rendered.contains("-old"));
    assert!(rendered.contains("+new"));
    assert!(!rendered.contains("pending review"));
    assert!(!rendered.contains("needs input"));
}

#[test]
fn picker_toast_flattens_embedded_newlines() {
    assert_eq!(
        sanitize_picker_message("merge would conflict\nrun:\n  git status"),
        "merge would conflict run: git status"
    );
}

#[test]
fn picker_error_toast_renders_in_red() {
    let rendered =
        render_host_picker_toast_line(&PickerToast::error("merge blocked".to_string()), 120);

    assert!(rendered.starts_with(HOST_PICKER_STATUS_RED_FG));
    assert!(rendered.contains("error: merge blocked"));
    assert!(rendered.ends_with(ANSI_RESET));
}

#[test]
fn merge_failure_toast_points_to_agent_merge() {
    let message = format_merge_failure_toast("alpha", "merge would conflict\nrun:\n  git -C x");
    assert!(message.contains("merge would conflict run: git -C x"));
    assert!(message.contains("agent merge alpha"));
}

#[test]
fn browse_mode_renders_error_toast_on_single_line() {
    let picker = SessionPicker {
        sessions: vec![demo("alpha", "repo-a")],
        create_agents: vec!["cline".to_string(), "codex".to_string()],
        composer: default_composer(),
        mode: PickerMode::Browse,
        detail_text: String::new(),
        detail_scroll: 0,
        toast: Some(PickerToast::error("merge would conflict\nrun:\n  git status".to_string())),
    };

    let rendered = picker.render_lines(200, true, now()).join("\n");
    assert!(rendered.contains("error: merge would conflict run: git status"));
    assert!(!rendered.contains("error: merge would conflict\nrun:\n  git status"));
}

#[test]
fn style_host_picker_diff_line_colors_diff_sections() {
    assert!(
        style_host_picker_diff_line("diff --git a/a b/a", 80)
            .contains(HOST_PICKER_DIFF_HEADER_STYLE)
    );
    assert!(
        style_host_picker_diff_line("@@ -1 +1 @@", 80).contains(HOST_PICKER_DIFF_HUNK_STYLE)
    );
    assert!(style_host_picker_diff_line("+new", 80).contains(HOST_PICKER_DIFF_ADD_STYLE));
    assert!(style_host_picker_diff_line("-old", 80).contains(HOST_PICKER_DIFF_REMOVE_STYLE));
}

#[test]
fn fit_host_picker_line_truncates_to_width() {
    assert_eq!(fit_host_picker_line("abcdef", 4), "abc");
}

#[test]
fn style_host_picker_query_line_adds_background_color() {
    let rendered = style_host_picker_query_line("", 40, true);
    assert!(rendered.starts_with(HOST_PICKER_QUERY_BG));
    assert!(rendered.ends_with(ANSI_RESET));
}

#[test]
fn style_host_picker_query_line_uses_placeholder_and_cursor() {
    let rendered = style_host_picker_query_line("", 60, true);
    assert!(rendered.contains(HOST_PICKER_PLACEHOLDER_FG));
    assert!(rendered.contains("Type to filter sessions or name a new one."));
    assert!(rendered.contains(HOST_PICKER_CURSOR));
    assert!(rendered.contains("› "));
    let cursor_index = rendered.find(HOST_PICKER_CURSOR).unwrap();
    let placeholder_index =
        rendered.find("Type to filter sessions or name a new one.").unwrap();
    assert!(cursor_index < placeholder_index);
}

#[test]
fn style_host_picker_query_line_hides_placeholder_when_typing() {
    let rendered = style_host_picker_query_line("abc", 30, false);
    assert!(rendered.contains(HOST_PICKER_TEXT_FG));
    assert!(rendered.contains("› "));
    assert!(rendered.contains("abc"));
    assert!(!rendered.contains("Type to filter sessions or name a new one."));
}

#[test]
fn style_host_picker_background_row_uses_query_background() {
    let rendered = style_host_picker_background_row(20);
    assert!(rendered.starts_with(HOST_PICKER_QUERY_BG));
    assert!(rendered.ends_with(ANSI_RESET));
}

#[test]
fn host_picker_sequences_do_not_enter_alternate_screen() {
    assert!(!HOST_PICKER_ENTER_SEQUENCE.as_bytes().windows(6).any(|window| window == b"\x1b[?1049"));
    assert!(!HOST_PICKER_EXIT_SEQUENCE.as_bytes().windows(6).any(|window| window == b"\x1b[?1049"));
}

// ---------------------------------------------------------------------------
// More of the picker
// ---------------------------------------------------------------------------
fn press(code: KeyCode) -> KeyEvent {
    KeyEvent::new(code, KeyModifiers::none())
}

#[test]
fn escape_leads_back_to_the_list_and_out() {
    let mut picker = new_picker();
    picker.sessions = vec![demo("alpha", "repo-a")];
    assert_eq!(picker.handle_key(press(KeyCode::Tab), "codex"), PickerEffect::Stay);
    picker.open_action_menu("alpha");
    assert_eq!(
        picker.mode,
        PickerMode::SessionActions { session_id: "alpha".to_string(), selected: 0 }
    );
    assert_eq!(picker.handle_key(press(KeyCode::Esc), "codex"), PickerEffect::Stay);
    assert_eq!(picker.mode, PickerMode::Browse);
    assert_eq!(picker.handle_key(press(KeyCode::Esc), "codex"), PickerEffect::Leave(None));
}

#[test]
fn refreshing_keeps_the_selection_on_a_row() {
    let mut picker = new_picker();
    picker.sessions = vec![demo("alpha", "repo-a"), demo("beta", "repo-b")];
    picker.composer.selected = 2;
    picker.refresh_sessions(vec![demo("alpha", "repo-a")], vec!["codex".to_string()]);
    assert_eq!(picker.composer.selected, 1);
    assert_eq!(picker.create_agents, vec!["codex".to_string()]);
}

#[test]
fn refreshing_without_agents_offers_codex() {
    let mut picker = new_picker();
    picker.refresh_sessions(vec![demo("alpha", "repo-a")], Vec::new());
    assert_eq!(picker.create_agents, vec!["codex".to_string()]);
    assert_eq!(picker.toast, None);

    picker.merge_failed("alpha", "conflict");
    let shown = format!("{:?}", picker.toast);
    picker.refresh_sessions(Vec::new(), Vec::new());
    assert_eq!(format!("{:?}", picker.toast), shown);

    picker.refresh_sessions(Vec::new(), vec!["cline".to_string(), "codex".to_string()]);
    assert_eq!(picker.create_agents, vec!["cline".to_string(), "codex".to_string()]);
}

#[test]
fn only_the_palette_keeps_a_row_for_notices() {
    let mut overlay = AttachOverlay::new("alpha".to_string());
    overlay.open(vec![demo("alpha", "repo-a")]);
    assert!(matches!(
        overlay.render(),
        OverlayScreen::List { title: "Overlay", notice_rows: 1, .. }
    ));
    overlay.mode = OverlayMode::SessionSwitcher;
    assert!(matches!(
        overlay.render(),
        OverlayScreen::List { title: "Switch Session", notice_rows: 0, toast: None, .. }
    ));
}

#[test]
fn merge_failures_are_shown() {
    let mut picker = new_picker();
    picker.sessions = vec![demo("alpha", "repo-a")];
    picker.merge_failed("alpha", "conflict\nhere");
    let rendered = picker.render_lines(200, true, now()).join("\n");
    assert!(rendered.contains("conflict here"));
}

#[test]
fn codex_has_a_default_model() {
    assert_eq!(default_model("codex"), Some("gpt-5.4".to_string()));
    assert_eq!(default_model("cline"), None);
}

#[test]
fn the_cursor_blinks() {
    assert!(cursor_is_visible(0));
    assert!(!cursor_is_visible(500));
    assert!(cursor_is_visible(1_000));
}

#[test]
fn the_overlay_tells_details() {
    let details = format_details(&demo("alpha", "repo-a"));
    assert!(details.contains("alpha"));
    assert!(details.contains("agent/alpha"));
}

#[test]
fn drawing_goes_back_over_what_was_drawn() {
    let lines = vec!["a".to_string(), "b".to_string()];
    let first = host_picker_text(&lines, 0);
    let again = host_picker_text(&lines, 2);
    assert!(first.contains('a') && first.contains('b'));
    assert_ne!(first, again);
}

#[test]
fn lists_are_rendered_for_a_point_in_time() {
    let mut session = demo("alpha", "repo-a");
    let created = session.created_at;
    session.status = SessionStatus::Running;
    let lines = render_session_list_lines_at(&vec![session], 120, minutes(created, 180));
    assert_eq!(lines.len(), 2);
    assert!(strip_ansi(&lines[1]).contains("3h"));
}
