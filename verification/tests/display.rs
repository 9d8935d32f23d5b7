use agentd::session::{
    ApplyState, AttentionLevel, IntegrationPolicy, IntegrationState, SessionMode, SessionRecord,
    SessionStatus,
};
use agentd::session_display::{
    build_session_display_row, format_elapsed_seconds, render_count_text, render_run_icon,
    session_elapsed_label, session_elapsed_label_at, session_run_state, RunState,
};
use agentd::style::Color;
use agentd::terminal::surface::TerminalSurface;
use agentd::text::{matches_query, trim, white_space};
use agentd::time::Timestamp;
use agentd::tui::app::{ComposerField, ComposerRow, RuntimeApp};
use agentd::tui::badge::{
    session_icon, session_icon_color, session_rank, session_status_text, session_switcher_text,
};
use agentd::tui::view::{centered_rect, Area};

fn now() -> Timestamp {
    let now = chrono::Utc::now();
    Timestamp::new(now.timestamp(), now.timestamp_subsec_nanos()).unwrap()
}

fn minutes(from: Timestamp, minutes: i64) -> Timestamp {
    Timestamp::new(from.seconds + 60 * minutes, from.nanos).unwrap()
}

fn demo_session(created_at: Timestamp, exited_at: Option<Timestamp>) -> SessionRecord {
    SessionRecord {
        session_id: "demo".to_string(),
        thread_id: Some("thread-demo".to_string()),
        agent: "codex".to_string(),
        model: Some("gpt-5.4".to_string()),
        mode: SessionMode::Execute,
        workspace: "/tmp/repo".to_string(),
        repo_path: "/tmp/repo".to_string(),
        repo_name: "repo".to_string(),
        title: "demo".to_string(),
        task: String::new(),
        base_branch: "main".to_string(),
        branch: "agent/demo".to_string(),
        worktree: "/tmp/worktree".to_string(),
        status: SessionStatus::Running,
        integration_policy: IntegrationPolicy::AutoApplySafe,
        apply_state: ApplyState::Idle,
        integration_state: IntegrationState::Clean,
        git_sync: "unknown".to_string(),
        git_status_summary: None,
        has_conflicts: false,
        dirty_count: 0,
        ahead_count: 0,
        has_commits: false,
        has_pending_changes: false,
        pid: Some(1),
        exit_code: None,
        error: None,
        attention: AttentionLevel::Info,
        attention_summary: None,
        created_at,
        updated_at: created_at,
        exited_at,
    }
}

#[test]
fn format_elapsed_seconds_uses_largest_unit() {
    assert_eq!(format_elapsed_seconds(30), "30s");
    assert_eq!(format_elapsed_seconds(59), "59s");
    assert_eq!(format_elapsed_seconds(60), "1m");
    assert_eq!(format_elapsed_seconds(59 * 60 + 59), "59m");
    assert_eq!(format_elapsed_seconds(60 * 60), "1h");
    assert_eq!(format_elapsed_seconds(23 * 60 * 60 + 59 * 60), "23h");
    assert_eq!(format_elapsed_seconds(24 * 60 * 60), "1d");
}

#[test]
fn elapsed_label_uses_exit_time_for_finished_sessions() {
    let created_at = minutes(now(), -4 * 60);
    let exited_at = minutes(created_at, 90);
    let session = demo_session(created_at, Some(exited_at));
    let now = minutes(created_at, 5 * 60);
    assert_eq!(session_elapsed_label_at(&session, now), "1h");
}

#[test]
fn elapsed_label_clamps_negative_durations() {
    let now = now();
    let session = demo_session(minutes(now, 5), None);
    assert_eq!(session_elapsed_label_at(&session, now), "0s");
}

#[test]
fn build_display_row_marks_attention_from_counts_or_failure() {
    let mut session = demo_session(now(), None);
    session.dirty_count = 2;
    let row = build_session_display_row(&session);
    assert!(row.needs_attention);

    session.dirty_count = 0;
    session.ahead_count = 1;
    let row = build_session_display_row(&session);
    assert!(row.needs_attention);

    session.ahead_count = 0;
    session.status = SessionStatus::Failed;
    let row = build_session_display_row(&session);
    assert!(row.needs_attention);
}

#[test]
fn run_state_prefers_completed_for_applied_sessions() {
    let mut session = demo_session(now(), None);
    session.apply_state = ApplyState::Applied;
    assert_eq!(session_run_state(&session), RunState::Completed);
}

#[test]
fn run_state_maps_recovered_sessions() {
    let mut session = demo_session(now(), None);
    session.status = SessionStatus::UnknownRecovered;
    assert_eq!(session_run_state(&session), RunState::Recovered);
    assert_eq!(render_run_icon(RunState::Recovered), "○");
}

#[test]
fn count_text_uses_dash_for_zero() {
    assert_eq!(render_count_text(0), "-");
    assert_eq!(render_count_text(3), "3");
}

#[test]
fn sessions_age_by_the_clock() {
    let session = demo_session(minutes(now(), -90), None);
    assert_eq!(session_elapsed_label(&session), "1h");
}

// ---------------------------------------------------------------------------
// The full-screen view
// ---------------------------------------------------------------------------
fn demo(status: SessionStatus, integration_state: IntegrationState) -> SessionRecord {
    let mut session = demo_session(now(), None);
    session.status = status;
    session.integration_state = integration_state;
    session
}

#[test]
fn session_rank_prioritizes_needs_input() {
    assert!(
        session_rank(&demo(SessionStatus::NeedsInput, IntegrationState::Clean))
            < session_rank(&demo(SessionStatus::Running, IntegrationState::Clean))
    );
}

#[test]
fn pending_review_uses_review_icon() {
    assert_eq!(
        session_icon(&demo(SessionStatus::Exited, IntegrationState::PendingReview)),
        "⧖"
    );
}

#[test]
fn session_icons_match_requested_symbols() {
    assert_eq!(session_icon(&demo(SessionStatus::NeedsInput, IntegrationState::Clean)), "◦");
    assert_eq!(session_icon(&demo(SessionStatus::Failed, IntegrationState::Clean)), "✖");
    assert_eq!(
        session_icon(&demo(SessionStatus::UnknownRecovered, IntegrationState::Clean)),
        "⚠"
    );
    assert_eq!(session_icon(&demo(SessionStatus::Running, IntegrationState::Clean)), "●");
    assert_eq!(session_icon(&demo(SessionStatus::Paused, IntegrationState::Clean)), "⏸");
    assert_eq!(session_icon(&demo(SessionStatus::Exited, IntegrationState::Clean)), "✔");
}

#[test]
fn session_icon_colors_match_requested_palette() {
    assert_eq!(
        session_icon_color(&demo(SessionStatus::NeedsInput, IntegrationState::Clean)),
        Color::Yellow
    );
    assert_eq!(
        session_icon_color(&demo(SessionStatus::Failed, IntegrationState::Clean)),
        Color::Red
    );
    assert_eq!(
        session_icon_color(&demo(SessionStatus::UnknownRecovered, IntegrationState::Clean)),
        Color::Yellow
    );
    assert_eq!(
        session_icon_color(&demo(SessionStatus::Exited, IntegrationState::PendingReview)),
        Color::Blue
    );
    assert_eq!(
        session_icon_color(&demo(SessionStatus::Running, IntegrationState::Clean)),
        Color::Green
    );
    assert_eq!(
        session_icon_color(&demo(SessionStatus::Paused, IntegrationState::Clean)),
        Color::DarkGray
    );
}

#[test]
fn status_text_prefers_attention_summary() {
    let mut session = demo(SessionStatus::Running, IntegrationState::Clean);
    session.attention_summary = Some("needs eyes".to_string());
    assert_eq!(session_status_text(&session), "needs eyes");
}

#[test]
fn terminal_surface_applies_basic_ansi_sequences() {
    let mut surface = TerminalSurface::new(10, 2);
    surface.process(b"\x1b[31mhello\x1b[0m");
    let rendered = surface.render_lines(false);
    assert_eq!(rendered[0].spans[0].text, "hello");
    assert_eq!(rendered[0].spans[0].style.fg, Some(Color::Red));
}

#[test]
fn query_matching_is_case_insensitive() {
    assert!(matches_query("Auth Fix", "auth"));
}

#[test]
fn composer_rows_include_create_and_matching_sessions() {
    let mut app = RuntimeApp::new(None);
    let mut alpha = demo(SessionStatus::Running, IntegrationState::Clean);
    alpha.session_id = "alpha".to_string();
    alpha.title = "auth fix".to_string();
    let mut beta = demo(SessionStatus::Running, IntegrationState::Clean);
    beta.session_id = "beta".to_string();
    beta.title = "billing".to_string();
    app.sessions = vec![alpha, beta];
    app.composer.query = "auth".to_string();

    let rows = app.composer_rows(now());
    assert_eq!(rows[0], ComposerRow::Create);
    assert_eq!(rows[1], ComposerRow::Session("alpha".to_string()));
    assert_eq!(rows.len(), 2);
}

#[test]
fn open_composer_prefers_existing_session_for_switching() {
    let mut app = RuntimeApp::new(None);
    let mut session = demo(SessionStatus::Running, IntegrationState::Clean);
    session.session_id = "alpha".to_string();
    app.sessions = vec![session];
    app.composer.query = "stale".to_string();

    app.open_composer(ComposerField::Query, false, now());

    assert_eq!(app.composer.query, "");
    assert_eq!(app.composer.selected, 1);
}

#[test]
fn open_composer_preserves_create_intent() {
    let mut app = RuntimeApp::new(None);
    app.composer.query = "new task".to_string();

    app.open_composer(ComposerField::Agent, true, now());

    assert_eq!(app.composer.field, ComposerField::Agent);
    assert_eq!(app.composer.query, "new task");
    assert_eq!(app.composer.selected, 0);
}

#[test]
fn session_switcher_text_includes_elapsed_prefix() {
    let mut session = demo(SessionStatus::Running, IntegrationState::Clean);
    session.created_at = minutes(now(), -23);

    let rendered = session_switcher_text(&session, now());

    assert!(rendered.starts_with("23m "));
    assert!(rendered.contains("demo"));
}

#[test]
fn session_switcher_text_uses_exit_time_for_finished_sessions() {
    let mut session = demo(SessionStatus::Exited, IntegrationState::Clean);
    let created_at = minutes(now(), -5 * 60);
    session.created_at = created_at;
    session.exited_at = Some(minutes(created_at, 90));

    let rendered = session_switcher_text(&session, now());

    assert!(rendered.starts_with("1h "));
}

// ---------------------------------------------------------------------------
// The terminal
// ---------------------------------------------------------------------------
fn shown(surface: &TerminalSurface) -> Vec<String> {
    surface
        .render_lines(false)
        .iter()
        .map(|line| line.spans.iter().map(|span| span.text.as_str()).collect::<String>())
        .map(|line| line.trim_end().to_string())
        .collect()
}

#[test]
fn input_may_come_in_parts() {
    let bytes = b"ab\x1b[2;3Hc\x1b[1;1Hd\nend";
    for split in 0..bytes.len() {
        let mut whole = TerminalSurface::new(10, 3);
        assert!(whole.process_if_possible(bytes));
        let mut parts = TerminalSurface::new(10, 3);
        assert!(parts.process_if_possible(&bytes[..split]));
        assert!(parts.process_if_possible(&bytes[split..]));
        assert_eq!(shown(&whole), shown(&parts));
    }
}

#[test]
fn long_lines_wrap_and_scroll() {
    let mut surface = TerminalSurface::new(3, 2);
    surface.process(b"abcdefgh");
    assert_eq!(shown(&surface), vec!["def", "gh"]);
}

#[test]
fn broken_bytes_are_shown_as_replacements() {
    let mut surface = TerminalSurface::new(10, 1);
    surface.process(&[b'a', 0xff, b'b']);
    assert_eq!(shown(&surface), vec![String::from_utf8_lossy(&[b'a', 0xff, b'b']).to_string()]);
}

#[test]
fn growing_keeps_what_is_shown() {
    let mut surface = TerminalSurface::new(4, 2);
    surface.process(b"ab\r\ncd");
    surface.resize(8, 3);
    assert_eq!(shown(&surface), vec!["ab", "cd", ""]);
}

// ---------------------------------------------------------------------------
// Texts, times and areas
// ---------------------------------------------------------------------------
#[test]
fn white_space_is_the_one_of_unicode() {
    for code in 0..=0x10ffff_u32 {
        if let Some(c) = char::from_u32(code) {
            assert_eq!(white_space(c), c.is_whitespace(), "{code:x}");
        }
    }
}

#[test]
fn trimming_is_the_one_of_strings() {
    for text in ["", " ", "a", " a b ", "\u{3000}x\u{2028}", "\t\n x", "x\u{85}", "\u{feff}x"] {
        assert_eq!(trim(text), text.trim());
        assert_eq!(trim(&trim(text)), text.trim());
    }
}

#[test]
fn timestamps_are_the_ones_of_the_calendar() {
    assert_eq!(
        Timestamp::new(1_700_000_000, 5).unwrap().to_rfc3339(),
        "2023-11-14T22:13:20.000000005+00:00"
    );
    for (seconds, nanos) in
        [(0, 0), (59, 1_500_000_000), (-62_167_219_200, 0), (253_402_300_799, 999_999_999)]
    {
        let at = Timestamp::new(seconds, nanos).unwrap();
        assert_eq!(Timestamp::parse(&at.to_rfc3339()), Ok(at));
    }
    assert_eq!(
        Timestamp::parse("1996-12-19T16:39:57-08:00").unwrap(),
        Timestamp::new(851_042_397, 0).unwrap()
    );
    let expected = chrono::DateTime::parse_from_rfc3339("yesterday").unwrap_err().to_string();
    assert_eq!(Timestamp::parse("yesterday"), Err(expected));
    assert_eq!(Timestamp::new(0, 1_000_000_000), None);
    assert_eq!(Timestamp::new(8_210_266_876_800, 0), None);
    assert!(Timestamp::new(8_210_266_876_799, 0).is_some());
    assert!(Timestamp::new(-8_334_601_228_800, 0).is_some());
    assert_eq!(Timestamp::new(-8_334_601_228_801, 0), None);
}

#[test]
fn seconds_between_times_are_whole() {
    let at = |seconds, nanos| Timestamp::new(seconds, nanos).unwrap();
    assert_eq!(at(10, 0).seconds_since(&at(8, 1)), 1);
    assert_eq!(at(8, 1).seconds_since(&at(10, 0)), -1);
    assert_eq!(at(60, 0).seconds_since(&at(59, 1_500_000_000)), 0);
    assert_eq!(at(61, 0).seconds_since(&at(59, 1_000_000_000)), 2);
    assert_eq!(
        at(8_210_266_876_799, 0).seconds_since(&at(-8_334_601_228_800, 0)),
        16_544_868_105_599
    );
}

#[test]
fn popups_stand_in_the_middle() {
    let area = Area { x: 0, y: 0, width: 100, height: 40 };
    assert_eq!(centered_rect(60, 50, area), Area { x: 20, y: 10, width: 60, height: 20 });
}

#[test]
fn popups_reach_to_the_nearest_cell() {
    // 22 % and 78 % of 81 columns are 17.82 and 63.18; 28 % and 72 % of 25 rows are 7 and 18.
    let area = Area { x: 3, y: 2, width: 81, height: 25 };
    assert_eq!(centered_rect(56, 44, area), Area { x: 21, y: 9, width: 45, height: 11 });
    // A percentage that is odd leaves one more on the far side; a half goes to the later cell.
    let area = Area { x: 0, y: 0, width: 10, height: 1 };
    assert_eq!(centered_rect(55, 100, area), Area { x: 2, y: 0, width: 6, height: 1 });
    assert_eq!(centered_rect(50, 100, area), Area { x: 3, y: 0, width: 5, height: 1 });
    assert_eq!(centered_rect(0, 0, area), Area { x: 5, y: 1, width: 0, height: 0 });
}

#[test]
fn popups_lie_within_their_area() {
    for width in [0, 1, 7, 80, 133] {
        for percent in [0, 1, 33, 50, 80, 99, 100] {
            let area = Area { x: 5, y: 9, width, height: width / 2 };
            let part = centered_rect(percent, percent, area);
            assert!(area.x <= part.x && part.x + part.width <= area.x + area.width);
            assert!(area.y <= part.y && part.y + part.height <= area.y + area.height);
        }
    }
}
