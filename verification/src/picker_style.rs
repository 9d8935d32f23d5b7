//! The lines of the session picker.
use crate::header::{agentd_header, header_text};
use crate::session::SessionRecord;
use crate::session_display::{elapsed_label, session_elapsed_label_at, ANSI_RESET};
use crate::session_list::{
    cell, display_state, format_session_list_cell, host_picker_icon_ansi_prefix,
    host_picker_session_layout, icon_of, label_of, least, most, pending_changes_ansi_prefix,
    pending_changes_marker, pending_marker, picker_layout, prefix_of, session_display_state,
    session_icon, state_icon, state_label, state_prefix, truncate_session_list_cell, truncated,
    usable, usable_width, SessionDisplayState, HOST_PICKER_QUERY_BG, HOST_PICKER_STATUS_BLUE_FG,
    HOST_PICKER_STATUS_RED_FG, HOST_PICKER_TEXT_FG,
};
use crate::text::{
    blanks, blanks_of, char_count, first_chars, joined, single_spaced, starts, starts_with,
    take_chars, views, words,
};
use crate::time::Timestamp;
use vstd::prelude::*;
use vstd::string::*;

verus! {

pub const HOST_PICKER_PLACEHOLDER_FG: &'static str = "\x1b[38;2;151;152;153m";

pub const HOST_PICKER_DIFF_HEADER_STYLE: &'static str = "\x1b[38;2;153;214;255m\x1b[1m";

pub const HOST_PICKER_DIFF_HUNK_STYLE: &'static str = "\x1b[38;2;242;201;76m\x1b[1m";

pub const HOST_PICKER_DIFF_ADD_STYLE: &'static str = "\x1b[38;2;111;207;151m";

pub const HOST_PICKER_DIFF_REMOVE_STYLE: &'static str = "\x1b[38;2;255;107;107m";

pub const HOST_PICKER_SELECTED_STYLE: &'static str = "\x1b[34m";

pub const HOST_PICKER_LEGEND_TEXT_STYLE: &'static str = "\x1b[90m";

pub const HOST_PICKER_CURSOR: &'static str = "█";

pub const HOST_PICKER_PLACEHOLDER: &'static str = "Type to filter sessions or name a new one.";

/// What is written when the picker starts: the cursor is hidden.
pub const HOST_PICKER_ENTER_SEQUENCE: &'static str = "\x1b[?25l";

/// What is written when the picker ends: the cursor is shown.
pub const HOST_PICKER_EXIT_SEQUENCE: &'static str = "\x1b[?25h";

/// How many milliseconds the cursor is shown, and then hidden.
pub const HOST_PICKER_CURSOR_BLINK_MS: u128 = 500;

/// Whether a message tells of a success or of a failure.
#[derive(Clone, Copy, Debug, PartialEq, Eq, Structural)]
pub enum PickerToastKind {
    Notice,
    Error,
}

/// A message below the picker.
#[derive(Debug, PartialEq, Eq)]
pub struct PickerToast {
    pub kind: PickerToastKind,
    pub message: String,
}

impl PickerToast {
    /// A message of a success.
    pub fn notice(message: String) -> (r: PickerToast)
        ensures
            r == (PickerToast { kind: PickerToastKind::Notice, message }),
    {
        PickerToast { kind: PickerToastKind::Notice, message }
    }

    /// A message of a failure.
    pub fn error(message: String) -> (r: PickerToast)
        ensures
            r == (PickerToast { kind: PickerToastKind::Error, message }),
    {
        PickerToast { kind: PickerToastKind::Error, message }
    }
}

/// Whether the cursor is shown so many milliseconds after the picker started.
pub fn cursor_is_visible(elapsed_ms: u128) -> (r: bool)
    ensures
        r == (elapsed_ms as int / 500 % 2 == 0),
{
    (elapsed_ms / HOST_PICKER_CURSOR_BLINK_MS) % 2 == 0
}

// ---------------------------------------------------------------------------
// Plain lines
// ---------------------------------------------------------------------------
/// A line cut to a width; nothing where there is no width.
pub open spec fn fitted(line: Seq<char>, width: int) -> Seq<char> {
    if width == 0 {
        Seq::empty()
    } else {
        first_chars(line, usable(width))
    }
}

/// A line cut to a width.
pub fn fit_host_picker_line(line: &str, width: usize) -> (r: String)
    ensures
        r@ == fitted(line@, width as int),
{
    if width == 0 {
        return String::new();
    }
    take_chars(line, usable_width(width))
}

/// A row of the background of the query.
pub open spec fn background_row(width: int) -> Seq<char> {
    HOST_PICKER_QUERY_BG@ + blanks(usable(width)) + ANSI_RESET@
}

/// A row of the background of the query.
pub fn style_host_picker_background_row(width: usize) -> (r: String)
    ensures
        r@ == background_row(width as int),
{
    let mut r = HOST_PICKER_QUERY_BG.to_string();
    r.append(blanks_of(usable_width(width)).as_str());
    r.append(ANSI_RESET);
    r
}

/// A message on one line: its words, with one blank between them.
pub open spec fn sanitized(message: Seq<char>) -> Seq<char> {
    joined(words(message), " "@)
}

/// A message on one line.
pub fn sanitize_picker_message(message: &str) -> (r: String)
    ensures
        r@ == sanitized(message@),
{
    single_spaced(message)
}

/// What is said of a merge that failed.
pub open spec fn merge_failure(session_id: Seq<char>, message: Seq<char>) -> Seq<char> {
    sanitized(message) + " Exit the tui and run `agent merge "@ + session_id
        + "` for detailed instructions."@
}

/// What is said of a merge that failed.
pub fn format_merge_failure_toast(session_id: &str, message: &str) -> (r: String)
    ensures
        r@ == merge_failure(session_id@, message@),
{
    let mut r = sanitize_picker_message(message);
    r.append(" Exit the tui and run `agent merge ");
    r.append(session_id);
    r.append("` for detailed instructions.");
    r
}

/// The line of a message: failures are red.
pub open spec fn toast_line(kind: PickerToastKind, message: Seq<char>, width: int) -> Seq<char> {
    match kind {
        PickerToastKind::Notice => fitted("notice"@ + ": "@ + sanitized(message), width),
        PickerToastKind::Error => HOST_PICKER_STATUS_RED_FG@ + fitted(
            "error"@ + ": "@ + sanitized(message),
            width,
        ) + ANSI_RESET@,
    }
}

/// The line of a message.
pub fn render_host_picker_toast_line(toast: &PickerToast, width: usize) -> (r: String)
    ensures
        r@ == toast_line(toast.kind, toast.message@, width as int),
{
    let mut line = match toast.kind {
        PickerToastKind::Notice => "notice".to_string(),
        PickerToastKind::Error => "error".to_string(),
    };
    line.append(": ");
    line.append(sanitize_picker_message(toast.message.as_str()).as_str());
    let line = fit_host_picker_line(line.as_str(), width);
    match toast.kind {
        PickerToastKind::Notice => line,
        PickerToastKind::Error => {
            let mut r = HOST_PICKER_STATUS_RED_FG.to_string();
            r.append(line.as_str());
            r.append(ANSI_RESET);
            r
        },
    }
}

/// The title of the picker, whatever the width.
pub fn render_host_picker_title_line(_width: usize) -> (r: String)
    ensures
        r@ == header_text(),
{
    agentd_header()
}

// ---------------------------------------------------------------------------
// Rows
// ---------------------------------------------------------------------------
/// What stands before a row: a mark on the selected one.
pub open spec fn leader(selected: bool) -> Seq<char> {
    if selected {
        "› "@
    } else {
        "  "@
    }
}

/// The style of a row: colour on the selected one.
pub open spec fn row_style(selected: bool) -> Seq<char> {
    if selected {
        HOST_PICKER_SELECTED_STYLE@
    } else {
        ""@
    }
}

fn leader_of(selected: bool) -> (r: &'static str)
    ensures
        r@ == leader(selected),
        r@.len() == 2,
{
    proof {
        reveal_strlit("› ");
        reveal_strlit("  ");
    }
    if selected {
        "› "
    } else {
        "  "
    }
}

fn row_style_of(selected: bool) -> (r: &'static str)
    ensures
        r@ == row_style(selected),
{
    if selected {
        HOST_PICKER_SELECTED_STYLE
    } else {
        ""
    }
}

/// The row that creates a session.
pub open spec fn create_row(label: Seq<char>, width: int, selected: bool) -> Seq<char> {
    row_style(selected) + leader(selected) + ANSI_RESET@ + "+ "@ + " "@ + row_style(selected)
        + truncated(label, most(usable(width) - 5, 0)) + ANSI_RESET@
}

/// The row that creates a session.
pub fn render_host_picker_create_row(label: &str, width: usize, selected: bool) -> (r: String)
    ensures
        r@ == create_row(label@, width as int, selected),
{
    let remaining: usize = usable_width(width).saturating_sub(5);
    let mut r = row_style_of(selected).to_string();
    r.append(leader_of(selected));
    r.append(ANSI_RESET);
    r.append("+ ");
    r.append(" ");
    r.append(row_style_of(selected));
    r.append(truncate_session_list_cell(label, remaining).as_str());
    r.append(ANSI_RESET);
    r
}

/// The columns of the row of a session.
pub open spec fn session_body(session: SessionRecord, width: int, now: Timestamp) -> Seq<char> {
    let layout = picker_layout(width);
    cell(elapsed_label(session, now), layout.age as int) + " "@ + cell(
        session.session_id@,
        layout.session as int,
    ) + " "@ + cell(session.repo_name@, layout.repo as int) + " "@ + cell(
        session.branch@,
        layout.branch as int,
    )
}

/// The mark of changes that wait to be merged, in colour.
pub open spec fn pending_mark(session: SessionRecord) -> Seq<char> {
    if session.has_pending_changes {
        HOST_PICKER_STATUS_BLUE_FG@ + pending_marker(session) + ANSI_RESET@
    } else {
        pending_marker(session)
    }
}

/// The row of a session.
pub open spec fn picker_session_row(
    session: SessionRecord,
    width: int,
    selected: bool,
    now: Timestamp,
) -> Seq<char> {
    row_style(selected) + leader(selected) + ANSI_RESET@ + state_prefix(display_state(session))
        + state_icon(display_state(session)) + ANSI_RESET@ + pending_mark(session) + " "@
        + row_style(selected) + first_chars(
        session_body(session, width, now),
        most(usable(width) - 5, 0),
    ) + ANSI_RESET@
}

/// The row of a session.
pub fn render_host_picker_session_row(
    session: &SessionRecord,
    width: usize,
    selected: bool,
    now: Timestamp,
) -> (r: String)
    requires
        session.valid(),
        now.valid(),
    ensures
        r@ == picker_session_row(*session, width as int, selected, now),
{
    let layout = host_picker_session_layout(width);
    let mut body = format_session_list_cell(
        session_elapsed_label_at(session, now).as_str(),
        layout.age,
    );
    body.append(" ");
    body.append(format_session_list_cell(session.session_id.as_str(), layout.session).as_str());
    body.append(" ");
    body.append(format_session_list_cell(session.repo_name.as_str(), layout.repo).as_str());
    body.append(" ");
    body.append(format_session_list_cell(session.branch.as_str(), layout.branch).as_str());
    let used: usize = char_count(leader_of(selected)) + char_count(session_icon(session))
        + char_count(pending_changes_marker(session)) + 1;
    let remaining: usize = usable_width(width).saturating_sub(used);
    let pending = if session.has_pending_changes {
        let mut pending = pending_changes_ansi_prefix().to_string();
        pending.append(pending_changes_marker(session));
        pending.append(ANSI_RESET);
        pending
    } else {
        pending_changes_marker(session).to_string()
    };
    let mut r = row_style_of(selected).to_string();
    r.append(leader_of(selected));
    r.append(ANSI_RESET);
    r.append(host_picker_icon_ansi_prefix(session).as_str());
    r.append(session_icon(session));
    r.append(ANSI_RESET);
    r.append(pending.as_str());
    r.append(" ");
    r.append(row_style_of(selected));
    r.append(take_chars(body.as_str(), remaining).as_str());
    r.append(ANSI_RESET);
    r
}

/// A line of a menu, on the background of the query.
pub open spec fn menu_line(content: Seq<char>, width: int, selected: bool) -> Seq<char> {
    let visible = first_chars(leader(selected) + content, usable(width));
    HOST_PICKER_QUERY_BG@ + row_style(selected) + visible + blanks(usable(width) - visible.len())
        + ANSI_RESET@
}

/// A line of a menu.
pub fn style_host_picker_menu_line(content: &str, width: usize, selected: bool) -> (r: String)
    ensures
        r@ == menu_line(content@, width as int, selected),
{
    let max_chars: usize = usable_width(width);
    let mut plain = leader_of(selected).to_string();
    plain.append(content);
    let visible = take_chars(plain.as_str(), max_chars);
    let padding = blanks_of(max_chars.saturating_sub(char_count(visible.as_str())));
    assert(padding@ =~= blanks(max_chars - visible@.len()));
    let mut r = HOST_PICKER_QUERY_BG.to_string();
    r.append(row_style_of(selected));
    r.append(visible.as_str());
    r.append(padding.as_str());
    r.append(ANSI_RESET);
    r
}

/// What a line of a diff is.
#[derive(Clone, Copy, Debug, PartialEq, Eq, Structural)]
pub enum DiffLineKind {
    Header,
    Hunk,
    Added,
    Removed,
    Context,
}

/// What a line of a diff is.
pub open spec fn diff_line_kind(line: Seq<char>) -> DiffLineKind {
    if starts(line, "diff --git"@) || starts(line, "--- "@) || starts(line, "+++ "@) {
        DiffLineKind::Header
    } else if starts(line, "@@"@) {
        DiffLineKind::Hunk
    } else if starts(line, "+"@) && !starts(line, "+++"@) {
        DiffLineKind::Added
    } else if starts(line, "-"@) && !starts(line, "---"@) {
        DiffLineKind::Removed
    } else {
        DiffLineKind::Context
    }
}

/// What a line of a diff is.
pub fn classify_diff_line(line: &str) -> (r: DiffLineKind)
    ensures
        r == diff_line_kind(line@),
{
    if starts_with(line, "diff --git") || starts_with(line, "--- ") || starts_with(line, "+++ ") {
        DiffLineKind::Header
    } else if starts_with(line, "@@") {
        DiffLineKind::Hunk
    } else if starts_with(line, "+") && !starts_with(line, "+++") {
        DiffLineKind::Added
    } else if starts_with(line, "-") && !starts_with(line, "---") {
        DiffLineKind::Removed
    } else {
        DiffLineKind::Context
    }
}

/// A line of a diff, in colour.
pub open spec fn diff_line(content: Seq<char>, width: int) -> Seq<char> {
    let visible = fitted(content, width);
    match diff_line_kind(visible) {
        DiffLineKind::Header => HOST_PICKER_DIFF_HEADER_STYLE@ + visible + ANSI_RESET@,
        DiffLineKind::Hunk => HOST_PICKER_DIFF_HUNK_STYLE@ + visible + ANSI_RESET@,
        DiffLineKind::Added => HOST_PICKER_DIFF_ADD_STYLE@ + visible + ANSI_RESET@,
        DiffLineKind::Removed => HOST_PICKER_DIFF_REMOVE_STYLE@ + visible + ANSI_RESET@,
        DiffLineKind::Context => visible,
    }
}

/// A line of a diff, in colour.
pub fn style_host_picker_diff_line(content: &str, width: usize) -> (r: String)
    ensures
        r@ == diff_line(content@, width as int),
{
    let visible = fit_host_picker_line(content, width);
    let style = match classify_diff_line(visible.as_str()) {
        DiffLineKind::Header => HOST_PICKER_DIFF_HEADER_STYLE,
        DiffLineKind::Hunk => HOST_PICKER_DIFF_HUNK_STYLE,
        DiffLineKind::Added => HOST_PICKER_DIFF_ADD_STYLE,
        DiffLineKind::Removed => HOST_PICKER_DIFF_REMOVE_STYLE,
        DiffLineKind::Context => {
            return visible;
        },
    };
    let mut r = style.to_string();
    r.append(visible.as_str());
    r.append(ANSI_RESET);
    r
}

/// What the cursor looks like.
pub open spec fn cursor_text(visible: bool) -> Seq<char> {
    if visible {
        HOST_PICKER_CURSOR@
    } else {
        " "@
    }
}

/// The line of the query: a hint behind the cursor where nothing was typed, else what was typed
/// and the cursor behind it.
pub open spec fn query_line(query: Seq<char>, width: int, cursor_visible: bool) -> Seq<char> {
    let available = most(usable(width) - 3, 0);
    if query.len() == 0 {
        let visible = first_chars(HOST_PICKER_PLACEHOLDER@, available);
        HOST_PICKER_QUERY_BG@ + HOST_PICKER_TEXT_FG@ + "› "@ + HOST_PICKER_TEXT_FG@ + cursor_text(
            cursor_visible,
        ) + HOST_PICKER_PLACEHOLDER_FG@ + visible + blanks(usable(width) - 3 - visible.len())
            + ANSI_RESET@
    } else {
        let visible = first_chars(query, most(available - 1, 0));
        HOST_PICKER_QUERY_BG@ + HOST_PICKER_TEXT_FG@ + "› "@ + HOST_PICKER_TEXT_FG@ + visible
            + HOST_PICKER_TEXT_FG@ + cursor_text(cursor_visible) + blanks(
            usable(width) - 3 - visible.len(),
        ) + ANSI_RESET@
    }
}

/// The line of the query.
pub fn style_host_picker_query_line(query: &str, width: usize, cursor_visible: bool) -> (r: String)
    ensures
        r@ == query_line(query@, width as int, cursor_visible),
{
    let max_chars: usize = usable_width(width);
    let cursor = if cursor_visible {
        HOST_PICKER_CURSOR
    } else {
        " "
    };
    let available: usize = max_chars.saturating_sub(3);
    let mut r = HOST_PICKER_QUERY_BG.to_string();
    r.append(HOST_PICKER_TEXT_FG);
    r.append("› ");
    let visible = if query.is_empty() {
        take_chars(HOST_PICKER_PLACEHOLDER, available)
    } else {
        take_chars(query, available.saturating_sub(1))
    };
    let used: usize = char_count(visible.as_str());
    let padding = blanks_of(max_chars.saturating_sub(3).saturating_sub(used));
    assert(padding@ =~= blanks(max_chars - 3 - used));
    if query.is_empty() {
        r.append(HOST_PICKER_TEXT_FG);
        r.append(cursor);
        r.append(HOST_PICKER_PLACEHOLDER_FG);
        r.append(visible.as_str());
    } else {
        r.append(HOST_PICKER_TEXT_FG);
        r.append(visible.as_str());
        r.append(HOST_PICKER_TEXT_FG);
        r.append(cursor);
    }
    r.append(padding.as_str());
    r.append(ANSI_RESET);
    r
}

/// What is written to show the lines of the picker: below the prompt the first time, and each on
/// a line of its own.
pub open spec fn drawn(lines: Seq<Seq<char>>, first_time: bool) -> Seq<char> {
    (if first_time {
        "\r\n"@
    } else {
        ""@
    }) + joined(lines, "\r\n"@)
}

/// What is written to show the lines of the picker.
pub fn host_picker_text(lines: &Vec<String>, previous_lines: usize) -> (r: String)
    ensures
        r@ == drawn(views(lines@), previous_lines == 0),
{
    let mut r = if previous_lines == 0 {
        "\r\n".to_string()
    } else {
        "".to_string()
    };
    let ghost start = r@;
    let ghost all = views(lines@);
    let mut i: usize = 0;
    assert(all.take(0) =~= Seq::empty());
    assert(r@ =~= start + joined(all.take(0), "\r\n"@));
    while i < lines.len()
        invariant
            i <= lines.len(),
            all == views(lines@),
            r@ == start + joined(all.take(i as int), "\r\n"@),
        decreases lines.len() - i,
    {
        let ghost before = r@;
        if i > 0 {
            r.append("\r\n");
        }
        r.append(lines[i].as_str());
        proof {
            let more = all.take(i as int + 1);
            assert(more.drop_last() =~= all.take(i as int));
            assert(more.last() == lines@[i as int]@);
            assert(r@ =~= start + joined(more, "\r\n"@));
        }
        i = i + 1;
    }
    assert(all.take(all.len() as int) =~= all);
    r
}

// ---------------------------------------------------------------------------
// Legend
// ---------------------------------------------------------------------------
/// A sign and what it means.
pub struct LegendView {
    pub prefix: Seq<char>,
    pub icon: Seq<char>,
    pub label: Seq<char>,
}

/// A sign and what it means.
#[derive(Debug)]
pub struct LegendEntry {
    pub prefix: String,
    pub icon: &'static str,
    pub label: &'static str,
}

impl View for LegendEntry {
    type V = LegendView;

    open spec fn view(&self) -> LegendView {
        LegendView { prefix: self.prefix@, icon: self.icon@, label: self.label@ }
    }
}

/// The states that the legend explains, in its order.
pub open spec fn legend_states() -> Seq<SessionDisplayState> {
    seq![
        SessionDisplayState::NeedsInput,
        SessionDisplayState::Failed,
        SessionDisplayState::Recovered,
        SessionDisplayState::Applied,
        SessionDisplayState::Running,
        SessionDisplayState::Exited,
    ]
}

/// Whether a session is shown as a state.
pub open spec fn any_shown_as(sessions: Seq<SessionRecord>, state: SessionDisplayState) -> bool {
    exists|i: int| 0 <= i < sessions.len() && display_state(#[trigger] sessions[i]) == state
}

/// Whether a session has changes that wait to be merged.
pub open spec fn any_pending(sessions: Seq<SessionRecord>) -> bool {
    exists|i: int| 0 <= i < sessions.len() && (#[trigger] sessions[i]).has_pending_changes
}

/// What the legend says of a state.
pub open spec fn state_entry(state: SessionDisplayState) -> LegendView {
    LegendView {
        prefix: state_prefix(state),
        icon: state_icon(state),
        label: state_label(state),
    }
}

/// What the legend says of changes that wait to be merged.
pub open spec fn pending_entry() -> LegendView {
    LegendView { prefix: HOST_PICKER_STATUS_BLUE_FG@, icon: "⧖"@, label: "pending"@ }
}

/// The states among the first of the legend that some session is shown as.
pub open spec fn matching_states(sessions: Seq<SessionRecord>, n: int) -> Seq<LegendView>
    decreases n,
{
    if n <= 0 {
        Seq::empty()
    } else {
        let front = matching_states(sessions, n - 1);
        if any_shown_as(sessions, legend_states()[n - 1]) {
            front.push(state_entry(legend_states()[n - 1]))
        } else {
            front
        }
    }
}

/// The signs that the sessions show, and what they mean. Changes that wait to be merged come
/// fourth, or last.
pub open spec fn legend_entries(sessions: Seq<SessionRecord>) -> Seq<LegendView> {
    let states = matching_states(sessions, 6);
    if any_pending(sessions) {
        states.insert(least(states.len() as int, 3), pending_entry())
    } else {
        states
    }
}

/// How wide a sign and its meaning are.
pub open spec fn entry_width(entry: LegendView) -> int {
    2 + entry.label.len() as int
}

/// A sign in colour and its meaning.
pub open spec fn entry_text(entry: LegendView) -> Seq<char> {
    entry.prefix + entry.icon + ANSI_RESET@ + HOST_PICKER_LEGEND_TEXT_STYLE@ + " "@ + entry.label
        + ANSI_RESET@
}

/// What stands between two signs.
pub open spec fn legend_separator() -> Seq<char> {
    HOST_PICKER_LEGEND_TEXT_STYLE@ + " • "@ + ANSI_RESET@
}

/// The rest of the legend, from an entry on, where `visible` characters are taken: as many
/// entries as fit.
pub open spec fn legend_rest(entries: Seq<LegendView>, i: int, visible: int, max_chars: int) -> Seq<
    char,
>
    decreases entries.len() - i,
{
    if i < 0 || i >= entries.len() || visible + 3 + entry_width(entries[i]) > max_chars {
        Seq::empty()
    } else {
        legend_separator() + entry_text(entries[i]) + legend_rest(
            entries,
            i + 1,
            visible + 3 + entry_width(entries[i]),
            max_chars,
        )
    }
}

/// The legend: as many entries as fit; nothing where the first does not.
pub open spec fn legend_row(width: int, sessions: Seq<SessionRecord>) -> Seq<char> {
    let entries = legend_entries(sessions);
    let max_chars = usable(width);
    if entries.len() == 0 || entry_width(entries[0]) > max_chars {
        Seq::empty()
    } else {
        "  "@ + entry_text(entries[0]) + legend_rest(
            entries,
            1,
            entry_width(entries[0]),
            max_chars,
        )
    }
}

fn is_any_shown_as(sessions: &Vec<&SessionRecord>, state: SessionDisplayState) -> (r: bool)
    ensures
        r == any_shown_as(crate::session_list::pointed_to(sessions@), state),
{
    let ghost all = crate::session_list::pointed_to(sessions@);
    let mut i: usize = 0;
    while i < sessions.len()
        invariant
            i <= sessions.len(),
            all == crate::session_list::pointed_to(sessions@),
            forall|k: int| 0 <= k < i ==> display_state(#[trigger] all[k]) != state,
        decreases sessions.len() - i,
    {
        assert(all[i as int] == *sessions@[i as int]);
        if session_display_state(sessions[i]) == state {
            return true;
        }
        i = i + 1;
    }
    false
}

fn is_any_pending(sessions: &Vec<&SessionRecord>) -> (r: bool)
    ensures
        r == any_pending(crate::session_list::pointed_to(sessions@)),
{
    let ghost all = crate::session_list::pointed_to(sessions@);
    let mut i: usize = 0;
    while i < sessions.len()
        invariant
            i <= sessions.len(),
            all == crate::session_list::pointed_to(sessions@),
            forall|k: int| 0 <= k < i ==> !(#[trigger] all[k]).has_pending_changes,
        decreases sessions.len() - i,
    {
        assert(all[i as int] == *sessions@[i as int]);
        if sessions[i].has_pending_changes {
            return true;
        }
        i = i + 1;
    }
    false
}

/// The models of entries.
pub open spec fn entry_views(entries: Seq<LegendEntry>) -> Seq<LegendView> {
    Seq::new(entries.len(), |i: int| entries[i]@)
}

fn collect_legend_entries(sessions: &Vec<&SessionRecord>) -> (r: Vec<LegendEntry>)
    ensures
        entry_views(r@) == legend_entries(crate::session_list::pointed_to(sessions@)),
        r@.len() <= 7,
{
    let ghost all = crate::session_list::pointed_to(sessions@);
    let states: Vec<SessionDisplayState> = vec![
        SessionDisplayState::NeedsInput,
        SessionDisplayState::Failed,
        SessionDisplayState::Recovered,
        SessionDisplayState::Applied,
        SessionDisplayState::Running,
        SessionDisplayState::Exited,
    ];
    assert(states@ =~= legend_states());
    let mut entries: Vec<LegendEntry> = Vec::new();
    let mut n: usize = 0;
    assert(entry_views(entries@) =~= Seq::empty());
    while n < states.len()
        invariant
            n <= states.len(),
            states@ == legend_states(),
            all == crate::session_list::pointed_to(sessions@),
            entry_views(entries@) == matching_states(all, n as int),
            entries@.len() <= n,
        decreases states.len() - n,
    {
        let state = states[n];
        let ghost before = entries@;
        if is_any_shown_as(sessions, state) {
            entries.push(
                LegendEntry {
                    prefix: prefix_of(state),
                    icon: icon_of(state),
                    label: label_of(state),
                },
            );
            assert(entry_views(entries@) =~= entry_views(before).push(state_entry(state)));
        }
        n = n + 1;
    }
    if is_any_pending(sessions) {
        let at: usize = if entries.len() < 3 {
            entries.len()
        } else {
            3
        };
        let ghost before = entries@;
        entries.insert(
            at,
            LegendEntry {
                prefix: pending_changes_ansi_prefix().to_string(),
                icon: "⧖",
                label: "pending",
            },
        );
        assert(entry_views(entries@) =~= entry_views(before).insert(at as int, pending_entry()));
    }
    entries
}

fn append_entry(line: String, entry: &LegendEntry) -> (r: String)
    ensures
        r@ == line@ + entry_text(entry@),
{
    let mut r = line;
    r.append(entry.prefix.as_str());
    r.append(entry.icon);
    r.append(ANSI_RESET);
    r.append(HOST_PICKER_LEGEND_TEXT_STYLE);
    r.append(" ");
    r.append(entry.label);
    r.append(ANSI_RESET);
    assert(r@ =~= line@ + entry_text(entry@));
    r
}

/// The legend.
pub fn render_host_picker_legend_row(width: usize, sessions: &Vec<&SessionRecord>) -> (r: String)
    ensures
        r@ == legend_row(width as int, crate::session_list::pointed_to(sessions@)),
{
    let ghost all = crate::session_list::pointed_to(sessions@);
    let entries = collect_legend_entries(sessions);
    let ghost due = legend_entries(all);
    let max_chars: usize = usable_width(width);
    if entries.len() == 0 {
        return String::new();
    }
    assert(entry_views(entries@)[0] == due[0]);
    let label: usize = char_count(entries[0].label);
    if max_chars < 2 || label > max_chars - 2 {
        return String::new();
    }
    let mut line = append_entry("  ".to_string(), &entries[0]);
    let mut visible: usize = 2 + label;
    let mut index: usize = 1;
    while index < entries.len()
        invariant_except_break
            line@ + legend_rest(due, index as int, visible as int, max_chars as int) == legend_row(
                width as int,
                all,
            ),
        invariant
            1 <= index <= entries.len(),
            visible <= max_chars,
            entry_views(entries@) == due,
        ensures
            line@ == legend_row(width as int, all),
        decreases entries.len() - index,
    {
        assert(entry_views(entries@)[index as int] == due[index as int]);
        let label: usize = char_count(entries[index].label);
        let room: usize = max_chars - visible;
        if room < 5 || label > room - 5 {
            assert(line@ + Seq::<char>::empty() =~= line@);
            break;
        }
        let ghost before = line@;
        line.append(HOST_PICKER_LEGEND_TEXT_STYLE);
        line.append(" • ");
        line.append(ANSI_RESET);
        line = append_entry(line, &entries[index]);
        visible = visible + 5 + label;
        proof {
            let rest = legend_rest(due, index + 1, visible as int, max_chars as int);
            assert(line@ =~= before + legend_separator() + entry_text(due[index as int]));
            assert(line@ + rest =~= before + (legend_separator() + entry_text(due[index as int])
                + rest));
        }
        index = index + 1;
        proof {
            if index == entries@.len() {
                assert(line@ + Seq::<char>::empty() =~= line@);
            }
        }
    }
    line
}

// ---------------------------------------------------------------------------
// Laws
// ---------------------------------------------------------------------------
/// Lines and menus are never wider than the width they are made for.
pub proof fn lines_fit_their_width(line: Seq<char>, width: int)
    requires
        0 <= width,
    ensures
        fitted(line, width).len() <= width,
{
}

/// A menu line has, apart from its styles, exactly the characters that its width can hold.
pub proof fn menu_lines_fill_their_width(content: Seq<char>, width: int, selected: bool)
    requires
        0 <= width,
    ensures
        menu_line(content, width, selected).len() == HOST_PICKER_QUERY_BG@.len() + row_style(
            selected,
        ).len() + usable(width) + ANSI_RESET@.len(),
{
}

} // verus!
