//! What is seen on the screen, told by what it is made of.
use crate::client::diff_text::{
    is_tinted, pieces, pieces_make_the_text, tinted, tinted_line, tinted_lines,
};
use crate::client::report::{kill_lines, session_lines, short_session_lines, truth, worktree_lines};
use crate::overlay::{OverlayMode, OverlayView};
use crate::overlay_render::{command_line, diff_body, diff_style, overlay_screen, ScreenView};
use crate::picker::PickerView;
use crate::picker_render::row_lines;
use crate::picker_style::{
    create_row, diff_line, diff_line_kind, fitted, legend_entries, legend_states, menu_line,
    pending_entry, picker_session_row, query_line, sanitized, state_entry, toast_line,
    DiffLineKind, PickerToastKind, HOST_PICKER_CURSOR, HOST_PICKER_DIFF_ADD_STYLE,
    HOST_PICKER_DIFF_HEADER_STYLE, HOST_PICKER_DIFF_HUNK_STYLE, HOST_PICKER_DIFF_REMOVE_STYLE,
    HOST_PICKER_SELECTED_STYLE,
};
use crate::search_laws::{is_part, is_part_at};
use crate::session::{IntegrationState, SessionRecord, SessionStatus, WorktreeRecord};
use crate::session_display::ANSI_RESET;
use crate::session_find::{
    first_named, found_session_is_named, matching, matching_is_exact, status_name,
};
use crate::session_list::{
    cell, display_state, pending_cell, session_row, truncated, usable, visible_width, SessionListLayout,
    HOST_PICKER_QUERY_BG, HOST_PICKER_STATUS_RED_FG,
};
use crate::style::Color;
use crate::switcher::{match_lines, matches_lines, switcher_lines};
use crate::text::{
    blanks, first_chars, is_white_space, joined, line_scan, lines, starts, word_scan, words,
};
use crate::time::Timestamp;
use crate::tui::app::{ComposerField, FocusView, Modal, RuntimeView};
use crate::tui::badge::{by_urgency, icon, icon_color, icon_style, status_text};
use crate::tui::view::{
    card_tops, composer_lines, modal_screen, notice_of, point_at, queue_lines, sidebar_cards,
    worker_body, Area, ModalScreenView,
};
use vstd::prelude::*;
use vstd::string::*;

verus! {

// ---------------------------------------------------------------------------
// Texts
// ---------------------------------------------------------------------------
proof fn scanned_on(s: Seq<char>, a: Seq<char>)
    requires
        forall|i: int| 0 <= i < a.len() ==> #[trigger] a[i] != '\n',
    ensures
        line_scan(s + a) == (line_scan(s).0, line_scan(s).1 + a),
    decreases a.len(),
{
    if a.len() == 0 {
        assert(s + a =~= s);
        assert(line_scan(s).1 + a =~= line_scan(s).1);
    } else {
        let front = a.drop_last();
        assert forall|i: int| 0 <= i < front.len() implies #[trigger] front[i] != '\n' by {
            assert(front[i] == a[i]);
        }
        scanned_on(s, front);
        assert((s + a).drop_last() =~= s + front);
        assert(a[a.len() - 1] != '\n');
        assert((line_scan(s).1 + front).push(a.last()) =~= line_scan(s).1 + a);
    }
}

/// A text with a line more has that line last, however the line ends: with a line feed, with a
/// carriage return before it, or with the text.
pub proof fn texts_have_their_lines(s: Seq<char>, line: Seq<char>)
    requires
        s.len() == 0 || s.last() == '\n',
        forall|i: int| 0 <= i < line.len() ==> #[trigger] line[i] != '\n' && line[i] != '\r',
    ensures
        lines(s + line + seq!['\n']) == lines(s).push(line),
        lines(s + line + seq!['\r', '\n']) == lines(s).push(line),
        line.len() > 0 ==> lines(s + line) == lines(s).push(line),
        lines(Seq::<char>::empty()).len() == 0,
{
    scanned_on(s, line);
    assert(line_scan(s).1.len() == 0);
    assert(line_scan(s).1 + line =~= line);
    let ended = s + line + seq!['\n'];
    assert(ended.drop_last() =~= s + line);
    assert(line.len() > 0 ==> line[line.len() - 1] != '\r');
    let returned = line + seq!['\r'];
    scanned_on(s, returned);
    assert(line_scan(s).1 + returned =~= returned);
    assert(returned.drop_last() =~= line);
    let both = s + line + seq!['\r', '\n'];
    assert(both.drop_last() =~= s + returned);
}

proof fn words_scanned_on(s: Seq<char>, a: Seq<char>)
    requires
        forall|i: int| 0 <= i < a.len() ==> !is_white_space(#[trigger] a[i]),
    ensures
        word_scan(s + a) == (word_scan(s).0, word_scan(s).1 + a),
    decreases a.len(),
{
    if a.len() == 0 {
        assert(s + a =~= s);
        assert(word_scan(s).1 + a =~= word_scan(s).1);
    } else {
        let front = a.drop_last();
        assert forall|i: int| 0 <= i < front.len() implies !is_white_space(#[trigger] front[i]) by {
            assert(front[i] == a[i]);
        }
        words_scanned_on(s, front);
        assert((s + a).drop_last() =~= s + front);
        assert(!is_white_space(a[a.len() - 1]));
        assert((word_scan(s).1 + front).push(a.last()) =~= word_scan(s).1 + a);
    }
}

/// A text with a word more has that word last, and white space behind it changes nothing.
pub proof fn texts_have_their_words(s: Seq<char>, word: Seq<char>, space: char)
    requires
        s.len() == 0 || is_white_space(s.last()),
        word.len() > 0,
        forall|i: int| 0 <= i < word.len() ==> !is_white_space(#[trigger] word[i]),
        is_white_space(space),
    ensures
        words(s + word) == words(s).push(word),
        words(s + word + seq![space]) == words(s + word),
        words((s + word).push(space).push(space)) == words(s + word),
        words(Seq::<char>::empty()).len() == 0,
{
    words_scanned_on(s, word);
    if s.len() > 0 {
        assert(word_scan(s).1.len() == 0);
    }
    assert(word_scan(s).1 + word =~= word);
    let once = s + word + seq![space];
    assert(once.drop_last() =~= s + word);
    let twice = (s + word).push(space).push(space);
    assert(twice.drop_last() =~= once);
}

/// A message on one line is its words with one blank between them.
pub proof fn messages_stand_on_one_line(message: Seq<char>, a: Seq<char>, b: Seq<char>)
    ensures
        words(message) == seq![a, b] ==> sanitized(message) == a + seq![' '] + b,
        words(message) == seq![a] ==> sanitized(message) == a,
        words(message).len() == 0 ==> sanitized(message).len() == 0,
{
    reveal_strlit(" ");
    assert(" "@ =~= seq![' ']);
    assert(seq![a, b].drop_last() =~= seq![a]);
    reveal_with_fuel(joined, 3);
}

// ---------------------------------------------------------------------------
// Diffs
// ---------------------------------------------------------------------------
/// A line that starts with a plus sign was added and one that starts with a minus sign was removed,
/// unless two more of them follow. One that starts with `@@` starts a part, and one that starts with
/// anything else, but for the head of a file, is as before.
pub proof fn diff_lines_are_told_by_their_start(line: Seq<char>)
    requires
        line.len() > 0,
    ensures
        line[0] == '+' && !(line.len() > 2 && line[1] == '+' && line[2] == '+') ==> diff_line_kind(
            line,
        ) == DiffLineKind::Added,
        line[0] == '-' && !(line.len() > 2 && line[1] == '-' && line[2] == '-') ==> diff_line_kind(
            line,
        ) == DiffLineKind::Removed,
        line.len() > 1 && line[0] == '@' && line[1] == '@' ==> diff_line_kind(line)
            == DiffLineKind::Hunk,
        line.len() > 3 && (line.take(4) == seq!['+', '+', '+', ' '] || line.take(4) == seq![
            '-', '-', '-', ' ',
        ]) ==> diff_line_kind(line) == DiffLineKind::Header,
        line[0] != '+' && line[0] != '-' && line[0] != '@' && line[0] != 'd' ==> diff_line_kind(line)
            == DiffLineKind::Context,
{
    reveal_strlit("diff --git");
    reveal_strlit("--- ");
    reveal_strlit("+++ ");
    reveal_strlit("@@");
    reveal_strlit("+");
    reveal_strlit("+++");
    reveal_strlit("-");
    reveal_strlit("---");
    assert("diff --git"@.len() == 10 && "--- "@.len() == 4 && "+++ "@.len() == 4 && "@@"@.len() == 2
        && "+"@.len() == 1 && "+++"@.len() == 3 && "-"@.len() == 1 && "---"@.len() == 3);
    if starts(line, "diff --git"@) {
        assert(line.take(10)[0] == line[0]);
        assert("diff --git"@[0] == 'd');
    }
    if starts(line, "--- "@) {
        assert(line.take(4)[0] == line[0] && line.take(4)[1] == line[1] && line.take(4)[2]
            == line[2]);
        assert("--- "@[0] == '-' && "--- "@[1] == '-' && "--- "@[2] == '-');
    }
    if starts(line, "+++ "@) {
        assert(line.take(4)[0] == line[0] && line.take(4)[1] == line[1] && line.take(4)[2]
            == line[2]);
        assert("+++ "@[0] == '+' && "+++ "@[1] == '+' && "+++ "@[2] == '+');
    }
    if starts(line, "@@"@) {
        assert(line.take(2)[0] == line[0]);
        assert("@@"@[0] == '@');
    }
    if starts(line, "+"@) {
        assert(line.take(1)[0] == line[0]);
        assert("+"@[0] == '+');
    }
    if starts(line, "-"@) {
        assert(line.take(1)[0] == line[0]);
        assert("-"@[0] == '-');
    }
    if starts(line, "+++"@) {
        assert(line.take(3)[0] == line[0] && line.take(3)[1] == line[1] && line.take(3)[2]
            == line[2]);
        assert("+++"@[0] == '+' && "+++"@[1] == '+' && "+++"@[2] == '+');
    }
    if starts(line, "---"@) {
        assert(line.take(3)[0] == line[0] && line.take(3)[1] == line[1] && line.take(3)[2]
            == line[2]);
        assert("---"@[0] == '-' && "---"@[1] == '-' && "---"@[2] == '-');
    }
    if line[0] == '+' {
        assert(line.take(1) =~= "+"@);
    }
    if line[0] == '-' {
        assert(line.take(1) =~= "-"@);
    }
    if line.len() > 1 && line[0] == '@' && line[1] == '@' {
        assert(line.take(2) =~= "@@"@);
    }
    if line.len() > 3 && line.take(4) == seq!['+', '+', '+', ' '] {
        assert(line.take(4) =~= "+++ "@);
    }
    if line.len() > 3 && line.take(4) == seq!['-', '-', '-', ' '] {
        assert(line.take(4) =~= "--- "@);
    }
}

/// What was added is green and what was removed is red, heads of files are blue and of parts yellow
/// and both bold, wherever a diff is shown; what is as before stands as it is.
pub proof fn diff_lines_have_their_colour(line: Seq<char>, width: int, enabled: bool)
    requires
        line.len() < width,
    ensures
        ({
            let kind = diff_line_kind(line);
            let style = diff_style(line);
            let shown = diff_line(line, width);
            &&& kind == DiffLineKind::Added ==> style.fg == Some(Color::Rgb(111, 207, 151))
                && !style.bold && tinted_line(line, enabled) == tinted(
                line,
                111,
                207,
                151,
                false,
                enabled,
            ) && shown == HOST_PICKER_DIFF_ADD_STYLE@ + line + ANSI_RESET@
            &&& kind == DiffLineKind::Removed ==> style.fg == Some(Color::Rgb(255, 107, 107))
                && !style.bold && tinted_line(line, enabled) == tinted(
                line,
                255,
                107,
                107,
                false,
                enabled,
            ) && shown == HOST_PICKER_DIFF_REMOVE_STYLE@ + line + ANSI_RESET@
            &&& kind == DiffLineKind::Header ==> style.fg == Some(Color::Rgb(153, 214, 255))
                && style.bold && tinted_line(line, enabled) == tinted(
                line,
                153,
                214,
                255,
                true,
                enabled,
            ) && shown == HOST_PICKER_DIFF_HEADER_STYLE@ + line + ANSI_RESET@
            &&& kind == DiffLineKind::Hunk ==> style.fg == Some(Color::Rgb(242, 201, 76))
                && style.bold && tinted_line(line, enabled) == tinted(
                line,
                242,
                201,
                76,
                true,
                enabled,
            ) && shown == HOST_PICKER_DIFF_HUNK_STYLE@ + line + ANSI_RESET@
            &&& kind == DiffLineKind::Context ==> style.fg is None && !style.bold && tinted_line(
                line,
                enabled,
            ) == line && shown == line
        }),
{
}

/// A diff that fills the screen shows its lines in their order, each as it is.
pub proof fn diffs_are_shown_line_by_line(text: Seq<char>, i: int)
    ensures
        text.len() > 0 ==> diff_body(text).len() == lines(text).len(),
        text.len() > 0 && 0 <= i < lines(text).len() ==> diff_body(text)[i].len() == 1
            && diff_body(text)[i][0].text == lines(text)[i],
        text.len() == 0 ==> diff_body(text).len() == 1 && diff_body(text)[0][0].text
            == "No diff available."@,
{
}

// ---------------------------------------------------------------------------
// The picker and the list
// ---------------------------------------------------------------------------
/// A line that is wide enough shows all of what it is for, with a mark and a style of its own where
/// it is selected, and blanks up to its end.
pub proof fn menu_lines_show_their_entry(content: Seq<char>, width: int, selected: bool)
    requires
        content.len() + 2 < width,
    ensures
        menu_line(content, width, selected) == HOST_PICKER_QUERY_BG@ + (if selected {
            HOST_PICKER_SELECTED_STYLE@
        } else {
            Seq::empty()
        }) + (if selected {
            "› "@
        } else {
            "  "@
        } + content) + blanks(width - 3 - content.len()) + ANSI_RESET@,
{
    reveal_strlit("› ");
    reveal_strlit("  ");
    reveal_strlit("");
    assert(""@ =~= Seq::empty());
}

/// A line is cut at its end, one short of the width, and is otherwise as it was.
pub proof fn lines_are_cut_at_their_end(line: Seq<char>, width: int)
    requires
        1 < width,
    ensures
        line.len() < width ==> fitted(line, width) == line,
        line.len() >= width ==> fitted(line, width) == line.take(width - 1),
{
}

/// A text stands in its column as it is, with blanks behind it. One that is too long is cut, and
/// where there is room for them, three dots say so.
pub proof fn cells_show_their_text(content: Seq<char>, width: int)
    requires
        0 <= width,
    ensures
        content.len() <= width ==> cell(content, width) == content + blanks(width - content.len()),
        content.len() > width > 3 ==> truncated(content, width) == content.take(width - 3) + seq![
            '.', '.', '.',
        ],
        content.len() > width && width <= 3 ==> truncated(content, width) == content.take(width),
{
    reveal_strlit("...");
    assert("..."@ =~= seq!['.', '.', '.']);
}

/// A notice and an error are told apart by their first word and by the colour of an error.
pub proof fn messages_are_told_apart(message: Seq<char>, width: int)
    ensures
        toast_line(PickerToastKind::Notice, message, width) == fitted(
            "notice: "@ + sanitized(message),
            width,
        ),
        toast_line(PickerToastKind::Error, message, width) == HOST_PICKER_STATUS_RED_FG@ + fitted(
            "error: "@ + sanitized(message),
            width,
        ) + ANSI_RESET@,
{
    reveal_strlit("notice");
    reveal_strlit("error");
    reveal_strlit(": ");
    reveal_strlit("notice: ");
    reveal_strlit("error: ");
    assert("notice"@ + ": "@ =~= "notice: "@);
    assert("error"@ + ": "@ =~= "error: "@);
}

/// Whether changes wait is said in a session's row exactly where they do.
pub proof fn rows_say_whether_changes_wait(session: SessionRecord, width: int)
    requires
        width >= 7,
    ensures
        !session.has_pending_changes ==> pending_cell(session, width) == blanks(width),
        session.has_pending_changes ==> pending_cell(session, width)
            == crate::session_list::HOST_PICKER_STATUS_BLUE_FG@ + ("pending"@ + blanks(width - 7))
            + ANSI_RESET@,
{
    reveal_strlit("pending");
    reveal_strlit("");
    assert("pending"@.len() == 7);
    assert(cell(""@, width) =~= blanks(width));
}

/// The legend explains a state exactly where a session is shown as it, and changes that wait to be
/// merged where a session has some.
pub proof fn legend_explains_what_is_shown(sessions: Seq<SessionRecord>, i: int)
    requires
        0 <= i < 6,
    ensures
        (exists|k: int|
            0 <= k < sessions.len() && display_state(#[trigger] sessions[k]) == legend_states()[i])
            ==> legend_entries(sessions).contains(state_entry(legend_states()[i])),
        (exists|k: int| 0 <= k < sessions.len() && (#[trigger] sessions[k]).has_pending_changes)
            <==> legend_entries(sessions).len() > crate::picker_style::matching_states(
            sessions,
            6,
        ).len(),
        (exists|k: int| 0 <= k < sessions.len() && (#[trigger] sessions[k]).has_pending_changes)
            ==> legend_entries(sessions).contains(pending_entry()),
        sessions.len() == 0 ==> legend_entries(sessions).len() == 0,
{
    let states = crate::picker_style::matching_states(sessions, 6);
    reveal_with_fuel(crate::picker_style::matching_states, 7);
    if sessions.len() == 0 {
        no_states(sessions, 6);
    }
    let wanted = state_entry(legend_states()[i]);
    if crate::picker_style::any_shown_as(sessions, legend_states()[i]) {
        state_is_explained(sessions, 6, i);
        let k = choose|k: int| 0 <= k < states.len() && states[k] == wanted;
        if crate::picker_style::any_pending(sessions) {
            let at = if states.len() < 3 {
                states.len() as int
            } else {
                3
            };
            assert(legend_entries(sessions) == states.insert(at, pending_entry()));
            if k < at {
                assert(legend_entries(sessions)[k] == wanted);
            } else {
                assert(legend_entries(sessions)[k + 1] == wanted);
            }
        }
    }
    if crate::picker_style::any_pending(sessions) {
        let at = if states.len() < 3 {
            states.len() as int
        } else {
            3
        };
        assert(legend_entries(sessions)[at] == pending_entry());
    }
}

proof fn no_states(sessions: Seq<SessionRecord>, n: int)
    requires
        sessions.len() == 0,
        n <= 6,
    ensures
        crate::picker_style::matching_states(sessions, n).len() == 0,
    decreases n,
{
    if n > 0 {
        no_states(sessions, n - 1);
    }
}

proof fn state_is_explained(sessions: Seq<SessionRecord>, n: int, i: int)
    requires
        0 <= i < n <= 6,
        crate::picker_style::any_shown_as(sessions, legend_states()[i]),
    ensures
        crate::picker_style::matching_states(sessions, n).contains(
            state_entry(legend_states()[i]),
        ),
    decreases n,
{
    let all = crate::picker_style::matching_states(sessions, n);
    let front = crate::picker_style::matching_states(sessions, n - 1);
    let wanted = state_entry(legend_states()[i]);
    if i == n - 1 {
        assert(all[front.len() as int] == wanted);
    } else {
        state_is_explained(sessions, n - 1, i);
        let k = choose|k: int| 0 <= k < front.len() && front[k] == wanted;
        assert(all[k] == wanted);
    }
}

// ---------------------------------------------------------------------------
// The overlay
// ---------------------------------------------------------------------------
/// The overlay shows the palette, the switcher, the form, the details, the changes or the question
/// that it is at. A list shows its entries in their order and lets the selected one stand out; the
/// form shows what was typed.
pub proof fn overlay_shows_where_it_is(o: OverlayView, i: int)
    ensures
        match overlay_screen(o) {
            ScreenView::List { title, prompt, lines: shown, toast, .. } => {
                &&& o.mode == OverlayMode::Palette || o.mode == OverlayMode::SessionSwitcher
                &&& o.mode == OverlayMode::Palette ==> prompt[1].text == o.palette_query
                &&& o.mode == OverlayMode::SessionSwitcher ==> prompt[1].text == o.switcher_query
                &&& o.mode == OverlayMode::SessionSwitcher ==> shown.len() == o.found().len() && (0
                    <= i < shown.len() ==> shown[i][3].text == o.found()[i].session_id@ && (
                shown[i][3].style.bold <==> i == o.switcher_selected))
                &&& o.mode == OverlayMode::Palette ==> shown.len() == o.commands().len() && (0 <= i
                    < shown.len() ==> shown[i][2].text == o.commands()[i].title && (
                shown[i][2].style.bold <==> i == o.palette_selected)) && toast == o.toast
            },
            ScreenView::Form { name, agent, toast, .. } => o.mode is NewSession && name[1].text
                == o.name_input && agent[1].text == o.agent_input && toast == o.toast,
            ScreenView::Text { text, title, .. } => {
                &&& o.mode == OverlayMode::GitStatus || o.mode == OverlayMode::StopConfirm
                &&& o.mode == OverlayMode::GitStatus ==> text == o.detail_text
                &&& o.mode == OverlayMode::StopConfirm ==> title == "Stop Session"@
            },
            ScreenView::Diff { body, scroll, .. } => o.mode == OverlayMode::Diff && body
                == diff_body(o.detail_text) && scroll == o.detail_scroll,
        },
{
}

// ---------------------------------------------------------------------------
// The full-screen view
// ---------------------------------------------------------------------------
/// The first card of the sidebar is the coordinator's, and each further one is that of the next
/// session in their order. Exactly the card of what is in focus is marked.
pub proof fn cards_show_the_sessions(view: RuntimeView, area: Area, i: int)
    requires
        0 <= i < sidebar_cards(view, area).len(),
    ensures
        ({
            let card = sidebar_cards(view, area)[i].1;
            let session = by_urgency(view.sessions)[i - 1];
            &&& i == 0 ==> card.title == "coordinator"@ && (card.focused <==> view.focus
                == FocusView::Coordinator)
            &&& i > 0 ==> card.title == session.title@ && card.branch == session.branch@
                && card.repo_name == session.repo_name@ && card.status_text == status_text(session)
                && card.icon == icon(session) && (card.focused <==> view.focus == FocusView::Worker(
                session.session_id@,
            ))
        }),
{
}

/// Cards stand below each other and do not overlap.
pub proof fn cards_stand_below_each_other(top: int, bottom: int, count: int, i: int)
    requires
        0 <= top,
        bottom <= u16::MAX,
        0 <= i,
        i + 1 < card_tops(top, bottom, count).len(),
    ensures
        card_tops(top, bottom, count)[0] == top,
        card_tops(top, bottom, count)[i + 1] == card_tops(top, bottom, count)[i] + 6,
        card_tops(top, bottom, count)[i + 1] < bottom,
    decreases count,
{
    let next = top + 6;
    let rest = card_tops(next, bottom, count - 1);
    assert(card_tops(top, bottom, count) =~= seq![top] + rest);
    if i > 0 {
        cards_stand_below_each_other(next, bottom, count - 1, i - 1);
    } else {
        assert(count - 1 > 0);
        assert(rest[0] == next);
    }
}

/// What covers the view is what was opened: a text shows what was loaded for it, and the question
/// whether to stop a session names the session in focus.
pub proof fn view_shows_what_covers_it(view: RuntimeView, id: Seq<char>)
    ensures
        match modal_screen(view) {
            ModalScreenView::Closed => view.modal == Modal::Closed,
            ModalScreenView::Palette { .. } => view.modal == Modal::Palette,
            ModalScreenView::Text { body, .. } => {
                &&& view.modal == Modal::WorktreeActions || view.modal == Modal::GitStatus
                    || view.modal == Modal::Diff
                &&& view.modal == Modal::Diff ==> body == view.diff_text
                &&& view.modal != Modal::Diff ==> body == view.detail_text
            },
            ModalScreenView::Stop { body } => view.modal == Modal::StopConfirm && (view.focus
                == FocusView::Worker(id) ==> body == "Stop session "@ + id
                + "?\n\nEnter confirms. Esc cancels."@),
        },
{
}

/// The keys behind the leader key are shown while one is awaited, and a message otherwise, where
/// there is one.
pub proof fn notices_are_shown(view: RuntimeView)
    ensures
        view.leader_pending ==> notice_of(view) == Some(
            ("Prefix"@, crate::tui::view::LEADER_HELP@),
        ),
        !view.leader_pending && view.toast is Some ==> notice_of(view) == Some(
            ("Notice"@, view.toast->0),
        ),
        !view.leader_pending && view.toast is None ==> notice_of(view) is None,
{
}

/// The composer shows what was typed, and marks the field that is being typed into.
pub proof fn composer_shows_what_is_typed(view: RuntimeView, now: Timestamp)
    ensures
        ({
            let shown = composer_lines(view, now);
            let query = view.composer.field == ComposerField::Query;
            &&& shown[0][2].text == view.composer.query
            &&& shown[1][2].text == view.composer.agent_input
            &&& shown[0][0].text == (if query {
                "> "@
            } else {
                "  "@
            })
            &&& shown[1][0].text == (if query {
                "  "@
            } else {
                "> "@
            })
        }),
{
}

/// Below what is said of a session stands its terminal, where it is the one that is connected, and
/// its history otherwise.
pub proof fn worker_shows_its_terminal(view: RuntimeView, id: Seq<char>, i: int)
    ensures
        view.pty is Some && view.pty->0.session_id == id ==> worker_body(view, id)
            == crate::tui::pty::pty_lines(view.pty->0),
        view.pty is None || view.pty->0.session_id != id ==> worker_body(view, id).len() == lines(
            view.history,
        ).len() && (0 <= i < lines(view.history).len() ==> worker_body(view, id)[i][0].text
            == lines(view.history)[i]),
{
}

/// In the full-screen view, changes that wait for review are shown first of all; otherwise a
/// session's sign and colour tell whether it waits, failed, was recovered, works, pauses or is done.
pub proof fn badges_tell_sessions_apart(session: SessionRecord)
    ensures
        ({
            let review = session.integration_state == IntegrationState::PendingReview;
            &&& review ==> icon(session) == "⧖"@ && icon_color(session) == Color::Blue
            &&& !review && session.status == SessionStatus::Failed ==> icon(session) == "✖"@
                && icon_color(session) == Color::Red
            &&& !review && session.status == SessionStatus::NeedsInput ==> icon(session) == "◦"@
                && icon_color(session) == Color::Yellow
            &&& !review && session.status == SessionStatus::UnknownRecovered ==> icon(session)
                == "⚠"@ && icon_color(session) == Color::Yellow
            &&& !review && (session.status == SessionStatus::Running || session.status
                == SessionStatus::Creating) ==> icon(session) == "●"@ && icon_color(session)
                == Color::Green
            &&& !review && session.status == SessionStatus::Paused ==> icon(session) == "⏸"@
                && icon_color(session) == Color::DarkGray
            &&& !review && session.status == SessionStatus::Exited ==> icon(session) == "✔"@
                && icon_color(session) == Color::Green
        }),
        icon_style(session).fg == Some(icon_color(session)),
        icon_style(session).dim <==> session.status == SessionStatus::NeedsInput || session.status
            == SessionStatus::Paused,
        session.attention_summary is Some ==> status_text(session)
            == session.attention_summary->0@,
        session.attention_summary is None && session.has_conflicts ==> status_text(session)
            == "conflicts detected"@,
        session.attention_summary is None && !session.has_conflicts && session.git_status_summary
            is Some ==> status_text(session) == session.git_status_summary->0@,
        session.attention_summary is None && !session.has_conflicts && session.git_status_summary
            is None && session.integration_state == IntegrationState::PendingReview ==> status_text(
            session,
        ) == "review ready"@,
        session.attention_summary is None && !session.has_conflicts && session.git_status_summary
            is None && session.integration_state != IntegrationState::PendingReview ==> {
            &&& session.status == SessionStatus::NeedsInput ==> status_text(session)
                == "needs input"@
            &&& session.status == SessionStatus::Running ==> status_text(session) == "working"@
            &&& session.status == SessionStatus::Exited ==> status_text(session) == "complete"@
            &&& session.status == SessionStatus::Failed && session.error is Some ==> status_text(
                session,
            ) == session.error->0@
        },
{
}

// ---------------------------------------------------------------------------
// Reports
// ---------------------------------------------------------------------------
/// What is printed of a session tells its name first, and each thing under its own label.
pub proof fn reports_tell_each_thing_under_its_label(session: SessionRecord)
    ensures
        session_lines(session)[0] == "name: "@ + session.session_id@,
        session_lines(session).contains("agent: "@ + session.agent@),
        session_lines(session).contains("status: "@ + status_name(session.status)),
        session_lines(session).contains("apply_state: "@ + session.apply_state.name()),
        session_lines(session).contains("has_commits: "@ + truth(session.has_commits)),
        session_lines(session).contains(
            "has_pending_changes: "@ + truth(session.has_pending_changes),
        ),
        session_lines(session).contains("base_branch: "@ + session.base_branch@),
        session_lines(session).contains("branch: "@ + session.branch@),
        session_lines(session).contains("worktree: "@ + session.worktree@),
        session.error is Some ==> session_lines(session).last() == "error: "@ + session.error->0@,
        short_session_lines(session)[0] == "session_id: "@ + session.session_id@,
        short_session_lines(session).contains("status: "@ + status_name(session.status)),
        short_session_lines(session).contains("branch: "@ + session.branch@),
        truth(true) == "true"@,
        truth(false) == "false"@,
{
    let all = session_lines(session);
    let a: int = if session.thread_id is Some {
        2
    } else {
        1
    };
    let m: int = if session.model is Some {
        a + 2
    } else {
        a + 1
    };
    let s: int = if session.attention_summary is Some {
        m + 6
    } else {
        m + 5
    };
    assert(all[a] == "agent: "@ + session.agent@);
    assert(all[m] == "status: "@ + status_name(session.status));
    assert(all[m + 1] == "apply_state: "@ + session.apply_state.name());
    assert(all[m + 2] == "has_commits: "@ + truth(session.has_commits));
    assert(all[m + 3] == "has_pending_changes: "@ + truth(session.has_pending_changes));
    assert(all[s + 3] == "base_branch: "@ + session.base_branch@);
    assert(all[s + 4] == "branch: "@ + session.branch@);
    assert(all[s + 5] == "worktree: "@ + session.worktree@);
    assert(short_session_lines(session)[2] == "status: "@ + status_name(session.status));
    assert(short_session_lines(session)[7] == "branch: "@ + session.branch@);
}

/// It is said that a session was terminated exactly where it ran, and that it was removed exactly
/// where it was, in this order. Branches and worktrees are told under their own labels.
pub proof fn reports_tell_what_was_done(
    id: Seq<char>,
    was_running: bool,
    removed: bool,
    worktree: WorktreeRecord,
    label: Seq<char>,
)
    ensures
        was_running && removed ==> kill_lines(id, was_running, removed) == seq![
            "terminated session "@ + id,
            "removed session "@ + id,
        ],
        was_running && !removed ==> kill_lines(id, was_running, removed) == seq![
            "terminated session "@ + id,
        ],
        !was_running && removed ==> kill_lines(id, was_running, removed) == seq![
            "removed session "@ + id,
        ],
        !was_running && !removed ==> kill_lines(id, was_running, removed).len() == 0,
        worktree_lines(label, worktree) == seq![
            label + worktree.session_id@,
            "repo_path: "@ + worktree.repo_path@,
            "base_branch: "@ + worktree.base_branch@,
            "branch: "@ + worktree.branch@,
            "worktree: "@ + worktree.worktree@,
        ],
{
    assert(was_running && removed ==> kill_lines(id, was_running, removed) =~= seq![
        "terminated session "@ + id,
        "removed session "@ + id,
    ]);
    assert(!was_running && removed ==> kill_lines(id, was_running, removed) =~= seq![
        "removed session "@ + id,
    ]);
    assert(worktree_lines(label, worktree) =~= seq![
        label + worktree.session_id@,
        "repo_path: "@ + worktree.repo_path@,
        "base_branch: "@ + worktree.base_branch@,
        "branch: "@ + worktree.branch@,
        "worktree: "@ + worktree.worktree@,
    ]);
}

// ---------------------------------------------------------------------------
// Rows
// ---------------------------------------------------------------------------
/// The rows of the picker show the sessions that match, in their order, and the row that creates a
/// session; the selected one is marked.
pub proof fn rows_show_their_sessions(p: PickerView, width: int, now: Timestamp, n: int, i: int)
    requires
        0 <= i < n <= p.rows().len(),
    ensures
        row_lines(p, width, now, n).len() == n,
        ({
            let found = matching(p.sessions, p.query);
            &&& i < found.len() ==> row_lines(p, width, now, n)[i] == picker_session_row(
                first_named(p.sessions, found[i].session_id@)->0,
                width,
                i == p.selected,
                now,
            ) && first_named(p.sessions, found[i].session_id@)->0.session_id@
                == found[i].session_id@
            &&& i == found.len() ==> row_lines(p, width, now, n)[i] == create_row(
                crate::picker_render::create_label(p.query),
                width,
                i == p.selected,
            )
        }),
    decreases n,
{
    reveal_with_fuel(row_lines, 2);
    let found = matching(p.sessions, p.query);
    let last = n - 1;
    if last < found.len() {
        let session = found[last];
        assert(found.contains(session));
        matching_is_exact(p.sessions, p.query, session);
        let k = choose|k: int| 0 <= k < p.sessions.len() && p.sessions[k] == session;
        assert(p.sessions[k].session_id@ == session.session_id@);
        found_session_is_named(p.sessions, session.session_id@);
    }
    if i < last {
        rows_show_their_sessions(p, width, now, n - 1, i);
    } else if last > 0 {
        rows_show_their_sessions(p, width, now, n - 1, 0);
    }
}

/// The queue of the coordinator shows each session in two lines: its title, and what is said of it.
pub proof fn queue_shows_its_sessions(sessions: Seq<SessionRecord>, n: int, i: int)
    requires
        0 <= i < n <= sessions.len(),
    ensures
        queue_lines(sessions, n).len() == 2 * n,
        queue_lines(sessions, n)[2 * i][2].text == sessions[i].title@,
        queue_lines(sessions, n)[2 * i][0].text == icon(sessions[i]),
        queue_lines(sessions, n)[2 * i + 1][0].text == status_text(sessions[i]),
    decreases n,
{
    reveal_with_fuel(queue_lines, 2);
    if n > 1 {
        queue_shows_its_sessions(
            sessions,
            n - 1,
            if i < n - 1 {
                i
            } else {
                0
            },
        );
    }
}

/// A point part of the way lies no further from it than half a cell.
pub proof fn points_are_the_nearest(start: int, end: int, percent: int)
    ensures
        -50 < 100 * (point_at(start, end, percent) - start) - (end - start) * percent <= 50,
{
}

/// The palette of the full-screen view shows below what was typed the first of the commands that
/// match, by their titles, and lets the selected one stand out.
pub proof fn palette_shows_its_commands(view: RuntimeView, i: int)
    ensures
        ({
            let shown = crate::tui::view::palette_lines(view);
            let items = crate::tui::palette::commands_matching(
                crate::tui::palette::palette(),
                view.palette_query,
            );
            &&& shown[0][1].text == view.palette_query
            &&& shown.len() == 2 + (if items.len() < 9 {
                items.len()
            } else {
                9
            })
            &&& 0 <= i < items.len() && i < 9 ==> shown[2 + i][2].text == items[i].title && (
            shown[2 + i][2].style.bold <==> i == view.palette_selected)
        }),
{
}

/// Above its terminal, the session in focus is told by its title, its repository, its worktree and
/// its state.
pub proof fn worker_is_told_above_its_terminal(session: SessionRecord)
    ensures
        ({
            let shown = crate::tui::view::worker_summary(session);
            &&& shown[0][0].text == icon(session)
            &&& shown[0][2].text == session.title@
            &&& shown[1][1].text == session.repo_path@
            &&& shown[2][1].text == session.worktree@
            &&& shown[3][1].text == status_text(session)
            &&& shown[3][4].text == session.git_sync@
            &&& crate::tui::view::worker_title(session) == session.repo_name@ + "  "@
                + session.branch@
        }),
{
}

proof fn middle_is_part(before: Seq<char>, part: Seq<char>, behind: Seq<char>)
    ensures
        is_part(part, before + part + behind),
{
    let all = before + part + behind;
    let at = before.len() as int;
    assert(all.subrange(at, at + part.len()) =~= part);
    assert(is_part_at(part, all, at));
}

proof fn parts_are_kept(part: Seq<char>, text: Seq<char>, more: Seq<char>)
    requires
        is_part(part, text),
    ensures
        is_part(part, text + more),
{
    let i = choose|i: int| #[trigger] is_part_at(part, text, i);
    assert((text + more).subrange(i, i + part.len()) =~= text.subrange(i, i + part.len()));
    assert(is_part_at(part, text + more, i));
}

proof fn starts_are_kept(start: Seq<char>, text: Seq<char>, more: Seq<char>)
    requires
        starts(text, start),
    ensures
        starts(text + more, start),
{
    assert((text + more).take(start.len() as int) =~= text.take(start.len() as int));
}

/// The row of a session shows its age, name, repository and branch in their columns.
pub proof fn columns_show_their_session(session: SessionRecord, width: int, now: Timestamp)
    ensures
        ({
            let layout = crate::session_list::picker_layout(width);
            let body = crate::picker_style::session_body(session, width, now);
            &&& is_part(cell(session.session_id@, layout.session as int), body)
            &&& is_part(cell(session.repo_name@, layout.repo as int), body)
            &&& is_part(cell(session.branch@, layout.branch as int), body)
        }),
{
    let layout = crate::session_list::picker_layout(width);
    let age = cell(crate::session_display::elapsed_label(session, now), layout.age as int);
    let id = cell(session.session_id@, layout.session as int);
    let repo = cell(session.repo_name@, layout.repo as int);
    let branch = cell(session.branch@, layout.branch as int);
    let a = age + " "@;
    let b = a + id + " "@;
    let c = b + repo + " "@;
    middle_is_part(a, id, " "@);
    parts_are_kept(id, b, repo);
    parts_are_kept(id, b + repo, " "@);
    parts_are_kept(id, c, branch);
    middle_is_part(b, repo, " "@);
    parts_are_kept(repo, c, branch);
    middle_is_part(c, branch, Seq::empty());
    assert(c + branch + Seq::<char>::empty() =~= c + branch);
}

/// A row of the picker starts with a mark where it is selected, and without it otherwise; behind the
/// signs stand the columns of the session, cut to the width.
pub proof fn picker_rows_show_their_session(
    session: SessionRecord,
    width: int,
    selected: bool,
    now: Timestamp,
)
    ensures
        ({
            let row = picker_session_row(session, width, selected, now);
            let body = crate::picker_style::session_body(session, width, now);
            &&& selected ==> starts(row, HOST_PICKER_SELECTED_STYLE@ + "› "@)
            &&& !selected ==> starts(row, ""@ + "  "@)
            &&& is_part(first_chars(body, crate::session_list::most(usable(width) - 5, 0)), row)
        }),
{
    let body = crate::picker_style::session_body(session, width, now);
    let shown = first_chars(body, crate::session_list::most(usable(width) - 5, 0));
    let style = crate::picker_style::row_style(selected);
    let head = style + crate::picker_style::leader(selected);
    let prefix = crate::session_list::state_prefix(display_state(session));
    let sign = crate::session_list::state_icon(display_state(session));
    let mark = crate::picker_style::pending_mark(session);
    assert(head.take(head.len() as int) =~= head);
    let t1 = head + ANSI_RESET@;
    let t2 = t1 + prefix;
    let t3 = t2 + sign;
    let t4 = t3 + ANSI_RESET@;
    let t5 = t4 + mark;
    let t6 = t5 + " "@;
    let t7 = t6 + style;
    let t8 = t7 + shown;
    starts_are_kept(head, head, ANSI_RESET@);
    starts_are_kept(head, t1, prefix);
    starts_are_kept(head, t2, sign);
    starts_are_kept(head, t3, ANSI_RESET@);
    starts_are_kept(head, t4, mark);
    starts_are_kept(head, t5, " "@);
    starts_are_kept(head, t6, style);
    starts_are_kept(head, t7, shown);
    starts_are_kept(head, t8, ANSI_RESET@);
    middle_is_part(t7, shown, ANSI_RESET@);
}

/// The line of the query shows all of what was typed where there is room for it, and the cursor
/// behind it while it is to be seen.
pub proof fn queries_are_shown(query: Seq<char>, width: int, visible: bool)
    requires
        query.len() > 0,
        query.len() + 5 <= width,
    ensures
        is_part(query, query_line(query, width, visible)),
        visible ==> is_part(HOST_PICKER_CURSOR@, query_line(query, width, visible)),
{
    let line = query_line(query, width, visible);
    let head = HOST_PICKER_QUERY_BG@ + crate::session_list::HOST_PICKER_TEXT_FG@ + "› "@
        + crate::session_list::HOST_PICKER_TEXT_FG@;
    let at = head.len() as int;
    assert(line.subrange(at, at + query.len()) =~= query);
    assert(is_part_at(query, line, at));
    if visible {
        let next = at + query.len() + crate::session_list::HOST_PICKER_TEXT_FG@.len();
        assert(line.subrange(next, next + HOST_PICKER_CURSOR@.len()) =~= HOST_PICKER_CURSOR@);
        assert(is_part_at(HOST_PICKER_CURSOR@, line, next));
    }
}

/// A row of the list shows the sign and the state of a session, and its age, name, repository and
/// branch in their columns.
pub proof fn list_rows_show_their_session(
    session: SessionRecord,
    layout: SessionListLayout,
    now: Timestamp,
)
    ensures
        is_part(
            crate::session_list::state_label(display_state(session)),
            session_row(session, layout, now),
        ),
        is_part(cell(session.session_id@, layout.session as int), session_row(session, layout, now)),
        is_part(cell(session.branch@, layout.branch as int), session_row(session, layout, now)),
        is_part(cell(session.repo_name@, layout.repo as int), session_row(session, layout, now)),
{
    let row = session_row(session, layout, now);
    let state = display_state(session);
    let label = crate::session_list::state_label(state);
    let lead = "  "@ + (crate::session_list::state_prefix(state) + crate::session_list::state_icon(
        state,
    ) + ANSI_RESET@ + " "@);
    let status = crate::session_list::status_cell(session, layout.status as int);
    assert(row.subrange(lead.len() as int, (lead.len() + label.len()) as int) =~= label);
    assert(is_part_at(label, row, lead.len() as int));
    let a = "  "@ + status + "  "@ + pending_cell(session, layout.commits as int) + "  "@ + cell(
        crate::session_display::elapsed_label(session, now),
        layout.age as int,
    ) + "  "@;
    let id = cell(session.session_id@, layout.session as int);
    let b = a + id + "  "@;
    let repo = cell(session.repo_name@, layout.repo as int);
    let c = b + repo + "  "@;
    let branch = cell(session.branch@, layout.branch as int);
    assert(row.subrange(a.len() as int, (a.len() + id.len()) as int) =~= id);
    assert(is_part_at(id, row, a.len() as int));
    assert(row.subrange(b.len() as int, (b.len() + repo.len()) as int) =~= repo);
    assert(is_part_at(repo, row, b.len() as int));
    assert(row.subrange(c.len() as int, (c.len() + branch.len()) as int) =~= branch);
    assert(is_part_at(branch, row, c.len() as int));
}

/// The list from which a session is gone to shows what was typed and, in two lines each, the first ten
/// sessions that match; the marked one has a sign. Where none matches, it says so.
pub proof fn list_of_choices_is_shown(
    query: Seq<char>,
    found: Seq<(int, SessionRecord)>,
    selected: int,
    i: int,
)
    ensures
        ({
            let shown = switcher_lines(query, found, selected);
            let count: int = if found.len() < 10 {
                found.len() as int
            } else {
                10
            };
            &&& shown[1] == "Query: "@ + query
            &&& found.len() == 0 ==> shown.len() == 5 && shown[4] == "No matching running sessions."@
            &&& found.len() > 0 ==> shown.len() == 4 + 2 * count
            &&& 0 <= i < count ==> shown[4 + 2 * i] == (if i == selected {
                ">"@
            } else {
                " "@
            }) + " "@ + found[i].1.session_id@ + "  "@ + found[i].1.agent@ + "  "@ + status_name(
                found[i].1.status,
            ) + "  "@ + found[i].1.branch@ && shown[5 + 2 * i] == "  "@ + found[i].1.task@
        }),
{
    let count: int = if found.len() < 10 {
        found.len() as int
    } else {
        10
    };
    if found.len() > 0 {
        choices_are_shown(
            found,
            selected,
            count,
            if 0 <= i < count {
                i
            } else {
                0
            },
        );
    }
}

proof fn choices_are_shown(found: Seq<(int, SessionRecord)>, selected: int, n: int, i: int)
    requires
        0 <= i < n <= found.len(),
    ensures
        matches_lines(found, selected, n).len() == 2 * n,
        matches_lines(found, selected, n)[2 * i] == match_lines(found[i].1, i == selected)[0],
        matches_lines(found, selected, n)[2 * i + 1] == match_lines(found[i].1, i == selected)[1],
    decreases n,
{
    reveal_with_fuel(matches_lines, 2);
    if n > 1 {
        choices_are_shown(
            found,
            selected,
            n - 1,
            if i < n - 1 {
                i
            } else {
                0
            },
        );
    }
}

/// A diff in colour is its lines in their order, each in its own.
pub proof fn diffs_are_tinted_line_by_line(all: Seq<Seq<char>>, enabled: Seq<bool>, n: int)
    requires
        0 <= n < all.len(),
    ensures
        tinted_lines(all, enabled, 0).len() == 0,
        tinted_lines(all, enabled, n + 1) == tinted_lines(all, enabled, n) + tinted_line(
            all[n],
            enabled[n],
        ),
{
}

/// Of a diff without changes nothing is in colour.
pub proof fn unchanged_lines_stay_plain(text: Seq<char>, diff: Seq<char>)
    requires
        is_tinted(text, diff),
        forall|i: int|
            0 <= i < pieces(diff).len() ==> diff_line_kind(#[trigger] pieces(diff)[i])
                == DiffLineKind::Context,
    ensures
        text == diff,
{
    let all = pieces(diff);
    let n = all.len() as int;
    let enabled = choose|enabled: Seq<bool>|
        enabled.len() == all.len() && text == #[trigger] tinted_lines(all, enabled, n);
    plain_lines(all, enabled, n);
    assert(all.take(n) =~= all);
    pieces_make_the_text(diff);
}

proof fn plain_lines(all: Seq<Seq<char>>, enabled: Seq<bool>, n: int)
    requires
        0 <= n <= all.len(),
        forall|i: int|
            0 <= i < all.len() ==> diff_line_kind(#[trigger] all[i]) == DiffLineKind::Context,
    ensures
        tinted_lines(all, enabled, n) == joined(all.take(n), Seq::empty()),
    decreases n,
{
    if n > 0 {
        plain_lines(all, enabled, n - 1);
        let more = all.take(n);
        assert(more.drop_last() =~= all.take(n - 1));
        assert(diff_line_kind(all[n - 1]) == DiffLineKind::Context);
        assert(joined(more, Seq::empty()) =~= joined(all.take(n - 1), Seq::empty()) + all[n - 1]);
    } else {
        assert(all.take(n) =~= Seq::empty());
    }
}

/// The row that creates a session shows its label where there is room for it, and a mark where it is
/// selected.
pub proof fn create_row_shows_its_label(label: Seq<char>, width: int, selected: bool)
    requires
        label.len() + 6 <= width,
    ensures
        is_part(label, create_row(label, width, selected)),
        selected ==> starts(
            create_row(label, width, selected),
            HOST_PICKER_SELECTED_STYLE@ + "› "@,
        ),
{
    let style = crate::picker_style::row_style(selected);
    let head = style + crate::picker_style::leader(selected);
    let t1 = head + ANSI_RESET@;
    let t2 = t1 + "+ "@;
    let t3 = t2 + " "@;
    let t4 = t3 + style;
    let t5 = t4 + label;
    assert(head.take(head.len() as int) =~= head);
    starts_are_kept(head, head, ANSI_RESET@);
    starts_are_kept(head, t1, "+ "@);
    starts_are_kept(head, t2, " "@);
    starts_are_kept(head, t3, style);
    starts_are_kept(head, t4, label);
    starts_are_kept(head, t5, ANSI_RESET@);
    middle_is_part(t4, label, ANSI_RESET@);
}

/// The list is as wide as the terminal, up to the width that it needs at most, and one column wide at
/// least.
pub proof fn lists_are_as_wide_as_the_terminal(width: int)
    requires
        0 <= width,
    ensures
        1 <= width <= 120 ==> visible_width(width) == width,
        width > 120 ==> visible_width(width) == 120,
        width == 0 ==> visible_width(width) == 1,
{
}

/// The line of a command shows its key, its title behind it, and lets the selected one stand out.
pub proof fn commands_are_shown_with_their_key(key: char, title: Seq<char>, selected: bool)
    ensures
        ({
            let line = command_line(seq![key], title, selected);
            &&& line.len() == 3
            &&& line[0].text == seq![' ', key]
            &&& line[2].text == title
            &&& line[2].style.bold <==> selected
            &&& line[2].style.fg == (if selected {
                Some(Color::Cyan)
            } else {
                None
            })
        }),
{
    assert(command_line(seq![key], title, selected)[0].text =~= seq![' ', key]);
}

} // verus!
