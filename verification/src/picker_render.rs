//! What the session picker shows.
use crate::header::header_text;
use crate::picker::{
    ModeView, PickerMode, PickerRow, PickerView, RowView, SessionAction, SessionPicker,
};
use crate::picker_style::{
    background_row, create_row, diff_line, fit_host_picker_line, fitted, legend_row, menu_line,
    picker_session_row, query_line, render_host_picker_create_row, render_host_picker_legend_row,
    render_host_picker_session_row, render_host_picker_title_line, render_host_picker_toast_line,
    style_host_picker_background_row, style_host_picker_diff_line, style_host_picker_menu_line,
    style_host_picker_query_line, toast_line,
};
use crate::session::{SessionRecord, SESSION_NAME_RULES};
use crate::session_find::{first_named, session_by_id};
use crate::session_list::{all_valid, pointed_to};
use crate::text::{decimal, decimal_of, lines, lines_of, trim, trimmed, views};
use crate::time::Timestamp;
use vstd::prelude::*;
use vstd::string::*;

verus! {

/// How many rows the picker shows.
pub const PICKER_VISIBLE_ROWS: usize = 8;

/// How many lines of a diff the picker shows.
pub const PICKER_DIFF_LINES: usize = 12;

fn add_line(lines: &mut Vec<String>, line: String)
    ensures
        views(final(lines)@) == views(old(lines)@).push(line@),
{
    lines.push(line);
    assert(views(lines@) =~= views(old(lines)@).push(line@));
}

fn add_lines(lines: &mut Vec<String>, more: Vec<String>)
    ensures
        views(final(lines)@) == views(old(lines)@) + views(more@),
{
    let mut more = more;
    let ghost given = more@;
    lines.append(&mut more);
    assert(views(lines@) =~= views(old(lines)@) + views(given));
}

fn no_lines() -> (r: Vec<String>)
    ensures
        views(r@) == Seq::<Seq<char>>::empty(),
{
    let r: Vec<String> = Vec::new();
    assert(views(r@) =~= Seq::empty());
    r
}

/// A number and what it stands for.
pub open spec fn numbered(i: int, text: Seq<char>) -> Seq<char> {
    decimal((i + 1) as nat) + ". "@ + text
}

fn numbered_text(i: usize, text: &str) -> (r: String)
    requires
        i < usize::MAX,
    ensures
        r@ == numbered(i as int, text@),
{
    let mut r = decimal_of((i + 1) as u64);
    r.append(". ");
    r.append(text);
    r
}

/// A name and a branch.
pub open spec fn session_heading(session: SessionRecord) -> Seq<char> {
    session.session_id@ + "  "@ + session.branch@
}

fn heading_of(session: &SessionRecord) -> (r: String)
    ensures
        r@ == session_heading(*session),
{
    let mut r = session.session_id.clone();
    r.append("  ");
    r.append(session.branch.as_str());
    r
}

/// The title of the changes of a session.
pub open spec fn diff_title(sessions: Seq<SessionRecord>, session_id: Seq<char>) -> Seq<char> {
    match first_named(sessions, session_id) {
        Some(session) => "Diff: "@ + session_heading(session),
        None => "Diff: "@ + session_id,
    }
}

/// The title of the changes of a session.
pub fn diff_title_of(sessions: &Vec<SessionRecord>, session_id: &str) -> (r: String)
    ensures
        r@ == diff_title(sessions@, session_id@),
{
    let mut r = "Diff: ".to_string();
    match session_by_id(sessions, session_id) {
        Some(session) => r.append(heading_of(session).as_str()),
        None => r.append(session_id),
    }
    r
}

/// The worktree of a session; nothing where there is none.
pub open spec fn worktree_of_named(sessions: Seq<SessionRecord>, session_id: Seq<char>) -> Seq<
    char,
> {
    match first_named(sessions, session_id) {
        Some(session) => session.worktree@,
        None => Seq::empty(),
    }
}

/// The worktree of a session; nothing where there is none.
pub fn worktree_of(sessions: &Vec<SessionRecord>, session_id: &str) -> (r: String)
    ensures
        r@ == worktree_of_named(sessions@, session_id@),
{
    match session_by_id(sessions, session_id) {
        Some(session) => session.worktree.clone(),
        None => String::new(),
    }
}

/// The line of a worktree, if the session is there.
pub open spec fn worktree_lines(p: PickerView, width: int, session_id: Seq<char>) -> Seq<Seq<char>> {
    match first_named(p.sessions, session_id) {
        Some(session) => seq![menu_line(fitted(session.worktree@, width), width, false)],
        None => Seq::empty(),
    }
}

/// The numbered lines of a menu.
pub open spec fn menu_lines(entries: Seq<Seq<char>>, width: int, selected: int) -> Seq<Seq<char>> {
    Seq::new(
        entries.len(),
        |i: int| menu_line(numbered(i, entries[i]), width, i == selected),
    )
}

/// The names of actions.
pub open spec fn action_names(actions: Seq<SessionAction>) -> Seq<Seq<char>> {
    Seq::new(actions.len(), |i: int| actions[i].name())
}

/// What the menu of a session shows.
pub open spec fn action_lines(p: PickerView, width: int, session_id: Seq<char>, selected: int) -> Seq<
    Seq<char>,
> {
    let heading = match first_named(p.sessions, session_id) {
        Some(session) => session_heading(session),
        None => session_id,
    };
    Seq::empty().push(background_row(width)).push(menu_line(fitted(heading, width), width, false))
        + worktree_lines(p, width, session_id) + menu_lines(
        action_names(p.actions(session_id)),
        width,
        selected,
    ) + seq![
        background_row(width),
        fitted("Enter selects. Esc goes back."@, width),
        Seq::empty(),
    ]
}

/// What the menu of agents shows.
pub open spec fn agent_lines(p: PickerView, width: int, selected: int) -> Seq<Seq<char>> {
    let heading = if trimmed(p.query).len() == 0 {
        "Choose coding agent"@
    } else if p.requested_name() is Some {
        "Create: "@ + trimmed(p.query)
    } else {
        "Invalid session name"@
    };
    let help = if p.name_is_refused() {
        "Use lowercase letters, numbers, and hyphens. "@ + SESSION_NAME_RULES@
    } else {
        "Enter selects. Esc goes back."@
    };
    Seq::empty().push(background_row(width)).push(menu_line(fitted(heading, width), width, false))
        + menu_lines(p.agents, width, selected) + seq![
        background_row(width),
        fitted(help, width),
        Seq::empty(),
    ]
}

/// What is asked before a session is removed.
pub open spec fn confirm_lines(p: PickerView, width: int, session_id: Seq<char>, selected: int) -> Seq<
    Seq<char>,
> {
    Seq::empty().push(background_row(width)) + worktree_lines(p, width, session_id) + seq![
        menu_line("Delete "@ + session_id + " and remove its worktree?"@, width, false),
    ] + menu_lines(seq!["yes"@, "no"@], width, selected) + seq![
        background_row(width),
        fitted("Enter selects. Esc returns to actions."@, width),
        Seq::empty(),
    ]
}

/// The first of the lines of a text that are shown, where it was scrolled so far.
pub open spec fn first_shown(count: int, scroll: int) -> int {
    if count == 0 {
        0
    } else if scroll < count - 1 {
        scroll
    } else {
        count - 1
    }
}

/// The lines of a diff that are shown.
pub open spec fn shown_diff_lines(text: Seq<char>, scroll: int, width: int) -> Seq<Seq<char>> {
    let all = lines(text);
    let start = first_shown(all.len() as int, scroll);
    let left = all.len() - start;
    Seq::new(
        if left < PICKER_DIFF_LINES {
            left as nat
        } else {
            PICKER_DIFF_LINES as nat
        },
        |i: int| diff_line(all[start + i], width),
    )
}

/// What is shown of the changes of a session.
pub open spec fn diff_lines(p: PickerView, width: int, session_id: Seq<char>) -> Seq<Seq<char>> {
    let missing = if p.detail_text.len() == 0 {
        seq![fitted("No diff available."@, width)]
    } else {
        Seq::empty()
    };
    Seq::empty().push(background_row(width)).push(
        menu_line(fitted(diff_title(p.sessions, session_id), width), width, false),
    ) + worktree_lines(p, width, session_id) + shown_diff_lines(
        p.detail_text,
        p.detail_scroll,
        width,
    ) + missing + seq![
        background_row(width),
        fitted("Up/Down scroll. Esc goes back."@, width),
        Seq::empty(),
    ]
}

/// What the picker shows above its rows, or in their place.
pub open spec fn header_lines(p: PickerView, width: int, cursor_visible: bool) -> Seq<Seq<char>> {
    match p.mode {
        ModeView::Browse => seq![
            background_row(width),
            query_line(p.query, width, cursor_visible),
            background_row(width),
            Seq::empty(),
        ],
        ModeView::CreateAgentSelect { selected } => agent_lines(p, width, selected),
        ModeView::SessionActions { session_id, selected } => action_lines(
            p,
            width,
            session_id,
            selected,
        ),
        ModeView::DiffView { session_id } => diff_lines(p, width, session_id),
        ModeView::DeleteConfirm { session_id, selected } => confirm_lines(
            p,
            width,
            session_id,
            selected,
        ),
    }
}

/// What the row that creates a session says.
pub open spec fn create_label(query: Seq<char>) -> Seq<char> {
    if trimmed(query).len() == 0 {
        "Create new session"@
    } else {
        "Create new session: "@ + trimmed(query)
    }
}

/// The first rows.
pub open spec fn row_lines(p: PickerView, width: int, now: Timestamp, n: int) -> Seq<Seq<char>>
    decreases n,
{
    if n <= 0 {
        Seq::empty()
    } else {
        let front = row_lines(p, width, now, n - 1);
        let selected = n - 1 == p.selected;
        match p.rows()[n - 1] {
            RowView::Create => front.push(create_row(create_label(p.query), width, selected)),
            RowView::Session(session_id) => match first_named(p.sessions, session_id) {
                Some(session) => front.push(picker_session_row(session, width, selected, now)),
                None => front,
            },
        }
    }
}

/// The sessions of the first rows.
pub open spec fn row_sessions(p: PickerView, n: int) -> Seq<SessionRecord>
    decreases n,
{
    if n <= 0 {
        Seq::empty()
    } else {
        let front = row_sessions(p, n - 1);
        match p.rows()[n - 1] {
            RowView::Create => front,
            RowView::Session(session_id) => match first_named(p.sessions, session_id) {
                Some(session) => front.push(session),
                None => front,
            },
        }
    }
}

/// How many rows are shown.
pub open spec fn shown_rows(p: PickerView) -> int {
    if p.rows().len() < PICKER_VISIBLE_ROWS {
        p.rows().len() as int
    } else {
        PICKER_VISIBLE_ROWS as int
    }
}

/// The rows, and the legend of their signs.
pub open spec fn browse_lines(p: PickerView, width: int, now: Timestamp) -> Seq<Seq<char>> {
    let legend = legend_row(width, row_sessions(p, shown_rows(p)));
    row_lines(p, width, now, shown_rows(p)) + (if legend.len() == 0 {
        Seq::empty()
    } else {
        seq![Seq::empty(), legend]
    })
}

/// What the picker shows.
pub open spec fn picker_lines(p: PickerView, width: int, cursor_visible: bool, now: Timestamp) -> Seq<
    Seq<char>,
> {
    seq![header_text(), Seq::empty()] + header_lines(p, width, cursor_visible) + (if p.mode
        == ModeView::Browse {
        browse_lines(p, width, now)
    } else {
        Seq::empty()
    }) + (match p.toast {
        Some(toast) => seq![Seq::empty(), toast_line(toast.kind, toast.message, width)],
        None => Seq::empty(),
    })
}

fn render_menu(entries: &Vec<String>, width: usize, selected: usize) -> (r: Vec<String>)
    ensures
        views(r@) == menu_lines(views(entries@), width as int, selected as int),
{
    let count: usize = entries.len();
    let mut r: Vec<String> = Vec::new();
    let mut i: usize = 0;
    while i < count
        invariant
            i <= count,
            count == entries@.len(),
            r@.len() == i,
            forall|k: int|
                0 <= k < i ==> (#[trigger] r@[k])@ == menu_line(
                    numbered(k, entries@[k]@),
                    width as int,
                    k == selected,
                ),
        decreases count - i,
    {
        let label = numbered_text(i, entries[i].as_str());
        r.push(style_host_picker_menu_line(label.as_str(), width, i == selected));
        i = i + 1;
    }
    assert(views(r@) =~= menu_lines(views(entries@), width as int, selected as int));
    r
}

fn closing_lines(width: usize, help: &str) -> (r: Vec<String>)
    ensures
        views(r@) == seq![
            background_row(width as int),
            fitted(help@, width as int),
            Seq::empty(),
        ],
{
    let mut r = no_lines();
    add_line(&mut r, style_host_picker_background_row(width));
    add_line(&mut r, fit_host_picker_line(help, width));
    add_line(&mut r, String::new());
    assert(views(r@) =~= seq![
        background_row(width as int),
        fitted(help@, width as int),
        Seq::empty(),
    ]);
    r
}

impl SessionPicker {
    fn render_worktree(&self, width: usize, session_id: &str) -> (r: Vec<String>)
        ensures
            views(r@) == worktree_lines(self@, width as int, session_id@),
    {
        let mut r = no_lines();
        match self.session_by_id(session_id) {
            Some(session) => {
                let worktree = fit_host_picker_line(session.worktree.as_str(), width);
                add_line(&mut r, style_host_picker_menu_line(worktree.as_str(), width, false));
            },
            None => {},
        }
        assert(views(r@) =~= worktree_lines(self@, width as int, session_id@));
        r
    }

    /// What the menu of a session shows.
    pub fn render_session_action_lines(&self, width: usize, session_id: &str, selected: usize) -> (r:
        Vec<String>)
        ensures
            views(r@) == action_lines(self@, width as int, session_id@, selected as int),
    {
        let mut lines = no_lines();
        add_line(&mut lines, style_host_picker_background_row(width));
        let heading = match self.session_by_id(session_id) {
            Some(session) => heading_of(session),
            None => session_id.to_string(),
        };
        add_line(
            &mut lines,
            style_host_picker_menu_line(
                fit_host_picker_line(heading.as_str(), width).as_str(),
                width,
                false,
            ),
        );
        add_lines(&mut lines, self.render_worktree(width, session_id));
        let actions = self.action_items(session_id);
        let mut names: Vec<String> = Vec::new();
        let mut i: usize = 0;
        while i < actions.len()
            invariant
                i <= actions.len(),
                names@.len() == i,
                forall|k: int| 0 <= k < i ==> (#[trigger] names@[k])@ == actions@[k].name(),
            decreases actions.len() - i,
        {
            names.push(actions[i].label().to_string());
            i = i + 1;
        }
        assert(views(names@) =~= action_names(actions@));
        add_lines(&mut lines, render_menu(&names, width, selected));
        add_lines(&mut lines, closing_lines(width, "Enter selects. Esc goes back."));
        lines
    }

    /// What the menu of agents shows.
    pub fn render_create_agent_lines(&self, width: usize, selected: usize) -> (r: Vec<String>)
        ensures
            views(r@) == agent_lines(self@, width as int, selected as int),
    {
        let name = trim(self.composer.query.as_str());
        let requested = self.composer_requested_name();
        let mut lines = no_lines();
        add_line(&mut lines, style_host_picker_background_row(width));
        let heading = if name.as_str().is_empty() {
            "Choose coding agent".to_string()
        } else if requested.is_some() {
            let mut heading = "Create: ".to_string();
            heading.append(name.as_str());
            heading
        } else {
            "Invalid session name".to_string()
        };
        add_line(
            &mut lines,
            style_host_picker_menu_line(
                fit_host_picker_line(heading.as_str(), width).as_str(),
                width,
                false,
            ),
        );
        add_lines(&mut lines, render_menu(&self.create_agents, width, selected));
        let help = if name.as_str().is_empty() || requested.is_some() {
            "Enter selects. Esc goes back.".to_string()
        } else {
            let mut help = "Use lowercase letters, numbers, and hyphens. ".to_string();
            help.append(SESSION_NAME_RULES);
            help
        };
        add_lines(&mut lines, closing_lines(width, help.as_str()));
        lines
    }

    /// What is asked before a session is removed.
    pub fn render_delete_confirm_lines(&self, width: usize, session_id: &str, selected: usize) -> (r:
        Vec<String>)
        ensures
            views(r@) == confirm_lines(self@, width as int, session_id@, selected as int),
    {
        let mut lines = no_lines();
        add_line(&mut lines, style_host_picker_background_row(width));
        add_lines(&mut lines, self.render_worktree(width, session_id));
        let mut question = "Delete ".to_string();
        question.append(session_id);
        question.append(" and remove its worktree?");
        let ghost before = views(lines@);
        add_line(&mut lines, style_host_picker_menu_line(question.as_str(), width, false));
        assert(views(lines@) =~= before + seq![menu_line(question@, width as int, false)]);
        let names: Vec<String> = vec!["yes".to_string(), "no".to_string()];
        assert(views(names@) =~= seq!["yes"@, "no"@]);
        add_lines(&mut lines, render_menu(&names, width, selected));
        add_lines(&mut lines, closing_lines(width, "Enter selects. Esc returns to actions."));
        lines
    }

    /// What is shown of the changes of a session.
    pub fn render_diff_lines(&self, width: usize, session_id: &str) -> (r: Vec<String>)
        ensures
            views(r@) == diff_lines(self@, width as int, session_id@),
    {
        let mut lines = no_lines();
        add_line(&mut lines, style_host_picker_background_row(width));
        let title = diff_title_of(&self.sessions, session_id);
        add_line(
            &mut lines,
            style_host_picker_menu_line(
                fit_host_picker_line(title.as_str(), width).as_str(),
                width,
                false,
            ),
        );
        add_lines(&mut lines, self.render_worktree(width, session_id));
        add_lines(&mut lines, self.render_shown_diff(width));
        if self.detail_text.as_str().is_empty() {
            let ghost before = views(lines@);
            let missing = fit_host_picker_line("No diff available.", width);
            add_line(&mut lines, missing);
            assert(views(lines@) =~= before + seq![missing@]);
        } else {
            assert(views(lines@) + Seq::<Seq<char>>::empty() =~= views(lines@));
        }
        add_lines(&mut lines, closing_lines(width, "Up/Down scroll. Esc goes back."));
        lines
    }

    fn render_shown_diff(&self, width: usize) -> (r: Vec<String>)
        ensures
            views(r@) == shown_diff_lines(self@.detail_text, self@.detail_scroll, width as int),
    {
        let all = lines_of(self.detail_text.as_str());
        let ghost due = lines(self@.detail_text);
        assert(due.len() == all@.len());
        let count: usize = all.len();
        let start: usize = if count == 0 {
            0
        } else if self.detail_scroll < count - 1 {
            self.detail_scroll
        } else {
            count - 1
        };
        let end: usize = if count - start < PICKER_DIFF_LINES {
            count
        } else {
            start + PICKER_DIFF_LINES
        };
        let mut r: Vec<String> = Vec::new();
        let mut i: usize = start;
        while i < end
            invariant
                start <= i <= end <= count,
                count == all@.len(),
                views(all@) == due,
                r@.len() == i - start,
                forall|k: int|
                    0 <= k < r@.len() ==> (#[trigger] r@[k])@ == diff_line(
                        due[start + k],
                        width as int,
                    ),
            decreases end - i,
        {
            assert(views(all@)[i as int] == due[i as int]);
            r.push(style_host_picker_diff_line(all[i].as_str(), width));
            i = i + 1;
        }
        assert(views(r@) =~= shown_diff_lines(
            self@.detail_text,
            self@.detail_scroll,
            width as int,
        ));
        r
    }

    /// What the picker shows above its rows, or in their place.
    pub fn render_header_lines(&self, width: usize, cursor_visible: bool) -> (r: Vec<String>)
        ensures
            views(r@) == header_lines(self@, width as int, cursor_visible),
    {
        match &self.mode {
            PickerMode::Browse => {
                let mut lines = no_lines();
                add_line(&mut lines, style_host_picker_background_row(width));
                add_line(
                    &mut lines,
                    style_host_picker_query_line(
                        self.composer.query.as_str(),
                        width,
                        cursor_visible,
                    ),
                );
                add_line(&mut lines, style_host_picker_background_row(width));
                add_line(&mut lines, String::new());
                assert(views(lines@) =~= header_lines(self@, width as int, cursor_visible));
                lines
            },
            PickerMode::CreateAgentSelect { selected } => self.render_create_agent_lines(
                width,
                *selected,
            ),
            PickerMode::SessionActions {
                session_id,
                selected,
            } => self.render_session_action_lines(width, session_id.as_str(), *selected),
            PickerMode::DiffView { session_id } => self.render_diff_lines(
                width,
                session_id.as_str(),
            ),
            PickerMode::DeleteConfirm {
                session_id,
                selected,
            } => self.render_delete_confirm_lines(width, session_id.as_str(), *selected),
        }
    }

    fn render_browse_lines(&self, width: usize, now: Timestamp) -> (r: Vec<String>)
        requires
            all_valid(self@.sessions),
            now.valid(),
        ensures
            views(r@) == browse_lines(self@, width as int, now),
    {
        let rows = self.picker_rows();
        let ghost due = self@.rows();
        assert(due.len() == rows@.len());
        let end: usize = if rows.len() < PICKER_VISIBLE_ROWS {
            rows.len()
        } else {
            PICKER_VISIBLE_ROWS
        };
        let mut lines = no_lines();
        let mut visible: Vec<&SessionRecord> = Vec::new();
        let mut i: usize = 0;
        assert(pointed_to(visible@) =~= Seq::empty());
        while i < end
            invariant
                i <= end <= rows@.len(),
                end == shown_rows(self@),
                all_valid(self@.sessions),
                now.valid(),
                due == self@.rows(),
                crate::picker::row_views(rows@) == due,
                views(lines@) == row_lines(self@, width as int, now, i as int),
                pointed_to(visible@) == row_sessions(self@, i as int),
            decreases end - i,
        {
            let selected = i == self.composer.selected;
            assert(crate::picker::row_views(rows@)[i as int] == due[i as int]);
            match &rows[i] {
                PickerRow::Create => {
                    let name = trim(self.composer.query.as_str());
                    let label = if name.as_str().is_empty() {
                        "Create new session".to_string()
                    } else {
                        let mut label = "Create new session: ".to_string();
                        label.append(name.as_str());
                        label
                    };
                    add_line(
                        &mut lines,
                        render_host_picker_create_row(label.as_str(), width, selected),
                    );
                },
                PickerRow::Session(session_id) => {
                    match self.session_by_id(session_id.as_str()) {
                        Some(session) => {
                            add_line(
                                &mut lines,
                                render_host_picker_session_row(session, width, selected, now),
                            );
                            let ghost before = visible@;
                            visible.push(session);
                            assert(pointed_to(visible@) =~= pointed_to(before).push(*session));
                        },
                        None => {},
                    }
                },
            }
            i = i + 1;
        }
        let legend = render_host_picker_legend_row(width, &visible);
        if !legend.as_str().is_empty() {
            let ghost before = views(lines@);
            add_line(&mut lines, String::new());
            add_line(&mut lines, legend);
            assert(views(lines@) =~= before + seq![Seq::empty(), legend@]);
        } else {
            assert(views(lines@) + Seq::<Seq<char>>::empty() =~= views(lines@));
        }
        lines
    }

    /// What the picker shows.
    pub fn render_lines(&self, width: usize, cursor_visible: bool, now: Timestamp) -> (r: Vec<
        String,
    >)
        requires
            all_valid(self@.sessions),
            now.valid(),
        ensures
            views(r@) == picker_lines(self@, width as int, cursor_visible, now),
    {
        let mut lines = no_lines();
        add_line(&mut lines, render_host_picker_title_line(width));
        add_line(&mut lines, String::new());
        assert(views(lines@) =~= seq![header_text(), Seq::empty()]);
        add_lines(&mut lines, self.render_header_lines(width, cursor_visible));
        match self.mode {
            PickerMode::Browse => {
                add_lines(&mut lines, self.render_browse_lines(width, now));
            },
            _ => {
                assert(views(lines@) + Seq::<Seq<char>>::empty() =~= views(lines@));
            },
        }
        match &self.toast {
            Some(toast) => {
                let ghost before = views(lines@);
                add_line(&mut lines, String::new());
                let line = render_host_picker_toast_line(toast, width);
                add_line(&mut lines, line);
                assert(views(lines@) =~= before + seq![Seq::empty(), line@]);
            },
            None => {
                assert(views(lines@) + Seq::<Seq<char>>::empty() =~= views(lines@));
            },
        }
        lines
    }

    /// The title of the changes that are shown, and the worktree that they are in.
    pub fn diff_view_metadata(&self) -> (r: (String, String))
        ensures
            r.0@ == (match self@.mode {
                ModeView::DiffView { session_id } => diff_title(self@.sessions, session_id),
                _ => "Diff"@,
            }),
            r.1@ == (match self@.mode {
                ModeView::DiffView { session_id } => worktree_of_named(self@.sessions, session_id),
                _ => Seq::empty(),
            }),
    {
        match &self.mode {
            PickerMode::DiffView { session_id } => (
                diff_title_of(&self.sessions, session_id.as_str()),
                worktree_of(&self.sessions, session_id.as_str()),
            ),
            _ => ("Diff".to_string(), String::new()),
        }
    }
}

} // verus!
