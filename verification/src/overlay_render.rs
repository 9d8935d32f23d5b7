//! What the overlay shows, and how a diff fills the screen.
use crate::overlay::{
    filtered_palette_items, item_views, AttachOverlay, OverlayMode, OverlayView, PaletteItemView,
};
use crate::picker_render::{diff_title, diff_title_of, worktree_of, worktree_of_named};
use crate::picker_style::{classify_diff_line, diff_line_kind, DiffLineKind};
use crate::session::SessionRecord;
use crate::session_list::{
    display_state, icon_style, pending_changes_marker, pending_changes_marker_style,
    pending_marker, pending_marker_style, pointed_to, session_icon, session_icon_style, state_icon,
};
use crate::style::{
    bold, colored, line_views, raw, styled, unstyled, Color, Line, Span, SpanView, Style,
};
use crate::text::{blanks, blanks_of, char_count, lines, lines_of, opt_view, views};
use vstd::prelude::*;
use vstd::string::*;

verus! {

/// What is said below a diff that fills the screen.
pub const DIFF_VIEW_HELP: &'static str = "Up/Down/PageUp/PageDown scroll. Esc goes back.";

/// What is said where a session is created.
pub const NEW_SESSION_HELP: &'static str =
    "Blank auto-generates. Use lowercase letters, numbers, and hyphens.";

/// What is asked before the session is stopped.
pub const STOP_CONFIRM_TEXT: &'static str =
    "Press Enter to stop the current session, or Esc to cancel.";

/// What the overlay shows.
#[derive(Debug, PartialEq, Eq)]
#[allow(inconsistent_fields)]
pub enum OverlayScreen {
    /// A diff that fills the screen.
    Diff { title: String, subtitle: String, body: Vec<Line>, scroll: u16 },
    /// What was typed, and the commands or sessions that match it.
    /// There are so many rows for a notice below them.
    List {
        title: &'static str,
        prompt: Line,
        lines: Vec<Line>,
        notice_rows: u16,
        toast: Option<String>,
    },
    /// What was typed for a new session.
    Form { title: &'static str, name: Line, agent: Line, help: &'static str, toast: Option<String> },
    /// A text.
    Text { title: &'static str, text: String, scroll: u16 },
}

/// The model of what the overlay shows.
pub enum ScreenView {
    Diff { title: Seq<char>, subtitle: Seq<char>, body: Seq<Seq<SpanView>>, scroll: int },
    List {
        title: Seq<char>,
        prompt: Seq<SpanView>,
        lines: Seq<Seq<SpanView>>,
        notice_rows: int,
        toast: Option<Seq<char>>,
    },
    Form {
        title: Seq<char>,
        name: Seq<SpanView>,
        agent: Seq<SpanView>,
        help: Seq<char>,
        toast: Option<Seq<char>>,
    },
    Text { title: Seq<char>, text: Seq<char>, scroll: int },
}

impl View for OverlayScreen {
    type V = ScreenView;

    open spec fn view(&self) -> ScreenView {
        match *self {
            OverlayScreen::Diff { title, subtitle, body, scroll } => ScreenView::Diff {
                title: title@,
                subtitle: subtitle@,
                body: line_views(body@),
                scroll: scroll as int,
            },
            OverlayScreen::List { title, prompt, lines, notice_rows, toast } => ScreenView::List {
                title: title@,
                prompt: prompt@,
                lines: line_views(lines@),
                notice_rows: notice_rows as int,
                toast: opt_view(toast),
            },
            OverlayScreen::Form { title, name, agent, help, toast } => ScreenView::Form {
                title: title@,
                name: name@,
                agent: agent@,
                help: help@,
                toast: opt_view(toast),
            },
            OverlayScreen::Text { title, text, scroll } => ScreenView::Text {
                title: title@,
                text: text@,
                scroll: scroll as int,
            },
        }
    }
}

/// The style of what is less important.
pub open spec fn subtle() -> Style {
    colored(Color::DarkGray)
}

/// The style of what is less important.
pub fn subtle_style() -> (r: Style)
    ensures
        r == subtle(),
{
    Style::color(Color::DarkGray)
}

/// The style of an entry: the selected one stands out.
pub open spec fn entry_style(selected: bool) -> Style {
    if selected {
        bold(colored(Color::Cyan))
    } else {
        unstyled()
    }
}

/// The style of an entry.
pub fn style_of_entry(selected: bool) -> (r: Style)
    ensures
        r == entry_style(selected),
{
    if selected {
        Style::color(Color::Cyan).in_bold()
    } else {
        Style::plain()
    }
}

/// The style of a line of a diff.
pub open spec fn diff_style(line: Seq<char>) -> Style {
    match diff_line_kind(line) {
        DiffLineKind::Header => bold(colored(Color::Rgb(153, 214, 255))),
        DiffLineKind::Hunk => bold(colored(Color::Rgb(242, 201, 76))),
        DiffLineKind::Added => colored(Color::Rgb(111, 207, 151)),
        DiffLineKind::Removed => colored(Color::Rgb(255, 107, 107)),
        DiffLineKind::Context => unstyled(),
    }
}

/// The style of a line of a diff.
pub fn diff_line_style(line: &str) -> (r: Style)
    ensures
        r == diff_style(line@),
{
    match classify_diff_line(line) {
        DiffLineKind::Header => Style::color(Color::Rgb(153, 214, 255)).in_bold(),
        DiffLineKind::Hunk => Style::color(Color::Rgb(242, 201, 76)).in_bold(),
        DiffLineKind::Added => Style::color(Color::Rgb(111, 207, 151)),
        DiffLineKind::Removed => Style::color(Color::Rgb(255, 107, 107)),
        DiffLineKind::Context => Style::plain(),
    }
}

/// A line of a diff.
pub fn diff_text_line(line: &str) -> (r: Line)
    ensures
        r@ == seq![styled(line@, diff_style(line@))],
{
    Line::styled(line, diff_line_style(line))
}

/// The lines of a diff that fills the screen.
pub open spec fn diff_body(text: Seq<char>) -> Seq<Seq<SpanView>> {
    if text.len() == 0 {
        seq![seq![raw("No diff available."@)]]
    } else {
        Seq::new(lines(text).len(), |i: int| seq![styled(lines(text)[i], diff_style(lines(text)[i]))])
    }
}

/// The lines of a diff that fills the screen.
pub fn fullscreen_diff_body(detail_text: &str) -> (r: Vec<Line>)
    ensures
        line_views(r@) == diff_body(detail_text@),
{
    if detail_text.is_empty() {
        let r = vec![Line::raw("No diff available.")];
        assert(line_views(r@) =~= diff_body(detail_text@));
        return r;
    }
    let all = lines_of(detail_text);
    let ghost due = lines(detail_text@);
    let mut r: Vec<Line> = Vec::new();
    let mut i: usize = 0;
    while i < all.len()
        invariant
            i <= all.len(),
            views(all@) == due,
            r@.len() == i,
            forall|k: int|
                0 <= k < i ==> (#[trigger] r@[k])@ == seq![styled(due[k], diff_style(due[k]))],
        decreases all.len() - i,
    {
        assert(views(all@)[i as int] == due[i as int]);
        r.push(diff_text_line(all[i].as_str()));
        i = i + 1;
    }
    assert(line_views(r@) =~= diff_body(detail_text@));
    r
}

/// A text moved to the right within a width.
pub open spec fn right_aligned(text: Seq<char>, width: int) -> Seq<char> {
    blanks(width - text.len()) + text
}

/// A text moved to the right within a width.
pub fn align_right(text: &str, width: usize) -> (r: String)
    ensures
        r@ == right_aligned(text@, width as int),
{
    let count: usize = char_count(text);
    let mut r = blanks_of(width.saturating_sub(count));
    assert(r@ =~= blanks(width - text@.len()));
    r.append(text);
    r
}

/// What was typed.
pub open spec fn prompt_line(query: Seq<char>) -> Seq<SpanView> {
    seq![styled("> "@, colored(Color::Cyan)), raw(query)]
}

/// What was typed.
pub fn prompt_of(query: &str) -> (r: Line)
    ensures
        r@ == prompt_line(query@),
{
    let r = Line::new(vec![Span::styled("> ", Style::color(Color::Cyan)), Span::raw(query)]);
    assert(r@ =~= prompt_line(query@));
    r
}

/// The line of a command.
pub open spec fn command_line(key_hint: Seq<char>, title: Seq<char>, selected: bool) -> Seq<
    SpanView,
> {
    seq![
        styled(right_aligned(key_hint, 2), subtle()),
        raw("  "@),
        styled(title, entry_style(selected)),
    ]
}

/// The line of a command.
pub fn command_line_of(key_hint: &str, title: &str, selected: bool) -> (r: Line)
    ensures
        r@ == command_line(key_hint@, title@, selected),
{
    let r = Line::new(
        vec![
            Span::styled(align_right(key_hint, 2).as_str(), subtle_style()),
            Span::raw("  "),
            Span::styled(title, style_of_entry(selected)),
        ],
    );
    assert(r@ =~= command_line(key_hint@, title@, selected));
    r
}

/// The lines of commands.
pub open spec fn palette_lines(items: Seq<PaletteItemView>, selected: int) -> Seq<Seq<SpanView>> {
    Seq::new(
        items.len(),
        |i: int| command_line(items[i].key_hint, items[i].title, i == selected),
    )
}

/// The line of a session in the switcher.
pub open spec fn switcher_line(session: SessionRecord, selected: bool) -> Seq<SpanView> {
    seq![
        styled(state_icon(display_state(session)), icon_style(session)),
        styled(pending_marker(session), pending_marker_style(session)),
        raw("  "@),
        styled(session.session_id@, entry_style(selected)),
        raw("  "@),
        styled(session.repo_name@, subtle()),
        raw("  "@),
        styled(session.branch@, subtle()),
    ]
}

fn switcher_line_of(session: &SessionRecord, selected: bool) -> (r: Line)
    ensures
        r@ == switcher_line(*session, selected),
{
    let r = Line::new(
        vec![
            Span::styled(session_icon(session), session_icon_style(session)),
            Span::styled(pending_changes_marker(session), pending_changes_marker_style(session)),
            Span::raw("  "),
            Span::styled(session.session_id.as_str(), style_of_entry(selected)),
            Span::raw("  "),
            Span::styled(session.repo_name.as_str(), subtle_style()),
            Span::raw("  "),
            Span::styled(session.branch.as_str(), subtle_style()),
        ],
    );
    assert(r@ =~= switcher_line(*session, selected));
    r
}

/// The lines of the switcher.
pub open spec fn switcher_lines(found: Seq<SessionRecord>, selected: int) -> Seq<Seq<SpanView>> {
    Seq::new(found.len(), |i: int| switcher_line(found[i], i == selected))
}

/// A field of the form for a new session: the one that is being typed stands out.
pub open spec fn form_line(label: Seq<char>, value: Seq<char>, active: bool) -> Seq<SpanView> {
    seq![
        styled(label, subtle()),
        styled(
            value,
            if active {
                colored(Color::Cyan)
            } else {
                unstyled()
            },
        ),
    ]
}

fn form_line_of(label: &str, value: &str, active: bool) -> (r: Line)
    ensures
        r@ == form_line(label@, value@, active),
{
    let style = if active {
        Style::color(Color::Cyan)
    } else {
        Style::plain()
    };
    let r = Line::new(vec![Span::styled(label, subtle_style()), Span::styled(value, style)]);
    assert(r@ =~= form_line(label@, value@, active));
    r
}

/// What the overlay shows.
pub open spec fn overlay_screen(o: OverlayView) -> ScreenView {
    match o.mode {
        OverlayMode::Palette => ScreenView::List {
            title: "Overlay"@,
            prompt: prompt_line(o.palette_query),
            lines: palette_lines(o.commands(), o.palette_selected),
            notice_rows: 1,
            toast: o.toast,
        },
        OverlayMode::SessionSwitcher => ScreenView::List {
            title: "Switch Session"@,
            prompt: prompt_line(o.switcher_query),
            lines: switcher_lines(o.found(), o.switcher_selected),
            notice_rows: 0,
            toast: None,
        },
        OverlayMode::NewSession { edit_agent } => ScreenView::Form {
            title: "New Session"@,
            name: form_line("name   "@, o.name_input, !edit_agent),
            agent: form_line("agent  "@, o.agent_input, edit_agent),
            help: NEW_SESSION_HELP@,
            toast: o.toast,
        },
        OverlayMode::GitStatus => ScreenView::Text {
            title: "Session Details"@,
            text: o.detail_text,
            scroll: o.detail_scroll,
        },
        OverlayMode::Diff => ScreenView::Diff {
            title: diff_title(o.sessions, o.session_id),
            subtitle: worktree_of_named(o.sessions, o.session_id),
            body: diff_body(o.detail_text),
            scroll: o.detail_scroll,
        },
        OverlayMode::StopConfirm => ScreenView::Text {
            title: "Stop Session"@,
            text: STOP_CONFIRM_TEXT@,
            scroll: 0,
        },
    }
}

fn copy_toast(toast: &Option<String>) -> (r: Option<String>)
    ensures
        opt_view(r) == opt_view(*toast),
{
    match toast {
        Some(message) => Some(message.clone()),
        None => None,
    }
}

impl AttachOverlay {
    fn render_palette(&self) -> (r: Vec<Line>)
        ensures
            line_views(r@) == palette_lines(self@.commands(), self@.palette_selected),
    {
        let items = filtered_palette_items(self.palette_query.as_str());
        let ghost due = self@.commands();
        let mut r: Vec<Line> = Vec::new();
        let mut i: usize = 0;
        while i < items.len()
            invariant
                i <= items.len(),
                item_views(items@) == due,
                r@.len() == i,
                forall|k: int|
                    0 <= k < i ==> (#[trigger] r@[k])@ == command_line(
                        due[k].key_hint,
                        due[k].title,
                        k == self.palette_selected,
                    ),
            decreases items.len() - i,
        {
            assert(item_views(items@)[i as int] == due[i as int]);
            r.push(
                command_line_of(items[i].key_hint, items[i].title, i == self.palette_selected),
            );
            i = i + 1;
        }
        assert(line_views(r@) =~= palette_lines(self@.commands(), self@.palette_selected));
        r
    }

    fn render_switcher(&self) -> (r: Vec<Line>)
        ensures
            line_views(r@) == switcher_lines(self@.found(), self@.switcher_selected),
    {
        let found = self.filtered_sessions();
        let ghost due = self@.found();
        let mut r: Vec<Line> = Vec::new();
        let mut i: usize = 0;
        while i < found.len()
            invariant
                i <= found.len(),
                pointed_to(found@) == due,
                r@.len() == i,
                forall|k: int|
                    0 <= k < i ==> (#[trigger] r@[k])@ == switcher_line(
                        due[k],
                        k == self.switcher_selected,
                    ),
            decreases found.len() - i,
        {
            assert(pointed_to(found@)[i as int] == due[i as int]);
            r.push(switcher_line_of(found[i], i == self.switcher_selected));
            i = i + 1;
        }
        assert(line_views(r@) =~= switcher_lines(self@.found(), self@.switcher_selected));
        r
    }

    /// What the overlay shows.
    pub fn render(&self) -> (r: OverlayScreen)
        ensures
            r@ == overlay_screen(self@),
    {
        match self.mode {
            OverlayMode::Palette => OverlayScreen::List {
                title: "Overlay",
                prompt: prompt_of(self.palette_query.as_str()),
                lines: self.render_palette(),
                notice_rows: 1,
                toast: copy_toast(&self.toast),
            },
            OverlayMode::SessionSwitcher => OverlayScreen::List {
                title: "Switch Session",
                prompt: prompt_of(self.switcher_query.as_str()),
                lines: self.render_switcher(),
                notice_rows: 0,
                toast: None,
            },
            OverlayMode::NewSession { edit_agent } => OverlayScreen::Form {
                title: "New Session",
                name: form_line_of("name   ", self.name_input.as_str(), !edit_agent),
                agent: form_line_of("agent  ", self.agent_input.as_str(), edit_agent),
                help: NEW_SESSION_HELP,
                toast: copy_toast(&self.toast),
            },
            OverlayMode::GitStatus => OverlayScreen::Text {
                title: "Session Details",
                text: self.detail_text.clone(),
                scroll: self.detail_scroll,
            },
            OverlayMode::Diff => OverlayScreen::Diff {
                title: diff_title_of(&self.sessions, self.session_id.as_str()),
                subtitle: worktree_of(&self.sessions, self.session_id.as_str()),
                body: fullscreen_diff_body(self.detail_text.as_str()),
                scroll: self.detail_scroll,
            },
            OverlayMode::StopConfirm => OverlayScreen::Text {
                title: "Stop Session",
                text: STOP_CONFIRM_TEXT.to_string(),
                scroll: 0,
            },
        }
    }

    /// What is to be done about the alternate screen, which a diff fills: whether it is to be
    /// entered or left, if it was or was not entered before.
    pub fn sync_diff_screen(&self, active: bool) -> (r: Option<bool>)
        ensures
            r == (if (self@.mode == OverlayMode::Diff) == active {
                None
            } else {
                Some(self@.mode == OverlayMode::Diff)
            }),
    {
        let wanted = match self.mode {
            OverlayMode::Diff => true,
            _ => false,
        };
        if wanted == active {
            None
        } else {
            Some(wanted)
        }
    }
}

} // verus!
