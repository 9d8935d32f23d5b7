//! What the full-screen view shows.
use crate::overlay_render::{
    command_line, command_line_of, entry_style, prompt_line, prompt_of, style_of_entry, subtle,
    subtle_style,
};
use crate::session::SessionRecord;
use crate::session_display::{elapsed_label, session_elapsed_label_at};
use crate::session_find::{first_named, session_by_id};
use crate::session_list::{all_valid, pointed_to};
use crate::style::{
    bold, colored, line_views, raw, styled, unstyled, Color, Line, Span, SpanView, Style,
};
use crate::text::{decimal, decimal_of, trim, views};
use crate::time::Timestamp;
use crate::tui::app::{
    composer_row_views, ComposerField, ComposerRow, ComposerRowView, FocusTarget, FocusView, Modal,
    RuntimeApp, RuntimeView,
};
use crate::tui::badge::{
    by_urgency, icon, icon_color, icon_style, ordered_sessions, session_icon, session_icon_color,
    session_icon_style, session_status_text, status_text,
};
use crate::tui::palette::{commands_matching, filtered_palette_items, item_views, palette};
use crate::tui::pty::{pty_lines, PtyView};
use vstd::prelude::*;
use vstd::string::*;

verus! {

/// The width of the sidebar.
pub const SIDEBAR_WIDTH: u16 = 34;

/// The height of a card of the sidebar, and of what separates it from the next.
pub const CARD_HEIGHT: u16 = 6;

/// The height of the composer.
pub const COMPOSER_HEIGHT: u16 = 12;

/// How many rows of the composer are shown.
pub const COMPOSER_VISIBLE_ROWS: usize = 5;

/// How many commands of the palette are shown.
pub const PALETTE_VISIBLE_ITEMS: usize = 9;

/// What is said where there are no sessions.
pub const NO_SESSIONS_TEXT: &'static str = "No worker sessions yet. Use Ctrl-b t to start one.";

/// What is said below the sessions.
pub const COORDINATOR_FOOTER: &'static str =
    "TODO: richer coordinator summaries, cross-session review queues, and grouped worktree actions.";

/// How the composer is used.
pub const COMPOSER_HELP: &'static str =
    "Type to filter sessions or name a new session. Enter opens the selected row. Tab switches field.";

/// The keys behind the leader key.
pub const LEADER_HELP: &'static str = "leader: n/p/a/c/s/t/w/g/d/x";

/// A part of the screen.
#[derive(Clone, Copy, Debug, PartialEq, Eq, Structural)]
pub struct Area {
    pub x: u16,
    pub y: u16,
    pub width: u16,
    pub height: u16,
}

// ---------------------------------------------------------------------------
// Places
// ---------------------------------------------------------------------------
/// The sum of two numbers, or the largest of 16 bits where it is larger.
pub open spec fn sum_u16(a: int, b: int) -> int {
    if a + b > u16::MAX {
        u16::MAX as int
    } else {
        a + b
    }
}

/// What is left of a number after another is taken away; nothing where that is larger.
pub open spec fn less_u16(a: int, b: int) -> int {
    if a < b {
        0
    } else {
        a - b
    }
}

/// The point so many percent of the way from a start to an end, rounded to the nearest cell; the
/// later one where two are as near.
pub open spec fn point_at(start: int, end: int, percent: int) -> int {
    start + ((end - start) * percent + 50) / 100
}

/// The middle part of an area that is split in three, the first and the last alike.
pub open spec fn middle_part(
    area: Area,
    vertical: bool,
    edge_percent: int,
    middle_percent: int,
) -> Area {
    if vertical {
        let end = sum_u16(area.y as int, area.height as int);
        let from = point_at(area.y as int, end, edge_percent);
        let to = point_at(area.y as int, end, edge_percent + middle_percent);
        Area { y: from as u16, height: (to - from) as u16, ..area }
    } else {
        let end = sum_u16(area.x as int, area.width as int);
        let from = point_at(area.x as int, end, edge_percent);
        let to = point_at(area.x as int, end, edge_percent + middle_percent);
        Area { x: from as u16, width: (to - from) as u16, ..area }
    }
}

/// `ratatui::layout::Layout::split` by three percentages, of which the middle part is taken.
///
/// Claimed: the middle part reaches from the point at the first percentage to that at the first
/// and the second together, each rounded to the nearest cell, and the other direction is left as
/// it is. Percentages that are more than a hundred together are left out: which of them gives way
/// is not settled then.
#[verifier::external_body]
fn split_middle(area: Area, vertical: bool, edge_percent: u16, middle_percent: u16) -> (r: Area)
    requires
        2 * edge_percent + middle_percent <= 100,
    ensures
        r == middle_part(area, vertical, edge_percent as int, middle_percent as int),
{
    let direction = match vertical {
        true => ratatui::layout::Direction::Vertical,
        false => ratatui::layout::Direction::Horizontal,
    };
    let constraints = [
        ratatui::layout::Constraint::Percentage(edge_percent),
        ratatui::layout::Constraint::Percentage(middle_percent),
        ratatui::layout::Constraint::Percentage(edge_percent),
    ];
    let Area { x, y, width, height } = area;
    let whole = ratatui::layout::Rect { x, y, width, height };
    let part = ratatui::layout::Layout::new(direction, constraints).split(whole)[1];
    Area { x: part.x, y: part.y, width: part.width, height: part.height }
}

/// The part of an area in its middle, so many percent of it wide and high.
pub open spec fn centered(percent_x: int, percent_y: int, area: Area) -> Area {
    middle_part(
        middle_part(area, true, (100 - percent_y) / 2, percent_y),
        false,
        (100 - percent_x) / 2,
        percent_x,
    )
}

/// A part of an area in its middle, so many percent of it wide and high.
pub fn centered_rect(percent_x: u16, percent_y: u16, area: Area) -> (r: Area)
    requires
        percent_x <= 100,
        percent_y <= 100,
    ensures
        r == centered(percent_x as int, percent_y as int, area),
{
    let band = split_middle(area, true, (100 - percent_y) / 2, percent_y);
    split_middle(band, false, (100 - percent_x) / 2, percent_x)
}

/// A point part of the way between two others lies between them, and not before one less far.
proof fn points_lie_between(start: int, end: int, less: int, more: int)
    requires
        start <= end,
        0 <= less <= more <= 100,
    ensures
        start <= point_at(start, end, less) <= point_at(start, end, more) <= end,
{
    let size = end - start;
    assert(0 <= size * less <= size * more <= size * 100) by (nonlinear_arith)
        requires
            0 <= size,
            0 <= less <= more <= 100,
    ;
}

/// A centered part lies within its area.
pub proof fn centered_parts_lie_within(percent_x: int, percent_y: int, area: Area)
    requires
        0 <= percent_x <= 100,
        0 <= percent_y <= 100,
        area.x + area.width <= u16::MAX,
        area.y + area.height <= u16::MAX,
    ensures
        ({
            let part = centered(percent_x, percent_y, area);
            &&& area.x <= part.x
            &&& part.x + part.width <= area.x + area.width
            &&& area.y <= part.y
            &&& part.y + part.height <= area.y + area.height
        }),
{
    let side = (100 - percent_x) / 2;
    let top = (100 - percent_y) / 2;
    points_lie_between(area.x as int, area.x + area.width, side, side + percent_x);
    points_lie_between(area.y as int, area.y + area.height, top, top + percent_y);
}

/// Where cards stand below each other, at most so many, until the bottom is reached.
pub open spec fn card_tops(top: int, bottom: int, count: int) -> Seq<int>
    decreases count,
{
    if count <= 0 {
        Seq::empty()
    } else {
        let next = sum_u16(top, CARD_HEIGHT as int);
        seq![top] + (if next >= bottom {
            Seq::empty()
        } else {
            card_tops(next, bottom, count - 1)
        })
    }
}

/// How many cards of sessions the sidebar has room for, below that of the coordinator.
pub open spec fn card_room(height: int) -> int {
    let cards = less_u16(height, 2) / CARD_HEIGHT as int;
    if cards < 1 {
        0
    } else {
        cards - 1
    }
}

/// The place of a card.
pub open spec fn card_area(area: Area, top: int) -> Area {
    Area {
        x: (area.x + 1) as u16,
        y: top as u16,
        width: less_u16(area.width as int, 2) as u16,
        height: (CARD_HEIGHT - 1) as u16,
    }
}

// ---------------------------------------------------------------------------
// Sidebar
// ---------------------------------------------------------------------------
/// A card of the sidebar.
#[derive(Debug, PartialEq, Eq)]
pub struct SidebarCard {
    pub icon: &'static str,
    pub icon_color: Color,
    pub title: String,
    pub repo_name: String,
    pub branch: String,
    pub status_text: String,
    pub focused: bool,
}

/// The model of a card.
pub struct CardView {
    pub icon: Seq<char>,
    pub icon_color: Color,
    pub title: Seq<char>,
    pub repo_name: Seq<char>,
    pub branch: Seq<char>,
    pub status_text: Seq<char>,
    pub focused: bool,
}

impl View for SidebarCard {
    type V = CardView;

    open spec fn view(&self) -> CardView {
        CardView {
            icon: self.icon@,
            icon_color: self.icon_color,
            title: self.title@,
            repo_name: self.repo_name@,
            branch: self.branch@,
            status_text: self.status_text@,
            focused: self.focused,
        }
    }
}

/// The card of the coordinator.
pub open spec fn coordinator_card(focused: bool) -> CardView {
    CardView {
        icon: "C"@,
        icon_color: Color::Cyan,
        title: "coordinator"@,
        repo_name: "all repos"@,
        branch: "overview"@,
        status_text: "attention queue"@,
        focused,
    }
}

/// The card of a session.
pub open spec fn session_card(session: SessionRecord, focused: bool) -> CardView {
    CardView {
        icon: icon(session),
        icon_color: icon_color(session),
        title: session.title@,
        repo_name: session.repo_name@,
        branch: session.branch@,
        status_text: status_text(session),
        focused,
    }
}

/// The style of the border of a card.
pub open spec fn border_style(focused: bool) -> Style {
    colored(
        if focused {
            Color::Cyan
        } else {
            Color::DarkGray
        },
    )
}

/// The lines of a card.
pub open spec fn card_lines(card: CardView) -> Seq<Seq<SpanView>> {
    seq![
        seq![
            styled(card.icon, bold(colored(card.icon_color))),
            raw("  "@),
            styled(card.title, bold(unstyled())),
        ],
        seq![styled("repo    "@, subtle()), raw(card.repo_name)],
        seq![styled("branch  "@, subtle()), raw(card.branch)],
        seq![styled(card.status_text, colored(card.icon_color))],
    ]
}

impl SidebarCard {
    /// The card of the coordinator.
    pub fn coordinator(focused: bool) -> (r: SidebarCard)
        ensures
            r@ == coordinator_card(focused),
    {
        SidebarCard {
            icon: "C",
            icon_color: Color::Cyan,
            title: "coordinator".to_string(),
            repo_name: "all repos".to_string(),
            branch: "overview".to_string(),
            status_text: "attention queue".to_string(),
            focused,
        }
    }

    /// The card of a session.
    pub fn from_session(session: &SessionRecord, focused: bool) -> (r: SidebarCard)
        ensures
            r@ == session_card(*session, focused),
    {
        SidebarCard {
            icon: session_icon(session),
            icon_color: session_icon_color(session),
            title: session.title.clone(),
            repo_name: session.repo_name.clone(),
            branch: session.branch.clone(),
            status_text: session_status_text(session),
            focused,
        }
    }

    /// The style of the border of this card.
    pub fn border_style(&self) -> (r: Style)
        ensures
            r == border_style(self@.focused),
    {
        Style::color(
            if self.focused {
                Color::Cyan
            } else {
                Color::DarkGray
            },
        )
    }

    /// The lines of this card.
    pub fn lines(&self) -> (r: Vec<Line>)
        ensures
            line_views(r@) == card_lines(self@),
    {
        let first = Line::new(
            vec![
                Span::styled(self.icon, Style::color(self.icon_color).in_bold()),
                Span::raw("  "),
                Span::styled(self.title.as_str(), Style::plain().in_bold()),
            ],
        );
        let second = labelled("repo    ", self.repo_name.as_str());
        let third = labelled("branch  ", self.branch.as_str());
        let fourth = Line::styled(self.status_text.as_str(), Style::color(self.icon_color));
        assert(first@ =~= card_lines(self@)[0]);
        let r = vec![first, second, third, fourth];
        assert(line_views(r@) =~= card_lines(self@));
        r
    }
}

/// A label and a value.
pub open spec fn labelled_line(label: Seq<char>, value: Seq<char>) -> Seq<SpanView> {
    seq![styled(label, subtle()), raw(value)]
}

fn labelled(label: &str, value: &str) -> (r: Line)
    ensures
        r@ == labelled_line(label@, value@),
{
    let r = Line::new(vec![Span::styled(label, subtle_style()), Span::raw(value)]);
    assert(r@ =~= labelled_line(label@, value@));
    r
}

/// The sidebar: its title, and the cards with their places.
#[derive(Debug)]
pub struct Sidebar {
    pub header: Line,
    pub cards: Vec<(Area, SidebarCard)>,
}

/// The title of the sidebar.
pub open spec fn sidebar_header(count: int) -> Seq<SpanView> {
    seq![
        styled("Sessions"@, bold(unstyled())),
        raw(" ("@ + decimal(count as nat) + ")"@),
    ]
}

/// The cards of the sidebar with their places: the coordinator's, and those of the most urgent
/// sessions.
pub open spec fn sidebar_cards(v: RuntimeView, area: Area) -> Seq<(Area, CardView)> {
    let sessions = by_urgency(v.sessions);
    let room = card_room(area.height as int);
    let count = if sessions.len() < room {
        sessions.len() as int
    } else {
        room
    };
    let tops = card_tops(
        sum_u16(area.y + 2, CARD_HEIGHT as int),
        sum_u16(area.y as int, area.height as int),
        count,
    );
    seq![
        (card_area(area, area.y + 2), coordinator_card(v.focus == FocusView::Coordinator)),
    ] + Seq::new(
        tops.len(),
        |i: int|
            (
                card_area(area, tops[i]),
                session_card(
                    sessions[i],
                    v.focus == FocusView::Worker(sessions[i].session_id@),
                ),
            ),
    )
}

/// The models of cards with their places.
pub open spec fn placed_views(cards: Seq<(Area, SidebarCard)>) -> Seq<(Area, CardView)> {
    Seq::new(cards.len(), |i: int| (cards[i].0, cards[i].1@))
}

proof fn tops_are_few(top: int, bottom: int, count: int)
    ensures
        card_tops(top, bottom, count).len() <= (if count > 0 {
            count
        } else {
            0
        }),
    decreases count,
{
    if count > 0 {
        tops_are_few(sum_u16(top, CARD_HEIGHT as int), bottom, count - 1);
    }
}

impl RuntimeApp {
    /// The sidebar.
    pub fn render_sidebar(&self, area: Area) -> (r: Sidebar)
        requires
            area.x < u16::MAX,
            area.y <= u16::MAX - 2,
        ensures
            r.header@ == sidebar_header(self@.sessions.len() as int),
            placed_views(r.cards@) == sidebar_cards(self@, area),
    {
        let sessions = ordered_sessions(&self.sessions);
        let ghost due = by_urgency(self@.sessions);
        assert(due.len() == sessions@.len());
        let mut count_text = " (".to_string();
        count_text.append(decimal_of(self.sessions.len() as u64).as_str());
        count_text.append(")");
        let header = Line::new(
            vec![
                Span::styled("Sessions", Style::plain().in_bold()),
                Span::raw(count_text.as_str()),
            ],
        );
        assert(header@ =~= sidebar_header(self@.sessions.len() as int));
        let bottom: u16 = area.y.saturating_add(area.height);
        let visible: u16 = area.height.saturating_sub(2) / CARD_HEIGHT;
        let room: usize = if visible < 1 {
            0
        } else {
            (visible - 1) as usize
        };
        let count: usize = if sessions.len() < room {
            sessions.len()
        } else {
            room
        };
        let on_coordinator = match self.focus {
            FocusTarget::Coordinator => true,
            FocusTarget::Worker(_) => false,
        };
        let mut y: u16 = area.y + 2;
        let mut cards: Vec<(Area, SidebarCard)> = Vec::new();
        cards.push((place(area, y), SidebarCard::coordinator(on_coordinator)));
        y = y.saturating_add(CARD_HEIGHT);
        let ghost tops = card_tops(y as int, bottom as int, count as int);
        let ghost first = (
            card_area(area, area.y + 2),
            coordinator_card(self@.focus == FocusView::Coordinator),
        );
        proof {
            tops_are_few(y as int, bottom as int, count as int);
        }
        let mut i: usize = 0;
        assert(tops.take(0) =~= Seq::empty());
        assert(tops.take(0) + tops =~= tops);
        while i < count
            invariant_except_break
                tops == tops.take(i as int) + card_tops(y as int, bottom as int, count - i),
            invariant
                i <= count <= sessions@.len(),
                i <= tops.len() <= count,
                area.x < u16::MAX,
                pointed_to(sessions@) == due,
                cards@.len() == i + 1,
                cards@[0].0 == first.0,
                cards@[0].1@ == first.1,
                forall|k: int|
                    1 <= k <= i ==> (#[trigger] cards@[k]).0 == card_area(area, tops[k - 1])
                        && cards@[k].1@ == session_card(
                        due[k - 1],
                        self@.focus == FocusView::Worker(due[k - 1].session_id@),
                    ),
            ensures
                i == tops.len(),
            decreases count - i,
        {
            assert(pointed_to(sessions@)[i as int] == due[i as int]);
            let session = sessions[i];
            let focused = match &self.focus {
                FocusTarget::Coordinator => false,
                FocusTarget::Worker(id) => crate::text::same(
                    id.as_str(),
                    session.session_id.as_str(),
                ),
            };
            let ghost rest = card_tops(y as int, bottom as int, count - i);
            assert(rest[0] == y);
            assert(tops[i as int] == rest[0]);
            cards.push((place(area, y), SidebarCard::from_session(session, focused)));
            let next: u16 = y.saturating_add(CARD_HEIGHT);
            proof {
                let more = card_tops(next as int, bottom as int, count - i - 1);
                if next >= bottom {
                    assert(rest.len() == 1);
                    assert(tops.len() == i + 1);
                } else {
                    assert(rest =~= seq![y as int] + more);
                    assert(tops.take(i as int + 1) =~= tops.take(i as int).push(y as int));
                    assert(tops =~= tops.take(i as int + 1) + more);
                    if i + 1 == count {
                        assert(more.len() == 0);
                    }
                }
            }
            y = next;
            i = i + 1;
            if y >= bottom {
                break;
            }
        }
        assert(placed_views(cards@) =~= sidebar_cards(self@, area));
        Sidebar { header, cards }
    }
}

fn place(area: Area, y: u16) -> (r: Area)
    requires
        area.x < u16::MAX,
    ensures
        r == card_area(area, y as int),
{
    Area {
        x: area.x + 1,
        y,
        width: area.width.saturating_sub(2),
        height: CARD_HEIGHT - 1,
    }
}

// ---------------------------------------------------------------------------
// Coordinator
// ---------------------------------------------------------------------------
/// What the coordinator says first.
pub open spec fn queue_header() -> Seq<SpanView> {
    seq![
        styled("Attention queue"@, bold(unstyled())),
        raw("  "@),
        styled("Ctrl-b opens commands"@, subtle()),
    ]
}

/// A session in the queue.
pub open spec fn queue_line(session: SessionRecord) -> Seq<SpanView> {
    seq![
        styled(icon(session), icon_style(session)),
        raw("  "@),
        styled(session.title@, bold(unstyled())),
        raw("  "@),
        styled(session.repo_name@, subtle()),
        raw("  "@),
        styled(session.branch@, subtle()),
    ]
}

/// The first sessions of the queue, with what is said of each below it.
pub open spec fn queue_lines(sessions: Seq<SessionRecord>, n: int) -> Seq<Seq<SpanView>>
    decreases n,
{
    if n <= 0 {
        Seq::empty()
    } else {
        queue_lines(sessions, n - 1).push(queue_line(sessions[n - 1])).push(
            seq![styled(status_text(sessions[n - 1]), subtle())],
        )
    }
}

/// What the coordinator shows in a part of the screen so many rows high.
pub open spec fn coordinator_lines(v: RuntimeView, inner_height: int) -> Seq<Seq<SpanView>> {
    let sessions = by_urgency(v.sessions);
    let room = less_u16(inner_height, 4);
    let count = if sessions.len() < room {
        sessions.len() as int
    } else {
        room
    };
    seq![queue_header(), seq![raw(""@)]] + (if sessions.len() == 0 {
        seq![seq![styled(NO_SESSIONS_TEXT@, subtle())]]
    } else {
        queue_lines(sessions, count)
    }) + seq![seq![raw(""@)], seq![styled(COORDINATOR_FOOTER@, subtle())]]
}

fn add_line(lines: &mut Vec<Line>, line: Line)
    ensures
        line_views(final(lines)@) == line_views(old(lines)@).push(line@),
{
    lines.push(line);
    assert(line_views(lines@) =~= line_views(old(lines)@).push(line@));
}

fn no_lines() -> (r: Vec<Line>)
    ensures
        line_views(r@) == Seq::<Seq<SpanView>>::empty(),
{
    let r: Vec<Line> = Vec::new();
    assert(line_views(r@) =~= Seq::empty());
    r
}

fn add_lines(lines: &mut Vec<Line>, more: Vec<Line>)
    ensures
        line_views(final(lines)@) == line_views(old(lines)@) + line_views(more@),
{
    let mut more = more;
    let ghost given = more@;
    lines.append(&mut more);
    assert(line_views(lines@) =~= line_views(old(lines)@) + line_views(given));
}

fn queue_line_of(session: &SessionRecord) -> (r: Line)
    ensures
        r@ == queue_line(*session),
{
    let r = Line::new(
        vec![
            Span::styled(session_icon(session), session_icon_style(session)),
            Span::raw("  "),
            Span::styled(session.title.as_str(), Style::plain().in_bold()),
            Span::raw("  "),
            Span::styled(session.repo_name.as_str(), subtle_style()),
            Span::raw("  "),
            Span::styled(session.branch.as_str(), subtle_style()),
        ],
    );
    assert(r@ =~= queue_line(*session));
    r
}

impl RuntimeApp {
    fn render_queue(&self, count: usize) -> (r: Vec<Line>)
        requires
            count <= self@.sessions.len(),
        ensures
            line_views(r@) == queue_lines(by_urgency(self@.sessions), count as int),
    {
        let sessions = ordered_sessions(&self.sessions);
        let ghost due = by_urgency(self@.sessions);
        let mut r = no_lines();
        let mut i: usize = 0;
        while i < count
            invariant
                i <= count <= sessions@.len(),
                pointed_to(sessions@) == due,
                line_views(r@) == queue_lines(due, i as int),
            decreases count - i,
        {
            assert(pointed_to(sessions@)[i as int] == due[i as int]);
            add_line(&mut r, queue_line_of(sessions[i]));
            add_line(
                &mut r,
                Line::styled(session_status_text(sessions[i]).as_str(), subtle_style()),
            );
            i = i + 1;
        }
        r
    }

    /// What the coordinator shows.
    pub fn render_coordinator(&self, inner_height: u16) -> (r: Vec<Line>)
        ensures
            line_views(r@) == coordinator_lines(self@, inner_height as int),
    {
        let header = Line::new(
            vec![
                Span::styled("Attention queue", Style::plain().in_bold()),
                Span::raw("  "),
                Span::styled("Ctrl-b opens commands", subtle_style()),
            ],
        );
        assert(header@ =~= queue_header());
        let mut lines = no_lines();
        add_line(&mut lines, header);
        add_line(&mut lines, Line::raw(""));
        assert(line_views(lines@) =~= seq![queue_header(), seq![raw(""@)]]);
        let total: usize = self.sessions.len();
        proof {
            let keys = crate::tui::badge::urgency_keys(self@.sessions);
            crate::order::order_is_sorted_and_stable(keys);
        }
        assert(by_urgency(self@.sessions).len() == total);
        let ghost before = line_views(lines@);
        if total == 0 {
            add_line(&mut lines, Line::styled(NO_SESSIONS_TEXT, subtle_style()));
            assert(line_views(lines@) =~= before + seq![
                seq![styled(NO_SESSIONS_TEXT@, subtle())],
            ]);
        } else {
            let room: usize = inner_height.saturating_sub(4) as usize;
            let count: usize = if total < room {
                total
            } else {
                room
            };
            add_lines(&mut lines, self.render_queue(count));
        }
        let ghost middle = line_views(lines@);
        add_line(&mut lines, Line::raw(""));
        add_line(&mut lines, Line::styled(COORDINATOR_FOOTER, subtle_style()));
        assert(line_views(lines@) =~= middle + seq![
            seq![raw(""@)],
            seq![styled(COORDINATOR_FOOTER@, subtle())],
        ]);
        lines
    }
}

// ---------------------------------------------------------------------------
// Composer
// ---------------------------------------------------------------------------
/// A field of the composer: a mark on the one that is being typed.
pub open spec fn field_line(active: bool, label: Seq<char>, value: Seq<char>) -> Seq<SpanView> {
    seq![
        styled(
            if active {
                "> "@
            } else {
                "  "@
            },
            colored(Color::Cyan),
        ),
        styled(label, subtle()),
        raw(value),
    ]
}

fn field_line_of(active: bool, label: &str, value: &str) -> (r: Line)
    ensures
        r@ == field_line(active, label@, value@),
{
    let mark = if active {
        "> "
    } else {
        "  "
    };
    let r = Line::new(
        vec![
            Span::styled(mark, Style::color(Color::Cyan)),
            Span::styled(label, subtle_style()),
            Span::raw(value),
        ],
    );
    assert(r@ =~= field_line(active, label@, value@));
    r
}

/// The row that creates a session.
pub open spec fn create_line(query: Seq<char>, selected: bool) -> Seq<SpanView> {
    seq![
        styled("+"@, colored(Color::Green)),
        raw("  "@),
        styled(crate::picker_render::create_label(query), entry_style(selected)),
    ]
}

/// The row of a session.
pub open spec fn composer_session_line(session: SessionRecord, selected: bool, now: Timestamp) -> Seq<
    SpanView,
> {
    seq![
        styled(icon(session), icon_style(session)),
        raw("  "@),
        styled(elapsed_label(session, now), entry_style(selected)),
        raw("  "@),
        styled(session.title@, entry_style(selected)),
        raw("  "@),
        styled(session.repo_name@, subtle()),
        raw("  "@),
        styled(session.branch@, subtle()),
    ]
}

/// The first rows of the composer.
pub open spec fn composer_row_lines(v: RuntimeView, now: Timestamp, n: int) -> Seq<Seq<SpanView>>
    decreases n,
{
    if n <= 0 {
        Seq::empty()
    } else {
        let front = composer_row_lines(v, now, n - 1);
        let selected = n - 1 == v.composer.selected;
        match v.rows(now)[n - 1] {
            ComposerRowView::Create => front.push(create_line(v.composer.query, selected)),
            ComposerRowView::Session(id) => match first_named(v.sessions, id) {
                Some(session) => front.push(composer_session_line(session, selected, now)),
                None => front,
            },
        }
    }
}

/// What was said of the session that was created last.
pub open spec fn status_line_views(status_lines: Seq<Seq<char>>) -> Seq<Seq<SpanView>> {
    if status_lines.len() == 0 {
        Seq::empty()
    } else {
        seq![seq![raw(""@)]] + Seq::new(
            status_lines.len(),
            |i: int| seq![styled(status_lines[i], subtle())],
        )
    }
}

/// What the composer shows.
pub open spec fn composer_lines(v: RuntimeView, now: Timestamp) -> Seq<Seq<SpanView>> {
    let count = if v.rows(now).len() < COMPOSER_VISIBLE_ROWS {
        v.rows(now).len() as int
    } else {
        COMPOSER_VISIBLE_ROWS as int
    };
    seq![
        field_line(v.composer.field == ComposerField::Query, "query  "@, v.composer.query),
        field_line(v.composer.field == ComposerField::Agent, "agent  "@, v.composer.agent_input),
        seq![styled(COMPOSER_HELP@, subtle())],
        seq![raw(""@)],
    ] + composer_row_lines(v, now, count) + status_line_views(v.composer.status_lines)
}

fn create_line_of(query: &str, selected: bool) -> (r: Line)
    ensures
        r@ == create_line(query@, selected),
{
    let name = trim(query);
    let label = if name.as_str().is_empty() {
        "Create new session".to_string()
    } else {
        let mut label = "Create new session: ".to_string();
        label.append(name.as_str());
        label
    };
    let r = Line::new(
        vec![
            Span::styled("+", Style::color(Color::Green)),
            Span::raw("  "),
            Span::styled(label.as_str(), style_of_entry(selected)),
        ],
    );
    assert(r@ =~= create_line(query@, selected));
    r
}

fn composer_session_line_of(session: &SessionRecord, selected: bool, now: Timestamp) -> (r: Line)
    requires
        session.valid(),
        now.valid(),
    ensures
        r@ == composer_session_line(*session, selected, now),
{
    let style = style_of_entry(selected);
    let r = Line::new(
        vec![
            Span::styled(session_icon(session), session_icon_style(session)),
            Span::raw("  "),
            Span::styled(session_elapsed_label_at(session, now).as_str(), style),
            Span::raw("  "),
            Span::styled(session.title.as_str(), style),
            Span::raw("  "),
            Span::styled(session.repo_name.as_str(), subtle_style()),
            Span::raw("  "),
            Span::styled(session.branch.as_str(), subtle_style()),
        ],
    );
    assert(r@ =~= composer_session_line(*session, selected, now));
    r
}

impl RuntimeApp {
    fn render_composer_rows(&self, now: Timestamp) -> (r: Vec<Line>)
        requires
            all_valid(self@.sessions),
            now.valid(),
        ensures
            line_views(r@) == composer_row_lines(
                self@,
                now,
                if self@.rows(now).len() < COMPOSER_VISIBLE_ROWS {
                    self@.rows(now).len() as int
                } else {
                    COMPOSER_VISIBLE_ROWS as int
                },
            ),
    {
        let rows = self.composer_rows(now);
        let ghost due = self@.rows(now);
        let count: usize = if rows.len() < COMPOSER_VISIBLE_ROWS {
            rows.len()
        } else {
            COMPOSER_VISIBLE_ROWS
        };
        let mut r = no_lines();
        let mut i: usize = 0;
        while i < count
            invariant
                i <= count <= rows@.len(),
                all_valid(self@.sessions),
                now.valid(),
                due == self@.rows(now),
                composer_row_views(rows@) == due,
                line_views(r@) == composer_row_lines(self@, now, i as int),
            decreases count - i,
        {
            assert(composer_row_views(rows@)[i as int] == due[i as int]);
            let selected = i == self.composer.selected;
            match &rows[i] {
                ComposerRow::Create => {
                    add_line(&mut r, create_line_of(self.composer.query.as_str(), selected));
                },
                ComposerRow::Session(id) => {
                    match session_by_id(&self.sessions, id.as_str()) {
                        Some(session) => {
                            add_line(&mut r, composer_session_line_of(session, selected, now));
                        },
                        None => {},
                    }
                },
            }
            i = i + 1;
        }
        r
    }

    fn render_status_lines(&self) -> (r: Vec<Line>)
        ensures
            line_views(r@) == status_line_views(self@.composer.status_lines),
    {
        let ghost due = self@.composer.status_lines;
        assert(due.len() == self.composer.status_lines@.len());
        let mut r: Vec<Line> = Vec::new();
        if self.composer.status_lines.len() == 0 {
            assert(line_views(r@) =~= status_line_views(due));
            return r;
        }
        r.push(Line::raw(""));
        let mut i: usize = 0;
        while i < self.composer.status_lines.len()
            invariant
                i <= self.composer.status_lines@.len(),
                due == views(self.composer.status_lines@),
                r@.len() == i + 1,
                r@[0]@ == seq![raw(""@)],
                forall|k: int|
                    1 <= k <= i ==> (#[trigger] r@[k])@ == seq![styled(due[k - 1], subtle())],
            decreases self.composer.status_lines@.len() - i,
        {
            assert(due[i as int] == self.composer.status_lines@[i as int]@);
            r.push(Line::styled(self.composer.status_lines[i].as_str(), subtle_style()));
            i = i + 1;
        }
        assert(line_views(r@) =~= status_line_views(due));
        r
    }

    /// What the composer shows.
    pub fn render_inline_composer(&self, now: Timestamp) -> (r: Vec<Line>)
        requires
            all_valid(self@.sessions),
            now.valid(),
        ensures
            line_views(r@) == composer_lines(self@, now),
    {
        let mut lines = no_lines();
        add_line(
            &mut lines,
            field_line_of(
                self.composer.field == ComposerField::Query,
                "query  ",
                self.composer.query.as_str(),
            ),
        );
        add_line(
            &mut lines,
            field_line_of(
                self.composer.field == ComposerField::Agent,
                "agent  ",
                self.composer.agent_input.as_str(),
            ),
        );
        add_line(&mut lines, Line::styled(COMPOSER_HELP, subtle_style()));
        add_line(&mut lines, Line::raw(""));
        assert(line_views(lines@) =~= seq![
            field_line(
                self@.composer.field == ComposerField::Query,
                "query  "@,
                self@.composer.query,
            ),
            field_line(
                self@.composer.field == ComposerField::Agent,
                "agent  "@,
                self@.composer.agent_input,
            ),
            seq![styled(COMPOSER_HELP@, subtle())],
            seq![raw(""@)],
        ]);
        add_lines(&mut lines, self.render_composer_rows(now));
        add_lines(&mut lines, self.render_status_lines());
        lines
    }
}

// ---------------------------------------------------------------------------
// Worker
// ---------------------------------------------------------------------------
/// The title of the session in focus.
pub open spec fn worker_title(session: SessionRecord) -> Seq<char> {
    session.repo_name@ + "  "@ + session.branch@
}

/// What is said of the session in focus.
pub open spec fn worker_summary(session: SessionRecord) -> Seq<Seq<SpanView>> {
    seq![
        seq![
            styled(icon(session), bold(icon_style(session))),
            raw("  "@),
            styled(session.title@, bold(unstyled())),
        ],
        labelled_line("repo      "@, session.repo_path@),
        labelled_line("worktree  "@, session.worktree@),
        seq![
            styled("status    "@, subtle()),
            raw(status_text(session)),
            raw("  "@),
            styled("git "@, subtle()),
            raw(session.git_sync@),
        ],
    ]
}

/// What is shown of the session in focus.
#[derive(Debug)]
pub struct WorkerPane {
    pub title: String,
    pub summary: Vec<Line>,
    pub body: Vec<Line>,
}

/// What is shown below what is said of the session in focus: its terminal while it is attached,
/// else its history.
pub open spec fn worker_body(v: RuntimeView, session_id: Seq<char>) -> Seq<Seq<SpanView>> {
    if v.pty matches Some(pty) && pty.session_id == session_id {
        pty_lines(v.pty->0)
    } else {
        Seq::new(
            crate::text::lines(v.history).len(),
            |i: int| seq![raw(crate::text::lines(v.history)[i])],
        )
    }
}

/// What is said of the session in focus.
pub fn render_worker_summary(session: &SessionRecord) -> (r: Vec<Line>)
    ensures
        line_views(r@) == worker_summary(*session),
{
    let first = Line::new(
        vec![
            Span::styled(session_icon(session), session_icon_style(session).in_bold()),
            Span::raw("  "),
            Span::styled(session.title.as_str(), Style::plain().in_bold()),
        ],
    );
    let last = Line::new(
        vec![
            Span::styled("status    ", subtle_style()),
            Span::raw(session_status_text(session).as_str()),
            Span::raw("  "),
            Span::styled("git ", subtle_style()),
            Span::raw(session.git_sync.as_str()),
        ],
    );
    let ghost due = worker_summary(*session);
    assert(first@ =~= due[0]);
    assert(last@ =~= due[3]);
    let r = vec![
        first,
        labelled("repo      ", session.repo_path.as_str()),
        labelled("worktree  ", session.worktree.as_str()),
        last,
    ];
    assert(line_views(r@) =~= due);
    r
}

impl RuntimeApp {
    /// Takes the size of the part of the screen for the terminal of a session; gives the size
    /// that the terminal is to have, where it has another.
    pub fn sync_pane(&mut self, session_id: &str, width: u16, height: u16) -> (r: Option<
        (u16, u16),
    >)
        requires
            old(self)@.pty matches Some(pty) ==> pty.screen.wf(),
        ensures
            ({
                let size = (
                    if width < 1 {
                        1u16
                    } else {
                        width
                    },
                    if height < 1 {
                        1u16
                    } else {
                        height
                    },
                );
                if old(self)@.pty matches Some(pty) && pty.session_id == session_id@
                    && old(self)@.last_pane_size != Some(size) {
                    &&& r == Some(size)
                    &&& final(self)@ == (RuntimeView {
                        last_pane_size: Some(size),
                        pty: Some(
                            PtyView {
                                screen: (old(self)@.pty->0).screen.resized(
                                    size.0 as int,
                                    size.1 as int,
                                ),
                                ..old(self)@.pty->0
                            },
                        ),
                        ..old(self)@
                    })
                } else {
                    r is None && final(self)@ == old(self)@
                }
            }),
    {
        let cols: u16 = if width < 1 {
            1
        } else {
            width
        };
        let rows: u16 = if height < 1 {
            1
        } else {
            height
        };
        let known = match self.last_pane_size {
            Some((w, h)) => w == cols && h == rows,
            None => false,
        };
        let attached = match &self.pty {
            Some(pty) => crate::text::same(pty.session_id.as_str(), session_id),
            None => false,
        };
        if known || !attached {
            return None;
        }
        self.last_pane_size = Some((cols, rows));
        let pty = self.pty.take();
        self.pty = match pty {
            Some(mut pty) => {
                pty.resize(cols, rows);
                Some(pty)
            },
            None => None,
        };
        Some((cols, rows))
    }

    fn render_worker_body(&self, session_id: &str) -> (r: Vec<Line>)
        requires
            self@.pty matches Some(pty) ==> pty.screen.wf(),
        ensures
            line_views(r@) == worker_body(self@, session_id@),
    {
        match &self.pty {
            Some(pty) => {
                if crate::text::same(pty.session_id.as_str(), session_id) {
                    return pty.rendered_lines();
                }
            },
            None => {},
        }
        let all = crate::text::lines_of(self.focused_history.as_str());
        let ghost due = crate::text::lines(self@.history);
        let mut r: Vec<Line> = Vec::new();
        let mut i: usize = 0;
        while i < all.len()
            invariant
                i <= all.len(),
                views(all@) == due,
                r@.len() == i,
                forall|k: int| 0 <= k < i ==> (#[trigger] r@[k])@ == seq![raw(due[k])],
            decreases all.len() - i,
        {
            assert(views(all@)[i as int] == due[i as int]);
            r.push(Line::raw(all[i].as_str()));
            i = i + 1;
        }
        assert(line_views(r@) =~= worker_body(self@, session_id@));
        r
    }

    /// What is shown of the session in focus.
    pub fn render_worker(&self, session: &SessionRecord) -> (r: WorkerPane)
        requires
            self@.pty matches Some(pty) ==> pty.screen.wf(),
        ensures
            r.title@ == worker_title(*session),
            line_views(r.summary@) == worker_summary(*session),
            line_views(r.body@) == worker_body(self@, session.session_id@),
    {
        let mut title = session.repo_name.clone();
        title.append("  ");
        title.append(session.branch.as_str());
        WorkerPane {
            title,
            summary: render_worker_summary(session),
            body: self.render_worker_body(session.session_id.as_str()),
        }
    }
}

// ---------------------------------------------------------------------------
// What covers the view
// ---------------------------------------------------------------------------
/// What covers the view.
#[derive(Debug)]
pub enum ModalScreen {
    Closed,
    /// The commands of the palette.
    Palette { lines: Vec<Line> },
    /// A text.
    Text { title: &'static str, body: String, scroll: u16 },
    /// Whether a session is to be stopped.
    Stop { body: String },
}

/// The model of what covers the view.
pub enum ModalScreenView {
    Closed,
    Palette { lines: Seq<Seq<SpanView>> },
    Text { title: Seq<char>, body: Seq<char>, scroll: int },
    Stop { body: Seq<char> },
}

impl View for ModalScreen {
    type V = ModalScreenView;

    open spec fn view(&self) -> ModalScreenView {
        match *self {
            ModalScreen::Closed => ModalScreenView::Closed,
            ModalScreen::Palette { lines } => ModalScreenView::Palette { lines: line_views(lines@) },
            ModalScreen::Text { title, body, scroll } => ModalScreenView::Text {
                title: title@,
                body: body@,
                scroll: scroll as int,
            },
            ModalScreen::Stop { body } => ModalScreenView::Stop { body: body@ },
        }
    }
}

/// The first commands that match, below what was typed.
pub open spec fn palette_lines(v: RuntimeView) -> Seq<Seq<SpanView>> {
    let items = commands_matching(palette(), v.palette_query);
    let count = if items.len() < PALETTE_VISIBLE_ITEMS {
        items.len()
    } else {
        PALETTE_VISIBLE_ITEMS as nat
    };
    seq![prompt_line(v.palette_query), seq![raw(""@)]] + Seq::new(
        count,
        |i: int| command_line(items[i].key_hint, items[i].title, i == v.palette_selected),
    )
}

/// What is asked before a session is stopped.
pub open spec fn stop_text(v: RuntimeView) -> Seq<char> {
    match v.focused_id() {
        Some(id) => "Stop session "@ + id + "?\n\nEnter confirms. Esc cancels."@,
        None => "No session selected."@,
    }
}

/// What covers the view.
pub open spec fn modal_screen(v: RuntimeView) -> ModalScreenView {
    match v.modal {
        Modal::Closed => ModalScreenView::Closed,
        Modal::Palette => ModalScreenView::Palette { lines: palette_lines(v) },
        Modal::WorktreeActions => ModalScreenView::Text {
            title: "Worktree Actions"@,
            body: v.detail_text,
            scroll: v.detail_scroll,
        },
        Modal::GitStatus => ModalScreenView::Text {
            title: "Git Status"@,
            body: v.detail_text,
            scroll: v.detail_scroll,
        },
        Modal::Diff => ModalScreenView::Text {
            title: "Diff"@,
            body: v.diff_text,
            scroll: v.diff_scroll,
        },
        Modal::StopConfirm => ModalScreenView::Stop { body: stop_text(v) },
    }
}

/// The title and the text of the notice over the view: the keys behind the leader key while they
/// are awaited, else a message.
pub open spec fn notice_of(v: RuntimeView) -> Option<(Seq<char>, Seq<char>)> {
    if v.leader_pending {
        Some(("Prefix"@, LEADER_HELP@))
    } else {
        match v.toast {
            Some(message) => Some(("Notice"@, message)),
            None => None,
        }
    }
}

impl RuntimeApp {
    /// The commands of the palette.
    pub fn render_palette(&self) -> (r: Vec<Line>)
        ensures
            line_views(r@) == palette_lines(self@),
    {
        let items = filtered_palette_items(self.palette_query.as_str());
        let ghost due = commands_matching(palette(), self@.palette_query);
        assert(due.len() == items@.len());
        let count: usize = if items.len() < PALETTE_VISIBLE_ITEMS {
            items.len()
        } else {
            PALETTE_VISIBLE_ITEMS
        };
        let mut r: Vec<Line> = Vec::new();
        r.push(prompt_of(self.palette_query.as_str()));
        r.push(Line::raw(""));
        let mut i: usize = 0;
        while i < count
            invariant
                i <= count <= items@.len(),
                item_views(items@) == due,
                r@.len() == i + 2,
                r@[0]@ == prompt_line(self@.palette_query),
                r@[1]@ == seq![raw(""@)],
                forall|k: int|
                    2 <= k < i + 2 ==> (#[trigger] r@[k])@ == command_line(
                        due[k - 2].key_hint,
                        due[k - 2].title,
                        k - 2 == self.palette_selected,
                    ),
            decreases count - i,
        {
            assert(item_views(items@)[i as int] == due[i as int]);
            r.push(
                command_line_of(items[i].key_hint, items[i].title, i == self.palette_selected),
            );
            i = i + 1;
        }
        assert(line_views(r@) =~= palette_lines(self@));
        r
    }

    /// What covers the view.
    pub fn render_overlay(&self) -> (r: ModalScreen)
        ensures
            r@ == modal_screen(self@),
    {
        match self.modal {
            Modal::Closed => ModalScreen::Closed,
            Modal::Palette => ModalScreen::Palette { lines: self.render_palette() },
            Modal::WorktreeActions => ModalScreen::Text {
                title: "Worktree Actions",
                body: self.detail_text.clone(),
                scroll: self.detail_scroll,
            },
            Modal::GitStatus => ModalScreen::Text {
                title: "Git Status",
                body: self.detail_text.clone(),
                scroll: self.detail_scroll,
            },
            Modal::Diff => ModalScreen::Text {
                title: "Diff",
                body: self.diff_text.clone(),
                scroll: self.diff_scroll,
            },
            Modal::StopConfirm => ModalScreen::Stop { body: self.stop_confirm_text() },
        }
    }

    fn stop_confirm_text(&self) -> (r: String)
        ensures
            r@ == stop_text(self@),
    {
        match &self.focus {
            FocusTarget::Worker(id) => {
                let mut r = "Stop session ".to_string();
                r.append(id.as_str());
                r.append("?\n\nEnter confirms. Esc cancels.");
                r
            },
            FocusTarget::Coordinator => "No session selected.".to_string(),
        }
    }

    /// The title and the text of the notice over the view.
    pub fn render_notice(&self) -> (r: Option<(&'static str, String)>)
        ensures
            match notice_of(self@) {
                Some((title, text)) => r matches Some((got_title, got_text)) && got_title@ == title
                    && got_text@ == text,
                None => r is None,
            },
    {
        if self.leader_pending {
            Some(("Prefix", LEADER_HELP.to_string()))
        } else {
            match &self.toast {
                Some(message) => Some(("Notice", message.clone())),
                None => None,
            }
        }
    }
}

} // verus!
