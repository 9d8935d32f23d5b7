//! The state of the full-screen view: what keys, timers and answers of the daemon do to it.
use crate::keys::{typed, KeyCode, KeyEvent};
use crate::overlay::{yes_no, yes_or_no};
use crate::picker::{at_least, at_most, default_model, CODEX_DEFAULT_MODEL};
use crate::session::{SessionRecord, SessionStatus};
use crate::session_find::{first_named, session_by_id, status_label, status_name};
use crate::session_list::{all_valid, pointed_to};
use crate::text::{
    matches_query, opt_view, query_matches, same, shorten, shortened, trim, trimmed, views,
};
use crate::time::Timestamp;
use crate::tui::badge::{
    by_urgency, ordered_sessions, rank, session_rank, session_switcher_text, switcher_text,
};
use crate::tui::palette::{commands_matching, filtered_palette_items, item_views, palette, Command};
use crate::tui::pty::{FocusedPty, PtyView};
use vstd::prelude::*;
use vstd::string::*;

verus! {

/// How long the view waits before it goes to a session that was created, in milliseconds.
pub const PENDING_FOCUS_MS: u64 = 1_200;

/// What the view is focused on.
#[derive(Debug, PartialEq, Eq)]
pub enum FocusTarget {
    Coordinator,
    Worker(String),
}

/// What covers the view.
#[derive(Clone, Copy, Debug, PartialEq, Eq, Structural)]
pub enum Modal {
    /// Nothing.
    Closed,
    Palette,
    WorktreeActions,
    GitStatus,
    Diff,
    StopConfirm,
}

/// What is being typed.
#[derive(Clone, Copy, Debug, PartialEq, Eq, Structural)]
pub enum ComposerField {
    Query,
    Agent,
}

/// A row of the composer.
#[derive(Debug, PartialEq, Eq)]
pub enum ComposerRow {
    Create,
    Session(String),
}

/// Where sessions are searched for and created.
#[derive(Debug)]
pub struct InlineComposer {
    pub active: bool,
    pub query: String,
    pub agent_input: String,
    pub selected: usize,
    pub field: ComposerField,
    pub status_lines: Vec<String>,
}

/// The full-screen view.
#[derive(Debug)]
pub struct RuntimeApp {
    pub sessions: Vec<SessionRecord>,
    pub focus: FocusTarget,
    pub leader_pending: bool,
    pub modal: Modal,
    pub palette_query: String,
    pub palette_selected: usize,
    pub composer: InlineComposer,
    pub diff_text: String,
    pub diff_scroll: u16,
    pub detail_text: String,
    pub detail_scroll: u16,
    pub toast: Option<String>,
    pub pending_focus: Option<(String, u64)>,
    pub pty: Option<FocusedPty>,
    pub last_pane_size: Option<(u16, u16)>,
    pub focused_history_key: Option<(String, Timestamp)>,
    pub focused_history: String,
}

/// What the view asks of its caller.
#[derive(Debug, PartialEq, Eq)]
pub enum RuntimeEffect {
    /// Nothing: the view goes on.
    Stay,
    /// The view ends.
    Quit,
    /// Input for the session in focus.
    SendInput(Vec<u8>),
    /// The changes of a session are to be loaded.
    LoadDiff(String),
    /// A session is to be stopped.
    Stop(String),
    /// A session is to be created.
    Create { title: Option<String>, agent: String, model: Option<String> },
}

/// What is to be done about the terminal of the session in focus.
#[derive(Debug, PartialEq, Eq)]
pub enum PtyPlan {
    /// Nothing.
    Keep,
    /// The connection is to be closed, if there is one.
    Stop,
    /// The connection is to be closed, if there is one, and one to this session opened.
    Attach(String),
}

/// What is to be done about the history of the session in focus.
#[derive(Debug, PartialEq, Eq)]
pub enum HistoryPlan {
    /// Nothing.
    Keep,
    /// The history of a session, as of a point in time, is to be loaded.
    Load(String, Timestamp),
}

// ---------------------------------------------------------------------------
// Models
// ---------------------------------------------------------------------------
/// The model of what the view is focused on.
pub enum FocusView {
    Coordinator,
    Worker(Seq<char>),
}

/// The model of a row of the composer.
pub enum ComposerRowView {
    Create,
    Session(Seq<char>),
}

/// The model of the composer.
pub struct ComposerView {
    pub active: bool,
    pub query: Seq<char>,
    pub agent_input: Seq<char>,
    pub selected: int,
    pub field: ComposerField,
    pub status_lines: Seq<Seq<char>>,
}

/// The model of the view.
pub struct RuntimeView {
    pub sessions: Seq<SessionRecord>,
    pub focus: FocusView,
    pub leader_pending: bool,
    pub modal: Modal,
    pub palette_query: Seq<char>,
    pub palette_selected: int,
    pub composer: ComposerView,
    pub diff_text: Seq<char>,
    pub diff_scroll: int,
    pub detail_text: Seq<char>,
    pub detail_scroll: int,
    pub toast: Option<Seq<char>>,
    pub pending_focus: Option<(Seq<char>, int)>,
    pub pty: Option<PtyView>,
    pub last_pane_size: Option<(u16, u16)>,
    pub history_key: Option<(Seq<char>, Timestamp)>,
    pub history: Seq<char>,
}

/// The model of what the view asks of its caller.
pub enum RuntimeEffectView {
    Stay,
    Quit,
    SendInput(Seq<u8>),
    LoadDiff(Seq<char>),
    Stop(Seq<char>),
    Create { title: Option<Seq<char>>, agent: Seq<char>, model: Option<Seq<char>> },
}

/// The model of what is to be done about the terminal.
pub enum PtyPlanView {
    Keep,
    Stop,
    Attach(Seq<char>),
}

/// The model of what is to be done about the history.
pub enum HistoryPlanView {
    Keep,
    Load(Seq<char>, Timestamp),
}

impl View for FocusTarget {
    type V = FocusView;

    open spec fn view(&self) -> FocusView {
        match *self {
            FocusTarget::Coordinator => FocusView::Coordinator,
            FocusTarget::Worker(id) => FocusView::Worker(id@),
        }
    }
}

impl View for ComposerRow {
    type V = ComposerRowView;

    open spec fn view(&self) -> ComposerRowView {
        match *self {
            ComposerRow::Create => ComposerRowView::Create,
            ComposerRow::Session(id) => ComposerRowView::Session(id@),
        }
    }
}

impl View for InlineComposer {
    type V = ComposerView;

    open spec fn view(&self) -> ComposerView {
        ComposerView {
            active: self.active,
            query: self.query@,
            agent_input: self.agent_input@,
            selected: self.selected as int,
            field: self.field,
            status_lines: views(self.status_lines@),
        }
    }
}

impl View for RuntimeApp {
    type V = RuntimeView;

    open spec fn view(&self) -> RuntimeView {
        RuntimeView {
            sessions: self.sessions@,
            focus: self.focus@,
            leader_pending: self.leader_pending,
            modal: self.modal,
            palette_query: self.palette_query@,
            palette_selected: self.palette_selected as int,
            composer: self.composer@,
            diff_text: self.diff_text@,
            diff_scroll: self.diff_scroll as int,
            detail_text: self.detail_text@,
            detail_scroll: self.detail_scroll as int,
            toast: opt_view(self.toast),
            pending_focus: match self.pending_focus {
                Some((id, deadline)) => Some((id@, deadline as int)),
                None => None,
            },
            pty: match self.pty {
                Some(pty) => Some(pty@),
                None => None,
            },
            last_pane_size: self.last_pane_size,
            history_key: match self.focused_history_key {
                Some((id, at)) => Some((id@, at)),
                None => None,
            },
            history: self.focused_history@,
        }
    }
}

impl View for RuntimeEffect {
    type V = RuntimeEffectView;

    open spec fn view(&self) -> RuntimeEffectView {
        match *self {
            RuntimeEffect::Stay => RuntimeEffectView::Stay,
            RuntimeEffect::Quit => RuntimeEffectView::Quit,
            RuntimeEffect::SendInput(data) => RuntimeEffectView::SendInput(data@),
            RuntimeEffect::LoadDiff(id) => RuntimeEffectView::LoadDiff(id@),
            RuntimeEffect::Stop(id) => RuntimeEffectView::Stop(id@),
            RuntimeEffect::Create { title, agent, model } => RuntimeEffectView::Create {
                title: opt_view(title),
                agent: agent@,
                model: opt_view(model),
            },
        }
    }
}

impl View for PtyPlan {
    type V = PtyPlanView;

    open spec fn view(&self) -> PtyPlanView {
        match *self {
            PtyPlan::Keep => PtyPlanView::Keep,
            PtyPlan::Stop => PtyPlanView::Stop,
            PtyPlan::Attach(id) => PtyPlanView::Attach(id@),
        }
    }
}

impl View for HistoryPlan {
    type V = HistoryPlanView;

    open spec fn view(&self) -> HistoryPlanView {
        match *self {
            HistoryPlan::Keep => HistoryPlanView::Keep,
            HistoryPlan::Load(id, at) => HistoryPlanView::Load(id@, at),
        }
    }
}

/// The models of targets.
pub open spec fn target_views(targets: Seq<FocusTarget>) -> Seq<FocusView> {
    Seq::new(targets.len(), |i: int| targets[i]@)
}

/// The models of rows.
pub open spec fn composer_row_views(rows: Seq<ComposerRow>) -> Seq<ComposerRowView> {
    Seq::new(rows.len(), |i: int| rows[i]@)
}

/// The sessions among some that want attention.
pub open spec fn wanting_attention(sessions: Seq<SessionRecord>) -> Seq<FocusView>
    decreases sessions.len(),
{
    if sessions.len() == 0 {
        Seq::empty()
    } else {
        let front = wanting_attention(sessions.drop_last());
        if rank(sessions.last()) <= 3 {
            front.push(FocusView::Worker(sessions.last().session_id@))
        } else {
            front
        }
    }
}

/// The sessions among some that match a query.
pub open spec fn matching_at(sessions: Seq<SessionRecord>, query: Seq<char>, now: Timestamp) -> Seq<
    SessionRecord,
>
    decreases sessions.len(),
{
    if sessions.len() == 0 {
        Seq::empty()
    } else {
        let front = matching_at(sessions.drop_last(), query, now);
        if query_matches(switcher_text(sessions.last(), now), query) {
            front.push(sessions.last())
        } else {
            front
        }
    }
}

/// Where a target stands among others, from `i` on; first where it is not among them.
pub open spec fn position_of_target(targets: Seq<FocusView>, target: FocusView, i: int) -> int
    decreases targets.len() - i,
{
    if i < 0 || i >= targets.len() {
        0
    } else if targets[i] == target {
        i
    } else {
        position_of_target(targets, target, i + 1)
    }
}

/// What git says of a session.
pub open spec fn git_status_text(session: SessionRecord) -> Seq<char> {
    "repo      "@ + session.repo_name@ + "\nrepo_path  "@ + session.repo_path@ + "\nworktree   "@
        + session.worktree@ + "\nbranch     "@ + session.branch@ + "\nbase       "@
        + session.base_branch@ + "\ngit_sync   "@ + session.git_sync@ + "\nconflicts  "@ + yes_no(
        session.has_conflicts,
    ) + "\n\n"@ + (match session.git_status_summary {
        Some(summary) => summary@,
        None => GIT_STATUS_UNKNOWN@,
    })
}

/// What is said where nothing is known of a worktree.
pub const GIT_STATUS_UNKNOWN: &'static str = "TODO: live git status sync not implemented yet";

/// What can be done with the changes of a session.
pub open spec fn review_text(session: SessionRecord) -> Seq<char> {
    "session    "@ + session.session_id@ + "\nrepo       "@ + session.repo_name@ + "\nbase       "@
        + session.base_branch@ + "\nbranch     "@ + session.branch@ + "\nworktree   "@
        + session.worktree@ + "\nstatus     "@ + status_name(session.status) + "\nreview     "@ + (
    match session.git_status_summary {
        Some(summary) => summary@,
        None => "review ready"@,
    }) + "\nconflicts  "@ + yes_no(session.has_conflicts) + "\n\nCLI actions\nagent diff "@
        + session.session_id@ + "\nagent accept "@ + session.session_id@ + "\nagent discard "@
        + session.session_id@
        + "\n\n`accept` will only apply when the repo checkout is clean and on `"@
        + session.base_branch@
        + "`. It performs a normal git merge and refuses to touch the upstream checkout if preflight predicts conflicts."@
}

impl ComposerView {
    /// The composer without what was said of the last session.
    pub open spec fn without_status(self) -> ComposerView {
        ComposerView { status_lines: Seq::empty(), ..self }
    }
}

impl RuntimeView {
    /// The name of the session in focus.
    pub open spec fn focused_id(self) -> Option<Seq<char>> {
        match self.focus {
            FocusView::Coordinator => None,
            FocusView::Worker(id) => Some(id),
        }
    }

    /// The session in focus, if it is there.
    pub open spec fn focused(self) -> Option<SessionRecord> {
        match self.focused_id() {
            Some(id) => first_named(self.sessions, id),
            None => None,
        }
    }

    /// What the view can be focused on, in its order.
    pub open spec fn targets(self) -> Seq<FocusView> {
        let sessions = by_urgency(self.sessions);
        seq![FocusView::Coordinator] + Seq::new(
            sessions.len(),
            |i: int| FocusView::Worker(sessions[i].session_id@),
        )
    }

    /// The sessions that want attention.
    pub open spec fn attention(self) -> Seq<FocusView> {
        wanting_attention(by_urgency(self.sessions))
    }

    /// The view focused on the next or the previous target, around the end.
    pub open spec fn focus_cycled(self, direction: int, attention_only: bool) -> RuntimeView {
        let targets = if attention_only {
            self.attention()
        } else {
            self.targets()
        };
        if targets.len() == 0 {
            self
        } else {
            let next = (position_of_target(targets, self.focus, 0) + direction)
                % targets.len() as int;
            RuntimeView { focus: targets[next], ..self }
        }
    }

    /// The sessions that match what was typed.
    pub open spec fn composer_matches(self, now: Timestamp) -> Seq<SessionRecord> {
        matching_at(by_urgency(self.sessions), self.composer.query, now)
    }

    /// The rows of the composer: one to create a session, and the sessions that match.
    pub open spec fn rows(self, now: Timestamp) -> Seq<ComposerRowView> {
        let found = self.composer_matches(now);
        seq![ComposerRowView::Create] + Seq::new(
            found.len(),
            |i: int| ComposerRowView::Session(found[i].session_id@),
        )
    }

    /// The view with a row of the composer selected that is there.
    pub open spec fn composer_clamped(self, now: Timestamp) -> RuntimeView {
        RuntimeView {
            composer: ComposerView {
                selected: at_most(self.composer.selected, self.rows(now).len() - 1),
                ..self.composer
            },
            ..self
        }
    }

    /// The view with a row of the composer selected.
    pub open spec fn selecting(self, selected: int) -> RuntimeView {
        RuntimeView { composer: ComposerView { selected, ..self.composer }, ..self }
    }

    /// The view with its composer open: to create a session, or to go to one.
    pub open spec fn composer_opened(
        self,
        field: ComposerField,
        prefer_create: bool,
        now: Timestamp,
    ) -> RuntimeView {
        let opened = RuntimeView {
            focus: FocusView::Coordinator,
            pending_focus: None,
            composer: ComposerView {
                active: true,
                field,
                query: if prefer_create {
                    self.composer.query
                } else {
                    Seq::empty()
                },
                status_lines: Seq::empty(),
                ..self.composer
            },
            ..self
        }.composer_clamped(now);
        if prefer_create {
            opened.selecting(0)
        } else if opened.rows(now).len() > 1 {
            opened.selecting(1)
        } else {
            opened
        }
    }

    /// The view with its composer closed.
    pub open spec fn composer_closed(self) -> RuntimeView {
        RuntimeView {
            pending_focus: None,
            composer: ComposerView {
                active: false,
                field: ComposerField::Query,
                status_lines: Seq::empty(),
                ..self.composer
            },
            ..self
        }
    }

    /// The view with nothing covering it.
    pub open spec fn modal_closed(self) -> RuntimeView {
        RuntimeView {
            modal: Modal::Closed,
            palette_query: Seq::empty(),
            palette_selected: 0,
            detail_scroll: 0,
            ..self
        }
    }

    /// The view with a message.
    pub open spec fn telling(self, message: Seq<char>) -> RuntimeView {
        RuntimeView { toast: Some(message), ..self }
    }

    /// What a command comes to.
    pub open spec fn command(self, command: Command, now: Timestamp) -> (
        RuntimeView,
        RuntimeEffectView,
    ) {
        let unfocused = self.telling("focus a worker session first"@);
        match command {
            Command::NextSession => (self.focus_cycled(1, false), RuntimeEffectView::Stay),
            Command::PreviousSession => (self.focus_cycled(-1, false), RuntimeEffectView::Stay),
            Command::NextAttention => (self.focus_cycled(1, true), RuntimeEffectView::Stay),
            Command::FocusCoordinator => (
                RuntimeView { focus: FocusView::Coordinator, ..self },
                RuntimeEffectView::Stay,
            ),
            Command::SessionSwitcher => (
                self.composer_opened(ComposerField::Query, false, now),
                RuntimeEffectView::Stay,
            ),
            Command::NewSession => (
                self.composer_opened(ComposerField::Query, true, now),
                RuntimeEffectView::Stay,
            ),
            Command::NewAgent => (
                self.composer_opened(ComposerField::Agent, true, now),
                RuntimeEffectView::Stay,
            ),
            Command::WorktreeActions => match self.focused() {
                Some(session) => (
                    RuntimeView {
                        detail_text: review_text(session),
                        detail_scroll: 0,
                        modal: Modal::WorktreeActions,
                        ..self
                    },
                    RuntimeEffectView::Stay,
                ),
                None => (unfocused, RuntimeEffectView::Stay),
            },
            Command::GitStatus => match self.focused() {
                Some(session) => (
                    RuntimeView {
                        detail_text: git_status_text(session),
                        detail_scroll: 0,
                        modal: Modal::GitStatus,
                        ..self
                    },
                    RuntimeEffectView::Stay,
                ),
                None => (unfocused, RuntimeEffectView::Stay),
            },
            Command::Diff => match self.focused_id() {
                Some(id) => (self, RuntimeEffectView::LoadDiff(id)),
                None => (unfocused, RuntimeEffectView::Stay),
            },
            Command::StopSession => if self.focused() is Some {
                (RuntimeView { modal: Modal::StopConfirm, ..self }, RuntimeEffectView::Stay)
            } else {
                (unfocused, RuntimeEffectView::Stay)
            },
        }
    }

    /// What a key does behind the leader key.
    pub open spec fn leader_key(self, key: KeyEvent, now: Timestamp) -> (
        RuntimeView,
        RuntimeEffectView,
    ) {
        match leader_command(key.code) {
            Some(command) => self.command(command, now),
            None => (
                if key.code == KeyCode::Char(' ') {
                    RuntimeView {
                        modal: Modal::Palette,
                        palette_query: Seq::empty(),
                        palette_selected: 0,
                        ..self
                    }
                } else if key.code == KeyCode::Esc {
                    self.telling("leader canceled"@)
                } else {
                    self.telling("unknown leader binding"@)
                },
                RuntimeEffectView::Stay,
            ),
        }
    }

    /// What a key does at the palette.
    pub open spec fn palette_key(self, key: KeyEvent, now: Timestamp) -> (
        RuntimeView,
        RuntimeEffectView,
    ) {
        let items = commands_matching(palette(), self.palette_query);
        match key.code {
            KeyCode::Esc => (self.modal_closed(), RuntimeEffectView::Stay),
            KeyCode::Up => (
                RuntimeView { palette_selected: at_least(self.palette_selected - 1, 0), ..self },
                RuntimeEffectView::Stay,
            ),
            KeyCode::Down => if self.palette_selected + 1 < items.len() {
                (
                    RuntimeView { palette_selected: self.palette_selected + 1, ..self },
                    RuntimeEffectView::Stay,
                )
            } else {
                (self, RuntimeEffectView::Stay)
            },
            KeyCode::Backspace => (
                RuntimeView {
                    palette_query: shortened(self.palette_query),
                    palette_selected: 0,
                    ..self
                },
                RuntimeEffectView::Stay,
            ),
            KeyCode::Enter => if self.palette_selected < items.len() {
                self.modal_closed().command(items[self.palette_selected].command, now)
            } else {
                (self, RuntimeEffectView::Stay)
            },
            _ => match typed(key) {
                Some(c) => (
                    RuntimeView {
                        palette_query: self.palette_query.push(c),
                        palette_selected: 0,
                        ..self
                    },
                    RuntimeEffectView::Stay,
                ),
                None => (self, RuntimeEffectView::Stay),
            },
        }
    }

    /// What a key does where a text is shown.
    pub open spec fn detail_key(self, key: KeyEvent) -> RuntimeView {
        let max = u16::MAX as int;
        match key.code {
            KeyCode::Esc => self.modal_closed(),
            KeyCode::Up => RuntimeView { detail_scroll: at_least(self.detail_scroll - 1, 0), ..self },
            KeyCode::Down => RuntimeView {
                detail_scroll: at_most(self.detail_scroll + 1, max),
                ..self
            },
            KeyCode::PageUp => RuntimeView {
                detail_scroll: at_least(self.detail_scroll - 10, 0),
                ..self
            },
            KeyCode::PageDown => RuntimeView {
                detail_scroll: at_most(self.detail_scroll + 10, max),
                ..self
            },
            _ => self,
        }
    }

    /// What a key does where a session is to be stopped.
    pub open spec fn stop_key(self, key: KeyEvent) -> (RuntimeView, RuntimeEffectView) {
        match key.code {
            KeyCode::Esc => (self.modal_closed(), RuntimeEffectView::Stay),
            KeyCode::Enter => match self.focused_id() {
                Some(id) => (self, RuntimeEffectView::Stop(id)),
                None => (self.modal_closed(), RuntimeEffectView::Stay),
            },
            _ => (self, RuntimeEffectView::Stay),
        }
    }

    /// What a key does where something covers the view.
    pub open spec fn modal_key(self, key: KeyEvent, now: Timestamp) -> (
        RuntimeView,
        RuntimeEffectView,
    ) {
        match self.modal {
            Modal::Closed => (self, RuntimeEffectView::Stay),
            Modal::Palette => self.palette_key(key, now),
            Modal::WorktreeActions => (
                if key.code == KeyCode::Esc || key.code == KeyCode::Enter {
                    self.modal_closed()
                } else {
                    self
                },
                RuntimeEffectView::Stay,
            ),
            Modal::GitStatus | Modal::Diff => (self.detail_key(key), RuntimeEffectView::Stay),
            Modal::StopConfirm => self.stop_key(key),
        }
    }

    /// The view without what was said of the last session, and going nowhere by itself.
    pub open spec fn typing(self) -> RuntimeView {
        RuntimeView { pending_focus: None, composer: self.composer.without_status(), ..self }
    }

    /// The view with another query.
    pub open spec fn with_query(self, query: Seq<char>) -> RuntimeView {
        RuntimeView { composer: ComposerView { query, ..self.composer }, ..self }
    }

    /// The view with another agent typed.
    pub open spec fn with_agent(self, agent_input: Seq<char>) -> RuntimeView {
        RuntimeView { composer: ComposerView { agent_input, ..self.composer }, ..self }
    }

    /// What asking for a session comes to.
    pub open spec fn creating(self) -> (RuntimeView, RuntimeEffectView) {
        let title = trimmed(self.composer.query);
        let agent = trimmed(self.composer.agent_input);
        if agent.len() == 0 {
            (self.telling("agent cannot be empty"@), RuntimeEffectView::Stay)
        } else {
            (
                self,
                RuntimeEffectView::Create {
                    title: if title.len() > 0 {
                        Some(title)
                    } else {
                        None
                    },
                    agent,
                    model: if agent == "codex"@ {
                        Some(CODEX_DEFAULT_MODEL@)
                    } else {
                        None
                    },
                },
            )
        }
    }

    /// What a key does at the composer.
    pub open spec fn composer_key(self, key: KeyEvent, now: Timestamp) -> (
        RuntimeView,
        RuntimeEffectView,
    ) {
        let rows = self.rows(now);
        let selected = self.composer.selected;
        match key.code {
            KeyCode::Esc => (
                if self.composer.query.len() == 0 && self.composer.status_lines.len() == 0 {
                    self.composer_closed()
                } else {
                    self.typing().with_query(Seq::empty()).composer_clamped(now)
                },
                RuntimeEffectView::Stay,
            ),
            KeyCode::Tab => (
                RuntimeView {
                    composer: ComposerView {
                        field: match self.composer.field {
                            ComposerField::Query => ComposerField::Agent,
                            ComposerField::Agent => ComposerField::Query,
                        },
                        ..self.composer
                    },
                    ..self
                },
                RuntimeEffectView::Stay,
            ),
            KeyCode::Backspace => (
                if self.composer.field == ComposerField::Agent {
                    self.typing().with_agent(shortened(self.composer.agent_input))
                } else {
                    self.typing().with_query(shortened(self.composer.query)).composer_clamped(now)
                },
                RuntimeEffectView::Stay,
            ),
            KeyCode::Up => (self.selecting(at_least(selected - 1, 0)), RuntimeEffectView::Stay),
            KeyCode::Down => (
                if selected + 1 < rows.len() {
                    self.selecting(selected + 1)
                } else {
                    self
                },
                RuntimeEffectView::Stay,
            ),
            KeyCode::Enter => if 1 <= selected < rows.len() {
                (
                    RuntimeView {
                        focus: FocusView::Worker(rows[selected]->Session_0),
                        ..self
                    }.composer_closed(),
                    RuntimeEffectView::Stay,
                )
            } else {
                self.creating()
            },
            _ => match typed(key) {
                Some(c) => (
                    if self.composer.field == ComposerField::Agent {
                        self.typing().with_agent(self.composer.agent_input.push(c))
                    } else {
                        let typed = self.typing().with_query(
                            self.composer.query.push(c),
                        ).composer_clamped(now);
                        if typed.rows(now).len() > 1 {
                            typed.selecting(1)
                        } else {
                            typed
                        }
                    },
                    RuntimeEffectView::Stay,
                ),
                None => (self, RuntimeEffectView::Stay),
            },
        }
    }

    /// What a key does. `encoded` is what the key is to the terminal of a session.
    pub open spec fn key(self, key: KeyEvent, encoded: Option<Seq<u8>>, now: Timestamp) -> (
        RuntimeView,
        RuntimeEffectView,
    ) {
        if self.modal != Modal::Closed {
            self.modal_key(key, now)
        } else if self.leader_pending {
            RuntimeView { leader_pending: false, ..self }.leader_key(key, now)
        } else if is_leader(key) {
            (
                RuntimeView { leader_pending: true, ..self }.telling("leader"@),
                RuntimeEffectView::Stay,
            )
        } else if key.code == KeyCode::Char('c') && key.modifiers.control {
            (self, RuntimeEffectView::Quit)
        } else if self.composer.active && self.focus == FocusView::Coordinator {
            self.composer_key(key, now)
        } else if self.pty is Some && self.focus is Worker && encoded is Some {
            (self, RuntimeEffectView::SendInput(encoded->0))
        } else {
            (self, RuntimeEffectView::Stay)
        }
    }

    /// The view with other sessions: the focus goes back to the coordinator where its session is
    /// gone.
    pub open spec fn refreshed(self, sessions: Seq<SessionRecord>, now: Timestamp) -> RuntimeView {
        let with = RuntimeView { sessions, ..self };
        RuntimeView {
            focus: match with.focus {
                FocusView::Worker(id) => if first_named(sessions, id) is Some {
                    with.focus
                } else {
                    FocusView::Coordinator
                },
                FocusView::Coordinator => FocusView::Coordinator,
            },
            ..with
        }.composer_clamped(now)
    }

    /// Whether the session in focus has a terminal to attach to.
    pub open spec fn focus_is_live(self) -> bool {
        self.focused() matches Some(session) && is_live(session.status)
    }

    /// What is to be done about the history of the session in focus, and the view then. A live
    /// session has a terminal in place of a history.
    pub open spec fn history_plan(self) -> (RuntimeView, HistoryPlanView) {
        match self.focused() {
            Some(session) => if is_live(session.status) {
                (RuntimeView { history_key: None, history: Seq::empty(), ..self }, HistoryPlanView::Keep)
            } else if self.history_key == Some((session.session_id@, session.updated_at)) {
                (self, HistoryPlanView::Keep)
            } else {
                (self, HistoryPlanView::Load(session.session_id@, session.updated_at))
            },
            None => (
                RuntimeView { history_key: None, history: Seq::empty(), ..self },
                HistoryPlanView::Keep,
            ),
        }
    }

    /// What is to be done about the terminal of the session in focus, and the view then.
    pub open spec fn pty_plan(self) -> (RuntimeView, PtyPlanView) {
        if !self.focus_is_live() {
            (RuntimeView { pty: None, ..self }, PtyPlanView::Stop)
        } else {
            let id = self.focused_id()->0;
            if self.pty matches Some(pty) && pty.session_id == id {
                (self, PtyPlanView::Keep)
            } else {
                (RuntimeView { pty: Some(fresh_pty(id)), ..self }, PtyPlanView::Attach(id))
            }
        }
    }

    /// The view when a point in time has come, in milliseconds: it goes to the session that was
    /// created, if that was its time.
    pub open spec fn advanced(self, now_ms: int) -> RuntimeView {
        match self.pending_focus {
            Some((id, deadline)) => if now_ms >= deadline {
                RuntimeView {
                    focus: FocusView::Worker(id),
                    pending_focus: None,
                    composer: ComposerView {
                        active: false,
                        status_lines: Seq::empty(),
                        ..self.composer
                    },
                    ..self
                }
            } else {
                self
            },
            None => self,
        }
    }
}

/// The terminal of a session that a connection is made to.
pub open spec fn fresh_pty(id: Seq<char>) -> PtyView {
    PtyView {
        session_id: id,
        screen: crate::terminal::screen::blank_screen(80, 24),
        connected: true,
        last_error: None,
    }
}

/// Whether a session has a terminal to attach to.
pub open spec fn is_live(status: SessionStatus) -> bool {
    status == SessionStatus::Running || status == SessionStatus::NeedsInput
}

/// Whether a key is the leader key, Ctrl-b.
pub open spec fn is_leader(key: KeyEvent) -> bool {
    key.code == KeyCode::Char('b') && key.modifiers.control && !key.modifiers.shift
        && !key.modifiers.other
}

/// The command of a key behind the leader key.
pub open spec fn leader_command(code: KeyCode) -> Option<Command> {
    match code {
        KeyCode::Char(c) => if c == 'n' {
            Some(Command::NextSession)
        } else if c == 'p' {
            Some(Command::PreviousSession)
        } else if c == 'a' {
            Some(Command::NextAttention)
        } else if c == 'c' {
            Some(Command::FocusCoordinator)
        } else if c == 's' {
            Some(Command::SessionSwitcher)
        } else if c == 't' {
            Some(Command::NewSession)
        } else if c == 'w' {
            Some(Command::WorktreeActions)
        } else if c == 'g' {
            Some(Command::GitStatus)
        } else if c == 'd' {
            Some(Command::Diff)
        } else if c == 'x' {
            Some(Command::StopSession)
        } else {
            None
        },
        _ => None,
    }
}

// ---------------------------------------------------------------------------
// The view
// ---------------------------------------------------------------------------
fn same_target(a: &FocusTarget, b: &FocusTarget) -> (r: bool)
    ensures
        r == (a@ == b@),
{
    match (a, b) {
        (FocusTarget::Coordinator, FocusTarget::Coordinator) => true,
        (FocusTarget::Worker(x), FocusTarget::Worker(y)) => same(x.as_str(), y.as_str()),
        _ => false,
    }
}

fn target_position(targets: &Vec<FocusTarget>, target: &FocusTarget) -> (r: usize)
    requires
        targets@.len() > 0,
    ensures
        r == position_of_target(target_views(targets@), target@, 0),
        r < targets@.len(),
{
    let ghost all = target_views(targets@);
    let mut i: usize = 0;
    while i < targets.len()
        invariant
            i <= targets.len(),
            all == target_views(targets@),
            position_of_target(all, target@, 0) == position_of_target(all, target@, i as int),
        decreases targets.len() - i,
    {
        assert(all[i as int] == targets@[i as int]@);
        if same_target(&targets[i], target) {
            return i;
        }
        i = i + 1;
    }
    0
}

fn copy_target(target: &FocusTarget) -> (r: FocusTarget)
    ensures
        r@ == target@,
{
    match target {
        FocusTarget::Coordinator => FocusTarget::Coordinator,
        FocusTarget::Worker(id) => FocusTarget::Worker(id.clone()),
    }
}

/// What git says of a session.
pub fn format_git_status(session: &SessionRecord) -> (r: String)
    ensures
        r@ == git_status_text(*session),
{
    let mut r = "repo      ".to_string();
    r.append(session.repo_name.as_str());
    r.append("\nrepo_path  ");
    r.append(session.repo_path.as_str());
    r.append("\nworktree   ");
    r.append(session.worktree.as_str());
    r.append("\nbranch     ");
    r.append(session.branch.as_str());
    r.append("\nbase       ");
    r.append(session.base_branch.as_str());
    r.append("\ngit_sync   ");
    r.append(session.git_sync.as_str());
    r.append("\nconflicts  ");
    r.append(yes_or_no(session.has_conflicts));
    r.append("\n\n");
    match &session.git_status_summary {
        Some(summary) => r.append(summary.as_str()),
        None => r.append(GIT_STATUS_UNKNOWN),
    }
    r
}

/// What can be done with the changes of a session.
pub fn format_review(session: &SessionRecord) -> (r: String)
    ensures
        r@ == review_text(*session),
{
    let mut r = "session    ".to_string();
    r.append(session.session_id.as_str());
    r.append("\nrepo       ");
    r.append(session.repo_name.as_str());
    r.append("\nbase       ");
    r.append(session.base_branch.as_str());
    r.append("\nbranch     ");
    r.append(session.branch.as_str());
    r.append("\nworktree   ");
    r.append(session.worktree.as_str());
    r.append("\nstatus     ");
    r.append(status_label(session.status));
    r.append("\nreview     ");
    match &session.git_status_summary {
        Some(summary) => r.append(summary.as_str()),
        None => r.append("review ready"),
    }
    r.append("\nconflicts  ");
    r.append(yes_or_no(session.has_conflicts));
    r.append("\n\nCLI actions\nagent diff ");
    r.append(session.session_id.as_str());
    r.append("\nagent accept ");
    r.append(session.session_id.as_str());
    r.append("\nagent discard ");
    r.append(session.session_id.as_str());
    r.append("\n\n`accept` will only apply when the repo checkout is clean and on `");
    r.append(session.base_branch.as_str());
    r.append(
        "`. It performs a normal git merge and refuses to touch the upstream checkout if preflight predicts conflicts.",
    );
    r
}

impl RuntimeApp {
    /// The view at its start: focused on a session, or on the coordinator with its composer open.
    pub fn new(initial_session_id: Option<&str>) -> (r: RuntimeApp)
        ensures
            r@ == (RuntimeView {
                sessions: Seq::empty(),
                focus: match initial_session_id {
                    Some(id) => FocusView::Worker(id@),
                    None => FocusView::Coordinator,
                },
                leader_pending: false,
                modal: Modal::Closed,
                palette_query: Seq::empty(),
                palette_selected: 0,
                composer: ComposerView {
                    active: initial_session_id is None,
                    query: Seq::empty(),
                    agent_input: "codex"@,
                    selected: 0,
                    field: ComposerField::Query,
                    status_lines: Seq::empty(),
                },
                diff_text: Seq::empty(),
                diff_scroll: 0,
                detail_text: Seq::empty(),
                detail_scroll: 0,
                toast: None,
                pending_focus: None,
                pty: None,
                last_pane_size: None,
                history_key: None,
                history: Seq::empty(),
            }),
    {
        let status_lines: Vec<String> = Vec::new();
        assert(views(status_lines@) =~= Seq::empty());
        RuntimeApp {
            sessions: Vec::new(),
            focus: match initial_session_id {
                Some(id) => FocusTarget::Worker(id.to_string()),
                None => FocusTarget::Coordinator,
            },
            leader_pending: false,
            modal: Modal::Closed,
            palette_query: String::new(),
            palette_selected: 0,
            composer: InlineComposer {
                active: initial_session_id.is_none(),
                query: String::new(),
                agent_input: "codex".to_string(),
                selected: 0,
                field: ComposerField::Query,
                status_lines,
            },
            diff_text: String::new(),
            diff_scroll: 0,
            detail_text: String::new(),
            detail_scroll: 0,
            toast: None,
            pending_focus: None,
            pty: None,
            last_pane_size: None,
            focused_history_key: None,
            focused_history: String::new(),
        }
    }

    /// The name of the session in focus.
    pub fn focused_worker_session_id(&self) -> (r: Option<String>)
        ensures
            opt_view(r) == self@.focused_id(),
    {
        match &self.focus {
            FocusTarget::Coordinator => None,
            FocusTarget::Worker(id) => Some(id.clone()),
        }
    }

    /// The session in focus, if it is there.
    pub fn focused_session(&self) -> (r: Option<&SessionRecord>)
        ensures
            match r {
                Some(session) => self@.focused() == Some(*session) && self@.sessions.contains(
                    *session,
                ),
                None => self@.focused() is None,
            },
    {
        match &self.focus {
            FocusTarget::Coordinator => None,
            FocusTarget::Worker(id) => session_by_id(&self.sessions, id.as_str()),
        }
    }

    /// What the view can be focused on, in its order.
    pub fn ordered_targets(&self) -> (r: Vec<FocusTarget>)
        ensures
            target_views(r@) == self@.targets(),
    {
        let sessions = ordered_sessions(&self.sessions);
        let ghost due = by_urgency(self@.sessions);
        let mut r: Vec<FocusTarget> = vec![FocusTarget::Coordinator];
        let mut i: usize = 0;
        while i < sessions.len()
            invariant
                i <= sessions.len(),
                pointed_to(sessions@) == due,
                r@.len() == i + 1,
                r@[0]@ == FocusView::Coordinator,
                forall|k: int|
                    1 <= k <= i ==> (#[trigger] r@[k])@ == FocusView::Worker(
                        due[k - 1].session_id@,
                    ),
            decreases sessions.len() - i,
        {
            assert(pointed_to(sessions@)[i as int] == due[i as int]);
            r.push(FocusTarget::Worker(sessions[i].session_id.clone()));
            i = i + 1;
        }
        assert(target_views(r@) =~= self@.targets());
        r
    }

    /// The sessions that want attention.
    pub fn attention_targets(&self) -> (r: Vec<FocusTarget>)
        ensures
            target_views(r@) == self@.attention(),
    {
        let sessions = ordered_sessions(&self.sessions);
        let ghost due = by_urgency(self@.sessions);
        let mut r: Vec<FocusTarget> = Vec::new();
        let mut i: usize = 0;
        assert(due.take(0) =~= Seq::empty());
        assert(target_views(r@) =~= Seq::empty());
        while i < sessions.len()
            invariant
                i <= sessions.len(),
                pointed_to(sessions@) == due,
                target_views(r@) == wanting_attention(due.take(i as int)),
            decreases sessions.len() - i,
        {
            assert(pointed_to(sessions@)[i as int] == due[i as int]);
            assert(due.take(i as int + 1).drop_last() =~= due.take(i as int));
            let ghost before = r@;
            if session_rank(sessions[i]) <= 3 {
                r.push(FocusTarget::Worker(sessions[i].session_id.clone()));
                assert(target_views(r@) =~= target_views(before).push(
                    FocusView::Worker(due[i as int].session_id@),
                ));
            }
            i = i + 1;
        }
        assert(due.take(due.len() as int) =~= due);
        r
    }

    /// Moves the focus to the next or the previous target, around the end.
    pub fn cycle_focus(&mut self, direction: isize, attention_only: bool)
        requires
            -1 <= direction <= 1,
        ensures
            final(self)@ == old(self)@.focus_cycled(direction as int, attention_only),
    {
        let targets = if attention_only {
            self.attention_targets()
        } else {
            self.ordered_targets()
        };
        let ghost due = target_views(targets@);
        let len: usize = targets.len();
        if len == 0 {
            return;
        }
        let current: usize = target_position(&targets, &self.focus);
        let next: usize = if direction < 0 {
            if current == 0 {
                len - 1
            } else {
                current - 1
            }
        } else if direction == 0 {
            current
        } else {
            if current == len - 1 {
                0
            } else {
                current + 1
            }
        };
        proof {
            let n = len as int;
            let c = current as int;
            if direction < 0 {
                if c == 0 {
                    vstd::arithmetic::div_mod::lemma_mod_add_multiples_vanish(-1, n);
                    vstd::arithmetic::div_mod::lemma_small_mod((n - 1) as nat, n as nat);
                } else {
                    vstd::arithmetic::div_mod::lemma_small_mod((c - 1) as nat, n as nat);
                }
            } else if direction == 0 {
                vstd::arithmetic::div_mod::lemma_small_mod(c as nat, n as nat);
            } else {
                if c == n - 1 {
                    vstd::arithmetic::div_mod::lemma_mod_self_0(n);
                } else {
                    vstd::arithmetic::div_mod::lemma_small_mod((c + 1) as nat, n as nat);
                }
            }
            assert((c + direction) % n == next);
            assert(due[next as int] == targets@[next as int]@);
        }
        self.focus = copy_target(&targets[next]);
    }

    /// The sessions that match what was typed.
    pub fn composer_matches(&self, now: Timestamp) -> (r: Vec<&SessionRecord>)
        requires
            all_valid(self@.sessions),
            now.valid(),
        ensures
            pointed_to(r@) == self@.composer_matches(now),
    {
        let sessions = ordered_sessions(&self.sessions);
        let ghost due = by_urgency(self@.sessions);
        let mut r: Vec<&SessionRecord> = Vec::new();
        let mut i: usize = 0;
        assert(due.take(0) =~= Seq::empty());
        assert(pointed_to(r@) =~= Seq::empty());
        while i < sessions.len()
            invariant
                i <= sessions.len(),
                now.valid(),
                all_valid(self@.sessions),
                pointed_to(sessions@) == due,
                forall|k: int|
                    0 <= k < sessions@.len() ==> self@.sessions.contains(
                        *(#[trigger] sessions@[k]),
                    ),
                pointed_to(r@) == matching_at(due.take(i as int), self@.composer.query, now),
            decreases sessions.len() - i,
        {
            assert(pointed_to(sessions@)[i as int] == due[i as int]);
            assert(due.take(i as int + 1).drop_last() =~= due.take(i as int));
            assert(self@.sessions.contains(*sessions@[i as int]));
            let ghost before = r@;
            let text = session_switcher_text(sessions[i], now);
            if matches_query(text.as_str(), self.composer.query.as_str()) {
                r.push(sessions[i]);
                assert(pointed_to(r@) =~= pointed_to(before).push(due[i as int]));
            }
            i = i + 1;
        }
        assert(due.take(due.len() as int) =~= due);
        r
    }

    /// The rows of the composer.
    pub fn composer_rows(&self, now: Timestamp) -> (r: Vec<ComposerRow>)
        requires
            all_valid(self@.sessions),
            now.valid(),
        ensures
            composer_row_views(r@) == self@.rows(now),
            r@.len() == self@.rows(now).len(),
    {
        let found = self.composer_matches(now);
        let ghost due = self@.composer_matches(now);
        let mut r: Vec<ComposerRow> = vec![ComposerRow::Create];
        let mut i: usize = 0;
        while i < found.len()
            invariant
                i <= found.len(),
                pointed_to(found@) == due,
                r@.len() == i + 1,
                r@[0]@ == ComposerRowView::Create,
                forall|k: int|
                    1 <= k <= i ==> (#[trigger] r@[k])@ == ComposerRowView::Session(
                        due[k - 1].session_id@,
                    ),
            decreases found.len() - i,
        {
            assert(pointed_to(found@)[i as int] == due[i as int]);
            r.push(ComposerRow::Session(found[i].session_id.clone()));
            i = i + 1;
        }
        assert(composer_row_views(r@) =~= self@.rows(now));
        r
    }

    /// Selects a row of the composer that is there.
    pub fn clamp_composer_selection(&mut self, now: Timestamp)
        requires
            all_valid(old(self)@.sessions),
            now.valid(),
        ensures
            final(self)@ == old(self)@.composer_clamped(now),
    {
        let last: usize = self.composer_rows(now).len() - 1;
        if self.composer.selected > last {
            self.composer.selected = last;
        }
    }

    fn clear_status_lines(&mut self)
        ensures
            final(self)@ == (RuntimeView {
                composer: old(self)@.composer.without_status(),
                ..old(self)@
            }),
    {
        self.composer.status_lines = Vec::new();
        assert(views(self.composer.status_lines@) =~= Seq::empty());
    }

    /// Opens the composer.
    pub fn open_composer(&mut self, field: ComposerField, prefer_create: bool, now: Timestamp)
        requires
            all_valid(old(self)@.sessions),
            now.valid(),
        ensures
            final(self)@ == old(self)@.composer_opened(field, prefer_create, now),
    {
        self.focus = FocusTarget::Coordinator;
        self.composer.active = true;
        self.composer.field = field;
        if !prefer_create {
            self.composer.query = String::new();
        }
        self.clear_status_lines();
        self.pending_focus = None;
        self.clamp_composer_selection(now);
        if prefer_create {
            self.composer.selected = 0;
        } else if self.composer_rows(now).len() > 1 {
            self.composer.selected = 1;
        }
    }

    /// Closes the composer.
    pub fn close_composer(&mut self)
        ensures
            final(self)@ == old(self)@.composer_closed(),
    {
        self.composer.active = false;
        self.composer.field = ComposerField::Query;
        self.clear_status_lines();
        self.pending_focus = None;
    }

    /// Closes what covers the view.
    pub fn close_modal(&mut self)
        ensures
            final(self)@ == old(self)@.modal_closed(),
    {
        self.modal = Modal::Closed;
        self.palette_query = String::new();
        self.palette_selected = 0;
        self.detail_scroll = 0;
    }

    fn tell(&mut self, message: &str)
        ensures
            final(self)@ == old(self)@.telling(message@),
    {
        self.toast = Some(message.to_string());
    }

    /// Shows what git says of the session in focus.
    pub fn open_git_status(&mut self)
        ensures
            final(self)@ == (match old(self)@.focused() {
                Some(session) => RuntimeView {
                    detail_text: git_status_text(session),
                    detail_scroll: 0,
                    modal: Modal::GitStatus,
                    ..old(self)@
                },
                None => old(self)@.telling("focus a worker session first"@),
            }),
    {
        let text = match self.focused_session() {
            Some(session) => Some(format_git_status(session)),
            None => None,
        };
        match text {
            Some(text) => {
                self.detail_text = text;
                self.detail_scroll = 0;
                self.modal = Modal::GitStatus;
            },
            None => self.tell("focus a worker session first"),
        }
    }

    /// Shows what can be done with the changes of the session in focus.
    pub fn open_review_actions(&mut self)
        ensures
            final(self)@ == (match old(self)@.focused() {
                Some(session) => RuntimeView {
                    detail_text: review_text(session),
                    detail_scroll: 0,
                    modal: Modal::WorktreeActions,
                    ..old(self)@
                },
                None => old(self)@.telling("focus a worker session first"@),
            }),
    {
        let text = match self.focused_session() {
            Some(session) => Some(format_review(session)),
            None => None,
        };
        match text {
            Some(text) => {
                self.detail_text = text;
                self.detail_scroll = 0;
                self.modal = Modal::WorktreeActions;
            },
            None => self.tell("focus a worker session first"),
        }
    }

    /// Carries out a command.
    pub fn run_command(&mut self, command: Command, now: Timestamp) -> (r: RuntimeEffect)
        requires
            all_valid(old(self)@.sessions),
            now.valid(),
        ensures
            (final(self)@, r@) == old(self)@.command(command, now),
    {
        match command {
            Command::NextSession => self.cycle_focus(1, false),
            Command::PreviousSession => self.cycle_focus(-1, false),
            Command::NextAttention => self.cycle_focus(1, true),
            Command::FocusCoordinator => {
                self.focus = FocusTarget::Coordinator;
            },
            Command::SessionSwitcher => self.open_composer(ComposerField::Query, false, now),
            Command::NewSession => self.open_composer(ComposerField::Query, true, now),
            Command::NewAgent => self.open_composer(ComposerField::Agent, true, now),
            Command::WorktreeActions => self.open_review_actions(),
            Command::GitStatus => self.open_git_status(),
            Command::Diff => {
                match self.focused_worker_session_id() {
                    Some(id) => {
                        return RuntimeEffect::LoadDiff(id);
                    },
                    None => self.tell("focus a worker session first"),
                }
            },
            Command::StopSession => {
                if self.focused_session().is_some() {
                    self.modal = Modal::StopConfirm;
                } else {
                    self.tell("focus a worker session first");
                }
            },
        }
        RuntimeEffect::Stay
    }

    /// Takes a key behind the leader key.
    pub fn handle_leader_key(&mut self, key: KeyEvent, now: Timestamp) -> (r: RuntimeEffect)
        requires
            all_valid(old(self)@.sessions),
            now.valid(),
        ensures
            (final(self)@, r@) == old(self)@.leader_key(key, now),
    {
        let command = match key.code {
            KeyCode::Char('n') => Some(Command::NextSession),
            KeyCode::Char('p') => Some(Command::PreviousSession),
            KeyCode::Char('a') => Some(Command::NextAttention),
            KeyCode::Char('c') => Some(Command::FocusCoordinator),
            KeyCode::Char('s') => Some(Command::SessionSwitcher),
            KeyCode::Char('t') => Some(Command::NewSession),
            KeyCode::Char('w') => Some(Command::WorktreeActions),
            KeyCode::Char('g') => Some(Command::GitStatus),
            KeyCode::Char('d') => Some(Command::Diff),
            KeyCode::Char('x') => Some(Command::StopSession),
            _ => None,
        };
        match command {
            Some(command) => {
                return self.run_command(command, now);
            },
            None => {},
        }
        match key.code {
            KeyCode::Char(' ') => {
                self.modal = Modal::Palette;
                self.palette_query = String::new();
                self.palette_selected = 0;
            },
            KeyCode::Esc => self.tell("leader canceled"),
            _ => self.tell("unknown leader binding"),
        }
        RuntimeEffect::Stay
    }

    /// Takes a key at the palette.
    pub fn handle_palette_key(&mut self, key: KeyEvent, now: Timestamp) -> (r: RuntimeEffect)
        requires
            all_valid(old(self)@.sessions),
            now.valid(),
        ensures
            (final(self)@, r@) == old(self)@.palette_key(key, now),
    {
        let items = filtered_palette_items(self.palette_query.as_str());
        assert(item_views(items@).len() == items@.len());
        match key.code {
            KeyCode::Esc => self.close_modal(),
            KeyCode::Up => {
                self.palette_selected = self.palette_selected.saturating_sub(1);
            },
            KeyCode::Down => {
                if items.len() > 0 && self.palette_selected < items.len() - 1 {
                    self.palette_selected = self.palette_selected + 1;
                }
            },
            KeyCode::Backspace => {
                self.palette_query = shorten(self.palette_query.as_str());
                self.palette_selected = 0;
            },
            KeyCode::Enter => {
                let selected: usize = self.palette_selected;
                if selected < items.len() {
                    assert(item_views(items@)[selected as int] == items@[selected as int]@);
                    self.close_modal();
                    return self.run_command(items[selected].command, now);
                }
            },
            _ => {
                match key.typed_char() {
                    Some(c) => {
                        self.palette_query.push(c);
                        self.palette_selected = 0;
                    },
                    None => {},
                }
            },
        }
        RuntimeEffect::Stay
    }

    /// Takes a key where the text of a diff or of git is shown.
    pub fn handle_detail_modal_key(&mut self, key: KeyEvent)
        ensures
            final(self)@ == old(self)@.detail_key(key),
    {
        match key.code {
            KeyCode::Esc => self.close_modal(),
            KeyCode::Up => {
                self.detail_scroll = self.detail_scroll.saturating_sub(1);
            },
            KeyCode::Down => {
                self.detail_scroll = self.detail_scroll.saturating_add(1);
            },
            KeyCode::PageUp => {
                self.detail_scroll = self.detail_scroll.saturating_sub(10);
            },
            KeyCode::PageDown => {
                self.detail_scroll = self.detail_scroll.saturating_add(10);
            },
            _ => {},
        }
    }

    /// Takes a key where a session is to be stopped.
    pub fn handle_stop_confirm_key(&mut self, key: KeyEvent) -> (r: RuntimeEffect)
        ensures
            (final(self)@, r@) == old(self)@.stop_key(key),
    {
        match key.code {
            KeyCode::Esc => self.close_modal(),
            KeyCode::Enter => {
                match self.focused_worker_session_id() {
                    Some(id) => {
                        return RuntimeEffect::Stop(id);
                    },
                    None => self.close_modal(),
                }
            },
            _ => {},
        }
        RuntimeEffect::Stay
    }

    /// Takes a key where something covers the view.
    pub fn handle_modal_key(&mut self, key: KeyEvent, now: Timestamp) -> (r: RuntimeEffect)
        requires
            all_valid(old(self)@.sessions),
            now.valid(),
        ensures
            (final(self)@, r@) == old(self)@.modal_key(key, now),
    {
        match self.modal {
            Modal::Closed => {},
            Modal::Palette => {
                return self.handle_palette_key(key, now);
            },
            Modal::WorktreeActions => {
                match key.code {
                    KeyCode::Esc | KeyCode::Enter => self.close_modal(),
                    _ => {},
                }
            },
            Modal::GitStatus | Modal::Diff => self.handle_detail_modal_key(key),
            Modal::StopConfirm => {
                return self.handle_stop_confirm_key(key);
            },
        }
        RuntimeEffect::Stay
    }

    fn start_typing(&mut self)
        ensures
            final(self)@ == old(self)@.typing(),
    {
        self.clear_status_lines();
        self.pending_focus = None;
    }

    fn create_session(&mut self) -> (r: RuntimeEffect)
        ensures
            (final(self)@, r@) == old(self)@.creating(),
    {
        let title = trim(self.composer.query.as_str());
        let agent = trim(self.composer.agent_input.as_str());
        if agent.as_str().is_empty() {
            self.tell("agent cannot be empty");
            return RuntimeEffect::Stay;
        }
        let model = default_model(agent.as_str());
        RuntimeEffect::Create {
            title: if title.as_str().is_empty() {
                None
            } else {
                Some(title)
            },
            agent,
            model,
        }
    }

    /// Takes a key at the composer.
    pub fn handle_composer_key(&mut self, key: KeyEvent, now: Timestamp) -> (r: RuntimeEffect)
        requires
            all_valid(old(self)@.sessions),
            now.valid(),
        ensures
            (final(self)@, r@) == old(self)@.composer_key(key, now),
    {
        match key.code {
            KeyCode::Esc => {
                assert(self.composer.status_lines@.len() == self@.composer.status_lines.len());
                if self.composer.query.as_str().is_empty() && self.composer.status_lines.len()
                    == 0 {
                    self.close_composer();
                } else {
                    self.start_typing();
                    self.composer.query = String::new();
                    self.clamp_composer_selection(now);
                }
            },
            KeyCode::Tab => {
                self.composer.field = match self.composer.field {
                    ComposerField::Query => ComposerField::Agent,
                    ComposerField::Agent => ComposerField::Query,
                };
            },
            KeyCode::Backspace => {
                self.start_typing();
                if self.composer.field == ComposerField::Agent {
                    self.composer.agent_input = shorten(self.composer.agent_input.as_str());
                } else {
                    self.composer.query = shorten(self.composer.query.as_str());
                    self.clamp_composer_selection(now);
                }
            },
            KeyCode::Up => {
                self.composer.selected = self.composer.selected.saturating_sub(1);
            },
            KeyCode::Down => {
                let rows = self.composer_rows(now);
                if self.composer.selected < rows.len() - 1 {
                    self.composer.selected = self.composer.selected + 1;
                }
            },
            KeyCode::Enter => {
                let rows = self.composer_rows(now);
                let selected: usize = self.composer.selected;
                if selected < rows.len() {
                    assert(composer_row_views(rows@)[selected as int] == rows@[selected as int]@);
                    match &rows[selected] {
                        ComposerRow::Session(id) => {
                            self.focus = FocusTarget::Worker(id.clone());
                            self.close_composer();
                            return RuntimeEffect::Stay;
                        },
                        ComposerRow::Create => {},
                    }
                }
                return self.create_session();
            },
            _ => {
                match key.typed_char() {
                    Some(c) => {
                        self.start_typing();
                        if self.composer.field == ComposerField::Agent {
                            self.composer.agent_input.push(c);
                        } else {
                            self.composer.query.push(c);
                            self.clamp_composer_selection(now);
                            if self.composer_rows(now).len() > 1 {
                                self.composer.selected = 1;
                            }
                        }
                    },
                    None => {},
                }
            },
        }
        RuntimeEffect::Stay
    }

    /// Takes a key. `encoded` is what the key is to the terminal of a session.
    pub fn handle_key(&mut self, key: KeyEvent, encoded: Option<Vec<u8>>, now: Timestamp) -> (r:
        RuntimeEffect)
        requires
            all_valid(old(self)@.sessions),
            now.valid(),
        ensures
            (final(self)@, r@) == old(self)@.key(
                key,
                match encoded {
                    Some(data) => Some(data@),
                    None => None,
                },
                now,
            ),
    {
        if self.modal != Modal::Closed {
            return self.handle_modal_key(key, now);
        }
        if self.leader_pending {
            self.leader_pending = false;
            return self.handle_leader_key(key, now);
        }
        if key.code == KeyCode::Char('b') && key.modifiers.control && !key.modifiers.shift
            && !key.modifiers.other {
            self.leader_pending = true;
            self.tell("leader");
            return RuntimeEffect::Stay;
        }
        if key.code == KeyCode::Char('c') && key.modifiers.control {
            return RuntimeEffect::Quit;
        }
        let on_worker = match self.focus {
            FocusTarget::Coordinator => false,
            FocusTarget::Worker(_) => true,
        };
        if self.composer.active && !on_worker {
            return self.handle_composer_key(key, now);
        }
        if self.pty.is_some() && on_worker {
            match encoded {
                Some(data) => {
                    return RuntimeEffect::SendInput(data);
                },
                None => {},
            }
        }
        RuntimeEffect::Stay
    }

    /// Takes the sessions of the daemon.
    pub fn refresh_sessions(&mut self, sessions: Vec<SessionRecord>, now: Timestamp)
        requires
            all_valid(sessions@),
            now.valid(),
        ensures
            final(self)@ == old(self)@.refreshed(sessions@, now),
    {
        self.sessions = sessions;
        let gone = match &self.focus {
            FocusTarget::Coordinator => false,
            FocusTarget::Worker(id) => session_by_id(&self.sessions, id.as_str()).is_none(),
        };
        if gone {
            self.focus = FocusTarget::Coordinator;
        }
        self.clamp_composer_selection(now);
    }

    /// Tells what is to be done about the history of the session in focus.
    pub fn plan_history(&mut self) -> (r: HistoryPlan)
        ensures
            (final(self)@, r@) == old(self)@.history_plan(),
    {
        let target = match self.focused_session() {
            Some(session) => Some((session.session_id.clone(), session.updated_at, session.status)),
            None => None,
        };
        match target {
            Some((id, updated_at, status)) => {
                if status == SessionStatus::Running || status == SessionStatus::NeedsInput {
                    self.focused_history_key = None;
                    self.focused_history = String::new();
                    return HistoryPlan::Keep;
                }
                match &self.focused_history_key {
                    Some((known, at)) => {
                        if same(known.as_str(), id.as_str()) && *at == updated_at {
                            return HistoryPlan::Keep;
                        }
                    },
                    None => {},
                }
                HistoryPlan::Load(id, updated_at)
            },
            None => {
                self.focused_history_key = None;
                self.focused_history = String::new();
                HistoryPlan::Keep
            },
        }
    }

    /// Takes the history of a session, as of a point in time.
    pub fn history_loaded(&mut self, session_id: String, updated_at: Timestamp, history: String)
        ensures
            final(self)@ == (RuntimeView {
                history_key: Some((session_id@, updated_at)),
                history: history@,
                ..old(self)@
            }),
    {
        self.focused_history = history;
        self.focused_history_key = Some((session_id, updated_at));
    }

    /// Tells what is to be done about the terminal of the session in focus.
    pub fn plan_pty(&mut self) -> (r: PtyPlan)
        ensures
            (final(self)@, r@) == old(self)@.pty_plan(),
    {
        let live = match self.focused_session() {
            Some(session) => session.status == SessionStatus::Running || session.status
                == SessionStatus::NeedsInput,
            None => false,
        };
        if !live {
            self.pty = None;
            return PtyPlan::Stop;
        }
        match self.focused_worker_session_id() {
            Some(id) => {
                let attached = match &self.pty {
                    Some(pty) => same(pty.session_id.as_str(), id.as_str()),
                    None => false,
                };
                if attached {
                    return PtyPlan::Keep;
                }
                self.pty = Some(FocusedPty::new(id.clone()));
                PtyPlan::Attach(id)
            },
            None => PtyPlan::Stop,
        }
    }

    /// Takes that a point in time has come, in milliseconds.
    pub fn advance_timers(&mut self, now_ms: u64)
        ensures
            final(self)@ == old(self)@.advanced(now_ms as int),
    {
        let due = match &self.pending_focus {
            Some((id, deadline)) => if now_ms >= *deadline {
                Some(id.clone())
            } else {
                None
            },
            None => None,
        };
        match due {
            Some(id) => {
                self.pending_focus = None;
                self.focus = FocusTarget::Worker(id);
                self.composer.active = false;
                self.clear_status_lines();
            },
            None => {},
        }
    }

    /// Takes that the terminal has another size.
    pub fn on_resize(&mut self, width: u16, height: u16)
        ensures
            final(self)@ == (RuntimeView { last_pane_size: Some((width, height)), ..old(self)@ }),
    {
        self.last_pane_size = Some((width, height));
    }

    /// Takes the changes of a session and shows them, or why they could not be loaded.
    pub fn diff_loaded(&mut self, diff: Result<String, String>)
        ensures
            final(self)@ == (match diff {
                Ok(text) => RuntimeView {
                    diff_text: text@,
                    diff_scroll: 0,
                    modal: Modal::Diff,
                    ..old(self)@
                },
                Err(message) => old(self)@.telling(message@),
            }),
    {
        match diff {
            Ok(text) => {
                self.diff_text = text;
                self.diff_scroll = 0;
                self.modal = Modal::Diff;
            },
            Err(message) => {
                self.toast = Some(message);
            },
        }
    }

    /// Takes that a session was stopped.
    pub fn session_stopped(&mut self, session_id: &str)
        ensures
            final(self)@ == (RuntimeView {
                toast: Some("stopped "@ + session_id@),
                focus: FocusView::Coordinator,
                ..old(self)@
            }).modal_closed(),
    {
        let mut message = "stopped ".to_string();
        message.append(session_id);
        self.toast = Some(message);
        self.focus = FocusTarget::Coordinator;
        self.close_modal();
    }

    /// Takes the session that was created at a point in time, in milliseconds.
    pub fn session_created(&mut self, created: &SessionRecord, now_ms: u64)
        requires
            now_ms <= u64::MAX - PENDING_FOCUS_MS,
        ensures
            final(self)@ == (RuntimeView {
                composer: ComposerView {
                    status_lines: seq![
                        "creating git worktree for "@ + created.repo_name@,
                        "base branch  "@ + created.base_branch@,
                        "new branch   "@ + created.branch@,
                        "worktree     "@ + created.worktree@,
                    ],
                    ..old(self)@.composer
                },
                pending_focus: Some((created.session_id@, now_ms + PENDING_FOCUS_MS)),
                toast: Some("created "@ + created.title@),
                ..old(self)@
            }),
    {
        let lines = vec![
            with_label("creating git worktree for ", created.repo_name.as_str()),
            with_label("base branch  ", created.base_branch.as_str()),
            with_label("new branch   ", created.branch.as_str()),
            with_label("worktree     ", created.worktree.as_str()),
        ];
        assert(views(lines@) =~= seq![
            "creating git worktree for "@ + created.repo_name@,
            "base branch  "@ + created.base_branch@,
            "new branch   "@ + created.branch@,
            "worktree     "@ + created.worktree@,
        ]);
        self.composer.status_lines = lines;
        self.pending_focus = Some((created.session_id.clone(), now_ms + PENDING_FOCUS_MS));
        self.toast = Some(with_label("created ", created.title.as_str()));
    }

    /// Takes why a session could not be created.
    pub fn creation_failed(&mut self, message: String)
        ensures
            final(self)@ == old(self)@.telling(message@),
    {
        self.toast = Some(message);
    }
}

fn with_label(label: &str, value: &str) -> (r: String)
    ensures
        r@ == label@ + value@,
{
    let mut r = label.to_string();
    r.append(value);
    r
}

// ---------------------------------------------------------------------------
// Laws
// ---------------------------------------------------------------------------
/// To go to the next target and then back is to stay, where every session has a name of its own
/// and the focus is one of the targets.
pub proof fn previous_undoes_next(view: RuntimeView)
    requires
        view.targets().contains(view.focus),
        forall|i: int, j: int|
            0 <= i < j < view.targets().len() ==> #[trigger] view.targets()[i]
                != #[trigger] view.targets()[j],
    ensures
        view.focus_cycled(1, false).focus_cycled(-1, false) == view,
        view.focus_cycled(-1, false).focus_cycled(1, false) == view,
{
    let targets = view.targets();
    let n = targets.len() as int;
    let c = choose|c: int| 0 <= c < n && targets[c] == view.focus;
    found_at(targets, view.focus, c, 0);
    let up = if c == n - 1 {
        0
    } else {
        c + 1
    };
    let down = if c == 0 {
        n - 1
    } else {
        c - 1
    };
    wraps(c, n);
    wraps(up, n);
    wraps(down, n);
    let next = view.focus_cycled(1, false);
    let previous = view.focus_cycled(-1, false);
    assert(next.focus == targets[up]);
    assert(previous.focus == targets[down]);
    assert(next.targets() == targets);
    assert(previous.targets() == targets);
    found_at(targets, targets[up], up, 0);
    found_at(targets, targets[down], down, 0);
}

proof fn wraps(c: int, n: int)
    requires
        0 <= c < n,
    ensures
        (c + 1) % n == (if c == n - 1 {
            0
        } else {
            c + 1
        }),
        (c - 1) % n == (if c == 0 {
            n - 1
        } else {
            c - 1
        }),
{
    if c == n - 1 {
        vstd::arithmetic::div_mod::lemma_mod_self_0(n);
    } else {
        vstd::arithmetic::div_mod::lemma_small_mod((c + 1) as nat, n as nat);
    }
    if c == 0 {
        vstd::arithmetic::div_mod::lemma_mod_add_multiples_vanish(-1, n);
        vstd::arithmetic::div_mod::lemma_small_mod((n - 1) as nat, n as nat);
    } else {
        vstd::arithmetic::div_mod::lemma_small_mod((c - 1) as nat, n as nat);
    }
}

proof fn found_at(targets: Seq<FocusView>, target: FocusView, c: int, i: int)
    requires
        0 <= i <= c < targets.len(),
        targets[c] == target,
        forall|k: int| i <= k < c ==> #[trigger] targets[k] != target,
    ensures
        position_of_target(targets, target, i) == c,
    decreases c - i,
{
    if i < c {
        found_at(targets, target, c, i + 1);
    }
}

/// After a refresh, the focus is the coordinator or a session that is there, and the selected row
/// of the composer is there.
pub proof fn refresh_keeps_focus_there(
    view: RuntimeView,
    sessions: Seq<SessionRecord>,
    now: Timestamp,
)
    requires
        0 <= view.composer.selected,
    ensures
        ({
            let after = view.refreshed(sessions, now);
            &&& after.focus is Worker ==> after.focused() is Some
            &&& 0 <= after.composer.selected < after.rows(now).len()
        }),
{
    let after = view.refreshed(sessions, now);
    assert(after.rows(now).len() >= 1);
}

/// A terminal is attached exactly while the session in focus is live, and it is that session's.
pub proof fn terminal_follows_focus(view: RuntimeView)
    ensures
        ({
            let (after, _) = view.pty_plan();
            &&& after.pty is Some <==> view.focus_is_live()
            &&& after.pty matches Some(pty) ==> Some(pty.session_id) == view.focused_id()
        }),
{
}

} // verus!
