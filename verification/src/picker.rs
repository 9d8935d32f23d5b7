//! The session picker: what its keys do, and what it asks of the daemon.
use crate::keys::{digit_position, typed, unmodified, KeyCode, KeyEvent};
use crate::picker_style::{
    format_merge_failure_toast, merge_failure, PickerToast, PickerToastKind,
};
use crate::session::{is_session_name, validate_session_name, SessionRecord, SESSION_NAME_RULES};
use crate::session_find::{
    filtered_sessions, first_named, found_session_is_named, matching, session_by_id,
};
use crate::session_list::{accepts_attach, pointed_to, session_accepts_attach};
use crate::text::{opt_view, same, shorten, trim, trimmed, views};
use vstd::prelude::*;
use vstd::string::*;

verus! {

/// The model that a session of the agent `codex` starts with.
pub const CODEX_DEFAULT_MODEL: &'static str = "gpt-5.4";

/// A row of the picker.
#[derive(Debug, PartialEq, Eq)]
pub enum PickerRow {
    Create,
    Session(String),
}

/// What the picker shows.
#[derive(Debug, PartialEq, Eq)]
pub enum PickerMode {
    /// The query, and the sessions that match it.
    Browse,
    /// The agents that a new session can have.
    CreateAgentSelect { selected: usize },
    /// What can be done with a session.
    SessionActions { session_id: String, selected: usize },
    /// The changes of a session.
    DiffView { session_id: String },
    /// Whether a session is to be removed.
    DeleteConfirm { session_id: String, selected: usize },
}

/// What can be done with a session.
#[derive(Clone, Copy, Debug, PartialEq, Eq, Structural)]
pub enum SessionAction {
    Attach,
    Diff,
    Merge,
    Delete,
}

/// What a user answers to a question.
#[derive(Clone, Copy, Debug, PartialEq, Eq, Structural)]
pub enum ConfirmAction {
    Yes,
    No,
}

/// What was typed, and the row that is selected.
#[derive(Debug, PartialEq, Eq)]
pub struct PickerComposer {
    pub query: String,
    pub selected: usize,
}

/// The session picker.
#[derive(Debug)]
pub struct SessionPicker {
    pub sessions: Vec<SessionRecord>,
    pub create_agents: Vec<String>,
    pub composer: PickerComposer,
    pub mode: PickerMode,
    pub detail_text: String,
    pub detail_scroll: usize,
    pub toast: Option<PickerToast>,
}

/// What the picker asks of its caller.
#[derive(Debug, PartialEq, Eq)]
pub enum PickerEffect {
    /// Nothing: the picker goes on.
    Stay,
    /// The picker ends, with a session or without.
    Leave(Option<String>),
    /// The changes of a session are to be loaded.
    LoadDiff(String),
    /// A session is to be merged.
    Merge(String),
    /// A session is to be removed.
    Remove(String),
    /// A session is to be created.
    Create { name: Option<String>, agent: String, model: Option<String> },
}

/// The model of a row.
pub enum RowView {
    Create,
    Session(Seq<char>),
}

/// The model of what the picker shows.
pub enum ModeView {
    Browse,
    CreateAgentSelect { selected: int },
    SessionActions { session_id: Seq<char>, selected: int },
    DiffView { session_id: Seq<char> },
    DeleteConfirm { session_id: Seq<char>, selected: int },
}

/// The model of a message.
pub struct ToastView {
    pub kind: PickerToastKind,
    pub message: Seq<char>,
}

/// The model of the picker.
pub struct PickerView {
    pub sessions: Seq<SessionRecord>,
    pub agents: Seq<Seq<char>>,
    pub query: Seq<char>,
    pub selected: int,
    pub mode: ModeView,
    pub detail_text: Seq<char>,
    pub detail_scroll: int,
    pub toast: Option<ToastView>,
}

/// The model of what the picker asks of its caller.
pub enum EffectView {
    Stay,
    Leave(Option<Seq<char>>),
    LoadDiff(Seq<char>),
    Merge(Seq<char>),
    Remove(Seq<char>),
    Create { name: Option<Seq<char>>, agent: Seq<char>, model: Option<Seq<char>> },
}

impl View for PickerRow {
    type V = RowView;

    open spec fn view(&self) -> RowView {
        match *self {
            PickerRow::Create => RowView::Create,
            PickerRow::Session(id) => RowView::Session(id@),
        }
    }
}

impl View for PickerMode {
    type V = ModeView;

    open spec fn view(&self) -> ModeView {
        match *self {
            PickerMode::Browse => ModeView::Browse,
            PickerMode::CreateAgentSelect { selected } => ModeView::CreateAgentSelect {
                selected: selected as int,
            },
            PickerMode::SessionActions { session_id, selected } => ModeView::SessionActions {
                session_id: session_id@,
                selected: selected as int,
            },
            PickerMode::DiffView { session_id } => ModeView::DiffView { session_id: session_id@ },
            PickerMode::DeleteConfirm { session_id, selected } => ModeView::DeleteConfirm {
                session_id: session_id@,
                selected: selected as int,
            },
        }
    }
}

impl View for PickerEffect {
    type V = EffectView;

    open spec fn view(&self) -> EffectView {
        match *self {
            PickerEffect::Stay => EffectView::Stay,
            PickerEffect::Leave(session_id) => EffectView::Leave(opt_view(session_id)),
            PickerEffect::LoadDiff(session_id) => EffectView::LoadDiff(session_id@),
            PickerEffect::Merge(session_id) => EffectView::Merge(session_id@),
            PickerEffect::Remove(session_id) => EffectView::Remove(session_id@),
            PickerEffect::Create { name, agent, model } => EffectView::Create {
                name: opt_view(name),
                agent: agent@,
                model: opt_view(model),
            },
        }
    }
}

/// The model of a message, if there is one.
pub open spec fn toast_view(toast: Option<PickerToast>) -> Option<ToastView> {
    match toast {
        Some(toast) => Some(ToastView { kind: toast.kind, message: toast.message@ }),
        None => None,
    }
}

impl View for SessionPicker {
    type V = PickerView;

    open spec fn view(&self) -> PickerView {
        PickerView {
            sessions: self.sessions@,
            agents: views(self.create_agents@),
            query: self.composer.query@,
            selected: self.composer.selected as int,
            mode: self.mode@,
            detail_text: self.detail_text@,
            detail_scroll: self.detail_scroll as int,
            toast: toast_view(self.toast),
        }
    }
}

/// A number, or a bound where it is larger.
pub open spec fn at_most(a: int, b: int) -> int {
    if a < b {
        a
    } else {
        b
    }
}

/// A number, or a bound where it is smaller.
pub open spec fn at_least(a: int, b: int) -> int {
    if a < b {
        b
    } else {
        a
    }
}

/// A message of a success.
pub open spec fn notice(message: Seq<char>) -> Option<ToastView> {
    Some(ToastView { kind: PickerToastKind::Notice, message })
}

/// A message of a failure.
pub open spec fn failure(message: Seq<char>) -> Option<ToastView> {
    Some(ToastView { kind: PickerToastKind::Error, message })
}

/// What is said of a name that no session may have.
pub open spec fn invalid_name_message() -> Seq<char> {
    "invalid session name: "@ + SESSION_NAME_RULES@
}

/// What can be done with a session: attaching to it where it runs, merging it where it has
/// commits.
pub open spec fn actions_for(session: SessionRecord) -> Seq<SessionAction> {
    let first = if accepts_attach(session) {
        seq![SessionAction::Attach]
    } else {
        Seq::empty()
    };
    let third = if session.has_commits {
        seq![SessionAction::Merge]
    } else {
        Seq::empty()
    };
    first + seq![SessionAction::Diff] + third + seq![SessionAction::Delete]
}

/// Where an action stands among others, from `i` on; first where it is not among them.
pub open spec fn position_of(actions: Seq<SessionAction>, action: SessionAction, i: int) -> int
    decreases actions.len() - i,
{
    if i < 0 || i >= actions.len() {
        0
    } else if actions[i] == action {
        i
    } else {
        position_of(actions, action, i + 1)
    }
}

/// Where a text stands among others, from `i` on; first where it is not among them.
pub open spec fn position_of_text(texts: Seq<Seq<char>>, text: Seq<char>, i: int) -> int
    decreases texts.len() - i,
{
    if i < 0 || i >= texts.len() {
        0
    } else if texts[i] == text {
        i
    } else {
        position_of_text(texts, text, i + 1)
    }
}

impl PickerView {
    /// The rows: the sessions that match the query, and one to create a session.
    pub open spec fn rows(self) -> Seq<RowView> {
        let found = matching(self.sessions, self.query);
        Seq::new(found.len(), |i: int| RowView::Session(found[i].session_id@)).push(
            RowView::Create,
        )
    }

    /// What can be done with a session; nothing with one that is not there.
    pub open spec fn actions(self, session_id: Seq<char>) -> Seq<SessionAction> {
        match first_named(self.sessions, session_id) {
            Some(session) => actions_for(session),
            None => Seq::empty(),
        }
    }

    /// The name that was typed for a new session, if a session may have it.
    pub open spec fn requested_name(self) -> Option<Seq<char>> {
        if is_session_name(trimmed(self.query)) {
            Some(trimmed(self.query))
        } else {
            None
        }
    }

    /// Whether a name was typed that no session may have.
    pub open spec fn name_is_refused(self) -> bool {
        trimmed(self.query).len() > 0 && self.requested_name() is None
    }

    /// The picker with a row selected that is there.
    pub open spec fn selection_clamped(self) -> PickerView {
        PickerView { selected: at_most(self.selected, self.rows().len() - 1), ..self }
    }

    /// The picker with an entry of its menu selected that is there; it goes back to the rows
    /// where the menu has lost its session or all of its entries.
    pub open spec fn mode_clamped(self) -> PickerView {
        PickerView {
            mode: match self.mode {
                ModeView::Browse => ModeView::Browse,
                ModeView::CreateAgentSelect { selected } => if self.agents.len() == 0 {
                    ModeView::Browse
                } else {
                    ModeView::CreateAgentSelect {
                        selected: at_most(selected, self.agents.len() - 1),
                    }
                },
                ModeView::SessionActions { session_id, selected } => if first_named(
                    self.sessions,
                    session_id,
                ) is None {
                    ModeView::Browse
                } else {
                    ModeView::SessionActions {
                        session_id,
                        selected: at_most(selected, self.actions(session_id).len() - 1),
                    }
                },
                ModeView::DiffView { session_id } => if first_named(
                    self.sessions,
                    session_id,
                ) is None {
                    ModeView::Browse
                } else {
                    self.mode
                },
                ModeView::DeleteConfirm { session_id, selected } => if first_named(
                    self.sessions,
                    session_id,
                ) is None {
                    ModeView::Browse
                } else {
                    ModeView::DeleteConfirm { session_id, selected: at_most(selected, 1) }
                },
            },
            ..self
        }
    }

    /// The picker in another mode.
    pub open spec fn in_mode(self, mode: ModeView) -> PickerView {
        PickerView { mode, ..self }
    }

    /// The picker with the menu of a session open.
    pub open spec fn with_action_menu(self, session_id: Seq<char>) -> PickerView {
        PickerView {
            toast: None,
            mode: ModeView::SessionActions { session_id, selected: 0 },
            ..self
        }.mode_clamped()
    }

    /// The picker with the menu of agents open, on the agent that is used by default.
    pub open spec fn with_agent_menu(self, default_agent: Seq<char>) -> PickerView {
        PickerView {
            toast: None,
            mode: ModeView::CreateAgentSelect {
                selected: position_of_text(self.agents, default_agent, 0),
            },
            ..self
        }.mode_clamped()
    }

    /// The picker back at the menu of a session, on an action.
    pub open spec fn back_at(self, session_id: Seq<char>, action: SessionAction) -> PickerView {
        self.in_mode(
            ModeView::SessionActions {
                session_id,
                selected: position_of(self.actions(session_id), action, 0),
            },
        )
    }

    /// What asking for a session with an agent comes to.
    pub open spec fn creating(self, agent: Seq<char>) -> (PickerView, EffectView) {
        if self.name_is_refused() {
            (PickerView { toast: failure(invalid_name_message()), ..self }, EffectView::Stay)
        } else {
            (
                self,
                EffectView::Create {
                    name: self.requested_name(),
                    agent,
                    model: if agent == "codex"@ {
                        Some(CODEX_DEFAULT_MODEL@)
                    } else {
                        None
                    },
                },
            )
        }
    }

    /// What an action on a session comes to.
    pub open spec fn acting(self, session_id: Seq<char>, action: SessionAction) -> (
        PickerView,
        EffectView,
    ) {
        match action {
            SessionAction::Attach => (self, EffectView::Leave(Some(session_id))),
            SessionAction::Diff => (self, EffectView::LoadDiff(session_id)),
            SessionAction::Merge => (self, EffectView::Merge(session_id)),
            SessionAction::Delete => (
                PickerView {
                    toast: None,
                    mode: ModeView::DeleteConfirm { session_id, selected: 1 },
                    ..self
                }.mode_clamped(),
                EffectView::Stay,
            ),
        }
    }

    /// What a key does at the rows.
    pub open spec fn browse_key(self, key: KeyEvent, default_agent: Seq<char>) -> (
        PickerView,
        EffectView,
    ) {
        match key.code {
            KeyCode::Esc => (self, EffectView::Leave(None)),
            KeyCode::Up => (
                PickerView { selected: at_least(self.selected - 1, 0), ..self },
                EffectView::Stay,
            ),
            KeyCode::Down => if self.selected + 1 < self.rows().len() {
                (PickerView { selected: self.selected + 1, ..self }, EffectView::Stay)
            } else {
                (self, EffectView::Stay)
            },
            KeyCode::Backspace => (
                PickerView {
                    toast: None,
                    query: if self.query.len() > 0 {
                        self.query.drop_last()
                    } else {
                        self.query
                    },
                    ..self
                }.selection_clamped(),
                EffectView::Stay,
            ),
            KeyCode::Enter => if self.selected < self.rows().len() - 1 {
                (
                    self.with_action_menu(self.rows()[self.selected]->Session_0),
                    EffectView::Stay,
                )
            } else if self.name_is_refused() {
                (PickerView { toast: failure(invalid_name_message()), ..self }, EffectView::Stay)
            } else {
                (self.with_agent_menu(default_agent), EffectView::Stay)
            },
            _ => match typed(key) {
                Some(c) => (
                    PickerView { toast: None, query: self.query.push(c), selected: 0, ..self },
                    EffectView::Stay,
                ),
                None => (self, EffectView::Stay),
            },
        }
    }

    /// What a key does at the menu of agents.
    pub open spec fn agent_key(self, key: KeyEvent, selected: int) -> (PickerView, EffectView) {
        match key.code {
            KeyCode::Esc => (self.in_mode(ModeView::Browse), EffectView::Stay),
            KeyCode::Up => (
                self.in_mode(
                    ModeView::CreateAgentSelect { selected: at_least(selected - 1, 0) },
                ).mode_clamped(),
                EffectView::Stay,
            ),
            KeyCode::Down => (
                self.in_mode(ModeView::CreateAgentSelect { selected: selected + 1 }).mode_clamped(),
                EffectView::Stay,
            ),
            KeyCode::Enter => if selected < self.agents.len() {
                self.creating(self.agents[selected])
            } else {
                (self, EffectView::Stay)
            },
            _ => match digit_position(key) {
                Some(i) => if i < self.agents.len() {
                    self.creating(self.agents[i])
                } else {
                    (self, EffectView::Stay)
                },
                None => (self, EffectView::Stay),
            },
        }
    }

    /// What a key does at the menu of a session.
    pub open spec fn action_key(self, key: KeyEvent, session_id: Seq<char>, selected: int) -> (
        PickerView,
        EffectView,
    ) {
        let actions = self.actions(session_id);
        match key.code {
            KeyCode::Esc => (self.in_mode(ModeView::Browse), EffectView::Stay),
            KeyCode::Up => (
                self.in_mode(
                    ModeView::SessionActions { session_id, selected: at_least(selected - 1, 0) },
                ).mode_clamped(),
                EffectView::Stay,
            ),
            KeyCode::Down => (
                self.in_mode(
                    ModeView::SessionActions { session_id, selected: selected + 1 },
                ).mode_clamped(),
                EffectView::Stay,
            ),
            KeyCode::Enter => if selected < actions.len() {
                self.acting(session_id, actions[selected])
            } else {
                (self, EffectView::Stay)
            },
            _ => match digit_position(key) {
                Some(i) => if i < actions.len() {
                    self.acting(session_id, actions[i])
                } else {
                    (self, EffectView::Stay)
                },
                None => (self, EffectView::Stay),
            },
        }
    }

    /// What a key does where a session is to be removed.
    pub open spec fn confirm_key(self, key: KeyEvent, session_id: Seq<char>, selected: int) -> (
        PickerView,
        EffectView,
    ) {
        let back = self.back_at(session_id, SessionAction::Delete);
        match key.code {
            KeyCode::Esc => (back, EffectView::Stay),
            KeyCode::Up => (
                self.in_mode(
                    ModeView::DeleteConfirm { session_id, selected: at_least(selected - 1, 0) },
                ).mode_clamped(),
                EffectView::Stay,
            ),
            KeyCode::Down => (
                self.in_mode(
                    ModeView::DeleteConfirm { session_id, selected: at_most(selected + 1, 1) },
                ).mode_clamped(),
                EffectView::Stay,
            ),
            KeyCode::Enter => if selected == 0 {
                (self, EffectView::Remove(session_id))
            } else {
                (back, EffectView::Stay)
            },
            KeyCode::Char(c) => if c == 'y' && unmodified(key) {
                (self, EffectView::Remove(session_id))
            } else if c == 'n' && unmodified(key) {
                (back, EffectView::Stay)
            } else {
                (self, EffectView::Stay)
            },
            _ => (self, EffectView::Stay),
        }
    }

    /// What a key does where the changes of a session are shown.
    pub open spec fn diff_key(self, key: KeyEvent, session_id: Seq<char>) -> (
        PickerView,
        EffectView,
    ) {
        let max = usize::MAX as int;
        match key.code {
            KeyCode::Esc => (self.back_at(session_id, SessionAction::Diff), EffectView::Stay),
            KeyCode::Up => (
                PickerView { detail_scroll: at_least(self.detail_scroll - 1, 0), ..self },
                EffectView::Stay,
            ),
            KeyCode::Down => (
                PickerView { detail_scroll: at_most(self.detail_scroll + 1, max), ..self },
                EffectView::Stay,
            ),
            KeyCode::PageUp => (
                PickerView { detail_scroll: at_least(self.detail_scroll - 10, 0), ..self },
                EffectView::Stay,
            ),
            KeyCode::PageDown => (
                PickerView { detail_scroll: at_most(self.detail_scroll + 10, max), ..self },
                EffectView::Stay,
            ),
            _ => (self, EffectView::Stay),
        }
    }

    /// What a key does.
    pub open spec fn key(self, key: KeyEvent, default_agent: Seq<char>) -> (
        PickerView,
        EffectView,
    ) {
        match self.mode {
            ModeView::Browse => self.browse_key(key, default_agent),
            ModeView::CreateAgentSelect { selected } => self.agent_key(key, selected),
            ModeView::SessionActions { session_id, selected } => self.action_key(
                key,
                session_id,
                selected,
            ),
            ModeView::DiffView { session_id } => self.diff_key(key, session_id),
            ModeView::DeleteConfirm { session_id, selected } => self.confirm_key(
                key,
                session_id,
                selected,
            ),
        }
    }

    /// The picker with other sessions and agents; the agent `codex` where there is none.
    pub open spec fn refreshed(self, sessions: Seq<SessionRecord>, agents: Seq<Seq<char>>) -> PickerView {
        let named = if agents.len() == 0 {
            seq!["codex"@]
        } else {
            agents
        };
        PickerView { sessions, agents: named, ..self }.selection_clamped().mode_clamped()
    }

    /// Whether what is selected is there: a row, and an entry of the menu that is open.
    pub open spec fn selection_is_there(self) -> bool {
        &&& 0 <= self.selected < self.rows().len()
        &&& match self.mode {
            ModeView::Browse => true,
            ModeView::CreateAgentSelect { selected } => 0 <= selected < self.agents.len(),
            ModeView::SessionActions { session_id, selected } => 0 <= selected < self.actions(
                session_id,
            ).len(),
            ModeView::DiffView { session_id } => first_named(self.sessions, session_id) is Some,
            ModeView::DeleteConfirm { session_id, selected } => 0 <= selected <= 1 && first_named(
                self.sessions,
                session_id,
            ) is Some,
        }
    }
}

// ---------------------------------------------------------------------------
// The picker
// ---------------------------------------------------------------------------
/// The models of rows.
pub open spec fn row_views(rows: Seq<PickerRow>) -> Seq<RowView> {
    Seq::new(rows.len(), |i: int| rows[i]@)
}

/// The agents that a new session can have: those of the configuration, or `codex` where it has
/// none.
pub fn configured_agent_names(configured: Vec<String>) -> (r: Vec<String>)
    ensures
        r@.len() > 0,
        configured@.len() > 0 ==> r@ == configured@,
        configured@.len() == 0 ==> views(r@) == seq!["codex"@],
{
    let mut names = configured;
    if names.len() == 0 {
        names.push("codex".to_string());
        assert(views(names@) =~= seq!["codex"@]);
    }
    names
}

fn invalid_name_text() -> (r: String)
    ensures
        r@ == invalid_name_message(),
{
    let mut r = "invalid session name: ".to_string();
    r.append(SESSION_NAME_RULES);
    r
}

/// The model that a session of an agent starts with.
pub fn default_model(agent: &str) -> (r: Option<String>)
    ensures
        opt_view(r) == (if agent@ == "codex"@ {
            Some(CODEX_DEFAULT_MODEL@)
        } else {
            None
        }),
{
    if same(agent, "codex") {
        Some(CODEX_DEFAULT_MODEL.to_string())
    } else {
        None
    }
}

impl SessionAction {
    /// The name of this action.
    pub open spec fn name(self) -> Seq<char> {
        match self {
            SessionAction::Attach => "attach"@,
            SessionAction::Diff => "diff"@,
            SessionAction::Merge => "merge"@,
            SessionAction::Delete => "delete"@,
        }
    }

    /// The name of this action.
    pub fn label(self) -> (r: &'static str)
        ensures
            r@ == self.name(),
    {
        match self {
            SessionAction::Attach => "attach",
            SessionAction::Diff => "diff",
            SessionAction::Merge => "merge",
            SessionAction::Delete => "delete",
        }
    }
}

impl SessionPicker {
    /// The picker before anything was typed or loaded.
    pub fn new(configured_agents: Vec<String>) -> (r: SessionPicker)
        ensures
            r@.sessions == Seq::<SessionRecord>::empty(),
            r@.agents.len() > 0,
            configured_agents@.len() > 0 ==> r@.agents == views(configured_agents@),
            configured_agents@.len() == 0 ==> r@.agents == seq!["codex"@],
            r@.query == Seq::<char>::empty(),
            r@.selected == 0,
            r@.mode == ModeView::Browse,
            r@.detail_text == Seq::<char>::empty(),
            r@.detail_scroll == 0,
            r@.toast is None,
    {
        SessionPicker {
            sessions: Vec::new(),
            create_agents: configured_agent_names(configured_agents),
            composer: PickerComposer { query: String::new(), selected: 0 },
            mode: PickerMode::Browse,
            detail_text: String::new(),
            detail_scroll: 0,
            toast: None,
        }
    }

    /// The rows.
    pub fn picker_rows(&self) -> (r: Vec<PickerRow>)
        ensures
            row_views(r@) == self@.rows(),
    {
        let found = filtered_sessions(&self.sessions, self.composer.query.as_str());
        let ghost due = matching(self@.sessions, self@.query);
        let mut rows: Vec<PickerRow> = Vec::new();
        let mut i: usize = 0;
        while i < found.len()
            invariant
                i <= found.len(),
                pointed_to(found@) == due,
                rows@.len() == i,
                forall|k: int|
                    0 <= k < i ==> (#[trigger] rows@[k])@ == RowView::Session(due[k].session_id@),
            decreases found.len() - i,
        {
            assert(pointed_to(found@)[i as int] == due[i as int]);
            rows.push(PickerRow::Session(found[i].session_id.clone()));
            i = i + 1;
        }
        rows.push(PickerRow::Create);
        assert(row_views(rows@) =~= self@.rows());
        rows
    }

    /// The session with a name.
    pub fn session_by_id(&self, session_id: &str) -> (r: Option<&SessionRecord>)
        ensures
            match r {
                Some(session) => first_named(self@.sessions, session_id@) == Some(*session)
                    && self@.sessions.contains(*session),
                None => first_named(self@.sessions, session_id@) is None,
            },
    {
        session_by_id(&self.sessions, session_id)
    }

    /// What can be done with a session.
    pub fn action_items(&self, session_id: &str) -> (r: Vec<SessionAction>)
        ensures
            r@ == self@.actions(session_id@),
    {
        let session = match self.session_by_id(session_id) {
            Some(session) => session,
            None => {
                let none: Vec<SessionAction> = Vec::new();
                assert(none@ =~= Seq::empty());
                return none;
            },
        };
        let mut actions: Vec<SessionAction> = Vec::new();
        if session_accepts_attach(session) {
            actions.push(SessionAction::Attach);
        }
        actions.push(SessionAction::Diff);
        if session.has_commits {
            actions.push(SessionAction::Merge);
        }
        actions.push(SessionAction::Delete);
        assert(actions@ =~= actions_for(*session));
        actions
    }

    /// Where an action stands in the menu of a session.
    pub fn action_index(&self, session_id: &str, action: SessionAction) -> (r: usize)
        ensures
            r == position_of(self@.actions(session_id@), action, 0),
    {
        let actions = self.action_items(session_id);
        let mut i: usize = 0;
        while i < actions.len()
            invariant
                i <= actions.len(),
                actions@ == self@.actions(session_id@),
                position_of(actions@, action, 0) == position_of(actions@, action, i as int),
            decreases actions.len() - i,
        {
            if actions[i] == action {
                return i;
            }
            i = i + 1;
        }
        0
    }

    /// The name that was typed for a new session, if a session may have it.
    pub fn composer_requested_name(&self) -> (r: Option<String>)
        ensures
            opt_view(r) == self@.requested_name(),
    {
        let trimmed = trim(self.composer.query.as_str());
        match validate_session_name(trimmed.as_str()) {
            Ok(()) => Some(trimmed),
            Err(_) => None,
        }
    }

    fn name_is_refused(&self) -> (r: bool)
        ensures
            r == self@.name_is_refused(),
    {
        let trimmed = trim(self.composer.query.as_str());
        !trimmed.as_str().is_empty() && self.composer_requested_name().is_none()
    }

    /// Selects a row that is there.
    pub fn clamp_selection(&mut self)
        ensures
            final(self)@ == old(self)@.selection_clamped(),
    {
        let rows = self.picker_rows();
        let last: usize = rows.len() - 1;
        if self.composer.selected > last {
            self.composer.selected = last;
        }
        assert(row_views(rows@).len() == rows@.len());
    }

    /// Selects an entry of the open menu that is there, or goes back to the rows.
    pub fn clamp_mode_selection(&mut self)
        ensures
            final(self)@ == old(self)@.mode_clamped(),
    {
        let ghost before = self@;
        match &self.mode {
            PickerMode::Browse => {},
            PickerMode::CreateAgentSelect { selected } => {
                let len: usize = self.create_agents.len();
                let selected: usize = *selected;
                if len == 0 {
                    self.mode = PickerMode::Browse;
                } else if selected > len - 1 {
                    self.mode = PickerMode::CreateAgentSelect { selected: len - 1 };
                }
            },
            PickerMode::SessionActions { session_id, selected } => {
                let session_id = session_id.clone();
                let selected: usize = *selected;
                let len: usize = self.action_items(session_id.as_str()).len();
                if len == 0 || self.session_by_id(session_id.as_str()).is_none() {
                    self.mode = PickerMode::Browse;
                } else if selected > len - 1 {
                    self.mode = PickerMode::SessionActions { session_id, selected: len - 1 };
                }
            },
            PickerMode::DiffView { session_id } => {
                let session_id = session_id.clone();
                if self.session_by_id(session_id.as_str()).is_none() {
                    self.mode = PickerMode::Browse;
                }
            },
            PickerMode::DeleteConfirm { session_id, selected } => {
                let session_id = session_id.clone();
                let selected: usize = *selected;
                if self.session_by_id(session_id.as_str()).is_none() {
                    self.mode = PickerMode::Browse;
                } else if selected > 1 {
                    self.mode = PickerMode::DeleteConfirm { session_id, selected: 1 };
                }
            },
        }
        assert(self@.agents =~= before.agents);
    }

    /// Opens the menu of a session.
    pub fn open_action_menu(&mut self, session_id: &str)
        ensures
            final(self)@ == old(self)@.with_action_menu(session_id@),
    {
        self.toast = None;
        self.mode = PickerMode::SessionActions { session_id: session_id.to_string(), selected: 0 };
        self.clamp_mode_selection();
    }

    /// Opens the menu of agents, on the agent that is used by default.
    pub fn open_create_agent_menu(&mut self, default_agent: &str)
        ensures
            final(self)@ == old(self)@.with_agent_menu(default_agent@),
    {
        self.toast = None;
        self.mode = PickerMode::CreateAgentSelect {
            selected: self.default_create_agent_selection(default_agent),
        };
        self.clamp_mode_selection();
    }

    /// Where the agent that is used by default stands in the menu.
    pub fn default_create_agent_selection(&self, default_agent: &str) -> (r: usize)
        ensures
            r == position_of_text(self@.agents, default_agent@, 0),
    {
        let ghost agents = self@.agents;
        let mut i: usize = 0;
        while i < self.create_agents.len()
            invariant
                i <= self.create_agents.len(),
                agents == views(self.create_agents@),
                position_of_text(agents, default_agent@, 0) == position_of_text(
                    agents,
                    default_agent@,
                    i as int,
                ),
            decreases self.create_agents.len() - i,
        {
            assert(agents[i as int] == self.create_agents@[i as int]@);
            if same(self.create_agents[i].as_str(), default_agent) {
                return i;
            }
            i = i + 1;
        }
        0
    }

    fn set_mode_back(&mut self, session_id: &str, action: SessionAction)
        ensures
            final(self)@ == old(self)@.back_at(session_id@, action),
    {
        self.mode = PickerMode::SessionActions {
            session_id: session_id.to_string(),
            selected: self.action_index(session_id, action),
        };
    }

    fn create_session_with_agent(&mut self, agent: &str) -> (r: PickerEffect)
        ensures
            (final(self)@, r@) == old(self)@.creating(agent@),
    {
        if self.name_is_refused() {
            self.toast = Some(PickerToast::error(invalid_name_text()));
            return PickerEffect::Stay;
        }
        PickerEffect::Create {
            name: self.composer_requested_name(),
            agent: agent.to_string(),
            model: default_model(agent),
        }
    }

    fn run_session_action(&mut self, session_id: &str, action: SessionAction) -> (r: PickerEffect)
        ensures
            (final(self)@, r@) == old(self)@.acting(session_id@, action),
    {
        match action {
            SessionAction::Attach => PickerEffect::Leave(Some(session_id.to_string())),
            SessionAction::Diff => PickerEffect::LoadDiff(session_id.to_string()),
            SessionAction::Merge => PickerEffect::Merge(session_id.to_string()),
            SessionAction::Delete => {
                self.toast = None;
                self.mode = PickerMode::DeleteConfirm {
                    session_id: session_id.to_string(),
                    selected: 1,
                };
                self.clamp_mode_selection();
                PickerEffect::Stay
            },
        }
    }

    /// Takes a key at the rows.
    pub fn handle_composer_key(&mut self, key: KeyEvent, default_agent: &str) -> (r: PickerEffect)
        ensures
            (final(self)@, r@) == old(self)@.browse_key(key, default_agent@),
    {
        let rows = self.picker_rows();
        assert(row_views(rows@).len() == rows@.len());
        match key.code {
            KeyCode::Esc => {
                return PickerEffect::Leave(None);
            },
            KeyCode::Up => {
                self.composer.selected = self.composer.selected.saturating_sub(1);
            },
            KeyCode::Down => {
                if self.composer.selected < rows.len() - 1 {
                    self.composer.selected = self.composer.selected + 1;
                }
            },
            KeyCode::Backspace => {
                self.toast = None;
                self.composer.query = shorten(self.composer.query.as_str());
                self.clamp_selection();
            },
            KeyCode::Enter => {
                let selected: usize = self.composer.selected;
                if selected < rows.len() {
                    assert(row_views(rows@)[selected as int] == rows@[selected as int]@);
                    match &rows[selected] {
                        PickerRow::Session(session_id) => {
                            self.open_action_menu(session_id.as_str());
                            return PickerEffect::Stay;
                        },
                        PickerRow::Create => {},
                    }
                }
                if self.name_is_refused() {
                    self.toast = Some(PickerToast::error(invalid_name_text()));
                } else {
                    self.open_create_agent_menu(default_agent);
                }
            },
            _ => {
                match key.typed_char() {
                    Some(c) => {
                        self.toast = None;
                        self.composer.query.push(c);
                        self.composer.selected = 0;
                    },
                    None => {},
                }
            },
        }
        PickerEffect::Stay
    }

    /// Takes a key at the menu of agents.
    pub fn handle_create_agent_key(&mut self, key: KeyEvent, selected: usize) -> (r: PickerEffect)
        ensures
            (final(self)@, r@) == old(self)@.agent_key(key, selected as int),
    {
        let agent_count: usize = self.create_agents.len();
        assert(self@.agents.len() == agent_count);
        match key.code {
            KeyCode::Esc => {
                self.mode = PickerMode::Browse;
            },
            KeyCode::Up => {
                self.mode = PickerMode::CreateAgentSelect { selected: selected.saturating_sub(1) };
                self.clamp_mode_selection();
            },
            KeyCode::Down => {
                self.mode = PickerMode::CreateAgentSelect { selected: selected.saturating_add(1) };
                self.clamp_mode_selection();
            },
            KeyCode::Enter => {
                if selected < agent_count {
                    assert(self@.agents[selected as int]
                        == self.create_agents@[selected as int]@);
                    let agent = self.create_agents[selected].clone();
                    return self.create_session_with_agent(agent.as_str());
                }
            },
            _ => {
                match key.position() {
                    Some(index) => {
                        if index < agent_count {
                            assert(self@.agents[index as int]
                                == self.create_agents@[index as int]@);
                            let agent = self.create_agents[index].clone();
                            return self.create_session_with_agent(agent.as_str());
                        }
                    },
                    None => {},
                }
            },
        }
        PickerEffect::Stay
    }

    /// Takes a key at the menu of a session.
    pub fn handle_action_menu_key(&mut self, key: KeyEvent, session_id: &str, selected: usize) -> (r:
        PickerEffect)
        ensures
            (final(self)@, r@) == old(self)@.action_key(key, session_id@, selected as int),
    {
        let actions = self.action_items(session_id);
        match key.code {
            KeyCode::Esc => {
                self.mode = PickerMode::Browse;
            },
            KeyCode::Up => {
                self.mode = PickerMode::SessionActions {
                    session_id: session_id.to_string(),
                    selected: selected.saturating_sub(1),
                };
                self.clamp_mode_selection();
            },
            KeyCode::Down => {
                self.mode = PickerMode::SessionActions {
                    session_id: session_id.to_string(),
                    selected: selected.saturating_add(1),
                };
                self.clamp_mode_selection();
            },
            KeyCode::Enter => {
                if selected < actions.len() {
                    return self.run_session_action(session_id, actions[selected]);
                }
            },
            _ => {
                match key.position() {
                    Some(index) => {
                        if index < actions.len() {
                            return self.run_session_action(session_id, actions[index]);
                        }
                    },
                    None => {},
                }
            },
        }
        PickerEffect::Stay
    }

    /// Takes a key where a session is to be removed.
    pub fn handle_delete_confirm_key(&mut self, key: KeyEvent, session_id: &str, selected: usize) -> (r:
        PickerEffect)
        requires
            selected <= 1,
        ensures
            (final(self)@, r@) == old(self)@.confirm_key(key, session_id@, selected as int),
    {
        match key.code {
            KeyCode::Esc => {
                self.set_mode_back(session_id, SessionAction::Delete);
            },
            KeyCode::Up => {
                self.mode = PickerMode::DeleteConfirm {
                    session_id: session_id.to_string(),
                    selected: selected.saturating_sub(1),
                };
                self.clamp_mode_selection();
            },
            KeyCode::Down => {
                self.mode = PickerMode::DeleteConfirm {
                    session_id: session_id.to_string(),
                    selected: 1,
                };
                self.clamp_mode_selection();
            },
            KeyCode::Enter => {
                if selected == 0 {
                    return PickerEffect::Remove(session_id.to_string());
                }
                self.set_mode_back(session_id, SessionAction::Delete);
            },
            KeyCode::Char(c) => {
                if c == 'y' && key.is_unmodified() {
                    return PickerEffect::Remove(session_id.to_string());
                }
                if c == 'n' && key.is_unmodified() {
                    self.set_mode_back(session_id, SessionAction::Delete);
                }
            },
            _ => {},
        }
        PickerEffect::Stay
    }

    /// Takes a key where the changes of a session are shown.
    pub fn handle_diff_view_key(&mut self, key: KeyEvent, session_id: &str) -> (r: PickerEffect)
        ensures
            (final(self)@, r@) == old(self)@.diff_key(key, session_id@),
    {
        match key.code {
            KeyCode::Esc => {
                self.set_mode_back(session_id, SessionAction::Diff);
            },
            KeyCode::Up => {
                self.detail_scroll = self.detail_scroll.saturating_sub(1);
            },
            KeyCode::Down => {
                self.detail_scroll = self.detail_scroll.saturating_add(1);
            },
            KeyCode::PageUp => {
                self.detail_scroll = self.detail_scroll.saturating_sub(10);
            },
            KeyCode::PageDown => {
                self.detail_scroll = self.detail_scroll.saturating_add(10);
            },
            _ => {},
        }
        PickerEffect::Stay
    }

    /// Takes a key.
    pub fn handle_key(&mut self, key: KeyEvent, default_agent: &str) -> (r: PickerEffect)
        requires
            old(self)@.mode matches ModeView::DeleteConfirm { selected, .. } ==> selected <= 1,
        ensures
            (final(self)@, r@) == old(self)@.key(key, default_agent@),
    {
        match &self.mode {
            PickerMode::Browse => self.handle_composer_key(key, default_agent),
            PickerMode::CreateAgentSelect { selected } => {
                let selected: usize = *selected;
                self.handle_create_agent_key(key, selected)
            },
            PickerMode::SessionActions { session_id, selected } => {
                let session_id = session_id.clone();
                let selected: usize = *selected;
                self.handle_action_menu_key(key, session_id.as_str(), selected)
            },
            PickerMode::DiffView { session_id } => {
                let session_id = session_id.clone();
                self.handle_diff_view_key(key, session_id.as_str())
            },
            PickerMode::DeleteConfirm { session_id, selected } => {
                let session_id = session_id.clone();
                let selected: usize = *selected;
                self.handle_delete_confirm_key(key, session_id.as_str(), selected)
            },
        }
    }

    /// Takes a text that was pasted: it goes to the query, and nowhere else.
    pub fn handle_paste(&mut self, data: &str)
        ensures
            final(self)@ == (if old(self)@.mode == ModeView::Browse {
                PickerView {
                    toast: None,
                    query: old(self)@.query + data@,
                    selected: 0,
                    ..old(self)@
                }
            } else {
                old(self)@
            }),
    {
        match self.mode {
            PickerMode::Browse => {},
            _ => {
                return;
            },
        }
        self.toast = None;
        self.composer.query.append(data);
        self.composer.selected = 0;
    }

    /// Takes the sessions of the daemon and the agents of the configuration.
    pub fn refresh_sessions(&mut self, sessions: Vec<SessionRecord>, agents: Vec<String>)
        ensures
            final(self)@ == old(self)@.refreshed(sessions@, views(agents@)),
    {
        self.sessions = sessions;
        self.refresh_agent_names(agents);
        self.clamp_selection();
        self.clamp_mode_selection();
    }

    fn refresh_agent_names(&mut self, agents: Vec<String>)
        ensures
            final(self)@ == (PickerView {
                agents: if agents@.len() == 0 {
                    seq!["codex"@]
                } else {
                    views(agents@)
                },
                ..old(self)@
            }),
    {
        self.create_agents = configured_agent_names(agents);
    }

    /// Takes the changes of a session, or why they could not be loaded, and shows them.
    pub fn diff_loaded(&mut self, session_id: &str, diff: Result<String, String>)
        ensures
            final(self)@ == (match diff {
                Ok(text) => PickerView {
                    detail_text: text@,
                    detail_scroll: 0,
                    mode: ModeView::DiffView { session_id: session_id@ },
                    ..old(self)@
                },
                Err(message) => PickerView {
                    toast: failure(message@),
                    mode: ModeView::DiffView { session_id: session_id@ },
                    ..old(self)@
                },
            }),
    {
        match diff {
            Ok(text) => {
                self.detail_text = text;
                self.detail_scroll = 0;
            },
            Err(message) => {
                self.toast = Some(PickerToast::error(message));
            },
        }
        self.mode = PickerMode::DiffView { session_id: session_id.to_string() };
    }

    /// Takes that a session was merged, with the sessions and agents of then.
    pub fn session_merged(
        &mut self,
        merged_id: &str,
        sessions: Vec<SessionRecord>,
        agents: Vec<String>,
    )
        ensures
            final(self)@ == (PickerView {
                toast: notice("merged "@ + merged_id@),
                mode: ModeView::Browse,
                ..old(self)@.refreshed(sessions@, views(agents@))
            }),
    {
        self.refresh_sessions(sessions, agents);
        let mut message = "merged ".to_string();
        message.append(merged_id);
        self.toast = Some(PickerToast::notice(message));
        self.mode = PickerMode::Browse;
    }

    /// Takes that a session could not be merged.
    pub fn merge_failed(&mut self, session_id: &str, message: &str)
        ensures
            final(self)@ == (PickerView {
                toast: failure(merge_failure(session_id@, message@)),
                mode: ModeView::Browse,
                ..old(self)@
            }),
    {
        self.toast = Some(PickerToast::error(format_merge_failure_toast(session_id, message)));
        self.mode = PickerMode::Browse;
    }

    /// Takes that a session was removed, with the sessions and agents of then.
    pub fn session_removed(
        &mut self,
        session_id: &str,
        sessions: Vec<SessionRecord>,
        agents: Vec<String>,
    )
        ensures
            final(self)@ == (PickerView {
                toast: notice("removed session "@ + session_id@),
                mode: ModeView::Browse,
                ..old(self)@.refreshed(sessions@, views(agents@))
            }),
    {
        self.refresh_sessions(sessions, agents);
        self.mode = PickerMode::Browse;
        let mut message = "removed session ".to_string();
        message.append(session_id);
        self.toast = Some(PickerToast::notice(message));
    }

    /// Takes the session that was created, or why none was.
    pub fn session_created(&mut self, created: Result<String, String>) -> (r: PickerEffect)
        ensures
            match created {
                Ok(session_id) => r@ == EffectView::Leave(Some(session_id@)) && final(self)@
                    == old(self)@,
                Err(message) => r@ == EffectView::Stay && final(self)@ == (PickerView {
                    toast: failure(message@),
                    ..old(self)@
                }),
            },
    {
        match created {
            Ok(session_id) => PickerEffect::Leave(Some(session_id)),
            Err(message) => {
                self.toast = Some(PickerToast::error(message));
                PickerEffect::Stay
            },
        }
    }

    /// Whether the changes of a session are shown.
    pub fn is_diff_view(&self) -> (r: bool)
        ensures
            r == (self@.mode is DiffView),
    {
        match self.mode {
            PickerMode::DiffView { .. } => true,
            _ => false,
        }
    }
}

// ---------------------------------------------------------------------------
// Laws
// ---------------------------------------------------------------------------
/// After a refresh, what is selected is there, whatever sessions and agents have come or gone.
pub proof fn refresh_keeps_selection_there(
    picker: PickerView,
    sessions: Seq<SessionRecord>,
    agents: Seq<Seq<char>>,
)
    requires
        0 <= picker.selected,
        match picker.mode {
            ModeView::CreateAgentSelect { selected } => 0 <= selected,
            ModeView::SessionActions { selected, .. } => 0 <= selected,
            ModeView::DeleteConfirm { selected, .. } => 0 <= selected,
            _ => true,
        },
    ensures
        picker.refreshed(sessions, agents).selection_is_there(),
{
}

/// No key takes the selection off what is there.
pub proof fn keys_keep_selection_there(picker: PickerView, key: KeyEvent, default_agent: Seq<char>)
    requires
        picker.selection_is_there(),
    ensures
        picker.key(key, default_agent).0.selection_is_there(),
{
    if picker.mode == ModeView::Browse {
        let found = matching(picker.sessions, picker.query);
        if key.code == KeyCode::Enter && picker.selected < picker.rows().len() - 1 {
            let session = found[picker.selected];
            assert(found.contains(session));
            crate::session_find::matching_is_exact(picker.sessions, picker.query, session);
            found_session_is_named(picker.sessions, session.session_id@);
            let k = choose|k: int|
                0 <= k < picker.sessions.len() && picker.sessions[k] == session;
            assert(picker.sessions[k].session_id@ == session.session_id@);
        }
        position_of_text_bounds(picker.agents, default_agent, 0);
    }
    if let ModeView::DiffView { session_id } = picker.mode {
        diff_and_delete_are_offered(picker.sessions, session_id);
    }
    if let ModeView::DeleteConfirm { session_id, .. } = picker.mode {
        diff_and_delete_are_offered(picker.sessions, session_id);
    }
}

proof fn position_of_text_bounds(texts: Seq<Seq<char>>, text: Seq<char>, i: int)
    ensures
        0 <= position_of_text(texts, text, i),
        position_of_text(texts, text, i) == 0 || position_of_text(texts, text, i) < texts.len(),
    decreases texts.len() - i,
{
    if 0 <= i < texts.len() && texts[i] != text {
        position_of_text_bounds(texts, text, i + 1);
    }
}

proof fn position_bounds(actions: Seq<SessionAction>, action: SessionAction, i: int)
    ensures
        0 <= position_of(actions, action, i),
        position_of(actions, action, i) == 0 || position_of(actions, action, i) < actions.len(),
    decreases actions.len() - i,
{
    if 0 <= i < actions.len() && actions[i] != action {
        position_bounds(actions, action, i + 1);
    }
}

proof fn diff_and_delete_are_offered(sessions: Seq<SessionRecord>, session_id: Seq<char>)
    ensures
        first_named(sessions, session_id) matches Some(session) ==> {
            let actions = actions_for(session);
            &&& actions.len() >= 2
            &&& 0 <= position_of(actions, SessionAction::Diff, 0) < actions.len()
            &&& 0 <= position_of(actions, SessionAction::Delete, 0) < actions.len()
        },
{
    if first_named(sessions, session_id) is Some {
        let actions = actions_for(first_named(sessions, session_id)->0);
        position_bounds(actions, SessionAction::Diff, 0);
        position_bounds(actions, SessionAction::Delete, 0);
    }
}

/// The row that creates a session is always there, and last.
pub proof fn create_row_is_last(picker: PickerView)
    ensures
        picker.rows().len() > 0,
        picker.rows().last() == RowView::Create,
{
}

/// To clamp twice is to clamp once.
pub proof fn clamping_is_idempotent(picker: PickerView)
    ensures
        picker.selection_clamped().selection_clamped() == picker.selection_clamped(),
        picker.mode_clamped().mode_clamped() == picker.mode_clamped(),
{
}

} // verus!
