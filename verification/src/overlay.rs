//! The overlay of an attached client: its commands, and what they ask of the daemon.
use crate::keys::{typed, KeyCode, KeyEvent};
use crate::picker::{at_least, at_most, default_model, CODEX_DEFAULT_MODEL};
use crate::session::{is_session_name, validate_session_name, SessionRecord, SESSION_NAME_RULES};
use crate::session_find::{filtered_sessions, matching};
use crate::session_list::{pointed_to, session_status_text, status_text};
use crate::text::{matches_query, opt_view, query_matches, shorten, shortened, trim, trimmed};
use vstd::prelude::*;
use vstd::string::*;

verus! {

/// A command of the overlay.
#[derive(Clone, Copy, Debug, PartialEq, Eq, Structural)]
pub enum OverlayCommand {
    SessionSwitcher,
    NewSession,
    GitStatus,
    Diff,
    StopSession,
}

/// What the overlay shows.
#[derive(Clone, Copy, Debug, PartialEq, Eq, Structural)]
pub enum OverlayMode {
    Palette,
    SessionSwitcher,
    NewSession { edit_agent: bool },
    GitStatus,
    Diff,
    StopConfirm,
}

/// What closing the overlay comes to.
#[derive(Debug, PartialEq, Eq)]
pub enum OverlayOutcome {
    Close,
    ForwardInput(Vec<u8>),
    SwitchSession(String),
}

/// What the overlay asks of its caller.
#[derive(Debug, PartialEq, Eq)]
pub enum OverlayEffect {
    /// Nothing: the overlay goes on.
    Stay,
    /// The overlay closes.
    Finish(OverlayOutcome),
    /// The sessions are to be loaded for the switcher.
    LoadSessions,
    /// The session is to be loaded.
    LoadSession,
    /// The changes of the session are to be loaded.
    LoadDiff,
    /// The session is to be stopped.
    Stop,
    /// A session is to be created.
    Create { name: Option<String>, agent: String, model: Option<String> },
}

/// What happens to the overlay.
#[derive(Debug, PartialEq, Eq)]
pub enum OverlayEvent {
    /// A key was pressed.
    Key(KeyEvent),
    /// A text was pasted.
    Paste(String),
    /// Anything else.
    Other,
}

/// A command in the palette.
#[derive(Clone, Copy, Debug)]
pub struct PaletteItem {
    pub key_hint: &'static str,
    pub title: &'static str,
    pub command: OverlayCommand,
}

/// The overlay.
#[derive(Debug)]
pub struct AttachOverlay {
    pub session_id: String,
    pub sessions: Vec<SessionRecord>,
    pub mode: OverlayMode,
    pub palette_query: String,
    pub palette_selected: usize,
    pub switcher_query: String,
    pub switcher_selected: usize,
    pub name_input: String,
    pub agent_input: String,
    pub detail_text: String,
    pub detail_scroll: u16,
    pub toast: Option<String>,
}

/// The model of the overlay.
pub struct OverlayView {
    pub session_id: Seq<char>,
    pub sessions: Seq<SessionRecord>,
    pub mode: OverlayMode,
    pub palette_query: Seq<char>,
    pub palette_selected: int,
    pub switcher_query: Seq<char>,
    pub switcher_selected: int,
    pub name_input: Seq<char>,
    pub agent_input: Seq<char>,
    pub detail_text: Seq<char>,
    pub detail_scroll: int,
    pub toast: Option<Seq<char>>,
}

/// The model of what closing the overlay comes to.
pub enum OutcomeView {
    Close,
    ForwardInput(Seq<u8>),
    SwitchSession(Seq<char>),
}

/// The model of what the overlay asks of its caller.
pub enum OverlayEffectView {
    Stay,
    Finish(OutcomeView),
    LoadSessions,
    LoadSession,
    LoadDiff,
    Stop,
    Create { name: Option<Seq<char>>, agent: Seq<char>, model: Option<Seq<char>> },
}

impl View for AttachOverlay {
    type V = OverlayView;

    open spec fn view(&self) -> OverlayView {
        OverlayView {
            session_id: self.session_id@,
            sessions: self.sessions@,
            mode: self.mode,
            palette_query: self.palette_query@,
            palette_selected: self.palette_selected as int,
            switcher_query: self.switcher_query@,
            switcher_selected: self.switcher_selected as int,
            name_input: self.name_input@,
            agent_input: self.agent_input@,
            detail_text: self.detail_text@,
            detail_scroll: self.detail_scroll as int,
            toast: opt_view(self.toast),
        }
    }
}

impl View for OverlayOutcome {
    type V = OutcomeView;

    open spec fn view(&self) -> OutcomeView {
        match *self {
            OverlayOutcome::Close => OutcomeView::Close,
            OverlayOutcome::ForwardInput(data) => OutcomeView::ForwardInput(data@),
            OverlayOutcome::SwitchSession(session_id) => OutcomeView::SwitchSession(session_id@),
        }
    }
}

impl View for OverlayEffect {
    type V = OverlayEffectView;

    open spec fn view(&self) -> OverlayEffectView {
        match *self {
            OverlayEffect::Stay => OverlayEffectView::Stay,
            OverlayEffect::Finish(outcome) => OverlayEffectView::Finish(outcome@),
            OverlayEffect::LoadSessions => OverlayEffectView::LoadSessions,
            OverlayEffect::LoadSession => OverlayEffectView::LoadSession,
            OverlayEffect::LoadDiff => OverlayEffectView::LoadDiff,
            OverlayEffect::Stop => OverlayEffectView::Stop,
            OverlayEffect::Create { name, agent, model } => OverlayEffectView::Create {
                name: opt_view(name),
                agent: agent@,
                model: opt_view(model),
            },
        }
    }
}

// ---------------------------------------------------------------------------
// The palette
// ---------------------------------------------------------------------------
/// The model of a command in the palette.
pub struct PaletteItemView {
    pub key_hint: Seq<char>,
    pub title: Seq<char>,
    pub command: OverlayCommand,
}

impl View for PaletteItem {
    type V = PaletteItemView;

    open spec fn view(&self) -> PaletteItemView {
        PaletteItemView {
            key_hint: self.key_hint@,
            title: self.title@,
            command: self.command,
        }
    }
}

/// The commands of the palette.
pub open spec fn palette() -> Seq<PaletteItemView> {
    seq![
        PaletteItemView {
            key_hint: "s"@,
            title: "Switch Session"@,
            command: OverlayCommand::SessionSwitcher,
        },
        PaletteItemView {
            key_hint: "t"@,
            title: "New Session"@,
            command: OverlayCommand::NewSession,
        },
        PaletteItemView {
            key_hint: "g"@,
            title: "Session Details"@,
            command: OverlayCommand::GitStatus,
        },
        PaletteItemView { key_hint: "d"@, title: "Diff"@, command: OverlayCommand::Diff },
        PaletteItemView {
            key_hint: "x"@,
            title: "Stop Session"@,
            command: OverlayCommand::StopSession,
        },
    ]
}

/// Those of some commands that match a query.
pub open spec fn commands_matching(items: Seq<PaletteItemView>, query: Seq<char>) -> Seq<
    PaletteItemView,
>
    decreases items.len(),
{
    if items.len() == 0 {
        Seq::empty()
    } else {
        let front = commands_matching(items.drop_last(), query);
        if query_matches(items.last().key_hint + " "@ + items.last().title, query) {
            front.push(items.last())
        } else {
            front
        }
    }
}

/// The models of commands.
pub open spec fn item_views(items: Seq<PaletteItem>) -> Seq<PaletteItemView> {
    Seq::new(items.len(), |i: int| items[i]@)
}

/// The commands of the palette.
pub fn palette_items() -> (r: Vec<PaletteItem>)
    ensures
        item_views(r@) == palette(),
{
    let r = vec![
        PaletteItem {
            key_hint: "s",
            title: "Switch Session",
            command: OverlayCommand::SessionSwitcher,
        },
        PaletteItem { key_hint: "t", title: "New Session", command: OverlayCommand::NewSession },
        PaletteItem { key_hint: "g", title: "Session Details", command: OverlayCommand::GitStatus },
        PaletteItem { key_hint: "d", title: "Diff", command: OverlayCommand::Diff },
        PaletteItem { key_hint: "x", title: "Stop Session", command: OverlayCommand::StopSession },
    ];
    assert(item_views(r@) =~= palette());
    r
}

/// The commands that match a query.
pub fn filtered_palette_items(query: &str) -> (r: Vec<PaletteItem>)
    ensures
        item_views(r@) == commands_matching(palette(), query@),
        r@.len() <= 5,
{
    let items = palette_items();
    let ghost all = palette();
    let mut r: Vec<PaletteItem> = Vec::new();
    let mut i: usize = 0;
    assert(all.take(0) =~= Seq::empty());
    assert(item_views(r@) =~= Seq::empty());
    assert(items@.len() == item_views(items@).len());
    while i < items.len()
        invariant
            i <= items.len(),
            items@.len() == 5,
            item_views(items@) == all,
            item_views(r@) == commands_matching(all.take(i as int), query@),
            r@.len() <= i,
        decreases items.len() - i,
    {
        assert(item_views(items@)[i as int] == all[i as int]);
        assert(all.take(i as int + 1).drop_last() =~= all.take(i as int));
        let item = items[i];
        let mut text = item.key_hint.to_string();
        text.append(" ");
        text.append(item.title);
        let ghost before = r@;
        if matches_query(text.as_str(), query) {
            r.push(item);
            assert(item_views(r@) =~= item_views(before).push(item@));
        }
        i = i + 1;
    }
    assert(all.take(all.len() as int) =~= all);
    r
}

// ---------------------------------------------------------------------------
// What events do
// ---------------------------------------------------------------------------
/// What is said of a session in its details.
pub open spec fn details_text(session: SessionRecord) -> Seq<char> {
    "repo      "@ + session.repo_name@ + "\nrepo_path  "@ + session.repo_path@ + "\nworktree   "@
        + session.worktree@ + "\nbranch     "@ + session.branch@ + "\nbase       "@
        + session.base_branch@ + "\ncommits    "@ + yes_no(session.has_commits) + "\npending    "@
        + yes_no(session.has_pending_changes) + "\nstatus     "@ + status_text(session)
}

/// Yes or no.
pub open spec fn yes_no(value: bool) -> Seq<char> {
    if value {
        "yes"@
    } else {
        "no"@
    }
}

/// Yes or no.
pub fn yes_or_no(value: bool) -> (r: &'static str)
    ensures
        r@ == yes_no(value),
{
    if value {
        "yes"
    } else {
        "no"
    }
}

/// What is said of a session in its details.
pub fn format_details(session: &SessionRecord) -> (r: String)
    ensures
        r@ == details_text(*session),
{
    let mut r = "repo      ".to_string();
    r.append(session.repo_name.as_str());
    r.append("\nrepo_path  ");
    r.append(session.repo_path.as_str());
    r.append("\nworktree   ");
    r.append(session.worktree.as_str());
    r.append("\nbranch     ");
    r.append(session.branch.as_str());
    r.append("\nbase       ");
    r.append(session.base_branch.as_str());
    r.append("\ncommits    ");
    r.append(yes_or_no(session.has_commits));
    r.append("\npending    ");
    r.append(yes_or_no(session.has_pending_changes));
    r.append("\nstatus     ");
    r.append(session_status_text(session).as_str());
    r
}

impl OverlayView {
    /// The sessions that match what was typed in the switcher.
    pub open spec fn found(self) -> Seq<SessionRecord> {
        matching(self.sessions, self.switcher_query)
    }

    /// The commands that match what was typed in the palette.
    pub open spec fn commands(self) -> Seq<PaletteItemView> {
        commands_matching(palette(), self.palette_query)
    }

    /// The overlay in another mode.
    pub open spec fn in_mode(self, mode: OverlayMode) -> OverlayView {
        OverlayView { mode, ..self }
    }

    /// The overlay with other sessions, and one of those found selected, if there is one.
    pub open spec fn refreshed(self, sessions: Seq<SessionRecord>) -> OverlayView {
        let with = OverlayView { sessions, ..self };
        OverlayView {
            switcher_selected: if with.switcher_selected >= with.found().len() {
                at_least(with.found().len() - 1, 0)
            } else {
                with.switcher_selected
            },
            ..with
        }
    }

    /// What a command comes to.
    pub open spec fn command(self, command: OverlayCommand) -> (OverlayView, OverlayEffectView) {
        match command {
            OverlayCommand::SessionSwitcher => (self, OverlayEffectView::LoadSessions),
            OverlayCommand::NewSession => (
                OverlayView {
                    mode: OverlayMode::NewSession { edit_agent: false },
                    name_input: Seq::empty(),
                    agent_input: "codex"@,
                    ..self
                },
                OverlayEffectView::Stay,
            ),
            OverlayCommand::GitStatus => (self, OverlayEffectView::LoadSession),
            OverlayCommand::Diff => (self, OverlayEffectView::LoadDiff),
            OverlayCommand::StopSession => (
                self.in_mode(OverlayMode::StopConfirm),
                OverlayEffectView::Stay,
            ),
        }
    }

    /// What a key does at the palette.
    pub open spec fn palette_key(self, key: KeyEvent) -> (OverlayView, OverlayEffectView) {
        let items = self.commands();
        match key.code {
            KeyCode::Esc => (self, OverlayEffectView::Finish(OutcomeView::Close)),
            KeyCode::Enter => if self.palette_selected < items.len() {
                self.command(items[self.palette_selected].command)
            } else {
                (self, OverlayEffectView::Stay)
            },
            KeyCode::Up => (
                OverlayView { palette_selected: at_least(self.palette_selected - 1, 0), ..self },
                OverlayEffectView::Stay,
            ),
            KeyCode::Down => if self.palette_selected + 1 < items.len() {
                (
                    OverlayView { palette_selected: self.palette_selected + 1, ..self },
                    OverlayEffectView::Stay,
                )
            } else {
                (self, OverlayEffectView::Stay)
            },
            KeyCode::Backspace => (
                OverlayView {
                    palette_query: shortened(self.palette_query),
                    palette_selected: 0,
                    ..self
                },
                OverlayEffectView::Stay,
            ),
            _ => if key.code == KeyCode::Char('b') && key.modifiers.control {
                (self, OverlayEffectView::Finish(OutcomeView::ForwardInput(seq![0x02u8])))
            } else {
                match typed(key) {
                    Some(c) => (
                        OverlayView {
                            palette_query: self.palette_query.push(c),
                            palette_selected: 0,
                            ..self
                        },
                        OverlayEffectView::Stay,
                    ),
                    None => (self, OverlayEffectView::Stay),
                }
            },
        }
    }

    /// What a key does at the switcher.
    pub open spec fn switcher_key(self, key: KeyEvent) -> (OverlayView, OverlayEffectView) {
        match key.code {
            KeyCode::Esc => (self.in_mode(OverlayMode::Palette), OverlayEffectView::Stay),
            KeyCode::Up => (
                OverlayView { switcher_selected: at_least(self.switcher_selected - 1, 0), ..self },
                OverlayEffectView::Stay,
            ),
            KeyCode::Down => if self.switcher_selected + 1 < self.found().len() {
                (
                    OverlayView { switcher_selected: self.switcher_selected + 1, ..self },
                    OverlayEffectView::Stay,
                )
            } else {
                (self, OverlayEffectView::Stay)
            },
            KeyCode::Backspace => (
                OverlayView {
                    switcher_query: shortened(self.switcher_query),
                    switcher_selected: 0,
                    ..self
                },
                OverlayEffectView::Stay,
            ),
            KeyCode::Enter => if self.switcher_selected < self.found().len() {
                (
                    self,
                    OverlayEffectView::Finish(
                        OutcomeView::SwitchSession(
                            self.found()[self.switcher_selected].session_id@,
                        ),
                    ),
                )
            } else {
                (self, OverlayEffectView::Stay)
            },
            _ => match typed(key) {
                Some(c) => (
                    OverlayView {
                        switcher_query: self.switcher_query.push(c),
                        switcher_selected: 0,
                        ..self
                    },
                    OverlayEffectView::Stay,
                ),
                None => (self, OverlayEffectView::Stay),
            },
        }
    }

    /// What asking for a session comes to.
    pub open spec fn creating(self) -> (OverlayView, OverlayEffectView) {
        let name = trimmed(self.name_input);
        let agent = trimmed(self.agent_input);
        if agent.len() == 0 {
            (
                OverlayView { toast: Some("agent cannot be empty"@), ..self },
                OverlayEffectView::Stay,
            )
        } else if name.len() > 0 && !is_session_name(name) {
            (
                OverlayView {
                    toast: Some(crate::picker::invalid_name_message()),
                    ..self
                },
                OverlayEffectView::Stay,
            )
        } else {
            (
                self,
                OverlayEffectView::Create {
                    name: if name.len() > 0 {
                        Some(name)
                    } else {
                        None
                    },
                    agent,
                    model: if agent == "codex"@ {
                        Some(CODEX_DEFAULT_MODEL@)
                    } else {
                        None
                    },
                },
            )
        }
    }

    /// What a key does where a session is created.
    pub open spec fn new_session_key(self, key: KeyEvent, edit_agent: bool) -> (
        OverlayView,
        OverlayEffectView,
    ) {
        match key.code {
            KeyCode::Esc => (self.in_mode(OverlayMode::Palette), OverlayEffectView::Stay),
            KeyCode::Tab => (
                self.in_mode(OverlayMode::NewSession { edit_agent: !edit_agent }),
                OverlayEffectView::Stay,
            ),
            KeyCode::Backspace => (
                if edit_agent {
                    OverlayView { agent_input: shortened(self.agent_input), ..self }
                } else {
                    OverlayView { name_input: shortened(self.name_input), ..self }
                },
                OverlayEffectView::Stay,
            ),
            KeyCode::Enter => self.creating(),
            _ => match typed(key) {
                Some(c) => (
                    if edit_agent {
                        OverlayView { agent_input: self.agent_input.push(c), ..self }
                    } else {
                        OverlayView { name_input: self.name_input.push(c), ..self }
                    },
                    OverlayEffectView::Stay,
                ),
                None => (self, OverlayEffectView::Stay),
            },
        }
    }

    /// What a key does where a text is shown.
    pub open spec fn detail_key(self, key: KeyEvent) -> (OverlayView, OverlayEffectView) {
        let max = u16::MAX as int;
        (
            match key.code {
                KeyCode::Esc => self.in_mode(OverlayMode::Palette),
                KeyCode::Up => OverlayView {
                    detail_scroll: at_least(self.detail_scroll - 1, 0),
                    ..self
                },
                KeyCode::Down => OverlayView {
                    detail_scroll: at_most(self.detail_scroll + 1, max),
                    ..self
                },
                KeyCode::PageUp => OverlayView {
                    detail_scroll: at_least(self.detail_scroll - 10, 0),
                    ..self
                },
                KeyCode::PageDown => OverlayView {
                    detail_scroll: at_most(self.detail_scroll + 10, max),
                    ..self
                },
                _ => self,
            },
            OverlayEffectView::Stay,
        )
    }

    /// What a key does where the session is to be stopped.
    pub open spec fn stop_key(self, key: KeyEvent) -> (OverlayView, OverlayEffectView) {
        match key.code {
            KeyCode::Esc => (self.in_mode(OverlayMode::Palette), OverlayEffectView::Stay),
            KeyCode::Enter => (self, OverlayEffectView::Stop),
            _ => (self, OverlayEffectView::Stay),
        }
    }

    /// What a key does.
    pub open spec fn key(self, key: KeyEvent) -> (OverlayView, OverlayEffectView) {
        match self.mode {
            OverlayMode::Palette => self.palette_key(key),
            OverlayMode::SessionSwitcher => self.switcher_key(key),
            OverlayMode::NewSession { edit_agent } => self.new_session_key(key, edit_agent),
            OverlayMode::GitStatus | OverlayMode::Diff => self.detail_key(key),
            OverlayMode::StopConfirm => self.stop_key(key),
        }
    }

    /// What a pasted text does: it goes to what is being typed.
    pub open spec fn pasted(self, data: Seq<char>) -> OverlayView {
        match self.mode {
            OverlayMode::NewSession { edit_agent } => if edit_agent {
                OverlayView { agent_input: self.agent_input + data, ..self }
            } else {
                OverlayView { name_input: self.name_input + data, ..self }
            },
            OverlayMode::Palette => OverlayView {
                palette_query: self.palette_query + data,
                ..self
            },
            OverlayMode::SessionSwitcher => OverlayView {
                switcher_query: self.switcher_query + data,
                ..self
            },
            _ => self,
        }
    }

    /// What an event does.
    pub open spec fn event(self, event: OverlayEvent) -> (OverlayView, OverlayEffectView) {
        match event {
            OverlayEvent::Key(key) => self.key(key),
            OverlayEvent::Paste(data) => (self.pasted(data@), OverlayEffectView::Stay),
            OverlayEvent::Other => (self, OverlayEffectView::Stay),
        }
    }
}

impl AttachOverlay {
    /// The overlay of a session, before anything was typed or loaded.
    pub fn new(session_id: String) -> (r: AttachOverlay)
        ensures
            r@ == (OverlayView {
                session_id: session_id@,
                sessions: Seq::empty(),
                mode: OverlayMode::Palette,
                palette_query: Seq::empty(),
                palette_selected: 0,
                switcher_query: Seq::empty(),
                switcher_selected: 0,
                name_input: Seq::empty(),
                agent_input: "codex"@,
                detail_text: Seq::empty(),
                detail_scroll: 0,
                toast: None,
            }),
    {
        AttachOverlay {
            session_id,
            sessions: Vec::new(),
            mode: OverlayMode::Palette,
            palette_query: String::new(),
            palette_selected: 0,
            switcher_query: String::new(),
            switcher_selected: 0,
            name_input: String::new(),
            agent_input: "codex".to_string(),
            detail_text: String::new(),
            detail_scroll: 0,
            toast: None,
        }
    }

    /// Opens the overlay at its palette, with the sessions of the daemon.
    pub fn open(&mut self, sessions: Vec<SessionRecord>)
        ensures
            final(self)@ == (OverlayView {
                mode: OverlayMode::Palette,
                palette_query: Seq::empty(),
                palette_selected: 0,
                switcher_query: Seq::empty(),
                switcher_selected: 0,
                toast: None,
                ..old(self)@
            }).refreshed(sessions@),
    {
        self.mode = OverlayMode::Palette;
        self.palette_query = String::new();
        self.palette_selected = 0;
        self.switcher_query = String::new();
        self.switcher_selected = 0;
        self.toast = None;
        self.refresh_sessions(sessions);
    }

    /// Takes the sessions of the daemon.
    pub fn refresh_sessions(&mut self, sessions: Vec<SessionRecord>)
        ensures
            final(self)@ == old(self)@.refreshed(sessions@),
    {
        self.sessions = sessions;
        let count: usize = self.filtered_sessions().len();
        if self.switcher_selected >= count {
            self.switcher_selected = count.saturating_sub(1);
        }
    }

    /// The sessions that match what was typed in the switcher.
    pub fn filtered_sessions(&self) -> (r: Vec<&SessionRecord>)
        ensures
            pointed_to(r@) == self@.found(),
            r@.len() == self@.found().len(),
    {
        let r = filtered_sessions(&self.sessions, self.switcher_query.as_str());
        assert(pointed_to(r@).len() == r@.len());
        r
    }

    /// Carries out a command.
    pub fn run_command(&mut self, command: OverlayCommand) -> (r: OverlayEffect)
        ensures
            (final(self)@, r@) == old(self)@.command(command),
    {
        match command {
            OverlayCommand::SessionSwitcher => OverlayEffect::LoadSessions,
            OverlayCommand::NewSession => {
                self.mode = OverlayMode::NewSession { edit_agent: false };
                self.name_input = String::new();
                self.agent_input = "codex".to_string();
                OverlayEffect::Stay
            },
            OverlayCommand::GitStatus => OverlayEffect::LoadSession,
            OverlayCommand::Diff => OverlayEffect::LoadDiff,
            OverlayCommand::StopSession => {
                self.mode = OverlayMode::StopConfirm;
                OverlayEffect::Stay
            },
        }
    }

    /// Takes a key at the palette.
    pub fn handle_palette_key(&mut self, key: KeyEvent) -> (r: OverlayEffect)
        ensures
            (final(self)@, r@) == old(self)@.palette_key(key),
    {
        let items = filtered_palette_items(self.palette_query.as_str());
        assert(item_views(items@).len() == items@.len());
        match key.code {
            KeyCode::Esc => {
                return OverlayEffect::Finish(OverlayOutcome::Close);
            },
            KeyCode::Enter => {
                let selected: usize = self.palette_selected;
                if selected < items.len() {
                    assert(item_views(items@)[selected as int] == items@[selected as int]@);
                    return self.run_command(items[selected].command);
                }
            },
            KeyCode::Up => {
                self.palette_selected = self.palette_selected.saturating_sub(1);
            },
            KeyCode::Down => {
                if items.len() > 0 && self.palette_selected < items.len() - 1 {
                    self.palette_selected = self.palette_selected + 1;
                }
            },
            KeyCode::Backspace => {
                self.palette_query = shorten(self.palette_query.as_str());
                self.palette_selected = 0;
            },
            _ => {
                if key.code == KeyCode::Char('b') && key.modifiers.control {
                    let data: Vec<u8> = vec![0x02u8];
                    assert(data@ =~= seq![0x02u8]);
                    return OverlayEffect::Finish(OverlayOutcome::ForwardInput(data));
                }
                match key.typed_char() {
                    Some(c) => {
                        self.palette_query.push(c);
                        self.palette_selected = 0;
                    },
                    None => {},
                }
            },
        }
        OverlayEffect::Stay
    }

    /// Takes a key at the switcher.
    pub fn handle_switcher_key(&mut self, key: KeyEvent) -> (r: OverlayEffect)
        ensures
            (final(self)@, r@) == old(self)@.switcher_key(key),
    {
        match key.code {
            KeyCode::Esc => {
                self.mode = OverlayMode::Palette;
            },
            KeyCode::Up => {
                self.switcher_selected = self.switcher_selected.saturating_sub(1);
            },
            KeyCode::Down => {
                let count: usize = self.filtered_sessions().len();
                if count > 0 && self.switcher_selected < count - 1 {
                    self.switcher_selected = self.switcher_selected + 1;
                }
            },
            KeyCode::Backspace => {
                self.switcher_query = shorten(self.switcher_query.as_str());
                self.switcher_selected = 0;
            },
            KeyCode::Enter => {
                let found = self.filtered_sessions();
                let selected: usize = self.switcher_selected;
                if selected < found.len() {
                    assert(pointed_to(found@)[selected as int] == *found@[selected as int]);
                    let session_id = found[selected].session_id.clone();
                    return OverlayEffect::Finish(OverlayOutcome::SwitchSession(session_id));
                }
            },
            _ => {
                match key.typed_char() {
                    Some(c) => {
                        self.switcher_query.push(c);
                        self.switcher_selected = 0;
                    },
                    None => {},
                }
            },
        }
        OverlayEffect::Stay
    }

    fn create_session(&mut self) -> (r: OverlayEffect)
        ensures
            (final(self)@, r@) == old(self)@.creating(),
    {
        let name = trim(self.name_input.as_str());
        let agent = trim(self.agent_input.as_str());
        if agent.as_str().is_empty() {
            self.toast = Some("agent cannot be empty".to_string());
            return OverlayEffect::Stay;
        }
        if !name.as_str().is_empty() && validate_session_name(name.as_str()).is_err() {
            let mut message = "invalid session name: ".to_string();
            message.append(SESSION_NAME_RULES);
            self.toast = Some(message);
            return OverlayEffect::Stay;
        }
        let model = default_model(agent.as_str());
        OverlayEffect::Create {
            name: if name.as_str().is_empty() {
                None
            } else {
                Some(name)
            },
            agent,
            model,
        }
    }

    /// Takes a key where a session is created.
    pub fn handle_new_session_key(&mut self, key: KeyEvent, edit_agent: bool) -> (r: OverlayEffect)
        ensures
            (final(self)@, r@) == old(self)@.new_session_key(key, edit_agent),
    {
        match key.code {
            KeyCode::Esc => {
                self.mode = OverlayMode::Palette;
            },
            KeyCode::Tab => {
                self.mode = OverlayMode::NewSession { edit_agent: !edit_agent };
            },
            KeyCode::Backspace => {
                if edit_agent {
                    self.agent_input = shorten(self.agent_input.as_str());
                } else {
                    self.name_input = shorten(self.name_input.as_str());
                }
            },
            KeyCode::Enter => {
                return self.create_session();
            },
            _ => {
                match key.typed_char() {
                    Some(c) => {
                        if edit_agent {
                            self.agent_input.push(c);
                        } else {
                            self.name_input.push(c);
                        }
                    },
                    None => {},
                }
            },
        }
        OverlayEffect::Stay
    }

    /// Takes a key where a text is shown.
    pub fn handle_detail_key(&mut self, key: KeyEvent) -> (r: OverlayEffect)
        ensures
            (final(self)@, r@) == old(self)@.detail_key(key),
    {
        match key.code {
            KeyCode::Esc => {
                self.mode = OverlayMode::Palette;
            },
            KeyCode::Up => {
                self.detail_scroll = self.detail_scroll.saturating_sub(1);
            },
            KeyCode::Down => {
                self.detail_scroll = self.detail_scroll.saturating_add(1);
            },
            KeyCode::PageUp => {
                self.detail_scroll = self.detail_scroll.saturating_sub(10);
            },
            KeyCode::PageDown => {
                self.detail_scroll = self.detail_scroll.saturating_add(10);
            },
            _ => {},
        }
        OverlayEffect::Stay
    }

    /// Takes a key where the session is to be stopped.
    pub fn handle_stop_confirm_key(&mut self, key: KeyEvent) -> (r: OverlayEffect)
        ensures
            (final(self)@, r@) == old(self)@.stop_key(key),
    {
        match key.code {
            KeyCode::Esc => {
                self.mode = OverlayMode::Palette;
            },
            KeyCode::Enter => {
                return OverlayEffect::Stop;
            },
            _ => {},
        }
        OverlayEffect::Stay
    }

    /// Takes a key.
    pub fn handle_key(&mut self, key: KeyEvent) -> (r: OverlayEffect)
        ensures
            (final(self)@, r@) == old(self)@.key(key),
    {
        match self.mode {
            OverlayMode::Palette => self.handle_palette_key(key),
            OverlayMode::SessionSwitcher => self.handle_switcher_key(key),
            OverlayMode::NewSession { edit_agent } => self.handle_new_session_key(key, edit_agent),
            OverlayMode::GitStatus | OverlayMode::Diff => self.handle_detail_key(key),
            OverlayMode::StopConfirm => self.handle_stop_confirm_key(key),
        }
    }

    /// Takes a text that was pasted.
    pub fn handle_paste(&mut self, data: &str)
        ensures
            final(self)@ == old(self)@.pasted(data@),
    {
        match self.mode {
            OverlayMode::NewSession { edit_agent } => {
                if edit_agent {
                    self.agent_input.append(data);
                } else {
                    self.name_input.append(data);
                }
            },
            OverlayMode::Palette => {
                self.palette_query.append(data);
            },
            OverlayMode::SessionSwitcher => {
                self.switcher_query.append(data);
            },
            _ => {},
        }
    }

    /// Takes an event.
    pub fn handle_event(&mut self, event: OverlayEvent) -> (r: OverlayEffect)
        ensures
            (final(self)@, r@) == old(self)@.event(event),
    {
        match event {
            OverlayEvent::Key(key) => self.handle_key(key),
            OverlayEvent::Paste(data) => {
                self.handle_paste(data.as_str());
                OverlayEffect::Stay
            },
            OverlayEvent::Other => OverlayEffect::Stay,
        }
    }

    /// Takes the sessions of the daemon, and shows the switcher.
    pub fn sessions_loaded(&mut self, sessions: Vec<SessionRecord>)
        ensures
            final(self)@ == (OverlayView {
                sessions: sessions@,
                mode: OverlayMode::SessionSwitcher,
                switcher_query: Seq::empty(),
                switcher_selected: 0,
                ..old(self)@
            }),
    {
        self.refresh_sessions(sessions);
        self.mode = OverlayMode::SessionSwitcher;
        self.switcher_query = String::new();
        self.switcher_selected = 0;
    }

    /// Takes the session, and shows its details.
    pub fn session_loaded(&mut self, session: &SessionRecord)
        ensures
            final(self)@ == (OverlayView {
                detail_text: details_text(*session),
                detail_scroll: 0,
                mode: OverlayMode::GitStatus,
                ..old(self)@
            }),
    {
        self.detail_text = format_details(session);
        self.detail_scroll = 0;
        self.mode = OverlayMode::GitStatus;
    }

    /// Takes the changes of the session and shows them, or why they could not be loaded.
    pub fn diff_loaded(&mut self, diff: Result<String, String>)
        ensures
            final(self)@ == (match diff {
                Ok(text) => OverlayView {
                    detail_text: text@,
                    detail_scroll: 0,
                    mode: OverlayMode::Diff,
                    ..old(self)@
                },
                Err(message) => OverlayView { toast: Some(message@), ..old(self)@ },
            }),
    {
        match diff {
            Ok(text) => {
                self.detail_text = text;
                self.detail_scroll = 0;
                self.mode = OverlayMode::Diff;
            },
            Err(message) => {
                self.toast = Some(message);
            },
        }
    }

    /// Takes the session that was created and goes there, or takes why none was.
    pub fn session_created(&mut self, created: Result<String, String>) -> (r: OverlayEffect)
        ensures
            match created {
                Ok(session_id) => r@ == OverlayEffectView::Finish(
                    OutcomeView::SwitchSession(session_id@),
                ) && final(self)@ == old(self)@,
                Err(message) => r@ == OverlayEffectView::Stay && final(self)@ == (OverlayView {
                    toast: Some(message@),
                    ..old(self)@
                }),
            },
    {
        match created {
            Ok(session_id) => OverlayEffect::Finish(OverlayOutcome::SwitchSession(session_id)),
            Err(message) => {
                self.toast = Some(message);
                OverlayEffect::Stay
            },
        }
    }

    /// Takes that the session was stopped: the overlay closes.
    pub fn session_stopped(&self) -> (r: OverlayEffect)
        ensures
            r@ == OverlayEffectView::Finish(OutcomeView::Close),
    {
        OverlayEffect::Finish(OverlayOutcome::Close)
    }
}

/// From everywhere but the palette, Escape leads to the palette; from there it closes the
/// overlay.
pub proof fn escape_leads_out(overlay: OverlayView, key: KeyEvent)
    requires
        key.code == KeyCode::Esc,
    ensures
        overlay.mode != OverlayMode::Palette ==> overlay.key(key) == (
            overlay.in_mode(OverlayMode::Palette),
            OverlayEffectView::Stay,
        ),
        overlay.mode == OverlayMode::Palette ==> overlay.key(key) == (
            overlay,
            OverlayEffectView::Finish(OutcomeView::Close),
        ),
{
}

/// A session that the switcher goes to is one of the sessions.
pub proof fn switcher_goes_to_a_session(overlay: OverlayView, key: KeyEvent, session_id: Seq<char>)
    requires
        0 <= overlay.switcher_selected,
        overlay.mode == OverlayMode::SessionSwitcher,
        overlay.key(key).1 == OverlayEffectView::Finish(OutcomeView::SwitchSession(session_id)),
    ensures
        exists|i: int|
            0 <= i < overlay.sessions.len() && (#[trigger] overlay.sessions[i]).session_id@
                == session_id,
{
    let session = overlay.found()[overlay.switcher_selected];
    assert(overlay.found().contains(session));
    crate::session_find::matching_is_exact(overlay.sessions, overlay.switcher_query, session);
    let i = choose|i: int| 0 <= i < overlay.sessions.len() && overlay.sessions[i] == session;
    assert(overlay.sessions[i].session_id@ == session_id);
}

} // verus!
