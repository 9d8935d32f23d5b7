//! What keys and refreshes lead to in the full-screen view, and what they never lead to.
use crate::keys::{KeyCode, KeyEvent, KeyModifiers};
use crate::session::{IntegrationState, SessionRecord, SessionStatus};
use crate::session_find::found_session_is_named;
use crate::text::trimmed;
use crate::time::Timestamp;
use crate::tui::app::{
    position_of_target, wanting_attention, ComposerField, ComposerRowView, ComposerView, FocusView,
    HistoryPlanView, Modal, PtyPlanView, RuntimeEffectView, RuntimeView,
};
use crate::tui::badge::{by_urgency, urgent_sessions_come_first};
use crate::tui::palette::{commands_matching, palette, Command, PaletteItemView};
use vstd::prelude::*;
use vstd::string::*;

verus! {

/// Whether one of some sessions has a name.
pub open spec fn is_there(sessions: Seq<SessionRecord>, id: Seq<char>) -> bool {
    exists|i: int| 0 <= i < sessions.len() && (#[trigger] sessions[i]).session_id@ == id
}

/// Whether a key goes to the view itself: nothing covers it, and no leader key was pressed.
pub open spec fn is_open(view: RuntimeView) -> bool {
    view.modal == Modal::Closed && !view.leader_pending
}

/// Whether a key goes behind the leader key.
pub open spec fn awaits_leader(view: RuntimeView) -> bool {
    view.modal == Modal::Closed && view.leader_pending
}

/// A key without others.
pub open spec fn plain(code: KeyCode) -> KeyEvent {
    KeyEvent { code, modifiers: KeyModifiers { shift: false, control: false, other: false } }
}

/// A character key with Ctrl.
pub open spec fn with_control(c: char) -> KeyEvent {
    KeyEvent {
        code: KeyCode::Char(c),
        modifiers: KeyModifiers { shift: false, control: true, other: false },
    }
}

proof fn focused_is_there(view: RuntimeView)
    ensures
        view.focused() is Some <==> exists|id: Seq<char>|
            view.focus == FocusView::Worker(id) && #[trigger] is_there(view.sessions, id),
        view.focused() matches Some(session) ==> view.focus == FocusView::Worker(
            session.session_id@,
        ) && view.sessions.contains(session),
{
    match view.focus {
        FocusView::Worker(id) => {
            found_session_is_named(view.sessions, id);
            if view.focused() is Some {
                let session = view.focused()->0;
                let i = choose|i: int|
                    0 <= i < view.sessions.len() && view.sessions[i] == session;
                assert(view.sessions[i].session_id@ == id);
                assert(is_there(view.sessions, id));
            }
        },
        FocusView::Coordinator => {},
    }
}

// ---------------------------------------------------------------------------
// Stopping a session
// ---------------------------------------------------------------------------
/// A session is stopped by Enter at the question whether to stop it, and by nothing else; it is
/// the session in focus.
pub proof fn sessions_are_stopped_when_asked(
    view: RuntimeView,
    key: KeyEvent,
    encoded: Option<Seq<u8>>,
    now: Timestamp,
    id: Seq<char>,
)
    ensures
        view.key(key, encoded, now).1 == RuntimeEffectView::Stop(id) <==> view.modal
            == Modal::StopConfirm && key.code == KeyCode::Enter && view.focus == FocusView::Worker(
            id,
        ),
{
}

/// Escape closes whatever covers the view, and asks for nothing. At the question whether to stop
/// a session, other keys than Escape and Enter do nothing, and Enter only closes it where no
/// session is in focus.
pub proof fn escape_closes_what_covers(
    view: RuntimeView,
    key: KeyEvent,
    encoded: Option<Seq<u8>>,
    now: Timestamp,
)
    requires
        view.modal != Modal::Closed,
    ensures
        ({
            let (after, effect) = view.key(key, encoded, now);
            let closed = RuntimeView {
                modal: Modal::Closed,
                palette_query: Seq::empty(),
                palette_selected: 0,
                detail_scroll: 0,
                ..view
            };
            &&& key.code == KeyCode::Esc ==> after == closed && effect == RuntimeEffectView::Stay
            &&& view.modal == Modal::StopConfirm && key.code != KeyCode::Esc && key.code
                != KeyCode::Enter ==> after == view && effect == RuntimeEffectView::Stay
            &&& view.modal == Modal::StopConfirm && key.code == KeyCode::Enter && view.focus
                == FocusView::Coordinator ==> after == closed && effect == RuntimeEffectView::Stay
            &&& view.modal == Modal::WorktreeActions && key.code == KeyCode::Enter ==> after
                == closed && effect == RuntimeEffectView::Stay
        }),
{
}

/// The question whether to stop a session comes up only where one is in focus that is there, and
/// at that moment nothing is asked of the daemon.
pub proof fn question_is_asked_first(
    view: RuntimeView,
    key: KeyEvent,
    encoded: Option<Seq<u8>>,
    now: Timestamp,
)
    ensures
        ({
            let (after, effect) = view.key(key, encoded, now);
            after.modal == Modal::StopConfirm && view.modal != Modal::StopConfirm ==> {
                &&& effect == RuntimeEffectView::Stay
                &&& after.focus == view.focus
                &&& exists|id: Seq<char>|
                    view.focus == FocusView::Worker(id) && #[trigger] is_there(view.sessions, id)
                &&& view.modal == Modal::Palette && key.code == KeyCode::Enter
                    || view.leader_pending && key.code == KeyCode::Char('x')
            }
        }),
        ({
            let (after, effect) = view.key(key, encoded, now);
            awaits_leader(view) && key.code == KeyCode::Char('x') && (exists|id: Seq<char>|
                view.focus == FocusView::Worker(id) && #[trigger] is_there(view.sessions, id))
                ==> after == (RuntimeView {
                modal: Modal::StopConfirm,
                leader_pending: false,
                ..view
            }) && effect == RuntimeEffectView::Stay
        }),
{
    focused_is_there(view);
    let closed = RuntimeView {
        modal: Modal::Closed,
        palette_query: Seq::empty(),
        palette_selected: 0,
        detail_scroll: 0,
        ..view
    };
    focused_is_there(closed);
    focused_is_there(RuntimeView { leader_pending: false, ..view });
}

// ---------------------------------------------------------------------------
// What else is asked of the caller
// ---------------------------------------------------------------------------
/// The view is left by Ctrl-c where nothing covers it and no leader key was pressed, and by
/// nothing else.
pub proof fn control_c_leaves(
    view: RuntimeView,
    key: KeyEvent,
    encoded: Option<Seq<u8>>,
    now: Timestamp,
)
    ensures
        view.key(key, encoded, now).1 == RuntimeEffectView::Quit <==> is_open(view) && key.code
            == KeyCode::Char('c') && key.modifiers.control,
        view.key(key, encoded, now).1 == RuntimeEffectView::Quit ==> view.key(
            key,
            encoded,
            now,
        ).0 == view,
{
}

/// What a key is to a terminal goes to the session in focus as it is, where nothing covers the
/// view and the key is not one of the view's own. The view stays as it was.
pub proof fn input_goes_to_the_session_in_focus(
    view: RuntimeView,
    key: KeyEvent,
    encoded: Option<Seq<u8>>,
    now: Timestamp,
    data: Seq<u8>,
)
    ensures
        view.key(key, encoded, now).1 == RuntimeEffectView::SendInput(data) <==> {
            &&& is_open(view)
            &&& key != with_control('b')
            &&& !(key.code == KeyCode::Char('c') && key.modifiers.control)
            &&& view.focus is Worker
            &&& view.pty is Some
            &&& encoded == Some(data)
        },
        view.key(key, encoded, now).1 == RuntimeEffectView::SendInput(data) ==> view.key(
            key,
            encoded,
            now,
        ).0 == view,
{
}

/// The changes that are loaded are those of the session in focus. Behind the leader key, `d` asks
/// for them, and nothing else changes then.
pub proof fn changes_are_those_of_the_session_in_focus(
    view: RuntimeView,
    key: KeyEvent,
    encoded: Option<Seq<u8>>,
    now: Timestamp,
    id: Seq<char>,
)
    ensures
        view.key(key, encoded, now).1 == RuntimeEffectView::LoadDiff(id) ==> view.focus
            == FocusView::Worker(id) && (view.modal == Modal::Palette && key.code == KeyCode::Enter
            || awaits_leader(view) && key.code == KeyCode::Char('d')),
        awaits_leader(view) && key.code == KeyCode::Char('d') && view.focus == FocusView::Worker(id)
            ==> view.key(key, encoded, now) == (
            RuntimeView { leader_pending: false, ..view },
            RuntimeEffectView::LoadDiff(id),
        ),
        awaits_leader(view) && key.code == KeyCode::Char('d') && view.focus
            == FocusView::Coordinator ==> view.key(key, encoded, now) == (
            RuntimeView {
                leader_pending: false,
                toast: Some("focus a worker session first"@),
                ..view
            },
            RuntimeEffectView::Stay,
        ),
{
}

/// A session is created by Enter at the first row of the composer, or where no row is selected,
/// and by nothing else. It gets the agent that was typed, which must be there, and the name, if
/// there is one, both without white space around them.
pub proof fn sessions_are_created_by_the_composer(
    view: RuntimeView,
    key: KeyEvent,
    encoded: Option<Seq<u8>>,
    now: Timestamp,
)
    ensures
        ({
            let (after, effect) = view.key(key, encoded, now);
            let agent = trimmed(view.composer.agent_input);
            let asks = is_open(view) && view.composer.active && view.focus == FocusView::Coordinator
                && key.code == KeyCode::Enter && !(1 <= view.composer.selected < view.rows(
                now,
            ).len());
            &&& effect is Create <==> asks && agent.len() > 0
            &&& effect matches RuntimeEffectView::Create { title, agent: chosen, model } ==> {
                &&& after == view
                &&& chosen == agent
                &&& title is None <==> trimmed(view.composer.query).len() == 0
                &&& title is Some ==> title->0 == trimmed(view.composer.query)
                &&& model is Some <==> agent == "codex"@
                &&& model is Some ==> model->0 == "gpt-5.4"@
            }
            &&& asks && agent.len() == 0 ==> effect == RuntimeEffectView::Stay && after.toast
                == Some("agent cannot be empty"@)
        }),
{
}

// ---------------------------------------------------------------------------
// The leader key
// ---------------------------------------------------------------------------
/// Ctrl-b is remembered for the next key, and forgotten after it. A key that means nothing behind
/// it only leaves a message, and so does Escape.
pub proof fn leader_key_holds_for_one_key(
    view: RuntimeView,
    key: KeyEvent,
    encoded: Option<Seq<u8>>,
    now: Timestamp,
    c: char,
)
    ensures
        ({
            let (after, effect) = view.key(key, encoded, now);
            &&& is_open(view) && key == with_control('b') ==> effect == RuntimeEffectView::Stay
                && after == (RuntimeView {
                leader_pending: true,
                toast: Some("leader"@),
                ..view
            })
            &&& is_open(view) && key != with_control('b') ==> !after.leader_pending
            &&& awaits_leader(view) ==> !after.leader_pending
            &&& awaits_leader(view) && !(key.code is Char) ==> effect == RuntimeEffectView::Stay
                && after == (RuntimeView {
                leader_pending: false,
                toast: after.toast,
                ..view
            }) && after.toast == Some(
                if key.code == KeyCode::Esc {
                    "leader canceled"@
                } else {
                    "unknown leader binding"@
                },
            )
        }),
        awaits_leader(view) && key.code == KeyCode::Char(c) && c != 'n' && c != 'p' && c != 'a' && c
            != 'c' && c != 's' && c != 't' && c != 'w' && c != 'g' && c != 'd' && c != 'x' && c
            != ' ' ==> view.key(key, encoded, now) == (
            RuntimeView {
                leader_pending: false,
                toast: Some("unknown leader binding"@),
                ..view
            },
            RuntimeEffectView::Stay,
        ),
{
}

/// Where the focus goes among targets: one on, or one back, around the end.
pub open spec fn steps_to(targets: Seq<FocusView>, i: int, forward: bool) -> FocusView {
    if forward && i + 1 == targets.len() {
        targets[0]
    } else if forward {
        targets[i + 1]
    } else if i == 0 {
        targets[targets.len() - 1]
    } else {
        targets[i - 1]
    }
}

/// Behind the leader key, `n` takes the focus to the next target and `p` to the one before; `a`
/// takes it to the next session that wants attention, and `c` to the coordinator. Nothing else
/// changes.
pub proof fn leader_keys_move_the_focus(
    view: RuntimeView,
    encoded: Option<Seq<u8>>,
    now: Timestamp,
    i: int,
)
    requires
        awaits_leader(view),
    ensures
        0 <= i < view.targets().len() && view.targets()[i] == view.focus && (forall|k: int|
            0 <= k < i ==> #[trigger] view.targets()[k] != view.focus) ==> {
            &&& view.key(plain(KeyCode::Char('n')), encoded, now) == (
                RuntimeView {
                    leader_pending: false,
                    focus: steps_to(view.targets(), i, true),
                    ..view
                },
                RuntimeEffectView::Stay,
            )
            &&& view.key(plain(KeyCode::Char('p')), encoded, now) == (
                RuntimeView {
                    leader_pending: false,
                    focus: steps_to(view.targets(), i, false),
                    ..view
                },
                RuntimeEffectView::Stay,
            )
        },
        0 <= i < view.attention().len() && view.attention()[i] == view.focus && (forall|k: int|
            0 <= k < i ==> #[trigger] view.attention()[k] != view.focus) ==> view.key(
            plain(KeyCode::Char('a')),
            encoded,
            now,
        ) == (
            RuntimeView {
                leader_pending: false,
                focus: steps_to(view.attention(), i, true),
                ..view
            },
            RuntimeEffectView::Stay,
        ),
        view.attention().len() == 0 ==> view.key(plain(KeyCode::Char('a')), encoded, now) == (
            RuntimeView { leader_pending: false, ..view },
            RuntimeEffectView::Stay,
        ),
        view.key(plain(KeyCode::Char('c')), encoded, now) == (
            RuntimeView { leader_pending: false, focus: FocusView::Coordinator, ..view },
            RuntimeEffectView::Stay,
        ),
{
    let ready = RuntimeView { leader_pending: false, ..view };
    let targets = view.targets();
    assert(ready.targets() == targets);
    assert(ready.attention() == view.attention());
    if 0 <= i < targets.len() && targets[i] == view.focus && (forall|k: int|
        0 <= k < i ==> #[trigger] targets[k] != view.focus) {
        stands_at(targets, view.focus, i, 0);
        around(i, targets.len() as int);
    }
    let wanting = view.attention();
    if 0 <= i < wanting.len() && wanting[i] == view.focus && (forall|k: int|
        0 <= k < i ==> #[trigger] wanting[k] != view.focus) {
        stands_at(wanting, view.focus, i, 0);
        around(i, wanting.len() as int);
    }
}

proof fn stands_at(targets: Seq<FocusView>, target: FocusView, c: int, i: int)
    requires
        0 <= i <= c < targets.len(),
        targets[c] == target,
        forall|k: int| i <= k < c ==> #[trigger] targets[k] != target,
    ensures
        position_of_target(targets, target, i) == c,
    decreases c - i,
{
    if i < c {
        stands_at(targets, target, c, i + 1);
    }
}

proof fn around(c: int, n: int)
    requires
        0 <= c < n,
    ensures
        c + 1 < n ==> (c + 1) % n == c + 1,
        (c + 1 == n) ==> (c + 1) % n == 0,
        c > 0 ==> (c - 1) % n == c - 1,
        c == 0 ==> (c - 1) % n == n - 1,
{
    if c + 1 == n {
        vstd::arithmetic::div_mod::lemma_mod_self_0(n);
    } else {
        vstd::arithmetic::div_mod::lemma_small_mod((c + 1) as nat, n as nat);
    }
    if c == 0 {
        vstd::arithmetic::div_mod::lemma_mod_add_multiples_vanish(-1, n);
        vstd::arithmetic::div_mod::lemma_small_mod((n - 1) as nat, n as nat);
    } else {
        vstd::arithmetic::div_mod::lemma_small_mod((c - 1) as nat, n as nat);
    }
}

/// Behind the leader key, `s` and `t` open the composer: `s` with nothing typed, on the first
/// session there is, and `t` with what was typed before, on the row that creates a session. `w`
/// and `g` show what is known of the session in focus, where it is there, and a space opens the
/// palette. None of these asks anything of the caller.
pub proof fn leader_keys_open_what_they_name(
    view: RuntimeView,
    encoded: Option<Seq<u8>>,
    now: Timestamp,
)
    requires
        awaits_leader(view),
        0 <= view.composer.selected,
    ensures
        ({
            let (after, effect) = view.key(plain(KeyCode::Char('s')), encoded, now);
            &&& effect == RuntimeEffectView::Stay
            &&& after.composer.active
            &&& after.focus == FocusView::Coordinator
            &&& after.composer.query.len() == 0
            &&& after.composer.field == ComposerField::Query
            &&& after.composer.selected == (if after.rows(now).len() > 1 {
                1int
            } else {
                0int
            })
            &&& after.sessions == view.sessions
            &&& after.modal == Modal::Closed
        }),
        ({
            let (after, effect) = view.key(plain(KeyCode::Char('t')), encoded, now);
            &&& effect == RuntimeEffectView::Stay
            &&& after.composer.active
            &&& after.focus == FocusView::Coordinator
            &&& after.composer.query == view.composer.query
            &&& after.composer.field == ComposerField::Query
            &&& after.composer.selected == 0
            &&& after.sessions == view.sessions
            &&& after.modal == Modal::Closed
        }),
        ({
            let there = exists|id: Seq<char>|
                view.focus == FocusView::Worker(id) && #[trigger] is_there(view.sessions, id);
            let review = view.key(plain(KeyCode::Char('w')), encoded, now);
            let status = view.key(plain(KeyCode::Char('g')), encoded, now);
            &&& review.1 == RuntimeEffectView::Stay && status.1 == RuntimeEffectView::Stay
            &&& review.0.modal == (if there {
                Modal::WorktreeActions
            } else {
                Modal::Closed
            })
            &&& status.0.modal == (if there {
                Modal::GitStatus
            } else {
                Modal::Closed
            })
            &&& there ==> review.0.detail_scroll == 0 && status.0.detail_scroll == 0
            &&& view.focused() matches Some(session) ==> review.0.detail_text
                == crate::tui::app::review_text(session) && status.0.detail_text
                == crate::tui::app::git_status_text(session)
            &&& !there ==> review.0.toast == Some("focus a worker session first"@)
                && status.0.toast == Some("focus a worker session first"@)
            &&& review.0.focus == view.focus && status.0.focus == view.focus
        }),
        view.key(plain(KeyCode::Char(' ')), encoded, now) == (
            RuntimeView {
                leader_pending: false,
                modal: Modal::Palette,
                palette_query: Seq::empty(),
                palette_selected: 0,
                ..view
            },
            RuntimeEffectView::Stay,
        ),
{
    focused_is_there(view);
    focused_is_there(RuntimeView { leader_pending: false, ..view });
}

// ---------------------------------------------------------------------------
// The palette
// ---------------------------------------------------------------------------
/// The character behind the leader key for a command of the palette; a new session with another
/// agent has none.
pub open spec fn leader_char(command: Command) -> Option<char> {
    match command {
        Command::NextSession => Some('n'),
        Command::PreviousSession => Some('p'),
        Command::NextAttention => Some('a'),
        Command::FocusCoordinator => Some('c'),
        Command::SessionSwitcher => Some('s'),
        Command::NewSession => Some('t'),
        Command::NewAgent => None,
        Command::WorktreeActions => Some('w'),
        Command::GitStatus => Some('g'),
        Command::Diff => Some('d'),
        Command::StopSession => Some('x'),
    }
}

/// The entries of the palette that are shown, for what was typed.
pub open spec fn entries(view: RuntimeView) -> Seq<PaletteItemView> {
    commands_matching(palette(), view.palette_query)
}

/// Enter at an entry of the palette closes the palette and does what the leader key does with the
/// key that the entry names.
pub proof fn palette_does_what_leader_keys_do(
    view: RuntimeView,
    encoded: Option<Seq<u8>>,
    now: Timestamp,
    c: char,
)
    requires
        view.modal == Modal::Palette,
        !view.leader_pending,
        0 <= view.palette_selected < entries(view).len(),
        leader_char(entries(view)[view.palette_selected].command) == Some(c),
    ensures
        view.key(plain(KeyCode::Enter), encoded, now) == (RuntimeView {
            leader_pending: true,
            modal: Modal::Closed,
            palette_query: Seq::empty(),
            palette_selected: 0,
            detail_scroll: 0,
            ..view
        }).key(plain(KeyCode::Char(c)), encoded, now),
{
}

/// The entry that starts a session with another agent opens the composer there.
pub proof fn palette_asks_for_an_agent(
    view: RuntimeView,
    encoded: Option<Seq<u8>>,
    now: Timestamp,
)
    requires
        view.modal == Modal::Palette,
        0 <= view.palette_selected < entries(view).len(),
        entries(view)[view.palette_selected].command == Command::NewAgent,
    ensures
        ({
            let (after, effect) = view.key(plain(KeyCode::Enter), encoded, now);
            &&& effect == RuntimeEffectView::Stay
            &&& after.modal == Modal::Closed
            &&& after.composer.active
            &&& after.focus == FocusView::Coordinator
            &&& after.composer.field == ComposerField::Agent
            &&& after.composer.selected == 0
        }),
{
}

/// The key that an entry of the palette shows is the one that does the same behind the leader
/// key, and every command has one entry.
pub proof fn entries_name_their_keys(i: int, c: char)
    requires
        0 <= i < palette().len(),
        leader_char(palette()[i].command) == Some(c),
    ensures
        palette().len() == 11,
        palette()[i].key_hint == seq![c],
        forall|j: int|
            0 <= j < palette().len() && j != i ==> (#[trigger] palette()[j]).command
                != palette()[i].command,
{
    reveal_strlit("n");
    reveal_strlit("p");
    reveal_strlit("a");
    reveal_strlit("c");
    reveal_strlit("s");
    reveal_strlit("t");
    reveal_strlit("w");
    reveal_strlit("g");
    reveal_strlit("d");
    reveal_strlit("x");
    assert(palette()[i].key_hint =~= seq![c]);
}

proof fn blank_query_matches_everything(items: Seq<PaletteItemView>, query: Seq<char>)
    requires
        trimmed(query).len() == 0,
    ensures
        commands_matching(items, query) == items,
    decreases items.len(),
{
    if items.len() > 0 {
        blank_query_matches_everything(items.drop_last(), query);
        assert(items.drop_last().push(items.last()) =~= items);
    } else {
        assert(items =~= Seq::empty());
    }
}

/// Typing at the palette narrows it by a character and Backspace takes one off, each with the first
/// entry selected; Up and Down go to the entry before and behind, and stop at the ends. With
/// nothing typed every entry is shown.
pub proof fn palette_is_searched(
    view: RuntimeView,
    encoded: Option<Seq<u8>>,
    now: Timestamp,
    c: char,
)
    requires
        view.modal == Modal::Palette,
        0 <= view.palette_selected,
    ensures
        view.palette_query.len() == 0 ==> entries(view) == palette(),
        view.key(plain(KeyCode::Char(c)), encoded, now) == (
            RuntimeView { palette_query: view.palette_query.push(c), palette_selected: 0, ..view },
            RuntimeEffectView::Stay,
        ),
        view.palette_query.len() > 0 ==> view.key(plain(KeyCode::Backspace), encoded, now) == (
            RuntimeView {
                palette_query: view.palette_query.drop_last(),
                palette_selected: 0,
                ..view
            },
            RuntimeEffectView::Stay,
        ),
        view.palette_selected > 0 ==> view.key(plain(KeyCode::Up), encoded, now) == (
            RuntimeView { palette_selected: view.palette_selected - 1, ..view },
            RuntimeEffectView::Stay,
        ),
        view.palette_selected == 0 ==> view.key(plain(KeyCode::Up), encoded, now) == (
            view,
            RuntimeEffectView::Stay,
        ),
        view.palette_selected + 1 < entries(view).len() ==> view.key(
            plain(KeyCode::Down),
            encoded,
            now,
        ) == (
            RuntimeView { palette_selected: view.palette_selected + 1, ..view },
            RuntimeEffectView::Stay,
        ),
        view.palette_selected + 1 >= entries(view).len() ==> view.key(
            plain(KeyCode::Down),
            encoded,
            now,
        ) == (view, RuntimeEffectView::Stay),
        view.palette_selected >= entries(view).len() ==> view.key(
            plain(KeyCode::Enter),
            encoded,
            now,
        ) == (view, RuntimeEffectView::Stay),
{
    if view.palette_query.len() == 0 {
        blank_query_matches_everything(palette(), view.palette_query);
    }
}

// ---------------------------------------------------------------------------
// Texts
// ---------------------------------------------------------------------------
/// A text that covers the view moves by a row with Up and Down and by ten with the page keys; what
/// one of them does the other undoes, but for the ends. Other keys than these and Escape do
/// nothing, and nothing is asked of the caller.
pub proof fn texts_are_scrolled(
    view: RuntimeView,
    encoded: Option<Seq<u8>>,
    now: Timestamp,
    key: KeyEvent,
)
    requires
        view.modal == Modal::GitStatus || view.modal == Modal::Diff,
        0 <= view.detail_scroll <= u16::MAX,
    ensures
        ({
            let (after, effect) = view.key(key, encoded, now);
            let lines = match key.code {
                KeyCode::Up => -1int,
                KeyCode::Down => 1int,
                KeyCode::PageUp => -10int,
                KeyCode::PageDown => 10int,
                _ => 0int,
            };
            &&& effect == RuntimeEffectView::Stay
            &&& key.code != KeyCode::Esc ==> {
                &&& after == (RuntimeView { detail_scroll: after.detail_scroll, ..view })
                &&& 0 <= view.detail_scroll + lines <= u16::MAX ==> after.detail_scroll
                    == view.detail_scroll + lines
                &&& view.detail_scroll + lines < 0 ==> after.detail_scroll == 0
                &&& view.detail_scroll + lines > u16::MAX ==> after.detail_scroll == u16::MAX
            }
        }),
{
}

// ---------------------------------------------------------------------------
// The composer
// ---------------------------------------------------------------------------
/// Whether keys go to the composer.
pub open spec fn composes(view: RuntimeView) -> bool {
    is_open(view) && view.composer.active && view.focus == FocusView::Coordinator && 0
        <= view.composer.selected
}

/// A character is typed behind what stands in the field of the composer that Tab has gone to, and
/// Backspace takes the last one off; the other field stays as it is. Once something was typed as a
/// query, the first session that matches is selected, where there is one.
pub proof fn composer_is_typed_into(
    view: RuntimeView,
    encoded: Option<Seq<u8>>,
    now: Timestamp,
    c: char,
)
    requires
        composes(view),
    ensures
        ({
            let (after, effect) = view.key(plain(KeyCode::Char(c)), encoded, now);
            let query = view.composer.field == ComposerField::Query;
            &&& effect == RuntimeEffectView::Stay
            &&& after.composer.active && after.focus == FocusView::Coordinator
            &&& after.composer.query == (if query {
                view.composer.query.push(c)
            } else {
                view.composer.query
            })
            &&& after.composer.agent_input == (if query {
                view.composer.agent_input
            } else {
                view.composer.agent_input.push(c)
            })
            &&& after.composer.field == view.composer.field
            &&& query && after.rows(now).len() > 1 ==> after.composer.selected == 1
            &&& query && after.rows(now).len() == 1 ==> after.composer.selected == 0
            &&& after.sessions == view.sessions
            &&& after.pending_focus is None
        }),
        ({
            let (after, effect) = view.key(plain(KeyCode::Backspace), encoded, now);
            let query = view.composer.field == ComposerField::Query;
            &&& effect == RuntimeEffectView::Stay
            &&& query && view.composer.query.len() > 0 ==> after.composer.query
                == view.composer.query.drop_last()
            &&& !query ==> after.composer.query == view.composer.query
            &&& !query && view.composer.agent_input.len() > 0 ==> after.composer.agent_input
                == view.composer.agent_input.drop_last()
            &&& query ==> after.composer.agent_input == view.composer.agent_input
            &&& after.focus == FocusView::Coordinator && after.composer.active
            &&& after.sessions == view.sessions
        }),
        ({
            let (after, effect) = view.key(plain(KeyCode::Tab), encoded, now);
            &&& effect == RuntimeEffectView::Stay
            &&& after.composer.field != view.composer.field
            &&& after == (RuntimeView {
                composer: ComposerView { field: after.composer.field, ..view.composer },
                ..view
            })
        }),
{
}

/// Up and Down select the row before and behind, and stop at the ends. Enter at a session goes to
/// that session and closes the composer.
pub proof fn composer_goes_to_sessions(
    view: RuntimeView,
    encoded: Option<Seq<u8>>,
    now: Timestamp,
    id: Seq<char>,
)
    requires
        composes(view),
    ensures
        view.composer.selected > 0 ==> view.key(plain(KeyCode::Up), encoded, now)
            == (RuntimeView {
            composer: ComposerView { selected: view.composer.selected - 1, ..view.composer },
            ..view
        }, RuntimeEffectView::Stay),
        view.composer.selected == 0 ==> view.key(plain(KeyCode::Up), encoded, now) == (
            view,
            RuntimeEffectView::Stay,
        ),
        view.composer.selected + 1 < view.rows(now).len() ==> view.key(
            plain(KeyCode::Down),
            encoded,
            now,
        ) == (RuntimeView {
            composer: ComposerView { selected: view.composer.selected + 1, ..view.composer },
            ..view
        }, RuntimeEffectView::Stay),
        view.composer.selected + 1 >= view.rows(now).len() ==> view.key(
            plain(KeyCode::Down),
            encoded,
            now,
        ) == (view, RuntimeEffectView::Stay),
        view.rows(now)[0] == ComposerRowView::Create,
        view.composer.selected < view.rows(now).len() && view.rows(now)[view.composer.selected]
            == ComposerRowView::Session(id) ==> {
            let (after, effect) = view.key(plain(KeyCode::Enter), encoded, now);
            &&& effect == RuntimeEffectView::Stay
            &&& after.focus == FocusView::Worker(id)
            &&& !after.composer.active
            &&& after.pending_focus is None
            &&& after.sessions == view.sessions
        },
{
}

/// Escape at the composer takes back what was typed and said, and where there is nothing of that, it
/// closes the composer.
pub proof fn escape_leaves_the_composer(
    view: RuntimeView,
    encoded: Option<Seq<u8>>,
    now: Timestamp,
)
    requires
        composes(view),
    ensures
        ({
            let (after, effect) = view.key(plain(KeyCode::Esc), encoded, now);
            let idle = view.composer.query.len() == 0 && view.composer.status_lines.len() == 0;
            &&& effect == RuntimeEffectView::Stay
            &&& after.composer.active <==> !idle
            &&& after.composer.query.len() == 0
            &&& after.composer.status_lines.len() == 0
            &&& after.composer.agent_input == view.composer.agent_input
            &&& after.pending_focus is None
            &&& after.focus == FocusView::Coordinator
        }),
{
}

// ---------------------------------------------------------------------------
// Sessions and their order
// ---------------------------------------------------------------------------
/// Whether a session waits for its user.
pub open spec fn waits(session: SessionRecord) -> bool {
    session.status == SessionStatus::NeedsInput
}

/// Whether a session is in trouble.
pub open spec fn is_troubled(session: SessionRecord) -> bool {
    session.status == SessionStatus::Failed || session.status == SessionStatus::UnknownRecovered
        || session.has_conflicts
}

/// Whether the changes of a session wait for review.
pub open spec fn waits_for_review(session: SessionRecord) -> bool {
    session.integration_state == IntegrationState::PendingReview
}

/// Whether a session works.
pub open spec fn works(session: SessionRecord) -> bool {
    session.status == SessionStatus::Running || session.status == SessionStatus::Creating
}

/// Whether a session pauses.
pub open spec fn pauses(session: SessionRecord) -> bool {
    session.status == SessionStatus::Paused
}

/// Whether one session changed later than another.
pub open spec fn changed_later(a: SessionRecord, b: SessionRecord) -> bool {
    a.updated_at.seconds > b.updated_at.seconds || a.updated_at.seconds == b.updated_at.seconds
        && a.updated_at.nanos > b.updated_at.nanos
}

/// A session that waits for its user stands above every other. Of the rest those in trouble stand
/// above the others, of the rest those that wait for review, then those that work, then those that
/// pause. Among those that are alike in all of this, what changed last stands first.
pub proof fn urgent_sessions_stand_above(sessions: Seq<SessionRecord>, i: int, j: int)
    requires
        0 <= i < sessions.len(),
        0 <= j < sessions.len(),
    ensures
        ({
            let a = by_urgency(sessions)[i];
            let b = by_urgency(sessions)[j];
            let waiting = waits(a) || waits(b);
            let troubled = is_troubled(a) || is_troubled(b);
            let reviewed = waits_for_review(a) || waits_for_review(b);
            let working = works(a) || works(b);
            &&& waits(a) && !waits(b) ==> i < j
            &&& !waiting && is_troubled(a) && !is_troubled(b) ==> i < j
            &&& !waiting && !troubled && waits_for_review(a) && !waits_for_review(b) ==> i < j
            &&& !waiting && !troubled && !reviewed && works(a) && !works(b) ==> i < j
            &&& !waiting && !troubled && !reviewed && !working && pauses(a) && !pauses(b) ==> i < j
            &&& waits(a) == waits(b) && is_troubled(a) == is_troubled(b) && waits_for_review(a)
                == waits_for_review(b) && works(a) == works(b) && pauses(a) == pauses(b)
                && changed_later(a, b) ==> i < j
        }),
{
    if j < i {
        urgent_sessions_come_first(sessions, j, i);
    }
}

proof fn wanting_is_exact(sessions: Seq<SessionRecord>, id: Seq<char>)
    ensures
        wanting_attention(sessions).contains(FocusView::Worker(id)) <==> exists|i: int|
            0 <= i < sessions.len() && (#[trigger] sessions[i]).session_id@ == id && (waits(
                sessions[i],
            ) || is_troubled(sessions[i]) || waits_for_review(sessions[i]) || works(sessions[i])),
    decreases sessions.len(),
{
    let all = wanting_attention(sessions);
    let due = |s: SessionRecord| waits(s) || is_troubled(s) || waits_for_review(s) || works(s);
    if sessions.len() > 0 {
        let rest = sessions.drop_last();
        let front = wanting_attention(rest);
        let last = sessions[sessions.len() - 1];
        wanting_is_exact(rest, id);
        if all.contains(FocusView::Worker(id)) {
            let k = choose|k: int| 0 <= k < all.len() && all[k] == FocusView::Worker(id);
            if k < front.len() {
                assert(front[k] == FocusView::Worker(id));
                let i = choose|i: int|
                    0 <= i < rest.len() && (#[trigger] rest[i]).session_id@ == id && due(rest[i]);
                assert(sessions[i] == rest[i]);
            } else {
                assert(last.session_id@ == id && due(last));
            }
        }
        if exists|i: int|
            0 <= i < sessions.len() && (#[trigger] sessions[i]).session_id@ == id && due(
                sessions[i],
            ) {
            let i = choose|i: int|
                0 <= i < sessions.len() && (#[trigger] sessions[i]).session_id@ == id && due(
                    sessions[i],
                );
            if i < rest.len() {
                assert(rest[i] == sessions[i]);
                assert(front.contains(FocusView::Worker(id)));
                let k = choose|k: int| 0 <= k < front.len() && front[k] == FocusView::Worker(id);
                assert(all[k] == FocusView::Worker(id));
            } else {
                assert(all[all.len() - 1] == FocusView::Worker(id));
            }
        }
    }
}

/// The focus can go to the coordinator and to every session, in the order in which they are shown.
/// Those that want attention are the sessions that wait, are in trouble, wait for review or work.
pub proof fn targets_are_the_sessions(view: RuntimeView, id: Seq<char>)
    ensures
        view.targets().len() == view.sessions.len() + 1,
        view.targets()[0] == FocusView::Coordinator,
        forall|i: int|
            0 < i < view.targets().len() ==> #[trigger] view.targets()[i] == FocusView::Worker(
                by_urgency(view.sessions)[i - 1].session_id@,
            ),
        is_there(view.sessions, id) <==> view.targets().contains(FocusView::Worker(id)),
        view.attention().contains(FocusView::Worker(id)) <==> exists|i: int|
            0 <= i < view.sessions.len() && (#[trigger] view.sessions[i]).session_id@ == id && (
            waits(view.sessions[i]) || is_troubled(view.sessions[i]) || waits_for_review(
                view.sessions[i],
            ) || works(view.sessions[i])),
{
    let sessions = view.sessions;
    let shown = by_urgency(sessions);
    let order = crate::order::order_of(crate::tui::badge::urgency_keys(sessions));
    crate::order::order_is_sorted_and_stable(crate::tui::badge::urgency_keys(sessions));
    wanting_is_exact(shown, id);
    let due = |s: SessionRecord| waits(s) || is_troubled(s) || waits_for_review(s) || works(s);
    assert forall|i: int| 0 <= i < sessions.len() implies shown.contains(#[trigger] sessions[i]) by {
        assert(order.contains(i));
        let k = choose|k: int| 0 <= k < order.len() && order[k] == i;
        assert(shown[k] == sessions[i]);
    }
    if is_there(sessions, id) {
        let i = choose|i: int|
            0 <= i < sessions.len() && (#[trigger] sessions[i]).session_id@ == id;
        assert(shown.contains(sessions[i]));
        let k = choose|k: int| 0 <= k < shown.len() && shown[k] == sessions[i];
        assert(view.targets()[k + 1] == FocusView::Worker(id));
    }
    if view.targets().contains(FocusView::Worker(id)) {
        let k = choose|k: int|
            0 <= k < view.targets().len() && view.targets()[k] == FocusView::Worker(id);
        assert(shown[k - 1] == sessions[order[k - 1]]);
        assert(sessions[order[k - 1]].session_id@ == id);
    }
    if exists|i: int|
        0 <= i < sessions.len() && (#[trigger] sessions[i]).session_id@ == id && due(sessions[i]) {
        let i = choose|i: int|
            0 <= i < sessions.len() && (#[trigger] sessions[i]).session_id@ == id && due(
                sessions[i],
            );
        assert(shown.contains(sessions[i]));
        let k = choose|k: int| 0 <= k < shown.len() && shown[k] == sessions[i];
        assert(shown[k].session_id@ == id && due(shown[k]));
    }
    if exists|k: int|
        0 <= k < shown.len() && (#[trigger] shown[k]).session_id@ == id && due(shown[k]) {
        let k = choose|k: int|
            0 <= k < shown.len() && (#[trigger] shown[k]).session_id@ == id && due(shown[k]);
        assert(sessions[order[k]].session_id@ == id && due(sessions[order[k]]));
    }
}

/// A refresh keeps the focus where it is, but for a session that is gone: then it goes to the
/// coordinator. It changes the sessions and, where it must, the selected row, and nothing else.
pub proof fn refreshes_keep_the_focus(
    view: RuntimeView,
    sessions: Seq<SessionRecord>,
    now: Timestamp,
    id: Seq<char>,
)
    ensures
        ({
            let after = view.refreshed(sessions, now);
            &&& after.sessions == sessions
            &&& view.focus == FocusView::Coordinator ==> after.focus == FocusView::Coordinator
            &&& view.focus == FocusView::Worker(id) && is_there(sessions, id) ==> after.focus
                == view.focus
            &&& view.focus == FocusView::Worker(id) && !is_there(sessions, id) ==> after.focus
                == FocusView::Coordinator
            &&& view.composer.selected < after.rows(now).len() ==> after.composer.selected
                == view.composer.selected
            &&& view.composer.selected >= after.rows(now).len() ==> after.composer.selected + 1
                == after.rows(now).len()
            &&& after == (RuntimeView {
                sessions,
                focus: after.focus,
                composer: ComposerView {
                    selected: after.composer.selected,
                    ..view.composer
                },
                ..view
            })
        }),
{
    focused_is_there(RuntimeView { sessions, ..view });
    found_session_is_named(sessions, id);
    if view.focus == FocusView::Worker(id) && !is_there(sessions, id) {
        if crate::session_find::first_named(sessions, id) is Some {
            let session = crate::session_find::first_named(sessions, id)->0;
            let i = choose|i: int| 0 <= i < sessions.len() && sessions[i] == session;
            assert(sessions[i].session_id@ == id);
        }
    }
}

/// A connection is made to the session in focus while it runs or waits for its user, and only
/// where there is none to it yet. Otherwise there is no connection.
pub proof fn connections_follow_the_focus(view: RuntimeView, session: SessionRecord)
    ensures
        ({
            let (after, plan) = view.pty_plan();
            let live = session.status == SessionStatus::Running || session.status
                == SessionStatus::NeedsInput;
            let linked = view.pty is Some && view.pty->0.session_id == session.session_id@;
            &&& after == (RuntimeView { pty: after.pty, ..view })
            &&& view.focus == FocusView::Coordinator ==> plan == PtyPlanView::Stop && after.pty
                is None
            &&& view.focused() is None ==> plan == PtyPlanView::Stop && after.pty is None
            &&& view.focused() == Some(session) && !live ==> plan == PtyPlanView::Stop && after.pty
                is None
            &&& view.focused() == Some(session) && live && linked ==> plan == PtyPlanView::Keep
                && after == view
            &&& view.focused() == Some(session) && live && !linked ==> {
                &&& plan == PtyPlanView::Attach(session.session_id@)
                &&& after.pty is Some
                &&& after.pty->0.session_id == session.session_id@
                &&& after.pty->0.connected
                &&& after.pty->0.last_error is None
            }
        }),
{
    focused_is_there(view);
}

/// The history of the session in focus is loaded where it has ended or pauses, and only where what
/// was loaded is not of its last change. A session that runs or waits for its user has none.
pub proof fn histories_are_those_of_the_focus(view: RuntimeView, session: SessionRecord)
    ensures
        ({
            let (after, plan) = view.history_plan();
            let live = session.status == SessionStatus::Running || session.status
                == SessionStatus::NeedsInput;
            let known = view.history_key == Some((session.session_id@, session.updated_at));
            &&& view.focused() is None || view.focused() == Some(session) && live ==> plan
                == HistoryPlanView::Keep && after.history.len() == 0 && after.history_key is None
            &&& view.focused() == Some(session) && !live && known ==> plan == HistoryPlanView::Keep
                && after == view
            &&& view.focused() == Some(session) && !live && !known ==> plan
                == HistoryPlanView::Load(session.session_id@, session.updated_at) && after == view
        }),
{
}

/// The view goes to a session that was created when its time has come, not before, and closes the
/// composer then.
pub proof fn created_sessions_come_into_focus(view: RuntimeView, now_ms: int, id: Seq<char>, due: int)
    ensures
        view.pending_focus is None ==> view.advanced(now_ms) == view,
        view.pending_focus == Some((id, due)) && now_ms < due ==> view.advanced(now_ms) == view,
        view.pending_focus == Some((id, due)) && now_ms >= due ==> {
            let after = view.advanced(now_ms);
            &&& after.focus == FocusView::Worker(id)
            &&& after.pending_focus is None
            &&& !after.composer.active
            &&& after.sessions == view.sessions
            &&& after.advanced(now_ms + 1) == after
        },
{
}

} // verus!
