//! What the keys of the session picker lead to, and what they never lead to.
use crate::keys::{KeyCode, KeyEvent, KeyModifiers};
use crate::picker::{
    actions_for, position_of, position_of_text, EffectView, ModeView, PickerView, RowView,
    SessionAction,
};
use crate::picker_render::header_lines;
use crate::picker_style::{menu_line, PickerToastKind};
use crate::session::{is_session_name, SessionRecord, SessionStatus};
use crate::session_find::{first_named, found_session_is_named, matching, matching_is_exact};
use crate::text::{decimal, trimmed};
use vstd::prelude::*;

verus! {

/// A key without others.
pub open spec fn plain(code: KeyCode) -> KeyEvent {
    KeyEvent { code, modifiers: KeyModifiers { shift: false, control: false, other: false } }
}

/// Whether one of some sessions has a name.
pub open spec fn is_there(sessions: Seq<SessionRecord>, id: Seq<char>) -> bool {
    exists|i: int| 0 <= i < sessions.len() && (#[trigger] sessions[i]).session_id@ == id
}

/// Whether a key picks an entry of a menu: Enter the one that is selected, and a digit the one that
/// it counts to.
pub open spec fn picks(key: KeyEvent, selected: int, entry: int) -> bool {
    key.code == KeyCode::Enter && selected == entry || key == plain(KeyCode::Char('1')) && entry
        == 0 || key == plain(KeyCode::Char('2')) && entry == 1 || key == plain(KeyCode::Char('3'))
        && entry == 2 || key == plain(KeyCode::Char('4')) && entry == 3 || key == plain(
        KeyCode::Char('5'),
    ) && entry == 4 || key == plain(KeyCode::Char('6')) && entry == 5 || key == plain(
        KeyCode::Char('7'),
    ) && entry == 6 || key == plain(KeyCode::Char('8')) && entry == 7 || key == plain(
        KeyCode::Char('9'),
    ) && entry == 8
}

/// Whether a key picks an action of the menu of a session.
pub open spec fn picks_action(
    picker: PickerView,
    key: KeyEvent,
    id: Seq<char>,
    action: SessionAction,
) -> bool {
    match picker.mode {
        ModeView::SessionActions { session_id, selected } => session_id == id && exists|entry: int|
            0 <= entry < picker.actions(id).len() && #[trigger] picker.actions(id)[entry] == action
                && picks(key, selected, entry),
        _ => false,
    }
}

/// Whether what is selected in a menu is counted from its first entry.
pub open spec fn counts_from_first(mode: ModeView) -> bool {
    match mode {
        ModeView::SessionActions { selected, .. } => 0 <= selected,
        ModeView::CreateAgentSelect { selected } => 0 <= selected,
        _ => true,
    }
}

proof fn named_is_there(sessions: Seq<SessionRecord>, id: Seq<char>)
    ensures
        first_named(sessions, id) is Some <==> is_there(sessions, id),
        first_named(sessions, id) matches Some(session) ==> session.session_id@ == id
            && sessions.contains(session),
{
    found_session_is_named(sessions, id);
    if first_named(sessions, id) is Some {
        let session = first_named(sessions, id)->0;
        let i = choose|i: int| 0 <= i < sessions.len() && sessions[i] == session;
        assert(sessions[i].session_id@ == id);
    }
}

proof fn digits_pick(key: KeyEvent)
    ensures
        crate::keys::digit_position(key) matches Some(i) ==> 0 <= i < 9 && forall|selected: int|
            #[trigger] picks(key, selected, i),
        crate::keys::digit_position(key) matches Some(i) ==> forall|selected: int, entry: int|
            picks(key, selected, entry) ==> entry == i,
        crate::keys::digit_position(key) is None && key.code != KeyCode::Enter ==> forall|
            selected: int,
            entry: int,
        |
            !picks(key, selected, entry),
{
    match key.code {
        KeyCode::Char(c) => {
            if '1' <= c && c <= '9' && crate::keys::unmodified(key) {
                assert(key == plain(KeyCode::Char(c)));
                let n = c as u32;
                assert(n == 49 || n == 50 || n == 51 || n == 52 || n == 53 || n == 54 || n == 55 || n
                    == 56 || n == 57);
                assert(c == '1' || c == '2' || c == '3' || c == '4' || c == '5' || c == '6' || c
                    == '7' || c == '8' || c == '9');
            }
        },
        _ => {},
    }
}

// ---------------------------------------------------------------------------
// What is asked of the caller
// ---------------------------------------------------------------------------
/// A session is removed only where the question whether to remove it is open for this session: by
/// Enter at its first answer, or by `y`. No key at the menu of a session, or anywhere else,
/// removes one.
pub proof fn sessions_are_removed_when_asked(
    picker: PickerView,
    key: KeyEvent,
    default_agent: Seq<char>,
    id: Seq<char>,
)
    ensures
        picker.key(key, default_agent).1 == EffectView::Remove(id) <==> match picker.mode {
            ModeView::DeleteConfirm { session_id, selected } => session_id == id && (key.code
                == KeyCode::Enter && selected == 0 || key == plain(KeyCode::Char('y'))),
            _ => false,
        },
{
    match picker.mode {
        ModeView::DeleteConfirm { session_id, selected } => {
            if key.code == KeyCode::Char('y') && crate::keys::unmodified(key) {
                assert(key == plain(KeyCode::Char('y')));
            }
        },
        _ => {},
    }
}

/// At the menu of a session, the entry that is picked decides: attaching leaves with that session,
/// a diff loads its changes, merging merges it, and deleting asks first, with the answer on no.
/// Elsewhere nothing attaches, loads changes or merges.
pub proof fn menus_do_what_is_picked(
    picker: PickerView,
    key: KeyEvent,
    default_agent: Seq<char>,
    id: Seq<char>,
)
    requires
        counts_from_first(picker.mode),
    ensures
        picker.key(key, default_agent).1 == EffectView::Merge(id) <==> picks_action(
            picker,
            key,
            id,
            SessionAction::Merge,
        ),
        picker.key(key, default_agent).1 == EffectView::LoadDiff(id) <==> picks_action(
            picker,
            key,
            id,
            SessionAction::Diff,
        ),
        picker.key(key, default_agent).1 == EffectView::Leave(Some(id)) <==> picks_action(
            picker,
            key,
            id,
            SessionAction::Attach,
        ),
        picker.key(key, default_agent).1 is Merge || picker.key(key, default_agent).1 is LoadDiff
            || picker.key(key, default_agent).1 is Leave || picker.key(key, default_agent).1
            is Remove || picker.key(key, default_agent).1 is Create ==> picker.key(
            key,
            default_agent,
        ).0 == picker,
        picks_action(picker, key, id, SessionAction::Delete) ==> picker.key(key, default_agent) == (
            PickerView {
                toast: None,
                mode: ModeView::DeleteConfirm { session_id: id, selected: 1 },
                ..picker
            },
            EffectView::Stay,
        ),
{
    digits_pick(key);
    match picker.mode {
        ModeView::SessionActions { session_id, selected } => {
            named_is_there(picker.sessions, session_id);
            let actions = picker.actions(session_id);
            let entry = if key.code == KeyCode::Enter {
                selected
            } else {
                crate::keys::digit_position(key)->0
            };
            if key.code == KeyCode::Enter || crate::keys::digit_position(key) is Some {
                assert(picks(key, selected, entry));
                if entry < actions.len() {
                    assert(picks_action(picker, key, session_id, actions[entry]));
                    assert(picker.key(key, default_agent) == picker.acting(
                        session_id,
                        actions[entry],
                    ));
                }
                assert forall|e: int| picks(key, selected, e) implies e == entry by {}
            }
        },
        _ => {},
    }
}

/// The menu of a session that is there offers, in this order, to attach where it runs, to show its
/// changes, to merge it where it has commits, and to delete it. Each entry is named for what it
/// does.
pub proof fn menus_offer_what_can_be_done(picker: PickerView, id: Seq<char>, session: SessionRecord)
    requires
        first_named(picker.sessions, id) == Some(session),
    ensures
        ({
            let actions = picker.actions(id);
            let runs = session.status == SessionStatus::Running;
            &&& runs && session.has_commits ==> actions == seq![
                SessionAction::Attach,
                SessionAction::Diff,
                SessionAction::Merge,
                SessionAction::Delete,
            ]
            &&& runs && !session.has_commits ==> actions == seq![
                SessionAction::Attach,
                SessionAction::Diff,
                SessionAction::Delete,
            ]
            &&& !runs && session.has_commits ==> actions == seq![
                SessionAction::Diff,
                SessionAction::Merge,
                SessionAction::Delete,
            ]
            &&& !runs && !session.has_commits ==> actions == seq![
                SessionAction::Diff,
                SessionAction::Delete,
            ]
        }),
        SessionAction::Attach.name() == "attach"@,
        SessionAction::Diff.name() == "diff"@,
        SessionAction::Merge.name() == "merge"@,
        SessionAction::Delete.name() == "delete"@,
{
    let actions = actions_for(session);
    assert(actions =~= (if session.status == SessionStatus::Running {
        seq![SessionAction::Attach]
    } else {
        Seq::empty()
    }) + seq![SessionAction::Diff] + (if session.has_commits {
        seq![SessionAction::Merge]
    } else {
        Seq::empty()
    }) + seq![SessionAction::Delete]);
    if session.status == SessionStatus::Running && session.has_commits {
        assert(actions =~= seq![
            SessionAction::Attach,
            SessionAction::Diff,
            SessionAction::Merge,
            SessionAction::Delete,
        ]);
    } else if session.status == SessionStatus::Running {
        assert(actions =~= seq![SessionAction::Attach, SessionAction::Diff, SessionAction::Delete]);
    } else if session.has_commits {
        assert(actions =~= seq![SessionAction::Diff, SessionAction::Merge, SessionAction::Delete]);
    } else {
        assert(actions =~= seq![SessionAction::Diff, SessionAction::Delete]);
    }
}

/// The menu of a session shows below its heading, line by line, the number of an entry and its
/// name, and marks the one that is selected. The question whether to remove a session shows yes
/// first and no second.
pub proof fn menus_show_their_entries(
    picker: PickerView,
    width: int,
    cursor_visible: bool,
    id: Seq<char>,
    selected: int,
    i: int,
)
    requires
        is_there(picker.sessions, id),
    ensures
        picker.mode == (ModeView::SessionActions { session_id: id, selected }) && 0 <= i
            < picker.actions(id).len() ==> header_lines(picker, width, cursor_visible)[3 + i]
            == menu_line(
            decimal((i + 1) as nat) + ". "@ + picker.actions(id)[i].name(),
            width,
            i == selected,
        ),
        picker.mode == (ModeView::DeleteConfirm { session_id: id, selected }) ==> header_lines(
            picker,
            width,
            cursor_visible,
        )[3] == menu_line(decimal(1) + ". "@ + "yes"@, width, selected == 0) && header_lines(
            picker,
            width,
            cursor_visible,
        )[4] == menu_line(decimal(2) + ". "@ + "no"@, width, selected == 1),
        picker.mode == (ModeView::CreateAgentSelect { selected }) && 0 <= i < picker.agents.len()
            ==> header_lines(picker, width, cursor_visible)[2 + i] == menu_line(
            decimal((i + 1) as nat) + ". "@ + picker.agents[i],
            width,
            i == selected,
        ),
{
    named_is_there(picker.sessions, id);
}

/// The picker is left without a session by Escape at its rows, and by nothing else.
pub proof fn escape_leaves_the_rows(picker: PickerView, key: KeyEvent, default_agent: Seq<char>)
    ensures
        picker.key(key, default_agent).1 == EffectView::Leave(None) <==> picker.mode
            == ModeView::Browse && key.code == KeyCode::Esc,
{
}

/// A session is created where an agent is picked from the menu of agents, and nowhere else. It gets
/// that agent, and the name that was typed, without white space around it. Where no session may
/// have that name, nothing is created and the picker says so.
pub proof fn sessions_are_created_with_the_agent_picked(
    picker: PickerView,
    key: KeyEvent,
    default_agent: Seq<char>,
    selected: int,
    entry: int,
)
    requires
        counts_from_first(picker.mode),
    ensures
        picker.key(key, default_agent).1 is Create ==> picker.mode is CreateAgentSelect,
        picker.mode == (ModeView::CreateAgentSelect { selected }) && picks(key, selected, entry) && 0
            <= entry < picker.agents.len() ==> {
            let name = trimmed(picker.query);
            let (after, effect) = picker.key(key, default_agent);
            &&& name.len() > 0 && !is_session_name(name) ==> effect == EffectView::Stay
                && after.mode == picker.mode && after.toast is Some && after.toast->0.kind
                == PickerToastKind::Error
            &&& is_session_name(name) || name.len() == 0 ==> effect is Create && effect->agent
                == picker.agents[entry] && (effect->name is Some <==> is_session_name(name)) && (
            effect->name is Some ==> effect->name->0 == name) && (effect->model is Some
                <==> picker.agents[entry] == "codex"@) && (effect->model is Some
                ==> effect->model->0 == "gpt-5.4"@)
        },
        picker.mode == (ModeView::CreateAgentSelect { selected }) && (forall|e: int|
            #[trigger] picks(key, selected, e) ==> !(0 <= e < picker.agents.len())) ==> !(
        picker.key(key, default_agent).1 is Create),
{
    digits_pick(key);
    if key.code == KeyCode::Enter {
        assert(picks(key, selected, selected));
    }
    match crate::keys::digit_position(key) {
        Some(i) => {
            assert(picks(key, selected, i));
        },
        None => {},
    }
    if picker.mode == (ModeView::CreateAgentSelect { selected }) {
        assert(picker.key(key, default_agent) == picker.agent_key(key, selected));
    }
}

// ---------------------------------------------------------------------------
// The question whether to remove a session
// ---------------------------------------------------------------------------
/// Escape, `n` and Enter at the second answer go back to the menu of the session, on the entry that
/// asked. Up is the first answer and Down the second, and other keys do nothing. Nothing is
/// removed by any of these.
pub proof fn removal_can_be_refused(
    picker: PickerView,
    key: KeyEvent,
    default_agent: Seq<char>,
    id: Seq<char>,
    selected: int,
)
    requires
        picker.mode == (ModeView::DeleteConfirm { session_id: id, selected }),
        0 <= selected <= 1,
        is_there(picker.sessions, id),
    ensures
        ({
            let (after, effect) = picker.key(key, default_agent);
            let refuses = key.code == KeyCode::Esc || key == plain(KeyCode::Char('n')) || key.code
                == KeyCode::Enter && selected == 1;
            let agrees = key.code == KeyCode::Enter && selected == 0 || key == plain(
                KeyCode::Char('y'),
            );
            &&& !agrees ==> effect == EffectView::Stay
            &&& refuses ==> after == (PickerView { mode: after.mode, ..picker }) && after.mode
                == (ModeView::SessionActions {
                session_id: id,
                selected: picker.actions(id).len() - 1,
            }) && picker.actions(id).last() == SessionAction::Delete
            &&& key.code == KeyCode::Up ==> after == (PickerView {
                mode: ModeView::DeleteConfirm { session_id: id, selected: 0 },
                ..picker
            })
            &&& key.code == KeyCode::Down ==> after == (PickerView {
                mode: ModeView::DeleteConfirm { session_id: id, selected: 1 },
                ..picker
            })
            &&& !refuses && !agrees && key.code != KeyCode::Up && key.code != KeyCode::Down ==> after
                == picker
        }),
{
    named_is_there(picker.sessions, id);
    let session = first_named(picker.sessions, id)->0;
    menus_offer_what_can_be_done(picker, id, session);
    let actions = picker.actions(id);
    stands_last(actions, SessionAction::Delete, 0);
    if crate::keys::unmodified(key) && (key.code == KeyCode::Char('n') || key.code == KeyCode::Char(
        'y',
    )) {
        assert(key == plain(key.code));
    }
}

proof fn stands_last(actions: Seq<SessionAction>, action: SessionAction, i: int)
    requires
        0 <= i < actions.len(),
        actions.last() == action,
        forall|k: int| i <= k < actions.len() - 1 ==> #[trigger] actions[k] != action,
    ensures
        position_of(actions, action, i) == actions.len() - 1,
    decreases actions.len() - i,
{
    if i < actions.len() - 1 {
        stands_last(actions, action, i + 1);
    }
}

// ---------------------------------------------------------------------------
// Moving about
// ---------------------------------------------------------------------------
/// Typing at the rows puts a character behind the query and selects the first row; Backspace takes
/// the last one off. Up and Down select the row above and below, and stop at the ends.
pub proof fn rows_are_searched(picker: PickerView, default_agent: Seq<char>, c: char)
    requires
        picker.mode == ModeView::Browse,
        0 <= picker.selected < picker.rows().len(),
    ensures
        picker.key(plain(KeyCode::Char(c)), default_agent) == (
            PickerView { toast: None, query: picker.query.push(c), selected: 0, ..picker },
            EffectView::Stay,
        ),
        ({
            let (after, effect) = picker.key(plain(KeyCode::Backspace), default_agent);
            &&& effect == EffectView::Stay
            &&& picker.query.len() > 0 ==> after.query == picker.query.drop_last()
            &&& picker.query.len() == 0 ==> after.query == picker.query
            &&& picker.selected < after.rows().len() ==> after.selected == picker.selected
            &&& picker.selected >= after.rows().len() ==> after.selected + 1 == after.rows().len()
            &&& after == (PickerView {
                toast: None,
                query: after.query,
                selected: after.selected,
                ..picker
            })
        }),
        picker.selected > 0 ==> picker.key(plain(KeyCode::Up), default_agent) == (
            PickerView { selected: picker.selected - 1, ..picker },
            EffectView::Stay,
        ),
        picker.selected == 0 ==> picker.key(plain(KeyCode::Up), default_agent) == (
            picker,
            EffectView::Stay,
        ),
        picker.selected + 1 < picker.rows().len() ==> picker.key(
            plain(KeyCode::Down),
            default_agent,
        ) == (PickerView { selected: picker.selected + 1, ..picker }, EffectView::Stay),
        picker.selected + 1 == picker.rows().len() ==> picker.key(
            plain(KeyCode::Down),
            default_agent,
        ) == (picker, EffectView::Stay),
{
}

/// Enter at the row of a session opens the menu of that session on its first entry. Enter at the
/// last row opens the menu of agents on the one that is used by default, unless what was typed can
/// be no session's name.
pub proof fn rows_open_menus(picker: PickerView, default_agent: Seq<char>, id: Seq<char>, i: int)
    requires
        picker.mode == ModeView::Browse,
        0 <= picker.selected < picker.rows().len(),
    ensures
        picker.rows().last() == RowView::Create,
        picker.rows()[picker.selected] == RowView::Session(id) ==> picker.key(
            plain(KeyCode::Enter),
            default_agent,
        ) == (
            PickerView {
                toast: None,
                mode: ModeView::SessionActions { session_id: id, selected: 0 },
                ..picker
            },
            EffectView::Stay,
        ),
        ({
            let name = trimmed(picker.query);
            let refused = name.len() > 0 && !is_session_name(name);
            let (after, effect) = picker.key(plain(KeyCode::Enter), default_agent);
            picker.selected == picker.rows().len() - 1 ==> {
                &&& effect == EffectView::Stay
                &&& refused ==> after.mode == ModeView::Browse && after.toast is Some
                    && after.toast->0.kind == PickerToastKind::Error
                &&& !refused && 0 <= i < picker.agents.len() && picker.agents[i] == default_agent
                    && (forall|k: int| 0 <= k < i ==> #[trigger] picker.agents[k] != default_agent)
                    ==> after == (PickerView {
                    toast: None,
                    mode: ModeView::CreateAgentSelect { selected: i },
                    ..picker
                })
                &&& !refused && picker.agents.len() > 0 && !picker.agents.contains(default_agent)
                    ==> after == (PickerView {
                    toast: None,
                    mode: ModeView::CreateAgentSelect { selected: 0 },
                    ..picker
                })
            }
        }),
{
    let found = matching(picker.sessions, picker.query);
    if picker.selected < found.len() {
        let session = found[picker.selected];
        assert(found.contains(session));
        matching_is_exact(picker.sessions, picker.query, session);
        let k = choose|k: int| 0 <= k < picker.sessions.len() && picker.sessions[k] == session;
        assert(picker.sessions[k].session_id@ == session.session_id@);
        named_is_there(picker.sessions, session.session_id@);
        let named = first_named(picker.sessions, session.session_id@)->0;
        menus_offer_what_can_be_done(picker, session.session_id@, named);
    }
    if 0 <= i < picker.agents.len() && picker.agents[i] == default_agent && (forall|k: int|
        0 <= k < i ==> #[trigger] picker.agents[k] != default_agent) {
        text_stands_at(picker.agents, default_agent, i, 0);
    }
    if !picker.agents.contains(default_agent) {
        text_stands_nowhere(picker.agents, default_agent, 0);
    }
}

proof fn text_stands_at(texts: Seq<Seq<char>>, text: Seq<char>, c: int, i: int)
    requires
        0 <= i <= c < texts.len(),
        texts[c] == text,
        forall|k: int| i <= k < c ==> #[trigger] texts[k] != text,
    ensures
        position_of_text(texts, text, i) == c,
    decreases c - i,
{
    if i < c {
        text_stands_at(texts, text, c, i + 1);
    }
}

proof fn text_stands_nowhere(texts: Seq<Seq<char>>, text: Seq<char>, i: int)
    requires
        0 <= i,
        !texts.contains(text),
    ensures
        position_of_text(texts, text, i) == 0,
    decreases texts.len() - i,
{
    if i < texts.len() {
        assert(texts.contains(texts[i]));
        text_stands_nowhere(texts, text, i + 1);
    }
}

/// In a menu, Up and Down go to the entry above and below and stop at the ends, and Escape goes back
/// to the rows. Nothing is asked of the caller by these.
pub proof fn menus_are_walked(
    picker: PickerView,
    default_agent: Seq<char>,
    id: Seq<char>,
    selected: int,
)
    requires
        is_there(picker.sessions, id),
    ensures
        picker.mode == (ModeView::SessionActions { session_id: id, selected }) && 0 <= selected
            < picker.actions(id).len() ==> {
            &&& picker.key(plain(KeyCode::Up), default_agent) == (
                PickerView {
                    mode: ModeView::SessionActions {
                        session_id: id,
                        selected: if selected > 0 {
                            selected - 1
                        } else {
                            0
                        },
                    },
                    ..picker
                },
                EffectView::Stay,
            )
            &&& picker.key(plain(KeyCode::Down), default_agent) == (
                PickerView {
                    mode: ModeView::SessionActions {
                        session_id: id,
                        selected: if selected + 1 < picker.actions(id).len() {
                            selected + 1
                        } else {
                            selected
                        },
                    },
                    ..picker
                },
                EffectView::Stay,
            )
        },
        picker.mode == (ModeView::CreateAgentSelect { selected }) && 0 <= selected
            < picker.agents.len() ==> {
            &&& picker.key(plain(KeyCode::Up), default_agent) == (
                PickerView {
                    mode: ModeView::CreateAgentSelect {
                        selected: if selected > 0 {
                            selected - 1
                        } else {
                            0
                        },
                    },
                    ..picker
                },
                EffectView::Stay,
            )
            &&& picker.key(plain(KeyCode::Down), default_agent) == (
                PickerView {
                    mode: ModeView::CreateAgentSelect {
                        selected: if selected + 1 < picker.agents.len() {
                            selected + 1
                        } else {
                            selected
                        },
                    },
                    ..picker
                },
                EffectView::Stay,
            )
        },
        picker.mode is SessionActions || picker.mode is CreateAgentSelect ==> picker.key(
            plain(KeyCode::Esc),
            default_agent,
        ) == (PickerView { mode: ModeView::Browse, ..picker }, EffectView::Stay),
{
    named_is_there(picker.sessions, id);
}

/// The changes of a session move by a line with Up and Down and by ten with the page keys. Escape
/// goes back to the menu of the session, on the entry that showed them. Nothing is asked of the
/// caller meanwhile.
pub proof fn changes_are_scrolled(
    picker: PickerView,
    key: KeyEvent,
    default_agent: Seq<char>,
    id: Seq<char>,
    i: int,
)
    requires
        picker.mode == (ModeView::DiffView { session_id: id }),
        0 <= picker.detail_scroll <= usize::MAX,
    ensures
        ({
            let (after, effect) = picker.key(key, default_agent);
            let lines = match key.code {
                KeyCode::Up => -1int,
                KeyCode::Down => 1int,
                KeyCode::PageUp => -10int,
                KeyCode::PageDown => 10int,
                _ => 0int,
            };
            let due = picker.detail_scroll + lines;
            &&& effect == EffectView::Stay
            &&& key.code != KeyCode::Esc ==> after == (PickerView {
                detail_scroll: if due < 0 {
                    0
                } else if due > usize::MAX {
                    usize::MAX as int
                } else {
                    due
                },
                ..picker
            })
            &&& key.code == KeyCode::Esc && is_there(picker.sessions, id) && 0 <= i < picker.actions(
                id,
            ).len() && picker.actions(id)[i] == SessionAction::Diff ==> after == (PickerView {
                mode: ModeView::SessionActions { session_id: id, selected: i },
                ..picker
            })
        }),
{
    named_is_there(picker.sessions, id);
    if is_there(picker.sessions, id) {
        menus_offer_what_can_be_done(picker, id, first_named(picker.sessions, id)->0);
        reveal_with_fuel(position_of, 3);
    }
}

/// A refresh takes the sessions and agents that are given, and keeps what was typed, what is said
/// and what is selected, as far as that is still there. A menu, diff or question whose session
/// is gone closes; one whose session is there stays open for it.
pub proof fn refreshes_keep_what_is_open(
    picker: PickerView,
    sessions: Seq<SessionRecord>,
    agents: Seq<Seq<char>>,
    id: Seq<char>,
    selected: int,
)
    ensures
        ({
            let after = picker.refreshed(sessions, agents);
            let there = is_there(sessions, id);
            &&& after.sessions == sessions
            &&& agents.len() > 0 ==> after.agents == agents
            &&& agents.len() == 0 ==> after.agents == seq!["codex"@]
            &&& after.query == picker.query
            &&& after.toast == picker.toast
            &&& after.detail_text == picker.detail_text
            &&& after.detail_scroll == picker.detail_scroll
            &&& picker.selected < after.rows().len() ==> after.selected == picker.selected
            &&& picker.selected >= after.rows().len() ==> after.selected + 1 == after.rows().len()
            &&& picker.mode == ModeView::Browse ==> after.mode == ModeView::Browse
            &&& picker.mode == (ModeView::DiffView { session_id: id }) ==> after.mode == (if there {
                picker.mode
            } else {
                ModeView::Browse
            })
            &&& picker.mode == (ModeView::DeleteConfirm { session_id: id, selected }) && selected
                <= 1 ==> after.mode == (if there {
                picker.mode
            } else {
                ModeView::Browse
            })
            &&& picker.mode == (ModeView::SessionActions { session_id: id, selected }) ==> if there {
                &&& after.mode is SessionActions
                &&& after.mode->SessionActions_session_id == id
                &&& selected < after.actions(id).len() ==> after.mode == picker.mode
                &&& selected >= after.actions(id).len() ==> after.mode == (
                ModeView::SessionActions { session_id: id, selected: after.actions(id).len() - 1 })
            } else {
                after.mode == ModeView::Browse
            }
            &&& picker.mode == (ModeView::CreateAgentSelect { selected }) ==> after.mode
                is CreateAgentSelect && (selected < after.agents.len() ==> after.mode
                == picker.mode) && (selected >= after.agents.len() ==> after.mode == (
            ModeView::CreateAgentSelect { selected: after.agents.len() - 1 }))
        }),
{
    named_is_there(sessions, id);
}

} // verus!
