//! Going from one session to another from within: which sessions can be gone to, and the list
//! from which one of them is picked.
use crate::fuzzy::{fuzzy, fuzzy_score};
use crate::keys::{typed, KeyCode, KeyEvent};
use crate::order::{as_ints, order_of, stable_order, SortKey};
use crate::session::{SessionRecord, SessionStatus};
use crate::session_find::{status_label, status_name};
use crate::text::{same, views};
use vstd::prelude::*;
use vstd::string::*;

verus! {

/// Whether a session can be gone to from another.
pub open spec fn is_choice(session: SessionRecord, current: Seq<char>) -> bool {
    session.status == SessionStatus::Running && session.session_id@ != current
}

/// The sessions that can be gone to from another, in their order.
pub open spec fn choices(sessions: Seq<SessionRecord>, current: Seq<char>) -> Seq<SessionRecord>
    decreases sessions.len(),
{
    if sessions.len() == 0 {
        Seq::empty()
    } else if is_choice(sessions.last(), current) {
        choices(sessions.drop_last(), current).push(sessions.last())
    } else {
        choices(sessions.drop_last(), current)
    }
}

/// The sessions that can be gone to from another, in their order.
pub fn switch_choices(sessions: &Vec<SessionRecord>, current_session_id: &str) -> (r: Vec<
    SessionRecord,
>)
    ensures
        r@ == choices(sessions@, current_session_id@),
{
    let mut found: Vec<SessionRecord> = Vec::new();
    let mut i: usize = 0;
    assert(sessions@.take(0) =~= Seq::empty());
    while i < sessions.len()
        invariant
            i <= sessions.len(),
            found@ == choices(sessions@.take(i as int), current_session_id@),
        decreases sessions.len() - i,
    {
        assert(sessions@.take(i as int + 1).drop_last() =~= sessions@.take(i as int));
        let session = &sessions[i];
        if session.status == SessionStatus::Running && !same(
            session.session_id.as_str(),
            current_session_id,
        ) {
            found.push(session.clone());
        }
        i = i + 1;
    }
    assert(sessions@.take(i as int) =~= sessions@);
    found
}

/// The session that the switcher is opened from: only within one, and only at a terminal.
pub fn in_session_switch_context(
    stdin_is_terminal: bool,
    stdout_is_terminal: bool,
    session_id: Option<String>,
) -> (r: Option<String>)
    ensures
        r == (if stdin_is_terminal && stdout_is_terminal {
            session_id
        } else {
            None
        }),
{
    if !stdin_is_terminal || !stdout_is_terminal {
        return None;
    }
    session_id
}

// ---------------------------------------------------------------------------
// Searching
// ---------------------------------------------------------------------------
/// What a session is searched by.
pub open spec fn switch_text(session: SessionRecord) -> Seq<char> {
    session.session_id@ + " "@ + session.agent@ + " "@ + session.branch@ + " "@ + session.task@
        + " "@ + session.workspace@
}

/// What a session is searched by.
pub fn session_search_text(session: &SessionRecord) -> (r: String)
    ensures
        r@ == switch_text(*session),
{
    let mut text = session.session_id.clone();
    text.append(" ");
    text.append(session.agent.as_str());
    text.append(" ");
    text.append(session.branch.as_str());
    text.append(" ");
    text.append(session.task.as_str());
    text.append(" ");
    text.append(session.workspace.as_str());
    text
}

/// The sessions that match a query, with what it is worth in them, in their order.
pub open spec fn scored(sessions: Seq<SessionRecord>, query: Seq<char>) -> Seq<
    (int, SessionRecord),
>
    decreases sessions.len(),
{
    if sessions.len() == 0 {
        Seq::empty()
    } else {
        let front = scored(sessions.drop_last(), query);
        match fuzzy(switch_text(sessions.last()), query) {
            Some(value) => front.push((value, sessions.last())),
            None => front,
        }
    }
}

/// By what a match is placed: the best first, and of those alike the oldest.
pub open spec fn match_key(found: (int, SessionRecord)) -> SortKey {
    SortKey {
        major: (-1 - found.0) as i128,
        middle: found.1.created_at.seconds as i128,
        minor: found.1.created_at.nanos as i128,
    }
}

/// By what matches are placed.
pub open spec fn match_keys(found: Seq<(int, SessionRecord)>) -> Seq<SortKey> {
    Seq::new(found.len(), |i: int| match_key(found[i]))
}

/// The sessions that match a query: the best match first, and of those alike the oldest session.
pub open spec fn best_matches(sessions: Seq<SessionRecord>, query: Seq<char>) -> Seq<
    (int, SessionRecord),
> {
    let found = scored(sessions, query);
    let order = order_of(match_keys(found));
    Seq::new(order.len(), |i: int| found[order[i]])
}

/// Matches as numbers and sessions.
pub open spec fn match_views(found: Seq<(i128, &SessionRecord)>) -> Seq<(int, SessionRecord)> {
    Seq::new(found.len(), |i: int| (found[i].0 as int, *found[i].1))
}

/// Whether no match stands behind a worse one, nor behind a younger session that matches as well.
pub open spec fn best_come_first(found: Seq<(i128, &SessionRecord)>) -> bool {
    forall|i: int, j: int|
        0 <= i < j < found.len() ==> (#[trigger] found[i]).0 >= (#[trigger] found[j]).0 && (
        found[i].0 == found[j].0 ==> !found[j].1.created_at.before(found[i].1.created_at))
}

/// The number with the order of all numbers turned round, without leaving them.
fn turned(value: i128) -> (r: i128)
    ensures
        r == -1 - value,
{
    -1 - value
}

/// The sessions that match a query: the best match first, and of those alike the oldest session.
pub fn filtered_sessions<'a>(sessions: &'a Vec<SessionRecord>, query: &str) -> (r: Vec<
    (i128, &'a SessionRecord),
>)
    ensures
        match_views(r@) == best_matches(sessions@, query@),
        best_come_first(r@),
{
    let mut found: Vec<(i128, &'a SessionRecord)> = Vec::new();
    let mut keys: Vec<SortKey> = Vec::new();
    let mut i: usize = 0;
    assert(sessions@.take(0) =~= Seq::empty());
    assert(match_views(found@) =~= Seq::empty());
    assert(keys@ =~= match_keys(match_views(found@)));
    while i < sessions.len()
        invariant
            i <= sessions.len(),
            match_views(found@) == scored(sessions@.take(i as int), query@),
            keys@ == match_keys(match_views(found@)),
        decreases sessions.len() - i,
    {
        assert(sessions@.take(i as int + 1).drop_last() =~= sessions@.take(i as int));
        let session = &sessions[i];
        let ghost before = match_views(found@);
        if let Some(value) = fuzzy_score(session_search_text(session).as_str(), query) {
            found.push((value, session));
            keys.push(
                SortKey {
                    major: turned(value),
                    middle: session.created_at.seconds as i128,
                    minor: session.created_at.nanos as i128,
                },
            );
            assert(match_views(found@) =~= before.push((value as int, *session)));
            assert(keys@ =~= match_keys(match_views(found@)));
        }
        i = i + 1;
    }
    assert(sessions@.take(i as int) =~= sessions@);
    let ghost all = match_views(found@);
    let order = stable_order(&keys);
    proof {
        crate::order::order_is_sorted_and_stable(keys@);
    }
    let mut r: Vec<(i128, &'a SessionRecord)> = Vec::new();
    let mut n: usize = 0;
    while n < order.len()
        invariant
            n <= order.len(),
            r@.len() == n,
            order@.len() == found@.len(),
            as_ints(order@) == order_of(keys@),
            all == match_views(found@),
            forall|k: int| 0 <= k < order@.len() ==> as_ints(order@)[k] < found@.len(),
            forall|k: int|
                0 <= k < n ==> match_views(r@)[k] == all[#[trigger] as_ints(order@)[k]],
            forall|k: int| 0 <= k < n ==> r@[k] == found@[#[trigger] as_ints(order@)[k]],
        decreases order.len() - n,
    {
        assert(as_ints(order@)[n as int] < found@.len());
        let ghost before = r@;
        let at: usize = order[n];
        r.push((found[at].0, found[at].1));
        assert(r@[n as int] == found@[as_ints(order@)[n as int]]);
        assert forall|k: int| 0 <= k < n implies r@[k] == found@[#[trigger] as_ints(
            order@,
        )[k]] by {
            assert(before[k] == r@[k]);
        }
        assert forall|k: int| 0 <= k < n + 1 implies match_views(r@)[k] == all[
            #[trigger] as_ints(order@)[k]] by {
            if k < n {
                assert(match_views(before)[k] == match_views(r@)[k]);
            }
        }
        n = n + 1;
    }
    assert forall|i: int, j: int| 0 <= i < j < r@.len() implies (#[trigger] r@[i]).0 >= (
    #[trigger] r@[j]).0 && (r@[i].0 == r@[j].0 ==> !r@[j].1.created_at.before(
        r@[i].1.created_at,
    )) by {
        let a = as_ints(order@)[i];
        let b = as_ints(order@)[j];
        assert(order_of(keys@)[i] == a && order_of(keys@)[j] == b);
        assert(keys@[a] == match_key(all[a]));
        assert(keys@[b] == match_key(all[b]));
    }
    assert(match_views(r@) =~= best_matches(sessions@, query@)) by {
        assert forall|k: int| 0 <= k < r@.len() implies match_views(r@)[k] == best_matches(
            sessions@,
            query@,
        )[k] by {
            assert(match_views(r@)[k] == all[as_ints(order@)[k]]);
        }
    }
    r
}

// ---------------------------------------------------------------------------
// The list
// ---------------------------------------------------------------------------
/// The state of the list: what was typed, and the place of the mark.
#[derive(Debug)]
pub struct Switcher {
    pub query: Vec<char>,
    pub selected: usize,
}

/// What a key came to.
#[derive(Debug)]
pub enum SwitchEffect {
    Stay,
    Cancel,
    Switch(String),
}

/// The place of the mark among so many matches.
pub open spec fn marked(selected: int, matches: int) -> int {
    if selected >= matches && matches > 0 {
        matches - 1
    } else {
        selected
    }
}

impl Switcher {
    /// A list in which nothing was typed.
    pub fn new() -> (r: Switcher)
        ensures
            r.query@.len() == 0,
            r.selected == 0,
    {
        Switcher { query: Vec::new(), selected: 0 }
    }

    /// Puts the mark on a match, where there is any.
    pub fn clamp(&mut self, matches: usize)
        ensures
            final(self).query == old(self).query,
            final(self).selected == marked(old(self).selected as int, matches as int),
    {
        if self.selected >= matches && matches > 0 {
            self.selected = matches - 1;
        }
    }

    /// Takes a key. `matches` are the sessions that match what was typed.
    pub fn handle_key(&mut self, key: KeyEvent, matches: &Vec<(i128, &SessionRecord)>) -> (r:
        SwitchEffect)
        ensures
            switch_key(
                old(self).query@,
                old(self).selected as int,
                key,
                match_views(matches@),
            ) == (final(self).query@, final(self).selected as int, effect_of(r)),
    {
        match key.code {
            KeyCode::Esc => SwitchEffect::Cancel,
            KeyCode::Enter => {
                if self.selected < matches.len() {
                    assert(match_views(matches@)[self.selected as int].1
                        == *matches@[self.selected as int].1);
                    SwitchEffect::Switch(matches[self.selected].1.session_id.clone())
                } else {
                    SwitchEffect::Stay
                }
            },
            KeyCode::Up => {
                if self.selected > 0 {
                    self.selected = self.selected - 1;
                }
                SwitchEffect::Stay
            },
            KeyCode::Down => {
                if self.selected < matches.len() && self.selected + 1 < matches.len() {
                    self.selected = self.selected + 1;
                }
                SwitchEffect::Stay
            },
            KeyCode::Backspace => {
                let ghost before = self.query@;
                let _ = self.query.pop();
                assert(before.len() == 0 ==> self.query@ =~= before);
                self.selected = 0;
                SwitchEffect::Stay
            },
            KeyCode::Char(c) => {
                if c == 'c' && key.modifiers.control {
                    return SwitchEffect::Cancel;
                }
                if let Some(c) = key.typed_char() {
                    self.query.push(c);
                    self.selected = 0;
                }
                SwitchEffect::Stay
            },
            _ => SwitchEffect::Stay,
        }
    }
}

/// What a key came to.
pub enum EffectView {
    Stay,
    Cancel,
    Switch(Seq<char>),
}

/// What a key came to.
pub open spec fn effect_of(effect: SwitchEffect) -> EffectView {
    match effect {
        SwitchEffect::Stay => EffectView::Stay,
        SwitchEffect::Cancel => EffectView::Cancel,
        SwitchEffect::Switch(id) => EffectView::Switch(id@),
    }
}

/// What a key makes of the list: what is typed then, the place of the mark, and what it comes to.
pub open spec fn switch_key(
    query: Seq<char>,
    selected: int,
    key: KeyEvent,
    matches: Seq<(int, SessionRecord)>,
) -> (Seq<char>, int, EffectView) {
    match key.code {
        KeyCode::Esc => (query, selected, EffectView::Cancel),
        KeyCode::Enter => (
            query,
            selected,
            if selected < matches.len() {
                EffectView::Switch(matches[selected].1.session_id@)
            } else {
                EffectView::Stay
            },
        ),
        KeyCode::Up => (
            query,
            if selected > 0 {
                selected - 1
            } else {
                selected
            },
            EffectView::Stay,
        ),
        KeyCode::Down => (
            query,
            if selected + 1 < matches.len() {
                selected + 1
            } else {
                selected
            },
            EffectView::Stay,
        ),
        KeyCode::Backspace => (
            if query.len() > 0 {
                query.drop_last()
            } else {
                query
            },
            0,
            EffectView::Stay,
        ),
        KeyCode::Char(c) => if c == 'c' && key.modifiers.control {
            (query, selected, EffectView::Cancel)
        } else {
            match typed(key) {
                Some(c) => (query.push(c), 0, EffectView::Stay),
                None => (query, selected, EffectView::Stay),
            }
        },
        _ => (query, selected, EffectView::Stay),
    }
}

/// The two lines of a match.
pub open spec fn match_lines(session: SessionRecord, selected: bool) -> Seq<Seq<char>> {
    seq![
        (if selected {
            ">"@
        } else {
            " "@
        }) + " "@ + session.session_id@ + "  "@ + session.agent@ + "  "@ + status_name(
            session.status,
        ) + "  "@ + session.branch@,
        "  "@ + session.task@,
    ]
}

/// The lines of the first matches.
pub open spec fn matches_lines(
    matches: Seq<(int, SessionRecord)>,
    selected: int,
    n: int,
) -> Seq<Seq<char>>
    decreases n,
{
    if n <= 0 {
        Seq::empty()
    } else {
        matches_lines(matches, selected, n - 1) + match_lines(matches[n - 1].1, n - 1 == selected)
    }
}

/// The lines of the list: a heading, what was typed, and the first ten matches.
pub open spec fn switcher_lines(
    query: Seq<char>,
    matches: Seq<(int, SessionRecord)>,
    selected: int,
) -> Seq<Seq<char>> {
    let head = seq![
        "Switch session"@,
        "Query: "@ + query,
        "Enter switches, Esc cancels"@,
        ""@,
    ];
    if matches.len() == 0 {
        head.push("No matching running sessions."@)
    } else {
        head + matches_lines(
            matches,
            selected,
            if matches.len() < 10 {
                matches.len() as int
            } else {
                10
            },
        )
    }
}

fn match_line(session: &SessionRecord, selected: bool) -> (r: String)
    ensures
        r@ == match_lines(*session, selected)[0],
{
    let mut text = (if selected {
        ">"
    } else {
        " "
    }).to_string();
    text.append(" ");
    text.append(session.session_id.as_str());
    text.append("  ");
    text.append(session.agent.as_str());
    text.append("  ");
    text.append(status_label(session.status));
    text.append("  ");
    text.append(session.branch.as_str());
    text
}

/// The lines of the list.
pub fn render_session_picker(
    query: &str,
    matches: &Vec<(i128, &SessionRecord)>,
    selected: usize,
) -> (r: Vec<String>)
    ensures
        views(r@) == switcher_lines(query@, match_views(matches@), selected as int),
{
    let ghost found = match_views(matches@);
    let mut typed_line = "Query: ".to_string();
    typed_line.append(query);
    let mut lines: Vec<String> = Vec::new();
    lines.push("Switch session".to_string());
    lines.push(typed_line);
    lines.push("Enter switches, Esc cancels".to_string());
    lines.push("".to_string());
    let ghost head = seq![
        "Switch session"@,
        "Query: "@ + query@,
        "Enter switches, Esc cancels"@,
        ""@,
    ];
    assert(views(lines@) =~= head);
    if matches.len() == 0 {
        lines.push("No matching running sessions.".to_string());
        assert(views(lines@) =~= head.push("No matching running sessions."@));
        return lines;
    }
    let shown: usize = if matches.len() < 10 {
        matches.len()
    } else {
        10
    };
    let mut i: usize = 0;
    assert(head + matches_lines(found, selected as int, 0) =~= head);
    while i < shown
        invariant
            i <= shown <= matches.len(),
            found == match_views(matches@),
            views(lines@) == head + matches_lines(found, selected as int, i as int),
        decreases shown - i,
    {
        let session = matches[i].1;
        assert(found[i as int].1 == *session);
        let mut task = "  ".to_string();
        task.append(session.task.as_str());
        let ghost before = views(lines@);
        lines.push(match_line(session, i == selected));
        lines.push(task);
        assert(views(lines@) =~= before + match_lines(*session, i == selected));
        assert(views(lines@) =~= head + matches_lines(found, selected as int, i as int + 1));
        i = i + 1;
    }
    lines
}

// ---------------------------------------------------------------------------
// Laws
// ---------------------------------------------------------------------------
/// A session is offered exactly where it is one of the sessions, runs, and is not the one that is
/// left.
pub proof fn choices_are_the_others(
    sessions: Seq<SessionRecord>,
    current: Seq<char>,
    session: SessionRecord,
)
    ensures
        choices(sessions, current).contains(session) <==> sessions.contains(session) && is_choice(
            session,
            current,
        ),
    decreases sessions.len(),
{
    if sessions.len() > 0 {
        let front = sessions.drop_last();
        let found = choices(front, current);
        choices_are_the_others(front, current, session);
        if sessions.contains(session) {
            let k = choose|k: int| 0 <= k < sessions.len() && sessions[k] == session;
            if k < front.len() {
                assert(front[k] == session);
            }
        }
        if front.contains(session) {
            let k = choose|k: int| 0 <= k < front.len() && front[k] == session;
            assert(sessions[k] == session);
        }
        assert(sessions[sessions.len() - 1] == sessions.last());
        if is_choice(sessions.last(), current) {
            let all = found.push(sessions.last());
            assert(all[found.len() as int] == sessions.last());
            if found.contains(session) {
                let k = choose|k: int| 0 <= k < found.len() && found[k] == session;
                assert(all[k] == session);
            }
            if all.contains(session) {
                let k = choose|k: int| 0 <= k < all.len() && all[k] == session;
                if k < found.len() {
                    assert(found[k] == session);
                }
            }
        }
    }
}

/// The mark of the list stands on a match after every key, where there is any match and it was put
/// on one before.
pub proof fn keys_keep_the_mark(
    query: Seq<char>,
    selected: int,
    key: KeyEvent,
    matches: Seq<(int, SessionRecord)>,
)
    requires
        0 <= selected < matches.len(),
    ensures
        0 <= switch_key(query, selected, key, matches).1 < matches.len(),
        switch_key(query, selected, key, matches).2 matches EffectView::Switch(id) ==> exists|
            i: int,
        |
            0 <= i < matches.len() && (#[trigger] matches[i]).1.session_id@ == id,
{
}

} // verus!
