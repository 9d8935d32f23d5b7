//! What the full-screen view says of a session, and in which order it shows them.
use crate::order::{as_ints, order_of, stable_order, SortKey};
use crate::session::{IntegrationState, SessionRecord, SessionStatus};
use crate::session_display::{elapsed_label, session_elapsed_label_at};
use crate::session_find::{status_label, status_name};
use crate::session_list::pointed_to;
use crate::style::{colored, Color, Style};
use crate::time::Timestamp;
use vstd::prelude::*;
use vstd::string::*;

verus! {

/// How urgent a session is, the most urgent first: it waits for its user, it is in trouble, its
/// changes wait for review, it works, it pauses, it is done.
pub open spec fn rank(session: SessionRecord) -> int {
    if session.status == SessionStatus::NeedsInput {
        0
    } else if session.status == SessionStatus::Failed || session.status
        == SessionStatus::UnknownRecovered || session.has_conflicts {
        1
    } else if session.integration_state == IntegrationState::PendingReview {
        2
    } else if session.status == SessionStatus::Running || session.status
        == SessionStatus::Creating {
        3
    } else if session.status == SessionStatus::Paused {
        4
    } else {
        5
    }
}

/// How urgent a session is.
pub fn session_rank(session: &SessionRecord) -> (r: u8)
    ensures
        r == rank(*session),
{
    if session.status == SessionStatus::NeedsInput {
        0
    } else if session.status == SessionStatus::Failed || session.status
        == SessionStatus::UnknownRecovered || session.has_conflicts {
        1
    } else if session.integration_state == IntegrationState::PendingReview {
        2
    } else if session.status == SessionStatus::Running || session.status
        == SessionStatus::Creating {
        3
    } else if session.status == SessionStatus::Paused {
        4
    } else {
        5
    }
}

/// The sign of a session.
pub open spec fn icon(session: SessionRecord) -> Seq<char> {
    if session.integration_state == IntegrationState::PendingReview {
        "⧖"@
    } else {
        match session.status {
            SessionStatus::NeedsInput => "◦"@,
            SessionStatus::Failed => "✖"@,
            SessionStatus::UnknownRecovered => "⚠"@,
            SessionStatus::Running | SessionStatus::Creating => "●"@,
            SessionStatus::Paused => "⏸"@,
            SessionStatus::Exited => "✔"@,
        }
    }
}

/// The sign of a session.
pub fn session_icon(session: &SessionRecord) -> (r: &'static str)
    ensures
        r@ == icon(*session),
{
    if session.integration_state == IntegrationState::PendingReview {
        "⧖"
    } else {
        match session.status {
            SessionStatus::NeedsInput => "◦",
            SessionStatus::Failed => "✖",
            SessionStatus::UnknownRecovered => "⚠",
            SessionStatus::Running | SessionStatus::Creating => "●",
            SessionStatus::Paused => "⏸",
            SessionStatus::Exited => "✔",
        }
    }
}

/// The colour of a session.
pub open spec fn icon_color(session: SessionRecord) -> Color {
    if session.integration_state == IntegrationState::PendingReview {
        Color::Blue
    } else {
        match session.status {
            SessionStatus::NeedsInput => Color::Yellow,
            SessionStatus::Failed => Color::Red,
            SessionStatus::UnknownRecovered => Color::Yellow,
            SessionStatus::Running | SessionStatus::Creating => Color::Green,
            SessionStatus::Paused => Color::DarkGray,
            SessionStatus::Exited => Color::Green,
        }
    }
}

/// The colour of a session.
pub fn session_icon_color(session: &SessionRecord) -> (r: Color)
    ensures
        r == icon_color(*session),
{
    if session.integration_state == IntegrationState::PendingReview {
        Color::Blue
    } else {
        match session.status {
            SessionStatus::NeedsInput => Color::Yellow,
            SessionStatus::Failed => Color::Red,
            SessionStatus::UnknownRecovered => Color::Yellow,
            SessionStatus::Running | SessionStatus::Creating => Color::Green,
            SessionStatus::Paused => Color::DarkGray,
            SessionStatus::Exited => Color::Green,
        }
    }
}

/// The style of the sign of a session: dim where nothing happens.
pub open spec fn icon_style(session: SessionRecord) -> Style {
    let style = colored(icon_color(session));
    if session.status == SessionStatus::NeedsInput || session.status == SessionStatus::Paused {
        Style { dim: true, ..style }
    } else {
        style
    }
}

/// The style of the sign of a session.
pub fn session_icon_style(session: &SessionRecord) -> (r: Style)
    ensures
        r == icon_style(*session),
{
    let mut style = Style::color(session_icon_color(session));
    if session.status == SessionStatus::NeedsInput || session.status == SessionStatus::Paused {
        style.dim = true;
    }
    style
}

/// What is said of a session: its summary counts first, then conflicts, then what git says, then
/// that its changes wait for review.
pub open spec fn status_text(session: SessionRecord) -> Seq<char> {
    match session.attention_summary {
        Some(summary) => summary@,
        None => if session.has_conflicts {
            "conflicts detected"@
        } else {
            match session.git_status_summary {
                Some(summary) => summary@,
                None => if session.integration_state == IntegrationState::PendingReview {
                    "review ready"@
                } else {
                    match session.status {
                        SessionStatus::Creating => "starting"@,
                        SessionStatus::Running => "working"@,
                        SessionStatus::Paused => "paused"@,
                        SessionStatus::NeedsInput => "needs input"@,
                        SessionStatus::Exited => "complete"@,
                        SessionStatus::Failed => match session.error {
                            Some(error) => error@,
                            None => "blocked"@,
                        },
                        SessionStatus::UnknownRecovered => "daemon lost the live process"@,
                    }
                },
            }
        },
    }
}

/// What is said of a session.
pub fn session_status_text(session: &SessionRecord) -> (r: String)
    ensures
        r@ == status_text(*session),
{
    match &session.attention_summary {
        Some(summary) => {
            return summary.clone();
        },
        None => {},
    }
    if session.has_conflicts {
        return "conflicts detected".to_string();
    }
    match &session.git_status_summary {
        Some(summary) => {
            return summary.clone();
        },
        None => {},
    }
    if session.integration_state == IntegrationState::PendingReview {
        return "review ready".to_string();
    }
    match session.status {
        SessionStatus::Creating => "starting".to_string(),
        SessionStatus::Running => "working".to_string(),
        SessionStatus::Paused => "paused".to_string(),
        SessionStatus::NeedsInput => "needs input".to_string(),
        SessionStatus::Exited => "complete".to_string(),
        SessionStatus::Failed => match &session.error {
            Some(error) => error.clone(),
            None => "blocked".to_string(),
        },
        SessionStatus::UnknownRecovered => "daemon lost the live process".to_string(),
    }
}

/// What a session is searched by.
pub open spec fn switcher_text(session: SessionRecord, now: Timestamp) -> Seq<char> {
    elapsed_label(session, now) + " "@ + session.session_id@ + " "@ + session.title@ + " "@
        + session.repo_name@ + " "@ + session.branch@ + " "@ + status_name(session.status)
}

/// What a session is searched by.
pub fn session_switcher_text(session: &SessionRecord, now: Timestamp) -> (r: String)
    requires
        session.valid(),
        now.valid(),
    ensures
        r@ == switcher_text(*session, now),
{
    let mut r = session_elapsed_label_at(session, now);
    r.append(" ");
    r.append(session.session_id.as_str());
    r.append(" ");
    r.append(session.title.as_str());
    r.append(" ");
    r.append(session.repo_name.as_str());
    r.append(" ");
    r.append(session.branch.as_str());
    r.append(" ");
    r.append(status_label(session.status));
    r
}

/// What sessions are ordered by: how urgent they are, and then what changed last.
pub open spec fn urgency_key(session: SessionRecord) -> SortKey {
    SortKey {
        major: rank(session) as i128,
        middle: -(session.updated_at.seconds as int) as i128,
        minor: -(session.updated_at.nanos as int) as i128,
    }
}

/// What sessions are ordered by.
pub open spec fn urgency_keys(sessions: Seq<SessionRecord>) -> Seq<SortKey> {
    Seq::new(sessions.len(), |i: int| urgency_key(sessions[i]))
}

/// Sessions with the most urgent first.
pub open spec fn by_urgency(sessions: Seq<SessionRecord>) -> Seq<SessionRecord> {
    let order = order_of(urgency_keys(sessions));
    Seq::new(order.len(), |i: int| sessions[order[i]])
}

/// Sessions with the most urgent first.
pub fn ordered_sessions<'a>(sessions: &'a Vec<SessionRecord>) -> (r: Vec<&'a SessionRecord>)
    ensures
        pointed_to(r@) == by_urgency(sessions@),
        r@.len() == sessions@.len(),
        forall|i: int| 0 <= i < r@.len() ==> sessions@.contains(*(#[trigger] r@[i])),
{
    let mut keys: Vec<SortKey> = Vec::new();
    let mut i: usize = 0;
    while i < sessions.len()
        invariant
            i <= sessions.len(),
            keys@.len() == i,
            forall|k: int| 0 <= k < i ==> #[trigger] keys@[k] == urgency_key(sessions@[k]),
        decreases sessions.len() - i,
    {
        let session = &sessions[i];
        keys.push(
            SortKey {
                major: session_rank(session) as i128,
                middle: -(session.updated_at.seconds as i128),
                minor: -(session.updated_at.nanos as i128),
            },
        );
        i = i + 1;
    }
    assert(keys@ =~= urgency_keys(sessions@));
    let order = stable_order(&keys);
    proof {
        crate::order::order_is_sorted_and_stable(keys@);
    }
    let ghost due = order_of(keys@);
    let mut r: Vec<&'a SessionRecord> = Vec::new();
    let mut j: usize = 0;
    while j < order.len()
        invariant
            j <= order.len(),
            as_ints(order@) == due,
            due.len() == sessions@.len(),
            forall|k: int| 0 <= k < due.len() ==> 0 <= #[trigger] due[k] < sessions@.len(),
            r@.len() == j,
            forall|k: int| 0 <= k < j ==> *(#[trigger] r@[k]) == sessions@[due[k]],
            forall|k: int| 0 <= k < j ==> sessions@.contains(*(#[trigger] r@[k])),
        decreases order.len() - j,
    {
        assert(as_ints(order@)[j as int] == due[j as int]);
        r.push(&sessions[order[j]]);
        j = j + 1;
    }
    assert(pointed_to(r@) =~= by_urgency(sessions@));
    r
}

/// No session is shown after a less urgent one, nor after one that is as urgent and changed
/// before it.
pub proof fn urgent_sessions_come_first(sessions: Seq<SessionRecord>, i: int, j: int)
    requires
        0 <= i < j < sessions.len(),
    ensures
        by_urgency(sessions).len() == sessions.len(),
        rank(by_urgency(sessions)[i]) <= rank(by_urgency(sessions)[j]),
        rank(by_urgency(sessions)[i]) == rank(by_urgency(sessions)[j]) ==> !by_urgency(
            sessions,
        )[i].updated_at.before(by_urgency(sessions)[j].updated_at),
{
    let keys = urgency_keys(sessions);
    let order = order_of(keys);
    crate::order::order_is_sorted_and_stable(keys);
    let a = order[i];
    let b = order[j];
    assert(keys[a].before(keys[b]) || (keys[a] == keys[b] && a < b));
    assert(keys[a] == urgency_key(sessions[a]));
    assert(keys[b] == urgency_key(sessions[b]));
}

} // verus!
