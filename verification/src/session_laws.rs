//! In which order sessions are listed, and what is shown of them, told by what they are.
use crate::order::order_of;
use crate::session::{ApplyState, AttentionLevel, SessionRecord, SessionStatus};
use crate::session_list::{
    display_state, icon_style, list_is_ordered, ordered, pending_marker, pending_marker_style,
    session_keys, state_color, state_icon, state_label, state_prefix, status_text, ANSI_DIM,
    HOST_PICKER_STATUS_GREEN_FG, HOST_PICKER_STATUS_RED_FG, HOST_PICKER_STATUS_YELLOW_FG,
};
use crate::style::Color;
use vstd::prelude::*;
use vstd::string::*;

verus! {

/// Whether a session lives.
pub open spec fn lives(session: SessionRecord) -> bool {
    session.status == SessionStatus::Creating || session.status == SessionStatus::Running
}

/// Whether a session waits for input, with changes that were not applied.
pub open spec fn waits_for_input(session: SessionRecord) -> bool {
    session.status == SessionStatus::NeedsInput && session.apply_state != ApplyState::Applied
}

/// Whether a session failed, pauses or was recovered.
pub open spec fn failed_or_recovered(session: SessionRecord) -> bool {
    session.status == SessionStatus::Failed || session.status == SessionStatus::Paused
        || session.status == SessionStatus::UnknownRecovered
}

/// Whether one session changed later than another.
pub open spec fn changed_later(a: SessionRecord, b: SessionRecord) -> bool {
    a.updated_at.seconds > b.updated_at.seconds || a.updated_at.seconds == b.updated_at.seconds
        && a.updated_at.nanos > b.updated_at.nanos
}

/// Sessions that live stand above all others. Of the rest, those that wait for input stand above
/// the others; of the rest, those that failed or were recovered; of the rest, those whose changes
/// wait to be merged, whenever they changed; and of the rest, those that were applied.
pub proof fn sessions_stand_in_their_part(sessions: Seq<SessionRecord>, i: int, j: int)
    requires
        0 <= i < sessions.len(),
        0 <= j < sessions.len(),
    ensures
        ({
            let a = ordered(sessions)[i];
            let b = ordered(sessions)[j];
            let live = lives(a) || lives(b);
            let waiting = waits_for_input(a) || waits_for_input(b);
            let failed = failed_or_recovered(a) || failed_or_recovered(b);
            &&& lives(a) && !lives(b) ==> i < j
            &&& !live && waits_for_input(a) && !waits_for_input(b) ==> i < j
            &&& !live && !waiting && failed_or_recovered(a) && !failed_or_recovered(b) ==> i < j
            &&& !live && !waiting && !failed && a.has_pending_changes && !b.has_pending_changes
                ==> i < j
            &&& !live && !waiting && !failed && !a.has_pending_changes && !b.has_pending_changes
                && a.apply_state == ApplyState::Applied && b.apply_state != ApplyState::Applied
                ==> i < j
        }),
{
    if j < i {
        list_is_ordered(sessions, j, i);
    }
}

/// Within its part of the list, the session that changed last stands first.
pub proof fn later_sessions_stand_first(sessions: Seq<SessionRecord>, i: int, j: int)
    requires
        0 <= i < sessions.len(),
        0 <= j < sessions.len(),
        changed_later(ordered(sessions)[i], ordered(sessions)[j]),
    ensures
        ({
            let a = ordered(sessions)[i];
            let b = ordered(sessions)[j];
            let rest = !lives(a) && !lives(b) && !waits_for_input(a) && !waits_for_input(b)
                && !failed_or_recovered(a) && !failed_or_recovered(b);
            &&& lives(a) && lives(b) ==> i < j
            &&& waits_for_input(a) && waits_for_input(b) ==> i < j
            &&& failed_or_recovered(a) && failed_or_recovered(b) ==> i < j
            &&& rest && a.has_pending_changes && b.has_pending_changes ==> i < j
            &&& rest && !a.has_pending_changes && !b.has_pending_changes && a.apply_state
                == b.apply_state ==> i < j
        }),
{
    if j < i {
        list_is_ordered(sessions, j, i);
    }
}

/// Sessions that are alike in all that the order looks at stay in the order in which they were
/// given.
pub proof fn alike_sessions_keep_their_order(sessions: Seq<SessionRecord>, x: int, y: int)
    requires
        0 <= x < y < sessions.len(),
        sessions[x].status == sessions[y].status,
        sessions[x].attention == sessions[y].attention,
        sessions[x].apply_state == sessions[y].apply_state,
        sessions[x].has_pending_changes == sessions[y].has_pending_changes,
        sessions[x].updated_at == sessions[y].updated_at,
    ensures
        exists|i: int, j: int|
            0 <= i < j < sessions.len() && #[trigger] ordered(sessions)[i] == sessions[x]
                && #[trigger] ordered(sessions)[j] == sessions[y],
{
    let keys = session_keys(sessions);
    let order = order_of(keys);
    crate::order::order_is_sorted_and_stable(keys);
    assert(order.contains(x) && order.contains(y));
    let i = choose|i: int| 0 <= i < order.len() && order[i] == x;
    let j = choose|j: int| 0 <= j < order.len() && order[j] == y;
    assert(keys[x] == keys[y]);
    if j < i {
        let a = order[j];
        let b = order[i];
        assert(keys[a].before(keys[b]) || (keys[a] == keys[b] && a < b));
    }
    assert(ordered(sessions)[i] == sessions[x]);
    assert(ordered(sessions)[j] == sessions[y]);
}

/// The list says of a running session that wants an action, and of one that waits with changes that
/// were not applied, that it needs input; it says so of no other. A session that failed is
/// shown as failed and one that pauses or was recovered as recovered, whatever became of its
/// changes. Any other is shown as applied where its changes were, and as running or exited
/// otherwise.
pub proof fn sessions_are_shown_as_they_are(session: SessionRecord)
    ensures
        ({
            let label = state_label(display_state(session));
            let acts = session.status == SessionStatus::Running && session.attention
                == AttentionLevel::Action;
            let applied = session.apply_state == ApplyState::Applied && !acts;
            &&& acts || waits_for_input(session) ==> label == "needs input"@
            &&& session.status == SessionStatus::Failed ==> label == "failed"@
            &&& session.status == SessionStatus::Paused || session.status
                == SessionStatus::UnknownRecovered ==> label == "recovered"@
            &&& applied && !failed_or_recovered(session) ==> label == "applied"@
            &&& !applied && !acts && lives(session) ==> label == "running"@
            &&& !applied && session.status == SessionStatus::Exited ==> label == "exited"@
        }),
{
}

/// The sign of a session tells whether it needs input, failed, was recovered, is at work or is done,
/// and its colour is red for a failure, yellow for what wants attention, and green otherwise. A
/// session that needs input is shown dim. Changes that wait to be merged have a mark of their own.
pub proof fn signs_tell_sessions_apart(a: SessionRecord, b: SessionRecord)
    ensures
        ({
            let (x, y) = (state_label(display_state(a)), state_label(display_state(b)));
            let at_work = |s: Seq<char>| s == "running"@;
            let done = |s: Seq<char>| s == "applied"@ || s == "exited"@;
            &&& state_icon(display_state(a)) == state_icon(display_state(b)) <==> x == y || done(x)
                && done(y)
            &&& state_color(display_state(a)) == (if x == "failed"@ {
                Color::Red
            } else if x == "needs input"@ || x == "recovered"@ {
                Color::Yellow
            } else {
                Color::Green
            })
            &&& state_prefix(display_state(a)) == (if x == "failed"@ {
                HOST_PICKER_STATUS_RED_FG@
            } else if x == "needs input"@ {
                ANSI_DIM@ + HOST_PICKER_STATUS_YELLOW_FG@
            } else if x == "recovered"@ {
                HOST_PICKER_STATUS_YELLOW_FG@
            } else {
                HOST_PICKER_STATUS_GREEN_FG@
            })
            &&& icon_style(a).dim <==> x == "needs input"@
            &&& icon_style(a).fg == Some(state_color(display_state(a)))
            &&& pending_marker(a) == pending_marker(b) <==> a.has_pending_changes
                == b.has_pending_changes
            &&& pending_marker(a) == " "@ <==> !a.has_pending_changes
            &&& pending_marker_style(a).fg == (if a.has_pending_changes {
                Some(Color::Blue)
            } else {
                None
            })
        }),
{
    reveal_strlit("◦");
    reveal_strlit("✖");
    reveal_strlit("⚠");
    reveal_strlit("✔");
    reveal_strlit("●");
    reveal_strlit("⧖");
    reveal_strlit(" ");
    assert("◦"@[0] == '◦' && "✖"@[0] == '✖' && "⚠"@[0] == '⚠' && "✔"@[0] == '✔' && "●"@[0] == '●');
    assert("⧖"@[0] == '⧖' && " "@[0] == ' ');
    reveal_strlit("needs input");
    reveal_strlit("failed");
    reveal_strlit("recovered");
    reveal_strlit("applied");
    reveal_strlit("running");
    reveal_strlit("exited");
    assert("needs input"@.len() == 11 && "failed"@.len() == 6 && "recovered"@.len() == 9
        && "applied"@.len() == 7 && "running"@.len() == 7 && "exited"@.len() == 6);
    assert("applied"@[0] == 'a' && "running"@[0] == 'r' && "failed"@[0] == 'f' && "exited"@[0]
        == 'e');
}

/// What is said of a session is its summary where it has one. A session that failed is said to have
/// failed for its error, if that is known.
pub proof fn summaries_come_first(session: SessionRecord)
    ensures
        session.attention_summary matches Some(summary) ==> status_text(session) == summary@,
        session.attention_summary is None && session.status == SessionStatus::Failed
            && session.error is Some ==> status_text(session) == session.error->0@,
        session.attention_summary is None && session.status == SessionStatus::Failed
            && session.error is None ==> status_text(session) == "blocked"@,
        session.attention_summary is None && session.status == SessionStatus::UnknownRecovered
            ==> status_text(session) == "daemon lost the live process"@,
        session.attention_summary is None && waits_for_input(session) ==> status_text(session)
            == "needs input"@,
        session.attention_summary is None && session.status == SessionStatus::Exited
            && session.apply_state != ApplyState::Applied ==> status_text(session) == "complete"@,
{
}

} // verus!
