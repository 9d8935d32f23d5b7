//! Finding sessions: by name, and by what a user types.
use crate::session::{SessionRecord, SessionStatus};
use crate::session_list::{ordered, ordered_sessions, pointed_to};
use crate::text::{matches_query, query_matches, same};
use vstd::prelude::*;
use vstd::string::*;

verus! {

/// The name of a state.
pub open spec fn status_name(status: SessionStatus) -> Seq<char> {
    match status {
        SessionStatus::Creating => "creating"@,
        SessionStatus::Running => "running"@,
        SessionStatus::Paused => "paused"@,
        SessionStatus::NeedsInput => "needs_input"@,
        SessionStatus::Exited => "exited"@,
        SessionStatus::Failed => "failed"@,
        SessionStatus::UnknownRecovered => "unknown_recovered"@,
    }
}

/// The name of a state.
pub fn status_label(status: SessionStatus) -> (r: &'static str)
    ensures
        r@ == status_name(status),
{
    match status {
        SessionStatus::Creating => "creating",
        SessionStatus::Running => "running",
        SessionStatus::Paused => "paused",
        SessionStatus::NeedsInput => "needs_input",
        SessionStatus::Exited => "exited",
        SessionStatus::Failed => "failed",
        SessionStatus::UnknownRecovered => "unknown_recovered",
    }
}

/// The first session with a name.
pub open spec fn first_named(sessions: Seq<SessionRecord>, id: Seq<char>) -> Option<SessionRecord>
    decreases sessions.len(),
{
    if sessions.len() == 0 {
        None
    } else if sessions[0].session_id@ == id {
        Some(sessions[0])
    } else {
        first_named(sessions.skip(1), id)
    }
}

/// The first session with a name.
pub fn session_by_id<'a>(sessions: &'a Vec<SessionRecord>, id: &str) -> (r: Option<
    &'a SessionRecord,
>)
    ensures
        match r {
            Some(session) => first_named(sessions@, id@) == Some(*session) && session.session_id@
                == id@ && sessions@.contains(*session),
            None => first_named(sessions@, id@) is None,
        },
{
    let mut i: usize = 0;
    assert(sessions@.skip(0) =~= sessions@);
    while i < sessions.len()
        invariant
            i <= sessions.len(),
            first_named(sessions@, id@) == first_named(sessions@.skip(i as int), id@),
        decreases sessions.len() - i,
    {
        if same(sessions[i].session_id.as_str(), id) {
            assert(sessions@.contains(sessions@[i as int]));
            return Some(&sessions[i]);
        }
        assert(sessions@.skip(i as int).skip(1) =~= sessions@.skip(i + 1));
        i = i + 1;
    }
    None
}

/// A session that is found by its name has that name and is one of the sessions.
pub proof fn found_session_is_named(sessions: Seq<SessionRecord>, id: Seq<char>)
    ensures
        first_named(sessions, id) matches Some(session) ==> session.session_id@ == id
            && sessions.contains(session),
        first_named(sessions, id) is None ==> forall|i: int|
            0 <= i < sessions.len() ==> (#[trigger] sessions[i]).session_id@ != id,
    decreases sessions.len(),
{
    if sessions.len() > 0 {
        let rest = sessions.skip(1);
        found_session_is_named(rest, id);
        if sessions[0].session_id@ == id {
            assert(sessions.contains(sessions[0]));
        } else {
            if first_named(rest, id) is Some {
                let found = first_named(rest, id)->0;
                let i = choose|i: int| 0 <= i < rest.len() && rest[i] == found;
                assert(sessions[i + 1] == found);
            } else {
                assert forall|i: int| 0 <= i < sessions.len() implies (
                #[trigger] sessions[i]).session_id@ != id by {
                    if i > 0 {
                        assert(rest[i - 1] == sessions[i]);
                    }
                }
            }
        }
    }
}

/// What a session is searched by.
pub open spec fn search_text(session: SessionRecord) -> Seq<char> {
    session.session_id@ + " "@ + session.repo_name@ + " "@ + session.branch@ + " "@ + status_name(
        session.status,
    ) + " "@ + session.apply_state.name() + " "@ + session.attention.name() + " "@ + (
    if session.has_pending_changes {
        "pending"@
    } else {
        ""@
    })
}

/// What a session is searched by.
pub fn session_search_text(session: &SessionRecord) -> (r: String)
    ensures
        r@ == search_text(*session),
{
    let mut r = session.session_id.clone();
    r.append(" ");
    r.append(session.repo_name.as_str());
    r.append(" ");
    r.append(session.branch.as_str());
    r.append(" ");
    r.append(status_label(session.status));
    r.append(" ");
    r.append(session.apply_state.as_str());
    r.append(" ");
    r.append(session.attention.as_str());
    r.append(" ");
    r.append(
        if session.has_pending_changes {
            "pending"
        } else {
            ""
        },
    );
    r
}

/// Those of some sessions that match a query, in their order.
pub open spec fn those_matching(sessions: Seq<SessionRecord>, query: Seq<char>) -> Seq<
    SessionRecord,
>
    decreases sessions.len(),
{
    if sessions.len() == 0 {
        Seq::empty()
    } else {
        let front = those_matching(sessions.drop_last(), query);
        if query_matches(search_text(sessions.last()), query) {
            front.push(sessions.last())
        } else {
            front
        }
    }
}

/// The sessions that match a query, in the order of the list.
pub open spec fn matching(sessions: Seq<SessionRecord>, query: Seq<char>) -> Seq<SessionRecord> {
    those_matching(ordered(sessions), query)
}

/// The sessions that match a query, in the order of the list.
pub fn filtered_sessions<'a>(sessions: &'a Vec<SessionRecord>, query: &str) -> (r: Vec<
    &'a SessionRecord,
>)
    ensures
        pointed_to(r@) == matching(sessions@, query@),
        r@.len() <= sessions@.len(),
        forall|i: int| 0 <= i < r@.len() ==> sessions@.contains(*(#[trigger] r@[i])),
{
    let rows = ordered_sessions(sessions);
    let ghost due = ordered(sessions@);
    proof {
        crate::session_list::list_holds_every_session(sessions@);
    }
    let mut r: Vec<&'a SessionRecord> = Vec::new();
    let mut i: usize = 0;
    assert(due.take(0) =~= Seq::empty());
    assert(pointed_to(r@) =~= Seq::empty());
    while i < rows.len()
        invariant
            i <= rows.len(),
            pointed_to(rows@) == due,
            due.len() == sessions@.len(),
            forall|k: int| 0 <= k < due.len() ==> sessions@.contains(#[trigger] due[k]),
            pointed_to(r@) == those_matching(due.take(i as int), query@),
            r@.len() <= i,
            forall|k: int| 0 <= k < r@.len() ==> sessions@.contains(*(#[trigger] r@[k])),
        decreases rows.len() - i,
    {
        assert(pointed_to(rows@)[i as int] == due[i as int]);
        assert(due.take(i as int + 1).drop_last() =~= due.take(i as int));
        assert(sessions@.contains(due[i as int]));
        let ghost before = r@;
        if matches_query(session_search_text(rows[i]).as_str(), query) {
            r.push(rows[i]);
            assert(pointed_to(r@) =~= pointed_to(before).push(due[i as int]));
        }
        i = i + 1;
    }
    assert(due.take(due.len() as int) =~= due);
    r
}

/// Every session that matches a query is among those that match it, and no other is.
pub proof fn matching_is_exact(sessions: Seq<SessionRecord>, query: Seq<char>, session: SessionRecord)
    ensures
        matching(sessions, query).contains(session) <==> sessions.contains(session)
            && query_matches(search_text(session), query),
{
    crate::session_list::list_holds_every_session(sessions);
    those_matching_is_exact(ordered(sessions), query, session);
    if sessions.contains(session) {
        let k = choose|k: int| 0 <= k < sessions.len() && sessions[k] == session;
        assert(ordered(sessions).contains(sessions[k]));
    }
    if ordered(sessions).contains(session) {
        let k = choose|k: int|
            0 <= k < ordered(sessions).len() && ordered(sessions)[k] == session;
        assert(sessions.contains(ordered(sessions)[k]));
    }
}

proof fn those_matching_is_exact(
    sessions: Seq<SessionRecord>,
    query: Seq<char>,
    session: SessionRecord,
)
    ensures
        those_matching(sessions, query).contains(session) <==> sessions.contains(session)
            && query_matches(search_text(session), query),
    decreases sessions.len(),
{
    if sessions.len() > 0 {
        let front = sessions.drop_last();
        let found = those_matching(front, query);
        those_matching_is_exact(front, query, session);
        if sessions.contains(session) {
            let k = choose|k: int| 0 <= k < sessions.len() && sessions[k] == session;
            if k < front.len() {
                assert(front[k] == session);
            }
        }
        if front.contains(session) {
            let k = choose|k: int| 0 <= k < front.len() && front[k] == session;
            assert(sessions[k] == session);
        }
        assert(sessions[sessions.len() - 1] == sessions.last());
        if query_matches(search_text(sessions.last()), query) {
            let all = found.push(sessions.last());
            if found.contains(session) {
                let k = choose|k: int| 0 <= k < found.len() && found[k] == session;
                assert(all[k] == session);
            }
            if all.contains(session) {
                let k = choose|k: int| 0 <= k < all.len() && all[k] == session;
                if k < found.len() {
                    assert(found[k] == session);
                }
            }
            assert(all[all.len() - 1] == sessions.last());
        }
    }
}

} // verus!
