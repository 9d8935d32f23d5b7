//! What is found by what is typed.
use crate::client::attach::live;
use crate::client::daemon::any_running;
use crate::fuzzy::{byte_offset, first_from, fuzzy, score, score_from};
use crate::order::order_of;
use crate::session::{IntegrationState, SessionRecord, SessionStatus};
use crate::session_find::{first_named, matching, search_text, status_name, those_matching};
use crate::session_list::ordered;
use crate::switcher::{best_matches, choices, match_key, match_keys, scored, switch_text};
use crate::text::{
    ascii_lower, is_white_space, lowered, query_matches, stands_at, trimmed, trimmed_end,
    trimmed_start,
};
use crate::time::Timestamp;
use crate::tui::app::{matching_at, wanting_attention, FocusView};
use crate::tui::badge::switcher_text;
use vstd::prelude::*;

verus! {

/// Whether two characters are the same letter, capital or small, or the same character.
pub open spec fn same_letter(a: char, b: char) -> bool {
    a == b || 'a' <= a && a <= 'z' && a as u32 == b as u32 + 32 || 'a' <= b && b <= 'z' && b as u32
        == a as u32 + 32
}

proof fn lowering_keeps_letters(a: char, b: char)
    ensures
        ascii_lower(a) == ascii_lower(b) <==> same_letter(a, b),
{
    let (x, y) = (a as u32, b as u32);
    if 'A' <= a && a <= 'Z' {
        assert(ascii_lower(a) as u32 == x + 32);
    }
    if 'A' <= b && b <= 'Z' {
        assert(ascii_lower(b) as u32 == y + 32);
    }
}

/// Whether a text stands within another at a place, whatever the case of its letters.
pub open spec fn reads_at(word: Seq<char>, text: Seq<char>, i: int) -> bool {
    &&& 0 <= i
    &&& i + word.len() <= text.len()
    &&& forall|k: int| 0 <= k < word.len() ==> same_letter(#[trigger] word[k], text[i + k])
}

/// A text matches a query exactly where the query, without white space around it, stands somewhere
/// in it, whatever the case of the letters. Everything matches a query of white space.
pub proof fn matches_read_the_query(text: Seq<char>, query: Seq<char>)
    ensures
        query_matches(text, query) <==> trimmed(query).len() == 0 || exists|i: int|
            #[trigger] reads_at(trimmed(query), text, i),
{
    let word = trimmed(query);
    let needle = lowered(word);
    let hay = lowered(text);
    if word.len() > 0 {
        assert forall|i: int| #[trigger] stands_at(needle, hay, i) <==> reads_at(word, text, i) by {
            if 0 <= i && i + word.len() <= text.len() {
                let part = hay.subrange(i, i + needle.len());
                if part == needle {
                    assert forall|k: int| 0 <= k < word.len() implies same_letter(
                        #[trigger] word[k],
                        text[i + k],
                    ) by {
                        assert(part[k] == needle[k]);
                        lowering_keeps_letters(word[k], text[i + k]);
                    }
                }
                if reads_at(word, text, i) {
                    assert forall|k: int| 0 <= k < word.len() implies part[k] == needle[k] by {
                        assert(same_letter(word[k], text[i + k]));
                        lowering_keeps_letters(word[k], text[i + k]);
                    }
                    assert(part =~= needle);
                }
            }
        }
        if query_matches(text, query) {
            let i = choose|i: int| stands_at(needle, hay, i);
            assert(reads_at(word, text, i));
        }
        if exists|i: int| #[trigger] reads_at(word, text, i) {
            let i = choose|i: int| #[trigger] reads_at(word, text, i);
            assert(stands_at(needle, hay, i));
        }
    }
}

/// What trimming leaves is a part of the text, and only white space stands before and behind it.
pub proof fn trimming_takes_only_white_space(s: Seq<char>) -> (r: (int, int))
    ensures
        0 <= r.0 <= r.1 <= s.len(),
        trimmed(s) == s.subrange(r.0, r.1),
        forall|k: int| 0 <= k < r.0 ==> is_white_space(#[trigger] s[k]),
        forall|k: int| r.1 <= k < s.len() ==> is_white_space(#[trigger] s[k]),
{
    let end = end_of(s);
    let kept = trimmed_end(s);
    let start = start_of(kept);
    assert(kept.subrange(start, kept.len() as int) =~= s.subrange(start, end));
    assert forall|k: int| 0 <= k < start implies is_white_space(#[trigger] s[k]) by {
        assert(kept[k] == s[k]);
    }
    (start, end)
}

proof fn end_of(s: Seq<char>) -> (r: int)
    ensures
        0 <= r <= s.len(),
        trimmed_end(s) == s.subrange(0, r),
        forall|k: int| r <= k < s.len() ==> is_white_space(#[trigger] s[k]),
    decreases s.len(),
{
    if s.len() > 0 && is_white_space(s.last()) {
        let front = s.drop_last();
        let r = end_of(front);
        assert(front.subrange(0, r) =~= s.subrange(0, r));
        assert forall|k: int| r <= k < s.len() implies is_white_space(#[trigger] s[k]) by {
            if k < front.len() {
                assert(front[k] == s[k]);
            }
        }
        r
    } else {
        assert(s.subrange(0, s.len() as int) =~= s);
        s.len() as int
    }
}

proof fn start_of(s: Seq<char>) -> (r: int)
    ensures
        0 <= r <= s.len(),
        trimmed_start(s) == s.subrange(r, s.len() as int),
        forall|k: int| 0 <= k < r ==> is_white_space(#[trigger] s[k]),
    decreases s.len(),
{
    if s.len() > 0 && is_white_space(s[0]) {
        let rest = s.skip(1);
        let r = start_of(rest);
        assert(rest.subrange(r, rest.len() as int) =~= s.subrange(r + 1, s.len() as int));
        assert forall|k: int| 0 <= k < r + 1 implies is_white_space(#[trigger] s[k]) by {
            if k > 0 {
                assert(rest[k - 1] == s[k]);
            }
        }
        r + 1
    } else {
        assert(s.subrange(0, s.len() as int) =~= s);
        0
    }
}

/// Whether a text is a part of another.
pub open spec fn is_part(part: Seq<char>, text: Seq<char>) -> bool {
    exists|i: int| #[trigger] is_part_at(part, text, i)
}

/// Whether a text is the part of another at a place.
pub open spec fn is_part_at(part: Seq<char>, text: Seq<char>, i: int) -> bool {
    0 <= i && i + part.len() <= text.len() && text.subrange(i, i + part.len()) == part
}

proof fn parts_read(part: Seq<char>, before: Seq<char>, text: Seq<char>, behind: Seq<char>)
    requires
        is_part(part, text),
    ensures
        exists|i: int| #[trigger] reads_at(part, before + text + behind, i),
{
    let i = choose|i: int| #[trigger] is_part_at(part, text, i);
    let all = before + text + behind;
    let at = before.len() + i;
    assert forall|k: int| 0 <= k < part.len() implies same_letter(
        #[trigger] part[k],
        all[at + k],
    ) by {
        assert(text.subrange(i, i + part.len())[k] == text[i + k]);
    }
    assert(reads_at(part, all, at));
}

/// A session is found in the list by every part of its name, of its repository, of its branch and
/// of the name of its state.
pub proof fn sessions_are_found_by_their_parts(session: SessionRecord, query: Seq<char>)
    requires
        is_part(trimmed(query), session.session_id@) || is_part(
            trimmed(query),
            session.repo_name@,
        ) || is_part(trimmed(query), session.branch@) || is_part(
            trimmed(query),
            status_name(session.status),
        ),
    ensures
        query_matches(search_text(session), query),
{
    let all = search_text(session);
    let word = trimmed(query);
    let none = Seq::<char>::empty();
    matches_read_the_query(all, query);
    let id = session.session_id@;
    let repo = session.repo_name@;
    let branch = session.branch@;
    let state = status_name(session.status);
    let first = id + " "@;
    let second = first + repo + " "@;
    let third = second + branch + " "@;
    let fourth = third + state;
    if is_part(word, id) {
        parts_read(word, none, id, all.skip(id.len() as int));
        assert(none + id + all.skip(id.len() as int) =~= all);
    } else if is_part(word, repo) {
        let at = first.len() + repo.len();
        parts_read(word, first, repo, all.skip(at as int));
        assert(first + repo + all.skip(at as int) =~= all);
    } else if is_part(word, branch) {
        let at = second.len() + branch.len();
        parts_read(word, second, branch, all.skip(at as int));
        assert(second + branch + all.skip(at as int) =~= all);
    } else {
        let at = fourth.len();
        parts_read(word, third, state, all.skip(at as int));
        assert(third + state + all.skip(at as int) =~= all);
    }
}

/// In the full-screen view, a session is found by every part of its name, its title, its
/// repository, its branch and the name of its state.
pub proof fn workers_are_found_by_their_parts(session: SessionRecord, now: Timestamp, query: Seq<char>)
    requires
        is_part(trimmed(query), session.session_id@) || is_part(trimmed(query), session.title@)
            || is_part(trimmed(query), session.repo_name@) || is_part(
            trimmed(query),
            session.branch@,
        ) || is_part(trimmed(query), status_name(session.status)),
    ensures
        query_matches(switcher_text(session, now), query),
{
    let all = switcher_text(session, now);
    let word = trimmed(query);
    matches_read_the_query(all, query);
    let zeroth = crate::session_display::elapsed_label(session, now) + " "@;
    let first = zeroth + session.session_id@ + " "@;
    let second = first + session.title@ + " "@;
    let third = second + session.repo_name@ + " "@;
    let fourth = third + session.branch@ + " "@;
    if is_part(word, session.session_id@) {
        let at = (zeroth.len() + session.session_id@.len()) as int;
        parts_read(word, zeroth, session.session_id@, all.skip(at));
        assert(zeroth + session.session_id@ + all.skip(at) =~= all);
    } else if is_part(word, session.title@) {
        let at = (first.len() + session.title@.len()) as int;
        parts_read(word, first, session.title@, all.skip(at));
        assert(first + session.title@ + all.skip(at) =~= all);
    } else if is_part(word, session.repo_name@) {
        let at = (second.len() + session.repo_name@.len()) as int;
        parts_read(word, second, session.repo_name@, all.skip(at));
        assert(second + session.repo_name@ + all.skip(at) =~= all);
    } else if is_part(word, session.branch@) {
        let at = (third.len() + session.branch@.len()) as int;
        parts_read(word, third, session.branch@, all.skip(at));
        assert(third + session.branch@ + all.skip(at) =~= all);
    } else {
        let state = status_name(session.status);
        let none = Seq::<char>::empty();
        parts_read(word, fourth, state, none);
        assert(fourth + state + none =~= all);
    }
}

/// A session is found by its name where it is there, and of several with one name it is the first.
pub proof fn first_of_a_name_is_found(sessions: Seq<SessionRecord>, i: int)
    requires
        0 <= i < sessions.len(),
        forall|k: int|
            0 <= k < i ==> (#[trigger] sessions[k]).session_id@ != sessions[i].session_id@,
    ensures
        first_named(sessions, sessions[i].session_id@) == Some(sessions[i]),
    decreases sessions.len(),
{
    if i > 0 {
        let rest = sessions.skip(1);
        assert(sessions[0].session_id@ != sessions[i].session_id@);
        assert forall|k: int| 0 <= k < i - 1 implies (#[trigger] rest[k]).session_id@ != rest[i
            - 1].session_id@ by {
            assert(rest[k] == sessions[k + 1]);
        }
        first_of_a_name_is_found(rest, i - 1);
    }
}

// ---------------------------------------------------------------------------
// Fuzzy search
// ---------------------------------------------------------------------------
/// Whether all characters of a text are in ASCII.
pub open spec fn is_ascii(text: Seq<char>) -> bool {
    forall|i: int| 0 <= i < text.len() ==> (#[trigger] text[i] as u32) < 128
}

proof fn offsets_count(text: Seq<char>, n: int)
    requires
        is_ascii(text),
        0 <= n <= text.len(),
    ensures
        byte_offset(text, n) == n,
    decreases n,
{
    if n > 0 {
        offsets_count(text, n - 1);
        assert((text[n - 1] as u32) < 128);
    }
}

proof fn found_behind(text: Seq<char>, c: char, start: int)
    requires
        0 <= start,
    ensures
        first_from(text, c, start) matches Some(i) ==> start <= i < text.len() && text[i] == c,
    decreases text.len() - start,
{
    if start < text.len() && text[start] != c {
        found_behind(text, c, start + 1);
    }
}

/// In a text of ASCII characters, a query is worth most where the text starts with it: twenty-five
/// for every character, but ten for the first. Nothing is worth more.
pub proof fn starts_are_worth_most(text: Seq<char>, query: Seq<char>)
    requires
        is_ascii(text),
        is_ascii(query),
        query.len() > 0,
    ensures
        score(text, query) matches Some(worth) ==> worth <= 25 * query.len() - 15,
        query.len() <= text.len() && text.take(query.len() as int) == query ==> score(text, query)
            == Some(25 * query.len() - 15),
{
    assert((query[0] as u32) < 128);
    found_behind(text, query[0], 0);
    if let Some(i) = first_from(text, query[0], 0) {
        offsets_count(text, i);
        worth_is_bounded(text, i + 1, i, query.skip(1));
    }
    if query.len() <= text.len() && text.take(query.len() as int) == query {
        assert(text[0] == text.take(query.len() as int)[0]);
        offsets_count(text, 0);
        run_is_worth(text, 1, query, 1);
    }
}

proof fn worth_is_bounded(text: Seq<char>, start: int, previous: int, query: Seq<char>)
    requires
        is_ascii(text),
        0 <= previous < start,
    ensures
        score_from(text, start, Some(previous), query) matches Some(worth) ==> worth <= 25
            * query.len(),
    decreases query.len(),
{
    if query.len() > 0 {
        found_behind(text, query[0], start);
        if let Some(i) = first_from(text, query[0], start) {
            offsets_count(text, i);
            worth_is_bounded(text, i + 1, i, query.skip(1));
        }
    }
}

proof fn run_is_worth(text: Seq<char>, start: int, query: Seq<char>, n: int)
    requires
        is_ascii(text),
        1 <= n <= query.len() <= text.len(),
        start == n,
        text.take(query.len() as int) == query,
    ensures
        score_from(text, start, Some(start - 1), query.skip(n)) == Some(25 * (query.len() - n)),
    decreases query.len() - n,
{
    let rest = query.skip(n);
    if n < query.len() {
        assert(text[n] == text.take(query.len() as int)[n]);
        assert(rest[0] == query[n]);
        assert((text[n] as u32) < 128);
        offsets_count(text, n);
        run_is_worth(text, start + 1, query, n + 1);
        assert(rest.skip(1) =~= query.skip(n + 1));
    }
}

proof fn found_one_later(text: Seq<char>, x: char, c: char, start: int)
    requires
        0 <= start,
    ensures
        first_from(seq![x] + text, c, start + 1) == (match first_from(text, c, start) {
            Some(i) => Some(i + 1),
            None => None,
        }),
    decreases text.len() - start,
{
    let all = seq![x] + text;
    if start < text.len() {
        assert(all[start + 1] == text[start]);
        if text[start] != c {
            found_one_later(text, x, c, start + 1);
        }
    }
}

proof fn one_later(text: Seq<char>, x: char, start: int, previous: int, query: Seq<char>)
    requires
        is_ascii(text),
        (x as u32) < 128,
        0 <= previous < start,
    ensures
        score_from(seq![x] + text, start + 1, Some(previous + 1), query) == score_from(
            text,
            start,
            Some(previous),
            query,
        ),
    decreases query.len(),
{
    let all = seq![x] + text;
    assert(is_ascii(all));
    if query.len() > 0 {
        found_one_later(text, x, query[0], start);
        found_behind(text, query[0], start);
        if let Some(i) = first_from(text, query[0], start) {
            offsets_count(text, i);
            offsets_count(all, i + 1);
            one_later(text, x, i + 1, i, query.skip(1));
        }
    }
}

/// In a text of ASCII characters, a query is worth one less for every character in front that it
/// does not start with.
pub proof fn later_matches_are_worth_less(text: Seq<char>, x: char, query: Seq<char>)
    requires
        is_ascii(text),
        (x as u32) < 128,
        query.len() > 0,
        query[0] != x,
    ensures
        score(seq![x] + text, query) == (match score(text, query) {
            Some(worth) => Some(worth - 1),
            None => None,
        }),
{
    let all = seq![x] + text;
    assert(is_ascii(all));
    assert(all[0] == x);
    found_one_later(text, x, query[0], 0);
    found_behind(text, query[0], 0);
    if let Some(i) = first_from(text, query[0], 0) {
        offsets_count(text, i);
        offsets_count(all, i + 1);
        one_later(text, x, i + 1, i, query.skip(1));
    }
}

/// In a text of ASCII characters, every character that is passed over between two of a query costs
/// one, and two that follow each other are worth fifteen more.
pub proof fn gaps_cost_what_is_passed_over(a: char, gap: Seq<char>, b: char)
    requires
        is_ascii(gap),
        (a as u32) < 128,
        (b as u32) < 128,
        forall|i: int| 0 <= i < gap.len() ==> #[trigger] gap[i] != b,
    ensures
        score(seq![a] + gap + seq![b], seq![a, b]) == Some(
            if gap.len() == 0 {
                35int
            } else {
                20 - gap.len()
            },
        ),
{
    let text = seq![a] + gap + seq![b];
    let query = seq![a, b];
    let n = gap.len() as int;
    assert forall|i: int| 0 <= i < text.len() implies (#[trigger] text[i] as u32) < 128 by {
        if 0 < i <= n {
            assert(text[i] == gap[i - 1]);
        }
    }
    assert(text[0] == a);
    assert(first_from(text, a, 0) == Some(0int));
    assert forall|i: int| 1 <= i < n + 1 implies #[trigger] text[i] != b by {
        assert(text[i] == gap[i - 1]);
    }
    assert(text[n + 1] == b);
    found_first(text, b, 1, n + 1);
    offsets_count(text, 0);
    offsets_count(text, n + 1);
    assert(query.skip(1) =~= seq![b]);
    assert(seq![b].skip(1) =~= Seq::empty());
    reveal_with_fuel(score_from, 3);
}

proof fn found_first(text: Seq<char>, c: char, start: int, at: int)
    requires
        0 <= start <= at < text.len(),
        text[at] == c,
        forall|i: int| start <= i < at ==> #[trigger] text[i] != c,
    ensures
        first_from(text, c, start) == Some(at),
    decreases at - start,
{
    if start < at {
        found_first(text, c, start + 1, at);
    }
}

// ---------------------------------------------------------------------------
// Lists
// ---------------------------------------------------------------------------
/// What is chosen from a list keeps its order: of a session more, nothing is seen where it does not
/// belong, and otherwise it comes last. It belongs among those that a query finds where it matches
/// the query, among those that can be gone to where it runs and is not the one that is left, and
/// among those that run where it runs.
pub proof fn lists_keep_their_order(
    sessions: Seq<SessionRecord>,
    session: SessionRecord,
    query: Seq<char>,
    now: Timestamp,
    current: Seq<char>,
)
    ensures
        those_matching(sessions.push(session), query) == (if query_matches(
            search_text(session),
            query,
        ) {
            those_matching(sessions, query).push(session)
        } else {
            those_matching(sessions, query)
        }),
        matching_at(sessions.push(session), query, now) == (if query_matches(
            switcher_text(session, now),
            query,
        ) {
            matching_at(sessions, query, now).push(session)
        } else {
            matching_at(sessions, query, now)
        }),
        choices(sessions.push(session), current) == (if session.status == SessionStatus::Running
            && session.session_id@ != current {
            choices(sessions, current).push(session)
        } else {
            choices(sessions, current)
        }),
        live(sessions.push(session)) == (if session.status == SessionStatus::Running {
            live(sessions).push(session)
        } else {
            live(sessions)
        }),
        scored(sessions.push(session), query) == (match fuzzy(switch_text(session), query) {
            Some(worth) => scored(sessions, query).push((worth, session)),
            None => scored(sessions, query),
        }),
        wanting_attention(sessions.push(session)) == (if session.status
            == SessionStatus::NeedsInput || session.status == SessionStatus::Failed
            || session.status == SessionStatus::UnknownRecovered || session.has_conflicts
            || session.integration_state == IntegrationState::PendingReview || session.status
            == SessionStatus::Running || session.status == SessionStatus::Creating {
            wanting_attention(sessions).push(FocusView::Worker(session.session_id@))
        } else {
            wanting_attention(sessions)
        }),
        matching(sessions, query) == those_matching(ordered(sessions), query),
{
    assert(sessions.push(session).drop_last() =~= sessions);
}

/// Of the sessions that a fuzzy search finds, a better match stands above a worse one, and of those
/// that match as well the older session. All that match are found.
pub proof fn best_matches_stand_above(
    sessions: Seq<SessionRecord>,
    query: Seq<char>,
    i: int,
    j: int,
)
    requires
        0 <= i < best_matches(sessions, query).len(),
        0 <= j < best_matches(sessions, query).len(),
        forall|k: int|
            0 <= k < scored(sessions, query).len() ==> -0x1_0000_0000_0000_0000 <= (
            #[trigger] scored(sessions, query)[k]).0 <= 0x1_0000_0000_0000_0000,
    ensures
        ({
            let (x, a) = best_matches(sessions, query)[i];
            let (y, b) = best_matches(sessions, query)[j];
            &&& x > y ==> i < j
            &&& x == y && (a.created_at.seconds < b.created_at.seconds || a.created_at.seconds
                == b.created_at.seconds && a.created_at.nanos < b.created_at.nanos) ==> i < j
        }),
        best_matches(sessions, query).len() == scored(sessions, query).len(),
{
    let found = scored(sessions, query);
    let keys = match_keys(found);
    let order = order_of(keys);
    crate::order::order_is_sorted_and_stable(keys);
    let a = order[i];
    let b = order[j];
    assert(keys[a] == match_key(found[a]));
    assert(keys[b] == match_key(found[b]));
    if j < i {
        assert(keys[b].before(keys[a]) || (keys[a] == keys[b] && b < a));
    }
}

/// A session is searched by its name, its agent, its branch, its task and its workspace.
pub proof fn fuzzy_search_reads_these(session: SessionRecord)
    ensures
        is_part(session.session_id@, switch_text(session)),
        is_part(session.agent@, switch_text(session)),
        is_part(session.branch@, switch_text(session)),
        is_part(session.task@, switch_text(session)),
        is_part(session.workspace@, switch_text(session)),
{
    let all = switch_text(session);
    let a = session.session_id@ + " "@;
    let b = a + session.agent@ + " "@;
    let c = b + session.branch@ + " "@;
    let d = c + session.task@ + " "@;
    assert(is_part_at(session.session_id@, all, 0)) by {
        assert(all.subrange(0, session.session_id@.len() as int) =~= session.session_id@);
    }
    assert(is_part_at(session.agent@, all, a.len() as int)) by {
        assert(all.subrange(a.len() as int, (a.len() + session.agent@.len()) as int)
            =~= session.agent@);
    }
    assert(is_part_at(session.branch@, all, b.len() as int)) by {
        assert(all.subrange(b.len() as int, (b.len() + session.branch@.len()) as int)
            =~= session.branch@);
    }
    assert(is_part_at(session.task@, all, c.len() as int)) by {
        assert(all.subrange(c.len() as int, (c.len() + session.task@.len()) as int)
            =~= session.task@);
    }
    assert(is_part_at(session.workspace@, all, d.len() as int)) by {
        assert(all.subrange(d.len() as int, (d.len() + session.workspace@.len()) as int)
            =~= session.workspace@);
    }
}

/// A daemon has running sessions exactly where one of its sessions is said to run.
pub proof fn running_sessions_are_found(sessions: Seq<SessionRecord>)
    ensures
        any_running(sessions) <==> exists|i: int|
            0 <= i < sessions.len() && (#[trigger] sessions[i]).status == SessionStatus::Running,
{
}

} // verus!
