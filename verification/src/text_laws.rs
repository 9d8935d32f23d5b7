//! How numbers and words are written and read, and what texts about sessions tell.
use crate::config::{collected, entry_at, has_entry, AgentConfig, Config};
use crate::overlay::{details_text, yes_no};
use crate::search_laws::{is_part, is_part_at};
use crate::session::SessionRecord;
use crate::session_list::status_text;
use crate::sqlite_schema::{migration, session_columns, SchemaStep};
use crate::text::{
    blanks, decimal, digits_value, is_white_space, joined, number_of, signed_decimal, signed_number_of,
};
use crate::tui::app::{git_status_text, review_text, GIT_STATUS_UNKNOWN};
use crate::session_find::status_name;
use vstd::prelude::*;

verus! {

// ---------------------------------------------------------------------------
// Numbers and words
// ---------------------------------------------------------------------------
/// A number below ten is its digit. Any other is written as its tenth part is, with the last digit
/// behind it. A minus sign stands before a negative one.
pub proof fn numbers_are_written_in_decimal(n: nat, d: nat)
    requires
        d < 10,
    ensures
        decimal(d).len() == 1,
        decimal(d)[0] as u32 == 48 + d,
        n > 0 ==> decimal(10 * n + d) == decimal(n).push(decimal(d)[0]),
        signed_decimal(n as int) == decimal(n),
        n > 0 ==> signed_decimal(-n) == seq!['-'] + decimal(n),
{
    if n > 0 {
        assert((10 * n + d) / 10 == n);
        assert((10 * n + d) % 10 == d);
    }
}

/// A number is read as it is written, up to the bound that is set; one beyond it, and a text that
/// holds anything but digits behind a sign, is none.
pub proof fn numbers_are_read_up_to_a_bound(n: nat, max: int, text: Seq<char>, i: int)
    ensures
        n <= max ==> number_of(decimal(n), max) == Some(n),
        n > max ==> number_of(decimal(n), max) is None,
        0 < i < text.len() && !('0' <= text[i] && text[i] <= '9') ==> number_of(text, max) is None,
        number_of(Seq::<char>::empty(), max) is None,
        signed_number_of(seq!['-'] + decimal(n), -max, max) == (if n <= max {
            Some(-(n as int))
        } else {
            None
        }),
{
    crate::text::decimal_is_read_back(n);
    assert(decimal(n)[0] != '+');
    let minus = seq!['-'] + decimal(n);
    assert(minus.skip(1) =~= decimal(n));
    if 0 < i < text.len() && !('0' <= text[i] && text[i] <= '9') {
        let digits = if text.len() > 0 && text[0] == '+' {
            text.skip(1)
        } else {
            text
        };
        let at = if text[0] == '+' {
            i - 1
        } else {
            i
        };
        assert(digits[at] == text[i]);
        no_number(digits, at);
    }
}

proof fn no_number(s: Seq<char>, i: int)
    requires
        0 <= i < s.len(),
        !('0' <= s[i] && s[i] <= '9'),
    ensures
        digits_value(s) is None,
    decreases s.len(),
{
    if i < s.len() - 1 {
        no_number(s.drop_last(), i);
    }
}

/// Blanks, tabs and the ends of lines are white space; letters, digits and signs are not.
pub proof fn white_space_is_told_apart(c: char)
    ensures
        c == ' ' || c == '\t' || c == '\n' || c == '\r' ==> is_white_space(c),
        33 <= c as u32 <= 126 ==> !is_white_space(c),
        (c as u32) < 9 ==> !is_white_space(c),
{
}

/// Parts are joined in their order, with the separator between each two.
pub proof fn parts_are_joined(parts: Seq<Seq<char>>, part: Seq<char>, separator: Seq<char>)
    ensures
        joined(Seq::<Seq<char>>::empty(), separator).len() == 0,
        parts.len() == 0 ==> joined(parts.push(part), separator) == part,
        parts.len() > 0 ==> joined(parts.push(part), separator) == joined(parts, separator)
            + separator + part,
{
    assert(parts.push(part).drop_last() =~= parts);
}

// ---------------------------------------------------------------------------
// The configuration
// ---------------------------------------------------------------------------
proof fn entry_stands(entries: Seq<(Seq<char>, AgentConfig)>, key: Seq<char>)
    ensures
        0 <= entry_at(entries, key) <= entries.len(),
        has_entry(entries, key) ==> entries[entry_at(entries, key)].0 == key,
        forall|i: int|
            0 <= i < entry_at(entries, key) ==> (#[trigger] entries[i]).0 != key,
        has_entry(entries, key) <==> exists|i: int|
            0 <= i < entries.len() && (#[trigger] entries[i]).0 == key,
    decreases entries.len(),
{
    if entries.len() > 0 && entries[0].0 != key {
        let rest = entries.skip(1);
        entry_stands(rest, key);
        assert forall|i: int| 0 <= i < entry_at(entries, key) implies (
        #[trigger] entries[i]).0 != key by {
            if i > 0 {
                assert(entries[i] == rest[i - 1]);
            }
        }
        if exists|i: int| 0 <= i < entries.len() && (#[trigger] entries[i]).0 == key {
            let i = choose|i: int| 0 <= i < entries.len() && (#[trigger] entries[i]).0 == key;
            assert(rest[i - 1] == entries[i]);
        }
        if exists|i: int| 0 <= i < rest.len() && (#[trigger] rest[i]).0 == key {
            let i = choose|i: int| 0 <= i < rest.len() && (#[trigger] rest[i]).0 == key;
            assert(entries[i + 1] == rest[i]);
        }
    }
}

/// A configuration is consistent where its default agent is one of its agents, or where it has none.
pub proof fn default_agents_are_configured(config: Config)
    ensures
        config.is_consistent() <==> config.entries().len() == 0 || exists|i: int|
            0 <= i < config.entries().len() && (#[trigger] config.entries()[i]).0
                == config.default_agent@,
{
    entry_stands(config.entries(), config.default_agent@);
}

/// An agent that comes again takes the place that it had, with what was said last; a new one comes
/// last. The others stay as they were.
pub proof fn agents_are_configured_last(
    agents: Seq<(String, AgentConfig)>,
    name: String,
    agent: AgentConfig,
    i: int,
)
    ensures
        ({
            let before = collected(agents);
            let after = collected(agents.push((name, agent)));
            let known = exists|k: int|
                0 <= k < before.len() && (#[trigger] before[k]).0 == name@;
            &&& !known ==> after == before.push((name@, agent))
            &&& known ==> after.len() == before.len()
            &&& known ==> exists|k: int|
                0 <= k < after.len() && #[trigger] after[k] == (name@, agent)
            &&& 0 <= i < before.len() && before[i].0 != name@ ==> after[i] == before[i]
        }),
{
    let before = collected(agents);
    assert(agents.push((name, agent)).drop_last() =~= agents);
    entry_stands(before, name@);
    let after = collected(agents.push((name, agent)));
    if has_entry(before, name@) {
        assert(after[entry_at(before, name@)] == (name@, agent));
    }
}

// ---------------------------------------------------------------------------
// The state database
// ---------------------------------------------------------------------------
/// The current layout needs no step, and the two before it are brought up one version at a time.
/// Every other layout is refused.
pub proof fn layouts_are_brought_up(version: int)
    ensures
        migration(version) is Some <==> 3 <= version <= 5,
        migration(5) == Some(Seq::<SchemaStep>::empty()),
        migration(4) == Some(seq![SchemaStep::V4ToV5]),
        3 <= version <= 5 ==> migration(version)->0.len() == 5 - version,
        migration(3) == Some(seq![SchemaStep::V3ToV4] + migration(4)->0),
        session_columns().len() == 22,
        session_columns()[0] == "session_id"@,
{
    assert(seq![SchemaStep::V3ToV4] + seq![SchemaStep::V4ToV5] =~= seq![
        SchemaStep::V3ToV4,
        SchemaStep::V4ToV5,
    ]);
}

// ---------------------------------------------------------------------------
// What texts tell of sessions
// ---------------------------------------------------------------------------
proof fn label_and_value(before: Seq<char>, label: Seq<char>, value: Seq<char>)
    ensures
        is_part(label + value, before + label + value),
{
    let all = before + label + value;
    let part = label + value;
    let i = before.len() as int;
    assert(all.subrange(i, i + part.len()) =~= part);
    assert(is_part_at(part, all, i));
}

proof fn kept(part: Seq<char>, text: Seq<char>, more: Seq<char>)
    requires
        is_part(part, text),
    ensures
        is_part(part, text + more),
{
    let i = choose|i: int| #[trigger] is_part_at(part, text, i);
    assert((text + more).subrange(i, i + part.len()) =~= text.subrange(i, i + part.len()));
    assert(is_part_at(part, text + more, i));
}

/// The details of a session tell its repository, worktree, branches and state, each under its own
/// label.
pub proof fn details_tell_each_thing_under_its_label(session: SessionRecord)
    ensures
        is_part("repo      "@ + session.repo_name@, details_text(session)),
        is_part("\nworktree   "@ + session.worktree@, details_text(session)),
        is_part("\nbranch     "@ + session.branch@, details_text(session)),
        is_part("\nbase       "@ + session.base_branch@, details_text(session)),
        is_part("\nstatus     "@ + status_text(session), details_text(session)),
        is_part(
            "\ncommits    "@ + (if session.has_commits {
                "yes"@
            } else {
                "no"@
            }),
            details_text(session),
        ),
        is_part(
            "\npending    "@ + (if session.has_pending_changes {
                "yes"@
            } else {
                "no"@
            }),
            details_text(session),
        ),
{
    let t0 = "repo      "@;
    let t1 = t0 + session.repo_name@;
    let t2 = t1 + "\nrepo_path  "@;
    let t3 = t2 + session.repo_path@;
    let t4 = t3 + "\nworktree   "@;
    let t5 = t4 + session.worktree@;
    let t6 = t5 + "\nbranch     "@;
    let t7 = t6 + session.branch@;
    let t8 = t7 + "\nbase       "@;
    let t9 = t8 + session.base_branch@;
    let t10 = t9 + "\ncommits    "@;
    let t11 = t10 + yes_no(session.has_commits);
    let t12 = t11 + "\npending    "@;
    let t13 = t12 + yes_no(session.has_pending_changes);
    let t14 = t13 + "\nstatus     "@;
    let t15 = t14 + status_text(session);
    label_and_value(Seq::empty(), "repo      "@, session.repo_name@);
    assert(Seq::<char>::empty() + "repo      "@ =~= "repo      "@);
    kept("repo      "@ + session.repo_name@, t1, "\nrepo_path  "@);
    kept("repo      "@ + session.repo_name@, t2, session.repo_path@);
    kept("repo      "@ + session.repo_name@, t3, "\nworktree   "@);
    kept("repo      "@ + session.repo_name@, t4, session.worktree@);
    kept("repo      "@ + session.repo_name@, t5, "\nbranch     "@);
    kept("repo      "@ + session.repo_name@, t6, session.branch@);
    kept("repo      "@ + session.repo_name@, t7, "\nbase       "@);
    kept("repo      "@ + session.repo_name@, t8, session.base_branch@);
    kept("repo      "@ + session.repo_name@, t9, "\ncommits    "@);
    kept("repo      "@ + session.repo_name@, t10, yes_no(session.has_commits));
    kept("repo      "@ + session.repo_name@, t11, "\npending    "@);
    kept("repo      "@ + session.repo_name@, t12, yes_no(session.has_pending_changes));
    kept("repo      "@ + session.repo_name@, t13, "\nstatus     "@);
    kept("repo      "@ + session.repo_name@, t14, status_text(session));
    label_and_value(t3, "\nworktree   "@, session.worktree@);
    kept("\nworktree   "@ + session.worktree@, t5, "\nbranch     "@);
    kept("\nworktree   "@ + session.worktree@, t6, session.branch@);
    kept("\nworktree   "@ + session.worktree@, t7, "\nbase       "@);
    kept("\nworktree   "@ + session.worktree@, t8, session.base_branch@);
    kept("\nworktree   "@ + session.worktree@, t9, "\ncommits    "@);
    kept("\nworktree   "@ + session.worktree@, t10, yes_no(session.has_commits));
    kept("\nworktree   "@ + session.worktree@, t11, "\npending    "@);
    kept("\nworktree   "@ + session.worktree@, t12, yes_no(session.has_pending_changes));
    kept("\nworktree   "@ + session.worktree@, t13, "\nstatus     "@);
    kept("\nworktree   "@ + session.worktree@, t14, status_text(session));
    label_and_value(t5, "\nbranch     "@, session.branch@);
    kept("\nbranch     "@ + session.branch@, t7, "\nbase       "@);
    kept("\nbranch     "@ + session.branch@, t8, session.base_branch@);
    kept("\nbranch     "@ + session.branch@, t9, "\ncommits    "@);
    kept("\nbranch     "@ + session.branch@, t10, yes_no(session.has_commits));
    kept("\nbranch     "@ + session.branch@, t11, "\npending    "@);
    kept("\nbranch     "@ + session.branch@, t12, yes_no(session.has_pending_changes));
    kept("\nbranch     "@ + session.branch@, t13, "\nstatus     "@);
    kept("\nbranch     "@ + session.branch@, t14, status_text(session));
    label_and_value(t7, "\nbase       "@, session.base_branch@);
    kept("\nbase       "@ + session.base_branch@, t9, "\ncommits    "@);
    kept("\nbase       "@ + session.base_branch@, t10, yes_no(session.has_commits));
    kept("\nbase       "@ + session.base_branch@, t11, "\npending    "@);
    kept("\nbase       "@ + session.base_branch@, t12, yes_no(session.has_pending_changes));
    kept("\nbase       "@ + session.base_branch@, t13, "\nstatus     "@);
    kept("\nbase       "@ + session.base_branch@, t14, status_text(session));
    label_and_value(t9, "\ncommits    "@, yes_no(session.has_commits));
    kept("\ncommits    "@ + yes_no(session.has_commits), t11, "\npending    "@);
    kept("\ncommits    "@ + yes_no(session.has_commits), t12, yes_no(session.has_pending_changes));
    kept("\ncommits    "@ + yes_no(session.has_commits), t13, "\nstatus     "@);
    kept("\ncommits    "@ + yes_no(session.has_commits), t14, status_text(session));
    label_and_value(t11, "\npending    "@, yes_no(session.has_pending_changes));
    kept("\npending    "@ + yes_no(session.has_pending_changes), t13, "\nstatus     "@);
    kept("\npending    "@ + yes_no(session.has_pending_changes), t14, status_text(session));
    label_and_value(t13, "\nstatus     "@, status_text(session));
}

/// What git says of a session is told under the labels of its branches and its worktree.
pub proof fn git_says_each_thing_under_its_label(session: SessionRecord)
    ensures
        is_part("\nworktree   "@ + session.worktree@, git_status_text(session)),
        is_part("\nbranch     "@ + session.branch@, git_status_text(session)),
        is_part("\nbase       "@ + session.base_branch@, git_status_text(session)),
{
    let summary = match session.git_status_summary {
        Some(summary) => summary@,
        None => GIT_STATUS_UNKNOWN@,
    };
    let t0 = "repo      "@;
    let t1 = t0 + session.repo_name@;
    let t2 = t1 + "\nrepo_path  "@;
    let t3 = t2 + session.repo_path@;
    let t4 = t3 + "\nworktree   "@;
    let t5 = t4 + session.worktree@;
    let t6 = t5 + "\nbranch     "@;
    let t7 = t6 + session.branch@;
    let t8 = t7 + "\nbase       "@;
    let t9 = t8 + session.base_branch@;
    let t10 = t9 + "\ngit_sync   "@;
    let t11 = t10 + session.git_sync@;
    let t12 = t11 + "\nconflicts  "@;
    let t13 = t12 + yes_no(session.has_conflicts);
    let t14 = t13 + "\n\n"@;
    let t15 = t14 + summary;
    label_and_value(t3, "\nworktree   "@, session.worktree@);
    kept("\nworktree   "@ + session.worktree@, t5, "\nbranch     "@);
    kept("\nworktree   "@ + session.worktree@, t6, session.branch@);
    kept("\nworktree   "@ + session.worktree@, t7, "\nbase       "@);
    kept("\nworktree   "@ + session.worktree@, t8, session.base_branch@);
    kept("\nworktree   "@ + session.worktree@, t9, "\ngit_sync   "@);
    kept("\nworktree   "@ + session.worktree@, t10, session.git_sync@);
    kept("\nworktree   "@ + session.worktree@, t11, "\nconflicts  "@);
    kept("\nworktree   "@ + session.worktree@, t12, yes_no(session.has_conflicts));
    kept("\nworktree   "@ + session.worktree@, t13, "\n\n"@);
    kept("\nworktree   "@ + session.worktree@, t14, summary);
    label_and_value(t5, "\nbranch     "@, session.branch@);
    kept("\nbranch     "@ + session.branch@, t7, "\nbase       "@);
    kept("\nbranch     "@ + session.branch@, t8, session.base_branch@);
    kept("\nbranch     "@ + session.branch@, t9, "\ngit_sync   "@);
    kept("\nbranch     "@ + session.branch@, t10, session.git_sync@);
    kept("\nbranch     "@ + session.branch@, t11, "\nconflicts  "@);
    kept("\nbranch     "@ + session.branch@, t12, yes_no(session.has_conflicts));
    kept("\nbranch     "@ + session.branch@, t13, "\n\n"@);
    kept("\nbranch     "@ + session.branch@, t14, summary);
    label_and_value(t7, "\nbase       "@, session.base_branch@);
    kept("\nbase       "@ + session.base_branch@, t9, "\ngit_sync   "@);
    kept("\nbase       "@ + session.base_branch@, t10, session.git_sync@);
    kept("\nbase       "@ + session.base_branch@, t11, "\nconflicts  "@);
    kept("\nbase       "@ + session.base_branch@, t12, yes_no(session.has_conflicts));
    kept("\nbase       "@ + session.base_branch@, t13, "\n\n"@);
    kept("\nbase       "@ + session.base_branch@, t14, summary);
}

/// What can be done with the changes of a session is told with its name, its branches and its state,
/// each under its own label.
pub proof fn reviews_tell_each_thing_under_its_label(session: SessionRecord)
    ensures
        is_part("session    "@ + session.session_id@, review_text(session)),
        is_part("\nbase       "@ + session.base_branch@, review_text(session)),
        is_part("\nbranch     "@ + session.branch@, review_text(session)),
        is_part("\nstatus     "@ + status_name(session.status), review_text(session)),
        is_part("\nagent accept "@ + session.session_id@, review_text(session)),
        is_part("\nagent discard "@ + session.session_id@, review_text(session)),
{
    let summary = match session.git_status_summary {
        Some(summary) => summary@,
        None => "review ready"@,
    };
    let second = "\n\n`accept` will only apply when the repo checkout is clean and on `"@;
    let third =
        "`. It performs a normal git merge and refuses to touch the upstream checkout if preflight predicts conflicts."@;
    let t0 = "session    "@;
    let t1 = t0 + session.session_id@;
    let t2 = t1 + "\nrepo       "@;
    let t3 = t2 + session.repo_name@;
    let t4 = t3 + "\nbase       "@;
    let t5 = t4 + session.base_branch@;
    let t6 = t5 + "\nbranch     "@;
    let t7 = t6 + session.branch@;
    let t8 = t7 + "\nworktree   "@;
    let t9 = t8 + session.worktree@;
    let t10 = t9 + "\nstatus     "@;
    let t11 = t10 + status_name(session.status);
    let t12 = t11 + "\nreview     "@;
    let t13 = t12 + summary;
    let t14 = t13 + "\nconflicts  "@;
    let t15 = t14 + yes_no(session.has_conflicts);
    let t16 = t15 + "\n\nCLI actions\nagent diff "@;
    let t17 = t16 + session.session_id@;
    let t18 = t17 + "\nagent accept "@;
    let t19 = t18 + session.session_id@;
    let t20 = t19 + "\nagent discard "@;
    let t21 = t20 + session.session_id@;
    let t22 = t21 + second;
    let t23 = t22 + session.base_branch@;
    let t24 = t23 + third;
    label_and_value(Seq::empty(), "session    "@, session.session_id@);
    assert(Seq::<char>::empty() + "session    "@ =~= "session    "@);
    kept("session    "@ + session.session_id@, t1, "\nrepo       "@);
    kept("session    "@ + session.session_id@, t2, session.repo_name@);
    kept("session    "@ + session.session_id@, t3, "\nbase       "@);
    kept("session    "@ + session.session_id@, t4, session.base_branch@);
    kept("session    "@ + session.session_id@, t5, "\nbranch     "@);
    kept("session    "@ + session.session_id@, t6, session.branch@);
    kept("session    "@ + session.session_id@, t7, "\nworktree   "@);
    kept("session    "@ + session.session_id@, t8, session.worktree@);
    kept("session    "@ + session.session_id@, t9, "\nstatus     "@);
    kept("session    "@ + session.session_id@, t10, status_name(session.status));
    kept("session    "@ + session.session_id@, t11, "\nreview     "@);
    kept("session    "@ + session.session_id@, t12, summary);
    kept("session    "@ + session.session_id@, t13, "\nconflicts  "@);
    kept("session    "@ + session.session_id@, t14, yes_no(session.has_conflicts));
    kept("session    "@ + session.session_id@, t15, "\n\nCLI actions\nagent diff "@);
    kept("session    "@ + session.session_id@, t16, session.session_id@);
    kept("session    "@ + session.session_id@, t17, "\nagent accept "@);
    kept("session    "@ + session.session_id@, t18, session.session_id@);
    kept("session    "@ + session.session_id@, t19, "\nagent discard "@);
    kept("session    "@ + session.session_id@, t20, session.session_id@);
    kept("session    "@ + session.session_id@, t21, second);
    kept("session    "@ + session.session_id@, t22, session.base_branch@);
    kept("session    "@ + session.session_id@, t23, third);
    label_and_value(t3, "\nbase       "@, session.base_branch@);
    kept("\nbase       "@ + session.base_branch@, t5, "\nbranch     "@);
    kept("\nbase       "@ + session.base_branch@, t6, session.branch@);
    kept("\nbase       "@ + session.base_branch@, t7, "\nworktree   "@);
    kept("\nbase       "@ + session.base_branch@, t8, session.worktree@);
    kept("\nbase       "@ + session.base_branch@, t9, "\nstatus     "@);
    kept("\nbase       "@ + session.base_branch@, t10, status_name(session.status));
    kept("\nbase       "@ + session.base_branch@, t11, "\nreview     "@);
    kept("\nbase       "@ + session.base_branch@, t12, summary);
    kept("\nbase       "@ + session.base_branch@, t13, "\nconflicts  "@);
    kept("\nbase       "@ + session.base_branch@, t14, yes_no(session.has_conflicts));
    kept("\nbase       "@ + session.base_branch@, t15, "\n\nCLI actions\nagent diff "@);
    kept("\nbase       "@ + session.base_branch@, t16, session.session_id@);
    kept("\nbase       "@ + session.base_branch@, t17, "\nagent accept "@);
    kept("\nbase       "@ + session.base_branch@, t18, session.session_id@);
    kept("\nbase       "@ + session.base_branch@, t19, "\nagent discard "@);
    kept("\nbase       "@ + session.base_branch@, t20, session.session_id@);
    kept("\nbase       "@ + session.base_branch@, t21, second);
    kept("\nbase       "@ + session.base_branch@, t22, session.base_branch@);
    kept("\nbase       "@ + session.base_branch@, t23, third);
    label_and_value(t5, "\nbranch     "@, session.branch@);
    kept("\nbranch     "@ + session.branch@, t7, "\nworktree   "@);
    kept("\nbranch     "@ + session.branch@, t8, session.worktree@);
    kept("\nbranch     "@ + session.branch@, t9, "\nstatus     "@);
    kept("\nbranch     "@ + session.branch@, t10, status_name(session.status));
    kept("\nbranch     "@ + session.branch@, t11, "\nreview     "@);
    kept("\nbranch     "@ + session.branch@, t12, summary);
    kept("\nbranch     "@ + session.branch@, t13, "\nconflicts  "@);
    kept("\nbranch     "@ + session.branch@, t14, yes_no(session.has_conflicts));
    kept("\nbranch     "@ + session.branch@, t15, "\n\nCLI actions\nagent diff "@);
    kept("\nbranch     "@ + session.branch@, t16, session.session_id@);
    kept("\nbranch     "@ + session.branch@, t17, "\nagent accept "@);
    kept("\nbranch     "@ + session.branch@, t18, session.session_id@);
    kept("\nbranch     "@ + session.branch@, t19, "\nagent discard "@);
    kept("\nbranch     "@ + session.branch@, t20, session.session_id@);
    kept("\nbranch     "@ + session.branch@, t21, second);
    kept("\nbranch     "@ + session.branch@, t22, session.base_branch@);
    kept("\nbranch     "@ + session.branch@, t23, third);
    label_and_value(t9, "\nstatus     "@, status_name(session.status));
    kept("\nstatus     "@ + status_name(session.status), t11, "\nreview     "@);
    kept("\nstatus     "@ + status_name(session.status), t12, summary);
    kept("\nstatus     "@ + status_name(session.status), t13, "\nconflicts  "@);
    kept("\nstatus     "@ + status_name(session.status), t14, yes_no(session.has_conflicts));
    kept("\nstatus     "@ + status_name(session.status), t15, "\n\nCLI actions\nagent diff "@);
    kept("\nstatus     "@ + status_name(session.status), t16, session.session_id@);
    kept("\nstatus     "@ + status_name(session.status), t17, "\nagent accept "@);
    kept("\nstatus     "@ + status_name(session.status), t18, session.session_id@);
    kept("\nstatus     "@ + status_name(session.status), t19, "\nagent discard "@);
    kept("\nstatus     "@ + status_name(session.status), t20, session.session_id@);
    kept("\nstatus     "@ + status_name(session.status), t21, second);
    kept("\nstatus     "@ + status_name(session.status), t22, session.base_branch@);
    kept("\nstatus     "@ + status_name(session.status), t23, third);
    label_and_value(t17, "\nagent accept "@, session.session_id@);
    kept("\nagent accept "@ + session.session_id@, t19, "\nagent discard "@);
    kept("\nagent accept "@ + session.session_id@, t20, session.session_id@);
    kept("\nagent accept "@ + session.session_id@, t21, second);
    kept("\nagent accept "@ + session.session_id@, t22, session.base_branch@);
    kept("\nagent accept "@ + session.session_id@, t23, third);
    label_and_value(t19, "\nagent discard "@, session.session_id@);
    kept("\nagent discard "@ + session.session_id@, t21, second);
    kept("\nagent discard "@ + session.session_id@, t22, session.base_branch@);
    kept("\nagent discard "@ + session.session_id@, t23, third);
}

/// Blanks are as many as are asked for, and none where less than one is.
pub proof fn blanks_are_counted(n: int, i: int)
    ensures
        n >= 0 ==> blanks(n).len() == n,
        n < 0 ==> blanks(n).len() == 0,
        0 <= i < blanks(n).len() ==> blanks(n)[i] == ' ',
{
}

} // verus!
