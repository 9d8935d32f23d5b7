//! What holds of sessions, their names and their processes, whoever looks at them.
use crate::local::{
    apply_state_named, attention_named, degraded, filled, is_row, is_there, mode_named, normalized,
    policy_named, row_fault, status_named, stored_status, with_changes, EndSignal, SessionRow,
    Termination, TerminationEvent,
};
use crate::paths::{root_of, AppPaths, EnvPath};
use crate::request_input::{
    member, option_of, options_of, question_of, questions_of, text_member, JsonMember, JsonValue,
};
use crate::session::{
    after_last_slash, is_session_name, repo_name, trimmed_path, ApplyState, AttachmentKind,
    AttentionLevel, IntegrationPolicy, SessionMode, SessionRecord, SessionStatus,
};
use crate::session_display::{
    elapsed_label, elapsed_seconds, elapsed_text, run_icon, run_prefix, run_state, RunState,
    ANSI_COMPLETED, ANSI_FAILED, ANSI_INACTIVE, ANSI_RUNNING,
};
use crate::session_find::status_name;
use crate::text::{decimal, trimmed};
use crate::time::{nanos_between, whole_seconds, Timestamp};
use vstd::prelude::*;
use vstd::string::*;

verus! {

// ---------------------------------------------------------------------------
// The state database
// ---------------------------------------------------------------------------
/// A stored name means the state that is called so. Sessions that were stored as paused have to be
/// recovered, and the older names of an apply state that says nothing mean that nothing was
/// applied. Nothing else is a name.
pub proof fn stored_names_mean_what_they_say(name: Seq<char>)
    ensures
        name == "creating"@ <==> status_named(name) == Some(SessionStatus::Creating),
        name == "running"@ <==> status_named(name) == Some(SessionStatus::Running),
        name == "exited"@ <==> status_named(name) == Some(SessionStatus::Exited),
        name == "failed"@ <==> status_named(name) == Some(SessionStatus::Failed),
        name == "unknown_recovered"@ || name == "paused"@ <==> status_named(name) == Some(
            SessionStatus::UnknownRecovered,
        ),
        status_named(name) != Some(SessionStatus::NeedsInput),
        status_named(name) != Some(SessionStatus::Paused),
        name == "applied"@ <==> apply_state_named(name) == Some(ApplyState::Applied),
        name == "discarded"@ <==> apply_state_named(name) == Some(ApplyState::Discarded),
        name == "auto_applying"@ <==> apply_state_named(name) == Some(ApplyState::AutoApplying),
        name == "idle"@ || name == "clean"@ || name == "pending_review"@ <==> apply_state_named(name)
            == Some(ApplyState::Idle),
        name == "manual_review"@ <==> policy_named(name) == Some(IntegrationPolicy::ManualReview),
        name == "auto_apply_safe"@ <==> policy_named(name) == Some(
            IntegrationPolicy::AutoApplySafe,
        ),
        name == "info"@ <==> attention_named(name) == Some(AttentionLevel::Info),
        name == "notice"@ <==> attention_named(name) == Some(AttentionLevel::Notice),
        name == "action"@ <==> attention_named(name) == Some(AttentionLevel::Action),
        name == "execute"@ <==> mode_named(name) == Some(SessionMode::Execute),
        name == "plan"@ <==> mode_named(name) == Some(SessionMode::Plan),
{
    reveal_strlit("creating");
    reveal_strlit("running");
    reveal_strlit("paused");
    reveal_strlit("exited");
    reveal_strlit("failed");
    reveal_strlit("unknown_recovered");
    assert("creating"@.len() == 8 && "running"@.len() == 7 && "paused"@.len() == 6
        && "exited"@.len() == 6 && "failed"@.len() == 6 && "unknown_recovered"@.len() == 17);
    assert("paused"@[0] == 'p' && "exited"@[0] == 'e' && "failed"@[0] == 'f');
    reveal_strlit("idle");
    reveal_strlit("clean");
    reveal_strlit("pending_review");
    reveal_strlit("auto_applying");
    reveal_strlit("applied");
    reveal_strlit("discarded");
    assert("idle"@.len() == 4 && "clean"@.len() == 5 && "pending_review"@.len() == 14
        && "auto_applying"@.len() == 13 && "applied"@.len() == 7 && "discarded"@.len() == 9);
    reveal_strlit("manual_review");
    reveal_strlit("auto_apply_safe");
    assert("manual_review"@.len() == 13 && "auto_apply_safe"@.len() == 15);
    reveal_strlit("info");
    reveal_strlit("notice");
    reveal_strlit("action");
    assert("info"@.len() == 4 && "notice"@.len() == 6 && "action"@.len() == 6);
    assert("notice"@[0] == 'n' && "action"@[0] == 'a');
    reveal_strlit("execute");
    reveal_strlit("plan");
    assert("execute"@.len() == 7 && "plan"@.len() == 4);
}

/// A state is stored under the name that it is shown by, but for one that waits for input, which
/// runs, and one that pauses, which has to be recovered.
pub proof fn states_are_stored_under_their_names(status: SessionStatus)
    ensures
        status != SessionStatus::NeedsInput && status != SessionStatus::Paused ==> stored_status(
            status,
        ) == status_name(status),
        stored_status(SessionStatus::NeedsInput) == status_name(SessionStatus::Running),
        stored_status(SessionStatus::Paused) == status_name(SessionStatus::UnknownRecovered),
        status_named(stored_status(status)) == Some(SessionStatus::Running) <==> status
            == SessionStatus::Running || status == SessionStatus::NeedsInput,
        ApplyState::Applied.name() == "applied"@,
        ApplyState::Discarded.name() == "discarded"@,
        AttentionLevel::Action.name() == "action"@,
        AttentionLevel::Notice.name() == "notice"@,
        IntegrationPolicy::AutoApplySafe.name() == "auto_apply_safe"@,
        SessionMode::Plan.name() == "plan"@,
        AttachmentKind::Tui.name() == "tui"@,
        AttachmentKind::Attach.name() == "attach"@,
{
    stored_names_mean_what_they_say(stored_status(status));
    reveal_strlit("creating");
    reveal_strlit("running");
    reveal_strlit("exited");
    reveal_strlit("failed");
    reveal_strlit("unknown_recovered");
    assert("creating"@.len() == 8 && "running"@.len() == 7 && "exited"@.len() == 6
        && "failed"@.len() == 6 && "unknown_recovered"@.len() == 17);
}

/// A row is read as the session that it says: under its name, in its state, with its branch and its
/// process, and with nothing counted yet.
pub proof fn rows_are_read_as_they_are(session: SessionRecord, row: SessionRow)
    requires
        row_fault(row) is None,
        is_row(session, row),
    ensures
        session.session_id@ == row.session_id@,
        session.branch@ == row.branch@,
        session.base_branch@ == row.base_branch@,
        session.worktree@ == row.worktree@,
        session.pid == row.pid,
        session.exit_code == row.exit_code,
        row.status@ == "running"@ <==> session.status == SessionStatus::Running,
        row.status@ == "failed"@ <==> session.status == SessionStatus::Failed,
        row.status@ == "exited"@ <==> session.status == SessionStatus::Exited,
        row.integration_state@ == "applied"@ <==> session.apply_state == ApplyState::Applied,
        row.integration_state@ == "discarded"@ <==> session.apply_state == ApplyState::Discarded,
        row.attention@ == "action"@ <==> session.attention == AttentionLevel::Action,
        !session.has_commits && !session.has_pending_changes,
{
    stored_names_mean_what_they_say(row.status@);
    stored_names_mean_what_they_say(row.integration_state@);
    stored_names_mean_what_they_say(row.attention@);
}

/// A session has commits where its branch is ahead, and changes that wait to be merged where it has
/// commits or its worktree was changed. Nothing else of it changes.
pub proof fn changes_are_counted(session: SessionRecord, dirty: u32, ahead: u32)
    ensures
        ({
            let after = with_changes(session, dirty, ahead);
            &&& after.dirty_count == dirty
            &&& after.ahead_count == ahead
            &&& after.has_commits <==> ahead != 0
            &&& after.has_pending_changes <==> ahead != 0 || dirty != 0
            &&& after == (SessionRecord {
                dirty_count: dirty,
                ahead_count: ahead,
                has_commits: after.has_commits,
                has_pending_changes: after.has_pending_changes,
                ..session
            })
        }),
{
}

/// Every line counts once, unless it is blank.
pub proof fn blank_lines_do_not_count(lines: Seq<Seq<char>>, line: Seq<char>)
    ensures
        filled(Seq::<Seq<char>>::empty()) == 0,
        trimmed(line).len() > 0 ==> filled(lines.push(line)) == filled(lines) + 1,
        trimmed(line).len() == 0 ==> filled(lines.push(line)) == filled(lines),
{
    assert(lines.push(line).drop_last() =~= lines);
}

// ---------------------------------------------------------------------------
// Processes
// ---------------------------------------------------------------------------
/// A session that is said to run is kept so where its process has a number other than zero and
/// answers, and is to be recovered otherwise; without a daemon it always is. Any other session is
/// left as it is.
pub proof fn lost_sessions_are_recovered(session: SessionRecord, answered: bool)
    ensures
        is_there(session.pid, answered) <==> answered && session.pid is Some && session.pid->0 != 0,
        ({
            let there = answered && session.pid is Some && session.pid->0 != 0;
            let lost = SessionRecord { status: SessionStatus::UnknownRecovered, ..session };
            &&& session.status == SessionStatus::Running && there ==> normalized(session, answered)
                == session
            &&& session.status == SessionStatus::Running && !there ==> normalized(session, answered)
                == lost
            &&& session.status != SessionStatus::Running ==> normalized(session, answered)
                == session && degraded(session) == session
            &&& session.status == SessionStatus::Running ==> degraded(session) == lost
        }),
{
}

/// A process is asked to terminate first and has its time to go. Only then is it killed, and given
/// its time again. What comes of it is that it is gone, that it never was there, that a signal was
/// refused, or that it is still there.
pub proof fn processes_are_asked_before_they_are_killed()
    ensures
        ({
            let first = Termination::Sending(EndSignal::Terminate);
            let asked = first.after(TerminationEvent::Sent);
            let second = asked.after(TerminationEvent::TimedOut);
            let killed = second.after(TerminationEvent::Sent);
            &&& asked == Termination::Waiting(EndSignal::Terminate)
            &&& asked.after(TerminationEvent::Exited) == Termination::Gone
            &&& second == Termination::Sending(EndSignal::Kill)
            &&& killed.after(TerminationEvent::Exited) == Termination::Gone
            &&& killed.after(TerminationEvent::TimedOut) == Termination::StillThere
            &&& first.after(TerminationEvent::NoSuchProcess) == Termination::NotRunning
            &&& second.after(TerminationEvent::NoSuchProcess) == Termination::NotRunning
            &&& first.after(TerminationEvent::SignalRefused) == Termination::Refused(
                EndSignal::Terminate,
            )
            &&& second.after(TerminationEvent::SignalRefused) == Termination::Refused(
                EndSignal::Kill,
            )
        }),
{
}

/// A process is said to be gone only where it was seen to go.
pub proof fn gone_processes_were_seen_to_go(state: Termination, event: TerminationEvent)
    requires
        state.after(event) == Termination::Gone,
    ensures
        state == Termination::Gone || event == TerminationEvent::Exited,
{
}

// ---------------------------------------------------------------------------
// Names
// ---------------------------------------------------------------------------
/// Whether a character is a small letter or a digit.
pub open spec fn is_letter_or_digit(c: char) -> bool {
    'a' <= c && c <= 'z' || '0' <= c && c <= '9'
}

/// A word of small letters and digits is a session's name, up to sixty-four of them, and two names
/// with one hyphen between them are one, if they are not too long together. What starts or ends
/// with a hyphen, or holds anything else, is none.
pub proof fn names_are_words_with_hyphens(a: Seq<char>, b: Seq<char>, i: int)
    ensures
        0 < a.len() <= 64 && (forall|k: int|
            0 <= k < a.len() ==> is_letter_or_digit(#[trigger] a[k])) ==> is_session_name(a),
        is_session_name(a) && is_session_name(b) && a.len() + b.len() < 64 ==> is_session_name(
            a + seq!['-'] + b,
        ),
        is_session_name(a + seq!['-'] + b) ==> is_session_name(a) && is_session_name(b) && a.len()
            + b.len() < 64,
        is_session_name(a) ==> 0 < a.len() <= 64,
        is_session_name(a) && 0 <= i < a.len() ==> is_letter_or_digit(a[i]) || a[i] == '-',
        is_session_name(a) ==> a[0] != '-' && a.last() != '-',
{
    let all = a + seq!['-'] + b;
    let at = a.len() as int;
    assert(all[at] == '-');
    assert forall|k: int| 0 <= k < a.len() implies all[k] == #[trigger] a[k] by {}
    assert forall|k: int| 0 <= k < b.len() implies all[at + 1 + k] == #[trigger] b[k] by {}
    if 0 < a.len() <= 64 && (forall|k: int|
        0 <= k < a.len() ==> is_letter_or_digit(#[trigger] a[k])) {
        assert forall|k: int| 0 <= k < a.len() implies crate::session::is_name_letter(
            #[trigger] a[k],
        ) && a[k] != '-' by {
            assert(is_letter_or_digit(a[k]));
        }
    }
    if is_session_name(a) {
        assert(a[0] != '-');
        assert(a[a.len() - 1] != '-');
    }
    if is_session_name(a) && is_session_name(b) && a.len() + b.len() < 64 {
        assert(b[0] != '-');
        assert forall|k: int| 0 <= k < all.len() implies crate::session::is_name_letter(
            #[trigger] all[k],
        ) || all[k] == '-' by {
            if k < at {
                assert(all[k] == a[k]);
            } else if k > at {
                assert(all[k] == b[k - at - 1]);
            }
        }
        assert forall|k: int| 0 <= k < all.len() && #[trigger] all[k] == '-' implies 0 < k
            < all.len() - 1 && all[k - 1] != '-' by {
            if k < at {
                assert(all[k] == a[k]);
                assert(all[k - 1] == a[k - 1]);
            } else if k == at {
                assert(all[k - 1] == a[a.len() - 1]);
            } else {
                assert(all[k] == b[k - at - 1]);
                assert(all[k - 1] == b[k - at - 2]);
            }
        }
    }
    if is_session_name(all) {
        assert(0 < at < all.len() - 1 && all[at - 1] != '-');
        assert forall|k: int| 0 <= k < a.len() implies crate::session::is_name_letter(
            #[trigger] a[k],
        ) || a[k] == '-' by {
            assert(all[k] == a[k]);
        }
        assert forall|k: int| 0 <= k < a.len() && #[trigger] a[k] == '-' implies 0 < k < a.len() - 1
            && a[k - 1] != '-' by {
            assert(all[k] == a[k]);
            assert(all[k - 1] == a[k - 1]);
            if k == a.len() - 1 {
                assert(all[at - 1] == '-');
            }
        }
        assert forall|k: int| 0 <= k < b.len() implies crate::session::is_name_letter(
            #[trigger] b[k],
        ) || b[k] == '-' by {
            assert(all[at + 1 + k] == b[k]);
        }
        assert forall|k: int| 0 <= k < b.len() && #[trigger] b[k] == '-' implies 0 < k < b.len() - 1
            && b[k - 1] != '-' by {
            assert(all[at + 1 + k] == b[k]);
            if k == 0 {
                assert(all[at + 1 - 1] == '-');
            } else {
                assert(all[at + k] == b[k - 1]);
            }
        }
    }
}

/// A repository is called by the last part of its path, slashes at the end aside.
pub proof fn repositories_are_named_by_their_directory(dir: Seq<char>, name: Seq<char>)
    requires
        name.len() > 0,
        forall|i: int| 0 <= i < name.len() ==> #[trigger] name[i] != '/',
        name != seq!['.'],
        name != seq!['.', '.'],
    ensures
        repo_name(name) == name,
        repo_name(dir + seq!['/'] + name) == name,
        repo_name(dir + seq!['/'] + name + seq!['/']) == name,
{
    let path = dir + seq!['/'] + name;
    last_part(Seq::empty(), name);
    last_part(dir + seq!['/'], name);
    assert(Seq::<char>::empty() + name =~= name);
    assert(path.last() == name[name.len() - 1]);
    assert(name.last() == name[name.len() - 1]);
    if name.len() == 1 {
        assert(name =~= seq![name[0]]);
        assert(name[0] != '.');
    } else {
        assert(path[path.len() - 2] == name[name.len() - 2]);
    }
    assert(trimmed_path(path) == path);
    assert(trimmed_path(name) == name);
    let slashed = path + seq!['/'];
    assert(slashed.drop_last() =~= path);
    assert(trimmed_path(slashed) == path);
}

proof fn last_part(front: Seq<char>, name: Seq<char>)
    requires
        forall|i: int| 0 <= i < name.len() ==> #[trigger] name[i] != '/',
        front.len() == 0 || front.last() == '/',
    ensures
        after_last_slash(front + name) == name,
    decreases name.len(),
{
    let all = front + name;
    if name.len() == 0 {
        assert(all =~= front);
        assert(name =~= Seq::empty());
    } else {
        let rest = name.drop_last();
        assert forall|i: int| 0 <= i < rest.len() implies #[trigger] rest[i] != '/' by {
            assert(rest[i] == name[i]);
        }
        last_part(front, rest);
        assert(all.drop_last() =~= front + rest);
        assert(name[name.len() - 1] != '/');
        assert(all.last() == name.last());
        assert(rest.push(name.last()) =~= name);
    }
}

// ---------------------------------------------------------------------------
// How long and in which state
// ---------------------------------------------------------------------------
/// A time is told in seconds below a minute, in minutes below an hour, in hours below a day and in
/// days from there on; what is left over is not told.
pub proof fn times_are_told_in_their_largest_unit(n: nat, rest: nat)
    ensures
        n < 60 ==> elapsed_text(n) == decimal(n) + "s"@,
        1 <= n < 60 && rest < 60 ==> elapsed_text(60 * n + rest) == decimal(n) + "m"@,
        1 <= n < 24 && rest < 3600 ==> elapsed_text(3600 * n + rest) == decimal(n) + "h"@,
        1 <= n && rest < 86400 ==> elapsed_text(86400 * n + rest) == decimal(n) + "d"@,
{
    if rest < 60 {
        assert((60 * n + rest) / 60 == n);
    }
    if rest < 3600 {
        assert((3600 * n + rest) / 3600 == n);
    }
    if rest < 86400 {
        assert((86400 * n + rest) / 86400 == n);
    }
}

/// A session counts from when it was made to when it ended, or to now while it has not. A part of a
/// second does not count, and nothing counts where the end comes first.
pub proof fn sessions_count_until_they_end(session: SessionRecord, now: Timestamp, end: Timestamp)
    requires
        end == (match session.exited_at {
            Some(at) => at,
            None => now,
        }),
        end.nanos < 1_000_000_000,
        session.created_at.nanos < 1_000_000_000,
    ensures
        ({
            let whole = end.seconds - session.created_at.seconds;
            let part = end.nanos < session.created_at.nanos;
            &&& whole >= 0 && !part ==> elapsed_seconds(session, now) == whole
            &&& whole > 0 && part ==> elapsed_seconds(session, now) == whole - 1
            &&& whole < 0 || whole == 0 && part ==> elapsed_seconds(session, now) == 0
            &&& elapsed_label(session, now) == elapsed_text(elapsed_seconds(session, now))
        }),
{
    let whole = end.seconds - session.created_at.seconds;
    let nanos = nanos_between(end, session.created_at);
    assert(nanos == whole * 1_000_000_000 + end.nanos - session.created_at.nanos);
    if nanos >= 0 {
        assert(whole_seconds(nanos) == nanos / 1_000_000_000);
    }
}

/// A session that failed is shown so, whatever became of its changes. Any other whose changes were
/// applied is completed. The rest is shown by what its process does.
pub proof fn runs_are_shown_as_they_are(session: SessionRecord)
    ensures
        ({
            let state = run_state(session);
            let applied = session.apply_state == ApplyState::Applied;
            &&& session.status == SessionStatus::Failed <==> state == RunState::Failed
            &&& state == RunState::Completed <==> applied && session.status != SessionStatus::Failed
            &&& !applied ==> {
                &&& session.status == SessionStatus::Creating <==> state == RunState::Starting
                &&& session.status == SessionStatus::Running || session.status
                    == SessionStatus::NeedsInput <==> state == RunState::Running
                &&& session.status == SessionStatus::Exited <==> state == RunState::Exited
                &&& session.status == SessionStatus::Paused || session.status
                    == SessionStatus::UnknownRecovered <==> state == RunState::Recovered
            }
            &&& run_prefix(state) == (if session.status == SessionStatus::Failed {
                ANSI_FAILED@
            } else if applied {
                ANSI_COMPLETED@
            } else if session.status == SessionStatus::Creating || session.status
                == SessionStatus::Running || session.status == SessionStatus::NeedsInput {
                ANSI_RUNNING@
            } else {
                ANSI_INACTIVE@
            })
            &&& run_icon(state) == (if session.status == SessionStatus::Failed {
                "✖"@
            } else if applied {
                "✓"@
            } else if session.status == SessionStatus::Creating || session.status
                == SessionStatus::Running || session.status == SessionStatus::NeedsInput {
                "●"@
            } else {
                "○"@
            })
        }),
{
}

// ---------------------------------------------------------------------------
// Files
// ---------------------------------------------------------------------------
/// The directory that the user names for the daemon comes first, as it is; then the runtime
/// directory, then the home directory, then the one for temporary files. A variable that is no text
/// is an error, unless one before it was used.
pub proof fn directories_are_tried_in_order(
    agentd_dir: EnvPath,
    xdg: EnvPath,
    home: EnvPath,
    tmpdir: EnvPath,
    uid: u32,
)
    ensures
        ({
            let root = root_of(agentd_dir, xdg, home, tmpdir, uid);
            &&& agentd_dir matches EnvPath::Text(dir) ==> root == Ok::<Seq<char>, Seq<char>>(dir@)
            &&& agentd_dir is NotUtf8 ==> root == Err::<Seq<char>, Seq<char>>("AGENTD_DIR"@)
            &&& agentd_dir is Unset && xdg is NotUtf8 ==> root == Err::<Seq<char>, Seq<char>>(
                "XDG_RUNTIME_DIR"@,
            )
            &&& agentd_dir is Unset && xdg is Text ==> root == Ok::<Seq<char>, Seq<char>>(
                crate::paths::path_join(xdg->Text_0@, "agentd"@),
            )
            &&& agentd_dir is Unset && xdg is Unset && home is Text ==> root == Ok::<
                Seq<char>,
                Seq<char>,
            >(crate::paths::path_join(home->Text_0@, ".agentd"@))
            &&& agentd_dir is Unset && xdg is Unset && home is Unset && tmpdir is Text ==> root
                == Ok::<Seq<char>, Seq<char>>(
                crate::paths::path_join(tmpdir->Text_0@, "agentd-"@ + decimal(uid as nat)),
            )
            &&& agentd_dir is Unset && xdg is Unset && home is Unset && tmpdir is Unset ==> root
                == Ok::<Seq<char>, Seq<char>>("/tmp/agentd-"@ + decimal(uid as nat))
            &&& root is Err <==> agentd_dir is NotUtf8 || agentd_dir is Unset && (xdg is NotUtf8
                || xdg is Unset && (home is NotUtf8 || home is Unset && tmpdir is NotUtf8))
        }),
{
    reveal_strlit("agentd");
    reveal_strlit("-");
    reveal_strlit("agentd-");
    reveal_strlit("/tmp/");
    reveal_strlit("/tmp/agentd-");
    let number = decimal(uid as nat);
    assert("agentd"@ + "-"@ =~= "agentd-"@);
    assert("/tmp/"@ + ("agentd-"@ + number) =~= "/tmp/agentd-"@ + number);
}

/// No two files of the daemon are the same.
pub proof fn files_are_distinct(paths: AppPaths, root: Seq<char>)
    requires
        paths.is_below(root),
    ensures
        paths.socket@ != paths.pid_file@,
        paths.socket@ != paths.database@,
        paths.socket@ != paths.config@,
        paths.pid_file@ != paths.database@,
        paths.pid_file@ != paths.config@,
        paths.database@ != paths.config@,
        paths.logs_dir@ != paths.worktrees_dir@,
{
    reveal_strlit("agentd.sock");
    reveal_strlit("agentd.pid");
    reveal_strlit("state.db");
    reveal_strlit("config.toml");
    reveal_strlit("logs");
    reveal_strlit("worktrees");
    reveal_strlit("/");
    assert("agentd.sock"@.len() == 11 && "agentd.pid"@.len() == 10 && "state.db"@.len() == 8
        && "config.toml"@.len() == 11 && "logs"@.len() == 4 && "worktrees"@.len() == 9);
    assert("agentd.sock"@[0] == 'a' && "config.toml"@[0] == 'c' && "agentd.pid"@[0] == 'a'
        && "state.db"@[0] == 's' && "logs"@[0] == 'l' && "worktrees"@[0] == 'w');
    let n = if root.len() == 0 || root.last() == '/' {
        root.len() as int
    } else {
        root.len() as int + 1
    };
    assert(paths.socket@.len() == n + 11 && paths.config@.len() == n + 11);
    assert(paths.socket@[n] == 'a' && paths.config@[n] == 'c');
    assert(paths.pid_file@.len() == n + 10 && paths.database@.len() == n + 8);
    assert(paths.logs_dir@.len() == n + 4 && paths.worktrees_dir@.len() == n + 9);
}

// ---------------------------------------------------------------------------
// Questions of an agent
// ---------------------------------------------------------------------------
/// An option is offered where it has a label, which is told without white space around it, as is
/// its description, if there is one. It stands for another answer only where it says so.
pub proof fn options_are_offered_as_given(value: JsonValue)
    ensures
        option_of(value) is Some <==> text_member(value, "label"@) is Some && trimmed(
            text_member(value, "label"@)->0,
        ).len() > 0,
        option_of(value) matches Some(option) ==> {
            &&& option.label == trimmed(text_member(value, "label"@)->0)
            &&& option.is_other <==> member(value, "is_other"@) == Some(JsonValue::Bool(true))
            &&& option.description is Some <==> text_member(value, "description"@) is Some
                && trimmed(text_member(value, "description"@)->0).len() > 0
            &&& option.description is Some ==> option.description->0 == trimmed(
                text_member(value, "description"@)->0,
            )
        },
{
}

/// A question is put where it has a text. Its name and its heading are those that were given, or
/// count its place where they are blank.
pub proof fn questions_are_put_as_given(value: JsonValue, index: nat)
    ensures
        question_of(value, index as int) is Some <==> text_member(value, "question"@) is Some
            && trimmed(text_member(value, "question"@)->0).len() > 0,
        question_of(value, index as int) matches Some(question) ==> {
            let id = text_member(value, "id"@);
            let header = text_member(value, "header"@);
            &&& question.question == trimmed(text_member(value, "question"@)->0)
            &&& id is Some && trimmed(id->0).len() > 0 ==> question.id == id->0
            &&& id is None || trimmed(id->0).len() == 0 ==> question.id == "question-"@ + decimal(
                index + 1,
            )
            &&& header is Some && trimmed(header->0).len() > 0 ==> question.header == header->0
            &&& header is None || trimmed(header->0).len() == 0 ==> question.header == "Question "@
                + decimal(index + 1)
        },
{
}

/// A value with a question more puts that question last; one that is no question puts none.
pub proof fn questions_keep_their_order(values: Seq<JsonValue>, value: JsonValue)
    ensures
        questions_of(Seq::<JsonValue>::empty()).len() == 0,
        question_of(value, values.len() as int) matches Some(question) ==> questions_of(
            values.push(value),
        ) == questions_of(values).push(question),
        question_of(value, values.len() as int) is None ==> questions_of(values.push(value))
            == questions_of(values),
{
    assert(values.push(value).drop_last() =~= values);
}

/// A member is found under its key, and of several with one key it is the first; nothing else than
/// an object has members.
pub proof fn members_are_found_by_their_keys(
    members: Vec<JsonMember>,
    i: int,
    key: Seq<char>,
)
    requires
        0 <= i < members@.len(),
        members@[i].key@ == key,
        forall|k: int| 0 <= k < i ==> (#[trigger] members@[k]).key@ != key,
    ensures
        member(JsonValue::Object(members), key) == Some(members@[i].value),
{
    found_under(members@, i, key);
}

proof fn found_under(members: Seq<JsonMember>, i: int, key: Seq<char>)
    requires
        0 <= i < members.len(),
        members[i].key@ == key,
        forall|k: int| 0 <= k < i ==> (#[trigger] members[k]).key@ != key,
    ensures
        crate::request_input::member_in(members, key) == Some(members[i].value),
    decreases members.len(),
{
    if i > 0 {
        let rest = members.skip(1);
        assert(members[0].key@ != key);
        assert forall|k: int| 0 <= k < i - 1 implies (#[trigger] rest[k]).key@ != key by {
            assert(rest[k] == members[k + 1]);
        }
        found_under(rest, i - 1, key);
    }
}

/// A path that ends in no name, but in dots for a directory, is the name itself.
pub proof fn dots_are_no_names(dir: Seq<char>)
    ensures
        repo_name(seq!['.']) == seq!['.'],
        repo_name(seq!['.', '.']) == seq!['.', '.'],
        repo_name(dir + seq!['/'] + seq!['.', '.']) == dir + seq!['/'] + seq!['.', '.'],
{
    let one = seq!['.'];
    let two = seq!['.', '.'];
    last_part(Seq::empty(), one);
    last_part(Seq::empty(), two);
    last_part(dir + seq!['/'], two);
    assert(Seq::<char>::empty() + one =~= one);
    assert(Seq::<char>::empty() + two =~= two);
    let path = dir + seq!['/'] + two;
    assert(path.last() == '.' && path[path.len() - 2] == '.');
    assert(trimmed_path(path) == path);
    assert(trimmed_path(two) == two);
    assert(trimmed_path(one) == one);
}

/// A value with an option more offers that option last; one that is no option offers none.
pub proof fn options_keep_their_order(values: Seq<JsonValue>, value: JsonValue)
    ensures
        options_of(Seq::<JsonValue>::empty()).len() == 0,
        option_of(value) matches Some(option) ==> options_of(values.push(value)) == options_of(
            values,
        ).push(option),
        option_of(value) is None ==> options_of(values.push(value)) == options_of(values),
{
    assert(values.push(value).drop_last() =~= values);
}

} // verus!
