//! How a session is shown in one row.
use crate::session::{ApplyState, SessionRecord, SessionStatus};
use crate::text::{decimal, decimal_of};
use crate::time::{nanos_between, utc_now, whole_seconds, Timestamp};
use vstd::prelude::*;
use vstd::string::*;

verus! {

pub const ANSI_RESET: &'static str = "\x1b[0m";

pub const ANSI_RUNNING: &'static str = "\x1b[32m";

pub const ANSI_COMPLETED: &'static str = "\x1b[36m";

pub const ANSI_FAILED: &'static str = "\x1b[31m";

pub const ANSI_INACTIVE: &'static str = "\x1b[90m";

pub const ANSI_DIRTY: &'static str = "\x1b[33m";

pub const ANSI_AHEAD: &'static str = "\x1b[35m";

pub const ANSI_EMPHASIS: &'static str = "\x1b[1m";

pub const ANSI_DIM_TEXT: &'static str = "\x1b[2m\x1b[90m";

/// What a session's process is doing.
#[derive(Clone, Copy, Debug, PartialEq, Eq, Structural)]
pub enum RunState {
    Starting,
    Running,
    Exited,
    Completed,
    Failed,
    Recovered,
}

/// A session in one row.
#[derive(Debug, PartialEq, Eq)]
pub struct SessionDisplayRow {
    pub run_state: RunState,
    pub dirty_count: u32,
    pub ahead_count: u32,
    pub age_text: String,
    pub name: String,
    pub branch: String,
    pub needs_attention: bool,
}

/// What a session's process is doing: a failure counts first, then that the changes were applied.
pub open spec fn run_state(session: SessionRecord) -> RunState {
    if session.status == SessionStatus::Failed {
        RunState::Failed
    } else if session.apply_state == ApplyState::Applied {
        RunState::Completed
    } else {
        match session.status {
            SessionStatus::Creating => RunState::Starting,
            SessionStatus::Running => RunState::Running,
            SessionStatus::NeedsInput => RunState::Running,
            SessionStatus::Exited => RunState::Exited,
            SessionStatus::Failed => RunState::Failed,
            SessionStatus::Paused => RunState::Recovered,
            SessionStatus::UnknownRecovered => RunState::Recovered,
        }
    }
}

/// Seconds in their largest unit: seconds, minutes, hours or days.
pub open spec fn elapsed_text(seconds: nat) -> Seq<char> {
    if seconds < 60 {
        decimal(seconds) + "s"@
    } else if seconds < 3_600 {
        decimal(seconds / 60) + "m"@
    } else if seconds < 86_400 {
        decimal(seconds / 3_600) + "h"@
    } else {
        decimal(seconds / 86_400) + "d"@
    }
}

/// How long a session has run: until it exited, or until now. It never runs for less than
/// nothing.
pub open spec fn elapsed_seconds(session: SessionRecord, now: Timestamp) -> nat {
    let end = match session.exited_at {
        Some(at) => at,
        None => now,
    };
    let seconds = whole_seconds(nanos_between(end, session.created_at));
    if seconds < 0 {
        0
    } else {
        seconds as nat
    }
}

/// How long a session has run, in its largest unit.
pub open spec fn elapsed_label(session: SessionRecord, now: Timestamp) -> Seq<char> {
    elapsed_text(elapsed_seconds(session, now))
}

/// A text between an escape sequence and the one that ends all styles.
pub open spec fn ansi_styled(text: Seq<char>, prefix: Seq<char>) -> Seq<char> {
    prefix + text + ANSI_RESET@
}

/// A number and its unit.
fn with_unit(number: u64, unit: &str) -> (r: String)
    ensures
        r@ == decimal(number as nat) + unit@,
{
    let mut r = decimal_of(number);
    r.append(unit);
    r
}

/// Seconds in their largest unit.
pub fn format_elapsed_seconds(seconds: u64) -> (r: String)
    ensures
        r@ == elapsed_text(seconds as nat),
{
    if seconds < 60 {
        with_unit(seconds, "s")
    } else if seconds < 3_600 {
        with_unit(seconds / 60, "m")
    } else if seconds < 86_400 {
        with_unit(seconds / 3_600, "h")
    } else {
        with_unit(seconds / 86_400, "d")
    }
}

/// How long a session has run at a point in time.
pub fn session_elapsed_label_at(session: &SessionRecord, now: Timestamp) -> (r: String)
    requires
        session.valid(),
        now.valid(),
    ensures
        r@ == elapsed_label(*session, now),
{
    let end = match session.exited_at {
        Some(at) => at,
        None => now,
    };
    let seconds: i64 = end.seconds_since(&session.created_at);
    format_elapsed_seconds(
        if seconds < 0 {
            0
        } else {
            seconds as u64
        },
    )
}

/// How long a session has run.
pub fn session_elapsed_label(session: &SessionRecord) -> (r: String)
    requires
        session.valid(),
    ensures
        exists|now: Timestamp| now.valid() && r@ == elapsed_label(*session, now),
{
    let now = utc_now();
    session_elapsed_label_at(session, now)
}

/// What a session's process is doing.
pub fn session_run_state(session: &SessionRecord) -> (r: RunState)
    ensures
        r == run_state(*session),
{
    if session.status == SessionStatus::Failed {
        return RunState::Failed;
    }
    if session.apply_state == ApplyState::Applied {
        return RunState::Completed;
    }
    match session.status {
        SessionStatus::Creating => RunState::Starting,
        SessionStatus::Running => RunState::Running,
        SessionStatus::NeedsInput => RunState::Running,
        SessionStatus::Exited => RunState::Exited,
        SessionStatus::Failed => RunState::Failed,
        SessionStatus::Paused => RunState::Recovered,
        SessionStatus::UnknownRecovered => RunState::Recovered,
    }
}

/// A session in one row, at a point in time.
pub fn build_session_display_row_at(session: &SessionRecord, now: Timestamp) -> (r:
    SessionDisplayRow)
    requires
        session.valid(),
        now.valid(),
    ensures
        r.run_state == run_state(*session),
        r.dirty_count == session.dirty_count,
        r.ahead_count == session.ahead_count,
        r.age_text@ == elapsed_label(*session, now),
        r.name@ == session.session_id@,
        r.branch@ == session.branch@,
        r.needs_attention == (run_state(*session) == RunState::Failed || session.dirty_count > 0
            || session.ahead_count > 0),
{
    let run_state = session_run_state(session);
    SessionDisplayRow {
        run_state,
        dirty_count: session.dirty_count,
        ahead_count: session.ahead_count,
        age_text: session_elapsed_label_at(session, now),
        name: session.session_id.clone(),
        branch: session.branch.clone(),
        needs_attention: run_state == RunState::Failed || session.dirty_count > 0
            || session.ahead_count > 0,
    }
}

/// A session in one row.
pub fn build_session_display_row(session: &SessionRecord) -> (r: SessionDisplayRow)
    requires
        session.valid(),
    ensures
        r.run_state == run_state(*session),
        r.dirty_count == session.dirty_count,
        r.ahead_count == session.ahead_count,
        exists|now: Timestamp| now.valid() && r.age_text@ == elapsed_label(*session, now),
        r.name@ == session.session_id@,
        r.branch@ == session.branch@,
        r.needs_attention == (run_state(*session) == RunState::Failed || session.dirty_count > 0
            || session.ahead_count > 0),
{
    let now = utc_now();
    build_session_display_row_at(session, now)
}

/// The sign for what a process is doing.
pub open spec fn run_icon(run_state: RunState) -> Seq<char> {
    match run_state {
        RunState::Starting | RunState::Running => "●"@,
        RunState::Exited | RunState::Recovered => "○"@,
        RunState::Completed => "✓"@,
        RunState::Failed => "✖"@,
    }
}

/// The sign for what a process is doing.
pub fn render_run_icon(run_state: RunState) -> (r: &'static str)
    ensures
        r@ == run_icon(run_state),
{
    match run_state {
        RunState::Starting | RunState::Running => "●",
        RunState::Exited | RunState::Recovered => "○",
        RunState::Completed => "✓",
        RunState::Failed => "✖",
    }
}

/// A count; a dash for none.
pub fn render_count_text(count: u32) -> (r: String)
    ensures
        r@ == (if count == 0 {
            "-"@
        } else {
            decimal(count as nat)
        }),
{
    if count == 0 {
        "-".to_string()
    } else {
        decimal_of(count as u64)
    }
}

fn style_text(text: &str, prefix: &str) -> (r: String)
    ensures
        r@ == ansi_styled(text@, prefix@),
{
    let mut r = prefix.to_string();
    r.append(text);
    r.append(ANSI_RESET);
    r
}

/// The escape sequence for what a process is doing.
pub open spec fn run_prefix(run_state: RunState) -> Seq<char> {
    match run_state {
        RunState::Starting | RunState::Running => ANSI_RUNNING@,
        RunState::Exited | RunState::Recovered => ANSI_INACTIVE@,
        RunState::Completed => ANSI_COMPLETED@,
        RunState::Failed => ANSI_FAILED@,
    }
}

/// A text in the colour of what a process is doing.
pub fn style_run(text: &str, run_state: RunState) -> (r: String)
    ensures
        r@ == ansi_styled(text@, run_prefix(run_state)),
{
    style_text(
        text,
        match run_state {
            RunState::Starting | RunState::Running => ANSI_RUNNING,
            RunState::Exited | RunState::Recovered => ANSI_INACTIVE,
            RunState::Completed => ANSI_COMPLETED,
            RunState::Failed => ANSI_FAILED,
        },
    )
}

/// A count of changed files, in colour if there are any.
pub fn style_dirty(text: &str, dirty_count: u32) -> (r: String)
    ensures
        r@ == (if dirty_count == 0 {
            text@
        } else {
            ansi_styled(text@, ANSI_DIRTY@)
        }),
{
    if dirty_count == 0 {
        text.to_string()
    } else {
        style_text(text, ANSI_DIRTY)
    }
}

/// A count of commits, in colour if there are any.
pub fn style_ahead(text: &str, ahead_count: u32) -> (r: String)
    ensures
        r@ == (if ahead_count == 0 {
            text@
        } else {
            ansi_styled(text@, ANSI_AHEAD@)
        }),
{
    if ahead_count == 0 {
        text.to_string()
    } else {
        style_text(text, ANSI_AHEAD)
    }
}

/// An age.
pub fn style_age(text: &str) -> (r: String)
    ensures
        r@ == ansi_styled(text@, ANSI_DIM_TEXT@),
{
    style_text(text, ANSI_DIM_TEXT)
}

/// A name.
pub fn style_name(text: &str) -> (r: String)
    ensures
        r@ == ansi_styled(text@, ANSI_EMPHASIS@),
{
    style_text(text, ANSI_EMPHASIS)
}

/// A branch.
pub fn style_branch(text: &str) -> (r: String)
    ensures
        r@ == ansi_styled(text@, ANSI_DIM_TEXT@),
{
    style_text(text, ANSI_DIM_TEXT)
}

} // verus!
