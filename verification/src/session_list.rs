//! The list of sessions: how it is ordered, and how its rows fit into a width.
use crate::order::{as_ints, order_of, stable_order, SortKey};
use crate::session::{ApplyState, AttentionLevel, SessionRecord, SessionStatus};
use crate::session_display::{elapsed_label, session_elapsed_label_at, ANSI_RESET};
use crate::style::{colored, unstyled, Color, Style};
use crate::text::{blanks, blanks_of, char_count, first_chars, take_chars, views};
use crate::time::{utc_now, Timestamp};
use vstd::prelude::*;
use vstd::string::*;

verus! {

pub const HOST_PICKER_QUERY_BG: &'static str = "\x1b[48;2;62;63;71m";

pub const HOST_PICKER_TEXT_FG: &'static str = "\x1b[38;2;255;255;255m";

pub const HOST_PICKER_STATUS_YELLOW_FG: &'static str = "\x1b[38;2;250;204;21m";

pub const HOST_PICKER_STATUS_RED_FG: &'static str = "\x1b[38;2;239;68;68m";

pub const HOST_PICKER_STATUS_BLUE_FG: &'static str = "\x1b[38;2;96;165;250m";

pub const HOST_PICKER_STATUS_GREEN_FG: &'static str = "\x1b[38;2;34;197;94m";

pub const ANSI_DIM: &'static str = "\x1b[2m";

pub const SESSION_LIST_DEFAULT_WIDTH: usize = 120;

pub const SESSION_LIST_STATUS_WIDTH: usize = 13;

pub const SESSION_LIST_COMMITS_WIDTH: usize = 7;

pub const SESSION_LIST_AGE_WIDTH: usize = 6;

pub const SESSION_LIST_SESSION_MIN_WIDTH: usize = 8;

pub const SESSION_LIST_SESSION_MAX_WIDTH: usize = 24;

pub const SESSION_LIST_SESSION_FLOOR_WIDTH: usize = 6;

pub const SESSION_LIST_REPO_MIN_WIDTH: usize = 8;

pub const SESSION_LIST_REPO_MAX_WIDTH: usize = 18;

pub const SESSION_LIST_REPO_FLOOR_WIDTH: usize = 6;

pub const SESSION_LIST_BRANCH_MIN_WIDTH: usize = 12;

pub const SESSION_LIST_BRANCH_MAX_WIDTH: usize = 34;

pub const SESSION_LIST_BRANCH_FLOOR_WIDTH: usize = 8;

pub const SESSION_LIST_STRUCTURAL_WIDTH: usize = 12;

pub const HOST_PICKER_SESSION_PREFIX_WIDTH: usize = 5;

pub const HOST_PICKER_SESSION_STRUCTURAL_WIDTH: usize = 3;

// ---------------------------------------------------------------------------
// What a session is shown as
// ---------------------------------------------------------------------------
/// What a session is shown as.
#[derive(Clone, Copy, Debug, PartialEq, Eq, Structural)]
pub enum SessionDisplayState {
    NeedsInput,
    Failed,
    Recovered,
    Applied,
    Creating,
    Running,
    Exited,
}

/// Whether a running session waits for its user.
pub open spec fn requires_action(session: SessionRecord) -> bool {
    session.status == SessionStatus::Running && session.attention == AttentionLevel::Action
}

/// What a session is shown as: that it waits for its user counts first, then that its changes
/// were applied, unless it failed or lost its process.
pub open spec fn display_state(session: SessionRecord) -> SessionDisplayState {
    if requires_action(session) {
        SessionDisplayState::NeedsInput
    } else if session.apply_state == ApplyState::Applied && session.status
        != SessionStatus::Failed && session.status != SessionStatus::UnknownRecovered
        && session.status != SessionStatus::Paused {
        SessionDisplayState::Applied
    } else {
        match session.status {
            SessionStatus::Creating => SessionDisplayState::Creating,
            SessionStatus::Running => SessionDisplayState::Running,
            SessionStatus::NeedsInput => SessionDisplayState::NeedsInput,
            SessionStatus::Exited => SessionDisplayState::Exited,
            SessionStatus::Failed => SessionDisplayState::Failed,
            SessionStatus::Paused => SessionDisplayState::Recovered,
            SessionStatus::UnknownRecovered => SessionDisplayState::Recovered,
        }
    }
}

/// What a session is shown as.
pub fn session_display_state(session: &SessionRecord) -> (r: SessionDisplayState)
    ensures
        r == display_state(*session),
{
    if session.status == SessionStatus::Running && session.attention == AttentionLevel::Action {
        return SessionDisplayState::NeedsInput;
    }
    if session.apply_state == ApplyState::Applied && session.status != SessionStatus::Failed
        && session.status != SessionStatus::UnknownRecovered && session.status
        != SessionStatus::Paused {
        return SessionDisplayState::Applied;
    }
    match session.status {
        SessionStatus::Creating => SessionDisplayState::Creating,
        SessionStatus::Running => SessionDisplayState::Running,
        SessionStatus::NeedsInput => SessionDisplayState::NeedsInput,
        SessionStatus::Exited => SessionDisplayState::Exited,
        SessionStatus::Failed => SessionDisplayState::Failed,
        SessionStatus::Paused => SessionDisplayState::Recovered,
        SessionStatus::UnknownRecovered => SessionDisplayState::Recovered,
    }
}

/// Whether a client can attach to a session.
pub open spec fn accepts_attach(session: SessionRecord) -> bool {
    session.status == SessionStatus::Running
}

/// Whether a client can attach to a session.
pub fn session_accepts_attach(session: &SessionRecord) -> (r: bool)
    ensures
        r == accepts_attach(*session),
{
    session.status == SessionStatus::Running
}

/// The sign of a state.
pub open spec fn state_icon(state: SessionDisplayState) -> Seq<char> {
    match state {
        SessionDisplayState::NeedsInput => "◦"@,
        SessionDisplayState::Failed => "✖"@,
        SessionDisplayState::Recovered => "⚠"@,
        SessionDisplayState::Applied | SessionDisplayState::Exited => "✔"@,
        SessionDisplayState::Running | SessionDisplayState::Creating => "●"@,
    }
}

/// The sign of a state.
pub fn icon_of(state: SessionDisplayState) -> (r: &'static str)
    ensures
        r@ == state_icon(state),
        r@.len() == 1,
{
    proof {
        reveal_strlit("◦");
        reveal_strlit("✖");
        reveal_strlit("⚠");
        reveal_strlit("✔");
        reveal_strlit("●");
    }
    match state {
        SessionDisplayState::NeedsInput => "◦",
        SessionDisplayState::Failed => "✖",
        SessionDisplayState::Recovered => "⚠",
        SessionDisplayState::Applied | SessionDisplayState::Exited => "✔",
        SessionDisplayState::Running | SessionDisplayState::Creating => "●",
    }
}

/// The sign of a session.
pub fn session_icon(session: &SessionRecord) -> (r: &'static str)
    ensures
        r@ == state_icon(display_state(*session)),
        r@.len() == 1,
{
    icon_of(session_display_state(session))
}

/// The colour of a state.
pub open spec fn state_color(state: SessionDisplayState) -> Color {
    match state {
        SessionDisplayState::NeedsInput => Color::Yellow,
        SessionDisplayState::Failed => Color::Red,
        SessionDisplayState::Recovered => Color::Yellow,
        SessionDisplayState::Applied
        | SessionDisplayState::Running
        | SessionDisplayState::Creating
        | SessionDisplayState::Exited => Color::Green,
    }
}

/// The colour of a session.
pub fn session_icon_color(session: &SessionRecord) -> (r: Color)
    ensures
        r == state_color(display_state(*session)),
{
    match session_display_state(session) {
        SessionDisplayState::NeedsInput => Color::Yellow,
        SessionDisplayState::Failed => Color::Red,
        SessionDisplayState::Recovered => Color::Yellow,
        SessionDisplayState::Applied
        | SessionDisplayState::Running
        | SessionDisplayState::Creating
        | SessionDisplayState::Exited => Color::Green,
    }
}

/// The style of the sign of a session: dim where it waits for its user.
pub open spec fn icon_style(session: SessionRecord) -> Style {
    let style = colored(state_color(display_state(session)));
    if display_state(session) == SessionDisplayState::NeedsInput {
        Style { dim: true, ..style }
    } else {
        style
    }
}

/// The style of the sign of a session.
pub fn session_icon_style(session: &SessionRecord) -> (r: Style)
    ensures
        r == icon_style(*session),
{
    let mut style = Style::color(session_icon_color(session));
    if session_display_state(session) == SessionDisplayState::NeedsInput {
        style.dim = true;
    }
    style
}

/// The mark of changes that wait to be merged.
pub open spec fn pending_marker(session: SessionRecord) -> Seq<char> {
    if session.has_pending_changes {
        "⧖"@
    } else {
        " "@
    }
}

/// The mark of changes that wait to be merged.
pub fn pending_changes_marker(session: &SessionRecord) -> (r: &'static str)
    ensures
        r@ == pending_marker(*session),
        r@.len() == 1,
{
    proof {
        reveal_strlit("⧖");
        reveal_strlit(" ");
    }
    if session.has_pending_changes {
        "⧖"
    } else {
        " "
    }
}

/// The style of that mark.
pub open spec fn pending_marker_style(session: SessionRecord) -> Style {
    if session.has_pending_changes {
        colored(Color::Blue)
    } else {
        unstyled()
    }
}

/// The style of that mark.
pub fn pending_changes_marker_style(session: &SessionRecord) -> (r: Style)
    ensures
        r == pending_marker_style(*session),
{
    if session.has_pending_changes {
        Style::color(Color::Blue)
    } else {
        Style::plain()
    }
}

/// The escape sequence for changes that wait to be merged.
pub fn pending_changes_ansi_prefix() -> (r: &'static str)
    ensures
        r@ == HOST_PICKER_STATUS_BLUE_FG@,
{
    HOST_PICKER_STATUS_BLUE_FG
}

/// The escape sequence for a state.
pub open spec fn state_prefix(state: SessionDisplayState) -> Seq<char> {
    match state {
        SessionDisplayState::NeedsInput => ANSI_DIM@ + HOST_PICKER_STATUS_YELLOW_FG@,
        SessionDisplayState::Failed => HOST_PICKER_STATUS_RED_FG@,
        SessionDisplayState::Recovered => HOST_PICKER_STATUS_YELLOW_FG@,
        SessionDisplayState::Applied
        | SessionDisplayState::Running
        | SessionDisplayState::Creating
        | SessionDisplayState::Exited => HOST_PICKER_STATUS_GREEN_FG@,
    }
}

/// The escape sequence for a state.
pub fn prefix_of(state: SessionDisplayState) -> (r: String)
    ensures
        r@ == state_prefix(state),
{
    match state {
        SessionDisplayState::NeedsInput => {
            let mut r = ANSI_DIM.to_string();
            r.append(HOST_PICKER_STATUS_YELLOW_FG);
            r
        },
        SessionDisplayState::Failed => HOST_PICKER_STATUS_RED_FG.to_string(),
        SessionDisplayState::Recovered => HOST_PICKER_STATUS_YELLOW_FG.to_string(),
        SessionDisplayState::Applied
        | SessionDisplayState::Running
        | SessionDisplayState::Creating
        | SessionDisplayState::Exited => HOST_PICKER_STATUS_GREEN_FG.to_string(),
    }
}

/// The escape sequence for the sign of a session.
pub fn host_picker_icon_ansi_prefix(session: &SessionRecord) -> (r: String)
    ensures
        r@ == state_prefix(display_state(*session)),
{
    prefix_of(session_display_state(session))
}

/// The name of a state in the list.
pub open spec fn state_label(state: SessionDisplayState) -> Seq<char> {
    match state {
        SessionDisplayState::NeedsInput => "needs input"@,
        SessionDisplayState::Failed => "failed"@,
        SessionDisplayState::Recovered => "recovered"@,
        SessionDisplayState::Applied => "applied"@,
        SessionDisplayState::Running | SessionDisplayState::Creating => "running"@,
        SessionDisplayState::Exited => "exited"@,
    }
}

/// The name of a state in the list.
pub fn label_of(state: SessionDisplayState) -> (r: &'static str)
    ensures
        r@ == state_label(state),
{
    match state {
        SessionDisplayState::NeedsInput => "needs input",
        SessionDisplayState::Failed => "failed",
        SessionDisplayState::Recovered => "recovered",
        SessionDisplayState::Applied => "applied",
        SessionDisplayState::Running | SessionDisplayState::Creating => "running",
        SessionDisplayState::Exited => "exited",
    }
}

/// The name of a session's state in the list.
pub fn session_list_status_label(session: &SessionRecord) -> (r: &'static str)
    ensures
        r@ == state_label(display_state(*session)),
{
    label_of(session_display_state(session))
}

/// What is said of a session's state: its summary if it has one.
pub open spec fn status_text(session: SessionRecord) -> Seq<char> {
    match session.attention_summary {
        Some(summary) => summary@,
        None => match display_state(session) {
            SessionDisplayState::Creating => "starting"@,
            SessionDisplayState::Running => "running"@,
            SessionDisplayState::NeedsInput => "needs input"@,
            SessionDisplayState::Failed => match session.error {
                Some(error) => error@,
                None => "blocked"@,
            },
            SessionDisplayState::Recovered => "daemon lost the live process"@,
            SessionDisplayState::Applied => "applied"@,
            SessionDisplayState::Exited => "complete"@,
        },
    }
}

/// What is said of a session's state.
pub fn session_status_text(session: &SessionRecord) -> (r: String)
    ensures
        r@ == status_text(*session),
{
    match &session.attention_summary {
        Some(summary) => {
            return summary.clone();
        },
        None => {},
    }
    match session_display_state(session) {
        SessionDisplayState::Creating => "starting".to_string(),
        SessionDisplayState::Running => "running".to_string(),
        SessionDisplayState::NeedsInput => "needs input".to_string(),
        SessionDisplayState::Failed => match &session.error {
            Some(error) => error.clone(),
            None => "blocked".to_string(),
        },
        SessionDisplayState::Recovered => "daemon lost the live process".to_string(),
        SessionDisplayState::Applied => "applied".to_string(),
        SessionDisplayState::Exited => "complete".to_string(),
    }
}

// ---------------------------------------------------------------------------
// Order
// ---------------------------------------------------------------------------
/// Which part of the list a session belongs to: live sessions come first, then those that want
/// attention, then those with changes, then the rest.
pub open spec fn sort_bucket(session: SessionRecord) -> int {
    if session.status == SessionStatus::Creating || session.status == SessionStatus::Running {
        0
    } else {
        match display_state(session) {
            SessionDisplayState::NeedsInput => 1,
            SessionDisplayState::Failed | SessionDisplayState::Recovered => 2,
            _ => if session.has_pending_changes {
                3
            } else if display_state(session) == SessionDisplayState::Applied {
                4
            } else {
                5
            },
        }
    }
}

/// Which part of the list a session belongs to.
pub fn session_sort_bucket(session: &SessionRecord) -> (r: u8)
    ensures
        r == sort_bucket(*session),
{
    if session.status == SessionStatus::Creating || session.status == SessionStatus::Running {
        return 0;
    }
    match session_display_state(session) {
        SessionDisplayState::NeedsInput => 1,
        SessionDisplayState::Failed | SessionDisplayState::Recovered => 2,
        SessionDisplayState::Applied => if session.has_pending_changes {
            3
        } else {
            4
        },
        _ => if session.has_pending_changes {
            3
        } else {
            5
        },
    }
}

/// What sessions are ordered by: their part of the list, and within it what changed last.
pub open spec fn session_key(session: SessionRecord) -> SortKey {
    SortKey {
        major: sort_bucket(session) as i128,
        middle: -(session.updated_at.seconds as int) as i128,
        minor: -(session.updated_at.nanos as int) as i128,
    }
}

/// What sessions are ordered by.
pub open spec fn session_keys(sessions: Seq<SessionRecord>) -> Seq<SortKey> {
    Seq::new(sessions.len(), |i: int| session_key(sessions[i]))
}

/// Sessions in the order of the list.
pub open spec fn ordered(sessions: Seq<SessionRecord>) -> Seq<SessionRecord> {
    let order = order_of(session_keys(sessions));
    Seq::new(order.len(), |i: int| sessions[order[i]])
}

/// The sessions that references point to.
pub open spec fn pointed_to(sessions: Seq<&SessionRecord>) -> Seq<SessionRecord> {
    Seq::new(sessions.len(), |i: int| *sessions[i])
}

/// Sessions in the order of the list.
pub fn ordered_sessions<'a>(sessions: &'a Vec<SessionRecord>) -> (r: Vec<&'a SessionRecord>)
    ensures
        pointed_to(r@) == ordered(sessions@),
{
    let mut keys: Vec<SortKey> = Vec::new();
    let mut i: usize = 0;
    while i < sessions.len()
        invariant
            i <= sessions.len(),
            keys@.len() == i,
            forall|k: int| 0 <= k < i ==> #[trigger] keys@[k] == session_key(sessions@[k]),
        decreases sessions.len() - i,
    {
        let session = &sessions[i];
        keys.push(
            SortKey {
                major: session_sort_bucket(session) as i128,
                middle: -(session.updated_at.seconds as i128),
                minor: -(session.updated_at.nanos as i128),
            },
        );
        i = i + 1;
    }
    assert(keys@ =~= session_keys(sessions@));
    let order = stable_order(&keys);
    proof {
        crate::order::order_is_sorted_and_stable(keys@);
    }
    let ghost due = order_of(keys@);
    let mut r: Vec<&'a SessionRecord> = Vec::new();
    let mut j: usize = 0;
    while j < order.len()
        invariant
            j <= order.len(),
            as_ints(order@) == due,
            due.len() == sessions@.len(),
            forall|k: int| 0 <= k < due.len() ==> 0 <= #[trigger] due[k] < sessions@.len(),
            r@.len() == j,
            forall|k: int| 0 <= k < j ==> *(#[trigger] r@[k]) == sessions@[due[k]],
        decreases order.len() - j,
    {
        assert(as_ints(order@)[j as int] == due[j as int]);
        r.push(&sessions[order[j]]);
        j = j + 1;
    }
    assert(pointed_to(r@) =~= ordered(sessions@));
    r
}

/// Whether one session stands before another in the list: its part of the list comes first, or in
/// the same part it changed later.
pub open spec fn stands_before(a: SessionRecord, b: SessionRecord) -> bool {
    sort_bucket(a) < sort_bucket(b) || (sort_bucket(a) == sort_bucket(b) && b.updated_at.before(
        a.updated_at,
    ))
}

/// The list holds every session, each as often as it was given.
pub proof fn list_holds_every_session(sessions: Seq<SessionRecord>)
    ensures
        ordered(sessions).len() == sessions.len(),
        forall|k: int| 0 <= k < sessions.len() ==> ordered(sessions).contains(#[trigger] sessions[k]),
        forall|k: int| 0 <= k < sessions.len() ==> sessions.contains(#[trigger] ordered(sessions)[k]),
        ordered(sessions).to_multiset() =~= sessions.to_multiset(),
{
    let keys = session_keys(sessions);
    let order = order_of(keys);
    crate::order::order_is_sorted_and_stable(keys);
    assert forall|k: int| 0 <= k < sessions.len() implies ordered(sessions).contains(
        #[trigger] sessions[k],
    ) by {
        assert(order.contains(k));
        let i = choose|i: int| 0 <= i < order.len() && order[i] == k;
        assert(ordered(sessions)[i] == sessions[k]);
    }
    assert forall|k: int| 0 <= k < sessions.len() implies sessions.contains(
        #[trigger] ordered(sessions)[k],
    ) by {
        assert(ordered(sessions)[k] == sessions[order[k]]);
    }
    permuted_multiset(sessions, order);
}

/// What a permutation picks from a sequence is the sequence again, in another order.
proof fn permuted_multiset(sessions: Seq<SessionRecord>, order: Seq<int>)
    requires
        crate::order::is_permutation(order, sessions.len() as int),
    ensures
        Seq::new(order.len(), |i: int| sessions[order[i]]).to_multiset() =~= sessions.to_multiset(),
    decreases sessions.len(),
{
    broadcast use vstd::seq_lib::group_to_multiset_ensures;

    let picked = Seq::new(order.len(), |i: int| sessions[order[i]]);
    if sessions.len() == 0 {
        assert(picked =~= sessions);
    } else {
        let last = sessions.len() - 1;
        assert(order.contains(last));
        let at = choose|i: int| 0 <= i < order.len() && order[i] == last;
        let rest = order.remove(at);
        let front = sessions.drop_last();
        assert forall|k: int| 0 <= k < last implies rest.contains(k) by {
            assert(order.contains(k));
            let i = choose|i: int| 0 <= i < order.len() && order[i] == k;
            if i < at {
                assert(rest[i] == k);
            } else {
                assert(rest[i - 1] == k);
            }
        }
        assert forall|i: int| 0 <= i < rest.len() implies 0 <= #[trigger] rest[i] < last by {
            if i < at {
                assert(rest[i] == order[i]);
            } else {
                assert(rest[i] == order[i + 1]);
            }
        }
        assert(crate::order::is_permutation(rest, last));
        permuted_multiset(front, rest);
        let picked_rest = Seq::new(rest.len(), |i: int| front[rest[i]]);
        assert(picked.remove(at) =~= picked_rest);
        assert(picked.remove(at).to_multiset() =~= picked.to_multiset().remove(picked[at]));
        assert(sessions =~= front.push(sessions[last]));
        assert(sessions.to_multiset() =~= front.to_multiset().insert(sessions[last]));
        assert(picked.to_multiset().count(picked[at]) > 0);
        assert(picked.to_multiset() =~= picked.to_multiset().remove(picked[at]).insert(picked[at]));
    }
}

/// No session in the list stands before one above it.
pub proof fn list_is_ordered(sessions: Seq<SessionRecord>, i: int, j: int)
    requires
        0 <= i < j < sessions.len(),
    ensures
        !stands_before(ordered(sessions)[j], ordered(sessions)[i]),
{
    let keys = session_keys(sessions);
    let order = order_of(keys);
    crate::order::order_is_sorted_and_stable(keys);
    let a = order[i];
    let b = order[j];
    assert(keys[a].before(keys[b]) || (keys[a] == keys[b] && a < b));
    assert(keys[a] == session_key(sessions[a]));
    assert(keys[b] == session_key(sessions[b]));
}

// ---------------------------------------------------------------------------
// Columns
// ---------------------------------------------------------------------------
/// The widths of the columns of the list.
#[derive(Clone, Copy, Debug, PartialEq, Eq, Structural)]
pub struct SessionListLayout {
    pub visible_width: usize,
    pub status: usize,
    pub commits: usize,
    pub age: usize,
    pub session: usize,
    pub repo: usize,
    pub branch: usize,
}

/// The widths of the columns of a row of the picker.
#[derive(Clone, Copy, Debug, PartialEq, Eq, Structural)]
pub struct HostPickerSessionLayout {
    pub age: usize,
    pub session: usize,
    pub repo: usize,
    pub branch: usize,
}

/// The smaller of two numbers.
pub open spec fn least(a: int, b: int) -> int {
    if a < b {
        a
    } else {
        b
    }
}

/// The larger of two numbers.
pub open spec fn most(a: int, b: int) -> int {
    if a < b {
        b
    } else {
        a
    }
}

/// How much a column grows: as far as there is room, and not beyond its largest width.
pub open spec fn growth(width: int, max_width: int, remaining: int) -> int {
    least(remaining, most(max_width - width, 0))
}

/// How much a column shrinks: as far as there is need, and not below its smallest width.
pub open spec fn shrinkage(width: int, floor_width: int, deficit: int) -> int {
    least(deficit, most(width - floor_width, 0))
}

/// The widths of the name, the repository and the branch of a session, where `room` is what is
/// left beyond their usual widths; it is negative where these do not fit. Branches grow first,
/// then names, then repositories; repositories shrink first, then names, then branches.
pub open spec fn flexible_widths(room: int) -> (int, int, int) {
    let session = SESSION_LIST_SESSION_MIN_WIDTH as int;
    let repo = SESSION_LIST_REPO_MIN_WIDTH as int;
    let branch = SESSION_LIST_BRANCH_MIN_WIDTH as int;
    if room >= 0 {
        let b = growth(branch, SESSION_LIST_BRANCH_MAX_WIDTH as int, room);
        let s = growth(session, SESSION_LIST_SESSION_MAX_WIDTH as int, room - b);
        let r = growth(repo, SESSION_LIST_REPO_MAX_WIDTH as int, room - b - s);
        (session + s, repo + r, branch + b)
    } else {
        let r = shrinkage(repo, SESSION_LIST_REPO_FLOOR_WIDTH as int, -room);
        let s = shrinkage(session, SESSION_LIST_SESSION_FLOOR_WIDTH as int, -room - r);
        let b = shrinkage(branch, SESSION_LIST_BRANCH_FLOOR_WIDTH as int, -room - r - s);
        (session - s, repo - r, branch - b)
    }
}

/// How much of a width the list takes.
pub open spec fn visible_width(width: int) -> int {
    least(most(width, 1), SESSION_LIST_DEFAULT_WIDTH as int)
}

/// The width of a row of the list.
pub open spec fn list_total(layout: SessionListLayout) -> int {
    SESSION_LIST_STRUCTURAL_WIDTH + layout.status + layout.commits + layout.age + layout.session
        + layout.repo + layout.branch
}

/// The widths of the columns of the list.
pub open spec fn list_layout(width: int) -> SessionListLayout {
    let visible = visible_width(width);
    let usual = SESSION_LIST_STRUCTURAL_WIDTH + SESSION_LIST_STATUS_WIDTH
        + SESSION_LIST_COMMITS_WIDTH + SESSION_LIST_AGE_WIDTH + SESSION_LIST_SESSION_MIN_WIDTH
        + SESSION_LIST_REPO_MIN_WIDTH + SESSION_LIST_BRANCH_MIN_WIDTH;
    let (session, repo, branch) = flexible_widths(visible - usual);
    SessionListLayout {
        visible_width: visible as usize,
        status: SESSION_LIST_STATUS_WIDTH,
        commits: SESSION_LIST_COMMITS_WIDTH,
        age: SESSION_LIST_AGE_WIDTH,
        session: session as usize,
        repo: repo as usize,
        branch: branch as usize,
    }
}

/// What a row of the picker has for its columns.
pub open spec fn picker_body_width(width: int) -> int {
    most(most(width - 1, 1) - HOST_PICKER_SESSION_PREFIX_WIDTH, 0)
}

/// The width of the columns of a row of the picker.
pub open spec fn picker_total(layout: HostPickerSessionLayout) -> int {
    HOST_PICKER_SESSION_STRUCTURAL_WIDTH + layout.age + layout.session + layout.repo
        + layout.branch
}

/// The widths of the columns of a row of the picker.
pub open spec fn picker_layout(width: int) -> HostPickerSessionLayout {
    let usual = HOST_PICKER_SESSION_STRUCTURAL_WIDTH + SESSION_LIST_AGE_WIDTH
        + SESSION_LIST_SESSION_MIN_WIDTH + SESSION_LIST_REPO_MIN_WIDTH
        + SESSION_LIST_BRANCH_MIN_WIDTH;
    let (session, repo, branch) = flexible_widths(picker_body_width(width) - usual);
    HostPickerSessionLayout {
        age: SESSION_LIST_AGE_WIDTH,
        session: session as usize,
        repo: repo as usize,
        branch: branch as usize,
    }
}

/// The width of a list where nothing tells its width.
pub fn default_session_list_width() -> (r: usize)
    ensures
        r == SESSION_LIST_DEFAULT_WIDTH,
{
    SESSION_LIST_DEFAULT_WIDTH
}

/// Lets a column grow.
pub fn grow_session_list_column(width: &mut usize, max_width: usize, remaining: &mut usize)
    ensures
        *final(width) == *old(width) + growth(
            *old(width) as int,
            max_width as int,
            *old(remaining) as int,
        ),
        *final(remaining) == *old(remaining) - growth(
            *old(width) as int,
            max_width as int,
            *old(remaining) as int,
        ),
{
    let room: usize = max_width.saturating_sub(*width);
    let added: usize = if *remaining < room {
        *remaining
    } else {
        room
    };
    *width = *width + added;
    *remaining = *remaining - added;
}

/// Lets a column shrink.
pub fn shrink_session_list_column(width: &mut usize, floor_width: usize, deficit: &mut usize)
    ensures
        *final(width) == *old(width) - shrinkage(
            *old(width) as int,
            floor_width as int,
            *old(deficit) as int,
        ),
        *final(deficit) == *old(deficit) - shrinkage(
            *old(width) as int,
            floor_width as int,
            *old(deficit) as int,
        ),
{
    let room: usize = (*width).saturating_sub(floor_width);
    let removed: usize = if *deficit < room {
        *deficit
    } else {
        room
    };
    *width = *width - removed;
    *deficit = *deficit - removed;
}

/// How much of a width the list takes.
pub fn session_list_visible_width(width: usize) -> (r: usize)
    ensures
        r == visible_width(width as int),
{
    let width: usize = if width < 1 {
        1
    } else {
        width
    };
    if width < SESSION_LIST_DEFAULT_WIDTH {
        width
    } else {
        SESSION_LIST_DEFAULT_WIDTH
    }
}

/// The width of a row of the list.
pub fn session_list_total_width(layout: SessionListLayout) -> (r: usize)
    requires
        list_total(layout) <= usize::MAX,
    ensures
        r == list_total(layout),
{
    SESSION_LIST_STRUCTURAL_WIDTH + layout.status + layout.commits + layout.age + layout.session
        + layout.repo + layout.branch
}

/// The width of the columns of a row of the picker.
pub fn host_picker_session_total_width(layout: HostPickerSessionLayout) -> (r: usize)
    requires
        picker_total(layout) <= usize::MAX,
    ensures
        r == picker_total(layout),
{
    HOST_PICKER_SESSION_STRUCTURAL_WIDTH + layout.age + layout.session + layout.repo
        + layout.branch
}

/// The widths of the columns of the list.
pub fn session_list_layout(width: usize) -> (r: SessionListLayout)
    ensures
        r == list_layout(width as int),
{
    let visible_width: usize = session_list_visible_width(width);
    let mut layout = SessionListLayout {
        visible_width,
        status: SESSION_LIST_STATUS_WIDTH,
        commits: SESSION_LIST_COMMITS_WIDTH,
        age: SESSION_LIST_AGE_WIDTH,
        session: SESSION_LIST_SESSION_MIN_WIDTH,
        repo: SESSION_LIST_REPO_MIN_WIDTH,
        branch: SESSION_LIST_BRANCH_MIN_WIDTH,
    };
    let min_total: usize = session_list_total_width(layout);
    if visible_width >= min_total {
        let mut remaining: usize = visible_width - min_total;
        grow_session_list_column(&mut layout.branch, SESSION_LIST_BRANCH_MAX_WIDTH, &mut remaining);
        grow_session_list_column(
            &mut layout.session,
            SESSION_LIST_SESSION_MAX_WIDTH,
            &mut remaining,
        );
        grow_session_list_column(&mut layout.repo, SESSION_LIST_REPO_MAX_WIDTH, &mut remaining);
        return layout;
    }
    let mut deficit: usize = min_total - visible_width;
    shrink_session_list_column(&mut layout.repo, SESSION_LIST_REPO_FLOOR_WIDTH, &mut deficit);
    shrink_session_list_column(
        &mut layout.session,
        SESSION_LIST_SESSION_FLOOR_WIDTH,
        &mut deficit,
    );
    shrink_session_list_column(&mut layout.branch, SESSION_LIST_BRANCH_FLOOR_WIDTH, &mut deficit);
    layout
}

/// The widths of the columns of a row of the picker.
pub fn host_picker_session_layout(width: usize) -> (r: HostPickerSessionLayout)
    ensures
        r == picker_layout(width as int),
{
    let body_width: usize = usable_width(width).saturating_sub(HOST_PICKER_SESSION_PREFIX_WIDTH);
    let mut layout = HostPickerSessionLayout {
        age: SESSION_LIST_AGE_WIDTH,
        session: SESSION_LIST_SESSION_MIN_WIDTH,
        repo: SESSION_LIST_REPO_MIN_WIDTH,
        branch: SESSION_LIST_BRANCH_MIN_WIDTH,
    };
    let min_total: usize = host_picker_session_total_width(layout);
    if body_width >= min_total {
        let mut remaining: usize = body_width - min_total;
        grow_session_list_column(&mut layout.branch, SESSION_LIST_BRANCH_MAX_WIDTH, &mut remaining);
        grow_session_list_column(
            &mut layout.session,
            SESSION_LIST_SESSION_MAX_WIDTH,
            &mut remaining,
        );
        grow_session_list_column(&mut layout.repo, SESSION_LIST_REPO_MAX_WIDTH, &mut remaining);
        return layout;
    }
    let mut deficit: usize = min_total - body_width;
    shrink_session_list_column(&mut layout.repo, SESSION_LIST_REPO_FLOOR_WIDTH, &mut deficit);
    shrink_session_list_column(
        &mut layout.session,
        SESSION_LIST_SESSION_FLOOR_WIDTH,
        &mut deficit,
    );
    shrink_session_list_column(&mut layout.branch, SESSION_LIST_BRANCH_FLOOR_WIDTH, &mut deficit);
    layout
}

/// How many characters a line of a given width can hold: one less, but at least one.
pub open spec fn usable(width: int) -> int {
    most(width - 1, 1)
}

/// How many characters a line of a given width can hold.
pub fn usable_width(width: usize) -> (r: usize)
    ensures
        r == usable(width as int),
{
    let less: usize = width.saturating_sub(1);
    if less < 1 {
        1
    } else {
        less
    }
}

/// A list that has room for its smallest columns fills the width that it may take, up to that of
/// its largest columns.
pub proof fn list_fills_its_width(width: int)
    requires
        58 <= width,
    ensures
        list_total(list_layout(width)) == least(visible_width(width), 114),
{
}

/// Columns stay between their smallest and their largest widths.
pub proof fn columns_stay_in_bounds(width: int)
    ensures
        ({
            let list = list_layout(width);
            let picker = picker_layout(width);
            &&& SESSION_LIST_SESSION_FLOOR_WIDTH <= list.session <= SESSION_LIST_SESSION_MAX_WIDTH
            &&& SESSION_LIST_REPO_FLOOR_WIDTH <= list.repo <= SESSION_LIST_REPO_MAX_WIDTH
            &&& SESSION_LIST_BRANCH_FLOOR_WIDTH <= list.branch <= SESSION_LIST_BRANCH_MAX_WIDTH
            &&& SESSION_LIST_SESSION_FLOOR_WIDTH <= picker.session
                <= SESSION_LIST_SESSION_MAX_WIDTH
            &&& SESSION_LIST_REPO_FLOOR_WIDTH <= picker.repo <= SESSION_LIST_REPO_MAX_WIDTH
            &&& SESSION_LIST_BRANCH_FLOOR_WIDTH <= picker.branch <= SESSION_LIST_BRANCH_MAX_WIDTH
        }),
{
}

/// A row of the picker that has room for its smallest columns fills its line, up to the width of
/// its largest columns.
pub proof fn picker_row_fills_its_line(width: int)
    requires
        35 <= width,
    ensures
        picker_total(picker_layout(width)) == least(picker_body_width(width), 85),
{
}

// ---------------------------------------------------------------------------
// Cells
// ---------------------------------------------------------------------------
/// A text cut to a width, with three dots where something was cut off and there is room for them.
pub open spec fn truncated(content: Seq<char>, width: int) -> Seq<char> {
    if content.len() <= width {
        content
    } else if width <= 3 {
        first_chars(content, width)
    } else {
        content.take(width - 3) + "..."@
    }
}

/// A text cut to a width, and blanks up to that width.
pub open spec fn cell(content: Seq<char>, width: int) -> Seq<char> {
    truncated(content, width) + blanks(width - truncated(content, width).len())
}

/// A text cut to a width.
pub fn truncate_session_list_cell(content: &str, width: usize) -> (r: String)
    ensures
        r@ == truncated(content@, width as int),
{
    if char_count(content) <= width {
        return content.to_string();
    }
    if width <= 3 {
        return take_chars(content, width);
    }
    let mut r = take_chars(content, width - 3);
    r.append("...");
    r
}

/// A text cut to a width, and blanks up to that width.
pub fn format_session_list_cell(content: &str, width: usize) -> (r: String)
    ensures
        r@ == cell(content@, width as int),
{
    let mut r = truncate_session_list_cell(content, width);
    let used: usize = char_count(r.as_str());
    r.append(blanks_of(width.saturating_sub(used)).as_str());
    assert(r@ =~= cell(content@, width as int));
    r
}

/// A cell is as wide as its column.
pub proof fn cells_fill_their_column(content: Seq<char>, width: int)
    requires
        0 <= width,
    ensures
        cell(content, width).len() == width,
        truncated(content, width).len() <= width,
{
    reveal_strlit("...");
}

// ---------------------------------------------------------------------------
// Rows
// ---------------------------------------------------------------------------
/// Cells with two blanks before each.
pub open spec fn row_of(
    a: Seq<char>,
    b: Seq<char>,
    c: Seq<char>,
    d: Seq<char>,
    e: Seq<char>,
    f: Seq<char>,
) -> Seq<char> {
    "  "@ + a + "  "@ + b + "  "@ + c + "  "@ + d + "  "@ + e + "  "@ + f
}

fn row_text(a: &str, b: &str, c: &str, d: &str, e: &str, f: &str) -> (r: String)
    ensures
        r@ == row_of(a@, b@, c@, d@, e@, f@),
{
    let mut r = "  ".to_string();
    r.append(a);
    r.append("  ");
    r.append(b);
    r.append("  ");
    r.append(c);
    r.append("  ");
    r.append(d);
    r.append("  ");
    r.append(e);
    r.append("  ");
    r.append(f);
    r
}

/// The titles of the columns.
pub open spec fn header_content(layout: SessionListLayout) -> Seq<char> {
    row_of(
        cell("STATUS"@, layout.status as int),
        cell("COMMITS"@, layout.commits as int),
        cell("AGE"@, layout.age as int),
        cell("NAME"@, layout.session as int),
        cell("REPO"@, layout.repo as int),
        cell("BRANCH"@, layout.branch as int),
    )
}

/// The titles of the columns.
pub fn render_session_list_header_content(layout: SessionListLayout) -> (r: String)
    ensures
        r@ == header_content(layout),
{
    row_text(
        format_session_list_cell("STATUS", layout.status).as_str(),
        format_session_list_cell("COMMITS", layout.commits).as_str(),
        format_session_list_cell("AGE", layout.age).as_str(),
        format_session_list_cell("NAME", layout.session).as_str(),
        format_session_list_cell("REPO", layout.repo).as_str(),
        format_session_list_cell("BRANCH", layout.branch).as_str(),
    )
}

/// A row on the background of the query, cut to a width.
pub open spec fn content_row(content: Seq<char>, visible_width: int) -> Seq<char> {
    HOST_PICKER_QUERY_BG@ + HOST_PICKER_TEXT_FG@ + first_chars(content, visible_width)
        + ANSI_RESET@
}

/// A row on the background of the query, cut to a width.
pub fn style_host_picker_content_row(content: &str, visible_width: usize) -> (r: String)
    ensures
        r@ == content_row(content@, visible_width as int),
{
    let mut r = HOST_PICKER_QUERY_BG.to_string();
    r.append(HOST_PICKER_TEXT_FG);
    r.append(take_chars(content, visible_width).as_str());
    r.append(ANSI_RESET);
    r
}

/// The first row of the list.
pub open spec fn header_row(layout: SessionListLayout) -> Seq<char> {
    content_row(header_content(layout), layout.visible_width as int)
}

/// The first row of the list.
pub fn render_session_list_header_row(layout: SessionListLayout) -> (r: String)
    ensures
        r@ == header_row(layout),
{
    style_host_picker_content_row(
        render_session_list_header_content(layout).as_str(),
        layout.visible_width,
    )
}

/// The state of a session: its sign in colour, its name, and blanks up to a width.
pub open spec fn status_cell(session: SessionRecord, width: int) -> Seq<char> {
    let icon = state_icon(display_state(session));
    let label = state_label(display_state(session));
    state_prefix(display_state(session)) + icon + ANSI_RESET@ + " "@ + label + blanks(
        width - (icon + " "@ + label).len(),
    )
}

/// The state of a session.
pub fn render_session_list_status_cell(session: &SessionRecord, width: usize) -> (r: String)
    ensures
        r@ == status_cell(*session, width as int),
{
    let icon = session_icon(session);
    let label = session_list_status_label(session);
    let mut plain = icon.to_string();
    plain.append(" ");
    plain.append(label);
    let padding = blanks_of(width.saturating_sub(char_count(plain.as_str())));
    assert(padding@ =~= blanks(width - plain@.len()));
    let mut r = host_picker_icon_ansi_prefix(session);
    r.append(icon);
    r.append(ANSI_RESET);
    r.append(" ");
    r.append(label);
    r.append(padding.as_str());
    r
}

/// Whether a session has changes that wait to be merged.
pub open spec fn pending_cell(session: SessionRecord, width: int) -> Seq<char> {
    if session.has_pending_changes {
        HOST_PICKER_STATUS_BLUE_FG@ + cell("pending"@, width) + ANSI_RESET@
    } else {
        cell(""@, width)
    }
}

/// Whether a session has changes that wait to be merged.
pub fn render_session_list_pending_cell(session: &SessionRecord, width: usize) -> (r: String)
    ensures
        r@ == pending_cell(*session, width as int),
{
    if session.has_pending_changes {
        let mut r = HOST_PICKER_STATUS_BLUE_FG.to_string();
        r.append(format_session_list_cell("pending", width).as_str());
        r.append(ANSI_RESET);
        r
    } else {
        format_session_list_cell("", width)
    }
}

/// A session in the list.
pub open spec fn session_row(session: SessionRecord, layout: SessionListLayout, now: Timestamp) -> Seq<
    char,
> {
    row_of(
        status_cell(session, layout.status as int),
        pending_cell(session, layout.commits as int),
        cell(elapsed_label(session, now), layout.age as int),
        cell(session.session_id@, layout.session as int),
        cell(session.repo_name@, layout.repo as int),
        cell(session.branch@, layout.branch as int),
    )
}

/// A session in the list.
pub fn render_session_list_row(session: &SessionRecord, layout: SessionListLayout, now: Timestamp) -> (r:
    String)
    requires
        session.valid(),
        now.valid(),
    ensures
        r@ == session_row(*session, layout, now),
{
    row_text(
        render_session_list_status_cell(session, layout.status).as_str(),
        render_session_list_pending_cell(session, layout.commits).as_str(),
        format_session_list_cell(
            session_elapsed_label_at(session, now).as_str(),
            layout.age,
        ).as_str(),
        format_session_list_cell(session.session_id.as_str(), layout.session).as_str(),
        format_session_list_cell(session.repo_name.as_str(), layout.repo).as_str(),
        format_session_list_cell(session.branch.as_str(), layout.branch).as_str(),
    )
}

/// Whether the points in time of all sessions exist.
pub open spec fn all_valid(sessions: Seq<SessionRecord>) -> bool {
    forall|i: int| 0 <= i < sessions.len() ==> (#[trigger] sessions[i]).valid()
}

/// The list: its header, and a row for every session.
pub open spec fn list_lines(sessions: Seq<SessionRecord>, width: int, now: Timestamp) -> Seq<
    Seq<char>,
> {
    let layout = list_layout(width);
    if sessions.len() == 0 {
        seq![header_row(layout), truncated("  No sessions."@, layout.visible_width as int)]
    } else {
        seq![header_row(layout)] + Seq::new(
            ordered(sessions).len(),
            |i: int| session_row(ordered(sessions)[i], layout, now),
        )
    }
}

/// The list, at a point in time.
pub fn render_session_list_lines_at(sessions: &Vec<SessionRecord>, width: usize, now: Timestamp) -> (r:
    Vec<String>)
    requires
        all_valid(sessions@),
        now.valid(),
    ensures
        views(r@) == list_lines(sessions@, width as int, now),
{
    let layout = session_list_layout(width);
    let mut lines: Vec<String> = vec![render_session_list_header_row(layout)];
    if sessions.len() == 0 {
        lines.push(truncate_session_list_cell("  No sessions.", layout.visible_width));
        assert(views(lines@) =~= list_lines(sessions@, width as int, now));
        return lines;
    }
    let rows = ordered_sessions(sessions);
    let ghost due = ordered(sessions@);
    proof {
        list_holds_every_session(sessions@);
    }
    let mut i: usize = 0;
    while i < rows.len()
        invariant
            i <= rows.len(),
            now.valid(),
            all_valid(sessions@),
            pointed_to(rows@) == due,
            due == ordered(sessions@),
            due.len() == sessions@.len(),
            forall|k: int| 0 <= k < due.len() ==> sessions@.contains(#[trigger] due[k]),
            lines@.len() == i + 1,
            lines@[0]@ == header_row(layout),
            forall|k: int|
                1 <= k <= i ==> (#[trigger] lines@[k])@ == session_row(due[k - 1], layout, now),
        decreases rows.len() - i,
    {
        assert(pointed_to(rows@)[i as int] == due[i as int]);
        assert(sessions@.contains(due[i as int]));
        lines.push(render_session_list_row(rows[i], layout, now));
        i = i + 1;
    }
    assert(views(lines@) =~= list_lines(sessions@, width as int, now));
    lines
}

/// The list.
pub fn render_session_list_lines(sessions: &Vec<SessionRecord>, width: usize) -> (r: Vec<String>)
    requires
        all_valid(sessions@),
    ensures
        exists|now: Timestamp| now.valid() && views(r@) == list_lines(sessions@, width as int, now),
{
    let now = utc_now();
    render_session_list_lines_at(sessions, width, now)
}

} // verus!
