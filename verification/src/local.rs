//! Sessions without a daemon: what a row of the state database says, which sessions still run,
//! and how a session's process is brought to an end.
use crate::session::{
    ApplyState, AttentionLevel, IntegrationPolicy, IntegrationState, SessionMode, SessionRecord,
    SessionStatus,
};
use crate::text::{
    lines, lines_of, lossy_string, lossy_text, number_of, opt_view, parse_u32, same,
    text_from_utf8, trim, trimmed, utf8_error_text, views,
};
use crate::time::{has_four_digit_year, reads_as, rfc3339_text, rfc3339_time, Timestamp};
use vstd::prelude::*;
use vstd::string::*;
use vstd::utf8::*;

verus! {

// ---------------------------------------------------------------------------
// Names in the state database
// ---------------------------------------------------------------------------
/// The name under which a state is stored. A session that waits for input is one that runs, and a
/// paused one has to be recovered.
pub open spec fn stored_status(status: SessionStatus) -> Seq<char> {
    match status {
        SessionStatus::Creating => "creating"@,
        SessionStatus::Running => "running"@,
        SessionStatus::Paused => "unknown_recovered"@,
        SessionStatus::NeedsInput => "running"@,
        SessionStatus::Exited => "exited"@,
        SessionStatus::Failed => "failed"@,
        SessionStatus::UnknownRecovered => "unknown_recovered"@,
    }
}

/// The name under which a state is stored.
pub fn status_to_str(status: SessionStatus) -> (r: &'static str)
    ensures
        r@ == stored_status(status),
{
    match status {
        SessionStatus::Creating => "creating",
        SessionStatus::Running => "running",
        SessionStatus::Paused => "unknown_recovered",
        SessionStatus::NeedsInput => "running",
        SessionStatus::Exited => "exited",
        SessionStatus::Failed => "failed",
        SessionStatus::UnknownRecovered => "unknown_recovered",
    }
}

/// The state with a stored name.
pub open spec fn status_named(name: Seq<char>) -> Option<SessionStatus> {
    if name == "creating"@ {
        Some(SessionStatus::Creating)
    } else if name == "running"@ {
        Some(SessionStatus::Running)
    } else if name == "paused"@ {
        Some(SessionStatus::UnknownRecovered)
    } else if name == "exited"@ {
        Some(SessionStatus::Exited)
    } else if name == "failed"@ {
        Some(SessionStatus::Failed)
    } else if name == "unknown_recovered"@ {
        Some(SessionStatus::UnknownRecovered)
    } else {
        None
    }
}

/// What is said of a name that none of the known things has.
fn unknown_name(what: &str, value: &str) -> (r: String)
    ensures
        r@ == "unknown "@ + what@ + " `"@ + value@ + "`"@,
{
    let mut text = "unknown ".to_string();
    text.append(what);
    text.append(" `");
    text.append(value);
    text.append("`");
    text
}

/// The state with a stored name.
pub fn str_to_status(value: &str) -> (r: Result<SessionStatus, String>)
    ensures
        match status_named(value@) {
            Some(status) => r == Ok::<SessionStatus, String>(status),
            None => r matches Err(error) && error@ == "unknown "@ + "session status"@ + " `"@
                + value@ + "`"@,
        },
{
    if same(value, "creating") {
        Ok(SessionStatus::Creating)
    } else if same(value, "running") {
        Ok(SessionStatus::Running)
    } else if same(value, "paused") {
        Ok(SessionStatus::UnknownRecovered)
    } else if same(value, "exited") {
        Ok(SessionStatus::Exited)
    } else if same(value, "failed") {
        Ok(SessionStatus::Failed)
    } else if same(value, "unknown_recovered") {
        Ok(SessionStatus::UnknownRecovered)
    } else {
        Err(unknown_name("session status", value))
    }
}

/// The apply state with a stored name, older names included.
pub open spec fn apply_state_named(name: Seq<char>) -> Option<ApplyState> {
    if name == "idle"@ || name == "clean"@ || name == "pending_review"@ {
        Some(ApplyState::Idle)
    } else if name == "auto_applying"@ {
        Some(ApplyState::AutoApplying)
    } else if name == "applied"@ {
        Some(ApplyState::Applied)
    } else if name == "discarded"@ {
        Some(ApplyState::Discarded)
    } else {
        None
    }
}

/// The apply state with a stored name.
pub fn str_to_apply_state(value: &str) -> (r: Result<ApplyState, String>)
    ensures
        match apply_state_named(value@) {
            Some(state) => r == Ok::<ApplyState, String>(state),
            None => r matches Err(error) && error@ == "unknown "@ + "apply state"@ + " `"@ + value@
                + "`"@,
        },
{
    if same(value, "idle") || same(value, "clean") || same(value, "pending_review") {
        Ok(ApplyState::Idle)
    } else if same(value, "auto_applying") {
        Ok(ApplyState::AutoApplying)
    } else if same(value, "applied") {
        Ok(ApplyState::Applied)
    } else if same(value, "discarded") {
        Ok(ApplyState::Discarded)
    } else {
        Err(unknown_name("apply state", value))
    }
}

/// The integration policy with a stored name.
pub open spec fn policy_named(name: Seq<char>) -> Option<IntegrationPolicy> {
    if name == "manual_review"@ {
        Some(IntegrationPolicy::ManualReview)
    } else if name == "auto_apply_safe"@ {
        Some(IntegrationPolicy::AutoApplySafe)
    } else {
        None
    }
}

/// The integration policy with a stored name.
pub fn str_to_integration_policy(value: &str) -> (r: Result<IntegrationPolicy, String>)
    ensures
        match policy_named(value@) {
            Some(policy) => r == Ok::<IntegrationPolicy, String>(policy),
            None => r matches Err(error) && error@ == "unknown "@ + "integration policy"@ + " `"@
                + value@ + "`"@,
        },
{
    if same(value, "manual_review") {
        Ok(IntegrationPolicy::ManualReview)
    } else if same(value, "auto_apply_safe") {
        Ok(IntegrationPolicy::AutoApplySafe)
    } else {
        Err(unknown_name("integration policy", value))
    }
}

/// The attention level with a stored name.
pub open spec fn attention_named(name: Seq<char>) -> Option<AttentionLevel> {
    if name == "info"@ {
        Some(AttentionLevel::Info)
    } else if name == "notice"@ {
        Some(AttentionLevel::Notice)
    } else if name == "action"@ {
        Some(AttentionLevel::Action)
    } else {
        None
    }
}

/// The attention level with a stored name.
pub fn str_to_attention(value: &str) -> (r: Result<AttentionLevel, String>)
    ensures
        match attention_named(value@) {
            Some(level) => r == Ok::<AttentionLevel, String>(level),
            None => r matches Err(error) && error@ == "unknown "@ + "attention level"@ + " `"@
                + value@ + "`"@,
        },
{
    if same(value, "info") {
        Ok(AttentionLevel::Info)
    } else if same(value, "notice") {
        Ok(AttentionLevel::Notice)
    } else if same(value, "action") {
        Ok(AttentionLevel::Action)
    } else {
        Err(unknown_name("attention level", value))
    }
}

/// The mode with a stored name.
pub open spec fn mode_named(name: Seq<char>) -> Option<SessionMode> {
    if name == "execute"@ {
        Some(SessionMode::Execute)
    } else if name == "plan"@ {
        Some(SessionMode::Plan)
    } else {
        None
    }
}

/// The mode with a stored name.
pub fn str_to_mode(value: &str) -> (r: Result<SessionMode, String>)
    ensures
        match mode_named(value@) {
            Some(mode) => r == Ok::<SessionMode, String>(mode),
            None => r matches Err(error) && error@ == "unknown "@ + "session mode"@ + " `"@ + value@
                + "`"@,
        },
{
    if same(value, "execute") {
        Ok(SessionMode::Execute)
    } else if same(value, "plan") {
        Ok(SessionMode::Plan)
    } else {
        Err(unknown_name("session mode", value))
    }
}

/// A state that is stored is read back: itself, or what it is stored as.
pub proof fn statuses_are_read_back(status: SessionStatus)
    ensures
        status_named(stored_status(status)) == Some(
            match status {
                SessionStatus::Paused => SessionStatus::UnknownRecovered,
                SessionStatus::NeedsInput => SessionStatus::Running,
                other => other,
            },
        ),
{
    reveal_strlit("creating");
    assert("creating"@.len() == 8);
    reveal_strlit("running");
    assert("running"@.len() == 7);
    reveal_strlit("paused");
    assert("paused"@.len() == 6);
    reveal_strlit("exited");
    assert("exited"@.len() == 6);
    reveal_strlit("failed");
    assert("failed"@.len() == 6);
    reveal_strlit("unknown_recovered");
    assert("unknown_recovered"@.len() == 17);
    assert("paused"@[0] != "exited"@[0]);
    assert("paused"@[0] != "failed"@[0]);
    assert("exited"@[0] != "failed"@[0]);
}

/// What is stored of an apply state, a policy, an attention level or a mode is read back.
pub proof fn names_are_read_back(
    state: ApplyState,
    policy: IntegrationPolicy,
    level: AttentionLevel,
    mode: SessionMode,
)
    ensures
        apply_state_named(state.name()) == Some(state),
        policy_named(policy.name()) == Some(policy),
        attention_named(level.name()) == Some(level),
        mode_named(mode.name()) == Some(mode),
{
    reveal_strlit("idle");
    assert("idle"@.len() == 4);
    reveal_strlit("clean");
    assert("clean"@.len() == 5);
    reveal_strlit("pending_review");
    assert("pending_review"@.len() == 14);
    reveal_strlit("auto_applying");
    assert("auto_applying"@.len() == 13);
    reveal_strlit("applied");
    assert("applied"@.len() == 7);
    reveal_strlit("discarded");
    assert("discarded"@.len() == 9);
    reveal_strlit("manual_review");
    assert("manual_review"@.len() == 13);
    reveal_strlit("auto_apply_safe");
    assert("auto_apply_safe"@.len() == 15);
    reveal_strlit("info");
    assert("info"@.len() == 4);
    reveal_strlit("notice");
    assert("notice"@.len() == 6);
    reveal_strlit("action");
    assert("action"@.len() == 6);
    reveal_strlit("execute");
    assert("execute"@.len() == 7);
    reveal_strlit("plan");
    assert("plan"@.len() == 4);
    assert("notice"@[0] != "action"@[0]);
    assert("pending_review"@[0] != "auto_applying"@[0]);
    assert("manual_review"@[0] != "auto_apply_safe"@[0]);
}

// ---------------------------------------------------------------------------
// Rows
// ---------------------------------------------------------------------------
/// A row of the table of the sessions, as it is stored.
#[derive(Debug)]
pub struct SessionRow {
    pub session_id: String,
    pub agent: String,
    pub model: Option<String>,
    pub mode: String,
    pub workspace: String,
    pub repo_path: String,
    pub repo_name: String,
    pub base_branch: String,
    pub branch: String,
    pub worktree: String,
    pub status: String,
    pub integration_policy: String,
    pub integration_state: String,
    pub pid: Option<u32>,
    pub exit_code: Option<i32>,
    pub error: Option<String>,
    pub attention: String,
    pub attention_summary: Option<String>,
    pub created_at: String,
    pub updated_at: String,
    pub exited_at: Option<String>,
}

/// A value of a row that could not be read. Points in time are all reported under column 0.
#[derive(Debug)]
pub struct RowError {
    pub column: usize,
    pub message: String,
}

/// What a row fails on first: the column that is named, and what is said of it.
pub open spec fn row_fault(row: SessionRow) -> Option<(int, Seq<char>)> {
    if mode_named(row.mode@) is None {
        Some((3, "unknown "@ + "session mode"@ + " `"@ + row.mode@ + "`"@))
    } else if status_named(row.status@) is None {
        Some((10, "unknown "@ + "session status"@ + " `"@ + row.status@ + "`"@))
    } else if policy_named(row.integration_policy@) is None {
        Some((11, "unknown "@ + "integration policy"@ + " `"@ + row.integration_policy@ + "`"@))
    } else if apply_state_named(row.integration_state@) is None {
        Some((12, "unknown "@ + "apply state"@ + " `"@ + row.integration_state@ + "`"@))
    } else if attention_named(row.attention@) is None {
        Some((16, "unknown "@ + "attention level"@ + " `"@ + row.attention@ + "`"@))
    } else if let Err(message) = rfc3339_time(row.created_at@) {
        Some((0, message))
    } else if let Err(message) = rfc3339_time(row.updated_at@) {
        Some((0, message))
    } else if let Some(text) = row.exited_at {
        match rfc3339_time(text@) {
            Ok(_) => None,
            Err(message) => Some((0, message)),
        }
    } else {
        None
    }
}

/// Whether a session says what a row without fault says, and nothing of its changes yet.
pub open spec fn is_row(session: SessionRecord, row: SessionRow) -> bool {
    &&& session.session_id == row.session_id
    &&& session.agent == row.agent
    &&& session.model == row.model
    &&& Some(session.mode) == mode_named(row.mode@)
    &&& session.workspace == row.workspace
    &&& session.repo_path == row.repo_path
    &&& session.repo_name == row.repo_name
    &&& session.base_branch == row.base_branch
    &&& session.branch == row.branch
    &&& session.worktree == row.worktree
    &&& Some(session.status) == status_named(row.status@)
    &&& Some(session.integration_policy) == policy_named(row.integration_policy@)
    &&& Some(session.apply_state) == apply_state_named(row.integration_state@)
    &&& session.dirty_count == 0
    &&& session.ahead_count == 0
    &&& !session.has_commits
    &&& !session.has_pending_changes
    &&& session.pid == row.pid
    &&& session.exit_code == row.exit_code
    &&& session.error == row.error
    &&& Some(session.attention) == attention_named(row.attention@)
    &&& session.attention_summary == row.attention_summary
    &&& Ok::<Timestamp, Seq<char>>(session.created_at) == rfc3339_time(row.created_at@)
    &&& Ok::<Timestamp, Seq<char>>(session.updated_at) == rfc3339_time(row.updated_at@)
    &&& match row.exited_at {
        Some(text) => session.exited_at matches Some(at) && Ok::<Timestamp, Seq<char>>(at)
            == rfc3339_time(text@),
        None => session.exited_at is None,
    }
    &&& session.thread_id is None
    &&& session.title@ == ""@
    &&& session.task@ == ""@
    &&& session.integration_state == IntegrationState::Clean
    &&& session.git_sync@ == ""@
    &&& session.git_status_summary is None
    &&& !session.has_conflicts
}

fn in_column<T>(column: usize, value: Result<T, String>) -> (r: Result<T, RowError>)
    ensures
        match value {
            Ok(value) => r == Ok::<T, RowError>(value),
            Err(message) => r == Err::<T, RowError>(RowError { column, message }),
        },
{
    match value {
        Ok(value) => Ok(value),
        Err(message) => Err(RowError { column, message }),
    }
}

/// The session that a row says.
pub fn row_to_session(row: SessionRow) -> (r: Result<SessionRecord, RowError>)
    ensures
        match r {
            Ok(session) => row_fault(row) is None && is_row(session, row) && session.valid(),
            Err(error) => row_fault(row) == Some((error.column as int, error.message@)),
        },
{
    let mode = in_column(3, str_to_mode(row.mode.as_str()))?;
    let status = in_column(10, str_to_status(row.status.as_str()))?;
    let integration_policy = in_column(
        11,
        str_to_integration_policy(row.integration_policy.as_str()),
    )?;
    let apply_state = in_column(12, str_to_apply_state(row.integration_state.as_str()))?;
    let attention = in_column(16, str_to_attention(row.attention.as_str()))?;
    let created_at = in_column(0, Timestamp::parse(row.created_at.as_str()))?;
    let updated_at = in_column(0, Timestamp::parse(row.updated_at.as_str()))?;
    let exited_at = match &row.exited_at {
        Some(text) => Some(in_column(0, Timestamp::parse(text.as_str()))?),
        None => None,
    };
    Ok(
        SessionRecord {
            session_id: row.session_id,
            thread_id: None,
            agent: row.agent,
            model: row.model,
            mode,
            workspace: row.workspace,
            repo_path: row.repo_path,
            repo_name: row.repo_name,
            title: "".to_string(),
            task: "".to_string(),
            base_branch: row.base_branch,
            branch: row.branch,
            worktree: row.worktree,
            status,
            integration_policy,
            apply_state,
            integration_state: IntegrationState::Clean,
            git_sync: "".to_string(),
            git_status_summary: None,
            has_conflicts: false,
            dirty_count: 0,
            ahead_count: 0,
            has_commits: false,
            has_pending_changes: false,
            pid: row.pid,
            exit_code: row.exit_code,
            error: row.error,
            attention,
            attention_summary: row.attention_summary,
            created_at,
            updated_at,
            exited_at,
        },
    )
}

/// The values that a row gets when its session's state changes.
#[derive(Debug)]
pub struct StatusUpdate {
    pub status: &'static str,
    pub updated_at: String,
    pub exited_at: Option<String>,
}

/// What is stored of a session that has come to its end.
pub fn exited_update(now: Timestamp) -> (r: StatusUpdate)
    requires
        now.valid(),
    ensures
        r.status@ == stored_status(SessionStatus::Exited),
        r.updated_at@ == rfc3339_text(now.seconds, now.nanos),
        opt_view(r.exited_at) == Some(rfc3339_text(now.seconds, now.nanos)),
        has_four_digit_year(now.seconds as int) ==> reads_as(r.updated_at@, now),
{
    let at = now.to_rfc3339();
    StatusUpdate {
        status: status_to_str(SessionStatus::Exited),
        updated_at: at.clone(),
        exited_at: Some(at),
    }
}

/// What is stored of a session that has to be recovered. When it ended, if it did, stays as it
/// was.
pub fn recovered_update(now: Timestamp) -> (r: StatusUpdate)
    requires
        now.valid(),
    ensures
        r.status@ == stored_status(SessionStatus::UnknownRecovered),
        r.updated_at@ == rfc3339_text(now.seconds, now.nanos),
        r.exited_at is None,
        has_four_digit_year(now.seconds as int) ==> reads_as(r.updated_at@, now),
{
    StatusUpdate {
        status: status_to_str(SessionStatus::UnknownRecovered),
        updated_at: now.to_rfc3339(),
        exited_at: None,
    }
}

// ---------------------------------------------------------------------------
// Changes
// ---------------------------------------------------------------------------
/// How many of the texts are not blank.
pub open spec fn filled(texts: Seq<Seq<char>>) -> nat
    decreases texts.len(),
{
    if texts.len() == 0 {
        0
    } else {
        filled(texts.drop_last()) + if trimmed(texts.last()).len() == 0 {
            0nat
        } else {
            1nat
        }
    }
}

/// How many changes `git status --porcelain` reports: the lines of its output that are not blank,
/// in 32 bits.
pub fn dirty_count_of(stdout: Vec<u8>) -> (r: Result<u32, String>)
    ensures
        r is Ok <==> valid_utf8(stdout@),
        r matches Ok(count) ==> count == filled(lines(decode_utf8(stdout@))) as u32,
        r matches Err(error) ==> error@ == utf8_error_text(stdout@),
{
    let text = text_from_utf8(stdout)?;
    let all = lines_of(text.as_str());
    let ghost due = lines(text@);
    let mut count: usize = 0;
    let mut i: usize = 0;
    assert(due.take(0) =~= Seq::empty());
    while i < all.len()
        invariant
            i <= all.len(),
            views(all@) == due,
            count <= i,
            count == filled(due.take(i as int)),
        decreases all.len() - i,
    {
        assert(due.take(i as int + 1).drop_last() =~= due.take(i as int));
        assert(views(all@)[i as int] == all@[i as int]@);
        if trim(all[i].as_str()).as_str().unicode_len() != 0 {
            count = count + 1;
        }
        i = i + 1;
    }
    assert(due.take(all.len() as int) =~= due);
    Ok(count as u32)
}

/// How many commits `git rev-list --count` reports; none where its output is no number.
pub fn ahead_count_of(stdout: Vec<u8>) -> (r: Result<u32, String>)
    ensures
        r is Ok <==> valid_utf8(stdout@),
        r matches Ok(count) ==> count == match number_of(
            trimmed(decode_utf8(stdout@)),
            u32::MAX as int,
        ) {
            Some(number) => number as u32,
            None => 0u32,
        },
        r matches Err(error) ==> error@ == utf8_error_text(stdout@),
{
    let text = text_from_utf8(stdout)?;
    match parse_u32(trim(text.as_str()).as_str()) {
        Some(count) => Ok(count),
        None => Ok(0),
    }
}

/// What a program that failed wrote, behind a text of one's own.
pub fn command_failure(prefix: &str, stderr: &[u8]) -> (r: String)
    ensures
        r@ == prefix@ + trimmed(lossy_text(stderr@)),
{
    let mut text = prefix.to_string();
    text.append(trim(lossy_string(stderr).as_str()).as_str());
    text
}

/// The full name of a branch.
pub fn branch_ref(branch: &str) -> (r: String)
    ensures
        r@ == "refs/heads/"@ + branch@,
{
    let mut text = "refs/heads/".to_string();
    text.append(branch);
    text
}

/// The commits of a branch that its base does not have.
pub fn branch_range(base_branch: &str, branch: &str) -> (r: String)
    ensures
        r@ == base_branch@ + ".."@ + branch@,
{
    let mut text = base_branch.to_string();
    text.append("..");
    text.append(branch);
    text
}

/// A session with what was counted in its repository: the changes in its worktree, where that is
/// there, and the commits of its branch.
pub open spec fn with_changes(
    session: SessionRecord,
    dirty_count: u32,
    ahead_count: u32,
) -> SessionRecord {
    SessionRecord {
        dirty_count,
        ahead_count,
        has_commits: ahead_count > 0,
        has_pending_changes: ahead_count > 0 || dirty_count > 0,
        ..session
    }
}

/// A session with what was counted in its repository.
pub fn refresh_commit_state(
    session: SessionRecord,
    dirty_count: Option<u32>,
    ahead_count: u32,
) -> (r: SessionRecord)
    ensures
        r == with_changes(
            session,
            match dirty_count {
                Some(count) => count,
                None => 0u32,
            },
            ahead_count,
        ),
{
    let mut session = session;
    session.dirty_count = match dirty_count {
        Some(count) => count,
        None => 0,
    };
    session.ahead_count = ahead_count;
    session.has_commits = session.ahead_count > 0;
    session.has_pending_changes = session.has_commits || session.dirty_count > 0;
    session
}

// ---------------------------------------------------------------------------
// Processes
// ---------------------------------------------------------------------------
/// The number of a process as the system takes it; nothing where none can be asked for.
pub fn process_number(pid: Option<u32>) -> (r: Option<i32>)
    ensures
        r == match pid {
            Some(pid) => if pid == 0 {
                None::<i32>
            } else {
                Some(pid as i32)
            },
            None => None,
        },
{
    match pid {
        Some(pid) => if pid == 0 {
            None
        } else {
            Some(as_signed(pid))
        },
        None => None,
    }
}

/// The same 32 bits, with a sign.
#[verifier::truncate]
fn as_signed(pid: u32) -> (r: i32)
    ensures
        r == pid as i32,
{
    pid as i32
}

/// Whether a process is there: one that can be asked for, and that took the signal that asks.
pub open spec fn is_there(pid: Option<u32>, answered: bool) -> bool {
    pid is Some && pid != Some(0u32) && answered
}

/// Whether a process is there, where `answered` says whether it took the signal that asks.
pub fn process_exists(pid: Option<u32>, answered: bool) -> (r: bool)
    ensures
        r == is_there(pid, answered),
{
    match process_number(pid) {
        Some(_) => answered,
        None => false,
    }
}

/// Whether a session runs.
pub fn session_is_running(session: &SessionRecord, answered: bool) -> (r: bool)
    ensures
        r == (session.status == SessionStatus::Running && is_there(session.pid, answered)),
{
    session.status == SessionStatus::Running && process_exists(session.pid, answered)
}

/// A session in another state.
pub open spec fn with_status(session: SessionRecord, status: SessionStatus) -> SessionRecord {
    SessionRecord { status, ..session }
}

/// A session as it is seen once its process has been looked for.
pub open spec fn normalized(session: SessionRecord, answered: bool) -> SessionRecord {
    if session.status == SessionStatus::Running && !is_there(session.pid, answered) {
        with_status(session, SessionStatus::UnknownRecovered)
    } else {
        session
    }
}

/// A session as it is seen while no daemon watches it.
pub open spec fn degraded(session: SessionRecord) -> SessionRecord {
    if session.status == SessionStatus::Running {
        with_status(session, SessionStatus::UnknownRecovered)
    } else {
        session
    }
}

/// A session as it is seen once its process has been looked for.
pub fn normalize_session(session: SessionRecord, answered: bool) -> (r: SessionRecord)
    ensures
        r == normalized(session, answered),
{
    if session.status == SessionStatus::Running && !process_exists(session.pid, answered) {
        let mut session = session;
        session.status = SessionStatus::UnknownRecovered;
        return session;
    }
    session
}

/// A session as it is seen while no daemon watches it.
pub fn normalize_degraded_session(session: SessionRecord) -> (r: SessionRecord)
    ensures
        r == degraded(session),
{
    let mut session = session;
    if session.status == SessionStatus::Running {
        session.status = SessionStatus::UnknownRecovered;
    }
    session
}

/// No session runs while no daemon watches it; nothing but a session's state changes; and to look
/// twice is to look once.
pub proof fn degraded_sessions_do_not_run(session: SessionRecord, answered: bool)
    ensures
        degraded(session).status != SessionStatus::Running,
        with_status(degraded(session), session.status) == session,
        degraded(degraded(session)) == degraded(session),
        normalized(degraded(session), answered) == degraded(session),
{
}

/// A session runs after its process was looked for exactly where it is found running; nothing but
/// its state changes; and to look twice is to look once.
pub proof fn normalized_sessions_run_if_there(session: SessionRecord, answered: bool)
    ensures
        normalized(session, answered).status == SessionStatus::Running <==> session.status
            == SessionStatus::Running && is_there(session.pid, answered),
        with_status(normalized(session, answered), session.status) == session,
        normalized(normalized(session, answered), answered) == normalized(session, answered),
{
}

// ---------------------------------------------------------------------------
// Ending a process
// ---------------------------------------------------------------------------
/// What a process is sent to end it.
#[derive(Debug, Clone, Copy, PartialEq, Eq, Structural)]
pub enum EndSignal {
    Terminate,
    Kill,
}

/// How far the end of a process has come.
#[derive(Debug, Clone, Copy, PartialEq, Eq, Structural)]
pub enum Termination {
    /// The signal is being sent.
    Sending(EndSignal),
    /// The process has five seconds to go.
    Waiting(EndSignal),
    /// The process is gone.
    Gone,
    /// There is no process.
    NotRunning,
    /// The signal was refused.
    Refused(EndSignal),
    /// The process outlived both signals.
    StillThere,
}

/// What came of a signal or of waiting.
#[derive(Debug, Clone, Copy, PartialEq, Eq, Structural)]
pub enum TerminationEvent {
    Sent,
    NoSuchProcess,
    SignalRefused,
    Exited,
    TimedOut,
}

/// Why a process cannot be signalled at all.
#[derive(Debug, Clone, Copy, PartialEq, Eq, Structural)]
pub enum PidFault {
    Missing,
    Zero,
}

impl PidFault {
    /// What is shown to the user.
    pub fn message(&self, session_id: &str) -> (r: String)
        ensures
            r@ == "session `"@ + session_id@ + match self {
                PidFault::Missing => "` has no recorded pid"@,
                PidFault::Zero => "` has an invalid pid"@,
            },
    {
        let mut text = "session `".to_string();
        text.append(session_id);
        match self {
            PidFault::Missing => text.append("` has no recorded pid"),
            PidFault::Zero => text.append("` has an invalid pid"),
        }
        text
    }
}

/// The process to end, and how its end starts.
pub fn start_termination(pid: Option<u32>) -> (r: Result<(i32, Termination), PidFault>)
    ensures
        r == match pid {
            None => Err::<(i32, Termination), PidFault>(PidFault::Missing),
            Some(pid) => if pid == 0 {
                Err(PidFault::Zero)
            } else {
                Ok((pid as i32, Termination::Sending(EndSignal::Terminate)))
            },
        },
{
    match pid {
        None => Err(PidFault::Missing),
        Some(pid) => if pid == 0 {
            Err(PidFault::Zero)
        } else {
            Ok((as_signed(pid), Termination::Sending(EndSignal::Terminate)))
        },
    }
}

impl Termination {
    /// Whether nothing is left to do.
    pub open spec fn ended(self) -> bool {
        match self {
            Termination::Sending(_) => false,
            Termination::Waiting(_) => false,
            _ => true,
        }
    }

    /// How far the end of a process has come after an event. An event that does not answer what
    /// was done changes nothing.
    pub open spec fn after(self, event: TerminationEvent) -> Termination {
        match (self, event) {
            (Termination::Sending(signal), TerminationEvent::Sent) => Termination::Waiting(signal),
            (Termination::Sending(_), TerminationEvent::NoSuchProcess) => Termination::NotRunning,
            (
                Termination::Sending(signal),
                TerminationEvent::SignalRefused,
            ) => Termination::Refused(signal),
            (Termination::Waiting(_), TerminationEvent::Exited) => Termination::Gone,
            (
                Termination::Waiting(EndSignal::Terminate),
                TerminationEvent::TimedOut,
            ) => Termination::Sending(EndSignal::Kill),
            (
                Termination::Waiting(EndSignal::Kill),
                TerminationEvent::TimedOut,
            ) => Termination::StillThere,
            _ => self,
        }
    }

    /// How far the end of a process has come after an event.
    pub fn next(self, event: TerminationEvent) -> (r: Termination)
        ensures
            r == self.after(event),
    {
        match (self, event) {
            (Termination::Sending(signal), TerminationEvent::Sent) => Termination::Waiting(signal),
            (Termination::Sending(_), TerminationEvent::NoSuchProcess) => Termination::NotRunning,
            (
                Termination::Sending(signal),
                TerminationEvent::SignalRefused,
            ) => Termination::Refused(signal),
            (Termination::Waiting(_), TerminationEvent::Exited) => Termination::Gone,
            (Termination::Waiting(EndSignal::Terminate), TerminationEvent::TimedOut) => {
                Termination::Sending(EndSignal::Kill)
            },
            (Termination::Waiting(EndSignal::Kill), TerminationEvent::TimedOut) => {
                Termination::StillThere
            },
            _ => self,
        }
    }

    /// What the end of a process failed on: the text of `failure`.
    pub open spec fn failure_text(self, session_id: Seq<char>) -> Option<Seq<char>> {
        match self {
            Termination::NotRunning => Some("session `"@ + session_id + "` is not running"@),
            Termination::Refused(EndSignal::Terminate) => Some(
                "failed to send SIGTERM to session `"@ + session_id + "`"@,
            ),
            Termination::Refused(EndSignal::Kill) => Some(
                "failed to send SIGKILL to session `"@ + session_id + "`"@,
            ),
            Termination::StillThere => Some(
                "session `"@ + session_id + "` did not exit after SIGTERM and SIGKILL"@,
            ),
            _ => None,
        }
    }

    /// What the end of a process failed on, in words.
    pub fn failure(self, session_id: &str) -> (r: Option<String>)
        ensures
            opt_view(r) == self.failure_text(session_id@),
    {
        let (before, behind): (&str, &str) = match self {
            Termination::NotRunning => ("session `", "` is not running"),
            Termination::Refused(EndSignal::Terminate) => {
                ("failed to send SIGTERM to session `", "`")
            },
            Termination::Refused(EndSignal::Kill) => ("failed to send SIGKILL to session `", "`"),
            Termination::StillThere => {
                ("session `", "` did not exit after SIGTERM and SIGKILL")
            },
            _ => {
                return None;
            },
        };
        let mut text = before.to_string();
        text.append(session_id);
        text.append(behind);
        Some(text)
    }

    /// How many answers are still awaited at most.
    pub open spec fn left(self) -> nat {
        match self {
            Termination::Sending(EndSignal::Terminate) => 4,
            Termination::Waiting(EndSignal::Terminate) => 3,
            Termination::Sending(EndSignal::Kill) => 2,
            Termination::Waiting(EndSignal::Kill) => 1,
            _ => 0,
        }
    }

    /// Whether an event answers what was done.
    pub open spec fn awaits(self, event: TerminationEvent) -> bool {
        match self {
            Termination::Sending(_) => event == TerminationEvent::Sent || event
                == TerminationEvent::NoSuchProcess || event == TerminationEvent::SignalRefused,
            Termination::Waiting(_) => event == TerminationEvent::Exited || event
                == TerminationEvent::TimedOut,
            _ => false,
        }
    }
}

/// The end of a process comes after at most four answers; it is killed only after it was asked to
/// terminate and did not within its time; and what has ended stays so.
pub proof fn termination_ends(state: Termination, event: TerminationEvent)
    ensures
        state.left() == 0 <==> state.ended(),
        state.left() <= 4,
        state.awaits(event) ==> state.after(event).left() < state.left(),
        state.after(event) == Termination::Sending(EndSignal::Kill) && state != state.after(event)
            ==> state == Termination::Waiting(EndSignal::Terminate) && event
            == TerminationEvent::TimedOut,
        state.ended() ==> state.after(event) == state,
        state.ended() ==> (state.failure_text(seq![]) is None <==> state == Termination::Gone),
{
}

/// What the signal that asks for a process came to.
#[derive(Debug, Clone, Copy, PartialEq, Eq, Structural)]
pub enum Probe {
    There,
    NoSuchProcess,
    Refused,
}

/// Whether a process that is waited for has gone; nothing where it has to be asked for again.
pub fn wait_for_exit(probe: Probe, deadline_passed: bool) -> (r: Option<bool>)
    ensures
        r == match probe {
            Probe::There => if deadline_passed {
                Some(false)
            } else {
                None::<bool>
            },
            Probe::NoSuchProcess => Some(true),
            Probe::Refused => Some(false),
        },
{
    match probe {
        Probe::There => if deadline_passed {
            Some(false)
        } else {
            None
        },
        Probe::NoSuchProcess => Some(true),
        Probe::Refused => Some(false),
    }
}

} // verus!
