//! Sessions: what is known of an agent at work in its worktree, and how sessions are named.
use crate::text::{chars_of, string_of};
use crate::time::Timestamp;
use vstd::prelude::*;
use vstd::string::*;

verus! {

/// What a session name must look like, in words.
pub const SESSION_NAME_RULES: &'static str =
    "use 1-64 lowercase letters, numbers, and single hyphens";

/// The state of a session's process.
#[derive(Clone, Copy, Debug, PartialEq, Eq, Structural)]
pub enum SessionStatus {
    Creating,
    Running,
    Paused,
    NeedsInput,
    Exited,
    Failed,
    UnknownRecovered,
}

/// How much a session asks for its user's attention.
#[derive(Clone, Copy, Debug, PartialEq, Eq, Structural)]
pub enum AttentionLevel {
    Info,
    Notice,
    Action,
}

/// How far a session's changes have come on their way into the base branch.
#[derive(Clone, Copy, Debug, PartialEq, Eq, Structural)]
pub enum ApplyState {
    Idle,
    AutoApplying,
    Applied,
    Discarded,
}

/// What a session's changes are to the repository.
#[derive(Clone, Copy, Debug, PartialEq, Eq, Structural)]
pub enum IntegrationState {
    Clean,
    PendingReview,
    Applied,
    Blocked,
    Conflicted,
}

/// Who decides that a session's changes are applied.
#[derive(Clone, Copy, Debug, PartialEq, Eq, Structural)]
pub enum IntegrationPolicy {
    ManualReview,
    AutoApplySafe,
}

/// Whether an agent may change files.
#[derive(Clone, Copy, Debug, PartialEq, Eq, Structural)]
pub enum SessionMode {
    Execute,
    Plan,
}

/// What kind of client is attached to a session.
#[derive(Clone, Copy, Debug, PartialEq, Eq, Structural)]
pub enum AttachmentKind {
    Attach,
    Tui,
}

/// What is known of a session.
#[derive(Debug, PartialEq)]
pub struct SessionRecord {
    pub session_id: String,
    pub thread_id: Option<String>,
    pub agent: String,
    pub model: Option<String>,
    pub mode: SessionMode,
    pub workspace: String,
    pub repo_path: String,
    pub repo_name: String,
    pub title: String,
    pub task: String,
    pub base_branch: String,
    pub branch: String,
    pub worktree: String,
    pub status: SessionStatus,
    pub integration_policy: IntegrationPolicy,
    pub apply_state: ApplyState,
    pub integration_state: IntegrationState,
    pub git_sync: String,
    pub git_status_summary: Option<String>,
    pub has_conflicts: bool,
    pub dirty_count: u32,
    pub ahead_count: u32,
    pub has_commits: bool,
    pub has_pending_changes: bool,
    pub pid: Option<u32>,
    pub exit_code: Option<i32>,
    pub error: Option<String>,
    pub attention: AttentionLevel,
    pub attention_summary: Option<String>,
    pub created_at: Timestamp,
    pub updated_at: Timestamp,
    pub exited_at: Option<Timestamp>,
}

/// What the creation of a session came to.
#[derive(Debug, PartialEq)]
pub struct CreateSessionResult {
    pub session_id: String,
    pub base_branch: String,
    pub branch: String,
    pub worktree: String,
    pub status: SessionStatus,
    pub mode: SessionMode,
    pub integration_policy: IntegrationPolicy,
}

/// The worktree of a session.
#[derive(Debug, PartialEq)]
pub struct WorktreeRecord {
    pub session_id: String,
    pub repo_path: String,
    pub base_branch: String,
    pub branch: String,
    pub worktree: String,
}

/// The changes of a session.
#[derive(Debug, PartialEq)]
pub struct SessionDiff {
    pub session_id: String,
    pub base_branch: String,
    pub branch: String,
    pub worktree: String,
    pub diff: String,
}

/// A client that is attached to a session.
#[derive(Debug, PartialEq, Eq)]
pub struct AttachmentRecord {
    pub attach_id: String,
    pub session_id: String,
    pub kind: AttachmentKind,
    pub connected_at: Timestamp,
}

impl SessionRecord {
    /// Whether the points in time of this record exist.
    pub open spec fn valid(self) -> bool {
        &&& self.created_at.valid()
        &&& self.updated_at.valid()
        &&& self.exited_at matches Some(at) ==> at.valid()
    }
}

impl Clone for SessionRecord {
    fn clone(&self) -> (r: SessionRecord)
        ensures
            r == *self,
    {
        SessionRecord {
            session_id: self.session_id.clone(),
            thread_id: clone_option(&self.thread_id),
            agent: self.agent.clone(),
            model: clone_option(&self.model),
            mode: self.mode,
            workspace: self.workspace.clone(),
            repo_path: self.repo_path.clone(),
            repo_name: self.repo_name.clone(),
            title: self.title.clone(),
            task: self.task.clone(),
            base_branch: self.base_branch.clone(),
            branch: self.branch.clone(),
            worktree: self.worktree.clone(),
            status: self.status,
            integration_policy: self.integration_policy,
            apply_state: self.apply_state,
            integration_state: self.integration_state,
            git_sync: self.git_sync.clone(),
            git_status_summary: clone_option(&self.git_status_summary),
            has_conflicts: self.has_conflicts,
            dirty_count: self.dirty_count,
            ahead_count: self.ahead_count,
            has_commits: self.has_commits,
            has_pending_changes: self.has_pending_changes,
            pid: self.pid,
            exit_code: self.exit_code,
            error: clone_option(&self.error),
            attention: self.attention,
            attention_summary: clone_option(&self.attention_summary),
            created_at: self.created_at,
            updated_at: self.updated_at,
            exited_at: self.exited_at,
        }
    }
}

fn clone_option(value: &Option<String>) -> (r: Option<String>)
    ensures
        r == *value,
{
    match value {
        Some(text) => Some(text.clone()),
        None => None,
    }
}

// ---------------------------------------------------------------------------
// Names
// ---------------------------------------------------------------------------
/// The name of the branch of a session.
pub open spec fn branch_name(session_id: Seq<char>) -> Seq<char> {
    "agent/"@ + session_id
}

/// The name of the branch of a session.
pub fn branch_name_from_session_id(session_id: &str) -> (r: String)
    ensures
        r@ == branch_name(session_id@),
{
    let mut r = "agent/".to_string();
    r.append(session_id);
    r
}

/// Sessions with different names have different branches.
pub proof fn branch_names_are_distinct(a: Seq<char>, b: Seq<char>)
    requires
        branch_name(a) == branch_name(b),
    ensures
        a == b,
{
    let n = "agent/"@.len() as int;
    assert(branch_name(a).len() == n + a.len());
    assert(branch_name(b).len() == n + b.len());
    assert(branch_name(a).subrange(n, n + a.len()) =~= a);
    assert(branch_name(b).subrange(n, n + b.len()) =~= b);
}

/// The letters and digits of a session name.
pub open spec fn is_name_letter(c: char) -> bool {
    ('a' <= c && c <= 'z') || ('0' <= c && c <= '9')
}

/// Whether a session may have this name: one to sixty-four lowercase letters, digits and
/// hyphens, where every hyphen stands between two letters or digits.
pub open spec fn is_session_name(name: Seq<char>) -> bool {
    &&& 1 <= name.len() <= 64
    &&& forall|i: int| 0 <= i < name.len() ==> is_name_letter(#[trigger] name[i]) || name[i] == '-'
    &&& forall|i: int|
        0 <= i < name.len() && #[trigger] name[i] == '-' ==> 0 < i < name.len() - 1
            && name[i - 1] != '-'
}

/// Asks that a session may have this name.
pub fn validate_session_name(name: &str) -> (r: Result<(), String>)
    ensures
        r is Ok <==> is_session_name(name@),
        r matches Err(message) ==> message@ == SESSION_NAME_RULES@,
{
    let chars = chars_of(name);
    if chars.len() == 0 {
        return Err(SESSION_NAME_RULES.to_string());
    }
    if chars.len() > 64 {
        return Err(SESSION_NAME_RULES.to_string());
    }
    if chars[0] == '-' || chars[chars.len() - 1] == '-' {
        assert(name@[0] == '-' || name@[name@.len() - 1] == '-');
        return Err(SESSION_NAME_RULES.to_string());
    }
    let mut last_was_hyphen = false;
    let mut i: usize = 0;
    while i < chars.len()
        invariant
            i <= chars.len(),
            chars@ == name@,
            1 <= name@.len() <= 64,
            name@[0] != '-',
            name@[name@.len() - 1] != '-',
            last_was_hyphen == (i > 0 && name@[i - 1] == '-'),
            forall|j: int|
                0 <= j < i ==> is_name_letter(#[trigger] name@[j]) || name@[j] == '-',
            forall|j: int|
                0 <= j < i && #[trigger] name@[j] == '-' ==> 0 < j && name@[j - 1] != '-',
        decreases chars.len() - i,
    {
        let c = chars[i];
        if ('a' <= c && c <= 'z') || ('0' <= c && c <= '9') {
            last_was_hyphen = false;
        } else if c == '-' && !last_was_hyphen {
            last_was_hyphen = true;
        } else {
            assert(name@[i as int] == c);
            return Err(SESSION_NAME_RULES.to_string());
        }
        i += 1;
    }
    Ok(())
}

/// The text of a path without what does not count at its end: slashes, and dots that stand for
/// the directory itself.
pub open spec fn trimmed_path(path: Seq<char>) -> Seq<char>
    decreases path.len(),
{
    if path.len() > 0 && path.last() == '/' {
        trimmed_path(path.drop_last())
    } else if path.len() > 1 && path.last() == '.' && path[path.len() - 2] == '/' {
        trimmed_path(path.take(path.len() - 2))
    } else {
        path
    }
}

/// What follows the last slash of a path.
pub open spec fn after_last_slash(path: Seq<char>) -> Seq<char>
    decreases path.len(),
{
    if path.len() == 0 || path.last() == '/' {
        Seq::empty()
    } else {
        after_last_slash(path.drop_last()).push(path.last())
    }
}

/// The name of a repository: that of its directory, or the whole path where it names none.
pub open spec fn repo_name(path: Seq<char>) -> Seq<char> {
    let last = after_last_slash(trimmed_path(path));
    if last.len() == 0 || last == seq!['.'] || last == seq!['.', '.'] {
        path
    } else {
        last
    }
}

/// The name of a repository, from its path.
pub fn repo_name_from_path(path: &str) -> (r: String)
    ensures
        r@ == repo_name(path@),
{
    let chars = chars_of(path);
    let mut end: usize = chars.len();
    assert(chars@.take(end as int) =~= chars@);
    while end > 0 && (chars[end - 1] == '/' || (end > 1 && chars[end - 1] == '.' && chars[end - 2]
        == '/'))
        invariant
            end <= chars.len(),
            chars@ == path@,
            trimmed_path(path@) == trimmed_path(path@.take(end as int)),
        decreases end,
    {
        let ghost here = path@.take(end as int);
        if chars[end - 1] == '/' {
            assert(here.drop_last() =~= path@.take(end - 1));
            end -= 1;
        } else {
            assert(here.take(here.len() - 2) =~= path@.take(end - 2));
            end -= 2;
        }
    }
    let ghost trimmed = path@.take(end as int);
    assert(trimmed_path(trimmed) == trimmed);
    let mut start: usize = end;
    let mut name: Vec<char> = Vec::new();
    assert(path@.subrange(end as int, end as int) =~= Seq::empty());
    assert(after_last_slash(trimmed) + Seq::<char>::empty() =~= after_last_slash(trimmed));
    while start > 0 && chars[start - 1] != '/'
        invariant
            start <= end <= chars.len(),
            chars@ == path@,
            trimmed == path@.take(end as int),
            after_last_slash(trimmed) == after_last_slash(path@.take(start as int))
                + path@.subrange(start as int, end as int),
        decreases start,
    {
        let ghost here = path@.take(start as int);
        assert(here.drop_last() =~= path@.take(start - 1));
        assert(after_last_slash(here) == after_last_slash(here.drop_last()).push(here.last()));
        start -= 1;
        assert(after_last_slash(trimmed) =~= after_last_slash(path@.take(start as int))
            + path@.subrange(start as int, end as int));
    }
    assert(after_last_slash(path@.take(start as int)) == Seq::<char>::empty());
    assert(after_last_slash(trimmed) =~= path@.subrange(start as int, end as int));
    let mut i: usize = start;
    while i < end
        invariant
            start <= i <= end <= chars.len(),
            chars@ == path@,
            name@ == path@.subrange(start as int, i as int),
        decreases end - i,
    {
        name.push(chars[i]);
        i += 1;
        assert(name@ =~= path@.subrange(start as int, i as int));
    }
    if name.len() == 0 || (name.len() == 1 && name[0] == '.') || (name.len() == 2 && name[0] == '.'
        && name[1] == '.') {
        assert(name@ =~= Seq::empty() || name@ =~= seq!['.'] || name@ =~= seq!['.', '.']);
        path.to_string()
    } else {
        assert(name@.len() > 0 && !(name@ == seq!['.']) && !(name@ == seq!['.', '.']));
        string_of(&name)
    }
}

// ---------------------------------------------------------------------------
// Names of states
// ---------------------------------------------------------------------------
impl AttentionLevel {
    /// The name of this level.
    pub open spec fn name(self) -> Seq<char> {
        match self {
            AttentionLevel::Info => "info"@,
            AttentionLevel::Notice => "notice"@,
            AttentionLevel::Action => "action"@,
        }
    }

    /// The name of this level.
    pub fn as_str(self) -> (r: &'static str)
        ensures
            r@ == self.name(),
    {
        match self {
            AttentionLevel::Info => "info",
            AttentionLevel::Notice => "notice",
            AttentionLevel::Action => "action",
        }
    }
}

impl ApplyState {
    /// The name of this state.
    pub open spec fn name(self) -> Seq<char> {
        match self {
            ApplyState::Idle => "idle"@,
            ApplyState::AutoApplying => "auto_applying"@,
            ApplyState::Applied => "applied"@,
            ApplyState::Discarded => "discarded"@,
        }
    }

    /// The name of this state.
    pub fn as_str(self) -> (r: &'static str)
        ensures
            r@ == self.name(),
    {
        match self {
            ApplyState::Idle => "idle",
            ApplyState::AutoApplying => "auto_applying",
            ApplyState::Applied => "applied",
            ApplyState::Discarded => "discarded",
        }
    }
}

impl IntegrationPolicy {
    /// The name of this policy.
    pub open spec fn name(self) -> Seq<char> {
        match self {
            IntegrationPolicy::ManualReview => "manual_review"@,
            IntegrationPolicy::AutoApplySafe => "auto_apply_safe"@,
        }
    }

    /// The name of this policy.
    pub fn as_str(self) -> (r: &'static str)
        ensures
            r@ == self.name(),
    {
        match self {
            IntegrationPolicy::ManualReview => "manual_review",
            IntegrationPolicy::AutoApplySafe => "auto_apply_safe",
        }
    }
}

impl SessionMode {
    /// The name of this mode.
    pub open spec fn name(self) -> Seq<char> {
        match self {
            SessionMode::Execute => "execute"@,
            SessionMode::Plan => "plan"@,
        }
    }

    /// The name of this mode.
    pub fn as_str(self) -> (r: &'static str)
        ensures
            r@ == self.name(),
    {
        match self {
            SessionMode::Execute => "execute",
            SessionMode::Plan => "plan",
        }
    }
}

impl AttachmentKind {
    /// The name of this kind.
    pub open spec fn name(self) -> Seq<char> {
        match self {
            AttachmentKind::Attach => "attach"@,
            AttachmentKind::Tui => "tui"@,
        }
    }

    /// The name of this kind.
    pub fn as_str(self) -> (r: &'static str)
        ensures
            r@ == self.name(),
    {
        match self {
            AttachmentKind::Attach => "attach",
            AttachmentKind::Tui => "tui",
        }
    }
}

} // verus!
