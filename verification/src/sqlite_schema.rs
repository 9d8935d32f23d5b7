//! The layout of the state database, and how older layouts are brought up to it.
use crate::text::{same, signed_decimal, signed_decimal_of};
use vstd::prelude::*;
use vstd::string::*;

verus! {

/// The version of the layout that the daemon works with.
pub const CURRENT_SCHEMA_VERSION: i32 = 5;

/// Makes the current layout in an empty database.
pub const CREATE_SCHEMA_SQL: &'static str = "
CREATE TABLE sessions (
    session_id TEXT PRIMARY KEY,
    thread_id TEXT,
    agent TEXT NOT NULL,
    model TEXT,
    mode TEXT NOT NULL CHECK (mode IN ('execute', 'plan')),
    workspace TEXT NOT NULL,
    repo_path TEXT NOT NULL,
    repo_name TEXT NOT NULL,
    base_branch TEXT NOT NULL,
    branch TEXT NOT NULL,
    worktree TEXT NOT NULL,
    status TEXT NOT NULL CHECK (status IN ('creating', 'running', 'exited', 'failed', 'unknown_recovered')),
    integration_policy TEXT NOT NULL CHECK (integration_policy IN ('manual_review', 'auto_apply_safe')),
    pid INTEGER,
    exit_code INTEGER,
    error TEXT,
    integration_state TEXT NOT NULL CHECK (integration_state IN ('idle', 'auto_applying', 'applied', 'discarded')),
    attention TEXT NOT NULL CHECK (attention IN ('info', 'notice', 'action')),
    attention_summary TEXT,
    created_at TEXT NOT NULL,
    updated_at TEXT NOT NULL,
    exited_at TEXT
);
PRAGMA user_version = 5;
";

/// Brings version 3 of the layout up to version 4.
pub const V3_TO_V4_SQL: &'static str = "
ALTER TABLE sessions RENAME TO sessions_v3;
CREATE TABLE sessions (
    session_id TEXT PRIMARY KEY,
    thread_id TEXT,
    agent TEXT NOT NULL,
    model TEXT,
    mode TEXT NOT NULL CHECK (mode IN ('execute', 'plan')),
    workspace TEXT NOT NULL,
    repo_path TEXT NOT NULL,
    repo_name TEXT NOT NULL,
    base_branch TEXT NOT NULL,
    branch TEXT NOT NULL,
    worktree TEXT NOT NULL,
    status TEXT NOT NULL CHECK (status IN ('creating', 'running', 'needs_input', 'exited', 'failed', 'unknown_recovered')),
    integration_policy TEXT NOT NULL CHECK (integration_policy IN ('manual_review', 'auto_apply_safe')),
    pid INTEGER,
    exit_code INTEGER,
    error TEXT,
    integration_state TEXT NOT NULL CHECK (integration_state IN ('idle', 'auto_applying', 'applied', 'discarded')),
    attention TEXT NOT NULL CHECK (attention IN ('info', 'notice', 'action')),
    attention_summary TEXT,
    created_at TEXT NOT NULL,
    updated_at TEXT NOT NULL,
    exited_at TEXT
);
INSERT INTO sessions (
    session_id, thread_id, agent, model, mode, workspace, repo_path, repo_name,
    base_branch, branch, worktree, status, integration_policy, pid, exit_code, error,
    integration_state, attention, attention_summary, created_at, updated_at, exited_at
)
SELECT
    session_id, thread_id, agent, model, mode, workspace, repo_path, repo_name,
    base_branch, branch, worktree, status, integration_policy, pid, exit_code, error,
    integration_state, attention, attention_summary, created_at, updated_at, exited_at
FROM sessions_v3;
DROP TABLE sessions_v3;
PRAGMA user_version = 4;
";

/// Brings version 4 of the layout up to version 5.
pub const V4_TO_V5_SQL: &'static str = "
ALTER TABLE sessions RENAME TO sessions_v4;
CREATE TABLE sessions (
    session_id TEXT PRIMARY KEY,
    thread_id TEXT,
    agent TEXT NOT NULL,
    model TEXT,
    mode TEXT NOT NULL CHECK (mode IN ('execute', 'plan')),
    workspace TEXT NOT NULL,
    repo_path TEXT NOT NULL,
    repo_name TEXT NOT NULL,
    base_branch TEXT NOT NULL,
    branch TEXT NOT NULL,
    worktree TEXT NOT NULL,
    status TEXT NOT NULL CHECK (status IN ('creating', 'running', 'exited', 'failed', 'unknown_recovered')),
    integration_policy TEXT NOT NULL CHECK (integration_policy IN ('manual_review', 'auto_apply_safe')),
    pid INTEGER,
    exit_code INTEGER,
    error TEXT,
    integration_state TEXT NOT NULL CHECK (integration_state IN ('idle', 'auto_applying', 'applied', 'discarded')),
    attention TEXT NOT NULL CHECK (attention IN ('info', 'notice', 'action')),
    attention_summary TEXT,
    created_at TEXT NOT NULL,
    updated_at TEXT NOT NULL,
    exited_at TEXT
);
INSERT INTO sessions (
    session_id, thread_id, agent, model, mode, workspace, repo_path, repo_name,
    base_branch, branch, worktree, status, integration_policy, pid, exit_code, error,
    integration_state, attention, attention_summary, created_at, updated_at, exited_at
)
SELECT
    session_id, thread_id, agent, model, mode, workspace, repo_path, repo_name,
    base_branch, branch, worktree,
    CASE WHEN status = 'needs_input' THEN 'running' ELSE status END,
    integration_policy, pid, exit_code, error,
    integration_state, attention, attention_summary, created_at, updated_at, exited_at
FROM sessions_v4;
DROP TABLE sessions_v4;
PRAGMA user_version = 5;
";

/// One change of a database's layout.
#[derive(Debug, Clone, Copy, PartialEq, Eq, Structural)]
pub enum SchemaStep {
    Create,
    V3ToV4,
    V4ToV5,
}

impl SchemaStep {
    /// The version that the step leaves behind.
    pub open spec fn leads_to(self) -> int {
        match self {
            SchemaStep::Create => 5,
            SchemaStep::V3ToV4 => 4,
            SchemaStep::V4ToV5 => 5,
        }
    }

    /// The version that the step starts from; nothing for an empty database.
    pub open spec fn starts_from(self) -> Option<int> {
        match self {
            SchemaStep::Create => None,
            SchemaStep::V3ToV4 => Some(3),
            SchemaStep::V4ToV5 => Some(4),
        }
    }

    /// The statements that make the step.
    pub fn sql(&self) -> (r: &'static str)
        ensures
            r@ == match self {
                SchemaStep::Create => CREATE_SCHEMA_SQL@,
                SchemaStep::V3ToV4 => V3_TO_V4_SQL@,
                SchemaStep::V4ToV5 => V4_TO_V5_SQL@,
            },
    {
        match self {
            SchemaStep::Create => CREATE_SCHEMA_SQL,
            SchemaStep::V3ToV4 => V3_TO_V4_SQL,
            SchemaStep::V4ToV5 => V4_TO_V5_SQL,
        }
    }
}

/// Why a database cannot be used.
#[derive(Debug, Clone, Copy, PartialEq, Eq, Structural)]
pub enum SchemaError {
    Version(i32),
    MissingSessions,
    OtherColumns,
}

impl SchemaError {
    /// The text of `message`.
    pub open spec fn text(&self) -> Seq<char> {
        match self {
            SchemaError::Version(version) => "unsupported state database schema version "@
                + signed_decimal(*version as int)
                + "; expected 5. Remove or migrate the runtime root."@,
            SchemaError::MissingSessions =>
                "unsupported state database schema: missing `sessions` table. Remove or migrate the runtime root."@,
            SchemaError::OtherColumns =>
                "unsupported state database schema: `sessions` does not match the current layout. Remove or migrate the runtime root."@,
        }
    }

    /// What is shown to the user.
    pub fn message(&self) -> (r: String)
        ensures
            r@ == self.text(),
    {
        match self {
            SchemaError::Version(version) => {
                let mut text = "unsupported state database schema version ".to_string();
                text.append(signed_decimal_of(*version as i64).as_str());
                text.append("; expected 5. Remove or migrate the runtime root.");
                text
            },
            SchemaError::MissingSessions => {
                "unsupported state database schema: missing `sessions` table. Remove or migrate the runtime root.".to_string()
            },
            SchemaError::OtherColumns => {
                "unsupported state database schema: `sessions` does not match the current layout. Remove or migrate the runtime root.".to_string()
            },
        }
    }
}

/// The steps that bring a version of the layout up to the current one.
pub open spec fn migration(schema_version: int) -> Option<Seq<SchemaStep>> {
    if schema_version == 5 {
        Some(seq![])
    } else if schema_version == 4 {
        Some(seq![SchemaStep::V4ToV5])
    } else if schema_version == 3 {
        Some(seq![SchemaStep::V3ToV4, SchemaStep::V4ToV5])
    } else {
        None
    }
}

/// The steps that bring a version of the layout up to the current one.
pub fn migrate_schema(schema_version: i32) -> (r: Result<Vec<SchemaStep>, SchemaError>)
    ensures
        match migration(schema_version as int) {
            Some(steps) => r matches Ok(plan) && plan@ == steps,
            None => r == Err::<Vec<SchemaStep>, SchemaError>(SchemaError::Version(schema_version)),
        },
{
    if schema_version == CURRENT_SCHEMA_VERSION {
        let plan: Vec<SchemaStep> = Vec::new();
        assert(plan@ =~= seq![]);
        Ok(plan)
    } else if schema_version == 4 {
        let plan = vec![SchemaStep::V4ToV5];
        assert(plan@ =~= seq![SchemaStep::V4ToV5]);
        Ok(plan)
    } else if schema_version == 3 {
        let plan = vec![SchemaStep::V3ToV4, SchemaStep::V4ToV5];
        assert(plan@ =~= seq![SchemaStep::V3ToV4, SchemaStep::V4ToV5]);
        Ok(plan)
    } else {
        Err(SchemaError::Version(schema_version))
    }
}

/// What has to be done to a database before it is used: the steps, and whether its columns have
/// to be looked at afterwards.
pub fn plan_init(schema_version: i32, has_objects: bool) -> (r: Result<
    (Vec<SchemaStep>, bool),
    SchemaError,
>)
    ensures
        !has_objects ==> (r matches Ok((steps, look)) && steps@ == seq![SchemaStep::Create]
            && !look),
        has_objects ==> match migration(schema_version as int) {
            Some(due) => r matches Ok((steps, look)) && steps@ == due && look,
            None => r == Err::<(Vec<SchemaStep>, bool), SchemaError>(
                SchemaError::Version(schema_version),
            ),
        },
{
    if !has_objects {
        let steps = vec![SchemaStep::Create];
        assert(steps@ =~= seq![SchemaStep::Create]);
        Ok((steps, false))
    } else {
        match migrate_schema(schema_version) {
            Ok(steps) => Ok((steps, true)),
            Err(error) => Err(error),
        }
    }
}

/// The columns of the table of the sessions.
pub open spec fn session_columns() -> Seq<Seq<char>> {
    seq![
        "session_id"@,
        "thread_id"@,
        "agent"@,
        "model"@,
        "mode"@,
        "workspace"@,
        "repo_path"@,
        "repo_name"@,
        "base_branch"@,
        "branch"@,
        "worktree"@,
        "status"@,
        "integration_policy"@,
        "pid"@,
        "exit_code"@,
        "error"@,
        "integration_state"@,
        "attention"@,
        "attention_summary"@,
        "created_at"@,
        "updated_at"@,
        "exited_at"@,
    ]
}

/// The columns of the table of the sessions.
pub fn expected_sessions_columns() -> (r: Vec<&'static str>)
    ensures
        r@.len() == session_columns().len(),
        forall|i: int| 0 <= i < r@.len() ==> (#[trigger] r@[i])@ == session_columns()[i],
{
    vec![
        "session_id",
        "thread_id",
        "agent",
        "model",
        "mode",
        "workspace",
        "repo_path",
        "repo_name",
        "base_branch",
        "branch",
        "worktree",
        "status",
        "integration_policy",
        "pid",
        "exit_code",
        "error",
        "integration_state",
        "attention",
        "attention_summary",
        "created_at",
        "updated_at",
        "exited_at",
    ]
}

/// Whether the columns that a database has are the ones of the layout.
pub fn ensure_supported_schema(schema_version: i32, columns: &Vec<String>) -> (r: Result<
    (),
    SchemaError,
>)
    ensures
        r == if schema_version != CURRENT_SCHEMA_VERSION {
            Err::<(), SchemaError>(SchemaError::Version(schema_version))
        } else if columns@.len() == 0 {
            Err(SchemaError::MissingSessions)
        } else if crate::text::views(columns@) != session_columns() {
            Err(SchemaError::OtherColumns)
        } else {
            Ok(())
        },
{
    if schema_version != CURRENT_SCHEMA_VERSION {
        return Err(SchemaError::Version(schema_version));
    }
    if columns.len() == 0 {
        return Err(SchemaError::MissingSessions);
    }
    let expected = expected_sessions_columns();
    let ghost found = crate::text::views(columns@);
    if columns.len() != expected.len() {
        assert(found.len() != session_columns().len());
        return Err(SchemaError::OtherColumns);
    }
    let mut i: usize = 0;
    while i < columns.len()
        invariant
            i <= columns.len(),
            columns.len() > 0,
            schema_version == CURRENT_SCHEMA_VERSION,
            columns.len() == expected.len(),
            expected@.len() == session_columns().len(),
            found == crate::text::views(columns@),
            forall|k: int|
                0 <= k < expected@.len() ==> (#[trigger] expected@[k])@ == session_columns()[k],
            forall|k: int| 0 <= k < i ==> found[k] == session_columns()[k],
        decreases columns.len() - i,
    {
        assert(found[i as int] == columns@[i as int]@);
        assert(expected@[i as int]@ == session_columns()[i as int]);
        if !same(columns[i].as_str(), expected[i]) {
            assert(found[i as int] != session_columns()[i as int]);
            return Err(SchemaError::OtherColumns);
        }
        i = i + 1;
    }
    assert(found =~= session_columns());
    Ok(())
}

// ---------------------------------------------------------------------------
// Laws
// ---------------------------------------------------------------------------
/// Whether each step starts where the one before it ended.
pub open spec fn is_chain(version: int, steps: Seq<SchemaStep>) -> bool
    decreases steps.len(),
{
    steps.len() == 0 || (steps[0].starts_from() == Some(version) && is_chain(
        steps[0].leads_to(),
        steps.skip(1),
    ))
}

/// The version that steps leave behind.
pub open spec fn reached(version: int, steps: Seq<SchemaStep>) -> int {
    if steps.len() == 0 {
        version
    } else {
        steps.last().leads_to()
    }
}

/// Every layout that is not refused is led step by step to the current one.
pub proof fn migrations_reach_the_current_version(schema_version: int)
    requires
        migration(schema_version) is Some,
    ensures
        is_chain(schema_version, migration(schema_version)->0),
        reached(schema_version, migration(schema_version)->0) == CURRENT_SCHEMA_VERSION,
{
    let steps = migration(schema_version)->0;
    reveal_with_fuel(is_chain, 3);
    if schema_version == 3 {
        assert(steps.skip(1) =~= seq![SchemaStep::V4ToV5]);
    }
}

} // verus!
