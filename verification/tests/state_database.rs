use agentd::sqlite_schema::{
    ensure_supported_schema, expected_sessions_columns, migrate_schema, plan_init, SchemaError,
    SchemaStep, CURRENT_SCHEMA_VERSION,
};
use rusqlite::Connection;

fn columns_of(conn: &Connection) -> Vec<String> {
    conn.prepare("PRAGMA table_info(sessions)")
        .unwrap()
        .query_map([], |row| row.get::<_, String>(1))
        .unwrap()
        .collect::<rusqlite::Result<Vec<_>>>()
        .unwrap()
}

fn version_of(conn: &Connection) -> i32 {
    conn.query_row("PRAGMA user_version", [], |row| row.get(0)).unwrap()
}

/// Brings a database to the current layout by the planned steps.
fn init_state_db(conn: &mut Connection) -> Result<(), String> {
    let has_objects: bool = conn
        .query_row(
            "SELECT EXISTS(
                SELECT 1
                FROM sqlite_master
                WHERE type IN ('table', 'index', 'trigger', 'view')
                  AND name NOT LIKE 'sqlite_%'
            )",
            [],
            |row| row.get(0),
        )
        .unwrap();
    let (steps, look) =
        plan_init(version_of(conn), has_objects).map_err(|error| error.message())?;
    for step in steps {
        conn.execute_batch(step.sql()).unwrap();
    }
    if look {
        ensure_supported_schema(version_of(conn), &columns_of(conn))
            .map_err(|error| error.message())?;
    }
    Ok(())
}

const INSERT_SESSION: &str = "INSERT INTO sessions (
        session_id, thread_id, agent, model, mode, workspace, repo_path, repo_name,
        base_branch, branch, worktree, status, integration_policy, pid, exit_code, error,
        integration_state, attention, attention_summary, created_at, updated_at, exited_at
    ) VALUES (
        'demo', NULL, 'codex', NULL, 'execute', '/tmp/repo', '/tmp/repo', 'repo', 'main',
        'agent/demo', '/tmp/worktree', 'needs_input', 'manual_review', 123, NULL, NULL,
        'idle', 'action', 'needs input', ?1, ?1, NULL
    )";

fn create_old_layout(conn: &Connection, version: i32) {
    conn.execute_batch(
        "
        CREATE TABLE sessions (
            session_id TEXT PRIMARY KEY,
            thread_id TEXT,
            agent TEXT NOT NULL,
            model TEXT,
            mode TEXT NOT NULL CHECK (mode IN ('execute', 'plan')),
            workspace TEXT NOT NULL,
            repo_path TEXT NOT NULL,
            repo_name TEXT NOT NULL,
            base_branch TEXT NOT NULL,
            branch TEXT NOT NULL,
            worktree TEXT NOT NULL,
            status TEXT NOT NULL CHECK (status IN ('creating', 'running', 'needs_input', 'exited', 'failed', 'unknown_recovered')),
            integration_policy TEXT NOT NULL CHECK (integration_policy IN ('manual_review', 'auto_apply_safe')),
            pid INTEGER,
            exit_code INTEGER,
            error TEXT,
            integration_state TEXT NOT NULL CHECK (integration_state IN ('idle', 'auto_applying', 'applied', 'discarded')),
            attention TEXT NOT NULL CHECK (attention IN ('info', 'notice', 'action')),
            attention_summary TEXT,
            created_at TEXT NOT NULL,
            updated_at TEXT NOT NULL,
            exited_at TEXT
        );
        ",
    )
    .unwrap();
    conn.execute_batch(&format!("PRAGMA user_version = {version};")).unwrap();
}

#[test]
fn init_creates_current_schema_for_fresh_database() {
    let mut conn = Connection::open_in_memory().unwrap();

    init_state_db(&mut conn).unwrap();

    let user_version = version_of(&conn);
    let columns = columns_of(&conn);
    assert_eq!(user_version, CURRENT_SCHEMA_VERSION);
    assert!(columns.iter().any(|column| column == "repo_name"));
    assert!(!columns.iter().any(|column| column == "task"));
    assert_eq!(columns, expected_sessions_columns());
}

#[test]
fn init_rejects_legacy_schema() {
    let mut conn = Connection::open_in_memory().unwrap();
    conn.execute_batch(
        "
        CREATE TABLE sessions (
            session_id TEXT PRIMARY KEY,
            agent TEXT NOT NULL,
            workspace TEXT NOT NULL,
            task TEXT NOT NULL,
            branch TEXT NOT NULL,
            worktree TEXT NOT NULL,
            status TEXT NOT NULL,
            created_at TEXT NOT NULL,
            updated_at TEXT NOT NULL
        );
        ",
    )
    .unwrap();
    conn.execute(
        "INSERT INTO sessions (
            session_id, agent, workspace, task, branch, worktree, status, created_at, updated_at
        ) VALUES ('legacy', 'codex', '/tmp/repo', 'test', 'agent/test', '/tmp/worktree',
            'running', ?1, ?1)",
        [chrono::Utc::now().to_rfc3339()],
    )
    .unwrap();

    let err = init_state_db(&mut conn).unwrap_err();
    assert!(err.contains("unsupported state database schema version 0"));
}

#[test]
fn init_migrates_v4_needs_input_rows_to_running() {
    let mut conn = Connection::open_in_memory().unwrap();
    create_old_layout(&conn, 4);
    conn.execute(INSERT_SESSION, [chrono::Utc::now().to_rfc3339()]).unwrap();

    init_state_db(&mut conn).unwrap();

    let user_version = version_of(&conn);
    let status: String = conn
        .query_row("SELECT status FROM sessions WHERE session_id = 'demo'", [], |row| row.get(0))
        .unwrap();
    assert_eq!(user_version, CURRENT_SCHEMA_VERSION);
    assert_eq!(status, "running");
}

#[test]
fn current_schema_rejects_needs_input_status() {
    let mut conn = Connection::open_in_memory().unwrap();
    init_state_db(&mut conn).unwrap();

    let err = conn
        .execute(INSERT_SESSION, [chrono::Utc::now().to_rfc3339()])
        .unwrap_err()
        .to_string();

    assert!(err.contains("CHECK constraint failed"));
}

#[test]
fn version_three_is_led_through_version_four() {
    let mut conn = Connection::open_in_memory().unwrap();
    create_old_layout(&conn, 3);
    conn.execute(INSERT_SESSION, [chrono::Utc::now().to_rfc3339()]).unwrap();
    assert_eq!(migrate_schema(3).unwrap(), vec![SchemaStep::V3ToV4, SchemaStep::V4ToV5]);

    init_state_db(&mut conn).unwrap();

    assert_eq!(version_of(&conn), CURRENT_SCHEMA_VERSION);
    let status: String =
        conn.query_row("SELECT status FROM sessions", [], |row| row.get(0)).unwrap();
    assert_eq!(status, "running");
}

#[test]
fn a_current_database_is_left_alone() {
    let mut conn = Connection::open_in_memory().unwrap();
    init_state_db(&mut conn).unwrap();
    assert_eq!(plan_init(5, true).unwrap(), (vec![], true));
    init_state_db(&mut conn).unwrap();
}

#[test]
fn other_layouts_are_refused() {
    assert_eq!(migrate_schema(6).unwrap_err(), SchemaError::Version(6));
    assert_eq!(
        migrate_schema(-1).unwrap_err().message(),
        "unsupported state database schema version -1; expected 5. Remove or migrate the runtime root."
    );
    assert_eq!(ensure_supported_schema(4, &vec![]), Err(SchemaError::Version(4)));
    assert_eq!(ensure_supported_schema(5, &vec![]), Err(SchemaError::MissingSessions));
    assert_eq!(
        ensure_supported_schema(5, &vec!["session_id".to_string()]),
        Err(SchemaError::OtherColumns)
    );
    assert_eq!(
        SchemaError::MissingSessions.message(),
        "unsupported state database schema: missing `sessions` table. Remove or migrate the runtime root."
    );
    assert_eq!(
        SchemaError::OtherColumns.message(),
        "unsupported state database schema: `sessions` does not match the current layout. Remove or migrate the runtime root."
    );
}
