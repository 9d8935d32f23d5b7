use agentd::config::{
    default_agent_name, default_auto_commit_message, default_integration_policy,
    default_model_flag, AgentConfig, Config, GitConfig,
};
use agentd::paths::{discover_root, discover_root_with_home, AppPaths, EnvPath, APP_DIR_NAME};
use agentd::request_input::{JsonMember, JsonValue, PendingUserInputRequest};
use agentd::session::{
    branch_name_from_session_id, repo_name_from_path, validate_session_name, SESSION_NAME_RULES,
};
use camino::Utf8PathBuf;

// ---------------------------------------------------------------------------
// Configuration
// ---------------------------------------------------------------------------
fn test_paths() -> AppPaths {
    AppPaths::from_root("/tmp/agentd-config-test".to_string())
}

fn text_of(table: &toml::Table, key: &str) -> Option<String> {
    table.get(key).and_then(|value| value.as_str()).map(str::to_string)
}

/// A configuration as its file states it, with the defaults for what it leaves out.
fn parse_config(contents: &str) -> Config {
    let table: toml::Table = toml::from_str(contents).unwrap();
    let mut agents = Vec::new();
    if let Some(section) = table.get("agents").and_then(|value| value.as_table()) {
        for (name, entry) in section {
            let entry = entry.as_table().unwrap();
            agents.push((
                name.clone(),
                AgentConfig {
                    command: text_of(entry, "command").unwrap(),
                    args: Vec::new(),
                    model_flag: text_of(entry, "model_flag").or(default_model_flag()),
                },
            ));
        }
    }
    let default_agent = text_of(&table, "default_agent").unwrap_or(default_agent_name());
    Config::with_agents(default_agent, agents, GitConfig::default())
}

#[test]
fn require_agent_error_mentions_resolved_config_path() {
    let paths = test_paths();
    let err = Config::default().require_agent(&paths, "missing").unwrap_err().message();
    assert!(err.contains(paths.config.as_str()));
}

#[test]
fn load_preserves_agent_order_from_toml() {
    let paths = test_paths();
    let config = parse_config(
        r#"
default_agent = "cline"

[agents.cline]
command = "cline"

[agents.codex]
command = "codex"

[agents.zed]
command = "zed"
"#,
    );

    let config = config.validate(&paths).unwrap();
    assert_eq!(
        config.agents.keys().map(String::as_str).collect::<Vec<_>>(),
        vec!["cline", "codex", "zed"]
    );
    assert_eq!(config.default_agent_name(&paths).unwrap(), "cline");
}

#[test]
fn missing_default_agent_defaults_to_codex() {
    let paths = test_paths();
    let config = parse_config(
        r#"
[agents.codex]
command = "codex"
"#,
    );

    let config = config.validate(&paths).unwrap();
    assert_eq!(config.default_agent, "codex");
    assert_eq!(config.default_agent_name(&paths).unwrap(), "codex");
}

#[test]
fn invalid_default_agent_returns_clear_error() {
    let paths = test_paths();
    let config = parse_config(
        r#"
default_agent = "missing"

[agents.codex]
command = "codex"
"#,
    );

    let err = config.validate(&paths).unwrap_err().message();
    assert!(err.contains("default_agent `missing`"));
    assert!(err.contains(paths.config.as_str()));
}

fn agent(command: &str) -> AgentConfig {
    AgentConfig { command: command.to_string(), args: Vec::new(), model_flag: None }
}

#[test]
fn agents_keep_the_order_in_which_they_come() {
    let config = Config::with_agents(
        "b".to_string(),
        vec![
            ("z".to_string(), agent("z1")),
            ("b".to_string(), agent("b1")),
            ("z".to_string(), agent("z2")),
        ],
        GitConfig::default(),
    );
    assert_eq!(config.agent_names(), vec!["z".to_string(), "b".to_string()]);
    assert_eq!(config.require_agent(&test_paths(), "z").unwrap().command, "z2");
    assert_eq!(config.require_agent(&test_paths(), "b").unwrap().command, "b1");
}

#[test]
fn a_configuration_without_agents_keeps_its_default() {
    let config = Config::with_agents("any".to_string(), vec![], GitConfig::default());
    assert_eq!(config.default_agent_name(&test_paths()).unwrap(), "any");
    assert_eq!(
        config.require_agent(&test_paths(), "any").unwrap_err().message(),
        "agent `any` is not configured in /tmp/agentd-config-test/config.toml"
    );
}

#[test]
fn configuration_defaults_are_fixed() {
    let config = Config::default();
    assert_eq!(config.default_agent, "codex");
    assert_eq!(config.agent_names()[0], "codex");
    assert_eq!(config.git.default_integration_policy, "auto_apply_safe");
    assert_eq!(config.git.auto_commit_message, "agentd: finalize session {session_id}");
    assert_eq!(default_integration_policy(), "auto_apply_safe");
    assert_eq!(default_auto_commit_message(), "agentd: finalize session {session_id}");
    let agent = config.require_agent(&test_paths(), "codex").unwrap();
    assert_eq!(agent.command, "codex");
    assert!(agent.args.is_empty());
    assert_eq!(agent.model_flag, Some("--model".to_string()));
}

// ---------------------------------------------------------------------------
// Paths
// ---------------------------------------------------------------------------
fn set(text: &str) -> EnvPath {
    EnvPath::Text(text.to_string())
}

#[test]
fn agentd_dir_is_used_as_exact_root() {
    let root =
        discover_root(set("/custom/agentd-root"), set("/run/user/501"), set("/var/tmp"), 501)
            .unwrap();
    assert_eq!(root, "/custom/agentd-root");
}

#[test]
fn xdg_runtime_dir_is_used_when_agentd_dir_is_unset() {
    let root =
        discover_root(EnvPath::Unset, set("/run/user/501"), set("/var/tmp"), 501).unwrap();
    assert_eq!(root, Utf8PathBuf::from("/run/user/501").join(APP_DIR_NAME).into_string());
}

#[test]
fn tmpdir_uses_uid_suffix_when_higher_priority_env_vars_are_unset() {
    let root = discover_root(EnvPath::Unset, EnvPath::Unset, set("/var/tmp"), 501).unwrap();
    assert_eq!(
        root,
        Utf8PathBuf::from("/var/tmp").join(format!("{APP_DIR_NAME}-501")).into_string()
    );
}

#[test]
fn tmp_fallback_uses_uid_suffix() {
    let root = discover_root(EnvPath::Unset, EnvPath::Unset, EnvPath::Unset, 501).unwrap();
    assert_eq!(root, format!("/tmp/{APP_DIR_NAME}-501"));
}

#[test]
fn derived_paths_follow_selected_root() {
    let paths = AppPaths::from_root(
        Utf8PathBuf::from("/run/user/501").join(APP_DIR_NAME).into_string(),
    );
    assert_eq!(paths.socket, "/run/user/501/agentd/agentd.sock");
    assert_eq!(paths.pid_file, "/run/user/501/agentd/agentd.pid");
    assert_eq!(paths.database, "/run/user/501/agentd/state.db");
    assert_eq!(paths.config, "/run/user/501/agentd/config.toml");
    assert_eq!(paths.logs_dir, "/run/user/501/agentd/logs");
    assert_eq!(paths.worktrees_dir, "/run/user/501/agentd/worktrees");
}

#[test]
fn the_home_directory_comes_before_the_temporary_one() {
    let root = discover_root_with_home(
        EnvPath::Unset,
        EnvPath::Unset,
        set("/Users/demo"),
        set("/var/tmp"),
        501,
    )
    .unwrap();
    assert_eq!(root, "/Users/demo/.agentd");
}

#[test]
fn environment_values_have_to_be_text() {
    let name = |agentd, xdg, home, tmp| {
        discover_root_with_home(agentd, xdg, home, tmp, 1).unwrap_err().message()
    };
    assert_eq!(
        name(EnvPath::NotUtf8, EnvPath::Unset, EnvPath::Unset, EnvPath::Unset),
        "AGENTD_DIR is not valid UTF-8"
    );
    assert_eq!(
        name(EnvPath::Unset, EnvPath::NotUtf8, EnvPath::Unset, EnvPath::Unset),
        "XDG_RUNTIME_DIR is not valid UTF-8"
    );
    assert_eq!(
        name(EnvPath::Unset, EnvPath::Unset, EnvPath::NotUtf8, EnvPath::Unset),
        "HOME is not valid UTF-8"
    );
    assert_eq!(
        name(EnvPath::Unset, EnvPath::Unset, EnvPath::Unset, EnvPath::NotUtf8),
        "TMPDIR is not valid UTF-8"
    );
    assert!(discover_root(set("/root"), EnvPath::NotUtf8, EnvPath::NotUtf8, 1).is_ok());
}

#[test]
fn session_files_lie_in_their_directories() {
    let paths = AppPaths::from_root("/r".to_string());
    assert_eq!(paths.log_path("demo"), "/r/logs/demo.log");
    assert_eq!(paths.rendered_log_path("demo"), "/r/logs/demo.rendered.log");
    assert_eq!(paths.worktree_path("demo"), "/r/worktrees/demo");
    assert_eq!(paths.layout(), vec!["/r", "/r/logs", "/r/worktrees"]);
    assert_eq!(AppPaths::as_utf8(&paths.root), "/r");
}

#[test]
fn joined_paths_are_the_ones_of_the_system() {
    for (base, path) in
        [("/r", "x"), ("/r/", "x"), ("", "x"), ("/r", "/x"), ("r", "x/y"), ("/", "x"), ("/r", "")]
    {
        let paths = AppPaths {
            root: String::new(),
            socket: String::new(),
            pid_file: String::new(),
            database: String::new(),
            config: String::new(),
            logs_dir: String::new(),
            worktrees_dir: base.to_string(),
        };
        let expected = std::path::Path::new(base).join(path);
        assert_eq!(paths.worktree_path(path), expected.to_str().unwrap());
    }
}

// ---------------------------------------------------------------------------
// Sessions
// ---------------------------------------------------------------------------
#[test]
fn branch_names_follow_session_id() {
    assert_eq!(branch_name_from_session_id("fix-failing-tests"), "agent/fix-failing-tests");
}

#[test]
fn valid_session_names_pass_validation() {
    assert!(validate_session_name("fix-failing-tests").is_ok());
    assert!(validate_session_name("demo2").is_ok());
}

#[test]
fn invalid_session_names_fail_validation() {
    for invalid in ["", "Fix", "fix tests", "fix_tests", "-fix", "fix-", "fix--tests"] {
        assert_eq!(validate_session_name(invalid), Err(SESSION_NAME_RULES.to_string()));
    }
}

#[test]
fn repo_names_are_derived_from_path() {
    assert_eq!(repo_name_from_path("/tmp/demo"), "demo");
}

#[test]
fn session_names_are_bounded() {
    assert!(validate_session_name(&"a".repeat(64)).is_ok());
    assert!(validate_session_name(&"a".repeat(65)).is_err());
}

#[test]
fn repo_names_are_file_names() {
    for path in [
        "/tmp/demo", "/tmp/demo/", "/tmp/demo//", "/tmp/demo/.", "/tmp/demo/./", "demo", "/", "",
        ".", "..", "/tmp/..", "/tmp/.hidden", "a/b.c", "./x", "/.", "//", "x/.//.", "...", "/a/...",
    ] {
        let expected = std::path::Path::new(path)
            .file_name()
            .and_then(|name| name.to_str())
            .unwrap_or(path);
        assert_eq!(repo_name_from_path(path), expected, "{path:?}");
    }
}

// ---------------------------------------------------------------------------
// Questions
// ---------------------------------------------------------------------------
fn text(value: &str) -> JsonValue {
    JsonValue::Text(value.to_string())
}

fn object(members: Vec<(&str, JsonValue)>) -> JsonValue {
    JsonValue::Object(
        members
            .into_iter()
            .map(|(key, value)| JsonMember { key: key.to_string(), value })
            .collect(),
    )
}

#[test]
fn parses_codex_request_user_input_payload() {
    let request = PendingUserInputRequest::from_codex_raw(&object(vec![
        ("turn_id", text("turn-1")),
        (
            "questions",
            JsonValue::List(vec![object(vec![
                ("id", text("scope")),
                ("header", text("Scope")),
                ("question", text("Which scope should I use?")),
                (
                    "options",
                    JsonValue::List(vec![
                        object(vec![("label", text("Plan only"))]),
                        object(vec![
                            ("label", text("All sessions")),
                            ("description", text("Use it everywhere.")),
                        ]),
                    ]),
                ),
            ])]),
        ),
    ]))
    .unwrap();

    assert_eq!(request.turn_id.as_deref(), Some("turn-1"));
    assert_eq!(request.questions.len(), 1);
    assert_eq!(request.questions[0].header, "Scope");
    assert_eq!(
        request.questions[0].options[1].description.as_deref(),
        Some("Use it everywhere.")
    );
}

#[test]
fn questions_get_names_of_their_own() {
    let request = PendingUserInputRequest::from_codex_raw(&object(vec![(
        "questions",
        JsonValue::List(vec![
            object(vec![("question", text("  "))]),
            object(vec![("question", text(" Go on? ")), ("id", text(" "))]),
            JsonValue::Null,
            object(vec![("question", text("Why?")), ("header", text(" H "))]),
        ]),
    )]))
    .unwrap();
    assert_eq!(request.turn_id, None);
    assert_eq!(request.questions.len(), 2);
    assert_eq!(request.questions[0].id, "question-2");
    assert_eq!(request.questions[0].header, "Question 2");
    assert_eq!(request.questions[0].question, "Go on?");
    assert_eq!(request.questions[1].id, "question-4");
    assert_eq!(request.questions[1].header, " H ");
    assert_eq!(request.summary(), "Go on?");
}

#[test]
fn options_need_a_label() {
    let request = PendingUserInputRequest::from_codex_raw(&object(vec![(
        "questions",
        JsonValue::List(vec![object(vec![
            ("question", text("Which?")),
            (
                "options",
                JsonValue::List(vec![
                    object(vec![("label", text(" "))]),
                    object(vec![
                        ("label", text(" Other ")),
                        ("description", text(" ")),
                        ("is_other", JsonValue::Bool(true)),
                    ]),
                    JsonValue::Number("1".to_string()),
                ]),
            ),
        ])]),
    )]))
    .unwrap();
    let options = &request.questions[0].options;
    assert_eq!(options.len(), 1);
    assert_eq!(options[0].label, "Other");
    assert_eq!(options[0].description, None);
    assert!(options[0].is_other);
}

#[test]
fn requests_without_questions_are_none() {
    assert!(PendingUserInputRequest::from_codex_raw(&JsonValue::Null).is_none());
    assert!(PendingUserInputRequest::from_codex_raw(&object(vec![])).is_none());
    assert!(PendingUserInputRequest::from_codex_raw(&object(vec![(
        "questions",
        JsonValue::List(vec![])
    )]))
    .is_none());
    let empty = PendingUserInputRequest { turn_id: None, questions: Vec::new() };
    assert_eq!(empty.summary(), "Agent is waiting for input.");
}
