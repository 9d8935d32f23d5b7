//! Where the daemon keeps its files.
//!
//! A path is a text, with `/` between its parts.
use crate::text::decimal;
use crate::text::decimal_of;
use vstd::prelude::*;
use vstd::string::*;

verus! {

/// The name of the directory that the daemon uses below a shared one.
pub const APP_DIR_NAME: &'static str = "agentd";

/// A path with another one behind it: an absolute path takes the place of the first.
pub open spec fn path_join(base: Seq<char>, path: Seq<char>) -> Seq<char> {
    if path.len() > 0 && path[0] == '/' {
        path
    } else if base.len() == 0 || base.last() == '/' {
        base + path
    } else {
        base + "/"@ + path
    }
}

/// `camino::Utf8Path::join`, which hands the two paths to `std::path::Path::join`.
///
/// Claimed of it, on a Unix system: an absolute `path` is the result; any other stands behind
/// `base`, with a `/` between them where `base` neither is empty nor ends in one.
#[verifier::external_body]
fn utf8_join(base: &str, path: &str) -> (r: String)
    ensures
        r@ == path_join(base@, path@),
{
    camino::Utf8Path::new(base).join(path).into_string()
}

/// The files and directories that belong to one runtime root.
#[derive(Debug)]
pub struct AppPaths {
    pub root: String,
    pub socket: String,
    pub pid_file: String,
    pub database: String,
    pub config: String,
    pub logs_dir: String,
    pub worktrees_dir: String,
}

/// What an environment variable holds.
#[derive(Debug)]
pub enum EnvPath {
    Unset,
    Text(String),
    NotUtf8,
}

/// An environment variable whose value is no text.
#[derive(Debug)]
pub struct PathError {
    pub variable: &'static str,
}

impl PathError {
    /// What is shown to the user.
    pub fn message(&self) -> (r: String)
        ensures
            r@ == self.variable@ + " is not valid UTF-8"@,
    {
        let mut text = self.variable.to_string();
        text.append(" is not valid UTF-8");
        text
    }
}

impl AppPaths {
    /// Whether the paths are the ones below a root.
    pub open spec fn is_below(&self, root: Seq<char>) -> bool {
        &&& self.root@ == root
        &&& self.socket@ == path_join(root, "agentd.sock"@)
        &&& self.pid_file@ == path_join(root, "agentd.pid"@)
        &&& self.database@ == path_join(root, "state.db"@)
        &&& self.config@ == path_join(root, "config.toml"@)
        &&& self.logs_dir@ == path_join(root, "logs"@)
        &&& self.worktrees_dir@ == path_join(root, "worktrees"@)
    }

    /// The paths below a root.
    pub fn from_root(root: String) -> (r: Self)
        ensures
            r.is_below(root@),
    {
        AppPaths {
            socket: utf8_join(root.as_str(), "agentd.sock"),
            pid_file: utf8_join(root.as_str(), "agentd.pid"),
            database: utf8_join(root.as_str(), "state.db"),
            config: utf8_join(root.as_str(), "config.toml"),
            logs_dir: utf8_join(root.as_str(), "logs"),
            worktrees_dir: utf8_join(root.as_str(), "worktrees"),
            root,
        }
    }

    /// The directories that have to be there, in the order in which they are made.
    pub fn layout(&self) -> (r: Vec<&str>)
        ensures
            r@.len() == 3,
            r@[0]@ == self.root@,
            r@[1]@ == self.logs_dir@,
            r@[2]@ == self.worktrees_dir@,
    {
        vec![self.root.as_str(), self.logs_dir.as_str(), self.worktrees_dir.as_str()]
    }

    /// The file that holds what a session wrote.
    pub fn log_path(&self, session_id: &str) -> (r: String)
        ensures
            r@ == path_join(self.logs_dir@, session_id@ + ".log"@),
    {
        let mut name = session_id.to_string();
        name.append(".log");
        utf8_join(self.logs_dir.as_str(), name.as_str())
    }

    /// The file that holds what a session's screen showed.
    pub fn rendered_log_path(&self, session_id: &str) -> (r: String)
        ensures
            r@ == path_join(self.logs_dir@, session_id@ + ".rendered.log"@),
    {
        let mut name = session_id.to_string();
        name.append(".rendered.log");
        utf8_join(self.logs_dir.as_str(), name.as_str())
    }

    /// The directory that a session works in.
    pub fn worktree_path(&self, session_id: &str) -> (r: String)
        ensures
            r@ == path_join(self.worktrees_dir@, session_id@),
    {
        utf8_join(self.worktrees_dir.as_str(), session_id)
    }

    /// A path as a text.
    pub fn as_utf8(path: &String) -> (r: &str)
        ensures
            r@ == path@,
    {
        path.as_str()
    }
}

/// The directory name that carries a user's number.
pub open spec fn user_dir(uid: u32) -> Seq<char> {
    "agentd"@ + "-"@ + decimal(uid as nat)
}

/// The runtime root: the first of the directories that the environment gives; `home` counts
/// on systems that have no runtime directory of their own.
pub open spec fn root_of(
    agentd_dir: EnvPath,
    xdg_runtime_dir: EnvPath,
    home: EnvPath,
    tmpdir: EnvPath,
    uid: u32,
) -> Result<Seq<char>, Seq<char>> {
    match agentd_dir {
        EnvPath::Text(root) => Ok(root@),
        EnvPath::NotUtf8 => Err("AGENTD_DIR"@),
        EnvPath::Unset => match xdg_runtime_dir {
            EnvPath::Text(dir) => Ok(path_join(dir@, "agentd"@)),
            EnvPath::NotUtf8 => Err("XDG_RUNTIME_DIR"@),
            EnvPath::Unset => match home {
                EnvPath::Text(dir) => Ok(path_join(dir@, ".agentd"@)),
                EnvPath::NotUtf8 => Err("HOME"@),
                EnvPath::Unset => match tmpdir {
                    EnvPath::Text(dir) => Ok(path_join(dir@, user_dir(uid))),
                    EnvPath::NotUtf8 => Err("TMPDIR"@),
                    EnvPath::Unset => Ok("/tmp/"@ + user_dir(uid)),
                },
            },
        },
    }
}

/// The value of an environment variable, as a path.
fn utf8_env_path(name: &'static str, value: EnvPath) -> (r: Result<Option<String>, PathError>)
    ensures
        match value {
            EnvPath::Unset => r == Ok::<Option<String>, PathError>(None),
            EnvPath::Text(text) => r == Ok::<Option<String>, PathError>(Some(text)),
            EnvPath::NotUtf8 => r matches Err(error) && error.variable@ == name@,
        },
{
    match value {
        EnvPath::Unset => Ok(None),
        EnvPath::Text(text) => Ok(Some(text)),
        EnvPath::NotUtf8 => Err(PathError { variable: name }),
    }
}

/// The directory name that carries a user's number.
fn user_dir_of(uid: u32) -> (r: String)
    ensures
        r@ == user_dir(uid),
{
    let mut name = APP_DIR_NAME.to_string();
    name.append("-");
    name.append(decimal_of(uid as u64).as_str());
    name
}

/// The runtime root on a system where the home directory comes before the temporary one.
pub fn discover_root_with_home(
    agentd_dir: EnvPath,
    xdg_runtime_dir: EnvPath,
    home: EnvPath,
    tmpdir: EnvPath,
    uid: u32,
) -> (r: Result<String, PathError>)
    ensures
        match root_of(agentd_dir, xdg_runtime_dir, home, tmpdir, uid) {
            Ok(root) => r matches Ok(found) && found@ == root,
            Err(variable) => r matches Err(error) && error.variable@ == variable,
        },
{
    if let Some(root) = utf8_env_path("AGENTD_DIR", agentd_dir)? {
        return Ok(root);
    }
    if let Some(dir) = utf8_env_path("XDG_RUNTIME_DIR", xdg_runtime_dir)? {
        return Ok(utf8_join(dir.as_str(), APP_DIR_NAME));
    }
    if let Some(dir) = utf8_env_path("HOME", home)? {
        return Ok(utf8_join(dir.as_str(), ".agentd"));
    }
    if let Some(dir) = utf8_env_path("TMPDIR", tmpdir)? {
        return Ok(utf8_join(dir.as_str(), user_dir_of(uid).as_str()));
    }
    let mut root = "/tmp/".to_string();
    root.append(user_dir_of(uid).as_str());
    Ok(root)
}

/// The runtime root.
pub fn discover_root(
    agentd_dir: EnvPath,
    xdg_runtime_dir: EnvPath,
    tmpdir: EnvPath,
    uid: u32,
) -> (r: Result<String, PathError>)
    ensures
        match root_of(agentd_dir, xdg_runtime_dir, EnvPath::Unset, tmpdir, uid) {
            Ok(root) => r matches Ok(found) && found@ == root,
            Err(variable) => r matches Err(error) && error.variable@ == variable,
        },
{
    discover_root_with_home(agentd_dir, xdg_runtime_dir, EnvPath::Unset, tmpdir, uid)
}

// ---------------------------------------------------------------------------
// Laws
// ---------------------------------------------------------------------------
/// Whether a path starts with a directory and goes on below it.
pub open spec fn lies_below(path: Seq<char>, dir: Seq<char>) -> bool {
    path.len() > dir.len() && path.take(dir.len() as int) == dir
}

/// Every file of the daemon lies below the selected root.
pub proof fn paths_lie_below_the_root(paths: AppPaths, root: Seq<char>)
    requires
        paths.is_below(root),
    ensures
        lies_below(paths.socket@, root),
        lies_below(paths.pid_file@, root),
        lies_below(paths.database@, root),
        lies_below(paths.config@, root),
        lies_below(paths.logs_dir@, root),
        lies_below(paths.worktrees_dir@, root),
{
    reveal_strlit("agentd.sock");
    reveal_strlit("agentd.pid");
    reveal_strlit("state.db");
    reveal_strlit("config.toml");
    reveal_strlit("logs");
    reveal_strlit("worktrees");
    joined_lies_below(root, "agentd.sock"@);
    joined_lies_below(root, "agentd.pid"@);
    joined_lies_below(root, "state.db"@);
    joined_lies_below(root, "config.toml"@);
    joined_lies_below(root, "logs"@);
    joined_lies_below(root, "worktrees"@);
}

/// A relative path that is joined to a directory lies below it.
proof fn joined_lies_below(dir: Seq<char>, path: Seq<char>)
    requires
        path.len() > 0,
        path[0] != '/',
    ensures
        lies_below(path_join(dir, path), dir),
{
    reveal_strlit("/");
    assert(path_join(dir, path).take(dir.len() as int) =~= dir);
}

/// Two sessions with names that are no absolute paths have worktrees of their own.
pub proof fn worktrees_are_distinct(dir: Seq<char>, a: Seq<char>, b: Seq<char>)
    requires
        a.len() > 0,
        b.len() > 0,
        a[0] != '/',
        b[0] != '/',
        path_join(dir, a) == path_join(dir, b),
    ensures
        a == b,
{
    reveal_strlit("/");
    let n = path_join(dir, a).len() - a.len();
    assert(a =~= path_join(dir, a).skip(n));
    assert(b =~= path_join(dir, b).skip(n));
}

} // verus!
