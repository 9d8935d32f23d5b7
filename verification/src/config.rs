//! Which agents there are, and how sessions come back into their repository.
use crate::paths::AppPaths;
use crate::text::views;
use indexmap::IndexMap;
use vstd::prelude::*;
use vstd::string::*;

verus! {

/// How an agent is started.
#[derive(Debug)]
pub struct AgentConfig {
    pub command: String,
    pub args: Vec<String>,
    pub model_flag: Option<String>,
}

/// How finished work is brought back.
#[derive(Debug)]
pub struct GitConfig {
    pub default_integration_policy: String,
    pub auto_commit_message: String,
}

/// The whole configuration.
#[derive(Debug)]
pub struct Config {
    pub default_agent: String,
    pub agents: IndexMap<String, AgentConfig>,
    pub git: GitConfig,
}

/// What is wrong with a configuration.
#[derive(Debug)]
pub enum ConfigError {
    UnknownAgent { name: String, config: String },
    UnknownDefaultAgent { name: String, config: String },
}

impl ConfigError {
    /// The text of `message`.
    pub open spec fn text(&self) -> Seq<char> {
        match self {
            ConfigError::UnknownAgent { name, config } => "agent `"@ + name@
                + "` is not configured in "@ + config@,
            ConfigError::UnknownDefaultAgent { name, config } => "default_agent `"@ + name@
                + "` is not configured under [agents] in "@ + config@,
        }
    }

    /// What is shown to the user.
    pub fn message(&self) -> (r: String)
        ensures
            r@ == self.text(),
    {
        match self {
            ConfigError::UnknownAgent { name, config } => {
                let mut text = "agent `".to_string();
                text.append(name.as_str());
                text.append("` is not configured in ");
                text.append(config.as_str());
                text
            },
            ConfigError::UnknownDefaultAgent { name, config } => {
                let mut text = "default_agent `".to_string();
                text.append(name.as_str());
                text.append("` is not configured under [agents] in ");
                text.append(config.as_str());
                text
            },
        }
    }
}

// ---------------------------------------------------------------------------
// The map of the agents
// ---------------------------------------------------------------------------
/// The map that keeps its entries in the order in which they came.
#[verifier::external_type_specification]
#[verifier::external_body]
#[verifier::reject_recursive_types(K)]
#[verifier::reject_recursive_types(V)]
#[verifier::reject_recursive_types(S)]
pub struct ExIndexMap<K, V, S>(indexmap::IndexMap<K, V, S>);

/// The entries of an `IndexMap`, in their order.
pub uninterp spec fn agent_entries(
    agents: IndexMap<String, AgentConfig>,
) -> Seq<(Seq<char>, AgentConfig)>;

/// Where an entry with the given key stands; the number of entries where there is none.
pub open spec fn entry_at(entries: Seq<(Seq<char>, AgentConfig)>, key: Seq<char>) -> int
    decreases entries.len(),
{
    if entries.len() == 0 || entries[0].0 == key {
        0
    } else {
        1 + entry_at(entries.skip(1), key)
    }
}

/// Whether an entry has the given key.
pub open spec fn has_entry(entries: Seq<(Seq<char>, AgentConfig)>, key: Seq<char>) -> bool {
    entry_at(entries, key) < entries.len()
}

/// The entries after a key got a value: in its old place, or last where it is new.
pub open spec fn with_entry(
    entries: Seq<(Seq<char>, AgentConfig)>,
    key: Seq<char>,
    value: AgentConfig,
) -> Seq<(Seq<char>, AgentConfig)> {
    if has_entry(entries, key) {
        entries.update(entry_at(entries, key), (key, value))
    } else {
        entries.push((key, value))
    }
}

/// The keys of the entries, in their order.
pub open spec fn entry_keys(entries: Seq<(Seq<char>, AgentConfig)>) -> Seq<Seq<char>> {
    Seq::new(entries.len(), |i: int| entries[i].0)
}

/// `IndexMap::new`.
///
/// Claimed of it: the map is empty.
#[verifier::external_body]
fn no_agents() -> (r: IndexMap<String, AgentConfig>)
    ensures
        agent_entries(r) == Seq::<(Seq<char>, AgentConfig)>::empty(),
{
    IndexMap::new()
}

/// `IndexMap::insert`, without the value that it hands back.
///
/// Claimed of it: a key that is there keeps its place and gets the new value, another one
/// comes last, and nothing else changes.
#[verifier::external_body]
fn put_agent(
    agents: &mut IndexMap<String, AgentConfig>,
    name: String,
    agent: AgentConfig,
)
    ensures
        agent_entries(*final(agents)) == with_entry(agent_entries(*old(agents)), name@, agent),
{
    agents.insert(name, agent);
}

/// `IndexMap::get`.
///
/// Claimed of it: the value of the entry with that key, and nothing where there is none.
#[verifier::external_body]
fn agent_named<'a>(agents: &'a IndexMap<String, AgentConfig>, name: &str) -> (r: Option<
    &'a AgentConfig,
>)
    ensures
        match r {
            Some(agent) => has_entry(agent_entries(*agents), name@) && *agent == agent_entries(
                *agents,
            )[entry_at(agent_entries(*agents), name@)].1,
            None => !has_entry(agent_entries(*agents), name@),
        },
{
    agents.get(name)
}

/// `IndexMap::contains_key`.
///
/// Claimed of it: whether an entry has that key.
#[verifier::external_body]
fn has_agent(agents: &IndexMap<String, AgentConfig>, name: &str) -> (r: bool)
    ensures
        r == has_entry(agent_entries(*agents), name@),
{
    agents.contains_key(name)
}

/// `IndexMap::is_empty`.
///
/// Claimed of it: whether there is no entry.
#[verifier::external_body]
fn lacks_agents(agents: &IndexMap<String, AgentConfig>) -> (r: bool)
    ensures
        r == (agent_entries(*agents).len() == 0),
{
    agents.is_empty()
}

/// `IndexMap::keys`, collected.
///
/// Claimed of it: the keys of the entries, in their order.
#[verifier::external_body]
fn names_of_agents(agents: &IndexMap<String, AgentConfig>) -> (r: Vec<String>)
    ensures
        views(r@) == entry_keys(agent_entries(*agents)),
{
    agents.keys().cloned().collect()
}

// ---------------------------------------------------------------------------
// Defaults
// ---------------------------------------------------------------------------
/// The flag by which an agent is told its model, where none is configured.
pub fn default_model_flag() -> (r: Option<String>)
    ensures
        r matches Some(flag) && flag@ == "--model"@,
{
    Some("--model".to_string())
}

/// The agent that is used where none is configured.
pub fn default_agent_name() -> (r: String)
    ensures
        r@ == "codex"@,
{
    "codex".to_string()
}

/// The integration policy that is used where none is configured.
pub fn default_integration_policy() -> (r: String)
    ensures
        r@ == "auto_apply_safe"@,
{
    "auto_apply_safe".to_string()
}

/// The commit message that is used where none is configured.
pub fn default_auto_commit_message() -> (r: String)
    ensures
        r@ == "agentd: finalize session {session_id}"@,
{
    "agentd: finalize session {session_id}".to_string()
}

/// Whether an agent is started by its own name alone.
pub open spec fn plain_agent(agent: AgentConfig, name: Seq<char>) -> bool {
    &&& agent.command@ == name
    &&& agent.args@.len() == 0
    &&& agent.model_flag matches Some(flag) && flag@ == "--model"@
}

/// An agent that is started by its own name alone.
fn plain_agent_of(name: &str) -> (r: AgentConfig)
    ensures
        plain_agent(r, name@),
{
    AgentConfig { command: name.to_string(), args: Vec::new(), model_flag: default_model_flag() }
}

impl Default for GitConfig {
    fn default() -> (r: Self)
        ensures
            r.default_integration_policy@ == "auto_apply_safe"@,
            r.auto_commit_message@ == "agentd: finalize session {session_id}"@,
    {
        GitConfig {
            default_integration_policy: default_integration_policy(),
            auto_commit_message: default_auto_commit_message(),
        }
    }
}

/// The agents of a configuration that nobody wrote: each is started by its own name alone.
pub open spec fn plain_entries(
    names: Seq<Seq<char>>,
    entries: Seq<(Seq<char>, AgentConfig)>,
) -> bool {
    &&& entry_keys(entries) == names
    &&& forall|i: int|
        0 <= i < entries.len() ==> plain_agent((#[trigger] entries[i]).1, entries[i].0)
}

/// One agent is there from the start; a user adds others in the file.
impl Default for Config {
    fn default() -> (r: Self)
        ensures
            r.default_agent@ == "codex"@,
            plain_entries(seq!["codex"@], r.entries()),
            r.git.default_integration_policy@ == "auto_apply_safe"@,
            r.git.auto_commit_message@ == "agentd: finalize session {session_id}"@,
            r.is_consistent(),
    {
        let mut agents = no_agents();
        put_agent(&mut agents, "codex".to_string(), plain_agent_of("codex"));
        let config = Config {
            default_agent: default_agent_name(),
            agents,
            git: GitConfig::default(),
        };
        assert(entry_keys(config.entries()) =~= seq!["codex"@]);
        config
    }
}

impl Config {
    /// The agents, in their order.
    pub open spec fn entries(&self) -> Seq<(Seq<char>, AgentConfig)> {
        agent_entries(self.agents)
    }

    /// Whether the default agent is one of the agents, where there are any.
    pub open spec fn is_consistent(&self) -> bool {
        self.entries().len() == 0 || has_entry(self.entries(), self.default_agent@)
    }

    /// A configuration whose agents come in the given order.
    pub fn with_agents(
        default_agent: String,
        agents: Vec<(String, AgentConfig)>,
        git: GitConfig,
    ) -> (r: Self)
        ensures
            r.default_agent == default_agent,
            r.git == git,
            r.entries() == collected(agents@),
    {
        let ghost all = agents@;
        let mut rest = agents;
        let mut map = no_agents();
        assert(all.take(0) =~= Seq::empty());
        assert(all.skip(0) =~= all);
        let ghost mut done: int = 0;
        while rest.len() > 0
            invariant
                0 <= done <= all.len(),
                done + rest@.len() == all.len(),
                rest@ == all.skip(done),
                agent_entries(map) == collected(all.take(done)),
            decreases rest.len(),
        {
            let (name, agent) = rest.remove(0);
            put_agent(&mut map, name, agent);
            proof {
                done = done + 1;
            }
            assert(rest@ =~= all.skip(done));
            assert(all.take(done).drop_last() =~= all.take(done - 1));
        }
        assert(all.take(done) =~= all);
        Config { default_agent, agents: map, git }
    }

    /// The names of the agents, in their order.
    pub fn agent_names(&self) -> (r: Vec<String>)
        ensures
            views(r@) == entry_keys(self.entries()),
    {
        names_of_agents(&self.agents)
    }

    /// The agent of the given name.
    pub fn require_agent<'a>(&'a self, paths: &AppPaths, name: &str) -> (r: Result<
        &'a AgentConfig,
        ConfigError,
    >)
        ensures
            match r {
                Ok(agent) => has_entry(self.entries(), name@) && *agent == self.entries()[entry_at(
                    self.entries(),
                    name@,
                )].1,
                Err(error) => !has_entry(self.entries(), name@) && error.text() == "agent `"@
                    + name@ + "` is not configured in "@ + paths.config@,
            },
    {
        match agent_named(&self.agents, name) {
            Some(agent) => Ok(agent),
            None => Err(
                ConfigError::UnknownAgent { name: name.to_string(), config: paths.config.clone() },
            ),
        }
    }

    /// The agent that is used where a request names none.
    pub fn default_agent_name<'a>(&'a self, paths: &AppPaths) -> (r: Result<&'a str, ConfigError>)
        ensures
            match r {
                Ok(name) => self.is_consistent() && name@ == self.default_agent@,
                Err(error) => !self.is_consistent() && error.text() == "default_agent `"@
                    + self.default_agent@ + "` is not configured under [agents] in "@
                    + paths.config@,
            },
    {
        if lacks_agents(&self.agents) {
            return Ok(self.default_agent.as_str());
        }
        if has_agent(&self.agents, self.default_agent.as_str()) {
            return Ok(self.default_agent.as_str());
        }
        Err(
            ConfigError::UnknownDefaultAgent {
                name: self.default_agent.clone(),
                config: paths.config.clone(),
            },
        )
    }

    /// The configuration itself where its default agent is known.
    pub fn validate(self, paths: &AppPaths) -> (r: Result<Self, ConfigError>)
        ensures
            match r {
                Ok(config) => self.is_consistent() && config == self,
                Err(error) => !self.is_consistent() && error.text() == "default_agent `"@
                    + self.default_agent@ + "` is not configured under [agents] in "@
                    + paths.config@,
            },
    {
        match self.default_agent_name(paths) {
            Ok(_) => {},
            Err(error) => {
                return Err(error);
            },
        }
        Ok(self)
    }
}

/// The entries of a map that was filled in the given order.
pub open spec fn collected(agents: Seq<(String, AgentConfig)>) -> Seq<(Seq<char>, AgentConfig)>
    decreases agents.len(),
{
    if agents.len() == 0 {
        Seq::empty()
    } else {
        with_entry(collected(agents.drop_last()), agents.last().0@, agents.last().1)
    }
}

// ---------------------------------------------------------------------------
// Laws
// ---------------------------------------------------------------------------
/// Where the searched entry stands.
proof fn entry_at_is_first(entries: Seq<(Seq<char>, AgentConfig)>, key: Seq<char>)
    ensures
        0 <= entry_at(entries, key) <= entries.len(),
        has_entry(entries, key) ==> entries[entry_at(entries, key)].0 == key,
        forall|i: int| 0 <= i < entry_at(entries, key) ==> entries[i].0 != key,
    decreases entries.len(),
{
    if entries.len() > 0 && entries[0].0 != key {
        entry_at_is_first(entries.skip(1), key);
        assert forall|i: int| 0 <= i < entry_at(entries, key) implies entries[i].0 != key by {
            if i > 0 {
                assert(entries[i] == entries.skip(1)[i - 1]);
            }
        }
    }
}

/// No agent is configured twice, in whatever order the agents come.
pub proof fn agents_are_distinct(agents: Seq<(String, AgentConfig)>)
    ensures
        entry_keys(collected(agents)).no_duplicates(),
    decreases agents.len(),
{
    if agents.len() > 0 {
        let front = collected(agents.drop_last());
        let key = agents.last().0@;
        agents_are_distinct(agents.drop_last());
        entry_at_is_first(front, key);
        let keys = entry_keys(collected(agents));
        if has_entry(front, key) {
            assert(keys =~= entry_keys(front));
        } else {
            assert(keys =~= entry_keys(front).push(key));
        }
    }
}

/// Agents of different names keep the order in which they come.
pub proof fn agents_keep_their_order(agents: Seq<(String, AgentConfig)>)
    requires
        forall|i: int, j: int| 0 <= i < j < agents.len() ==> agents[i].0@ != agents[j].0@,
    ensures
        entry_keys(collected(agents)) == Seq::new(agents.len(), |i: int| agents[i].0@),
    decreases agents.len(),
{
    let names = Seq::new(agents.len(), |i: int| agents[i].0@);
    if agents.len() > 0 {
        let rest = agents.drop_last();
        let front = collected(rest);
        let key = agents.last().0@;
        agents_keep_their_order(rest);
        entry_at_is_first(front, key);
        assert(entry_keys(front).len() == rest.len());
        assert forall|i: int| 0 <= i < rest.len() implies front[i].0 == agents[i].0@ by {
            assert(entry_keys(front)[i] == rest[i].0@);
        }
        if has_entry(front, key) {
            let at = entry_at(front, key);
            assert(agents[at].0@ == agents[agents.len() - 1].0@);
        }
        assert(entry_keys(collected(agents)) =~= names);
    } else {
        assert(entry_keys(collected(agents)) =~= names);
    }
}

} // verus!
