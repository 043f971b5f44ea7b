//! Agents as they are kept: their settings, their names, and the system
//! prompt that their settings make.

use vstd::prelude::*;
use crate::changes::{normalize_path, normalized};
use crate::text::{
    byte_len, chars_of, joined3, extend_str, lowercase, lowercase_of, str_eq, string_of, trim,
    trim_spec, utf8_len,
};
use crate::tool_args::opt_view;

verus! {

/// The settings of an agent. Times are in seconds since the epoch.
#[derive(Debug, Clone)]
pub struct AgentConfig {
    pub name: String,
    pub created_at: i64,
    pub last_active: i64,
    pub description: Option<String>,
    pub personality: Option<String>,
    pub system_prompt_override: Option<String>,
    pub system_prompt_additions: Option<String>,
    pub memory_enabled: bool,
    pub max_routine_memories: usize,
    pub max_key_memories: usize,
    pub auto_summarize: bool,
    pub total_conversations: usize,
    pub total_messages: usize,
}

/// What is shown of an agent in a list.
#[derive(Debug, Clone)]
pub struct AgentInfo {
    pub name: String,
    pub description: Option<String>,
    pub last_active: i64,
    pub total_conversations: usize,
    pub memory_enabled: bool,
}

impl AgentConfig {
    /// The settings of an agent that is made at the time `now`.
    pub fn new(name: &str, now: i64) -> (c: Self)
        ensures
            c.name@ == name@,
            c.created_at == now,
            c.last_active == now,
            c.description is None,
            c.personality is None,
            c.system_prompt_override is None,
            c.system_prompt_additions is None,
            c.memory_enabled,
            c.max_routine_memories == 10000,
            c.max_key_memories == 1000,
            !c.auto_summarize,
            c.total_conversations == 0,
            c.total_messages == 0,
    {
        AgentConfig {
            name: name.to_owned(),
            created_at: now,
            last_active: now,
            description: None,
            personality: None,
            system_prompt_override: None,
            system_prompt_additions: None,
            memory_enabled: true,
            max_routine_memories: 10000,
            max_key_memories: 1000,
            auto_summarize: false,
            total_conversations: 0,
            total_messages: 0,
        }
    }

    /// What is shown of the agent in a list.
    pub fn info(&self) -> (i: AgentInfo)
        ensures
            i.name@ == self.name@,
            opt_view(i.description) == opt_view(self.description),
            i.last_active == self.last_active,
            i.total_conversations == self.total_conversations,
            i.memory_enabled == self.memory_enabled,
    {
        AgentInfo {
            name: self.name.clone(),
            description: match &self.description {
                Some(d) => Some(d.clone()),
                None => None,
            },
            last_active: self.last_active,
            total_conversations: self.total_conversations,
            memory_enabled: self.memory_enabled,
        }
    }
}

/// Whether a character may stand in the name of an agent.
pub open spec fn is_name_char(c: char) -> bool {
    ('a' <= c && c <= 'z') || ('A' <= c && c <= 'Z') || ('0' <= c && c <= '9') || c == '_' || c
        == '-'
}

/// Whether every character of a name may stand in the name of an agent.
pub open spec fn is_single_word(name: Seq<char>) -> bool {
    forall|i: int| 0 <= i < name.len() ==> is_name_char(#[trigger] name[i])
}

/// Whether a name in lower case is kept for other uses.
pub open spec fn is_reserved(lowered: Seq<char>) -> bool {
    lowered == "."@ || lowered == ".."@ || lowered == "default"@ || lowered == "system"@
        || lowered == "admin"@ || lowered == "root"@
}

/// Why a name cannot be the name of an agent, if it cannot: it is empty,
/// holds a character other than letters, digits, `_` and `-`, takes more
/// than 50 bytes, or is kept for other uses, letter case aside.
pub open spec fn name_fault(name: Seq<char>) -> Option<Seq<char>> {
    if name.len() == 0 {
        Some("Agent name cannot be empty"@)
    } else if !is_single_word(name) {
        Some("Agent name must be a single word (letters, numbers, _, -)"@)
    } else if utf8_len(name) > 50 {
        Some("Agent name too long (max 50 characters)"@)
    } else if is_reserved(lowercase_of(name)) {
        Some("Agent name '"@ + name + "' is reserved"@)
    } else {
        None
    }
}

/// Whether a name in lower case is kept for other uses.
pub fn is_reserved_name(lowered: &str) -> (r: bool)
    ensures
        r == is_reserved(lowered@),
{
    str_eq(lowered, ".") || str_eq(lowered, "..") || str_eq(lowered, "default") || str_eq(
        lowered,
        "system",
    ) || str_eq(lowered, "admin") || str_eq(lowered, "root")
}

/// Checks that a name can be the name of an agent.
#[verifier::loop_isolation(false)]
pub fn validate_name(name: &str) -> (r: Result<(), String>)
    ensures
        match r {
            Ok(_) => name_fault(name@) is None,
            Err(e) => name_fault(name@) == Some(e@),
        },
{
    let v = chars_of(name);
    if v.len() == 0 {
        return Err("Agent name cannot be empty".to_owned());
    }
    let mut i: usize = 0;
    while i < v.len()
        invariant
            i <= v@.len(),
            forall|j: int| 0 <= j < i ==> is_name_char(#[trigger] v@[j]),
        decreases v@.len() - i,
    {
        let c = v[i];
        if !((c >= 'a' && c <= 'z') || (c >= 'A' && c <= 'Z') || (c >= '0' && c <= '9') || c == '_'
            || c == '-') {
            assert(!is_name_char(v@[i as int]));
            return Err("Agent name must be a single word (letters, numbers, _, -)".to_owned());
        }
        i += 1;
    }
    if byte_len(name) > 50 {
        return Err("Agent name too long (max 50 characters)".to_owned());
    }
    if is_reserved_name(lowercase(name).as_str()) {
        return Err(joined3("Agent name '", name, "' is reserved"));
    }
    Ok(())
}

/// The system prompt that the settings of an agent make of a base prompt:
/// what the agent's own prompt file holds, after the base prompt, where
/// there is such a file; else the prompt that the settings put in place of
/// everything, where they do; else the base prompt, who the agent is, and
/// what the settings add.
pub open spec fn system_prompt_spec(
    config: AgentConfig,
    base_prompt: Seq<char>,
    agent_file_prompt: Option<Seq<char>>,
) -> Seq<char> {
    match agent_file_prompt {
        Some(file_prompt) => base_prompt + "\n\n"@ + file_prompt,
        None => match config.system_prompt_override {
            Some(whole) => whole@,
            None => base_prompt + "\n\n# Agent Identity\n\nYou are "@ + config.name@ + (
            match config.description {
                Some(d) => ", "@ + d@,
                None => Seq::empty(),
            }) + "."@ + (match config.personality {
                Some(p) => "\n\nPersonality: "@ + p@,
                None => Seq::empty(),
            }) + (match config.system_prompt_additions {
                Some(a) => "\n\n"@ + a@,
                None => Seq::empty(),
            }),
        },
    }
}

/// The system prompt of an agent.
pub fn build_system_prompt(
    agent_config: &AgentConfig,
    base_prompt: &str,
    agent_file_prompt: Option<&str>,
) -> (r: String)
    ensures
        r@ == system_prompt_spec(
            *agent_config,
            base_prompt@,
            match agent_file_prompt {
                Some(p) => Some(p@),
                None => None,
            },
        ),
{
    match agent_file_prompt {
        Some(file_prompt) => {
            return joined3(base_prompt, "\n\n", file_prompt);
        },
        None => {},
    }
    match &agent_config.system_prompt_override {
        Some(whole) => {
            return whole.clone();
        },
        None => {},
    }
    let mut out = chars_of(base_prompt);
    extend_str(&mut out, "\n\n# Agent Identity\n\nYou are ");
    extend_str(&mut out, agent_config.name.as_str());
    let ghost a = out@;
    match &agent_config.description {
        Some(d) => {
            extend_str(&mut out, ", ");
            extend_str(&mut out, d.as_str());
            assert(out@ =~= a + (", "@ + d@));
        },
        None => {
            assert(out@ =~= a + Seq::<char>::empty());
        },
    }
    extend_str(&mut out, ".");
    let ghost b = out@;
    match &agent_config.personality {
        Some(p) => {
            extend_str(&mut out, "\n\nPersonality: ");
            extend_str(&mut out, p.as_str());
            assert(out@ =~= b + ("\n\nPersonality: "@ + p@));
        },
        None => {
            assert(out@ =~= b + Seq::<char>::empty());
        },
    }
    let ghost c = out@;
    match &agent_config.system_prompt_additions {
        Some(x) => {
            extend_str(&mut out, "\n\n");
            extend_str(&mut out, x.as_str());
            assert(out@ =~= c + ("\n\n"@ + x@));
        },
        None => {
            assert(out@ =~= c + Seq::<char>::empty());
        },
    }
    string_of(&out)
}

/// The prompt that an agent's own prompt file gives: what the file holds
/// without the whitespace around it, and nothing for a file that is not
/// there or holds nothing else.
pub fn prompt_from_file(content: Option<&str>) -> (r: Option<String>)
    ensures
        opt_view(r) == match content {
            Some(c) => if trim_spec(c@).len() == 0 {
                None
            } else {
                Some(trim_spec(c@))
            },
            None => None,
        },
{
    match content {
        Some(c) => {
            let trimmed = trim(c);
            if chars_of(trimmed.as_str()).len() == 0 {
                None
            } else {
                Some(trimmed)
            }
        },
        None => None,
    }
}

/// Where the agents are kept.
#[derive(Debug, Clone)]
pub struct AgentManager {
    agents_dir: String,
}

impl AgentManager {
    /// The directory in which the agents are kept.
    pub closed spec fn root(&self) -> Seq<char> {
        self.agents_dir@
    }

    /// The agents that are kept in `agents_dir`.
    pub fn new(agents_dir: String) -> (m: Self)
        ensures
            m.root() == agents_dir@,
    {
        AgentManager { agents_dir }
    }

    /// The directory of the agent `name`.
    pub fn agent_dir(&self, name: &str) -> (r: String)
        ensures
            r@ == normalized(self.root(), name@),
    {
        normalize_path(self.agents_dir.as_str(), name)
    }

    /// The file that holds the settings of the agent `name`.
    pub fn config_path(&self, name: &str) -> (r: String)
        ensures
            r@ == normalized(normalized(self.root(), name@), "agent.json"@),
    {
        normalize_path(self.agent_dir(name).as_str(), "agent.json")
    }

    /// The file that holds the agent's own prompt.
    pub fn prompt_path(&self, name: &str) -> (r: String)
        ensures
            r@ == normalized(normalized(self.root(), name@), "system_prompt.md"@),
    {
        normalize_path(self.agent_dir(name).as_str(), "system_prompt.md")
    }
}

} // verus!
