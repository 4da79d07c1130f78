//! Agents whose tools come from tool servers: the settings that name the
//! servers, and what such an agent is built from.
use crate::agent::{LLMAgent, LLMAgentBuilder, DEFAULT_MAX_TOOL_CALLS};
use crate::json::{members_view, Json, JsonMember, JsonView};
use crate::llm::{LLMError, LLM};
use crate::tools::FunTool;
use vstd::prelude::*;

verus! {

/// How a tool server is reached.
#[derive(Debug, Clone, PartialEq)]
pub enum McpServerTransportConfig {
    /// Over server-sent events at `url`.
    Sse { url: String },
    /// As a child process that is started with `command`, the arguments
    /// `args` and the environment `envs`.
    Stdio { command: String, args: Vec<String>, envs: Vec<(String, String)> },
}

/// One tool server.
#[derive(Debug, Clone, PartialEq)]
pub struct McpServerConfig {
    pub name: String,
    pub transport: McpServerTransportConfig,
}

/// The tool servers of an agent.
#[derive(Debug, Clone, PartialEq)]
pub struct McpConfig {
    pub server: Vec<McpServerConfig>,
}

/// The settings of an agent with tool servers.
#[derive(Debug, Clone, PartialEq)]
pub struct Config {
    pub mcp: Option<McpConfig>,
    pub model_name: Option<String>,
}

impl Config {
    /// The number of tool servers that the settings name.
    pub fn server_count(&self) -> (count: usize)
        ensures
            count == match self.mcp {
                Some(mcp) => mcp.server@.len(),
                None => 0,
            },
    {
        match &self.mcp {
            Some(mcp) => mcp.server.len(),
            None => 0,
        }
    }
}

/// The system prompt of an agent that is given none.
pub open spec fn default_system_prompt() -> Seq<char> {
    "\n        あなたは様々なツールを利用してユーザーの要望を叶えるエージェントです。\n        - ユーザーの要望に対して、必要なツールを選択し、適切な引数を指定して実行してください。\n        - ユーザーの要望が不明瞭な場合は、質問をして明確にしてください。\n        - ユーザーの要望が実行不可能な場合は、実行せずにその旨を伝えてください。また、代替案を提案してください。\n        "@
}

/// The file that holds the settings unless another is named.
pub open spec fn default_config_path() -> Seq<char> {
    "config.toml"@
}

/// The arguments of a tool call as a tool server takes them: the members of
/// an object, and nothing for any other document.
pub fn call_arguments(arguments: Json) -> (members: Option<Vec<JsonMember>>)
    ensures
        match members {
            Some(members) => arguments.deep_view() == JsonView::Object(members_view(members@)),
            None => !(arguments.deep_view() is Object),
        },
{
    proof {
        crate::json::lemma_json_view(arguments);
    }
    match arguments {
        Json::Object(members) => Some(members),
        _ => None,
    }
}

/// An agent whose tools come from tool servers.
pub struct MCPAgent<T: LLM, F: FunTool> {
    agent: LLMAgent<T, F>,
}

impl<T: LLM, F: FunTool> MCPAgent<T, F> {
    /// The agent that does the work.
    pub closed spec fn inner(&self) -> LLMAgent<T, F> {
        self.agent
    }

    /// The system prompt of the agent; empty where it has none.
    pub fn system_prompt(&self) -> (prompt: String)
        ensures
            prompt@ == match self.inner().prompt() {
                Some(prompt) => prompt,
                None => Seq::empty(),
            },
    {
        match self.agent.system_prompt() {
            Some(prompt) => prompt.clone(),
            None => String::new(),
        }
    }

    /// The tools of the agent.
    pub fn tools(&self) -> (tools: &Vec<F>)
        ensures
            tools@ == self.inner().registered(),
    {
        self.agent.tools().tools()
    }

    /// A builder for an agent on the provider `llm`.
    pub fn builder(llm: T) -> (builder: MCPAgentBuilder<T>)
        ensures
            builder.prompt() is None,
            builder.path() is None,
    {
        MCPAgentBuilder { llm, system_prompt: None, mcp_config_path: None }
    }

    /// The agent that does the work.
    pub fn into_agent(self) -> (agent: LLMAgent<T, F>)
        ensures
            agent == self.inner(),
    {
        self.agent
    }
}

/// Collects what an agent with tool servers is made of.
pub struct MCPAgentBuilder<T: LLM> {
    llm: T,
    system_prompt: Option<String>,
    mcp_config_path: Option<String>,
}

impl<T: LLM> MCPAgentBuilder<T> {
    /// The system prompt that was set.
    pub closed spec fn prompt(&self) -> Option<Seq<char>> {
        self.system_prompt.deep_view()
    }

    /// The settings file that was named.
    pub closed spec fn path(&self) -> Option<Seq<char>> {
        self.mcp_config_path.deep_view()
    }

    /// Sets the system prompt.
    pub fn with_system_prompt(self, system_prompt: &str) -> (builder: MCPAgentBuilder<T>)
        ensures
            builder.prompt() == Some(system_prompt@),
            builder.path() == self.path(),
    {
        let mut builder = self;
        builder.system_prompt = Some(system_prompt.to_owned());
        builder
    }

    /// Names the file that holds the settings.
    pub fn with_mcp_config_path(self, mcp_config_path: &str) -> (builder: MCPAgentBuilder<T>)
        ensures
            builder.prompt() == self.prompt(),
            builder.path() == Some(mcp_config_path@),
    {
        let mut builder = self;
        builder.mcp_config_path = Some(mcp_config_path.to_owned());
        builder
    }

    /// The file that holds the settings: the one that was named, or
    /// `config.toml`.
    pub fn config_path(&self) -> (path: String)
        ensures
            path@ == match self.path() {
                Some(path) => path,
                None => default_config_path(),
            },
    {
        match &self.mcp_config_path {
            Some(path) => path.clone(),
            None => "config.toml".to_owned(),
        }
    }

    /// The agent: it has the system prompt that was set, or the default one,
    /// and no tool of its own.
    pub fn build<F: FunTool>(self) -> (outcome: Result<MCPAgent<T, F>, LLMError>)
        ensures
            outcome matches Ok(agent) && agent.inner().prompt() == Some(
                match self.prompt() {
                    Some(prompt) => prompt,
                    None => default_system_prompt(),
                },
            ) && agent.inner().registered() == Seq::<F>::empty() && agent.inner().limit()
                == DEFAULT_MAX_TOOL_CALLS,
    {
        let system_prompt = match self.system_prompt {
            Some(prompt) => prompt,
            None => "\n        あなたは様々なツールを利用してユーザーの要望を叶えるエージェントです。\n        - ユーザーの要望に対して、必要なツールを選択し、適切な引数を指定して実行してください。\n        - ユーザーの要望が不明瞭な場合は、質問をして明確にしてください。\n        - ユーザーの要望が実行不可能な場合は、実行せずにその旨を伝えてください。また、代替案を提案してください。\n        ".to_owned(),
        };
        let builder: LLMAgentBuilder<T, F> = LLMAgent::builder(self.llm);
        match builder.with_system_prompt(system_prompt.as_str()).build() {
            Ok(agent) => Ok(MCPAgent { agent }),
            Err(error) => Err(error),
        }
    }
}

} // verus!
