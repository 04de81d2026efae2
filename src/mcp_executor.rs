use vstd::prelude::*;

verus! {

/// What happens while an agent runs with MCP tools.
#[derive(Debug, Clone)]
pub enum McpAgentEvent {
    /// The agent is planning its next step.
    Planning,
    /// The agent calls one tool.
    ToolCall { tool_name: String, tool_input: String },
    /// The agent calls several tools in parallel.
    ParallelToolCalls { tool_names: Vec<String>, count: usize },
    /// One tool call completed.
    ToolResult { tool_name: String, result: String, execution_time_ms: u64 },
    /// Several tool calls completed: `(tool name, result, milliseconds)` each.
    ParallelToolResults { results: Vec<(String, String, u64)> },
    /// The agent reached its final answer.
    Finished { output: String },
    /// The run failed.
    Error { error: String },
    /// An MCP tool failed; the run may recover from it.
    McpError { error: String, tool_name: String, recoverable: bool },
}

/// How MCP tool calls are carried out.
#[derive(Debug, Clone)]
pub struct McpExecutionConfig {
    /// Whether several tool calls of one step run in parallel.
    pub parallel_execution: bool,
    /// Most tool calls that run at once.
    pub max_parallel_calls: usize,
    /// Bound on one tool call, in milliseconds.
    pub tool_timeout_ms: u64,
    /// Whether a failed call is tried again.
    pub retry_on_failure: bool,
    /// Most further tries of a failed call.
    pub max_retries: usize,
}

impl Default for McpExecutionConfig {
    /// Parallel calls, at most five at once, thirty seconds each, two retries.
    fn default() -> (r: Self)
        ensures
            r.parallel_execution,
            r.max_parallel_calls == 5,
            r.tool_timeout_ms == 30000,
            r.retry_on_failure,
            r.max_retries == 2,
    {
        McpExecutionConfig {
            parallel_execution: true,
            max_parallel_calls: 5,
            tool_timeout_ms: 30000,
            retry_on_failure: true,
            max_retries: 2,
        }
    }
}

/// `s` begins with `p`.
pub open spec fn has_prefix(s: Seq<char>, p: Seq<char>) -> bool {
    p.len() <= s.len() && s.subrange(0, p.len() as int) == p
}

/// `p` occurs somewhere in `s`.
pub open spec fn has_infix(s: Seq<char>, p: Seq<char>) -> bool {
    exists|i: int| 0 <= i && i + p.len() <= s.len() && #[trigger] s.subrange(i, i + p.len()) == p
}

/// Relies on str::starts_with with a string pattern: whether `s` begins with `prefix`.
#[verifier::external_body]
fn text_starts_with(s: &str, prefix: &str) -> (r: bool)
    ensures
        r == has_prefix(s@, prefix@),
{
    s.starts_with(prefix)
}

/// Relies on str::contains with a string pattern: whether `needle` occurs in `s`.
#[verifier::external_body]
fn text_contains(s: &str, needle: &str) -> (r: bool)
    ensures
        r == has_infix(s@, needle@),
{
    s.contains(needle)
}

/// The tool named `name`, described by `description`, is taken for an MCP tool.
pub open spec fn looks_like_mcp_tool(name: Seq<char>, description: Seq<char>, declares_mcp_server: bool) -> bool {
    has_prefix(name, "mcp_"@) || has_infix(description, "MCP"@) || has_infix(
        description,
        "Model Context Protocol"@,
    ) || declares_mcp_server
}

/// Runs an agent step by step, calling the tools it asks for.
pub struct McpAgentExecutor<A> {
    agent: A,
    max_iterations: usize,
    break_on_error: bool,
    mcp_config: McpExecutionConfig,
}

impl<A> McpAgentExecutor<A> {
    /// The agent, the most steps, whether the run stops at the first error, and the call settings.
    pub closed spec fn parts(&self) -> (A, usize, bool, McpExecutionConfig) {
        (self.agent, self.max_iterations, self.break_on_error, self.mcp_config)
    }

    /// At most ten steps, stopping at the first error, with the default call settings.
    pub fn new(agent: A) -> (r: Self)
        ensures
            r.parts() == (agent, 10usize, true, McpExecutionConfig::default_settings()),
    {
        McpAgentExecutor {
            agent,
            max_iterations: 10,
            break_on_error: true,
            mcp_config: McpExecutionConfig::default(),
        }
    }

    /// Sets the most steps.
    pub fn with_max_iterations(self, max_iterations: usize) -> (r: Self)
        ensures
            r.parts() == (self.parts().0, max_iterations, self.parts().2, self.parts().3),
    {
        McpAgentExecutor { max_iterations, ..self }
    }

    /// Sets whether the run stops at the first error.
    pub fn with_break_on_error(self, break_on_error: bool) -> (r: Self)
        ensures
            r.parts() == (self.parts().0, self.parts().1, break_on_error, self.parts().3),
    {
        McpAgentExecutor { break_on_error, ..self }
    }

    /// Replaces the call settings.
    pub fn with_mcp_config(self, config: McpExecutionConfig) -> (r: Self)
        ensures
            r.parts() == (self.parts().0, self.parts().1, self.parts().2, config),
    {
        McpAgentExecutor { mcp_config: config, ..self }
    }

    /// Sets whether several tool calls of one step run in parallel.
    pub fn with_parallel_execution(self, enabled: bool) -> (r: Self)
        ensures
            r.parts() == (self.parts().0, self.parts().1, self.parts().2, McpExecutionConfig {
                parallel_execution: enabled,
                ..self.parts().3
            }),
    {
        let mut s = self;
        s.mcp_config.parallel_execution = enabled;
        s
    }

    /// Sets the most tool calls that run at once.
    pub fn with_max_parallel_calls(self, max_calls: usize) -> (r: Self)
        ensures
            r.parts() == (self.parts().0, self.parts().1, self.parts().2, McpExecutionConfig {
                max_parallel_calls: max_calls,
                ..self.parts().3
            }),
    {
        let mut s = self;
        s.mcp_config.max_parallel_calls = max_calls;
        s
    }

    /// The agent being run.
    pub fn agent(&self) -> (r: &A)
        ensures
            *r == self.parts().0,
    {
        &self.agent
    }

    /// The most steps.
    pub fn max_iterations(&self) -> (r: usize)
        ensures
            r == self.parts().1,
    {
        self.max_iterations
    }

    /// Whether the run stops at the first error.
    pub fn break_on_error(&self) -> (r: bool)
        ensures
            r == self.parts().2,
    {
        self.break_on_error
    }

    /// The call settings.
    pub fn mcp_config(&self) -> (r: &McpExecutionConfig)
        ensures
            *r == self.parts().3,
    {
        &self.mcp_config
    }

    /// Whether a tool is taken for an MCP tool: its name begins with `mcp_`, its description
    /// mentions MCP or the Model Context Protocol, or its parameters declare an MCP server.
    pub fn is_mcp_tool(&self, name: &str, description: &str, declares_mcp_server: bool) -> (r: bool)
        ensures
            r == looks_like_mcp_tool(name@, description@, declares_mcp_server),
    {
        text_starts_with(name, "mcp_") || text_contains(description, "MCP") || text_contains(
            description,
            "Model Context Protocol",
        ) || declares_mcp_server
    }
}

impl McpExecutionConfig {
    /// The default call settings.
    pub open spec fn default_settings() -> McpExecutionConfig {
        McpExecutionConfig {
            parallel_execution: true,
            max_parallel_calls: 5,
            tool_timeout_ms: 30000,
            retry_on_failure: true,
            max_retries: 2,
        }
    }
}

} // verus!
