use vstd::prelude::*;

verus! {

/// What an agent with MCP support is built from: the tools it may call, its system
/// prompt, and its call options.
pub struct McpAgentSettings<T, O> {
    /// The regular tools followed by the MCP tools.
    pub tools: Vec<T>,
    /// The system prompt.
    pub prefix: Option<String>,
    /// The call options.
    pub options: Option<O>,
}

/// Collects the tools and settings of an agent with MCP support.
pub struct McpAgentBuilder<T, O> {
    tools: Option<Vec<T>>,
    mcp_tools: Option<Vec<T>>,
    prefix: Option<String>,
    options: Option<O>,
}

impl<T, O> McpAgentBuilder<T, O> {
    /// The regular tools, the MCP tools, the system prompt and the call options.
    pub closed spec fn parts(&self) -> (Option<Vec<T>>, Option<Vec<T>>, Option<String>, Option<O>) {
        (self.tools, self.mcp_tools, self.prefix, self.options)
    }

    /// A builder with nothing set.
    pub fn new() -> (r: Self)
        ensures
            r.parts() == (None::<Vec<T>>, None::<Vec<T>>, None::<String>, None::<O>),
    {
        McpAgentBuilder { tools: None, mcp_tools: None, prefix: None, options: None }
    }

    /// Sets the regular tools.
    pub fn tools(self, tools: Vec<T>) -> (r: Self)
        ensures
            r.parts() == (Some(tools), self.parts().1, self.parts().2, self.parts().3),
    {
        McpAgentBuilder { tools: Some(tools), ..self }
    }

    /// Sets the MCP tools.
    pub fn mcp_tools_direct(self, tools: Vec<T>) -> (r: Self)
        ensures
            r.parts() == (self.parts().0, Some(tools), self.parts().2, self.parts().3),
    {
        McpAgentBuilder { mcp_tools: Some(tools), ..self }
    }

    /// Sets the system prompt.
    pub fn prefix(self, prefix: &str) -> (r: Self)
        ensures
            r.parts().2 matches Some(p) && p@ == prefix@,
            r.parts().0 == self.parts().0,
            r.parts().1 == self.parts().1,
            r.parts().3 == self.parts().3,
    {
        McpAgentBuilder { prefix: Some(String::from_str(prefix)), ..self }
    }

    /// Sets the call options.
    pub fn options(self, options: O) -> (r: Self)
        ensures
            r.parts() == (self.parts().0, self.parts().1, self.parts().2, Some(options)),
    {
        McpAgentBuilder { options: Some(options), ..self }
    }

    /// The regular tools, if set.
    pub fn get_tools(&self) -> (r: &Option<Vec<T>>)
        ensures
            *r == self.parts().0,
    {
        &self.tools
    }

    /// The MCP tools, if set.
    pub fn get_mcp_tools(&self) -> (r: &Option<Vec<T>>)
        ensures
            *r == self.parts().1,
    {
        &self.mcp_tools
    }

    /// The system prompt, if set.
    pub fn get_prefix(&self) -> (r: &Option<String>)
        ensures
            *r == self.parts().2,
    {
        &self.prefix
    }

    /// The call options, if set.
    pub fn get_options(&self) -> (r: &Option<O>)
        ensures
            *r == self.parts().3,
    {
        &self.options
    }

    /// The settings of the agent: the regular tools followed by the MCP tools (an unset list
    /// counts as empty), the system prompt and the call options.
    pub fn build(self) -> (r: McpAgentSettings<T, O>)
        ensures
            r.tools@ == (match self.parts().0 {
                Some(v) => v@,
                None => Seq::empty(),
            }) + (match self.parts().1 {
                Some(v) => v@,
                None => Seq::empty(),
            }),
            r.prefix == self.parts().2,
            r.options == self.parts().3,
    {
        let mut all_tools = match self.tools {
            Some(v) => v,
            None => Vec::new(),
        };
        match self.mcp_tools {
            Some(v) => {
                let mut more = v;
                all_tools.append(&mut more);
            },
            None => {},
        }
        McpAgentSettings { tools: all_tools, prefix: self.prefix, options: self.options }
    }
}

} // verus!
