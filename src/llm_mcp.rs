use vstd::prelude::*;

verus! {

/// How a language-model client reaches an MCP endpoint.
#[derive(Debug, Clone)]
pub enum McpTransport {
    /// A line-delimited stream at the given address or command.
    Stream(String),
}

} // verus!
