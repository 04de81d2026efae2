use vstd::prelude::*;

verus! {

/// How an MCP client reaches its server.
#[derive(Debug, Clone)]
pub enum McpTransport {
    /// Server-sent events at the given URL.
    Sse { server_url: String },
    /// The process's own standard input and output.
    Stdio,
    /// A child process started with the given command and arguments.
    ChildProcess { command: String, args: Vec<String> },
    /// Streamable HTTP at the given URL.
    StreamableHttp { server_url: String },
}

/// Settings of an MCP client.
#[derive(Debug, Clone)]
pub struct McpClientConfig {
    /// How the server is reached.
    pub transport: McpTransport,
    /// Name the client announces.
    pub client_name: String,
    /// Version the client announces.
    pub client_version: String,
    /// Protocol version to ask for; the latest when absent.
    pub protocol_version: Option<String>,
}

/// The identity a client announces unless told otherwise.
pub open spec fn default_identity(c: McpClientConfig) -> bool {
    &&& c.client_name@ == "langchain-rust-mcp-client"@
    &&& c.client_version@ == "0.1.0"@
    &&& c.protocol_version is None
}

impl Default for McpClientConfig {
    /// Server-sent events on the local default port, with the default identity.
    fn default() -> (r: Self)
        ensures
            r.transport matches McpTransport::Sse { server_url } && server_url@
                == "http://127.0.0.1:8000/sse"@,
            default_identity(r),
    {
        McpClientConfig::with_transport(
            McpTransport::Sse { server_url: String::from_str("http://127.0.0.1:8000/sse") },
        )
    }
}

impl McpClientConfig {
    fn with_transport(transport: McpTransport) -> (r: Self)
        ensures
            r.transport == transport,
            default_identity(r),
    {
        McpClientConfig {
            transport,
            client_name: String::from_str("langchain-rust-mcp-client"),
            client_version: String::from_str("0.1.0"),
            protocol_version: None,
        }
    }

    /// Server-sent events at `server_url`, with the default identity.
    pub fn new_sse(server_url: &str) -> (r: Self)
        ensures
            r.transport matches McpTransport::Sse { server_url: u } && u@ == server_url@,
            default_identity(r),
    {
        McpClientConfig::with_transport(McpTransport::Sse { server_url: String::from_str(server_url) })
    }

    /// Standard input and output, with the default identity.
    pub fn new_stdio() -> (r: Self)
        ensures
            r.transport is Stdio,
            default_identity(r),
    {
        McpClientConfig::with_transport(McpTransport::Stdio)
    }

    /// A child process running `command` with `args`, with the default identity.
    pub fn new_child_process(command: &str, args: Vec<String>) -> (r: Self)
        ensures
            r.transport matches McpTransport::ChildProcess { command: c, args: a } && c@ == command@
                && a == args,
            default_identity(r),
    {
        McpClientConfig::with_transport(
            McpTransport::ChildProcess { command: String::from_str(command), args },
        )
    }

    /// Streamable HTTP at `server_url`, with the default identity.
    pub fn new_streamable_http(server_url: &str) -> (r: Self)
        ensures
            r.transport matches McpTransport::StreamableHttp { server_url: u } && u@ == server_url@,
            default_identity(r),
    {
        McpClientConfig::with_transport(
            McpTransport::StreamableHttp { server_url: String::from_str(server_url) },
        )
    }

    /// Sets the name the client announces.
    pub fn with_client_name(self, name: &str) -> (r: Self)
        ensures
            r.client_name@ == name@,
            r.transport == self.transport,
            r.client_version == self.client_version,
            r.protocol_version == self.protocol_version,
    {
        McpClientConfig { client_name: String::from_str(name), ..self }
    }

    /// Sets the version the client announces.
    pub fn with_client_version(self, version: &str) -> (r: Self)
        ensures
            r.client_version@ == version@,
            r.transport == self.transport,
            r.client_name == self.client_name,
            r.protocol_version == self.protocol_version,
    {
        McpClientConfig { client_version: String::from_str(version), ..self }
    }

    /// Sets the protocol version to ask for.
    pub fn with_protocol_version(self, version: &str) -> (r: Self)
        ensures
            r.protocol_version matches Some(v) && v@ == version@,
            r.transport == self.transport,
            r.client_name == self.client_name,
            r.client_version == self.client_version,
    {
        McpClientConfig { protocol_version: Some(String::from_str(version)), ..self }
    }
}

} // verus!
