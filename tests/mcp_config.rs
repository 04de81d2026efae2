use team_orchestra::mcp_agent::McpAgentBuilder;
use team_orchestra::mcp_client::{McpClientConfig, McpTransport};
use team_orchestra::mcp_executor::{McpAgentExecutor, McpExecutionConfig};

#[test]
fn client_test_mcp_client_config_sse() {
    let config = McpClientConfig::new_sse("http://localhost:8080/sse")
        .with_client_name("test-client")
        .with_client_version("1.0.0");

    match &config.transport {
        McpTransport::Sse { server_url } => {
            assert_eq!(server_url, "http://localhost:8080/sse");
        }
        _ => panic!("Expected SSE transport"),
    }
    assert_eq!(config.client_name, "test-client");
    assert_eq!(config.client_version, "1.0.0");
}

#[test]
fn client_test_mcp_client_config_stdio() {
    let config = McpClientConfig::new_stdio().with_client_name("stdio-client");

    match &config.transport {
        McpTransport::Stdio => {}
        _ => panic!("Expected stdio transport"),
    }
    assert_eq!(config.client_name, "stdio-client");
}

#[test]
fn test_mcp_client_config_child_process() {
    let config = McpClientConfig::new_child_process(
        "python",
        vec!["-m".to_string(), "mcp_server".to_string()],
    );

    match &config.transport {
        McpTransport::ChildProcess { command, args } => {
            assert_eq!(command, "python");
            assert_eq!(args, &vec!["-m".to_string(), "mcp_server".to_string()]);
        }
        _ => panic!("Expected child process transport"),
    }
}

#[test]
fn test_mcp_client_config_streamable_http() {
    let config = McpClientConfig::new_streamable_http("http://localhost:8080/stream");

    match &config.transport {
        McpTransport::StreamableHttp { server_url } => {
            assert_eq!(server_url, "http://localhost:8080/stream");
        }
        _ => panic!("Expected streamable HTTP transport"),
    }
}

#[test]
fn client_test_default_config() {
    let config = McpClientConfig::default();
    match &config.transport {
        McpTransport::Sse { server_url } => {
            assert_eq!(server_url, "http://127.0.0.1:8000/sse");
        }
        _ => panic!("Expected SSE transport as default"),
    }
    assert_eq!(config.client_name, "langchain-rust-mcp-client");
    assert_eq!(config.client_version, "0.1.0");
}

#[test]
fn tests_test_mcp_client_config_sse() {
    let config = McpClientConfig::new_sse("http://localhost:8080/sse")
        .with_client_name("test-client")
        .with_client_version("1.0.0");

    match &config.transport {
        McpTransport::Sse { server_url } => {
            assert_eq!(server_url, "http://localhost:8080/sse");
        }
        _ => panic!("Expected SSE transport"),
    }
    assert_eq!(config.client_name, "test-client");
    assert_eq!(config.client_version, "1.0.0");
}

#[test]
fn tests_test_mcp_client_config_stdio() {
    let config = McpClientConfig::new_stdio().with_client_name("stdio-client");

    match &config.transport {
        McpTransport::Stdio => {}
        _ => panic!("Expected stdio transport"),
    }
    assert_eq!(config.client_name, "stdio-client");
}

#[test]
fn tests_test_default_config() {
    let config = McpClientConfig::default();
    match &config.transport {
        McpTransport::Sse { server_url } => {
            assert_eq!(server_url, "http://127.0.0.1:8000/sse");
        }
        _ => panic!("Expected SSE transport as default"),
    }
    assert_eq!(config.client_name, "langchain-rust-mcp-client");
    assert_eq!(config.client_version, "0.1.0");
}

#[test]
fn protocol_version_is_kept() {
    let config = McpClientConfig::new_stdio().with_protocol_version("2025-03-26");
    assert_eq!(config.protocol_version.as_deref(), Some("2025-03-26"));
    assert_eq!(config.client_name, "langchain-rust-mcp-client");
}

#[test]
fn test_mcp_agent_builder_creation() {
    let builder: McpAgentBuilder<String, u32> = McpAgentBuilder::new();
    assert!(builder.get_tools().is_none());
    assert!(builder.get_mcp_tools().is_none());
    assert!(builder.get_prefix().is_none());
    assert!(builder.get_options().is_none());
}

#[test]
fn test_mcp_agent_builder_with_prefix() {
    let builder: McpAgentBuilder<String, u32> = McpAgentBuilder::new().prefix("Test prefix");
    assert_eq!(builder.get_prefix().as_ref().unwrap(), "Test prefix");
}

#[test]
fn mcp_agent_build_puts_regular_tools_first() {
    let settings = McpAgentBuilder::new()
        .mcp_tools_direct(vec!["mcp_search".to_string()])
        .tools(vec!["calculator".to_string(), "clock".to_string()])
        .options(7u32)
        .build();
    assert_eq!(
        settings.tools,
        vec!["calculator".to_string(), "clock".to_string(), "mcp_search".to_string()]
    );
    assert_eq!(settings.options, Some(7));
    assert!(settings.prefix.is_none());
}

#[test]
fn test_mcp_execution_config_default() {
    let config = McpExecutionConfig::default();
    assert!(config.parallel_execution);
    assert_eq!(config.max_parallel_calls, 5);
    assert_eq!(config.tool_timeout_ms, 30000);
    assert!(config.retry_on_failure);
    assert_eq!(config.max_retries, 2);
}

#[test]
fn test_mcp_agent_executor_configuration() {
    let executor = McpAgentExecutor::new("agent")
        .with_max_iterations(5)
        .with_break_on_error(false)
        .with_parallel_execution(true)
        .with_max_parallel_calls(3);

    assert_eq!(executor.max_iterations(), 5);
    assert!(!executor.break_on_error());
    assert!(executor.mcp_config().parallel_execution);
    assert_eq!(executor.mcp_config().max_parallel_calls, 3);
}

#[test]
fn test_mcp_tool_detection() {
    let executor = McpAgentExecutor::new("agent");
    assert!(executor.is_mcp_tool("mcp_tool1", "A test tool", false));
    assert!(!executor.is_mcp_tool("regular_tool1", "A test tool", false));
}

#[test]
fn mcp_tool_detection_reads_description_and_parameters() {
    let executor = McpAgentExecutor::new("agent");
    assert!(executor.is_mcp_tool("search", "Search through MCP", false));
    assert!(executor.is_mcp_tool("search", "Served over the Model Context Protocol", false));
    assert!(executor.is_mcp_tool("search", "Plain search", true));
    assert!(!executor.is_mcp_tool("my_mcp", "model context", false));
}
