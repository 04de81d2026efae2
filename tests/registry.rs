use team_orchestra::universal_integration::{AgentRegistry, UniversalAgentTool};

#[test]
fn universal_tool_defaults() {
    let tool = UniversalAgentTool::from_agent(7u32);
    assert_eq!(tool.name(), "agent_tool");
    assert_eq!(tool.description(), "A universal agent tool that can execute any agent");
    assert_eq!(tool.timeout(), None);
    assert_eq!(*tool.agent(), 7);
    let tool = UniversalAgentTool::new(1u32, "calc", "Adds numbers").with_timeout(9);
    assert_eq!(tool.name(), "calc");
    assert_eq!(tool.description(), "Adds numbers");
    assert_eq!(tool.timeout(), Some(9));
}

#[test]
fn registry_registers_and_replaces() {
    let mut registry = AgentRegistry::new();
    registry.register("writer", 1u32);
    registry.register("critic", 2u32);
    registry.register("writer", 3u32);
    assert_eq!(registry.agent_names(), vec!["writer".to_string(), "critic".to_string()]);
    assert_eq!(registry.get_agent("writer"), Some(&3));
    assert_eq!(registry.get_agent("critic"), Some(&2));
    assert_eq!(registry.get_agent("nobody"), None);
}

#[test]
fn registry_offers_agents_as_tools() {
    let mut registry = AgentRegistry::new();
    registry.register("writer", 1u32);
    registry.register("critic", 2u32);
    let tools = registry.as_tools();
    assert_eq!(tools.len(), 2);
    assert_eq!(tools[0].name(), "writer");
    assert_eq!(tools[0].description(), "Agent: writer");
    assert_eq!(tools[0].timeout(), Some(300));
    assert_eq!(*tools[1].agent(), 2);
    let registry = registry.with_default_timeout(20);
    let tool = registry.agent_as_tool("critic").unwrap();
    assert_eq!(tool.description(), "Agent: critic");
    assert_eq!(tool.timeout(), Some(20));
    assert!(registry.agent_as_tool("nobody").is_none());
}
