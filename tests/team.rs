use team_orchestra::agent::{TeamAgent, TeamAgentTool};
use team_orchestra::builder::TeamAgentBuilder;
use team_orchestra::config::{
    ChildAgentConfig, ConfigError, ExecutionPattern, ExecutionStep, TeamAgentConfig,
};
use team_orchestra::execution::{
    settle_child, ChildAgentResult, ChildReply, ContextEntry, TeamError, TeamExecutionResult,
};

type Handler = fn(&str, &[ContextEntry]) -> ChildReply;

fn previous_output(context: &[ContextEntry]) -> Option<String> {
    context.iter().find_map(|e| match e {
        ContextEntry::PreviousOutput(o) => Some(o.clone()),
        _ => None,
    })
}

fn upper(input: &str, _context: &[ContextEntry]) -> ChildReply {
    ChildReply::Finished(input.to_uppercase())
}

fn reverse_previous(_input: &str, context: &[ContextEntry]) -> ChildReply {
    let prev = previous_output(context).unwrap_or_default();
    ChildReply::Finished(prev.chars().rev().collect())
}

fn echo(input: &str, _context: &[ContextEntry]) -> ChildReply {
    ChildReply::Finished(format!("echo {}", input))
}

fn failing(_input: &str, _context: &[ContextEntry]) -> ChildReply {
    ChildReply::Failed("boom".to_string())
}

fn agent_a(input: &str, _context: &[ContextEntry]) -> ChildReply {
    ChildReply::Finished(format!("Agent A: processed '{}'", input))
}

fn agent_b(input: &str, _context: &[ContextEntry]) -> ChildReply {
    ChildReply::Finished(format!("Agent B: processed '{}'", input))
}

/// Runs a team synchronously, invoking every member of a batch in turn.
fn run_team(
    team: &TeamAgent<Handler>,
    input: &str,
    contexts: &mut Vec<(String, Vec<ContextEntry>)>,
) -> Result<TeamExecutionResult, TeamError> {
    let executor = team.executor();
    let children = &team.config().child_agents;
    let mut run = executor.start();
    while let Some(batch) = run.pending() {
        let mut results: Vec<ChildAgentResult> = Vec::new();
        for &i in &batch.members {
            let child = &children[i];
            contexts.push((child.id.clone(), batch.context.clone()));
            let reply = (child.agent)(input, &batch.context);
            results.push(settle_child(child, reply, 3)?);
        }
        run.record(results);
    }
    Ok(executor.conclude(run, 5))
}

fn sequential_pair(first: Handler, second: Handler, break_on_error: bool) -> TeamAgent<Handler> {
    let config = TeamAgentConfig::new()
        .add_child_agent(ChildAgentConfig::new("a", first).with_critical(false))
        .add_child_agent(ChildAgentConfig::new("b", second).with_critical(false))
        .with_execution_pattern(ExecutionPattern::Sequential)
        .with_break_on_error(break_on_error);
    TeamAgent::new(config).unwrap()
}

#[test]
fn sequential_uppercase_then_reverse() {
    let team = sequential_pair(upper, reverse_previous, true);
    let mut contexts = Vec::new();
    let result = run_team(&team, "hi", &mut contexts).unwrap();
    assert_eq!(result.child_results[0].output, "HI");
    assert_eq!(result.child_results[1].output, "IH");
    assert_eq!(
        contexts[1].1,
        vec![
            ContextEntry::PreviousOutput("HI".to_string()),
            ContextEntry::PreviousAgent("a".to_string())
        ]
    );
    assert_eq!(result.final_output, "a: HI\n\nb: IH");
    assert!(result.success);
}

#[test]
fn sequential_failure_with_break_stops() {
    let team = sequential_pair(failing, echo, true);
    let mut contexts = Vec::new();
    let result = run_team(&team, "x", &mut contexts).unwrap();
    assert_eq!(contexts.len(), 1);
    assert_eq!(result.child_results.len(), 1);
    assert!(!result.success);
    assert_eq!(result.final_output, "a: ERROR - boom");
}

#[test]
fn sequential_failure_without_break_continues() {
    let team = sequential_pair(failing, reverse_previous, false);
    let mut contexts = Vec::new();
    let result = run_team(&team, "x", &mut contexts).unwrap();
    assert_eq!(contexts.len(), 2);
    assert_eq!(
        contexts[1].1,
        vec![
            ContextEntry::PreviousOutput("Error: boom".to_string()),
            ContextEntry::PreviousAgent("a".to_string())
        ]
    );
    assert_eq!(result.child_results[1].output, "moob :rorrE");
    assert_eq!(result.final_output, "a: ERROR - boom\n\nb: moob :rorrE");
    assert!(!result.success);
}

#[test]
fn concurrent_critical_failure_aborts() {
    let config = TeamAgentConfig::new()
        .add_child_agent(ChildAgentConfig::new("a", echo as Handler))
        .add_child_agent(ChildAgentConfig::new("b", failing as Handler))
        .with_execution_pattern(ExecutionPattern::Concurrent);
    let team = TeamAgent::new(config).unwrap();
    let mut contexts = Vec::new();
    let err = run_team(&team, "x", &mut contexts).unwrap_err();
    assert_eq!(
        err,
        TeamError::ChildFailed { agent_id: "b".to_string(), message: "boom".to_string() }
    );
    assert_eq!(err.message(), "boom");
}

#[test]
fn concurrent_soft_failure_is_recorded() {
    let config = TeamAgentConfig::new()
        .add_child_agent(ChildAgentConfig::new("a", echo as Handler))
        .add_child_agent(ChildAgentConfig::new("b", failing as Handler).with_critical(false))
        .with_execution_pattern(ExecutionPattern::Concurrent);
    let team = TeamAgent::new(config).unwrap();
    let mut contexts = Vec::new();
    let result = run_team(&team, "x", &mut contexts).unwrap();
    assert_eq!(contexts.len(), 2);
    assert!(contexts.iter().all(|(_, c)| c.is_empty()));
    assert!(!result.success);
    assert_eq!(result.final_output, "a: echo x\n\nb: ERROR - boom");
    assert_eq!(result.child_results[1].error.as_deref(), Some("boom"));
}

#[test]
fn concurrent_batch_carries_global_timeout() {
    let config = TeamAgentConfig::new()
        .add_child_agent(ChildAgentConfig::new("a", echo as Handler))
        .add_child_agent(ChildAgentConfig::new("b", echo as Handler))
        .with_execution_pattern(ExecutionPattern::Concurrent)
        .with_global_timeout(7);
    let team = TeamAgent::new(config).unwrap();
    let run = team.executor().start();
    let batch = run.pending().unwrap();
    assert_eq!(batch.members, vec![0, 1]);
    assert_eq!(batch.time_limit, Some(7));
}

#[test]
fn sequential_batch_has_no_global_timeout() {
    let team = sequential_pair(echo, echo, true);
    let batch = team.executor().start().pending().unwrap();
    assert_eq!(batch.members, vec![0]);
    assert_eq!(batch.time_limit, None);
    assert!(batch.context.is_empty());
}

#[test]
fn pipeline_step_receives_only_its_dependencies() {
    let builder = TeamAgentBuilder::pipeline_with_concurrent(
        ("a".to_string(), echo as Handler),
        ("b".to_string(), upper as Handler),
        ("c".to_string(), echo as Handler),
        ("d".to_string(), echo as Handler),
    );
    let team = builder.build().unwrap();
    let mut contexts = Vec::new();
    let result = run_team(&team, "go", &mut contexts).unwrap();
    let d_context = &contexts.iter().find(|(id, _)| id == "d").unwrap().1;
    assert_eq!(
        d_context,
        &vec![ContextEntry::StepOutputs {
            step: 1,
            outputs: vec![
                ("b".to_string(), "GO".to_string()),
                ("c".to_string(), "echo go".to_string())
            ],
        }]
    );
    assert!(!d_context.iter().any(|e| matches!(e, ContextEntry::StepOutputs { step: 0, .. })));
    let b_context = &contexts.iter().find(|(id, _)| id == "b").unwrap().1;
    assert_eq!(
        b_context,
        &vec![ContextEntry::StepOutputs {
            step: 0,
            outputs: vec![("a".to_string(), "echo go".to_string())],
        }]
    );
    assert_eq!(result.final_output, "a: echo go\n\nb: GO\n\nc: echo go\n\nd: echo go");
}

#[test]
fn child_timeout_names_id_and_duration() {
    for critical in [true, false] {
        let child = ChildAgentConfig::new("slow", ()).with_timeout(2).with_critical(critical);
        let err = settle_child(&child, ChildReply::TimedOut, 0).unwrap_err();
        assert_eq!(err, TeamError::ChildTimeout { agent_id: "slow".to_string(), seconds: 2 });
        assert_eq!(err.message(), "Agent slow timed out after 2 seconds");
    }
}

#[test]
fn action_request_is_a_contract_violation() {
    let child = ChildAgentConfig::new("planner", ()).with_critical(false);
    let err = settle_child(&child, ChildReply::ActionRequested, 0).unwrap_err();
    assert_eq!(err, TeamError::ChildContractViolation { agent_id: "planner".to_string() });
    assert_eq!(err.message(), "Child agent returned Action instead of Finish");
    assert_eq!(TeamError::BatchTimeout.message(), "Global timeout exceeded");
}

#[test]
fn settled_outcomes_keep_output_and_time() {
    let child = ChildAgentConfig::new("w", ()).with_critical(false);
    let ok = settle_child(&child, ChildReply::Finished("done".to_string()), 12).unwrap();
    assert_eq!(ok.agent_id, "w");
    assert_eq!(ok.output, "done");
    assert!(ok.success && ok.error.is_none());
    assert_eq!(ok.execution_time_ms, 12);
    let soft = settle_child(&child, ChildReply::Failed("bad".to_string()), 4).unwrap();
    assert_eq!(soft.output, "Error: bad");
    assert!(!soft.success);
    assert_eq!(soft.error.as_deref(), Some("bad"));
}

#[test]
fn total_duration_is_positive() {
    let team = sequential_pair(echo, echo, true);
    let executor = team.executor();
    let mut run = executor.start();
    while let Some(batch) = run.pending() {
        let results = batch
            .members
            .iter()
            .map(|&i| {
                settle_child(&team.config().child_agents[i], ChildReply::Finished("ok".to_string()), 9)
                    .unwrap()
            })
            .collect();
        run.record(results);
    }
    let result = executor.conclude(run, 0);
    assert_eq!(result.total_execution_time_ms, 1);
    assert_eq!(result.child_results.len(), 2);
    let mut contexts = Vec::new();
    assert_eq!(run_team(&team, "x", &mut contexts).unwrap().total_execution_time_ms, 5);
}

#[test]
fn duplicate_ids_are_named() {
    let config = TeamAgentConfig::new()
        .add_child_agent(ChildAgentConfig::new("x", ()))
        .add_child_agent(ChildAgentConfig::new("same_id", ()))
        .add_child_agent(ChildAgentConfig::new("same_id", ()));
    let err = config.validate().unwrap_err();
    assert_eq!(err, ConfigError::DuplicateId("same_id".to_string()));
    assert_eq!(err.message(), "Duplicate agent ID: same_id");
}

#[test]
fn empty_team_is_rejected() {
    let config: TeamAgentConfig<()> = TeamAgentConfig::new();
    assert_eq!(config.validate(), Err(ConfigError::NoChildren));
    assert_eq!(
        ConfigError::NoChildren.message(),
        "Team agent must have at least one child agent"
    );
}

fn hybrid_config(steps: Vec<ExecutionStep>) -> TeamAgentConfig<()> {
    TeamAgentConfig::new()
        .add_child_agent(ChildAgentConfig::new("a", ()))
        .add_child_agent(ChildAgentConfig::new("b", ()))
        .with_execution_pattern(ExecutionPattern::Hybrid(steps))
}

fn step(ids: &[&str], concurrent: bool, deps: &[usize]) -> ExecutionStep {
    ExecutionStep {
        agent_ids: ids.iter().map(|s| s.to_string()).collect(),
        concurrent,
        dependencies: deps.to_vec(),
    }
}

#[test]
fn hybrid_unknown_id_is_rejected() {
    let err = hybrid_config(vec![step(&["a", "b", "ghost"], true, &[])]).validate().unwrap_err();
    assert_eq!(err, ConfigError::UnknownStepAgent("ghost".to_string()));
    assert_eq!(err.message(), "Unknown agent ID in execution step: ghost");
}

#[test]
fn hybrid_forward_dependency_is_rejected() {
    let err = hybrid_config(vec![step(&["a"], false, &[]), step(&["b"], false, &[0, 1])])
        .validate()
        .unwrap_err();
    assert_eq!(err, ConfigError::InvalidDependency { step: 1, dependency: 1 });
    assert_eq!(
        err.message(),
        "Invalid dependency: step 1 cannot depend on step 1 (must be earlier)"
    );
    let err = hybrid_config(vec![step(&["a", "b"], false, &[12])]).validate().unwrap_err();
    assert_eq!(
        err.message(),
        "Invalid dependency: step 0 cannot depend on step 12 (must be earlier)"
    );
}

#[test]
fn hybrid_uncovered_child_is_rejected() {
    let err = hybrid_config(vec![step(&["a"], false, &[])]).validate().unwrap_err();
    assert_eq!(err, ConfigError::UncoveredAgent("b".to_string()));
    assert_eq!(err.message(), "Agent b is not included in any execution step");
}

#[test]
fn hybrid_sound_topology_is_accepted() {
    let config = hybrid_config(vec![step(&["a"], false, &[]), step(&["b"], true, &[0])]);
    assert_eq!(config.validate(), Ok(()));
    let err = TeamAgent::new(hybrid_config(vec![])).err().unwrap();
    assert_eq!(err, TeamError::Configuration(ConfigError::UncoveredAgent("a".to_string())));
}

#[test]
fn test_team_agent_validation() {
    let config: TeamAgentConfig<()> = TeamAgentConfig::new();
    assert!(TeamAgent::new(config).is_err());

    let config = TeamAgentConfig::new()
        .add_child_agent(ChildAgentConfig::new("same_id", ()))
        .add_child_agent(ChildAgentConfig::new("same_id", ()));
    assert!(config.validate().is_err());
}

#[test]
fn test_sequential_team_agent() {
    let config = TeamAgentConfig::new()
        .add_child_agent(ChildAgentConfig::new("agent_a", agent_a as Handler))
        .add_child_agent(ChildAgentConfig::new("agent_b", agent_b as Handler))
        .with_execution_pattern(ExecutionPattern::Sequential);
    let team = TeamAgent::new(config).unwrap();
    let mut contexts = Vec::new();
    let result = run_team(&team, "test input", &mut contexts).unwrap();
    let report = team.format_team_output(&result);
    assert!(report.contains("Agent A"));
    assert!(report.contains("Agent B"));
    assert!(report.contains("test input"));
}

#[test]
fn test_concurrent_team_agent() {
    let config = TeamAgentConfig::new()
        .add_child_agent(ChildAgentConfig::new("agent_a", agent_a as Handler))
        .add_child_agent(ChildAgentConfig::new("agent_b", agent_b as Handler))
        .with_execution_pattern(ExecutionPattern::Concurrent);
    let team = TeamAgent::new(config).unwrap();
    let mut contexts = Vec::new();
    let result = run_team(&team, "test input", &mut contexts).unwrap();
    let report = team.format_team_output(&result);
    assert!(report.contains("Agent A"));
    assert!(report.contains("Agent B"));
}

#[test]
fn report_has_summary_entries_and_final_text() {
    let config = TeamAgentConfig::new()
        .add_child_agent(ChildAgentConfig::new("a", ()))
        .add_child_agent(ChildAgentConfig::new("b", ()).with_critical(false));
    let team = TeamAgent::new(config).unwrap();
    let result = TeamExecutionResult {
        child_results: vec![
            ChildAgentResult {
                agent_id: "a".to_string(),
                output: "fine".to_string(),
                success: true,
                error: None,
                execution_time_ms: 12,
            },
            ChildAgentResult {
                agent_id: "b".to_string(),
                output: "Error: bad".to_string(),
                success: false,
                error: Some("bad".to_string()),
                execution_time_ms: 3,
            },
        ],
        final_output: "a: fine\n\nb: ERROR - bad".to_string(),
        success: false,
        total_execution_time_ms: 15,
    };
    assert_eq!(
        team.format_team_output(&result),
        "Team Execution Summary:\n- Total agents: 2\n- Successful: 1\n- Execution time: 15ms\n\n\
         Individual Agent Results:\n\
         1. Agent 'a' (12ms): SUCCESS\n   Output: fine\n\n\
         2. Agent 'b' (3ms): FAILED\n   Error: bad\n\n\
         Final Aggregated Output:\na: fine\n\nb: ERROR - bad"
    );
}

#[test]
fn aggregate_of_no_outcomes_is_empty_success() {
    let team = TeamAgent::new(TeamAgentConfig::new().add_child_agent(ChildAgentConfig::new("a", ())))
        .unwrap();
    let result = team.executor().aggregate_results(Vec::new());
    assert!(result.success);
    assert_eq!(result.final_output, "");
    assert_eq!(result.total_execution_time_ms, 0);
}

#[test]
fn auto_tool_is_named_after_members() {
    let team = TeamAgentBuilder::new()
        .add_agent("alpha", ())
        .add_agent("beta", ())
        .build()
        .unwrap();
    assert_eq!(team.child_count(), 2);
    assert_eq!(team.child_agent_ids(), vec!["alpha".to_string(), "beta".to_string()]);
    let tool = TeamAgentTool::from_team_agent(std::sync::Arc::new(team));
    assert_eq!(tool.name(), "team_agent_2");
    assert_eq!(tool.description(), "A team agent that coordinates 2 child agents: alpha, beta");
}

#[test]
fn test_team_agent_as_tool() {
    let tool = TeamAgentBuilder::new()
        .add_agent("agent_a", agent_a as Handler)
        .build_as_tool("research", "Runs the research team")
        .unwrap();
    assert_eq!(tool.name(), "research");
    assert_eq!(tool.description(), "Runs the research team");
    let mut contexts = Vec::new();
    let result = run_team(tool.team_agent(), "test input", &mut contexts).unwrap();
    let report = tool.team_agent().format_team_output(&result);
    assert!(report.contains("Agent A"));
    assert!(report.contains("test input"));
}

#[test]
fn builder_sets_policy() {
    let team = TeamAgentBuilder::new()
        .add_agent_with_config(ChildAgentConfig::new("a", ()).with_timeout(4))
        .add_team_agent("t", ())
        .concurrent()
        .max_iterations(3)
        .break_on_error(false)
        .global_timeout(60)
        .prefix("Be brief")
        .coordination_prompts(true)
        .build()
        .unwrap();
    let config = team.config();
    assert_eq!(config.child_agents[0].timeout, Some(4));
    assert!(config.child_agents[1].is_team_agent);
    assert!(matches!(config.execution_pattern, ExecutionPattern::Concurrent));
    assert_eq!(config.max_iterations, Some(3));
    assert!(!config.break_on_error);
    assert_eq!(config.global_timeout, Some(60));
    assert_eq!(config.prefix.as_deref(), Some("Be brief"));
    assert!(config.use_coordination_prompts);
}

#[test]
fn fan_out_and_fan_in_build_two_steps() {
    let team = TeamAgentBuilder::fan_out(
        ("src".to_string(), ()),
        vec![("x".to_string(), ()), ("y".to_string(), ())],
    )
    .build()
    .unwrap();
    match &team.config().execution_pattern {
        ExecutionPattern::Hybrid(steps) => {
            assert_eq!(steps[0].agent_ids, vec!["src".to_string()]);
            assert_eq!(steps[1].agent_ids, vec!["x".to_string(), "y".to_string()]);
            assert!(steps[1].concurrent);
            assert_eq!(steps[1].dependencies, vec![0]);
        }
        _ => panic!("Expected hybrid pattern"),
    }
    let team = TeamAgentBuilder::fan_in(
        vec![("x".to_string(), ()), ("y".to_string(), ())],
        ("sink".to_string(), ()),
    )
    .build()
    .unwrap();
    assert_eq!(team.child_agent_ids(), vec!["x".to_string(), "y".to_string(), "sink".to_string()]);
}

#[test]
fn layered_teams_mark_nested_members() {
    let team = TeamAgentBuilder::multi_layer_team(
        vec![("l1".to_string(), ())],
        vec![("t1".to_string(), ()), ("t2".to_string(), ())],
        ("boss".to_string(), ()),
    )
    .build()
    .unwrap();
    let flags: Vec<bool> = team.config().child_agents.iter().map(|c| c.is_team_agent).collect();
    assert_eq!(flags, vec![false, true, true, true]);
    let nested = TeamAgentBuilder::nested_team_pattern(
        ("a".to_string(), ()),
        ("b".to_string(), ()),
        ("c".to_string(), ()),
        ("lead".to_string(), ()),
    )
    .build()
    .unwrap();
    assert!(nested.config().child_agents.iter().all(|c| c.is_team_agent));
    let seq = TeamAgentBuilder::sequential_team(vec![("p".to_string(), ()), ("q".to_string(), ())])
        .build()
        .unwrap();
    assert!(matches!(seq.config().execution_pattern, ExecutionPattern::Sequential));
    let conc = TeamAgentBuilder::concurrent_team(vec![("p".to_string(), ())]).build().unwrap();
    assert!(matches!(conc.config().execution_pattern, ExecutionPattern::Concurrent));
}

#[test]
fn duplicate_in_pipeline_fails_build() {
    let err = TeamAgentBuilder::pipeline_with_concurrent(
        ("a".to_string(), ()),
        ("b".to_string(), ()),
        ("a".to_string(), ()),
        ("d".to_string(), ()),
    )
    .build_as_auto_tool()
    .err()
    .unwrap();
    assert_eq!(err, TeamError::Configuration(ConfigError::DuplicateId("a".to_string())));
}
