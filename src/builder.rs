use vstd::prelude::*;

use crate::agent::{TeamAgent, TeamAgentTool};
use crate::config::{ChildAgentConfig, ExecutionPattern, ExecutionStep, TeamAgentConfig, texts};
use crate::execution::TeamError;

verus! {

/// A member as the builder adds it: critical, without a timeout.
pub open spec fn added_child<A>(c: ChildAgentConfig<A>, id: Seq<char>, agent: A, team: bool) -> bool {
    &&& c.id@ == id
    &&& c.agent == agent
    &&& c.timeout is None
    &&& c.critical
    &&& c.is_team_agent == team
}

/// A hybrid step with the given ids, scheduling and dependencies.
pub open spec fn step_is(step: ExecutionStep, ids: Seq<Seq<char>>, concurrent: bool, deps: Seq<usize>) -> bool {
    &&& texts(step.agent_ids@) == ids
    &&& step.concurrent == concurrent
    &&& step.dependencies@ == deps
}

/// The ids of a list of `(id, agent)` pairs.
pub open spec fn pair_ids<A>(agents: Seq<(String, A)>) -> Seq<Seq<char>> {
    agents.map_values(|p: (String, A)| p.0@)
}

/// The members `added` were appended after `before`, in order, as the builder adds them.
pub open spec fn appended<A>(
    after: Seq<ChildAgentConfig<A>>,
    before: Seq<ChildAgentConfig<A>>,
    added: Seq<(String, A)>,
    team: bool,
) -> bool {
    &&& after.len() == before.len() + added.len()
    &&& after.take(before.len() as int) == before
    &&& forall|i: int|
        0 <= i < added.len() ==> added_child(
            #[trigger] after[before.len() + i],
            added[i].0@,
            added[i].1,
            team,
        )
}

/// The members from position `start` on are `added`, in order, as the builder adds them.
pub open spec fn lists_members<A>(
    children: Seq<ChildAgentConfig<A>>,
    start: int,
    added: Seq<(String, A)>,
    team: bool,
) -> bool {
    &&& start + added.len() <= children.len()
    &&& forall|i: int|
        0 <= i < added.len() ==> added_child(#[trigger] children[start + i], added[i].0@, added[i].1, team)
}

/// The policy fields of a fresh declaration.
pub open spec fn fresh_policy<A>(c: TeamAgentConfig<A>) -> bool {
    &&& c.max_iterations == Some(10i32)
    &&& c.break_on_error
    &&& c.global_timeout == Some(300u64)
    &&& c.prefix is None
    &&& !c.use_coordination_prompts
}

/// The three-step hybrid pattern: `first` alone, then `middle` as one parallel batch that
/// depends on the first step, then `last` alone, depending on the middle step.
pub open spec fn three_layers(
    pattern: ExecutionPattern,
    first: Seq<Seq<char>>,
    first_concurrent: bool,
    middle: Seq<Seq<char>>,
    last: Seq<char>,
) -> bool {
    pattern matches ExecutionPattern::Hybrid(steps) && steps@.len() == 3 && step_is(
        steps@[0],
        first,
        first_concurrent,
        Seq::empty(),
    ) && step_is(steps@[1], middle, true, seq![0usize]) && step_is(
        steps@[2],
        seq![last],
        false,
        seq![1usize],
    )
}

/// The two-step hybrid pattern: `first`, then `second` depending on it.
pub open spec fn two_layers(
    pattern: ExecutionPattern,
    first: Seq<Seq<char>>,
    first_concurrent: bool,
    second: Seq<Seq<char>>,
    second_concurrent: bool,
) -> bool {
    pattern matches ExecutionPattern::Hybrid(steps) && steps@.len() == 2 && step_is(
        steps@[0],
        first,
        first_concurrent,
        Seq::empty(),
    ) && step_is(steps@[1], second, second_concurrent, seq![0usize])
}

/// The ids of a list of `(id, agent)` pairs, as strings.
fn ids_of<A>(agents: &Vec<(String, A)>) -> (r: Vec<String>)
    ensures
        texts(r@) == pair_ids(agents@),
{
    let mut ids: Vec<String> = Vec::new();
    let mut i: usize = 0;
    while i < agents.len()
        invariant
            i <= agents@.len(),
            texts(ids@) == pair_ids(agents@).take(i as int),
        decreases agents@.len() - i,
    {
        let ghost prev = ids@;
        ids.push(agents[i].0.clone());
        proof {
            assert(texts(ids@) =~= texts(prev).push(agents@[i as int].0@));
            assert(pair_ids(agents@).take(i + 1) =~= pair_ids(agents@).take(i as int).push(
                agents@[i as int].0@,
            ));
        }
        i = i + 1;
    }
    assert(pair_ids(agents@).take(i as int) =~= pair_ids(agents@));
    ids
}

/// A list holding one id.
fn single_id(id: &String) -> (r: Vec<String>)
    ensures
        texts(r@) == seq![id@],
{
    let mut v: Vec<String> = Vec::new();
    v.push(id.clone());
    assert(texts(v@) =~= seq![id@]);
    v
}

/// A list holding two ids.
fn two_ids(a: &String, b: &String) -> (r: Vec<String>)
    ensures
        texts(r@) == seq![a@, b@],
{
    let mut v: Vec<String> = Vec::new();
    v.push(a.clone());
    v.push(b.clone());
    assert(texts(v@) =~= seq![a@, b@]);
    v
}

/// A list holding one step index.
fn single_dependency(d: usize) -> (r: Vec<usize>)
    ensures
        r@ == seq![d],
{
    let mut v: Vec<usize> = Vec::new();
    v.push(d);
    assert(v@ =~= seq![d]);
    v
}

/// Assembles a team declaration step by step.
pub struct TeamAgentBuilder<A> {
    config: TeamAgentConfig<A>,
}

impl<A> TeamAgentBuilder<A> {
    /// The declaration assembled so far.
    pub closed spec fn spec_config(&self) -> TeamAgentConfig<A> {
        self.config
    }

    /// A builder over a fresh declaration.
    pub fn new() -> (r: Self)
        ensures
            r.spec_config().child_agents@.len() == 0,
            r.spec_config().execution_pattern is Sequential,
            r.spec_config().max_iterations == Some(10i32),
            r.spec_config().break_on_error,
            r.spec_config().global_timeout == Some(300u64),
            r.spec_config().prefix is None,
            !r.spec_config().use_coordination_prompts,
    {
        TeamAgentBuilder { config: TeamAgentConfig::new() }
    }

    fn push_child(self, id: String, agent: A, team: bool) -> (r: Self)
        ensures
            r.config.child_agents@.len() == self.config.child_agents@.len() + 1,
            r.config.child_agents@.drop_last() == self.config.child_agents@,
            added_child(r.config.child_agents@.last(), id@, agent, team),
            r.config == (TeamAgentConfig { child_agents: r.config.child_agents, ..self.config }),
    {
        let child = ChildAgentConfig {
            id,
            agent,
            timeout: None,
            critical: true,
            is_team_agent: team,
        };
        let r = TeamAgentBuilder { config: self.config.add_child_agent(child) };
        assert(r.config.child_agents@.drop_last() =~= self.config.child_agents@);
        r
    }

    fn push_children(self, agents: Vec<(String, A)>, team: bool) -> (r: Self)
        ensures
            appended(r.config.child_agents@, self.config.child_agents@, agents@, team),
            r.config == (TeamAgentConfig { child_agents: r.config.child_agents, ..self.config }),
    {
        let ghost before = self.config.child_agents@;
        let ghost all = agents@;
        let mut b = self;
        let mut rest = agents;
        let total = rest.len();
        let mut i: usize = 0;
        assert(b.config.child_agents@.take(before.len() as int) =~= before);
        assert(rest@ =~= all.skip(0));
        while rest.len() > 0
            invariant
                total == all.len(),
                rest@ == all.skip(i as int),
                i <= all.len(),
                appended(b.config.child_agents@, before, all.take(i as int), team),
                b.config == (TeamAgentConfig { child_agents: b.config.child_agents, ..self.config }),
            decreases rest@.len(),
        {
            let (id, agent) = rest.remove(0);
            let ghost prev = b.config.child_agents@;
            b = b.push_child(id, agent, team);
            proof {
                assert(all[i as int] == (id, agent));
                let now = b.config.child_agents@;
                assert(now.take(before.len() as int) =~= before) by {
                    assert(prev.take(before.len() as int) == before);
                    assert forall|k: int| 0 <= k < before.len() implies now[k] == prev[k] by {
                        assert(now.drop_last()[k] == prev[k]);
                    }
                }
                assert forall|k: int| 0 <= k < i + 1 implies added_child(
                    #[trigger] now[before.len() + k],
                    all.take(i + 1)[k].0@,
                    all.take(i + 1)[k].1,
                    team,
                ) by {
                    if k < i {
                        assert(now.drop_last()[before.len() + k] == prev[before.len() + k]);
                        assert(all.take(i + 1)[k] == all.take(i as int)[k]);
                    }
                }
            }
            i = i + 1;
            assert(rest@ =~= all.skip(i as int));
        }
        assert(all.take(i as int) =~= all);
        b
    }

    /// Appends a critical member without a timeout.
    pub fn add_agent(self, id: &str, agent: A) -> (r: Self)
        ensures
            r.spec_config().child_agents@.drop_last() == self.spec_config().child_agents@,
            r.spec_config().child_agents@.len() == self.spec_config().child_agents@.len() + 1,
            added_child(r.spec_config().child_agents@.last(), id@, agent, false),
            r.spec_config() == (TeamAgentConfig {
                child_agents: r.spec_config().child_agents,
                ..self.spec_config()
            }),
    {
        self.push_child(String::from_str(id), agent, false)
    }

    /// Appends a critical member whose handle is a nested team.
    pub fn add_team_agent(self, id: &str, team_agent: A) -> (r: Self)
        ensures
            r.spec_config().child_agents@.drop_last() == self.spec_config().child_agents@,
            r.spec_config().child_agents@.len() == self.spec_config().child_agents@.len() + 1,
            added_child(r.spec_config().child_agents@.last(), id@, team_agent, true),
            r.spec_config() == (TeamAgentConfig {
                child_agents: r.spec_config().child_agents,
                ..self.spec_config()
            }),
    {
        self.push_child(String::from_str(id), team_agent, true)
    }

    /// Appends a member with its own policy.
    pub fn add_agent_with_config(self, config: ChildAgentConfig<A>) -> (r: Self)
        ensures
            r.spec_config().child_agents@ == self.spec_config().child_agents@.push(config),
            r.spec_config() == (TeamAgentConfig {
                child_agents: r.spec_config().child_agents,
                ..self.spec_config()
            }),
    {
        TeamAgentBuilder { config: self.config.add_child_agent(config) }
    }

    /// Appends several critical members, in order.
    pub fn add_agents(self, agents: Vec<(String, A)>) -> (r: Self)
        ensures
            appended(r.spec_config().child_agents@, self.spec_config().child_agents@, agents@, false),
            r.spec_config() == (TeamAgentConfig {
                child_agents: r.spec_config().child_agents,
                ..self.spec_config()
            }),
    {
        self.push_children(agents, false)
    }

    /// Replaces the execution pattern.
    pub fn execution_pattern(self, pattern: ExecutionPattern) -> (r: Self)
        ensures
            r.spec_config() == (TeamAgentConfig { execution_pattern: pattern, ..self.spec_config() }),
    {
        TeamAgentBuilder { config: self.config.with_execution_pattern(pattern) }
    }

    /// Runs every member as one parallel batch.
    pub fn concurrent(self) -> (r: Self)
        ensures
            r.spec_config() == (TeamAgentConfig {
                execution_pattern: ExecutionPattern::Concurrent,
                ..self.spec_config()
            }),
    {
        self.execution_pattern(ExecutionPattern::Concurrent)
    }

    /// Runs the members one at a time, in order.
    pub fn sequential(self) -> (r: Self)
        ensures
            r.spec_config() == (TeamAgentConfig {
                execution_pattern: ExecutionPattern::Sequential,
                ..self.spec_config()
            }),
    {
        self.execution_pattern(ExecutionPattern::Sequential)
    }

    /// Runs the members by the given steps.
    pub fn hybrid(self, steps: Vec<ExecutionStep>) -> (r: Self)
        ensures
            r.spec_config() == (TeamAgentConfig {
                execution_pattern: ExecutionPattern::Hybrid(steps),
                ..self.spec_config()
            }),
    {
        self.execution_pattern(ExecutionPattern::Hybrid(steps))
    }

    /// Sets the reserved iteration bound.
    pub fn max_iterations(self, max_iterations: i32) -> (r: Self)
        ensures
            r.spec_config() == (TeamAgentConfig {
                max_iterations: Some(max_iterations),
                ..self.spec_config()
            }),
    {
        TeamAgentBuilder { config: self.config.with_max_iterations(max_iterations) }
    }

    /// Sets whether a recorded failure stops further scheduling.
    pub fn break_on_error(self, break_on_error: bool) -> (r: Self)
        ensures
            r.spec_config() == (TeamAgentConfig { break_on_error, ..self.spec_config() }),
    {
        TeamAgentBuilder { config: self.config.with_break_on_error(break_on_error) }
    }

    /// Sets the bound on the concurrent batch.
    pub fn global_timeout(self, timeout_seconds: u64) -> (r: Self)
        ensures
            r.spec_config() == (TeamAgentConfig {
                global_timeout: Some(timeout_seconds),
                ..self.spec_config()
            }),
    {
        TeamAgentBuilder { config: self.config.with_global_timeout(timeout_seconds) }
    }

    /// Sets the system prompt.
    pub fn prefix(self, prefix: &str) -> (r: Self)
        ensures
            r.spec_config().prefix matches Some(p) && p@ == prefix@,
            r.spec_config() == (TeamAgentConfig { prefix: r.spec_config().prefix, ..self.spec_config() }),
    {
        TeamAgentBuilder { config: self.config.with_prefix(prefix) }
    }

    /// Sets whether a coordination summary is added to the members' context.
    pub fn coordination_prompts(self, use_coordination_prompts: bool) -> (r: Self)
        ensures
            r.spec_config() == (TeamAgentConfig {
                use_coordination_prompts,
                ..self.spec_config()
            }),
    {
        TeamAgentBuilder { config: self.config.with_coordination_prompts(use_coordination_prompts) }
    }

    /// Validates the declaration and builds the team.
    pub fn build(self) -> (r: Result<TeamAgent<A>, TeamError>)
        ensures
            match r {
                Ok(t) => crate::config::config_fault(
                    self.spec_config().ids(),
                    self.spec_config().execution_pattern,
                ) == None::<crate::config::ConfigFault> && t.spec_config() == self.spec_config(),
                Err(TeamError::Configuration(c)) => crate::config::config_fault(
                    self.spec_config().ids(),
                    self.spec_config().execution_pattern,
                ) == Some(c@),
                Err(_) => false,
            },
    {
        TeamAgent::new(self.config)
    }

    /// Builds the team and offers it as a tool with the given name and description.
    pub fn build_as_tool(self, name: &str, description: &str) -> (r: Result<TeamAgentTool<A>, TeamError>)
        ensures
            match r {
                Ok(t) => crate::config::config_fault(
                    self.spec_config().ids(),
                    self.spec_config().execution_pattern,
                ) == None::<crate::config::ConfigFault> && t.spec_team().spec_config()
                    == self.spec_config() && t.spec_name() == name@ && t.spec_description()
                    == description@,
                Err(TeamError::Configuration(c)) => crate::config::config_fault(
                    self.spec_config().ids(),
                    self.spec_config().execution_pattern,
                ) == Some(c@),
                Err(_) => false,
            },
    {
        match self.build() {
            Ok(team) => Ok(TeamAgentTool::new(std::sync::Arc::new(team), name, description)),
            Err(e) => Err(e),
        }
    }

    /// Builds the team and offers it as a tool named and described after its members.
    pub fn build_as_auto_tool(self) -> (r: Result<TeamAgentTool<A>, TeamError>)
        ensures
            match r {
                Ok(t) => crate::config::config_fault(
                    self.spec_config().ids(),
                    self.spec_config().execution_pattern,
                ) == None::<crate::config::ConfigFault> && t.spec_team().spec_config()
                    == self.spec_config() && t.spec_name() == crate::agent::auto_tool_name(
                    self.spec_config().ids(),
                ) && t.spec_description() == crate::agent::auto_tool_description(
                    self.spec_config().ids(),
                ),
                Err(TeamError::Configuration(c)) => crate::config::config_fault(
                    self.spec_config().ids(),
                    self.spec_config().execution_pattern,
                ) == Some(c@),
                Err(_) => false,
            },
    {
        match self.build() {
            Ok(team) => Ok(TeamAgentTool::from_team_agent(std::sync::Arc::new(team))),
            Err(e) => Err(e),
        }
    }

    /// A sequential team of the given members, in order.
    pub fn sequential_team(agents: Vec<(String, A)>) -> (r: Self)
        ensures
            r.spec_config().child_agents@.len() == agents@.len(),
            lists_members(r.spec_config().child_agents@, 0, agents@, false),
            r.spec_config().execution_pattern is Sequential,
            fresh_policy(r.spec_config()),
    {
        let b0 = Self::new();
        let b1 = b0.add_agents(agents);
        proof {
            lemma_appended_lists(b1.config.child_agents@, b0.config.child_agents@, agents@, false);
        }
        b1.sequential()
    }

    /// A concurrent team of the given members, in order.
    pub fn concurrent_team(agents: Vec<(String, A)>) -> (r: Self)
        ensures
            r.spec_config().child_agents@.len() == agents@.len(),
            lists_members(r.spec_config().child_agents@, 0, agents@, false),
            r.spec_config().execution_pattern is Concurrent,
            fresh_policy(r.spec_config()),
    {
        let b0 = Self::new();
        let b1 = b0.add_agents(agents);
        proof {
            lemma_appended_lists(b1.config.child_agents@, b0.config.child_agents@, agents@, false);
        }
        b1.concurrent()
    }

    fn four_step_team(
        agent_a: (String, A),
        agent_b: (String, A),
        agent_c: (String, A),
        agent_d: (String, A),
        team: bool,
    ) -> (r: Self)
        ensures
            r.spec_config().child_agents@.len() == 4,
            added_child(r.spec_config().child_agents@[0], agent_a.0@, agent_a.1, team),
            added_child(r.spec_config().child_agents@[1], agent_b.0@, agent_b.1, team),
            added_child(r.spec_config().child_agents@[2], agent_c.0@, agent_c.1, team),
            added_child(r.spec_config().child_agents@[3], agent_d.0@, agent_d.1, team),
            three_layers(
                r.spec_config().execution_pattern,
                seq![agent_a.0@],
                false,
                seq![agent_b.0@, agent_c.0@],
                agent_d.0@,
            ),
            fresh_policy(r.spec_config()),
    {
        let (id_a, agent_a) = agent_a;
        let (id_b, agent_b) = agent_b;
        let (id_c, agent_c) = agent_c;
        let (id_d, agent_d) = agent_d;
        let mut steps: Vec<ExecutionStep> = Vec::new();
        steps.push(ExecutionStep { agent_ids: single_id(&id_a), concurrent: false, dependencies: Vec::new() });
        steps.push(ExecutionStep { agent_ids: two_ids(&id_b, &id_c), concurrent: true, dependencies: single_dependency(0) });
        steps.push(ExecutionStep { agent_ids: single_id(&id_d), concurrent: false, dependencies: single_dependency(1) });
        let b0 = Self::new();
        let b1 = b0.push_child(id_a, agent_a, team);
        let b2 = b1.push_child(id_b, agent_b, team);
        let b3 = b2.push_child(id_c, agent_c, team);
        let b4 = b3.push_child(id_d, agent_d, team);
        proof {
            let c = b4.config.child_agents@;
            assert(c.drop_last().drop_last().drop_last().drop_last().len() == 0);
            assert(c[0] == b1.config.child_agents@[0]);
            assert(c[1] == b2.config.child_agents@[1]);
            assert(c[2] == b3.config.child_agents@[2]);
        }
        b4.hybrid(steps)
    }

    /// A pipeline: `agent_a` alone, then `agent_b` and `agent_c` in parallel on its output,
    /// then `agent_d` on theirs.
    pub fn pipeline_with_concurrent(
        agent_a: (String, A),
        agent_b: (String, A),
        agent_c: (String, A),
        agent_d: (String, A),
    ) -> (r: Self)
        ensures
            r.spec_config().child_agents@.len() == 4,
            added_child(r.spec_config().child_agents@[0], agent_a.0@, agent_a.1, false),
            added_child(r.spec_config().child_agents@[1], agent_b.0@, agent_b.1, false),
            added_child(r.spec_config().child_agents@[2], agent_c.0@, agent_c.1, false),
            added_child(r.spec_config().child_agents@[3], agent_d.0@, agent_d.1, false),
            three_layers(
                r.spec_config().execution_pattern,
                seq![agent_a.0@],
                false,
                seq![agent_b.0@, agent_c.0@],
                agent_d.0@,
            ),
            fresh_policy(r.spec_config()),
    {
        Self::four_step_team(agent_a, agent_b, agent_c, agent_d, false)
    }

    /// The same shape as a pipeline, with every member a nested team: `team_a` alone, then
    /// `team_b` and `team_c` in parallel on its output, then `team_leader` on theirs.
    pub fn nested_team_pattern(
        team_a: (String, A),
        team_b: (String, A),
        team_c: (String, A),
        team_leader: (String, A),
    ) -> (r: Self)
        ensures
            r.spec_config().child_agents@.len() == 4,
            added_child(r.spec_config().child_agents@[0], team_a.0@, team_a.1, true),
            added_child(r.spec_config().child_agents@[1], team_b.0@, team_b.1, true),
            added_child(r.spec_config().child_agents@[2], team_c.0@, team_c.1, true),
            added_child(r.spec_config().child_agents@[3], team_leader.0@, team_leader.1, true),
            three_layers(
                r.spec_config().execution_pattern,
                seq![team_a.0@],
                false,
                seq![team_b.0@, team_c.0@],
                team_leader.0@,
            ),
            fresh_policy(r.spec_config()),
    {
        Self::four_step_team(team_a, team_b, team_c, team_leader, true)
    }

    /// One source member, then all targets in parallel on its output.
    pub fn fan_out(source_agent: (String, A), target_agents: Vec<(String, A)>) -> (r: Self)
        ensures
            r.spec_config().child_agents@.len() == 1 + target_agents@.len(),
            added_child(r.spec_config().child_agents@[0], source_agent.0@, source_agent.1, false),
            lists_members(r.spec_config().child_agents@, 1, target_agents@, false),
            two_layers(
                r.spec_config().execution_pattern,
                seq![source_agent.0@],
                false,
                pair_ids(target_agents@),
                true,
            ),
            fresh_policy(r.spec_config()),
    {
        let (source_id, source) = source_agent;
        let target_ids = ids_of(&target_agents);
        let mut steps: Vec<ExecutionStep> = Vec::new();
        steps.push(ExecutionStep { agent_ids: single_id(&source_id), concurrent: false, dependencies: Vec::new() });
        steps.push(ExecutionStep { agent_ids: target_ids, concurrent: true, dependencies: single_dependency(0) });
        let b1 = Self::new().push_child(source_id, source, false);
        let b2 = b1.push_children(target_agents, false);
        proof {
            assert(b2.config.child_agents@[0] == b1.config.child_agents@[0]);
            lemma_appended_lists(b2.config.child_agents@, b1.config.child_agents@, target_agents@, false);
        }
        b2.hybrid(steps)
    }

    /// All sources in parallel, then one target member on their outputs.
    pub fn fan_in(source_agents: Vec<(String, A)>, target_agent: (String, A)) -> (r: Self)
        ensures
            r.spec_config().child_agents@.len() == source_agents@.len() + 1,
            lists_members(r.spec_config().child_agents@, 0, source_agents@, false),
            added_child(
                r.spec_config().child_agents@[source_agents@.len() as int],
                target_agent.0@,
                target_agent.1,
                false,
            ),
            two_layers(
                r.spec_config().execution_pattern,
                pair_ids(source_agents@),
                true,
                seq![target_agent.0@],
                false,
            ),
            fresh_policy(r.spec_config()),
    {
        let (target_id, target) = target_agent;
        let source_ids = ids_of(&source_agents);
        let mut steps: Vec<ExecutionStep> = Vec::new();
        steps.push(ExecutionStep { agent_ids: source_ids, concurrent: true, dependencies: Vec::new() });
        steps.push(ExecutionStep { agent_ids: single_id(&target_id), concurrent: false, dependencies: single_dependency(0) });
        let b0 = Self::new();
        let b1 = b0.push_children(source_agents, false);
        let b2 = b1.push_child(target_id, target, false);
        proof {
            lemma_appended_lists(b1.config.child_agents@, b0.config.child_agents@, source_agents@, false);
            lemma_lists_kept(b1.config.child_agents@, b2.config.child_agents@, 0, source_agents@, false);
        }
        b2.hybrid(steps)
    }

    /// The first layer in parallel, then the second layer of nested teams in parallel on
    /// its outputs, then one coordinating team on theirs.
    pub fn multi_layer_team(
        layer1_agents: Vec<(String, A)>,
        layer2_teams: Vec<(String, A)>,
        final_coordinator: (String, A),
    ) -> (r: Self)
        ensures
            r.spec_config().child_agents@.len() == layer1_agents@.len() + layer2_teams@.len() + 1,
            lists_members(r.spec_config().child_agents@, 0, layer1_agents@, false),
            lists_members(
                r.spec_config().child_agents@,
                layer1_agents@.len() as int,
                layer2_teams@,
                true,
            ),
            added_child(
                r.spec_config().child_agents@[layer1_agents@.len() + layer2_teams@.len() as int],
                final_coordinator.0@,
                final_coordinator.1,
                true,
            ),
            three_layers(
                r.spec_config().execution_pattern,
                pair_ids(layer1_agents@),
                true,
                pair_ids(layer2_teams@),
                final_coordinator.0@,
            ),
            fresh_policy(r.spec_config()),
    {
        let (coordinator_id, coordinator) = final_coordinator;
        let layer1_ids = ids_of(&layer1_agents);
        let layer2_ids = ids_of(&layer2_teams);
        let mut steps: Vec<ExecutionStep> = Vec::new();
        steps.push(ExecutionStep { agent_ids: layer1_ids, concurrent: true, dependencies: Vec::new() });
        steps.push(ExecutionStep { agent_ids: layer2_ids, concurrent: true, dependencies: single_dependency(0) });
        steps.push(ExecutionStep { agent_ids: single_id(&coordinator_id), concurrent: false, dependencies: single_dependency(1) });
        let b0 = Self::new();
        let b1 = b0.push_children(layer1_agents, false);
        let b2 = b1.push_children(layer2_teams, true);
        let b3 = b2.push_child(coordinator_id, coordinator, true);
        proof {
            lemma_appended_lists(b1.config.child_agents@, b0.config.child_agents@, layer1_agents@, false);
            lemma_appended_lists(b2.config.child_agents@, b1.config.child_agents@, layer2_teams@, true);
            lemma_lists_kept(b1.config.child_agents@, b2.config.child_agents@, 0, layer1_agents@, false);
            lemma_lists_kept(b2.config.child_agents@, b3.config.child_agents@, 0, layer1_agents@, false);
            lemma_lists_kept(
                b2.config.child_agents@,
                b3.config.child_agents@,
                layer1_agents@.len() as int,
                layer2_teams@,
                true,
            );
        }
        b3.hybrid(steps)
    }
}

proof fn lemma_appended_lists<A>(
    after: Seq<ChildAgentConfig<A>>,
    before: Seq<ChildAgentConfig<A>>,
    added: Seq<(String, A)>,
    team: bool,
)
    requires
        appended(after, before, added, team),
    ensures
        lists_members(after, before.len() as int, added, team),
{
}

proof fn lemma_lists_kept<A>(
    shorter: Seq<ChildAgentConfig<A>>,
    longer: Seq<ChildAgentConfig<A>>,
    start: int,
    added: Seq<(String, A)>,
    team: bool,
)
    requires
        lists_members(shorter, start, added, team),
        0 <= start,
        shorter.len() <= longer.len(),
        forall|k: int| 0 <= k < shorter.len() ==> longer[k] == shorter[k],
    ensures
        lists_members(longer, start, added, team),
{
    assert forall|i: int| 0 <= i < added.len() implies added_child(
        #[trigger] longer[start + i],
        added[i].0@,
        added[i].1,
        team,
    ) by {
        assert(longer[start + i] == shorter[start + i]);
    }
}

} // verus!
