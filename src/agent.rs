use vstd::prelude::*;

use crate::config::{TeamAgentConfig, texts};
use crate::execution::{ChildAgentResult, TeamError, TeamExecutionResult, TeamExecutor, joined};
use crate::text::{decimal, push_decimal};

verus! {

/// The paragraph of the report on outcome number `idx` (counted from zero).
pub open spec fn report_entry(idx: nat, r: ChildAgentResult) -> Seq<char> {
    decimal(idx + 1) + ". Agent '"@ + r.agent_id@ + "' ("@ + decimal(r.execution_time_ms as nat)
        + "ms): "@ + (if r.success {
        "SUCCESS"@
    } else {
        "FAILED"@
    }) + "\n"@ + (if r.success {
        "   Output: "@ + r.output@ + "\n"@
    } else if r.error is Some {
        "   Error: "@ + r.error->0@ + "\n"@
    } else {
        Seq::empty()
    }) + "\n"@
}

/// The paragraphs of the report on every outcome, in order.
pub open spec fn report_entries(rs: Seq<ChildAgentResult>) -> Seq<char>
    decreases rs.len(),
{
    if rs.len() == 0 {
        Seq::empty()
    } else {
        report_entries(rs.drop_last()) + report_entry((rs.len() - 1) as nat, rs.last())
    }
}

/// How many outcomes succeeded.
pub open spec fn success_count(rs: Seq<ChildAgentResult>) -> nat
    decreases rs.len(),
{
    if rs.len() == 0 {
        0
    } else {
        success_count(rs.drop_last()) + if rs.last().success {
            1nat
        } else {
            0nat
        }
    }
}

/// The human-readable report on a run: summary counts, one paragraph per outcome, and the
/// aggregated text.
pub open spec fn team_report(r: TeamExecutionResult) -> Seq<char> {
    "Team Execution Summary:\n- Total agents: "@ + decimal(r.child_results@.len()) + "\n- Successful: "@
        + decimal(success_count(r.child_results@)) + "\n- Execution time: "@ + decimal(
        r.total_execution_time_ms as nat,
    ) + "ms\n\n"@ + "Individual Agent Results:\n"@ + report_entries(r.child_results@)
        + "Final Aggregated Output:\n"@ + r.final_output@
}

/// The name of a team offered as a tool without an explicit name.
pub open spec fn auto_tool_name(ids: Seq<Seq<char>>) -> Seq<char> {
    "team_agent_"@ + decimal(ids.len())
}

/// The description of a team offered as a tool without an explicit description.
pub open spec fn auto_tool_description(ids: Seq<Seq<char>>) -> Seq<char> {
    "A team agent that coordinates "@ + decimal(ids.len()) + " child agents: "@ + joined(ids, ", "@)
}

proof fn lemma_success_count_bound(rs: Seq<ChildAgentResult>)
    ensures
        success_count(rs) <= rs.len(),
    decreases rs.len(),
{
    if rs.len() > 0 {
        lemma_success_count_bound(rs.drop_last());
    }
}

/// Appends the report paragraph on outcome number `idx` (counted from zero).
fn push_report_entry(s: &mut String, idx: usize, r: &ChildAgentResult)
    requires
        idx < usize::MAX,
    ensures
        final(s)@ == old(s)@ + report_entry(idx as nat, *r),
{
    let ghost head = old(s)@;
    push_decimal(s, (idx + 1) as u64);
    s.append(". Agent '");
    s.append(r.agent_id.as_str());
    s.append("' (");
    push_decimal(s, r.execution_time_ms);
    s.append("ms): ");
    if r.success {
        s.append("SUCCESS");
    } else {
        s.append("FAILED");
    }
    s.append("\n");
    if r.success {
        s.append("   Output: ");
        s.append(r.output.as_str());
        s.append("\n");
    } else {
        match &r.error {
            Some(e) => {
                s.append("   Error: ");
                s.append(e.as_str());
                s.append("\n");
            },
            None => {},
        }
    }
    s.append("\n");
    assert(s@ =~= head + report_entry(idx as nat, *r));
}

/// A team of agents that presents itself as one agent.
pub struct TeamAgent<A> {
    executor: TeamExecutor<A>,
}

impl<A> TeamAgent<A> {
    /// The team's declaration.
    pub closed spec fn spec_config(&self) -> TeamAgentConfig<A> {
        self.executor.spec_config()
    }

    /// Validates the declaration and builds the team.
    pub fn new(config: TeamAgentConfig<A>) -> (r: Result<Self, TeamError>)
        ensures
            match r {
                Ok(t) => crate::config::config_fault(config.ids(), config.execution_pattern)
                    == None::<crate::config::ConfigFault> && t.spec_config() == config,
                Err(TeamError::Configuration(c)) => crate::config::config_fault(
                    config.ids(),
                    config.execution_pattern,
                ) == Some(c@),
                Err(_) => false,
            },
    {
        match TeamExecutor::new(config) {
            Ok(executor) => Ok(TeamAgent { executor }),
            Err(e) => Err(e),
        }
    }

    /// The team's declaration.
    pub fn config(&self) -> (r: &TeamAgentConfig<A>)
        ensures
            *r == self.spec_config(),
            crate::config::topology_sound(r.ids(), r.execution_pattern),
    {
        self.executor.config()
    }

    /// The dispatcher that runs the team.
    pub fn executor(&self) -> (r: &TeamExecutor<A>)
        ensures
            r.spec_config() == self.spec_config(),
    {
        &self.executor
    }

    /// The number of members.
    pub fn child_count(&self) -> (r: usize)
        ensures
            r == self.spec_config().child_agents@.len(),
    {
        self.config().child_agents.len()
    }

    /// The member ids, in declaration order.
    pub fn child_agent_ids(&self) -> (r: Vec<String>)
        ensures
            texts(r@) == self.spec_config().ids(),
    {
        let children = &self.config().child_agents;
        let mut ids: Vec<String> = Vec::new();
        let mut i: usize = 0;
        while i < children.len()
            invariant
                i <= children@.len(),
                texts(ids@) == crate::config::child_ids(children@).take(i as int),
            decreases children@.len() - i,
        {
            let ghost prev = ids@;
            ids.push(children[i].id.clone());
            proof {
                assert(texts(ids@) =~= texts(prev).push(children@[i as int].id@));
                assert(crate::config::child_ids(children@).take(i + 1) =~= crate::config::child_ids(
                    children@,
                ).take(i as int).push(children@[i as int].id@));
            }
            i = i + 1;
        }
        assert(crate::config::child_ids(children@).take(i as int) =~= crate::config::child_ids(
            children@,
        ));
        ids
    }

    /// Renders a run's result as a report: summary counts, one paragraph per outcome,
    /// and the aggregated text.
    pub fn format_team_output(&self, result: &TeamExecutionResult) -> (r: String)
        ensures
            r@ == team_report(*result),
    {
        let rs = &result.child_results;
        let mut successes: usize = 0;
        let mut i: usize = 0;
        while i < rs.len()
            invariant
                i <= rs@.len(),
                successes == success_count(rs@.take(i as int)),
            decreases rs@.len() - i,
        {
            proof {
                assert(rs@.take(i + 1).drop_last() =~= rs@.take(i as int));
                lemma_success_count_bound(rs@.take(i as int));
            }
            if rs[i].success {
                successes = successes + 1;
            }
            i = i + 1;
        }
        assert(rs@.take(rs@.len() as int) =~= rs@);
        let mut s = String::from_str("Team Execution Summary:\n- Total agents: ");
        push_decimal(&mut s, rs.len() as u64);
        s.append("\n- Successful: ");
        push_decimal(&mut s, successes as u64);
        s.append("\n- Execution time: ");
        push_decimal(&mut s, result.total_execution_time_ms);
        s.append("ms\n\n");
        s.append("Individual Agent Results:\n");
        let ghost head = s@;
        let mut i: usize = 0;
        while i < rs.len()
            invariant
                i <= rs@.len(),
                s@ == head + report_entries(rs@.take(i as int)),
            decreases rs@.len() - i,
        {
            proof {
                assert(rs@.take(i + 1).drop_last() =~= rs@.take(i as int));
            }
            push_report_entry(&mut s, i, &rs[i]);
            i = i + 1;
            proof {
                assert(s@ =~= head + report_entries(rs@.take(i as int)));
            }
        }
        s.append("Final Aggregated Output:\n");
        s.append(result.final_output.as_str());
        assert(s@ =~= team_report(*result));
        s
    }
}

/// A team offered to other agents as a callable tool.
pub struct TeamAgentTool<A> {
    team_agent: std::sync::Arc<TeamAgent<A>>,
    name: String,
    description: String,
}

/// Appends `items`, separated by `sep`.
fn push_joined(s: &mut String, items: &Vec<String>, sep: &str)
    ensures
        final(s)@ == old(s)@ + joined(texts(items@), sep@),
{
    let ghost head = old(s)@;
    let ghost t = texts(items@);
    let mut i: usize = 0;
    while i < items.len()
        invariant
            t == texts(items@),
            i <= items@.len(),
            s@ == head + joined(t.take(i as int), sep@),
        decreases items@.len() - i,
    {
        proof {
            assert(t.take(i + 1).drop_last() =~= t.take(i as int));
            if i == 0 {
                assert(t.take(1) =~= seq![t[0]]);
            }
        }
        if i > 0 {
            s.append(sep);
        }
        s.append(items[i].as_str());
        i = i + 1;
        proof {
            assert(s@ =~= head + joined(t.take(i as int), sep@));
        }
    }
    assert(t.take(i as int) =~= t);
}

impl<A> TeamAgentTool<A> {
    /// The team behind the tool.
    pub closed spec fn spec_team(&self) -> TeamAgent<A> {
        *self.team_agent
    }

    /// The tool's name.
    pub closed spec fn spec_name(&self) -> Seq<char> {
        self.name@
    }

    /// The tool's description.
    pub closed spec fn spec_description(&self) -> Seq<char> {
        self.description@
    }

    /// Offers `team_agent` as a tool with the given name and description.
    pub fn new(team_agent: std::sync::Arc<TeamAgent<A>>, name: &str, description: &str) -> (r: Self)
        ensures
            r.spec_team() == *team_agent,
            r.spec_name() == name@,
            r.spec_description() == description@,
    {
        TeamAgentTool {
            team_agent,
            name: String::from_str(name),
            description: String::from_str(description),
        }
    }

    /// Offers `team_agent` as a tool named after its member count and described by its ids.
    pub fn from_team_agent(team_agent: std::sync::Arc<TeamAgent<A>>) -> (r: Self)
        ensures
            r.spec_team() == *team_agent,
            r.spec_name() == auto_tool_name(team_agent.spec_config().ids()),
            r.spec_description() == auto_tool_description(team_agent.spec_config().ids()),
    {
        let ids = team_agent.child_agent_ids();
        let mut name = String::from_str("team_agent_");
        push_decimal(&mut name, ids.len() as u64);
        let mut description = String::from_str("A team agent that coordinates ");
        push_decimal(&mut description, ids.len() as u64);
        description.append(" child agents: ");
        push_joined(&mut description, &ids, ", ");
        proof {
            assert(texts(ids@).len() == ids@.len());
        }
        TeamAgentTool { team_agent, name, description }
    }

    /// The team behind the tool.
    pub fn team_agent(&self) -> (r: &TeamAgent<A>)
        ensures
            *r == self.spec_team(),
    {
        &self.team_agent
    }

    /// The tool's name.
    pub fn name(&self) -> (r: String)
        ensures
            r@ == self.spec_name(),
    {
        self.name.clone()
    }

    /// The tool's description.
    pub fn description(&self) -> (r: String)
        ensures
            r@ == self.spec_description(),
    {
        self.description.clone()
    }
}

} // verus!
