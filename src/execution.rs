use vstd::prelude::*;

use crate::config::{
    ChildAgentConfig, ConfigError, ConfigFault, ExecutionPattern, TeamAgentConfig, child_ids,
    config_fault, texts, topology_sound,
};

verus! {

/// What one child invocation produced.
#[derive(Debug, Clone)]
pub struct ChildAgentResult {
    /// Id of the child.
    pub agent_id: String,
    /// The child's answer, or a rendering of its failure.
    pub output: String,
    /// Whether the child resolved to an answer.
    pub success: bool,
    /// The failure message of a recorded failure.
    pub error: Option<String>,
    /// Duration of the invocation, in milliseconds.
    pub execution_time_ms: u64,
}

/// The composite outcome of one team run.
#[derive(Debug, Clone)]
pub struct TeamExecutionResult {
    /// Every recorded outcome, in production order.
    pub child_results: Vec<ChildAgentResult>,
    /// The outcomes rendered one per paragraph.
    pub final_output: String,
    /// Whether every recorded outcome succeeded.
    pub success: bool,
    /// Wall-clock duration of the whole run, in milliseconds.
    pub total_execution_time_ms: u64,
}

/// How one invocation of a child ended, as observed by the caller that ran it.
#[derive(Debug, Clone)]
pub enum ChildReply {
    /// The child resolved to a final answer.
    Finished(String),
    /// The child asked for a further action instead of answering.
    ActionRequested,
    /// The child failed with the given message.
    Failed(String),
    /// The child's own time bound expired.
    TimedOut,
}

/// A failure that aborts a team run.
#[derive(Debug, Clone, PartialEq, Eq)]
pub enum TeamError {
    /// The team declaration is unsound.
    Configuration(ConfigError),
    /// A child asked for a further action instead of answering.
    ChildContractViolation { agent_id: String },
    /// A child exceeded its own time bound.
    ChildTimeout { agent_id: String, seconds: u64 },
    /// A critical child failed.
    ChildFailed { agent_id: String, message: String },
    /// The batch of the concurrent pattern exceeded the global bound.
    BatchTimeout,
}

/// The text of a configuration error.
pub open spec fn config_error_text(e: ConfigFault) -> Seq<char> {
    match e {
        ConfigFault::NoChildren => "Team agent must have at least one child agent"@,
        ConfigFault::DuplicateId(id) => "Duplicate agent ID: "@ + id,
        ConfigFault::UnknownStepAgent(id) => "Unknown agent ID in execution step: "@ + id,
        ConfigFault::InvalidDependency { step, dependency } => "Invalid dependency: step "@
            + crate::text::decimal(step) + " cannot depend on step "@ + crate::text::decimal(
            dependency,
        ) + " (must be earlier)"@,
        ConfigFault::UncoveredAgent(id) => "Agent "@ + id + " is not included in any execution step"@,
    }
}

/// The text of a run failure.
pub open spec fn team_error_text(e: TeamError) -> Seq<char> {
    match e {
        TeamError::Configuration(c) => config_error_text(c@),
        TeamError::ChildContractViolation { .. } => "Child agent returned Action instead of Finish"@,
        TeamError::ChildTimeout { agent_id, seconds } => "Agent "@ + agent_id@ + " timed out after "@
            + crate::text::decimal(seconds as nat) + " seconds"@,
        TeamError::ChildFailed { message, .. } => message@,
        TeamError::BatchTimeout => "Global timeout exceeded"@,
    }
}

impl ConfigError {
    /// A human-readable description of the defect.
    pub fn message(&self) -> (r: String)
        ensures
            r@ == config_error_text(self@),
    {
        match self {
            ConfigError::NoChildren => String::from_str("Team agent must have at least one child agent"),
            ConfigError::DuplicateId(id) => {
                let mut s = String::from_str("Duplicate agent ID: ");
                s.append(id.as_str());
                s
            },
            ConfigError::UnknownStepAgent(id) => {
                let mut s = String::from_str("Unknown agent ID in execution step: ");
                s.append(id.as_str());
                s
            },
            ConfigError::InvalidDependency { step, dependency } => {
                let mut s = String::from_str("Invalid dependency: step ");
                crate::text::push_decimal(&mut s, *step as u64);
                s.append(" cannot depend on step ");
                crate::text::push_decimal(&mut s, *dependency as u64);
                s.append(" (must be earlier)");
                s
            },
            ConfigError::UncoveredAgent(id) => {
                let mut s = String::from_str("Agent ");
                s.append(id.as_str());
                s.append(" is not included in any execution step");
                s
            },
        }
    }
}

impl TeamError {
    /// A human-readable description of the failure.
    pub fn message(&self) -> (r: String)
        ensures
            r@ == team_error_text(*self),
    {
        match self {
            TeamError::Configuration(c) => c.message(),
            TeamError::ChildContractViolation { .. } => String::from_str(
                "Child agent returned Action instead of Finish",
            ),
            TeamError::ChildTimeout { agent_id, seconds } => {
                let mut s = String::from_str("Agent ");
                s.append(agent_id.as_str());
                s.append(" timed out after ");
                crate::text::push_decimal(&mut s, *seconds);
                s.append(" seconds");
                s
            },
            TeamError::ChildFailed { message, .. } => message.clone(),
            TeamError::BatchTimeout => String::from_str("Global timeout exceeded"),
        }
    }
}

/// Turns how one invocation of `child` ended into its recorded outcome, or into the
/// error that aborts the run: a request for a further action and an expired bound always
/// abort, a failure aborts only when the child is critical.
pub fn settle_child<A>(child: &ChildAgentConfig<A>, reply: ChildReply, elapsed_ms: u64) -> (r: Result<
    ChildAgentResult,
    TeamError,
>)
    requires
        reply is TimedOut ==> child.timeout is Some,
    ensures
        match reply {
            ChildReply::Finished(out) => r matches Ok(c) && c.agent_id@ == child.id@ && c.output@
                == out@ && c.success && c.error is None && c.execution_time_ms == elapsed_ms,
            ChildReply::ActionRequested => r matches Err(TeamError::ChildContractViolation { agent_id })
                && agent_id@ == child.id@,
            ChildReply::Failed(msg) => if child.critical {
                r matches Err(TeamError::ChildFailed { agent_id, message }) && agent_id@ == child.id@
                    && message@ == msg@
            } else {
                r matches Ok(c) && c.agent_id@ == child.id@ && c.output@ == "Error: "@ + msg@
                    && !c.success && c.error == Some(msg) && c.execution_time_ms == elapsed_ms
            },
            ChildReply::TimedOut => r matches Err(TeamError::ChildTimeout { agent_id, seconds })
                && agent_id@ == child.id@ && child.timeout == Some(seconds),
        },
{
    match reply {
        ChildReply::Finished(out) => Ok(
            ChildAgentResult {
                agent_id: child.id.clone(),
                output: out,
                success: true,
                error: None,
                execution_time_ms: elapsed_ms,
            },
        ),
        ChildReply::ActionRequested => Err(
            TeamError::ChildContractViolation { agent_id: child.id.clone() },
        ),
        ChildReply::Failed(msg) => {
            if child.critical {
                Err(TeamError::ChildFailed { agent_id: child.id.clone(), message: msg })
            } else {
                let mut output = String::from_str("Error: ");
                output.append(msg.as_str());
                Ok(
                    ChildAgentResult {
                        agent_id: child.id.clone(),
                        output,
                        success: false,
                        error: Some(msg),
                        execution_time_ms: elapsed_ms,
                    },
                )
            }
        },
        ChildReply::TimedOut => {
            let seconds = match child.timeout {
                Some(t) => t,
                None => 0,
            };
            Err(TeamError::ChildTimeout { agent_id: child.id.clone(), seconds })
        },
    }
}

/// The paragraph that reports one outcome.
pub open spec fn outcome_line(r: ChildAgentResult) -> Seq<char> {
    if r.success {
        r.agent_id@ + ": "@ + r.output@
    } else {
        r.agent_id@ + ": ERROR - "@ + match r.error {
            Some(e) => e@,
            None => "Unknown error"@,
        }
    }
}

/// The lines, separated by `sep`.
pub open spec fn joined(lines: Seq<Seq<char>>, sep: Seq<char>) -> Seq<char>
    decreases lines.len(),
{
    if lines.len() == 0 {
        Seq::empty()
    } else if lines.len() == 1 {
        lines[0]
    } else {
        joined(lines.drop_last(), sep) + sep + lines.last()
    }
}

/// The combined text of a sequence of outcomes: one paragraph each, separated by a blank line.
pub open spec fn aggregate_text(rs: Seq<ChildAgentResult>) -> Seq<char> {
    joined(rs.map_values(|r: ChildAgentResult| outcome_line(r)), "\n\n"@)
}

/// Every outcome succeeded.
pub open spec fn all_succeeded(rs: Seq<ChildAgentResult>) -> bool {
    forall|i: int| 0 <= i < rs.len() ==> #[trigger] rs[i].success
}

fn push_outcome_line(s: &mut String, r: &ChildAgentResult)
    ensures
        final(s)@ == old(s)@ + outcome_line(*r),
{
    s.append(r.agent_id.as_str());
    if r.success {
        s.append(": ");
        s.append(r.output.as_str());
    } else {
        s.append(": ERROR - ");
        match &r.error {
            Some(e) => s.append(e.as_str()),
            None => s.append("Unknown error"),
        }
    }
}

/// Renders the outcomes one paragraph each, separated by a blank line.
fn render_outcomes(results: &Vec<ChildAgentResult>) -> (r: String)
    ensures
        r@ == aggregate_text(results@),
{
    let ghost lines = results@.map_values(|r: ChildAgentResult| outcome_line(r));
    let mut s = String::new();
    let mut i: usize = 0;
    while i < results.len()
        invariant
            lines == results@.map_values(|r: ChildAgentResult| outcome_line(r)),
            i <= results@.len(),
            s@ == joined(lines.take(i as int), "\n\n"@),
        decreases results@.len() - i,
    {
        proof {
            assert(lines.take(i + 1).drop_last() =~= lines.take(i as int));
            assert(lines.take(i + 1).last() == lines[i as int]);
            if i == 0 {
                assert(lines.take(1) =~= seq![lines[0]]);
            }
        }
        if i > 0 {
            s.append("\n\n");
        }
        push_outcome_line(&mut s, &results[i]);
        i = i + 1;
    }
    assert(lines.take(results@.len() as int) =~= lines);
    s
}

/// Whether every outcome succeeded.
fn every_success(results: &Vec<ChildAgentResult>) -> (r: bool)
    ensures
        r == all_succeeded(results@),
{
    let mut i: usize = 0;
    while i < results.len()
        invariant
            i <= results@.len(),
            forall|k: int| 0 <= k < i ==> #[trigger] results@[k].success,
        decreases results@.len() - i,
    {
        if !results[i].success {
            return false;
        }
        i = i + 1;
    }
    true
}

/// One stage of a run: a group of members that runs either as one parallel batch or one
/// member at a time, and the earlier stages whose outputs it receives.
#[derive(Debug)]
pub struct Stage {
    /// Indices of the members, in order.
    pub members: Vec<usize>,
    /// Whether the members run as one parallel batch.
    pub concurrent: bool,
    /// Indices of earlier stages whose outputs the members receive.
    pub dependencies: Vec<usize>,
}

/// An addition to a member's view of the task.
#[derive(Debug, Clone, PartialEq, Eq)]
pub enum ContextEntry {
    /// The raw output of the member that ran just before, in the same chain.
    PreviousOutput(String),
    /// The id of the member that ran just before, in the same chain.
    PreviousAgent(String),
    /// The `(id, output)` pairs that an earlier stage produced, scoped to its index.
    StepOutputs { step: usize, outputs: Vec<(String, String)> },
}

/// The mathematical value of a `ContextEntry`.
pub enum ContextItem {
    PreviousOutput(Seq<char>),
    PreviousAgent(Seq<char>),
    StepOutputs { step: nat, outputs: Seq<(String, String)> },
}

impl View for ContextEntry {
    type V = ContextItem;

    open spec fn view(&self) -> ContextItem {
        match self {
            ContextEntry::PreviousOutput(o) => ContextItem::PreviousOutput(o@),
            ContextEntry::PreviousAgent(a) => ContextItem::PreviousAgent(a@),
            ContextEntry::StepOutputs { step, outputs } => ContextItem::StepOutputs {
                step: *step as nat,
                outputs: outputs@,
            },
        }
    }
}

/// The values of a sequence of context entries.
pub open spec fn context_items(v: Seq<ContextEntry>) -> Seq<ContextItem> {
    v.map_values(|e: ContextEntry| e@)
}

/// A group of members to invoke together, with what each of them receives.
#[derive(Debug)]
pub struct Batch {
    /// Indices of the members to invoke; all run in parallel.
    pub members: Vec<usize>,
    /// What is added to each member's view of the task.
    pub context: Vec<ContextEntry>,
    /// Bound on the whole batch, in seconds.
    pub time_limit: Option<u64>,
}

/// The progress of one team run: which stage comes next, and what has been recorded.
pub struct TeamRun {
    stages: Vec<Stage>,
    member_count: usize,
    break_on_error: bool,
    batch_limit: Option<u64>,
    stage: usize,
    position: usize,
    stopped: bool,
    stage_pairs: Vec<(String, String)>,
    recorded: Vec<Vec<(String, String)>>,
    outcomes: Vec<ChildAgentResult>,
}

/// The mathematical value of a stage.
pub struct StagePlan {
    pub members: Seq<usize>,
    pub concurrent: bool,
    pub dependencies: Seq<usize>,
}

/// The mathematical value of a run.
pub struct RunState {
    pub stages: Seq<StagePlan>,
    pub member_count: nat,
    pub break_on_error: bool,
    pub batch_limit: Option<u64>,
    pub stage: int,
    pub position: int,
    pub stopped: bool,
    /// `(id, output)` of each member of the current stage that has run so far.
    pub stage_pairs: Seq<(String, String)>,
    /// `(id, output)` of each member of each finished stage, by stage index.
    pub recorded: Seq<Seq<(String, String)>>,
    /// Every recorded outcome, in production order.
    pub outcomes: Seq<ChildAgentResult>,
}

impl View for Stage {
    type V = StagePlan;

    open spec fn view(&self) -> StagePlan {
        StagePlan {
            members: self.members@,
            concurrent: self.concurrent,
            dependencies: self.dependencies@,
        }
    }
}

impl View for TeamRun {
    type V = RunState;

    closed spec fn view(&self) -> RunState {
        RunState {
            stages: self.stages@.map_values(|s: Stage| s@),
            member_count: self.member_count as nat,
            break_on_error: self.break_on_error,
            batch_limit: self.batch_limit,
            stage: self.stage as int,
            position: self.position as int,
            stopped: self.stopped,
            stage_pairs: self.stage_pairs@,
            recorded: self.recorded@.map_values(|v: Vec<(String, String)>| v@),
            outcomes: self.outcomes@,
        }
    }
}

/// The `(id, output)` pairs of a sequence of outcomes.
pub open spec fn pairs_of(rs: Seq<ChildAgentResult>) -> Seq<(String, String)> {
    rs.map_values(|r: ChildAgentResult| (r.agent_id, r.output))
}

/// A run state that the dispatcher can keep working on.
pub open spec fn run_wf(s: RunState) -> bool {
    &&& 0 <= s.stage <= s.stages.len()
    &&& s.recorded.len() == s.stage
    &&& forall|k: int, p: int|
        0 <= k < s.stages.len() && 0 <= p < s.stages[k].dependencies.len()
            ==> #[trigger] s.stages[k].dependencies[p] < k
    &&& forall|k: int, p: int|
        0 <= k < s.stages.len() && 0 <= p < s.stages[k].members.len()
            ==> #[trigger] s.stages[k].members[p] < s.member_count
    &&& s.stage < s.stages.len() ==> {
        &&& 0 <= s.position <= s.stages[s.stage].members.len()
        &&& s.stage_pairs.len() == s.position
        &&& s.stages[s.stage].concurrent ==> s.position == 0
    }
}

/// Nothing remains to be invoked.
pub open spec fn run_done(s: RunState) -> bool {
    s.stopped || s.stage >= s.stages.len()
}

/// The members invoked next: the whole stage when it is concurrent, else its next member.
pub open spec fn next_members(s: RunState) -> Seq<usize> {
    let st = s.stages[s.stage];
    if st.concurrent {
        st.members
    } else if s.position < st.members.len() {
        seq![st.members[s.position]]
    } else {
        Seq::empty()
    }
}

/// The outputs of the stages that `deps` names, each scoped to its stage index.
pub open spec fn dependency_context(deps: Seq<usize>, recorded: Seq<Seq<(String, String)>>) -> Seq<
    ContextItem,
> {
    deps.map_values(|d: usize| ContextItem::StepOutputs { step: d as nat, outputs: recorded[d as int] })
}

/// The output and id of the member that ran just before, if any.
pub open spec fn chain_context(pairs: Seq<(String, String)>) -> Seq<ContextItem> {
    if pairs.len() == 0 {
        Seq::empty()
    } else {
        seq![
            ContextItem::PreviousOutput(pairs.last().1@),
            ContextItem::PreviousAgent(pairs.last().0@),
        ]
    }
}

/// What the members invoked next receive.
pub open spec fn next_context(s: RunState) -> Seq<ContextItem> {
    dependency_context(s.stages[s.stage].dependencies, s.recorded) + chain_context(s.stage_pairs)
}

/// Some outcome failed.
pub open spec fn any_failed(rs: Seq<ChildAgentResult>) -> bool {
    exists|i: int| 0 <= i < rs.len() && !#[trigger] rs[i].success
}

/// The state after the results of the next batch are recorded.
pub open spec fn run_after(s: RunState, results: Seq<ChildAgentResult>) -> RunState {
    let st = s.stages[s.stage];
    let pairs = s.stage_pairs + pairs_of(results);
    let outcomes = s.outcomes + results;
    let stage_over = st.concurrent || s.position + 1 >= st.members.len() || (s.break_on_error
        && results.len() > 0 && !results.last().success);
    if stage_over {
        RunState {
            stage: s.stage + 1,
            position: 0,
            stopped: s.break_on_error && any_failed(outcomes),
            stage_pairs: Seq::empty(),
            recorded: s.recorded.push(pairs),
            outcomes,
            ..s
        }
    } else {
        RunState { position: s.position + 1, stage_pairs: pairs, outcomes, ..s }
    }
}

/// The stages that a pattern describes over `ids`.
pub open spec fn stages_match(
    stages: Seq<StagePlan>,
    ids: Seq<Seq<char>>,
    pattern: ExecutionPattern,
) -> bool {
    match pattern {
        ExecutionPattern::Concurrent => stages == seq![
            StagePlan {
                members: Seq::new(ids.len(), |i: int| i as usize),
                concurrent: true,
                dependencies: Seq::empty(),
            },
        ],
        ExecutionPattern::Sequential => stages == seq![
            StagePlan {
                members: Seq::new(ids.len(), |i: int| i as usize),
                concurrent: false,
                dependencies: Seq::empty(),
            },
        ],
        ExecutionPattern::Hybrid(steps) => {
            &&& stages.len() == steps@.len()
            &&& forall|k: int|
                0 <= k < stages.len() ==> {
                    &&& (#[trigger] stages[k]).concurrent == steps@[k].concurrent
                    &&& stages[k].dependencies == steps@[k].dependencies@
                    &&& stages[k].members.len() == steps@[k].agent_ids@.len()
                    &&& forall|p: int|
                        0 <= p < stages[k].members.len() ==> ids[#[trigger] stages[k].members[p] as int]
                            == texts(steps@[k].agent_ids@)[p]
                }
        },
    }
}

/// Dispatches a validated team declaration.
pub struct TeamExecutor<A> {
    config: TeamAgentConfig<A>,
}

impl<A> TeamExecutor<A> {
    #[verifier::type_invariant]
    spec fn sound(&self) -> bool {
        config_fault(self.config.ids(), self.config.execution_pattern) == None::<ConfigFault>
    }

    /// The declaration this executor runs.
    pub closed spec fn spec_config(&self) -> TeamAgentConfig<A> {
        self.config
    }

    /// Validates the declaration and keeps it for any number of runs.
    pub fn new(config: TeamAgentConfig<A>) -> (r: Result<Self, TeamError>)
        ensures
            match r {
                Ok(e) => config_fault(config.ids(), config.execution_pattern) == None::<ConfigFault>
                    && e.spec_config() == config,
                Err(TeamError::Configuration(c)) => config_fault(config.ids(), config.execution_pattern)
                    == Some(c@),
                Err(_) => false,
            },
    {
        match config.validate() {
            Ok(_) => Ok(TeamExecutor { config }),
            Err(e) => Err(TeamError::Configuration(e)),
        }
    }

    /// The declaration this executor runs.
    pub fn config(&self) -> (r: &TeamAgentConfig<A>)
        ensures
            *r == self.spec_config(),
            topology_sound(r.ids(), r.execution_pattern),
    {
        proof {
            use_type_invariant(self);
            crate::config::fault_free_is_sound(self.config.ids(), self.config.execution_pattern);
        }
        &self.config
    }

    /// Starts a run: nothing recorded yet, the first stage next.
    pub fn start(&self) -> (r: TeamRun)
        ensures
            run_wf(r@),
            stages_match(r@.stages, self.spec_config().ids(), self.spec_config().execution_pattern),
            r@.member_count == self.spec_config().child_agents@.len(),
            r@.break_on_error == self.spec_config().break_on_error,
            r@.batch_limit == (if self.spec_config().execution_pattern is Concurrent {
                self.spec_config().global_timeout
            } else {
                None
            }),
            r@.stage == 0,
            r@.position == 0,
            !r@.stopped,
            r@.stage_pairs.len() == 0,
            r@.outcomes.len() == 0,
    {
        let config = self.config();
        let n = config.child_agents.len();
        let ghost ids = config.ids();
        let mut stages: Vec<Stage> = Vec::new();
        let mut batch_limit: Option<u64> = None;
        match &config.execution_pattern {
            ExecutionPattern::Concurrent => {
                stages.push(Stage { members: all_members(n), concurrent: true, dependencies: Vec::new() });
                batch_limit = config.global_timeout;
            },
            ExecutionPattern::Sequential => {
                stages.push(Stage { members: all_members(n), concurrent: false, dependencies: Vec::new() });
            },
            ExecutionPattern::Hybrid(steps) => {
                let mut k: usize = 0;
                while k < steps.len()
                    invariant
                        ids == config.ids(),
                        n == config.child_agents@.len(),
                        topology_sound(ids, config.execution_pattern),
                        config.execution_pattern == ExecutionPattern::Hybrid(*steps),
                        k <= steps@.len(),
                        stages@.len() == k,
                        forall|j: int|
                            0 <= j < k ==> {
                                &&& (#[trigger] stages@[j])@.concurrent == steps@[j].concurrent
                                &&& stages@[j]@.dependencies == steps@[j].dependencies@
                                &&& stages@[j]@.members.len() == steps@[j].agent_ids@.len()
                                &&& forall|p: int|
                                    0 <= p < stages@[j]@.members.len() ==> ids[#[trigger] stages@[j]@.members[p] as int]
                                        == texts(steps@[j].agent_ids@)[p]
                                &&& forall|p: int|
                                    0 <= p < stages@[j]@.members.len() ==> #[trigger] stages@[j]@.members[p] < n
                            },
                    decreases steps@.len() - k,
                {
                    let step = &steps[k];
                    let members = step_members(&step.agent_ids, &config.child_agents);
                    stages.push(Stage { members, concurrent: step.concurrent, dependencies: step.dependencies.clone() });
                    k = k + 1;
                }
            },
        }
        let r = TeamRun {
            stages,
            member_count: n,
            break_on_error: config.break_on_error,
            batch_limit,
            stage: 0,
            position: 0,
            stopped: false,
            stage_pairs: Vec::new(),
            recorded: Vec::new(),
            outcomes: Vec::new(),
        };
        proof {
            let s = r@;
            assert(s.recorded =~= Seq::<Seq<(String, String)>>::empty());
            match &config.execution_pattern {
                ExecutionPattern::Hybrid(steps) => {
                    assert forall|k: int, p: int|
                        0 <= k < s.stages.len() && 0 <= p < s.stages[k].dependencies.len()
                            implies #[trigger] s.stages[k].dependencies[p] < k by {
                        assert(crate::config::step_sound(steps@[k], ids, k));
                    }
                    assert forall|k: int, p: int|
                        0 <= k < s.stages.len() && 0 <= p < s.stages[k].members.len()
                            implies #[trigger] s.stages[k].members[p] < s.member_count by {
                        assert(stages@[k]@ == s.stages[k]);
                    }
                    assert forall|k: int| 0 <= k < s.stages.len() implies (#[trigger] s.stages[k]) == r.stages@[k]@ by {}
                },
                ExecutionPattern::Concurrent => {
                    assert(s.stages =~= seq![
                        StagePlan {
                            members: Seq::new(ids.len(), |i: int| i as usize),
                            concurrent: true,
                            dependencies: Seq::empty(),
                        },
                    ]);
                },
                ExecutionPattern::Sequential => {
                    assert(s.stages =~= seq![
                        StagePlan {
                            members: Seq::new(ids.len(), |i: int| i as usize),
                            concurrent: false,
                            dependencies: Seq::empty(),
                        },
                    ]);
                },
            }
        }
        r
    }

    /// Folds outcomes into one result: overall success is the conjunction of the
    /// outcomes' success, and the text has one paragraph per outcome, in order.
    pub fn aggregate_results(&self, results: Vec<ChildAgentResult>) -> (r: TeamExecutionResult)
        ensures
            r.child_results@ == results@,
            r.final_output@ == aggregate_text(results@),
            r.success == all_succeeded(results@),
            r.total_execution_time_ms == 0,
    {
        let success = every_success(&results);
        let final_output = render_outcomes(&results);
        TeamExecutionResult {
            child_results: results,
            final_output,
            success,
            total_execution_time_ms: 0,
        }
    }

    /// Ends a finished run: the aggregated outcomes, with the run's wall-clock duration,
    /// which is never below one millisecond.
    pub fn conclude(&self, run: TeamRun, elapsed_ms: u64) -> (r: TeamExecutionResult)
        requires
            run_done(run@),
        ensures
            r.child_results@ == run@.outcomes,
            r.final_output@ == aggregate_text(run@.outcomes),
            r.success == all_succeeded(run@.outcomes),
            r.total_execution_time_ms > 0,
            elapsed_ms > 0 ==> r.total_execution_time_ms == elapsed_ms,
    {
        let mut result = self.aggregate_results(run.outcomes);
        result.total_execution_time_ms = if elapsed_ms == 0 {
            1
        } else {
            elapsed_ms
        };
        result
    }
}

/// The indices `0..n`, in order.
fn all_members(n: usize) -> (r: Vec<usize>)
    ensures
        r@ == Seq::new(n as nat, |i: int| i as usize),
{
    let mut v: Vec<usize> = Vec::new();
    let mut i: usize = 0;
    while i < n
        invariant
            i <= n,
            v@ == Seq::new(i as nat, |j: int| j as usize),
        decreases n - i,
    {
        v.push(i);
        i = i + 1;
        assert(v@ =~= Seq::new(i as nat, |j: int| j as usize));
    }
    v
}

/// The index of the member with id `name`, if there is one.
fn member_index<A>(children: &Vec<ChildAgentConfig<A>>, name: &String) -> (r: Option<usize>)
    ensures
        match r {
            Some(i) => i < children@.len() && child_ids(children@)[i as int] == name@,
            None => !child_ids(children@).contains(name@),
        },
{
    let ghost ids = child_ids(children@);
    let mut i: usize = 0;
    while i < children.len()
        invariant
            ids == child_ids(children@),
            i <= children@.len(),
            forall|m: int| 0 <= m < i ==> ids[m] != name@,
        decreases children@.len() - i,
    {
        assert(ids[i as int] == children@[i as int].id@);
        if children[i].id == *name {
            return Some(i);
        }
        i = i + 1;
    }
    proof {
        if ids.contains(name@) {
            let m = choose|m: int| 0 <= m < ids.len() && ids[m] == name@;
            assert(ids[m] != name@);
        }
    }
    None
}

/// The indices of the members that `names` lists, in its order.
fn step_members<A>(names: &Vec<String>, children: &Vec<ChildAgentConfig<A>>) -> (r: Vec<usize>)
    requires
        forall|p: int| 0 <= p < names@.len() ==> child_ids(children@).contains(#[trigger] texts(names@)[p]),
    ensures
        r@.len() == names@.len(),
        forall|p: int| 0 <= p < r@.len() ==> child_ids(children@)[#[trigger] r@[p] as int] == texts(names@)[p],
        forall|p: int| 0 <= p < r@.len() ==> #[trigger] r@[p] < children@.len(),
{
    let mut v: Vec<usize> = Vec::new();
    let mut p: usize = 0;
    while p < names.len()
        invariant
            forall|q: int| 0 <= q < names@.len() ==> child_ids(children@).contains(#[trigger] texts(names@)[q]),
            p <= names@.len(),
            v@.len() == p,
            forall|q: int| 0 <= q < p ==> child_ids(children@)[#[trigger] v@[q] as int] == texts(names@)[q],
            forall|q: int| 0 <= q < p ==> #[trigger] v@[q] < children@.len(),
        decreases names@.len() - p,
    {
        assert(texts(names@)[p as int] == names@[p as int]@);
        match member_index(children, &names[p]) {
            Some(i) => v.push(i),
            None => {
                assert(false);
            },
        }
        p = p + 1;
    }
    v
}

/// A copy of a list of indices.
fn copy_indices(v: &Vec<usize>) -> (r: Vec<usize>)
    ensures
        r@ == v@,
{
    let mut out: Vec<usize> = Vec::new();
    let mut i: usize = 0;
    while i < v.len()
        invariant
            i <= v@.len(),
            out@ == v@.take(i as int),
        decreases v@.len() - i,
    {
        out.push(v[i]);
        i = i + 1;
        assert(out@ =~= v@.take(i as int));
    }
    assert(v@.take(v@.len() as int) =~= v@);
    out
}

/// A copy of a list of `(id, output)` pairs.
fn copy_pairs(v: &Vec<(String, String)>) -> (r: Vec<(String, String)>)
    ensures
        r@ == v@,
{
    let mut out: Vec<(String, String)> = Vec::new();
    let mut i: usize = 0;
    while i < v.len()
        invariant
            i <= v@.len(),
            out@ == v@.take(i as int),
        decreases v@.len() - i,
    {
        let pair = &v[i];
        out.push((pair.0.clone(), pair.1.clone()));
        i = i + 1;
        assert(out@ =~= v@.take(i as int));
    }
    assert(v@.take(v@.len() as int) =~= v@);
    out
}

impl TeamRun {
    /// Whether nothing remains to be invoked.
    pub fn is_done(&self) -> (r: bool)
        ensures
            r == run_done(self@),
    {
        self.stopped || self.stage >= self.stages.len()
    }

    /// The batch to invoke next, or `None` once the run is over. A concurrent stage is
    /// one batch of all its members; a sequential stage gives one member at a time, which
    /// also receives the output and id of the member before it. Every member of a stage
    /// receives the outputs of the stages it depends on, and of no others.
    pub fn pending(&self) -> (r: Option<Batch>)
        requires
            run_wf(self@),
        ensures
            match r {
                None => run_done(self@),
                Some(b) => {
                    &&& !run_done(self@)
                    &&& b.members@ == next_members(self@)
                    &&& context_items(b.context@) == next_context(self@)
                    &&& b.time_limit == self@.batch_limit
                },
            },
    {
        if self.is_done() {
            return None;
        }
        let ghost s = self@;
        let st = &self.stages[self.stage];
        assert(st@ == s.stages[s.stage]);
        let members = if st.concurrent {
            copy_indices(&st.members)
        } else if self.position < st.members.len() {
            let mut one: Vec<usize> = Vec::new();
            one.push(st.members[self.position]);
            assert(one@ =~= seq![st.members@[self.position as int]]);
            one
        } else {
            Vec::new()
        };
        let ghost deps = st.dependencies@;
        let mut context: Vec<ContextEntry> = Vec::new();
        let mut p: usize = 0;
        while p < st.dependencies.len()
            invariant
                s == self@,
                run_wf(s),
                !run_done(s),
                deps == st.dependencies@,
                st@ == s.stages[s.stage],
                p <= deps.len(),
                context_items(context@) == dependency_context(deps.take(p as int), s.recorded),
            decreases deps.len() - p,
        {
            let d = st.dependencies[p];
            assert(s.stages[s.stage].dependencies[p as int] < s.stage);
            assert(self.recorded@[d as int]@ == s.recorded[d as int]);
            let outputs = copy_pairs(&self.recorded[d]);
            let ghost prev = context@;
            let entry = ContextEntry::StepOutputs { step: d, outputs };
            let ghost item = entry@;
            assert(item == ContextItem::StepOutputs { step: d as nat, outputs: s.recorded[d as int] });
            context.push(entry);
            proof {
                assert(context@ == prev.push(entry));
                assert(context_items(context@) =~= context_items(prev).push(item));
                assert(deps.take(p + 1) =~= deps.take(p as int).push(d));
                assert(dependency_context(deps.take(p + 1), s.recorded) =~= dependency_context(
                    deps.take(p as int),
                    s.recorded,
                ).push(item));
            }
            p = p + 1;
        }
        assert(deps.take(deps.len() as int) =~= deps);
        let ghost before = context@;
        let n = self.stage_pairs.len();
        if n > 0 {
            let last = &self.stage_pairs[n - 1];
            context.push(ContextEntry::PreviousOutput(last.1.clone()));
            context.push(ContextEntry::PreviousAgent(last.0.clone()));
        }
        assert(context_items(context@) =~= context_items(before) + chain_context(s.stage_pairs));
        Some(Batch { members, context, time_limit: self.batch_limit })
    }

    /// Records the outcomes of the batch that `pending` gave, in its order.
    pub fn record(&mut self, results: Vec<ChildAgentResult>)
        requires
            run_wf(old(self)@),
            !run_done(old(self)@),
            results@.len() == next_members(old(self)@).len(),
        ensures
            final(self)@ == run_after(old(self)@, results@),
            run_wf(final(self)@),
    {
        let ghost s = self@;
        let stage_count = self.stages.len();
        assert(self.stage < stage_count);
        let next_stage = self.stage + 1;
        let concurrent = self.stages[self.stage].concurrent;
        let n_members = self.stages[self.stage].members.len();
        assert(self.stages@[self.stage as int]@ == s.stages[s.stage]);
        let last_failed = results.len() > 0 && !results[results.len() - 1].success;
        let mut i: usize = 0;
        while i < results.len()
            invariant
                i <= results@.len(),
                self.stage_pairs@ == s.stage_pairs + pairs_of(results@.take(i as int)),
                self.stages == old(self).stages,
                self.recorded == old(self).recorded,
                self.outcomes == old(self).outcomes,
                self.stage == old(self).stage,
                self.stage < self.stages@.len(),
                self.position == old(self).position,
                self.stopped == old(self).stopped,
                self.break_on_error == old(self).break_on_error,
                self.batch_limit == old(self).batch_limit,
                self.member_count == old(self).member_count,
            decreases results@.len() - i,
        {
            let r = &results[i];
            self.stage_pairs.push((r.agent_id.clone(), r.output.clone()));
            i = i + 1;
            assert(self.stage_pairs@ =~= s.stage_pairs + pairs_of(results@.take(i as int)));
        }
        assert(results@.take(results@.len() as int) =~= results@);
        let ghost given = results@;
        let mut moved = results;
        self.outcomes.append(&mut moved);
        let stage_over = concurrent || n_members == 0 || self.position >= n_members - 1 || (
        self.break_on_error && last_failed);
        if stage_over {
            let mut pairs: Vec<(String, String)> = Vec::new();
            std::mem::swap(&mut self.stage_pairs, &mut pairs);
            let ghost old_recorded = self.recorded@;
            let ghost pv = pairs@;
            assert(pv == s.stage_pairs + pairs_of(given));
            self.recorded.push(pairs);
            proof {
                let rv = self.recorded@.map_values(|v: Vec<(String, String)>| v@);
                assert forall|k: int| 0 <= k < rv.len() implies rv[k] == s.recorded.push(pv)[k] by {
                    if k < old_recorded.len() {
                        assert(self.recorded@[k] == old_recorded[k]);
                    }
                }
                assert(rv =~= s.recorded.push(pv));
            }
            self.stage = next_stage;
            self.position = 0;
            self.stopped = self.break_on_error && !every_success(&self.outcomes);
            proof {
                let t = self@;
                assert(t.recorded =~= s.recorded.push(s.stage_pairs + pairs_of(given)));
                assert(t.stage_pairs =~= Seq::<(String, String)>::empty());
                assert(!all_succeeded(t.outcomes) <==> any_failed(t.outcomes));
                assert(t.stages == s.stages);
            }
        } else {
            self.position = self.position + 1;
            proof {
                let t = self@;
                assert(t.stages == s.stages);
                assert(t.recorded == s.recorded);
            }
        }
        proof {
            let t = self@;
            let expected = run_after(s, given);
            assert(t.outcomes =~= s.outcomes + given);
            assert(t.stage_pairs == expected.stage_pairs);
            assert(t.recorded == expected.recorded);
        }
    }
}

} // verus!

verus! {

/// The members of a stage receive, scoped to its index, the recorded outputs of every stage
/// that the stage depends on, and the outputs of no other stage.
pub proof fn dependencies_fix_step_outputs(s: RunState)
    requires
        run_wf(s),
        !run_done(s),
    ensures
        forall|p: int|
            0 <= p < s.stages[s.stage].dependencies.len() ==> next_context(s).contains(
                ContextItem::StepOutputs {
                    step: #[trigger] s.stages[s.stage].dependencies[p] as nat,
                    outputs: s.recorded[s.stages[s.stage].dependencies[p] as int],
                },
            ),
        forall|i: int|
            0 <= i < next_context(s).len() && (#[trigger] next_context(s)[i]) is StepOutputs ==> {
                let step = next_context(s)[i]->StepOutputs_step;
                &&& s.stages[s.stage].dependencies.contains(step as usize)
                &&& step < s.stage
                &&& next_context(s)[i]->StepOutputs_outputs == s.recorded[step as int]
            },
{
    let deps = s.stages[s.stage].dependencies;
    let dc = dependency_context(deps, s.recorded);
    let cc = chain_context(s.stage_pairs);
    let ctx = next_context(s);
    assert(ctx == dc + cc);
    assert forall|p: int| 0 <= p < deps.len() implies ctx.contains(
        ContextItem::StepOutputs {
            step: #[trigger] deps[p] as nat,
            outputs: s.recorded[deps[p] as int],
        },
    ) by {
        assert(ctx[p] == dc[p]);
    }
    assert forall|i: int| 0 <= i < ctx.len() && (#[trigger] ctx[i]) is StepOutputs implies {
        let step = ctx[i]->StepOutputs_step;
        &&& deps.contains(step as usize)
        &&& step < s.stage
        &&& ctx[i]->StepOutputs_outputs == s.recorded[step as int]
    } by {
        if i < dc.len() {
            assert(ctx[i] == dc[i]);
            assert(deps[i] < s.stage);
            assert(deps[i] as nat as usize == deps[i]);
        } else {
            assert(ctx[i] == cc[i - dc.len()]);
        }
    }
}

/// With `break_on_error`, a failed outcome in a sequential stage ends the run: no later
/// member of the stage, and no later stage, is invoked.
pub proof fn sequential_failure_stops(s: RunState, result: ChildAgentResult)
    requires
        run_wf(s),
        !run_done(s),
        !s.stages[s.stage].concurrent,
        s.position < s.stages[s.stage].members.len(),
        s.break_on_error,
        !result.success,
    ensures
        run_done(run_after(s, seq![result])),
{
    let outcomes = s.outcomes + seq![result];
    assert(!outcomes[outcomes.len() - 1].success);
    assert(any_failed(outcomes));
}

/// Without `break_on_error`, a sequential stage goes on to its next member whatever the
/// previous outcome was, and that member receives the previous member's output and id.
pub proof fn sequential_chain_continues(s: RunState, result: ChildAgentResult)
    requires
        run_wf(s),
        !run_done(s),
        !s.stages[s.stage].concurrent,
        s.position + 1 < s.stages[s.stage].members.len(),
        !s.break_on_error,
    ensures
        ({
            let t = run_after(s, seq![result]);
            &&& run_wf(t)
            &&& !run_done(t)
            &&& next_members(t) == seq![s.stages[s.stage].members[s.position + 1]]
            &&& chain_context(t.stage_pairs) == seq![
                ContextItem::PreviousOutput(result.output@),
                ContextItem::PreviousAgent(result.agent_id@),
            ]
            &&& next_context(t).contains(ContextItem::PreviousOutput(result.output@))
            &&& next_context(t).contains(ContextItem::PreviousAgent(result.agent_id@))
        }),
{
    let t = run_after(s, seq![result]);
    assert(pairs_of(seq![result]) =~= seq![(result.agent_id, result.output)]);
    assert(t.stage_pairs.last() == (result.agent_id, result.output));
    let dc = dependency_context(t.stages[t.stage].dependencies, t.recorded);
    let cc = chain_context(t.stage_pairs);
    assert(next_context(t) == dc + cc);
    assert(next_context(t)[dc.len() as int] == cc[0]);
    assert(next_context(t)[dc.len() as int + 1] == cc[1]);
}

/// A failed outcome makes the run unsuccessful and is reported as `"<id>: ERROR - <message>"`.
pub proof fn failure_is_reported(rs: Seq<ChildAgentResult>, i: int)
    requires
        0 <= i < rs.len(),
        !rs[i].success,
        rs[i].error is Some,
    ensures
        !all_succeeded(rs),
        rs.map_values(|r: ChildAgentResult| outcome_line(r))[i] == rs[i].agent_id@ + ": ERROR - "@
            + rs[i].error->0@,
{
}

} // verus!
