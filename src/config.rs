use vstd::prelude::*;

verus! {

/// How the members of a team are scheduled.
#[derive(Debug, Clone)]
pub enum ExecutionPattern {
    /// Every child runs in one parallel batch.
    Concurrent,
    /// Children run one at a time, in declaration order, each seeing its predecessor's output.
    Sequential,
    /// An ordered list of steps; each step may depend on strictly earlier steps.
    Hybrid(Vec<ExecutionStep>),
}

/// One node of a hybrid topology.
#[derive(Debug, Clone)]
pub struct ExecutionStep {
    /// Ids of the children that run in this step.
    pub agent_ids: Vec<String>,
    /// Whether the step's children run as one parallel batch.
    pub concurrent: bool,
    /// Indices of earlier steps whose outputs this step receives.
    pub dependencies: Vec<usize>,
}

/// One member of a team: an id, a handle on the agent, and the member's policy.
pub struct ChildAgentConfig<A> {
    /// Identifier, unique within the team.
    pub id: String,
    /// Handle on the agent (or nested team) that does the work.
    pub agent: A,
    /// Bound on one invocation of this child, in seconds.
    pub timeout: Option<u64>,
    /// Whether a failure of this child aborts the whole run.
    pub critical: bool,
    /// Whether the handle is itself a team.
    pub is_team_agent: bool,
}

/// The declaration of a whole team.
pub struct TeamAgentConfig<A> {
    /// The members, in declaration order.
    pub child_agents: Vec<ChildAgentConfig<A>>,
    /// How the members are scheduled.
    pub execution_pattern: ExecutionPattern,
    /// Reserved for iterative teams; the dispatcher does not consult it.
    pub max_iterations: Option<i32>,
    /// Whether a recorded failure stops further scheduling.
    pub break_on_error: bool,
    /// Bound on the single batch of the concurrent pattern, in seconds.
    pub global_timeout: Option<u64>,
    /// System prompt handed to the members.
    pub prefix: Option<String>,
    /// Whether a coordination summary is added to the members' context.
    pub use_coordination_prompts: bool,
}

/// A structural defect of a team declaration.
#[derive(Debug, Clone, PartialEq, Eq)]
pub enum ConfigError {
    /// The team has no members.
    NoChildren,
    /// The named id is declared more than once.
    DuplicateId(String),
    /// A hybrid step names an id that no member has.
    UnknownStepAgent(String),
    /// A hybrid step depends on a step that is not strictly earlier.
    InvalidDependency { step: usize, dependency: usize },
    /// The named member appears in no hybrid step.
    UncoveredAgent(String),
}

/// The mathematical value of a `ConfigError`.
pub enum ConfigFault {
    NoChildren,
    DuplicateId(Seq<char>),
    UnknownStepAgent(Seq<char>),
    InvalidDependency { step: nat, dependency: nat },
    UncoveredAgent(Seq<char>),
}

impl View for ConfigError {
    type V = ConfigFault;

    open spec fn view(&self) -> ConfigFault {
        match self {
            ConfigError::NoChildren => ConfigFault::NoChildren,
            ConfigError::DuplicateId(id) => ConfigFault::DuplicateId(id@),
            ConfigError::UnknownStepAgent(id) => ConfigFault::UnknownStepAgent(id@),
            ConfigError::InvalidDependency { step, dependency } => ConfigFault::InvalidDependency {
                step: *step as nat,
                dependency: *dependency as nat,
            },
            ConfigError::UncoveredAgent(id) => ConfigFault::UncoveredAgent(id@),
        }
    }
}

/// The texts of a sequence of strings.
pub open spec fn texts(v: Seq<String>) -> Seq<Seq<char>> {
    v.map_values(|s: String| s@)
}

/// The ids of a sequence of members, in order.
pub open spec fn child_ids<A>(children: Seq<ChildAgentConfig<A>>) -> Seq<Seq<char>> {
    children.map_values(|c: ChildAgentConfig<A>| c.id@)
}

/// Position `i` repeats an id that occurs earlier.
pub open spec fn repeats_earlier(ids: Seq<Seq<char>>, i: int) -> bool {
    0 <= i < ids.len() && exists|j: int| 0 <= j < i && ids[j] == ids[i]
}

/// Position `i` is the first repetition met when the ids are read in order.
pub open spec fn first_repeat_at(ids: Seq<Seq<char>>, i: int) -> bool {
    repeats_earlier(ids, i) && forall|k: int| 0 <= k < i ==> !repeats_earlier(ids, k)
}

/// No id occurs twice.
pub open spec fn all_distinct(ids: Seq<Seq<char>>) -> bool {
    forall|i: int, j: int| 0 <= i < j < ids.len() ==> ids[i] != ids[j]
}

/// Position `p` of `names` is the first name that `ids` lacks.
pub open spec fn first_unknown_at(names: Seq<Seq<char>>, ids: Seq<Seq<char>>, p: int) -> bool {
    0 <= p < names.len() && !ids.contains(names[p]) && forall|q: int|
        0 <= q < p ==> ids.contains(names[q])
}

/// Position `p` of `deps` is the first dependency that is not below `k`.
pub open spec fn first_bad_dependency_at(deps: Seq<usize>, k: int, p: int) -> bool {
    0 <= p < deps.len() && deps[p] >= k && forall|q: int| 0 <= q < p ==> deps[q] < k
}

/// Step `k` names only known ids and depends only on earlier steps.
pub open spec fn step_sound(step: ExecutionStep, ids: Seq<Seq<char>>, k: int) -> bool {
    &&& forall|p: int| 0 <= p < step.agent_ids@.len() ==> ids.contains(#[trigger] texts(step.agent_ids@)[p])
    &&& forall|p: int| 0 <= p < step.dependencies@.len() ==> #[trigger] step.dependencies@[p] < k
}

/// The defect of step `k`, if it has one: unknown ids are reported before dependencies.
pub open spec fn step_fault(step: ExecutionStep, ids: Seq<Seq<char>>, k: int) -> Option<ConfigFault> {
    let names = texts(step.agent_ids@);
    let deps = step.dependencies@;
    if exists|p: int| first_unknown_at(names, ids, p) {
        Some(ConfigFault::UnknownStepAgent(names[choose|p: int| first_unknown_at(names, ids, p)]))
    } else if exists|p: int| first_bad_dependency_at(deps, k, p) {
        Some(
            ConfigFault::InvalidDependency {
                step: k as nat,
                dependency: deps[choose|p: int| first_bad_dependency_at(deps, k, p)] as nat,
            },
        )
    } else {
        None
    }
}

/// Step `k` is the first unsound step.
pub open spec fn first_unsound_step_at(steps: Seq<ExecutionStep>, ids: Seq<Seq<char>>, k: int) -> bool {
    0 <= k < steps.len() && !step_sound(steps[k], ids, k) && forall|m: int|
        0 <= m < k ==> step_sound(steps[m], ids, m)
}

/// Some step names `name`.
pub open spec fn covered_by(steps: Seq<ExecutionStep>, name: Seq<char>) -> bool {
    exists|k: int| 0 <= k < steps.len() && texts(steps[k].agent_ids@).contains(name)
}

/// Member `i` is the first member that no step names.
pub open spec fn first_uncovered_at(steps: Seq<ExecutionStep>, ids: Seq<Seq<char>>, i: int) -> bool {
    0 <= i < ids.len() && !covered_by(steps, ids[i]) && forall|m: int|
        0 <= m < i ==> covered_by(steps, ids[m])
}

/// The defect of a hybrid step list: the first unsound step, then the first uncovered member.
pub open spec fn hybrid_fault(steps: Seq<ExecutionStep>, ids: Seq<Seq<char>>) -> Option<ConfigFault> {
    if exists|k: int| first_unsound_step_at(steps, ids, k) {
        let k = choose|k: int| first_unsound_step_at(steps, ids, k);
        step_fault(steps[k], ids, k)
    } else if exists|i: int| first_uncovered_at(steps, ids, i) {
        Some(ConfigFault::UncoveredAgent(ids[choose|i: int| first_uncovered_at(steps, ids, i)]))
    } else {
        None
    }
}

/// The defect that validation reports for a team, or `None` for a sound team.
pub open spec fn config_fault(ids: Seq<Seq<char>>, pattern: ExecutionPattern) -> Option<ConfigFault> {
    if ids.len() == 0 {
        Some(ConfigFault::NoChildren)
    } else if exists|i: int| first_repeat_at(ids, i) {
        Some(ConfigFault::DuplicateId(ids[choose|i: int| first_repeat_at(ids, i)]))
    } else {
        match pattern {
            ExecutionPattern::Hybrid(steps) => hybrid_fault(steps@, ids),
            _ => None,
        }
    }
}

/// Every step is sound and names every member.
pub open spec fn hybrid_sound(steps: Seq<ExecutionStep>, ids: Seq<Seq<char>>) -> bool {
    &&& forall|k: int| 0 <= k < steps.len() ==> step_sound(#[trigger] steps[k], ids, k)
    &&& forall|i: int| 0 <= i < ids.len() ==> covered_by(steps, #[trigger] ids[i])
}

/// A team that validation accepts.
pub open spec fn topology_sound(ids: Seq<Seq<char>>, pattern: ExecutionPattern) -> bool {
    &&& ids.len() > 0
    &&& all_distinct(ids)
    &&& pattern matches ExecutionPattern::Hybrid(steps) ==> hybrid_sound(steps@, ids)
}

impl<A> TeamAgentConfig<A> {
    /// The member ids, in declaration order.
    pub open spec fn ids(&self) -> Seq<Seq<char>> {
        child_ids(self.child_agents@)
    }

    /// A team with no members, sequential, breaking on error, with a five-minute batch bound.
    pub fn new() -> (r: Self)
        ensures
            r.child_agents@.len() == 0,
            r.execution_pattern is Sequential,
            r.max_iterations == Some(10i32),
            r.break_on_error,
            r.global_timeout == Some(300u64),
            r.prefix.is_none(),
            !r.use_coordination_prompts,
    {
        TeamAgentConfig {
            child_agents: Vec::new(),
            execution_pattern: ExecutionPattern::Sequential,
            max_iterations: Some(10),
            break_on_error: true,
            global_timeout: Some(300),
            prefix: None,
            use_coordination_prompts: false,
        }
    }

    /// Appends a member.
    pub fn add_child_agent(self, config: ChildAgentConfig<A>) -> (r: Self)
        ensures
            r.child_agents@ == self.child_agents@.push(config),
            r.execution_pattern == self.execution_pattern,
            r.max_iterations == self.max_iterations,
            r.break_on_error == self.break_on_error,
            r.global_timeout == self.global_timeout,
            r.prefix == self.prefix,
            r.use_coordination_prompts == self.use_coordination_prompts,
    {
        let mut s = self;
        s.child_agents.push(config);
        s
    }

    /// Replaces the execution pattern.
    pub fn with_execution_pattern(self, pattern: ExecutionPattern) -> (r: Self)
        ensures
            r == (TeamAgentConfig { execution_pattern: pattern, ..self }),
    {
        TeamAgentConfig { execution_pattern: pattern, ..self }
    }

    /// Sets the reserved iteration bound.
    pub fn with_max_iterations(self, max_iterations: i32) -> (r: Self)
        ensures
            r == (TeamAgentConfig { max_iterations: Some(max_iterations), ..self }),
    {
        TeamAgentConfig { max_iterations: Some(max_iterations), ..self }
    }

    /// Sets whether a recorded failure stops further scheduling.
    pub fn with_break_on_error(self, break_on_error: bool) -> (r: Self)
        ensures
            r == (TeamAgentConfig { break_on_error, ..self }),
    {
        TeamAgentConfig { break_on_error, ..self }
    }

    /// Sets the bound on the concurrent batch.
    pub fn with_global_timeout(self, timeout_seconds: u64) -> (r: Self)
        ensures
            r == (TeamAgentConfig { global_timeout: Some(timeout_seconds), ..self }),
    {
        TeamAgentConfig { global_timeout: Some(timeout_seconds), ..self }
    }

    /// Sets the system prompt.
    pub fn with_prefix(self, prefix: &str) -> (r: Self)
        ensures
            r.prefix matches Some(p) && p@ == prefix@,
            r == (TeamAgentConfig { prefix: r.prefix, ..self }),
    {
        TeamAgentConfig { prefix: Some(String::from_str(prefix)), ..self }
    }

    /// Sets whether a coordination summary is added to the members' context.
    pub fn with_coordination_prompts(self, use_coordination_prompts: bool) -> (r: Self)
        ensures
            r == (TeamAgentConfig { use_coordination_prompts, ..self }),
    {
        TeamAgentConfig { use_coordination_prompts, ..self }
    }

    /// Checks the team's structure: at least one member, distinct ids, and for a
    /// hybrid pattern, known ids, backward dependencies and full coverage.
    pub fn validate(&self) -> (r: Result<(), ConfigError>)
        ensures
            match r {
                Ok(_) => config_fault(self.ids(), self.execution_pattern) == None::<ConfigFault>,
                Err(e) => config_fault(self.ids(), self.execution_pattern) == Some(e@),
            },
    {
        let n = self.child_agents.len();
        let ghost ids = self.ids();
        if n == 0 {
            return Err(ConfigError::NoChildren);
        }
        let mut i: usize = 0;
        while i < n
            invariant
                n == self.child_agents@.len(),
                ids == self.ids(),
                i <= n,
                forall|k: int| 0 <= k < i ==> !repeats_earlier(ids, k),
            decreases n - i,
        {
            let mut j: usize = 0;
            while j < i
                invariant
                    n == self.child_agents@.len(),
                    ids == self.ids(),
                    i < n,
                    j <= i,
                    forall|k: int| 0 <= k < i ==> !repeats_earlier(ids, k),
                    forall|m: int| 0 <= m < j ==> ids[m] != ids[i as int],
                decreases i - j,
            {
                if self.child_agents[j].id == self.child_agents[i].id {
                    proof {
                        assert(ids[j as int] == self.child_agents@[j as int].id@);
                        assert(ids[i as int] == self.child_agents@[i as int].id@);
                        assert(repeats_earlier(ids, i as int));
                        assert(first_repeat_at(ids, i as int));
                        lemma_first_repeat_unique(ids, i as int);
                    }
                    return Err(ConfigError::DuplicateId(self.child_agents[i].id.clone()));
                }
                assert(ids[j as int] == self.child_agents@[j as int].id@);
                assert(ids[i as int] == self.child_agents@[i as int].id@);
                j = j + 1;
            }
            i = i + 1;
        }
        proof {
            assert forall|i: int| !first_repeat_at(ids, i) by {}
        }
        match &self.execution_pattern {
            ExecutionPattern::Hybrid(steps) => check_steps(steps, &self.child_agents),
            _ => Ok(()),
        }
    }
}

proof fn lemma_first_repeat_unique(ids: Seq<Seq<char>>, i: int)
    requires
        first_repeat_at(ids, i),
    ensures
        (choose|k: int| first_repeat_at(ids, k)) == i,
{
    let k = choose|k: int| first_repeat_at(ids, k);
    assert(first_repeat_at(ids, k));
    if k < i {
        assert(!repeats_earlier(ids, k));
    } else if k > i {
        assert(!repeats_earlier(ids, i));
    }
}

/// Whether some member has id `name`.
fn has_member<A>(children: &Vec<ChildAgentConfig<A>>, name: &String) -> (r: bool)
    ensures
        r == child_ids(children@).contains(name@),
{
    let ghost ids = child_ids(children@);
    let mut i: usize = 0;
    while i < children.len()
        invariant
            ids == child_ids(children@),
            i <= children@.len(),
            forall|m: int| 0 <= m < i ==> ids[m] != name@,
        decreases children@.len() - i,
    {
        if children[i].id == *name {
            assert(ids[i as int] == name@);
            return true;
        }
        i = i + 1;
    }
    proof {
        if ids.contains(name@) {
            let m = choose|m: int| 0 <= m < ids.len() && ids[m] == name@;
            assert(ids[m] != name@);
        }
    }
    false
}

/// Whether some step names `name`.
fn is_covered(steps: &Vec<ExecutionStep>, name: &String) -> (r: bool)
    ensures
        r == covered_by(steps@, name@),
{
    let mut k: usize = 0;
    while k < steps.len()
        invariant
            k <= steps@.len(),
            forall|m: int| 0 <= m < k ==> !texts(steps@[m].agent_ids@).contains(name@),
        decreases steps@.len() - k,
    {
        let names = &steps[k].agent_ids;
        let ghost t = texts(names@);
        let mut p: usize = 0;
        while p < names.len()
            invariant
                k < steps@.len(),
                names == steps@[k as int].agent_ids,
                t == texts(names@),
                p <= names@.len(),
                forall|q: int| 0 <= q < p ==> t[q] != name@,
            decreases names@.len() - p,
        {
            if names[p] == *name {
                assert(t[p as int] == name@);
                assert(texts(steps@[k as int].agent_ids@).contains(name@));
                return true;
            }
            p = p + 1;
        }
        proof {
            if t.contains(name@) {
                let q = choose|q: int| 0 <= q < t.len() && t[q] == name@;
                assert(t[q] != name@);
            }
        }
        k = k + 1;
    }
    false
}

/// The defect of one hybrid step, checked against the members.
fn check_step<A>(step: &ExecutionStep, k: usize, children: &Vec<ChildAgentConfig<A>>) -> (r: Result<
    (),
    ConfigError,
>)
    ensures
        match r {
            Ok(_) => step_sound(*step, child_ids(children@), k as int) && step_fault(
                *step,
                child_ids(children@),
                k as int,
            ) == None::<ConfigFault>,
            Err(e) => !step_sound(*step, child_ids(children@), k as int) && step_fault(
                *step,
                child_ids(children@),
                k as int,
            ) == Some(e@),
        },
{
    let ghost ids = child_ids(children@);
    let ghost names = texts(step.agent_ids@);
    let ghost deps = step.dependencies@;
    let mut p: usize = 0;
    while p < step.agent_ids.len()
        invariant
            ids == child_ids(children@),
            names == texts(step.agent_ids@),
            p <= names.len(),
            forall|q: int| 0 <= q < p ==> ids.contains(names[q]),
        decreases names.len() - p,
    {
        if !has_member(children, &step.agent_ids[p]) {
            proof {
                assert(first_unknown_at(names, ids, p as int));
                let c = choose|c: int| first_unknown_at(names, ids, c);
                assert(first_unknown_at(names, ids, c));
                if c < p {
                    assert(ids.contains(names[c]));
                } else if c > p {
                    assert(ids.contains(names[p as int]));
                }
                assert(!ids.contains(texts(step.agent_ids@)[p as int]));
            }
            return Err(ConfigError::UnknownStepAgent(step.agent_ids[p].clone()));
        }
        p = p + 1;
    }
    assert(forall|c: int| !first_unknown_at(names, ids, c));
    let mut p: usize = 0;
    while p < step.dependencies.len()
        invariant
            ids == child_ids(children@),
            names == texts(step.agent_ids@),
            forall|q: int| 0 <= q < names.len() ==> ids.contains(names[q]),
            forall|c: int| !first_unknown_at(names, ids, c),
            deps == step.dependencies@,
            p <= deps.len(),
            forall|q: int| 0 <= q < p ==> deps[q] < k,
        decreases deps.len() - p,
    {
        let dep = step.dependencies[p];
        if dep >= k {
            proof {
                assert(step.dependencies@[p as int] >= k);
                assert(first_bad_dependency_at(deps, k as int, p as int));
                let c = choose|c: int| first_bad_dependency_at(deps, k as int, c);
                assert(first_bad_dependency_at(deps, k as int, c));
                if c < p {
                    assert(deps[c] < k);
                } else if c > p {
                    assert(deps[p as int] < k);
                }
            }
            return Err(ConfigError::InvalidDependency { step: k, dependency: dep });
        }
        p = p + 1;
    }
    assert(forall|c: int| !first_bad_dependency_at(deps, k as int, c));
    Ok(())
}

/// The defect of a hybrid step list, checked against the members.
fn check_steps<A>(steps: &Vec<ExecutionStep>, children: &Vec<ChildAgentConfig<A>>) -> (r: Result<
    (),
    ConfigError,
>)
    ensures
        match r {
            Ok(_) => hybrid_fault(steps@, child_ids(children@)) == None::<ConfigFault>,
            Err(e) => hybrid_fault(steps@, child_ids(children@)) == Some(e@),
        },
{
    let ghost ids = child_ids(children@);
    let mut k: usize = 0;
    while k < steps.len()
        invariant
            ids == child_ids(children@),
            k <= steps@.len(),
            forall|m: int| 0 <= m < k ==> step_sound(steps@[m], ids, m),
        decreases steps@.len() - k,
    {
        let checked = check_step(&steps[k], k, children);
        match checked {
            Err(e) => {
                proof {
                    assert(first_unsound_step_at(steps@, ids, k as int));
                    let c = choose|c: int| first_unsound_step_at(steps@, ids, c);
                    assert(first_unsound_step_at(steps@, ids, c));
                    if c < k {
                        assert(step_sound(steps@[c], ids, c));
                    } else if c > k {
                        assert(step_sound(steps@[k as int], ids, k as int));
                    }
                }
                return Err(e);
            },
            Ok(_) => {},
        }
        k = k + 1;
    }
    assert(forall|c: int| !first_unsound_step_at(steps@, ids, c));
    let mut i: usize = 0;
    while i < children.len()
        invariant
            ids == child_ids(children@),
            forall|c: int| !first_unsound_step_at(steps@, ids, c),
            i <= ids.len(),
            forall|m: int| 0 <= m < i ==> covered_by(steps@, ids[m]),
        decreases ids.len() - i,
    {
        assert(ids[i as int] == children@[i as int].id@);
        if !is_covered(steps, &children[i].id) {
            proof {
                assert(first_uncovered_at(steps@, ids, i as int));
                let c = choose|c: int| first_uncovered_at(steps@, ids, c);
                assert(first_uncovered_at(steps@, ids, c));
                if c < i {
                    assert(covered_by(steps@, ids[c]));
                } else if c > i {
                    assert(covered_by(steps@, ids[i as int]));
                }
            }
            return Err(ConfigError::UncoveredAgent(children[i].id.clone()));
        }
        i = i + 1;
    }
    assert(forall|c: int| !first_uncovered_at(steps@, ids, c));
    Ok(())
}

impl<A> ChildAgentConfig<A> {
    /// A critical member with no timeout.
    pub fn new(id: &str, agent: A) -> (r: Self)
        ensures
            r.id@ == id@,
            r.agent == agent,
            r.timeout.is_none(),
            r.critical,
            !r.is_team_agent,
    {
        ChildAgentConfig {
            id: String::from_str(id),
            agent,
            timeout: None,
            critical: true,
            is_team_agent: false,
        }
    }

    /// A critical member whose handle is a nested team, with no timeout.
    pub fn new_team_agent(id: &str, agent: A) -> (r: Self)
        ensures
            r.id@ == id@,
            r.agent == agent,
            r.timeout.is_none(),
            r.critical,
            r.is_team_agent,
    {
        ChildAgentConfig {
            id: String::from_str(id),
            agent,
            timeout: None,
            critical: true,
            is_team_agent: true,
        }
    }

    /// Sets the bound on one invocation.
    pub fn with_timeout(self, timeout_seconds: u64) -> (r: Self)
        ensures
            r == (ChildAgentConfig { timeout: Some(timeout_seconds), ..self }),
    {
        ChildAgentConfig { timeout: Some(timeout_seconds), ..self }
    }

    /// Sets whether a failure aborts the run.
    pub fn with_critical(self, critical: bool) -> (r: Self)
        ensures
            r == (ChildAgentConfig { critical, ..self }),
    {
        ChildAgentConfig { critical, ..self }
    }

    /// Sets whether the handle is a nested team.
    pub fn with_team_agent(self, is_team_agent: bool) -> (r: Self)
        ensures
            r == (ChildAgentConfig { is_team_agent, ..self }),
    {
        ChildAgentConfig { is_team_agent, ..self }
    }
}

} // verus!

verus! {

proof fn lemma_least(p: spec_fn(int) -> bool, n: int)
    requires
        0 <= n,
        p(n),
    ensures
        exists|m: int| 0 <= m <= n && #[trigger] p(m) && forall|k: int| 0 <= k < m ==> !#[trigger] p(k),
    decreases n,
{
    if exists|k: int| 0 <= k < n && #[trigger] p(k) {
        let k = choose|k: int| 0 <= k < n && #[trigger] p(k);
        lemma_least(p, k);
    } else {
        assert(forall|k: int| 0 <= k < n ==> !#[trigger] p(k));
    }
}

/// A team whose ids repeat always fails validation, and the error names a repeated id.
pub proof fn duplicate_ids_fail(ids: Seq<Seq<char>>, pattern: ExecutionPattern, i: int, j: int)
    requires
        0 <= i < j < ids.len(),
        ids[i] == ids[j],
    ensures
        config_fault(ids, pattern) matches Some(ConfigFault::DuplicateId(x)) && exists|a: int, b: int|
            0 <= a < b < ids.len() && ids[a] == x && ids[b] == x,
{
    let p = |k: int| repeats_earlier(ids, k);
    assert(p(j));
    lemma_least(p, j);
    let m = choose|m: int| 0 <= m <= j && #[trigger] p(m) && forall|k: int| 0 <= k < m ==> !#[trigger] p(k);
    assert forall|k: int| 0 <= k < m implies !repeats_earlier(ids, k) by {
        assert(!p(k));
    }
    assert(first_repeat_at(ids, m));
    let c = choose|c: int| first_repeat_at(ids, c);
    assert(first_repeat_at(ids, c));
    let a = choose|a: int| 0 <= a < c && ids[a] == ids[c];
    assert(0 <= a < c < ids.len() && ids[a] == ids[c] && ids[c] == ids[c]);
}

/// A hybrid team in which a step names an unknown id, or depends on a step that is not
/// strictly earlier, or in which some member appears in no step, always fails validation.
pub proof fn unsound_hybrid_fails(ids: Seq<Seq<char>>, steps: Seq<ExecutionStep>, pattern: ExecutionPattern)
    requires
        pattern matches ExecutionPattern::Hybrid(v) && v@ == steps,
        (exists|k: int, p: int|
            0 <= k < steps.len() && 0 <= p < steps[k].agent_ids@.len() && !ids.contains(
                texts(steps[k].agent_ids@)[p],
            )) || (exists|k: int, p: int|
            0 <= k < steps.len() && 0 <= p < steps[k].dependencies@.len()
                && steps[k].dependencies@[p] >= k) || (exists|i: int|
            0 <= i < ids.len() && !covered_by(steps, ids[i])),
    ensures
        config_fault(ids, pattern) is Some,
{
    if ids.len() == 0 || exists|i: int| first_repeat_at(ids, i) {
        return;
    }
    let unsound = |k: int| 0 <= k < steps.len() && !step_sound(steps[k], ids, k);
    if exists|k: int| #[trigger] unsound(k) {
        let k0 = choose|k: int| #[trigger] unsound(k);
        lemma_least(unsound, k0);
        let m = choose|m: int| 0 <= m <= k0 && #[trigger] unsound(m) && forall|k: int| 0 <= k < m ==> !#[trigger] unsound(k);
        assert forall|q: int| 0 <= q < m implies step_sound(steps[q], ids, q) by {
            assert(!unsound(q));
        }
        assert(first_unsound_step_at(steps, ids, m));
        let k = choose|k: int| first_unsound_step_at(steps, ids, k);
        assert(first_unsound_step_at(steps, ids, k));
        lemma_unsound_step_faults(steps[k], ids, k);
    } else {
        assert forall|k: int| 0 <= k < steps.len() implies step_sound(steps[k], ids, k) by {
            assert(!unsound(k));
        }
        if exists|k: int, p: int|
            0 <= k < steps.len() && 0 <= p < steps[k].agent_ids@.len() && !ids.contains(
                texts(steps[k].agent_ids@)[p],
            ) {
            let (k, p) = choose|k: int, p: int|
                0 <= k < steps.len() && 0 <= p < steps[k].agent_ids@.len() && !ids.contains(
                    texts(steps[k].agent_ids@)[p],
                );
            assert(step_sound(steps[k], ids, k));
            assert(false);
        }
        if exists|k: int, p: int|
            0 <= k < steps.len() && 0 <= p < steps[k].dependencies@.len()
                && steps[k].dependencies@[p] >= k {
            let (k, p) = choose|k: int, p: int|
                0 <= k < steps.len() && 0 <= p < steps[k].dependencies@.len()
                    && steps[k].dependencies@[p] >= k;
            assert(step_sound(steps[k], ids, k));
            assert(false);
        }
        assert(!exists|k: int| first_unsound_step_at(steps, ids, k));
        let uncovered = |i: int| 0 <= i < ids.len() && !covered_by(steps, ids[i]);
        let i0 = choose|i: int| 0 <= i < ids.len() && !covered_by(steps, ids[i]);
        assert(uncovered(i0));
        lemma_least(uncovered, i0);
        let m = choose|m: int| 0 <= m <= i0 && #[trigger] uncovered(m) && forall|k: int| 0 <= k < m ==> !#[trigger] uncovered(k);
        assert forall|q: int| 0 <= q < m implies covered_by(steps, ids[q]) by {
            assert(!uncovered(q));
        }
        assert(first_uncovered_at(steps, ids, m));
    }
}

proof fn lemma_unsound_step_faults(step: ExecutionStep, ids: Seq<Seq<char>>, k: int)
    requires
        !step_sound(step, ids, k),
    ensures
        step_fault(step, ids, k) is Some,
{
    let names = texts(step.agent_ids@);
    let deps = step.dependencies@;
    let unknown = |p: int| 0 <= p < names.len() && !ids.contains(names[p]);
    let bad = |p: int| 0 <= p < deps.len() && deps[p] >= k;
    if exists|p: int| #[trigger] unknown(p) {
        let p0 = choose|p: int| #[trigger] unknown(p);
        lemma_least(unknown, p0);
        let m = choose|m: int| 0 <= m <= p0 && #[trigger] unknown(m) && forall|q: int| 0 <= q < m ==> !#[trigger] unknown(q);
        assert forall|q: int| 0 <= q < m implies ids.contains(names[q]) by {
            assert(!unknown(q));
        }
        assert(first_unknown_at(names, ids, m));
    } else {
        assert forall|p: int| 0 <= p < step.agent_ids@.len() implies ids.contains(
            #[trigger] texts(step.agent_ids@)[p],
        ) by {
            assert(!unknown(p));
        }
        let p0 = choose|p: int| 0 <= p < step.dependencies@.len() && !(#[trigger] step.dependencies@[p] < k);
        assert(bad(p0));
        lemma_least(bad, p0);
        let m = choose|m: int| 0 <= m <= p0 && #[trigger] bad(m) && forall|q: int| 0 <= q < m ==> !#[trigger] bad(q);
        assert forall|q: int| 0 <= q < m implies deps[q] < k by {
            assert(!bad(q));
        }
        assert(first_bad_dependency_at(deps, k, m));
    }
}

} // verus!

verus! {

/// Validation accepts exactly the sound teams: at least one member, distinct ids, and for a
/// hybrid pattern, sound steps that together name every member.
pub proof fn fault_free_is_sound(ids: Seq<Seq<char>>, pattern: ExecutionPattern)
    ensures
        config_fault(ids, pattern) == None::<ConfigFault> <==> topology_sound(ids, pattern),
{
    if ids.len() > 0 && !all_distinct(ids) {
        let (i, j) = choose|i: int, j: int| 0 <= i < j < ids.len() && ids[i] == ids[j];
        duplicate_ids_fail(ids, pattern, i, j);
    }
    if topology_sound(ids, pattern) {
        assert forall|i: int| !first_repeat_at(ids, i) by {
            if first_repeat_at(ids, i) {
                let j = choose|j: int| 0 <= j < i && ids[j] == ids[i];
                assert(ids[j] != ids[i]);
            }
        }
        match pattern {
            ExecutionPattern::Hybrid(steps) => {
                assert forall|k: int| !first_unsound_step_at(steps@, ids, k) by {}
                assert forall|i: int| !first_uncovered_at(steps@, ids, i) by {}
            },
            _ => {},
        }
    } else if ids.len() > 0 && all_distinct(ids) {
        match pattern {
            ExecutionPattern::Hybrid(steps) => {
                if exists|k: int| 0 <= k < steps@.len() && !step_sound(#[trigger] steps@[k], ids, k) {
                    let k = choose|k: int| 0 <= k < steps@.len() && !step_sound(#[trigger] steps@[k], ids, k);
                    assert(!step_sound(steps@[k], ids, k));
                }
                unsound_hybrid_fails(ids, steps@, pattern);
            },
            _ => {},
        }
    }
}

} // verus!
