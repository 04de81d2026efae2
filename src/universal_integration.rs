use vstd::prelude::*;

use crate::config::texts;

verus! {

/// Any agent offered to other agents as a callable tool.
pub struct UniversalAgentTool<A> {
    agent: A,
    name: String,
    description: String,
    timeout: Option<u64>,
}

impl<A> UniversalAgentTool<A> {
    /// The agent, the tool's name, its description, and the bound on one call in seconds.
    pub closed spec fn parts(&self) -> (A, Seq<char>, Seq<char>, Option<u64>) {
        (self.agent, self.name@, self.description@, self.timeout)
    }

    fn with_strings(agent: A, name: String, description: String) -> (r: Self)
        ensures
            r.parts() == (agent, name@, description@, None::<u64>),
    {
        UniversalAgentTool { agent, name, description, timeout: None }
    }

    /// Offers `agent` under the given name and description, without a time bound.
    pub fn new(agent: A, name: &str, description: &str) -> (r: Self)
        ensures
            r.parts() == (agent, name@, description@, None::<u64>),
    {
        UniversalAgentTool::with_strings(agent, String::from_str(name), String::from_str(description))
    }

    /// Bounds one call of the tool.
    pub fn with_timeout(self, timeout_seconds: u64) -> (r: Self)
        ensures
            r.parts() == (self.parts().0, self.parts().1, self.parts().2, Some(timeout_seconds)),
    {
        UniversalAgentTool { timeout: Some(timeout_seconds), ..self }
    }

    /// Offers `agent` under a generic name and description, without a time bound.
    pub fn from_agent(agent: A) -> (r: Self)
        ensures
            r.parts() == (
                agent,
                "agent_tool"@,
                "A universal agent tool that can execute any agent"@,
                None::<u64>,
            ),
    {
        UniversalAgentTool::new(agent, "agent_tool", "A universal agent tool that can execute any agent")
    }

    /// The agent behind the tool.
    pub fn agent(&self) -> (r: &A)
        ensures
            *r == self.parts().0,
    {
        &self.agent
    }

    /// The tool's name.
    pub fn name(&self) -> (r: String)
        ensures
            r@ == self.parts().1,
    {
        self.name.clone()
    }

    /// The tool's description.
    pub fn description(&self) -> (r: String)
        ensures
            r@ == self.parts().2,
    {
        self.description.clone()
    }

    /// The bound on one call, in seconds.
    pub fn timeout(&self) -> (r: Option<u64>)
        ensures
            r == self.parts().3,
    {
        self.timeout
    }
}

/// The names of a list of `(name, agent)` entries.
pub open spec fn entry_names<A>(entries: Seq<(String, A)>) -> Seq<Seq<char>> {
    entries.map_values(|e: (String, A)| e.0@)
}

/// No name occurs twice.
pub open spec fn names_distinct(names: Seq<Seq<char>>) -> bool {
    forall|i: int, j: int| 0 <= i < j < names.len() ==> names[i] != names[j]
}

/// The description under which the registry offers the agent named `name`.
pub open spec fn agent_tool_description(name: Seq<char>) -> Seq<char> {
    "Agent: "@ + name
}

/// Agents by name, each offered on request as a tool.
pub struct AgentRegistry<A> {
    agents: Vec<(String, A)>,
    default_timeout: Option<u64>,
}

impl<A> AgentRegistry<A> {
    /// No name is registered twice.
    pub closed spec fn wf(&self) -> bool {
        names_distinct(entry_names(self.agents@))
    }

    /// The registered entries, in order of first registration.
    pub closed spec fn entries(&self) -> Seq<(String, A)> {
        self.agents@
    }

    /// The bound given to each tool the registry hands out, in seconds.
    pub closed spec fn spec_default_timeout(&self) -> Option<u64> {
        self.default_timeout
    }

    /// An empty registry whose tools are bounded to five minutes.
    pub fn new() -> (r: Self)
        ensures
            r.wf(),
            r.entries().len() == 0,
            r.spec_default_timeout() == Some(300u64),
    {
        AgentRegistry { agents: Vec::new(), default_timeout: Some(300) }
    }

    /// Sets the bound given to each tool the registry hands out.
    pub fn with_default_timeout(self, timeout_seconds: u64) -> (r: Self)
        ensures
            r.wf() == self.wf(),
            r.entries() == self.entries(),
            r.spec_default_timeout() == Some(timeout_seconds),
    {
        AgentRegistry { default_timeout: Some(timeout_seconds), ..self }
    }

    /// The position of the entry named `name`, if there is one.
    fn position(&self, name: &str) -> (r: Option<usize>)
        ensures
            match r {
                Some(i) => i < self.entries().len() && entry_names(self.entries())[i as int] == name@,
                None => !entry_names(self.entries()).contains(name@),
            },
    {
        let ghost names = entry_names(self.agents@);
        let key = String::from_str(name);
        let mut i: usize = 0;
        while i < self.agents.len()
            invariant
                names == entry_names(self.agents@),
                key@ == name@,
                i <= self.agents@.len(),
                forall|m: int| 0 <= m < i ==> names[m] != name@,
            decreases self.agents@.len() - i,
        {
            assert(names[i as int] == self.agents@[i as int].0@);
            if self.agents[i].0 == key {
                return Some(i);
            }
            i = i + 1;
        }
        proof {
            if names.contains(name@) {
                let m = choose|m: int| 0 <= m < names.len() && names[m] == name@;
                assert(names[m] != name@);
            }
        }
        None
    }

    /// Registers `agent` under `name`, replacing an agent registered under the same name.
    pub fn register(&mut self, name: &str, agent: A)
        requires
            old(self).wf(),
        ensures
            final(self).wf(),
            final(self).spec_default_timeout() == old(self).spec_default_timeout(),
            entry_names(old(self).entries()).contains(name@) ==> exists|i: int|
                0 <= i < old(self).entries().len() && entry_names(old(self).entries())[i] == name@
                    && final(self).entries() == old(self).entries().update(
                    i,
                    (old(self).entries()[i].0, agent),
                ),
            !entry_names(old(self).entries()).contains(name@) ==> {
                &&& final(self).entries().len() == old(self).entries().len() + 1
                &&& final(self).entries().drop_last() == old(self).entries()
                &&& final(self).entries().last().0@ == name@
                &&& final(self).entries().last().1 == agent
            },
    {
        let ghost before = self.agents@;
        match self.position(name) {
            Some(i) => {
                let key = self.agents[i].0.clone();
                let ghost old_key = before[i as int].0;
                self.agents.set(i, (key, agent));
                proof {
                    assert(self.agents@ == before.update(i as int, (old_key, agent)));
                    assert(entry_names(self.agents@) =~= entry_names(before));
                    assert(entry_names(before)[i as int] == name@);
                }
            },
            None => {
                self.agents.push((String::from_str(name), agent));
                proof {
                    let names = entry_names(self.agents@);
                    assert(self.agents@.drop_last() =~= before);
                    assert forall|i: int, j: int| 0 <= i < j < names.len() implies names[i] != names[j] by {
                        if j == names.len() - 1 {
                            assert(names[j] == name@);
                            assert(names[i] == entry_names(before)[i]);
                        } else {
                            assert(names[i] == entry_names(before)[i]);
                            assert(names[j] == entry_names(before)[j]);
                        }
                    }
                }
            },
        }
    }

    /// The agent registered under `name`, if there is one.
    pub fn get_agent(&self, name: &str) -> (r: Option<&A>)
        ensures
            match r {
                Some(a) => exists|i: int|
                    0 <= i < self.entries().len() && entry_names(self.entries())[i] == name@ && *a
                        == self.entries()[i].1,
                None => !entry_names(self.entries()).contains(name@),
            },
    {
        match self.position(name) {
            Some(i) => Some(&self.agents[i].1),
            None => None,
        }
    }

    /// The registered names, in order of first registration.
    pub fn agent_names(&self) -> (r: Vec<String>)
        ensures
            texts(r@) == entry_names(self.entries()),
    {
        let mut names: Vec<String> = Vec::new();
        let mut i: usize = 0;
        while i < self.agents.len()
            invariant
                i <= self.agents@.len(),
                texts(names@) == entry_names(self.agents@).take(i as int),
            decreases self.agents@.len() - i,
        {
            let ghost prev = names@;
            names.push(self.agents[i].0.clone());
            proof {
                assert(texts(names@) =~= texts(prev).push(self.agents@[i as int].0@));
                assert(entry_names(self.agents@).take(i + 1) =~= entry_names(self.agents@).take(
                    i as int,
                ).push(self.agents@[i as int].0@));
            }
            i = i + 1;
        }
        assert(entry_names(self.agents@).take(i as int) =~= entry_names(self.agents@));
        names
    }
}

impl<A: Clone> AgentRegistry<A> {
    fn tool_for(&self, i: usize) -> (r: UniversalAgentTool<A>)
        requires
            i < self.entries().len(),
        ensures
            r.parts().1 == self.entries()[i as int].0@,
            r.parts().2 == agent_tool_description(self.entries()[i as int].0@),
            r.parts().3 == self.spec_default_timeout(),
    {
        let name = &self.agents[i].0;
        let mut description = String::from_str("Agent: ");
        description.append(name.as_str());
        let tool = UniversalAgentTool::with_strings(self.agents[i].1.clone(), name.clone(), description);
        match self.default_timeout {
            Some(t) => tool.with_timeout(t),
            None => tool,
        }
    }

    /// Every registered agent as a tool named after it, described as `Agent: <name>`, and
    /// bounded by the registry's default timeout; in order of first registration.
    pub fn as_tools(&self) -> (r: Vec<UniversalAgentTool<A>>)
        ensures
            r@.len() == self.entries().len(),
            forall|i: int|
                0 <= i < r@.len() ==> {
                    &&& (#[trigger] r@[i]).parts().1 == self.entries()[i].0@
                    &&& r@[i].parts().2 == agent_tool_description(self.entries()[i].0@)
                    &&& r@[i].parts().3 == self.spec_default_timeout()
                },
    {
        let mut tools: Vec<UniversalAgentTool<A>> = Vec::new();
        let mut i: usize = 0;
        while i < self.agents.len()
            invariant
                i <= self.agents@.len(),
                tools@.len() == i,
                forall|k: int|
                    0 <= k < i ==> {
                        &&& (#[trigger] tools@[k]).parts().1 == self.entries()[k].0@
                        &&& tools@[k].parts().2 == agent_tool_description(self.entries()[k].0@)
                        &&& tools@[k].parts().3 == self.spec_default_timeout()
                    },
            decreases self.agents@.len() - i,
        {
            tools.push(self.tool_for(i));
            i = i + 1;
        }
        tools
    }

    /// The agent registered under `name` as a tool, as `as_tools` would give it.
    pub fn agent_as_tool(&self, name: &str) -> (r: Option<UniversalAgentTool<A>>)
        ensures
            match r {
                Some(t) => {
                    &&& entry_names(self.entries()).contains(name@)
                    &&& t.parts().1 == name@
                    &&& t.parts().2 == agent_tool_description(name@)
                    &&& t.parts().3 == self.spec_default_timeout()
                },
                None => !entry_names(self.entries()).contains(name@),
            },
    {
        match self.position(name) {
            Some(i) => Some(self.tool_for(i)),
            None => None,
        }
    }
}

} // verus!
