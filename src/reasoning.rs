use vstd::prelude::*;

verus! {

/// How pressing a reasoning task is.
#[derive(Debug, Clone, Copy, PartialEq, Eq, Structural)]
pub enum UrgencyLevel {
    Low,
    Normal,
    High,
    Critical,
}

/// The kinds of steps in a chain of reasoning.
#[derive(Debug, Clone, Copy, PartialEq, Eq, Structural)]
pub enum ReasoningStepType {
    Observation,
    Hypothesis,
    Deduction,
    Induction,
    Abduction,
    Analogy,
    Causal,
    Constraint,
}

/// The ways a reasoning agent can search for an answer.
#[derive(Debug, Clone, Copy, PartialEq, Eq, Structural)]
pub enum ReasoningStrategy {
    ForwardChaining,
    BackwardChaining,
    BreadthFirst,
    DepthFirst,
    BestFirst,
    Analogical,
    CaseBased,
}

/// How risky a planned action is.
#[derive(Debug, Clone, Copy, PartialEq, Eq, Structural)]
pub enum RiskLevel {
    Low,
    Medium,
    High,
    Critical,
}

} // verus!
