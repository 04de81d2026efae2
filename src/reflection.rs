use vstd::prelude::*;

verus! {

/// What an insight drawn from past runs is about.
#[derive(Debug, Clone, PartialEq, Eq)]
pub enum InsightType {
    ToolUsage,
    Strategy,
    ErrorPattern,
    Efficiency,
    GoalAchievement,
    Custom(String),
}

/// A proposed change of behaviour.
#[derive(Debug, Clone)]
pub struct Improvement {
    pub area: ImprovementArea,
    pub description: String,
    /// Higher is more urgent.
    pub priority: u8,
    pub action_items: Vec<String>,
    pub expected_impact: String,
}

/// The areas a proposed change can concern.
#[derive(Debug, Clone, PartialEq, Eq)]
pub enum ImprovementArea {
    ToolUsage,
    Planning,
    ErrorHandling,
    Communication,
    Efficiency,
    Custom(String),
}

/// How a past run ended.
#[derive(Debug, Clone, PartialEq, Eq)]
pub enum ExperienceOutcome {
    Success { result: String },
    PartialSuccess { result: String, missing: Vec<String> },
    Failure { error: String, reason: String },
    Interrupted { reason: String },
}

/// Timing statistics over past runs, in milliseconds.
#[derive(Debug, Clone, PartialEq, Eq)]
pub struct TimeMetrics {
    pub average_action_time_ms: u64,
    pub average_experience_time_ms: u64,
    pub fastest_completion_ms: Option<u64>,
    pub slowest_completion_ms: Option<u64>,
}

} // verus!
