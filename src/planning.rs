use vstd::prelude::*;

verus! {

/// Where a subtask of a plan stands.
#[derive(Debug, Clone, Copy, PartialEq, Eq, Structural)]
pub enum TaskStatus {
    Pending,
    InProgress,
    Completed,
    Failed,
    Cancelled,
    Blocked,
}

/// Where a plan as a whole stands.
#[derive(Debug, Clone, Copy, PartialEq, Eq, Structural)]
pub enum PlanStatus {
    Created,
    InProgress,
    Completed,
    Failed,
    Cancelled,
    Paused,
}

/// What a piece of feedback on a plan is about.
#[derive(Debug, Clone, Copy, PartialEq, Eq, Structural)]
pub enum FeedbackType {
    Completion,
    Failure,
    ResourceConstraint,
    TimeConstraint,
    PlanQuality,
    UserFeedback,
}

/// How grave a piece of feedback on a plan is.
#[derive(Debug, Clone, Copy, PartialEq, Eq, Structural)]
pub enum FeedbackSeverity {
    Info,
    Warning,
    Error,
    Critical,
}

} // verus!
