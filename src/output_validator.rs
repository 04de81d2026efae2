use vstd::prelude::*;

verus! {

/// A defect found in an agent's output.
#[derive(Debug, Clone)]
pub struct ValidationError {
    pub error_type: ValidationErrorType,
    pub message: String,
    pub location: Option<String>,
    pub severity: ErrorSeverity,
}

/// The kinds of output defects.
#[derive(Debug, Clone, Copy, PartialEq, Eq, Structural)]
pub enum ValidationErrorType {
    MissingRequiredField,
    InvalidFormat,
    InvalidJsonStructure,
    UnexpectedContent,
    IncompleteResponse,
    InvalidToolName,
    MalformedActionInput,
}

/// A doubtful but acceptable feature of an agent's output.
#[derive(Debug, Clone)]
pub struct ValidationWarning {
    pub warning_type: ValidationWarningType,
    pub message: String,
    pub suggestion: Option<String>,
}

/// The kinds of doubtful output features.
#[derive(Debug, Clone, Copy, PartialEq, Eq, Structural)]
pub enum ValidationWarningType {
    SuboptimalFormat,
    UnusualStructure,
    PotentialAmbiguity,
    PerformanceImpact,
}

/// How grave an output defect is, from least to most.
#[derive(Debug, Clone, Copy, PartialEq, Eq, Structural, PartialOrd, Ord)]
pub enum ErrorSeverity {
    Low,
    Medium,
    High,
    Critical,
}

/// The output conventions an agent may follow.
#[derive(Debug, Clone, PartialEq, Eq, Hash)]
pub enum FormatType {
    ReAct,
    Chat,
    OpenAITools,
    Custom(String),
}

/// What a field of an agent's output holds.
#[derive(Debug, Clone, Copy, PartialEq, Eq, Structural)]
pub enum FieldType {
    String,
    Json,
    ToolName,
    ActionInput,
    Thought,
    FinalAnswer,
}

/// The kinds of structural rules on an agent's output.
#[derive(Debug, Clone, Copy, PartialEq, Eq, Structural)]
pub enum StructureRuleType {
    StartsWith,
    Contains,
    FollowsPattern,
    HasSequence,
    ValidJson,
}

} // verus!
