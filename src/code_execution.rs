use vstd::prelude::*;

verus! {

/// Where code given to an agent is run.
#[derive(Debug, Clone, Copy, PartialEq, Eq, Structural)]
pub enum ExecutionMode {
    Sandbox,
    Container,
    Local,
    Remote,
}

/// A security concern found in code given to an agent.
#[derive(Debug, Clone)]
pub struct SecurityIssue {
    pub issue_type: SecurityIssueType,
    pub description: String,
    pub severity: SecuritySeverity,
    /// Line of the code where the concern lies, if known.
    pub line_number: Option<usize>,
    pub suggested_fix: Option<String>,
}

/// The kinds of security concerns.
#[derive(Debug, Clone, Copy, PartialEq, Eq, Structural)]
pub enum SecurityIssueType {
    DangerousImport,
    FileSystemAccess,
    NetworkAccess,
    SystemCommand,
    CodeInjection,
    ResourceExhaustion,
}

/// How grave a security concern is.
#[derive(Debug, Clone, Copy, PartialEq, Eq, Structural)]
pub enum SecuritySeverity {
    Low,
    Medium,
    High,
    Critical,
}

} // verus!
