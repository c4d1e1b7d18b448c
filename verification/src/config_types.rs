//! Configuration-level settings that the request builder reads.

use vstd::prelude::*;

verus! {

/// How much reasoning effort the configuration asks for. `Off` is the
/// configuration value "none": it switches reasoning off altogether.
#[derive(Debug, Clone, Copy, PartialEq, Eq, Structural)]
pub enum ReasoningEffort {
    Low,
    Medium,
    High,
    Off,
}

impl Default for ReasoningEffort {
    fn default() -> (r: Self)
        ensures
            r == ReasoningEffort::Medium,
    {
        ReasoningEffort::Medium
    }
}

/// How detailed a reasoning summary the configuration asks for. `Off` is the
/// configuration value "none": it asks for no summary.
#[derive(Debug, Clone, Copy, PartialEq, Eq, Structural)]
pub enum ReasoningSummary {
    Auto,
    Concise,
    Detailed,
    Off,
}

impl Default for ReasoningSummary {
    fn default() -> (r: Self)
        ensures
            r == ReasoningSummary::Auto,
    {
        ReasoningSummary::Auto
    }
}

/// The sandbox an agent's actions run in, without the details of its policy.
#[derive(Debug, Clone, Copy, PartialEq, Eq, Structural)]
pub enum SandboxMode {
    ReadOnly,
    WorkspaceWrite,
    DangerFullAccess,
}

impl SandboxMode {
    /// The kebab-case name of the mode.
    pub open spec fn label_spec(self) -> Seq<char> {
        match self {
            SandboxMode::ReadOnly => "read-only"@,
            SandboxMode::WorkspaceWrite => "workspace-write"@,
            SandboxMode::DangerFullAccess => "danger-full-access"@,
        }
    }

    /// The kebab-case name of the mode, as it is written in messages and on
    /// the wire.
    pub fn label(&self) -> (r: &'static str)
        ensures
            r@ == self.label_spec(),
    {
        match self {
            SandboxMode::ReadOnly => "read-only",
            SandboxMode::WorkspaceWrite => "workspace-write",
            SandboxMode::DangerFullAccess => "danger-full-access",
        }
    }
}

} // verus!
