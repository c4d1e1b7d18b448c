//! Policies of the session that a request reports, and the usage that a
//! reply reports.

use vstd::prelude::*;

verus! {

/// When the agent has to ask before it runs a command.
#[derive(Debug, Clone, Copy, PartialEq, Eq, Structural)]
pub enum AskForApproval {
    /// Ask for everything that is not known to be safe.
    UnlessTrusted,
    /// Ask only after a sandboxed run has failed.
    OnFailure,
    /// The model decides when to ask.
    OnRequest,
    /// Never ask.
    Never,
}

impl AskForApproval {
    /// The kebab-case name of the policy.
    pub open spec fn label_spec(self) -> Seq<char> {
        match self {
            AskForApproval::UnlessTrusted => "untrusted"@,
            AskForApproval::OnFailure => "on-failure"@,
            AskForApproval::OnRequest => "on-request"@,
            AskForApproval::Never => "never"@,
        }
    }

    /// The kebab-case name of the policy, as it is written in messages and
    /// on the wire.
    pub fn label(&self) -> (r: &'static str)
        ensures
            r@ == self.label_spec(),
    {
        match self {
            AskForApproval::UnlessTrusted => "untrusted",
            AskForApproval::OnFailure => "on-failure",
            AskForApproval::OnRequest => "on-request",
            AskForApproval::Never => "never",
        }
    }
}

/// What the sandbox lets the agent's actions do.
#[derive(Debug, Clone, Copy, PartialEq, Eq, Structural)]
pub enum SandboxPolicy {
    /// No restriction at all.
    DangerFullAccess,
    /// The file system can be read, nothing can be written, no network.
    ReadOnly,
    /// The workspace can be written; the network only where the flag is set.
    WorkspaceWrite { network_access: bool },
}

/// Token counts that the service reports when a reply is complete.
#[derive(Debug, Clone, Copy, PartialEq, Eq, Structural)]
pub struct TokenUsage {
    pub input_tokens: u64,
    pub cached_input_tokens: Option<u64>,
    pub output_tokens: u64,
    pub reasoning_output_tokens: Option<u64>,
    pub total_tokens: u64,
}

} // verus!
