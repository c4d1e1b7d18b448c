//! Tool definitions that a request offers to the model.

use vstd::prelude::*;

verus! {

/// One tool that the model may call.
#[derive(Debug, Clone, PartialEq, Eq)]
pub enum OpenAiTool {
    /// A function with a name and a description of what it does.
    Function { name: String, description: String, strict: bool },
    /// The shell that the service itself knows how to describe.
    LocalShell,
}

} // verus!
