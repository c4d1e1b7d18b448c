//! What the request builder has to know about the model it talks to.

use vstd::prelude::*;

verus! {

/// A family of models that share their capabilities.
#[derive(Debug, Clone, PartialEq, Eq)]
pub struct ModelFamily {
    /// The full name of the model, such as `gpt-4.1`.
    pub slug: String,
    /// The name of the family, such as `gpt-4.1`.
    pub family: String,
    /// The model needs the patch-tool instructions in its instruction text.
    pub needs_special_apply_patch_instructions: bool,
    /// The model can report summaries of its reasoning.
    pub supports_reasoning_summaries: bool,
}

} // verus!
