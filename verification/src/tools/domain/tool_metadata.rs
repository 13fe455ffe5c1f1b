//! Tool metadata for progressive disclosure and documentation.
use vstd::prelude::*;
use crate::tools::domain::json_value::JsonValue;

verus! {

/// When to disclose a tool to the agent.
#[derive(Debug, Clone)]
pub enum DisclosurePolicy {
    /// Always show (default for basic tools).
    Always,
    /// Show only in specific contexts.
    Conditional { context: Vec<String> },
    /// Show after certain tools are used.
    Sequential { after: Vec<String> },
    /// Show only when explicitly requested.
    Explicit,
}

/// A usage example of a tool.
#[derive(Debug)]
pub struct ToolExample {
    pub description: String,
    /// The example's arguments, by name.
    pub parameters: Vec<(String, JsonValue)>,
    pub outcome: String,
}

/// Extended metadata of a tool.
#[derive(Debug)]
pub struct ToolMetadata {
    /// Priority for progressive disclosure (1-10, lower = always show).
    pub priority: u8,
    /// When to show the tool.
    pub disclosure: DisclosurePolicy,
    /// Usage examples for the documentation.
    pub examples: Vec<ToolExample>,
    /// Related tools, for contextual suggestions.
    pub related_tools: Vec<String>,
    /// Tags for categorization.
    pub tags: Vec<String>,
    /// Custom prompt hints.
    pub prompt_hints: Option<String>,
}

impl Default for ToolMetadata {
    /// Priority 5, always shown, with no examples, related tools, tags or
    /// hints.
    fn default() -> (r: Self)
        ensures
            r.priority == 5,
            r.disclosure is Always,
            r.examples@.len() == 0,
            r.related_tools@.len() == 0,
            r.tags@.len() == 0,
            r.prompt_hints is None,
    {
        ToolMetadata {
            priority: 5,
            disclosure: DisclosurePolicy::Always,
            examples: Vec::new(),
            related_tools: Vec::new(),
            tags: Vec::new(),
            prompt_hints: None,
        }
    }
}

} // verus!
