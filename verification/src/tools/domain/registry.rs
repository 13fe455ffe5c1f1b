//! Registration data of the tools.
use vstd::prelude::*;
use crate::tools::domain::tool_metadata::ToolMetadata;

verus! {

/// Dependency type of a registered tool.
#[derive(Clone, Copy, PartialEq, Eq, Debug, Structural)]
pub enum DependencyType {
    FileSystem,
    CommandExecutor,
    Custom,
}

/// A registered tool: its id, what it depends on, and its metadata.  (The
/// factory that builds the tool object belongs to the agent runtime.)
#[derive(Debug)]
pub struct ToolRegistration {
    pub id: String,
    pub dependency_type: DependencyType,
    pub metadata: ToolMetadata,
}

impl ToolRegistration {
    /// A registration.
    pub fn new(id: &str, dependency_type: DependencyType, metadata: ToolMetadata) -> (r: Self)
        ensures
            r.id@ == id@,
            r.dependency_type == dependency_type,
            r.metadata == metadata,
    {
        ToolRegistration { id: id.to_owned(), dependency_type, metadata }
    }
}

/// All tool registrations; tools register through their providers, so the
/// list is empty.
pub fn collect_registrations() -> (r: Vec<ToolRegistration>)
    ensures
        r@.len() == 0,
{
    Vec::new()
}

} // verus!
