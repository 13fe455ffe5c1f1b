//! What each tool needs to be built.
use vstd::prelude::*;

verus! {

/// Dependency type required by a tool.
#[derive(Clone, Copy, PartialEq, Eq, Debug, Structural)]
pub enum DependencyType {
    /// Requires a file system.
    FileSystem,
    /// Requires a command executor.
    CommandExecutor,
    /// No external dependencies.
    NoDependency,
}

} // verus!
