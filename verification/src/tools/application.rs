//! Tools as the agent calls them: argument parsing, the decisions around
//! the file-system and command work, and the answers.
pub mod apply_patch_tool;
pub mod bash_tool;
pub mod pdf_limits;
pub mod read_tool;
pub mod head_tail_tool;
pub mod responses;
pub mod list_tool;
pub mod stat_tool;
pub mod write_tool;
pub mod edit_tool;
pub mod glob_tool;
pub mod grep_tool;
pub mod todo_tool;
pub mod batch_tool;
pub mod webfetch_tool;
pub mod websearch_tool;
pub mod codesearch_tool;
pub mod descriptors;
