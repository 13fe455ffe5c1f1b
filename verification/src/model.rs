//! Plain-value models of the file-system and command facts the tools work on.
use vstd::prelude::*;

verus! {

/// Kind of a file-system entry.
#[derive(Debug, Clone, Copy, PartialEq, Eq, Structural)]
pub enum FileType {
    File,
    Directory,
    Symlink,
    Other,
}

/// Metadata of a file-system entry, as listed or inspected by the tools.
///
/// `modified` holds the modification time already rendered as
/// `YYYY-MM-DDTHH:MM:SSZ`.
#[derive(Debug, Clone)]
pub struct FileMetadata {
    pub name: String,
    pub path: String,
    pub file_type: FileType,
    pub size: u64,
    pub permissions: String,
    pub modified: String,
    pub is_hidden: bool,
    pub is_readable: bool,
    pub is_writable: bool,
}

/// Outcome of running a command.
#[derive(Debug, Clone)]
pub struct CommandResult {
    pub exit_code: Option<i32>,
    pub success: bool,
    pub duration_ms: u64,
    pub stdout: String,
    pub stderr: String,
}

} // verus!

verus! {

/// A command to run: program, arguments, working directory and timeout in
/// seconds.
#[derive(Debug)]
pub struct CommandRequest {
    pub command: String,
    pub args: Vec<String>,
    pub working_dir: Option<String>,
    pub timeout_secs: Option<u64>,
}

impl CommandRequest {
    /// A request to run `command` with no arguments, in the current
    /// directory, without timeout.
    pub fn new(command: &str) -> (r: Self)
        ensures
            r.command@ == command@,
            r.args@.len() == 0,
            r.working_dir is None,
            r.timeout_secs is None,
    {
        CommandRequest { command: command.to_owned(), args: Vec::new(), working_dir: None, timeout_secs: None }
    }

    /// The request with the given arguments.
    pub fn with_args(self, args: Vec<String>) -> (r: Self)
        ensures
            r.command == self.command,
            r.args == args,
            r.working_dir == self.working_dir,
            r.timeout_secs == self.timeout_secs,
    {
        CommandRequest { args, ..self }
    }

    /// The request run in the given directory.
    pub fn with_working_dir(self, dir: &str) -> (r: Self)
        ensures
            r.command == self.command,
            r.args == self.args,
            r.working_dir matches Some(d) && d@ == dir@,
            r.timeout_secs == self.timeout_secs,
    {
        CommandRequest { working_dir: Some(dir.to_owned()), ..self }
    }

    /// The request with a timeout in seconds.
    pub fn with_timeout(self, secs: u64) -> (r: Self)
        ensures
            r.command == self.command,
            r.args == self.args,
            r.working_dir == self.working_dir,
            r.timeout_secs == Some(secs),
    {
        CommandRequest { timeout_secs: Some(secs), ..self }
    }
}

} // verus!
