//! Permission checks made before file operations, with explanations and
//! suggestions when an operation would fail.
//!
//! The file-system facts are observed by the caller and passed in.
use vstd::prelude::*;
use crate::text::{extend_str, string_of};

verus! {

/// Whether an operation is allowed, and if not, why and what to do.
#[derive(Debug, Clone)]
pub struct PermissionStatus {
    pub allowed: bool,
    pub reason: Option<String>,
    pub suggestion: Option<String>,
}

impl PermissionStatus {
    /// The operation is allowed.
    pub fn allowed() -> (r: Self)
        ensures
            r.allowed && r.reason is None && r.suggestion is None,
    {
        PermissionStatus { allowed: true, reason: None, suggestion: None }
    }

    /// The operation is denied for the given reason.
    pub fn denied(reason: String, suggestion: Option<String>) -> (r: Self)
        ensures
            !r.allowed && r.reason == Some(reason) && r.suggestion == suggestion,
    {
        PermissionStatus { allowed: false, reason: Some(reason), suggestion }
    }
}

/// Name for the result of `Path::new(p).parent()` as a string.
pub uninterp spec fn path_parent(p: Seq<char>) -> Option<Seq<char>>;

/// `Path::parent` of the path, as a string.
#[verifier::external_body]
fn parent_of(path: &str) -> (r: Option<String>)
    ensures
        match r {
            Some(p) => path_parent(path@) == Some(p@),
            None => path_parent(path@) is None,
        },
{
    std::path::Path::new(path).parent().map(|p| p.to_string_lossy().into_owned())
}

/// A status denied with `<prefix><path>` and the given suggestion.
fn denied_with(prefix: &str, path: &str, suggestion: &str) -> (r: PermissionStatus)
    ensures
        !r.allowed,
        r.reason matches Some(m) && m@ == prefix@ + path@,
        r.suggestion matches Some(s) && s@ == suggestion@,
{
    let mut v: Vec<char> = Vec::new();
    extend_str(&mut v, prefix);
    extend_str(&mut v, path);
    PermissionStatus::denied(string_of(v.as_slice()), Some(suggestion.to_owned()))
}

/// The status `check_directory_write_permission` gives a directory.
pub open spec fn directory_write_status(
    dir: Seq<char>,
    path_exists: bool,
    is_dir: bool,
    r: PermissionStatus,
) -> bool {
    if !path_exists {
        !r.allowed && (r.reason matches Some(m) && m@ == "Parent directory does not exist: "@ + dir)
            && (r.suggestion matches Some(s) && s@ == "Create the parent directory first"@)
    } else if !is_dir {
        !r.allowed && (r.reason matches Some(m) && m@ == "Parent path is not a directory: "@ + dir)
            && (r.suggestion matches Some(s) && s@ == "Specify a valid directory path"@)
    } else {
        r.allowed && r.reason is None && r.suggestion is None
    }
}

/// The status for writing (or creating a directory at) a path: allowed
/// when the path exists or has no non-empty parent, otherwise the status of
/// writing into the parent directory.
pub open spec fn write_status(
    path: Seq<char>,
    path_exists: bool,
    parent_exists: bool,
    parent_is_dir: bool,
    st: PermissionStatus,
) -> bool {
    if !path_exists && path_parent(path) is Some && path_parent(path)->0.len() > 0 {
        directory_write_status(path_parent(path)->0, parent_exists, parent_is_dir, st)
    } else {
        st.allowed && st.reason is None && st.suggestion is None
    }
}

/// Checks permissions before file operations.
pub struct PermissionChecker;

impl PermissionChecker {
    /// Create a new permission checker.
    pub fn new() -> (r: Self) {
        PermissionChecker
    }

    /// A path can be read when it exists.
    pub fn check_read_permission(&self, path: &str, path_exists: bool) -> (r: Result<PermissionStatus, String>)
        ensures
            r matches Ok(st) && if path_exists {
                st.allowed && st.reason is None && st.suggestion is None
            } else {
                !st.allowed && (st.reason matches Some(m) && m@ == "Path does not exist: "@ + path@)
                    && (st.suggestion matches Some(s) && s@ == "Check that the path is correct"@)
            },
    {
        if !path_exists {
            return Ok(denied_with("Path does not exist: ", path, "Check that the path is correct"));
        }
        Ok(PermissionStatus::allowed())
    }

    /// A path can be written when it exists, or when its parent (if it has a
    /// non-empty one) is an existing directory.  `parent_exists` and
    /// `parent_is_dir` describe `Path::parent` of the path.
    pub fn check_write_permission(
        &self,
        path: &str,
        path_exists: bool,
        parent_exists: bool,
        parent_is_dir: bool,
    ) -> (r: Result<PermissionStatus, String>)
        ensures
            r matches Ok(st) && write_status(path@, path_exists, parent_exists, parent_is_dir, st),
    {
        if !path_exists {
            if let Some(parent) = parent_of(path) {
                if !parent.as_str().is_empty() {
                    return Ok(
                        self.check_directory_write_permission(
                            parent.as_str(),
                            parent_exists,
                            parent_is_dir,
                        ),
                    );
                }
            }
            return Ok(PermissionStatus::allowed());
        }
        Ok(PermissionStatus::allowed())
    }

    /// A directory can be created when it exists already, or when its
    /// parent (if it has a non-empty one) is an existing directory.
    pub fn check_directory_create_permission(
        &self,
        path: &str,
        path_exists: bool,
        parent_exists: bool,
        parent_is_dir: bool,
    ) -> (r: Result<PermissionStatus, String>)
        ensures
            r matches Ok(st) && write_status(path@, path_exists, parent_exists, parent_is_dir, st),
    {
        if path_exists {
            return Ok(PermissionStatus::allowed());
        }
        if let Some(parent) = parent_of(path) {
            if !parent.as_str().is_empty() {
                return Ok(
                    self.check_directory_write_permission(parent.as_str(), parent_exists, parent_is_dir),
                );
            }
        }
        Ok(PermissionStatus::allowed())
    }

    /// A directory can be written when it exists and is a directory.
    fn check_directory_write_permission(&self, dir: &str, path_exists: bool, is_dir: bool) -> (r: PermissionStatus)
        ensures
            directory_write_status(dir@, path_exists, is_dir, r),
    {
        if !path_exists {
            return denied_with(
                "Parent directory does not exist: ",
                dir,
                "Create the parent directory first",
            );
        }
        if !is_dir {
            return denied_with("Parent path is not a directory: ", dir, "Specify a valid directory path");
        }
        PermissionStatus::allowed()
    }

    /// A suggestion for a denied operation (on Unix systems).
    pub fn explain_permission_denied(&self, _path: &str, _operation: &str) -> (r: Option<String>)
        ensures
            r matches Some(s) && s@ == "Try: chmod u+w <file> or run with appropriate permissions"@,
    {
        Some("Try: chmod u+w <file> or run with appropriate permissions".to_owned())
    }
}

} // verus!
