//! Checks made before a file operation: existence, kind, and whether the
//! kind suits the operation.
//!
//! The file-system facts (whether the path path_exists, is a file, is a
//! directory) are observed by the caller and passed in.
use vstd::prelude::*;
use crate::model::FileType;
use crate::text::{extend_str, string_of};

verus! {

/// What is known of a file about to be accessed.
#[derive(Debug, Clone)]
pub struct FileAccessInfo {
    pub path: String,
    pub exists: bool,
    pub file_type: FileType,
}

/// What is known of a directory about to be accessed.
#[derive(Debug, Clone)]
pub struct DirectoryAccessInfo {
    pub path: String,
    pub exists: bool,
}

/// Why a file operation cannot proceed.
#[derive(Debug, Clone, PartialEq, Eq)]
pub enum FileOperationError {
    FileNotFound(String),
    NotAFile(String),
    NotADirectory(String),
    PathTooLong(String),
    InvalidPath(String),
    SpecialFileNotSupported(String),
}

/// The text an error displays.
pub open spec fn file_operation_error_text(e: FileOperationError) -> Seq<char> {
    match e {
        FileOperationError::FileNotFound(p) => "File not found: "@ + p@,
        FileOperationError::NotAFile(p) => "Not a file: "@ + p@,
        FileOperationError::NotADirectory(p) => "Not a directory: "@ + p@,
        FileOperationError::PathTooLong(p) => "Path too long: "@ + p@,
        FileOperationError::InvalidPath(p) => "Invalid path: "@ + p@,
        FileOperationError::SpecialFileNotSupported(p) => "Special file not supported: "@ + p@,
    }
}

impl FileOperationError {
    /// The error's message, e.g. `File not found: /test`.
    pub fn to_display(&self) -> (r: String)
        ensures
            r@ == file_operation_error_text(*self),
    {
        let mut v: Vec<char> = Vec::new();
        match self {
            FileOperationError::FileNotFound(p) => {
                extend_str(&mut v, "File not found: ");
                extend_str(&mut v, p.as_str());
            },
            FileOperationError::NotAFile(p) => {
                extend_str(&mut v, "Not a file: ");
                extend_str(&mut v, p.as_str());
            },
            FileOperationError::NotADirectory(p) => {
                extend_str(&mut v, "Not a directory: ");
                extend_str(&mut v, p.as_str());
            },
            FileOperationError::PathTooLong(p) => {
                extend_str(&mut v, "Path too long: ");
                extend_str(&mut v, p.as_str());
            },
            FileOperationError::InvalidPath(p) => {
                extend_str(&mut v, "Invalid path: ");
                extend_str(&mut v, p.as_str());
            },
            FileOperationError::SpecialFileNotSupported(p) => {
                extend_str(&mut v, "Special file not supported: ");
                extend_str(&mut v, p.as_str());
            },
        }
        string_of(v.as_slice())
    }
}

/// The kinds of file operation.
#[derive(Debug, Clone, Copy, PartialEq, Eq, Structural)]
pub enum FileOperationType {
    Read,
    Write,
    Edit,
}

/// Validates file operations before they run.
pub struct FileOperationPrechecker;

impl FileOperationPrechecker {
    /// Create a new prechecker.
    pub fn new() -> (r: Self) {
        FileOperationPrechecker
    }

    /// A file to read must exist and be a file.
    pub fn verify_file_readable(&self, path: &str, path_exists: bool, is_file: bool) -> (r: Result<
        FileAccessInfo,
        FileOperationError,
    >)
        ensures
            !path_exists ==> (r matches Err(FileOperationError::FileNotFound(p)) && p@ == path@),
            path_exists && !is_file ==> (r matches Err(FileOperationError::NotAFile(p)) && p@ == path@),
            path_exists && is_file ==> (r matches Ok(info) && info.path@ == path@ && info.exists
                && info.file_type == FileType::File),
    {
        if !path_exists {
            return Err(FileOperationError::FileNotFound(path.to_owned()));
        }
        if !is_file {
            return Err(FileOperationError::NotAFile(path.to_owned()));
        }
        Ok(FileAccessInfo { path: path.to_owned(), exists: true, file_type: FileType::File })
    }

    /// A file to write must exist and be a file.
    pub fn verify_file_writable(&self, path: &str, path_exists: bool, is_file: bool) -> (r: Result<
        FileAccessInfo,
        FileOperationError,
    >)
        ensures
            !path_exists ==> (r matches Err(FileOperationError::FileNotFound(p)) && p@ == path@),
            path_exists && !is_file ==> (r matches Err(FileOperationError::NotAFile(p)) && p@ == path@),
            path_exists && is_file ==> (r matches Ok(info) && info.path@ == path@ && info.exists
                && info.file_type == FileType::File),
    {
        if !path_exists {
            return Err(FileOperationError::FileNotFound(path.to_owned()));
        }
        if !is_file {
            return Err(FileOperationError::NotAFile(path.to_owned()));
        }
        Ok(FileAccessInfo { path: path.to_owned(), exists: true, file_type: FileType::File })
    }

    /// The path must exist; it is reported as a file or else a directory.
    pub fn verify_file_exists(&self, path: &str, path_exists: bool, is_file: bool) -> (r: Result<
        FileAccessInfo,
        FileOperationError,
    >)
        ensures
            !path_exists ==> (r matches Err(FileOperationError::FileNotFound(p)) && p@ == path@),
            path_exists ==> (r matches Ok(info) && info.path@ == path@ && info.exists && info.file_type
                == if is_file {
                FileType::File
            } else {
                FileType::Directory
            }),
    {
        if !path_exists {
            return Err(FileOperationError::FileNotFound(path.to_owned()));
        }
        Ok(
            FileAccessInfo {
                path: path.to_owned(),
                exists: true,
                file_type: if is_file {
                    FileType::File
                } else {
                    FileType::Directory
                },
            },
        )
    }

    /// The path must exist and be a directory.
    pub fn verify_directory_exists(&self, path: &str, path_exists: bool, is_dir: bool) -> (r: Result<
        DirectoryAccessInfo,
        FileOperationError,
    >)
        ensures
            !(path_exists && is_dir) ==> (r matches Err(FileOperationError::NotADirectory(p)) && p@
                == path@),
            path_exists && is_dir ==> (r matches Ok(info) && info.path@ == path@ && info.exists),
    {
        if !path_exists {
            return Err(FileOperationError::NotADirectory(path.to_owned()));
        }
        if !is_dir {
            return Err(FileOperationError::NotADirectory(path.to_owned()));
        }
        Ok(DirectoryAccessInfo { path: path.to_owned(), exists: true })
    }

    /// A file can be created unless something other than a file is there.
    pub fn verify_can_create_file(&self, path: &str, path_exists: bool, is_file: bool) -> (r: Result<
        (),
        FileOperationError,
    >)
        ensures
            path_exists && !is_file ==> (r matches Err(FileOperationError::NotAFile(p)) && p@ == path@),
            !(path_exists && !is_file) ==> r is Ok,
    {
        if path_exists {
            if !is_file {
                return Err(FileOperationError::NotAFile(path.to_owned()));
            }
        }
        Ok(())
    }

    /// Special files cannot be read; directories and special files cannot be
    /// written or edited.
    pub fn validate_file_type_for_operation(&self, file_type: FileType, operation: FileOperationType) -> (r:
        Result<(), FileOperationError>)
        ensures
            operation == FileOperationType::Read && file_type == FileType::Other ==> (r matches Err(
                FileOperationError::SpecialFileNotSupported(m),
            ) && m@ == "Cannot read special file (device, socket, etc.)"@),
            operation != FileOperationType::Read && file_type == FileType::Directory ==> (r matches Err(
                FileOperationError::NotAFile(m),
            ) && m@ == "Cannot write to directory"@),
            operation != FileOperationType::Read && file_type == FileType::Other ==> (r matches Err(
                FileOperationError::SpecialFileNotSupported(m),
            ) && m@ == "Cannot write to special file"@),
            (file_type == FileType::File || file_type == FileType::Symlink || (operation
                == FileOperationType::Read && file_type == FileType::Directory)) ==> r is Ok,
    {
        match operation {
            FileOperationType::Read => {
                if file_type == FileType::Other {
                    return Err(
                        FileOperationError::SpecialFileNotSupported(
                            "Cannot read special file (device, socket, etc.)".to_owned(),
                        ),
                    );
                }
            },
            FileOperationType::Write | FileOperationType::Edit => {
                if file_type == FileType::Directory {
                    return Err(FileOperationError::NotAFile("Cannot write to directory".to_owned()));
                }
                if file_type == FileType::Other {
                    return Err(
                        FileOperationError::SpecialFileNotSupported(
                            "Cannot write to special file".to_owned(),
                        ),
                    );
                }
            },
        }
        Ok(())
    }
}

} // verus!
