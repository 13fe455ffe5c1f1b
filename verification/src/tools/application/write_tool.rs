//! Write tool: reads and validates its arguments and decides the answers
//! around the permission checks and the write.
use vstd::prelude::*;
use crate::text::{decimal, extend_str, string_of, str_byte_len, utf8_fits, utf8_len};
use crate::tools::domain::json_value::{jbool, jget, jstr, JsonValue, JsonView};
use crate::tools::domain::permissions::PermissionStatus;
use crate::tools::domain::validation::{content_error, failure_message, validate_content_size};
use crate::tools::domain::xml_builder::{error_xml, escaped, success_xml, XmlBuilder};

verus! {

/// Write tool.
pub struct WriteTool;

/// Arguments of a write.
#[derive(Debug)]
pub struct WriteArgs {
    pub path: String,
    pub content: String,
    pub create_dirs: bool,
}

/// What the tool makes of its arguments: a path, a non-empty content of at
/// most 100 MB, and whether to create missing directories (yes when not
/// given).
pub open spec fn write_parse(v: JsonView) -> Result<(Seq<char>, Seq<char>, bool), Seq<char>> {
    match jstr(jget(v, "path"@)) {
        None => Err("Missing 'path' argument"@),
        Some(p) => match jstr(jget(v, "content"@)) {
            None => Err("Missing 'content' argument"@),
            Some(c) => if content_error(c) is Some {
                Err(content_error(c)->0)
            } else {
                Ok((p, c, match jbool(jget(v, "create_dirs"@)) {
                    Some(b) => b,
                    None => true,
                }))
            },
        },
    }
}

/// The text of an optional string, or a default.
pub open spec fn or_default(o: Option<String>, d: Seq<char>) -> Seq<char> {
    match o {
        Some(s) => s@,
        None => d,
    }
}

impl WriteTool {
    /// A write tool.
    pub fn new() -> (r: Self) {
        WriteTool
    }

    /// Reads and validates the arguments.
    pub fn parse_args(args: &JsonValue) -> (r: Result<WriteArgs, String>)
        ensures
            match (r, write_parse(args@)) {
                (Ok(a), Ok(v)) => a.path@ == v.0 && a.content@ == v.1 && a.create_dirs == v.2,
                (Err(m), Err(e)) => m@ == e,
                _ => false,
            },
    {
        let path = match args.get_str("path") {
            Some(p) => p,
            None => return Err("Missing 'path' argument".to_owned()),
        };
        let content = match args.get_str("content") {
            Some(c) => c,
            None => return Err("Missing 'content' argument".to_owned()),
        };
        utf8_fits(content);
        if let Some(m) = failure_message(validate_content_size(content)) {
            return Err(m);
        }
        let create_dirs = match args.get_bool("create_dirs") {
            Some(b) => b,
            None => true,
        };
        Ok(WriteArgs { path: path.to_owned(), content: content.to_owned(), create_dirs })
    }

    /// The answer when a permission check refused the write, with the
    /// given defaults for a missing reason or suggestion.
    pub fn permission_denied(status: &PermissionStatus, default_reason: &str, default_suggestion: &str) -> (r: String)
        ensures
            r@ == error_xml(
                "write"@,
                "PERMISSION_DENIED"@,
                or_default(status.reason, default_reason@),
                or_default(status.suggestion, default_suggestion@),
            ),
    {
        let reason = match &status.reason {
            Some(s) => s.clone(),
            None => default_reason.to_owned(),
        };
        let suggestion = match &status.suggestion {
            Some(s) => s.clone(),
            None => default_suggestion.to_owned(),
        };
        XmlBuilder::build_error("write", "PERMISSION_DENIED", reason.as_str(), suggestion.as_str())
    }

    /// The answer when the path is a directory.
    pub fn is_directory(path: &str) -> (r: String)
        ensures
            r@ == error_xml("write"@, "IS_DIRECTORY"@, "Cannot write to directory: "@ + path@, "The path '"@ + path@ + "' is a directory"@),
    {
        let mut m: Vec<char> = Vec::new();
        extend_str(&mut m, "Cannot write to directory: ");
        extend_str(&mut m, path);
        let mut d: Vec<char> = Vec::new();
        extend_str(&mut d, "The path '");
        extend_str(&mut d, path);
        extend_str(&mut d, "' is a directory");
        XmlBuilder::build_error("write", "IS_DIRECTORY", string_of(m.as_slice()).as_str(), string_of(d.as_slice()).as_str())
    }

    /// The message when the write itself failed.
    pub fn write_failed(error: &str) -> (r: String)
        ensures
            r@ == "Failed to write file: "@ + error@,
    {
        let mut m: Vec<char> = Vec::new();
        extend_str(&mut m, "Failed to write file: ");
        extend_str(&mut m, error);
        string_of(m.as_slice())
    }

    /// The answer after a successful write: the path and the bytes written.
    pub fn written(args: &WriteArgs) -> (r: String)
        ensures
            r@ == success_xml(
                "write"@,
                "<file path=\""@ + escaped(args.path@) + "\"><bytes_written>"@ + decimal(utf8_len(args.content@))
                    + "</bytes_written></file>"@,
                "Successfully wrote "@ + decimal(utf8_len(args.content@)) + " bytes to "@ + args.path@,
            ),
    {
        utf8_fits(args.content.as_str());
        let n = str_byte_len(args.content.as_str());
        XmlBuilder::build_write_result_xml(args.path.as_str(), n)
    }
}

} // verus!
