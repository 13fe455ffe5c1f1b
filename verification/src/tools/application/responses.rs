//! Error answers shared by the file tools.
use vstd::prelude::*;
use crate::text::{extend_str, string_of};
use crate::tools::domain::json_builder::{error_doc, JsonBuilder};
use crate::tools::domain::json_value::JsonValue;

verus! {

/// The answer of a tool when the path does not exist.
pub fn file_not_found(tool: &str, path: &str) -> (r: JsonValue)
    ensures
        r@ == error_doc(tool@, "FILE_NOT_FOUND"@, "File not found: "@ + path@, "The file '"@ + path@ + "' does not exist"@),
{
    let mut m: Vec<char> = Vec::new();
    extend_str(&mut m, "File not found: ");
    extend_str(&mut m, path);
    let mut d: Vec<char> = Vec::new();
    extend_str(&mut d, "The file '");
    extend_str(&mut d, path);
    extend_str(&mut d, "' does not exist");
    JsonBuilder::build_error(tool, "FILE_NOT_FOUND", string_of(m.as_slice()).as_str(), string_of(d.as_slice()).as_str())
}

/// The answer of a tool when the path is not a file.
pub fn not_a_file(tool: &str, path: &str) -> (r: JsonValue)
    ensures
        r@ == error_doc(tool@, "NOT_A_FILE"@, "Not a file: "@ + path@, "The path '"@ + path@ + "' is not a file"@),
{
    let mut m: Vec<char> = Vec::new();
    extend_str(&mut m, "Not a file: ");
    extend_str(&mut m, path);
    let mut d: Vec<char> = Vec::new();
    extend_str(&mut d, "The path '");
    extend_str(&mut d, path);
    extend_str(&mut d, "' is not a file");
    JsonBuilder::build_error(tool, "NOT_A_FILE", string_of(m.as_slice()).as_str(), string_of(d.as_slice()).as_str())
}

/// The answer of a tool when the path it was given does not exist.
pub fn path_not_found(tool: &str, path: &str) -> (r: JsonValue)
    ensures
        r@ == error_doc(tool@, "PATH_NOT_FOUND"@, "Path not found: "@ + path@, "The path '"@ + path@ + "' does not exist"@),
{
    let mut m: Vec<char> = Vec::new();
    extend_str(&mut m, "Path not found: ");
    extend_str(&mut m, path);
    let mut d: Vec<char> = Vec::new();
    extend_str(&mut d, "The path '");
    extend_str(&mut d, path);
    extend_str(&mut d, "' does not exist");
    JsonBuilder::build_error(tool, "PATH_NOT_FOUND", string_of(m.as_slice()).as_str(), string_of(d.as_slice()).as_str())
}

} // verus!
