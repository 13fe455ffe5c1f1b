//! Stat tool: the metadata of a path.
use vstd::prelude::*;
use crate::model::FileMetadata;
use crate::text::{extend_str, string_of};
use crate::tools::domain::json_builder::{error_doc, stat_data, success_doc, JsonBuilder};
use crate::tools::domain::json_value::{jget, jstr, JsonValue, JsonView};

verus! {

/// Stat tool.
pub struct StatTool;

/// Arguments of a stat.
#[derive(Debug)]
pub struct StatArgs {
    pub path: String,
}

impl StatTool {
    /// A stat tool.
    pub fn new() -> (r: Self) {
        StatTool
    }

    /// Reads the arguments: the path is required.
    pub fn parse_args(args: &JsonValue) -> (r: Result<StatArgs, String>)
        ensures
            match jstr(jget(args@, "path"@)) {
                Some(p) => r matches Ok(a) && a.path@ == p,
                None => r matches Err(m) && m@ == "Missing 'path' argument"@,
            },
    {
        match args.get_str("path") {
            Some(p) => Ok(StatArgs { path: p.to_owned() }),
            None => Err("Missing 'path' argument".to_owned()),
        }
    }

    /// The answer when the path does not exist.
    pub fn path_not_found(path: &str) -> (r: JsonValue)
        ensures
            r@ == error_doc("stat"@, "PATH_NOT_FOUND"@, "Path not found: "@ + path@, "The path '"@ + path@ + "' does not exist"@),
    {
        let mut m: Vec<char> = Vec::new();
        extend_str(&mut m, "Path not found: ");
        extend_str(&mut m, path);
        let mut d: Vec<char> = Vec::new();
        extend_str(&mut d, "The path '");
        extend_str(&mut d, path);
        extend_str(&mut d, "' does not exist");
        JsonBuilder::build_error("stat", "PATH_NOT_FOUND", string_of(m.as_slice()).as_str(), string_of(d.as_slice()).as_str())
    }

    /// The answer with a path's metadata.
    pub fn response(metadata: &FileMetadata) -> (r: JsonValue)
        ensures
            r@ == success_doc("stat"@, stat_data(*metadata)),
    {
        JsonBuilder::build_stat_result(metadata)
    }
}

} // verus!
