//! Glob tool: reads and validates its arguments, forms the pattern searched
//! and orders the matches.  Walking the file system is left to the caller.
use vstd::prelude::*;
use crate::text::{chars_of, eq_str, extend_str, sort_strings, string_of, strings_sorted};
use crate::tools::domain::json_builder::{error_doc, glob_data, success_doc, JsonBuilder};
use crate::tools::domain::json_value::{jget, jstr, JsonValue, JsonView};
use crate::tools::domain::validation::{failure_message, field_error, path_error, validate_non_empty_string, validate_path};

verus! {

/// Glob tool.
pub struct GlobTool;

/// Arguments of a glob search.
#[derive(Debug)]
pub struct GlobArgs {
    pub pattern: String,
    pub path: String,
}

/// What the tool makes of its arguments: a non-blank pattern and a base
/// path (`.` when not given; validated when it is not `.`).
pub open spec fn glob_parse(v: JsonView) -> Result<(Seq<char>, Seq<char>), Seq<char>> {
    match jstr(jget(v, "pattern"@)) {
        None => Err("Missing 'pattern' argument"@),
        Some(p) => if field_error(p, "pattern"@) is Some {
            Err(field_error(p, "pattern"@)->0)
        } else {
            let path = match jstr(jget(v, "path"@)) {
                Some(x) => x,
                None => "."@,
            };
            if path != "."@ && path_error(path) is Some {
                Err(path_error(path)->0)
            } else {
                Ok((p, path))
            }
        },
    }
}

/// The pattern searched: the pattern itself below `.` or an empty base,
/// else `base/pattern`.
pub open spec fn full_pattern_of(pattern: Seq<char>, base: Seq<char>) -> Seq<char> {
    if base.len() == 0 || base == "."@ { pattern } else { base + "/"@ + pattern }
}

impl GlobTool {
    /// A glob tool.
    pub fn new() -> (r: Self) {
        GlobTool
    }

    /// Reads and validates the arguments.
    pub fn parse_args(args: &JsonValue) -> (r: Result<GlobArgs, String>)
        ensures
            match (r, glob_parse(args@)) {
                (Ok(a), Ok(v)) => a.pattern@ == v.0 && a.path@ == v.1,
                (Err(m), Err(e)) => m@ == e,
                _ => false,
            },
    {
        let pattern = match args.get_str("pattern") {
            Some(p) => p,
            None => return Err("Missing 'pattern' argument".to_owned()),
        };
        if let Some(m) = failure_message(validate_non_empty_string(pattern, "pattern")) {
            return Err(m);
        }
        let path = match args.get_str("path") {
            Some(p) => p,
            None => ".",
        };
        let pc = chars_of(path);
        if !eq_str(pc.as_slice(), ".") {
            if let Some(m) = failure_message(validate_path(path)) {
                return Err(m);
            }
        }
        Ok(GlobArgs { pattern: pattern.to_owned(), path: path.to_owned() })
    }

    /// The pattern handed to the file-system glob.
    pub fn full_pattern(pattern: &str, base: &str) -> (r: String)
        ensures
            r@ == full_pattern_of(pattern@, base@),
    {
        let b = chars_of(base);
        if b.len() == 0 || eq_str(b.as_slice(), ".") {
            return pattern.to_owned();
        }
        let mut v: Vec<char> = Vec::new();
        extend_str(&mut v, base);
        extend_str(&mut v, "/");
        extend_str(&mut v, pattern);
        string_of(v.as_slice())
    }

    /// The answer when the base path does not exist.
    pub fn base_not_found(path: &str) -> (r: JsonValue)
        ensures
            r@ == error_doc("glob"@, "PATH_NOT_FOUND"@, "Base path not found: "@ + path@, "The base path '"@ + path@ + "' does not exist"@),
    {
        let mut m: Vec<char> = Vec::new();
        extend_str(&mut m, "Base path not found: ");
        extend_str(&mut m, path);
        let mut d: Vec<char> = Vec::new();
        extend_str(&mut d, "The base path '");
        extend_str(&mut d, path);
        extend_str(&mut d, "' does not exist");
        JsonBuilder::build_error("glob", "PATH_NOT_FOUND", string_of(m.as_slice()).as_str(), string_of(d.as_slice()).as_str())
    }

    /// The message when the pattern cannot be read.
    pub fn pattern_failed(error: &str) -> (r: String)
        ensures
            r@ == "Failed to read glob pattern: "@ + error@,
    {
        let mut m: Vec<char> = Vec::new();
        extend_str(&mut m, "Failed to read glob pattern: ");
        extend_str(&mut m, error);
        string_of(m.as_slice())
    }

    /// The answer with the paths found, in string order.
    pub fn response(pattern: &str, found: Vec<String>) -> (r: JsonValue)
        ensures
            exists|s: Seq<String>| #![auto] s.to_multiset() == found@.to_multiset() && strings_sorted(s)
                && r@ == success_doc("glob"@, glob_data(pattern@, s.map_values(|x: String| x@))),
    {
        let sorted = sort_strings(found);
        let ghost s = sorted@;
        JsonBuilder::build_glob_results(pattern, sorted)
    }
}

} // verus!
