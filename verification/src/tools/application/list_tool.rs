//! List tool: the entries of a directory, hidden ones only on request.
use vstd::prelude::*;
use crate::model::FileMetadata;
use crate::text::{extend_str, string_of};
use crate::tools::domain::json_value::{jbool, jget, jstr, JsonValue, JsonView};
use crate::tools::domain::xml_builder::{directory_content, directory_summary, error_xml, success_xml, XmlBuilder};

verus! {

/// List tool.
pub struct ListTool;

/// Arguments of a listing.
#[derive(Debug)]
pub struct ListArgs {
    pub path: String,
    pub show_hidden: bool,
}

/// What the tool makes of its arguments: a path (`.` when not given) and
/// whether hidden entries are shown (not when not given).
pub open spec fn list_parse(v: JsonView) -> (Seq<char>, bool) {
    (
        match jstr(jget(v, "path"@)) {
            Some(p) => p,
            None => "."@,
        },
        match jbool(jget(v, "show_hidden"@)) {
            Some(b) => b,
            None => false,
        },
    )
}

/// The entries shown: all, or the ones that are not hidden.
pub open spec fn shown_entries(entries: Seq<FileMetadata>, show_hidden: bool) -> Seq<FileMetadata>
    decreases entries.len(),
{
    if entries.len() == 0 {
        Seq::empty()
    } else {
        let p = shown_entries(entries.drop_last(), show_hidden);
        if show_hidden || !entries.last().is_hidden { p.push(entries.last()) } else { p }
    }
}

impl ListTool {
    /// A list tool.
    pub fn new() -> (r: Self) {
        ListTool
    }

    /// Reads the arguments.
    pub fn parse_args(args: &JsonValue) -> (r: Result<ListArgs, String>)
        ensures
            r matches Ok(a) && (a.path@, a.show_hidden) == list_parse(args@),
    {
        let path = match args.get_str("path") {
            Some(p) => p.to_owned(),
            None => ".".to_owned(),
        };
        let show_hidden = match args.get_bool("show_hidden") {
            Some(b) => b,
            None => false,
        };
        Ok(ListArgs { path, show_hidden })
    }

    /// The answer when the path does not exist.
    pub fn path_not_found(path: &str) -> (r: String)
        ensures
            r@ == error_xml("list"@, "PATH_NOT_FOUND"@, "Path not found: "@ + path@, "The path '"@ + path@ + "' does not exist"@),
    {
        let mut m: Vec<char> = Vec::new();
        extend_str(&mut m, "Path not found: ");
        extend_str(&mut m, path);
        let mut d: Vec<char> = Vec::new();
        extend_str(&mut d, "The path '");
        extend_str(&mut d, path);
        extend_str(&mut d, "' does not exist");
        XmlBuilder::build_error("list", "PATH_NOT_FOUND", string_of(m.as_slice()).as_str(), string_of(d.as_slice()).as_str())
    }

    /// The answer when the path is not a directory.
    pub fn not_a_directory(path: &str) -> (r: String)
        ensures
            r@ == error_xml("list"@, "NOT_A_DIRECTORY"@, "Not a directory: "@ + path@, "The path '"@ + path@ + "' is not a directory"@),
    {
        let mut m: Vec<char> = Vec::new();
        extend_str(&mut m, "Not a directory: ");
        extend_str(&mut m, path);
        let mut d: Vec<char> = Vec::new();
        extend_str(&mut d, "The path '");
        extend_str(&mut d, path);
        extend_str(&mut d, "' is not a directory");
        XmlBuilder::build_error("list", "NOT_A_DIRECTORY", string_of(m.as_slice()).as_str(), string_of(d.as_slice()).as_str())
    }

    /// The listing of a directory's entries, without hidden ones unless
    /// asked for.
    pub fn response(args: &ListArgs, entries: Vec<FileMetadata>) -> (r: String)
        ensures
            ({
                let shown = shown_entries(entries@, args.show_hidden);
                r@ == success_xml("list"@, directory_content(args.path@, shown), directory_summary(shown))
            }),
    {
        let mut kept: Vec<FileMetadata> = Vec::new();
        let mut rest = entries;
        let ghost all = rest@;
        let mut i: usize = 0;
        let n = rest.len();
        while rest.len() > 0
            invariant
                all.len() == n,
                i + rest@.len() == n,
                rest@ == all.skip(i as int),
                kept@ == shown_entries(all.take(i as int), args.show_hidden),
            decreases rest.len(),
        {
            let ghost before = rest@;
            let e = rest.remove(0);
            proof {
                assert(e == all[i as int]);
                assert(all.take(i + 1).drop_last() =~= all.take(i as int));
                assert(rest@ =~= all.skip(i + 1));
            }
            if args.show_hidden || !e.is_hidden {
                kept.push(e);
            }
            i = i + 1;
        }
        assert(all.take(n as int) =~= all);
        XmlBuilder::build_directory_xml(args.path.as_str(), kept)
    }
}

} // verus!
