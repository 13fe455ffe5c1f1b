//! Edit tool: replaces a string in a file's content, once or everywhere,
//! and answers with the number of replacements.
use vstd::prelude::*;
use crate::text::{chars_eq, chars_of, count_matches, decimal, decimal_chars, extend_chars, extend_str, match_count, replacen, replacen_chars, string_of};
use crate::tools::domain::json_value::{jbool, jget, jstr, JsonValue, JsonView};
use crate::tools::domain::xml_builder::{error_xml, escape_xml, escaped, success_xml, XmlBuilder};

verus! {

/// Edit tool.
pub struct EditTool;

/// Arguments of an edit.
#[derive(Debug)]
pub struct EditArgs {
    pub path: String,
    pub old_string: String,
    pub new_string: String,
    pub replace_all: bool,
}

/// What the tool makes of its arguments: path, old and new strings are
/// required; every occurrence is replaced only when `replace_all` is true.
pub open spec fn edit_parse(v: JsonView) -> Result<(Seq<char>, Seq<char>, Seq<char>, bool), Seq<char>> {
    match (jstr(jget(v, "path"@)), jstr(jget(v, "old_string"@)), jstr(jget(v, "new_string"@))) {
        (None, _, _) => Err("Missing 'path' argument"@),
        (Some(_), None, _) => Err("Missing 'old_string' argument"@),
        (Some(_), Some(_), None) => Err("Missing 'new_string' argument"@),
        (Some(p), Some(o), Some(n)) => Ok((p, o, n, match jbool(jget(v, "replace_all"@)) {
            Some(b) => b,
            None => false,
        })),
    }
}

/// The outcome of an edit.
pub enum EditOutcome {
    /// Nothing was replaced; the answer to send.
    NotFound(String),
    /// The new content to write and the answer to send after writing it.
    Edited { new_content: String, response: String },
}

/// The content after the edit: the first occurrence replaced, or all of
/// them (`usize::MAX` exceeds the occurrences any string in memory has).
pub open spec fn edited(content: Seq<char>, old: Seq<char>, new: Seq<char>, all: bool) -> Seq<char> {
    replacen(content, old, new, if all { usize::MAX as nat } else { 1 })
}

/// The number of replacements reported.
pub open spec fn replacements(content: Seq<char>, old: Seq<char>, all: bool) -> nat {
    if all { match_count(content, old) } else { 1 }
}

/// The answer to an edit of `content`.
pub open spec fn edit_answer(path: Seq<char>, old: Seq<char>, new: Seq<char>, all: bool, content: Seq<char>) -> Result<(Seq<char>, Seq<char>), Seq<char>> {
    let nc = edited(content, old, new, all);
    if nc == content {
        Err(error_xml(
            "edit"@,
            "STRING_NOT_FOUND"@,
            "String not found: "@ + old,
            "The old string '"@ + old + "' was not found in the file"@,
        ))
    } else {
        let n = replacements(content, old, all);
        Ok((nc, success_xml(
            "edit"@,
            "<file path=\""@ + escaped(path) + "\"><replacements>"@ + decimal(n) + "</replacements></file>"@,
            "Successfully replaced "@ + decimal(n) + " occurrence(s)"@,
        )))
    }
}

/// Escapes `&`, `<`, `>`, `"` and `'` for XML.
pub fn xml_escape(s: &str) -> (r: String)
    ensures
        r@ == escaped(s@),
{
    escape_xml(s)
}

impl EditTool {
    /// An edit tool.
    pub fn new() -> (r: Self) {
        EditTool
    }

    /// Reads the arguments.
    pub fn parse_args(args: &JsonValue) -> (r: Result<EditArgs, String>)
        ensures
            match (r, edit_parse(args@)) {
                (Ok(a), Ok(v)) => a.path@ == v.0 && a.old_string@ == v.1 && a.new_string@ == v.2 && a.replace_all == v.3,
                (Err(m), Err(e)) => m@ == e,
                _ => false,
            },
    {
        let path = match args.get_str("path") {
            Some(p) => p,
            None => return Err("Missing 'path' argument".to_owned()),
        };
        let old_str = match args.get_str("old_string") {
            Some(p) => p,
            None => return Err("Missing 'old_string' argument".to_owned()),
        };
        let new_str = match args.get_str("new_string") {
            Some(p) => p,
            None => return Err("Missing 'new_string' argument".to_owned()),
        };
        let replace_all = match args.get_bool("replace_all") {
            Some(b) => b,
            None => false,
        };
        Ok(EditArgs {
            path: path.to_owned(),
            old_string: old_str.to_owned(),
            new_string: new_str.to_owned(),
            replace_all,
        })
    }

    /// Applies the edit to a file's content.
    pub fn apply(args: &EditArgs, content: &str) -> (r: EditOutcome)
        requires
            content@.len() < usize::MAX,
        ensures
            match (r, edit_answer(args.path@, args.old_string@, args.new_string@, args.replace_all, content@)) {
                (EditOutcome::NotFound(x), Err(e)) => x@ == e,
                (EditOutcome::Edited { new_content, response }, Ok((nc, resp))) => new_content@ == nc && response@ == resp,
                _ => false,
            },
    {
        let c = chars_of(content);
        let o = chars_of(args.old_string.as_str());
        let n = chars_of(args.new_string.as_str());
        let limit: usize = if args.replace_all { usize::MAX } else { 1 };
        let nc = replacen_chars(c.as_slice(), o.as_slice(), n.as_slice(), limit);
        if chars_eq(nc.as_slice(), c.as_slice()) {
            let mut m: Vec<char> = Vec::new();
            extend_str(&mut m, "String not found: ");
            extend_str(&mut m, args.old_string.as_str());
            let mut d: Vec<char> = Vec::new();
            extend_str(&mut d, "The old string '");
            extend_str(&mut d, args.old_string.as_str());
            extend_str(&mut d, "' was not found in the file");
            return EditOutcome::NotFound(XmlBuilder::build_error(
                "edit",
                "STRING_NOT_FOUND",
                string_of(m.as_slice()).as_str(),
                string_of(d.as_slice()).as_str(),
            ));
        }
        let count: usize = if args.replace_all { count_matches(c.as_slice(), o.as_slice()) } else { 1 };
        let mut body: Vec<char> = Vec::new();
        extend_str(&mut body, "<file path=\"");
        let esc = xml_escape(args.path.as_str());
        extend_str(&mut body, esc.as_str());
        extend_str(&mut body, "\"><replacements>");
        let digits = decimal_chars(count as u64);
        extend_chars(&mut body, digits.as_slice());
        extend_str(&mut body, "</replacements></file>");
        let mut summary: Vec<char> = Vec::new();
        extend_str(&mut summary, "Successfully replaced ");
        extend_chars(&mut summary, digits.as_slice());
        extend_str(&mut summary, " occurrence(s)");
        let response = XmlBuilder::build_success("edit", string_of(body.as_slice()).as_str(), string_of(summary.as_slice()).as_str());
        EditOutcome::Edited { new_content: string_of(nc.as_slice()), response }
    }
}

impl EditTool {
    /// The answer when the path does not exist.
    pub fn file_not_found(path: &str) -> (r: String)
        ensures
            r@ == error_xml("edit"@, "FILE_NOT_FOUND"@, "File not found: "@ + path@, "The file '"@ + path@ + "' does not exist"@),
    {
        let mut m: Vec<char> = Vec::new();
        extend_str(&mut m, "File not found: ");
        extend_str(&mut m, path);
        let mut d: Vec<char> = Vec::new();
        extend_str(&mut d, "The file '");
        extend_str(&mut d, path);
        extend_str(&mut d, "' does not exist");
        XmlBuilder::build_error("edit", "FILE_NOT_FOUND", string_of(m.as_slice()).as_str(), string_of(d.as_slice()).as_str())
    }

    /// The answer when the path is not a file.
    pub fn not_a_file(path: &str) -> (r: String)
        ensures
            r@ == error_xml("edit"@, "NOT_A_FILE"@, "Not a file: "@ + path@, "The path '"@ + path@ + "' is not a file"@),
    {
        let mut m: Vec<char> = Vec::new();
        extend_str(&mut m, "Not a file: ");
        extend_str(&mut m, path);
        let mut d: Vec<char> = Vec::new();
        extend_str(&mut d, "The path '");
        extend_str(&mut d, path);
        extend_str(&mut d, "' is not a file");
        XmlBuilder::build_error("edit", "NOT_A_FILE", string_of(m.as_slice()).as_str(), string_of(d.as_slice()).as_str())
    }
}

} // verus!
