//! The content search of the first tool set: the lines of the searched
//! files that a regular expression matches, listed with their file and line
//! number.  Finding and reading the files is left to the caller.
use vstd::prelude::*;
use crate::text::{chars_of, decimal, decimal_chars, extend_chars, extend_str, lines, lines_of, string_of, views};
use crate::tools::application::grep_tool::{regex_match, CompiledPattern};
use crate::tools::domain::xml_builder::GrepMatch;

verus! {

/// Content search tool.
#[derive(Debug, Clone, Copy)]
pub struct GrepTool;

/// The lines of `ls` the regex of `source` matches, with their numbers
/// (counted from 1).
pub open spec fn matched(source: Seq<char>, ls: Seq<Seq<char>>) -> Seq<(nat, Seq<char>)>
    decreases ls.len(),
{
    if ls.len() == 0 {
        Seq::empty()
    } else {
        let p = matched(source, ls.drop_last());
        if regex_match(source, ls.last()) {
            p.push((ls.len(), ls.last()))
        } else {
            p
        }
    }
}

/// The content of a match.
pub open spec fn match_view(m: GrepMatch) -> (Seq<char>, nat, Seq<char>) {
    (m.file_path@, m.line_number as nat, m.line_content@)
}

/// One reported match: `path:line: text`.
pub open spec fn match_line(m: (Seq<char>, nat, Seq<char>)) -> Seq<char> {
    m.0 + ":"@ + decimal(m.1) + ": "@ + m.2 + "\n"@
}

/// The reported matches.
pub open spec fn match_lines(ms: Seq<(Seq<char>, nat, Seq<char>)>) -> Seq<char>
    decreases ms.len(),
{
    if ms.len() == 0 {
        Seq::empty()
    } else {
        match_lines(ms.drop_last()) + match_line(ms.last())
    }
}

/// The tool's answer for the matches found.
pub open spec fn search_report(pattern: Seq<char>, ms: Seq<(Seq<char>, nat, Seq<char>)>) -> Seq<char> {
    if ms.len() == 0 {
        "No matches found for pattern: "@ + pattern
    } else {
        "Found "@ + decimal(ms.len()) + " match(es) for pattern '"@ + pattern + "':\n"@ + match_lines(ms)
    }
}

impl GrepTool {
    /// The matches of the compiled pattern among the lines of one file's
    /// text, in order, each with the file's path.
    pub fn search_text(pattern: &CompiledPattern, path: &str, content: &str) -> (r: Vec<GrepMatch>)
        ensures
            r@.map_values(|m: GrepMatch| match_view(m)) == matched(pattern.source(), lines(content@)).map_values(
                |p: (nat, Seq<char>)| (path@, p.0, p.1),
            ),
    {
        let c = chars_of(content);
        let ls = lines_of(c.as_slice());
        let mut r: Vec<GrepMatch> = Vec::new();
        let mut k: usize = 0;
        while k < ls.len()
            invariant
                k <= ls@.len(),
                views(ls@) == lines(content@),
                r@.map_values(|m: GrepMatch| match_view(m)) == matched(pattern.source(), views(ls@).take(k as int)).map_values(
                    |p: (nat, Seq<char>)| (path@, p.0, p.1),
                ),
            decreases ls.len() - k,
        {
            let ghost before = r@.map_values(|m: GrepMatch| match_view(m));
            assert(views(ls@).take(k + 1).drop_last() =~= views(ls@).take(k as int));
            assert(views(ls@)[k as int] == ls@[k as int]@);
            let line = string_of(ls[k].as_slice());
            if pattern.is_match(line.as_str()) {
                r.push(GrepMatch { file_path: path.to_owned(), line_number: k + 1, line_content: line });
                assert(r@.map_values(|m: GrepMatch| match_view(m)) =~= before.push((path@, (k + 1) as nat, ls@[k as int]@)));
            }
            assert(matched(pattern.source(), views(ls@).take(k + 1)).map_values(|p: (nat, Seq<char>)| (path@, p.0, p.1))
                =~= r@.map_values(|m: GrepMatch| match_view(m)));
            k += 1;
        }
        assert(views(ls@).take(ls@.len() as int) =~= views(ls@));
        r
    }

    /// The tool's answer (see `search_report`).
    pub fn format_result(pattern: &str, matches: &Vec<GrepMatch>) -> (r: String)
        ensures
            r@ == search_report(pattern@, matches@.map_values(|m: GrepMatch| match_view(m))),
    {
        let ghost ms = matches@.map_values(|m: GrepMatch| match_view(m));
        let mut out: Vec<char> = Vec::new();
        if matches.len() == 0 {
            extend_str(&mut out, "No matches found for pattern: ");
            extend_str(&mut out, pattern);
            return string_of(out.as_slice());
        }
        extend_str(&mut out, "Found ");
        extend_chars(&mut out, decimal_chars(matches.len() as u64).as_slice());
        extend_str(&mut out, " match(es) for pattern '");
        extend_str(&mut out, pattern);
        extend_str(&mut out, "':\n");
        let ghost head = out@;
        let mut k: usize = 0;
        while k < matches.len()
            invariant
                k <= matches@.len(),
                ms == matches@.map_values(|m: GrepMatch| match_view(m)),
                out@ == head + match_lines(ms.take(k as int)),
            decreases matches.len() - k,
        {
            assert(ms.take(k + 1).drop_last() =~= ms.take(k as int));
            let m = &matches[k];
            extend_str(&mut out, m.file_path.as_str());
            extend_str(&mut out, ":");
            extend_chars(&mut out, decimal_chars(m.line_number as u64).as_slice());
            extend_str(&mut out, ": ");
            extend_str(&mut out, m.line_content.as_str());
            extend_str(&mut out, "\n");
            assert(out@ =~= head + match_lines(ms.take(k + 1)));
            k += 1;
        }
        assert(ms.take(matches@.len() as int) =~= ms);
        string_of(out.as_slice())
    }

    /// The error for a pattern that does not compile.
    pub fn invalid_regex(error: &str) -> (r: String)
        ensures
            r@ == "Invalid regex: "@ + error@,
    {
        let mut m: Vec<char> = Vec::new();
        extend_str(&mut m, "Invalid regex: ");
        extend_str(&mut m, error);
        string_of(m.as_slice())
    }
}

} // verus!
