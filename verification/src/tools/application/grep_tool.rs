//! Grep tool: reads and validates its arguments, compiles the pattern, and
//! collects the matching lines of the files searched, at most 10,000.
//! Choosing and reading the files is left to the caller.
use vstd::prelude::*;
use crate::text::{chars_of, extend_str, lines, lines_of, string_of, views};
use crate::tools::domain::json_builder::{grep_data, success_doc, GrepMatch, JsonBuilder};
use crate::tools::domain::json_value::{jbool, jget, jstr, JsonValue, JsonView};
use crate::tools::domain::validation::{failure_message, pattern_error, validate_regex_pattern, MAX_GREP_MATCHES};

verus! {

/// Grep tool.
pub struct GrepTool;

/// Arguments of a search.
#[derive(Debug)]
pub struct GrepArgs {
    pub pattern: String,
    pub path: String,
    pub recursive: bool,
    pub case_insensitive: bool,
}

/// What the tool makes of its arguments: a valid pattern, a path (`.` when
/// not given), and whether to descend and to ignore case (not when not given).
pub open spec fn grep_parse(v: JsonView) -> Result<(Seq<char>, Seq<char>, bool, bool), Seq<char>> {
    match jstr(jget(v, "pattern"@)) {
        None => Err("Missing 'pattern' argument"@),
        Some(p) => if pattern_error(p) is Some {
            Err(pattern_error(p)->0)
        } else {
            Ok((
                p,
                match jstr(jget(v, "path"@)) {
                    Some(x) => x,
                    None => "."@,
                },
                match jbool(jget(v, "recursive"@)) {
                    Some(b) => b,
                    None => false,
                },
                match jbool(jget(v, "case_insensitive"@)) {
                    Some(b) => b,
                    None => false,
                },
            ))
        },
    }
}

#[verifier::external_type_specification]
#[verifier::external_body]
pub struct ExRegex(regex::Regex);

/// Name for whether `regex::Regex::new` accepts a pattern.
pub uninterp spec fn regex_valid(pattern: Seq<char>) -> bool;

/// Name for the text of `regex::Regex::new`'s error on a pattern.
pub uninterp spec fn regex_error_text(pattern: Seq<char>) -> Seq<char>;

/// Name for whether the regex of a pattern matches somewhere in a text
/// (`Regex::is_match`).
pub uninterp spec fn regex_match(pattern: Seq<char>, text: Seq<char>) -> bool;

/// Name for the text with every match of the regex of a pattern replaced
/// by a literal replacement (`Regex::replace_all`).
pub uninterp spec fn regex_replaced(pattern: Seq<char>, text: Seq<char>, replacement: Seq<char>) -> Seq<char>;

/// `regex::Regex::new`: the compiled regex, or the text of its error.
#[verifier::external_body]
fn regex_new(pattern: &str) -> (r: Result<regex::Regex, String>)
    ensures
        r is Ok == regex_valid(pattern@),
        r matches Err(e) ==> e@ == regex_error_text(pattern@),
{
    regex::Regex::new(pattern).map_err(|e| e.to_string())
}

/// A compiled regex with the pattern it was compiled from.
pub struct CompiledPattern {
    re: regex::Regex,
    source: Ghost<Seq<char>>,
}

impl CompiledPattern {
    /// The pattern the regex was compiled from.
    pub closed spec fn source(&self) -> Seq<char> {
        self.source@
    }

    /// Compiles a pattern.
    pub fn compile(pattern: &str) -> (r: Result<CompiledPattern, String>)
        ensures
            r is Ok == regex_valid(pattern@),
            r matches Ok(c) ==> c.source() == pattern@,
            r matches Err(e) ==> e@ == regex_error_text(pattern@),
    {
        match regex_new(pattern) {
            Ok(re) => Ok(CompiledPattern { re, source: Ghost(pattern@) }),
            Err(e) => Err(e),
        }
    }

    /// `Regex::replace_all` with a literal replacement.
    #[verifier::external_body]
    pub fn replace_all(&self, text: &str, replacement: &str) -> (r: String)
        ensures
            r@ == regex_replaced(self.source(), text@, replacement@),
    {
        self.re.replace_all(text, regex::NoExpand(replacement)).into_owned()
    }

    /// `Regex::is_match` of the compiled regex (only `compile` builds one,
    /// from its source).
    #[verifier::external_body]
    pub fn is_match(&self, text: &str) -> (r: bool)
        ensures
            r == regex_match(self.source(), text@),
    {
        self.re.is_match(text)
    }
}

/// The pattern compiled for a search: prefixed with `(?i)` to ignore case.
pub open spec fn search_source(pattern: Seq<char>, case_insensitive: bool) -> Seq<char> {
    if case_insensitive { "(?i)"@ + pattern } else { pattern }
}

/// The matching lines of a file's lines, from index `k`: line number
/// (counted from 1) and text.
pub open spec fn matching_lines(source: Seq<char>, path: Seq<char>, ls: Seq<Seq<char>>) -> Seq<(Seq<char>, nat, Seq<char>)>
    decreases ls.len(),
{
    if ls.len() == 0 {
        Seq::empty()
    } else {
        let p = matching_lines(source, path, ls.drop_last());
        if regex_match(source, ls.last()) { p.push((path, ls.len() as nat, ls.last())) } else { p }
    }
}

/// The view of a grep match.
pub open spec fn match_view(m: GrepMatch) -> (Seq<char>, nat, Seq<char>) {
    (m.file_path@, m.line_number as nat, m.line_content@)
}

/// The matches collected so far.
pub struct GrepSearch {
    matches: Vec<GrepMatch>,
}

impl GrepSearch {
    /// The matches collected so far, as plain values.
    pub closed spec fn found(&self) -> Seq<(Seq<char>, nat, Seq<char>)> {
        self.matches@.map_values(|m: GrepMatch| match_view(m))
    }

    /// An empty search.
    pub fn new() -> (r: Self)
        ensures
            r.found().len() == 0,
    {
        GrepSearch { matches: Vec::new() }
    }

    /// True once the maximum number of matches is reached.
    pub fn is_full(&self) -> (r: bool)
        ensures
            r == (self.found().len() >= MAX_GREP_MATCHES),
    {
        self.matches.len() >= MAX_GREP_MATCHES
    }

    /// Adds the matching lines of a file, in order, up to the maximum.
    pub fn add_file(&mut self, pattern: &CompiledPattern, path: &str, content: &str)
        ensures
            ({
                let m = matching_lines(pattern.source(), path@, lines(content@));
                let room = if old(self).found().len() < MAX_GREP_MATCHES { MAX_GREP_MATCHES - old(self).found().len() } else { 0 };
                final(self).found() == old(self).found() + (if m.len() <= room { m } else { m.take(room as int) })
            }),
    {
        let ghost start = self.found();
        let c = chars_of(content);
        let ls = lines_of(c.as_slice());
        let ghost all = views(ls@);
        let ghost room: int = if start.len() < MAX_GREP_MATCHES { MAX_GREP_MATCHES - start.len() } else { 0 };
        let mut k: usize = 0;
        while k < ls.len()
            invariant
                k <= ls@.len(),
                all == views(ls@),
                all == lines(content@),
                start == old(self).found(),
                all.len() == ls@.len(),
                self.found() == start + matching_lines(pattern.source(), path@, all.take(k as int)),
                matching_lines(pattern.source(), path@, all.take(k as int)).len() <= room,
                room == (if start.len() < MAX_GREP_MATCHES { MAX_GREP_MATCHES - start.len() } else { 0 }),
            decreases ls.len() - k,
        {
            let line = string_of(ls[k].as_slice());
            proof {
                assert(all.take(k + 1).drop_last() =~= all.take(k as int));
                assert(all.take(k + 1).last() == ls@[k as int]@);
            }
            if pattern.is_match(line.as_str()) {
                if self.matches.len() >= MAX_GREP_MATCHES {
                    proof {
                        lemma_matching_prefix(pattern.source(), path@, all, k as int);
                        lemma_matching_prefix(pattern.source(), path@, all, (k + 1) as int);
                        let m = matching_lines(pattern.source(), path@, all);
                        let mk = matching_lines(pattern.source(), path@, all.take(k as int));
                        assert(line@ == all.take(k + 1).last());
                        assert(matching_lines(pattern.source(), path@, all.take(k + 1)).len() == mk.len() + 1);
                        assert(self.found().len() == self.matches@.len());
                        assert(mk.len() == room);
                        assert(m.take(room) =~= mk);
                        assert(all == lines(content@));
                        assert(m.len() > room);
                        assert(self.found() == start + m.take(room));
                    }
                    return;
                }
                let ghost before = self.matches@;
                self.matches.push(GrepMatch { file_path: path.to_owned(), line_number: k + 1, line_content: line });
                proof {
                    assert(self.matches@.map_values(|m: GrepMatch| match_view(m)) =~= before.map_values(
                        |m: GrepMatch| match_view(m),
                    ).push((path@, (k + 1) as nat, ls@[k as int]@)));
                }
            }
            k = k + 1;
        }
        proof {
            assert(all.take(ls@.len() as int) =~= all);
        }
    }

    /// The collected matches.
    pub fn into_matches(self) -> (r: Vec<GrepMatch>)
        ensures
            r@.map_values(|m: GrepMatch| match_view(m)) == self.found(),
    {
        self.matches
    }
}

/// The matches of a prefix of the lines are a prefix of the matches of all.
proof fn lemma_matching_prefix(source: Seq<char>, path: Seq<char>, ls: Seq<Seq<char>>, j: int)
    requires
        0 <= j <= ls.len(),
    ensures
        matching_lines(source, path, ls.take(j)).len() <= matching_lines(source, path, ls).len(),
        matching_lines(source, path, ls).take(matching_lines(source, path, ls.take(j)).len() as int)
            == matching_lines(source, path, ls.take(j)),
    decreases ls.len() - j,
{
    if j == ls.len() {
        assert(ls.take(j) =~= ls);
        assert(matching_lines(source, path, ls).take(matching_lines(source, path, ls).len() as int) =~= matching_lines(source, path, ls));
    } else {
        lemma_matching_prefix(source, path, ls.drop_last(), j);
        assert(ls.drop_last().take(j) =~= ls.take(j));
        let m = matching_lines(source, path, ls);
        let p = matching_lines(source, path, ls.drop_last());
        let q = matching_lines(source, path, ls.take(j));
        assert(m.take(q.len() as int) =~= p.take(q.len() as int));
    }
}

impl GrepTool {
    /// A grep tool.
    pub fn new() -> (r: Self) {
        GrepTool
    }

    /// Reads and validates the arguments.
    pub fn parse_args(args: &JsonValue) -> (r: Result<GrepArgs, String>)
        ensures
            match (r, grep_parse(args@)) {
                (Ok(a), Ok(v)) => a.pattern@ == v.0 && a.path@ == v.1 && a.recursive == v.2 && a.case_insensitive == v.3,
                (Err(m), Err(e)) => m@ == e,
                _ => false,
            },
    {
        let pattern = match args.get_str("pattern") {
            Some(p) => p,
            None => return Err("Missing 'pattern' argument".to_owned()),
        };
        if let Some(m) = failure_message(validate_regex_pattern(pattern)) {
            return Err(m);
        }
        let path = match args.get_str("path") {
            Some(p) => p.to_owned(),
            None => ".".to_owned(),
        };
        let recursive = match args.get_bool("recursive") {
            Some(b) => b,
            None => false,
        };
        let case_insensitive = match args.get_bool("case_insensitive") {
            Some(b) => b,
            None => false,
        };
        Ok(GrepArgs { pattern: pattern.to_owned(), path, recursive, case_insensitive })
    }

    /// Compiles the search pattern, ignoring case when asked.
    pub fn compile(pattern: &str, case_insensitive: bool) -> (r: Result<CompiledPattern, String>)
        ensures
            r is Ok == regex_valid(search_source(pattern@, case_insensitive)),
            r matches Ok(c) ==> c.source() == search_source(pattern@, case_insensitive),
            r matches Err(e) ==> e@ == "Invalid regex pattern: "@ + regex_error_text(search_source(pattern@, case_insensitive)),
    {
        let mut src: Vec<char> = Vec::new();
        if case_insensitive {
            extend_str(&mut src, "(?i)");
        }
        extend_str(&mut src, pattern);
        let source = string_of(src.as_slice());
        match CompiledPattern::compile(source.as_str()) {
            Ok(c) => Ok(c),
            Err(e) => {
                let mut m: Vec<char> = Vec::new();
                extend_str(&mut m, "Invalid regex pattern: ");
                extend_str(&mut m, e.as_str());
                Err(string_of(m.as_slice()))
            },
        }
    }

    /// Whether the search covers one file (`Ok(true)`), a directory
    /// (`Ok(false)`), or nothing because the path does not exist.
    pub fn search_root(is_dir: bool, is_file: bool) -> (r: Result<bool, String>)
        ensures
            !is_dir && !is_file ==> (r matches Err(m) && m@ == "Path does not exist"@),
            is_file ==> r == Ok::<bool, String>(true),
            is_dir && !is_file ==> r == Ok::<bool, String>(false),
    {
        if !is_dir && !is_file {
            return Err("Path does not exist".to_owned());
        }
        Ok(is_file)
    }

    /// The glob pattern of the files directly in a directory.
    pub fn directory_pattern(base: &str) -> (r: String)
        ensures
            r@ == base@ + "/*"@,
    {
        let mut v: Vec<char> = Vec::new();
        extend_str(&mut v, base);
        extend_str(&mut v, "/*");
        string_of(v.as_slice())
    }

    /// The answer with the matches found.
    pub fn response(pattern: &str, matches: Vec<GrepMatch>) -> (r: JsonValue)
        ensures
            r@ == success_doc("grep"@, grep_data(pattern@, matches@)),
    {
        JsonBuilder::build_grep_results(pattern, matches)
    }
}

} // verus!
