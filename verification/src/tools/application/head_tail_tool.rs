//! Head/tail tool: the first or last lines of a file.
use vstd::prelude::*;
use crate::text::{chars_of, clone_lines, eq_str, extend_str, join, join_chars, lines, lines_of, string_of, utf8_fits, views};
use crate::tools::{truncate_output, truncated};
use crate::tools::domain::json_builder::{error_doc, head_tail_data, success_doc, JsonBuilder};
use crate::tools::domain::json_value::{jget, jstr, ju64, JsonValue, JsonView};
use crate::tools::domain::provider::DependencyType;

verus! {

/// Head/tail tool.
pub struct HeadTailTool;

/// Registration of the head/tail tool.
pub struct HeadTailToolProvider;

/// Lines shown when no count is given.
pub const DEFAULT_LINES: usize = 10;

/// Arguments of a head or tail read.
#[derive(Debug)]
pub struct HeadTailArgs {
    pub path: String,
    pub mode: String,
    pub lines: usize,
}

/// What the tool makes of its arguments: a path, a mode (`head` when not
/// given) and a number of lines (10 when not given).
pub open spec fn head_tail_parse(v: JsonView) -> Result<(Seq<char>, Seq<char>, usize), Seq<char>> {
    match jstr(jget(v, "path"@)) {
        None => Err("Missing 'path' argument"@),
        Some(p) => Ok((
            p,
            match jstr(jget(v, "mode"@)) {
                Some(m) => m,
                None => "head"@,
            },
            match ju64(jget(v, "lines"@)) {
                Some(n) => n as usize,
                None => DEFAULT_LINES,
            },
        )),
    }
}

/// The first `n` lines of a text, joined by line feeds.
pub open spec fn head_of(content: Seq<char>, n: nat) -> Seq<char> {
    let ls = lines(content);
    join(if n <= ls.len() { ls.take(n as int) } else { ls }, "\n"@)
}

/// The last `n` lines of a text, joined by line feeds.
pub open spec fn tail_of(content: Seq<char>, n: nat) -> Seq<char> {
    let ls = lines(content);
    join(if ls.len() > n { ls.skip(ls.len() - n) } else { ls }, "\n"@)
}

impl HeadTailToolProvider {
    /// The tool's identifier.
    pub fn tool_id(&self) -> (r: &'static str)
        ensures
            r@ == "head_tail"@,
    {
        "head_tail"
    }

    /// The tool needs a file system.
    pub fn dependency_type(&self) -> (r: DependencyType)
        ensures
            r == DependencyType::FileSystem,
    {
        DependencyType::FileSystem
    }
}

impl HeadTailTool {
    /// A head/tail tool.
    pub fn new() -> (r: Self) {
        HeadTailTool
    }

    /// Reads the arguments.
    pub fn parse_args(args: &JsonValue) -> (r: Result<HeadTailArgs, String>)
        ensures
            match (r, head_tail_parse(args@)) {
                (Ok(a), Ok(v)) => a.path@ == v.0 && a.mode@ == v.1 && a.lines == v.2,
                (Err(m), Err(e)) => m@ == e,
                _ => false,
            },
    {
        let path = match args.get_str("path") {
            Some(p) => p,
            None => return Err("Missing 'path' argument".to_owned()),
        };
        let mode = match args.get_str("mode") {
            Some(m) => m.to_owned(),
            None => "head".to_owned(),
        };
        let lines: usize = match args.get_u64("lines") {
            Some(n) => #[verifier::truncate] (n as usize),
            None => DEFAULT_LINES,
        };
        Ok(HeadTailArgs { path: path.to_owned(), mode, lines })
    }

    /// Whether the mode is `head` or `tail`.
    pub fn is_valid_mode(mode: &str) -> (r: bool)
        ensures
            r == (mode@ == "head"@ || mode@ == "tail"@),
    {
        let m = chars_of(mode);
        eq_str(m.as_slice(), "head") || eq_str(m.as_slice(), "tail")
    }

    /// The answer for a mode other than `head` and `tail`.
    pub fn invalid_mode(mode: &str) -> (r: JsonValue)
        ensures
            r@ == error_doc("head_tail"@, "INVALID_MODE"@, "Invalid mode: "@ + mode@, "Mode must be either 'head' or 'tail'"@),
    {
        let mut m: Vec<char> = Vec::new();
        extend_str(&mut m, "Invalid mode: ");
        extend_str(&mut m, mode);
        JsonBuilder::build_error("head_tail", "INVALID_MODE", string_of(m.as_slice()).as_str(), "Mode must be either 'head' or 'tail'")
    }

    /// The first `n` lines of a text.
    pub fn read_head(content: &str, n: usize) -> (r: String)
        ensures
            r@ == head_of(content@, n as nat),
    {
        let c = chars_of(content);
        let ls = lines_of(c.as_slice());
        assert(views(ls@).len() == ls@.len());
        let k = if n <= ls.len() { n } else { ls.len() };
        let picked = clone_lines(ls.as_slice(), 0, k);
        let sep: [char; 1] = ['\n'];
        proof {
            reveal_strlit("\n");
            assert(sep@ =~= "\n"@);
            let all = lines(content@);
            assert(views(picked@) =~= (if n <= all.len() { all.take(n as int) } else { all }));
        }
        string_of(join_chars(picked.as_slice(), &sep).as_slice())
    }

    /// The last `n` lines of a text.
    pub fn read_tail(content: &str, n: usize) -> (r: String)
        ensures
            r@ == tail_of(content@, n as nat),
    {
        let c = chars_of(content);
        let ls = lines_of(c.as_slice());
        assert(views(ls@).len() == ls@.len());
        let start = if ls.len() > n { ls.len() - n } else { 0 };
        let picked = clone_lines(ls.as_slice(), start, ls.len());
        let sep: [char; 1] = ['\n'];
        proof {
            reveal_strlit("\n");
            assert(sep@ =~= "\n"@);
            let all = lines(content@);
            assert(views(picked@) =~= (if all.len() > n { all.skip(all.len() - n) } else { all }));
        }
        string_of(join_chars(picked.as_slice(), &sep).as_slice())
    }

    /// The answer for a file's content: the requested lines (truncated when
    /// too large), one string per line, with their count.
    pub fn response(args: &HeadTailArgs, content: &str) -> (r: JsonValue)
        ensures
            ({
                let picked = if args.mode@ == "head"@ { head_of(content@, args.lines as nat) } else { tail_of(content@, args.lines as nat) };
                let shown = lines(truncated(picked));
                r@ == success_doc("head_tail"@, head_tail_data(args.path@, shown, args.mode@, shown.len() as usize, shown.len() as usize))
            }),
    {
        let m = chars_of(args.mode.as_str());
        let picked = if eq_str(m.as_slice(), "head") {
            Self::read_head(content, args.lines)
        } else {
            Self::read_tail(content, args.lines)
        };
        utf8_fits(picked.as_str());
        let shown = truncate_output(picked.as_str());
        let sc = chars_of(shown.as_str());
        let ls = lines_of(sc.as_slice());
        let mut strings: Vec<String> = Vec::new();
        let mut i: usize = 0;
        while i < ls.len()
            invariant
                i <= ls@.len(),
                strings@.map_values(|s: String| s@) == views(ls@).take(i as int),
            decreases ls.len() - i,
        {
            let ghost before = strings@;
            strings.push(string_of(ls[i].as_slice()));
            assert(strings@.map_values(|s: String| s@) =~= before.map_values(|s: String| s@).push(ls@[i as int]@));
            assert(views(ls@).take(i + 1) =~= views(ls@).take(i as int).push(ls@[i as int]@));
            i = i + 1;
        }
        assert(views(ls@).take(ls@.len() as int) =~= views(ls@));
        let count = strings.len();
        JsonBuilder::build_head_tail_result(args.path.as_str(), strings, args.mode.as_str(), count, count)
    }
}

} // verus!
