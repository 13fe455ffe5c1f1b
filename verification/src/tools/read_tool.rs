//! The file reader of the first tool set: a file's lines in `cat -n` form,
//! from an offset, at most a limit of them (2000 by default, noting where
//! the output stopped).  Reading the file is left to the caller.
use vstd::prelude::*;
use crate::text::{chars_of, decimal, decimal_chars, extend_chars, extend_str, lines, lines_of, string_of, views};
use crate::ui::tui::markdown::repeat;

verus! {

/// Lines read when no limit is given.
pub const MAX_DEFAULT_LINES: usize = 2000;

/// File reading tool.
#[derive(Debug, Clone, Copy)]
pub struct ReadTool;

/// A line number right-aligned in eight columns.
pub open spec fn line_number(n: nat) -> Seq<char> {
    let d = decimal(n);
    (if d.len() < 8 { repeat(" "@, (8 - d.len()) as nat) } else { Seq::empty() }) + d
}

/// The numbered line `k` (counted from 0) of a file.
pub open spec fn numbered(k: nat, line: Seq<char>) -> Seq<char> {
    line_number(k + 1) + "\t"@ + line + "\n"@
}

/// The numbered lines `ls[from..to]`.
pub open spec fn numbered_range(ls: Seq<Seq<char>>, from: nat, to: nat) -> Seq<char>
    decreases to,
{
    if to <= from {
        Seq::empty()
    } else {
        numbered_range(ls, from, (to - 1) as nat) + numbered((to - 1) as nat, ls[to - 1])
    }
}

/// What the reader returns for a file's content: the lines from `offset`
/// (0 by default), at most `limit` of them; without a limit at most 2000,
/// followed by a note when the 2000th line was reached.
pub open spec fn read_output(content: Seq<char>, offset: Option<usize>, limit: Option<usize>) -> Seq<char> {
    let ls = lines(content);
    let start = match offset {
        Some(o) => o as nat,
        None => 0,
    };
    let max = match limit {
        Some(l) => l as nat,
        None => MAX_DEFAULT_LINES as nat,
    };
    let end = if start + max < ls.len() { start + max } else { ls.len() };
    if start >= ls.len() {
        Seq::empty()
    } else {
        numbered_range(ls, start, end) + if limit is None && end - start >= MAX_DEFAULT_LINES {
            "\n--- File truncated at line "@ + decimal(end + 1) + " (use offset/limit to read more) ---\n"@
        } else {
            Seq::empty()
        }
    }
}

/// A line number right-aligned in eight columns.
fn line_number_chars(n: u128) -> (r: Vec<char>)
    ensures
        r@ == line_number(n as nat),
{
    let d = crate::text::decimal_chars_wide(n);
    let mut r: Vec<char> = Vec::new();
    if d.len() < 8 {
        let mut k: usize = 0;
        while k < 8 - d.len()
            invariant
                d@ == decimal(n as nat),
                d@.len() < 8,
                k <= 8 - d@.len(),
                r@ == repeat(" "@, k as nat),
            decreases 8 - d.len() - k,
        {
            extend_str(&mut r, " ");
            k += 1;
        }
    }
    extend_chars(&mut r, d.as_slice());
    r
}

impl ReadTool {
    /// The reader's output for a file's content (see `read_output`).
    pub fn format_lines(content: &str, offset: Option<usize>, limit: Option<usize>) -> (r: String)
        ensures
            r@ == read_output(content@, offset, limit),
    {
        let c = chars_of(content);
        let ls = lines_of(c.as_slice());
        let start: usize = match offset {
            Some(o) => o,
            None => 0,
        };
        let max: usize = match limit {
            Some(l) => l,
            None => MAX_DEFAULT_LINES,
        };
        if start >= ls.len() {
            return String::new();
        }
        let end: usize = if max < ls.len() - start { start + max } else { ls.len() };
        let mut out: Vec<char> = Vec::new();
        let mut k: usize = start;
        while k < end
            invariant
                start <= k <= end <= ls@.len(),
                views(ls@) == lines(content@),
                out@ == numbered_range(views(ls@), start as nat, k as nat),
            decreases end - k,
        {
            assert(views(ls@)[k as int] == ls@[k as int]@);
            extend_chars(&mut out, line_number_chars(k as u128 + 1).as_slice());
            extend_str(&mut out, "\t");
            extend_chars(&mut out, ls[k].as_slice());
            extend_str(&mut out, "\n");
            k += 1;
        }
        if limit.is_none() && end - start >= MAX_DEFAULT_LINES {
            extend_str(&mut out, "\n--- File truncated at line ");
            extend_chars(&mut out, crate::text::decimal_chars_wide(end as u128 + 1).as_slice());
            extend_str(&mut out, " (use offset/limit to read more) ---\n");
        }
        string_of(out.as_slice())
    }

    /// The error for a missing file.
    pub fn not_found(path: &str) -> (r: String)
        ensures
            r@ == "File not found: "@ + path@,
    {
        let mut m: Vec<char> = Vec::new();
        extend_str(&mut m, "File not found: ");
        extend_str(&mut m, path);
        string_of(m.as_slice())
    }

    /// The error for a path that is not a file.
    pub fn not_a_file(path: &str) -> (r: String)
        ensures
            r@ == "Path is not a file: "@ + path@,
    {
        let mut m: Vec<char> = Vec::new();
        extend_str(&mut m, "Path is not a file: ");
        extend_str(&mut m, path);
        string_of(m.as_slice())
    }
}

} // verus!
