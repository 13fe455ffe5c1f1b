//! The coding tools: domain services, tool implementations, and the output
//! truncation they share.
use vstd::prelude::*;

pub mod application;
pub mod domain;
pub mod bash_tool;
pub mod edit_tool;
pub mod glob_tool;
pub mod schema_fix;
pub mod tool_map;
pub mod grep_tool;
pub mod read_tool;
pub mod write_tool;
use crate::text::{
    char_len_utf8, chars_of, decimal, decimal_chars, extend_chars, extend_str, lines, lines_of,
    string_of, utf8_len, utf8_len_at_most, views,
};

verus! {

/// Maximum output size before truncation (50KB).
pub const MAX_OUTPUT_SIZE: usize = 51200;

/// Maximum number of lines before truncation.
pub const MAX_LINES: usize = 2000;

/// Number of leading lines of `ls` kept by truncation, scanning from line `i`
/// with `size` bytes (each kept line plus its `'\n'`) already kept.
pub open spec fn kept_lines(ls: Seq<Seq<char>>, i: int, size: int) -> int
    decreases ls.len() - i,
{
    if i < 0 || i >= ls.len() {
        ls.len() as int
    } else if size + utf8_len(ls[i]) > MAX_OUTPUT_SIZE || i >= MAX_LINES {
        i
    } else {
        kept_lines(ls, i + 1, size + utf8_len(ls[i]) + 1)
    }
}

/// The first `k` lines, each followed by `'\n'`.
pub open spec fn with_newlines(ls: Seq<Seq<char>>, k: int) -> Seq<char>
    decreases k,
{
    if k <= 0 {
        Seq::empty()
    } else {
        with_newlines(ls, k - 1) + ls[k - 1] + seq!['\n']
    }
}

/// The note appended when lines are dropped.
pub open spec fn truncation_notice(size: nat, count: nat) -> Seq<char> {
    "\n\n--- Output truncated ("@ + decimal(size) + " bytes, "@ + decimal(count)
        + " lines) ---\n"@ + "Use offset/limit parameters to read specific sections."@
}

/// What `truncate_output` returns.
pub open spec fn truncated(content: Seq<char>) -> Seq<char> {
    let ls = lines(content);
    let size = utf8_len(content);
    if size > MAX_OUTPUT_SIZE || ls.len() > MAX_LINES {
        let k = kept_lines(ls, 0, 0);
        with_newlines(ls, k) + if k < ls.len() {
            truncation_notice(size, ls.len())
        } else {
            Seq::empty()
        }
    } else {
        content
    }
}

proof fn lemma_kept_lines(ls: Seq<Seq<char>>, i: int, size: int)
    requires
        0 <= i <= ls.len(),
    ensures
        i <= kept_lines(ls, i, size) <= ls.len(),
        kept_lines(ls, i, size) <= if i > MAX_LINES { i } else { MAX_LINES as int },
    decreases ls.len() - i,
{
    if i < ls.len() && !(size + utf8_len(ls[i]) > MAX_OUTPUT_SIZE || i >= MAX_LINES) {
        lemma_kept_lines(ls, i + 1, size + utf8_len(ls[i]) + 1);
    }
}

/// Bytes of the first `k` lines, each followed by `'\n'`.
pub open spec fn lines_bytes(ls: Seq<Seq<char>>, k: int) -> int
    decreases k,
{
    if k <= 0 {
        0
    } else {
        lines_bytes(ls, k - 1) + utf8_len(ls[k - 1]) + 1
    }
}

/// The first `k` lines may be kept: at most 2000 of them, and the last one
/// ends within 50KB (its own line break not counted).
pub open spec fn prefix_fits(ls: Seq<Seq<char>>, k: int) -> bool {
    k <= MAX_LINES && (k == 0 || lines_bytes(ls, k) - 1 <= MAX_OUTPUT_SIZE)
}

proof fn lemma_kept_lines_maximal(ls: Seq<Seq<char>>, i: int)
    requires
        0 <= i <= ls.len(),
        prefix_fits(ls, i),
    ensures
        i <= kept_lines(ls, i, lines_bytes(ls, i)) <= ls.len(),
        prefix_fits(ls, kept_lines(ls, i, lines_bytes(ls, i))),
        kept_lines(ls, i, lines_bytes(ls, i)) < ls.len() ==> !prefix_fits(
            ls,
            kept_lines(ls, i, lines_bytes(ls, i)) + 1,
        ),
    decreases ls.len() - i,
{
    if i < ls.len() {
        let size = lines_bytes(ls, i);
        assert(lines_bytes(ls, i + 1) == size + utf8_len(ls[i]) + 1);
        if !(size + utf8_len(ls[i]) > MAX_OUTPUT_SIZE || i >= MAX_LINES) {
            lemma_kept_lines_maximal(ls, i + 1);
        }
    }
}

/// Law: output over either limit keeps the longest run of leading lines
/// that fits (at most 2000 lines, the last ending within 50KB), each with
/// its line break, and adds the notice when a line is left out.
pub proof fn law_truncation_keeps_longest_fitting_prefix(content: Seq<char>)
    requires
        utf8_len(content) > MAX_OUTPUT_SIZE || lines(content).len() > MAX_LINES,
    ensures
        ({
            let ls = lines(content);
            let k = kept_lines(ls, 0, 0);
            &&& 0 <= k <= ls.len()
            &&& prefix_fits(ls, k)
            &&& k < ls.len() ==> !prefix_fits(ls, k + 1)
            &&& truncated(content) == with_newlines(ls, k) + if k < ls.len() {
                truncation_notice(utf8_len(content), ls.len())
            } else {
                Seq::empty()
            }
        }),
{
    lemma_kept_lines_maximal(lines(content), 0);
}

/// Truncates output that exceeds 50KB or 2000 lines.
///
/// Within both limits the content is returned unchanged.  Otherwise lines are
/// kept (each followed by `'\n'`) while the kept bytes stay within 50KB and
/// fewer than 2000 lines are kept; if a line is dropped, a note giving the
/// original size and line count follows.
pub fn truncate_output(content: &str) -> (r: String)
    requires
        utf8_len(content@) <= usize::MAX,
    ensures
        r@ == truncated(content@),
        utf8_len(content@) <= MAX_OUTPUT_SIZE && lines(content@).len() <= MAX_LINES ==> r@
            == content@,
{
    let c = chars_of(content);
    let content_size = crate::text::str_byte_len(content);
    let ls = lines_of(c.as_slice());
    let line_count = ls.len();
    if content_size > MAX_OUTPUT_SIZE || line_count > MAX_LINES {
        let ghost lsv = lines(content@);
        let mut out: Vec<char> = Vec::new();
        let mut current_size: usize = 0;
        let mut current_lines: usize = 0;
        proof {
            lemma_kept_lines(lsv, 0, 0);
        }
        while current_lines < line_count
            invariant
                views(ls@) == lsv,
                line_count == lsv.len(),
                current_lines <= line_count,
                current_size <= MAX_OUTPUT_SIZE + 1,
                kept_lines(lsv, 0, 0) == kept_lines(lsv, current_lines as int, current_size as int),
                out@ == with_newlines(lsv, current_lines as int),
                content_size == utf8_len(content@),
                lsv == lines(content@),
                utf8_len(content@) > MAX_OUTPUT_SIZE || lsv.len() > MAX_LINES,
            decreases line_count - current_lines,
        {
            let line = &ls[current_lines];
            assert(line@ == lsv[current_lines as int]);
            let fits = if current_lines >= MAX_LINES || current_size > MAX_OUTPUT_SIZE {
                None
            } else {
                utf8_len_at_most(line.as_slice(), MAX_OUTPUT_SIZE - current_size)
            };
            match fits {
                None => {
                    extend_str(&mut out, "\n\n--- Output truncated (");
                    let d1 = decimal_chars(content_size as u64);
                    extend_chars(&mut out, d1.as_slice());
                    extend_str(&mut out, " bytes, ");
                    let d2 = decimal_chars(line_count as u64);
                    extend_chars(&mut out, d2.as_slice());
                    extend_str(&mut out, " lines) ---\n");
                    extend_str(&mut out, "Use offset/limit parameters to read specific sections.");
                    proof {
                        assert(kept_lines(lsv, current_lines as int, current_size as int)
                            == current_lines);
                        assert(out@ =~= with_newlines(lsv, current_lines as int) + truncation_notice(
                            utf8_len(content@),
                            lsv.len(),
                        ));
                        assert(out@ == truncated(content@));
                    }
                    return string_of(out.as_slice());
                },
                Some(n) => {
                    extend_chars(&mut out, line.as_slice());
                    out.push('\n');
                    proof {
                        assert(out@ =~= with_newlines(lsv, current_lines + 1));
                    }
                    current_size = current_size + n + 1;
                    current_lines = current_lines + 1;
                },
            }
        }
        proof {
            assert(kept_lines(lsv, current_lines as int, current_size as int) == lsv.len());
            assert(out@ =~= with_newlines(lsv, lsv.len() as int) + Seq::<char>::empty());
        }
        string_of(out.as_slice())
    } else {
        content.to_owned()
    }
}

} // verus!
