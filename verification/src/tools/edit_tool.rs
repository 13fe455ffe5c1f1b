//! String replacement with three matching strategies:
//! 1. exact match of the old string,
//! 2. line-by-line match ignoring leading/trailing whitespace of each line,
//! 3. match after collapsing all whitespace runs.
//!
//! The file is read and written by the caller; this module decides the new
//! content and the number of replacements.
use vstd::prelude::*;
use crate::text::{
    free_of, lemma_lines_chars, lemma_lines_concat, lemma_lines_join, lemma_join_last, occurs_at,
    char_whitespace, is_whitespace, lemma_skip_ws, skip_chars, skip_ws, subrange_chars, words,
    words_of, chars_eq, chars_of, clone_lines, contains, contains_chars, decimal, decimal_chars,
    extend_chars, extend_str, join, join_chars, lines, lines_of, match_count, replacen,
    replacen_chars, count_matches, string_of, trim, trim_chars, views,
};
use crate::tools::domain::error_handler::ToolError;

verus! {

/// Edits files by replacing an old string with a new one.
#[derive(Debug, Clone)]
pub struct EditTool;

/// Result of a replacement: the new content and how many occurrences were replaced.
#[derive(Debug)]
pub struct ReplacementResult {
    pub content: String,
    pub count: usize,
}

/// The number of replacements `replacen` is asked for.
pub open spec fn replace_limit(replace_all: bool) -> nat {
    if replace_all { usize::MAX as nat } else { 1 }
}

/// Exact matching: replaces the first occurrence, or every occurrence when
/// `replace_all` is set; `None` when `old_string` does not occur.
pub fn try_exact_match(content: &str, old_string: &str, new_string: &str, replace_all: bool) -> (r:
    Option<ReplacementResult>)
    requires
        content@.len() < usize::MAX,
    ensures
        r is None <==> !contains(content@, old_string@),
        r matches Some(res) ==> res.content@ == replacen(
            content@,
            old_string@,
            new_string@,
            replace_limit(replace_all),
        ) && res.count == if replace_all {
            match_count(content@, old_string@)
        } else {
            1
        },
{
    let c = chars_of(content);
    let o = chars_of(old_string);
    let n = chars_of(new_string);
    if !contains_chars(c.as_slice(), o.as_slice()) {
        return None;
    }
    let result = if replace_all {
        replacen_chars(c.as_slice(), o.as_slice(), n.as_slice(), usize::MAX)
    } else {
        replacen_chars(c.as_slice(), o.as_slice(), n.as_slice(), 1)
    };
    let count = if replace_all {
        count_matches(c.as_slice(), o.as_slice())
    } else {
        1
    };
    Some(ReplacementResult { content: string_of(result.as_slice()), count })
}

/// Lines `cl[start..start + sl.len()]` equal `sl` after trimming each line.
pub open spec fn trimmed_lines_match(cl: Seq<Seq<char>>, sl: Seq<Seq<char>>, start: int) -> bool {
    forall|i: int| 0 <= i < sl.len() ==> trim(#[trigger] cl[start + i]) == trim(sl[i])
}

/// Last start index tried by the line search.
pub open spec fn last_start(cl: Seq<Seq<char>>, sl: Seq<Seq<char>>) -> int {
    if cl.len() >= sl.len() { cl.len() - sl.len() } else { 0 }
}

/// First start index at or after `start` where the trimmed lines match.
pub open spec fn find_trimmed(cl: Seq<Seq<char>>, sl: Seq<Seq<char>>, start: int) -> Option<int>
    decreases last_start(cl, sl) + 1 - start,
{
    if start < 0 || start > last_start(cl, sl) {
        None
    } else if start + sl.len() <= cl.len() && trimmed_lines_match(cl, sl, start) {
        Some(start)
    } else {
        find_trimmed(cl, sl, start + 1)
    }
}

/// The line search reads past the content: there are more search lines
/// than content lines and every content line matches its search line.
pub open spec fn trim_search_overruns(cl: Seq<Seq<char>>, sl: Seq<Seq<char>>) -> bool {
    sl.len() > cl.len() && forall|i: int| 0 <= i < cl.len() ==> trim(#[trigger] cl[i]) == trim(sl[i])
}

proof fn lemma_find_trimmed(cl: Seq<Seq<char>>, sl: Seq<Seq<char>>, start: int)
    ensures
        find_trimmed(cl, sl, start) matches Some(s) ==> start <= s && s + sl.len() <= cl.len()
            && trimmed_lines_match(cl, sl, s),
    decreases last_start(cl, sl) + 1 - start,
{
    if start < 0 || start > last_start(cl, sl) {
    } else if start + sl.len() <= cl.len() && trimmed_lines_match(cl, sl, start) {
    } else {
        lemma_find_trimmed(cl, sl, start + 1);
    }
}

/// Whether the search lines match the content lines starting at `start`,
/// line by line after trimming, checking lines in order.
fn lines_match_at(content_lines: &[Vec<char>], search_lines: &[Vec<char>], start: usize) -> (r: bool)
    requires
        !trim_search_overruns(views(content_lines@), views(search_lines@)),
        start <= last_start(views(content_lines@), views(search_lines@)),
    ensures
        r == (start + search_lines@.len() <= content_lines@.len() && trimmed_lines_match(
            views(content_lines@),
            views(search_lines@),
            start as int,
        )),
{
    let ghost cl = views(content_lines@);
    let ghost sl = views(search_lines@);
    let mut i: usize = 0;
    while i < search_lines.len()
        invariant
            cl == views(content_lines@),
            sl == views(search_lines@),
            !trim_search_overruns(cl, sl),
            start <= last_start(cl, sl),
            i <= search_lines.len(),
            forall|m: int| 0 <= m < i ==> start + m < cl.len() && trim(#[trigger] cl[start + m])
                == trim(sl[m]),
        decreases search_lines.len() - i,
    {
        if i >= content_lines.len() - start {
            proof {
                assert(start == 0);
                if i > 0 {
                    assert(trim(cl[start + (i - 1)]) == trim(sl[i - 1]));
                }
                assert(i == cl.len());
                assert forall|m: int| 0 <= m < cl.len() implies trim(#[trigger] cl[m]) == trim(
                    sl[m],
                ) by {
                    assert(trim(cl[0 + m]) == trim(sl[m]));
                }
                assert(trim_search_overruns(cl, sl));
            }
            return false;
        }
        let a = trim_chars(content_lines[start + i].as_slice());
        let b = trim_chars(search_lines[i].as_slice());
        if !chars_eq(a.as_slice(), b.as_slice()) {
            assert(trim(cl[start + i]) != trim(sl[i as int]));
            return false;
        }
        i += 1;
    }
    proof {
        if sl.len() > 0 {
            assert(trim(cl[start + (sl.len() - 1)]) == trim(sl[sl.len() - 1]));
            assert(start + (sl.len() - 1) < cl.len());
        }
    }
    true
}

/// Finds the first position where `search_lines` occurs in `content_lines`,
/// comparing lines with leading and trailing whitespace removed.
pub fn find_sequence_with_trim(content_lines: &[Vec<char>], search_lines: &[Vec<char>]) -> (r:
    Option<usize>)
    requires
        !trim_search_overruns(views(content_lines@), views(search_lines@)),
    ensures
        match r {
            Some(s) => find_trimmed(views(content_lines@), views(search_lines@), 0) == Some(
                s as int,
            ),
            None => find_trimmed(views(content_lines@), views(search_lines@), 0) is None,
        },
{
    let ghost cl = views(content_lines@);
    let ghost sl = views(search_lines@);
    let upper = if content_lines.len() >= search_lines.len() {
        content_lines.len() - search_lines.len()
    } else {
        0
    };
    let mut start: usize = 0;
    while start <= upper
        invariant
            cl == views(content_lines@),
            sl == views(search_lines@),
            upper == last_start(cl, sl),
            !trim_search_overruns(cl, sl),
            find_trimmed(cl, sl, 0) == find_trimmed(cl, sl, start as int),
        decreases upper + 1 - start,
    {
        if lines_match_at(content_lines, search_lines, start) {
            return Some(start);
        }
        if start == upper {
            assert(find_trimmed(cl, sl, start + 1) is None);
            return None;
        }
        start += 1;
    }
    None
}

/// The text before the matched lines, the text after them, and the line
/// ending used to rejoin: `"\r\n"` when the content holds one, else `"\n"`.
pub open spec fn line_ending(content: Seq<char>) -> Seq<char> {
    if contains(content, seq!['\r', '\n']) { seq!['\r', '\n'] } else { seq!['\n'] }
}

/// What line-trim matching produces when the old lines start at line `start`.
pub open spec fn trim_replacement(content: Seq<char>, old: Seq<char>, new: Seq<char>, start: int) -> Seq<char> {
    let cl = lines(content);
    let k = lines(old).len();
    let before = join(cl.subrange(0, start), seq!['\n']);
    let after = if start + k < cl.len() {
        join(cl.subrange(start + k, cl.len() as int), seq!['\n'])
    } else {
        Seq::empty()
    };
    let le = line_ending(content);
    (if before.len() == 0 { Seq::empty() } else { before + le }) + new + (if after.len() == 0 {
        Seq::empty()
    } else {
        le + after
    })
}

/// Law: line-trim replacement keeps the content outside the matched block
/// whole.  The lines before the block and all the lines after it (from the
/// one right after the block to the last) are kept, each group joined by
/// line breaks and set off from the new text by the content's line ending.
pub proof fn law_trim_replacement_keeps_other_lines(content: Seq<char>, old: Seq<char>, new: Seq<char>, start: int)
    requires
        0 <= start,
        start + lines(old).len() <= lines(content).len(),
    ensures
        ({
            let cl = lines(content);
            let le = line_ending(content);
            let head = join(cl.take(start), seq!['\n']);
            let tail = join(cl.skip(start + lines(old).len()), seq!['\n']);
            trim_replacement(content, old, new, start) == (if head.len() == 0 {
                Seq::empty()
            } else {
                head + le
            }) + new + (if tail.len() == 0 {
                Seq::empty()
            } else {
                le + tail
            })
        }),
{
    let cl = lines(content);
    let k = lines(old).len();
    assert(cl.subrange(0, start) =~= cl.take(start));
    assert(cl.subrange(start + k, cl.len() as int) =~= cl.skip(start + k));
    if start + k >= cl.len() {
        assert(cl.skip(start + k) =~= Seq::<Seq<char>>::empty());
    }
}

/// Law: in line terms, line-trim replacement gives the content's lines
/// before the matched block, then the new text's lines, then every content
/// line after the block.  Stated where rejoining the lines is faithful: no
/// `'\r'` in the content or the new text, no empty content line, and a
/// non-empty new text that does not end with a line break.
pub proof fn law_trim_replacement_lines(content: Seq<char>, old: Seq<char>, new: Seq<char>, start: int)
    requires
        0 <= start,
        start + lines(old).len() <= lines(content).len(),
        free_of(content, '\r'),
        free_of(new, '\r'),
        new.len() > 0,
        new.last() != '\n',
        forall|i: int| 0 <= i < lines(content).len() ==> (#[trigger] lines(content)[i]).len() > 0,
    ensures
        lines(trim_replacement(content, old, new, start)) == lines(content).take(start) + lines(new)
            + lines(content).skip(start + lines(old).len()),
{
    let cl = lines(content);
    let k = lines(old).len();
    lemma_lines_chars(content);
    law_trim_replacement_keeps_other_lines(content, old, new, start);
    assert(!contains(content, seq!['\r', '\n'])) by {
        assert forall|i: int| !occurs_at(content, seq!['\r', '\n'], i) by {
            if occurs_at(content, seq!['\r', '\n'], i) {
                assert(content.subrange(i, i + 2)[0] == content[i]);
            }
        }
    }
    assert(line_ending(content) == seq!['\n']);
    let before = cl.take(start);
    let after = cl.skip(start + k);
    assert forall|i: int| 0 <= i < before.len() implies (#[trigger] before[i]).len() > 0 && free_of(before[i], '\n')
        && before[i].last() != '\r' by {
        assert(before[i] == cl[i]);
        assert(cl[i][cl[i].len() - 1] != '\r');
    }
    assert forall|i: int| 0 <= i < after.len() implies (#[trigger] after[i]).len() > 0 && free_of(after[i], '\n')
        && after[i].last() != '\r' by {
        assert(after[i] == cl[start + k + i]);
        assert(cl[start + k + i][cl[start + k + i].len() - 1] != '\r');
    }
    lemma_lines_join(before);
    lemma_lines_join(after);
    let head = join(before, seq!['\n']);
    let tail = join(after, seq!['\n']);
    let nl = seq!['\n'];
    assert(new.last() != '\r') by {
        assert(new[new.len() - 1] != '\r');
    }
    let rest = new + (if tail.len() == 0 { Seq::empty() } else { nl + tail });
    if after.len() > 0 {
        lemma_join_last(after, nl);
        assert(new + (nl + tail) =~= new + nl + tail);
        lemma_lines_concat(new, tail);
        assert(lines(rest) == lines(new) + after);
    } else {
        assert(tail =~= Seq::<char>::empty());
        assert(rest =~= new);
        assert(lines(new) + after =~= lines(new));
    }
    if before.len() > 0 {
        lemma_join_last(before, nl);
        assert(before.last() == cl[start - 1]);
        assert(head.last() != '\n' && head.last() != '\r') by {
            assert(cl[start - 1][cl[start - 1].len() - 1] != '\r');
            assert(cl[start - 1][cl[start - 1].len() - 1] != '\n');
        }
        assert((head + nl) + rest =~= head + nl + rest);
        lemma_lines_concat(head, rest);
        assert(trim_replacement(content, old, new, start) =~= head + nl + rest);
        assert(before + (lines(new) + after) =~= before + lines(new) + after);
    } else {
        assert(head =~= Seq::<char>::empty());
        assert(trim_replacement(content, old, new, start) =~= rest);
        assert(before + lines(new) + after =~= lines(new) + after);
    }
}

/// Line-trim matching: finds the old lines in the content comparing each
/// line without its surrounding whitespace, and replaces that block of lines
/// by `new_string` (one replacement).
pub fn try_trim_match(content: &str, old_string: &str, new_string: &str, replace_all: bool) -> (r:
    Option<ReplacementResult>)
    requires
        !trim_search_overruns(lines(content@), lines(old_string@)),
    ensures
        lines(old_string@).len() == 0 ==> r is None,
        lines(old_string@).len() > 0 ==> match find_trimmed(lines(content@), lines(old_string@), 0) {
            None => r is None,
            Some(start) => r matches Some(res) && res.count == 1 && res.content@
                == trim_replacement(content@, old_string@, new_string@, start),
        },
{
    let c = chars_of(content);
    let cl = lines_of(c.as_slice());
    let o = chars_of(old_string);
    let ol = lines_of(o.as_slice());
    if ol.len() == 0 {
        return None;
    }
    let start = match find_sequence_with_trim(cl.as_slice(), ol.as_slice()) {
        Some(s) => s,
        None => {
            return None;
        },
    };
    proof {
        lemma_find_trimmed(views(cl@), views(ol@), 0);
        assert(views(ol@).len() == ol@.len());
        assert(views(cl@).len() == cl@.len());
        assert(find_trimmed(views(cl@), views(ol@), 0) == Some(start as int));
        assert(start + ol@.len() <= cl@.len());
    }
    assert(start + ol.len() <= cl.len());
    let end = start + ol.len();
    let nl: [char; 1] = ['\n'];
    proof {
        assert(nl@ =~= seq!['\n']);
    }
    let before_lines = clone_lines(cl.as_slice(), 0, start);
    let before = join_chars(before_lines.as_slice(), &nl);
    let after = if end < cl.len() {
        let after_lines = clone_lines(cl.as_slice(), end, cl.len());
        join_chars(after_lines.as_slice(), &nl)
    } else {
        Vec::new()
    };
    let crlf: [char; 2] = ['\r', '\n'];
    proof {
        assert(crlf@ =~= seq!['\r', '\n']);
    }
    let le: Vec<char> = if contains_chars(c.as_slice(), &crlf) {
        let mut v = Vec::new();
        v.push('\r');
        v.push('\n');
        v
    } else {
        let mut v = Vec::new();
        v.push('\n');
        v
    };
    assert(le@ =~= line_ending(content@));
    let mut result: Vec<char> = Vec::new();
    if before.len() > 0 {
        extend_chars(&mut result, before.as_slice());
        extend_chars(&mut result, le.as_slice());
    }
    extend_str(&mut result, new_string);
    if after.len() > 0 {
        extend_chars(&mut result, le.as_slice());
        extend_chars(&mut result, after.as_slice());
    }
    proof {
        let ghost cls = lines(content@);
        assert(views(cl@).subrange(0, start as int) =~= cls.subrange(0, start as int));
        assert(result@ =~= trim_replacement(content@, old_string@, new_string@, start as int));
    }
    Some(ReplacementResult { content: string_of(result.as_slice()), count: 1 })
}

/// Where the words `ws[k..]` match in `c` from `q` on, the first word at
/// `q` itself and each later one after a run of whitespace: the end of the
/// match (just past its last word), or none.
pub open spec fn words_match_at(c: Seq<char>, q: int, ws: Seq<Seq<char>>, k: int) -> Option<int>
    decreases ws.len() - k,
{
    if k < 0 || k >= ws.len() || q < 0 || q + ws[k].len() > c.len() || c.subrange(q, q + ws[k].len()) != ws[k] {
        None
    } else if k == ws.len() - 1 {
        Some(q + ws[k].len())
    } else {
        let e = q + ws[k].len();
        if e < c.len() && char_whitespace(c[e]) {
            words_match_at(c, skip_ws(c, e), ws, k + 1)
        } else {
            None
        }
    }
}

/// The first place, from `i` on, where the content equals the old text up
/// to whitespace: the old text's words, in order, separated by whitespace
/// runs of any length; as the start and the end of that span.
pub open spec fn first_loose_match(c: Seq<char>, ws: Seq<Seq<char>>, i: int) -> Option<(int, int)>
    decreases c.len() - i,
{
    if i < 0 || i >= c.len() {
        None
    } else {
        match words_match_at(c, i, ws, 0) {
            Some(j) => Some((i, j)),
            None => first_loose_match(c, ws, i + 1),
        }
    }
}

/// The content once the first span equal to the old text up to whitespace
/// is replaced by the new text; none when no span is.  An old text of
/// whitespace only matches the empty span at the start.
pub open spec fn normalized_replacement(content: Seq<char>, old: Seq<char>, new: Seq<char>) -> Option<Seq<char>> {
    if words(old).len() == 0 {
        Some(new + content)
    } else {
        match first_loose_match(content, words(old), 0) {
            Some((i, j)) => Some(content.take(i) + new + content.skip(j)),
            None => None,
        }
    }
}

/// `skip_ws` on a slice.
fn skip_ws_at(c: &[char], from: usize) -> (r: usize)
    requires
        from <= c@.len(),
    ensures
        r == skip_ws(c@, from as int),
{
    let mut q = from;
    while q < c.len() && is_whitespace(c[q])
        invariant
            from <= q <= c@.len(),
            skip_ws(c@, q as int) == skip_ws(c@, from as int),
        decreases c.len() - q,
    {
        q = q + 1;
    }
    q
}

/// `words_match_at` on slices.
fn match_words_at(c: &[char], q: usize, ws: &[Vec<char>], k: usize) -> (r: Option<usize>)
    requires
        q <= c@.len(),
    ensures
        r matches Some(e) ==> words_match_at(c@, q as int, views(ws@), k as int) == Some(e as int) && e <= c@.len(),
        r is None ==> words_match_at(c@, q as int, views(ws@), k as int) is None,
    decreases ws@.len() - k,
{
    proof {
        assert(views(ws@).len() == ws@.len());
    }
    if k >= ws.len() {
        return None;
    }
    let w = &ws[k];
    assert(views(ws@)[k as int] == w@);
    if w.len() > c.len() - q {
        return None;
    }
    let piece = subrange_chars(c, q, q + w.len());
    if !chars_eq(piece.as_slice(), w.as_slice()) {
        return None;
    }
    let e = q + w.len();
    if k == ws.len() - 1 {
        return Some(e);
    }
    if e < c.len() && is_whitespace(c[e]) {
        proof {
            lemma_skip_ws(c@, e as int);
        }
        let next = skip_ws_at(c, e);
        match_words_at(c, next, ws, k + 1)
    } else {
        None
    }
}

/// Whitespace-insensitive matching: the first span of the content that
/// equals the old string up to whitespace (see `normalized_replacement`)
/// is replaced, once.
pub fn try_normalized_match(content: &str, old_string: &str, new_string: &str, _replace_all: bool) -> (r:
    Option<ReplacementResult>)
    ensures
        match normalized_replacement(content@, old_string@, new_string@) {
            Some(x) => r matches Some(res) && res.count == 1 && res.content@ == x,
            None => r is None,
        },
{
    let c = chars_of(content);
    let o = chars_of(old_string);
    let n = chars_of(new_string);
    let ws = words_of(o.as_slice());
    proof {
        assert(views(ws@).len() == ws@.len());
    }
    if ws.len() == 0 {
        let mut result = n;
        extend_chars(&mut result, c.as_slice());
        assert(result@ == new_string@ + content@);
        return Some(ReplacementResult { content: string_of(result.as_slice()), count: 1 });
    }
    let ghost wv = words(old_string@);
    let mut i: usize = 0;
    while i < c.len()
        invariant
            i <= c@.len(),
            c@ == content@,
            n@ == new_string@,
            views(ws@) == wv,
            wv == words(old_string@),
            wv.len() > 0,
            first_loose_match(c@, wv, 0) == first_loose_match(c@, wv, i as int),
        decreases c.len() - i,
    {
        match match_words_at(c.as_slice(), i, ws.as_slice(), 0) {
            Some(j) => {
                assert(first_loose_match(c@, wv, i as int) == Some((i as int, j as int)));
                let mut result = subrange_chars(c.as_slice(), 0, i);
                extend_chars(&mut result, n.as_slice());
                extend_chars(&mut result, skip_chars(c.as_slice(), j).as_slice());
                assert(result@ =~= c@.take(i as int) + n@ + c@.skip(j as int));
                return Some(ReplacementResult { content: string_of(result.as_slice()), count: 1 });
            },
            None => {
                assert(first_loose_match(c@, wv, i as int) == first_loose_match(c@, wv, i + 1));
            },
        }
        i = i + 1;
    }
    assert(first_loose_match(c@, wv, i as int) is None);
    None
}

} // verus!

verus! {

/// Message given when no strategy finds the old string.
pub open spec fn not_found_message() -> Seq<char> {
    "Could not find the old_string in the file. Make sure you have read the file first and that the old_string matches exactly. Try reading the file again to see the current content."@
}

/// The line search cannot read past the content for this edit: either the
/// exact search succeeds first, or the trimmed line search stays in bounds.
pub open spec fn edit_in_bounds(content: Seq<char>, old: Seq<char>) -> bool {
    contains(content, old) || !trim_search_overruns(lines(content), lines(old))
}

/// The strategy that handles an edit: exact, then line-trim, then
/// whitespace-normalized matching, else failure.
pub open spec fn edit_strategy(content: Seq<char>, old: Seq<char>) -> int {
    if contains(content, old) {
        0
    } else if lines(old).len() > 0 && find_trimmed(lines(content), lines(old), 0) is Some {
        1
    } else if normalized_replacement(content, old, Seq::empty()) is Some {
        2
    } else {
        3
    }
}

/// Replaces `old_string` by `new_string` in `content`, trying exact, then
/// line-trim, then whitespace-normalized matching; fails with the
/// not-found message when none matches.
pub fn replace_in_content(content: &str, old_string: &str, new_string: &str, replace_all: bool) -> (r:
    Result<ReplacementResult, ToolError>)
    requires
        content@.len() < usize::MAX,
        edit_in_bounds(content@, old_string@),
    ensures
        edit_strategy(content@, old_string@) == 0 ==> (r matches Ok(res) && res.content@ == replacen(
            content@,
            old_string@,
            new_string@,
            replace_limit(replace_all),
        ) && res.count == if replace_all {
            match_count(content@, old_string@)
        } else {
            1
        }),
        edit_strategy(content@, old_string@) == 1 ==> (r matches Ok(res) && res.count == 1
            && res.content@ == trim_replacement(
            content@,
            old_string@,
            new_string@,
            find_trimmed(lines(content@), lines(old_string@), 0)->0,
        )),
        edit_strategy(content@, old_string@) == 2 ==> (r matches Ok(res) && res.count == 1
            && normalized_replacement(content@, old_string@, new_string@) == Some(res.content@)),
        edit_strategy(content@, old_string@) == 3 ==> (r matches Err(ToolError::ExecutionFailed(m))
            && m@ == not_found_message()),
{
    if let Some(res) = try_exact_match(content, old_string, new_string, replace_all) {
        return Ok(res);
    }
    if let Some(res) = try_trim_match(content, old_string, new_string, replace_all) {
        return Ok(res);
    }
    if let Some(res) = try_normalized_match(content, old_string, new_string, replace_all) {
        return Ok(res);
    }
    Err(
        ToolError::ExecutionFailed(
            "Could not find the old_string in the file. Make sure you have read the file first and that the old_string matches exactly. Try reading the file again to see the current content.".to_owned(),
        ),
    )
}

/// Message reporting a successful edit:
/// `Successfully replaced <count> occurrence(s) in <path>`.
pub fn edit_success_message(count: usize, file_path: &str) -> (r: String)
    ensures
        r@ == "Successfully replaced "@ + decimal(count as nat) + " occurrence(s) in "@ + file_path@,
{
    let mut v: Vec<char> = Vec::new();
    extend_str(&mut v, "Successfully replaced ");
    let d = decimal_chars(count as u64);
    extend_chars(&mut v, d.as_slice());
    extend_str(&mut v, " occurrence(s) in ");
    extend_str(&mut v, file_path);
    string_of(v.as_slice())
}

} // verus!
