//! Completion of `@` file references on the command line.  Searching the
//! file system with the glob pattern is left to the caller.
use vstd::prelude::*;
use crate::text::{
    char_len_utf8, chars_of, extend_str, lemma_utf8_len_concat, sort_strings, string_of, strings_sorted,
    utf8_len,
};

verus! {

/// Most completions offered.
pub const MAX_COMPLETIONS: usize = 20;

/// The glob pattern searched for a partial reference: every file of the
/// current directory when empty, otherwise any path below it containing the
/// text in its last component.
pub open spec fn search_pattern_of(p: Seq<char>) -> Seq<char> {
    if p.len() == 0 { "*"@ } else { "**/*"@ + p + "*"@ }
}

/// The glob pattern searched for a partial reference.
pub fn search_pattern(pattern: &str) -> (r: String)
    ensures
        r@ == search_pattern_of(pattern@),
{
    let p = chars_of(pattern);
    if p.len() == 0 {
        return "*".to_owned();
    }
    let mut v: Vec<char> = Vec::new();
    extend_str(&mut v, "**/*");
    extend_str(&mut v, pattern);
    extend_str(&mut v, "*");
    string_of(v.as_slice())
}

/// Index of the last occurrence of `c` in `s`.
pub open spec fn last_index_of(s: Seq<char>, c: char) -> Option<int>
    decreases s.len(),
{
    if s.len() == 0 {
        None
    } else if s.last() == c {
        Some(s.len() - 1)
    } else {
        last_index_of(s.drop_last(), c)
    }
}

/// The reference being completed before the cursor, when the text before
/// the cursor (its first `k` characters) has an `@`: the byte offset of the
/// last `@` and the text after it.
pub open spec fn reference_before(line: Seq<char>, k: int) -> Option<(nat, Seq<char>)> {
    let before = line.take(k);
    match last_index_of(before, '@') {
        Some(j) => Some((utf8_len(before.take(j)), before.skip(j + 1))),
        None => None,
    }
}

/// A byte offset is a character boundary of the line: it is the byte
/// length of the line's first `k` characters.
pub open spec fn boundary_at(line: Seq<char>, pos: nat, k: int) -> bool {
    0 <= k <= line.len() && utf8_len(line.take(k)) == pos
}

proof fn lemma_utf8_len_at_least(s: Seq<char>)
    ensures
        utf8_len(s) >= s.len(),
    decreases s.len(),
{
    if s.len() > 0 {
        lemma_utf8_len_at_least(s.drop_last());
    }
}

/// Byte offsets of character prefixes grow with the prefix.
proof fn lemma_prefix_offsets(s: Seq<char>, a: int, b: int)
    requires
        0 <= a <= b <= s.len(),
    ensures
        utf8_len(s.take(a)) + (b - a) <= utf8_len(s.take(b)),
{
    lemma_utf8_len_concat(s.take(a), s.subrange(a, b));
    assert(s.take(a) + s.subrange(a, b) =~= s.take(b));
    lemma_utf8_len_at_least(s.subrange(a, b));
}

proof fn lemma_last_index(s: Seq<char>, c: char)
    ensures
        match last_index_of(s, c) {
            Some(j) => 0 <= j < s.len() && s[j] == c && forall|m: int| j < m < s.len() ==> s[m] != c,
            None => forall|m: int| 0 <= m < s.len() ==> s[m] != c,
        },
    decreases s.len(),
{
    if s.len() > 0 && s.last() != c {
        lemma_last_index(s.drop_last(), c);
        assert forall|m: int| 0 <= m < s.len() - 1 implies s.drop_last()[m] == s[m] by {}
    }
}

proof fn lemma_utf8_len_push(s: Seq<char>, x: char)
    ensures
        utf8_len(s.push(x)) == utf8_len(s) + crate::text::char_width_utf8(x),
{
    assert(s.push(x).drop_last() =~= s);
}

/// Auto-completer for `@` file references.
pub struct FileReferenceCompleter;

impl FileReferenceCompleter {
    /// A completer.
    pub fn new() -> (r: Self) {
        FileReferenceCompleter
    }

    /// The reference being completed at byte offset `pos` of `line`: the
    /// byte offset of the last `@` before the cursor and the text between
    /// it and the cursor; `None` when there is no `@` before the cursor.
    pub fn reference_at(line: &str, pos: usize) -> (r: Option<(usize, String)>)
        requires
            exists|k: int| boundary_at(line@, pos as nat, k),
        ensures
            forall|k: int| boundary_at(line@, pos as nat, k) ==> match reference_before(line@, k) {
                Some((at, p)) => r matches Some((a, q)) && a == at && q@ == p,
                None => r is None,
            },
    {
        let c = chars_of(line);
        let ghost kk = choose|k: int| boundary_at(line@, pos as nat, k);
        let mut i: usize = 0;
        let mut off: usize = 0;
        while off < pos
            invariant
                c@ == line@,
                boundary_at(line@, pos as nat, kk),
                0 <= i <= kk,
                off == utf8_len(line@.take(i as int)),
                off <= pos,
            decreases pos - off,
        {
            proof {
                if i == kk {
                    assert(false);
                }
                lemma_prefix_offsets(line@, i + 1, kk);
                lemma_utf8_len_push(line@.take(i as int), line@[i as int]);
                assert(line@.take(i as int).push(line@[i as int]) =~= line@.take(i + 1));
                assert(i < c.len());
            }
            off = off + char_len_utf8(c[i]);
            i = i + 1;
        }
        proof {
            if i < kk {
                lemma_prefix_offsets(line@, i as int, kk);
            }
            assert(i == kk);
            assert forall|k: int| boundary_at(line@, pos as nat, k) implies k == kk by {
                if k < kk {
                    lemma_prefix_offsets(line@, k, kk);
                } else if k > kk {
                    lemma_prefix_offsets(line@, kk, k);
                }
            }
        }
        let ghost before = line@.take(i as int);
        let mut j: usize = i;
        while j > 0 && c[j - 1] != '@'
            invariant
                c@ == line@,
                j <= i <= line@.len(),
                before == line@.take(i as int),
                forall|m: int| j <= m < i ==> before[m] != '@',
            decreases j,
        {
            j = j - 1;
        }
        proof {
            lemma_last_index(before, '@');
        }
        if j == 0 {
            return None;
        }
        let at = j - 1;
        proof {
            assert(before[at as int] == '@');
            assert(last_index_of(before, '@') == Some(at as int));
        }
        let mut at_off: usize = 0;
        let mut m: usize = 0;
        while m < at
            invariant
                c@ == line@,
                m <= at < i <= line@.len(),
                i == kk,
                boundary_at(line@, pos as nat, kk),
                at_off == utf8_len(line@.take(m as int)),
            decreases at - m,
        {
            proof {
                lemma_prefix_offsets(line@, m + 1, kk);
                lemma_utf8_len_push(line@.take(m as int), line@[m as int]);
                assert(line@.take(m as int).push(line@[m as int]) =~= line@.take(m + 1));
            }
            at_off = at_off + char_len_utf8(c[m]);
            m = m + 1;
        }
        let mut pattern: Vec<char> = Vec::new();
        let mut q: usize = at + 1;
        while q < i
            invariant
                c@ == line@,
                at + 1 <= q <= i <= line@.len(),
                pattern@ == line@.subrange(at + 1, q as int),
            decreases i - q,
        {
            pattern.push(c[q]);
            assert(line@.subrange(at + 1, q + 1) =~= line@.subrange(at + 1, q as int).push(line@[q as int]));
            q = q + 1;
        }
        proof {
            assert(before.take(at as int) =~= line@.take(at as int));
            assert(before.skip(at + 1) =~= line@.subrange(at + 1, i as int));
        }
        Some((at_off, string_of(pattern.as_slice())))
    }

    /// The completions offered for the files found: the first 20 in string
    /// order.
    pub fn select_matches(found: Vec<String>) -> (r: Vec<String>)
        ensures
            exists|s: Seq<String>| #![auto]
                s.to_multiset() == found@.to_multiset() && strings_sorted(s) && r@ == (if s.len()
                    <= MAX_COMPLETIONS { s } else { s.take(MAX_COMPLETIONS as int) }),
    {
        let mut sorted = sort_strings(found);
        let ghost s = sorted@;
        if sorted.len() > MAX_COMPLETIONS {
            sorted.truncate(MAX_COMPLETIONS);
        }
        assert(sorted@ == (if s.len() <= MAX_COMPLETIONS { s } else { s.take(MAX_COMPLETIONS as int) }));
        sorted
    }
}

} // verus!
