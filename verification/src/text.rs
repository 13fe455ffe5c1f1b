//! Character-sequence model of the string operations the tools rely on.
//!
//! Every string is viewed as its sequence of `char`s (`Seq<char>`).  The spec
//! functions below state what `str::trim`, `str::contains`, `str::lines`,
//! `str::split_whitespace`, `str::replacen` and friends compute, and the exec
//! functions implement them on `Vec<char>` with proofs against those specs.
use vstd::prelude::*;
use vstd::utf8::{char_is_scalar, encode_scalar, encode_utf8};
use vstd::string::StringSliceAdditionalSpecFns;

verus! {

/// Name for the result of `char::is_whitespace` (Unicode `White_Space`).
pub uninterp spec fn char_whitespace(c: char) -> bool;

/// Name for the result of `char::is_alphanumeric` (Unicode `Alphabetic` or `Numeric`).
pub uninterp spec fn char_alphanumeric(c: char) -> bool;

/// Name for the result of `str::to_lowercase`.
pub uninterp spec fn lowercase_of(s: Seq<char>) -> Seq<char>;

/// The ASCII whitespace characters, as listed by `char::is_whitespace`'s table.
pub open spec fn ascii_whitespace(c: char) -> bool {
    c == ' ' || c == '\t' || c == '\n' || c == '\x0B' || c == '\x0C' || c == '\r'
}

/// ASCII letters and digits.
pub open spec fn ascii_alphanumeric(c: char) -> bool {
    ('a' <= c && c <= 'z') || ('A' <= c && c <= 'Z') || ('0' <= c && c <= '9')
}

/// ASCII lower-casing of one character.
pub open spec fn ascii_lower_char(c: char) -> char {
    if 'A' <= c && c <= 'Z' { ((c as u32) + 32) as char } else { c }
}

/// True when every character is ASCII.
pub open spec fn all_ascii(s: Seq<char>) -> bool {
    forall|i: int| 0 <= i < s.len() ==> (#[trigger] s[i] as u32) < 128
}

/// `char::is_whitespace`: Unicode `White_Space`; on ASCII input this is the
/// six characters space, tab, line feed, vertical tab, form feed and carriage return.
#[verifier::external_body]
pub(crate) fn is_whitespace(c: char) -> (r: bool)
    ensures
        r == char_whitespace(c),
        (c as u32) < 128 ==> (r <==> ascii_whitespace(c)),
{
    c.is_whitespace()
}

/// `char::is_alphanumeric`: Unicode `Alphabetic` or `Numeric`; on ASCII input
/// these are exactly the letters and digits.
#[verifier::external_body]
pub(crate) fn is_alphanumeric(c: char) -> (r: bool)
    ensures
        r == char_alphanumeric(c),
        (c as u32) < 128 ==> (r <==> ascii_alphanumeric(c)),
{
    c.is_alphanumeric()
}

/// `str::to_lowercase`; on ASCII input every upper-case letter is lowered and
/// nothing else changes.
#[verifier::external_body]
pub(crate) fn to_lowercase(s: &str) -> (r: String)
    ensures
        r@ == lowercase_of(s@),
        all_ascii(s@) ==> r@ == s@.map_values(|c: char| ascii_lower_char(c)),
{
    s.to_lowercase()
}

/// Name for the upper-cased form of a text (`str::to_uppercase`).
pub uninterp spec fn uppercase_of(s: Seq<char>) -> Seq<char>;

/// ASCII upper-casing of one character.
pub open spec fn ascii_upper_char(c: char) -> char {
    if 'a' <= c && c <= 'z' { ((c as u32) - 32) as char } else { c }
}

/// `str::to_uppercase`; on ASCII input every lower-case letter is raised and
/// nothing else changes.
#[verifier::external_body]
pub(crate) fn to_uppercase(s: &str) -> (r: String)
    ensures
        r@ == uppercase_of(s@),
        all_ascii(s@) ==> r@ == s@.map_values(|c: char| ascii_upper_char(c)),
{
    s.to_uppercase()
}

/// Name for a text's `Debug` rendering: quoted, with quotes, backslashes
/// and control characters escaped.
pub uninterp spec fn debug_quoted(s: Seq<char>) -> Seq<char>;

/// `format!("{:?}", s)` of a string.
#[verifier::external_body]
pub(crate) fn debug_string(s: &str) -> (r: String)
    ensures
        r@ == debug_quoted(s@),
{
    format!("{:?}", s)
}

/// `String::push`: appends one character.
#[verifier::external_body]
pub(crate) fn push_char(s: &mut String, c: char)
    ensures
        final(s)@ == old(s)@.push(c),
{
    s.push(c);
}

/// The characters of a string slice, in order.
pub fn chars_of(s: &str) -> (v: Vec<char>)
    ensures
        v@ == s@,
{
    let mut v: Vec<char> = Vec::new();
    for c in iter: s.chars()
        invariant
            v@ == iter.seq().take(iter.index() as int),
    {
        v.push(c);
    }
    v
}

/// A string holding the given characters.
pub fn string_of(v: &[char]) -> (s: String)
    ensures
        s@ == v@,
{
    let mut s = String::new();
    let mut i: usize = 0;
    while i < v.len()
        invariant
            i <= v.len(),
            s@ == v@.take(i as int),
        decreases v.len() - i,
    {
        push_char(&mut s, v[i]);
        assert(v@.take(i + 1) == v@.take(i as int).push(v@[i as int]));
        i += 1;
    }
    assert(v@.take(v.len() as int) == v@);
    s
}

/// Appends all characters of `src` to `dst`.
pub fn extend_chars(dst: &mut Vec<char>, src: &[char])
    ensures
        final(dst)@ == old(dst)@ + src@,
{
    let mut i: usize = 0;
    while i < src.len()
        invariant
            i <= src.len(),
            dst@ == old(dst)@ + src@.take(i as int),
        decreases src.len() - i,
    {
        dst.push(src[i]);
        assert(src@.take(i + 1) == src@.take(i as int).push(src@[i as int]));
        i += 1;
    }
    assert(src@.take(src.len() as int) == src@);
}

/// Appends all characters of a string slice to `dst`.
pub fn extend_str(dst: &mut Vec<char>, src: &str)
    ensures
        final(dst)@ == old(dst)@ + src@,
{
    let v = chars_of(src);
    extend_chars(dst, v.as_slice());
}

// ---------------------------------------------------------------------------
// UTF-8 byte lengths
// ---------------------------------------------------------------------------

/// Number of bytes of the UTF-8 encoding of one character.
pub open spec fn char_width_utf8(c: char) -> nat {
    let v = c as u32;
    if v <= 0x7F {
        1
    } else if v <= 0x7FF {
        2
    } else if v <= 0xFFFF {
        3
    } else {
        4
    }
}

/// Number of bytes of the UTF-8 encoding of a character sequence (`str::len`).
pub open spec fn utf8_len(s: Seq<char>) -> nat
    decreases s.len(),
{
    if s.len() == 0 {
        0
    } else {
        utf8_len(s.drop_last()) + char_width_utf8(s.last())
    }
}

/// Byte lengths add up over concatenation.
pub proof fn lemma_utf8_len_concat(a: Seq<char>, b: Seq<char>)
    ensures
        utf8_len(a + b) == utf8_len(a) + utf8_len(b),
    decreases b.len(),
{
    if b.len() == 0 {
        assert(a + b =~= a);
    } else {
        lemma_utf8_len_concat(a, b.drop_last());
        assert((a + b).drop_last() =~= a + b.drop_last());
    }
}

/// `utf8_len` is the length of vstd's UTF-8 encoding.
pub proof fn lemma_utf8_len_encode(s: Seq<char>)
    ensures
        encode_utf8(s).len() == utf8_len(s),
    decreases s.len(),
{
    if s.len() > 0 {
        lemma_utf8_len_encode(s.drop_first());
        lemma_utf8_len_concat(seq![s[0]], s.drop_first());
        assert(seq![s[0]] + s.drop_first() =~= s);
        assert(seq![s[0]].drop_last() =~= Seq::<char>::empty());
        char_is_scalar(s[0]);
        let v = s[0] as u32;
        assert(encode_utf8(s) == encode_scalar(v) + encode_utf8(s.drop_first()));
        assert(encode_scalar(v).len() == char_width_utf8(s[0]));
        assert(utf8_len(Seq::<char>::empty()) == 0);
        assert(seq![s[0]].last() == s[0]);
        assert(utf8_len(seq![s[0]]) == char_width_utf8(s[0]));
    }
}

/// Byte length of one character's UTF-8 encoding.
pub fn char_len_utf8(c: char) -> (r: usize)
    ensures
        r == char_width_utf8(c),
{
    let v = c as u32;
    if v <= 0x7F {
        1
    } else if v <= 0x7FF {
        2
    } else if v <= 0xFFFF {
        3
    } else {
        4
    }
}

/// Byte length of a string slice, stated over its characters.
pub fn str_byte_len(s: &str) -> (r: usize)
    requires
        utf8_len(s@) <= usize::MAX,
    ensures
        r == utf8_len(s@),
{
    proof {
        lemma_utf8_len_encode(s@);
    }
    s.len()
}

// ---------------------------------------------------------------------------
// Whitespace and trimming
// ---------------------------------------------------------------------------

/// Every character is whitespace (so `trim` leaves nothing).
pub open spec fn all_whitespace(s: Seq<char>) -> bool {
    forall|i: int| 0 <= i < s.len() ==> char_whitespace(#[trigger] s[i])
}

/// Index of the first non-whitespace character at or after `i` (or `s.len()`).
pub open spec fn skip_ws(s: Seq<char>, i: int) -> int
    decreases s.len() - i,
{
    if i < 0 || i >= s.len() {
        s.len() as int
    } else if char_whitespace(s[i]) {
        skip_ws(s, i + 1)
    } else {
        i
    }
}

/// End of the text before the trailing whitespace of `s[..j]`.
pub open spec fn trim_end_at(s: Seq<char>, j: int) -> int
    decreases j,
{
    if j <= 0 || j > s.len() {
        0
    } else if char_whitespace(s[j - 1]) {
        trim_end_at(s, j - 1)
    } else {
        j
    }
}

/// `str::trim`: the sequence without leading and trailing whitespace.
pub open spec fn trim(s: Seq<char>) -> Seq<char> {
    let a = skip_ws(s, 0);
    let b = trim_end_at(s, s.len() as int);
    if a < b { s.subrange(a, b) } else { Seq::empty() }
}

pub proof fn lemma_skip_ws(s: Seq<char>, i: int)
    requires
        0 <= i <= s.len(),
    ensures
        i <= skip_ws(s, i) <= s.len(),
        forall|k: int| i <= k < skip_ws(s, i) ==> char_whitespace(#[trigger] s[k]),
        skip_ws(s, i) < s.len() ==> !char_whitespace(s[skip_ws(s, i)]),
    decreases s.len() - i,
{
    if i < s.len() && char_whitespace(s[i]) {
        lemma_skip_ws(s, i + 1);
    }
}

pub proof fn lemma_trim_end_at(s: Seq<char>, j: int)
    requires
        0 <= j <= s.len(),
    ensures
        0 <= trim_end_at(s, j) <= j,
        forall|k: int| trim_end_at(s, j) <= k < j ==> char_whitespace(#[trigger] s[k]),
        trim_end_at(s, j) > 0 ==> !char_whitespace(s[trim_end_at(s, j) - 1]),
    decreases j,
{
    if j > 0 && char_whitespace(s[j - 1]) {
        lemma_trim_end_at(s, j - 1);
    }
}

/// `trim` leaves nothing exactly when every character is whitespace.
pub proof fn lemma_trim_empty_iff_all_whitespace(s: Seq<char>)
    ensures
        (trim(s).len() == 0) <==> all_whitespace(s),
{
    lemma_skip_ws(s, 0);
    lemma_trim_end_at(s, s.len() as int);
    let a = skip_ws(s, 0);
    let b = trim_end_at(s, s.len() as int);
    if all_whitespace(s) {
        if a < s.len() {
            assert(char_whitespace(s[a]));
        }
    } else {
        let k = choose|k: int| 0 <= k < s.len() && !char_whitespace(s[k]);
        assert(a <= k);
        assert(k < b);
    }
}

/// Whether all characters are whitespace, i.e. whether `trim` leaves nothing.
pub fn is_blank(s: &[char]) -> (r: bool)
    ensures
        r == all_whitespace(s@),
{
    let mut i: usize = 0;
    while i < s.len()
        invariant
            i <= s.len(),
            forall|k: int| 0 <= k < i ==> char_whitespace(#[trigger] s@[k]),
        decreases s.len() - i,
    {
        if !is_whitespace(s[i]) {
            return false;
        }
        i += 1;
    }
    true
}

/// `str::trim` on a character sequence.
pub fn trim_chars(s: &[char]) -> (r: Vec<char>)
    ensures
        r@ == trim(s@),
{
    let mut a: usize = 0;
    while a < s.len() && is_whitespace(s[a])
        invariant
            a <= s.len(),
            skip_ws(s@, 0) == skip_ws(s@, a as int),
        decreases s.len() - a,
    {
        a += 1;
    }
    let mut b: usize = s.len();
    while b > 0 && is_whitespace(s[b - 1])
        invariant
            b <= s.len(),
            trim_end_at(s@, s@.len() as int) == trim_end_at(s@, b as int),
        decreases b,
    {
        b -= 1;
    }
    let mut r: Vec<char> = Vec::new();
    if a < b {
        let mut i = a;
        while i < b
            invariant
                a <= i <= b <= s.len(),
                r@ == s@.subrange(a as int, i as int),
            decreases b - i,
        {
            r.push(s[i]);
            i += 1;
        }
    }
    r
}

/// Index of the first whitespace character at or after `i` (or `s.len()`).
pub open spec fn word_end(s: Seq<char>, i: int) -> int
    decreases s.len() - i,
{
    if i < 0 || i >= s.len() {
        s.len() as int
    } else if char_whitespace(s[i]) {
        i
    } else {
        word_end(s, i + 1)
    }
}

pub proof fn lemma_word_end(s: Seq<char>, i: int)
    requires
        0 <= i <= s.len(),
    ensures
        i <= word_end(s, i) <= s.len(),
        forall|k: int| i <= k < word_end(s, i) ==> !char_whitespace(#[trigger] s[k]),
        word_end(s, i) < s.len() ==> char_whitespace(s[word_end(s, i)]),
    decreases s.len() - i,
{
    if i < s.len() && !char_whitespace(s[i]) {
        lemma_word_end(s, i + 1);
    }
}

/// The first item of `str::split_whitespace` (empty when there is none).
pub open spec fn first_word(s: Seq<char>) -> Seq<char> {
    let a = skip_ws(s, 0);
    s.subrange(a, word_end(s, a))
}

/// The first whitespace-separated word of `s`.
pub fn first_word_chars(s: &[char]) -> (r: Vec<char>)
    ensures
        r@ == first_word(s@),
{
    proof {
        lemma_skip_ws(s@, 0);
    }
    let mut a: usize = 0;
    while a < s.len() && is_whitespace(s[a])
        invariant
            a <= s.len(),
            skip_ws(s@, 0) == skip_ws(s@, a as int),
        decreases s.len() - a,
    {
        a += 1;
    }
    proof {
        lemma_word_end(s@, a as int);
    }
    let mut r: Vec<char> = Vec::new();
    let mut b = a;
    while b < s.len() && !is_whitespace(s[b])
        invariant
            a <= b <= s.len(),
            word_end(s@, a as int) == word_end(s@, b as int),
            r@ == s@.subrange(a as int, b as int),
        decreases s.len() - b,
    {
        r.push(s[b]);
        b += 1;
    }
    r
}

// ---------------------------------------------------------------------------
// Substring search
// ---------------------------------------------------------------------------

/// `p` occurs in `s` starting at index `i`.
pub open spec fn occurs_at(s: Seq<char>, p: Seq<char>, i: int) -> bool {
    0 <= i && i + p.len() <= s.len() && s.subrange(i, i + p.len()) == p
}

/// `str::contains` with a string pattern.
pub open spec fn contains(s: Seq<char>, p: Seq<char>) -> bool {
    exists|i: int| occurs_at(s, p, i)
}

/// `str::starts_with` with a string pattern.
pub open spec fn starts_with(s: Seq<char>, p: Seq<char>) -> bool {
    occurs_at(s, p, 0)
}

/// `str::ends_with` with a string pattern.
pub open spec fn ends_with(s: Seq<char>, p: Seq<char>) -> bool {
    p.len() <= s.len() && occurs_at(s, p, s.len() - p.len())
}

/// `str::contains` with a single character.
pub open spec fn has_char(s: Seq<char>, c: char) -> bool {
    exists|i: int| 0 <= i < s.len() && s[i] == c
}

/// Leftmost index at or after `i` where `p` occurs.
pub open spec fn find_from(s: Seq<char>, p: Seq<char>, i: int) -> Option<int>
    decreases s.len() + 1 - i,
{
    if i < 0 || i + p.len() > s.len() {
        None
    } else if occurs_at(s, p, i) {
        Some(i)
    } else {
        find_from(s, p, i + 1)
    }
}

pub proof fn lemma_find_from(s: Seq<char>, p: Seq<char>, i: int)
    requires
        0 <= i,
    ensures
        match find_from(s, p, i) {
            Some(j) => i <= j && occurs_at(s, p, j) && forall|k: int|
                i <= k < j ==> !#[trigger] occurs_at(s, p, k),
            None => forall|k: int| i <= k ==> !#[trigger] occurs_at(s, p, k),
        },
    decreases s.len() + 1 - i,
{
    if i + p.len() > s.len() {
    } else if occurs_at(s, p, i) {
    } else {
        lemma_find_from(s, p, i + 1);
    }
}

/// `contains` agrees with a search from the start.
pub proof fn lemma_contains_find(s: Seq<char>, p: Seq<char>)
    ensures
        contains(s, p) <==> find_from(s, p, 0) is Some,
{
    lemma_find_from(s, p, 0);
    if contains(s, p) {
        let k = choose|k: int| occurs_at(s, p, k);
        assert(0 <= k);
    }
}

/// Whether `p` occurs in `s` at index `i`.
pub fn matches_at(s: &[char], p: &[char], i: usize) -> (r: bool)
    ensures
        r == occurs_at(s@, p@, i as int),
{
    if p.len() > s.len() || i > s.len() - p.len() {
        return false;
    }
    let mut k: usize = 0;
    while k < p.len()
        invariant
            k <= p.len(),
            i + p.len() <= s.len(),
            forall|m: int| 0 <= m < k ==> s@[i + m] == p@[m],
        decreases p.len() - k,
    {
        if s[i + k] != p[k] {
            assert(s@.subrange(i as int, i + p.len())[k as int] != p@[k as int]);
            return false;
        }
        k += 1;
    }
    assert(s@.subrange(i as int, i + p.len()) =~= p@);
    true
}

/// Leftmost occurrence of `p` at or after `from`.
pub fn find_chars_from(s: &[char], p: &[char], from: usize) -> (r: Option<usize>)
    ensures
        match r {
            Some(j) => find_from(s@, p@, from as int) == Some(j as int),
            None => find_from(s@, p@, from as int) is None,
        },
{
    if p.len() > s.len() {
        return None;
    }
    let mut i = from;
    while i <= s.len() - p.len()
        invariant
            from <= i,
            p.len() <= s.len(),
            find_from(s@, p@, from as int) == find_from(s@, p@, i as int),
        decreases s.len() + 1 - i,
    {
        if matches_at(s, p, i) {
            return Some(i);
        }
        proof {
            if p.len() == 0 {
                assert(s@.subrange(i as int, i as int) =~= p@);
            }
        }
        i += 1;
    }
    None
}

/// `str::contains` on character sequences.
pub fn contains_chars(s: &[char], p: &[char]) -> (r: bool)
    ensures
        r == contains(s@, p@),
{
    proof {
        lemma_contains_find(s@, p@);
    }
    find_chars_from(s, p, 0).is_some()
}

/// `str::contains` with a single character.
pub fn contains_char(s: &[char], c: char) -> (r: bool)
    ensures
        r == has_char(s@, c),
{
    let mut i: usize = 0;
    while i < s.len()
        invariant
            i <= s.len(),
            forall|k: int| 0 <= k < i ==> s@[k] != c,
        decreases s.len() - i,
    {
        if s[i] == c {
            return true;
        }
        i += 1;
    }
    false
}

/// `str::starts_with` on character sequences.
pub fn starts_with_chars(s: &[char], p: &[char]) -> (r: bool)
    ensures
        r == starts_with(s@, p@),
{
    matches_at(s, p, 0)
}

/// `str::ends_with` on character sequences.
pub fn ends_with_chars(s: &[char], p: &[char]) -> (r: bool)
    ensures
        r == ends_with(s@, p@),
{
    if p.len() > s.len() {
        false
    } else {
        matches_at(s, p, s.len() - p.len())
    }
}

/// Whether the characters equal those of a string slice.
pub fn eq_str(s: &[char], lit: &str) -> (r: bool)
    ensures
        r == (s@ == lit@),
{
    let l = chars_of(lit);
    if l.len() != s.len() {
        return false;
    }
    let r = matches_at(s, l.as_slice(), 0);
    proof {
        if r {
            assert(s@.subrange(0, s@.len() as int) =~= s@);
        } else {
            assert(s@.subrange(0, s@.len() as int) =~= s@);
        }
    }
    r
}

} // verus!

verus! {

// ---------------------------------------------------------------------------
// Lines
// ---------------------------------------------------------------------------

/// Index of the first `'\n'` at or after `i` (or `s.len()`).
pub open spec fn line_end(s: Seq<char>, i: int) -> int
    decreases s.len() - i,
{
    if i < 0 || i >= s.len() {
        s.len() as int
    } else if s[i] == '\n' {
        i
    } else {
        line_end(s, i + 1)
    }
}

pub proof fn lemma_line_end(s: Seq<char>, i: int)
    requires
        0 <= i <= s.len(),
    ensures
        i <= line_end(s, i) <= s.len(),
        forall|k: int| i <= k < line_end(s, i) ==> #[trigger] s[k] != '\n',
        line_end(s, i) < s.len() ==> s[line_end(s, i)] == '\n',
    decreases s.len() - i,
{
    if i < s.len() && s[i] != '\n' {
        lemma_line_end(s, i + 1);
    }
}

/// Drops one trailing `'\r'`.
pub open spec fn strip_cr(piece: Seq<char>) -> Seq<char> {
    if piece.len() > 0 && piece.last() == '\r' {
        piece.drop_last()
    } else {
        piece
    }
}

/// The lines of `s[i..]`, as `str::lines` yields them.
pub open spec fn lines_from(s: Seq<char>, i: int) -> Seq<Seq<char>>
    decreases s.len() - i,
{
    if i < 0 || i >= s.len() {
        Seq::empty()
    } else {
        let j = line_end(s, i);
        if j < s.len() {
            proof {
                lemma_line_end(s, i);
            }
            seq![strip_cr(s.subrange(i, j))] + lines_from(s, j + 1)
        } else {
            seq![s.subrange(i, s.len() as int)]
        }
    }
}

/// `str::lines`: split at `'\n'`, drop a `'\r'` before each `'\n'`, and
/// yield no final empty line after a trailing line break.
pub open spec fn lines(s: Seq<char>) -> Seq<Seq<char>> {
    lines_from(s, 0)
}

/// No character of `s` is `c`.
pub open spec fn free_of(s: Seq<char>, c: char) -> bool {
    forall|i: int| 0 <= i < s.len() ==> s[i] != c
}

proof fn lemma_line_end_shift(p: Seq<char>, y: Seq<char>, i: int)
    requires
        0 <= i <= y.len(),
    ensures
        line_end(p + y, p.len() + i) == p.len() + line_end(y, i),
    decreases y.len() - i,
{
    if i < y.len() {
        assert((p + y)[p.len() + i] == y[i]);
        if y[i] != '\n' {
            lemma_line_end_shift(p, y, i + 1);
        }
    }
}

proof fn lemma_lines_from_shift(p: Seq<char>, y: Seq<char>, i: int)
    requires
        0 <= i <= y.len(),
    ensures
        lines_from(p + y, p.len() + i) == lines_from(y, i),
    decreases y.len() - i,
{
    if i < y.len() {
        lemma_line_end_shift(p, y, i);
        lemma_line_end(y, i);
        let j = line_end(y, i);
        if j < y.len() {
            assert((p + y).subrange(p.len() + i, p.len() + j) =~= y.subrange(i, j));
            lemma_lines_from_shift(p, y, j + 1);
        } else {
            assert((p + y).subrange(p.len() + i, (p + y).len() as int) =~= y.subrange(i, y.len() as int));
        }
    }
}

proof fn lemma_line_end_before_break(x: Seq<char>, y: Seq<char>, i: int)
    requires
        0 <= i <= x.len(),
    ensures
        line_end(x + seq!['\n'] + y, i) == line_end(x, i),
    decreases x.len() - i,
{
    let s = x + seq!['\n'] + y;
    if i < x.len() {
        assert(s[i] == x[i]);
        if x[i] != '\n' {
            lemma_line_end_before_break(x, y, i + 1);
        }
    } else {
        assert(s[i] == '\n');
    }
}

proof fn lemma_lines_from_concat(x: Seq<char>, y: Seq<char>, i: int)
    requires
        0 <= i < x.len(),
        x.last() != '\n',
        x.last() != '\r',
    ensures
        lines_from(x + seq!['\n'] + y, i) == lines_from(x, i) + lines(y),
    decreases x.len() - i,
{
    let s = x + seq!['\n'] + y;
    lemma_line_end_before_break(x, y, i);
    lemma_line_end(x, i);
    let j = line_end(x, i);
    if j < x.len() {
        assert(s.subrange(i, j) =~= x.subrange(i, j));
        assert(j + 1 < x.len());
        lemma_lines_from_concat(x, y, j + 1);
        assert(lines_from(s, i) =~= seq![strip_cr(x.subrange(i, j))] + lines_from(s, j + 1));
        assert(lines_from(x, i) =~= seq![strip_cr(x.subrange(i, j))] + lines_from(x, j + 1));
        assert(lines_from(s, i) =~= lines_from(x, i) + lines(y));
    } else {
        assert(s.subrange(i, j) =~= x.subrange(i, x.len() as int));
        assert(x.subrange(i, x.len() as int).last() == x.last());
        assert(strip_cr(x.subrange(i, x.len() as int)) == x.subrange(i, x.len() as int));
        assert(s =~= (x + seq!['\n']) + y);
        lemma_lines_from_shift(x + seq!['\n'], y, 0);
        assert(lines_from(s, i) =~= lines_from(x, i) + lines(y));
    }
}

/// Lines of two texts joined by a line break: the lines of each, when the
/// first ends inside a line (not with a line break or `'\r'`).
pub proof fn lemma_lines_concat(x: Seq<char>, y: Seq<char>)
    requires
        x.len() > 0,
        x.last() != '\n',
        x.last() != '\r',
    ensures
        lines(x + seq!['\n'] + y) == lines(x) + lines(y),
{
    lemma_lines_from_concat(x, y, 0);
}

/// A non-empty text without line breaks is one line.
pub proof fn lemma_lines_single(x: Seq<char>)
    requires
        x.len() > 0,
        free_of(x, '\n'),
    ensures
        lines(x) == seq![x],
{
    lemma_line_end(x, 0);
    assert(x.subrange(0, x.len() as int) =~= x);
}

pub proof fn lemma_join_last(parts: Seq<Seq<char>>, sep: Seq<char>)
    requires
        parts.len() > 0,
        parts.last().len() > 0,
    ensures
        join(parts, sep).len() > 0,
        join(parts, sep).last() == parts.last().last(),
{
}

/// Lines joined by line breaks give back those lines, when each is
/// non-empty, holds no line break and does not end with `'\r'`.
pub proof fn lemma_lines_join(parts: Seq<Seq<char>>)
    requires
        forall|i: int| 0 <= i < parts.len() ==> (#[trigger] parts[i]).len() > 0 && free_of(parts[i], '\n')
            && parts[i].last() != '\r',
    ensures
        lines(join(parts, seq!['\n'])) == parts,
    decreases parts.len(),
{
    if parts.len() == 0 {
        assert(lines(Seq::<char>::empty()) =~= Seq::<Seq<char>>::empty());
    } else if parts.len() == 1 {
        lemma_lines_single(parts[0]);
        assert(seq![parts[0]] =~= parts);
    } else {
        let dl = parts.drop_last();
        assert forall|i: int| 0 <= i < dl.len() implies (#[trigger] dl[i]).len() > 0 && free_of(dl[i], '\n')
            && dl[i].last() != '\r' by {
            assert(dl[i] == parts[i]);
        }
        lemma_lines_join(dl);
        lemma_join_last(dl, seq!['\n']);
        let x = join(dl, seq!['\n']);
        assert(dl.last() == parts[parts.len() - 2]);
        assert(x.last() != '\n') by {
            assert(dl.last()[dl.last().len() - 1] != '\n');
        }
        lemma_lines_concat(x, parts.last());
        lemma_lines_single(parts.last());
        assert(dl + seq![parts.last()] =~= parts);
    }
}

proof fn lemma_lines_from_chars(s: Seq<char>, i: int)
    requires
        0 <= i,
    ensures
        forall|m: int, k: int|
            0 <= m < lines_from(s, i).len() && 0 <= k < lines_from(s, i)[m].len() ==> lines_from(s, i)[m][k]
                != '\n' && (free_of(s, '\r') ==> lines_from(s, i)[m][k] != '\r'),
    decreases s.len() - i,
{
    if i < s.len() {
        lemma_line_end(s, i);
        let j = line_end(s, i);
        if j < s.len() {
            lemma_lines_from_chars(s, j + 1);
            let first = strip_cr(s.subrange(i, j));
            assert forall|m: int, k: int|
                0 <= m < lines_from(s, i).len() && 0 <= k < lines_from(s, i)[m].len() implies lines_from(s, i)[m][k]
                    != '\n' && (free_of(s, '\r') ==> lines_from(s, i)[m][k] != '\r') by {
                if m == 0 {
                    assert(lines_from(s, i)[0] == first);
                    assert(first[k] == s[i + k]);
                } else {
                    assert(lines_from(s, i)[m] == lines_from(s, j + 1)[m - 1]);
                }
            }
        } else {
            assert forall|m: int, k: int|
                0 <= m < lines_from(s, i).len() && 0 <= k < lines_from(s, i)[m].len() implies lines_from(s, i)[m][k]
                    != '\n' && (free_of(s, '\r') ==> lines_from(s, i)[m][k] != '\r') by {
                assert(lines_from(s, i)[m] == s.subrange(i, s.len() as int));
                assert(s.subrange(i, s.len() as int)[k] == s[i + k]);
            }
        }
    }
}

/// The lines of a text hold no line break, nor `'\r'` when the text holds
/// none.
pub proof fn lemma_lines_chars(s: Seq<char>)
    ensures
        forall|m: int, k: int|
            0 <= m < lines(s).len() && 0 <= k < lines(s)[m].len() ==> lines(s)[m][k] != '\n' && (free_of(s, '\r')
                ==> lines(s)[m][k] != '\r'),
{
    lemma_lines_from_chars(s, 0);
}

/// Views of a list of character vectors.
pub open spec fn views(v: Seq<Vec<char>>) -> Seq<Seq<char>> {
    v.map_values(|x: Vec<char>| x@)
}

/// `str::lines` on a character sequence.
pub fn lines_of(s: &[char]) -> (r: Vec<Vec<char>>)
    ensures
        views(r@) == lines(s@),
{
    let mut r: Vec<Vec<char>> = Vec::new();
    let mut i: usize = 0;
    while i < s.len()
        invariant
            i <= s.len(),
            views(r@) + lines_from(s@, i as int) == lines(s@),
        decreases s.len() - i,
    {
        proof {
            lemma_line_end(s@, i as int);
        }
        let mut piece: Vec<char> = Vec::new();
        let mut j = i;
        while j < s.len() && s[j] != '\n'
            invariant
                i <= j <= s.len(),
                line_end(s@, i as int) == line_end(s@, j as int),
                piece@ == s@.subrange(i as int, j as int),
            decreases s.len() - j,
        {
            piece.push(s[j]);
            j += 1;
        }
        let ghost old_r = r@;
        if j < s.len() {
            if piece.len() > 0 && piece[piece.len() - 1] == '\r' {
                piece.pop();
            }
            r.push(piece);
            assert(views(r@) =~= views(old_r) + seq![strip_cr(s@.subrange(i as int, j as int))]);
            assert(lines_from(s@, i as int) == seq![strip_cr(s@.subrange(i as int, j as int))]
                + lines_from(s@, j + 1));
            assert(views(r@) + lines_from(s@, j + 1) =~= views(old_r) + lines_from(s@, i as int));
            i = j + 1;
        } else {
            r.push(piece);
            assert(views(r@) =~= views(old_r) + seq![s@.subrange(i as int, s@.len() as int)]);
            assert(lines_from(s@, s@.len() as int) =~= Seq::<Seq<char>>::empty());
            assert(views(r@) + lines_from(s@, s@.len() as int) =~= views(old_r) + lines_from(
                s@,
                i as int,
            ));
            i = j;
        }
    }
    assert(lines_from(s@, i as int) =~= Seq::<Seq<char>>::empty());
    assert(views(r@) + lines_from(s@, i as int) =~= views(r@));
    r
}

// ---------------------------------------------------------------------------
// Joining
// ---------------------------------------------------------------------------

/// `[T]::join`: the parts with `sep` between consecutive ones.
pub open spec fn join(parts: Seq<Seq<char>>, sep: Seq<char>) -> Seq<char>
    decreases parts.len(),
{
    if parts.len() == 0 {
        Seq::empty()
    } else if parts.len() == 1 {
        parts[0]
    } else {
        join(parts.drop_last(), sep) + sep + parts.last()
    }
}

/// Joins the parts with `sep` between consecutive ones.
pub fn join_chars(parts: &[Vec<char>], sep: &[char]) -> (r: Vec<char>)
    ensures
        r@ == join(views(parts@), sep@),
{
    let mut r: Vec<char> = Vec::new();
    let mut i: usize = 0;
    while i < parts.len()
        invariant
            i <= parts.len(),
            r@ == join(views(parts@.take(i as int)), sep@),
        decreases parts.len() - i,
    {
        let ghost prev = views(parts@.take(i as int));
        if i > 0 {
            extend_chars(&mut r, sep);
        }
        extend_chars(&mut r, parts[i].as_slice());
        proof {
            let cur = views(parts@.take(i + 1));
            assert(cur.drop_last() =~= prev);
            assert(cur.last() == parts@[i as int]@);
            if i == 0 {
                assert(prev =~= Seq::<Seq<char>>::empty());
                assert(cur.len() == 1);
                assert(r@ =~= cur[0]);
            } else {
                assert(r@ =~= join(prev, sep@) + sep@ + cur.last());
            }
        }
        i += 1;
    }
    assert(parts@.take(parts.len() as int) =~= parts@);
    r
}

// ---------------------------------------------------------------------------
// Whitespace-separated words
// ---------------------------------------------------------------------------

/// The whitespace-separated words of `s[i..]` (`str::split_whitespace`).
pub open spec fn words_from(s: Seq<char>, i: int) -> Seq<Seq<char>>
    decreases s.len() - i,
{
    if i < 0 || i >= s.len() {
        Seq::empty()
    } else {
        let a = skip_ws(s, i);
        if a >= s.len() {
            Seq::empty()
        } else {
            proof {
                lemma_skip_ws(s, i);
                lemma_word_end(s, a);
            }
            seq![s.subrange(a, word_end(s, a))] + words_from(s, word_end(s, a))
        }
    }
}

/// `str::split_whitespace`.
pub open spec fn words(s: Seq<char>) -> Seq<Seq<char>> {
    words_from(s, 0)
}

/// The words of `s` joined by single spaces.
pub open spec fn normalize_ws(s: Seq<char>) -> Seq<char> {
    join(words(s), seq![' '])
}

/// `str::split_whitespace` on a character sequence.
pub fn words_of(s: &[char]) -> (r: Vec<Vec<char>>)
    ensures
        views(r@) == words(s@),
{
    let mut r: Vec<Vec<char>> = Vec::new();
    let mut i: usize = 0;
    while i < s.len()
        invariant
            i <= s.len(),
            views(r@) + words_from(s@, i as int) == words(s@),
        decreases s.len() - i,
    {
        proof {
            lemma_skip_ws(s@, i as int);
        }
        let mut a = i;
        while a < s.len() && is_whitespace(s[a])
            invariant
                i <= a <= s.len(),
                skip_ws(s@, i as int) == skip_ws(s@, a as int),
            decreases s.len() - a,
        {
            a += 1;
        }
        if a >= s.len() {
            assert(words_from(s@, i as int) =~= Seq::<Seq<char>>::empty());
            assert(views(r@) + words_from(s@, s@.len() as int) =~= views(r@) + words_from(
                s@,
                i as int,
            ));
            i = s.len();
        } else {
            proof {
                lemma_word_end(s@, a as int);
            }
            let mut w: Vec<char> = Vec::new();
            let mut b = a;
            while b < s.len() && !is_whitespace(s[b])
                invariant
                    a <= b <= s.len(),
                    word_end(s@, a as int) == word_end(s@, b as int),
                    w@ == s@.subrange(a as int, b as int),
                decreases s.len() - b,
            {
                w.push(s[b]);
                b += 1;
            }
            let ghost old_r = r@;
            r.push(w);
            assert(views(r@) =~= views(old_r) + seq![s@.subrange(a as int, b as int)]);
            assert(views(r@) + words_from(s@, b as int) =~= views(old_r) + words_from(
                s@,
                i as int,
            ));
            i = b;
        }
    }
    assert(words_from(s@, i as int) =~= Seq::<Seq<char>>::empty());
    assert(views(r@) + words_from(s@, i as int) =~= views(r@));
    r
}

/// The words of `s` joined by single spaces.
pub fn normalize_ws_chars(s: &[char]) -> (r: Vec<char>)
    ensures
        r@ == normalize_ws(s@),
{
    let w = words_of(s);
    let sp: [char; 1] = [' '];
    proof {
        assert(sp@ =~= seq![' ']);
    }
    join_chars(w.as_slice(), &sp)
}

// ---------------------------------------------------------------------------
// Decimal rendering
// ---------------------------------------------------------------------------

/// The decimal digit for `d < 10`.
pub open spec fn digit_char(d: nat) -> char {
    seq!['0', '1', '2', '3', '4', '5', '6', '7', '8', '9'][d as int]
}

/// Decimal rendering of a natural number (as `{}` formats integers).
pub open spec fn decimal(n: nat) -> Seq<char>
    decreases n,
{
    if n < 10 {
        seq![digit_char(n)]
    } else {
        decimal(n / 10).push(digit_char(n % 10))
    }
}

/// Decimal rendering of `n`.
pub fn decimal_chars(n: u64) -> (r: Vec<char>)
    ensures
        r@ == decimal(n as nat),
    decreases n,
{
    let table: [char; 10] = ['0', '1', '2', '3', '4', '5', '6', '7', '8', '9'];
    proof {
        assert(table@ =~= seq!['0', '1', '2', '3', '4', '5', '6', '7', '8', '9']);
    }
    let c = table[(n % 10) as usize];
    if n < 10 {
        let mut r: Vec<char> = Vec::new();
        r.push(c);
        r
    } else {
        let mut r = decimal_chars(n / 10);
        r.push(c);
        r
    }
}


/// Decimal rendering of a wide `n`.
pub fn decimal_chars_wide(n: u128) -> (r: Vec<char>)
    ensures
        r@ == decimal(n as nat),
    decreases n,
{
    let table: [char; 10] = ['0', '1', '2', '3', '4', '5', '6', '7', '8', '9'];
    proof {
        assert(table@ =~= seq!['0', '1', '2', '3', '4', '5', '6', '7', '8', '9']);
    }
    let c = table[(n % 10) as usize];
    if n < 10 {
        let mut r: Vec<char> = Vec::new();
        r.push(c);
        r
    } else {
        let mut r = decimal_chars_wide(n / 10);
        r.push(c);
        r
    }
}

} // verus!

verus! {

// ---------------------------------------------------------------------------
// Matching and replacement
// ---------------------------------------------------------------------------

/// How far the search advances after a match: past it, or one character
/// for the empty pattern (which matches at every position).
pub open spec fn match_step(p: Seq<char>) -> int {
    if p.len() == 0 { 1 } else { p.len() as int }
}

/// Start indices of the non-overlapping matches of `p` in `s` from index `i`,
/// leftmost first (`str::match_indices`).
pub open spec fn match_positions(s: Seq<char>, p: Seq<char>, i: int) -> Seq<int>
    decreases s.len() + 1 - i,
{
    if i < 0 {
        Seq::empty()
    } else {
        match find_from(s, p, i) {
            None => Seq::empty(),
            Some(j) => {
                proof {
                    lemma_find_from(s, p, i);
                }
                seq![j] + match_positions(s, p, j + match_step(p))
            },
        }
    }
}

/// Number of matches of `p` in `s` (`str::matches(..).count()`).
pub open spec fn match_count(s: Seq<char>, p: Seq<char>) -> nat {
    match_positions(s, p, 0).len()
}

/// `s[last..]` with the first `n` matches found from `search` replaced by `t`.
pub open spec fn replace_from(
    s: Seq<char>,
    p: Seq<char>,
    t: Seq<char>,
    last: int,
    search: int,
    n: nat,
) -> Seq<char>
    decreases s.len() + 1 - search,
{
    if n == 0 || search < 0 {
        s.subrange(last, s.len() as int)
    } else {
        match find_from(s, p, search) {
            None => s.subrange(last, s.len() as int),
            Some(j) => {
                proof {
                    lemma_find_from(s, p, search);
                }
                s.subrange(last, j) + t + replace_from(
                    s,
                    p,
                    t,
                    j + p.len(),
                    j + match_step(p),
                    (n - 1) as nat,
                )
            },
        }
    }
}

/// `str::replacen(p, t, n)`: the first `n` matches of `p` replaced by `t`.
pub open spec fn replacen(s: Seq<char>, p: Seq<char>, t: Seq<char>, n: nat) -> Seq<char> {
    replace_from(s, p, t, 0, 0, n)
}

/// Number of non-overlapping matches of `p` in `s`.
pub fn count_matches(s: &[char], p: &[char]) -> (r: usize)
    requires
        s@.len() < usize::MAX,
    ensures
        r == match_count(s@, p@),
{
    let mut count: usize = 0;
    let mut i: usize = 0;
    while i <= s.len()
        invariant
            i <= s.len() + 1,
            s@.len() < usize::MAX,
            count + match_positions(s@, p@, i as int).len() == match_count(s@, p@),
            count <= i,
        decreases s.len() + 1 - i,
    {
        proof {
            lemma_find_from(s@, p@, i as int);
        }
        match find_chars_from(s, p, i) {
            None => {
                return count;
            },
            Some(j) => {
                count = count + 1;
                if p.len() == 0 {
                    i = j + 1;
                } else {
                    i = j + p.len();
                }
                assert(count + match_positions(s@, p@, i as int).len() == match_count(s@, p@));
            },
        }
    }
    proof {
        assert(find_from(s@, p@, i as int) is None);
    }
    count
}

/// `str::replacen`: replaces the first `n` matches of `p` in `s` by `t`.
pub fn replacen_chars(s: &[char], p: &[char], t: &[char], n: usize) -> (r: Vec<char>)
    ensures
        r@ == replacen(s@, p@, t@, n as nat),
{
    let mut r: Vec<char> = Vec::new();
    let mut last: usize = 0;
    let mut search: usize = 0;
    let mut k: usize = n;
    loop
        invariant
            last <= search <= s.len() + 1,
            last <= s.len(),
            r@ + replace_from(s@, p@, t@, last as int, search as int, k as nat) == replacen(
                s@,
                p@,
                t@,
                n as nat,
            ),
        ensures
            last <= s.len(),
            r@ + s@.subrange(last as int, s@.len() as int) == replacen(s@, p@, t@, n as nat),
        decreases s.len() + 1 - search,
    {
        if k == 0 || search > s.len() {
            proof {
                if search > s.len() {
                    assert(find_from(s@, p@, search as int) is None);
                }
            }
            break;
        }
        proof {
            lemma_find_from(s@, p@, search as int);
        }
        match find_chars_from(s, p, search) {
            None => {
                break;
            },
            Some(j) => {
                let ghost old_r = r@;
                let ghost old_last = last;
                let ghost old_search = search;
                let ghost old_k = k;
                let mut m = last;
                while m < j
                    invariant
                        last <= m <= j <= s.len(),
                        r@ == old_r + s@.subrange(last as int, m as int),
                    decreases j - m,
                {
                    r.push(s[m]);
                    m += 1;
                }
                extend_chars(&mut r, t);
                assert(r@ == old_r + s@.subrange(last as int, j as int) + t@);
                last = j + p.len();
                if p.len() == 0 && j == s.len() {
                    proof {
                        assert(replace_from(s@, p@, t@, old_last as int, old_search as int, old_k as nat)
                            == s@.subrange(old_last as int, j as int) + t@ + replace_from(
                            s@,
                            p@,
                            t@,
                            j as int,
                            j + 1,
                            (old_k - 1) as nat,
                        ));
                        assert(find_from(s@, p@, j + 1) is None);
                        assert(replace_from(s@, p@, t@, j as int, j + 1, (old_k - 1) as nat)
                            =~= Seq::<char>::empty());
                        assert(r@ =~= replacen(s@, p@, t@, n as nat));
                    }
                    return r;
                }
                search = if p.len() == 0 { j + 1 } else { j + p.len() };
                k = k - 1;
                assert(replace_from(s@, p@, t@, old_last as int, old_search as int, old_k as nat)
                    == s@.subrange(old_last as int, j as int) + t@ + replace_from(
                    s@,
                    p@,
                    t@,
                    last as int,
                    search as int,
                    k as nat,
                ));
                assert(r@ + replace_from(s@, p@, t@, last as int, search as int, k as nat) =~= old_r
                    + replace_from(s@, p@, t@, old_last as int, old_search as int, old_k as nat));
            },
        }
    }
    let ghost before = r@;
    let mut m = last;
    while m < s.len()
        invariant
            last <= m <= s.len(),
            r@ == before + s@.subrange(last as int, m as int),
        decreases s.len() - m,
    {
        r.push(s[m]);
        m += 1;
    }
    r
}

} // verus!

verus! {

/// Byte length of `s` when it is at most `limit`; `None` when it is larger.
pub fn utf8_len_at_most(s: &[char], limit: usize) -> (r: Option<usize>)
    ensures
        match r {
            Some(n) => n == utf8_len(s@) && n <= limit,
            None => utf8_len(s@) > limit,
        },
{
    let mut acc: usize = 0;
    let mut i: usize = 0;
    while i < s.len()
        invariant
            i <= s.len(),
            acc == utf8_len(s@.take(i as int)),
            acc <= limit,
        decreases s.len() - i,
    {
        let w = char_len_utf8(s[i]);
        proof {
            assert(s@.take(i + 1).drop_last() =~= s@.take(i as int));
            assert(utf8_len(s@.take(i + 1)) == acc + w);
            lemma_utf8_len_concat(s@.take(i + 1), s@.skip(i + 1));
            assert(s@.take(i + 1) + s@.skip(i + 1) =~= s@);
        }
        if w > limit - acc {
            return None;
        }
        acc = acc + w;
        i += 1;
    }
    assert(s@.take(i as int) =~= s@);
    Some(acc)
}

} // verus!

verus! {

/// Whether two character sequences are equal.
pub fn chars_eq(a: &[char], b: &[char]) -> (r: bool)
    ensures
        r == (a@ == b@),
{
    if a.len() != b.len() {
        return false;
    }
    let r = matches_at(a, b, 0);
    assert(a@.subrange(0, a@.len() as int) =~= a@);
    r
}

/// A copy of a slice of character vectors.
pub fn clone_lines(v: &[Vec<char>], from: usize, to: usize) -> (r: Vec<Vec<char>>)
    requires
        from <= to <= v.len(),
    ensures
        views(r@) == views(v@).subrange(from as int, to as int),
{
    let mut r: Vec<Vec<char>> = Vec::new();
    let mut i = from;
    while i < to
        invariant
            from <= i <= to <= v.len(),
            views(r@) == views(v@).subrange(from as int, i as int),
        decreases to - i,
    {
        let line = v[i].clone();
        let ghost old_r = r@;
        r.push(line);
        assert(views(r@) =~= views(old_r).push(v@[i as int]@));
        assert(views(v@).subrange(from as int, i + 1) =~= views(v@).subrange(from as int, i as int).push(
            v@[i as int]@,
        ));
        i += 1;
    }
    r
}

} // verus!

verus! {

/// `str::starts_with` against a string slice.
pub fn starts_with_str(s: &[char], lit: &str) -> (r: bool)
    ensures
        r == starts_with(s@, lit@),
{
    let l = chars_of(lit);
    starts_with_chars(s, l.as_slice())
}

/// The characters `s[from..]`.
pub fn skip_chars(s: &[char], from: usize) -> (r: Vec<char>)
    requires
        from <= s.len(),
    ensures
        r@ == s@.subrange(from as int, s@.len() as int),
{
    let mut r: Vec<char> = Vec::new();
    let mut i = from;
    while i < s.len()
        invariant
            from <= i <= s.len(),
            r@ == s@.subrange(from as int, i as int),
        decreases s.len() - i,
    {
        r.push(s[i]);
        i += 1;
    }
    r
}

} // verus!

verus! {

// ---------------------------------------------------------------------------
// Ordering
// ---------------------------------------------------------------------------

/// `a <= b` in the order of `str`'s `Ord`.  That order compares the UTF-8
/// bytes lexicographically, which orders strings exactly as comparing their
/// characters by code point does.
pub open spec fn lex_le(a: Seq<char>, b: Seq<char>) -> bool
    decreases a.len(),
{
    if a.len() == 0 {
        true
    } else if b.len() == 0 {
        false
    } else if a[0] != b[0] {
        (a[0] as int) < (b[0] as int)
    } else {
        lex_le(a.drop_first(), b.drop_first())
    }
}

/// Any two strings are ordered one way or the other.
pub proof fn lemma_lex_total(a: Seq<char>, b: Seq<char>)
    ensures
        lex_le(a, b) || lex_le(b, a),
    decreases a.len(),
{
    if a.len() > 0 && b.len() > 0 && a[0] == b[0] {
        lemma_lex_total(a.drop_first(), b.drop_first());
    }
}

/// The order is transitive.
pub proof fn lemma_lex_trans(a: Seq<char>, b: Seq<char>, c: Seq<char>)
    requires
        lex_le(a, b),
        lex_le(b, c),
    ensures
        lex_le(a, c),
    decreases a.len(),
{
    if a.len() > 0 && b.len() > 0 && c.len() > 0 && a[0] == b[0] && b[0] == c[0] {
        lemma_lex_trans(a.drop_first(), b.drop_first(), c.drop_first());
    }
}

/// Whether `a <= b` in string order.
pub fn lex_le_chars(a: &[char], b: &[char]) -> (r: bool)
    ensures
        r == lex_le(a@, b@),
{
    let mut i: usize = 0;
    assert(a@.skip(0) =~= a@);
    assert(b@.skip(0) =~= b@);
    while i < a.len() && i < b.len() && a[i] == b[i]
        invariant
            i <= a.len(),
            i <= b.len(),
            lex_le(a@, b@) == lex_le(a@.skip(i as int), b@.skip(i as int)),
        decreases a.len() - i,
    {
        assert(a@.skip(i as int).drop_first() =~= a@.skip(i + 1));
        assert(b@.skip(i as int).drop_first() =~= b@.skip(i + 1));
        i += 1;
    }
    if i == a.len() {
        true
    } else if i == b.len() {
        false
    } else {
        assert(a@.skip(i as int)[0] == a@[i as int]);
        assert(b@.skip(i as int)[0] == b@[i as int]);
        a[i] < b[i]
    }
}

/// The characters of `v` from `from` up to `to`.
pub fn subrange_chars(v: &[char], from: usize, to: usize) -> (r: Vec<char>)
    requires
        from <= to <= v@.len(),
    ensures
        r@ == v@.subrange(from as int, to as int),
{
    let mut r: Vec<char> = Vec::new();
    let mut k = from;
    while k < to
        invariant
            from <= k <= to,
            to <= v@.len(),
            r@ == v@.subrange(from as int, k as int),
        decreases to - k,
    {
        r.push(v[k]);
        assert(v@.subrange(from as int, k + 1) == v@.subrange(from as int, k as int).push(v@[k as int]));
        k = k + 1;
    }
    r
}

/// The strings are in ascending string order.
pub open spec fn strings_sorted(s: Seq<String>) -> bool {
    forall|i: int, j: int| 0 <= i < j < s.len() ==> lex_le(#[trigger] s[i]@, #[trigger] s[j]@)
}

/// Stable insertion sort of strings into ascending string order
/// (`slice::sort` on `String`s).
pub fn sort_strings(v: Vec<String>) -> (r: Vec<String>)
    ensures
        r@.to_multiset() == v@.to_multiset(),
        strings_sorted(r@),
{
    let ghost orig = v@;
    let mut rest = v;
    let mut out: Vec<String> = Vec::new();
    proof {
        vstd::seq_lib::to_multiset_len(out@);
        assert(out@.to_multiset() =~= vstd::multiset::Multiset::empty());
        assert(out@.to_multiset().add(rest@.to_multiset()) =~= orig.to_multiset());
    }
    while rest.len() > 0
        invariant
            out@.to_multiset().add(rest@.to_multiset()) == orig.to_multiset(),
            strings_sorted(out@),
        decreases rest.len(),
    {
        let ghost before_rest = rest@;
        let x = rest.remove(0);
        assert(before_rest.remove(0) == rest@);
        let xc = chars_of(x.as_str());
        let mut p: usize = out.len();
        while p > 0 && !lex_le_chars(chars_of(out[p - 1].as_str()).as_slice(), xc.as_slice())
            invariant
                p <= out.len(),
                xc@ == x@,
                forall|k: int| p <= k < out.len() ==> !lex_le(#[trigger] out@[k]@, x@),
            decreases p,
        {
            p = p - 1;
        }
        let ghost old_out = out@;
        proof {
            assert forall|k: int| p <= k < old_out.len() implies lex_le(x@, #[trigger] old_out[k]@) by {
                lemma_lex_total(old_out[k]@, x@);
            }
            if p > 0 {
                assert forall|k: int| 0 <= k < p implies lex_le(#[trigger] old_out[k]@, x@) by {
                    if k < p - 1 {
                        lemma_lex_trans(old_out[k]@, old_out[p - 1]@, x@);
                    }
                }
            }
        }
        out.insert(p, x);
        proof {
            let n = out@;
            assert forall|i: int, j: int| 0 <= i < j < n.len() implies lex_le(#[trigger] n[i]@, #[trigger] n[j]@) by {
                if i < p && j < p {
                    assert(n[i] == old_out[i] && n[j] == old_out[j]);
                } else if i < p && j == p {
                } else if i < p && j > p {
                    assert(n[j] == old_out[j - 1]);
                    assert(lex_le(old_out[i]@, old_out[j - 1]@));
                } else if i == p {
                    assert(n[j] == old_out[j - 1]);
                } else {
                    assert(n[i] == old_out[i - 1] && n[j] == old_out[j - 1]);
                }
            }
            assert(before_rest.to_multiset() == rest@.to_multiset().insert(x)) by {
                assert(before_rest =~= rest@.insert(0, x));
                vstd::seq_lib::to_multiset_insert(rest@, 0, x);
            }
            vstd::seq_lib::to_multiset_insert(old_out, p as int, x);
            assert(out@.to_multiset().add(rest@.to_multiset()) =~= orig.to_multiset());
        }
    }
    proof {
        vstd::seq_lib::to_multiset_len(rest@);
        assert(rest@.to_multiset() =~= vstd::multiset::Multiset::empty());
        assert(out@.to_multiset().add(rest@.to_multiset()) =~= out@.to_multiset());
    }
    out
}

// ---------------------------------------------------------------------------
// Decimal numbers
// ---------------------------------------------------------------------------

/// An ASCII decimal digit.
pub open spec fn is_digit(c: char) -> bool {
    '0' <= c && c <= '9'
}

/// A decimal digit of any script: the characters of Unicode's general
/// category Nd (Decimal_Number, Unicode 16.0), which `\d` matches.
pub open spec fn is_decimal_digit(c: char) -> bool {
    let u = c as u32;
    (0x30 <= u && u <= 0x39) || (0x660 <= u && u <= 0x669) || (0x6F0 <= u && u <= 0x6F9)
        || (0x7C0 <= u && u <= 0x7C9) || (0x966 <= u && u <= 0x96F) || (0x9E6 <= u && u <= 0x9EF)
        || (0xA66 <= u && u <= 0xA6F) || (0xAE6 <= u && u <= 0xAEF) || (0xB66 <= u && u <= 0xB6F)
        || (0xBE6 <= u && u <= 0xBEF) || (0xC66 <= u && u <= 0xC6F) || (0xCE6 <= u && u <= 0xCEF)
        || (0xD66 <= u && u <= 0xD6F) || (0xDE6 <= u && u <= 0xDEF) || (0xE50 <= u && u <= 0xE59)
        || (0xED0 <= u && u <= 0xED9) || (0xF20 <= u && u <= 0xF29) || (0x1040 <= u && u <= 0x1049)
        || (0x1090 <= u && u <= 0x1099) || (0x17E0 <= u && u <= 0x17E9) || (0x1810 <= u && u <= 0x1819)
        || (0x1946 <= u && u <= 0x194F) || (0x19D0 <= u && u <= 0x19D9) || (0x1A80 <= u && u <= 0x1A89)
        || (0x1A90 <= u && u <= 0x1A99) || (0x1B50 <= u && u <= 0x1B59) || (0x1BB0 <= u && u <= 0x1BB9)
        || (0x1C40 <= u && u <= 0x1C49) || (0x1C50 <= u && u <= 0x1C59) || (0xA620 <= u && u <= 0xA629)
        || (0xA8D0 <= u && u <= 0xA8D9) || (0xA900 <= u && u <= 0xA909) || (0xA9D0 <= u && u <= 0xA9D9)
        || (0xA9F0 <= u && u <= 0xA9F9) || (0xAA50 <= u && u <= 0xAA59) || (0xABF0 <= u && u <= 0xABF9)
        || (0xFF10 <= u && u <= 0xFF19) || (0x104A0 <= u && u <= 0x104A9) || (0x10D30 <= u && u <= 0x10D39)
        || (0x10D40 <= u && u <= 0x10D49) || (0x11066 <= u && u <= 0x1106F) || (0x110F0 <= u && u <= 0x110F9)
        || (0x11136 <= u && u <= 0x1113F) || (0x111D0 <= u && u <= 0x111D9) || (0x112F0 <= u && u <= 0x112F9)
        || (0x11450 <= u && u <= 0x11459) || (0x114D0 <= u && u <= 0x114D9) || (0x11650 <= u && u <= 0x11659)
        || (0x116C0 <= u && u <= 0x116C9) || (0x116D0 <= u && u <= 0x116E3) || (0x11730 <= u && u <= 0x11739)
        || (0x118E0 <= u && u <= 0x118E9) || (0x11950 <= u && u <= 0x11959) || (0x11BF0 <= u && u <= 0x11BF9)
        || (0x11C50 <= u && u <= 0x11C59) || (0x11D50 <= u && u <= 0x11D59) || (0x11DA0 <= u && u <= 0x11DA9)
        || (0x11F50 <= u && u <= 0x11F59) || (0x16130 <= u && u <= 0x16139) || (0x16A60 <= u && u <= 0x16A69)
        || (0x16AC0 <= u && u <= 0x16AC9) || (0x16B50 <= u && u <= 0x16B59) || (0x16D70 <= u && u <= 0x16D79)
        || (0x1CCF0 <= u && u <= 0x1CCF9) || (0x1D7CE <= u && u <= 0x1D7FF) || (0x1E140 <= u && u <= 0x1E149)
        || (0x1E2F0 <= u && u <= 0x1E2F9) || (0x1E4F0 <= u && u <= 0x1E4F9) || (0x1E5F1 <= u && u <= 0x1E5FA)
        || (0x1E950 <= u && u <= 0x1E959) || (0x1FBF0 <= u && u <= 0x1FBF9)
}

/// Whether `c` is a decimal digit of any script.
pub fn decimal_digit(c: char) -> (r: bool)
    ensures
        r == is_decimal_digit(c),
{
    let u = c as u32;
    (0x30 <= u && u <= 0x39) || (0x660 <= u && u <= 0x669) || (0x6F0 <= u && u <= 0x6F9)
        || (0x7C0 <= u && u <= 0x7C9) || (0x966 <= u && u <= 0x96F) || (0x9E6 <= u && u <= 0x9EF)
        || (0xA66 <= u && u <= 0xA6F) || (0xAE6 <= u && u <= 0xAEF) || (0xB66 <= u && u <= 0xB6F)
        || (0xBE6 <= u && u <= 0xBEF) || (0xC66 <= u && u <= 0xC6F) || (0xCE6 <= u && u <= 0xCEF)
        || (0xD66 <= u && u <= 0xD6F) || (0xDE6 <= u && u <= 0xDEF) || (0xE50 <= u && u <= 0xE59)
        || (0xED0 <= u && u <= 0xED9) || (0xF20 <= u && u <= 0xF29) || (0x1040 <= u && u <= 0x1049)
        || (0x1090 <= u && u <= 0x1099) || (0x17E0 <= u && u <= 0x17E9) || (0x1810 <= u && u <= 0x1819)
        || (0x1946 <= u && u <= 0x194F) || (0x19D0 <= u && u <= 0x19D9) || (0x1A80 <= u && u <= 0x1A89)
        || (0x1A90 <= u && u <= 0x1A99) || (0x1B50 <= u && u <= 0x1B59) || (0x1BB0 <= u && u <= 0x1BB9)
        || (0x1C40 <= u && u <= 0x1C49) || (0x1C50 <= u && u <= 0x1C59) || (0xA620 <= u && u <= 0xA629)
        || (0xA8D0 <= u && u <= 0xA8D9) || (0xA900 <= u && u <= 0xA909) || (0xA9D0 <= u && u <= 0xA9D9)
        || (0xA9F0 <= u && u <= 0xA9F9) || (0xAA50 <= u && u <= 0xAA59) || (0xABF0 <= u && u <= 0xABF9)
        || (0xFF10 <= u && u <= 0xFF19) || (0x104A0 <= u && u <= 0x104A9) || (0x10D30 <= u && u <= 0x10D39)
        || (0x10D40 <= u && u <= 0x10D49) || (0x11066 <= u && u <= 0x1106F) || (0x110F0 <= u && u <= 0x110F9)
        || (0x11136 <= u && u <= 0x1113F) || (0x111D0 <= u && u <= 0x111D9) || (0x112F0 <= u && u <= 0x112F9)
        || (0x11450 <= u && u <= 0x11459) || (0x114D0 <= u && u <= 0x114D9) || (0x11650 <= u && u <= 0x11659)
        || (0x116C0 <= u && u <= 0x116C9) || (0x116D0 <= u && u <= 0x116E3) || (0x11730 <= u && u <= 0x11739)
        || (0x118E0 <= u && u <= 0x118E9) || (0x11950 <= u && u <= 0x11959) || (0x11BF0 <= u && u <= 0x11BF9)
        || (0x11C50 <= u && u <= 0x11C59) || (0x11D50 <= u && u <= 0x11D59) || (0x11DA0 <= u && u <= 0x11DA9)
        || (0x11F50 <= u && u <= 0x11F59) || (0x16130 <= u && u <= 0x16139) || (0x16A60 <= u && u <= 0x16A69)
        || (0x16AC0 <= u && u <= 0x16AC9) || (0x16B50 <= u && u <= 0x16B59) || (0x16D70 <= u && u <= 0x16D79)
        || (0x1CCF0 <= u && u <= 0x1CCF9) || (0x1D7CE <= u && u <= 0x1D7FF) || (0x1E140 <= u && u <= 0x1E149)
        || (0x1E2F0 <= u && u <= 0x1E2F9) || (0x1E4F0 <= u && u <= 0x1E4F9) || (0x1E5F1 <= u && u <= 0x1E5FA)
        || (0x1E950 <= u && u <= 0x1E959) || (0x1FBF0 <= u && u <= 0x1FBF9)
}

/// Numeric value of a run of decimal digits.
pub open spec fn digits_value(d: Seq<char>) -> nat
    decreases d.len(),
{
    if d.len() == 0 {
        0
    } else {
        digits_value(d.drop_last()) * 10 + ((d.last() as u32) - ('0' as u32)) as nat
    }
}

/// `usize` parse of a digit group: its value when it fits.
pub open spec fn parse_usize(d: Seq<char>) -> Option<usize> {
    if digits_value(d) <= usize::MAX { Some(digits_value(d) as usize) } else { None }
}

/// `usize` value of the digits `s[a..b]`, when it fits.
pub fn parse_digits(s: &[char], a: usize, b: usize) -> (r: Option<usize>)
    requires
        a <= b <= s.len(),
        forall|k: int| a <= k < b ==> is_digit(#[trigger] s@[k]),
    ensures
        r == parse_usize(s@.subrange(a as int, b as int)),
{
    let mut v: usize = 0;
    let mut i = a;
    while i < b
        invariant
            a <= i <= b <= s.len(),
            forall|k: int| a <= k < b ==> is_digit(#[trigger] s@[k]),
            v == digits_value(s@.subrange(a as int, i as int)),
        decreases b - i,
    {
        let d = ((s[i] as u32) - ('0' as u32)) as usize;
        assert(s@.subrange(a as int, i + 1).drop_last() =~= s@.subrange(a as int, i as int));
        if v > (usize::MAX - d) / 10 {
            proof {
                assert(digits_value(s@.subrange(a as int, i + 1)) == v * 10 + d);
                lemma_digits_value_mono(s@.subrange(a as int, b as int), (i + 1 - a) as int);
                assert(s@.subrange(a as int, b as int).subrange(0, (i + 1 - a) as int) =~= s@.subrange(
                    a as int,
                    i + 1,
                ));
                assert(v * 10 + d > usize::MAX) by (nonlinear_arith)
                    requires
                        v > (usize::MAX - d) / 10,
                        d <= 9,
                ;
            }
            return None;
        }
        assert(v * 10 + d <= usize::MAX) by (nonlinear_arith)
            requires
                v <= (usize::MAX - d) / 10,
                d <= 9,
        ;
        v = v * 10 + d;
        i += 1;
    }
    Some(v)
}

/// A prefix's value never exceeds the whole's value.
pub proof fn lemma_digits_value_mono(d: Seq<char>, n: int)
    requires
        0 <= n <= d.len(),
        forall|k: int| 0 <= k < d.len() ==> is_digit(#[trigger] d[k]),
    ensures
        digits_value(d.subrange(0, n)) <= digits_value(d),
    decreases d.len() - n,
{
    if n < d.len() {
        lemma_digits_value_mono(d, n + 1);
        let p = d.subrange(0, n + 1);
        assert(p.drop_last() =~= d.subrange(0, n));
        assert(digits_value(p) >= digits_value(d.subrange(0, n))) by (nonlinear_arith)
            requires
                digits_value(p) == digits_value(d.subrange(0, n)) * 10 + ((p.last() as u32) - ('0' as u32)) as nat,
        ;
    } else {
        assert(d.subrange(0, n) =~= d);
    }
}

/// `usize::from_str`: an optional `+` followed by one or more ASCII digits
/// whose value fits in `usize`.
pub open spec fn usize_from_str(s: Seq<char>) -> Option<usize> {
    let d = unsigned_part(s);
    if d.len() == 0 || exists|k: int| 0 <= k < d.len() && !is_digit(#[trigger] d[k]) {
        None
    } else {
        parse_usize(d)
    }
}

/// The characters after an optional leading `+`.
pub open spec fn unsigned_part(s: Seq<char>) -> Seq<char> {
    if s.len() > 0 && s[0] == '+' { s.drop_first() } else { s }
}

/// Parses a `usize` as `str::parse::<usize>` does.
pub fn parse_usize_chars(s: &[char]) -> (r: Option<usize>)
    ensures
        r == usize_from_str(s@),
{
    let start: usize = if s.len() > 0 && s[0] == '+' { 1 } else { 0 };
    proof {
        if start == 1 {
            assert(s@.drop_first() =~= s@.subrange(1, s@.len() as int));
        } else {
            assert(s@ =~= s@.subrange(0, s@.len() as int));
        }
    }
    if start == s.len() {
        return None;
    }
    let mut k = start;
    while k < s.len()
        invariant
            start <= k <= s.len(),
            start == (if s@.len() > 0 && s@[0] == '+' { 1usize } else { 0usize }),
            forall|m: int| start <= m < k ==> is_digit(#[trigger] s@[m]),
        decreases s.len() - k,
    {
        if !('0' <= s[k] && s[k] <= '9') {
            proof {
                let d = unsigned_part(s@);
                assert(d =~= s@.subrange(start as int, s@.len() as int));
                assert(!is_digit(d[k - start]));
            }
            return None;
        }
        k += 1;
    }
    proof {
        let d = s@.subrange(start as int, s@.len() as int);
        assert forall|m: int| 0 <= m < d.len() implies is_digit(#[trigger] d[m]) by {
            assert(d[m] == s@[start + m]);
        }
    }
    parse_digits(s, start, s.len())
}

/// The characters of an optional string.
pub open spec fn opt_chars(o: Option<String>) -> Option<Seq<char>> {
    match o {
        Some(s) => Some(s@),
        None => None,
    }
}

/// Every string held in memory has a byte length that fits in `usize`.
pub fn utf8_fits(s: &str)
    ensures
        utf8_len(s@) <= usize::MAX,
{
    let n = s.as_bytes().len();
    proof {
        lemma_utf8_len_encode(s@);
    }
}

} // verus!
