//! Parsing of unified diffs into hunks, and applying hunks to file content.
use vstd::prelude::*;
use crate::text::{
    is_digit, is_decimal_digit, decimal_digit, parse_digits, usize_from_str, unsigned_part,
    skip_chars, starts_with_str, chars_of, is_whitespace, join, join_chars, lines, lines_of,
    skip_ws, starts_with, string_of, views, decimal, decimal_chars, extend_chars, extend_str,
};
use crate::tools::domain::json_value::{jget, jstr, JsonValue};
use crate::tools::domain::xml_builder::{success_xml, XmlBuilder};

verus! {

/// Applies unified diff patches to files below a base directory.
pub struct ApplyPatchTool {
    /// Base directory for file operations.
    pub base_dir: String,
}

/// The numbers of a hunk header `@@ -old_start,old_count +new_start,new_count @@`.
#[derive(Debug, Clone, Copy, PartialEq, Eq, Structural)]
pub struct HunkInfo {
    pub old_start: usize,
    pub old_count: usize,
    pub new_start: usize,
    pub new_count: usize,
}

/// One hunk: where it starts, and its lines before and after the change.
#[derive(Debug, Clone)]
pub struct PatchHunk {
    pub old_start: usize,
    pub new_start: usize,
    pub old_lines: Vec<String>,
    pub new_lines: Vec<String>,
}

/// Abstract view of a hunk.
pub struct HunkView {
    pub old_start: usize,
    pub new_start: usize,
    pub old_lines: Seq<Seq<char>>,
    pub new_lines: Seq<Seq<char>>,
}

/// Views of a list of strings.
pub open spec fn string_views(v: Seq<String>) -> Seq<Seq<char>> {
    v.map_values(|s: String| s@)
}

impl PatchHunk {
    pub open spec fn view(&self) -> HunkView {
        HunkView {
            old_start: self.old_start,
            new_start: self.new_start,
            old_lines: string_views(self.old_lines@),
            new_lines: string_views(self.new_lines@),
        }
    }
}

// ---------------------------------------------------------------------------
// Hunk header grammar: `@@ \s* - d+ ,? d* \s* + d+ ,? d* \s* @@`, searched
// leftmost in the line.
// ---------------------------------------------------------------------------

/// End of the run of decimal digits (of any script) starting at `i`.
pub open spec fn digits_end(s: Seq<char>, i: int) -> int
    decreases s.len() - i,
{
    if i < 0 || i >= s.len() {
        s.len() as int
    } else if is_decimal_digit(s[i]) {
        digits_end(s, i + 1)
    } else {
        i
    }
}

/// Digit groups of a hunk header match.
pub struct HeaderGroups {
    pub old_start: Seq<char>,
    pub old_count: Option<Seq<char>>,
    pub new_start: Seq<char>,
    pub new_count: Option<Seq<char>>,
}

pub open spec fn char_at(s: Seq<char>, i: int, c: char) -> bool {
    0 <= i < s.len() && s[i] == c
}

/// Position after an optional comma.
pub open spec fn skip_comma(s: Seq<char>, i: int) -> int {
    if char_at(s, i, ',') { i + 1 } else { i }
}

/// An optional digit group: `None` when empty.
pub open spec fn opt_group(s: Seq<char>, a: int, b: int) -> Option<Seq<char>> {
    if a < b { Some(s.subrange(a, b)) } else { None }
}

/// The header pattern matched at position `k`, with its groups.
pub open spec fn header_match_at(s: Seq<char>, k: int) -> Option<HeaderGroups> {
    let p1 = skip_ws(s, k + 2);
    let a1 = p1 + 1;
    let b1 = digits_end(s, a1);
    let a2 = skip_comma(s, b1);
    let b2 = digits_end(s, a2);
    let p2 = skip_ws(s, b2);
    let a3 = p2 + 1;
    let b3 = digits_end(s, a3);
    let a4 = skip_comma(s, b3);
    let b4 = digits_end(s, a4);
    let p3 = skip_ws(s, b4);
    if 0 <= k && char_at(s, k, '@') && char_at(s, k + 1, '@') && char_at(s, p1, '-') && a1 < b1
        && char_at(s, p2, '+') && a3 < b3 && char_at(s, p3, '@') && char_at(s, p3 + 1, '@') {
        Some(
            HeaderGroups {
                old_start: s.subrange(a1, b1),
                old_count: opt_group(s, a2, b2),
                new_start: s.subrange(a3, b3),
                new_count: opt_group(s, a4, b4),
            },
        )
    } else {
        None
    }
}

/// The leftmost match of the header pattern at or after `k`.
pub open spec fn header_search(s: Seq<char>, k: int) -> Option<HeaderGroups>
    decreases s.len() - k,
{
    if k < 0 || k >= s.len() {
        None
    } else {
        match header_match_at(s, k) {
            Some(g) => Some(g),
            None => header_search(s, k + 1),
        }
    }
}

/// What `parse_hunk_header` answers.
pub open spec fn hunk_header(line: Seq<char>) -> Result<HunkInfo, Seq<char>> {
    match header_search(line, 0) {
        None => Err("Invalid hunk header format"@),
        Some(g) => groups_info(g),
    }
}

/// The header numbers from the matched digit groups.
pub open spec fn groups_info(g: HeaderGroups) -> Result<HunkInfo, Seq<char>> {
    match usize_from_str(g.old_start) {
            None => Err("Invalid old_start"@),
            Some(os) => match usize_from_str(g.new_start) {
                None => Err("Invalid new_start"@),
                Some(ns) => Ok(
                    HunkInfo {
                        old_start: os,
                        old_count: match g.old_count {
                            Some(d) => match usize_from_str(d) {
                                Some(v) => v,
                                None => 1,
                            },
                            None => 1,
                        },
                        new_start: ns,
                        new_count: match g.new_count {
                            Some(d) => match usize_from_str(d) {
                                Some(v) => v,
                                None => 1,
                            },
                            None => 1,
                        },
                    },
                ),
            },
    }
}

pub proof fn lemma_digits_end(s: Seq<char>, i: int)
    requires
        0 <= i <= s.len(),
    ensures
        i <= digits_end(s, i) <= s.len(),
        forall|k: int| i <= k < digits_end(s, i) ==> is_decimal_digit(#[trigger] s[k]),
        digits_end(s, i) < s.len() ==> !is_decimal_digit(s[digits_end(s, i)]),
    decreases s.len() - i,
{
    if i < s.len() && is_decimal_digit(s[i]) {
        lemma_digits_end(s, i + 1);
    }
}

/// End of the digit run starting at `i`.
fn scan_digits(s: &[char], i: usize) -> (r: usize)
    requires
        i <= s.len(),
    ensures
        r == digits_end(s@, i as int),
{
    let mut j = i;
    while j < s.len() && decimal_digit(s[j])
        invariant
            i <= j <= s.len(),
            digits_end(s@, i as int) == digits_end(s@, j as int),
        decreases s.len() - j,
    {
        j += 1;
    }
    j
}

/// Position of the first non-whitespace character at or after `i`.
fn scan_ws(s: &[char], i: usize) -> (r: usize)
    requires
        i <= s.len(),
    ensures
        r == skip_ws(s@, i as int),
{
    let mut j = i;
    while j < s.len() && is_whitespace(s[j])
        invariant
            i <= j <= s.len(),
            skip_ws(s@, i as int) == skip_ws(s@, j as int),
        decreases s.len() - j,
    {
        j += 1;
    }
    j
}

fn has_at(s: &[char], i: usize, c: char) -> (r: bool)
    ensures
        r == char_at(s@, i as int, c),
{
    i < s.len() && s[i] == c
}

fn skip_comma_at(s: &[char], i: usize) -> (r: usize)
    requires
        i <= s.len(),
    ensures
        r == skip_comma(s@, i as int),
        r <= s.len(),
{
    if has_at(s, i, ',') {
        i + 1
    } else {
        i
    }
}

proof fn lemma_skip_ws_bound(s: Seq<char>, i: int)
    requires
        0 <= i,
    ensures
        skip_ws(s, i) <= s.len(),
        i <= s.len() ==> i <= skip_ws(s, i),
{
    if i <= s.len() {
        crate::text::lemma_skip_ws(s, i);
    }
}

/// The header pattern at position `k`.
fn match_header_at(s: &[char], k: usize) -> (r: Option<(usize, usize, usize, usize, usize, usize, usize, usize)>)
    requires
        k < s.len(),
    ensures
        match r {
            None => header_match_at(s@, k as int) is None,
            Some((a1, b1, a2, b2, a3, b3, a4, b4)) => header_match_at(s@, k as int) == Some(
                HeaderGroups {
                    old_start: s@.subrange(a1 as int, b1 as int),
                    old_count: opt_group(s@, a2 as int, b2 as int),
                    new_start: s@.subrange(a3 as int, b3 as int),
                    new_count: opt_group(s@, a4 as int, b4 as int),
                },
            ) && a1 < b1 <= s.len() && a2 <= b2 <= s.len() && a3 < b3 <= s.len() && a4 <= b4
                <= s.len() && a2 >= b1 && a4 >= b3 && (forall|k: int| a1 <= k < b1 ==> is_decimal_digit(
                #[trigger] s@[k],
            )) && (forall|k: int| a2 <= k < b2 ==> is_decimal_digit(#[trigger] s@[k])) && (forall|k: int|
                a3 <= k < b3 ==> is_decimal_digit(#[trigger] s@[k])) && (forall|k: int| a4 <= k < b4 ==> is_decimal_digit(
                #[trigger] s@[k],
            )),
        },
{
    if !(has_at(s, k, '@') && has_at(s, k + 1, '@')) {
        return None;
    }
    proof {
        lemma_skip_ws_bound(s@, k + 2);
    }
    let p1 = scan_ws(s, k + 2);
    if !has_at(s, p1, '-') {
        return None;
    }
    let a1 = p1 + 1;
    proof {
        lemma_digits_end(s@, a1 as int);
    }
    let b1 = scan_digits(s, a1);
    let a2 = skip_comma_at(s, b1);
    proof {
        lemma_digits_end(s@, a2 as int);
    }
    let b2 = scan_digits(s, a2);
    proof {
        lemma_skip_ws_bound(s@, b2 as int);
    }
    let p2 = scan_ws(s, b2);
    if !(a1 < b1 && has_at(s, p2, '+')) {
        return None;
    }
    let a3 = p2 + 1;
    proof {
        lemma_digits_end(s@, a3 as int);
    }
    let b3 = scan_digits(s, a3);
    let a4 = skip_comma_at(s, b3);
    proof {
        lemma_digits_end(s@, a4 as int);
    }
    let b4 = scan_digits(s, a4);
    proof {
        lemma_skip_ws_bound(s@, b4 as int);
    }
    let p3 = scan_ws(s, b4);
    if !(a3 < b3 && has_at(s, p3, '@') && p3 < s.len() && has_at(s, p3 + 1, '@')) {
        return None;
    }
    Some((a1, b1, a2, b2, a3, b3, a4, b4))
}

/// `str::parse::<usize>` of the digit group `s[a..b]`: its value when all of
/// it is ASCII digits and the value fits.
fn group_number(s: &[char], a: usize, b: usize) -> (r: Option<usize>)
    requires
        a < b <= s.len(),
        forall|k: int| a <= k < b ==> is_decimal_digit(#[trigger] s@[k]),
    ensures
        r == usize_from_str(s@.subrange(a as int, b as int)),
{
    let ghost d = s@.subrange(a as int, b as int);
    assert(unsigned_part(d) == d) by {
        assert(d[0] == s@[a as int]);
        assert(is_decimal_digit(s@[a as int]));
    }
    let mut i = a;
    while i < b
        invariant
            a <= i <= b <= s.len(),
            d == s@.subrange(a as int, b as int),
            unsigned_part(d) == d,
            forall|k: int| a <= k < i ==> is_digit(#[trigger] s@[k]),
        decreases b - i,
    {
        if !('0' <= s[i] && s[i] <= '9') {
            assert(d[i - a] == s@[i as int]);
            assert(0 <= i - a < d.len() && !is_digit(d[i - a]));
            assert(exists|k: int| 0 <= k < d.len() && !is_digit(#[trigger] d[k]));
            return None;
        }
        i += 1;
    }
    assert forall|k: int| 0 <= k < d.len() implies is_digit(#[trigger] d[k]) by {
        assert(d[k] == s@[a + k]);
    }
    parse_digits(s, a, b)
}

/// The summary of a parsed patch.
pub open spec fn patch_summary(n: nat) -> Seq<char> {
    "Patch parsed successfully. Found "@ + decimal(n)
        + " hunks.\nNote: Full patch application requires file path extraction from patch headers.\nThis is a simplified implementation."@
}

impl ApplyPatchTool {
    /// A patch tool working below `base_dir`.
    pub fn new(base_dir: String) -> (r: Self)
        ensures
            r.base_dir == base_dir,
    {
        ApplyPatchTool { base_dir }
    }

    /// Reads the patch text argument.
    pub fn parse_args(args: &JsonValue) -> (r: Result<String, String>)
        ensures
            match (r, jstr(jget(args@, "patch_text"@))) {
                (Ok(t), Some(v)) => t@ == v,
                (Err(m), None) => m@ == "Missing 'patch_text' argument"@,
                _ => false,
            },
    {
        match args.get_str("patch_text") {
            Some(t) => Ok(t.to_owned()),
            None => Err("Missing 'patch_text' argument".to_owned()),
        }
    }

    /// The error for a patch that does not parse.
    pub fn parse_failed(error: &str) -> (r: String)
        ensures
            r@ == "Failed to parse patch: "@ + error@,
    {
        let mut m: Vec<char> = Vec::new();
        extend_str(&mut m, "Failed to parse patch: ");
        extend_str(&mut m, error);
        string_of(m.as_slice())
    }

    /// The answer for a patch parsed into `hunk_count` hunks.
    pub fn response(hunk_count: usize) -> (r: String)
        ensures
            r@ == success_xml("apply_patch"@, "Patch applied"@, patch_summary(hunk_count as nat)),
    {
        let mut m: Vec<char> = Vec::new();
        extend_str(&mut m, "Patch parsed successfully. Found ");
        extend_chars(&mut m, decimal_chars(hunk_count as u64).as_slice());
        extend_str(&mut m, " hunks.\nNote: Full patch application requires file path extraction from patch headers.\nThis is a simplified implementation.");
        XmlBuilder::build_success("apply_patch", "Patch applied", string_of(m.as_slice()).as_str())
    }

    /// Parses a hunk header `@@ -old_start,old_count +new_start,new_count @@`
    /// (counts optional, defaulting to 1; spaces optional), found anywhere in
    /// the line.
    pub fn parse_hunk_header(&self, line: &str) -> (r: Result<HunkInfo, String>)
        ensures
            match hunk_header(line@) {
                Ok(info) => r == Ok::<HunkInfo, String>(info),
                Err(m) => r matches Err(e) && e@ == m,
            },
    {
        let s = chars_of(line);
        let mut k: usize = 0;
        while k < s.len()
            invariant
                s@ == line@,
                k <= s.len(),
                header_search(s@, 0) == header_search(s@, k as int),
            decreases s.len() - k,
        {
            if let Some(g) = match_header_at(s.as_slice(), k) {
                assert(header_search(s@, k as int) == header_match_at(s@, k as int));
                return Self::info_from_groups(s.as_slice(), g);
            }
            k += 1;
        }
        assert(header_search(s@, k as int) is None);
        Err("Invalid hunk header format".to_owned())
    }

    fn info_from_groups(s: &[char], g: (usize, usize, usize, usize, usize, usize, usize, usize)) -> (r:
        Result<HunkInfo, String>)
        requires
            ({
                let (a1, b1, a2, b2, a3, b3, a4, b4) = g;
                &&& a1 < b1 <= s.len()
                &&& a2 <= b2 <= s.len()
                &&& a3 < b3 <= s.len()
                &&& a4 <= b4 <= s.len()
                &&& forall|k: int| a1 <= k < b1 ==> is_decimal_digit(#[trigger] s@[k])
                &&& forall|k: int| a2 <= k < b2 ==> is_decimal_digit(#[trigger] s@[k])
                &&& forall|k: int| a3 <= k < b3 ==> is_decimal_digit(#[trigger] s@[k])
                &&& forall|k: int| a4 <= k < b4 ==> is_decimal_digit(#[trigger] s@[k])
            }),
        ensures
            ({
                let (a1, b1, a2, b2, a3, b3, a4, b4) = g;
                let groups = HeaderGroups {
                    old_start: s@.subrange(a1 as int, b1 as int),
                    old_count: opt_group(s@, a2 as int, b2 as int),
                    new_start: s@.subrange(a3 as int, b3 as int),
                    new_count: opt_group(s@, a4 as int, b4 as int),
                };
                match groups_info(groups) {
                    Ok(info) => r == Ok::<HunkInfo, String>(info),
                    Err(m) => r matches Err(e) && e@ == m,
                }
            }),
    {
        let (a1, b1, a2, b2, a3, b3, a4, b4) = g;
        let old_start = match group_number(s, a1, b1) {
            Some(v) => v,
            None => {
                return Err("Invalid old_start".to_owned());
            },
        };
        let old_count = if a2 < b2 {
            match group_number(s, a2, b2) {
                Some(v) => v,
                None => 1,
            }
        } else {
            1
        };
        let new_start = match group_number(s, a3, b3) {
            Some(v) => v,
            None => {
                return Err("Invalid new_start".to_owned());
            },
        };
        let new_count = if a4 < b4 {
            match group_number(s, a4, b4) {
                Some(v) => v,
                None => 1,
            }
        } else {
            1
        };
        Ok(HunkInfo { old_start, old_count, new_start, new_count })
    }
}

} // verus!

verus! {

// ---------------------------------------------------------------------------
// Patch parsing
// ---------------------------------------------------------------------------

/// Outcome of parsing a patch: the hunks, a failure message, or a panic of
/// the line slicing (a hunk line starting with a multi-byte character).
pub enum PatchOutcome {
    Hunks(Seq<HunkView>),
    Failed(Seq<char>),
    Panics,
}

/// File header lines, which are skipped.
pub open spec fn is_file_header(l: Seq<char>) -> bool {
    starts_with(l, "diff --git"@) || starts_with(l, "--- "@) || starts_with(l, "+++ "@)
}

/// Lines that end a hunk body.
pub open spec fn ends_body(l: Seq<char>) -> bool {
    starts_with(l, "@@"@) || starts_with(l, "diff --git"@)
}

/// Index of the first line at or after `j` that ends a hunk body.
pub open spec fn body_end(ls: Seq<Seq<char>>, j: int) -> int
    decreases ls.len() - j,
{
    if j < 0 || j >= ls.len() {
        ls.len() as int
    } else if ends_body(ls[j]) {
        j
    } else {
        body_end(ls, j + 1)
    }
}

/// Slicing off the first byte of this line panics: it starts with a
/// character longer than one byte.
pub open spec fn line_panics(l: Seq<char>) -> bool {
    l.len() > 0 && (l[0] as u32) >= 128
}

/// What a hunk line contributes to the old side.
pub open spec fn old_part(l: Seq<char>) -> Seq<Seq<char>> {
    if l.len() > 0 && (l[0] == ' ' || l[0] == '-') {
        seq![l.drop_first()]
    } else if l.len() > 0 && l[0] == '+' {
        Seq::empty()
    } else {
        seq![l]
    }
}

/// What a hunk line contributes to the new side.
pub open spec fn new_part(l: Seq<char>) -> Seq<Seq<char>> {
    if l.len() > 0 && (l[0] == ' ' || l[0] == '+') {
        seq![l.drop_first()]
    } else if l.len() > 0 && l[0] == '-' {
        Seq::empty()
    } else {
        seq![l]
    }
}

/// Old-side lines of the hunk body `ls[j..e]`.
pub open spec fn body_old(ls: Seq<Seq<char>>, j: int, e: int) -> Seq<Seq<char>>
    decreases e - j,
{
    if e <= j {
        Seq::empty()
    } else {
        body_old(ls, j, e - 1) + old_part(ls[e - 1])
    }
}

/// New-side lines of the hunk body `ls[j..e]`.
pub open spec fn body_new(ls: Seq<Seq<char>>, j: int, e: int) -> Seq<Seq<char>>
    decreases e - j,
{
    if e <= j {
        Seq::empty()
    } else {
        body_new(ls, j, e - 1) + new_part(ls[e - 1])
    }
}

/// A hunk line that removes a line (marked `-`).
pub open spec fn removing_line(l: Seq<char>) -> bool {
    l.len() > 0 && l[0] == '-'
}

/// A hunk line that adds a line (marked `+`).
pub open spec fn adding_line(l: Seq<char>) -> bool {
    l.len() > 0 && l[0] == '+'
}

/// A hunk line without its marker (` `, `+` or `-`), if it has one.
pub open spec fn without_marker(l: Seq<char>) -> Seq<char> {
    if l.len() > 0 && (l[0] == ' ' || l[0] == '+' || l[0] == '-') { l.drop_first() } else { l }
}

/// The lines before the change that a hunk body describes: every line but
/// the added ones, without its marker.
pub open spec fn side_before(body: Seq<Seq<char>>) -> Seq<Seq<char>> {
    body.filter(|l: Seq<char>| !adding_line(l)).map_values(|l: Seq<char>| without_marker(l))
}

/// The lines after the change that a hunk body describes: every line but
/// the removed ones, without its marker.
pub open spec fn side_after(body: Seq<Seq<char>>) -> Seq<Seq<char>> {
    body.filter(|l: Seq<char>| !removing_line(l)).map_values(|l: Seq<char>| without_marker(l))
}

/// Law: the old side of a hunk is its body without the added lines, and the
/// new side its body without the removed lines, markers dropped; a removed
/// line never reaches the new side, an added one never the old side.
pub proof fn law_hunk_sides(ls: Seq<Seq<char>>, j: int, e: int)
    requires
        0 <= j <= e <= ls.len(),
    ensures
        body_old(ls, j, e) == side_before(ls.subrange(j, e)),
        body_new(ls, j, e) == side_after(ls.subrange(j, e)),
    decreases e - j,
{
    reveal(Seq::filter);
    let body = ls.subrange(j, e);
    if e <= j {
        assert(body =~= Seq::<Seq<char>>::empty());
        assert(side_before(body) =~= Seq::<Seq<char>>::empty());
        assert(side_after(body) =~= Seq::<Seq<char>>::empty());
    } else {
        law_hunk_sides(ls, j, e - 1);
        let prev = ls.subrange(j, e - 1);
        let l = ls[e - 1];
        assert(body.drop_last() =~= prev);
        assert(body.last() == l);
        let fa = prev.filter(|l: Seq<char>| !adding_line(l));
        let fr = prev.filter(|l: Seq<char>| !removing_line(l));
        if adding_line(l) {
            assert(body.filter(|l: Seq<char>| !adding_line(l)) == fa);
            assert(old_part(l) =~= Seq::<Seq<char>>::empty());
            assert(body_old(ls, j, e) =~= body_old(ls, j, e - 1));
        } else {
            assert(body.filter(|l: Seq<char>| !adding_line(l)) == fa.push(l));
            assert(fa.push(l).map_values(|l: Seq<char>| without_marker(l)) =~= fa.map_values(
                |l: Seq<char>| without_marker(l),
            ).push(without_marker(l)));
            assert(old_part(l) =~= seq![without_marker(l)]);
        }
        if removing_line(l) {
            assert(body.filter(|l: Seq<char>| !removing_line(l)) == fr);
            assert(new_part(l) =~= Seq::<Seq<char>>::empty());
            assert(body_new(ls, j, e) =~= body_new(ls, j, e - 1));
        } else {
            assert(body.filter(|l: Seq<char>| !removing_line(l)) == fr.push(l));
            assert(fr.push(l).map_values(|l: Seq<char>| without_marker(l)) =~= fr.map_values(
                |l: Seq<char>| without_marker(l),
            ).push(without_marker(l)));
            assert(new_part(l) =~= seq![without_marker(l)]);
        }
    }
}

/// Some line of `ls[j..e]` panics.
pub open spec fn body_panics(ls: Seq<Seq<char>>, j: int, e: int) -> bool {
    exists|k: int| j <= k < e && line_panics(#[trigger] ls[k])
}

pub proof fn lemma_body_end(ls: Seq<Seq<char>>, j: int)
    requires
        0 <= j <= ls.len(),
    ensures
        j <= body_end(ls, j) <= ls.len(),
        forall|k: int| j <= k < body_end(ls, j) ==> !ends_body(#[trigger] ls[k]),
        body_end(ls, j) < ls.len() ==> ends_body(ls[body_end(ls, j)]),
    decreases ls.len() - j,
{
    if j < ls.len() && !ends_body(ls[j]) {
        lemma_body_end(ls, j + 1);
    }
}

/// Parse of the lines from index `i` on.
pub open spec fn parse_from(ls: Seq<Seq<char>>, i: int) -> PatchOutcome
    decreases ls.len() - i,
{
    if i < 0 || i >= ls.len() {
        PatchOutcome::Hunks(Seq::empty())
    } else if is_file_header(ls[i]) {
        parse_from(ls, i + 1)
    } else if starts_with(ls[i], "@@"@) {
        match hunk_header(ls[i]) {
            Err(m) => PatchOutcome::Failed(m),
            Ok(info) => {
                let e = body_end(ls, i + 1);
                if body_panics(ls, i + 1, e) {
                    PatchOutcome::Panics
                } else {
                    let h = HunkView {
                        old_start: info.old_start,
                        new_start: info.new_start,
                        old_lines: body_old(ls, i + 1, e),
                        new_lines: body_new(ls, i + 1, e),
                    };
                    proof {
                        lemma_body_end(ls, i + 1);
                    }
                    match parse_from(ls, e) {
                        PatchOutcome::Hunks(hs) => PatchOutcome::Hunks(seq![h] + hs),
                        other => other,
                    }
                }
            },
        }
    } else {
        parse_from(ls, i + 1)
    }
}

/// Parse of a whole patch text.
pub open spec fn patch_outcome(text: Seq<char>) -> PatchOutcome {
    match parse_from(lines(text), 0) {
        PatchOutcome::Hunks(hs) => if hs.len() == 0 {
            PatchOutcome::Failed("No valid hunks found in patch"@)
        } else {
            PatchOutcome::Hunks(hs)
        },
        other => other,
    }
}

/// Views of a list of hunks.
pub open spec fn hunk_views(v: Seq<PatchHunk>) -> Seq<HunkView> {
    v.map_values(|h: PatchHunk| h.view())
}

/// The outcome after the hunks already parsed.
pub open spec fn after_parsed(acc: Seq<HunkView>, o: PatchOutcome) -> PatchOutcome {
    match o {
        PatchOutcome::Hunks(hs) => PatchOutcome::Hunks(acc + hs),
        other => other,
    }
}

/// A string of the characters.
fn to_string_line(v: &[char]) -> (r: String)
    ensures
        r@ == v@,
{
    string_of(v)
}

impl ApplyPatchTool {
    /// Collects the old and new sides of the hunk body `ls[j..e]`.
    fn collect_body(ls: &Vec<Vec<char>>, j: usize, e: usize) -> (r: (Vec<String>, Vec<String>))
        requires
            j <= e <= ls.len(),
            !body_panics(views(ls@), j as int, e as int),
        ensures
            string_views(r.0@) == body_old(views(ls@), j as int, e as int),
            string_views(r.1@) == body_new(views(ls@), j as int, e as int),
    {
        let ghost lv = views(ls@);
        let mut old_lines: Vec<String> = Vec::new();
        let mut new_lines: Vec<String> = Vec::new();
        let mut k = j;
        while k < e
            invariant
                j <= k <= e <= ls.len(),
                lv == views(ls@),
                !body_panics(lv, j as int, e as int),
                string_views(old_lines@) == body_old(lv, j as int, k as int),
                string_views(new_lines@) == body_new(lv, j as int, k as int),
            decreases e - k,
        {
            let l = &ls[k];
            assert(l@ == lv[k as int]);
            let ghost o0 = old_lines@;
            let ghost n0 = new_lines@;
            if l.len() > 0 && (l[0] == ' ' || l[0] == '-' || l[0] == '+') {
                let rest = skip_chars(l.as_slice(), 1);
                assert(rest@ =~= l@.drop_first());
                if l[0] == ' ' {
                    let r2 = skip_chars(l.as_slice(), 1);
                    old_lines.push(to_string_line(rest.as_slice()));
                    new_lines.push(to_string_line(r2.as_slice()));
                } else if l[0] == '-' {
                    old_lines.push(to_string_line(rest.as_slice()));
                } else {
                    new_lines.push(to_string_line(rest.as_slice()));
                }
            } else {
                old_lines.push(to_string_line(l.as_slice()));
                new_lines.push(to_string_line(l.as_slice()));
            }
            assert(string_views(old_lines@) =~= string_views(o0) + old_part(lv[k as int]));
            assert(string_views(new_lines@) =~= string_views(n0) + new_part(lv[k as int]));
            k += 1;
        }
        (old_lines, new_lines)
    }

    /// Parses a unified diff into hunks.  File header lines are skipped;
    /// each `@@` header starts a hunk whose body runs to the next `@@` or
    /// `diff --git` line: lines starting with ` ` go to both sides, `-` to
    /// the old side, `+` to the new side, with that first character removed;
    /// other lines go to both sides whole.  A bad header fails the parse,
    /// and so does a patch without hunks.
    pub fn parse_patch(&self, patch_text: &str) -> (r: Result<Vec<PatchHunk>, String>)
        requires
            !(patch_outcome(patch_text@) is Panics),
        ensures
            match patch_outcome(patch_text@) {
                PatchOutcome::Hunks(hs) => r matches Ok(v) && hunk_views(v@) == hs,
                PatchOutcome::Failed(m) => r matches Err(e) && e@ == m,
                PatchOutcome::Panics => false,
            },
    {
        let t = chars_of(patch_text);
        let ls = lines_of(t.as_slice());
        let ghost lv = views(ls@);
        let mut hunks: Vec<PatchHunk> = Vec::new();
        let mut i: usize = 0;
        proof {
            assert(hunk_views(hunks@) =~= Seq::<HunkView>::empty());
            assert(after_parsed(Seq::<HunkView>::empty(), parse_from(lv, 0)) == parse_from(lv, 0)) by {
                match parse_from(lv, 0) {
                    PatchOutcome::Hunks(hs) => {
                        assert(Seq::<HunkView>::empty() + hs =~= hs);
                    },
                    _ => {},
                }
            };
        }
        while i < ls.len()
            invariant
                i <= ls.len(),
                lv == views(ls@),
                lv == lines(patch_text@),
                after_parsed(hunk_views(hunks@), parse_from(lv, i as int)) == parse_from(lv, 0),
                !(patch_outcome(patch_text@) is Panics),
            decreases ls.len() - i,
        {
            let line = &ls[i];
            assert(line@ == lv[i as int]);
            if starts_with_str(line.as_slice(), "diff --git") || starts_with_str(
                line.as_slice(),
                "--- ",
            ) || starts_with_str(line.as_slice(), "+++ ") {
                i += 1;
                continue;
            }
            if starts_with_str(line.as_slice(), "@@") {
                let ls_str = string_of(line.as_slice());
                let info = match self.parse_hunk_header(ls_str.as_str()) {
                    Ok(info) => info,
                    Err(e) => {
                        return Err(e);
                    },
                };
                proof {
                    lemma_body_end(lv, i + 1);
                }
                let mut e = i + 1;
                while e < ls.len() && !(starts_with_str(ls[e].as_slice(), "@@") || starts_with_str(
                    ls[e].as_slice(),
                    "diff --git",
                ))
                    invariant
                        i + 1 <= e <= ls.len(),
                        lv == views(ls@),
                        body_end(lv, i + 1) == body_end(lv, e as int),
                    decreases ls.len() - e,
                {
                    assert(ls@[e as int]@ == lv[e as int]);
                    e += 1;
                }
                proof {
                    if e < ls.len() {
                        assert(ls@[e as int]@ == lv[e as int]);
                    }
                    assert(e == body_end(lv, i + 1));
                    if body_panics(lv, i + 1, e as int) {
                        assert(parse_from(lv, i as int) is Panics);
                        assert(parse_from(lv, 0) is Panics);
                        assert(patch_outcome(patch_text@) is Panics);
                    }
                }
                let (old_lines, new_lines) = Self::collect_body(&ls, i + 1, e);
                let hunk = PatchHunk {
                    old_start: info.old_start,
                    new_start: info.new_start,
                    old_lines,
                    new_lines,
                };
                let ghost h0 = hunks@;
                hunks.push(hunk);
                proof {
                    assert(hunk_views(hunks@) =~= hunk_views(h0).push(hunk.view()));
                    match parse_from(lv, e as int) {
                        PatchOutcome::Hunks(hs) => {
                            assert(hunk_views(h0) + (seq![hunk.view()] + hs) =~= hunk_views(hunks@)
                                + hs);
                        },
                        _ => {},
                    }
                }
                i = e;
                continue;
            }
            i += 1;
        }
        assert(parse_from(lv, i as int) == PatchOutcome::Hunks(Seq::<HunkView>::empty()));
        assert(hunk_views(hunks@) + Seq::<HunkView>::empty() =~= hunk_views(hunks@));
        if hunks.len() == 0 {
            return Err("No valid hunks found in patch".to_owned());
        }
        Ok(hunks)
    }
}

} // verus!

verus! {

/// The lines after applying one hunk: when its old start is a line of the
/// file, the old lines there (as many as the file has) are replaced by the
/// new lines; otherwise nothing changes.
pub open spec fn apply_hunk(rl: Seq<Seq<char>>, h: HunkView) -> Seq<Seq<char>> {
    if h.old_start > 0 && h.old_start <= rl.len() {
        let s = h.old_start - 1;
        let end = if h.old_start + h.old_lines.len() <= rl.len() + 1 {
            h.old_start + h.old_lines.len() - 1
        } else {
            rl.len() as int
        };
        rl.subrange(0, s) + h.new_lines + rl.subrange(end, rl.len() as int)
    } else {
        rl
    }
}

/// The lines after applying the hunks in order.
pub open spec fn apply_hunks_spec(rl: Seq<Seq<char>>, hs: Seq<HunkView>) -> Seq<Seq<char>>
    decreases hs.len(),
{
    if hs.len() == 0 {
        rl
    } else {
        apply_hunk(apply_hunks_spec(rl, hs.drop_last()), hs.last())
    }
}

impl ApplyPatchTool {
    /// Applies the hunks in order to the lines of `original`; the lines are
    /// joined with `"\n"`.
    pub fn apply_hunks_to_content(&self, original: &str, hunks: &[PatchHunk]) -> (r: String)
        ensures
            r@ == join(apply_hunks_spec(lines(original@), hunk_views(hunks@)), seq!['\n']),
    {
        let o = chars_of(original);
        let mut rl = lines_of(o.as_slice());
        let mut k: usize = 0;
        while k < hunks.len()
            invariant
                k <= hunks.len(),
                views(rl@) == apply_hunks_spec(lines(original@), hunk_views(hunks@.take(k as int))),
            decreases hunks.len() - k,
        {
            let h = &hunks[k];
            let ghost before = views(rl@);
            if h.old_start > 0 && h.old_start <= rl.len() {
                let s = h.old_start - 1;
                let end = if h.old_lines.len() <= rl.len() - h.old_start {
                    h.old_start + h.old_lines.len() - 1
                } else {
                    rl.len()
                };
                let mut next: Vec<Vec<char>> = Vec::new();
                let mut m: usize = 0;
                while m < s
                    invariant
                        m <= s < rl.len(),
                        views(next@) == views(rl@).subrange(0, m as int),
                    decreases s - m,
                {
                    let ghost n0 = next@;
                    next.push(rl[m].clone());
                    assert(views(next@) =~= views(n0).push(rl@[m as int]@));
                    assert(views(rl@).subrange(0, m + 1) =~= views(rl@).subrange(0, m as int).push(
                        rl@[m as int]@,
                    ));
                    m += 1;
                }
                let ghost mid = views(next@);
                let mut q: usize = 0;
                while q < h.new_lines.len()
                    invariant
                        q <= h.new_lines.len(),
                        views(next@) == mid + string_views(h.new_lines@).take(q as int),
                    decreases h.new_lines.len() - q,
                {
                    let ghost n0 = next@;
                    let line = chars_of(h.new_lines[q].as_str());
                    next.push(line);
                    assert(views(next@) =~= views(n0).push(h.new_lines@[q as int]@));
                    assert(string_views(h.new_lines@).take(q + 1) =~= string_views(h.new_lines@).take(
                        q as int,
                    ).push(h.new_lines@[q as int]@));
                    q += 1;
                }
                assert(string_views(h.new_lines@).take(h.new_lines.len() as int) =~= string_views(
                    h.new_lines@,
                ));
                let ghost mid2 = views(next@);
                let mut m2 = end;
                while m2 < rl.len()
                    invariant
                        end <= m2 <= rl.len(),
                        views(next@) == mid2 + views(rl@).subrange(end as int, m2 as int),
                    decreases rl.len() - m2,
                {
                    let ghost n0 = next@;
                    next.push(rl[m2].clone());
                    assert(views(next@) =~= views(n0).push(rl@[m2 as int]@));
                    assert(views(rl@).subrange(end as int, m2 + 1) =~= views(rl@).subrange(
                        end as int,
                        m2 as int,
                    ).push(rl@[m2 as int]@));
                    m2 += 1;
                }
                rl = next;
                assert(views(rl@) =~= apply_hunk(before, h.view()));
            } else {
                assert(views(rl@) =~= apply_hunk(before, h.view()));
            }
            proof {
                let t = hunks@.take(k + 1);
                assert(hunk_views(t).drop_last() =~= hunk_views(hunks@.take(k as int)));
                assert(hunk_views(t).last() == hunks@[k as int].view());
            }
            k += 1;
        }
        assert(hunks@.take(hunks.len() as int) =~= hunks@);
        let nl: [char; 1] = ['\n'];
        assert(nl@ =~= seq!['\n']);
        let joined = join_chars(rl.as_slice(), &nl);
        string_of(joined.as_slice())
    }
}

} // verus!
