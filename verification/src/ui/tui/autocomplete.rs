//! File path autocomplete popup: which directory entries are offered, in
//! which order, how the selection moves, and how the popup is drawn.
//!
//! Reading directories is left to the caller, which hands in the entries it
//! found: for an empty filter, the entries of the current directory; for a
//! non-empty one, the entries of a walk of at most `max_depth` levels that
//! descends only where `walk_keeps` allows, in walk order.
use vstd::prelude::*;
use crate::text::{
    chars_of, contains, contains_chars, decimal, decimal_chars, eq_str, extend_chars, extend_str,
    find_chars_from, find_from, lemma_lex_total, lemma_lex_trans, lex_le, lex_le_chars, lowercase_of,
    string_of, subrange_chars, to_lowercase,
};
use crate::ui::tui::styled::{fg_style, plain_style, span, span_chars, spans_view, Color, Span, Style};

verus! {

broadcast use vstd::seq_lib::group_to_multiset_ensures;

/// Deepest level a filtered search descends to.
pub const MAX_DEPTH: usize = 4;

/// Most entries a filtered search collects.
pub const MAX_RESULTS: usize = 100;

/// Longest display name shown whole, in characters.
pub const MAX_NAME_CHARS: usize = 40;

/// Characters kept of a longer display name, before `...`.
pub const TRUNCATED_CHARS: usize = 37;

/// Most suggestions the popup shows at once.
pub const MAX_VISIBLE_ITEMS: usize = 10;

/// Directories never offered: common large build, tool and cache directories.
pub open spec fn ignored_dir(lower: Seq<char>) -> bool {
    lower == "node_modules"@ || lower == "target"@ || lower == ".git"@ || lower == "vendor"@
        || lower == ".cargo"@ || lower == ".idea"@ || lower == ".vscode"@ || lower == "dist"@
        || lower == "build"@ || lower == "out"@ || lower == "__pycache__"@ || lower == ".pytest_cache"@
}

/// A name that starts with a dot.
pub open spec fn hidden(name: Seq<char>) -> bool {
    name.len() > 0 && name[0] == '.'
}

/// File information for autocomplete.
#[derive(Debug, Clone)]
pub struct FileInfo {
    /// File name.
    pub name: String,
    /// Full path.
    pub path: String,
    /// Whether this is a directory.
    pub is_dir: bool,
    /// Path relative to the root of the popup (e.g. `src/lib.rs`).
    pub relative_path: String,
    /// Depth below the scanned directory (0 for the parent entry).
    pub depth: usize,
}

/// The icon shown for an entry.
pub open spec fn icon_of(is_dir: bool) -> Seq<char> {
    if is_dir { "📁"@ } else { "📄"@ }
}

impl FileInfo {
    /// Display icon: a folder for directories, a page for files.
    pub fn icon(&self) -> (r: &'static str)
        ensures
            r@ == icon_of(self.is_dir),
    {
        if self.is_dir {
            "📁"
        } else {
            "📄"
        }
    }

    /// An identical copy.
    pub fn duplicate(&self) -> (r: FileInfo)
        ensures
            r == *self,
    {
        FileInfo {
            name: self.name.clone(),
            path: self.path.clone(),
            is_dir: self.is_dir,
            relative_path: self.relative_path.clone(),
            depth: self.depth,
        }
    }
}

/// Whether a directory name (already lower-cased) is one of the ignored ones.
fn is_ignored_dir(lower: &str) -> (r: bool)
    ensures
        r == ignored_dir(lower@),
{
    let c = chars_of(lower);
    let s = c.as_slice();
    eq_str(s, "node_modules") || eq_str(s, "target") || eq_str(s, ".git") || eq_str(s, "vendor")
        || eq_str(s, ".cargo") || eq_str(s, ".idea") || eq_str(s, ".vscode") || eq_str(s, "dist")
        || eq_str(s, "build") || eq_str(s, "out") || eq_str(s, "__pycache__") || eq_str(
        s,
        ".pytest_cache",
    )
}

/// Whether a name starts with a dot.
fn is_hidden(name: &str) -> (r: bool)
    ensures
        r == hidden(name@),
{
    let c = chars_of(name);
    c.len() > 0 && c[0] == '.'
}

/// An entry of the current directory is offered unless it is hidden or an
/// ignored directory.
pub open spec fn listed_keeps(e: FileInfo) -> bool {
    !hidden(e.name@) && !(e.is_dir && ignored_dir(lowercase_of(e.name@)))
}

/// Whether an entry of the current directory is offered.
pub fn keep_listed_entry(name: &str, is_dir: bool) -> (r: bool)
    ensures
        r == (!hidden(name@) && !(is_dir && ignored_dir(lowercase_of(name@)))),
{
    if is_hidden(name) {
        return false;
    }
    if is_dir {
        let lower = to_lowercase(name);
        if is_ignored_dir(lower.as_str()) {
            return false;
        }
    }
    true
}

/// A filtered walk enters an entry unless it is hidden (and the filter does
/// not itself start with a dot) or it is an ignored directory.
pub open spec fn walk_keeps(name: Seq<char>, is_dir: bool, filter: Seq<char>) -> bool {
    !(hidden(name) && !hidden(filter)) && (!is_dir || !ignored_dir(lowercase_of(name)))
}

/// Whether a filtered walk enters an entry.
pub fn walk_keeps_entry(name: &str, is_dir: bool, filter: &str) -> (r: bool)
    ensures
        r == walk_keeps(name@, is_dir, filter@),
{
    if is_hidden(name) && !is_hidden(filter) {
        return false;
    }
    if is_dir {
        let lower = to_lowercase(name);
        !is_ignored_dir(lower.as_str())
    } else {
        true
    }
}

/// The offered entries of a directory listing, in listing order.
pub open spec fn kept_listed(s: Seq<FileInfo>) -> Seq<FileInfo>
    decreases s.len(),
{
    if s.len() == 0 {
        Seq::empty()
    } else {
        let p = kept_listed(s.drop_last());
        if listed_keeps(s.last()) { p.push(s.last()) } else { p }
    }
}

/// An entry matches a filter when it lies 1 to `MAX_DEPTH` levels below
/// the directory searched and its relative path contains the filter, both
/// lower-cased.
pub open spec fn path_matches(e: FileInfo, filter: Seq<char>) -> bool {
    &&& 1 <= e.depth <= MAX_DEPTH
    &&& contains(lowercase_of(e.relative_path@), lowercase_of(filter))
}

/// The entries of a walk that match the filter, in walk order.
pub open spec fn matching(s: Seq<FileInfo>, filter: Seq<char>) -> Seq<FileInfo>
    decreases s.len(),
{
    if s.len() == 0 {
        Seq::empty()
    } else {
        let p = matching(s.drop_last(), filter);
        if path_matches(s.last(), filter) { p.push(s.last()) } else { p }
    }
}

/// The first `MAX_RESULTS` matching entries of a walk.
pub open spec fn found(s: Seq<FileInfo>, filter: Seq<char>) -> Seq<FileInfo> {
    let m = matching(s, filter);
    if m.len() <= MAX_RESULTS { m } else { m.take(MAX_RESULTS as int) }
}

/// Order of suggestions: directories before files; then, for a filtered
/// search, shallower before deeper and then by relative path, otherwise by
/// name (both in string order).
pub open spec fn entry_le(a: FileInfo, b: FileInfo, by_path: bool) -> bool {
    if a.is_dir != b.is_dir {
        a.is_dir
    } else if by_path {
        a.depth < b.depth || (a.depth == b.depth && lex_le(a.relative_path@, b.relative_path@))
    } else {
        lex_le(a.name@, b.name@)
    }
}

/// The entries are in suggestion order.
pub open spec fn sorted_by(s: Seq<FileInfo>, by_path: bool) -> bool {
    forall|i: int, j: int| 0 <= i < j < s.len() ==> entry_le(#[trigger] s[i], #[trigger] s[j], by_path)
}

/// The parent-directory entry offered when browsing below the root.
pub open spec fn is_parent_entry(e: FileInfo) -> bool {
    e.name@ == ".."@ && e.is_dir && e.relative_path@ == ".."@ && e.depth == 0
}

/// `r` holds what a scan offers: with an empty filter, the offered entries
/// of the listing (and, below the root, a parent entry), in name order;
/// with a filter, the first matching entries of the walk, in path order.
pub open spec fn scanned(base: Seq<char>, root: Seq<char>, filter: Seq<char>, listing: Seq<FileInfo>, r: Seq<FileInfo>) -> bool {
    if filter.len() == 0 {
        &&& sorted_by(r, false)
        &&& (r.to_multiset() == kept_listed(listing).to_multiset() || (base != root && exists|p: FileInfo|
            is_parent_entry(p) && r.to_multiset() == seq![p].add(kept_listed(listing)).to_multiset()))
    } else {
        &&& sorted_by(r, true)
        &&& r.to_multiset() == found(listing, filter).to_multiset()
    }
}

/// Name for the result of `Path::new(p).has_root()`.
pub uninterp spec fn path_has_root(p: Seq<char>) -> bool;

/// `Path::has_root` of a path given as a string.
#[verifier::external_body]
fn has_root(p: &str) -> (r: bool)
    ensures
        r == path_has_root(p@),
{
    std::path::Path::new(p).has_root()
}

/// Name for the result of `Path::new(a).join(b)` as a string.
pub uninterp spec fn path_joined(a: Seq<char>, b: Seq<char>) -> Seq<char>;

/// `Path::join` of two paths given as strings.
#[verifier::external_body]
pub(crate) fn join_path(a: &str, b: &str) -> (r: String)
    ensures
        r@ == path_joined(a@, b@),
{
    std::path::Path::new(a).join(b).to_string_lossy().into_owned()
}

/// Name for the result of `path_clean::clean` (lexical cleaning of a path).
pub uninterp spec fn path_cleaned(p: Seq<char>) -> Seq<char>;

/// `path_clean::clean` of a path given as a string.
#[verifier::external_body]
fn clean_path(p: &str) -> (r: String)
    ensures
        r@ == path_cleaned(p@),
{
    path_clean::clean(p).to_string_lossy().into_owned()
}

/// `s` up to and including its last `/`; empty when it has none.
pub open spec fn up_to_last_slash(s: Seq<char>) -> Seq<char>
    decreases s.len(),
{
    if s.len() == 0 {
        s
    } else if s.last() == '/' {
        s
    } else {
        up_to_last_slash(s.drop_last())
    }
}

/// `s` up to and including its last `/`.
fn prefix_to_last_slash(s: &[char]) -> (r: Vec<char>)
    ensures
        r@ == up_to_last_slash(s@),
{
    let mut n = s.len();
    assert(s@.take(n as int) =~= s@);
    while n > 0 && s[n - 1] != '/'
        invariant
            n <= s@.len(),
            up_to_last_slash(s@) == up_to_last_slash(s@.take(n as int)),
        decreases n,
    {
        assert(s@.take(n as int).drop_last() =~= s@.take(n - 1));
        n -= 1;
    }
    let r = crate::text::subrange_chars(s, 0, n);
    assert(r@ =~= s@.take(n as int));
    r
}

// ---------------------------------------------------------------------------
// Sorting
// ---------------------------------------------------------------------------

proof fn lemma_entry_total(a: FileInfo, b: FileInfo, by_path: bool)
    ensures
        entry_le(a, b, by_path) || entry_le(b, a, by_path),
{
    lemma_lex_total(a.relative_path@, b.relative_path@);
    lemma_lex_total(a.name@, b.name@);
}

proof fn lemma_entry_trans(a: FileInfo, b: FileInfo, c: FileInfo, by_path: bool)
    requires
        entry_le(a, b, by_path),
        entry_le(b, c, by_path),
    ensures
        entry_le(a, c, by_path),
{
    if a.is_dir == b.is_dir && b.is_dir == c.is_dir {
        if by_path {
            if a.depth == b.depth && b.depth == c.depth {
                lemma_lex_trans(a.relative_path@, b.relative_path@, c.relative_path@);
            }
        } else {
            lemma_lex_trans(a.name@, b.name@, c.name@);
        }
    }
}

/// Whether `a` comes no later than `b` in suggestion order.
fn entry_le_exec(a: &FileInfo, b: &FileInfo, by_path: bool) -> (r: bool)
    ensures
        r == entry_le(*a, *b, by_path),
{
    if a.is_dir != b.is_dir {
        a.is_dir
    } else if by_path {
        if a.depth != b.depth {
            a.depth < b.depth
        } else {
            let x = chars_of(a.relative_path.as_str());
            let y = chars_of(b.relative_path.as_str());
            lex_le_chars(x.as_slice(), y.as_slice())
        }
    } else {
        let x = chars_of(a.name.as_str());
        let y = chars_of(b.name.as_str());
        lex_le_chars(x.as_slice(), y.as_slice())
    }
}

/// Stable insertion sort into suggestion order.
pub fn sort_entries(v: Vec<FileInfo>, by_path: bool) -> (r: Vec<FileInfo>)
    ensures
        r@.to_multiset() == v@.to_multiset(),
        sorted_by(r@, by_path),
{
    let ghost orig = v@;
    let mut rest = v;
    let mut out: Vec<FileInfo> = Vec::new();
    while rest.len() > 0
        invariant
            out@.to_multiset().add(rest@.to_multiset()) == orig.to_multiset(),
            sorted_by(out@, by_path),
        decreases rest.len(),
    {
        let ghost before_rest = rest@;
        let x = rest.remove(0);
        assert(before_rest.remove(0) == rest@);
        let mut p: usize = out.len();
        while p > 0 && !entry_le_exec(&out[p - 1], &x, by_path)
            invariant
                p <= out.len(),
                forall|k: int| p <= k < out.len() ==> !entry_le(#[trigger] out@[k], x, by_path),
            decreases p,
        {
            p = p - 1;
        }
        let ghost old_out = out@;
        proof {
            assert forall|k: int| p <= k < old_out.len() implies entry_le(x, #[trigger] old_out[k], by_path) by {
                lemma_entry_total(old_out[k], x, by_path);
            }
            if p > 0 {
                assert(entry_le(old_out[p - 1], x, by_path));
                assert forall|k: int| 0 <= k < p implies entry_le(#[trigger] old_out[k], x, by_path) by {
                    if k < p - 1 {
                        lemma_entry_trans(old_out[k], old_out[p - 1], x, by_path);
                    }
                }
            }
        }
        out.insert(p, x);
        proof {
            let n = out@;
            assert forall|i: int, j: int| 0 <= i < j < n.len() implies entry_le(#[trigger] n[i], #[trigger] n[j], by_path) by {
                if i < p && j < p {
                    assert(n[i] == old_out[i] && n[j] == old_out[j]);
                } else if i < p && j == p {
                } else if i < p && j > p {
                    assert(n[j] == old_out[j - 1]);
                    assert(entry_le(old_out[i], old_out[j - 1], by_path));
                } else if i == p {
                    assert(n[j] == old_out[j - 1]);
                } else {
                    assert(n[i] == old_out[i - 1] && n[j] == old_out[j - 1]);
                }
            }
            assert(before_rest.to_multiset() == rest@.to_multiset().insert(x)) by {
                assert(before_rest =~= rest@.insert(0, x));
            }
            assert(out@.to_multiset().add(rest@.to_multiset()) =~= orig.to_multiset());
        }
    }
    proof {
        assert(rest@.to_multiset() =~= vstd::multiset::Multiset::empty());
        assert(out@.to_multiset().add(rest@.to_multiset()) =~= out@.to_multiset());
    }
    out
}

// ---------------------------------------------------------------------------
// Selection
// ---------------------------------------------------------------------------

/// The index after `i` among `n` suggestions, wrapping to the first.
pub open spec fn next_index(i: nat, n: nat) -> nat {
    if n == 0 { i } else { (i + 1) % n }
}

/// The index before `i` among `n` suggestions, wrapping to the last.
pub open spec fn prev_index(i: nat, n: nat) -> nat {
    if n == 0 { i } else if i == 0 { (n - 1) as nat } else { (i - 1) as nat }
}

/// Moving down then up, or up then down, comes back to the same suggestion.
pub proof fn lemma_next_prev_inverse(i: nat, n: nat)
    requires
        i < n,
    ensures
        prev_index(next_index(i, n), n) == i,
        next_index(prev_index(i, n), n) == i,
        next_index(i, n) < n,
        prev_index(i, n) < n,
{
    if i + 1 < n {
        assert((i + 1) % n == i + 1) by (nonlinear_arith)
            requires
                i + 1 < n,
        ;
    } else {
        assert((i + 1) % n == 0) by (nonlinear_arith)
            requires
                i + 1 == n,
        ;
    }
    if i == 0 {
        assert(((n - 1) as nat + 1) % n == 0) by (nonlinear_arith)
            requires
                n > 0,
        ;
    } else {
        assert(((i - 1) as nat + 1) % n == i) by (nonlinear_arith)
            requires
                0 < i < n,
        ;
    }
}

// ---------------------------------------------------------------------------
// Drawing
// ---------------------------------------------------------------------------

/// What the popup shows for a suggestion when the filter is empty (its
/// name), or else its relative path, marked `├─ ` below the top level.
pub open spec fn display_name(e: FileInfo, filter: Seq<char>) -> Seq<char> {
    if filter.len() == 0 {
        e.name@
    } else if e.depth > 0 {
        "├─ "@ + e.relative_path@
    } else {
        e.relative_path@
    }
}

/// A display name longer than 40 characters is cut to 37 and marked `...`.
pub open spec fn shortened(d: Seq<char>) -> Seq<char> {
    if d.len() > MAX_NAME_CHARS { d.take(TRUNCATED_CHARS as int) + "..."@ } else { d }
}

/// Style of the unmatched text of a suggestion.
pub open spec fn text_style(selected: bool) -> Style {
    fg_style(if selected { Color::White } else { Color::Gray })
}

/// Style of the matched text of a suggestion.
pub open spec fn match_style(selected: bool) -> Style {
    Style { fg: Some(if selected { Color::White } else { Color::Green }), bg: None, bold: true, dim: false }
}

/// The display name split around the match found at `pos` in the relative
/// path, `flen` characters long: text before, match, text after, each only
/// where non-empty.
pub open spec fn highlighted(d: Seq<char>, pos: int, flen: int, selected: bool) -> Seq<(Seq<char>, Style)> {
    let total = d.len() as int;
    let me = if pos + flen < total { pos + flen } else { total };
    let before = if 0 < pos && pos <= total { seq![(d.take(pos), text_style(selected))] } else { Seq::empty() };
    let matched = if pos < me { seq![(d.subrange(pos, me), match_style(selected))] } else { Seq::empty() };
    let after = if me < total { seq![(d.skip(me), text_style(selected))] } else { Seq::empty() };
    before + matched + after
}

/// The spans of one suggestion: icon, a space, the (highlighted) display
/// name, and `/` for directories.
pub open spec fn item_line(e: FileInfo, selected: bool, filter: Seq<char>) -> Seq<(Seq<char>, Style)> {
    let d = shortened(display_name(e, filter));
    let icon = seq![
        (icon_of(e.is_dir), fg_style(if selected { Color::LightBlue } else { Color::Yellow })),
        (" "@, plain_style()),
    ];
    let body = if filter.len() == 0 {
        seq![(d, text_style(selected))]
    } else {
        match find_from(lowercase_of(e.relative_path@), lowercase_of(filter), 0) {
            Some(pos) => highlighted(d, pos, filter.len() as int, selected),
            None => seq![(d, text_style(selected))],
        }
    };
    let tail = if e.is_dir { seq![("/"@, fg_style(Color::Cyan))] } else { Seq::empty() };
    icon + body + tail
}

/// Title of the popup: the selected position and the number of suggestions.
pub open spec fn popup_title(selected: nat, count: nat) -> Seq<char> {
    "📁 文件选择 "@ + decimal(selected + 1) + "/"@ + decimal(count)
}

/// Rows the popup takes: up to 10 items plus two borders, within the area.
pub open spec fn popup_height(count: nat, area_height: nat) -> nat {
    let rows = (if count < MAX_VISIBLE_ITEMS { count } else { MAX_VISIBLE_ITEMS as nat }) + 2;
    if rows <= area_height { rows } else { area_height }
}

/// Title of the popup when nothing matches.
pub open spec fn empty_title() -> Seq<char> {
    "📁 文件选择"@
}

/// The line shown when nothing matches.
pub open spec fn empty_line() -> Seq<(Seq<char>, Style)> {
    seq![("📭"@, fg_style(Color::White)), (" "@, plain_style()), ("无匹配文件"@, fg_style(Color::White))]
}

/// What the popup draws.
pub enum AutocompleteView {
    /// Nothing matches: a titled box with one message line.
    Empty { title: String, line: Vec<Span> },
    /// A titled list, `height` rows tall including borders.
    List { title: String, items: Vec<Vec<Span>>, height: u16 },
}

/// The shortened display name of an entry.
fn display_chars(e: &FileInfo, filter_empty: bool) -> (r: Vec<char>)
    ensures
        r@ == shortened(display_name(*e, if filter_empty { Seq::empty() } else { seq!['x'] })),
{
    let mut d: Vec<char> = Vec::new();
    if filter_empty {
        extend_str(&mut d, e.name.as_str());
    } else if e.depth > 0 {
        extend_str(&mut d, "├─ ");
        extend_str(&mut d, e.relative_path.as_str());
    } else {
        extend_str(&mut d, e.relative_path.as_str());
    }
    if d.len() > MAX_NAME_CHARS {
        let mut t: Vec<char> = Vec::new();
        let mut k: usize = 0;
        while k < TRUNCATED_CHARS
            invariant
                k <= TRUNCATED_CHARS,
                TRUNCATED_CHARS < d@.len(),
                t@ == d@.take(k as int),
            decreases TRUNCATED_CHARS - k,
        {
            t.push(d[k]);
            assert(d@.take(k + 1) == d@.take(k as int).push(d@[k as int]));
            k = k + 1;
        }
        extend_str(&mut t, "...");
        t
    } else {
        d
    }
}

/// The spans of one suggestion.
fn item_spans(e: &FileInfo, selected: bool, filter: &str) -> (r: Vec<Span>)
    ensures
        spans_view(r@) == item_line(*e, selected, filter@),
{
    let filter_chars = chars_of(filter);
    let filter_empty = filter_chars.len() == 0;
    let d = display_chars(e, filter_empty);
    proof {
        if !filter_empty {
            assert(display_name(*e, seq!['x']) == display_name(*e, filter@));
        } else {
            assert(filter@ =~= Seq::<char>::empty());
        }
    }
    let text_color = if selected { Color::White } else { Color::Gray };
    let mut spans: Vec<Span> = Vec::new();
    spans.push(span(e.icon(), Style::fg(if selected { Color::LightBlue } else { Color::Yellow })));
    spans.push(span(" ", Style::plain()));
    let ghost head = spans_view(spans@);
    if filter_empty {
        spans.push(span_chars(d, Style::fg(text_color)));
    } else {
        let lower_path = to_lowercase(e.relative_path.as_str());
        let lower_filter = to_lowercase(filter);
        let lp = chars_of(lower_path.as_str());
        let lf = chars_of(lower_filter.as_str());
        match find_chars_from(lp.as_slice(), lf.as_slice(), 0) {
            Some(pos) => {
                let total = d.len();
                let flen = filter_chars.len();
                let me = if pos < total && flen < total - pos { pos + flen } else { total };
                if 0 < pos && pos <= total {
                    let before = subrange_chars(d.as_slice(), 0, pos);
                    assert(before@ == d@.take(pos as int));
                    spans.push(span_chars(before, Style::fg(text_color)));
                }
                if pos < me {
                    let matched = subrange_chars(d.as_slice(), pos, me);
                    spans.push(span_chars(matched, Style::bold_fg(if selected { Color::White } else { Color::Green })));
                }
                if me < total {
                    let after = subrange_chars(d.as_slice(), me, total);
                    assert(after@ == d@.skip(me as int));
                    spans.push(span_chars(after, Style::fg(text_color)));
                }
            },
            None => {
                spans.push(span_chars(d, Style::fg(text_color)));
            },
        }
    }
    if e.is_dir {
        spans.push(span("/", Style::fg(Color::Cyan)));
    }
    assert(spans_view(spans@) =~= item_line(*e, selected, filter@));
    spans
}

// ---------------------------------------------------------------------------
// The popup
// ---------------------------------------------------------------------------

/// File autocomplete popup state.
pub struct FileAutocomplete {
    base_path: String,
    filter: String,
    suggestions: Vec<FileInfo>,
    selected_index: usize,
    input_prefix: String,
    max_depth: usize,
    max_results: usize,
    root_path: String,
}

impl FileAutocomplete {
    /// The directory being browsed.
    pub closed spec fn base(&self) -> Seq<char> {
        self.base_path@
    }

    /// The directory the popup started in.
    pub closed spec fn root(&self) -> Seq<char> {
        self.root_path@
    }

    /// The current filter.
    pub closed spec fn filter_text(&self) -> Seq<char> {
        self.filter@
    }

    /// The offered entries.
    pub closed spec fn items(&self) -> Seq<FileInfo> {
        self.suggestions@
    }

    /// The selected index.
    pub closed spec fn selected(&self) -> nat {
        self.selected_index as nat
    }

    /// The path prefix entered by descending into directories.
    pub closed spec fn prefix(&self) -> Seq<char> {
        self.input_prefix@
    }

    /// The selection points at a suggestion, or is 0 when there is none;
    /// the search limits are the fixed ones.
    pub closed spec fn wf(&self) -> bool {
        &&& (self.suggestions@.len() == 0 ==> self.selected_index == 0)
        &&& (self.suggestions@.len() > 0 ==> self.selected_index < self.suggestions@.len())
        &&& self.max_depth == MAX_DEPTH
        &&& self.max_results == MAX_RESULTS
    }

    /// In a well-formed popup the selection points at an offered entry, or
    /// is 0 when nothing is offered.
    pub proof fn lemma_selection_in_range(&self)
        requires
            self.wf(),
        ensures
            self.items().len() == 0 ==> self.selected() == 0,
            self.items().len() > 0 ==> self.selected() < self.items().len(),
    {
    }

    /// A popup browsing `base_dir`, offering the entries of `listing` (the
    /// entries found below that directory, subdirectories included, down to
    /// the depth limit).
    pub fn new(base_dir: &str, listing: Vec<FileInfo>) -> (r: Self)
        ensures
            r.wf(),
            r.base() == base_dir@,
            r.root() == base_dir@,
            r.filter_text() == Seq::<char>::empty(),
            r.prefix() == Seq::<char>::empty(),
            r.selected() == 0,
            scanned(r.base(), r.root(), r.filter_text(), listing@, r.items()),
    {
        let mut autocomplete = FileAutocomplete {
            base_path: base_dir.to_owned(),
            filter: String::new(),
            suggestions: Vec::new(),
            selected_index: 0,
            input_prefix: String::new(),
            max_depth: MAX_DEPTH,
            max_results: MAX_RESULTS,
            root_path: base_dir.to_owned(),
        };
        autocomplete.refresh_suggestions(listing);
        autocomplete
    }

    /// The directory being browsed.
    pub fn base_path(&self) -> (r: &str)
        ensures
            r@ == self.base(),
    {
        self.base_path.as_str()
    }

    /// The current filter.
    pub fn filter(&self) -> (r: &str)
        ensures
            r@ == self.filter_text(),
    {
        self.filter.as_str()
    }

    /// The path prefix entered by descending into directories.
    pub fn input_prefix(&self) -> (r: &str)
        ensures
            r@ == self.prefix(),
    {
        self.input_prefix.as_str()
    }

    /// Deepest level a filtered search descends to.
    pub fn max_depth(&self) -> (r: usize)
        requires
            self.wf(),
        ensures
            r == MAX_DEPTH,
    {
        self.max_depth
    }

    /// The offered entries, in order.
    pub fn suggestions(&self) -> (r: &Vec<FileInfo>)
        ensures
            r@ == self.items(),
    {
        &self.suggestions
    }

    /// The selected index.
    pub fn selected_index(&self) -> (r: usize)
        ensures
            r == self.selected(),
    {
        self.selected_index
    }

    /// Sets the filter and offers the entries of `listing`, the result of
    /// the scan for the new filter.
    pub fn update_filter(&mut self, filter: String, listing: Vec<FileInfo>)
        requires
            old(self).wf(),
        ensures
            final(self).wf(),
            final(self).filter_text() == filter@,
            final(self).base() == old(self).base(),
            final(self).root() == old(self).root(),
            final(self).prefix() == old(self).prefix(),
            final(self).selected() == 0,
            scanned(final(self).base(), final(self).root(), filter@, listing@, final(self).items()),
    {
        self.filter = filter;
        self.refresh_suggestions(listing);
    }

    /// Offers the entries of a new scan, selecting the first.
    fn scan_recursive(&mut self, listing: Vec<FileInfo>)
        requires
            old(self).max_depth == MAX_DEPTH,
            old(self).max_results == MAX_RESULTS,
        ensures
            final(self).wf(),
            final(self).filter_text() == old(self).filter_text(),
            final(self).base() == old(self).base(),
            final(self).root() == old(self).root(),
            final(self).prefix() == old(self).prefix(),
            final(self).selected() == 0,
            scanned(old(self).base(), old(self).root(), old(self).filter_text(), listing@, final(self).items()),
    {
        self.suggestions = Vec::new();
        self.selected_index = 0;
        let mut pre: Vec<FileInfo> = Vec::new();
        if self.base_path != self.root_path && has_root(self.base_path.as_str()) {
            pre.push(FileInfo {
                name: "..".to_owned(),
                path: join_path(self.base_path.as_str(), ".."),
                is_dir: true,
                relative_path: "..".to_owned(),
                depth: 0,
            });
        }
        let filter_empty = self.filter.as_str().is_empty();
        if filter_empty {
            let ghost pre_view = pre@;
            let n = listing.len();
            let mut all = pre;
            let mut i: usize = 0;
            while i < n
                invariant
                    n == listing@.len(),
                    i <= n,
                    all@ == pre_view + kept_listed(listing@.take(i as int)),
                decreases n - i,
            {
                proof {
                    assert(listing@.take(i + 1).drop_last() =~= listing@.take(i as int));
                }
                let e = &listing[i];
                if keep_listed_entry(e.name.as_str(), e.is_dir) {
                    all.push(e.duplicate());
                    assert(all@ =~= pre_view + kept_listed(listing@.take(i + 1)));
                }
                i = i + 1;
            }
            assert(listing@.take(n as int) =~= listing@);
            let sorted = sort_entries(all, false);
            proof {
                if pre_view.len() == 1 {
                    let p = pre_view[0];
                    assert(pre_view =~= seq![p]);
                    assert(is_parent_entry(p));
                } else {
                    assert(pre_view + kept_listed(listing@) =~= kept_listed(listing@));
                }
            }
            self.suggestions = sorted;
        } else {
            let results = self.collect_matches(&listing);
            let sorted = sort_entries(results, true);
            self.suggestions = sorted;
        }
        proof {
            if self.suggestions@.len() > 0 {
                assert(self.selected_index < self.suggestions@.len());
            }
        }
    }

    /// The first `max_results` entries of a walk within the depth limit
    /// whose relative path contains the filter, ignoring case.
    fn collect_matches(&self, listing: &Vec<FileInfo>) -> (r: Vec<FileInfo>)
        requires
            self.max_results == MAX_RESULTS,
        ensures
            r@ == found(listing@, self.filter@),
    {
        let lower_filter = to_lowercase(self.filter.as_str());
        let lf = chars_of(lower_filter.as_str());
        let n = listing.len();
        let mut results: Vec<FileInfo> = Vec::new();
        let mut i: usize = 0;
        while i < n
            invariant
                n == listing@.len(),
                i <= n,
                self.max_results == MAX_RESULTS,
                lf@ == lowercase_of(self.filter@),
                results@ == matching(listing@.take(i as int), self.filter@),
                results@.len() < MAX_RESULTS,
            decreases n - i,
        {
            proof {
                assert(listing@.take(i + 1).drop_last() =~= listing@.take(i as int));
            }
            let e = &listing[i];
            let lower_path = to_lowercase(e.relative_path.as_str());
            let lp = chars_of(lower_path.as_str());
            if 1 <= e.depth && e.depth <= MAX_DEPTH && contains_chars(lp.as_slice(), lf.as_slice()) {
                results.push(e.duplicate());
                if results.len() >= self.max_results {
                    proof {
                        lemma_matching_split(listing@, (i + 1) as int, self.filter@);
                        assert(found(listing@, self.filter@) =~= results@);
                    }
                    return results;
                }
            }
            i = i + 1;
        }
        assert(listing@.take(n as int) =~= listing@);
        results
    }

    /// Rescans (the caller supplies the scan's entries).
    fn refresh_suggestions(&mut self, listing: Vec<FileInfo>)
        requires
            old(self).max_depth == MAX_DEPTH,
            old(self).max_results == MAX_RESULTS,
        ensures
            final(self).wf(),
            final(self).filter_text() == old(self).filter_text(),
            final(self).base() == old(self).base(),
            final(self).root() == old(self).root(),
            final(self).prefix() == old(self).prefix(),
            final(self).selected() == 0,
            scanned(old(self).base(), old(self).root(), old(self).filter_text(), listing@, final(self).items()),
    {
        self.scan_recursive(listing);
    }

    /// Selects the next suggestion, wrapping to the first.
    pub fn next(&mut self)
        requires
            old(self).wf(),
        ensures
            final(self).wf(),
            final(self).selected() == next_index(old(self).selected(), old(self).items().len()),
            final(self).items() == old(self).items(),
            final(self).base() == old(self).base(),
            final(self).filter_text() == old(self).filter_text(),
            final(self).prefix() == old(self).prefix(),
            final(self).root() == old(self).root(),
    {
        if self.suggestions.len() > 0 {
            self.selected_index = (self.selected_index + 1) % self.suggestions.len();
        }
    }

    /// Selects the previous suggestion, wrapping to the last.
    pub fn prev(&mut self)
        requires
            old(self).wf(),
        ensures
            final(self).wf(),
            final(self).selected() == prev_index(old(self).selected(), old(self).items().len()),
            final(self).items() == old(self).items(),
            final(self).base() == old(self).base(),
            final(self).filter_text() == old(self).filter_text(),
            final(self).prefix() == old(self).prefix(),
            final(self).root() == old(self).root(),
    {
        if self.suggestions.len() > 0 {
            self.selected_index = if self.selected_index == 0 {
                self.suggestions.len() - 1
            } else {
                self.selected_index - 1
            };
        }
    }

    /// The selected suggestion, if any.
    pub fn get_selected(&self) -> (r: Option<&FileInfo>)
        requires
            self.wf(),
        ensures
            match r {
                Some(e) => self.selected() < self.items().len() && *e == self.items()[self.selected() as int],
                None => self.items().len() == 0,
            },
    {
        if self.selected_index < self.suggestions.len() {
            Some(&self.suggestions[self.selected_index])
        } else {
            None
        }
    }

    /// Descends into the selected suggestion when it is a directory:
    /// browses it, appends its relative path and `/` to the prefix, clears
    /// the filter, offers the entries of `listing` (the scan of that
    /// directory) and returns its name.  Otherwise changes nothing.
    pub fn enter_directory(&mut self, listing: Vec<FileInfo>) -> (r: Option<String>)
        requires
            old(self).wf(),
        ensures
            final(self).wf(),
            ({
                let sel = old(self).selected() as int;
                if sel < old(self).items().len() && old(self).items()[sel].is_dir {
                    let e = old(self).items()[sel];
                    &&& r matches Some(name) && name@ == e.name@
                    &&& final(self).base() == e.path@
                    &&& final(self).prefix() == old(self).prefix() + e.relative_path@ + "/"@
                    &&& final(self).filter_text() == Seq::<char>::empty()
                    &&& final(self).root() == old(self).root()
                    &&& final(self).selected() == 0
                    &&& scanned(e.path@, old(self).root(), Seq::empty(), listing@, final(self).items())
                } else {
                    &&& r is None
                    &&& *final(self) == *old(self)
                }
            }),
    {
        if self.selected_index < self.suggestions.len() && self.suggestions[self.selected_index].is_dir {
            let full_path = self.suggestions[self.selected_index].path.clone();
            let relative_path = self.suggestions[self.selected_index].relative_path.clone();
            let name = self.suggestions[self.selected_index].name.clone();
            self.base_path = full_path;
            let mut p: Vec<char> = chars_of(self.input_prefix.as_str());
            extend_str(&mut p, relative_path.as_str());
            extend_str(&mut p, "/");
            self.input_prefix = string_of(p.as_slice());
            self.filter = String::new();
            self.refresh_suggestions(listing);
            return Some(name);
        }
        None
    }

    /// Goes back to the parent directory when below the root: browses
    /// `canonical` (the parent's canonical path, when it could be found)
    /// or else the lexically cleaned `base/..`, drops the last component
    /// from the prefix (keeping up to and including its last `/`, or
    /// nothing), clears the filter and offers the entries of `listing` (the
    /// parent's).  At the root it changes nothing and returns false.
    pub fn parent_directory(&mut self, canonical: Option<String>, listing: Vec<FileInfo>) -> (r: bool)
        requires
            old(self).wf(),
        ensures
            final(self).wf(),
            r == (old(self).base() != old(self).root()),
            r ==> final(self).base() == (match canonical {
                Some(c) => c@,
                None => path_cleaned(path_joined(old(self).base(), ".."@)),
            }),
            r ==> final(self).prefix() == up_to_last_slash(old(self).prefix()),
            r ==> final(self).filter_text() == Seq::<char>::empty(),
            r ==> final(self).root() == old(self).root(),
            r ==> final(self).selected() == 0,
            r ==> scanned(final(self).base(), old(self).root(), Seq::empty(), listing@, final(self).items()),
            !r ==> *final(self) == *old(self),
    {
        let b = chars_of(self.base_path.as_str());
        let rt = chars_of(self.root_path.as_str());
        if crate::text::chars_eq(b.as_slice(), rt.as_slice()) {
            return false;
        }
        let joined = join_path(self.base_path.as_str(), "..");
        self.base_path = match canonical {
            Some(c) => c,
            None => clean_path(joined.as_str()),
        };
        let p = chars_of(self.input_prefix.as_str());
        let kept = prefix_to_last_slash(p.as_slice());
        self.input_prefix = string_of(kept.as_slice());
        self.filter = String::new();
        self.refresh_suggestions(listing);
        true
    }

    /// The relative path of the selected suggestion, if any.
    pub fn get_selected_path(&self) -> (r: Option<String>)
        requires
            self.wf(),
        ensures
            match r {
                Some(p) => self.selected() < self.items().len() && p@ == self.items()[self.selected() as int].relative_path@,
                None => self.items().len() == 0,
            },
    {
        match self.get_selected() {
            Some(info) => Some(info.relative_path.clone()),
            None => None,
        }
    }

    /// True when nothing is offered.
    pub fn is_empty(&self) -> (r: bool)
        ensures
            r == (self.items().len() == 0),
    {
        self.suggestions.len() == 0
    }

    /// Number of offered entries.
    pub fn len(&self) -> (r: usize)
        ensures
            r == self.items().len(),
    {
        self.suggestions.len()
    }

    /// What the popup draws in an area of the given size: nothing when the
    /// area is narrower than 10 or lower than 3; a message when nothing is
    /// offered; otherwise the titled list, at most 10 items (plus borders)
    /// tall.
    pub fn render_view(&self, area_width: u16, area_height: u16) -> (r: Option<AutocompleteView>)
        requires
            self.wf(),
        ensures
            (area_width < 10 || area_height < 3) ==> r is None,
            !(area_width < 10 || area_height < 3) && self.items().len() == 0 ==> (r matches Some(
                AutocompleteView::Empty { title, line },
            ) && title@ == empty_title() && spans_view(line@) == empty_line()),
            !(area_width < 10 || area_height < 3) && self.items().len() > 0 ==> (r matches Some(
                AutocompleteView::List { title, items, height },
            ) && title@ == popup_title(self.selected(), self.items().len()) && items@.len()
                == self.items().len() && (forall|i: int|
                0 <= i < items@.len() ==> spans_view(#[trigger] items@[i]@) == item_line(
                    self.items()[i],
                    i == self.selected(),
                    self.filter_text(),
                )) && height == popup_height(self.items().len(), area_height as nat)),
    {
        if area_width < 10 || area_height < 3 {
            return None;
        }
        if self.suggestions.len() == 0 {
            let mut line: Vec<Span> = Vec::new();
            line.push(span("📭", Style::fg(Color::White)));
            line.push(span(" ", Style::plain()));
            line.push(span("无匹配文件", Style::fg(Color::White)));
            assert(spans_view(line@) =~= empty_line());
            return Some(AutocompleteView::Empty { title: "📁 文件选择".to_owned(), line });
        }
        let n = self.suggestions.len();
        let mut items: Vec<Vec<Span>> = Vec::new();
        let mut i: usize = 0;
        while i < n
            invariant
                n == self.suggestions@.len(),
                i <= n,
                items@.len() == i,
                forall|k: int| 0 <= k < i ==> spans_view(#[trigger] items@[k]@) == item_line(
                    self.suggestions@[k],
                    k == self.selected_index,
                    self.filter@,
                ),
            decreases n - i,
        {
            let line = item_spans(&self.suggestions[i], i == self.selected_index, self.filter.as_str());
            items.push(line);
            i = i + 1;
        }
        let shown = if n < MAX_VISIBLE_ITEMS { n } else { MAX_VISIBLE_ITEMS };
        let max_height = shown + 2;
        let height: u16 = if max_height <= area_height as usize { max_height as u16 } else { area_height };
        let mut title: Vec<char> = Vec::new();
        extend_str(&mut title, "📁 文件选择 ");
        let a = decimal_chars((self.selected_index + 1) as u64);
        extend_chars(&mut title, a.as_slice());
        extend_str(&mut title, "/");
        let b = decimal_chars(n as u64);
        extend_chars(&mut title, b.as_slice());
        Some(AutocompleteView::List { title: string_of(title.as_slice()), items, height })
    }
}

/// Matching distributes over concatenation: the matches of a walk are the
/// matches of its first `j` entries followed by those of the rest.
proof fn lemma_matching_split(s: Seq<FileInfo>, j: int, filter: Seq<char>)
    requires
        0 <= j <= s.len(),
    ensures
        matching(s, filter) == matching(s.take(j), filter) + matching(s.skip(j), filter),
    decreases s.len() - j,
{
    if j == s.len() {
        assert(s.take(j) =~= s);
        assert(s.skip(j) =~= Seq::<FileInfo>::empty());
        assert(matching(s.take(j), filter) + matching(s.skip(j), filter) =~= matching(s, filter));
    } else {
        lemma_matching_concat(s.take(j), s.skip(j), filter);
        assert(s.take(j) + s.skip(j) =~= s);
    }
}

proof fn lemma_matching_concat(a: Seq<FileInfo>, b: Seq<FileInfo>, filter: Seq<char>)
    ensures
        matching(a + b, filter) == matching(a, filter) + matching(b, filter),
    decreases b.len(),
{
    if b.len() == 0 {
        assert(a + b =~= a);
        assert(matching(a, filter) + matching(b, filter) =~= matching(a, filter));
    } else {
        lemma_matching_concat(a, b.drop_last(), filter);
        assert((a + b).drop_last() =~= a + b.drop_last());
        assert((a + b).last() == b.last());
        if path_matches(b.last(), filter) {
            assert(matching(a, filter) + matching(b, filter) =~= (matching(a, filter) + matching(b.drop_last(), filter)).push(b.last()));
        } else {
            assert(matching(a, filter) + matching(b, filter) =~= matching(a, filter) + matching(b.drop_last(), filter));
        }
    }
}

} // verus!
