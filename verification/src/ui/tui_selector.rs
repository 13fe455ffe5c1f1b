//! Full-screen file selector: the found files, a type-to-filter list and a
//! selection moved by keys.  Searching the file system and drawing are left
//! to the caller.
use vstd::prelude::*;
use crate::text::{ascii_alphanumeric, chars_of, contains, contains_chars, lowercase_of, string_of, to_lowercase};

verus! {

/// Most files the selector keeps from a search.
pub const MAX_FILES: usize = 100;

/// Name for whether the path `a` comes before the path `b` in `Path`'s
/// component-wise order (`Path::new(a) < Path::new(b)`), which depends on
/// the platform's path syntax.
pub uninterp spec fn path_before(a: Seq<char>, b: Seq<char>) -> bool;

/// Paths in ascending path order: none comes before an earlier one.
pub open spec fn paths_sorted(s: Seq<String>) -> bool {
    forall|i: int, j: int| 0 <= i < j < s.len() ==> !path_before(#[trigger] s[j]@, #[trigger] s[i]@)
}

/// `slice::sort` on paths, as strings: the result rearranges the input
/// into ascending path order.
#[verifier::external_body]
fn sort_paths(v: Vec<String>) -> (r: Vec<String>)
    ensures
        r@.to_multiset() == v@.to_multiset(),
        forall|i: int, j: int| 0 <= i < j < r@.len() ==> !path_before(#[trigger] r@[j]@, #[trigger] r@[i]@),
{
    let mut p: Vec<std::path::PathBuf> = v.into_iter().map(std::path::PathBuf::from).collect();
    p.sort();
    p.into_iter().map(|x| x.to_string_lossy().into_owned()).collect()
}

/// `char::is_ascii_alphanumeric`.
pub fn is_ascii_alphanumeric(c: char) -> (r: bool)
    ensures
        r == ascii_alphanumeric(c),
{
    ('a' <= c && c <= 'z') || ('A' <= c && c <= 'Z') || ('0' <= c && c <= '9')
}

/// The indices of the files shown for a filter: all files for an empty
/// filter, else those whose path contains the filter, ignoring case.
pub open spec fn shown_indices(files: Seq<String>, filter: Seq<char>) -> Seq<usize>
    decreases files.len(),
{
    if files.len() == 0 {
        Seq::empty()
    } else {
        let p = shown_indices(files.drop_last(), filter);
        if filter.len() == 0 || contains(lowercase_of(files.last()@), lowercase_of(filter)) {
            p.push((files.len() - 1) as usize)
        } else {
            p
        }
    }
}

/// A key the selector reacts to.
#[derive(Debug, Clone, Copy, PartialEq, Eq, Structural)]
pub enum SelectorKey {
    Char(char),
    Esc,
    Enter,
    Down,
    Up,
    Backspace,
    Home,
    End,
    Other,
}

/// What the selector does after a key.
#[derive(Debug, Clone, PartialEq, Eq)]
pub enum SelectorAction {
    /// Keep running.
    Continue,
    /// Close without a choice.
    Cancel,
    /// Close choosing this file.
    Select(String),
}

/// TUI file selector.
pub struct TuiFileSelector {
    files: Vec<String>,
    filtered_indices: Vec<usize>,
    selected_idx: usize,
    filter: String,
}

impl TuiFileSelector {
    /// The files found by the last search.
    pub closed spec fn file_list(&self) -> Seq<String> {
        self.files@
    }

    /// Indices of the files shown.
    pub closed spec fn shown(&self) -> Seq<usize> {
        self.filtered_indices@
    }

    /// Position of the selection among the shown files.
    pub closed spec fn selected(&self) -> nat {
        self.selected_idx as nat
    }

    /// The filter typed so far.
    pub closed spec fn filter_text(&self) -> Seq<char> {
        self.filter@
    }

    /// Shown indices point at files and the selection at a shown file (or
    /// is 0 when none is shown).
    pub open spec fn wf(&self) -> bool {
        &&& forall|i: int| 0 <= i < self.shown().len() ==> (#[trigger] self.shown()[i]) < self.file_list().len()
        &&& (self.shown().len() == 0 ==> self.selected() == 0)
        &&& (self.shown().len() > 0 ==> self.selected() < self.shown().len())
    }

    /// An empty selector.
    pub fn new() -> (r: Self)
        ensures
            r.wf(),
            r.file_list().len() == 0,
            r.shown().len() == 0,
            r.selected() == 0,
            r.filter_text().len() == 0,
    {
        TuiFileSelector { files: Vec::new(), filtered_indices: Vec::new(), selected_idx: 0, filter: String::new() }
    }

    /// Takes the files found by a search (the files matching the glob
    /// pattern of `completer::search_pattern`): keeps the first 100 in path
    /// order, shows them all and selects the first.
    pub fn search(&mut self, found: Vec<String>)
        ensures
            final(self).wf(),
            final(self).file_list().len() == (if found@.len() <= MAX_FILES { found@.len() } else { MAX_FILES as nat }),
            exists|s: Seq<String>| #![auto] s.to_multiset() == found@.to_multiset() && paths_sorted(s)
                && final(self).file_list() == s.take(final(self).file_list().len() as int),
            final(self).shown() == Seq::new(final(self).file_list().len(), |i: int| i as usize),
            final(self).selected() == 0,
            final(self).filter_text() == old(self).filter_text(),
    {
        let mut files = sort_paths(found);
        proof {
            vstd::seq_lib::to_multiset_len(files@);
            vstd::seq_lib::to_multiset_len(found@);
        }
        let ghost s = files@;
        assert(paths_sorted(s));
        if files.len() > MAX_FILES {
            files.truncate(MAX_FILES);
        }
        assert(files@ == s.take(files@.len() as int));
        self.files = files;
        self.filtered_indices = all_indices(self.files.len());
        self.selected_idx = 0;
        assert(s.to_multiset() == found@.to_multiset() && paths_sorted(s) && self.file_list() == s.take(
            self.file_list().len() as int,
        ));
    }

    /// The files found by the last search.
    pub fn files(&self) -> (r: &Vec<String>)
        ensures
            r@ == self.file_list(),
    {
        &self.files
    }

    /// Indices of the files shown.
    pub fn filtered_indices(&self) -> (r: &Vec<usize>)
        ensures
            r@ == self.shown(),
    {
        &self.filtered_indices
    }

    /// Position of the selection among the shown files.
    pub fn selected_index(&self) -> (r: usize)
        ensures
            r == self.selected(),
    {
        self.selected_idx
    }

    /// The filter typed so far.
    pub fn filter(&self) -> (r: &str)
        ensures
            r@ == self.filter_text(),
    {
        self.filter.as_str()
    }

    /// Recomputes the shown files for the current filter.
    fn apply_filter(&mut self)
        ensures
            final(self).shown() == shown_indices(old(self).file_list(), old(self).filter_text()),
            final(self).file_list() == old(self).file_list(),
            final(self).filter_text() == old(self).filter_text(),
            final(self).selected() == old(self).selected(),
            forall|i: int| 0 <= i < final(self).shown().len() ==> (#[trigger] final(self).shown()[i]) < final(self).file_list().len(),
    {
        let lower_filter = to_lowercase(self.filter.as_str());
        let lf = chars_of(lower_filter.as_str());
        let filter_empty = self.filter.as_str().is_empty();
        let n = self.files.len();
        let mut out: Vec<usize> = Vec::new();
        let mut i: usize = 0;
        while i < n
            invariant
                n == self.files@.len(),
                i <= n,
                lf@ == lowercase_of(self.filter@),
                filter_empty == (self.filter@.len() == 0),
                out@ == shown_indices(self.files@.take(i as int), self.filter@),
                forall|k: int| 0 <= k < out@.len() ==> (#[trigger] out@[k]) < i,
            decreases n - i,
        {
            proof {
                assert(self.files@.take(i + 1).drop_last() =~= self.files@.take(i as int));
            }
            let keep = if filter_empty {
                true
            } else {
                let lower_path = to_lowercase(self.files[i].as_str());
                let lp = chars_of(lower_path.as_str());
                contains_chars(lp.as_slice(), lf.as_slice())
            };
            if keep {
                out.push(i);
            }
            i = i + 1;
        }
        assert(self.files@.take(n as int) =~= self.files@);
        self.filtered_indices = out;
    }

    /// Handles one key: `q` or Esc cancels; Enter chooses the selected file
    /// (when one is shown); Up and Down move the selection within the list;
    /// Home and End jump to its ends; an ASCII letter or digit extends the
    /// filter and Backspace shortens it, each re-filtering and selecting the
    /// first file; other keys do nothing.
    pub fn handle_key(&mut self, key: SelectorKey) -> (r: SelectorAction)
        requires
            old(self).wf(),
        ensures
            final(self).wf(),
            final(self).file_list() == old(self).file_list(),
            match key {
                SelectorKey::Char('q') | SelectorKey::Esc => r == SelectorAction::Cancel && *final(self) == *old(self),
                SelectorKey::Enter => if old(self).shown().len() > 0 {
                    r matches SelectorAction::Select(p) && p == old(self).file_list()[old(self).shown()[old(self).selected() as int] as int]
                        && *final(self) == *old(self)
                } else {
                    r == SelectorAction::Continue && *final(self) == *old(self)
                },
                SelectorKey::Down => r == SelectorAction::Continue && final(self).shown() == old(self).shown()
                    && final(self).filter_text() == old(self).filter_text()
                    && final(self).selected() == (if old(self).shown().len() > 0 && old(self).selected() + 1 < old(self).shown().len() {
                        (old(self).selected() + 1) as int
                    } else {
                        old(self).selected() as int
                    }),
                SelectorKey::Up => r == SelectorAction::Continue && final(self).shown() == old(self).shown()
                    && final(self).filter_text() == old(self).filter_text()
                    && final(self).selected() == (if old(self).selected() > 0 { old(self).selected() - 1 } else { 0int }),
                SelectorKey::Char(c) => if ascii_alphanumeric(c) {
                    r == SelectorAction::Continue && final(self).filter_text() == old(self).filter_text().push(c)
                        && final(self).shown() == shown_indices(old(self).file_list(), final(self).filter_text())
                        && final(self).selected() == 0
                } else {
                    r == SelectorAction::Continue && *final(self) == *old(self)
                },
                SelectorKey::Backspace => r == SelectorAction::Continue
                    && final(self).filter_text() == (if old(self).filter_text().len() > 0 { old(self).filter_text().drop_last() } else { old(self).filter_text() })
                    && final(self).shown() == shown_indices(old(self).file_list(), final(self).filter_text())
                    && final(self).selected() == 0,
                SelectorKey::Home => r == SelectorAction::Continue && final(self).shown() == old(self).shown()
                    && final(self).filter_text() == old(self).filter_text() && final(self).selected() == 0,
                SelectorKey::End => r == SelectorAction::Continue && final(self).shown() == old(self).shown()
                    && final(self).filter_text() == old(self).filter_text()
                    && final(self).selected() == (if old(self).shown().len() > 0 { old(self).shown().len() - 1 } else { 0int }),
                SelectorKey::Other => r == SelectorAction::Continue && *final(self) == *old(self),
            },
    {
        match key {
            SelectorKey::Char('q') | SelectorKey::Esc => SelectorAction::Cancel,
            SelectorKey::Enter => {
                if self.filtered_indices.len() > 0 {
                    let idx = self.filtered_indices[self.selected_idx];
                    SelectorAction::Select(self.files[idx].clone())
                } else {
                    SelectorAction::Continue
                }
            },
            SelectorKey::Down => {
                if self.filtered_indices.len() > 0 {
                    let next = self.selected_idx + 1;
                    let last = self.filtered_indices.len() - 1;
                    self.selected_idx = if next <= last { next } else { last };
                }
                SelectorAction::Continue
            },
            SelectorKey::Up => {
                self.selected_idx = self.selected_idx.saturating_sub(1);
                SelectorAction::Continue
            },
            SelectorKey::Char(c) => {
                if is_ascii_alphanumeric(c) {
                    let mut f = chars_of(self.filter.as_str());
                    f.push(c);
                    self.filter = string_of(f.as_slice());
                    self.apply_filter();
                    self.selected_idx = 0;
                }
                SelectorAction::Continue
            },
            SelectorKey::Backspace => {
                let mut f = chars_of(self.filter.as_str());
                if f.len() > 0 {
                    f.pop();
                }
                self.filter = string_of(f.as_slice());
                self.apply_filter();
                self.selected_idx = 0;
                SelectorAction::Continue
            },
            SelectorKey::Home => {
                self.selected_idx = 0;
                SelectorAction::Continue
            },
            SelectorKey::End => {
                self.selected_idx = self.filtered_indices.len().saturating_sub(1);
                SelectorAction::Continue
            },
            SelectorKey::Other => SelectorAction::Continue,
        }
    }
}

/// The indices `0..n`.
fn all_indices(n: usize) -> (r: Vec<usize>)
    ensures
        r@ == Seq::new(n as nat, |i: int| i as usize),
{
    let mut v: Vec<usize> = Vec::new();
    let mut i: usize = 0;
    while i < n
        invariant
            i <= n,
            v@ == Seq::new(i as nat, |k: int| k as usize),
        decreases n - i,
    {
        v.push(i);
        assert(v@ =~= Seq::new((i + 1) as nat, |k: int| k as usize));
        i = i + 1;
    }
    v
}

/// With an empty filter every file is shown, in order.
pub proof fn lemma_empty_filter_shows_all(files: Seq<String>)
    ensures
        shown_indices(files, Seq::empty()) == Seq::new(files.len(), |i: int| i as usize),
    decreases files.len(),
{
    if files.len() > 0 {
        lemma_empty_filter_shows_all(files.drop_last());
        assert(shown_indices(files, Seq::empty()) =~= Seq::new(files.len(), |i: int| i as usize));
    }
}

} // verus!
