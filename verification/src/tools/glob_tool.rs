//! The file finder of the first tool set: the files a glob pattern matches,
//! newest first, at most 100 of them.  Running the pattern and reading the
//! modification times are left to the caller.
use vstd::prelude::*;
use crate::text::{chars_of, decimal, decimal_chars, extend_chars, extend_str, starts_with, starts_with_str, string_of};

verus! {

/// Most files reported.
pub const MAX_RESULTS: usize = 100;

/// File pattern matching tool.
#[derive(Debug, Clone, Copy)]
pub struct GlobTool;

/// The pattern run: as given when it starts with `/` or `./`, otherwise
/// below the base directory (`.` by default).
pub open spec fn full_pattern_of(pattern: Seq<char>, base: Option<Seq<char>>) -> Seq<char> {
    if starts_with(pattern, "/"@) || starts_with(pattern, "./"@) {
        pattern
    } else {
        (match base {
            Some(b) => b,
            None => "."@,
        }) + "/"@ + pattern
    }
}

/// Name for a path with a leading `.` component removed
/// (`Path::strip_prefix(".")`), or none when it has none.
pub uninterp spec fn path_without_current_dir(p: Seq<char>) -> Option<Seq<char>>;

/// `Path::strip_prefix(".")` of a path given as a string.
#[verifier::external_body]
fn strip_current_dir(p: &str) -> (r: Option<String>)
    ensures
        r matches Some(s) ==> path_without_current_dir(p@) == Some(s@),
        r is None ==> path_without_current_dir(p@) is None,
{
    match std::path::Path::new(p).strip_prefix(".") {
        Ok(rest) => rest.to_str().map(|s| s.to_owned()),
        Err(_) => None,
    }
}

/// The path shown for a file: without a leading `.` component.
pub open spec fn shown_path(p: Seq<char>) -> Seq<char> {
    match path_without_current_dir(p) {
        Some(s) => s,
        None => p,
    }
}

/// The files are in order of modification time, newest first.
pub open spec fn newest_first_order(s: Seq<(String, u128)>) -> bool {
    forall|i: int, j: int| 0 <= i < j < s.len() ==> (#[trigger] s[i]).1 >= (#[trigger] s[j]).1
}

/// The report of the files found.
pub open spec fn glob_report(pattern: Seq<char>, files: Seq<Seq<char>>) -> Seq<char> {
    if files.len() == 0 {
        "No files found matching pattern: "@ + pattern
    } else {
        "Found "@ + decimal(files.len()) + " file(s) matching '"@ + pattern + "':\n"@ + file_lines(files) + (if files.len()
            >= MAX_RESULTS {
            "\n(Results limited to 100 most recent files)\n"@
        } else {
            Seq::empty()
        })
    }
}

/// The files, one per line, indented by two spaces.
pub open spec fn file_lines(files: Seq<Seq<char>>) -> Seq<char>
    decreases files.len(),
{
    if files.len() == 0 {
        Seq::empty()
    } else {
        file_lines(files.drop_last()) + "  "@ + files.last() + "\n"@
    }
}

impl GlobTool {
    /// The pattern to run (see `full_pattern_of`).
    pub fn full_pattern(pattern: &str, base: Option<&str>) -> (r: String)
        ensures
            r@ == full_pattern_of(pattern@, match base {
                Some(b) => Some(b@),
                None => None,
            }),
    {
        let p = chars_of(pattern);
        if starts_with_str(p.as_slice(), "/") || starts_with_str(p.as_slice(), "./") {
            return pattern.to_owned();
        }
        let mut r: Vec<char> = Vec::new();
        match base {
            Some(b) => extend_str(&mut r, b),
            None => extend_str(&mut r, "."),
        }
        extend_str(&mut r, "/");
        extend_str(&mut r, pattern);
        string_of(r.as_slice())
    }

    /// The files found, newest first (files with equal times keep their
    /// order), at most 100, each shown without a leading `.` component.
    pub fn newest_first(found: Vec<(String, u128)>) -> (r: Vec<String>)
        ensures
            exists|sorted: Seq<(String, u128)>|
                #![trigger sorted.to_multiset()]
                sorted.to_multiset() == found@.to_multiset() && newest_first_order(sorted) && r@.len() == (if sorted.len()
                    < MAX_RESULTS {
                    sorted.len() as int
                } else {
                    MAX_RESULTS as int
                }) && forall|i: int| 0 <= i < r@.len() ==> (#[trigger] r@[i])@ == shown_path(sorted[i].0@),
    {
        let ghost orig = found@;
        let mut rest = found;
        let mut out: Vec<(String, u128)> = Vec::new();
        proof {
            vstd::seq_lib::to_multiset_len(out@);
            assert(out@.to_multiset() =~= vstd::multiset::Multiset::empty());
            assert(out@.to_multiset().add(rest@.to_multiset()) =~= orig.to_multiset());
        }
        while rest.len() > 0
            invariant
                out@.to_multiset().add(rest@.to_multiset()) == orig.to_multiset(),
                newest_first_order(out@),
            decreases rest.len(),
        {
            let ghost before_rest = rest@;
            let x = rest.remove(0);
            assert(before_rest.remove(0) == rest@);
            let mut p: usize = out.len();
            while p > 0 && out[p - 1].1 < x.1
                invariant
                    p <= out.len(),
                    forall|k: int| p <= k < out.len() ==> (#[trigger] out@[k]).1 < x.1,
                decreases p,
            {
                p = p - 1;
            }
            let ghost old_out = out@;
            out.insert(p, x);
            proof {
                let n = out@;
                assert forall|i: int, j: int| 0 <= i < j < n.len() implies (#[trigger] n[i]).1 >= (#[trigger] n[j]).1 by {
                    if i < p && j < p {
                        assert(n[i] == old_out[i] && n[j] == old_out[j]);
                    } else if i < p && j == p {
                        assert(n[i] == old_out[i]);
                        assert(old_out[p - 1].1 >= x.1);
                    } else if i < p && j > p {
                        assert(n[i] == old_out[i] && n[j] == old_out[j - 1]);
                    } else if i == p {
                        assert(n[j] == old_out[j - 1]);
                    } else {
                        assert(n[i] == old_out[i - 1] && n[j] == old_out[j - 1]);
                    }
                }
                assert(before_rest.to_multiset() == rest@.to_multiset().insert(x)) by {
                    assert(before_rest =~= rest@.insert(0, x));
                    vstd::seq_lib::to_multiset_insert(rest@, 0, x);
                }
                vstd::seq_lib::to_multiset_insert(old_out, p as int, x);
                assert(out@.to_multiset().add(rest@.to_multiset()) =~= orig.to_multiset());
            }
        }
        proof {
            vstd::seq_lib::to_multiset_len(rest@);
            assert(rest@.to_multiset() =~= vstd::multiset::Multiset::empty());
            assert(out@.to_multiset().add(rest@.to_multiset()) =~= out@.to_multiset());
        }
        let n = if out.len() < MAX_RESULTS { out.len() } else { MAX_RESULTS };
        let mut r: Vec<String> = Vec::new();
        let mut k: usize = 0;
        while k < n
            invariant
                k <= n <= out@.len(),
                r@.len() == k,
                forall|i: int| 0 <= i < k ==> (#[trigger] r@[i])@ == shown_path(out@[i].0@),
            decreases n - k,
        {
            let shown = match strip_current_dir(out[k].0.as_str()) {
                Some(s) => s,
                None => out[k].0.clone(),
            };
            r.push(shown);
            k += 1;
        }
        r
    }

    /// The tool's answer (see `glob_report`).
    pub fn format_result(pattern: &str, files: &Vec<String>) -> (r: String)
        ensures
            r@ == glob_report(pattern@, files@.map_values(|s: String| s@)),
    {
        let ghost fs = files@.map_values(|s: String| s@);
        let mut out: Vec<char> = Vec::new();
        if files.len() == 0 {
            extend_str(&mut out, "No files found matching pattern: ");
            extend_str(&mut out, pattern);
            return string_of(out.as_slice());
        }
        extend_str(&mut out, "Found ");
        extend_chars(&mut out, decimal_chars(files.len() as u64).as_slice());
        extend_str(&mut out, " file(s) matching '");
        extend_str(&mut out, pattern);
        extend_str(&mut out, "':\n");
        let ghost head = out@;
        let mut k: usize = 0;
        while k < files.len()
            invariant
                k <= files@.len(),
                fs == files@.map_values(|s: String| s@),
                out@ == head + file_lines(fs.take(k as int)),
            decreases files.len() - k,
        {
            assert(fs.take(k + 1).drop_last() =~= fs.take(k as int));
            extend_str(&mut out, "  ");
            extend_str(&mut out, files[k].as_str());
            extend_str(&mut out, "\n");
            assert(out@ =~= head + file_lines(fs.take(k + 1)));
            k += 1;
        }
        assert(fs.take(files@.len() as int) =~= fs);
        if files.len() >= MAX_RESULTS {
            extend_str(&mut out, "\n(Results limited to 100 most recent files)\n");
        }
        string_of(out.as_slice())
    }

    /// The error for a pattern glob refuses.
    pub fn invalid_pattern(error: &str) -> (r: String)
        ensures
            r@ == "Invalid glob pattern: "@ + error@,
    {
        let mut m: Vec<char> = Vec::new();
        extend_str(&mut m, "Invalid glob pattern: ");
        extend_str(&mut m, error);
        string_of(m.as_slice())
    }
}

} // verus!
