//! Line-based prompts: choosing one of several candidate files, and yes/no
//! confirmation.  The caller reads the lines; the answers are decided here.
use vstd::prelude::*;
use crate::text::{chars_of, eq_str, lowercase_of, parse_usize_chars, string_of, to_lowercase, trim, trim_chars, usize_from_str};

verus! {

/// Interactive file selector.
pub struct FileSelector;

/// What an answer to the candidate prompt means.
#[derive(Debug, Clone, Copy, PartialEq, Eq, Structural)]
pub enum CandidateChoice {
    /// Empty answer: choose nothing.
    Skip,
    /// The candidate at this index (the answer counts from 1).
    Pick(usize),
    /// Not a number from 1 to the number of candidates: ask again.
    Invalid,
}

/// The meaning of an answer line to the candidate prompt with `count`
/// candidates.
pub open spec fn choice_of(input: Seq<char>, count: nat) -> CandidateChoice {
    let t = trim(input);
    if t.len() == 0 {
        CandidateChoice::Skip
    } else {
        match usize_from_str(t) {
            Some(n) => if 1 <= n && n <= count { CandidateChoice::Pick((n - 1) as usize) } else { CandidateChoice::Invalid },
            None => CandidateChoice::Invalid,
        }
    }
}

/// The meaning of an answer line to a yes/no question: `y` or `yes` is
/// yes, `n` or `no` is no, ignoring case and surrounding whitespace;
/// anything else asks again.
pub open spec fn confirmation_of(input: Seq<char>) -> Option<bool> {
    let t = lowercase_of(trim(input));
    if t == "y"@ || t == "yes"@ {
        Some(true)
    } else if t == "n"@ || t == "no"@ {
        Some(false)
    } else {
        None
    }
}

impl FileSelector {
    /// Interprets one answer line to the candidate prompt.
    pub fn parse_choice(input: &str, count: usize) -> (r: CandidateChoice)
        ensures
            r == choice_of(input@, count as nat),
    {
        let c = chars_of(input);
        let t = trim_chars(c.as_slice());
        if t.len() == 0 {
            return CandidateChoice::Skip;
        }
        match parse_usize_chars(t.as_slice()) {
            Some(n) => {
                if n >= 1 && n <= count {
                    CandidateChoice::Pick(n - 1)
                } else {
                    CandidateChoice::Invalid
                }
            },
            None => CandidateChoice::Invalid,
        }
    }

    /// Interprets one answer line to a yes/no question.
    pub fn parse_confirmation(input: &str) -> (r: Option<bool>)
        ensures
            r == confirmation_of(input@),
    {
        let c = chars_of(input);
        let t = string_of(trim_chars(c.as_slice()).as_slice());
        let lower = to_lowercase(t.as_str());
        let l = chars_of(lower.as_str());
        let s = l.as_slice();
        if eq_str(s, "y") || eq_str(s, "yes") {
            Some(true)
        } else if eq_str(s, "n") || eq_str(s, "no") {
            Some(false)
        } else {
            None
        }
    }
}

} // verus!
