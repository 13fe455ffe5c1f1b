//! The shell tool of the first tool set: one command line run through the
//! shell, its output cut at 50KB and reported with the exit code.  Running
//! the command is left to the caller.
use vstd::prelude::*;
use crate::text::{char_len_utf8, char_width_utf8, chars_of, decimal, decimal_chars, extend_chars, extend_str, string_of, utf8_len};

verus! {

/// Timeout of a command when none is given, in milliseconds.
pub const DEFAULT_TIMEOUT_MS: u64 = 30000;

/// Largest output kept, in bytes (50KB).
pub const MAX_OUTPUT_SIZE: usize = 51200;

/// Shell command tool.
#[derive(Debug, Clone, Copy)]
pub struct BashTool;

/// Number of leading characters of `s` whose UTF-8 encoding fits in `n`
/// bytes.
pub open spec fn chars_within(s: Seq<char>, n: int) -> int
    decreases s.len(),
{
    if s.len() == 0 || char_width_utf8(s[0]) > n {
        0
    } else {
        1 + chars_within(s.drop_first(), n - char_width_utf8(s[0]))
    }
}

/// The text is cut at a character boundary exactly `n` bytes in.
pub open spec fn boundary_at(s: Seq<char>, n: int) -> bool {
    exists|k: int| 0 <= k <= s.len() && #[trigger] utf8_len(s.take(k)) == n
}

/// Output over 50KB is cut to its first 50KB and followed by a note with
/// the original size; shorter output is kept whole.
pub open spec fn cut_output(content: Seq<char>) -> Seq<char> {
    if utf8_len(content) > MAX_OUTPUT_SIZE {
        content.take(chars_within(content, MAX_OUTPUT_SIZE as int)) + "\n\n--- Output truncated (was "@ + decimal(
            utf8_len(content),
        ) + " bytes) ---\n"@
    } else {
        content
    }
}

/// An integer in decimal, with a leading `-` when negative.
pub open spec fn signed_decimal(i: int) -> Seq<char> {
    if i < 0 {
        "-"@ + decimal((-i) as nat)
    } else {
        decimal(i as nat)
    }
}

/// An exit code as `{:?}` shows an `Option<i32>`.
pub open spec fn exit_code_debug(code: Option<i32>) -> Seq<char> {
    match code {
        Some(c) => "Some("@ + signed_decimal(c as int) + ")"@,
        None => "None"@,
    }
}

/// The report of a run: the standard output and error, each under its
/// heading when not empty (a placeholder when both are), then the exit code.
pub open spec fn command_report(stdout: Seq<char>, stderr: Seq<char>, exit_code: Option<i32>) -> Seq<char> {
    let out = if stdout.len() > 0 {
        "STDOUT:\n"@ + stdout
    } else {
        Seq::empty()
    };
    let both = if stderr.len() > 0 {
        out + (if out.len() > 0 {
            "\n"@
        } else {
            Seq::empty()
        }) + "STDERR:\n"@ + stderr
    } else {
        out
    };
    let body = if both.len() == 0 {
        "(Command produced no output)\n"@
    } else {
        both
    };
    body + "\nExit code: "@ + exit_code_debug(exit_code) + "\n"@
}

proof fn lemma_chars_within(s: Seq<char>, n: int)
    ensures
        0 <= chars_within(s, n) <= s.len(),
    decreases s.len(),
{
    if s.len() > 0 && char_width_utf8(s[0]) <= n {
        lemma_chars_within(s.drop_first(), n - char_width_utf8(s[0]));
    }
}

/// Cuts output over 50KB at 50KB and notes the original size.  The cut
/// falls on a character boundary (`requires`).
pub fn truncate_output(content: &str) -> (r: String)
    requires
        utf8_len(content@) <= usize::MAX,
        utf8_len(content@) > MAX_OUTPUT_SIZE ==> boundary_at(content@, MAX_OUTPUT_SIZE as int),
    ensures
        r@ == cut_output(content@),
{
    let size = crate::text::str_byte_len(content);
    if size <= MAX_OUTPUT_SIZE {
        return content.to_owned();
    }
    let c = chars_of(content);
    let mut out: Vec<char> = Vec::new();
    let mut acc: usize = 0;
    let mut i: usize = 0;
    let ghost s = content@;
    let mut full = false;
    assert(s.skip(0) =~= s);
    while i < c.len() && !full
        invariant
            c@ == s,
            i <= c@.len(),
            acc <= MAX_OUTPUT_SIZE,
            out@ == s.take(i as int),
            chars_within(s, MAX_OUTPUT_SIZE as int) == i + chars_within(s.skip(i as int), MAX_OUTPUT_SIZE - acc),
            full ==> i < c@.len() && chars_within(s.skip(i as int), MAX_OUTPUT_SIZE - acc) == 0,
        decreases c.len() - i + (if full { 0int } else { 1int }),
    {
        let w = char_len_utf8(c[i]);
        assert(s.skip(i as int)[0] == c@[i as int]);
        if w > MAX_OUTPUT_SIZE - acc {
            full = true;
        } else {
            assert(s.skip(i as int).drop_first() =~= s.skip(i + 1));
            out.push(c[i]);
            assert(out@ =~= s.take(i + 1));
            acc = acc + w;
            i += 1;
        }
    }
    proof {
        if !full {
            assert(s.skip(i as int).len() == 0);
        }
    }
    extend_str(&mut out, "\n\n--- Output truncated (was ");
    extend_chars(&mut out, decimal_chars(size as u64).as_slice());
    extend_str(&mut out, " bytes) ---\n");
    string_of(out.as_slice())
}

/// An integer in decimal.
fn signed_decimal_chars(i: i32) -> (r: Vec<char>)
    ensures
        r@ == signed_decimal(i as int),
{
    if i < 0 {
        let m: u64 = (-(i as i64)) as u64;
        let mut v: Vec<char> = Vec::new();
        v.push('-');
        extend_chars(&mut v, decimal_chars(m).as_slice());
        assert(v@ =~= "-"@ + decimal((-(i as int)) as nat)) by {
            reveal_strlit("-");
        }
        v
    } else {
        decimal_chars(i as u64)
    }
}

impl BashTool {
    /// Timeout of a run: the one given, or 30 s.
    pub fn timeout_ms(requested: Option<u64>) -> (r: u64)
        ensures
            r == match requested {
                Some(t) => t,
                None => DEFAULT_TIMEOUT_MS,
            },
    {
        match requested {
            Some(t) => t,
            None => DEFAULT_TIMEOUT_MS,
        }
    }

    /// The report of a finished run.
    pub fn format_output(stdout: &str, stderr: &str, exit_code: Option<i32>) -> (r: String)
        ensures
            r@ == command_report(stdout@, stderr@, exit_code),
    {
        let mut out: Vec<char> = Vec::new();
        let so = chars_of(stdout);
        let se = chars_of(stderr);
        if so.len() > 0 {
            extend_str(&mut out, "STDOUT:\n");
            extend_chars(&mut out, so.as_slice());
        }
        let ghost after_out = out@;
        if se.len() > 0 {
            if out.len() > 0 {
                extend_str(&mut out, "\n");
            }
            extend_str(&mut out, "STDERR:\n");
            extend_chars(&mut out, se.as_slice());
        }
        if out.len() == 0 {
            extend_str(&mut out, "(Command produced no output)\n");
        }
        extend_str(&mut out, "\nExit code: ");
        match exit_code {
            Some(c) => {
                extend_str(&mut out, "Some(");
                extend_chars(&mut out, signed_decimal_chars(c).as_slice());
                extend_str(&mut out, ")");
            },
            None => {
                extend_str(&mut out, "None");
            },
        }
        extend_str(&mut out, "\n");
        proof {
            reveal_strlit("STDOUT:\n");
            reveal_strlit("STDERR:\n");
            reveal_strlit("(Command produced no output)\n");
        }
        assert(out@ =~= command_report(stdout@, stderr@, exit_code));
        string_of(out.as_slice())
    }

    /// The error for a run that outlived its timeout.
    pub fn timed_out(timeout_ms: u64) -> (r: String)
        ensures
            r@ == "Command timed out after "@ + decimal(timeout_ms as nat) + "ms"@,
    {
        let mut m: Vec<char> = Vec::new();
        extend_str(&mut m, "Command timed out after ");
        extend_chars(&mut m, decimal_chars(timeout_ms).as_slice());
        extend_str(&mut m, "ms");
        string_of(m.as_slice())
    }
}

} // verus!
