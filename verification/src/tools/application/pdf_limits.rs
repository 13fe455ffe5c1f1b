//! The structure of PDF bytes that the PDF reader hands to lopdf.
//!
//! lopdf's loader follows the chain of cross-reference sections (`Prev`)
//! without noticing a repeat, reads an indirect stream `Length` by parsing
//! the object it names (which may name itself), parses nested arrays and
//! dictionaries recursively, and sizes loops and buffers by numbers read
//! from the file (`Size`, `Index`, `W`, predictor parameters).  The bytes
//! accepted here avoid every one of these: no name that, decoded, begins
//! with `Prev`, `ObjStm` or `Predictor`, no `Length` followed by a
//! reference, at most
//! `MAX_PDF_OPENERS` bytes that can open an array or a dictionary, and no
//! number larger than the file's length plus the largest generation number.
use vstd::prelude::*;

verus! {

/// Most bytes `[` and `<` accepted: a bound on the depth of nesting that
/// lopdf's recursive parser can meet (its literal strings nest at most 100
/// deep by lopdf's own limit).  A test loads 256 nested arrays on a 2 MB
/// stack; 512 exhaust it.
pub const MAX_PDF_OPENERS: usize = 128;

/// Largest generation number of a PDF object.
pub const MAX_GENERATION: usize = 65535;

/// PDF white space.
pub open spec fn pdf_space(b: u8) -> bool {
    b == 32 || b == 9 || b == 10 || b == 13 || b == 0 || b == 12
}

/// PDF delimiters: `()<>[]{}/%`.
pub open spec fn pdf_delimiter(b: u8) -> bool {
    b == 40 || b == 41 || b == 60 || b == 62 || b == 91 || b == 93 || b == 123 || b == 125 || b == 47 || b == 37
}

/// A byte that may stand in a name as itself.
pub open spec fn pdf_regular(b: u8) -> bool {
    !pdf_space(b) && !pdf_delimiter(b)
}

/// An ASCII decimal digit.
pub open spec fn ascii_digit(b: u8) -> bool {
    48 <= b <= 57
}

/// The value of a hexadecimal digit (either case).
pub open spec fn hex_value(b: u8) -> Option<u8> {
    if 48 <= b <= 57 {
        Some((b - 48) as u8)
    } else if 65 <= b <= 70 {
        Some((b - 55) as u8)
    } else if 97 <= b <= 102 {
        Some((b - 87) as u8)
    } else {
        None
    }
}

/// The byte of a name at `j` and the position after it: `#` and two
/// hexadecimal digits stand for the byte they spell, any other regular byte
/// but `#` for itself.
pub open spec fn name_symbol(d: Seq<u8>, j: int) -> Option<(u8, int)> {
    if 0 <= j && j + 3 <= d.len() && d[j] == 35 && hex_value(d[j + 1]) is Some && hex_value(d[j + 2]) is Some {
        Some(((hex_value(d[j + 1]).unwrap() * 16 + hex_value(d[j + 2]).unwrap()) as u8, j + 3))
    } else if 0 <= j < d.len() && d[j] != 35 && pdf_regular(d[j]) {
        Some((d[j], j + 1))
    } else {
        None
    }
}

/// Where the name text starting at `j` has spelled `pat`, if it does.
pub open spec fn name_prefix_end(d: Seq<u8>, j: int, pat: Seq<u8>) -> Option<int>
    decreases pat.len(),
{
    if pat.len() == 0 {
        Some(j)
    } else {
        match name_symbol(d, j) {
            Some((b, k)) => if b == pat[0] {
                name_prefix_end(d, k, pat.drop_first())
            } else {
                None
            },
            None => None,
        }
    }
}

/// Position of the first line break at or after `j`.
pub open spec fn line_end(d: Seq<u8>, j: int) -> int
    decreases d.len() - j,
{
    if j < 0 || j >= d.len() {
        d.len() as int
    } else if d[j] == 10 || d[j] == 13 {
        j
    } else {
        line_end(d, j + 1)
    }
}

/// Position after the white space and comments starting at `j`.
pub open spec fn after_space(d: Seq<u8>, j: int) -> int
    decreases d.len() - j,
{
    if j < 0 || j >= d.len() {
        j
    } else if pdf_space(d[j]) {
        after_space(d, j + 1)
    } else if d[j] == 37 && j + 1 <= line_end(d, j + 1) < d.len() {
        after_space(d, line_end(d, j + 1) + 1)
    } else {
        j
    }
}

/// Position after the run of digits starting at `j`.
pub open spec fn digits_end(d: Seq<u8>, j: int) -> int
    decreases d.len() - j,
{
    if j < 0 || j >= d.len() {
        j
    } else if ascii_digit(d[j]) {
        digits_end(d, j + 1)
    } else {
        j
    }
}

/// Whether a reference `n g R` follows `e`, after white space.
pub open spec fn reference_follows(d: Seq<u8>, e: int) -> bool {
    let p1 = after_space(d, e);
    let p2 = digits_end(d, p1);
    let p3 = after_space(d, p2);
    let p4 = digits_end(d, p3);
    let p5 = after_space(d, p4);
    p1 < p2 && p3 < p4 && 0 <= p5 < d.len() && d[p5] == 82
}

pub open spec fn prev_name() -> Seq<u8> {
    seq![80u8, 114, 101, 118]
}

pub open spec fn objstm_name() -> Seq<u8> {
    seq![79u8, 98, 106, 83, 116, 109]
}

pub open spec fn predictor_name() -> Seq<u8> {
    seq![80u8, 114, 101, 100, 105, 99, 116, 111, 114]
}

pub open spec fn length_name() -> Seq<u8> {
    seq![76u8, 101, 110, 103, 116, 104]
}

/// A name at `i` (a `/`) that lopdf could loop or recurse on: it spells
/// `Prev`, `ObjStm` or `Predictor` at its start, or spells `Length` and is
/// followed by a reference.
pub open spec fn risky_name_at(d: Seq<u8>, i: int) -> bool {
    &&& 0 <= i < d.len()
    &&& d[i] == 47
    &&& {
        ||| name_prefix_end(d, i + 1, prev_name()) is Some
        ||| name_prefix_end(d, i + 1, objstm_name()) is Some
        ||| name_prefix_end(d, i + 1, predictor_name()) is Some
        ||| (name_prefix_end(d, i + 1, length_name()) matches Some(e) && reference_follows(d, e))
    }
}

/// Value of a run of decimal digits.
pub open spec fn digits_number(s: Seq<u8>) -> nat
    decreases s.len(),
{
    if s.len() == 0 {
        0
    } else {
        digits_number(s.drop_last()) * 10 + (s.last() - 48) as nat
    }
}

/// Every run of digits from `i` on (each taken whole) is at most `bound`;
/// a number read from part of a run is at most the whole run.
pub open spec fn numbers_bounded_from(d: Seq<u8>, i: int, bound: nat) -> bool
    decreases d.len() - i,
{
    if i < 0 || i >= d.len() {
        true
    } else if !ascii_digit(d[i]) {
        numbers_bounded_from(d, i + 1, bound)
    } else {
        let e = digits_end(d, i + 1);
        if e <= i || e > d.len() {
            false
        } else {
            digits_number(d.subrange(i, e)) <= bound && numbers_bounded_from(d, e, bound)
        }
    }
}

/// Number of bytes `[` or `<` in `d`.
pub open spec fn opener_count(d: Seq<u8>) -> nat
    decreases d.len(),
{
    if d.len() == 0 {
        0
    } else {
        opener_count(d.drop_last()) + if d.last() == 91 || d.last() == 60 { 1nat } else { 0nat }
    }
}

/// PDF bytes within the limits that lopdf's loader is given.
pub open spec fn pdf_within_limits(d: Seq<u8>) -> bool {
    &&& forall|i: int| 0 <= i < d.len() ==> !risky_name_at(d, i)
    &&& numbers_bounded_from(d, 0, (d.len() + MAX_GENERATION) as nat)
    &&& opener_count(d) <= MAX_PDF_OPENERS
}

fn hex_of(b: u8) -> (r: Option<u8>)
    ensures
        r == hex_value(b),
{
    if 48 <= b && b <= 57 {
        Some(b - 48)
    } else if 65 <= b && b <= 70 {
        Some(b - 55)
    } else if 97 <= b && b <= 102 {
        Some(b - 87)
    } else {
        None
    }
}

fn is_regular_byte(b: u8) -> (r: bool)
    ensures
        r == pdf_regular(b),
{
    !(b == 32 || b == 9 || b == 10 || b == 13 || b == 0 || b == 12) && !(b == 40 || b == 41 || b == 60 || b == 62
        || b == 91 || b == 93 || b == 123 || b == 125 || b == 47 || b == 37)
}

fn symbol_at(d: &[u8], j: usize) -> (r: Option<(u8, usize)>)
    ensures
        match r {
            None => name_symbol(d@, j as int) is None,
            Some((b, k)) => name_symbol(d@, j as int) == Some((b, k as int)) && k <= d.len(),
        },
{
    if j < d.len() && d[j] == 35 && d.len() - j >= 3 {
        if let Some(h) = hex_of(d[j + 1]) {
            if let Some(l) = hex_of(d[j + 2]) {
                return Some((h * 16 + l, j + 3));
            }
        }
    }
    if j < d.len() && d[j] != 35 && is_regular_byte(d[j]) {
        Some((d[j], j + 1))
    } else {
        None
    }
}

fn prefix_end(d: &[u8], j: usize, pat: &[u8]) -> (r: Option<usize>)
    requires
        j <= d.len(),
    ensures
        match r {
            None => name_prefix_end(d@, j as int, pat@) is None,
            Some(e) => name_prefix_end(d@, j as int, pat@) == Some(e as int) && e <= d.len(),
        },
{
    let mut k: usize = 0;
    let mut cur = j;
    assert(pat@.skip(0) =~= pat@);
    while k < pat.len()
        invariant
            k <= pat.len(),
            cur <= d.len(),
            name_prefix_end(d@, j as int, pat@) == name_prefix_end(d@, cur as int, pat@.skip(k as int)),
        decreases pat.len() - k,
    {
        assert(pat@.skip(k as int).drop_first() =~= pat@.skip(k + 1));
        match symbol_at(d, cur) {
            Some((b, next)) => {
                if b != pat[k] {
                    return None;
                }
                cur = next;
            },
            None => {
                return None;
            },
        }
        k += 1;
    }
    assert(pat@.skip(k as int).len() == 0);
    Some(cur)
}

proof fn lemma_line_end(d: Seq<u8>, j: int)
    requires
        0 <= j <= d.len(),
    ensures
        j <= line_end(d, j) <= d.len(),
    decreases d.len() - j,
{
    if j < d.len() && !(d[j] == 10 || d[j] == 13) {
        lemma_line_end(d, j + 1);
    }
}

proof fn lemma_digits_end(d: Seq<u8>, j: int)
    requires
        0 <= j <= d.len(),
    ensures
        j <= digits_end(d, j) <= d.len(),
        forall|k: int| j <= k < digits_end(d, j) ==> ascii_digit(#[trigger] d[k]),
    decreases d.len() - j,
{
    if j < d.len() && ascii_digit(d[j]) {
        lemma_digits_end(d, j + 1);
    }
}

fn line_end_at(d: &[u8], j: usize) -> (r: usize)
    requires
        j <= d.len(),
    ensures
        r == line_end(d@, j as int),
{
    let mut k = j;
    while k < d.len() && d[k] != 10 && d[k] != 13
        invariant
            j <= k <= d.len(),
            line_end(d@, j as int) == line_end(d@, k as int),
        decreases d.len() - k,
    {
        k += 1;
    }
    k
}

fn after_space_at(d: &[u8], j: usize) -> (r: usize)
    requires
        j <= d.len(),
    ensures
        r == after_space(d@, j as int),
        j <= r <= d.len(),
{
    let mut k = j;
    while k < d.len()
        invariant
            j <= k <= d.len(),
            after_space(d@, j as int) == after_space(d@, k as int),
        decreases d.len() - k,
    {
        let b = d[k];
        if b == 32 || b == 9 || b == 10 || b == 13 || b == 0 || b == 12 {
            k += 1;
        } else if b == 37 {
            let e = line_end_at(d, k + 1);
            proof {
                lemma_line_end(d@, k + 1);
            }
            if e < d.len() {
                k = e + 1;
            } else {
                return k;
            }
        } else {
            return k;
        }
    }
    k
}

fn digits_end_at(d: &[u8], j: usize) -> (r: usize)
    requires
        j <= d.len(),
    ensures
        r == digits_end(d@, j as int),
        j <= r <= d.len(),
{
    proof {
        lemma_digits_end(d@, j as int);
    }
    let mut k = j;
    while k < d.len() && 48 <= d[k] && d[k] <= 57
        invariant
            j <= k <= d.len(),
            digits_end(d@, j as int) == digits_end(d@, k as int),
        decreases d.len() - k,
    {
        k += 1;
    }
    k
}

fn reference_at(d: &[u8], e: usize) -> (r: bool)
    requires
        e <= d.len(),
    ensures
        r == reference_follows(d@, e as int),
{
    let p1 = after_space_at(d, e);
    let p2 = digits_end_at(d, p1);
    let p3 = after_space_at(d, p2);
    let p4 = digits_end_at(d, p3);
    let p5 = after_space_at(d, p4);
    p1 < p2 && p3 < p4 && p5 < d.len() && d[p5] == 82
}

fn risky_at(d: &[u8], i: usize) -> (r: bool)
    requires
        i < d.len(),
    ensures
        r == risky_name_at(d@, i as int),
{
    if d[i] != 47 {
        return false;
    }
    let prev: [u8; 4] = [80, 114, 101, 118];
    let objstm: [u8; 6] = [79, 98, 106, 83, 116, 109];
    let predictor: [u8; 9] = [80, 114, 101, 100, 105, 99, 116, 111, 114];
    let length: [u8; 6] = [76, 101, 110, 103, 116, 104];
    assert(prev@ =~= prev_name());
    assert(objstm@ =~= objstm_name());
    assert(predictor@ =~= predictor_name());
    assert(length@ =~= length_name());
    if prefix_end(d, i + 1, &prev).is_some() || prefix_end(d, i + 1, &objstm).is_some() || prefix_end(
        d,
        i + 1,
        &predictor,
    ).is_some() {
        return true;
    }
    match prefix_end(d, i + 1, &length) {
        Some(e) => reference_at(d, e),
        None => false,
    }
}

proof fn lemma_digits_number_mono(s: Seq<u8>, n: int)
    requires
        0 <= n <= s.len(),
        forall|k: int| 0 <= k < s.len() ==> ascii_digit(#[trigger] s[k]),
    ensures
        digits_number(s.subrange(0, n)) <= digits_number(s),
    decreases s.len() - n,
{
    if n < s.len() {
        lemma_digits_number_mono(s, n + 1);
        let p = s.subrange(0, n + 1);
        assert(p.drop_last() =~= s.subrange(0, n));
        assert(digits_number(p) >= digits_number(s.subrange(0, n))) by (nonlinear_arith)
            requires
                digits_number(p) == digits_number(s.subrange(0, n)) * 10 + (p.last() - 48) as nat,
        ;
    } else {
        assert(s.subrange(0, n) =~= s);
    }
}

/// Whether the digit run `d[i..e]` is at most `bound`.
fn run_within(d: &[u8], i: usize, e: usize, bound: u128) -> (r: bool)
    requires
        i <= e <= d.len(),
        forall|k: int| i <= k < e ==> ascii_digit(#[trigger] d@[k]),
        bound <= 0x1_0000_0000_0000_0000_0000,
    ensures
        r == (digits_number(d@.subrange(i as int, e as int)) <= bound),
{
    let mut v: u128 = 0;
    let mut k = i;
    while k < e
        invariant
            i <= k <= e <= d.len(),
            forall|m: int| i <= m < e ==> ascii_digit(#[trigger] d@[m]),
            bound <= 0x1_0000_0000_0000_0000_0000,
            v == digits_number(d@.subrange(i as int, k as int)),
            v <= bound,
        decreases e - k,
    {
        assert(d@.subrange(i as int, k + 1).drop_last() =~= d@.subrange(i as int, k as int));
        let digit = (d[k] - 48) as u128;
        v = v * 10 + digit;
        if v > bound {
            proof {
                let whole = d@.subrange(i as int, e as int);
                lemma_digits_number_mono(whole, (k + 1 - i) as int);
                assert(whole.subrange(0, (k + 1 - i) as int) =~= d@.subrange(i as int, k + 1));
            }
            return false;
        }
        k += 1;
    }
    true
}

/// Whether every run of digits is at most `bound`.
fn numbers_within(d: &[u8], bound: u128) -> (r: bool)
    requires
        bound <= 0x1_0000_0000_0000_0000_0000,
    ensures
        r == numbers_bounded_from(d@, 0, bound as nat),
{
    let mut i: usize = 0;
    while i < d.len()
        invariant
            i <= d.len(),
            bound <= 0x1_0000_0000_0000_0000_0000,
            numbers_bounded_from(d@, 0, bound as nat) == numbers_bounded_from(d@, i as int, bound as nat),
        decreases d.len() - i,
    {
        if !(48 <= d[i] && d[i] <= 57) {
            i += 1;
        } else {
            let e = digits_end_at(d, i + 1);
            proof {
                lemma_digits_end(d@, i + 1);
            }
            if !run_within(d, i, e, bound) {
                return false;
            }
            i = e;
        }
    }
    true
}

/// Number of bytes `[` or `<`.
fn openers_in(d: &[u8]) -> (r: usize)
    ensures
        r == opener_count(d@),
{
    let mut c: usize = 0;
    let mut i: usize = 0;
    while i < d.len()
        invariant
            i <= d.len(),
            c == opener_count(d@.take(i as int)),
            c <= i,
        decreases d.len() - i,
    {
        assert(d@.take(i + 1).drop_last() =~= d@.take(i as int));
        if d[i] == 91 || d[i] == 60 {
            c += 1;
        }
        i += 1;
    }
    assert(d@.take(i as int) =~= d@);
    c
}

/// Whether PDF bytes are within the limits that lopdf's loader is given.
pub fn within_pdf_limits(d: &[u8]) -> (r: bool)
    ensures
        r == pdf_within_limits(d@),
{
    let mut i: usize = 0;
    while i < d.len()
        invariant
            i <= d.len(),
            forall|k: int| 0 <= k < i ==> !risky_name_at(d@, k),
        decreases d.len() - i,
    {
        if risky_at(d, i) {
            return false;
        }
        i += 1;
    }
    let bound: u128 = d.len() as u128 + 65535;
    if !numbers_within(d, bound) {
        return false;
    }
    openers_in(d) <= MAX_PDF_OPENERS
}

} // verus!
