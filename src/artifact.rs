//! Verification of a finished artifact: it must be accessible and non-empty,
//! and the probe must report a positive duration for it.
use vstd::prelude::*;
use crate::progress::is_digit;
use crate::text::{chars_of, copy_range};

verus! {

/// Why an artifact is unusable; each step of the check has its own.
#[derive(Clone, Copy, PartialEq, Eq, Structural, Debug)]
pub enum ArtifactProblem {
    /// The file could not be accessed (or does not exist).
    Inaccessible,
    /// The file is empty.
    Empty,
    /// The probe could not be run.
    ProbeUnavailable,
    /// The probe rejected the file as a media container.
    InvalidContainer,
    /// The probe's output is not a number.
    UnknownDuration,
    /// The probe reported a duration of zero or less.
    NonPositiveDuration,
}

/// What the probe produced.
#[derive(Debug)]
pub struct ProbeReport {
    /// The probe exited successfully.
    pub success: bool,
    /// Its standard output.
    pub output: String,
}

/// The first step: the size of the file, `None` when it cannot be read.
pub open spec fn size_problem(size: Option<u64>) -> Option<ArtifactProblem> {
    match size {
        None => Some(ArtifactProblem::Inaccessible),
        Some(n) => if n == 0 {
            Some(ArtifactProblem::Empty)
        } else {
            None
        },
    }
}

/// A character with the Unicode `White_Space` property.
pub open spec fn is_blank(c: char) -> bool {
    ('\u{9}' <= c && c <= '\u{d}') || c == ' ' || c == '\u{85}' || c == '\u{a0}' || c
        == '\u{1680}' || ('\u{2000}' <= c && c <= '\u{200a}') || c == '\u{2028}' || c
        == '\u{2029}' || c == '\u{202f}' || c == '\u{205f}' || c == '\u{3000}'
}

fn blank(c: char) -> (r: bool)
    ensures
        r == is_blank(c),
{
    ('\u{9}' <= c && c <= '\u{d}') || c == ' ' || c == '\u{85}' || c == '\u{a0}' || c
        == '\u{1680}' || ('\u{2000}' <= c && c <= '\u{200a}') || c == '\u{2028}' || c
        == '\u{2029}' || c == '\u{202f}' || c == '\u{205f}' || c == '\u{3000}'
}

/// Index of the first non-blank character of `s` at or after `i`.
pub open spec fn blank_run_end(s: Seq<char>, i: int) -> int
    decreases s.len() - i,
{
    if 0 <= i < s.len() && is_blank(s[i]) {
        blank_run_end(s, i + 1)
    } else {
        i
    }
}

/// Index just past the last non-blank character of `s[..j]`.
pub open spec fn blank_run_start(s: Seq<char>, j: int) -> int
    decreases j,
{
    if 0 < j <= s.len() && is_blank(s[j - 1]) {
        blank_run_start(s, j - 1)
    } else {
        j
    }
}

/// `s` without its leading and trailing blanks.
pub open spec fn trimmed(s: Seq<char>) -> Seq<char> {
    let a = blank_run_end(s, 0);
    let b = blank_run_start(s, s.len() as int);
    if a < b {
        s.subrange(a, b)
    } else {
        Seq::empty()
    }
}

/// `t` without its sign, if it has one.
pub open spec fn unsigned(t: Seq<char>) -> Seq<char> {
    if t.len() > 0 && (t[0] == '+' || t[0] == '-') {
        t.drop_first()
    } else {
        t
    }
}

pub open spec fn is_point(c: char) -> bool {
    c == '.'
}

pub open spec fn is_nonzero_digit(c: char) -> bool {
    is_digit(c) && c != '0'
}

/// `t` is a number in plain decimal notation: an optional sign, then digits
/// with at most one decimal point, and at least one digit.
pub open spec fn is_plain_decimal(t: Seq<char>) -> bool {
    let b = unsigned(t);
    &&& forall|i: int| 0 <= i < b.len() ==> is_digit(#[trigger] b[i]) || is_point(b[i])
    &&& forall|i: int, j: int|
        0 <= i < j < b.len() ==> !(#[trigger] is_point(b[i]) && #[trigger] is_point(b[j]))
    &&& exists|i: int| 0 <= i < b.len() && is_digit(#[trigger] b[i])
}

/// `t` is a plain decimal number greater than zero.
pub open spec fn is_positive_plain(t: Seq<char>) -> bool {
    let b = unsigned(t);
    is_plain_decimal(t) && t[0] != '-' && exists|i: int|
        0 <= i < b.len() && #[trigger] is_nonzero_digit(b[i])
}

pub open spec fn is_exponent_mark(c: char) -> bool {
    c == 'e' || c == 'E'
}

/// The end of the mantissa of `t`: its first exponent mark at or after `i`,
/// or its length.
pub open spec fn mantissa_end(t: Seq<char>, i: int) -> int
    decreases t.len() - i,
{
    if 0 <= i < t.len() && !is_exponent_mark(t[i]) {
        mantissa_end(t, i + 1)
    } else {
        i
    }
}

/// `x` is an exponent: an optional sign, then one or more digits.
pub open spec fn is_exponent(x: Seq<char>) -> bool {
    let y = unsigned(x);
    y.len() > 0 && forall|i: int| 0 <= i < y.len() ==> is_digit(#[trigger] y[i])
}

/// `t` is a decimal number: a plain decimal mantissa, then optionally `e` or
/// `E` and an exponent.
pub open spec fn is_decimal(t: Seq<char>) -> bool {
    let m = mantissa_end(t, 0);
    is_plain_decimal(t.subrange(0, m)) && (m == t.len() || is_exponent(
        t.subrange(m + 1, t.len() as int),
    ))
}

/// `t` is a decimal number whose mantissa is greater than zero (so is the
/// number, whatever its exponent).
pub open spec fn is_positive_decimal(t: Seq<char>) -> bool {
    is_decimal(t) && is_positive_plain(t.subrange(0, mantissa_end(t, 0)))
}

/// The second step: what the probe reported, `None` when it could not run.
pub open spec fn probe_problem(report: Option<(bool, Seq<char>)>) -> Option<ArtifactProblem> {
    match report {
        None => Some(ArtifactProblem::ProbeUnavailable),
        Some((success, out)) => if !success {
            Some(ArtifactProblem::InvalidContainer)
        } else if !is_decimal(trimmed(out)) {
            Some(ArtifactProblem::UnknownDuration)
        } else if !is_positive_decimal(trimmed(out)) {
            Some(ArtifactProblem::NonPositiveDuration)
        } else {
            None
        },
    }
}

pub open spec fn report_model(report: Option<ProbeReport>) -> Option<(bool, Seq<char>)> {
    match report {
        None => None,
        Some(r) => Some((r.success, r.output@)),
    }
}

/// The first step of the check, on the size of the file (`None`: it could
/// not be read). A missing or empty file fails it.
pub fn check_size(size: Option<u64>) -> (r: Result<(), ArtifactProblem>)
    ensures
        r is Err <==> size_problem(size) is Some,
        r is Err ==> r == Err::<(), ArtifactProblem>(size_problem(size)->0),
        size is None ==> r == Err::<(), ArtifactProblem>(ArtifactProblem::Inaccessible),
        size == Some(0u64) ==> r == Err::<(), ArtifactProblem>(ArtifactProblem::Empty),
{
    match size {
        None => Err(ArtifactProblem::Inaccessible),
        Some(n) => if n == 0 {
            Err(ArtifactProblem::Empty)
        } else {
            Ok(())
        },
    }
}

fn trim_bounds(s: &Vec<char>) -> (r: (usize, usize))
    ensures
        r.0 <= r.1 <= s.len(),
        s@.subrange(r.0 as int, r.1 as int) == trimmed(s@),
{
    let mut a: usize = 0;
    while a < s.len() && blank(s[a])
        invariant
            a <= s.len(),
            blank_run_end(s@, 0) == blank_run_end(s@, a as int),
        decreases s.len() - a,
    {
        a += 1;
    }
    let mut b: usize = s.len();
    while b > 0 && blank(s[b - 1])
        invariant
            b <= s.len(),
            blank_run_start(s@, s.len() as int) == blank_run_start(s@, b as int),
        decreases b,
    {
        b -= 1;
    }
    if a < b {
        (a, b)
    } else {
        assert(s@.subrange(a as int, a as int) =~= Seq::<char>::empty());
        (a, a)
    }
}

/// Reads `t` as a plain decimal number: `None` when it is not one, else
/// whether it is greater than zero.
fn plain_sign(t: &Vec<char>) -> (r: Option<bool>)
    ensures
        r is Some <==> is_plain_decimal(t@),
        r == Some(true) <==> is_positive_plain(t@),
{
    let ghost b = unsigned(t@);
    let start: usize = if t.len() > 0 && (t[0] == '+' || t[0] == '-') {
        1
    } else {
        0
    };
    assert(b =~= t@.subrange(start as int, t.len() as int));
    let mut i: usize = start;
    let mut seen_digit = false;
    let mut seen_nonzero = false;
    let mut seen_dot = false;
    while i < t.len()
        invariant
            start <= i <= t.len(),
            b == t@.subrange(start as int, t.len() as int),
            b == unsigned(t@),
            start == 1 <==> (t.len() > 0 && (t@[0] == '+' || t@[0] == '-')),
            forall|k: int| 0 <= k < i - start ==> is_digit(#[trigger] b[k]) || is_point(b[k]),
            forall|k: int, l: int|
                0 <= k < l < i - start ==> !(#[trigger] is_point(b[k]) && #[trigger] is_point(
                    b[l],
                )),
            seen_digit <==> exists|k: int| 0 <= k < i - start && is_digit(#[trigger] b[k]),
            seen_nonzero <==> exists|k: int| 0 <= k < i - start && #[trigger] is_nonzero_digit(b[k]),
            seen_dot <==> exists|k: int| 0 <= k < i - start && #[trigger] is_point(b[k]),
        decreases t.len() - i,
    {
        let c = t[i];
        let ghost j = i - start;
        assert(b[j] == c);
        assert(is_nonzero_digit(b[j]) == ('0' <= c && c <= '9' && c != '0'));
        if c == '.' {
            if seen_dot {
                proof {
                    let k = choose|k: int| 0 <= k < i - start && #[trigger] is_point(b[k]);
                    assert(is_point(b[k]) && is_point(b[j]));
                    assert(0 <= k < j < b.len());
                }
                return None;
            }
            seen_dot = true;
            assert(is_point(b[j]));
        } else if '0' <= c && c <= '9' {
            seen_digit = true;
            assert(is_digit(b[j]) && !is_point(b[j]));
            if c != '0' {
                seen_nonzero = true;
            }
        } else {
            assert(!(is_digit(b[j]) || is_point(b[j])));
            assert(0 <= j < b.len());
            return None;
        }
        i += 1;
    }
    if !seen_digit {
        return None;
    }
    if t[0] == '-' {
        return Some(false);
    }
    Some(seen_nonzero)
}

/// Whether `x` is an exponent.
fn exponent_ok(x: &Vec<char>) -> (r: bool)
    ensures
        r == is_exponent(x@),
{
    let ghost y = unsigned(x@);
    let start: usize = if x.len() > 0 && (x[0] == '+' || x[0] == '-') {
        1
    } else {
        0
    };
    assert(y =~= x@.subrange(start as int, x.len() as int));
    if start >= x.len() {
        return false;
    }
    let mut i: usize = start;
    while i < x.len()
        invariant
            start <= i <= x.len(),
            y == x@.subrange(start as int, x.len() as int),
            y == unsigned(x@),
            forall|k: int| 0 <= k < i - start ==> is_digit(#[trigger] y[k]),
        decreases x.len() - i,
    {
        assert(y[i - start] == x@[i as int]);
        if !('0' <= x[i] && x[i] <= '9') {
            assert(!is_digit(y[i - start]));
            return false;
        }
        i += 1;
    }
    true
}

/// Reads `t` as a decimal number: `None` when it is not one, else whether it
/// is greater than zero.
fn decimal_sign(t: &Vec<char>) -> (r: Option<bool>)
    ensures
        r is Some <==> is_decimal(t@),
        r == Some(true) <==> is_positive_decimal(t@),
{
    let mut m: usize = 0;
    while m < t.len() && !(t[m] == 'e' || t[m] == 'E')
        invariant
            m <= t.len(),
            mantissa_end(t@, 0) == mantissa_end(t@, m as int),
        decreases t.len() - m,
    {
        m += 1;
    }
    let mantissa = copy_range(t, 0, m);
    let sign = plain_sign(&mantissa);
    if m < t.len() {
        let exponent = copy_range(t, m + 1, t.len());
        if !exponent_ok(&exponent) {
            return None;
        }
    }
    sign
}

/// The second step of the check, on what the probe reported (`None`: it
/// could not be run). It passes only when the probe succeeded and printed a
/// positive decimal number (an exponent allowed), whitespace around it aside.
pub fn check_probe(report: &Option<ProbeReport>) -> (r: Result<(), ArtifactProblem>)
    ensures
        r is Err <==> probe_problem(report_model(*report)) is Some,
        r is Err ==> r == Err::<(), ArtifactProblem>(probe_problem(report_model(*report))->0),
{
    match report {
        None => Err(ArtifactProblem::ProbeUnavailable),
        Some(rep) => {
            if !rep.success {
                return Err(ArtifactProblem::InvalidContainer);
            }
            let cs = chars_of(rep.output.as_str());
            let (a, b) = trim_bounds(&cs);
            let t = copy_range(&cs, a, b);
            match decimal_sign(&t) {
                None => Err(ArtifactProblem::UnknownDuration),
                Some(false) => Err(ArtifactProblem::NonPositiveDuration),
                Some(true) => Ok(()),
            }
        },
    }
}

} // verus!
