//! Progress estimation from the encoder's free-text diagnostic lines.
//!
//! Progress is counted in hundredths of a percent: `PROGRESS_FULL` is a
//! finished job. An estimate never exceeds `PROGRESS_CAP`; only an explicit
//! completion line reports a finished job.
use vstd::prelude::*;
use vstd::arithmetic::div_mod::{lemma_div_is_ordered, lemma_div_by_multiple};
use crate::text::{chars_of, contains, copy_range, find, first_occurrence, includes, occurs_at};

verus! {

/// Progress of a finished job, in hundredths of a percent.
pub const PROGRESS_FULL: u32 = 10000;

/// The largest progress that an estimate reports.
pub const PROGRESS_CAP: u32 = 9500;

/// Above this many milliseconds an estimate is at its cap whatever the
/// assumed total; fields are read up to this bound only.
pub const MILLIS_BOUND: u64 = 10_000_000_000_000;

pub open spec fn is_digit(c: char) -> bool {
    '0' <= c && c <= '9'
}

pub open spec fn digit_value(c: char) -> nat {
    (c as u32 - '0' as u32) as nat
}

pub open spec fn is_space(c: char) -> bool {
    c == ' ' || c == '\t' || c == '\n' || c == '\r'
}

/// The end of the run of decimal digits of `s` that starts at `i`.
pub open spec fn digit_run_end(s: Seq<char>, i: int) -> int
    decreases s.len() - i,
{
    if 0 <= i < s.len() && is_digit(s[i]) {
        digit_run_end(s, i + 1)
    } else {
        i
    }
}

/// The end of the run of non-whitespace characters of `s` that starts at `i`.
pub open spec fn word_end(s: Seq<char>, i: int) -> int
    decreases s.len() - i,
{
    if 0 <= i < s.len() && !is_space(s[i]) {
        word_end(s, i + 1)
    } else {
        i
    }
}

/// The number written in decimal by `s[a..b]`.
pub open spec fn digits_value(s: Seq<char>, a: int, b: int) -> nat
    decreases b - a,
{
    if b <= a {
        0
    } else {
        digits_value(s, a, b - 1) * 10 + digit_value(s[b - 1])
    }
}

/// Milliseconds written by the fraction digits `s[a..b]` (digits past the
/// third are dropped).
pub open spec fn fraction_millis(s: Seq<char>, a: int, b: int) -> nat {
    if b - a >= 3 {
        digits_value(s, a, a + 3)
    } else if b - a == 2 {
        digits_value(s, a, b) * 10
    } else {
        digits_value(s, a, b) * 100
    }
}

/// The time written by `t` as `HOURS:MINUTES:SECONDS` or
/// `HOURS:MINUTES:SECONDS.FRACTION`, each part a non-empty run of decimal
/// digits, in milliseconds; `None` for any other shape.
pub open spec fn timestamp_millis(t: Seq<char>) -> Option<nat> {
    let h_end = digit_run_end(t, 0);
    let m_end = digit_run_end(t, h_end + 1);
    let s_end = digit_run_end(t, m_end + 1);
    let f_end = digit_run_end(t, s_end + 1);
    if 0 < h_end && h_end < t.len() && t[h_end] == ':' && h_end + 1 < m_end && m_end < t.len()
        && t[m_end] == ':' && m_end + 1 < s_end && (s_end == t.len() || (t[s_end] == '.'
        && s_end + 1 < f_end && f_end == t.len())) {
        Some(
            digits_value(t, 0, h_end) * 3_600_000 + digits_value(t, h_end + 1, m_end) * 60_000
                + digits_value(t, m_end + 1, s_end) * 1000 + if s_end == t.len() {
                0
            } else {
                fraction_millis(t, s_end + 1, f_end)
            },
        )
    } else {
        None
    }
}

/// A line bears progress when it holds both the time and the bitrate marker.
pub open spec fn is_progress_line(line: Seq<char>) -> bool {
    contains(line, "time="@) && contains(line, "bitrate="@)
}

/// The token after the first time marker, up to the next whitespace; `None`
/// when the line bears no progress or no whitespace follows the token.
pub open spec fn progress_token(line: Seq<char>) -> Option<Seq<char>> {
    if is_progress_line(line) {
        let start = (choose|i: int| first_occurrence(line, "time="@, i)) + "time="@.len();
        let end = word_end(line, start);
        if end < line.len() {
            Some(line.subrange(start, end))
        } else {
            None
        }
    } else {
        None
    }
}

/// The elapsed media time that a diagnostic line reports, in milliseconds.
pub open spec fn elapsed_millis(line: Seq<char>) -> Option<nat> {
    match progress_token(line) {
        Some(t) => timestamp_millis(t),
        None => None,
    }
}

/// Elapsed time against the assumed total, in hundredths of a percent,
/// rounded down and capped at `PROGRESS_CAP`. With no total to divide by
/// the estimate is at its cap.
pub open spec fn progress_ratio(elapsed_ms: nat, total_seconds: nat) -> nat {
    if total_seconds == 0 {
        PROGRESS_CAP as nat
    } else if elapsed_ms * 10 / total_seconds < PROGRESS_CAP {
        elapsed_ms * 10 / total_seconds
    } else {
        PROGRESS_CAP as nat
    }
}

/// What `estimate` returns for `line` and an assumed total of `total_seconds`.
pub open spec fn estimate_of(line: Seq<char>, total_seconds: nat) -> Option<nat> {
    match elapsed_millis(line) {
        Some(ms) => Some(progress_ratio(ms, total_seconds)),
        None => None,
    }
}

fn run_end(s: &Vec<char>, start: usize) -> (e: usize)
    requires
        start <= s.len(),
    ensures
        e as int == digit_run_end(s@, start as int),
        start <= e <= s.len(),
        forall|k: int| start <= k < e ==> is_digit(#[trigger] s@[k]),
{
    let mut i: usize = start;
    while i < s.len() && '0' <= s[i] && s[i] <= '9'
        invariant
            start <= i <= s.len(),
            digit_run_end(s@, start as int) == digit_run_end(s@, i as int),
            forall|k: int| start <= k < i ==> is_digit(#[trigger] s@[k]),
        decreases s.len() - i,
    {
        i += 1;
    }
    i
}

fn next_space(s: &Vec<char>, start: usize) -> (e: usize)
    requires
        start <= s.len(),
    ensures
        e as int == word_end(s@, start as int),
        start <= e <= s.len(),
{
    let mut i: usize = start;
    while i < s.len() && !(s[i] == ' ' || s[i] == '\t' || s[i] == '\n' || s[i] == '\r')
        invariant
            start <= i <= s.len(),
            word_end(s@, start as int) == word_end(s@, i as int),
        decreases s.len() - i,
    {
        i += 1;
    }
    i
}

/// `min(digits_value(s[a..b]), MILLIS_BOUND)`.
fn bounded_value(s: &Vec<char>, a: usize, b: usize) -> (v: u64)
    requires
        a <= b <= s.len(),
        forall|k: int| a <= k < b ==> is_digit(#[trigger] s@[k]),
    ensures
        v == if digits_value(s@, a as int, b as int) < MILLIS_BOUND {
            digits_value(s@, a as int, b as int)
        } else {
            MILLIS_BOUND as nat
        },
{
    let mut v: u64 = 0;
    let mut i: usize = a;
    while i < b
        invariant
            a <= i <= b <= s.len(),
            forall|k: int| a <= k < b ==> is_digit(#[trigger] s@[k]),
            v == if digits_value(s@, a as int, i as int) < MILLIS_BOUND {
                digits_value(s@, a as int, i as int)
            } else {
                MILLIS_BOUND as nat
            },
        decreases b - i,
    {
        assert(is_digit(s@[i as int]));
        let d = (s[i] as u32 - '0' as u32) as u64;
        assert(digits_value(s@, a as int, i + 1) == digits_value(s@, a as int, i as int) * 10
            + digit_value(s@[i as int]));
        if v < MILLIS_BOUND {
            v = v * 10 + d;
            if v > MILLIS_BOUND {
                v = MILLIS_BOUND;
            }
        }
        i += 1;
    }
    v
}

/// The time that `t` writes, in milliseconds, read with each field bounded:
/// exact below `MILLIS_BOUND`, and at least that bound when the time is.
fn timestamp_bounded(t: &Vec<char>) -> (r: Option<u128>)
    ensures
        r is Some <==> timestamp_millis(t@) is Some,
        r is Some ==> (r->0 == timestamp_millis(t@)->0 || (r->0 >= MILLIS_BOUND
            && timestamp_millis(t@)->0 >= MILLIS_BOUND)),
        r is Some ==> r->0 < 100_000_000_000_000_000_000,
{
    let h_end = run_end(t, 0);
    if h_end == 0 || h_end >= t.len() || t[h_end] != ':' {
        return None;
    }
    let m_end = run_end(t, h_end + 1);
    if m_end <= h_end + 1 || m_end >= t.len() || t[m_end] != ':' {
        return None;
    }
    let s_end = run_end(t, m_end + 1);
    if s_end <= m_end + 1 {
        return None;
    }
    let mut frac: u128 = 0;
    if s_end < t.len() {
        if t[s_end] != '.' {
            return None;
        }
        let f_end = run_end(t, s_end + 1);
        if f_end <= s_end + 1 || f_end != t.len() {
            return None;
        }
        let n = f_end - (s_end + 1);
        if n >= 3 {
            frac = bounded_value(t, s_end + 1, s_end + 4) as u128;
        } else if n == 2 {
            frac = bounded_value(t, s_end + 1, f_end) as u128 * 10;
        } else {
            frac = bounded_value(t, s_end + 1, f_end) as u128 * 100;
        }
        proof { lemma_fraction_small(t@, (s_end + 1) as int, f_end as int); }
    }
    let h = bounded_value(t, 0, h_end) as u128;
    let m = bounded_value(t, h_end + 1, m_end) as u128;
    let s = bounded_value(t, m_end + 1, s_end) as u128;
    Some(h * 3_600_000 + m * 60_000 + s * 1000 + frac)
}

/// Estimated progress of the job that wrote `line`, against an assumed
/// total of `assumed_total_seconds`; `None` when the line bears no
/// well-formed elapsed time.
pub fn estimate(line: &str, assumed_total_seconds: u32) -> (r: Option<u32>)
    ensures
        r is Some <==> estimate_of(line@, assumed_total_seconds as nat) is Some,
        r is Some ==> r->0 as nat == estimate_of(line@, assumed_total_seconds as nat)->0,
        !is_progress_line(line@) ==> r is None,
        r is Some ==> r->0 <= PROGRESS_CAP,
{
    let cs = chars_of(line);
    if !includes(&cs, "time=") || !includes(&cs, "bitrate=") {
        return None;
    }
    let marker = chars_of("time=");
    let found = find(&cs, &marker);
    let i = match found {
        Some(i) => i,
        None => {
            return None;
        },
    };
    proof {
        let c = choose|j: int| first_occurrence(cs@, "time="@, j);
        assert(first_occurrence(cs@, "time="@, c));
        if c < i {
            assert(!occurs_at(cs@, "time="@, c));
        }
        if i < c {
            assert(!occurs_at(cs@, "time="@, i as int));
        }
        assert(c == i);
    }
    let start = i + marker.len();
    let end = next_space(&cs, start);
    if end == cs.len() {
        return None;
    }
    let token = copy_range(&cs, start, end);
    let ms = match timestamp_bounded(&token) {
        Some(ms) => ms,
        None => {
            return None;
        },
    };
    if assumed_total_seconds == 0 {
        return Some(PROGRESS_CAP);
    }
    let q = ms * 10 / assumed_total_seconds as u128;
    proof {
        let exact = elapsed_millis(line@)->0;
        if ms != exact {
            lemma_bounded_at_cap(ms as nat, assumed_total_seconds as nat);
            lemma_bounded_at_cap(exact, assumed_total_seconds as nat);
        }
    }
    if q < PROGRESS_CAP as u128 {
        Some(q as u32)
    } else {
        Some(PROGRESS_CAP)
    }
}

/// For a fixed assumed total, the estimate never decreases as the elapsed
/// time that a progress line reports grows, and it always lies between zero
/// and `PROGRESS_CAP`.
pub proof fn lemma_estimate_monotone(a: Seq<char>, b: Seq<char>, total_seconds: nat)
    requires
        elapsed_millis(a) is Some,
        elapsed_millis(b) is Some,
        elapsed_millis(a)->0 <= elapsed_millis(b)->0,
    ensures
        estimate_of(a, total_seconds) is Some,
        estimate_of(b, total_seconds) is Some,
        0 <= estimate_of(a, total_seconds)->0 <= estimate_of(b, total_seconds)->0 <= PROGRESS_CAP,
{
    if total_seconds > 0 {
        lemma_div_is_ordered(
            (elapsed_millis(a)->0 * 10) as int,
            (elapsed_millis(b)->0 * 10) as int,
            total_seconds as int,
        );
    }
}

/// The line that announces a finished conversion.
pub open spec fn is_completion_line(line: Seq<char>) -> bool {
    contains(line, "conversion completed successfully"@)
}

/// What a line of a test recording's log says of the test.
#[derive(Clone, Copy, PartialEq, Eq, Structural, Debug)]
pub enum TestVerdict {
    /// The test recording worked and its video is valid.
    Passed,
    /// The test recording failed, or its video is unusable.
    Failed,
    /// The line says neither.
    Undecided,
}

/// The verdict of one line: a failure report wins over a success report.
pub open spec fn test_verdict(line: Seq<char>) -> TestVerdict {
    if contains(line, "Test recording failed"@) || contains(
        line,
        "did not produce a valid video file"@,
    ) {
        TestVerdict::Failed
    } else if contains(line, "Test recording completed successfully"@) {
        TestVerdict::Passed
    } else {
        TestVerdict::Undecided
    }
}

/// Diagnostic text that holds both `Error` and `error`, the blunt sign of a
/// failed run.
pub open spec fn reports_error(text: Seq<char>) -> bool {
    contains(text, "Error"@) && contains(text, "error"@)
}

/// Whether `line` announces a finished conversion.
pub fn completion_line(line: &str) -> (r: bool)
    ensures
        r == is_completion_line(line@),
{
    let cs = chars_of(line);
    includes(&cs, "conversion completed successfully")
}

/// A line of the encoder's device listing that names a capture device.
pub open spec fn is_device_line(line: Seq<char>) -> bool {
    contains(line, "AVFoundation"@) || contains(line, "capture"@)
}

/// Whether a line of the device listing is worth showing.
pub fn device_line(line: &str) -> (r: bool)
    ensures
        r == is_device_line(line@),
{
    let cs = chars_of(line);
    includes(&cs, "AVFoundation") || includes(&cs, "capture")
}

/// Sorts a line of a test recording's log into pass, fail or neither.
pub fn classify_test_line(line: &str) -> (r: TestVerdict)
    ensures
        r == test_verdict(line@),
{
    let cs = chars_of(line);
    if includes(&cs, "Test recording failed") || includes(&cs, "did not produce a valid video file") {
        TestVerdict::Failed
    } else if includes(&cs, "Test recording completed successfully") {
        TestVerdict::Passed
    } else {
        TestVerdict::Undecided
    }
}

/// Whether the diagnostic text of a run shows that it failed.
pub fn shows_error(text: &str) -> (r: bool)
    ensures
        r == reports_error(text@),
{
    let cs = chars_of(text);
    includes(&cs, "Error") && includes(&cs, "error")
}

/// Progress of a conversion as its diagnostic lines come in.
pub struct ConversionProgress {
    /// Hundredths of a percent.
    pub progress: u32,
    /// A completion line has been seen.
    pub finished: bool,
}

impl ConversionProgress {
    /// No progress yet.
    pub fn new() -> (r: ConversionProgress)
        ensures
            r.progress == 0,
            !r.finished,
    {
        ConversionProgress { progress: 0, finished: false }
    }

    /// Takes in one diagnostic line: a progress line sets the estimate
    /// against `assumed_total_seconds`; a completion line sets the progress to
    /// `PROGRESS_FULL` and marks the conversion finished.
    pub fn observe(&mut self, line: &str, assumed_total_seconds: u32)
        ensures
            final(self).finished == (old(self).finished || is_completion_line(line@)),
            is_completion_line(line@) ==> final(self).progress == PROGRESS_FULL,
            !is_completion_line(line@) ==> final(self).progress == match estimate_of(
                line@,
                assumed_total_seconds as nat,
            ) {
                Some(p) => p,
                None => old(self).progress as nat,
            },
    {
        if let Some(p) = estimate(line, assumed_total_seconds) {
            self.progress = p;
        }
        if completion_line(line) {
            self.progress = PROGRESS_FULL;
            self.finished = true;
        }
    }
}

/// Past `MILLIS_BOUND` an estimate is at its cap.
proof fn lemma_bounded_at_cap(ms: nat, total: nat)
    requires
        ms >= MILLIS_BOUND,
        0 < total <= u32::MAX,
    ensures
        ms * 10 / total >= PROGRESS_CAP,
{
    assert(ms * 10 >= PROGRESS_CAP * total) by (nonlinear_arith)
        requires
            ms >= MILLIS_BOUND,
            total <= u32::MAX,
    ;
    lemma_div_by_multiple(PROGRESS_CAP as int, total as int);
    lemma_div_is_ordered((PROGRESS_CAP * total) as int, (ms * 10) as int, total as int);
}

proof fn lemma_digits_bound(s: Seq<char>, a: int, b: int)
    requires
        a <= b,
        forall|k: int| a <= k < b ==> is_digit(#[trigger] s[k]),
    ensures
        b - a <= 3 ==> digits_value(s, a, b) < 1000,
        b - a <= 2 ==> digits_value(s, a, b) < 100,
        b - a <= 1 ==> digits_value(s, a, b) < 10,
    decreases b - a,
{
    if a < b {
        lemma_digits_bound(s, a, b - 1);
        assert(is_digit(s[b - 1]));
    }
}

proof fn lemma_fraction_small(s: Seq<char>, a: int, b: int)
    requires
        a < b,
        forall|k: int| a <= k < b ==> is_digit(#[trigger] s[k]),
    ensures
        fraction_millis(s, a, b) < 1000,
{
    if b - a >= 3 {
        lemma_digits_bound(s, a, a + 3);
    } else {
        lemma_digits_bound(s, a, b);
    }
}

} // verus!
