//! Streaming progress parsing for the engine's diagnostic text.
//!
//! The engine reports progress as human-readable text lines.  A progress
//! line carries a `time=HH:MM:SS.ff` position stamp and, independently,
//! optional `frame=`, `fps=` and `speed=...x` fields; a header line carries
//! a `Duration: HH:MM:SS.ff` stamp.  All times are held in hundredths of a
//! second, frame rates and speed multipliers in hundredths of their unit,
//! so every quantity is an exact integer.

use vstd::prelude::*;
use crate::text::chars_match_at;
use crate::text::dec_chars;
use crate::text::digit_val;
use crate::text::find_from;
use crate::text::has_chars_at;
use crate::text::is_digit_char;
use crate::text::is_space_char;
use crate::text::lemma_run_while;
use crate::text::run_while;
use crate::text::two_dec_chars;
use crate::text::u64_to_string;
use crate::text::u64_to_two_digit_string;

verus! {

/// Largest value a `HH:MM:SS.ff` stamp can denote, in hundredths of a
/// second (99 hours, 99 minutes, 99 seconds, 99 hundredths).
pub const MAX_TIMESTAMP_CENTIS: u64 = 36243999;

// ---------------------------------------------------------------------------
// Character runs
// ---------------------------------------------------------------------------

/// End of the whitespace run starting at `i`.
pub open spec fn skip_spaces(s: Seq<char>, i: int) -> int {
    run_while(s, i, |c: char| is_space_char(c))
}

/// End of the decimal-digit run starting at `i`.
pub open spec fn digit_run_end(s: Seq<char>, i: int) -> int {
    run_while(s, i, |c: char| is_digit_char(c))
}

/// Digit or decimal point: the characters a decimal token is made of.
pub open spec fn is_dd_char(c: char) -> bool {
    is_digit_char(c) || c == '.'
}

/// End of the digit-or-dot run starting at `i`.
pub open spec fn dd_run_end(s: Seq<char>, i: int) -> int {
    run_while(s, i, |c: char| is_dd_char(c))
}

fn char_is_space(c: char) -> (r: bool)
    ensures
        r == is_space_char(c),
{
    c == ' ' || c == '\t' || c == '\n' || c == '\r' || c == '\u{b}' || c == '\u{c}'
}

fn char_is_digit(c: char) -> (r: bool)
    ensures
        r == is_digit_char(c),
{
    let u = c as u32;
    48 <= u && u <= 57
}

fn char_is_dd(c: char) -> (r: bool)
    ensures
        r == is_dd_char(c),
{
    char_is_digit(c) || c == '.'
}

pub(crate) fn skip_spaces_exec(s: &str, s_len: usize, start: usize) -> (j: usize)
    requires
        s_len == s@.len(),
        start <= s_len,
    ensures
        start <= j <= s_len,
        j == skip_spaces(s@, start as int),
{
    let mut j = start;
    while j < s_len && char_is_space(s.get_char(j))
        invariant
            s_len == s@.len(),
            start <= j <= s_len,
            skip_spaces(s@, start as int) == skip_spaces(s@, j as int),
        decreases s_len - j,
    {
        assert(skip_spaces(s@, j as int) == skip_spaces(s@, j + 1));
        j += 1;
    }
    assert(skip_spaces(s@, j as int) == j as int);
    j
}

fn digit_run_end_exec(s: &str, s_len: usize, start: usize) -> (j: usize)
    requires
        s_len == s@.len(),
        start <= s_len,
    ensures
        start <= j <= s_len,
        j == digit_run_end(s@, start as int),
{
    let mut j = start;
    while j < s_len && char_is_digit(s.get_char(j))
        invariant
            s_len == s@.len(),
            start <= j <= s_len,
            digit_run_end(s@, start as int) == digit_run_end(s@, j as int),
        decreases s_len - j,
    {
        assert(digit_run_end(s@, j as int) == digit_run_end(s@, j + 1));
        j += 1;
    }
    assert(digit_run_end(s@, j as int) == j as int);
    j
}

pub(crate) fn dd_run_end_exec(s: &str, s_len: usize, start: usize) -> (j: usize)
    requires
        s_len == s@.len(),
        start <= s_len,
    ensures
        start <= j <= s_len,
        j == dd_run_end(s@, start as int),
{
    let mut j = start;
    while j < s_len && char_is_dd(s.get_char(j))
        invariant
            s_len == s@.len(),
            start <= j <= s_len,
            dd_run_end(s@, start as int) == dd_run_end(s@, j as int),
        decreases s_len - j,
    {
        assert(dd_run_end(s@, j as int) == dd_run_end(s@, j + 1));
        j += 1;
    }
    assert(dd_run_end(s@, j as int) == j as int);
    j
}

// ---------------------------------------------------------------------------
// Timestamps
// ---------------------------------------------------------------------------

/// A `HH:MM:SS.f...` stamp (two-digit fields, at least one fraction digit)
/// starts at `j`.
pub open spec fn timestamp_at(s: Seq<char>, j: int) -> bool {
    &&& 0 <= j
    &&& j + 10 <= s.len()
    &&& is_digit_char(s[j])
    &&& is_digit_char(s[j + 1])
    &&& s[j + 2] == ':'
    &&& is_digit_char(s[j + 3])
    &&& is_digit_char(s[j + 4])
    &&& s[j + 5] == ':'
    &&& is_digit_char(s[j + 6])
    &&& is_digit_char(s[j + 7])
    &&& s[j + 8] == '.'
    &&& is_digit_char(s[j + 9])
}

/// Hundredths of a second denoted by the fraction starting at `j + 9`: only
/// the first two fraction digits are significant (truncation, not
/// rounding); a lone digit counts as tenths.
pub open spec fn frac_centis(s: Seq<char>, j: int) -> int {
    if j + 10 < s.len() && is_digit_char(s[j + 10]) {
        digit_val(s[j + 9]) * 10 + digit_val(s[j + 10])
    } else {
        digit_val(s[j + 9]) * 10
    }
}

/// Value of the stamp starting at `j`, in hundredths of a second:
/// `h * 3600 + m * 60 + s` seconds plus the fraction.
pub open spec fn timestamp_centis(s: Seq<char>, j: int) -> int {
    (digit_val(s[j]) * 10 + digit_val(s[j + 1])) * 360000
        + (digit_val(s[j + 3]) * 10 + digit_val(s[j + 4])) * 6000
        + (digit_val(s[j + 6]) * 10 + digit_val(s[j + 7])) * 100
        + frac_centis(s, j)
}

fn timestamp_check(s: &str, s_len: usize, j: usize) -> (r: bool)
    requires
        s_len == s@.len(),
    ensures
        r == timestamp_at(s@, j as int),
{
    if j > s_len || s_len - j < 10 {
        return false;
    }
    char_is_digit(s.get_char(j)) && char_is_digit(s.get_char(j + 1)) && s.get_char(j + 2) == ':'
        && char_is_digit(s.get_char(j + 3)) && char_is_digit(s.get_char(j + 4)) && s.get_char(
        j + 5,
    ) == ':' && char_is_digit(s.get_char(j + 6)) && char_is_digit(s.get_char(j + 7)) && s.get_char(
        j + 8,
    ) == '.' && char_is_digit(s.get_char(j + 9))
}

fn digit_value_exec(c: char) -> (r: u64)
    requires
        is_digit_char(c),
    ensures
        r == digit_val(c),
        r <= 9,
{
    ((c as u32) - 48) as u64
}

fn timestamp_value_exec(s: &str, s_len: usize, j: usize) -> (r: u64)
    requires
        s_len == s@.len(),
        timestamp_at(s@, j as int),
    ensures
        r == timestamp_centis(s@, j as int),
        r <= MAX_TIMESTAMP_CENTIS,
{
    let h = digit_value_exec(s.get_char(j)) * 10 + digit_value_exec(s.get_char(j + 1));
    let m = digit_value_exec(s.get_char(j + 3)) * 10 + digit_value_exec(s.get_char(j + 4));
    let sec = digit_value_exec(s.get_char(j + 6)) * 10 + digit_value_exec(s.get_char(j + 7));
    let f1 = digit_value_exec(s.get_char(j + 9));
    let frac = if j + 10 < s_len && char_is_digit(s.get_char(j + 10)) {
        f1 * 10 + digit_value_exec(s.get_char(j + 10))
    } else {
        f1 * 10
    };
    h * 360000 + m * 6000 + sec * 100 + frac
}

// ---------------------------------------------------------------------------
// Labeled fields
// ---------------------------------------------------------------------------

/// `label` occurs at `i`, followed by optional whitespace and a timestamp.
pub open spec fn labeled_timestamp_at(s: Seq<char>, i: int, label: Seq<char>) -> bool {
    chars_match_at(s, i, label) && timestamp_at(s, skip_spaces(s, i + label.len()))
}

/// First position where `label` plus a timestamp matches.
pub open spec fn labeled_timestamp_find_from(s: Seq<char>, i: int, label: Seq<char>) -> Option<
    int,
> {
    find_from(s, i, |t: int| labeled_timestamp_at(s, t, label))
}

/// Value of the first `label` timestamp field of `s`, in hundredths of a
/// second, if the line carries one.
pub open spec fn spec_labeled_timestamp_value(s: Seq<char>, label: Seq<char>) -> Option<u64> {
    match labeled_timestamp_find_from(s, 0, label) {
        Some(i) => Some(timestamp_centis(s, skip_spaces(s, i + label.len())) as u64),
        None => None,
    }
}

fn check_labeled_timestamp_at(s: &str, s_len: usize, i: usize, label: &str, lab_len: usize) -> (r:
    Option<u64>)
    requires
        s_len == s@.len(),
        lab_len == label@.len(),
    ensures
        match r {
            Some(v) => labeled_timestamp_at(s@, i as int, label@) && v == timestamp_centis(
                s@,
                skip_spaces(s@, i + lab_len),
            ) && v <= MAX_TIMESTAMP_CENTIS,
            None => !labeled_timestamp_at(s@, i as int, label@),
        },
{
    if !has_chars_at(s, s_len, i, label, lab_len) {
        return None;
    }
    let j = skip_spaces_exec(s, s_len, i + lab_len);
    if timestamp_check(s, s_len, j) {
        Some(timestamp_value_exec(s, s_len, j))
    } else {
        None
    }
}

/// Scans for the first occurrence of `label`, optional whitespace and a
/// timestamp, and returns the stamp's value in hundredths of a second.
fn scan_labeled_timestamp(s: &str, label: &str) -> (r: Option<u64>)
    requires
        label@.len() > 0,
    ensures
        r == spec_labeled_timestamp_value(s@, label@),
        r matches Some(v) ==> v <= MAX_TIMESTAMP_CENTIS,
{
    let s_len = s.unicode_len();
    let lab_len = label.unicode_len();
    let mut i: usize = 0;
    while i < s_len
        invariant
            s_len == s@.len(),
            lab_len == label@.len(),
            lab_len > 0,
            0 <= i <= s_len,
            labeled_timestamp_find_from(s@, 0, label@) == labeled_timestamp_find_from(
                s@,
                i as int,
                label@,
            ),
        decreases s_len - i,
    {
        let r = check_labeled_timestamp_at(s, s_len, i, label, lab_len);
        if let Some(v) = r {
            proof {
                assert(labeled_timestamp_find_from(s@, i as int, label@) == Some(i as int));
            }
            return Some(v);
        }
        proof {
            assert(labeled_timestamp_find_from(s@, i as int, label@)
                == labeled_timestamp_find_from(s@, i + 1, label@));
        }
        i += 1;
    }
    proof {
        assert(!labeled_timestamp_at(s@, i as int, label@));
        assert(labeled_timestamp_find_from(s@, i as int, label@) is None);
    }
    None
}

// ---------------------------------------------------------------------------
// Integer fields (frame count)
// ---------------------------------------------------------------------------

/// Value of the digit run `s[i..j)`, most significant digit first.
pub open spec fn digits_value(s: Seq<char>, i: int, j: int) -> int
    decreases j - i,
{
    if j <= i {
        0
    } else {
        digits_value(s, i, j - 1) * 10 + digit_val(s[j - 1])
    }
}

/// `label` occurs at `i`, followed by optional whitespace and a digit.
pub open spec fn labeled_digits_at(s: Seq<char>, i: int, label: Seq<char>) -> bool {
    chars_match_at(s, i, label) && {
        let k = skip_spaces(s, i + label.len());
        k < s.len() && is_digit_char(s[k])
    }
}

/// First position where `label` plus a digit run matches.
pub open spec fn labeled_digits_find_from(s: Seq<char>, i: int, label: Seq<char>) -> Option<int> {
    find_from(s, i, |t: int| labeled_digits_at(s, t, label))
}

/// Value of the first `label` integer field of `s`; zero when the line has
/// no such field or its value does not fit in a machine word (a malformed
/// count falls back to zero rather than failing the parse).
pub open spec fn spec_labeled_digits_value(s: Seq<char>, label: Seq<char>) -> u64 {
    match labeled_digits_find_from(s, 0, label) {
        Some(i) => {
            let k = skip_spaces(s, i + label.len());
            let v = digits_value(s, k, digit_run_end(s, k));
            if v <= u64::MAX {
                v as u64
            } else {
                0
            }
        },
        None => 0,
    }
}

fn digits_value_exec(s: &str, s_len: usize, k: usize, e: usize) -> (r: u64)
    requires
        s_len == s@.len(),
        k <= e <= s_len,
        forall|t: int| k <= t < e ==> is_digit_char(s@[t]),
    ensures
        r == if digits_value(s@, k as int, e as int) <= u64::MAX {
            digits_value(s@, k as int, e as int)
        } else {
            0
        },
{
    let mut acc: u64 = 0;
    let mut over: bool = false;
    let mut t = k;
    while t < e
        invariant
            s_len == s@.len(),
            k <= t <= e <= s_len,
            forall|u: int| k <= u < e ==> is_digit_char(s@[u]),
            !over ==> acc == digits_value(s@, k as int, t as int),
            over ==> digits_value(s@, k as int, t as int) > u64::MAX,
        decreases e - t,
    {
        let d = digit_value_exec(s.get_char(t));
        proof {
            assert(digits_value(s@, k as int, t + 1) == digits_value(s@, k as int, t as int) * 10
                + digit_val(s@[t as int]));
        }
        if !over {
            if let Some(x) = acc.checked_mul(10) {
                if let Some(y) = x.checked_add(d) {
                    acc = y;
                } else {
                    over = true;
                }
            } else {
                over = true;
            }
        }
        t += 1;
    }
    if over {
        0
    } else {
        acc
    }
}

fn check_labeled_digits_at(s: &str, s_len: usize, i: usize, label: &str, lab_len: usize) -> (r:
    Option<u64>)
    requires
        s_len == s@.len(),
        lab_len == label@.len(),
    ensures
        match r {
            Some(v) => labeled_digits_at(s@, i as int, label@) && {
                let k = skip_spaces(s@, i + lab_len);
                let w = digits_value(s@, k, digit_run_end(s@, k));
                v == if w <= u64::MAX {
                    w as u64
                } else {
                    0
                }
            },
            None => !labeled_digits_at(s@, i as int, label@),
        },
{
    if !has_chars_at(s, s_len, i, label, lab_len) {
        return None;
    }
    let k = skip_spaces_exec(s, s_len, i + lab_len);
    if k >= s_len || !char_is_digit(s.get_char(k)) {
        return None;
    }
    let e = digit_run_end_exec(s, s_len, k);
    proof {
        lemma_run_while(s@, k as int, |c: char| is_digit_char(c));
    }
    Some(digits_value_exec(s, s_len, k, e))
}

/// Scans for the first occurrence of `label`, optional whitespace and a run
/// of digits, and returns the run's value; zero when absent or too large.
fn scan_labeled_digits(s: &str, label: &str) -> (r: u64)
    requires
        label@.len() > 0,
    ensures
        r == spec_labeled_digits_value(s@, label@),
{
    let s_len = s.unicode_len();
    let lab_len = label.unicode_len();
    let mut i: usize = 0;
    while i < s_len
        invariant
            s_len == s@.len(),
            lab_len == label@.len(),
            lab_len > 0,
            0 <= i <= s_len,
            labeled_digits_find_from(s@, 0, label@) == labeled_digits_find_from(
                s@,
                i as int,
                label@,
            ),
        decreases s_len - i,
    {
        let r = check_labeled_digits_at(s, s_len, i, label, lab_len);
        if let Some(v) = r {
            proof {
                assert(labeled_digits_find_from(s@, i as int, label@) == Some(i as int));
            }
            return v;
        }
        proof {
            assert(labeled_digits_find_from(s@, i as int, label@) == labeled_digits_find_from(
                s@,
                i + 1,
                label@,
            ));
        }
        i += 1;
    }
    proof {
        assert(!labeled_digits_at(s@, i as int, label@));
        assert(labeled_digits_find_from(s@, i as int, label@) is None);
    }
    0
}

// ---------------------------------------------------------------------------
// Decimal fields (frame rate, speed multiplier)
// ---------------------------------------------------------------------------

/// The digit-or-dot token `s[k..e)` is a well-formed decimal number: at
/// least one digit and at most one decimal point.
pub open spec fn decimal_token_valid(s: Seq<char>, k: int, e: int) -> bool {
    let d1 = digit_run_end(s, k);
    if d1 >= e {
        e > k
    } else {
        s[d1] == '.' && digit_run_end(s, d1 + 1) >= e && (d1 > k || d1 + 1 < e)
    }
}

/// Value of the decimal token `s[k..e)` in hundredths of its unit; the
/// fraction is truncated to two digits.
pub open spec fn decimal_token_centis(s: Seq<char>, k: int, e: int) -> int {
    let d1 = digit_run_end(s, k);
    if d1 >= e {
        digits_value(s, k, e) * 100
    } else {
        digits_value(s, k, d1) * 100 + (if d1 + 1 < e {
            digit_val(s[d1 + 1]) * 10
        } else {
            0
        }) + (if d1 + 2 < e {
            digit_val(s[d1 + 2])
        } else {
            0
        })
    }
}

/// Value in hundredths of the decimal token starting at `k`; zero when the
/// token is malformed or its value does not fit.
pub open spec fn decimal_value_from(s: Seq<char>, k: int) -> u64 {
    let e = dd_run_end(s, k);
    if decimal_token_valid(s, k, e) && decimal_token_centis(s, k, e) <= u64::MAX {
        decimal_token_centis(s, k, e) as u64
    } else {
        0
    }
}

/// `label` occurs at `i`, followed by optional whitespace and a digit-or-dot
/// token.
pub open spec fn labeled_decimal_at(s: Seq<char>, i: int, label: Seq<char>) -> bool {
    chars_match_at(s, i, label) && {
        let k = skip_spaces(s, i + label.len());
        k < s.len() && is_dd_char(s[k])
    }
}

/// As `labeled_decimal_at`, with the token followed directly by `x` (the
/// shape of the engine's speed multiplier field).
pub open spec fn labeled_decimal_x_at(s: Seq<char>, i: int, label: Seq<char>) -> bool {
    labeled_decimal_at(s, i, label) && {
        let e = dd_run_end(s, skip_spaces(s, i + label.len()));
        e < s.len() && s[e] == 'x'
    }
}

/// First position where `label` plus a decimal token matches.
pub open spec fn labeled_decimal_find_from(s: Seq<char>, i: int, label: Seq<char>) -> Option<int> {
    find_from(s, i, |t: int| labeled_decimal_at(s, t, label))
}

/// First position where `label` plus a decimal token plus `x` matches.
pub open spec fn labeled_decimal_x_find_from(s: Seq<char>, i: int, label: Seq<char>) -> Option<
    int,
> {
    find_from(s, i, |t: int| labeled_decimal_x_at(s, t, label))
}

/// Value of the first `label` decimal field of `s`, in hundredths; zero
/// when the line has no such field or the token is malformed.
pub open spec fn spec_labeled_decimal_value(s: Seq<char>, label: Seq<char>) -> u64 {
    match labeled_decimal_find_from(s, 0, label) {
        Some(i) => decimal_value_from(s, skip_spaces(s, i + label.len())),
        None => 0,
    }
}

/// As `spec_labeled_decimal_value`, for a field whose token must be
/// followed by `x`.
pub open spec fn spec_labeled_decimal_x_value(s: Seq<char>, label: Seq<char>) -> u64 {
    match labeled_decimal_x_find_from(s, 0, label) {
        Some(i) => decimal_value_from(s, skip_spaces(s, i + label.len())),
        None => 0,
    }
}

/// Evaluates the decimal token starting at `k`: its value in hundredths
/// when it is well formed and fits, `None` otherwise.
pub(crate) fn decimal_token_eval(s: &str, s_len: usize, k: usize) -> (r: Option<u64>)
    requires
        s_len == s@.len(),
        k <= s_len,
    ensures
        match r {
            Some(v) => decimal_token_valid(s@, k as int, dd_run_end(s@, k as int))
                && decimal_token_centis(s@, k as int, dd_run_end(s@, k as int)) == v,
            None => !(decimal_token_valid(s@, k as int, dd_run_end(s@, k as int))
                && decimal_token_centis(s@, k as int, dd_run_end(s@, k as int)) <= u64::MAX),
        },
{
    let e = dd_run_end_exec(s, s_len, k);
    let d1 = digit_run_end_exec(s, s_len, k);
    proof {
        lemma_run_while(s@, k as int, |c: char| is_dd_char(c));
        lemma_run_while(s@, k as int, |c: char| is_digit_char(c));
    }
    if d1 >= e {
        // all digits
        if e > k {
            let v = digits_value_exec(s, s_len, k, e);
            proof {
                lemma_digits_value_nonneg(s@, k as int, e as int);
            }
            if v == 0 && digits_too_large_check(s, s_len, k, e) {
                proof {
                    lemma_digits_value_mul_over(s@, k as int, e as int);
                }
                return None;
            }
            if let Some(c) = v.checked_mul(100) {
                Some(c)
            } else {
                None
            }
        } else {
            None
        }
    } else {
        // d1 < e: s[d1] is in the token but not a digit, so it is a dot
        if !(d1 > k || d1 + 1 < e) {
            return None;
        }
        let d2 = digit_run_end_exec(s, s_len, d1 + 1);
        proof {
            lemma_run_while(s@, d1 + 1, |c: char| is_digit_char(c));
        }
        if d2 < e {
            return None;
        }
        let ip = digits_value_exec(s, s_len, k, d1);
        let f1 = if d1 + 1 < e {
            digit_value_exec(s.get_char(d1 + 1)) * 10
        } else {
            0
        };
        let f2 = if e - d1 > 2 {
            digit_value_exec(s.get_char(d1 + 2))
        } else {
            0
        };
        proof {
            lemma_digits_value_nonneg(s@, k as int, d1 as int);
        }
        if ip == 0 && digits_too_large_check(s, s_len, k, d1) {
            proof {
                lemma_digits_value_mul_over(s@, k as int, d1 as int);
            }
            return None;
        }
        if let Some(c) = ip.checked_mul(100) {
            if let Some(c2) = c.checked_add(f1 + f2) {
                Some(c2)
            } else {
                None
            }
        } else {
            None
        }
    }
}

fn decimal_value_exec(s: &str, s_len: usize, k: usize) -> (r: u64)
    requires
        s_len == s@.len(),
        k <= s_len,
    ensures
        r == decimal_value_from(s@, k as int),
{
    match decimal_token_eval(s, s_len, k) {
        Some(v) => v,
        None => 0,
    }
}

/// Whether the digit run `s[k..e)` denotes a value above `u64::MAX` (in
/// which case `digits_value_exec` returned zero although the run is
/// non-empty and holds a non-zero digit).
fn digits_too_large_check(s: &str, s_len: usize, k: usize, e: usize) -> (r: bool)
    requires
        s_len == s@.len(),
        k <= e <= s_len,
        forall|t: int| k <= t < e ==> is_digit_char(s@[t]),
    ensures
        r == (digits_value(s@, k as int, e as int) > u64::MAX),
{
    let v = digits_value_exec(s, s_len, k, e);
    if v != 0 {
        return false;
    }
    // the run's value is either really zero (all zero digits) or too large;
    // it is zero exactly when every digit is `0`
    let mut t = k;
    let mut nonzero = false;
    while t < e
        invariant
            s_len == s@.len(),
            k <= t <= e <= s_len,
            forall|u: int| k <= u < e ==> is_digit_char(s@[u]),
            nonzero == exists|u: int| k <= u < t && digit_val(s@[u]) != 0,
        decreases e - t,
    {
        let d = digit_value_exec(s.get_char(t));
        if d != 0 {
            nonzero = true;
        }
        t += 1;
    }
    proof {
        if nonzero {
            lemma_digits_value_nonzero(s@, k as int, e as int);
        } else {
            lemma_digits_value_zero(s@, k as int, e as int);
        }
    }
    nonzero
}

proof fn lemma_digits_value_nonneg(s: Seq<char>, k: int, e: int)
    requires
        forall|t: int| k <= t < e ==> is_digit_char(s[t]),
    ensures
        digits_value(s, k, e) >= 0,
    decreases e - k,
{
    if e > k {
        lemma_digits_value_nonneg(s, k, e - 1);
    }
}

proof fn lemma_digits_value_zero(s: Seq<char>, k: int, e: int)
    requires
        forall|t: int| k <= t < e ==> is_digit_char(s[t]),
        forall|t: int| k <= t < e ==> digit_val(s[t]) == 0,
    ensures
        digits_value(s, k, e) == 0,
    decreases e - k,
{
    if e > k {
        lemma_digits_value_zero(s, k, e - 1);
    }
}

proof fn lemma_digits_value_nonzero(s: Seq<char>, k: int, e: int)
    requires
        forall|t: int| k <= t < e ==> is_digit_char(s[t]),
        exists|t: int| k <= t < e && digit_val(s[t]) != 0,
    ensures
        digits_value(s, k, e) > 0,
    decreases e - k,
{
    if e > k {
        lemma_digits_value_nonneg(s, k, e - 1);
        if exists|t: int| k <= t < e - 1 && digit_val(s[t]) != 0 {
            lemma_digits_value_nonzero(s, k, e - 1);
        }
    }
}

proof fn lemma_digits_value_mul_over(s: Seq<char>, k: int, e: int)
    requires
        digits_value(s, k, e) > u64::MAX,
    ensures
        digits_value(s, k, e) * 100 > u64::MAX,
{
}

fn check_labeled_decimal_at(
    s: &str,
    s_len: usize,
    i: usize,
    label: &str,
    lab_len: usize,
    require_x: bool,
) -> (r: Option<u64>)
    requires
        s_len == s@.len(),
        lab_len == label@.len(),
    ensures
        !require_x ==> match r {
            Some(v) => labeled_decimal_at(s@, i as int, label@) && v == decimal_value_from(
                s@,
                skip_spaces(s@, i + lab_len),
            ),
            None => !labeled_decimal_at(s@, i as int, label@),
        },
        require_x ==> match r {
            Some(v) => labeled_decimal_x_at(s@, i as int, label@) && v == decimal_value_from(
                s@,
                skip_spaces(s@, i + lab_len),
            ),
            None => !labeled_decimal_x_at(s@, i as int, label@),
        },
{
    if !has_chars_at(s, s_len, i, label, lab_len) {
        return None;
    }
    let k = skip_spaces_exec(s, s_len, i + lab_len);
    if k >= s_len || !char_is_dd(s.get_char(k)) {
        return None;
    }
    if require_x {
        let e = dd_run_end_exec(s, s_len, k);
        if e >= s_len || s.get_char(e) != 'x' {
            return None;
        }
    }
    Some(decimal_value_exec(s, s_len, k))
}

fn scan_labeled_decimal(s: &str, label: &str, require_x: bool) -> (r: u64)
    requires
        label@.len() > 0,
    ensures
        !require_x ==> r == spec_labeled_decimal_value(s@, label@),
        require_x ==> r == spec_labeled_decimal_x_value(s@, label@),
{
    let s_len = s.unicode_len();
    let lab_len = label.unicode_len();
    let mut i: usize = 0;
    while i < s_len
        invariant
            s_len == s@.len(),
            lab_len == label@.len(),
            lab_len > 0,
            0 <= i <= s_len,
            !require_x ==> labeled_decimal_find_from(s@, 0, label@) == labeled_decimal_find_from(
                s@,
                i as int,
                label@,
            ),
            require_x ==> labeled_decimal_x_find_from(s@, 0, label@)
                == labeled_decimal_x_find_from(s@, i as int, label@),
        decreases s_len - i,
    {
        let r = check_labeled_decimal_at(s, s_len, i, label, lab_len, require_x);
        if let Some(v) = r {
            proof {
                if require_x {
                    assert(labeled_decimal_x_find_from(s@, i as int, label@) == Some(i as int));
                } else {
                    assert(labeled_decimal_find_from(s@, i as int, label@) == Some(i as int));
                }
            }
            return v;
        }
        proof {
            if require_x {
                assert(labeled_decimal_x_find_from(s@, i as int, label@)
                    == labeled_decimal_x_find_from(s@, i + 1, label@));
            } else {
                assert(labeled_decimal_find_from(s@, i as int, label@)
                    == labeled_decimal_find_from(s@, i + 1, label@));
            }
        }
        i += 1;
    }
    proof {
        if require_x {
            assert(!labeled_decimal_x_at(s@, i as int, label@));
            assert(labeled_decimal_x_find_from(s@, i as int, label@) is None);
        } else {
            assert(!labeled_decimal_at(s@, i as int, label@));
            assert(labeled_decimal_find_from(s@, i as int, label@) is None);
        }
    }
    0
}

// ---------------------------------------------------------------------------
// Progress snapshots
// ---------------------------------------------------------------------------

/// Real-time encoding progress.  Times are hundredths of a second; the
/// frame rate and speed multiplier are hundredths of their unit; the
/// completion percentage is hundredths of a percent, clamped to 10000.
#[derive(Debug, Clone, Copy, PartialEq, Eq, Structural)]
pub struct EncodingProgress {
    /// Current position in the source video, hundredths of a second.
    pub current_time_centis: u64,
    /// Total source duration, hundredths of a second (0 when unknown).
    pub total_duration_centis: u64,
    /// Current frame number.
    pub current_frame: u64,
    /// Encoding rate, hundredths of a frame per second.
    pub fps_centis: u64,
    /// Speed multiplier relative to real time, hundredths (150 is 1.5x).
    pub speed_centis: u64,
    /// Completion percentage, hundredths of a percent, at most 10000.
    pub percent_hundredths: u64,
}

impl Default for EncodingProgress {
    /// An all-zero snapshot: nothing parsed yet.
    fn default() -> (r: Self)
        ensures
            r == (EncodingProgress {
                current_time_centis: 0u64,
                total_duration_centis: 0u64,
                current_frame: 0u64,
                fps_centis: 0u64,
                speed_centis: 0u64,
                percent_hundredths: 0u64,
            }),
    {
        EncodingProgress {
            current_time_centis: 0,
            total_duration_centis: 0,
            current_frame: 0,
            fps_centis: 0,
            speed_centis: 0,
            percent_hundredths: 0,
        }
    }
}

/// Completion percentage in hundredths of a percent: `(cur / total) * 100`,
/// clamped to 100 percent; zero when the total is unknown or non-positive.
pub open spec fn spec_percent_hundredths(cur: int, total: int) -> int {
    if total > 0 {
        if cur * 10000 / total > 10000 {
            10000
        } else {
            cur * 10000 / total
        }
    } else {
        0
    }
}

/// Duration stamp carried by `s`, if any: the first `Duration:` label
/// followed by a timestamp, in hundredths of a second.
pub open spec fn spec_parse_duration(s: Seq<char>) -> Option<u64> {
    spec_labeled_timestamp_value(s, "Duration:"@)
}

/// Snapshot a progress line denotes under a known total duration.  A line
/// without a `time=` stamp denotes no snapshot, whatever other fields it
/// carries; `frame=`, `fps=` and `speed=` each default to zero when absent.
pub open spec fn spec_parse_progress_line(s: Seq<char>, total: u64) -> Option<EncodingProgress> {
    match spec_labeled_timestamp_value(s, "time="@) {
        None => None,
        Some(cur) => Some(
            EncodingProgress {
                current_time_centis: cur,
                total_duration_centis: total,
                current_frame: spec_labeled_digits_value(s, "frame="@),
                fps_centis: spec_labeled_decimal_value(s, "fps="@),
                speed_centis: spec_labeled_decimal_x_value(s, "speed="@),
                percent_hundredths: spec_percent_hundredths(cur as int, total as int) as u64,
            },
        ),
    }
}

/// Parses a duration header line, such as
/// `"  Duration: 00:10:45.20, start: 0.000000, bitrate: 5000 kb/s"`.
pub fn parse_duration(line: &str) -> (r: Option<u64>)
    ensures
        r == spec_parse_duration(line@),
        r matches Some(v) ==> v <= MAX_TIMESTAMP_CENTIS,
{
    proof {
        reveal_strlit("Duration:");
    }
    scan_labeled_timestamp(line, "Duration:")
}

/// Parses a progress line, such as
/// `"frame= 1234 fps= 45 q=28.0 size= 18234kB time=00:00:45.67 speed=1.23x"`,
/// against a known total duration in hundredths of a second.
pub fn parse_progress_line(line: &str, total_duration_centis: u64) -> (r: Option<EncodingProgress>)
    ensures
        r == spec_parse_progress_line(line@, total_duration_centis),
        spec_labeled_timestamp_value(line@, "time="@) is None ==> r is None,
        r matches Some(p) ==> p.percent_hundredths <= 10000,
        r matches Some(p) ==> p.total_duration_centis == total_duration_centis,
{
    proof {
        reveal_strlit("time=");
        reveal_strlit("frame=");
        reveal_strlit("fps=");
        reveal_strlit("speed=");
    }
    let cur_opt = scan_labeled_timestamp(line, "time=");
    match cur_opt {
        None => None,
        Some(cur) => {
            let frame = scan_labeled_digits(line, "frame=");
            let fps = scan_labeled_decimal(line, "fps=", false);
            let speed = scan_labeled_decimal(line, "speed=", true);
            let percent: u64 = if total_duration_centis > 0 {
                let p = cur * 10000 / total_duration_centis;
                if p > 10000 {
                    10000
                } else {
                    p
                }
            } else {
                0
            };
            Some(
                EncodingProgress {
                    current_time_centis: cur,
                    total_duration_centis,
                    current_frame: frame,
                    fps_centis: fps,
                    speed_centis: speed,
                    percent_hundredths: percent,
                },
            )
        },
    }
}

/// Estimated remaining wall-clock time in hundredths of a second: remaining
/// source time divided by the speed multiplier, floored at zero once the
/// position passes the total; undefined while speed or total are unknown.
pub open spec fn spec_eta_centis(p: EncodingProgress) -> Option<u64> {
    if p.speed_centis == 0 || p.total_duration_centis == 0 {
        None
    } else if p.current_time_centis >= p.total_duration_centis {
        Some(0u64)
    } else {
        let e = (p.total_duration_centis - p.current_time_centis) * 100 / p.speed_centis as int;
        if e > u64::MAX {
            Some(u64::MAX)
        } else {
            Some(e as u64)
        }
    }
}

/// Text rendering of the estimated remaining time, matching what the
/// progress display shows.
pub open spec fn spec_eta_string(p: EncodingProgress) -> Seq<char> {
    match spec_eta_centis(p) {
        None => "calculating..."@,
        Some(cs) => {
            let secs = cs as int / 100;
            if secs < 60 {
                "~"@ + dec_chars(secs) + "s"@
            } else if secs < 3600 {
                "~"@ + dec_chars(secs / 60) + ":"@ + two_dec_chars(secs % 60)
            } else {
                "~"@ + dec_chars(secs / 3600) + "h "@ + two_dec_chars((secs % 3600) / 60) + "m"@
            }
        },
    }
}

impl EncodingProgress {
    /// Estimated time remaining in hundredths of a second, when defined.
    pub fn eta_centis(&self) -> (r: Option<u64>)
        ensures
            r == spec_eta_centis(*self),
    {
        if self.speed_centis == 0 || self.total_duration_centis == 0 {
            return None;
        }
        if self.current_time_centis >= self.total_duration_centis {
            return Some(0);
        }
        let rem = (self.total_duration_centis - self.current_time_centis) as u128;
        let e = rem * 100 / (self.speed_centis as u128);
        if e > u64::MAX as u128 {
            Some(u64::MAX)
        } else {
            Some(e as u64)
        }
    }

    /// Formats the estimated remaining time as a short human-readable
    /// string, or `"calculating..."` while it is undefined.
    pub fn eta_string(&self) -> (r: String)
        ensures
            r@ == spec_eta_string(*self),
    {
        match self.eta_centis() {
            None => String::from_str("calculating..."),
            Some(cs) => {
                let secs = cs / 100;
                let mut out = String::from_str("~");
                if secs < 60 {
                    let d = u64_to_string(secs);
                    out.append(d.as_str());
                    out.append("s");
                } else if secs < 3600 {
                    let m = u64_to_string(secs / 60);
                    out.append(m.as_str());
                    out.append(":");
                    let r2 = u64_to_two_digit_string(secs % 60);
                    out.append(r2.as_str());
                } else {
                    let h = u64_to_string(secs / 3600);
                    out.append(h.as_str());
                    out.append("h ");
                    let m2 = u64_to_two_digit_string((secs % 3600) / 60);
                    out.append(m2.as_str());
                    out.append("m");
                }
                out
            },
        }
    }
}

// ---------------------------------------------------------------------------
// The stateful parser
// ---------------------------------------------------------------------------

/// Streaming progress parser.  Its only persistent state is the total
/// duration latch: the first duration stamp seen is kept for the parser's
/// lifetime and never overwritten.
#[derive(Debug, Clone, Copy, PartialEq, Eq, Structural)]
pub struct FfmpegProgressParser {
    /// Total duration of the input video, hundredths of a second.
    pub total_duration_centis: u64,
    /// Whether the duration has been latched.
    pub duration_found: bool,
}

/// Parser state after feeding one line: an unlatched parser latches the
/// line's duration stamp if it carries one; a latched parser never changes.
pub open spec fn spec_step_state(
    p: FfmpegProgressParser,
    line: Seq<char>,
) -> FfmpegProgressParser {
    if !p.duration_found {
        match spec_parse_duration(line) {
            Some(d) => FfmpegProgressParser { total_duration_centis: d, duration_found: true },
            None => p,
        }
    } else {
        p
    }
}

/// Snapshot emitted for one fed line, under the state the line leaves the
/// parser in.
pub open spec fn spec_step_output(p: FfmpegProgressParser, line: Seq<char>) -> Option<
    EncodingProgress,
> {
    spec_parse_progress_line(line, spec_step_state(p, line).total_duration_centis)
}

impl FfmpegProgressParser {
    /// Creates a parser with no duration known yet.
    pub fn new() -> (r: Self)
        ensures
            r == (FfmpegProgressParser { total_duration_centis: 0u64, duration_found: false }),
    {
        FfmpegProgressParser { total_duration_centis: 0, duration_found: false }
    }

    /// Creates a parser whose duration is already latched (obtained from a
    /// separate probe), in hundredths of a second.
    pub fn with_duration(duration_centis: u64) -> (r: Self)
        ensures
            r == (FfmpegProgressParser {
                total_duration_centis: duration_centis,
                duration_found: true,
            }),
    {
        FfmpegProgressParser { total_duration_centis: duration_centis, duration_found: true }
    }

    /// Feeds one diagnostic line; returns the snapshot it denotes, if it is
    /// a progress line.  A line without a `time=` stamp yields no snapshot;
    /// once the duration is latched, no line ever changes it.
    pub fn parse_line(&mut self, line: &str) -> (r: Option<EncodingProgress>)
        ensures
            *final(self) == spec_step_state(*old(self), line@),
            r == spec_step_output(*old(self), line@),
            old(self).duration_found ==> *final(self) == *old(self),
            spec_labeled_timestamp_value(line@, "time="@) is None ==> r is None,
            r matches Some(p) ==> p.total_duration_centis == final(self).total_duration_centis,
    {
        if !self.duration_found {
            if let Some(duration) = parse_duration(line) {
                self.total_duration_centis = duration;
                self.duration_found = true;
            }
        }
        parse_progress_line(line, self.total_duration_centis)
    }
}

/// Parser state after feeding a sequence of lines in order.
pub open spec fn feed_all_state(
    p: FfmpegProgressParser,
    lines: Seq<Seq<char>>,
) -> FfmpegProgressParser
    decreases lines.len(),
{
    if lines.len() == 0 {
        p
    } else {
        feed_all_state(spec_step_state(p, lines[0]), lines.drop_first())
    }
}

/// Snapshots emitted while feeding a sequence of lines in order, one entry
/// per line.
pub open spec fn feed_all_outputs(p: FfmpegProgressParser, lines: Seq<Seq<char>>) -> Seq<
    Option<EncodingProgress>,
>
    decreases lines.len(),
{
    if lines.len() == 0 {
        seq![]
    } else {
        seq![spec_step_output(p, lines[0])].add(
            feed_all_outputs(spec_step_state(p, lines[0]), lines.drop_first()),
        )
    }
}

/// Duration latch law: once a parser has latched a total duration, feeding
/// any sequence of further lines leaves its state unchanged — a later,
/// different duration stamp cannot overwrite the latch — and every snapshot
/// emitted along the way carries the latched total duration.
pub proof fn lemma_duration_latch(p: FfmpegProgressParser, lines: Seq<Seq<char>>)
    requires
        p.duration_found,
    ensures
        feed_all_state(p, lines) == p,
        feed_all_outputs(p, lines).len() == lines.len(),
        forall|k: int|
            0 <= k < lines.len() ==> #[trigger] feed_all_outputs(p, lines)[k] == spec_step_output(
                p,
                lines[k],
            ),
        forall|k: int|
            0 <= k < lines.len() ==> (#[trigger] feed_all_outputs(p, lines)[k] matches Some(pr)
                ==> pr.total_duration_centis == p.total_duration_centis),
    decreases lines.len(),
{
    if lines.len() > 0 {
        assert(spec_step_state(p, lines[0]) == p);
        lemma_duration_latch(p, lines.drop_first());
        assert forall|k: int| 0 <= k < lines.len() implies #[trigger] feed_all_outputs(p, lines)[k]
            == spec_step_output(p, lines[k]) by {
            if k >= 1 {
                assert(lines.drop_first()[k - 1] == lines[k]);
                assert(feed_all_outputs(p, lines)[k] == feed_all_outputs(p, lines.drop_first())[k
                    - 1]);
            }
        }
    }
}

/// Duration latch law, from the first stamp on: an unlatched parser that is
/// fed a line carrying a duration stamp latches exactly that stamp; every
/// following line yields a snapshot exactly when it is a progress line, and
/// every such snapshot carries the latched total duration.
pub proof fn lemma_duration_latched_by_first_stamp(
    p0: FfmpegProgressParser,
    first: Seq<char>,
    rest: Seq<Seq<char>>,
    d: u64,
)
    requires
        !p0.duration_found,
        spec_parse_duration(first) == Some(d),
    ensures
        spec_step_state(p0, first) == (FfmpegProgressParser {
            total_duration_centis: d,
            duration_found: true,
        }),
        feed_all_state(spec_step_state(p0, first), rest) == spec_step_state(p0, first),
        forall|k: int|
            0 <= k < rest.len() ==> (#[trigger] feed_all_outputs(
                spec_step_state(p0, first),
                rest,
            )[k] matches Some(pr) ==> pr.total_duration_centis == d),
        forall|k: int|
            0 <= k < rest.len() ==> ((#[trigger] feed_all_outputs(
                spec_step_state(p0, first),
                rest,
            )[k]) is Some <==> spec_labeled_timestamp_value(rest[k], "time="@) is Some),
{
    lemma_duration_latch(spec_step_state(p0, first), rest);
}

} // verus!
