//! Character-level text primitives shared by the parsing and formatting
//! code: classification of characters, runs and searches over character
//! sequences, and decimal rendering of integers.

use vstd::prelude::*;

verus! {

/// ASCII decimal digit.
pub open spec fn is_digit_char(c: char) -> bool {
    48 <= c as int && c as int <= 57
}

/// Numeric value of an ASCII decimal digit.
pub open spec fn digit_val(c: char) -> int {
    c as int - 48
}

/// Whitespace, as the progress grammar accepts it between a field label and
/// its value.
pub open spec fn is_space_char(c: char) -> bool {
    c == ' ' || c == '\t' || c == '\n' || c == '\r' || c == '\u{b}' || c == '\u{c}'
}

/// First index at or after `i` where `p` stops holding, or the end of `s`.
pub open spec fn run_while(s: Seq<char>, i: int, p: spec_fn(char) -> bool) -> int
    decreases s.len() - i,
{
    if i < 0 || i >= s.len() {
        i
    } else if p(s[i]) {
        run_while(s, i + 1, p)
    } else {
        i
    }
}

pub proof fn lemma_run_while(s: Seq<char>, i: int, p: spec_fn(char) -> bool)
    requires
        0 <= i <= s.len(),
    ensures
        i <= run_while(s, i, p) <= s.len(),
        forall|k: int| i <= k < run_while(s, i, p) ==> p(s[k]),
        run_while(s, i, p) < s.len() ==> !p(s[run_while(s, i, p)]),
    decreases s.len() - i,
{
    if i < s.len() && p(s[i]) {
        lemma_run_while(s, i + 1, p);
    }
}

/// First index in `0 <= i <= s.len()` at or after `i` satisfying `m`.
pub open spec fn find_from(s: Seq<char>, i: int, m: spec_fn(int) -> bool) -> Option<int>
    decreases s.len() - i,
{
    if i < 0 || i > s.len() {
        None
    } else if m(i) {
        Some(i)
    } else if i >= s.len() {
        None
    } else {
        find_from(s, i + 1, m)
    }
}

/// The characters of `lit` appear in `s` starting at index `i`.
pub open spec fn chars_match_at(s: Seq<char>, i: int, lit: Seq<char>) -> bool {
    &&& 0 <= i
    &&& i + lit.len() <= s.len()
    &&& forall|k: int| 0 <= k < lit.len() ==> s[i + k] == lit[k]
}

/// The characters of `lit` appear somewhere in `s`.
pub open spec fn contains_chars(s: Seq<char>, lit: Seq<char>) -> bool {
    exists|i: int| chars_match_at(s, i, lit)
}

/// Checks whether `lit` occurs in `s` at position `i`.
pub fn has_chars_at(s: &str, s_len: usize, i: usize, lit: &str, lit_len: usize) -> (r: bool)
    requires
        s_len == s@.len(),
        lit_len == lit@.len(),
    ensures
        r == chars_match_at(s@, i as int, lit@),
{
    if i > s_len || lit_len > s_len - i {
        return false;
    }
    let mut k: usize = 0;
    while k < lit_len
        invariant
            0 <= k <= lit_len,
            i + lit_len <= s_len,
            s_len == s@.len(),
            lit_len == lit@.len(),
            forall|j: int| 0 <= j < k ==> s@[i + j] == lit@[j],
        decreases lit_len - k,
    {
        if s.get_char(i + k) != lit.get_char(k) {
            return false;
        }
        k += 1;
    }
    true
}

/// Checks whether `lit` occurs anywhere in `s`.
pub fn contains_str(s: &str, lit: &str) -> (r: bool)
    ensures
        r == contains_chars(s@, lit@),
{
    let s_len = s.unicode_len();
    let lit_len = lit.unicode_len();
    if lit_len == 0 {
        assert(chars_match_at(s@, 0, lit@));
        return true;
    }
    let mut i: usize = 0;
    while i < s_len
        invariant
            s_len == s@.len(),
            lit_len == lit@.len(),
            0 <= i <= s_len,
            forall|j: int| 0 <= j < i ==> !chars_match_at(s@, j, lit@),
        decreases s_len - i,
    {
        if has_chars_at(s, s_len, i, lit, lit_len) {
            return true;
        }
        i += 1;
    }
    assert forall|j: int| !chars_match_at(s@, j, lit@) by {
        if 0 <= j < i {
        } else if j >= i {
            assert(j + lit@.len() > s@.len());
        }
    }
    false
}

/// Checks whether two strings hold the same characters.
pub fn str_eq(a: &str, b: &str) -> (r: bool)
    ensures
        r == (a@ == b@),
{
    let a_len = a.unicode_len();
    let b_len = b.unicode_len();
    if a_len != b_len {
        return false;
    }
    let mut k: usize = 0;
    while k < a_len
        invariant
            a_len == a@.len(),
            a_len == b@.len(),
            0 <= k <= a_len,
            forall|j: int| 0 <= j < k ==> a@[j] == b@[j],
        decreases a_len - k,
    {
        if a.get_char(k) != b.get_char(k) {
            return false;
        }
        k += 1;
    }
    proof {
        assert(a@ =~= b@);
    }
    true
}

/// `c` equals the lower-case ASCII letter `l`, up to ASCII case.
pub open spec fn matches_ci(c: char, l: char) -> bool {
    c == l || ('a' <= l && l <= 'z' && c as int == l as int - 32)
}

/// `s` equals `lit` (a lower-case ASCII literal) up to ASCII case.
pub open spec fn name_matches(s: Seq<char>, lit: Seq<char>) -> bool {
    s.len() == lit.len() && forall|k: int| 0 <= k < s.len() ==> matches_ci(s[k], lit[k])
}

/// Checks whether `s` equals the lower-case ASCII literal `lit` up to ASCII
/// case.
pub fn eq_ignore_ascii_case(s: &str, lit: &str) -> (r: bool)
    ensures
        r == name_matches(s@, lit@),
{
    let s_len = s.unicode_len();
    let lit_len = lit.unicode_len();
    if s_len != lit_len {
        return false;
    }
    let mut k: usize = 0;
    while k < s_len
        invariant
            s_len == s@.len(),
            s_len == lit@.len(),
            0 <= k <= s_len,
            forall|j: int| 0 <= j < k ==> matches_ci(s@[j], lit@[j]),
        decreases s_len - k,
    {
        let c = s.get_char(k);
        let l = lit.get_char(k);
        let cu = c as u32;
        let lu = l as u32;
        if !(c == l || (97 <= lu && lu <= 122 && cu == lu - 32)) {
            return false;
        }
        k += 1;
    }
    true
}

/// Character for a decimal digit value.
pub open spec fn digit_char(d: int) -> char {
    if d == 0 {
        '0'
    } else if d == 1 {
        '1'
    } else if d == 2 {
        '2'
    } else if d == 3 {
        '3'
    } else if d == 4 {
        '4'
    } else if d == 5 {
        '5'
    } else if d == 6 {
        '6'
    } else if d == 7 {
        '7'
    } else if d == 8 {
        '8'
    } else {
        '9'
    }
}

/// Decimal rendering of a non-negative integer, most significant digit
/// first, with no leading zeros (a lone zero for 0).
pub open spec fn dec_chars(n: int) -> Seq<char>
    decreases n,
{
    if n < 10 {
        seq![digit_char(n)]
    } else {
        dec_chars(n / 10).push(digit_char(n % 10))
    }
}

/// Decimal rendering padded with a leading zero to at least two characters.
pub open spec fn two_dec_chars(n: int) -> Seq<char> {
    if n < 10 {
        seq!['0'].add(dec_chars(n))
    } else {
        dec_chars(n)
    }
}

fn digit_str(d: u64) -> (r: &'static str)
    requires
        d < 10,
    ensures
        r@ == seq![digit_char(d as int)],
{
    if d == 0 {
        proof {
            reveal_strlit("0");
            assert("0"@ =~= seq![digit_char(0)]);
        }
        "0"
    } else if d == 1 {
        proof {
            reveal_strlit("1");
            assert("1"@ =~= seq![digit_char(1)]);
        }
        "1"
    } else if d == 2 {
        proof {
            reveal_strlit("2");
            assert("2"@ =~= seq![digit_char(2)]);
        }
        "2"
    } else if d == 3 {
        proof {
            reveal_strlit("3");
            assert("3"@ =~= seq![digit_char(3)]);
        }
        "3"
    } else if d == 4 {
        proof {
            reveal_strlit("4");
            assert("4"@ =~= seq![digit_char(4)]);
        }
        "4"
    } else if d == 5 {
        proof {
            reveal_strlit("5");
            assert("5"@ =~= seq![digit_char(5)]);
        }
        "5"
    } else if d == 6 {
        proof {
            reveal_strlit("6");
            assert("6"@ =~= seq![digit_char(6)]);
        }
        "6"
    } else if d == 7 {
        proof {
            reveal_strlit("7");
            assert("7"@ =~= seq![digit_char(7)]);
        }
        "7"
    } else if d == 8 {
        proof {
            reveal_strlit("8");
            assert("8"@ =~= seq![digit_char(8)]);
        }
        "8"
    } else {
        proof {
            reveal_strlit("9");
            assert("9"@ =~= seq![digit_char(9)]);
        }
        "9"
    }
}

/// Renders `n` in decimal.
pub fn u64_to_string(n: u64) -> (r: String)
    ensures
        r@ == dec_chars(n as int),
    decreases n,
{
    let d = digit_str(n % 10);
    if n < 10 {
        d.to_owned()
    } else {
        let mut s = u64_to_string(n / 10);
        s.append(d);
        s
    }
}

/// Renders `n` in decimal, padded with a leading zero to two characters.
pub fn u64_to_two_digit_string(n: u64) -> (r: String)
    requires
        n < 100,
    ensures
        r@ == two_dec_chars(n as int),
{
    if n < 10 {
        proof {
            reveal_strlit("0");
            assert("0"@ =~= seq!['0']);
        }
        let mut s = String::from_str("0");
        s.append(digit_str(n));
        assert(s@ =~= two_dec_chars(n as int));
        s
    } else {
        u64_to_string(n)
    }
}

} // verus!
