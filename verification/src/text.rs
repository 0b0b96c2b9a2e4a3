//! Small verified helpers over `String` / `&str`: equality, first-occurrence
//! search, prefix tests and decimal formatting. Everything downstream states
//! its contracts over `Seq<char>` views through these.

use vstd::prelude::*;

verus! {

/// True iff `i` is the index of the first occurrence of `c` in `s`.
pub open spec fn is_first_index_of(s: Seq<char>, c: char, i: int) -> bool {
    &&& 0 <= i < s.len()
    &&& s[i] == c
    &&& forall|j: int| 0 <= j < i ==> s[j] != c
}

/// The character `c` occurs somewhere in `s`.
pub open spec fn contains_char(s: Seq<char>, c: char) -> bool {
    exists|i: int| 0 <= i < s.len() && s[i] == c
}

/// The first index of `c` in `s` is unique.
pub proof fn lemma_first_index_unique(s: Seq<char>, c: char, i: int, j: int)
    requires
        is_first_index_of(s, c, i),
        is_first_index_of(s, c, j),
    ensures
        i == j,
{
}

/// Compares two string slices; the result is exactly view equality.
pub fn str_eq(a: &str, b: &str) -> (r: bool)
    ensures
        r == (a@ == b@),
{
    let sa: String = a.to_owned();
    let sb: String = b.to_owned();
    sa == sb
}

/// Finds the first occurrence of `c` in `s`, if any.
pub fn find_char(s: &str, c: char) -> (r: Option<usize>)
    ensures
        r matches Some(i) ==> is_first_index_of(s@, c, i as int),
        r is None ==> !contains_char(s@, c),
{
    let n: usize = s.unicode_len();
    let mut i: usize = 0;
    while i < n
        invariant
            i <= n,
            n == s@.len(),
            forall|j: int| 0 <= j < i ==> s@[j] != c,
        decreases n - i,
    {
        if s.get_char(i) == c {
            return Some(i);
        }
        i = i + 1;
    }
    None
}

/// `p` is a prefix of `s`.
pub open spec fn has_prefix(s: Seq<char>, p: Seq<char>) -> bool {
    p.len() <= s.len() && s.subrange(0, p.len() as int) == p
}

/// Tests whether `p` is a prefix of `s`; the result is exactly `has_prefix`.
pub fn starts_with(s: &str, p: &str) -> (r: bool)
    ensures
        r == has_prefix(s@, p@),
{
    let n: usize = s.unicode_len();
    let m: usize = p.unicode_len();
    if m > n {
        assert(!has_prefix(s@, p@));
        return false;
    }
    let mut i: usize = 0;
    while i < m
        invariant
            i <= m <= n,
            n == s@.len(),
            m == p@.len(),
            forall|j: int| 0 <= j < i ==> s@[j] == p@[j],
        decreases m - i,
    {
        if s.get_char(i) != p.get_char(i) {
            assert(s@.subrange(0, m as int)[i as int] != p@[i as int]);
            return false;
        }
        i = i + 1;
    }
    assert(s@.subrange(0, m as int) =~= p@);
    true
}

/// The decimal digit character for `d` (< 10).
pub open spec fn digit_char(d: nat) -> char
    recommends
        d < 10,
{
    if d == 0 {
        '0'
    } else if d == 1 {
        '1'
    } else if d == 2 {
        '2'
    } else if d == 3 {
        '3'
    } else if d == 4 {
        '4'
    } else if d == 5 {
        '5'
    } else if d == 6 {
        '6'
    } else if d == 7 {
        '7'
    } else if d == 8 {
        '8'
    } else {
        '9'
    }
}

/// The decimal representation of `n`, most significant digit first.
pub open spec fn dec_spec(n: nat) -> Seq<char>
    decreases n,
{
    if n < 10 {
        seq![digit_char(n)]
    } else {
        dec_spec(n / 10) + seq![digit_char(n % 10)]
    }
}

/// The one-character string for a decimal digit.
fn digit_str(d: u64) -> (r: &'static str)
    requires
        d < 10,
    ensures
        r@ =~= seq![digit_char(d as nat)],
{
    proof {
        reveal_strlit("0");
        reveal_strlit("1");
        reveal_strlit("2");
        reveal_strlit("3");
        reveal_strlit("4");
        reveal_strlit("5");
        reveal_strlit("6");
        reveal_strlit("7");
        reveal_strlit("8");
        reveal_strlit("9");
    }
    match d {
        0 => "0",
        1 => "1",
        2 => "2",
        3 => "3",
        4 => "4",
        5 => "5",
        6 => "6",
        7 => "7",
        8 => "8",
        _ => "9",
    }
}

/// Formats `n` in decimal; the result is exactly `dec_spec(n)`.
pub fn u64_to_dec(n: u64) -> (r: String)
    ensures
        r@ == dec_spec(n as nat),
    decreases n,
{
    if n < 10 {
        digit_str(n).to_owned()
    } else {
        let hi = u64_to_dec(n / 10);
        let r = hi.concat(digit_str(n % 10));
        assert(r@ =~= dec_spec(n as nat));
        r
    }
}

/// Relies on `char::to_string`: the resulting string holds exactly the one
/// character it was made from.
#[verifier::external_body]
pub fn char_to_string(c: char) -> (r: String)
    ensures
        r@ == seq![c],
{
    c.to_string()
}

/// Decimal formatting for `u32` fields.
pub fn u32_to_dec(n: u32) -> (r: String)
    ensures
        r@ == dec_spec(n as nat),
{
    u64_to_dec(n as u64)
}

/// The decimal representation of a signed value: a minus sign for negatives,
/// then the digits of the magnitude.
pub open spec fn dec_signed_spec(n: int) -> Seq<char> {
    if n < 0 {
        seq!['-'] + dec_spec((-n) as nat)
    } else {
        dec_spec(n as nat)
    }
}

/// Formats a signed value in decimal; the result is exactly `dec_signed_spec`.
pub fn i64_to_dec(n: i64) -> (r: String)
    ensures
        r@ == dec_signed_spec(n as int),
{
    proof {
        reveal_strlit("-");
    }
    if n < 0 {
        let mag: u64 = ((-(n as i128)) as u64);
        let digits = u64_to_dec(mag);
        let r = "-".to_owned().concat(digits.as_str());
        assert(r@ =~= dec_signed_spec(n as int));
        r
    } else {
        u64_to_dec(n as u64)
    }
}

} // verus!
