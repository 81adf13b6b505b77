//! Text utilities shared by the parsers: specifications for the two
//! std string operations the grammar relies on, string comparison,
//! locating the first `=` sign, and decimal rendering of integers.

use vstd::prelude::*;
use vstd::string::*;

verus! {

/// What `str::trim` returns for a given character sequence.
pub uninterp spec fn spec_trim(s: Seq<char>) -> Seq<char>;

/// Relies on `str::trim`: returns the string without leading and
/// trailing whitespace, so the result is never longer than the input,
/// trimming it a second time changes nothing, and the empty string
/// trims to itself.
pub assume_specification<'a>[ str::trim ](s: &'a str) -> (r: &'a str)
    ensures
        r@ == spec_trim(s@),
        r@ == spec_trim(r@),
        r@.len() <= s@.len(),
        s@.len() == 0 ==> r@ == s@,
;

/// Whether `char::is_alphanumeric` holds of a character.
pub uninterp spec fn spec_char_alphanumeric(c: char) -> bool;

/// Relies on `char::is_alphanumeric`: true exactly for Unicode letters
/// and numeric characters; in particular `=` is a symbol, not a letter
/// or digit, so it is never alphanumeric.
pub assume_specification[ char::is_alphanumeric ](c: char) -> (r: bool)
    ensures
        r == spec_char_alphanumeric(c),
        c == '=' ==> !r,
;

/// Character-wise string equality; equivalent to view equality.
pub fn str_eq(a: &str, b: &str) -> (r: bool)
    ensures
        r == (a@ == b@),
{
    let alen = a.unicode_len();
    let blen = b.unicode_len();
    if alen != blen {
        return false;
    }
    let mut i: usize = 0;
    while i < alen
        invariant
            i <= alen,
            alen == a@.len() == b@.len(),
            forall|k: int| 0 <= k < i ==> a@[k] == b@[k],
        decreases alen - i,
    {
        if a.get_char(i) != b.get_char(i) {
            return false;
        }
        i = i + 1;
    }
    proof {
        assert(a@ =~= b@);
    }
    true
}

/// Index of the first `=` sign of `s`, if any.
pub open spec fn spec_first_eq(s: Seq<char>) -> Option<int>
    decreases s.len(),
{
    if s.len() == 0 {
        None
    } else if s[0] == '=' {
        Some(0int)
    } else {
        match spec_first_eq(s.skip(1)) {
            Some(i) => Some(i + 1),
            None => None,
        }
    }
}

/// The defining property of `spec_first_eq`: it points at the first
/// `=` sign, and is `None` exactly when the string has none.
pub proof fn lemma_first_eq_characterization(s: Seq<char>)
    ensures
        match spec_first_eq(s) {
            Some(i) => 0 <= i < s.len() && s[i] == '=' && forall|k: int| 0 <= k < i ==> s[k] != '=',
            None => forall|k: int| 0 <= k < s.len() ==> s[k] != '=',
        },
    decreases s.len(),
{
    if s.len() > 0 && s[0] != '=' {
        lemma_first_eq_characterization(s.skip(1));
        assert forall|k: int| 1 <= k < s.len() implies s[k] == s.skip(1)[k - 1] by {}
    }
}

/// A string made only of characters other than `=` has no first `=`.
pub proof fn lemma_first_eq_none(s: Seq<char>)
    requires
        forall|k: int| 0 <= k < s.len() ==> s[k] != '=',
    ensures
        spec_first_eq(s) is None,
{
    lemma_first_eq_characterization(s);
    if spec_first_eq(s) is Some {
        let i = spec_first_eq(s)->Some_0;
        assert(s[i] != '=');
    }
}

/// In a string `a + ['='] + b` whose first part has no `=` sign, the
/// first `=` sign stands exactly between the parts.
pub proof fn lemma_first_eq_concat(a: Seq<char>, b: Seq<char>)
    requires
        forall|k: int| 0 <= k < a.len() ==> a[k] != '=',
    ensures
        spec_first_eq(a + seq!['='] + b) == Some(a.len() as int),
        (a + seq!['='] + b).take(a.len() as int) == a,
        (a + seq!['='] + b).skip(a.len() as int + 1) == b,
{
    let s = a + seq!['='] + b;
    assert(s[a.len() as int] == '=');
    lemma_first_eq_characterization(s);
    match spec_first_eq(s) {
        Some(i) => {
            assert forall|k: int| 0 <= k < a.len() implies s[k] != '=' by {
                assert(s[k] == a[k]);
            }
            assert(i <= a.len());
            assert(i == a.len());
        },
        None => {
            assert(s[a.len() as int] == '=');
        },
    }
    assert(s.take(a.len() as int) =~= a);
    assert(s.skip(a.len() as int + 1) =~= b);
}

/// Executable search for the first `=` sign.
pub fn find_first_eq(s: &str) -> (r: Option<usize>)
    ensures
        match r {
            Some(i) => spec_first_eq(s@) == Some(i as int),
            None => spec_first_eq(s@) is None,
        },
{
    proof {
        lemma_first_eq_characterization(s@);
    }
    let len = s.unicode_len();
    let mut i: usize = 0;
    while i < len
        invariant
            i <= len,
            len == s@.len(),
            forall|k: int| 0 <= k < i ==> s@[k] != '=',
            match spec_first_eq(s@) {
                Some(j) => 0 <= j < s@.len() && s@[j] == '=' && forall|k: int|
                    0 <= k < j ==> s@[k] != '=',
                None => forall|k: int| 0 <= k < s@.len() ==> s@[k] != '=',
            },
        decreases len - i,
    {
        if s.get_char(i) == '=' {
            return Some(i);
        }
        i = i + 1;
    }
    None
}

/// The decimal digit character for a value below ten.
pub open spec fn spec_digit(d: int) -> char {
    if d == 0 {
        '0'
    } else if d == 1 {
        '1'
    } else if d == 2 {
        '2'
    } else if d == 3 {
        '3'
    } else if d == 4 {
        '4'
    } else if d == 5 {
        '5'
    } else if d == 6 {
        '6'
    } else if d == 7 {
        '7'
    } else if d == 8 {
        '8'
    } else {
        '9'
    }
}

/// Decimal rendering of a non-negative integer, most significant digit
/// first, without leading zeros (zero itself renders as `0`).
pub open spec fn spec_decimal(n: int) -> Seq<char>
    decreases n,
{
    if n < 10 {
        seq![spec_digit(n)]
    } else {
        spec_decimal(n / 10).push(spec_digit(n % 10))
    }
}

/// One decimal digit as a string slice.
fn digit_str(d: u64) -> (r: &'static str)
    requires
        d < 10,
    ensures
        r@ == seq![spec_digit(d as int)],
{
    proof {
        reveal_strlit("0");
        reveal_strlit("1");
        reveal_strlit("2");
        reveal_strlit("3");
        reveal_strlit("4");
        reveal_strlit("5");
        reveal_strlit("6");
        reveal_strlit("7");
        reveal_strlit("8");
        reveal_strlit("9");
    }
    if d == 0 {
        "0"
    } else if d == 1 {
        "1"
    } else if d == 2 {
        "2"
    } else if d == 3 {
        "3"
    } else if d == 4 {
        "4"
    } else if d == 5 {
        "5"
    } else if d == 6 {
        "6"
    } else if d == 7 {
        "7"
    } else if d == 8 {
        "8"
    } else {
        "9"
    }
}

/// Relies on `String::push`: appends exactly the one character.
#[verifier::external_body]
pub fn push_char(out: &mut String, c: char)
    ensures
        final(out)@ == old(out)@ + seq![c],
{
    out.push(c);
}

/// Appends the decimal rendering of `n` to `out`.
pub fn push_decimal(out: &mut String, n: u64)
    ensures
        final(out)@ == old(out)@ + spec_decimal(n as int),
    decreases n,
{
    if n < 10 {
        out.append(digit_str(n));
    } else {
        push_decimal(out, n / 10);
        out.append(digit_str(n % 10));
        proof {
            assert(old(out)@ + spec_decimal(n as int / 10) + seq![
                spec_digit(n as int % 10),
            ] =~= old(out)@ + spec_decimal(n as int));
        }
    }
}

} // verus!
