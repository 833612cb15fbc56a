//! Small verified helpers over `String` and `&str`: appending single
//! characters, equality, first-occurrence search, and decimal rendering of
//! integers.

use vstd::prelude::*;

verus! {

use vstd::string::StrSliceExecFns;

/// Relies on `String::push`: appends the given `char` to the end of the string.
#[verifier::external_body]
pub fn push_char(s: &mut String, c: char)
    ensures
        final(s)@ == old(s)@.push(c),
{
    s.push(c)
}

/// Equality of two string slices, decided through owned copies.
pub fn str_eq(a: &str, b: &str) -> (r: bool)
    ensures
        r == (a@ == b@),
{
    let sa: String = a.to_owned();
    let sb: String = b.to_owned();
    sa == sb
}

/// Whether `c` occurs anywhere in `s`.
pub open spec fn has_char(s: Seq<char>, c: char) -> bool {
    exists|i: int| 0 <= i < s.len() && s[i] == c
}

/// Index of the first occurrence of `c` in `s`, or `s.len()` if absent.
pub open spec fn first_idx(s: Seq<char>, c: char) -> int
    decreases s.len(),
{
    if s.len() == 0 {
        0
    } else if s[0] == c {
        0
    } else {
        1 + first_idx(s.skip(1), c)
    }
}

pub proof fn lemma_first_idx(s: Seq<char>, c: char)
    ensures
        0 <= first_idx(s, c) <= s.len(),
        first_idx(s, c) < s.len() ==> s[first_idx(s, c)] == c,
        forall|j: int| 0 <= j < first_idx(s, c) ==> s[j] != c,
        (first_idx(s, c) == s.len()) == !has_char(s, c),
    decreases s.len(),
{
    if s.len() == 0 {
    } else if s[0] == c {
    } else {
        lemma_first_idx(s.skip(1), c);
        assert forall|j: int| 0 <= j < first_idx(s, c) implies s[j] != c by {
            if j > 0 {
                assert(s.skip(1)[j - 1] == s[j]);
            }
        }
        if first_idx(s, c) == s.len() {
            assert forall|i: int| 0 <= i < s.len() implies s[i] != c by {
                if i > 0 {
                    assert(s.skip(1)[i - 1] == s[i]);
                }
            }
        } else {
            assert(s.skip(1)[first_idx(s.skip(1), c)] == s[first_idx(s, c)]);
        }
    }
}

/// Index of the first occurrence of `c` in `s`, if any.
pub fn find_char(s: &str, c: char) -> (r: Option<usize>)
    ensures
        r matches Some(i) ==> i == first_idx(s@, c) && i < s@.len() && s@[i as int] == c,
        r is None ==> !has_char(s@, c) && first_idx(s@, c) == s@.len(),
{
    proof {
        lemma_first_idx(s@, c);
    }
    let n = s.unicode_len();
    let mut i: usize = 0;
    while i < n
        invariant
            n == s@.len(),
            i <= n,
            forall|j: int| 0 <= j < i ==> s@[j] != c,
            first_idx(s@, c) >= i,
        decreases n - i,
    {
        if s.get_char(i) == c {
            proof {
                lemma_first_idx(s@, c);
            }
            return Some(i);
        }
        proof {
            lemma_first_idx(s@, c);
        }
        i = i + 1;
    }
    None
}

/// Whether `c` occurs anywhere in `s`.
pub fn contains_char(s: &str, c: char) -> (r: bool)
    ensures
        r == has_char(s@, c),
{
    match find_char(s, c) {
        Some(_) => true,
        None => false,
    }
}

/// The decimal digit character for a value below ten.
pub open spec fn dec_digit(d: nat) -> char {
    if d == 0 {
        '0'
    } else if d == 1 {
        '1'
    } else if d == 2 {
        '2'
    } else if d == 3 {
        '3'
    } else if d == 4 {
        '4'
    } else if d == 5 {
        '5'
    } else if d == 6 {
        '6'
    } else if d == 7 {
        '7'
    } else if d == 8 {
        '8'
    } else {
        '9'
    }
}

/// Decimal rendering of a natural number, most significant digit first.
pub open spec fn dec_str(n: nat) -> Seq<char>
    decreases n,
{
    if n < 10 {
        seq![dec_digit(n)]
    } else {
        dec_str(n / 10).push(dec_digit(n % 10))
    }
}

fn dec_digit_char(d: u64) -> (c: char)
    requires
        d < 10,
    ensures
        c == dec_digit(d as nat),
{
    if d == 0 {
        '0'
    } else if d == 1 {
        '1'
    } else if d == 2 {
        '2'
    } else if d == 3 {
        '3'
    } else if d == 4 {
        '4'
    } else if d == 5 {
        '5'
    } else if d == 6 {
        '6'
    } else if d == 7 {
        '7'
    } else if d == 8 {
        '8'
    } else {
        '9'
    }
}

/// Decimal rendering of `n`.
pub fn u64_to_string(n: u64) -> (r: String)
    ensures
        r@ == dec_str(n as nat),
    decreases n,
{
    if n < 10 {
        let mut s = String::new();
        push_char(&mut s, dec_digit_char(n));
        s
    } else {
        let mut s = u64_to_string(n / 10);
        push_char(&mut s, dec_digit_char(n % 10));
        s
    }
}

} // verus!
