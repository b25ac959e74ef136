//! Character-level text utilities: splitting a string at the first
//! occurrence of a separator, and reading a decimal number. The wire
//! protocol of the service is plain text, so these carry its whole
//! response-body grammar.

use vstd::arithmetic::div_mod::lemma_fundamental_div_mod;
use vstd::arithmetic::div_mod::lemma_mod_division_less_than_divisor;
use vstd::prelude::*;
use vstd::string::StrSliceExecFns;

verus! {

/// True when `c` occurs somewhere in `s`.
pub open spec fn contains_char(s: Seq<char>, c: char) -> bool {
    exists|i: int| 0 <= i < s.len() && s[i] == c
}

/// `k` is the position of the first occurrence of `c` in `s`.
pub open spec fn is_first_index_of(s: Seq<char>, c: char, k: int) -> bool {
    &&& 0 <= k < s.len()
    &&& s[k] == c
    &&& forall|i: int| 0 <= i < k ==> s[i] != c
}

/// Two first occurrences are the same occurrence.
pub proof fn lemma_first_index_unique(s: Seq<char>, c: char, k1: int, k2: int)
    requires
        is_first_index_of(s, c, k1),
        is_first_index_of(s, c, k2),
    ensures
        k1 == k2,
{
    if k1 < k2 {
        assert(s[k1] != c);
    }
    if k2 < k1 {
        assert(s[k2] != c);
    }
}

/// Wherever `c` occurs at all, a first occurrence exists.
pub proof fn lemma_first_index_exists(s: Seq<char>, c: char)
    requires
        contains_char(s, c),
    ensures
        exists|k: int| is_first_index_of(s, c, k),
    decreases s.len(),
{
    if s[0] == c {
        assert(is_first_index_of(s, c, 0));
    } else {
        let t = s.subrange(1, s.len() as int);
        let i = choose|i: int| 0 <= i < s.len() && s[i] == c;
        assert(t[i - 1] == c);
        lemma_first_index_exists(t, c);
        let k = choose|k: int| is_first_index_of(t, c, k);
        assert forall|j: int| 0 <= j < k + 1 implies s[j] != c by {
            if j >= 1 {
                assert(t[j - 1] == s[j]);
            }
        }
        assert(is_first_index_of(s, c, k + 1));
    }
}

/// What stands before the first `c` in `s`; all of `s` when `c` does not
/// occur.
pub open spec fn head_before(s: Seq<char>, c: char) -> Seq<char> {
    if contains_char(s, c) {
        let k = choose|k: int| is_first_index_of(s, c, k);
        s.subrange(0, k)
    } else {
        s
    }
}

/// What stands after the first `c` in `s`; `None` when `c` does not occur.
pub open spec fn rest_after(s: Seq<char>, c: char) -> Option<Seq<char>> {
    if contains_char(s, c) {
        let k = choose|k: int| is_first_index_of(s, c, k);
        Some(s.subrange(k + 1, s.len() as int))
    } else {
        None
    }
}

/// Evaluates `head_before` and `rest_after` at a known first occurrence.
pub proof fn lemma_split_at_first(s: Seq<char>, c: char, k: int)
    requires
        is_first_index_of(s, c, k),
    ensures
        contains_char(s, c),
        head_before(s, c) == s.subrange(0, k),
        rest_after(s, c) == Some(s.subrange(k + 1, s.len() as int)),
{
    assert(s[k] == c);
    assert(contains_char(s, c));
    lemma_first_index_exists(s, c);
    let k0 = choose|k0: int| is_first_index_of(s, c, k0);
    lemma_first_index_unique(s, c, k, k0);
}

/// Position of the first occurrence of `c` in `s`, if any.
pub fn find_char(s: &str, c: char) -> (r: Option<usize>)
    ensures
        match r {
            Some(k) => is_first_index_of(s@, c, k as int),
            None => !contains_char(s@, c),
        },
{
    let n = s.unicode_len();
    let mut i: usize = 0;
    while i < n
        invariant
            n == s@.len(),
            0 <= i <= n,
            forall|j: int| 0 <= j < i ==> s@[j] != c,
        decreases n - i,
    {
        if s.get_char(i) == c {
            return Some(i);
        }
        i = i + 1;
    }
    None
}

/// Splits `s` at the first occurrence of `c`: the text before it, and the
/// text after it when `c` occurs at all. Only the first occurrence
/// separates; later ones stay inside the second part.
pub fn split_at_first<'a>(s: &'a str, c: char) -> (r: (&'a str, Option<&'a str>))
    ensures
        r.0@ == head_before(s@, c),
        match r.1 {
            Some(t) => rest_after(s@, c) == Some(t@),
            None => rest_after(s@, c) is None,
        },
{
    let n = s.unicode_len();
    match find_char(s, c) {
        Some(k) => {
            proof {
                lemma_split_at_first(s@, c, k as int);
            }
            let head = s.substring_char(0, k);
            let tail = s.substring_char(k + 1, n);
            (head, Some(tail))
        },
        None => (s, None),
    }
}

/// An ASCII decimal digit.
pub open spec fn is_ascii_digit(c: char) -> bool {
    48 <= c as u32 && c as u32 <= 57
}

/// The numeric value of one digit.
pub open spec fn digit_value(c: char) -> int {
    c as u32 - 48
}

/// True when every character of `s` is an ASCII decimal digit.
pub open spec fn all_ascii_digits(s: Seq<char>) -> bool {
    forall|i: int| 0 <= i < s.len() ==> is_ascii_digit(s[i])
}

/// The value of a digit string read left to right, most significant digit
/// first.
pub open spec fn decimal_value(s: Seq<char>) -> int
    decreases s.len(),
{
    if s.len() == 0 {
        0
    } else {
        decimal_value(s.drop_last()) * 10 + digit_value(s.last())
    }
}

/// A digit string has a non-negative value.
pub proof fn lemma_decimal_value_nonneg(s: Seq<char>)
    requires
        all_ascii_digits(s),
    ensures
        decimal_value(s) >= 0,
    decreases s.len(),
{
    if s.len() > 0 {
        assert(all_ascii_digits(s.drop_last()));
        lemma_decimal_value_nonneg(s.drop_last());
        assert(is_ascii_digit(s.last()));
    }
}

/// Reading more digits never shrinks the value: a prefix of a digit string
/// is worth at most the whole string.
pub proof fn lemma_decimal_value_prefix_le(s: Seq<char>, j: int)
    requires
        all_ascii_digits(s),
        0 <= j <= s.len(),
    ensures
        decimal_value(s.subrange(0, j)) <= decimal_value(s),
    decreases s.len() - j,
{
    if j == s.len() {
        assert(s.subrange(0, j) =~= s);
    } else {
        let t = s.drop_last();
        assert(all_ascii_digits(t));
        lemma_decimal_value_prefix_le(t, j);
        assert(s.subrange(0, j) =~= t.subrange(0, j));
        lemma_decimal_value_nonneg(t);
        assert(is_ascii_digit(s.last()));
    }
}

/// Reads a non-empty all-digit string as a number. Returns `None` exactly
/// when the string is empty, holds a non-digit, or its value does not fit
/// in a `u64`.
pub fn parse_decimal(s: &str) -> (r: Option<u64>)
    ensures
        match r {
            Some(v) => s@.len() > 0 && all_ascii_digits(s@) && decimal_value(s@) == v as int,
            None => s@.len() == 0 || !all_ascii_digits(s@) || decimal_value(s@) > u64::MAX,
        },
{
    let n = s.unicode_len();
    if n == 0 {
        return None;
    }
    let mut acc: u64 = 0;
    let mut i: usize = 0;
    while i < n
        invariant
            n == s@.len(),
            0 < n,
            0 <= i <= n,
            all_ascii_digits(s@.subrange(0, i as int)),
            acc as int == decimal_value(s@.subrange(0, i as int)),
        decreases n - i,
    {
        let c = s.get_char(i);
        let cv = c as u32;
        if cv < 48 || cv > 57 {
            proof {
                assert(!is_ascii_digit(s@[i as int]));
            }
            return None;
        }
        let d = (cv - 48) as u64;
        proof {
            let pref = s@.subrange(0, i + 1);
            assert(pref.drop_last() =~= s@.subrange(0, i as int));
            assert(pref.last() == s@[i as int]);
            assert(decimal_value(pref) == acc as int * 10 + d as int);
            let m = u64::MAX as int;
            let q = (m - d) / 10;
            lemma_fundamental_div_mod(m - d, 10);
            lemma_mod_division_less_than_divisor(m - d, 10);
            assert(10 * q >= m - d - 9);
            assert(10 * q <= m - d);
        }
        if acc > (u64::MAX - d) / 10 {
            proof {
                let pref = s@.subrange(0, i + 1);
                if all_ascii_digits(s@) {
                    lemma_decimal_value_prefix_le(s@, i + 1);
                }
            }
            return None;
        }
        acc = acc * 10 + d;
        i = i + 1;
    }
    proof {
        assert(s@.subrange(0, n as int) =~= s@);
    }
    Some(acc)
}

} // verus!
