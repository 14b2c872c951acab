//! Verified helpers over strings: equality, prefix and substring tests,
//! and concatenation, with contracts over the character sequences.

use vstd::prelude::*;
use vstd::string::StrSliceExecFns;
use vstd::string::StringExecFns;

verus! {

/// `p` is a prefix of `s`.
pub open spec fn seq_starts_with(s: Seq<char>, p: Seq<char>) -> bool {
    p.len() <= s.len() && s.subrange(0, p.len() as int) == p
}

/// `sub` occurs somewhere in `s`.
pub open spec fn seq_has_substring(s: Seq<char>, sub: Seq<char>) -> bool {
    exists|i: int|
        0 <= i && i + sub.len() <= s.len() && #[trigger] s.subrange(i, i + sub.len() as int)
            == sub
}

/// Character-for-character equality of two string slices.
pub fn str_eq(a: &str, b: &str) -> (r: bool)
    ensures
        r == (a@ == b@),
{
    let owned_a: String = a.to_owned();
    let owned_b: String = b.to_owned();
    owned_a == owned_b
}

/// Whether `s` starts with the prefix `p`.
pub fn str_starts_with(s: &str, p: &str) -> (r: bool)
    ensures
        r == seq_starts_with(s@, p@),
{
    let n: usize = p.unicode_len();
    let m: usize = s.unicode_len();
    if n > m {
        assert(!seq_starts_with(s@, p@));
        return false;
    }
    let mut i: usize = 0;
    while i < n
        invariant
            i <= n,
            n <= m,
            n == p@.len(),
            m == s@.len(),
            forall|j: int| 0 <= j < i ==> s@[j] == p@[j],
        decreases n - i,
    {
        if s.get_char(i) != p.get_char(i) {
            assert(s@.subrange(0, p@.len() as int)[i as int] != p@[i as int]);
            return false;
        }
        i += 1;
    }
    assert(s@.subrange(0, p@.len() as int) =~= p@);
    true
}

/// Whether `sub` occurs anywhere in `s`.
pub fn str_contains(s: &str, sub: &str) -> (r: bool)
    ensures
        r == seq_has_substring(s@, sub@),
{
    let n: usize = sub.unicode_len();
    let m: usize = s.unicode_len();
    if n > m {
        assert(!seq_has_substring(s@, sub@));
        return false;
    }
    if n == 0 {
        assert(s@.subrange(0, 0 + sub@.len() as int) =~= sub@);
        return true;
    }
    let mut start: usize = 0;
    while start <= m - n
        invariant
            1 <= n <= m,
            n == sub@.len(),
            m == s@.len(),
            start <= m - n + 1,
            forall|k: int|
                0 <= k < start ==> #[trigger] s@.subrange(k, k + sub@.len() as int) != sub@,
        decreases m + 1 - start,
    {
        let mut i: usize = 0;
        let mut matched: bool = true;
        while matched && i < n
            invariant
                i <= n,
                n <= m,
                start <= m - n,
                n == sub@.len(),
                m == s@.len(),
                matched ==> forall|j: int| 0 <= j < i ==> s@[start + j] == sub@[j],
                !matched ==> s@.subrange(start as int, start + sub@.len() as int) != sub@,
            decreases n - i + if matched { 1int } else { 0int },
        {
            if s.get_char(start + i) != sub.get_char(i) {
                assert(s@.subrange(start as int, start + sub@.len() as int)[i as int]
                    != sub@[i as int]);
                matched = false;
            } else {
                i += 1;
            }
        }
        if matched {
            assert(s@.subrange(start as int, start + sub@.len() as int) =~= sub@);
            return true;
        }
        start += 1;
    }
    assert forall|i: int| 0 <= i && i + sub@.len() <= s@.len() implies #[trigger] s@.subrange(
        i,
        i + sub@.len() as int,
    ) != sub@ by {
        assert(i < start);
    }
    false
}

/// Relies on std's String::push, which vstd gives no specification:
/// appends one character to the string.
#[verifier::external_body]
pub fn string_push_char(s: &mut String, c: char)
    ensures
        final(s)@ == old(s)@.push(c),
{
    s.push(c);
}

/// Whether `v` holds a string equal to `s`.
pub fn vec_contains_str(v: &Vec<String>, s: &str) -> (r: bool)
    ensures
        r == v.deep_view().contains(s@),
{
    let mut i: usize = 0;
    while i < v.len()
        invariant
            i <= v.deep_view().len(),
            forall|j: int| 0 <= j < i ==> v.deep_view()[j] != s@,
        decreases v.len() - i,
    {
        if str_eq(v[i].as_str(), s) {
            assert(v.deep_view()[i as int] == s@);
            return true;
        }
        i += 1;
    }
    assert(forall|j: int| 0 <= j < v.deep_view().len() ==> v.deep_view()[j] != s@);
    false
}

/// Concatenation of two strings.
pub fn concat2(a: &str, b: &str) -> (r: String)
    ensures
        r@ == a@ + b@,
{
    let mut r: String = a.to_owned();
    r.append(b);
    r
}

/// Concatenation of three strings.
pub fn concat3(a: &str, b: &str, c: &str) -> (r: String)
    ensures
        r@ == a@ + b@ + c@,
{
    let mut r: String = a.to_owned();
    r.append(b);
    r.append(c);
    r
}

} // verus!
