//! Tests on names and on comment text.
use vstd::prelude::*;
use vstd::string::*;

verus! {

/// A component's name starts with an ASCII capital letter.
pub open spec fn is_component_name_spec(name: Seq<char>) -> bool {
    name.len() > 0 && 'A' <= name[0] && name[0] <= 'Z'
}

/// `pat` occurs somewhere in `text`.
pub open spec fn contains_spec(text: Seq<char>, pat: Seq<char>) -> bool {
    exists|i: int| 0 <= i && i + pat.len() <= text.len() && #[trigger] text.subrange(i, i + pat.len()) == pat
}

pub fn is_component_name(name: &str) -> (r: bool)
    ensures
        r == is_component_name_spec(name@),
{
    if name.unicode_len() == 0 {
        return false;
    }
    let c = name.get_char(0);
    'A' <= c && c <= 'Z'
}

/// Whether `pat` matches `text` at position `i`.
fn matches_at(text: &str, n: usize, pat: &str, m: usize, i: usize) -> (r: bool)
    requires
        n == text@.len(),
        m == pat@.len(),
        i + m <= n,
    ensures
        r == (text@.subrange(i as int, i + m) == pat@),
{
    let mut j: usize = 0;
    while j < m
        invariant
            n == text@.len(),
            m == pat@.len(),
            i + m <= n,
            j <= m,
            text@.subrange(i as int, i + j) == pat@.subrange(0, j as int),
        decreases m - j,
    {
        if text.get_char(i + j) != pat.get_char(j) {
            assert(text@.subrange(i as int, i + m)[j as int] != pat@[j as int]);
            return false;
        }
        assert(text@.subrange(i as int, i + j + 1) =~= text@.subrange(i as int, i + j).push(text@[i + j]));
        assert(pat@.subrange(0, j + 1) =~= pat@.subrange(0, j as int).push(pat@[j as int]));
        j = j + 1;
    }
    assert(pat@.subrange(0, m as int) =~= pat@);
    true
}

/// Whether `pat` occurs in `text`.
pub fn contains(text: &str, pat: &str) -> (r: bool)
    ensures
        r == contains_spec(text@, pat@),
{
    let n = text.unicode_len();
    let m = pat.unicode_len();
    if m > n {
        return false;
    }
    let mut i: usize = 0;
    while i <= n - m
        invariant
            n == text@.len(),
            m == pat@.len(),
            m <= n,
            i <= n - m + 1,
            forall|k: int| 0 <= k < i ==> #[trigger] text@.subrange(k, k + m) != pat@,
        decreases n - m + 1 - i,
    {
        if matches_at(text, n, pat, m, i) {
            return true;
        }
        if i == n - m {
            return false;
        }
        i = i + 1;
    }
    false
}

/// Whether two strings hold the same characters.
pub fn same_text(a: &str, b: &str) -> (r: bool)
    ensures
        r == (a@ == b@),
{
    let n = a.unicode_len();
    let m = b.unicode_len();
    if n != m {
        return false;
    }
    let r = matches_at(a, n, b, m, 0);
    assert(a@.subrange(0, n as int) =~= a@);
    r
}

} // verus!
