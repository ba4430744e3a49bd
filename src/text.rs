use vstd::prelude::*;

verus! {

/// `suffix` is the tail of `s`.
pub open spec fn ends_with(s: Seq<char>, suffix: Seq<char>) -> bool {
    suffix.len() <= s.len() && s.subrange(s.len() - suffix.len(), s.len() as int) == suffix
}

/// `part` occurs in `s` starting at position `at`.
pub open spec fn occurs_at(s: Seq<char>, part: Seq<char>, at: int) -> bool {
    0 <= at && at + part.len() <= s.len() && s.subrange(at, at + part.len()) == part
}

/// `part` occurs somewhere in `s`.
pub open spec fn contains(s: Seq<char>, part: Seq<char>) -> bool {
    exists|at: int| occurs_at(s, part, at)
}

/// Whether `a` and `b` hold the same characters.
pub fn same_text(a: &str, b: &str) -> (r: bool)
    ensures
        r == (a@ == b@),
{
    let n = a.unicode_len();
    let m = b.unicode_len();
    if n != m {
        return false;
    }
    let mut i: usize = 0;
    while i < n
        invariant
            n == a@.len(),
            m == b@.len(),
            n == m,
            i <= n,
            forall|k: int| 0 <= k < i ==> a@[k] == b@[k],
        decreases n - i,
    {
        if a.get_char(i) != b.get_char(i) {
            return false;
        }
        i = i + 1;
    }
    assert(a@ =~= b@);
    true
}

/// Whether the characters of `part` stand in `s` from position `at` on.
fn matches_at(s: &str, n: usize, part: &str, m: usize, at: usize) -> (r: bool)
    requires
        n == s@.len(),
        m == part@.len(),
        at + m <= n,
    ensures
        r == occurs_at(s@, part@, at as int),
{
    let mut k: usize = 0;
    while k < m
        invariant
            n == s@.len(),
            m == part@.len(),
            at + m <= n,
            k <= m,
            forall|j: int| 0 <= j < k ==> s@[at + j] == part@[j],
        decreases m - k,
    {
        if s.get_char(at + k) != part.get_char(k) {
            assert(s@.subrange(at as int, at + m)[k as int] != part@[k as int]);
            return false;
        }
        k = k + 1;
    }
    assert(s@.subrange(at as int, at + m) =~= part@);
    true
}

/// Whether `s` ends with `suffix`.
pub fn text_ends_with(s: &str, suffix: &str) -> (r: bool)
    ensures
        r == ends_with(s@, suffix@),
{
    let n = s.unicode_len();
    let m = suffix.unicode_len();
    if m > n {
        return false;
    }
    matches_at(s, n, suffix, m, n - m)
}

/// Whether `part` occurs anywhere in `s`.
pub fn text_contains(s: &str, part: &str) -> (r: bool)
    ensures
        r == contains(s@, part@),
{
    let n = s.unicode_len();
    let m = part.unicode_len();
    if m > n {
        assert(forall|at: int| !occurs_at(s@, part@, at));
        return false;
    }
    let last = n - m;
    let mut at: usize = 0;
    while at < last
        invariant
            n == s@.len(),
            m == part@.len(),
            last == n - m,
            at <= last,
            forall|j: int| 0 <= j < at ==> !occurs_at(s@, part@, j),
        decreases last - at,
    {
        if matches_at(s, n, part, m, at) {
            return true;
        }
        at = at + 1;
    }
    if matches_at(s, n, part, m, last) {
        return true;
    }
    assert(forall|j: int| !occurs_at(s@, part@, j));
    false
}

} // verus!
