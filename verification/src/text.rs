//! Small verified string helpers over the character view of `str`.

use vstd::prelude::*;

verus! {

/// `s` ends with `suffix` (as sequences of characters).
pub open spec fn ends_with(s: Seq<char>, suffix: Seq<char>) -> bool {
    suffix.len() <= s.len() && s.subrange(s.len() - suffix.len(), s.len() as int) == suffix
}

/// Character-wise equality of two strings.
pub fn text_eq(a: &str, b: &str) -> (r: bool)
    ensures
        r == (a@ == b@),
{
    let n: usize = a.unicode_len();
    let m: usize = b.unicode_len();
    if n != m {
        return false;
    }
    let mut i: usize = 0;
    while i < n
        invariant
            n == a@.len(),
            m == b@.len(),
            n == m,
            i <= n,
            forall|k: int| 0 <= k < i ==> a@[k] == b@[k],
        decreases n - i,
    {
        if a.get_char(i) != b.get_char(i) {
            return false;
        }
        i = i + 1;
    }
    assert(a@ =~= b@);
    true
}

/// Whether `s` ends with `suffix`.
pub fn str_ends_with(s: &str, suffix: &str) -> (r: bool)
    ensures
        r == ends_with(s@, suffix@),
{
    let n: usize = s.unicode_len();
    let m: usize = suffix.unicode_len();
    if m > n {
        return false;
    }
    let off: usize = n - m;
    let mut i: usize = 0;
    while i < m
        invariant
            n == s@.len(),
            m == suffix@.len(),
            m <= n,
            off == n - m,
            i <= m,
            forall|k: int| 0 <= k < i ==> s@[off + k] == suffix@[k],
        decreases m - i,
    {
        if s.get_char(off + i) != suffix.get_char(i) {
            assert(s@.subrange(off as int, n as int)[i as int] != suffix@[i as int]);
            return false;
        }
        i = i + 1;
    }
    assert(s@.subrange(off as int, n as int) =~= suffix@);
    true
}

/// If `a` ends with `b` and `b` ends with `c`, then `a` ends with `c`.
pub proof fn lemma_ends_with_trans(a: Seq<char>, b: Seq<char>, c: Seq<char>)
    requires
        ends_with(a, b),
        ends_with(b, c),
    ensures
        ends_with(a, c),
{
    let sa = a.subrange(a.len() - c.len(), a.len() as int);
    assert forall|k: int| 0 <= k < c.len() implies sa[k] == c[k] by {
        assert(a.subrange(a.len() - b.len(), a.len() as int)[b.len() - c.len() + k] == b[b.len() - c.len() + k]);
        assert(b.subrange(b.len() - c.len(), b.len() as int)[k] == c[k]);
    }
    assert(sa =~= c);
}

/// A text followed by `suffix` ends with `suffix`.
pub proof fn lemma_ends_with_concat(a: Seq<char>, suffix: Seq<char>)
    ensures
        ends_with(a + suffix, suffix),
{
    assert((a + suffix).subrange(a.len() as int, (a + suffix).len() as int) =~= suffix);
}

/// Appending the same text to two strings keeps the suffix relation.
pub proof fn lemma_ends_with_append(a: Seq<char>, b: Seq<char>, t: Seq<char>)
    requires
        ends_with(a, b),
    ensures
        ends_with(a + t, b + t),
{
    let s = (a + t).subrange((a + t).len() - (b + t).len(), (a + t).len() as int);
    assert forall|k: int| 0 <= k < (b + t).len() implies s[k] == (b + t)[k] by {
        if k < b.len() {
            assert(a.subrange(a.len() - b.len(), a.len() as int)[k] == b[k]);
        }
    }
    assert(s =~= b + t);
}

/// Where `a` ends with `s` followed by `t`, the part of `a` before `t` ends
/// with `s`, and `a` is that part followed by `t`.
pub proof fn lemma_ends_with_split(a: Seq<char>, s: Seq<char>, t: Seq<char>)
    requires
        ends_with(a, s + t),
    ensures
        a.len() >= t.len(),
        ends_with(a.subrange(0, a.len() - t.len()), s),
        a == a.subrange(0, a.len() - t.len()) + t,
{
    let n = a.len() as int;
    let st = s + t;
    let head = a.subrange(0, n - t.len());
    assert forall|k: int| 0 <= k < t.len() implies a[n - t.len() + k] == t[k] by {
        assert(a.subrange(n - st.len(), n)[s.len() + k] == st[s.len() + k]);
    }
    assert(a =~= head + t);
    let hs = head.subrange(head.len() - s.len(), head.len() as int);
    assert forall|k: int| 0 <= k < s.len() implies hs[k] == s[k] by {
        assert(a.subrange(n - st.len(), n)[k] == st[k]);
    }
    assert(hs =~= s);
}

/// Two suffixes of one text: the shorter is a suffix of the longer.
pub proof fn lemma_ends_with_both(a: Seq<char>, s: Seq<char>, t: Seq<char>)
    requires
        ends_with(a, s),
        ends_with(a, t),
        t.len() <= s.len(),
    ensures
        ends_with(s, t),
{
    let n = a.len() as int;
    let st = s.subrange(s.len() - t.len(), s.len() as int);
    assert forall|k: int| 0 <= k < t.len() implies st[k] == t[k] by {
        assert(a.subrange(n - s.len(), n)[s.len() - t.len() + k] == s[s.len() - t.len() + k]);
        assert(a.subrange(n - t.len(), n)[k] == t[k]);
    }
    assert(st =~= t);
}

} // verus!
