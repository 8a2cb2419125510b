//! String predicates and verified text helpers.
//!
//! Matching and detection work on lowercased tokens, substring containment
//! and suffix tests; everything here is proved against a small spec
//! function, except Unicode case folding, which is stated over a named
//! result of the standard library call.

use vstd::prelude::*;

verus! {

/// `n` occurs as a contiguous run inside `h`.
pub open spec fn seq_contains(h: Seq<char>, n: Seq<char>) -> bool {
    exists|i: int| 0 <= i && i + n.len() <= h.len() && #[trigger] h.subrange(i, i + n.len()) == n
}

/// `s` is a suffix of `h`.
pub open spec fn seq_ends_with(h: Seq<char>, s: Seq<char>) -> bool {
    s.len() <= h.len() && h.subrange(h.len() - s.len(), h.len() as int) == s
}

/// The part of `p` after the last occurrence of `c`; all of `p` if `c`
/// does not occur.
pub open spec fn after_last(p: Seq<char>, c: char) -> Seq<char>
    decreases p.len(),
{
    if p.len() == 0 {
        Seq::empty()
    } else if p.last() == c {
        Seq::empty()
    } else {
        after_last(p.drop_last(), c).push(p.last())
    }
}

/// `s` with every trailing repetition of `suf` removed.
pub open spec fn strip_trailing(s: Seq<char>, suf: Seq<char>) -> Seq<char>
    decreases s.len(),
{
    if suf.len() > 0 && seq_ends_with(s, suf) {
        strip_trailing(s.subrange(0, s.len() - suf.len()), suf)
    } else {
        s
    }
}

/// What `str::to_lowercase` returns for a given character sequence.
pub uninterp spec fn lower_of(s: Seq<char>) -> Seq<char>;

/// Relies on `str::to_lowercase`: the lowercase form of `s`, a function of
/// its characters alone; an empty string stays empty.
#[verifier::external_body]
pub(crate) fn lowercase(s: &str) -> (r: String)
    ensures
        r@ == lower_of(s@),
        s@.len() == 0 ==> r@.len() == 0,
{
    s.to_lowercase()
}

/// The needle matches `hay` exactly at offset `i`.
fn matches_at(hay: &str, needle: &str, i: usize) -> (r: bool)
    requires
        i + needle@.len() <= hay@.len(),
    ensures
        r == (hay@.subrange(i as int, i + needle@.len()) == needle@),
{
    let h = hay.unicode_len();
    let n = needle.unicode_len();
    let mut j: usize = 0;
    while j < n
        invariant
            h == hay@.len(),
            n == needle@.len(),
            i + n <= h,
            0 <= j <= n,
            forall|k: int| 0 <= k < j ==> hay@[i + k] == needle@[k],
        decreases n - j,
    {
        if hay.get_char(i + j) != needle.get_char(j) {
            proof {
                assert(hay@.subrange(i as int, i + needle@.len())[j as int] == hay@[i + j]);
            }
            return false;
        }
        j += 1;
    }
    proof {
        assert(hay@.subrange(i as int, i + needle@.len()) =~= needle@);
    }
    true
}

/// Whether `needle` occurs inside `hay`, as `str::contains` decides it.
pub fn contains_sub(hay: &str, needle: &str) -> (r: bool)
    ensures
        r == seq_contains(hay@, needle@),
{
    let h = hay.unicode_len();
    let n = needle.unicode_len();
    if n > h {
        return false;
    }
    if n == 0 {
        proof {
            assert(hay@.subrange(0, 0 + needle@.len() as int) =~= needle@);
        }
        return true;
    }
    let mut i: usize = 0;
    while i <= h - n
        invariant
            h == hay@.len(),
            n == needle@.len(),
            1 <= n <= h,
            0 <= i <= h - n + 1,
            forall|k: int| 0 <= k < i ==> #[trigger] hay@.subrange(k, k + needle@.len()) != needle@,
        decreases h - n - i + 1,
    {
        if matches_at(hay, needle, i) {
            return true;
        }
        i += 1;
    }
    false
}

/// Whether `suffix` ends `hay`, as `str::ends_with` decides it.
pub fn ends_with_sub(hay: &str, suffix: &str) -> (r: bool)
    ensures
        r == seq_ends_with(hay@, suffix@),
{
    let h = hay.unicode_len();
    let n = suffix.unicode_len();
    if n > h {
        return false;
    }
    matches_at(hay, suffix, h - n)
}

/// Character-for-character equality of two string slices.
pub fn str_eq(a: &str, b: &str) -> (r: bool)
    ensures
        r == (a@ == b@),
{
    let la = a.unicode_len();
    let lb = b.unicode_len();
    if la != lb {
        return false;
    }
    let r = matches_at(a, b, 0);
    proof {
        assert(a@.subrange(0, a@.len() as int) =~= a@);
    }
    r
}

/// When everything from `j` on differs from `c` and, unless `j` is zero, the
/// character just before `j` is `c`, the tail from `j` is what follows the
/// last occurrence of `c`.
proof fn lemma_after_last_is_tail(p: Seq<char>, c: char, j: int)
    requires
        0 <= j <= p.len(),
        forall|k: int| j <= k < p.len() ==> p[k] != c,
        j > 0 ==> p[j - 1] == c,
    ensures
        after_last(p, c) == p.subrange(j, p.len() as int),
    decreases p.len(),
{
    if p.len() == 0 {
        assert(p.subrange(0, 0) =~= Seq::<char>::empty());
    } else if j == p.len() {
        assert(p.subrange(j, p.len() as int) =~= Seq::<char>::empty());
    } else {
        let dl = p.drop_last();
        assert(forall|k: int| 0 <= k < dl.len() ==> #[trigger] dl[k] == p[k]);
        lemma_after_last_is_tail(dl, c, j);
        assert(p.subrange(j, p.len() as int) =~= dl.subrange(j, dl.len() as int).push(p.last()));
    }
}

/// The part of `s` after its last occurrence of `c`; all of `s` if `c` does
/// not occur.
pub fn after_last_sub<'a>(s: &'a str, c: char) -> (r: &'a str)
    ensures
        r@ == after_last(s@, c),
{
    let l = s.unicode_len();
    let mut j: usize = l;
    let mut done = false;
    while !done && j > 0
        invariant
            l == s@.len(),
            0 <= j <= l,
            forall|k: int| j <= k < l ==> s@[k] != c,
            done ==> j >= 1 && s@[j - 1] == c,
        decreases j + (if done { 0int } else { 1int }),
    {
        if s.get_char(j - 1) == c {
            done = true;
        } else {
            j -= 1;
        }
    }
    proof {
        lemma_after_last_is_tail(s@, c, j as int);
    }
    s.substring_char(j, l)
}

/// `s` with every trailing repetition of `suffix` removed.
pub fn strip_trailing_sub<'a>(s: &'a str, suffix: &str) -> (r: &'a str)
    requires
        suffix@.len() > 0,
    ensures
        r@ == strip_trailing(s@, suffix@),
{
    let m = suffix.unicode_len();
    let mut cur: &'a str = s;
    while ends_with_sub(cur, suffix)
        invariant
            m == suffix@.len(),
            m >= 1,
            strip_trailing(s@, suffix@) == strip_trailing(cur@, suffix@),
        decreases cur@.len(),
    {
        let l = cur.unicode_len();
        cur = cur.substring_char(0, l - m);
    }
    cur
}

} // verus!
