use vstd::prelude::*;
use vstd::string::*;

verus! {

/// The character that a wildcard target holds in place of the captured suffix.
pub const CAPTURE: char = '*';

/// `t` with every capture placeholder replaced by `cap`.
pub open spec fn fill_capture(t: Seq<char>, cap: Seq<char>) -> Seq<char>
    decreases t.len(),
{
    if t.len() == 0 {
        Seq::empty()
    } else {
        fill_capture(t.drop_last(), cap) + if t.last() == CAPTURE {
            cap
        } else {
            seq![t.last()]
        }
    }
}

/// Does `s` start with `prefix`?
pub fn starts_with(s: &str, prefix: &str) -> (r: bool)
    ensures
        r == prefix@.is_prefix_of(s@),
{
    let n = s.unicode_len();
    let m = prefix.unicode_len();
    if m > n {
        return false;
    }
    let mut i: usize = 0;
    while i < m
        invariant
            n == s@.len(),
            m == prefix@.len(),
            m <= n,
            i <= m,
            forall|j: int| 0 <= j < i ==> prefix@[j] == s@[j],
        decreases m - i,
    {
        if prefix.get_char(i) != s.get_char(i) {
            return false;
        }
        i = i + 1;
    }
    proof {
        assert(prefix@ =~= s@.subrange(0, m as int));
    }
    true
}

/// The part of `s` after its first `k` characters.
pub fn suffix_after(s: &str, k: usize) -> (r: String)
    requires
        k <= s@.len(),
    ensures
        r@ == s@.subrange(k as int, s@.len() as int),
{
    let n = s.unicode_len();
    s.substring_char(k, n).to_owned()
}

/// Replaces every capture placeholder of `t` by `cap`.
pub fn fill(t: &str, cap: &str) -> (r: String)
    ensures
        r@ == fill_capture(t@, cap@),
{
    let n = t.unicode_len();
    let mut out = String::new();
    let mut start: usize = 0;
    let mut i: usize = 0;
    while i < n
        invariant
            n == t@.len(),
            start <= i <= n,
            out@ + t@.subrange(start as int, i as int) =~= fill_capture(t@.subrange(0, i as int), cap@),
        decreases n - i,
    {
        let c = t.get_char(i);
        proof {
            assert(t@.subrange(0, i + 1).drop_last() =~= t@.subrange(0, i as int));
            assert(t@.subrange(0, i + 1).last() == c);
        }
        if c == CAPTURE {
            out.append(t.substring_char(start, i));
            out.append(cap);
            start = i + 1;
            proof {
                assert(t@.subrange(start as int, i + 1) =~= Seq::<char>::empty());
            }
        } else {
            proof {
                assert(t@.subrange(start as int, i + 1) =~= t@.subrange(start as int, i as int) + seq![c]);
            }
        }
        i = i + 1;
    }
    out.append(t.substring_char(start, n));
    proof {
        assert(t@.subrange(0, n as int) =~= t@);
    }
    out
}

} // verus!
