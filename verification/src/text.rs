use vstd::prelude::*;

verus! {

/// `p` is a prefix of `s`, character by character.
pub open spec fn is_prefix_chars(p: Seq<char>, s: Seq<char>) -> bool {
    p.len() <= s.len() && s.subrange(0, p.len() as int) == p
}

/// Whether `s` starts with `prefix` (compared character by character; for
/// UTF-8 text this agrees with a byte-wise prefix test).
pub fn starts_with(s: &str, prefix: &str) -> (res: bool)
    ensures
        res == is_prefix_chars(prefix@, s@),
{
    let n = prefix.unicode_len();
    let m = s.unicode_len();
    if n > m {
        return false;
    }
    let mut i: usize = 0;
    while i < n
        invariant
            n == prefix@.len(),
            m == s@.len(),
            n <= m,
            i <= n,
            forall|j: int| 0 <= j < i ==> s@[j] == prefix@[j],
        decreases n - i,
    {
        if s.get_char(i) != prefix.get_char(i) {
            assert(s@.subrange(0, n as int)[i as int] != prefix@[i as int]);
            return false;
        }
        i = i + 1;
    }
    assert(s@.subrange(0, n as int) =~= prefix@);
    true
}

/// Whether two strings hold the same characters.
pub fn str_eq(a: &str, b: &str) -> (res: bool)
    ensures
        res == (a@ == b@),
{
    if a.unicode_len() != b.unicode_len() {
        return false;
    }
    let r = starts_with(a, b);
    proof {
        if a@ == b@ {
            assert(a@.subrange(0, b@.len() as int) =~= b@);
        }
        if r {
            assert(a@ =~= a@.subrange(0, b@.len() as int));
        }
    }
    r
}

} // verus!
