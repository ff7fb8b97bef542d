//! Comparison of strings by their characters.
use vstd::prelude::*;

verus! {

/// Whether `s` holds exactly the characters of `t`.
pub(crate) fn same_chars(s: &String, t: &str) -> (r: bool)
    ensures
        r == (s@ == t@),
{
    let n = s.as_str().unicode_len();
    if n != t.unicode_len() {
        return false;
    }
    let mut i: usize = 0;
    while i < n
        invariant
            n == s@.len(),
            n == t@.len(),
            0 <= i <= n,
            forall|j: int| 0 <= j < i ==> s@[j] == t@[j],
        decreases n - i,
    {
        if s.as_str().get_char(i) != t.get_char(i) {
            return false;
        }
        i = i + 1;
    }
    assert(s@ =~= t@);
    true
}

} // verus!
