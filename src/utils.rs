use vstd::prelude::*;

use chlorine::c_char;

verus! {

/// Whether `n` is the length of the nul-terminated text at the start of
/// `s`: no nul among its first `n` characters, and a nul right after them
/// unless `s` ends first.
pub open spec fn is_c_str_len(s: Seq<c_char>, n: int) -> bool {
    &&& 0 <= n <= s.len()
    &&& forall|i: int| 0 <= i < n ==> s[i] != 0
    &&& n < s.len() ==> s[n] == 0
}

/// The length of the nul-terminated text at the start of `s`, or the length
/// of `s` where it holds no nul.
pub fn strlen(s: &[c_char]) -> (n: usize)
    ensures
        is_c_str_len(s@, n as int),
{
    let mut n: usize = 0;
    while n < s.len() && s[n] != 0
        invariant
            n <= s@.len(),
            forall|i: int| 0 <= i < n ==> s@[i] != 0,
        decreases s@.len() - n,
    {
        n = n + 1;
    }
    n
}

} // verus!
