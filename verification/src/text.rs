//! Small verified string utilities: equality and prefix tests over the
//! character views of `&str`, written against `vstd`'s string operations.

use vstd::prelude::*;
use vstd::string::StrSliceExecFns;

verus! {

/// Appends a copy of every string in `src` to `dst`, in order.
pub fn extend_strings(dst: &mut Vec<String>, src: &Vec<String>)
    ensures
        final(dst).deep_view() == old(dst).deep_view() + src.deep_view(),
{
    let n = src.len();
    let ghost orig = dst.deep_view();
    let mut i: usize = 0;
    while i < n
        invariant
            i <= n,
            n == src@.len(),
            dst.deep_view() =~= orig + src.deep_view().take(i as int),
        decreases n - i,
    {
        let ghost pre = dst@;
        let ghost pre_dv = dst.deep_view();
        dst.push(src[i].clone());
        proof {
            assert(forall|j: int| 0 <= j < pre.len() ==> dst@[j] == pre[j]);
            assert(dst.deep_view() =~= pre_dv.push(src@[i as int]@));
            assert(src.deep_view().take(i as int + 1) =~= src.deep_view().take(i as int).push(
                src@[i as int]@,
            ));
            assert(dst.deep_view() =~= orig + src.deep_view().take(i as int + 1));
        }
        i += 1;
    }
    proof {
        assert(orig + src.deep_view().take(n as int) =~= orig + src.deep_view());
    }
}

/// Whether two string slices hold the same characters.
pub fn str_eq(a: &str, b: &str) -> (r: bool)
    ensures
        r == (a@ == b@),
{
    let a_len = a.unicode_len();
    let b_len = b.unicode_len();
    if a_len != b_len {
        return false;
    }
    let mut i: usize = 0;
    while i < a_len
        invariant
            i <= a_len,
            a_len == a@.len(),
            a_len == b@.len(),
            forall|j: int| 0 <= j < i ==> a@[j] == b@[j],
        decreases a_len - i,
    {
        if a.get_char(i) != b.get_char(i) {
            assert(a@ !~= b@);
            return false;
        }
        i += 1;
    }
    assert(a@ =~= b@);
    true
}

/// Whether `s` begins with `prefix`, character for character.
pub fn str_starts_with(s: &str, prefix: &str) -> (r: bool)
    ensures
        r == prefix@.is_prefix_of(s@),
{
    let s_len = s.unicode_len();
    let p_len = prefix.unicode_len();
    if p_len > s_len {
        return false;
    }
    let mut i: usize = 0;
    while i < p_len
        invariant
            i <= p_len,
            p_len == prefix@.len(),
            s_len == s@.len(),
            p_len <= s_len,
            forall|j: int| 0 <= j < i ==> prefix@[j] == s@[j],
        decreases p_len - i,
    {
        if prefix.get_char(i) != s.get_char(i) {
            assert(!(prefix@ =~= s@.subrange(0, prefix@.len() as int)));
            return false;
        }
        i += 1;
    }
    assert(prefix@ =~= s@.subrange(0, prefix@.len() as int));
    true
}

} // verus!
