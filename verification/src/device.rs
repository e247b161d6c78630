//! Device selection.
//!
//! A device is chosen by name: the caller enumerates the platforms' device
//! names (as byte strings) and the library picks the first one that contains
//! the requested pattern, case-sensitively. When no name matches, selection
//! fails definitely — there is no fallback device.

use vstd::prelude::*;

use crate::error::OpError;

verus! {

/// The pattern occurs in `text` starting at offset `k`.
pub open spec fn match_at(text: Seq<u8>, pat: Seq<u8>, k: int) -> bool {
    &&& 0 <= k
    &&& k + pat.len() <= text.len()
    &&& forall|t: int| 0 <= t < pat.len() ==> text[k + t] == pat[t]
}

/// The pattern occurs somewhere in `text`.
pub open spec fn contains_pat(text: Seq<u8>, pat: Seq<u8>) -> bool {
    exists|k: int| match_at(text, pat, k)
}

/// Case-sensitive substring test on byte strings.
pub fn contains_bytes(text: &Vec<u8>, pat: &Vec<u8>) -> (r: bool)
    ensures
        r == contains_pat(text@, pat@),
{
    let n: usize = text.len();
    let pl: usize = pat.len();
    if pl > n {
        assert(forall|k: int| !match_at(text@, pat@, k));
        return false;
    }
    let mut k: usize = 0;
    while k <= n - pl
        invariant
            n == text@.len(),
            pl == pat@.len(),
            pl <= n,
            k <= n - pl + 1,
            forall|k2: int| 0 <= k2 < k ==> !match_at(text@, pat@, k2),
        decreases n - pl + 1 - k,
    {
        let mut t: usize = 0;
        let mut matching = true;
        while matching && t < pl
            invariant
                n == text@.len(),
                pl == pat@.len(),
                k + pl <= n,
                t <= pl,
                matching ==> forall|u: int| 0 <= u < t ==> text@[k + u] == pat@[u],
                !matching ==> !match_at(text@, pat@, k as int),
            decreases pl - t + (if matching { 1int } else { 0int }),
        {
            if text[k + t] == pat[t] {
                t = t + 1;
            } else {
                matching = false;
            }
        }
        if matching {
            assert(match_at(text@, pat@, k as int));
            return true;
        }
        k = k + 1;
    }
    assert forall|k2: int| !match_at(text@, pat@, k2) by {
        if match_at(text@, pat@, k2) {
            assert(k2 <= text@.len() - pat@.len());
        }
    }
    false
}

/// Picks the first enumerated device whose name contains `pattern`.
/// When no name matches, selection fails with `NoMatchingDevice` — the
/// caller must not fall back to a default device.
pub fn select_device(names: &Vec<Vec<u8>>, pattern: &Vec<u8>) -> (r: Result<usize, OpError>)
    ensures
        match r {
            Ok(i) => {
                &&& i < names@.len()
                &&& contains_pat(names@[i as int]@, pattern@)
                &&& forall|j: int| 0 <= j < i ==> !contains_pat(names@[j]@, pattern@)
            },
            Err(e) => {
                &&& e == OpError::NoMatchingDevice
                &&& forall|j: int| 0 <= j < names@.len() ==> !contains_pat(names@[j]@, pattern@)
            },
        },
{
    let mut i: usize = 0;
    while i < names.len()
        invariant
            i <= names@.len(),
            forall|j: int| 0 <= j < i ==> !contains_pat(names@[j]@, pattern@),
        decreases names@.len() - i,
    {
        if contains_bytes(&names[i], pattern) {
            return Ok(i);
        }
        i = i + 1;
    }
    Err(OpError::NoMatchingDevice)
}

} // verus!
