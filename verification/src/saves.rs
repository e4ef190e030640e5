use std::path::PathBuf;

use vstd::prelude::*;

verus! {

/// A save file: where it is, and the name it is shown by.
pub struct SaveFile {
    pub path: PathBuf,
    pub name: String,
}

/// Whether file `a` comes before file `b` when listing the most recently
/// changed first: a later change time first, and on equal times the order
/// the files were found in.
pub open spec fn listed_before(modified: Seq<u128>, a: int, b: int) -> bool {
    modified[a] > modified[b] || (modified[a] == modified[b] && a < b)
}

/// The order in which to list files that were changed at the times
/// `modified`: each file's position in `modified`, the most recently changed
/// first, files changed at the same time in the order given.
pub fn newest_first_order(modified: &[u128]) -> (res: Vec<usize>)
    ensures
        res@.len() == modified@.len(),
        forall|i: int| 0 <= i < res@.len() ==> #[trigger] res@[i] < modified@.len(),
        forall|i: int, j: int|
            0 <= i < j < res@.len() ==> listed_before(modified@, #[trigger] res@[i] as int, #[trigger] res@[j] as int),
{
    let n = modified.len();
    let mut res: Vec<usize> = Vec::new();
    let mut k: usize = 0;
    while k < n
        invariant
            n == modified@.len(),
            k <= n,
            res@.len() == k,
            forall|i: int| 0 <= i < res@.len() ==> #[trigger] res@[i] < k,
            forall|i: int, j: int|
                0 <= i < j < res@.len() ==> listed_before(modified@, #[trigger] res@[i] as int, #[trigger] res@[j] as int),
        decreases n - k,
    {
        let key = modified[k];
        let mut p: usize = 0;
        while p < k && modified[res[p]] >= key
            invariant
                n == modified@.len(),
                k < n,
                key == modified@[k as int],
                p <= k,
                res@.len() == k,
                forall|i: int| 0 <= i < res@.len() ==> #[trigger] res@[i] < k,
                forall|i: int| 0 <= i < p ==> modified@[#[trigger] res@[i] as int] >= key,
            decreases k - p,
        {
            p = p + 1;
        }
        proof {
            assert forall|i: int| p <= i < k implies modified@[#[trigger] res@[i] as int] < key by {
                if i > p {
                    assert(listed_before(modified@, res@[p as int] as int, res@[i] as int));
                }
            }
        }
        let ghost before = res@;
        res.insert(p, k);
        proof {
            assert forall|i: int, j: int|
                0 <= i < j < res@.len() implies listed_before(modified@, #[trigger] res@[i] as int, #[trigger] res@[j] as int) by {
                if j < p {
                    assert(res@[i] == before[i] && res@[j] == before[j]);
                } else if j == p {
                    assert(res@[i] == before[i]);
                    assert(modified@[before[i] as int] >= key);
                } else if i < p {
                    assert(res@[i] == before[i] && res@[j] == before[j - 1]);
                    if i < j - 1 {
                        assert(listed_before(modified@, before[i] as int, before[j - 1] as int));
                    }
                } else if i == p {
                    assert(res@[j] == before[j - 1]);
                    assert(modified@[before[j - 1] as int] < key);
                } else {
                    assert(res@[i] == before[i - 1] && res@[j] == before[j - 1]);
                }
            }
        }
        k = k + 1;
    }
    res
}

} // verus!
