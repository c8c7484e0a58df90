use vstd::prelude::*;
use crate::signal::NO_POSITION;

verus! {

/// Interval `k` is complete, lies inside `[0, n)`, is not inverted, and
/// covers index `j`.
pub open spec fn covers(
    ids: Seq<Option<i64>>,
    entry_idx: Seq<Option<i64>>,
    exit_idx: Seq<Option<i64>>,
    n: nat,
    k: int,
    j: int,
) -> bool {
    &&& ids[k] is Some
    &&& entry_idx[k] is Some
    &&& exit_idx[k] is Some
    &&& 0 <= entry_idx[k]->Some_0 <= exit_idx[k]->Some_0 < n
    &&& entry_idx[k]->Some_0 <= j <= exit_idx[k]->Some_0
}

/// The identifier written at index `j` once the first `k` intervals have
/// been laid down in order: that of the last one that covers `j`, or
/// `NO_POSITION` where none does.
pub open spec fn dense_at(
    ids: Seq<Option<i64>>,
    entry_idx: Seq<Option<i64>>,
    exit_idx: Seq<Option<i64>>,
    n: nat,
    k: nat,
    j: int,
) -> i64
    decreases k,
{
    if k == 0 {
        NO_POSITION
    } else if covers(ids, entry_idx, exit_idx, n, k - 1, j) {
        ids[k - 1]->Some_0
    } else {
        dense_at(ids, entry_idx, exit_idx, n, (k - 1) as nat, j)
    }
}

/// Expands position intervals `(ids[k], entry_idx[k], exit_idx[k])` into one
/// identifier per bar over `target_len` bars. Bars that no interval covers
/// hold `NO_POSITION`; an incomplete, inverted or out-of-range interval is
/// skipped; where intervals overlap, the later one wins.
pub fn reshape_position_id_array(
    target_len: usize,
    ids: &Vec<Option<i64>>,
    entry_idx: &Vec<Option<i64>>,
    exit_idx: &Vec<Option<i64>>,
) -> (r: Vec<i64>)
    requires
        entry_idx.len() == ids.len(),
        exit_idx.len() == ids.len(),
    ensures
        r.len() == target_len,
        forall|j: int|
            0 <= j < target_len ==> #[trigger] r@[j] == dense_at(
                ids@,
                entry_idx@,
                exit_idx@,
                target_len as nat,
                ids.len() as nat,
                j,
            ),
{
    let mut ret: Vec<i64> = Vec::with_capacity(target_len);
    let mut j: usize = 0;
    while j < target_len
        invariant
            j <= target_len,
            ret.len() == j,
            forall|m: int| 0 <= m < j ==> #[trigger] ret@[m] == NO_POSITION,
        decreases target_len - j,
    {
        ret.push(NO_POSITION);
        j = j + 1;
    }
    let mut k: usize = 0;
    while k < ids.len()
        invariant
            entry_idx.len() == ids.len(),
            exit_idx.len() == ids.len(),
            k <= ids.len(),
            ret.len() == target_len,
            forall|m: int|
                0 <= m < target_len ==> #[trigger] ret@[m] == dense_at(
                    ids@,
                    entry_idx@,
                    exit_idx@,
                    target_len as nat,
                    k as nat,
                    m,
                ),
        decreases ids.len() - k,
    {
        match (ids[k], entry_idx[k], exit_idx[k]) {
            (Some(pid), Some(e), Some(x)) => {
                if 0 <= e && e <= x && (x as u64) < (target_len as u64) {
                    let first = e as usize;
                    let last = x as usize;
                    let mut j: usize = first;
                    while j <= last
                        invariant
                            first == e,
                            last == x,
                            first <= j <= last + 1,
                            last < target_len,
                            ret.len() == target_len,
                            covers(ids@, entry_idx@, exit_idx@, target_len as nat, k as int, first as int),
                            ids@[k as int] == Some(pid),
                            forall|m: int|
                                0 <= m < target_len ==> #[trigger] ret@[m] == if first <= m < j {
                                    pid
                                } else {
                                    dense_at(ids@, entry_idx@, exit_idx@, target_len as nat, k as nat, m)
                                },
                        decreases last + 1 - j,
                    {
                        ret.set(j, pid);
                        j = j + 1;
                    }
                }
            },
            _ => {},
        }
        k = k + 1;
    }
    ret
}

} // verus!
