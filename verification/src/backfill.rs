use vstd::prelude::*;

verus! {

/// Plan the bulk artifact backfill: the ids of `from ..= to` in ascending
/// order, each to have its artifact fetched and extracted with the usual
/// pacing; empty when the range is.
pub fn plan_backfill(from: u64, to: u64) -> (ids: Vec<u64>)
    ensures
        from <= to ==> ids@.len() == to - from + 1,
        from > to ==> ids@.len() == 0,
        forall|i: int| 0 <= i < ids@.len() ==> ids@[i] == from + i,
{
    let mut ids: Vec<u64> = Vec::new();
    if from > to {
        return ids;
    }
    let mut remaining: u128 = (to as u128) - (from as u128) + 1;
    while remaining > 0
        invariant
            from <= to,
            remaining <= to - from + 1,
            ids@.len() == to - from + 1 - remaining,
            forall|i: int| 0 <= i < ids@.len() ==> ids@[i] == from + i,
        decreases remaining,
    {
        let offset: u64 = ids.len() as u64;
        let next: u64 = from + offset;
        ids.push(next);
        remaining = remaining - 1;
    }
    ids
}

} // verus!
