//! Choosing the authoritative entity among several candidates.
use vstd::prelude::*;

verus! {

/// The index of the first smallest value of a non-empty sequence, scanning
/// from the front and replacing the current choice only by a strictly
/// smaller value.
pub open spec fn first_min_index(ids: Seq<u64>) -> int
    decreases ids.len(),
{
    if ids.len() <= 1 {
        0
    } else {
        let j = first_min_index(ids.drop_last());
        if ids.last() < ids[j] {
            ids.len() - 1
        } else {
            j
        }
    }
}

/// `i` indexes a smallest value of `ids`, and no earlier index holds that value.
pub open spec fn is_first_min(ids: Seq<u64>, i: int) -> bool {
    &&& 0 <= i < ids.len()
    &&& forall|j: int| 0 <= j < ids.len() ==> ids[i] <= #[trigger] ids[j]
    &&& forall|j: int| 0 <= j < i ==> ids[i] < #[trigger] ids[j]
}

/// The scanning definition picks the first smallest value.
pub proof fn lemma_first_min_index(ids: Seq<u64>)
    requires
        ids.len() > 0,
    ensures
        is_first_min(ids, first_min_index(ids)),
    decreases ids.len(),
{
    if ids.len() > 1 {
        let pre = ids.drop_last();
        lemma_first_min_index(pre);
        let j = first_min_index(pre);
        assert forall|k: int| 0 <= k < pre.len() implies pre[k] == ids[k] by {}
    }
}

/// The index of the entity with the lowest id, the first one where several
/// share it; `None` exactly when there is no candidate.
pub fn lowest_entity(ids: &Vec<u64>) -> (r: Option<usize>)
    ensures
        r is None <==> ids@.len() == 0,
        r matches Some(i) ==> i == first_min_index(ids@) && is_first_min(ids@, i as int),
{
    if ids.len() == 0 {
        return None;
    }
    let mut best: usize = 0;
    let mut k: usize = 1;
    while k < ids.len()
        invariant
            1 <= k <= ids.len(),
            best == first_min_index(ids@.take(k as int)),
        decreases ids.len() - k,
    {
        proof {
            assert(ids@.take(k as int + 1).drop_last() =~= ids@.take(k as int));
            lemma_first_min_index(ids@.take(k as int));
        }
        if ids[k] < ids[best] {
            best = k;
        }
        k = k + 1;
    }
    proof {
        assert(ids@.take(ids@.len() as int) =~= ids@);
        lemma_first_min_index(ids@);
    }
    Some(best)
}

/// Which entity is authoritative does not depend on the order in which the
/// candidates are visited: two scans over the same set of ids pick the same
/// (lowest) id.
pub proof fn lowest_id_is_order_independent(a: Seq<u64>, b: Seq<u64>)
    requires
        a.len() > 0,
        a.to_set() == b.to_set(),
    ensures
        b.len() > 0,
        a[first_min_index(a)] == b[first_min_index(b)],
{
    lemma_first_min_index(a);
    let i = first_min_index(a);
    assert(a.to_set().contains(a[i]));
    assert(b.contains(a[i]));
    lemma_first_min_index(b);
    let j = first_min_index(b);
    assert(b.to_set().contains(b[j]));
    assert(a.contains(b[j]));
    let ka = choose|k: int| 0 <= k < a.len() && a[k] == b[j];
    let kb = choose|k: int| 0 <= k < b.len() && b[k] == a[i];
    assert(a[i] <= a[ka]);
    assert(b[j] <= b[kb]);
}

} // verus!
