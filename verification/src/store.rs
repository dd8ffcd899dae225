//! The rules by which snippet identifiers are issued, freed and issued
//! again, over plain sequences of identifiers.

use vstd::prelude::*;

verus! {

/// How many identifiers stand before the first occurrence of `idx`; the
/// length of the sequence where `idx` does not occur.
pub open spec fn first_position(idxs: Seq<usize>, idx: usize) -> int
    decreases idxs.len(),
{
    if idxs.len() == 0 {
        0
    } else if idxs[0] == idx {
        0
    } else {
        1 + first_position(idxs.drop_first(), idx)
    }
}

/// The identifier that the next new snippet gets: the one that was freed
/// first, or, with an empty pool, the number of live snippets.
pub open spec fn next_idx_of(live: Seq<usize>, free: Seq<usize>) -> usize {
    if free.len() > 0 {
        free[0]
    } else {
        live.len() as usize
    }
}

/// The pool after its oldest identifier was issued.
pub open spec fn pool_after_issue(free: Seq<usize>) -> Seq<usize> {
    if free.len() > 0 {
        free.drop_first()
    } else {
        free
    }
}

/// No live identifier occurs twice, and none is in the pool.
pub open spec fn consistent(live: Seq<usize>, free: Seq<usize>) -> bool {
    &&& live.no_duplicates()
    &&& forall|i: int, k: int| 0 <= i < live.len() && 0 <= k < free.len() ==> live[i] != free[k]
}

/// No identifier is pooled twice, and every identifier, live or pooled,
/// lies below `bound`.
pub open spec fn dense(live: Seq<usize>, free: Seq<usize>, bound: nat) -> bool {
    &&& free.no_duplicates()
    &&& forall|i: int| 0 <= i < live.len() ==> live[i] < bound
    &&& forall|k: int| 0 <= k < free.len() ==> free[k] < bound
}

/// The state that issuing and deleting keep: identifiers are consistent,
/// and the live and the pooled ones together are the numbers below their
/// count.
pub open spec fn well_formed(live: Seq<usize>, free: Seq<usize>) -> bool {
    &&& consistent(live, free)
    &&& dense(live, free, live.len() + free.len())
}

/// `first_position` is the least position that holds `idx`.
pub proof fn lemma_first_position(idxs: Seq<usize>, idx: usize)
    ensures
        0 <= first_position(idxs, idx) <= idxs.len(),
        first_position(idxs, idx) < idxs.len() ==> idxs[first_position(idxs, idx)] == idx,
        forall|q: int| 0 <= q < first_position(idxs, idx) ==> idxs[q] != idx,
        first_position(idxs, idx) < idxs.len() <==> idxs.contains(idx),
    decreases idxs.len(),
{
    if idxs.len() > 0 && idxs[0] != idx {
        let rest = idxs.drop_first();
        lemma_first_position(rest, idx);
        let p = first_position(rest, idx);
        assert forall|q: int| 0 <= q < p + 1 implies idxs[q] != idx by {
            if q > 0 {
                assert(rest[q - 1] == idxs[q]);
            }
        }
    }
}

/// A position that holds `idx` and has no occurrence before it is the
/// first position.
pub proof fn lemma_first_position_is(idxs: Seq<usize>, idx: usize, at: int)
    requires
        0 <= at <= idxs.len(),
        at < idxs.len() ==> idxs[at] == idx,
        forall|q: int| 0 <= q < at ==> idxs[q] != idx,
    ensures
        first_position(idxs, idx) == at,
{
    lemma_first_position(idxs, idx);
}

/// Deleting a live snippet keeps the identifiers consistent: the
/// identifier leaves the live ones and joins the pool at its back.
pub proof fn lemma_remove_keeps_consistent(live: Seq<usize>, free: Seq<usize>, idx: usize)
    requires
        consistent(live, free),
        live.contains(idx),
    ensures
        consistent(live.remove(first_position(live, idx)), free.push(idx)),
        !live.remove(first_position(live, idx)).contains(idx),
{
    lemma_first_position(live, idx);
    let p = first_position(live, idx);
    let left = live.remove(p);
    assert forall|i: int| 0 <= i < left.len() implies left[i] != idx && left[i] == live[if i
        < p {
        i
    } else {
        i + 1
    }] by {}
}

/// Inserting a snippet whose identifier is neither live nor pooled keeps
/// the identifiers consistent.
pub proof fn lemma_insert_keeps_consistent(live: Seq<usize>, free: Seq<usize>, idx: usize)
    requires
        consistent(live, free),
        !live.contains(idx),
        !free.contains(idx),
    ensures
        consistent(live.push(idx), free),
{
}

/// Issuing an identifier leaves the live ones and the rest of the pool
/// consistent.
pub proof fn lemma_issue_keeps_consistent(live: Seq<usize>, free: Seq<usize>)
    requires
        consistent(live, free),
    ensures
        consistent(live, pool_after_issue(free)),
{
}

/// In a well-formed store the identifier that is issued next is fresh: no
/// live snippet has it and it is gone from the pool. The store with the
/// new snippet inserted is well formed again.
pub proof fn lemma_create_keeps_well_formed(live: Seq<usize>, free: Seq<usize>)
    requires
        well_formed(live, free),
        live.len() <= usize::MAX,
    ensures
        !live.contains(next_idx_of(live, free)),
        !pool_after_issue(free).contains(next_idx_of(live, free)),
        well_formed(live.push(next_idx_of(live, free)), pool_after_issue(free)),
{
    let idx = next_idx_of(live, free);
    let rest = pool_after_issue(free);
    lemma_issue_keeps_consistent(live, free);
    lemma_insert_keeps_consistent(live, rest, idx);
}

/// Deleting a live snippet of a well-formed store leaves it well formed.
pub proof fn lemma_remove_keeps_well_formed(live: Seq<usize>, free: Seq<usize>, idx: usize)
    requires
        well_formed(live, free),
        live.contains(idx),
    ensures
        well_formed(live.remove(first_position(live, idx)), free.push(idx)),
{
    lemma_remove_keeps_consistent(live, free, idx);
    lemma_first_position(live, idx);
}

/// A change of the store: a new snippet is made and inserted, or the
/// snippet with an identifier is deleted.
pub enum StoreChange {
    Create,
    Delete(usize),
}

/// The live and the pooled identifiers after a change. A new snippet gets
/// the identifier that is issued next; deleting an identifier that is not
/// live changes nothing.
pub open spec fn changed(live: Seq<usize>, free: Seq<usize>, change: StoreChange) -> (
    Seq<usize>,
    Seq<usize>,
) {
    match change {
        StoreChange::Create => (live.push(next_idx_of(live, free)), pool_after_issue(free)),
        StoreChange::Delete(idx) => if live.contains(idx) {
            (live.remove(first_position(live, idx)), free.push(idx))
        } else {
            (live, free)
        },
    }
}

/// The live and the pooled identifiers after a run of changes.
pub open spec fn changed_by_all(live: Seq<usize>, free: Seq<usize>, changes: Seq<StoreChange>) -> (
    Seq<usize>,
    Seq<usize>,
)
    decreases changes.len(),
{
    if changes.len() == 0 {
        (live, free)
    } else {
        let before = changed_by_all(live, free, changes.drop_last());
        changed(before.0, before.1, changes.last())
    }
}

/// Whatever snippets are made and deleted, in whatever order, a
/// well-formed store stays well formed: every live identifier is unique
/// and none is in the pool.
pub proof fn lemma_every_run_keeps_well_formed(
    live: Seq<usize>,
    free: Seq<usize>,
    changes: Seq<StoreChange>,
)
    requires
        well_formed(live, free),
        live.len() + changes.len() <= usize::MAX,
    ensures
        well_formed(
            changed_by_all(live, free, changes).0,
            changed_by_all(live, free, changes).1,
        ),
        consistent(changed_by_all(live, free, changes).0, changed_by_all(live, free, changes).1),
        changed_by_all(live, free, changes).0.len() <= live.len() + changes.len(),
    decreases changes.len(),
{
    if changes.len() > 0 {
        lemma_every_run_keeps_well_formed(live, free, changes.drop_last());
        let before = changed_by_all(live, free, changes.drop_last());
        match changes.last() {
            StoreChange::Create => {
                lemma_create_keeps_well_formed(before.0, before.1);
            },
            StoreChange::Delete(idx) => {
                if before.0.contains(idx) {
                    lemma_remove_keeps_well_formed(before.0, before.1, idx);
                    lemma_first_position(before.0, idx);
                }
            },
        }
    }
}

/// The pool hands identifiers out in the order in which they were freed.
/// With an empty pool, a snippet that is deleted gives its identifier to
/// the very next new snippet; of two snippets deleted one after the other,
/// the first one's identifier is issued before the second one's.
pub proof fn lemma_reuse_is_first_in_first_out(live: Seq<usize>, a: usize, b: usize)
    requires
        live.contains(a),
        live.remove(first_position(live, a)).contains(b),
    ensures
        next_idx_of(live.remove(first_position(live, a)), seq![a]) == a,
        ({
            let after_a = live.remove(first_position(live, a));
            let after_b = after_a.remove(first_position(after_a, b));
            let pool = seq![a].push(b);
            &&& next_idx_of(after_b, pool) == a
            &&& next_idx_of(after_b.push(a), pool_after_issue(pool)) == b
            &&& pool_after_issue(pool_after_issue(pool)).len() == 0
        }),
{
}

} // verus!
