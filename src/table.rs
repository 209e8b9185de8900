//! Identity tables: sequences keyed by engine handles that never repeat.
use vstd::prelude::*;

verus! {

/// No handle occurs twice.
pub open spec fn unique_ids(ids: Seq<u64>) -> bool {
    forall|i: int, j: int| 0 <= i < ids.len() && 0 <= j < ids.len() && i != j ==> ids[i] != ids[j]
}

/// Where `id` stands in `ids` (its last occurrence), or -1 where it is absent.
pub open spec fn position_of(ids: Seq<u64>, id: u64) -> int
    decreases ids.len(),
{
    if ids.len() == 0 {
        -1
    } else if ids.last() == id {
        ids.len() - 1
    } else {
        position_of(ids.drop_last(), id)
    }
}

/// `position_of` finds the handle where it is, and reports absence exactly
/// when no entry holds it; with unique handles every entry holding it is the
/// one found.
pub proof fn lemma_position_of(ids: Seq<u64>, id: u64)
    ensures
        -1 <= position_of(ids, id) < ids.len(),
        position_of(ids, id) >= 0 ==> ids[position_of(ids, id)] == id,
        position_of(ids, id) < 0 ==> forall|k: int| 0 <= k < ids.len() ==> ids[k] != id,
        unique_ids(ids) ==> forall|k: int|
            0 <= k < ids.len() && ids[k] == id ==> position_of(ids, id) == k,
    decreases ids.len(),
{
    if ids.len() > 0 {
        lemma_position_of(ids.drop_last(), id);
        if ids.last() != id {
            assert forall|k: int| 0 <= k < ids.len() - 1 implies ids.drop_last()[k] == ids[k] by {}
            if unique_ids(ids) {
                assert(unique_ids(ids.drop_last()));
            }
        }
    }
}

/// Removing the entry just appended gives back the table it was appended to.
pub proof fn lemma_remove_pushed<T>(s: Seq<T>, x: T)
    ensures
        s.push(x).remove(s.len() as int) == s,
{
    assert(s.push(x).remove(s.len() as int) =~= s);
}

} // verus!
