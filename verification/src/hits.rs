//! Picking the thing under the pointer out of a list of hit tests.
use vstd::prelude::*;

verus! {

/// An optional index as a mathematical integer.
pub open spec fn index_view(i: Option<usize>) -> Option<int> {
    match i {
        Some(i) => Some(i as int),
        None => None,
    }
}

/// The first of the hit tests from `start` on that succeeded, if any.
pub open spec fn first_hit_from(hits: Seq<bool>, start: int) -> Option<int>
    decreases hits.len() - start,
{
    if start < 0 || start >= hits.len() {
        None
    } else if hits[start] {
        Some(start)
    } else {
        first_hit_from(hits, start + 1)
    }
}

/// The last of the first `n` hit tests that succeeded, if any.
pub open spec fn last_hit_before(hits: Seq<bool>, n: int) -> Option<int>
    decreases n,
{
    if n <= 0 || n > hits.len() {
        None
    } else if hits[n - 1] {
        Some(n - 1)
    } else {
        last_hit_before(hits, n - 1)
    }
}

/// The index of the first `true` in `hits`, if any.
pub fn first_hit_index(hits: &[bool]) -> (r: Option<usize>)
    ensures
        index_view(r) == first_hit_from(hits@, 0),
{
    let mut i: usize = hits.len();
    let mut found: Option<usize> = None;
    while i > 0
        invariant
            i <= hits.len(),
            index_view(found) == first_hit_from(hits@, i as int),
        decreases i,
    {
        i = i - 1;
        if hits[i] {
            found = Some(i);
        }
    }
    found
}

/// The index of the last `true` in `hits`, if any.
pub fn last_hit_index(hits: &[bool]) -> (r: Option<usize>)
    ensures
        index_view(r) == last_hit_before(hits@, hits@.len() as int),
{
    let mut found: Option<usize> = None;
    for i in 0..hits.len()
        invariant
            index_view(found) == last_hit_before(hits@, i as int),
    {
        if hits[i] {
            found = Some(i);
        }
    }
    found
}

/// The first hit from `start` on succeeded, and none before it did.
pub proof fn lemma_first_hit(hits: Seq<bool>, start: int)
    requires
        0 <= start,
    ensures
        first_hit_from(hits, start) matches Some(i) ==> start <= i < hits.len() && hits[i]
            && forall|k: int| start <= k < i ==> !hits[k],
        first_hit_from(hits, start) is None ==> forall|k: int| start <= k < hits.len() ==> !hits[k],
    decreases hits.len() - start,
{
    if start < hits.len() && !hits[start] {
        lemma_first_hit(hits, start + 1);
    }
}

/// The last hit among the first `n` succeeded, and none after it did.
pub proof fn lemma_last_hit(hits: Seq<bool>, n: int)
    requires
        n <= hits.len(),
    ensures
        last_hit_before(hits, n) matches Some(i) ==> 0 <= i < n && hits[i] && forall|k: int|
            i < k < n ==> !hits[k],
        last_hit_before(hits, n) is None ==> forall|k: int| 0 <= k < n ==> !hits[k],
    decreases n,
{
    if n > 0 && !hits[n - 1] {
        lemma_last_hit(hits, n - 1);
    }
}

} // verus!
