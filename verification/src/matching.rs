//! Matching binary feature descriptors between two images by Hamming distance.
use bitarray::{BitArray, Hamming};
use space::{Knn, LinearKnn};
use vstd::prelude::*;

verus! {

/// The number of bits set in `x`.
pub open spec fn popcount(x: u8) -> nat
    decreases x,
{
    if x == 0 {
        0
    } else {
        (x % 2) as nat + popcount(x / 2)
    }
}

/// The number of bits in which `a` and `b` differ, over their common length.
pub open spec fn hamming(a: Seq<u8>, b: Seq<u8>) -> nat
    decreases a.len(),
{
    if a.len() == 0 || b.len() == 0 {
        0
    } else {
        popcount(a[0] ^ b[0]) + hamming(a.drop_first(), b.drop_first())
    }
}

/// The descriptors as byte sequences.
pub open spec fn descriptor_views(d: Seq<[u8; 64]>) -> Seq<Seq<u8>> {
    d.map_values(|x: [u8; 64]| x@)
}

/// The `num` nearest neighbours of `query` among `points` by Hamming distance,
/// as (index into `points`, distance) pairs, as a linear k-NN search finds them.
pub uninterp spec fn linear_knn_hamming(query: Seq<u8>, points: Seq<Seq<u8>>, num: usize) -> Seq<
    (usize, u32),
>;

/// `neighbors` are nearest neighbours of `query` among `points`: as many as
/// `num` or as there are points, each a distinct point with its Hamming
/// distance, nearest first, and no point left out is nearer than one taken.
pub open spec fn are_nearest_neighbors(
    neighbors: Seq<(usize, u32)>,
    query: Seq<u8>,
    points: Seq<Seq<u8>>,
    num: usize,
) -> bool {
    &&& neighbors.len() == if num <= points.len() {
        num as int
    } else {
        points.len() as int
    }
    &&& forall|i: int|
        0 <= i < neighbors.len() ==> {
            &&& #[trigger] neighbors[i].0 < points.len()
            &&& neighbors[i].1 == hamming(query, points[neighbors[i].0 as int])
        }
    &&& forall|i: int, j: int| 0 <= i < j < neighbors.len() ==> neighbors[i].1 <= neighbors[j].1
    &&& forall|i: int, j: int|
        0 <= i < j < neighbors.len() ==> neighbors[i].0 != neighbors[j].0
    &&& forall|p: int|
        0 <= p < points.len() && neighbors.len() > 0 && (forall|k: int|
            0 <= k < neighbors.len() ==> #[trigger] neighbors[k].0 != p) ==> neighbors.last().1
            <= #[trigger] hamming(query, points[p])
}

/// `Knn::knn` of a `LinearKnn` over `points` with the `Hamming` metric of
/// `BitArray<64>`: the `num` nearest points to `query`. Its source computes each
/// distance as the number of differing bits, keeps the neighbours sorted by
/// distance and replaces the farthest one only by a strictly nearer point; the
/// contract states that. Which of several points at equal distance are taken
/// follows the order of the search and is not stated; the result is named
/// instead.
#[verifier::external_body]
fn knn_hamming(query: &[u8; 64], points: &[[u8; 64]], num: usize) -> (neighbors: Vec<(usize, u32)>)
    ensures
        neighbors@ == linear_knn_hamming(query@, descriptor_views(points@), num),
        are_nearest_neighbors(neighbors@, query@, descriptor_views(points@), num),
{
    let points: Vec<(BitArray<64>, ())> = points.iter().map(|p| (BitArray::new(*p), ())).collect();
    let search = LinearKnn { metric: Hamming, points: points.iter() };
    search.knn(&BitArray::new(*query), num).into_iter().map(|(n, _, _)| (n.index, n.distance)).collect()
}

/// The match that a descriptor's two nearest neighbours allow: the nearest,
/// when it is nearer than the second by more than 24 bits.
pub open spec fn best_match(neighbors: Seq<(usize, u32)>) -> Option<usize> {
    if neighbors[0].1 + 24 < neighbors[1].1 {
        Some(neighbors[0].0)
    } else {
        None
    }
}

/// The match that two nearest neighbours allow, as [`best_match`] says.
pub fn best_match_of(neighbors: &[(usize, u32)]) -> (m: Option<usize>)
    requires
        neighbors@.len() >= 2,
    ensures
        m == best_match(neighbors@),
{
    if (neighbors[0].1 as u64) + 24 < (neighbors[1].1 as u64) {
        Some(neighbors[0].0)
    } else {
        None
    }
}

/// The match in `b` of each descriptor of `a`.
pub open spec fn matches_of(a: Seq<Seq<u8>>, b: Seq<Seq<u8>>) -> Seq<Option<usize>> {
    Seq::new(a.len(), |i: int| best_match(linear_knn_hamming(a[i], b, 2)))
}

/// For each descriptor of `a`, its match in `b`, if it has one.
pub fn matching(a_descriptors: &[[u8; 64]], b_descriptors: &[[u8; 64]]) -> (m: Vec<Option<usize>>)
    requires
        a_descriptors@.len() == 0 || b_descriptors@.len() >= 2,
    ensures
        m@ == matches_of(descriptor_views(a_descriptors@), descriptor_views(b_descriptors@)),
        forall|i: int|
            0 <= i < m@.len() && #[trigger] m@[i] is Some ==> m@[i]->0 < b_descriptors@.len(),
{
    let ghost a = descriptor_views(a_descriptors@);
    let ghost b = descriptor_views(b_descriptors@);
    let mut m: Vec<Option<usize>> = Vec::new();
    for i in 0..a_descriptors.len()
        invariant
            a == descriptor_views(a_descriptors@),
            b == descriptor_views(b_descriptors@),
            a_descriptors@.len() == 0 || b_descriptors@.len() >= 2,
            m@ =~= matches_of(a, b).take(i as int),
            forall|k: int|
                0 <= k < m@.len() && #[trigger] m@[k] is Some ==> m@[k]->0 < b_descriptors@.len(),
    {
        let neighbors = knn_hamming(&a_descriptors[i], b_descriptors, 2);
        assert(a_descriptors@[i as int]@ == a[i as int]);
        assert(neighbors@[0].0 < b.len());
        let found = best_match_of(neighbors.as_slice());
        m.push(found);
    }
    m
}

/// The symmetric matches among the first `n` entries of `forward`: the pairs
/// `(i, j)`, in order of `i`, such that `j` is the match of `i` and `i` the
/// match of `j` in `reverse`.
pub open spec fn symmetric_pairs(forward: Seq<Option<usize>>, reverse: Seq<Option<usize>>, n: nat) -> Seq<
    (usize, usize),
>
    decreases n,
{
    if n == 0 {
        Seq::empty()
    } else {
        let i = n - 1;
        let earlier = symmetric_pairs(forward, reverse, (n - 1) as nat);
        match forward[i] {
            Some(j) => if j < reverse.len() && reverse[j as int] == Some(i as usize) {
                earlier.push((i as usize, j))
            } else {
                earlier
            },
            None => earlier,
        }
    }
}

/// The pairs of descriptors of `a` and `b` that are each other's match, in
/// order of the descriptor of `a`.
pub open spec fn symmetric_matches_of(a: Seq<Seq<u8>>, b: Seq<Seq<u8>>) -> Seq<(usize, usize)> {
    symmetric_pairs(matches_of(a, b), matches_of(b, a), a.len())
}

/// The pairs `[i, j]`, in order of `i`, such that `forward[i]` is `j` and
/// `reverse[j]` is `i`.
pub fn symmetric_pairs_of(forward: &[Option<usize>], reverse: &[Option<usize>]) -> (pairs: Vec<
    [usize; 2],
>)
    requires
        forall|i: int|
            0 <= i < forward@.len() && #[trigger] forward@[i] is Some ==> forward@[i]->0
                < reverse@.len(),
    ensures
        pairs@.len() == symmetric_pairs(forward@, reverse@, forward@.len()).len(),
        forall|k: int|
            0 <= k < pairs@.len() ==> {
                &&& (#[trigger] pairs@[k])[0] == symmetric_pairs(
                    forward@,
                    reverse@,
                    forward@.len(),
                )[k].0
                &&& pairs@[k][1] == symmetric_pairs(forward@, reverse@, forward@.len())[k].1
            },
{
    let mut pairs: Vec<[usize; 2]> = Vec::new();
    for aix in 0..forward.len()
        invariant
            forall|i: int|
                0 <= i < forward@.len() && #[trigger] forward@[i] is Some ==> forward@[i]->0
                    < reverse@.len(),
            pairs@.len() == symmetric_pairs(forward@, reverse@, aix as nat).len(),
            forall|k: int|
                0 <= k < pairs@.len() ==> {
                    &&& (#[trigger] pairs@[k])[0] == symmetric_pairs(
                        forward@,
                        reverse@,
                        aix as nat,
                    )[k].0
                    &&& pairs@[k][1] == symmetric_pairs(forward@, reverse@, aix as nat)[k].1
                },
    {
        if let Some(bix) = forward[aix] {
            assert(forward@[aix as int] is Some);
            if reverse[bix] == Some(aix) {
                pairs.push([aix, bix]);
            }
        }
    }
    pairs
}

/// The pairs `[i, j]` such that descriptor `j` of `b` is the match of descriptor
/// `i` of `a` and `i` is the match of `j`, in order of `i`.
pub fn symmetric_matching(a: &[[u8; 64]], b: &[[u8; 64]]) -> (pairs: Vec<[usize; 2]>)
    requires
        a@.len() == 0 || b@.len() >= 2,
        b@.len() == 0 || a@.len() >= 2,
    ensures
        pairs@.len() == symmetric_matches_of(descriptor_views(a@), descriptor_views(b@)).len(),
        forall|k: int|
            0 <= k < pairs@.len() ==> {
                &&& (#[trigger] pairs@[k])[0] == symmetric_matches_of(
                    descriptor_views(a@),
                    descriptor_views(b@),
                )[k].0
                &&& pairs@[k][1] == symmetric_matches_of(descriptor_views(a@), descriptor_views(b@))[k].1
            },
{
    let forward_matches = matching(a, b);
    let reverse_matches = matching(b, a);
    symmetric_pairs_of(forward_matches.as_slice(), reverse_matches.as_slice())
}

/// The nearest neighbour, when it passes Lowe's ratio test with ratio one
/// half: when it is less than half as far as the second nearest. Distances are
/// whole numbers of bits, so "less than half" is "twice is less than".
pub open spec fn lowe_match(neighbors: Seq<(usize, u32)>) -> Option<usize> {
    if 2 * neighbors[0].1 < neighbors[1].1 {
        Some(neighbors[0].0)
    } else {
        None
    }
}

/// The nearest of two neighbours if it passes the ratio test, as [`lowe_match`] says.
pub fn lowe_match_of(neighbors: &[(usize, u32)]) -> (m: Option<usize>)
    requires
        neighbors@.len() >= 2,
    ensures
        m == lowe_match(neighbors@),
{
    if 2 * (neighbors[0].1 as u64) < (neighbors[1].1 as u64) {
        Some(neighbors[0].0)
    } else {
        None
    }
}

/// The pairs `(i, j)` among the first `n` descriptors of `a` such that `j` is
/// the nearest descriptor of `b` to `i` and less than half as far as the
/// second nearest, in order of `i`.
pub open spec fn lowe_pairs(a: Seq<Seq<u8>>, b: Seq<Seq<u8>>, n: nat) -> Seq<(usize, usize)>
    decreases n,
{
    if n == 0 {
        Seq::empty()
    } else {
        let i = n - 1;
        let earlier = lowe_pairs(a, b, (n - 1) as nat);
        match lowe_match(linear_knn_hamming(a[i], b, 2)) {
            Some(j) => earlier.push((i as usize, j)),
            None => earlier,
        }
    }
}

/// The descriptors of `ds1` whose nearest descriptor in `ds2` passes Lowe's
/// ratio test with ratio one half, paired with it.
pub fn match_descriptors(ds1: &[[u8; 64]], ds2: &[[u8; 64]]) -> (pairs: Vec<(usize, usize)>)
    requires
        ds1@.len() == 0 || ds2@.len() >= 2,
    ensures
        pairs@ == lowe_pairs(descriptor_views(ds1@), descriptor_views(ds2@), ds1@.len()),
        forall|i: usize, j: usize|
            #[trigger] pairs@.contains((i, j)) <==> ({
                let neighbors = linear_knn_hamming(ds1@[i as int]@, descriptor_views(ds2@), 2);
                &&& i < ds1@.len()
                &&& 2 * neighbors[0].1 < neighbors[1].1
                &&& j == neighbors[0].0
            }),
{
    let ghost a = descriptor_views(ds1@);
    let ghost b = descriptor_views(ds2@);
    let mut pairs: Vec<(usize, usize)> = Vec::new();
    for i in 0..ds1.len()
        invariant
            a == descriptor_views(ds1@),
            b == descriptor_views(ds2@),
            ds1@.len() == 0 || ds2@.len() >= 2,
            pairs@ == lowe_pairs(a, b, i as nat),
    {
        let neighbors = knn_hamming(&ds1[i], ds2, 2);
        assert(ds1@[i as int]@ == a[i as int]);
        if let Some(j) = lowe_match_of(neighbors.as_slice()) {
            pairs.push((i, j));
        }
    }
    proof {
        assert forall|i: usize, j: usize|
            #[trigger] pairs@.contains((i, j)) <==> ({
                let neighbors = linear_knn_hamming(ds1@[i as int]@, descriptor_views(ds2@), 2);
                &&& i < ds1@.len()
                &&& 2 * neighbors[0].1 < neighbors[1].1
                &&& j == neighbors[0].0
            }) by {
            lemma_lowe_pairs_members(a, b, ds1@.len() as nat, i, j);
            if i < ds1@.len() {
                assert(a[i as int] == ds1@[i as int]@);
            }
        }
    }
    pairs
}

/// `(i, j)` is among the symmetric matches of the first `n` entries exactly when
/// `j` is the match of `i` and `i` the match of `j`.
pub proof fn lemma_symmetric_pairs_members(
    forward: Seq<Option<usize>>,
    reverse: Seq<Option<usize>>,
    n: nat,
    i: usize,
    j: usize,
)
    requires
        n <= forward.len(),
        n <= usize::MAX,
    ensures
        symmetric_pairs(forward, reverse, n).contains((i, j)) <==> (i < n && forward[i as int]
            == Some(j) && j < reverse.len() && reverse[j as int] == Some(i)),
    decreases n,
{
    if n > 0 {
        lemma_symmetric_pairs_members(forward, reverse, (n - 1) as nat, i, j);
        let earlier = symmetric_pairs(forward, reverse, (n - 1) as nat);
        let last = (n - 1) as int;
        if forward[last] is Some {
            let jj = forward[last]->0;
            if jj < reverse.len() && reverse[jj as int] == Some(last as usize) {
                let pushed = earlier.push((last as usize, jj));
                assert(pushed.last() == (last as usize, jj));
                if earlier.contains((i, j)) {
                    let k = choose|k: int| 0 <= k < earlier.len() && earlier[k] == (i, j);
                    assert(pushed[k] == (i, j));
                }
                if pushed.contains((i, j)) && (i, j) != (last as usize, jj) {
                    let k = choose|k: int| 0 <= k < pushed.len() && #[trigger] pushed[k] == (i, j);
                    assert(k < earlier.len());
                    assert(earlier[k] == (i, j));
                }
            }
        }
    }
}

/// Symmetric matching does not depend on which image comes first: `i` and `j`
/// are matched from `a` to `b` exactly when `j` and `i` are matched from `b` to
/// `a`.
pub proof fn lemma_symmetric_matching_is_symmetric(
    a: Seq<Seq<u8>>,
    b: Seq<Seq<u8>>,
    i: usize,
    j: usize,
)
    requires
        a.len() <= usize::MAX,
        b.len() <= usize::MAX,
    ensures
        symmetric_matches_of(a, b).contains((i, j)) <==> symmetric_matches_of(b, a).contains(
            (j, i),
        ),
{
    lemma_symmetric_pairs_members(matches_of(a, b), matches_of(b, a), a.len(), i, j);
    lemma_symmetric_pairs_members(matches_of(b, a), matches_of(a, b), b.len(), j, i);
}

/// Symmetric matching pairs each descriptor with at most one other: the
/// descriptors of the first image come in increasing order, and no descriptor
/// of the second image is used twice.
pub proof fn lemma_symmetric_pairs_one_to_one(
    forward: Seq<Option<usize>>,
    reverse: Seq<Option<usize>>,
    n: nat,
)
    requires
        n <= forward.len(),
        n <= usize::MAX,
    ensures
        forall|k1: int, k2: int|
            0 <= k1 < k2 < symmetric_pairs(forward, reverse, n).len() ==> {
                &&& (#[trigger] symmetric_pairs(forward, reverse, n)[k1]).0 < (
                #[trigger] symmetric_pairs(forward, reverse, n)[k2]).0
                &&& symmetric_pairs(forward, reverse, n)[k1].1 != symmetric_pairs(
                    forward,
                    reverse,
                    n,
                )[k2].1
            },
        forall|k: int|
            0 <= k < symmetric_pairs(forward, reverse, n).len() ==> {
                let (i, j) = #[trigger] symmetric_pairs(forward, reverse, n)[k];
                &&& i < n
                &&& forward[i as int] == Some(j)
                &&& j < reverse.len()
                &&& reverse[j as int] == Some(i)
            },
    decreases n,
{
    if n > 0 {
        lemma_symmetric_pairs_one_to_one(forward, reverse, (n - 1) as nat);
        let earlier = symmetric_pairs(forward, reverse, (n - 1) as nat);
        let current = symmetric_pairs(forward, reverse, n);
        let last = (n - 1) as int;
        if current != earlier {
            let jj = forward[last]->0;
            assert(current == earlier.push((last as usize, jj)));
            assert forall|k: int| 0 <= k < earlier.len() implies current[k] == earlier[k] by {}
            assert forall|k1: int, k2: int| 0 <= k1 < k2 < current.len() implies {
                &&& (#[trigger] current[k1]).0 < (#[trigger] current[k2]).0
                &&& current[k1].1 != current[k2].1
            } by {
                if k2 == current.len() - 1 {
                    assert(current[k1] == earlier[k1]);
                    assert(reverse[earlier[k1].1 as int] == Some(earlier[k1].0));
                } else {
                    assert(current[k1] == earlier[k1]);
                    assert(current[k2] == earlier[k2]);
                }
            }
            assert forall|k: int| 0 <= k < current.len() implies {
                let (i, j) = #[trigger] current[k];
                &&& i < n
                &&& forward[i as int] == Some(j)
                &&& j < reverse.len()
                &&& reverse[j as int] == Some(i)
            } by {
                if k < earlier.len() {
                    assert(current[k] == earlier[k]);
                }
            }
        }
    }
}

/// `(i, j)` is among the ratio-test matches of the first `n` descriptors of `a`
/// exactly when `j` is the nearest of the two nearest neighbours of `a[i]` in
/// `b`, and it is less than half as far as the second: whether a descriptor is
/// matched depends on it alone, not on the others. The matches come in
/// increasing order of the descriptor of `a`, each at most once.
pub proof fn lemma_lowe_pairs_members(a: Seq<Seq<u8>>, b: Seq<Seq<u8>>, n: nat, i: usize, j: usize)
    requires
        n <= a.len(),
        n <= usize::MAX,
    ensures
        lowe_pairs(a, b, n).contains((i, j)) <==> ({
            let neighbors = linear_knn_hamming(a[i as int], b, 2);
            &&& i < n
            &&& 2 * neighbors[0].1 < neighbors[1].1
            &&& j == neighbors[0].0
        }),
        forall|k1: int, k2: int|
            0 <= k1 < k2 < lowe_pairs(a, b, n).len() ==> (#[trigger] lowe_pairs(a, b, n)[k1]).0 < (
            #[trigger] lowe_pairs(a, b, n)[k2]).0,
        forall|k: int| 0 <= k < lowe_pairs(a, b, n).len() ==> (#[trigger] lowe_pairs(a, b, n)[k]).0 < n,
    decreases n,
{
    if n > 0 {
        lemma_lowe_pairs_members(a, b, (n - 1) as nat, i, j);
        let earlier = lowe_pairs(a, b, (n - 1) as nat);
        let current = lowe_pairs(a, b, n);
        let last = (n - 1) as int;
        let neighbors = linear_knn_hamming(a[last], b, 2);
        if 2 * neighbors[0].1 < neighbors[1].1 {
            let pair = (last as usize, neighbors[0].0);
            assert(current == earlier.push(pair));
            assert forall|k: int| 0 <= k < earlier.len() implies current[k] == earlier[k] by {}
            if earlier.contains((i, j)) {
                let k = choose|k: int| 0 <= k < earlier.len() && earlier[k] == (i, j);
                assert(current[k] == (i, j));
            }
            if current.contains((i, j)) && (i, j) != pair {
                let k = choose|k: int| 0 <= k < current.len() && #[trigger] current[k] == (i, j);
                assert(k < earlier.len());
                assert(earlier[k] == (i, j));
            }
            if (i, j) == pair {
                assert(current[earlier.len() as int] == pair);
            }
            assert forall|k1: int, k2: int| 0 <= k1 < k2 < current.len() implies (
            #[trigger] current[k1]).0 < (#[trigger] current[k2]).0 by {
                assert(current[k1] == earlier[k1]);
                if k2 < earlier.len() {
                    assert(current[k2] == earlier[k2]);
                }
            }
            assert forall|k: int| 0 <= k < current.len() implies (#[trigger] current[k]).0 < n by {
                if k < earlier.len() {
                    assert(current[k] == earlier[k]);
                }
            }
        } else {
            assert(current == earlier);
            if i as int == last && current.contains((i, j)) {
                let k = choose|k: int| 0 <= k < current.len() && #[trigger] current[k] == (i, j);
            }
        }
    }
}

} // verus!
