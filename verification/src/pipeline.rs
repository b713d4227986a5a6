//! Reference semantics of the pipeline's data-shaping stages.
//!
//! The compaction stage turns the full per-cluster fragment-count buffer
//! into the ordered list of clusters that received at least one fragment;
//! the offset stage is an exclusive prefix sum over the per-cluster light
//! counts, reserving for each active cluster a disjoint sub-range of the
//! flat light-index list. These functions state and implement those
//! semantics exactly; the device executes the same computation in bulk.

use vstd::prelude::*;

verus! {

/// The sum of a sequence of counts.
pub open spec fn spec_sum(s: Seq<u32>) -> int
    decreases s.len(),
{
    if s.len() == 0 {
        0
    } else {
        spec_sum(s.drop_last()) + s.last()
    }
}

/// A sum of counts is never negative.
pub proof fn lemma_sum_nonneg(s: Seq<u32>)
    ensures
        spec_sum(s) >= 0,
    decreases s.len(),
{
    if s.len() > 0 {
        lemma_sum_nonneg(s.drop_last());
    }
}

/// Extending a prefix by one element adds that element to its sum.
pub proof fn lemma_sum_take_succ(s: Seq<u32>, i: int)
    requires
        0 <= i < s.len(),
    ensures
        spec_sum(s.take(i + 1)) == spec_sum(s.take(i)) + s[i],
{
    assert(s.take(i + 1).drop_last() =~= s.take(i));
    assert(s.take(i + 1).last() == s[i]);
}

/// Prefix sums are monotonic in the prefix length.
pub proof fn lemma_sum_take_monotonic(s: Seq<u32>, i: int, j: int)
    requires
        0 <= i <= j <= s.len(),
    ensures
        spec_sum(s.take(i)) <= spec_sum(s.take(j)),
    decreases j - i,
{
    if i < j {
        lemma_sum_take_succ(s, j - 1);
        lemma_sum_take_monotonic(s, i, j - 1);
    }
}

/// Exclusive prefix sum over the per-cluster light counts: entry `i` of the
/// result is the sum of all counts strictly before `i` — each cluster's
/// starting offset into the flat light-index list — and the returned total
/// sizes that list and the next stage's dispatch.
pub fn exclusive_prefix_sum(counts: &Vec<u32>) -> (r: (Vec<u32>, u32))
    requires
        spec_sum(counts@) <= u32::MAX,
    ensures
        r.0@.len() == counts@.len(),
        forall|i: int| 0 <= i < counts@.len() ==> r.0@[i] == spec_sum(counts@.take(i)),
        r.1 == spec_sum(counts@),
{
    let mut offsets: Vec<u32> = Vec::new();
    let mut total: u32 = 0;
    let n = counts.len();
    assert(counts@.take(0) =~= Seq::<u32>::empty());
    for i in 0..n
        invariant
            n == counts@.len(),
            offsets@.len() == i,
            total == spec_sum(counts@.take(i as int)),
            spec_sum(counts@) <= u32::MAX,
            forall|j: int| 0 <= j < i ==> offsets@[j] == spec_sum(counts@.take(j)),
    {
        offsets.push(total);
        proof {
            lemma_sum_take_succ(counts@, i as int);
            lemma_sum_take_monotonic(counts@, i + 1, counts@.len() as int);
            assert(counts@.take(counts@.len() as int) =~= counts@);
        }
        total = total + counts[i];
    }
    proof {
        assert(counts@.take(n as int) =~= counts@);
    }
    (offsets, total)
}

/// The offset stage reserves disjoint output ranges: within the flat
/// light-index list, an earlier cluster's range `[offset, offset + count)`
/// ends at or before a later cluster's begins, and every range ends at or
/// before the grand total.
pub proof fn lemma_light_ranges_disjoint(counts: Seq<u32>, i: int, j: int)
    requires
        0 <= i < j < counts.len(),
    ensures
        0 <= spec_sum(counts.take(i)),
        spec_sum(counts.take(i)) + counts[i] <= spec_sum(counts.take(j)),
        spec_sum(counts.take(j)) + counts[j] <= spec_sum(counts),
{
    lemma_sum_nonneg(counts.take(i));
    lemma_sum_take_succ(counts, i);
    lemma_sum_take_monotonic(counts, i + 1, j);
    lemma_sum_take_succ(counts, j);
    lemma_sum_take_monotonic(counts, j + 1, counts.len() as int);
    assert(counts.take(counts.len() as int) =~= counts);
}

/// The contents of each list, as sequences.
pub open spec fn spec_views(lists: Seq<Vec<u32>>) -> Seq<Seq<u32>> {
    lists.map_values(|v: Vec<u32>| v@)
}

/// Where a cluster's entries start within the flattened list: after
/// everything flattened before it.
pub open spec fn spec_flat_offset(lists: Seq<Seq<u32>>, i: int) -> int {
    lists.take(i).flatten().len() as int
}

/// The assignment stage's output: each active cluster's list of overlapping
/// light indices, written one after another into one flat list. Cluster `i`'s
/// entries occupy the sub-range starting where everything before it ends, as
/// `lemma_assigned_range` states.
pub fn assign_light_indices(cluster_lights: &Vec<Vec<u32>>) -> (r: Vec<u32>)
    ensures
        r@ == spec_views(cluster_lights@).flatten(),
{
    let mut flat: Vec<u32> = Vec::new();
    let n = cluster_lights.len();
    proof {
        assert(spec_views(cluster_lights@).take(0) =~= Seq::<Seq<u32>>::empty());
    }
    for i in 0..n
        invariant
            n == cluster_lights@.len(),
            flat@ == spec_views(cluster_lights@).take(i as int).flatten(),
    {
        flat.extend_from_slice(cluster_lights[i].as_slice());
        proof {
            let vs = spec_views(cluster_lights@);
            vs.take(i as int).lemma_flatten_push(vs[i as int]);
            assert(vs.take(i as int).push(vs[i as int]) =~= vs.take(i + 1));
        }
    }
    proof {
        assert(spec_views(cluster_lights@).take(n as int) =~= spec_views(cluster_lights@));
    }
    flat
}

/// The assignment stage writes each cluster's entries into its own
/// pre-reserved sub-range: within the flattened list, cluster `i`'s entries
/// stand exactly at `[offset, offset + len)` for its flat offset.
pub proof fn lemma_assigned_range(lists: Seq<Seq<u32>>, i: int)
    requires
        0 <= i < lists.len(),
    ensures
        spec_flat_offset(lists, i) + lists[i].len() <= lists.flatten().len(),
        lists.flatten().subrange(
            spec_flat_offset(lists, i),
            spec_flat_offset(lists, i) + lists[i].len() as int,
        ) == lists[i],
{
    assert(lists.take(i) + lists.skip(i) =~= lists);
    vstd::seq_lib::lemma_flatten_concat(lists.take(i), lists.skip(i));
    assert(lists.flatten() == lists.take(i).flatten() + lists.skip(i).flatten());
    assert(lists.skip(i).first() == lists[i]);
    assert(lists.skip(i).flatten() == lists[i] + lists.skip(i).drop_first().flatten());
    assert(lists.flatten().subrange(
        spec_flat_offset(lists, i),
        spec_flat_offset(lists, i) + lists[i].len() as int,
    ) =~= lists[i]);
}

/// When the counting stage's per-cluster counts equal each cluster's list
/// length, the offset stage's exclusive prefix sums land exactly on the
/// flattened positions the assignment stage writes at.
pub proof fn lemma_offsets_locate_assignments(counts: Seq<u32>, lists: Seq<Seq<u32>>, i: int)
    requires
        counts.len() == lists.len(),
        forall|j: int| 0 <= j < lists.len() ==> counts[j] == lists[j].len(),
        0 <= i <= lists.len(),
    ensures
        spec_sum(counts.take(i)) == spec_flat_offset(lists, i),
    decreases i,
{
    if i > 0 {
        lemma_offsets_locate_assignments(counts, lists, i - 1);
        lemma_sum_take_succ(counts, i - 1);
        lists.take(i - 1).lemma_flatten_push(lists[i - 1]);
        assert(lists.take(i - 1).push(lists[i - 1]) =~= lists.take(i));
    } else {
        assert(lists.take(0) =~= Seq::<Seq<u32>>::empty());
        assert(counts.take(0) =~= Seq::<u32>::empty());
    }
}

/// Stream compaction of the per-cluster fragment counts: the result lists,
/// in ascending order, exactly the indices of the clusters that received at
/// least one fragment this frame.
pub fn compact_cluster_indices(cluster_fragment_counts: &Vec<u32>) -> (r: Vec<u32>)
    requires
        cluster_fragment_counts@.len() <= u32::MAX,
    ensures
        forall|a: int, b: int| 0 <= a < b < r@.len() ==> r@[a] < r@[b],
        forall|a: int|
            0 <= a < r@.len() ==> r@[a] < cluster_fragment_counts@.len()
                && cluster_fragment_counts@[r@[a] as int] >= 1,
        forall|j: int|
            0 <= j < cluster_fragment_counts@.len() && cluster_fragment_counts@[j] >= 1
                ==> r@.contains(j as u32),
{
    let mut active: Vec<u32> = Vec::new();
    let n = cluster_fragment_counts.len();
    for i in 0..n
        invariant
            n == cluster_fragment_counts@.len(),
            n <= u32::MAX,
            forall|a: int, b: int| 0 <= a < b < active@.len() ==> active@[a] < active@[b],
            forall|a: int|
                0 <= a < active@.len() ==> active@[a] < i
                    && cluster_fragment_counts@[active@[a] as int] >= 1,
            forall|j: int|
                0 <= j < i && cluster_fragment_counts@[j] >= 1 ==> active@.contains(j as u32),
    {
        let ghost pre = active@;
        if cluster_fragment_counts[i] >= 1 {
            active.push(i as u32);
            assert(active@[active@.len() - 1] == i as u32);
        }
        proof {
            assert forall|j: int|
                0 <= j < i + 1 && cluster_fragment_counts@[j] >= 1 implies active@.contains(
                j as u32,
            ) by {
                if j < i {
                    assert(pre.contains(j as u32));
                    let k = choose|k: int| 0 <= k < pre.len() && pre[k] == j as u32;
                    assert(active@[k] == j as u32);
                } else {
                    assert(active@[active@.len() - 1] == j as u32);
                }
            }
        }
    }
    active
}

} // verus!
