//! Reduction of one color channel of the 120 keys to at most seven shared
//! levels, by one-dimensional k-means with a fixed seeding and tie-break.
use vstd::prelude::*;

verus! {

/// Keys that a light layer addresses.
pub const KEYS: usize = 120;

/// Shared levels per channel.
pub const SLOTS: usize = 7;

/// Cluster number of a key before its first assignment.
pub const UNASSIGNED: u8 = 255;

/// Assignment passes after which the clustering stops even without a fixed
/// point; far above what 120 one-dimensional values need.
pub const MAX_PASSES: u32 = 1000;

/// Distance between a value and a mean.
pub open spec fn dist(a: u8, b: u8) -> int {
    if a >= b {
        a - b
    } else {
        b - a
    }
}

/// Slot `j` holds a mean nearest to `v`, and no lower slot is as near.
pub open spec fn is_nearest(v: u8, means: Seq<u8>, j: int) -> bool {
    &&& 0 <= j < means.len()
    &&& forall|k: int| 0 <= k < means.len() ==> dist(v, means[j]) <= dist(v, #[trigger] means[k])
    &&& forall|k: int| 0 <= k < j ==> dist(v, #[trigger] means[k]) > dist(v, means[j])
}

/// The slot that a value joins.
pub open spec fn nearest(v: u8, means: Seq<u8>) -> int {
    choose|j: int| is_nearest(v, means, j)
}

/// Some of the first `n` keys is active with value `c`.
pub open spec fn used_before(values: Seq<u8>, active: Seq<bool>, n: nat, c: int) -> bool
    decreases n,
{
    if n == 0 {
        false
    } else {
        used_before(values, active, (n - 1) as nat, c) || (active[n - 1] && values[n - 1] == c)
    }
}

/// Some active key has value `c`.
pub open spec fn used(values: Seq<u8>, active: Seq<bool>, c: int) -> bool {
    used_before(values, active, values.len(), c)
}

/// The values below `bound` that active keys have, in increasing order.
pub open spec fn distinct_below(values: Seq<u8>, active: Seq<bool>, bound: nat) -> Seq<u8>
    decreases bound,
{
    if bound == 0 {
        Seq::empty()
    } else {
        let lower = distinct_below(values, active, (bound - 1) as nat);
        if used(values, active, bound - 1) {
            lower.push((bound - 1) as u8)
        } else {
            lower
        }
    }
}

/// The distinct values of the active keys, in increasing order.
pub open spec fn distinct_values(values: Seq<u8>, active: Seq<bool>) -> Seq<u8> {
    distinct_below(values, active, 256)
}

/// The seed means: the smallest distinct active values, zero where there are
/// fewer than seven.
pub open spec fn initial_means(values: Seq<u8>, active: Seq<bool>) -> Seq<u8> {
    let d = distinct_values(values, active);
    Seq::new(SLOTS as nat, |j: int| if j < d.len() { d[j] } else { 0u8 })
}

/// One assignment pass: every active key joins its nearest slot; an inactive
/// key keeps its number.
pub open spec fn assign(values: Seq<u8>, active: Seq<bool>, means: Seq<u8>, cluster: Seq<u8>) -> Seq<
    u8,
> {
    Seq::new(
        cluster.len(),
        |i: int|
            if active[i] {
                nearest(values[i], means) as u8
            } else {
                cluster[i]
            },
    )
}

/// Key `i` is active and in slot `j`.
pub open spec fn member(active: Seq<bool>, cluster: Seq<u8>, i: int, j: int) -> bool {
    active[i] && cluster[i] == j
}

/// Sum of the values of the first `n` keys in slot `j`.
pub open spec fn slot_sum(values: Seq<u8>, active: Seq<bool>, cluster: Seq<u8>, n: nat, j: int) -> nat
    decreases n,
{
    if n == 0 {
        0
    } else {
        slot_sum(values, active, cluster, (n - 1) as nat, j) + if member(active, cluster, n - 1, j) {
            values[n - 1] as nat
        } else {
            0
        }
    }
}

/// Number of the first `n` keys in slot `j`.
pub open spec fn slot_count(active: Seq<bool>, cluster: Seq<u8>, n: nat, j: int) -> nat
    decreases n,
{
    if n == 0 {
        0
    } else {
        slot_count(active, cluster, (n - 1) as nat, j) + if member(active, cluster, n - 1, j) {
            1nat
        } else {
            0
        }
    }
}

/// One update pass: each slot with members moves to the floor of their mean;
/// an empty slot keeps its mean.
pub open spec fn update(values: Seq<u8>, active: Seq<bool>, cluster: Seq<u8>, means: Seq<u8>) -> Seq<
    u8,
> {
    Seq::new(
        means.len(),
        |j: int|
            if slot_count(active, cluster, values.len(), j) > 0 {
                (slot_sum(values, active, cluster, values.len(), j) / slot_count(
                    active,
                    cluster,
                    values.len(),
                    j,
                )) as u8
            } else {
                means[j]
            },
    )
}

/// Alternating assignment and update passes, until an assignment pass changes
/// nothing or `fuel` more updates are used up. Returns the means and the
/// numbers of the last assignment pass.
pub open spec fn iterate(
    values: Seq<u8>,
    active: Seq<bool>,
    means: Seq<u8>,
    cluster: Seq<u8>,
    fuel: nat,
) -> (Seq<u8>, Seq<u8>)
    decreases fuel,
{
    let next = assign(values, active, means, cluster);
    if next == cluster || fuel == 0 {
        (means, next)
    } else {
        iterate(values, active, update(values, active, next, means), next, (fuel - 1) as nat)
    }
}

/// The means and slot numbers that a channel is reduced to.
pub open spec fn quantize(values: Seq<u8>, active: Seq<bool>) -> (Seq<u8>, Seq<u8>) {
    iterate(
        values,
        active,
        initial_means(values, active),
        Seq::new(values.len(), |i: int| UNASSIGNED),
        MAX_PASSES as nat,
    )
}

/// There is only one nearest slot.
pub proof fn lemma_nearest_unique(v: u8, means: Seq<u8>, j: int)
    requires
        is_nearest(v, means, j),
    ensures
        nearest(v, means) == j,
{
    let k = nearest(v, means);
    assert(is_nearest(v, means, k));
    if k < j {
        assert(dist(v, means[k]) > dist(v, means[j]));
    } else if j < k {
        assert(dist(v, means[j]) > dist(v, means[k]));
    }
}

/// Among the first `n` slots, one is nearest and no lower slot is as near.
proof fn lemma_nearest_prefix(v: u8, means: Seq<u8>, n: int) -> (best: int)
    requires
        1 <= n <= means.len(),
    ensures
        0 <= best < n,
        forall|k: int| 0 <= k < n ==> dist(v, means[best]) <= dist(v, #[trigger] means[k]),
        forall|k: int| 0 <= k < best ==> dist(v, #[trigger] means[k]) > dist(v, means[best]),
    decreases n,
{
    if n == 1 {
        0
    } else {
        let b = lemma_nearest_prefix(v, means, n - 1);
        if dist(v, means[n - 1]) < dist(v, means[b]) {
            n - 1
        } else {
            b
        }
    }
}

/// Some slot is nearest when there is a slot.
pub proof fn lemma_nearest_exists(v: u8, means: Seq<u8>)
    requires
        means.len() > 0,
    ensures
        is_nearest(v, means, nearest(v, means)),
        0 <= nearest(v, means) < means.len(),
{
    let best = lemma_nearest_prefix(v, means, means.len() as int);
    assert(is_nearest(v, means, best));
}

/// The number of keys in a slot is at most the number of keys, and their sum
/// at most 255 for each of them.
proof fn lemma_slot_bounds(values: Seq<u8>, active: Seq<bool>, cluster: Seq<u8>, n: nat, j: int)
    ensures
        slot_count(active, cluster, n, j) <= n,
        slot_sum(values, active, cluster, n, j) <= 255 * slot_count(active, cluster, n, j),
    decreases n,
{
    if n > 0 {
        lemma_slot_bounds(values, active, cluster, (n - 1) as nat, j);
    }
}

/// Every active key's value is one of the means.
pub open spec fn covers(values: Seq<u8>, active: Seq<bool>, means: Seq<u8>) -> bool {
    forall|i: int|
        0 <= i < values.len() && active[i] ==> exists|j: int|
            0 <= j < means.len() && #[trigger] means[j] == values[i]
}

/// Every active key's slot holds exactly its value.
pub open spec fn exact(values: Seq<u8>, active: Seq<bool>, means: Seq<u8>, cluster: Seq<u8>) -> bool {
    forall|i: int|
        0 <= i < values.len() && active[i] ==> cluster[i] < means.len() && means[cluster[i] as int]
            == values[i]
}

/// Sum of the squared distances of the first `n` active keys to the means of
/// their slots.
pub open spec fn squared_error(
    values: Seq<u8>,
    active: Seq<bool>,
    means: Seq<u8>,
    cluster: Seq<u8>,
    n: nat,
) -> nat
    decreases n,
{
    if n == 0 {
        0
    } else {
        squared_error(values, active, means, cluster, (n - 1) as nat) + if active[n - 1] {
            (dist(values[n - 1], means[cluster[n - 1] as int]) * dist(
                values[n - 1],
                means[cluster[n - 1] as int],
            )) as nat
        } else {
            0
        }
    }
}

/// A used value below `bound` is among the distinct values below `bound`.
proof fn lemma_used_listed(values: Seq<u8>, active: Seq<bool>, bound: nat, c: int) -> (j: int)
    requires
        used(values, active, c),
        0 <= c < bound <= 256,
    ensures
        0 <= j < distinct_below(values, active, bound).len(),
        distinct_below(values, active, bound)[j] == c,
    decreases bound,
{
    let lower = distinct_below(values, active, (bound - 1) as nat);
    if c == bound - 1 {
        assert(distinct_below(values, active, bound) == lower.push(c as u8));
        lower.len() as int
    } else {
        let j = lemma_used_listed(values, active, (bound - 1) as nat, c);
        if used(values, active, bound - 1) {
            assert(distinct_below(values, active, bound) == lower.push((bound - 1) as u8));
        }
        j
    }
}

/// Some active key with value `c` makes `c` used.
proof fn lemma_active_used(values: Seq<u8>, active: Seq<bool>, n: nat, i: int)
    requires
        0 <= i < n <= values.len(),
        active[i],
    ensures
        used_before(values, active, n, values[i] as int),
    decreases n,
{
    if i < n - 1 {
        lemma_active_used(values, active, (n - 1) as nat, i);
    }
}

/// With at most seven distinct active values, every one of them is a seed.
proof fn lemma_seeds_cover(values: Seq<u8>, active: Seq<bool>)
    requires
        distinct_values(values, active).len() <= SLOTS,
    ensures
        covers(values, active, initial_means(values, active)),
{
    let means = initial_means(values, active);
    assert forall|i: int| 0 <= i < values.len() && active[i] implies exists|j: int|
        0 <= j < means.len() && #[trigger] means[j] == values[i] by {
        lemma_active_used(values, active, values.len(), i);
        let j = lemma_used_listed(values, active, 256, values[i] as int);
        assert(means[j] == values[i]);
    }
}

/// When the means cover the values, an assignment pass puts every active key
/// in a slot holding exactly its value.
proof fn lemma_assign_exact(values: Seq<u8>, active: Seq<bool>, means: Seq<u8>, cluster: Seq<u8>)
    requires
        covers(values, active, means),
        means.len() == SLOTS,
        cluster.len() == values.len(),
    ensures
        exact(values, active, means, assign(values, active, means, cluster)),
{
    let next = assign(values, active, means, cluster);
    assert forall|i: int| 0 <= i < values.len() && active[i] implies next[i] < means.len()
        && means[next[i] as int] == values[i] by {
        lemma_nearest_exists(values[i], means);
        let j = choose|j: int| 0 <= j < means.len() && #[trigger] means[j] == values[i];
        assert(dist(values[i], means[j]) == 0);
    }
}

/// When every member of slot `j` has value `m`, the slot sums to `m` per member.
proof fn lemma_slot_sum_exact(values: Seq<u8>, active: Seq<bool>, cluster: Seq<u8>, n: nat, j: int, m: u8)
    requires
        n <= values.len(),
        forall|i: int| 0 <= i < n && member(active, cluster, i, j) ==> values[i] == m,
    ensures
        slot_sum(values, active, cluster, n, j) == m * slot_count(active, cluster, n, j),
    decreases n,
{
    if n == 0 {
        assert(m * 0nat == 0) by (nonlinear_arith);
    } else {
        lemma_slot_sum_exact(values, active, cluster, (n - 1) as nat, j, m);
        assert(slot_sum(values, active, cluster, n, j) == m * slot_count(active, cluster, n, j))
            by (nonlinear_arith)
            requires
                slot_sum(values, active, cluster, (n - 1) as nat, j) == m * slot_count(
                    active,
                    cluster,
                    (n - 1) as nat,
                    j,
                ),
                slot_sum(values, active, cluster, n, j) == slot_sum(
                    values,
                    active,
                    cluster,
                    (n - 1) as nat,
                    j,
                ) + if member(active, cluster, n - 1, j) {
                    m as nat
                } else {
                    0
                },
                slot_count(active, cluster, n, j) == slot_count(active, cluster, (n - 1) as nat, j)
                    + if member(active, cluster, n - 1, j) {
                    1nat
                } else {
                    0
                },
        ;
    }
}

/// An update pass after an exact assignment keeps every mean.
proof fn lemma_update_keeps(values: Seq<u8>, active: Seq<bool>, cluster: Seq<u8>, means: Seq<u8>)
    requires
        exact(values, active, means, cluster),
        cluster.len() == values.len(),
    ensures
        update(values, active, cluster, means) == means,
{
    let next = update(values, active, cluster, means);
    assert forall|j: int| 0 <= j < means.len() implies next[j] == means[j] by {
        let n = slot_count(active, cluster, values.len(), j);
        if n > 0 {
            lemma_slot_sum_exact(values, active, cluster, values.len(), j, means[j]);
            let m = means[j] as int;
            assert((m * n) / (n as int) == m) by (nonlinear_arith)
                requires
                    n > 0,
            ;
        }
    }
    assert(next =~= means);
}

proof fn lemma_iterate_exact(
    values: Seq<u8>,
    active: Seq<bool>,
    means: Seq<u8>,
    cluster: Seq<u8>,
    fuel: nat,
)
    requires
        covers(values, active, means),
        means.len() == SLOTS,
        cluster.len() == values.len(),
    ensures
        exact(
            values,
            active,
            iterate(values, active, means, cluster, fuel).0,
            iterate(values, active, means, cluster, fuel).1,
        ),
    decreases fuel,
{
    let next = assign(values, active, means, cluster);
    lemma_assign_exact(values, active, means, cluster);
    if !(next == cluster || fuel == 0) {
        lemma_update_keeps(values, active, next, means);
        lemma_iterate_exact(values, active, means, next, (fuel - 1) as nat);
    }
}

/// With at most seven distinct active values, the clustering puts every
/// active key in a slot whose mean is exactly its value.
pub proof fn lemma_few_values_exact(values: Seq<u8>, active: Seq<bool>)
    requires
        active.len() == values.len(),
        distinct_values(values, active).len() <= SLOTS,
    ensures
        exact(values, active, quantize(values, active).0, quantize(values, active).1),
{
    lemma_seeds_cover(values, active);
    lemma_iterate_exact(
        values,
        active,
        initial_means(values, active),
        Seq::new(values.len(), |i: int| UNASSIGNED),
        MAX_PASSES as nat,
    );
}

proof fn lemma_iterate_nearest(
    values: Seq<u8>,
    active: Seq<bool>,
    means: Seq<u8>,
    cluster: Seq<u8>,
    fuel: nat,
)
    requires
        means.len() == SLOTS,
        cluster.len() == values.len(),
    ensures
        forall|i: int|
            0 <= i < values.len() && active[i] ==> is_nearest(
                values[i],
                iterate(values, active, means, cluster, fuel).0,
                #[trigger] iterate(values, active, means, cluster, fuel).1[i] as int,
            ),
    decreases fuel,
{
    let next = assign(values, active, means, cluster);
    assert forall|i: int| 0 <= i < values.len() && active[i] implies is_nearest(
        values[i],
        means,
        #[trigger] next[i] as int,
    ) by {
        lemma_nearest_exists(values[i], means);
        assert(next[i] as int == nearest(values[i], means));
    }
    if !(next == cluster || fuel == 0) {
        let later = update(values, active, next, means);
        lemma_iterate_nearest(values, active, later, next, (fuel - 1) as nat);
        assert(iterate(values, active, means, cluster, fuel) == iterate(
            values,
            active,
            later,
            next,
            (fuel - 1) as nat,
        ));
    } else {
        assert(iterate(values, active, means, cluster, fuel) == (means, next));
    }
}

/// Once clustering stops, every active key is in a nearest slot of the final
/// means.
pub proof fn lemma_quantize_nearest(values: Seq<u8>, active: Seq<bool>)
    ensures
        forall|i: int|
            0 <= i < values.len() && active[i] ==> is_nearest(
                values[i],
                quantize(values, active).0,
                #[trigger] quantize(values, active).1[i] as int,
            ),
{
    let init = Seq::new(values.len(), |i: int| UNASSIGNED);
    lemma_iterate_nearest(values, active, initial_means(values, active), init, MAX_PASSES as nat);
}

/// The squared error of the first `n` keys is no larger with each active key
/// in its nearest slot than with any other slots below seven.
proof fn lemma_error_prefix(
    values: Seq<u8>,
    active: Seq<bool>,
    means: Seq<u8>,
    cluster: Seq<u8>,
    other: Seq<u8>,
    n: nat,
)
    requires
        n <= values.len(),
        means.len() == SLOTS,
        forall|i: int| 0 <= i < values.len() && active[i] ==> #[trigger] other[i] < SLOTS,
        forall|i: int|
            0 <= i < values.len() && active[i] ==> is_nearest(values[i], means, #[trigger] cluster[i] as int),
    ensures
        squared_error(values, active, means, cluster, n) <= squared_error(values, active, means, other, n),
    decreases n,
{
    if n > 0 {
        lemma_error_prefix(values, active, means, cluster, other, (n - 1) as nat);
        let k = n - 1;
        if active[k] {
            assert(other[k] < SLOTS);
            assert(is_nearest(values[k], means, cluster[k] as int));
            let a = dist(values[k], means[cluster[k] as int]);
            let b = dist(values[k], means[other[k] as int]);
            assert(a <= b);
            assert(a * a <= b * b) by (nonlinear_arith)
                requires
                    0 <= a <= b,
            ;
        }
    }
}

/// Once clustering stops, every active key is in a nearest slot: no other
/// choice of slots gives a smaller total squared error against the final means.
pub proof fn lemma_assignment_optimal(values: Seq<u8>, active: Seq<bool>, other: Seq<u8>)
    requires
        active.len() == values.len(),
        forall|i: int| 0 <= i < values.len() && active[i] ==> #[trigger] other[i] < SLOTS,
    ensures
        squared_error(
            values,
            active,
            quantize(values, active).0,
            quantize(values, active).1,
            values.len(),
        ) <= squared_error(values, active, quantize(values, active).0, other, values.len()),
{
    let init = Seq::new(values.len(), |i: int| UNASSIGNED);
    lemma_iterate_nearest(values, active, initial_means(values, active), init, MAX_PASSES as nat);
    let q = quantize(values, active);
    assert(q.0.len() == SLOTS) by {
        lemma_iterate_len(values, active, initial_means(values, active), init, MAX_PASSES as nat);
    }
    lemma_error_prefix(values, active, q.0, q.1, other, values.len());
}

proof fn lemma_iterate_len(
    values: Seq<u8>,
    active: Seq<bool>,
    means: Seq<u8>,
    cluster: Seq<u8>,
    fuel: nat,
)
    ensures
        iterate(values, active, means, cluster, fuel).0.len() == means.len(),
    decreases fuel,
{
    let next = assign(values, active, means, cluster);
    if !(next == cluster || fuel == 0) {
        lemma_iterate_len(values, active, update(values, active, next, means), next, (fuel - 1) as nat);
    }
}

/// The distinct active values, in increasing order.
fn get_unique_values(values: &[u8; 120], active: &[bool; 120]) -> (r: Vec<u8>)
    ensures
        r@ == distinct_values(values@, active@),
{
    let mut present = [false; 256];
    let mut i: usize = 0;
    while i < KEYS
        invariant
            i <= KEYS,
            forall|c: int| 0 <= c < 256 ==> present@[c] == used_before(values@, active@, i as nat, c),
        decreases KEYS - i,
    {
        if active[i] {
            present[values[i] as usize] = true;
        }
        i += 1;
    }
    let mut r: Vec<u8> = Vec::new();
    let mut c: usize = 0;
    while c < 256
        invariant
            c <= 256,
            values@.len() == KEYS,
            forall|d: int| 0 <= d < 256 ==> present@[d] == used(values@, active@, d),
            r@ == distinct_below(values@, active@, c as nat),
        decreases 256 - c,
    {
        if present[c] {
            r.push(c as u8);
        }
        c += 1;
    }
    r
}

/// Seeds the means with the smallest distinct active values.
fn init_means(values: &[u8; 120], means: &mut [u8; 7], active: &[bool; 120])
    requires
        forall|j: int| 0 <= j < SLOTS ==> old(means)@[j] == 0,
    ensures
        final(means)@ == initial_means(values@, active@),
{
    let unique_values = get_unique_values(values, active);
    let n = if unique_values.len() < SLOTS {
        unique_values.len()
    } else {
        SLOTS
    };
    let mut i: usize = 0;
    while i < n
        invariant
            i <= n,
            n <= SLOTS,
            n <= unique_values@.len(),
            n == unique_values@.len() || n == SLOTS,
            unique_values@ == distinct_values(values@, active@),
            forall|j: int| 0 <= j < i ==> means@[j] == unique_values@[j],
            forall|j: int| i <= j < SLOTS ==> means@[j] == 0,
        decreases n - i,
    {
        means[i] = unique_values[i];
        i += 1;
    }
    assert(means@ =~= initial_means(values@, active@));
}

/// One assignment pass; tells whether any number changed.
fn set_cluster(values: &[u8; 120], means: &[u8; 7], cluster: &mut [u8; 120], active: &[bool; 120]) -> (changed: bool)
    ensures
        final(cluster)@ == assign(values@, active@, means@, old(cluster)@),
        changed == (final(cluster)@ != old(cluster)@),
{
    let ghost target = assign(values@, active@, means@, old(cluster)@);
    let mut changed = false;
    let mut i: usize = 0;
    while i < KEYS
        invariant
            i <= KEYS,
            target == assign(values@, active@, means@, old(cluster)@),
            cluster@.len() == KEYS,
            forall|k: int| 0 <= k < i ==> cluster@[k] == target[k],
            forall|k: int| i <= k < KEYS ==> cluster@[k] == old(cluster)@[k],
            changed == exists|k: int| 0 <= k < i && #[trigger] target[k] != old(cluster)@[k],
        decreases KEYS - i,
    {
        if active[i] {
            let v = values[i];
            let mut smallest_error: u16 = 256;
            let mut smallest_cluster: u8 = 0;
            let mut j: usize = 0;
            while j < SLOTS
                invariant
                    j <= SLOTS,
                    smallest_cluster < SLOTS,
                    j == 0 ==> smallest_error == 256 && smallest_cluster == 0,
                    j > 0 ==> smallest_cluster < j && smallest_error == dist(v, means@[smallest_cluster as int]),
                    forall|k: int| 0 <= k < j ==> smallest_error <= dist(v, #[trigger] means@[k]),
                    forall|k: int|
                        0 <= k < smallest_cluster ==> dist(v, #[trigger] means@[k]) > smallest_error,
                decreases SLOTS - j,
            {
                let m = means[j];
                let error: u16 = if v >= m {
                    (v - m) as u16
                } else {
                    (m - v) as u16
                };
                if error < smallest_error {
                    smallest_error = error;
                    smallest_cluster = j as u8;
                }
                j += 1;
            }
            proof {
                lemma_nearest_unique(v, means@, smallest_cluster as int);
            }
            if cluster[i] != smallest_cluster {
                cluster[i] = smallest_cluster;
                changed = true;
            }
        }
        proof {
            assert(cluster@[i as int] == target[i as int]);
            if target[i as int] != old(cluster)@[i as int] {
                assert(changed);
            }
        }
        i += 1;
    }
    proof {
        if !changed {
            assert forall|k: int| 0 <= k < KEYS implies cluster@[k] == old(cluster)@[k] by {
                assert(cluster@[k] == target[k]);
                assert(!(target[k] != old(cluster)@[k]));
            }
            assert(cluster@ =~= old(cluster)@);
        } else {
            let k = choose|k: int| 0 <= k < KEYS && #[trigger] target[k] != old(cluster)@[k];
            assert(cluster@[k] != old(cluster)@[k]);
        }
    }
    changed
}

/// One update pass: each slot with members moves to the floor of their mean.
fn update_means(values: &[u8; 120], means: &mut [u8; 7], cluster: &[u8; 120], active: &[bool; 120])
    requires
        forall|i: int| 0 <= i < KEYS && active@[i] ==> cluster@[i] < SLOTS,
    ensures
        final(means)@ == update(values@, active@, cluster@, old(means)@),
{
    let mut mean_sums = [0usize; 7];
    let mut counts = [0usize; 7];
    let mut i: usize = 0;
    while i < KEYS
        invariant
            i <= KEYS,
            forall|i: int| 0 <= i < KEYS && active@[i] ==> cluster@[i] < SLOTS,
            forall|j: int|
                0 <= j < SLOTS ==> mean_sums@[j] == slot_sum(values@, active@, cluster@, i as nat, j)
                    && counts@[j] == slot_count(active@, cluster@, i as nat, j),
        decreases KEYS - i,
    {
        proof {
            assert forall|j: int| 0 <= j < SLOTS implies slot_count(active@, cluster@, i as nat, j) <= i
                && slot_sum(values@, active@, cluster@, i as nat, j) <= 255 * i by {
                lemma_slot_bounds(values@, active@, cluster@, i as nat, j);
            }
        }
        if active[i] {
            let c = cluster[i] as usize;
            mean_sums[c] = mean_sums[c] + values[i] as usize;
            counts[c] = counts[c] + 1;
        }
        i += 1;
    }
    let ghost old_means = means@;
    let mut j: usize = 0;
    while j < SLOTS
        invariant
            j <= SLOTS,
            old_means == old(means)@,
            forall|k: int|
                0 <= k < SLOTS ==> mean_sums@[k] == slot_sum(values@, active@, cluster@, KEYS as nat, k)
                    && counts@[k] == slot_count(active@, cluster@, KEYS as nat, k),
            forall|k: int| 0 <= k < j ==> means@[k] == update(values@, active@, cluster@, old_means)[k],
            forall|k: int| j <= k < SLOTS ==> means@[k] == old_means[k],
        decreases SLOTS - j,
    {
        if counts[j] > 0 {
            proof {
                lemma_slot_bounds(values@, active@, cluster@, KEYS as nat, j as int);
                let s = mean_sums@[j as int] as int;
                let n = counts@[j as int] as int;
                assert(s / n <= 255) by (nonlinear_arith)
                    requires
                        s <= 255 * n,
                        n > 0,
                ;
            }
            means[j] = (mean_sums[j] / counts[j]) as u8;
        }
        j += 1;
    }
    assert(means@ =~= update(values@, active@, cluster@, old_means));
}

/// Reduces one channel: seeds the means, then alternates assignment and
/// update passes until an assignment pass changes nothing. Returns the seven
/// means and each key's slot number ([`UNASSIGNED`] for a key never active).
pub fn quantize_channel(values: &[u8; 120], active: &[bool; 120]) -> (r: ([u8; 7], [u8; 120]))
    ensures
        (r.0@, r.1@) == quantize(values@, active@),
{
    let mut means = [0u8; 7];
    let mut cluster = [UNASSIGNED; 120];
    init_means(values, &mut means, active);
    assert(cluster@ =~= Seq::new(values@.len(), |i: int| UNASSIGNED));
    let mut passes: u32 = 0;
    loop
        invariant
            passes <= MAX_PASSES,
            iterate(values@, active@, means@, cluster@, (MAX_PASSES - passes) as nat) == quantize(
                values@,
                active@,
            ),
        decreases MAX_PASSES - passes,
    {
        let ghost before = cluster@;
        let changed = set_cluster(values, &means, &mut cluster, active);
        if !changed || passes >= MAX_PASSES {
            return (means, cluster);
        }
        proof {
            assert forall|i: int| 0 <= i < KEYS && active@[i] implies cluster@[i] < SLOTS by {
                lemma_nearest_exists(values@[i], means@);
            }
        }
        update_means(values, &mut means, &cluster, active);
        passes += 1;
    }
}

} // verus!
