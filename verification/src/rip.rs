//! The bulk-deletion planner: the policy-minimal rip mode sends files to a
//! single unlink consumer as they are discovered and records directories by
//! depth, then removes the directories in strictly decreasing depth order,
//! so that every directory is empty at the moment of its own removal.

use vstd::prelude::*;

verus! {

/// The directories recorded during enumeration, keyed by their depth in the
/// tree: `buckets[d]` holds, in arrival order, the directories seen at
/// depth `d`.
pub struct RipPlanner {
    pub buckets: Vec<Vec<String>>,
}

/// What recording one enumerated entry does to the buckets: a non-directory
/// leaves them alone (it is sent to the unlink consumer instead), and a
/// directory is appended to its depth's bucket, new empty buckets first
/// filling the gap up to that depth.
pub open spec fn record_post(
    pre: Seq<Vec<String>>,
    post: Seq<Vec<String>>,
    path: String,
    depth: int,
    is_dir: bool,
) -> bool {
    if !is_dir {
        post == pre
    } else {
        let grown = if depth + 1 > pre.len() {
            depth + 1
        } else {
            pre.len() as int
        };
        &&& post.len() == grown
        &&& (forall|d: int|
            0 <= d < post.len() && d != depth ==> post[d]@ == (if d < pre.len() {
                pre[d]@
            } else {
                Seq::<String>::empty()
            }))
        &&& post[depth]@ == (if depth < pre.len() {
            pre[depth]@
        } else {
            Seq::<String>::empty()
        }).push(path)
    }
}

/// One depth bucket's contribution to the removal order: its paths, each
/// tagged with the bucket's depth. Within one bucket the order among
/// siblings is unspecified by design; this planner yields them latest
/// first.
pub open spec fn bucket_entries(v: Seq<String>, d: int) -> Seq<(String, usize)> {
    Seq::new(v.len(), |i: int| (v[v.len() - 1 - i], d as usize))
}

/// The complete removal order: the deepest bucket's entries first, then the
/// rest, down to depth zero.
pub open spec fn rip_order(buckets: Seq<Seq<String>>) -> Seq<(String, usize)>
    decreases buckets.len(),
{
    if buckets.len() == 0 {
        Seq::<(String, usize)>::empty()
    } else {
        bucket_entries(buckets.last(), buckets.len() - 1) + rip_order(buckets.drop_last())
    }
}

/// The buckets as plain sequences.
pub open spec fn raw_buckets(buckets: Seq<Vec<String>>) -> Seq<Seq<String>> {
    buckets.map_values(|v: Vec<String>| v@)
}

impl RipPlanner {
    /// A planner with nothing recorded.
    pub fn new() -> (r: RipPlanner)
        ensures
            raw_buckets(r.buckets@).len() == 0,
    {
        RipPlanner { buckets: Vec::new() }
    }

    /// Records one enumerated entry. Returns true exactly when the entry is
    /// not a directory and must be sent to the unlink consumer now;
    /// directories are kept back for the depth-ordered phase.
    pub fn record(&mut self, path: String, depth: usize, is_dir: bool) -> (send: bool)
        ensures
            send == !is_dir,
            record_post(old(self).buckets@, final(self).buckets@, path, depth as int, is_dir),
    {
        if !is_dir {
            return true;
        }
        while self.buckets.len() <= depth
            invariant
                old(self).buckets@.len() <= self.buckets@.len(),
                self.buckets@.len() <= depth + 1 || self.buckets@.len() == old(self).buckets@.len(),
                forall|d: int|
                    0 <= d < old(self).buckets@.len() ==> self.buckets@[d] == old(self).buckets@[d],
                forall|d: int|
                    old(self).buckets@.len() <= d < self.buckets@.len() ==> self.buckets@[d]@
                        == Seq::<String>::empty(),
            decreases depth + 1 - self.buckets.len(),
        {
            self.buckets.push(Vec::new());
        }
        let mut bucket = self.buckets.remove(depth);
        bucket.push(path);
        self.buckets.insert(depth, bucket);
        false
    }

    /// Hands back every recorded directory, deepest first: the entries of
    /// the deepest bucket, then the next, down to depth zero, each path
    /// tagged with its depth.
    pub fn removal_order(self) -> (r: Vec<(String, usize)>)
        ensures
            r@ == rip_order(raw_buckets(self.buckets@)),
    {
        let ghost orig = raw_buckets(self.buckets@);
        let mut order: Vec<(String, usize)> = Vec::new();
        let mut buckets = self.buckets;
        while buckets.len() > 0
            invariant
                order@ + rip_order(raw_buckets(buckets@)) == rip_order(orig),
            decreases buckets.len(),
        {
            let ghost before = raw_buckets(buckets@);
            let d = buckets.len() - 1;
            let bucket_opt = buckets.pop();
            let mut bucket = match bucket_opt {
                Option::Some(b) => b,
                Option::None => Vec::new(),
            };
            proof {
                assert(raw_buckets(buckets@) =~= before.drop_last());
                assert(bucket@ == before.last());
            }
            while bucket.len() > 0
                invariant
                    d == buckets@.len(),
                    order@ + bucket_entries(bucket@, d as int) + rip_order(raw_buckets(buckets@))
                        == rip_order(orig),
                decreases bucket.len(),
            {
                let ghost b_before = bucket@;
                let p_opt = bucket.pop();
                let p = match p_opt {
                    Option::Some(p) => p,
                    Option::None => String::new(),
                };
                order.push((p, d));
                proof {
                    assert(bucket_entries(b_before, d as int) =~= seq![(b_before.last(), d)]
                        + bucket_entries(bucket@, d as int));
                    assert(order@ + bucket_entries(bucket@, d as int) + rip_order(
                        raw_buckets(buckets@),
                    ) =~= rip_order(orig));
                }
            }
            proof {
                assert(bucket_entries(bucket@, d as int) =~= Seq::<(String, usize)>::empty());
                assert(order@ + rip_order(raw_buckets(buckets@)) =~= rip_order(orig));
            }
        }
        proof {
            assert(rip_order(raw_buckets(buckets@)) =~= Seq::<(String, usize)>::empty());
            assert(order@ =~= rip_order(orig));
        }
        order
    }
}

/// Every entry of the removal order carries a depth below the bucket count.
pub proof fn lemma_rip_order_tags(buckets: Seq<Seq<String>>, i: int)
    requires
        buckets.len() <= usize::MAX,
        0 <= i < rip_order(buckets).len(),
    ensures
        rip_order(buckets)[i].1 < buckets.len(),
    decreases buckets.len(),
{
    let chunk = bucket_entries(buckets.last(), buckets.len() - 1);
    if i >= chunk.len() {
        lemma_rip_order_tags(buckets.drop_last(), i - chunk.len());
    }
}

/// Law (rip mode): the removal order is sorted by strictly decreasing
/// depth, deepest first. Every entry enumerated under a directory was
/// recorded one level deeper than it (or, for a non-directory, unlinked
/// before the first directory removal), so by the time any directory's own
/// removal is attempted, everything under it has already been removed:
/// depth-ordered removal never attempts a non-empty directory, and no
/// non-empty directory is left behind by a run whose removals all succeed.
pub proof fn lemma_rip_order_deepest_first(buckets: Seq<Seq<String>>, i: int, j: int)
    requires
        buckets.len() <= usize::MAX,
        0 <= i <= j < rip_order(buckets).len(),
    ensures
        rip_order(buckets)[i].1 >= rip_order(buckets)[j].1,
    decreases buckets.len(),
{
    let chunk = bucket_entries(buckets.last(), buckets.len() - 1);
    let r = rip_order(buckets);
    let sub = rip_order(buckets.drop_last());
    if i < chunk.len() {
        assert(r[i] == chunk[i]);
        assert(r[i].1 == buckets.len() - 1);
        if j < chunk.len() {
            assert(r[j] == chunk[j]);
        } else {
            assert(r[j] == sub[j - chunk.len()]);
            lemma_rip_order_tags(buckets.drop_last(), j - chunk.len());
        }
    } else {
        assert(r[i] == sub[i - chunk.len()]);
        assert(r[j] == sub[j - chunk.len()]);
        lemma_rip_order_deepest_first(buckets.drop_last(), i - chunk.len(), j - chunk.len());
    }
}

/// Law (rip mode): a directory's entries are recorded one level deeper
/// than it, so each stands strictly earlier in the removal order than the
/// directory itself. Since the files were all unlinked before the first
/// directory removal, every directory is empty at the moment its own
/// removal is attempted, and a run whose removals all succeed leaves no
/// non-empty directory behind.
pub proof fn lemma_rip_child_removed_before_parent(buckets: Seq<Seq<String>>, i: int, j: int)
    requires
        buckets.len() <= usize::MAX,
        0 <= i < rip_order(buckets).len(),
        0 <= j < rip_order(buckets).len(),
        rip_order(buckets)[i].1 == rip_order(buckets)[j].1 + 1,
    ensures
        i < j,
{
    if i >= j {
        lemma_rip_order_deepest_first(buckets, j, i);
    }
}

/// Every recorded directory stands in the removal order: nothing recorded
/// is forgotten.
pub proof fn lemma_rip_order_complete(buckets: Seq<Seq<String>>, d: int, k: int)
    requires
        buckets.len() <= usize::MAX,
        0 <= d < buckets.len(),
        0 <= k < buckets[d].len(),
    ensures
        rip_order(buckets).contains((buckets[d][k], d as usize)),
    decreases buckets.len(),
{
    let chunk = bucket_entries(buckets.last(), buckets.len() - 1);
    let r = rip_order(buckets);
    if d == buckets.len() - 1 {
        let i = buckets[d].len() - 1 - k;
        assert(r[i] == (buckets[d][k], d as usize));
    } else {
        lemma_rip_order_complete(buckets.drop_last(), d, k);
        let sub = rip_order(buckets.drop_last());
        let i = choose|i: int| 0 <= i < sub.len() && sub[i] == (buckets.drop_last()[d][k], d as usize);
        assert(r[chunk.len() + i] == (buckets[d][k], d as usize));
    }
}

/// Only recorded directories stand in the removal order, each under its own
/// depth.
pub proof fn lemma_rip_order_sound(buckets: Seq<Seq<String>>, i: int)
    requires
        buckets.len() <= usize::MAX,
        0 <= i < rip_order(buckets).len(),
    ensures
        rip_order(buckets)[i].1 < buckets.len(),
        buckets[rip_order(buckets)[i].1 as int].contains(rip_order(buckets)[i].0),
    decreases buckets.len(),
{
    let chunk = bucket_entries(buckets.last(), buckets.len() - 1);
    let r = rip_order(buckets);
    let sub = rip_order(buckets.drop_last());
    if i < chunk.len() {
        let v = buckets.last();
        assert(r[i] == chunk[i]);
        assert(v[v.len() - 1 - i] == r[i].0);
        assert(buckets[r[i].1 as int].contains(r[i].0));
    } else {
        assert(r[i] == sub[i - chunk.len()]);
        lemma_rip_order_sound(buckets.drop_last(), i - chunk.len());
        let tag = sub[i - chunk.len()].1 as int;
        assert(buckets.drop_last()[tag] == buckets[tag]);
    }
}

} // verus!
