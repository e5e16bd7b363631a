//! How two values of one e-class combine: access patterns pool what they
//! know of their zero regions, and any other values must already agree.
use crate::access_ops::{any_set, any_set_exec};
use crate::analysis::MyAnalysis;
use crate::data::{
    copy_dims, copy_flags, copy_zero_regions, zero_view, AccessPatternData, AccessView, DataView,
    MyAnalysisData,
};
use crate::decimal::{decimal_form, same_number};
use crate::text::chars_of;
use std::collections::HashMap;
use vstd::std_specs::iter::IteratorSpec;
use vstd::prelude::*;

verus! {

broadcast use vstd::std_specs::hash::group_hash_axioms;

/// Whether `from` sets a flag that `to` does not, or sets one past its end.
pub open spec fn needs_merge(to: Seq<bool>, from: Seq<bool>) -> bool {
    exists|i: int| 0 <= i < from.len() && from[i] && (i >= to.len() || !to[i])
}

/// The flags set in either, over the longer of the two.
pub open spec fn or_flags(to: Seq<bool>, from: Seq<bool>) -> Seq<bool> {
    let n = if to.len() >= from.len() {
        to.len()
    } else {
        from.len()
    };
    Seq::new(n, |i: int| (i < to.len() && to[i]) || (i < from.len() && from[i]))
}

/// Whether axis `k` of `from` holds information: some flag is set.
pub open spec fn informative(from: Map<usize, Seq<bool>>, k: usize) -> bool {
    from.contains_key(k) && any_set(from[k])
}

/// The flags of axis `k` once `from`'s are merged into `to`'s.
pub open spec fn merged_flags(to: Map<usize, Seq<bool>>, from: Map<usize, Seq<bool>>, k: usize) -> Seq<bool> {
    if to.contains_key(k) {
        if needs_merge(to[k], from[k]) {
            or_flags(to[k], from[k])
        } else {
            to[k]
        }
    } else {
        from[k]
    }
}

/// The zero regions `to` after merging in those of `from` on the axes in
/// `keys`: axes of `from` with no flag set are passed over.
pub open spec fn merged_zeros_on(
    to: Map<usize, Seq<bool>>,
    from: Map<usize, Seq<bool>>,
    keys: Set<usize>,
) -> Map<usize, Seq<bool>> {
    Map::new(
        |k: usize| to.contains_key(k) || (keys.contains(k) && informative(from, k)),
        |k: usize|
            if keys.contains(k) && informative(from, k) {
                merged_flags(to, from, k)
            } else {
                to[k]
            },
    )
}

/// Whether merging the axes in `keys` of `from` into `to` changes `to`.
pub open spec fn zeros_change_on(
    to: Map<usize, Seq<bool>>,
    from: Map<usize, Seq<bool>>,
    keys: Set<usize>,
) -> bool {
    exists|k: usize|
        keys.contains(k) && informative(from, k) && (!to.contains_key(k) || needs_merge(
            to[k],
            from[k],
        ))
}

/// The zero regions `to` after merging in all of those of `from`.
pub open spec fn merged_zeros(to: Map<usize, Seq<bool>>, from: Map<usize, Seq<bool>>) -> Map<
    usize,
    Seq<bool>,
> {
    merged_zeros_on(to, from, from.dom())
}

/// Whether merging `from` into `to` changes `to`.
pub open spec fn zeros_change(to: Map<usize, Seq<bool>>, from: Map<usize, Seq<bool>>) -> bool {
    zeros_change_on(to, from, from.dom())
}

/// Whether two values of one e-class can be merged: two access patterns
/// must have the same dimensions, two literals must stand for the same
/// number, and other values must be equal.
pub open spec fn can_merge(to: DataView, from: DataView) -> bool {
    match (to, from) {
        (DataView::AccessPattern(a), DataView::AccessPattern(b)) => a.shape == b.shape
            && a.item_shape == b.item_shape,
        (DataView::Literal(a), DataView::Literal(b)) => decimal_form(a) == decimal_form(b),
        _ => to == from,
    }
}

/// The value of an e-class after merging `from` into `to`, and whether
/// that changed `to`.
pub open spec fn merge_result(to: DataView, from: DataView) -> (DataView, bool) {
    match (to, from) {
        (DataView::AccessPattern(a), DataView::AccessPattern(b)) => (
            DataView::AccessPattern(
                AccessView { zero_regions: merged_zeros(a.zero_regions, b.zero_regions), ..a },
            ),
            zeros_change(a.zero_regions, b.zero_regions),
        ),
        _ => (to, false),
    }
}

/// Whether `from` sets a flag that `to` does not, or sets one past its end.
pub fn needs_merge_exec(to: &Vec<bool>, from: &Vec<bool>) -> (r: bool)
    ensures
        r == needs_merge(to@, from@),
{
    let mut i: usize = 0;
    while i < from.len()
        invariant
            i <= from@.len(),
            forall|j: int| 0 <= j < i ==> !(from@[j] && (j >= to@.len() || !to@[j])),
        decreases from.len() - i,
    {
        if from[i] && (i >= to.len() || !to[i]) {
            return true;
        }
        i = i + 1;
    }
    false
}

/// The flags set in either, over the longer of the two.
pub fn or_flags_exec(to: &Vec<bool>, from: &Vec<bool>) -> (r: Vec<bool>)
    ensures
        r@ == or_flags(to@, from@),
{
    let n = if to.len() >= from.len() {
        to.len()
    } else {
        from.len()
    };
    let mut r: Vec<bool> = Vec::new();
    let mut i: usize = 0;
    while i < n
        invariant
            i <= n,
            n == if to@.len() >= from@.len() {
                to@.len()
            } else {
                from@.len()
            },
            r@.len() == i,
            forall|j: int|
                0 <= j < i ==> #[trigger] r@[j] == ((j < to@.len() && to@[j]) || (j < from@.len()
                    && from@[j])),
        decreases n - i,
    {
        r.push((i < to.len() && to[i]) || (i < from.len() && from[i]));
        i = i + 1;
    }
    assert(r@ =~= or_flags(to@, from@));
    r
}

/// The keys of the first `n` entries of `pairs`.
pub open spec fn keys_before(pairs: Seq<(&usize, &Vec<bool>)>, n: int) -> Set<usize> {
    Set::new(|k: usize| exists|j: int| 0 <= j < n && *pairs[j].0 == k)
}

/// Merging one more axis `k` of `from`: the merged regions of the other
/// axes stay, and axis `k` gets its merged flags where it is informative.
proof fn lemma_merge_step(
    t: Map<usize, Seq<bool>>,
    f: Map<usize, Seq<bool>>,
    keys: Set<usize>,
    k: usize,
)
    requires
        !keys.contains(k),
    ensures
        merged_zeros_on(t, f, keys).contains_key(k) == t.contains_key(k),
        t.contains_key(k) ==> merged_zeros_on(t, f, keys)[k] == t[k],
        merged_zeros_on(t, f, keys.insert(k)) == if informative(f, k) {
            merged_zeros_on(t, f, keys).insert(k, merged_flags(t, f, k))
        } else {
            merged_zeros_on(t, f, keys)
        },
        zeros_change_on(t, f, keys.insert(k)) == (zeros_change_on(t, f, keys) || (informative(f, k)
            && (!t.contains_key(k) || needs_merge(t[k], f[k])))),
{
    let m0 = merged_zeros_on(t, f, keys);
    let m1 = merged_zeros_on(t, f, keys.insert(k));
    if informative(f, k) {
        assert(m1 =~= m0.insert(k, merged_flags(t, f, k)));
    } else {
        assert(m1 =~= m0);
    }
    if zeros_change_on(t, f, keys.insert(k)) {
        let w = choose|w: usize|
            keys.insert(k).contains(w) && informative(f, w) && (!t.contains_key(w) || needs_merge(
                t[w],
                f[w],
            ));
        if w != k {
            assert(zeros_change_on(t, f, keys));
        }
    }
    if zeros_change_on(t, f, keys) {
        let w = choose|w: usize|
            keys.contains(w) && informative(f, w) && (!t.contains_key(w) || needs_merge(t[w], f[w]));
        assert(keys.insert(k).contains(w));
    }
    if informative(f, k) && (!t.contains_key(k) || needs_merge(t[k], f[k])) {
        assert(keys.insert(k).contains(k));
    }
}

/// Merges the zero regions `from` into `to`: returns the merged regions
/// and whether they differ from `to`.
pub fn merge_zero_regions(to: &HashMap<usize, Vec<bool>>, from: &HashMap<usize, Vec<bool>>) -> (r: (
    HashMap<usize, Vec<bool>>,
    bool,
))
    ensures
        zero_view(r.0@) == merged_zeros(zero_view(to@), zero_view(from@)),
        r.1 == zeros_change(zero_view(to@), zero_view(from@)),
{
    let ghost t = zero_view(to@);
    let ghost f = zero_view(from@);
    let mut z = copy_zero_regions(to);
    let mut changed = false;
    let ghost pairs = vstd::std_specs::hash::spec_hash_map_iter(from).remaining();
    assert(merged_zeros_on(t, f, keys_before(pairs, 0)) =~= t);
    assert(!zeros_change_on(t, f, keys_before(pairs, 0)));
    for (k, fl) in it: from.iter()
        invariant
            it.seq() == pairs,
            pairs.no_duplicates(),
            t == zero_view(to@),
            f == zero_view(from@),
            zero_view(z@) == merged_zeros_on(t, f, keys_before(pairs, it.index() as int)),
            changed == zeros_change_on(t, f, keys_before(pairs, it.index() as int)),
    {
        let ghost i = it.index() as int;
        let ghost before = z@;
        let ghost done = keys_before(pairs, i);
        let ghost done1 = keys_before(pairs, i + 1);
        proof {
            assert(pairs[i] == (k, fl));
            assert(from@.contains_key(*k) && from@[*k] == *fl);
            assert(!done.contains(*k)) by {
                if done.contains(*k) {
                    let j = choose|j: int| 0 <= j < i && *pairs[j].0 == *k;
                    assert(from@[*pairs[j].0] == *pairs[j].1);
                    assert(pairs[j] == pairs[i]);
                }
            }
            assert(done1 =~= done.insert(*k));
        }
        proof {
            lemma_merge_step(t, f, done, *k);
        }
        if any_set_exec(fl) {
            match z.get(k) {
                Some(cur) => {
                    assert(zero_view(z@).contains_key(*k));
                    assert(t.contains_key(*k) && t[*k] == cur@);
                    if needs_merge_exec(cur, fl) {
                        let o = or_flags_exec(cur, fl);
                        z.insert(*k, o);
                        changed = true;
                    }
                },
                None => {
                    assert(!zero_view(z@).contains_key(*k));
                    let c = copy_flags(fl);
                    z.insert(*k, c);
                    changed = true;
                },
            }
        }
        assert(zero_view(z@) =~= merged_zeros_on(t, f, done1));
    }
    proof {
        assert(keys_before(pairs, pairs.len() as int) =~= f.dom()) by {
            assert forall|key: usize| f.dom().contains(key) implies keys_before(
                pairs,
                pairs.len() as int,
            ).contains(key) by {
                assert(from@.contains_key(key));
                assert(pairs.contains((&key, &from@[key])));
                let j = choose|j: int| 0 <= j < pairs.len() && pairs[j] == (&key, &from@[key]);
                assert(*pairs[j].0 == key);
            }
        }
    }
    (z, changed)
}

impl MyAnalysis {
    /// Whether `from` can be merged into `to`: two access patterns of the
    /// same dimensions, two literals that stand for the same number, or two
    /// equal values.
    pub fn mergeable(to: &MyAnalysisData, from: &MyAnalysisData) -> (r: bool)
        ensures
            r == can_merge(to@, from@),
    {
        match (to, from) {
            (MyAnalysisData::AccessPattern(a), MyAnalysisData::AccessPattern(b)) => {
                crate::data::same_dims(&a.shape, &b.shape) && crate::data::same_dims(
                    &a.item_shape,
                    &b.item_shape,
                )
            },
            (MyAnalysisData::Literal(a), MyAnalysisData::Literal(b)) => same_number(
                &chars_of(a.text.as_str()),
                &chars_of(b.text.as_str()),
            ),
            _ => to.same(from),
        }
    }

    /// Merges `from` into `to`, the two values of one e-class, and returns
    /// whether `to` changed. The dimensions of two access patterns must
    /// agree; what each knows of its zero regions is pooled. Other values
    /// must be equal, and are left as they are.
    pub fn merge(&self, to: &mut MyAnalysisData, from: MyAnalysisData) -> (changed: bool)
        requires
            can_merge(old(to)@, from@),
        ensures
            (final(to)@, changed) == merge_result(old(to)@, from@),
    {
        let merged: Option<(MyAnalysisData, bool)> = match (&*to, &from) {
            (MyAnalysisData::AccessPattern(a), MyAnalysisData::AccessPattern(b)) => {
                let (z, ch) = merge_zero_regions(&a.zero_regions, &b.zero_regions);
                Some(
                    (
                        MyAnalysisData::AccessPattern(
                            AccessPatternData {
                                shape: copy_dims(&a.shape),
                                item_shape: copy_dims(&a.item_shape),
                                zero_regions: z,
                            },
                        ),
                        ch,
                    ),
                )
            },
            _ => None,
        };
        match merged {
            Some((v, ch)) => {
                *to = v;
                ch
            },
            None => false,
        }
    }
}

} // verus!
