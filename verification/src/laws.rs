//! Properties that hold across the operations of the library: names that
//! read back as what they name, range sets whose ranges follow the elements
//! they cover, merges that report exactly when they change a value, and
//! operators that undo one another.
use crate::access_ops::{
    access_concatenate_result, access_insert_axis_result, access_result, access_squeeze_result, access_transpose_result,
    any_set, padded_flags, product_zeros, transposed_zeros, windows_fit,
};
use crate::data::{plain_access, AccessView, DataView};
use crate::decimal::decimal_form;
use crate::dims::{checked_product, pooled_length, window_count};
use crate::merge::{
    can_merge, informative, merge_result, merged_flags, merged_zeros, needs_merge, or_flags,
    zeros_change,
};
use crate::operators::{
    compute_type_from_chars, compute_type_name, pad_type_from_chars, pad_type_name,
    relay_activation_layout_from_chars, relay_activation_layout_name,
    relay_kernel_layout_from_chars, relay_kernel_layout_name, relay_operator_from_chars,
    relay_operator_name, ComputeType, PadType, RelayActivationLayout, RelayKernelLayout,
    RelayOperator,
};
use crate::range_set::{
    bools_added, bools_cover, bools_inserted, bools_removed, broken_first, broken_second,
    in_some_range, pad_to, preserved, ranges_cover, ranges_inserted, ranges_removed, shifts_end,
    shrunk, splits, RangeHashSet, RangeInsertStrategy, RangeSet,
};
use crate::relay_ops::relay_op_result;
use crate::tensor_ops::{
    bsg_systolic_array_result, map_dot_product_result, move_axis_result, shape_insert_axis_result,
    shape_remove_axis_result,
};
use vstd::prelude::*;

verus! {

/// The name of every `RelayOperator` reads back as it.
pub proof fn lemma_relay_operator_name_reads_back(x: RelayOperator)
    ensures
        relay_operator_from_chars(relay_operator_name(x)) == Some(x),
{
    reveal_strlit("relay-batch-norm-inference");
    reveal_strlit("relay-softmax");
    reveal_strlit("relay-relu");
    reveal_strlit("relay-leaky-relu");
    reveal_strlit("relay-max-pool2d");
    reveal_strlit("relay-global-avg-pool2d");
    reveal_strlit("relay-avg-pool2d");
    reveal_strlit("relay-upsampling");
    reveal_strlit("relay-batch-flatten");
    reveal_strlit("relay-bias-add");
    reveal_strlit("relay-add");
    reveal_strlit("relay-sigmoid");
    reveal_strlit("relay-maximum");
    reveal_strlit("relay-minimum");
    assert("relay-batch-norm-inference"@.len() != "relay-softmax"@.len());
    assert("relay-batch-norm-inference"@.len() != "relay-relu"@.len());
    assert("relay-batch-norm-inference"@.len() != "relay-leaky-relu"@.len());
    assert("relay-batch-norm-inference"@.len() != "relay-max-pool2d"@.len());
    assert("relay-batch-norm-inference"@.len() != "relay-global-avg-pool2d"@.len());
    assert("relay-batch-norm-inference"@.len() != "relay-avg-pool2d"@.len());
    assert("relay-batch-norm-inference"@.len() != "relay-upsampling"@.len());
    assert("relay-batch-norm-inference"@.len() != "relay-batch-flatten"@.len());
    assert("relay-batch-norm-inference"@.len() != "relay-bias-add"@.len());
    assert("relay-batch-norm-inference"@.len() != "relay-add"@.len());
    assert("relay-batch-norm-inference"@.len() != "relay-sigmoid"@.len());
    assert("relay-batch-norm-inference"@.len() != "relay-maximum"@.len());
    assert("relay-batch-norm-inference"@.len() != "relay-minimum"@.len());
    assert("relay-softmax"@.len() != "relay-relu"@.len());
    assert("relay-softmax"@.len() != "relay-leaky-relu"@.len());
    assert("relay-softmax"@.len() != "relay-max-pool2d"@.len());
    assert("relay-softmax"@.len() != "relay-global-avg-pool2d"@.len());
    assert("relay-softmax"@.len() != "relay-avg-pool2d"@.len());
    assert("relay-softmax"@.len() != "relay-upsampling"@.len());
    assert("relay-softmax"@.len() != "relay-batch-flatten"@.len());
    assert("relay-softmax"@.len() != "relay-bias-add"@.len());
    assert("relay-softmax"@.len() != "relay-add"@.len());
    assert("relay-softmax"@[7] != "relay-sigmoid"@[7]);
    assert("relay-softmax"@[6] != "relay-maximum"@[6]);
    assert("relay-softmax"@[6] != "relay-minimum"@[6]);
    assert("relay-relu"@.len() != "relay-leaky-relu"@.len());
    assert("relay-relu"@.len() != "relay-max-pool2d"@.len());
    assert("relay-relu"@.len() != "relay-global-avg-pool2d"@.len());
    assert("relay-relu"@.len() != "relay-avg-pool2d"@.len());
    assert("relay-relu"@.len() != "relay-upsampling"@.len());
    assert("relay-relu"@.len() != "relay-batch-flatten"@.len());
    assert("relay-relu"@.len() != "relay-bias-add"@.len());
    assert("relay-relu"@.len() != "relay-add"@.len());
    assert("relay-relu"@.len() != "relay-sigmoid"@.len());
    assert("relay-relu"@.len() != "relay-maximum"@.len());
    assert("relay-relu"@.len() != "relay-minimum"@.len());
    assert("relay-leaky-relu"@[6] != "relay-max-pool2d"@[6]);
    assert("relay-leaky-relu"@.len() != "relay-global-avg-pool2d"@.len());
    assert("relay-leaky-relu"@[6] != "relay-avg-pool2d"@[6]);
    assert("relay-leaky-relu"@[6] != "relay-upsampling"@[6]);
    assert("relay-leaky-relu"@.len() != "relay-batch-flatten"@.len());
    assert("relay-leaky-relu"@.len() != "relay-bias-add"@.len());
    assert("relay-leaky-relu"@.len() != "relay-add"@.len());
    assert("relay-leaky-relu"@.len() != "relay-sigmoid"@.len());
    assert("relay-leaky-relu"@.len() != "relay-maximum"@.len());
    assert("relay-leaky-relu"@.len() != "relay-minimum"@.len());
    assert("relay-max-pool2d"@.len() != "relay-global-avg-pool2d"@.len());
    assert("relay-max-pool2d"@[6] != "relay-avg-pool2d"@[6]);
    assert("relay-max-pool2d"@[6] != "relay-upsampling"@[6]);
    assert("relay-max-pool2d"@.len() != "relay-batch-flatten"@.len());
    assert("relay-max-pool2d"@.len() != "relay-bias-add"@.len());
    assert("relay-max-pool2d"@.len() != "relay-add"@.len());
    assert("relay-max-pool2d"@.len() != "relay-sigmoid"@.len());
    assert("relay-max-pool2d"@.len() != "relay-maximum"@.len());
    assert("relay-max-pool2d"@.len() != "relay-minimum"@.len());
    assert("relay-global-avg-pool2d"@.len() != "relay-avg-pool2d"@.len());
    assert("relay-global-avg-pool2d"@.len() != "relay-upsampling"@.len());
    assert("relay-global-avg-pool2d"@.len() != "relay-batch-flatten"@.len());
    assert("relay-global-avg-pool2d"@.len() != "relay-bias-add"@.len());
    assert("relay-global-avg-pool2d"@.len() != "relay-add"@.len());
    assert("relay-global-avg-pool2d"@.len() != "relay-sigmoid"@.len());
    assert("relay-global-avg-pool2d"@.len() != "relay-maximum"@.len());
    assert("relay-global-avg-pool2d"@.len() != "relay-minimum"@.len());
    assert("relay-avg-pool2d"@[6] != "relay-upsampling"@[6]);
    assert("relay-avg-pool2d"@.len() != "relay-batch-flatten"@.len());
    assert("relay-avg-pool2d"@.len() != "relay-bias-add"@.len());
    assert("relay-avg-pool2d"@.len() != "relay-add"@.len());
    assert("relay-avg-pool2d"@.len() != "relay-sigmoid"@.len());
    assert("relay-avg-pool2d"@.len() != "relay-maximum"@.len());
    assert("relay-avg-pool2d"@.len() != "relay-minimum"@.len());
    assert("relay-upsampling"@.len() != "relay-batch-flatten"@.len());
    assert("relay-upsampling"@.len() != "relay-bias-add"@.len());
    assert("relay-upsampling"@.len() != "relay-add"@.len());
    assert("relay-upsampling"@.len() != "relay-sigmoid"@.len());
    assert("relay-upsampling"@.len() != "relay-maximum"@.len());
    assert("relay-upsampling"@.len() != "relay-minimum"@.len());
    assert("relay-batch-flatten"@.len() != "relay-bias-add"@.len());
    assert("relay-batch-flatten"@.len() != "relay-add"@.len());
    assert("relay-batch-flatten"@.len() != "relay-sigmoid"@.len());
    assert("relay-batch-flatten"@.len() != "relay-maximum"@.len());
    assert("relay-batch-flatten"@.len() != "relay-minimum"@.len());
    assert("relay-bias-add"@.len() != "relay-add"@.len());
    assert("relay-bias-add"@.len() != "relay-sigmoid"@.len());
    assert("relay-bias-add"@.len() != "relay-maximum"@.len());
    assert("relay-bias-add"@.len() != "relay-minimum"@.len());
    assert("relay-add"@.len() != "relay-sigmoid"@.len());
    assert("relay-add"@.len() != "relay-maximum"@.len());
    assert("relay-add"@.len() != "relay-minimum"@.len());
    assert("relay-sigmoid"@[6] != "relay-maximum"@[6]);
    assert("relay-sigmoid"@[6] != "relay-minimum"@[6]);
    assert("relay-maximum"@[7] != "relay-minimum"@[7]);
}

/// The name of every `RelayActivationLayout` reads back as it.
pub proof fn lemma_relay_activation_layout_name_reads_back(x: RelayActivationLayout)
    ensures
        relay_activation_layout_from_chars(relay_activation_layout_name(x)) == Some(x),
{
    reveal_strlit("relay-activation-layout-nchw");
    reveal_strlit("relay-activation-layout-nhwc");
    assert("relay-activation-layout-nchw"@[25] != "relay-activation-layout-nhwc"@[25]);
}

/// The name of every `RelayKernelLayout` reads back as it.
pub proof fn lemma_relay_kernel_layout_name_reads_back(x: RelayKernelLayout)
    ensures
        relay_kernel_layout_from_chars(relay_kernel_layout_name(x)) == Some(x),
{
    reveal_strlit("relay-kernel-layout-oihw");
    reveal_strlit("relay-kernel-layout-hwio");
    assert("relay-kernel-layout-oihw"@[20] != "relay-kernel-layout-hwio"@[20]);
}

/// The name of every `ComputeType` reads back as it.
pub proof fn lemma_compute_type_name_reads_back(x: ComputeType)
    ensures
        compute_type_from_chars(compute_type_name(x)) == Some(x),
{
    reveal_strlit("dot-product");
    reveal_strlit("reduce-sum");
    reveal_strlit("relu");
    reveal_strlit("sqrt");
    reveal_strlit("negative");
    reveal_strlit("elementwise-add");
    reveal_strlit("elementwise-mul");
    reveal_strlit("elementwise-div");
    reveal_strlit("reduce-max");
    reveal_strlit("softmax");
    reveal_strlit("reduce-mean");
    assert("dot-product"@.len() != "reduce-sum"@.len());
    assert("dot-product"@.len() != "relu"@.len());
    assert("dot-product"@.len() != "sqrt"@.len());
    assert("dot-product"@.len() != "negative"@.len());
    assert("dot-product"@.len() != "elementwise-add"@.len());
    assert("dot-product"@.len() != "elementwise-mul"@.len());
    assert("dot-product"@.len() != "elementwise-div"@.len());
    assert("dot-product"@.len() != "reduce-max"@.len());
    assert("dot-product"@.len() != "softmax"@.len());
    assert("dot-product"@[0] != "reduce-mean"@[0]);
    assert("reduce-sum"@.len() != "relu"@.len());
    assert("reduce-sum"@.len() != "sqrt"@.len());
    assert("reduce-sum"@.len() != "negative"@.len());
    assert("reduce-sum"@.len() != "elementwise-add"@.len());
    assert("reduce-sum"@.len() != "elementwise-mul"@.len());
    assert("reduce-sum"@.len() != "elementwise-div"@.len());
    assert("reduce-sum"@[7] != "reduce-max"@[7]);
    assert("reduce-sum"@.len() != "softmax"@.len());
    assert("reduce-sum"@.len() != "reduce-mean"@.len());
    assert("relu"@[0] != "sqrt"@[0]);
    assert("relu"@.len() != "negative"@.len());
    assert("relu"@.len() != "elementwise-add"@.len());
    assert("relu"@.len() != "elementwise-mul"@.len());
    assert("relu"@.len() != "elementwise-div"@.len());
    assert("relu"@.len() != "reduce-max"@.len());
    assert("relu"@.len() != "softmax"@.len());
    assert("relu"@.len() != "reduce-mean"@.len());
    assert("sqrt"@.len() != "negative"@.len());
    assert("sqrt"@.len() != "elementwise-add"@.len());
    assert("sqrt"@.len() != "elementwise-mul"@.len());
    assert("sqrt"@.len() != "elementwise-div"@.len());
    assert("sqrt"@.len() != "reduce-max"@.len());
    assert("sqrt"@.len() != "softmax"@.len());
    assert("sqrt"@.len() != "reduce-mean"@.len());
    assert("negative"@.len() != "elementwise-add"@.len());
    assert("negative"@.len() != "elementwise-mul"@.len());
    assert("negative"@.len() != "elementwise-div"@.len());
    assert("negative"@.len() != "reduce-max"@.len());
    assert("negative"@.len() != "softmax"@.len());
    assert("negative"@.len() != "reduce-mean"@.len());
    assert("elementwise-add"@[12] != "elementwise-mul"@[12]);
    assert("elementwise-add"@[12] != "elementwise-div"@[12]);
    assert("elementwise-add"@.len() != "reduce-max"@.len());
    assert("elementwise-add"@.len() != "softmax"@.len());
    assert("elementwise-add"@.len() != "reduce-mean"@.len());
    assert("elementwise-mul"@[12] != "elementwise-div"@[12]);
    assert("elementwise-mul"@.len() != "reduce-max"@.len());
    assert("elementwise-mul"@.len() != "softmax"@.len());
    assert("elementwise-mul"@.len() != "reduce-mean"@.len());
    assert("elementwise-div"@.len() != "reduce-max"@.len());
    assert("elementwise-div"@.len() != "softmax"@.len());
    assert("elementwise-div"@.len() != "reduce-mean"@.len());
    assert("reduce-max"@.len() != "softmax"@.len());
    assert("reduce-max"@.len() != "reduce-mean"@.len());
    assert("softmax"@.len() != "reduce-mean"@.len());
}

/// The name of every `PadType` reads back as it.
pub proof fn lemma_pad_type_name_reads_back(x: PadType)
    ensures
        pad_type_from_chars(pad_type_name(x)) == Some(x),
{
    reveal_strlit("zero-padding");
    reveal_strlit("min-padding");
    assert("zero-padding"@.len() != "min-padding"@.len());
}


/// The name of a value reads back as that value, so two values with the
/// same name are the same value.
pub proof fn lemma_relay_operator_names_are_distinct(x: RelayOperator, y: RelayOperator)
    requires
        relay_operator_name(x) == relay_operator_name(y),
    ensures
        x == y,
{
    lemma_relay_operator_name_reads_back(x);
    lemma_relay_operator_name_reads_back(y);
}

/// A range added to a set of flags is covered.
pub proof fn lemma_added_range_is_covered(s: Seq<bool>, lo: int, hi: int)
    requires
        0 <= lo <= hi,
    ensures
        bools_cover(bools_added(s, lo, hi), lo, hi),
{
}

/// Adding a range keeps every range that was covered covered.
pub proof fn lemma_adding_keeps_cover(s: Seq<bool>, lo: int, hi: int, a: int, b: int)
    requires
        0 <= lo <= hi,
        0 <= a,
        bools_cover(s, a, b),
    ensures
        bools_cover(bools_added(s, lo, hi), a, b),
{
}

/// Removing the flags that were just inserted gives back the flags, where
/// the insertion point lay within them.
pub proof fn lemma_remove_undoes_insert(s: Seq<bool>, index: int, n: nat)
    requires
        0 <= index <= s.len(),
    ensures
        bools_removed(bools_inserted(s, index, n), index, n as int) == s,
{
    assert(pad_to(s, index) == s);
    assert(bools_removed(bools_inserted(s, index, n), index, n as int) =~= s);
}

/// Inserting flags moves the covered elements with them: an element before
/// the insertion point stays, one at or after it moves up by `n`.
pub proof fn lemma_insert_moves_cover(s: Seq<bool>, index: int, n: nat, k: int)
    requires
        0 <= index,
        0 <= k < s.len(),
        s[k],
    ensures
        k < index ==> bools_inserted(s, index, n)[k],
        k >= index ==> bools_inserted(s, index, n)[k + n],
{
}

/// Removing flags moves the covered elements with them: an element before
/// the removed ones stays, one after them moves down by `n`.
pub proof fn lemma_remove_moves_cover(s: Seq<bool>, index: int, n: int, k: int)
    requires
        0 <= index,
        0 <= n,
        index + n <= s.len(),
        0 <= k < s.len(),
        s[k],
    ensures
        k < index ==> bools_removed(s, index, n)[k],
        k >= index + n ==> bools_removed(s, index, n)[k - n],
{
}

/// A range added to a set of ranges is covered.
pub proof fn lemma_added_range_covered_by_ranges(s: Set<(usize, usize)>, q: (usize, usize))
    ensures
        ranges_cover(s.insert(q), q.0 as int, q.1 as int),
{
    assert forall|k: int| q.0 <= k < q.1 implies #[trigger] in_some_range(s.insert(q), k) by {
        assert(s.insert(q).contains(q));
    }
}

/// Inserting elements moves the covered elements with them, whichever way
/// ranges react: an element before the insertion point stays covered, one
/// at or after it is covered `n` places further on.
pub proof fn lemma_inserted_ranges_move_cover(
    s: Set<(usize, usize)>,
    strategy: RangeInsertStrategy,
    index: usize,
    n: usize,
    k: int,
)
    requires
        forall|q: (usize, usize)|
            #[trigger] s.contains(q) ==> q.0 <= q.1 && (shifts_end(strategy, q, index) ==> q.1 + n
                <= usize::MAX),
        in_some_range(s, k),
    ensures
        in_some_range(ranges_inserted(s, strategy, index, n), if k < index {
            k
        } else {
            k + n
        }),
{
    let q = choose|q: (usize, usize)| #[trigger] s.contains(q) && q.0 <= k < q.1;
    let t = ranges_inserted(s, strategy, index, n);
    let k2 = if k < index {
        k
    } else {
        k + n
    };
    match strategy {
        RangeInsertStrategy::PreserveRanges => {
            let p = preserved(q, index, n);
            assert(s.map(|q: (usize, usize)| preserved(q, index, n)).contains(p));
            assert(t.contains(p) && p.0 <= k2 < p.1);
        },
        RangeInsertStrategy::BreakRanges => {
            let first = s.map(|q: (usize, usize)| broken_first(q, index, n));
            let b1 = broken_first(q, index, n);
            assert(first.contains(b1));
            if splits(q, index) && k >= index {
                let seconds = s.filter(|q: (usize, usize)| splits(q, index)).map(
                    |q: (usize, usize)| broken_second(q, index, n),
                );
                assert(s.filter(|q: (usize, usize)| splits(q, index)).contains(q));
                let b2 = broken_second(q, index, n);
                assert(seconds.contains(b2));
                assert(t.contains(b2) && b2.0 <= k2 < b2.1);
            } else {
                assert(t.contains(b1) && b1.0 <= k2 < b1.1);
            }
        },
    }
}

/// Removing elements moves the covered elements with them: an element
/// before the removed ones stays covered, one after them is covered `n`
/// places lower.
pub proof fn lemma_removed_ranges_move_cover(s: Set<(usize, usize)>, index: usize, n: usize, k: int)
    requires
        in_some_range(s, k),
        k < index || k >= index + n,
    ensures
        in_some_range(ranges_removed(s, index, n), if k < index {
            k
        } else {
            k - n
        }),
{
    let q = choose|q: (usize, usize)| #[trigger] s.contains(q) && q.0 <= k < q.1;
    let p = shrunk(q, index, n);
    let k2 = if k < index {
        k
    } else {
        k - n
    };
    assert(s.map(|q: (usize, usize)| shrunk(q, index, n)).contains(p));
    assert(p.0 <= k2 < p.1);
    assert(ranges_removed(s, index, n).contains(p));
}


/// Whether flags `x` set every flag that `f` sets.
pub open spec fn flags_cover(x: Seq<bool>, f: Seq<bool>) -> bool {
    forall|i: int| 0 <= i < f.len() && #[trigger] f[i] ==> i < x.len() && x[i]
}

proof fn lemma_needs_merge_iff_not_covered(x: Seq<bool>, f: Seq<bool>)
    ensures
        needs_merge(x, f) == !flags_cover(x, f),
{
    if needs_merge(x, f) {
        let i = choose|i: int| 0 <= i < f.len() && f[i] && (i >= x.len() || !x[i]);
        assert(!(i < x.len() && x[i]));
    }
    if !flags_cover(x, f) {
        let i = choose|i: int| 0 <= i < f.len() && f[i] && !(i < x.len() && x[i]);
        assert(0 <= i < f.len() && f[i] && (i >= x.len() || !x[i]));
    }
}

proof fn lemma_or_flags_cover(x: Seq<bool>, f: Seq<bool>)
    ensures
        flags_cover(or_flags(x, f), f),
        flags_cover(or_flags(x, f), x),
        or_flags(x, f).len() >= x.len(),
{
}

/// The merged flags of an informative axis set every flag of both sides.
proof fn lemma_merged_flags_cover(t: Map<usize, Seq<bool>>, f: Map<usize, Seq<bool>>, k: usize)
    requires
        informative(f, k),
    ensures
        flags_cover(merged_flags(t, f, k), f[k]),
        t.contains_key(k) ==> flags_cover(merged_flags(t, f, k), t[k]),
{
    if t.contains_key(k) {
        lemma_needs_merge_iff_not_covered(t[k], f[k]);
        lemma_or_flags_cover(t[k], f[k]);
    }
}

/// A merge of zero regions changes them exactly when it reports a change.
proof fn lemma_zeros_change_iff_changed(t: Map<usize, Seq<bool>>, f: Map<usize, Seq<bool>>)
    ensures
        zeros_change(t, f) == (merged_zeros(t, f) != t),
{
    let m = merged_zeros(t, f);
    if zeros_change(t, f) {
        let k = choose|k: usize|
            f.dom().contains(k) && informative(f, k) && (!t.contains_key(k) || needs_merge(
                t[k],
                f[k],
            ));
        assert(m.contains_key(k));
        if t.contains_key(k) {
            assert(m[k] == or_flags(t[k], f[k]));
            let i = choose|i: int| 0 <= i < f[k].len() && f[k][i] && (i >= t[k].len() || !t[k][i]);
            assert(m[k][i]);
            if i < t[k].len() {
                assert(m[k][i] != t[k][i]);
            } else {
                assert(m[k].len() != t[k].len());
            }
            assert(m[k] != t[k]);
        }
        assert(m != t);
    } else {
        assert forall|k: usize| #[trigger] m.contains_key(k) implies t.contains_key(k) && m[k] == t[k] by {
            if f.dom().contains(k) && informative(f, k) {
                assert(!(!t.contains_key(k) || needs_merge(t[k], f[k])));
            }
        }
        assert(m =~= t);
    }
}

/// `merge` reports a change exactly when it changes the value it merges
/// into.
pub proof fn lemma_merge_reports_change(to: DataView, from: DataView)
    requires
        can_merge(to, from),
    ensures
        merge_result(to, from).1 == (merge_result(to, from).0 != to),
{
    match (to, from) {
        (DataView::AccessPattern(a), DataView::AccessPattern(b)) => {
            lemma_zeros_change_iff_changed(a.zero_regions, b.zero_regions);
            let m = merged_zeros(a.zero_regions, b.zero_regions);
            if m != a.zero_regions {
                assert(AccessView { zero_regions: m, ..a } != a);
            }
        },
        _ => {},
    }
}

/// Merging the same value twice changes nothing the second time.
pub proof fn lemma_merge_is_idempotent(to: DataView, from: DataView)
    requires
        can_merge(to, from),
    ensures
        can_merge(merge_result(to, from).0, from),
        merge_result(merge_result(to, from).0, from) == (merge_result(to, from).0, false),
{
    match (to, from) {
        (DataView::AccessPattern(a), DataView::AccessPattern(b)) => {
            let t = a.zero_regions;
            let f = b.zero_regions;
            let m = merged_zeros(t, f);
            assert(!zeros_change(m, f)) by {
                if zeros_change(m, f) {
                    let k = choose|k: usize|
                        f.dom().contains(k) && informative(f, k) && (!m.contains_key(k)
                            || needs_merge(m[k], f[k]));
                    assert(m.contains_key(k));
                    assert(m[k] == merged_flags(t, f, k));
                    lemma_merged_flags_cover(t, f, k);
                    lemma_needs_merge_iff_not_covered(m[k], f[k]);
                }
            }
            lemma_zeros_change_iff_changed(m, f);
        },
        _ => {},
    }
}

/// Merging only adds to what is known of the zero regions: every flag set
/// in `to` stays set, and every flag set in an axis of `from` becomes set.
pub proof fn lemma_merge_keeps_and_adds_flags(a: AccessView, b: AccessView, k: usize, i: int)
    requires
        a.shape == b.shape,
        a.item_shape == b.item_shape,
    ensures
        ({
            let m = merged_zeros(a.zero_regions, b.zero_regions);
            &&& a.zero_regions.contains_key(k) && 0 <= i < a.zero_regions[k].len()
                && a.zero_regions[k][i] ==> m.contains_key(k) && i < m[k].len() && m[k][i]
            &&& b.zero_regions.contains_key(k) && 0 <= i < b.zero_regions[k].len()
                && b.zero_regions[k][i] ==> m.contains_key(k) && i < m[k].len() && m[k][i]
        }),
{
    let t = a.zero_regions;
    let f = b.zero_regions;
    if f.contains_key(k) && 0 <= i < f[k].len() && f[k][i] {
        assert(any_set(f[k]));
        lemma_merged_flags_cover(t, f, k);
    }
    if t.contains_key(k) && informative(f, k) {
        lemma_merged_flags_cover(t, f, k);
    }
}

/// Zero padding an axis of length `orig` whose flags reach no further than
/// it: the `before` elements in front and the `after` elements at the end
/// are marked zero, and the flags of the elements already there move up by
/// `before`.
pub proof fn lemma_zero_padding_marks_padding(f: Seq<bool>, orig: usize, before: usize, after: usize)
    requires
        f.len() <= orig,
        orig + after <= usize::MAX,
    ensures
        padded_flags(f, orig, before, after).len() == before + orig + after,
        bools_cover(padded_flags(f, orig, before, after), 0, before as int),
        bools_cover(
            padded_flags(f, orig, before, after),
            before + orig,
            before + orig + after,
        ),
        forall|i: int|
            0 <= i < orig ==> #[trigger] padded_flags(f, orig, before, after)[before + i] == (i
                < f.len() && f[i]),
{
    let f1 = bools_inserted(f, orig as int, after as nat);
    let f2 = bools_added(f1, orig as int, orig + after);
    let f3 = bools_inserted(f2, 0, before as nat);
    let p = bools_added(f3, 0, before as int);
    assert(f1.len() == orig + after);
    assert(forall|i: int| 0 <= i < orig ==> #[trigger] f1[i] == (i < f.len() && f[i]));
    assert(f2.len() == orig + after);
    assert(forall|i: int| 0 <= i < orig ==> #[trigger] f2[i] == (i < f.len() && f[i]));
    assert(forall|i: int| orig <= i < orig + after ==> #[trigger] f2[i]);
    assert(pad_to(f2, 0) == f2);
    assert(f3.len() == before + orig + after);
    assert(forall|i: int| 0 <= i < f2.len() ==> #[trigger] f3[before + i] == f2[i]);
    assert(p.len() == before + orig + after);
    assert forall|i: int| 0 <= i < orig implies #[trigger] p[before + i] == (i < f.len() && f[i]) by {
        assert(f3[before + i] == f2[i]);
    }
    assert forall|j: int| before + orig <= j < before + orig + after implies #[trigger] p[j] by {
        assert(f3[before + (j - before)] == f2[j - before]);
    }
}


/// Removing an axis just inserted into a shape gives back the shape.
pub proof fn lemma_shape_remove_undoes_insert(s: Seq<usize>, d: usize)
    requires
        d <= s.len(),
    ensures
        shape_insert_axis_result(DataView::Shape(s), DataView::Usize(d)) == Some(
            DataView::Shape(s.insert(d as int, 1)),
        ),
        shape_remove_axis_result(DataView::Shape(s.insert(d as int, 1)), DataView::Usize(d))
            == Some(DataView::Shape(s)),
{
    assert(s.insert(d as int, 1).remove(d as int) =~= s);
}

/// Squeezing out an axis just inserted into an access gives back the
/// access, without its zero regions, which inserting an axis drops.
pub proof fn lemma_squeeze_undoes_insert_axis(a: AccessView, axis: usize)
    requires
        a.ndim_fits(),
        axis <= a.ndim(),
    ensures
        ({
            let inserted = access_insert_axis_result(DataView::AccessPattern(a), DataView::Usize(axis));
            &&& inserted is Some
            &&& access_squeeze_result(inserted->0, DataView::Usize(axis)) == Some(
                DataView::AccessPattern(a.forget_zeros()),
            )
        }),
{
    let n = a.shape.len();
    if axis <= n {
        assert(a.shape.insert(axis as int, 1).remove(axis as int) =~= a.shape);
    } else {
        assert(a.item_shape.insert(axis - n, 1).remove(axis - n) =~= a.item_shape);
    }
}

/// Accessing an access at another dimension splits the same dimensions
/// there: what `access` gives depends only on the dimensions it is given.
pub proof fn lemma_reaccess(a: AccessView, d1: usize, d2: usize)
    requires
        d1 <= a.dims().len(),
        d2 <= a.dims().len(),
    ensures
        access_result(DataView::AccessPattern(a), DataView::Usize(d1)) is Some,
        access_result(
            access_result(DataView::AccessPattern(a), DataView::Usize(d1))->0,
            DataView::Usize(d2),
        ) == access_result(DataView::AccessPattern(a), DataView::Usize(d2)),
{
    let b = plain_access(a.dims().take(d1 as int), a.dims().skip(d1 as int));
    assert(b.dims() =~= a.dims());
}


/// The product of `s`, in the integers.
pub open spec fn int_product(s: Seq<usize>) -> int
    decreases s.len(),
{
    if s.len() == 0 {
        1
    } else {
        int_product(s.drop_last()) * s.last()
    }
}

/// A product computed without overflow is the product in the integers.
proof fn lemma_checked_product_is_product(s: Seq<usize>)
    ensures
        checked_product(s) is Some ==> checked_product(s)->0 == int_product(s),
    decreases s.len(),
{
    if s.len() > 0 {
        lemma_checked_product_is_product(s.drop_last());
    }
}

/// The product of two joined lists is the product of their products.
proof fn lemma_int_product_concat(a: Seq<usize>, b: Seq<usize>)
    ensures
        int_product(a + b) == int_product(a) * int_product(b),
    decreases b.len(),
{
    if b.len() == 0 {
        assert(a + b =~= a);
    } else {
        lemma_int_product_concat(a, b.drop_last());
        assert((a + b).drop_last() =~= a + b.drop_last());
        let x = int_product(a);
        let y = int_product(b.drop_last());
        let z = b.last() as int;
        assert(x * y * z == x * (y * z)) by (nonlinear_arith);
    }
}

/// The element counts of a cartesian product agree whenever every product
/// is computed without overflow: the count check never fails by itself.
pub proof fn lemma_cartesian_counts_agree(a0: AccessView, a1: AccessView)
    requires
        checked_product(a0.shape + a1.shape) is Some,
        checked_product(seq![2usize] + a0.item_shape) is Some,
        checked_product(a0.shape) is Some,
        checked_product(a1.shape) is Some,
        checked_product(a0.item_shape) is Some,
    ensures
        checked_product(a0.shape + a1.shape)->0 * checked_product(seq![2usize] + a0.item_shape)->0
            == checked_product(a0.shape)->0 * checked_product(a1.shape)->0 * 2
            * checked_product(a0.item_shape)->0,
{
    lemma_checked_product_is_product(a0.shape + a1.shape);
    lemma_checked_product_is_product(seq![2usize] + a0.item_shape);
    lemma_checked_product_is_product(a0.shape);
    lemma_checked_product_is_product(a1.shape);
    lemma_checked_product_is_product(a0.item_shape);
    lemma_int_product_concat(a0.shape, a1.shape);
    lemma_int_product_concat(seq![2usize], a0.item_shape);
    assert(int_product(seq![2usize]) == 2) by {
        let two = seq![2usize];
        assert(two.drop_last() =~= Seq::<usize>::empty());
        assert(int_product(two.drop_last()) == 1);
        assert(two.last() == 2);
    }
    let x = int_product(a0.shape);
    let y = int_product(a1.shape);
    let w = int_product(a0.item_shape);
    assert((x * y) * (2 * w) == x * y * 2 * w) by (nonlinear_arith);
}


/// Preserving ranges folds elements inserted inside a range (or at its
/// ends) into it: the range then covers them.
pub proof fn lemma_preserved_range_folds_in(s: Set<(usize, usize)>, q: (usize, usize), index: usize, n: usize)
    requires
        s.contains(q),
        q.0 <= index <= q.1,
        q.1 + n <= usize::MAX,
    ensures
        ranges_inserted(s, RangeInsertStrategy::PreserveRanges, index, n).contains(
            ((q.0, (q.1 + n) as usize)),
        ),
        ranges_cover(
            ranges_inserted(s, RangeInsertStrategy::PreserveRanges, index, n),
            index as int,
            index + n,
        ),
{
    let t = ranges_inserted(s, RangeInsertStrategy::PreserveRanges, index, n);
    let p = preserved(q, index, n);
    assert(s.map(|q: (usize, usize)| preserved(q, index, n)).contains(p));
    assert(p == (q.0, (q.1 + n) as usize));
    assert forall|k: int| index <= k < index + n implies #[trigger] in_some_range(t, k) by {
        assert(t.contains(p) && p.0 <= k < p.1);
    }
}

/// Breaking ranges splits a range that elements are inserted inside: its
/// part before the insertion point stays, and its part after moves up by
/// `n`.
pub proof fn lemma_broken_range_splits(s: Set<(usize, usize)>, q: (usize, usize), index: usize, n: usize)
    requires
        s.contains(q),
        q.0 < index < q.1,
        q.1 + n <= usize::MAX,
    ensures
        ranges_inserted(s, RangeInsertStrategy::BreakRanges, index, n).contains((q.0, index)),
        ranges_inserted(s, RangeInsertStrategy::BreakRanges, index, n).contains(
            (((index + n) as usize, (q.1 + n) as usize)),
        ),
{
    assert(s.map(|q: (usize, usize)| broken_first(q, index, n)).contains(broken_first(q, index, n)));
    assert(s.filter(|q: (usize, usize)| splits(q, index)).contains(q));
    assert(s.filter(|q: (usize, usize)| splits(q, index)).map(
        |q: (usize, usize)| broken_second(q, index, n),
    ).contains(broken_second(q, index, n)));
}


/// A cartesian product knows an item element to be zero exactly where both
/// operands know the matching element of the same item dimension to be
/// zero: lane `d` of the product sits on axis `n0 + n1 + 1 + d`.
pub proof fn lemma_product_zeros_need_both(
    z0: Map<usize, Seq<bool>>,
    z1: Map<usize, Seq<bool>>,
    n0: usize,
    n1: usize,
    m: usize,
    d: usize,
    i: int,
)
    requires
        d < m,
        n0 + n1 + 1 + d <= usize::MAX,
        product_zeros(z0, z1, n0 as int, n1 as int, m as int).contains_key(
            (n0 + n1 + 1 + d) as usize,
        ),
    ensures
        ({
            let f = product_zeros(z0, z1, n0 as int, n1 as int, m as int)[(n0 + n1 + 1 + d) as usize];
            &&& z0.contains_key((n0 + d) as usize)
            &&& z1.contains_key((n1 + d) as usize)
            &&& 0 <= i < f.len() ==> (f[i] <==> z0[(n0 + d) as usize][i] && z1[(n1 + d) as usize][i])
        }),
{
}


/// Two values can be merged exactly when they are access patterns of the
/// same dimensions, literals that stand for the same number, or otherwise
/// equal; two values that are not both access patterns merge without
/// change.
pub proof fn lemma_merge_needs_agreement(to: DataView, from: DataView)
    ensures
        (to is AccessPattern && from is AccessPattern) ==> can_merge(to, from) == (
        to->AccessPattern_0.shape == from->AccessPattern_0.shape
            && to->AccessPattern_0.item_shape == from->AccessPattern_0.item_shape),
        (to is Literal && from is Literal) ==> can_merge(to, from) == (decimal_form(
            to->Literal_0,
        ) == decimal_form(from->Literal_0)),
        !(to is AccessPattern && from is AccessPattern) && !(to is Literal && from is Literal)
            ==> can_merge(to, from) == (to == from),
        !(to is AccessPattern && from is AccessPattern) && can_merge(to, from) ==> merge_result(
            to,
            from,
        ) == (to, false),
{
}


/// Breaking ranges moves coverage exactly with the elements: after `n`
/// elements are inserted at `index`, a position before `index` is covered
/// as it was, the inserted positions are not covered, and a position at or
/// after `index + n` is covered as the position `n` lower was.
pub proof fn lemma_broken_cover_is_shifted(s: Set<(usize, usize)>, index: usize, n: usize, p: int)
    requires
        forall|q: (usize, usize)|
            #[trigger] s.contains(q) ==> q.0 <= q.1 && (shifts_end(
                RangeInsertStrategy::BreakRanges,
                q,
                index,
            ) ==> q.1 + n <= usize::MAX),
    ensures
        in_some_range(ranges_inserted(s, RangeInsertStrategy::BreakRanges, index, n), p) == (
        (p < index && in_some_range(s, p)) || (p >= index + n && in_some_range(s, p - n))),
{
    let t = ranges_inserted(s, RangeInsertStrategy::BreakRanges, index, n);
    let first = s.map(|q: (usize, usize)| broken_first(q, index, n));
    let split = s.filter(|q: (usize, usize)| splits(q, index));
    let seconds = split.map(|q: (usize, usize)| broken_second(q, index, n));
    if in_some_range(t, p) {
        let r = choose|r: (usize, usize)| #[trigger] t.contains(r) && r.0 <= p < r.1;
        if first.contains(r) {
            let q = choose|q: (usize, usize)| s.contains(q) && broken_first(q, index, n) == r;
            if index <= q.0 {
                assert(s.contains(q) && q.0 <= p - n < q.1);
            } else {
                assert(s.contains(q) && q.0 <= p < q.1);
            }
        } else {
            assert(seconds.contains(r));
            let q = choose|q: (usize, usize)| split.contains(q) && broken_second(q, index, n) == r;
            assert(s.contains(q) && q.0 <= p - n < q.1);
        }
    }
    if p < index && in_some_range(s, p) {
        lemma_inserted_ranges_move_cover(s, RangeInsertStrategy::BreakRanges, index, n, p);
    }
    if p >= index + n && in_some_range(s, p - n) {
        lemma_inserted_ranges_move_cover(s, RangeInsertStrategy::BreakRanges, index, n, p - n);
    }
}

/// Removing elements moves coverage exactly with the elements: after `n`
/// elements are removed at `index`, a position before `index` is covered as
/// it was, and a position at or after `index` is covered as the position
/// `n` higher was.
pub proof fn lemma_removed_cover_is_shifted(s: Set<(usize, usize)>, index: usize, n: usize, p: int)
    ensures
        in_some_range(ranges_removed(s, index, n), p) == ((p < index && in_some_range(s, p)) || (p
            >= index && in_some_range(s, p + n))),
{
    let t = ranges_removed(s, index, n);
    let m = s.map(|q: (usize, usize)| shrunk(q, index, n));
    if in_some_range(t, p) {
        let r = choose|r: (usize, usize)| #[trigger] t.contains(r) && r.0 <= p < r.1;
        assert(m.contains(r));
        let q = choose|q: (usize, usize)| s.contains(q) && shrunk(q, index, n) == r;
        if p < index {
            assert(s.contains(q) && q.0 <= p < q.1);
        } else {
            assert(s.contains(q) && q.0 <= p + n < q.1);
        }
    }
    if p < index && in_some_range(s, p) {
        lemma_removed_ranges_move_cover(s, index, n, p);
    }
    if p >= index && in_some_range(s, p + n) {
        lemma_removed_ranges_move_cover(s, index, n, p + n);
    }
}

/// Removing the elements just inserted gives back what was there: with
/// ranges kept whole, exactly the nonempty ranges; with ranges broken,
/// exactly the same coverage.
pub proof fn lemma_remove_undoes_insert_ranges(
    s: Set<(usize, usize)>,
    strategy: RangeInsertStrategy,
    index: usize,
    n: usize,
    p: int,
)
    requires
        forall|q: (usize, usize)|
            #[trigger] s.contains(q) ==> q.0 <= q.1 && (shifts_end(strategy, q, index) ==> q.1 + n
                <= usize::MAX),
    ensures
        strategy == RangeInsertStrategy::PreserveRanges ==> ranges_removed(
            ranges_inserted(s, strategy, index, n),
            index,
            n,
        ) == s.filter(|q: (usize, usize)| q.0 < q.1),
        in_some_range(ranges_removed(ranges_inserted(s, strategy, index, n), index, n), p)
            == in_some_range(s, p),
{
    let mid = ranges_inserted(s, strategy, index, n);
    let back = ranges_removed(mid, index, n);
    match strategy {
        RangeInsertStrategy::PreserveRanges => {
            let kept = s.filter(|q: (usize, usize)| q.0 < q.1);
            assert forall|q: (usize, usize)| s.contains(q) implies shrunk(
                preserved(q, index, n),
                index,
                n,
            ) == q by {}
            assert forall|x: (usize, usize)| back.contains(x) implies kept.contains(x) by {
                let y = choose|y: (usize, usize)| mid.contains(y) && shrunk(y, index, n) == x;
                let q = choose|q: (usize, usize)| s.contains(q) && preserved(q, index, n) == y;
            }
            assert forall|x: (usize, usize)| kept.contains(x) implies back.contains(x) by {
                let y = preserved(x, index, n);
                assert(s.map(|q: (usize, usize)| preserved(q, index, n)).contains(y));
                assert(mid.map(|q: (usize, usize)| shrunk(q, index, n)).contains(shrunk(y, index, n)));
            }
            assert(back =~= kept);
            if in_some_range(s, p) {
                let q = choose|q: (usize, usize)| #[trigger] s.contains(q) && q.0 <= p < q.1;
                assert(kept.contains(q));
            }
            if in_some_range(back, p) {
                let q = choose|q: (usize, usize)| #[trigger] back.contains(q) && q.0 <= p < q.1;
                assert(s.contains(q));
            }
        },
        RangeInsertStrategy::BreakRanges => {
            lemma_removed_cover_is_shifted(mid, index, n, p);
            if p < index {
                lemma_broken_cover_is_shifted(s, index, n, p);
            } else {
                lemma_broken_cover_is_shifted(s, index, n, p + n);
            }
        },
    }
}


/// A transpose is accepted exactly when its list names every dimension
/// once, and then the dimensions are those the list picks, split as before,
/// with each axis's zero regions carried to its new place.
pub proof fn lemma_transpose_is_a_permutation(a: AccessView, l: Seq<usize>)
    ensures
        access_transpose_result(DataView::AccessPattern(a), DataView::List(l)) is Some <==> (
        a.ndim_fits() && l.len() == a.ndim() && (forall|j: int|
            0 <= j < l.len() ==> #[trigger] l[j] < a.ndim()) && l.no_duplicates()),
        access_transpose_result(DataView::AccessPattern(a), DataView::List(l)) is Some ==> ({
            let r = access_transpose_result(DataView::AccessPattern(a), DataView::List(l))->0->AccessPattern_0;
            &&& r.dims() == l.map_values(|k: usize| a.dims()[k as int])
            &&& r.shape.len() == a.shape.len()
            &&& r.zero_regions == transposed_zeros(a.zero_regions, l)
        }),
{
    if access_transpose_result(DataView::AccessPattern(a), DataView::List(l)) is Some {
        let new = l.map_values(|k: usize| a.dims()[k as int]);
        assert(new.take(a.shape.len() as int) + new.skip(a.shape.len() as int) =~= new);
    }
}

/// `n` set flags.
pub open spec fn trues(n: nat) -> Seq<bool> {
    Seq::new(n, |i: int| true)
}

/// Zero padding, where the flags reach no further than the axis: the
/// padded flags are `before` set flags, the old flags, unset flags up to
/// the old length, then `after` set flags.
pub proof fn lemma_zero_padding_flags(f: Seq<bool>, orig: usize, before: usize, after: usize)
    requires
        f.len() <= orig,
        orig + after <= usize::MAX,
    ensures
        padded_flags(f, orig, before, after) == trues(before as nat) + f + crate::range_set::falses(
            (orig - f.len()) as nat,
        ) + trues(after as nat),
{
    lemma_zero_padding_marks_padding(f, orig, before, after);
    let p = padded_flags(f, orig, before, after);
    let q = trues(before as nat) + f + crate::range_set::falses((orig - f.len()) as nat) + trues(
        after as nat,
    );
    assert forall|k: int| 0 <= k < p.len() implies p[k] == q[k] by {
        if k < before {
            assert(bools_cover(p, 0, before as int));
        } else if k < before + orig {
            assert(p[before + (k - before)] == (k - before < f.len() && f[k - before]));
        } else {
            assert(bools_cover(p, before + orig, before + orig + after));
        }
    }
    assert(p =~= q);
}

/// Inserting elements is refused while some range ends before it starts.
pub proof fn lemma_insert_needs_ordered_ranges(
    r: &RangeHashSet,
    strategy: RangeInsertStrategy,
    index: usize,
    n: usize,
    q: (usize, usize),
)
    requires
        r@.contains(q),
        q.0 > q.1,
    ensures
        !r.can_insert(strategy, index, n),
{
}

/// Windows fit only with one filter and one stride per dimension, no filter
/// longer than its dimension, and no zero stride.
pub proof fn lemma_windows_need_fit(dims: Seq<usize>, filters: Seq<usize>, strides: Seq<usize>, i: int)
    requires
        0 <= i < dims.len(),
        dims.len() == strides.len() && filters.len() == strides.len() ==> dims[i] < filters[i]
            || strides[i] == 0,
    ensures
        !windows_fit(dims, filters, strides),
{
    if dims.len() == strides.len() && filters.len() == strides.len() {
        assert(!(dims[i] >= filters[i] && window_count(dims[i] as int, filters[i] as int, strides[i] as int) is Some));
    }
}


/// Moving axis `src` to `dest` swaps the two dimensions and leaves the
/// others where they were.
pub proof fn lemma_move_axis_swaps(s: Seq<usize>, src: usize, dest: usize)
    requires
        src < s.len(),
        dest < s.len(),
    ensures
        move_axis_result(DataView::Shape(s), DataView::Usize(src), DataView::Usize(dest)) is Some,
        ({
            let r = move_axis_result(DataView::Shape(s), DataView::Usize(src), DataView::Usize(dest))->0->Shape_0;
            &&& r.len() == s.len()
            &&& r[dest as int] == s[src as int]
            &&& r[src as int] == s[dest as int]
            &&& forall|i: int| 0 <= i < s.len() && i != src && i != dest ==> r[i] == s[i]
        }),
{
}

/// Concatenating two accesses along an axis: that axis's length is the sum
/// of both operands' lengths, and every other dimension, and the split into
/// shape and item shape, is the first operand's.
pub proof fn lemma_concatenate_adds_lengths(a0: AccessView, a1: AccessView, axis: usize)
    requires
        a0.shape.len() == a1.shape.len(),
        a0.item_shape.len() == a1.item_shape.len(),
        a1.ndim_fits(),
        axis < a1.ndim(),
        a0.dims()[axis as int] + a1.dims()[axis as int] <= usize::MAX,
    ensures
        access_concatenate_result(
            DataView::AccessPattern(a0),
            DataView::AccessPattern(a1),
            DataView::Usize(axis),
        ) is Some,
        ({
            let r = access_concatenate_result(
                DataView::AccessPattern(a0),
                DataView::AccessPattern(a1),
                DataView::Usize(axis),
            )->0->AccessPattern_0;
            &&& r.shape.len() == a0.shape.len()
            &&& r.item_shape.len() == a0.item_shape.len()
            &&& r.dims()[axis as int] == a0.dims()[axis as int] + a1.dims()[axis as int]
            &&& forall|i: int| 0 <= i < a0.ndim() && i != axis ==> r.dims()[i] == a0.dims()[i]
            &&& r.zero_regions == Map::<usize, Seq<bool>>::empty()
        }),
{
    let r = access_concatenate_result(
        DataView::AccessPattern(a0),
        DataView::AccessPattern(a1),
        DataView::Usize(axis),
    )->0->AccessPattern_0;
    assert forall|i: int| 0 <= i < a0.ndim() && i != axis implies r.dims()[i] == a0.dims()[i] by {
        if i < a0.shape.len() {
            assert(r.dims()[i] == r.shape[i]);
        } else {
            assert(r.dims()[i] == r.item_shape[i - a0.shape.len()]);
        }
    }
    if axis < a0.shape.len() {
        assert(r.dims()[axis as int] == r.shape[axis as int]);
    } else {
        assert(r.dims()[axis as int] == r.item_shape[axis - a0.shape.len()]);
    }
}

/// The number of window positions along a padded dimension of length
/// `len`, with `before` and `after` padding, a window of length `k` and
/// stride `stride`: `(before + len + after - (k - 1) + stride - 1) / stride`.
pub open spec fn padded_positions(before: int, len: int, after: int, k: int, stride: int) -> int {
    (before + len + after - (k - 1) + stride - 1) / stride
}

/// The window count of a padded dimension that fits in a `usize` is a
/// `usize` itself, no more than the padded length.
pub(crate) proof fn lemma_padded_positions_fit(before: int, len: int, after: int, k: int, stride: int)
    requires
        before >= 0,
        len >= 0,
        after >= 0,
        k >= 1,
        stride >= 1,
        before + len + after + 1 >= k,
    ensures
        0 <= padded_positions(before, len, after, k, stride) <= before + len + after - (k - 1) + stride - 1,
{
    let n = before + len + after - (k - 1) + stride - 1;
    assert(n >= 0);
    vstd::arithmetic::div_mod::lemma_div_is_ordered_by_denominator(n, 1, stride);
    vstd::arithmetic::div_mod::lemma_div_pos_is_pos(n, stride);
}

/// NCHW max and average pooling: the height is padded by `padding[0]` above
/// and `padding[2]` below and pooled by `pool[0]` with stride `strides[0]`;
/// the width is padded by `padding[1]` on the left and `padding[3]` on the
/// right and pooled by `pool[1]` with stride `strides[1]`; the batch and
/// channel dimensions stay.
pub proof fn lemma_pool_nchw(
    op: RelayOperator,
    a: AccessView,
    pool: Seq<usize>,
    strides: Seq<usize>,
    padding: Seq<usize>,
)
    requires
        op == RelayOperator::RelayMaxPool2D || op == RelayOperator::RelayAvgPool2D,
        a.ndim_fits(),
        a.ndim() == 4,
        pool.len() == 2,
        strides.len() == 2,
        padding.len() == 4,
        pool[0] >= 1,
        pool[1] >= 1,
        strides[0] >= 1,
        strides[1] >= 1,
        padding[0] + a.dims()[2] + padding[2] + strides[0] <= usize::MAX,
        padding[1] + a.dims()[3] + padding[3] + strides[1] <= usize::MAX,
        padding[0] + a.dims()[2] + padding[2] + 1 >= pool[0],
        padding[1] + a.dims()[3] + padding[3] + 1 >= pool[1],
    ensures
        ({
            let r = relay_op_result(
                op,
                seq![
                    DataView::AccessPattern(a),
                    DataView::Shape(pool),
                    DataView::Shape(strides),
                    DataView::Shape(padding),
                    DataView::RelayActivationLayout(RelayActivationLayout::NCHW),
                ],
            );
            &&& r is Some
            &&& r->0->AccessPattern_0.dims().len() == 4
            &&& r->0->AccessPattern_0.shape.len() == a.shape.len()
            &&& r->0->AccessPattern_0.dims()[0] == a.dims()[0]
            &&& r->0->AccessPattern_0.dims()[1] == a.dims()[1]
            &&& r->0->AccessPattern_0.dims()[2] == padded_positions(
                padding[0] as int,
                a.dims()[2] as int,
                padding[2] as int,
                pool[0] as int,
                strides[0] as int,
            )
            &&& r->0->AccessPattern_0.dims()[3] == padded_positions(
                padding[1] as int,
                a.dims()[3] as int,
                padding[3] as int,
                pool[1] as int,
                strides[1] as int,
            )
        }),
{
    let h = pooled_length(padding[0], a.dims()[2], padding[2], pool[0], strides[0]);
    let w = pooled_length(padding[1], a.dims()[3], padding[3], pool[1], strides[1]);
    lemma_padded_positions_fit(padding[0] as int, a.dims()[2] as int, padding[2] as int, pool[0] as int, strides[0] as int);
    lemma_padded_positions_fit(padding[1] as int, a.dims()[3] as int, padding[3] as int, pool[1] as int, strides[1] as int);
    lemma_with_dims_4(a.forget_zeros(), 2, 3, h->0, w->0);
}

/// NHWC max and average pooling: as for NCHW, with the height at dimension
/// 1 and the width at dimension 2; the batch and channel dimensions stay.
pub proof fn lemma_pool_nhwc(
    op: RelayOperator,
    a: AccessView,
    pool: Seq<usize>,
    strides: Seq<usize>,
    padding: Seq<usize>,
)
    requires
        op == RelayOperator::RelayMaxPool2D || op == RelayOperator::RelayAvgPool2D,
        a.ndim_fits(),
        a.ndim() == 4,
        pool.len() == 2,
        strides.len() == 2,
        padding.len() == 4,
        pool[0] >= 1,
        pool[1] >= 1,
        strides[0] >= 1,
        strides[1] >= 1,
        padding[0] + a.dims()[1] + padding[2] + strides[0] <= usize::MAX,
        padding[1] + a.dims()[2] + padding[3] + strides[1] <= usize::MAX,
        padding[0] + a.dims()[1] + padding[2] + 1 >= pool[0],
        padding[1] + a.dims()[2] + padding[3] + 1 >= pool[1],
    ensures
        ({
            let r = relay_op_result(
                op,
                seq![
                    DataView::AccessPattern(a),
                    DataView::Shape(pool),
                    DataView::Shape(strides),
                    DataView::Shape(padding),
                    DataView::RelayActivationLayout(RelayActivationLayout::NHWC),
                ],
            );
            &&& r is Some
            &&& r->0->AccessPattern_0.dims().len() == 4
            &&& r->0->AccessPattern_0.shape.len() == a.shape.len()
            &&& r->0->AccessPattern_0.dims()[0] == a.dims()[0]
            &&& r->0->AccessPattern_0.dims()[3] == a.dims()[3]
            &&& r->0->AccessPattern_0.dims()[1] == padded_positions(
                padding[0] as int,
                a.dims()[1] as int,
                padding[2] as int,
                pool[0] as int,
                strides[0] as int,
            )
            &&& r->0->AccessPattern_0.dims()[2] == padded_positions(
                padding[1] as int,
                a.dims()[2] as int,
                padding[3] as int,
                pool[1] as int,
                strides[1] as int,
            )
        }),
{
    let h = pooled_length(padding[0], a.dims()[1], padding[2], pool[0], strides[0]);
    let w = pooled_length(padding[1], a.dims()[2], padding[3], pool[1], strides[1]);
    lemma_padded_positions_fit(padding[0] as int, a.dims()[1] as int, padding[2] as int, pool[0] as int, strides[0] as int);
    lemma_padded_positions_fit(padding[1] as int, a.dims()[2] as int, padding[3] as int, pool[1] as int, strides[1] as int);
    lemma_with_dims_4(a.forget_zeros(), 1, 2, h->0, w->0);
}

/// Setting two dimensions of a four-dimensional access sets those two and
/// keeps the other two and the split into shape and item shape.
proof fn lemma_with_dims_4(a: AccessView, i: int, j: int, x: usize, y: usize)
    requires
        a.ndim() == 4,
        0 <= i < j < 4,
    ensures
        ({
            let r = crate::access_ops::with_dim(crate::access_ops::with_dim(a, i, x), j, y);
            &&& r.dims().len() == 4
            &&& r.shape.len() == a.shape.len()
            &&& r.dims()[i] == x
            &&& r.dims()[j] == y
            &&& forall|k: int| 0 <= k < 4 && k != i && k != j ==> r.dims()[k] == a.dims()[k]
        }),
{
    let b = crate::access_ops::with_dim(a, i, x);
    let r = crate::access_ops::with_dim(b, j, y);
    assert(b.dims() =~= a.dims().update(i, x));
    assert(r.dims() =~= b.dims().update(j, y));
}

/// A systolic array multiplying `[m, k]` (or a vector `[k]`) by `[k', n]`
/// gives `[m, n]` (or `[n]`): the left operand without its last dimension,
/// then the right operand's last dimension.
pub proof fn lemma_bsg_systolic_array_shape(rows: usize, cols: usize, l: Seq<usize>, r: Seq<usize>)
    requires
        l.len() == 1 || l.len() == 2,
        r.len() == 2,
    ensures
        ({
            let out = bsg_systolic_array_result(
                DataView::Usize(rows),
                DataView::Usize(cols),
                DataView::Shape(l),
                DataView::Shape(r),
            );
            &&& out is Some
            &&& l.len() == 2 ==> out->0 == DataView::Shape(seq![l[0], r[1]])
            &&& l.len() == 1 ==> out->0 == DataView::Shape(seq![r[1]])
        }),
{
    if l.len() == 2 {
        assert(l.drop_last() + r.skip(1) =~= seq![l[0], r[1]]);
    } else {
        assert(l.drop_last() + r.skip(1) =~= seq![r[1]]);
    }
}

/// A map of dot products over shape `[a.., 2, c]` consumes both the pair
/// axis and the vector axis: the result is `[a..]`, two dimensions shorter.
pub proof fn lemma_map_dot_product_drops_two(s: Seq<usize>)
    requires
        s.len() >= 3,
        s[s.len() - 2] == 2,
    ensures
        ({
            let out = map_dot_product_result(DataView::Shape(s));
            &&& out is Some
            &&& out->0->Shape_0.len() + 2 == s.len()
            &&& forall|i: int| 0 <= i < s.len() - 2 ==> out->0->Shape_0[i] == s[i]
        }),
{
}

} // verus!
