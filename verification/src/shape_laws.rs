//! What each shape operator does to the dimensions it is given, stated
//! dimension by dimension: which axis changes, to what, and which stay.
use crate::access_ops::{
    access_broadcast_result, access_cartesian_product_result, access_flatten_result,
    access_pad_result, access_pair_result, access_reshape_result, access_result,
    access_shift_right_result, access_slice_result, access_windows_result, compute_result,
    systolic_array_result, systolic_array_with_blocking_result, windows_fit,
};
use crate::data::{AccessView, DataView};
use crate::dims::checked_product;
use crate::laws::{lemma_padded_positions_fit, padded_positions};
use crate::operators::{ComputeType, PadType, RelayActivationLayout, RelayOperator};
use crate::relay_ops::{conv_result, relay_op_result};
use crate::tensor_ops::{
    cartesian_product_result, elementwise_add_result, slice_result, slice_shape_result,
};
use vstd::prelude::*;

verus! {

/// Slicing a tensor along `axis` from `low` to `high` leaves that axis
/// `high - low` long and every other axis as it was.
pub proof fn lemma_slice_cuts_axis(s: Seq<usize>, axis: usize, low: usize, high: usize)
    requires
        axis < s.len(),
        low < s[axis as int],
        low <= high <= s[axis as int],
    ensures
        ({
            let out = slice_result(
                DataView::Shape(s),
                DataView::Usize(axis),
                DataView::Usize(low),
                DataView::Usize(high),
            );
            &&& out is Some
            &&& out->0->Shape_0.len() == s.len()
            &&& out->0->Shape_0[axis as int] == high - low
            &&& forall|i: int| 0 <= i < s.len() && i != axis ==> out->0->Shape_0[i] == s[i]
        }),
{
}

/// The dimensions of a shape from `dim` on: `s.len() - dim` of them, the
/// first being `s[dim]`.
pub proof fn lemma_slice_shape_keeps_tail(s: Seq<usize>, dim: usize)
    requires
        dim <= s.len(),
    ensures
        ({
            let out = slice_shape_result(DataView::Shape(s), DataView::Usize(dim));
            &&& out is Some
            &&& out->0->Shape_0.len() == s.len() - dim
            &&& forall|i: int| 0 <= i < s.len() - dim ==> out->0->Shape_0[i] == s[dim + i]
        }),
{
}

/// The cartesian product of `[a.., c]` and `[b.., c]` is `[a.., b.., 2, c]`:
/// two dimensions more than the two operands' leading ones together.
pub proof fn lemma_cartesian_product_shape(l: Seq<usize>, r: Seq<usize>)
    requires
        1 <= l.len() <= 2,
        r.len() >= 1,
        l[l.len() - 1] == r[r.len() - 1],
    ensures
        ({
            let out = cartesian_product_result(DataView::Shape(l), DataView::Shape(r));
            let o = out->0->Shape_0;
            &&& out is Some
            &&& o.len() == l.len() + r.len()
            &&& forall|i: int| 0 <= i < l.len() - 1 ==> o[i] == l[i]
            &&& forall|j: int| 0 <= j < r.len() - 1 ==> o[l.len() - 1 + j] == r[j]
            &&& o[o.len() - 2] == 2
            &&& o[o.len() - 1] == r[r.len() - 1]
        }),
{
}

/// Adding two tensors of one shape gives that shape; tensors of different
/// shapes give nothing.
pub proof fn lemma_elementwise_add_needs_one_shape(s0: Seq<usize>, s1: Seq<usize>)
    ensures
        elementwise_add_result(DataView::Shape(s0), DataView::Shape(s1)) == if s0 == s1 {
            Some(DataView::Shape(s0))
        } else {
            None::<DataView>
        },
{
}

/// Accessing a tensor at `dim` keeps all its dimensions, the first `dim`
/// of them as the shape and the rest as the item shape.
pub proof fn lemma_access_splits_dims(a: AccessView, dim: usize)
    requires
        dim <= a.ndim(),
    ensures
        ({
            let out = access_result(DataView::AccessPattern(a), DataView::Usize(dim));
            let o = out->0->AccessPattern_0;
            &&& out is Some
            &&& o.dims() == a.dims()
            &&& o.shape.len() == dim
            &&& o.zero_regions == Map::<usize, Seq<bool>>::empty()
        }),
{
    let o = access_result(DataView::AccessPattern(a), DataView::Usize(dim))->0->AccessPattern_0;
    assert(o.dims() =~= a.dims());
}

/// Shifting right moves the last shape dimension to the front of the item
/// shape and keeps every dimension in its place.
pub proof fn lemma_shift_right_moves_last(a: AccessView)
    requires
        a.shape.len() >= 1,
    ensures
        ({
            let out = access_shift_right_result(DataView::AccessPattern(a));
            let o = out->0->AccessPattern_0;
            &&& out is Some
            &&& o.dims() == a.dims()
            &&& o.shape.len() + 1 == a.shape.len()
            &&& o.item_shape[0] == a.shape[a.shape.len() - 1]
        }),
{
    let o = access_shift_right_result(DataView::AccessPattern(a))->0->AccessPattern_0;
    assert(o.dims() =~= a.dims());
}

/// Pairing two accesses of one layout adds an item dimension of length 2
/// in front and keeps every other dimension.
pub proof fn lemma_access_pair_adds_pair_axis(a0: AccessView, a1: AccessView)
    requires
        a0.shape == a1.shape,
        a0.item_shape == a1.item_shape,
    ensures
        ({
            let out = access_pair_result(DataView::AccessPattern(a0), DataView::AccessPattern(a1));
            let o = out->0->AccessPattern_0;
            &&& out is Some
            &&& o.shape == a0.shape
            &&& o.item_shape.len() == a0.item_shape.len() + 1
            &&& o.item_shape[0] == 2
            &&& forall|i: int| 0 <= i < a0.item_shape.len() ==> o.item_shape[i + 1] == a0.item_shape[i]
        }),
{
}

/// Flattening leaves one shape dimension, the product of the shape, and
/// one item dimension, the product of the item shape.
pub proof fn lemma_flatten_multiplies_out(a: AccessView)
    requires
        checked_product(a.shape) is Some,
        checked_product(a.item_shape) is Some,
    ensures
        ({
            let out = access_flatten_result(DataView::AccessPattern(a));
            let o = out->0->AccessPattern_0;
            &&& out is Some
            &&& o.shape.len() == 1
            &&& o.item_shape.len() == 1
            &&& o.shape[0] == checked_product(a.shape)->0
            &&& o.item_shape[0] == checked_product(a.item_shape)->0
        }),
{
}

/// Reshaping gives the target's dimensions, and only where both hold the
/// same number of elements.
pub proof fn lemma_reshape_keeps_counts(a: AccessView, n: AccessView)
    ensures
        ({
            let out = access_reshape_result(DataView::AccessPattern(a), DataView::AccessPattern(n));
            let o = out->0->AccessPattern_0;
            out is Some ==> {
                &&& o.shape == n.shape
                &&& o.item_shape == n.item_shape
                &&& checked_product(a.shape) is Some
                &&& checked_product(o.shape) == checked_product(a.shape)
                &&& checked_product(o.item_shape) == checked_product(a.item_shape)
            }
        }),
{
}

/// Broadcasting stretches an access to the target's dimensions, each of
/// its own being 1 or the target's, and keeps its split into shape and
/// item shape.
pub proof fn lemma_broadcast_takes_target_dims(a: AccessView, s: AccessView)
    requires
        a.ndim_fits(),
        s.ndim_fits(),
        a.ndim() == s.ndim(),
        forall|i: int| 0 <= i < a.ndim() ==> a.dims()[i] == 1 || a.dims()[i] == s.dims()[i],
    ensures
        ({
            let out = access_broadcast_result(DataView::AccessPattern(a), DataView::AccessPattern(s));
            let o = out->0->AccessPattern_0;
            &&& out is Some
            &&& o.dims() == s.dims()
            &&& o.shape.len() == a.shape.len()
        }),
{
    let o = access_broadcast_result(DataView::AccessPattern(a), DataView::AccessPattern(s))->0->AccessPattern_0;
    assert(o.dims() =~= s.dims());
}

/// Slicing an access along `axis` from `low` to `high` leaves that axis
/// `high - low` long and every other dimension, and the split into shape
/// and item shape, as it was.
pub proof fn lemma_access_slice_cuts_axis(a: AccessView, axis: usize, low: usize, high: usize)
    requires
        a.ndim_fits(),
        axis < a.ndim(),
        low < a.dims()[axis as int],
        low <= high <= a.dims()[axis as int],
        !a.zero_regions.contains_key(axis),
    ensures
        ({
            let out = access_slice_result(
                DataView::AccessPattern(a),
                DataView::Usize(axis),
                DataView::Usize(low),
                DataView::Usize(high),
            );
            let o = out->0->AccessPattern_0;
            &&& out is Some
            &&& o.shape.len() == a.shape.len()
            &&& o.dims().len() == a.ndim()
            &&& o.dims()[axis as int] == high - low
            &&& forall|i: int| 0 <= i < a.ndim() && i != axis ==> o.dims()[i] == a.dims()[i]
        }),
{
    let o = access_slice_result(
        DataView::AccessPattern(a),
        DataView::Usize(axis),
        DataView::Usize(low),
        DataView::Usize(high),
    )->0->AccessPattern_0;
    assert(o.dims() =~= a.dims().update(axis as int, (high - low) as usize));
}

/// Padding an access with no zero regions along `axis` by `before` and
/// `after` makes that axis `before + after` longer and keeps every other
/// dimension, whatever the padding type.
pub proof fn lemma_access_pad_grows_axis(a: AccessView, pad: PadType, axis: usize, before: usize, after: usize)
    requires
        a.ndim_fits(),
        axis < a.ndim(),
        a.dims()[axis as int] + before + after <= usize::MAX,
        a.zero_regions == Map::<usize, Seq<bool>>::empty(),
    ensures
        ({
            let out = access_pad_result(
                DataView::AccessPattern(a),
                DataView::PadType(pad),
                DataView::Usize(axis),
                DataView::Usize(before),
                DataView::Usize(after),
            );
            let o = out->0->AccessPattern_0;
            &&& out is Some
            &&& o.shape.len() == a.shape.len()
            &&& o.dims().len() == a.ndim()
            &&& o.dims()[axis as int] == a.dims()[axis as int] + before + after
            &&& forall|i: int| 0 <= i < a.ndim() && i != axis ==> o.dims()[i] == a.dims()[i]
        }),
{
    let o = access_pad_result(
        DataView::AccessPattern(a),
        DataView::PadType(pad),
        DataView::Usize(axis),
        DataView::Usize(before),
        DataView::Usize(after),
    )->0->AccessPattern_0;
    assert(o.dims() =~= a.dims().update(axis as int, (a.dims()[axis as int] + before + after) as usize));
}

/// A computation over each item keeps the access's shape. Reductions and
/// dot products leave scalars; element-wise sums, products and quotients
/// fold the first item dimension; element-wise maps keep the item; softmax
/// takes vectors and keeps them.
pub proof fn lemma_compute_keeps_shape(c: ComputeType, a: AccessView)
    ensures
        ({
            let out = compute_result(DataView::ComputeType(c), DataView::AccessPattern(a));
            let o = out->0->AccessPattern_0;
            &&& out is Some <==> match c {
                ComputeType::Softmax => a.item_shape.len() == 1,
                ComputeType::ElementwiseAdd | ComputeType::ElementwiseMul
                | ComputeType::ElementwiseDiv | ComputeType::DotProduct => a.item_shape.len() >= 1,
                _ => true,
            }
            &&& out is Some ==> o.shape == a.shape && o.zero_regions == Map::<usize, Seq<bool>>::empty()
            &&& out is Some ==> match c {
                ComputeType::ReduceMean | ComputeType::ReduceSum | ComputeType::ReduceMax
                | ComputeType::DotProduct => o.item_shape.len() == 0,
                ComputeType::ElementwiseAdd | ComputeType::ElementwiseMul
                | ComputeType::ElementwiseDiv => o.item_shape.len() + 1 == a.item_shape.len()
                    && forall|i: int| 0 <= i < o.item_shape.len() ==> o.item_shape[i] == a.item_shape[i + 1],
                _ => o.item_shape == a.item_shape,
            }
        }),
{
}

/// Windows over the item dimensions: the shape gains, after its own
/// dimensions, the number of window positions along each item dimension,
/// and the item becomes the window.
pub proof fn lemma_windows_shape(a: AccessView, filters: Seq<usize>, strides: Seq<usize>)
    requires
        filters.len() == a.item_shape.len(),
        strides.len() == a.item_shape.len(),
        forall|i: int| 0 <= i < a.item_shape.len() ==> 1 <= #[trigger] filters[i] <= a.item_shape[i],
        forall|i: int| 0 <= i < a.item_shape.len() ==> #[trigger] strides[i] >= 1,
        forall|i: int| 0 <= i < a.item_shape.len() ==> a.item_shape[i] + #[trigger] strides[i] <= usize::MAX,
    ensures
        ({
            let out = access_windows_result(
                DataView::AccessPattern(a),
                DataView::Shape(filters),
                DataView::Shape(strides),
            );
            let o = out->0->AccessPattern_0;
            &&& out is Some
            &&& o.item_shape == filters
            &&& o.shape.len() == a.shape.len() + a.item_shape.len()
            &&& forall|i: int| 0 <= i < a.shape.len() ==> o.shape[i] == a.shape[i]
            &&& forall|i: int|
                0 <= i < a.item_shape.len() ==> o.shape[a.shape.len() + i] == padded_positions(
                    0,
                    a.item_shape[i] as int,
                    0,
                    filters[i] as int,
                    strides[i] as int,
                )
        }),
{
    assert forall|i: int| 0 <= i < a.item_shape.len() implies a.item_shape[i] >= filters[i]
        && #[trigger] crate::dims::window_count(a.item_shape[i] as int, filters[i] as int, strides[i] as int) is Some by {
        assert(strides[i] >= 1);
        assert(filters[i] >= 1);
    }
    assert(windows_fit(a.item_shape, filters, strides));
    assert forall|i: int| 0 <= i < a.item_shape.len() implies #[trigger] filters[i] >= 1
        && padded_positions(0, a.item_shape[i] as int, 0, filters[i] as int, strides[i] as int)
        <= usize::MAX by {
        assert(strides[i] >= 1);
        assert(filters[i] >= 1);
        lemma_padded_positions_fit(0, a.item_shape[i] as int, 0, filters[i] as int, strides[i] as int);
    }
}

/// A systolic array multiplies each row vector of length `rows` by a
/// `rows`-by-`cols` matrix: the rows stay, and each gives `cols` values.
pub proof fn lemma_systolic_array_shape(rows: usize, cols: usize, a0: AccessView, a1: AccessView)
    requires
        a0.shape.len() <= 1,
        a0.item_shape == seq![rows],
        a1.shape.len() == 0,
        a1.item_shape == seq![rows, cols],
    ensures
        ({
            let out = systolic_array_result(
                DataView::Usize(rows),
                DataView::Usize(cols),
                DataView::AccessPattern(a0),
                DataView::AccessPattern(a1),
            );
            let o = out->0->AccessPattern_0;
            &&& out is Some
            &&& o.shape.len() == a0.shape.len() + 1
            &&& forall|i: int| 0 <= i < a0.shape.len() ==> o.shape[i] == a0.shape[i]
            &&& o.shape[o.shape.len() - 1] == cols
            &&& o.item_shape.len() == 0
        }),
{
}

/// The blocked systolic array multiplies each row vector of length `k` by a
/// `k`-by-`n` matrix, `k` a multiple of `rows` and `n` of `cols`: the rows
/// stay, and each gives `n` values.
pub proof fn lemma_blocked_systolic_array_shape(rows: usize, cols: usize, a0: AccessView, a1: AccessView)
    requires
        a0.shape.len() <= 1,
        a0.item_shape.len() == 1,
        a1.shape.len() == 0,
        a1.item_shape.len() == 2,
        a0.item_shape[0] == a1.item_shape[0],
        rows != 0 && a0.item_shape[0] % rows == 0,
        cols != 0 && a1.item_shape[1] % cols == 0,
    ensures
        ({
            let out = systolic_array_with_blocking_result(
                DataView::Usize(rows),
                DataView::Usize(cols),
                DataView::AccessPattern(a0),
                DataView::AccessPattern(a1),
            );
            let o = out->0->AccessPattern_0;
            &&& out is Some
            &&& o.shape.len() == a0.shape.len() + 1
            &&& forall|i: int| 0 <= i < a0.shape.len() ==> o.shape[i] == a0.shape[i]
            &&& o.shape[o.shape.len() - 1] == a1.item_shape[1]
            &&& o.item_shape.len() == 0
        }),
{
}

/// Whatever the cartesian product of two accesses gives is every index of
/// the first followed by every index of the second, each item a pair of
/// items of the first's item shape.
pub proof fn lemma_access_cartesian_product_shape(a0: AccessView, a1: AccessView)
    ensures
        ({
            let out = access_cartesian_product_result(DataView::AccessPattern(a0), DataView::AccessPattern(a1));
            let o = out->0->AccessPattern_0;
            out is Some ==> {
                &&& a1.item_shape == a0.item_shape
                &&& o.shape.len() == a0.shape.len() + a1.shape.len()
                &&& forall|i: int| 0 <= i < a0.shape.len() ==> o.shape[i] == a0.shape[i]
                &&& forall|j: int| 0 <= j < a1.shape.len() ==> o.shape[a0.shape.len() + j] == a1.shape[j]
                &&& o.item_shape.len() == a0.item_shape.len() + 1
                &&& o.item_shape[0] == 2
                &&& forall|i: int| 0 <= i < a0.item_shape.len() ==> o.item_shape[i + 1] == a0.item_shape[i]
            }
        }),
{
}

/// A convolution over NCHW data `[n, c, h, w]` with OIHW weights
/// `[o, c, kh, kw]` and strides `sh`, `sw` gives `[n, o, h', w']`, where
/// `h'` and `w'` count the unpadded window positions along the height and
/// the width; blocking further asks that `cols` divide `o` and `rows`
/// divide `c`.
pub proof fn lemma_conv_nchw_shape(
    check_blocks: bool,
    rows: usize,
    cols: usize,
    weights: AccessView,
    data: AccessView,
    kh: usize,
    kw: usize,
    sh: usize,
    sw: usize,
)
    requires
        weights.ndim_fits(),
        weights.ndim() == 4,
        data.ndim_fits(),
        data.ndim() == 4,
        weights.dims()[1] == data.dims()[1],
        weights.dims()[2] == kh,
        weights.dims()[3] == kw,
        kh >= 1 && data.dims()[2] + 1 >= kh,
        kw >= 1 && data.dims()[3] + 1 >= kw,
        sh >= 1 && data.dims()[2] + sh <= usize::MAX,
        sw >= 1 && data.dims()[3] + sw <= usize::MAX,
        check_blocks ==> cols != 0 && weights.dims()[0] % cols == 0 && rows != 0 && data.dims()[1] % rows == 0,
    ensures
        ({
            let out = conv_result(
                false,
                check_blocks,
                DataView::Usize(rows),
                DataView::Usize(cols),
                DataView::AccessPattern(weights),
                DataView::AccessPattern(data),
                DataView::Usize(kh),
                DataView::Usize(kw),
                DataView::Usize(sh),
                DataView::Usize(sw),
            );
            let o = out->0->AccessPattern_0;
            &&& out is Some
            &&& o.item_shape.len() == 0
            &&& o.shape.len() == 4
            &&& o.shape[0] == data.dims()[0]
            &&& o.shape[1] == weights.dims()[0]
            &&& o.shape[2] == padded_positions(0, data.dims()[2] as int, 0, kh as int, sh as int)
            &&& o.shape[3] == padded_positions(0, data.dims()[3] as int, 0, kw as int, sw as int)
        }),
{
    lemma_padded_positions_fit(0, data.dims()[2] as int, 0, kh as int, sh as int);
    lemma_padded_positions_fit(0, data.dims()[3] as int, 0, kw as int, sw as int);
}

/// A convolution over NHWC data `[n, h, w, c]` with HWIO weights
/// `[kh, kw, c, o]` and strides `sh`, `sw` gives `[n, h', w', o]`, where
/// `h'` and `w'` count the unpadded window positions along the height and
/// the width; blocking further asks that `cols` divide `o` and `rows`
/// divide `c`.
pub proof fn lemma_conv_nhwc_shape(
    check_blocks: bool,
    rows: usize,
    cols: usize,
    weights: AccessView,
    data: AccessView,
    kh: usize,
    kw: usize,
    sh: usize,
    sw: usize,
)
    requires
        weights.ndim_fits(),
        weights.ndim() == 4,
        data.ndim_fits(),
        data.ndim() == 4,
        weights.dims()[2] == data.dims()[3],
        weights.dims()[0] == kh,
        weights.dims()[1] == kw,
        kh >= 1 && data.dims()[1] + 1 >= kh,
        kw >= 1 && data.dims()[2] + 1 >= kw,
        sh >= 1 && data.dims()[1] + sh <= usize::MAX,
        sw >= 1 && data.dims()[2] + sw <= usize::MAX,
        check_blocks ==> cols != 0 && weights.dims()[3] % cols == 0 && rows != 0 && data.dims()[3] % rows == 0,
    ensures
        ({
            let out = conv_result(
                true,
                check_blocks,
                DataView::Usize(rows),
                DataView::Usize(cols),
                DataView::AccessPattern(weights),
                DataView::AccessPattern(data),
                DataView::Usize(kh),
                DataView::Usize(kw),
                DataView::Usize(sh),
                DataView::Usize(sw),
            );
            let o = out->0->AccessPattern_0;
            &&& out is Some
            &&& o.item_shape.len() == 0
            &&& o.shape.len() == 4
            &&& o.shape[0] == data.dims()[0]
            &&& o.shape[1] == padded_positions(0, data.dims()[1] as int, 0, kh as int, sh as int)
            &&& o.shape[2] == padded_positions(0, data.dims()[2] as int, 0, kw as int, sw as int)
            &&& o.shape[3] == weights.dims()[3]
        }),
{
    lemma_padded_positions_fit(0, data.dims()[1] as int, 0, kh as int, sh as int);
    lemma_padded_positions_fit(0, data.dims()[2] as int, 0, kw as int, sw as int);
}

/// Adding, and taking the element-wise maximum or minimum of, two accesses
/// does not depend on their order.
pub proof fn lemma_relay_broadcast_commutes(op: RelayOperator, a: AccessView, b: AccessView)
    requires
        op == RelayOperator::RelayAdd || op == RelayOperator::RelayMaximum || op == RelayOperator::RelayMinimum,
    ensures
        relay_op_result(op, seq![DataView::AccessPattern(a), DataView::AccessPattern(b)])
            == relay_op_result(op, seq![DataView::AccessPattern(b), DataView::AccessPattern(a)]),
{
    let n = if a.ndim() >= b.ndim() { a.ndim() } else { b.ndim() };
    let x = crate::relay_ops::left_padded(a.dims(), n);
    let y = crate::relay_ops::left_padded(b.dims(), n);
    assert(crate::relay_ops::dims_max(x, y) =~= crate::relay_ops::dims_max(y, x));
}

/// Adding, and taking the element-wise maximum or minimum of, two accesses
/// with as many dimensions each: each dimension of the result is the larger
/// of the pair, where each pair is equal or holds a 1; the result has no
/// item dimensions.
pub proof fn lemma_relay_broadcast_takes_larger(op: RelayOperator, a: AccessView, b: AccessView)
    requires
        op == RelayOperator::RelayAdd || op == RelayOperator::RelayMaximum || op == RelayOperator::RelayMinimum,
        a.ndim_fits(),
        a.ndim() == b.ndim(),
        forall|i: int| 0 <= i < a.ndim() ==> a.dims()[i] == b.dims()[i] || a.dims()[i] == 1 || b.dims()[i] == 1,
    ensures
        ({
            let out = relay_op_result(op, seq![DataView::AccessPattern(a), DataView::AccessPattern(b)]);
            let o = out->0->AccessPattern_0;
            &&& out is Some
            &&& o.shape.len() == a.ndim()
            &&& o.item_shape.len() == 0
            &&& forall|i: int| 0 <= i < a.ndim() ==> o.shape[i] >= a.dims()[i] && o.shape[i] >= b.dims()[i]
            &&& forall|i: int| 0 <= i < a.ndim() ==> o.shape[i] == a.dims()[i] || o.shape[i] == b.dims()[i]
        }),
{
    let x = crate::relay_ops::left_padded(a.dims(), a.ndim());
    let y = crate::relay_ops::left_padded(b.dims(), a.ndim());
    assert(x == a.dims());
    assert(y == b.dims());
    assert(crate::relay_ops::broadcast_compatible(x, y));
}

/// Batch flattening `[n, c, h, w]` gives `[n, c * h * w]`.
pub proof fn lemma_batch_flatten_shape(a: AccessView)
    requires
        a.ndim_fits(),
        a.ndim() == 4,
        a.dims()[1] * a.dims()[2] <= usize::MAX,
        a.dims()[1] * a.dims()[2] * a.dims()[3] <= usize::MAX,
    ensures
        ({
            let out = relay_op_result(RelayOperator::RelayBatchFlatten, seq![DataView::AccessPattern(a)]);
            let o = out->0->AccessPattern_0;
            &&& out is Some
            &&& o.shape.len() == 2
            &&& o.item_shape.len() == 0
            &&& o.shape[0] == a.dims()[0]
            &&& o.shape[1] == a.dims()[1] * a.dims()[2] * a.dims()[3]
        }),
{
}

/// Global average pooling shrinks the height and the width to 1 and keeps
/// the batch and channel dimensions, in either layout.
pub proof fn lemma_global_avg_pool_shape(a: AccessView, l: RelayActivationLayout)
    requires
        a.ndim_fits(),
        a.ndim() == 4,
    ensures
        ({
            let out = relay_op_result(
                RelayOperator::RelayGlobalAvgPool2D,
                seq![DataView::AccessPattern(a), DataView::RelayActivationLayout(l)],
            );
            let o = out->0->AccessPattern_0;
            &&& out is Some
            &&& o.shape.len() == a.shape.len()
            &&& o.dims().len() == 4
            &&& o.dims()[0] == a.dims()[0]
            &&& l == RelayActivationLayout::NCHW ==> o.dims()[1] == a.dims()[1] && o.dims()[2] == 1
                && o.dims()[3] == 1
            &&& l == RelayActivationLayout::NHWC ==> o.dims()[1] == 1 && o.dims()[2] == 1
                && o.dims()[3] == a.dims()[3]
        }),
{
    let hi = crate::relay_ops::height_axis(l);
    let b = crate::access_ops::with_dim(a.forget_zeros(), hi, 1);
    let o = crate::access_ops::with_dim(b, hi + 1, 1);
    assert(b.dims() =~= a.dims().update(hi, 1));
    assert(o.dims() =~= b.dims().update(hi + 1, 1));
}

/// The activations, bias addition, softmax and batch normalisation keep the
/// dimensions of their input, and its split into shape and item shape.
pub proof fn lemma_relay_maps_keep_shape(op: RelayOperator, rest: Seq<DataView>)
    requires
        op == RelayOperator::RelayReLU || op == RelayOperator::RelaySigmoid
            || op == RelayOperator::RelayLeakyReLU || op == RelayOperator::RelaySoftmax
            || op == RelayOperator::RelayBiasAdd || op == RelayOperator::RelayBatchNormInference,
        rest.len() >= 1,
        rest[0] is AccessPattern,
    ensures
        ({
            let out = relay_op_result(op, rest);
            out is Some ==> out->0->AccessPattern_0.shape == rest[0]->AccessPattern_0.shape
                && out->0->AccessPattern_0.item_shape == rest[0]->AccessPattern_0.item_shape
        }),
{
}

} // verus!
