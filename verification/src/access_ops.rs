//! What the analysis computes for the operators on access patterns that
//! keep no zero-region information, and for compute nodes, literals, tuples
//! and the systolic arrays.
use crate::data::{
    access_of, access_value, copy_dims, forget_zeros, opt_model, plain_access, plain_access_data,
    shape_of, usize_of, AccessPatternData, AccessView, DataView, MyAnalysisData,
};
use crate::dims::{
    checked_product, dims_concat, dims_skip, dims_take, product, window_count, window_count_exec,
};
use crate::operators::{ComputeType, PadType};
use crate::range_set::{bools_added, bools_inserted, bools_removed, RangeSet2};
use std::collections::HashMap;
use vstd::std_specs::iter::IteratorSpec;
use vstd::prelude::*;

verus! {

/// `(access <tensor> <dim>)`: all dimensions of the access, split at `dim`
/// into shape and item shape.
pub open spec fn access_result(t: DataView, dim: DataView) -> Option<DataView> {
    match (access_of(t), usize_of(dim)) {
        (Some(a), Some(d)) => if d <= a.dims().len() {
            access_value(plain_access(a.dims().take(d as int), a.dims().skip(d as int)))
        } else {
            None
        },
        _ => None,
    }
}

pub fn access(t: &MyAnalysisData, dim: &MyAnalysisData) -> (r: Option<MyAnalysisData>)
    ensures
        opt_model(r) == access_result(t@, dim@),
{
    match (t, dim) {
        (MyAnalysisData::AccessPattern(a), MyAnalysisData::Usize(d)) => {
            let all = a.as_vec();
            if *d <= all.len() {
                Some(
                    MyAnalysisData::AccessPattern(
                        plain_access_data(dims_take(&all, *d), dims_skip(&all, *d)),
                    ),
                )
            } else {
                None
            }
        },
        _ => None,
    }
}

/// The zero regions after a transpose: new axis `j` takes the flags of old
/// axis `order[j]`.
pub open spec fn transposed_zeros(z: Map<usize, Seq<bool>>, order: Seq<usize>) -> Map<
    usize,
    Seq<bool>,
> {
    Map::new(
        |j: usize| j < order.len() && z.contains_key(order[j as int]),
        |j: usize| z[order[j as int]],
    )
}

/// Whether no axis occurs twice in `l`.
pub fn distinct_axes(l: &Vec<usize>) -> (r: bool)
    ensures
        r == l@.no_duplicates(),
{
    let mut i: usize = 0;
    while i < l.len()
        invariant
            i <= l@.len(),
            forall|x: int, y: int| 0 <= x < i && 0 <= y < l@.len() && x != y ==> l@[x] != l@[y],
        decreases l.len() - i,
    {
        let mut j: usize = 0;
        while j < l.len()
            invariant
                i < l@.len(),
                j <= l@.len(),
                forall|x: int, y: int| 0 <= x < i && 0 <= y < l@.len() && x != y ==> l@[x] != l@[y],
                forall|y: int| 0 <= y < j && y != i ==> l@[i as int] != l@[y],
            decreases l.len() - j,
        {
            if j != i && l[i] == l[j] {
                return false;
            }
            j = j + 1;
        }
        i = i + 1;
    }
    true
}

/// `(access-transpose <a> <list>)`: the dimensions reordered by the list, as
/// `numpy.transpose` reorders them: the list names every dimension once;
/// zero regions follow their axes.
pub open spec fn access_transpose_result(t: DataView, order: DataView) -> Option<DataView> {
    match (access_of(t), crate::data::list_of(order)) {
        (Some(a), Some(l)) => if a.ndim_fits() && a.ndim() == l.len() && (forall|j: int|
            0 <= j < l.len() ==> #[trigger] l[j] < a.ndim()) && l.no_duplicates() {
            let new = l.map_values(|k: usize| a.dims()[k as int]);
            access_value(
                AccessView {
                    shape: new.take(a.shape.len() as int),
                    item_shape: new.skip(a.shape.len() as int),
                    zero_regions: transposed_zeros(a.zero_regions, l),
                },
            )
        } else {
            None
        },
        _ => None,
    }
}

pub fn access_transpose(t: &MyAnalysisData, order: &MyAnalysisData) -> (r: Option<MyAnalysisData>)
    ensures
        opt_model(r) == access_transpose_result(t@, order@),
{
    broadcast use vstd::std_specs::hash::group_hash_axioms;

    match (t, order) {
        (MyAnalysisData::AccessPattern(a), MyAnalysisData::List(l)) => {
            if a.shape.len() > usize::MAX - a.item_shape.len() {
                return None;
            }
            let n = a.shape.len() + a.item_shape.len();
            if n != l.len() || !distinct_axes(l) {
                return None;
            }
            let all = a.as_vec();
            let mut new: Vec<usize> = Vec::new();
            let mut j: usize = 0;
            while j < l.len()
                invariant
                    j <= l@.len(),
                    l@.len() == a@.ndim(),
                    a@.ndim_fits(),
                    l@.no_duplicates(),
                    t@ == DataView::AccessPattern(a@),
                    order@ == DataView::List(l@),
                    all@ == a@.dims(),
                    new@.len() == j,
                    forall|x: int| 0 <= x < j ==> #[trigger] l@[x] < all@.len(),
                    forall|x: int| 0 <= x < j ==> #[trigger] new@[x] == all@[l@[x] as int],
                decreases l.len() - j,
            {
                if l[j] >= all.len() {
                    assert(!(l@[j as int] < a@.ndim()));
                    return None;
                }
                new.push(all[l[j]]);
                j = j + 1;
            }
            let mut zeros: std::collections::HashMap<usize, Vec<bool>> =
                std::collections::HashMap::new();
            let mut k: usize = 0;
            while k < l.len()
                invariant
                    k <= l@.len(),
                    crate::data::zero_view(zeros@) == transposed_zeros(
                        a@.zero_regions,
                        l@.take(k as int),
                    ),
                decreases l.len() - k,
            {
                let ghost before = zeros@;
                let ghost t0 = l@.take(k as int);
                let ghost t1 = l@.take(k + 1);
                assert(forall|x: int| 0 <= x < k ==> t1[x] == t0[x]);
                assert(t1[k as int] == l@[k as int]);
                match a.zero_regions.get(&l[k]) {
                    Some(flags) => {
                        assert(a.zero_regions@.contains_key(l@[k as int]));
                        assert(a@.zero_regions.contains_key(l@[k as int]));
                        assert(a@.zero_regions[l@[k as int]] == flags@);
                        let c = crate::data::copy_flags(flags);
                        zeros.insert(k, c);
                        assert(zeros@ == before.insert(k, c));
                        let ghost zv = crate::data::zero_view(zeros@);
                        let ghost tz = transposed_zeros(a@.zero_regions, t1);
                        assert forall|x: usize| zv.contains_key(x) == tz.contains_key(x) by {
                            if x != k {
                                assert(crate::data::zero_view(before).contains_key(x)
                                    == zv.contains_key(x));
                            }
                        }
                        assert forall|x: usize| #[trigger] zv.contains_key(x) implies zv[x] == tz[x] by {
                            if x == k {
                                assert(zv[x] == c@);
                                assert(tz[x] == a@.zero_regions[l@[k as int]]);
                            } else {
                                assert(zv[x] == crate::data::zero_view(before)[x]);
                            }
                        }
                        assert(zv =~= tz);
                    },
                    None => {
                        assert(crate::data::zero_view(zeros@) =~= transposed_zeros(
                            a@.zero_regions,
                            t1,
                        ));
                    },
                }
                k = k + 1;
            }
            assert(l@.take(l@.len() as int) =~= l@);
            let ghost newv = l@.map_values(|x: usize| a@.dims()[x as int]);
            assert(new@ =~= newv);
            let s = a.shape.len();
            Some(
                MyAnalysisData::AccessPattern(
                    AccessPatternData {
                        shape: dims_take(&new, s),
                        item_shape: dims_skip(&new, s),
                        zero_regions: zeros,
                    },
                ),
            )
        },
        _ => None,
    }
}


/// The number of dimensions of an access, where it fits in a `usize`.
pub open spec fn ndim_of(a: AccessView) -> Option<usize> {
    if a.ndim_fits() {
        Some(a.ndim() as usize)
    } else {
        None
    }
}

/// Counts the dimensions of an access, checking the sum.
pub fn ndim_checked(a: &AccessPatternData) -> (r: Option<usize>)
    ensures
        r == ndim_of(a@),
{
    if a.shape.len() > usize::MAX - a.item_shape.len() {
        None
    } else {
        Some(a.shape.len() + a.item_shape.len())
    }
}

/// `(access-reshape <access> <access-shape>)`: the second access's dimensions,
/// where both shapes hold the same number of elements and so do both item
/// shapes.
pub open spec fn access_reshape_result(t: DataView, target: DataView) -> Option<DataView> {
    match (access_of(t), access_of(target)) {
        (Some(a), Some(n)) => if checked_product(a.shape) is Some && checked_product(a.shape)
            == checked_product(n.shape) && checked_product(a.item_shape) is Some
            && checked_product(a.item_shape) == checked_product(n.item_shape) {
            access_value(plain_access(n.shape, n.item_shape))
        } else {
            None
        },
        _ => None,
    }
}

pub fn access_reshape(t: &MyAnalysisData, target: &MyAnalysisData) -> (r: Option<MyAnalysisData>)
    ensures
        opt_model(r) == access_reshape_result(t@, target@),
{
    match (t, target) {
        (MyAnalysisData::AccessPattern(a), MyAnalysisData::AccessPattern(n)) => {
            let p0 = product(&a.shape);
            let p1 = product(&n.shape);
            let q0 = product(&a.item_shape);
            let q1 = product(&n.item_shape);
            match (p0, p1, q0, q1) {
                (Some(x0), Some(x1), Some(y0), Some(y1)) => {
                    if x0 == x1 && y0 == y1 {
                        Some(
                            MyAnalysisData::AccessPattern(
                                plain_access_data(copy_dims(&n.shape), copy_dims(&n.item_shape)),
                            ),
                        )
                    } else {
                        None
                    }
                },
                _ => None,
            }
        },
        _ => None,
    }
}

/// `(access-flatten <access>)`: one dimension holding the product of the
/// shape, and one holding the product of the item shape.
pub open spec fn access_flatten_result(t: DataView) -> Option<DataView> {
    match access_of(t) {
        Some(a) => match (checked_product(a.shape), checked_product(a.item_shape)) {
            (Some(p), Some(q)) => access_value(plain_access(seq![p], seq![q])),
            _ => None,
        },
        None => None,
    }
}

pub fn access_flatten(t: &MyAnalysisData) -> (r: Option<MyAnalysisData>)
    ensures
        opt_model(r) == access_flatten_result(t@),
{
    match t {
        MyAnalysisData::AccessPattern(a) => match (product(&a.shape), product(&a.item_shape)) {
            (Some(p), Some(q)) => {
                let s = vec![p];
                let i = vec![q];
                assert(s@ =~= seq![p]);
                assert(i@ =~= seq![q]);
                Some(MyAnalysisData::AccessPattern(plain_access_data(s, i)))
            },
            _ => None,
        },
        _ => None,
    }
}

/// `(access-pair <a0> <a1>)`: two accesses of equal dimensions paired item
/// by item: a new item dimension of length 2 in front.
pub open spec fn access_pair_result(t0: DataView, t1: DataView) -> Option<DataView> {
    match (access_of(t0), access_of(t1)) {
        (Some(a0), Some(a1)) => if a0.shape == a1.shape && a0.item_shape == a1.item_shape {
            access_value(plain_access(a0.shape, seq![2usize] + a0.item_shape))
        } else {
            None
        },
        _ => None,
    }
}

pub fn access_pair(t0: &MyAnalysisData, t1: &MyAnalysisData) -> (r: Option<MyAnalysisData>)
    ensures
        opt_model(r) == access_pair_result(t0@, t1@),
{
    match (t0, t1) {
        (MyAnalysisData::AccessPattern(a0), MyAnalysisData::AccessPattern(a1)) => {
            if crate::data::same_dims(&a0.shape, &a1.shape) && crate::data::same_dims(
                &a0.item_shape,
                &a1.item_shape,
            ) {
                let two = vec![2usize];
                let item = dims_concat(&two, &a0.item_shape);
                assert(two@ =~= seq![2usize]);
                Some(MyAnalysisData::AccessPattern(plain_access_data(copy_dims(&a0.shape), item)))
            } else {
                None
            }
        },
        _ => None,
    }
}

/// `(access-shift-right <access>)`: the last shape dimension moves into the
/// item shape.
pub open spec fn access_shift_right_result(t: DataView) -> Option<DataView> {
    match access_of(t) {
        Some(a) => {
            let k = if a.shape.len() >= 1 {
                a.shape.len() - 1
            } else {
                0
            };
            access_value(plain_access(a.dims().take(k), a.dims().skip(k)))
        },
        None => None,
    }
}

pub fn access_shift_right(t: &MyAnalysisData) -> (r: Option<MyAnalysisData>)
    ensures
        opt_model(r) == access_shift_right_result(t@),
{
    match t {
        MyAnalysisData::AccessPattern(a) => {
            let all = a.as_vec();
            let k = if a.shape.len() >= 1 {
                a.shape.len() - 1
            } else {
                0
            };
            Some(MyAnalysisData::AccessPattern(plain_access_data(dims_take(&all, k), dims_skip(&all, k))))
        },
        _ => None,
    }
}

/// `(access-squeeze <access> <axis>)`: removes an axis of length 1.
pub open spec fn access_squeeze_result(t: DataView, axis: DataView) -> Option<DataView> {
    match (access_of(t), usize_of(axis)) {
        (Some(a), Some(ax)) => if ax < a.shape.len() {
            if a.shape[ax as int] == 1 {
                access_value(plain_access(a.shape.remove(ax as int), a.item_shape))
            } else {
                None
            }
        } else if ax - a.shape.len() < a.item_shape.len() && a.item_shape[ax - a.shape.len()] == 1 {
            access_value(plain_access(a.shape, a.item_shape.remove(ax - a.shape.len())))
        } else {
            None
        },
        _ => None,
    }
}

pub fn access_squeeze(t: &MyAnalysisData, axis: &MyAnalysisData) -> (r: Option<MyAnalysisData>)
    ensures
        opt_model(r) == access_squeeze_result(t@, axis@),
{
    match (t, axis) {
        (MyAnalysisData::AccessPattern(a), MyAnalysisData::Usize(ax)) => {
            let ax = *ax;
            let n = a.shape.len();
            if ax < n {
                if a.shape[ax] == 1 {
                    let mut s = copy_dims(&a.shape);
                    s.remove(ax);
                    Some(MyAnalysisData::AccessPattern(plain_access_data(s, copy_dims(&a.item_shape))))
                } else {
                    None
                }
            } else if ax - n < a.item_shape.len() && a.item_shape[ax - n] == 1 {
                let mut i = copy_dims(&a.item_shape);
                i.remove(ax - n);
                Some(MyAnalysisData::AccessPattern(plain_access_data(copy_dims(&a.shape), i)))
            } else {
                None
            }
        },
        _ => None,
    }
}

/// `(access-insert-axis <access> <axis>)`: an axis of length 1 inserted at
/// position `axis` of all the dimensions.
pub open spec fn access_insert_axis_result(t: DataView, axis: DataView) -> Option<DataView> {
    match (access_of(t), usize_of(axis)) {
        (Some(a), Some(ax)) => if a.ndim_fits() && ax <= a.ndim() {
            if ax <= a.shape.len() {
                access_value(plain_access(a.shape.insert(ax as int, 1), a.item_shape))
            } else {
                access_value(plain_access(a.shape, a.item_shape.insert(ax - a.shape.len(), 1)))
            }
        } else {
            None
        },
        _ => None,
    }
}

pub fn access_insert_axis(t: &MyAnalysisData, axis: &MyAnalysisData) -> (r: Option<MyAnalysisData>)
    ensures
        opt_model(r) == access_insert_axis_result(t@, axis@),
{
    match (t, axis) {
        (MyAnalysisData::AccessPattern(a), MyAnalysisData::Usize(ax)) => {
            let ax = *ax;
            match ndim_checked(a) {
                Some(nd) => {
                    if ax > nd {
                        return None;
                    }
                    let n = a.shape.len();
                    if ax <= n {
                        let mut s = copy_dims(&a.shape);
                        s.insert(ax, 1);
                        Some(MyAnalysisData::AccessPattern(plain_access_data(s, copy_dims(&a.item_shape))))
                    } else {
                        let mut i = copy_dims(&a.item_shape);
                        i.insert(ax - n, 1);
                        Some(MyAnalysisData::AccessPattern(plain_access_data(copy_dims(&a.shape), i)))
                    }
                },
                None => None,
            }
        },
        _ => None,
    }
}

/// Whether dimensions `from` broadcast to `to`: same count, and each
/// dimension of `from` is 1 or equal to that of `to`.
pub open spec fn broadcasts_to(from: Seq<usize>, to: Seq<usize>) -> bool {
    from.len() == to.len() && forall|i: int| 0 <= i < from.len() ==> #[trigger] from[i] == 1
        || from[i] == to[i]
}

/// `(access-broadcast <access> <access-shape>)`: the access stretched to the
/// dimensions of the second argument, split as the first one is.
pub open spec fn access_broadcast_result(t: DataView, target: DataView) -> Option<DataView> {
    match (access_of(t), access_of(target)) {
        (Some(a), Some(s)) => if a.ndim_fits() && s.ndim_fits() && broadcasts_to(a.dims(), s.dims()) {
            access_value(
                plain_access(s.dims().take(a.shape.len() as int), s.dims().skip(a.shape.len() as int)),
            )
        } else {
            None
        },
        _ => None,
    }
}

pub fn access_broadcast(t: &MyAnalysisData, target: &MyAnalysisData) -> (r: Option<MyAnalysisData>)
    ensures
        opt_model(r) == access_broadcast_result(t@, target@),
{
    match (t, target) {
        (MyAnalysisData::AccessPattern(a), MyAnalysisData::AccessPattern(s)) => {
            match (ndim_checked(a), ndim_checked(s)) {
                (Some(na), Some(ns)) => {
                    if na != ns {
                        return None;
                    }
                    let from = a.as_vec();
                    let to = s.as_vec();
                    let mut i: usize = 0;
                    while i < from.len()
                        invariant
                            from@ == a@.dims(),
                            to@ == s@.dims(),
                            t@ == DataView::AccessPattern(a@),
                            target@ == DataView::AccessPattern(s@),
                            a@.ndim_fits(),
                            s@.ndim_fits(),
                            from@.len() == to@.len(),
                            i <= from@.len(),
                            forall|j: int| 0 <= j < i ==> #[trigger] from@[j] == 1 || from@[j] == to@[j],
                        decreases from.len() - i,
                    {
                        if from[i] != 1 && from[i] != to[i] {
                            assert(!broadcasts_to(a@.dims(), s@.dims()));
                            return None;
                        }
                        i = i + 1;
                    }
                    let k = a.shape.len();
                    Some(MyAnalysisData::AccessPattern(plain_access_data(dims_take(&to, k), dims_skip(&to, k))))
                },
                _ => None,
            }
        },
        _ => None,
    }
}

/// `(access-literal <literal>)`: a scalar literal seen as an access with no
/// dimensions.
pub open spec fn access_literal_result(l: DataView) -> Option<DataView> {
    match l {
        DataView::Literal(_) => access_value(plain_access(Seq::empty(), Seq::empty())),
        _ => None,
    }
}

pub fn access_literal(l: &MyAnalysisData) -> (r: Option<MyAnalysisData>)
    ensures
        opt_model(r) == access_literal_result(l@),
{
    match l {
        MyAnalysisData::Literal(x) => Some(
            MyAnalysisData::AccessPattern(plain_access_data(Vec::new(), x.shape())),
        ),
        _ => None,
    }
}

/// `(literal <value>)`: the literal itself.
pub open spec fn literal_result(l: DataView) -> Option<DataView> {
    match l {
        DataView::Literal(t) => Some(DataView::Literal(t)),
        _ => None,
    }
}

pub fn literal(l: &MyAnalysisData) -> (r: Option<MyAnalysisData>)
    ensures
        opt_model(r) == literal_result(l@),
{
    match l {
        MyAnalysisData::Literal(x) => Some(MyAnalysisData::Literal(x.copy())),
        _ => None,
    }
}


/// Whether windows of shape `filters` moved by `strides` fit over `dims`:
/// one filter and one stride per dimension, no filter longer than its
/// dimension, and each window count computable.
pub open spec fn windows_fit(dims: Seq<usize>, filters: Seq<usize>, strides: Seq<usize>) -> bool {
    &&& dims.len() == strides.len()
    &&& filters.len() == strides.len()
    &&& forall|i: int|
        0 <= i < dims.len() ==> dims[i] >= filters[i] && #[trigger] window_count(
            dims[i] as int,
            filters[i] as int,
            strides[i] as int,
        ) is Some
}

/// The number of window positions along each dimension.
pub open spec fn window_positions(dims: Seq<usize>, filters: Seq<usize>, strides: Seq<usize>) -> Seq<
    usize,
> {
    Seq::new(
        dims.len(),
        |i: int| window_count(dims[i] as int, filters[i] as int, strides[i] as int)->0,
    )
}

/// The number of window positions along each dimension, or `None` where the
/// windows do not fit.
pub fn window_positions_checked(dims: &Vec<usize>, filters: &Vec<usize>, strides: &Vec<usize>) -> (r:
    Option<Vec<usize>>)
    ensures
        match r {
            Some(v) => windows_fit(dims@, filters@, strides@) && v@ == window_positions(
                dims@,
                filters@,
                strides@,
            ),
            None => !windows_fit(dims@, filters@, strides@),
        },
{
    if dims.len() != strides.len() || filters.len() != strides.len() {
        return None;
    }
    let mut out: Vec<usize> = Vec::new();
    let mut i: usize = 0;
    while i < dims.len()
        invariant
            dims@.len() == strides@.len(),
            filters@.len() == strides@.len(),
            i <= dims@.len(),
            out@.len() == i,
            forall|j: int|
                0 <= j < i ==> dims@[j] >= filters@[j] && #[trigger] window_count(
                    dims@[j] as int,
                    filters@[j] as int,
                    strides@[j] as int,
                ) == Some(out@[j]),
        decreases dims.len() - i,
    {
        if dims[i] < filters[i] {
            assert(!(dims@[i as int] >= filters@[i as int] && window_count(
                dims@[i as int] as int,
                filters@[i as int] as int,
                strides@[i as int] as int,
            ) is Some));
            return None;
        }
        match window_count_exec(dims[i], filters[i], strides[i]) {
            Some(c) => out.push(c),
            None => {
                return None;
            },
        }
        i = i + 1;
    }
    assert(out@ =~= window_positions(dims@, filters@, strides@));
    Some(out)
}

/// The shape of the window positions of `access_shape` for windows of shape
/// `filters_shape` moved by `stride_shape`.
pub fn access_windows_resulting_shape(
    access_shape: &Vec<usize>,
    filters_shape: &Vec<usize>,
    stride_shape: &Vec<usize>,
) -> (r: Vec<usize>)
    requires
        windows_fit(access_shape@, filters_shape@, stride_shape@),
    ensures
        r@ == window_positions(access_shape@, filters_shape@, stride_shape@),
{
    match window_positions_checked(access_shape, filters_shape, stride_shape) {
        Some(v) => v,
        None => Vec::new(),
    }
}

/// `(access-windows <access> <filters-shape> <stride-shape>)`: windows over
/// the item dimensions; the window positions join the shape, and the window
/// becomes the item.
pub open spec fn access_windows_result(t: DataView, filters: DataView, strides: DataView) -> Option<
    DataView,
> {
    match (access_of(t), shape_of(filters), shape_of(strides)) {
        (Some(a), Some(f), Some(s)) => if windows_fit(a.item_shape, f, s) {
            access_value(plain_access(a.shape + window_positions(a.item_shape, f, s), f))
        } else {
            None
        },
        _ => None,
    }
}

pub fn access_windows(t: &MyAnalysisData, filters: &MyAnalysisData, strides: &MyAnalysisData) -> (r:
    Option<MyAnalysisData>)
    ensures
        opt_model(r) == access_windows_result(t@, filters@, strides@),
{
    match (t, filters, strides) {
        (
            MyAnalysisData::AccessPattern(a),
            MyAnalysisData::Shape(f),
            MyAnalysisData::Shape(s),
        ) => match window_positions_checked(&a.item_shape, &f.shape, &s.shape) {
            Some(w) => Some(
                MyAnalysisData::AccessPattern(
                    plain_access_data(dims_concat(&a.shape, &w), copy_dims(&f.shape)),
                ),
            ),
            None => None,
        },
        _ => None,
    }
}

/// `(compute <compute-type> <access>)`: what a computation over each item
/// leaves of the access.
pub open spec fn compute_result(ct: DataView, t: DataView) -> Option<DataView> {
    match (ct, access_of(t)) {
        (DataView::ComputeType(c), Some(a)) => match c {
            ComputeType::ReduceMean | ComputeType::ReduceSum | ComputeType::ReduceMax => access_value(
                plain_access(a.shape, Seq::empty()),
            ),
            ComputeType::Softmax => if a.item_shape.len() == 1 {
                access_value(plain_access(a.shape, a.item_shape))
            } else {
                None
            },
            ComputeType::ElementwiseAdd | ComputeType::ElementwiseMul
            | ComputeType::ElementwiseDiv => if a.item_shape.len() >= 1 {
                access_value(plain_access(a.shape, a.item_shape.skip(1)))
            } else {
                None
            },
            ComputeType::DotProduct => if a.item_shape.len() >= 1 {
                access_value(plain_access(a.shape, Seq::empty()))
            } else {
                None
            },
            ComputeType::ReLU | ComputeType::Sqrt | ComputeType::Negative => access_value(
                plain_access(a.shape, a.item_shape),
            ),
        },
        _ => None,
    }
}

pub fn compute(ct: &MyAnalysisData, t: &MyAnalysisData) -> (r: Option<MyAnalysisData>)
    ensures
        opt_model(r) == compute_result(ct@, t@),
{
    match (ct, t) {
        (MyAnalysisData::ComputeType(c), MyAnalysisData::AccessPattern(a)) => {
            let shape = copy_dims(&a.shape);
            match c {
                ComputeType::ReduceMean | ComputeType::ReduceSum | ComputeType::ReduceMax => Some(
                    MyAnalysisData::AccessPattern(plain_access_data(shape, Vec::new())),
                ),
                ComputeType::Softmax => if a.item_shape.len() == 1 {
                    Some(MyAnalysisData::AccessPattern(plain_access_data(shape, copy_dims(&a.item_shape))))
                } else {
                    None
                },
                ComputeType::ElementwiseAdd | ComputeType::ElementwiseMul
                | ComputeType::ElementwiseDiv => if a.item_shape.len() >= 1 {
                    Some(MyAnalysisData::AccessPattern(plain_access_data(shape, dims_skip(&a.item_shape, 1))))
                } else {
                    None
                },
                ComputeType::DotProduct => if a.item_shape.len() >= 1 {
                    Some(MyAnalysisData::AccessPattern(plain_access_data(shape, Vec::new())))
                } else {
                    None
                },
                ComputeType::ReLU | ComputeType::Sqrt | ComputeType::Negative => Some(
                    MyAnalysisData::AccessPattern(plain_access_data(shape, copy_dims(&a.item_shape))),
                ),
            }
        },
        _ => None,
    }
}

/// An access with dimension `i` (counted through the shape and on into the
/// item shape) set to `v`.
pub open spec fn with_dim(a: AccessView, i: int, v: usize) -> AccessView {
    if i < a.shape.len() {
        AccessView { shape: a.shape.update(i, v), ..a }
    } else {
        AccessView { item_shape: a.item_shape.update(i - a.shape.len(), v), ..a }
    }
}

/// `(access-concatenate <a0> <a1> <axis>)`: two accesses of the same layout
/// joined along `axis`.
pub open spec fn access_concatenate_result(t0: DataView, t1: DataView, axis: DataView) -> Option<
    DataView,
> {
    match (usize_of(axis), access_of(t0), access_of(t1)) {
        (Some(ax), Some(a0), Some(a1)) => if a0.shape.len() == a1.shape.len()
            && a0.item_shape.len() == a1.item_shape.len() && a1.ndim_fits() && ax < a1.ndim()
            && a0.dims()[ax as int] + a1.dims()[ax as int] <= usize::MAX {
            access_value(
                with_dim(
                    a0.forget_zeros(),
                    ax as int,
                    (a0.dims()[ax as int] + a1.dims()[ax as int]) as usize,
                ),
            )
        } else {
            None
        },
        _ => None,
    }
}

pub fn access_concatenate(t0: &MyAnalysisData, t1: &MyAnalysisData, axis: &MyAnalysisData) -> (r:
    Option<MyAnalysisData>)
    ensures
        opt_model(r) == access_concatenate_result(t0@, t1@, axis@),
{
    match (axis, t0, t1) {
        (
            MyAnalysisData::Usize(ax),
            MyAnalysisData::AccessPattern(a0),
            MyAnalysisData::AccessPattern(a1),
        ) => {
            let ax = *ax;
            if a0.shape.len() != a1.shape.len() || a0.item_shape.len() != a1.item_shape.len() {
                return None;
            }
            match ndim_checked(a1) {
                Some(nd) => {
                    if ax >= nd {
                        return None;
                    }
                    let x = a0.index(ax);
                    let y = a1.index(ax);
                    if x > usize::MAX - y {
                        return None;
                    }
                    let mut out = plain_access_data(copy_dims(&a0.shape), copy_dims(&a0.item_shape));
                    let d = out.index_mut(ax);
                    *d = x + y;
                    assert(out@ == with_dim(a0@.forget_zeros(), ax as int, (x + y) as usize));
                    Some(MyAnalysisData::AccessPattern(out))
                },
                None => None,
            }
        },
        _ => None,
    }
}

/// `(systolic-array <rows> <cols> <a0> <a1>)`: a vector (or a batch of
/// them) of length `rows` times a `rows` by `cols` matrix.
pub open spec fn systolic_array_result(rows: DataView, cols: DataView, t0: DataView, t1: DataView) -> Option<DataView> {
    match (usize_of(rows), usize_of(cols), access_of(t0), access_of(t1)) {
        (Some(r), Some(c), Some(a0), Some(a1)) => if a1.shape.len() == 0 && a0.shape.len() <= 1
            && a1.item_shape == seq![r, c] && a0.item_shape == seq![r] {
            access_value(plain_access(a0.shape.push(a1.item_shape[1]), Seq::empty()))
        } else {
            None
        },
        _ => None,
    }
}

/// `(systolic-array-with-blocking <rows> <cols> <a0> <a1>)`: as
/// `systolic-array`, for a vector whose length is a multiple of `rows` and a
/// matrix whose width is a multiple of `cols`.
pub open spec fn systolic_array_with_blocking_result(rows: DataView, cols: DataView, t0: DataView, t1: DataView) -> Option<DataView> {
    match (usize_of(rows), usize_of(cols), access_of(t0), access_of(t1)) {
        (Some(r), Some(c), Some(a0), Some(a1)) => if a1.shape.len() == 0 && a0.shape.len() <= 1
            && a0.item_shape.len() == 1 && r != 0 && a0.item_shape[0] % r == 0
            && a1.item_shape.len() == 2 && a0.item_shape[0] == a1.item_shape[0] && c != 0
            && a1.item_shape[1] % c == 0 {
            access_value(plain_access(a0.shape.push(a1.item_shape[1]), Seq::empty()))
        } else {
            None
        },
        _ => None,
    }
}

pub fn systolic_array(
    rows: &MyAnalysisData,
    cols: &MyAnalysisData,
    t0: &MyAnalysisData,
    t1: &MyAnalysisData,
    blocking: bool,
) -> (r: Option<MyAnalysisData>)
    ensures
        !blocking ==> opt_model(r) == systolic_array_result(rows@, cols@, t0@, t1@),
        blocking ==> opt_model(r) == systolic_array_with_blocking_result(rows@, cols@, t0@, t1@),
{
    match (rows, cols, t0, t1) {
        (
            MyAnalysisData::Usize(r),
            MyAnalysisData::Usize(c),
            MyAnalysisData::AccessPattern(a0),
            MyAnalysisData::AccessPattern(a1),
        ) => {
            let (r, c) = (*r, *c);
            if a1.shape.len() != 0 || a0.shape.len() > 1 {
                return None;
            }
            let i0 = &a0.item_shape;
            let i1 = &a1.item_shape;
            if !blocking {
                if !(i1.len() == 2 && i1[0] == r && i1[1] == c && i0.len() == 1 && i0[0] == r) {
                    proof {
                        if a1@.item_shape == seq![r, c] && a0@.item_shape == seq![r] {
                            assert(i1@[0] == r && i1@[1] == c && i0@[0] == r);
                        }
                    }
                    return None;
                }
                assert(i1@ =~= seq![r, c]);
                assert(i0@ =~= seq![r]);
            } else {
                if !(i0.len() == 1 && r != 0 && i0[0] % r == 0 && i1.len() == 2 && i0[0] == i1[0]
                    && c != 0 && i1[1] % c == 0) {
                    return None;
                }
            }
            let mut s = copy_dims(&a0.shape);
            s.push(i1[1]);
            Some(MyAnalysisData::AccessPattern(plain_access_data(s, Vec::new())))
        },
        _ => None,
    }
}


/// The zero regions of axis `axis` after slicing it from length `orig` down
/// to `low..high`: the flags past `high`, then those before `low`, are
/// dropped. `None` where the flags are too short for that.
pub open spec fn sliced_zeros(
    z: Map<usize, Seq<bool>>,
    axis: usize,
    orig: usize,
    low: usize,
    high: usize,
) -> Option<Map<usize, Seq<bool>>> {
    if z.contains_key(axis) {
        let f = z[axis];
        if orig <= f.len() && low <= f.len() - (orig - high) {
            Some(
                z.insert(
                    axis,
                    bools_removed(bools_removed(f, high as int, orig - high), 0, low as int),
                ),
            )
        } else {
            None
        }
    } else {
        Some(z)
    }
}

/// `(access-slice <access> <axis> <low> <high>)`: dimension `axis` cut down to
/// `low..high`; its zero regions are cut the same way.
pub open spec fn access_slice_result(t: DataView, axis: DataView, low: DataView, high: DataView) -> Option<DataView> {
    match (access_of(t), usize_of(axis), usize_of(low), usize_of(high)) {
        (Some(a), Some(ax), Some(lo), Some(hi)) => if a.ndim_fits() && ax < a.ndim() && lo
            < a.dims()[ax as int] && hi <= a.dims()[ax as int] && lo <= hi {
            match sliced_zeros(a.zero_regions, ax, a.dims()[ax as int], lo, hi) {
                Some(z) => access_value(
                    AccessView { zero_regions: z, ..with_dim(a, ax as int, (hi - lo) as usize) },
                ),
                None => None,
            }
        } else {
            None
        },
        _ => None,
    }
}

pub fn access_slice(t: &MyAnalysisData, axis: &MyAnalysisData, low: &MyAnalysisData, high: &MyAnalysisData) -> (r:
    Option<MyAnalysisData>)
    ensures
        opt_model(r) == access_slice_result(t@, axis@, low@, high@),
{
    broadcast use vstd::std_specs::hash::group_hash_axioms;

    match (t, axis, low, high) {
        (
            MyAnalysisData::AccessPattern(a),
            MyAnalysisData::Usize(ax),
            MyAnalysisData::Usize(lo),
            MyAnalysisData::Usize(hi),
        ) => {
            let (ax, lo, hi) = (*ax, *lo, *hi);
            match ndim_checked(a) {
                Some(nd) => {
                    if ax >= nd {
                        return None;
                    }
                    let orig = a.index(ax);
                    if !(lo < orig && hi <= orig && lo <= hi) {
                        return None;
                    }
                    let mut out = a.copy();
                    let d = out.index_mut(ax);
                    *d = hi - lo;
                    match a.zero_regions.get(&ax) {
                        Some(f) => {
                            let mut g = crate::data::copy_flags(f);
                            if orig > g.len() || lo > g.len() - (orig - hi) {
                                return None;
                            }
                            g.remove_elements(hi, orig - hi);
                            g.remove_elements(0, lo);
                            out.zero_regions.insert(ax, g);
                            assert(crate::data::zero_view(out.zero_regions@) =~= a@.zero_regions.insert(
                                ax,
                                bools_removed(bools_removed(f@, hi as int, orig - hi), 0, lo as int),
                            ));
                        },
                        None => {},
                    }
                    Some(MyAnalysisData::AccessPattern(out))
                },
                None => None,
            }
        },
        _ => None,
    }
}

/// The flags of a padded axis of length `orig`: `after` flags set at the
/// end, then `before` flags set at the front.
pub open spec fn padded_flags(f: Seq<bool>, orig: usize, before: usize, after: usize) -> Seq<bool> {
    let f1 = bools_inserted(f, orig as int, after as nat);
    let f2 = bools_added(f1, orig as int, orig + after);
    let f3 = bools_inserted(f2, 0, before as nat);
    bools_added(f3, 0, before as int)
}

/// Whether every zero-region axis is a dimension of `dims` whose length is at
/// least the number of flags.
pub open spec fn zeros_fit(z: Map<usize, Seq<bool>>, dims: Seq<usize>) -> bool {
    forall|k: usize| #[trigger] z.contains_key(k) ==> k < dims.len() && z[k].len() <= dims[k as int]
}

/// The pad type that a value holds.
pub open spec fn pad_type_of(d: DataView) -> Option<PadType> {
    match d {
        DataView::PadType(p) => Some(p),
        _ => None,
    }
}

/// `(access-pad <access> <pad-type> <axis> <before> <after>)`: dimension
/// `axis` grows by `before + after`. Zero padding marks the new elements as
/// zero; min padding forgets all zero regions.
pub open spec fn access_pad_result(
    t: DataView,
    pad: DataView,
    axis: DataView,
    before: DataView,
    after: DataView,
) -> Option<DataView> {
    match (access_of(t), pad_type_of(pad), usize_of(axis), usize_of(before), usize_of(after)) {
        (Some(a), Some(p), Some(ax), Some(b), Some(e)) => if a.ndim_fits() && ax < a.ndim() && b + e
            <= usize::MAX && a.dims()[ax as int] + (b + e) <= usize::MAX {
            let orig = a.dims()[ax as int];
            let grown = with_dim(a, ax as int, (orig + b + e) as usize);
            let z = match p {
                PadType::MinPadding => Map::empty(),
                PadType::ZeroPadding => {
                    let f = if a.zero_regions.contains_key(ax) {
                        a.zero_regions[ax]
                    } else {
                        Seq::empty()
                    };
                    a.zero_regions.insert(ax, padded_flags(f, orig, b, e))
                },
            };
            if zeros_fit(a.zero_regions, grown.dims()) && zeros_fit(z, grown.dims()) {
                access_value(AccessView { zero_regions: z, ..grown })
            } else {
                None
            }
        } else {
            None
        },
        _ => None,
    }
}

/// Whether every axis of `z` is a dimension of `dims` at least as long as
/// its flags.
pub fn zeros_fit_exec(z: &HashMap<usize, Vec<bool>>, dims: &Vec<usize>) -> (r: bool)
    ensures
        r == zeros_fit(crate::data::zero_view(z@), dims@),
{
    broadcast use vstd::std_specs::hash::group_hash_axioms;

    let ghost pairs = vstd::std_specs::hash::spec_hash_map_iter(z).remaining();
    for (k, v) in it: z.iter()
        invariant
            it.seq() == pairs,
            forall|j: int|
                0 <= j < it.index() ==> *pairs[j].0 < dims@.len() && (*pairs[j].1)@.len()
                    <= dims@[*pairs[j].0 as int],
    {
        proof {
            assert(z@.contains_key(*k) && z@[*k] == *v);
        }
        if *k >= dims.len() || v.len() > dims[*k] {
            assert(crate::data::zero_view(z@).contains_key(*k));
            return false;
        }
    }
    proof {
        assert forall|key: usize| #[trigger] crate::data::zero_view(z@).contains_key(key) implies key
            < dims@.len() && crate::data::zero_view(z@)[key].len() <= dims@[key as int] by {
            assert(z@.contains_key(key));
            assert(pairs.contains((&key, &z@[key])));
            let j = choose|j: int| 0 <= j < pairs.len() && pairs[j] == (&key, &z@[key]);
        }
    }
    true
}

pub fn access_pad(
    t: &MyAnalysisData,
    pad: &MyAnalysisData,
    axis: &MyAnalysisData,
    before: &MyAnalysisData,
    after: &MyAnalysisData,
) -> (r: Option<MyAnalysisData>)
    ensures
        opt_model(r) == access_pad_result(t@, pad@, axis@, before@, after@),
{
    broadcast use vstd::std_specs::hash::group_hash_axioms;

    match (t, pad, axis, before, after) {
        (
            MyAnalysisData::AccessPattern(a),
            MyAnalysisData::PadType(p),
            MyAnalysisData::Usize(ax),
            MyAnalysisData::Usize(b),
            MyAnalysisData::Usize(e),
        ) => {
            let (ax, b, e) = (*ax, *b, *e);
            match ndim_checked(a) {
                Some(nd) => {
                    if ax >= nd || b > usize::MAX - e {
                        return None;
                    }
                    let orig = a.index(ax);
                    if orig > usize::MAX - (b + e) {
                        return None;
                    }
                    let mut grown = a.copy();
                    let d = grown.index_mut(ax);
                    *d = orig + (b + e);
                    let ghost gv = with_dim(a@, ax as int, (orig + b + e) as usize);
                    assert(grown@ == gv);
                    let dims = grown.as_vec();
                    if !zeros_fit_exec(&a.zero_regions, &dims) {
                        return None;
                    }
                    let z: HashMap<usize, Vec<bool>> = match p {
                        PadType::MinPadding => {
                            let z = HashMap::new();
                            assert(crate::data::zero_view(z@) =~= Map::<usize, Seq<bool>>::empty());
                            z
                        },
                        PadType::ZeroPadding => {
                            let mut f: Vec<bool> = match a.zero_regions.get(&ax) {
                                Some(f) => crate::data::copy_flags(f),
                                None => Vec::new(),
                            };
                            let ghost f0 = f@;
                            f.insert_elements(orig, e);
                            f.add_range((orig, orig + e));
                            f.insert_elements(0, b);
                            f.add_range((0, b));
                            assert(f@ == padded_flags(f0, orig, b, e));
                            let mut z = crate::data::copy_zero_regions(&a.zero_regions);
                            z.insert(ax, f);
                            assert(crate::data::zero_view(z@) =~= a@.zero_regions.insert(
                                ax,
                                padded_flags(f0, orig, b, e),
                            ));
                            z
                        },
                    };
                    if !zeros_fit_exec(&z, &dims) {
                        return None;
                    }
                    grown.zero_regions = z;
                    Some(MyAnalysisData::AccessPattern(grown))
                },
                None => None,
            }
        },
        _ => None,
    }
}


/// Flags set where both `f0` and `f1` are set, over the shorter of the two.
pub open spec fn and_flags(f0: Seq<bool>, f1: Seq<bool>) -> Seq<bool> {
    let n = if f0.len() <= f1.len() {
        f0.len()
    } else {
        f1.len()
    };
    Seq::new(n, |i: int| f0[i] && f1[i])
}

/// Whether some flag is set.
pub open spec fn any_set(f: Seq<bool>) -> bool {
    exists|i: int| 0 <= i < f.len() && f[i]
}

/// The zero flags that item dimension `d` of a cartesian product gets: those
/// set on that item dimension in both operands, where some are set.
pub open spec fn product_lane(
    z0: Map<usize, Seq<bool>>,
    z1: Map<usize, Seq<bool>>,
    n0: int,
    n1: int,
    d: int,
) -> Option<Seq<bool>> {
    if z0.contains_key((n0 + d) as usize) && z1.contains_key((n1 + d) as usize) {
        let f = and_flags(z0[(n0 + d) as usize], z1[(n1 + d) as usize]);
        if any_set(f) {
            Some(f)
        } else {
            None
        }
    } else {
        None
    }
}

/// Whether the axis numbers of the first `m` item dimensions of both
/// operands, and of each product lane that is kept, fit in a `usize`.
pub open spec fn product_zeros_fit(
    z0: Map<usize, Seq<bool>>,
    z1: Map<usize, Seq<bool>>,
    n0: int,
    n1: int,
    m: int,
) -> bool {
    &&& (m == 0 || (n0 + m - 1 <= usize::MAX && n1 + m - 1 <= usize::MAX))
    &&& forall|d: int|
        0 <= d < m && #[trigger] product_lane(z0, z1, n0, n1, d) is Some ==> n0 + n1 + 1 + d
            <= usize::MAX
}

/// The zero regions of a cartesian product over its first `m` item
/// dimensions: lane `d` lands on axis `n0 + n1 + 1 + d`.
pub open spec fn product_zeros(
    z0: Map<usize, Seq<bool>>,
    z1: Map<usize, Seq<bool>>,
    n0: int,
    n1: int,
    m: int,
) -> Map<usize, Seq<bool>> {
    Map::new(
        |k: usize|
            n0 + n1 + 1 <= k < n0 + n1 + 1 + m && product_lane(z0, z1, n0, n1, k - (n0 + n1 + 1)) is Some,
        |k: usize| product_lane(z0, z1, n0, n1, k - (n0 + n1 + 1))->0,
    )
}

/// Whether the element counts of a cartesian product agree, computed as
/// the product of the new dimensions and as the product of the operands'
/// dimensions, each without overflow.
pub open spec fn product_counts_agree(a0: AccessView, a1: AccessView) -> bool {
    match (
        checked_product(a0.shape + a1.shape),
        checked_product(seq![2usize] + a0.item_shape),
        checked_product(a0.shape),
        checked_product(a1.shape),
        checked_product(a0.item_shape),
    ) {
        (Some(p), Some(q), Some(x), Some(y), Some(w)) => p * q <= usize::MAX && x * y
            <= usize::MAX && x * y * 2 <= usize::MAX && x * y * 2 * w <= usize::MAX && p * q == x * y
            * 2 * w,
        _ => false,
    }
}

/// `(access-cartesian-product <a0> <a1>)`: every item of `a0` paired with
/// every item of `a1`; item dimensions known zero in both operands stay
/// known zero.
pub open spec fn access_cartesian_product_result(t0: DataView, t1: DataView) -> Option<DataView> {
    match (access_of(t0), access_of(t1)) {
        (Some(a0), Some(a1)) => {
            let n0 = a0.shape.len() as int;
            let n1 = a1.shape.len() as int;
            let m = a0.item_shape.len() as int;
            if a0.item_shape == a1.item_shape && product_counts_agree(a0, a1) && product_zeros_fit(
                a0.zero_regions,
                a1.zero_regions,
                n0,
                n1,
                m,
            ) {
                access_value(
                    AccessView {
                        shape: a0.shape + a1.shape,
                        item_shape: seq![2usize] + a0.item_shape,
                        zero_regions: product_zeros(a0.zero_regions, a1.zero_regions, n0, n1, m),
                    },
                )
            } else {
                None
            }
        },
        _ => None,
    }
}

/// Flags set where both inputs are set, over the shorter of the two.
pub fn and_flags_exec(f0: &Vec<bool>, f1: &Vec<bool>) -> (r: Vec<bool>)
    ensures
        r@ == and_flags(f0@, f1@),
{
    let n = if f0.len() <= f1.len() {
        f0.len()
    } else {
        f1.len()
    };
    let mut r: Vec<bool> = Vec::new();
    let mut i: usize = 0;
    while i < n
        invariant
            i <= n,
            n <= f0@.len(),
            n <= f1@.len(),
            r@.len() == i,
            forall|j: int| 0 <= j < i ==> #[trigger] r@[j] == (f0@[j] && f1@[j]),
        decreases n - i,
    {
        r.push(f0[i] && f1[i]);
        i = i + 1;
    }
    assert(r@ =~= and_flags(f0@, f1@));
    r
}

/// Whether some flag is set.
pub fn any_set_exec(f: &Vec<bool>) -> (r: bool)
    ensures
        r == any_set(f@),
{
    let mut i: usize = 0;
    while i < f.len()
        invariant
            i <= f@.len(),
            forall|j: int| 0 <= j < i ==> !f@[j],
        decreases f.len() - i,
    {
        if f[i] {
            return true;
        }
        i = i + 1;
    }
    false
}

/// Whether the element counts of a cartesian product agree, every product
/// computed with overflow checks.
fn product_counts_agree_exec(a0: &AccessPatternData, a1: &AccessPatternData) -> (r: bool)
    ensures
        r == product_counts_agree(a0@, a1@),
{
    let both = dims_concat(&a0.shape, &a1.shape);
    let two = vec![2usize];
    let pair_item = dims_concat(&two, &a0.item_shape);
    assert(two@ =~= seq![2usize]);
    match (
        product(&both),
        product(&pair_item),
        product(&a0.shape),
        product(&a1.shape),
        product(&a0.item_shape),
    ) {
        (Some(p), Some(q), Some(x), Some(y), Some(w)) => {
            if q != 0 && p > usize::MAX / q {
                assert(p * q > usize::MAX) by (nonlinear_arith)
                    requires
                        q != 0,
                        p > usize::MAX / q,
                ;
                return false;
            }
            assert(p * q <= usize::MAX) by (nonlinear_arith)
                requires
                    q == 0 || p <= usize::MAX / q,
            ;
            let lhs = p * q;
            if y != 0 && x > usize::MAX / y {
                assert(x * y > usize::MAX) by (nonlinear_arith)
                    requires
                        y != 0,
                        x > usize::MAX / y,
                ;
                return false;
            }
            assert(x * y <= usize::MAX) by (nonlinear_arith)
                requires
                    y == 0 || x <= usize::MAX / y,
            ;
            let xy = x * y;
            if xy > usize::MAX / 2 {
                return false;
            }
            let xy2 = xy * 2;
            if w != 0 && xy2 > usize::MAX / w {
                assert(xy2 * w > usize::MAX) by (nonlinear_arith)
                    requires
                        w != 0,
                        xy2 > usize::MAX / w,
                ;
                return false;
            }
            assert(xy2 * w <= usize::MAX) by (nonlinear_arith)
                requires
                    w == 0 || xy2 <= usize::MAX / w,
            ;
            lhs == xy2 * w
        },
        _ => false,
    }
}

pub fn access_cartesian_product(t0: &MyAnalysisData, t1: &MyAnalysisData) -> (r: Option<
    MyAnalysisData,
>)
    ensures
        opt_model(r) == access_cartesian_product_result(t0@, t1@),
{
    broadcast use vstd::std_specs::hash::group_hash_axioms;

    match (t0, t1) {
        (MyAnalysisData::AccessPattern(a0), MyAnalysisData::AccessPattern(a1)) => {
            if !crate::data::same_dims(&a0.item_shape, &a1.item_shape) {
                return None;
            }
            if !product_counts_agree_exec(a0, a1) {
                return None;
            }
            let n0 = a0.shape.len();
            let n1 = a1.shape.len();
            let m = a0.item_shape.len();
            let ghost z0 = a0@.zero_regions;
            let ghost z1 = a1@.zero_regions;
            if m > 0 && (n0 > usize::MAX - (m - 1) || n1 > usize::MAX - (m - 1)) {
                return None;
            }
            let mut z: HashMap<usize, Vec<bool>> = HashMap::new();
            assert(crate::data::zero_view(z@) =~= product_zeros(z0, z1, n0 as int, n1 as int, 0));
            let mut d: usize = 0;
            while d < m
                invariant
                    d <= m,
                    m == a0@.item_shape.len(),
                    n0 == a0@.shape.len(),
                    n1 == a1@.shape.len(),
                    z0 == a0@.zero_regions,
                    z1 == a1@.zero_regions,
                    m == 0 || (n0 + m - 1 <= usize::MAX && n1 + m - 1 <= usize::MAX),
                    t0@ == DataView::AccessPattern(a0@),
                    t1@ == DataView::AccessPattern(a1@),
                    a0@.item_shape == a1@.item_shape,
                    product_counts_agree(a0@, a1@),
                    forall|e: int|
                        0 <= e < d && #[trigger] product_lane(z0, z1, n0 as int, n1 as int, e) is Some
                            ==> n0 + n1 + 1 + e <= usize::MAX,
                    crate::data::zero_view(z@) == product_zeros(z0, z1, n0 as int, n1 as int, d as int),
                decreases m - d,
            {
                let k0 = n0 + d;
                let k1 = n1 + d;
                let ghost before = z@;
                let ghost lane = product_lane(z0, z1, n0 as int, n1 as int, d as int);
                match (a0.zero_regions.get(&k0), a1.zero_regions.get(&k1)) {
                    (Some(f0), Some(f1)) => {
                        let f = and_flags_exec(f0, f1);
                        assert(lane == if any_set(f@) {
                            Some(f@)
                        } else {
                            None::<Seq<bool>>
                        });
                        if any_set_exec(&f) {
                            if n0 > usize::MAX - n1 || n0 + n1 > usize::MAX - 1 || n0 + n1 + 1
                                > usize::MAX - d {
                                assert(!product_zeros_fit(z0, z1, n0 as int, n1 as int, m as int));
                                return None;
                            }
                            let key = n0 + n1 + 1 + d;
                            let ghost fv = f@;
                            z.insert(key, f);
                            let ghost zv = crate::data::zero_view(z@);
                            let ghost pz = product_zeros(z0, z1, n0 as int, n1 as int, d + 1);
                            assert forall|x: usize| zv.contains_key(x) == pz.contains_key(x) by {
                                if x != key {
                                    assert(crate::data::zero_view(before).contains_key(x)
                                        == zv.contains_key(x));
                                }
                            }
                            assert forall|x: usize| #[trigger] zv.contains_key(x) implies zv[x]
                                == pz[x] by {
                                if x != key {
                                    assert(zv[x] == crate::data::zero_view(before)[x]);
                                }
                            }
                            assert(zv =~= pz);
                        } else {
                            assert(crate::data::zero_view(z@) =~= product_zeros(
                                z0,
                                z1,
                                n0 as int,
                                n1 as int,
                                d + 1,
                            ));
                        }
                    },
                    _ => {
                        assert(lane is None);
                        assert(crate::data::zero_view(z@) =~= product_zeros(
                            z0,
                            z1,
                            n0 as int,
                            n1 as int,
                            d + 1,
                        ));
                    },
                }
                d = d + 1;
            }
            let shape = dims_concat(&a0.shape, &a1.shape);
            let two = vec![2usize];
            let item = dims_concat(&two, &a0.item_shape);
            assert(two@ =~= seq![2usize]);
            Some(MyAnalysisData::AccessPattern(AccessPatternData { shape, item_shape: item, zero_regions: z }))
        },
        _ => None,
    }
}

} // verus!
