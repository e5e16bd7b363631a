//! What the analysis computes for the operators on whole tensors and on
//! shape values. Each `*_result` function states the value that a node gets
//! from the values of its children, or `None` where the node does not type
//! check or an index or a computation goes out of range.
use crate::data::{
    access_value, copy_dims, opt_model, plain_access, plain_access_data, shape_of, shape_value,
    usize_of, DataView, MyAnalysisData, ShapeData,
};
use crate::dims::{dims_concat, dims_skip, dims_take};
use vstd::prelude::*;

verus! {

/// `(move-axis <tensor> <src> <dest>)`: the shape with axes `src` and `dest` swapped.
pub open spec fn move_axis_result(t: DataView, src: DataView, dest: DataView) -> Option<DataView> {
    match (shape_of(t), usize_of(src), usize_of(dest)) {
        (Some(s), Some(a), Some(b)) => if a < s.len() && b < s.len() {
            shape_value(s.update(b as int, s[a as int]).update(a as int, s[b as int]))
        } else {
            None
        },
        _ => None,
    }
}

pub fn move_axis(t: &MyAnalysisData, src: &MyAnalysisData, dest: &MyAnalysisData) -> (r: Option<
    MyAnalysisData,
>)
    ensures
        opt_model(r) == move_axis_result(t@, src@, dest@),
{
    match (t, src, dest) {
        (MyAnalysisData::Shape(s), MyAnalysisData::Usize(a), MyAnalysisData::Usize(b)) => {
            let a = *a;
            let b = *b;
            if a < s.shape.len() && b < s.shape.len() {
                let mut v = copy_dims(&s.shape);
                let tmp = v[b];
                let x = v[a];
                v.set(b, x);
                v.set(a, tmp);
                Some(MyAnalysisData::Shape(ShapeData { shape: v }))
            } else {
                None
            }
        },
        _ => None,
    }
}

/// `(cartesian-product <t0> <t1>)`: for shapes `[a.., c]` (of one or two
/// dimensions) and `[b.., c]`, the shape `[a.., b.., 2, c]`.
pub open spec fn cartesian_product_result(t0: DataView, t1: DataView) -> Option<DataView> {
    match (shape_of(t0), shape_of(t1)) {
        (Some(l), Some(r)) => if 1 <= l.len() <= 2 && r.len() >= 1 && l.last() == r.last() {
            shape_value(l.drop_last() + r.drop_last() + seq![2usize, l.last()])
        } else {
            None
        },
        _ => None,
    }
}

pub fn cartesian_product(t0: &MyAnalysisData, t1: &MyAnalysisData) -> (r: Option<MyAnalysisData>)
    ensures
        opt_model(r) == cartesian_product_result(t0@, t1@),
{
    match (t0, t1) {
        (MyAnalysisData::Shape(l), MyAnalysisData::Shape(r)) => {
            let ln = l.shape.len();
            let rn = r.shape.len();
            if 1 <= ln && ln <= 2 && rn >= 1 && l.shape[ln - 1] == r.shape[rn - 1] {
                let a = dims_take(&l.shape, ln - 1);
                let b = dims_take(&r.shape, rn - 1);
                let mut v = dims_concat(&a, &b);
                v.push(2);
                v.push(l.shape[ln - 1]);
                assert(v@ =~= l.shape@.drop_last() + r.shape@.drop_last() + seq![
                    2usize,
                    l.shape@.last(),
                ]);
                Some(MyAnalysisData::Shape(ShapeData { shape: v }))
            } else {
                None
            }
        },
        _ => None,
    }
}

/// `(map-dot-product <tensor>)`: for shape `[a.., 2, c]`, the shape `[a..]`.
pub open spec fn map_dot_product_result(t: DataView) -> Option<DataView> {
    match shape_of(t) {
        Some(s) => if s.len() >= 3 && s[s.len() - 2] == 2 {
            shape_value(s.take(s.len() - 2))
        } else {
            None
        },
        None => None,
    }
}

pub fn map_dot_product(t: &MyAnalysisData) -> (r: Option<MyAnalysisData>)
    ensures
        opt_model(r) == map_dot_product_result(t@),
{
    match t {
        MyAnalysisData::Shape(s) => {
            let n = s.shape.len();
            if n >= 3 && s.shape[n - 2] == 2 {
                Some(MyAnalysisData::Shape(ShapeData { shape: dims_take(&s.shape, n - 2) }))
            } else {
                None
            }
        },
        _ => None,
    }
}

/// `(slice <tensor> <axis> <low> <high>)`: the shape with axis `axis` cut to
/// `high - low`.
pub open spec fn slice_result(t: DataView, axis: DataView, low: DataView, high: DataView) -> Option<
    DataView,
> {
    match (shape_of(t), usize_of(axis), usize_of(low), usize_of(high)) {
        (Some(s), Some(ax), Some(lo), Some(hi)) => if ax < s.len() && lo < s[ax as int] && hi
            <= s[ax as int] && lo <= hi {
            shape_value(s.update(ax as int, (hi - lo) as usize))
        } else {
            None
        },
        _ => None,
    }
}

pub fn slice(t: &MyAnalysisData, axis: &MyAnalysisData, low: &MyAnalysisData, high: &MyAnalysisData) -> (r:
    Option<MyAnalysisData>)
    ensures
        opt_model(r) == slice_result(t@, axis@, low@, high@),
{
    match (t, axis, low, high) {
        (
            MyAnalysisData::Shape(s),
            MyAnalysisData::Usize(ax),
            MyAnalysisData::Usize(lo),
            MyAnalysisData::Usize(hi),
        ) => {
            let (ax, lo, hi) = (*ax, *lo, *hi);
            if ax < s.shape.len() && lo < s.shape[ax] && hi <= s.shape[ax] && lo <= hi {
                let mut v = copy_dims(&s.shape);
                v.set(ax, hi - lo);
                Some(MyAnalysisData::Shape(ShapeData { shape: v }))
            } else {
                None
            }
        },
        _ => None,
    }
}

/// `(concatenate <t0> <t1> <axis>)`: shapes of the same rank joined along `axis`.
pub open spec fn concatenate_result(t0: DataView, t1: DataView, axis: DataView) -> Option<DataView> {
    match (shape_of(t0), shape_of(t1), usize_of(axis)) {
        (Some(s0), Some(s1), Some(ax)) => if s0.len() == s1.len() && ax < s1.len() && s0[ax as int]
            + s1[ax as int] <= usize::MAX {
            shape_value(s0.update(ax as int, (s0[ax as int] + s1[ax as int]) as usize))
        } else {
            None
        },
        _ => None,
    }
}

pub fn concatenate(t0: &MyAnalysisData, t1: &MyAnalysisData, axis: &MyAnalysisData) -> (r: Option<
    MyAnalysisData,
>)
    ensures
        opt_model(r) == concatenate_result(t0@, t1@, axis@),
{
    match (t0, t1, axis) {
        (MyAnalysisData::Shape(s0), MyAnalysisData::Shape(s1), MyAnalysisData::Usize(ax)) => {
            let ax = *ax;
            if s0.shape.len() == s1.shape.len() && ax < s1.shape.len() && s0.shape[ax]
                <= usize::MAX - s1.shape[ax] {
                let mut v = copy_dims(&s0.shape);
                v.set(ax, s0.shape[ax] + s1.shape[ax]);
                Some(MyAnalysisData::Shape(ShapeData { shape: v }))
            } else {
                None
            }
        },
        _ => None,
    }
}

/// `(elementwise-add <t0> <t1>)`: tensors of equal shape give that shape.
pub open spec fn elementwise_add_result(t0: DataView, t1: DataView) -> Option<DataView> {
    match (shape_of(t0), shape_of(t1)) {
        (Some(s0), Some(s1)) => if s0 == s1 {
            shape_value(s0)
        } else {
            None
        },
        _ => None,
    }
}

pub fn elementwise_add(t0: &MyAnalysisData, t1: &MyAnalysisData) -> (r: Option<MyAnalysisData>)
    ensures
        opt_model(r) == elementwise_add_result(t0@, t1@),
{
    match (t0, t1) {
        (MyAnalysisData::Shape(s0), MyAnalysisData::Shape(s1)) => {
            if crate::data::same_dims(&s0.shape, &s1.shape) {
                Some(MyAnalysisData::Shape(ShapeData { shape: copy_dims(&s0.shape) }))
            } else {
                None
            }
        },
        _ => None,
    }
}

/// `(bsg-systolic-array <rows> <cols> <t0> <t1>)`: for a left shape of one or
/// two dimensions and a right shape of two, the left shape without its last
/// dimension followed by the right shape without its first.
pub open spec fn bsg_systolic_array_result(
    rows: DataView,
    cols: DataView,
    t0: DataView,
    t1: DataView,
) -> Option<DataView> {
    match (usize_of(rows), usize_of(cols), shape_of(t0), shape_of(t1)) {
        (Some(_), Some(_), Some(l), Some(r)) => if (l.len() == 1 || l.len() == 2) && r.len() == 2 {
            shape_value(l.drop_last() + r.skip(1))
        } else {
            None
        },
        _ => None,
    }
}

pub fn bsg_systolic_array(
    rows: &MyAnalysisData,
    cols: &MyAnalysisData,
    t0: &MyAnalysisData,
    t1: &MyAnalysisData,
) -> (r: Option<MyAnalysisData>)
    ensures
        opt_model(r) == bsg_systolic_array_result(rows@, cols@, t0@, t1@),
{
    match (rows, cols, t0, t1) {
        (
            MyAnalysisData::Usize(_),
            MyAnalysisData::Usize(_),
            MyAnalysisData::Shape(l),
            MyAnalysisData::Shape(r),
        ) => {
            let ln = l.shape.len();
            if (ln == 1 || ln == 2) && r.shape.len() == 2 {
                let a = dims_take(&l.shape, ln - 1);
                let b = dims_skip(&r.shape, 1);
                Some(MyAnalysisData::Shape(ShapeData { shape: dims_concat(&a, &b) }))
            } else {
                None
            }
        },
        _ => None,
    }
}

/// `(shape-of <tensor>)`: the tensor's shape.
pub open spec fn shape_of_result(t: DataView) -> Option<DataView> {
    match shape_of(t) {
        Some(s) => shape_value(s),
        None => None,
    }
}

pub fn shape_of_node(t: &MyAnalysisData) -> (r: Option<MyAnalysisData>)
    ensures
        opt_model(r) == shape_of_result(t@),
{
    match t {
        MyAnalysisData::Shape(s) => Some(MyAnalysisData::Shape(ShapeData { shape: copy_dims(&s.shape) })),
        _ => None,
    }
}

/// `(slice-shape <shape> <dim>)`: the dimensions from `dim` on.
pub open spec fn slice_shape_result(shape: DataView, dim: DataView) -> Option<DataView> {
    match (shape_of(shape), usize_of(dim)) {
        (Some(s), Some(d)) => if d <= s.len() {
            shape_value(s.skip(d as int))
        } else {
            None
        },
        _ => None,
    }
}

pub fn slice_shape(shape: &MyAnalysisData, dim: &MyAnalysisData) -> (r: Option<MyAnalysisData>)
    ensures
        opt_model(r) == slice_shape_result(shape@, dim@),
{
    match (shape, dim) {
        (MyAnalysisData::Shape(s), MyAnalysisData::Usize(d)) => {
            if *d <= s.shape.len() {
                Some(MyAnalysisData::Shape(ShapeData { shape: dims_skip(&s.shape, *d) }))
            } else {
                None
            }
        },
        _ => None,
    }
}

/// `(shape-insert-axis <shape> <dim>)`: an axis of length 1 inserted at `dim`.
pub open spec fn shape_insert_axis_result(shape: DataView, dim: DataView) -> Option<DataView> {
    match (shape_of(shape), usize_of(dim)) {
        (Some(s), Some(d)) => if d <= s.len() {
            shape_value(s.insert(d as int, 1))
        } else {
            None
        },
        _ => None,
    }
}

pub fn shape_insert_axis(shape: &MyAnalysisData, dim: &MyAnalysisData) -> (r: Option<
    MyAnalysisData,
>)
    ensures
        opt_model(r) == shape_insert_axis_result(shape@, dim@),
{
    match (shape, dim) {
        (MyAnalysisData::Shape(s), MyAnalysisData::Usize(d)) => {
            if *d <= s.shape.len() {
                let mut v = copy_dims(&s.shape);
                v.insert(*d, 1);
                Some(MyAnalysisData::Shape(ShapeData { shape: v }))
            } else {
                None
            }
        },
        _ => None,
    }
}

/// `(shape-remove-axis <shape> <dim>)`: the shape without axis `dim`.
pub open spec fn shape_remove_axis_result(shape: DataView, dim: DataView) -> Option<DataView> {
    match (shape_of(shape), usize_of(dim)) {
        (Some(s), Some(d)) => if d < s.len() {
            shape_value(s.remove(d as int))
        } else {
            None
        },
        _ => None,
    }
}

pub fn shape_remove_axis(shape: &MyAnalysisData, dim: &MyAnalysisData) -> (r: Option<
    MyAnalysisData,
>)
    ensures
        opt_model(r) == shape_remove_axis_result(shape@, dim@),
{
    match (shape, dim) {
        (MyAnalysisData::Shape(s), MyAnalysisData::Usize(d)) => {
            if *d < s.shape.len() {
                let mut v = copy_dims(&s.shape);
                v.remove(*d);
                Some(MyAnalysisData::Shape(ShapeData { shape: v }))
            } else {
                None
            }
        },
        _ => None,
    }
}

/// Whether every value of `items` holds a `usize`.
pub open spec fn all_usizes(items: Seq<DataView>) -> bool {
    forall|i: int| 0 <= i < items.len() ==> #[trigger] usize_of(items[i]) is Some
}

/// The `usize`s that the values of `items` hold.
pub open spec fn usizes(items: Seq<DataView>) -> Seq<usize> {
    Seq::new(items.len(), |i: int| usize_of(items[i])->0)
}

/// `(shape <usize>...)`: the shape of the given dimensions.
pub open spec fn shape_literal_result(items: Seq<DataView>) -> Option<DataView> {
    if all_usizes(items) {
        shape_value(usizes(items))
    } else {
        None
    }
}

/// `(list <usize>...)`: the list of the given numbers.
pub open spec fn list_literal_result(items: Seq<DataView>) -> Option<DataView> {
    if all_usizes(items) {
        Some(DataView::List(usizes(items)))
    } else {
        None
    }
}

/// The `usize`s held by the values at `ids` of `data`, or `None` where one of
/// them holds something else.
pub fn usizes_at(ids: &Vec<usize>, data: &Vec<MyAnalysisData>) -> (r: Option<Vec<usize>>)
    requires
        forall|i: int| 0 <= i < ids@.len() ==> #[trigger] ids@[i] < data@.len(),
    ensures
        match r {
            Some(v) => all_usizes(ids@.map_values(|k: usize| data@[k as int]@)) && v@ == usizes(
                ids@.map_values(|k: usize| data@[k as int]@),
            ),
            None => !all_usizes(ids@.map_values(|k: usize| data@[k as int]@)),
        },
{
    let ghost items = ids@.map_values(|k: usize| data@[k as int]@);
    let mut v: Vec<usize> = Vec::new();
    let mut i: usize = 0;
    while i < ids.len()
        invariant
            i <= ids@.len(),
            items == ids@.map_values(|k: usize| data@[k as int]@),
            forall|j: int| 0 <= j < ids@.len() ==> #[trigger] ids@[j] < data@.len(),
            v@.len() == i,
            forall|j: int|
                0 <= j < i ==> usize_of(#[trigger] items[j]) == Some(v@[j]),
        decreases ids.len() - i,
    {
        match &data[ids[i]] {
            MyAnalysisData::Usize(u) => {
                v.push(*u);
            },
            _ => {
                assert(usize_of(items[i as int]) is None);
                return None;
            },
        }
        i = i + 1;
    }
    assert(v@ =~= usizes(items));
    Some(v)
}

/// `(access-tensor <t>)`: an access with the tensor's shape and no item dimensions.
pub open spec fn access_tensor_result(t: DataView) -> Option<DataView> {
    match shape_of(t) {
        Some(s) => access_value(plain_access(s, Seq::empty())),
        None => None,
    }
}

pub fn access_tensor(t: &MyAnalysisData) -> (r: Option<MyAnalysisData>)
    ensures
        opt_model(r) == access_tensor_result(t@),
{
    match t {
        MyAnalysisData::Shape(s) => Some(
            MyAnalysisData::AccessPattern(plain_access_data(copy_dims(&s.shape), Vec::new())),
        ),
        _ => None,
    }
}

/// `(access-shape <shape> <item-shape>)`: an access of the given shapes.
pub open spec fn access_shape_result(shape: DataView, item_shape: DataView) -> Option<DataView> {
    match (shape_of(shape), shape_of(item_shape)) {
        (Some(s), Some(i)) => access_value(plain_access(s, i)),
        _ => None,
    }
}

pub fn access_shape(shape: &MyAnalysisData, item_shape: &MyAnalysisData) -> (r: Option<
    MyAnalysisData,
>)
    ensures
        opt_model(r) == access_shape_result(shape@, item_shape@),
{
    match (shape, item_shape) {
        (MyAnalysisData::Shape(s), MyAnalysisData::Shape(i)) => Some(
            MyAnalysisData::AccessPattern(
                plain_access_data(copy_dims(&s.shape), copy_dims(&i.shape)),
            ),
        ),
        _ => None,
    }
}

} // verus!
