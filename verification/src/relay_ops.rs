//! What the analysis computes for calls of Relay operators and for the
//! systolic arrays in convolution mode.
use crate::access_ops::{ndim_checked, with_dim};
use crate::data::{
    access_of, access_value, copy_dims, opt_model, plain_access, plain_access_data, shape_of,
    usize_of, AccessPatternData, AccessView, DataView, LiteralData, MyAnalysisData,
};
use crate::dims::{pooled_length, pooled_length_exec, window_count, window_count_exec};
use crate::operators::{RelayActivationLayout, RelayOperator};
use vstd::prelude::*;

verus! {

/// The values at `ids` of `data`.
pub open spec fn args_at(ids: Seq<usize>, data: Seq<MyAnalysisData>) -> Seq<DataView> {
    ids.map_values(|k: usize| data[k as int]@)
}

/// Whether every id is an index of `data`.
pub open spec fn ids_in(ids: Seq<usize>, n: int) -> bool {
    forall|i: int| 0 <= i < ids.len() ==> #[trigger] ids[i] < n
}

/// The activation layout that a value holds.
pub open spec fn layout_of(d: DataView) -> Option<RelayActivationLayout> {
    match d {
        DataView::RelayActivationLayout(l) => Some(l),
        _ => None,
    }
}

/// Whether a value holds a `usize` or a shape.
pub open spec fn is_axis_arg(d: DataView) -> bool {
    d is Usize || d is Shape
}

/// `n` ones.
pub open spec fn ones(n: nat) -> Seq<usize> {
    Seq::new(n, |i: int| 1usize)
}

/// `s` with ones in front, up to length `n`.
pub open spec fn left_padded(s: Seq<usize>, n: int) -> Seq<usize> {
    if n > s.len() {
        ones((n - s.len()) as nat) + s
    } else {
        s
    }
}

/// Whether two dimension lists of equal length broadcast against each
/// other: each pair is equal or holds a 1.
pub open spec fn broadcast_compatible(x: Seq<usize>, y: Seq<usize>) -> bool {
    forall|i: int| 0 <= i < x.len() ==> #[trigger] x[i] == y[i] || x[i] == 1 || y[i] == 1
}

/// The larger dimension of each pair.
pub open spec fn dims_max(x: Seq<usize>, y: Seq<usize>) -> Seq<usize> {
    Seq::new(x.len(), |i: int| if x[i] >= y[i] { x[i] } else { y[i] })
}

/// The broadcast of two accesses, as numpy broadcasts two arrays: the
/// shorter one gets leading ones, and each result dimension is the larger
/// of the pair. The result has no item dimensions.
pub open spec fn broadcast_pair_result(a: AccessView, b: AccessView) -> Option<DataView> {
    if a.ndim_fits() && b.ndim_fits() {
        let n = if a.ndim() >= b.ndim() {
            a.ndim()
        } else {
            b.ndim()
        };
        let x = left_padded(a.dims(), n);
        let y = left_padded(b.dims(), n);
        if broadcast_compatible(x, y) {
            access_value(plain_access(dims_max(x, y), Seq::empty()))
        } else {
            None
        }
    } else {
        None
    }
}

/// The pooled height and width dimensions of a 4-dimensional access:
/// dimensions `hi` and `hi + 1`.
pub open spec fn pooled_result(a: AccessView, pool: Seq<usize>, strides: Seq<usize>, padding: Seq<usize>, hi: int) -> Option<DataView> {
    match (
        pooled_length(padding[0], a.dims()[hi], padding[2], pool[0], strides[0]),
        pooled_length(padding[1], a.dims()[hi + 1], padding[3], pool[1], strides[1]),
    ) {
        (Some(h), Some(w)) => access_value(with_dim(with_dim(a.forget_zeros(), hi, h), hi + 1, w)),
        _ => None,
    }
}

/// The height axis of a layout.
pub open spec fn height_axis(l: RelayActivationLayout) -> int {
    match l {
        RelayActivationLayout::NCHW => 2,
        RelayActivationLayout::NHWC => 1,
    }
}

/// What a call of `op` on the arguments `rest` gives, for every operator but
/// up-sampling, whose result goes through a floating-point scale.
pub open spec fn relay_op_result(op: RelayOperator, rest: Seq<DataView>) -> Option<DataView> {
    match op {
        RelayOperator::RelayAdd | RelayOperator::RelayMaximum | RelayOperator::RelayMinimum => {
            if rest.len() == 2 {
                match (access_of(rest[0]), access_of(rest[1])) {
                    (Some(a), Some(b)) => broadcast_pair_result(a, b),
                    _ => None,
                }
            } else {
                None
            }
        },
        RelayOperator::RelayBiasAdd => if rest.len() == 3 && access_of(rest[1]) is Some && is_axis_arg(
            rest[2],
        ) {
            match access_of(rest[0]) {
                Some(a) => access_value(a.forget_zeros()),
                None => None,
            }
        } else {
            None
        },
        RelayOperator::RelayBatchFlatten => if rest.len() == 1 {
            match access_of(rest[0]) {
                Some(a) => if a.ndim_fits() && a.ndim() == 4 && a.dims()[1] * a.dims()[2]
                    <= usize::MAX && a.dims()[1] * a.dims()[2] * a.dims()[3] <= usize::MAX {
                    access_value(
                        plain_access(
                            seq![a.dims()[0], (a.dims()[1] * a.dims()[2] * a.dims()[3]) as usize],
                            Seq::empty(),
                        ),
                    )
                } else {
                    None
                },
                None => None,
            }
        } else {
            None
        },
        RelayOperator::RelayGlobalAvgPool2D => if rest.len() == 2 {
            match (access_of(rest[0]), layout_of(rest[1])) {
                (Some(a), Some(l)) => if a.ndim_fits() && a.ndim() == 4 {
                    let hi = height_axis(l);
                    access_value(with_dim(with_dim(a.forget_zeros(), hi, 1), hi + 1, 1))
                } else {
                    None
                },
                _ => None,
            }
        } else {
            None
        },
        RelayOperator::RelayMaxPool2D | RelayOperator::RelayAvgPool2D => if rest.len() == 5 {
            match (
                access_of(rest[0]),
                shape_of(rest[1]),
                shape_of(rest[2]),
                shape_of(rest[3]),
                layout_of(rest[4]),
            ) {
                (Some(a), Some(pool), Some(strides), Some(padding), Some(l)) => if a.ndim_fits()
                    && a.ndim() == 4 && pool.len() == 2 && strides.len() == 2 && padding.len() == 4 {
                    pooled_result(a, pool, strides, padding, height_axis(l))
                } else {
                    None
                },
                _ => None,
            }
        } else {
            None
        },
        RelayOperator::RelayReLU | RelayOperator::RelaySigmoid => if rest.len() == 1 {
            match access_of(rest[0]) {
                Some(a) => access_value(a.forget_zeros()),
                None => None,
            }
        } else {
            None
        },
        RelayOperator::RelayLeakyReLU => if rest.len() == 2 && rest[1] is Literal {
            match access_of(rest[0]) {
                Some(a) => access_value(a.forget_zeros()),
                None => None,
            }
        } else {
            None
        },
        RelayOperator::RelaySoftmax => if rest.len() == 2 && is_axis_arg(rest[1]) {
            match access_of(rest[0]) {
                Some(a) => access_value(a.forget_zeros()),
                None => None,
            }
        } else {
            None
        },
        RelayOperator::RelayBatchNormInference => if rest.len() == 7 && access_of(rest[1]) is Some
            && access_of(rest[2]) is Some && access_of(rest[3]) is Some && access_of(rest[4]) is Some
            && is_axis_arg(rest[5]) && rest[6] is Literal {
            match access_of(rest[0]) {
                Some(a) => access_value(a.forget_zeros()),
                None => None,
            }
        } else {
            None
        },
        RelayOperator::RelayUpSampling => None,
    }
}

/// What `(relay-operator-call <op> <args>...)` gives, for every operator but
/// up-sampling.
pub open spec fn relay_call_result(args: Seq<DataView>) -> Option<DataView> {
    if args.len() == 0 {
        None
    } else {
        match args[0] {
            DataView::RelayOperator(op) => relay_op_result(op, args.skip(1)),
            _ => None,
        }
    }
}

/// Whether the call is an up-sampling call.
pub open spec fn is_upsampling_call(args: Seq<DataView>) -> bool {
    args.len() > 0 && args[0] == DataView::RelayOperator(RelayOperator::RelayUpSampling)
}

/// Whether an up-sampling call has the arguments it takes: an access whose
/// shape has at least four dimensions, two scales and the NCHW layout.
pub open spec fn upsampling_args_ok(args: Seq<DataView>) -> bool {
    &&& args.len() == 5
    &&& args[1] is AccessPattern
    &&& args[1]->AccessPattern_0.shape.len() >= 4
    &&& args[2] is Literal
    &&& args[3] is Literal
    &&& args[4] == DataView::RelayActivationLayout(RelayActivationLayout::NCHW)
}

/// An up-sampled access: the height and width of the shape replaced, no
/// zero regions.
pub open spec fn upsampled(a: AccessView, h: usize, w: usize) -> DataView {
    DataView::AccessPattern(plain_access(a.shape.update(2, h).update(3, w), a.item_shape))
}

/// The literal that an analysis value holds.
pub open spec fn literal_in(d: MyAnalysisData) -> LiteralData {
    match d {
        MyAnalysisData::Literal(l) => l,
        _ => LiteralData { text: vstd::pervasive::arbitrary() },
    }
}

/// Whether `out` is what an up-sampling call on the values at `ids` gives
/// when `scale` computes each scaled dimension.
pub open spec fn upsampling_gives<F: Fn(&LiteralData, usize) -> usize>(
    ids: Seq<usize>,
    data: Seq<MyAnalysisData>,
    scale: F,
    out: DataView,
) -> bool {
    let a = args_at(ids, data)[1]->AccessPattern_0;
    exists|h: usize, w: usize|
        {
            &&& scale.ensures((&literal_in(data[ids[2] as int]), a.shape[2]), h)
            &&& scale.ensures((&literal_in(data[ids[3] as int]), a.shape[3]), w)
            &&& out == upsampled(a, h, w)
        }
}

/// The arguments of a call, the operator aside, with the data they name.
fn arg<'a>(ids: &Vec<usize>, data: &'a Vec<MyAnalysisData>, i: usize) -> (r: &'a MyAnalysisData)
    requires
        i < ids@.len(),
        ids_in(ids@, data@.len() as int),
    ensures
        *r == data@[ids@[i as int] as int],
        r@ == args_at(ids@, data@)[i as int],
{
    &data[ids[i]]
}


/// The access without its zero regions.
pub fn forgotten(a: &AccessPatternData) -> (r: AccessPatternData)
    ensures
        r@ == a@.forget_zeros(),
{
    plain_access_data(copy_dims(&a.shape), copy_dims(&a.item_shape))
}

/// `v` with ones in front, up to length `n`.
fn pad_ones(v: &Vec<usize>, n: usize) -> (r: Vec<usize>)
    ensures
        r@ == left_padded(v@, n as int),
{
    if n <= v.len() {
        return copy_dims(v);
    }
    let k = n - v.len();
    let mut r: Vec<usize> = Vec::new();
    let mut i: usize = 0;
    while i < k
        invariant
            i <= k,
            r@ =~= ones(i as nat),
        decreases k - i,
    {
        r.push(1);
        i = i + 1;
    }
    let out = crate::dims::dims_concat(&r, v);
    assert(out@ =~= left_padded(v@, n as int));
    out
}

/// The broadcast of two accesses.
pub fn broadcast_pair(a: &AccessPatternData, b: &AccessPatternData) -> (r: Option<MyAnalysisData>)
    ensures
        opt_model(r) == broadcast_pair_result(a@, b@),
{
    match (ndim_checked(a), ndim_checked(b)) {
        (Some(na), Some(nb)) => {
            let n = if na >= nb {
                na
            } else {
                nb
            };
            let x = pad_ones(&a.as_vec(), n);
            let y = pad_ones(&b.as_vec(), n);
            let mut out: Vec<usize> = Vec::new();
            let mut i: usize = 0;
            while i < n
                invariant
                    i <= n,
                    a@.ndim_fits(),
                    b@.ndim_fits(),
                    n == if a@.ndim() >= b@.ndim() {
                        a@.ndim()
                    } else {
                        b@.ndim()
                    },
                    x@ == left_padded(a@.dims(), n as int),
                    y@ == left_padded(b@.dims(), n as int),
                    x@.len() == n,
                    y@.len() == n,
                    out@.len() == i,
                    forall|j: int| 0 <= j < i ==> #[trigger] x@[j] == y@[j] || x@[j] == 1 || y@[j] == 1,
                    forall|j: int|
                        0 <= j < i ==> #[trigger] out@[j] == if x@[j] >= y@[j] {
                            x@[j]
                        } else {
                            y@[j]
                        },
                decreases n - i,
            {
                if !(x[i] == y[i] || x[i] == 1 || y[i] == 1) {
                    assert(!broadcast_compatible(x@, y@));
                    return None;
                }
                out.push(if x[i] >= y[i] { x[i] } else { y[i] });
                i = i + 1;
            }
            assert(out@ =~= dims_max(x@, y@));
            Some(MyAnalysisData::AccessPattern(plain_access_data(out, Vec::new())))
        },
        _ => None,
    }
}

/// `relay-batch-flatten` on an access.
fn batch_flatten(a: &AccessPatternData) -> (r: Option<MyAnalysisData>)
    ensures
        opt_model(r) == relay_op_result(RelayOperator::RelayBatchFlatten, seq![DataView::AccessPattern(a@)]),
{
    match ndim_checked(a) {
        Some(nd) => {
            if nd != 4 {
                return None;
            }
            let (d0, d1, d2, d3) = (a.index(0), a.index(1), a.index(2), a.index(3));
            if d2 != 0 && d1 > usize::MAX / d2 {
                assert(d1 * d2 > usize::MAX) by (nonlinear_arith)
                    requires
                        d2 != 0,
                        d1 > usize::MAX / d2,
                ;
                return None;
            }
            assert(d1 * d2 <= usize::MAX) by (nonlinear_arith)
                requires
                    d2 == 0 || d1 <= usize::MAX / d2,
            ;
            let p = d1 * d2;
            if d3 != 0 && p > usize::MAX / d3 {
                assert(p * d3 > usize::MAX) by (nonlinear_arith)
                    requires
                        d3 != 0,
                        p > usize::MAX / d3,
                ;
                return None;
            }
            assert(p * d3 <= usize::MAX) by (nonlinear_arith)
                requires
                    d3 == 0 || p <= usize::MAX / d3,
            ;
            let s = vec![d0, p * d3];
            assert(s@ =~= seq![d0, (d1 * d2 * d3) as usize]);
            Some(MyAnalysisData::AccessPattern(plain_access_data(s, Vec::new())))
        },
        None => None,
    }
}

/// The height axis of a layout.
fn height_axis_exec(l: RelayActivationLayout) -> (r: usize)
    ensures
        r == height_axis(l),
{
    match l {
        RelayActivationLayout::NCHW => 2,
        RelayActivationLayout::NHWC => 1,
    }
}

/// `relay-global-avg-pool2d`: height and width become 1.
fn global_avg_pool(a: &AccessPatternData, l: RelayActivationLayout) -> (r: Option<MyAnalysisData>)
    ensures
        opt_model(r) == relay_op_result(
            RelayOperator::RelayGlobalAvgPool2D,
            seq![DataView::AccessPattern(a@), DataView::RelayActivationLayout(l)],
        ),
{
    match ndim_checked(a) {
        Some(nd) => {
            if nd != 4 {
                return None;
            }
            let hi = height_axis_exec(l);
            let mut out = forgotten(a);
            let d = out.index_mut(hi);
            *d = 1;
            let d = out.index_mut(hi + 1);
            *d = 1;
            Some(MyAnalysisData::AccessPattern(out))
        },
        None => None,
    }
}

/// `relay-max-pool2d` and `relay-avg-pool2d`: pooled height and width.
fn pool_dims(
    op: RelayOperator,
    a: &AccessPatternData,
    pool_size: &Vec<usize>,
    strides: &Vec<usize>,
    padding: &Vec<usize>,
    l: RelayActivationLayout,
) -> (r: Option<MyAnalysisData>)
    requires
        op == RelayOperator::RelayMaxPool2D || op == RelayOperator::RelayAvgPool2D,
    ensures
        opt_model(r) == relay_op_result(
            op,
            seq![
                DataView::AccessPattern(a@),
                DataView::Shape(pool_size@),
                DataView::Shape(strides@),
                DataView::Shape(padding@),
                DataView::RelayActivationLayout(l),
            ],
        ),
{
    match ndim_checked(a) {
        Some(nd) => {
            if nd != 4 || pool_size.len() != 2 || strides.len() != 2 || padding.len() != 4 {
                return None;
            }
            let hi = height_axis_exec(l);
            let h = pooled_length_exec(padding[0], a.index(hi), padding[2], pool_size[0], strides[0]);
            let w = pooled_length_exec(padding[1], a.index(hi + 1), padding[3], pool_size[1], strides[1]);
            match (h, w) {
                (Some(h), Some(w)) => {
                    let mut out = forgotten(a);
                    let d = out.index_mut(hi);
                    *d = h;
                    let d = out.index_mut(hi + 1);
                    *d = w;
                    Some(MyAnalysisData::AccessPattern(out))
                },
                _ => None,
            }
        },
        None => None,
    }
}

/// An up-sampled access: height and width scaled by `scale`.
fn upsample<F: Fn(&LiteralData, usize) -> usize>(
    a: &AccessPatternData,
    sh: &LiteralData,
    sw: &LiteralData,
    scale: &F,
) -> (r: AccessPatternData)
    requires
        a@.shape.len() >= 4,
        forall|l: &LiteralData, d: usize| scale.requires((l, d)),
    ensures
        exists|h: usize, w: usize|
            {
                &&& scale.ensures((sh, a@.shape[2]), h)
                &&& scale.ensures((sw, a@.shape[3]), w)
                &&& DataView::AccessPattern(r@) == upsampled(a@, h, w)
            },
{
    let h = scale(sh, a.shape[2]);
    let w = scale(sw, a.shape[3]);
    let mut s = copy_dims(&a.shape);
    s.set(2, h);
    s.set(3, w);
    let r = plain_access_data(s, copy_dims(&a.item_shape));
    assert(DataView::AccessPattern(r@) == upsampled(a@, h, w));
    r
}


/// What a call of `op` gives on the values at `ids` (the operator's own id
/// first), for every operator but up-sampling.
fn relay_op(op: RelayOperator, ids: &Vec<usize>, data: &Vec<MyAnalysisData>) -> (r: Option<
    MyAnalysisData,
>)
    requires
        ids@.len() > 0,
        ids_in(ids@, data@.len() as int),
        op != RelayOperator::RelayUpSampling,
    ensures
        opt_model(r) == relay_op_result(op, args_at(ids@, data@).skip(1)),
{
    let ghost args = args_at(ids@, data@);
    let ghost rest = args.skip(1);
    let n = ids.len() - 1;
    assert(rest.len() == n);
    assert(forall|i: int| 0 <= i < n ==> #[trigger] rest[i] == args[i + 1]);
    match op {
        RelayOperator::RelayAdd | RelayOperator::RelayMaximum | RelayOperator::RelayMinimum => {
            if n != 2 {
                return None;
            }
            match (arg(ids, data, 1), arg(ids, data, 2)) {
                (MyAnalysisData::AccessPattern(a), MyAnalysisData::AccessPattern(b)) => broadcast_pair(
                    a,
                    b,
                ),
                _ => None,
            }
        },
        RelayOperator::RelayBiasAdd => {
            if n != 3 {
                return None;
            }
            match (arg(ids, data, 1), arg(ids, data, 2), arg(ids, data, 3)) {
                (
                    MyAnalysisData::AccessPattern(a),
                    MyAnalysisData::AccessPattern(_),
                    MyAnalysisData::Usize(_) | MyAnalysisData::Shape(_),
                ) => Some(MyAnalysisData::AccessPattern(forgotten(a))),
                _ => None,
            }
        },
        RelayOperator::RelayBatchFlatten => {
            if n != 1 {
                return None;
            }
            match arg(ids, data, 1) {
                MyAnalysisData::AccessPattern(a) => {
                    assert(rest =~= seq![DataView::AccessPattern(a@)]);
                    batch_flatten(a)
                },
                _ => None,
            }
        },
        RelayOperator::RelayGlobalAvgPool2D => {
            if n != 2 {
                return None;
            }
            match (arg(ids, data, 1), arg(ids, data, 2)) {
                (MyAnalysisData::AccessPattern(a), MyAnalysisData::RelayActivationLayout(l)) => {
                    assert(rest =~= seq![
                        DataView::AccessPattern(a@),
                        DataView::RelayActivationLayout(*l),
                    ]);
                    global_avg_pool(a, *l)
                },
                _ => None,
            }
        },
        RelayOperator::RelayMaxPool2D | RelayOperator::RelayAvgPool2D => {
            if n != 5 {
                return None;
            }
            match (
                arg(ids, data, 1),
                arg(ids, data, 2),
                arg(ids, data, 3),
                arg(ids, data, 4),
                arg(ids, data, 5),
            ) {
                (
                    MyAnalysisData::AccessPattern(a),
                    MyAnalysisData::Shape(p),
                    MyAnalysisData::Shape(st),
                    MyAnalysisData::Shape(pd),
                    MyAnalysisData::RelayActivationLayout(l),
                ) => {
                    assert(rest =~= seq![
                        DataView::AccessPattern(a@),
                        DataView::Shape(p.shape@),
                        DataView::Shape(st.shape@),
                        DataView::Shape(pd.shape@),
                        DataView::RelayActivationLayout(*l),
                    ]);
                    pool_dims(op, a, &p.shape, &st.shape, &pd.shape, *l)
                },
                _ => None,
            }
        },
        RelayOperator::RelayReLU | RelayOperator::RelaySigmoid => {
            if n != 1 {
                return None;
            }
            match arg(ids, data, 1) {
                MyAnalysisData::AccessPattern(a) => Some(MyAnalysisData::AccessPattern(forgotten(a))),
                _ => None,
            }
        },
        RelayOperator::RelayLeakyReLU => {
            if n != 2 {
                return None;
            }
            match (arg(ids, data, 1), arg(ids, data, 2)) {
                (MyAnalysisData::AccessPattern(a), MyAnalysisData::Literal(_)) => Some(
                    MyAnalysisData::AccessPattern(forgotten(a)),
                ),
                _ => None,
            }
        },
        RelayOperator::RelaySoftmax => {
            if n != 2 {
                return None;
            }
            match (arg(ids, data, 1), arg(ids, data, 2)) {
                (
                    MyAnalysisData::AccessPattern(a),
                    MyAnalysisData::Usize(_) | MyAnalysisData::Shape(_),
                ) => Some(MyAnalysisData::AccessPattern(forgotten(a))),
                _ => None,
            }
        },
        RelayOperator::RelayBatchNormInference => {
            if n != 7 {
                return None;
            }
            match (
                arg(ids, data, 1),
                arg(ids, data, 2),
                arg(ids, data, 3),
                arg(ids, data, 4),
                arg(ids, data, 5),
                arg(ids, data, 6),
                arg(ids, data, 7),
            ) {
                (
                    MyAnalysisData::AccessPattern(a),
                    MyAnalysisData::AccessPattern(_),
                    MyAnalysisData::AccessPattern(_),
                    MyAnalysisData::AccessPattern(_),
                    MyAnalysisData::AccessPattern(_),
                    MyAnalysisData::Usize(_) | MyAnalysisData::Shape(_),
                    MyAnalysisData::Literal(_),
                ) => Some(MyAnalysisData::AccessPattern(forgotten(a))),
                _ => None,
            }
        },
        RelayOperator::RelayUpSampling => None,
    }
}

/// `(relay-operator-call <op> <args>...)` on the values at `ids`. Up-sampling
/// multiplies the height and width by floating-point scales: `scale` takes a
/// scale literal and a dimension and gives the scaled dimension.
pub fn relay_call<F: Fn(&LiteralData, usize) -> usize>(
    ids: &Vec<usize>,
    data: &Vec<MyAnalysisData>,
    scale: &F,
) -> (r: Option<MyAnalysisData>)
    requires
        ids_in(ids@, data@.len() as int),
        forall|l: &LiteralData, d: usize| scale.requires((l, d)),
    ensures
        !is_upsampling_call(args_at(ids@, data@)) ==> opt_model(r) == relay_call_result(
            args_at(ids@, data@),
        ),
        is_upsampling_call(args_at(ids@, data@)) ==> (r is Some <==> upsampling_args_ok(
            args_at(ids@, data@),
        )),
        is_upsampling_call(args_at(ids@, data@)) && r is Some ==> upsampling_gives(
            ids@,
            data@,
            *scale,
            r->0@,
        ),
{
    let ghost args = args_at(ids@, data@);
    if ids.len() == 0 {
        return None;
    }
    match arg(ids, data, 0) {
        MyAnalysisData::RelayOperator(op) => {
            let op = *op;
            if op != RelayOperator::RelayUpSampling {
                return relay_op(op, ids, data);
            }
            if ids.len() != 5 {
                return None;
            }
            match (arg(ids, data, 1), arg(ids, data, 2), arg(ids, data, 3), arg(ids, data, 4)) {
                (
                    MyAnalysisData::AccessPattern(a),
                    MyAnalysisData::Literal(sh),
                    MyAnalysisData::Literal(sw),
                    MyAnalysisData::RelayActivationLayout(l),
                ) => {
                    if *l != RelayActivationLayout::NCHW || a.shape.len() < 4 {
                        return None;
                    }
                    let out = upsample(a, sh, sw, scale);
                    assert(literal_in(data@[ids@[2] as int]) == *sh);
                    assert(literal_in(data@[ids@[3] as int]) == *sw);
                    Some(MyAnalysisData::AccessPattern(out))
                },
                _ => None,
            }
        },
        _ => None,
    }
}

/// What a systolic array in convolution mode gives: `nhwc` picks the NHWC
/// data and HWIO weight layouts over NCHW and OIHW, and `check_blocks` asks
/// that the output channels divide into `cols` and the input channels into
/// `rows`.
pub open spec fn conv_result(
    nhwc: bool,
    check_blocks: bool,
    rows: DataView,
    cols: DataView,
    weights: DataView,
    data: DataView,
    kh: DataView,
    kw: DataView,
    stride_h: DataView,
    stride_w: DataView,
) -> Option<DataView> {
    match (
        usize_of(rows),
        usize_of(cols),
        access_of(weights),
        access_of(data),
        usize_of(kh),
        usize_of(kw),
        usize_of(stride_h),
        usize_of(stride_w),
    ) {
        (Some(r), Some(c), Some(wt), Some(dt), Some(kh), Some(kw), Some(sh), Some(sw)) => {
            if wt.ndim_fits() && wt.ndim() == 4 && dt.ndim_fits() && dt.ndim() == 4 {
                let d = dt.dims();
                let w = wt.dims();
                let n = d[0];
                let ch = if nhwc {
                    d[3]
                } else {
                    d[1]
                };
                let h = if nhwc {
                    d[1]
                } else {
                    d[2]
                };
                let wd = if nhwc {
                    d[2]
                } else {
                    d[3]
                };
                let wkh = if nhwc {
                    w[0]
                } else {
                    w[2]
                };
                let wkw = if nhwc {
                    w[1]
                } else {
                    w[3]
                };
                let wc = if nhwc {
                    w[2]
                } else {
                    w[1]
                };
                let o = if nhwc {
                    w[3]
                } else {
                    w[0]
                };
                if ch == wc && kh == wkh && kw == wkw && (check_blocks ==> (c != 0 && o % c == 0
                    && r != 0 && ch % r == 0)) {
                    match (window_count(h as int, kh as int, sh as int), window_count(wd as int, kw as int, sw as int)) {
                        (Some(nh), Some(nw)) => access_value(
                            plain_access(
                                if nhwc {
                                    seq![n, nh, nw, o]
                                } else {
                                    seq![n, o, nh, nw]
                                },
                                Seq::empty(),
                            ),
                        ),
                        _ => None,
                    }
                } else {
                    None
                }
            } else {
                None
            }
        },
        _ => None,
    }
}

/// What a systolic array in convolution mode gives on the values at `ids`.
pub fn conv(nhwc: bool, check_blocks: bool, ids: &[usize; 8], data: &Vec<MyAnalysisData>) -> (r:
    Option<MyAnalysisData>)
    requires
        forall|i: int| 0 <= i < 8 ==> #[trigger] ids@[i] < data@.len(),
    ensures
        opt_model(r) == conv_result(
            nhwc,
            check_blocks,
            data@[ids@[0] as int]@,
            data@[ids@[1] as int]@,
            data@[ids@[2] as int]@,
            data@[ids@[3] as int]@,
            data@[ids@[4] as int]@,
            data@[ids@[5] as int]@,
            data@[ids@[6] as int]@,
            data@[ids@[7] as int]@,
        ),
{
    match (
        &data[ids[0]],
        &data[ids[1]],
        &data[ids[2]],
        &data[ids[3]],
        &data[ids[4]],
        &data[ids[5]],
        &data[ids[6]],
        &data[ids[7]],
    ) {
        (
            MyAnalysisData::Usize(r),
            MyAnalysisData::Usize(c),
            MyAnalysisData::AccessPattern(wt),
            MyAnalysisData::AccessPattern(dt),
            MyAnalysisData::Usize(kh),
            MyAnalysisData::Usize(kw),
            MyAnalysisData::Usize(sh),
            MyAnalysisData::Usize(sw),
        ) => {
            let (r, c, kh, kw, sh, sw) = (*r, *c, *kh, *kw, *sh, *sw);
            match (ndim_checked(wt), ndim_checked(dt)) {
                (Some(4), Some(4)) => {},
                _ => {
                    return None;
                },
            }
            let n = dt.index(0);
            let (ch, h, wd) = if nhwc {
                (dt.index(3), dt.index(1), dt.index(2))
            } else {
                (dt.index(1), dt.index(2), dt.index(3))
            };
            let (wkh, wkw, wc, o) = if nhwc {
                (wt.index(0), wt.index(1), wt.index(2), wt.index(3))
            } else {
                (wt.index(2), wt.index(3), wt.index(1), wt.index(0))
            };
            if ch != wc || kh != wkh || kw != wkw {
                return None;
            }
            if check_blocks && (c == 0 || o % c != 0 || r == 0 || ch % r != 0) {
                return None;
            }
            match (window_count_exec(h, kh, sh), window_count_exec(wd, kw, sw)) {
                (Some(nh), Some(nw)) => {
                    let s = if nhwc {
                        vec![n, nh, nw, o]
                    } else {
                        vec![n, o, nh, nw]
                    };
                    assert(s@ =~= if nhwc {
                        seq![n, nh, nw, o]
                    } else {
                        seq![n, o, nh, nw]
                    });
                    Some(MyAnalysisData::AccessPattern(plain_access_data(s, Vec::new())))
                },
                _ => None,
            }
        },
        _ => None,
    }
}

} // verus!
