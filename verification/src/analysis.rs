//! The e-class analysis: the value that each node of a program gets from
//! the values of its children (`make`), and how two values of one e-class
//! combine (`merge`).
use crate::access_ops::{
    access, access_broadcast, access_broadcast_result, access_cartesian_product,
    access_cartesian_product_result, access_concatenate, access_concatenate_result,
    access_flatten, access_flatten_result, access_insert_axis, access_insert_axis_result,
    access_literal, access_literal_result, access_pad, access_pad_result, access_pair,
    access_pair_result, access_reshape, access_reshape_result, access_result,
    access_shift_right, access_shift_right_result, access_slice, access_slice_result,
    access_squeeze, access_squeeze_result, access_transpose, access_transpose_result,
    access_windows, access_windows_result, compute, compute_result, literal, literal_result,
    systolic_array, systolic_array_result, systolic_array_with_blocking_result,
};
use crate::data::{
    copy_dims, lemma_views_of, opt_model, shape_value, usize_of, views_of, DataView, LiteralData,
    MyAnalysisData, ShapeData,
};
use crate::language::{Id, Language, NodeView, Op};
use crate::relay_ops::{
    args_at, conv, conv_result, ids_in, is_upsampling_call, relay_call, relay_call_result,
    upsampling_args_ok, upsampling_gives,
};
use crate::tensor_ops::{
    access_shape, access_shape_result, access_tensor, access_tensor_result, bsg_systolic_array,
    bsg_systolic_array_result, cartesian_product, cartesian_product_result, concatenate,
    concatenate_result, elementwise_add, elementwise_add_result, list_literal_result,
    map_dot_product, map_dot_product_result, move_axis, move_axis_result, shape_insert_axis,
    shape_insert_axis_result, shape_literal_result, shape_of_node, shape_of_result,
    shape_remove_axis, shape_remove_axis_result, slice, slice_result, slice_shape,
    slice_shape_result, usizes_at,
};
use crate::text::{chars_of, spells};
use std::collections::HashMap;
use vstd::prelude::*;

verus! {

/// The analysis: shapes for named tensors beyond the built-in ones.
pub struct MyAnalysis {
    pub name_to_shape: HashMap<String, Vec<usize>>,
}

/// The shapes of a table, by the characters of their names.
pub open spec fn shapes_by_name(m: Map<String, Vec<usize>>) -> Map<Seq<char>, Seq<usize>> {
    Map::new(
        |s: Seq<char>| exists|k: String| m.contains_key(k) && k@ == s,
        |s: Seq<char>| m[choose|k: String| m.contains_key(k) && k@ == s]@,
    )
}

impl View for MyAnalysis {
    type V = Map<Seq<char>, Seq<usize>>;

    open spec fn view(&self) -> Map<Seq<char>, Seq<usize>> {
        shapes_by_name(self.name_to_shape@)
    }
}

impl Default for MyAnalysis {
    fn default() -> (r: MyAnalysis)
        ensures
            r@ == Map::<Seq<char>, Seq<usize>>::empty(),
    {
        let r = MyAnalysis { name_to_shape: HashMap::new() };
        assert(r@ =~= Map::<Seq<char>, Seq<usize>>::empty());
        r
    }
}

/// `HashMap::get` on a table of shapes keyed by `String`, with a `&str`
/// key: the entry whose key spells `name`, if there is one.
#[verifier::external_body]
fn shape_named<'a>(m: &'a HashMap<String, Vec<usize>>, name: &str) -> (r: Option<&'a Vec<usize>>)
    ensures
        match r {
            Some(v) => shapes_by_name(m@).contains_key(name@) && v@ == shapes_by_name(m@)[name@],
            None => !shapes_by_name(m@).contains_key(name@),
        },
{
    m.get(name)
}

/// The shapes of the built-in tensor names.
pub open spec fn builtin_shape(name: Seq<char>) -> Option<Seq<usize>> {
    if name == "in"@ {
        Some(seq![1usize, 784])
    } else if name == "w1"@ {
        Some(seq![784usize, 512])
    } else if name == "w2"@ {
        Some(seq![512usize, 512])
    } else if name == "w3"@ {
        Some(seq![512usize, 10])
    } else if name == "single-matrix-multiply-input-a"@ {
        Some(seq![32usize, 32])
    } else if name == "single-matrix-multiply-input-b"@ {
        Some(seq![32usize, 32])
    } else if name == "v-32"@ {
        Some(seq![32usize])
    } else if name == "t-32-32"@ {
        Some(seq![32usize, 32])
    } else if name == "t-32-64"@ {
        Some(seq![32usize, 64])
    } else if name == "t-64-128"@ {
        Some(seq![64usize, 128])
    } else if name == "t-128-16"@ {
        Some(seq![128usize, 16])
    } else if name == "t-3-32-32"@ {
        Some(seq![3usize, 32, 32])
    } else if name == "t-8-3-3-3"@ {
        Some(seq![8usize, 3, 3, 3])
    } else if name == "t-1024-2-256"@ {
        Some(seq![1024usize, 2, 256])
    } else if name == "t-1-2-3-4"@ {
        Some(seq![1usize, 2, 3, 4])
    } else {
        None
    }
}

/// A named tensor: its built-in shape, else the shape the analysis holds
/// for the name; `None` where there is neither.
pub open spec fn symbol_result(name: Seq<char>, shapes: Map<Seq<char>, Seq<usize>>) -> Option<DataView> {
    match builtin_shape(name) {
        Some(s) => shape_value(s),
        None => if shapes.contains_key(name) {
            shape_value(shapes[name])
        } else {
            None
        },
    }
}

/// The built-in shape of a name.
fn builtin_shape_exec(name: &Vec<char>) -> (r: Option<Vec<usize>>)
    ensures
        match r {
            Some(v) => builtin_shape(name@) == Some(v@),
            None => builtin_shape(name@) is None,
        },
{
    let r: Option<Vec<usize>> = if spells(name, "in") {
        Some(vec![1, 784])
    } else if spells(name, "w1") {
        Some(vec![784, 512])
    } else if spells(name, "w2") {
        Some(vec![512, 512])
    } else if spells(name, "w3") {
        Some(vec![512, 10])
    } else if spells(name, "single-matrix-multiply-input-a") {
        Some(vec![32, 32])
    } else if spells(name, "single-matrix-multiply-input-b") {
        Some(vec![32, 32])
    } else if spells(name, "v-32") {
        Some(vec![32])
    } else if spells(name, "t-32-32") {
        Some(vec![32, 32])
    } else if spells(name, "t-32-64") {
        Some(vec![32, 64])
    } else if spells(name, "t-64-128") {
        Some(vec![64, 128])
    } else if spells(name, "t-128-16") {
        Some(vec![128, 16])
    } else if spells(name, "t-3-32-32") {
        Some(vec![3, 32, 32])
    } else if spells(name, "t-8-3-3-3") {
        Some(vec![8, 3, 3, 3])
    } else if spells(name, "t-1024-2-256") {
        Some(vec![1024, 2, 256])
    } else if spells(name, "t-1-2-3-4") {
        Some(vec![1, 2, 3, 4])
    } else {
        None
    };
    r
}

impl MyAnalysis {
    /// The shape of a named tensor.
    pub fn symbol_shape(&self, name: &String) -> (r: Option<MyAnalysisData>)
        ensures
            opt_model(r) == symbol_result(name@, self@),
    {
        let chars = chars_of(name.as_str());
        match builtin_shape_exec(&chars) {
            Some(v) => Some(MyAnalysisData::Shape(ShapeData { shape: v })),
            None => match shape_named(&self.name_to_shape, name.as_str()) {
                Some(v) => Some(MyAnalysisData::Shape(ShapeData { shape: copy_dims(v) })),
                None => None,
            },
        }
    }
}

/// `(tuple-get-item <tuple> <index>)`: item `index` of the tuple.
pub open spec fn tuple_get_item_result(t: DataView, index: DataView) -> Option<DataView> {
    match (t, usize_of(index)) {
        (DataView::Tuple(items), Some(i)) => if i < items.len() {
            Some(items[i as int])
        } else {
            None
        },
        _ => None,
    }
}

pub fn tuple_get_item(t: &MyAnalysisData, index: &MyAnalysisData) -> (r: Option<MyAnalysisData>)
    ensures
        opt_model(r) == tuple_get_item_result(t@, index@),
{
    match (t, index) {
        (MyAnalysisData::Tuple(items), MyAnalysisData::Usize(i)) => {
            proof {
                lemma_views_of(items@);
            }
            if *i < items.len() {
                Some(items[*i].copy())
            } else {
                None
            }
        },
        _ => None,
    }
}

/// The values of the children of `node`.
pub open spec fn child_values(node: NodeView, data: Seq<DataView>) -> Seq<DataView> {
    node.children.map_values(|k: Id| data[k as int])
}

/// Whether every child of `node` is an index of a table of `n` values.
pub open spec fn children_in(node: NodeView, n: int) -> bool {
    forall|i: int| 0 <= i < node.children.len() ==> #[trigger] node.children[i] < n
}

/// What the analysis gives a node of the shape and tensor operators, from
/// the values of its children; `None` where the node does not type check.
pub open spec fn make_tensor_spec(node: NodeView, data: Seq<DataView>) -> Option<DataView> {
    let c = child_values(node, data);
    match node.op {
        Op::MoveAxis => move_axis_result(c[0], c[1], c[2]),
        Op::CartesianProduct => cartesian_product_result(c[0], c[1]),
        Op::MapDotProduct => map_dot_product_result(c[0]),
        Op::Slice => slice_result(c[0], c[1], c[2], c[3]),
        Op::Concatenate => concatenate_result(c[0], c[1], c[2]),
        Op::ElementwiseAdd => elementwise_add_result(c[0], c[1]),
        Op::BsgSystolicArray => bsg_systolic_array_result(c[0], c[1], c[2], c[3]),
        Op::ShapeOf => shape_of_result(c[0]),
        Op::SliceShape => slice_shape_result(c[0], c[1]),
        Op::ShapeInsertAxis => shape_insert_axis_result(c[0], c[1]),
        Op::ShapeRemoveAxis => shape_remove_axis_result(c[0], c[1]),
        Op::Shape => shape_literal_result(c),
        Op::List => list_literal_result(c),
        Op::ConstructTuple => Some(DataView::Tuple(c)),
        Op::TupleGetItem => tuple_get_item_result(c[0], c[1]),
        Op::AccessTensor => access_tensor_result(c[0]),
        Op::AccessShape => access_shape_result(c[0], c[1]),
        Op::Literal => literal_result(c[0]),
        Op::AccessLiteral => access_literal_result(c[0]),
        _ => None,
    }
}

/// What the analysis gives a node of the access-pattern operators, from
/// the values of its children; `None` where the node does not type check.
pub open spec fn make_access_spec(node: NodeView, data: Seq<DataView>) -> Option<DataView> {
    let c = child_values(node, data);
    match node.op {
        Op::SystolicArray => systolic_array_result(c[0], c[1], c[2], c[3]),
        Op::SystolicArrayWithBlocking => systolic_array_with_blocking_result(c[0], c[1], c[2], c[3]),
        Op::SystolicArrayConv2dNchwOihwWithBlocking => conv_result(
            false,
            true,
            c[0],
            c[1],
            c[2],
            c[3],
            c[4],
            c[5],
            c[6],
            c[7],
        ),
        Op::SystolicArrayConv2dNhwcHwioWithBlocking => conv_result(
            true,
            true,
            c[0],
            c[1],
            c[2],
            c[3],
            c[4],
            c[5],
            c[6],
            c[7],
        ),
        Op::SystolicArrayConv2dIm2colNchwOihwWithBlocking => conv_result(
            false,
            false,
            c[0],
            c[1],
            c[2],
            c[3],
            c[4],
            c[5],
            c[6],
            c[7],
        ),
        Op::SystolicArrayConv2dIm2colNhwcHwioWithBlocking => conv_result(
            true,
            false,
            c[0],
            c[1],
            c[2],
            c[3],
            c[4],
            c[5],
            c[6],
            c[7],
        ),
        Op::AccessWindows => access_windows_result(c[0], c[1], c[2]),
        Op::Access => access_result(c[0], c[1]),
        Op::AccessTranspose => access_transpose_result(c[0], c[1]),
        Op::AccessCartesianProduct => access_cartesian_product_result(c[0], c[1]),
        Op::Compute => compute_result(c[0], c[1]),
        Op::AccessReshape => access_reshape_result(c[0], c[1]),
        Op::AccessFlatten => access_flatten_result(c[0]),
        Op::AccessSlice => access_slice_result(c[0], c[1], c[2], c[3]),
        Op::AccessConcatenate => access_concatenate_result(c[0], c[1], c[2]),
        Op::AccessPair => access_pair_result(c[0], c[1]),
        Op::AccessShiftRight => access_shift_right_result(c[0]),
        Op::AccessPad => access_pad_result(c[0], c[1], c[2], c[3], c[4]),
        Op::AccessSqueeze => access_squeeze_result(c[0], c[1]),
        Op::AccessInsertAxis => access_insert_axis_result(c[0], c[1]),
        Op::AccessBroadcast => access_broadcast_result(c[0], c[1]),
        Op::RelayOperatorCall => relay_call_result(c),
        _ => None,
    }
}

/// What the analysis gives a leaf.
pub open spec fn make_leaf_spec(node: NodeView, shapes: Map<Seq<char>, Seq<usize>>) -> Option<DataView> {
    match node.op {
        Op::Usize(u) => Some(DataView::Usize(u)),
        Op::NotNanFloat64(t) => Some(DataView::Literal(t)),
        Op::RelayOperator(o) => Some(DataView::RelayOperator(o)),
        Op::RelayActivationLayout(l) => Some(DataView::RelayActivationLayout(l)),
        Op::RelayKernelLayout(l) => Some(DataView::RelayKernelLayout(l)),
        Op::PadType(p) => Some(DataView::PadType(p)),
        Op::ComputeType(t) => Some(DataView::ComputeType(t)),
        Op::Symbol(name) => symbol_result(name, shapes),
        _ => None,
    }
}

/// Whether the node's operator is one of the access-pattern operators.
pub open spec fn is_access_op(op: Op) -> bool {
    ||| op is SystolicArray
    ||| op is SystolicArrayWithBlocking
    ||| op is SystolicArrayConv2dNchwOihwWithBlocking
    ||| op is SystolicArrayConv2dNhwcHwioWithBlocking
    ||| op is SystolicArrayConv2dIm2colNchwOihwWithBlocking
    ||| op is SystolicArrayConv2dIm2colNhwcHwioWithBlocking
    ||| op is AccessWindows
    ||| op is Access
    ||| op is AccessTranspose
    ||| op is AccessCartesianProduct
    ||| op is Compute
    ||| op is AccessReshape
    ||| op is AccessFlatten
    ||| op is AccessSlice
    ||| op is AccessConcatenate
    ||| op is AccessPair
    ||| op is AccessShiftRight
    ||| op is AccessPad
    ||| op is AccessSqueeze
    ||| op is AccessInsertAxis
    ||| op is AccessBroadcast
    ||| op is RelayOperatorCall
}

/// Whether the node is a leaf.
pub open spec fn is_leaf_op(op: Op) -> bool {
    ||| op is Usize
    ||| op is NotNanFloat64
    ||| op is RelayOperator
    ||| op is RelayActivationLayout
    ||| op is RelayKernelLayout
    ||| op is PadType
    ||| op is ComputeType
    ||| op is Symbol
}

/// What the analysis gives a node from the values of its children, for
/// every node but the up-sampling call; `None` where the node does not
/// type check.
pub open spec fn make_spec(node: NodeView, data: Seq<DataView>, shapes: Map<Seq<char>, Seq<usize>>) -> Option<DataView> {
    if is_leaf_op(node.op) {
        make_leaf_spec(node, shapes)
    } else if is_access_op(node.op) {
        make_access_spec(node, data)
    } else {
        make_tensor_spec(node, data)
    }
}

/// Whether the node is an up-sampling call.
pub open spec fn is_upsampling_node(node: NodeView, data: Seq<DataView>) -> bool {
    node.op is RelayOperatorCall && is_upsampling_call(child_values(node, data))
}

/// Whether `out` is what the analysis gives `node`, whose children's values
/// are in `data`, with named shapes `shapes` and with `scale` scaling a
/// dimension by a literal.
pub open spec fn makes<F: Fn(&LiteralData, usize) -> usize>(
    node: NodeView,
    data: Seq<MyAnalysisData>,
    shapes: Map<Seq<char>, Seq<usize>>,
    scale: F,
    out: Option<DataView>,
) -> bool {
    let dv = views_of(data);
    if is_upsampling_node(node, dv) {
        if upsampling_args_ok(child_values(node, dv)) {
            out is Some && upsampling_gives(node.children, data, scale, out->0)
        } else {
            out is None
        }
    } else {
        out == make_spec(node, dv, shapes)
    }
}


/// Whether `node` type checks: the analysis gives it a value from the
/// values of its children in `data`. Everywhere else the analysis refuses
/// the node.
pub open spec fn type_checks(
    node: NodeView,
    data: Seq<MyAnalysisData>,
    shapes: Map<Seq<char>, Seq<usize>>,
) -> bool {
    let dv = views_of(data);
    if is_upsampling_node(node, dv) {
        upsampling_args_ok(child_values(node, dv))
    } else {
        make_spec(node, dv, shapes) is Some
    }
}

/// Copies of the values at `ids`.
fn values_at(ids: &Vec<Id>, data: &Vec<MyAnalysisData>) -> (r: Vec<MyAnalysisData>)
    requires
        ids_in(ids@, data@.len() as int),
    ensures
        views_of(r@) == ids@.map_values(|k: Id| views_of(data@)[k as int]),
{
    proof {
        lemma_views_of(data@);
    }
    let mut out: Vec<MyAnalysisData> = Vec::new();
    let mut i: usize = 0;
    while i < ids.len()
        invariant
            i <= ids@.len(),
            ids_in(ids@, data@.len() as int),
            out@.len() == i,
            forall|j: int| 0 <= j < i ==> #[trigger] out@[j]@ == data@[ids@[j] as int]@,
        decreases ids.len() - i,
    {
        out.push(data[ids[i]].copy());
        i = i + 1;
    }
    proof {
        lemma_views_of(out@);
        lemma_views_of(data@);
        let m = ids@.map_values(|k: Id| views_of(data@)[k as int]);
        assert forall|j: int| 0 <= j < out@.len() implies views_of(out@)[j] == m[j] by {
            assert(views_of(out@)[j] == out@[j].model());
            assert(out@[j]@ == data@[ids@[j] as int]@);
            assert(views_of(data@)[ids@[j] as int] == data@[ids@[j] as int].model());
        }
        assert(views_of(out@) =~= m);
    }
    out
}

/// `make` for the shape and tensor operators.
fn make_tensor(enode: &Language, data: &Vec<MyAnalysisData>) -> (r: Option<MyAnalysisData>)
    requires
        children_in(enode@, data@.len() as int),
        !is_leaf_op(enode@.op),
        !is_access_op(enode@.op),
    ensures
        opt_model(r) == make_tensor_spec(enode@, views_of(data@)),
{
    proof {
        lemma_views_of(data@);
    }
    let ghost c = child_values(enode@, views_of(data@));
    assert(forall|i: int| 0 <= i < enode@.children.len() ==> #[trigger] c[i] == data@[enode@.children[i] as int]@);
    match enode {
        Language::MoveAxis(ids) => move_axis(&data[ids[0]], &data[ids[1]], &data[ids[2]]),
        Language::CartesianProduct(ids) => cartesian_product(&data[ids[0]], &data[ids[1]]),
        Language::MapDotProduct(id) => map_dot_product(&data[*id]),
        Language::Slice(ids) => slice(&data[ids[0]], &data[ids[1]], &data[ids[2]], &data[ids[3]]),
        Language::Concatenate(ids) => concatenate(&data[ids[0]], &data[ids[1]], &data[ids[2]]),
        Language::ElementwiseAdd(ids) => elementwise_add(&data[ids[0]], &data[ids[1]]),
        Language::BsgSystolicArray(ids) => bsg_systolic_array(
            &data[ids[0]],
            &data[ids[1]],
            &data[ids[2]],
            &data[ids[3]],
        ),
        Language::ShapeOf(ids) => shape_of_node(&data[ids[0]]),
        Language::SliceShape(ids) => slice_shape(&data[ids[0]], &data[ids[1]]),
        Language::ShapeInsertAxis(ids) => shape_insert_axis(&data[ids[0]], &data[ids[1]]),
        Language::ShapeRemoveAxis(ids) => shape_remove_axis(&data[ids[0]], &data[ids[1]]),
        Language::Shape(ids) => {
            assert(ids@.map_values(|k: usize| data@[k as int]@) =~= c);
            match usizes_at(ids, data) {
                Some(v) => Some(MyAnalysisData::Shape(ShapeData { shape: v })),
                None => None,
            }
        },
        Language::List(ids) => {
            assert(ids@.map_values(|k: usize| data@[k as int]@) =~= c);
            match usizes_at(ids, data) {
                Some(v) => Some(MyAnalysisData::List(v)),
                None => None,
            }
        },
        Language::ConstructTuple(ids) => {
            let items = values_at(ids, data);
            Some(MyAnalysisData::Tuple(items))
        },
        Language::TupleGetItem(ids) => tuple_get_item(&data[ids[0]], &data[ids[1]]),
        Language::AccessTensor(id) => access_tensor(&data[*id]),
        Language::AccessShape(ids) => access_shape(&data[ids[0]], &data[ids[1]]),
        Language::Literal(id) => literal(&data[*id]),
        Language::AccessLiteral(id) => access_literal(&data[*id]),
        _ => None,
    }
}

/// `make` for the access-pattern operators but the Relay calls.
fn make_access(enode: &Language, data: &Vec<MyAnalysisData>) -> (r: Option<MyAnalysisData>)
    requires
        children_in(enode@, data@.len() as int),
        is_access_op(enode@.op),
        !(enode@.op is RelayOperatorCall),
    ensures
        opt_model(r) == make_access_spec(enode@, views_of(data@)),
{
    proof {
        lemma_views_of(data@);
    }
    let ghost c = child_values(enode@, views_of(data@));
    assert(forall|i: int| 0 <= i < enode@.children.len() ==> #[trigger] c[i] == data@[enode@.children[i] as int]@);
    match enode {
        Language::SystolicArray(ids) => systolic_array(
            &data[ids[0]],
            &data[ids[1]],
            &data[ids[2]],
            &data[ids[3]],
            false,
        ),
        Language::SystolicArrayWithBlocking(ids) => systolic_array(
            &data[ids[0]],
            &data[ids[1]],
            &data[ids[2]],
            &data[ids[3]],
            true,
        ),
        Language::SystolicArrayConv2dNchwOihwWithBlocking(ids) => conv(false, true, ids, data),
        Language::SystolicArrayConv2dNhwcHwioWithBlocking(ids) => conv(true, true, ids, data),
        Language::SystolicArrayConv2dIm2colNchwOihwWithBlocking(ids) => conv(false, false, ids, data),
        Language::SystolicArrayConv2dIm2colNhwcHwioWithBlocking(ids) => conv(true, false, ids, data),
        Language::AccessWindows(ids) => access_windows(&data[ids[0]], &data[ids[1]], &data[ids[2]]),
        Language::Access(ids) => access(&data[ids[0]], &data[ids[1]]),
        Language::AccessTranspose(ids) => access_transpose(&data[ids[0]], &data[ids[1]]),
        Language::AccessCartesianProduct(ids) => access_cartesian_product(&data[ids[0]], &data[ids[1]]),
        Language::Compute(ids) => compute(&data[ids[0]], &data[ids[1]]),
        Language::AccessReshape(ids) => access_reshape(&data[ids[0]], &data[ids[1]]),
        Language::AccessFlatten(id) => access_flatten(&data[*id]),
        Language::AccessSlice(ids) => access_slice(
            &data[ids[0]],
            &data[ids[1]],
            &data[ids[2]],
            &data[ids[3]],
        ),
        Language::AccessConcatenate(ids) => access_concatenate(
            &data[ids[0]],
            &data[ids[1]],
            &data[ids[2]],
        ),
        Language::AccessPair(ids) => access_pair(&data[ids[0]], &data[ids[1]]),
        Language::AccessShiftRight(id) => access_shift_right(&data[*id]),
        Language::AccessPad(ids) => access_pad(
            &data[ids[0]],
            &data[ids[1]],
            &data[ids[2]],
            &data[ids[3]],
            &data[ids[4]],
        ),
        Language::AccessSqueeze(ids) => access_squeeze(&data[ids[0]], &data[ids[1]]),
        Language::AccessInsertAxis(ids) => access_insert_axis(&data[ids[0]], &data[ids[1]]),
        Language::AccessBroadcast(ids) => access_broadcast(&data[ids[0]], &data[ids[1]]),
        _ => None,
    }
}

impl MyAnalysis {
    /// `make` for the leaves.
    fn make_leaf(&self, enode: &Language) -> (r: Option<MyAnalysisData>)
        requires
            is_leaf_op(enode@.op),
        ensures
            opt_model(r) == make_leaf_spec(enode@, self@),
    {
        match enode {
            Language::Usize(u) => Some(MyAnalysisData::Usize(*u)),
            Language::NotNanFloat64(l) => Some(MyAnalysisData::Literal(l.copy())),
            Language::RelayOperator(o) => Some(MyAnalysisData::RelayOperator(*o)),
            Language::RelayActivationLayout(l) => Some(MyAnalysisData::RelayActivationLayout(*l)),
            Language::RelayKernelLayout(l) => Some(MyAnalysisData::RelayKernelLayout(*l)),
            Language::PadType(p) => Some(MyAnalysisData::PadType(*p)),
            Language::ComputeType(t) => Some(MyAnalysisData::ComputeType(*t)),
            Language::Symbol(name) => self.symbol_shape(name),
            _ => None,
        }
    }

    /// The value that the analysis gives `enode`, where `data` holds the
    /// values of the nodes that its children name; `None` exactly where the
    /// node does not type check. `scale` multiplies a dimension by a
    /// floating-point literal, which up-sampling needs.
    pub fn try_make<F: Fn(&LiteralData, usize) -> usize>(
        &self,
        enode: &Language,
        data: &Vec<MyAnalysisData>,
        scale: &F,
    ) -> (r: Option<MyAnalysisData>)
        requires
            children_in(enode@, data@.len() as int),
            forall|l: &LiteralData, d: usize| scale.requires((l, d)),
        ensures
            makes(enode@, data@, self@, *scale, opt_model(r)),
            r is Some <==> type_checks(enode@, data@, self@),
    {
        proof {
            lemma_views_of(data@);
        }
        match enode {
            Language::RelayOperatorCall(ids) => {
                let ghost c = child_values(enode@, views_of(data@));
                assert(c =~= args_at(ids@, data@));
                relay_call(ids, data, scale)
            },
            _ => {
                if enode.is_leaf() {
                    self.make_leaf(enode)
                } else if enode.is_access_op() {
                    make_access(enode, data)
                } else {
                    make_tensor(enode, data)
                }
            },
        }
    }

    /// The value that the analysis gives `enode`, a node that type checks,
    /// where `data` holds the values of the nodes that its children name.
    /// `scale` multiplies a dimension by a floating-point literal, which
    /// up-sampling needs.
    pub fn make<F: Fn(&LiteralData, usize) -> usize>(
        &self,
        enode: &Language,
        data: &Vec<MyAnalysisData>,
        scale: &F,
    ) -> (r: MyAnalysisData)
        requires
            children_in(enode@, data@.len() as int),
            forall|l: &LiteralData, d: usize| scale.requires((l, d)),
            type_checks(enode@, data@, self@),
        ensures
            makes(enode@, data@, self@, *scale, Some(r@)),
    {
        match self.try_make(enode, data, scale) {
            Some(v) => v,
            None => vstd::pervasive::unreached(),
        }
    }
}

impl Language {
    /// Whether the node is a leaf.
    pub fn is_leaf(&self) -> (r: bool)
        ensures
            r == is_leaf_op(self@.op),
    {
        match self {
            Language::Usize(_) | Language::NotNanFloat64(_) | Language::RelayOperator(_)
            | Language::RelayActivationLayout(_) | Language::RelayKernelLayout(_)
            | Language::PadType(_) | Language::ComputeType(_) | Language::Symbol(_) => true,
            _ => false,
        }
    }

    /// Whether the node is one of the access-pattern operators.
    pub fn is_access_op(&self) -> (r: bool)
        ensures
            r == is_access_op(self@.op),
    {
        match self {
            Language::SystolicArray(_) | Language::SystolicArrayWithBlocking(_)
            | Language::SystolicArrayConv2dNchwOihwWithBlocking(_)
            | Language::SystolicArrayConv2dNhwcHwioWithBlocking(_)
            | Language::SystolicArrayConv2dIm2colNchwOihwWithBlocking(_)
            | Language::SystolicArrayConv2dIm2colNhwcHwioWithBlocking(_)
            | Language::AccessWindows(_) | Language::Access(_) | Language::AccessTranspose(_)
            | Language::AccessCartesianProduct(_) | Language::Compute(_)
            | Language::AccessReshape(_) | Language::AccessFlatten(_) | Language::AccessSlice(_)
            | Language::AccessConcatenate(_) | Language::AccessPair(_)
            | Language::AccessShiftRight(_) | Language::AccessPad(_) | Language::AccessSqueeze(_)
            | Language::AccessInsertAxis(_) | Language::AccessBroadcast(_)
            | Language::RelayOperatorCall(_) => true,
            _ => false,
        }
    }
}


impl MyAnalysis {
    /// The `usize` that the node `id` holds.
    pub fn get_usize(id: Id, data: &Vec<MyAnalysisData>) -> (r: usize)
        requires
            id < data@.len(),
            data@[id as int] is Usize,
        ensures
            r == data@[id as int]->Usize_0,
    {
        match &data[id] {
            MyAnalysisData::Usize(u) => *u,
            _ => vstd::pervasive::unreached(),
        }
    }

    /// The shape that the node `id` holds.
    pub fn get_shape(id: Id, data: &Vec<MyAnalysisData>) -> (r: &Vec<usize>)
        requires
            id < data@.len(),
            data@[id as int] is Shape,
        ensures
            r@ == data@[id as int]->Shape_0.shape@,
    {
        match &data[id] {
            MyAnalysisData::Shape(s) => &s.shape,
            _ => vstd::pervasive::unreached(),
        }
    }

    /// The shape of the value that the node `id` holds.
    pub fn get_shape_of_value(id: Id, data: &Vec<MyAnalysisData>) -> (r: &Vec<usize>)
        requires
            id < data@.len(),
            data@[id as int] is Shape,
        ensures
            r@ == data@[id as int]->Shape_0.shape@,
    {
        match &data[id] {
            MyAnalysisData::Shape(s) => &s.shape,
            _ => vstd::pervasive::unreached(),
        }
    }
}

} // verus!
