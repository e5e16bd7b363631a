//! The nodes of the language, and reading a node from an operator name and
//! its children as the node table of the language prescribes.
use crate::data::LiteralData;
use crate::operators::{
    compute_type_from_chars, pad_type_from_chars, relay_activation_layout_from_chars,
    relay_kernel_layout_from_chars, relay_operator_from_chars, ComputeType, PadType,
    RelayActivationLayout, RelayKernelLayout, RelayOperator,
};
use crate::text::{is_not_nan_float, is_not_nan_float_text, parse_usize, spells, string_of, usize_from_chars};
use vstd::prelude::*;

verus! {

/// A reference to another node of an expression or e-graph.
pub type Id = usize;

/// A node of the language: an operator with the ids of its children, or a leaf.
#[derive(Debug, Clone)]
pub enum Language {
    /// `(move-axis <tensor> <axis> <dest>)`: moves axis `<axis>` so that it is now axis `<dest>`.
    MoveAxis([Id; 3]),
    /// `(cartesian-product <t0> <t1>)`: for tensors of shapes `[a1, ..., an, c]` and `[b1, ..., bm, c]`, the tensor of shape `[a1, ..., an, b1, ..., bm, 2, c]` of all pairs of their `c`-length vectors.
    CartesianProduct([Id; 2]),
    /// `(map-dot-product <tensor>)`: for shape `[a1, ..., an, 2, c]`, the dot products of the vector pairs, of shape `[a1, ..., an]`.
    MapDotProduct(Id),
    /// `(slice <tensor> <axis> <low> <high>)`: the half-open range `[<low>, <high>)` of `<tensor>` along `<axis>`.
    Slice([Id; 4]),
    /// `(concatenate <t0> <t1> <axis>)`: `<t0>` and `<t1>` joined along `<axis>`.
    Concatenate([Id; 3]),
    /// `(elementwise-add <t0> <t1>)`
    ElementwiseAdd([Id; 2]),
    /// `(bsg-systolic-array <rows> <cols> <t0> <t1>)`: a systolic array of size rows x cols fed with `<t0>` and `<t1>`.
    BsgSystolicArray([Id; 4]),
    /// `(systolic-array <rows> <cols> <access-0> <access-1>)`: a weight-stationary systolic array multiplying `[M] [N]` by `[] [N, O]`.
    SystolicArray([Id; 4]),
    /// `(systolic-array-with-blocking <rows> <cols> <access-0> <access-1>)`: as `systolic-array`, with the multiplication split into blocks that fit the array.
    SystolicArrayWithBlocking([Id; 4]),
    /// `(systolic-array-conv2d-nchw-oihw-with-blocking <rows> <cols> <weights> <data> <kh> <kw> <stride-h> <stride-w>)`: a systolic array in conv2d mode, data NCHW, weights OIHW.
    SystolicArrayConv2dNchwOihwWithBlocking([Id; 8]),
    /// As above, with data NHWC and weights HWIO.
    SystolicArrayConv2dNhwcHwioWithBlocking([Id; 8]),
    /// A systolic array in conv2d-im2col mode, data NCHW, weights OIHW: the image data is turned into im2col form on the fly.
    SystolicArrayConv2dIm2colNchwOihwWithBlocking([Id; 8]),
    /// As above, with data NHWC and weights HWIO.
    SystolicArrayConv2dIm2colNhwcHwioWithBlocking([Id; 8]),
    /// `(access-windows <access> <filters-shape> <stride-shape>)`: the windows that a convolution or pooling moves over.
    AccessWindows([Id; 3]),
    /// `(shape-of <tensor>)`: the shape of the tensor.
    ShapeOf([Id; 1]),
    /// `(slice-shape <shape> <dim>)`: the dimensions of `<shape>` from `<dim>` on.
    SliceShape([Id; 2]),
    /// `(shape-insert-axis <shape> <axis>)`: inserts an axis of length 1.
    ShapeInsertAxis([Id; 2]),
    /// `(shape-remove-axis <shape> <axis>)`: removes an axis.
    ShapeRemoveAxis([Id; 2]),
    /// `(access <tensor> <dim>)`: the tensor of dims `d0, .., dn` as a collection of shape `d0, .., d(<dim>-1)` whose items have shape `d<dim>, .., dn`.
    Access([Id; 2]),
    /// `(access-transpose <a> <new-order: list>)`: reorders the axes, as `numpy.transpose`; the access dimension stays.
    AccessTranspose([Id; 2]),
    /// `(access-cartesian-product <access1> <access2>)`: for shapes `[a1, ..., an]` and `[b1, ..., bm]` with the same item shape `[c1, ..., co]`, shape `[a1, ..., an, b1, ..., bm]` with items `[2, c1, ..., co]`.
    AccessCartesianProduct([Id; 2]),
    /// `(compute <compute-type> <access>)`: computes over the items of `<access>`.
    Compute([Id; 2]),
    /// `(access-reshape <access> <access-shape>)`: the access with the given shape and item shape.
    AccessReshape([Id; 2]),
    /// `(access-flatten <access>)`: flattens the shape and the item shape.
    AccessFlatten(Id),
    /// `(shape <usize>...)`: a shape literal.
    Shape(Vec<Id>),
    /// `(list <usize>...)`: a list literal.
    List(Vec<Id>),
    /// `(construct-tuple <access> <access> ...)`: a tuple.
    ConstructTuple(Vec<Id>),
    /// `(tuple-get-item <tuple> <i>)`: item `<i>` of the tuple.
    TupleGetItem([Id; 2]),
    /// `(access-shape <shape> <item-shape>)`: an access shape literal.
    AccessShape([Id; 2]),
    /// `(access-slice <access> <axis> <low> <high>)`: the half-open range `[<low>, <high>)` along `<axis>`, which may lie in the item shape.
    AccessSlice([Id; 4]),
    /// `(access-concatenate <a0> <a1> <axis>)`: `<a0>` and `<a1>` joined along `<axis>`.
    AccessConcatenate([Id; 3]),
    /// `(access-pair <a0> <a1>)`: every item of `<a0>` paired with the matching item of `<a1>`.
    AccessPair([Id; 2]),
    /// `(access-shift-right <a0>)`: moves one dimension from the shape to the item shape.
    AccessShiftRight(Id),
    /// `(access-tensor <t>)`: accesses a tensor.
    AccessTensor(Id),
    /// `(access-pad <a> <pad-type> <axis> <pad-before> <pad-after>)`: pads along `<axis>`.
    AccessPad([Id; 5]),
    /// `(access-squeeze <a> <axis>)`: removes an axis of length 1.
    AccessSqueeze([Id; 2]),
    /// `(access-insert-axis <a> <axis>)`: inserts an axis of length 1.
    AccessInsertAxis([Id; 2]),
    /// `(access-broadcast <a> <shape>)`: broadcasts `<a>` to `<shape>`: every dimension of `<a>` matches the one of `<shape>` or is 1.
    AccessBroadcast([Id; 2]),
    /// `(access-literal <literal>)`: accesses a literal.
    AccessLiteral(Id),
    /// `(literal <val: Float64>)`: a scalar literal.
    Literal(Id),
    /// `(relay-operator-call <relay-operator> <args>...)`
    RelayOperatorCall(Vec<Id>),
    /// A `usize` value.
    Usize(usize),
    /// A `Float64` value other than NaN, kept as written.
    NotNanFloat64(LiteralData),
    RelayOperator(RelayOperator),
    RelayActivationLayout(RelayActivationLayout),
    RelayKernelLayout(RelayKernelLayout),
    PadType(PadType),
    ComputeType(ComputeType),
    /// A named tensor.
    Symbol(String),
}

/// The operator of a node, with the data of a leaf.
pub enum Op {
    MoveAxis,
    CartesianProduct,
    MapDotProduct,
    Slice,
    Concatenate,
    ElementwiseAdd,
    BsgSystolicArray,
    SystolicArray,
    SystolicArrayWithBlocking,
    SystolicArrayConv2dNchwOihwWithBlocking,
    SystolicArrayConv2dNhwcHwioWithBlocking,
    SystolicArrayConv2dIm2colNchwOihwWithBlocking,
    SystolicArrayConv2dIm2colNhwcHwioWithBlocking,
    AccessWindows,
    ShapeOf,
    SliceShape,
    ShapeInsertAxis,
    ShapeRemoveAxis,
    Access,
    AccessTranspose,
    AccessCartesianProduct,
    Compute,
    AccessReshape,
    AccessFlatten,
    Shape,
    List,
    ConstructTuple,
    TupleGetItem,
    AccessShape,
    AccessSlice,
    AccessConcatenate,
    AccessPair,
    AccessShiftRight,
    AccessTensor,
    AccessPad,
    AccessSqueeze,
    AccessInsertAxis,
    AccessBroadcast,
    AccessLiteral,
    Literal,
    RelayOperatorCall,
    Usize(usize),
    NotNanFloat64(Seq<char>),
    RelayOperator(RelayOperator),
    RelayActivationLayout(RelayActivationLayout),
    RelayKernelLayout(RelayKernelLayout),
    PadType(PadType),
    ComputeType(ComputeType),
    Symbol(Seq<char>),
}

/// The model of a node: its operator and the ids of its children.
pub struct NodeView {
    pub op: Op,
    pub children: Seq<Id>,
}

impl View for Language {
    type V = NodeView;

    open spec fn view(&self) -> NodeView {
        match self {
            Language::MoveAxis(ids) => NodeView { op: Op::MoveAxis, children: ids@ },
            Language::CartesianProduct(ids) => NodeView { op: Op::CartesianProduct, children: ids@ },
            Language::MapDotProduct(id) => NodeView { op: Op::MapDotProduct, children: seq![*id] },
            Language::Slice(ids) => NodeView { op: Op::Slice, children: ids@ },
            Language::Concatenate(ids) => NodeView { op: Op::Concatenate, children: ids@ },
            Language::ElementwiseAdd(ids) => NodeView { op: Op::ElementwiseAdd, children: ids@ },
            Language::BsgSystolicArray(ids) => NodeView { op: Op::BsgSystolicArray, children: ids@ },
            Language::SystolicArray(ids) => NodeView { op: Op::SystolicArray, children: ids@ },
            Language::SystolicArrayWithBlocking(ids) => NodeView { op: Op::SystolicArrayWithBlocking, children: ids@ },
            Language::SystolicArrayConv2dNchwOihwWithBlocking(ids) => NodeView { op: Op::SystolicArrayConv2dNchwOihwWithBlocking, children: ids@ },
            Language::SystolicArrayConv2dNhwcHwioWithBlocking(ids) => NodeView { op: Op::SystolicArrayConv2dNhwcHwioWithBlocking, children: ids@ },
            Language::SystolicArrayConv2dIm2colNchwOihwWithBlocking(ids) => NodeView { op: Op::SystolicArrayConv2dIm2colNchwOihwWithBlocking, children: ids@ },
            Language::SystolicArrayConv2dIm2colNhwcHwioWithBlocking(ids) => NodeView { op: Op::SystolicArrayConv2dIm2colNhwcHwioWithBlocking, children: ids@ },
            Language::AccessWindows(ids) => NodeView { op: Op::AccessWindows, children: ids@ },
            Language::ShapeOf(ids) => NodeView { op: Op::ShapeOf, children: ids@ },
            Language::SliceShape(ids) => NodeView { op: Op::SliceShape, children: ids@ },
            Language::ShapeInsertAxis(ids) => NodeView { op: Op::ShapeInsertAxis, children: ids@ },
            Language::ShapeRemoveAxis(ids) => NodeView { op: Op::ShapeRemoveAxis, children: ids@ },
            Language::Access(ids) => NodeView { op: Op::Access, children: ids@ },
            Language::AccessTranspose(ids) => NodeView { op: Op::AccessTranspose, children: ids@ },
            Language::AccessCartesianProduct(ids) => NodeView { op: Op::AccessCartesianProduct, children: ids@ },
            Language::Compute(ids) => NodeView { op: Op::Compute, children: ids@ },
            Language::AccessReshape(ids) => NodeView { op: Op::AccessReshape, children: ids@ },
            Language::AccessFlatten(id) => NodeView { op: Op::AccessFlatten, children: seq![*id] },
            Language::Shape(ids) => NodeView { op: Op::Shape, children: ids@ },
            Language::List(ids) => NodeView { op: Op::List, children: ids@ },
            Language::ConstructTuple(ids) => NodeView { op: Op::ConstructTuple, children: ids@ },
            Language::TupleGetItem(ids) => NodeView { op: Op::TupleGetItem, children: ids@ },
            Language::AccessShape(ids) => NodeView { op: Op::AccessShape, children: ids@ },
            Language::AccessSlice(ids) => NodeView { op: Op::AccessSlice, children: ids@ },
            Language::AccessConcatenate(ids) => NodeView { op: Op::AccessConcatenate, children: ids@ },
            Language::AccessPair(ids) => NodeView { op: Op::AccessPair, children: ids@ },
            Language::AccessShiftRight(id) => NodeView { op: Op::AccessShiftRight, children: seq![*id] },
            Language::AccessTensor(id) => NodeView { op: Op::AccessTensor, children: seq![*id] },
            Language::AccessPad(ids) => NodeView { op: Op::AccessPad, children: ids@ },
            Language::AccessSqueeze(ids) => NodeView { op: Op::AccessSqueeze, children: ids@ },
            Language::AccessInsertAxis(ids) => NodeView { op: Op::AccessInsertAxis, children: ids@ },
            Language::AccessBroadcast(ids) => NodeView { op: Op::AccessBroadcast, children: ids@ },
            Language::AccessLiteral(id) => NodeView { op: Op::AccessLiteral, children: seq![*id] },
            Language::Literal(id) => NodeView { op: Op::Literal, children: seq![*id] },
            Language::RelayOperatorCall(ids) => NodeView { op: Op::RelayOperatorCall, children: ids@ },
            Language::Usize(x) => NodeView { op: Op::Usize(*x), children: Seq::empty() },
            Language::NotNanFloat64(x) => NodeView { op: Op::NotNanFloat64(x@), children: Seq::empty() },
            Language::RelayOperator(x) => NodeView { op: Op::RelayOperator(*x), children: Seq::empty() },
            Language::RelayActivationLayout(x) => NodeView { op: Op::RelayActivationLayout(*x), children: Seq::empty() },
            Language::RelayKernelLayout(x) => NodeView { op: Op::RelayKernelLayout(*x), children: Seq::empty() },
            Language::PadType(x) => NodeView { op: Op::PadType(*x), children: Seq::empty() },
            Language::ComputeType(x) => NodeView { op: Op::ComputeType(*x), children: Seq::empty() },
            Language::Symbol(x) => NodeView { op: Op::Symbol(x@), children: Seq::empty() },
        }
    }
}

/// The named operator `op` with children `ch`, where the node table names
/// `op` with that number of children.
/// Part 1 of the named operators of the node table.
pub open spec fn named_node_0(op: Seq<char>, ch: Seq<Id>) -> Option<NodeView> {
    if op == "move-axis"@ && ch.len() == 3 {
        Some(NodeView { op: Op::MoveAxis, children: ch })
    } else if op == "cartesian-product"@ && ch.len() == 2 {
        Some(NodeView { op: Op::CartesianProduct, children: ch })
    } else if op == "map-dot-product"@ && ch.len() == 1 {
        Some(NodeView { op: Op::MapDotProduct, children: ch })
    } else if op == "slice"@ && ch.len() == 4 {
        Some(NodeView { op: Op::Slice, children: ch })
    } else if op == "concatenate"@ && ch.len() == 3 {
        Some(NodeView { op: Op::Concatenate, children: ch })
    } else if op == "elementwise-add"@ && ch.len() == 2 {
        Some(NodeView { op: Op::ElementwiseAdd, children: ch })
    } else if op == "bsg-systolic-array"@ && ch.len() == 4 {
        Some(NodeView { op: Op::BsgSystolicArray, children: ch })
    } else if op == "systolic-array"@ && ch.len() == 4 {
        Some(NodeView { op: Op::SystolicArray, children: ch })
    } else if op == "systolic-array-with-blocking"@ && ch.len() == 4 {
        Some(NodeView { op: Op::SystolicArrayWithBlocking, children: ch })
    } else if op == "systolic-array-conv2d-nchw-oihw-with-blocking"@ && ch.len() == 8 {
        Some(NodeView { op: Op::SystolicArrayConv2dNchwOihwWithBlocking, children: ch })
    } else if op == "systolic-array-conv2d-nhwc-hwio-with-blocking"@ && ch.len() == 8 {
        Some(NodeView { op: Op::SystolicArrayConv2dNhwcHwioWithBlocking, children: ch })
    } else {
        None
    }
}

/// Part 2 of the named operators of the node table.
pub open spec fn named_node_1(op: Seq<char>, ch: Seq<Id>) -> Option<NodeView> {
    if op == "systolic-array-conv2d-im2col-nchw-oihw-with-blocking"@ && ch.len() == 8 {
        Some(NodeView { op: Op::SystolicArrayConv2dIm2colNchwOihwWithBlocking, children: ch })
    } else if op == "systolic-array-conv2d-im2col-nhwc-hwio-with-blocking"@ && ch.len() == 8 {
        Some(NodeView { op: Op::SystolicArrayConv2dIm2colNhwcHwioWithBlocking, children: ch })
    } else if op == "access-windows"@ && ch.len() == 3 {
        Some(NodeView { op: Op::AccessWindows, children: ch })
    } else if op == "shape-of"@ && ch.len() == 1 {
        Some(NodeView { op: Op::ShapeOf, children: ch })
    } else if op == "slice-shape"@ && ch.len() == 2 {
        Some(NodeView { op: Op::SliceShape, children: ch })
    } else if op == "shape-insert-axis"@ && ch.len() == 2 {
        Some(NodeView { op: Op::ShapeInsertAxis, children: ch })
    } else if op == "shape-remove-axis"@ && ch.len() == 2 {
        Some(NodeView { op: Op::ShapeRemoveAxis, children: ch })
    } else if op == "access"@ && ch.len() == 2 {
        Some(NodeView { op: Op::Access, children: ch })
    } else if op == "access-transpose"@ && ch.len() == 2 {
        Some(NodeView { op: Op::AccessTranspose, children: ch })
    } else if op == "access-cartesian-product"@ && ch.len() == 2 {
        Some(NodeView { op: Op::AccessCartesianProduct, children: ch })
    } else if op == "compute"@ && ch.len() == 2 {
        Some(NodeView { op: Op::Compute, children: ch })
    } else {
        None
    }
}

/// Part 3 of the named operators of the node table.
pub open spec fn named_node_2(op: Seq<char>, ch: Seq<Id>) -> Option<NodeView> {
    if op == "access-reshape"@ && ch.len() == 2 {
        Some(NodeView { op: Op::AccessReshape, children: ch })
    } else if op == "access-flatten"@ && ch.len() == 1 {
        Some(NodeView { op: Op::AccessFlatten, children: ch })
    } else if op == "shape"@ {
        Some(NodeView { op: Op::Shape, children: ch })
    } else if op == "list"@ {
        Some(NodeView { op: Op::List, children: ch })
    } else if op == "construct-tuple"@ {
        Some(NodeView { op: Op::ConstructTuple, children: ch })
    } else if op == "tuple-get-item"@ && ch.len() == 2 {
        Some(NodeView { op: Op::TupleGetItem, children: ch })
    } else if op == "access-shape"@ && ch.len() == 2 {
        Some(NodeView { op: Op::AccessShape, children: ch })
    } else if op == "access-slice"@ && ch.len() == 4 {
        Some(NodeView { op: Op::AccessSlice, children: ch })
    } else if op == "access-concatenate"@ && ch.len() == 3 {
        Some(NodeView { op: Op::AccessConcatenate, children: ch })
    } else if op == "access-pair"@ && ch.len() == 2 {
        Some(NodeView { op: Op::AccessPair, children: ch })
    } else if op == "access-shift-right"@ && ch.len() == 1 {
        Some(NodeView { op: Op::AccessShiftRight, children: ch })
    } else {
        None
    }
}

/// Part 4 of the named operators of the node table.
pub open spec fn named_node_3(op: Seq<char>, ch: Seq<Id>) -> Option<NodeView> {
    if op == "access-tensor"@ && ch.len() == 1 {
        Some(NodeView { op: Op::AccessTensor, children: ch })
    } else if op == "access-pad"@ && ch.len() == 5 {
        Some(NodeView { op: Op::AccessPad, children: ch })
    } else if op == "access-squeeze"@ && ch.len() == 2 {
        Some(NodeView { op: Op::AccessSqueeze, children: ch })
    } else if op == "access-insert-axis"@ && ch.len() == 2 {
        Some(NodeView { op: Op::AccessInsertAxis, children: ch })
    } else if op == "access-broadcast"@ && ch.len() == 2 {
        Some(NodeView { op: Op::AccessBroadcast, children: ch })
    } else if op == "access-literal"@ && ch.len() == 1 {
        Some(NodeView { op: Op::AccessLiteral, children: ch })
    } else if op == "literal"@ && ch.len() == 1 {
        Some(NodeView { op: Op::Literal, children: ch })
    } else if op == "relay-operator-call"@ {
        Some(NodeView { op: Op::RelayOperatorCall, children: ch })
    } else {
        None
    }
}

/// The named operator `op` with children `ch`, where the node table names
/// `op` with that number of children.
pub open spec fn named_node(op: Seq<char>, ch: Seq<Id>) -> Option<NodeView> {
    if named_node_0(op, ch) is Some {
        named_node_0(op, ch)
    } else if named_node_1(op, ch) is Some {
        named_node_1(op, ch)
    } else if named_node_2(op, ch) is Some {
        named_node_2(op, ch)
    } else {
        named_node_3(op, ch)
    }
}

/// The leaf that a token stands for: a `usize`, a `Float64` other than NaN,
/// one of the leaf operators, and finally a symbol, tried in that order.
pub open spec fn leaf_node(op: Seq<char>) -> NodeView {
    if usize_from_chars(op) is Some {
        NodeView { op: Op::Usize(usize_from_chars(op)->0), children: Seq::empty() }
    } else if is_not_nan_float_text(op) {
        NodeView { op: Op::NotNanFloat64(op), children: Seq::empty() }
    } else if relay_operator_from_chars(op) is Some {
        NodeView { op: Op::RelayOperator(relay_operator_from_chars(op)->0), children: Seq::empty() }
    } else if relay_activation_layout_from_chars(op) is Some {
        NodeView {
            op: Op::RelayActivationLayout(relay_activation_layout_from_chars(op)->0),
            children: Seq::empty(),
        }
    } else if relay_kernel_layout_from_chars(op) is Some {
        NodeView {
            op: Op::RelayKernelLayout(relay_kernel_layout_from_chars(op)->0),
            children: Seq::empty(),
        }
    } else if pad_type_from_chars(op) is Some {
        NodeView { op: Op::PadType(pad_type_from_chars(op)->0), children: Seq::empty() }
    } else if compute_type_from_chars(op) is Some {
        NodeView { op: Op::ComputeType(compute_type_from_chars(op)->0), children: Seq::empty() }
    } else {
        NodeView { op: Op::Symbol(op), children: Seq::empty() }
    }
}

/// What the node table makes of operator `op` with children `ch`: the named
/// operator with the right number of children, else, for a token without
/// children, the leaf it stands for; else nothing.
pub open spec fn node_from_op(op: Seq<char>, ch: Seq<Id>) -> Option<NodeView> {
    match named_node(op, ch) {
        Some(n) => Some(n),
        None => if ch.len() == 0 {
            Some(leaf_node(op))
        } else {
            None
        },
    }
}

/// The model of an optional node.
pub open spec fn node_model(n: Option<Language>) -> Option<NodeView> {
    match n {
        Some(x) => Some(x@),
        None => None,
    }
}

impl Language {
    /// The node that operator `op` with children `children` stands for, as
    /// `node_from_op` describes; `None` where there is none.
    fn named_from_op_0(op: &Vec<char>, children: Vec<Id>) -> (r: Option<Language>)
        ensures
            node_model(r) == named_node_0(op@, children@),
    {
        let n = children.len();
        if spells(op, "move-axis") && n == 3 {
            let ids = [children[0], children[1], children[2]];
            assert(ids@ =~= children@);
            Some(Language::MoveAxis(ids))
        } else if spells(op, "cartesian-product") && n == 2 {
            let ids = [children[0], children[1]];
            assert(ids@ =~= children@);
            Some(Language::CartesianProduct(ids))
        } else if spells(op, "map-dot-product") && n == 1 {
            assert(children@ =~= seq![children[0]]);
            Some(Language::MapDotProduct(children[0]))
        } else if spells(op, "slice") && n == 4 {
            let ids = [children[0], children[1], children[2], children[3]];
            assert(ids@ =~= children@);
            Some(Language::Slice(ids))
        } else if spells(op, "concatenate") && n == 3 {
            let ids = [children[0], children[1], children[2]];
            assert(ids@ =~= children@);
            Some(Language::Concatenate(ids))
        } else if spells(op, "elementwise-add") && n == 2 {
            let ids = [children[0], children[1]];
            assert(ids@ =~= children@);
            Some(Language::ElementwiseAdd(ids))
        } else if spells(op, "bsg-systolic-array") && n == 4 {
            let ids = [children[0], children[1], children[2], children[3]];
            assert(ids@ =~= children@);
            Some(Language::BsgSystolicArray(ids))
        } else if spells(op, "systolic-array") && n == 4 {
            let ids = [children[0], children[1], children[2], children[3]];
            assert(ids@ =~= children@);
            Some(Language::SystolicArray(ids))
        } else if spells(op, "systolic-array-with-blocking") && n == 4 {
            let ids = [children[0], children[1], children[2], children[3]];
            assert(ids@ =~= children@);
            Some(Language::SystolicArrayWithBlocking(ids))
        } else if spells(op, "systolic-array-conv2d-nchw-oihw-with-blocking") && n == 8 {
            let ids = [children[0], children[1], children[2], children[3], children[4], children[5], children[6], children[7]];
            assert(ids@ =~= children@);
            Some(Language::SystolicArrayConv2dNchwOihwWithBlocking(ids))
        } else if spells(op, "systolic-array-conv2d-nhwc-hwio-with-blocking") && n == 8 {
            let ids = [children[0], children[1], children[2], children[3], children[4], children[5], children[6], children[7]];
            assert(ids@ =~= children@);
            Some(Language::SystolicArrayConv2dNhwcHwioWithBlocking(ids))
        } else {
            None
        }
    }

    fn named_from_op_1(op: &Vec<char>, children: Vec<Id>) -> (r: Option<Language>)
        ensures
            node_model(r) == named_node_1(op@, children@),
    {
        let n = children.len();
        if spells(op, "systolic-array-conv2d-im2col-nchw-oihw-with-blocking") && n == 8 {
            let ids = [children[0], children[1], children[2], children[3], children[4], children[5], children[6], children[7]];
            assert(ids@ =~= children@);
            Some(Language::SystolicArrayConv2dIm2colNchwOihwWithBlocking(ids))
        } else if spells(op, "systolic-array-conv2d-im2col-nhwc-hwio-with-blocking") && n == 8 {
            let ids = [children[0], children[1], children[2], children[3], children[4], children[5], children[6], children[7]];
            assert(ids@ =~= children@);
            Some(Language::SystolicArrayConv2dIm2colNhwcHwioWithBlocking(ids))
        } else if spells(op, "access-windows") && n == 3 {
            let ids = [children[0], children[1], children[2]];
            assert(ids@ =~= children@);
            Some(Language::AccessWindows(ids))
        } else if spells(op, "shape-of") && n == 1 {
            let ids = [children[0]];
            assert(ids@ =~= children@);
            Some(Language::ShapeOf(ids))
        } else if spells(op, "slice-shape") && n == 2 {
            let ids = [children[0], children[1]];
            assert(ids@ =~= children@);
            Some(Language::SliceShape(ids))
        } else if spells(op, "shape-insert-axis") && n == 2 {
            let ids = [children[0], children[1]];
            assert(ids@ =~= children@);
            Some(Language::ShapeInsertAxis(ids))
        } else if spells(op, "shape-remove-axis") && n == 2 {
            let ids = [children[0], children[1]];
            assert(ids@ =~= children@);
            Some(Language::ShapeRemoveAxis(ids))
        } else if spells(op, "access") && n == 2 {
            let ids = [children[0], children[1]];
            assert(ids@ =~= children@);
            Some(Language::Access(ids))
        } else if spells(op, "access-transpose") && n == 2 {
            let ids = [children[0], children[1]];
            assert(ids@ =~= children@);
            Some(Language::AccessTranspose(ids))
        } else if spells(op, "access-cartesian-product") && n == 2 {
            let ids = [children[0], children[1]];
            assert(ids@ =~= children@);
            Some(Language::AccessCartesianProduct(ids))
        } else if spells(op, "compute") && n == 2 {
            let ids = [children[0], children[1]];
            assert(ids@ =~= children@);
            Some(Language::Compute(ids))
        } else {
            None
        }
    }

    fn named_from_op_2(op: &Vec<char>, children: Vec<Id>) -> (r: Option<Language>)
        ensures
            node_model(r) == named_node_2(op@, children@),
    {
        let n = children.len();
        if spells(op, "access-reshape") && n == 2 {
            let ids = [children[0], children[1]];
            assert(ids@ =~= children@);
            Some(Language::AccessReshape(ids))
        } else if spells(op, "access-flatten") && n == 1 {
            assert(children@ =~= seq![children[0]]);
            Some(Language::AccessFlatten(children[0]))
        } else if spells(op, "shape") {
            Some(Language::Shape(children))
        } else if spells(op, "list") {
            Some(Language::List(children))
        } else if spells(op, "construct-tuple") {
            Some(Language::ConstructTuple(children))
        } else if spells(op, "tuple-get-item") && n == 2 {
            let ids = [children[0], children[1]];
            assert(ids@ =~= children@);
            Some(Language::TupleGetItem(ids))
        } else if spells(op, "access-shape") && n == 2 {
            let ids = [children[0], children[1]];
            assert(ids@ =~= children@);
            Some(Language::AccessShape(ids))
        } else if spells(op, "access-slice") && n == 4 {
            let ids = [children[0], children[1], children[2], children[3]];
            assert(ids@ =~= children@);
            Some(Language::AccessSlice(ids))
        } else if spells(op, "access-concatenate") && n == 3 {
            let ids = [children[0], children[1], children[2]];
            assert(ids@ =~= children@);
            Some(Language::AccessConcatenate(ids))
        } else if spells(op, "access-pair") && n == 2 {
            let ids = [children[0], children[1]];
            assert(ids@ =~= children@);
            Some(Language::AccessPair(ids))
        } else if spells(op, "access-shift-right") && n == 1 {
            assert(children@ =~= seq![children[0]]);
            Some(Language::AccessShiftRight(children[0]))
        } else {
            None
        }
    }

    fn named_from_op_3(op: &Vec<char>, children: Vec<Id>) -> (r: Option<Language>)
        ensures
            node_model(r) == named_node_3(op@, children@),
    {
        let n = children.len();
        if spells(op, "access-tensor") && n == 1 {
            assert(children@ =~= seq![children[0]]);
            Some(Language::AccessTensor(children[0]))
        } else if spells(op, "access-pad") && n == 5 {
            let ids = [children[0], children[1], children[2], children[3], children[4]];
            assert(ids@ =~= children@);
            Some(Language::AccessPad(ids))
        } else if spells(op, "access-squeeze") && n == 2 {
            let ids = [children[0], children[1]];
            assert(ids@ =~= children@);
            Some(Language::AccessSqueeze(ids))
        } else if spells(op, "access-insert-axis") && n == 2 {
            let ids = [children[0], children[1]];
            assert(ids@ =~= children@);
            Some(Language::AccessInsertAxis(ids))
        } else if spells(op, "access-broadcast") && n == 2 {
            let ids = [children[0], children[1]];
            assert(ids@ =~= children@);
            Some(Language::AccessBroadcast(ids))
        } else if spells(op, "access-literal") && n == 1 {
            assert(children@ =~= seq![children[0]]);
            Some(Language::AccessLiteral(children[0]))
        } else if spells(op, "literal") && n == 1 {
            assert(children@ =~= seq![children[0]]);
            Some(Language::Literal(children[0]))
        } else if spells(op, "relay-operator-call") {
            Some(Language::RelayOperatorCall(children))
        } else {
            None
        }
    }

    fn named_from_op(op: &Vec<char>, children: Vec<Id>) -> (r: Option<Language>)
        ensures
            node_model(r) == named_node(op@, children@),
    {
        let r0 = Self::named_from_op_0(op, children.clone());
        if r0.is_some() {
            return r0;
        }
        let r1 = Self::named_from_op_1(op, children.clone());
        if r1.is_some() {
            return r1;
        }
        let r2 = Self::named_from_op_2(op, children.clone());
        if r2.is_some() {
            return r2;
        }
        Self::named_from_op_3(op, children)
    }

    fn leaf_from_op(op: &Vec<char>) -> (r: Language)
        ensures
            r@ == leaf_node(op@),
    {
        if let Some(u) = parse_usize(op) {
            Language::Usize(u)
        } else if is_not_nan_float(op) {
            Language::NotNanFloat64(LiteralData { text: string_of(op) })
        } else if let Some(x) = RelayOperator::from_chars(op) {
            Language::RelayOperator(x)
        } else if let Some(x) = RelayActivationLayout::from_chars(op) {
            Language::RelayActivationLayout(x)
        } else if let Some(x) = RelayKernelLayout::from_chars(op) {
            Language::RelayKernelLayout(x)
        } else if let Some(x) = PadType::from_chars(op) {
            Language::PadType(x)
        } else if let Some(x) = ComputeType::from_chars(op) {
            Language::ComputeType(x)
        } else {
            Language::Symbol(string_of(op))
        }
    }

    /// The node that operator `op` with children `children` stands for, as
    /// `node_from_op` describes; `None` where there is none.
    pub fn from_op(op: &Vec<char>, children: Vec<Id>) -> (r: Option<Language>)
        ensures
            node_model(r) == node_from_op(op@, children@),
    {
        let n = children.len();
        match Self::named_from_op(op, children) {
            Some(x) => Some(x),
            None => if n == 0 {
                Some(Self::leaf_from_op(op))
            } else {
                None
            },
        }
    }

    /// The ids of the node's children, in order.
    pub fn children(&self) -> (r: Vec<Id>)
        ensures
            r@ == self@.children,
    {
        match self {
            Language::MoveAxis(ids) => ids_of(ids),
            Language::CartesianProduct(ids) => ids_of(ids),
            Language::MapDotProduct(id) => {
                let mut v = Vec::new();
                v.push(*id);
                assert(v@ =~= seq![*id]);
                v
            },
            Language::Slice(ids) => ids_of(ids),
            Language::Concatenate(ids) => ids_of(ids),
            Language::ElementwiseAdd(ids) => ids_of(ids),
            Language::BsgSystolicArray(ids) => ids_of(ids),
            Language::SystolicArray(ids) => ids_of(ids),
            Language::SystolicArrayWithBlocking(ids) => ids_of(ids),
            Language::SystolicArrayConv2dNchwOihwWithBlocking(ids) => ids_of(ids),
            Language::SystolicArrayConv2dNhwcHwioWithBlocking(ids) => ids_of(ids),
            Language::SystolicArrayConv2dIm2colNchwOihwWithBlocking(ids) => ids_of(ids),
            Language::SystolicArrayConv2dIm2colNhwcHwioWithBlocking(ids) => ids_of(ids),
            Language::AccessWindows(ids) => ids_of(ids),
            Language::ShapeOf(ids) => ids_of(ids),
            Language::SliceShape(ids) => ids_of(ids),
            Language::ShapeInsertAxis(ids) => ids_of(ids),
            Language::ShapeRemoveAxis(ids) => ids_of(ids),
            Language::Access(ids) => ids_of(ids),
            Language::AccessTranspose(ids) => ids_of(ids),
            Language::AccessCartesianProduct(ids) => ids_of(ids),
            Language::Compute(ids) => ids_of(ids),
            Language::AccessReshape(ids) => ids_of(ids),
            Language::AccessFlatten(id) => {
                let mut v = Vec::new();
                v.push(*id);
                assert(v@ =~= seq![*id]);
                v
            },
            Language::Shape(ids) => crate::dims::dims_take(ids, ids.len()),
            Language::List(ids) => crate::dims::dims_take(ids, ids.len()),
            Language::ConstructTuple(ids) => crate::dims::dims_take(ids, ids.len()),
            Language::TupleGetItem(ids) => ids_of(ids),
            Language::AccessShape(ids) => ids_of(ids),
            Language::AccessSlice(ids) => ids_of(ids),
            Language::AccessConcatenate(ids) => ids_of(ids),
            Language::AccessPair(ids) => ids_of(ids),
            Language::AccessShiftRight(id) => {
                let mut v = Vec::new();
                v.push(*id);
                assert(v@ =~= seq![*id]);
                v
            },
            Language::AccessTensor(id) => {
                let mut v = Vec::new();
                v.push(*id);
                assert(v@ =~= seq![*id]);
                v
            },
            Language::AccessPad(ids) => ids_of(ids),
            Language::AccessSqueeze(ids) => ids_of(ids),
            Language::AccessInsertAxis(ids) => ids_of(ids),
            Language::AccessBroadcast(ids) => ids_of(ids),
            Language::AccessLiteral(id) => {
                let mut v = Vec::new();
                v.push(*id);
                assert(v@ =~= seq![*id]);
                v
            },
            Language::Literal(id) => {
                let mut v = Vec::new();
                v.push(*id);
                assert(v@ =~= seq![*id]);
                v
            },
            Language::RelayOperatorCall(ids) => crate::dims::dims_take(ids, ids.len()),
            _ => Vec::new(),
        }
    }
}

/// The ids of a fixed-size child array, as a vector.
fn ids_of<const N: usize>(ids: &[Id; N]) -> (r: Vec<Id>)
    ensures
        r@ == ids@,
{
    let mut v: Vec<Id> = Vec::new();
    let mut i: usize = 0;
    while i < N
        invariant
            i <= N,
            N == ids@.len(),
            v@ =~= ids@.take(i as int),
        decreases N - i,
    {
        v.push(ids[i]);
        i = i + 1;
    }
    v
}

} // verus!
