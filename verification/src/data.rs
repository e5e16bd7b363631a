//! The values that the analysis attaches to each e-class: shapes, access
//! patterns with their zero regions, literals and the leaf operators.
use crate::operators::{ComputeType, PadType, RelayActivationLayout, RelayKernelLayout, RelayOperator};
use std::collections::HashMap;
use vstd::std_specs::iter::IteratorSpec;
use vstd::prelude::*;

verus! {

broadcast use vstd::std_specs::hash::group_hash_axioms;

/// A scalar `Float64` literal, kept as the text it was written with.
#[derive(Debug, Clone, PartialEq)]
pub struct LiteralData {
    pub text: String,
}

impl LiteralData {
    /// The shape of the literal: literals are scalars.
    pub fn shape(&self) -> (r: Vec<usize>)
        ensures
            r@ == Seq::<usize>::empty(),
    {
        Vec::new()
    }

    /// A copy of the literal.
    pub fn copy(&self) -> (r: LiteralData)
        ensures
            r@ == self@,
    {
        LiteralData { text: self.text.clone() }
    }
}

impl View for LiteralData {
    type V = Seq<char>;

    open spec fn view(&self) -> Seq<char> {
        self.text@
    }
}

/// An access pattern: a tensor seen as a `shape`-shaped collection of items
/// of shape `item_shape`.
#[derive(Debug, Clone, PartialEq)]
pub struct AccessPatternData {
    pub shape: Vec<usize>,
    pub item_shape: Vec<usize>,
    /// Regions proven to be zero-valued. The map takes an axis index to
    /// flags over that axis: index `i` is flagged when it is known to hold
    /// only zeros.
    pub zero_regions: HashMap<usize, Vec<bool>>,
}

/// The model of an access pattern.
pub struct AccessView {
    pub shape: Seq<usize>,
    pub item_shape: Seq<usize>,
    pub zero_regions: Map<usize, Seq<bool>>,
}

impl AccessView {
    /// All dimensions: the shape followed by the item shape.
    pub open spec fn dims(self) -> Seq<usize> {
        self.shape + self.item_shape
    }

    /// The same access with no zero-region information.
    pub open spec fn forget_zeros(self) -> AccessView {
        AccessView { zero_regions: Map::empty(), ..self }
    }

    /// The number of dimensions, shape and item shape together.
    pub open spec fn ndim(self) -> int {
        (self.shape.len() + self.item_shape.len()) as int
    }

    /// Whether the number of dimensions can be counted in a `usize`.
    pub open spec fn ndim_fits(self) -> bool {
        self.ndim() <= usize::MAX
    }
}

/// An access with the given dimensions and no zero-region information.
pub open spec fn plain_access(shape: Seq<usize>, item_shape: Seq<usize>) -> AccessView {
    AccessView { shape, item_shape, zero_regions: Map::empty() }
}

/// The flags of a zero-region map, seen as sequences.
pub open spec fn zero_view(m: Map<usize, Vec<bool>>) -> Map<usize, Seq<bool>> {
    m.map_values(|v: Vec<bool>| v@)
}

impl View for AccessPatternData {
    type V = AccessView;

    open spec fn view(&self) -> AccessView {
        AccessView {
            shape: self.shape@,
            item_shape: self.item_shape@,
            zero_regions: zero_view(self.zero_regions@),
        }
    }
}

/// A shape value.
#[derive(Debug, Clone, PartialEq)]
pub struct ShapeData {
    pub shape: Vec<usize>,
}

/// An e-class's shape and `usize` value, each where it has one.
#[derive(Debug, Clone, PartialEq)]
pub struct MyAnalysisDataLegacyData {
    pub shape: Option<Vec<usize>>,
    pub usize_value: Option<usize>,
}

/// What the analysis knows of an e-class.
#[derive(Debug)]
pub enum MyAnalysisData {
    Literal(LiteralData),
    Usize(usize),
    AccessPattern(AccessPatternData),
    Shape(ShapeData),
    Tuple(Vec<MyAnalysisData>),
    ComputeType(ComputeType),
    PadType(PadType),
    List(Vec<usize>),
    RelayOperator(RelayOperator),
    RelayActivationLayout(RelayActivationLayout),
    RelayKernelLayout(RelayKernelLayout),
}

/// The model of `MyAnalysisData`.
pub enum DataView {
    Literal(Seq<char>),
    Usize(usize),
    AccessPattern(AccessView),
    Shape(Seq<usize>),
    Tuple(Seq<DataView>),
    ComputeType(ComputeType),
    PadType(PadType),
    List(Seq<usize>),
    RelayOperator(RelayOperator),
    RelayActivationLayout(RelayActivationLayout),
    RelayKernelLayout(RelayKernelLayout),
}

/// The models of a sequence of analysis values.
pub open spec fn views_of(s: Seq<MyAnalysisData>) -> Seq<DataView>
    decreases s,
{
    if s.len() == 0 {
        Seq::empty()
    } else {
        views_of(s.drop_last()).push(s.last().model())
    }
}

impl MyAnalysisData {
    /// The model of this value.
    pub open spec fn model(self) -> DataView
        decreases self,
    {
        match self {
            MyAnalysisData::Literal(l) => DataView::Literal(l.text@),
            MyAnalysisData::Usize(u) => DataView::Usize(u),
            MyAnalysisData::AccessPattern(a) => DataView::AccessPattern(a@),
            MyAnalysisData::Shape(s) => DataView::Shape(s.shape@),
            MyAnalysisData::Tuple(v) => DataView::Tuple(views_of(v@)),
            MyAnalysisData::ComputeType(t) => DataView::ComputeType(t),
            MyAnalysisData::PadType(t) => DataView::PadType(t),
            MyAnalysisData::List(l) => DataView::List(l@),
            MyAnalysisData::RelayOperator(o) => DataView::RelayOperator(o),
            MyAnalysisData::RelayActivationLayout(l) => DataView::RelayActivationLayout(l),
            MyAnalysisData::RelayKernelLayout(l) => DataView::RelayKernelLayout(l),
        }
    }
}

impl View for MyAnalysisData {
    type V = DataView;

    open spec fn view(&self) -> DataView {
        self.model()
    }
}

proof fn lemma_views_of_len(s: Seq<MyAnalysisData>)
    ensures
        views_of(s).len() == s.len(),
        forall|i: int| 0 <= i < s.len() ==> #[trigger] views_of(s)[i] == s[i].model(),
    decreases s.len(),
{
    if s.len() > 0 {
        lemma_views_of_len(s.drop_last());
    }
}

/// The models of a sequence of values: one model per value, in order.
pub broadcast proof fn lemma_views_of(s: Seq<MyAnalysisData>)
    ensures
        #[trigger] views_of(s).len() == s.len(),
        forall|i: int| 0 <= i < s.len() ==> #[trigger] views_of(s)[i] == s[i].model(),
{
    lemma_views_of_len(s);
}

/// A copy of a vector of dimensions.
pub fn copy_dims(v: &Vec<usize>) -> (r: Vec<usize>)
    ensures
        r@ == v@,
{
    let mut r: Vec<usize> = Vec::new();
    let mut i: usize = 0;
    while i < v.len()
        invariant
            i <= v.len(),
            r@ =~= v@.take(i as int),
        decreases v.len() - i,
    {
        r.push(v[i]);
        i = i + 1;
    }
    r
}

/// A copy of a vector of flags.
pub fn copy_flags(v: &Vec<bool>) -> (r: Vec<bool>)
    ensures
        r@ == v@,
{
    let mut r: Vec<bool> = Vec::new();
    let mut i: usize = 0;
    while i < v.len()
        invariant
            i <= v.len(),
            r@ =~= v@.take(i as int),
        decreases v.len() - i,
    {
        r.push(v[i]);
        i = i + 1;
    }
    r
}

/// Whether two vectors of dimensions are equal.
pub fn same_dims(a: &Vec<usize>, b: &Vec<usize>) -> (r: bool)
    ensures
        r == (a@ == b@),
{
    if a.len() != b.len() {
        return false;
    }
    let mut i: usize = 0;
    while i < a.len()
        invariant
            a.len() == b.len(),
            i <= a.len(),
            forall|j: int| 0 <= j < i ==> a@[j] == b@[j],
        decreases a.len() - i,
    {
        if a[i] != b[i] {
            return false;
        }
        i = i + 1;
    }
    assert(a@ =~= b@);
    true
}

/// Whether two vectors of flags are equal.
pub fn same_flags(a: &Vec<bool>, b: &Vec<bool>) -> (r: bool)
    ensures
        r == (a@ == b@),
{
    if a.len() != b.len() {
        return false;
    }
    let mut i: usize = 0;
    while i < a.len()
        invariant
            a.len() == b.len(),
            i <= a.len(),
            forall|j: int| 0 <= j < i ==> a@[j] == b@[j],
        decreases a.len() - i,
    {
        if a[i] != b[i] {
            return false;
        }
        i = i + 1;
    }
    assert(a@ =~= b@);
    true
}

/// Whether two zero-region maps hold the same flags for the same axes.
pub fn same_zero_regions(a: &HashMap<usize, Vec<bool>>, b: &HashMap<usize, Vec<bool>>) -> (r: bool)
    ensures
        r == (zero_view(a@) == zero_view(b@)),
{
    if a.len() != b.len() {
        proof {
            if zero_view(a@) == zero_view(b@) {
                assert(zero_view(a@).dom() == a@.dom());
                assert(zero_view(b@).dom() == b@.dom());
            }
        }
        return false;
    }
    let ghost pairs = vstd::std_specs::hash::spec_hash_map_iter(a).remaining();
    for (k, v) in it: a.iter()
        invariant
            a@.len() == b@.len(),
            it.seq() == pairs,
            forall|j: int|
                0 <= j < it.index() ==> b@.contains_key(*pairs[j].0) && b@[*pairs[j].0]@
                    == (*pairs[j].1)@,
    {
        match b.get(k) {
            Some(w) => {
                if !same_flags(v, w) {
                    proof {
                        assert(a@.contains_key(*k) && a@[*k] == *v);
                        assert(zero_view(a@)[*k] != zero_view(b@)[*k]);
                    }
                    return false;
                }
            },
            None => {
                proof {
                    assert(a@.contains_key(*k));
                    assert(!b@.contains_key(*k));
                    assert(zero_view(a@).dom().contains(*k));
                    assert(!zero_view(b@).dom().contains(*k));
                }
                return false;
            },
        }
    }
    proof {
        assert forall|key: usize| a@.contains_key(key) implies b@.contains_key(key) && b@[key]@
            == a@[key]@ by {
            assert(pairs.contains((&key, &a@[key])));
            let j = choose|j: int| 0 <= j < pairs.len() && pairs[j] == (&key, &a@[key]);
        }
        vstd::set_lib::lemma_subset_equality(a@.dom(), b@.dom());
        assert(zero_view(a@) =~= zero_view(b@));
    }
    true
}

/// A copy of a zero-region map.
pub fn copy_zero_regions(z: &HashMap<usize, Vec<bool>>) -> (r: HashMap<usize, Vec<bool>>)
    ensures
        zero_view(r@) == zero_view(z@),
{
    z.clone()
}

impl AccessPatternData {
    /// The access pattern's dimensions as one vector: the shape followed by
    /// the item shape.
    pub fn as_vec(&self) -> (r: Vec<usize>)
        ensures
            r@ == self@.dims(),
    {
        let mut r = copy_dims(&self.shape);
        let mut i: usize = 0;
        while i < self.item_shape.len()
            invariant
                i <= self.item_shape@.len(),
                r@ =~= self.shape@ + self.item_shape@.take(i as int),
            decreases self.item_shape.len() - i,
        {
            r.push(self.item_shape[i]);
            i = i + 1;
        }
        assert(self.item_shape@.take(self.item_shape@.len() as int) =~= self.item_shape@);
        r
    }

    /// Dimension `index`, counting through the shape and on into the item shape.
    pub fn index(&self, index: usize) -> (r: usize)
        requires
            index < self@.ndim(),
        ensures
            r == self@.dims()[index as int],
    {
        if index < self.shape.len() {
            self.shape[index]
        } else {
            self.item_shape[index - self.shape.len()]
        }
    }

    /// Dimension `index`, counting through the shape and on into the item
    /// shape, to be changed in place.
    pub fn index_mut(&mut self, index: usize) -> (r: &mut usize)
        requires
            index < old(self)@.ndim(),
        ensures
            *r == old(self)@.dims()[index as int],
            index < old(self)@.shape.len() ==> final(self)@ == (AccessView {
                shape: old(self)@.shape.update(index as int, *final(r)),
                ..old(self)@
            }),
            index >= old(self)@.shape.len() ==> final(self)@ == (AccessView {
                item_shape: old(self)@.item_shape.update(
                    index - old(self)@.shape.len(),
                    *final(r),
                ),
                ..old(self)@
            }),
    {
        if index < self.shape.len() {
            &mut self.shape[index]
        } else {
            let k = index - self.shape.len();
            &mut self.item_shape[k]
        }
    }

    /// A copy of the access pattern.
    pub fn copy(&self) -> (r: AccessPatternData)
        ensures
            r@ == self@,
    {
        AccessPatternData {
            shape: copy_dims(&self.shape),
            item_shape: copy_dims(&self.item_shape),
            zero_regions: copy_zero_regions(&self.zero_regions),
        }
    }
}

impl MyAnalysisData {
    /// A copy of the value.
    pub fn copy(&self) -> (r: MyAnalysisData)
        ensures
            r@ == self@,
        decreases self,
    {
        match self {
            MyAnalysisData::Literal(l) => MyAnalysisData::Literal(l.copy()),
            MyAnalysisData::Usize(u) => MyAnalysisData::Usize(*u),
            MyAnalysisData::AccessPattern(a) => MyAnalysisData::AccessPattern(a.copy()),
            MyAnalysisData::Shape(s) => MyAnalysisData::Shape(ShapeData { shape: copy_dims(&s.shape) }),
            MyAnalysisData::Tuple(v) => {
                let mut out: Vec<MyAnalysisData> = Vec::new();
                let mut i: usize = 0;
                while i < v.len()
                    invariant
                        i <= v@.len(),
                        out@.len() == i,
                        *self == MyAnalysisData::Tuple(*v),
                        forall|j: int| 0 <= j < i ==> #[trigger] out@[j].model() == v@[j].model(),
                    decreases v.len() - i,
                {
                    assert(decreases_to!(*self => (*self)->Tuple_0));
                    assert(decreases_to!(*v => v@));
                    assert(decreases_to!(v@ => v@[i as int]));
                    let c = v[i].copy();
                    out.push(c);
                    i = i + 1;
                }
                proof {
                    lemma_views_of(out@);
                    lemma_views_of(v@);
                    assert(views_of(out@) =~= views_of(v@));
                }
                MyAnalysisData::Tuple(out)
            },
            MyAnalysisData::ComputeType(t) => MyAnalysisData::ComputeType(*t),
            MyAnalysisData::PadType(t) => MyAnalysisData::PadType(*t),
            MyAnalysisData::List(l) => MyAnalysisData::List(copy_dims(l)),
            MyAnalysisData::RelayOperator(o) => MyAnalysisData::RelayOperator(*o),
            MyAnalysisData::RelayActivationLayout(l) => MyAnalysisData::RelayActivationLayout(*l),
            MyAnalysisData::RelayKernelLayout(l) => MyAnalysisData::RelayKernelLayout(*l),
        }
    }

    /// Whether two values are equal, as the derived equality of the
    /// analysis data compares them.
    pub fn same(&self, other: &MyAnalysisData) -> (r: bool)
        ensures
            r == (self@ == other@),
        decreases self,
    {
        match (self, other) {
            (MyAnalysisData::Literal(a), MyAnalysisData::Literal(b)) => a.text == b.text,
            (MyAnalysisData::Usize(a), MyAnalysisData::Usize(b)) => *a == *b,
            (MyAnalysisData::AccessPattern(a), MyAnalysisData::AccessPattern(b)) => {
                same_dims(&a.shape, &b.shape) && same_dims(&a.item_shape, &b.item_shape)
                    && same_zero_regions(&a.zero_regions, &b.zero_regions)
            },
            (MyAnalysisData::Shape(a), MyAnalysisData::Shape(b)) => same_dims(&a.shape, &b.shape),
            (MyAnalysisData::Tuple(a), MyAnalysisData::Tuple(b)) => {
                proof {
                    lemma_views_of(a@);
                    lemma_views_of(b@);
                }
                if a.len() != b.len() {
                    return false;
                }
                let mut i: usize = 0;
                while i < a.len()
                    invariant
                        i <= a@.len(),
                        a@.len() == b@.len(),
                        *self == MyAnalysisData::Tuple(*a),
                        *other == MyAnalysisData::Tuple(*b),
                        forall|j: int| 0 <= j < i ==> #[trigger] a@[j].model() == b@[j].model(),
                    decreases a.len() - i,
                {
                    assert(decreases_to!(*self => (*self)->Tuple_0));
                    assert(decreases_to!(*a => a@));
                    assert(decreases_to!(a@ => a@[i as int]));
                    if !a[i].same(&b[i]) {
                        proof {
                            lemma_views_of(a@);
                            lemma_views_of(b@);
                        }
                        assert(views_of(a@)[i as int] != views_of(b@)[i as int]);
                        return false;
                    }
                    i = i + 1;
                }
                proof {
                    lemma_views_of(a@);
                    lemma_views_of(b@);
                }
                assert(views_of(a@) =~= views_of(b@));
                true
            },
            (MyAnalysisData::ComputeType(a), MyAnalysisData::ComputeType(b)) => *a == *b,
            (MyAnalysisData::PadType(a), MyAnalysisData::PadType(b)) => *a == *b,
            (MyAnalysisData::List(a), MyAnalysisData::List(b)) => same_dims(a, b),
            (MyAnalysisData::RelayOperator(a), MyAnalysisData::RelayOperator(b)) => *a == *b,
            (
                MyAnalysisData::RelayActivationLayout(a),
                MyAnalysisData::RelayActivationLayout(b),
            ) => *a == *b,
            (MyAnalysisData::RelayKernelLayout(a), MyAnalysisData::RelayKernelLayout(b)) => *a
                == *b,
            _ => false,
        }
    }
}

impl Clone for MyAnalysisData {
    fn clone(&self) -> (r: MyAnalysisData)
        ensures
            r@ == self@,
    {
        self.copy()
    }
}

/// The `usize` that a value holds.
pub open spec fn usize_of(d: DataView) -> Option<usize> {
    match d {
        DataView::Usize(u) => Some(u),
        _ => None,
    }
}

/// The access pattern that a value holds.
pub open spec fn access_of(d: DataView) -> Option<AccessView> {
    match d {
        DataView::AccessPattern(a) => Some(a),
        _ => None,
    }
}

/// The shape that a value holds.
pub open spec fn shape_of(d: DataView) -> Option<Seq<usize>> {
    match d {
        DataView::Shape(s) => Some(s),
        _ => None,
    }
}

/// The list that a value holds.
pub open spec fn list_of(d: DataView) -> Option<Seq<usize>> {
    match d {
        DataView::List(l) => Some(l),
        _ => None,
    }
}

/// The model of an optional value.
pub open spec fn opt_model(r: Option<MyAnalysisData>) -> Option<DataView> {
    match r {
        Some(x) => Some(x@),
        None => None,
    }
}

/// A value that holds an access pattern.
pub open spec fn access_value(a: AccessView) -> Option<DataView> {
    Some(DataView::AccessPattern(a))
}

/// A value that holds a shape.
pub open spec fn shape_value(s: Seq<usize>) -> Option<DataView> {
    Some(DataView::Shape(s))
}

/// An access pattern with the given dimensions and no zero regions.
pub fn plain_access_data(shape: Vec<usize>, item_shape: Vec<usize>) -> (r: AccessPatternData)
    ensures
        r@ == plain_access(shape@, item_shape@),
{
    let r = AccessPatternData { shape, item_shape, zero_regions: HashMap::new() };
    assert(zero_view(r.zero_regions@) =~= Map::<usize, Seq<bool>>::empty());
    r
}

/// The access pattern with its zero regions dropped.
pub fn forget_zeros(a: AccessPatternData) -> (r: AccessPatternData)
    ensures
        r@ == a@.forget_zeros(),
{
    plain_access_data(a.shape, a.item_shape)
}

} // verus!
