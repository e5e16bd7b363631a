use glenside::access_ops::access_windows_resulting_shape;
use glenside::analysis::MyAnalysis;
use glenside::data::{AccessPatternData, LiteralData, MyAnalysisData};
use glenside::expr::{ParseError, RecExpr};
use glenside::language::Language;
use glenside::operators::{
    ComputeType, PadType, RelayActivationLayout, RelayKernelLayout, RelayOperator,
};
use glenside::range_set::{RangeHashSet, RangeInsertStrategy, RangeSet, RangeSet2};
use std::collections::HashMap;

fn scale(l: &LiteralData, d: usize) -> usize {
    (l.text.parse::<f64>().unwrap() * d as f64).round() as usize
}

fn value_of(program: &str, analysis: &MyAnalysis) -> Option<MyAnalysisData> {
    let expr = RecExpr::parse(program).unwrap();
    analysis.analyze(&expr, &scale).map(|mut v| v.pop().unwrap())
}

fn access_of(program: &str, analysis: &MyAnalysis) -> AccessPatternData {
    match value_of(program, analysis) {
        Some(MyAnalysisData::AccessPattern(a)) => a,
        other => panic!("expected an access pattern, got {:?}", other),
    }
}

fn shapes(entries: &[(&str, Vec<usize>)]) -> MyAnalysis {
    let mut map = HashMap::new();
    for (name, shape) in entries {
        map.insert(name.to_string(), shape.clone());
    }
    MyAnalysis { name_to_shape: map }
}

fn plain(shape: Vec<usize>, item_shape: Vec<usize>) -> MyAnalysisData {
    MyAnalysisData::AccessPattern(AccessPatternData {
        shape,
        item_shape,
        zero_regions: HashMap::new(),
    })
}

#[test]
fn relay_operator_names_read_back() {
    let all = [
        RelayOperator::RelayBatchNormInference,
        RelayOperator::RelaySoftmax,
        RelayOperator::RelayReLU,
        RelayOperator::RelayLeakyReLU,
        RelayOperator::RelayMaxPool2D,
        RelayOperator::RelayGlobalAvgPool2D,
        RelayOperator::RelayAvgPool2D,
        RelayOperator::RelayUpSampling,
        RelayOperator::RelayBatchFlatten,
        RelayOperator::RelayBiasAdd,
        RelayOperator::RelayAdd,
        RelayOperator::RelaySigmoid,
        RelayOperator::RelayMaximum,
        RelayOperator::RelayMinimum,
    ];
    for op in all {
        assert_eq!(RelayOperator::from_str(&op.to_string()), Ok(op));
    }
    assert_eq!(RelayOperator::RelayMaxPool2D.to_string(), "relay-max-pool2d");
    assert_eq!(RelayOperator::from_str("relay-max-pool-2d"), Err(()));
}

#[test]
fn other_leaf_names_read_back() {
    for l in [RelayActivationLayout::NCHW, RelayActivationLayout::NHWC] {
        assert_eq!(RelayActivationLayout::from_str(&l.to_string()), Ok(l));
    }
    for l in [RelayKernelLayout::OIHW, RelayKernelLayout::HWIO] {
        assert_eq!(RelayKernelLayout::from_str(&l.to_string()), Ok(l));
    }
    for p in [PadType::ZeroPadding, PadType::MinPadding] {
        assert_eq!(PadType::from_str(&p.to_string()), Ok(p));
    }
    let all = [
        ComputeType::DotProduct,
        ComputeType::ReduceSum,
        ComputeType::ReLU,
        ComputeType::Sqrt,
        ComputeType::Negative,
        ComputeType::ElementwiseAdd,
        ComputeType::ElementwiseMul,
        ComputeType::ElementwiseDiv,
        ComputeType::ReduceMax,
        ComputeType::Softmax,
        ComputeType::ReduceMean,
    ];
    for t in all {
        assert_eq!(ComputeType::from_str(&t.to_string()), Ok(t));
    }
    assert_eq!(ComputeType::ReduceMean.to_string(), "reduce-mean");
    assert_eq!(PadType::from_str("padding"), Err(()));
}

#[test]
fn parse_reports_syntax_errors() {
    match RecExpr::parse("(access (access-tensor t-32-32) 0") {
        Err(ParseError::Syntax(_)) => {}
        other => panic!("expected a syntax error, got {:?}", other.map(|e| e.len())),
    }
    match RecExpr::parse("") {
        Err(ParseError::Syntax(_)) => {}
        other => panic!("expected a syntax error, got {:?}", other.map(|e| e.len())),
    }
}

#[test]
fn parse_reports_the_first_bad_node() {
    // `access` takes two children; here it has three. Children come first,
    // so the bad node is the fourth.
    match RecExpr::parse("(access a 1 2)") {
        Err(ParseError::Node(3)) => {}
        other => panic!("expected node 3 to be refused, got {:?}", other.map(|e| e.len())),
    }
}

#[test]
fn parse_lists_children_first() {
    let expr = RecExpr::parse("(access (access-tensor t-32-32) 1)").unwrap();
    assert_eq!(expr.len(), 4);
    match expr.node(0) {
        Language::Symbol(s) => assert_eq!(s, "t-32-32"),
        other => panic!("{:?}", other),
    }
    match expr.node(1) {
        Language::AccessTensor(0) => {}
        other => panic!("{:?}", other),
    }
    match expr.node(2) {
        Language::Usize(1) => {}
        other => panic!("{:?}", other),
    }
    match expr.node(3) {
        Language::Access([1, 2]) => {}
        other => panic!("{:?}", other),
    }
}

#[test]
fn parse_reads_leaves() {
    let expr = RecExpr::parse("(construct-tuple 7 1e-5 relay-softmax relay-kernel-layout-hwio min-padding sqrt w9)")
        .unwrap();
    assert_eq!(expr.len(), 8);
    assert!(matches!(expr.node(0), Language::Usize(7)));
    match expr.node(1) {
        Language::NotNanFloat64(l) => assert_eq!(l.text, "1e-5"),
        other => panic!("{:?}", other),
    }
    assert!(matches!(expr.node(2), Language::RelayOperator(RelayOperator::RelaySoftmax)));
    assert!(matches!(expr.node(3), Language::RelayKernelLayout(RelayKernelLayout::HWIO)));
    assert!(matches!(expr.node(4), Language::PadType(PadType::MinPadding)));
    assert!(matches!(expr.node(5), Language::ComputeType(ComputeType::Sqrt)));
    match expr.node(6) {
        Language::Symbol(s) => assert_eq!(s, "w9"),
        other => panic!("{:?}", other),
    }
}

#[test]
fn rec_expr_add_checks_children() {
    let mut expr = RecExpr::new();
    assert_eq!(expr.add(Language::Usize(1)), Some(0));
    assert_eq!(expr.add(Language::AccessTensor(1)), None);
    assert_eq!(expr.len(), 1);
    assert_eq!(expr.add(Language::Symbol("t-32-32".to_string())), Some(1));
    assert_eq!(expr.add(Language::AccessTensor(1)), Some(2));
    assert_eq!(expr.add(Language::Access([2, 0])), Some(3));
    let data = MyAnalysis::default().analyze(&expr, &scale).unwrap();
    match &data[3] {
        MyAnalysisData::AccessPattern(a) => {
            assert_eq!(a.shape, vec![32]);
            assert_eq!(a.item_shape, vec![32]);
        }
        other => panic!("{:?}", other),
    }
}

#[test]
fn unknown_symbol_does_not_type_check() {
    assert!(value_of("(access-tensor nowhere)", &MyAnalysis::default()).is_none());
    let a = access_of("(access-tensor nowhere)", &shapes(&[("nowhere", vec![2, 5])]));
    assert_eq!(a.shape, vec![2, 5]);
}

#[test]
fn windows_resulting_shape() {
    assert_eq!(
        access_windows_resulting_shape(&vec![3, 32, 32], &vec![3, 3, 3], &vec![1, 1, 1]),
        vec![1, 30, 30]
    );
    assert_eq!(
        access_windows_resulting_shape(&vec![3, 32, 32], &vec![3, 3, 3], &vec![1, 2, 3]),
        vec![1, 15, 10]
    );
}

#[test]
fn windows_with_a_zero_stride_do_not_type_check() {
    assert!(value_of(
        "(access-windows (access (access-tensor t-3-32-32) 0) (shape 3 3 3) (shape 1 0 1))",
        &MyAnalysis::default()
    )
    .is_none());
}

#[test]
fn flatten_that_overflows_does_not_type_check() {
    let big = usize::MAX / 2 + 1;
    let analysis = shapes(&[("a", vec![big, 2])]);
    assert!(value_of("(access-flatten (access (access-tensor a) 2))", &analysis).is_none());
    let analysis = shapes(&[("a", vec![big, 1])]);
    let a = access_of("(access-flatten (access (access-tensor a) 2))", &analysis);
    assert_eq!(a.shape, vec![big]);
    assert_eq!(a.item_shape, vec![1]);
}

#[test]
fn concatenate_that_overflows_does_not_type_check() {
    let analysis = shapes(&[("a", vec![usize::MAX, 2]), ("b", vec![1, 2])]);
    assert!(value_of("(concatenate a b 0)", &analysis).is_none());
    let analysis = shapes(&[("a", vec![usize::MAX - 1, 2]), ("b", vec![1, 2])]);
    match value_of("(concatenate a b 0)", &analysis) {
        Some(MyAnalysisData::Shape(s)) => assert_eq!(s.shape, vec![usize::MAX, 2]),
        other => panic!("{:?}", other),
    }
}

#[test]
fn pooling_formula() {
    // Height: (1 + 14 + 2 - (3 - 1) + 2 - 1) / 2 = 8; width: (0 + 15 + 0 - (5 - 1) + 3 - 1) / 3 = 4.
    let analysis = shapes(&[("a", vec![1, 8, 14, 15])]);
    let a = access_of(
        "(relay-operator-call relay-max-pool2d (access-tensor a) (shape 3 5) (shape 2 3) (shape 1 0 2 0) relay-activation-layout-nchw)",
        &analysis,
    );
    assert_eq!(a.shape, vec![1, 8, 8, 4]);
    assert_eq!(a.item_shape, Vec::<usize>::new());
}

#[test]
fn broadcast_pads_with_leading_ones() {
    let analysis = shapes(&[("a", vec![3, 1, 5]), ("b", vec![4, 1])]);
    let a = access_of(
        "(relay-operator-call relay-add (access-tensor a) (access-tensor b))",
        &analysis,
    );
    assert_eq!(a.shape, vec![3, 4, 5]);
    let analysis = shapes(&[("a", vec![3, 2, 5]), ("b", vec![4, 1])]);
    assert!(value_of(
        "(relay-operator-call relay-add (access-tensor a) (access-tensor b))",
        &analysis
    )
    .is_none());
}

#[test]
fn conv2d_systolic_array_formula() {
    // (10 - (3 - 1) + 2 - 1) / 2 = 4 and (12 - (5 - 1) + 3 - 1) / 3 = 3.
    let analysis = shapes(&[("data", vec![2, 4, 10, 12]), ("weights", vec![6, 4, 3, 5])]);
    let a = access_of(
        "(systolic-array-conv2d-nchw-oihw-with-blocking 2 3 (access-tensor weights) (access-tensor data) 3 5 2 3)",
        &analysis,
    );
    assert_eq!(a.shape, vec![2, 6, 4, 3]);
    // 6 output channels do not divide into 4 columns.
    assert!(value_of(
        "(systolic-array-conv2d-nchw-oihw-with-blocking 2 4 (access-tensor weights) (access-tensor data) 3 5 2 3)",
        &analysis
    )
    .is_none());
    let a = access_of(
        "(systolic-array-conv2d-im2col-nchw-oihw-with-blocking 2 4 (access-tensor weights) (access-tensor data) 3 5 2 3)",
        &analysis,
    );
    assert_eq!(a.shape, vec![2, 6, 4, 3]);
}

#[test]
fn zero_padding_marks_the_padding() {
    let a = access_of(
        "(access-pad (access (access-tensor t-32-32) 1) zero-padding 1 2 3)",
        &MyAnalysis::default(),
    );
    assert_eq!(a.item_shape, vec![37]);
    let flags = &a.zero_regions[&1];
    assert_eq!(flags.len(), 37);
    assert!(flags.covered((0, 2)));
    assert!(flags.covered((34, 37)));
    assert!(!flags.covered((2, 3)));
    assert!(!flags.covered((33, 34)));
}

#[test]
fn min_padding_forgets_zero_regions() {
    let a = access_of(
        "(access-pad (access-pad (access (access-tensor t-32-32) 1) zero-padding 1 2 3) min-padding 1 1 1)",
        &MyAnalysis::default(),
    );
    assert_eq!(a.item_shape, vec![39]);
    assert!(a.zero_regions.is_empty());
}

#[test]
fn slicing_cuts_zero_regions() {
    let a = access_of(
        "(access-slice (access-pad (access (access-tensor t-32-32) 1) zero-padding 1 2 3) 1 1 35)",
        &MyAnalysis::default(),
    );
    assert_eq!(a.item_shape, vec![34]);
    let flags = &a.zero_regions[&1];
    assert_eq!(flags.len(), 34);
    assert!(flags.covered((0, 1)));
    assert!(!flags.covered((1, 2)));
    assert!(flags.covered((33, 34)));
}

#[test]
fn transpose_moves_zero_regions() {
    let a = access_of(
        "(access-transpose (access-pad (access (access-tensor t-32-64) 1) zero-padding 0 1 1) (list 1 0))",
        &MyAnalysis::default(),
    );
    assert_eq!(a.shape, vec![64]);
    assert_eq!(a.item_shape, vec![34]);
    assert_eq!(a.zero_regions.len(), 1);
    assert_eq!(a.zero_regions[&1].len(), 34);
    assert!(a.zero_regions[&1].covered((0, 1)));
    assert!(a.zero_regions[&1].covered((33, 34)));
}

#[test]
fn reaccess_depends_only_on_dimensions() {
    let analysis = MyAnalysis::default();
    let a = access_of("(access (access (access-tensor t-3-32-32) 1) 2)", &analysis);
    let b = access_of("(access (access-tensor t-3-32-32) 2)", &analysis);
    assert_eq!(a.shape, b.shape);
    assert_eq!(a.item_shape, b.item_shape);
    assert_eq!(a.shape, vec![3, 32]);
}

#[test]
fn squeeze_undoes_insert_axis() {
    let analysis = MyAnalysis::default();
    for axis in 0..5 {
        let program = format!(
            "(access-squeeze (access-insert-axis (access (access-tensor t-1-2-3-4) 2) {}) {})",
            axis, axis
        );
        let a = access_of(&program, &analysis);
        assert_eq!(a.shape, vec![1, 2]);
        assert_eq!(a.item_shape, vec![3, 4]);
    }
}

#[test]
fn shape_remove_undoes_insert() {
    for dim in 0..4 {
        let program = format!("(shape-remove-axis (shape-insert-axis (shape 4 5 6) {}) {})", dim, dim);
        match value_of(&program, &MyAnalysis::default()) {
            Some(MyAnalysisData::Shape(s)) => assert_eq!(s.shape, vec![4, 5, 6]),
            other => panic!("{:?}", other),
        }
    }
}

#[test]
fn merge_reports_exactly_when_it_changes() {
    let analysis = MyAnalysis::default();
    let mut to = access_of(
        "(access-pad (access (access-tensor t-32-32) 1) zero-padding 1 1 0)",
        &analysis,
    );
    let from = access_of(
        "(access-pad (access (access-tensor t-32-32) 1) zero-padding 1 0 1)",
        &analysis,
    );
    let mut to_data = MyAnalysisData::AccessPattern(to.copy());
    assert!(MyAnalysis::mergeable(&to_data, &MyAnalysisData::AccessPattern(from.copy())));
    let changed = analysis.merge(&mut to_data, MyAnalysisData::AccessPattern(from.copy()));
    assert!(changed);
    match &to_data {
        MyAnalysisData::AccessPattern(m) => {
            assert_eq!(m.shape, vec![32]);
            assert_eq!(m.item_shape, vec![33]);
            assert!(m.zero_regions[&1].covered((0, 1)));
            assert!(m.zero_regions[&1].covered((32, 33)));
            assert!(!m.zero_regions[&1].covered((1, 32)));
            to = m.copy();
        }
        other => panic!("{:?}", other),
    }
    // Merging the same value again changes nothing.
    let again = analysis.merge(&mut to_data, MyAnalysisData::AccessPattern(from.copy()));
    assert!(!again);
    match &to_data {
        MyAnalysisData::AccessPattern(m) => assert_eq!(m.zero_regions, to.zero_regions),
        other => panic!("{:?}", other),
    }
}

#[test]
fn merge_passes_over_uninformative_axes() {
    let analysis = MyAnalysis::default();
    let mut from_regions = HashMap::new();
    from_regions.insert(0usize, vec![false, false]);
    let from = MyAnalysisData::AccessPattern(AccessPatternData {
        shape: vec![2],
        item_shape: vec![],
        zero_regions: from_regions,
    });
    let mut to = plain(vec![2], vec![]);
    assert!(!analysis.merge(&mut to, from));
    match &to {
        MyAnalysisData::AccessPattern(a) => assert!(a.zero_regions.is_empty()),
        other => panic!("{:?}", other),
    }
}

#[test]
fn merge_of_equal_values_changes_nothing() {
    let analysis = MyAnalysis::default();
    let mut to = MyAnalysisData::Usize(3);
    assert!(MyAnalysis::mergeable(&to, &MyAnalysisData::Usize(3)));
    assert!(!analysis.merge(&mut to, MyAnalysisData::Usize(3)));
    assert!(to.same(&MyAnalysisData::Usize(3)));
    assert!(!MyAnalysis::mergeable(&to, &MyAnalysisData::Usize(4)));
    assert!(!MyAnalysis::mergeable(&plain(vec![2], vec![3]), &plain(vec![3], vec![2])));
}

#[test]
fn bool_range_set_remove_undoes_insert() {
    let mut flags: Vec<bool> = vec![true, false, true, true];
    flags.insert_elements(2, 3);
    assert_eq!(flags, vec![true, false, false, false, false, true, true]);
    flags.remove_elements(2, 3);
    assert_eq!(flags, vec![true, false, true, true]);
}

#[test]
fn range_hash_set_moves_cover_with_elements() {
    let mut set = RangeHashSet::new();
    set.add_range((2, 6));
    assert!(set.covered((2, 6)));
    set.insert_elements(RangeInsertStrategy::BreakRanges, 4, 3);
    assert!(set.covered((2, 4)));
    assert!(set.covered((7, 9)));
    assert!(!set.covered((4, 7)));
    set.remove_elements(4, 3);
    assert!(set.covered((2, 6)));
}

#[test]
fn get_helpers_read_values() {
    let expr = RecExpr::parse("(shape-of t-3-32-32)").unwrap();
    let data = MyAnalysis::default().analyze(&expr, &scale).unwrap();
    assert_eq!(MyAnalysis::get_shape(1, &data), &vec![3, 32, 32]);
    let expr = RecExpr::parse("(shape 4 5)").unwrap();
    let data = MyAnalysis::default().analyze(&expr, &scale).unwrap();
    assert_eq!(MyAnalysis::get_usize(0, &data), 4);
    assert_eq!(MyAnalysis::get_shape_of_value(2, &data), &vec![4, 5]);
}

#[test]
fn upsampling_scales_height_and_width() {
    let analysis = shapes(&[("a", vec![1, 3, 5, 7])]);
    let a = access_of(
        "(relay-operator-call relay-upsampling (access-tensor a) 1.5 2.0 relay-activation-layout-nchw)",
        &analysis,
    );
    assert_eq!(a.shape, vec![1, 3, 8, 14]);
    assert!(value_of(
        "(relay-operator-call relay-upsampling (access-tensor a) 1.5 2.0 relay-activation-layout-nhwc)",
        &analysis
    )
    .is_none());
    // A whole number reads as a `usize`, not a scale.
    assert!(value_of(
        "(relay-operator-call relay-upsampling (access-tensor a) 1.5 2 relay-activation-layout-nchw)",
        &analysis
    )
    .is_none());
}

#[test]
fn transpose_refuses_a_repeated_axis() {
    let analysis = MyAnalysis::default();
    assert!(value_of(
        "(access-transpose (access (access-tensor t-3-32-32) 1) (list 1 1 0))",
        &analysis
    )
    .is_none());
    let a = access_of(
        "(access-transpose (access (access-tensor t-3-32-32) 1) (list 1 2 0))",
        &analysis,
    );
    assert_eq!(a.shape, vec![32]);
    assert_eq!(a.item_shape, vec![32, 3]);
}

#[test]
fn removing_elements_never_adds_ranges() {
    let mut set = RangeHashSet::new();
    set.add_range((0, 2));
    set.add_range((3, 5));
    set.add_range((2, 3));
    assert_eq!(set.len(), 3);
    set.remove_elements(1, 3);
    assert_eq!(set.len(), 2);
    assert!(set.contains(&(0, 1)));
    assert!(set.contains(&(1, 2)));
}

#[test]
fn make_gives_the_value_of_a_node_that_type_checks() {
    let analysis = MyAnalysis::default();
    let data = vec![plain(vec![3], vec![32, 32]), MyAnalysisData::Usize(2)];
    match analysis.make(&Language::Access([0, 1]), &data, &scale) {
        MyAnalysisData::AccessPattern(a) => {
            assert_eq!(a.shape, vec![3, 32]);
            assert_eq!(a.item_shape, vec![32]);
        }
        other => panic!("{:?}", other),
    }
    let data = vec![plain(vec![3], vec![32, 32]), MyAnalysisData::Usize(4)];
    assert!(analysis.try_make(&Language::Access([0, 1]), &data, &scale).is_none());
}

fn literal(text: &str) -> MyAnalysisData {
    MyAnalysisData::Literal(LiteralData { text: text.to_string() })
}

#[test]
fn literals_merge_by_the_number_they_stand_for() {
    let same = [
        ("1.0", "1.00"),
        ("1", "+1.0"),
        ("0.1e1", "1"),
        ("1e2", "100"),
        ("100.0", "1E+2"),
        ("-0.0", "0"),
        ("0.00e7", "0"),
        ("-2.50", "-25e-1"),
        ("inf", "+Infinity"),
        ("-INF", "-infinity"),
        (".5", "0.5"),
        ("5.", "5"),
    ];
    for (a, b) in same {
        assert!(MyAnalysis::mergeable(&literal(a), &literal(b)), "{} and {}", a, b);
    }
    let different = [
        ("1.0", "1.5"),
        ("-1", "1"),
        ("-inf", "inf"),
        ("1e2", "1e3"),
        ("0.1", "0.01"),
        ("inf", "1e400"),
    ];
    for (a, b) in different {
        assert!(!MyAnalysis::mergeable(&literal(a), &literal(b)), "{} and {}", a, b);
    }
    let analysis = MyAnalysis::default();
    let mut to = literal("1.0");
    assert!(!analysis.merge(&mut to, literal("1.00")));
    match &to {
        MyAnalysisData::Literal(l) => assert_eq!(l.text, "1.0"),
        other => panic!("{:?}", other),
    }
}

#[test]
fn removing_inserted_elements_restores_ranges() {
    let mut set = RangeHashSet::new();
    set.add_range((0, 3));
    set.add_range((4, 9));
    set.add_range((6, 6));
    set.insert_elements(RangeInsertStrategy::PreserveRanges, 5, 4);
    assert!(set.contains(&(4, 13)));
    set.remove_elements(5, 4);
    assert_eq!(set.len(), 2);
    assert!(set.contains(&(0, 3)));
    assert!(set.contains(&(4, 9)));

    let mut set = RangeHashSet::new();
    set.add_range((0, 3));
    set.add_range((4, 9));
    set.insert_elements(RangeInsertStrategy::BreakRanges, 5, 4);
    assert!(!set.covered((5, 9)));
    assert!(set.covered((9, 13)));
    set.remove_elements(5, 4);
    assert!(set.covered((0, 3)));
    assert!(!set.covered((3, 4)));
    assert!(set.covered((4, 9)));
    assert!(!set.covered((9, 10)));
}
