use glenside::analysis::MyAnalysis;
use glenside::data::{LiteralData, MyAnalysisData};
use glenside::expr::RecExpr;
use glenside::operators::PadType;
use glenside::range_set::RangeSet2;
use std::collections::HashMap;

/// Scales a dimension by a floating-point literal, rounding to the nearest
/// whole number.
fn scale(l: &LiteralData, d: usize) -> usize {
    (l.text.parse::<f64>().unwrap() * d as f64).round() as usize
}

/// The values of every node of a program, children first.
fn analyze(program: &str, analysis: &MyAnalysis) -> Vec<MyAnalysisData> {
    let expr = RecExpr::parse(program).unwrap();
    analysis.analyze(&expr, &scale).unwrap()
}

#[test]
fn test_parse() {
    RecExpr::parse("
     (map-dot-product
      (cartesian-product
       single-matrix-multiply-input-a
       (move-axis single-matrix-multiply-input-b 1 0)
      )
     )
     ").unwrap();
}

#[test]
fn test_cartesian_product_shape() {
    let program = "(cartesian-product
      v-32
      (move-axis t-32-32 1 0)
     )
     ";
    let analysis = MyAnalysis::default();
    let data = analyze(program, &analysis);
    let id = data.len() - 1;
    assert_eq!(MyAnalysis::get_shape(id, &data), &vec![32, 2, 32]);

    let program = "(cartesian-product
      (move-axis t-32-32 1 0)
      v-32
     )
     ";
    let analysis = MyAnalysis::default();
    let data = analyze(program, &analysis);
    let id = data.len() - 1;
    assert_eq!(MyAnalysis::get_shape(id, &data), &vec![32, 2, 32]);
}

#[test]
fn access_windows() {
    // Would make it easier to add more tests.

    let program = "
     (access-windows (access (access-tensor t-3-32-32) 0) (slice-shape (shape-of t-8-3-3-3) 1) (shape 1 1 1))
     ";
    let analysis = MyAnalysis::default();
    let data = analyze(program, &analysis);
    let id = data.len() - 1;
    match &data[id] {
        MyAnalysisData::AccessPattern(a) => {
            assert_eq!(a.shape, vec![1, 30, 30]);
            assert_eq!(a.item_shape, vec![3, 3, 3]);
        }
        _ => panic!(),
    }

    let program = "
     (access-windows (access (access-tensor t-3-32-32) 0) (slice-shape (shape-of t-8-3-3-3) 1) (shape 1 2 1))
     ";
    let analysis = MyAnalysis::default();
    let data = analyze(program, &analysis);
    let id = data.len() - 1;
    match &data[id] {
        MyAnalysisData::AccessPattern(a) => {
            assert_eq!(a.shape, vec![1, 15, 30]);
            assert_eq!(a.item_shape, vec![3, 3, 3]);
        }
        _ => panic!(),
    }
}

#[test]
fn shape_of() {
    let program = "
     (shape-of t-3-32-32)
     ";
    let analysis = MyAnalysis::default();
    let data = analyze(program, &analysis);
    let id = data.len() - 1;
    assert_eq!(
        MyAnalysis::get_shape_of_value(id, &data),
        &vec![3, 32, 32]
    );
}

#[test]
fn access() {
    let program = "
     (access (access-tensor t-3-32-32) 0)
     ";
    let analysis = MyAnalysis::default();
    let data = analyze(program, &analysis);
    let id = data.len() - 1;
    match &data[id] {
        MyAnalysisData::AccessPattern(a) => {
            assert_eq!(a.shape, Vec::<usize>::new());
            assert_eq!(a.item_shape, vec![3, 32, 32]);
        }
        _ => panic!(),
    }

    let program = "
     (access (access-tensor t-3-32-32) 2)
     ";
    let analysis = MyAnalysis::default();
    let data = analyze(program, &analysis);
    let id = data.len() - 1;
    match &data[id] {
        MyAnalysisData::AccessPattern(a) => {
            assert_eq!(a.shape, vec![3, 32]);
            assert_eq!(a.item_shape, vec![32]);
        }
        _ => panic!(),
    }

    let program = "
     (access (access-tensor t-3-32-32) 3)
     ";
    let analysis = MyAnalysis::default();
    let data = analyze(program, &analysis);
    let id = data.len() - 1;
    match &data[id] {
        MyAnalysisData::AccessPattern(a) => {
            assert_eq!(a.shape, vec![3, 32, 32]);
            assert_eq!(a.item_shape, Vec::<usize>::new());
        }
        _ => panic!(),
    }
}

#[test]
fn reaccess() {
    let program = "
     (access (access (access-tensor t-3-32-32) 3) 0)
     ";
    let analysis = MyAnalysis::default();
    let data = analyze(program, &analysis);
    let id = data.len() - 1;
    match &data[id] {
        MyAnalysisData::AccessPattern(a) => {
            assert_eq!(a.shape, Vec::<usize>::new());
            assert_eq!(a.item_shape, vec![3, 32, 32]);
        }
        _ => panic!(),
    }
}

#[test]
#[should_panic]
fn access_invalid() {
    let program = "
     (access (access-tensor t-3-32-32) 4)
     ";
    let analysis = MyAnalysis::default();
    analyze(program, &analysis);
}

#[test]
fn shape_insert_axis_0() {
    let program = "
     (shape-insert-axis (shape 1 2 3) 2)
     ";
    let analysis = MyAnalysis::default();
    let data = analyze(program, &analysis);
    let id = data.len() - 1;
    assert_eq!(
        MyAnalysis::get_shape_of_value(id, &data),
        &vec![1, 2, 1, 3]
    );
}

#[test]
fn shape_insert_axis_1() {
    let program = "
     (shape-insert-axis (shape 1 2 3) 3)
     ";
    let analysis = MyAnalysis::default();
    let data = analyze(program, &analysis);
    let id = data.len() - 1;
    assert_eq!(
        MyAnalysis::get_shape_of_value(id, &data),
        &vec![1, 2, 3, 1]
    );
}

#[test]
fn shape_remove_axis_0() {
    let program = "
     (shape-remove-axis (shape 1 2 3) 0)
     ";
    let analysis = MyAnalysis::default();
    let data = analyze(program, &analysis);
    let id = data.len() - 1;
    assert_eq!(MyAnalysis::get_shape_of_value(id, &data), &vec![2, 3]);
}

#[test]
fn shape_remove_axis_1() {
    let program = "
     (shape-remove-axis (shape 1 2 3) 1)
     ";
    let analysis = MyAnalysis::default();
    let data = analyze(program, &analysis);
    let id = data.len() - 1;
    assert_eq!(MyAnalysis::get_shape_of_value(id, &data), &vec![1, 3]);
}

#[test]
fn shape_remove_axis_2() {
    let program = "
     (shape-remove-axis (shape 1 2 3) 2)
     ";
    let analysis = MyAnalysis::default();
    let data = analyze(program, &analysis);
    let id = data.len() - 1;
    assert_eq!(MyAnalysis::get_shape_of_value(id, &data), &vec![1, 2]);
}

#[test]
#[should_panic]
fn shape_remove_axis_panic() {
    let program = "
     (shape-remove-axis (shape 1 2 3) 3)
     ";
    let analysis = MyAnalysis::default();
    analyze(program, &analysis);
}

#[test]
#[should_panic]
fn shape_insert_axis_panic() {
    let program = "
     (shape-insert-axis (shape 1 2 3) 4)
     ";
    let analysis = MyAnalysis::default();
    analyze(program, &analysis);
}

#[test]
fn slice_shape() {
    let program = "
     (slice-shape (shape-of t-3-32-32) 2)
     ";
    let analysis = MyAnalysis::default();
    let data = analyze(program, &analysis);
    let id = data.len() - 1;
    assert_eq!(MyAnalysis::get_shape_of_value(id, &data), &vec![32]);

    let program = "
     (slice-shape (shape-of t-3-32-32) 0)
     ";
    let analysis = MyAnalysis::default();
    let data = analyze(program, &analysis);
    let id = data.len() - 1;
    assert_eq!(
        MyAnalysis::get_shape_of_value(id, &data),
        &vec![3, 32, 32]
    );
}

#[test]
#[should_panic]
fn slice_shape_invalid_slice() {
    let program = "
     (slice-shape (shape-of t-3-32-32) 10)
     ";
    let analysis = MyAnalysis::default();
    let data = analyze(program, &analysis);
    let id = data.len() - 1;
    assert_eq!(MyAnalysis::get_shape_of_value(id, &data), &Vec::<usize>::new());
}

#[test]
fn access_cartesian_product() {
    let program = "
     (access-cartesian-product
      (access (access-tensor v-32) 0)
      (access (access-tensor t-32-32) 1)
     )
     ";
    let analysis = MyAnalysis::default();
    let data = analyze(program, &analysis);
    let id = data.len() - 1;
    match &data[id] {
        MyAnalysisData::AccessPattern(a) => {
            assert_eq!(a.shape, vec![32]);
            assert_eq!(a.item_shape, vec![2, 32]);
        }
        _ => panic!(),
    }

    let program = "
     (access-cartesian-product
      (access (access-tensor t-32-32) 1)
      (access (access-tensor v-32) 0)
     )
     ";
    let analysis = MyAnalysis::default();
    let data = analyze(program, &analysis);
    let id = data.len() - 1;
    match &data[id] {
        MyAnalysisData::AccessPattern(a) => {
            assert_eq!(a.shape, vec![32]);
            assert_eq!(a.item_shape, vec![2, 32]);
        }
        _ => panic!(),
    }
}

#[test]
fn access_cartesian_product_zero_padding() {
    let program = "
     (access-cartesian-product
      (access-pad
       (access (access-tensor v-32) 0)
       zero-padding 0 2 3
      )
      (access-pad
       (access (access-tensor t-32-32) 1)
       zero-padding 1 2 3
      )
     )
     ";
    let analysis = MyAnalysis::default();
    let data = analyze(program, &analysis);
    let id = data.len() - 1;
    match &data[id] {
        MyAnalysisData::AccessPattern(a) => {
            assert_eq!(a.shape, vec![32]);
            assert_eq!(a.item_shape, vec![2, 37]);
            assert_eq!(a.zero_regions.len(), 1);
            assert_eq!(a.zero_regions[&2].len(), 37);
            assert!(a.zero_regions[&2].covered((0, 2)));
            assert!(!a.zero_regions[&2].covered((2, 34)));
            assert!(a.zero_regions[&2].covered((34, 37)));
            assert_eq!(
                a.zero_regions[&2],
                std::iter::repeat(true)
                    .take(2)
                    .chain(std::iter::repeat(false).take(32))
                    .chain(std::iter::repeat(true).take(3))
                    .collect::<Vec<_>>()
            )
        }
        _ => panic!(),
    }
}

#[test]
fn compute_dot_product() {
    let program = "
     (compute dot-product (access (access-tensor t-3-32-32) 0))
     ";
    let analysis = MyAnalysis::default();
    let data = analyze(program, &analysis);
    let id = data.len() - 1;
    match &data[id] {
        MyAnalysisData::AccessPattern(a) => {
            assert_eq!(a.shape, Vec::<usize>::new());
            assert_eq!(a.item_shape, Vec::<usize>::new());
        }
        _ => panic!(),
    }

    let program = "
     (compute dot-product (access (access-tensor t-3-32-32) 1))
     ";
    let analysis = MyAnalysis::default();
    let data = analyze(program, &analysis);
    let id = data.len() - 1;
    match &data[id] {
        MyAnalysisData::AccessPattern(a) => {
            assert_eq!(a.shape, vec![3]);
            assert_eq!(a.item_shape, Vec::<usize>::new());
        }
        _ => panic!(),
    }

    let program = "
     (compute dot-product (access (access-tensor t-3-32-32) 2))
     ";
    let analysis = MyAnalysis::default();
    let data = analyze(program, &analysis);
    let id = data.len() - 1;
    match &data[id] {
        MyAnalysisData::AccessPattern(a) => {
            assert_eq!(a.shape, vec![3, 32]);
            assert_eq!(a.item_shape, Vec::<usize>::new());
        }
        _ => panic!(),
    }
}

#[test]
#[should_panic]
fn compute_dot_product_panic() {
    let program = "
     (compute dot-product (access (access-tensor t-3-32-32) 3))
     ";
    let analysis = MyAnalysis::default();
    let data = analyze(program, &analysis);
    let id = data.len() - 1;
    match &data[id] {
        MyAnalysisData::AccessPattern(a) => {
            assert_eq!(a.shape, vec![3, 32]);
            assert_eq!(a.item_shape, Vec::<usize>::new());
        }
        _ => panic!(),
    }
}

#[test]
fn conv2d() {
    // The following TVM/Python code will compute the correct sizes of
    // cov2ds.
    //
    // import tvm
    // from tvm import relay
    //
    // mod = relay.module.Module.from_expr(
    //     relay.nn.conv2d(relay.var('x', shape=[1, 3, 32, 32]),
    //                     relay.var('weight', shape=[8, 3, 3, 3])))
    //
    // print(mod)

    let program = "
     (compute dot-product
      (access-cartesian-product
       (access (access-tensor t-8-3-3-3) 1)
       (access-squeeze
        (access-windows
         (access (access-tensor t-3-32-32) 0)
         (shape 3 3 3)
         (shape 1 1 1)
        )
        0
       )
      )
     )
    ";
    let analysis = MyAnalysis::default();
    let data = analyze(program, &analysis);
    let id = data.len() - 1;

    match &data[id] {
        MyAnalysisData::AccessPattern(a) => {
            assert_eq!(a.shape, vec![8, 30, 30]);
            assert_eq!(a.item_shape, Vec::<usize>::new());
        }
        _ => panic!(),
    }

    let program = "
     (compute dot-product
      (access-cartesian-product
       (access (access-tensor t-8-3-3-3) 1)
       (access-squeeze
        (access-windows
         (access (access-tensor t-3-32-32) 0)
         (shape 3 3 3)
         (shape 1 1 2)
        )
        0
       )
      )
     )
    ";
    let analysis = MyAnalysis::default();
    let data = analyze(program, &analysis);
    let id = data.len() - 1;

    match &data[id] {
        MyAnalysisData::AccessPattern(a) => {
            assert_eq!(a.shape, vec![8, 30, 15]);
            assert_eq!(a.item_shape, Vec::<usize>::new());
        }
        _ => panic!(),
    }
}

#[test]
fn flatten_reshape() {
    let program = "
     (access-reshape
      (access-flatten (access (access-tensor t-3-32-32) 2))
      (access-shape (shape 32 3) (shape 16 2))
     )
    ";
    let analysis = MyAnalysis::default();
    let data = analyze(program, &analysis);
    let id = data.len() - 1;

    match &data[id] {
        MyAnalysisData::AccessPattern(a) => {
            assert_eq!(a.shape, vec![32, 3]);
            assert_eq!(a.item_shape, vec![16, 2]);
        }
        _ => panic!(),
    }
}

#[test]
#[should_panic]
fn flatten_reshape_panic() {
    let program = "
     (access-reshape
      (access-flatten (access (access-tensor t-3-32-32) 2))
      (access-shape (shape 1) (shape 16 2))
     )
    ";
    let analysis = MyAnalysis::default();
    let data = analyze(program, &analysis);
    let id = data.len() - 1;

    match &data[id] {
        MyAnalysisData::AccessPattern(a) => {
            assert_eq!(a.shape, vec![32, 3]);
            assert_eq!(a.item_shape, vec![16, 2]);
        }
        _ => panic!(),
    }
}

#[test]
fn access_slice_0() {
    let program = "(access-slice (access (access-tensor t-3-32-32) 1) 0 0 1)";
    let analysis = MyAnalysis::default();
    let data = analyze(program, &analysis);
    let id = data.len() - 1;
    match &data[id] {
        MyAnalysisData::AccessPattern(a) => {
            assert_eq!(a.shape, vec![1]);
            assert_eq!(a.item_shape, vec![32, 32]);
        }
        _ => panic!(),
    }
}

#[test]
fn access_slice_1() {
    let program = "(access-slice (access (access-tensor t-3-32-32) 1) 1 16 32)";
    let analysis = MyAnalysis::default();
    let data = analyze(program, &analysis);
    let id = data.len() - 1;
    match &data[id] {
        MyAnalysisData::AccessPattern(a) => {
            assert_eq!(a.shape, vec![3]);
            assert_eq!(a.item_shape, vec![16, 32]);
        }
        _ => panic!(),
    }
}

#[test]
fn access_slice_2() {
    let program = "(access-slice (access (access-tensor t-3-32-32) 2) 2 16 32)";
    let analysis = MyAnalysis::default();
    let data = analyze(program, &analysis);
    let id = data.len() - 1;
    match &data[id] {
        MyAnalysisData::AccessPattern(a) => {
            assert_eq!(a.shape, vec![3, 32]);
            assert_eq!(a.item_shape, vec![16]);
        }
        _ => panic!(),
    }
}

#[test]
fn access_slice_zero_pad_0() {

    let program = "(access-slice (access-pad (access (access-tensor t-3-32-32) 1) zero-padding 0 2 3) 0 0 3)";
    let analysis = MyAnalysis::default();
    let data = analyze(program, &analysis);
    let id = data.len() - 1;
    match &data[id] {
        MyAnalysisData::AccessPattern(a) => {
            assert_eq!(a.shape, vec![3]);
            assert_eq!(a.item_shape, vec![32, 32]);
            assert_eq!(a.zero_regions.len(), 1);
            assert_eq!(a.zero_regions[&0].len(), 3);
            assert_eq!(a.zero_regions[&0], vec![true, true, false]);
        }
        _ => panic!(),
    }
}

    #[test]
    fn access_slice_zero_pad_1() {

        let program = "
(access-slice
 (access-pad
  (access (access-tensor t-3-32-32) 1)
  zero-padding 0 2 3
 )
 0 1 7
)";
        let analysis = MyAnalysis::default();
        let data = analyze(program, &analysis);
        let id = data.len() - 1;
        match &data[id] {
            MyAnalysisData::AccessPattern(a) => {
                assert_eq!(a.shape, vec![6]);
                assert_eq!(a.item_shape, vec![32, 32]);
                assert_eq!(a.zero_regions.len(), 1);
                assert_eq!(a.zero_regions[&0].len(), 6);
                assert_eq!(
                    a.zero_regions[&0],
                    vec![true, false, false, false, true, true]
                );
            }
            _ => panic!(),
        }
    }

#[test]
#[should_panic]
fn access_slice_panic() {
    let program = "(access-slice (access (access-tensor t-3-32-32) 1) 3 16 32)";
    let analysis = MyAnalysis::default();
    let data = analyze(program, &analysis);
    let id = data.len() - 1;
    match &data[id] {
        MyAnalysisData::AccessPattern(a) => {
            assert_eq!(a.shape, vec![3]);
            assert_eq!(a.item_shape, vec![16, 32]);
        }
        _ => panic!(),
    }
}

#[test]
fn access_concatenate_0() {
    let program = "(access-concatenate (access (access-tensor t-3-32-32) 1) (access (access-tensor t-3-32-32) 1) 0)";
    let analysis = MyAnalysis::default();
    let data = analyze(program, &analysis);
    let id = data.len() - 1;
    match &data[id] {
        MyAnalysisData::AccessPattern(a) => {
            assert_eq!(a.shape, vec![6]);
            assert_eq!(a.item_shape, vec![32, 32]);
        }
        _ => panic!(),
    }
}

#[test]
fn access_concatenate_1() {
    let program = "(access-concatenate (access (access-tensor t-3-32-32) 1) (access (access-tensor t-3-32-32) 1) 2)";
    let analysis = MyAnalysis::default();
    let data = analyze(program, &analysis);
    let id = data.len() - 1;
    match &data[id] {
        MyAnalysisData::AccessPattern(a) => {
            assert_eq!(a.shape, vec![3]);
            assert_eq!(a.item_shape, vec![32, 64]);
        }
        _ => panic!(),
    }
}

#[test]
#[should_panic]
fn access_concatenate_panic_0() {
    let program = "(access-concatenate (access (access-tensor t-3-32-32) 1) (access (access-tensor t-3-32-32) 1) 3)";
    let analysis = MyAnalysis::default();
    let data = analyze(program, &analysis);
    let id = data.len() - 1;
    match &data[id] {
        MyAnalysisData::AccessPattern(a) => {
            assert_eq!(a.shape, vec![3]);
            assert_eq!(a.item_shape, vec![32, 64]);
        }
        _ => panic!(),
    }
}

#[test]
#[should_panic]
fn access_concatenate_panic_1() {
    let program = "(access-concatenate (access (access-tensor t-3-32-32) 1) (access (access-tensor t-8-3-3-3) 1) 2)";
    let analysis = MyAnalysis::default();
    let data = analyze(program, &analysis);
    let id = data.len() - 1;
    match &data[id] {
        MyAnalysisData::AccessPattern(a) => {
            assert_eq!(a.shape, vec![3]);
            assert_eq!(a.item_shape, vec![32, 64]);
        }
        _ => panic!(),
    }
}

#[test]
fn access_transpose_0() {
    let program = "(access-transpose (access (access-tensor t-3-32-32) 1) (list 1 2 0))";
    let analysis = MyAnalysis::default();
    let data = analyze(program, &analysis);
    let id = data.len() - 1;
    match &data[id] {
        MyAnalysisData::AccessPattern(a) => {
            assert_eq!(a.shape, vec![32]);
            assert_eq!(a.item_shape, vec![32, 3]);
        }
        _ => panic!(),
    }
}

#[test]
fn access_transpose_4() {
    let program = "(access-transpose (access (access-tensor t-3-32-32) 1) (list 1 0 2))";
    let analysis = MyAnalysis::default();
    let data = analyze(program, &analysis);
    let id = data.len() - 1;
    match &data[id] {
        MyAnalysisData::AccessPattern(a) => {
            assert_eq!(a.shape, vec![32]);
            assert_eq!(a.item_shape, vec![3, 32]);
        }
        _ => panic!(),
    }
}

#[test]
fn access_transpose_5() {
    let program = "(access-transpose (access (access-tensor t-3-32-32) 1) (list 0 1 2))";
    let analysis = MyAnalysis::default();
    let data = analyze(program, &analysis);
    let id = data.len() - 1;
    match &data[id] {
        MyAnalysisData::AccessPattern(a) => {
            assert_eq!(a.shape, vec![3]);
            assert_eq!(a.item_shape, vec![32, 32]);
        }
        _ => panic!(),
    }
}

#[test]
#[should_panic]
fn access_transpose_panic_2() {
    let program = "(access-transpose (access (access-tensor t-3-32-32) 1) (list 0 1 3))";
    let analysis = MyAnalysis::default();
    let data = analyze(program, &analysis);
    let id = data.len() - 1;
    match &data[id] {
        MyAnalysisData::AccessPattern(a) => {
            assert_eq!(a.shape, vec![3]);
            assert_eq!(a.item_shape, vec![32, 32]);
        }
        _ => panic!(),
    }
}

#[test]
#[should_panic]
fn access_move_axis_panic_1() {
    let program = "(access-move-axis (access (access-tensor t-3-32-32) 1) 1 3)";
    let analysis = MyAnalysis::default();
    let data = analyze(program, &analysis);
    let id = data.len() - 1;
    match &data[id] {
        MyAnalysisData::AccessPattern(a) => {
            assert_eq!(a.shape, vec![3]);
            assert_eq!(a.item_shape, vec![32, 32]);
        }
        _ => panic!(),
    }
}

#[test]
fn compute_reduce_sum_0() {
    let program = "
     (compute reduce-sum (access (access-tensor t-3-32-32) 0))
     ";
    let analysis = MyAnalysis::default();
    let data = analyze(program, &analysis);
    let id = data.len() - 1;
    match &data[id] {
        MyAnalysisData::AccessPattern(a) => {
            assert_eq!(a.shape, Vec::<usize>::new());
            assert_eq!(a.item_shape, Vec::<usize>::new());
        }
        _ => panic!(),
    }
}

#[test]
fn compute_reduce_sum_1() {
    let program = "
     (compute reduce-sum (access (access-tensor t-3-32-32) 2))
     ";
    let analysis = MyAnalysis::default();
    let data = analyze(program, &analysis);
    let id = data.len() - 1;
    match &data[id] {
        MyAnalysisData::AccessPattern(a) => {
            assert_eq!(a.shape, vec![3, 32]);
            assert_eq!(a.item_shape, Vec::<usize>::new());
        }
        _ => panic!(),
    }
}

#[test]
fn access_pair() {
    let program = "
     (access-pair (access (access-tensor t-32-32) 1) (access (access-tensor t-32-32) 1))
     ";
    let analysis = MyAnalysis::default();
    let data = analyze(program, &analysis);
    let id = data.len() - 1;
    match &data[id] {
        MyAnalysisData::AccessPattern(a) => {
            assert_eq!(a.shape, vec![32]);
            assert_eq!(a.item_shape, vec![2, 32]);
        }
        _ => panic!(),
    }
}

#[test]
#[should_panic]
fn access_pair_panic() {
    let program = "
     (access-pair (access (access-tensor t-32-32) 0) (access (access-tensor t-32-32) 1))
     ";
    let analysis = MyAnalysis::default();
    let data = analyze(program, &analysis);
    let id = data.len() - 1;
    match &data[id] {
        MyAnalysisData::AccessPattern(a) => {
            assert_eq!(a.shape, vec![32]);
            assert_eq!(a.item_shape, vec![2, 32]);
        }
        _ => panic!(),
    }
}

#[test]
fn access_shift_right_0() {
    let program = "
     (access-shift-right (access (access-tensor t-32-32) 2))
     ";
    let analysis = MyAnalysis::default();
    let data = analyze(program, &analysis);
    let id = data.len() - 1;
    match &data[id] {
        MyAnalysisData::AccessPattern(a) => {
            assert_eq!(a.shape, vec![32]);
            assert_eq!(a.item_shape, vec![32]);
        }
        _ => panic!(),
    }
}

#[test]
fn access_shift_right_1() {
    let program = "
     (access-shift-right (access (access-tensor t-32-32) 1))
     ";
    let analysis = MyAnalysis::default();
    let data = analyze(program, &analysis);
    let id = data.len() - 1;
    match &data[id] {
        MyAnalysisData::AccessPattern(a) => {
            assert_eq!(a.shape, Vec::<usize>::new());
            assert_eq!(a.item_shape, vec![32, 32]);
        }
        _ => panic!(),
    }
}

#[test]
fn access_shift_right_2() {
    let program = "
     (access-shift-right (access (access-tensor t-32-32) 0))
     ";
    let analysis = MyAnalysis::default();
    let data = analyze(program, &analysis);
    let id = data.len() - 1;
    match &data[id] {
        MyAnalysisData::AccessPattern(a) => {
            assert_eq!(a.shape, Vec::<usize>::new());
            assert_eq!(a.item_shape, vec![32, 32]);
        }
        _ => panic!(),
    }
}

#[test]
fn compute_relu() {
    let program = "
     (compute relu (access (access-tensor t-32-32) 0))
     ";
    let analysis = MyAnalysis::default();
    let data = analyze(program, &analysis);
    let id = data.len() - 1;
    match &data[id] {
        MyAnalysisData::AccessPattern(a) => {
            assert_eq!(a.shape, Vec::<usize>::new());
            assert_eq!(a.item_shape, vec![32, 32]);
        }
        _ => panic!(),
    }
}

#[test]
fn compute_elementwise_add_0() {
    let program = "
     (compute elementwise-add (access (access-tensor t-3-32-32) 0))
     ";
    let analysis = MyAnalysis::default();
    let data = analyze(program, &analysis);
    let id = data.len() - 1;
    match &data[id] {
        MyAnalysisData::AccessPattern(a) => {
            assert_eq!(a.shape, Vec::<usize>::new());
            assert_eq!(a.item_shape, vec![32, 32]);
        }
        _ => panic!(),
    }
}

#[test]
fn compute_elementwise_add_1() {
    let program = "
     (compute elementwise-add (access (access-tensor t-3-32-32) 1))
     ";
    let analysis = MyAnalysis::default();
    let data = analyze(program, &analysis);
    let id = data.len() - 1;
    match &data[id] {
        MyAnalysisData::AccessPattern(a) => {
            assert_eq!(a.shape, vec![3]);
            assert_eq!(a.item_shape, vec![32]);
        }
        _ => panic!(),
    }
}

#[test]
fn compute_elementwise_add_2() {
    let program = "
     (compute elementwise-add (access (access-tensor t-3-32-32) 2))
     ";
    let analysis = MyAnalysis::default();
    let data = analyze(program, &analysis);
    let id = data.len() - 1;
    match &data[id] {
        MyAnalysisData::AccessPattern(a) => {
            assert_eq!(a.shape, vec![3, 32]);
            assert_eq!(a.item_shape, Vec::<usize>::new());
        }
        _ => panic!(),
    }
}

#[test]
#[should_panic]
fn compute_elementwise_add_panic() {
    let program = "
     (compute elementwise-add (access (access-tensor t-3-32-32) 3))
     ";
    let analysis = MyAnalysis::default();
    analyze(program, &analysis);
}

#[test]
fn compute_elementwise_mul_0() {
    let program = "
     (compute elementwise-mul (access (access-tensor t-3-32-32) 0))
     ";
    let analysis = MyAnalysis::default();
    let data = analyze(program, &analysis);
    let id = data.len() - 1;
    match &data[id] {
        MyAnalysisData::AccessPattern(a) => {
            assert_eq!(a.shape, Vec::<usize>::new());
            assert_eq!(a.item_shape, vec![32, 32]);
        }
        _ => panic!(),
    }
}

#[test]
fn compute_elementwise_mul_1() {
    let program = "
     (compute elementwise-mul (access (access-tensor t-3-32-32) 1))
     ";
    let analysis = MyAnalysis::default();
    let data = analyze(program, &analysis);
    let id = data.len() - 1;
    match &data[id] {
        MyAnalysisData::AccessPattern(a) => {
            assert_eq!(a.shape, vec![3]);
            assert_eq!(a.item_shape, vec![32]);
        }
        _ => panic!(),
    }
}

#[test]
fn compute_elementwise_mul_2() {
    let program = "
     (compute elementwise-mul (access (access-tensor t-3-32-32) 2))
     ";
    let analysis = MyAnalysis::default();
    let data = analyze(program, &analysis);
    let id = data.len() - 1;
    match &data[id] {
        MyAnalysisData::AccessPattern(a) => {
            assert_eq!(a.shape, vec![3, 32]);
            assert_eq!(a.item_shape, Vec::<usize>::new());
        }
        _ => panic!(),
    }
}

#[test]
#[should_panic]
fn compute_elementwise_mul_panic() {
    let program = "
     (compute elementwise-mul (access (access-tensor t-3-32-32) 3))
     ";
    let analysis = MyAnalysis::default();
    analyze(program, &analysis);
}

#[test]
fn zero_padding() {
    let program = "zero-padding";
    let analysis = MyAnalysis::default();
    let data = analyze(program, &analysis);
    let id = data.len() - 1;
    match &data[id] {
        MyAnalysisData::PadType(PadType::ZeroPadding) => (),
        _ => panic!(),
    };
}

#[test]
fn access_pad_zero_padding_0() {
    let program = "
     (access-pad (access (access-tensor t-32-32) 1) zero-padding 0 1 2)
     ";
    let analysis = MyAnalysis::default();
    let data = analyze(program, &analysis);
    let id = data.len() - 1;
    match &data[id] {
        MyAnalysisData::AccessPattern(a) => {
            assert_eq!(a.shape, vec![35]);
            assert_eq!(a.item_shape, vec![32]);
            assert_eq!(a.zero_regions.len(), 1);
            assert_eq!(a.zero_regions[&0].len(), 35);
            assert!(a.zero_regions[&0].covered((0, 1)));
            assert!(!a.zero_regions[&0].covered((1, 33)));
            assert!(a.zero_regions[&0].covered((33, 35)));
        }
        _ => panic!(),
    }
}

#[test]
fn access_pad_zero_padding_1() {
    let program = "
     (access-pad (access (access-tensor t-32-32) 1) zero-padding 1 0 2)
     ";
    let analysis = MyAnalysis::default();
    let data = analyze(program, &analysis);
    let id = data.len() - 1;
    match &data[id] {
        MyAnalysisData::AccessPattern(a) => {
            assert_eq!(a.shape, vec![32]);
            assert_eq!(a.item_shape, vec![34]);
            assert_eq!(a.zero_regions.len(), 1);
            assert_eq!(a.zero_regions[&1].len(), 34);
            assert!(a.zero_regions[&1].covered((32, 34)));
            assert!(!a.zero_regions[&1].covered((0, 32)));
        }
        _ => panic!(),
    }
}

    #[test]
    fn access_pad_zero_padding_2() {
        let program = "
(access-pad
 (access-pad (access (access-tensor t-32-32) 1) zero-padding 1 0 2)
 zero-padding 0 1 3
)
         ";
        let analysis = MyAnalysis::default();
        let data = analyze(program, &analysis);
        let id = data.len() - 1;
        match &data[id] {
            MyAnalysisData::AccessPattern(a) => {
                assert_eq!(a.shape, vec![36]);
                assert_eq!(a.item_shape, vec![34]);
                assert_eq!(a.zero_regions.len(), 2);
                assert_eq!(a.zero_regions[&1].len(), 34);
                assert_eq!(a.zero_regions[&0].len(), 36);
                assert!(a.zero_regions[&1].covered((32, 34)));
                assert!(!a.zero_regions[&1].covered((0, 32)));
                assert!(a.zero_regions[&0].covered((0, 1)));
                assert!(a.zero_regions[&0].covered((33, 36)));
                assert!(!a.zero_regions[&0].covered((1, 33)));
            }
            _ => panic!(),
        }
    }

    #[test]
    fn access_pad_zero_padding_3() {
        let program = "
(access-pad
 (access-pad (access (access-tensor t-32-32) 1) zero-padding 0 0 2)
 zero-padding 0 1 3
)
         ";
        let analysis = MyAnalysis::default();
        let data = analyze(program, &analysis);
        let id = data.len() - 1;
        match &data[id] {
            MyAnalysisData::AccessPattern(a) => {
                assert_eq!(a.shape, vec![38]);
                assert_eq!(a.item_shape, vec![32]);
                assert_eq!(a.zero_regions.len(), 1);
                assert_eq!(a.zero_regions[&0].len(), 38);
                assert!(a.zero_regions[&0].covered((0, 1)));
                assert!(a.zero_regions[&0].covered((35, 38)));
                assert!(!a.zero_regions[&0].covered((1, 35)));
                // This one is key: this makes sure that the first pad's zero
                // region was shifted appropriately by the second pad (was (32,
                // 34), but should get shifted by 1)
                assert!(a.zero_regions[&0].covered((33, 35)));
                assert!(!a.zero_regions[&0].covered((0, 33)));
            }
            _ => panic!(),
        }
    }

#[test]
#[should_panic]
fn access_pad_zero_padding_panic() {
    let program = "
     (access-pad (access (access-tensor t-32-32) 1) zero-padding 2 3 2)
     ";
    let analysis = MyAnalysis::default();
    analyze(program, &analysis);
}

#[test]
fn compute_reduce_max_0() {
    let program = "
     (compute reduce-max (access (access-tensor t-3-32-32) 0))
     ";
    let analysis = MyAnalysis::default();
    let data = analyze(program, &analysis);
    let id = data.len() - 1;
    match &data[id] {
        MyAnalysisData::AccessPattern(a) => {
            assert_eq!(a.shape, Vec::<usize>::new());
            assert_eq!(a.item_shape, Vec::<usize>::new());
        }
        _ => panic!(),
    }
}

#[test]
fn compute_reduce_max_1() {
    let program = "
     (compute reduce-max (access (access-tensor t-3-32-32) 2))
     ";
    let analysis = MyAnalysis::default();
    let data = analyze(program, &analysis);
    let id = data.len() - 1;
    match &data[id] {
        MyAnalysisData::AccessPattern(a) => {
            assert_eq!(a.shape, vec![3, 32]);
            assert_eq!(a.item_shape, Vec::<usize>::new());
        }
        _ => panic!(),
    }
}

#[test]
fn access_squeeze() {
    let program = "
     (access-squeeze (access (access-tensor t-1-2-3-4) 1) 0)
     ";
    let analysis = MyAnalysis::default();
    let data = analyze(program, &analysis);
    let id = data.len() - 1;
    match &data[id] {
        MyAnalysisData::AccessPattern(a) => {
            assert_eq!(a.shape, Vec::<usize>::new());
            assert_eq!(a.item_shape, vec![2, 3, 4]);
        }
        _ => panic!(),
    }
}

#[test]
#[should_panic]
fn access_squeeze_panic() {
    let program = "
     (access-squeeze (access (access-tensor t-1-2-3-4) 1) 2)
     ";
    let analysis = MyAnalysis::default();
    analyze(program, &analysis);
}

#[test]
fn access_insert_axis() {
    let program = "
     (access-insert-axis (access (access-tensor t-1-2-3-4) 1) 0)
     ";
    let analysis = MyAnalysis::default();
    let data = analyze(program, &analysis);
    let id = data.len() - 1;
    match &data[id] {
        MyAnalysisData::AccessPattern(a) => {
            assert_eq!(a.shape, vec![1, 1]);
            assert_eq!(a.item_shape, vec![2, 3, 4]);
        }
        _ => panic!(),
    }
}

#[test]
#[should_panic]
fn access_insert_axis_panic() {
    let program = "
     (access-squeeze (access (access-tensor t-1-2-3-4) 1) 5)
     ";
    let analysis = MyAnalysis::default();
    analyze(program, &analysis);
}

#[test]
fn access_broadcast() {
    let program = "
     (access-broadcast (access (access-tensor t-1-2-3-4) 1) (access-shape (shape 2 2 3 4) (shape)))
     ";
    let analysis = MyAnalysis {
        name_to_shape: HashMap::default(),
    };
    let data = analyze(program, &analysis);
    let id = data.len() - 1;
    match &data[id] {
        MyAnalysisData::AccessPattern(a) => {
            assert_eq!(a.shape, vec![2]);
            assert_eq!(a.item_shape, vec![2, 3, 4]);
        }
        _ => panic!(),
    }
}

#[test]
fn systolic_array() {
    let mut map = HashMap::default();
    map.insert("a".to_string(), vec![32, 64]);
    let program = "
     (systolic-array 64 32
      (access (access-tensor a) 1)
      (access (access-transpose (access-tensor a) (list 1 0)) 0)
     )
     ";
    let analysis = MyAnalysis { name_to_shape: map };
    let data = analyze(program, &analysis);
    let id = data.len() - 1;
    match &data[id] {
        MyAnalysisData::AccessPattern(a) => {
            assert_eq!(a.shape, vec![32, 32]);
            assert_eq!(a.item_shape, Vec::<usize>::new());
        }
        _ => panic!(),
    }
}

#[test]
#[should_panic]
fn systolic_array_panic_0() {
    let mut map = HashMap::default();
    map.insert("a".to_string(), vec![32, 64]);
    // Because the second argument is not the right shape.
    let program = "
     (systolic-array 64 32
      (access (access-tensor a) 1)
      (access (access-tensor a) 0)
     )
     ";
    let analysis = MyAnalysis { name_to_shape: map };
    analyze(program, &analysis);
}

#[test]
#[should_panic]
fn systolic_array_panic_1() {
    let mut map = HashMap::default();
    map.insert("a".to_string(), vec![32, 64]);
    // Because the second argument is not accessed at the right axis.
    let program = "
     (systolic-array 64 32
      (access (access-tensor a) 1)
      (access (move-axis (access-tensor a) 0 1) 1)
     )
     ";
    let analysis = MyAnalysis { name_to_shape: map };
    analyze(program, &analysis);
}

#[test]
fn list() {
    let program = "
     (list 1 2 3 4)
     ";
    let analysis = MyAnalysis::default();
    let data = analyze(program, &analysis);
    let id = data.len() - 1;
    match &data[id] {
        MyAnalysisData::List(l) => assert_eq!(l, &vec![1, 2, 3, 4]),
        _ => panic!(),
    }
}

#[test]
fn access_transpose() {
    let program = "
     (access-transpose (access (access-tensor a) 1) (list 2 0 1))
     ";
    let mut map = HashMap::default();
    map.insert("a".to_string(), vec![4, 5, 6]);
    let analysis = MyAnalysis { name_to_shape: map };
    let data = analyze(program, &analysis);
    let id = data.len() - 1;
    match &data[id] {
        MyAnalysisData::AccessPattern(a) => {
            assert_eq!(a.shape, vec![6]);
            assert_eq!(a.item_shape, vec![4, 5]);
        }
        _ => panic!(),
    }
}

#[test]
fn access_transpose_1() {
    let program = "
         (access-transpose
          (access-transpose
           (access (access-tensor t) 1)
           (list 1 3 2 0)
          )
          (list 3 2 1 0)
         )";
    let mut map = HashMap::new();
    map.insert("t".to_string(), vec![1, 2, 3, 4]);
    let analysis = MyAnalysis { name_to_shape: map };
    let data = analyze(program, &analysis);
    let id = data.len() - 1;
    match &data[id] {
        MyAnalysisData::AccessPattern(a) => {
            assert_eq!(a.shape, vec![1]);
            assert_eq!(a.item_shape, vec![3, 4, 2]);
        }
        _ => panic!(),
    }
}

#[test]
fn access_transpose_2() {
    let program = "
          (access-transpose
           (access (access-tensor t) 1)
           (list 1 3 2 0)
          )
         ";
    let mut map = HashMap::new();
    map.insert("t".to_string(), vec![1, 2, 3, 4]);
    let analysis = MyAnalysis { name_to_shape: map };
    let data = analyze(program, &analysis);
    let id = data.len() - 1;
    match &data[id] {
        MyAnalysisData::AccessPattern(a) => {
            assert_eq!(a.shape, vec![2]);
            assert_eq!(a.item_shape, vec![4, 3, 1]);
        }
        _ => panic!(),
    }
}

#[test]
fn access_transpose_3() {
    let program = "
          (access-transpose
           (access-pad (access (access-tensor t) 1) zero-padding 1 5 0)
           (list 1 3 2 0)
          )
         ";
    let mut map = HashMap::new();
    map.insert("t".to_string(), vec![1, 2, 3, 4]);
    let analysis = MyAnalysis { name_to_shape: map };
    let data = analyze(program, &analysis);
    let id = data.len() - 1;
    match &data[id] {
        MyAnalysisData::AccessPattern(a) => {
            assert_eq!(a.shape, vec![7]);
            assert_eq!(a.item_shape, vec![4, 3, 1]);
            assert_eq!(a.zero_regions.len(), 1);
            assert_eq!(a.zero_regions[&0].len(), 7);
            assert!(a.zero_regions[&0].covered((0, 5)));
            assert!(!a.zero_regions[&0].covered((5, 7)));
        }
        _ => panic!(),
    }
}

#[test]
#[should_panic]
fn access_transpose_panic_0() {
    let program = "
     (access-transpose (access (access-tensor a) 1) (list 0 1))
     ";
    let mut map = HashMap::default();
    map.insert("a".to_string(), vec![4, 5, 6]);
    let analysis = MyAnalysis { name_to_shape: map };
    analyze(program, &analysis);
}

#[test]
#[should_panic]
fn access_transpose_panic_1() {
    let program = "
     (access-transpose (access (access-tensor a) 1) (list 2 1 1))
     ";
    let mut map = HashMap::default();
    map.insert("a".to_string(), vec![4, 6]);
    let analysis = MyAnalysis { name_to_shape: map };
    analyze(program, &analysis);
}

#[test]
#[should_panic]
fn compute_softmax_0() {
    let program = "
     (compute softmax (access (access-tensor t-3-32-32) 3))
     ";
    let analysis = MyAnalysis::default();
    analyze(program, &analysis);
}

#[test]
#[should_panic]
fn compute_softmax_1() {
    let program = "
     (compute softmax (access (access-tensor t-3-32-32) 0))
     ";
    let analysis = MyAnalysis::default();
    analyze(program, &analysis);
}

#[test]
fn compute_softmax_2() {
    let program = "
     (compute softmax (access (access-tensor t-3-32-32) 2))
     ";
    let analysis = MyAnalysis::default();
    let data = analyze(program, &analysis);
    let id = data.len() - 1;
    match &data[id] {
        MyAnalysisData::AccessPattern(a) => {
            assert_eq!(a.shape, vec![3, 32]);
            assert_eq!(a.item_shape, vec![32]);
        }
        _ => panic!(),
    }
}

#[test]
fn compute_reduce_mean_0() {
    let program = "
     (compute reduce-mean (access (access-tensor t-3-32-32) 0))
     ";
    let analysis = MyAnalysis::default();
    let data = analyze(program, &analysis);
    let id = data.len() - 1;
    match &data[id] {
        MyAnalysisData::AccessPattern(a) => {
            assert_eq!(a.shape, Vec::<usize>::new());
            assert_eq!(a.item_shape, Vec::<usize>::new());
        }
        _ => panic!(),
    }
}

#[test]
fn compute_reduce_mean_1() {
    let program = "
     (compute reduce-mean (access (access-tensor t-3-32-32) 2))
     ";
    let analysis = MyAnalysis::default();
    let data = analyze(program, &analysis);
    let id = data.len() - 1;
    match &data[id] {
        MyAnalysisData::AccessPattern(a) => {
            assert_eq!(a.shape, vec![3, 32]);
            assert_eq!(a.item_shape, Vec::<usize>::new());
        }
        _ => panic!(),
    }
}

#[test]
fn access_pad_min_padding() {
    let program = "
     (access-pad (access (access-tensor t-32-32) 1) min-padding 0 1 2)
     ";
    let analysis = MyAnalysis::default();
    let data = analyze(program, &analysis);
    let id = data.len() - 1;
    match &data[id] {
        MyAnalysisData::AccessPattern(a) => {
            assert_eq!(a.shape, vec![35]);
            assert_eq!(a.item_shape, vec![32]);
        }
        _ => panic!(),
    }
}

#[test]
fn compute_elementwise_div() {
    let program = "
     (compute elementwise-div (access (access-tensor t-3-32-32) 0))
     ";
    let analysis = MyAnalysis::default();
    let data = analyze(program, &analysis);
    let id = data.len() - 1;
    match &data[id] {
        MyAnalysisData::AccessPattern(a) => {
            assert_eq!(a.shape, Vec::<usize>::new());
            assert_eq!(a.item_shape, vec![32, 32]);
        }
        _ => panic!(),
    }
}

#[test]
fn literal_0() {
    let program = "
     (literal 0.1234)
     ";
    let analysis = MyAnalysis::default();
    let data = analyze(program, &analysis);
    let id = data.len() - 1;
    match &data[id] {
        MyAnalysisData::Literal(t) => {
            assert_eq!(t.text.parse::<f64>().unwrap(), 0.1234);
        }
        _ => panic!(),
    }
}

#[test]
fn access_literal() {
    let program = "
     (access-literal (literal 0.1234))
     ";
    let analysis = MyAnalysis::default();
    let data = analyze(program, &analysis);
    let id = data.len() - 1;
    match &data[id] {
        MyAnalysisData::AccessPattern(a) => {
            assert_eq!(a.shape, Vec::<usize>::new());
            assert_eq!(a.item_shape, Vec::<usize>::new());
        }
        _ => panic!(),
    }
}

#[test]
fn compute_sqrt() {
    let program = "
     (compute sqrt (access (access-tensor t-32-32) 0))
     ";
    let analysis = MyAnalysis::default();
    let data = analyze(program, &analysis);
    let id = data.len() - 1;
    match &data[id] {
        MyAnalysisData::AccessPattern(a) => {
            assert_eq!(a.shape, Vec::<usize>::new());
            assert_eq!(a.item_shape, vec![32, 32]);
        }
        _ => panic!(),
    }
}

#[test]
fn compute_negative() {
    let program = "
     (compute negative (access (access-tensor t-32-32) 0))
     ";
    let analysis = MyAnalysis::default();
    let data = analyze(program, &analysis);
    let id = data.len() - 1;
    match &data[id] {
        MyAnalysisData::AccessPattern(a) => {
            assert_eq!(a.shape, Vec::<usize>::new());
            assert_eq!(a.item_shape, vec![32, 32]);
        }
        _ => panic!(),
    }
}

#[test]
fn systolic_array_with_blocking_0() {
    let mut map = HashMap::default();
    map.insert("a".to_string(), vec![32, 64]);
    map.insert("b".to_string(), vec![64, 32]);
    let program = "
     (systolic-array-with-blocking 64 32
      (access (access-tensor a) 1)
      (access (access-tensor b) 0)
     )
     ";
    let analysis = MyAnalysis { name_to_shape: map };
    let data = analyze(program, &analysis);
    let id = data.len() - 1;
    match &data[id] {
        MyAnalysisData::AccessPattern(a) => {
            assert_eq!(a.shape, vec![32, 32]);
            assert_eq!(a.item_shape, Vec::<usize>::new());
        }
        _ => panic!(),
    }
}

#[test]
fn systolic_array_with_blocking_2() {
    let mut map = HashMap::default();
    map.insert("a".to_string(), vec![32, 64]);
    map.insert("b".to_string(), vec![64, 32]);
    let program = "
     (systolic-array-with-blocking 32 32
      (access (access-tensor a) 1)
      (access (access-tensor b) 0)
     )
     ";
    let analysis = MyAnalysis { name_to_shape: map };
    let data = analyze(program, &analysis);
    let id = data.len() - 1;
    match &data[id] {
        MyAnalysisData::AccessPattern(a) => {
            assert_eq!(a.shape, vec![32, 32]);
            assert_eq!(a.item_shape, Vec::<usize>::new());
        }
        _ => panic!(),
    }
}

#[test]
fn systolic_array_with_blocking_3() {
    let mut map = HashMap::default();
    map.insert("a".to_string(), vec![32, 64]);
    map.insert("b".to_string(), vec![64, 32]);
    let program = "
     (systolic-array-with-blocking 32 2
      (access (access-tensor a) 1)
      (access (access-tensor b) 0)
     )
     ";
    let analysis = MyAnalysis { name_to_shape: map };
    let data = analyze(program, &analysis);
    let id = data.len() - 1;
    match &data[id] {
        MyAnalysisData::AccessPattern(a) => {
            assert_eq!(a.shape, vec![32, 32]);
            assert_eq!(a.item_shape, Vec::<usize>::new());
        }
        _ => panic!(),
    }
}

#[test]
#[should_panic]
fn systolic_array_with_blocking_panic() {
    let mut map = HashMap::default();
    map.insert("a".to_string(), vec![32, 64]);
    map.insert("b".to_string(), vec![64, 32]);
    let program = "
     (systolic-array-with-blocking 32 3
      (access (access-tensor a) 1)
      (access (access-tensor b) 0)
     )
     ";
    let analysis = MyAnalysis { name_to_shape: map };
    let _id = analyze(program, &analysis);
}

#[test]
fn batch_norm_inference() {
    let mut map = HashMap::default();
    map.insert("a".to_string(), vec![32, 64]);
    // Just showing that, right now, these shapes don't matter at all.
    map.insert("b".to_string(), vec![32]);
    map.insert("c".to_string(), vec![10, 20]);
    map.insert("d".to_string(), vec![3, 3, 3, 3, 3, 3]);
    map.insert("e".to_string(), vec![]);
    let program = "
     (relay-operator-call relay-batch-norm-inference
      (access-tensor a)
      (access-tensor b)
      (access-tensor c)
      (access-tensor d)
      (access-tensor e)
      1 1e-5)
     ";
    let analysis = MyAnalysis { name_to_shape: map };
    let data = analyze(program, &analysis);
    let id = data.len() - 1;
    match &data[id] {
        MyAnalysisData::AccessPattern(a) => {
            assert_eq!(a.shape, vec![32, 64]);
            assert_eq!(a.item_shape, Vec::<usize>::new());
        }
        _ => panic!(),
    }
}

#[test]
#[should_panic]
fn batch_norm_inference_panic() {
    let mut map = HashMap::default();
    map.insert("a".to_string(), vec![32, 64]);
    // Just showing that, right now, these shapes don't matter at all.
    map.insert("b".to_string(), vec![32]);
    map.insert("c".to_string(), vec![10, 20]);
    map.insert("d".to_string(), vec![3, 3, 3, 3, 3, 3]);
    map.insert("e".to_string(), vec![]);
    let program = "
     (relay-operator-call relay-batch-norm-inference
      (access-tensor a)
      (access-tensor b)
      (access-tensor c)
      (access-tensor d)
      (access-tensor e)
      1e-5 1)
     ";
    let analysis = MyAnalysis { name_to_shape: map };
    let data = analyze(program, &analysis);
    let id = data.len() - 1;
    match &data[id] {
        MyAnalysisData::AccessPattern(a) => {
            assert_eq!(a.shape, vec![32, 64]);
            assert_eq!(a.item_shape, Vec::<usize>::new());
        }
        _ => panic!(),
    }
}

#[test]
fn relay_operator_call_softmax() {
    let mut map = HashMap::default();
    map.insert("a".to_string(), vec![32, 64]);
    let program = "
     (relay-operator-call relay-softmax
      (access-tensor a)
      1)
     ";
    let analysis = MyAnalysis { name_to_shape: map };
    let data = analyze(program, &analysis);
    let id = data.len() - 1;
    match &data[id] {
        MyAnalysisData::AccessPattern(a) => {
            assert_eq!(a.shape, vec![32, 64]);
            assert_eq!(a.item_shape, Vec::<usize>::new());
        }
        _ => panic!(),
    }
}

#[test]
#[should_panic]
fn relay_operator_call_softmax_panic() {
    let mut map = HashMap::default();
    map.insert("a".to_string(), vec![32, 64]);
    map.insert("b".to_string(), vec![32]);
    let program = "
     (relay-operator-call relay-softmax
      (access-tensor a)
      (access-tensor b)
      )
     ";
    let analysis = MyAnalysis { name_to_shape: map };
    let data = analyze(program, &analysis);
    let id = data.len() - 1;
    match &data[id] {
        MyAnalysisData::AccessPattern(a) => {
            assert_eq!(a.shape, vec![32, 64]);
            assert_eq!(a.item_shape, Vec::<usize>::new());
        }
        _ => panic!(),
    }
}

#[test]
fn relay_operator_call_relu() {
    let mut map = HashMap::default();
    map.insert("a".to_string(), vec![32, 64]);
    let program = "
     (relay-operator-call relay-relu
      (access-tensor a))
     ";
    let analysis = MyAnalysis { name_to_shape: map };
    let data = analyze(program, &analysis);
    let id = data.len() - 1;
    match &data[id] {
        MyAnalysisData::AccessPattern(a) => {
            assert_eq!(a.shape, vec![32, 64]);
            assert_eq!(a.item_shape, Vec::<usize>::new());
        }
        _ => panic!(),
    }
}

#[test]
#[should_panic]
fn relay_operator_call_relu_panic() {
    let program = "
     (relay-operator-call relay-relu 1)
     ";
    let analysis = MyAnalysis {
        name_to_shape: HashMap::default(),
    };
    let data = analyze(program, &analysis);
    let id = data.len() - 1;
    match &data[id] {
        MyAnalysisData::AccessPattern(a) => {
            assert_eq!(a.shape, vec![32, 64]);
            assert_eq!(a.item_shape, Vec::<usize>::new());
        }
        _ => panic!(),
    }
}

#[test]
fn relay_operator_call_max_pool2d_nchw() {
    let mut map = HashMap::default();
    map.insert("a".to_string(), vec![1, 3, 32, 64]);
    let program = "
     (relay-operator-call relay-max-pool2d
      (access-tensor a)
      (shape 1 2)
      (shape 3 4)
      (shape 5 6 7 8)
      relay-activation-layout-nchw
     )
     ";
    let analysis = MyAnalysis { name_to_shape: map };
    let data = analyze(program, &analysis);
    let id = data.len() - 1;
    match &data[id] {
        MyAnalysisData::AccessPattern(a) => {
            assert_eq!(a.shape, vec![1, 3, 15, 20]);
            assert_eq!(a.item_shape, Vec::<usize>::new());
        }
        _ => panic!(),
    }
}

#[test]
fn relay_operator_call_max_pool2d_nhwc() {
    let mut map = HashMap::default();
    map.insert("a".to_string(), vec![1, 3, 32, 64]);
    let program = "
     (relay-operator-call relay-max-pool2d
      (access-tensor a)
      (shape 1 2)
      (shape 3 4)
      (shape 5 6 7 8)
      relay-activation-layout-nhwc
     )
     ";
    let analysis = MyAnalysis { name_to_shape: map };
    let data = analyze(program, &analysis);
    let id = data.len() - 1;
    match &data[id] {
        MyAnalysisData::AccessPattern(a) => {
            assert_eq!(a.shape, vec![1, 5, 12, 64]);
            assert_eq!(a.item_shape, Vec::<usize>::new());
        }
        _ => panic!(),
    }
}

#[test]
#[should_panic]
fn relay_operator_call_max_pool2d_panic() {
    let mut map = HashMap::default();
    map.insert("a".to_string(), vec![1, 3, 32, 64]);
    let program = "
     (relay-operator-call relay-max-pool2d
      (access-tensor a)
      (access-tensor a)
      (shape 3 4)
      (shape 5 6 7 8)
      relay-activation-layout-nhwc
     )
     ";
    let analysis = MyAnalysis { name_to_shape: map };
    let data = analyze(program, &analysis);
    let id = data.len() - 1;
    match &data[id] {
        MyAnalysisData::AccessPattern(a) => {
            assert_eq!(a.shape, vec![32, 64]);
            assert_eq!(a.item_shape, Vec::<usize>::new());
        }
        _ => panic!(),
    }
}

#[test]
fn relay_operator_call_global_avg_pool2d_nchw() {
    let mut map = HashMap::default();
    map.insert("a".to_string(), vec![1, 3, 32, 64]);
    let program = "
     (relay-operator-call relay-global-avg-pool2d
      (access-tensor a)
      relay-activation-layout-nchw
     )
     ";
    let analysis = MyAnalysis { name_to_shape: map };
    let data = analyze(program, &analysis);
    let id = data.len() - 1;
    match &data[id] {
        MyAnalysisData::AccessPattern(a) => {
            assert_eq!(a.shape, vec![1, 3, 1, 1]);
            assert_eq!(a.item_shape, Vec::<usize>::new());
        }
        _ => panic!(),
    }
}

#[test]
fn relay_operator_call_global_avg_pool2d_nhwc() {
    let mut map = HashMap::default();
    map.insert("a".to_string(), vec![1, 3, 32, 64]);
    let program = "
     (relay-operator-call relay-global-avg-pool2d
      (access-tensor a)
      relay-activation-layout-nhwc
     )
     ";
    let analysis = MyAnalysis { name_to_shape: map };
    let data = analyze(program, &analysis);
    let id = data.len() - 1;
    match &data[id] {
        MyAnalysisData::AccessPattern(a) => {
            assert_eq!(a.shape, vec![1, 1, 1, 64]);
            assert_eq!(a.item_shape, Vec::<usize>::new());
        }
        _ => panic!(),
    }
}

#[test]
#[should_panic]
fn relay_operator_call_global_avg_pool2d_panic() {
    let mut map = HashMap::default();
    map.insert("a".to_string(), vec![1, 3, 32, 64]);
    let program = "
     (relay-operator-call relay-max-pool2d
      (access-tensor a)
      (access-tensor a)
     )
     ";
    let analysis = MyAnalysis { name_to_shape: map };
    let data = analyze(program, &analysis);
    let id = data.len() - 1;
    match &data[id] {
        MyAnalysisData::AccessPattern(a) => {
            assert_eq!(a.shape, vec![32, 64]);
            assert_eq!(a.item_shape, Vec::<usize>::new());
        }
        _ => panic!(),
    }
}

#[test]
fn relay_operator_call_batch_flatten() {
    let mut map = HashMap::default();
    map.insert("a".to_string(), vec![1, 3, 32, 64]);
    let program = "
     (relay-operator-call relay-batch-flatten
      (access-tensor a)
     )
     ";
    let analysis = MyAnalysis { name_to_shape: map };
    let data = analyze(program, &analysis);
    let id = data.len() - 1;
    match &data[id] {
        MyAnalysisData::AccessPattern(a) => {
            assert_eq!(a.shape, vec![1, 3 * 32 * 64]);
            assert_eq!(a.item_shape, Vec::<usize>::new());
        }
        _ => panic!(),
    }
}

#[test]
#[should_panic]
fn relay_operator_call_batch_flatten_panic() {
    let mut map = HashMap::default();
    map.insert("a".to_string(), vec![1, 3, 32, 64]);
    let program = "
     (relay-operator-call relay-batch-flatten
      (access-tensor a)
      (access-tensor a)
     )
     ";
    let analysis = MyAnalysis { name_to_shape: map };
    let data = analyze(program, &analysis);
    let id = data.len() - 1;
    match &data[id] {
        MyAnalysisData::AccessPattern(a) => {
            assert_eq!(a.shape, vec![32, 64]);
            assert_eq!(a.item_shape, Vec::<usize>::new());
        }
        _ => panic!(),
    }
}

#[test]
fn relay_operator_call_bias_add() {
    let mut map = HashMap::default();
    map.insert("a".to_string(), vec![1, 32]);
    map.insert("b".to_string(), vec![32]);
    let program = "
     (relay-operator-call relay-bias-add
      (access-tensor a)
      (access-tensor b)
      1
     )
     ";
    let analysis = MyAnalysis { name_to_shape: map };
    let data = analyze(program, &analysis);
    let id = data.len() - 1;
    match &data[id] {
        MyAnalysisData::AccessPattern(a) => {
            assert_eq!(a.shape, vec![1, 32]);
            assert_eq!(a.item_shape, Vec::<usize>::new());
        }
        _ => panic!(),
    }
}

#[test]
#[should_panic]
fn relay_operator_call_bias_add_panic() {
    let mut map = HashMap::default();
    map.insert("a".to_string(), vec![1, 32]);
    let program = "
     (relay-operator-call relay-bias-add
      (access-tensor a)
      2 3
     )
     ";
    let analysis = MyAnalysis { name_to_shape: map };
    let data = analyze(program, &analysis);
    let id = data.len() - 1;
    match &data[id] {
        MyAnalysisData::AccessPattern(a) => {
            assert_eq!(a.shape, vec![1, 32]);
            assert_eq!(a.item_shape, Vec::<usize>::new());
        }
        _ => panic!(),
    }
}

#[test]
fn relay_operator_call_add() {
    let mut map = HashMap::default();
    map.insert("a".to_string(), vec![3, 1, 32, 32]);
    map.insert("b".to_string(), vec![64, 1, 32]);
    let program = "
     (relay-operator-call relay-add
      (access-tensor a)
      (access-tensor b)
     )
     ";
    let analysis = MyAnalysis { name_to_shape: map };
    let data = analyze(program, &analysis);
    let id = data.len() - 1;
    match &data[id] {
        MyAnalysisData::AccessPattern(a) => {
            assert_eq!(a.shape, vec![3, 64, 32, 32]);
            assert_eq!(a.item_shape, Vec::<usize>::new());
        }
        _ => panic!(),
    }
}

#[test]
#[should_panic]
fn relay_operator_call_add_panic_broadcast() {
    let mut map = HashMap::default();
    map.insert("a".to_string(), vec![3, 2, 32, 32]);
    map.insert("b".to_string(), vec![64, 1, 32]);
    let program = "
     (relay-operator-call relay-add
      (access-tensor a)
      (access-tensor b)
     )
     ";
    let analysis = MyAnalysis { name_to_shape: map };
    let data = analyze(program, &analysis);
    let id = data.len() - 1;
    match &data[id] {
        MyAnalysisData::AccessPattern(a) => {
            assert_eq!(a.shape, vec![3, 64, 32, 32]);
            assert_eq!(a.item_shape, Vec::<usize>::new());
        }
        _ => panic!(),
    }
}

#[test]
#[should_panic]
fn relay_operator_call_add_panic_types() {
    let mut map = HashMap::default();
    map.insert("a".to_string(), vec![3, 2, 32, 32]);
    let program = "
     (relay-operator-call relay-add
      (access-tensor a)
      1
     )
     ";
    let analysis = MyAnalysis { name_to_shape: map };
    let data = analyze(program, &analysis);
    let id = data.len() - 1;
    match &data[id] {
        MyAnalysisData::AccessPattern(a) => {
            assert_eq!(a.shape, vec![3, 64, 32, 32]);
            assert_eq!(a.item_shape, Vec::<usize>::new());
        }
        _ => panic!(),
    }
}

#[test]
fn relay_operator_call_leaky_relu() {
    let mut map = HashMap::default();
    map.insert("a".to_string(), vec![32, 64]);
    let program = "
     (relay-operator-call relay-leaky-relu
      (access-tensor a) 0.1)
     ";
    let analysis = MyAnalysis { name_to_shape: map };
    let data = analyze(program, &analysis);
    let id = data.len() - 1;
    match &data[id] {
        MyAnalysisData::AccessPattern(a) => {
            assert_eq!(a.shape, vec![32, 64]);
            assert_eq!(a.item_shape, Vec::<usize>::new());
        }
        _ => panic!(),
    }
}

#[test]
fn relay_operator_call_avgpool2d() {
    let mut map = HashMap::default();
    map.insert("a".to_string(), vec![1, 1280, 7, 7]);
    let program = "
     (relay-operator-call relay-avg-pool2d
      (access-tensor a)
      (shape 7 7)
      (shape 1 1)
      (shape 0 0 0 0)
      relay-activation-layout-nchw)
     ";
    let analysis = MyAnalysis { name_to_shape: map };
    let data = analyze(program, &analysis);
    let id = data.len() - 1;
    match &data[id] {
        MyAnalysisData::AccessPattern(a) => {
            assert_eq!(a.shape, vec![1, 1280, 1, 1]);
            assert_eq!(a.item_shape, Vec::<usize>::new());
        }
        _ => panic!(),
    }
}

#[test]
fn relay_operator_call_upsampling() {
    let mut map = HashMap::default();
    map.insert("a".to_string(), vec![1, 1280, 7, 7]);
    let program = "
     (relay-operator-call relay-upsampling
      (access-tensor a)
      2.0 2.0
      (relay-activation-layout-nchw))
     ";
    let analysis = MyAnalysis { name_to_shape: map };
    let data = analyze(program, &analysis);
    let id = data.len() - 1;
    match &data[id] {
        MyAnalysisData::AccessPattern(a) => {
            assert_eq!(a.shape, vec![1, 1280, 14, 14]);
            assert_eq!(a.item_shape, Vec::<usize>::new());
        }
        _ => panic!(),
    }
}

#[test]
fn relay_operator_call_sigmoid() {
    let mut map = HashMap::default();
    map.insert("a".to_string(), vec![1, 1280, 7, 7]);
    let program = "
     (relay-operator-call relay-sigmoid
      (access-tensor a))
     ";
    let analysis = MyAnalysis { name_to_shape: map };
    let data = analyze(program, &analysis);
    let id = data.len() - 1;
    match &data[id] {
        MyAnalysisData::AccessPattern(a) => {
            assert_eq!(a.shape, vec![1, 1280, 7, 7]);
            assert_eq!(a.item_shape, Vec::<usize>::new());
        }
        _ => panic!(),
    }
}

#[test]
fn relay_operator_call_maximum() {
    let mut map = HashMap::default();
    map.insert("a".to_string(), vec![1, 1280, 7, 7]);
    map.insert("b".to_string(), vec![1, 1280, 1, 1]);
    let program = "
     (relay-operator-call relay-maximum
      (access-tensor a) (access-tensor b))
     ";
    let analysis = MyAnalysis { name_to_shape: map };
    let data = analyze(program, &analysis);
    let id = data.len() - 1;
    match &data[id] {
        MyAnalysisData::AccessPattern(a) => {
            assert_eq!(a.shape, vec![1, 1280, 7, 7]);
            assert_eq!(a.item_shape, Vec::<usize>::new());
        }
        _ => panic!(),
    }
}

#[test]
fn relay_operator_call_minimum() {
    let mut map = HashMap::default();
    map.insert("a".to_string(), vec![1, 1280, 7, 7]);
    map.insert("b".to_string(), vec![1, 1280, 1, 1]);
    let program = "
     (relay-operator-call relay-minimum
      (access-tensor a) (access-tensor b))
     ";
    let analysis = MyAnalysis { name_to_shape: map };
    let data = analyze(program, &analysis);
    let id = data.len() - 1;
    match &data[id] {
        MyAnalysisData::AccessPattern(a) => {
            assert_eq!(a.shape, vec![1, 1280, 7, 7]);
            assert_eq!(a.item_shape, Vec::<usize>::new());
        }
        _ => panic!(),
    }
}

#[test]
fn systolic_array_conv2d_nchw_oihw_with_blocking() {
    let mut map = HashMap::default();
    map.insert("data".to_string(), vec![1, 32, 44, 78]);
    map.insert("weights".to_string(), vec![64, 32, 1, 2]);
    let program = "
     (systolic-array-conv2d-nchw-oihw-with-blocking
      32 32
      (access-tensor weights)
      (access-tensor data)
      1 2
      3 4
     )
     ";
    let analysis = MyAnalysis { name_to_shape: map };
    let data = analyze(program, &analysis);
    let id = data.len() - 1;
    match &data[id] {
        MyAnalysisData::AccessPattern(a) => {
            assert_eq!(a.shape, vec![1, 64, 15, 20]);
            assert_eq!(a.item_shape, Vec::<usize>::new());
        }
        _ => panic!(),
    }
}

#[test]
fn systolic_array_conv2d_nhwc_hwio_with_blocking() {
    let mut map = HashMap::default();
    map.insert("data".to_string(), vec![1, 44, 78, 32]);
    map.insert("weights".to_string(), vec![1, 2, 32, 64]);
    let program = "
     (systolic-array-conv2d-nhwc-hwio-with-blocking
      32 32
      (access-tensor weights)
      (access-tensor data)
      1 2
      3 4
     )
     ";
    let analysis = MyAnalysis { name_to_shape: map };
    let data = analyze(program, &analysis);
    let id = data.len() - 1;
    match &data[id] {
        MyAnalysisData::AccessPattern(a) => {
            assert_eq!(a.shape, vec![1, 15, 20, 64]);
            assert_eq!(a.item_shape, Vec::<usize>::new());
        }
        _ => panic!(),
    }
}

#[test]
fn systolic_array_conv2d_im2col_nhwc_hwio_with_blocking() {
    let mut map = HashMap::default();
    // Note that we don't need any multiples of rows/cols here.
    // Systolic array should handle tail padding.
    map.insert("data".to_string(), vec![1, 44, 78, 33]);
    map.insert("weights".to_string(), vec![1, 2, 33, 65]);
    let program = "
     (systolic-array-conv2d-im2col-nhwc-hwio-with-blocking
      32 32
      (access-tensor weights)
      (access-tensor data)
      1 2
      3 4
     )
     ";
    let analysis = MyAnalysis { name_to_shape: map };
    let data = analyze(program, &analysis);
    let id = data.len() - 1;
    match &data[id] {
        MyAnalysisData::AccessPattern(a) => {
            assert_eq!(a.shape, vec![1, 15, 20, 65]);
            assert_eq!(a.item_shape, Vec::<usize>::new());
        }
        _ => panic!(),
    }
}

#[test]
fn systolic_array_conv2d_im2col_nchw_oihw_with_blocking() {
    let mut map = HashMap::default();
    // Note that we don't need any multiples of rows/cols here.
    // Systolic array should handle tail padding.
    map.insert("data".to_string(), vec![1, 33, 44, 78]);
    map.insert("weights".to_string(), vec![65, 33, 1, 2]);
    let program = "
     (systolic-array-conv2d-im2col-nchw-oihw-with-blocking
      32 32
      (access-tensor weights)
      (access-tensor data)
      1 2
      3 4
     )
     ";
    let analysis = MyAnalysis { name_to_shape: map };
    let data = analyze(program, &analysis);
    let id = data.len() - 1;
    match &data[id] {
        MyAnalysisData::AccessPattern(a) => {
            assert_eq!(a.shape, vec![1, 65, 15, 20]);
            assert_eq!(a.item_shape, Vec::<usize>::new());
        }
        _ => panic!(),
    }
}

#[test]
fn construct_tuple() {
    let mut map = HashMap::default();
    map.insert("a".to_string(), vec![32, 64]);
    map.insert("b".to_string(), vec![16, 32]);
    let program = "
     (construct-tuple (access-tensor a) (access-tensor b))
     ";
    let analysis = MyAnalysis { name_to_shape: map };
    let data = analyze(program, &analysis);
    let id = data.len() - 1;
    match &data[id] {
        MyAnalysisData::Tuple(a) => {
            assert_eq!(a.len(), 2);
            match (a[0].clone(), a[1].clone()) {
                (MyAnalysisData::AccessPattern(t1), MyAnalysisData::AccessPattern(t2)) => {
                    assert_eq!(t1.shape, vec![32, 64]);
                    assert_eq!(t2.shape, vec![16, 32]);
                }
                _ => panic!(),
            }
        }
        _ => panic!(),
    }
}

#[test]
fn tuple_get_item() {
    let mut map = HashMap::default();
    map.insert("a".to_string(), vec![32, 64]);
    map.insert("b".to_string(), vec![16, 32]);
    let program = "
     (tuple-get-item (construct-tuple (access-tensor a) (access-tensor b)) 1)
     ";
    let analysis = MyAnalysis { name_to_shape: map };
    let data = analyze(program, &analysis);
    let id = data.len() - 1;
    match &data[id] {
        MyAnalysisData::AccessPattern(b) => {
            assert_eq!(b.shape, vec![16, 32]);
        }
        _ => panic!(),
    }
}
