use glenside::range_set::{BoolVecRangeSet, RangeHashSet, RangeInsertStrategy, RangeSet, RangeSet2};

#[test]
fn insert_elements_0() {
    let mut range_set = BoolVecRangeSet::default();
    range_set.add_range((0, 3));
    range_set.add_range((2, 6));
    range_set.add_range((4, 8));
    range_set.add_range((7, 10));
    range_set.insert_elements(5, 5);
    assert!(range_set.covered((0, 3)));
    assert!(range_set.covered((2, 5)));
    assert!(range_set.covered((10, 11)));
    assert!(range_set.covered((4, 5)));
    assert!(range_set.covered((10, 13)));
    assert!(range_set.covered((12, 15)));
}

#[test]
fn insert_elements_1() {
    let mut range_set = BoolVecRangeSet::default();
    range_set.add_range((0, 3));
    range_set.add_range((2, 6));
    range_set.add_range((4, 8));
    range_set.add_range((7, 10));
    range_set.insert_elements(5, 5);
    range_set.add_range((5, 10));
    assert!(range_set.covered((0, 3)));
    assert!(range_set.covered((2, 11)));
    assert!(range_set.covered((4, 13)));
    assert!(range_set.covered((12, 15)));
}

#[test]
fn remove_elements() {
    let mut range_set = BoolVecRangeSet::default();
    range_set.add_range((0, 3));
    range_set.add_range((2, 6));
    range_set.add_range((5, 8));
    range_set.add_range((9, 12));
    range_set.add_range((10, 14));
    range_set.remove_elements(5, 5);
    assert!(range_set.covered((0, 3)));
    assert!(range_set.covered((2, 5)));
    assert!(range_set.covered((5, 7)));
    assert!(range_set.covered((5, 9)));
}

#[test]
fn covered() {
    let mut range_set = BoolVecRangeSet::default();
    range_set.add_range((0, 3));
    range_set.add_range((5, 6));
    range_set.add_range((6, 8));
    range_set.add_range((10, 12));
    range_set.add_range((11, 14));
    assert!(range_set.covered((0, 2)));
    assert!(!range_set.covered((0, 4)));
    assert!(!range_set.covered((2, 5)));
    assert!(!range_set.covered((3, 5)));
    assert!(range_set.covered((5, 7)));
    assert!(range_set.covered((5, 8)));
    assert!(!range_set.covered((5, 9)));
    assert!(range_set.covered((10, 14)));
    assert!(!range_set.covered((10, 16)));
    assert!(!range_set.covered((22, 23)));
}

#[test]
fn test() {
    let mut range_set = BoolVecRangeSet::default();
    range_set.insert_elements(0, 1);
    range_set.add_range((0, 1));
    range_set.insert_elements(33, 2);
    range_set.add_range((33, 35));
    assert!(range_set.covered((0, 1)));
    assert!(!range_set.covered((1, 33)));
    assert!(range_set.covered((33, 35)));
}

#[test]
fn insert_elements_break_ranges() {
    let mut range_set = RangeHashSet::default();
    range_set.add_range((0, 3));
    range_set.add_range((2, 6));
    range_set.add_range((4, 8));
    range_set.add_range((7, 10));
    range_set.insert_elements(RangeInsertStrategy::BreakRanges, 5, 5);
    assert_eq!(range_set.len(), 6);
    assert!(range_set.contains(&(0, 3)));
    assert!(range_set.contains(&(2, 5)));
    assert!(range_set.contains(&(10, 11)));
    assert!(range_set.contains(&(4, 5)));
    assert!(range_set.contains(&(10, 13)));
    assert!(range_set.contains(&(12, 15)));
}

#[test]
fn insert_elements_preserve_ranges() {
    let mut range_set = RangeHashSet::default();
    range_set.add_range((0, 3));
    range_set.add_range((2, 6));
    range_set.add_range((4, 8));
    range_set.add_range((7, 10));
    range_set.insert_elements(RangeInsertStrategy::PreserveRanges, 5, 5);
    assert_eq!(range_set.len(), 4);
    assert!(range_set.contains(&(0, 3)));
    assert!(range_set.contains(&(2, 11)));
    assert!(range_set.contains(&(4, 13)));
    assert!(range_set.contains(&(12, 15)));
}

#[test]
fn language_remove_elements() {
    let mut range_set = RangeHashSet::default();
    range_set.add_range((0, 3));
    range_set.add_range((2, 6));
    range_set.add_range((5, 8));
    range_set.add_range((9, 12));
    range_set.add_range((10, 14));
    range_set.remove_elements(5, 5);
    assert_eq!(range_set.len(), 4);
    assert!(range_set.contains(&(0, 3)));
    assert!(range_set.contains(&(2, 5)));
    assert!(range_set.contains(&(5, 7)));
    assert!(range_set.contains(&(5, 9)));
}

#[test]
fn language_covered() {
    let mut range_set = RangeHashSet::default();
    range_set.add_range((0, 3));
    range_set.add_range((5, 6));
    range_set.add_range((6, 8));
    range_set.add_range((10, 12));
    range_set.add_range((11, 14));
    assert!(range_set.covered((0, 2)));
    assert!(!range_set.covered((0, 4)));
    assert!(!range_set.covered((2, 5)));
    assert!(!range_set.covered((3, 5)));
    assert!(range_set.covered((5, 7)));
    assert!(range_set.covered((5, 8)));
    assert!(!range_set.covered((5, 9)));
    assert!(range_set.covered((10, 14)));
    assert!(!range_set.covered((10, 16)));
}
