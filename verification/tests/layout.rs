use vie_core::layout::{Position, Rect};

#[test]
fn new_sets_default_position() {
    let r = Rect::new(0, 0);
    assert_eq!(r.position.col, 0);
    assert_eq!(r.position.row, 0);
}

#[test]
fn positioned_sets_position() {
    let r = Rect::positioned(0, 0, 10, 20);
    assert_eq!(r.position.col, 10);
    assert_eq!(r.position.row, 20);
}

#[test]
fn area_is_calculated() {
    assert_eq!(Rect::new(10, 10).area(), 100);
}

#[test]
fn left_returns_leftmost_possible_value() {
    assert_eq!(Rect::positioned(5, 10, 20, 25).left(), 20);
}

#[test]
fn right_returns_rightmost_possible_value() {
    assert_eq!(Rect::positioned(5, 10, 20, 25).right(), 25);
}

#[test]
fn top_returns_topmost_possible_value() {
    assert_eq!(Rect::positioned(5, 10, 20, 25).top(), 25);
}

#[test]
fn bottom_returns_bottommost_possible_value() {
    assert_eq!(Rect::positioned(5, 10, 20, 25).bottom(), 35);
}

#[test]
fn contains_returns_true_if_position_contained() {
    let r = Rect::new(10, 10);
    assert!(r.contains(&Position::new(5, 5)));
}

#[test]
fn contains_returns_false_if_position_not_contained() {
    let r = Rect::positioned(10, 10, 10, 10);
    assert_eq!(r.contains(&Position::new(5, 5)), false);
}

#[test]
fn area_saturates_when_the_count_does_not_fit() {
    assert_eq!(Rect::new(usize::MAX, 2).area(), usize::MAX);
    assert_eq!(Rect::new(usize::MAX, 1).area(), usize::MAX);
    assert_eq!(Rect::new(0, usize::MAX).area(), 0);
}

#[test]
fn contains_excludes_the_far_edges() {
    let r = Rect::positioned(3, 2, 10, 20);
    assert!(r.contains(&Position::new(10, 20)));
    assert!(r.contains(&Position::new(12, 21)));
    assert!(!r.contains(&Position::new(13, 21)));
    assert!(!r.contains(&Position::new(12, 22)));
    assert!(!r.contains(&Position::new(9, 20)));
    assert!(!r.contains(&Position::new(10, 19)));
}

#[test]
fn contains_does_not_overflow_at_the_far_corner() {
    let r = Rect::positioned(2, 2, usize::MAX - 1, usize::MAX - 1);
    assert!(!r.is_addressable());
    assert!(r.contains(&Position::new(usize::MAX, usize::MAX)));
    assert!(!r.contains(&Position::new(usize::MAX - 2, usize::MAX)));
}

#[test]
fn addressable_regions_are_recognised() {
    assert!(Rect::new(10, 10).is_addressable());
    assert!(Rect::new(0, usize::MAX).is_addressable());
    assert!(!Rect::new(usize::MAX, 2).is_addressable());
    assert!(!Rect::positioned(1, 1, usize::MAX, 0).is_addressable());
    assert!(!Rect::positioned(1, 1, 0, usize::MAX).is_addressable());
}

#[test]
fn position_from_pair_takes_column_then_row() {
    assert_eq!(Position::from((3, 4)), Position::new(3, 4));
    assert_eq!(Position::from((3, 4)).col, 3);
    assert_eq!(Position::from((3, 4)).row, 4);
}
