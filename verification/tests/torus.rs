use cellular_automata::torus::{index_after, index_before, wrap_index};

#[test]
fn wrap_index_keeps_indices_of_the_axis() {
    assert_eq!(wrap_index(0, 5), 0);
    assert_eq!(wrap_index(3, 5), 3);
    assert_eq!(wrap_index(4, 5), 4);
}

#[test]
fn wrap_index_folds_coordinates_beyond_the_end() {
    assert_eq!(wrap_index(5, 5), 0);
    assert_eq!(wrap_index(6, 5), 1);
    assert_eq!(wrap_index(104, 5), 4);
}

#[test]
fn wrap_index_folds_negative_coordinates() {
    assert_eq!(wrap_index(-1, 5), 4);
    assert_eq!(wrap_index(-5, 5), 0);
    assert_eq!(wrap_index(-6, 5), 4);
    assert_eq!(wrap_index(-7, 3), 2);
}

#[test]
fn wrap_index_on_an_axis_of_one() {
    assert_eq!(wrap_index(0, 1), 0);
    assert_eq!(wrap_index(17, 1), 0);
    assert_eq!(wrap_index(-17, 1), 0);
}

#[test]
fn wrap_index_at_the_ends_of_the_coordinate_range() {
    // i64::MAX = 9223372036854775807 = 7 * 1317624576693539401;
    // i64::MIN = -(i64::MAX) - 1.
    assert_eq!(wrap_index(i64::MAX, 7), 0);
    assert_eq!(wrap_index(i64::MIN, 7), 6);
    assert_eq!(wrap_index(i64::MAX, 10), 7);
    assert_eq!(wrap_index(i64::MIN, 10), 2);
    assert_eq!(wrap_index(i64::MIN, 1), 0);
}

#[test]
fn wrap_index_on_the_largest_axis() {
    assert_eq!(wrap_index(-1, usize::MAX), usize::MAX - 1);
    assert_eq!(wrap_index(12, usize::MAX), 12);
}

#[test]
fn index_before_steps_down_and_wraps() {
    assert_eq!(index_before(3, 5), 2);
    assert_eq!(index_before(0, 5), 4);
    assert_eq!(index_before(0, 1), 0);
}

#[test]
fn index_after_steps_up_and_wraps() {
    assert_eq!(index_after(3, 5), 4);
    assert_eq!(index_after(4, 5), 0);
    assert_eq!(index_after(0, 1), 0);
}
