use demag::grid::{grid_valid, tensor_shape, wrap_index, MAX_GRID_DIM};
use demag::plan::{component_plan, component_table, Kernel};

#[test]
fn test_wrap_index_values() {
    // n = 1: the single index wraps to 0
    assert_eq!(wrap_index(0, 1), 0);
    // n = 100: (idx + 99) mod 201
    assert_eq!(wrap_index(0, 100), 99);
    assert_eq!(wrap_index(99, 100), 198);
    assert_eq!(wrap_index(198, 100), 96);
    // n = 25: (idx + 24) mod 51
    assert_eq!(wrap_index(0, 25), 24);
    assert_eq!(wrap_index(48, 25), 21);
}

#[test]
fn test_tensor_shape_unit_grid() {
    assert_eq!(tensor_shape([1, 1, 1]), Some([1, 1, 1, 6]));
}

#[test]
fn test_tensor_shape_values() {
    assert_eq!(tensor_shape([100, 25, 1]), Some([199, 49, 1, 6]));
    assert_eq!(tensor_shape([2, 3, 4]), Some([3, 5, 7, 6]));
}

#[test]
fn test_tensor_shape_rejects_empty_axis() {
    assert_eq!(tensor_shape([0, 1, 1]), None);
    assert_eq!(tensor_shape([1, 0, 1]), None);
    assert_eq!(tensor_shape([1, 1, 0]), None);
}

#[test]
fn test_grid_valid_bounds() {
    assert!(grid_valid(&[1, 1, 1]));
    assert!(grid_valid(&[MAX_GRID_DIM, 1, 1]));
    assert!(!grid_valid(&[MAX_GRID_DIM + 1, 1, 1]));
    assert!(!grid_valid(&[0, 0, 0]));
}

#[test]
fn test_component_table_rows() {
    let t = component_table();
    assert_eq!(t[0], (Kernel::F, [0, 1, 2]));
    assert_eq!(t[1], (Kernel::G, [0, 1, 2]));
    assert_eq!(t[2], (Kernel::G, [0, 2, 1]));
    assert_eq!(t[3], (Kernel::F, [1, 2, 0]));
    assert_eq!(t[4], (Kernel::G, [1, 2, 0]));
    assert_eq!(t[5], (Kernel::F, [2, 0, 1]));
}

#[test]
fn test_component_plan_matches_table() {
    let t = component_table();
    for c in 0..6 {
        assert_eq!(component_plan(c), t[c]);
    }
}
