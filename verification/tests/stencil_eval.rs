use demag::assembly::component_stencil;
use demag::plan::Kernel;
use demag::stencil::{corner_sign, stencil_corners};

#[test]
fn test_corner_sign_parity() {
    assert_eq!(corner_sign(&vec![0, 0, 0, 0, 0, 0]), 1);
    assert_eq!(corner_sign(&vec![0, 0, 1, 0, 0, 0]), -1);
    assert_eq!(corner_sign(&vec![1, 1, 0, 0, 0, 0]), 1);
    assert_eq!(corner_sign(&vec![1, 1, 1, 0, 0, 0]), -1);
    assert_eq!(corner_sign(&vec![1, 1, 1, 1, 1, 1]), 1);
}

#[test]
fn test_stencil_origin_unit_grid() {
    // the single coincident offset of a 1x1x1 grid: every wrapped index is 0
    let r = stencil_corners([0, 0, 0], [1, 1, 1], [0, 1, 2]);
    assert_eq!(r.len(), 64);
    assert_eq!(r[0], (1, [0, 0, 0]));
    assert_eq!(r[1], (-1, [0, 0, -1]));
    assert_eq!(r[32], (-1, [1, 0, 0]));
    assert_eq!(r[36], (1, [0, 0, 0]));
    assert_eq!(r[63], (1, [0, 0, 0]));
}

#[test]
fn test_stencil_applies_permutation() {
    // n = [100, 25, 1], idx = [0, 0, 0] wraps to m = [99, 24, 0];
    // the permutation (0, 2, 1) reorders the axes inside each corner
    let r = stencil_corners([0, 0, 0], [100, 25, 1], [0, 2, 1]);
    assert_eq!(r[0], (1, [99, 0, 24]));
    // corner 4 = 000100 lowers the high face of physical axis 0
    assert_eq!(r[4], (-1, [98, 0, 24]));
}

#[test]
fn test_component_stencil_row() {
    let (kernel, perm, corners) = component_stencil([0, 0, 0], [100, 25, 1], 3);
    assert_eq!(kernel, Kernel::F);
    assert_eq!(perm, [1, 2, 0]);
    assert_eq!(corners.len(), 64);
    assert_eq!(corners[0], (1, [24, 0, 99]));
}

#[test]
fn test_stencil_deterministic() {
    let a = component_stencil([5, 3, 0], [100, 25, 1], 4);
    let b = component_stencil([5, 3, 0], [100, 25, 1], 4);
    assert_eq!(a, b);
    let x = stencil_corners([7, 7, 0], [100, 25, 1], [2, 0, 1]);
    let y = stencil_corners([7, 7, 0], [100, 25, 1], [2, 0, 1]);
    assert_eq!(x, y);
}
