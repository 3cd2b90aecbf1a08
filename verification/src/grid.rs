//! Grid configuration: dimension validation, the index-to-offset wrap,
//! and the shape of the demagnetizing tensor.

use vstd::prelude::*;

verus! {

/// Largest accepted cell count along one axis. The bound keeps every
/// intermediate index computation (`idx + n - 1`, `2 * n + 1`, and the
/// signed corner coordinates) within `usize` and `i64` range on any
/// platform; it is far beyond any tensor that could be allocated.
pub const MAX_GRID_DIM: usize = 0x1000_0000;

/// One axis of the grid is acceptable: at least one cell, and small
/// enough that no index arithmetic can overflow.
pub open spec fn axis_ok(d: usize) -> bool {
    1 <= d && d <= MAX_GRID_DIM
}

/// The whole grid configuration is acceptable.
pub open spec fn grid_ok(n: [usize; 3]) -> bool {
    axis_ok(n[0]) && axis_ok(n[1]) && axis_ok(n[2])
}

/// A target index triple addresses the padded tensor: each entry lies in
/// `0 .. 2 * n_axis - 1`.
pub open spec fn idx_ok(idx: [usize; 3], n: [usize; 3]) -> bool {
    idx[0] <= 2 * n[0] - 2 && idx[1] <= 2 * n[1] - 2 && idx[2] <= 2 * n[2] - 2
}

/// The index-to-offset re-centering along one axis: the linear array
/// index is folded through the periodic modulus `2 * n + 1`.
pub open spec fn wrapped(idx: int, n: int) -> int {
    (idx + n - 1) % (2 * n + 1)
}

/// Checks the grid configuration, exactly `grid_ok`.
pub fn grid_valid(n: &[usize; 3]) -> (b: bool)
    ensures
        b == grid_ok(*n),
{
    n[0] >= 1 && n[0] <= MAX_GRID_DIM && n[1] >= 1 && n[1] <= MAX_GRID_DIM && n[2] >= 1
        && n[2] <= MAX_GRID_DIM
}

/// Re-centers one linear array index into the periodic offset
/// representation used by the stencil.
pub fn wrap_index(idx: usize, n: usize) -> (m: usize)
    requires
        axis_ok(n),
        idx <= 2 * n - 2,
    ensures
        m == wrapped(idx as int, n as int),
        m <= 2 * n,
{
    (idx + n - 1) % (2 * n + 1)
}

/// The shape of the demagnetizing tensor for an accepted configuration:
/// `(2*Nx-1, 2*Ny-1, 2*Nz-1, 6)`. Rejects (with `None`) exactly the
/// configurations that `grid_ok` refuses, before any assembly begins.
pub fn tensor_shape(n: [usize; 3]) -> (r: Option<[usize; 4]>)
    ensures
        match r {
            Some(s) => grid_ok(n) && s[0] == 2 * n[0] - 1 && s[1] == 2 * n[1] - 1 && s[2] == 2
                * n[2] - 1 && s[3] == 6,
            None => !grid_ok(n),
        },
{
    if grid_valid(&n) {
        Some([2 * n[0] - 1, 2 * n[1] - 1, 2 * n[2] - 1, 6])
    } else {
        None
    }
}

} // verus!
