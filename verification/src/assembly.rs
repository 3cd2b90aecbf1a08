//! Per-component stencil assembly: for one grid index and one tensor
//! component, the kernel selection and the 64 signed corners whose
//! kernel evaluations, summed and normalized by `-1 / (4*pi*dx*dy*dz)`,
//! give the tensor entry at that index and component.

use vstd::prelude::*;
use crate::bits::bits_of;
use crate::grid::{grid_ok, idx_ok};
use crate::plan::{component_plan, kernel_of, perm_of, Kernel};
use crate::stencil::{axis_corner, sign_of, stencil_corners};

verus! {

/// Coordinate `a` of corner `s` for tensor component `c`: the axis
/// permutation of the component table applied to the stencil geometry.
pub open spec fn component_coord(
    idx: [usize; 3],
    n: [usize; 3],
    c: int,
    s: Seq<u8>,
    a: int,
) -> int {
    axis_corner(idx, n, perm_of(c, a) as int, s)
}

/// The work list for one tensor entry `(idx, c)`: the kernel and axis
/// permutation the component table assigns to `c`, and the 64 signed
/// stencil corners at `idx` under that permutation, in ascending corner
/// order. Corner coordinate `a` is in lattice units along physical axis
/// `perm[a]`, so a consumer scales it by the cell size of that axis.
pub fn component_stencil(idx: [usize; 3], n: [usize; 3], c: usize) -> (r: (
    Kernel,
    [usize; 3],
    Vec<(i64, [i64; 3])>,
))
    requires
        grid_ok(n),
        idx_ok(idx, n),
        c < 6,
    ensures
        r.0 == kernel_of(c as int),
        forall|a: int| 0 <= a < 3 ==> (#[trigger] r.1[a]) == perm_of(c as int, a),
        r.2@.len() == 64,
        forall|t: int| 0 <= t < 64 ==> (#[trigger] r.2@[t]).0 == sign_of(bits_of(t as nat, 6)),
        forall|t: int, a: int|
            0 <= t < 64 && 0 <= a < 3 ==> (#[trigger] r.2@[t].1[a]) == component_coord(
                idx,
                n,
                c as int,
                bits_of(t as nat, 6),
                a,
            ),
{
    let (kernel, perm) = component_plan(c);
    let corners = stencil_corners(idx, n, perm);
    (kernel, perm, corners)
}

} // verus!
