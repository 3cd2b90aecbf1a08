//! The component table: which Newell kernel and which axis permutation
//! each of the 6 independent symmetric-tensor components uses. The
//! component order is `(xx, yy, zz, xy, xz, yz)`.

use vstd::prelude::*;

verus! {

/// Which of the two Newell kernel functions a tensor component uses.
/// `F` is the self-interaction antiderivative (diagonal components),
/// `G` the mutual one (off-diagonal components).
#[derive(Clone, Copy, PartialEq, Eq, Structural, Debug)]
pub enum Kernel {
    F,
    G,
}

/// The kernel assigned to tensor component `c`.
pub open spec fn kernel_of(c: int) -> Kernel {
    if c == 0 || c == 3 || c == 5 {
        Kernel::F
    } else {
        Kernel::G
    }
}

/// Entry `a` of the axis permutation assigned to tensor component `c`:
/// which physical axis plays role `a` inside the kernel call.
pub open spec fn perm_of(c: int, a: int) -> usize {
    if c == 0 || c == 1 {
        if a == 0 {
            0usize
        } else if a == 1 {
            1
        } else {
            2
        }
    } else if c == 2 {
        if a == 0 {
            0
        } else if a == 1 {
            2
        } else {
            1
        }
    } else if c == 3 || c == 4 {
        if a == 0 {
            1
        } else if a == 1 {
            2
        } else {
            0
        }
    } else {
        if a == 0 {
            2
        } else if a == 1 {
            0
        } else {
            1
        }
    }
}

/// The full constant table, component index to (kernel, permutation).
pub fn component_table() -> (t: [(Kernel, [usize; 3]); 6])
    ensures
        forall|c: int| 0 <= c < 6 ==> (#[trigger] t[c]).0 == kernel_of(c),
        forall|c: int, a: int|
            0 <= c < 6 && 0 <= a < 3 ==> (#[trigger] t[c].1[a]) == perm_of(c, a),
{
    [
        (Kernel::F, [0usize, 1, 2]),
        (Kernel::G, [0usize, 1, 2]),
        (Kernel::G, [0usize, 2, 1]),
        (Kernel::F, [1usize, 2, 0]),
        (Kernel::G, [1usize, 2, 0]),
        (Kernel::F, [2usize, 0, 1]),
    ]
}

/// The (kernel, permutation) pair for one tensor component.
pub fn component_plan(c: usize) -> (r: (Kernel, [usize; 3]))
    requires
        c < 6,
    ensures
        r.0 == kernel_of(c as int),
        forall|a: int| 0 <= a < 3 ==> (#[trigger] r.1[a]) == perm_of(c as int, a),
        r.1[0] < 3 && r.1[1] < 3 && r.1[2] < 3,
        r.1[0] != r.1[1] && r.1[0] != r.1[2] && r.1[1] != r.1[2],
{
    let t = component_table();
    t[c]
}

} // verus!
