//! The 8-corner finite-difference stencil, in lattice units: for a grid
//! index triple it produces the 64 signed corner evaluations that the
//! tensor assembly sums (one kernel call each), before the kernel itself
//! and the cell-size scaling are applied.

use vstd::prelude::*;
use vstd::arithmetic::power2::{pow2, lemma2_to64};
use crate::bits::{bits_of, lemma_bits_of_shape, BinarySeq};
use crate::grid::{grid_ok, idx_ok, wrapped, wrap_index};

verus! {

/// Sum of the entries of a binary vector: the popcount of a stencil
/// corner vector.
pub open spec fn bit_sum(s: Seq<u8>) -> int
    decreases s.len(),
{
    if s.len() == 0 {
        0
    } else {
        bit_sum(s.drop_last()) + s.last()
    }
}

/// The sign `(-1)^popcount` attached to a stencil corner.
pub open spec fn sign_of(s: Seq<u8>) -> int {
    if bit_sum(s) % 2 == 0 {
        1
    } else {
        -1
    }
}

/// The permutation is three distinct axis roles out of `{0, 1, 2}`.
pub open spec fn perm_ok(perm: [usize; 3]) -> bool {
    perm[0] < 3 && perm[1] < 3 && perm[2] < 3 && perm[0] != perm[1] && perm[0] != perm[2]
        && perm[1] != perm[2]
}

/// The lattice coordinate contributed by physical axis `j` at the
/// stencil corner described by the length-6 binary vector `s`: the
/// wrapped index along that axis, shifted by the corner's low face bit
/// `s[j]` and high face bit `s[j + 3]`.
pub open spec fn axis_corner(idx: [usize; 3], n: [usize; 3], j: int, s: Seq<u8>) -> int {
    wrapped(idx[j] as int, n[j] as int) + s[j] - s[j + 3]
}

/// Coordinate `a` (in lattice units, before scaling by the cell size)
/// of the stencil corner described by the length-6 binary vector `s`,
/// under the axis permutation `perm`.
pub open spec fn corner_coord(
    idx: [usize; 3],
    n: [usize; 3],
    perm: [usize; 3],
    s: Seq<u8>,
    a: int,
) -> int {
    axis_corner(idx, n, perm[a] as int, s)
}

/// The sign of one corner vector, computed from its popcount parity.
pub fn corner_sign(v: &Vec<u8>) -> (s: i64)
    requires
        forall|j: int| 0 <= j < v@.len() ==> v@[j] <= 1,
    ensures
        s == sign_of(v@),
{
    let mut odd = false;
    let mut j: usize = 0;
    while j < v.len()
        invariant
            j <= v@.len(),
            forall|t: int| 0 <= t < v@.len() ==> v@[t] <= 1,
            odd == (bit_sum(v@.take(j as int)) % 2 == 1),
        decreases v@.len() - j,
    {
        proof {
            assert(v@.take(j as int + 1).drop_last() =~= v@.take(j as int));
            assert(v@.take(j as int + 1).last() == v@[j as int]);
        }
        if v[j] == 1 {
            odd = !odd;
        }
        j += 1;
    }
    proof {
        assert(v@.take(v@.len() as int) =~= v@);
    }
    if odd {
        -1
    } else {
        1
    }
}

/// The 64 signed corners of the finite-difference stencil at grid index
/// `idx`: entry `c` carries the sign and the three lattice coordinates
/// of the corner whose binary vector encodes `c`, in ascending corner
/// order.
pub fn stencil_corners(idx: [usize; 3], n: [usize; 3], perm: [usize; 3]) -> (r: Vec<
    (i64, [i64; 3]),
>)
    requires
        grid_ok(n),
        idx_ok(idx, n),
        perm_ok(perm),
    ensures
        r@.len() == 64,
        forall|c: int| 0 <= c < 64 ==> (#[trigger] r@[c]).0 == sign_of(bits_of(c as nat, 6)),
        forall|c: int, a: int|
            0 <= c < 64 && 0 <= a < 3 ==> (#[trigger] r@[c].1[a]) == corner_coord(
                idx,
                n,
                perm,
                bits_of(c as nat, 6),
                a,
            ),
{
    let m = [wrap_index(idx[0], n[0]), wrap_index(idx[1], n[1]), wrap_index(idx[2], n[2])];
    let mut corners = BinarySeq::new(6);
    let mut r: Vec<(i64, [i64; 3])> = Vec::new();
    proof {
        lemma2_to64();
    }
    let mut c: usize = 0;
    while c < 64
        invariant
            corners.wf(),
            corners.width() == 6,
            corners.pos() == c,
            c <= 64,
            pow2(6) == 64,
            grid_ok(n),
            idx_ok(idx, n),
            perm_ok(perm),
            m[0] == wrapped(idx[0] as int, n[0] as int),
            m[1] == wrapped(idx[1] as int, n[1] as int),
            m[2] == wrapped(idx[2] as int, n[2] as int),
            m[0] <= 2 * n[0] && m[1] <= 2 * n[1] && m[2] <= 2 * n[2],
            r@.len() == c,
            forall|t: int| 0 <= t < c ==> (#[trigger] r@[t]).0 == sign_of(bits_of(t as nat, 6)),
            forall|t: int, a: int|
                0 <= t < c && 0 <= a < 3 ==> (#[trigger] r@[t].1[a]) == corner_coord(
                    idx,
                    n,
                    perm,
                    bits_of(t as nat, 6),
                    a,
                ),
        decreases 64 - c,
    {
        let v = corners.next().unwrap();
        proof {
            lemma_bits_of_shape(c as nat, 6);
        }
        let s = corner_sign(&v);
        let j0 = perm[0];
        let j1 = perm[1];
        let j2 = perm[2];
        let x0 = m[j0] as i64 + v[j0] as i64 - v[j0 + 3] as i64;
        let x1 = m[j1] as i64 + v[j1] as i64 - v[j1 + 3] as i64;
        let x2 = m[j2] as i64 + v[j2] as i64 - v[j2 + 3] as i64;
        r.push((s, [x0, x1, x2]));
        c += 1;
    }
    r
}

} // verus!
