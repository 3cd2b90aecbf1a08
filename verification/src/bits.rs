//! Binary-vector enumeration: every vector of a fixed length `k`, in
//! ascending order of the big-endian integer each vector encodes. The
//! stencil uses the length-6 vectors as the corners of its
//! finite-difference cell.

use vstd::prelude::*;
use vstd::arithmetic::power2::{pow2, lemma_pow2_unfold, lemma2_to64};
use vstd::bits::{lemma_u64_pow2_no_overflow, lemma_u64_shl_is_mul};

verus! {

/// The big-endian binary vector of length `k` encoding the integer `v`:
/// element `k-1` is the least significant bit of `v`.
pub open spec fn bits_of(v: nat, k: nat) -> Seq<u8>
    decreases k,
{
    if k == 0 {
        Seq::empty()
    } else {
        bits_of(v / 2, (k - 1) as nat).push((v % 2) as u8)
    }
}

/// The integer a binary vector encodes when read big-endian.
pub open spec fn val_of(s: Seq<u8>) -> int
    decreases s.len(),
{
    if s.len() == 0 {
        0
    } else {
        2 * val_of(s.drop_last()) + s.last()
    }
}

/// `bits_of(v, k)` has length `k` and every element is a bit.
pub proof fn lemma_bits_of_shape(v: nat, k: nat)
    ensures
        bits_of(v, k).len() == k,
        forall|j: int| 0 <= j < k ==> bits_of(v, k)[j] <= 1,
    decreases k,
{
    if k > 0 {
        lemma_bits_of_shape(v / 2, (k - 1) as nat);
        assert forall|j: int| 0 <= j < k implies bits_of(v, k)[j] <= 1 by {
            if j < k - 1 {
                assert(bits_of(v, k)[j] == bits_of(v / 2, (k - 1) as nat)[j]);
            }
        }
    }
}

/// The enumeration order law: the vector produced for counter value `v`
/// reads back, as a big-endian integer, to `v` itself. Consecutive
/// counter values therefore yield vectors encoding consecutive integers.
pub proof fn lemma_bits_of_value(v: nat, k: nat)
    requires
        v < pow2(k),
    ensures
        val_of(bits_of(v, k)) == v,
    decreases k,
{
    if k == 0 {
        lemma2_to64();
    } else {
        lemma_pow2_unfold(k);
        lemma_bits_of_value(v / 2, (k - 1) as nat);
        let s = bits_of(v / 2, (k - 1) as nat);
        let b = (v % 2) as u8;
        assert(s.push(b).drop_last() =~= s);
        assert(val_of(s.push(b)) == 2 * val_of(s) + b);
    }
}

/// The uniqueness law: over one full enumeration of length-`k` vectors,
/// no vector appears twice — distinct counter values give distinct
/// vectors.
pub proof fn lemma_bits_of_distinct(a: nat, b: nat, k: nat)
    requires
        a < pow2(k),
        b < pow2(k),
        a != b,
    ensures
        bits_of(a, k) != bits_of(b, k),
{
    lemma_bits_of_value(a, k);
    lemma_bits_of_value(b, k);
}

/// Appends the big-endian binary vector of `v` (width `k`) to `out`.
fn push_bits(v: u64, k: usize, out: &mut Vec<u8>)
    ensures
        final(out)@ == old(out)@ + bits_of(v as nat, k as nat),
    decreases k,
{
    if k > 0 {
        push_bits(v / 2, k - 1, out);
        out.push((v % 2) as u8);
        proof {
            let tail = bits_of((v / 2) as nat, (k - 1) as nat);
            let b = ((v as nat) % 2) as u8;
            assert((old(out)@ + tail).push(b) =~= old(out)@ + tail.push(b));
        }
    } else {
        proof {
            assert(old(out)@ + Seq::<u8>::empty() =~= old(out)@);
        }
    }
}

/// A restartable enumerator of all `2^k` binary vectors of length `k`,
/// emitted in ascending order of their big-endian integer value. It
/// allocates nothing between vectors beyond the vector handed out, and
/// each emitted vector is owned by the caller.
pub struct BinarySeq {
    len: usize,
    cur: u64,
    cap: u64,
}

impl BinarySeq {
    /// The vector length this enumerator was built for.
    pub closed spec fn width(self) -> nat {
        self.len as nat
    }

    /// How many vectors have been emitted so far; also the integer the
    /// next vector will encode.
    pub closed spec fn pos(self) -> nat {
        self.cur as nat
    }

    pub closed spec fn wf(self) -> bool {
        self.len < 64 && self.cap == pow2(self.len as nat) && self.cur <= self.cap
    }

    /// A fresh enumerator over the `2^k` binary vectors of length `k`.
    pub fn new(k: usize) -> (s: Self)
        requires
            k < 64,
        ensures
            s.wf(),
            s.width() == k,
            s.pos() == 0,
    {
        proof {
            lemma_u64_pow2_no_overflow(k as nat);
            lemma_u64_shl_is_mul(1u64, k as u64);
        }
        BinarySeq { len: k, cur: 0, cap: 1u64 << (k as u64) }
    }

    /// Rewinds the enumeration to its first vector.
    pub fn reset(&mut self)
        requires
            old(self).wf(),
        ensures
            final(self).wf(),
            final(self).width() == old(self).width(),
            final(self).pos() == 0,
    {
        self.cur = 0;
    }

    /// The next vector: the big-endian encoding of the current counter,
    /// or `None` once all `2^k` vectors have been emitted.
    pub fn next(&mut self) -> (r: Option<Vec<u8>>)
        requires
            old(self).wf(),
        ensures
            final(self).wf(),
            final(self).width() == old(self).width(),
            old(self).pos() < pow2(old(self).width()) ==> (r matches Some(v)
                && v@ == bits_of(old(self).pos(), old(self).width())
                && final(self).pos() == old(self).pos() + 1),
            old(self).pos() >= pow2(old(self).width()) ==> r is None && final(self).pos() == old(
                self,
            ).pos(),
    {
        if self.cur < self.cap {
            let mut v: Vec<u8> = Vec::new();
            push_bits(self.cur, self.len, &mut v);
            self.cur = self.cur + 1;
            Some(v)
        } else {
            None
        }
    }
}

} // verus!
