//! A borrowed, read-only bit-level set of capability codes.
//!
//! A device's supported capabilities arrive as a raw little-endian bit
//! buffer: bit `i` (bit `i % 8` of byte `i / 8`) is set iff the device
//! supports the code whose zero-based index is `i`.  [`AttributeSet`]
//! is a view over such a buffer, indexed by any code type that
//! implements the [`EvdevEnum`] contract.

use vstd::prelude::*;

verus! {

/// The capability code contract: a total, pure, bidirectional mapping
/// between an opaque code value and a zero-based index.
///
/// Every implementer must prove the round-trip laws: mapping a code to
/// its index and back yields the same code, and mapping an in-range
/// index to a code and back yields the same index.
pub trait EvdevEnum: Copy + Sized {
    /// The zero-based index of this code.
    spec fn spec_to_index(self) -> int;

    /// The code whose zero-based index is `i`.
    spec fn spec_from_index(i: int) -> Self;

    /// Indices below this bound map to pairwise distinct codes.
    spec fn spec_index_limit() -> int;

    fn to_index(self) -> (r: usize)
        ensures
            r == self.spec_to_index(),
    ;

    fn from_index(i: usize) -> (r: Self)
        ensures
            r == Self::spec_from_index(i as int),
    ;

    /// Round-trip law: `from_index(to_index(c)) == c` for every code `c`.
    proof fn lemma_from_to(self)
        ensures
            Self::spec_from_index(self.spec_to_index()) == self,
    ;

    /// Round-trip law on indices: `to_index(from_index(i)) == i` for
    /// every index below the limit.
    proof fn lemma_to_from(i: int)
        requires
            0 <= i < Self::spec_index_limit(),
        ensures
            Self::spec_from_index(i).spec_to_index() == i,
    ;
}

/// Bit `i` of the buffer, in little-endian bit order within each byte.
/// An index outside the buffer reads as unset.
pub open spec fn bit_index_set(buf: Seq<u8>, i: int) -> bool {
    &&& 0 <= i < buf.len() * 8
    &&& (buf[i / 8] >> ((i % 8) as u8)) & 1u8 == 1u8
}

/// The indices below `n` whose bit is set, in ascending order.
pub open spec fn set_indices_up_to(buf: Seq<u8>, n: int) -> Seq<int>
    decreases n,
{
    if n <= 0 {
        Seq::empty()
    } else if bit_index_set(buf, n - 1) {
        set_indices_up_to(buf, n - 1).push(n - 1)
    } else {
        set_indices_up_to(buf, n - 1)
    }
}

/// All indices whose bit is set, in ascending order.
pub open spec fn set_indices(buf: Seq<u8>) -> Seq<int> {
    set_indices_up_to(buf, buf.len() as int * 8)
}

/// The codes an iteration over the buffer yields: the set indices in
/// ascending order, each mapped through the code contract.
pub open spec fn iter_codes<T: EvdevEnum>(buf: Seq<u8>) -> Seq<T> {
    set_indices(buf).map_values(|i: int| T::spec_from_index(i))
}

/// An immutable, borrowed view over a raw bit buffer, interpreted as a
/// set of codes of type `T`.  The view never owns the buffer.
pub struct AttributeSet<'a, T> {
    bits: &'a [u8],
    _indexer: core::marker::PhantomData<T>,
}

impl<'a, T> View for AttributeSet<'a, T> {
    type V = Seq<u8>;

    closed spec fn view(&self) -> Seq<u8> {
        self.bits@
    }
}

impl<'a, T: EvdevEnum> AttributeSet<'a, T> {
    /// Wrap a raw bit buffer.
    pub fn new(bitslice: &'a [u8]) -> (r: Self)
        ensures
            r@ == bitslice@,
    {
        AttributeSet { bits: bitslice, _indexer: core::marker::PhantomData }
    }

    /// The byte length of the underlying bit buffer.
    pub fn buffer_len(&self) -> (r: usize)
        ensures
            r == self@.len(),
    {
        self.bits.len()
    }

    /// True iff the bit at the code's index is set.  A code whose index
    /// falls outside the buffer is reported absent, never an error.
    pub fn contains(&self, attr: T) -> (r: bool)
        ensures
            r == bit_index_set(self@, attr.spec_to_index()),
    {
        let idx = attr.to_index();
        let byte_i = idx / 8;
        if byte_i < self.bits.len() {
            let b = self.bits[byte_i];
            let shift: u8 = (idx % 8) as u8;
            proof {
                assert(idx as int / 8 == byte_i as int);
                assert(byte_i < self.bits@.len() ==> idx < self.bits@.len() * 8) by (nonlinear_arith)
                    requires
                        byte_i == idx / 8,
                ;
            }
            (b >> shift) & 1u8 == 1u8
        } else {
            proof {
                assert(idx as int >= self.bits@.len() * 8) by (nonlinear_arith)
                    requires
                        idx / 8 >= self.bits@.len(),
                ;
            }
            false
        }
    }

    /// The codes whose bits are set, visited in ascending index order.
    /// Re-invocation yields an identical sequence: the result is a pure
    /// function of the underlying buffer.
    pub fn iter(&self) -> (r: Vec<T>)
        requires
            self@.len() * 8 <= usize::MAX,
        ensures
            r@ == iter_codes::<T>(self@),
    {
        let ghost buf = self.bits@;
        let mut out: Vec<T> = Vec::new();
        let mut byte_i: usize = 0;
        while byte_i < self.bits.len()
            invariant
                byte_i <= buf.len(),
                buf == self.bits@,
                buf.len() * 8 <= usize::MAX,
                out@ == set_indices_up_to(buf, byte_i as int * 8).map_values(
                    |i: int| T::spec_from_index(i),
                ),
            decreases buf.len() - byte_i,
        {
            let b = self.bits[byte_i];
            let mut bit: usize = 0;
            while bit < 8
                invariant
                    bit <= 8,
                    byte_i < buf.len(),
                    buf == self.bits@,
                    buf.len() * 8 <= usize::MAX,
                    b == buf[byte_i as int],
                    out@ == set_indices_up_to(buf, byte_i as int * 8 + bit).map_values(
                        |i: int| T::spec_from_index(i),
                    ),
                decreases 8 - bit,
            {
                proof {
                    assert(byte_i as int * 8 + bit < buf.len() * 8) by (nonlinear_arith)
                        requires
                            byte_i < buf.len(),
                            bit < 8,
                    ;
                }
                let idx: usize = byte_i * 8 + bit;
                proof {
                    assert(idx as int / 8 == byte_i as int && idx as int % 8 == bit as int)
                        by (nonlinear_arith)
                        requires
                            idx == byte_i as int * 8 + bit,
                            0 <= bit < 8,
                            byte_i >= 0,
                    ;
                    assert(set_indices_up_to(buf, idx as int + 1) == if bit_index_set(buf, idx as int) {
                        set_indices_up_to(buf, idx as int).push(idx as int)
                    } else {
                        set_indices_up_to(buf, idx as int)
                    });
                }
                if (b >> (bit as u8)) & 1u8 == 1u8 {
                    out.push(T::from_index(idx));
                    proof {
                        assert(bit_index_set(buf, idx as int));
                        assert(out@ =~= set_indices_up_to(buf, idx as int + 1).map_values(
                            |i: int| T::spec_from_index(i),
                        ));
                    }
                } else {
                    proof {
                        assert(!bit_index_set(buf, idx as int));
                    }
                }
                bit = bit + 1;
            }
            byte_i = byte_i + 1;
        }
        proof {
            assert(out@ =~= iter_codes::<T>(buf));
        }
        out
    }
}

/// Every index in `set_indices_up_to(buf, n)` lies below `n` and has
/// its bit set, and the sequence is strictly ascending.
pub proof fn lemma_set_indices_up_to_sound(buf: Seq<u8>, n: int)
    ensures
        forall|k: int|
            0 <= k < set_indices_up_to(buf, n).len() ==> bit_index_set(
                buf,
                #[trigger] set_indices_up_to(buf, n)[k],
            ) && set_indices_up_to(buf, n)[k] < n,
        forall|k1: int, k2: int|
            0 <= k1 < k2 < set_indices_up_to(buf, n).len() ==> #[trigger] set_indices_up_to(
                buf,
                n,
            )[k1] < #[trigger] set_indices_up_to(buf, n)[k2],
    decreases n,
{
    if n > 0 {
        lemma_set_indices_up_to_sound(buf, n - 1);
        let prev = set_indices_up_to(buf, n - 1);
        let cur = set_indices_up_to(buf, n);
        if bit_index_set(buf, n - 1) {
            assert(cur == prev.push(n - 1));
            assert(forall|k: int| 0 <= k < prev.len() ==> cur[k] == #[trigger] prev[k]);
            assert(cur[cur.len() - 1] == n - 1);
        } else {
            assert(cur == prev);
        }
    }
}

/// Every index below `n` whose bit is set occurs in
/// `set_indices_up_to(buf, n)`.
pub proof fn lemma_set_indices_up_to_complete(buf: Seq<u8>, n: int, i: int)
    requires
        0 <= i < n,
        bit_index_set(buf, i),
    ensures
        set_indices_up_to(buf, n).contains(i),
    decreases n,
{
    if i < n - 1 {
        lemma_set_indices_up_to_complete(buf, n - 1, i);
        assert(set_indices_up_to(buf, n - 1).contains(i));
        let k = choose|k: int|
            0 <= k < set_indices_up_to(buf, n - 1).len() && #[trigger] set_indices_up_to(
                buf,
                n - 1,
            )[k] == i;
        assert(set_indices_up_to(buf, n)[k] == i);
    } else {
        assert(set_indices_up_to(buf, n).last() == i);
    }
}

/// A capability check is total: an index at or past the end of the
/// buffer is reported absent, never a failure.
pub proof fn lemma_contains_out_of_range(buf: Seq<u8>, i: int)
    requires
        i >= buf.len() * 8,
    ensures
        !bit_index_set(buf, i),
{
}

/// Iteration yields exactly the codes whose indices have their bit
/// set, in strictly ascending index order: every yielded code's bit is
/// set, the indices strictly ascend, and every set bit is represented
/// by some yielded code.
pub proof fn lemma_iter_codes_exact<T: EvdevEnum>(buf: Seq<u8>)
    requires
        buf.len() * 8 <= T::spec_index_limit(),
    ensures
        forall|k: int|
            0 <= k < iter_codes::<T>(buf).len() ==> bit_index_set(
                buf,
                (#[trigger] iter_codes::<T>(buf)[k]).spec_to_index(),
            ),
        forall|k1: int, k2: int|
            0 <= k1 < k2 < iter_codes::<T>(buf).len() ==> (#[trigger] iter_codes::<T>(
                buf,
            )[k1]).spec_to_index() < (#[trigger] iter_codes::<T>(buf)[k2]).spec_to_index(),
        forall|i: int|
            #[trigger] bit_index_set(buf, i) ==> exists|k: int|
                0 <= k < iter_codes::<T>(buf).len() && (#[trigger] iter_codes::<T>(
                    buf,
                )[k]).spec_to_index() == i,
{
    let n = buf.len() as int * 8;
    let s = set_indices(buf);
    let codes = iter_codes::<T>(buf);
    lemma_set_indices_up_to_sound(buf, n);
    assert forall|k: int| 0 <= k < codes.len() implies bit_index_set(
        buf,
        (#[trigger] codes[k]).spec_to_index(),
    ) && codes[k].spec_to_index() == s[k] by {
        assert(bit_index_set(buf, s[k]));
        assert(0 <= s[k] < n);
        T::lemma_to_from(s[k]);
    }
    assert forall|i: int| #[trigger] bit_index_set(buf, i) implies exists|k: int|
        0 <= k < codes.len() && (#[trigger] codes[k]).spec_to_index() == i by {
        lemma_set_indices_up_to_complete(buf, n, i);
        let k = choose|k: int| 0 <= k < s.len() && #[trigger] s[k] == i;
        assert(codes[k].spec_to_index() == i);
    }
}

/// Iteration is restartable: two results of iterating the same buffer
/// are the same sequence.
pub proof fn lemma_iter_restartable<T: EvdevEnum>(buf: Seq<u8>, first: Seq<T>, second: Seq<T>)
    requires
        first == iter_codes::<T>(buf),
        second == iter_codes::<T>(buf),
    ensures
        first == second,
{
}

} // verus!
