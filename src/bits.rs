//! A growable bit container backed by the `bitvec` crate.
//!
//! The contents of a `Bits` value are named by `bits_of`; every operation that
//! touches the underlying vector states its effect on that sequence.
use bitvec::slice::BitSlice;
use bitvec::vec::BitVec;
use vstd::prelude::*;

verus! {

/// An owned, growable sequence of bits, stored least-significant bit first in
/// bytes.
#[derive(Debug)]
#[verifier::external_body]
pub struct Bits(pub BitVec<u8>);

/// The bits that a `Bits` value holds, in index order.
pub uninterp spec fn bits_of(b: Bits) -> Seq<bool>;

/// Bit `i` of a byte string, least-significant bit of each byte first.
pub open spec fn byte_bit(bytes: Seq<u8>, i: int) -> bool {
    (bytes[i / 8] >> ((i % 8) as u8)) & 1u8 == 1u8
}

/// All bits of a byte string, in the order in which a byte slice is read as bits.
pub open spec fn byte_bits(bytes: Seq<u8>) -> Seq<bool> {
    Seq::new(8 * bytes.len(), |i: int| byte_bit(bytes, i))
}

impl View for Bits {
    type V = Seq<bool>;

    open spec fn view(&self) -> Seq<bool> {
        bits_of(*self)
    }
}

impl Bits {
    /// Relies on `BitVec::new`: a vector that holds no bit.
    #[verifier::external_body]
    pub(crate) fn new() -> (r: Bits)
        ensures
            bits_of(r) == Seq::<bool>::empty(),
    {
        Bits(BitVec::new())
    }

    /// Relies on `BitSlice::len`: the number of bits held.
    #[verifier::external_body]
    pub(crate) fn len(&self) -> (r: usize)
        ensures
            r == bits_of(*self).len(),
    {
        self.0.len()
    }

    /// Relies on `BitSlice`'s `Index<usize>`: the bit at index `i`.
    #[verifier::external_body]
    pub(crate) fn get(&self, i: usize) -> (r: bool)
        requires
            i < bits_of(*self).len(),
        ensures
            r == bits_of(*self)[i as int],
    {
        self.0[i]
    }

    /// Relies on `BitVec::push`: appends one bit at the end.
    #[verifier::external_body]
    pub(crate) fn push(&mut self, b: bool)
        ensures
            bits_of(*final(self)) == bits_of(*old(self)).push(b),
    {
        self.0.push(b)
    }

    /// Relies on `BitSlice`'s `Index<Range<usize>>` and `BitSlice::to_bitvec`:
    /// an owned copy of the bits from `lo` up to, not including, `hi`.
    #[verifier::external_body]
    pub(crate) fn range(&self, lo: usize, hi: usize) -> (r: Bits)
        requires
            lo <= hi <= bits_of(*self).len(),
        ensures
            bits_of(r) == bits_of(*self).subrange(lo as int, hi as int),
    {
        Bits(self.0[lo..hi].to_bitvec())
    }

    /// Relies on `BitVec::extend_from_bitslice`: appends all bits of `other`.
    #[verifier::external_body]
    pub(crate) fn extend(&mut self, other: &Bits)
        ensures
            bits_of(*final(self)) == bits_of(*old(self)) + bits_of(*other),
    {
        self.0.extend_from_bitslice(other.0.as_bitslice())
    }

    /// Relies on `BitVec::clone`: an independent copy of the same bits.
    #[verifier::external_body]
    pub(crate) fn duplicate(&self) -> (r: Bits)
        ensures
            bits_of(r) == bits_of(*self),
    {
        Bits(self.0.clone())
    }

    /// Relies on `BitSlice::from_slice`, its `Index<RangeTo<usize>>` and
    /// `BitSlice::to_bitvec`: the first `n` bits of `bytes`, each byte read
    /// least-significant bit first. `from_slice` panics on slices too long to
    /// address by bit, which the bound on the length of `bytes` rules out.
    #[verifier::external_body]
    pub(crate) fn from_bytes(bytes: &[u8], n: usize) -> (r: Bits)
        requires
            bytes@.len() * 64 <= usize::MAX,
            n <= 8 * bytes@.len(),
        ensures
            bits_of(r) == byte_bits(bytes@).take(n as int),
    {
        Bits(BitSlice::<u8>::from_slice(bytes)[..n].to_bitvec())
    }

    /// Relies on `BitArray::ZERO`, `BitSlice::copy_from_bitslice` and
    /// `BitArray::into_inner`: the 257 bits held, packed least-significant bit
    /// first into 33 bytes whose last seven bits stay clear. `copy_from_bitslice`
    /// panics unless both sides have the same length, here 257.
    #[verifier::external_body]
    pub(crate) fn pack_257(&self) -> (r: [u8; 33])
        requires
            bits_of(*self).len() == 257,
        ensures
            byte_bits(r@) == bits_of(*self) + Seq::new(7, |i: int| false),
    {
        let mut a = bitvec::array::BitArray::<[u8; 33]>::ZERO;
        a[..257].copy_from_bitslice(self.0.as_bitslice());
        a.into_inner()
    }

    /// The bits of `b`, in order.
    pub fn from_bools(b: &Vec<bool>) -> (r: Bits)
        ensures
            r@ == b@,
    {
        let mut r = Bits::new();
        let mut i: usize = 0;
        while i < b.len()
            invariant
                i <= b@.len(),
                r@ == b@.take(i as int),
            decreases b@.len() - i,
        {
            r.push(b[i]);
            i = i + 1;
            assert(b@.take(i as int) == b@.take(i - 1).push(b@[i - 1]));
        }
        assert(b@.take(b@.len() as int) == b@);
        r
    }

    /// The bits held, as a vector of booleans.
    pub fn to_bools(&self) -> (r: Vec<bool>)
        ensures
            r@ == self@,
    {
        let mut r: Vec<bool> = Vec::new();
        let n = self.len();
        let mut i: usize = 0;
        while i < n
            invariant
                n == self@.len(),
                i <= n,
                r@ == self@.take(i as int),
            decreases n - i,
        {
            r.push(self.get(i));
            i = i + 1;
            assert(self@.take(i as int) == self@.take(i - 1).push(self@[i - 1]));
        }
        assert(self@.take(n as int) == self@);
        r
    }
}

} // verus!
