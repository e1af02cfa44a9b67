//! The bit cursor: a buffer of at most 1023 bits, read from the front and
//! written at the end.
use crate::bits::{byte_bits, Bits};
use crate::Error;
use vstd::prelude::*;

verus! {

/// The most bits that a cursor may hold.
pub const MAX_BITS: u16 = 1023;

/// The width of a fixed-width integer, in bits.
pub const INT_BITS: u16 = 257;

/// A 257-bit integer, its bits packed least-significant bit first into 33
/// bytes. Only the first 257 of the 264 bits belong to the value.
#[derive(Debug, Clone, Copy, PartialEq, Eq)]
pub struct Int257(pub [u8; 33]);

impl View for Int257 {
    type V = Seq<bool>;

    open spec fn view(&self) -> Seq<bool> {
        byte_bits(self.0@).take(257)
    }
}

impl Int257 {
    /// The integer whose 257 bits are those of `b`; the seven spare bits are
    /// clear.
    pub fn from_bits(b: &Bits) -> (r: Int257)
        requires
            b@.len() == 257,
        ensures
            r@ == b@,
    {
        let bytes = b.pack_257();
        let r = Int257(bytes);
        assert(r@ =~= b@) by {
            assert(byte_bits(bytes@) == b@ + Seq::new(7, |i: int| false));
        }
        r
    }
}

/// Loading `n` bits splits a cursor's bits in two: what is returned, the
/// first `n`, followed by what remains, `n` fewer than before, gives back the
/// bits held before.
pub proof fn load_bits_splits(s: Slice, n: u16)
    requires
        n <= s@.len(),
    ensures
        s@.take(n as int) + s@.skip(n as int) == s@,
        s@.take(n as int).len() == n,
        s@.skip(n as int).len() == s@.len() - n,
{
    assert(s@.take(n as int) + s@.skip(n as int) =~= s@);
}

/// An integer stored into an empty cursor and loaded back comes out bit for
/// bit as it went in, and leaves the cursor empty.
pub proof fn store_int_then_load_int(v: Int257)
    ensures
        v@.len() == 257,
        (Seq::<bool>::empty() + v@).take(257) == v@,
        (Seq::<bool>::empty() + v@).skip(257) == Seq::<bool>::empty(),
{
    assert(Seq::<bool>::empty() + v@ =~= v@);
    assert(v@.take(257) =~= v@);
    assert(v@.skip(257) =~= Seq::<bool>::empty());
}

/// A bounded bit cursor. Reads take bits from the front, stores append at the
/// end, and the length never exceeds 1023 bits.
#[derive(Debug)]
pub struct Slice {
    data: Bits,
}

impl View for Slice {
    type V = Seq<bool>;

    closed spec fn view(&self) -> Seq<bool> {
        self.data@
    }
}

impl Clone for Slice {
    /// A cursor over a copy of the same bits.
    fn clone(&self) -> (r: Slice)
        ensures
            r@ == self@,
    {
        proof {
            use_type_invariant(self);
        }
        Slice { data: self.data.duplicate() }
    }
}

impl Slice {
    #[verifier::type_invariant]
    closed spec fn inv(&self) -> bool {
        self.data@.len() <= MAX_BITS
    }

    /// A cursor over `data`, refused when `data` holds more than 1023 bits.
    pub fn new(data: Bits) -> (r: Result<Slice, Error>)
        ensures
            match r {
                Ok(s) => data@.len() <= 1023 && s@ == data@,
                Err(e) => data@.len() > 1023 && e == Error::CapacityExceeded,
            },
    {
        if data.len() <= MAX_BITS as usize {
            Ok(Slice { data })
        } else {
            Err(Error::CapacityExceeded)
        }
    }

    /// A cursor over a copy of the bits of `data`, with the same bound.
    pub fn from_bitslice(data: &Bits) -> (r: Result<Slice, Error>)
        ensures
            match r {
                Ok(s) => data@.len() <= 1023 && s@ == data@,
                Err(e) => data@.len() > 1023 && e == Error::CapacityExceeded,
            },
    {
        Slice::new(data.duplicate())
    }

    /// The number of bits held.
    pub fn len(&self) -> (r: u16)
        ensures
            r as int == self@.len(),
            r <= 1023,
    {
        proof {
            use_type_invariant(self);
        }
        self.data.len() as u16
    }

    /// An owned copy of the bits held.
    pub fn data(&self) -> (r: Bits)
        ensures
            r@ == self@,
    {
        self.data.duplicate()
    }

    /// The bits held, borrowed.
    pub fn to_bitslice(&self) -> (r: &Bits)
        ensures
            r@ == self@,
    {
        &self.data
    }

    /// The first `n` bits as a new cursor, leaving this one as it is; refused
    /// when fewer than `n` bits are held.
    pub fn preload_bits(&self, n: u16) -> (r: Result<Slice, Error>)
        ensures
            match r {
                Ok(s) => n <= self@.len() && s@ == self@.take(n as int),
                Err(e) => n > self@.len() && e == Error::Underflow,
            },
    {
        if self.len() < n {
            return Err(Error::Underflow);
        }
        proof {
            use_type_invariant(self);
        }
        Ok(Slice { data: self.data.range(0, n as usize) })
    }

    /// Takes the first `n` bits off the front as a new cursor; refused, with
    /// nothing taken, when fewer than `n` bits are held.
    pub fn load_bits(&mut self, n: u16) -> (r: Result<Slice, Error>)
        ensures
            match r {
                Ok(s) => {
                    &&& n <= old(self)@.len()
                    &&& s@ == old(self)@.take(n as int)
                    &&& final(self)@ == old(self)@.skip(n as int)
                },
                Err(e) => n > old(self)@.len() && e == Error::Underflow && *final(self) == *old(self),
            },
    {
        let head = match self.preload_bits(n) {
            Ok(s) => s,
            Err(e) => return Err(e),
        };
        self.drop_front(n);
        Ok(head)
    }

    /// Drops the first `n` bits, which must be held.
    fn drop_front(&mut self, n: u16)
        requires
            n <= old(self)@.len(),
        ensures
            final(self)@ == old(self)@.skip(n as int),
    {
        proof {
            use_type_invariant(&*self);
        }
        let len = self.data.len();
        let rest = self.data.range(n as usize, len);
        *self = Slice { data: rest };
    }

    /// Discards the first `n` bits; refused, with nothing discarded, when fewer
    /// than `n` bits are held.
    pub fn skip_bits(&mut self, n: u16) -> (r: Result<(), Error>)
        ensures
            match r {
                Ok(_) => n <= old(self)@.len() && final(self)@ == old(self)@.skip(n as int),
                Err(e) => n > old(self)@.len() && e == Error::Underflow && *final(self) == *old(self),
            },
    {
        if self.len() < n {
            return Err(Error::Underflow);
        }
        self.drop_front(n);
        Ok(())
    }

    /// Takes the first 257 bits off the front as an integer; refused, with
    /// nothing taken, when fewer are held.
    pub fn load_int(&mut self) -> (r: Result<Int257, Error>)
        ensures
            match r {
                Ok(v) => {
                    &&& 257 <= old(self)@.len()
                    &&& v@ == old(self)@.take(257)
                    &&& final(self)@ == old(self)@.skip(257)
                },
                Err(e) => old(self)@.len() < 257 && e == Error::Underflow && *final(self) == *old(self),
            },
    {
        match self.load_bits(INT_BITS) {
            Ok(s) => Ok(Int257::from_bits(&s.data)),
            Err(e) => Err(e),
        }
    }

    /// The first 257 bits as an integer, leaving this cursor as it is; refused
    /// when fewer are held.
    pub fn preload_int(&self) -> (r: Result<Int257, Error>)
        ensures
            match r {
                Ok(v) => 257 <= self@.len() && v@ == self@.take(257),
                Err(e) => self@.len() < 257 && e == Error::Underflow,
            },
    {
        match self.preload_bits(INT_BITS) {
            Ok(s) => Ok(Int257::from_bits(&s.data)),
            Err(e) => Err(e),
        }
    }

    /// Appends all 257 bits of `a`; refused, with nothing appended, when the
    /// result would exceed 1023 bits.
    pub fn store_int(&mut self, a: Int257) -> (r: Result<(), Error>)
        ensures
            match r {
                Ok(_) => old(self)@.len() + 257 <= 1023 && final(self)@ == old(self)@ + a@,
                Err(e) => {
                    &&& old(self)@.len() + 257 > 1023
                    &&& e == Error::CapacityExceeded
                    &&& *final(self) == *old(self)
                },
            },
    {
        if self.len() + INT_BITS > MAX_BITS {
            return Err(Error::CapacityExceeded);
        }
        let bits = Bits::from_bytes(&a.0, INT_BITS as usize);
        self.append(&bits);
        Ok(())
    }

    /// Appends bits that fit.
    fn append(&mut self, bits: &Bits)
        requires
            old(self)@.len() + bits@.len() <= 1023,
        ensures
            final(self)@ == old(self)@ + bits@,
    {
        let mut data = self.data.duplicate();
        data.extend(bits);
        *self = Slice { data };
    }

    /// Appends all bits of `a`; refused, with nothing appended, when the result
    /// would exceed 1023 bits.
    pub fn store_slice(&mut self, a: Slice) -> (r: Result<(), Error>)
        ensures
            match r {
                Ok(_) => old(self)@.len() + a@.len() <= 1023 && final(self)@ == old(self)@ + a@,
                Err(e) => {
                    &&& old(self)@.len() + a@.len() > 1023
                    &&& e == Error::CapacityExceeded
                    &&& *final(self) == *old(self)
                },
            },
    {
        if self.len() as u32 + a.len() as u32 > MAX_BITS as u32 {
            return Err(Error::CapacityExceeded);
        }
        self.append(&a.data);
        Ok(())
    }

    /// Appends the first `n` bits of `a`, each byte read least-significant bit
    /// first; refused, with nothing appended, when the result would exceed 1023
    /// bits. `a` must hold at least `n` bits.
    pub fn store_int_as_slice(&mut self, a: &[u8], n: u16) -> (r: Result<(), Error>)
        requires
            n <= 8 * a@.len(),
            a@.len() * 64 <= usize::MAX,
        ensures
            match r {
                Ok(_) => {
                    &&& old(self)@.len() + n <= 1023
                    &&& final(self)@ == old(self)@ + byte_bits(a@).take(n as int)
                },
                Err(e) => {
                    &&& old(self)@.len() + n > 1023
                    &&& e == Error::CapacityExceeded
                    &&& *final(self) == *old(self)
                },
            },
    {
        if self.len() as u32 + n as u32 > MAX_BITS as u32 {
            return Err(Error::CapacityExceeded);
        }
        let bits = Bits::from_bytes(a, n as usize);
        self.append(&bits);
        Ok(())
    }

    /// Appends one bit; refused, with nothing appended, when 1023 bits are
    /// already held.
    pub fn store_bool(&mut self, a: bool) -> (r: Result<(), Error>)
        ensures
            match r {
                Ok(_) => old(self)@.len() <= 1022 && final(self)@ == old(self)@.push(a),
                Err(e) => old(self)@.len() > 1022 && e == Error::CapacityExceeded && *final(self) == *old(self),
            },
    {
        if self.len() > MAX_BITS - 1 {
            return Err(Error::CapacityExceeded);
        }
        let mut data = self.data.duplicate();
        data.push(a);
        *self = Slice { data };
        Ok(())
    }
}

} // verus!
