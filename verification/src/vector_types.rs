//! Integer vector types laid out as the platform's SIMD types are.
use vstd::prelude::*;

verus! {

/// Vector of two unsigned 32-bit integers, packed into one 64-bit word:
/// `x` in the low half and `y` in the high half.
#[derive(Copy, Clone, Debug)]
pub struct vector_uint2 {
    _private: u64,
}

/// The word that holds `x` in its low half and `y` in its high half.
pub open spec fn pack_uint2(x: u32, y: u32) -> u64 {
    (x as u64 + y as u64 * 0x1_0000_0000) as u64
}

impl vector_uint2 {
    /// The packed word.
    pub closed spec fn bits(self) -> u64 {
        self._private
    }

    /// The x portion, as a mathematical value.
    pub open spec fn spec_x(self) -> u32 {
        (self.bits() % 0x1_0000_0000) as u32
    }

    /// The y portion, as a mathematical value.
    pub open spec fn spec_y(self) -> u32 {
        (self.bits() / 0x1_0000_0000) as u32
    }

    /// The pair `(x, y)` that the vector stands for.
    pub open spec fn view(self) -> (u32, u32) {
        (self.spec_x(), self.spec_y())
    }

    /// Creates a vector from the given x and y values.
    pub fn new(x: u32, y: u32) -> (v: Self)
        ensures
            v.bits() == pack_uint2(x, y),
            v.spec_x() == x,
            v.spec_y() == y,
            v@ == (x, y),
    {
        let lo: u64 = x as u64;
        let hi: u64 = y as u64;
        assert(((y as u64) << 32) == (y as u64) * 0x1_0000_0000) by (bit_vector);
        let word: u64 = lo + (hi << 32);
        vector_uint2 { _private: word }
    }

    /// Returns the x portion of the vector.
    #[inline]
    pub fn x(self) -> (r: u32)
        ensures
            r == self.spec_x(),
            r == self@.0,
    {
        let w: u64 = self._private;
        assert((w & 0xffff_ffff) == w % 0x1_0000_0000) by (bit_vector);
        (w & 0xffff_ffff) as u32
    }

    /// Returns the y portion of the vector.
    #[inline]
    pub fn y(self) -> (r: u32)
        ensures
            r == self.spec_y(),
            r == self@.1,
    {
        let w: u64 = self._private;
        assert(((w >> 32) & 0xffff_ffff) == w / 0x1_0000_0000) by (bit_vector);
        ((w >> 32) & 0xffff_ffff) as u32
    }
}

impl Default for vector_uint2 {
    /// The zero vector.
    fn default() -> (v: Self)
        ensures
            v@ == (0u32, 0u32),
    {
        vector_uint2 { _private: 0 }
    }
}

/// Every pair of components is the view of exactly the vector built from it,
/// and a vector is determined by its two components.
pub proof fn lemma_uint2_round_trip(v: vector_uint2)
    ensures
        v.bits() == pack_uint2(v.spec_x(), v.spec_y()),
{
}

/// Two vectors with the same components hold the same word.
pub proof fn lemma_uint2_injective(a: vector_uint2, b: vector_uint2)
    requires
        a@ == b@,
    ensures
        a.bits() == b.bits(),
{
    lemma_uint2_round_trip(a);
    lemma_uint2_round_trip(b);
}

} // verus!
