//! Operations that rewrite a pattern: sign changes, the quantum, and the
//! passage to and from the interchange encoding.

use vstd::prelude::*;
use crate::decimal::d32;
use crate::fields::{
    negative, nan, signaling, infinite, finite, form_one, coefficient, biased_exponent,
    quantum_bits,
};

verus! {

impl d32 {
    /// The quantum of a value, as a pattern without sign.
    ///
    /// A NaN keeps its NaN marker and the low 19 bits of its payload, and a
    /// signaling NaN also its signaling bit. Every infinity gives the
    /// canonical positive infinity. A finite value keeps its exponent field
    /// in the form it has, and its trailing significand becomes one.
    pub open spec fn spec_quantum(&self) -> d32 {
        d32(quantum_bits(self@))
    }

    /// The pattern with its sign bit flipped.
    pub open spec fn spec_negate(&self) -> d32 {
        d32(self@ ^ 0x8000_0000)
    }

    /// The pattern with its sign bit cleared.
    pub open spec fn spec_abs(&self) -> d32 {
        d32(self@ & 0x7fff_ffff)
    }

    /// The pattern with the sign bit of `y` in place of its own.
    pub open spec fn spec_copy_sign(&self, y: &d32) -> d32 {
        d32((self@ & 0x7fff_ffff) | (y@ & 0x8000_0000))
    }

    /// Both are NaNs, or both are infinite, or both are finite with the
    /// same exponent field.
    pub open spec fn spec_same_quantum(&self, y: &d32) -> bool {
        ||| nan(self@) && nan(y@)
        ||| infinite(self@) && infinite(y@)
        ||| finite(self@) && finite(y@) && biased_exponent(self@) == biased_exponent(y@)
    }

    /// The quantum of the value. The result is never negative, is of the
    /// same kind as the operand (NaN, signaling NaN, infinite, finite), and
    /// for a finite operand has the operand's form and exponent field.
    #[verifier::when_used_as_spec(spec_quantum)]
    pub fn quantum(&self) -> (r: d32)
        ensures
            r == self.spec_quantum(),
            !negative(r@),
            nan(r@) == nan(self@),
            signaling(r@) == signaling(self@),
            infinite(r@) == infinite(self@),
            form_one(r@) == form_one(self@),
            biased_exponent(r@) == biased_exponent(self@),
            form_one(self@) ==> coefficient(r@) == 1,
            finite(self@) && !form_one(self@) ==> coefficient(r@) == 0x0080_0001,
    {
        let b: u32 = self.0;
        proof {
            let q: u32 = quantum_bits(b);
            assert(!negative(q) && nan(q) == nan(b) && signaling(q) == signaling(b) && infinite(q)
                == infinite(b) && form_one(q) == form_one(b) && biased_exponent(q)
                == biased_exponent(b) && (form_one(b) ==> coefficient(q) == 1) && (finite(b)
                && !form_one(b) ==> coefficient(q) == 0x0080_0001)) by (bit_vector)
                requires
                    q == quantum_bits(b),
            ;
        }
        if self.is_signaling() {
            d32(self.0 & 0x7e07_ffff)
        } else if self.is_nan() {
            d32(self.0 & 0x7c07_ffff)
        } else if self.is_infinite() {
            d32(0x7800_0000)
        } else if self.exponent_form_one() {
            d32((self.0 & 0x7f80_0001) | 0x0000_0001)
        } else {
            d32((self.0 & 0x7fe0_0001) | 0x0000_0001)
        }
    }

    /// The value with its sign bit flipped and every other bit unchanged.
    #[verifier::when_used_as_spec(spec_negate)]
    pub fn negate(&self) -> (r: d32)
        ensures
            r@ == self@ ^ 0x8000_0000,
            negative(r@) != negative(self@),
            r@ & 0x7fff_ffff == self@ & 0x7fff_ffff,
    {
        let b: u32 = self.0;
        assert(negative(b ^ 0x8000_0000) != negative(b) && (b ^ 0x8000_0000) & 0x7fff_ffff == b
            & 0x7fff_ffff) by (bit_vector);
        d32(self.0 ^ 0x8000_0000)
    }

    /// The value with its sign bit cleared and every other bit unchanged.
    #[verifier::when_used_as_spec(spec_abs)]
    pub fn abs(&self) -> (r: d32)
        ensures
            r@ == self@ & 0x7fff_ffff,
            !negative(r@),
            r@ & 0x7fff_ffff == self@ & 0x7fff_ffff,
    {
        let b: u32 = self.0;
        assert(!negative(b & 0x7fff_ffff) && (b & 0x7fff_ffff) & 0x7fff_ffff == b & 0x7fff_ffff)
            by (bit_vector);
        d32(self.0 & 0x7fff_ffff)
    }

    /// The value with the sign bit of `y` and every other bit its own.
    #[verifier::when_used_as_spec(spec_copy_sign)]
    pub fn copy_sign(&self, y: &d32) -> (r: d32)
        ensures
            r@ == (self@ & 0x7fff_ffff) | (y@ & 0x8000_0000),
            negative(r@) == negative(y@),
            r@ & 0x7fff_ffff == self@ & 0x7fff_ffff,
    {
        let b: u32 = self.0;
        let c: u32 = y.0;
        assert(negative((b & 0x7fff_ffff) | (c & 0x8000_0000)) == negative(c) && ((b & 0x7fff_ffff)
            | (c & 0x8000_0000)) & 0x7fff_ffff == b & 0x7fff_ffff) by (bit_vector);
        d32(self.abs().0 | (y.0 & 0x8000_0000))
    }

    /// The interchange encoding of the value, which is the value itself.
    pub fn encode_binary(&self) -> (r: d32)
        ensures
            r@ == self@,
    {
        d32(self.0)
    }

    /// The value of an interchange encoding, which is the encoding itself.
    pub fn decode_binary(&self) -> (r: d32)
        ensures
            r@ == self@,
    {
        d32(self.0)
    }

    /// True iff both values are NaNs, or both are infinite, or both are
    /// finite with the same exponent field.
    #[verifier::when_used_as_spec(spec_same_quantum)]
    pub fn same_quantum(&self, y: &d32) -> (r: bool)
        ensures
            r == self.spec_same_quantum(y),
    {
        (self.is_nan() && y.is_nan()) || (self.is_infinite() && y.is_infinite()) || (
        self.is_finite() && y.is_finite() && self.exponent() == y.exponent())
    }
}

} // verus!
