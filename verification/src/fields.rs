//! The bit layout of a decimal32 pattern, as spec functions on `u32`.
//!
//! Bit 31 is the sign. Bits 30 to 20 are the combination field, which holds
//! the exponent, the leading significand bits and the markers of infinity
//! and NaN. The remaining low bits are the trailing significand.

use vstd::prelude::*;

verus! {

/// The sign bit is set.
pub open spec fn negative(b: u32) -> bool {
    b & 0x8000_0000 == 0x8000_0000
}

/// The five leading bits of the combination field are all set.
pub open spec fn nan(b: u32) -> bool {
    b & 0x7c00_0000 == 0x7c00_0000
}

/// A NaN whose sixth combination bit is set as well.
pub open spec fn signaling(b: u32) -> bool {
    b & 0x7e00_0000 == 0x7e00_0000
}

/// The four leading bits of the combination field are set, the fifth is not.
pub open spec fn infinite(b: u32) -> bool {
    !nan(b) && b & 0x7800_0000 == 0x7800_0000
}

/// Neither infinite nor NaN.
pub open spec fn finite(b: u32) -> bool {
    !(infinite(b) || nan(b))
}

/// A finite pattern whose two leading combination bits are not both set:
/// the exponent then starts at the top of the combination field.
pub open spec fn form_one(b: u32) -> bool {
    finite(b) && b & 0x6000_0000 != 0x6000_0000
}

/// The decoded significand: the low 23 bits in the first form, otherwise the
/// low 21 bits below the implied leading bits `100`.
pub open spec fn coefficient(b: u32) -> u32 {
    if form_one(b) {
        b & 0x007f_ffff
    } else {
        (b & 0x001f_ffff) | 0x0080_0000
    }
}

/// The biased exponent field of a finite pattern, and 0 for the others.
pub open spec fn biased_exponent(b: u32) -> u32 {
    if !finite(b) {
        0
    } else if form_one(b) {
        (b & 0x7f80_0000) >> 23
    } else {
        (b & 0x1fe0_0000) >> 21
    }
}

/// The encoding is the preferred one of its kind. A NaN keeps bits 24 to 20
/// clear, an infinity every bit below the combination marker, and a finite
/// pattern holds a significand of at most seven decimal digits.
pub open spec fn canonical(b: u32) -> bool {
    ||| nan(b) && b & 0x7df0_0000 == 0x7c00_0000
    ||| infinite(b) && b & 0x7fff_ffff == 0x7800_0000
    ||| finite(b) && coefficient(b) <= 9_999_999
}

/// A finite pattern that stands for zero: its significand is zero, or it is
/// too large to be canonical and is therefore read as zero.
pub open spec fn zero(b: u32) -> bool {
    finite(b) && (coefficient(b) == 0 || !canonical(b))
}

/// The pattern of the quantum. A signaling NaN keeps its marker, its
/// signaling bit and the low 19 bits of its payload, a quiet NaN its marker
/// and those payload bits. Every infinity gives the canonical positive
/// infinity. A finite pattern keeps its exponent field in the form it has,
/// and its trailing significand becomes one. The sign is always cleared.
pub open spec fn quantum_bits(b: u32) -> u32 {
    if signaling(b) {
        b & 0x7e07_ffff
    } else if nan(b) {
        b & 0x7c07_ffff
    } else if infinite(b) {
        0x7800_0000
    } else if form_one(b) {
        (b & 0x7f80_0001) | 0x0000_0001
    } else {
        (b & 0x7fe0_0001) | 0x0000_0001
    }
}

/// The decoded fields stay within the widths that the layout gives them.
pub proof fn lemma_field_bounds(b: u32)
    ensures
        biased_exponent(b) <= 191,
        coefficient(b) < 0x0100_0000,
        form_one(b) <==> finite(b) && coefficient(b) < 0x0080_0000,
        signaling(b) ==> nan(b),
        finite(b) <==> b & 0x7800_0000 != 0x7800_0000,
{
    assert(biased_exponent(b) <= 191 && coefficient(b) < 0x0100_0000 && (form_one(b) <==> finite(b)
        && coefficient(b) < 0x0080_0000) && (signaling(b) ==> nan(b)) && (finite(b) <==> b
        & 0x7800_0000 != 0x7800_0000)) by (bit_vector);
}

/// A finite pattern is determined by its sign, exponent field and
/// significand: no two finite patterns decode alike.
pub proof fn lemma_finite_decoding_is_injective(b: u32, c: u32)
    requires
        finite(b),
        finite(c),
        negative(b) == negative(c),
        biased_exponent(b) == biased_exponent(c),
        coefficient(b) == coefficient(c),
    ensures
        b == c,
{
    assert(b == c) by (bit_vector)
        requires
            finite(b),
            finite(c),
            negative(b) == negative(c),
            biased_exponent(b) == biased_exponent(c),
            coefficient(b) == coefficient(c),
    ;
}

/// Among canonical patterns, a NaN is determined by its sign, kind and
/// payload, an infinity by its sign, and a zero by its sign and exponent
/// field.
pub proof fn lemma_canonical_is_unique(b: u32, c: u32)
    requires
        canonical(b),
        canonical(c),
        negative(b) == negative(c),
        (nan(b) && nan(c) && signaling(b) == signaling(c) && coefficient(b) == coefficient(c)) || (
        infinite(b) && infinite(c)) || (zero(b) && zero(c) && biased_exponent(b)
            == biased_exponent(c)),
    ensures
        b == c,
{
    assert(b == c) by (bit_vector)
        requires
            canonical(b),
            canonical(c),
            negative(b) == negative(c),
            (nan(b) && nan(c) && signaling(b) == signaling(c) && coefficient(b) == coefficient(c))
                || (infinite(b) && infinite(c)) || (zero(b) && zero(c) && biased_exponent(b)
                == biased_exponent(c)),
    ;
}

} // verus!
