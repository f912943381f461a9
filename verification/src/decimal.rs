//! The decimal32 value type, the decoding of its fields, and its
//! classification.

use vstd::prelude::*;
use vstd::arithmetic::power::{pow, lemma_pow_positive, lemma_pow_increases};
use crate::fields::{
    negative, nan, signaling, infinite, finite, form_one, coefficient, biased_exponent,
    canonical, zero, lemma_field_bounds,
};

verus! {

/// A decimal32 value: any 32-bit pattern, read in the binary-integer-decimal
/// interchange encoding. Every pattern is a value; the view is the pattern.
#[derive(Clone, Copy, Debug, PartialEq, Eq, Structural)]
#[allow(non_camel_case_types)]
pub struct d32(pub u32);

/// The ten classes of a decimal32 value. Each pattern has exactly one.
#[derive(Clone, Copy, Debug, PartialEq, Eq, Structural)]
pub enum Class {
    QuietNaN,
    SignalingNaN,
    NegativeInf,
    NegativeNormal,
    NegativeSubnormal,
    NegativeZero,
    PositiveZero,
    PositiveSubnormal,
    PositiveNormal,
    PositiveInf,
}

impl View for d32 {
    type V = u32;

    open spec fn view(&self) -> u32 {
        self.0
    }
}

/// The powers of ten up to the seventh.
pub proof fn lemma_powers_of_ten()
    ensures
        pow(10, 0) == 1,
        pow(10, 1) == 10,
        pow(10, 2) == 100,
        pow(10, 3) == 1_000,
        pow(10, 4) == 10_000,
        pow(10, 5) == 100_000,
        pow(10, 6) == 1_000_000,
        pow(10, 7) == 10_000_000,
{
    reveal_with_fuel(pow, 8);
}

/// Ten to the power `n`, for the small powers that scaling a significand needs.
pub(crate) fn pow10(n: u32) -> (r: u64)
    requires
        n <= 6,
    ensures
        r == pow(10, n as nat),
{
    proof {
        lemma_powers_of_ten();
    }
    match n {
        0 => 1,
        1 => 10,
        2 => 100,
        3 => 1_000,
        4 => 10_000,
        5 => 100_000,
        _ => 1_000_000,
    }
}

impl d32 {
    /// The exponent is stored in the first form.
    pub open spec fn spec_exponent_form_one(&self) -> bool {
        form_one(self@)
    }

    /// The decoded significand, as an integer.
    pub open spec fn spec_significand(&self) -> u64 {
        coefficient(self@) as u64
    }

    /// The biased exponent field.
    pub open spec fn spec_exponent(&self) -> u32 {
        biased_exponent(self@)
    }

    /// A NaN that is not signaling.
    pub open spec fn spec_is_quiet(&self) -> bool {
        nan(self@) && !signaling(self@)
    }

    /// The sign bit is set.
    pub open spec fn spec_is_sign_minus(&self) -> bool {
        negative(self@)
    }

    /// A NaN, quiet or signaling.
    pub open spec fn spec_is_nan(&self) -> bool {
        nan(self@)
    }

    /// A signaling NaN.
    pub open spec fn spec_is_signaling(&self) -> bool {
        signaling(self@)
    }

    /// An infinity of either sign.
    pub open spec fn spec_is_infinite(&self) -> bool {
        infinite(self@)
    }

    /// Neither infinite nor NaN.
    pub open spec fn spec_is_finite(&self) -> bool {
        finite(self@)
    }

    /// The preferred encoding of its value.
    pub open spec fn spec_is_canonical(&self) -> bool {
        canonical(self@)
    }

    /// A zero of either sign and any exponent field.
    pub open spec fn spec_is_zero(&self) -> bool {
        zero(self@)
    }

    /// The absolute value of a finite pattern as an integer, in units of the
    /// smallest quantum of the format: the significand times ten to the
    /// biased exponent.
    pub open spec fn magnitude(&self) -> int {
        self.spec_significand() * pow(10, self.spec_exponent() as nat)
    }

    /// Finite, not zero, and smaller in magnitude than the least normal
    /// number, which is a one followed by six zeros in units of the quantum.
    pub open spec fn spec_is_subnormal(&self) -> bool {
        finite(self@) && !zero(self@) && self.magnitude() < 1_000_000
    }

    /// Finite, not zero, and at least as large in magnitude as the least
    /// normal number.
    pub open spec fn spec_is_normal(&self) -> bool {
        finite(self@) && !zero(self@) && !self.spec_is_subnormal()
    }

    /// The class of a pattern: NaN before everything else, then by sign, and
    /// within a sign infinite, normal, subnormal, zero.
    pub open spec fn spec_class(&self) -> Class {
        if signaling(self@) {
            Class::SignalingNaN
        } else if nan(self@) {
            Class::QuietNaN
        } else if negative(self@) {
            if infinite(self@) {
                Class::NegativeInf
            } else if self.spec_is_normal() {
                Class::NegativeNormal
            } else if self.spec_is_subnormal() {
                Class::NegativeSubnormal
            } else {
                Class::NegativeZero
            }
        } else if infinite(self@) {
            Class::PositiveInf
        } else if self.spec_is_normal() {
            Class::PositiveNormal
        } else if self.spec_is_subnormal() {
            Class::PositiveSubnormal
        } else {
            Class::PositiveZero
        }
    }

    /// True iff the value is finite and its exponent is stored in the first
    /// of the two forms, at the top of the combination field.
    #[verifier::when_used_as_spec(spec_exponent_form_one)]
    pub fn exponent_form_one(&self) -> (r: bool)
        ensures
            r == form_one(self@),
    {
        self.is_finite() && (self.0 & 0x6000_0000 != 0x6000_0000)
    }

    /// The decoded significand. For a canonical finite value it is at most
    /// 9,999,999; larger results come from non-canonical patterns, and from
    /// NaNs and infinities, which are read in the second form.
    #[verifier::when_used_as_spec(spec_significand)]
    pub fn significand(&self) -> (r: u64)
        ensures
            r == coefficient(self@),
            r < 0x0100_0000,
    {
        proof {
            lemma_field_bounds(self.0);
        }
        if self.exponent_form_one() {
            (self.0 & 0x007f_ffff) as u64
        } else {
            ((self.0 & 0x001f_ffff) | 0x0080_0000) as u64
        }
    }

    /// The biased exponent field: 0 for NaNs and infinities, else the eight
    /// exponent bits of the form in use. It never exceeds 191.
    #[verifier::when_used_as_spec(spec_exponent)]
    pub fn exponent(&self) -> (r: u32)
        ensures
            r == biased_exponent(self@),
            r <= 191,
    {
        proof {
            lemma_field_bounds(self.0);
        }
        if !self.is_finite() {
            0
        } else if self.exponent_form_one() {
            (self.0 & 0x7f80_0000) >> 23
        } else {
            (self.0 & 0x1fe0_0000) >> 21
        }
    }

    /// True iff the value is a NaN that is not signaling.
    #[verifier::when_used_as_spec(spec_is_quiet)]
    pub fn is_quiet(&self) -> (r: bool)
        ensures
            r == (nan(self@) && !signaling(self@)),
    {
        self.is_nan() && !self.is_signaling()
    }

    /// The class of the value.
    #[verifier::when_used_as_spec(spec_class)]
    pub fn class(&self) -> (r: Class)
        ensures
            r == self.spec_class(),
    {
        if self.is_signaling() {
            Class::SignalingNaN
        } else if self.is_quiet() {
            Class::QuietNaN
        } else if self.is_sign_minus() {
            if self.is_infinite() {
                Class::NegativeInf
            } else if self.is_normal() {
                Class::NegativeNormal
            } else if self.is_subnormal() {
                Class::NegativeSubnormal
            } else {
                Class::NegativeZero
            }
        } else if self.is_infinite() {
            Class::PositiveInf
        } else if self.is_normal() {
            Class::PositiveNormal
        } else if self.is_subnormal() {
            Class::PositiveSubnormal
        } else {
            Class::PositiveZero
        }
    }

    /// True iff the sign bit is set.
    #[verifier::when_used_as_spec(spec_is_sign_minus)]
    pub fn is_sign_minus(&self) -> (r: bool)
        ensures
            r == negative(self@),
    {
        self.0 & 0x8000_0000 == 0x8000_0000
    }

    /// True iff the value is finite, not zero and not subnormal.
    #[verifier::when_used_as_spec(spec_is_normal)]
    pub fn is_normal(&self) -> (r: bool)
        ensures
            r == self.spec_is_normal(),
            r == (finite(self@) && !zero(self@) && self.magnitude() >= 1_000_000),
    {
        self.is_finite() && !self.is_zero() && !self.is_subnormal()
    }

    /// True iff the value is neither infinite nor NaN.
    #[verifier::when_used_as_spec(spec_is_finite)]
    pub fn is_finite(&self) -> (r: bool)
        ensures
            r == finite(self@),
    {
        !(self.is_infinite() || self.is_nan())
    }

    /// True iff the value is finite and its significand is zero or too large
    /// to be canonical.
    #[verifier::when_used_as_spec(spec_is_zero)]
    pub fn is_zero(&self) -> (r: bool)
        ensures
            r == zero(self@),
            r == (finite(self@) && (coefficient(self@) == 0 || coefficient(self@) > 9_999_999)),
    {
        self.is_finite() && (self.significand() == 0 || !self.is_canonical())
    }

    /// True iff the value is finite, not zero, and its magnitude is below
    /// that of the least normal number.
    #[verifier::when_used_as_spec(spec_is_subnormal)]
    pub fn is_subnormal(&self) -> (r: bool)
        ensures
            r == self.spec_is_subnormal(),
            r == (finite(self@) && !zero(self@) && biased_exponent(self@) < 6 && coefficient(self@)
                * pow(10, biased_exponent(self@) as nat) < 1_000_000),
    {
        proof {
            self.lemma_small_magnitude();
        }
        self.is_finite() && !self.is_zero() && self.exponent() < 6 && self.significand() * pow10(
            self.exponent(),
        ) < 1_000_000
    }

    /// A magnitude below a million needs an exponent field below six,
    /// unless the significand is zero.
    pub proof fn lemma_small_magnitude(&self)
        ensures
            self.spec_significand() != 0 && self.magnitude() < 1_000_000 ==> self.spec_exponent()
                < 6,
            self.spec_exponent() < 6 ==> self.magnitude() < 1_700_000_000_000,
    {
        let s: int = self.spec_significand() as int;
        let e: nat = self.spec_exponent() as nat;
        let p: int = pow(10, e);
        lemma_field_bounds(self@);
        lemma_powers_of_ten();
        lemma_pow_positive(10, e);
        if e >= 6 {
            lemma_pow_increases(10, 6, e);
            if s != 0 {
                assert(s * p >= 1_000_000) by (nonlinear_arith)
                    requires
                        s >= 1,
                        p >= 1_000_000,
                ;
            }
        } else {
            lemma_pow_increases(10, e, 5);
            assert(s * p < 1_700_000_000_000) by (nonlinear_arith)
                requires
                    0 <= s < 0x0100_0000,
                    0 < p <= 100_000,
            ;
        }
    }

    /// True iff the value is an infinity of either sign.
    #[verifier::when_used_as_spec(spec_is_infinite)]
    pub fn is_infinite(&self) -> (r: bool)
        ensures
            r == infinite(self@),
    {
        !self.is_nan() && (self.0 & 0x7800_0000 == 0x7800_0000)
    }

    /// True iff the five leading bits of the combination field are all set.
    #[verifier::when_used_as_spec(spec_is_nan)]
    pub fn is_nan(&self) -> (r: bool)
        ensures
            r == nan(self@),
    {
        self.0 & 0x7c00_0000 == 0x7c00_0000
    }

    /// True iff the value is a NaN with the signaling bit set.
    #[verifier::when_used_as_spec(spec_is_signaling)]
    pub fn is_signaling(&self) -> (r: bool)
        ensures
            r == signaling(self@),
    {
        self.0 & 0x7e00_0000 == 0x7e00_0000
    }

    /// True iff the pattern is the preferred encoding of its value.
    #[verifier::when_used_as_spec(spec_is_canonical)]
    pub fn is_canonical(&self) -> (r: bool)
        ensures
            r == canonical(self@),
    {
        (self.is_nan() && self.0 & 0x7df0_0000 == 0x7c00_0000) || (self.is_infinite() && self.0
            & 0x7fff_ffff == 0x7800_0000) || (self.is_finite() && self.significand() <= 9_999_999)
    }

    /// The radix of the format, which is ten.
    pub fn radix(&self) -> (r: u32)
        ensures
            r == 10,
    {
        10
    }
}

} // verus!
