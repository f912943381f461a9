//! The total ordering of decimal32 patterns.
//!
//! From least to greatest: negative quiet NaNs, negative signaling NaNs,
//! negative infinity, the negative numbers, the negative zeros, the positive
//! zeros, the positive numbers, positive infinity, positive signaling NaNs,
//! positive quiet NaNs. Numbers of one sign are ordered by their exact value,
//! and among the encodings of one value by their exponent field. NaNs of one
//! sign and kind are ordered by their payload.

use vstd::prelude::*;
use vstd::arithmetic::power::{pow, lemma_pow_positive, lemma_pow_increases, lemma_pow_adds};
use crate::decimal::{d32, Class, lemma_powers_of_ten, pow10};
use crate::fields::negative;

verus! {

/// Comparing two scaled significands is comparing the values they stand for:
/// with `eb = ea + d`, the value `sa * 10^ea` is below (or equal to)
/// `sb * 10^eb` exactly when `sa` is below (or equal to) `sb * 10^d`. Where
/// the exponents are more than six apart, the larger exponent wins whatever
/// the seven-digit significands are.
pub proof fn lemma_scaled_order(sa: int, ea: nat, sb: int, d: nat)
    requires
        1 <= sa <= 9_999_999,
        1 <= sb <= 9_999_999,
    ensures
        (sa * pow(10, ea) < sb * pow(10, ea + d)) == (sa < sb * pow(10, d)),
        (sa * pow(10, ea) == sb * pow(10, ea + d)) == (sa == sb * pow(10, d)),
        d > 6 ==> sa < sb * pow(10, d),
        d <= 6 ==> sb * pow(10, d) <= 9_999_999_000_000,
{
    let pa: int = pow(10, ea);
    let pd: int = pow(10, d);
    let pb: int = pow(10, ea + d);
    lemma_pow_adds(10, ea, d);
    lemma_pow_positive(10, ea);
    lemma_pow_positive(10, d);
    lemma_powers_of_ten();
    assert((sa * pa < sb * pb) == (sa < sb * pd) && (sa * pa == sb * pb) == (sa == sb * pd))
        by (nonlinear_arith)
        requires
            pa > 0,
            pb == pa * pd,
    ;
    if d > 6 {
        lemma_pow_increases(10, 7, d);
        assert(sa < sb * pd) by (nonlinear_arith)
            requires
                sa <= 9_999_999,
                sb >= 1,
                pd >= 10_000_000,
        ;
    } else {
        lemma_pow_increases(10, d, 6);
        assert(sb * pd <= 9_999_999_000_000) by (nonlinear_arith)
            requires
                1 <= sb <= 9_999_999,
                0 < pd <= 1_000_000,
        ;
    }
}

impl d32 {
    /// The place of the value's band in the ordering. Bands are NaNs by sign
    /// and kind, the two infinities, and the finite classes.
    pub open spec fn rank(&self) -> int {
        match self.spec_class() {
            Class::QuietNaN => if negative(self@) {
                0int
            } else {
                11int
            },
            Class::SignalingNaN => if negative(self@) {
                1int
            } else {
                10int
            },
            Class::NegativeInf => 2int,
            Class::NegativeNormal => 3int,
            Class::NegativeSubnormal => 4int,
            Class::NegativeZero => 5int,
            Class::PositiveZero => 6int,
            Class::PositiveSubnormal => 7int,
            Class::PositiveNormal => 8int,
            Class::PositiveInf => 9int,
        }
    }

    /// The value of `self` is below that of `y`, or they are equal and the
    /// exponent field of `self` is not the larger one. Both are taken
    /// without sign.
    pub open spec fn magnitude_precedes(&self, y: &d32) -> bool {
        self.magnitude() < y.magnitude() || (self.magnitude() == y.magnitude()
            && self.spec_exponent() <= y.spec_exponent())
    }

    /// The order of two NaNs of one sign and kind: the lesser payload comes
    /// first where the sign is positive, and last where it is negative. The
    /// payload is what the significand decodes to.
    pub open spec fn payload_precedes(&self, y: &d32) -> bool {
        if negative(self@) {
            self.spec_significand() >= y.spec_significand()
        } else {
            self.spec_significand() <= y.spec_significand()
        }
    }

    /// `self` comes before `y` in the total ordering, or ranks equal to it.
    ///
    /// Values in different bands are ordered by band. Within a band,
    /// infinities rank equal, positive NaNs are ordered by payload, positive
    /// numbers and zeros by value and then by exponent field, and negative
    /// ones the other way round.
    pub open spec fn spec_total_order(&self, y: &d32) -> bool {
        if self.rank() != y.rank() {
            self.rank() < y.rank()
        } else {
            match self.spec_class() {
                Class::QuietNaN | Class::SignalingNaN => self.payload_precedes(y),
                Class::NegativeInf | Class::PositiveInf => true,
                Class::NegativeNormal | Class::NegativeSubnormal => y.magnitude_precedes(self),
                Class::NegativeZero => self.spec_exponent() >= y.spec_exponent(),
                Class::PositiveZero => self.spec_exponent() <= y.spec_exponent(),
                Class::PositiveSubnormal | Class::PositiveNormal => self.magnitude_precedes(y),
            }
        }
    }

    /// The total ordering of the two values without their signs.
    pub open spec fn spec_total_order_mag(&self, y: &d32) -> bool {
        self.spec_abs().spec_total_order(&y.spec_abs())
    }

    /// Compares two finite values that are not zero, without their signs,
    /// by exact integer arithmetic on significands scaled by a power of ten.
    fn scaled_precedes(&self, y: &d32) -> (r: bool)
        requires
            1 <= self.spec_significand() <= 9_999_999,
            1 <= y.spec_significand() <= 9_999_999,
        ensures
            r == self.magnitude_precedes(y),
    {
        let ea: u32 = self.exponent();
        let eb: u32 = y.exponent();
        let sa: u64 = self.significand();
        let sb: u64 = y.significand();
        if ea <= eb {
            let d: u32 = eb - ea;
            proof {
                lemma_scaled_order(sa as int, ea as nat, sb as int, d as nat);
            }
            if d > 6 {
                true
            } else {
                sa <= sb * pow10(d)
            }
        } else {
            let d: u32 = ea - eb;
            proof {
                lemma_scaled_order(sb as int, eb as nat, sa as int, d as nat);
            }
            if d > 6 {
                false
            } else {
                sa * pow10(d) < sb
            }
        }
    }

    /// Orders two NaNs of one kind: by sign, and under one sign by payload.
    fn nan_precedes(&self, y: &d32) -> (r: bool)
        ensures
            r == if negative(self@) != negative(y@) {
                negative(self@)
            } else {
                self.payload_precedes(y)
            },
    {
        if self.is_sign_minus() != y.is_sign_minus() {
            self.is_sign_minus()
        } else if self.is_sign_minus() {
            self.significand() >= y.significand()
        } else {
            self.significand() <= y.significand()
        }
    }

    /// True iff `self` comes before `y` in the total ordering or ranks
    /// equal to it.
    #[verifier::when_used_as_spec(spec_total_order)]
    pub fn total_order(&self, y: &d32) -> (r: bool)
        ensures
            r == self.spec_total_order(y),
    {
        match (self.class(), y.class()) {
            (Class::QuietNaN, Class::QuietNaN) => self.nan_precedes(y),
            (Class::SignalingNaN, Class::SignalingNaN) => self.nan_precedes(y),
            (Class::QuietNaN, Class::SignalingNaN) => self.is_sign_minus(),
            (Class::SignalingNaN, Class::QuietNaN) => !y.is_sign_minus(),
            (Class::QuietNaN, _) => self.is_sign_minus(),
            (Class::SignalingNaN, _) => self.is_sign_minus(),
            (_, Class::QuietNaN) => !y.is_sign_minus(),
            (_, Class::SignalingNaN) => !y.is_sign_minus(),
            (Class::NegativeInf, Class::NegativeInf) => true,
            (Class::NegativeInf, _) => true,
            (_, Class::NegativeInf) => false,
            (Class::PositiveInf, Class::PositiveInf) => true,
            (Class::PositiveInf, _) => false,
            (_, Class::PositiveInf) => true,
            (Class::NegativeNormal, Class::NegativeNormal) => y.scaled_precedes(self),
            (Class::NegativeNormal, _) => true,
            (_, Class::NegativeNormal) => false,
            (Class::NegativeSubnormal, Class::NegativeSubnormal) => y.scaled_precedes(self),
            (Class::NegativeSubnormal, _) => true,
            (_, Class::NegativeSubnormal) => false,
            (Class::NegativeZero, Class::NegativeZero) => self.exponent() >= y.exponent(),
            (Class::NegativeZero, _) => true,
            (_, Class::NegativeZero) => false,
            (Class::PositiveZero, Class::PositiveZero) => self.exponent() <= y.exponent(),
            (Class::PositiveZero, _) => true,
            (_, Class::PositiveZero) => false,
            (Class::PositiveSubnormal, Class::PositiveSubnormal) => self.scaled_precedes(y),
            (Class::PositiveSubnormal, _) => true,
            (_, Class::PositiveSubnormal) => false,
            (Class::PositiveNormal, Class::PositiveNormal) => self.scaled_precedes(y),
        }
    }

    /// True iff `self` without its sign comes before `y` without its sign
    /// in the total ordering, or ranks equal to it.
    #[verifier::when_used_as_spec(spec_total_order_mag)]
    pub fn total_order_mag(&self, y: &d32) -> (r: bool)
        ensures
            r == self.abs().total_order(&y.abs()),
    {
        self.abs().total_order(&y.abs())
    }
}

} // verus!
