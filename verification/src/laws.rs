//! Laws of the decimal32 operations, each stated over the spec functions
//! that the contracts of the operations use.

use vstd::prelude::*;
use vstd::arithmetic::power::{pow, lemma_pow_positive};
use crate::decimal::{d32, Class};
use crate::fields::{
    negative, nan, signaling, infinite, finite, form_one, biased_exponent, canonical, zero,
    quantum_bits, lemma_field_bounds, lemma_finite_decoding_is_injective,
    lemma_canonical_is_unique,
};

verus! {

/// Every pattern is of exactly one kind: NaN, infinite or finite. Its class
/// says which, together with the sign; a NaN is signaling or quiet, and a
/// finite value is exactly one of zero, subnormal and normal.
pub proof fn lemma_class_partition(v: d32)
    ensures
        nan(v@) && !infinite(v@) && !finite(v@) || !nan(v@) && infinite(v@) && !finite(v@) || !nan(
            v@,
        ) && !infinite(v@) && finite(v@),
        finite(v@) ==> (v.is_zero() && !v.is_subnormal() && !v.is_normal() || !v.is_zero()
            && v.is_subnormal() && !v.is_normal() || !v.is_zero() && !v.is_subnormal()
            && v.is_normal()),
        !finite(v@) ==> !v.is_zero() && !v.is_subnormal() && !v.is_normal(),
        v.class() == Class::SignalingNaN <==> signaling(v@),
        v.class() == Class::QuietNaN <==> nan(v@) && !signaling(v@),
        v.class() == Class::NegativeInf <==> negative(v@) && infinite(v@),
        v.class() == Class::NegativeNormal <==> negative(v@) && v.is_normal(),
        v.class() == Class::NegativeSubnormal <==> negative(v@) && v.is_subnormal(),
        v.class() == Class::NegativeZero <==> negative(v@) && v.is_zero(),
        v.class() == Class::PositiveZero <==> !negative(v@) && v.is_zero(),
        v.class() == Class::PositiveSubnormal <==> !negative(v@) && v.is_subnormal(),
        v.class() == Class::PositiveNormal <==> !negative(v@) && v.is_normal(),
        v.class() == Class::PositiveInf <==> !negative(v@) && infinite(v@),
{
    lemma_field_bounds(v@);
}

/// Negating twice gives the pattern back, bit for bit.
pub proof fn lemma_negate_involution(v: d32)
    ensures
        v.negate().negate() == v,
{
    let b: u32 = v@;
    assert((b ^ 0x8000_0000) ^ 0x8000_0000 == b) by (bit_vector);
}

/// The absolute value has its sign bit clear, and taking it again changes
/// nothing.
pub proof fn lemma_abs_idempotent(v: d32)
    ensures
        !v.abs().is_sign_minus(),
        v.abs().abs() == v.abs(),
{
    let b: u32 = v@;
    assert(!negative(b & 0x7fff_ffff) && (b & 0x7fff_ffff) & 0x7fff_ffff == b & 0x7fff_ffff)
        by (bit_vector);
}

/// The total ordering is reflexive.
pub proof fn lemma_total_order_reflexive(a: d32)
    ensures
        a.total_order(&a),
{
}

/// The total ordering is total: of any two values, one comes before the
/// other or ranks equal to it.
pub proof fn lemma_total_order_total(a: d32, b: d32)
    ensures
        a.total_order(&b) || b.total_order(&a),
{
}

/// The total ordering is transitive.
pub proof fn lemma_total_order_transitive(a: d32, b: d32, c: d32)
    requires
        a.total_order(&b),
        b.total_order(&c),
    ensures
        a.total_order(&c),
{
}

impl d32 {
    /// The two values are in one band of the ordering and are NaNs with
    /// one payload, or infinities, or zeros with one exponent field. The
    /// ordering does not tell such values apart.
    pub open spec fn same_place(&self, y: &d32) -> bool {
        self.rank() == y.rank() && ((nan(self@) && self.spec_significand()
            == y.spec_significand()) || infinite(self@) || (zero(self@) && biased_exponent(self@)
            == biased_exponent(y@)))
    }
}

/// Of two different patterns exactly one comes before the other, unless
/// they share a place in the ordering.
pub proof fn lemma_total_order_separates(a: d32, b: d32)
    requires
        a@ != b@,
        !a.same_place(&b),
    ensures
        a.total_order(&b) != b.total_order(&a),
{
    lemma_field_bounds(a@);
    lemma_field_bounds(b@);
    if a.rank() == b.rank() {
        if finite(a@) && !zero(a@) {
            assert(finite(b@) && !zero(b@));
            assert(negative(a@) == negative(b@));
            if a.magnitude() == b.magnitude() && biased_exponent(a@) == biased_exponent(b@) {
                let p: int = pow(10, biased_exponent(a@) as nat);
                let sa: int = a.significand() as int;
                let sb: int = b.significand() as int;
                lemma_pow_positive(10, biased_exponent(a@) as nat);
                assert(sa == sb) by (nonlinear_arith)
                    requires
                        sa * p == sb * p,
                        p > 0,
                ;
                lemma_finite_decoding_is_injective(a@, b@);
            }
        }
    }
}

/// Of two different canonical patterns exactly one comes before the other:
/// canonical patterns never share a place.
pub proof fn lemma_total_order_separates_canonical(a: d32, b: d32)
    requires
        a.is_canonical(),
        b.is_canonical(),
        a@ != b@,
    ensures
        !a.same_place(&b),
        a.total_order(&b) != b.total_order(&a),
{
    lemma_field_bounds(a@);
    lemma_field_bounds(b@);
    if a.same_place(&b) {
        lemma_canonical_is_unique(a@, b@);
    }
    lemma_total_order_separates(a, b);
}

/// Two values rank equal, each coming before the other, exactly when they
/// are one pattern or share a place.
pub proof fn lemma_total_order_same_place(a: d32, b: d32)
    ensures
        a.total_order(&b) && b.total_order(&a) <==> a@ == b@ || a.same_place(&b),
{
    lemma_field_bounds(a@);
    lemma_field_bounds(b@);
    if a@ != b@ && !a.same_place(&b) {
        lemma_total_order_separates(a, b);
    }
}

/// The positive zero with exponent field 0 comes strictly before every
/// canonical positive zero with a larger exponent field.
pub proof fn lemma_zero_exponent_order(v: d32)
    requires
        canonical(v@),
        zero(v@),
        !negative(v@),
        biased_exponent(v@) > 0,
    ensures
        d32(0).is_zero(),
        v.is_zero(),
        d32(0).total_order(&v),
        !v.total_order(&d32(0)),
{
    lemma_field_bounds(v@);
    assert(zero(0u32) && !negative(0u32) && biased_exponent(0u32) == 0 && !signaling(0u32))
        by (bit_vector);
}

/// Two finite values with one exponent field have one quantum, whatever
/// their signs and significands, if they hold the exponent in the same
/// form. If they hold it in different forms, their quanta differ.
pub proof fn lemma_quantum_of_same_exponent(a: d32, b: d32)
    requires
        finite(a@),
        finite(b@),
        biased_exponent(a@) == biased_exponent(b@),
    ensures
        form_one(a@) == form_one(b@) ==> a.quantum() == b.quantum(),
        form_one(a@) != form_one(b@) ==> a.quantum() != b.quantum(),
{
    let x: u32 = a@;
    let y: u32 = b@;
    let qx: u32 = a.quantum()@;
    let qy: u32 = b.quantum()@;
    lemma_field_bounds(x);
    lemma_field_bounds(y);
    assert(qx == qy <==> form_one(x) == form_one(y)) by (bit_vector)
        requires
            finite(x),
            finite(y),
            biased_exponent(x) == biased_exponent(y),
            qx == quantum_bits(x),
            qy == quantum_bits(y),
    ;
}

} // verus!
