use decimal32::{d32, Class};

#[test]
fn quiet_nan_with_zero_payload() {
    let v = d32(0x7c00_0000);
    assert!(v.is_nan());
    assert!(!v.is_signaling());
    assert!(v.is_quiet());
    assert_eq!(v.class(), Class::QuietNaN);
}

#[test]
fn signaling_nan() {
    let v = d32(0x7e00_0000);
    assert!(v.is_nan());
    assert!(v.is_signaling());
    assert!(!v.is_quiet());
    assert_eq!(v.class(), Class::SignalingNaN);
}

#[test]
fn positive_infinity() {
    let v = d32(0x7800_0000);
    assert!(v.is_infinite());
    assert!(!v.is_nan());
    assert!(!v.is_finite());
    assert_eq!(v.class(), Class::PositiveInf);
}

#[test]
fn positive_zero() {
    let v = d32(0x0000_0000);
    assert!(v.is_zero());
    assert!(v.is_finite());
    assert!(!v.is_sign_minus());
    assert_eq!(v.class(), Class::PositiveZero);
}

#[test]
fn small_finite_value_decodes() {
    let v = d32(0x0080_0003);
    assert!(!v.is_nan());
    assert!(v.is_finite());
    assert_eq!(v.significand(), 3);
    assert_eq!(v.exponent(), 1);
}

#[test]
fn negative_kinds() {
    assert_eq!(d32(0xfc00_0000).class(), Class::QuietNaN);
    assert_eq!(d32(0xfe00_0000).class(), Class::SignalingNaN);
    assert_eq!(d32(0xf800_0000).class(), Class::NegativeInf);
    assert_eq!(d32(0x8300_0001).class(), Class::NegativeNormal);
    assert_eq!(d32(0x8000_0001).class(), Class::NegativeSubnormal);
    assert_eq!(d32(0x8000_0000).class(), Class::NegativeZero);
    assert!(d32(0xf800_0000).is_sign_minus());
    assert!(d32(0x8000_0000).is_sign_minus());
}

#[test]
fn positive_kinds() {
    assert_eq!(d32(0x0000_0001).class(), Class::PositiveSubnormal);
    assert_eq!(d32(0x0300_0001).class(), Class::PositiveNormal);
    assert_eq!(d32(0x0080_0000).class(), Class::PositiveZero);
}

#[test]
fn infinity_is_told_from_nan_by_one_bit() {
    let inf = d32(0x7a00_0000);
    assert!(inf.is_infinite());
    assert!(!inf.is_nan());
    assert!(!inf.is_signaling());
    let nan = d32(0x7c00_0000);
    assert!(!nan.is_infinite());
    assert!(nan.is_nan());
}

#[test]
fn exactly_one_kind_holds() {
    let samples: [u32; 12] = [
        0x0000_0000, 0x8000_0000, 0x0000_0001, 0x0300_0001, 0x6000_0000, 0x601f_ffff,
        0x7800_0000, 0xf800_0001, 0x7c00_0000, 0xfc00_0001, 0x7e00_0000, 0xfe12_3456,
    ];
    for bits in samples {
        let v = d32(bits);
        let mut kinds: u32 = 0;
        if v.is_nan() {
            kinds += 1;
        }
        if v.is_infinite() {
            kinds += 1;
        }
        if v.is_finite() {
            kinds += 1;
        }
        assert_eq!(kinds, 1);
        let mut finite_kinds: u32 = 0;
        if v.is_zero() {
            finite_kinds += 1;
        }
        if v.is_subnormal() {
            finite_kinds += 1;
        }
        if v.is_normal() {
            finite_kinds += 1;
        }
        assert_eq!(finite_kinds, if v.is_finite() { 1 } else { 0 });
    }
}

#[test]
fn first_form_fields() {
    let v = d32(0x0500_0005);
    assert!(v.exponent_form_one());
    assert_eq!(v.exponent(), 10);
    assert_eq!(v.significand(), 5);
    let top = d32(0x5fff_ffff);
    assert!(top.exponent_form_one());
    assert_eq!(top.exponent(), 191);
    assert_eq!(top.significand(), 0x007f_ffff);
}

#[test]
fn second_form_fields() {
    let v = d32(0x6140_0000);
    assert!(v.is_finite());
    assert!(!v.exponent_form_one());
    assert_eq!(v.exponent(), 10);
    assert_eq!(v.significand(), 8_388_608);
    let top = d32(0x77f8_967f);
    assert!(top.is_finite());
    assert!(!top.exponent_form_one());
    assert_eq!(top.exponent(), 191);
    assert_eq!(top.significand(), 9_999_999);
}

#[test]
fn fields_of_values_that_are_not_finite() {
    let inf = d32(0x7800_0000);
    assert!(!inf.exponent_form_one());
    assert_eq!(inf.exponent(), 0);
    assert_eq!(inf.significand(), 0x0080_0000);
    let nan = d32(0x7c00_0001);
    assert!(!nan.exponent_form_one());
    assert_eq!(nan.exponent(), 0);
    assert_eq!(nan.significand(), 0x0080_0001);
}

#[test]
fn oversized_significand_is_zero() {
    let v = d32(0x601f_ffff);
    assert!(v.is_finite());
    assert_eq!(v.significand(), 10_485_759);
    assert!(!v.is_canonical());
    assert!(v.is_zero());
    assert!(!v.is_normal());
    assert!(!v.is_subnormal());
    assert_eq!(v.class(), Class::PositiveZero);
    assert_eq!(d32(0xe01f_ffff).class(), Class::NegativeZero);
}

#[test]
fn largest_canonical_significand_is_not_zero() {
    let v = d32(0x6018_967f);
    assert_eq!(v.significand(), 9_999_999);
    assert!(v.is_canonical());
    assert!(!v.is_zero());
    assert!(v.is_normal());
    let next = d32(0x6018_9680);
    assert_eq!(next.significand(), 10_000_000);
    assert!(!next.is_canonical());
    assert!(next.is_zero());
}

#[test]
fn subnormal_boundary_at_exponent_zero() {
    let below = d32(0x000f_423f);
    assert_eq!(below.significand(), 999_999);
    assert!(below.is_subnormal());
    assert!(!below.is_normal());
    let at = d32(0x000f_4240);
    assert_eq!(at.significand(), 1_000_000);
    assert!(!at.is_subnormal());
    assert!(at.is_normal());
}

#[test]
fn subnormal_boundary_at_exponent_five() {
    let below = d32(0x0280_0009);
    assert_eq!(below.exponent(), 5);
    assert_eq!(below.significand(), 9);
    assert!(below.is_subnormal());
    let at = d32(0x0280_000a);
    assert_eq!(at.significand(), 10);
    assert!(!at.is_subnormal());
    assert!(at.is_normal());
}

#[test]
fn exponent_six_is_never_subnormal() {
    let v = d32(0x0300_0001);
    assert_eq!(v.exponent(), 6);
    assert!(!v.is_subnormal());
    assert!(v.is_normal());
    let far = d32(0x5f80_0001);
    assert_eq!(far.exponent(), 191);
    assert!(far.is_normal());
}

#[test]
fn zero_is_neither_subnormal_nor_normal() {
    for bits in [0x0000_0000u32, 0x8000_0000, 0x0080_0000, 0x5f80_0000] {
        let v = d32(bits);
        assert!(v.is_zero());
        assert!(!v.is_subnormal());
        assert!(!v.is_normal());
    }
}

#[test]
fn canonical_nan() {
    assert!(d32(0x7c00_0000).is_canonical());
    assert!(d32(0x7e00_0000).is_canonical());
    assert!(d32(0xfc0f_ffff).is_canonical());
    assert!(!d32(0x7c10_0000).is_canonical());
    assert!(!d32(0x7d00_0000).is_canonical());
}

#[test]
fn canonical_infinity() {
    assert!(d32(0x7800_0000).is_canonical());
    assert!(d32(0xf800_0000).is_canonical());
    assert!(!d32(0x7800_0001).is_canonical());
    assert!(!d32(0x7a00_0000).is_canonical());
}

#[test]
fn canonical_finite() {
    assert!(d32(0x0000_0000).is_canonical());
    assert!(d32(0x007f_ffff).is_canonical());
    assert!(d32(0x6018_967f).is_canonical());
    assert!(!d32(0x6018_9680).is_canonical());
}

#[test]
fn radix_is_ten() {
    assert_eq!(d32(0x0000_0000).radix(), 10);
    assert_eq!(d32(0x7c00_0000).radix(), 10);
}
