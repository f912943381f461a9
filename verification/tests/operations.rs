use decimal32::d32;

#[test]
fn negate_flips_only_the_sign() {
    assert_eq!(d32(0x0000_0001).negate(), d32(0x8000_0001));
    assert_eq!(d32(0x8000_0001).negate(), d32(0x0000_0001));
    assert_eq!(d32(0x7c00_0000).negate(), d32(0xfc00_0000));
    assert_eq!(d32(0xf800_0000).negate(), d32(0x7800_0000));
}

#[test]
fn negate_twice_is_identity() {
    for bits in [0x0000_0000u32, 0x8000_0000, 0x1234_5678, 0xfedc_ba98, 0x7c00_0001, 0xffff_ffff] {
        assert_eq!(d32(bits).negate().negate(), d32(bits));
    }
}

#[test]
fn abs_clears_the_sign() {
    assert_eq!(d32(0x8000_0001).abs(), d32(0x0000_0001));
    assert_eq!(d32(0x0000_0001).abs(), d32(0x0000_0001));
    assert_eq!(d32(0xffff_ffff).abs(), d32(0x7fff_ffff));
    assert!(!d32(0xf800_0000).abs().is_sign_minus());
}

#[test]
fn abs_twice_is_abs() {
    for bits in [0x0000_0000u32, 0x8000_0000, 0x1234_5678, 0xfedc_ba98, 0xfc00_0001, 0xffff_ffff] {
        assert_eq!(d32(bits).abs().abs(), d32(bits).abs());
        assert!(!d32(bits).abs().is_sign_minus());
    }
}

#[test]
fn copy_sign_takes_the_sign_of_the_second() {
    assert_eq!(d32(0x0000_0001).copy_sign(&d32(0x8000_0000)), d32(0x8000_0001));
    assert_eq!(d32(0x8000_0001).copy_sign(&d32(0x7c00_0000)), d32(0x0000_0001));
    assert_eq!(d32(0x8000_0001).copy_sign(&d32(0xf800_0000)), d32(0x8000_0001));
    assert_eq!(d32(0x0000_0001).copy_sign(&d32(0x0000_0005)), d32(0x0000_0001));
}

#[test]
fn encoding_is_the_pattern_itself() {
    for bits in [0x0000_0000u32, 0x8000_0001, 0x7c00_0000, 0x601f_ffff, 0xffff_ffff] {
        assert_eq!(d32(bits).encode_binary(), d32(bits));
        assert_eq!(d32(bits).decode_binary(), d32(bits));
    }
}

#[test]
fn quantum_of_signaling_nan() {
    assert_eq!(d32(0xfe12_3456).quantum(), d32(0x7e02_3456));
    assert_eq!(d32(0x7e00_0000).quantum(), d32(0x7e00_0000));
    assert!(d32(0xfe12_3456).quantum().is_signaling());
}

#[test]
fn quantum_of_quiet_nan() {
    assert_eq!(d32(0xfc12_3456).quantum(), d32(0x7c02_3456));
    assert_eq!(d32(0x7dff_ffff).quantum(), d32(0x7c07_ffff));
    assert!(d32(0xfc12_3456).quantum().is_quiet());
}

#[test]
fn quantum_of_infinity() {
    assert_eq!(d32(0x7800_0000).quantum(), d32(0x7800_0000));
    assert_eq!(d32(0xf800_0000).quantum(), d32(0x7800_0000));
    assert_eq!(d32(0xfa12_3456).quantum(), d32(0x7800_0000));
}

#[test]
fn quantum_of_first_form() {
    assert_eq!(d32(0x8280_0009).quantum(), d32(0x0280_0001));
    assert_eq!(d32(0x0280_000a).quantum(), d32(0x0280_0001));
    assert_eq!(d32(0x0000_0000).quantum(), d32(0x0000_0001));
    assert_eq!(d32(0x5fff_ffff).quantum(), d32(0x5f80_0001));
    let q = d32(0x8280_0009).quantum();
    assert_eq!(q.significand(), 1);
    assert_eq!(q.exponent(), 5);
    assert!(!q.is_sign_minus());
}

#[test]
fn quantum_of_second_form() {
    assert_eq!(d32(0xe018_967f).quantum(), d32(0x6000_0001));
    assert_eq!(d32(0x6140_0000).quantum(), d32(0x6140_0001));
    let q = d32(0x6140_0000).quantum();
    assert_eq!(q.exponent(), 10);
    assert!(!q.exponent_form_one());
    assert_eq!(q.significand(), 0x0080_0001);
}

#[test]
fn quantum_ignores_sign_and_significand() {
    let first: [u32; 5] = [0x0500_0000, 0x0500_0001, 0x0500_0002, 0x857f_ffff, 0x8512_3456];
    for a in first {
        for b in first {
            assert_eq!(d32(a).quantum(), d32(b).quantum());
        }
    }
    let second: [u32; 4] = [0x6140_0000, 0x6140_0001, 0xe158_967f, 0x615f_ffff];
    for a in second {
        for b in second {
            assert_eq!(d32(a).quantum(), d32(b).quantum());
        }
    }
}

#[test]
fn quantum_differs_between_the_two_forms() {
    let a = d32(0x0500_0005);
    let b = d32(0x6140_0000);
    assert_eq!(a.exponent(), b.exponent());
    assert!(a.same_quantum(&b));
    assert_ne!(a.quantum(), b.quantum());
}

#[test]
fn same_quantum_of_nans_and_infinities() {
    assert!(d32(0x7c00_0000).same_quantum(&d32(0xfe00_0001)));
    assert!(d32(0x7800_0000).same_quantum(&d32(0xf800_0000)));
    assert!(!d32(0x7c00_0000).same_quantum(&d32(0x7800_0000)));
    assert!(!d32(0x7800_0000).same_quantum(&d32(0x0000_0000)));
    assert!(!d32(0x0000_0000).same_quantum(&d32(0x7c00_0000)));
}

#[test]
fn same_quantum_of_finite_values() {
    assert!(d32(0x0500_0005).same_quantum(&d32(0x8500_0007)));
    assert!(d32(0x0500_0005).same_quantum(&d32(0x6140_0000)));
    assert!(!d32(0x0500_0005).same_quantum(&d32(0x0580_0005)));
    assert!(d32(0x0000_0000).same_quantum(&d32(0x0000_0001)));
}
