use touhou_interpreters::th06::scalar::{Scalar, INFINITY_BITS, ONE_BITS, SIGN_BIT};

fn s(x: f32) -> Scalar {
    Scalar::from_bits(x.to_bits())
}

fn samples() -> Vec<f32> {
    vec![
        0.0,
        -0.0,
        1.0,
        -1.0,
        0.3,
        0.5,
        -0.5,
        192.0,
        384.0,
        1.0e-40,
        -1.0e-40,
        f32::MIN_POSITIVE,
        f32::MAX,
        f32::MIN,
        f32::INFINITY,
        f32::NEG_INFINITY,
        f32::NAN,
        -f32::NAN,
        f32::from_bits(0x7f80_0001),
        f32::from_bits(0xffff_ffff),
        std::f32::consts::PI,
        -std::f32::consts::PI,
        95.0,
        100.0,
    ]
}

#[test]
fn scalar_bits_round_trip() {
    assert_eq!(s(1.0).to_bits(), 0x3f80_0000);
    assert_eq!(Scalar::one().to_bits(), 1.0f32.to_bits());
    assert_eq!(Scalar::zero().to_bits(), 0.0f32.to_bits());
    assert_eq!(ONE_BITS, 1.0f32.to_bits());
    assert_eq!(INFINITY_BITS, f32::INFINITY.to_bits());
    assert_eq!(SIGN_BIT, (-0.0f32).to_bits());
    for x in samples() {
        assert_eq!(s(x).to_bits(), x.to_bits());
        assert_eq!(s(x).bits, x.to_bits());
    }
}

#[test]
fn scalar_is_not_a_number_matches_floats() {
    for x in samples() {
        assert_eq!(s(x).is_not_a_number(), x.is_nan(), "{:?}", x);
    }
}

#[test]
fn scalar_is_nonzero_matches_floats() {
    for x in samples() {
        assert_eq!(s(x).is_nonzero(), x != 0., "{:?}", x);
    }
    assert!(!s(0.0).is_nonzero());
    assert!(!s(-0.0).is_nonzero());
    assert!(s(f32::NAN).is_nonzero());
}

#[test]
fn scalar_is_positive_matches_floats() {
    for x in samples() {
        assert_eq!(s(x).is_positive(), x > 0., "{:?}", x);
    }
    assert!(!s(0.0).is_positive());
    assert!(!s(-0.0).is_positive());
    assert!(!s(f32::NAN).is_positive());
    assert!(s(f32::INFINITY).is_positive());
    assert!(!s(-1.0).is_positive());
}

#[test]
fn scalar_is_below_matches_floats() {
    for x in samples() {
        for y in samples() {
            assert_eq!(s(x).is_below(s(y)), x < y, "{:?} < {:?}", x, y);
        }
    }
    assert!(s(95.0).is_below(s(100.0)));
    assert!(!s(100.0).is_below(s(95.0)));
    assert!(!s(-0.0).is_below(s(0.0)));
}

#[test]
fn scalar_is_equal_matches_floats() {
    for x in samples() {
        for y in samples() {
            assert_eq!(s(x).is_equal(s(y)), x == y, "{:?} == {:?}", x, y);
        }
    }
    assert!(s(-0.0).is_equal(s(0.0)));
    assert!(!s(f32::NAN).is_equal(s(f32::NAN)));
}

#[test]
fn scalar_order_has_one_answer_for_numbers() {
    for x in samples() {
        for y in samples() {
            let answers = [s(x).is_below(s(y)), s(x).is_equal(s(y)), s(y).is_below(s(x))];
            let count = answers.iter().filter(|a| **a).count();
            if x.is_nan() || y.is_nan() {
                assert_eq!(count, 0);
            } else {
                assert_eq!(count, 1);
            }
        }
    }
}

#[test]
fn scalar_negate_matches_floats() {
    for x in samples() {
        assert_eq!(s(x).negate().to_bits(), (-x).to_bits(), "{:?}", x);
        assert_eq!(s(x).negate().negate(), s(x));
    }
    assert_eq!(s(0.).negate().to_bits(), (-0.0f32).to_bits());
    assert_eq!(s(-2.5).negate(), s(2.5));
}

#[test]
fn scalar_to_u8_matches_the_cast_of_floats() {
    for x in samples() {
        assert_eq!(s(x).to_u8(), x as u8, "{:?}", x);
    }
    for x in [0.9, 1., 1.5, 127.5, 254.999, 255., 255.5, 256., 1.0e9, -0.5, -1., -300.] {
        assert_eq!(s(x).to_u8(), x as u8, "{:?}", x);
    }
    assert_eq!(s(127.5).to_u8(), 127);
    assert_eq!(s(f32::NAN).to_u8(), 0);
    assert_eq!(s(f32::INFINITY).to_u8(), 255);
    assert_eq!(s(-3.).to_u8(), 0);
}

#[test]
fn scalar_to_i16_matches_the_cast_of_floats() {
    for x in samples() {
        assert_eq!(s(x).to_i16(), x as i16, "{:?}", x);
    }
    for x in [
        0.9, -0.9, 1., -1., 1.5, -1.5, 95.7, -95.7, 32766.5, 32767., 32767.5, 32768., -32767.5,
        -32768., -32768.5, -32769., 65536., -65536., 8388608., 16777216., 3.0e38, -3.0e38,
    ] {
        assert_eq!(s(x).to_i16(), x as i16, "{:?}", x);
    }
    assert_eq!(s(-95.7).to_i16(), -95);
    assert_eq!(s(f32::NAN).to_i16(), 0);
    assert_eq!(s(f32::NEG_INFINITY).to_i16(), i16::MIN);
    assert_eq!(s(f32::INFINITY).to_i16(), i16::MAX);
}

#[test]
fn scalar_cuts_match_the_casts_across_the_encodings() {
    // Every 4093rd encoding, which meets every exponent under both signs.
    let mut bits: u32 = 0;
    loop {
        let x = f32::from_bits(bits);
        assert_eq!(Scalar::from_bits(bits).to_u8(), x as u8, "{:#x}", bits);
        assert_eq!(Scalar::from_bits(bits).to_i16(), x as i16, "{:#x}", bits);
        assert_eq!(Scalar::from_bits(bits).is_positive(), x > 0., "{:#x}", bits);
        assert_eq!(Scalar::from_bits(bits).is_nonzero(), x != 0., "{:#x}", bits);
        assert_eq!(Scalar::from_bits(bits).negate().to_bits(), (-x).to_bits(), "{:#x}", bits);
        match bits.checked_add(4093) {
            Some(next) => bits = next,
            None => break,
        }
    }
}

#[test]
fn scalar_order_matches_floats_across_the_encodings() {
    let mut a: u32 = 0;
    loop {
        let mut b: u32 = 77;
        loop {
            let (x, y) = (f32::from_bits(a), f32::from_bits(b));
            assert_eq!(Scalar::from_bits(a).is_below(Scalar::from_bits(b)), x < y);
            assert_eq!(Scalar::from_bits(a).is_equal(Scalar::from_bits(b)), x == y);
            match b.checked_add(16_769_023) {
                Some(next) => b = next,
                None => break,
            }
        }
        match a.checked_add(15_485_863) {
            Some(next) => a = next,
            None => break,
        }
    }
}
