use rust_decimal::Decimal;
use verband::decimal::{MAX_MAGNITUDE, MAX_SCALE};
use verband::Dec;

fn outside(d: Dec) -> Decimal {
    let mut x = Decimal::from_i128_with_scale(d.magnitude() as i128, d.scale());
    x.set_sign_negative(d.is_sign_negative());
    x
}

fn inside(x: Decimal) -> Dec {
    Dec::from_magnitude(x.mantissa().unsigned_abs(), x.is_sign_negative(), x.scale()).unwrap()
}

#[test]
fn new_keeps_sign_magnitude_and_scale() {
    let d = Dec::new(3141, 3);
    assert_eq!((d.magnitude(), d.is_sign_negative(), d.scale()), (3141, false, 3));
    let d = Dec::new(-3141, 3);
    assert_eq!((d.magnitude(), d.is_sign_negative(), d.scale()), (3141, true, 3));
    let d = Dec::new(0, 28);
    assert_eq!((d.magnitude(), d.is_sign_negative(), d.scale()), (0, false, 28));
    let d = Dec::new(i64::MIN, 0);
    assert_eq!((d.magnitude(), d.is_sign_negative(), d.scale()), (1u128 << 63, true, 0));
    let d = Dec::new(i64::MAX, 1);
    assert_eq!((d.magnitude(), d.is_sign_negative(), d.scale()), (i64::MAX as u128, false, 1));
}

#[test]
fn new_builds_what_the_decimal_crate_builds() {
    for num in [0i64, 1, -1, 50, 107364, -107364, 4294967295, 4294967296, i64::MAX, i64::MIN] {
        for scale in [0u32, 1, 2, 27, 28] {
            assert_eq!(Dec::new(num, scale), inside(Decimal::new(num, scale)));
            assert_eq!(outside(Dec::new(num, scale)).unpack(), Decimal::new(num, scale).unpack());
        }
    }
}

#[test]
fn from_magnitude_accepts_96_bits_and_28_digits() {
    assert_eq!(MAX_MAGNITUDE, (1u128 << 96) - 1);
    assert_eq!(MAX_SCALE, 28);
    let d = Dec::from_magnitude(MAX_MAGNITUDE, true, MAX_SCALE).unwrap();
    assert_eq!((d.magnitude(), d.is_sign_negative(), d.scale()), (MAX_MAGNITUDE, true, 28));
    assert_eq!(outside(Dec::from_magnitude(MAX_MAGNITUDE, false, 0).unwrap()), Decimal::MAX);
    assert_eq!(Dec::from_magnitude(MAX_MAGNITUDE + 1, false, 0), None);
    assert_eq!(Dec::from_magnitude(u128::MAX, false, 0), None);
    assert_eq!(Dec::from_magnitude(1, false, MAX_SCALE + 1), None);
    assert_eq!(Dec::from_magnitude(0, true, 0).map(|d| d.is_sign_negative()), Some(true));
}

#[test]
fn magnitude_spans_all_three_words() {
    for magnitude in [0u128, 1, 0xffff_ffff, 0x1_0000_0000, 0xffff_ffff_ffff_ffff, 0x1_0000_0000_0000_0000, 0x1234_5678_9abc_def0_0fed_cba9, MAX_MAGNITUDE] {
        let d = Dec::from_magnitude(magnitude, false, 5).unwrap();
        assert_eq!(d.magnitude(), magnitude);
        assert_eq!(outside(d).mantissa(), magnitude as i128);
    }
}

#[test]
fn from_u64_is_a_whole_number() {
    for n in [0u64, 1, 12, 100, 360, 4294967295, 4294967296, 4800000000, u64::MAX] {
        let d = Dec::from_u64(n);
        assert_eq!((d.magnitude(), d.is_sign_negative(), d.scale()), (n as u128, false, 0));
        assert_eq!(d, inside(Decimal::from(n)));
    }
}

#[test]
fn is_zero_looks_at_the_magnitude_only() {
    assert!(Dec::new(0, 0).is_zero());
    assert!(Dec::new(0, 28).is_zero());
    assert!(Dec::from_magnitude(0, true, 3).unwrap().is_zero());
    assert!(!Dec::new(1, 28).is_zero());
    assert!(!Dec::new(-1, 0).is_zero());
    assert!(!Dec::from_magnitude(1u128 << 32, false, 0).unwrap().is_zero());
    assert!(!Dec::from_magnitude(1u128 << 64, false, 0).unwrap().is_zero());
}

#[test]
fn neg_flips_the_sign_and_nothing_else() {
    assert_eq!(Dec::new(360, 0).neg(), Dec::new(-360, 0));
    assert_eq!(Dec::new(-125, 2).neg(), Dec::new(125, 2));
    assert_eq!(Dec::new(5, 1).neg().neg(), Dec::new(5, 1));
    let zero = Dec::new(0, 4).neg();
    assert_eq!((zero.magnitude(), zero.is_sign_negative(), zero.scale()), (0, true, 4));
    for d in [Dec::new(360, 0), Dec::new(-125, 2), Dec::new(0, 4)] {
        assert_eq!(outside(d.neg()).unpack(), (-outside(d)).unpack());
    }
}

#[test]
fn round_dp_sends_ties_to_the_even_neighbour() {
    assert_eq!(Dec::new(125, 3).round_dp(2), Dec::new(12, 2));
    assert_eq!(Dec::new(135, 3).round_dp(2), Dec::new(14, 2));
    assert_eq!(Dec::new(25, 1).round_dp(0), Dec::new(2, 0));
    assert_eq!(Dec::new(35, 1).round_dp(0), Dec::new(4, 0));
    assert_eq!(Dec::new(-25, 1).round_dp(0), Dec::new(-2, 0));
    assert_eq!(Dec::new(-35, 1).round_dp(0), Dec::new(-4, 0));
    assert_eq!(Dec::new(1250000000000000, 15).round_dp(1), Dec::new(12, 1));
    assert_eq!(Dec::new(1250000000000001, 15).round_dp(1), Dec::new(13, 1));
}

#[test]
fn round_dp_rounds_to_the_nearer_neighbour() {
    assert_eq!(Dec::new(10736432, 4).round_dp(2), Dec::new(107364, 2));
    assert_eq!(Dec::new(8333333, 4).round_dp(2), Dec::new(83333, 2));
    assert_eq!(Dec::new(8336666, 4).round_dp(2), Dec::new(83367, 2));
    assert_eq!(Dec::new(-8336666, 4).round_dp(2), Dec::new(-83367, 2));
    assert_eq!(Dec::new(1249, 3).round_dp(1), Dec::new(12, 1));
    assert_eq!(Dec::new(1251, 3).round_dp(1), Dec::new(13, 1));
    assert_eq!(Dec::new(9999, 3).round_dp(2), Dec::new(1000, 2));
}

#[test]
fn round_dp_leaves_short_numbers_alone() {
    for d in [Dec::new(50000, 0), Dec::new(5, 1), Dec::new(-107364, 2), Dec::new(0, 0), Dec::new(0, 2)] {
        assert_eq!(d.round_dp(2), d);
        assert_eq!(d.round_dp(28), d);
        assert_eq!(d.round_dp(u32::MAX), d);
    }
    let negative_zero = Dec::from_magnitude(0, true, 2).unwrap();
    assert_eq!(negative_zero.round_dp(2), negative_zero);
}

#[test]
fn round_dp_of_a_zero_keeps_its_sign() {
    assert_eq!(Dec::new(0, 5).round_dp(2), Dec::new(0, 2));
    let negative_zero = Dec::from_magnitude(0, true, 5).unwrap();
    assert_eq!(negative_zero.round_dp(2), Dec::from_magnitude(0, true, 2).unwrap());
}

#[test]
fn round_dp_to_zero_drops_the_sign() {
    assert_eq!(Dec::new(-1, 3).round_dp(2), Dec::new(0, 2));
    assert_eq!(Dec::new(-5, 3).round_dp(2), Dec::new(0, 2));
    assert_eq!(Dec::new(-6, 3).round_dp(2), Dec::new(-1, 2));
    assert_eq!(Dec::new(-4, 1).round_dp(0), Dec::new(0, 0));
}

#[test]
fn round_dp_handles_the_widest_numbers() {
    let widest = Dec::from_magnitude(MAX_MAGNITUDE, false, 28).unwrap();
    assert_eq!(widest.round_dp(0), Dec::new(8, 0));
    assert_eq!(widest.round_dp(2), Dec::new(792, 2));
    assert_eq!(
        widest.round_dp(27),
        Dec::from_magnitude(7922816251426433759354395034, false, 27).unwrap()
    );
    let widest = Dec::from_magnitude(MAX_MAGNITUDE, true, 1).unwrap();
    assert_eq!(
        widest.round_dp(0),
        Dec::from_magnitude(7922816251426433759354395034, true, 0).unwrap()
    );
}

#[test]
fn round_dp_rounds_as_the_decimal_crate_rounds() {
    let magnitudes = [
        0u128, 1, 4, 5, 6, 49, 50, 51, 149, 150, 151, 249, 250, 251, 999, 4999, 5000, 5001,
        14999, 15000, 15001, 99995, 123456789, 500000000, 1500000000, 2500000000,
        4294967295, 4294967296, 99999999999999999999, 10736432460242779696569851645,
        8333333333333333333333333333, 50000000000000000000000000000,
        15000000000000000000000000000, 25000000000000000000000000000, MAX_MAGNITUDE,
    ];
    for magnitude in magnitudes {
        for scale in 0..=MAX_SCALE {
            for negative in [false, true] {
                let d = Dec::from_magnitude(magnitude, negative, scale).unwrap();
                for dp in [0u32, 1, 2, 3, 9, 10, 18, 19, 27, 28, 29] {
                    let ours = d.round_dp(dp);
                    let theirs = outside(d).round_dp(dp);
                    assert_eq!(outside(ours).unpack(), theirs.unpack());
                    assert_eq!(ours.round_dp(dp), ours);
                }
            }
        }
    }
}
