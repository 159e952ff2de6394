use cordic::power::power_of_2;
use cordic::power::FRACTION_BITS;
use cordic::power::ONE;

#[test]
fn one_is_two_to_the_sixty_two() {
    assert_eq!(FRACTION_BITS, 62);
    assert_eq!(ONE, 1u64 << 62);
    assert_eq!(ONE, 4611686018427387904);
}

#[test]
fn exponent_zero_gives_one() {
    assert_eq!(power_of_2(0), ONE);
}

#[test]
fn each_step_down_halves() {
    assert_eq!(power_of_2(-1), 2305843009213693952);
    assert_eq!(power_of_2(-2), 1152921504606846976);
    assert_eq!(power_of_2(-3), 576460752303423488);
    assert_eq!(power_of_2(-9), 9007199254740992);
    assert_eq!(power_of_2(-61), 2);
    assert_eq!(power_of_2(-62), 1);
}

#[test]
fn powers_are_exact_down_to_the_last_bit() {
    let mut n: i32 = 0;
    while n >= -62 {
        let p = power_of_2(n);
        assert_eq!(p, 1u64 << (62 + n));
        assert_eq!((p as u128) << (-n), ONE as u128);
        assert_eq!(p as f64 / ONE as f64, 2f64.powi(n));
        n -= 1;
    }
}

#[test]
fn powers_below_the_last_bit_round_down_to_zero() {
    assert_eq!(power_of_2(-63), 0);
    assert_eq!(power_of_2(-64), 0);
    assert_eq!(power_of_2(-1000), 0);
}
