use cordic::sign_magnitude::add_values;

fn signed(magnitude: u64, sign: bool) -> i128 {
    if sign {
        magnitude as i128
    } else {
        -(magnitude as i128)
    }
}

#[test]
fn equal_signs_add_the_magnitudes() {
    assert_eq!(add_values(5, 3, true, true), (8, true));
    assert_eq!(add_values(5, 3, false, false), (8, false));
    assert_eq!(add_values(0, 7, true, true), (7, true));
    assert_eq!(add_values(7, 0, false, false), (7, false));
}

#[test]
fn different_signs_subtract_the_smaller_magnitude() {
    assert_eq!(add_values(5, 3, true, false), (2, true));
    assert_eq!(add_values(5, 3, false, true), (2, false));
    assert_eq!(add_values(3, 5, true, false), (2, false));
    assert_eq!(add_values(3, 5, false, true), (2, true));
}

#[test]
fn a_tie_is_zero_under_the_first_sign() {
    assert_eq!(add_values(5, 5, true, false), (0, true));
    assert_eq!(add_values(5, 5, false, true), (0, false));
    assert_eq!(add_values(0, 0, true, false), (0, true));
    assert_eq!(add_values(0, 0, false, true), (0, false));
}

#[test]
fn two_zeros_of_one_sign_keep_it() {
    assert_eq!(add_values(0, 0, true, true), (0, true));
    assert_eq!(add_values(0, 0, false, false), (0, false));
}

#[test]
fn the_largest_magnitudes_are_handled() {
    assert_eq!(add_values(u64::MAX, 0, true, true), (u64::MAX, true));
    assert_eq!(add_values(u64::MAX - 1, 1, false, false), (u64::MAX, false));
    assert_eq!(add_values(u64::MAX, u64::MAX, true, false), (0, true));
    assert_eq!(add_values(0, u64::MAX, true, false), (u64::MAX, false));
    assert_eq!(add_values(u64::MAX, 1, false, true), (u64::MAX - 1, false));
}

#[test]
fn the_result_stands_for_the_sum_of_the_two_values() {
    let magnitudes: [u64; 9] = [
        0,
        1,
        2,
        3,
        1000,
        4611686018427387904,
        6917529027641081856,
        9223372036854775807,
        9223372036854775808,
    ];
    let signs = [true, false];
    for &a in magnitudes.iter() {
        for &b in magnitudes.iter() {
            for &sign_a in signs.iter() {
                for &sign_b in signs.iter() {
                    if sign_a == sign_b && a.checked_add(b).is_none() {
                        continue;
                    }
                    let (magnitude, sign) = add_values(a, b, sign_a, sign_b);
                    assert_eq!(signed(magnitude, sign), signed(a, sign_a) + signed(b, sign_b));
                    if magnitude == 0 {
                        assert_eq!(sign, sign_a);
                    }
                }
            }
        }
    }
}

#[test]
fn adding_is_repeatable() {
    assert_eq!(add_values(17, 42, true, false), add_values(17, 42, true, false));
    assert_eq!(add_values(42, 17, false, false), add_values(42, 17, false, false));
}
