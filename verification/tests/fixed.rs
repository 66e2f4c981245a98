use solar_renderer::fixed::{
    div_floor, from_int, fx_add, fx_clamp, fx_div, fx_mul, fx_sub, isqrt, narrow, saturate_i32,
    wide_product, HALF, ONE,
};

#[test]
fn one_and_half() {
    assert_eq!(ONE, 65536);
    assert_eq!(HALF * 2, ONE);
    assert_eq!(from_int(3), 3 * ONE);
    assert_eq!(from_int(40000), i32::MAX);
    assert_eq!(from_int(-40000), i32::MIN);
}

#[test]
fn product_is_rounded_down_and_pinned() {
    assert_eq!(fx_mul(3 * ONE, 2 * ONE), 6 * ONE);
    assert_eq!(fx_mul(HALF, HALF), ONE / 4);
    assert_eq!(fx_mul(1, 1), 0);
    assert_eq!(fx_mul(-1, 1), -1);
    assert_eq!(fx_mul(-3 * ONE, HALF), -3 * HALF);
    assert_eq!(fx_mul(i32::MAX, i32::MAX), i32::MAX);
    assert_eq!(fx_mul(i32::MIN, i32::MAX), i32::MIN);
    assert_eq!(fx_mul(i32::MIN, i32::MIN), i32::MAX);
    assert_eq!(wide_product(i32::MIN, i32::MIN), 1i64 << 62);
}

#[test]
fn quotient_is_rounded_down_and_pinned() {
    assert_eq!(fx_div(6 * ONE, 2 * ONE), 3 * ONE);
    assert_eq!(fx_div(ONE, 3 * ONE), 21845);
    assert_eq!(fx_div(-ONE, 3 * ONE), -21846);
    assert_eq!(fx_div(ONE, -3 * ONE), -21846);
    assert_eq!(fx_div(-ONE, -3 * ONE), 21845);
    assert_eq!(fx_div(i32::MAX, 1), i32::MAX);
    assert_eq!(fx_div(i32::MIN, 1), i32::MIN);
}

#[test]
fn division_by_zero_goes_to_the_end_of_the_range() {
    assert_eq!(fx_div(5, 0), i32::MAX);
    assert_eq!(fx_div(-5, 0), i32::MIN);
    assert_eq!(fx_div(0, 0), 0);
}

#[test]
fn sum_and_difference_are_pinned() {
    assert_eq!(fx_add(ONE, HALF), 3 * HALF);
    assert_eq!(fx_add(i32::MAX, 1), i32::MAX);
    assert_eq!(fx_sub(i32::MIN, 1), i32::MIN);
    assert_eq!(fx_sub(ONE, 3 * ONE), -2 * ONE);
}

#[test]
fn clamp_and_saturate() {
    assert_eq!(fx_clamp(5, 10, 20), 10);
    assert_eq!(fx_clamp(25, 10, 20), 20);
    assert_eq!(fx_clamp(15, 10, 20), 15);
    assert_eq!(saturate_i32(1i128 << 40), i32::MAX);
    assert_eq!(saturate_i32(-(1i128 << 40)), i32::MIN);
    assert_eq!(saturate_i32(-7), -7);
    assert_eq!(narrow(3 * 65536 * 65536), 3 * ONE);
    assert_eq!(narrow(-1), -1);
}

#[test]
fn floor_division_of_every_sign() {
    assert_eq!(div_floor(7, 2), 3);
    assert_eq!(div_floor(-7, 2), -4);
    assert_eq!(div_floor(7, -2), -4);
    assert_eq!(div_floor(-7, -2), 3);
    assert_eq!(div_floor(-8, 2), -4);
    assert_eq!(div_floor(0, -5), 0);
    assert_eq!(div_floor(-1, 1_000_000), -1);
    assert_eq!(div_floor(7, 0), 0);
    assert_eq!(div_floor(i128::MAX, -1), -i128::MAX);
    assert_eq!(div_floor(-i128::MAX, i128::MAX), -1);
}

#[test]
fn integer_square_root() {
    assert_eq!(isqrt(0), 0);
    assert_eq!(isqrt(1), 1);
    assert_eq!(isqrt(3), 1);
    assert_eq!(isqrt(4), 2);
    assert_eq!(isqrt(99), 9);
    assert_eq!(isqrt(100), 10);
    assert_eq!(isqrt(u64::MAX), u32::MAX);
    assert_eq!(isqrt((1u64 << 32) - 1), 65535);
    for n in [5u64, 1 << 20, 123_456_789_012, (1 << 62) + 17] {
        let r = isqrt(n) as u128;
        assert!(r * r <= n as u128 && (n as u128) < (r + 1) * (r + 1));
    }
}
