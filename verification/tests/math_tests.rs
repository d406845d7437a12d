use obs_farm::wide::{div_rem_wide, mul_div_scale, mul_u128, OBS_PER_REWARD_DENOM};

const SCALE: u128 = 1_000_000_000_000_000_000;

#[test]
fn denom_is_ten_to_eighteen() {
    assert_eq!(OBS_PER_REWARD_DENOM, SCALE);
}

#[test]
fn mul_u128_small_values() {
    let (hi, lo) = mul_u128(12345, 6789);
    assert_eq!(hi, 0);
    assert_eq!(lo, 12345 * 6789);
}

#[test]
fn mul_u128_max_times_max() {
    // (2^128 - 1)^2 == (2^128 - 2) * 2^128 + 1
    let (hi, lo) = mul_u128(u128::MAX, u128::MAX);
    assert_eq!(hi, u128::MAX - 1);
    assert_eq!(lo, 1);
}

#[test]
fn mul_u128_crosses_the_boundary() {
    // 2^100 * 2^30 == 2^130 == 4 * 2^128
    let (hi, lo) = mul_u128(1u128 << 100, 1u128 << 30);
    assert_eq!(hi, 4);
    assert_eq!(lo, 0);
}

#[test]
fn div_rem_wide_halves_a_wide_value() {
    // (2^128 + 5) / 2 == 2^127 + 2 remainder 1
    let (q, r) = div_rem_wide(1, 5, 2);
    assert_eq!(q, (1u128 << 127) + 2);
    assert_eq!(r, 1);
}

#[test]
fn div_rem_wide_small_dividend() {
    let (q, r) = div_rem_wide(0, 1_000_000, 7);
    assert_eq!(q, 142857);
    assert_eq!(r, 1);
}

#[test]
fn mul_div_scale_simple() {
    // (7 * 3 * 1) / 2 == 10 (floor), scaled
    assert_eq!(mul_div_scale(7, 3, 1, 2), 10 * SCALE);
}

#[test]
fn mul_div_scale_wide_intermediate() {
    // 2^80 * 2^60 == 2^140, beyond the 128-bit range; / 2^100 == 2^40
    let r = mul_div_scale(1u128 << 80, 1u128 << 60, 1, 1u128 << 100);
    assert_eq!(r, (1u128 << 40) * SCALE);
}

#[test]
fn mul_div_scale_floors_before_scaling() {
    // (10 * 3 * 1) / 7 == 4 (floor of 4.28...), then scaled
    assert_eq!(mul_div_scale(10, 3, 1, 7), 4 * SCALE);
}

#[test]
fn mul_div_scale_accrual_shape() {
    // the accrual formula on realistic operands
    let r = mul_div_scale(1000, 964000, 1800, 31536000);
    assert_eq!(r, (1000u128 * 964000 * 1800 / 31536000) * SCALE);
    assert_eq!(r, 55022 * SCALE);
}
