//! Saturating time and fixed-point arithmetic at the edges.

use netsim::fixedpoint::{add_sat, div_fp_sat, mul_div_sat, round_fp, FP_SCALE};
use netsim::time::Time;

#[test]
fn products_saturate_at_the_top() {
    assert_eq!(mul_div_sat(u64::MAX, u64::MAX, 1), u64::MAX);
    assert_eq!(mul_div_sat(10, 9, 8), 11);
    assert_eq!(add_sat(u64::MAX, 1), u64::MAX);
    assert_eq!(add_sat(3, 4), 7);
}

#[test]
fn fixed_point_division_handles_a_zero_divisor() {
    assert_eq!(div_fp_sat(0, 0), 0);
    assert_eq!(div_fp_sat(5, 0), u64::MAX);
    assert_eq!(div_fp_sat(3 * FP_SCALE, FP_SCALE), 3 * FP_SCALE);
}

#[test]
fn rounding_is_half_up() {
    assert_eq!(round_fp(8 * FP_SCALE + FP_SCALE / 2), 9);
    assert_eq!(round_fp(8 * FP_SCALE + FP_SCALE / 2 - 1), 8);
    assert_eq!(round_fp(0), 0);
}

#[test]
fn time_arithmetic_saturates() {
    let top = Time::from_micros(u64::MAX);
    assert_eq!(top.add_time(Time::from_micros(5)).micros, u64::MAX);
    assert_eq!(Time::from_micros(3).sub_sat(Time::from_micros(9)).micros, 0);
    assert_eq!(Time::from_micros(9).sub_sat(Time::from_micros(3)).micros, 6);
    assert_eq!(Time::from_secs(2).micros, 2_000_000);
}
