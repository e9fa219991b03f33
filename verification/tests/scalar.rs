//! Exactness and saturation checks for the fixed-point scalar type.

use three_body::fixed::{Fx, SCALE};

fn fx(v: f64) -> Fx {
    Fx { bits: (v * 4294967296.0).round() as i64 }
}

fn to_f64(a: Fx) -> f64 {
    a.bits as f64 / 4294967296.0
}

#[test]
fn from_int_scales_exactly() {
    assert_eq!(Fx::from_int(0).bits, 0);
    assert_eq!(Fx::from_int(1).bits, SCALE);
    assert_eq!(Fx::from_int(-7).bits, -7 * SCALE);
}

#[test]
fn from_int_saturates_out_of_range() {
    // 2^31 * 2^32 == 2^63 is one past i64::MAX.
    assert_eq!(Fx::from_int(1 << 31).bits, i64::MAX);
    assert_eq!(Fx::from_int(-(1 << 32)).bits, i64::MIN);
}

#[test]
fn add_and_sub_are_exact_in_range() {
    let a = fx(1.5);
    let b = fx(2.25);
    assert_eq!(a.add(b).bits, fx(3.75).bits);
    assert_eq!(a.sub(b).bits, fx(-0.75).bits);
}

#[test]
fn add_saturates() {
    let top = Fx { bits: i64::MAX };
    assert_eq!(top.add(Fx::one()).bits, i64::MAX);
    let bottom = Fx { bits: i64::MIN };
    assert_eq!(bottom.sub(Fx::one()).bits, i64::MIN);
}

#[test]
fn neg_of_minimum_saturates() {
    let bottom = Fx { bits: i64::MIN };
    assert_eq!(bottom.neg().bits, i64::MAX);
    assert_eq!(Fx::from_int(5).neg().bits, -5 * SCALE);
}

#[test]
fn mul_is_exact_on_small_integers() {
    let a = Fx::from_int(2);
    let b = Fx::from_int(3);
    assert_eq!(a.mul(b).bits, 6 * SCALE);
    assert_eq!(a.mul(fx(-0.5)).bits, -SCALE);
}

#[test]
fn mul_truncates_toward_zero() {
    // The smallest positive scalar squared underflows to exactly zero, from
    // either sign.
    let eps = Fx { bits: 1 };
    assert_eq!(eps.mul(eps).bits, 0);
    assert_eq!(eps.neg().mul(eps).bits, 0);
}

#[test]
fn div_is_exact_on_powers_of_two() {
    assert_eq!(Fx::from_int(1).div(Fx::from_int(2)).bits, SCALE / 2);
    assert_eq!(Fx::from_int(-3).div(Fx::from_int(4)).bits, -3 * SCALE / 4);
}

#[test]
fn div_by_zero_is_zero() {
    assert_eq!(Fx::from_int(17).div(Fx::zero()).bits, 0);
    assert_eq!(Fx::from_int(-17).div(Fx::zero()).bits, 0);
    assert_eq!(Fx::zero().div(Fx::zero()).bits, 0);
}

#[test]
fn sqrt_is_exact_on_perfect_squares() {
    assert_eq!(Fx::from_int(4).sqrt().bits, 2 * SCALE);
    assert_eq!(Fx::from_int(9).sqrt().bits, 3 * SCALE);
    assert_eq!(Fx::from_int(0).sqrt().bits, 0);
}

#[test]
fn sqrt_of_negative_is_zero() {
    assert_eq!(Fx::from_int(-4).sqrt().bits, 0);
}

#[test]
fn sqrt_approximates_irrational_roots() {
    let r = to_f64(Fx::from_int(2).sqrt());
    assert!((r - 2.0f64.sqrt()).abs() < 1e-9);
    let s = to_f64(fx(115.47).sqrt());
    assert!((s - 115.47f64.sqrt()).abs() < 1e-9);
}
