use wuengine::fx::{Fx, FX_ONE};
use wuengine::trig::{fx_cos_deg, fx_sin_deg};

#[test]
fn from_int_scales_exactly() {
    assert_eq!(Fx::from_int(1).raw, FX_ONE);
    assert_eq!(Fx::from_int(-2).raw, -2 * FX_ONE);
    assert_eq!(Fx::from_int(0).raw, 0);
}

#[test]
fn mul_of_integers_is_exact() {
    let six = Fx::from_int(3).mul(Fx::from_int(2));
    assert_eq!(six.raw, 6 * FX_ONE);
    let minus_six = Fx::from_int(3).mul(Fx::from_int(-2));
    assert_eq!(minus_six.raw, -6 * FX_ONE);
}

#[test]
fn div_halves_exactly() {
    let half = Fx::from_int(1).div(Fx::from_int(2));
    assert_eq!(half.raw, FX_ONE / 2);
}

#[test]
fn div_by_zero_saturates() {
    assert_eq!(Fx::from_int(1).div(Fx::zero()).raw, i64::MAX);
    assert_eq!(Fx::from_int(-1).div(Fx::zero()).raw, i64::MIN);
    assert_eq!(Fx::zero().div(Fx::zero()).raw, 0);
}

#[test]
fn add_saturates_at_bounds() {
    let big = Fx::from_raw(i64::MAX);
    assert_eq!(big.add(big).raw, i64::MAX);
    let low = Fx::from_raw(i64::MIN);
    assert_eq!(low.add(low).raw, i64::MIN);
}

#[test]
fn floor_rounds_toward_negative_infinity() {
    assert_eq!(Fx::from_int(3).floor(), 3);
    assert_eq!(Fx::from_raw(3 * FX_ONE + 1).floor(), 3);
    assert_eq!(Fx::from_raw(-5 * FX_ONE / 2).floor(), -3);
    assert_eq!(Fx::from_raw(-1).floor(), -1);
}

#[test]
fn sine_of_cardinal_angles_is_exact() {
    assert_eq!(fx_sin_deg(Fx::from_int(0)).raw, 0);
    assert_eq!(fx_sin_deg(Fx::from_int(90)).raw, FX_ONE);
    assert_eq!(fx_sin_deg(Fx::from_int(180)).raw, 0);
    assert_eq!(fx_sin_deg(Fx::from_int(270)).raw, -FX_ONE);
    assert_eq!(fx_sin_deg(Fx::from_int(360)).raw, 0);
}

#[test]
fn cosine_of_cardinal_angles_is_exact() {
    assert_eq!(fx_cos_deg(Fx::from_int(0)).raw, FX_ONE);
    assert_eq!(fx_cos_deg(Fx::from_int(90)).raw, 0);
    assert_eq!(fx_cos_deg(Fx::from_int(180)).raw, -FX_ONE);
    assert_eq!(fx_cos_deg(Fx::from_int(270)).raw, 0);
    assert_eq!(fx_cos_deg(Fx::from_int(360)).raw, FX_ONE);
}

#[test]
fn sine_of_thirty_degrees_is_near_half() {
    let s = fx_sin_deg(Fx::from_int(30)).raw;
    assert!((s - FX_ONE / 2).abs() < 100, "sin 30 deg was {}", s);
    let c = fx_cos_deg(Fx::from_int(60)).raw;
    assert!((c - FX_ONE / 2).abs() < 100, "cos 60 deg was {}", c);
}

#[test]
fn negative_angles_reduce_correctly() {
    assert_eq!(fx_sin_deg(Fx::from_int(-90)).raw, -FX_ONE);
    assert_eq!(fx_cos_deg(Fx::from_int(-360)).raw, FX_ONE);
}
