//! Sine and cosine of fixed-point angles given in degrees.
//!
//! The angle is first reduced to one turn, then folded into the first
//! quarter turn by the usual symmetries, converted to radians, and
//! approximated by the odd Taylor polynomial of degree seven. The quarter
//! turn itself is answered exactly, so right angles and whole turns give
//! exact 0 and +/-1 values and a whole turn is exactly the identity
//! rotation.

use vstd::prelude::*;
use vstd::arithmetic::div_mod::{lemma_mod_multiples_vanish, lemma_mod_division_less_than_divisor};
use crate::fx::{Fx, fx_add, fx_mul, fx_neg, FX_ONE};

verus! {

/// Raw units in a full turn of 360 degrees.
pub const DEG_FULL: i64 = 360 * 65536;

/// Raw units in a half turn of 180 degrees.
pub const DEG_HALF: i64 = 180 * 65536;

/// Raw units in a quarter turn of 90 degrees.
pub const DEG_QUARTER: i64 = 90 * 65536;

/// Radians per degree in raw units: the nearest integer to pi / 180 scaled
/// by `FX_ONE`.
pub const RAD_PER_DEG: i64 = 1144;

/// The reciprocal of 6 in raw units, for the cubic Taylor term.
pub const INV_SIX: i64 = 10923;

/// The reciprocal of 120 in raw units, for the quintic Taylor term.
pub const INV_120: i64 = 546;

/// The reciprocal of 5040 in raw units, for the degree-seven Taylor term.
pub const INV_5040: i64 = 13;

/// A positive multiple of `DEG_FULL` larger than any `i64` magnitude, used
/// to shift an angle to a nonnegative representative before reduction.
const DEG_SHIFT: i128 = (360 * 65536) * 549755813888;

/// The angle reduced to `[0, DEG_FULL)`: its nonnegative remainder of a
/// full turn.
pub open spec fn reduce_deg(a: int) -> int {
    a % (DEG_FULL as int)
}

/// The odd Taylor polynomial of degree seven for the sine of `x` radians,
/// evaluated with the saturating fixed-point operations.
pub open spec fn sin_taylor(x: int) -> int {
    let x2 = fx_mul(x, x);
    let x3 = fx_mul(x2, x);
    let x5 = fx_mul(x3, x2);
    let x7 = fx_mul(x5, x2);
    fx_add(
        fx_add(fx_add(x, fx_neg(fx_mul(x3, INV_SIX as int))), fx_mul(x5, INV_120 as int)),
        fx_neg(fx_mul(x7, INV_5040 as int)),
    )
}

/// The sine of `a` raw degree units: the angle is reduced to one turn,
/// folded into the first quarter by symmetry, and approximated by
/// `sin_taylor`; an exact quarter turn is exactly one.
pub open spec fn sin_deg(a: int) -> int {
    let r = reduce_deg(a);
    let neg = r >= DEG_HALF as int;
    let q = if neg { r - DEG_HALF as int } else { r };
    let p = if q > DEG_QUARTER as int { DEG_HALF as int - q } else { q };
    let mag = if p == DEG_QUARTER as int {
        FX_ONE as int
    } else {
        sin_taylor(fx_mul(p, RAD_PER_DEG as int))
    };
    if neg { fx_neg(mag) } else { mag }
}

/// The cosine of `a` raw degree units: the sine of the angle advanced by a
/// quarter turn.
pub open spec fn cos_deg(a: int) -> int {
    sin_deg(reduce_deg(a) + DEG_QUARTER as int)
}

/// Reduce a raw angle to `[0, DEG_FULL)`.
fn reduce(a: i64) -> (r: i64)
    ensures
        r as int == reduce_deg(a as int),
        0 <= r < DEG_FULL,
{
    let t: i128 = (a as i128) + DEG_SHIFT;
    proof {
        lemma_mod_multiples_vanish(549755813888, a as int, DEG_FULL as int);
        lemma_mod_division_less_than_divisor(t as int, DEG_FULL as int);
    }
    let m: i128 = t.checked_rem_euclid(DEG_FULL as i128).unwrap();
    m as i64
}

/// Evaluate the sine Taylor polynomial at `x` radians.
fn sin_taylor_fx(x: Fx) -> (r: Fx)
    ensures
        r@ == sin_taylor(x@),
{
    let x2 = x.mul(x);
    let x3 = x2.mul(x);
    let x5 = x3.mul(x2);
    let x7 = x5.mul(x2);
    x.add(x3.mul(Fx::from_raw(INV_SIX)).neg())
        .add(x5.mul(Fx::from_raw(INV_120)))
        .add(x7.mul(Fx::from_raw(INV_5040)).neg())
}

/// The sine of an angle in degrees.
pub fn fx_sin_deg(a: Fx) -> (r: Fx)
    ensures
        r@ == sin_deg(a@),
{
    let red: i64 = reduce(a.raw);
    let neg: bool = red >= DEG_HALF;
    let q: i64 = if neg { red - DEG_HALF } else { red };
    let p: i64 = if q > DEG_QUARTER { DEG_HALF - q } else { q };
    let mag: Fx = if p == DEG_QUARTER {
        Fx::one()
    } else {
        sin_taylor_fx(Fx::from_raw(p).mul(Fx::from_raw(RAD_PER_DEG)))
    };
    if neg { mag.neg() } else { mag }
}

/// The cosine of an angle in degrees.
pub fn fx_cos_deg(a: Fx) -> (r: Fx)
    ensures
        r@ == cos_deg(a@),
{
    let red: i64 = reduce(a.raw);
    fx_sin_deg(Fx::from_raw(red + DEG_QUARTER))
}

} // verus!
