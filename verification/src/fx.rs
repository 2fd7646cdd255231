//! Fixed-point scalar arithmetic.
//!
//! A scalar is an `i64` counting units of `1 / FX_ONE`, so the value `1.0`
//! is the raw integer `FX_ONE`. Every operation saturates at the `i64`
//! bounds and is specified exactly, over mathematical integers, by the
//! `fx_*` spec functions below. Division rounds toward negative infinity
//! (Euclidean division by a positive divisor).

use vstd::prelude::*;
use vstd::arithmetic::div_mod::lemma_fundamental_div_mod;

verus! {

/// Raw units per 1.0 of scalar value.
pub const FX_ONE: i64 = 65536;

/// A saturating fixed-point scalar; `raw` counts units of `1 / FX_ONE`.
#[derive(Clone, Copy, PartialEq, Eq, Structural, Debug)]
pub struct Fx {
    pub raw: i64,
}

impl View for Fx {
    type V = int;

    open spec fn view(&self) -> int {
        self.raw as int
    }
}

/// Saturate a mathematical integer at the `i64` bounds.
pub open spec fn fx_clamp(v: int) -> int {
    if v > i64::MAX {
        i64::MAX as int
    } else if v < i64::MIN {
        i64::MIN as int
    } else {
        v
    }
}

/// Saturating addition on raw values.
pub open spec fn fx_add(a: int, b: int) -> int {
    fx_clamp(a + b)
}

/// Saturating negation on raw values.
pub open spec fn fx_neg(a: int) -> int {
    fx_clamp(-a)
}

/// Saturating fixed-point multiplication: the product of the represented
/// values, scaled back down, rounded toward negative infinity.
pub open spec fn fx_mul(a: int, b: int) -> int {
    fx_clamp((a * b) / (FX_ONE as int))
}

/// Saturating fixed-point division: the quotient of the represented values,
/// rounded toward negative infinity. A zero divisor saturates by the sign
/// of the dividend, standing in for an infinite quotient.
pub open spec fn fx_div(a: int, b: int) -> int {
    if b == 0 {
        if a > 0 {
            i64::MAX as int
        } else if a < 0 {
            i64::MIN as int
        } else {
            0
        }
    } else {
        fx_clamp((a * (FX_ONE as int)) / b)
    }
}

/// The largest integer at or below the represented value.
pub open spec fn fx_floor(a: int) -> int {
    a / (FX_ONE as int)
}

/// The raw value standing for the integer `v`, saturated.
pub open spec fn fx_of_int(v: int) -> int {
    fx_clamp(v * (FX_ONE as int))
}

/// Euclidean division of a bounded dividend stays within a slightly wider
/// bound, whatever the sign of the divisor.
proof fn lemma_div_magnitude(p: int, d: int, m: int)
    requires
        d != 0,
        0 <= m,
        -m <= p <= m,
    ensures
        -m - 1 <= p / d <= m + 1,
{
    lemma_fundamental_div_mod(p, d);
    let q = p / d;
    let r = p % d;
    assert(-m - 1 <= q <= m + 1) by (nonlinear_arith)
        requires
            d != 0,
            0 <= m,
            -m <= p <= m,
            p == d * q + r,
            0 <= r < (if d > 0 { d } else { -d }),
    ;
}

impl Fx {
    /// Wrap a raw count of `1 / FX_ONE` units.
    pub fn from_raw(raw: i64) -> (r: Fx)
        ensures
            r@ == raw as int,
    {
        Fx { raw }
    }

    /// The scalar standing for the integer `v`, saturated.
    pub fn from_int(v: i64) -> (r: Fx)
        ensures
            r@ == fx_of_int(v as int),
    {
        proof {
            assert(-0x4000_0000_0000_0000_0000_0000_0000_0000
                <= (v as int) * (FX_ONE as int)
                <= 0x4000_0000_0000_0000_0000_0000_0000_0000) by (nonlinear_arith)
                requires
                    i64::MIN <= v <= i64::MAX,
                    FX_ONE == 65536,
            ;
        }
        let wide: i128 = (v as i128) * (FX_ONE as i128);
        Fx { raw: clamp_i128(wide) }
    }

    /// The zero scalar.
    pub fn zero() -> (r: Fx)
        ensures
            r@ == 0,
    {
        Fx { raw: 0 }
    }

    /// The scalar 1.0.
    pub fn one() -> (r: Fx)
        ensures
            r@ == FX_ONE as int,
    {
        Fx { raw: FX_ONE }
    }

    /// Saturating addition.
    pub fn add(self, o: Fx) -> (r: Fx)
        ensures
            r@ == fx_add(self@, o@),
    {
        let wide: i128 = (self.raw as i128) + (o.raw as i128);
        Fx { raw: clamp_i128(wide) }
    }

    /// Saturating negation.
    pub fn neg(self) -> (r: Fx)
        ensures
            r@ == fx_neg(self@),
    {
        let wide: i128 = -(self.raw as i128);
        Fx { raw: clamp_i128(wide) }
    }

    /// Saturating fixed-point multiplication.
    pub fn mul(self, o: Fx) -> (r: Fx)
        ensures
            r@ == fx_mul(self@, o@),
    {
        proof {
            assert(-0x4000_0000_0000_0000_0000_0000_0000_0000
                <= (self.raw as int) * (o.raw as int)
                <= 0x4000_0000_0000_0000_0000_0000_0000_0000) by (nonlinear_arith)
                requires
                    i64::MIN <= self.raw <= i64::MAX,
                    i64::MIN <= o.raw <= i64::MAX,
            ;
        }
        let p: i128 = (self.raw as i128) * (o.raw as i128);
        proof {
            lemma_div_magnitude(p as int, FX_ONE as int, 0x4000_0000_0000_0000_0000_0000_0000_0000);
        }
        let q: i128 = p.checked_div_euclid(FX_ONE as i128).unwrap();
        Fx { raw: clamp_i128(q) }
    }

    /// Saturating fixed-point division; a zero divisor saturates by the
    /// sign of the dividend.
    pub fn div(self, o: Fx) -> (r: Fx)
        ensures
            r@ == fx_div(self@, o@),
    {
        if o.raw == 0 {
            if self.raw > 0 {
                Fx { raw: i64::MAX }
            } else if self.raw < 0 {
                Fx { raw: i64::MIN }
            } else {
                Fx { raw: 0 }
            }
        } else {
            proof {
                assert(-0x4000_0000_0000_0000_0000_0000_0000_0000
                    <= (self.raw as int) * (FX_ONE as int)
                    <= 0x4000_0000_0000_0000_0000_0000_0000_0000) by (nonlinear_arith)
                    requires
                        i64::MIN <= self.raw <= i64::MAX,
                        FX_ONE == 65536,
                ;
            }
            let num: i128 = (self.raw as i128) * (FX_ONE as i128);
            proof {
                lemma_div_magnitude(
                    num as int,
                    o.raw as int,
                    0x4000_0000_0000_0000_0000_0000_0000_0000,
                );
            }
            let q: i128 = num.checked_div_euclid(o.raw as i128).unwrap();
            Fx { raw: clamp_i128(q) }
        }
    }

    /// The largest integer at or below the represented value.
    pub fn floor(self) -> (r: i64)
        ensures
            r as int == fx_floor(self@),
    {
        proof {
            lemma_div_magnitude(self.raw as int, FX_ONE as int, 0x8000_0000_0000_0000);
        }
        let q: i128 = (self.raw as i128).checked_div_euclid(FX_ONE as i128).unwrap();
        proof {
            lemma_fundamental_div_mod(self.raw as int, FX_ONE as int);
            assert(i64::MIN <= q <= i64::MAX) by (nonlinear_arith)
                requires
                    q == (self.raw as int) / (FX_ONE as int),
                    (self.raw as int) == (FX_ONE as int) * q + (self.raw as int) % (FX_ONE as int),
                    0 <= (self.raw as int) % (FX_ONE as int) < FX_ONE as int,
                    FX_ONE == 65536,
                    i64::MIN <= self.raw <= i64::MAX,
            ;
        }
        q as i64
    }
}

/// Saturate a wide intermediate result at the `i64` bounds.
pub(crate) fn clamp_i128(v: i128) -> (r: i64)
    ensures
        r as int == fx_clamp(v as int),
{
    if v > i64::MAX as i128 {
        i64::MAX
    } else if v < i64::MIN as i128 {
        i64::MIN
    } else {
        v as i64
    }
}

} // verus!
