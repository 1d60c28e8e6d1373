//! Sine, cosine and tangent on fixed-point scalars.
//!
//! The angle is reduced into one turn, folded into the first quarter by
//! the usual symmetries, and the quarter-turn sine is a five-term series
//! evaluated with the engine's own fixed-point operations.

use vstd::prelude::*;

use crate::fx::{Fx, SCALE, spec_add, spec_sub, spec_mul, spec_div};

verus! {

/// One half turn, in raw units.
pub const PI_RAW: i64 = 31_415_927;

/// One full turn, in raw units.
pub const TWO_PI_RAW: i64 = 62_831_853;

/// One quarter turn, in raw units.
pub const HALF_PI_RAW: i64 = 15_707_963;

/// The series sine of a quarter-turn angle `u`:
/// `u - u^3/3! + u^5/5! - u^7/7! + u^9/9! - u^11/11!`.
pub open spec fn spec_sin_quarter(u: int) -> int {
    let u2 = spec_mul(u, u);
    let u3 = spec_mul(u2, u);
    let u5 = spec_mul(u3, u2);
    let u7 = spec_mul(u5, u2);
    let u9 = spec_mul(u7, u2);
    let u11 = spec_mul(u9, u2);
    spec_sub(
        spec_add(
            spec_sub(
                spec_add(
                    spec_sub(u, spec_div(u3, 6 * (SCALE as int))),
                    spec_div(u5, 120 * (SCALE as int)),
                ),
                spec_div(u7, 5040 * (SCALE as int)),
            ),
            spec_div(u9, 362880 * (SCALE as int)),
        ),
        spec_div(u11, 39916800 * (SCALE as int)),
    )
}

/// The sine of any angle: the angle reduced into one turn, folded by
/// quadrant onto the quarter-turn series.
pub open spec fn spec_sin(a: int) -> int {
    let m = a % (TWO_PI_RAW as int);
    if m <= HALF_PI_RAW {
        spec_sin_quarter(m)
    } else if m <= PI_RAW {
        spec_sin_quarter(PI_RAW - m)
    } else if m <= PI_RAW + HALF_PI_RAW {
        -spec_sin_quarter(m - PI_RAW)
    } else {
        -spec_sin_quarter(TWO_PI_RAW - m)
    }
}

/// The cosine, as the sine shifted a quarter turn.
pub open spec fn spec_cos(a: int) -> int {
    spec_sin(spec_add(a, HALF_PI_RAW as int))
}

/// The tangent, as the quotient of sine by cosine.
pub open spec fn spec_tan(a: int) -> int {
    spec_div(spec_sin(a), spec_cos(a))
}

/// The least non-negative remainder of `a` by `m`.
fn euclid_mod(a: i64, m: i64) -> (r: i64)
    requires
        0 < m,
    ensures
        r as int == (a as int) % (m as int),
        0 <= r < m,
{
    if a >= 0 {
        let r0: u64 = (a as u64) % (m as u64);
        r0 as i64
    } else {
        let am: u128 = (-(a as i128)) as u128;
        let rm: u128 = am % (m as u128);
        let q: u128 = am / (m as u128);
        proof {
            assert(am as int == -(a as int));
            vstd::arithmetic::div_mod::lemma_fundamental_div_mod(am as int, m as int);
            assert(am as int == (m as int) * ((am as int) / (m as int)) + (am as int) % (m as int));
            assert(q as int == (am as int) / (m as int));
            assert(rm as int == (am as int) % (m as int));
            assert(q * m <= am) by (nonlinear_arith)
                requires
                    am as int == (m as int) * (q as int) + (rm as int),
                    rm >= 0,
                    m > 0,
            ;
        }
        if rm == 0 {
            proof {
                assert((a as int) == (-(q as int)) * (m as int) + 0) by (nonlinear_arith)
                    requires
                        am as int == (m as int) * (q as int) + (rm as int),
                        rm == 0,
                        am as int == -(a as int),
                ;
                vstd::arithmetic::div_mod::lemma_fundamental_div_mod_converse_mod(
                    a as int,
                    m as int,
                    -(q as int),
                    0,
                );
            }
            0
        } else {
            proof {
                assert((a as int) == (-(q as int) - 1) * (m as int) + ((m as int) - (rm as int)))
                    by (nonlinear_arith)
                    requires
                        am as int == (m as int) * (q as int) + (rm as int),
                        am as int == -(a as int),
                ;
                vstd::arithmetic::div_mod::lemma_fundamental_div_mod_converse_mod(
                    a as int,
                    m as int,
                    -(q as int) - 1,
                    (m as int) - (rm as int),
                );
            }
            m - (rm as i64)
        }
    }
}

/// The series sine of a quarter-turn angle.
fn sin_quarter(u: Fx) -> (r: Fx)
    ensures
        r.rv() == spec_sin_quarter(u.rv()),
{
    let u2 = u.mul(u);
    let u3 = u2.mul(u);
    let u5 = u3.mul(u2);
    let u7 = u5.mul(u2);
    let u9 = u7.mul(u2);
    let u11 = u9.mul(u2);
    u.sub(u3.div(Fx::from_int(6))).add(u5.div(Fx::from_int(120))).sub(
        u7.div(Fx::from_int(5040)),
    ).add(u9.div(Fx::from_int(362880))).sub(u11.div(Fx::from_int(39916800)))
}

/// The fixed-point sine.
pub fn sin_fx(a: Fx) -> (r: Fx)
    ensures
        r.rv() == spec_sin(a.rv()),
{
    let m: i64 = euclid_mod(a.raw, TWO_PI_RAW);
    if m <= HALF_PI_RAW {
        sin_quarter(Fx { raw: m })
    } else if m <= PI_RAW {
        sin_quarter(Fx { raw: PI_RAW - m })
    } else if m <= PI_RAW + HALF_PI_RAW {
        let s = sin_quarter(Fx { raw: m - PI_RAW });
        proof {
            assert(crate::fx::abs_int(s.rv()) <= crate::fx::RAW_LIMIT as int);
        }
        Fx { raw: -s.raw }
    } else {
        let s = sin_quarter(Fx { raw: TWO_PI_RAW - m });
        proof {
            assert(crate::fx::abs_int(s.rv()) <= crate::fx::RAW_LIMIT as int);
        }
        Fx { raw: -s.raw }
    }
}

/// The fixed-point cosine.
pub fn cos_fx(a: Fx) -> (r: Fx)
    ensures
        r.rv() == spec_cos(a.rv()),
{
    sin_fx(a.add(Fx { raw: HALF_PI_RAW }))
}

/// The fixed-point tangent; zero where the cosine rounds to zero.
pub fn tan_fx(a: Fx) -> (r: Fx)
    ensures
        r.rv() == spec_tan(a.rv()),
{
    sin_fx(a).div(cos_fx(a))
}

} // verus!
