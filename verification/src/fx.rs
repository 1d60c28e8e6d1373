//! Fixed-point scalars.
//!
//! A scalar holds `raw` units of 1e-7, so the value it denotes is
//! `raw / SCALE`.  Every operation clamps its mathematical result into
//! `[-RAW_LIMIT, RAW_LIMIT]` raw units, which keeps all intermediate
//! computations inside `i128` and makes every operation total.

use vstd::prelude::*;

verus! {

/// Number of raw units in one whole unit.
pub const SCALE: i64 = 10_000_000;

/// Largest raw magnitude a scalar can hold (1e8 whole units).
pub const RAW_LIMIT: i64 = 1_000_000_000_000_000;

/// Comparison tolerance, in raw units (1e-5 units).
pub const EPSILON_RAW: i64 = 100;

/// Magnitude of an integer.
pub open spec fn abs_int(a: int) -> int {
    if a < 0 {
        -a
    } else {
        a
    }
}

/// Clamps a mathematical result into the representable raw range.
pub open spec fn clamp_raw(v: int) -> int {
    if v > RAW_LIMIT {
        RAW_LIMIT as int
    } else if v < -(RAW_LIMIT as int) {
        -(RAW_LIMIT as int)
    } else {
        v
    }
}

/// Division truncated toward zero; division by zero yields zero.
pub open spec fn tdiv(a: int, b: int) -> int {
    if b == 0 {
        0
    } else {
        let q = abs_int(a) / abs_int(b);
        if (a < 0) != (b < 0) {
            -q
        } else {
            q
        }
    }
}

/// Division rounded toward negative infinity; division by zero yields zero.
pub open spec fn fdiv(a: int, b: int) -> int
    recommends
        b > 0,
{
    if b == 0 {
        0
    } else {
        a / b
    }
}

/// The integer square root: the largest `r` with `r * r <= n`.
pub open spec fn isqrt_nat(n: nat) -> nat
    decreases n,
{
    if n == 0 {
        0
    } else {
        let r = isqrt_nat((n - 1) as nat);
        if (r + 1) * (r + 1) <= n {
            r + 1
        } else {
            r
        }
    }
}

pub proof fn lemma_isqrt_bounds(n: nat)
    ensures
        isqrt_nat(n) * isqrt_nat(n) <= n,
        n < (isqrt_nat(n) + 1) * (isqrt_nat(n) + 1),
    decreases n,
{
    if n > 0 {
        lemma_isqrt_bounds((n - 1) as nat);
        let r = isqrt_nat((n - 1) as nat);
        if (r + 1) * (r + 1) <= n {
            assert(isqrt_nat(n) == r + 1);
            assert(n - 1 < (r + 1) * (r + 1));
            assert((r + 1) * (r + 1) < (r + 2) * (r + 2)) by (nonlinear_arith);
            assert(n < (r + 2) * (r + 2));
            assert(n < (isqrt_nat(n) + 1) * (isqrt_nat(n) + 1)) by (nonlinear_arith)
                requires
                    n < (r + 2) * (r + 2),
                    isqrt_nat(n) == r + 1,
            ;
        } else {
            assert(isqrt_nat(n) == r);
            assert(r * r <= n - 1);
            assert(n < (isqrt_nat(n) + 1) * (isqrt_nat(n) + 1)) by (nonlinear_arith)
                requires
                    !((r + 1) * (r + 1) <= n),
                    isqrt_nat(n) == r,
            ;
        }
    } else {
        assert(isqrt_nat(0) == 0);
        assert(n < (isqrt_nat(n) + 1) * (isqrt_nat(n) + 1)) by (nonlinear_arith)
            requires
                n == 0,
                isqrt_nat(n) == 0,
        ;
    }
}

pub proof fn lemma_isqrt_unique(n: nat, r: nat)
    requires
        r * r <= n,
        n < (r + 1) * (r + 1),
    ensures
        r == isqrt_nat(n),
{
    lemma_isqrt_bounds(n);
    let s = isqrt_nat(n);
    if r < s {
        assert((r + 1) * (r + 1) <= s * s) by (nonlinear_arith)
            requires
                r + 1 <= s,
        ;
    }
    if s < r {
        assert((s + 1) * (s + 1) <= r * r) by (nonlinear_arith)
            requires
                s + 1 <= r,
        ;
    }
}

/// A product of magnitudes is bounded by the product of their bounds.
proof fn lemma_abs_mul_bound(a: int, b: int, m: int, n: int)
    requires
        abs_int(a) <= m,
        abs_int(b) <= n,
    ensures
        abs_int(a * b) <= m * n,
{
    assert(abs_int(a * b) <= m * n) by (nonlinear_arith)
        requires
            abs_int(a) <= m,
            abs_int(b) <= n,
    ;
}

/// A truncated quotient is no larger in magnitude than the dividend.
pub proof fn lemma_tdiv_bound(a: int, b: int)
    ensures
        abs_int(tdiv(a, b)) <= abs_int(a),
{
    if b != 0 {
        vstd::arithmetic::div_mod::lemma_div_nonincreasing(abs_int(a), abs_int(b));
    }
}

/// Multiplying a bounded raw value by one whole unit gives it back.
pub proof fn lemma_mul_one(a: int)
    requires
        abs_int(a) <= RAW_LIMIT,
    ensures
        spec_mul(a, SCALE as int) == a,
        spec_mul(SCALE as int, a) == a,
{
    assert(abs_int(a * SCALE) == abs_int(a) * SCALE) by (nonlinear_arith);
    assert(abs_int(SCALE * a) == abs_int(a) * SCALE) by (nonlinear_arith);
    assert((SCALE as int) * abs_int(a) == abs_int(a) * SCALE) by (nonlinear_arith);
    vstd::arithmetic::div_mod::lemma_div_multiples_vanish(abs_int(a), SCALE as int);
}

/// A zero factor gives a zero product.
pub proof fn lemma_mul_zero(a: int)
    ensures
        spec_mul(a, 0) == 0,
        spec_mul(0, a) == 0,
{
    assert(a * 0 == 0) by (nonlinear_arith);
    assert(0 * a == 0) by (nonlinear_arith);
}

/// Dividing a bounded raw value by one whole unit gives it back.
pub proof fn lemma_div_one(a: int)
    requires
        abs_int(a) <= RAW_LIMIT,
    ensures
        spec_div(a, SCALE as int) == a,
{
    assert(abs_int(a * SCALE) == abs_int(a) * SCALE) by (nonlinear_arith);
    assert((SCALE as int) * abs_int(a) == abs_int(a) * SCALE) by (nonlinear_arith);
    vstd::arithmetic::div_mod::lemma_div_multiples_vanish(abs_int(a), SCALE as int);
}

/// A fixed-point scalar of `raw` 1e-7 units.
#[derive(Clone, Copy, Debug, PartialEq, Eq, Structural)]
pub struct Fx {
    pub raw: i64,
}

/// The addition every scalar operation is built on.
pub open spec fn spec_add(a: int, b: int) -> int {
    clamp_raw(a + b)
}

pub open spec fn spec_sub(a: int, b: int) -> int {
    clamp_raw(a - b)
}

pub open spec fn spec_neg(a: int) -> int {
    clamp_raw(-a)
}

/// Fixed-point product: the raw product scaled back down, truncated.
pub open spec fn spec_mul(a: int, b: int) -> int {
    clamp_raw(tdiv(a * b, SCALE as int))
}

/// Fixed-point quotient: the dividend scaled up, truncated.
pub open spec fn spec_div(a: int, b: int) -> int {
    clamp_raw(tdiv(a * SCALE, b))
}

/// Fixed-point square root: zero for non-positive arguments.
pub open spec fn spec_sqrt(a: int) -> int {
    if a <= 0 {
        0
    } else {
        isqrt_nat((a * SCALE) as nat) as int
    }
}

/// Whole units below the scalar: the floor of the denoted value.
pub open spec fn spec_floor_units(a: int) -> int {
    fdiv(a, SCALE as int)
}

/// Approximate equality: the difference is under the tolerance.
pub open spec fn spec_approx(a: int, b: int) -> bool {
    abs_int(a - b) < EPSILON_RAW
}

/// Iterated fixed-point product: the scalar raised to a whole power.
pub open spec fn spec_powi(b: int, n: nat) -> int
    decreases n,
{
    if n == 0 {
        SCALE as int
    } else {
        spec_mul(spec_powi(b, (n - 1) as nat), b)
    }
}

/// Clamps an `i128` computation result into the raw range.
fn clamp_i128(v: i128) -> (r: i64)
    ensures
        r as int == clamp_raw(v as int),
{
    if v > RAW_LIMIT as i128 {
        RAW_LIMIT
    } else if v < -(RAW_LIMIT as i128) {
        -RAW_LIMIT
    } else {
        v as i64
    }
}

/// Truncated division on machine integers, away from the extremes.
fn tdiv_i128(a: i128, b: i128) -> (q: i128)
    requires
        abs_int(a as int) <= 0x4000_0000_0000_0000_0000_0000_0000_0000,
        abs_int(b as int) <= 0x4000_0000_0000_0000_0000_0000_0000_0000,
    ensures
        q as int == tdiv(a as int, b as int),
{
    let ua: u128 = if a < 0 {
        (-a) as u128
    } else {
        a as u128
    };
    let ub: u128 = if b < 0 {
        (-b) as u128
    } else {
        b as u128
    };
    if ub == 0 {
        0
    } else {
        let uq: u128 = ua / ub;
        proof {
            assert(ua as int == abs_int(a as int));
            assert(ub as int == abs_int(b as int));
            vstd::arithmetic::div_mod::lemma_div_nonincreasing(ua as int, ub as int);
        }
        if (a < 0) != (b < 0) {
            -(uq as i128)
        } else {
            uq as i128
        }
    }
}

impl Fx {
    /// The denoted raw value, as a mathematical integer.
    pub open spec fn rv(self) -> int {
        self.raw as int
    }

    /// The scalar of a whole number of units.
    pub fn from_int(i: i64) -> (r: Fx)
        ensures
            r.rv() == clamp_raw(i * SCALE),
    {
        proof {
            lemma_abs_mul_bound(i as int, SCALE as int, 0x8000_0000_0000_0000, SCALE as int);
        }
        Fx { raw: clamp_i128((i as i128) * (SCALE as i128)) }
    }

    /// The scalar of a raw unit count.
    pub fn from_raw(raw: i64) -> (r: Fx)
        ensures
            r.rv() == clamp_raw(raw as int),
    {
        Fx { raw: clamp_i128(raw as i128) }
    }

    pub fn zero() -> (r: Fx)
        ensures
            r.rv() == 0,
    {
        Fx { raw: 0 }
    }

    pub fn one() -> (r: Fx)
        ensures
            r.rv() == SCALE,
    {
        Fx { raw: SCALE }
    }

    pub fn add(self, rhs: Fx) -> (r: Fx)
        ensures
            r.rv() == spec_add(self.rv(), rhs.rv()),
    {
        Fx { raw: clamp_i128((self.raw as i128) + (rhs.raw as i128)) }
    }

    pub fn sub(self, rhs: Fx) -> (r: Fx)
        ensures
            r.rv() == spec_sub(self.rv(), rhs.rv()),
    {
        Fx { raw: clamp_i128((self.raw as i128) - (rhs.raw as i128)) }
    }

    pub fn neg(self) -> (r: Fx)
        ensures
            r.rv() == spec_neg(self.rv()),
    {
        Fx { raw: clamp_i128(-(self.raw as i128)) }
    }

    pub fn mul(self, rhs: Fx) -> (r: Fx)
        ensures
            r.rv() == spec_mul(self.rv(), rhs.rv()),
    {
        proof {
            lemma_abs_mul_bound(
                self.raw as int,
                rhs.raw as int,
                0x8000_0000_0000_0000,
                0x8000_0000_0000_0000,
            );
        }
        let p: i128 = (self.raw as i128) * (rhs.raw as i128);
        Fx { raw: clamp_i128(tdiv_i128(p, SCALE as i128)) }
    }

    pub fn div(self, rhs: Fx) -> (r: Fx)
        ensures
            r.rv() == spec_div(self.rv(), rhs.rv()),
    {
        proof {
            lemma_abs_mul_bound(
                self.raw as int,
                SCALE as int,
                0x8000_0000_0000_0000,
                SCALE as int,
            );
        }
        let p: i128 = (self.raw as i128) * (SCALE as i128);
        Fx { raw: clamp_i128(tdiv_i128(p, rhs.raw as i128)) }
    }

    pub fn abs(self) -> (r: Fx)
        ensures
            r.rv() == clamp_raw(abs_int(self.rv())),
    {
        if self.raw < 0 {
            self.neg()
        } else {
            Fx { raw: clamp_i128(self.raw as i128) }
        }
    }

    /// The square root of the denoted value, truncated to raw precision.
    pub fn sqrt(self) -> (r: Fx)
        ensures
            r.rv() == spec_sqrt(self.rv()),
    {
        if self.raw <= 0 {
            Fx { raw: 0 }
        } else {
            proof {
                lemma_abs_mul_bound(
                    self.raw as int,
                    SCALE as int,
                    0x8000_0000_0000_0000,
                    SCALE as int,
                );
            }
            let n: u128 = (self.raw as u128) * (SCALE as u128);
            let r: u128 = isqrt_u128(n);
            proof {
                lemma_isqrt_unique(n as nat, r as nat);
                assert(r < 0x8000_0000_0000_0000) by (nonlinear_arith)
                    requires
                        r * r <= n,
                        n < 0x4000_0000_0000_0000_0000_0000_0000_0000,
                ;
            }
            Fx { raw: r as i64 }
        }
    }

    /// The floor of the denoted value, as a whole unit count.
    pub fn floor_units(self) -> (r: i64)
        ensures
            r as int == spec_floor_units(self.rv()),
    {
        proof {
            lemma_tdiv_bound(self.raw as int, SCALE as int);
        }
        let q: i128 = tdiv_i128(self.raw as i128, SCALE as i128);
        proof {
            lemma_abs_mul_bound(q as int, SCALE as int, 0x8000_0000_0000_0000, SCALE as int);
        }
        let exact: bool = q * (SCALE as i128) == self.raw as i128;
        let f: i128 = if self.raw < 0 && !exact {
            q - 1
        } else {
            q
        };
        proof {
            lemma_floor_from_tdiv(self.raw as int, f as int);
        }
        f as i64
    }

    /// The whole-unit part of the scalar, truncated toward zero.
    pub fn trunc_units(self) -> (r: i64)
        ensures
            r as int == tdiv(self.rv(), SCALE as int),
    {
        proof {
            lemma_tdiv_bound(self.raw as int, SCALE as int);
        }
        let q: i128 = tdiv_i128(self.raw as i128, SCALE as i128);
        q as i64
    }

    /// The scalar raised to a whole-number power.
    pub fn pow(self, n: u32) -> (r: Fx)
        ensures
            r.rv() == spec_powi(self.rv(), n as nat),
    {
        let mut result = Fx::one();
        let mut i: u32 = 0;
        while i < n
            invariant
                i <= n,
                result.rv() == spec_powi(self.rv(), i as nat),
            decreases n - i,
        {
            result = result.mul(self);
            i = i + 1;
        }
        result
    }

    pub fn is_neg(self) -> (r: bool)
        ensures
            r == (self.rv() < 0),
    {
        self.raw < 0
    }
}

/// Whether a unit count is even, by the least non-negative remainder.
pub fn is_even_i128(v: i128) -> (r: bool)
    requires
        v != i128::MIN,
    ensures
        r == ((v as int) % 2 == 0),
{
    if v >= 0 {
        let m: u128 = (v as u128) % 2;
        m == 0
    } else {
        let m: u128 = ((-v) as u128) % 2;
        proof {
            let q = (-(v as int)) / 2;
            vstd::arithmetic::div_mod::lemma_fundamental_div_mod(-(v as int), 2);
            if m == 0 {
                assert((v as int) == (-q) * 2 + 0) by (nonlinear_arith)
                    requires
                        -(v as int) == 2 * q + (m as int),
                        m == 0,
                ;
                vstd::arithmetic::div_mod::lemma_fundamental_div_mod_converse_mod(
                    v as int,
                    2,
                    -q,
                    0,
                );
            } else {
                assert((v as int) == (-q - 1) * 2 + 1) by (nonlinear_arith)
                    requires
                        -(v as int) == 2 * q + (m as int),
                        m == 1,
                ;
                vstd::arithmetic::div_mod::lemma_fundamental_div_mod_converse_mod(
                    v as int,
                    2,
                    -q - 1,
                    1,
                );
            }
        }
        m == 0
    }
}

impl crate::ApproxEq for Fx {
    open spec fn approx_spec(&self, rhs: &Self) -> bool {
        spec_approx(self.rv(), rhs.rv())
    }

    fn approx_eq(&self, rhs: &Self) -> (r: bool) {
        let d: i128 = (self.raw as i128) - (rhs.raw as i128);
        let m: i128 = if d < 0 {
            -d
        } else {
            d
        };
        m < EPSILON_RAW as i128
    }
}

/// Relates truncated division adjusted for sign to floor division.
proof fn lemma_floor_from_tdiv(a: int, f: int)
    requires
        f == if a < 0 && tdiv(a, SCALE as int) * SCALE != a {
            tdiv(a, SCALE as int) - 1
        } else {
            tdiv(a, SCALE as int)
        },
    ensures
        f == fdiv(a, SCALE as int),
{
    let s = SCALE as int;
    if a >= 0 {
        assert(tdiv(a, s) == a / s);
        assert(tdiv(a, s) * s == a ==> f == a / s);
    } else {
        let q = (-a) / s;
        let r = (-a) % s;
        vstd::arithmetic::div_mod::lemma_fundamental_div_mod(-a, s);
        assert(-a == s * q + r);
        assert(tdiv(a, s) == -q);
        if r == 0 {
            assert((-q) * s == -(s * q)) by (nonlinear_arith);
            assert(tdiv(a, s) * s == a);
            assert(a == s * (-q));
            vstd::arithmetic::div_mod::lemma_div_multiples_vanish(-q, s);
            assert(a / s == -q);
        } else {
            assert((-q) * s == -(s * q)) by (nonlinear_arith);
            assert(tdiv(a, s) * s != a);
            assert(a == s * (-q - 1) + (s - r)) by (nonlinear_arith)
                requires
                    a == -(s * q + r),
                    s == SCALE as int,
            ;
            vstd::arithmetic::div_mod::lemma_div_multiples_vanish_fancy(-q - 1, s - r, s);
            assert(a / s == -q - 1);
        }
    }
}

/// Binary search for the integer square root.
fn isqrt_u128(n: u128) -> (r: u128)
    requires
        n < 0x4000_0000_0000_0000_0000_0000_0000_0000,
    ensures
        r * r <= n,
        n < (r + 1) * (r + 1),
{
    let mut lo: u128 = 0;
    let mut hi: u128 = if n < 0x8000_0000_0000_0000 {
        n + 1
    } else {
        0x8000_0000_0000_0000
    };
    proof {
        if n < 0x8000_0000_0000_0000 {
            assert(n < (n + 1) * (n + 1)) by (nonlinear_arith);
        } else {
            assert((0x8000_0000_0000_0000 as int) * (0x8000_0000_0000_0000 as int)
                == 0x4000_0000_0000_0000_0000_0000_0000_0000 as int) by (nonlinear_arith);
        }
    }
    while lo + 1 < hi
        invariant
            lo < hi,
            hi <= 0x8000_0000_0000_0000,
            lo * lo <= n,
            n < hi * hi,
        decreases hi - lo,
    {
        let mid: u128 = lo + (hi - lo) / 2;
        proof {
            assert(mid * mid <= 0x4000_0000_0000_0000_0000_0000_0000_0000) by (nonlinear_arith)
                requires
                    mid <= 0x8000_0000_0000_0000,
            ;
        }
        if mid * mid <= n {
            lo = mid;
        } else {
            hi = mid;
        }
    }
    lo
}

} // verus!
