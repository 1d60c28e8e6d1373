//! Surface patterns: stripes, gradients, rings and checkers.
//!
//! Each pattern holds two colors and its own transform, independent of
//! the owning shape's transform; evaluation happens in pattern space.

use vstd::prelude::*;

use crate::color::{Color, spec_cadd, spec_csub, spec_cscale};
use crate::fx::{
    Fx, SCALE, RAW_LIMIT, abs_int, clamp_raw, is_even_i128, spec_add, spec_sub, spec_mul,
    spec_sqrt, spec_floor_units,
};
use crate::matrix::{Matrix4, MatrixError, spec_identity, spec_invertible, spec_inverse4, spec_mul_point};
use crate::tuple::Point;

verus! {

/// Which of the four pattern rules a pattern follows.
#[derive(Clone, Copy, Debug, PartialEq, Eq, Structural)]
pub enum PatternKind {
    Stripe,
    Gradient,
    Ring,
    Checkers,
}

/// A two-color pattern with its own transform; the stored inverse always
/// matches the transform.
#[derive(Clone, Copy, Debug, PartialEq, Eq, Structural)]
pub struct Pattern {
    pub kind: PatternKind,
    pub a: Color,
    pub b: Color,
    pub transform: Matrix4,
    pub inv: Matrix4,
}

/// An absent transform stands for the identity.
pub open spec fn spec_transform_or_identity(t: Option<Matrix4>) -> Matrix4 {
    match t {
        Some(m) => m,
        None => spec_identity(),
    }
}

impl Pattern {
    /// A pattern is well formed when its stored inverse is the inverse of
    /// an invertible transform.
    pub open spec fn wf(self) -> bool {
        spec_invertible(self.transform) && self.inv == spec_inverse4(self.transform)
    }

    /// Builds a pattern; a transform within tolerance of singular is
    /// rejected, since pattern evaluation needs the inverse.
    pub fn new(kind: PatternKind, a: Color, b: Color, transform: Option<Matrix4>) -> (r: Result<
        Pattern,
        MatrixError,
    >)
        ensures
            spec_invertible(spec_transform_or_identity(transform)) ==> r == Ok::<
                Pattern,
                MatrixError,
            >(
                Pattern {
                    kind,
                    a,
                    b,
                    transform: spec_transform_or_identity(transform),
                    inv: spec_inverse4(spec_transform_or_identity(transform)),
                },
            ),
            !spec_invertible(spec_transform_or_identity(transform)) ==> r == Err::<
                Pattern,
                MatrixError,
            >(MatrixError::NotInvertible),
            r is Ok ==> r->Ok_0.wf(),
    {
        let t = match transform {
            Some(m) => m,
            None => Matrix4::identity(),
        };
        match t.inverse() {
            Ok(inv) => Ok(Pattern { kind, a, b, transform: t, inv }),
            Err(e) => Err(MatrixError::NotInvertible),
        }
    }

    pub fn stripe(a: Color, b: Color, transform: Option<Matrix4>) -> (r: Result<
        Pattern,
        MatrixError,
    >)
        ensures
            spec_invertible(spec_transform_or_identity(transform)) ==> r == Ok::<
                Pattern,
                MatrixError,
            >(
                Pattern {
                    kind: PatternKind::Stripe,
                    a,
                    b,
                    transform: spec_transform_or_identity(transform),
                    inv: spec_inverse4(spec_transform_or_identity(transform)),
                },
            ),
            !spec_invertible(spec_transform_or_identity(transform)) ==> r == Err::<
                Pattern,
                MatrixError,
            >(MatrixError::NotInvertible),
            r is Ok ==> r->Ok_0.wf(),
    {
        Pattern::new(PatternKind::Stripe, a, b, transform)
    }

    pub fn gradient(a: Color, b: Color, transform: Option<Matrix4>) -> (r: Result<
        Pattern,
        MatrixError,
    >)
        ensures
            spec_invertible(spec_transform_or_identity(transform)) ==> r == Ok::<
                Pattern,
                MatrixError,
            >(
                Pattern {
                    kind: PatternKind::Gradient,
                    a,
                    b,
                    transform: spec_transform_or_identity(transform),
                    inv: spec_inverse4(spec_transform_or_identity(transform)),
                },
            ),
            !spec_invertible(spec_transform_or_identity(transform)) ==> r == Err::<
                Pattern,
                MatrixError,
            >(MatrixError::NotInvertible),
            r is Ok ==> r->Ok_0.wf(),
    {
        Pattern::new(PatternKind::Gradient, a, b, transform)
    }

    pub fn ring(a: Color, b: Color, transform: Option<Matrix4>) -> (r: Result<
        Pattern,
        MatrixError,
    >)
        ensures
            spec_invertible(spec_transform_or_identity(transform)) ==> r == Ok::<
                Pattern,
                MatrixError,
            >(
                Pattern {
                    kind: PatternKind::Ring,
                    a,
                    b,
                    transform: spec_transform_or_identity(transform),
                    inv: spec_inverse4(spec_transform_or_identity(transform)),
                },
            ),
            !spec_invertible(spec_transform_or_identity(transform)) ==> r == Err::<
                Pattern,
                MatrixError,
            >(MatrixError::NotInvertible),
            r is Ok ==> r->Ok_0.wf(),
    {
        Pattern::new(PatternKind::Ring, a, b, transform)
    }

    pub fn checkers(a: Color, b: Color, transform: Option<Matrix4>) -> (r: Result<
        Pattern,
        MatrixError,
    >)
        ensures
            spec_invertible(spec_transform_or_identity(transform)) ==> r == Ok::<
                Pattern,
                MatrixError,
            >(
                Pattern {
                    kind: PatternKind::Checkers,
                    a,
                    b,
                    transform: spec_transform_or_identity(transform),
                    inv: spec_inverse4(spec_transform_or_identity(transform)),
                },
            ),
            !spec_invertible(spec_transform_or_identity(transform)) ==> r == Err::<
                Pattern,
                MatrixError,
            >(MatrixError::NotInvertible),
            r is Ok ==> r->Ok_0.wf(),
    {
        Pattern::new(PatternKind::Checkers, a, b, transform)
    }

    pub fn get_transform(&self) -> (r: Matrix4)
        ensures
            r == self.transform,
    {
        self.transform
    }

    /// Replaces the transform; a singular one is rejected and the pattern
    /// is left as it was.
    pub fn set_transform(&mut self, transform: Matrix4) -> (r: Result<(), MatrixError>)
        ensures
            spec_invertible(transform) ==> {
                &&& r == Ok::<(), MatrixError>(())
                &&& *final(self) == (Pattern {
                    transform,
                    inv: spec_inverse4(transform),
                    ..*old(self)
                })
            },
            !spec_invertible(transform) ==> r == Err::<(), MatrixError>(MatrixError::NotInvertible)
                && *final(self) == *old(self),
            old(self).wf() || spec_invertible(transform) ==> final(self).wf(),
    {
        match transform.inverse() {
            Ok(inv) => {
                self.transform = transform;
                self.inv = inv;
                Ok(())
            },
            Err(e) => Err(MatrixError::NotInvertible),
        }
    }

    /// The pattern's color at a point already in pattern space.
    pub fn pattern_at(&self, point: Point) -> (r: Color)
        ensures
            r == spec_pattern_at(*self, point),
    {
        let px = point.x;
        match self.kind {
            PatternKind::Stripe => {
                let f: i64 = px.floor_units();
                if is_even_i128(f as i128) {
                    self.a
                } else {
                    self.b
                }
            },
            PatternKind::Gradient => {
                let f: i64 = px.floor_units();
                let frac = px.sub(Fx::from_int(f));
                self.a.add(self.b.sub(self.a).scale(frac))
            },
            PatternKind::Ring => {
                let m = px.mul(px).add(point.z.mul(point.z)).sqrt();
                let f: i64 = m.floor_units();
                if is_even_i128(f as i128) {
                    self.a
                } else {
                    self.b
                }
            },
            PatternKind::Checkers => {
                let s: i128 = (px.floor_units() as i128) + (point.y.floor_units() as i128)
                    + (point.z.floor_units() as i128);
                if is_even_i128(s) {
                    self.a
                } else {
                    self.b
                }
            },
        }
    }

    /// The pattern's color at a world point on a shape: the point is
    /// carried into object space by the shape's inverse, then into
    /// pattern space by the pattern's own inverse.
    pub fn pattern_at_transformed(&self, object_inverse: &Matrix4, point: Point) -> (r: Color)
        ensures
            r == spec_pattern_at_transformed(*self, *object_inverse, point),
    {
        let object_point = object_inverse.mul_point(point);
        let pattern_point = self.inv.mul_point(object_point);
        self.pattern_at(pattern_point)
    }
}

/// The four pattern rules, on a point in pattern space.
pub open spec fn spec_pattern_at(p: Pattern, point: Point) -> Color {
    let px = point.x.rv();
    match p.kind {
        PatternKind::Stripe => {
            if spec_floor_units(px) % 2 == 0 {
                p.a
            } else {
                p.b
            }
        },
        PatternKind::Gradient => {
            let frac = spec_sub(px, clamp_raw(spec_floor_units(px) * SCALE));
            spec_cadd(p.a, spec_cscale(spec_csub(p.b, p.a), frac))
        },
        PatternKind::Ring => {
            let d = spec_sqrt(
                spec_add(spec_mul(px, px), spec_mul(point.z.rv(), point.z.rv())),
            );
            if spec_floor_units(d) % 2 == 0 {
                p.a
            } else {
                p.b
            }
        },
        PatternKind::Checkers => {
            let s = spec_floor_units(px) + spec_floor_units(point.y.rv()) + spec_floor_units(
                point.z.rv(),
            );
            if s % 2 == 0 {
                p.a
            } else {
                p.b
            }
        },
    }
}

/// Pattern evaluation at a world point: object space, then pattern space.
pub open spec fn spec_pattern_at_transformed(p: Pattern, object_inverse: Matrix4, point: Point) -> Color {
    spec_pattern_at(p, spec_mul_point(p.inv, spec_mul_point(object_inverse, point)))
}

/// Stepping one whole unit along an axis moves the floor by one.
proof fn lemma_floor_unit_step(a: int)
    ensures
        spec_floor_units(a + SCALE) == spec_floor_units(a) + 1,
{
    let s = SCALE as int;
    let q = a / s;
    let r = a % s;
    vstd::arithmetic::div_mod::lemma_fundamental_div_mod(a, s);
    assert(a + s == (q + 1) * s + r) by (nonlinear_arith)
        requires
            a == s * q + r,
    ;
    vstd::arithmetic::div_mod::lemma_fundamental_div_mod_converse_div(a + s, s, q + 1, r);
}

/// The checkers rule alternates at every whole step along the x axis,
/// and so repeats every two units: stepping a point one unit in x
/// swaps the two colors, and stepping it twice gives the original
/// color back.
pub proof fn lemma_checkers_alternation(p: Pattern, point: Point)
    requires
        p.kind == PatternKind::Checkers,
        abs_int(point.x.rv()) + 2 * (SCALE as int) <= RAW_LIMIT as int,
    ensures
        spec_pattern_at(p, Point { x: Fx { raw: (point.x.rv() + SCALE) as i64 }, ..point }) == (
        if spec_pattern_at(p, point) == p.a {
            p.b
        } else {
            p.a
        }),
        spec_pattern_at(p, Point { x: Fx { raw: (point.x.rv() + 2 * SCALE) as i64 }, ..point })
            == spec_pattern_at(p, point),
{
    lemma_floor_unit_step(point.x.rv());
    lemma_floor_unit_step(point.x.rv() + SCALE);
    let f0 = spec_floor_units(point.x.rv()) + spec_floor_units(point.y.rv())
        + spec_floor_units(point.z.rv());
    assert((f0 + 1) % 2 != f0 % 2 && (f0 + 2) % 2 == f0 % 2) by (nonlinear_arith);
}

} // verus!
